//! The schema registry: validates and compiles Schema registrations and
//! keeps a lazily filled cache of compiled validators, keyed by schema name
//! (`"{kind}.{group}.{version}"`).
//!
//! A cache miss reads the Schema object from the store, compiles it and
//! caches the result. Nothing else refreshes an entry: an entry may lag
//! behind the stored Schema until it is replaced or evicted.

use std::sync::Arc;
use vstd::prelude::*;
use dashmap::DashMap;
use crate::error::AppError;
use crate::json::{JsonTree, JsonValue};
use crate::jsontext::json_text;
use crate::keys::{KeyView, ResourceKey, schema_cache_key, schema_key, spec_schema_cache_key, spec_schema_key};
use crate::meta_schema::{JsonSchemaValidator, compile_failure, schema_accepts, schema_compiles, validation_errors};
use crate::schema_data::{SchemaData, SchemaDataView, parse_schema_data};
use crate::store::{Ident, InMemoryStore, identity, left_out, eligible, page_answers, pos_lt, lemma_pos_irreflexive};
use crate::text::str_equal;
use crate::types::{ListOptions, ListResponse, ObjectView, object_views};

verus! {

broadcast use vstd::std_specs::vec::group_vec_axioms;

/// A cached schema: the compiled spec validator, the compiled status
/// validator when the kind has a status subresource, and the kind's scope.
pub struct CachedSchema {
    pub validator: Arc<JsonSchemaValidator>,
    pub status_validator: Option<Arc<JsonSchemaValidator>>,
    pub scope: String,
}

/// What the cache keeps for one schema: the texts its validators were
/// compiled from, and the scope.
pub open spec fn entry_view(c: CachedSchema) -> (Seq<char>, Option<Seq<char>>, Seq<char>) {
    (c.validator@, opt_source(c.status_validator), c.scope@)
}

pub open spec fn opt_source(v: Option<Arc<JsonSchemaValidator>>) -> Option<Seq<char>> {
    match v {
        Some(x) => Some(x@),
        None => None,
    }
}

/// The entries of a schema cache.
pub uninterp spec fn cache_contents(m: DashMap<String, CachedSchema>) -> Map<Seq<char>, (Seq<char>, Option<Seq<char>>, Seq<char>)>;

/// `DashMap::new()`.
#[verifier::external_body]
fn cache_new() -> (m: DashMap<String, CachedSchema>)
    ensures
        cache_contents(m).dom().len() == 0,
        cache_contents(m).dom().finite(),
{
    DashMap::new()
}

/// `DashMap::get`, with the entry's parts copied out of the read guard
/// (`Arc::clone` of the validators).
#[verifier::external_body]
fn cache_get(m: &DashMap<String, CachedSchema>, k: &str) -> (r: Option<CachedSchema>)
    ensures
        r is Some <==> cache_contents(*m).contains_key(k@),
        r matches Some(c) ==> entry_view(c) == cache_contents(*m)[k@],
{
    match m.get(k) {
        Some(c) => Some(CachedSchema {
            validator: c.validator.clone(),
            status_validator: c.status_validator.clone(),
            scope: c.scope.clone(),
        }),
        None => None,
    }
}

/// `DashMap::contains_key`.
#[verifier::external_body]
fn cache_has(m: &DashMap<String, CachedSchema>, k: &str) -> (r: bool)
    ensures
        r == cache_contents(*m).contains_key(k@),
{
    m.contains_key(k)
}

/// `DashMap::insert`.
#[verifier::external_body]
fn cache_insert(m: &mut DashMap<String, CachedSchema>, k: String, v: CachedSchema)
    ensures
        cache_contents(*final(m)) == cache_contents(*old(m)).insert(k@, entry_view(v)),
{
    m.insert(k, v);
}

/// `DashMap::remove`.
#[verifier::external_body]
fn cache_remove(m: &mut DashMap<String, CachedSchema>, k: &str)
    ensures
        cache_contents(*final(m)) == cache_contents(*old(m)).remove(k@),
{
    m.remove(k);
}

/// `Arc::clone`: another handle to the same validator.
#[verifier::external_body]
fn share(v: &Arc<JsonSchemaValidator>) -> (r: Arc<JsonSchemaValidator>)
    ensures
        r == *v,
{
    Arc::clone(v)
}

/// The schema name, and cache key, of a kind.
pub open spec fn schema_name_of(key: KeyView) -> Seq<char> {
    spec_schema_cache_key(key.kind, key.group, key.version)
}

/// The stored Schema object named `name`, if any.
pub open spec fn schema_object(store: Map<Ident, ObjectView>, name: Seq<char>) -> Option<ObjectView> {
    store.get(Ident { key: spec_schema_key(), namespace: None, name })
}

/// Why a stored schema could not be loaded.
pub enum LoadFailure {
    /// No Schema object has the name.
    Missing,
    /// The Schema object's spec is not a registration payload.
    Unreadable(Seq<char>),
    /// The spec schema, or the status schema, does not compile; what
    /// `jsonschema` said.
    Uncompilable(Seq<char>),
    /// The kind has no status schema.
    NoStatus,
}

/// The error a client gets for a failed load of the schema `name` of `kind`.
pub open spec fn reports_load_failure(e: AppError, f: LoadFailure, name: Seq<char>, kind: Seq<char>) -> bool {
    match f {
        LoadFailure::Missing => e matches AppError::NotFound { what, identifier } && what@ == "schema"@ && identifier@ == name,
        LoadFailure::Unreadable(m) => e matches AppError::InvalidSchema(s) && s@ == "failed to parse schema data: "@ + m,
        LoadFailure::Uncompilable(m) => e matches AppError::StoredSchemaCompilationFailed { schema_name, reason }
            && schema_name@ == name && reason@ == "failed to compile schema: "@ + m,
        LoadFailure::NoStatus => e matches AppError::StatusSubresourceNotEnabled { kind: k } && k@ == kind,
    }
}

/// The cache entry for registration data whose schemas compile.
pub open spec fn entry_of(d: SchemaDataView) -> (Seq<char>, Option<Seq<char>>, Seq<char>) {
    (json_text(d.spec_schema), match d.status_schema { Some(s) => Some(json_text(s)), None => None }, d.scope)
}

/// Loading the stored schema `name` in full: its object, its registration
/// data, its spec schema compiled, then its status schema compiled.
pub open spec fn load_schema(store: Map<Ident, ObjectView>, name: Seq<char>) -> Result<SchemaDataView, LoadFailure> {
    match schema_object(store, name) {
        None => Err(LoadFailure::Missing),
        Some(o) => match parse_schema_data(o.spec) {
            Err(m) => Err(LoadFailure::Unreadable(m)),
            Ok(d) => if !schema_compiles(json_text(d.spec_schema)) {
                Err(LoadFailure::Uncompilable(compile_failure(json_text(d.spec_schema))))
            } else {
                match d.status_schema {
                    Some(s) => if !schema_compiles(json_text(s)) {
                        Err(LoadFailure::Uncompilable(compile_failure(json_text(s))))
                    } else {
                        Ok(d)
                    },
                    None => Ok(d),
                }
            },
        },
    }
}

/// Loading the status schema of the stored schema `name`; the spec schema is
/// compiled too unless the cache already has an entry (`cached`).
pub open spec fn load_status(store: Map<Ident, ObjectView>, name: Seq<char>, cached: bool) -> Result<SchemaDataView, LoadFailure> {
    match schema_object(store, name) {
        None => Err(LoadFailure::Missing),
        Some(o) => match parse_schema_data(o.spec) {
            Err(m) => Err(LoadFailure::Unreadable(m)),
            Ok(d) => match d.status_schema {
                None => Err(LoadFailure::NoStatus),
                Some(s) => if !schema_compiles(json_text(s)) {
                    Err(LoadFailure::Uncompilable(compile_failure(json_text(s))))
                } else if !cached && !schema_compiles(json_text(d.spec_schema)) {
                    Err(LoadFailure::Uncompilable(compile_failure(json_text(d.spec_schema))))
                } else {
                    Ok(d)
                },
            },
        },
    }
}

/// The entries of a schema cache: for each schema name, the texts of the
/// spec and status schemas and the scope.
pub type CacheView = Map<Seq<char>, (Seq<char>, Option<Seq<char>>, Seq<char>)>;

/// What looking up the validator of kind `key` gives: the text of its spec
/// schema and its scope, from the cache entry when there is one, else from
/// the stored Schema.
pub open spec fn validator_lookup(c: CacheView, store: Map<Ident, ObjectView>, key: KeyView) -> Result<(Seq<char>, Seq<char>), LoadFailure> {
    let name = schema_name_of(key);
    if c.contains_key(name) {
        Ok((c[name].0, c[name].2))
    } else {
        match load_schema(store, name) {
            Ok(d) => Ok((json_text(d.spec_schema), d.scope)),
            Err(f) => Err(f),
        }
    }
}

/// The cache after such a lookup: a loaded schema is cached.
pub open spec fn after_lookup(c: CacheView, store: Map<Ident, ObjectView>, key: KeyView) -> CacheView {
    let name = schema_name_of(key);
    if c.contains_key(name) {
        c
    } else {
        match load_schema(store, name) {
            Ok(d) => c.insert(name, entry_of(d)),
            Err(_) => c,
        }
    }
}

/// What looking up the status validator of kind `key` gives: the text of
/// its status schema.
pub open spec fn status_lookup(c: CacheView, store: Map<Ident, ObjectView>, key: KeyView) -> Result<Seq<char>, LoadFailure> {
    let name = schema_name_of(key);
    if c.contains_key(name) && c[name].1 is Some {
        Ok(c[name].1->0)
    } else {
        match load_status(store, name, c.contains_key(name)) {
            Ok(d) => Ok(json_text(d.status_schema->0)),
            Err(f) => Err(f),
        }
    }
}

/// The cache after a status lookup: a loaded status schema joins the entry,
/// or a full entry is cached.
pub open spec fn after_status_lookup(c: CacheView, store: Map<Ident, ObjectView>, key: KeyView) -> CacheView {
    let name = schema_name_of(key);
    if c.contains_key(name) && c[name].1 is Some {
        c
    } else {
        match load_status(store, name, c.contains_key(name)) {
            Ok(d) => if c.contains_key(name) {
                c.insert(name, (c[name].0, entry_of(d).1, c[name].2))
            } else {
                c.insert(name, entry_of(d))
            },
            Err(_) => c,
        }
    }
}

/// The messages of validation errors, joined with `"; "`.
pub open spec fn joined_messages(errs: Seq<(Seq<char>, Seq<char>)>) -> Seq<char>
    decreases errs.len(),
{
    if errs.len() == 0 {
        Seq::empty()
    } else if errs.len() == 1 {
        errs[0].1
    } else {
        joined_messages(errs.drop_last()) + "; "@ + errs.last().1
    }
}

/// What registering `spec` gives: the meta-schema check, then the payload
/// read, then the spec schema and the status schema compiled. The error is
/// the message of an `InvalidSchema`.
pub open spec fn registration(meta: Seq<char>, spec: JsonTree) -> Result<SchemaDataView, Seq<char>> {
    let text = json_text(spec);
    if !schema_accepts(meta, text) {
        Err(joined_messages(validation_errors(meta, text)))
    } else {
        match parse_schema_data(spec) {
            Err(m) => Err("failed to parse schema data: "@ + m),
            Ok(d) => if !schema_compiles(json_text(d.spec_schema)) {
                Err("failed to compile specSchema: failed to compile schema: "@ + compile_failure(json_text(d.spec_schema)))
            } else {
                match d.status_schema {
                    Some(s) => if !schema_compiles(json_text(s)) {
                        Err("failed to compile statusSchema: failed to compile schema: "@ + compile_failure(json_text(s)))
                    } else {
                        Ok(d)
                    },
                    None => Ok(d),
                }
            },
        }
    }
}

/// Whether the stored object is a Schema whose payload reads and whose kind
/// is namespaced; `k` is then that kind.
#[verifier::opaque]
pub open spec fn namespaced_kind(o: ObjectView, k: KeyView) -> bool {
    o.key == spec_schema_key() && match parse_schema_data(o.spec) {
        Ok(d) => d.scope == "Namespaced"@ && k == (KeyView { group: d.group, version: d.version, kind: d.kind }),
        Err(_) => false,
    }
}

/// Whether some stored Schema registers the namespaced kind `k`.
pub open spec fn registered_namespaced(store: Map<Ident, ObjectView>, k: KeyView) -> bool {
    exists|id: Ident| store.contains_key(id) && #[trigger] namespaced_kind(store[id], k)
}

/// Whether some object among `items` registers the namespaced kind `k`.
pub open spec fn among_namespaced(items: Seq<crate::types::StoredObject>, k: KeyView) -> bool {
    exists|j: int| 0 <= j < items.len() && #[trigger] namespaced_kind(items[j]@, k)
}

/// Whether `k` is one of `keys`.
pub open spec fn listed(keys: Seq<ResourceKey>, k: KeyView) -> bool {
    exists|a: int| 0 <= a < keys.len() && #[trigger] keys[a]@ == k
}

/// The kinds that the Schemas among `items` register as namespaced, in
/// order, one per such Schema.
pub open spec fn namespaced_keys_in(items: Seq<ObjectView>) -> Seq<KeyView>
    decreases items.len(),
{
    if items.len() == 0 {
        Seq::empty()
    } else {
        let before = namespaced_keys_in(items.drop_last());
        match parse_schema_data(items.last().spec) {
            Ok(d) => if d.scope == "Namespaced"@ {
                before.push(KeyView { group: d.group, version: d.version, kind: d.kind })
            } else {
                before
            },
            Err(_) => before,
        }
    }
}

/// The views of a list of keys.
pub open spec fn key_views(keys: Seq<ResourceKey>) -> Seq<KeyView> {
    keys.map_values(|k: ResourceKey| k@)
}

/// The request that lists every Schema: no namespace filter, no cursor, no
/// selector, the largest limit.
pub open spec fn schema_listing() -> ListOptions {
    ListOptions { limit: Some(usize::MAX), continue_token: None, field_selector: None, label_selector: None }
}

/// The kinds of the namespaced Schemas among `items`, in order.
fn namespaced_keys_of(items: &Vec<crate::types::StoredObject>) -> (r: Result<Vec<ResourceKey>, AppError>)
    requires
        forall|j: int| 0 <= j < items@.len() ==> (#[trigger] items@[j])@.key == spec_schema_key(),
    ensures
        match r {
            Ok(keys) => (forall|a: int| 0 <= a < keys@.len() ==> among_namespaced(items@, #[trigger] keys@[a]@))
                && (forall|kv: KeyView| #[trigger] among_namespaced(items@, kv) ==> listed(keys@, kv))
                && key_views(keys@) == namespaced_keys_in(object_views(items@)),
            Err(e) => e is InvalidSchema && exists|j: int| 0 <= j < items@.len() && parse_schema_data(#[trigger] items@[j]@.spec) is Err,
        },
        (forall|j: int| 0 <= j < items@.len() ==> parse_schema_data(#[trigger] items@[j]@.spec) is Ok) ==> r is Ok,
{
    let mut keys: Vec<ResourceKey> = Vec::new();
    let ghost mut src: Seq<int> = Seq::empty();
    let mut i: usize = 0;
    while i < items.len()
        invariant
            0 <= i <= items.len(),
            forall|j: int| 0 <= j < items@.len() ==> (#[trigger] items@[j])@.key == spec_schema_key(),
            src.len() == keys@.len(),
            forall|a: int| 0 <= a < keys@.len() ==> 0 <= #[trigger] src[a] < i && namespaced_kind(items@[src[a]]@, keys@[a]@),
            forall|j: int, kv: KeyView| 0 <= j < i && #[trigger] namespaced_kind(items@[j]@, kv)
                ==> exists|a: int| 0 <= a < keys@.len() && keys@[a]@ == kv,
            key_views(keys@) == namespaced_keys_in(object_views(items@).take(i as int)),
        decreases items.len() - i,
    {
        proof {
            assert(object_views(items@).take(i + 1).drop_last() =~= object_views(items@).take(i as int));
            assert(object_views(items@).take(i + 1).last() == items@[i as int]@);
        }
        let obj = &items[i];
        let ghost ov = items@[i as int]@;
        let data = match SchemaData::from_json(&obj.spec) {
            Ok(d) => d,
            Err(e) => {
                let mut msg = String::from_str("failed to parse schema data: ");
                msg.append(e.as_str());
                assert(parse_schema_data(ov.spec) is Err);
                return Err(AppError::InvalidSchema(msg));
            },
        };
        let ghost before = keys@;
        let ghost src0 = src;
        if str_equal(data.scope.as_str(), "Namespaced") {
            let kv = ResourceKey { group: data.target_group, version: data.target_version, kind: data.target_kind };
            keys.push(kv);
            proof {
                assert(key_views(keys@) =~= key_views(before).push(keys@[keys@.len() - 1]@));
                src = src.push(i as int);
                let last = keys@.len() - 1;
                assert(namespaced_kind(ov, keys@[last]@)) by {
                    reveal(namespaced_kind);
                }
                assert forall|a: int| 0 <= a < keys@.len() implies 0 <= #[trigger] src[a] < i + 1
                    && namespaced_kind(items@[src[a]]@, keys@[a]@) by {
                    if a < last {
                        assert(keys@[a] == before[a] && src[a] == src0[a]);
                    }
                }
                assert forall|j: int, kv2: KeyView| 0 <= j < i + 1 && #[trigger] namespaced_kind(items@[j]@, kv2)
                    implies exists|a: int| 0 <= a < keys@.len() && keys@[a]@ == kv2 by {
                    if j < i {
                        let a = choose|a: int| 0 <= a < before.len() && before[a]@ == kv2;
                        assert(keys@[a] == before[a]);
                    } else {
                        assert(keys@[last]@ == kv2) by {
                            reveal(namespaced_kind);
                        }
                    }
                }
            }
        } else {
            proof {
                assert(key_views(keys@) == key_views(before));
                assert forall|j: int, kv2: KeyView| 0 <= j < i + 1 && #[trigger] namespaced_kind(items@[j]@, kv2)
                    implies exists|a: int| 0 <= a < keys@.len() && keys@[a]@ == kv2 by {
                    if j == i {
                        assert(!namespaced_kind(items@[j]@, kv2)) by {
                            reveal(namespaced_kind);
                        }
                    }
                }
            }
        }
        i = i + 1;
    }
    proof {
        assert(object_views(items@).take(items@.len() as int) =~= object_views(items@));
    }
    proof {
        assert forall|a: int| 0 <= a < keys@.len() implies among_namespaced(items@, #[trigger] keys@[a]@) by {
            assert(namespaced_kind(items@[src[a]]@, keys@[a]@));
        }
        assert forall|kv: KeyView| #[trigger] among_namespaced(items@, kv) implies listed(keys@, kv) by {
            let j = choose|j: int| 0 <= j < items@.len() && #[trigger] namespaced_kind(items@[j]@, kv);
            let a = choose|a: int| 0 <= a < keys@.len() && keys@[a]@ == kv;
            assert(keys@[a]@ == kv);
        }
    }
    Ok(keys)
}

/// Validates, compiles and caches schemas.
pub struct SchemaRegistry {
    meta_validator: Arc<JsonSchemaValidator>,
    cache: DashMap<String, CachedSchema>,
}

impl View for SchemaRegistry {
    type V = Map<Seq<char>, (Seq<char>, Option<Seq<char>>, Seq<char>)>;

    /// The cache: for each schema name, the entry kept for it.
    closed spec fn view(&self) -> Self::V {
        cache_contents(self.cache)
    }
}

/// Compiles a stored schema, reporting a failure against the schema `name`.
fn compile_stored(schema: &JsonValue, name: &str) -> (r: Result<Arc<JsonSchemaValidator>, AppError>)
    ensures
        r is Ok <==> schema_compiles(json_text(schema@)),
        r matches Ok(v) ==> v@ == json_text(schema@),
        r matches Err(e) ==> reports_load_failure(e, LoadFailure::Uncompilable(compile_failure(json_text(schema@))), name@, Seq::empty()),
{
    match JsonSchemaValidator::compile(schema) {
        Ok(v) => Ok(Arc::new(v)),
        Err(reason) => {
            Err(AppError::StoredSchemaCompilationFailed { schema_name: String::from_str(name), reason })
        },
    }
}

/// Reads the stored Schema object `name` and its registration data.
fn read_stored(store: &InMemoryStore, name: &str) -> (r: Result<SchemaData, AppError>)
    ensures
        match schema_object(store@, name@) {
            None => r matches Err(e) && reports_load_failure(e, LoadFailure::Missing, name@, Seq::empty()),
            Some(o) => match parse_schema_data(o.spec) {
                Err(m) => r matches Err(e) && reports_load_failure(e, LoadFailure::Unreadable(m), name@, Seq::empty()),
                Ok(d) => r matches Ok(x) && x@ == d,
            },
        },
{
    let key = schema_key();
    let obj = match store.get(&key, None, name) {
        Ok(o) => o,
        Err(_) => {
            return Err(AppError::NotFound { what: String::from_str("schema"), identifier: String::from_str(name) });
        },
    };
    proof {
        assert(schema_object(store@, name@) == Some(obj@));
    }
    match SchemaData::from_json(&obj.spec) {
        Ok(d) => Ok(d),
        Err(m) => {
            let mut msg = String::from_str("failed to parse schema data: ");
            msg.append(m.as_str());
            Err(AppError::InvalidSchema(msg))
        },
    }
}

fn join_messages(errs: &Vec<crate::meta_schema::SchemaValidationError>, Ghost(named): Ghost<Seq<(Seq<char>, Seq<char>)>>) -> (r: String)
    requires
        errs@.len() == named.len(),
        forall|i: int| 0 <= i < errs@.len() ==> (#[trigger] errs@[i]).message@ == named[i].1,
    ensures
        r@ == joined_messages(named),
{
    let mut r = String::new();
    let mut i: usize = 0;
    while i < errs.len()
        invariant
            0 <= i <= errs.len(),
            errs@.len() == named.len(),
            forall|j: int| 0 <= j < errs@.len() ==> (#[trigger] errs@[j]).message@ == named[j].1,
            r@ == joined_messages(named.take(i as int)),
        decreases errs.len() - i,
    {
        proof {
            assert(named.take(i + 1).drop_last() =~= named.take(i as int));
            assert(named.take(i + 1).last() == named[i as int]);
        }
        if i > 0 {
            r.append("; ");
        }
        r.append(errs[i].message.as_str());
        proof {
            if i == 0 {
                assert(r@ =~= joined_messages(named.take(1)));
            } else {
                assert(r@ =~= joined_messages(named.take(i + 1)));
            }
        }
        i = i + 1;
    }
    assert(named.take(errs.len() as int) =~= named);
    r
}

impl SchemaRegistry {
    /// The text of the meta-schema that registrations are checked against.
    pub closed spec fn meta(&self) -> Seq<char> {
        self.meta_validator@
    }

    /// A registry with an empty cache.
    pub fn new(meta_validator: Arc<JsonSchemaValidator>) -> (r: SchemaRegistry)
        ensures
            r@ == Map::<Seq<char>, (Seq<char>, Option<Seq<char>>, Seq<char>)>::empty(),
            r.meta() == meta_validator@,
    {
        SchemaRegistry { meta_validator, cache: cache_new() }
    }

    /// Checks `spec` against the meta-schema, reads it as registration data
    /// and compiles its spec schema and, when present, its status schema.
    /// Nothing is cached.
    pub fn validate_and_compile(&self, spec: &JsonValue) -> (r: Result<(SchemaData, Arc<JsonSchemaValidator>, Option<Arc<JsonSchemaValidator>>), AppError>)
        ensures
            match registration(self.meta(), spec@) {
                Ok(d) => r matches Ok((data, v, sv)) && data@ == d && v@ == json_text(d.spec_schema)
                    && opt_source(sv) == entry_of(d).1,
                Err(m) => r matches Err(AppError::InvalidSchema(x)) && x@ == m,
            },
    {
        if !self.meta_validator.is_valid(spec) {
            let errors = self.meta_validator.validate(spec);
            let ghost named = validation_errors(self.meta(), json_text(spec@));
            let msg = join_messages(&errors, Ghost(named));
            return Err(AppError::InvalidSchema(msg));
        }
        let data = match SchemaData::from_json(spec) {
            Ok(d) => d,
            Err(m) => {
                let mut msg = String::from_str("failed to parse schema data: ");
                msg.append(m.as_str());
                return Err(AppError::InvalidSchema(msg));
            },
        };
        let validator = match JsonSchemaValidator::compile(&data.spec_schema) {
            Ok(v) => Arc::new(v),
            Err(e) => {
                let mut msg = String::from_str("failed to compile specSchema: ");
                proof {
                    reveal_strlit("failed to compile specSchema: ");
                    reveal_strlit("failed to compile schema: ");
                    reveal_strlit("failed to compile specSchema: failed to compile schema: ");
                }
                msg.append(e.as_str());
                assert(msg@ =~= "failed to compile specSchema: failed to compile schema: "@ + compile_failure(json_text(data@.spec_schema)));
                return Err(AppError::InvalidSchema(msg));
            },
        };
        let status_validator = match &data.status_schema {
            Some(s) => match JsonSchemaValidator::compile(s) {
                Ok(v) => Some(Arc::new(v)),
                Err(e) => {
                    let mut msg = String::from_str("failed to compile statusSchema: ");
                    proof {
                        reveal_strlit("failed to compile statusSchema: ");
                        reveal_strlit("failed to compile schema: ");
                        reveal_strlit("failed to compile statusSchema: failed to compile schema: ");
                    }
                    msg.append(e.as_str());
                    assert(msg@ =~= "failed to compile statusSchema: failed to compile schema: "@ + compile_failure(json_text(s@)));
                    return Err(AppError::InvalidSchema(msg));
                },
            },
            None => None,
        };
        Ok((data, validator, status_validator))
    }

    /// Whether the cache has an entry for `name`.
    pub fn is_cached(&self, name: &str) -> (b: bool)
        ensures
            b == self@.contains_key(name@),
    {
        cache_has(&self.cache, name)
    }

    /// The compiled spec validator and the scope of the kind `key`.
    ///
    /// Served from the cache when it has an entry for the kind's schema name;
    /// otherwise the stored Schema is read and compiled, and on success cached.
    pub fn get_validator(&mut self, store: &InMemoryStore, key: &ResourceKey) -> (r: Result<(Arc<JsonSchemaValidator>, String), AppError>)
        ensures
            final(self).meta() == old(self).meta(),
            final(self)@ == after_lookup(old(self)@, store@, key@),
            match validator_lookup(old(self)@, store@, key@) {
                Ok((v, s)) => r matches Ok((x, y)) && x@ == v && y@ == s,
                Err(f) => r matches Err(e) && reports_load_failure(e, f, schema_name_of(key@), key@.kind),
            },
    {
        let name = schema_cache_key(key.kind.as_str(), key.group.as_str(), key.version.as_str());
        match cache_get(&self.cache, name.as_str()) {
            Some(c) => {
                return Ok((c.validator, c.scope));
            },
            None => {},
        }
        let data = match read_stored(store, name.as_str()) {
            Ok(d) => d,
            Err(e) => return Err(e),
        };
        let compiled = match compile_stored(&data.spec_schema, name.as_str()) {
            Ok(v) => v,
            Err(e) => return Err(e),
        };
        let status_validator = match &data.status_schema {
            Some(ss) => match compile_stored(ss, name.as_str()) {
                Ok(v) => Some(v),
                Err(e) => return Err(e),
            },
            None => None,
        };
        let scope = data.scope.clone();
        let entry = CachedSchema { validator: share(&compiled), status_validator, scope: data.scope };
        cache_insert(&mut self.cache, name, entry);
        Ok((compiled, scope))
    }

    /// Caches `validator` and `scope` under `name`, replacing any entry; the
    /// entry has no status validator.
    pub fn insert(&mut self, name: &str, validator: Arc<JsonSchemaValidator>, scope: &str)
        ensures
            final(self).meta() == old(self).meta(),
            final(self)@ == old(self)@.insert(name@, (validator@, None, scope@)),
    {
        let entry = CachedSchema { validator, status_validator: None, scope: String::from_str(scope) };
        cache_insert(&mut self.cache, String::from_str(name), entry);
    }

    /// Drops the entry for `name`, if there is one.
    pub fn evict(&mut self, name: &str)
        ensures
            final(self).meta() == old(self).meta(),
            final(self)@ == old(self)@.remove(name@),
    {
        cache_remove(&mut self.cache, name);
    }

    /// The compiled status validator of the kind `key`.
    ///
    /// Served from the cache when its entry has one; otherwise the stored
    /// Schema is read and its status schema compiled. The status validator
    /// then joins the cached entry, or, when there is none, a full entry is
    /// compiled and cached.
    pub fn get_status_validator(&mut self, store: &InMemoryStore, key: &ResourceKey) -> (r: Result<Arc<JsonSchemaValidator>, AppError>)
        ensures
            final(self).meta() == old(self).meta(),
            final(self)@ == after_status_lookup(old(self)@, store@, key@),
            match status_lookup(old(self)@, store@, key@) {
                Ok(v) => r matches Ok(x) && x@ == v,
                Err(f) => r matches Err(e) && reports_load_failure(e, f, schema_name_of(key@), key@.kind),
            },
    {
        let name = schema_cache_key(key.kind.as_str(), key.group.as_str(), key.version.as_str());
        let cached = cache_get(&self.cache, name.as_str());
        match &cached {
            Some(c) => match &c.status_validator {
                Some(sv) => {
                    return Ok(share(sv));
                },
                None => {},
            },
            None => {},
        }
        let data = match read_stored(store, name.as_str()) {
            Ok(d) => d,
            Err(e) => return Err(e),
        };
        let status_schema = match &data.status_schema {
            Some(s) => s,
            None => {
                return Err(AppError::StatusSubresourceNotEnabled { kind: key.kind.clone() });
            },
        };
        let compiled = match compile_stored(status_schema, name.as_str()) {
            Ok(v) => v,
            Err(e) => return Err(e),
        };
        match cached {
            Some(c) => {
                let entry = CachedSchema { validator: c.validator, status_validator: Some(share(&compiled)), scope: c.scope };
                cache_insert(&mut self.cache, name, entry);
            },
            None => {
                let spec_compiled = match compile_stored(&data.spec_schema, name.as_str()) {
                    Ok(v) => v,
                    Err(e) => return Err(e),
                };
                let entry = CachedSchema { validator: spec_compiled, status_validator: Some(share(&compiled)), scope: data.scope };
                cache_insert(&mut self.cache, name, entry);
            },
        }
        Ok(compiled)
    }

    /// Adds `validator` as the status validator of the entry for `name`; no
    /// change when the cache has no entry for it.
    pub fn insert_status(&mut self, name: &str, validator: Arc<JsonSchemaValidator>)
        ensures
            final(self).meta() == old(self).meta(),
            old(self)@.contains_key(name@) ==> final(self)@ == old(self)@.insert(name@, (old(self)@[name@].0, Some(validator@), old(self)@[name@].2)),
            !old(self)@.contains_key(name@) ==> final(self)@ == old(self)@,
    {
        match cache_get(&self.cache, name) {
            Some(c) => {
                let entry = CachedSchema { validator: c.validator, status_validator: Some(validator), scope: c.scope };
                cache_insert(&mut self.cache, String::from_str(name), entry);
            },
            None => {},
        }
    }

    /// The scope of the kind `key`, from the cache or, on a miss, from the
    /// stored Schema, which is then compiled and cached.
    pub fn get_scope(&mut self, store: &InMemoryStore, key: &ResourceKey) -> (r: Result<String, AppError>)
        ensures
            final(self).meta() == old(self).meta(),
            final(self)@ == after_lookup(old(self)@, store@, key@),
            match validator_lookup(old(self)@, store@, key@) {
                Ok((v, s)) => r matches Ok(y) && y@ == s,
                Err(f) => r matches Err(e) && reports_load_failure(e, f, schema_name_of(key@), key@.kind),
            },
    {
        let name = schema_cache_key(key.kind.as_str(), key.group.as_str(), key.version.as_str());
        match cache_get(&self.cache, name.as_str()) {
            Some(c) => {
                return Ok(c.scope);
            },
            None => {},
        }
        let data = match read_stored(store, name.as_str()) {
            Ok(d) => d,
            Err(e) => return Err(e),
        };
        let compiled = match compile_stored(&data.spec_schema, name.as_str()) {
            Ok(v) => v,
            Err(e) => return Err(e),
        };
        let status_validator = match &data.status_schema {
            Some(ss) => match compile_stored(ss, name.as_str()) {
                Ok(v) => Some(v),
                Err(e) => return Err(e),
            },
            None => None,
        };
        let scope = data.scope.clone();
        cache_insert(&mut self.cache, name, CachedSchema { validator: compiled, status_validator, scope: data.scope });
        Ok(scope)
    }

    /// The kinds of every registered namespaced Schema, in the order a list of
    /// all Schema objects gives them.
    ///
    /// Fails with `InvalidSchema` when a listed Schema's payload does not read.
    pub fn list_namespaced_keys(&self, store: &InMemoryStore) -> (r: Result<Vec<ResourceKey>, AppError>)
        ensures
            match r {
                Ok(keys) => (forall|a: int| 0 <= a < keys@.len() ==> registered_namespaced(store@, #[trigger] keys@[a]@))
                    && (store@.dom().len() < usize::MAX ==> forall|kv: KeyView| #[trigger] registered_namespaced(store@, kv) ==> listed(keys@, kv))
                    && exists|page: ListResponse| #[trigger] page_answers(store@, spec_schema_key(), None, schema_listing(), page)
                        && key_views(keys@) == namespaced_keys_in(object_views(page.items@)),
                Err(e) => e is InvalidSchema && exists|k: Ident| #[trigger] store@.contains_key(k)
                    && store@[k].key == spec_schema_key() && parse_schema_data(store@[k].spec) is Err,
            },
            (forall|k: Ident| #[trigger] store@.contains_key(k) && store@[k].key == spec_schema_key()
                ==> parse_schema_data(store@[k].spec) is Ok) ==> r is Ok,
    {
        let key = schema_key();
        let opts = ListOptions { limit: Some(usize::MAX), continue_token: None, field_selector: None, label_selector: None };
        let resp = match store.list(&key, None, &opts) {
            Ok(p) => p,
            Err(e) => return Err(e),
        };
        store.facts();
        let ghost m = store@;
        let ghost items = resp.items@;
        let r = namespaced_keys_of(&resp.items);
        proof {
            assert(page_answers(store@, spec_schema_key(), None, schema_listing(), resp));
            assert(forall|j: int| 0 <= j < items.len() ==> m.contains_key(identity(#[trigger] items[j]@))
                && m[identity(items[j]@)] == items[j]@ && items[j]@.key == spec_schema_key());
            if let Ok(keys) = &r {
                assert forall|a: int| 0 <= a < keys@.len() implies registered_namespaced(store@, #[trigger] keys@[a]@) by {
                    assert(among_namespaced(items, keys@[a]@));
                    let j = choose|j: int| 0 <= j < items.len() && #[trigger] namespaced_kind(items[j]@, keys@[a]@);
                    let k = identity(items[j]@);
                    assert(store@.contains_key(k) && namespaced_kind(store@[k], keys@[a]@));
                }
                if m.dom().len() < usize::MAX {
                    // The page holds distinct stored objects, so fewer than `usize::MAX`.
                    let ids = items.map_values(|o: crate::types::StoredObject| identity(o@));
                    assert forall|a: int, b: int| 0 <= a < ids.len() && 0 <= b < ids.len() && a != b implies ids[a] != ids[b] by {
                        if ids[a] == ids[b] {
                            if a < b {
                                assert(pos_lt(items[a]@, items[b]@));
                            } else {
                                assert(pos_lt(items[b]@, items[a]@));
                            }
                            lemma_pos_irreflexive(items[a]@);
                            lemma_pos_irreflexive(items[b]@);
                        }
                    }
                    ids.unique_seq_to_set();
                    assert(ids.to_set().subset_of(m.dom()));
                    vstd::set_lib::lemma_len_subset(ids.to_set(), m.dom());
                    assert forall|kv: KeyView| #[trigger] registered_namespaced(store@, kv) implies listed(keys@, kv) by {
                        let k = choose|k: Ident| store@.contains_key(k) && #[trigger] namespaced_kind(store@[k], kv);
                        if !left_out(m, k, items, spec_schema_key(), None, opts) {
                            assert(eligible(m[k], spec_schema_key(), None, opts)) by {
                                reveal(namespaced_kind);
                            }
                            let j = choose|j: int| 0 <= j < items.len() && items[j]@ == m[k];
                            assert(namespaced_kind(items[j]@, kv));
                            assert(among_namespaced(items, kv));
                        }
                    }
                }
            } else {
                let j = choose|j: int| 0 <= j < items.len() && parse_schema_data(#[trigger] items[j]@.spec) is Err;
                assert(store@.contains_key(identity(items[j]@)));
            }
            if forall|k: Ident| #[trigger] store@.contains_key(k) && store@[k].key == spec_schema_key()
                ==> parse_schema_data(store@[k].spec) is Ok {
                assert forall|j: int| 0 <= j < items.len() implies parse_schema_data(#[trigger] items[j]@.spec) is Ok by {
                    assert(store@.contains_key(identity(items[j]@)));
                }
            }
        }
        r
    }
}

} // verus!
