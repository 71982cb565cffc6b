//! The object service: validation, storage and change events for objects of
//! registered kinds.
//!
//! Every operation works on a store handed to it. Accepted changes are
//! queued as watch events, which the caller takes with `take_events` and
//! delivers to watchers.

use std::sync::Arc;
use vstd::prelude::*;
use crate::clock::now;
use crate::error::{AppError, ValidationError};
use crate::finalizer::{DeleteAction, FinalizerDecision, evaluate_delete, evaluate_update, execute_delete, should_hard_delete, spec_evaluate_delete, spec_evaluate_update, marked};
use crate::helpers::{apply_with_metadata, counters_fit, stamped};
use crate::json::{JsonTree, JsonValue};
use crate::jsontext::json_text;
use crate::keys::{KeyView, ResourceKey, namespace_key, spec_namespace_key, spec_schema_key};
use crate::meta_schema::{JsonSchemaValidator, schema_accepts, validation_errors};
use crate::registry::{CacheView, SchemaRegistry, after_lookup, after_status_lookup, key_views, namespaced_keys_in, reports_load_failure, schema_listing, schema_name_of, status_lookup, validator_lookup, registered_namespaced, listed};
use crate::store::{Ident, InMemoryStore, TransactionOp, identity, left_out, lemma_pos_irreflexive, opt_ref_str, object_identifier, page_answers, placed, pos_lt};
use crate::text::str_equal;
use crate::types::{ListOptions, ListResponse, MetaView, ObjectMeta, ObjectView, StoredObject, SystemMetadata, Timestamp, WatchEvent, WatchEventType, copy_opt, object_views, opt_json, opt_str};
use crate::validation::{annotations_ok, finalizers_ok, labels_ok, validate_annotations, validate_finalizers, validate_labels};

verus! {

broadcast use vstd::std_specs::vec::group_vec_axioms;

/// The events a list of watch events describes.
pub open spec fn event_views(events: Seq<WatchEvent>) -> Seq<(WatchEventType, ObjectView)> {
    events.map_values(|e: WatchEvent| (e.event_type, e.object@))
}

/// Whether the labels, annotations and finalizers of `meta` are valid.
pub open spec fn meta_ok(meta: ObjectMeta) -> bool {
    labels_ok(meta.labels@) && annotations_ok(meta.annotations) && finalizers_ok(meta.finalizers@)
}

/// The error for invalid metadata: labels are checked first, then
/// annotations, then finalizers.
pub open spec fn meta_refusal(meta: ObjectMeta, e: AppError) -> bool {
    if !labels_ok(meta.labels@) {
        e is InvalidLabel
    } else if !annotations_ok(meta.annotations) {
        e is InvalidAnnotation
    } else {
        e is InvalidFinalizer
    }
}

/// Checks the labels, annotations and finalizers of `meta`.
fn check_meta(meta: &ObjectMeta) -> (r: Result<(), AppError>)
    ensures
        r is Ok <==> meta_ok(*meta),
        r matches Err(e) ==> meta_refusal(*meta, e),
{
    match validate_labels(&meta.labels) {
        Ok(()) => {},
        Err(e) => return Err(e),
    }
    match validate_annotations(&meta.annotations) {
        Ok(()) => {},
        Err(e) => return Err(e),
    }
    validate_finalizers(&meta.finalizers)
}

/// Why a namespace does not fit a kind's scope.
pub enum ScopeRefusal {
    /// A namespace was given for a cluster-scoped kind.
    NamespaceGiven,
    /// The kind's scope is neither `Namespaced` nor `Cluster`.
    UnknownScope,
    /// The object's namespace differs from the one the request names.
    Mismatch(Seq<char>, Seq<char>),
}

/// Where an object of a kind with `scope` lives when `ns` is asked for:
/// cluster-scoped kinds take no namespace; namespaced kinds default to
/// `"default"`.
pub open spec fn placement(scope: Seq<char>, ns: Option<Seq<char>>) -> Result<Option<Seq<char>>, ScopeRefusal> {
    if scope == "Cluster"@ {
        if ns is Some { Err(ScopeRefusal::NamespaceGiven) } else { Ok(None) }
    } else if scope == "Namespaced"@ {
        Ok(Some(match ns { Some(n) => n, None => "default"@ }))
    } else {
        Err(ScopeRefusal::UnknownScope)
    }
}

/// The error for a namespace that does not fit the scope of kind `kind`.
pub open spec fn reports_scope_refusal(e: AppError, f: ScopeRefusal, kind: Seq<char>, scope: Seq<char>) -> bool {
    match f {
        ScopeRefusal::NamespaceGiven => e matches AppError::InvalidRequest(m)
            && m@ == "cluster-scoped kind '"@ + kind + "' does not accept namespace"@,
        ScopeRefusal::UnknownScope => e matches AppError::Internal(m) && m@ == "unknown scope: "@ + scope,
        ScopeRefusal::Mismatch(expected, got) => e matches AppError::InvalidRequest(m)
            && m@ == "namespace mismatch: expected '"@ + expected + "', got '"@ + got + "'"@,
    }
}

fn scope_error(f: Ghost<ScopeRefusal>, kind: &str, scope: &str, cluster: bool) -> (e: AppError)
    requires
        f@ is NamespaceGiven || f@ is UnknownScope,
        cluster <==> f@ is NamespaceGiven,
    ensures
        reports_scope_refusal(e, f@, kind@, scope@),
{
    if cluster {
        let mut m = String::from_str("cluster-scoped kind '");
        m.append(kind);
        m.append("' does not accept namespace");
        AppError::InvalidRequest(m)
    } else {
        let mut m = String::from_str("unknown scope: ");
        m.append(scope);
        AppError::Internal(m)
    }
}

/// Resolves where a new object of a kind with `scope` lives.
fn resolve_namespace(scope: &str, namespace: Option<String>, kind: &str) -> (r: Result<Option<String>, AppError>)
    ensures
        match placement(scope@, opt_str(namespace)) {
            Ok(p) => r matches Ok(x) && opt_str(x) == p,
            Err(f) => r matches Err(e) && reports_scope_refusal(e, f, kind@, scope@),
        },
{
    if str_equal(scope, "Cluster") {
        if namespace.is_some() {
            return Err(scope_error(Ghost(ScopeRefusal::NamespaceGiven), kind, scope, true));
        }
        Ok(None)
    } else if str_equal(scope, "Namespaced") {
        match namespace {
            Some(n) => Ok(Some(n)),
            None => Ok(Some(String::from_str("default"))),
        }
    } else {
        Err(scope_error(Ghost(ScopeRefusal::UnknownScope), kind, scope, false))
    }
}

/// Whether the Namespace object `n` exists.
pub open spec fn namespace_present(store: Map<Ident, ObjectView>, n: Seq<char>) -> bool {
    store.contains_key(Ident { key: spec_namespace_key(), namespace: None, name: n })
}

/// The structured errors for validating `instance` against a schema.
pub open spec fn schema_validation_errors(schema: Seq<char>, instance: JsonTree) -> Seq<(Seq<char>, Seq<char>)> {
    validation_errors(schema, json_text(instance))
}

/// The path and message of each error.
pub open spec fn error_views(errs: Seq<ValidationError>) -> Seq<(Seq<char>, Seq<char>)> {
    errs.map_values(|e: ValidationError| (e.path@, e.message@))
}

/// Validates `value` against `validator`; the errors are reported as
/// `SchemaValidation`.
fn check_against(validator: &JsonSchemaValidator, value: &JsonValue) -> (r: Result<(), AppError>)
    ensures
        r is Ok <==> schema_accepts(validator@, json_text(value@)),
        r matches Err(e) ==> (e matches AppError::SchemaValidation(errs)
            && error_views(errs@) == schema_validation_errors(validator@, value@)),
{
    if validator.is_valid(value) {
        return Ok(());
    }
    let found = validator.validate(value);
    let ghost named = schema_validation_errors(validator@, value@);
    let mut errs: Vec<ValidationError> = Vec::new();
    let mut i: usize = 0;
    while i < found.len()
        invariant
            0 <= i <= found.len(),
            found@.len() == named.len(),
            forall|j: int| 0 <= j < found@.len() ==> (#[trigger] found@[j]).instance_path@ == named[j].0
                && found@[j].message@ == named[j].1,
            errs@.len() == i,
            forall|j: int| 0 <= j < i ==> (#[trigger] errs@[j]).path@ == named[j].0 && errs@[j].message@ == named[j].1,
        decreases found.len() - i,
    {
        errs.push(ValidationError { path: found[i].instance_path.clone(), message: found[i].message.clone() });
        i = i + 1;
    }
    assert(error_views(errs@) =~= named);
    Err(AppError::SchemaValidation(errs))
}

/// The object a create stores: the given key, metadata placed in `ns`,
/// spec, no status, and fresh system metadata stamped at `t`.
pub open spec fn created_view(key: KeyView, meta: MetaView, ns: Option<Seq<char>>, spec: JsonTree, t: Timestamp) -> ObjectView {
    ObjectView {
        key,
        metadata: MetaView { namespace: ns, ..meta },
        system: SystemMetadata::spec_initial(t),
        spec,
        status: None,
    }
}

/// What a create of an object of kind `key` with `meta` and `spec` in
/// `namespace` answers, given the schema cache `c` and store `s` before it,
/// and the store `s2` after it.
pub open spec fn create_answer(
    c: CacheView,
    s: Map<Ident, ObjectView>,
    key: KeyView,
    namespace: Option<Seq<char>>,
    meta: ObjectMeta,
    spec: JsonTree,
    r: Result<StoredObject, AppError>,
    s2: Map<Ident, ObjectView>,
) -> bool {
    if !meta_ok(meta) {
        (r matches Err(e) && meta_refusal(meta, e)) && s2 == s
    } else {
        match validator_lookup(c, s, key) {
            Err(f) => (r matches Err(e) && reports_load_failure(e, f, schema_name_of(key), key.kind)) && s2 == s,
            Ok((v, scope)) => match placement(scope, namespace) {
                Err(f) => (r matches Err(e) && reports_scope_refusal(e, f, key.kind, scope)) && s2 == s,
                Ok(ns) => if ns is Some && !namespace_present(s, ns->0) {
                    (r matches Err(AppError::NotFound { what, identifier }) && what@ == "namespace"@ && identifier@ == ns->0)
                        && s2 == s
                } else if !schema_accepts(v, json_text(spec)) {
                    (r matches Err(AppError::SchemaValidation(errs)) && error_views(errs@) == schema_validation_errors(v, spec))
                        && s2 == s
                } else {
                    let id = Ident { key, namespace: ns, name: meta@.name };
                    if s.contains_key(id) {
                        (r matches Err(AppError::AlreadyExists { kind, name }) && kind@ == key.kind && name@ == meta@.name)
                            && s2 == s
                    } else {
                        (r matches Ok(o) && o@ == created_view(key, meta@, ns, spec, o@.system.created_at))
                            && s2 == s.insert(id, r->Ok_0@)
                    }
                },
            },
        }
    }
}

/// What a status write of `status` to the object at `(ns, name)` of kind
/// `key` answers, given the schema cache `c` and store `s` before it, and
/// the store `s2` after it.
pub open spec fn status_write_answer(
    c: CacheView,
    s: Map<Ident, ObjectView>,
    key: KeyView,
    ns: Option<Seq<char>>,
    name: Seq<char>,
    status: JsonTree,
    r: Result<StoredObject, AppError>,
    s2: Map<Ident, ObjectView>,
) -> bool {
    let id = Ident { key, namespace: ns, name };
    match status_lookup(c, s, key) {
        Err(f) => (r matches Err(e) && reports_load_failure(e, f, schema_name_of(key), key.kind)) && s2 == s,
        Ok(v) => if !schema_accepts(v, json_text(status)) {
            (r matches Err(AppError::SchemaValidation(errs)) && error_views(errs@) == schema_validation_errors(v, status))
                && s2 == s
        } else if !s.contains_key(id) {
            (r matches Err(AppError::NotFound { what, identifier }) && what@ == "object"@
                && identifier@ == object_identifier(key.kind, name)) && s2 == s
        } else if !counters_fit(s[id]) {
            (r matches Err(e) && e is Internal) && s2 == s
        } else {
            (r matches Ok(o) && o@ == stamped(s[id], ObjectView { status: Some(status), ..s[id] }, o@.system.updated_at))
                && s2 == s.insert(id, r->Ok_0@)
        },
    }
}

/// What a status read of the object at `(ns, name)` of kind `key` answers,
/// given the schema cache `c` and store `s`.
pub open spec fn status_read_answer(
    c: CacheView,
    s: Map<Ident, ObjectView>,
    key: KeyView,
    ns: Option<Seq<char>>,
    name: Seq<char>,
    r: Result<Option<JsonValue>, AppError>,
) -> bool {
    match status_lookup(c, s, key) {
        Err(f) => r matches Err(e) && reports_load_failure(e, f, schema_name_of(key), key.kind),
        Ok(_) => match s.get(Ident { key, namespace: ns, name }) {
            Some(o) => r matches Ok(st) && opt_json(st) == o.status,
            None => r matches Err(AppError::NotFound { what, identifier }) && what@ == "object"@
                && identifier@ == object_identifier(key.kind, name),
        },
    }
}

/// Where an updated object of a kind with `scope` lives: cluster-scoped
/// kinds take no namespace; namespaced kinds default to `"default"`, and a
/// namespace named by the request must match the object's.
pub open spec fn update_placement(scope: Seq<char>, obj_ns: Option<Seq<char>>, url_ns: Option<Seq<char>>) -> Result<Option<Seq<char>>, ScopeRefusal> {
    if scope == "Cluster"@ {
        if obj_ns is Some { Err(ScopeRefusal::NamespaceGiven) } else { Ok(None) }
    } else if scope == "Namespaced"@ {
        let ns = match obj_ns { Some(n) => n, None => "default"@ };
        match url_ns {
            Some(e) => if ns != e { Err(ScopeRefusal::Mismatch(e, ns)) } else { Ok(Some(ns)) },
            None => Ok(Some(ns)),
        }
    } else {
        Err(ScopeRefusal::UnknownScope)
    }
}

/// Resolves where an updated object of a kind with `scope` lives.
fn resolve_update_namespace(scope: &str, object_ns: &Option<String>, url_ns: Option<&str>, kind: &str) -> (r: Result<Option<String>, AppError>)
    ensures
        match update_placement(scope@, opt_str(*object_ns), opt_ref_str(url_ns)) {
            Ok(p) => r matches Ok(x) && opt_str(x) == p,
            Err(f) => r matches Err(e) && reports_scope_refusal(e, f, kind@, scope@),
        },
{
    if str_equal(scope, "Cluster") {
        if object_ns.is_some() {
            return Err(scope_error(Ghost(ScopeRefusal::NamespaceGiven), kind, scope, true));
        }
        Ok(None)
    } else if str_equal(scope, "Namespaced") {
        let ns = match object_ns {
            Some(n) => n.clone(),
            None => String::from_str("default"),
        };
        match url_ns {
            Some(expected) => {
                if !str_equal(ns.as_str(), expected) {
                    let mut m = String::from_str("namespace mismatch: expected '");
                    m.append(expected);
                    m.append("', got '");
                    m.append(ns.as_str());
                    m.append("'");
                    return Err(AppError::InvalidRequest(m));
                }
                Ok(Some(ns))
            },
            None => Ok(Some(ns)),
        }
    } else {
        Err(scope_error(Ghost(ScopeRefusal::UnknownScope), kind, scope, false))
    }
}

/// `existing` with the incoming metadata and spec.
pub open spec fn replaced(existing: ObjectView, meta: MetaView, spec: JsonTree) -> ObjectView {
    ObjectView { metadata: meta, spec, ..existing }
}

/// What an update with resource version `rv`, metadata `meta` and spec
/// `spec` does to `existing` at time `now`: a stale version conflicts; an
/// object under deletion accepts only finalizer removals (its spec, name,
/// labels and annotations unchanged), and removing the
/// last finalizer removes it; otherwise the object is replaced and stamped.
pub open spec fn update_decision(existing: ObjectView, rv: u64, meta: MetaView, spec: JsonTree, now: Timestamp, op: TransactionOp) -> bool {
    if rv != existing.system.resource_version {
        op matches TransactionOp::Abort(AppError::Conflict { expected, actual })
            && expected == existing.system.resource_version && actual == rv
    } else if spec_evaluate_update(existing, meta, spec) is RejectBeingDeleted {
        op matches TransactionOp::Abort(AppError::ObjectBeingDeleted { name }) && name@ == existing.metadata.name
    } else if existing.system.deletion_timestamp is Some && meta.finalizers.len() == 0 {
        op is Delete
    } else if !counters_fit(existing) {
        op matches TransactionOp::Abort(e) && e is Internal
    } else {
        op matches TransactionOp::Apply(o) && o@ == stamped(existing, replaced(existing, meta, spec), now)
    }
}

/// Decides what an update does to `existing` (the store transaction's step).
fn decide_update(existing: &StoredObject, rv: u64, meta: &ObjectMeta, spec: &JsonValue, now: Timestamp) -> (op: TransactionOp)
    ensures
        update_decision(existing@, rv, meta@, spec@, now, op),
{
    if rv != existing.system.resource_version {
        return TransactionOp::Abort(AppError::Conflict { expected: existing.system.resource_version, actual: rv });
    }
    if evaluate_update(existing, meta, spec) == FinalizerDecision::RejectBeingDeleted {
        return TransactionOp::Abort(AppError::ObjectBeingDeleted { name: existing.metadata.name.clone() });
    }
    let mut new_obj = existing.duplicate();
    new_obj.metadata = meta.duplicate();
    new_obj.spec = spec.duplicate();
    if should_hard_delete(existing, &new_obj.metadata.finalizers) {
        return TransactionOp::Delete;
    }
    apply_with_metadata(existing, new_obj, now)
}

/// What an update of `object` (the namespace the request names being
/// `url_ns`) answers, given the schema cache `c` and store `s` before it and
/// the store `s2` after it. The update validates `object`'s metadata, looks
/// up its kind, resolves its namespace, validates its spec and then applies
/// [`update_decision`] to the stored object at time `t`.
pub open spec fn update_answer(
    c: CacheView,
    s: Map<Ident, ObjectView>,
    url_ns: Option<Seq<char>>,
    object: StoredObject,
    r: Result<StoredObject, AppError>,
    s2: Map<Ident, ObjectView>,
) -> bool {
    let ov = object@;
    if !meta_ok(object.metadata) {
        (r matches Err(e) && meta_refusal(object.metadata, e)) && s2 == s
    } else {
        match validator_lookup(c, s, ov.key) {
            Err(f) => (r matches Err(e) && reports_load_failure(e, f, schema_name_of(ov.key), ov.key.kind)) && s2 == s,
            Ok((v, scope)) => match update_placement(scope, ov.metadata.namespace, url_ns) {
                Err(f) => (r matches Err(e) && reports_scope_refusal(e, f, ov.key.kind, scope)) && s2 == s,
                Ok(ns) => if !schema_accepts(v, json_text(ov.spec)) {
                    (r matches Err(AppError::SchemaValidation(errs)) && error_views(errs@) == schema_validation_errors(v, ov.spec))
                        && s2 == s
                } else {
                    let id = Ident { key: ov.key, namespace: ns, name: ov.metadata.name };
                    if !s.contains_key(id) {
                        (r matches Err(AppError::NotFound { what, identifier }) && what@ == "object"@
                            && identifier@ == object_identifier(ov.key.kind, ov.metadata.name)) && s2 == s
                    } else {
                        exists|t: Timestamp, op: TransactionOp| #[trigger] update_decision(s[id], ov.system.resource_version,
                            MetaView { namespace: ns, ..ov.metadata }, ov.spec, t, op) && match op {
                            TransactionOp::Apply(n) => s2 == s.insert(id, n@) && (r matches Ok(x) && x@ == n@),
                            TransactionOp::Delete => s2 == s.remove(id) && (r matches Ok(x) && x@ == s[id]),
                            TransactionOp::Abort(e) => s2 == s && r == Err::<StoredObject, AppError>(e),
                        }
                    }
                },
            },
        }
    }
}

/// Whether some object of a registered namespaced kind lives in namespace `ns`.
pub open spec fn namespace_in_use(s: Map<Ident, ObjectView>, ns: Seq<char>) -> bool {
    exists|id: Ident| #[trigger] s.contains_key(id) && id.namespace == Some(ns) && registered_namespaced(s, id.key)
}

/// The places of the objects of kind `k` in namespace `ns`.
pub open spec fn objects_in(s: Map<Ident, ObjectView>, ns: Seq<char>, k: KeyView) -> Set<Ident> {
    s.dom().filter(|id: Ident| id.key == k && id.namespace == Some(ns))
}

/// The number of objects in namespace `ns` of each kind of `keys`, summed in
/// order, stopping at `usize::MAX`.
pub open spec fn objects_counted(s: Map<Ident, ObjectView>, ns: Seq<char>, keys: Seq<KeyView>) -> nat
    decreases keys.len(),
{
    if keys.len() == 0 {
        0
    } else {
        let t = objects_counted(s, ns, keys.drop_last()) + objects_in(s, ns, keys.last()).len();
        if t > usize::MAX { usize::MAX as nat } else { t }
    }
}

/// Whether `n` counts the objects in namespace `ns`: for each Schema that
/// registers a namespaced kind, in the order a full listing of Schemas gives
/// them, the objects of that kind in `ns`, summed.
pub open spec fn namespace_object_count(s: Map<Ident, ObjectView>, ns: Seq<char>, n: nat) -> bool {
    exists|page: ListResponse| #[trigger] page_answers(s, spec_schema_key(), None, schema_listing(), page)
        && n == objects_counted(s, ns, namespaced_keys_in(object_views(page.items@)))
}

/// A page of every object of kind `k` in namespace `ns` holds exactly the
/// objects of that kind there, when the store holds fewer than `usize::MAX`.
pub proof fn lemma_namespace_page_count(m: Map<Ident, ObjectView>, k: KeyView, ns: Seq<char>, page: ListResponse)
    requires
        m.dom().finite(),
        placed(m),
        m.dom().len() < usize::MAX,
        page_answers(m, k, Some(ns), schema_listing(), page),
    ensures
        page.items@.len() == objects_in(m, ns, k).len(),
{
    let opts = schema_listing();
    let items = page.items@;
    let ids = items.map_values(|x: StoredObject| identity(x@));
    assert forall|a: int, b: int| 0 <= a < ids.len() && 0 <= b < ids.len() && a != b implies ids[a] != ids[b] by {
        if ids[a] == ids[b] {
            if a < b {
                assert(pos_lt(items[a]@, items[b]@));
            } else {
                assert(pos_lt(items[b]@, items[a]@));
            }
            lemma_pos_irreflexive(items[a]@);
            lemma_pos_irreflexive(items[b]@);
        }
    }
    ids.unique_seq_to_set();
    assert(ids.to_set().subset_of(m.dom()));
    vstd::set_lib::lemma_len_subset(ids.to_set(), m.dom());
    let target = objects_in(m, ns, k);
    assert forall|id: Ident| ids.to_set().contains(id) <==> target.contains(id) by {
        if ids.to_set().contains(id) {
            let a = choose|a: int| 0 <= a < ids.len() && ids[a] == id;
            assert(ids[a] == identity(items[a]@));
        }
        if target.contains(id) {
            assert(identity(m[id]) == id);
            if !(exists|a: int| 0 <= a < items.len() && items[a]@ == m[id]) {
                assert(left_out(m, id, items, k, Some(ns), opts));
            }
            let a = choose|a: int| 0 <= a < items.len() && items[a]@ == m[id];
            assert(ids[a] == id);
        }
    }
    assert(ids.to_set() =~= target);
}

/// Whether every stored Schema's payload reads.
pub open spec fn schemas_readable(s: Map<Ident, ObjectView>) -> bool {
    forall|k: Ident| #[trigger] s.contains_key(k) && s[k].key == crate::keys::spec_schema_key()
        ==> crate::schema_data::parse_schema_data(s[k].spec) is Ok
}

/// What deleting the object `id` answers once the namespace rules passed,
/// given the store `s` before and `s2` after.
pub open spec fn delete_answer(s: Map<Ident, ObjectView>, id: Ident, r: Result<StoredObject, AppError>, s2: Map<Ident, ObjectView>) -> bool {
    if !s.contains_key(id) {
        (r matches Err(AppError::NotFound { what, identifier }) && what@ == "object"@
            && identifier@ == object_identifier(id.key.kind, id.name)) && s2 == s
    } else {
        match spec_evaluate_delete(s[id]) {
            DeleteAction::HardDeleted => s2 == s.remove(id) && (r matches Ok(o) && o@ == s[id]),
            DeleteAction::MarkedForDeletion => (r matches Ok(o) && marked(s[id], o@)) && s2 == s.insert(id, r->Ok_0@),
            DeleteAction::IdempotentNoOp => s2 == s && (r matches Ok(o) && o@ == s[id]),
        }
    }
}

/// The event a delete of the object `id` queues, if any.
pub open spec fn delete_event(s: Map<Ident, ObjectView>, id: Ident) -> Option<WatchEventType> {
    match spec_evaluate_delete(s[id]) {
        DeleteAction::HardDeleted => Some(WatchEventType::Deleted),
        DeleteAction::MarkedForDeletion => Some(WatchEventType::Modified),
        DeleteAction::IdempotentNoOp => None,
    }
}

/// Validation, storage and change events for objects of registered kinds.
pub struct ObjectService {
    /// Validators and scopes of the registered kinds.
    pub schema_registry: SchemaRegistry,
    events: Vec<WatchEvent>,
}

impl ObjectService {
    /// The schema cache of the service's registry.
    pub closed spec fn cache(&self) -> CacheView {
        self.schema_registry@
    }

    /// The meta-schema text of the service's registry.
    pub closed spec fn meta(&self) -> Seq<char> {
        self.schema_registry.meta()
    }

    /// The events queued and not yet taken.
    pub closed spec fn pending(&self) -> Seq<(WatchEventType, ObjectView)> {
        event_views(self.events@)
    }

    /// A service with no queued events.
    pub fn new(schema_registry: SchemaRegistry) -> (s: ObjectService)
        ensures
            s.cache() == schema_registry@,
            s.meta() == schema_registry.meta(),
            s.pending() == Seq::<(WatchEventType, ObjectView)>::empty(),
    {
        let s = ObjectService { schema_registry, events: Vec::new() };
        assert(s.pending() =~= Seq::<(WatchEventType, ObjectView)>::empty());
        s
    }

    /// Takes the queued events, oldest first.
    pub fn take_events(&mut self) -> (r: Vec<WatchEvent>)
        ensures
            event_views(r@) == old(self).pending(),
            final(self).pending() == Seq::<(WatchEventType, ObjectView)>::empty(),
            final(self).cache() == old(self).cache(),
            final(self).meta() == old(self).meta(),
    {
        let mut taken: Vec<WatchEvent> = Vec::new();
        std::mem::swap(&mut taken, &mut self.events);
        assert(self.pending() =~= Seq::<(WatchEventType, ObjectView)>::empty());
        taken
    }

    fn publish(&mut self, event_type: WatchEventType, object: &StoredObject)
        ensures
            final(self).pending() == old(self).pending().push((event_type, object@)),
            final(self).cache() == old(self).cache(),
            final(self).meta() == old(self).meta(),
    {
        self.events.push(WatchEvent { event_type, object: object.duplicate() });
        assert(self.pending() =~= old(self).pending().push((event_type, object@)));
    }

    /// The object at `(key, namespace, name)`.
    pub fn get(&self, store: &InMemoryStore, key: ResourceKey, namespace: Option<&str>, name: String) -> (r: Result<StoredObject, AppError>)
        ensures
            match store@.get(Ident { key: key@, namespace: opt_ref_str(namespace), name: name@ }) {
                Some(o) => r matches Ok(x) && x@ == o,
                None => r matches Err(AppError::NotFound { what, identifier }) && what@ == "object"@
                    && identifier@ == object_identifier(key@.kind, name@),
            },
    {
        store.get(&key, namespace, name.as_str())
    }

    /// One page of the objects of kind `key` in `namespace` (every namespace
    /// when `None`).
    pub fn list(&self, store: &InMemoryStore, key: ResourceKey, namespace: Option<&str>, opts: ListOptions) -> (r: Result<ListResponse, AppError>)
        ensures
            match r {
                Ok(page) => crate::store::page_answers(store@, key@, opt_ref_str(namespace), opts, page)
                    && !(opts.continue_token matches Some(t) && crate::token::token_position(t.0@) is None),
                Err(e) => (opts.continue_token matches Some(t) && crate::token::token_position(t.0@) is None)
                    && e is Internal,
            },
    {
        store.list(&key, namespace, &opts)
    }

    /// Fails with `NotFound` (what `"namespace"`) unless the Namespace object
    /// `namespace` exists.
    fn ensure_namespace_exists(&self, store: &InMemoryStore, namespace: &str) -> (r: Result<(), AppError>)
        ensures
            r is Ok <==> namespace_present(store@, namespace@),
            r matches Err(e) ==> (e matches AppError::NotFound { what, identifier } && what@ == "namespace"@
                && identifier@ == namespace@),
    {
        let key = namespace_key();
        match store.get(&key, None, namespace) {
            Ok(_) => Ok(()),
            Err(_) => Err(AppError::NotFound { what: String::from_str("namespace"), identifier: String::from_str(namespace) }),
        }
    }

    /// Creates an object of a registered kind.
    ///
    /// The metadata is validated, the kind's validator and scope looked up,
    /// the namespace resolved from the scope (cluster-scoped kinds take none;
    /// namespaced kinds default to `"default"`, which must exist as a
    /// Namespace), the spec validated, and the object stored with fresh
    /// system metadata. An `Added` event is queued.
    pub fn create(
        &mut self,
        store: &mut InMemoryStore,
        key: ResourceKey,
        namespace: Option<String>,
        meta: ObjectMeta,
        spec: JsonValue,
    ) -> (r: Result<StoredObject, AppError>)
        ensures
            create_answer(old(self).cache(), old(store)@, key@, opt_str(namespace), meta, spec@, r, final(store)@),
            final(self).cache() == (if meta_ok(meta) { after_lookup(old(self).cache(), old(store)@, key@) } else { old(self).cache() }),
            final(self).meta() == old(self).meta(),
            final(self).pending() == (if r is Ok { old(self).pending().push((WatchEventType::Added, r->Ok_0@)) } else { old(self).pending() }),
    {
        self.validate_and_create_object(store, key, namespace, meta, spec)
    }

    fn validate_and_create_object(
        &mut self,
        store: &mut InMemoryStore,
        key: ResourceKey,
        namespace: Option<String>,
        meta: ObjectMeta,
        spec: JsonValue,
    ) -> (r: Result<StoredObject, AppError>)
        ensures
            create_answer(old(self).cache(), old(store)@, key@, opt_str(namespace), meta, spec@, r, final(store)@),
            final(self).cache() == (if meta_ok(meta) { after_lookup(old(self).cache(), old(store)@, key@) } else { old(self).cache() }),
            final(self).meta() == old(self).meta(),
            final(self).pending() == (if r is Ok { old(self).pending().push((WatchEventType::Added, r->Ok_0@)) } else { old(self).pending() }),
    {
        match check_meta(&meta) {
            Ok(()) => {},
            Err(e) => return Err(e),
        }
        let (validator, scope) = match self.schema_registry.get_validator(store, &key) {
            Ok(x) => x,
            Err(e) => return Err(e),
        };
        let resolved = match resolve_namespace(scope.as_str(), namespace, key.kind.as_str()) {
            Ok(n) => n,
            Err(e) => return Err(e),
        };
        match &resolved {
            Some(ns) => match self.ensure_namespace_exists(store, ns.as_str()) {
                Ok(()) => {},
                Err(e) => return Err(e),
            },
            None => {},
        }
        match check_against(&validator, &spec) {
            Ok(()) => {},
            Err(e) => return Err(e),
        }
        let t = now();
        let mut m = meta;
        m.namespace = resolved;
        let object = StoredObject { key: key.duplicate(), metadata: m, system: SystemMetadata::initial(t), spec, status: None };
        let stored = match store.create(object) {
            Ok(o) => o,
            Err(e) => return Err(e),
        };
        self.publish(WatchEventType::Added, &stored);
        Ok(stored)
    }

    /// Updates an object of a registered kind: validates it as a create
    /// does, then, in one store transaction, checks the resource version and
    /// the finalizer rules and stores it with stamped metadata, or removes it
    /// when its last finalizer goes while it is under deletion. A `Modified`
    /// event is queued, or `Deleted` for a removal.
    pub fn update(&mut self, store: &mut InMemoryStore, namespace: Option<&str>, object: StoredObject) -> (r: Result<StoredObject, AppError>)
        ensures
            update_answer(old(self).cache(), old(store)@, opt_ref_str(namespace), object, r, final(store)@),
            final(self).cache() == (if meta_ok(object.metadata) { after_lookup(old(self).cache(), old(store)@, object@.key) } else { old(self).cache() }),
            final(self).meta() == old(self).meta(),
            final(self).pending() == (if r is Ok {
                old(self).pending().push((if final(store)@.contains_key(identity(r->Ok_0@)) { WatchEventType::Modified } else { WatchEventType::Deleted }, r->Ok_0@))
            } else {
                old(self).pending()
            }),
    {
        let spec = object.spec.duplicate();
        self.validate_and_update_object(store, namespace, object, spec)
    }

    fn validate_and_update_object(&mut self, store: &mut InMemoryStore, namespace: Option<&str>, object: StoredObject, spec: JsonValue) -> (r: Result<StoredObject, AppError>)
        requires
            spec@ == object@.spec,
        ensures
            update_answer(old(self).cache(), old(store)@, opt_ref_str(namespace), object, r, final(store)@),
            final(self).cache() == (if meta_ok(object.metadata) { after_lookup(old(self).cache(), old(store)@, object@.key) } else { old(self).cache() }),
            final(self).meta() == old(self).meta(),
            final(self).pending() == (if r is Ok {
                old(self).pending().push((if final(store)@.contains_key(identity(r->Ok_0@)) { WatchEventType::Modified } else { WatchEventType::Deleted }, r->Ok_0@))
            } else {
                old(self).pending()
            }),
    {
        store.facts();
        match check_meta(&object.metadata) {
            Ok(()) => {},
            Err(e) => return Err(e),
        }
        let (validator, scope) = match self.schema_registry.get_validator(store, &object.key) {
            Ok(x) => x,
            Err(e) => return Err(e),
        };
        let resolved = match resolve_update_namespace(scope.as_str(), &object.metadata.namespace, namespace, object.key.kind.as_str()) {
            Ok(n) => n,
            Err(e) => return Err(e),
        };
        match check_against(&validator, &spec) {
            Ok(()) => {},
            Err(e) => return Err(e),
        }
        let key = object.key;
        let name = object.metadata.name.clone();
        let incoming_rv = object.system.resource_version;
        let mut incoming_metadata = object.metadata;
        incoming_metadata.namespace = copy_opt(&resolved);
        let incoming_spec = object.spec;
        let ns_ref: Option<&str> = match &resolved {
            Some(n) => Some(n.as_str()),
            None => None,
        };
        let existing = match store.get(&key, ns_ref, name.as_str()) {
            Ok(o) => o,
            Err(e) => return Err(e),
        };
        let t = now();
        let op = decide_update(&existing, incoming_rv, &incoming_metadata, &incoming_spec, t);
        let ghost opv = op;
        let hard_delete = matches!(op, TransactionOp::Delete);
        let updated = match store.apply(&key, ns_ref, name.as_str(), op) {
            Ok(o) => o,
            Err(e) => {
                assert(update_decision(existing@, incoming_rv, incoming_metadata@, incoming_spec@, t, opv));
                return Err(e);
            },
        };
        assert(update_decision(existing@, incoming_rv, incoming_metadata@, incoming_spec@, t, opv));
        if hard_delete {
            self.publish(WatchEventType::Deleted, &updated);
        } else {
            self.publish(WatchEventType::Modified, &updated);
        }
        Ok(updated)
    }

    /// The number of objects in namespace `namespace`, over every registered
    /// namespaced kind.
    fn count_objects_in_namespace(&self, store: &InMemoryStore, namespace: &str) -> (r: Result<usize, AppError>)
        ensures
            r matches Ok(n) ==> (n > 0 ==> namespace_in_use(store@, namespace@)),
            r matches Ok(n) ==> (store@.dom().len() < usize::MAX && namespace_in_use(store@, namespace@) ==> n > 0),
            r matches Ok(n) ==> (store@.dom().len() < usize::MAX ==> namespace_object_count(store@, namespace@, n as nat)),
            r matches Err(e) ==> e is InvalidSchema && !schemas_readable(store@),
            schemas_readable(store@) ==> r is Ok,
    {
        store.facts();
        let keys = match self.schema_registry.list_namespaced_keys(store) {
            Ok(k) => k,
            Err(e) => return Err(e),
        };
        let ghost kvs = key_views(keys@);
        let ghost listing = choose|page: ListResponse| #[trigger] page_answers(store@, spec_schema_key(), None, schema_listing(), page)
            && kvs == namespaced_keys_in(object_views(page.items@));
        let mut count: usize = 0;
        let mut i: usize = 0;
        while i < keys.len()
            invariant
                0 <= i <= keys.len(),
                crate::store::placed(store@),
                store@.dom().finite(),
                kvs == key_views(keys@),
                store@.dom().len() < usize::MAX ==> count == objects_counted(store@, namespace@, kvs.take(i as int)),
                forall|a: int| 0 <= a < keys@.len() ==> registered_namespaced(store@, #[trigger] keys@[a]@),
                store@.dom().len() < usize::MAX ==> forall|kv: KeyView| #[trigger] registered_namespaced(store@, kv) ==> listed(keys@, kv),
                count > 0 ==> namespace_in_use(store@, namespace@),
                forall|a: int, id: Ident| 0 <= a < i && #[trigger] store@.contains_key(id) && id.namespace == Some(namespace@)
                    && id.key == (#[trigger] keys@[a])@ ==> count > 0,
            decreases keys.len() - i,
        {
            let opts = ListOptions { limit: Some(usize::MAX), continue_token: None, field_selector: None, label_selector: None };
            let resp = match store.list(&keys[i], Some(namespace), &opts) {
                Ok(p) => p,
                Err(e) => return Err(e),
            };
            proof {
                if resp.items@.len() > 0 {
                    let o = resp.items@[0]@;
                    let id = identity(o);
                    assert(store@.contains_key(id) && id.namespace == Some(namespace@) && registered_namespaced(store@, id.key));
                }
                assert forall|id: Ident| #[trigger] store@.contains_key(id) && id.namespace == Some(namespace@)
                    && id.key == keys@[i as int]@ implies resp.items@.len() > 0 by {
                    let o = store@[id];
                    assert(identity(o) == id);
                    if resp.items@.len() == 0 {
                        assert(crate::store::left_out(store@, id, resp.items@, keys@[i as int]@, Some(namespace@), opts));
                    }
                }
            }
            proof {
                assert(kvs.take(i + 1).drop_last() =~= kvs.take(i as int));
                assert(kvs.take(i + 1).last() == keys@[i as int]@);
                if store@.dom().len() < usize::MAX {
                    lemma_namespace_page_count(store@, keys@[i as int]@, namespace@, resp);
                }
            }
            count = count.saturating_add(resp.items.len());
            i = i + 1;
        }
        proof {
            assert(kvs.take(keys@.len() as int) =~= kvs);
            if store@.dom().len() < usize::MAX {
                assert(page_answers(store@, spec_schema_key(), None, schema_listing(), listing));
            }
            if store@.dom().len() < usize::MAX && namespace_in_use(store@, namespace@) {
                let id = choose|id: Ident| #[trigger] store@.contains_key(id) && id.namespace == Some(namespace@) && registered_namespaced(store@, id.key);
                assert(listed(keys@, id.key));
                let a = choose|a: int| 0 <= a < keys@.len() && #[trigger] keys@[a]@ == id.key;
                assert(keys@[a]@ == id.key);
            }
        }
        Ok(count)
    }

    /// Deletes an object, honouring finalizers: without finalizers it is
    /// removed (`Deleted` event); with finalizers it is marked for deletion
    /// (`Modified` event); an object already marked stays as it is.
    ///
    /// Namespaces have two more rules: `"default"` is never deleted
    /// (`ProtectedNamespace`), and a namespace still holding objects of a
    /// namespaced kind is not deleted (`NamespaceNotEmpty`, with the number
    /// of such objects).
    pub fn delete(&mut self, store: &mut InMemoryStore, key: ResourceKey, namespace: Option<&str>, name: String) -> (r: Result<StoredObject, AppError>)
        ensures
            final(self).cache() == old(self).cache(),
            final(self).meta() == old(self).meta(),
            ({
                let id = Ident { key: key@, namespace: opt_ref_str(namespace), name: name@ };
                let s = old(store)@;
                let guarded = key@ == spec_namespace_key();
                if guarded && name@ == "default"@ {
                    (r matches Err(AppError::ProtectedNamespace { name: n }) && n@ == name@) && final(store)@ == s
                } else {
                    &&& r matches Err(AppError::NamespaceNotEmpty { namespace: n, object_count }) ==> guarded && n@ == name@
                        && object_count > 0 && namespace_in_use(s, name@) && final(store)@ == s
                        && (s.dom().len() < usize::MAX ==> namespace_object_count(s, name@, object_count as nat))
                    &&& guarded && (r matches Err(AppError::InvalidSchema(_))) ==> !schemas_readable(s) && final(store)@ == s
                    &&& guarded && schemas_readable(s) && s.dom().len() < usize::MAX && namespace_in_use(s, name@)
                        ==> (r matches Err(AppError::NamespaceNotEmpty { .. }))
                    &&& !(r matches Err(AppError::NamespaceNotEmpty { .. })) && !(guarded && (r matches Err(AppError::InvalidSchema(_))))
                        ==> delete_answer(s, id, r, final(store)@)
                }
            }),
            r is Err ==> final(self).pending() == old(self).pending(),
            r matches Ok(o) ==> final(self).pending() == match delete_event(old(store)@, Ident { key: key@, namespace: opt_ref_str(namespace), name: name@ }) {
                Some(t) => old(self).pending().push((t, o@)),
                None => old(self).pending(),
            },
    {
        store.facts();
        let ns_key = namespace_key();
        if key.same_as(&ns_key) {
            if str_equal(name.as_str(), "default") {
                return Err(AppError::ProtectedNamespace { name });
            }
            let object_count = match self.count_objects_in_namespace(store, name.as_str()) {
                Ok(n) => n,
                Err(e) => return Err(e),
            };
            if object_count > 0 {
                return Err(AppError::NamespaceNotEmpty { namespace: name, object_count });
            }
        }
        let existing = match store.get(&key, namespace, name.as_str()) {
            Ok(o) => o,
            Err(e) => return Err(e),
        };
        let action = evaluate_delete(&existing);
        let op = execute_delete(action, &existing);
        let ghost s0 = store@;
        let ghost id = Ident { key: key@, namespace: opt_ref_str(namespace), name: name@ };
        let result = match store.apply(&key, namespace, name.as_str(), op) {
            Ok(o) => o,
            Err(e) => return Err(e),
        };
        proof {
            if action == DeleteAction::IdempotentNoOp {
                assert(s0.insert(id, s0[id]) =~= s0);
            }
        }
        match action {
            DeleteAction::HardDeleted => self.publish(WatchEventType::Deleted, &result),
            DeleteAction::MarkedForDeletion => self.publish(WatchEventType::Modified, &result),
            DeleteAction::IdempotentNoOp => {},
        }
        Ok(result)
    }

    /// Replaces the status of an object of a kind with a status schema: the
    /// status is validated against it and stored with stamped metadata, with
    /// no resource version check. A `StatusModified` event is queued.
    pub fn update_status(
        &mut self,
        store: &mut InMemoryStore,
        key: ResourceKey,
        namespace: Option<&str>,
        name: String,
        status: JsonValue,
    ) -> (r: Result<StoredObject, AppError>)
        ensures
            final(self).cache() == after_status_lookup(old(self).cache(), old(store)@, key@),
            final(self).meta() == old(self).meta(),
            status_write_answer(old(self).cache(), old(store)@, key@, opt_ref_str(namespace), name@, status@, r, final(store)@),
            final(self).pending() == (if r is Ok {
                old(self).pending().push((WatchEventType::StatusModified, r->Ok_0@))
            } else {
                old(self).pending()
            }),
    {
        let validator = match self.schema_registry.get_status_validator(store, &key) {
            Ok(v) => v,
            Err(e) => return Err(e),
        };
        match check_against(&validator, &status) {
            Ok(()) => {},
            Err(e) => return Err(e),
        }
        let existing = match store.get(&key, namespace, name.as_str()) {
            Ok(o) => o,
            Err(e) => return Err(e),
        };
        store.facts();
        let mut updated = existing.duplicate();
        updated.status = Some(status);
        let t = now();
        let op = apply_with_metadata(&existing, updated, t);
        let result = match store.apply(&key, namespace, name.as_str(), op) {
            Ok(o) => o,
            Err(e) => return Err(e),
        };
        self.publish(WatchEventType::StatusModified, &result);
        Ok(result)
    }

    /// The status of an object of a kind with a status schema.
    pub fn get_status(
        &mut self,
        store: &InMemoryStore,
        key: ResourceKey,
        namespace: Option<&str>,
        name: String,
    ) -> (r: Result<Option<JsonValue>, AppError>)
        ensures
            final(self).cache() == after_status_lookup(old(self).cache(), store@, key@),
            final(self).meta() == old(self).meta(),
            final(self).pending() == old(self).pending(),
            status_read_answer(old(self).cache(), store@, key@, opt_ref_str(namespace), name@, r),
    {
        match self.schema_registry.get_status_validator(store, &key) {
            Ok(_) => {},
            Err(e) => return Err(e),
        }
        let object = match store.get(&key, namespace, name.as_str()) {
            Ok(o) => o,
            Err(e) => return Err(e),
        };
        Ok(object.status)
    }
}

} // verus!
