//! Object storage: the store interface and the in-memory store.
//!
//! Stores persist objects as they are given; the services set all system
//! metadata. The in-memory store keeps its objects in a `DashMap` keyed by
//! kind, namespace and name.

use vstd::prelude::*;
use dashmap::DashMap;
use crate::error::AppError;
use crate::keys::{KeyView, ResourceKey};
use crate::order::{seq_lt, chars_less, lemma_lt_irreflexive, lemma_lt_transitive, lemma_lt_total};
use crate::selector::{FieldSelector, selector_holds};
use crate::text::{chars_of, push_char, str_equal};
use crate::token::{decode_continue_token, encode_continue_token, token_error, token_position, token_text};
use crate::types::{ListOptions, ListResponse, ObjectView, StoredObject, copy_opt, opt_str};

verus! {

/// What a transaction callback asks the store to do.
///
/// The store persists `Apply` objects as they are; callers set all system
/// metadata themselves.
#[derive(Debug)]
pub enum TransactionOp {
    /// Replace the stored object with this one.
    Apply(StoredObject),
    /// Remove the object.
    Delete,
    /// Leave storage unchanged and fail with this error.
    Abort(AppError),
}

/// Where an object lives: kind, namespace (`None` when cluster-scoped) and name.
#[derive(Debug, Clone, Hash, PartialEq, Eq)]
pub struct ObjectKey {
    pub key: ResourceKey,
    pub namespace: Option<String>,
    pub name: String,
}

pub struct Ident {
    pub key: KeyView,
    pub namespace: Option<Seq<char>>,
    pub name: Seq<char>,
}

impl View for ObjectKey {
    type V = Ident;

    open spec fn view(&self) -> Ident {
        Ident { key: self.key@, namespace: opt_str(self.namespace), name: self.name@ }
    }
}

/// Where an object says it lives.
pub open spec fn identity(o: ObjectView) -> Ident {
    Ident { key: o.key, namespace: o.metadata.namespace, name: o.metadata.name }
}

pub open spec fn opt_ref_str(o: Option<&str>) -> Option<Seq<char>> {
    match o {
        Some(s) => Some(s@),
        None => None,
    }
}

#[verifier::external_type_specification]
#[verifier::external_body]
#[verifier::reject_recursive_types(K)]
#[verifier::reject_recursive_types(V)]
#[verifier::reject_recursive_types(S)]
pub struct ExDashMap<K, V, S>(DashMap<K, V, S>);

/// A table of objects keyed by their location.
pub type ObjectTable = DashMap<ObjectKey, StoredObject>;

/// The entries of a table of objects.
pub uninterp spec fn table_contents(m: DashMap<ObjectKey, StoredObject>) -> Map<Ident, ObjectView>;

/// `DashMap::new()`: an empty table.
#[verifier::external_body]
fn table_new() -> (table: ObjectTable)
    ensures
        table_contents(table).dom().len() == 0,
        table_contents(table).dom().finite(),
{
    DashMap::new()
}

/// `DashMap::contains_key`.
#[verifier::external_body]
fn table_contains(m: &DashMap<ObjectKey, StoredObject>, k: &ObjectKey) -> (b: bool)
    ensures
        b == table_contents(*m).contains_key(k@),
{
    m.contains_key(k)
}

/// `DashMap::get`, copying the value out of the read guard.
#[verifier::external_body]
fn table_get(m: &DashMap<ObjectKey, StoredObject>, k: &ObjectKey) -> (r: Option<StoredObject>)
    ensures
        r is Some <==> table_contents(*m).contains_key(k@),
        r matches Some(o) ==> o@ == table_contents(*m)[k@],
{
    match m.get(k) {
        Some(entry) => Some(entry.value().duplicate()),
        None => None,
    }
}

/// `DashMap::insert`: sets the entry for `k`.
#[verifier::external_body]
fn table_insert(m: &mut DashMap<ObjectKey, StoredObject>, k: ObjectKey, v: StoredObject)
    ensures
        table_contents(*final(m)) == table_contents(*old(m)).insert(k@, v@),
{
    m.insert(k, v);
}

/// `DashMap::remove`: drops the entry for `k`.
#[verifier::external_body]
fn table_remove(m: &mut DashMap<ObjectKey, StoredObject>, k: &ObjectKey)
    ensures
        table_contents(*final(m)) == table_contents(*old(m)).remove(k@),
{
    m.remove(k);
}

/// `DashMap::iter`: every entry once, in no particular order, copied out.
#[verifier::external_body]
fn table_entries(m: &DashMap<ObjectKey, StoredObject>) -> (r: Vec<(ObjectKey, StoredObject)>)
    ensures
        forall|i: int| 0 <= i < r@.len() ==> table_contents(*m).contains_key(#[trigger] r@[i].0@)
            && table_contents(*m)[r@[i].0@] == r@[i].1@,
        forall|k: Ident| #[trigger] table_contents(*m).contains_key(k) ==> exists|i: int| 0 <= i < r@.len() && r@[i].0@ == k,
        forall|i: int, j: int| 0 <= i < j < r@.len() ==> r@[i].0@ != r@[j].0@,
{
    m.iter().map(|entry| (entry.key().clone(), entry.value().duplicate())).collect()
}

/// Objects in memory, keyed by kind, namespace and name.
pub struct InMemoryStore {
    objects: DashMap<ObjectKey, StoredObject>,
}

impl View for InMemoryStore {
    type V = Map<Ident, ObjectView>;

    closed spec fn view(&self) -> Map<Ident, ObjectView> {
        table_contents(self.objects)
    }
}

/// Whether each entry of `m` is stored where the object says it lives.
pub open spec fn placed(m: Map<Ident, ObjectView>) -> bool {
    forall|k: Ident| #[trigger] m.contains_key(k) ==> identity(m[k]) == k
}

impl ObjectKey {
    /// The location an object says it has.
    pub fn of_object(o: &StoredObject) -> (k: ObjectKey)
        ensures
            k@ == identity(o@),
    {
        ObjectKey { key: o.key.duplicate(), namespace: copy_opt(&o.metadata.namespace), name: o.metadata.name.clone() }
    }

    pub fn at(key: &ResourceKey, namespace: Option<&str>, name: &str) -> (k: ObjectKey)
        ensures
            k@ == (Ident { key: key@, namespace: opt_ref_str(namespace), name: name@ }),
    {
        ObjectKey {
            key: key.duplicate(),
            namespace: match namespace {
                Some(n) => Some(String::from_str(n)),
                None => None,
            },
            name: String::from_str(name),
        }
    }
}

/// `"{kind}/{name}"`, how a missing object is named in errors.
pub open spec fn object_identifier(kind: Seq<char>, name: Seq<char>) -> Seq<char> {
    kind + seq!['/'] + name
}

fn not_found(key: &ResourceKey, name: &str) -> (e: AppError)
    ensures
        e matches AppError::NotFound { what, identifier } && what@ == "object"@
            && identifier@ == object_identifier(key@.kind, name@),
{
    let mut id = key.kind.clone();
    push_char(&mut id, '/');
    id.append(name);
    AppError::NotFound { what: String::from_str("object"), identifier: id }
}

impl InMemoryStore {
    #[verifier::type_invariant]
    spec fn inv(self) -> bool {
        &&& table_contents(self.objects).dom().finite()
        &&& placed(table_contents(self.objects))
    }

    /// Every store's entries are finite and placed where their objects say.
    pub(crate) fn facts(&self)
        ensures
            self@.dom().finite(),
            placed(self@),
    {
        proof {
            use_type_invariant(self);
        }
    }

    /// An empty store.
    pub fn new() -> (s: InMemoryStore)
        ensures
            s@ == Map::<Ident, ObjectView>::empty(),
    {
        InMemoryStore { objects: table_new() }
    }

    /// Persists `object` as it is, unless an object already lives at its location.
    pub fn create(&mut self, object: StoredObject) -> (r: Result<StoredObject, AppError>)
        ensures
            old(self)@.contains_key(identity(object@)) ==> final(self)@ == old(self)@
                && (r matches Err(AppError::AlreadyExists { kind, name })
                && kind@ == object@.key.kind && name@ == object@.metadata.name),
            !old(self)@.contains_key(identity(object@)) ==> final(self)@ == old(self)@.insert(identity(object@), object@)
                && (r matches Ok(o) && o@ == object@),
    {
        proof {
            use_type_invariant(&*self);
        }
        let k = ObjectKey::of_object(&object);
        if table_contains(&self.objects, &k) {
            return Err(AppError::AlreadyExists { kind: object.key.kind.clone(), name: object.metadata.name.clone() });
        }
        let copy = object.duplicate();
        let mut objects = table_new();
        std::mem::swap(&mut objects, &mut self.objects);
        table_insert(&mut objects, k, copy);
        self.objects = objects;
        Ok(object)
    }

    /// The object at `(key, namespace, name)`.
    pub fn get(&self, key: &ResourceKey, namespace: Option<&str>, name: &str) -> (r: Result<StoredObject, AppError>)
        ensures
            match self@.get(Ident { key: key@, namespace: opt_ref_str(namespace), name: name@ }) {
                Some(o) => r matches Ok(x) && x@ == o,
                None => r matches Err(AppError::NotFound { what, identifier }) && what@ == "object"@
                    && identifier@ == object_identifier(key@.kind, name@),
            },
    {
        let k = ObjectKey::at(key, namespace, name);
        match table_get(&self.objects, &k) {
            Some(o) => Ok(o),
            None => Err(not_found(key, name)),
        }
    }

    /// Whether any object of the kind `key` exists, in any namespace.
    pub fn has_kind(&self, key: &ResourceKey) -> (b: bool)
        ensures
            b == exists|k: Ident| #[trigger] self@.contains_key(k) && k.key == key@,
    {
        let entries = table_entries(&self.objects);
        let mut i: usize = 0;
        while i < entries.len()
            invariant
                0 <= i <= entries.len(),
                forall|j: int| 0 <= j < entries@.len() ==> self@.contains_key(#[trigger] entries@[j].0@),
                forall|j: int| 0 <= j < i ==> entries@[j].0@.key != key@,
            decreases entries.len() - i,
        {
            if entries[i].0.key.same_as(key) {
                assert(self@.contains_key(entries@[i as int].0@));
                return true;
            }
            i = i + 1;
        }
        proof {
            assert forall|k: Ident| #[trigger] self@.contains_key(k) implies k.key != key@ by {
                let j = choose|j: int| 0 <= j < entries@.len() && entries@[j].0@ == k;
            }
        }
        false
    }

    /// Carries out `op` on the object at `(key, namespace, name)`: replaces
    /// it, removes it (returning the removed object) or fails without change.
    /// The object an `Apply` carries names that same location: the store
    /// keeps every object where its own key, namespace and name place it,
    /// which `get` and `list` rely on, so a replacement that named another
    /// location is not a replacement of this object.
    pub fn apply(&mut self, key: &ResourceKey, namespace: Option<&str>, name: &str, op: TransactionOp) -> (r: Result<StoredObject, AppError>)
        requires
            old(self)@.contains_key(Ident { key: key@, namespace: opt_ref_str(namespace), name: name@ }),
            op matches TransactionOp::Apply(n) ==> identity(n@) == (Ident { key: key@, namespace: opt_ref_str(namespace), name: name@ }),
        ensures
            ({
                let id = Ident { key: key@, namespace: opt_ref_str(namespace), name: name@ };
                match op {
                    TransactionOp::Apply(n) => final(self)@ == old(self)@.insert(id, n@) && (r matches Ok(x) && x@ == n@),
                    TransactionOp::Delete => final(self)@ == old(self)@.remove(id) && (r matches Ok(x) && x@ == old(self)@[id]),
                    TransactionOp::Abort(e) => final(self)@ == old(self)@ && r == Err::<StoredObject, AppError>(e),
                }
            }),
    {
        proof {
            use_type_invariant(&*self);
        }
        let k = ObjectKey::at(key, namespace, name);
        match op {
            TransactionOp::Apply(n) => {
                let copy = n.duplicate();
                let mut objects = table_new();
                std::mem::swap(&mut objects, &mut self.objects);
                table_insert(&mut objects, k, copy);
                self.objects = objects;
                Ok(n)
            },
            TransactionOp::Delete => {
                let existing = table_get(&self.objects, &k);
                let mut objects = table_new();
                std::mem::swap(&mut objects, &mut self.objects);
                table_remove(&mut objects, &k);
                self.objects = objects;
                match existing {
                    Some(o) => Ok(o),
                    None => Err(not_found(key, name)),
                }
            },
            TransactionOp::Abort(e) => Err(e),
        }
    }

    /// Atomic read-modify-write: reads the object at `(key, namespace, name)`,
    /// hands it to `op`, and carries out the operation `op` returns.
    pub fn transaction<F: FnOnce(&StoredObject) -> TransactionOp>(
        &mut self,
        key: &ResourceKey,
        namespace: Option<&str>,
        name: &str,
        op: F,
    ) -> (r: Result<StoredObject, AppError>)
        requires
            forall|o: &StoredObject| identity(o@) == (Ident { key: key@, namespace: opt_ref_str(namespace), name: name@ })
                ==> #[trigger] call_requires(op, (o,)),
            forall|o: &StoredObject, t: TransactionOp| #[trigger] call_ensures(op, (o,), t)
                && identity(o@) == (Ident { key: key@, namespace: opt_ref_str(namespace), name: name@ })
                ==> (t matches TransactionOp::Apply(n) ==> identity(n@) == identity(o@)),
        ensures
            ({
                let id = Ident { key: key@, namespace: opt_ref_str(namespace), name: name@ };
                if !old(self)@.contains_key(id) {
                    final(self)@ == old(self)@ && (r matches Err(AppError::NotFound { what, identifier })
                        && what@ == "object"@ && identifier@ == object_identifier(key@.kind, name@))
                } else {
                    exists|o: StoredObject, t: TransactionOp| o@ == old(self)@[id] && #[trigger] call_ensures(op, (&o,), t) && match t {
                        TransactionOp::Apply(n) => final(self)@ == old(self)@.insert(id, n@) && (r matches Ok(x) && x@ == n@),
                        TransactionOp::Delete => final(self)@ == old(self)@.remove(id) && (r matches Ok(x) && x@ == o@),
                        TransactionOp::Abort(e) => final(self)@ == old(self)@ && r == Err::<StoredObject, AppError>(e),
                    }
                }
            }),
    {
        proof {
            use_type_invariant(&*self);
        }
        let existing = match self.get(key, namespace, name) {
            Ok(o) => o,
            Err(e) => return Err(e),
        };
        let t = op(&existing);
        let ghost tc = t;
        let r = self.apply(key, namespace, name, t);
        assert(call_ensures(op, (&existing,), tc));
        r
    }
}

} // verus!

verus! {

/// `a < b` for namespaces: cluster scope first, then by text.
pub open spec fn ns_lt(a: Option<Seq<char>>, b: Option<Seq<char>>) -> bool {
    match (a, b) {
        (None, Some(_)) => true,
        (Some(x), Some(y)) => seq_lt(x, y),
        _ => false,
    }
}

/// List order: by namespace, then by name.
pub open spec fn pos_lt(a: ObjectView, b: ObjectView) -> bool {
    ns_lt(a.metadata.namespace, b.metadata.namespace)
        || (a.metadata.namespace == b.metadata.namespace && seq_lt(a.metadata.name, b.metadata.name))
}

pub proof fn lemma_pos_irreflexive(a: ObjectView)
    ensures
        !pos_lt(a, a),
{
    lemma_lt_irreflexive(a.metadata.name);
    if let Some(x) = a.metadata.namespace {
        lemma_lt_irreflexive(x);
    }
}

pub proof fn lemma_pos_transitive(a: ObjectView, b: ObjectView, c: ObjectView)
    requires
        pos_lt(a, b),
        pos_lt(b, c),
    ensures
        pos_lt(a, c),
{
    if let (Some(x), Some(y), Some(z)) = (a.metadata.namespace, b.metadata.namespace, c.metadata.namespace) {
        if seq_lt(x, y) && seq_lt(y, z) {
            lemma_lt_transitive(x, y, z);
        }
    }
    if a.metadata.namespace == b.metadata.namespace && b.metadata.namespace == c.metadata.namespace {
        if seq_lt(a.metadata.name, b.metadata.name) && seq_lt(b.metadata.name, c.metadata.name) {
            lemma_lt_transitive(a.metadata.name, b.metadata.name, c.metadata.name);
        }
    }
}

pub proof fn lemma_pos_total(a: ObjectView, b: ObjectView)
    ensures
        (a.metadata.namespace == b.metadata.namespace && a.metadata.name == b.metadata.name)
            || pos_lt(a, b) || pos_lt(b, a),
{
    lemma_lt_total(a.metadata.name, b.metadata.name);
    if let (Some(x), Some(y)) = (a.metadata.namespace, b.metadata.namespace) {
        lemma_lt_total(x, y);
    }
}

/// Whether `o` passes the kind, namespace and selector filters of a list request.
pub open spec fn selected(o: ObjectView, key: KeyView, ns: Option<Seq<char>>, opts: ListOptions) -> bool {
    &&& o.key == key
    &&& (ns is None || o.metadata.namespace == ns)
    &&& match opts.field_selector {
        Some(FieldSelector::NameEquals(n)) => o.metadata.name == n@,
        None => true,
    }
    &&& match opts.label_selector {
        Some(ls) => selector_holds(ls@, o.metadata.labels),
        None => true,
    }
}

/// Whether `o` comes after the cursor. A namespaced list compares names only;
/// a list across namespaces compares namespace, then name.
pub open spec fn past_cursor(o: ObjectView, ns: Option<Seq<char>>, cursor: Option<(Option<Seq<char>>, Seq<char>)>) -> bool {
    match cursor {
        None => true,
        Some((cns, cname)) => if ns is Some {
            seq_lt(cname, o.metadata.name)
        } else {
            ns_lt(cns, o.metadata.namespace) || (cns == o.metadata.namespace && seq_lt(cname, o.metadata.name))
        },
    }
}

/// The cursor a list request carries, read from its continue token.
pub open spec fn cursor_of(opts: ListOptions) -> Option<(Option<Seq<char>>, Seq<char>)> {
    match opts.continue_token {
        None => None,
        Some(t) => token_position(t.0@),
    }
}

pub open spec fn eligible(o: ObjectView, key: KeyView, ns: Option<Seq<char>>, opts: ListOptions) -> bool {
    selected(o, key, ns, opts) && past_cursor(o, ns, cursor_of(opts))
}

pub open spec fn page_limit(opts: ListOptions) -> int {
    match opts.limit {
        Some(l) => l as int,
        None => usize::MAX as int,
    }
}

/// Whether the stored object at `k` is eligible but not on the page.
pub open spec fn left_out(m: Map<Ident, ObjectView>, k: Ident, items: Seq<StoredObject>, key: KeyView, ns: Option<Seq<char>>, opts: ListOptions) -> bool {
    &&& m.contains_key(k)
    &&& eligible(m[k], key, ns, opts)
    &&& forall|i: int| 0 <= i < items.len() ==> items[i]@ != m[k]
}

/// What a page answers for a list request on `m`.
pub open spec fn page_answers(m: Map<Ident, ObjectView>, key: KeyView, ns: Option<Seq<char>>, opts: ListOptions, page: ListResponse) -> bool {
    let items = page.items@;
    &&& forall|i: int| 0 <= i < items.len() ==> m.contains_key(identity(#[trigger] items[i]@))
        && m[identity(items[i]@)] == items[i]@ && eligible(items[i]@, key, ns, opts)
    &&& forall|i: int, j: int| 0 <= i < j < items.len() ==> pos_lt(#[trigger] items[i]@, #[trigger] items[j]@)
    &&& items.len() <= page_limit(opts)
    &&& forall|k: Ident| #[trigger] left_out(m, k, items, key, ns, opts) ==> items.len() == page_limit(opts)
        && (items.len() > 0 ==> pos_lt(items.last()@, m[k]))
    &&& (page.continue_token is Some <==> items.len() > 0 && exists|k: Ident| #[trigger] left_out(m, k, items, key, ns, opts))
    &&& page.continue_token matches Some(t) ==> t.0@ == token_text(items.last()@.metadata.namespace, items.last()@.metadata.name)
        && token_position(t.0@) == Some((items.last()@.metadata.namespace, items.last()@.metadata.name))
}

fn ns_less(a: &Option<String>, b: &Option<String>) -> (r: bool)
    ensures
        r == ns_lt(opt_str(*a), opt_str(*b)),
{
    match (a, b) {
        (None, Some(_)) => true,
        (Some(x), Some(y)) => chars_less(&chars_of(x.as_str()), &chars_of(y.as_str())),
        _ => false,
    }
}

fn opt_same(a: &Option<String>, b: &Option<String>) -> (r: bool)
    ensures
        r == (opt_str(*a) == opt_str(*b)),
{
    match (a, b) {
        (None, None) => true,
        (Some(x), Some(y)) => str_equal(x.as_str(), y.as_str()),
        _ => false,
    }
}

/// Whether `a` comes before `b` in list order.
fn pos_less(a: &StoredObject, b: &StoredObject) -> (r: bool)
    ensures
        r == pos_lt(a@, b@),
{
    ns_less(&a.metadata.namespace, &b.metadata.namespace)
        || (opt_same(&a.metadata.namespace, &b.metadata.namespace)
            && chars_less(&chars_of(a.metadata.name.as_str()), &chars_of(b.metadata.name.as_str())))
}

fn is_past_cursor(o: &StoredObject, ns: Option<&str>, cursor: &Option<(Option<String>, String)>) -> (r: bool)
    ensures
        r == past_cursor(o@, opt_ref_str(ns), match cursor {
            Some((n, m)) => Some((opt_str(*n), m@)),
            None => None,
        }),
{
    match cursor {
        None => true,
        Some((cns, cname)) => {
            let after_name = chars_less(&chars_of(cname.as_str()), &chars_of(o.metadata.name.as_str()));
            if ns.is_some() {
                after_name
            } else {
                ns_less(cns, &o.metadata.namespace) || (opt_same(cns, &o.metadata.namespace) && after_name)
            }
        },
    }
}

fn is_selected(o: &StoredObject, key: &ResourceKey, ns: Option<&str>, opts: &ListOptions) -> (r: bool)
    ensures
        r == selected(o@, key@, opt_ref_str(ns), *opts),
{
    if !o.key.same_as(key) {
        return false;
    }
    match ns {
        Some(n) => match &o.metadata.namespace {
            Some(x) => {
                if !str_equal(x.as_str(), n) {
                    return false;
                }
            },
            None => {
                return false;
            },
        },
        None => {},
    }
    match &opts.field_selector {
        Some(FieldSelector::NameEquals(n)) => {
            if !str_equal(o.metadata.name.as_str(), n.as_str()) {
                return false;
            }
        },
        None => {},
    }
    match &opts.label_selector {
        Some(ls) => ls.matches(&o.metadata.labels),
        None => true,
    }
}

/// Whether two objects sit at the same place in list order.
pub open spec fn same_place(a: ObjectView, b: ObjectView) -> bool {
    a.metadata.namespace == b.metadata.namespace && a.metadata.name == b.metadata.name
}

/// Whether the objects are strictly in list order.
pub open spec fn in_list_order(s: Seq<StoredObject>) -> bool {
    forall|a: int, b: int| 0 <= a < b < s.len() ==> pos_lt(#[trigger] s[a]@, #[trigger] s[b]@)
}

/// Whether `x` is the object stored at the place it names in `m`.
pub open spec fn stored_in(m: Map<Ident, ObjectView>, x: ObjectView) -> bool {
    m.contains_key(identity(x)) && m[identity(x)] == x
}

/// The cursor carried by a decoded continue token.
pub open spec fn cursor_view(c: Option<(Option<String>, String)>) -> Option<(Option<Seq<char>>, Seq<char>)> {
    match c {
        Some((n, m)) => Some((opt_str(n), m@)),
        None => None,
    }
}

/// Inserts `o` into a list kept in list order.
fn insert_in_order(sorted: &mut Vec<StoredObject>, o: StoredObject)
    requires
        in_list_order(old(sorted)@),
        forall|a: int| 0 <= a < old(sorted)@.len() ==> !same_place(#[trigger] old(sorted)@[a]@, o@),
    ensures
        in_list_order(final(sorted)@),
        exists|j: int| 0 <= j <= old(sorted)@.len() && final(sorted)@ == old(sorted)@.insert(j, o),
{
    let mut j: usize = 0;
    while j < sorted.len() && pos_less(&sorted[j], &o)
        invariant
            0 <= j <= sorted@.len(),
            sorted@ == old(sorted)@,
            forall|a: int| 0 <= a < j ==> pos_lt(#[trigger] sorted@[a]@, o@),
        decreases sorted.len() - j,
    {
        j = j + 1;
    }
    let ghost before = sorted@;
    let ghost ov = o@;
    proof {
        if j < before.len() {
            lemma_pos_total(before[j as int]@, ov);
            assert(!same_place(before[j as int]@, ov));
        }
        before.insert_ensures(j as int, o);
    }
    sorted.insert(j, o);
    proof {
        let after = sorted@;
        assert forall|a: int, b: int| 0 <= a < b < after.len() implies pos_lt(#[trigger] after[a]@, #[trigger] after[b]@) by {
            if b < j {
                assert(after[a] == before[a] && after[b] == before[b]);
            } else if b == j {
                assert(after[a] == before[a]);
            } else if a < j {
                assert(after[a] == before[a] && after[b] == before[b - 1]);
            } else if a == j {
                assert(after[b] == before[b - 1]);
                if b - 1 > j {
                    lemma_pos_transitive(ov, before[j as int]@, before[b - 1]@);
                }
            } else {
                assert(after[a] == before[a - 1] && after[b] == before[b - 1]);
            }
        }
    }
}

impl InMemoryStore {
    /// The objects that a list request may return, in list order.
    fn eligible_in_order(
        &self,
        key: &ResourceKey,
        namespace: Option<&str>,
        opts: &ListOptions,
        cursor: &Option<(Option<String>, String)>,
    ) -> (all: Vec<StoredObject>)
        requires
            cursor_view(*cursor) == cursor_of(*opts),
        ensures
            in_list_order(all@),
            forall|a: int| 0 <= a < all@.len() ==> stored_in(self@, #[trigger] all@[a]@)
                && eligible(all@[a]@, key@, opt_ref_str(namespace), *opts),
            forall|k: Ident| #[trigger] self@.contains_key(k) && eligible(self@[k], key@, opt_ref_str(namespace), *opts)
                ==> exists|a: int| 0 <= a < all@.len() && all@[a]@ == self@[k],
    {
        proof {
            use_type_invariant(self);
        }
        let ghost m = self@;
        let ghost kv = key@;
        let ghost nsv = opt_ref_str(namespace);
        let entries = table_entries(&self.objects);
        let mut sorted: Vec<StoredObject> = Vec::new();
        let mut i: usize = 0;
        while i < entries.len()
            invariant
                0 <= i <= entries.len(),
                m == self@,
                kv == key@,
                nsv == opt_ref_str(namespace),
                placed(m),
                cursor_view(*cursor) == cursor_of(*opts),
                forall|j: int| 0 <= j < entries@.len() ==> m.contains_key(#[trigger] entries@[j].0@)
                    && m[entries@[j].0@] == entries@[j].1@,
                forall|a: int, b: int| 0 <= a < b < entries@.len() ==> entries@[a].0@ != entries@[b].0@,
                in_list_order(sorted@),
                forall|a: int| 0 <= a < sorted@.len() ==> stored_in(m, #[trigger] sorted@[a]@)
                    && eligible(sorted@[a]@, kv, nsv, *opts),
                forall|a: int, j: int| 0 <= a < sorted@.len() && i <= j < entries@.len()
                    ==> identity(#[trigger] sorted@[a]@) != #[trigger] entries@[j].0@,
                forall|j: int| 0 <= j < i && eligible(#[trigger] entries@[j].1@, kv, nsv, *opts)
                    ==> exists|a: int| 0 <= a < sorted@.len() && sorted@[a]@ == entries@[j].1@,
            decreases entries.len() - i,
        {
            let o = &entries[i].1;
            let ghost ov = o@;
            let ghost oid = entries@[i as int].0@;
            assert(identity(ov) == oid);
            if is_selected(o, key, namespace, opts) && is_past_cursor(o, namespace, cursor) {
                let ghost before = sorted@;
                proof {
                    assert forall|a: int| 0 <= a < before.len() implies !same_place(#[trigger] before[a]@, ov) by {
                        assert(identity(before[a]@) != entries@[i as int].0@);
                    }
                }
                let dup = o.duplicate();
                insert_in_order(&mut sorted, dup);
                proof {
                    let j = choose|j: int| 0 <= j <= before.len() && sorted@ == before.insert(j, dup);
                    before.insert_ensures(j, dup);
                    assert forall|a: int| 0 <= a < sorted@.len() implies stored_in(m, #[trigger] sorted@[a]@)
                        && eligible(sorted@[a]@, kv, nsv, *opts) by {
                        if a < j {
                            assert(sorted@[a] == before[a]);
                        } else if a > j {
                            assert(sorted@[a] == before[a - 1]);
                        }
                    }
                    assert forall|a: int, jj: int| 0 <= a < sorted@.len() && i + 1 <= jj < entries@.len()
                        implies identity(#[trigger] sorted@[a]@) != #[trigger] entries@[jj].0@ by {
                        if a < j {
                            assert(sorted@[a] == before[a]);
                        } else if a > j {
                            assert(sorted@[a] == before[a - 1]);
                        }
                    }
                    assert forall|jj: int| 0 <= jj < i + 1 && eligible(#[trigger] entries@[jj].1@, kv, nsv, *opts)
                        implies exists|a: int| 0 <= a < sorted@.len() && sorted@[a]@ == entries@[jj].1@ by {
                        if jj < i {
                            let a = choose|a: int| 0 <= a < before.len() && before[a]@ == entries@[jj].1@;
                            if a < j {
                                assert(sorted@[a] == before[a]);
                            } else {
                                assert(sorted@[a + 1] == before[a]);
                            }
                        } else {
                            assert(sorted@[j]@ == entries@[i as int].1@);
                        }
                    }
                }
            }
            i = i + 1;
        }
        proof {
            assert forall|k: Ident| #[trigger] m.contains_key(k) && eligible(m[k], kv, nsv, *opts)
                implies exists|a: int| 0 <= a < sorted@.len() && sorted@[a]@ == m[k] by {
                let jj = choose|jj: int| 0 <= jj < entries@.len() && entries@[jj].0@ == k;
                assert(eligible(entries@[jj].1@, kv, nsv, *opts));
            }
        }
        sorted
    }

    /// Lists the objects of kind `key` in `namespace` (or in every namespace
    /// when `None`), filtered by the selectors of `opts`, sorted by namespace
    /// and name, starting after the continue token and at most `limit` long.
    /// A token holds the position of the last object of the previous page;
    /// base64 of a bare name (UTF-8 text that is not a JSON object) resumes
    /// after that name with no namespace. A token that reads as neither is
    /// refused with `Internal`.
    pub fn list(&self, key: &ResourceKey, namespace: Option<&str>, opts: &ListOptions) -> (r: Result<ListResponse, AppError>)
        ensures
            match r {
                Ok(page) => page_answers(self@, key@, opt_ref_str(namespace), *opts, page)
                    && !(opts.continue_token matches Some(t) && token_position(t.0@) is None),
                Err(e) => opts.continue_token matches Some(t) && token_position(t.0@) is None
                    && (e matches AppError::Internal(m) && m@ == token_error(t.0@)),
            },
    {
        let ghost m = self@;
        let ghost kv = key@;
        let ghost nsv = opt_ref_str(namespace);
        let cursor: Option<(Option<String>, String)> = match &opts.continue_token {
            Some(t) => match decode_continue_token(t) {
                Ok(c) => Some(c),
                Err(e) => {
                    return Err(e);
                },
            },
            None => None,
        };
        assert(cursor_view(cursor) == cursor_of(*opts));
        let mut items = self.eligible_in_order(key, namespace, opts, &cursor);
        let ghost all = items@;
        let limit = match opts.limit {
            Some(l) => l,
            None => usize::MAX,
        };
        let has_more = items.len() > limit;
        if has_more {
            items.truncate(limit);
        }
        let continue_token = if has_more && items.len() > 0 {
            let last = &items[items.len() - 1];
            Some(encode_continue_token(
                match &last.metadata.namespace {
                    Some(n) => Some(n.as_str()),
                    None => None,
                },
                last.metadata.name.as_str(),
            ))
        } else {
            None
        };
        let page = ListResponse { items, continue_token };
        proof {
            let items = page.items@;
            assert(items =~= if has_more { all.take(limit as int) } else { all });
            assert forall|i: int| 0 <= i < items.len() implies m.contains_key(identity(#[trigger] items[i]@))
                && m[identity(items[i]@)] == items[i]@ && eligible(items[i]@, kv, nsv, *opts) by {
                assert(items[i] == all[i]);
            }
            assert forall|i: int, j: int| 0 <= i < j < items.len() implies pos_lt(#[trigger] items[i]@, #[trigger] items[j]@) by {
                assert(items[i] == all[i] && items[j] == all[j]);
            }
            assert forall|k: Ident| #[trigger] left_out(m, k, items, kv, nsv, *opts) implies items.len() == page_limit(*opts)
                && (items.len() > 0 ==> pos_lt(items.last()@, m[k])) by {
                let a = choose|a: int| 0 <= a < all.len() && all[a]@ == m[k];
                if !has_more {
                    assert(items[a] == all[a]);
                } else {
                    if a < limit {
                        assert(items[a] == all[a]);
                    }
                    if items.len() > 0 {
                        assert(items.last() == all[limit - 1]);
                    }
                }
            }
            if has_more {
                let w = all[limit as int];
                let k = identity(w@);
                assert(stored_in(m, w@));
                assert forall|i: int| 0 <= i < items.len() implies items[i]@ != m[k] by {
                    assert(items[i] == all[i]);
                    lemma_pos_irreflexive(all[i]@);
                }
                assert(left_out(m, k, items, kv, nsv, *opts));
            } else {
                assert forall|k: Ident| !#[trigger] left_out(m, k, items, kv, nsv, *opts) by {
                    if m.contains_key(k) && eligible(m[k], kv, nsv, *opts) {
                        let a = choose|a: int| 0 <= a < all.len() && all[a]@ == m[k];
                        assert(items[a]@ == m[k]);
                    }
                }
            }
        }
        Ok(page)
    }
}

} // verus!
