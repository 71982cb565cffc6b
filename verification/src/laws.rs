//! Properties that hold across the library's operations.

use vstd::prelude::*;
use crate::finalizer::{DeleteAction, marked, spec_evaluate_delete};
use crate::helpers::{counters_fit, stamped};
use crate::keys::{KeyView, spec_schema_cache_key};
use crate::order::seq_lt;
use crate::registry::{CacheView, after_lookup, after_status_lookup, schema_name_of, status_lookup, validator_lookup};
use crate::service::{create_answer, status_read_answer, status_write_answer, update_answer, update_decision, update_placement};
use crate::finalizer::spec_evaluate_update;
use crate::store::TransactionOp;
use crate::error::AppError;
use crate::json::{JsonTree, JsonValue};
use crate::types::{MetaView, ObjectMeta, StoredObject, opt_json};
use crate::selector::{selector_holds, parse_label_selector};
use crate::store::{Ident, cursor_of, eligible, identity, left_out, ns_lt, page_answers, past_cursor, placed, pos_lt, lemma_pos_irreflexive};
use crate::types::{ListOptions, ListResponse, ObjectView, Timestamp, object_views};
use crate::keys::spec_schema_key;
use crate::openapi::paths::{kind_paths, kind_collection_path_doc, kind_namespaced_collection_path_doc, list_parameters_doc, all_schemas_request, api_prefix, kind_component_name, lemma_document_paths, lemma_document_paths_absent,
    lemma_document_schemas, openapi_document, registered_paths, registered_schema, static_paths};
use crate::selector::Requirement;
use crate::schema_data::SchemaDataView;
use crate::sqlquery::{ParamView, QueryView, requirement_clause, with_requirements};

verus! {

/// Every accepted write moves the resource version one forward, keeps the
/// creation time, takes the write's time as update time, and bumps the
/// generation exactly when the spec changes.
pub proof fn law_write_stamps(existing: ObjectView, updated: ObjectView, now: Timestamp)
    requires
        counters_fit(existing),
    ensures
        stamped(existing, updated, now).system.resource_version == existing.system.resource_version + 1,
        stamped(existing, updated, now).system.created_at == existing.system.created_at,
        stamped(existing, updated, now).system.updated_at == now,
        stamped(existing, updated, now).system.generation == if updated.spec == existing.spec {
            existing.system.generation as int
        } else {
            existing.system.generation + 1
        },
{
}

/// A status write never changes the generation: the spec stays as it was.
pub proof fn law_status_write_keeps_generation(existing: ObjectView, status: crate::json::JsonTree, now: Timestamp)
    ensures
        stamped(existing, ObjectView { status: Some(status), ..existing }, now).system.generation == existing.system.generation,
{
}

/// A read after a create gives back the created object; a read after a
/// removal finds nothing; other objects are untouched by either.
pub proof fn law_read_after_write(m: Map<Ident, ObjectView>, o: ObjectView, other: Ident)
    requires
        other != identity(o),
    ensures
        m.insert(identity(o), o).get(identity(o)) == Some(o),
        m.remove(identity(o)).get(identity(o)) is None,
        m.insert(identity(o), o).get(other) == m.get(other),
        m.remove(identity(o)).get(other) == m.get(other),
{
}

/// Writes keep every object at the place it names.
pub proof fn law_writes_keep_placement(m: Map<Ident, ObjectView>, o: ObjectView, id: Ident)
    requires
        placed(m),
    ensures
        placed(m.insert(identity(o), o)),
        placed(m.remove(id)),
{
}

/// Deleting an object marked for deletion again changes nothing: the
/// marked object still has its finalizers and now a deletion timestamp.
pub proof fn law_repeated_delete_is_idempotent(o: ObjectView, o2: ObjectView)
    requires
        spec_evaluate_delete(o) == DeleteAction::MarkedForDeletion,
        marked(o, o2),
    ensures
        spec_evaluate_delete(o2) == DeleteAction::IdempotentNoOp,
{
}

/// Cache keys of the same kind and group differ when the versions differ.
pub proof fn law_cache_keys_distinguish_versions(kind: Seq<char>, group: Seq<char>, v1: Seq<char>, v2: Seq<char>)
    requires
        v1 != v2,
    ensures
        spec_schema_cache_key(kind, group, v1) != spec_schema_cache_key(kind, group, v2),
{
    let a = spec_schema_cache_key(kind, group, v1);
    let b = spec_schema_cache_key(kind, group, v2);
    let p = kind + seq!['.'] + group + seq!['.'];
    assert(a =~= p + v1);
    assert(b =~= p + v2);
    if a == b {
        assert(v1 =~= a.skip(p.len() as int));
        assert(v2 =~= b.skip(p.len() as int));
    }
}

/// A lookup right after a cache entry was put under a kind's schema name
/// is served from that entry.
pub proof fn law_lookup_after_insert(c: CacheView, store: Map<Ident, ObjectView>, key: KeyView, v: Seq<char>, scope: Seq<char>)
    ensures
        validator_lookup(c.insert(schema_name_of(key), (v, None, scope)), store, key) == Ok::<(Seq<char>, Seq<char>), crate::registry::LoadFailure>((v, scope)),
        after_lookup(c.insert(schema_name_of(key), (v, None, scope)), store, key) == c.insert(schema_name_of(key), (v, None, scope)),
{
}

/// Evicting one version's cache entry leaves another version's entry as it was.
pub proof fn law_evict_keeps_other_versions(c: CacheView, kind: Seq<char>, group: Seq<char>, v1: Seq<char>, v2: Seq<char>)
    requires
        v1 != v2,
    ensures
        c.remove(spec_schema_cache_key(kind, group, v1)).get(spec_schema_cache_key(kind, group, v2))
            == c.get(spec_schema_cache_key(kind, group, v2)),
{
    law_cache_keys_distinguish_versions(kind, group, v1, v2);
}

/// The continue token of a page resumes right after the page's last item:
/// the next request with it admits exactly the objects after that item (by
/// name within a namespace; by namespace, then name, across namespaces).
pub proof fn law_continue_resumes_after_last(
    m: Map<Ident, ObjectView>,
    key: KeyView,
    ns: Option<Seq<char>>,
    opts: ListOptions,
    page: ListResponse,
    o: ObjectView,
)
    requires
        page_answers(m, key, ns, opts, page),
        page.continue_token is Some,
    ensures
        ({
            let last = page.items@.last()@;
            let next = ListOptions { continue_token: page.continue_token, ..opts };
            &&& cursor_of(next) == Some((last.metadata.namespace, last.metadata.name))
            &&& past_cursor(o, ns, cursor_of(next)) == if ns is Some {
                seq_lt(last.metadata.name, o.metadata.name)
            } else {
                ns_lt(last.metadata.namespace, o.metadata.namespace)
                    || (last.metadata.namespace == o.metadata.namespace && seq_lt(last.metadata.name, o.metadata.name))
            }
        }),
{
}

/// Within a namespace, objects of a kind with a page of no limit, cursor or
/// selector include every stored object of that kind there, when the store
/// holds fewer than `usize::MAX` objects.
pub proof fn law_full_listing_is_complete(m: Map<Ident, ObjectView>, key: KeyView, ns: Option<Seq<char>>, page: ListResponse, id: Ident)
    requires
        m.dom().finite(),
        placed(m),
        m.dom().len() < usize::MAX,
        page_answers(m, key, ns, ListOptions { limit: None, continue_token: None, field_selector: None, label_selector: None }, page),
        m.contains_key(id),
        id.key == key,
        ns is None || id.namespace == ns,
    ensures
        exists|i: int| 0 <= i < page.items@.len() && page.items@[i]@ == m[id],
{
    let opts = ListOptions { limit: None, continue_token: None, field_selector: None, label_selector: None };
    let items = page.items@;
    let ids = items.map_values(|x: crate::types::StoredObject| identity(x@));
    assert forall|a: int, b: int| 0 <= a < ids.len() && 0 <= b < ids.len() && a != b implies ids[a] != ids[b] by {
        if ids[a] == ids[b] {
            if a < b {
                assert(pos_lt(items[a]@, items[b]@));
            } else {
                assert(pos_lt(items[b]@, items[a]@));
            }
            lemma_pos_irreflexive(items[a]@);
            lemma_pos_irreflexive(items[b]@);
        }
    }
    ids.unique_seq_to_set();
    assert(ids.to_set().subset_of(m.dom()));
    vstd::set_lib::lemma_len_subset(ids.to_set(), m.dom());
    assert(identity(m[id]) == id);
    assert(eligible(m[id], key, ns, opts));
    if !(exists|i: int| 0 <= i < items.len() && items[i]@ == m[id]) {
        assert(left_out(m, id, items, key, ns, opts));
    }
}

/// An empty label selector parses and admits every set of labels.
pub proof fn law_empty_label_selector_admits_all(labels: Map<Seq<char>, Seq<char>>)
    ensures
        parse_label_selector(Seq::empty()) matches Ok(reqs) && selector_holds(reqs, labels),
{
    assert(crate::charseq::trim(Seq::<char>::empty()).len() == 0) by {
        reveal_with_fuel(crate::charseq::trim_start, 1);
    }
}

/// Cluster-scoped objects list before the objects of any namespace.
pub proof fn law_cluster_scoped_first(a: ObjectView, b: ObjectView)
    requires
        a.metadata.namespace is None,
        b.metadata.namespace is Some,
    ensures
        pos_lt(a, b),
{
}

/// The OpenAPI description built from a full listing of the Schema objects
/// describes every registered kind: its collection, item and status paths
/// and its spec, StoredObject and ListResponse components are in the
/// document, when the store holds fewer than `usize::MAX` objects.
pub proof fn law_description_covers_registered_kinds(m: Map<Ident, ObjectView>, page: ListResponse, id: Ident)
    requires
        m.dom().finite(),
        placed(m),
        m.dom().len() < usize::MAX,
        page_answers(m, spec_schema_key(), None, all_schemas_request(), page),
        m.contains_key(id),
        id.key == spec_schema_key(),
        registered_schema(m[id]) is Some,
    ensures
        ({
            let d = registered_schema(m[id])->0;
            let c = kind_component_name(d);
            let doc = openapi_document(object_views(page.items@));
            &&& doc.get("paths"@) matches Some(paths) && paths.get(api_prefix(d, "/"@ + d.kind)) is Some
                && paths.get(api_prefix(d, "/"@ + d.kind + "/{name}"@)) is Some
                && paths.get(api_prefix(d, "/"@ + d.kind + "/{name}/status"@)) is Some
            &&& doc.get("components"@) matches Some(comps) && comps.get("schemas"@) matches Some(schemas)
                && schemas.get(c) is Some && schemas.get(c + "StoredObject"@) is Some
                && schemas.get(c + "ListResponse"@) is Some
        }),
{
    law_full_listing_is_complete(m, spec_schema_key(), None, page, id);
    let items = object_views(page.items@);
    let i = choose|i: int| 0 <= i < page.items@.len() && page.items@[i]@ == m[id];
    assert(items[i] == m[id]);
    lemma_document_paths(items, i);
    lemma_document_schemas(items, i);
    let doc = openapi_document(items);
    let fields = doc->Object_0;
    assert(fields.len() == 4);
    assert(fields[2] == ("paths"@, crate::openapi::paths::document_paths(items)));
    assert(fields[3].0 == "components"@);
    reveal_strlit("openapi");
    reveal_strlit("info");
    reveal_strlit("paths");
    reveal_strlit("components");
    reveal_strlit("schemas");
    assert(fields[0].0 == "openapi"@ && fields[1].0 == "info"@);
    assert("openapi"@.len() == 7 && "info"@.len() == 4 && "paths"@.len() == 5 && "components"@.len() == 10);
    assert(fields[0].0 != "paths"@ && fields[1].0 != "paths"@);
    assert(fields[0].0 != "components"@ && fields[1].0 != "components"@ && fields[2].0 != "components"@);
    crate::json::lemma_first_index(fields, "paths"@);
    crate::json::lemma_first_index(fields, "components"@);
    let comps = fields[3].1;
    crate::json::lemma_first_index(comps->Object_0, "schemas"@);
}

/// How many placeholders a label requirement binds: two for `key=value`,
/// three for `key!=value`, one for `key` and `!key`.
pub open spec fn requirement_cost(r: Requirement) -> nat {
    match r {
        Requirement::Equals(_, _) => 2,
        Requirement::NotEquals(_, _) => 3,
        Requirement::Exists(_) => 1,
        Requirement::NotExists(_) => 1,
    }
}

/// The placeholders the requirements bind, summed.
pub open spec fn requirements_cost(reqs: Seq<Requirement>) -> nat
    decreases reqs.len(),
{
    if reqs.len() == 0 { 0 } else { requirements_cost(reqs.drop_last()) + requirement_cost(reqs.last()) }
}

/// A label selector adds one clause per requirement and binds as many
/// parameters as it advances the placeholder number, by the requirements'
/// costs; so a query whose parameter count is one short of its next
/// placeholder stays so.
pub proof fn law_label_selector_parameters(q: QueryView, reqs: Seq<Requirement>)
    ensures
        with_requirements(q, reqs).clauses.len() == q.clauses.len() + reqs.len(),
        with_requirements(q, reqs).clauses.take(q.clauses.len() as int) == q.clauses,
        with_requirements(q, reqs).next == q.next + requirements_cost(reqs),
        with_requirements(q, reqs).params.len() == q.params.len() + requirements_cost(reqs),
        q.params.len() + 1 == q.next ==> with_requirements(q, reqs).params.len() + 1 == with_requirements(q, reqs).next,
    decreases reqs.len(),
{
    if reqs.len() > 0 {
        law_label_selector_parameters(q, reqs.drop_last());
        let p = with_requirements(q, reqs.drop_last());
        assert(p.clauses.push(requirement_clause(reqs.last(), p.next).0).take(q.clauses.len() as int)
            =~= p.clauses.take(q.clauses.len() as int));
    }
}

/// The `len` parameters of `params` from position `from` on.
pub open spec fn params_from(params: Seq<ParamView>, from: nat, len: nat) -> Seq<ParamView> {
    params.subrange(from as int, (from + len) as int)
}

/// The `k`-th requirement of a label selector gets the `k`-th new clause,
/// built from the placeholder number that the requirements before it leave,
/// and binds its parameters in that same stretch of the parameter list; every
/// placeholder it uses lies between the query's old next number and the new
/// one.
pub proof fn law_label_selector_placeholders(q: QueryView, reqs: Seq<Requirement>)
    ensures
        forall|k: int| 0 <= k < reqs.len() ==> {
            let w = with_requirements(q, reqs);
            let start = q.next + requirements_cost(#[trigger] reqs.take(k));
            let (c, ps) = requirement_clause(reqs[k], start);
            &&& w.clauses[q.clauses.len() + k] == c
            &&& ps.len() == requirement_cost(reqs[k])
            &&& params_from(w.params, q.params.len() + requirements_cost(reqs.take(k)), ps.len()) == ps
            &&& q.next <= start && start + ps.len() <= w.next
        },
    decreases reqs.len(),
{
    if reqs.len() > 0 {
        let init = reqs.drop_last();
        law_label_selector_placeholders(q, init);
        law_label_selector_parameters(q, init);
        law_label_selector_parameters(q, reqs);
        let p = with_requirements(q, init);
        let w = with_requirements(q, reqs);
        let n = reqs.len() - 1;
        assert forall|k: int| 0 <= k < reqs.len() implies {
            let start = q.next + requirements_cost(#[trigger] reqs.take(k));
            let (c, ps) = requirement_clause(reqs[k], start);
            &&& w.clauses[q.clauses.len() + k] == c
            &&& ps.len() == requirement_cost(reqs[k])
            &&& params_from(w.params, q.params.len() + requirements_cost(reqs.take(k)), ps.len()) == ps
            &&& q.next <= start && start + ps.len() <= w.next
        } by {
            let start = q.next + requirements_cost(reqs.take(k));
            let (c, ps) = requirement_clause(reqs[k], start);
            if k < n {
                assert(reqs.take(k) =~= init.take(k));
                assert(reqs[k] == init[k]);
                assert(init.take(k) == reqs.take(k));
                let pi = params_from(p.params, q.params.len() + requirements_cost(init.take(k)), ps.len());
                assert(pi == ps);
                assert(params_from(w.params, q.params.len() + requirements_cost(reqs.take(k)), ps.len()) =~= pi);
            } else {
                assert(reqs.take(k) =~= init);
                assert(reqs[k] == reqs.last());
                assert(params_from(w.params, q.params.len() + requirements_cost(reqs.take(k)), ps.len()) =~= ps);
            }
        }
    }
}

/// After a status write at `id`, a status read there gives the written
/// status; the spec and the generation stay as they were.
pub proof fn law_status_read_after_write(s: Map<Ident, ObjectView>, id: Ident, status: crate::json::JsonTree, now: Timestamp)
    requires
        s.contains_key(id),
    ensures
        ({
            let o = stamped(s[id], ObjectView { status: Some(status), ..s[id] }, now);
            &&& s.insert(id, o).get(id) matches Some(x) && x.status == Some(status)
            &&& o.spec == s[id].spec
            &&& o.system.generation == s[id].system.generation
        }),
{
}

/// The description's paths are the Schema CRUD paths and the paths of the
/// listed registrations, nothing else: a path that neither gives is absent,
/// so the paths of a Schema that is no longer listed are gone.
pub proof fn law_description_only_registered_kinds(items: Seq<ObjectView>, p: Seq<char>)
    requires
        forall|j: int| 0 <= j < static_paths().len() ==> static_paths()[j].0 != p,
        forall|i: int, j: int| 0 <= i < items.len() && 0 <= j < registered_paths(items[i]).len()
            ==> (#[trigger] registered_paths(items[i])[j]).0 != p,
    ensures
        openapi_document(items).get("paths"@) matches Some(paths) && paths.get(p) is None,
{
    lemma_document_paths_absent(items, p);
    let doc = openapi_document(items);
    let fields = doc->Object_0;
    reveal_strlit("openapi");
    reveal_strlit("info");
    reveal_strlit("paths");
    assert(fields[0].0 == "openapi"@ && fields[1].0 == "info"@ && fields[2].0 == "paths"@);
    assert("openapi"@.len() == 7 && "info"@.len() == 4 && "paths"@.len() == 5);
    assert(fields[0].0 != "paths"@ && fields[1].0 != "paths"@);
    crate::json::lemma_first_index(fields, "paths"@);
}

/// A status read right after a successful status write of the same object,
/// with the schema cache the write left, gives back the written status.
pub proof fn law_status_round_trip(
    c: CacheView,
    s: Map<Ident, ObjectView>,
    key: KeyView,
    ns: Option<Seq<char>>,
    name: Seq<char>,
    status: JsonTree,
    w: Result<StoredObject, AppError>,
    s2: Map<Ident, ObjectView>,
    r: Result<Option<JsonValue>, AppError>,
)
    requires
        status_write_answer(c, s, key, ns, name, status, w, s2),
        w is Ok,
        status_read_answer(after_status_lookup(c, s, key), s2, key, ns, name, r),
    ensures
        r matches Ok(st) && opt_json(st) == Some(status),
{
    let id = Ident { key, namespace: ns, name };
    assert(s2.contains_key(id) && s2[id].status == Some(status));
    assert(status_lookup(after_status_lookup(c, s, key), s2, key) is Ok);
}

/// A freshly created object has no status: a status read of it, for a kind
/// whose status schema is found, gives none.
pub proof fn law_created_object_has_no_status(
    c: CacheView,
    s: Map<Ident, ObjectView>,
    key: KeyView,
    namespace: Option<Seq<char>>,
    meta: ObjectMeta,
    spec: JsonTree,
    w: Result<StoredObject, AppError>,
    s2: Map<Ident, ObjectView>,
    c2: CacheView,
    r: Result<Option<JsonValue>, AppError>,
)
    requires
        create_answer(c, s, key, namespace, meta, spec, w, s2),
        w is Ok,
        status_lookup(c2, s2, key) is Ok,
        status_read_answer(c2, s2, key, w->Ok_0@.metadata.namespace, w->Ok_0@.metadata.name, r),
    ensures
        r matches Ok(st) && st is None,
{
    let o = w->Ok_0@;
    assert(s2.contains_key(Ident { key, namespace: o.metadata.namespace, name: o.metadata.name }));
}

/// Once a Schema is removed from the store, a description built from what
/// is left no longer holds a path that only that Schema's registration
/// gave: no static path and no remaining Schema gives it.
pub proof fn law_removed_schema_paths_gone(s: Map<Ident, ObjectView>, id: Ident, page: ListResponse, p: Seq<char>)
    requires
        page_answers(s.remove(id), spec_schema_key(), None, all_schemas_request(), page),
        forall|j: int| 0 <= j < static_paths().len() ==> static_paths()[j].0 != p,
        forall|k: Ident, j: int| #[trigger] s.contains_key(k) && k != id && k.key == spec_schema_key()
            && 0 <= j < registered_paths(s[k]).len() ==> (#[trigger] registered_paths(s[k])[j]).0 != p,
    ensures
        openapi_document(object_views(page.items@)).get("paths"@) matches Some(paths) && paths.get(p) is None,
{
    let m = s.remove(id);
    let items = object_views(page.items@);
    assert forall|i: int, j: int| 0 <= i < items.len() && 0 <= j < registered_paths(items[i]).len()
        implies (#[trigger] registered_paths(items[i])[j]).0 != p by {
        assert(items[i] == page.items@[i]@);
        let k = identity(page.items@[i]@);
        assert(m.contains_key(k) && m[k] == page.items@[i]@);
        assert(eligible(page.items@[i]@, spec_schema_key(), None, all_schemas_request()));
        assert(s.contains_key(k) && k != id && s[k] == items[i]);
        assert(k.key == spec_schema_key());
    }
    law_description_only_registered_kinds(items, p);
}

/// Whether the parameter list `params` documents a query parameter `name`
/// whose schema has type `ty`.
pub open spec fn documents_query_param(params: JsonTree, name: Seq<char>, ty: Seq<char>) -> bool {
    &&& params is Array
    &&& exists|j: int| 0 <= j < params->Array_0.len()
        && #[trigger] params->Array_0[j].get("name"@) == Some(JsonTree::Str(name))
        && params->Array_0[j].get("in"@) == Some(JsonTree::Str("query"@))
        && (params->Array_0[j].get("schema"@) matches Some(sch) && sch.get("type"@) == Some(JsonTree::Str(ty)))
}

/// The parameters of the list (GET) operation of a path's description.
pub open spec fn list_operation_params(path_doc: JsonTree) -> Option<JsonTree> {
    match path_doc.get("get"@) {
        Some(op) => op.get("parameters"@),
        None => None,
    }
}

/// Whether a list operation's parameters document `watch` (boolean) and the
/// `fieldSelector` and `labelSelector` filters (strings) as query parameters.
pub open spec fn documents_list_filters(path_doc: JsonTree) -> bool {
    list_operation_params(path_doc) matches Some(ps)
        && documents_query_param(ps, "watch"@, "boolean"@)
        && documents_query_param(ps, "fieldSelector"@, "string"@)
        && documents_query_param(ps, "labelSelector"@, "string"@)
}

proof fn lemma_param_doc(p: JsonTree, name: Seq<char>, ty: Seq<char>)
    requires
        p is Object,
        p->Object_0.len() >= 4,
        p->Object_0[0] == ("name"@, JsonTree::Str(name)),
        p->Object_0[1] == ("in"@, JsonTree::Str("query"@)),
        p->Object_0[2].0 == "required"@,
        p->Object_0[3].0 == "schema"@,
        p->Object_0[3].1 is Object,
        p->Object_0[3].1->Object_0.len() >= 1,
        p->Object_0[3].1->Object_0[0] == ("type"@, JsonTree::Str(ty)),
    ensures
        p.get("name"@) == Some(JsonTree::Str(name)),
        p.get("in"@) == Some(JsonTree::Str("query"@)),
        p.get("schema"@) matches Some(sch) && sch.get("type"@) == Some(JsonTree::Str(ty)),
{
    reveal_strlit("name");
    reveal_strlit("in");
    reveal_strlit("required");
    reveal_strlit("schema");
    reveal_strlit("type");
    let f = p->Object_0;
    assert("name"@.len() == 4 && "in"@.len() == 2 && "required"@.len() == 8 && "schema"@.len() == 6);
    crate::json::lemma_first_index(f, "name"@);
    crate::json::lemma_first_index(f, "in"@);
    crate::json::lemma_first_index(f, "schema"@);
    let sch = f[3].1;
    crate::json::lemma_first_index(sch->Object_0, "type"@);
}

/// The list parameters every cross-namespace list operation carries
/// document `watch`, `fieldSelector` and `labelSelector`.
proof fn lemma_list_parameters_documented()
    ensures
        documents_query_param(list_parameters_doc(), "watch"@, "boolean"@),
        documents_query_param(list_parameters_doc(), "fieldSelector"@, "string"@),
        documents_query_param(list_parameters_doc(), "labelSelector"@, "string"@),
{
    let ps = list_parameters_doc()->Array_0;
    assert(ps.len() == 3);
    lemma_param_doc(ps[0], "watch"@, "boolean"@);
    lemma_param_doc(ps[1], "fieldSelector"@, "string"@);
    lemma_param_doc(ps[2], "labelSelector"@, "string"@);
}

proof fn lemma_list_operation(doc: JsonTree, params: JsonTree)
    requires
        doc is Object,
        doc->Object_0.len() >= 1,
        doc->Object_0[0].0 == "get"@,
        doc->Object_0[0].1 is Object,
        doc->Object_0[0].1->Object_0.len() >= 4,
        doc->Object_0[0].1->Object_0[0].0 == "summary"@,
        doc->Object_0[0].1->Object_0[1].0 == "description"@,
        doc->Object_0[0].1->Object_0[2].0 == "operationId"@,
        doc->Object_0[0].1->Object_0[3] == ("parameters"@, params),
    ensures
        list_operation_params(doc) == Some(params),
{
    reveal_strlit("get");
    reveal_strlit("summary");
    reveal_strlit("description");
    reveal_strlit("operationId");
    reveal_strlit("parameters");
    assert("summary"@.len() == 7 && "description"@.len() == 11 && "operationId"@.len() == 11 && "parameters"@.len() == 10);
    assert("description"@[0] != "parameters"@[0]);
    assert("operationId"@[0] != "parameters"@[0]);
    crate::json::lemma_first_index(doc->Object_0, "get"@);
    crate::json::lemma_first_index(doc->Object_0[0].1->Object_0, "parameters"@);
}

/// The list operations of every registered kind document the `watch`,
/// `fieldSelector` and `labelSelector` query parameters: the collection
/// path across namespaces, and for a namespaced kind also the one under
/// `/namespaces/{namespace}`.
pub proof fn law_kind_list_operations_document_filters(d: SchemaDataView, c: Seq<char>)
    ensures
        kind_paths(d, c)[0].0 == api_prefix(d, "/"@ + d.kind),
        documents_list_filters(kind_paths(d, c)[0].1),
        d.scope == "Namespaced"@ ==> kind_paths(d, c)[3].0 == api_prefix(d, "/namespaces/{namespace}/"@ + d.kind)
            && documents_list_filters(kind_paths(d, c)[3].1),
{
    lemma_list_parameters_documented();
    let doc = kind_collection_path_doc(d, c);
    assert(kind_paths(d, c)[0].1 == doc);
    lemma_list_operation(doc, list_parameters_doc());
    if d.scope == "Namespaced"@ {
        let ndoc = kind_namespaced_collection_path_doc(d, c);
        assert(kind_paths(d, c)[3].1 == ndoc);
        let params = ndoc->Object_0[0].1->Object_0[3].1;
        lemma_list_operation(ndoc, params);
        let ps = params->Array_0;
        assert(ps.len() == 4);
        lemma_param_doc(ps[1], "watch"@, "boolean"@);
        lemma_param_doc(ps[2], "fieldSelector"@, "string"@);
        lemma_param_doc(ps[3], "labelSelector"@, "string"@);
    }
}

/// Whether `a` comes before `b` by the first position where they differ:
/// they agree on the first `k` characters, and then `a` ends while `b` goes
/// on, or `a`'s next character has the smaller code point.
pub open spec fn differs_first_below(a: Seq<char>, b: Seq<char>, k: int) -> bool {
    &&& 0 <= k <= a.len()
    &&& k <= b.len()
    &&& a.take(k) == b.take(k)
    &&& ((k == a.len() && k < b.len()) || (k < a.len() && k < b.len() && (a[k] as u32) < (b[k] as u32)))
}

/// Names are listed in `String`'s order: lexicographic by code point, so a
/// name comes first exactly when, at the first position where the two
/// differ, it has the smaller character or has already ended. Length alone
/// decides nothing: `"aa"` comes before `"b"`.
pub proof fn law_name_order_is_lexicographic(a: Seq<char>, b: Seq<char>)
    ensures
        seq_lt(a, b) <==> exists|k: int| #[trigger] differs_first_below(a, b, k),
    decreases a.len(),
{
    if a.len() == 0 {
        if b.len() > 0 {
            assert(a.take(0) =~= b.take(0));
            assert(differs_first_below(a, b, 0));
        }
    } else if b.len() == 0 {
    } else if a[0] != b[0] {
        assert(a.take(0) =~= b.take(0));
        if (a[0] as u32) < (b[0] as u32) {
            assert(differs_first_below(a, b, 0));
        }
        if exists|k: int| #[trigger] differs_first_below(a, b, k) {
            let k = choose|k: int| #[trigger] differs_first_below(a, b, k);
            if k > 0 {
                assert(a.take(k)[0] == b.take(k)[0]);
            }
            vstd::utf8::char_u32_cast(a[0], a[0] as u32);
            vstd::utf8::char_u32_cast(b[0], b[0] as u32);
        }
    } else {
        let (a1, b1) = (a.drop_first(), b.drop_first());
        law_name_order_is_lexicographic(a1, b1);
        if seq_lt(a1, b1) {
            let k = choose|k: int| #[trigger] differs_first_below(a1, b1, k);
            assert(a.take(k + 1) =~= seq![a[0]] + a1.take(k));
            assert(b.take(k + 1) =~= seq![b[0]] + b1.take(k));
            assert(differs_first_below(a, b, k + 1));
        }
        if exists|k: int| #[trigger] differs_first_below(a, b, k) {
            let k = choose|k: int| #[trigger] differs_first_below(a, b, k);
            assert(k > 0);
            assert(a1.take(k - 1) =~= a.take(k).drop_first());
            assert(b1.take(k - 1) =~= b.take(k).drop_first());
            assert(differs_first_below(a1, b1, k - 1));
        }
    }
}

/// A listing within one namespace gives its objects in `String` order of
/// their names: of any two items, the earlier one's name comes first at the
/// first position where the names differ.
pub proof fn law_namespace_listing_in_name_order(
    m: Map<Ident, ObjectView>,
    key: KeyView,
    ns: Seq<char>,
    opts: ListOptions,
    page: ListResponse,
    i: int,
    j: int,
)
    requires
        page_answers(m, key, Some(ns), opts, page),
        0 <= i < j < page.items@.len(),
    ensures
        exists|k: int| #[trigger] differs_first_below(page.items@[i]@.metadata.name, page.items@[j]@.metadata.name, k),
{
    let a = page.items@[i]@;
    let b = page.items@[j]@;
    assert(pos_lt(a, b));
    assert(eligible(a, key, Some(ns), opts) && eligible(b, key, Some(ns), opts));
    assert(a.metadata.namespace == Some(ns) && b.metadata.namespace == Some(ns));
    crate::order::lemma_lt_irreflexive(ns);
    law_name_order_is_lexicographic(a.metadata.name, b.metadata.name);
}

/// While an object is being deleted, an update with the current resource
/// version that changes anything besides removing finalizers is refused
/// with `ObjectBeingDeleted`: a changed spec, name, labels or annotations,
/// unchanged finalizers, or a finalizer the object does not have.
pub proof fn law_update_during_deletion_refused(
    existing: ObjectView,
    rv: u64,
    meta: MetaView,
    spec: JsonTree,
    now: Timestamp,
    op: TransactionOp,
)
    requires
        update_decision(existing, rv, meta, spec, now, op),
        rv == existing.system.resource_version,
        existing.system.deletion_timestamp is Some,
        existing.spec != spec
            || existing.metadata.name != meta.name
            || existing.metadata.labels != meta.labels
            || existing.metadata.annotations != meta.annotations
            || existing.metadata.finalizers == meta.finalizers
            || exists|i: int| 0 <= i < meta.finalizers.len() && !existing.metadata.finalizers.contains(#[trigger] meta.finalizers[i]),
    ensures
        op matches TransactionOp::Abort(AppError::ObjectBeingDeleted { name }) && name@ == existing.metadata.name,
{
}

/// While an object is being deleted, an update with the current resource
/// version that only removes finalizers goes through: removing the last one
/// deletes the object, otherwise the object is stored with the remaining
/// finalizers (when its counters can still advance).
pub proof fn law_finalizer_removal_during_deletion_allowed(
    existing: ObjectView,
    rv: u64,
    meta: MetaView,
    spec: JsonTree,
    now: Timestamp,
    op: TransactionOp,
)
    requires
        update_decision(existing, rv, meta, spec, now, op),
        rv == existing.system.resource_version,
        existing.system.deletion_timestamp is Some,
        existing.spec == spec,
        existing.metadata.name == meta.name,
        existing.metadata.labels == meta.labels,
        existing.metadata.annotations == meta.annotations,
        existing.metadata.finalizers != meta.finalizers,
        forall|i: int| 0 <= i < meta.finalizers.len() ==> existing.metadata.finalizers.contains(#[trigger] meta.finalizers[i]),
    ensures
        meta.finalizers.len() == 0 ==> op is Delete,
        meta.finalizers.len() > 0 && counters_fit(existing) ==> (op matches TransactionOp::Apply(n)
            && n@.metadata.finalizers == meta.finalizers && n@.metadata.annotations == existing.metadata.annotations
            && n@.spec == existing.spec),
{
}

/// A successful update of an object that was being deleted changed nothing
/// but its finalizers: the request carried the object's own spec, labels and
/// annotations, and a finalizer list that differs from the object's and
/// holds only finalizers the object had.
pub proof fn law_update_of_deleting_object_only_drops_finalizers(
    c: CacheView,
    s: Map<Ident, ObjectView>,
    url_ns: Option<Seq<char>>,
    object: StoredObject,
    r: Result<StoredObject, AppError>,
    s2: Map<Ident, ObjectView>,
)
    requires
        placed(s),
        update_answer(c, s, url_ns, object, r, s2),
        r is Ok,
    ensures
        ({
            let id = identity(r->Ok_0@);
            let e = s[id];
            &&& s.contains_key(id)
            &&& e.system.deletion_timestamp is Some ==> {
                &&& object@.spec == e.spec
                &&& object@.metadata.labels == e.metadata.labels
                &&& object@.metadata.annotations == e.metadata.annotations
                &&& object@.metadata.finalizers != e.metadata.finalizers
                &&& forall|i: int| 0 <= i < object@.metadata.finalizers.len()
                    ==> e.metadata.finalizers.contains(#[trigger] object@.metadata.finalizers[i])
            }
        }),
{
    let ov = object@;
    let (v, scope) = validator_lookup(c, s, ov.key)->Ok_0;
    let ns = update_placement(scope, ov.metadata.namespace, url_ns)->Ok_0;
    let id0 = Ident { key: ov.key, namespace: ns, name: ov.metadata.name };
    let meta = MetaView { namespace: ns, ..ov.metadata };
    let (t, op) = choose|t: Timestamp, op: TransactionOp| #[trigger] update_decision(s[id0], ov.system.resource_version,
        meta, ov.spec, t, op) && match op {
        TransactionOp::Apply(n) => s2 == s.insert(id0, n@) && (r matches Ok(x) && x@ == n@),
        TransactionOp::Delete => s2 == s.remove(id0) && (r matches Ok(x) && x@ == s[id0]),
        TransactionOp::Abort(e) => s2 == s && r == Err::<StoredObject, AppError>(e),
    };
    assert(identity(r->Ok_0@) == id0);
    assert(spec_evaluate_update(s[id0], meta, ov.spec) is Allow);
}

} // verus!
