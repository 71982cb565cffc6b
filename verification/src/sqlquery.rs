//! SQL for the database-backed object store: the WHERE clauses and bound
//! parameters of a list query, the query text itself, and the page made from
//! the rows it returns.
//!
//! Placeholders are numbered `?1`, `?2`, ... in the order their parameters
//! are bound, and every clause that binds a parameter takes the next numbers.

use vstd::prelude::*;
use crate::error::{AppError, decimal, push_decimal};
use crate::keys::ResourceKey;
use crate::selector::{FieldSelector, LabelRequirement, LabelSelector, Requirement};
use crate::store::{cursor_of, opt_ref_str};
use crate::token::{decode_continue_token, encode_continue_token, token_position, token_text};
use crate::strmap::StringMap;
use crate::text::str_equal;
use crate::types::{ListOptions, ListResponse, ObjectView, StoredObject, str_seq};

verus! {

broadcast use vstd::std_specs::vec::group_vec_axioms;

/// A value bound to a placeholder.
#[derive(Debug, Clone, PartialEq, Eq)]
pub enum SqlParam {
    Text(String),
    Int(i64),
}

/// Mathematical form of a [`SqlParam`].
pub enum ParamView {
    Text(Seq<char>),
    Int(i64),
}

impl View for SqlParam {
    type V = ParamView;

    open spec fn view(&self) -> ParamView {
        match self {
            SqlParam::Text(s) => ParamView::Text(s@),
            SqlParam::Int(i) => ParamView::Int(*i),
        }
    }
}

/// The views of a list of parameters.
pub open spec fn params_view(p: Seq<SqlParam>) -> Seq<ParamView> {
    p.map_values(|x: SqlParam| x@)
}

/// The placeholder numbered `i`: `?i`.
pub open spec fn ph(i: nat) -> Seq<char> {
    "?"@ + decimal(i)
}

/// `parts` joined by `sep`.
pub open spec fn joined(parts: Seq<Seq<char>>, sep: Seq<char>) -> Seq<char>
    decreases parts.len(),
{
    if parts.len() == 0 {
        Seq::empty()
    } else if parts.len() == 1 {
        parts[0]
    } else {
        joined(parts.drop_last(), sep) + sep + parts.last()
    }
}

/// The clauses, the parameters and the next placeholder number of a query
/// under construction.
pub struct QueryView {
    pub clauses: Seq<Seq<char>>,
    pub params: Seq<ParamView>,
    pub next: nat,
}

impl QueryView {
    /// One more clause that binds `params` to the next placeholders.
    pub open spec fn add(self, clause: Seq<char>, params: Seq<ParamView>) -> QueryView {
        QueryView { clauses: self.clauses.push(clause), params: self.params + params, next: self.next + params.len() }
    }
}

/// The subquery that finds a label row of the outer object `o` whose key is
/// placeholder `i`.
pub open spec fn label_row(i: nat) -> Seq<char> {
    "SELECT 1 FROM labels l WHERE l.resource_group = o.resource_group AND l.api_version = o.api_version AND l.resource_kind = o.resource_kind AND l.namespace = o.namespace AND l.name = o.name AND l.label_key = "@
        + ph(i)
}

/// The clause and parameters of one label requirement, from placeholder `i`
/// on: `key=value` needs a label row with that value; `key!=value` needs no
/// such key or a row with another value; `key` and `!key` need a row with the
/// key or none.
pub open spec fn requirement_clause(r: Requirement, i: nat) -> (Seq<char>, Seq<ParamView>) {
    match r {
        Requirement::Equals(k, v) => (
            "EXISTS ("@ + label_row(i) + " AND l.label_value = "@ + ph(i + 1) + ")"@,
            seq![ParamView::Text(k), ParamView::Text(v)],
        ),
        Requirement::NotEquals(k, v) => (
            "(NOT EXISTS ("@ + label_row(i) + ") OR EXISTS ("@ + label_row(i + 1) + " AND l.label_value != "@ + ph(i + 2) + "))"@,
            seq![ParamView::Text(k), ParamView::Text(k), ParamView::Text(v)],
        ),
        Requirement::Exists(k) => ("EXISTS ("@ + label_row(i) + ")"@, seq![ParamView::Text(k)]),
        Requirement::NotExists(k) => ("NOT EXISTS ("@ + label_row(i) + ")"@, seq![ParamView::Text(k)]),
    }
}

/// `q` with a clause for each requirement of `reqs`, in order.
pub open spec fn with_requirements(q: QueryView, reqs: Seq<Requirement>) -> QueryView
    decreases reqs.len(),
{
    if reqs.len() == 0 {
        q
    } else {
        let p = with_requirements(q, reqs.drop_last());
        let (c, ps) = requirement_clause(reqs.last(), p.next);
        p.add(c, ps)
    }
}

/// The start of every list query: the kind's group, version and kind.
pub open spec fn query_start(group: Seq<char>, version: Seq<char>, kind: Seq<char>) -> QueryView {
    QueryView {
        clauses: seq!["resource_group = ?1 AND api_version = ?2 AND resource_kind = ?3"@],
        params: seq![ParamView::Text(group), ParamView::Text(version), ParamView::Text(kind)],
        next: 4,
    }
}

/// The clause restricting a query to `namespace`, or to cluster-scoped rows.
pub open spec fn namespace_clause(q: QueryView, namespace: Option<Seq<char>>) -> QueryView {
    match namespace {
        Some(ns) => q.add("namespace = "@ + ph(q.next), seq![ParamView::Text(ns)]),
        None => q.add("namespace IS NULL"@, Seq::empty()),
    }
}

/// The clause resuming a namespaced list after the name `skip`.
pub open spec fn continue_clause(q: QueryView, skip: Seq<char>) -> QueryView {
    q.add("name > "@ + ph(q.next), seq![ParamView::Text(skip)])
}

/// The clause resuming a list across namespaces after `(skip_ns, skip_name)`;
/// cluster-scoped rows have the empty namespace.
pub open spec fn cross_namespace_continue_clause(q: QueryView, skip_ns: Option<Seq<char>>, skip_name: Seq<char>) -> QueryView {
    let ns = match skip_ns {
        Some(n) => n,
        None => Seq::empty(),
    };
    q.add(
        "(namespace > "@ + ph(q.next) + " OR (namespace = "@ + ph(q.next + 1) + " AND name > "@ + ph(q.next + 2) + "))"@,
        seq![ParamView::Text(ns), ParamView::Text(ns), ParamView::Text(skip_name)],
    )
}

/// The clause of a field selector.
pub open spec fn field_clause(q: QueryView, name: Seq<char>) -> QueryView {
    q.add("name = "@ + ph(q.next), seq![ParamView::Text(name)])
}

/// Builds the WHERE clauses and parameters of a list query.
pub struct ListQueryBuilder {
    where_clauses: Vec<String>,
    params: Vec<SqlParam>,
    param_idx: usize,
}

impl View for ListQueryBuilder {
    type V = QueryView;

    closed spec fn view(&self) -> QueryView {
        QueryView { clauses: str_seq(self.where_clauses@), params: params_view(self.params@), next: self.param_idx as nat }
    }
}

fn placeholder(i: usize) -> (r: String)
    ensures
        r@ == ph(i as nat),
{
    let mut s = String::from_str("?");
    push_decimal(&mut s, i as u64);
    s
}

fn text(s: &str) -> (p: SqlParam)
    ensures
        p@ == ParamView::Text(s@),
{
    SqlParam::Text(String::from_str(s))
}

impl ListQueryBuilder {
    fn add(&mut self, clause: String, params: Vec<SqlParam>)
        requires
            old(self)@.next + params@.len() <= usize::MAX,
        ensures
            final(self)@ == old(self)@.add(clause@, params_view(params@)),
    {
        let ghost before = self@;
        self.where_clauses.push(clause);
        let n = params.len();
        let mut params = params;
        let ghost added = params_view(params@);
        self.params.append(&mut params);
        self.param_idx = self.param_idx + n;
        assert(str_seq(self.where_clauses@) =~= before.clauses.push(clause@));
        assert(params_view(self.params@) =~= before.params + added);
    }

    /// Starts a query on the kind `key`: `resource_group = ?1 AND
    /// api_version = ?2 AND resource_kind = ?3`, the next placeholder `?4`.
    pub fn new(key: &ResourceKey) -> (b: ListQueryBuilder)
        ensures
            b@ == query_start(key@.group, key@.version, key@.kind),
    {
        let mut params: Vec<SqlParam> = Vec::new();
        params.push(SqlParam::Text(key.group.clone()));
        params.push(SqlParam::Text(key.version.clone()));
        params.push(SqlParam::Text(key.kind.clone()));
        let mut clauses: Vec<String> = Vec::new();
        clauses.push(String::from_str("resource_group = ?1 AND api_version = ?2 AND resource_kind = ?3"));
        let b = ListQueryBuilder { where_clauses: clauses, params, param_idx: 4 };
        assert(b@.clauses =~= query_start(key@.group, key@.version, key@.kind).clauses);
        assert(b@.params =~= query_start(key@.group, key@.version, key@.kind).params);
        b
    }

    /// Adds `namespace = ?N` for `Some`, or `namespace IS NULL` for `None`.
    pub fn add_namespace_filter(&mut self, namespace: Option<&str>)
        requires
            old(self)@.next + 1 <= usize::MAX,
        ensures
            final(self)@ == namespace_clause(old(self)@, opt_ref_str(namespace)),
    {
        match namespace {
            Some(ns) => {
                let mut c = String::from_str("namespace = ");
                c.append(placeholder(self.param_idx).as_str());
                let mut ps: Vec<SqlParam> = Vec::new();
                ps.push(text(ns));
                assert(params_view(ps@) =~= seq![ParamView::Text(ns@)]);
                self.add(c, ps);
            },
            None => {
                let ps: Vec<SqlParam> = Vec::new();
                assert(params_view(ps@) =~= Seq::<ParamView>::empty());
                self.add(String::from_str("namespace IS NULL"), ps);
            },
        }
    }

    /// Adds `name > ?N`, resuming a namespaced list after `skip`.
    pub fn add_continue_token(&mut self, skip: &str)
        requires
            old(self)@.next + 1 <= usize::MAX,
        ensures
            final(self)@ == continue_clause(old(self)@, skip@),
    {
        let mut c = String::from_str("name > ");
        c.append(placeholder(self.param_idx).as_str());
        let mut ps: Vec<SqlParam> = Vec::new();
        ps.push(text(skip));
        assert(params_view(ps@) =~= seq![ParamView::Text(skip@)]);
        self.add(c, ps);
    }

    /// Adds `(namespace > ?N OR (namespace = ?N+1 AND name > ?N+2))`,
    /// resuming a list across namespaces after `(skip_ns, skip_name)`.
    pub fn add_cross_namespace_continue_token(&mut self, skip_ns: Option<&str>, skip_name: &str)
        requires
            old(self)@.next + 3 <= usize::MAX,
        ensures
            final(self)@ == cross_namespace_continue_clause(old(self)@, opt_ref_str(skip_ns), skip_name@),
    {
        let i = self.param_idx;
        let mut c = String::from_str("(namespace > ");
        c.append(placeholder(i).as_str());
        c.append(" OR (namespace = ");
        c.append(placeholder(i + 1).as_str());
        c.append(" AND name > ");
        c.append(placeholder(i + 2).as_str());
        c.append("))");
        let ns: &str = match skip_ns {
            Some(n) => n,
            None => "",
        };
        proof {
            reveal_strlit("");
        }
        let mut ps: Vec<SqlParam> = Vec::new();
        ps.push(text(ns));
        ps.push(text(ns));
        ps.push(text(skip_name));
        let ghost nsv = match opt_ref_str(skip_ns) {
            Some(n) => n,
            None => Seq::<char>::empty(),
        };
        assert(ns@ =~= nsv);
        assert(params_view(ps@) =~= seq![ParamView::Text(nsv), ParamView::Text(nsv), ParamView::Text(skip_name@)]);
        self.add(c, ps);
    }

    /// Adds the clause of a field selector: `name = ?N`.
    pub fn add_field_selector(&mut self, selector: &FieldSelector)
        requires
            old(self)@.next + 1 <= usize::MAX,
        ensures
            final(self)@ == match selector {
                FieldSelector::NameEquals(n) => field_clause(old(self)@, n@),
            },
    {
        match selector {
            FieldSelector::NameEquals(name) => {
                let mut c = String::from_str("name = ");
                c.append(placeholder(self.param_idx).as_str());
                let mut ps: Vec<SqlParam> = Vec::new();
                ps.push(text(name.as_str()));
                assert(params_view(ps@) =~= seq![ParamView::Text(name@)]);
                self.add(c, ps);
            },
        }
    }

    fn add_requirement(&mut self, req: &LabelRequirement)
        requires
            old(self)@.next + 3 <= usize::MAX,
        ensures
            final(self)@ == old(self)@.add(requirement_clause(req@, old(self)@.next).0, requirement_clause(req@, old(self)@.next).1),
    {
        let i = self.param_idx;
        let row = label_row_text(i);
        match req {
            LabelRequirement::Equals { key, value } => {
                let mut c = String::from_str("EXISTS (");
                c.append(row.as_str());
                c.append(" AND l.label_value = ");
                c.append(placeholder(i + 1).as_str());
                c.append(")");
                let mut ps: Vec<SqlParam> = Vec::new();
                ps.push(text(key.as_str()));
                ps.push(text(value.as_str()));
                assert(params_view(ps@) =~= requirement_clause(req@, i as nat).1);
                assert(c@ =~= requirement_clause(req@, i as nat).0);
                self.add(c, ps);
            },
            LabelRequirement::NotEquals { key, value } => {
                let mut c = String::from_str("(NOT EXISTS (");
                c.append(row.as_str());
                c.append(") OR EXISTS (");
                c.append(label_row_text(i + 1).as_str());
                c.append(" AND l.label_value != ");
                c.append(placeholder(i + 2).as_str());
                c.append("))");
                let mut ps: Vec<SqlParam> = Vec::new();
                ps.push(text(key.as_str()));
                ps.push(text(key.as_str()));
                ps.push(text(value.as_str()));
                assert(params_view(ps@) =~= requirement_clause(req@, i as nat).1);
                assert(c@ =~= requirement_clause(req@, i as nat).0);
                self.add(c, ps);
            },
            LabelRequirement::Exists { key } => {
                let mut c = String::from_str("EXISTS (");
                c.append(row.as_str());
                c.append(")");
                let mut ps: Vec<SqlParam> = Vec::new();
                ps.push(text(key.as_str()));
                assert(params_view(ps@) =~= requirement_clause(req@, i as nat).1);
                assert(c@ =~= requirement_clause(req@, i as nat).0);
                self.add(c, ps);
            },
            LabelRequirement::NotExists { key } => {
                let mut c = String::from_str("NOT EXISTS (");
                c.append(row.as_str());
                c.append(")");
                let mut ps: Vec<SqlParam> = Vec::new();
                ps.push(text(key.as_str()));
                assert(params_view(ps@) =~= requirement_clause(req@, i as nat).1);
                assert(c@ =~= requirement_clause(req@, i as nat).0);
                self.add(c, ps);
            },
        }
    }

    /// Adds one EXISTS-style clause per requirement of the label selector,
    /// in order.
    pub fn add_label_selector(&mut self, selector: &LabelSelector)
        requires
            old(self)@.next + 3 * selector@.len() <= usize::MAX,
        ensures
            final(self)@ == with_requirements(old(self)@, selector@),
    {
        let ghost start = self@;
        let mut i: usize = 0;
        while i < selector.requirements.len()
            invariant
                0 <= i <= selector.requirements.len(),
                selector@.len() == selector.requirements.len(),
                start.next + 3 * selector@.len() <= usize::MAX,
                self@ == with_requirements(start, selector@.take(i as int)),
                self@.next <= start.next + 3 * i,
            decreases selector.requirements.len() - i,
        {
            proof {
                assert(selector@.take(i + 1).drop_last() =~= selector@.take(i as int));
                assert(selector@.take(i + 1).last() == selector.requirements@[i as int]@);
            }
            self.add_requirement(&selector.requirements[i]);
            i = i + 1;
        }
        proof {
            assert(selector@.take(selector@.len() as int) =~= selector@);
        }
    }

    /// The clauses joined by ` AND `, the parameters, and the next
    /// placeholder number (for the LIMIT parameter).
    pub fn build(self) -> (r: (String, Vec<SqlParam>, usize))
        ensures
            r.0@ == joined(self@.clauses, " AND "@),
            params_view(r.1@) == self@.params,
            r.2 as nat == self@.next,
    {
        let ListQueryBuilder { where_clauses, params, param_idx } = self;
        let joined_text = join_and(&where_clauses);
        (joined_text, params, param_idx)
    }
}

fn label_row_text(i: usize) -> (r: String)
    ensures
        r@ == label_row(i as nat),
{
    let mut s = String::from_str(
        "SELECT 1 FROM labels l WHERE l.resource_group = o.resource_group AND l.api_version = o.api_version AND l.resource_kind = o.resource_kind AND l.namespace = o.namespace AND l.name = o.name AND l.label_key = ",
    );
    s.append(placeholder(i).as_str());
    s
}

fn join_and(parts: &Vec<String>) -> (r: String)
    ensures
        r@ == joined(str_seq(parts@), " AND "@),
{
    let ghost ps = str_seq(parts@);
    let mut out = String::new();
    let mut i: usize = 0;
    while i < parts.len()
        invariant
            0 <= i <= parts.len(),
            ps == str_seq(parts@),
            out@ == joined(ps.take(i as int), " AND "@),
        decreases parts.len() - i,
    {
        proof {
            assert(ps.take(i + 1).drop_last() =~= ps.take(i as int));
            assert(ps.take(i + 1).last() == parts@[i as int]@);
        }
        if i > 0 {
            out.append(" AND ");
        } else {
            assert(out@ =~= Seq::<char>::empty());
        }
        out.append(parts[i].as_str());
        i = i + 1;
    }
    proof {
        assert(ps.take(parts.len() as int) =~= ps);
    }
    out
}

/// The full text of a list query with the given WHERE text: the object
/// columns of `objects o`, ordered by name within a namespace or by
/// namespace, then name, across namespaces, limited by placeholder
/// `limit_idx`.
pub open spec fn list_sql(where_sql: Seq<char>, namespaced: bool, limit_idx: nat) -> Seq<char> {
    "SELECT o.resource_group, o.api_version, o.resource_kind, o.name, o.namespace, o.spec, o.status, o.annotations, o.finalizers, o.resource_version, o.generation, o.created_at, o.updated_at, o.deletion_timestamp FROM objects o WHERE "@
        + where_sql + " "@
        + (if namespaced { "ORDER BY o.name ASC"@ } else { "ORDER BY o.namespace, o.name ASC"@ })
        + " LIMIT "@ + ph(limit_idx)
}

/// The steps a list request takes on a query of the kind `key`: the
/// namespace, the cursor of the continue token, the field selector, then the
/// label selector.
pub open spec fn list_query_view(key: crate::keys::KeyView, namespace: Option<Seq<char>>, opts: ListOptions) -> QueryView {
    let q0 = query_start(key.group, key.version, key.kind);
    let q1 = match namespace {
        Some(_) => namespace_clause(q0, namespace),
        None => q0,
    };
    let q2 = match cursor_of(opts) {
        None => q1,
        Some((skip_ns, skip_name)) => if namespace is Some {
            continue_clause(q1, skip_name)
        } else {
            cross_namespace_continue_clause(q1, skip_ns, skip_name)
        },
    };
    let q3 = match opts.field_selector {
        Some(FieldSelector::NameEquals(n)) => field_clause(q2, n@),
        None => q2,
    };
    match opts.label_selector {
        Some(ls) => with_requirements(q3, ls@),
        None => q3,
    }
}

/// How many rows a list request fetches: one past its limit (saturating), so
/// that a further page shows.
pub open spec fn fetch_limit(opts: ListOptions) -> int {
    match opts.limit {
        Some(l) => if l == usize::MAX { usize::MAX as int } else { l + 1 },
        None => usize::MAX as int,
    }
}

/// A list query: its text and its parameters, the row limit last.
pub struct ListQuery {
    pub sql: String,
    pub params: Vec<SqlParam>,
}

/// Builds the query of a list request on the kind `key` in `namespace`
/// (every namespace when `None`): the continue token is decoded and becomes
/// a cursor clause, the selectors become clauses, and the row limit, one
/// past the page limit, is the last parameter. A token that does not decode
/// is refused as the store refuses it.
pub fn build_list_query(key: &ResourceKey, namespace: Option<&str>, opts: &ListOptions) -> (r: Result<ListQuery, AppError>)
    requires
        opts.label_selector matches Some(ls) ==> 10 + 3 * ls@.len() <= usize::MAX,
    ensures
        match r {
            Ok(q) => {
                let v = list_query_view(key@, opt_ref_str(namespace), *opts);
                &&& !(opts.continue_token matches Some(t) && token_position(t.0@) is None)
                &&& q.sql@ == list_sql(joined(v.clauses, " AND "@), namespace is Some, v.next)
                &&& params_view(q.params@) == v.params.push(ParamView::Int(fetch_limit(*opts) as i64))
            },
            Err(e) => (opts.continue_token matches Some(t) && token_position(t.0@) is None) && e is Internal,
        },
{
    let cursor: Option<(Option<String>, String)> = match &opts.continue_token {
        Some(t) => match decode_continue_token(t) {
            Ok(c) => Some(c),
            Err(e) => return Err(e),
        },
        None => None,
    };
    assert(crate::store::cursor_view(cursor) == cursor_of(*opts));
    let mut b = ListQueryBuilder::new(key);
    if let Some(ns) = namespace {
        b.add_namespace_filter(Some(ns));
    }
    match &cursor {
        Some((skip_ns, skip_name)) => {
            if namespace.is_some() {
                b.add_continue_token(skip_name.as_str());
            } else {
                let sn: Option<&str> = match skip_ns {
                    Some(s) => Some(s.as_str()),
                    None => None,
                };
                b.add_cross_namespace_continue_token(sn, skip_name.as_str());
            }
        },
        None => {},
    }
    match &opts.field_selector {
        Some(fs) => b.add_field_selector(fs),
        None => {},
    }
    match &opts.label_selector {
        Some(ls) => b.add_label_selector(ls),
        None => {},
    }
    let ghost v = b@;
    let (where_sql, params, limit_idx) = b.build();
    let limit: usize = match opts.limit {
        Some(l) => l,
        None => usize::MAX,
    };
    let fetch: usize = limit.saturating_add(1);
    let mut params = params;
    params.push(SqlParam::Int(fetch as i64));
    let mut sql = String::from_str(
        "SELECT o.resource_group, o.api_version, o.resource_kind, o.name, o.namespace, o.spec, o.status, o.annotations, o.finalizers, o.resource_version, o.generation, o.created_at, o.updated_at, o.deletion_timestamp FROM objects o WHERE ",
    );
    sql.append(where_sql.as_str());
    sql.append(" ");
    if namespace.is_some() {
        sql.append("ORDER BY o.name ASC");
    } else {
        sql.append("ORDER BY o.namespace, o.name ASC");
    }
    sql.append(" LIMIT ");
    sql.append(placeholder(limit_idx).as_str());
    proof {
        assert(params_view(params@) =~= v.params.push(ParamView::Int(fetch_limit(*opts) as i64)));
    }
    Ok(ListQuery { sql, params })
}

/// The page made from the rows of a list query that fetched up to one past
/// `limit`: when more than `limit` rows came, the first `limit` and a
/// continue token after the last of them; otherwise all rows and no token.
pub open spec fn page_of_rows(rows: Seq<StoredObject>, limit: nat, page: ListResponse) -> bool {
    if rows.len() > limit {
        &&& page.items@ == rows.take(limit as int)
        &&& limit > 0 ==> (page.continue_token matches Some(t) && t.0@ == token_text(page.items@.last()@.metadata.namespace, page.items@.last()@.metadata.name))
        &&& limit == 0 ==> page.continue_token is None
    } else {
        &&& page.items@ == rows
        &&& page.continue_token is None
    }
}

/// Cuts the fetched rows to the page limit and sets the continue token when
/// more rows came than the limit.
pub fn page_from_rows(rows: Vec<StoredObject>, limit: usize) -> (page: ListResponse)
    ensures
        page_of_rows(rows@, limit as nat, page),
{
    let mut items = rows;
    if items.len() > limit {
        let ghost all = items@;
        items.truncate(limit);
        assert(items@ =~= all.take(limit as int));
        let continue_token = if items.len() > 0 {
            let last = &items[items.len() - 1];
            let ns: Option<&str> = match &last.metadata.namespace {
                Some(n) => Some(n.as_str()),
                None => None,
            };
            proof {
                assert(match ns { Some(n) => Some(n@), None => None } == last@.metadata.namespace);
            }
            Some(encode_continue_token(ns, last.metadata.name.as_str()))
        } else {
            None
        };
        ListResponse { items, continue_token }
    } else {
        ListResponse { items, continue_token: None }
    }
}

/// The key under which the labels of an object are gathered when labels of
/// several namespaces are read together: `"{namespace}\0{name}"`, the
/// namespace empty for cluster-scoped objects.
pub fn compound_label_key(namespace: Option<&str>, name: &str) -> (r: String)
    ensures
        r@ == (match namespace { Some(n) => n@, None => Seq::<char>::empty() }) + seq!['\0'] + name@,
{
    let mut r = match namespace {
        Some(n) => String::from_str(n),
        None => String::new(),
    };
    crate::text::push_char(&mut r, '\0');
    r.append(name);
    r
}

/// A row of the labels table: the namespace column (empty for cluster
/// scope), the object's name, and one label's key and value.
pub type LabelRow = (String, String, String, String);

/// The namespace column of a row for an object in `ns`.
pub open spec fn namespace_column(ns: Option<Seq<char>>) -> Seq<char> {
    match ns {
        Some(n) => n,
        None => Seq::empty(),
    }
}

/// Whether the label row belongs to the object at `(ns, name)`.
pub open spec fn row_of(row: LabelRow, ns: Option<Seq<char>>, name: Seq<char>) -> bool {
    row.0@ == namespace_column(ns) && row.1@ == name
}

/// The labels the rows give the object at `(ns, name)`: each of its rows,
/// in order, sets one label.
pub open spec fn labels_from_rows(rows: Seq<LabelRow>, ns: Option<Seq<char>>, name: Seq<char>) -> Map<Seq<char>, Seq<char>>
    decreases rows.len(),
{
    if rows.len() == 0 {
        Map::empty()
    } else {
        let m = labels_from_rows(rows.drop_last(), ns, name);
        if row_of(rows.last(), ns, name) {
            m.insert(rows.last().2@, rows.last().3@)
        } else {
            m
        }
    }
}

/// The object `o` as the label rows complete it: an object with rows takes
/// the labels they give, one without keeps its own.
pub open spec fn labelled(o: ObjectView, rows: Seq<LabelRow>) -> ObjectView {
    if exists|j: int| 0 <= j < rows.len() && #[trigger] row_of(rows[j], o.metadata.namespace, o.metadata.name) {
        ObjectView {
            metadata: crate::types::MetaView {
                labels: labels_from_rows(rows, o.metadata.namespace, o.metadata.name),
                ..o.metadata
            },
            ..o
        }
    } else {
        o
    }
}

fn is_row_of(row: &LabelRow, namespace: &Option<String>, name: &String) -> (b: bool)
    ensures
        b == row_of(*row, crate::types::opt_str(*namespace), name@),
{
    let ns_ok = match namespace {
        Some(n) => str_equal(row.0.as_str(), n.as_str()),
        None => row.0.as_str().is_empty(),
    };
    proof {
        if namespace is None && row.0@.len() == 0 {
            assert(row.0@ =~= Seq::<char>::empty());
        }
    }
    ns_ok && str_equal(row.1.as_str(), name.as_str())
}

/// Gives each object the labels its rows in the labels table hold, read
/// back together from the database; objects without rows keep theirs.
pub fn attach_labels(objects: Vec<StoredObject>, rows: &Vec<LabelRow>) -> (r: Vec<StoredObject>)
    ensures
        r@.len() == objects@.len(),
        forall|i: int| 0 <= i < r@.len() ==> #[trigger] r@[i]@ == labelled(objects@[i]@, rows@),
{
    let mut out: Vec<StoredObject> = Vec::new();
    let mut objects = objects;
    let ghost orig = objects@;
    let n = objects.len();
    let mut i: usize = 0;
    while i < n
        invariant
            0 <= i <= n,
            n == orig.len(),
            objects@ == orig,
            out@.len() == i,
            forall|a: int| 0 <= a < i ==> #[trigger] out@[a]@ == labelled(orig[a]@, rows@),
        decreases n - i,
    {
        let mut o = objects[i].duplicate();
        let mut labels = StringMap::new();
        let mut found = false;
        let mut j: usize = 0;
        while j < rows.len()
            invariant
                0 <= j <= rows.len(),
                o@ == orig[i as int]@,
                labels@ == labels_from_rows(rows@.take(j as int), o@.metadata.namespace, o@.metadata.name),
                found <==> exists|b: int| 0 <= b < j && #[trigger] row_of(rows@[b], o@.metadata.namespace, o@.metadata.name),
            decreases rows.len() - j,
        {
            proof {
                assert(rows@.take(j + 1).drop_last() =~= rows@.take(j as int));
                assert(rows@.take(j + 1).last() == rows@[j as int]);
            }
            if is_row_of(&rows[j], &o.metadata.namespace, &o.metadata.name) {
                labels.insert(rows[j].2.clone(), rows[j].3.clone());
                found = true;
            }
            j = j + 1;
        }
        proof {
            assert(rows@.take(rows@.len() as int) =~= rows@);
        }
        if found {
            o.metadata.labels = labels;
        }
        proof {
            assert(o@ == labelled(orig[i as int]@, rows@));
        }
        out.push(o);
        i = i + 1;
    }
    out
}

} // verus!
