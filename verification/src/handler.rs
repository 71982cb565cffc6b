//! Request handling that does not touch the network: reading request
//! bodies into metadata and data, reading list queries into list options or
//! watch filters, and the consistency checks of an update request.

use vstd::prelude::*;
use crate::error::AppError;
use crate::json::{JsonTree, JsonValue};
use crate::keys::{schema_cache_key, spec_schema_cache_key};
use crate::strmap::StringMap;
use crate::text::str_equal;
use crate::selector::{FieldSelector, LabelSelector, WatchFilter, filter_holds, selector_holds, parse_field_selector, parse_label_selector};
use crate::types::{ContinueToken, ListOptions, MetaView, ObjectMeta, StoredObject, opt_str, str_seq};

verus! {

broadcast use vstd::std_specs::vec::group_vec_axioms;

/// Path parameters of `/apis/{group}/{version}/{kind}`.
#[derive(Debug, Clone)]
pub struct ObjectPath {
    pub group: String,
    pub version: String,
    pub kind: String,
}

/// Path parameters of `/apis/{group}/{version}/{kind}/{name}`.
#[derive(Debug, Clone)]
pub struct ObjectNamePath {
    pub group: String,
    pub version: String,
    pub kind: String,
    pub name: String,
}

/// Query parameters of the list and watch endpoint.
#[derive(Debug, Clone)]
pub struct ListQuery {
    pub watch: Option<bool>,
    pub limit: Option<usize>,
    /// The `continue` parameter.
    pub continue_token: Option<String>,
    /// The `fieldSelector` parameter.
    pub field_selector: Option<String>,
    /// The `labelSelector` parameter.
    pub label_selector: Option<String>,
}

/// `body.metadata.<field>`, when both exist.
pub open spec fn metadata_member(body: JsonTree, field: Seq<char>) -> Option<JsonTree> {
    match body.get("metadata"@) {
        Some(m) => m.get(field),
        None => None,
    }
}

/// The key of the first member, in order, whose value is not a string.
pub open spec fn first_non_string(fields: Seq<(Seq<char>, JsonTree)>) -> Option<Seq<char>>
    decreases fields.len(),
{
    if fields.len() == 0 {
        None
    } else {
        match first_non_string(fields.drop_last()) {
            Some(k) => Some(k),
            None => if fields.last().1 is Str { None } else { Some(fields.last().0) },
        }
    }
}

/// The string members as a map; a later member overrides an earlier one.
pub open spec fn string_map_of(fields: Seq<(Seq<char>, JsonTree)>) -> Map<Seq<char>, Seq<char>>
    decreases fields.len(),
{
    if fields.len() == 0 {
        Map::empty()
    } else {
        match fields.last().1 {
            JsonTree::Str(v) => string_map_of(fields.drop_last()).insert(fields.last().0, v),
            _ => string_map_of(fields.drop_last()),
        }
    }
}

proof fn lemma_first_non_string_prefix(s: Seq<(Seq<char>, JsonTree)>, n: int)
    requires
        0 <= n <= s.len(),
        first_non_string(s.take(n)) is Some,
    ensures
        first_non_string(s) == first_non_string(s.take(n)),
    decreases s.len() - n,
{
    if n == s.len() {
        assert(s.take(n) =~= s);
    } else {
        assert(s.drop_last().take(n) =~= s.take(n));
        lemma_first_non_string_prefix(s.drop_last(), n);
    }
}

/// Reads the members of a JSON object whose values must be strings; the
/// error is the key of the first other member.
fn read_string_members(fields: &Vec<(String, JsonValue)>, Ghost(tree): Ghost<Seq<(Seq<char>, JsonTree)>>) -> (r: Result<StringMap, String>)
    requires
        tree.len() == fields@.len(),
        forall|j: int| 0 <= j < fields@.len() ==> tree[j] == (#[trigger] fields@[j].0@, fields@[j].1@),
    ensures
        match first_non_string(tree) {
            Some(k) => r matches Err(x) && x@ == k,
            None => r matches Ok(m) && m@ == string_map_of(tree),
        },
{
    let mut map = StringMap::new();
    let mut i: usize = 0;
    while i < fields.len()
        invariant
            0 <= i <= fields.len(),
            tree.len() == fields@.len(),
            forall|j: int| 0 <= j < fields@.len() ==> tree[j] == (#[trigger] fields@[j].0@, fields@[j].1@),
            first_non_string(tree.take(i as int)) is None,
            map@ == string_map_of(tree.take(i as int)),
        decreases fields.len() - i,
    {
        proof {
            assert(tree.take(i + 1).drop_last() =~= tree.take(i as int));
            assert(tree.take(i + 1).last() == tree[i as int]);
        }
        match fields[i].1.as_str() {
            Some(v) => {
                map.insert(fields[i].0.clone(), v.clone());
            },
            None => {
                proof {
                    assert(tree[i as int] == (fields@[i as int].0@, fields@[i as int].1@));
                    assert(!(tree[i as int].1 is Str));
                    assert(first_non_string(tree.take(i + 1)) == Some(tree[i as int].0));
                    lemma_first_non_string_prefix(tree, i + 1);
                }
                return Err(fields[i].0.clone());
            },
        }
        i = i + 1;
    }
    assert(tree.take(fields.len() as int) =~= tree);
    Ok(map)
}

/// What reading a string map from `body.metadata.<field>` gives: empty when
/// absent; the object's members when they are all strings; otherwise an
/// error naming the first bad member (`None` when not an object).
pub open spec fn string_map_member(body: JsonTree, field: Seq<char>) -> Result<Map<Seq<char>, Seq<char>>, Option<Seq<char>>> {
    match metadata_member(body, field) {
        None => Ok(Map::empty()),
        Some(JsonTree::Object(fields)) => match first_non_string(fields) {
            Some(k) => Err(Some(k)),
            None => Ok(string_map_of(fields)),
        },
        Some(_) => Err(None),
    }
}

fn read_string_map(body: &JsonValue, field: &str) -> (r: Result<StringMap, Option<String>>)
    ensures
        match string_map_member(body@, field@) {
            Ok(m) => r matches Ok(x) && x@ == m,
            Err(None) => r matches Err(None),
            Err(Some(k)) => r matches Err(Some(x)) && x@ == k,
        },
{
    let value = match body.get("metadata") {
        Some(m) => match m.get(field) {
            Some(v) => v,
            None => return Ok(StringMap::new()),
        },
        None => return Ok(StringMap::new()),
    };
    match value {
        JsonValue::Object(fields) => {
            let ghost tree = value@->Object_0;
            proof {
                assert forall|j: int| 0 <= j < fields@.len() implies tree[j] == (#[trigger] fields@[j].0@, fields@[j].1@) by {}
            }
            match read_string_members(fields, Ghost(tree)) {
                Ok(m) => Ok(m),
                Err(k) => Err(Some(k)),
            }
        },
        _ => Err(None),
    }
}

/// Reads `metadata.labels` from a request body: empty when absent; an
/// `InvalidLabel` error when not an object of strings.
pub fn extract_labels(body: &JsonValue) -> (r: Result<StringMap, AppError>)
    ensures
        match string_map_member(body@, "labels"@) {
            Ok(m) => r matches Ok(x) && x@ == m,
            Err(None) => r matches Err(AppError::InvalidLabel(msg)) && msg@ == "metadata.labels must be an object"@,
            Err(Some(k)) => r matches Err(AppError::InvalidLabel(msg)) && msg@ == "label value for key '"@ + k + "' must be a string"@,
        },
{
    match read_string_map(body, "labels") {
        Ok(m) => Ok(m),
        Err(None) => Err(AppError::InvalidLabel(String::from_str("metadata.labels must be an object"))),
        Err(Some(k)) => {
            let mut msg = String::from_str("label value for key '");
            msg.append(k.as_str());
            msg.append("' must be a string");
            Err(AppError::InvalidLabel(msg))
        },
    }
}

/// Reads `metadata.annotations` from a request body: empty when absent; an
/// `InvalidAnnotation` error when not an object of strings. Sizes are
/// checked by the services.
pub fn extract_annotations(body: &JsonValue) -> (r: Result<StringMap, AppError>)
    ensures
        match string_map_member(body@, "annotations"@) {
            Ok(m) => r matches Ok(x) && x@ == m,
            Err(None) => r matches Err(AppError::InvalidAnnotation(msg)) && msg@ == "metadata.annotations must be an object"@,
            Err(Some(k)) => r matches Err(AppError::InvalidAnnotation(msg)) && msg@ == "annotation value for key '"@ + k + "' must be a string"@,
        },
{
    match read_string_map(body, "annotations") {
        Ok(m) => Ok(m),
        Err(None) => Err(AppError::InvalidAnnotation(String::from_str("metadata.annotations must be an object"))),
        Err(Some(k)) => {
            let mut msg = String::from_str("annotation value for key '");
            msg.append(k.as_str());
            msg.append("' must be a string");
            Err(AppError::InvalidAnnotation(msg))
        },
    }
}

/// What reading `metadata.finalizers` gives: empty when absent; the strings
/// of an array of strings; `None` otherwise.
pub open spec fn finalizers_member(body: JsonTree) -> Option<Seq<Seq<char>>> {
    match metadata_member(body, "finalizers"@) {
        None => Some(Seq::empty()),
        Some(JsonTree::Array(items)) => if forall|i: int| 0 <= i < items.len() ==> (#[trigger] items[i]) is Str {
            Some(items.map_values(|x: JsonTree| x->Str_0))
        } else {
            None
        },
        Some(_) => None,
    }
}

/// Reads `metadata.finalizers` from a request body: empty when absent; an
/// `InvalidFinalizer` error when not an array of strings.
pub fn extract_finalizers(body: &JsonValue) -> (r: Result<Vec<String>, AppError>)
    ensures
        match finalizers_member(body@) {
            Some(f) => r matches Ok(x) && str_seq(x@) == f,
            None => r matches Err(AppError::InvalidFinalizer(msg)) && (msg@ == "metadata.finalizers must be an array"@
                || msg@ == "finalizer must be a string"@),
        },
{
    let member: Option<&JsonValue> = match body.get("metadata") {
        Some(m) => m.get("finalizers"),
        None => None,
    };
    assert(member matches Some(v) ==> metadata_member(body@, "finalizers"@) == Some(v@));
    assert(member is None ==> metadata_member(body@, "finalizers"@) is None);
    let value = match member {
        Some(v) => v,
        None => {
            let r: Vec<String> = Vec::new();
            assert(str_seq(r@) =~= Seq::<Seq<char>>::empty());
            return Ok(r);
        },
    };
    match value {
        JsonValue::Array(items) => {
            let ghost tree = value@->Array_0;
            assert(metadata_member(body@, "finalizers"@) == Some(value@));
            let mut out: Vec<String> = Vec::new();
            let mut i: usize = 0;
            while i < items.len()
                invariant
                    0 <= i <= items.len(),
                    metadata_member(body@, "finalizers"@) == Some(value@),
                    *value == JsonValue::Array(*items),
                    tree == value@->Array_0,
                    tree.len() == items@.len(),
                    forall|j: int| 0 <= j < items@.len() ==> tree[j] == #[trigger] items@[j]@,
                    out@.len() == i,
                    forall|j: int| 0 <= j < i ==> (#[trigger] tree[j]) is Str,
                    forall|j: int| 0 <= j < i ==> (#[trigger] out@[j])@ == tree[j]->Str_0,
                decreases items.len() - i,
            {
                let ghost before = out@;
                match items[i].as_str() {
                    Some(s) => {
                        out.push(s.clone());
                        proof {
                            assert(tree[i as int] == items@[i as int]@);
                            assert(tree[i as int] is Str && tree[i as int]->Str_0 == s@);
                            assert forall|j: int| 0 <= j < i + 1 implies (#[trigger] out@[j])@ == tree[j]->Str_0 by {
                                if j < i {
                                    assert(out@[j] == before[j]);
                                }
                            }
                        }
                    },
                    None => {
                        assert(tree[i as int] == items@[i as int]@);
                        assert(!(tree[i as int] is Str));
                        assert(metadata_member(body@, "finalizers"@) == Some(value@));
                        return Err(AppError::InvalidFinalizer(String::from_str("finalizer must be a string")));
                    },
                }
                i = i + 1;
            }
            assert(str_seq(out@) =~= tree.map_values(|x: JsonTree| x->Str_0));
            assert(metadata_member(body@, "finalizers"@) == Some(value@));
            Ok(out)
        },
        _ => Err(AppError::InvalidFinalizer(String::from_str("metadata.finalizers must be an array"))),
    }
}

/// The schema name a Schema registration body asks for: `targetKind`,
/// `targetGroup` and `targetVersion`, all strings, joined with dots.
pub open spec fn schema_name_member(body: JsonTree) -> Option<Seq<char>> {
    match (body.get("targetKind"@), body.get("targetGroup"@), body.get("targetVersion"@)) {
        (Some(JsonTree::Str(k)), Some(JsonTree::Str(g)), Some(JsonTree::Str(v))) => Some(spec_schema_cache_key(k, g, v)),
        _ => None,
    }
}

/// Reads the schema name of a Schema registration body.
pub fn extract_schema_name(body: &JsonValue) -> (r: Option<String>)
    ensures
        match schema_name_member(body@) {
            Some(n) => r matches Some(x) && x@ == n,
            None => r is None,
        },
{
    let kind = match body.get("targetKind") {
        Some(v) => match v.as_str() {
            Some(s) => s,
            None => return None,
        },
        None => return None,
    };
    let group = match body.get("targetGroup") {
        Some(v) => match v.as_str() {
            Some(s) => s,
            None => return None,
        },
        None => return None,
    };
    let version = match body.get("targetVersion") {
        Some(v) => match v.as_str() {
            Some(s) => s,
            None => return None,
        },
        None => return None,
    };
    Some(schema_cache_key(kind.as_str(), group.as_str(), version.as_str()))
}

/// The keys that a plain object's body may not have: all but `metadata` and `spec`.
pub open spec fn unknown_keys(fields: Seq<(Seq<char>, JsonTree)>) -> Seq<Seq<char>>
    decreases fields.len(),
{
    if fields.len() == 0 {
        Seq::empty()
    } else {
        let k = fields.last().0;
        if k == "metadata"@ || k == "spec"@ {
            unknown_keys(fields.drop_last())
        } else {
            unknown_keys(fields.drop_last()).push(k)
        }
    }
}

/// Texts joined with `", "`.
pub open spec fn comma_joined(keys: Seq<Seq<char>>) -> Seq<char>
    decreases keys.len(),
{
    if keys.len() == 0 {
        Seq::empty()
    } else if keys.len() == 1 {
        keys[0]
    } else {
        comma_joined(keys.drop_last()) + ", "@ + keys.last()
    }
}

/// The members other than `metadata`.
pub open spec fn without_metadata(fields: Seq<(Seq<char>, JsonTree)>) -> Seq<(Seq<char>, JsonTree)>
    decreases fields.len(),
{
    if fields.len() == 0 {
        Seq::empty()
    } else if fields.last().0 == "metadata"@ {
        without_metadata(fields.drop_last())
    } else {
        without_metadata(fields.drop_last()).push(fields.last())
    }
}

/// What is wrong with the body of a create of a plain object, if anything:
/// unknown top-level members, a missing `metadata.name`, a missing, non-object
/// or empty `spec`, in that order.
pub open spec fn body_issue(body: JsonTree) -> Option<Seq<char>> {
    let unknown = match body {
        JsonTree::Object(fields) => unknown_keys(fields),
        _ => Seq::empty(),
    };
    if unknown.len() > 0 {
        Some("unknown field(s): "@ + comma_joined(unknown))
    } else {
        match metadata_member(body, "name"@) {
            Some(JsonTree::Str(_)) => match body.get("spec"@) {
                None => Some("'spec' field is required"@),
                Some(JsonTree::Object(fs)) => if fs.len() == 0 { Some("'spec' must not be empty"@) } else { None },
                Some(_) => Some("'spec' must be a JSON object"@),
            },
            _ => Some("'metadata.name' is required"@),
        }
    }
}

fn unknown_field_list(fields: &Vec<(String, JsonValue)>, Ghost(tree): Ghost<Seq<(Seq<char>, JsonTree)>>) -> (r: (usize, String))
    requires
        tree.len() == fields@.len(),
        forall|j: int| 0 <= j < fields@.len() ==> tree[j] == (#[trigger] fields@[j].0@, fields@[j].1@),
    ensures
        r.0 == unknown_keys(tree).len(),
        r.1@ == comma_joined(unknown_keys(tree)),
{
    let mut count: usize = 0;
    let mut text = String::new();
    let mut i: usize = 0;
    while i < fields.len()
        invariant
            0 <= i <= fields.len(),
            tree.len() == fields@.len(),
            forall|j: int| 0 <= j < fields@.len() ==> tree[j] == (#[trigger] fields@[j].0@, fields@[j].1@),
            count == unknown_keys(tree.take(i as int)).len(),
            unknown_keys(tree.take(i as int)).len() <= i,
            text@ == comma_joined(unknown_keys(tree.take(i as int))),
        decreases fields.len() - i,
    {
        proof {
            assert(tree.take(i + 1).drop_last() =~= tree.take(i as int));
            assert(tree.take(i + 1).last() == tree[i as int]);
            assert(tree[i as int] == (fields@[i as int].0@, fields@[i as int].1@));
        }
        let k = fields[i].0.as_str();
        if !str_equal(k, "metadata") && !str_equal(k, "spec") {
            let ghost prev = unknown_keys(tree.take(i as int));
            if count > 0 {
                text.append(", ");
            }
            text.append(k);
            count = count + 1;
            proof {
                let now_keys = unknown_keys(tree.take(i + 1));
                assert(now_keys == prev.push(k@));
                assert(now_keys.drop_last() =~= prev);
                if prev.len() == 0 {
                    assert(text@ =~= comma_joined(now_keys));
                } else {
                    assert(text@ =~= comma_joined(now_keys));
                }
            }
        }
        i = i + 1;
    }
    assert(tree.take(fields.len() as int) =~= tree);
    (count, text)
}

fn strip_metadata(fields: Vec<(String, JsonValue)>, Ghost(tree): Ghost<Seq<(Seq<char>, JsonTree)>>) -> (r: Vec<(String, JsonValue)>)
    requires
        tree.len() == fields@.len(),
        forall|j: int| 0 <= j < fields@.len() ==> tree[j] == (#[trigger] fields@[j].0@, fields@[j].1@),
    ensures
        r@.len() == without_metadata(tree).len(),
        forall|j: int| 0 <= j < r@.len() ==> without_metadata(tree)[j] == (#[trigger] r@[j].0@, r@[j].1@),
{
    let mut out: Vec<(String, JsonValue)> = Vec::new();
    let mut rest = fields;
    let mut i: usize = 0;
    while i < rest.len()
        invariant
            0 <= i <= rest.len(),
            tree.len() == rest@.len(),
            forall|j: int| 0 <= j < rest@.len() ==> tree[j] == (#[trigger] rest@[j].0@, rest@[j].1@),
            out@.len() == without_metadata(tree.take(i as int)).len(),
            forall|j: int| 0 <= j < out@.len() ==> without_metadata(tree.take(i as int))[j] == (#[trigger] out@[j].0@, out@[j].1@),
        decreases rest.len() - i,
    {
        proof {
            assert(tree.take(i + 1).drop_last() =~= tree.take(i as int));
            assert(tree.take(i + 1).last() == tree[i as int]);
            assert(tree[i as int] == (rest@[i as int].0@, rest@[i as int].1@));
        }
        if !str_equal(rest[i].0.as_str(), "metadata") {
            let ghost before = out@;
            let k = rest[i].0.clone();
            let v = rest[i].1.duplicate();
            out.push((k, v));
            proof {
                assert forall|j: int| 0 <= j < out@.len() implies without_metadata(tree.take(i + 1))[j] == (#[trigger] out@[j].0@, out@[j].1@) by {
                    if j < before.len() {
                        assert(out@[j] == before[j]);
                    }
                }
            }
        }
        i = i + 1;
    }
    assert(tree.take(rest.len() as int) =~= tree);
    out
}

/// The data of a Schema registration: the body without its `metadata`.
pub open spec fn registration_data(body: JsonTree) -> JsonTree {
    match body {
        JsonTree::Object(fields) => JsonTree::Object(without_metadata(fields)),
        _ => body,
    }
}

/// Reads the body of a create request into metadata and the data to store.
///
/// Labels, annotations and finalizers come from `metadata`. For a Schema the
/// name is built from `targetKind`, `targetGroup` and `targetVersion`, and
/// the data is the body without `metadata`. For other kinds the body may hold
/// only `metadata` and `spec`, the name is `metadata.name`, and the data is
/// `spec`, which must be a non-empty object.
pub fn create_request(kind: &str, body: JsonValue) -> (r: Result<(ObjectMeta, JsonValue), AppError>)
    ensures
        match string_map_member(body@, "labels"@) {
            Err(_) => r matches Err(e) && e is InvalidLabel,
            Ok(labels) => match string_map_member(body@, "annotations"@) {
                Err(_) => r matches Err(e) && e is InvalidAnnotation,
                Ok(annotations) => match finalizers_member(body@) {
                    None => r matches Err(e) && e is InvalidFinalizer,
                    Some(finalizers) => if kind@ == "Schema"@ {
                        match schema_name_member(body@) {
                            None => r matches Err(AppError::InvalidSchema(m))
                                && m@ == "Schema registration requires targetKind, targetGroup, and targetVersion fields"@,
                            Some(name) => r matches Ok((meta, data)) && data@ == registration_data(body@)
                                && meta@ == (MetaView { name, namespace: None, labels, annotations, finalizers }),
                        }
                    } else {
                        match body_issue(body@) {
                            Some(m) => r matches Err(AppError::InvalidRequestBody(x)) && x@ == m,
                            None => r matches Ok((meta, data)) && Some(data@) == body@.get("spec"@)
                                && meta@ == (MetaView { name: metadata_member(body@, "name"@)->0->Str_0, namespace: None, labels, annotations, finalizers }),
                        }
                    },
                },
            },
        },
{
    let labels = match extract_labels(&body) {
        Ok(l) => l,
        Err(e) => return Err(e),
    };
    let annotations = match extract_annotations(&body) {
        Ok(a) => a,
        Err(e) => return Err(e),
    };
    let finalizers = match extract_finalizers(&body) {
        Ok(f) => f,
        Err(e) => return Err(e),
    };
    if str_equal(kind, "Schema") {
        let name = match extract_schema_name(&body) {
            Some(n) => n,
            None => {
                return Err(AppError::InvalidSchema(String::from_str(
                    "Schema registration requires targetKind, targetGroup, and targetVersion fields",
                )));
            },
        };
        let ghost bv = body@;
        let data = match body {
            JsonValue::Object(fields) => {
                let ghost tree = bv->Object_0;
                let kept = strip_metadata(fields, Ghost(tree));
                let d = JsonValue::Object(kept);
                assert(d@->Object_0 =~= without_metadata(tree));
                d
            },
            other => other,
        };
        return Ok((ObjectMeta { name, namespace: None, labels, annotations, finalizers }, data));
    }
    match &body {
        JsonValue::Object(fields) => {
            let ghost tree = body@->Object_0;
            let (count, text) = unknown_field_list(fields, Ghost(tree));
            if count > 0 {
                let mut m = String::from_str("unknown field(s): ");
                m.append(text.as_str());
                return Err(AppError::InvalidRequestBody(m));
            }
        },
        _ => {},
    }
    let name = match body.get("metadata") {
        Some(m) => match m.get("name") {
            Some(n) => match n.as_str() {
                Some(s) => s.clone(),
                None => return Err(AppError::InvalidRequestBody(String::from_str("'metadata.name' is required"))),
            },
            None => return Err(AppError::InvalidRequestBody(String::from_str("'metadata.name' is required"))),
        },
        None => return Err(AppError::InvalidRequestBody(String::from_str("'metadata.name' is required"))),
    };
    let spec = match body.get("spec") {
        Some(s) => s,
        None => return Err(AppError::InvalidRequestBody(String::from_str("'spec' field is required"))),
    };
    match spec {
        JsonValue::Object(fs) => {
            if fs.len() == 0 {
                return Err(AppError::InvalidRequestBody(String::from_str("'spec' must not be empty")));
            }
        },
        _ => {
            return Err(AppError::InvalidRequestBody(String::from_str("'spec' must be a JSON object")));
        },
    }
    let data = spec.duplicate();
    Ok((ObjectMeta { name, namespace: None, labels, annotations, finalizers }, data))
}

/// The namespace a create request asks for: that of the URL on a
/// namespace-scoped path, which takes precedence; otherwise
/// `metadata.namespace` of the body when it is a string.
pub open spec fn requested_namespace(url: Option<Seq<char>>, body: JsonTree) -> Option<Seq<char>> {
    match url {
        Some(n) => Some(n),
        None => match metadata_member(body, "namespace"@) {
            Some(JsonTree::Str(s)) => Some(s),
            _ => None,
        },
    }
}

/// Reads the namespace a create request asks for: the URL's namespace when
/// there is one, else the body's `metadata.namespace` hint.
pub fn create_namespace(url: Option<String>, body: &JsonValue) -> (r: Option<String>)
    ensures
        opt_str(r) == requested_namespace(opt_str(url), body@),
{
    match url {
        Some(n) => Some(n),
        None => match body.get("metadata") {
            Some(m) => match m.get("namespace") {
                Some(v) => match v.as_str() {
                    Some(s) => Some(s.clone()),
                    None => None,
                },
                None => None,
            },
            None => None,
        },
    }
}

/// What a list query asks for: a watch with a filter, or one page.
pub enum ListRequest {
    Watch(WatchFilter),
    List(ListOptions),
}

/// Whether an object with `name` and `labels` passes the selectors of a query.
pub open spec fn query_admits(query: ListQuery, name: Seq<char>, labels: Map<Seq<char>, Seq<char>>) -> bool {
    &&& match query.field_selector {
        Some(raw) => parse_field_selector(raw@) matches Ok(n) && name == n,
        None => true,
    }
    &&& match query.label_selector {
        Some(raw) => parse_label_selector(raw@) matches Ok(reqs) && selector_holds(reqs, labels),
        None => true,
    }
}

/// Whether `f` passes exactly the objects the selectors of `query` admit.
pub open spec fn filter_of_query(f: WatchFilter, query: ListQuery) -> bool {
    forall|name: Seq<char>, labels: Map<Seq<char>, Seq<char>>| #[trigger] filter_holds(f, name, labels) == query_admits(query, name, labels)
}

/// Whether the selectors of a query parse.
pub open spec fn query_parses(query: ListQuery) -> bool {
    &&& query.field_selector matches Some(raw) ==> parse_field_selector(raw@) is Ok
    &&& query.label_selector matches Some(raw) ==> parse_label_selector(raw@) is Ok
}

/// Reads a list query: the field selector, then the label selector, are
/// parsed; `watch=true` asks for a watch whose filter is both selectors;
/// otherwise a page with the query's limit, continue token and selectors.
pub fn list_request(query: ListQuery) -> (r: Result<ListRequest, AppError>)
    ensures
        r is Ok <==> query_parses(query),
        r matches Err(e) ==> (match query.field_selector {
            Some(raw) => if parse_field_selector(raw@) is Err { e is InvalidFieldSelector } else { e is InvalidLabelSelector },
            None => e is InvalidLabelSelector,
        }),
        r matches Ok(ListRequest::Watch(f)) ==> query.watch == Some(true) && filter_of_query(f, query),
        r matches Ok(ListRequest::List(opts)) ==> query.watch != Some(true) && opts.limit == query.limit
            && (match (opts.continue_token, query.continue_token) {
                (Some(t), Some(q)) => t.0@ == q@,
                (None, None) => true,
                _ => false,
            })
            && (match (opts.field_selector, query.field_selector) {
                (Some(FieldSelector::NameEquals(n)), Some(raw)) => parse_field_selector(raw@) == Ok::<Seq<char>, crate::selector::FieldIssue>(n@),
                (None, None) => true,
                _ => false,
            })
            && (match (opts.label_selector, query.label_selector) {
                (Some(ls), Some(raw)) => parse_label_selector(raw@) == Ok::<Seq<crate::selector::Requirement>, crate::selector::SelectorIssue>(ls@),
                (None, None) => true,
                _ => false,
            }),
        r is Ok ==> (query.watch == Some(true) <==> r matches Ok(ListRequest::Watch(_))),
{
    let field = match &query.field_selector {
        Some(raw) => match FieldSelector::parse(raw.as_str()) {
            Ok(WatchFilter::FieldSelector(fs)) => Some(fs),
            Ok(_) => None,
            Err(e) => return Err(e),
        },
        None => None,
    };
    let label = match &query.label_selector {
        Some(raw) => match LabelSelector::parse(raw.as_str()) {
            Ok(WatchFilter::LabelSelector(ls)) => Some(ls),
            Ok(_) => None,
            Err(e) => return Err(e),
        },
        None => None,
    };
    let watch = match query.watch {
        Some(w) => w,
        None => false,
    };
    if watch {
        let filter = match (field, label) {
            (Some(f), Some(l)) => WatchFilter::And(Box::new(WatchFilter::FieldSelector(f)), Box::new(WatchFilter::LabelSelector(l))),
            (Some(f), None) => WatchFilter::FieldSelector(f),
            (None, Some(l)) => WatchFilter::LabelSelector(l),
            (None, None) => WatchFilter::All,
        };
        assert forall|name: Seq<char>, labels: Map<Seq<char>, Seq<char>>| #[trigger] filter_holds(filter, name, labels) == query_admits(query, name, labels) by {
            reveal_with_fuel(filter_holds, 2);
        }
        return Ok(ListRequest::Watch(filter));
    }
    let continue_token = match query.continue_token {
        Some(t) => Some(ContinueToken(t)),
        None => None,
    };
    Ok(ListRequest::List(ListOptions { limit: query.limit, continue_token, field_selector: field, label_selector: label }))
}

/// Checks that an update body names the kind and object of its URL.
pub fn check_update_target(path: &ObjectNamePath, body: &StoredObject) -> (r: Result<(), AppError>)
    ensures
        r is Ok <==> body.key.group@ == path.group@ && body.key.version@ == path.version@ && body.key.kind@ == path.kind@
            && body.metadata.name@ == path.name@,
        r matches Err(e) ==> e is Internal,
{
    if !str_equal(body.key.group.as_str(), path.group.as_str())
        || !str_equal(body.key.version.as_str(), path.version.as_str())
        || !str_equal(body.key.kind.as_str(), path.kind.as_str())
    {
        return Err(AppError::Internal(String::from_str("URL key does not match body key")));
    }
    if !str_equal(body.metadata.name.as_str(), path.name.as_str()) {
        let mut m = String::from_str("URL name '");
        m.append(path.name.as_str());
        m.append("' does not match body name '");
        m.append(body.metadata.name.as_str());
        m.append("'");
        return Err(AppError::Internal(m));
    }
    Ok(())
}

/// The status a status update body carries: its `status` member, or an
/// empty object when it has none.
pub fn status_of_body(body: &JsonValue) -> (r: JsonValue)
    ensures
        match body@.get("status"@) {
            Some(s) => r@ == s,
            None => r@ == JsonTree::Object(Seq::empty()),
        },
{
    match body.get("status") {
        Some(s) => s.duplicate(),
        None => {
            let r = JsonValue::Object(Vec::new());
            assert(r@->Object_0 =~= Seq::<(Seq<char>, JsonTree)>::empty());
            r
        },
    }
}

} // verus!
