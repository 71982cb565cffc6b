use kapi::error::AppError;
use kapi::json::JsonValue;
use kapi::keys::ResourceKey;
use kapi::selector::{FieldSelector, LabelRequirement, LabelSelector};
use kapi::store::{InMemoryStore, TransactionOp};
use kapi::strmap::StringMap;
use kapi::token::{decode_continue_token, encode_continue_token};
use kapi::types::{ContinueToken, ListOptions, ObjectMeta, StoredObject, SystemMetadata, Timestamp};

fn num(n: i64) -> JsonValue {
    JsonValue::Number(n.to_string())
}

fn obj(fields: Vec<(&str, JsonValue)>) -> JsonValue {
    JsonValue::Object(fields.into_iter().map(|(k, v)| (k.to_string(), v)).collect())
}

fn t0() -> Timestamp {
    Timestamp { secs: 1_700_000_000, nanos: 0 }
}

fn meta(name: &str, namespace: Option<&str>) -> ObjectMeta {
    ObjectMeta {
        name: name.to_string(),
        namespace: namespace.map(|s| s.to_string()),
        labels: StringMap::new(),
        annotations: StringMap::new(),
        finalizers: Vec::new(),
    }
}

fn test_obj(key: ResourceKey, name: &str, spec: JsonValue) -> StoredObject {
    StoredObject { key, metadata: meta(name, None), system: SystemMetadata::initial(t0()), spec, status: None }
}

fn ns_obj(key: ResourceKey, ns: Option<&str>, name: &str) -> StoredObject {
    StoredObject { key, metadata: meta(name, ns), system: SystemMetadata::initial(t0()), spec: obj(vec![]), status: None }
}

fn test_key() -> ResourceKey {
    ResourceKey { group: "test.io".to_string(), version: "v1".to_string(), kind: "Widget".to_string() }
}

fn page(limit: Option<usize>, token: Option<ContinueToken>) -> ListOptions {
    ListOptions { limit, continue_token: token, field_selector: None, label_selector: None }
}

fn names(items: &[StoredObject]) -> Vec<String> {
    items.iter().map(|o| o.metadata.name.clone()).collect()
}

#[test]
fn create_get_round_trip() {
    let mut store = InMemoryStore::new();
    let key = test_key();
    let data = obj(vec![("color", JsonValue::String("blue".into())), ("size", num(10))]);
    let created = store.create(test_obj(key.clone(), "my-widget", data.clone())).unwrap();
    assert_eq!(created.metadata.name, "my-widget");
    assert_eq!(created.spec, data);
    assert_eq!(created.key, key);
    assert_eq!(created.system.resource_version, 1);
    let retrieved = store.get(&key, None, "my-widget").unwrap();
    assert_eq!(retrieved.metadata.name, created.metadata.name);
    assert_eq!(retrieved.spec, created.spec);
    assert_eq!(retrieved.system.resource_version, created.system.resource_version);
}

#[test]
fn create_duplicate_conflict() {
    let mut store = InMemoryStore::new();
    let key = test_key();
    store.create(test_obj(key.clone(), "my-widget", obj(vec![("x", num(1))]))).unwrap();
    let err = store.create(test_obj(key.clone(), "my-widget", obj(vec![("x", num(2))]))).unwrap_err();
    assert!(matches!(err, AppError::AlreadyExists { ref kind, ref name } if kind == "Widget" && name == "my-widget"));
}

#[test]
fn get_missing_not_found() {
    let store = InMemoryStore::new();
    let err = store.get(&test_key(), None, "nope").unwrap_err();
    assert!(matches!(err, AppError::NotFound { ref what, ref identifier } if what == "object" && identifier == "Widget/nope"));
}

#[test]
fn same_name_in_two_namespaces_are_distinct() {
    let mut store = InMemoryStore::new();
    let key = test_key();
    store.create(ns_obj(key.clone(), Some("a"), "w")).unwrap();
    store.create(ns_obj(key.clone(), Some("b"), "w")).unwrap();
    assert!(store.get(&key, Some("a"), "w").is_ok());
    assert!(store.get(&key, Some("b"), "w").is_ok());
    assert!(store.get(&key, None, "w").is_err());
}

#[test]
fn list_sorted_by_name() {
    let mut store = InMemoryStore::new();
    let key = test_key();
    for n in ["c", "a", "b"] {
        store.create(test_obj(key.clone(), n, obj(vec![]))).unwrap();
    }
    let res = store.list(&key, None, &page(None, None)).unwrap();
    assert_eq!(names(&res.items), vec!["a", "b", "c"]);
    assert!(res.continue_token.is_none());
}

#[test]
fn list_across_namespaces_puts_cluster_scoped_first() {
    let mut store = InMemoryStore::new();
    let key = test_key();
    store.create(ns_obj(key.clone(), Some("b"), "x")).unwrap();
    store.create(ns_obj(key.clone(), Some("a"), "y")).unwrap();
    store.create(ns_obj(key.clone(), None, "z")).unwrap();
    store.create(ns_obj(key.clone(), Some("a"), "a")).unwrap();
    let res = store.list(&key, None, &page(None, None)).unwrap();
    let got: Vec<(Option<String>, String)> =
        res.items.iter().map(|o| (o.metadata.namespace.clone(), o.metadata.name.clone())).collect();
    assert_eq!(
        got,
        vec![
            (None, "z".to_string()),
            (Some("a".to_string()), "a".to_string()),
            (Some("a".to_string()), "y".to_string()),
            (Some("b".to_string()), "x".to_string()),
        ]
    );
    let in_a = store.list(&key, Some("a"), &page(None, None)).unwrap();
    assert_eq!(names(&in_a.items), vec!["a", "y"]);
}

#[test]
fn list_with_limit_and_continue_token() {
    let mut store = InMemoryStore::new();
    let key = test_key();
    for i in 0..5 {
        store.create(test_obj(key.clone(), &format!("item-{i}"), obj(vec![]))).unwrap();
    }
    let res = store.list(&key, None, &page(Some(2), None)).unwrap();
    assert_eq!(res.items.len(), 2);
    assert_eq!(res.items[0].metadata.name, "item-0");
    assert_eq!(res.items[1].metadata.name, "item-1");
    assert!(res.continue_token.is_some());
}

#[test]
fn list_continue_token_resumes() {
    let mut store = InMemoryStore::new();
    let key = test_key();
    for i in 0..5 {
        store.create(test_obj(key.clone(), &format!("item-{i}"), obj(vec![]))).unwrap();
    }
    let first = store.list(&key, None, &page(Some(2), None)).unwrap();
    let second = store.list(&key, None, &page(Some(2), first.continue_token.clone())).unwrap();
    assert_eq!(names(&second.items), vec!["item-2", "item-3"]);
    let third = store.list(&key, None, &page(Some(2), second.continue_token.clone())).unwrap();
    assert_eq!(names(&third.items), vec!["item-4"]);
    assert!(third.continue_token.is_none());
}

#[test]
fn list_exact_limit_has_no_token() {
    let mut store = InMemoryStore::new();
    let key = test_key();
    for i in 0..3 {
        store.create(test_obj(key.clone(), &format!("item-{i}"), obj(vec![]))).unwrap();
    }
    let res = store.list(&key, None, &page(Some(3), None)).unwrap();
    assert_eq!(res.items.len(), 3);
    assert!(res.continue_token.is_none());
    let zero = store.list(&key, None, &page(Some(0), None)).unwrap();
    assert!(zero.items.is_empty());
    assert!(zero.continue_token.is_none());
}

#[test]
fn list_rejects_a_malformed_token() {
    let store = InMemoryStore::new();
    let err = store.list(&test_key(), None, &page(None, Some(ContinueToken("not a token".into())))).unwrap_err();
    assert!(matches!(err, AppError::Internal(_)));
}

#[test]
fn continue_token_round_trip() {
    let t = encode_continue_token(Some("team-a"), "widget-1");
    // base64 of {"name":"widget-1","namespace":"team-a"}
    assert_eq!(t.0, "eyJuYW1lIjoid2lkZ2V0LTEiLCJuYW1lc3BhY2UiOiJ0ZWFtLWEifQ==");
    let (ns, name) = decode_continue_token(&t).unwrap();
    assert_eq!(ns.as_deref(), Some("team-a"));
    assert_eq!(name, "widget-1");
    let c = encode_continue_token(None, "n");
    // base64 of {"name":"n","namespace":null}
    assert_eq!(c.0, "eyJuYW1lIjoibiIsIm5hbWVzcGFjZSI6bnVsbH0=");
    let (ns2, name2) = decode_continue_token(&c).unwrap();
    assert!(ns2.is_none());
    assert_eq!(name2, "n");
    assert!(decode_continue_token(&ContinueToken("@@@.bg==".into())).is_err());
    // base64 of the bare name "n" resumes after that name
    assert_eq!(decode_continue_token(&ContinueToken("bg==".into())).unwrap(), (None, "n".to_string()));
    // base64 of the byte 0xFF, neither JSON nor UTF-8
    match decode_continue_token(&ContinueToken("/w==".into())) {
        Err(AppError::Internal(m)) => assert_eq!(m, "invalid continue token"),
        other => panic!("expected an invalid-token error, got {other:?}"),
    }
}

#[test]
fn list_resumes_after_a_bare_name_token() {
    let mut store = InMemoryStore::new();
    let key = test_key();
    for i in 0..5 {
        store.create(test_obj(key.clone(), &format!("item-{i}"), obj(vec![]))).unwrap();
    }
    // base64 of "item-1"
    let token = ContinueToken("aXRlbS0x".to_string());
    let res = store.list(&key, None, &page(Some(2), Some(token))).unwrap();
    assert_eq!(names(&res.items), vec!["item-2", "item-3"]);
    assert!(res.continue_token.is_some());
    let token = ContinueToken("aXRlbS0x".to_string());
    let rest = store.list(&key, None, &page(None, Some(token))).unwrap();
    assert_eq!(names(&rest.items), vec!["item-2", "item-3", "item-4"]);
    assert!(rest.continue_token.is_none());
}

#[test]
fn transaction_apply_persists_as_is() {
    let mut store = InMemoryStore::new();
    let key = test_key();
    store.create(test_obj(key.clone(), "w", obj(vec![("x", num(1))]))).unwrap();
    let result = store
        .transaction(&key, None, "w", |existing: &StoredObject| {
            let mut next = existing.clone();
            next.spec = obj(vec![("x", num(2))]);
            next.system.resource_version = 42;
            TransactionOp::Apply(next)
        })
        .unwrap();
    assert_eq!(result.system.resource_version, 42);
    let stored = store.get(&key, None, "w").unwrap();
    assert_eq!(stored.spec, obj(vec![("x", num(2))]));
    assert_eq!(stored.system.resource_version, 42);
}

#[test]
fn transaction_not_found() {
    let mut store = InMemoryStore::new();
    let err = store.transaction(&test_key(), None, "missing", |_e: &StoredObject| TransactionOp::Delete).unwrap_err();
    assert!(matches!(err, AppError::NotFound { .. }));
}

#[test]
fn transaction_abort_does_not_modify() {
    let mut store = InMemoryStore::new();
    let key = test_key();
    store.create(test_obj(key.clone(), "w", obj(vec![("x", num(1))]))).unwrap();
    let err = store
        .transaction(&key, None, "w", |_e: &StoredObject| TransactionOp::Abort(AppError::Conflict { expected: 1, actual: 2 }))
        .unwrap_err();
    assert!(matches!(err, AppError::Conflict { expected: 1, actual: 2 }));
    assert_eq!(store.get(&key, None, "w").unwrap().spec, obj(vec![("x", num(1))]));
}

#[test]
fn transaction_delete_removes_object() {
    let mut store = InMemoryStore::new();
    let key = test_key();
    store.create(test_obj(key.clone(), "w", obj(vec![]))).unwrap();
    let deleted = store.transaction(&key, None, "w", |_e: &StoredObject| TransactionOp::Delete).unwrap();
    assert_eq!(deleted.metadata.name, "w");
    assert!(matches!(store.get(&key, None, "w"), Err(AppError::NotFound { .. })));
}

#[test]
fn list_empty_key() {
    let mut store = InMemoryStore::new();
    store.create(test_obj(test_key(), "w", obj(vec![]))).unwrap();
    let other = ResourceKey { group: "other.io".into(), version: "v1".into(), kind: "Gadget".into() };
    let res = store.list(&other, None, &page(None, None)).unwrap();
    assert!(res.items.is_empty());
}

fn labelled(key: ResourceKey, name: &str, pairs: &[(&str, &str)]) -> StoredObject {
    let mut o = test_obj(key, name, obj(vec![]));
    for (k, v) in pairs {
        o.metadata.labels.insert(k.to_string(), v.to_string());
    }
    o
}

#[test]
fn list_with_field_selector() {
    let mut store = InMemoryStore::new();
    let key = test_key();
    store.create(test_obj(key.clone(), "a", obj(vec![]))).unwrap();
    store.create(test_obj(key.clone(), "b", obj(vec![]))).unwrap();
    let opts = ListOptions {
        limit: None,
        continue_token: None,
        field_selector: Some(FieldSelector::NameEquals("b".into())),
        label_selector: None,
    };
    let res = store.list(&key, None, &opts).unwrap();
    assert_eq!(names(&res.items), vec!["b"]);
}

#[test]
fn list_with_label_selector() {
    let mut store = InMemoryStore::new();
    let key = test_key();
    store.create(labelled(key.clone(), "a", &[("app", "nginx")])).unwrap();
    store.create(labelled(key.clone(), "b", &[("app", "apache")])).unwrap();
    store.create(labelled(key.clone(), "c", &[("app", "nginx"), ("env", "prod")])).unwrap();
    let opts = ListOptions {
        limit: None,
        continue_token: None,
        field_selector: None,
        label_selector: Some(LabelSelector {
            requirements: vec![LabelRequirement::Equals { key: "app".into(), value: "nginx".into() }],
        }),
    };
    let res = store.list(&key, None, &opts).unwrap();
    assert_eq!(names(&res.items), vec!["a", "c"]);
}

#[test]
fn list_filter_before_pagination() {
    let mut store = InMemoryStore::new();
    let key = test_key();
    for i in 0..6 {
        let app = if i % 2 == 0 { "keep" } else { "drop" };
        store.create(labelled(key.clone(), &format!("item-{i}"), &[("app", app)])).unwrap();
    }
    let opts = ListOptions {
        limit: Some(2),
        continue_token: None,
        field_selector: None,
        label_selector: Some(LabelSelector {
            requirements: vec![LabelRequirement::Equals { key: "app".into(), value: "keep".into() }],
        }),
    };
    let res = store.list(&key, None, &opts).unwrap();
    assert_eq!(names(&res.items), vec!["item-0", "item-2"]);
    assert!(res.continue_token.is_some());
    let next = ListOptions { continue_token: res.continue_token.clone(), ..opts.clone() };
    let res2 = store.list(&key, None, &next).unwrap();
    assert_eq!(names(&res2.items), vec!["item-4"]);
    assert!(res2.continue_token.is_none());
}

#[test]
fn has_kind_reports_presence() {
    let mut store = InMemoryStore::new();
    let key = test_key();
    assert!(!store.has_kind(&key));
    store.create(test_obj(key.clone(), "w", obj(vec![]))).unwrap();
    assert!(store.has_kind(&key));
    let other = ResourceKey { group: "test.io".into(), version: "v2".into(), kind: "Widget".into() };
    assert!(!store.has_kind(&other));
}
