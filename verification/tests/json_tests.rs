use kapi::error::{AppError, ValidationError};
use kapi::json::JsonValue;
use kapi::schema_data::SchemaData;

fn to_json(v: &serde_json::Value) -> JsonValue {
    match v {
        serde_json::Value::Null => JsonValue::Null,
        serde_json::Value::Bool(b) => JsonValue::Bool(*b),
        serde_json::Value::Number(n) => JsonValue::Number(n.to_string()),
        serde_json::Value::String(s) => JsonValue::String(s.clone()),
        serde_json::Value::Array(a) => JsonValue::Array(a.iter().map(to_json).collect()),
        serde_json::Value::Object(m) => JsonValue::Object(m.iter().map(|(k, v)| (k.clone(), to_json(v))).collect()),
    }
}

fn js(text: &str) -> JsonValue {
    to_json(&serde_json::from_str::<serde_json::Value>(text).unwrap())
}

fn same(v: &JsonValue, expected: &str) -> bool {
    let got: serde_json::Value = serde_json::from_str(&v.to_text()).unwrap();
    let want: serde_json::Value = serde_json::from_str(expected).unwrap();
    got == want
}

#[test]
fn json_text_is_compact_and_escaped() {
    let v = js(r#"{"a": [1, true, null], "b": "q\"\\\n\u0001"}"#);
    assert_eq!(v.to_text(), r#"{"a":[1,true,null],"b":"q\"\\\u000a\u0001"}"#);
    let back: serde_json::Value = serde_json::from_str(&v.to_text()).unwrap();
    assert_eq!(to_json(&back), v);
}

#[test]
fn same_as_compares_content() {
    assert!(js(r#"{"a": [1, 2]}"#).same_as(&js(r#"{"a": [1, 2]}"#)));
    assert!(!js(r#"{"a": [1, 2]}"#).same_as(&js(r#"{"a": [2, 1]}"#)));
    assert!(!js(r#"{"a": 1}"#).same_as(&js(r#"{"b": 1}"#)));
    assert!(!js("null").same_as(&js("false")));
}

#[test]
fn get_finds_first_member() {
    let v = JsonValue::Object(vec![("k".into(), js("1")), ("k".into(), js("2"))]);
    assert_eq!(v.get("k"), Some(&js("1")));
    assert!(v.get("z").is_none());
    assert!(js("[1]").get("k").is_none());
}

#[test]
fn schema_data_reads_payload() {
    let d = SchemaData::from_json(&js(r#"{"targetGroup": "g", "targetVersion": "v", "targetKind": "K", "specSchema": {"type": "object"}}"#)).unwrap();
    assert_eq!(d.target_group, "g");
    assert_eq!(d.target_version, "v");
    assert_eq!(d.target_kind, "K");
    assert_eq!(d.scope, "Namespaced");
    assert!(d.status_schema.is_none());
    let s = SchemaData::from_json(&js(r#"{"targetGroup": "g", "targetVersion": "v", "targetKind": "K", "specSchema": {}, "statusSchema": {"type": "object"}, "scope": "Cluster"}"#)).unwrap();
    assert_eq!(s.scope, "Cluster");
    assert_eq!(s.status_schema, Some(js(r#"{"type": "object"}"#)));
    let null_status = SchemaData::from_json(&js(r#"{"targetGroup": "g", "targetVersion": "v", "targetKind": "K", "specSchema": {}, "statusSchema": null}"#)).unwrap();
    assert!(null_status.status_schema.is_none());
}

#[test]
fn schema_data_reports_first_problem() {
    let e = SchemaData::from_json(&js(r#"{"targetVersion": "v", "targetKind": "K", "specSchema": {}}"#)).unwrap_err();
    assert_eq!(e, "missing field `targetGroup`");
    let e2 = SchemaData::from_json(&js(r#"{"targetGroup": 1, "targetVersion": "v", "targetKind": "K", "specSchema": {}}"#)).unwrap_err();
    assert_eq!(e2, "invalid type: expected a string for `targetGroup`");
    let e3 = SchemaData::from_json(&js(r#"{"targetGroup": "g", "targetVersion": "v", "targetKind": "K"}"#)).unwrap_err();
    assert_eq!(e3, "missing field `specSchema`");
    let e4 = SchemaData::from_json(&js("[]")).unwrap_err();
    assert_eq!(e4, "invalid type: expected an object");
}

#[test]
fn error_responses() {
    let e = AppError::NotFound { what: "object".into(), identifier: "Widget/w".into() };
    assert_eq!(e.status_code(), 404);
    assert_eq!(e.code(), "NotFound");
    assert_eq!(e.message(), "object 'Widget/w' not found");
    assert!(same(&e.response_body(), r#"{"error": "object 'Widget/w' not found", "code": "NotFound", "details": {"what": "object", "identifier": "Widget/w"}}"#));
    let c = AppError::Conflict { expected: 3, actual: 12 };
    assert_eq!(c.status_code(), 409);
    assert_eq!(c.message(), "conflict: expected version 3, actual version 12");
    assert!(same(&c.details(), r#"{"expected": 3, "actual": 12}"#));
    let v = AppError::SchemaValidation(vec![ValidationError { path: "color".into(), message: "bad".into() }]);
    assert_eq!(v.status_code(), 422);
    assert!(same(&v.details(), r#"{"errors": [{"path": "color", "message": "bad"}]}"#));
    let i = AppError::Internal("secret".into());
    assert_eq!(i.status_code(), 500);
    assert_eq!(i.message(), "internal error");
    assert_eq!(i.details(), JsonValue::Null);
    let p = AppError::ProtectedNamespace { name: "default".into() };
    assert_eq!(p.status_code(), 403);
    let n = AppError::NamespaceNotEmpty { namespace: "a".into(), object_count: 2 };
    assert_eq!(n.status_code(), 409);
    assert_eq!(n.message(), "namespace 'a' is not empty: 2 object(s) remain");
    let s = AppError::StoredSchemaCompilationFailed { schema_name: "W.g.v1".into(), reason: "r".into() };
    assert_eq!(s.message(), "stored schema 'W.g.v1' compilation failed: r");
    assert!(same(&s.details(), r#"{"schemaName": "W.g.v1", "reason": "r"}"#));
    let b = AppError::ObjectBeingDeleted { name: "w".into() };
    assert_eq!(b.message(), "object 'w' is being deleted; only finalizer modifications are allowed");
    assert_eq!(AppError::StatusSubresourceNotEnabled { kind: "K".into() }.status_code(), 404);
    assert_eq!(AppError::InvalidLabel("x".into()).message(), "invalid label: x");
}
