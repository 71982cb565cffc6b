use kapi::error::AppError;
use kapi::handler::{check_update_target, create_request, extract_annotations, extract_finalizers, extract_labels,
    extract_schema_name, list_request, status_of_body, ListQuery, ListRequest, ObjectNamePath};
use kapi::json::JsonValue;
use kapi::keys::ResourceKey;
use kapi::selector::{FieldSelector, WatchFilter};
use kapi::strmap::StringMap;
use kapi::types::{ObjectMeta, StoredObject, SystemMetadata, Timestamp};

fn to_json(v: &serde_json::Value) -> JsonValue {
    match v {
        serde_json::Value::Null => JsonValue::Null,
        serde_json::Value::Bool(b) => JsonValue::Bool(*b),
        serde_json::Value::Number(n) => JsonValue::Number(n.to_string()),
        serde_json::Value::String(s) => JsonValue::String(s.clone()),
        serde_json::Value::Array(a) => JsonValue::Array(a.iter().map(to_json).collect()),
        serde_json::Value::Object(m) => JsonValue::Object(m.iter().map(|(k, v)| (k.clone(), to_json(v))).collect()),
    }
}

fn js(text: &str) -> JsonValue {
    to_json(&serde_json::from_str::<serde_json::Value>(text).unwrap())
}

fn query() -> ListQuery {
    ListQuery { watch: None, limit: None, continue_token: None, field_selector: None, label_selector: None }
}

#[test]
fn extract_labels_reads_strings() {
    let labels = extract_labels(&js(r#"{"metadata": {"labels": {"app": "nginx", "env": "prod"}}}"#)).unwrap();
    assert_eq!(labels.len(), 2);
    assert_eq!(labels.get("app").map(|s| s.as_str()), Some("nginx"));
    assert!(extract_labels(&js(r#"{"metadata": {}}"#)).unwrap().is_empty());
    assert!(extract_labels(&js(r#"{}"#)).unwrap().is_empty());
}

#[test]
fn extract_labels_rejects_non_strings() {
    let err = extract_labels(&js(r#"{"metadata": {"labels": {"app": 1}}}"#)).unwrap_err();
    assert!(matches!(err, AppError::InvalidLabel(ref m) if m == "label value for key 'app' must be a string"));
    let err2 = extract_labels(&js(r#"{"metadata": {"labels": ["app"]}}"#)).unwrap_err();
    assert!(matches!(err2, AppError::InvalidLabel(ref m) if m == "metadata.labels must be an object"));
}

#[test]
fn extract_annotations_rejects_non_strings() {
    let ok = extract_annotations(&js(r#"{"metadata": {"annotations": {"note": "x"}}}"#)).unwrap();
    assert_eq!(ok.get("note").map(|s| s.as_str()), Some("x"));
    let err = extract_annotations(&js(r#"{"metadata": {"annotations": {"note": true}}}"#)).unwrap_err();
    assert!(matches!(err, AppError::InvalidAnnotation(ref m) if m == "annotation value for key 'note' must be a string"));
    let err2 = extract_annotations(&js(r#"{"metadata": {"annotations": "x"}}"#)).unwrap_err();
    assert!(matches!(err2, AppError::InvalidAnnotation(ref m) if m == "metadata.annotations must be an object"));
}

#[test]
fn extract_finalizers_reads_array_of_strings() {
    let f = extract_finalizers(&js(r#"{"metadata": {"finalizers": ["a/b", "c"]}}"#)).unwrap();
    assert_eq!(f, vec!["a/b".to_string(), "c".to_string()]);
    assert!(extract_finalizers(&js(r#"{}"#)).unwrap().is_empty());
    let e1 = extract_finalizers(&js(r#"{"metadata": {"finalizers": "a"}}"#)).unwrap_err();
    assert!(matches!(e1, AppError::InvalidFinalizer(ref m) if m == "metadata.finalizers must be an array"));
    let e2 = extract_finalizers(&js(r#"{"metadata": {"finalizers": ["a", 2]}}"#)).unwrap_err();
    assert!(matches!(e2, AppError::InvalidFinalizer(ref m) if m == "finalizer must be a string"));
}

#[test]
fn extract_schema_name_builds_cache_key() {
    let body = js(r#"{"targetKind": "Widget", "targetGroup": "example.io", "targetVersion": "v1"}"#);
    assert_eq!(extract_schema_name(&body).as_deref(), Some("Widget.example.io.v1"));
    assert!(extract_schema_name(&js(r#"{"targetKind": "Widget", "targetGroup": "example.io"}"#)).is_none());
    assert!(extract_schema_name(&js(r#"{"targetKind": 1, "targetGroup": "g", "targetVersion": "v"}"#)).is_none());
}

#[test]
fn create_request_for_plain_object() {
    let body = js(r#"{"metadata": {"name": "w", "labels": {"app": "x"}}, "spec": {"color": "blue"}}"#);
    let (meta, data) = create_request("Widget", body).unwrap();
    assert_eq!(meta.name, "w");
    assert!(meta.namespace.is_none());
    assert_eq!(meta.labels.get("app").map(|s| s.as_str()), Some("x"));
    assert_eq!(data, js(r#"{"color": "blue"}"#));
}

#[test]
fn create_request_rejects_bad_bodies() {
    let unknown = create_request("Widget", js(r#"{"metadata": {"name": "w"}, "spec": {"a": 1}, "status": {}, "extra": 1}"#)).unwrap_err();
    assert!(matches!(unknown, AppError::InvalidRequestBody(ref m) if m == "unknown field(s): extra, status"));
    let no_name = create_request("Widget", js(r#"{"metadata": {}, "spec": {"a": 1}}"#)).unwrap_err();
    assert!(matches!(no_name, AppError::InvalidRequestBody(ref m) if m == "'metadata.name' is required"));
    let no_spec = create_request("Widget", js(r#"{"metadata": {"name": "w"}}"#)).unwrap_err();
    assert!(matches!(no_spec, AppError::InvalidRequestBody(ref m) if m == "'spec' field is required"));
    let not_obj = create_request("Widget", js(r#"{"metadata": {"name": "w"}, "spec": [1]}"#)).unwrap_err();
    assert!(matches!(not_obj, AppError::InvalidRequestBody(ref m) if m == "'spec' must be a JSON object"));
    let empty = create_request("Widget", js(r#"{"metadata": {"name": "w"}, "spec": {}}"#)).unwrap_err();
    assert!(matches!(empty, AppError::InvalidRequestBody(ref m) if m == "'spec' must not be empty"));
    let bad_label = create_request("Widget", js(r#"{"metadata": {"name": "w", "labels": {"a": 1}}, "spec": {"a": 1}}"#)).unwrap_err();
    assert!(matches!(bad_label, AppError::InvalidLabel(_)));
}

#[test]
fn create_request_for_schema_strips_metadata() {
    let body = js(r#"{"metadata": {"labels": {"team": "a"}}, "targetKind": "Widget", "targetGroup": "example.io", "targetVersion": "v1", "specSchema": {}}"#);
    let (meta, data) = create_request("Schema", body).unwrap();
    assert_eq!(meta.name, "Widget.example.io.v1");
    assert_eq!(meta.labels.get("team").map(|s| s.as_str()), Some("a"));
    assert_eq!(data, js(r#"{"targetKind": "Widget", "targetGroup": "example.io", "targetVersion": "v1", "specSchema": {}}"#));
    let err = create_request("Schema", js(r#"{"targetKind": "Widget"}"#)).unwrap_err();
    assert!(matches!(err, AppError::InvalidSchema(ref m) if m == "Schema registration requires targetKind, targetGroup, and targetVersion fields"));
}

#[test]
fn list_request_builds_options() {
    let mut q = query();
    q.limit = Some(5);
    q.continue_token = Some("abc".into());
    q.field_selector = Some("metadata.name=w".into());
    match list_request(q).unwrap() {
        ListRequest::List(opts) => {
            assert_eq!(opts.limit, Some(5));
            assert_eq!(opts.continue_token.map(|t| t.0), Some("abc".to_string()));
            assert!(matches!(opts.field_selector, Some(FieldSelector::NameEquals(ref n)) if n == "w"));
            assert!(opts.label_selector.is_none());
        }
        ListRequest::Watch(_) => panic!("expected a list"),
    }
}

#[test]
fn list_request_builds_watch_filter() {
    let mut q = query();
    q.watch = Some(true);
    q.field_selector = Some("metadata.name=w".into());
    q.label_selector = Some("app=nginx".into());
    assert!(matches!(list_request(q).unwrap(), ListRequest::Watch(WatchFilter::And(_, _))));
    let mut q2 = query();
    q2.watch = Some(true);
    assert!(matches!(list_request(q2).unwrap(), ListRequest::Watch(WatchFilter::All)));
    let mut q3 = query();
    q3.watch = Some(false);
    assert!(matches!(list_request(q3).unwrap(), ListRequest::List(_)));
}

#[test]
fn list_request_reports_selector_errors() {
    let mut q = query();
    q.field_selector = Some("bad".into());
    q.label_selector = Some("app=".into());
    assert!(matches!(list_request(q), Err(AppError::InvalidFieldSelector(_))));
    let mut q2 = query();
    q2.label_selector = Some("app=".into());
    assert!(matches!(list_request(q2), Err(AppError::InvalidLabelSelector(_))));
}

fn stored(kind: &str, name: &str) -> StoredObject {
    StoredObject {
        key: ResourceKey { group: "g".into(), version: "v1".into(), kind: kind.into() },
        metadata: ObjectMeta { name: name.into(), namespace: None, labels: StringMap::new(), annotations: StringMap::new(), finalizers: vec![] },
        system: SystemMetadata::initial(Timestamp { secs: 0, nanos: 0 }),
        spec: JsonValue::Null,
        status: None,
    }
}

#[test]
fn update_target_must_match_url() {
    let path = ObjectNamePath { group: "g".into(), version: "v1".into(), kind: "K".into(), name: "n".into() };
    assert!(check_update_target(&path, &stored("K", "n")).is_ok());
    assert!(matches!(check_update_target(&path, &stored("L", "n")), Err(AppError::Internal(ref m)) if m == "URL key does not match body key"));
    assert!(matches!(check_update_target(&path, &stored("K", "m")), Err(AppError::Internal(ref m)) if m == "URL name 'n' does not match body name 'm'"));
}

#[test]
fn status_of_body_defaults_to_empty_object() {
    assert_eq!(status_of_body(&js(r#"{"status": {"phase": "x"}}"#)), js(r#"{"phase": "x"}"#));
    assert_eq!(status_of_body(&js(r#"{"other": 1}"#)), js("{}"));
}
