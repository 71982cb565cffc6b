use std::sync::Arc;

use kapi::bootstrap::bootstrap_builtins;
use kapi::error::AppError;
use kapi::json::JsonValue;
use kapi::keys::{namespace_key, schema_cache_key, schema_key, ResourceKey};
use kapi::meta_schema::compile_meta_schema;
use kapi::registry::SchemaRegistry;
use kapi::schema_service::SchemaService;
use kapi::service::ObjectService;
use kapi::store::InMemoryStore;
use kapi::strmap::StringMap;
use kapi::types::{ListOptions, ObjectMeta, StoredObject, SystemMetadata, Timestamp, WatchEventType};

fn to_json(v: &serde_json::Value) -> JsonValue {
    match v {
        serde_json::Value::Null => JsonValue::Null,
        serde_json::Value::Bool(b) => JsonValue::Bool(*b),
        serde_json::Value::Number(n) => JsonValue::Number(n.to_string()),
        serde_json::Value::String(s) => JsonValue::String(s.clone()),
        serde_json::Value::Array(a) => JsonValue::Array(a.iter().map(to_json).collect()),
        serde_json::Value::Object(m) => JsonValue::Object(m.iter().map(|(k, v)| (k.clone(), to_json(v))).collect()),
    }
}

fn js(text: &str) -> JsonValue {
    to_json(&serde_json::from_str::<serde_json::Value>(text).unwrap())
}

fn meta(name: &str) -> ObjectMeta {
    ObjectMeta {
        name: name.to_string(),
        namespace: None,
        labels: StringMap::new(),
        annotations: StringMap::new(),
        finalizers: Vec::new(),
    }
}

struct World {
    store: InMemoryStore,
    objects: ObjectService,
    schemas: SchemaService,
}

fn make_services() -> World {
    let meta_validator = Arc::new(compile_meta_schema().expect("meta-schema should compile"));
    let mut store = InMemoryStore::new();
    let mut schemas = SchemaService::new(meta_validator.clone());
    bootstrap_builtins(&mut schemas, &mut store).expect("bootstrap should succeed");
    schemas.take_events();
    let objects = ObjectService::new(SchemaRegistry::new(meta_validator));
    World { store, objects, schemas }
}

fn widget_key() -> ResourceKey {
    ResourceKey { group: "example.io".into(), version: "v1".into(), kind: "Widget".into() }
}

fn ns_widget_key() -> ResourceKey {
    ResourceKey { group: "example.io".into(), version: "v1".into(), kind: "NamespacedWidget".into() }
}

fn register_test_schema(w: &mut World) {
    let spec = js(r#"{
        "targetGroup": "example.io",
        "targetVersion": "v1",
        "targetKind": "Widget",
        "scope": "Cluster",
        "specSchema": {"type": "object", "properties": {"color": {"type": "string"}, "size": {"type": "integer"}}}
    }"#);
    w.schemas.create(&mut w.store, schema_key(), meta("Widget.example.io.v1"), spec).expect("schema registration should succeed");
}

fn register_test_schema_with_status(w: &mut World) {
    let spec = js(r#"{
        "targetGroup": "example.io",
        "targetVersion": "v1",
        "targetKind": "Widget",
        "scope": "Cluster",
        "specSchema": {"type": "object"},
        "statusSchema": {"type": "object", "properties": {"phase": {"type": "string"}}}
    }"#);
    w.schemas.create(&mut w.store, schema_key(), meta("Widget.example.io.v1"), spec).expect("schema registration should succeed");
}

fn register_namespaced_schema(w: &mut World) {
    let spec = js(r#"{
        "targetGroup": "example.io",
        "targetVersion": "v1",
        "targetKind": "NamespacedWidget",
        "specSchema": {"type": "object"}
    }"#);
    w.schemas.create(&mut w.store, schema_key(), meta("NamespacedWidget.example.io.v1"), spec).expect("namespaced schema registration should succeed");
}

fn create_widget(w: &mut World, name: &str, spec: &str) -> StoredObject {
    w.objects.create(&mut w.store, widget_key(), None, meta(name), js(spec)).expect("create should succeed")
}

fn create_namespace(w: &mut World, name: &str) {
    let t = Timestamp { secs: 1_700_000_000, nanos: 0 };
    w.store
        .create(StoredObject { key: namespace_key(), metadata: meta(name), system: SystemMetadata::initial(t), spec: js("{}"), status: None })
        .unwrap();
}

#[test]
fn bootstrap_creates_default_namespace_and_namespace_schema() {
    let w = make_services();
    assert!(w.store.get(&namespace_key(), None, "default").is_ok());
    assert!(w.store.get(&schema_key(), None, "Namespace.kapi.io.v1").is_ok());
}

#[test]
fn create_valid_schema_stored_cached_event_published() {
    let mut w = make_services();
    let spec = js(r#"{"targetGroup": "example.io", "targetVersion": "v1", "targetKind": "Widget", "specSchema": {"type": "object"}}"#);
    let stored = w.schemas.create(&mut w.store, schema_key(), meta("Widget.example.io.v1"), spec).unwrap();
    assert_eq!(stored.metadata.name, "Widget.example.io.v1");
    assert_eq!(stored.system.resource_version, 1);
    assert_eq!(stored.system.generation, 1);
    assert!(w.schemas.is_cached("Widget.example.io.v1"));
    let events = w.schemas.take_events();
    assert_eq!(events.len(), 1);
    assert_eq!(events[0].event_type, WatchEventType::Added);
    assert!(w.schemas.take_events().is_empty());
}

#[test]
fn schema_create_stores_with_no_namespace() {
    let mut w = make_services();
    let mut m = meta("Widget.example.io.v1");
    m.namespace = Some("should-be-ignored".into());
    let spec = js(r#"{"targetGroup": "example.io", "targetVersion": "v1", "targetKind": "Widget", "specSchema": {"type": "object"}}"#);
    let stored = w.schemas.create(&mut w.store, schema_key(), m, spec).unwrap();
    assert!(stored.metadata.namespace.is_none());
    let got = w.objects.get(&w.store, schema_key(), None, "Widget.example.io.v1".into()).unwrap();
    assert!(got.metadata.namespace.is_none());
}

#[test]
fn create_schema_invalid_meta_schema_returns_error() {
    let mut w = make_services();
    let spec = js(r#"{"targetVersion": "v1", "targetKind": "Widget", "specSchema": {"type": "object"}}"#);
    let err = w.schemas.create(&mut w.store, schema_key(), meta("x"), spec).unwrap_err();
    assert!(matches!(err, AppError::InvalidSchema(_)));
    assert!(w.schemas.take_events().is_empty());
}

#[test]
fn create_schema_unknown_field_is_rejected() {
    let mut w = make_services();
    let spec = js(r#"{"targetGroup": "g", "targetVersion": "v1", "targetKind": "K", "specSchema": {}, "unknownField": 1}"#);
    let err = w.schemas.create(&mut w.store, schema_key(), meta("K.g.v1"), spec).unwrap_err();
    assert!(matches!(err, AppError::InvalidSchema(_)));
}

#[test]
fn create_schema_uncompileable_spec_schema_returns_error() {
    let mut w = make_services();
    let spec = js(r#"{"targetGroup": "example.io", "targetVersion": "v1", "targetKind": "Widget", "specSchema": {"type": "not-a-real-type"}}"#);
    let err = w.schemas.create(&mut w.store, schema_key(), meta("Widget.example.io.v1"), spec).unwrap_err();
    match err {
        AppError::InvalidSchema(msg) => assert!(msg.starts_with("failed to compile specSchema: failed to compile schema: "), "{msg}"),
        other => panic!("expected InvalidSchema, got {other:?}"),
    }
}

#[test]
fn create_object_unregistered_kind_returns_not_found() {
    let mut w = make_services();
    let err = w.objects.create(&mut w.store, widget_key(), None, meta("w"), js(r#"{"color": "blue"}"#)).unwrap_err();
    assert!(matches!(err, AppError::NotFound { ref what, ref identifier } if what == "schema" && identifier == "Widget.example.io.v1"));
}

#[test]
fn create_object_invalid_data_returns_schema_validation() {
    let mut w = make_services();
    register_test_schema(&mut w);
    let err = w.objects.create(&mut w.store, widget_key(), None, meta("w"), js(r#"{"color": 42}"#)).unwrap_err();
    match err {
        AppError::SchemaValidation(errors) => {
            assert!(!errors.is_empty());
            assert_eq!(errors[0].path, "color");
        }
        other => panic!("expected SchemaValidation, got {other:?}"),
    }
    assert!(w.objects.take_events().is_empty());
}

#[test]
fn create_object_publishes_added() {
    let mut w = make_services();
    register_test_schema(&mut w);
    let created = create_widget(&mut w, "w", r#"{"color": "blue", "size": 10}"#);
    assert_eq!(created.system.resource_version, 1);
    assert_eq!(created.system.generation, 1);
    assert_eq!(created.system.created_at, created.system.updated_at);
    assert!(created.metadata.namespace.is_none());
    let events = w.objects.take_events();
    assert_eq!(events.len(), 1);
    assert_eq!(events[0].event_type, WatchEventType::Added);
    assert_eq!(events[0].object.metadata.name, "w");
}

#[test]
fn create_duplicate_no_event_published() {
    let mut w = make_services();
    register_test_schema(&mut w);
    create_widget(&mut w, "w", r#"{"color": "blue"}"#);
    w.objects.take_events();
    let err = w.objects.create(&mut w.store, widget_key(), None, meta("w"), js(r#"{"color": "red"}"#)).unwrap_err();
    assert!(matches!(err, AppError::AlreadyExists { .. }));
    assert!(w.objects.take_events().is_empty());
}

#[test]
fn create_rejects_invalid_labels() {
    let mut w = make_services();
    register_test_schema(&mut w);
    let mut m = meta("w");
    m.labels.insert("invalid key!".into(), "v".into());
    let err = w.objects.create(&mut w.store, widget_key(), None, m, js(r#"{"color": "blue"}"#)).unwrap_err();
    assert!(matches!(err, AppError::InvalidLabel(_)));
}

#[test]
fn update_correct_version_succeeds() {
    let mut w = make_services();
    register_test_schema(&mut w);
    let created = create_widget(&mut w, "w", r#"{"color": "blue", "size": 10}"#);
    w.objects.take_events();
    let mut next = created.clone();
    next.spec = js(r#"{"color": "red", "size": 20}"#);
    let updated = w.objects.update(&mut w.store, None, next).unwrap();
    assert_eq!(updated.system.resource_version, 2);
    assert_eq!(updated.system.generation, 2);
    assert_eq!(updated.system.created_at, created.system.created_at);
    let events = w.objects.take_events();
    assert_eq!(events.len(), 1);
    assert_eq!(events[0].event_type, WatchEventType::Modified);
}

#[test]
fn update_with_wrong_version_returns_conflict() {
    let mut w = make_services();
    register_test_schema(&mut w);
    let created = create_widget(&mut w, "w", r#"{"color": "blue"}"#);
    let mut next = created.clone();
    next.system.resource_version = 99;
    let err = w.objects.update(&mut w.store, None, next).unwrap_err();
    assert!(matches!(err, AppError::Conflict { expected: 1, actual: 99 }));
}

#[test]
fn apply_with_metadata_preserves_generation_on_no_spec_change() {
    let mut w = make_services();
    register_test_schema(&mut w);
    let created = create_widget(&mut w, "w", r#"{"color": "blue", "size": 10}"#);
    let mut next = created.clone();
    next.metadata.labels.insert("env".into(), "prod".into());
    let updated = w.objects.update(&mut w.store, None, next).unwrap();
    assert_eq!(updated.system.generation, created.system.generation);
    assert_eq!(updated.system.resource_version, created.system.resource_version + 1);
    assert_eq!(updated.metadata.labels.get("env").map(|s| s.as_str()), Some("prod"));
}

#[test]
fn delete_regular_object_succeeds() {
    let mut w = make_services();
    register_test_schema(&mut w);
    create_widget(&mut w, "w", r#"{"color": "blue"}"#);
    w.objects.take_events();
    let deleted = w.objects.delete(&mut w.store, widget_key(), None, "w".into()).unwrap();
    assert_eq!(deleted.metadata.name, "w");
    assert!(matches!(w.objects.get(&w.store, widget_key(), None, "w".into()), Err(AppError::NotFound { .. })));
    let events = w.objects.take_events();
    assert_eq!(events.len(), 1);
    assert_eq!(events[0].event_type, WatchEventType::Deleted);
}

#[test]
fn delete_with_finalizers_marks_then_update_removes() {
    let mut w = make_services();
    register_test_schema(&mut w);
    let mut m = meta("w");
    m.finalizers.push("example.io/cleanup".into());
    w.objects.create(&mut w.store, widget_key(), None, m, js(r#"{"color": "blue"}"#)).unwrap();
    w.objects.take_events();
    let marked = w.objects.delete(&mut w.store, widget_key(), None, "w".into()).unwrap();
    assert!(marked.system.deletion_timestamp.is_some());
    assert_eq!(w.objects.take_events()[0].event_type, WatchEventType::Modified);
    let again = w.objects.delete(&mut w.store, widget_key(), None, "w".into()).unwrap();
    assert_eq!(again.system.deletion_timestamp, marked.system.deletion_timestamp);
    assert!(w.objects.take_events().is_empty());
    let mut relabel = marked.clone();
    relabel.metadata.labels.insert("x".into(), "y".into());
    let err = w.objects.update(&mut w.store, None, relabel).unwrap_err();
    assert!(matches!(err, AppError::ObjectBeingDeleted { .. }));
    let mut respec = marked.clone();
    respec.metadata.finalizers.clear();
    respec.spec = js(r#"{"color": "red"}"#);
    let err = w.objects.update(&mut w.store, None, respec).unwrap_err();
    assert!(matches!(err, AppError::ObjectBeingDeleted { ref name } if name == "w"));
    assert!(w.objects.get(&w.store, widget_key(), None, "w".into()).is_ok());
    assert!(w.objects.take_events().is_empty());
    let mut cleared = marked.clone();
    cleared.metadata.finalizers.clear();
    let removed = w.objects.update(&mut w.store, None, cleared).unwrap();
    assert_eq!(removed.metadata.name, "w");
    assert!(w.objects.get(&w.store, widget_key(), None, "w".into()).is_err());
    assert_eq!(w.objects.take_events()[0].event_type, WatchEventType::Deleted);
}

#[test]
fn delete_schema_no_objects_succeeds() {
    let mut w = make_services();
    register_test_schema(&mut w);
    let deleted = w.schemas.delete(&mut w.store, schema_key(), "Widget.example.io.v1".into()).unwrap();
    assert_eq!(deleted.metadata.name, "Widget.example.io.v1");
    assert!(!w.schemas.is_cached("Widget.example.io.v1"));
}

#[test]
fn delete_schema_with_objects_returns_conflict() {
    let mut w = make_services();
    register_test_schema(&mut w);
    create_widget(&mut w, "w", r#"{"color": "blue"}"#);
    let err = w.schemas.delete(&mut w.store, schema_key(), "Widget.example.io.v1".into()).unwrap_err();
    assert!(matches!(err, AppError::SchemaHasObjects { ref kind } if kind == "Widget"));
}

#[test]
fn delete_v1_schema_keeps_v2_cache_intact() {
    let mut w = make_services();
    let v1 = schema_cache_key("Widget", "example.io", "v1");
    let v2 = schema_cache_key("Widget", "example.io", "v2");
    let s1 = js(r#"{"targetGroup": "example.io", "targetVersion": "v1", "targetKind": "Widget", "specSchema": {"type": "object"}}"#);
    let s2 = js(r#"{"targetGroup": "example.io", "targetVersion": "v2", "targetKind": "Widget", "specSchema": {"type": "object"}}"#);
    w.schemas.create(&mut w.store, schema_key(), meta(&v1), s1).unwrap();
    w.schemas.create(&mut w.store, schema_key(), meta(&v2), s2).unwrap();
    let widget_v2 = ResourceKey { group: "example.io".into(), version: "v2".into(), kind: "Widget".into() };
    w.objects.create(&mut w.store, widget_v2, None, meta("my-widget"), js(r#"{"dummy": "data"}"#)).unwrap();
    assert!(w.schemas.delete(&mut w.store, schema_key(), v1.clone()).is_ok());
    assert!(w.schemas.is_cached(&v2));
    assert!(!w.schemas.is_cached(&v1));
}

#[test]
fn cache_miss_triggers_compilation_and_subsequent_uses_cache() {
    let mut w = make_services();
    register_test_schema(&mut w);
    assert!(!w.objects.schema_registry.is_cached("Widget.example.io.v1"));
    create_widget(&mut w, "a", r#"{"color": "blue"}"#);
    assert!(w.objects.schema_registry.is_cached("Widget.example.io.v1"));
    let (v, scope) = w.objects.schema_registry.get_validator(&w.store, &widget_key()).unwrap();
    assert_eq!(scope, "Cluster");
    assert!(v.is_valid(&js(r#"{"color": "green"}"#)));
    assert!(!v.is_valid(&js(r#"{"color": 1}"#)));
}

#[test]
fn stored_schema_invalid_jsonschema_returns_compilation_failed() {
    let mut w = make_services();
    let t = Timestamp { secs: 1, nanos: 0 };
    let broken = js(r#"{"targetGroup": "example.io", "targetVersion": "v1", "targetKind": "Widget", "specSchema": {"type": 12}}"#);
    w.store
        .create(StoredObject { key: schema_key(), metadata: meta("Widget.example.io.v1"), system: SystemMetadata::initial(t), spec: broken, status: None })
        .unwrap();
    let err = w.objects.create(&mut w.store, widget_key(), None, meta("w"), js(r#"{"a": 1}"#)).unwrap_err();
    match err {
        AppError::StoredSchemaCompilationFailed { schema_name, reason } => {
            assert_eq!(schema_name, "Widget.example.io.v1");
            assert!(reason.starts_with("failed to compile schema: "));
        }
        other => panic!("expected StoredSchemaCompilationFailed, got {other:?}"),
    }
}

#[test]
fn update_status_with_status_schema_succeeds() {
    let mut w = make_services();
    register_test_schema_with_status(&mut w);
    let created = create_widget(&mut w, "w", r#"{"a": 1}"#);
    w.objects.take_events();
    let updated = w.objects.update_status(&mut w.store, widget_key(), None, "w".into(), js(r#"{"phase": "Running"}"#)).unwrap();
    assert_eq!(updated.status, Some(js(r#"{"phase": "Running"}"#)));
    assert_eq!(updated.system.resource_version, created.system.resource_version + 1);
    assert_eq!(updated.system.generation, created.system.generation, "generation should NOT increment on status update");
    assert_eq!(w.objects.take_events()[0].event_type, WatchEventType::StatusModified);
    let status = w.objects.get_status(&w.store, widget_key(), None, "w".into()).unwrap();
    assert_eq!(status, Some(js(r#"{"phase": "Running"}"#)));
}

#[test]
fn update_status_without_status_schema_returns_error() {
    let mut w = make_services();
    register_test_schema(&mut w);
    create_widget(&mut w, "w", r#"{"color": "blue"}"#);
    let err = w.objects.update_status(&mut w.store, widget_key(), None, "w".into(), js(r#"{"phase": "x"}"#)).unwrap_err();
    assert!(matches!(err, AppError::StatusSubresourceNotEnabled { ref kind } if kind == "Widget"));
    let err2 = w.objects.get_status(&w.store, widget_key(), None, "w".into()).unwrap_err();
    assert!(matches!(err2, AppError::StatusSubresourceNotEnabled { .. }));
}

#[test]
fn update_status_invalid_status_returns_validation_error() {
    let mut w = make_services();
    register_test_schema_with_status(&mut w);
    create_widget(&mut w, "w", r#"{"a": 1}"#);
    let err = w.objects.update_status(&mut w.store, widget_key(), None, "w".into(), js(r#"{"phase": 3}"#)).unwrap_err();
    assert!(matches!(err, AppError::SchemaValidation(_)));
}

#[test]
fn update_status_not_found() {
    let mut w = make_services();
    register_test_schema_with_status(&mut w);
    let err = w.objects.update_status(&mut w.store, widget_key(), None, "missing".into(), js(r#"{"phase": "x"}"#)).unwrap_err();
    assert!(matches!(err, AppError::NotFound { ref what, .. } if what == "object"));
}

#[test]
fn create_cluster_scoped_kind_with_namespace_rejected() {
    let mut w = make_services();
    register_test_schema(&mut w);
    let err = w.objects.create(&mut w.store, widget_key(), Some("default".into()), meta("w"), js(r#"{"a": 1}"#)).unwrap_err();
    assert!(matches!(err, AppError::InvalidRequest(ref m) if m == "cluster-scoped kind 'Widget' does not accept namespace"));
}

#[test]
fn create_object_in_default_namespace_succeeds() {
    let mut w = make_services();
    register_namespaced_schema(&mut w);
    let created = w.objects.create(&mut w.store, ns_widget_key(), None, meta("w"), js(r#"{"a": 1}"#)).unwrap();
    assert_eq!(created.metadata.namespace.as_deref(), Some("default"));
}

#[test]
fn create_object_in_nonexistent_namespace_returns_404() {
    let mut w = make_services();
    register_namespaced_schema(&mut w);
    let err = w.objects.create(&mut w.store, ns_widget_key(), Some("nope".into()), meta("w"), js(r#"{"a": 1}"#)).unwrap_err();
    assert!(matches!(err, AppError::NotFound { ref what, ref identifier } if what == "namespace" && identifier == "nope"));
}

#[test]
fn create_object_in_existing_namespace_succeeds() {
    let mut w = make_services();
    register_namespaced_schema(&mut w);
    create_namespace(&mut w, "team-a");
    let created = w.objects.create(&mut w.store, ns_widget_key(), Some("team-a".into()), meta("w"), js(r#"{"a": 1}"#)).unwrap();
    assert_eq!(created.metadata.namespace.as_deref(), Some("team-a"));
    let got = w.objects.get(&w.store, ns_widget_key(), Some("team-a"), "w".into()).unwrap();
    assert_eq!(got.metadata.name, "w");
}

#[test]
fn update_namespace_mismatch_rejected() {
    let mut w = make_services();
    register_namespaced_schema(&mut w);
    create_namespace(&mut w, "team-a");
    let created = w.objects.create(&mut w.store, ns_widget_key(), Some("team-a".into()), meta("w"), js(r#"{"a": 1}"#)).unwrap();
    let err = w.objects.update(&mut w.store, Some("team-b"), created).unwrap_err();
    assert!(matches!(err, AppError::InvalidRequest(ref m) if m == "namespace mismatch: expected 'team-b', got 'team-a'"));
}

#[test]
fn delete_default_namespace_returns_403() {
    let mut w = make_services();
    let result = w.objects.delete(&mut w.store, namespace_key(), None, "default".to_string());
    assert!(matches!(result, Err(AppError::ProtectedNamespace { ref name }) if name == "default"));
}

#[test]
fn delete_non_empty_namespace_returns_409() {
    let mut w = make_services();
    register_namespaced_schema(&mut w);
    create_namespace(&mut w, "team-a");
    w.objects.create(&mut w.store, ns_widget_key(), Some("team-a".into()), meta("w"), js(r#"{"a": 1}"#)).unwrap();
    let result = w.objects.delete(&mut w.store, namespace_key(), None, "team-a".to_string());
    assert!(matches!(result, Err(AppError::NamespaceNotEmpty { ref namespace, object_count: 1 }) if namespace == "team-a"));
}

#[test]
fn namespace_not_empty_counts_every_object() {
    let mut w = make_services();
    register_namespaced_schema(&mut w);
    create_namespace(&mut w, "team-a");
    create_namespace(&mut w, "team-b");
    for name in ["w1", "w2", "w3"] {
        w.objects.create(&mut w.store, ns_widget_key(), Some("team-a".into()), meta(name), js(r#"{"a": 1}"#)).unwrap();
    }
    w.objects.create(&mut w.store, ns_widget_key(), Some("team-b".into()), meta("w4"), js(r#"{"a": 1}"#)).unwrap();
    let result = w.objects.delete(&mut w.store, namespace_key(), None, "team-a".to_string());
    assert!(matches!(result, Err(AppError::NamespaceNotEmpty { ref namespace, object_count: 3 }) if namespace == "team-a"));
}

#[test]
fn delete_empty_namespace_succeeds() {
    let mut w = make_services();
    register_namespaced_schema(&mut w);
    create_namespace(&mut w, "team-b");
    let deleted = w.objects.delete(&mut w.store, namespace_key(), None, "team-b".to_string()).unwrap();
    assert_eq!(deleted.metadata.name, "team-b");
}

#[test]
fn list_through_service() {
    let mut w = make_services();
    register_test_schema(&mut w);
    create_widget(&mut w, "b", r#"{"a": 1}"#);
    create_widget(&mut w, "a", r#"{"a": 1}"#);
    let opts = ListOptions { limit: None, continue_token: None, field_selector: None, label_selector: None };
    let page = w.objects.list(&w.store, widget_key(), None, opts).unwrap();
    let names: Vec<&str> = page.items.iter().map(|o| o.metadata.name.as_str()).collect();
    assert_eq!(names, vec!["a", "b"]);
}

#[test]
fn list_namespaced_keys_lists_namespaced_kinds_only() {
    let mut w = make_services();
    register_test_schema(&mut w);
    register_namespaced_schema(&mut w);
    let keys = w.objects.schema_registry.list_namespaced_keys(&w.store).unwrap();
    assert_eq!(keys, vec![ns_widget_key()]);
}

#[test]
fn schema_update_recompiles_and_bumps_version() {
    let mut w = make_services();
    register_test_schema(&mut w);
    let stored = w.store.get(&schema_key(), None, "Widget.example.io.v1").unwrap();
    let mut next = stored.clone();
    next.spec = js(r#"{"targetGroup": "example.io", "targetVersion": "v1", "targetKind": "Widget", "scope": "Cluster", "specSchema": {"type": "object", "required": ["color"]}}"#);
    let updated = w.schemas.update(&mut w.store, next).unwrap();
    assert_eq!(updated.system.resource_version, 2);
    assert_eq!(updated.system.generation, 2);
    let (v, _) = w.schemas.get_validator(&w.store, &widget_key()).unwrap();
    assert!(!v.is_valid(&js("{}")));
    let mut stale = stored;
    stale.system.resource_version = 1;
    assert!(matches!(w.schemas.update(&mut w.store, stale), Err(AppError::Conflict { expected: 2, actual: 1 })));
}
