use std::sync::Arc;

use kapi::error::AppError;
use kapi::json::JsonValue;
use kapi::keys::{schema_key, ResourceKey};
use kapi::meta_schema::{compile_meta_schema, JsonSchemaValidator};
use kapi::registry::SchemaRegistry;
use kapi::store::InMemoryStore;
use kapi::strmap::StringMap;
use kapi::types::{ObjectMeta, StoredObject, SystemMetadata, Timestamp};

fn to_json(v: &serde_json::Value) -> JsonValue {
    match v {
        serde_json::Value::Null => JsonValue::Null,
        serde_json::Value::Bool(b) => JsonValue::Bool(*b),
        serde_json::Value::Number(n) => JsonValue::Number(n.to_string()),
        serde_json::Value::String(s) => JsonValue::String(s.clone()),
        serde_json::Value::Array(a) => JsonValue::Array(a.iter().map(to_json).collect()),
        serde_json::Value::Object(m) => JsonValue::Object(m.iter().map(|(k, v)| (k.clone(), to_json(v))).collect()),
    }
}

fn js(text: &str) -> JsonValue {
    to_json(&serde_json::from_str::<serde_json::Value>(text).unwrap())
}

fn make_registry() -> SchemaRegistry {
    SchemaRegistry::new(Arc::new(compile_meta_schema().expect("meta-schema should compile")))
}

fn widget_key() -> ResourceKey {
    ResourceKey { group: "example.io".to_string(), version: "v1".to_string(), kind: "Widget".to_string() }
}

fn store_schema(store: &mut InMemoryStore, name: &str, spec: JsonValue) {
    store
        .create(StoredObject {
            key: schema_key(),
            metadata: ObjectMeta {
                name: name.to_string(),
                namespace: None,
                labels: StringMap::new(),
                annotations: StringMap::new(),
                finalizers: Vec::new(),
            },
            system: SystemMetadata::initial(Timestamp { secs: 0, nanos: 0 }),
            spec,
            status: None,
        })
        .expect("store create should succeed");
}

fn test_schema() -> JsonValue {
    js(r#"{"targetGroup": "example.io", "targetVersion": "v1", "targetKind": "Widget",
           "specSchema": {"type": "object", "properties": {"color": {"type": "string"}, "size": {"type": "integer"}}}}"#)
}

#[test]
fn valid_schema_passes_meta_schema() {
    let validator = compile_meta_schema().expect("meta-schema should compile");
    let valid_payload = js(r#"{"targetGroup": "example.io", "targetVersion": "v1", "targetKind": "Widget",
        "jsonSchema": {"type": "object", "properties": {"color": {"type": "string"}}}}"#);
    assert!(validator.is_valid(&valid_payload));
}

#[test]
fn missing_required_field_fails_meta_schema() {
    let validator = compile_meta_schema().expect("meta-schema should compile");
    let missing_target_group = js(r#"{"targetVersion": "v1", "targetKind": "Widget", "jsonSchema": {"type": "object"}}"#);
    assert!(!validator.is_valid(&missing_target_group));
    let errors = validator.validate(&missing_target_group);
    assert!(!errors.is_empty(), "expected validation errors");
}

#[test]
fn unknown_field_fails_meta_schema() {
    let validator = compile_meta_schema().expect("meta-schema should compile");
    let with_unknown_field = js(r#"{"targetGroup": "example.io", "targetVersion": "v1", "targetKind": "Widget",
        "jsonSchema": {"type": "object"}, "unknownField": "should be rejected"}"#);
    assert!(!validator.is_valid(&with_unknown_field));
}

#[test]
fn json_schema_as_non_object_fails_meta_schema() {
    let validator = compile_meta_schema().expect("meta-schema should compile");
    let json_schema_as_string = js(r#"{"targetGroup": "example.io", "targetVersion": "v1", "targetKind": "Widget",
        "jsonSchema": "not an object"}"#);
    assert!(!validator.is_valid(&json_schema_as_string));
}

#[test]
fn valid_schema_with_status_schema_passes_meta_schema() {
    let validator = compile_meta_schema().expect("meta-schema should compile");
    let valid_payload = js(r#"{"targetGroup": "example.io", "targetVersion": "v1", "targetKind": "Widget",
        "jsonSchema": {"type": "object", "properties": {"color": {"type": "string"}}},
        "statusSchema": {"type": "object", "properties": {"phase": {"type": "string"}}}}"#);
    assert!(validator.is_valid(&valid_payload));
}

#[test]
fn status_schema_as_non_object_fails_meta_schema() {
    let validator = compile_meta_schema().expect("meta-schema should compile");
    let invalid_payload = js(r#"{"targetGroup": "example.io", "targetVersion": "v1", "targetKind": "Widget",
        "jsonSchema": {"type": "object"}, "statusSchema": "not an object"}"#);
    assert!(!validator.is_valid(&invalid_payload));
}

#[test]
fn compile_meta_schema_returns_working_validator() {
    let result = compile_meta_schema();
    assert!(result.is_ok());
    let validator = result.unwrap();
    let valid = js(r#"{"targetGroup": "x", "targetVersion": "y", "targetKind": "z", "jsonSchema": {}}"#);
    assert!(validator.is_valid(&valid));
    let invalid = js("{}");
    assert!(!validator.is_valid(&invalid));
}

#[test]
fn meta_schema_accepts_spec_schema_and_scope() {
    let validator = compile_meta_schema().unwrap();
    assert!(validator.is_valid(&js(r#"{"targetGroup": "g", "targetVersion": "v", "targetKind": "K", "specSchema": {}, "scope": "Cluster"}"#)));
    assert!(!validator.is_valid(&js(r#"{"targetGroup": "g", "targetVersion": "v", "targetKind": "K", "specSchema": {}, "scope": "Galaxy"}"#)));
    assert!(!validator.is_valid(&js(r#"{"targetGroup": "", "targetVersion": "v", "targetKind": "K", "specSchema": {}}"#)));
}

#[test]
fn compiled_schema_reports_errors_with_paths() {
    let v = JsonSchemaValidator::compile(&js(r#"{"type": "object", "properties": {"items": {"type": "array", "items": {"type": "integer"}}}}"#)).unwrap();
    assert!(v.is_valid(&js(r#"{"items": [1, 2]}"#)));
    let errors = v.validate(&js(r#"{"items": [1, "x"]}"#));
    assert_eq!(errors.len(), 1);
    assert_eq!(errors[0].instance_path, "items/1");
    assert!(JsonSchemaValidator::compile(&js(r#"{"type": 7}"#)).is_err());
}

#[test]
fn validate_and_compile_valid_data_returns_schema_and_validator() {
    let registry = make_registry();
    let spec = js(r#"{"targetGroup": "example.io", "targetVersion": "v1", "targetKind": "Widget",
        "specSchema": {"type": "object", "properties": {"color": {"type": "string"}}}}"#);
    let (schema_data, validator, status_validator) = registry.validate_and_compile(&spec).unwrap();
    assert_eq!(schema_data.target_kind, "Widget");
    assert_eq!(schema_data.target_group, "example.io");
    assert!(validator.is_valid(&js(r#"{"color": "red"}"#)));
    assert!(status_validator.is_none());
    assert!(!registry.is_cached("Widget.example.io.v1"));
}

#[test]
fn validate_and_compile_invalid_meta_schema_returns_invalid_schema() {
    let registry = make_registry();
    let result = registry.validate_and_compile(&js(r#"{"targetGroup": "example.io"}"#));
    assert!(matches!(result, Err(AppError::InvalidSchema(_))));
}

#[test]
fn validate_and_compile_uncompilable_jsonschema_returns_invalid_schema() {
    let registry = make_registry();
    let spec = js(r#"{"targetGroup": "example.io", "targetVersion": "v1", "targetKind": "Widget", "specSchema": {"type": "not-a-real-type"}}"#);
    assert!(matches!(registry.validate_and_compile(&spec), Err(AppError::InvalidSchema(_))));
}

#[test]
fn get_validator_cache_hit_returns_cached_validator() {
    let mut registry = make_registry();
    let store = InMemoryStore::new();
    let cached = Arc::new(JsonSchemaValidator::compile(&js(r#"{"type": "string"}"#)).unwrap());
    registry.insert("Widget.example.io.v1", cached.clone(), "Namespaced");
    let (returned, scope) = registry.get_validator(&store, &widget_key()).unwrap();
    assert!(Arc::ptr_eq(&returned, &cached));
    assert_eq!(scope, "Namespaced");
}

#[test]
fn get_validator_cache_miss_fetches_compiles_and_caches() {
    let mut registry = make_registry();
    let mut store = InMemoryStore::new();
    store_schema(&mut store, "Widget.example.io.v1", test_schema());
    assert!(registry.get_validator(&store, &widget_key()).is_ok());
    assert!(registry.is_cached("Widget.example.io.v1"));
}

#[test]
fn get_validator_cache_miss_no_schema_returns_not_found() {
    let mut registry = make_registry();
    let store = InMemoryStore::new();
    let key = ResourceKey { group: "unknown.io".to_string(), version: "v1".to_string(), kind: "Unknown".to_string() };
    let result = registry.get_validator(&store, &key);
    assert!(matches!(result, Err(AppError::NotFound { ref what, ref identifier }) if what == "schema" && identifier == "Unknown.unknown.io.v1"));
}

#[test]
fn get_validator_cache_miss_uncompilable_schema_returns_compilation_failed() {
    let mut registry = make_registry();
    let mut store = InMemoryStore::new();
    store_schema(&mut store, "Widget.example.io.v1",
        js(r#"{"targetGroup": "example.io", "targetVersion": "v1", "targetKind": "Widget", "specSchema": {"type": "not-a-real-type"}}"#));
    let result = registry.get_validator(&store, &widget_key());
    assert!(matches!(result, Err(AppError::StoredSchemaCompilationFailed { .. })));
    assert!(!registry.is_cached("Widget.example.io.v1"));
}

#[test]
fn insert_adds_and_replaces_entries() {
    let mut registry = make_registry();
    let store = InMemoryStore::new();
    let v1 = Arc::new(JsonSchemaValidator::compile(&js(r#"{"type": "string"}"#)).unwrap());
    let v2 = Arc::new(JsonSchemaValidator::compile(&js(r#"{"type": "integer"}"#)).unwrap());
    assert!(!registry.is_cached("test-schema"));
    registry.insert("test-schema", v1, "Namespaced");
    assert!(registry.is_cached("test-schema"));
    registry.insert("Widget.example.io.v1", v2.clone(), "Cluster");
    let (got, scope) = registry.get_validator(&store, &widget_key()).unwrap();
    assert!(Arc::ptr_eq(&got, &v2));
    assert_eq!(scope, "Cluster");
}

#[test]
fn evict_removes_existing_entry_and_ignores_missing() {
    let mut registry = make_registry();
    let v = Arc::new(JsonSchemaValidator::compile(&js("{}")).unwrap());
    registry.insert("test-schema", v, "Namespaced");
    registry.evict("test-schema");
    assert!(!registry.is_cached("test-schema"));
    registry.evict("never-there");
    assert!(!registry.is_cached("never-there"));
}

#[test]
fn get_status_validator_cache_miss_with_status_schema() {
    let mut registry = make_registry();
    let mut store = InMemoryStore::new();
    store_schema(&mut store, "Widget.example.io.v1",
        js(r#"{"targetGroup": "example.io", "targetVersion": "v1", "targetKind": "Widget", "specSchema": {"type": "object"},
               "statusSchema": {"type": "object", "properties": {"phase": {"type": "string"}}}}"#));
    let status = registry.get_status_validator(&store, &widget_key()).unwrap();
    assert!(status.is_valid(&js(r#"{"phase": "Running"}"#)));
    assert!(!status.is_valid(&js(r#"{"phase": 1}"#)));
    assert!(registry.is_cached("Widget.example.io.v1"));
    let again = registry.get_status_validator(&store, &widget_key()).unwrap();
    assert!(Arc::ptr_eq(&status, &again));
}

#[test]
fn get_status_validator_no_status_schema_returns_error() {
    let mut registry = make_registry();
    let mut store = InMemoryStore::new();
    store_schema(&mut store, "Widget.example.io.v1", test_schema());
    let result = registry.get_status_validator(&store, &widget_key());
    assert!(matches!(result, Err(AppError::StatusSubresourceNotEnabled { ref kind }) if kind == "Widget"));
}

#[test]
fn insert_status_updates_existing_entry_only() {
    let mut registry = make_registry();
    let store = InMemoryStore::new();
    let spec = Arc::new(JsonSchemaValidator::compile(&js("{}")).unwrap());
    let status = Arc::new(JsonSchemaValidator::compile(&js(r#"{"type": "object"}"#)).unwrap());
    registry.insert_status("Widget.example.io.v1", status.clone());
    assert!(!registry.is_cached("Widget.example.io.v1"));
    registry.insert("Widget.example.io.v1", spec, "Namespaced");
    registry.insert_status("Widget.example.io.v1", status.clone());
    let got = registry.get_status_validator(&store, &widget_key()).unwrap();
    assert!(Arc::ptr_eq(&got, &status));
}

#[test]
fn get_scope_reads_and_caches() {
    let mut registry = make_registry();
    let mut store = InMemoryStore::new();
    store_schema(&mut store, "Widget.example.io.v1",
        js(r#"{"targetGroup": "example.io", "targetVersion": "v1", "targetKind": "Widget", "specSchema": {}, "scope": "Cluster"}"#));
    assert_eq!(registry.get_scope(&store, &widget_key()).unwrap(), "Cluster");
    assert!(registry.is_cached("Widget.example.io.v1"));
}
