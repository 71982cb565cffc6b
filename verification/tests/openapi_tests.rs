use std::collections::HashMap;
use std::sync::Arc;

use kapi::json::JsonValue;
use kapi::keys::schema_key;
use kapi::meta_schema::compile_meta_schema;
use kapi::openapi::components::{
    build_kind_list_response_component, build_kind_spec_component, build_kind_stored_object_component,
    build_static_components,
};
use kapi::openapi::paths::{build_kind_paths, build_openapi_document, build_openapi_spec, build_static_paths};
use kapi::registry::SchemaRegistry;
use kapi::schema_data::SchemaData;
use kapi::schema_service::SchemaService;
use kapi::service::ObjectService;
use kapi::store::InMemoryStore;
use kapi::strmap::StringMap;
use kapi::types::ObjectMeta;
use serde_json::Value;

fn to_json(v: &Value) -> JsonValue {
    match v {
        Value::Null => JsonValue::Null,
        Value::Bool(b) => JsonValue::Bool(*b),
        Value::Number(n) => JsonValue::Number(n.to_string()),
        Value::String(s) => JsonValue::String(s.clone()),
        Value::Array(a) => JsonValue::Array(a.iter().map(to_json).collect()),
        Value::Object(m) => JsonValue::Object(m.iter().map(|(k, v)| (k.clone(), to_json(v))).collect()),
    }
}

fn to_value(v: &JsonValue) -> Value {
    match v {
        JsonValue::Null => Value::Null,
        JsonValue::Bool(b) => Value::Bool(*b),
        JsonValue::Number(n) => Value::Number(serde_json::from_str(n).unwrap()),
        JsonValue::String(s) => Value::String(s.clone()),
        JsonValue::Array(a) => Value::Array(a.iter().map(to_value).collect()),
        JsonValue::Object(fields) => {
            let mut m = serde_json::Map::new();
            for (k, v) in fields {
                assert!(!m.contains_key(k), "duplicate member {k}");
                m.insert(k.clone(), to_value(v));
            }
            Value::Object(m)
        }
    }
}

fn js(text: &str) -> JsonValue {
    to_json(&serde_json::from_str::<Value>(text).unwrap())
}

fn pairs(v: Vec<(String, JsonValue)>) -> Vec<(String, Value)> {
    v.iter().map(|(n, j)| (n.clone(), to_value(j))).collect()
}

fn schema_data(kind: &str, spec_schema: &str, scope: &str) -> SchemaData {
    SchemaData {
        target_group: "example.io".to_string(),
        target_version: "v1".to_string(),
        target_kind: kind.to_string(),
        spec_schema: js(spec_schema),
        status_schema: None,
        scope: scope.to_string(),
    }
}

fn meta(name: &str) -> ObjectMeta {
    ObjectMeta {
        name: name.to_string(),
        namespace: None,
        labels: StringMap::new(),
        annotations: StringMap::new(),
        finalizers: Vec::new(),
    }
}

fn make_test_services() -> (InMemoryStore, ObjectService, SchemaService) {
    let meta_validator = Arc::new(compile_meta_schema().expect("meta-schema should compile"));
    let schema_service = SchemaService::new(meta_validator.clone());
    let object_service = ObjectService::new(SchemaRegistry::new(meta_validator));
    (InMemoryStore::new(), object_service, schema_service)
}

#[test]
fn build_static_components_contains_all_eleven() {
    let components = pairs(build_static_components());
    let names: Vec<&str> = components.iter().map(|(n, _)| n.as_str()).collect();
    let expected = [
        "ResourceKey",
        "ObjectMeta",
        "SystemMetadata",
        "StoredObject",
        "ListResponse",
        "WatchEvent",
        "WatchEventType",
        "ValidationError",
        "InvalidFieldSelector",
        "InvalidFinalizer",
        "ObjectBeingDeleted",
        "AppError",
        "SchemaData",
    ];
    for name in &expected {
        assert!(names.contains(name), "Missing component: {name}");
    }
    assert_eq!(names.len(), expected.len(), "Unexpected component count");
}

#[test]
fn mod_build_static_components_stored_object_shape() {
    let components = pairs(build_static_components());
    let stored = components.iter().find(|(n, _)| n == "StoredObject").unwrap();
    let obj = stored.1.as_object().unwrap();
    assert_eq!(obj["type"], "object");
    let props = obj["properties"].as_object().unwrap();
    assert!(props.contains_key("key"));
    assert!(props.contains_key("metadata"));
    assert!(props.contains_key("system"));
    assert!(props.contains_key("spec"));
    assert_eq!(props["key"]["$ref"], "#/components/schemas/ResourceKey");
    assert_eq!(props["metadata"]["$ref"], "#/components/schemas/ObjectMeta");
    assert_eq!(props["system"]["$ref"], "#/components/schemas/SystemMetadata");
    let required = obj["required"].as_array().unwrap();
    assert!(required.iter().any(|r| r == "key"));
    assert!(required.iter().any(|r| r == "system"));
}

#[test]
fn mod_build_static_components_app_error_shape() {
    let components = pairs(build_static_components());
    let err = components.iter().find(|(n, _)| n == "AppError").unwrap();
    let obj = err.1.as_object().unwrap();
    assert_eq!(obj["type"], "object");
    let props = obj["properties"].as_object().unwrap();
    assert!(props.contains_key("error"));
    assert!(props.contains_key("code"));
    assert!(props.contains_key("details"));
    let required = obj["required"].as_array().unwrap();
    assert!(required.iter().any(|r| r == "error"));
    assert!(required.iter().any(|r| r == "code"));
}

#[test]
fn build_static_components_invalid_field_selector_shape() {
    let components = pairs(build_static_components());
    let ifs = components.iter().find(|(n, _)| n == "InvalidFieldSelector").unwrap();
    let obj = ifs.1.as_object().unwrap();
    assert_eq!(obj["type"], "object");
    let props = obj["properties"].as_object().unwrap();
    assert!(props.contains_key("error"));
    assert!(props.contains_key("code"));
    assert!(props.contains_key("details"));
}

#[test]
fn mod_build_static_components_watch_event_type_enum() {
    let components = pairs(build_static_components());
    let wet = components.iter().find(|(n, _)| n == "WatchEventType").unwrap();
    let obj = wet.1.as_object().unwrap();
    assert_eq!(obj["type"], "string");
    let variants: Vec<&str> = obj["enum"].as_array().unwrap().iter().map(|v| v.as_str().unwrap()).collect();
    assert!(variants.contains(&"Added"));
    assert!(variants.contains(&"Modified"));
    assert!(variants.contains(&"Deleted"));
}

#[test]
fn build_kind_spec_component_uses_user_schema_directly() {
    let data = schema_data(
        "Widget",
        r#"{"type": "object", "properties": {"color": {"type": "string"}, "size": {"type": "integer"}}}"#,
        "Namespaced",
    );
    let (name, schema) = build_kind_spec_component(&data, "WidgetExampleIo");
    let schema = to_value(&schema);
    assert_eq!(name, "WidgetExampleIo");
    let obj = schema.as_object().unwrap();
    assert_eq!(obj["type"], "object");
    let props = obj["properties"].as_object().unwrap();
    assert!(props.contains_key("color"));
    assert!(props.contains_key("size"));
    assert_eq!(props["color"]["type"], "string");
    assert_eq!(props["size"]["type"], "integer");
}

#[test]
fn mod_build_kind_stored_object_component_has_correct_refs() {
    let (name, schema) = build_kind_stored_object_component("WidgetExampleIo");
    let schema = to_value(&schema);
    assert_eq!(name, "WidgetExampleIoStoredObject");
    let obj = schema.as_object().unwrap();
    assert_eq!(obj["type"], "object");
    let props = obj["properties"].as_object().unwrap();
    assert_eq!(props["key"]["$ref"], "#/components/schemas/ResourceKey");
    assert_eq!(props["metadata"]["$ref"], "#/components/schemas/ObjectMeta");
    assert_eq!(props["system"]["$ref"], "#/components/schemas/SystemMetadata");
    assert_eq!(props["spec"]["$ref"], "#/components/schemas/WidgetExampleIo");
    let required = obj["required"].as_array().unwrap();
    assert!(required.iter().any(|r| r == "key"));
    assert!(required.iter().any(|r| r == "metadata"));
    assert!(required.iter().any(|r| r == "system"));
    assert!(required.iter().any(|r| r == "spec"));
}

#[test]
fn mod_build_kind_list_response_component_has_items_array_with_ref() {
    let (name, schema) = build_kind_list_response_component("WidgetExampleIo");
    let schema = to_value(&schema);
    assert_eq!(name, "WidgetExampleIoListResponse");
    let obj = schema.as_object().unwrap();
    assert_eq!(obj["type"], "object");
    let items = &obj["properties"]["items"];
    assert_eq!(items["type"], "array");
    assert_eq!(items["items"]["$ref"], "#/components/schemas/WidgetExampleIoStoredObject");
    let required = obj["required"].as_array().unwrap();
    assert!(required.iter().any(|r| r == "items"));
    assert!(obj["properties"]["continueToken"].as_object().is_some());
}

#[test]
fn mod_build_static_paths_contains_schema_crud() {
    let paths = pairs(build_static_paths());
    let path_map: HashMap<&str, &Value> = paths.iter().map(|(p, v)| (p.as_str(), v)).collect();

    let collection = path_map.get("/apis/kapi.io/v1/Schema").unwrap();
    assert!(collection.get("get").is_some(), "missing GET collection");
    assert!(collection.get("post").is_some(), "missing POST collection");

    let item = path_map.get("/apis/kapi.io/v1/Schema/{name}").unwrap();
    assert!(item.get("get").is_some(), "missing GET item");
    assert!(item.get("delete").is_some(), "missing DELETE item");

    let get_params = item["get"]["parameters"].as_array().unwrap();
    assert!(get_params.iter().any(|p| p["name"] == "name"));
}

#[test]
fn mod_build_static_paths_post_has_request_body_with_metadata() {
    let paths = pairs(build_static_paths());
    let (_path, collection) = paths.iter().find(|(p, _)| p == "/apis/kapi.io/v1/Schema").unwrap();
    let rb = &collection["post"]["requestBody"];
    assert_eq!(rb["required"], true);
    let schema = &rb["content"]["application/json"]["schema"];
    let all_of = schema["allOf"].as_array().unwrap();
    assert_eq!(all_of.len(), 2);
    let metadata = &all_of[0]["properties"]["metadata"]["properties"];
    assert!(metadata.get("labels").is_some());
    assert_eq!(all_of[1]["$ref"], "#/components/schemas/SchemaData");
}

#[test]
fn mod_build_static_paths_post_has_error_responses() {
    let paths = pairs(build_static_paths());
    let (_path, collection) = paths.iter().find(|(p, _)| p == "/apis/kapi.io/v1/Schema").unwrap();
    let responses = &collection["post"]["responses"];
    assert!(responses.get("201").is_some());
    assert!(responses.get("404").is_some());
    assert!(responses.get("409").is_some());
    assert!(responses.get("422").is_some());
}

#[test]
fn mod_build_kind_paths_has_collection_and_item() {
    let data = schema_data("NamespacedWidget", r#"{"type": "object"}"#, "Namespaced");
    let paths = pairs(build_kind_paths(&data, "NamespacedWidgetExampleIo"));
    let path_map: HashMap<&str, &Value> = paths.iter().map(|(p, v)| (p.as_str(), v)).collect();

    let collection = path_map.get("/apis/example.io/v1/NamespacedWidget").unwrap();
    assert!(collection.get("get").is_some(), "missing GET collection");
    assert!(collection.get("post").is_some(), "missing POST collection");

    let item = path_map.get("/apis/example.io/v1/NamespacedWidget/{name}").unwrap();
    assert!(item.get("get").is_some(), "missing GET item");
    assert!(item.get("put").is_some(), "missing PUT item");
    assert!(item.get("delete").is_some(), "missing DELETE item");

    let status = path_map.get("/apis/example.io/v1/NamespacedWidget/{name}/status").unwrap();
    assert!(status.get("get").is_some(), "missing GET status");
    assert!(status.get("put").is_some(), "missing PUT status");

    let ns_collection = path_map.get("/apis/example.io/v1/namespaces/{namespace}/NamespacedWidget").unwrap();
    assert!(ns_collection.get("get").is_some(), "missing namespace-scoped GET");
    assert!(ns_collection.get("post").is_some(), "missing namespace-scoped POST");

    let ns_item = path_map.get("/apis/example.io/v1/namespaces/{namespace}/NamespacedWidget/{name}").unwrap();
    assert!(ns_item.get("get").is_some(), "missing namespace-scoped GET item");
    assert!(ns_item.get("put").is_some(), "missing namespace-scoped PUT item");
    assert!(ns_item.get("delete").is_some(), "missing namespace-scoped DELETE item");

    let ns_status = path_map.get("/apis/example.io/v1/namespaces/{namespace}/NamespacedWidget/{name}/status").unwrap();
    assert!(ns_status.get("get").is_some(), "missing namespace-scoped GET status");
    assert!(ns_status.get("put").is_some(), "missing namespace-scoped PUT status");
}

#[test]
fn build_kind_paths_cluster_scoped_has_no_namespace_paths() {
    let data = schema_data("ClusterWidget", r#"{"type": "object"}"#, "Cluster");
    let paths = pairs(build_kind_paths(&data, "ClusterWidgetExampleIo"));
    let path_map: HashMap<&str, &Value> = paths.iter().map(|(p, v)| (p.as_str(), v)).collect();
    assert!(path_map.contains_key("/apis/example.io/v1/ClusterWidget"), "missing cluster-scoped collection");
    assert!(path_map.contains_key("/apis/example.io/v1/ClusterWidget/{name}"), "missing cluster-scoped item");
    assert!(
        !path_map.contains_key("/apis/example.io/v1/namespaces/{namespace}/ClusterWidget"),
        "namespace-scoped paths should not exist for cluster-scoped kind"
    );
}

#[test]
fn build_kind_paths_has_namespace_parameter_on_namespaced_paths() {
    let data = schema_data("Widget", r#"{"type": "object"}"#, "Namespaced");
    let paths = pairs(build_kind_paths(&data, "WidgetExampleIo"));
    let path_map: HashMap<&str, &Value> = paths.iter().map(|(p, v)| (p.as_str(), v)).collect();

    let ns_collection = path_map.get("/apis/example.io/v1/namespaces/{namespace}/Widget").unwrap();
    let get_params = ns_collection["get"]["parameters"].as_array().unwrap();
    let ns_param = get_params.iter().find(|p| p["name"] == "namespace").unwrap();
    assert_eq!(ns_param["in"], "path");
    assert_eq!(ns_param["required"], true);
    assert_eq!(ns_param["schema"]["type"], "string");

    let ns_item = path_map.get("/apis/example.io/v1/namespaces/{namespace}/Widget/{name}").unwrap();
    let get_item_params = ns_item["get"]["parameters"].as_array().unwrap();
    assert!(get_item_params.iter().any(|p| p["name"] == "namespace"));
    assert!(get_item_params.iter().any(|p| p["name"] == "name"));
}

#[test]
fn build_kind_paths_cross_namespace_list_has_description() {
    let data = schema_data("Widget", r#"{"type": "object"}"#, "Namespaced");
    let paths = pairs(build_kind_paths(&data, "WidgetExampleIo"));
    let path_map: HashMap<&str, &Value> = paths.iter().map(|(p, v)| (p.as_str(), v)).collect();
    let collection = path_map.get("/apis/example.io/v1/Widget").unwrap();
    let desc = collection["get"]["description"].as_str().unwrap_or("");
    assert!(
        desc.contains("Cross-namespace"),
        "cluster-scoped list of namespaced kind should mention cross-namespace: {desc}"
    );
}

#[test]
fn mod_build_kind_paths_list_has_watch_param() {
    let data = schema_data("Widget", r#"{"type": "object"}"#, "Namespaced");
    let paths = pairs(build_kind_paths(&data, "WidgetExampleIo"));
    let (_path, collection) = paths.iter().find(|(p, _)| p == "/apis/example.io/v1/Widget").unwrap();
    let params = collection["get"]["parameters"].as_array().unwrap();
    let watch = params.iter().find(|p| p["name"] == "watch").unwrap();
    assert_eq!(watch["in"], "query");
    assert_eq!(watch["schema"]["type"], "boolean");
    assert_eq!(watch["required"], false);
}

#[test]
fn build_kind_paths_list_has_field_selector_param() {
    let data = schema_data("Widget", r#"{"type": "object"}"#, "Namespaced");
    let paths = pairs(build_kind_paths(&data, "WidgetExampleIo"));
    let (_path, collection) = paths.iter().find(|(p, _)| p == "/apis/example.io/v1/Widget").unwrap();
    let params = collection["get"]["parameters"].as_array().unwrap();
    let field_selector = params.iter().find(|p| p["name"] == "fieldSelector").unwrap();
    assert_eq!(field_selector["in"], "query");
    assert_eq!(field_selector["schema"]["type"], "string");
    assert_eq!(field_selector["required"], false);
}

#[test]
fn build_kind_paths_list_has_400_response() {
    let data = schema_data("Widget", r#"{"type": "object"}"#, "Namespaced");
    let paths = pairs(build_kind_paths(&data, "WidgetExampleIo"));
    let (_path, collection) = paths.iter().find(|(p, _)| p == "/apis/example.io/v1/Widget").unwrap();
    let responses = &collection["get"]["responses"];
    assert!(responses.get("400").is_some(), "missing 400 response");
    let resp = &responses["400"];
    assert_eq!(resp["content"]["application/json"]["schema"]["$ref"], "#/components/schemas/AppError");
}

#[test]
fn mod_build_kind_paths_post_has_201_and_errors() {
    let data = schema_data("Widget", r#"{"type": "object"}"#, "Namespaced");
    let paths = pairs(build_kind_paths(&data, "WidgetExampleIo"));
    let (_path, collection) = paths.iter().find(|(p, _)| p == "/apis/example.io/v1/Widget").unwrap();
    let responses = &collection["post"]["responses"];
    assert!(responses.get("201").is_some());
    assert!(responses.get("404").is_some());
    assert!(responses.get("409").is_some());
    assert!(responses.get("422").is_some());
}

#[test]
fn mod_build_kind_paths_item_only_has_name_param() {
    let data = schema_data("Widget", r#"{"type": "object"}"#, "Namespaced");
    let paths = pairs(build_kind_paths(&data, "WidgetExampleIo"));
    let (_path, item) = paths.iter().find(|(p, _)| p == "/apis/example.io/v1/Widget/{name}").unwrap();
    let params = item["get"]["parameters"].as_array().unwrap();
    let names: Vec<&str> = params.iter().map(|p| p["name"].as_str().unwrap()).collect();
    assert_eq!(names, vec!["name"], "only name param should be present, GVK is in the URL");
}

#[test]
fn mod_build_openapi_spec_includes_dynamic_paths_and_components() {
    let (mut store, service, mut schema_service) = make_test_services();
    let data = js(r#"{
        "targetGroup": "example.io",
        "targetVersion": "v1",
        "targetKind": "Widget",
        "specSchema": {"type": "object", "properties": {"color": {"type": "string"}}}
    }"#);
    schema_service.create(&mut store, schema_key(), meta("Widget.example.io.v1"), data).unwrap();

    let spec = to_value(&build_openapi_spec(&service, &store).unwrap());
    let paths = spec["paths"].as_object().unwrap();
    assert!(paths.contains_key("/apis/example.io/v1/Widget"), "missing collection path");
    assert!(paths.contains_key("/apis/example.io/v1/Widget/{name}"), "missing item path");
    let schemas = spec["components"]["schemas"].as_object().unwrap();
    assert!(schemas.contains_key("WidgetExampleIoV1"), "missing spec component");
    assert!(schemas.contains_key("WidgetExampleIoV1StoredObject"), "missing stored component");
    assert!(schemas.contains_key("WidgetExampleIoV1ListResponse"), "missing list component");
}

#[test]
fn mod_build_openapi_spec_reflects_mutations() {
    let (mut store, service, mut schema_service) = make_test_services();
    let data = js(r#"{
        "targetGroup": "example.io",
        "targetVersion": "v1",
        "targetKind": "Widget",
        "specSchema": {"type": "object"}
    }"#);
    schema_service.create(&mut store, schema_key(), meta("Widget.example.io.v1"), data).unwrap();
    let spec_after_create = to_value(&build_openapi_spec(&service, &store).unwrap());
    assert!(spec_after_create["paths"].as_object().unwrap().contains_key("/apis/example.io/v1/Widget"));

    schema_service.delete(&mut store, schema_key(), "Widget.example.io.v1".to_string()).unwrap();
    let spec_after_delete = to_value(&build_openapi_spec(&service, &store).unwrap());
    assert!(
        !spec_after_delete["paths"].as_object().unwrap().contains_key("/apis/example.io/v1/Widget"),
        "paths should be removed after schema deletion"
    );
}

#[test]
fn openapi_document_header_and_static_parts() {
    let doc = to_value(&build_openapi_document(&Vec::new()));
    assert_eq!(doc["openapi"], "3.0.3");
    assert_eq!(doc["info"]["title"], "kapi API");
    assert_eq!(doc["info"]["version"], "0.1.0");
    assert_eq!(doc["paths"].as_object().unwrap().len(), 2);
    assert_eq!(doc["components"]["schemas"].as_object().unwrap().len(), 13);
}

#[test]
fn create_example_uses_first_three_properties_by_type() {
    let data = schema_data(
        "Widget",
        r#"{"type": "object", "properties": {"a": {"type": "string"}, "b": {"type": "integer"}, "c": {"type": "number"}, "d": {"type": "boolean"}}}"#,
        "Namespaced",
    );
    let paths = pairs(build_kind_paths(&data, "WidgetExampleIo"));
    let (_path, collection) = paths.iter().find(|(p, _)| p == "/apis/example.io/v1/Widget").unwrap();
    let example = &collection["post"]["requestBody"]["content"]["application/json"]["example"];
    assert_eq!(example["metadata"]["name"], "my-widget");
    let spec = example["spec"].as_object().unwrap();
    assert_eq!(spec.len(), 3);
    assert_eq!(spec["a"], "string");
    assert_eq!(spec["b"], 42);
    assert_eq!(spec["c"], 1.5);
}

#[test]
fn create_example_without_properties_is_key_value() {
    let data = schema_data("Widget", r#"{"type": "object"}"#, "Cluster");
    let paths = pairs(build_kind_paths(&data, "WidgetExampleIo"));
    assert_eq!(paths.len(), 3);
    let (_path, collection) = paths.iter().find(|(p, _)| p == "/apis/example.io/v1/Widget").unwrap();
    let example = &collection["post"]["requestBody"]["content"]["application/json"]["example"];
    assert_eq!(example["spec"]["key"], "value");
    assert!(collection["get"]["responses"]["200"]["content"]["application/json"]["example"].is_null());
    assert_eq!(collection["get"]["summary"], "List Widget objects");
}

#[test]
fn status_update_body_uses_status_schema_or_any_object() {
    let mut data = schema_data("Widget", r#"{"type": "object"}"#, "Namespaced");
    let paths = pairs(build_kind_paths(&data, "W"));
    let (_p, status) = paths.iter().find(|(p, _)| p == "/apis/example.io/v1/Widget/{name}/status").unwrap();
    let schema = &status["put"]["requestBody"]["content"]["application/json"]["schema"];
    assert_eq!(schema["properties"]["status"]["type"], "object");
    data.status_schema = Some(js(r#"{"type": "object", "properties": {"ready": {"type": "boolean"}}}"#));
    let paths = pairs(build_kind_paths(&data, "W"));
    let (_p, status) = paths.iter().find(|(p, _)| p == "/apis/example.io/v1/Widget/{name}/status").unwrap();
    let schema = &status["put"]["requestBody"]["content"]["application/json"]["schema"];
    assert_eq!(schema["properties"]["status"]["properties"]["ready"]["type"], "boolean");
}

#[test]
fn unreadable_schema_objects_are_skipped() {
    let (mut store, service, _schemas) = make_test_services();
    store
        .create(kapi::types::StoredObject {
            key: schema_key(),
            metadata: meta("Broken.example.io.v1"),
            system: kapi::types::SystemMetadata::initial(kapi::types::Timestamp { secs: 0, nanos: 0 }),
            spec: js(r#"{"targetGroup": "example.io"}"#),
            status: None,
        })
        .unwrap();
    let doc = to_value(&build_openapi_spec(&service, &store).unwrap());
    assert_eq!(doc["paths"].as_object().unwrap().len(), 2);
}
