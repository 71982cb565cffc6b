//! Paths of the OpenAPI description: the Schema CRUD paths, always present,
//! and the paths each registered kind adds; and the whole document.

use vstd::prelude::*;
use crate::error::AppError;
use crate::json::{JsonTree, JsonValue};
use crate::jsonbuild::{cat, jarr, jnum, jobj, jstr, jtext, lemma_put_keeps_absent, lemma_put_keeps_key, lemma_put_then_get, pairs_view, tarr, tnum, tobj, tstr};
use crate::keys::{schema_cache_key, spec_schema_cache_key, spec_schema_key};
use crate::openapi::{component_name, schema_resource_key, spec_component_name};
use crate::openapi::components::{build_kind_list_response_component, build_kind_spec_component, build_kind_stored_object_component, build_static_components, kind_list_response_component, kind_spec_component, kind_stored_object_component, static_components};

use crate::schema_data::{SchemaData, SchemaDataView, parse_schema_data};
use crate::service::ObjectService;
use crate::store::{InMemoryStore, opt_ref_str, page_answers};
use crate::text::str_equal;
use crate::types::{ListOptions, ListResponse, ObjectView, StoredObject, object_views};

verus! {

broadcast use vstd::std_specs::vec::group_vec_axioms;

/// The standard `name` path parameter, described by `description`.
pub open spec fn name_param_doc(description: Seq<char>) -> JsonTree {
    tobj()
        .with_text("name"@, "name"@)
        .with_text("in"@, "path"@)
        .with("required"@, JsonTree::Bool(true))
        .with("schema"@, tobj()
            .with_text("type"@, "string"@))
        .with("description"@, tstr(description))
        .with_text("example"@, "my-widget"@)
}

/// The standard `name` path parameter, described by `description`.
fn build_name_param(description: &str) -> (r: JsonValue)
    ensures
        r@ == name_param_doc(description@),
{
    jobj()
        .with_text("name", "name")
        .with_text("in", "path")
        .with("required", JsonValue::Bool(true))
        .with("schema", jobj()
            .with_text("type", "string"))
        .with("description", jtext(String::from_str(description)))
        .with_text("example", "my-widget")
}

/// The standard `namespace` path parameter.
pub open spec fn namespace_param_doc() -> JsonTree {
    tobj()
        .with_text("name"@, "namespace"@)
        .with_text("in"@, "path"@)
        .with("required"@, JsonTree::Bool(true))
        .with("schema"@, tobj()
            .with_text("type"@, "string"@))
        .with_text("description"@, "The namespace of the object"@)
        .with_text("example"@, "production"@)
}

/// The standard `namespace` path parameter.
fn build_namespace_param() -> (r: JsonValue)
    ensures
        r@ == namespace_param_doc(),
{
    jobj()
        .with_text("name", "namespace")
        .with_text("in", "path")
        .with("required", JsonValue::Bool(true))
        .with("schema", jobj()
            .with_text("type", "string"))
        .with_text("description", "The namespace of the object")
        .with_text("example", "production")
}

/// The query parameters of a list operation: `watch`, `fieldSelector` and
/// `labelSelector`.
pub open spec fn list_parameters_doc() -> JsonTree {
    tarr()
        .and(tobj()
            .with_text("name"@, "watch"@)
            .with_text("in"@, "query"@)
            .with("required"@, JsonTree::Bool(false))
            .with("schema"@, tobj()
                .with_text("type"@, "boolean"@))
            .with_text("description"@, "Enable SSE watch stream"@))
        .and(tobj()
            .with_text("name"@, "fieldSelector"@)
            .with_text("in"@, "query"@)
            .with("required"@, JsonTree::Bool(false))
            .with("schema"@, tobj()
                .with_text("type"@, "string"@))
            .with_text("description"@, "Filter results by field selector (e.g., metadata.name=my-obj). On list requests, filters the returned objects. On watch requests, filters the event stream."@))
        .and(tobj()
            .with_text("name"@, "labelSelector"@)
            .with_text("in"@, "query"@)
            .with("required"@, JsonTree::Bool(false))
            .with("schema"@, tobj()
                .with_text("type"@, "string"@))
            .with_text("description"@, "Filter results by label selector. Supports: key=value (equality), key!=value (inequality), key (existence), !key (non-existence), comma-separated (AND). On list requests, filters the returned objects. On watch requests, filters the event stream. When both fieldSelector and labelSelector are present on watch, they are combined with AND semantics."@))
}

/// The query parameters of a list operation: `watch`, `fieldSelector` and
/// `labelSelector`.
fn build_list_parameters() -> (r: JsonValue)
    ensures
        r@ == list_parameters_doc(),
{
    jarr()
        .and(jobj()
            .with_text("name", "watch")
            .with_text("in", "query")
            .with("required", JsonValue::Bool(false))
            .with("schema", jobj()
                .with_text("type", "boolean"))
            .with_text("description", "Enable SSE watch stream"))
        .and(jobj()
            .with_text("name", "fieldSelector")
            .with_text("in", "query")
            .with("required", JsonValue::Bool(false))
            .with("schema", jobj()
                .with_text("type", "string"))
            .with_text("description", "Filter results by field selector (e.g., metadata.name=my-obj). On list requests, filters the returned objects. On watch requests, filters the event stream."))
        .and(jobj()
            .with_text("name", "labelSelector")
            .with_text("in", "query")
            .with("required", JsonValue::Bool(false))
            .with("schema", jobj()
                .with_text("type", "string"))
            .with_text("description", "Filter results by label selector. Supports: key=value (equality), key!=value (inequality), key (existence), !key (non-existence), comma-separated (AND). On list requests, filters the returned objects. On watch requests, filters the event stream. When both fieldSelector and labelSelector are present on watch, they are combined with AND semantics."))
}

/// The request body schema for registering a Schema: `metadata` (labels and
/// annotations; the name is derived) together with the `SchemaData` fields.
pub open spec fn schema_create_request_doc() -> JsonTree {
    tobj()
        .with("allOf"@, tarr()
            .and(tobj()
                .with_text("type"@, "object"@)
                .with("properties"@, tobj()
                    .with("metadata"@, tobj()
                        .with_text("type"@, "object"@)
                        .with("properties"@, tobj()
                            .with("labels"@, tobj()
                                .with_text("type"@, "object"@)
                                .with("additionalProperties"@, tobj()
                                    .with_text("type"@, "string"@))
                                .with_text("description"@, "Key-value labels for organizing and selecting objects"@))
                            .with("annotations"@, tobj()
                                .with_text("type"@, "object"@)
                                .with("additionalProperties"@, tobj()
                                    .with_text("type"@, "string"@))
                                .with_text("description"@, "Arbitrary key-value metadata (non-queryable)"@))))))
            .and(tobj()
                .with_text("$ref"@, "#/components/schemas/SchemaData"@)))
}

/// The request body schema for registering a Schema: `metadata` (labels and
/// annotations; the name is derived) together with the `SchemaData` fields.
pub fn schema_create_request_schema() -> (r: JsonValue)
    ensures
        r@ == schema_create_request_doc(),
{
    jobj()
        .with("allOf", jarr()
            .and(jobj()
                .with_text("type", "object")
                .with("properties", jobj()
                    .with("metadata", jobj()
                        .with_text("type", "object")
                        .with("properties", jobj()
                            .with("labels", jobj()
                                .with_text("type", "object")
                                .with("additionalProperties", jobj()
                                    .with_text("type", "string"))
                                .with_text("description", "Key-value labels for organizing and selecting objects"))
                            .with("annotations", jobj()
                                .with_text("type", "object")
                                .with("additionalProperties", jobj()
                                    .with_text("type", "string"))
                                .with_text("description", "Arbitrary key-value metadata (non-queryable)"))))))
            .and(jobj()
                .with_text("$ref", "#/components/schemas/SchemaData")))
}

/// The request body schema for creating an object of a registered kind:
/// `{ metadata: { name, namespace?, labels?, annotations? }, spec }`, where
/// `spec` is the kind's `specSchema`; no other top-level members.
pub open spec fn create_request_doc(schema_data: SchemaDataView) -> JsonTree {
    tobj()
        .with_text("type"@, "object"@)
        .with("properties"@, tobj()
            .with("metadata"@, tobj()
                .with_text("type"@, "object"@)
                .with("properties"@, tobj()
                    .with("name"@, tobj()
                        .with_text("type"@, "string"@)
                        .with_text("description"@, "Object name, unique within this kind"@))
                    .with("namespace"@, tobj()
                        .with_text("type"@, "string"@)
                        .with_text("description"@, "Optional namespace hint. For namespace-scoped routes, the namespace from the URL takes precedence. For cluster-scoped creates of a namespaced kind, this can be used to specify the namespace."@)
                        .with("nullable"@, JsonTree::Bool(true)))
                    .with("labels"@, tobj()
                        .with_text("type"@, "object"@)
                        .with("additionalProperties"@, tobj()
                            .with_text("type"@, "string"@))
                        .with_text("description"@, "Key-value labels for organizing and selecting objects"@))
                    .with("annotations"@, tobj()
                        .with_text("type"@, "object"@)
                        .with("additionalProperties"@, tobj()
                            .with_text("type"@, "string"@))
                        .with_text("description"@, "Arbitrary key-value metadata (non-queryable)"@)))
                .with("required"@, tarr()
                    .and(tstr("name"@))))
            .with("spec"@, schema_data.spec_schema))
        .with("required"@, tarr()
            .and(tstr("metadata"@))
            .and(tstr("spec"@)))
        .with("additionalProperties"@, JsonTree::Bool(false))
}

/// The request body schema for creating an object of a registered kind:
/// `{ metadata: { name, namespace?, labels?, annotations? }, spec }`, where
/// `spec` is the kind's `specSchema`; no other top-level members.
fn build_create_request_schema(schema_data: &SchemaData) -> (r: JsonValue)
    ensures
        r@ == create_request_doc(schema_data@),
{
    jobj()
        .with_text("type", "object")
        .with("properties", jobj()
            .with("metadata", jobj()
                .with_text("type", "object")
                .with("properties", jobj()
                    .with("name", jobj()
                        .with_text("type", "string")
                        .with_text("description", "Object name, unique within this kind"))
                    .with("namespace", jobj()
                        .with_text("type", "string")
                        .with_text("description", "Optional namespace hint. For namespace-scoped routes, the namespace from the URL takes precedence. For cluster-scoped creates of a namespaced kind, this can be used to specify the namespace.")
                        .with("nullable", JsonValue::Bool(true)))
                    .with("labels", jobj()
                        .with_text("type", "object")
                        .with("additionalProperties", jobj()
                            .with_text("type", "string"))
                        .with_text("description", "Key-value labels for organizing and selecting objects"))
                    .with("annotations", jobj()
                        .with_text("type", "object")
                        .with("additionalProperties", jobj()
                            .with_text("type", "string"))
                        .with_text("description", "Arbitrary key-value metadata (non-queryable)")))
                .with("required", jarr()
                    .and(jstr("name"))))
            .with("spec", schema_data.spec_schema.duplicate()))
        .with("required", jarr()
            .and(jstr("metadata"))
            .and(jstr("spec")))
        .with("additionalProperties", JsonValue::Bool(false))
}

/// The request body schema for updating the status subresource:
/// `{ status }`, where `status` is the kind's `statusSchema`, or any object when
/// the kind has none.
pub open spec fn status_update_request_doc(schema_data: SchemaDataView) -> JsonTree {
    let status_schema = match schema_data.status_schema {
        Some(s) => s,
        None => tobj().with_text("type"@, "object"@),
    };
    tobj()
        .with_text("type"@, "object"@)
        .with("properties"@, tobj()
            .with("status"@, status_schema))
        .with("required"@, tarr()
            .and(tstr("status"@)))
}

/// The request body schema for updating the status subresource:
/// `{ status }`, where `status` is the kind's `statusSchema`, or any object when
/// the kind has none.
fn build_status_update_request_schema(schema_data: &SchemaData) -> (r: JsonValue)
    ensures
        r@ == status_update_request_doc(schema_data@),
{
    let status_schema = match &schema_data.status_schema {
        Some(s) => s.duplicate(),
        None => jobj().with_text("type", "object"),
    };
    jobj()
        .with_text("type", "object")
        .with("properties", jobj()
            .with("status", status_schema))
        .with("required", jarr()
            .and(jstr("status")))
}

/// An example request body for creating an object of a registered kind.
pub open spec fn create_request_example_doc(schema_data: SchemaDataView) -> JsonTree {
    tobj()
        .with("metadata"@, tobj()
            .with_text("name"@, "my-widget"@))
        .with("spec"@, spec_example_doc(schema_data.spec_schema))
}

/// An example request body for creating an object of a registered kind.
fn build_create_request_example(schema_data: &SchemaData) -> (r: JsonValue)
    ensures
        r@ == create_request_example_doc(schema_data@),
{
    jobj()
        .with("metadata", jobj()
            .with_text("name", "my-widget"))
        .with("spec", build_spec_example(&schema_data.spec_schema))
}

/// An example response body holding one object of a registered kind, in
/// `namespace` (null when `None`).
pub open spec fn get_response_example_doc(schema_data: SchemaDataView, namespace: Option<Seq<char>>) -> JsonTree {
    let group = schema_data.group;
    let version = schema_data.version;
    let kind = schema_data.kind;
    let namespace_value = match namespace {
        Some(ns) => tstr(ns),
        None => JsonTree::Null,
    };
    tobj()
        .with("key"@, tobj()
            .with("group"@, tstr(group))
            .with("version"@, tstr(version))
            .with("kind"@, tstr(kind)))
        .with("metadata"@, tobj()
            .with_text("name"@, "my-widget"@)
            .with("namespace"@, namespace_value)
            .with("labels"@, tobj()
                .with_text("app"@, "example"@)
                .with_text("env"@, "production"@))
            .with("annotations"@, tobj()
                .with_text("description"@, "An example widget"@)))
        .with("system"@, tobj()
            .with("resourceVersion"@, tnum("1"@))
            .with("generation"@, tnum("1"@))
            .with_text("createdAt"@, "2024-06-01T00:00:00Z"@)
            .with_text("updatedAt"@, "2024-06-01T00:00:00Z"@))
        .with("spec"@, spec_example_doc(schema_data.spec_schema))
}

/// An example response body holding one object of a registered kind, in
/// `namespace` (null when `None`).
fn build_get_response_example(schema_data: &SchemaData, namespace: Option<&str>) -> (r: JsonValue)
    ensures
        r@ == get_response_example_doc(schema_data@, opt_ref_str(namespace)),
{
    let group = schema_data.target_group.as_str();
    let version = schema_data.target_version.as_str();
    let kind = schema_data.target_kind.as_str();
    let namespace_value = match namespace {
        Some(ns) => jstr(ns),
        None => JsonValue::Null,
    };
    jobj()
        .with("key", jobj()
            .with("group", jtext(String::from_str(group)))
            .with("version", jtext(String::from_str(version)))
            .with("kind", jtext(String::from_str(kind))))
        .with("metadata", jobj()
            .with_text("name", "my-widget")
            .with("namespace", namespace_value)
            .with("labels", jobj()
                .with_text("app", "example")
                .with_text("env", "production"))
            .with("annotations", jobj()
                .with_text("description", "An example widget")))
        .with("system", jobj()
            .with("resourceVersion", jnum("1"))
            .with("generation", jnum("1"))
            .with_text("createdAt", "2024-06-01T00:00:00Z")
            .with_text("updatedAt", "2024-06-01T00:00:00Z"))
        .with("spec", build_spec_example(&schema_data.spec_schema))
}

/// An example list response for a registered kind: two objects in
/// different namespaces when `cross_namespace`, else one object.
pub open spec fn list_response_example_doc(schema_data: SchemaDataView, cross_namespace: bool) -> JsonTree {
    let group = schema_data.group;
    let version = schema_data.version;
    let kind = schema_data.kind;
    let example_spec = spec_example_doc(schema_data.spec_schema);
    if cross_namespace {
        tobj()
            .with("items"@, tarr()
                .and(tobj()
                    .with("key"@, tobj()
                        .with("group"@, tstr(group))
                        .with("version"@, tstr(version))
                        .with("kind"@, tstr(kind)))
                    .with("metadata"@, tobj()
                        .with_text("name"@, "widget-prod"@)
                        .with_text("namespace"@, "production"@)
                        .with("labels"@, tobj())
                        .with("annotations"@, tobj()))
                    .with("system"@, tobj()
                        .with("resourceVersion"@, tnum("1"@))
                        .with("generation"@, tnum("1"@))
                        .with_text("createdAt"@, "2024-06-01T00:00:00Z"@)
                        .with_text("updatedAt"@, "2024-06-01T00:00:00Z"@))
                    .with("spec"@, example_spec))
                .and(tobj()
                    .with("key"@, tobj()
                        .with("group"@, tstr(group))
                        .with("version"@, tstr(version))
                        .with("kind"@, tstr(kind)))
                    .with("metadata"@, tobj()
                        .with_text("name"@, "widget-staging"@)
                        .with_text("namespace"@, "staging"@)
                        .with("labels"@, tobj())
                        .with("annotations"@, tobj()))
                    .with("system"@, tobj()
                        .with("resourceVersion"@, tnum("1"@))
                        .with("generation"@, tnum("1"@))
                        .with_text("createdAt"@, "2024-06-01T00:00:00Z"@)
                        .with_text("updatedAt"@, "2024-06-01T00:00:00Z"@))
                    .with("spec"@, example_spec)))
            .with("continueToken"@, JsonTree::Null)
    } else {
        tobj()
            .with("items"@, tarr()
                .and(tobj()
                    .with("key"@, tobj()
                        .with("group"@, tstr(group))
                        .with("version"@, tstr(version))
                        .with("kind"@, tstr(kind)))
                    .with("metadata"@, tobj()
                        .with_text("name"@, "my-widget"@)
                        .with_text("namespace"@, "production"@)
                        .with("labels"@, tobj())
                        .with("annotations"@, tobj()))
                    .with("system"@, tobj()
                        .with("resourceVersion"@, tnum("1"@))
                        .with("generation"@, tnum("1"@))
                        .with_text("createdAt"@, "2024-06-01T00:00:00Z"@)
                        .with_text("updatedAt"@, "2024-06-01T00:00:00Z"@))
                    .with("spec"@, example_spec)))
            .with("continueToken"@, JsonTree::Null)
    }
}

/// An example list response for a registered kind: two objects in
/// different namespaces when `cross_namespace`, else one object.
fn build_list_response_example(schema_data: &SchemaData, cross_namespace: bool) -> (r: JsonValue)
    ensures
        r@ == list_response_example_doc(schema_data@, cross_namespace),
{
    let group = schema_data.target_group.as_str();
    let version = schema_data.target_version.as_str();
    let kind = schema_data.target_kind.as_str();
    let example_spec = build_spec_example(&schema_data.spec_schema);
    if cross_namespace {
        jobj()
            .with("items", jarr()
                .and(jobj()
                    .with("key", jobj()
                        .with("group", jtext(String::from_str(group)))
                        .with("version", jtext(String::from_str(version)))
                        .with("kind", jtext(String::from_str(kind))))
                    .with("metadata", jobj()
                        .with_text("name", "widget-prod")
                        .with_text("namespace", "production")
                        .with("labels", jobj())
                        .with("annotations", jobj()))
                    .with("system", jobj()
                        .with("resourceVersion", jnum("1"))
                        .with("generation", jnum("1"))
                        .with_text("createdAt", "2024-06-01T00:00:00Z")
                        .with_text("updatedAt", "2024-06-01T00:00:00Z"))
                    .with("spec", example_spec.duplicate()))
                .and(jobj()
                    .with("key", jobj()
                        .with("group", jtext(String::from_str(group)))
                        .with("version", jtext(String::from_str(version)))
                        .with("kind", jtext(String::from_str(kind))))
                    .with("metadata", jobj()
                        .with_text("name", "widget-staging")
                        .with_text("namespace", "staging")
                        .with("labels", jobj())
                        .with("annotations", jobj()))
                    .with("system", jobj()
                        .with("resourceVersion", jnum("1"))
                        .with("generation", jnum("1"))
                        .with_text("createdAt", "2024-06-01T00:00:00Z")
                        .with_text("updatedAt", "2024-06-01T00:00:00Z"))
                    .with("spec", example_spec.duplicate())))
            .with("continueToken", JsonValue::Null)
    } else {
        jobj()
            .with("items", jarr()
                .and(jobj()
                    .with("key", jobj()
                        .with("group", jtext(String::from_str(group)))
                        .with("version", jtext(String::from_str(version)))
                        .with("kind", jtext(String::from_str(kind))))
                    .with("metadata", jobj()
                        .with_text("name", "my-widget")
                        .with_text("namespace", "production")
                        .with("labels", jobj())
                        .with("annotations", jobj()))
                    .with("system", jobj()
                        .with("resourceVersion", jnum("1"))
                        .with("generation", jnum("1"))
                        .with_text("createdAt", "2024-06-01T00:00:00Z")
                        .with_text("updatedAt", "2024-06-01T00:00:00Z"))
                    .with("spec", example_spec.duplicate())))
            .with("continueToken", JsonValue::Null)
    }
}

/// The collection path of Schema objects: list (GET) and register (POST).
pub open spec fn schema_collection_path_doc() -> JsonTree {
    let error_ref = tobj().with_text("$ref"@, "#/components/schemas/AppError"@);
    let stored_object_ref = tobj().with_text("$ref"@, "#/components/schemas/StoredObject"@);
    let list_response_ref = tobj().with_text("$ref"@, "#/components/schemas/ListResponse"@);
    tobj()
        .with("get"@, tobj()
            .with_text("summary"@, "List all registered Schema objects"@)
            .with_text("description"@, "Schema objects define the API surface. Each Schema registers a new kind (group/version/kind) and provides a JSON Schema for validating objects of that kind. Schemas are cluster-scoped resources."@)
            .with_text("operationId"@, "listSchemas"@)
            .with("parameters"@, tarr()
                .and(tobj()
                    .with_text("name"@, "fieldSelector"@)
                    .with_text("in"@, "query"@)
                    .with("required"@, JsonTree::Bool(false))
                    .with("schema"@, tobj()
                        .with_text("type"@, "string"@))
                    .with_text("description"@, "Filter results by field selector (e.g., metadata.name=my-obj). On list requests, filters the returned objects. On watch requests, filters the event stream."@))
                .and(tobj()
                    .with_text("name"@, "labelSelector"@)
                    .with_text("in"@, "query"@)
                    .with("required"@, JsonTree::Bool(false))
                    .with("schema"@, tobj()
                        .with_text("type"@, "string"@))
                    .with_text("description"@, "Filter results by label selector. Supports: key=value (equality), key!=value (inequality), key (existence), !key (non-existence), comma-separated (AND). On list requests, filters the returned objects. On watch requests, filters the event stream. When both fieldSelector and labelSelector are present on watch, they are combined with AND semantics."@)))
            .with("responses"@, tobj()
                .with("200"@, tobj()
                    .with_text("description"@, "A list of Schema objects"@)
                    .with("content"@, tobj()
                        .with("application/json"@, tobj()
                            .with("schema"@, list_response_ref)
                            .with("example"@, tobj()
                                .with("items"@, tarr()
                                    .and(tobj()
                                        .with("key"@, tobj()
                                            .with_text("group"@, "kapi.io"@)
                                            .with_text("version"@, "v1"@)
                                            .with_text("kind"@, "Schema"@))
                                        .with("metadata"@, tobj()
                                            .with_text("name"@, "Widget.example.io.v1"@)
                                            .with("labels"@, tobj())
                                            .with("annotations"@, tobj()))
                                        .with("system"@, tobj()
                                            .with("resourceVersion"@, tnum("1"@))
                                            .with("generation"@, tnum("1"@))
                                            .with_text("createdAt"@, "2024-06-01T00:00:00Z"@)
                                            .with_text("updatedAt"@, "2024-06-01T00:00:00Z"@))
                                        .with("spec"@, tobj()
                                            .with_text("targetGroup"@, "example.io"@)
                                            .with_text("targetVersion"@, "v1"@)
                                            .with_text("targetKind"@, "Widget"@)
                                            .with_text("scope"@, "Namespaced"@)
                                            .with("specSchema"@, tobj()
                                                .with_text("type"@, "object"@)
                                                .with("properties"@, tobj()
                                                    .with("color"@, tobj()
                                                        .with_text("type"@, "string"@))
                                                    .with("size"@, tobj()
                                                        .with_text("type"@, "integer"@)))))))
                                .with("continueToken"@, JsonTree::Null)))))))
        .with("post"@, tobj()
            .with_text("summary"@, "Register a new Schema"@)
            .with_text("description"@, "Register a new API kind by providing target group, version, kind, and a JSON Schema for validating the spec. The schema name is auto-generated as `{targetKind}.{targetGroup}.{targetVersion}`."@)
            .with_text("operationId"@, "createSchema"@)
            .with("parameters"@, tarr())
            .with("requestBody"@, tobj()
                .with("required"@, JsonTree::Bool(true))
                .with("content"@, tobj()
                    .with("application/json"@, tobj()
                        .with("schema"@, schema_create_request_doc())
                        .with("example"@, tobj()
                            .with("metadata"@, tobj()
                                .with("labels"@, tobj()
                                    .with_text("team"@, "backend"@)))
                            .with_text("targetGroup"@, "example.io"@)
                            .with_text("targetVersion"@, "v1"@)
                            .with_text("targetKind"@, "Widget"@)
                            .with_text("scope"@, "Namespaced"@)
                            .with("specSchema"@, tobj()
                                .with_text("type"@, "object"@)
                                .with("properties"@, tobj()
                                    .with("color"@, tobj()
                                        .with_text("type"@, "string"@))
                                    .with("size"@, tobj()
                                        .with_text("type"@, "integer"@))))))))
            .with("responses"@, tobj()
                .with("201"@, tobj()
                    .with_text("description"@, "Schema created successfully"@)
                    .with("content"@, tobj()
                        .with("application/json"@, tobj()
                            .with("schema"@, stored_object_ref)
                            .with("example"@, tobj()
                                .with("key"@, tobj()
                                    .with_text("group"@, "kapi.io"@)
                                    .with_text("version"@, "v1"@)
                                    .with_text("kind"@, "Schema"@))
                                .with("metadata"@, tobj()
                                    .with_text("name"@, "Widget.example.io.v1"@)
                                    .with("labels"@, tobj())
                                    .with("annotations"@, tobj()))
                                .with("system"@, tobj()
                                    .with("resourceVersion"@, tnum("1"@))
                                    .with("generation"@, tnum("1"@))
                                    .with_text("createdAt"@, "2024-06-01T00:00:00Z"@)
                                    .with_text("updatedAt"@, "2024-06-01T00:00:00Z"@))
                                .with("spec"@, tobj()
                                    .with_text("targetGroup"@, "example.io"@)
                                    .with_text("targetVersion"@, "v1"@)
                                    .with_text("targetKind"@, "Widget"@)
                                    .with_text("scope"@, "Namespaced"@)
                                    .with("specSchema"@, tobj()
                                        .with_text("type"@, "object"@)
                                        .with("properties"@, tobj()
                                            .with("color"@, tobj()
                                                .with_text("type"@, "string"@))
                                            .with("size"@, tobj()
                                                .with_text("type"@, "integer"@)))))))))
                .with("404"@, tobj()
                    .with_text("description"@, "Not found"@)
                    .with("content"@, tobj()
                        .with("application/json"@, tobj()
                            .with("schema"@, error_ref))))
                .with("409"@, tobj()
                    .with_text("description"@, "AlreadyExists — duplicate schema"@)
                    .with("content"@, tobj()
                        .with("application/json"@, tobj()
                            .with("schema"@, error_ref))))
                .with("422"@, tobj()
                    .with_text("description"@, "Invalid schema — meta-schema validation failure"@)
                    .with("content"@, tobj()
                        .with("application/json"@, tobj()
                            .with("schema"@, error_ref))))))
}

/// The collection path of Schema objects: list (GET) and register (POST).
fn schema_collection_path() -> (r: JsonValue)
    ensures
        r@ == schema_collection_path_doc(),
{
    let error_ref = jobj().with_text("$ref", "#/components/schemas/AppError");
    let stored_object_ref = jobj().with_text("$ref", "#/components/schemas/StoredObject");
    let list_response_ref = jobj().with_text("$ref", "#/components/schemas/ListResponse");
    jobj()
        .with("get", jobj()
            .with_text("summary", "List all registered Schema objects")
            .with_text("description", "Schema objects define the API surface. Each Schema registers a new kind (group/version/kind) and provides a JSON Schema for validating objects of that kind. Schemas are cluster-scoped resources.")
            .with_text("operationId", "listSchemas")
            .with("parameters", jarr()
                .and(jobj()
                    .with_text("name", "fieldSelector")
                    .with_text("in", "query")
                    .with("required", JsonValue::Bool(false))
                    .with("schema", jobj()
                        .with_text("type", "string"))
                    .with_text("description", "Filter results by field selector (e.g., metadata.name=my-obj). On list requests, filters the returned objects. On watch requests, filters the event stream."))
                .and(jobj()
                    .with_text("name", "labelSelector")
                    .with_text("in", "query")
                    .with("required", JsonValue::Bool(false))
                    .with("schema", jobj()
                        .with_text("type", "string"))
                    .with_text("description", "Filter results by label selector. Supports: key=value (equality), key!=value (inequality), key (existence), !key (non-existence), comma-separated (AND). On list requests, filters the returned objects. On watch requests, filters the event stream. When both fieldSelector and labelSelector are present on watch, they are combined with AND semantics.")))
            .with("responses", jobj()
                .with("200", jobj()
                    .with_text("description", "A list of Schema objects")
                    .with("content", jobj()
                        .with("application/json", jobj()
                            .with("schema", list_response_ref.duplicate())
                            .with("example", jobj()
                                .with("items", jarr()
                                    .and(jobj()
                                        .with("key", jobj()
                                            .with_text("group", "kapi.io")
                                            .with_text("version", "v1")
                                            .with_text("kind", "Schema"))
                                        .with("metadata", jobj()
                                            .with_text("name", "Widget.example.io.v1")
                                            .with("labels", jobj())
                                            .with("annotations", jobj()))
                                        .with("system", jobj()
                                            .with("resourceVersion", jnum("1"))
                                            .with("generation", jnum("1"))
                                            .with_text("createdAt", "2024-06-01T00:00:00Z")
                                            .with_text("updatedAt", "2024-06-01T00:00:00Z"))
                                        .with("spec", jobj()
                                            .with_text("targetGroup", "example.io")
                                            .with_text("targetVersion", "v1")
                                            .with_text("targetKind", "Widget")
                                            .with_text("scope", "Namespaced")
                                            .with("specSchema", jobj()
                                                .with_text("type", "object")
                                                .with("properties", jobj()
                                                    .with("color", jobj()
                                                        .with_text("type", "string"))
                                                    .with("size", jobj()
                                                        .with_text("type", "integer")))))))
                                .with("continueToken", JsonValue::Null)))))))
        .with("post", jobj()
            .with_text("summary", "Register a new Schema")
            .with_text("description", "Register a new API kind by providing target group, version, kind, and a JSON Schema for validating the spec. The schema name is auto-generated as `{targetKind}.{targetGroup}.{targetVersion}`.")
            .with_text("operationId", "createSchema")
            .with("parameters", jarr())
            .with("requestBody", jobj()
                .with("required", JsonValue::Bool(true))
                .with("content", jobj()
                    .with("application/json", jobj()
                        .with("schema", schema_create_request_schema())
                        .with("example", jobj()
                            .with("metadata", jobj()
                                .with("labels", jobj()
                                    .with_text("team", "backend")))
                            .with_text("targetGroup", "example.io")
                            .with_text("targetVersion", "v1")
                            .with_text("targetKind", "Widget")
                            .with_text("scope", "Namespaced")
                            .with("specSchema", jobj()
                                .with_text("type", "object")
                                .with("properties", jobj()
                                    .with("color", jobj()
                                        .with_text("type", "string"))
                                    .with("size", jobj()
                                        .with_text("type", "integer"))))))))
            .with("responses", jobj()
                .with("201", jobj()
                    .with_text("description", "Schema created successfully")
                    .with("content", jobj()
                        .with("application/json", jobj()
                            .with("schema", stored_object_ref.duplicate())
                            .with("example", jobj()
                                .with("key", jobj()
                                    .with_text("group", "kapi.io")
                                    .with_text("version", "v1")
                                    .with_text("kind", "Schema"))
                                .with("metadata", jobj()
                                    .with_text("name", "Widget.example.io.v1")
                                    .with("labels", jobj())
                                    .with("annotations", jobj()))
                                .with("system", jobj()
                                    .with("resourceVersion", jnum("1"))
                                    .with("generation", jnum("1"))
                                    .with_text("createdAt", "2024-06-01T00:00:00Z")
                                    .with_text("updatedAt", "2024-06-01T00:00:00Z"))
                                .with("spec", jobj()
                                    .with_text("targetGroup", "example.io")
                                    .with_text("targetVersion", "v1")
                                    .with_text("targetKind", "Widget")
                                    .with_text("scope", "Namespaced")
                                    .with("specSchema", jobj()
                                        .with_text("type", "object")
                                        .with("properties", jobj()
                                            .with("color", jobj()
                                                .with_text("type", "string"))
                                            .with("size", jobj()
                                                .with_text("type", "integer")))))))))
                .with("404", jobj()
                    .with_text("description", "Not found")
                    .with("content", jobj()
                        .with("application/json", jobj()
                            .with("schema", error_ref.duplicate()))))
                .with("409", jobj()
                    .with_text("description", "AlreadyExists — duplicate schema")
                    .with("content", jobj()
                        .with("application/json", jobj()
                            .with("schema", error_ref.duplicate()))))
                .with("422", jobj()
                    .with_text("description", "Invalid schema — meta-schema validation failure")
                    .with("content", jobj()
                        .with("application/json", jobj()
                            .with("schema", error_ref.duplicate()))))))
}

/// The item path of a Schema object: get (GET) and delete (DELETE).
pub open spec fn schema_item_path_doc() -> JsonTree {
    let error_ref = tobj().with_text("$ref"@, "#/components/schemas/AppError"@);
    let stored_object_ref = tobj().with_text("$ref"@, "#/components/schemas/StoredObject"@);
    tobj()
        .with("get"@, tobj()
            .with_text("summary"@, "Get a Schema by name"@)
            .with_text("operationId"@, "getSchema"@)
            .with("parameters"@, tarr()
                .and(tobj()
                    .with_text("name"@, "name"@)
                    .with_text("in"@, "path"@)
                    .with("required"@, JsonTree::Bool(true))
                    .with("schema"@, tobj()
                        .with_text("type"@, "string"@))
                    .with_text("description"@, "The schema name (e.g. Widget.example.io.v1)"@)
                    .with_text("example"@, "Widget.example.io.v1"@)))
            .with("responses"@, tobj()
                .with("200"@, tobj()
                    .with_text("description"@, "The Schema object"@)
                    .with("content"@, tobj()
                        .with("application/json"@, tobj()
                            .with("schema"@, stored_object_ref)
                            .with("example"@, tobj()
                                .with("key"@, tobj()
                                    .with_text("group"@, "kapi.io"@)
                                    .with_text("version"@, "v1"@)
                                    .with_text("kind"@, "Schema"@))
                                .with("metadata"@, tobj()
                                    .with_text("name"@, "Widget.example.io.v1"@)
                                    .with("labels"@, tobj())
                                    .with("annotations"@, tobj()))
                                .with("system"@, tobj()
                                    .with("resourceVersion"@, tnum("1"@))
                                    .with("generation"@, tnum("1"@))
                                    .with_text("createdAt"@, "2024-06-01T00:00:00Z"@)
                                    .with_text("updatedAt"@, "2024-06-01T00:00:00Z"@))
                                .with("spec"@, tobj()
                                    .with_text("targetGroup"@, "example.io"@)
                                    .with_text("targetVersion"@, "v1"@)
                                    .with_text("targetKind"@, "Widget"@)
                                    .with_text("scope"@, "Namespaced"@)
                                    .with("specSchema"@, tobj()
                                        .with_text("type"@, "object"@)
                                        .with("properties"@, tobj()
                                            .with("color"@, tobj()
                                                .with_text("type"@, "string"@))
                                            .with("size"@, tobj()
                                                .with_text("type"@, "integer"@)))))))))
                .with("404"@, tobj()
                    .with_text("description"@, "Schema not found"@)
                    .with("content"@, tobj()
                        .with("application/json"@, tobj()
                            .with("schema"@, error_ref))))))
        .with("delete"@, tobj()
            .with_text("summary"@, "Delete a Schema by name"@)
            .with_text("operationId"@, "deleteSchema"@)
            .with("parameters"@, tarr()
                .and(tobj()
                    .with_text("name"@, "name"@)
                    .with_text("in"@, "path"@)
                    .with("required"@, JsonTree::Bool(true))
                    .with("schema"@, tobj()
                        .with_text("type"@, "string"@))
                    .with_text("description"@, "The schema name (e.g. Widget.example.io.v1)"@)
                    .with_text("example"@, "Widget.example.io.v1"@)))
            .with("responses"@, tobj()
                .with("200"@, tobj()
                    .with_text("description"@, "Schema deleted successfully"@)
                    .with("content"@, tobj()
                        .with("application/json"@, tobj()
                            .with("schema"@, stored_object_ref))))
                .with("404"@, tobj()
                    .with_text("description"@, "Schema not found"@)
                    .with("content"@, tobj()
                        .with("application/json"@, tobj()
                            .with("schema"@, error_ref))))
                .with("409"@, tobj()
                    .with_text("description"@, "Conflict — schema has existing objects of the target kind"@)
                    .with("content"@, tobj()
                        .with("application/json"@, tobj()
                            .with("schema"@, error_ref))))))
}

/// The item path of a Schema object: get (GET) and delete (DELETE).
fn schema_item_path() -> (r: JsonValue)
    ensures
        r@ == schema_item_path_doc(),
{
    let error_ref = jobj().with_text("$ref", "#/components/schemas/AppError");
    let stored_object_ref = jobj().with_text("$ref", "#/components/schemas/StoredObject");
    jobj()
        .with("get", jobj()
            .with_text("summary", "Get a Schema by name")
            .with_text("operationId", "getSchema")
            .with("parameters", jarr()
                .and(jobj()
                    .with_text("name", "name")
                    .with_text("in", "path")
                    .with("required", JsonValue::Bool(true))
                    .with("schema", jobj()
                        .with_text("type", "string"))
                    .with_text("description", "The schema name (e.g. Widget.example.io.v1)")
                    .with_text("example", "Widget.example.io.v1")))
            .with("responses", jobj()
                .with("200", jobj()
                    .with_text("description", "The Schema object")
                    .with("content", jobj()
                        .with("application/json", jobj()
                            .with("schema", stored_object_ref.duplicate())
                            .with("example", jobj()
                                .with("key", jobj()
                                    .with_text("group", "kapi.io")
                                    .with_text("version", "v1")
                                    .with_text("kind", "Schema"))
                                .with("metadata", jobj()
                                    .with_text("name", "Widget.example.io.v1")
                                    .with("labels", jobj())
                                    .with("annotations", jobj()))
                                .with("system", jobj()
                                    .with("resourceVersion", jnum("1"))
                                    .with("generation", jnum("1"))
                                    .with_text("createdAt", "2024-06-01T00:00:00Z")
                                    .with_text("updatedAt", "2024-06-01T00:00:00Z"))
                                .with("spec", jobj()
                                    .with_text("targetGroup", "example.io")
                                    .with_text("targetVersion", "v1")
                                    .with_text("targetKind", "Widget")
                                    .with_text("scope", "Namespaced")
                                    .with("specSchema", jobj()
                                        .with_text("type", "object")
                                        .with("properties", jobj()
                                            .with("color", jobj()
                                                .with_text("type", "string"))
                                            .with("size", jobj()
                                                .with_text("type", "integer")))))))))
                .with("404", jobj()
                    .with_text("description", "Schema not found")
                    .with("content", jobj()
                        .with("application/json", jobj()
                            .with("schema", error_ref.duplicate()))))))
        .with("delete", jobj()
            .with_text("summary", "Delete a Schema by name")
            .with_text("operationId", "deleteSchema")
            .with("parameters", jarr()
                .and(jobj()
                    .with_text("name", "name")
                    .with_text("in", "path")
                    .with("required", JsonValue::Bool(true))
                    .with("schema", jobj()
                        .with_text("type", "string"))
                    .with_text("description", "The schema name (e.g. Widget.example.io.v1)")
                    .with_text("example", "Widget.example.io.v1")))
            .with("responses", jobj()
                .with("200", jobj()
                    .with_text("description", "Schema deleted successfully")
                    .with("content", jobj()
                        .with("application/json", jobj()
                            .with("schema", stored_object_ref.duplicate()))))
                .with("404", jobj()
                    .with_text("description", "Schema not found")
                    .with("content", jobj()
                        .with("application/json", jobj()
                            .with("schema", error_ref.duplicate()))))
                .with("409", jobj()
                    .with_text("description", "Conflict — schema has existing objects of the target kind")
                    .with("content", jobj()
                        .with("application/json", jobj()
                            .with("schema", error_ref.duplicate()))))))
}

/// The collection path of a registered kind across namespaces: list (GET)
/// and create (POST).
pub open spec fn kind_collection_path_doc(schema_data: SchemaDataView, comp_name: Seq<char>) -> JsonTree {
    let group = schema_data.group;
    let version = schema_data.version;
    let kind = schema_data.kind;
    let is_namespaced = schema_data.scope == "Namespaced"@;
    let stored_ref = tobj().with("$ref"@, tstr("#/components/schemas/"@ + comp_name + "StoredObject"@));
    let list_ref = tobj().with("$ref"@, tstr("#/components/schemas/"@ + comp_name + "ListResponse"@));
    let error_ref = tobj().with_text("$ref"@, "#/components/schemas/AppError"@);
    tobj()
        .with("get"@, tobj()
            .with("summary"@, if is_namespaced {
                tstr("List "@ + kind + " objects (cross-namespace)"@)
            } else {
                tstr("List "@ + kind + " objects"@)
            })
            .with("description"@, if is_namespaced {
                tstr("Cross-namespace list of "@ + kind + " objects. Returns objects from all namespaces that the user has access to. Each object includes its `metadata.namespace` field indicating which namespace it belongs to."@)
            } else {
                tstr("List all "@ + kind + " objects."@)
            })
            .with("operationId"@, tstr("list"@ + comp_name))
            .with("parameters"@, list_parameters_doc())
            .with("responses"@, tobj()
                .with("200"@, tobj()
                    .with("description"@, tstr("A list of "@ + kind + " objects"@))
                    .with("content"@, tobj()
                        .with("application/json"@, tobj()
                            .with("schema"@, list_ref)
                            .with("example"@, if is_namespaced {
                                list_response_example_doc(schema_data, true)
                            } else {
                                JsonTree::Null
                            }))))
                .with("400"@, tobj()
                    .with_text("description"@, "Invalid field selector — unsupported field or malformed syntax. Invalid label selector — malformed syntax."@)
                    .with("content"@, tobj()
                        .with("application/json"@, tobj()
                            .with("schema"@, error_ref))))))
        .with("post"@, tobj()
            .with("summary"@, tstr("Create a new "@ + kind + " object (cluster-scoped)"@))
            .with("description"@, if is_namespaced {
                tstr("Create a "@ + kind + " object. For namespaced kinds, the namespace is taken from `metadata.namespace` in the request body. Alternatively, use the namespace-scoped POST endpoint at `/apis/"@ + group + "/"@ + version + "/namespaces/{namespace}/"@ + kind + "`."@)
            } else {
                tstr("Create a new "@ + kind + " object."@)
            })
            .with("operationId"@, tstr("create"@ + comp_name))
            .with("requestBody"@, tobj()
                .with("required"@, JsonTree::Bool(true))
                .with("content"@, tobj()
                    .with("application/json"@, tobj()
                        .with("schema"@, create_request_doc(schema_data))
                        .with("example"@, create_request_example_doc(schema_data)))))
            .with("responses"@, tobj()
                .with("201"@, tobj()
                    .with("description"@, tstr(kind + " object created"@))
                    .with("content"@, tobj()
                        .with("application/json"@, tobj()
                            .with("schema"@, stored_ref)
                            .with("example"@, get_response_example_doc(schema_data, None)))))
                .with("400"@, tobj()
                    .with_text("description"@, "Bad request — missing required fields or validation failure"@)
                    .with("content"@, tobj()
                        .with("application/json"@, tobj()
                            .with("schema"@, error_ref))))
                .with("404"@, tobj()
                    .with_text("description"@, "Schema not found for this kind"@)
                    .with("content"@, tobj()
                        .with("application/json"@, tobj()
                            .with("schema"@, error_ref))))
                .with("409"@, tobj()
                    .with_text("description"@, "AlreadyExists — object with same name already exists"@)
                    .with("content"@, tobj()
                        .with("application/json"@, tobj()
                            .with("schema"@, error_ref))))
                .with("422"@, tobj()
                    .with_text("description"@, "Schema validation failed"@)
                    .with("content"@, tobj()
                        .with("application/json"@, tobj()
                            .with("schema"@, error_ref))))))
}

/// The collection path of a registered kind across namespaces: list (GET)
/// and create (POST).
fn kind_collection_path(schema_data: &SchemaData, comp_name: &str) -> (r: JsonValue)
    ensures
        r@ == kind_collection_path_doc(schema_data@, comp_name@),
{
    let group = schema_data.target_group.as_str();
    let version = schema_data.target_version.as_str();
    let kind = schema_data.target_kind.as_str();
    let is_namespaced = str_equal(schema_data.scope.as_str(), "Namespaced");
    let stored_ref = jobj().with("$ref", jtext(cat(cat("#/components/schemas/", comp_name).as_str(), "StoredObject")));
    let list_ref = jobj().with("$ref", jtext(cat(cat("#/components/schemas/", comp_name).as_str(), "ListResponse")));
    let error_ref = jobj().with_text("$ref", "#/components/schemas/AppError");
    jobj()
        .with("get", jobj()
            .with("summary", if is_namespaced {
                jtext(cat(cat("List ", kind).as_str(), " objects (cross-namespace)"))
            } else {
                jtext(cat(cat("List ", kind).as_str(), " objects"))
            })
            .with("description", if is_namespaced {
                jtext(cat(cat("Cross-namespace list of ", kind).as_str(), " objects. Returns objects from all namespaces that the user has access to. Each object includes its `metadata.namespace` field indicating which namespace it belongs to."))
            } else {
                jtext(cat(cat("List all ", kind).as_str(), " objects."))
            })
            .with("operationId", jtext(cat("list", comp_name)))
            .with("parameters", build_list_parameters())
            .with("responses", jobj()
                .with("200", jobj()
                    .with("description", jtext(cat(cat("A list of ", kind).as_str(), " objects")))
                    .with("content", jobj()
                        .with("application/json", jobj()
                            .with("schema", list_ref.duplicate())
                            .with("example", if is_namespaced {
                                build_list_response_example(schema_data, true)
                            } else {
                                JsonValue::Null
                            }))))
                .with("400", jobj()
                    .with_text("description", "Invalid field selector — unsupported field or malformed syntax. Invalid label selector — malformed syntax.")
                    .with("content", jobj()
                        .with("application/json", jobj()
                            .with("schema", error_ref.duplicate()))))))
        .with("post", jobj()
            .with("summary", jtext(cat(cat("Create a new ", kind).as_str(), " object (cluster-scoped)")))
            .with("description", if is_namespaced {
                jtext(cat(cat(cat(cat(cat(cat(cat(cat("Create a ", kind).as_str(), " object. For namespaced kinds, the namespace is taken from `metadata.namespace` in the request body. Alternatively, use the namespace-scoped POST endpoint at `/apis/").as_str(), group).as_str(), "/").as_str(), version).as_str(), "/namespaces/{namespace}/").as_str(), kind).as_str(), "`."))
            } else {
                jtext(cat(cat("Create a new ", kind).as_str(), " object."))
            })
            .with("operationId", jtext(cat("create", comp_name)))
            .with("requestBody", jobj()
                .with("required", JsonValue::Bool(true))
                .with("content", jobj()
                    .with("application/json", jobj()
                        .with("schema", build_create_request_schema(schema_data))
                        .with("example", build_create_request_example(schema_data)))))
            .with("responses", jobj()
                .with("201", jobj()
                    .with("description", jtext(cat(kind, " object created")))
                    .with("content", jobj()
                        .with("application/json", jobj()
                            .with("schema", stored_ref.duplicate())
                            .with("example", build_get_response_example(schema_data, None)))))
                .with("400", jobj()
                    .with_text("description", "Bad request — missing required fields or validation failure")
                    .with("content", jobj()
                        .with("application/json", jobj()
                            .with("schema", error_ref.duplicate()))))
                .with("404", jobj()
                    .with_text("description", "Schema not found for this kind")
                    .with("content", jobj()
                        .with("application/json", jobj()
                            .with("schema", error_ref.duplicate()))))
                .with("409", jobj()
                    .with_text("description", "AlreadyExists — object with same name already exists")
                    .with("content", jobj()
                        .with("application/json", jobj()
                            .with("schema", error_ref.duplicate()))))
                .with("422", jobj()
                    .with_text("description", "Schema validation failed")
                    .with("content", jobj()
                        .with("application/json", jobj()
                            .with("schema", error_ref.duplicate()))))))
}

/// The item path of a registered kind: get (GET), update (PUT) and delete
/// (DELETE) by name.
pub open spec fn kind_item_path_doc(schema_data: SchemaDataView, comp_name: Seq<char>) -> JsonTree {
    let kind = schema_data.kind;
    let stored_ref = tobj().with("$ref"@, tstr("#/components/schemas/"@ + comp_name + "StoredObject"@));
    let error_ref = tobj().with_text("$ref"@, "#/components/schemas/AppError"@);
    let name_param = name_param_doc("The object name"@);
    tobj()
        .with("get"@, tobj()
            .with("summary"@, tstr("Get a "@ + kind + " object by name"@))
            .with("operationId"@, tstr("get"@ + comp_name))
            .with("parameters"@, tarr()
                .and(name_param))
            .with("responses"@, tobj()
                .with("200"@, tobj()
                    .with("description"@, tstr("The "@ + kind + " object"@))
                    .with("content"@, tobj()
                        .with("application/json"@, tobj()
                            .with("schema"@, stored_ref)
                            .with("example"@, get_response_example_doc(schema_data, None)))))
                .with("404"@, tobj()
                    .with("description"@, tstr(kind + " object not found"@))
                    .with("content"@, tobj()
                        .with("application/json"@, tobj()
                            .with("schema"@, error_ref))))))
        .with("put"@, tobj()
            .with("summary"@, tstr("Update a "@ + kind + " object"@))
            .with("operationId"@, tstr("update"@ + comp_name))
            .with("parameters"@, tarr()
                .and(name_param))
            .with("requestBody"@, tobj()
                .with("required"@, JsonTree::Bool(true))
                .with("content"@, tobj()
                    .with("application/json"@, tobj()
                        .with("schema"@, stored_ref)
                        .with("example"@, get_response_example_doc(schema_data, None)))))
            .with("responses"@, tobj()
                .with("200"@, tobj()
                    .with("description"@, tstr(kind + " object updated"@))
                    .with("content"@, tobj()
                        .with("application/json"@, tobj()
                            .with("schema"@, stored_ref))))
                .with("404"@, tobj()
                    .with("description"@, tstr(kind + " object not found"@))
                    .with("content"@, tobj()
                        .with("application/json"@, tobj()
                            .with("schema"@, error_ref))))
                .with("409"@, tobj()
                    .with_text("description"@, "Conflict — version mismatch"@)
                    .with("content"@, tobj()
                        .with("application/json"@, tobj()
                            .with("schema"@, error_ref))))
                .with("422"@, tobj()
                    .with_text("description"@, "Schema validation failed"@)
                    .with("content"@, tobj()
                        .with("application/json"@, tobj()
                            .with("schema"@, error_ref))))))
        .with("delete"@, tobj()
            .with("summary"@, tstr("Delete a "@ + kind + " object"@))
            .with("operationId"@, tstr("delete"@ + comp_name))
            .with("parameters"@, tarr()
                .and(name_param))
            .with("responses"@, tobj()
                .with("200"@, tobj()
                    .with("description"@, tstr(kind + " object deleted"@))
                    .with("content"@, tobj()
                        .with("application/json"@, tobj()
                            .with("schema"@, stored_ref))))
                .with("404"@, tobj()
                    .with("description"@, tstr(kind + " object not found"@))
                    .with("content"@, tobj()
                        .with("application/json"@, tobj()
                            .with("schema"@, error_ref))))
                .with("409"@, tobj()
                    .with_text("description"@, "Conflict — object has finalizers or is being deleted"@)
                    .with("content"@, tobj()
                        .with("application/json"@, tobj()
                            .with("schema"@, error_ref))))))
}

/// The item path of a registered kind: get (GET), update (PUT) and delete
/// (DELETE) by name.
fn kind_item_path(schema_data: &SchemaData, comp_name: &str) -> (r: JsonValue)
    ensures
        r@ == kind_item_path_doc(schema_data@, comp_name@),
{
    let kind = schema_data.target_kind.as_str();
    let stored_ref = jobj().with("$ref", jtext(cat(cat("#/components/schemas/", comp_name).as_str(), "StoredObject")));
    let error_ref = jobj().with_text("$ref", "#/components/schemas/AppError");
    let name_param = build_name_param("The object name");
    jobj()
        .with("get", jobj()
            .with("summary", jtext(cat(cat("Get a ", kind).as_str(), " object by name")))
            .with("operationId", jtext(cat("get", comp_name)))
            .with("parameters", jarr()
                .and(name_param.duplicate()))
            .with("responses", jobj()
                .with("200", jobj()
                    .with("description", jtext(cat(cat("The ", kind).as_str(), " object")))
                    .with("content", jobj()
                        .with("application/json", jobj()
                            .with("schema", stored_ref.duplicate())
                            .with("example", build_get_response_example(schema_data, None)))))
                .with("404", jobj()
                    .with("description", jtext(cat(kind, " object not found")))
                    .with("content", jobj()
                        .with("application/json", jobj()
                            .with("schema", error_ref.duplicate()))))))
        .with("put", jobj()
            .with("summary", jtext(cat(cat("Update a ", kind).as_str(), " object")))
            .with("operationId", jtext(cat("update", comp_name)))
            .with("parameters", jarr()
                .and(name_param.duplicate()))
            .with("requestBody", jobj()
                .with("required", JsonValue::Bool(true))
                .with("content", jobj()
                    .with("application/json", jobj()
                        .with("schema", stored_ref.duplicate())
                        .with("example", build_get_response_example(schema_data, None)))))
            .with("responses", jobj()
                .with("200", jobj()
                    .with("description", jtext(cat(kind, " object updated")))
                    .with("content", jobj()
                        .with("application/json", jobj()
                            .with("schema", stored_ref.duplicate()))))
                .with("404", jobj()
                    .with("description", jtext(cat(kind, " object not found")))
                    .with("content", jobj()
                        .with("application/json", jobj()
                            .with("schema", error_ref.duplicate()))))
                .with("409", jobj()
                    .with_text("description", "Conflict — version mismatch")
                    .with("content", jobj()
                        .with("application/json", jobj()
                            .with("schema", error_ref.duplicate()))))
                .with("422", jobj()
                    .with_text("description", "Schema validation failed")
                    .with("content", jobj()
                        .with("application/json", jobj()
                            .with("schema", error_ref.duplicate()))))))
        .with("delete", jobj()
            .with("summary", jtext(cat(cat("Delete a ", kind).as_str(), " object")))
            .with("operationId", jtext(cat("delete", comp_name)))
            .with("parameters", jarr()
                .and(name_param.duplicate()))
            .with("responses", jobj()
                .with("200", jobj()
                    .with("description", jtext(cat(kind, " object deleted")))
                    .with("content", jobj()
                        .with("application/json", jobj()
                            .with("schema", stored_ref.duplicate()))))
                .with("404", jobj()
                    .with("description", jtext(cat(kind, " object not found")))
                    .with("content", jobj()
                        .with("application/json", jobj()
                            .with("schema", error_ref.duplicate()))))
                .with("409", jobj()
                    .with_text("description", "Conflict — object has finalizers or is being deleted")
                    .with("content", jobj()
                        .with("application/json", jobj()
                            .with("schema", error_ref.duplicate()))))))
}

/// The status path of a registered kind: get (GET) and update (PUT) the
/// status subresource by name.
pub open spec fn kind_status_path_doc(schema_data: SchemaDataView, comp_name: Seq<char>) -> JsonTree {
    let kind = schema_data.kind;
    let stored_ref = tobj().with("$ref"@, tstr("#/components/schemas/"@ + comp_name + "StoredObject"@));
    let error_ref = tobj().with_text("$ref"@, "#/components/schemas/AppError"@);
    let status_ref = tobj().with("nullable"@, JsonTree::Bool(true)).with_text("description"@, "Status subresource, or null if not set"@);
    let name_param = name_param_doc("The object name"@);
    tobj()
        .with("get"@, tobj()
            .with("summary"@, tstr("Get the status subresource of a "@ + kind + " object"@))
            .with("operationId"@, tstr("get"@ + comp_name + "Status"@))
            .with("parameters"@, tarr()
                .and(name_param))
            .with("responses"@, tobj()
                .with("200"@, tobj()
                    .with("description"@, tstr("The status of the "@ + kind + " object (null if not set)"@))
                    .with("content"@, tobj()
                        .with("application/json"@, tobj()
                            .with("schema"@, status_ref))))
                .with("404"@, tobj()
                    .with("description"@, tstr(kind + " object not found or status subresource not enabled for this kind"@))
                    .with("content"@, tobj()
                        .with("application/json"@, tobj()
                            .with("schema"@, error_ref))))))
        .with("put"@, tobj()
            .with("summary"@, tstr("Update the status subresource of a "@ + kind + " object"@))
            .with("operationId"@, tstr("update"@ + comp_name + "Status"@))
            .with("parameters"@, tarr()
                .and(name_param))
            .with("requestBody"@, tobj()
                .with("required"@, JsonTree::Bool(true))
                .with("content"@, tobj()
                    .with("application/json"@, tobj()
                        .with("schema"@, status_update_request_doc(schema_data)))))
            .with("responses"@, tobj()
                .with("200"@, tobj()
                    .with("description"@, tstr(kind + " status updated"@))
                    .with("content"@, tobj()
                        .with("application/json"@, tobj()
                            .with("schema"@, stored_ref))))
                .with("404"@, tobj()
                    .with("description"@, tstr(kind + " object not found or status subresource not enabled for this kind"@))
                    .with("content"@, tobj()
                        .with("application/json"@, tobj()
                            .with("schema"@, error_ref))))
                .with("422"@, tobj()
                    .with_text("description"@, "Status validation failed against statusSchema"@)
                    .with("content"@, tobj()
                        .with("application/json"@, tobj()
                            .with("schema"@, error_ref))))))
}

/// The status path of a registered kind: get (GET) and update (PUT) the
/// status subresource by name.
fn kind_status_path(schema_data: &SchemaData, comp_name: &str) -> (r: JsonValue)
    ensures
        r@ == kind_status_path_doc(schema_data@, comp_name@),
{
    let kind = schema_data.target_kind.as_str();
    let stored_ref = jobj().with("$ref", jtext(cat(cat("#/components/schemas/", comp_name).as_str(), "StoredObject")));
    let error_ref = jobj().with_text("$ref", "#/components/schemas/AppError");
    let status_ref = jobj().with("nullable", JsonValue::Bool(true)).with_text("description", "Status subresource, or null if not set");
    let name_param = build_name_param("The object name");
    jobj()
        .with("get", jobj()
            .with("summary", jtext(cat(cat("Get the status subresource of a ", kind).as_str(), " object")))
            .with("operationId", jtext(cat(cat("get", comp_name).as_str(), "Status")))
            .with("parameters", jarr()
                .and(name_param.duplicate()))
            .with("responses", jobj()
                .with("200", jobj()
                    .with("description", jtext(cat(cat("The status of the ", kind).as_str(), " object (null if not set)")))
                    .with("content", jobj()
                        .with("application/json", jobj()
                            .with("schema", status_ref.duplicate()))))
                .with("404", jobj()
                    .with("description", jtext(cat(kind, " object not found or status subresource not enabled for this kind")))
                    .with("content", jobj()
                        .with("application/json", jobj()
                            .with("schema", error_ref.duplicate()))))))
        .with("put", jobj()
            .with("summary", jtext(cat(cat("Update the status subresource of a ", kind).as_str(), " object")))
            .with("operationId", jtext(cat(cat("update", comp_name).as_str(), "Status")))
            .with("parameters", jarr()
                .and(name_param.duplicate()))
            .with("requestBody", jobj()
                .with("required", JsonValue::Bool(true))
                .with("content", jobj()
                    .with("application/json", jobj()
                        .with("schema", build_status_update_request_schema(schema_data)))))
            .with("responses", jobj()
                .with("200", jobj()
                    .with("description", jtext(cat(kind, " status updated")))
                    .with("content", jobj()
                        .with("application/json", jobj()
                            .with("schema", stored_ref.duplicate()))))
                .with("404", jobj()
                    .with("description", jtext(cat(kind, " object not found or status subresource not enabled for this kind")))
                    .with("content", jobj()
                        .with("application/json", jobj()
                            .with("schema", error_ref.duplicate()))))
                .with("422", jobj()
                    .with_text("description", "Status validation failed against statusSchema")
                    .with("content", jobj()
                        .with("application/json", jobj()
                            .with("schema", error_ref.duplicate()))))))
}

/// The collection path of a namespaced kind within one namespace: list
/// (GET) and create (POST).
pub open spec fn kind_namespaced_collection_path_doc(schema_data: SchemaDataView, comp_name: Seq<char>) -> JsonTree {
    let kind = schema_data.kind;
    let stored_ref = tobj().with("$ref"@, tstr("#/components/schemas/"@ + comp_name + "StoredObject"@));
    let list_ref = tobj().with("$ref"@, tstr("#/components/schemas/"@ + comp_name + "ListResponse"@));
    let error_ref = tobj().with_text("$ref"@, "#/components/schemas/AppError"@);
    let namespace_param = namespace_param_doc();
    tobj()
        .with("get"@, tobj()
            .with("summary"@, tstr("List "@ + kind + " objects in a namespace"@))
            .with("description"@, tstr("Namespace-scoped list of "@ + kind + " objects. Returns only objects in the specified namespace."@))
            .with("operationId"@, tstr("list"@ + comp_name + "Namespaced"@))
            .with("parameters"@, tarr()
                .and(namespace_param)
                .and(tobj()
                    .with_text("name"@, "watch"@)
                    .with_text("in"@, "query"@)
                    .with("required"@, JsonTree::Bool(false))
                    .with("schema"@, tobj()
                        .with_text("type"@, "boolean"@))
                    .with_text("description"@, "Enable SSE watch stream"@))
                .and(tobj()
                    .with_text("name"@, "fieldSelector"@)
                    .with_text("in"@, "query"@)
                    .with("required"@, JsonTree::Bool(false))
                    .with("schema"@, tobj()
                        .with_text("type"@, "string"@))
                    .with_text("description"@, "Filter results by field selector (e.g., metadata.name=my-obj). On list requests, filters the returned objects. On watch requests, filters the event stream."@))
                .and(tobj()
                    .with_text("name"@, "labelSelector"@)
                    .with_text("in"@, "query"@)
                    .with("required"@, JsonTree::Bool(false))
                    .with("schema"@, tobj()
                        .with_text("type"@, "string"@))
                    .with_text("description"@, "Filter results by label selector."@)))
            .with("responses"@, tobj()
                .with("200"@, tobj()
                    .with("description"@, tstr("A list of "@ + kind + " objects in the namespace"@))
                    .with("content"@, tobj()
                        .with("application/json"@, tobj()
                            .with("schema"@, list_ref)
                            .with("example"@, list_response_example_doc(schema_data, false)))))
                .with("400"@, tobj()
                    .with_text("description"@, "Invalid field selector or label selector"@)
                    .with("content"@, tobj()
                        .with("application/json"@, tobj()
                            .with("schema"@, error_ref))))))
        .with("post"@, tobj()
            .with("summary"@, tstr("Create a new "@ + kind + " object in a namespace"@))
            .with("description"@, tstr("Create a "@ + kind + " object in the specified namespace. The namespace is taken from the URL path parameter, not from the request body."@))
            .with("operationId"@, tstr("create"@ + comp_name + "Namespaced"@))
            .with("parameters"@, tarr()
                .and(namespace_param))
            .with("requestBody"@, tobj()
                .with("required"@, JsonTree::Bool(true))
                .with("content"@, tobj()
                    .with("application/json"@, tobj()
                        .with("schema"@, create_request_doc(schema_data))
                        .with("example"@, create_request_example_doc(schema_data)))))
            .with("responses"@, tobj()
                .with("201"@, tobj()
                    .with("description"@, tstr(kind + " object created in namespace"@))
                    .with("content"@, tobj()
                        .with("application/json"@, tobj()
                            .with("schema"@, stored_ref)
                            .with("example"@, get_response_example_doc(schema_data, Some("production"@))))))
                .with("400"@, tobj()
                    .with_text("description"@, "Bad request — missing required fields or validation failure"@)
                    .with("content"@, tobj()
                        .with("application/json"@, tobj()
                            .with("schema"@, error_ref))))
                .with("404"@, tobj()
                    .with_text("description"@, "Schema not found for this kind"@)
                    .with("content"@, tobj()
                        .with("application/json"@, tobj()
                            .with("schema"@, error_ref))))
                .with("409"@, tobj()
                    .with_text("description"@, "AlreadyExists — object with same name already exists in this namespace"@)
                    .with("content"@, tobj()
                        .with("application/json"@, tobj()
                            .with("schema"@, error_ref))))
                .with("422"@, tobj()
                    .with_text("description"@, "Schema validation failed"@)
                    .with("content"@, tobj()
                        .with("application/json"@, tobj()
                            .with("schema"@, error_ref))))))
}

/// The collection path of a namespaced kind within one namespace: list
/// (GET) and create (POST).
fn kind_namespaced_collection_path(schema_data: &SchemaData, comp_name: &str) -> (r: JsonValue)
    ensures
        r@ == kind_namespaced_collection_path_doc(schema_data@, comp_name@),
{
    let kind = schema_data.target_kind.as_str();
    let stored_ref = jobj().with("$ref", jtext(cat(cat("#/components/schemas/", comp_name).as_str(), "StoredObject")));
    let list_ref = jobj().with("$ref", jtext(cat(cat("#/components/schemas/", comp_name).as_str(), "ListResponse")));
    let error_ref = jobj().with_text("$ref", "#/components/schemas/AppError");
    let namespace_param = build_namespace_param();
    jobj()
        .with("get", jobj()
            .with("summary", jtext(cat(cat("List ", kind).as_str(), " objects in a namespace")))
            .with("description", jtext(cat(cat("Namespace-scoped list of ", kind).as_str(), " objects. Returns only objects in the specified namespace.")))
            .with("operationId", jtext(cat(cat("list", comp_name).as_str(), "Namespaced")))
            .with("parameters", jarr()
                .and(namespace_param.duplicate())
                .and(jobj()
                    .with_text("name", "watch")
                    .with_text("in", "query")
                    .with("required", JsonValue::Bool(false))
                    .with("schema", jobj()
                        .with_text("type", "boolean"))
                    .with_text("description", "Enable SSE watch stream"))
                .and(jobj()
                    .with_text("name", "fieldSelector")
                    .with_text("in", "query")
                    .with("required", JsonValue::Bool(false))
                    .with("schema", jobj()
                        .with_text("type", "string"))
                    .with_text("description", "Filter results by field selector (e.g., metadata.name=my-obj). On list requests, filters the returned objects. On watch requests, filters the event stream."))
                .and(jobj()
                    .with_text("name", "labelSelector")
                    .with_text("in", "query")
                    .with("required", JsonValue::Bool(false))
                    .with("schema", jobj()
                        .with_text("type", "string"))
                    .with_text("description", "Filter results by label selector.")))
            .with("responses", jobj()
                .with("200", jobj()
                    .with("description", jtext(cat(cat("A list of ", kind).as_str(), " objects in the namespace")))
                    .with("content", jobj()
                        .with("application/json", jobj()
                            .with("schema", list_ref.duplicate())
                            .with("example", build_list_response_example(schema_data, false)))))
                .with("400", jobj()
                    .with_text("description", "Invalid field selector or label selector")
                    .with("content", jobj()
                        .with("application/json", jobj()
                            .with("schema", error_ref.duplicate()))))))
        .with("post", jobj()
            .with("summary", jtext(cat(cat("Create a new ", kind).as_str(), " object in a namespace")))
            .with("description", jtext(cat(cat("Create a ", kind).as_str(), " object in the specified namespace. The namespace is taken from the URL path parameter, not from the request body.")))
            .with("operationId", jtext(cat(cat("create", comp_name).as_str(), "Namespaced")))
            .with("parameters", jarr()
                .and(namespace_param.duplicate()))
            .with("requestBody", jobj()
                .with("required", JsonValue::Bool(true))
                .with("content", jobj()
                    .with("application/json", jobj()
                        .with("schema", build_create_request_schema(schema_data))
                        .with("example", build_create_request_example(schema_data)))))
            .with("responses", jobj()
                .with("201", jobj()
                    .with("description", jtext(cat(kind, " object created in namespace")))
                    .with("content", jobj()
                        .with("application/json", jobj()
                            .with("schema", stored_ref.duplicate())
                            .with("example", build_get_response_example(schema_data, Some("production"))))))
                .with("400", jobj()
                    .with_text("description", "Bad request — missing required fields or validation failure")
                    .with("content", jobj()
                        .with("application/json", jobj()
                            .with("schema", error_ref.duplicate()))))
                .with("404", jobj()
                    .with_text("description", "Schema not found for this kind")
                    .with("content", jobj()
                        .with("application/json", jobj()
                            .with("schema", error_ref.duplicate()))))
                .with("409", jobj()
                    .with_text("description", "AlreadyExists — object with same name already exists in this namespace")
                    .with("content", jobj()
                        .with("application/json", jobj()
                            .with("schema", error_ref.duplicate()))))
                .with("422", jobj()
                    .with_text("description", "Schema validation failed")
                    .with("content", jobj()
                        .with("application/json", jobj()
                            .with("schema", error_ref.duplicate()))))))
}

/// The item path of a namespaced kind within one namespace: get (GET),
/// update (PUT) and delete (DELETE) by name.
pub open spec fn kind_namespaced_item_path_doc(schema_data: SchemaDataView, comp_name: Seq<char>) -> JsonTree {
    let kind = schema_data.kind;
    let stored_ref = tobj().with("$ref"@, tstr("#/components/schemas/"@ + comp_name + "StoredObject"@));
    let error_ref = tobj().with_text("$ref"@, "#/components/schemas/AppError"@);
    let name_param = name_param_doc("The object name"@);
    let namespace_param = namespace_param_doc();
    tobj()
        .with("get"@, tobj()
            .with("summary"@, tstr("Get a "@ + kind + " object by name in a namespace"@))
            .with("operationId"@, tstr("get"@ + comp_name + "Namespaced"@))
            .with("parameters"@, tarr()
                .and(namespace_param)
                .and(name_param))
            .with("responses"@, tobj()
                .with("200"@, tobj()
                    .with("description"@, tstr("The "@ + kind + " object in the namespace"@))
                    .with("content"@, tobj()
                        .with("application/json"@, tobj()
                            .with("schema"@, stored_ref)
                            .with("example"@, get_response_example_doc(schema_data, Some("production"@))))))
                .with("404"@, tobj()
                    .with("description"@, tstr(kind + " object not found in this namespace"@))
                    .with("content"@, tobj()
                        .with("application/json"@, tobj()
                            .with("schema"@, error_ref))))))
        .with("put"@, tobj()
            .with("summary"@, tstr("Update a "@ + kind + " object in a namespace"@))
            .with("operationId"@, tstr("update"@ + comp_name + "Namespaced"@))
            .with("parameters"@, tarr()
                .and(namespace_param)
                .and(name_param))
            .with("requestBody"@, tobj()
                .with("required"@, JsonTree::Bool(true))
                .with("content"@, tobj()
                    .with("application/json"@, tobj()
                        .with("schema"@, stored_ref))))
            .with("responses"@, tobj()
                .with("200"@, tobj()
                    .with("description"@, tstr(kind + " object updated in namespace"@))
                    .with("content"@, tobj()
                        .with("application/json"@, tobj()
                            .with("schema"@, stored_ref))))
                .with("404"@, tobj()
                    .with("description"@, tstr(kind + " object not found in this namespace"@))
                    .with("content"@, tobj()
                        .with("application/json"@, tobj()
                            .with("schema"@, error_ref))))
                .with("409"@, tobj()
                    .with_text("description"@, "Conflict — version mismatch"@)
                    .with("content"@, tobj()
                        .with("application/json"@, tobj()
                            .with("schema"@, error_ref))))
                .with("422"@, tobj()
                    .with_text("description"@, "Schema validation failed"@)
                    .with("content"@, tobj()
                        .with("application/json"@, tobj()
                            .with("schema"@, error_ref))))))
        .with("delete"@, tobj()
            .with("summary"@, tstr("Delete a "@ + kind + " object in a namespace"@))
            .with("operationId"@, tstr("delete"@ + comp_name + "Namespaced"@))
            .with("parameters"@, tarr()
                .and(namespace_param)
                .and(name_param))
            .with("responses"@, tobj()
                .with("200"@, tobj()
                    .with("description"@, tstr(kind + " object deleted in namespace"@))
                    .with("content"@, tobj()
                        .with("application/json"@, tobj()
                            .with("schema"@, stored_ref))))
                .with("404"@, tobj()
                    .with("description"@, tstr(kind + " object not found in this namespace"@))
                    .with("content"@, tobj()
                        .with("application/json"@, tobj()
                            .with("schema"@, error_ref))))
                .with("409"@, tobj()
                    .with_text("description"@, "Conflict — object has finalizers or is being deleted"@)
                    .with("content"@, tobj()
                        .with("application/json"@, tobj()
                            .with("schema"@, error_ref))))))
}

/// The item path of a namespaced kind within one namespace: get (GET),
/// update (PUT) and delete (DELETE) by name.
fn kind_namespaced_item_path(schema_data: &SchemaData, comp_name: &str) -> (r: JsonValue)
    ensures
        r@ == kind_namespaced_item_path_doc(schema_data@, comp_name@),
{
    let kind = schema_data.target_kind.as_str();
    let stored_ref = jobj().with("$ref", jtext(cat(cat("#/components/schemas/", comp_name).as_str(), "StoredObject")));
    let error_ref = jobj().with_text("$ref", "#/components/schemas/AppError");
    let name_param = build_name_param("The object name");
    let namespace_param = build_namespace_param();
    jobj()
        .with("get", jobj()
            .with("summary", jtext(cat(cat("Get a ", kind).as_str(), " object by name in a namespace")))
            .with("operationId", jtext(cat(cat("get", comp_name).as_str(), "Namespaced")))
            .with("parameters", jarr()
                .and(namespace_param.duplicate())
                .and(name_param.duplicate()))
            .with("responses", jobj()
                .with("200", jobj()
                    .with("description", jtext(cat(cat("The ", kind).as_str(), " object in the namespace")))
                    .with("content", jobj()
                        .with("application/json", jobj()
                            .with("schema", stored_ref.duplicate())
                            .with("example", build_get_response_example(schema_data, Some("production"))))))
                .with("404", jobj()
                    .with("description", jtext(cat(kind, " object not found in this namespace")))
                    .with("content", jobj()
                        .with("application/json", jobj()
                            .with("schema", error_ref.duplicate()))))))
        .with("put", jobj()
            .with("summary", jtext(cat(cat("Update a ", kind).as_str(), " object in a namespace")))
            .with("operationId", jtext(cat(cat("update", comp_name).as_str(), "Namespaced")))
            .with("parameters", jarr()
                .and(namespace_param.duplicate())
                .and(name_param.duplicate()))
            .with("requestBody", jobj()
                .with("required", JsonValue::Bool(true))
                .with("content", jobj()
                    .with("application/json", jobj()
                        .with("schema", stored_ref.duplicate()))))
            .with("responses", jobj()
                .with("200", jobj()
                    .with("description", jtext(cat(kind, " object updated in namespace")))
                    .with("content", jobj()
                        .with("application/json", jobj()
                            .with("schema", stored_ref.duplicate()))))
                .with("404", jobj()
                    .with("description", jtext(cat(kind, " object not found in this namespace")))
                    .with("content", jobj()
                        .with("application/json", jobj()
                            .with("schema", error_ref.duplicate()))))
                .with("409", jobj()
                    .with_text("description", "Conflict — version mismatch")
                    .with("content", jobj()
                        .with("application/json", jobj()
                            .with("schema", error_ref.duplicate()))))
                .with("422", jobj()
                    .with_text("description", "Schema validation failed")
                    .with("content", jobj()
                        .with("application/json", jobj()
                            .with("schema", error_ref.duplicate()))))))
        .with("delete", jobj()
            .with("summary", jtext(cat(cat("Delete a ", kind).as_str(), " object in a namespace")))
            .with("operationId", jtext(cat(cat("delete", comp_name).as_str(), "Namespaced")))
            .with("parameters", jarr()
                .and(namespace_param.duplicate())
                .and(name_param.duplicate()))
            .with("responses", jobj()
                .with("200", jobj()
                    .with("description", jtext(cat(kind, " object deleted in namespace")))
                    .with("content", jobj()
                        .with("application/json", jobj()
                            .with("schema", stored_ref.duplicate()))))
                .with("404", jobj()
                    .with("description", jtext(cat(kind, " object not found in this namespace")))
                    .with("content", jobj()
                        .with("application/json", jobj()
                            .with("schema", error_ref.duplicate()))))
                .with("409", jobj()
                    .with_text("description", "Conflict — object has finalizers or is being deleted")
                    .with("content", jobj()
                        .with("application/json", jobj()
                            .with("schema", error_ref.duplicate()))))))
}

/// The status path of a namespaced kind within one namespace: get (GET)
/// and update (PUT) the status subresource by name.
pub open spec fn kind_namespaced_status_path_doc(schema_data: SchemaDataView, comp_name: Seq<char>) -> JsonTree {
    let kind = schema_data.kind;
    let stored_ref = tobj().with("$ref"@, tstr("#/components/schemas/"@ + comp_name + "StoredObject"@));
    let error_ref = tobj().with_text("$ref"@, "#/components/schemas/AppError"@);
    let status_ref = tobj().with("nullable"@, JsonTree::Bool(true)).with_text("description"@, "Status subresource, or null if not set"@);
    let name_param = name_param_doc("The object name"@);
    let namespace_param = namespace_param_doc();
    tobj()
        .with("get"@, tobj()
            .with("summary"@, tstr("Get the status subresource of a "@ + kind + " object in a namespace"@))
            .with("operationId"@, tstr("get"@ + comp_name + "StatusNamespaced"@))
            .with("parameters"@, tarr()
                .and(namespace_param)
                .and(name_param))
            .with("responses"@, tobj()
                .with("200"@, tobj()
                    .with("description"@, tstr("The status of the "@ + kind + " object in the namespace (null if not set)"@))
                    .with("content"@, tobj()
                        .with("application/json"@, tobj()
                            .with("schema"@, status_ref))))
                .with("404"@, tobj()
                    .with("description"@, tstr(kind + " object not found in this namespace or status subresource not enabled for this kind"@))
                    .with("content"@, tobj()
                        .with("application/json"@, tobj()
                            .with("schema"@, error_ref))))))
        .with("put"@, tobj()
            .with("summary"@, tstr("Update the status subresource of a "@ + kind + " object in a namespace"@))
            .with("operationId"@, tstr("update"@ + comp_name + "StatusNamespaced"@))
            .with("parameters"@, tarr()
                .and(namespace_param)
                .and(name_param))
            .with("requestBody"@, tobj()
                .with("required"@, JsonTree::Bool(true))
                .with("content"@, tobj()
                    .with("application/json"@, tobj()
                        .with("schema"@, status_update_request_doc(schema_data)))))
            .with("responses"@, tobj()
                .with("200"@, tobj()
                    .with("description"@, tstr(kind + " status updated in namespace"@))
                    .with("content"@, tobj()
                        .with("application/json"@, tobj()
                            .with("schema"@, stored_ref))))
                .with("404"@, tobj()
                    .with("description"@, tstr(kind + " object not found in this namespace or status subresource not enabled for this kind"@))
                    .with("content"@, tobj()
                        .with("application/json"@, tobj()
                            .with("schema"@, error_ref))))
                .with("422"@, tobj()
                    .with_text("description"@, "Status validation failed against statusSchema"@)
                    .with("content"@, tobj()
                        .with("application/json"@, tobj()
                            .with("schema"@, error_ref))))))
}

/// The status path of a namespaced kind within one namespace: get (GET)
/// and update (PUT) the status subresource by name.
fn kind_namespaced_status_path(schema_data: &SchemaData, comp_name: &str) -> (r: JsonValue)
    ensures
        r@ == kind_namespaced_status_path_doc(schema_data@, comp_name@),
{
    let kind = schema_data.target_kind.as_str();
    let stored_ref = jobj().with("$ref", jtext(cat(cat("#/components/schemas/", comp_name).as_str(), "StoredObject")));
    let error_ref = jobj().with_text("$ref", "#/components/schemas/AppError");
    let status_ref = jobj().with("nullable", JsonValue::Bool(true)).with_text("description", "Status subresource, or null if not set");
    let name_param = build_name_param("The object name");
    let namespace_param = build_namespace_param();
    jobj()
        .with("get", jobj()
            .with("summary", jtext(cat(cat("Get the status subresource of a ", kind).as_str(), " object in a namespace")))
            .with("operationId", jtext(cat(cat("get", comp_name).as_str(), "StatusNamespaced")))
            .with("parameters", jarr()
                .and(namespace_param.duplicate())
                .and(name_param.duplicate()))
            .with("responses", jobj()
                .with("200", jobj()
                    .with("description", jtext(cat(cat("The status of the ", kind).as_str(), " object in the namespace (null if not set)")))
                    .with("content", jobj()
                        .with("application/json", jobj()
                            .with("schema", status_ref.duplicate()))))
                .with("404", jobj()
                    .with("description", jtext(cat(kind, " object not found in this namespace or status subresource not enabled for this kind")))
                    .with("content", jobj()
                        .with("application/json", jobj()
                            .with("schema", error_ref.duplicate()))))))
        .with("put", jobj()
            .with("summary", jtext(cat(cat("Update the status subresource of a ", kind).as_str(), " object in a namespace")))
            .with("operationId", jtext(cat(cat("update", comp_name).as_str(), "StatusNamespaced")))
            .with("parameters", jarr()
                .and(namespace_param.duplicate())
                .and(name_param.duplicate()))
            .with("requestBody", jobj()
                .with("required", JsonValue::Bool(true))
                .with("content", jobj()
                    .with("application/json", jobj()
                        .with("schema", build_status_update_request_schema(schema_data)))))
            .with("responses", jobj()
                .with("200", jobj()
                    .with("description", jtext(cat(kind, " status updated in namespace")))
                    .with("content", jobj()
                        .with("application/json", jobj()
                            .with("schema", stored_ref.duplicate()))))
                .with("404", jobj()
                    .with("description", jtext(cat(kind, " object not found in this namespace or status subresource not enabled for this kind")))
                    .with("content", jobj()
                        .with("application/json", jobj()
                            .with("schema", error_ref.duplicate()))))
                .with("422", jobj()
                    .with_text("description", "Status validation failed against statusSchema")
                    .with("content", jobj()
                        .with("application/json", jobj()
                            .with("schema", error_ref.duplicate()))))))
}
/// The example value of a property, chosen by its declared `type`:
/// `"string"`, `42`, `1.5`, `true`, `[]` or `{}`, and `"value"` for any other
/// or missing type.
pub open spec fn type_example(prop: JsonTree) -> JsonTree {
    match prop.get("type"@) {
        Some(JsonTree::Str(t)) => if t == "string"@ {
            tstr("string"@)
        } else if t == "integer"@ {
            tnum("42"@)
        } else if t == "number"@ {
            tnum("1.5"@)
        } else if t == "boolean"@ {
            JsonTree::Bool(true)
        } else if t == "array"@ {
            tarr()
        } else if t == "object"@ {
            tobj()
        } else {
            tstr("value"@)
        },
        _ => tstr("value"@),
    }
}

/// An object with, for each property in `props` in order, its example value.
pub open spec fn property_examples(props: Seq<(Seq<char>, JsonTree)>) -> JsonTree
    decreases props.len(),
{
    if props.len() == 0 {
        tobj()
    } else {
        property_examples(props.drop_last()).put(props.last().0, type_example(props.last().1))
    }
}

/// An example value for a spec schema: for its first three `properties`
/// (in member order), each property's example value; an empty object when
/// `properties` is not an object; `{"key": "value"}` without `properties`.
pub open spec fn spec_example_doc(schema: JsonTree) -> JsonTree {
    match schema.get("properties"@) {
        Some(JsonTree::Object(fields)) => property_examples(
            fields.take(if fields.len() < 3 { fields.len() as int } else { 3 }),
        ),
        Some(_) => tobj(),
        None => tobj().with_text("key"@, "value"@),
    }
}

fn build_type_example(prop: &JsonValue) -> (r: JsonValue)
    ensures
        r@ == type_example(prop@),
{
    match prop.get("type") {
        Some(t) => match t.as_str() {
            Some(s) => {
                proof {
                    assert(prop@.get("type"@) == Some(JsonTree::Str(s@)));
                }
                if str_equal(s.as_str(), "string") {
                    jstr("string")
                } else if str_equal(s.as_str(), "integer") {
                    jnum("42")
                } else if str_equal(s.as_str(), "number") {
                    jnum("1.5")
                } else if str_equal(s.as_str(), "boolean") {
                    JsonValue::Bool(true)
                } else if str_equal(s.as_str(), "array") {
                    jarr()
                } else if str_equal(s.as_str(), "object") {
                    jobj()
                } else {
                    jstr("value")
                }
            },
            None => jstr("value"),
        },
        None => jstr("value"),
    }
}

/// Builds a realistic example value from a spec schema: an example for each
/// of the first three properties by its type, or `{"key": "value"}` when the
/// schema declares no properties.
fn build_spec_example(schema: &JsonValue) -> (r: JsonValue)
    ensures
        r@ == spec_example_doc(schema@),
{
    match schema.get("properties") {
        Some(props) => match props {
            JsonValue::Object(fields) => {
                let ghost fs = props@->Object_0;
                let n: usize = if fields.len() < 3 { fields.len() } else { 3 };
                proof {
                    assert(fs.len() == fields.len());
                    assert(forall|j: int| 0 <= j < fields.len() ==> #[trigger] fs[j] == (fields@[j].0@, fields@[j].1@));
                }
                let mut example = jobj();
                let mut i: usize = 0;
                while i < n
                    invariant
                        0 <= i <= n <= fields.len(),
                        fs.len() == fields.len(),
                        forall|j: int| 0 <= j < fields.len() ==> #[trigger] fs[j] == (fields@[j].0@, fields@[j].1@),
                        example@ == property_examples(fs.take(i as int)),
                    decreases n - i,
                {
                    let v = build_type_example(&fields[i].1);
                    proof {
                        assert(fs.take(i + 1).drop_last() =~= fs.take(i as int));
                        assert(fs.take(i + 1).last() == fs[i as int]);
                    }
                    example = example.put(fields[i].0.clone(), v);
                    i = i + 1;
                }
                example
            },
            _ => jobj(),
        },
        None => jobj().with_text("key", "value"),
    }
}

/// The Schema CRUD paths, present in every description: the collection and
/// the item path of the cluster-scoped Schema kind.
pub open spec fn static_paths() -> Seq<(Seq<char>, JsonTree)> {
    seq![
        ("/apis/kapi.io/v1/Schema"@, schema_collection_path_doc()),
        ("/apis/kapi.io/v1/Schema/{name}"@, schema_item_path_doc()),
    ]
}

/// Returns the static paths for Schema CRUD operations: list and register
/// at `/apis/kapi.io/v1/Schema`, get and delete at
/// `/apis/kapi.io/v1/Schema/{name}`.
pub fn build_static_paths() -> (r: Vec<(String, JsonValue)>)
    ensures
        pairs_view(r@) == static_paths(),
{
    let mut r: Vec<(String, JsonValue)> = Vec::new();
    r.push((String::from_str("/apis/kapi.io/v1/Schema"), schema_collection_path()));
    r.push((String::from_str("/apis/kapi.io/v1/Schema/{name}"), schema_item_path()));
    assert(pairs_view(r@) =~= static_paths());
    r
}

/// `/apis/{group}/{version}` followed by `rest`.
pub open spec fn api_prefix(schema_data: SchemaDataView, rest: Seq<char>) -> Seq<char> {
    "/apis/"@ + schema_data.group + "/"@ + schema_data.version + rest
}

/// The paths a registered kind adds, each under its URL with the kind's
/// group, version and kind in it: collection, item and status paths; for a
/// namespaced kind also their namespace-scoped variants under
/// `/namespaces/{namespace}`.
pub open spec fn kind_paths(schema_data: SchemaDataView, comp_name: Seq<char>) -> Seq<(Seq<char>, JsonTree)> {
    let kind = schema_data.kind;
    let cluster = seq![
        (api_prefix(schema_data, "/"@ + kind), kind_collection_path_doc(schema_data, comp_name)),
        (api_prefix(schema_data, "/"@ + kind + "/{name}"@), kind_item_path_doc(schema_data, comp_name)),
        (api_prefix(schema_data, "/"@ + kind + "/{name}/status"@), kind_status_path_doc(schema_data, comp_name)),
    ];
    if schema_data.scope == "Namespaced"@ {
        cluster + seq![
            (api_prefix(schema_data, "/namespaces/{namespace}/"@ + kind), kind_namespaced_collection_path_doc(schema_data, comp_name)),
            (api_prefix(schema_data, "/namespaces/{namespace}/"@ + kind + "/{name}"@),
                kind_namespaced_item_path_doc(schema_data, comp_name)),
            (api_prefix(schema_data, "/namespaces/{namespace}/"@ + kind + "/{name}/status"@),
                kind_namespaced_status_path_doc(schema_data, comp_name)),
        ]
    } else {
        cluster
    }
}

fn path_of(schema_data: &SchemaData, rest: String) -> (r: String)
    ensures
        r@ == api_prefix(schema_data@, rest@),
{
    let mut r = String::from_str("/apis/");
    r.append(schema_data.target_group.as_str());
    r.append("/");
    r.append(schema_data.target_version.as_str());
    r.append(rest.as_str());
    r
}

/// Builds the OpenAPI paths of a registered kind: collection (list, create),
/// item (get, update, delete) and status (get, update) paths with the
/// group, version and kind in the URL, and for a namespaced kind the same
/// three again under `/namespaces/{namespace}`.
pub fn build_kind_paths(schema_data: &SchemaData, comp_name: &str) -> (r: Vec<(String, JsonValue)>)
    ensures
        pairs_view(r@) == kind_paths(schema_data@, comp_name@),
{
    let kind = schema_data.target_kind.as_str();
    let mut r: Vec<(String, JsonValue)> = Vec::new();
    r.push((path_of(schema_data, cat("/", kind)), kind_collection_path(schema_data, comp_name)));
    r.push((path_of(schema_data, cat(cat("/", kind).as_str(), "/{name}")), kind_item_path(schema_data, comp_name)));
    r.push((path_of(schema_data, cat(cat("/", kind).as_str(), "/{name}/status")), kind_status_path(schema_data, comp_name)));
    if str_equal(schema_data.scope.as_str(), "Namespaced") {
        r.push((path_of(schema_data, cat("/namespaces/{namespace}/", kind)), kind_namespaced_collection_path(schema_data, comp_name)));
        r.push((
            path_of(schema_data, cat(cat("/namespaces/{namespace}/", kind).as_str(), "/{name}")),
            kind_namespaced_item_path(schema_data, comp_name),
        ));
        r.push((
            path_of(schema_data, cat(cat("/namespaces/{namespace}/", kind).as_str(), "/{name}/status")),
            kind_namespaced_status_path(schema_data, comp_name),
        ));
    }
    assert(pairs_view(r@) =~= kind_paths(schema_data@, comp_name@));
    r
}

/// `m` after inserting each pair of `pairs` in order (map insertion).
pub open spec fn put_all(m: JsonTree, pairs: Seq<(Seq<char>, JsonTree)>) -> JsonTree
    decreases pairs.len(),
{
    if pairs.len() == 0 {
        m
    } else {
        put_all(m, pairs.drop_last()).put(pairs.last().0, pairs.last().1)
    }
}

/// Map insertions keep every key the object already had.
pub proof fn lemma_put_all_keeps_key(m: JsonTree, pairs: Seq<(Seq<char>, JsonTree)>, k: Seq<char>)
    requires
        m is Object,
        m.get(k) is Some,
    ensures
        put_all(m, pairs) is Object,
        put_all(m, pairs).get(k) is Some,
    decreases pairs.len(),
{
    if pairs.len() > 0 {
        lemma_put_all_keeps_key(m, pairs.drop_last(), k);
        lemma_put_keeps_key(put_all(m, pairs.drop_last()), k, pairs.last().0, pairs.last().1);
    }
}

/// After map insertions of `pairs`, each of their keys is present.
pub proof fn lemma_put_all_has_key(m: JsonTree, pairs: Seq<(Seq<char>, JsonTree)>, j: int)
    requires
        m is Object,
        0 <= j < pairs.len(),
    ensures
        put_all(m, pairs) is Object,
        put_all(m, pairs).get(pairs[j].0) is Some,
    decreases pairs.len(),
{
    let before = put_all(m, pairs.drop_last());
    if j == pairs.len() - 1 {
        if pairs.len() > 1 {
            lemma_put_all_is_object(m, pairs.drop_last());
        }
        lemma_put_then_get(before, pairs.last().0, pairs.last().1);
    } else {
        assert(pairs.drop_last()[j] == pairs[j]);
        lemma_put_all_has_key(m, pairs.drop_last(), j);
        lemma_put_keeps_key(before, pairs[j].0, pairs.last().0, pairs.last().1);
    }
}

/// Map insertions into an object give an object.
pub proof fn lemma_put_all_is_object(m: JsonTree, pairs: Seq<(Seq<char>, JsonTree)>)
    requires
        m is Object,
    ensures
        put_all(m, pairs) is Object,
    decreases pairs.len(),
{
    if pairs.len() > 0 {
        lemma_put_all_is_object(m, pairs.drop_last());
        lemma_put_then_get(put_all(m, pairs.drop_last()), pairs.last().0, pairs.last().1);
    }
}

fn put_pairs(m: JsonValue, pairs: &Vec<(String, JsonValue)>) -> (r: JsonValue)
    ensures
        r@ == put_all(m@, pairs_view(pairs@)),
{
    let ghost ps = pairs_view(pairs@);
    let ghost m0 = m@;
    let mut m = m;
    let mut i: usize = 0;
    while i < pairs.len()
        invariant
            0 <= i <= pairs.len(),
            ps == pairs_view(pairs@),
            m@ == put_all(m0, ps.take(i as int)),
        decreases pairs.len() - i,
    {
        proof {
            assert(ps.take(i + 1).drop_last() =~= ps.take(i as int));
            assert(ps.take(i + 1).last() == ps[i as int]);
        }
        let k = pairs[i].0.clone();
        let v = pairs[i].1.duplicate();
        m = m.put(k, v);
        i = i + 1;
    }
    proof {
        assert(ps.take(pairs.len() as int) =~= ps);
    }
    m
}

/// The registration payload a Schema object holds, if it reads as one.
pub open spec fn registered_schema(o: ObjectView) -> Option<SchemaDataView> {
    match parse_schema_data(o.spec) {
        Ok(d) => Some(d),
        Err(_) => None,
    }
}

/// The paths the Schema object `o` adds to the description: those of the
/// kind it registers, none when it does not read as a registration.
pub open spec fn registered_paths(o: ObjectView) -> Seq<(Seq<char>, JsonTree)> {
    match registered_schema(o) {
        Some(d) => kind_paths(d, kind_component_name(d)),
        None => Seq::empty(),
    }
}

/// The component name of a registered kind: that of its schema name
/// `{kind}.{group}.{version}`.
pub open spec fn kind_component_name(d: SchemaDataView) -> Seq<char> {
    spec_component_name(spec_schema_cache_key(d.kind, d.group, d.version))
}

/// The paths of the description for the Schema objects `items`, in order:
/// the static paths, then the paths of each object that reads as a
/// registration, a later path replacing an earlier one with the same URL.
pub open spec fn document_paths(items: Seq<ObjectView>) -> JsonTree
    decreases items.len(),
{
    if items.len() == 0 {
        put_all(tobj(), static_paths())
    } else {
        let before = document_paths(items.drop_last());
        match registered_schema(items.last()) {
            None => before,
            Some(d) => put_all(before, kind_paths(d, kind_component_name(d))),
        }
    }
}

/// The component schemas of the description for the Schema objects `items`,
/// in order: the static components, then the spec, StoredObject and
/// ListResponse components of each object that reads as a registration.
pub open spec fn document_schemas(items: Seq<ObjectView>) -> JsonTree
    decreases items.len(),
{
    if items.len() == 0 {
        put_all(tobj(), static_components())
    } else {
        let before = document_schemas(items.drop_last());
        match registered_schema(items.last()) {
            None => before,
            Some(d) => {
                let c = kind_component_name(d);
                put_all(before, seq![kind_spec_component(d, c), kind_stored_object_component(c), kind_list_response_component(c)])
            },
        }
    }
}

/// The OpenAPI 3.0.3 document for the registered Schema objects `items`.
pub open spec fn openapi_document(items: Seq<ObjectView>) -> JsonTree {
    tobj()
        .with_text("openapi"@, "3.0.3"@)
        .with("info"@, tobj()
            .with_text("title"@, "kapi API"@)
            .with_text("version"@, "0.1.0"@)
            .with_text("description"@, "Dynamic schema-driven API server"@))
        .with("paths"@, document_paths(items))
        .with("components"@, tobj().with("schemas"@, document_schemas(items)))
}

/// The paths of a description form an object that holds the Schema CRUD
/// paths and the collection, item and status paths of every listed kind
/// whose Schema object reads as a registration.
pub proof fn lemma_document_paths(items: Seq<ObjectView>, i: int)
    requires
        0 <= i < items.len(),
        registered_schema(items[i]) is Some,
    ensures
        ({
            let d = registered_schema(items[i])->0;
            let paths = document_paths(items);
            &&& paths is Object
            &&& paths.get(api_prefix(d, "/"@ + d.kind)) is Some
            &&& paths.get(api_prefix(d, "/"@ + d.kind + "/{name}"@)) is Some
            &&& paths.get(api_prefix(d, "/"@ + d.kind + "/{name}/status"@)) is Some
        }),
    decreases items.len(),
{
    let d = registered_schema(items[i])->0;
    let before = document_paths(items.drop_last());
    lemma_document_paths_object(items.drop_last());
    if i == items.len() - 1 {
        let ps = kind_paths(d, kind_component_name(d));
        lemma_put_all_has_key(before, ps, 0);
        lemma_put_all_has_key(before, ps, 1);
        lemma_put_all_has_key(before, ps, 2);
    } else {
        assert(items.drop_last()[i] == items[i]);
        lemma_document_paths(items.drop_last(), i);
        match registered_schema(items.last()) {
            None => {},
            Some(d2) => {
                let ps = kind_paths(d2, kind_component_name(d2));
                lemma_put_all_keeps_key(before, ps, api_prefix(d, "/"@ + d.kind));
                lemma_put_all_keeps_key(before, ps, api_prefix(d, "/"@ + d.kind + "/{name}"@));
                lemma_put_all_keeps_key(before, ps, api_prefix(d, "/"@ + d.kind + "/{name}/status"@));
            },
        }
    }
}

/// The paths of a description always form an object.
pub proof fn lemma_document_paths_object(items: Seq<ObjectView>)
    ensures
        document_paths(items) is Object,
    decreases items.len(),
{
    if items.len() == 0 {
        lemma_put_all_is_object(tobj(), static_paths());
    } else {
        lemma_document_paths_object(items.drop_last());
        match registered_schema(items.last()) {
            None => {},
            Some(d) => lemma_put_all_is_object(document_paths(items.drop_last()), kind_paths(d, kind_component_name(d))),
        }
    }
}

/// Map insertions of other keys keep a key absent.
pub proof fn lemma_put_all_keeps_absent(m: JsonTree, pairs: Seq<(Seq<char>, JsonTree)>, k: Seq<char>)
    requires
        m is Object,
        m.get(k) is None,
        forall|j: int| 0 <= j < pairs.len() ==> pairs[j].0 != k,
    ensures
        put_all(m, pairs) is Object,
        put_all(m, pairs).get(k) is None,
    decreases pairs.len(),
{
    if pairs.len() > 0 {
        assert forall|j: int| 0 <= j < pairs.drop_last().len() implies pairs.drop_last()[j].0 != k by {
            assert(pairs.drop_last()[j] == pairs[j]);
        }
        lemma_put_all_keeps_absent(m, pairs.drop_last(), k);
        lemma_put_keeps_absent(put_all(m, pairs.drop_last()), k, pairs.last().0, pairs.last().1);
    }
}

/// A path that neither the static paths nor a listed registration gives is
/// not among the description's paths.
pub proof fn lemma_document_paths_absent(items: Seq<ObjectView>, p: Seq<char>)
    requires
        forall|j: int| 0 <= j < static_paths().len() ==> static_paths()[j].0 != p,
        forall|i: int, j: int| 0 <= i < items.len() && 0 <= j < registered_paths(items[i]).len()
            ==> (#[trigger] registered_paths(items[i])[j]).0 != p,
    ensures
        document_paths(items) is Object,
        document_paths(items).get(p) is None,
    decreases items.len(),
{
    if items.len() == 0 {
        lemma_put_all_keeps_absent(tobj(), static_paths(), p);
    } else {
        let rest = items.drop_last();
        assert forall|i: int, j: int| 0 <= i < rest.len() && 0 <= j < registered_paths(rest[i]).len()
            implies (#[trigger] registered_paths(rest[i])[j]).0 != p by {
            assert(rest[i] == items[i]);
        }
        lemma_document_paths_absent(rest, p);
        match registered_schema(items.last()) {
            None => {},
            Some(d) => {
                let last = items.len() - 1;
                assert(items[last] == items.last());
                assert forall|j: int| 0 <= j < kind_paths(d, kind_component_name(d)).len()
                    implies kind_paths(d, kind_component_name(d))[j].0 != p by {
                    assert(registered_paths(items[last])[j] == kind_paths(d, kind_component_name(d))[j]);
                }
                lemma_put_all_keeps_absent(document_paths(rest), kind_paths(d, kind_component_name(d)), p);
            },
        }
    }
}

/// The component schemas of a description form an object that holds the
/// spec, StoredObject and ListResponse components of every listed kind whose
/// Schema object reads as a registration.
pub proof fn lemma_document_schemas(items: Seq<ObjectView>, i: int)
    requires
        0 <= i < items.len(),
        registered_schema(items[i]) is Some,
    ensures
        ({
            let c = kind_component_name(registered_schema(items[i])->0);
            let schemas = document_schemas(items);
            &&& schemas is Object
            &&& schemas.get(c) is Some
            &&& schemas.get(c + "StoredObject"@) is Some
            &&& schemas.get(c + "ListResponse"@) is Some
        }),
    decreases items.len(),
{
    let d = registered_schema(items[i])->0;
    let c = kind_component_name(d);
    let before = document_schemas(items.drop_last());
    lemma_document_schemas_object(items.drop_last());
    if i == items.len() - 1 {
        let ps = seq![kind_spec_component(d, c), kind_stored_object_component(c), kind_list_response_component(c)];
        lemma_put_all_has_key(before, ps, 0);
        lemma_put_all_has_key(before, ps, 1);
        lemma_put_all_has_key(before, ps, 2);
    } else {
        assert(items.drop_last()[i] == items[i]);
        lemma_document_schemas(items.drop_last(), i);
        match registered_schema(items.last()) {
            None => {},
            Some(d2) => {
                let c2 = kind_component_name(d2);
                let ps = seq![kind_spec_component(d2, c2), kind_stored_object_component(c2), kind_list_response_component(c2)];
                lemma_put_all_keeps_key(before, ps, c);
                lemma_put_all_keeps_key(before, ps, c + "StoredObject"@);
                lemma_put_all_keeps_key(before, ps, c + "ListResponse"@);
            },
        }
    }
}

/// The component schemas of a description always form an object.
pub proof fn lemma_document_schemas_object(items: Seq<ObjectView>)
    ensures
        document_schemas(items) is Object,
    decreases items.len(),
{
    if items.len() == 0 {
        lemma_put_all_is_object(tobj(), static_components());
    } else {
        lemma_document_schemas_object(items.drop_last());
        match registered_schema(items.last()) {
            None => {},
            Some(d) => {
                let c = kind_component_name(d);
                lemma_put_all_is_object(document_schemas(items.drop_last()),
                    seq![kind_spec_component(d, c), kind_stored_object_component(c), kind_list_response_component(c)]);
            },
        }
    }
}


/// Builds the OpenAPI document for the given Schema objects: static
/// components and paths, then for each object whose spec reads as a
/// registration payload its three components and its paths; objects that do
/// not read as one are skipped.
pub fn build_openapi_document(items: &Vec<StoredObject>) -> (r: JsonValue)
    ensures
        r@ == openapi_document(object_views(items@)),
{
    let ghost views = object_views(items@);
    let mut schemas = put_pairs(jobj(), &build_static_components());
    let mut paths = put_pairs(jobj(), &build_static_paths());
    proof {
        assert(views.take(0) =~= Seq::<ObjectView>::empty());
    }
    let mut i: usize = 0;
    while i < items.len()
        invariant
            0 <= i <= items.len(),
            views == object_views(items@),
            schemas@ == document_schemas(views.take(i as int)),
            paths@ == document_paths(views.take(i as int)),
        decreases items.len() - i,
    {
        proof {
            assert(views.take(i + 1).drop_last() =~= views.take(i as int));
            assert(views.take(i + 1).last() == items@[i as int]@);
        }
        match SchemaData::from_json(&items[i].spec) {
            Ok(schema_data) => {
                let d = &schema_data;
                let schema_name = schema_cache_key(
                    d.target_kind.as_str(),
                    d.target_group.as_str(),
                    d.target_version.as_str(),
                );
                let comp_name = component_name(schema_name.as_str());
                let mut parts: Vec<(String, JsonValue)> = Vec::new();
                parts.push(build_kind_spec_component(d, comp_name.as_str()));
                parts.push(build_kind_stored_object_component(comp_name.as_str()));
                parts.push(build_kind_list_response_component(comp_name.as_str()));
                proof {
                    assert(pairs_view(parts@) =~= seq![
                        kind_spec_component(d@, comp_name@),
                        kind_stored_object_component(comp_name@),
                        kind_list_response_component(comp_name@),
                    ]);
                }
                schemas = put_pairs(schemas, &parts);
                paths = put_pairs(paths, &build_kind_paths(d, comp_name.as_str()));
            },
            Err(_) => {},
        }
        i = i + 1;
    }
    proof {
        assert(views.take(items.len() as int) =~= views);
    }
    jobj()
        .with_text("openapi", "3.0.3")
        .with("info", jobj()
            .with_text("title", "kapi API")
            .with_text("version", "0.1.0")
            .with_text("description", "Dynamic schema-driven API server"))
        .with("paths", paths)
        .with("components", jobj().with("schemas", schemas))
}

/// The list request that discovers the registered schemas: every Schema
/// object, no filter, no limit.
pub open spec fn all_schemas_request() -> ListOptions {
    ListOptions { limit: None, continue_token: None, field_selector: None, label_selector: None }
}

/// Builds the OpenAPI document from the Schema objects in `store`: lists
/// them all and describes each as [`build_openapi_document`] does. The
/// listing cannot fail, so neither can this.
pub fn build_openapi_spec(service: &ObjectService, store: &InMemoryStore) -> (r: Result<JsonValue, AppError>)
    ensures
        r matches Ok(doc) && exists|page: ListResponse|
            page_answers(store@, spec_schema_key(), None, all_schemas_request(), page)
            && doc@ == #[trigger] openapi_document(object_views(page.items@)),
{
    let opts = ListOptions { limit: None, continue_token: None, field_selector: None, label_selector: None };
    match service.list(store, schema_resource_key(), None, opts) {
        Ok(page) => {
            let doc = build_openapi_document(&page.items);
            proof {
                assert(opt_ref_str(None) == Option::<Seq<char>>::None);
            }
            Ok(doc)
        },
        Err(e) => Err(e),
    }
}

} // verus!
