//! Component schemas of the OpenAPI description: those of the built-in
//! types, always present, and the three each registered kind adds.

use vstd::prelude::*;
use crate::json::{JsonTree, JsonValue};
use crate::jsonbuild::{cat, jarr, jobj, jstr, jtext, pair_view, pairs_view, tarr, tobj, tstr};
use crate::schema_data::{SchemaData, SchemaDataView};

verus! {

broadcast use vstd::std_specs::vec::group_vec_axioms;

/// The `ResourceKey` component: `{ group, version, kind }`, all strings.
pub open spec fn resource_key_doc() -> JsonTree {
    tobj()
        .with_text("type"@, "object"@)
        .with("properties"@, tobj()
            .with("group"@, tobj()
                .with_text("type"@, "string"@))
            .with("version"@, tobj()
                .with_text("type"@, "string"@))
            .with("kind"@, tobj()
                .with_text("type"@, "string"@)))
        .with("required"@, tarr()
            .and(tstr("group"@))
            .and(tstr("version"@))
            .and(tstr("kind"@)))
}

/// The `ResourceKey` component: `{ group, version, kind }`, all strings.
fn resource_key_schema() -> (r: JsonValue)
    ensures
        r@ == resource_key_doc(),
{
    jobj()
        .with_text("type", "object")
        .with("properties", jobj()
            .with("group", jobj()
                .with_text("type", "string"))
            .with("version", jobj()
                .with_text("type", "string"))
            .with("kind", jobj()
                .with_text("type", "string")))
        .with("required", jarr()
            .and(jstr("group"))
            .and(jstr("version"))
            .and(jstr("kind")))
}

/// The `ObjectMeta` component: the user-controlled metadata.
pub open spec fn object_meta_doc() -> JsonTree {
    tobj()
        .with_text("type"@, "object"@)
        .with("properties"@, tobj()
            .with("name"@, tobj()
                .with_text("type"@, "string"@))
            .with("labels"@, tobj()
                .with_text("type"@, "object"@)
                .with("additionalProperties"@, tobj()
                    .with_text("type"@, "string"@))))
        .with("required"@, tarr()
            .and(tstr("name"@)))
}

/// The `ObjectMeta` component: the user-controlled metadata.
fn object_meta_schema() -> (r: JsonValue)
    ensures
        r@ == object_meta_doc(),
{
    jobj()
        .with_text("type", "object")
        .with("properties", jobj()
            .with("name", jobj()
                .with_text("type", "string"))
            .with("labels", jobj()
                .with_text("type", "object")
                .with("additionalProperties", jobj()
                    .with_text("type", "string"))))
        .with("required", jarr()
            .and(jstr("name")))
}

/// The `SystemMetadata` component: the server-managed lifecycle fields.
pub open spec fn system_metadata_doc() -> JsonTree {
    tobj()
        .with_text("type"@, "object"@)
        .with("properties"@, tobj()
            .with("resourceVersion"@, tobj()
                .with_text("type"@, "integer"@)
                .with_text("format"@, "int64"@))
            .with("generation"@, tobj()
                .with_text("type"@, "integer"@)
                .with_text("format"@, "int64"@)
                .with_text("description"@, "Sequence number representing observed generation of the object's spec. Bumps only when spec changes."@))
            .with("createdAt"@, tobj()
                .with_text("type"@, "string"@)
                .with_text("format"@, "date-time"@))
            .with("updatedAt"@, tobj()
                .with_text("type"@, "string"@)
                .with_text("format"@, "date-time"@)))
        .with("required"@, tarr()
            .and(tstr("resourceVersion"@))
            .and(tstr("generation"@))
            .and(tstr("createdAt"@))
            .and(tstr("updatedAt"@)))
}

/// The `SystemMetadata` component: the server-managed lifecycle fields.
fn system_metadata_schema() -> (r: JsonValue)
    ensures
        r@ == system_metadata_doc(),
{
    jobj()
        .with_text("type", "object")
        .with("properties", jobj()
            .with("resourceVersion", jobj()
                .with_text("type", "integer")
                .with_text("format", "int64"))
            .with("generation", jobj()
                .with_text("type", "integer")
                .with_text("format", "int64")
                .with_text("description", "Sequence number representing observed generation of the object's spec. Bumps only when spec changes."))
            .with("createdAt", jobj()
                .with_text("type", "string")
                .with_text("format", "date-time"))
            .with("updatedAt", jobj()
                .with_text("type", "string")
                .with_text("format", "date-time")))
        .with("required", jarr()
            .and(jstr("resourceVersion"))
            .and(jstr("generation"))
            .and(jstr("createdAt"))
            .and(jstr("updatedAt")))
}

/// The `StoredObject` component: the envelope of a stored resource.
pub open spec fn stored_object_doc() -> JsonTree {
    tobj()
        .with_text("type"@, "object"@)
        .with("properties"@, tobj()
            .with("key"@, tobj()
                .with_text("$ref"@, "#/components/schemas/ResourceKey"@))
            .with("metadata"@, tobj()
                .with_text("$ref"@, "#/components/schemas/ObjectMeta"@))
            .with("system"@, tobj()
                .with_text("$ref"@, "#/components/schemas/SystemMetadata"@))
            .with("spec"@, tobj()
                .with_text("description"@, "User-defined spec payload, validated against the kind's registered jsonSchema"@))
            .with("status"@, tobj()
                .with("nullable"@, JsonTree::Bool(true))
                .with_text("description"@, "Status subresource, managed via /status endpoint. Null for kinds without statusSchema."@)))
        .with("required"@, tarr()
            .and(tstr("key"@))
            .and(tstr("metadata"@))
            .and(tstr("system"@))
            .and(tstr("spec"@)))
}

/// The `StoredObject` component: the envelope of a stored resource.
fn stored_object_schema() -> (r: JsonValue)
    ensures
        r@ == stored_object_doc(),
{
    jobj()
        .with_text("type", "object")
        .with("properties", jobj()
            .with("key", jobj()
                .with_text("$ref", "#/components/schemas/ResourceKey"))
            .with("metadata", jobj()
                .with_text("$ref", "#/components/schemas/ObjectMeta"))
            .with("system", jobj()
                .with_text("$ref", "#/components/schemas/SystemMetadata"))
            .with("spec", jobj()
                .with_text("description", "User-defined spec payload, validated against the kind's registered jsonSchema"))
            .with("status", jobj()
                .with("nullable", JsonValue::Bool(true))
                .with_text("description", "Status subresource, managed via /status endpoint. Null for kinds without statusSchema.")))
        .with("required", jarr()
            .and(jstr("key"))
            .and(jstr("metadata"))
            .and(jstr("system"))
            .and(jstr("spec")))
}

/// The `ListResponse` component: one page of stored objects.
pub open spec fn list_response_doc() -> JsonTree {
    tobj()
        .with_text("type"@, "object"@)
        .with("properties"@, tobj()
            .with("items"@, tobj()
                .with_text("type"@, "array"@)
                .with("items"@, tobj()
                    .with_text("$ref"@, "#/components/schemas/StoredObject"@)))
            .with("continueToken"@, tobj()
                .with_text("type"@, "string"@)
                .with("nullable"@, JsonTree::Bool(true))))
        .with("required"@, tarr()
            .and(tstr("items"@)))
}

/// The `ListResponse` component: one page of stored objects.
fn list_response_schema() -> (r: JsonValue)
    ensures
        r@ == list_response_doc(),
{
    jobj()
        .with_text("type", "object")
        .with("properties", jobj()
            .with("items", jobj()
                .with_text("type", "array")
                .with("items", jobj()
                    .with_text("$ref", "#/components/schemas/StoredObject")))
            .with("continueToken", jobj()
                .with_text("type", "string")
                .with("nullable", JsonValue::Bool(true))))
        .with("required", jarr()
            .and(jstr("items")))
}

/// The `WatchEvent` component: an event's type and object.
pub open spec fn watch_event_doc() -> JsonTree {
    tobj()
        .with_text("type"@, "object"@)
        .with("properties"@, tobj()
            .with("eventType"@, tobj()
                .with_text("$ref"@, "#/components/schemas/WatchEventType"@))
            .with("object"@, tobj()
                .with_text("$ref"@, "#/components/schemas/StoredObject"@)))
        .with("required"@, tarr()
            .and(tstr("eventType"@))
            .and(tstr("object"@)))
}

/// The `WatchEvent` component: an event's type and object.
fn watch_event_schema() -> (r: JsonValue)
    ensures
        r@ == watch_event_doc(),
{
    jobj()
        .with_text("type", "object")
        .with("properties", jobj()
            .with("eventType", jobj()
                .with_text("$ref", "#/components/schemas/WatchEventType"))
            .with("object", jobj()
                .with_text("$ref", "#/components/schemas/StoredObject")))
        .with("required", jarr()
            .and(jstr("eventType"))
            .and(jstr("object")))
}

/// The `WatchEventType` component: the kinds of event.
pub open spec fn watch_event_type_doc() -> JsonTree {
    tobj()
        .with_text("type"@, "string"@)
        .with("enum"@, tarr()
            .and(tstr("Added"@))
            .and(tstr("Modified"@))
            .and(tstr("Deleted"@))
            .and(tstr("StatusModified"@)))
}

/// The `WatchEventType` component: the kinds of event.
fn watch_event_type_schema() -> (r: JsonValue)
    ensures
        r@ == watch_event_type_doc(),
{
    jobj()
        .with_text("type", "string")
        .with("enum", jarr()
            .and(jstr("Added"))
            .and(jstr("Modified"))
            .and(jstr("Deleted"))
            .and(jstr("StatusModified")))
}

/// The `ValidationError` component: one failed check of a document.
pub open spec fn validation_error_doc() -> JsonTree {
    tobj()
        .with_text("type"@, "object"@)
        .with("properties"@, tobj()
            .with("path"@, tobj()
                .with_text("type"@, "string"@))
            .with("message"@, tobj()
                .with_text("type"@, "string"@)))
        .with("required"@, tarr()
            .and(tstr("path"@))
            .and(tstr("message"@)))
}

/// The `ValidationError` component: one failed check of a document.
fn validation_error_schema() -> (r: JsonValue)
    ensures
        r@ == validation_error_doc(),
{
    jobj()
        .with_text("type", "object")
        .with("properties", jobj()
            .with("path", jobj()
                .with_text("type", "string"))
            .with("message", jobj()
                .with_text("type", "string")))
        .with("required", jarr()
            .and(jstr("path"))
            .and(jstr("message")))
}

/// The `InvalidFieldSelector` component: the error body for a bad `fieldSelector`.
pub open spec fn invalid_field_selector_doc() -> JsonTree {
    tobj()
        .with_text("type"@, "object"@)
        .with("properties"@, tobj()
            .with("error"@, tobj()
                .with_text("type"@, "string"@))
            .with("code"@, tobj()
                .with_text("type"@, "string"@))
            .with("details"@, tobj()
                .with_text("type"@, "object"@)
                .with("properties"@, tobj()
                    .with("message"@, tobj()
                        .with_text("type"@, "string"@)))))
        .with("required"@, tarr()
            .and(tstr("error"@))
            .and(tstr("code"@)))
}

/// The `InvalidFieldSelector` component: the error body for a bad `fieldSelector`.
fn invalid_field_selector_schema() -> (r: JsonValue)
    ensures
        r@ == invalid_field_selector_doc(),
{
    jobj()
        .with_text("type", "object")
        .with("properties", jobj()
            .with("error", jobj()
                .with_text("type", "string"))
            .with("code", jobj()
                .with_text("type", "string"))
            .with("details", jobj()
                .with_text("type", "object")
                .with("properties", jobj()
                    .with("message", jobj()
                        .with_text("type", "string")))))
        .with("required", jarr()
            .and(jstr("error"))
            .and(jstr("code")))
}

/// The `InvalidFinalizer` component: the error body for a bad finalizer.
pub open spec fn invalid_finalizer_doc() -> JsonTree {
    tobj()
        .with_text("type"@, "object"@)
        .with("properties"@, tobj()
            .with("error"@, tobj()
                .with_text("type"@, "string"@))
            .with("code"@, tobj()
                .with_text("type"@, "string"@))
            .with("details"@, tobj()
                .with_text("type"@, "object"@)
                .with("properties"@, tobj()
                    .with("message"@, tobj()
                        .with_text("type"@, "string"@)))))
        .with("required"@, tarr()
            .and(tstr("error"@))
            .and(tstr("code"@)))
}

/// The `InvalidFinalizer` component: the error body for a bad finalizer.
fn invalid_finalizer_schema() -> (r: JsonValue)
    ensures
        r@ == invalid_finalizer_doc(),
{
    jobj()
        .with_text("type", "object")
        .with("properties", jobj()
            .with("error", jobj()
                .with_text("type", "string"))
            .with("code", jobj()
                .with_text("type", "string"))
            .with("details", jobj()
                .with_text("type", "object")
                .with("properties", jobj()
                    .with("message", jobj()
                        .with_text("type", "string")))))
        .with("required", jarr()
            .and(jstr("error"))
            .and(jstr("code")))
}

/// The `ObjectBeingDeleted` component: the error body for a write to an object being deleted.
pub open spec fn object_being_deleted_doc() -> JsonTree {
    tobj()
        .with_text("type"@, "object"@)
        .with("properties"@, tobj()
            .with("error"@, tobj()
                .with_text("type"@, "string"@))
            .with("code"@, tobj()
                .with_text("type"@, "string"@))
            .with("details"@, tobj()
                .with_text("type"@, "object"@)
                .with("properties"@, tobj()
                    .with("name"@, tobj()
                        .with_text("type"@, "string"@)))))
        .with("required"@, tarr()
            .and(tstr("error"@))
            .and(tstr("code"@)))
}

/// The `ObjectBeingDeleted` component: the error body for a write to an object being deleted.
fn object_being_deleted_schema() -> (r: JsonValue)
    ensures
        r@ == object_being_deleted_doc(),
{
    jobj()
        .with_text("type", "object")
        .with("properties", jobj()
            .with("error", jobj()
                .with_text("type", "string"))
            .with("code", jobj()
                .with_text("type", "string"))
            .with("details", jobj()
                .with_text("type", "object")
                .with("properties", jobj()
                    .with("name", jobj()
                        .with_text("type", "string")))))
        .with("required", jarr()
            .and(jstr("error"))
            .and(jstr("code")))
}

/// The `AppError` component: the body of every error response.
pub open spec fn app_error_doc() -> JsonTree {
    tobj()
        .with_text("type"@, "object"@)
        .with("properties"@, tobj()
            .with("error"@, tobj()
                .with_text("type"@, "string"@))
            .with("code"@, tobj()
                .with_text("type"@, "string"@))
            .with("details"@, tobj()))
        .with("required"@, tarr()
            .and(tstr("error"@))
            .and(tstr("code"@)))
}

/// The `AppError` component: the body of every error response.
fn app_error_schema() -> (r: JsonValue)
    ensures
        r@ == app_error_doc(),
{
    jobj()
        .with_text("type", "object")
        .with("properties", jobj()
            .with("error", jobj()
                .with_text("type", "string"))
            .with("code", jobj()
                .with_text("type", "string"))
            .with("details", jobj()))
        .with("required", jarr()
            .and(jstr("error"))
            .and(jstr("code")))
}

/// The `SchemaData` component: the payload of a Schema registration.
pub open spec fn schema_data_doc() -> JsonTree {
    tobj()
        .with_text("type"@, "object"@)
        .with("properties"@, tobj()
            .with("targetGroup"@, tobj()
                .with_text("type"@, "string"@))
            .with("targetVersion"@, tobj()
                .with_text("type"@, "string"@))
            .with("targetKind"@, tobj()
                .with_text("type"@, "string"@))
            .with("specSchema"@, tobj())
            .with("statusSchema"@, tobj()
                .with_text("type"@, "object"@)
                .with_text("description"@, "Optional JSON Schema for validating the status subresource. When present, enables GET/PUT /status endpoints for objects of this kind."@)))
        .with("required"@, tarr()
            .and(tstr("targetGroup"@))
            .and(tstr("targetVersion"@))
            .and(tstr("targetKind"@))
            .and(tstr("specSchema"@)))
}

/// The `SchemaData` component: the payload of a Schema registration.
fn schema_data_schema() -> (r: JsonValue)
    ensures
        r@ == schema_data_doc(),
{
    jobj()
        .with_text("type", "object")
        .with("properties", jobj()
            .with("targetGroup", jobj()
                .with_text("type", "string"))
            .with("targetVersion", jobj()
                .with_text("type", "string"))
            .with("targetKind", jobj()
                .with_text("type", "string"))
            .with("specSchema", jobj())
            .with("statusSchema", jobj()
                .with_text("type", "object")
                .with_text("description", "Optional JSON Schema for validating the status subresource. When present, enables GET/PUT /status endpoints for objects of this kind.")))
        .with("required", jarr()
            .and(jstr("targetGroup"))
            .and(jstr("targetVersion"))
            .and(jstr("targetKind"))
            .and(jstr("specSchema")))
}

/// The component schemas of the built-in types, by name, in order.
pub open spec fn static_components() -> Seq<(Seq<char>, JsonTree)> {
    seq![
        ("ResourceKey"@, resource_key_doc()),
        ("ObjectMeta"@, object_meta_doc()),
        ("SystemMetadata"@, system_metadata_doc()),
        ("StoredObject"@, stored_object_doc()),
        ("ListResponse"@, list_response_doc()),
        ("WatchEvent"@, watch_event_doc()),
        ("WatchEventType"@, watch_event_type_doc()),
        ("ValidationError"@, validation_error_doc()),
        ("InvalidFieldSelector"@, invalid_field_selector_doc()),
        ("InvalidFinalizer"@, invalid_finalizer_doc()),
        ("ObjectBeingDeleted"@, object_being_deleted_doc()),
        ("AppError"@, app_error_doc()),
        ("SchemaData"@, schema_data_doc()),
    ]
}

/// Returns the component schemas of the built-in types, which every
/// description holds whatever kinds are registered.
pub fn build_static_components() -> (r: Vec<(String, JsonValue)>)
    ensures
        pairs_view(r@) == static_components(),
{
    let mut r: Vec<(String, JsonValue)> = Vec::new();
    r.push((String::from_str("ResourceKey"), resource_key_schema()));
    r.push((String::from_str("ObjectMeta"), object_meta_schema()));
    r.push((String::from_str("SystemMetadata"), system_metadata_schema()));
    r.push((String::from_str("StoredObject"), stored_object_schema()));
    r.push((String::from_str("ListResponse"), list_response_schema()));
    r.push((String::from_str("WatchEvent"), watch_event_schema()));
    r.push((String::from_str("WatchEventType"), watch_event_type_schema()));
    r.push((String::from_str("ValidationError"), validation_error_schema()));
    r.push((String::from_str("InvalidFieldSelector"), invalid_field_selector_schema()));
    r.push((String::from_str("InvalidFinalizer"), invalid_finalizer_schema()));
    r.push((String::from_str("ObjectBeingDeleted"), object_being_deleted_schema()));
    r.push((String::from_str("AppError"), app_error_schema()));
    r.push((String::from_str("SchemaData"), schema_data_schema()));
    assert(pairs_view(r@) =~= static_components());
    r
}

/// The StoredObject envelope of a registered kind, whose spec refers to
/// the kind's own component `comp_name`.
pub open spec fn kind_stored_object_doc(comp_name: Seq<char>) -> JsonTree {
    tobj()
        .with_text("type"@, "object"@)
        .with("properties"@, tobj()
            .with("key"@, tobj()
                .with_text("$ref"@, "#/components/schemas/ResourceKey"@))
            .with("metadata"@, tobj()
                .with_text("$ref"@, "#/components/schemas/ObjectMeta"@))
            .with("system"@, tobj()
                .with_text("$ref"@, "#/components/schemas/SystemMetadata"@))
            .with("spec"@, tobj()
                .with("$ref"@, tstr("#/components/schemas/"@ + comp_name))))
        .with("required"@, tarr()
            .and(tstr("key"@))
            .and(tstr("metadata"@))
            .and(tstr("system"@))
            .and(tstr("spec"@)))
}

/// The StoredObject envelope of a registered kind, whose spec refers to
/// the kind's own component `comp_name`.
fn kind_stored_object_schema(comp_name: &str) -> (r: JsonValue)
    ensures
        r@ == kind_stored_object_doc(comp_name@),
{
    jobj()
        .with_text("type", "object")
        .with("properties", jobj()
            .with("key", jobj()
                .with_text("$ref", "#/components/schemas/ResourceKey"))
            .with("metadata", jobj()
                .with_text("$ref", "#/components/schemas/ObjectMeta"))
            .with("system", jobj()
                .with_text("$ref", "#/components/schemas/SystemMetadata"))
            .with("spec", jobj()
                .with("$ref", jtext(cat("#/components/schemas/", comp_name)))))
        .with("required", jarr()
            .and(jstr("key"))
            .and(jstr("metadata"))
            .and(jstr("system"))
            .and(jstr("spec")))
}

/// The ListResponse of a registered kind: its items are the kind's
/// StoredObject envelopes.
pub open spec fn kind_list_response_doc(comp_name: Seq<char>) -> JsonTree {
    tobj()
        .with_text("type"@, "object"@)
        .with("properties"@, tobj()
            .with("items"@, tobj()
                .with_text("type"@, "array"@)
                .with("items"@, tobj()
                    .with("$ref"@, tstr("#/components/schemas/"@ + comp_name + "StoredObject"@))))
            .with("continueToken"@, tobj()
                .with_text("type"@, "string"@)
                .with("nullable"@, JsonTree::Bool(true))))
        .with("required"@, tarr()
            .and(tstr("items"@)))
}

/// The ListResponse of a registered kind: its items are the kind's
/// StoredObject envelopes.
fn kind_list_response_schema(comp_name: &str) -> (r: JsonValue)
    ensures
        r@ == kind_list_response_doc(comp_name@),
{
    jobj()
        .with_text("type", "object")
        .with("properties", jobj()
            .with("items", jobj()
                .with_text("type", "array")
                .with("items", jobj()
                    .with("$ref", jtext(cat(cat("#/components/schemas/", comp_name).as_str(), "StoredObject")))))
            .with("continueToken", jobj()
                .with_text("type", "string")
                .with("nullable", JsonValue::Bool(true))))
        .with("required", jarr()
            .and(jstr("items")))
}

/// The spec component of a registered kind: the kind's `specSchema`
/// itself, under the kind's component name.
pub open spec fn kind_spec_component(schema_data: SchemaDataView, comp_name: Seq<char>) -> (Seq<char>, JsonTree) {
    (comp_name, schema_data.spec_schema)
}

/// Builds the spec component of a registered kind: the user's `specSchema`
/// verbatim, named `comp_name`.
pub fn build_kind_spec_component(schema_data: &SchemaData, comp_name: &str) -> (r: (String, JsonValue))
    ensures
        pair_view(r) == kind_spec_component(schema_data@, comp_name@),
{
    (String::from_str(comp_name), schema_data.spec_schema.duplicate())
}

/// The StoredObject component of a registered kind, named
/// `{comp_name}StoredObject`.
pub open spec fn kind_stored_object_component(comp_name: Seq<char>) -> (Seq<char>, JsonTree) {
    (comp_name + "StoredObject"@, kind_stored_object_doc(comp_name))
}

/// Builds the StoredObject envelope component of a registered kind:
/// `{ key, metadata, system, spec }`, where `spec` refers to the kind's spec
/// component.
pub fn build_kind_stored_object_component(comp_name: &str) -> (r: (String, JsonValue))
    ensures
        pair_view(r) == kind_stored_object_component(comp_name@),
{
    (cat(comp_name, "StoredObject"), kind_stored_object_schema(comp_name))
}

/// The ListResponse component of a registered kind, named
/// `{comp_name}ListResponse`.
pub open spec fn kind_list_response_component(comp_name: Seq<char>) -> (Seq<char>, JsonTree) {
    (comp_name + "ListResponse"@, kind_list_response_doc(comp_name))
}

/// Builds the ListResponse component of a registered kind: an `items` array
/// of the kind's StoredObject and an optional `continueToken`.
pub fn build_kind_list_response_component(comp_name: &str) -> (r: (String, JsonValue))
    ensures
        pair_view(r) == kind_list_response_component(comp_name@),
{
    (cat(comp_name, "ListResponse"), kind_list_response_schema(comp_name))
}

} // verus!
