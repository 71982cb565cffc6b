use kapi::keys::{namespace_key, schema_cache_key, schema_key, DEFAULT_NAMESPACE, SCOPE_CLUSTER, SCOPE_NAMESPACED};
use kapi::openapi::{component_name, schema_resource_key};

#[test]
fn schema_cache_key_format() {
    assert_eq!(schema_cache_key("Widget", "example.io", "v1"), "Widget.example.io.v1");
    assert_eq!(schema_cache_key("Widget", "example.io", "v2"), "Widget.example.io.v2");
    assert_eq!(schema_cache_key("Deployment", "apps", "v1beta1"), "Deployment.apps.v1beta1");
}

#[test]
fn schema_cache_key_distinguishes_versions() {
    let v1 = schema_cache_key("Widget", "example.io", "v1");
    let v2 = schema_cache_key("Widget", "example.io", "v2");
    assert_ne!(v1, v2, "different versions must yield different keys");
}

#[test]
fn builtin_keys() {
    let ns = namespace_key();
    assert_eq!(ns.group, "kapi.io");
    assert_eq!(ns.version, "v1");
    assert_eq!(ns.kind, "Namespace");
    let s = schema_key();
    assert_eq!(s.group, "kapi.io");
    assert_eq!(s.version, "v1");
    assert_eq!(s.kind, "Schema");
    assert_eq!(schema_resource_key(), s);
    assert_eq!(DEFAULT_NAMESPACE, "default");
    assert_eq!(SCOPE_NAMESPACED, "Namespaced");
    assert_eq!(SCOPE_CLUSTER, "Cluster");
}

#[test]
fn openapi_component_name_splits_dots_and_pascal_cases() {
    assert_eq!(component_name("Widget.example.io"), "WidgetExampleIo");
}

#[test]
fn openapi_component_name_multi_segment_group() {
    assert_eq!(component_name("Deployment.apps"), "DeploymentApps");
}

#[test]
fn openapi_component_name_same_kind_different_group_no_collision() {
    assert_eq!(component_name("Widget.example.io"), "WidgetExampleIo");
    assert_eq!(component_name("Widget.other.io"), "WidgetOtherIo");
    assert_ne!(component_name("Widget.example.io"), component_name("Widget.other.io"));
}

#[test]
fn mod_component_name_splits_dots_and_pascal_cases() {
    assert_eq!(component_name("Widget.example.io.v1"), "WidgetExampleIoV1");
}

#[test]
fn mod_component_name_multi_segment_group() {
    assert_eq!(component_name("Deployment.apps"), "DeploymentApps");
}

#[test]
fn mod_component_name_same_kind_different_group_no_collision() {
    assert_eq!(component_name("Widget.example.io.v1"), "WidgetExampleIoV1");
    assert_eq!(component_name("Widget.other.io"), "WidgetOtherIo");
    assert_ne!(component_name("Widget.example.io.v1"), component_name("Widget.other.io"));
}

#[test]
fn component_name_lowercases_the_rest_and_skips_empty_segments() {
    assert_eq!(component_name("WIDGET..EXAMPLE.io"), "WidgetExampleIo");
    assert_eq!(component_name(""), "");
    assert_eq!(component_name("straße.de"), "StraßeDe");
}
