use kapi::strmap::StringMap;
use kapi::validation::{validate_annotations, validate_finalizers, validate_labels};

fn map(pairs: &[(&str, &str)]) -> StringMap {
    let mut m = StringMap::new();
    for (k, v) in pairs {
        m.insert(k.to_string(), v.to_string());
    }
    m
}

#[test]
fn validate_labels_empty_map() {
    assert!(validate_labels(&StringMap::new()).is_ok());
}

#[test]
fn validate_labels_valid_simple_keys() {
    let labels = map(&[("app", "nginx"), ("my-label", "v1"), ("label_name.v2", "prod")]);
    assert!(validate_labels(&labels).is_ok());
}

#[test]
fn validate_labels_valid_prefixed_keys() {
    let labels = map(&[("app.example.io/name", "myapp"), ("example.com/tier", "frontend")]);
    assert!(validate_labels(&labels).is_ok());
}

#[test]
fn validate_labels_empty_key_rejected() {
    assert!(validate_labels(&map(&[("", "value")])).is_err());
}

#[test]
fn validate_labels_key_too_long() {
    let long_key = "a".repeat(257);
    assert!(validate_labels(&map(&[(long_key.as_str(), "value")])).is_err());
}

#[test]
fn validate_labels_key_invalid_chars() {
    assert!(validate_labels(&map(&[("invalid key!", "value")])).is_err());
}

#[test]
fn validate_labels_value_too_long() {
    let long_value = "a".repeat(257);
    assert!(validate_labels(&map(&[("key", long_value.as_str())])).is_err());
}

#[test]
fn validate_labels_value_invalid_chars() {
    assert!(validate_labels(&map(&[("key", "invalid value!")])).is_err());
}

#[test]
fn validate_labels_empty_value_allowed() {
    assert!(validate_labels(&map(&[("key", "")])).is_ok());
}

#[test]
fn validate_labels_prefix_too_long() {
    let long_prefix = "a".repeat(254);
    let key = format!("{}/name", long_prefix);
    assert!(validate_labels(&map(&[(key.as_str(), "value")])).is_err());
}

#[test]
fn validate_labels_name_limits() {
    let ok = "a".repeat(63);
    let too_long = "a".repeat(64);
    assert!(validate_labels(&map(&[(ok.as_str(), "v")])).is_ok());
    assert!(validate_labels(&map(&[(too_long.as_str(), "v")])).is_err());
    assert!(validate_labels(&map(&[("-a", "v")])).is_err());
    assert!(validate_labels(&map(&[("Example.com/a", "v")])).is_err());
}

#[test]
fn validate_annotations_empty_map() {
    assert!(validate_annotations(&StringMap::new()).is_ok());
}

#[test]
fn validate_annotations_valid_keys() {
    let annotations = map(&[("description", "my widget"), ("kapi.io/last-applied-config", "{}"), ("example.com/path@v1", "data")]);
    assert!(validate_annotations(&annotations).is_ok());
}

#[test]
fn validate_annotations_empty_key_rejected() {
    assert!(validate_annotations(&map(&[("", "value")])).is_err());
}

#[test]
fn validate_annotations_key_too_long() {
    let long_key = "a".repeat(257);
    assert!(validate_annotations(&map(&[(long_key.as_str(), "value")])).is_err());
}

#[test]
fn validate_annotations_size_limit_exceeded() {
    let large_value = "x".repeat(256 * 1024);
    assert!(validate_annotations(&map(&[("key", large_value.as_str())])).is_err());
}

#[test]
fn validate_annotations_size_limit_boundary() {
    let exact = "x".repeat(256 * 1024 - 3);
    assert!(validate_annotations(&map(&[("key", exact.as_str())])).is_ok());
}

#[test]
fn validate_annotations_special_characters_accepted() {
    let annotations = map(&[
        ("build-url", "https://example.com/path?query=value&other=123"),
        ("config", "{\"key\": \"value\"}"),
    ]);
    assert!(validate_annotations(&annotations).is_ok());
}

#[test]
fn validate_annotations_empty_value_accepted() {
    assert!(validate_annotations(&map(&[("key", "")])).is_ok());
}

#[test]
fn validate_finalizers_rules() {
    assert!(validate_finalizers(&vec!["example.io/cleanup".to_string()]).is_ok());
    assert!(validate_finalizers(&vec!["a".to_string(), "a".to_string()]).is_err());
    assert!(validate_finalizers(&vec!["bad finalizer".to_string()]).is_err());
    assert!(validate_finalizers(&Vec::new()).is_ok());
}
