use kapi::error::AppError;
use kapi::json::JsonValue;
use kapi::keys::ResourceKey;
use kapi::selector::{FieldSelector, LabelRequirement, LabelSelector, WatchFilter};
use kapi::strmap::StringMap;
use kapi::types::{ObjectMeta, StoredObject, SystemMetadata, Timestamp, WatchEvent, WatchEventType};

fn labels_of(pairs: &[(&str, &str)]) -> StringMap {
    let mut m = StringMap::new();
    for (k, v) in pairs {
        m.insert(k.to_string(), v.to_string());
    }
    m
}

fn make_event_with_labels(name: &str, labels: StringMap) -> WatchEvent {
    let t = Timestamp { secs: 1_700_000_000, nanos: 0 };
    WatchEvent {
        event_type: WatchEventType::Added,
        object: StoredObject {
            key: ResourceKey { group: "test.io".into(), version: "v1".into(), kind: "Test".into() },
            metadata: ObjectMeta {
                name: name.into(),
                namespace: None,
                labels,
                annotations: StringMap::new(),
                finalizers: Vec::new(),
            },
            system: SystemMetadata::initial(t),
            spec: JsonValue::Object(Vec::new()),
            status: None,
        },
    }
}

fn make_event(name: &str) -> WatchEvent {
    make_event_with_labels(name, StringMap::new())
}

#[test]
fn parse_field_selector_valid_metadata_name() {
    let result = FieldSelector::parse("metadata.name=my-widget");
    assert!(result.is_ok());
    let filter = result.unwrap();
    assert!(matches!(
        filter,
        WatchFilter::FieldSelector(FieldSelector::NameEquals(name)) if name == "my-widget"
    ));
}

#[test]
fn parse_field_selector_unsupported_field() {
    let result = FieldSelector::parse("metadata.namespace=default");
    assert!(result.is_err());
    assert!(
        matches!(result, Err(AppError::InvalidFieldSelector(msg)) if msg.contains("metadata.namespace"))
    );
}

#[test]
fn parse_field_selector_malformed_input() {
    let result = FieldSelector::parse("invalid-format");
    assert!(result.is_err());
    assert!(
        matches!(result, Err(AppError::InvalidFieldSelector(msg)) if msg.contains("expected 'field=value'"))
    );
}

#[test]
fn parse_field_selector_empty_value() {
    let result = FieldSelector::parse("metadata.name=");
    assert!(result.is_ok());
    let filter = result.unwrap();
    assert!(matches!(
        filter,
        WatchFilter::FieldSelector(FieldSelector::NameEquals(name)) if name.is_empty()
    ));
}

#[test]
fn parse_label_selector_equality() {
    let result = LabelSelector::parse("app=nginx");
    assert!(result.is_ok());
    let filter = result.unwrap();
    if let WatchFilter::LabelSelector(selector) = filter {
        assert_eq!(selector.requirements.len(), 1);
        if let LabelRequirement::Equals { key, value } = &selector.requirements[0] {
            assert_eq!(key, "app");
            assert_eq!(value, "nginx");
        } else {
            panic!("expected Equals requirement");
        }
    } else {
        panic!("expected LabelSelector filter");
    }
}

#[test]
fn parse_label_selector_inequality() {
    let result = LabelSelector::parse("env!=prod");
    assert!(result.is_ok());
    let filter = result.unwrap();
    if let WatchFilter::LabelSelector(selector) = filter {
        assert_eq!(selector.requirements.len(), 1);
        if let LabelRequirement::NotEquals { key, value } = &selector.requirements[0] {
            assert_eq!(key, "env");
            assert_eq!(value, "prod");
        } else {
            panic!("expected NotEquals requirement");
        }
    } else {
        panic!("expected LabelSelector filter");
    }
}

#[test]
fn parse_label_selector_existence() {
    let result = LabelSelector::parse("gpu");
    assert!(result.is_ok());
    let filter = result.unwrap();
    if let WatchFilter::LabelSelector(selector) = filter {
        assert_eq!(selector.requirements.len(), 1);
        if let LabelRequirement::Exists { key } = &selector.requirements[0] {
            assert_eq!(key, "gpu");
        } else {
            panic!("expected Exists requirement");
        }
    } else {
        panic!("expected LabelSelector filter");
    }
}

#[test]
fn parse_label_selector_non_existence() {
    let result = LabelSelector::parse("!experimental");
    assert!(result.is_ok());
    let filter = result.unwrap();
    if let WatchFilter::LabelSelector(selector) = filter {
        assert_eq!(selector.requirements.len(), 1);
        if let LabelRequirement::NotExists { key } = &selector.requirements[0] {
            assert_eq!(key, "experimental");
        } else {
            panic!("expected NotExists requirement");
        }
    } else {
        panic!("expected LabelSelector filter");
    }
}

#[test]
fn parse_label_selector_and_combinator() {
    let result = LabelSelector::parse("app=nginx,env=prod");
    assert!(result.is_ok());
    let filter = result.unwrap();
    if let WatchFilter::LabelSelector(selector) = filter {
        assert_eq!(selector.requirements.len(), 2);
    } else {
        panic!("expected LabelSelector filter");
    }
}

#[test]
fn parse_label_selector_mixed_operators() {
    let result = LabelSelector::parse("app=nginx,!experimental,gpu");
    assert!(result.is_ok());
    let filter = result.unwrap();
    if let WatchFilter::LabelSelector(selector) = filter {
        assert_eq!(selector.requirements.len(), 3);
        assert!(matches!(&selector.requirements[0], LabelRequirement::Equals { .. }));
        assert!(matches!(&selector.requirements[1], LabelRequirement::NotExists { .. }));
        assert!(matches!(&selector.requirements[2], LabelRequirement::Exists { .. }));
    } else {
        panic!("expected LabelSelector filter");
    }
}

#[test]
fn parse_label_selector_empty_string() {
    let result = LabelSelector::parse("");
    assert!(result.is_ok());
    let filter = result.unwrap();
    if let WatchFilter::LabelSelector(selector) = filter {
        assert!(selector.requirements.is_empty());
    } else {
        panic!("expected LabelSelector filter");
    }
}

#[test]
fn parse_label_selector_with_whitespace() {
    let result = LabelSelector::parse("app=nginx, env=prod");
    assert!(result.is_ok());
    let filter = result.unwrap();
    if let WatchFilter::LabelSelector(selector) = filter {
        assert_eq!(selector.requirements.len(), 2);
    } else {
        panic!("expected LabelSelector filter");
    }
}

#[test]
fn parse_label_selector_empty_value_error() {
    let result = LabelSelector::parse("app=");
    assert!(result.is_err());
    assert!(
        matches!(result, Err(AppError::InvalidLabelSelector(msg)) if msg.contains("empty value"))
    );
}

#[test]
fn parse_label_selector_invalid_key_with_space() {
    let result = LabelSelector::parse("invalid key!=value");
    assert!(result.is_err());
    assert!(
        matches!(result, Err(AppError::InvalidLabelSelector(msg)) if msg.contains("whitespace"))
    );
}

#[test]
fn parse_label_selector_empty_segment_error() {
    let result = LabelSelector::parse("app=nginx,,env=prod");
    assert!(result.is_err());
    assert!(
        matches!(result, Err(AppError::InvalidLabelSelector(msg)) if msg.contains("empty segment"))
    );
}

fn combine(field: Option<WatchFilter>, label: Option<WatchFilter>) -> WatchFilter {
    match (field, label) {
        (Some(f), Some(l)) => WatchFilter::And(Box::new(f), Box::new(l)),
        (Some(f), None) => f,
        (None, Some(l)) => l,
        (None, None) => WatchFilter::All,
    }
}

#[test]
fn watch_filter_combination_both_present_creates_and() {
    let field = FieldSelector::parse("metadata.name=foo").unwrap();
    let label = LabelSelector::parse("app=nginx").unwrap();
    let combined = combine(Some(field), Some(label));
    assert!(matches!(combined, WatchFilter::And(_, _)));
}

#[test]
fn watch_filter_combination_field_only() {
    let field = FieldSelector::parse("metadata.name=foo").unwrap();
    let combined = combine(Some(field), None);
    assert!(matches!(combined, WatchFilter::FieldSelector(_)));
}

#[test]
fn watch_filter_combination_label_only() {
    let label = LabelSelector::parse("app=nginx").unwrap();
    let combined = combine(None, Some(label));
    assert!(matches!(combined, WatchFilter::LabelSelector(_)));
}

#[test]
fn watch_filter_combination_neither() {
    let combined = combine(None, None);
    assert!(matches!(combined, WatchFilter::All));
}

#[test]
fn watch_filter_all_matches_all_events() {
    assert!(WatchFilter::All.matches(&make_event("foo")));
    assert!(WatchFilter::All.matches(&make_event("bar")));
}

#[test]
fn watch_filter_field_selector_name_equals_matches_correct_name() {
    let filter = WatchFilter::FieldSelector(FieldSelector::NameEquals("target".into()));
    assert!(filter.matches(&make_event("target")));
}

#[test]
fn watch_filter_field_selector_name_equals_rejects_wrong_name() {
    let filter = WatchFilter::FieldSelector(FieldSelector::NameEquals("target".into()));
    assert!(!filter.matches(&make_event("other")));
}

#[test]
fn field_selector_name_equals_equality() {
    let fs = FieldSelector::NameEquals("foo".into());
    let event = make_event("foo");
    assert!(WatchFilter::FieldSelector(fs).matches(&event));
}

#[test]
fn label_requirement_equals_matches() {
    let req = LabelRequirement::Equals { key: "app".into(), value: "nginx".into() };
    let labels = labels_of(&[("app", "nginx"), ("env", "prod")]);
    assert!(req.matches(&labels));
}

#[test]
fn label_requirement_equals_different_value() {
    let req = LabelRequirement::Equals { key: "app".into(), value: "nginx".into() };
    let labels = labels_of(&[("app", "apache")]);
    assert!(!req.matches(&labels));
}

#[test]
fn label_requirement_equals_key_missing() {
    let req = LabelRequirement::Equals { key: "app".into(), value: "nginx".into() };
    let labels = labels_of(&[("env", "prod")]);
    assert!(!req.matches(&labels));
}

#[test]
fn label_requirement_not_equals_different_value() {
    let req = LabelRequirement::NotEquals { key: "env".into(), value: "prod".into() };
    let labels = labels_of(&[("env", "staging")]);
    assert!(req.matches(&labels));
}

#[test]
fn label_requirement_not_equals_same_value() {
    let req = LabelRequirement::NotEquals { key: "env".into(), value: "prod".into() };
    let labels = labels_of(&[("env", "prod")]);
    assert!(!req.matches(&labels));
}

#[test]
fn label_requirement_not_equals_key_missing() {
    let req = LabelRequirement::NotEquals { key: "env".into(), value: "prod".into() };
    let labels = labels_of(&[("app", "nginx")]);
    assert!(req.matches(&labels));
}

#[test]
fn label_requirement_exists_key_present() {
    let req = LabelRequirement::Exists { key: "gpu".into() };
    let labels = labels_of(&[("gpu", "true")]);
    assert!(req.matches(&labels));
}

#[test]
fn label_requirement_exists_key_present_empty_value() {
    let req = LabelRequirement::Exists { key: "gpu".into() };
    let labels = labels_of(&[("gpu", "")]);
    assert!(req.matches(&labels));
}

#[test]
fn label_requirement_exists_key_missing() {
    let req = LabelRequirement::Exists { key: "gpu".into() };
    let labels = labels_of(&[("app", "nginx")]);
    assert!(!req.matches(&labels));
}

#[test]
fn label_requirement_not_exists_key_missing() {
    let req = LabelRequirement::NotExists { key: "experimental".into() };
    let labels = labels_of(&[("app", "nginx")]);
    assert!(req.matches(&labels));
}

#[test]
fn label_requirement_not_exists_key_present() {
    let req = LabelRequirement::NotExists { key: "experimental".into() };
    let labels = labels_of(&[("experimental", "true")]);
    assert!(!req.matches(&labels));
}

#[test]
fn label_selector_empty_matches_all() {
    let selector = LabelSelector { requirements: vec![] };
    let labels = StringMap::new();
    assert!(selector.matches(&labels));
    let labels2 = labels_of(&[("app", "nginx")]);
    assert!(selector.matches(&labels2));
}

#[test]
fn label_selector_single_requirement() {
    let selector = LabelSelector {
        requirements: vec![LabelRequirement::Equals { key: "app".into(), value: "nginx".into() }],
    };
    assert!(selector.matches(&labels_of(&[("app", "nginx")])));
    assert!(!selector.matches(&labels_of(&[("app", "apache")])));
}

#[test]
fn label_selector_multiple_requirements_and_semantics() {
    let selector = LabelSelector {
        requirements: vec![
            LabelRequirement::Equals { key: "app".into(), value: "nginx".into() },
            LabelRequirement::Exists { key: "env".into() },
        ],
    };
    assert!(selector.matches(&labels_of(&[("app", "nginx"), ("env", "prod")])));
    assert!(!selector.matches(&labels_of(&[("app", "nginx")])));
}

fn nginx_selector() -> WatchFilter {
    WatchFilter::LabelSelector(LabelSelector {
        requirements: vec![LabelRequirement::Equals { key: "app".into(), value: "nginx".into() }],
    })
}

#[test]
fn watch_filter_label_selector_matches_event_labels() {
    let filter = nginx_selector();
    let event = make_event_with_labels("test", labels_of(&[("app", "nginx")]));
    assert!(filter.matches(&event));
}

#[test]
fn watch_filter_label_selector_does_not_match_event_labels() {
    let filter = nginx_selector();
    let event = make_event_with_labels("test", labels_of(&[("app", "apache")]));
    assert!(!filter.matches(&event));
}

#[test]
fn watch_filter_and_both_match() {
    let field = WatchFilter::FieldSelector(FieldSelector::NameEquals("target".into()));
    let combined = WatchFilter::And(Box::new(field), Box::new(nginx_selector()));
    let event = make_event_with_labels("target", labels_of(&[("app", "nginx")]));
    assert!(combined.matches(&event));
}

#[test]
fn watch_filter_and_first_fails() {
    let field = WatchFilter::FieldSelector(FieldSelector::NameEquals("target".into()));
    let combined = WatchFilter::And(Box::new(field), Box::new(nginx_selector()));
    let event = make_event("other");
    assert!(!combined.matches(&event));
}

#[test]
fn watch_filter_and_second_fails() {
    let field = WatchFilter::FieldSelector(FieldSelector::NameEquals("target".into()));
    let combined = WatchFilter::And(Box::new(field), Box::new(nginx_selector()));
    let event = make_event_with_labels("target", labels_of(&[("app", "apache")]));
    assert!(!combined.matches(&event));
}

#[test]
fn watch_filter_and_nested() {
    let a = WatchFilter::FieldSelector(FieldSelector::NameEquals("target".into()));
    let c = WatchFilter::LabelSelector(LabelSelector {
        requirements: vec![LabelRequirement::Equals { key: "env".into(), value: "prod".into() }],
    });
    let inner = WatchFilter::And(Box::new(a), Box::new(nginx_selector()));
    let combined = WatchFilter::And(Box::new(inner), Box::new(c));
    let event = make_event_with_labels("target", labels_of(&[("app", "nginx"), ("env", "prod")]));
    assert!(combined.matches(&event));
}

#[test]
fn label_selector_messages_name_the_problem() {
    match LabelSelector::parse("app=") {
        Err(AppError::InvalidLabelSelector(msg)) => assert_eq!(msg, "empty value for key 'app'"),
        _ => panic!("expected an empty value error"),
    }
    match LabelSelector::parse("a b=c") {
        Err(AppError::InvalidLabelSelector(msg)) => assert_eq!(msg, "key 'a b' must not contain whitespace"),
        _ => panic!("expected a whitespace error"),
    }
    match FieldSelector::parse("spec.color=red") {
        Err(AppError::InvalidFieldSelector(msg)) => {
            assert_eq!(msg, "unsupported field 'spec.color': only 'metadata.name' is supported")
        }
        _ => panic!("expected an unsupported field error"),
    }
}
