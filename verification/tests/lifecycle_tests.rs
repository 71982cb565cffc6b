use base64::Engine;
use std::sync::Arc;

use kapi::bootstrap::{bootstrap_builtins, bootstrap_default_namespace};
use kapi::error::AppError;
use kapi::finalizer::{evaluate_delete, evaluate_update, execute_delete, should_hard_delete, DeleteAction, FinalizerDecision};
use kapi::handler::create_namespace;
use kapi::helpers::apply_with_metadata;
use kapi::json::JsonValue;
use kapi::keys::{namespace_key, schema_key, ResourceKey};
use kapi::meta_schema::compile_meta_schema;
use kapi::schema_service::SchemaService;
use kapi::store::{InMemoryStore, TransactionOp};
use kapi::strmap::StringMap;
use kapi::token::{decode_continue_token, encode_continue_token};
use kapi::types::{ContinueToken, ObjectMeta, StoredObject, SystemMetadata, Timestamp, WatchEvent, WatchEventType};
use kapi::watch::{event_in_namespace, keeps_watcher, Delivery};

fn t(secs: i64) -> Timestamp {
    Timestamp { secs, nanos: 0 }
}

fn spec(text: &str) -> JsonValue {
    JsonValue::Object(vec![("color".to_string(), JsonValue::String(text.to_string()))])
}

fn object(name: &str, namespace: Option<&str>, finalizers: &[&str]) -> StoredObject {
    StoredObject {
        key: ResourceKey { group: "example.io".into(), version: "v1".into(), kind: "Widget".into() },
        metadata: ObjectMeta {
            name: name.to_string(),
            namespace: namespace.map(|s| s.to_string()),
            labels: StringMap::new(),
            annotations: StringMap::new(),
            finalizers: finalizers.iter().map(|s| s.to_string()).collect(),
        },
        system: SystemMetadata::initial(t(100)),
        spec: spec("red"),
        status: None,
    }
}

#[test]
fn delete_without_finalizers_is_hard() {
    let o = object("w", None, &[]);
    assert_eq!(evaluate_delete(&o), DeleteAction::HardDeleted);
    assert!(matches!(execute_delete(DeleteAction::HardDeleted, &o), TransactionOp::Delete));
}

#[test]
fn delete_with_finalizers_marks_then_is_idempotent() {
    let o = object("w", None, &["example.io/cleanup"]);
    assert_eq!(evaluate_delete(&o), DeleteAction::MarkedForDeletion);
    let marked = match execute_delete(DeleteAction::MarkedForDeletion, &o) {
        TransactionOp::Apply(m) => m,
        other => panic!("expected Apply, got {other:?}"),
    };
    assert!(marked.system.deletion_timestamp.is_some());
    assert_eq!(marked.system.resource_version, o.system.resource_version);
    assert_eq!(marked.metadata.finalizers, o.metadata.finalizers);
    // A second delete of the marked object changes nothing.
    assert_eq!(evaluate_delete(&marked), DeleteAction::IdempotentNoOp);
    match execute_delete(DeleteAction::IdempotentNoOp, &marked) {
        TransactionOp::Apply(again) => {
            assert_eq!(again.system.deletion_timestamp, marked.system.deletion_timestamp);
            assert_eq!(again.metadata.finalizers, marked.metadata.finalizers);
        }
        other => panic!("expected Apply, got {other:?}"),
    }
}

#[test]
fn update_of_object_being_deleted_may_only_remove_finalizers() {
    let mut o = object("w", None, &["a.io/x", "a.io/y"]);
    o.system.deletion_timestamp = Some(t(200));
    let mut removing = o.metadata.clone();
    removing.finalizers = vec!["a.io/x".to_string()];
    assert_eq!(evaluate_update(&o, &removing, &o.spec), FinalizerDecision::Allow);
    let same = o.metadata.clone();
    assert_eq!(evaluate_update(&o, &same, &o.spec), FinalizerDecision::RejectBeingDeleted);
    let mut adding = o.metadata.clone();
    adding.finalizers = vec!["a.io/z".to_string()];
    assert_eq!(evaluate_update(&o, &adding, &o.spec), FinalizerDecision::RejectBeingDeleted);
    let mut relabel = removing.clone();
    relabel.labels.insert("app".to_string(), "x".to_string());
    assert_eq!(evaluate_update(&o, &relabel, &o.spec), FinalizerDecision::RejectBeingDeleted);
    assert_eq!(evaluate_update(&o, &removing, &spec("blue")), FinalizerDecision::RejectBeingDeleted);
    assert!(should_hard_delete(&o, &Vec::new()));
    assert!(!should_hard_delete(&o, &vec!["a.io/x".to_string()]));
    let live = object("w", None, &["a.io/x"]);
    assert_eq!(evaluate_update(&live, &same, &spec("blue")), FinalizerDecision::Allow);
    assert!(!should_hard_delete(&live, &Vec::new()));
}

#[test]
fn accepted_write_stamps_metadata() {
    let existing = object("w", None, &[]);
    let mut changed = existing.clone();
    changed.spec = spec("blue");
    match apply_with_metadata(&existing, changed, t(300)) {
        TransactionOp::Apply(o) => {
            assert_eq!(o.system.resource_version, 2);
            assert_eq!(o.system.generation, 2);
            assert_eq!(o.system.created_at, t(100));
            assert_eq!(o.system.updated_at, t(300));
        }
        other => panic!("expected Apply, got {other:?}"),
    }
    let mut relabelled = existing.clone();
    relabelled.metadata.labels.insert("app".to_string(), "x".to_string());
    match apply_with_metadata(&existing, relabelled, t(400)) {
        TransactionOp::Apply(o) => {
            assert_eq!(o.system.resource_version, 2);
            assert_eq!(o.system.generation, 1);
        }
        other => panic!("expected Apply, got {other:?}"),
    }
}

#[test]
fn status_write_keeps_generation() {
    let existing = object("w", None, &[]);
    let mut with_status = existing.clone();
    with_status.status = Some(JsonValue::Object(vec![("ready".to_string(), JsonValue::Bool(true))]));
    match apply_with_metadata(&existing, with_status, t(500)) {
        TransactionOp::Apply(o) => {
            assert_eq!(o.system.generation, existing.system.generation);
            assert_eq!(o.system.resource_version, existing.system.resource_version + 1);
        }
        other => panic!("expected Apply, got {other:?}"),
    }
}

#[test]
fn exhausted_counters_refuse_the_write() {
    let mut existing = object("w", None, &[]);
    existing.system.resource_version = u64::MAX;
    let updated = existing.clone();
    assert!(matches!(apply_with_metadata(&existing, updated, t(1)), TransactionOp::Abort(AppError::Internal(_))));
}

#[test]
fn continue_token_encodes_namespace_and_name() {
    let tok = encode_continue_token(Some("prod"), "widget-a");
    assert_eq!(decode_continue_token(&tok).unwrap(), (Some("prod".to_string()), "widget-a".to_string()));
    let tok = encode_continue_token(None, "w");
    assert_eq!(decode_continue_token(&tok).unwrap(), (None, "w".to_string()));
    assert_ne!(tok.0, "w", "the token is not the name itself");
    let tok = encode_continue_token(Some(""), "w");
    assert_eq!(decode_continue_token(&tok).unwrap(), (Some(String::new()), "w".to_string()));
    assert!(matches!(decode_continue_token(&ContinueToken("no-separator".to_string())), Err(AppError::Internal(_))));
    assert!(matches!(decode_continue_token(&ContinueToken("!!.??".to_string())), Err(AppError::Internal(_))));
}

fn b64(text: &str) -> String {
    base64::engine::general_purpose::STANDARD.encode(text)
}

#[test]
fn continue_token_is_base64_of_a_position_or_a_name() {
    let tok = encode_continue_token(Some("prod"), "widget-a");
    assert_eq!(tok.0, b64(r#"{"name":"widget-a","namespace":"prod"}"#));
    let tok = encode_continue_token(None, "w");
    assert_eq!(tok.0, b64(r#"{"name":"w","namespace":null}"#));
    let other_order = ContinueToken(b64(r#"{ "namespace": "ns", "name": "n", "extra": 1 }"#));
    assert_eq!(decode_continue_token(&other_order).unwrap(), (Some("ns".to_string()), "n".to_string()));
    match decode_continue_token(&ContinueToken(b64(r#"{"namespace":"ns"}"#))) {
        Err(AppError::Internal(m)) => assert_eq!(m, "invalid continue token: missing name"),
        other => panic!("expected a missing-name error, got {other:?}"),
    }
    assert_eq!(decode_continue_token(&ContinueToken(b64("widget-a"))).unwrap(), (None, "widget-a".to_string()));
    assert_eq!(decode_continue_token(&ContinueToken(b64("42"))).unwrap(), (None, "42".to_string()));
    match decode_continue_token(&ContinueToken("not base64!".to_string())) {
        Err(AppError::Internal(m)) => assert_eq!(m, "invalid continue token"),
        other => panic!("expected an invalid-token error, got {other:?}"),
    }
}

#[test]
fn watchers_stay_only_while_events_reach_them() {
    assert!(keeps_watcher(None));
    assert!(keeps_watcher(Some(Delivery::Delivered)));
    assert!(!keeps_watcher(Some(Delivery::Full)));
    assert!(!keeps_watcher(Some(Delivery::Closed)));
}

#[test]
fn namespace_watch_sees_only_its_namespace() {
    let event = WatchEvent { event_type: WatchEventType::Added, object: object("w", Some("prod"), &[]) };
    assert!(event_in_namespace(&event, None));
    assert!(event_in_namespace(&event, Some("prod")));
    assert!(!event_in_namespace(&event, Some("staging")));
    let cluster = WatchEvent { event_type: WatchEventType::Added, object: object("w", None, &[]) };
    assert!(!event_in_namespace(&cluster, Some("prod")));
}

#[test]
fn create_namespace_prefers_the_url() {
    let body = JsonValue::Object(vec![(
        "metadata".to_string(),
        JsonValue::Object(vec![("namespace".to_string(), JsonValue::String("hint".to_string()))]),
    )]);
    assert_eq!(create_namespace(Some("url".to_string()), &body), Some("url".to_string()));
    assert_eq!(create_namespace(None, &body), Some("hint".to_string()));
    assert_eq!(create_namespace(None, &JsonValue::Object(Vec::new())), None);
}

#[test]
fn bootstrap_is_idempotent() {
    let meta_validator = Arc::new(compile_meta_schema().expect("meta-schema should compile"));
    let mut schemas = SchemaService::new(meta_validator);
    let mut store = InMemoryStore::new();
    let created = bootstrap_builtins(&mut schemas, &mut store).expect("bootstrap should succeed");
    let ns = created.expect("the default namespace is created");
    assert_eq!(ns.metadata.name, "default");
    // Created now: well after 2020-01-01, with equal creation and update times.
    assert!(ns.system.created_at.secs > 1_577_836_800);
    assert_eq!(ns.system.created_at, ns.system.updated_at);
    assert_eq!(ns.system.resource_version, 1);
    assert_eq!(ns.key, namespace_key());
    assert!(store.get(&schema_key(), None, "Namespace.kapi.io.v1").is_ok());
    assert_eq!(schemas.take_events().len(), 1);
    let again = bootstrap_builtins(&mut schemas, &mut store).expect("bootstrap again should succeed");
    assert!(again.is_none());
    assert!(schemas.take_events().is_empty());
    assert!(bootstrap_default_namespace(&mut store).is_none());
}
