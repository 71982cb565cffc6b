use kapi::json::JsonValue;
use kapi::keys::ResourceKey;
use kapi::selector::{FieldSelector, LabelRequirement, LabelSelector};
use kapi::sqlquery::{attach_labels, build_list_query, compound_label_key, page_from_rows, ListQueryBuilder, SqlParam};
use kapi::strmap::StringMap;
use kapi::token::{decode_continue_token, encode_continue_token};
use kapi::types::{ListOptions, ObjectMeta, StoredObject, SystemMetadata, Timestamp};

fn key() -> ResourceKey {
    ResourceKey { group: "example.io".into(), version: "v1".into(), kind: "Widget".into() }
}

fn text(s: &str) -> SqlParam {
    SqlParam::Text(s.to_string())
}

const ROW: &str = "SELECT 1 FROM labels l WHERE l.resource_group = o.resource_group AND l.api_version = o.api_version \
AND l.resource_kind = o.resource_kind AND l.namespace = o.namespace AND l.name = o.name AND l.label_key = ";

fn obj(name: &str, namespace: Option<&str>) -> StoredObject {
    StoredObject {
        key: key(),
        metadata: ObjectMeta {
            name: name.to_string(),
            namespace: namespace.map(|s| s.to_string()),
            labels: StringMap::new(),
            annotations: StringMap::new(),
            finalizers: Vec::new(),
        },
        system: SystemMetadata::initial(Timestamp { secs: 0, nanos: 0 }),
        spec: JsonValue::Object(Vec::new()),
        status: None,
    }
}

#[test]
fn builder_starts_with_the_kind() {
    let (sql, params, next) = ListQueryBuilder::new(&key()).build();
    assert_eq!(sql, "resource_group = ?1 AND api_version = ?2 AND resource_kind = ?3");
    assert_eq!(params, vec![text("example.io"), text("v1"), text("Widget")]);
    assert_eq!(next, 4);
}

#[test]
fn builder_numbers_placeholders_in_order() {
    let mut b = ListQueryBuilder::new(&key());
    b.add_namespace_filter(Some("prod"));
    b.add_continue_token("w1");
    b.add_field_selector(&FieldSelector::NameEquals("w2".into()));
    let (sql, params, next) = b.build();
    assert_eq!(
        sql,
        "resource_group = ?1 AND api_version = ?2 AND resource_kind = ?3 AND namespace = ?4 AND name > ?5 AND name = ?6"
    );
    assert_eq!(params.len(), 6);
    assert_eq!(params[3], text("prod"));
    assert_eq!(next, 7);
}

#[test]
fn builder_cross_namespace_cursor_uses_three_placeholders() {
    let mut b = ListQueryBuilder::new(&key());
    b.add_cross_namespace_continue_token(None, "w");
    b.add_namespace_filter(None);
    let (sql, params, next) = b.build();
    assert!(sql.ends_with("AND (namespace > ?4 OR (namespace = ?5 AND name > ?6)) AND namespace IS NULL"), "{sql}");
    assert_eq!(&params[3..], &[text(""), text(""), text("w")]);
    assert_eq!(next, 7);
}

#[test]
fn builder_label_requirements_become_exists_clauses() {
    let selector = LabelSelector {
        requirements: vec![
            LabelRequirement::Equals { key: "app".into(), value: "web".into() },
            LabelRequirement::NotEquals { key: "env".into(), value: "prod".into() },
            LabelRequirement::Exists { key: "gpu".into() },
            LabelRequirement::NotExists { key: "old".into() },
        ],
    };
    let mut b = ListQueryBuilder::new(&key());
    b.add_label_selector(&selector);
    let (sql, params, next) = b.build();
    let expected = format!(
        "resource_group = ?1 AND api_version = ?2 AND resource_kind = ?3 \
         AND EXISTS ({ROW}?4 AND l.label_value = ?5) \
         AND (NOT EXISTS ({ROW}?6) OR EXISTS ({ROW}?7 AND l.label_value != ?8)) \
         AND EXISTS ({ROW}?9) \
         AND NOT EXISTS ({ROW}?10)"
    );
    assert_eq!(sql, expected);
    assert_eq!(
        &params[3..],
        &[text("app"), text("web"), text("env"), text("env"), text("prod"), text("gpu"), text("old")]
    );
    assert_eq!(next, 11);
}

#[test]
fn list_query_orders_and_limits() {
    let opts = ListOptions { limit: Some(2), continue_token: None, field_selector: None, label_selector: None };
    let q = build_list_query(&key(), Some("prod"), &opts).unwrap();
    assert!(q.sql.starts_with("SELECT o.resource_group, o.api_version"));
    assert!(q.sql.ends_with("WHERE resource_group = ?1 AND api_version = ?2 AND resource_kind = ?3 AND namespace = ?4 ORDER BY o.name ASC LIMIT ?5"), "{}", q.sql);
    assert_eq!(q.params.last(), Some(&SqlParam::Int(3)));
    let all = ListOptions { limit: None, continue_token: None, field_selector: None, label_selector: None };
    let q = build_list_query(&key(), None, &all).unwrap();
    assert!(q.sql.ends_with("ORDER BY o.namespace, o.name ASC LIMIT ?4"), "{}", q.sql);
    assert_eq!(q.params.last(), Some(&SqlParam::Int(usize::MAX as i64)));
}

#[test]
fn list_query_resumes_after_the_token() {
    let opts = ListOptions {
        limit: Some(1),
        continue_token: Some(encode_continue_token(Some("prod"), "w1")),
        field_selector: None,
        label_selector: None,
    };
    let q = build_list_query(&key(), None, &opts).unwrap();
    assert!(q.sql.contains("(namespace > ?4 OR (namespace = ?5 AND name > ?6))"), "{}", q.sql);
    assert_eq!(&q.params[3..6], &[text("prod"), text("prod"), text("w1")]);
    let bad = ListOptions { continue_token: Some(kapi::types::ContinueToken("junk".into())), ..opts };
    assert!(matches!(build_list_query(&key(), None, &bad), Err(kapi::error::AppError::Internal(_))));
}

#[test]
fn page_from_rows_cuts_and_sets_token() {
    let rows = vec![obj("a", Some("ns")), obj("b", Some("ns")), obj("c", Some("ns"))];
    let page = page_from_rows(rows, 2);
    let names: Vec<&str> = page.items.iter().map(|o| o.metadata.name.as_str()).collect();
    assert_eq!(names, vec!["a", "b"]);
    let tok = page.continue_token.expect("a further page exists");
    assert_eq!(decode_continue_token(&tok).unwrap(), (Some("ns".to_string()), "b".to_string()));
    let page = page_from_rows(vec![obj("a", None)], 2);
    assert_eq!(page.items.len(), 1);
    assert!(page.continue_token.is_none());
}

#[test]
fn compound_key_separates_namespace_and_name() {
    assert_eq!(compound_label_key(Some("ns"), "w"), "ns\0w");
    assert_eq!(compound_label_key(None, "w"), "\0w");
}

fn row(ns: &str, name: &str, k: &str, v: &str) -> (String, String, String, String) {
    (ns.to_string(), name.to_string(), k.to_string(), v.to_string())
}

#[test]
fn label_rows_are_attached_to_their_objects() {
    let mut kept = obj("c", None);
    kept.metadata.labels.insert("own".to_string(), "yes".to_string());
    let objects = vec![obj("a", None), obj("a", Some("prod")), kept];
    let rows = vec![
        row("", "a", "tier", "web"),
        row("prod", "a", "tier", "db"),
        row("", "a", "app", "shop"),
        row("", "a", "tier", "edge"),
        row("other", "c", "x", "y"),
    ];
    let out = attach_labels(objects, &rows);
    assert_eq!(out.len(), 3);
    assert_eq!(out[0].metadata.labels.get("tier").map(|s| s.as_str()), Some("edge"));
    assert_eq!(out[0].metadata.labels.get("app").map(|s| s.as_str()), Some("shop"));
    assert_eq!(out[0].metadata.labels.len(), 2);
    assert_eq!(out[1].metadata.labels.get("tier").map(|s| s.as_str()), Some("db"));
    assert_eq!(out[1].metadata.labels.len(), 1);
    assert_eq!(out[2].metadata.labels.get("own").map(|s| s.as_str()), Some("yes"));
    assert_eq!(out[2].metadata.labels.len(), 1);
    assert_eq!(out[2].metadata.name, "c");
}
