//! The resource model: object metadata, stored objects and list pages.

use vstd::prelude::*;
use crate::json::{JsonTree, JsonValue};
use crate::keys::{KeyView, ResourceKey};
use crate::selector::{FieldSelector, LabelSelector};
use crate::strmap::StringMap;

verus! {

/// A point in time: whole seconds since the Unix epoch and the nanoseconds past them.
#[derive(Debug, Clone, Copy, PartialEq, Eq)]
pub struct Timestamp {
    pub secs: i64,
    pub nanos: u32,
}

/// The text of an optional string.
pub open spec fn opt_str(o: Option<String>) -> Option<Seq<char>> {
    match o {
        Some(s) => Some(s@),
        None => None,
    }
}

/// The texts of a list of strings.
pub open spec fn str_seq(v: Seq<String>) -> Seq<Seq<char>> {
    v.map_values(|s: String| s@)
}

/// Copies a list of strings.
pub fn copy_strings(v: &Vec<String>) -> (r: Vec<String>)
    ensures
        str_seq(r@) == str_seq(v@),
{
    let mut r: Vec<String> = Vec::new();
    let mut i: usize = 0;
    while i < v.len()
        invariant
            0 <= i <= v.len(),
            r.len() == i,
            forall|j: int| 0 <= j < i ==> #[trigger] r@[j]@ == v@[j]@,
        decreases v.len() - i,
    {
        r.push(v[i].clone());
        i = i + 1;
    }
    assert(str_seq(r@) =~= str_seq(v@));
    r
}

/// Copies an optional string.
pub fn copy_opt(o: &Option<String>) -> (r: Option<String>)
    ensures
        opt_str(r) == opt_str(*o),
{
    match o {
        Some(s) => Some(s.clone()),
        None => None,
    }
}

/// User-controlled metadata of an object.
#[derive(Debug, Clone)]
pub struct ObjectMeta {
    pub name: String,
    /// `None` for cluster-scoped objects.
    pub namespace: Option<String>,
    pub labels: StringMap,
    pub annotations: StringMap,
    pub finalizers: Vec<String>,
}

pub struct MetaView {
    pub name: Seq<char>,
    pub namespace: Option<Seq<char>>,
    pub labels: Map<Seq<char>, Seq<char>>,
    pub annotations: Map<Seq<char>, Seq<char>>,
    pub finalizers: Seq<Seq<char>>,
}

impl View for ObjectMeta {
    type V = MetaView;

    open spec fn view(&self) -> MetaView {
        MetaView {
            name: self.name@,
            namespace: opt_str(self.namespace),
            labels: self.labels@,
            annotations: self.annotations@,
            finalizers: str_seq(self.finalizers@),
        }
    }
}

impl ObjectMeta {
    /// Metadata with the same content.
    pub fn duplicate(&self) -> (r: ObjectMeta)
        ensures
            r@ == self@,
    {
        ObjectMeta {
            name: self.name.clone(),
            namespace: copy_opt(&self.namespace),
            labels: self.labels.duplicate(),
            annotations: self.annotations.duplicate(),
            finalizers: copy_strings(&self.finalizers),
        }
    }
}

/// Metadata the server manages.
#[derive(Debug, Clone, Copy)]
pub struct SystemMetadata {
    pub resource_version: u64,
    pub generation: u64,
    pub created_at: Timestamp,
    pub updated_at: Timestamp,
    /// Set when a delete was requested while finalizers remained.
    pub deletion_timestamp: Option<Timestamp>,
}

impl SystemMetadata {
    /// Metadata of a freshly created object.
    pub open spec fn spec_initial(now: Timestamp) -> SystemMetadata {
        SystemMetadata {
            resource_version: 1,
            generation: 1,
            created_at: now,
            updated_at: now,
            deletion_timestamp: None,
        }
    }

    /// Metadata of a freshly created object: version 1, generation 1,
    /// both timestamps `now`, no deletion timestamp.
    pub fn initial(now: Timestamp) -> (r: SystemMetadata)
        ensures
            r == Self::spec_initial(now),
    {
        SystemMetadata {
            resource_version: 1,
            generation: 1,
            created_at: now,
            updated_at: now,
            deletion_timestamp: None,
        }
    }
}

/// An object as the store keeps it.
#[derive(Debug, Clone)]
pub struct StoredObject {
    pub key: ResourceKey,
    pub metadata: ObjectMeta,
    pub system: SystemMetadata,
    pub spec: JsonValue,
    pub status: Option<JsonValue>,
}

pub struct ObjectView {
    pub key: KeyView,
    pub metadata: MetaView,
    pub system: SystemMetadata,
    pub spec: JsonTree,
    pub status: Option<JsonTree>,
}

/// The views of a list of stored objects.
pub open spec fn object_views(items: Seq<StoredObject>) -> Seq<ObjectView> {
    items.map_values(|o: StoredObject| o@)
}

/// The content of an optional JSON value.
pub open spec fn opt_json(o: Option<JsonValue>) -> Option<JsonTree> {
    match o {
        Some(v) => Some(v@),
        None => None,
    }
}

pub fn copy_opt_json(o: &Option<JsonValue>) -> (r: Option<JsonValue>)
    ensures
        opt_json(r) == opt_json(*o),
{
    match o {
        Some(v) => Some(v.duplicate()),
        None => None,
    }
}

impl View for StoredObject {
    type V = ObjectView;

    open spec fn view(&self) -> ObjectView {
        ObjectView {
            key: self.key@,
            metadata: self.metadata@,
            system: self.system,
            spec: self.spec@,
            status: opt_json(self.status),
        }
    }
}

impl ResourceKey {
    /// A key with the same content.
    pub fn duplicate(&self) -> (r: ResourceKey)
        ensures
            r@ == self@,
    {
        ResourceKey { group: self.group.clone(), version: self.version.clone(), kind: self.kind.clone() }
    }
}

impl StoredObject {
    /// An object with the same content.
    pub fn duplicate(&self) -> (r: StoredObject)
        ensures
            r@ == self@,
    {
        StoredObject {
            key: self.key.duplicate(),
            metadata: self.metadata.duplicate(),
            system: self.system,
            spec: self.spec.duplicate(),
            status: copy_opt_json(&self.status),
        }
    }
}

/// What happened to an object.
#[derive(Debug, Clone, Copy, PartialEq, Eq)]
pub enum WatchEventType {
    Added,
    Modified,
    Deleted,
    StatusModified,
}

/// A change notification delivered to watchers.
#[derive(Debug, Clone)]
pub struct WatchEvent {
    pub event_type: WatchEventType,
    pub object: StoredObject,
}

/// Opaque cursor for the next page of a list.
#[derive(Debug, Clone)]
pub struct ContinueToken(pub String);

/// Filtering and paging options of a list request.
#[derive(Debug, Clone)]
pub struct ListOptions {
    pub limit: Option<usize>,
    pub continue_token: Option<ContinueToken>,
    pub field_selector: Option<FieldSelector>,
    pub label_selector: Option<LabelSelector>,
}

impl ListOptions {
    /// No limit, no cursor, no filters.
    pub fn unfiltered() -> (r: ListOptions)
        ensures
            r.limit is None,
            r.continue_token is None,
            r.field_selector is None,
            r.label_selector is None,
    {
        ListOptions { limit: None, continue_token: None, field_selector: None, label_selector: None }
    }
}

/// One page of a list.
#[derive(Debug)]
pub struct ListResponse {
    pub items: Vec<StoredObject>,
    pub continue_token: Option<ContinueToken>,
}

} // verus!
