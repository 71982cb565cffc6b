//! Resource keys and the well-known names of the built-in kinds.

use vstd::prelude::*;
use crate::text::dotted3;

verus! {

/// Group/version/kind triple identifying a resource type.
#[derive(Debug, Clone, Hash, PartialEq, Eq)]
pub struct ResourceKey {
    pub group: String,
    pub version: String,
    pub kind: String,
}

/// Mathematical form of a [`ResourceKey`].
pub struct KeyView {
    pub group: Seq<char>,
    pub version: Seq<char>,
    pub kind: Seq<char>,
}

impl View for ResourceKey {
    type V = KeyView;

    open spec fn view(&self) -> KeyView {
        KeyView { group: self.group@, version: self.version@, kind: self.kind@ }
    }
}

impl ResourceKey {
    /// Whether both keys name the same kind.
    pub fn same_as(&self, other: &ResourceKey) -> (b: bool)
        ensures
            b == (self@ == other@),
    {
        crate::text::str_equal(self.group.as_str(), other.group.as_str())
            && crate::text::str_equal(self.version.as_str(), other.version.as_str())
            && crate::text::str_equal(self.kind.as_str(), other.kind.as_str())
    }
}

/// `"{kind}.{group}.{version}"` as a character sequence.
pub open spec fn spec_schema_cache_key(kind: Seq<char>, group: Seq<char>, version: Seq<char>) -> Seq<char> {
    kind + seq!['.'] + group + seq!['.'] + version
}

/// Generates the cache key for a schema validator: `"{kind}.{group}.{version}"`.
///
/// The same text names the Schema object that registers the kind.
pub fn schema_cache_key(kind: &str, group: &str, version: &str) -> (r: String)
    ensures
        r@ == spec_schema_cache_key(kind@, group@, version@),
{
    dotted3(kind, group, version)
}

/// Kind of the built-in resource that registers user kinds.
pub const SCHEMA_KIND: &'static str = "Schema";
/// Group of the built-in kinds.
pub const SCHEMA_GROUP: &'static str = "kapi.io";
/// Version of the built-in kinds.
pub const SCHEMA_VERSION: &'static str = "v1";
/// Kind of the built-in, always cluster-scoped Namespace resource.
pub const NAMESPACE_KIND: &'static str = "Namespace";
/// Group of the Namespace resource.
pub const NAMESPACE_GROUP: &'static str = "kapi.io";
/// Version of the Namespace resource.
pub const NAMESPACE_VERSION: &'static str = "v1";
/// The namespace created at startup, protected from deletion.
pub const DEFAULT_NAMESPACE: &'static str = "default";
/// Scope value of kinds whose objects live in namespaces.
pub const SCOPE_NAMESPACED: &'static str = "Namespaced";
/// Scope value of cluster-scoped kinds.
pub const SCOPE_CLUSTER: &'static str = "Cluster";

/// The key of the built-in Namespace kind: `kapi.io/v1`, kind `Namespace`.
pub open spec fn spec_namespace_key() -> KeyView {
    KeyView { group: seq!['k', 'a', 'p', 'i', '.', 'i', 'o'], version: seq!['v', '1'], kind: seq!['N', 'a', 'm', 'e', 's', 'p', 'a', 'c', 'e'] }
}

/// The key of the built-in Schema kind: `kapi.io/v1`, kind `Schema`.
pub open spec fn spec_schema_key() -> KeyView {
    KeyView { group: seq!['k', 'a', 'p', 'i', '.', 'i', 'o'], version: seq!['v', '1'], kind: seq!['S', 'c', 'h', 'e', 'm', 'a'] }
}

/// Returns the [`ResourceKey`] of the built-in Namespace kind.
///
/// Namespaces are cluster-scoped: every Namespace operation uses no namespace.
pub fn namespace_key() -> (k: ResourceKey)
    ensures
        k@ == spec_namespace_key(),
{
    proof {
        reveal_strlit("kapi.io");
        reveal_strlit("v1");
        reveal_strlit("Namespace");
    }
    let k = ResourceKey {
        group: String::from_str("kapi.io"),
        version: String::from_str("v1"),
        kind: String::from_str("Namespace"),
    };
    assert(k.group@ =~= spec_namespace_key().group);
    assert(k.version@ =~= spec_namespace_key().version);
    assert(k.kind@ =~= spec_namespace_key().kind);
    k
}

/// Returns the [`ResourceKey`] of the built-in Schema kind.
pub fn schema_key() -> (k: ResourceKey)
    ensures
        k@ == spec_schema_key(),
{
    proof {
        reveal_strlit("kapi.io");
        reveal_strlit("v1");
        reveal_strlit("Schema");
    }
    let k = ResourceKey {
        group: String::from_str("kapi.io"),
        version: String::from_str("v1"),
        kind: String::from_str("Schema"),
    };
    assert(k.group@ =~= spec_schema_key().group);
    assert(k.version@ =~= spec_schema_key().version);
    assert(k.kind@ =~= spec_schema_key().kind);
    k
}

} // verus!
