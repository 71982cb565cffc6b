//! The built-in kinds every server starts with: the cluster-scoped
//! Namespace kind and its `"default"` namespace.

use vstd::prelude::*;
use crate::clock::now;
use crate::error::AppError;
use crate::json::{JsonTree, JsonValue};
use crate::jsonbuild::{jobj, tobj};
use crate::registry::registration;
use crate::keys::{namespace_key, schema_key, spec_namespace_key, spec_schema_key};
use crate::schema_service::SchemaService;
use crate::store::{Ident, InMemoryStore, identity};
use crate::strmap::StringMap;
use crate::types::{ObjectMeta, StoredObject, SystemMetadata};

verus! {

/// Where the `"default"` Namespace object lives.
pub open spec fn default_namespace_id() -> Ident {
    Ident { key: spec_namespace_key(), namespace: None, name: "default"@ }
}

/// Where the Schema of the Namespace kind lives.
pub open spec fn namespace_schema_id() -> Ident {
    Ident { key: spec_schema_key(), namespace: None, name: "Namespace.kapi.io.v1"@ }
}

/// The registration payload of the Namespace kind: group `kapi.io`,
/// version `v1`, kind `Namespace`, any object as spec, cluster-scoped.
pub open spec fn namespace_registration() -> JsonTree {
    tobj()
        .with_text("targetGroup"@, "kapi.io"@)
        .with_text("targetVersion"@, "v1"@)
        .with_text("targetKind"@, "Namespace"@)
        .with("specSchema"@, tobj().with_text("type"@, "object"@))
        .with_text("scope"@, "Cluster"@)
}

fn namespace_schema_spec() -> (v: JsonValue)
    ensures
        v@ == namespace_registration(),
{
    jobj()
        .with_text("targetGroup", "kapi.io")
        .with_text("targetVersion", "v1")
        .with_text("targetKind", "Namespace")
        .with("specSchema", jobj().with_text("type", "object"))
        .with_text("scope", "Cluster")
}

fn plain_meta(name: &str) -> (m: ObjectMeta)
    ensures
        m@.name == name@,
        m@.namespace is None,
        m@.labels == Map::<Seq<char>, Seq<char>>::empty(),
        m@.annotations == Map::<Seq<char>, Seq<char>>::empty(),
        m@.finalizers == Seq::<Seq<char>>::empty(),
        m.annotations.entry_seq() == Seq::<(String, String)>::empty(),
        m.finalizers@.len() == 0,
{
    let m = ObjectMeta {
        name: String::from_str(name),
        namespace: None,
        labels: StringMap::new(),
        annotations: StringMap::new(),
        finalizers: Vec::new(),
    };
    assert(m@.finalizers =~= Seq::<Seq<char>>::empty());
    m
}

/// Creates the `"default"` Namespace object unless it exists; returns the
/// object it created, if any.
pub fn bootstrap_default_namespace(store: &mut InMemoryStore) -> (r: Option<StoredObject>)
    ensures
        final(store)@.contains_key(default_namespace_id()),
        old(store)@.contains_key(default_namespace_id()) ==> final(store)@ == old(store)@ && r is None,
        !old(store)@.contains_key(default_namespace_id()) ==> (r matches Some(o) && identity(o@) == default_namespace_id()
            && o@.spec == JsonTree::Object(Seq::empty()) && o@.status is None
            && o@.system == SystemMetadata::spec_initial(o@.system.created_at)
            && final(store)@ == old(store)@.insert(default_namespace_id(), o@)),
{
    let key = namespace_key();
    if store.get(&key, None, "default").is_ok() {
        return None;
    }
    let t = now();
    let spec = JsonValue::Object(Vec::new());
    assert(spec@->Object_0 =~= Seq::<(Seq<char>, JsonTree)>::empty());
    let object = StoredObject { key, metadata: plain_meta("default"), system: SystemMetadata::initial(t), spec, status: None };
    match store.create(object) {
        Ok(o) => Some(o),
        Err(_) => None,
    }
}

/// Registers the Namespace kind unless its Schema is stored, then creates
/// the `"default"` namespace unless it exists. Returns the namespace object
/// created, if any; the Schema's `Added` event is queued by `schemas`. The
/// only failure is a registration payload that the meta-schema or the
/// schema compiler refuses, and then nothing is stored.
pub fn bootstrap_builtins(schemas: &mut SchemaService, store: &mut InMemoryStore) -> (r: Result<Option<StoredObject>, AppError>)
    ensures
        (old(store)@.contains_key(namespace_schema_id()) || registration(old(schemas).meta(), namespace_registration()) is Ok)
            ==> (r matches Ok(created)
                && final(store)@.contains_key(default_namespace_id())
                && final(store)@.contains_key(namespace_schema_id())
                && (created is Some <==> !old(store)@.contains_key(default_namespace_id()))
                && (created matches Some(o) ==> identity(o@) == default_namespace_id()
                    && o@.spec == JsonTree::Object(Seq::empty()) && o@.status is None
                    && o@.system == SystemMetadata::spec_initial(o@.system.created_at)
                    && final(store)@[default_namespace_id()] == o@)),
        !(old(store)@.contains_key(namespace_schema_id()) || registration(old(schemas).meta(), namespace_registration()) is Ok)
            ==> (r matches Err(AppError::InvalidSchema(m)) && registration(old(schemas).meta(), namespace_registration()) == Err::<crate::schema_data::SchemaDataView, Seq<char>>(m@)
                && final(store)@ == old(store)@),
{
    let skey = schema_key();
    if store.get(&skey, None, "Namespace.kapi.io.v1").is_err() {
        let meta = plain_meta("Namespace.kapi.io.v1");
        proof {
            assert(crate::service::meta_ok(meta));
        }
        match schemas.create(store, skey, meta, namespace_schema_spec()) {
            Ok(_) => {},
            Err(e) => return Err(e),
        }
    }
    let created = bootstrap_default_namespace(store);
    Ok(created)
}

} // verus!
