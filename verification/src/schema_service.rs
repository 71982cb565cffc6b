//! The Schema service: registration, update and removal of Schema objects,
//! which define the kinds the object service accepts.
//!
//! Schema objects are always cluster-scoped. Each operation keeps the
//! service's schema cache in step with what it stored.

use std::sync::Arc;
use vstd::prelude::*;
use crate::clock::now;
use crate::error::AppError;
use crate::helpers::{apply_with_metadata, counters_fit, stamped};
use crate::json::{JsonTree, JsonValue};
use crate::jsontext::json_text;
use crate::keys::{KeyView, ResourceKey};
use crate::meta_schema::JsonSchemaValidator;
use crate::registry::{CacheView, SchemaRegistry, after_lookup, after_status_lookup, entry_of, registration, reports_load_failure, schema_name_of, status_lookup, validator_lookup};
use crate::schema_data::{SchemaData, parse_schema_data};
use crate::service::{event_views, meta_ok, meta_refusal};
use crate::store::{Ident, InMemoryStore, TransactionOp, object_identifier};
use crate::types::{MetaView, ObjectMeta, ObjectView, StoredObject, SystemMetadata, WatchEvent, WatchEventType};
use crate::validation::{validate_annotations, validate_finalizers, validate_labels};

verus! {

broadcast use vstd::std_specs::vec::group_vec_axioms;

/// `meta` with no namespace.
pub open spec fn unplaced(meta: MetaView) -> MetaView {
    MetaView { namespace: None, ..meta }
}

/// The cache after a registration named `name` with data `d` is cached.
pub open spec fn cached_registration(c: CacheView, name: Seq<char>, d: crate::schema_data::SchemaDataView) -> CacheView {
    c.insert(name, entry_of(d))
}

/// Whether `existing` and `meta`, `spec` make the content of an update.
pub open spec fn schema_replaced(existing: ObjectView, meta: MetaView, spec: JsonTree) -> ObjectView {
    ObjectView { metadata: meta, spec, ..existing }
}

/// Registers, updates and removes Schema objects.
pub struct SchemaService {
    schema_registry: SchemaRegistry,
    events: Vec<WatchEvent>,
}

impl SchemaService {
    /// The service's schema cache.
    pub closed spec fn cache(&self) -> CacheView {
        self.schema_registry@
    }

    /// The meta-schema text registrations are checked against.
    pub closed spec fn meta(&self) -> Seq<char> {
        self.schema_registry.meta()
    }

    /// The events queued and not yet taken.
    pub closed spec fn pending(&self) -> Seq<(WatchEventType, ObjectView)> {
        event_views(self.events@)
    }

    /// A service with its own registry, checking registrations against
    /// `meta_validator`.
    pub fn new(meta_validator: Arc<JsonSchemaValidator>) -> (s: SchemaService)
        ensures
            s.cache() == Map::<Seq<char>, (Seq<char>, Option<Seq<char>>, Seq<char>)>::empty(),
            s.meta() == meta_validator@,
            s.pending() == Seq::<(WatchEventType, ObjectView)>::empty(),
    {
        let s = SchemaService { schema_registry: SchemaRegistry::new(meta_validator), events: Vec::new() };
        assert(s.pending() =~= Seq::<(WatchEventType, ObjectView)>::empty());
        s
    }

    /// Takes the queued events, oldest first.
    pub fn take_events(&mut self) -> (r: Vec<WatchEvent>)
        ensures
            event_views(r@) == old(self).pending(),
            final(self).pending() == Seq::<(WatchEventType, ObjectView)>::empty(),
            final(self).cache() == old(self).cache(),
            final(self).meta() == old(self).meta(),
    {
        let mut taken: Vec<WatchEvent> = Vec::new();
        std::mem::swap(&mut taken, &mut self.events);
        assert(self.pending() =~= Seq::<(WatchEventType, ObjectView)>::empty());
        taken
    }

    fn publish(&mut self, event_type: WatchEventType, object: &StoredObject)
        ensures
            final(self).pending() == old(self).pending().push((event_type, object@)),
            final(self).cache() == old(self).cache(),
            final(self).meta() == old(self).meta(),
    {
        self.events.push(WatchEvent { event_type, object: object.duplicate() });
        assert(self.pending() =~= old(self).pending().push((event_type, object@)));
    }

    fn check_meta(meta: &ObjectMeta) -> (r: Result<(), AppError>)
        ensures
            r is Ok <==> meta_ok(*meta),
            r matches Err(e) ==> meta_refusal(*meta, e),
    {
        match validate_labels(&meta.labels) {
            Ok(()) => {},
            Err(e) => return Err(e),
        }
        match validate_annotations(&meta.annotations) {
            Ok(()) => {},
            Err(e) => return Err(e),
        }
        validate_finalizers(&meta.finalizers)
    }

    /// Caches a registration's validators under `name`.
    fn cache_registration(&mut self, name: &str, data: &SchemaData, compiled: Arc<JsonSchemaValidator>, status_compiled: Option<Arc<JsonSchemaValidator>>)
        requires
            compiled@ == json_text(data@.spec_schema),
            crate::registry::opt_source(status_compiled) == entry_of(data@).1,
        ensures
            final(self).cache() == cached_registration(old(self).cache(), name@, data@),
            final(self).meta() == old(self).meta(),
            final(self).pending() == old(self).pending(),
    {
        self.schema_registry.insert(name, compiled, data.scope.as_str());
        match status_compiled {
            Some(sv) => {
                self.schema_registry.insert_status(name, sv);
            },
            None => {},
        }
        assert(self.schema_registry@ =~= cached_registration(old(self).cache(), name@, data@));
    }

    /// Registers a Schema: the metadata is validated (its namespace dropped),
    /// the payload checked against the meta-schema and compiled, the object
    /// stored with fresh system metadata, its validators cached under its
    /// name, and an `Added` event queued.
    pub fn create(&mut self, store: &mut InMemoryStore, key: ResourceKey, meta: ObjectMeta, spec: JsonValue) -> (r: Result<StoredObject, AppError>)
        ensures
            final(self).meta() == old(self).meta(),
            ({
                let s = old(store)@;
                let id = Ident { key: key@, namespace: None, name: meta@.name };
                if !meta_ok(meta) {
                    (r matches Err(e) && meta_refusal(meta, e)) && final(store)@ == s && final(self).cache() == old(self).cache()
                } else {
                    match registration(old(self).meta(), spec@) {
                        Err(m) => (r matches Err(AppError::InvalidSchema(x)) && x@ == m) && final(store)@ == s
                            && final(self).cache() == old(self).cache(),
                        Ok(d) => if s.contains_key(id) {
                            (r matches Err(AppError::AlreadyExists { kind, name }) && kind@ == key@.kind && name@ == meta@.name)
                                && final(store)@ == s && final(self).cache() == old(self).cache()
                        } else {
                            (r matches Ok(o) && o@ == (ObjectView {
                                key: key@,
                                metadata: unplaced(meta@),
                                system: SystemMetadata::spec_initial(o@.system.created_at),
                                spec: spec@,
                                status: None,
                            })) && final(store)@ == s.insert(id, r->Ok_0@)
                                && final(self).cache() == cached_registration(old(self).cache(), meta@.name, d)
                        },
                    }
                }
            }),
            final(self).pending() == (if r is Ok { old(self).pending().push((WatchEventType::Added, r->Ok_0@)) } else { old(self).pending() }),
    {
        let mut meta = meta;
        meta.namespace = None;
        match Self::check_meta(&meta) {
            Ok(()) => {},
            Err(e) => return Err(e),
        }
        let (data, compiled, status_compiled) = match self.schema_registry.validate_and_compile(&spec) {
            Ok(x) => x,
            Err(e) => return Err(e),
        };
        let name = meta.name.clone();
        let t = now();
        let object = StoredObject { key, metadata: meta, system: SystemMetadata::initial(t), spec, status: None };
        let stored = match store.create(object) {
            Ok(o) => o,
            Err(e) => return Err(e),
        };
        self.cache_registration(name.as_str(), &data, compiled, status_compiled);
        self.publish(WatchEventType::Added, &stored);
        Ok(stored)
    }

    /// Updates a Schema: the metadata is validated (its namespace dropped)
    /// and the payload compiled as for a registration; then, in one store
    /// transaction, the resource version is checked and the object stored with
    /// stamped metadata. Its validators are re-cached and a `Modified` event
    /// is queued.
    pub fn update(&mut self, store: &mut InMemoryStore, object: StoredObject) -> (r: Result<StoredObject, AppError>)
        ensures
            final(self).meta() == old(self).meta(),
            ({
                let s = old(store)@;
                let ov = object@;
                let id = Ident { key: ov.key, namespace: None, name: ov.metadata.name };
                if !meta_ok(object.metadata) {
                    (r matches Err(e) && meta_refusal(object.metadata, e)) && final(store)@ == s && final(self).cache() == old(self).cache()
                } else {
                    match registration(old(self).meta(), ov.spec) {
                        Err(m) => (r matches Err(AppError::InvalidSchema(x)) && x@ == m) && final(store)@ == s
                            && final(self).cache() == old(self).cache(),
                        Ok(d) => if !s.contains_key(id) {
                            (r matches Err(AppError::NotFound { what, identifier }) && what@ == "object"@
                                && identifier@ == object_identifier(ov.key.kind, ov.metadata.name))
                                && final(store)@ == s && final(self).cache() == old(self).cache()
                        } else if ov.system.resource_version != s[id].system.resource_version {
                            (r matches Err(AppError::Conflict { expected, actual })
                                && expected == s[id].system.resource_version && actual == ov.system.resource_version)
                                && final(store)@ == s && final(self).cache() == old(self).cache()
                        } else if !counters_fit(s[id]) {
                            (r matches Err(e) && e is Internal) && final(store)@ == s && final(self).cache() == old(self).cache()
                        } else {
                            (r matches Ok(o) && o@ == stamped(s[id], schema_replaced(s[id], unplaced(ov.metadata), ov.spec), o@.system.updated_at))
                                && final(store)@ == s.insert(id, r->Ok_0@)
                                && final(self).cache() == cached_registration(old(self).cache(), ov.metadata.name, d)
                        },
                    }
                }
            }),
            final(self).pending() == (if r is Ok { old(self).pending().push((WatchEventType::Modified, r->Ok_0@)) } else { old(self).pending() }),
    {
        store.facts();
        let mut object = object;
        object.metadata.namespace = None;
        match Self::check_meta(&object.metadata) {
            Ok(()) => {},
            Err(e) => return Err(e),
        }
        let (data, compiled, status_compiled) = match self.schema_registry.validate_and_compile(&object.spec) {
            Ok(x) => x,
            Err(e) => return Err(e),
        };
        let name = object.metadata.name.clone();
        let existing = match store.get(&object.key, None, name.as_str()) {
            Ok(o) => o,
            Err(e) => return Err(e),
        };
        let op = if object.system.resource_version != existing.system.resource_version {
            TransactionOp::Abort(AppError::Conflict {
                expected: existing.system.resource_version,
                actual: object.system.resource_version,
            })
        } else {
            let mut updated = existing.duplicate();
            updated.metadata = object.metadata.duplicate();
            updated.spec = object.spec.duplicate();
            let t = now();
            apply_with_metadata(&existing, updated, t)
        };
        let result = match store.apply(&object.key, None, name.as_str(), op) {
            Ok(o) => o,
            Err(e) => return Err(e),
        };
        self.cache_registration(name.as_str(), &data, compiled, status_compiled);
        self.publish(WatchEventType::Modified, &result);
        Ok(result)
    }

    /// Removes a Schema, unless objects of the kind it registers exist
    /// (`SchemaHasObjects`); its cache entry is evicted and a `Deleted` event
    /// queued.
    pub fn delete(&mut self, store: &mut InMemoryStore, key: ResourceKey, name: String) -> (r: Result<StoredObject, AppError>)
        ensures
            final(self).meta() == old(self).meta(),
            ({
                let s = old(store)@;
                let id = Ident { key: key@, namespace: None, name: name@ };
                if !s.contains_key(id) {
                    (r matches Err(AppError::NotFound { what, identifier }) && what@ == "object"@
                        && identifier@ == object_identifier(key@.kind, name@))
                        && final(store)@ == s && final(self).cache() == old(self).cache()
                } else {
                    match parse_schema_data(s[id].spec) {
                        Err(m) => (r matches Err(AppError::InvalidSchema(x)) && x@ == "failed to parse schema data: "@ + m)
                            && final(store)@ == s && final(self).cache() == old(self).cache(),
                        Ok(d) => if exists|k: Ident| #[trigger] s.contains_key(k) && k.key == (KeyView { group: d.group, version: d.version, kind: d.kind }) {
                            (r matches Err(AppError::SchemaHasObjects { kind }) && kind@ == d.kind)
                                && final(store)@ == s && final(self).cache() == old(self).cache()
                        } else {
                            (r matches Ok(o) && o@ == s[id]) && final(store)@ == s.remove(id)
                                && final(self).cache() == old(self).cache().remove(name@)
                        },
                    }
                }
            }),
            final(self).pending() == (if r is Ok { old(self).pending().push((WatchEventType::Deleted, r->Ok_0@)) } else { old(self).pending() }),
    {
        let schema_obj = match store.get(&key, None, name.as_str()) {
            Ok(o) => o,
            Err(e) => return Err(e),
        };
        let data = match SchemaData::from_json(&schema_obj.spec) {
            Ok(d) => d,
            Err(m) => {
                let mut msg = String::from_str("failed to parse schema data: ");
                msg.append(m.as_str());
                return Err(AppError::InvalidSchema(msg));
            },
        };
        let target_key = ResourceKey { group: data.target_group, version: data.target_version, kind: data.target_kind };
        if store.has_kind(&target_key) {
            return Err(AppError::SchemaHasObjects { kind: target_key.kind });
        }
        let deleted = match store.apply(&key, None, name.as_str(), TransactionOp::Delete) {
            Ok(o) => o,
            Err(e) => return Err(e),
        };
        self.schema_registry.evict(name.as_str());
        self.publish(WatchEventType::Deleted, &deleted);
        Ok(deleted)
    }

    /// The compiled spec validator and scope of kind `key`, as the service's
    /// registry gives them.
    pub fn get_validator(&mut self, store: &InMemoryStore, key: &ResourceKey) -> (r: Result<(Arc<JsonSchemaValidator>, String), AppError>)
        ensures
            final(self).meta() == old(self).meta(),
            final(self).pending() == old(self).pending(),
            final(self).cache() == after_lookup(old(self).cache(), store@, key@),
            match validator_lookup(old(self).cache(), store@, key@) {
                Ok((v, s)) => r matches Ok((x, y)) && x@ == v && y@ == s,
                Err(f) => r matches Err(e) && reports_load_failure(e, f, schema_name_of(key@), key@.kind),
            },
    {
        self.schema_registry.get_validator(store, key)
    }

    /// The compiled status validator of kind `key`, as the service's registry
    /// gives it.
    pub fn get_status_validator(&mut self, store: &InMemoryStore, key: &ResourceKey) -> (r: Result<Arc<JsonSchemaValidator>, AppError>)
        ensures
            final(self).meta() == old(self).meta(),
            final(self).pending() == old(self).pending(),
            final(self).cache() == after_status_lookup(old(self).cache(), store@, key@),
            match status_lookup(old(self).cache(), store@, key@) {
                Ok(v) => r matches Ok(x) && x@ == v,
                Err(f) => r matches Err(e) && reports_load_failure(e, f, schema_name_of(key@), key@.kind),
            },
    {
        self.schema_registry.get_status_validator(store, key)
    }

    /// Whether the service's cache has an entry for `name`.
    pub fn is_cached(&self, name: &str) -> (b: bool)
        ensures
            b == self.cache().contains_key(name@),
    {
        self.schema_registry.is_cached(name)
    }
}

} // verus!
