//! Metadata management shared by the services.

use vstd::prelude::*;
use crate::error::AppError;
use crate::store::TransactionOp;
use crate::types::{ObjectView, StoredObject, SystemMetadata, Timestamp};

verus! {

/// `updated` as an accepted write of `existing` stores it at time `now`: the
/// resource version one past the existing one, the generation bumped when
/// the spec changed, the creation time kept and the update time `now`.
pub open spec fn stamped(existing: ObjectView, updated: ObjectView, now: Timestamp) -> ObjectView {
    ObjectView {
        key: updated.key,
        metadata: updated.metadata,
        system: SystemMetadata {
            resource_version: (existing.system.resource_version + 1) as u64,
            generation: if updated.spec == existing.spec {
                existing.system.generation
            } else {
                (existing.system.generation + 1) as u64
            },
            created_at: existing.system.created_at,
            updated_at: now,
            deletion_timestamp: updated.system.deletion_timestamp,
        },
        spec: updated.spec,
        status: updated.status,
    }
}

/// Whether the counters of `existing` leave room for one more write.
pub open spec fn counters_fit(existing: ObjectView) -> bool {
    existing.system.resource_version < u64::MAX && existing.system.generation < u64::MAX
}

/// Stamps `updated`, the new content for `existing`, with the metadata of an
/// accepted write at time `now`, and asks the store to persist it. When a
/// counter would overflow, the write is refused with an internal error.
pub fn apply_with_metadata(existing: &StoredObject, updated: StoredObject, now: Timestamp) -> (op: TransactionOp)
    ensures
        counters_fit(existing@) ==> (op matches TransactionOp::Apply(o) && o@ == stamped(existing@, updated@, now)),
        !counters_fit(existing@) ==> (op matches TransactionOp::Abort(e) && e is Internal),
{
    if existing.system.resource_version == u64::MAX || existing.system.generation == u64::MAX {
        return TransactionOp::Abort(AppError::Internal(String::from_str("resource version overflow")));
    }
    let spec_changed = !updated.spec.same_as(&existing.spec);
    let mut o = updated;
    o.system.resource_version = existing.system.resource_version + 1;
    o.system.generation = if spec_changed { existing.system.generation + 1 } else { existing.system.generation };
    o.system.created_at = existing.system.created_at;
    o.system.updated_at = now;
    TransactionOp::Apply(o)
}

} // verus!
