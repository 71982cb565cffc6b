//! Finalizer state machine: pure decisions for the deletion lifecycle.
//!
//! These functions read state and return decisions; the services execute
//! them through store transactions.

use vstd::prelude::*;
use crate::clock::now;
use crate::json::{JsonTree, JsonValue};

use crate::store::TransactionOp;
use crate::text::str_equal;
use crate::types::{ObjectMeta, ObjectView, MetaView, StoredObject, str_seq};

verus! {

/// Action to take after evaluating a delete request.
#[derive(Copy, Clone, Debug, PartialEq, Eq, Structural)]
pub enum DeleteAction {
    /// No finalizers: remove the object now.
    HardDeleted,
    /// Finalizers present and no deletion timestamp yet: mark for deletion.
    MarkedForDeletion,
    /// Already marked: nothing to do.
    IdempotentNoOp,
}

pub open spec fn spec_evaluate_delete(existing: ObjectView) -> DeleteAction {
    if existing.metadata.finalizers.len() == 0 {
        DeleteAction::HardDeleted
    } else if existing.system.deletion_timestamp is Some {
        DeleteAction::IdempotentNoOp
    } else {
        DeleteAction::MarkedForDeletion
    }
}

/// Decides what a delete request does to `existing`.
pub fn evaluate_delete(existing: &StoredObject) -> (a: DeleteAction)
    ensures
        a == spec_evaluate_delete(existing@),
{
    if existing.metadata.finalizers.len() == 0 {
        DeleteAction::HardDeleted
    } else if existing.system.deletion_timestamp.is_some() {
        DeleteAction::IdempotentNoOp
    } else {
        DeleteAction::MarkedForDeletion
    }
}

/// `o` with its deletion timestamp set and nothing else changed.
pub open spec fn marked(o: ObjectView, o2: ObjectView) -> bool {
    &&& o2.key == o.key
    &&& o2.metadata == o.metadata
    &&& o2.spec == o.spec
    &&& o2.status == o.status
    &&& o2.system.resource_version == o.system.resource_version
    &&& o2.system.generation == o.system.generation
    &&& o2.system.created_at == o.system.created_at
    &&& o2.system.updated_at == o.system.updated_at
    &&& o2.system.deletion_timestamp is Some
}

/// Turns a delete decision into a store operation. Marking stamps the
/// deletion timestamp with the current time.
pub fn execute_delete(action: DeleteAction, existing: &StoredObject) -> (op: TransactionOp)
    ensures
        match action {
            DeleteAction::HardDeleted => op is Delete,
            DeleteAction::MarkedForDeletion => op matches TransactionOp::Apply(o) && marked(existing@, o@),
            DeleteAction::IdempotentNoOp => op matches TransactionOp::Apply(o) && o@ == existing@,
        },
{
    match action {
        DeleteAction::HardDeleted => TransactionOp::Delete,
        DeleteAction::MarkedForDeletion => {
            let mut m = existing.duplicate();
            m.system.deletion_timestamp = Some(now());
            TransactionOp::Apply(m)
        },
        DeleteAction::IdempotentNoOp => TransactionOp::Apply(existing.duplicate()),
    }
}

/// Result of evaluating an update on an object that may be under deletion.
#[derive(Copy, Clone, Debug, PartialEq, Eq, Structural)]
pub enum FinalizerDecision {
    Allow,
    /// Something besides a finalizer removal was attempted during deletion.
    RejectBeingDeleted,
}

pub open spec fn spec_evaluate_update(existing: ObjectView, incoming: MetaView, spec: JsonTree) -> FinalizerDecision {
    if existing.system.deletion_timestamp is None {
        FinalizerDecision::Allow
    } else if existing.spec != spec
        || existing.metadata.name != incoming.name
        || existing.metadata.labels != incoming.labels
        || existing.metadata.annotations != incoming.annotations
        || existing.metadata.finalizers == incoming.finalizers
    {
        FinalizerDecision::RejectBeingDeleted
    } else if exists|i: int| 0 <= i < incoming.finalizers.len()
        && !existing.metadata.finalizers.contains(#[trigger] incoming.finalizers[i])
    {
        FinalizerDecision::RejectBeingDeleted
    } else {
        FinalizerDecision::Allow
    }
}

fn strings_equal(a: &Vec<String>, b: &Vec<String>) -> (r: bool)
    ensures
        r == (str_seq(a@) == str_seq(b@)),
{
    if a.len() != b.len() {
        return false;
    }
    let mut i: usize = 0;
    while i < a.len()
        invariant
            0 <= i <= a.len(),
            a.len() == b.len(),
            forall|j: int| 0 <= j < i ==> #[trigger] a@[j]@ == b@[j]@,
        decreases a.len() - i,
    {
        if !str_equal(a[i].as_str(), b[i].as_str()) {
            assert(str_seq(a@)[i as int] != str_seq(b@)[i as int]);
            return false;
        }
        i = i + 1;
    }
    assert(str_seq(a@) =~= str_seq(b@));
    true
}

/// Whether `s` holds a string with the characters of `x`.
pub fn contains_string(s: &Vec<String>, x: &str) -> (r: bool)
    ensures
        r == str_seq(s@).contains(x@),
{
    let mut i: usize = 0;
    while i < s.len()
        invariant
            0 <= i <= s.len(),
            forall|j: int| 0 <= j < i ==> #[trigger] s@[j]@ != x@,
        decreases s.len() - i,
    {
        if str_equal(s[i].as_str(), x) {
            assert(str_seq(s@)[i as int] == x@);
            return true;
        }
        i = i + 1;
    }
    proof {
        if str_seq(s@).contains(x@) {
            let j = choose|j: int| 0 <= j < str_seq(s@).len() && str_seq(s@)[j] == x@;
            assert(s@[j]@ == x@);
        }
    }
    false
}

/// Decides whether an update may proceed on an object that may be under deletion.
///
/// While a deletion timestamp is set, only finalizer removals are allowed:
/// the spec (`spec` is the incoming one), name, labels and annotations must
/// be unchanged, the finalizers must change, and no new finalizer may appear.
pub fn evaluate_update(existing: &StoredObject, incoming: &ObjectMeta, spec: &JsonValue) -> (d: FinalizerDecision)
    ensures
        d == spec_evaluate_update(existing@, incoming@, spec@),
{
    if existing.system.deletion_timestamp.is_none() {
        return FinalizerDecision::Allow;
    }
    if !existing.spec.same_as(spec)
        || !str_equal(existing.metadata.name.as_str(), incoming.name.as_str())
        || !existing.metadata.labels.same_as(&incoming.labels)
        || !existing.metadata.annotations.same_as(&incoming.annotations)
        || strings_equal(&existing.metadata.finalizers, &incoming.finalizers)
    {
        return FinalizerDecision::RejectBeingDeleted;
    }
    let mut i: usize = 0;
    while i < incoming.finalizers.len()
        invariant
            0 <= i <= incoming.finalizers.len(),
            existing@.system.deletion_timestamp is Some,
            existing@.spec == spec@,
            !(existing@.metadata.name != incoming@.name
                || existing@.metadata.labels != incoming@.labels
                || existing@.metadata.annotations != incoming@.annotations
                || existing@.metadata.finalizers == incoming@.finalizers),
            forall|j: int| 0 <= j < i ==> str_seq(existing.metadata.finalizers@).contains(#[trigger] incoming.finalizers@[j]@),
        decreases incoming.finalizers.len() - i,
    {
        if !contains_string(&existing.metadata.finalizers, incoming.finalizers[i].as_str()) {
            assert(!existing@.metadata.finalizers.contains(incoming@.finalizers[i as int]));
            assert(0 <= i < incoming@.finalizers.len());
            return FinalizerDecision::RejectBeingDeleted;
        }
        i = i + 1;
    }
    proof {
        assert forall|j: int| 0 <= j < incoming@.finalizers.len() implies existing@.metadata.finalizers.contains(#[trigger] incoming@.finalizers[j]) by {
            assert(incoming@.finalizers[j] == incoming.finalizers@[j]@);
        }
    }
    FinalizerDecision::Allow
}

/// Whether an update empties the finalizers of an object under deletion,
/// which removes the object.
pub fn should_hard_delete(existing: &StoredObject, incoming_finalizers: &Vec<String>) -> (b: bool)
    ensures
        b == (existing@.system.deletion_timestamp is Some && incoming_finalizers@.len() == 0),
{
    existing.system.deletion_timestamp.is_some() && incoming_finalizers.len() == 0
}

} // verus!
