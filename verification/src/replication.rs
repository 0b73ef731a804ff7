//! The remote operations, their delivery classes, and who receives them.

use vstd::prelude::*;

verus! {

/// How the transport delivers an operation.
#[derive(Clone, Copy, Debug, PartialEq, Eq, Structural)]
pub enum DeliveryClass {
    /// Delivered for certain, in the order sent.
    ReliableOrdered,
    /// May be lost, repeated or reordered.
    Unreliable,
    /// May be lost, but what arrives keeps the order sent.
    UnreliableOrdered,
}

/// The operations that one participant can invoke on others.
#[derive(Clone, Copy, Debug, PartialEq, Eq, Structural)]
pub enum Operation {
    SpawnPlayer,
    Respawn,
    BeginRagdoll,
    EndRagdoll,
    SyncRagdoll,
    ShootRocket,
    Explode,
    SyncState,
    UpdateStates,
    RegisterPlayer,
}

/// Whom an invocation is addressed to.
#[derive(Clone, Copy, Debug, PartialEq, Eq, Structural)]
pub enum Target {
    Everyone,
    Participant(i64),
}

/// The delivery class of each operation: events are reliable, the per-tick
/// movement state is unreliable, and the ragdoll flag is unreliable but
/// ordered.
pub open spec fn class_of(op: Operation) -> DeliveryClass {
    match op {
        Operation::SyncState | Operation::UpdateStates => DeliveryClass::Unreliable,
        Operation::SyncRagdoll => DeliveryClass::UnreliableOrdered,
        _ => DeliveryClass::ReliableOrdered,
    }
}

/// Whether the operation carries a snapshot of state that the sender has
/// already applied to its own copy.
pub open spec fn is_state_sync(op: Operation) -> bool {
    op == Operation::SyncState || op == Operation::UpdateStates || op == Operation::SyncRagdoll
}

/// Whether the sender of the operation runs it on its own copy too.
pub open spec fn is_call_local(op: Operation) -> bool {
    !is_state_sync(op) && op != Operation::RegisterPlayer
}

/// Whether any participant may invoke the operation, and not only the
/// entity's authority.
pub open spec fn is_any_peer(op: Operation) -> bool {
    op == Operation::RegisterPlayer
}

/// Whether `sender` may invoke `op` on an entity simulated by `authority`.
pub open spec fn permitted(op: Operation, sender: i64, authority: i64) -> bool {
    is_any_peer(op) || sender == authority
}

/// Whether an invocation addressed to `target` is meant for `receiver`.
pub open spec fn addressed(target: Target, receiver: i64) -> bool {
    match target {
        Target::Everyone => true,
        Target::Participant(p) => p == receiver,
    }
}

/// Whether `receiver` runs an invocation of `op` that `sender` addressed to
/// `target`, on an entity simulated by `authority`.
pub open spec fn delivered(
    op: Operation,
    sender: i64,
    authority: i64,
    target: Target,
    receiver: i64,
) -> bool {
    permitted(op, sender, authority) && addressed(target, receiver) && (receiver != sender
        || is_call_local(op))
}

/// The delivery class of the operation.
pub fn delivery_class(op: Operation) -> (r: DeliveryClass)
    ensures
        r == class_of(op),
{
    match op {
        Operation::SyncState | Operation::UpdateStates => DeliveryClass::Unreliable,
        Operation::SyncRagdoll => DeliveryClass::UnreliableOrdered,
        _ => DeliveryClass::ReliableOrdered,
    }
}

/// Whether the sender of the operation runs it on its own copy too.
pub fn call_local(op: Operation) -> (r: bool)
    ensures
        r == is_call_local(op),
{
    match op {
        Operation::SyncState | Operation::UpdateStates | Operation::SyncRagdoll
        | Operation::RegisterPlayer => false,
        _ => true,
    }
}

/// Whether any participant may invoke the operation.
pub fn any_peer(op: Operation) -> (r: bool)
    ensures
        r == is_any_peer(op),
{
    match op {
        Operation::RegisterPlayer => true,
        _ => false,
    }
}

/// Whether `receiver` runs the invocation.
pub fn accepts(op: Operation, sender: i64, authority: i64, target: Target, receiver: i64) -> (r:
    bool)
    ensures
        r == delivered(op, sender, authority, target, receiver),
{
    let allowed = any_peer(op) || sender == authority;
    let aimed = match target {
        Target::Everyone => true,
        Target::Participant(p) => p == receiver,
    };
    allowed && aimed && (receiver != sender || call_local(op))
}

/// The participants that run the invocation, in the order of `participants`.
pub fn recipients(
    op: Operation,
    sender: i64,
    authority: i64,
    target: Target,
    participants: &Vec<i64>,
) -> (r: Vec<i64>)
    ensures
        r@ == participants@.filter(|p: i64| delivered(op, sender, authority, target, p)),
{
    let ghost pred = |p: i64| delivered(op, sender, authority, target, p);
    let mut out: Vec<i64> = Vec::new();
    let mut i: usize = 0;
    proof {
        reveal(Seq::filter);
        assert(participants@.subrange(0, 0) =~= Seq::<i64>::empty());
    }
    while i < participants.len()
        invariant
            i <= participants.len(),
            pred == (|p: i64| delivered(op, sender, authority, target, p)),
            out@ == participants@.subrange(0, i as int).filter(pred),
        decreases participants.len() - i,
    {
        let p: i64 = participants[i];
        proof {
            reveal(Seq::filter);
            let next = participants@.subrange(0, i + 1);
            assert(next.drop_last() =~= participants@.subrange(0, i as int));
            assert(next.last() == p);
        }
        if accepts(op, sender, authority, target, p) {
            out.push(p);
        }
        i = i + 1;
    }
    proof {
        assert(participants@.subrange(0, i as int) =~= participants@);
    }
    out
}

/// No feedback: the authority of an entity never runs a state snapshot of
/// that entity as a receiver. Only the authority may send one, and a sender
/// never receives its own.
pub proof fn lemma_no_feedback(op: Operation, sender: i64, authority: i64, target: Target)
    requires
        is_state_sync(op),
    ensures
        !delivered(op, sender, authority, target, authority),
        !delivered(op, sender, authority, target, sender),
{
}

} // verus!
