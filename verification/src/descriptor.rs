//! Sole ownership of a raw OS handle.
//!
//! An [`OwnedDescriptor`] wraps exactly one raw handle. Ownership moves —
//! never silently duplicates — and ends in exactly one of two ways: an
//! explicit release, after which the new holder is responsible for the
//! handle, or a close. Both consume the owner, so no operation can reach
//! a descriptor after it was released or closed; the lifecycle automaton
//! below states that discipline, and the lemmas prove what it implies.

use vstd::prelude::*;

verus! {

/// Where a descriptor owner stands in its life.
#[derive(Clone, Copy, PartialEq, Eq, Structural, Debug)]
pub enum DescriptorPhase {
    /// One live owner holds the handle.
    Held,
    /// Ownership was transferred out; the former owner is gone.
    Released,
    /// The handle was closed; the owner is gone.
    Closed,
}

/// The operations that end an owner's hold on its handle.
#[derive(Clone, Copy, PartialEq, Eq, Structural, Debug)]
pub enum DescriptorOp {
    /// Transfer ownership out.
    Release,
    /// Close the handle.
    Close,
}

/// The ownership lifecycle: each operation needs a live owner, and no
/// operation leaves one behind. `None` marks a forbidden move.
pub open spec fn descriptor_step(p: DescriptorPhase, op: DescriptorOp) -> Option<DescriptorPhase> {
    match (p, op) {
        (DescriptorPhase::Held, DescriptorOp::Release) => Some(DescriptorPhase::Released),
        (DescriptorPhase::Held, DescriptorOp::Close) => Some(DescriptorPhase::Closed),
        _ => None,
    }
}

/// The phase after a whole sequence of operations, if every one of them
/// was admitted.
pub open spec fn descriptor_trace(p: DescriptorPhase, ops: Seq<DescriptorOp>) -> Option<
    DescriptorPhase,
>
    decreases ops.len(),
{
    if ops.len() == 0 {
        Some(p)
    } else {
        match descriptor_step(p, ops[0]) {
            Some(q) => descriptor_trace(q, ops.drop_first()),
            None => None,
        }
    }
}

/// How many closes a sequence of operations contains.
pub open spec fn close_count(ops: Seq<DescriptorOp>) -> nat
    decreases ops.len(),
{
    if ops.len() == 0 {
        0
    } else {
        (if ops[0] is Close {
            1nat
        } else {
            0nat
        }) + close_count(ops.drop_first())
    }
}

/// Law (descriptor ownership, part one): a live owner admits at most one
/// further operation — nothing can use a descriptor after the owner
/// released or closed it.
pub proof fn lemma_no_use_after_end(ops: Seq<DescriptorOp>)
    requires
        descriptor_trace(DescriptorPhase::Held, ops) is Some,
    ensures
        ops.len() <= 1,
{
    if ops.len() > 1 {
        assert(descriptor_trace(DescriptorPhase::Held, ops)
            == descriptor_trace(DescriptorPhase::Released, ops.drop_first())
            || descriptor_trace(DescriptorPhase::Held, ops)
            == descriptor_trace(DescriptorPhase::Closed, ops.drop_first()));
        assert(descriptor_trace(DescriptorPhase::Released, ops.drop_first()) is None);
        assert(descriptor_trace(DescriptorPhase::Closed, ops.drop_first()) is None);
    }
}

/// Law (descriptor ownership, part two): every admitted sequence of
/// operations on a live owner closes the handle at most once, and any
/// that ends with the handle closed closes it exactly once.
pub proof fn lemma_closed_exactly_once(ops: Seq<DescriptorOp>)
    requires
        descriptor_trace(DescriptorPhase::Held, ops) is Some,
    ensures
        close_count(ops) <= 1,
        descriptor_trace(DescriptorPhase::Held, ops) == Some(DescriptorPhase::Closed)
            ==> close_count(ops) == 1,
{
    lemma_no_use_after_end(ops);
    if ops.len() == 1 {
        assert(close_count(ops.drop_first()) == 0);
        if ops[0] is Release {
            assert(descriptor_step(DescriptorPhase::Held, ops[0]) == Some(
                DescriptorPhase::Released,
            ));
            assert(descriptor_trace(DescriptorPhase::Held, ops) == descriptor_trace(
                DescriptorPhase::Released,
                ops.drop_first(),
            ));
            assert(ops.drop_first().len() == 0);
            assert(descriptor_trace(DescriptorPhase::Released, ops.drop_first()) == Some(
                DescriptorPhase::Released,
            ));
        } else {
            assert(ops[0] is Close);
            assert(close_count(ops) == 1);
        }
    }
}

/// Sole owner of one raw OS handle. The wrapper is deliberately neither
/// `Clone` nor `Copy`: handing the handle on consumes the owner, as the
/// lifecycle above demands. Equality and hashing go by handle identity,
/// so a live owner can serve as a key.
#[derive(PartialEq, Eq, Structural, Hash, Debug)]
pub struct OwnedDescriptor {
    raw: i32,
}

/// An instruction to the driving process: close this raw handle now.
/// Produced exactly once per owner, by consuming it.
#[derive(PartialEq, Eq, Structural, Debug)]
pub struct CloseRequest {
    pub handle: i32,
}

impl View for OwnedDescriptor {
    type V = int;

    closed spec fn view(&self) -> int {
        self.raw as int
    }
}

impl OwnedDescriptor {
    /// Take ownership of a raw handle.
    pub fn from_raw(raw: i32) -> (d: Self)
        ensures
            d@ == raw as int,
    {
        OwnedDescriptor { raw }
    }

    /// The handle's value, without any transfer of ownership.
    pub fn raw_handle(&self) -> (r: i32)
        ensures
            r as int == self@,
    {
        self.raw
    }

    /// Explicit transfer out: consumes the owner, and whoever holds the
    /// result is now responsible for the handle. This is the `Release`
    /// move of the lifecycle.
    pub fn release(self) -> (r: i32)
        ensures
            r as int == self@,
    {
        self.raw
    }

    /// Consume the owner into the instruction to close its handle: the
    /// `Close` move of the lifecycle.
    pub fn into_close_request(self) -> (r: CloseRequest)
        ensures
            r.handle as int == self@,
    {
        CloseRequest { handle: self.raw }
    }
}

} // verus!
