//! The reload trigger bridge: a single-slot, last-writer-wins mailbox that
//! carries a "recompile this source" signal from outside the frame loop into
//! it. The slot holds at most one identifier; a new request overwrites an
//! unconsumed one, and a drain takes and clears it. The host wraps one
//! bridge in a mutual-exclusion lock so requests from other execution
//! contexts land whole; every operation here is O(1) and never blocks.

use vstd::prelude::*;

verus! {

/// The mailbox. `pending` is the most recently requested source identifier
/// not yet consumed by the frame loop, if any.
pub struct ReloadBridge {
    pub pending: Option<String>,
}

/// The slot's mathematical content: the pending identifier as a character
/// sequence, if any.
pub open spec fn slot_of(b: ReloadBridge) -> Option<Seq<char>> {
    match b.pending {
        Some(s) => Some(s@),
        None => None,
    }
}

/// Where the slot stands after one request: the new identifier, whatever
/// was there before.
pub open spec fn request_step(slot: Option<Seq<char>>, id: Seq<char>) -> Option<Seq<char>> {
    Some(id)
}

/// Where the slot stands after a whole burst of requests with no
/// intervening drain.
pub open spec fn slot_after_requests(
    slot: Option<Seq<char>>,
    ids: Seq<Seq<char>>,
) -> Option<Seq<char>>
    decreases ids.len(),
{
    if ids.len() == 0 {
        slot
    } else {
        slot_after_requests(request_step(slot, ids[0]), ids.drop_first())
    }
}

impl ReloadBridge {
    /// An empty bridge: nothing pending.
    pub fn new() -> (b: Self)
        ensures
            b.pending is None,
    {
        ReloadBridge { pending: None }
    }

    /// Ask the frame loop to recompile `identifier`. Overwrites any
    /// unconsumed earlier request: the slot never queues, a burst between
    /// two frames collapses to the most recent identifier, stored whole.
    pub fn request_reload(&mut self, identifier: String)
        ensures
            slot_of(*final(self)) == request_step(slot_of(*old(self)), identifier@),
            final(self).pending == Some(identifier),
    {
        self.pending = Some(identifier);
    }

    /// Take the pending identifier, if any, leaving the bridge empty:
    /// returns `None` on an empty bridge and the most recently requested
    /// identifier otherwise, exactly once.
    pub fn drain_pending(&mut self) -> (r: Option<String>)
        ensures
            r == old(self).pending,
            final(self).pending is None,
    {
        self.pending.take()
    }
}

/// Last writer wins: after any nonzero burst of requests, the slot holds
/// exactly the most recent identifier — one of the burst, never a torn or
/// merged value — whatever the slot held before.
pub proof fn lemma_last_writer_wins(slot: Option<Seq<char>>, ids: Seq<Seq<char>>)
    requires
        ids.len() > 0,
    ensures
        slot_after_requests(slot, ids) == Some(ids.last()),
        ids.contains(ids.last()),
    decreases ids.len(),
{
    if ids.len() == 1 {
        assert(slot_after_requests(slot, ids) == slot_after_requests(Some(ids[0]), ids.drop_first()));
    } else {
        lemma_last_writer_wins(request_step(slot, ids[0]), ids.drop_first());
        assert(ids.drop_first().last() == ids.last());
    }
    assert(ids[ids.len() - 1] == ids.last());
}

} // verus!
