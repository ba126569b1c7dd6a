//! A bounded-concurrency gate: at most `limit` fetches hold a slot at once.
use vstd::prelude::*;

verus! {

/// The number of fetches allowed in flight at once, per stage.
pub const DEFAULT_LIMIT: usize = 50;

/// Slots for fetches in flight, at most `limit` of them taken.
#[derive(Clone, Copy, Debug)]
pub struct ConcurrencyGate {
    pub limit: usize,
    pub in_flight: usize,
}

impl ConcurrencyGate {
    pub open spec fn wf(&self) -> bool {
        0 < self.limit && self.in_flight <= self.limit
    }

    /// A gate with `limit` free slots.
    pub fn new(limit: usize) -> (r: ConcurrencyGate)
        requires
            limit > 0,
        ensures
            r.wf(),
            r.limit == limit,
            r.in_flight == 0,
    {
        ConcurrencyGate { limit, in_flight: 0 }
    }

    /// Takes a slot where one is free; a caller that gets `false` waits for a
    /// release before it fetches.
    pub fn try_acquire(&mut self) -> (r: bool)
        requires
            old(self).wf(),
        ensures
            final(self).wf(),
            final(self).limit == old(self).limit,
            r == (old(self).in_flight < old(self).limit),
            final(self).in_flight == if r {
                old(self).in_flight + 1
            } else {
                old(self).in_flight as int
            },
    {
        if self.in_flight < self.limit {
            self.in_flight = self.in_flight + 1;
            true
        } else {
            false
        }
    }

    /// Gives back a slot taken by a fetch that has ended.
    pub fn release(&mut self)
        requires
            old(self).wf(),
            old(self).in_flight > 0,
        ensures
            final(self).wf(),
            final(self).limit == old(self).limit,
            final(self).in_flight == old(self).in_flight - 1,
    {
        self.in_flight = self.in_flight - 1;
    }
}

/// A call that takes a slot or gives one back.
pub enum GateCall {
    Acquire,
    Release,
}

/// The slots taken after `ops`, starting from an empty gate of `limit`
/// slots; a refused acquire and a release with no slot taken change nothing.
pub open spec fn taken_after(limit: nat, ops: Seq<GateCall>) -> nat
    decreases ops.len(),
{
    if ops.len() == 0 {
        0
    } else {
        let prev = taken_after(limit, ops.drop_last());
        match ops.last() {
            GateCall::Acquire => if prev < limit {
                prev + 1
            } else {
                prev
            },
            GateCall::Release => if prev > 0 {
                (prev - 1) as nat
            } else {
                prev
            },
        }
    }
}

/// Whatever the requests and however many, no more than `limit` fetches
/// ever hold a slot at once.
pub proof fn lemma_never_over_limit(limit: nat, ops: Seq<GateCall>)
    ensures
        forall|k: int| 0 <= k <= ops.len() ==> #[trigger] taken_after(limit, ops.subrange(0, k))
            <= limit,
    decreases ops.len(),
{
    if ops.len() > 0 {
        lemma_never_over_limit(limit, ops.drop_last());
        assert forall|k: int| 0 <= k <= ops.len() implies #[trigger] taken_after(
            limit,
            ops.subrange(0, k),
        ) <= limit by {
            if k < ops.len() {
                assert(ops.subrange(0, k) =~= ops.drop_last().subrange(0, k));
            } else {
                assert(ops.subrange(0, k) =~= ops);
                assert(ops.drop_last().subrange(0, k - 1) =~= ops.drop_last());
                assert(taken_after(limit, ops.drop_last().subrange(0, k - 1)) <= limit);
                assert(taken_after(limit, ops.drop_last()) <= limit);
            }
        }
    } else {
        assert forall|k: int| 0 <= k <= ops.len() implies #[trigger] taken_after(
            limit,
            ops.subrange(0, k),
        ) <= limit by {
            assert(ops.subrange(0, k).len() == 0);
        }
    }
}

} // verus!
