//! The connection pool's bookkeeping: a fixed number of slots, each closed,
//! idle or checked out. The pool decides which slot an operation gets; the
//! caller owns the actual channels, keyed by slot number.
//!
//! `acquire` never waits. Where it reports exhaustion the caller may suspend
//! and try again after a release, for as long as its own wait policy allows;
//! without such a policy the caller waits forever on a pool that has no slots.

use vstd::prelude::*;
use crate::error::DatabaseError;

verus! {

/// The state of one connection slot.
#[derive(Clone, Copy, Debug, PartialEq, Eq, Structural)]
pub enum SlotState {
    /// No live connection: one may be created here.
    Closed,
    /// A live connection that no operation holds.
    Idle,
    /// A live connection held by exactly one operation.
    CheckedOut,
}

/// The right to use one slot until it is released.
#[derive(Clone, Copy, Debug, PartialEq, Eq, Structural)]
pub struct Lease {
    pub slot: usize,
    /// The slot was closed: the holder has to open the connection first.
    pub fresh: bool,
}

/// `i` is the lowest slot of `s` in state `st`.
pub open spec fn first_in(s: Seq<SlotState>, st: SlotState, i: int) -> bool {
    &&& 0 <= i < s.len()
    &&& s[i] == st
    &&& forall|j: int| 0 <= j < i ==> s[j] != st
}

/// Some slot of `s` is in state `st`.
pub open spec fn has_state(s: Seq<SlotState>, st: SlotState) -> bool {
    exists|i: int| 0 <= i < s.len() && s[i] == st
}

/// Whether an operation can get a slot: one is idle, or one can be created.
pub open spec fn can_acquire(s: Seq<SlotState>) -> bool {
    has_state(s, SlotState::Idle) || has_state(s, SlotState::Closed)
}

/// `lease` is what `s` hands out: the lowest idle slot, or, where none is
/// idle, the lowest closed one, to be opened by the holder.
pub open spec fn grants(s: Seq<SlotState>, lease: Lease) -> bool {
    if has_state(s, SlotState::Idle) {
        !lease.fresh && first_in(s, SlotState::Idle, lease.slot as int)
    } else {
        lease.fresh && first_in(s, SlotState::Closed, lease.slot as int)
    }
}

/// The slots after `slot` is handed back: idle if the connection is healthy,
/// closed if not. Handing back a slot that is not checked out changes nothing.
pub open spec fn release_model(s: Seq<SlotState>, slot: int, healthy: bool) -> Seq<SlotState> {
    if 0 <= slot < s.len() && s[slot] == SlotState::CheckedOut {
        s.update(
            slot,
            if healthy {
                SlotState::Idle
            } else {
                SlotState::Closed
            },
        )
    } else {
        s
    }
}

/// The number of live connections: the slots that are not closed.
pub open spec fn live_count(s: Seq<SlotState>) -> nat
    decreases s.len(),
{
    if s.len() == 0 {
        0
    } else {
        live_count(s.drop_last()) + if s.last() != SlotState::Closed {
            1nat
        } else {
            0nat
        }
    }
}

/// How long an operation may wait for a slot, in milliseconds. Without a
/// limit it waits until a slot is free, however long that takes.
#[derive(Clone, Copy, Debug, PartialEq, Eq, Structural)]
pub struct WaitPolicy {
    pub max_wait_ms: Option<u64>,
}

impl WaitPolicy {
    /// Whether an operation that has waited `waited_ms` has to give up.
    pub open spec fn gives_up(self, waited_ms: u64) -> bool {
        self.max_wait_ms matches Some(max) && waited_ms >= max
    }

    /// What a wait on an exhausted pool comes to: `PoolExhausted` once the
    /// limit is reached, `None`, which is to wait on, before that.
    pub fn expired(&self, waited_ms: u64) -> (res: Option<DatabaseError>)
        ensures
            res == (if self.gives_up(waited_ms) {
                Some(DatabaseError::PoolExhausted)
            } else {
                None
            }),
    {
        match self.max_wait_ms {
            Some(max) => {
                if waited_ms >= max {
                    Some(DatabaseError::PoolExhausted)
                } else {
                    None
                }
            },
            None => None,
        }
    }
}

/// A bounded pool of connection slots.
#[derive(Debug)]
pub struct Pool {
    pub slots: Vec<SlotState>,
}

impl View for Pool {
    type V = Seq<SlotState>;

    open spec fn view(&self) -> Seq<SlotState> {
        self.slots@
    }
}

impl Pool {
    /// A pool that may hold up to `limit` live connections, none open yet.
    pub fn new(limit: usize) -> (res: Pool)
        ensures
            res@ == Seq::new(limit as nat, |i: int| SlotState::Closed),
    {
        let mut slots: Vec<SlotState> = Vec::new();
        let mut i: usize = 0;
        while i < limit
            invariant
                i <= limit,
                slots.len() == i,
                forall|j: int| 0 <= j < i ==> slots[j] == SlotState::Closed,
            decreases limit - i,
        {
            slots.push(SlotState::Closed);
            i += 1;
        }
        assert(slots@ =~= Seq::new(limit as nat, |i: int| SlotState::Closed));
        Pool { slots }
    }

    /// The most connections that can be live at once.
    pub fn limit(&self) -> (n: usize)
        ensures
            n == self@.len(),
    {
        self.slots.len()
    }

    /// The number of live connections, idle or checked out.
    pub fn live(&self) -> (n: usize)
        ensures
            n == live_count(self@),
            n <= self@.len(),
    {
        let mut n: usize = 0;
        let mut i: usize = 0;
        while i < self.slots.len()
            invariant
                i <= self.slots.len(),
                n <= i,
                n == live_count(self@.take(i as int)),
            decreases self.slots.len() - i,
        {
            assert(self@.take(i + 1).drop_last() =~= self@.take(i as int));
            if self.slots[i] != SlotState::Closed {
                n += 1;
            }
            i += 1;
        }
        assert(self@.take(self.slots.len() as int) =~= self@);
        n
    }

    /// The state of a slot, or `None` past the limit.
    pub fn state(&self, slot: usize) -> (res: Option<SlotState>)
        ensures
            res == (if slot < self@.len() {
                Some(self@[slot as int])
            } else {
                None
            }),
    {
        if slot < self.slots.len() {
            Some(self.slots[slot])
        } else {
            None
        }
    }

    /// The lowest slot in state `st`, if any.
    pub fn lowest(&self, st: SlotState) -> (res: Option<usize>)
        ensures
            match res {
                Some(i) => first_in(self@, st, i as int),
                None => !has_state(self@, st),
            },
    {
        let mut i: usize = 0;
        while i < self.slots.len()
            invariant
                i <= self.slots.len(),
                forall|j: int| 0 <= j < i ==> self@[j] != st,
            decreases self.slots.len() - i,
        {
            if self.slots[i] == st {
                return Some(i);
            }
            i += 1;
        }
        None
    }

    /// Checks out one slot: the lowest idle one, else the lowest closed one.
    /// With every slot checked out, or with no slots at all, the pool is
    /// exhausted and stays as it was.
    pub fn acquire(&mut self) -> (res: Result<Lease, DatabaseError>)
        ensures
            match res {
                Ok(lease) => {
                    &&& grants(old(self)@, lease)
                    &&& final(self)@ == old(self)@.update(lease.slot as int, SlotState::CheckedOut)
                },
                Err(e) => {
                    &&& e == DatabaseError::PoolExhausted
                    &&& !can_acquire(old(self)@)
                    &&& final(self)@ == old(self)@
                },
            },
    {
        match self.lowest(SlotState::Idle) {
            Some(slot) => {
                self.slots.set(slot, SlotState::CheckedOut);
                Ok(Lease { slot, fresh: false })
            },
            None => match self.lowest(SlotState::Closed) {
                Some(slot) => {
                    self.slots.set(slot, SlotState::CheckedOut);
                    Ok(Lease { slot, fresh: true })
                },
                None => Err(DatabaseError::PoolExhausted),
            },
        }
    }

    /// Hands a slot back. A healthy connection becomes idle; an unhealthy one
    /// is closed, which frees the slot for a replacement. Returns whether the
    /// slot was checked out; if it was not, nothing changes.
    pub fn release(&mut self, slot: usize, healthy: bool) -> (released: bool)
        ensures
            released == (slot < old(self)@.len() && old(self)@[slot as int]
                == SlotState::CheckedOut),
            final(self)@ == release_model(old(self)@, slot as int, healthy),
    {
        if slot < self.slots.len() && self.slots[slot] == SlotState::CheckedOut {
            let next = if healthy {
                SlotState::Idle
            } else {
                SlotState::Closed
            };
            self.slots.set(slot, next);
            true
        } else {
            false
        }
    }
}

/// A granted slot was not checked out before. So while the first slot is
/// still checked out, a later acquisition never hands out the same slot,
/// whatever else was acquired or released meanwhile.
pub proof fn law_no_double_checkout(s: Seq<SlotState>, a: Lease, t: Seq<SlotState>, b: Lease)
    requires
        grants(s, a),
        t.len() == s.len(),
        t[a.slot as int] == SlotState::CheckedOut,
        grants(t, b),
    ensures
        s[a.slot as int] != SlotState::CheckedOut,
        a.slot != b.slot,
{
}

/// Two acquisitions in a row hand out different slots.
pub proof fn law_consecutive_leases_differ(s: Seq<SlotState>, a: Lease, b: Lease)
    requires
        grants(s, a),
        grants(s.update(a.slot as int, SlotState::CheckedOut), b),
    ensures
        a.slot != b.slot,
{
    law_no_double_checkout(s, a, s.update(a.slot as int, SlotState::CheckedOut), b);
}

/// Changing one slot changes the number of live connections by that slot
/// alone: one more where a closed slot is opened, one less where a live one
/// is closed, the same otherwise.
pub proof fn law_live_count_follows_the_slot(s: Seq<SlotState>, slot: int, st: SlotState)
    requires
        0 <= slot < s.len(),
    ensures
        live_count(s) <= s.len(),
        live_count(s.update(slot, st)) + (if s[slot] != SlotState::Closed {
            1int
        } else {
            0int
        }) == live_count(s) + (if st != SlotState::Closed {
            1int
        } else {
            0int
        }),
    decreases s.len(),
{
    let t = s.update(slot, st);
    if slot == s.len() - 1 {
        assert(t.drop_last() =~= s.drop_last());
        lemma_live_count_bounded(s.drop_last());
    } else {
        assert(t.drop_last() =~= s.drop_last().update(slot, st));
        law_live_count_follows_the_slot(s.drop_last(), slot, st);
    }
}

/// There are never more live connections than slots.
pub proof fn lemma_live_count_bounded(s: Seq<SlotState>)
    ensures
        live_count(s) <= s.len(),
    decreases s.len(),
{
    if s.len() > 0 {
        lemma_live_count_bounded(s.drop_last());
    }
}

/// A pool that is acquired from and released to never holds more live
/// connections than its limit: acquiring opens a connection only in a closed
/// slot, and an unhealthy release gives the slot up again.
pub proof fn law_acquire_and_release_count(s: Seq<SlotState>, lease: Lease, healthy: bool)
    requires
        grants(s, lease),
    ensures
        live_count(s.update(lease.slot as int, SlotState::CheckedOut)) == live_count(s) + (
        if lease.fresh {
            1int
        } else {
            0int
        }),
        live_count(s.update(lease.slot as int, SlotState::CheckedOut)) <= s.len(),
        live_count(
            release_model(
                s.update(lease.slot as int, SlotState::CheckedOut),
                lease.slot as int,
                healthy,
            ),
        ) + (if healthy {
            0int
        } else {
            1int
        }) == live_count(s.update(lease.slot as int, SlotState::CheckedOut)),
{
    let t = s.update(lease.slot as int, SlotState::CheckedOut);
    law_live_count_follows_the_slot(s, lease.slot as int, SlotState::CheckedOut);
    lemma_live_count_bounded(t);
    law_live_count_follows_the_slot(
        t,
        lease.slot as int,
        if healthy {
            SlotState::Idle
        } else {
            SlotState::Closed
        },
    );
}

/// After a checked-out slot is released, healthy or not, the pool can be
/// acquired from again.
pub proof fn law_release_makes_room(s: Seq<SlotState>, slot: int, healthy: bool)
    requires
        0 <= slot < s.len(),
        s[slot] == SlotState::CheckedOut,
    ensures
        can_acquire(release_model(s, slot, healthy)),
{
    let t = release_model(s, slot, healthy);
    assert(t[slot] == SlotState::Idle || t[slot] == SlotState::Closed);
}

} // verus!
