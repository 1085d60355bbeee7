//! The double-buffered cell: two copies of the value, an atomic-role
//! selector modelled as a side marker, the operation log, and the epoch
//! tracker, composed into the publish protocol.
//!
//! The cell is a sequential model of the concurrent protocol: each step a
//! reader or the writer takes is a method call, and the writer's blocking
//! wait for quiescence is split into `begin_publish`, polling
//! `vacated_quiescent`, and `finish_publish`, so a caller drives the wait
//! loop itself. `publish` composes the two halves for the case in which the
//! vacated slot is already quiescent.

use vstd::prelude::*;

use crate::epoch::Epoch;
use crate::epoch::Side;
use crate::epoch::Tracker;
use crate::ops::Dup;
use crate::ops::Op;
use crate::ops::apply;
use crate::ops::lemma_replay_push;
use crate::ops::replay;

verus! {

/// Evidence that a reader is inside a read section: which reader entered, and
/// which slot its section pins. The pinned slot may not be reclaimed until
/// the guard is released.
pub struct ReadToken {
    reader: usize,
    side: Side,
}

impl ReadToken {
    /// The reader identity that holds this guard.
    pub closed spec fn reader(self) -> usize {
        self.reader
    }

    /// The slot this guard pins.
    pub closed spec fn side(self) -> Side {
        self.side
    }
}

/// A single-writer, multi-reader cell: two copies of a value, of which one is
/// active (visible to readers) and the other is private to the writer.
///
/// Appended operations are applied eagerly to the writer's copy and logged;
/// publishing swaps the roles of the copies and, once the vacated copy is
/// quiescent, replays the log onto it so the two copies reach parity.
pub struct Cell<T> {
    left: T,
    right: T,
    active: Side,
    draining: bool,
    live: bool,
    log: Vec<Op<T>>,
    tracker: Tracker,
}

impl<T> Cell<T> {
    /// The value held by slot `s`.
    pub closed spec fn slot(self, s: Side) -> T {
        match s {
            Side::Left => self.left,
            Side::Right => self.right,
        }
    }

    /// The slot new readers are directed to.
    pub closed spec fn active_side(self) -> Side {
        self.active
    }

    /// The slot not visible to new readers: the writer's private copy while
    /// steady, the vacated copy while a publish is draining.
    pub open spec fn inactive_side(self) -> Side {
        self.active_side().opposite()
    }

    /// Whether a publish has swapped the slots but not yet reclaimed the
    /// vacated one.
    pub closed spec fn is_draining(self) -> bool {
        self.draining
    }

    /// Whether the write side is still alive. Once retired, readers can no
    /// longer obtain new guards.
    pub closed spec fn is_live(self) -> bool {
        self.live
    }

    /// The operations appended since the inactive slot last matched the
    /// active one.
    pub closed spec fn log_ops(self) -> Seq<Op<T>> {
        self.log@
    }

    /// The epochs of all registered readers, by reader identity.
    pub closed spec fn readers(self) -> Seq<Epoch> {
        self.tracker.readers()
    }

    /// No reader is inside a read section against slot `s`.
    pub open spec fn quiescent(self, s: Side) -> bool {
        forall|i: int|
            0 <= i < self.readers().len() ==> self.readers()[i] != Epoch::Reading(s)
    }

    /// The value visible to readers entering now.
    pub open spec fn published(self) -> T {
        self.slot(self.active_side())
    }

    /// The value the writer sees: the published value with every appended
    /// operation applied.
    pub open spec fn pending(self) -> T {
        if self.is_draining() {
            self.slot(self.active_side())
        } else {
            self.slot(self.inactive_side())
        }
    }

    /// The value published before the publish now draining began; readers
    /// that entered before the swap still observe it.
    pub open spec fn prior_published(self) -> T {
        self.slot(self.inactive_side())
    }

    /// Guard `g` is backed by the tracker: its reader is registered and its
    /// epoch records the read section the guard stands for.
    pub open spec fn guard_ok(self, g: ReadToken) -> bool {
        &&& g.reader() < self.readers().len()
        &&& self.readers()[g.reader() as int] == Epoch::Reading(g.side())
    }

    /// The cell's invariant.
    ///
    /// While steady, the inactive slot is the active slot with the whole log
    /// replayed onto it, and no read section pins the inactive slot. While a
    /// publish drains, the roles are reversed: the freshly active slot is the
    /// vacated (inactive) slot with the log replayed, read sections may pin
    /// either slot, and the write side is necessarily alive.
    pub open spec fn wf(self) -> bool {
        if self.is_draining() {
            &&& self.is_live()
            &&& self.slot(self.active_side()) == replay(
                self.slot(self.inactive_side()),
                self.log_ops(),
            )
        } else {
            &&& self.slot(self.inactive_side()) == replay(
                self.slot(self.active_side()),
                self.log_ops(),
            )
            &&& self.quiescent(self.inactive_side())
        }
    }

    /// Creates a cell whose two slots both hold `value`; `value` is published
    /// from the start, with an empty log and no registered readers.
    pub fn new(value: T) -> (c: Cell<T>) where T: Dup
        ensures
            c.wf(),
            c.is_live(),
            !c.is_draining(),
            c.published() == value,
            c.pending() == value,
            c.log_ops().len() == 0,
            c.readers().len() == 0,
    {
        let copy = value.dup();
        Cell {
            left: value,
            right: copy,
            active: Side::Left,
            draining: false,
            live: true,
            log: Vec::new(),
            tracker: Tracker::new(),
        }
    }

    /// Registers a fresh reader identity, initially outside any read section.
    /// Cloning a read handle amounts to registering a new identity: clones
    /// never share epoch state.
    pub fn register_reader(&mut self) -> (id: usize)
        requires
            old(self).wf(),
        ensures
            final(self).wf(),
            id == old(self).readers().len(),
            final(self).readers() == old(self).readers().push(Epoch::Idle),
            final(self).published() == old(self).published(),
            final(self).pending() == old(self).pending(),
            final(self).log_ops() == old(self).log_ops(),
            final(self).is_live() == old(self).is_live(),
            final(self).is_draining() == old(self).is_draining(),
            final(self).active_side() == old(self).active_side(),
            final(self).slot(Side::Left) == old(self).slot(Side::Left),
            final(self).slot(Side::Right) == old(self).slot(Side::Right),
    {
        self.tracker.register()
    }

    /// Begins a read section for reader `reader` and hands back a guard over
    /// the active slot, or nothing if the write side has been retired.
    ///
    /// The call is wait-free: it decides from the liveness flag and the
    /// current selector alone, never waiting on writer activity.
    pub fn get(&mut self, reader: usize) -> (g: Option<ReadToken>)
        requires
            old(self).wf(),
            reader < old(self).readers().len(),
            old(self).readers()[reader as int] == Epoch::Idle,
        ensures
            final(self).wf(),
            g is Some <==> old(self).is_live(),
            g matches Some(gd) ==> {
                &&& final(self).guard_ok(gd)
                &&& gd.reader() == reader
                &&& gd.side() == old(self).active_side()
                &&& final(self).readers() == old(self).readers().update(
                    reader as int,
                    Epoch::Reading(old(self).active_side()),
                )
            },
            g is None ==> *final(self) == *old(self),
            final(self).published() == old(self).published(),
            final(self).pending() == old(self).pending(),
            final(self).log_ops() == old(self).log_ops(),
            final(self).is_live() == old(self).is_live(),
            final(self).is_draining() == old(self).is_draining(),
            final(self).active_side() == old(self).active_side(),
            final(self).slot(Side::Left) == old(self).slot(Side::Left),
            final(self).slot(Side::Right) == old(self).slot(Side::Right),
    {
        if !self.live {
            return None;
        }
        let side = self.active;
        self.tracker.enter(reader, side);
        Some(ReadToken { reader, side })
    }

    /// Begins a read section for reader `reader`, on the caller's knowledge
    /// that the write side is still alive, and hands back the guard directly.
    pub fn get_unchecked(&mut self, reader: usize) -> (g: ReadToken)
        requires
            old(self).wf(),
            old(self).is_live(),
            reader < old(self).readers().len(),
            old(self).readers()[reader as int] == Epoch::Idle,
        ensures
            final(self).wf(),
            final(self).guard_ok(g),
            g.reader() == reader,
            g.side() == old(self).active_side(),
            final(self).readers() == old(self).readers().update(
                reader as int,
                Epoch::Reading(old(self).active_side()),
            ),
            final(self).published() == old(self).published(),
            final(self).pending() == old(self).pending(),
            final(self).log_ops() == old(self).log_ops(),
            final(self).is_live() == old(self).is_live(),
            final(self).is_draining() == old(self).is_draining(),
            final(self).active_side() == old(self).active_side(),
            final(self).slot(Side::Left) == old(self).slot(Side::Left),
            final(self).slot(Side::Right) == old(self).slot(Side::Right),
    {
        let g = self.get(reader);
        g.unwrap()
    }

    /// Reads the value a guard's read section observes.
    ///
    /// A guard over the active slot observes the published value; a guard
    /// taken before the swap of a publish still draining observes the value
    /// published before that swap — always a complete published value, never
    /// a partial one.
    pub fn read(&self, g: &ReadToken) -> (r: &T)
        requires
            self.wf(),
            self.guard_ok(*g),
        ensures
            g.side() == self.active_side() ==> *r == self.published(),
            g.side() != self.active_side() ==> self.is_draining() && *r
                == self.prior_published(),
    {
        proof {
            if g.side() != self.active_side() {
                assert(g.side() == self.inactive_side());
                if !self.is_draining() {
                    assert(self.readers()[g.reader() as int] == Epoch::Reading(g.side()));
                    assert(false);
                }
            }
        }
        match g.side {
            Side::Left => &self.left,
            Side::Right => &self.right,
        }
    }

    /// Ends the read section the guard stands for, unpinning its slot.
    pub fn release(&mut self, g: ReadToken)
        requires
            old(self).wf(),
            old(self).guard_ok(g),
        ensures
            final(self).wf(),
            final(self).readers() == old(self).readers().update(g.reader() as int, Epoch::Idle),
            final(self).published() == old(self).published(),
            final(self).pending() == old(self).pending(),
            final(self).log_ops() == old(self).log_ops(),
            final(self).is_live() == old(self).is_live(),
            final(self).is_draining() == old(self).is_draining(),
            final(self).active_side() == old(self).active_side(),
            final(self).slot(Side::Left) == old(self).slot(Side::Left),
            final(self).slot(Side::Right) == old(self).slot(Side::Right),
    {
        self.tracker.exit(g.reader);
    }

    /// Appends one operation: logs it and applies it eagerly to the writer's
    /// private copy, leaving the published value untouched. Never blocks and
    /// never fails.
    pub fn append(&mut self, op: Op<T>) where T: Dup
        requires
            old(self).wf(),
            old(self).is_live(),
            !old(self).is_draining(),
        ensures
            final(self).wf(),
            final(self).published() == old(self).published(),
            final(self).pending() == apply(old(self).pending(), op),
            final(self).log_ops() == old(self).log_ops().push(op),
            final(self).readers() == old(self).readers(),
            final(self).is_live() == old(self).is_live(),
            final(self).is_draining() == old(self).is_draining(),
            final(self).active_side() == old(self).active_side(),
    {
        proof {
            lemma_replay_push(
                old(self).slot(old(self).active_side()),
                old(self).log_ops(),
                op,
            );
        }
        let eager = op.dup();
        match self.active {
            Side::Left => {
                match eager {
                    Op::Replace(v) => {
                        self.right = v;
                    },
                }
            },
            Side::Right => {
                match eager {
                    Op::Replace(v) => {
                        self.left = v;
                    },
                }
            },
        }
        self.log.push(op);
    }

    /// Replaces the whole value, as one appended operation: the writer's copy
    /// takes `value` at once, while readers keep seeing the published value
    /// until the next publish.
    pub fn set(&mut self, value: T) where T: Dup
        requires
            old(self).wf(),
            old(self).is_live(),
            !old(self).is_draining(),
        ensures
            final(self).wf(),
            final(self).published() == old(self).published(),
            final(self).pending() == value,
            final(self).log_ops() == old(self).log_ops().push(Op::Replace(value)),
            final(self).readers() == old(self).readers(),
            final(self).is_live() == old(self).is_live(),
            final(self).is_draining() == old(self).is_draining(),
            final(self).active_side() == old(self).active_side(),
    {
        self.append(Op::Replace(value));
    }

    /// Swaps the roles of the two slots: the writer's fully caught-up copy
    /// becomes active, so every operation appended so far becomes visible to
    /// readers entering from now on, and the old active slot is vacated,
    /// awaiting quiescence before it can be reclaimed.
    pub fn begin_publish(&mut self)
        requires
            old(self).wf(),
            old(self).is_live(),
            !old(self).is_draining(),
        ensures
            final(self).wf(),
            final(self).is_draining(),
            final(self).published() == old(self).pending(),
            final(self).published() == replay(old(self).published(), old(self).log_ops()),
            final(self).pending() == final(self).published(),
            final(self).prior_published() == old(self).published(),
            final(self).log_ops() == old(self).log_ops(),
            final(self).readers() == old(self).readers(),
            final(self).is_live() == old(self).is_live(),
            final(self).active_side() == old(self).active_side().opposite(),
    {
        self.active = self.active.other();
        self.draining = true;
    }

    /// Reports whether the slot vacated by the publish now draining is free
    /// of read sections, so the log may be replayed onto it. The writer polls
    /// this; each poll visits every reader once and never blocks.
    pub fn vacated_quiescent(&self) -> (b: bool)
        requires
            self.is_draining(),
        ensures
            b == self.quiescent(self.inactive_side()),
    {
        let s = self.active.other();
        self.tracker.is_quiescent(s)
    }

    /// Reclaims the vacated slot of the publish now draining: replays the
    /// whole log onto it, in append order, bringing it to parity with the
    /// active slot, then clears the log. The vacated slot, caught up, is the
    /// writer's private copy again.
    pub fn finish_publish(&mut self)
        requires
            old(self).wf(),
            old(self).is_draining(),
            old(self).quiescent(old(self).inactive_side()),
        ensures
            final(self).wf(),
            !final(self).is_draining(),
            final(self).published() == old(self).published(),
            final(self).pending() == final(self).published(),
            final(self).slot(Side::Left) == final(self).slot(Side::Right),
            final(self).log_ops().len() == 0,
            final(self).readers() == old(self).readers(),
            final(self).is_live() == old(self).is_live(),
            final(self).active_side() == old(self).active_side(),
    {
        while self.log.len() > 0
            invariant
                self.active == old(self).active,
                self.draining == old(self).draining,
                self.live == old(self).live,
                self.tracker == old(self).tracker,
                self.slot(self.active_side()) == old(self).slot(old(self).active_side()),
                self.slot(self.active_side()) == replay(
                    self.slot(self.inactive_side()),
                    self.log@,
                ),
            decreases self.log.len(),
        {
            let ghost pre = *self;
            let op = self.log.remove(0);
            proof {
                assert(pre.log@.remove(0) =~= pre.log@.drop_first());
                assert(replay(pre.slot(pre.inactive_side()), pre.log@) == replay(
                    apply(pre.slot(pre.inactive_side()), pre.log@[0]),
                    pre.log@.drop_first(),
                ));
            }
            match op {
                Op::Replace(v) => {
                    match self.active {
                        Side::Left => {
                            self.right = v;
                        },
                        Side::Right => {
                            self.left = v;
                        },
                    }
                },
            }
        }
        self.draining = false;
    }

    /// Publishes: swaps the slots and reclaims the vacated one at once.
    /// Requires the active slot to be free of read sections — the condition
    /// the concurrent writer's quiescence wait establishes before this
    /// reclaim may run. After it returns, readers entering observe every
    /// operation appended before the call, the log is empty, and the two
    /// slots are at parity.
    pub fn publish(&mut self)
        requires
            old(self).wf(),
            old(self).is_live(),
            !old(self).is_draining(),
            old(self).quiescent(old(self).active_side()),
        ensures
            final(self).wf(),
            !final(self).is_draining(),
            final(self).published() == old(self).pending(),
            final(self).published() == replay(old(self).published(), old(self).log_ops()),
            final(self).pending() == final(self).published(),
            final(self).slot(Side::Left) == final(self).slot(Side::Right),
            final(self).log_ops().len() == 0,
            final(self).readers() == old(self).readers(),
            final(self).is_live() == old(self).is_live(),
    {
        self.begin_publish();
        self.finish_publish();
    }

    /// Pre-publish isolation: while no publish is draining, every read
    /// section pins the active slot, so operations appended but not yet
    /// published — applied only to the writer's private copy — are never
    /// observed; only the published value is visible.
    pub proof fn lemma_pre_publish_isolation(self, g: ReadToken)
        requires
            self.wf(),
            !self.is_draining(),
            self.guard_ok(g),
        ensures
            g.side() == self.active_side(),
            self.slot(g.side()) == self.published(),
    {
        assert(self.readers()[g.reader() as int] == Epoch::Reading(g.side()));
    }

    /// Retires the write side, as dropping the write handle does: no further
    /// operations or publishes, and every later checked `get` comes back
    /// empty. Guards already issued stay readable until released.
    pub fn retire(&mut self)
        requires
            old(self).wf(),
            old(self).is_live(),
            !old(self).is_draining(),
        ensures
            final(self).wf(),
            !final(self).is_live(),
            !final(self).is_draining(),
            final(self).published() == old(self).published(),
            final(self).pending() == old(self).pending(),
            final(self).log_ops() == old(self).log_ops(),
            final(self).readers() == old(self).readers(),
            final(self).active_side() == old(self).active_side(),
    {
        self.live = false;
    }
}

} // verus!
