//! Per-reader epoch tracking for quiescence detection.
//!
//! Each reader identity carries one epoch: either idle, or inside a read
//! section against a named slot. The writer consults the tracker to learn
//! when no reader still references the slot it wants to reclaim.

use vstd::prelude::*;

verus! {

/// One of the two storage slots of the cell.
#[derive(Clone, Copy, PartialEq, Eq, Structural, Debug)]
pub enum Side {
    /// The first slot.
    Left,
    /// The second slot.
    Right,
}

impl Side {
    /// The slot other than `self`.
    pub open spec fn opposite(self) -> Side {
        match self {
            Side::Left => Side::Right,
            Side::Right => Side::Left,
        }
    }

    /// Returns the slot other than `self`.
    pub fn other(self) -> (r: Side)
        ensures
            r == self.opposite(),
    {
        match self {
            Side::Left => Side::Right,
            Side::Right => Side::Left,
        }
    }
}

/// The state of one reader identity: idle, or inside a read section pinned to
/// a slot.
#[derive(Clone, Copy, PartialEq, Eq, Structural, Debug)]
pub enum Epoch {
    /// The reader holds no guard.
    Idle,
    /// The reader holds a guard over the named slot.
    Reading(Side),
}

/// The quiescence tracker: one epoch per registered reader identity.
///
/// Only the owning reader changes its own epoch (modelled here by the caller
/// passing the reader's index); the writer polls `is_quiescent` to learn when
/// a slot is free of readers.
pub struct Tracker {
    epochs: Vec<Epoch>,
}

impl Tracker {
    /// The epochs of all registered readers, by reader identity.
    pub closed spec fn readers(self) -> Seq<Epoch> {
        self.epochs@
    }

    /// No registered reader is inside a read section against slot `s`.
    pub open spec fn quiescent(self, s: Side) -> bool {
        forall|i: int|
            0 <= i < self.readers().len() ==> self.readers()[i] != Epoch::Reading(s)
    }

    /// Creates a tracker with no registered readers.
    pub fn new() -> (t: Tracker)
        ensures
            t.readers().len() == 0,
    {
        Tracker { epochs: Vec::new() }
    }

    /// Registers a fresh reader identity, initially idle.
    pub fn register(&mut self) -> (id: usize)
        ensures
            id == old(self).readers().len(),
            final(self).readers() == old(self).readers().push(Epoch::Idle),
    {
        let id = self.epochs.len();
        self.epochs.push(Epoch::Idle);
        id
    }

    /// Records that reader `reader` begins a read section against slot `s`.
    pub fn enter(&mut self, reader: usize, s: Side)
        requires
            reader < old(self).readers().len(),
        ensures
            final(self).readers() == old(self).readers().update(
                reader as int,
                Epoch::Reading(s),
            ),
    {
        self.epochs.set(reader, Epoch::Reading(s));
    }

    /// Records that reader `reader` has ended its read section.
    pub fn exit(&mut self, reader: usize)
        requires
            reader < old(self).readers().len(),
        ensures
            final(self).readers() == old(self).readers().update(reader as int, Epoch::Idle),
    {
        self.epochs.set(reader, Epoch::Idle);
    }

    /// Reports whether no reader is currently inside a read section against
    /// slot `s`. The writer polls this while reclaiming a vacated slot; each
    /// poll visits every reader once and never blocks.
    pub fn is_quiescent(&self, s: Side) -> (b: bool)
        ensures
            b == self.quiescent(s),
    {
        let mut i: usize = 0;
        while i < self.epochs.len()
            invariant
                i <= self.epochs.len(),
                forall|j: int| 0 <= j < i ==> self.epochs@[j] != Epoch::Reading(s),
            decreases self.epochs.len() - i,
        {
            match self.epochs[i] {
                Epoch::Reading(x) => {
                    if x == s {
                        return false;
                    }
                },
                Epoch::Idle => {},
            }
            i = i + 1;
        }
        true
    }
}

} // verus!
