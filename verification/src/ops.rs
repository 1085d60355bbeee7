//! Operations on the stored value, and replaying a log of them.
//!
//! The cell keeps its two copies eventually consistent by recording every
//! mutation as a replayable operation: applying the full log, in order, to a
//! copy that matches the state the log started from reproduces the up-to-date
//! copy exactly.

use vstd::prelude::*;

verus! {

/// A value that can be duplicated into an independent, equal copy.
///
/// The cell stores two copies of the value, so constructing it and applying a
/// logged operation to the first of the two copies both need a duplicate.
pub trait Dup: Sized {
    /// Produces a copy equal to `self`.
    fn dup(&self) -> (r: Self)
        ensures
            r == *self,
    ;
}

impl Dup for bool {
    fn dup(&self) -> (r: bool)
        ensures
            r == *self,
    {
        *self
    }
}

impl Dup for u64 {
    fn dup(&self) -> (r: u64)
        ensures
            r == *self,
    {
        *self
    }
}

/// A single logged mutation of the stored value.
///
/// Replacing the whole value is the only operation the cell offers, but the
/// log replays operations generically, in order, so the replay contract does
/// not depend on there being just one kind.
pub enum Op<T> {
    /// Replace the whole value.
    Replace(T),
}

impl<T: Dup> Op<T> {
    /// Duplicates the operation.
    pub fn dup(&self) -> (r: Op<T>)
        ensures
            r == *self,
    {
        match self {
            Op::Replace(v) => Op::Replace(v.dup()),
        }
    }
}

/// The state a value is left in by one operation.
pub open spec fn apply<T>(state: T, op: Op<T>) -> T {
    match op {
        Op::Replace(v) => v,
    }
}

/// The state a value is left in by a sequence of operations, applied in order.
pub open spec fn replay<T>(state: T, log: Seq<Op<T>>) -> T
    decreases log.len(),
{
    if log.len() == 0 {
        state
    } else {
        replay(apply(state, log[0]), log.drop_first())
    }
}

/// Replaying a concatenation equals replaying the two halves one after the
/// other: the writer may split its pending operations across any number of
/// publishes without changing the state the copies converge to.
pub proof fn lemma_replay_concat<T>(state: T, left_log: Seq<Op<T>>, right_log: Seq<Op<T>>)
    ensures
        replay(state, left_log + right_log) == replay(replay(state, left_log), right_log),
    decreases left_log.len(),
{
    if left_log.len() == 0 {
        assert(left_log + right_log =~= right_log);
    } else {
        assert((left_log + right_log).drop_first() =~= left_log.drop_first() + right_log);
        lemma_replay_concat(apply(state, left_log[0]), left_log.drop_first(), right_log);
    }
}

/// Appending one operation to a log extends the replayed state by that
/// operation.
pub proof fn lemma_replay_push<T>(state: T, log: Seq<Op<T>>, op: Op<T>)
    ensures
        replay(state, log.push(op)) == apply(replay(state, log), op),
    decreases log.len(),
{
    let pushed = log.push(op);
    if log.len() == 0 {
        assert(pushed.drop_first() =~= Seq::<Op<T>>::empty());
        assert(pushed[0] == op);
        assert(replay(state, pushed) == replay(apply(state, op), pushed.drop_first()));
        assert(replay(apply(state, op), pushed.drop_first()) == apply(state, op));
        assert(replay(state, log) == state);
    } else {
        assert(pushed[0] == log[0]);
        assert(pushed.drop_first() =~= log.drop_first().push(op));
        lemma_replay_push(apply(state, log[0]), log.drop_first(), op);
        assert(replay(state, pushed) == replay(apply(state, log[0]), pushed.drop_first()));
        assert(replay(state, log) == replay(apply(state, log[0]), log.drop_first()));
    }
}

} // verus!
