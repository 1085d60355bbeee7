//! The concurrent handle pair, backed by the `left_right` crate.
//!
//! These handles are the concurrent form of the protocol that [`crate::cell`]
//! models and proves sequentially: `left_right` keeps the two copies, the
//! operation log and the per-reader epochs, and this module drives it with
//! the same operation type the model replays. The handles themselves are
//! opaque shared state, so the declarations here claim nothing of the values
//! they carry; the protocol's contracts live on the model.

use vstd::prelude::*;

use crate::ops::Op;

verus! {

/// One copy of the stored value; the cell keeps two of these.
#[derive(Clone)]
struct Inner<T>(T);

impl<T> left_right::Absorb<Op<T>> for Inner<T> where T: Clone {
    fn absorb_first(&mut self, operation: &mut Op<T>, _other: &Self) {
        match operation {
            Op::Replace(v) => {
                self.0 = v.clone();
            },
        }
    }

    fn absorb_second(&mut self, operation: Op<T>, _other: &Self) {
        match operation {
            Op::Replace(v) => {
                self.0 = v;
            },
        }
    }

    fn sync_with(&mut self, first: &Self) {
        self.0 = first.0.clone()
    }
}

/// A handle to the write half of the cell.
/// When this handle is dropped the backing data is also dropped.
#[verifier::external_body]
#[verifier::reject_recursive_types(T)]
pub struct WriteHandle<T: Clone> {
    inner: left_right::WriteHandle<Inner<T>, Op<T>>,
}

/// A handle to the read half of the cell. Getting a value from the read
/// handle never blocks.
#[verifier::external_body]
#[verifier::reject_recursive_types(T)]
pub struct ReadHandle<T: Clone> {
    inner: left_right::ReadHandle<Inner<T>>,
}

/// A reference guard to the read half of the cell. [`WriteHandle::publish`]
/// blocks until this is dropped.
#[verifier::external_body]
#[verifier::reject_recursive_types(T)]
pub struct ReadGuard<'a, T: Clone> {
    inner: left_right::ReadGuard<'a, Inner<T>>,
}

/// Creates a new cell holding `value` and returns the write and read handles.
///
/// Relies on `left_right::new_from_empty`: both copies start from the given
/// value, so the value is published from construction on.
#[verifier::external_body]
pub fn new<T: Clone>(value: T) -> (handles: (WriteHandle<T>, ReadHandle<T>)) {
    let (w, r) = left_right::new_from_empty::<Inner<T>, Op<T>>(Inner(value));
    (WriteHandle { inner: w }, ReadHandle { inner: r })
}

impl<T: Clone> WriteHandle<T> {
    /// Sets the value of the cell. The change stays invisible to readers
    /// until the next [`WriteHandle::publish`].
    ///
    /// Relies on `left_right::WriteHandle::append`: the operation takes
    /// effect for readers only at the next publish, and publishes apply the
    /// operations appended since the last one in order.
    #[verifier::external_body]
    pub fn set(&mut self, value: T) {
        self.inner.append(Op::Replace(value));
    }

    /// Makes the changes to the cell since the last publish visible to the
    /// readers. May block until every read section entered against the copy
    /// being vacated has ended.
    ///
    /// Relies on `left_right::WriteHandle::publish`: it swaps the copies,
    /// waits for quiescence, and replays the logged operations.
    #[verifier::external_body]
    pub fn publish(&mut self) {
        self.inner.publish();
    }
}

impl<T: Clone> ReadHandle<T> {
    /// Gets the value from the cell, without ever blocking. Returns `None`
    /// if the [`WriteHandle`] has been dropped.
    ///
    /// Relies on `left_right::ReadHandle::enter`: it pins the currently
    /// published copy for the guard's lifetime.
    #[verifier::external_body]
    pub fn get<'a>(&'a self) -> (g: Option<ReadGuard<'a, T>>) {
        self.inner.enter().map(|guard| ReadGuard { inner: guard })
    }

    /// Creates a new, independent read handle over the same cell.
    ///
    /// Relies on `left_right::ReadHandle::clone`: the new handle registers
    /// its own epoch and shares no read-section state with this one.
    #[verifier::external_body]
    pub fn fork(&self) -> (r: ReadHandle<T>) {
        ReadHandle { inner: self.inner.clone() }
    }
}

impl<'a, T: Clone> ReadGuard<'a, T> {
    /// Borrows the value this guard pins.
    ///
    /// Relies on `left_right::ReadGuard::as_ref`: it hands out the published
    /// copy the guard was entered against.
    #[verifier::external_body]
    pub fn value(&self) -> (r: &T) {
        &self.inner.as_ref().0
    }
}

} // verus!
