//! The owner-side handle: unconditional read access, a transparent proxy to
//! the value for as long as the handle exists.

use vstd::prelude::*;

use crate::cell::SharedCell;
use crate::flag::after_owner_release;
use crate::flag::LivenessFlag;
use std::sync::Arc;

verus! {

/// The transition the owner's destruction applies to a flag word: force the
/// owner bit to zero, keep the worker bit exactly as its own writer left
/// it.
pub fn drop_outer(flag: usize) -> (r: usize)
    ensures
        r == after_owner_release(flag),
    opens_invariants none
    no_unwind
{
    flag & 0b10
}

/// The handle kept by the caller. Its mere existence proves the owner bit
/// is still set, and the cell cannot be destroyed while that bit is set, so
/// its read access needs no check. Dropping it clears exactly the owner
/// bit, exactly once: the one-way liveness signal the worker polls for.
pub struct Outer<T> {
    cell: Arc<SharedCell<T>>,
}

impl<T> View for Outer<T> {
    type V = T;

    closed spec fn view(&self) -> T {
        self.cell@
    }
}

impl<T> Outer<T> {
    /// Wrap the owner side of an already allocated cell.
    pub fn new(cell: Arc<SharedCell<T>>) -> (r: Self)
        ensures
            r@ == cell@,
    {
        Outer { cell }
    }

    /// Unconditional read access to the original value, valid for as long
    /// as this handle exists, whatever the worker side has done meanwhile.
    pub fn get(&self) -> (r: &T)
        ensures
            *r == self@,
    {
        self.cell.value_ref()
    }
}

impl<T> Drop for Outer<T> {
    /// Clear exactly the owner bit. When the resulting word is all clear,
    /// the worker side is already gone and this side is the last one out:
    /// letting go of the shared reference right after this runs destroys
    /// the cell and runs the value's destructor, exactly once.
    fn drop(&mut self)
        opens_invariants none
        no_unwind
    {
        let c: &SharedCell<T> = &self.cell;
        let f: &LivenessFlag = &c.flag;
        f.clear_owner();
    }
}

} // verus!
