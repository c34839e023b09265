//! The worker-side handle: conditional read access, gated on the owner's
//! liveness bit.

use vstd::prelude::*;

use crate::cell::SharedCell;
use crate::flag::after_worker_release;
use crate::flag::LivenessFlag;
use crate::flag::owner_live;
use std::sync::Arc;

verus! {

/// The transition the worker's destruction applies to a flag word: force
/// the worker bit to zero, keep the owner bit exactly as its own writer
/// left it.
pub fn drop_inner(flag: usize) -> (r: usize)
    ensures
        r == after_worker_release(flag),
    opens_invariants none
    no_unwind
{
    flag & 0b01
}

/// Whether a flag word says the owner handle is still alive: its bit is
/// still set.
pub fn is_outer_live(flag: usize) -> (r: bool)
    ensures
        r == owner_live(flag),
    opens_invariants none
    no_unwind
{
    flag & 0b01 > 0
}

/// The handle given to the spawned unit of work. It reads the shared value
/// only for as long as the owner side is alive, and clears exactly the
/// worker bit, exactly once, when it is dropped.
pub struct Inner<T> {
    cell: Arc<SharedCell<T>>,
}

impl<T> View for Inner<T> {
    type V = T;

    closed spec fn view(&self) -> T {
        self.cell@
    }
}

impl<T> Inner<T> {
    /// Wrap the worker side of an already allocated cell.
    pub fn new(cell: Arc<SharedCell<T>>) -> (r: Self)
        ensures
            r@ == cell@,
    {
        Inner { cell }
    }

    /// Conditional access: the value while the observed flag word still has
    /// the owner bit set, nothing once it is clear. Side-effect free and
    /// safe to call repeatedly, as in a polling loop; every call
    /// re-evaluates liveness from a fresh read of the flag.
    #[must_use]
    pub fn get(&self) -> (r: Option<&T>)
        ensures
            r matches Some(v) ==> *v == self@,
    {
        let flag: usize = self.cell.flag().read();
        if is_outer_live(flag) {
            Some(self.cell.value_ref())
        } else {
            None
        }
    }
}

impl<T> Drop for Inner<T> {
    /// Clear exactly the worker bit. When the resulting word is all clear,
    /// the owner side is already gone and this side is the last one out:
    /// letting go of the shared reference right after this runs destroys
    /// the cell and runs the value's destructor, exactly once.
    fn drop(&mut self)
        opens_invariants none
        no_unwind
    {
        let c: &SharedCell<T> = &self.cell;
        let f: &LivenessFlag = &c.flag;
        f.clear_worker();
    }
}

} // verus!
