//! The shared cell: the one jointly owned block each launch allocates,
//! holding the liveness flag and the value.

use vstd::prelude::*;

use crate::flag::LivenessFlag;

verus! {

/// One instance exists per launch. Both handles reference the same instance
/// through shared ownership, and it is destroyed exactly once: when the
/// second of the two handles lets go of its reference. The value inside is
/// never mutated through the handles; synchronizing any interior mutation of
/// the value itself is outside this primitive's contract.
pub struct SharedCell<T> {
    pub(crate) flag: LivenessFlag,
    pub(crate) value: T,
}

impl<T> View for SharedCell<T> {
    type V = T;

    closed spec fn view(&self) -> T {
        self.value
    }
}

impl<T> SharedCell<T> {
    /// A fresh cell: both liveness bits set, holding `value`.
    pub fn new(value: T) -> (c: Self)
        ensures
            c@ == value,
    {
        SharedCell { flag: LivenessFlag::new_both_set(), value }
    }

    /// Borrow the value. The borrow cannot outlive the reference it was
    /// reached through, so a handle can never leak out an access that
    /// outlasts the handle itself.
    pub fn value_ref(&self) -> (r: &T)
        ensures
            *r == self@,
    {
        &self.value
    }

    /// The cell's liveness flag.
    pub fn flag(&self) -> &LivenessFlag {
        &self.flag
    }
}

} // verus!
