//! A minimal concurrency primitive that hands a value to a newly launched
//! unit of work while the caller keeps a live, directly readable handle to
//! that same value.
//!
//! One launch allocates one [`SharedCell`] holding the value and a
//! [`flag::LivenessFlag`]: two sticky bits, one per side, both set at first.
//! The caller keeps an [`Outer`] handle with unconditional read access; the
//! worker receives an [`Inner`] handle whose access is gated on the owner's
//! bit. Each handle clears exactly its own bit when it is dropped, and the
//! side whose clear observes the all-clear state is the last one out: the
//! cell, and with it the value, is destroyed exactly once.

use vstd::prelude::*;

pub mod cell;
pub mod flag;
pub mod inner;
pub mod outer;

pub use cell::SharedCell;
pub use inner::Inner;
pub use inner::drop_inner;
pub use inner::is_outer_live;
pub use outer::Outer;
pub use outer::drop_outer;

use std::sync::Arc;

verus! {

/// Allocate one shared cell with both liveness bits set and split it into
/// the two handles: the owner-side `Outer` for the caller, and the
/// worker-side `Inner` to hand to the unit of work. Both handles read the
/// very value that was passed in.
pub fn new_pair<T>(value: T) -> (pair: (Outer<T>, Inner<T>))
    ensures
        pair.0@ == value,
        pair.1@ == value,
{
    let cell = Arc::new(SharedCell::new(value));
    let worker = Inner::new(cell.clone());
    let owner = Outer::new(cell);
    (owner, worker)
}

} // verus!
