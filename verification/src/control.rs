//! Loop control for the per-frame animation callbacks.
//!
//! The browser's frame scheduler re-invokes a callback once per display
//! refresh. Each iteration of a verified driver reports whether the host
//! should schedule another iteration or let the loop end, which makes the
//! loops runnable for a bounded number of steps.

use vstd::prelude::*;

verus! {

/// What the host loop should do after one frame: schedule the next
/// iteration, or stop rescheduling and drop the callback.
#[derive(Clone, Copy, Debug, PartialEq, Eq, Structural)]
pub enum LoopControl {
    Continue,
    Stop,
}

} // verus!
