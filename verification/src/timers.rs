//! Every timer id the program sets, in one place.
//!
//! Setting a timer with an id that already exists restarts the existing one,
//! so a second timer on a window must be a visible collision here rather than
//! a silent one there.

use vstd::prelude::*;

verus! {

/// The panel's one-second refresh, set on the tray window.
pub const REFRESH: usize = 1;

/// The caret blink, set on whichever window holds the focused text field.
pub const CARET: usize = 2;

/// No two timer ids collide, and none is zero, which is how setting a timer
/// reports failure.
pub proof fn timer_ids_are_distinct_and_not_zero()
    ensures
        REFRESH != 0,
        CARET != 0,
        REFRESH != CARET,
{
}

} // verus!
