//! The colours the tray and application marks are drawn in.

use crate::color::Color;
use vstd::prelude::*;

verus! {

/// The two tones of one mark.
#[derive(Debug, Clone, Copy, PartialEq, Eq, Structural)]
pub struct IconSpec {
    pub fill: Color,
    pub stroke: Color,
}

/// The marks of the four tray states, and the application's own.
#[derive(Debug, Clone, Copy, PartialEq, Eq, Structural)]
pub struct IconSet {
    pub normal: IconSpec,
    pub on_battery: IconSpec,
    pub critical: IconSpec,
    pub disconnected: IconSpec,
    pub app: IconSpec,
}

} // verus!
