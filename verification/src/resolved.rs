//! A configured choice, and whether it was one of the choices there are.

use vstd::prelude::*;

verus! {

/// What a configured code resolved to.
#[derive(Debug)]
pub struct Resolved<T> {
    pub value: T,
    /// False when the code named nothing and `value` is the fallback.
    pub recognised: bool,
}

impl<T> Resolved<T> {
    /// A choice that was found.
    pub fn found(value: T) -> (r: Resolved<T>)
        ensures
            r.value == value,
            r.recognised,
    {
        Resolved { value, recognised: true }
    }

    /// The fallback for a choice that was not.
    pub fn fell_back(value: T) -> (r: Resolved<T>)
        ensures
            r.value == value,
            !r.recognised,
    {
        Resolved { value, recognised: false }
    }
}

} // verus!
