//! Value formatting shared by the panel and the tray tooltip.

use crate::strs::{decimal, decimal_text, spaced, spaced_text};
use vstd::prelude::*;

verus! {

/// The text of `seconds` as a whole number of minutes.
pub open spec fn runtime_text(seconds: nat, min_unit: Seq<char>) -> Seq<char> {
    spaced_text(decimal(seconds / 60), min_unit)
}

/// Formats seconds as a localized minute count.
///
/// Always minutes, never a composite and never a fallback to seconds, so two
/// readings compare at a glance. Truncated rather than rounded up, so the
/// figure never overstates the reserve.
pub fn format_runtime(seconds: u32, min_unit: &str) -> (text: String)
    ensures
        text@ == runtime_text(seconds as nat, min_unit@),
{
    spaced(decimal_text(seconds / 60).as_str(), min_unit)
}

/// The minutes shown never exceed the time there is.
pub proof fn runtime_is_never_overstated(seconds: nat)
    ensures
        (seconds / 60) * 60 <= seconds,
{
}

/// Every second of a minute shows the same count, which goes up by one with the
/// next: the whole minutes, a space, and the unit.
pub proof fn a_minute_lasts_sixty_seconds(minutes: nat, rest: nat, unit: Seq<char>)
    requires
        rest < 60,
    ensures
        runtime_text(60 * minutes + rest, unit) == decimal(minutes) + seq![' '] + unit,
{
    assert((60 * minutes + rest) / 60 == minutes);
}

} // verus!
