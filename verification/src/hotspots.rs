//! Every fixed hotspot id, in one place.
//!
//! The constants live with the controls they name; that no two of them, edited
//! in different files at different times, ever land on the same number is shown
//! here.

use crate::row::{
    HotspotId, HOT_BEEPER, HOT_CONFIRM_NO, HOT_CONFIRM_YES, HOT_NOTHING, HOT_SELFTEST,
    HOT_SETTINGS, OPTION_BASE,
};
use crate::scrollbar::{
    HOT_SCROLL_DOWN, HOT_SCROLL_PAGE_DOWN, HOT_SCROLL_PAGE_UP, HOT_SCROLL_THUMB, HOT_SCROLL_UP,
};
use crate::settings::{
    HOT_BOOST_ENDED, HOT_BOOST_STARTED, HOT_CANCEL, HOT_CONNECTION_LOST, HOT_CONNECTION_RESTORED,
    HOT_DEVICE_FAULT, HOT_FREQUENCY_OUT_OF_RANGE, HOT_INTERVAL, HOT_LANGUAGE, HOT_LOG_LEVEL,
    HOT_LOW_BATTERY, HOT_NOTIFICATIONS, HOT_OK, HOT_OVERLOAD, HOT_POWER_FAILURE,
    HOT_POWER_RESTORED, HOT_RUNTIME_LIMIT, HOT_START_MINIMIZED, HOT_THEME,
    HOT_VOLTAGE_OUT_OF_RANGE,
};
use vstd::prelude::*;

verus! {

/// Every fixed id, the one for a click on nothing included.
pub open spec fn fixed_ids() -> Seq<u32> {
    seq![
        HOT_BEEPER,
        HOT_SETTINGS,
        HOT_SELFTEST,
        HOT_CONFIRM_YES,
        HOT_CONFIRM_NO,
        HOT_INTERVAL,
        HOT_NOTIFICATIONS,
        HOT_POWER_FAILURE,
        HOT_POWER_RESTORED,
        HOT_LOW_BATTERY,
        HOT_DEVICE_FAULT,
        HOT_THEME,
        HOT_LANGUAGE,
        HOT_OK,
        HOT_CANCEL,
        HOT_START_MINIMIZED,
        HOT_OVERLOAD,
        HOT_VOLTAGE_OUT_OF_RANGE,
        HOT_RUNTIME_LIMIT,
        HOT_CONNECTION_LOST,
        HOT_LOG_LEVEL,
        HOT_BOOST_STARTED,
        HOT_BOOST_ENDED,
        HOT_FREQUENCY_OUT_OF_RANGE,
        HOT_CONNECTION_RESTORED,
        HOT_SCROLL_UP,
        HOT_SCROLL_DOWN,
        HOT_SCROLL_PAGE_UP,
        HOT_SCROLL_PAGE_DOWN,
        HOT_SCROLL_THUMB,
        HOT_NOTHING,
    ]
}

/// No two fixed ids collide.
pub proof fn no_two_hotspot_ids_collide()
    ensures
        fixed_ids().no_duplicates(),
{
}

/// No fixed id intrudes on the band the options of open lists are numbered in.
pub proof fn no_fixed_id_is_an_option(i: int)
    requires
        0 <= i < fixed_ids().len(),
    ensures
        0 < fixed_ids()[i] < OPTION_BASE,
        HotspotId(fixed_ids()[i]).as_option() is None,
{
}

/// No option of any list shares its id with a control.
pub proof fn no_option_is_a_fixed_id(control: HotspotId, index: int, i: int)
    requires
        index >= 0,
        0 <= i < fixed_ids().len(),
    ensures
        control.option_number(index) != fixed_ids()[i],
{
    no_fixed_id_is_an_option(i);
}

} // verus!
