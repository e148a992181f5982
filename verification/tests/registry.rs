use ups_monitor::row;
use ups_monitor::row::HotspotId;
use ups_monitor::scrollbar;
use ups_monitor::settings;
use ups_monitor::timers;

const TIMERS: [(&str, usize); 2] = [("REFRESH", timers::REFRESH), ("CARET", timers::CARET)];

#[test]
fn no_two_timer_ids_collide() {
    for (i, (name_a, a)) in TIMERS.iter().enumerate() {
        assert_ne!(*a, 0, "{name_a} is zero, which is SetTimer's failure value");
        for (name_b, b) in &TIMERS[i + 1..] {
            assert_ne!(a, b, "{name_a} and {name_b} share id {a:?}");
        }
    }
}

const ALL: &[(&str, HotspotId)] = &[
    ("HOT_BEEPER", HotspotId(row::HOT_BEEPER)),
    ("HOT_SETTINGS", HotspotId(row::HOT_SETTINGS)),
    ("HOT_SELFTEST", HotspotId(row::HOT_SELFTEST)),
    ("HOT_CONFIRM_YES", HotspotId(row::HOT_CONFIRM_YES)),
    ("HOT_CONFIRM_NO", HotspotId(row::HOT_CONFIRM_NO)),
    ("HOT_INTERVAL", HotspotId(settings::HOT_INTERVAL)),
    ("HOT_NOTIFICATIONS", HotspotId(settings::HOT_NOTIFICATIONS)),
    ("HOT_POWER_FAILURE", HotspotId(settings::HOT_POWER_FAILURE)),
    ("HOT_POWER_RESTORED", HotspotId(settings::HOT_POWER_RESTORED)),
    ("HOT_LOW_BATTERY", HotspotId(settings::HOT_LOW_BATTERY)),
    ("HOT_DEVICE_FAULT", HotspotId(settings::HOT_DEVICE_FAULT)),
    ("HOT_THEME", HotspotId(settings::HOT_THEME)),
    ("HOT_LANGUAGE", HotspotId(settings::HOT_LANGUAGE)),
    ("HOT_OK", HotspotId(settings::HOT_OK)),
    ("HOT_CANCEL", HotspotId(settings::HOT_CANCEL)),
    ("HOT_START_MINIMIZED", HotspotId(settings::HOT_START_MINIMIZED)),
    ("HOT_OVERLOAD", HotspotId(settings::HOT_OVERLOAD)),
    ("HOT_VOLTAGE_OUT_OF_RANGE", HotspotId(settings::HOT_VOLTAGE_OUT_OF_RANGE)),
    ("HOT_RUNTIME_LIMIT", HotspotId(settings::HOT_RUNTIME_LIMIT)),
    ("HOT_CONNECTION_LOST", HotspotId(settings::HOT_CONNECTION_LOST)),
    ("HOT_LOG_LEVEL", HotspotId(settings::HOT_LOG_LEVEL)),
    ("HOT_BOOST_STARTED", HotspotId(settings::HOT_BOOST_STARTED)),
    ("HOT_BOOST_ENDED", HotspotId(settings::HOT_BOOST_ENDED)),
    ("HOT_FREQUENCY_OUT_OF_RANGE", HotspotId(settings::HOT_FREQUENCY_OUT_OF_RANGE)),
    ("HOT_CONNECTION_RESTORED", HotspotId(settings::HOT_CONNECTION_RESTORED)),
    ("HotspotId::NOTHING", HotspotId(row::HOT_NOTHING)),
    ("HOT_SCROLL_UP", HotspotId(scrollbar::HOT_SCROLL_UP)),
    ("HOT_SCROLL_DOWN", HotspotId(scrollbar::HOT_SCROLL_DOWN)),
    ("HOT_SCROLL_PAGE_UP", HotspotId(scrollbar::HOT_SCROLL_PAGE_UP)),
    ("HOT_SCROLL_PAGE_DOWN", HotspotId(scrollbar::HOT_SCROLL_PAGE_DOWN)),
    ("HOT_SCROLL_THUMB", HotspotId(scrollbar::HOT_SCROLL_THUMB)),
];

#[test]
fn no_two_hotspot_ids_collide() {
    for (i, (name_a, a)) in ALL.iter().enumerate() {
        for (name_b, b) in &ALL[i + 1..] {
            assert_ne!(a, b, "{name_a} and {name_b} share id {a:?}");
        }
    }
}

#[test]
fn no_fixed_id_intrudes_on_the_option_band() {
    for (name, id) in ALL {
        assert!(
            id.split_option().is_none(),
            "{name} = {id:?} decodes as an option id"
        );
    }
}
