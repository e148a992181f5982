use ups_monitor::hid::{Presence, Reading};
use ups_monitor::tray::{state_for, IconState};

fn online() -> Reading {
    Reading {
        ac_present: Some(true),
        ..Default::default()
    }
}

#[test]
fn connected_on_mains_is_normal_immediately() {
    assert_eq!(
        state_for(Some(&online()), Presence::Open),
        IconState::Normal
    );
}

#[test]
fn connected_without_a_reading_yet_is_disconnected() {
    assert_eq!(state_for(None, Presence::Open), IconState::Disconnected);
}

#[test]
fn priority_order_is_first_match_wins() {
    assert_eq!(
        state_for(Some(&online()), Presence::Absent),
        IconState::Disconnected
    );

    let on_batt = Reading {
        ac_present: Some(false),
        ..online()
    };
    assert_eq!(
        state_for(Some(&on_batt), Presence::Open),
        IconState::OnBattery
    );

    let critical = Reading {
        below_capacity_limit: Some(true),
        ..on_batt
    };
    assert_eq!(
        state_for(Some(&critical), Presence::Open),
        IconState::Critical
    );

    for r in [
        Reading {
            internal_failure: Some(true),
            ..online()
        },
        Reading {
            overload: Some(true),
            ..online()
        },
    ] {
        assert_eq!(state_for(Some(&r), Presence::Open), IconState::Critical);
    }
}

#[test]
fn every_panel_critical_flag_makes_the_tray_critical() {
    let flags: [fn(&mut Reading); 6] = [
        |r| r.internal_failure = Some(true),
        |r| r.overload = Some(true),
        |r| r.below_capacity_limit = Some(true),
        |r| r.runtime_limit_expired = Some(true),
        |r| r.voltage_out_of_range = Some(true),
        |r| r.frequency_out_of_range = Some(true),
    ];
    for set in flags {
        let mut r = online();
        set(&mut r);
        assert!(r.is_critical(), "flag must count as critical");
        assert_eq!(state_for(Some(&r), Presence::Open), IconState::Critical);
    }
}

#[test]
fn an_unread_fault_flag_is_not_critical() {
    let r = Reading {
        internal_failure: None,
        overload: None,
        below_capacity_limit: None,
        ..online()
    };
    assert!(!r.is_critical());
    assert_eq!(state_for(Some(&r), Presence::Open), IconState::Normal);
}

#[test]
fn an_unread_mains_flag_is_not_on_battery() {
    let r = Reading {
        ac_present: None,
        ..online()
    };
    assert!(!r.on_battery());
    assert_eq!(state_for(Some(&r), Presence::Open), IconState::Normal);
}
