use ups_monitor::appicon::{spec, IconSlot, WindowIcon, SIZES};
use ups_monitor::color::Color;
use ups_monitor::icon::{IconSet, IconSpec};
use ups_monitor::theme::Theme;
use ups_monitor::tray::IconState;

fn mark(r: u8, g: u8, b: u8) -> IconSpec {
    IconSpec { fill: Color::from_rgb(r, g, b), stroke: Color::from_rgb(0, 0, 0) }
}

fn icons() -> IconSet {
    IconSet {
        normal: mark(0x34, 0xC7, 0x59),
        on_battery: mark(0xFF, 0x9F, 0x0A),
        critical: mark(0xFF, 0x3B, 0x30),
        disconnected: mark(0x8E, 0x8E, 0x93),
        app: mark(0x0A, 0x84, 0xFF),
    }
}

#[test]
fn app_icon_uses_the_theme_app_entry() {
    let t = Theme::default_theme(icons());
    assert_eq!(spec(&t), t.icons.app);
    for state in IconState::ALL {
        assert_ne!(
            t.icons.app.fill,
            t.icons.spec(state).fill,
            "app colour collides with the {state:?} tray state"
        );
    }
}

#[test]
fn only_a_rendered_icon_is_ours_to_destroy() {
    let handle = 0usize;

    assert_eq!(
        WindowIcon::Owned(handle).owned(),
        Some(handle),
        "a rendered icon leaks unless the window that took it frees it"
    );
    assert_eq!(
        WindowIcon::Shared(handle).owned(),
        None,
        "an LR_SHARED handle belongs to the system; destroying it is a fault"
    );

    assert_eq!(WindowIcon::Owned(handle).handle(), handle);
    assert_eq!(WindowIcon::Shared(handle).handle(), handle);
}

#[test]
fn the_slots_carry_the_numbers_of_the_message() {
    assert_eq!(IconSlot::Small.as_wparam(), 0);
    assert_eq!(IconSlot::Big.as_wparam(), 1);
    assert_eq!(SIZES, [16, 24, 32, 48]);
}
