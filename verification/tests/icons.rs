use ups_monitor::color::Color;
use ups_monitor::icon::{IconSet, IconSpec};
use ups_monitor::theme::{dark, light};
use ups_monitor::tray::{render_all, IconCache, IconState};

fn mark(tone: u8) -> IconSpec {
    IconSpec { fill: Color::from_rgb(tone, 0, 0), stroke: Color::from_rgb(0, 0, 0) }
}

fn icons(tone: u8) -> IconSet {
    IconSet {
        normal: mark(tone),
        on_battery: mark(tone + 1),
        critical: mark(tone + 2),
        disconnected: mark(tone + 3),
        app: mark(tone + 4),
    }
}

/// Stands for a drawing: the fill of the mark and the size, one byte each.
fn draw(mark: IconSpec, size: u32) -> Vec<u8> {
    vec![mark.fill.r, size as u8]
}

#[test]
fn every_state_has_its_own_mark() {
    let set = icons(10);
    let tones: Vec<u8> = IconState::ALL.iter().map(|s| set.spec(*s).fill.r).collect();
    assert_eq!(tones, vec![10, 11, 12, 13]);
}

#[test]
fn a_cache_hands_out_what_was_drawn() {
    let theme = dark(icons(10));
    let cache = IconCache::new(&theme, 16, draw);
    assert_eq!(cache.get(IconState::Normal), Some((&[10u8, 16][..], 16)));
    assert_eq!(cache.get(IconState::OnBattery), Some((&[11u8, 16][..], 16)));
    assert_eq!(cache.get(IconState::Critical), Some((&[12u8, 16][..], 16)));
    assert_eq!(cache.get(IconState::Disconnected), Some((&[13u8, 16][..], 16)));
}

#[test]
fn a_cache_is_redrawn_for_new_marks_or_a_new_size_only() {
    let theme = dark(icons(10));
    let mut cache = IconCache::new(&theme, 16, draw);

    let repainted = light(icons(10));
    assert!(cache.is_current(&repainted, 16), "the marks are the same");
    cache.refresh(&repainted, 16, |_, _| unreachable!("nothing has to be drawn"));
    assert_eq!(cache.get(IconState::Normal), Some((&[10u8, 16][..], 16)));

    assert!(!cache.is_current(&theme, 24));
    cache.refresh(&theme, 24, draw);
    assert_eq!(cache.get(IconState::Critical), Some((&[12u8, 24][..], 24)));

    let recoloured = dark(icons(50));
    assert!(!cache.is_current(&recoloured, 24));
    cache.refresh(&recoloured, 24, draw);
    assert_eq!(cache.get(IconState::Disconnected), Some((&[53u8, 24][..], 24)));
}

#[test]
fn every_state_is_drawn_from_its_own_mark() {
    let icons = render_all(&dark(icons(10)), 20, draw);
    assert_eq!(icons.normal, vec![10, 20]);
    assert_eq!(icons.on_battery, vec![11, 20]);
    assert_eq!(icons.critical, vec![12, 20]);
    assert_eq!(icons.disconnected, vec![13, 20]);
}
