use ups_monitor::color::Color;
use ups_monitor::dpi::Dpi;
use ups_monitor::icon::{IconSet, IconSpec};
use ups_monitor::theme::{base, dark, light, Builtin, Theme};

fn mark(r: u8, g: u8, b: u8) -> IconSpec {
    IconSpec { fill: Color::from_rgb(r, g, b), stroke: Color::from_rgb(0, 0, 0) }
}

fn icons() -> IconSet {
    IconSet {
        normal: mark(0x34, 0xC7, 0x59),
        on_battery: mark(0xFF, 0x9F, 0x0A),
        critical: mark(0xFF, 0x3B, 0x30),
        disconnected: mark(0x8E, 0x8E, 0x93),
        app: mark(0x0A, 0x84, 0xFF),
    }
}

#[test]
fn dark_is_the_default() {
    assert_eq!(Builtin::default(), Builtin::Dark);
    assert_eq!(
        Theme::default_theme(icons()).colors.background,
        Color::from_rgb(0x1E, 0x1E, 0x1E)
    );
}

#[test]
fn dark_colours_are_unchanged() {
    let t = dark(icons());
    assert_eq!(t.colors.background, Color::from_rgb(0x1E, 0x1E, 0x1E));
    assert_eq!(t.colors.surface, Color::from_rgb(0x25, 0x25, 0x26));
    assert_eq!(t.colors.text_primary, Color::from_rgb(0xE0, 0xE0, 0xE0));
    assert_eq!(t.colors.text_secondary, Color::from_rgb(0x9E, 0x9E, 0x9E));
    assert_eq!(t.colors.accent, Color::from_rgb(0x0A, 0x84, 0xFF));
    assert_eq!(t.colors.ok, Color::from_rgb(0x34, 0xC7, 0x59));
    assert_eq!(t.colors.warning, Color::from_rgb(0xFF, 0x9F, 0x0A));
    assert_eq!(t.colors.critical, Color::from_rgb(0xFF, 0x3B, 0x30));
    assert_eq!(t.colors.border, Color::from_rgb(0x5A, 0x5A, 0x5A));
    assert_eq!(t.colors.border_soft, Color::from_rgb(0x3A, 0x3A, 0x3A));
    assert_eq!(t.colors.field_focus, Color::from_rgb(0x31, 0x31, 0x32));
}

#[test]
fn geometry_and_icons_are_inherited_unchanged() {
    let d = dark(icons());
    let l = light(icons());
    assert_eq!(d.metrics.corner_radius, l.metrics.corner_radius);
    assert_eq!(d.metrics.padding, l.metrics.padding);
    assert_eq!(d.metrics.spacing, l.metrics.spacing);
    assert_eq!(d.font_centipoints, l.font_centipoints);
    assert_eq!(d.metrics.column_gap, l.metrics.column_gap);
    assert_eq!(d.metrics.indent, l.metrics.indent);
    assert_eq!(d.metrics.panel_width, l.metrics.panel_width);
    assert_eq!(d.metrics.settings_width, l.metrics.settings_width);
    assert_eq!(d.metrics.row_height, l.metrics.row_height);
    assert_eq!(d.metrics.button_min_width, l.metrics.button_min_width);
    assert_eq!(d.icons, l.icons);
    assert_eq!(d.icons, icons());
    assert_eq!(d.metrics.corner_radius, 6);
    assert_eq!(d.metrics.panel_width, 320);
    assert_eq!(d.metrics.settings_width, 340);
    assert_eq!(d.metrics.row_height, 21);
    assert_eq!(d.metrics.button_min_width, 96);
}

#[test]
fn light_differs_from_dark_only_in_colour() {
    let d = dark(icons());
    let l = light(icons());
    assert_ne!(d.colors.background, l.colors.background);
    assert_ne!(d.colors.text_primary, l.colors.text_primary);
    assert_ne!(d.colors.accent, l.colors.accent);
    assert_ne!(d.colors.border_soft, d.colors.border);
    assert_ne!(l.colors.border_soft, l.colors.border);
}

#[test]
fn hover_shift_moves_the_fill_in_each_theme_s_direction() {
    let d = dark(icons());
    let l = light(icons());
    assert!(d.colors.hover_shift > 0);
    assert!(l.colors.hover_shift < 0);
    assert_eq!(base(icons()).colors.hover_shift, 0);

    let dark_ctrl = d.colors.surface;
    assert_ne!(d.colors.hover_fill(dark_ctrl), dark_ctrl);
    assert!(d.colors.hover_fill(dark_ctrl).r >= dark_ctrl.r);
    assert!(d.colors.hover_fill(dark_ctrl).g >= dark_ctrl.g);

    let light_ctrl = l.colors.surface;
    assert_ne!(l.colors.hover_fill(light_ctrl), light_ctrl);
    assert!(l.colors.hover_fill(light_ctrl).r <= light_ctrl.r);
    assert!(l.colors.hover_fill(light_ctrl).g <= light_ctrl.g);
}

#[test]
fn field_focus_reads_on_both_themes() {
    let d = dark(icons());
    let l = light(icons());

    assert_ne!(d.colors.field_focus, d.colors.surface);
    assert!(d.colors.field_focus.r >= d.colors.surface.r);
    assert!(d.colors.field_focus.g >= d.colors.surface.g);
    assert!(d.colors.field_focus.b >= d.colors.surface.b);

    assert_eq!(l.colors.field_focus, l.colors.surface);
    assert_eq!(l.colors.field_focus, Color::from_rgb(0xFF, 0xFF, 0xFF));
}

#[test]
fn hover_fill_stands_clear_of_the_background() {
    const MARGIN: i16 = 16;

    let l = light(icons());
    let hovered = l.colors.hover_fill(l.colors.surface);
    assert!(
        (i16::from(l.colors.background.r) - i16::from(hovered.r)) >= MARGIN,
        "light hover fill {:#04x} is not clearly darker than the ground {:#04x}",
        hovered.r,
        l.colors.background.r
    );

    let d = dark(icons());
    let hovered = d.colors.hover_fill(d.colors.surface);
    assert!(
        (i16::from(hovered.r) - i16::from(d.colors.background.r)) >= MARGIN,
        "dark hover fill {:#04x} is not clearly lighter than the ground {:#04x}",
        hovered.r,
        d.colors.background.r
    );
}

#[test]
fn codes_round_trip() {
    for b in Builtin::ALL {
        assert_eq!(Builtin::from_code(b.code()), Some(b));
    }
    assert_eq!(Builtin::from_code("dark"), Some(Builtin::Dark));
    assert_eq!(Builtin::from_code("light"), Some(Builtin::Light));
    assert_eq!(Builtin::from_code("default"), None);
}

#[test]
fn unknown_code_falls_back_to_default() {
    let unknown = Theme::by_code("nonsense", icons());
    assert!(!unknown.recognised);
    assert_eq!(unknown.value.colors.background, dark(icons()).colors.background);

    let known = Theme::by_code("light", icons());
    assert!(known.recognised);
    assert_eq!(known.value.colors.background, light(icons()).colors.background);
}

#[test]
fn icons_are_the_shipped_set() {
    let t = Theme::default_theme(icons());
    for spec in [
        t.icons.normal,
        t.icons.on_battery,
        t.icons.critical,
        t.icons.disconnected,
    ] {
        assert_ne!(spec.fill, spec.stroke);
    }
    assert_eq!(t.icons.app.fill, Color::from_rgb(0x0A, 0x84, 0xFF));
}

#[test]
fn scaling_to_96_dpi_is_a_no_op() {
    let t = dark(icons());
    let s = t.scaled(Dpi::new(96));
    assert_eq!(s.metrics().row_height, t.metrics.row_height);
    assert_eq!(s.metrics().padding, t.metrics.padding);
    assert_eq!(s.metrics().spacing, t.metrics.spacing);
    assert_eq!(s.metrics().corner_radius, t.metrics.corner_radius);
    assert_eq!(s.metrics().column_gap, t.metrics.column_gap);
    assert_eq!(s.metrics().indent, t.metrics.indent);
    assert_eq!(s.metrics().panel_width, t.metrics.panel_width);
    assert_eq!(s.metrics().settings_width, t.metrics.settings_width);
    assert_eq!(s.metrics().button_min_width, t.metrics.button_min_width);
}

#[test]
fn scaling_multiplies_every_geometric_field() {
    let t = dark(icons());
    let s = t.scaled(Dpi::new(144));
    let at_144 = |v: i32| (v * 144 + 48) / 96;
    assert_eq!(s.metrics().row_height, at_144(t.metrics.row_height));
    assert_eq!(s.metrics().padding, at_144(t.metrics.padding));
    assert_eq!(s.metrics().spacing, at_144(t.metrics.spacing));
    assert_eq!(s.metrics().corner_radius, at_144(t.metrics.corner_radius));
    assert_eq!(s.metrics().column_gap, at_144(t.metrics.column_gap));
    assert_eq!(s.metrics().indent, at_144(t.metrics.indent));
    assert_eq!(s.metrics().panel_width, at_144(t.metrics.panel_width));
    assert_eq!(s.metrics().settings_width, at_144(t.metrics.settings_width));
    assert_eq!(
        s.metrics().button_min_width,
        at_144(t.metrics.button_min_width)
    );
    assert!(s.metrics().row_height > t.metrics.row_height);
    assert_eq!(
        s.metrics().row_height,
        32,
        "21 px at 150 % is 31.5, rounded up"
    );
}

#[test]
fn scaling_leaves_colours_font_points_and_icons_alone() {
    let t = dark(icons());
    let s = t.scaled(Dpi::new(144));
    assert_eq!(s.colors().background, t.colors.background);
    assert_eq!(s.colors().text_primary, t.colors.text_primary);
    assert_eq!(s.colors().accent, t.colors.accent);
    assert_eq!(s.colors().border, t.colors.border);
    assert_eq!(s.colors().border_soft, t.colors.border_soft);
    assert_eq!(s.colors().field_focus, t.colors.field_focus);
    assert_eq!(s.colors().hover_shift, t.colors.hover_shift);
    assert_eq!(s.font_centipoints(), t.font_centipoints);
    assert_eq!(s.icons(), t.icons);
}
