//! Themes, defined in code.
//!
//! A [`base`] parent holds everything that does not change between themes: the
//! geometry, the font size and the icons. The two selectable themes, [`dark`]
//! and [`light`], are built from it and override only their colours.

use crate::arith::{fits, toward_zero};
use crate::color::Color;
use crate::dpi::{baseline_scaling_is_the_identity, scaled_96, Dpi, BASELINE_DPI};
use crate::dpi::DEFAULT_FONT_CENTIPOINTS;
use crate::icon::IconSet;
use crate::resolved::Resolved;
use crate::strings::Key;
use crate::strs::same_text;
use vstd::prelude::*;
use vstd::string::*;

verus! {

/// Everything a theme says about colour.
#[derive(Debug, Clone, Copy, PartialEq, Eq, Structural)]
pub struct Colors {
    pub background: Color,
    pub surface: Color,
    pub text_primary: Color,
    pub text_secondary: Color,
    pub accent: Color,
    pub ok: Color,
    pub warning: Color,
    pub critical: Color,
    pub border: Color,
    /// The softer border tone drawn as a full rounded frame under the side
    /// segments, so the corners are not bare.
    pub border_soft: Color,
    /// Fill of a text field while it holds keyboard focus.
    pub field_focus: Color,
    /// Colour of the keyboard focus ring.
    pub focus_ring: Color,
    /// How far a button's fill moves when the pointer hovers over it: positive
    /// lightens, negative darkens.
    pub hover_shift: i16,
}

impl Colors {
    /// The fill a button takes while the pointer hovers over it.
    pub fn hover_fill(self, resting: Color) -> (c: Color)
        ensures
            c == resting.moved(self.hover_shift),
    {
        resting.shifted(self.hover_shift)
    }

    /// The fill of a hovered button whose resting fill is the surface.
    pub fn hover_surface(self) -> (c: Color)
        ensures
            c == self.surface.moved(self.hover_shift),
    {
        self.hover_fill(self.surface)
    }
}

/// Everything a theme says about size and spacing, in whole pixels.
#[derive(Debug, Clone, Copy, PartialEq, Eq, Structural, Hash)]
pub struct Metrics {
    pub corner_radius: i32,
    pub padding: i32,
    pub spacing: i32,
    /// Gap between the label column and the value column.
    pub column_gap: i32,
    /// How far one level of nesting steps a row in.
    pub indent: i32,
    /// Minimum width of the panel window.
    pub panel_width: i32,
    /// Minimum width of the settings dialog.
    pub settings_width: i32,
    /// Height of one text row.
    pub row_height: i32,
    /// Smallest a button may be, before its caption is taken into account.
    pub button_min_width: i32,
}

impl Metrics {
    /// Every metric scaled to `dpi`.
    pub open spec fn at(self, dpi: int) -> Metrics {
        Metrics {
            corner_radius: scaled_96(self.corner_radius as int, dpi) as i32,
            padding: scaled_96(self.padding as int, dpi) as i32,
            spacing: scaled_96(self.spacing as int, dpi) as i32,
            column_gap: scaled_96(self.column_gap as int, dpi) as i32,
            indent: scaled_96(self.indent as int, dpi) as i32,
            panel_width: scaled_96(self.panel_width as int, dpi) as i32,
            settings_width: scaled_96(self.settings_width as int, dpi) as i32,
            row_height: scaled_96(self.row_height as int, dpi) as i32,
            button_min_width: scaled_96(self.button_min_width as int, dpi) as i32,
        }
    }

    /// Whether every metric is still a pixel count at `dpi`.
    pub open spec fn scalable(self, dpi: int) -> bool {
        &&& fits(scaled_96(self.corner_radius as int, dpi))
        &&& fits(scaled_96(self.padding as int, dpi))
        &&& fits(scaled_96(self.spacing as int, dpi))
        &&& fits(scaled_96(self.column_gap as int, dpi))
        &&& fits(scaled_96(self.indent as int, dpi))
        &&& fits(scaled_96(self.panel_width as int, dpi))
        &&& fits(scaled_96(self.settings_width as int, dpi))
        &&& fits(scaled_96(self.row_height as int, dpi))
        &&& fits(scaled_96(self.button_min_width as int, dpi))
    }

    /// Whether no metric is negative.
    pub open spec fn not_negative(self) -> bool {
        &&& self.corner_radius >= 0
        &&& self.padding >= 0
        &&& self.spacing >= 0
        &&& self.column_gap >= 0
        &&& self.indent >= 0
        &&& self.panel_width >= 0
        &&& self.settings_width >= 0
        &&& self.row_height >= 0
        &&& self.button_min_width >= 0
    }

    /// Whether every metric is still a pixel count on a monitor.
    pub fn can_scale(self, dpi: Dpi) -> (r: bool)
        ensures
            r == self.scalable(dpi.0 as int),
    {
        dpi.can_scale_96(self.corner_radius) && dpi.can_scale_96(self.padding)
            && dpi.can_scale_96(self.spacing) && dpi.can_scale_96(self.column_gap)
            && dpi.can_scale_96(self.indent) && dpi.can_scale_96(self.panel_width)
            && dpi.can_scale_96(self.settings_width) && dpi.can_scale_96(self.row_height)
            && dpi.can_scale_96(self.button_min_width)
    }

    /// Scales every metric to a monitor.
    fn scaled(self, dpi: Dpi) -> (m: Metrics)
        requires
            self.scalable(dpi.0 as int),
        ensures
            m == self.at(dpi.0 as int),
    {
        Metrics {
            corner_radius: dpi.scale_96(self.corner_radius),
            padding: dpi.scale_96(self.padding),
            spacing: dpi.scale_96(self.spacing),
            column_gap: dpi.scale_96(self.column_gap),
            indent: dpi.scale_96(self.indent),
            panel_width: dpi.scale_96(self.panel_width),
            settings_width: dpi.scale_96(self.settings_width),
            row_height: dpi.scale_96(self.row_height),
            button_min_width: dpi.scale_96(self.button_min_width),
        }
    }

    /// The extra blank under a window's last row.
    pub open spec fn slack(self) -> int {
        toward_zero(self.spacing as int, 2)
    }

    /// The blank between the last row and the bottom edge.
    pub open spec fn margin(self) -> int {
        self.padding + self.slack()
    }

    /// The blank above a button row.
    pub open spec fn row_lead(self) -> int {
        self.margin() - toward_zero(self.spacing as int, 2)
    }

    /// Extra bottom padding under a window's last row, so the gap below it
    /// matches the gap above the title as the eye sees it.
    pub fn bottom_slack(self) -> (r: i32)
        ensures
            r == self.slack(),
    {
        self.spacing / 2
    }

    /// The window's bottom margin: the blank between the last row and the
    /// bottom edge.
    pub fn bottom_margin(self) -> (r: i32)
        requires
            fits(self.margin()),
        ensures
            r == self.margin(),
    {
        self.padding + self.bottom_slack()
    }

    /// The gap reserved above the dialog's button row, so the space over the
    /// buttons equals the space under them.
    pub fn button_row_lead(self) -> (r: i32)
        ensures
            r == self.row_lead(),
    {
        let margin: i64 = self.padding as i64 + self.bottom_slack() as i64;
        (margin - (self.spacing / 2) as i64) as i32
    }
}

/// A complete theme: colour, geometry, the font size and the icons, authored at
/// 96 dots per inch.
#[derive(Debug, Clone, Copy, PartialEq, Eq, Structural)]
pub struct Theme {
    pub colors: Colors,
    pub metrics: Metrics,
    /// Size of the interface font in hundredths of a point. Not scaled with the
    /// metrics: points become pixels where the font is made.
    pub font_centipoints: u32,
    /// Tray and application icons.
    pub icons: IconSet,
}

impl Theme {
    /// Resolves the theme for a configured code; an unknown code falls back to
    /// the default theme.
    pub fn by_code(code: &str, icons: IconSet) -> (r: Resolved<Theme>)
        ensures
            r.recognised == (Builtin::named(code@) is Some),
            r.value == (match Builtin::named(code@) {
                Some(b) => b.look(icons),
                None => Builtin::Dark.look(icons),
            }),
    {
        match Builtin::from_code(code) {
            Some(b) => Resolved::found(b.theme(icons)),
            None => Resolved::fell_back(Builtin::default().theme(icons)),
        }
    }

    /// The default theme: dark.
    pub fn default_theme(icons: IconSet) -> (t: Theme)
        ensures
            t == Builtin::Dark.look(icons),
    {
        Builtin::default().theme(icons)
    }

    /// The theme as it applies on a monitor: the metrics scaled, everything
    /// else verbatim.
    pub fn scaled(self, dpi: Dpi) -> (s: ScaledTheme)
        requires
            self.metrics.scalable(dpi.0 as int),
        ensures
            s == ScaledTheme::of(self, dpi.0 as int),
            s.geometry() == self.metrics.at(dpi.0 as int),
            s.palette() == self.colors,
    {
        ScaledTheme { theme: Theme { metrics: self.metrics.scaled(dpi), ..self } }
    }
}

/// A theme whose geometry is in the device pixels of one particular monitor.
///
/// [`Theme::scaled`] is the only way to make one, and nothing hands the theme
/// inside back out, so a scaled theme cannot be scaled again.
#[derive(Debug, Clone, Copy, PartialEq, Eq, Structural)]
pub struct ScaledTheme {
    theme: Theme,
}

impl ScaledTheme {
    /// `theme` on a monitor at `dpi`.
    pub closed spec fn of(theme: Theme, dpi: int) -> ScaledTheme {
        ScaledTheme { theme: Theme { metrics: theme.metrics.at(dpi), ..theme } }
    }

    /// The geometry, in device pixels.
    pub closed spec fn geometry(self) -> Metrics {
        self.theme.metrics
    }

    /// The colours.
    pub closed spec fn palette(self) -> Colors {
        self.theme.colors
    }

    /// The font size and the icons that were carried across.
    pub closed spec fn carried(self) -> (u32, IconSet) {
        (self.theme.font_centipoints, self.theme.icons)
    }

    /// The theme's colours, which scaling does not touch.
    pub fn colors(self) -> (c: Colors)
        ensures
            c == self.palette(),
    {
        self.theme.colors
    }

    /// The font size, which is in points and so the same on every monitor.
    pub fn font_centipoints(self) -> (n: u32)
        ensures
            n == self.carried().0,
    {
        self.theme.font_centipoints
    }

    /// The icons, which are drawn at sizes of their own.
    pub fn icons(self) -> (i: IconSet)
        ensures
            i == self.carried().1,
    {
        self.theme.icons
    }

    /// The geometry, in this monitor's device pixels.
    pub fn metrics(self) -> (m: Metrics)
        ensures
            m == self.geometry(),
    {
        self.theme.metrics
    }
}

/// The selectable themes, in display order. Dark is first and is the default.
#[derive(Debug, Clone, Copy, PartialEq, Eq, Structural)]
pub enum Builtin {
    Dark,
    Light,
}

impl Default for Builtin {
    fn default() -> (b: Builtin)
        ensures
            b == Builtin::Dark,
    {
        Builtin::Dark
    }
}

impl Builtin {
    /// Every shipped theme, in the order the settings list shows them.
    pub const ALL: [Builtin; 2] = [Builtin::Dark, Builtin::Light];

    /// The identifier the configuration stores.
    pub open spec fn code_text(self) -> Seq<char> {
        match self {
            Builtin::Dark => "dark"@,
            Builtin::Light => "light"@,
        }
    }

    /// The theme a code names.
    pub open spec fn named(code: Seq<char>) -> Option<Builtin> {
        if code == "dark"@ {
            Some(Builtin::Dark)
        } else if code == "light"@ {
            Some(Builtin::Light)
        } else {
            None
        }
    }

    /// The theme this one is.
    pub open spec fn look(self, icons: IconSet) -> Theme {
        match self {
            Builtin::Dark => dark_look(icons),
            Builtin::Light => light_look(icons),
        }
    }

    /// The name the settings list shows it under.
    pub open spec fn title(self) -> Key {
        match self {
            Builtin::Dark => Key::ThemeDark,
            Builtin::Light => Key::ThemeLight,
        }
    }

    /// The stable identifier the configuration stores.
    pub fn code(self) -> (r: &'static str)
        ensures
            r@ == self.code_text(),
    {
        match self {
            Builtin::Dark => "dark",
            Builtin::Light => "light",
        }
    }

    /// The key of the localised display name shown in the settings list.
    pub fn name_key(self) -> (k: Key)
        ensures
            k == self.title(),
    {
        match self {
            Builtin::Dark => Key::ThemeDark,
            Builtin::Light => Key::ThemeLight,
        }
    }

    /// The theme `code` names, if it names one.
    pub fn from_code(code: &str) -> (r: Option<Builtin>)
        ensures
            r == Builtin::named(code@),
    {
        if same_text(Builtin::Dark.code(), code) {
            Some(Builtin::Dark)
        } else if same_text(Builtin::Light.code(), code) {
            Some(Builtin::Light)
        } else {
            None
        }
    }

    /// The theme this one is, with the icons every theme shares.
    pub fn theme(self, icons: IconSet) -> (t: Theme)
        ensures
            t == self.look(icons),
    {
        match self {
            Builtin::Dark => dark(icons),
            Builtin::Light => light(icons),
        }
    }
}

/// The geometry every theme inherits.
pub open spec fn base_metrics() -> Metrics {
    Metrics {
        corner_radius: 6,
        padding: 12,
        spacing: 8,
        column_gap: 20,
        indent: 18,
        panel_width: 320,
        settings_width: 340,
        row_height: 21,
        button_min_width: 96,
    }
}

/// The placeholder colours no theme keeps.
pub open spec fn base_colors() -> Colors {
    Colors {
        background: Color::opaque(0x1E, 0x1E, 0x1E),
        surface: Color::opaque(0x25, 0x25, 0x26),
        text_primary: Color::opaque(0xE0, 0xE0, 0xE0),
        text_secondary: Color::opaque(0x9E, 0x9E, 0x9E),
        accent: Color::opaque(0x0A, 0x84, 0xFF),
        ok: Color::opaque(0x34, 0xC7, 0x59),
        warning: Color::opaque(0xFF, 0x9F, 0x0A),
        critical: Color::opaque(0xFF, 0x3B, 0x30),
        border: Color::opaque(0x3A, 0x3A, 0x3A),
        border_soft: Color::opaque(0x3A, 0x3A, 0x3A),
        field_focus: Color::opaque(0x31, 0x31, 0x32),
        focus_ring: Color::opaque(0x8A, 0xB4, 0xF8),
        hover_shift: 0,
    }
}

/// The parent of both themes.
pub open spec fn base_look(icons: IconSet) -> Theme {
    Theme {
        colors: base_colors(),
        metrics: base_metrics(),
        font_centipoints: DEFAULT_FONT_CENTIPOINTS,
        icons,
    }
}

/// The dark palette: the placeholder one with accented flanks and a hover that
/// lightens.
pub open spec fn dark_look(icons: IconSet) -> Theme {
    Theme {
        colors: Colors {
            border: Color::opaque(0x5A, 0x5A, 0x5A),
            hover_shift: 0x18,
            ..base_colors()
        },
        ..base_look(icons)
    }
}

/// The light palette.
pub open spec fn light_look(icons: IconSet) -> Theme {
    Theme {
        colors: Colors {
            background: Color::opaque(0xEC, 0xEC, 0xEC),
            surface: Color::opaque(0xFF, 0xFF, 0xFF),
            text_primary: Color::opaque(0x00, 0x00, 0x00),
            text_secondary: Color::opaque(0x00, 0x00, 0x00),
            accent: Color::opaque(0x00, 0x66, 0xCC),
            ok: Color::opaque(0x1E, 0x8E, 0x3E),
            warning: Color::opaque(0xB3, 0x6B, 0x00),
            critical: Color::opaque(0xC5, 0x22, 0x1F),
            border: Color::opaque(0x70, 0x76, 0x7D),
            border_soft: Color::opaque(0xB0, 0xB4, 0xB8),
            field_focus: Color::opaque(0xFF, 0xFF, 0xFF),
            focus_ring: Color::opaque(0x40, 0x80, 0xC8),
            hover_shift: (-0x2C) as i16,
        },
        ..base_look(icons)
    }
}

/// The base parent: all geometry, the font size and the icons. Its colours are
/// placeholders; no theme takes any of them by default.
pub fn base(icons: IconSet) -> (t: Theme)
    ensures
        t == base_look(icons),
{
    Theme {
        colors: Colors {
            background: Color::from_rgb(0x1E, 0x1E, 0x1E),
            surface: Color::from_rgb(0x25, 0x25, 0x26),
            text_primary: Color::from_rgb(0xE0, 0xE0, 0xE0),
            text_secondary: Color::from_rgb(0x9E, 0x9E, 0x9E),
            accent: Color::from_rgb(0x0A, 0x84, 0xFF),
            ok: Color::from_rgb(0x34, 0xC7, 0x59),
            warning: Color::from_rgb(0xFF, 0x9F, 0x0A),
            critical: Color::from_rgb(0xFF, 0x3B, 0x30),
            border: Color::from_rgb(0x3A, 0x3A, 0x3A),
            border_soft: Color::from_rgb(0x3A, 0x3A, 0x3A),
            field_focus: Color::from_rgb(0x31, 0x31, 0x32),
            focus_ring: Color::from_rgb(0x8A, 0xB4, 0xF8),
            hover_shift: 0,
        },
        metrics: Metrics {
            corner_radius: 6,
            padding: 12,
            spacing: 8,
            column_gap: 20,
            indent: 18,
            panel_width: 320,
            settings_width: 340,
            row_height: 21,
            button_min_width: 96,
        },
        font_centipoints: DEFAULT_FONT_CENTIPOINTS,
        icons,
    }
}

/// The dark theme, and the default.
pub fn dark(icons: IconSet) -> (t: Theme)
    ensures
        t == dark_look(icons),
{
    Theme {
        colors: Colors {
            background: Color::from_rgb(0x1E, 0x1E, 0x1E),
            surface: Color::from_rgb(0x25, 0x25, 0x26),
            text_primary: Color::from_rgb(0xE0, 0xE0, 0xE0),
            text_secondary: Color::from_rgb(0x9E, 0x9E, 0x9E),
            accent: Color::from_rgb(0x0A, 0x84, 0xFF),
            ok: Color::from_rgb(0x34, 0xC7, 0x59),
            warning: Color::from_rgb(0xFF, 0x9F, 0x0A),
            critical: Color::from_rgb(0xFF, 0x3B, 0x30),
            // Accented side segments: lighter than the ground so the flanks
            // catch the eye.
            border: Color::from_rgb(0x5A, 0x5A, 0x5A),
            // The corner underlay recedes.
            border_soft: Color::from_rgb(0x3A, 0x3A, 0x3A),
            field_focus: Color::from_rgb(0x31, 0x31, 0x32),
            // Lighter than the accent it may be drawn around, and much less
            // saturated.
            focus_ring: Color::from_rgb(0x8A, 0xB4, 0xF8),
            // A hovered control lightens.
            hover_shift: 0x18,
        },
        ..base(icons)
    }
}

/// The light theme. Only the colours differ from the base.
pub fn light(icons: IconSet) -> (t: Theme)
    ensures
        t == light_look(icons),
{
    Theme {
        colors: Colors {
            background: Color::from_rgb(0xEC, 0xEC, 0xEC),
            // Controls sit at pure white, a clear step above the ground.
            surface: Color::from_rgb(0xFF, 0xFF, 0xFF),
            text_primary: Color::from_rgb(0x00, 0x00, 0x00),
            text_secondary: Color::from_rgb(0x00, 0x00, 0x00),
            accent: Color::from_rgb(0x00, 0x66, 0xCC),
            // Status hues darkened for a light ground.
            ok: Color::from_rgb(0x1E, 0x8E, 0x3E),
            warning: Color::from_rgb(0xB3, 0x6B, 0x00),
            critical: Color::from_rgb(0xC5, 0x22, 0x1F),
            border: Color::from_rgb(0x70, 0x76, 0x7D),
            border_soft: Color::from_rgb(0xB0, 0xB4, 0xB8),
            // A focused field keeps pure white: the caret is the cue.
            field_focus: Color::from_rgb(0xFF, 0xFF, 0xFF),
            focus_ring: Color::from_rgb(0x40, 0x80, 0xC8),
            // A hovered control darkens, well past the ground's own tone.
            hover_shift: -0x2C,
        },
        ..base(icons)
    }
}

/// A theme's code names the theme, and no other code names any.
pub proof fn codes_round_trip(b: Builtin)
    ensures
        Builtin::named(b.code_text()) == Some(b),
        forall|code: Seq<char>|
            #![trigger Builtin::named(code)]
            Builtin::named(code) == Some(b) ==> code == b.code_text(),
{
    reveal_strlit("dark");
    reveal_strlit("light");
    assert("dark"@.len() == 4);
    assert("light"@.len() == 5);
}

/// Scaling to the authored scale changes nothing.
pub proof fn scaling_to_the_baseline_is_a_no_op(t: Theme)
    requires
        t.metrics.not_negative(),
    ensures
        t.metrics.scalable(BASELINE_DPI as int),
        ScaledTheme::of(t, BASELINE_DPI as int).geometry() == t.metrics,
{
    baseline_scaling_is_the_identity(t.metrics.corner_radius as int);
    baseline_scaling_is_the_identity(t.metrics.padding as int);
    baseline_scaling_is_the_identity(t.metrics.spacing as int);
    baseline_scaling_is_the_identity(t.metrics.column_gap as int);
    baseline_scaling_is_the_identity(t.metrics.indent as int);
    baseline_scaling_is_the_identity(t.metrics.panel_width as int);
    baseline_scaling_is_the_identity(t.metrics.settings_width as int);
    baseline_scaling_is_the_identity(t.metrics.row_height as int);
    baseline_scaling_is_the_identity(t.metrics.button_min_width as int);
}

/// Scaling touches the metrics and nothing else: not the colours, not the font
/// size and not the icons.
pub proof fn scaling_touches_only_the_metrics(t: Theme, dpi: int)
    ensures
        ScaledTheme::of(t, dpi).geometry() == t.metrics.at(dpi),
        ScaledTheme::of(t, dpi).palette() == t.colors,
        ScaledTheme::of(t, dpi).carried() == (t.font_centipoints, t.icons),
{
}

/// Every selectable theme inherits its geometry, its font size and its icons
/// from the one base.
pub proof fn themes_differ_only_in_colour(b: Builtin, icons: IconSet)
    ensures
        b.look(icons).metrics == base_look(icons).metrics,
        b.look(icons).font_centipoints == base_look(icons).font_centipoints,
        b.look(icons).icons == icons,
        b.look(icons).metrics.not_negative(),
        Builtin::Dark.look(icons).colors != Builtin::Light.look(icons).colors,
{
    assert(Builtin::Dark.look(icons).colors.hover_shift == 0x18);
    assert(Builtin::Light.look(icons).colors.hover_shift == -0x2C);
}

/// A hovered button moves in each theme's own direction, and its fill stands at
/// least sixteen levels clear of the window ground.
pub proof fn hovering_is_visible_in_each_theme(icons: IconSet)
    ensures
        ({
            let dark = Builtin::Dark.look(icons).colors;
            let light = Builtin::Light.look(icons).colors;
            &&& dark.hover_shift > 0
            &&& light.hover_shift < 0
            &&& dark.surface.moved(dark.hover_shift).r >= dark.background.r + 16
            &&& dark.surface.moved(dark.hover_shift).g >= dark.background.g + 16
            &&& dark.surface.moved(dark.hover_shift).b >= dark.background.b + 16
            &&& light.surface.moved(light.hover_shift).r + 16 <= light.background.r
            &&& light.surface.moved(light.hover_shift).g + 16 <= light.background.g
            &&& light.surface.moved(light.hover_shift).b + 16 <= light.background.b
        }),
{
}

/// The blank above a button row is the padding: the lead-in and the trailing
/// half-spacing of the row before it add up to the bottom margin.
pub proof fn a_button_row_is_balanced(m: Metrics)
    ensures
        m.row_lead() == m.padding,
        m.row_lead() + toward_zero(m.spacing as int, 2) == m.margin(),
{
}

/// Every metric of a theme is on a monitor the nearest whole number of pixels
/// to the authored one at the monitor's scale.
#[verifier::spinoff_prover]
pub proof fn each_metric_scales_to_the_nearest_pixel(m: Metrics, dpi: u32)
    requires
        m.not_negative(),
        m.scalable(dpi as int),
    ensures
        ({
            let at = m.at(dpi as int);
            &&& -48 < 96 * at.corner_radius - m.corner_radius * dpi <= 48
            &&& -48 < 96 * at.padding - m.padding * dpi <= 48
            &&& -48 < 96 * at.spacing - m.spacing * dpi <= 48
            &&& -48 < 96 * at.column_gap - m.column_gap * dpi <= 48
            &&& -48 < 96 * at.indent - m.indent * dpi <= 48
            &&& -48 < 96 * at.panel_width - m.panel_width * dpi <= 48
            &&& -48 < 96 * at.settings_width - m.settings_width * dpi <= 48
            &&& -48 < 96 * at.row_height - m.row_height * dpi <= 48
            &&& -48 < 96 * at.button_min_width - m.button_min_width * dpi <= 48
        }),
{
    a_metric_scales(m.corner_radius, dpi);
    a_metric_scales(m.padding, dpi);
    a_metric_scales(m.spacing, dpi);
    a_metric_scales(m.column_gap, dpi);
    a_metric_scales(m.indent, dpi);
    a_metric_scales(m.panel_width, dpi);
    a_metric_scales(m.settings_width, dpi);
    a_metric_scales(m.row_height, dpi);
    a_metric_scales(m.button_min_width, dpi);
}

proof fn a_metric_scales(v: i32, dpi: u32)
    requires
        v >= 0,
    ensures
        -48 < 96 * scaled_96(v as int, dpi as int) - v * dpi <= 48,
{
    assert(v * dpi >= 0) by (nonlinear_arith)
        requires
            v >= 0,
            dpi >= 0,
    ;
}

/// The blank under the last row is the padding and half a gap, without the odd
/// pixel; the blank above the buttons is the padding alone.
pub proof fn the_bottom_margin_is_half_a_gap_more(m: Metrics)
    ensures
        m.margin() - m.padding == m.slack(),
        m.spacing >= 0 ==> 0 <= m.spacing - 2 * m.slack() <= 1,
        m.spacing <= 0 ==> -1 <= m.spacing - 2 * m.slack() <= 0,
        m.row_lead() == m.padding,
{
}

/// Each theme goes by its own name, under its own code, and is its own palette.
pub proof fn each_theme_is_its_own(icons: IconSet)
    ensures
        Builtin::Dark.title() == Key::ThemeDark,
        Builtin::Light.title() == Key::ThemeLight,
        Builtin::Dark.code_text() == seq!['d', 'a', 'r', 'k'],
        Builtin::Light.code_text() == seq!['l', 'i', 'g', 'h', 't'],
        Builtin::Dark.look(icons) == dark_look(icons),
        Builtin::Light.look(icons) == light_look(icons),
{
    reveal_strlit("dark");
    reveal_strlit("light");
    assert("dark"@ =~= seq!['d', 'a', 'r', 'k']);
    assert("light"@ =~= seq!['l', 'i', 'g', 'h', 't']);
}

/// How bright a colour is, out of 255000, as the eye weighs its channels.
pub open spec fn brightness(c: Color) -> int {
    299 * c.r + 587 * c.g + 114 * c.b
}

/// Text stands clear of the ground it is drawn on in both themes: bright on the
/// dark ground and dark on the bright one, by a quarter of the whole scale at
/// least.
pub proof fn text_stands_clear_of_its_ground(icons: IconSet)
    ensures
        ({
            let c = Builtin::Dark.look(icons).colors;
            &&& brightness(c.text_primary) >= brightness(c.background) + 64_000
            &&& brightness(c.text_secondary) >= brightness(c.background) + 64_000
            &&& brightness(c.text_primary) >= brightness(c.surface) + 64_000
            &&& c.background.a == 255 && c.surface.a == 255 && c.text_primary.a == 255
        }),
        ({
            let c = Builtin::Light.look(icons).colors;
            &&& brightness(c.text_primary) + 64_000 <= brightness(c.background)
            &&& brightness(c.text_secondary) + 64_000 <= brightness(c.background)
            &&& brightness(c.text_primary) + 64_000 <= brightness(c.surface)
            &&& c.background.a == 255 && c.surface.a == 255 && c.text_primary.a == 255
        }),
{
}

/// The three colours that grade a value are told apart in both themes, and none
/// of them is the colour of a value that is not graded.
pub proof fn the_grades_are_told_apart(b: Builtin, icons: IconSet)
    ensures
        ({
            let c = b.look(icons).colors;
            &&& c.ok != c.warning
            &&& c.ok != c.critical
            &&& c.warning != c.critical
            &&& c.ok != c.text_primary && c.ok != c.text_secondary
            &&& c.warning != c.text_primary && c.warning != c.text_secondary
            &&& c.critical != c.text_primary && c.critical != c.text_secondary
        }),
{
}

/// The geometry both themes are authored with, in pixels at the baseline scale.
pub proof fn both_themes_are_authored_alike(b: Builtin, icons: IconSet)
    ensures
        ({
            let m = b.look(icons).metrics;
            &&& m.corner_radius == 6
            &&& m.padding == 12
            &&& m.spacing == 8
            &&& m.column_gap == 20
            &&& m.indent == 18
            &&& m.panel_width == 320
            &&& m.settings_width == 340
            &&& m.row_height == 21
            &&& m.button_min_width == 96
        }),
        b.look(icons).font_centipoints == 1125,
        b.look(icons).icons == icons,
{
}

/// The colours of the dark theme.
pub proof fn the_dark_palette(icons: IconSet)
    ensures
        ({
            let c = Builtin::Dark.look(icons).colors;
            &&& c.background == Color::opaque(0x1E, 0x1E, 0x1E)
            &&& c.surface == Color::opaque(0x25, 0x25, 0x26)
            &&& c.text_primary == Color::opaque(0xE0, 0xE0, 0xE0)
            &&& c.text_secondary == Color::opaque(0x9E, 0x9E, 0x9E)
            &&& c.accent == Color::opaque(0x0A, 0x84, 0xFF)
            &&& c.ok == Color::opaque(0x34, 0xC7, 0x59)
            &&& c.warning == Color::opaque(0xFF, 0x9F, 0x0A)
            &&& c.critical == Color::opaque(0xFF, 0x3B, 0x30)
            &&& c.border == Color::opaque(0x5A, 0x5A, 0x5A)
            &&& c.border_soft == Color::opaque(0x3A, 0x3A, 0x3A)
            &&& c.field_focus == Color::opaque(0x31, 0x31, 0x32)
            &&& c.focus_ring == Color::opaque(0x8A, 0xB4, 0xF8)
            &&& c.hover_shift == 0x18
        }),
{
}

/// The colours of the light theme.
pub proof fn the_light_palette(icons: IconSet)
    ensures
        ({
            let c = Builtin::Light.look(icons).colors;
            &&& c.background == Color::opaque(0xEC, 0xEC, 0xEC)
            &&& c.surface == Color::opaque(0xFF, 0xFF, 0xFF)
            &&& c.text_primary == Color::opaque(0, 0, 0)
            &&& c.text_secondary == Color::opaque(0, 0, 0)
            &&& c.accent == Color::opaque(0x00, 0x66, 0xCC)
            &&& c.ok == Color::opaque(0x1E, 0x8E, 0x3E)
            &&& c.warning == Color::opaque(0xB3, 0x6B, 0x00)
            &&& c.critical == Color::opaque(0xC5, 0x22, 0x1F)
            &&& c.border == Color::opaque(0x70, 0x76, 0x7D)
            &&& c.border_soft == Color::opaque(0xB0, 0xB4, 0xB8)
            &&& c.field_focus == Color::opaque(0xFF, 0xFF, 0xFF)
            &&& c.focus_ring == Color::opaque(0x40, 0x80, 0xC8)
            &&& c.hover_shift == -0x2C
        }),
{
}

} // verus!
