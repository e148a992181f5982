//! The tray icon: which state it shows, and the bitmaps it shows it with.
//!
//! The four state icons are drawn once when the icon definitions or the system
//! icon metric change, never per poll.

use crate::hid::{Presence, Reading};
use crate::icon::{IconSet, IconSpec};
use crate::theme::Theme;
use vstd::prelude::*;

verus! {

/// The four tray states, resolved by priority: the first match wins.
#[derive(Debug, Clone, Copy, PartialEq, Eq, Hash, Structural)]
pub enum IconState {
    Normal,
    OnBattery,
    Critical,
    Disconnected,
}

impl IconState {
    /// Every state.
    pub const ALL: [IconState; 4] = [
        IconState::Normal,
        IconState::OnBattery,
        IconState::Critical,
        IconState::Disconnected,
    ];
}

impl IconSet {
    /// The mark of one tray state.
    pub open spec fn mark(self, state: IconState) -> IconSpec {
        match state {
            IconState::Normal => self.normal,
            IconState::OnBattery => self.on_battery,
            IconState::Critical => self.critical,
            IconState::Disconnected => self.disconnected,
        }
    }

    /// The mark of one tray state.
    pub fn spec(&self, state: IconState) -> (s: IconSpec)
        ensures
            s == self.mark(state),
    {
        match state {
            IconState::Normal => self.normal,
            IconState::OnBattery => self.on_battery,
            IconState::Critical => self.critical,
            IconState::Disconnected => self.disconnected,
        }
    }
}

/// The state the icon shows.
pub open spec fn state_of(reading: Option<Reading>, presence: Presence) -> IconState {
    match (presence, reading) {
        (Presence::Open, Some(r)) => if r.faulty() {
            IconState::Critical
        } else if r.ac_present == Some(false) {
            IconState::OnBattery
        } else {
            IconState::Normal
        },
        _ => IconState::Disconnected,
    }
}

/// The state the icon shows for the latest reading. Priority order is fixed:
/// disconnected, critical, on battery, normal.
pub fn state_for(reading: Option<&Reading>, presence: Presence) -> (s: IconState)
    ensures
        s == state_of(
            match reading {
                Some(r) => Some(*r),
                None => None,
            },
            presence,
        ),
{
    if presence != Presence::Open {
        return IconState::Disconnected;
    }
    match reading {
        None => IconState::Disconnected,
        Some(r) => if r.is_critical() {
            IconState::Critical
        } else if r.on_battery() {
            IconState::OnBattery
        } else {
            IconState::Normal
        },
    }
}

/// The smallest tray icon.
pub const MIN_ICON_SIZE: u32 = 16;

/// The largest tray icon.
pub const MAX_ICON_SIZE: u32 = 64;

/// The side of a tray icon where the system asks for `px`.
pub open spec fn icon_side(px: int) -> int {
    if px <= MIN_ICON_SIZE {
        MIN_ICON_SIZE as int
    } else if px >= MAX_ICON_SIZE {
        MAX_ICON_SIZE as int
    } else {
        px
    }
}

/// The size an icon is drawn at for a system metric of `px` pixels: the metric
/// itself between the bounds, and the smallest size when the system has none.
pub fn icon_size(px: i32) -> (size: u32)
    ensures
        size == (if px <= MIN_ICON_SIZE {
            MIN_ICON_SIZE as int
        } else if px >= MAX_ICON_SIZE {
            MAX_ICON_SIZE as int
        } else {
            px as int
        }),
        MIN_ICON_SIZE <= size <= MAX_ICON_SIZE,
        size == icon_side(px as int),
{
    if px <= 0 {
        MIN_ICON_SIZE
    } else {
        let px = px as u32;
        if px < MIN_ICON_SIZE {
            MIN_ICON_SIZE
        } else if px > MAX_ICON_SIZE {
            MAX_ICON_SIZE
        } else {
            px
        }
    }
}

/// One bitmap for each state.
#[derive(Debug)]
pub struct StateBitmaps {
    pub normal: Vec<u8>,
    pub on_battery: Vec<u8>,
    pub critical: Vec<u8>,
    pub disconnected: Vec<u8>,
}

impl StateBitmaps {
    /// The bitmap of one state.
    pub open spec fn of(self, state: IconState) -> Vec<u8> {
        match state {
            IconState::Normal => self.normal,
            IconState::OnBattery => self.on_battery,
            IconState::Critical => self.critical,
            IconState::Disconnected => self.disconnected,
        }
    }
}

/// Draws every state with `render`, each from its own mark.
pub fn render_all<F: Fn(IconSpec, u32) -> Vec<u8>>(theme: &Theme, size: u32, render: F) -> (icons:
    StateBitmaps)
    requires
        forall|mark: IconSpec| call_requires(render, (mark, size)),
    ensures
        forall|state: IconState|
            call_ensures(render, (theme.icons.mark(state), size), #[trigger] icons.of(state)),
{
    StateBitmaps {
        normal: render(theme.icons.spec(IconState::Normal), size),
        on_battery: render(theme.icons.spec(IconState::OnBattery), size),
        critical: render(theme.icons.spec(IconState::Critical), size),
        disconnected: render(theme.icons.spec(IconState::Disconnected), size),
    }
}

/// The drawn state icons, and what they were drawn from.
///
/// The definitions are compared by value and not by the name of their theme: a
/// recoloured theme under its old name is a different set of pixels.
#[derive(Debug)]
pub struct IconCache {
    icons: StateBitmaps,
    size: u32,
    set: IconSet,
}

impl IconCache {
    /// The bitmap held for one state.
    pub closed spec fn held(self, state: IconState) -> Vec<u8> {
        self.icons.of(state)
    }

    /// The size the bitmaps were drawn at.
    pub closed spec fn drawn_size(self) -> u32 {
        self.size
    }

    /// The definitions the bitmaps were drawn from.
    pub closed spec fn drawn_set(self) -> IconSet {
        self.set
    }

    /// Whether the bitmaps are those of a theme at a size.
    pub open spec fn shows(self, theme: Theme, size: u32) -> bool {
        self.drawn_size() == size && self.drawn_set() == theme.icons
    }

    /// A cache of the icons of a theme at a size, drawn with `render`.
    pub fn new<F: Fn(IconSpec, u32) -> Vec<u8>>(theme: &Theme, size: u32, render: F) -> (cache:
        IconCache)
        requires
            forall|mark: IconSpec| call_requires(render, (mark, size)),
        ensures
            cache.shows(*theme, size),
            forall|state: IconState|
                call_ensures(render, (theme.icons.mark(state), size), #[trigger] cache.held(state)),
    {
        let icons = render_all(theme, size, render);
        let cache = IconCache { icons, size, set: theme.icons };
        proof {
            assert forall|state: IconState|
                call_ensures(
                    render,
                    (theme.icons.mark(state), size),
                    #[trigger] cache.held(state),
                ) by {
                assert(cache.held(state) == icons.of(state));
            }
        }
        cache
    }

    /// Whether nothing has to be drawn for a theme at a size.
    pub fn is_current(&self, theme: &Theme, size: u32) -> (r: bool)
        ensures
            r == self.shows(*theme, size),
    {
        size == self.size && theme.icons == self.set
    }

    /// Redraws the icons with `render`, only when their definitions or the size
    /// actually changed.
    pub fn refresh<F: Fn(IconSpec, u32) -> Vec<u8>>(&mut self, theme: &Theme, size: u32, render: F)
        requires
            forall|mark: IconSpec| call_requires(render, (mark, size)),
        ensures
            final(self).shows(*theme, size),
            old(self).shows(*theme, size) ==> *final(self) == *old(self),
            !old(self).shows(*theme, size) ==> (forall|state: IconState|
                call_ensures(
                    render,
                    (theme.icons.mark(state), size),
                    #[trigger] final(self).held(state),
                )),
    {
        if self.is_current(theme, size) {
            return;
        }
        *self = IconCache::new(theme, size, render);
    }

    /// The bitmap of one state and the size it was drawn at.
    pub fn get(&self, state: IconState) -> (r: Option<(&[u8], u32)>)
        ensures
            r matches Some((bytes, size)) && bytes@ == self.held(state)@ && size
                == self.drawn_size(),
    {
        let bytes = match state {
            IconState::Normal => self.icons.normal.as_slice(),
            IconState::OnBattery => self.icons.on_battery.as_slice(),
            IconState::Critical => self.icons.critical.as_slice(),
            IconState::Disconnected => self.icons.disconnected.as_slice(),
        };
        Some((bytes, self.size))
    }
}

/// The first matching condition wins: a device that is not open shows as
/// disconnected whatever it last said, a fault outranks an outage, and an
/// outage outranks nothing being wrong.
pub proof fn the_first_match_wins(reading: Option<Reading>, presence: Presence)
    ensures
        state_of(reading, presence) is Disconnected <==> !(presence is Open) || reading is None,
        state_of(reading, presence) is Critical <==> presence is Open && (reading matches Some(r)
            && r.faulty()),
        state_of(reading, presence) is OnBattery <==> presence is Open && (reading matches Some(r)
            && !r.faulty() && r.ac_present == Some(false)),
        state_of(reading, presence) is Normal <==> presence is Open && (reading matches Some(r)
            && !r.faulty() && r.ac_present != Some(false)),
{
}

/// An open device of which nothing has read is neither faulty nor on battery.
pub proof fn an_unread_reading_is_normal()
    ensures
        state_of(Some(Reading::unread()), Presence::Open) is Normal,
{
}

/// The tray turns critical for each one of the six faults, whatever else was
/// read, and for nothing else: a flag that is down or unread is no fault, and
/// neither is a boost.
pub proof fn each_fault_turns_the_tray_critical(r: Reading)
    ensures
        state_of(Some(r), Presence::Open) == IconState::Critical <==> {
            ||| r.internal_failure == Some(true)
            ||| r.overload == Some(true)
            ||| r.below_capacity_limit == Some(true)
            ||| r.runtime_limit_expired == Some(true)
            ||| r.voltage_out_of_range == Some(true)
            ||| r.frequency_out_of_range == Some(true)
        },
        r.faulty() <==> state_of(Some(r), Presence::Open) == IconState::Critical,
        state_of(Some(r), Presence::Absent) == IconState::Disconnected,
        state_of(Some(r), Presence::Unprobed) == IconState::Disconnected,
{
}

/// Each state is drawn in the colours the theme has for it, and each bitmap is
/// kept under the state it was drawn for.
pub proof fn each_state_has_its_own_mark(set: IconSet, bitmaps: StateBitmaps)
    ensures
        set.mark(IconState::Normal) == set.normal,
        set.mark(IconState::OnBattery) == set.on_battery,
        set.mark(IconState::Critical) == set.critical,
        set.mark(IconState::Disconnected) == set.disconnected,
        bitmaps.of(IconState::Normal) == bitmaps.normal,
        bitmaps.of(IconState::OnBattery) == bitmaps.on_battery,
        bitmaps.of(IconState::Critical) == bitmaps.critical,
        bitmaps.of(IconState::Disconnected) == bitmaps.disconnected,
{
}

/// A cache is current for one size and one set of colours: it has to be drawn
/// again for any other.
pub proof fn a_cache_is_current_for_one_look(cache: IconCache, theme: Theme, size: u32)
    requires
        cache.shows(theme, size),
    ensures
        forall|other: Theme, px: u32| #[trigger]
            cache.shows(other, px) <==> other.icons == theme.icons && px == size,
{
}

/// An icon is as large as the system asks for, from sixteen pixels to
/// sixty-four: less is drawn at the least, a metric that did not read among it,
/// and more at the most.
pub proof fn an_icon_is_as_large_as_asked(px: int)
    ensures
        16 <= icon_side(px) <= 64,
        16 <= px <= 64 ==> icon_side(px) == px,
        px < 16 ==> icon_side(px) == 16,
        px > 64 ==> icon_side(px) == 64,
{
}

} // verus!
