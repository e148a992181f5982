//! The application mark, and who owns the handle of a window icon.

use crate::icon::IconSpec;
use crate::theme::Theme;
use vstd::prelude::*;

verus! {

/// Sizes carried in the icon resource of the executable: the small views, the
/// two standard shell views and the large one. Window icons are drawn at the
/// exact size their window asks for and are not on this list.
pub const SIZES: [u32; 4] = [16, 24, 32, 48];

/// The application mark, in the theme's colours for it. It does not follow the
/// power state: a window on screen is never on battery.
pub fn spec(theme: &Theme) -> (s: IconSpec)
    ensures
        s == theme.icons.app,
{
    theme.icons.app
}

/// Which of the two icons a window carries.
#[derive(Debug, Clone, Copy, PartialEq, Eq, Structural)]
pub enum IconSlot {
    /// Title bar and taskbar.
    Small,
    /// Alt+Tab and the task switcher.
    Big,
}

impl IconSlot {
    /// The number the set-icon message takes for the slot.
    pub open spec fn number(self) -> usize {
        match self {
            IconSlot::Small => 0,
            IconSlot::Big => 1,
        }
    }

    /// The number the set-icon message takes for the slot.
    pub fn as_wparam(self) -> (n: usize)
        ensures
            n == self.number(),
    {
        match self {
            IconSlot::Small => 0,
            IconSlot::Big => 1,
        }
    }
}

/// An icon handed to a window, carrying who owns the handle.
///
/// Where a handle came from cannot be recovered from it: one the system shares
/// must never be destroyed, while one that was drawn leaks unless somebody
/// frees it.
#[derive(Debug, Clone, Copy)]
pub enum WindowIcon<H> {
    /// From the icon resource. The system owns it.
    Shared(H),
    /// Drawn for this window. The window owns it and must destroy it when it is
    /// done.
    Owned(H),
}

impl<H: Copy> WindowIcon<H> {
    /// The handle it carries.
    pub open spec fn carried(self) -> H {
        match self {
            WindowIcon::Shared(h) => h,
            WindowIcon::Owned(h) => h,
        }
    }

    /// The handle, to hand to a window.
    pub fn handle(self) -> (h: H)
        ensures
            h == self.carried(),
    {
        match self {
            WindowIcon::Shared(h) => h,
            WindowIcon::Owned(h) => h,
        }
    }

    /// The handle the caller must destroy, or `None` when it belongs to the
    /// system.
    pub fn owned(self) -> (h: Option<H>)
        ensures
            h == (if self is Owned {
                Some(self.carried())
            } else {
                None
            }),
    {
        match self {
            WindowIcon::Shared(_) => None,
            WindowIcon::Owned(h) => Some(h),
        }
    }
}

/// The two slots have different numbers.
pub proof fn the_slots_are_told_apart()
    ensures
        IconSlot::Small.number() != IconSlot::Big.number(),
{
}

/// The slots are numbered as the set-icon message numbers them, and an icon
/// carries its handle whoever owns it.
pub proof fn the_small_slot_comes_first<H: Copy>(h: H)
    ensures
        IconSlot::Small.number() == 0,
        IconSlot::Big.number() == 1,
        WindowIcon::Shared(h).carried() == h,
        WindowIcon::Owned(h).carried() == h,
{
}

} // verus!
