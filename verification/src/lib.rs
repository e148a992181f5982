//! The interface of an uninterruptible power supply monitor: what its windows
//! show, how that is laid out, and what a key or a click does to it.

pub mod appicon;
pub mod arith;
pub mod color;
pub mod config;
pub mod dpi;
pub mod fingerprint;
pub mod focus;
pub mod format;
pub mod gdi;
pub mod hid;
pub mod hotspots;
pub mod icon;
pub mod lang;
pub mod layout;
pub mod layout_laws;
pub mod notify;
pub mod panel;
pub mod panel_laws;
pub mod reading_laws;
pub mod rect;
pub mod resolved;
pub mod row;
pub mod scrollbar;
pub mod settings;
pub mod settings_laws;
pub mod strings;
pub mod strs;
pub mod text;
pub mod textfield;
pub mod theme;
pub mod timers;
pub mod tray;
pub mod width_laws;
