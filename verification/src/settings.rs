//! The settings dialog: a draft of the configuration, the rows it is shown as,
//! and what a click or a key does to it.
//!
//! Edits go to the draft, so Cancel discards without touching the live
//! configuration; OK validates and writes it back.

use crate::arith::{larger, smaller, within};
use crate::color::Color;
use crate::config::{
    a_set_switch_leaves_the_others, a_set_switch_reads_back, Config, ConfigView, LogLevel, Switch,
    Switches, POLL_MAX_MS, POLL_MIN_MS,
};
use crate::lang::{filled, Locale};
use crate::notify::EventKind;
use crate::row::{
    family_view, items_view, rows_view, rows_view_push, DropdownItem, Edit, Gap, HotspotId,
    ItemView, Row, RowView,
};
use crate::scrollbar::{
    last_offset, last_scroll_offset, DROPDOWN_MAX_VISIBLE, DROPDOWN_PAGE, HOT_SCROLL_DOWN,
    HOT_SCROLL_PAGE_DOWN, HOT_SCROLL_PAGE_UP, HOT_SCROLL_THUMB, HOT_SCROLL_UP,
};
use crate::strings::{Key, Language};
use crate::strs::{
    decimal, decimal_is_tight, decimal_reads_back, decimal_text, parse_u32, parsed_u32, same_text,
    trim, trimmed,
};
use crate::textfield::{CharFilter, FieldEdit, FieldView, TextField};
use crate::theme::{Builtin, Theme};
use vstd::prelude::*;

verus! {

/// Longest interval the field will hold: the longest one is five digits.
pub const INTERVAL_MAX_DIGITS: usize = 5;

/// The interval field.
pub const HOT_INTERVAL: u32 = 100;

/// The master notification switch.
pub const HOT_NOTIFICATIONS: u32 = 101;

pub const HOT_POWER_FAILURE: u32 = 102;

pub const HOT_POWER_RESTORED: u32 = 103;

pub const HOT_LOW_BATTERY: u32 = 104;

pub const HOT_DEVICE_FAULT: u32 = 105;

/// The theme list.
pub const HOT_THEME: u32 = 106;

/// The language list.
pub const HOT_LANGUAGE: u32 = 107;

pub const HOT_OK: u32 = 108;

pub const HOT_CANCEL: u32 = 109;

pub const HOT_START_MINIMIZED: u32 = 110;

pub const HOT_OVERLOAD: u32 = 111;

pub const HOT_VOLTAGE_OUT_OF_RANGE: u32 = 112;

pub const HOT_RUNTIME_LIMIT: u32 = 113;

pub const HOT_CONNECTION_LOST: u32 = 114;

/// The log-level list.
pub const HOT_LOG_LEVEL: u32 = 115;

pub const HOT_BOOST_STARTED: u32 = 116;

pub const HOT_BOOST_ENDED: u32 = 117;

pub const HOT_FREQUENCY_OUT_OF_RANGE: u32 = 118;

pub const HOT_CONNECTION_RESTORED: u32 = 119;

/// What a click on the settings view asked for.
#[derive(Debug, Clone, Copy, PartialEq, Eq, Structural)]
pub enum Action {
    /// Redraw; the draft changed but nothing was committed.
    Changed,
    /// Validate and save.
    Commit,
    /// Discard and return to the status view.
    Cancel,
    /// Nothing was asked for.
    Nothing,
}

/// Open/highlight/scroll state of one dropdown list.
#[derive(Debug, Clone, Copy)]
pub struct ListState {
    /// Whether the list is currently showing.
    pub open: bool,
    /// The highlighted option, or `None` until a key or the pointer moves it.
    pub highlight: Option<usize>,
    /// Index of the first visible option.
    pub scroll: usize,
}

/// What a list's state says.
pub struct ListView {
    pub open: bool,
    pub highlight: Option<int>,
    pub scroll: int,
}

impl View for ListState {
    type V = ListView;

    open spec fn view(&self) -> ListView {
        ListView {
            open: self.open,
            highlight: match self.highlight {
                Some(i) => Some(i as int),
                None => None,
            },
            scroll: self.scroll as int,
        }
    }
}

impl Default for ListState {
    fn default() -> (l: ListState)
        ensures
            l@ == ListView::closed_at_top(),
    {
        ListState { open: false, highlight: None, scroll: 0 }
    }
}

impl ListView {
    /// A list nobody has opened.
    pub open spec fn closed_at_top() -> ListView {
        ListView { open: false, highlight: None, scroll: 0 }
    }

    /// Not showing, the highlight forgotten.
    pub open spec fn shut(self) -> ListView {
        ListView { open: false, highlight: None, ..self }
    }

    /// As a click elsewhere leaves it: shut, unless the click was on it and it
    /// is showing.
    pub open spec fn dismissed(self, clicked: bool) -> ListView {
        if self.open && clicked {
            self
        } else {
            self.shut()
        }
    }

    /// Opened on the current choice, scrolled so that it is in view; or shut.
    pub open spec fn toggled(self, current: int) -> ListView {
        if self.open {
            ListView { open: false, highlight: None, scroll: 0 }
        } else {
            ListView {
                open: true,
                highlight: Some(current),
                scroll: larger(current - DROPDOWN_MAX_VISIBLE as int / 2, 0),
            }
        }
    }

    /// The option the highlight is on, in a list of `count`.
    pub open spec fn at(self, count: int) -> int {
        smaller(
            match self.highlight {
                Some(i) => i,
                None => 0,
            },
            count - 1,
        )
    }

    /// The highlight on `to`, and the view moved by no more than it takes to
    /// show it.
    pub open spec fn moved(self, to: int) -> ListView {
        ListView {
            highlight: Some(to),
            scroll: if to < self.scroll {
                to
            } else if to >= self.scroll + DROPDOWN_MAX_VISIBLE {
                to + 1 - DROPDOWN_MAX_VISIBLE
            } else {
                self.scroll
            },
            ..self
        }
    }
}

/// The settings dialog's working copy, edited freely and committed only on OK.
///
/// The interval is a text field and not a number: it is kept as typed and
/// parsed once, at commit, where a bad entry can be reported. The lists carry
/// their own open/scroll/highlight state, because the rows are rebuilt from the
/// draft on every repaint.
#[derive(Debug)]
pub struct SettingsDraft {
    pub interval: TextField,
    pub switches: Switches,
    pub theme: String,
    pub language: String,
    pub log_level: LogLevel,
    pub error: Option<String>,
    pub lang: ListState,
    pub log: ListState,
    pub theme_list: ListState,
}

/// What a draft says.
pub struct DraftView {
    pub interval: FieldView,
    pub switches: Switches,
    pub theme: Seq<char>,
    pub language: Seq<char>,
    pub log_level: LogLevel,
    pub error: Option<Seq<char>>,
    pub lang: ListView,
    pub log: ListView,
    pub theme_list: ListView,
}

impl View for SettingsDraft {
    type V = DraftView;

    open spec fn view(&self) -> DraftView {
        DraftView {
            interval: self.interval@,
            switches: self.switches,
            theme: self.theme@,
            language: self.language@,
            log_level: self.log_level,
            error: match self.error {
                Some(text) => Some(text@),
                None => None,
            },
            lang: self.lang@,
            log: self.log@,
            theme_list: self.theme_list@,
        }
    }
}

impl Switch {
    /// The switch a hotspot id names, if it names one: the one place a checkbox
    /// id is tied to the switch it controls.
    pub open spec fn named(id: HotspotId) -> Option<Switch> {
        if id.0 == HOT_START_MINIMIZED {
            Some(Switch::StartMinimized)
        } else if id.0 == HOT_NOTIFICATIONS {
            Some(Switch::Notifications)
        } else if id.0 == HOT_POWER_FAILURE {
            Some(Switch::PowerFailure)
        } else if id.0 == HOT_POWER_RESTORED {
            Some(Switch::PowerRestored)
        } else if id.0 == HOT_LOW_BATTERY {
            Some(Switch::LowBattery)
        } else if id.0 == HOT_DEVICE_FAULT {
            Some(Switch::DeviceFault)
        } else if id.0 == HOT_OVERLOAD {
            Some(Switch::Overload)
        } else if id.0 == HOT_VOLTAGE_OUT_OF_RANGE {
            Some(Switch::VoltageOutOfRange)
        } else if id.0 == HOT_FREQUENCY_OUT_OF_RANGE {
            Some(Switch::FrequencyOutOfRange)
        } else if id.0 == HOT_RUNTIME_LIMIT {
            Some(Switch::RuntimeLimit)
        } else if id.0 == HOT_CONNECTION_LOST {
            Some(Switch::ConnectionLost)
        } else if id.0 == HOT_CONNECTION_RESTORED {
            Some(Switch::ConnectionRestored)
        } else if id.0 == HOT_BOOST_STARTED {
            Some(Switch::BoostStarted)
        } else if id.0 == HOT_BOOST_ENDED {
            Some(Switch::BoostEnded)
        } else {
            None
        }
    }

    /// The switch a hotspot id names, if it names one.
    pub fn at(id: HotspotId) -> (r: Option<Switch>)
        ensures
            r == Switch::named(id),
    {
        if id.0 == HOT_START_MINIMIZED {
            Some(Switch::StartMinimized)
        } else if id.0 == HOT_NOTIFICATIONS {
            Some(Switch::Notifications)
        } else if id.0 == HOT_POWER_FAILURE {
            Some(Switch::PowerFailure)
        } else if id.0 == HOT_POWER_RESTORED {
            Some(Switch::PowerRestored)
        } else if id.0 == HOT_LOW_BATTERY {
            Some(Switch::LowBattery)
        } else if id.0 == HOT_DEVICE_FAULT {
            Some(Switch::DeviceFault)
        } else if id.0 == HOT_OVERLOAD {
            Some(Switch::Overload)
        } else if id.0 == HOT_VOLTAGE_OUT_OF_RANGE {
            Some(Switch::VoltageOutOfRange)
        } else if id.0 == HOT_FREQUENCY_OUT_OF_RANGE {
            Some(Switch::FrequencyOutOfRange)
        } else if id.0 == HOT_RUNTIME_LIMIT {
            Some(Switch::RuntimeLimit)
        } else if id.0 == HOT_CONNECTION_LOST {
            Some(Switch::ConnectionLost)
        } else if id.0 == HOT_CONNECTION_RESTORED {
            Some(Switch::ConnectionRestored)
        } else if id.0 == HOT_BOOST_STARTED {
            Some(Switch::BoostStarted)
        } else if id.0 == HOT_BOOST_ENDED {
            Some(Switch::BoostEnded)
        } else {
            None
        }
    }
}

impl Switches {
    /// The state of the switch behind a hotspot id, if the id names one.
    pub open spec fn get(self, id: HotspotId) -> Option<bool> {
        match Switch::named(id) {
            Some(switch) => Some(self.state(switch)),
            None => None,
        }
    }

    /// With the switch behind a hotspot id set; as it is when the id names
    /// none.
    pub open spec fn set(self, id: HotspotId, on: bool) -> Switches {
        match Switch::named(id) {
            Some(switch) => self.with(switch, on),
            None => self,
        }
    }
}

/// The position of the first of some codes that is `code`, or zero.
pub open spec fn position_of(codes: Seq<Seq<char>>, code: Seq<char>) -> int {
    match found_at(codes, code) {
        Some(i) => i,
        None => 0,
    }
}

/// The position of the first of some codes that is `code`, if one is.
pub open spec fn found_at(codes: Seq<Seq<char>>, code: Seq<char>) -> Option<int>
    decreases codes.len(),
{
    if codes.len() == 0 {
        None
    } else if codes[0] == code {
        Some(0)
    } else {
        match found_at(codes.skip(1), code) {
            Some(i) => Some(i + 1),
            None => None,
        }
    }
}

/// The codes of some languages.
pub open spec fn language_codes(languages: Seq<Language>) -> Seq<Seq<char>> {
    Seq::new(languages.len(), |i: int| languages[i].code@)
}

/// The codes of some themes.
pub open spec fn theme_codes(themes: Seq<Builtin>) -> Seq<Seq<char>> {
    Seq::new(themes.len(), |i: int| themes[i].code_text())
}

/// How many options the list `id` holds, if `id` names a list.
pub open spec fn options_in(id: HotspotId, themes: Seq<Builtin>, languages: Seq<Language>) -> Option<
    int,
> {
    if id == HotspotId(HOT_LANGUAGE) {
        Some(languages.len() as int)
    } else if id == HotspotId(HOT_LOG_LEVEL) {
        Some(2)
    } else if id == HotspotId(HOT_THEME) {
        Some(themes.len() as int)
    } else {
        None
    }
}

impl DraftView {
    /// The field of the draft is a valid one.
    pub open spec fn wf(self) -> bool {
        self.interval.wf()
    }

    /// The state of the list an id names, if it names one.
    pub open spec fn list(self, id: HotspotId) -> Option<ListView> {
        if id == HotspotId(HOT_LANGUAGE) {
            Some(self.lang)
        } else if id == HotspotId(HOT_LOG_LEVEL) {
            Some(self.log)
        } else if id == HotspotId(HOT_THEME) {
            Some(self.theme_list)
        } else {
            None
        }
    }

    /// With the list an id names in another state.
    pub open spec fn with_list(self, id: HotspotId, list: ListView) -> DraftView {
        if id == HotspotId(HOT_LANGUAGE) {
            DraftView { lang: list, ..self }
        } else if id == HotspotId(HOT_LOG_LEVEL) {
            DraftView { log: list, ..self }
        } else if id == HotspotId(HOT_THEME) {
            DraftView { theme_list: list, ..self }
        } else {
            self
        }
    }

    /// The list that is showing, if one is.
    pub open spec fn showing(self) -> Option<HotspotId> {
        if self.lang.open {
            Some(HotspotId(HOT_LANGUAGE))
        } else if self.log.open {
            Some(HotspotId(HOT_LOG_LEVEL))
        } else if self.theme_list.open {
            Some(HotspotId(HOT_THEME))
        } else {
            None
        }
    }

    /// Whether no two lists are showing at once.
    pub open spec fn one_list_at_most(self) -> bool {
        &&& !(self.lang.open && self.log.open)
        &&& !(self.lang.open && self.theme_list.open)
        &&& !(self.log.open && self.theme_list.open)
    }

    /// What choosing option `index` of list `id` does: the value is taken, if
    /// there is one at that index, and the list is shut.
    pub open spec fn chosen(
        self,
        id: HotspotId,
        index: int,
        themes: Seq<Builtin>,
        languages: Seq<Language>,
    ) -> (DraftView, Action) {
        if id == HotspotId(HOT_LANGUAGE) {
            (
                DraftView {
                    language: if index < languages.len() {
                        languages[index].code@
                    } else {
                        self.language
                    },
                    lang: self.lang.shut(),
                    ..self
                },
                Action::Changed,
            )
        } else if id == HotspotId(HOT_LOG_LEVEL) {
            (
                DraftView {
                    log_level: if index < 2 {
                        LogLevel::at(index)
                    } else {
                        self.log_level
                    },
                    log: self.log.shut(),
                    ..self
                },
                Action::Changed,
            )
        } else if id == HotspotId(HOT_THEME) {
            (
                DraftView {
                    theme: if index < themes.len() {
                        themes[index].code_text()
                    } else {
                        self.theme
                    },
                    theme_list: self.theme_list.shut(),
                    ..self
                },
                Action::Changed,
            )
        } else {
            (self, Action::Nothing)
        }
    }

    /// What opening or shutting list `id`, its current choice being `current`,
    /// does.
    pub open spec fn list_toggled(self, id: HotspotId, current: int) -> (DraftView, Action) {
        match self.list(id) {
            Some(list) => (self.with_list(id, list.toggled(current)), Action::Changed),
            None => (self, Action::Nothing),
        }
    }

    /// What an edit aimed at list `id` does.
    pub open spec fn list_edited(
        self,
        id: HotspotId,
        edit: Edit,
        themes: Seq<Builtin>,
        languages: Seq<Language>,
    ) -> (DraftView, Action) {
        match (options_in(id, themes, languages), self.list(id)) {
            (Some(count), Some(list)) => if edit is Cancel && list.open {
                (self.with_list(id, list.shut()), Action::Changed)
            } else if !list.open || count == 0 {
                (self, Action::Nothing)
            } else {
                match edit {
                    Edit::Commit => self.chosen(id, list.at(count), themes, languages),
                    Edit::Highlight(mv) => (
                        self.with_list(id, list.moved(mv.lands(list.at(count), count))),
                        Action::Changed,
                    ),
                    Edit::Hover(index) => (
                        self.with_list(
                            id,
                            ListView { highlight: Some(smaller(index as int, count - 1)), ..list },
                        ),
                        Action::Changed,
                    ),
                    Edit::Scroll(notches) => (
                        self.with_list(
                            id,
                            ListView {
                                scroll: within(list.scroll - notches, 0, last_offset(count)),
                                ..list
                            },
                        ),
                        Action::Changed,
                    ),
                    Edit::ScrollTo(index) => (
                        self.with_list(
                            id,
                            ListView { scroll: smaller(index as int, last_offset(count)), ..list },
                        ),
                        Action::Changed,
                    ),
                    _ => (self, Action::Nothing),
                }
            },
            _ => (self, Action::Nothing),
        }
    }

    /// What a click on part `id` of the open list's scrollbar does, if `id`
    /// names one.
    pub open spec fn bar_clicked(
        self,
        id: HotspotId,
        themes: Seq<Builtin>,
        languages: Seq<Language>,
    ) -> Option<(DraftView, Action)> {
        match bar_step(id) {
            None => None,
            Some(step) => Some(
                match (self.showing(), step) {
                    (None, _) => (self, Action::Nothing),
                    (Some(_), None) => (self, Action::Changed),
                    (Some(open), Some(notches)) => self.list_edited(
                        open,
                        Edit::Scroll(notches),
                        themes,
                        languages,
                    ),
                },
            ),
        }
    }

    /// As a click on `id` leaves the lists it did not hit.
    pub open spec fn dismissed(self, id: HotspotId) -> DraftView {
        DraftView {
            lang: self.lang.dismissed(id == HotspotId(HOT_LANGUAGE)),
            log: self.log.dismissed(id == HotspotId(HOT_LOG_LEVEL)),
            theme_list: self.theme_list.dismissed(id == HotspotId(HOT_THEME)),
            ..self
        }
    }

    /// What a click on `id` does.
    pub open spec fn clicked(
        self,
        id: HotspotId,
        themes: Seq<Builtin>,
        languages: Seq<Language>,
    ) -> (DraftView, Action) {
        match (id.as_option(), self.bar_clicked(id, themes, languages)) {
            (Some((base, index)), _) => self.chosen(base, index, themes, languages),
            (None, Some(outcome)) => outcome,
            (None, None) => {
                let rest = self.dismissed(id);
                match rest.switches.get(id) {
                    Some(on) => (
                        DraftView { switches: rest.switches.set(id, !on), ..rest },
                        Action::Changed,
                    ),
                    None => if id == HotspotId(HOT_THEME) {
                        rest.list_toggled(id, position_of(theme_codes(themes), self.theme))
                    } else if id == HotspotId(HOT_LANGUAGE) {
                        rest.list_toggled(
                            id,
                            position_of(language_codes(languages), self.language),
                        )
                    } else if id == HotspotId(HOT_LOG_LEVEL) {
                        rest.list_toggled(id, self.log_level.place())
                    } else if id == HotspotId(HOT_INTERVAL) {
                        (rest, Action::Changed)
                    } else if id == HotspotId(HOT_OK) {
                        (rest, Action::Commit)
                    } else if id == HotspotId(HOT_CANCEL) {
                        (rest, Action::Cancel)
                    } else if self.showing() is Some {
                        (rest, Action::Changed)
                    } else {
                        (rest, Action::Nothing)
                    },
                }
            },
        }
    }

    /// What an edit aimed at the interval field does.
    pub open spec fn field_edited(self, id: HotspotId, edit: Edit) -> (DraftView, Action) {
        if id != HotspotId(HOT_INTERVAL) {
            (self, Action::Nothing)
        } else if edit is Commit {
            (self, Action::Commit)
        } else if edit is Cancel {
            (self, Action::Cancel)
        } else {
            match field_edit(edit) {
                Some(change) => (
                    DraftView { interval: self.interval.edited(change).0, ..self },
                    Action::Changed,
                ),
                None => (self, Action::Nothing),
            }
        }
    }

    /// The interval the draft stands for, if it is one that may be configured.
    pub open spec fn interval_ms(self) -> Option<u32> {
        match parsed_u32(trimmed(self.interval.text)) {
            Some(ms) => if POLL_MIN_MS <= ms <= POLL_MAX_MS {
                Some(ms)
            } else {
                None
            },
            None => None,
        }
    }
}

/// How far a part of the scrollbar moves the list, positive toward the top;
/// nothing for the thumb; and no answer for what is not part of a scrollbar.
pub open spec fn bar_step(id: HotspotId) -> Option<Option<i32>> {
    if id == HotspotId(HOT_SCROLL_UP) {
        Some(Some(1i32))
    } else if id == HotspotId(HOT_SCROLL_DOWN) {
        Some(Some((-1) as i32))
    } else if id == HotspotId(HOT_SCROLL_PAGE_UP) {
        Some(Some(DROPDOWN_PAGE as i32))
    } else if id == HotspotId(HOT_SCROLL_PAGE_DOWN) {
        Some(Some((-(DROPDOWN_PAGE as int)) as i32))
    } else if id == HotspotId(HOT_SCROLL_THUMB) {
        Some(None)
    } else {
        None
    }
}

/// The edit of a text field that a keyboard edit stands for, if it is one.
pub open spec fn field_edit(edit: Edit) -> Option<FieldEdit> {
    match edit {
        Edit::Insert(c) => Some(FieldEdit::Insert(c)),
        Edit::Backspace => Some(FieldEdit::Backspace),
        Edit::Delete => Some(FieldEdit::Delete),
        Edit::CaretLeft { extend } => Some(FieldEdit::Left { extend }),
        Edit::CaretRight { extend } => Some(FieldEdit::Right { extend }),
        Edit::CaretHome { extend } => Some(FieldEdit::Home { extend }),
        Edit::CaretEnd { extend } => Some(FieldEdit::End { extend }),
        Edit::SelectAll => Some(FieldEdit::SelectAll),
        Edit::CaretTo { index, extend } => Some(FieldEdit::CaretTo { index, extend }),
        _ => None,
    }
}

/// The per-event switches, in display order: each event kind with the hotspot
/// id of its checkbox.
pub open spec fn switch_table() -> Seq<(EventKind, HotspotId)> {
    seq![
        (EventKind::PowerFailure, HotspotId(HOT_POWER_FAILURE)),
        (EventKind::PowerRestored, HotspotId(HOT_POWER_RESTORED)),
        (EventKind::LowBattery, HotspotId(HOT_LOW_BATTERY)),
        (EventKind::RuntimeLimitExpired, HotspotId(HOT_RUNTIME_LIMIT)),
        (EventKind::VoltageOutOfRange, HotspotId(HOT_VOLTAGE_OUT_OF_RANGE)),
        (EventKind::FrequencyOutOfRange, HotspotId(HOT_FREQUENCY_OUT_OF_RANGE)),
        (EventKind::BoostStarted, HotspotId(HOT_BOOST_STARTED)),
        (EventKind::BoostEnded, HotspotId(HOT_BOOST_ENDED)),
        (EventKind::DeviceFault, HotspotId(HOT_DEVICE_FAULT)),
        (EventKind::Overload, HotspotId(HOT_OVERLOAD)),
        (EventKind::Disconnected, HotspotId(HOT_CONNECTION_LOST)),
        (EventKind::Reconnected, HotspotId(HOT_CONNECTION_RESTORED)),
    ]
}

/// The row of one per-event switch.
pub open spec fn switch_row(
    entry: (EventKind, HotspotId),
    switches: Switches,
    locale: Locale,
) -> RowView {
    RowView::Checkbox {
        label: locale.text(entry.0.switch_name()),
        checked: switches.get(entry.1) == Some(true),
        depth: 1,
        id: entry.1,
    }
}

/// The rows of the per-event switches.
pub open spec fn switch_rows(switches: Switches, locale: Locale) -> Seq<RowView> {
    Seq::new(switch_table().len(), |i: int| switch_row(switch_table()[i], switches, locale))
}

/// One language as an option: the English name, and the native one where it is
/// another word.
pub open spec fn language_option(l: Language) -> ItemView {
    ItemView {
        label: l.english_name@,
        native: if l.english_name@ == l.native_name@ {
            seq![]
        } else {
            l.native_name@
        },
        font: family_view(l.font),
    }
}

/// An option whose whole text is one localized string.
pub open spec fn plain_option(text: Seq<char>) -> ItemView {
    ItemView { label: text, native: seq![], font: None }
}

/// One dropdown row: a highlight that was never moved is on the selection.
pub open spec fn list_row(
    label: Seq<char>,
    options: Seq<ItemView>,
    selected: int,
    list: ListView,
    id: HotspotId,
) -> RowView {
    RowView::Dropdown {
        label,
        options,
        selected,
        highlighted: match list.highlight {
            Some(i) => i,
            None => selected,
        },
        open: list.open,
        scroll: list.scroll,
        id,
    }
}

/// The options of the language list.
pub open spec fn language_options(languages: Seq<Language>) -> Seq<ItemView> {
    Seq::new(languages.len(), |i: int| language_option(languages[i]))
}

/// The options of the theme list.
pub open spec fn theme_options(themes: Seq<Builtin>, locale: Locale) -> Seq<ItemView> {
    Seq::new(themes.len(), |i: int| plain_option(locale.text(themes[i].title())))
}

/// The options of the log-level list.
pub open spec fn level_options(locale: Locale) -> Seq<ItemView> {
    seq![
        plain_option(locale.text(Key::SettingsLogNormal)),
        plain_option(locale.text(Key::SettingsLogDebug)),
    ]
}

/// The rows above the per-event switches.
pub open spec fn head_rows(
    draft: DraftView,
    locale: Locale,
    themes: Seq<Builtin>,
    languages: Seq<Language>,
) -> Seq<RowView> {
    seq![
        RowView::Header(locale.text(Key::SettingsTitle)),
        RowView::Space(Gap::Half),
        RowView::Field {
            label: locale.text(Key::SettingsPollInterval),
            value: draft.interval.text,
            caret: draft.interval.cursor,
            sel_start: if draft.interval.selecting() { draft.interval.low() } else { 0 },
            sel_end: if draft.interval.selecting() { draft.interval.high() } else { 0 },
            id: HotspotId(HOT_INTERVAL),
        },
        list_row(
            locale.text(Key::SettingsLanguage),
            language_options(languages),
            position_of(language_codes(languages), draft.language),
            draft.lang,
            HotspotId(HOT_LANGUAGE),
        ),
        list_row(
            locale.text(Key::SettingsTheme),
            theme_options(themes, locale),
            position_of(theme_codes(themes), draft.theme),
            draft.theme_list,
            HotspotId(HOT_THEME),
        ),
        list_row(
            locale.text(Key::SettingsLogLevel),
            level_options(locale),
            draft.log_level.place(),
            draft.log,
            HotspotId(HOT_LOG_LEVEL),
        ),
        RowView::Space(Gap::Half),
        RowView::Checkbox {
            label: locale.text(Key::SettingsStartMinimized),
            checked: draft.switches.start_minimized,
            depth: 0,
            id: HotspotId(HOT_START_MINIMIZED),
        },
        RowView::Space(Gap::Half),
        RowView::Checkbox {
            label: locale.text(Key::SettingsNotifications),
            checked: draft.switches.notifications_enabled,
            depth: 0,
            id: HotspotId(HOT_NOTIFICATIONS),
        },
    ]
}

/// The rows of a warning: the message between two half gaps.
pub open spec fn error_rows(error: Option<Seq<char>>, critical: Color) -> Seq<RowView> {
    match error {
        Some(text) => seq![
            RowView::Space(Gap::Half),
            RowView::Notice { text, color: critical },
            RowView::Space(Gap::Half),
        ],
        None => seq![],
    }
}

/// The row of OK and Cancel.
pub open spec fn button_row(locale: Locale) -> RowView {
    RowView::Buttons {
        left: locale.text(Key::SettingsOk),
        left_id: HotspotId(HOT_OK),
        right: locale.text(Key::SettingsCancel),
        right_id: HotspotId(HOT_CANCEL),
    }
}

/// The rows of the dialog. The per-event switches only mean anything while the
/// master switch is on, so they are hidden while it is off.
pub open spec fn dialog_rows(
    draft: DraftView,
    locale: Locale,
    critical: Color,
    themes: Seq<Builtin>,
    languages: Seq<Language>,
) -> Seq<RowView> {
    head_rows(draft, locale, themes, languages) + (if draft.switches.notifications_enabled {
        switch_rows(draft.switches, locale)
    } else {
        seq![]
    }) + error_rows(draft.error, critical) + seq![button_row(locale)]
}

/// How many options the list `id` holds, or `None` if `id` names no list.
pub fn option_count(id: HotspotId, themes: &[Builtin], languages: &[Language]) -> (r: Option<usize>)
    ensures
        r is Some == options_in(id, themes@, languages@) is Some,
        r matches Some(n) ==> options_in(id, themes@, languages@) == Some(n as int),
{
    if id.0 == HOT_LANGUAGE {
        Some(languages.len())
    } else if id.0 == HOT_LOG_LEVEL {
        Some(2)
    } else if id.0 == HOT_THEME {
        Some(themes.len())
    } else {
        None
    }
}

fn language_position(languages: &[Language], code: &str) -> (r: usize)
    ensures
        r == position_of(language_codes(languages@), code@),
{
    let ghost codes = language_codes(languages@);
    let mut i: usize = 0;
    proof {
        assert(codes.skip(0) =~= codes);
    }
    while i < languages.len()
        invariant
            i <= languages@.len(),
            codes == language_codes(languages@),
            found_at(codes, code@) == (match found_at(codes.skip(i as int), code@) {
                Some(j) => Some(i + j),
                None => None,
            }),
        decreases languages.len() - i,
    {
        proof {
            assert(codes.skip(i as int).skip(1) =~= codes.skip(i + 1));
            assert(codes.skip(i as int)[0] == languages@[i as int].code@);
        }
        if same_text(languages[i].code, code) {
            return i;
        }
        i = i + 1;
    }
    0
}

fn theme_position(themes: &[Builtin], code: &str) -> (r: usize)
    ensures
        r == position_of(theme_codes(themes@), code@),
{
    let ghost codes = theme_codes(themes@);
    let mut i: usize = 0;
    proof {
        assert(codes.skip(0) =~= codes);
    }
    while i < themes.len()
        invariant
            i <= themes@.len(),
            codes == theme_codes(themes@),
            found_at(codes, code@) == (match found_at(codes.skip(i as int), code@) {
                Some(j) => Some(i + j),
                None => None,
            }),
        decreases themes.len() - i,
    {
        proof {
            assert(codes.skip(i as int).skip(1) =~= codes.skip(i + 1));
            assert(codes.skip(i as int)[0] == themes@[i as int].code_text());
        }
        if same_text(themes[i].code(), code) {
            return i;
        }
        i = i + 1;
    }
    0
}

fn level_position(level: LogLevel) -> (r: usize)
    ensures
        r == level.place(),
{
    match level {
        LogLevel::Normal => 0,
        LogLevel::Debug => 1,
    }
}

/// One dropdown row, assembled from what differs between the three of them.
fn dropdown_row(
    label: String,
    options: Vec<DropdownItem>,
    selected: usize,
    list: &ListState,
    id: HotspotId,
) -> (row: Row)
    ensures
        row@ == list_row(label@, items_view(options@), selected as int, list@, id),
{
    Row::Dropdown {
        label,
        options,
        selected,
        highlighted: match list.highlight {
            Some(i) => i,
            None => selected,
        },
        open: list.open,
        scroll: list.scroll,
        id,
    }
}

/// An option whose whole text is one localized string.
pub fn plain_item(locale: &Locale, key: Key) -> (item: DropdownItem)
    ensures
        item@ == plain_option(locale.text(key)),
{
    let item = DropdownItem { label: locale.own(key), native: String::new(), font: None };
    proof {
        assert(item@.native =~= seq![]);
    }
    item
}

/// One language as an option in the list.
///
/// English name first, because it is Latin script in every entry; the native
/// name follows in parentheses and is dropped where it would repeat it.
pub fn language_item(l: &Language) -> (item: DropdownItem)
    ensures
        item@ == language_option(*l),
{
    let native = if same_text(l.english_name, l.native_name) {
        String::new()
    } else {
        l.native_name.to_owned()
    };
    proof {
        assert(l.english_name@ == l.native_name@ ==> native@ =~= seq![]);
    }
    DropdownItem { label: l.english_name.to_owned(), native, font: l.font }
}

fn language_items(languages: &[Language]) -> (items: Vec<DropdownItem>)
    ensures
        items_view(items@) == language_options(languages@),
{
    let mut items: Vec<DropdownItem> = Vec::new();
    let mut i: usize = 0;
    while i < languages.len()
        invariant
            i <= languages@.len(),
            items@.len() == i,
            forall|k: int| 0 <= k < i ==> (#[trigger] items@[k])@ == language_option(languages@[k]),
        decreases languages.len() - i,
    {
        items.push(language_item(&languages[i]));
        i = i + 1;
    }
    proof {
        assert(items_view(items@) =~= language_options(languages@));
    }
    items
}

fn theme_items(themes: &[Builtin], locale: &Locale) -> (items: Vec<DropdownItem>)
    ensures
        items_view(items@) == theme_options(themes@, *locale),
{
    let mut items: Vec<DropdownItem> = Vec::new();
    let mut i: usize = 0;
    while i < themes.len()
        invariant
            i <= themes@.len(),
            items@.len() == i,
            forall|k: int|
                0 <= k < i ==> (#[trigger] items@[k])@ == plain_option(
                    locale.text(themes@[k].title()),
                ),
        decreases themes.len() - i,
    {
        items.push(plain_item(locale, themes[i].name_key()));
        i = i + 1;
    }
    proof {
        assert(items_view(items@) =~= theme_options(themes@, *locale));
    }
    items
}

fn level_items(locale: &Locale) -> (items: Vec<DropdownItem>)
    ensures
        items_view(items@) == level_options(*locale),
{
    let mut items: Vec<DropdownItem> = Vec::new();
    items.push(plain_item(locale, LogLevel::Normal.lang_key()));
    items.push(plain_item(locale, LogLevel::Debug.lang_key()));
    proof {
        assert(items_view(items@) =~= level_options(*locale));
    }
    items
}

impl SettingsDraft {
    /// The draft of a configuration.
    pub fn from_config(cfg: &Config) -> (d: SettingsDraft)
        ensures
            d@ == draft_of(cfg@),
            d@.wf(),
    {
        let digits = decimal_text(cfg.poll_interval_ms);
        SettingsDraft {
            interval: TextField::new(digits.as_str(), CharFilter::Digits, INTERVAL_MAX_DIGITS),
            switches: cfg.switches,
            theme: cfg.theme.clone(),
            language: cfg.language.clone(),
            log_level: cfg.log_level,
            error: None,
            lang: ListState::default(),
            log: ListState::default(),
            theme_list: ListState::default(),
        }
    }

    /// The per-event switches, in display order: each event kind paired with
    /// the hotspot id of its checkbox.
    pub fn event_switches() -> (table: Vec<(EventKind, HotspotId)>)
        ensures
            table@ == switch_table(),
    {
        let mut table: Vec<(EventKind, HotspotId)> = Vec::new();
        table.push((EventKind::PowerFailure, HotspotId(HOT_POWER_FAILURE)));
        table.push((EventKind::PowerRestored, HotspotId(HOT_POWER_RESTORED)));
        table.push((EventKind::LowBattery, HotspotId(HOT_LOW_BATTERY)));
        table.push((EventKind::RuntimeLimitExpired, HotspotId(HOT_RUNTIME_LIMIT)));
        table.push((EventKind::VoltageOutOfRange, HotspotId(HOT_VOLTAGE_OUT_OF_RANGE)));
        table.push((EventKind::FrequencyOutOfRange, HotspotId(HOT_FREQUENCY_OUT_OF_RANGE)));
        table.push((EventKind::BoostStarted, HotspotId(HOT_BOOST_STARTED)));
        table.push((EventKind::BoostEnded, HotspotId(HOT_BOOST_ENDED)));
        table.push((EventKind::DeviceFault, HotspotId(HOT_DEVICE_FAULT)));
        table.push((EventKind::Overload, HotspotId(HOT_OVERLOAD)));
        table.push((EventKind::Disconnected, HotspotId(HOT_CONNECTION_LOST)));
        table.push((EventKind::Reconnected, HotspotId(HOT_CONNECTION_RESTORED)));
        proof {
            assert(table@ =~= switch_table());
        }
        table
    }

    /// Builds the settings rows for the current draft.
    pub fn rows(
        &self,
        locale: &Locale,
        theme: &Theme,
        themes: &[Builtin],
        languages: &[Language],
    ) -> (rows: Vec<Row>)
        ensures
            rows_view(rows@) == dialog_rows(
                self@,
                *locale,
                theme.colors.critical,
                themes@,
                languages@,
            ),
    {
        broadcast use rows_view_push;

        let mut rows: Vec<Row> = Vec::new();
        rows.push(Row::Header(locale.own(Key::SettingsTitle)));
        rows.push(Row::Space(Gap::Half));
        let (sel_start, sel_end): (usize, usize) = match self.interval.selection() {
            Some(range) => range,
            None => (0, 0),
        };
        rows.push(
            Row::Field {
                label: locale.own(Key::SettingsPollInterval),
                value: self.interval.text().to_owned(),
                caret: self.interval.cursor(),
                sel_start,
                sel_end,
                id: HotspotId(HOT_INTERVAL),
            },
        );
        // English name first, native name in parentheses.
        rows.push(
            dropdown_row(
                locale.own(Key::SettingsLanguage),
                language_items(languages),
                language_position(languages, self.language.as_str()),
                &self.lang,
                HotspotId(HOT_LANGUAGE),
            ),
        );
        rows.push(
            dropdown_row(
                locale.own(Key::SettingsTheme),
                theme_items(themes, locale),
                theme_position(themes, self.theme.as_str()),
                &self.theme_list,
                HotspotId(HOT_THEME),
            ),
        );
        // A list despite having only two values, so the rows above it behave
        // the same way.
        rows.push(
            dropdown_row(
                locale.own(Key::SettingsLogLevel),
                level_items(locale),
                level_position(self.log_level),
                &self.log,
                HotspotId(HOT_LOG_LEVEL),
            ),
        );
        rows.push(Row::Space(Gap::Half));
        rows.push(
            Row::Checkbox {
                label: locale.own(Key::SettingsStartMinimized),
                checked: self.switches.start_minimized,
                depth: 0,
                id: HotspotId(HOT_START_MINIMIZED),
            },
        );
        rows.push(Row::Space(Gap::Half));
        rows.push(
            Row::Checkbox {
                label: locale.own(Key::SettingsNotifications),
                checked: self.switches.notifications_enabled,
                depth: 0,
                id: HotspotId(HOT_NOTIFICATIONS),
            },
        );
        let ghost head = head_rows(self@, *locale, themes@, languages@);
        proof {
            assert(rows_view(rows@) =~= head);
        }
        if self.switches.notifications_enabled {
            let mut switches = self.event_switch_rows(locale);
            let ghost drawn = switches@;
            let ghost before = rows@;
            rows.append(&mut switches);
            proof {
                assert(rows_view(rows@) =~= rows_view(before) + rows_view(drawn));
            }
        }
        let ghost middle = head + (if self@.switches.notifications_enabled {
            switch_rows(self@.switches, *locale)
        } else {
            seq![]
        });
        proof {
            assert(rows_view(rows@) =~= middle);
        }
        // The warning leaves the same half spacing below it as a checkbox does,
        // so the buttons sit the same distance under the last line either way.
        match &self.error {
            Some(text) => {
                rows.push(Row::Space(Gap::Half));
                rows.push(Row::Notice { text: text.clone(), color: theme.colors.critical });
                rows.push(Row::Space(Gap::Half));
            },
            None => {},
        }
        proof {
            assert(rows_view(rows@) =~= middle + error_rows(self@.error, theme.colors.critical));
        }
        rows.push(
            Row::Buttons {
                left: locale.own(Key::SettingsOk),
                left_id: HotspotId(HOT_OK),
                right: locale.own(Key::SettingsCancel),
                right_id: HotspotId(HOT_CANCEL),
            },
        );
        proof {
            assert(rows_view(rows@) =~= dialog_rows(
                self@,
                *locale,
                theme.colors.critical,
                themes@,
                languages@,
            ));
        }
        rows
    }

    /// The twelve per-event switches, one row per notifiable event kind.
    pub fn event_switch_rows(&self, locale: &Locale) -> (rows: Vec<Row>)
        ensures
            rows_view(rows@) == switch_rows(self@.switches, *locale),
    {
        let table = SettingsDraft::event_switches();
        let mut rows: Vec<Row> = Vec::new();
        let mut i: usize = 0;
        while i < table.len()
            invariant
                i <= table@.len(),
                table@ == switch_table(),
                rows@.len() == i,
                forall|k: int|
                    0 <= k < i ==> (#[trigger] rows@[k])@ == switch_row(
                        table@[k],
                        self@.switches,
                        *locale,
                    ),
            decreases table.len() - i,
        {
            let (kind, id) = table[i];
            rows.push(
                Row::Checkbox {
                    label: locale.own(kind.switch_key()),
                    checked: self.switch(id),
                    // One level in from the master switch above them.
                    depth: 1,
                    id,
                },
            );
            i = i + 1;
        }
        proof {
            assert(rows_view(rows@) =~= switch_rows(self@.switches, *locale));
        }
        rows
    }

    /// The checkbox behind a hotspot id, if that id names one.
    pub fn checkbox(&self, id: HotspotId) -> (r: Option<bool>)
        ensures
            r == self@.switches.get(id),
    {
        match Switch::at(id) {
            Some(switch) => Some(self.switches.read(switch)),
            None => None,
        }
    }

    /// The same mapping, written: the click path toggles through this.
    pub fn set_checkbox(&mut self, id: HotspotId, on: bool)
        ensures
            final(self)@ == (DraftView {
                switches: old(self)@.switches.set(id, on),
                ..old(self)@
            }),
    {
        match Switch::at(id) {
            Some(switch) => {
                self.switches = self.switches.written(switch, on);
            },
            None => {},
        }
    }

    /// The current state of a checkbox, by the same id the click path uses.
    pub fn switch(&self, id: HotspotId) -> (on: bool)
        ensures
            on == (self@.switches.get(id) == Some(true)),
    {
        match self.checkbox(id) {
            Some(on) => on,
            None => false,
        }
    }

    /// The list a dropdown id names, or `None` for an id that is not a
    /// dropdown.
    pub fn list_mut(&mut self, id: HotspotId) -> (r: Option<&mut ListState>)
        ensures
            r is Some == old(self)@.list(id) is Some,
            r is None ==> *final(self) == *old(self),
            r matches Some(list) ==> old(self)@.list(id) == Some(list@) && final(self)@
                == old(self)@.with_list(id, final(list)@),
    {
        if id.0 == HOT_LANGUAGE {
            Some(&mut self.lang)
        } else if id.0 == HOT_LOG_LEVEL {
            Some(&mut self.log)
        } else if id.0 == HOT_THEME {
            Some(&mut self.theme_list)
        } else {
            None
        }
    }

    /// Shared read-only counterpart of [`Self::list_mut`].
    pub fn list_ref(&self, id: HotspotId) -> (r: Option<ListState>)
        ensures
            r is Some == self@.list(id) is Some,
            r matches Some(list) ==> self@.list(id) == Some(list@),
    {
        if id.0 == HOT_LANGUAGE {
            Some(self.lang)
        } else if id.0 == HOT_LOG_LEVEL {
            Some(self.log)
        } else if id.0 == HOT_THEME {
            Some(self.theme_list)
        } else {
            None
        }
    }

    /// The list currently showing, if any.
    pub fn open_list(&self) -> (r: Option<HotspotId>)
        ensures
            r == self@.showing(),
    {
        if self.lang.open {
            Some(HotspotId(HOT_LANGUAGE))
        } else if self.log.open {
            Some(HotspotId(HOT_LOG_LEVEL))
        } else if self.theme_list.open {
            Some(HotspotId(HOT_THEME))
        } else {
            None
        }
    }

    /// Chooses option `index` of list `id`, closing it: the one place a
    /// selection is written.
    pub fn pick(
        &mut self,
        id: HotspotId,
        index: usize,
        themes: &[Builtin],
        languages: &[Language],
    ) -> (action: Action)
        ensures
            (final(self)@, action) == old(self)@.chosen(
                id,
                index as int,
                themes@,
                languages@,
            ),
    {
        if id.0 == HOT_LANGUAGE {
            self.pick_language(index, languages);
            Action::Changed
        } else if id.0 == HOT_LOG_LEVEL {
            self.pick_level(index);
            Action::Changed
        } else if id.0 == HOT_THEME {
            self.pick_theme(index, themes);
            Action::Changed
        } else {
            Action::Nothing
        }
    }

    fn pick_language(&mut self, index: usize, languages: &[Language])
        ensures
            final(self)@ == (DraftView {
                language: if index < languages@.len() {
                    languages@[index as int].code@
                } else {
                    old(self)@.language
                },
                lang: old(self)@.lang.shut(),
                ..old(self)@
            }),
    {
        if index < languages.len() {
            self.language = languages[index].code.to_owned();
        }
        self.lang = ListState { open: false, highlight: None, scroll: self.lang.scroll };
    }

    fn pick_level(&mut self, index: usize)
        ensures
            final(self)@ == (DraftView {
                log_level: if index < 2 {
                    LogLevel::at(index as int)
                } else {
                    old(self)@.log_level
                },
                log: old(self)@.log.shut(),
                ..old(self)@
            }),
    {
        if index == 0 {
            self.log_level = LogLevel::Normal;
        } else if index == 1 {
            self.log_level = LogLevel::Debug;
        }
        self.log = ListState { open: false, highlight: None, scroll: self.log.scroll };
    }

    fn pick_theme(&mut self, index: usize, themes: &[Builtin])
        ensures
            final(self)@ == (DraftView {
                theme: if index < themes@.len() {
                    themes@[index as int].code_text()
                } else {
                    old(self)@.theme
                },
                theme_list: old(self)@.theme_list.shut(),
                ..old(self)@
            }),
    {
        if index < themes.len() {
            self.theme = themes[index].code().to_owned();
        }
        self.theme_list = ListState {
            open: false,
            highlight: None,
            scroll: self.theme_list.scroll,
        };
    }

    /// Opens or closes a list, and on opening scrolls it to the current choice.
    fn toggle_list(&mut self, id: HotspotId, current: usize) -> (action: Action)
        ensures
            (final(self)@, action) == old(self)@.list_toggled(id, current as int),
    {
        match self.list_mut(id) {
            Some(list) => {
                let showing: bool = !list.open;
                *list = if showing {
                    ListState {
                        open: true,
                        highlight: Some(current),
                        scroll: if current > DROPDOWN_MAX_VISIBLE / 2 {
                            current - DROPDOWN_MAX_VISIBLE / 2
                        } else {
                            0
                        },
                    }
                } else {
                    ListState { open: false, highlight: None, scroll: 0 }
                };
                Action::Changed
            },
            None => Action::Nothing,
        }
    }

    /// Closes every list a click on `id` did not land on.
    fn dismiss_lists(&mut self, id: HotspotId)
        ensures
            final(self)@ == old(self)@.dismissed(id),
    {
        self.lang = dismissed_state(self.lang, id.0 == HOT_LANGUAGE);
        self.log = dismissed_state(self.log, id.0 == HOT_LOG_LEVEL);
        self.theme_list = dismissed_state(self.theme_list, id.0 == HOT_THEME);
    }

    /// Applies a click on a settings control to the draft.
    pub fn on_click(
        &mut self,
        id: HotspotId,
        themes: &[Builtin],
        languages: &[Language],
    ) -> (action: Action)
        ensures
            (final(self)@, action) == old(self)@.clicked(id, themes@, languages@),
    {
        // An option inside an open list: option ids live in their own band.
        match id.split_option() {
            Some((base, index)) => {
                return self.pick(base, index, themes, languages);
            },
            None => {},
        }
        // The open list's own scrollbar, before anything closes the list.
        match self.on_scrollbar(id, themes, languages) {
            Some(action) => {
                return action;
            },
            None => {},
        }
        // Any click closes a list that is not the one clicked, a click that hit
        // nothing included.
        let was_open: bool = self.open_list().is_some();
        self.dismiss_lists(id);
        match self.checkbox(id) {
            Some(on) => {
                self.set_checkbox(id, !on);
                return Action::Changed;
            },
            None => {},
        }
        if id.0 == HOT_THEME {
            let at: usize = theme_position(themes, self.theme.as_str());
            self.toggle_list(id, at)
        } else if id.0 == HOT_LANGUAGE {
            let at: usize = language_position(languages, self.language.as_str());
            self.toggle_list(id, at)
        } else if id.0 == HOT_LOG_LEVEL {
            let at: usize = level_position(self.log_level);
            self.toggle_list(id, at)
        } else if id.0 == HOT_INTERVAL {
            // Focus is the window's to grant; all that is left is to repaint.
            Action::Changed
        } else if id.0 == HOT_OK {
            Action::Commit
        } else if id.0 == HOT_CANCEL {
            Action::Cancel
        } else if was_open {
            // The click may have just dismissed an open list.
            Action::Changed
        } else {
            Action::Nothing
        }
    }

    /// Applies a click on the open list's scrollbar, if `id` names part of one.
    ///
    /// The scrollbar belongs to whichever list is open. With no list open there
    /// is nothing to scroll, and the event is absorbed.
    pub fn on_scrollbar(
        &mut self,
        id: HotspotId,
        themes: &[Builtin],
        languages: &[Language],
    ) -> (r: Option<Action>)
        ensures
            match old(self)@.bar_clicked(id, themes@, languages@) {
                Some(outcome) => (final(self)@, r) == (outcome.0, Some(outcome.1)),
                None => r is None && *final(self) == *old(self),
            },
    {
        let page: i32 = DROPDOWN_PAGE as i32;
        // Positive is toward the top, matching the wheel.
        let step: Option<i32> = if id.0 == HOT_SCROLL_UP {
            Some(1)
        } else if id.0 == HOT_SCROLL_DOWN {
            Some(-1)
        } else if id.0 == HOT_SCROLL_PAGE_UP {
            Some(page)
        } else if id.0 == HOT_SCROLL_PAGE_DOWN {
            Some(-page)
        } else if id.0 == HOT_SCROLL_THUMB {
            // The thumb scrolls by being dragged, not by being clicked.
            None
        } else {
            return None;
        };
        match (self.open_list(), step) {
            (None, _) => Some(Action::Nothing),
            (Some(_), None) => Some(Action::Changed),
            (Some(open), Some(notches)) => Some(
                self.on_list_edit(open, Edit::Scroll(notches), themes, languages),
            ),
        }
    }

    /// Applies a keyboard or wheel event aimed at an open list.
    pub fn on_list_edit(
        &mut self,
        id: HotspotId,
        edit: Edit,
        themes: &[Builtin],
        languages: &[Language],
    ) -> (action: Action)
        ensures
            (final(self)@, action) == old(self)@.list_edited(id, edit, themes@, languages@),
    {
        let (count, list): (usize, ListState) = match (
            option_count(id, themes, languages),
            self.list_ref(id),
        ) {
            (Some(count), Some(list)) => (count, list),
            _ => {
                return Action::Nothing;
            },
        };
        let next: ListState = match edit {
            Edit::Cancel => {
                if !list.open {
                    return Action::Nothing;
                }
                ListState { open: false, highlight: None, scroll: list.scroll }
            },
            _ => {
                if !list.open || count == 0 {
                    return Action::Nothing;
                }
                let at: usize = match list.highlight {
                    Some(i) => if i < count - 1 {
                        i
                    } else {
                        count - 1
                    },
                    None => 0,
                };
                match edit {
                    Edit::Commit => {
                        return self.pick(id, at, themes, languages);
                    },
                    Edit::Highlight(mv) => moved_state(list, mv.apply(at, count)),
                    // The option is under the pointer, so it is on screen:
                    // hovering never scrolls.
                    Edit::Hover(index) => ListState {
                        highlight: Some(
                            if index < count - 1 {
                                index
                            } else {
                                count - 1
                            },
                        ),
                        ..list
                    },
                    // Wheel-up is positive and moves the view toward the top.
                    Edit::Scroll(notches) => {
                        let max: i128 = last_scroll_offset(count) as i128;
                        let wanted: i128 = list.scroll as i128 - notches as i128;
                        let scroll: i128 = if wanted < 0 {
                            0
                        } else if wanted > max {
                            max
                        } else {
                            wanted
                        };
                        ListState { scroll: scroll as usize, ..list }
                    },
                    // A thumb drag names a position outright.
                    Edit::ScrollTo(index) => {
                        let max: usize = last_scroll_offset(count);
                        ListState {
                            scroll: if index < max {
                                index
                            } else {
                                max
                            },
                            ..list
                        }
                    },
                    _ => {
                        return Action::Nothing;
                    },
                }
            },
        };
        match self.list_mut(id) {
            Some(slot) => {
                *slot = next;
            },
            None => {},
        }
        Action::Changed
    }

    /// Applies a keyboard or mouse edit to the focused interval field.
    ///
    /// Commit and Cancel are the field's own; every other edit goes to the
    /// field, which owns the caret, the selection and the digit filter.
    pub fn on_edit(&mut self, id: HotspotId, edit: Edit) -> (action: Action)
        ensures
            (final(self)@, action) == old(self)@.field_edited(id, edit),
            final(self)@.wf(),
    {
        proof {
            use_type_invariant(&self.interval);
        }
        if id.0 != HOT_INTERVAL {
            return Action::Nothing;
        }
        let change: FieldEdit = match edit {
            Edit::Insert(c) => FieldEdit::Insert(c),
            Edit::Backspace => FieldEdit::Backspace,
            Edit::Delete => FieldEdit::Delete,
            Edit::CaretLeft { extend } => FieldEdit::Left { extend },
            Edit::CaretRight { extend } => FieldEdit::Right { extend },
            Edit::CaretHome { extend } => FieldEdit::Home { extend },
            Edit::CaretEnd { extend } => FieldEdit::End { extend },
            Edit::SelectAll => FieldEdit::SelectAll,
            Edit::CaretTo { index, extend } => FieldEdit::CaretTo { index, extend },
            Edit::Commit => {
                return Action::Commit;
            },
            Edit::Cancel => {
                return Action::Cancel;
            },
            // Navigation and scrolling belong to an open list.
            Edit::Highlight(_) | Edit::Scroll(_) | Edit::ScrollTo(_) | Edit::Hover(_) => {
                return Action::Nothing;
            },
        };
        self.interval.apply(change);
        Action::Changed
    }

    /// Validates and writes into the live configuration. Returns false and sets
    /// the error when the interval is out of range, leaving the configuration
    /// untouched so a rejected edit cannot half-apply.
    pub fn apply_to(&mut self, cfg: &mut Config, locale: &Locale) -> (saved: bool)
        ensures
            saved == (old(self)@.interval_ms() is Some),
            saved ==> final(self)@ == (DraftView { error: None, ..old(self)@ }) && final(cfg)@
                == config_of(old(self)@),
            !saved ==> final(self)@ == (DraftView {
                error: Some(
                    filled(
                        locale.text(Key::SettingsInvalidInterval),
                        decimal(POLL_MIN_MS as nat),
                    ),
                ),
                ..old(self)@
            }) && *final(cfg) == *old(cfg),
            !saved ==> final(self)@.error == Some(refusal(*locale)),
    {
        let digits = trim(self.interval.text());
        let parsed: Option<u32> = parse_u32(digits.as_str());
        match parsed {
            Some(ms) => {
                if POLL_MIN_MS <= ms && ms <= POLL_MAX_MS {
                    self.error = None;
                    cfg.poll_interval_ms = ms;
                    cfg.switches = self.switches;
                    cfg.theme = self.theme.clone();
                    cfg.language = self.language.clone();
                    cfg.log_level = self.log_level;
                    return true;
                }
            },
            None => {},
        }
        let limit = decimal_text(POLL_MIN_MS);
        self.error = Some(locale.t1(Key::SettingsInvalidInterval, limit.as_str()));
        false
    }
}

fn dismissed_state(list: ListState, clicked: bool) -> (r: ListState)
    ensures
        r@ == list@.dismissed(clicked),
{
    if list.open && clicked {
        list
    } else {
        ListState { open: false, highlight: None, scroll: list.scroll }
    }
}

fn moved_state(list: ListState, to: usize) -> (r: ListState)
    ensures
        r@ == list@.moved(to as int),
{
    let scroll: usize = if to < list.scroll {
        to
    } else if to - list.scroll >= DROPDOWN_MAX_VISIBLE {
        to - (DROPDOWN_MAX_VISIBLE - 1)
    } else {
        list.scroll
    };
    ListState { open: list.open, highlight: Some(to), scroll }
}

/// The draft of a configuration.
pub open spec fn draft_of(cfg: ConfigView) -> DraftView {
    DraftView {
        interval: FieldView::holding(
            decimal(cfg.poll_interval_ms as nat),
            CharFilter::Digits,
            INTERVAL_MAX_DIGITS as int,
        ),
        switches: cfg.switches,
        theme: cfg.theme,
        language: cfg.language,
        log_level: cfg.log_level,
        error: None,
        lang: ListView::closed_at_top(),
        log: ListView::closed_at_top(),
        theme_list: ListView::closed_at_top(),
    }
}

/// The configuration a draft with a valid interval stands for.
pub open spec fn config_of(draft: DraftView) -> ConfigView {
    ConfigView {
        poll_interval_ms: draft.interval_ms()->0,
        theme: draft.theme,
        language: draft.language,
        log_level: draft.log_level,
        switches: draft.switches,
    }
}

/// Whatever is clicked, typed or scrolled, no two lists are ever showing at
/// once.
pub proof fn at_most_one_list_shows(
    draft: DraftView,
    id: HotspotId,
    edit: Edit,
    themes: Seq<Builtin>,
    languages: Seq<Language>,
)
    requires
        draft.one_list_at_most(),
    ensures
        draft.clicked(id, themes, languages).0.one_list_at_most(),
        draft.list_edited(id, edit, themes, languages).0.one_list_at_most(),
        draft.field_edited(id, edit).0.one_list_at_most(),
{
}

/// A click on one list's control opens it and shuts the others; a click
/// anywhere else that is not part of the open list shuts them all.
pub proof fn a_click_elsewhere_shuts_the_lists(
    draft: DraftView,
    id: HotspotId,
    themes: Seq<Builtin>,
    languages: Seq<Language>,
)
    requires
        id.as_option() is None,
        bar_step(id) is None,
    ensures
        ({
            let after = draft.clicked(id, themes, languages).0;
            &&& after.lang.open == (id == HotspotId(HOT_LANGUAGE) && !draft.lang.open)
            &&& after.log.open == (id == HotspotId(HOT_LOG_LEVEL) && !draft.log.open)
            &&& after.theme_list.open == (id == HotspotId(HOT_THEME) && !draft.theme_list.open)
        }),
{
}

/// Different ids name different switches.
proof fn a_switch_has_one_id(id: HotspotId, other: HotspotId)
    requires
        id != other,
        Switch::named(id) is Some,
    ensures
        Switch::named(id) != Switch::named(other),
{
}

proof fn a_switch_click_is_a_flip(
    draft: DraftView,
    id: HotspotId,
    themes: Seq<Builtin>,
    languages: Seq<Language>,
)
    requires
        draft.switches.get(id) is Some,
    ensures
        draft.clicked(id, themes, languages).0.switches == draft.switches.set(
            id,
            !draft.switches.get(id)->0,
        ),
        draft.clicked(id, themes, languages).1 == Action::Changed,
{
    assert(id.as_option() is None && bar_step(id) is None);
}

/// A click on a switch flips that switch and no other, and a second click puts
/// it back.
pub proof fn a_switch_toggles_itself_alone(
    draft: DraftView,
    id: HotspotId,
    other: HotspotId,
    themes: Seq<Builtin>,
    languages: Seq<Language>,
)
    requires
        draft.switches.get(id) is Some,
    ensures
        ({
            let once = draft.clicked(id, themes, languages);
            let twice = once.0.clicked(id, themes, languages);
            &&& once.1 == Action::Changed
            &&& once.0.switches.get(id) == Some(!draft.switches.get(id)->0)
            &&& other != id ==> once.0.switches.get(other) == draft.switches.get(other)
            &&& forall|switch: Switch| #[trigger]
                twice.0.switches.state(switch) == draft.switches.state(switch)
        }),
{
    let on = draft.switches.get(id)->0;
    let once = draft.clicked(id, themes, languages).0;
    a_switch_click_is_a_flip(draft, id, themes, languages);
    let switch = Switch::named(id)->0;
    a_set_switch_reads_back(draft.switches, switch, !on);
    if other != id {
        a_switch_has_one_id(id, other);
        if Switch::named(other) is Some {
            a_set_switch_leaves_the_others(draft.switches, switch, !on, Switch::named(other)->0);
        }
    }
    a_switch_click_is_a_flip(once, id, themes, languages);
    let twice = once.clicked(id, themes, languages).0;
    assert forall|any: Switch| #[trigger]
        twice.switches.state(any) == draft.switches.state(any) by {
        if any == switch {
            a_set_switch_reads_back(once.switches, switch, on);
        } else {
            a_set_switch_leaves_the_others(draft.switches, switch, !on, any);
            a_set_switch_leaves_the_others(once.switches, switch, on, any);
        }
    }
}

/// The state a checkbox row draws is the state of the switch a click on it
/// flips.
pub proof fn a_checkbox_draws_the_switch_it_toggles(
    draft: DraftView,
    locale: Locale,
    critical: Color,
    themes: Seq<Builtin>,
    languages: Seq<Language>,
    i: int,
)
    requires
        0 <= i < dialog_rows(draft, locale, critical, themes, languages).len(),
    ensures
        dialog_rows(draft, locale, critical, themes, languages)[i] matches RowView::Checkbox {
            checked,
            id,
            ..
        } ==> draft.switches.get(id) == Some(checked),
{
    reveal(Switches::state);
    let head = head_rows(draft, locale, themes, languages);
    let rows = dialog_rows(draft, locale, critical, themes, languages);
    assert(head.len() == 10);
    if i >= 10 && draft.switches.notifications_enabled && i < 22 {
        assert(rows[i] == switch_rows(draft.switches, locale)[i - 10]);
        assert(switch_table()[i - 10].1 == HotspotId(HOT_POWER_FAILURE) || switch_table()[i - 10].1
            == HotspotId(HOT_POWER_RESTORED) || switch_table()[i - 10].1 == HotspotId(
            HOT_LOW_BATTERY,
        ) || switch_table()[i - 10].1 == HotspotId(HOT_RUNTIME_LIMIT) || switch_table()[i - 10].1
            == HotspotId(HOT_VOLTAGE_OUT_OF_RANGE) || switch_table()[i - 10].1 == HotspotId(
            HOT_FREQUENCY_OUT_OF_RANGE,
        ) || switch_table()[i - 10].1 == HotspotId(HOT_BOOST_STARTED) || switch_table()[i - 10].1
            == HotspotId(HOT_BOOST_ENDED) || switch_table()[i - 10].1 == HotspotId(
            HOT_DEVICE_FAULT,
        ) || switch_table()[i - 10].1 == HotspotId(HOT_OVERLOAD) || switch_table()[i - 10].1
            == HotspotId(HOT_CONNECTION_LOST) || switch_table()[i - 10].1 == HotspotId(
            HOT_CONNECTION_RESTORED,
        ));
    }
}

/// Every event has a switch of its own: twelve kinds, twelve ids, none shared.
pub proof fn every_event_has_its_own_switch()
    ensures
        switch_table().len() == 12,
        forall|i: int, j: int|
            0 <= i < j < 12 ==> (#[trigger] switch_table()[i]).0 != (
            #[trigger] switch_table()[j]).0 && switch_table()[i].1 != switch_table()[j].1,
{
}

/// The dialog ends in its one row of buttons, and shows the per-event switches
/// exactly while notifications are on and a warning exactly while there is one.
pub proof fn the_dialog_has_one_row_of_buttons(
    draft: DraftView,
    locale: Locale,
    critical: Color,
    themes: Seq<Builtin>,
    languages: Seq<Language>,
)
    ensures
        ({
            let rows = dialog_rows(draft, locale, critical, themes, languages);
            &&& rows.len() == 11 + (if draft.switches.notifications_enabled { 12int } else { 0 })
                + (if draft.error is Some { 3int } else { 0 })
            &&& rows.last() == button_row(locale)
            &&& forall|i: int| 0 <= i < rows.len() - 1 ==> !((#[trigger] rows[i]) is Buttons)
        }),
{
    let rows = dialog_rows(draft, locale, critical, themes, languages);
    let head = head_rows(draft, locale, themes, languages);
    assert(head.len() == 10);
    assert(switch_table().len() == 12);
    let switches = if draft.switches.notifications_enabled {
        switch_rows(draft.switches, locale)
    } else {
        seq![]
    };
    let warning = error_rows(draft.error, critical);
    assert forall|i: int| 0 <= i < rows.len() - 1 implies !((#[trigger] rows[i]) is Buttons) by {
        if i < 10 {
            assert(rows[i] == head[i]);
        } else if i < 10 + switches.len() {
            assert(rows[i] == switches[i - 10]);
        } else {
            assert(rows[i] == warning[i - 10 - switches.len()]);
        }
    }
}

/// A list that is not showing ignores every edit.
pub proof fn a_closed_list_ignores_edits(
    draft: DraftView,
    id: HotspotId,
    edit: Edit,
    themes: Seq<Builtin>,
    languages: Seq<Language>,
)
    requires
        draft.list(id) matches Some(list) ==> !list.open,
    ensures
        draft.list_edited(id, edit, themes, languages) == (draft, Action::Nothing),
{
}

/// After a key moves the highlight it is on an option of the list and on
/// screen, and the view is still one the list can be scrolled to.
pub proof fn the_highlight_stays_on_screen(list: ListView, mv: crate::row::Move, count: int)
    requires
        count > 0,
        list.scroll >= 0,
        list.highlight matches Some(i) ==> i >= 0,
    ensures
        ({
            let to = mv.lands(list.at(count), count);
            let after = list.moved(to);
            &&& after.highlight == Some(to)
            &&& 0 <= to < count
            &&& after.scroll <= to < after.scroll + DROPDOWN_MAX_VISIBLE
            &&& after.scroll >= 0
            &&& list.scroll <= last_offset(count) ==> after.scroll <= last_offset(count)
            &&& after.open == list.open
        }),
{
}

/// The pointer moves the highlight and never the view; the wheel and the thumb
/// move the view, within the list, and never the highlight.
pub proof fn pointing_never_scrolls(
    draft: DraftView,
    id: HotspotId,
    edit: Edit,
    themes: Seq<Builtin>,
    languages: Seq<Language>,
)
    requires
        draft.list(id) is Some,
        options_in(id, themes, languages)->0 > 0,
        draft.list(id)->0.open,
        edit is Hover || edit is Scroll || edit is ScrollTo,
    ensures
        ({
            let count = options_in(id, themes, languages)->0;
            let before = draft.list(id)->0;
            let after = draft.list_edited(id, edit, themes, languages).0.list(id)->0;
            &&& after.open
            &&& edit is Hover ==> after.scroll == before.scroll && after.highlight->0 < count
            &&& !(edit is Hover) ==> after.highlight == before.highlight && 0 <= after.scroll
                <= last_offset(count)
        }),
{
}

/// A list opens on its current choice, and the choice is in view.
pub proof fn a_list_opens_on_the_current_choice(list: ListView, current: int, count: int)
    requires
        !list.open,
        0 <= current < count,
    ensures
        ({
            let after = list.toggled(current);
            let first = smaller(after.scroll, last_offset(count));
            &&& after.open
            &&& after.highlight == Some(current)
            &&& first <= current < first + DROPDOWN_MAX_VISIBLE
        }),
{
}

/// Moving through a list commits nothing: until an option is chosen the
/// language, the theme, the level and every switch are what they were.
pub proof fn only_choosing_changes_a_value(
    draft: DraftView,
    id: HotspotId,
    edit: Edit,
    themes: Seq<Builtin>,
    languages: Seq<Language>,
)
    requires
        !(edit is Commit),
    ensures
        ({
            let after = draft.list_edited(id, edit, themes, languages).0;
            &&& after.language == draft.language
            &&& after.theme == draft.theme
            &&& after.log_level == draft.log_level
            &&& after.switches == draft.switches
            &&& after.interval == draft.interval
        }),
{
}

/// Choosing with the keyboard is choosing with the pointer: Enter on the
/// highlighted option does what a click on it does.
pub proof fn enter_chooses_what_a_click_chooses(
    draft: DraftView,
    id: HotspotId,
    themes: Seq<Builtin>,
    languages: Seq<Language>,
)
    requires
        draft.list(id) is Some,
        draft.list(id)->0.open,
        draft.list(id)->0.highlight matches Some(i) ==> i >= 0,
        0 < options_in(id, themes, languages)->0 < 100,
    ensures
        ({
            let count = options_in(id, themes, languages)->0;
            let option = HotspotId(id.option_number(draft.list(id)->0.at(count)) as u32);
            draft.list_edited(id, Edit::Commit, themes, languages) == draft.clicked(
                option,
                themes,
                languages,
            )
        }),
{
    let count = options_in(id, themes, languages)->0;
    let at = draft.list(id)->0.at(count);
    assert(0 <= at < 100);
    crate::row::option_ids_split_back(id, at);
}

/// Opening the dialog on a valid configuration and pressing OK writes back
/// exactly that configuration.
pub proof fn an_untouched_draft_saves_what_it_was_opened_on(cfg: ConfigView)
    requires
        POLL_MIN_MS <= cfg.poll_interval_ms <= POLL_MAX_MS,
    ensures
        draft_of(cfg).interval_ms() == Some(cfg.poll_interval_ms),
        config_of(draft_of(cfg)) == cfg,
        draft_of(cfg).one_list_at_most(),
{
    decimal_is_tight(cfg.poll_interval_ms as nat);
    decimal_reads_back(cfg.poll_interval_ms);
}

/// Whether the highlight of a list of `count` options is on one of them; on the
/// first place when there is none.
pub open spec fn is_on_an_option(list: ListView, count: int) -> bool {
    list.highlight matches Some(i) ==> 0 <= i && (i < count || i == 0)
}

/// Whether the highlight of every list of a draft is on one of its options.
pub open spec fn highlights_hold(
    draft: DraftView,
    themes: Seq<Builtin>,
    languages: Seq<Language>,
) -> bool {
    &&& is_on_an_option(draft.lang, languages.len() as int)
    &&& is_on_an_option(draft.log, 2)
    &&& is_on_an_option(draft.theme_list, themes.len() as int)
}

proof fn a_position_is_in_the_list(codes: Seq<Seq<char>>, code: Seq<char>)
    ensures
        0 <= position_of(codes, code),
        position_of(codes, code) < codes.len() || position_of(codes, code) == 0,
        found_at(codes, code) matches Some(i) ==> 0 <= i < codes.len() && codes[i] == code,
    decreases codes.len(),
{
    if codes.len() > 0 && codes[0] != code {
        a_position_is_in_the_list(codes.skip(1), code);
    }
}

/// An edit of a list leaves every highlight on an option of its list.
pub proof fn no_edit_moves_a_highlight_off_its_list(
    draft: DraftView,
    id: HotspotId,
    edit: Edit,
    themes: Seq<Builtin>,
    languages: Seq<Language>,
)
    requires
        highlights_hold(draft, themes, languages),
    ensures
        highlights_hold(draft.list_edited(id, edit, themes, languages).0, themes, languages),
{
    match (options_in(id, themes, languages), draft.list(id)) {
        (Some(count), Some(list)) => if list.open && count > 0 {
            if let Edit::Highlight(mv) = edit {
                assert(0 <= mv.lands(list.at(count), count) < count);
            }
        },
        _ => {},
    }
}

/// A click that is on no option and on no scrollbar leaves every highlight on
/// an option of its list.
proof fn a_plain_click_keeps_the_highlights(
    draft: DraftView,
    id: HotspotId,
    themes: Seq<Builtin>,
    languages: Seq<Language>,
)
    requires
        highlights_hold(draft, themes, languages),
        id.as_option() is None,
        bar_step(id) is None,
    ensures
        highlights_hold(draft.clicked(id, themes, languages).0, themes, languages),
{
    a_position_is_in_the_list(theme_codes(themes), draft.theme);
    a_position_is_in_the_list(language_codes(languages), draft.language);
    let rest = draft.dismissed(id);
    assert(highlights_hold(rest, themes, languages));
}

/// A click leaves every highlight on an option of its list, and a dialog opens
/// with none.
pub proof fn no_click_moves_a_highlight_off_its_list(
    draft: DraftView,
    id: HotspotId,
    themes: Seq<Builtin>,
    languages: Seq<Language>,
    cfg: ConfigView,
)
    requires
        highlights_hold(draft, themes, languages),
    ensures
        highlights_hold(draft.clicked(id, themes, languages).0, themes, languages),
        highlights_hold(draft_of(cfg), themes, languages),
{
    match id.as_option() {
        Some((base, index)) => {
            assert(highlights_hold(
                draft.chosen(base, index, themes, languages).0,
                themes,
                languages,
            ));
        },
        None => match bar_step(id) {
            Some(step) => {
                if step is Some && draft.showing() is Some {
                    no_edit_moves_a_highlight_off_its_list(
                        draft,
                        draft.showing()->0,
                        Edit::Scroll(step->0),
                        themes,
                        languages,
                    );
                }
            },
            None => {
                a_plain_click_keeps_the_highlights(draft, id, themes, languages);
            },
        },
    }
}

/// Every list shows as many options as an edit of it counts, and the option it
/// marks as selected is the draft's value wherever the list holds that value.
pub proof fn a_list_shows_what_its_edits_count(
    draft: DraftView,
    locale: Locale,
    themes: Seq<Builtin>,
    languages: Seq<Language>,
)
    ensures
        ({
            let rows = head_rows(draft, locale, themes, languages);
            &&& rows[3] matches RowView::Dropdown { options, id, selected, .. } && options_in(
                id,
                themes,
                languages,
            ) == Some(options.len() as int) && (found_at(
                language_codes(languages),
                draft.language,
            ) is Some ==> languages[selected].code@ == draft.language)
            &&& rows[4] matches RowView::Dropdown { options, id, selected, .. } && options_in(
                id,
                themes,
                languages,
            ) == Some(options.len() as int) && (found_at(theme_codes(themes), draft.theme)
                is Some ==> themes[selected].code_text() == draft.theme)
            &&& rows[5] matches RowView::Dropdown { options, id, selected, .. } && options_in(
                id,
                themes,
                languages,
            ) == Some(options.len() as int) && LogLevel::at(selected) == draft.log_level
        }),
{
    a_position_is_in_the_list(theme_codes(themes), draft.theme);
    a_position_is_in_the_list(language_codes(languages), draft.language);
}

/// What a refused interval is answered with: the shortest one that is accepted.
pub open spec fn refusal(locale: Locale) -> Seq<char> {
    filled(locale.text(Key::SettingsInvalidInterval), decimal(POLL_MIN_MS as nat))
}

} // verus!
