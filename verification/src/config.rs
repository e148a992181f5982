//! The configuration the settings dialog edits.

use crate::strings::Key;
use vstd::prelude::*;

verus! {

/// Shortest interval between two polls, in milliseconds.
pub const POLL_MIN_MS: u32 = 1_000;

/// Longest interval between two polls, in milliseconds.
pub const POLL_MAX_MS: u32 = 60_000;

/// How much the log says.
#[derive(Debug, Clone, Copy, PartialEq, Eq, Structural)]
pub enum LogLevel {
    Normal,
    Debug,
}

impl LogLevel {
    /// Every level, in the order the settings list shows them.
    pub const ALL: [LogLevel; 2] = [LogLevel::Normal, LogLevel::Debug];

    /// The position of the level in that list.
    pub open spec fn place(self) -> int {
        match self {
            LogLevel::Normal => 0,
            LogLevel::Debug => 1,
        }
    }

    /// The level at a position of that list.
    pub open spec fn at(place: int) -> LogLevel {
        if place == 0 {
            LogLevel::Normal
        } else {
            LogLevel::Debug
        }
    }

    /// The name the settings list shows it under.
    pub open spec fn title(self) -> Key {
        match self {
            LogLevel::Normal => Key::SettingsLogNormal,
            LogLevel::Debug => Key::SettingsLogDebug,
        }
    }

    /// The key of the localised name shown in the settings list.
    pub fn lang_key(self) -> (k: Key)
        ensures
            k == self.title(),
    {
        match self {
            LogLevel::Normal => Key::SettingsLogNormal,
            LogLevel::Debug => Key::SettingsLogDebug,
        }
    }
}

/// The on/off switches of a configuration.
#[derive(Debug, Clone, Copy, PartialEq, Eq, Structural)]
pub struct Switches {
    pub start_minimized: bool,
    /// The master switch of the notifications below.
    pub notifications_enabled: bool,
    pub on_power_failure: bool,
    pub on_power_restored: bool,
    pub on_low_battery: bool,
    pub on_device_fault: bool,
    pub on_overload: bool,
    pub on_voltage_out_of_range: bool,
    pub on_frequency_out_of_range: bool,
    pub on_runtime_limit: bool,
    pub on_connection_lost: bool,
    pub on_connection_restored: bool,
    pub on_boost_started: bool,
    pub on_boost_ended: bool,
}

/// One of the on/off switches.
#[derive(Debug, Clone, Copy, PartialEq, Eq, Structural)]
pub enum Switch {
    StartMinimized,
    Notifications,
    PowerFailure,
    PowerRestored,
    LowBattery,
    DeviceFault,
    Overload,
    VoltageOutOfRange,
    FrequencyOutOfRange,
    RuntimeLimit,
    ConnectionLost,
    ConnectionRestored,
    BoostStarted,
    BoostEnded,
}

impl Switches {
    /// The state of one switch.
    #[verifier::opaque]
    pub open spec fn state(self, switch: Switch) -> bool {
        match switch {
            Switch::StartMinimized => self.start_minimized,
            Switch::Notifications => self.notifications_enabled,
            Switch::PowerFailure => self.on_power_failure,
            Switch::PowerRestored => self.on_power_restored,
            Switch::LowBattery => self.on_low_battery,
            Switch::DeviceFault => self.on_device_fault,
            Switch::Overload => self.on_overload,
            Switch::VoltageOutOfRange => self.on_voltage_out_of_range,
            Switch::FrequencyOutOfRange => self.on_frequency_out_of_range,
            Switch::RuntimeLimit => self.on_runtime_limit,
            Switch::ConnectionLost => self.on_connection_lost,
            Switch::ConnectionRestored => self.on_connection_restored,
            Switch::BoostStarted => self.on_boost_started,
            Switch::BoostEnded => self.on_boost_ended,
        }
    }

    /// With one switch set.
    #[verifier::opaque]
    pub open spec fn with(self, switch: Switch, on: bool) -> Switches {
        match switch {
            Switch::StartMinimized => Switches { start_minimized: on, ..self },
            Switch::Notifications => Switches { notifications_enabled: on, ..self },
            Switch::PowerFailure => Switches { on_power_failure: on, ..self },
            Switch::PowerRestored => Switches { on_power_restored: on, ..self },
            Switch::LowBattery => Switches { on_low_battery: on, ..self },
            Switch::DeviceFault => Switches { on_device_fault: on, ..self },
            Switch::Overload => Switches { on_overload: on, ..self },
            Switch::VoltageOutOfRange => Switches { on_voltage_out_of_range: on, ..self },
            Switch::FrequencyOutOfRange => Switches { on_frequency_out_of_range: on, ..self },
            Switch::RuntimeLimit => Switches { on_runtime_limit: on, ..self },
            Switch::ConnectionLost => Switches { on_connection_lost: on, ..self },
            Switch::ConnectionRestored => Switches { on_connection_restored: on, ..self },
            Switch::BoostStarted => Switches { on_boost_started: on, ..self },
            Switch::BoostEnded => Switches { on_boost_ended: on, ..self },
        }
    }

    /// The state of one switch.
    pub fn read(&self, switch: Switch) -> (on: bool)
        ensures
            on == self.state(switch),
    {
        proof {
            reveal(Switches::state);
        }
        match switch {
            Switch::StartMinimized => self.start_minimized,
            Switch::Notifications => self.notifications_enabled,
            Switch::PowerFailure => self.on_power_failure,
            Switch::PowerRestored => self.on_power_restored,
            Switch::LowBattery => self.on_low_battery,
            Switch::DeviceFault => self.on_device_fault,
            Switch::Overload => self.on_overload,
            Switch::VoltageOutOfRange => self.on_voltage_out_of_range,
            Switch::FrequencyOutOfRange => self.on_frequency_out_of_range,
            Switch::RuntimeLimit => self.on_runtime_limit,
            Switch::ConnectionLost => self.on_connection_lost,
            Switch::ConnectionRestored => self.on_connection_restored,
            Switch::BoostStarted => self.on_boost_started,
            Switch::BoostEnded => self.on_boost_ended,
        }
    }

    /// The same switches with one of them set.
    pub fn written(self, switch: Switch, on: bool) -> (r: Switches)
        ensures
            r == self.with(switch, on),
    {
        proof {
            reveal(Switches::with);
        }
        match switch {
            Switch::StartMinimized => Switches { start_minimized: on, ..self },
            Switch::Notifications => Switches { notifications_enabled: on, ..self },
            Switch::PowerFailure => Switches { on_power_failure: on, ..self },
            Switch::PowerRestored => Switches { on_power_restored: on, ..self },
            Switch::LowBattery => Switches { on_low_battery: on, ..self },
            Switch::DeviceFault => Switches { on_device_fault: on, ..self },
            Switch::Overload => Switches { on_overload: on, ..self },
            Switch::VoltageOutOfRange => Switches { on_voltage_out_of_range: on, ..self },
            Switch::FrequencyOutOfRange => Switches { on_frequency_out_of_range: on, ..self },
            Switch::RuntimeLimit => Switches { on_runtime_limit: on, ..self },
            Switch::ConnectionLost => Switches { on_connection_lost: on, ..self },
            Switch::ConnectionRestored => Switches { on_connection_restored: on, ..self },
            Switch::BoostStarted => Switches { on_boost_started: on, ..self },
            Switch::BoostEnded => Switches { on_boost_ended: on, ..self },
        }
    }
}

/// A switch that was set reads as it was set.
#[verifier::rlimit(40)]
pub proof fn a_set_switch_reads_back(switches: Switches, switch: Switch, on: bool)
    ensures
        switches.with(switch, on).state(switch) == on,
{
    reveal(Switches::state);
    reveal(Switches::with);
    match switch {
        Switch::StartMinimized => {},
        Switch::Notifications => {},
        Switch::PowerFailure => {},
        Switch::PowerRestored => {},
        Switch::LowBattery => {},
        Switch::DeviceFault => {},
        Switch::Overload => {},
        Switch::VoltageOutOfRange => {},
        Switch::FrequencyOutOfRange => {},
        Switch::RuntimeLimit => {},
        Switch::ConnectionLost => {},
        Switch::ConnectionRestored => {},
        Switch::BoostStarted => {},
        Switch::BoostEnded => {},
    }
}

/// Setting one switch leaves every other one as it was.
#[verifier::rlimit(40)]
#[verifier::spinoff_prover]
pub proof fn a_set_switch_leaves_the_others(
    switches: Switches,
    switch: Switch,
    on: bool,
    other: Switch,
)
    requires
        other != switch,
    ensures
        switches.with(switch, on).state(other) == switches.state(other),
{
    reveal(Switches::state);
    reveal(Switches::with);
    match switch {
        Switch::StartMinimized => {},
        Switch::Notifications => {},
        Switch::PowerFailure => {},
        Switch::PowerRestored => {},
        Switch::LowBattery => {},
        Switch::DeviceFault => {},
        Switch::Overload => {},
        Switch::VoltageOutOfRange => {},
        Switch::FrequencyOutOfRange => {},
        Switch::RuntimeLimit => {},
        Switch::ConnectionLost => {},
        Switch::ConnectionRestored => {},
        Switch::BoostStarted => {},
        Switch::BoostEnded => {},
    }
}

/// Everything the user can configure.
#[derive(Debug, PartialEq)]
pub struct Config {
    pub poll_interval_ms: u32,
    pub theme: String,
    pub language: String,
    pub log_level: LogLevel,
    pub switches: Switches,
}

/// What a configuration says.
pub struct ConfigView {
    pub poll_interval_ms: u32,
    pub theme: Seq<char>,
    pub language: Seq<char>,
    pub log_level: LogLevel,
    pub switches: Switches,
}

impl View for Config {
    type V = ConfigView;

    open spec fn view(&self) -> ConfigView {
        ConfigView {
            poll_interval_ms: self.poll_interval_ms,
            theme: self.theme@,
            language: self.language@,
            log_level: self.log_level,
            switches: self.switches,
        }
    }
}

/// A level stands in the list of levels at its own place, and what stands at a
/// place is the level of that place.
pub proof fn a_level_stands_at_its_place(level: LogLevel)
    ensures
        0 <= level.place() < LogLevel::ALL@.len(),
        LogLevel::ALL@[level.place()] == level,
        LogLevel::at(level.place()) == level,
        LogLevel::Normal.title() == Key::SettingsLogNormal,
        LogLevel::Debug.title() == Key::SettingsLogDebug,
{
}

/// Each switch is the field of its own name.
#[verifier::spinoff_prover]
pub proof fn each_switch_is_its_own_field(s: Switches)
    ensures
        s.state(Switch::StartMinimized) == s.start_minimized,
        s.state(Switch::Notifications) == s.notifications_enabled,
        s.state(Switch::PowerFailure) == s.on_power_failure,
        s.state(Switch::PowerRestored) == s.on_power_restored,
        s.state(Switch::LowBattery) == s.on_low_battery,
        s.state(Switch::DeviceFault) == s.on_device_fault,
        s.state(Switch::Overload) == s.on_overload,
        s.state(Switch::VoltageOutOfRange) == s.on_voltage_out_of_range,
        s.state(Switch::FrequencyOutOfRange) == s.on_frequency_out_of_range,
        s.state(Switch::RuntimeLimit) == s.on_runtime_limit,
        s.state(Switch::ConnectionLost) == s.on_connection_lost,
        s.state(Switch::ConnectionRestored) == s.on_connection_restored,
        s.state(Switch::BoostStarted) == s.on_boost_started,
        s.state(Switch::BoostEnded) == s.on_boost_ended,
{
    reveal(Switches::state);
}

/// Writing to a switch what it already says changes nothing.
#[verifier::spinoff_prover]
pub proof fn rewriting_a_switch_changes_nothing(s: Switches, switch: Switch)
    ensures
        s.with(switch, s.state(switch)) == s,
{
    reveal(Switches::state);
    reveal(Switches::with);
}

/// The interval between two polls is from a second to a minute.
pub proof fn the_interval_is_a_second_to_a_minute()
    ensures
        POLL_MIN_MS == 1_000,
        POLL_MAX_MS == 60 * POLL_MIN_MS,
{
}

} // verus!
