//! The events a user can be notified of.

use crate::strings::Key;
use vstd::prelude::*;

verus! {

/// One kind of event, in the order the settings dialog lists them: what the
/// mains does first, the device's own faults after it, the connection last.
#[derive(Debug, Clone, Copy, PartialEq, Eq, Structural)]
pub enum EventKind {
    PowerFailure,
    PowerRestored,
    LowBattery,
    RuntimeLimitExpired,
    VoltageOutOfRange,
    FrequencyOutOfRange,
    BoostStarted,
    BoostEnded,
    DeviceFault,
    Overload,
    Disconnected,
    Reconnected,
}

impl EventKind {
    /// The name of the switch that gates the event.
    pub open spec fn switch_name(self) -> Key {
        match self {
            EventKind::PowerFailure => Key::SettingsOnPowerFailure,
            EventKind::PowerRestored => Key::SettingsOnPowerRestored,
            EventKind::LowBattery => Key::SettingsOnLowBattery,
            EventKind::RuntimeLimitExpired => Key::SettingsOnRuntimeLimit,
            EventKind::VoltageOutOfRange => Key::SettingsOnVoltageOutOfRange,
            EventKind::FrequencyOutOfRange => Key::SettingsOnFrequencyOutOfRange,
            EventKind::BoostStarted => Key::SettingsOnBoostStarted,
            EventKind::BoostEnded => Key::SettingsOnBoostEnded,
            EventKind::DeviceFault => Key::SettingsOnDeviceFault,
            EventKind::Overload => Key::SettingsOnOverload,
            EventKind::Disconnected => Key::SettingsOnConnectionLost,
            EventKind::Reconnected => Key::SettingsOnConnectionRestored,
        }
    }

    /// The name of the switch that gates the event.
    pub fn switch_key(self) -> (k: Key)
        ensures
            k == self.switch_name(),
    {
        match self {
            EventKind::PowerFailure => Key::SettingsOnPowerFailure,
            EventKind::PowerRestored => Key::SettingsOnPowerRestored,
            EventKind::LowBattery => Key::SettingsOnLowBattery,
            EventKind::RuntimeLimitExpired => Key::SettingsOnRuntimeLimit,
            EventKind::VoltageOutOfRange => Key::SettingsOnVoltageOutOfRange,
            EventKind::FrequencyOutOfRange => Key::SettingsOnFrequencyOutOfRange,
            EventKind::BoostStarted => Key::SettingsOnBoostStarted,
            EventKind::BoostEnded => Key::SettingsOnBoostEnded,
            EventKind::DeviceFault => Key::SettingsOnDeviceFault,
            EventKind::Overload => Key::SettingsOnOverload,
            EventKind::Disconnected => Key::SettingsOnConnectionLost,
            EventKind::Reconnected => Key::SettingsOnConnectionRestored,
        }
    }
}

} // verus!
