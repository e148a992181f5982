//! The names of the interface's texts, and of the languages they come in.

use vstd::prelude::*;

verus! {

/// One text of the interface, whatever language it is shown in.
#[derive(Debug, Clone, Copy, PartialEq, Eq, Structural)]
pub enum Key {
    PanelTitle,
    PanelGroupInput,
    PanelGroupOutput,
    PanelGroupBattery,
    PanelGroupStatus,
    PanelGroupDevice,
    PanelState,
    PanelInputVoltage,
    PanelInputNominal,
    PanelTransferWindow,
    PanelOutputVoltage,
    PanelLoadPercent,
    PanelLoadWatts,
    PanelLoadVa,
    PanelCharge,
    PanelBatteryVoltage,
    PanelBatteryNominal,
    PanelRuntime,
    PanelChargeState,
    PanelCapacityLimit,
    PanelWarningCapacity,
    PanelRuntimeLimit,
    PanelModel,
    PanelFirmware,
    PanelSerial,
    PanelNominalPower,
    PanelManufacturer,
    PanelBeeper,
    PanelChemistry,
    PanelLastTest,
    PanelSelfTest,
    MenuSettings,
    StateDisconnected,
    StateOnline,
    StateOnBattery,
    StateFullyCharged,
    StateCharging,
    StateDischarging,
    StateIdle,
    ErrorDeviceNotFound,
    ErrorDeviceNotFoundHint,
    UnitVolt,
    UnitWatt,
    UnitVoltAmp,
    UnitPercent,
    UnitMinutes,
    FlagLowBattery,
    FlagRuntimeLimitExpired,
    FlagInternalFailure,
    FlagOverload,
    FlagVoltageOutOfRange,
    FlagFrequencyOutOfRange,
    FlagBoost,
    BeeperUnsupported,
    BeeperDisabled,
    BeeperEnabled,
    BeeperMuted,
    BeeperEnable,
    BeeperDisable,
    TestTestPassed,
    TestTestPassedWarning,
    TestTestError,
    TestTestAborted,
    TestTestInProgress,
    TestTestNotRun,
    TestTestScheduled,
    TestTestUnknown,
    SettingsTitle,
    SettingsPollInterval,
    SettingsLanguage,
    SettingsTheme,
    SettingsLogLevel,
    SettingsLogNormal,
    SettingsLogDebug,
    SettingsStartMinimized,
    SettingsNotifications,
    SettingsOnPowerFailure,
    SettingsOnPowerRestored,
    SettingsOnLowBattery,
    SettingsOnRuntimeLimit,
    SettingsOnDeviceFault,
    SettingsOnOverload,
    SettingsOnVoltageOutOfRange,
    SettingsOnFrequencyOutOfRange,
    SettingsOnBoostStarted,
    SettingsOnBoostEnded,
    SettingsOnConnectionLost,
    SettingsOnConnectionRestored,
    SettingsOk,
    SettingsCancel,
    SettingsInvalidInterval,
    ThemeDark,
    ThemeLight,
}

/// One language the interface can be shown in.
#[derive(Debug, Clone, Copy)]
pub struct Language {
    /// The stable identifier the configuration stores.
    pub code: &'static str,
    /// The language's name in English.
    pub english_name: &'static str,
    /// The language's name in itself.
    pub native_name: &'static str,
    /// The font family its script needs, `None` when the interface font covers
    /// it.
    pub font: Option<&'static str>,
}

} // verus!
