//! What the device has reported, as the interface reads it.
//!
//! Every value that may fail to read is optional: absence means the utility has
//! no value right now, never zero.

use crate::strings::Key;
use vstd::prelude::*;

verus! {

/// The charge a self-test needs, in percent.
pub const MIN_CHARGE_PERCENT: u32 = 90;

/// The outcome of the last self-test, as the device's own register reports it.
#[derive(Debug, Clone, Copy, PartialEq, Eq, Structural)]
pub enum TestResult {
    Passed,
    PassedWithWarning,
    Error,
    Aborted,
    InProgress,
    NotRun,
    Scheduled,
    Unknown,
}

impl TestResult {
    /// The name the panel shows the outcome under.
    pub open spec fn title(self) -> Key {
        match self {
            TestResult::Passed => Key::TestTestPassed,
            TestResult::PassedWithWarning => Key::TestTestPassedWarning,
            TestResult::Error => Key::TestTestError,
            TestResult::Aborted => Key::TestTestAborted,
            TestResult::InProgress => Key::TestTestInProgress,
            TestResult::NotRun => Key::TestTestNotRun,
            TestResult::Scheduled => Key::TestTestScheduled,
            TestResult::Unknown => Key::TestTestUnknown,
        }
    }

    /// The key of the localised name of the outcome.
    pub fn lang_key(self) -> (k: Key)
        ensures
            k == self.title(),
    {
        match self {
            TestResult::Passed => Key::TestTestPassed,
            TestResult::PassedWithWarning => Key::TestTestPassedWarning,
            TestResult::Error => Key::TestTestError,
            TestResult::Aborted => Key::TestTestAborted,
            TestResult::InProgress => Key::TestTestInProgress,
            TestResult::NotRun => Key::TestTestNotRun,
            TestResult::Scheduled => Key::TestTestScheduled,
            TestResult::Unknown => Key::TestTestUnknown,
        }
    }
}

/// One buzzer mode, as the device layer describes it: what it is called, and
/// what the action that changes it is called, where there is one.
#[derive(Debug, Clone, Copy, PartialEq, Eq, Structural)]
pub struct Beeper {
    pub name: Key,
    pub action: Option<Key>,
}

/// What is known about the buzzer mode.
#[derive(Debug, Clone, Copy, PartialEq, Eq, Structural)]
pub enum BeeperView {
    /// Nothing has ever been observed.
    Unknown,
    /// The mode as last observed.
    Current(Beeper),
    /// The mode before an observation that failed.
    Stale(Beeper),
}

/// Whether there is a device to talk to.
#[derive(Debug, Clone, Copy, PartialEq, Eq, Structural)]
pub enum Presence {
    /// Nothing has been looked for yet.
    Unprobed,
    /// Looked for and not found.
    Absent,
    /// Found and open.
    Open,
}

/// One poll of the device.
///
/// Mains voltages are in whole volts and battery voltages in tenths of a volt,
/// which is what the panel shows of them.
#[derive(Debug, Clone, Copy)]
pub struct Reading {
    pub input_voltage: Option<i32>,
    pub input_nominal_voltage: Option<i32>,
    pub low_transfer_voltage: Option<i32>,
    pub high_transfer_voltage: Option<i32>,
    pub output_voltage: Option<i32>,
    pub load_percent: Option<u32>,
    pub load_watts: Option<u32>,
    pub load_va: Option<u32>,
    pub charge_percent: Option<u32>,
    pub battery_decivolts: Option<i32>,
    pub battery_nominal_decivolts: Option<i32>,
    pub runtime_seconds: Option<u32>,
    pub capacity_limit_percent: Option<u32>,
    pub warning_capacity_percent: Option<u32>,
    pub runtime_limit_seconds: Option<u32>,
    pub nominal_va: Option<u32>,
    pub nominal_power_w: Option<u32>,
    pub ac_present: Option<bool>,
    pub fully_charged: Option<bool>,
    pub charging: Option<bool>,
    pub discharging: Option<bool>,
    pub below_capacity_limit: Option<bool>,
    pub runtime_limit_expired: Option<bool>,
    pub internal_failure: Option<bool>,
    pub overload: Option<bool>,
    pub voltage_out_of_range: Option<bool>,
    pub frequency_out_of_range: Option<bool>,
    pub boost: Option<bool>,
    pub test_result: Option<TestResult>,
}

impl Default for Reading {
    /// A reading in which nothing has read.
    fn default() -> (r: Reading)
        ensures
            r == Reading::unread(),
    {
        Reading {
            input_voltage: None,
            input_nominal_voltage: None,
            low_transfer_voltage: None,
            high_transfer_voltage: None,
            output_voltage: None,
            load_percent: None,
            load_watts: None,
            load_va: None,
            charge_percent: None,
            battery_decivolts: None,
            battery_nominal_decivolts: None,
            runtime_seconds: None,
            capacity_limit_percent: None,
            warning_capacity_percent: None,
            runtime_limit_seconds: None,
            nominal_va: None,
            nominal_power_w: None,
            ac_present: None,
            fully_charged: None,
            charging: None,
            discharging: None,
            below_capacity_limit: None,
            runtime_limit_expired: None,
            internal_failure: None,
            overload: None,
            voltage_out_of_range: None,
            frequency_out_of_range: None,
            boost: None,
            test_result: None,
        }
    }
}

/// Whether a flag was read and is set. An unread flag is not set.
pub open spec fn raised(flag: Option<bool>) -> bool {
    flag == Some(true)
}

/// Whether a flag was read and is set.
pub fn is_raised(flag: Option<bool>) -> (r: bool)
    ensures
        r == raised(flag),
{
    match flag {
        Some(on) => on,
        None => false,
    }
}

impl Reading {
    /// A reading in which nothing has read.
    pub open spec fn unread() -> Reading {
        Reading {
            input_voltage: None,
            input_nominal_voltage: None,
            low_transfer_voltage: None,
            high_transfer_voltage: None,
            output_voltage: None,
            load_percent: None,
            load_watts: None,
            load_va: None,
            charge_percent: None,
            battery_decivolts: None,
            battery_nominal_decivolts: None,
            runtime_seconds: None,
            capacity_limit_percent: None,
            warning_capacity_percent: None,
            runtime_limit_seconds: None,
            nominal_va: None,
            nominal_power_w: None,
            ac_present: None,
            fully_charged: None,
            charging: None,
            discharging: None,
            below_capacity_limit: None,
            runtime_limit_expired: None,
            internal_failure: None,
            overload: None,
            voltage_out_of_range: None,
            frequency_out_of_range: None,
            boost: None,
            test_result: None,
        }
    }

    /// Whether any fault flag is raised.
    pub open spec fn faulty(self) -> bool {
        ||| raised(self.below_capacity_limit)
        ||| raised(self.runtime_limit_expired)
        ||| raised(self.internal_failure)
        ||| raised(self.overload)
        ||| raised(self.voltage_out_of_range)
        ||| raised(self.frequency_out_of_range)
    }

    /// Whether the device reports a fault: any of the flags the panel colours
    /// critical.
    pub fn is_critical(&self) -> (r: bool)
        ensures
            r == self.faulty(),
    {
        is_raised(self.below_capacity_limit) || is_raised(self.runtime_limit_expired)
            || is_raised(self.internal_failure) || is_raised(self.overload) || is_raised(
            self.voltage_out_of_range,
        ) || is_raised(self.frequency_out_of_range)
    }

    /// Whether the mains are known to be gone. An unread flag is not an outage.
    pub fn on_battery(&self) -> (r: bool)
        ensures
            r == (self.ac_present == Some(false)),
    {
        match self.ac_present {
            Some(on) => !on,
            None => false,
        }
    }
}

/// What the device says it is. A missing string means the device does not
/// report it.
#[derive(Debug)]
pub struct Identity {
    pub model: Option<String>,
    pub firmware: Option<String>,
    pub serial: Option<String>,
    pub manufacturer: Option<String>,
    pub chemistry: Option<String>,
}

/// What an identity says.
pub struct IdentityView {
    pub model: Option<Seq<char>>,
    pub firmware: Option<Seq<char>>,
    pub serial: Option<Seq<char>>,
    pub manufacturer: Option<Seq<char>>,
    pub chemistry: Option<Seq<char>>,
}

/// What an optional text says.
pub open spec fn text_view(text: Option<String>) -> Option<Seq<char>> {
    match text {
        Some(t) => Some(t@),
        None => None,
    }
}

impl View for Identity {
    type V = IdentityView;

    open spec fn view(&self) -> IdentityView {
        IdentityView {
            model: text_view(self.model),
            firmware: text_view(self.firmware),
            serial: text_view(self.serial),
            manufacturer: text_view(self.manufacturer),
            chemistry: text_view(self.chemistry),
        }
    }
}

impl IdentityView {
    /// An identity that reports nothing.
    pub open spec fn blank() -> IdentityView {
        IdentityView {
            model: None,
            firmware: None,
            serial: None,
            manufacturer: None,
            chemistry: None,
        }
    }
}

impl Default for Identity {
    /// An identity that reports nothing.
    fn default() -> (i: Identity)
        ensures
            i@ == IdentityView::blank(),
    {
        Identity { model: None, firmware: None, serial: None, manufacturer: None, chemistry: None }
    }
}

/// A flag is raised only when it read as raised: one that is down and one that
/// did not read are both not.
pub proof fn only_a_read_flag_is_raised()
    ensures
        raised(Some(true)),
        !raised(Some(false)),
        !raised(None),
{
}

/// Each result of a self-test has a name of its own.
pub proof fn each_result_has_its_name()
    ensures
        TestResult::Passed.title() == Key::TestTestPassed,
        TestResult::PassedWithWarning.title() == Key::TestTestPassedWarning,
        TestResult::Error.title() == Key::TestTestError,
        TestResult::Aborted.title() == Key::TestTestAborted,
        TestResult::InProgress.title() == Key::TestTestInProgress,
        TestResult::NotRun.title() == Key::TestTestNotRun,
        TestResult::Scheduled.title() == Key::TestTestScheduled,
        TestResult::Unknown.title() == Key::TestTestUnknown,
        forall|a: TestResult, b: TestResult| #[trigger] a.title() == #[trigger] b.title() ==> a == b,
{
}

} // verus!
