//! From what devices report to what is shown.

use vstd::prelude::*;

use crate::device;
use crate::feature::unified_battery;

verus! {

/// The shown level for a level that a `UnifiedBattery` device reports.
pub open spec fn shown_level(level: unified_battery::BatteryLevel) -> device::BatteryLevel {
    match level {
        unified_battery::BatteryLevel::Critical => device::BatteryLevel::Critical,
        unified_battery::BatteryLevel::Low => device::BatteryLevel::Low,
        unified_battery::BatteryLevel::Good => device::BatteryLevel::Good,
        unified_battery::BatteryLevel::Full => device::BatteryLevel::Full,
    }
}

/// The shown charging state for the one that a device reports.
pub open spec fn shown_status(status: unified_battery::BatteryStatus) -> device::BatteryStatus {
    match status {
        unified_battery::BatteryStatus::Discharging => device::BatteryStatus::Discharging,
        unified_battery::BatteryStatus::Charging => device::BatteryStatus::Charging,
        unified_battery::BatteryStatus::ChargingSlow => device::BatteryStatus::ChargingSlow,
        unified_battery::BatteryStatus::Full => device::BatteryStatus::Full,
        unified_battery::BatteryStatus::Error => device::BatteryStatus::Error,
    }
}

/// The shown level for a level that a `UnifiedBattery` device reports.
pub fn map_battery_level(level: unified_battery::BatteryLevel) -> (shown: device::BatteryLevel)
    ensures
        shown == shown_level(level),
{
    match level {
        unified_battery::BatteryLevel::Critical => device::BatteryLevel::Critical,
        unified_battery::BatteryLevel::Low => device::BatteryLevel::Low,
        unified_battery::BatteryLevel::Good => device::BatteryLevel::Good,
        unified_battery::BatteryLevel::Full => device::BatteryLevel::Full,
    }
}

/// The shown charging state for the one that a device reports.
pub fn map_battery_status(status: unified_battery::BatteryStatus) -> (shown: device::BatteryStatus)
    ensures
        shown == shown_status(status),
{
    match status {
        unified_battery::BatteryStatus::Discharging => device::BatteryStatus::Discharging,
        unified_battery::BatteryStatus::Charging => device::BatteryStatus::Charging,
        unified_battery::BatteryStatus::ChargingSlow => device::BatteryStatus::ChargingSlow,
        unified_battery::BatteryStatus::Full => device::BatteryStatus::Full,
        unified_battery::BatteryStatus::Error => device::BatteryStatus::Error,
    }
}

/// A level is shown as the one that was reported, and never as unknown.
pub proof fn levels_are_shown_as_reported(level: unified_battery::BatteryLevel)
    ensures
        shown_level(level) is Critical <==> level is Critical,
        shown_level(level) is Low <==> level is Low,
        shown_level(level) is Good <==> level is Good,
        shown_level(level) is Full <==> level is Full,
        !(shown_level(level) is Unknown),
{
}

/// A charging state is shown as the one that was reported.
pub proof fn statuses_are_shown_as_reported(status: unified_battery::BatteryStatus)
    ensures
        shown_status(status) is Discharging <==> status is Discharging,
        shown_status(status) is Charging <==> status is Charging,
        shown_status(status) is ChargingSlow <==> status is ChargingSlow,
        shown_status(status) is Full <==> status is Full,
        shown_status(status) is Error <==> status is Error,
{
}

} // verus!
