//! Readings of the `UnifiedBattery` feature (ID `0x1004`).

use vstd::prelude::*;

verus! {

/// Feature ID of `UnifiedBattery`.
pub const UNIFIED_BATTERY_ID: u16 = 0x1004;

/// Charging state, as both battery features encode it.
#[derive(Clone, Copy, Debug, PartialEq, Eq, Hash, Structural)]
pub enum BatteryStatus {
    /// Running on battery power.
    Discharging,
    /// Charging.
    Charging,
    /// Charging below the optimal speed.
    ChargingSlow,
    /// Fully charged.
    Full,
    /// Charging failed.
    Error,
}

impl BatteryStatus {
    /// The number that stands for the status on the wire.
    pub open spec fn wire_code(self) -> u8 {
        match self {
            BatteryStatus::Discharging => 0,
            BatteryStatus::Charging => 1,
            BatteryStatus::ChargingSlow => 2,
            BatteryStatus::Full => 3,
            BatteryStatus::Error => 4,
        }
    }

    /// The number that stands for the status on the wire.
    pub fn code(self) -> (raw: u8)
        ensures
            raw == self.wire_code(),
    {
        match self {
            BatteryStatus::Discharging => 0,
            BatteryStatus::Charging => 1,
            BatteryStatus::ChargingSlow => 2,
            BatteryStatus::Full => 3,
            BatteryStatus::Error => 4,
        }
    }

    /// The status that `raw` stands for; `None` when no status has that code.
    pub fn from_code(raw: u8) -> (status: Option<BatteryStatus>)
        ensures
            status matches Some(s) ==> s.wire_code() == raw,
            status is None ==> forall|s: BatteryStatus| #[trigger] s.wire_code() != raw,
    {
        match raw {
            0 => Some(BatteryStatus::Discharging),
            1 => Some(BatteryStatus::Charging),
            2 => Some(BatteryStatus::ChargingSlow),
            3 => Some(BatteryStatus::Full),
            4 => Some(BatteryStatus::Error),
            _ => None,
        }
    }
}

/// No two statuses share a code, so a code determines its status.
pub proof fn status_codes_are_distinct(a: BatteryStatus, b: BatteryStatus)
    requires
        a.wire_code() == b.wire_code(),
    ensures
        a == b,
{
}

/// The codes: discharging, charging, charging slowly, full and failed are 0 to 4.
pub proof fn statuses_have_their_codes(status: BatteryStatus)
    ensures
        status.wire_code() <= 4,
        status.wire_code() == 0 <==> status is Discharging,
        status.wire_code() == 1 <==> status is Charging,
        status.wire_code() == 2 <==> status is ChargingSlow,
        status.wire_code() == 3 <==> status is Full,
{
}

/// Coarse charge level that a `UnifiedBattery` device reports itself.
#[derive(Clone, Copy, Debug, PartialEq, Eq, Hash, Structural)]
pub enum BatteryLevel {
    /// Nearly empty.
    Critical,
    /// Low.
    Low,
    /// Neither low nor full.
    Good,
    /// Full.
    Full,
}

/// Current battery information reported by a `0x1004` device.
#[derive(Clone, Copy, Debug, PartialEq, Eq, Hash, Structural)]
pub struct UnifiedBatteryInfo {
    /// State of charge in percent; meaningful only if the device says it
    /// supports percentages.
    pub charging_percentage: u8,
    /// Coarse charge level.
    pub level: BatteryLevel,
    /// Charging state.
    pub status: BatteryStatus,
}

/// Broadcasts of a `0x1004` device.
#[derive(Clone, Copy, Debug, PartialEq, Eq, Hash, Structural)]
pub enum UnifiedBatteryEvent {
    /// The battery information changed.
    InfoUpdate(UnifiedBatteryInfo),
    /// Any other broadcast.
    Other,
}

} // verus!
