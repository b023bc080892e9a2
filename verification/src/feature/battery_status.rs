//! The legacy `BatteryStatus` feature (ID `0x1000`).

use vstd::prelude::*;

use super::unified_battery::BatteryStatus;
use super::{FeatureCall, FeatureMessage, Hidpp20Error};

verus! {

/// Bit of [`BatteryCapabilityFlags::disable_osd`].
pub const DISABLE_OSD_BIT: u8 = 1;

/// Bit of [`BatteryCapabilityFlags::mileage`].
pub const MILEAGE_BIT: u8 = 2;

/// Bit of [`BatteryCapabilityFlags::rechargeable`].
pub const RECHARGEABLE_BIT: u8 = 4;

/// Capabilities reported by `getBatteryCapability`, with bits that have no
/// meaning yet retained.
#[derive(Clone, Copy, Debug, PartialEq, Eq, Hash, Structural)]
pub struct BatteryCapabilityFlags {
    /// All bits as the device reported them.
    pub raw: u8,
}

impl BatteryCapabilityFlags {
    /// Every bit that is set in `other` is set in `self` too.
    pub open spec fn includes(self, other: BatteryCapabilityFlags) -> bool {
        self.raw & other.raw == other.raw
    }

    /// The device asks the host not to show an on-screen battery indicator.
    pub fn disable_osd() -> (flags: BatteryCapabilityFlags)
        ensures
            flags.raw == DISABLE_OSD_BIT,
    {
        BatteryCapabilityFlags { raw: DISABLE_OSD_BIT }
    }

    /// The discharge level has enough resolution to be treated as mileage.
    pub fn mileage() -> (flags: BatteryCapabilityFlags)
        ensures
            flags.raw == MILEAGE_BIT,
    {
        BatteryCapabilityFlags { raw: MILEAGE_BIT }
    }

    /// The device battery is rechargeable.
    pub fn rechargeable() -> (flags: BatteryCapabilityFlags)
        ensures
            flags.raw == RECHARGEABLE_BIT,
    {
        BatteryCapabilityFlags { raw: RECHARGEABLE_BIT }
    }

    /// Flags with exactly the given bits, known or not.
    pub fn from_bits_retain(bits: u8) -> (flags: BatteryCapabilityFlags)
        ensures
            flags.raw == bits,
    {
        BatteryCapabilityFlags { raw: bits }
    }

    /// All bits, known or not.
    pub fn bits(&self) -> (bits: u8)
        ensures
            bits == self.raw,
    {
        self.raw
    }

    /// Whether every bit of `other` is set.
    pub fn contains(&self, other: BatteryCapabilityFlags) -> (included: bool)
        ensures
            included == self.includes(other),
    {
        self.raw & other.raw == other.raw
    }
}

/// A discharge level in percentage units, from 1 to 100.
#[derive(Clone, Copy, Debug, PartialEq, Eq, Hash)]
pub struct DischargeLevel {
    percent: u8,
}

impl View for DischargeLevel {
    type V = u8;

    closed spec fn view(&self) -> u8 {
        self.percent
    }
}

impl DischargeLevel {
    #[verifier::type_invariant]
    spec fn in_range(self) -> bool {
        1 <= self.percent <= 100
    }

    /// The level of `percent` percent; `None` outside of 1 to 100.
    pub fn new(percent: u8) -> (level: Option<DischargeLevel>)
        ensures
            level is Some <==> 1 <= percent <= 100,
            level matches Some(l) ==> l@ == percent,
    {
        if 1 <= percent && percent <= 100 {
            Some(DischargeLevel { percent })
        } else {
            None
        }
    }

    /// The level in percent.
    pub fn get(self) -> (percent: u8)
        ensures
            percent == self@,
            1 <= percent <= 100,
    {
        proof {
            use_type_invariant(self);
        }
        self.percent
    }
}

/// The number in an optional level.
pub open spec fn percent_of(level: Option<DischargeLevel>) -> Option<u8> {
    match level {
        Some(l) => Some(l@),
        None => None,
    }
}

/// The legacy `BatteryStatus` / `0x1000` feature of one device.
#[derive(Clone, Copy, Debug, PartialEq, Eq)]
pub struct BatteryStatusFeature {
    /// Device that has the feature.
    pub device_index: u8,
    /// Runtime index of the feature in the device's feature table.
    pub feature_index: u8,
}

/// Static capabilities of a `0x1000` battery implementation.
#[derive(Clone, Copy, Debug, PartialEq, Eq, Hash)]
pub struct BatteryCapabilities {
    /// Number of distinct discharge levels the device can report.
    pub level_count: u8,
    /// Battery capability flags, retaining unknown future bits.
    pub flags: BatteryCapabilityFlags,
}

/// Current battery information reported by `getBatteryLevelStatus`.
#[derive(Clone, Copy, Debug, PartialEq, Eq, Hash)]
pub struct BatteryInfo {
    /// Current discharge level in percentage units, or `None` when unavailable.
    pub discharge_level: Option<DischargeLevel>,
    /// Next lower discharge threshold, or `None` when unavailable.
    pub next_level: Option<DischargeLevel>,
    /// Current charging status.
    pub status: BatteryStatus,
}

/// Event emitted when a `0x1000` device reports changed battery information.
#[derive(Clone, Copy, Debug, PartialEq, Eq, Hash)]
pub enum BatteryEvent {
    /// The current discharge level or charging state changed.
    ///
    /// This broadcast is always enabled by the device.
    InfoUpdate(BatteryInfo),
}

impl BatteryCapabilities {
    /// At least ten levels, and the device vouches for their resolution.
    pub open spec fn has_percentage(self) -> bool {
        self.level_count >= 10 && self.flags.raw & MILEAGE_BIT == MILEAGE_BIT
    }

    /// Whether the reported discharge level has percentage-like mileage
    /// resolution rather than a small set of coarse thresholds.
    #[must_use]
    pub fn reports_percentage(self) -> (percentage: bool)
        ensures
            percentage == self.has_percentage(),
    {
        self.level_count >= 10 && self.flags.contains(BatteryCapabilityFlags::mileage())
    }
}

/// What a raw level byte says, if it is one: nothing for 0, else the level it is
/// equal to. Bytes above 100 are no level bytes; see [`is_battery_report`].
pub open spec fn level_percent(raw: u8) -> Option<u8>
    recommends
        raw <= 100,
{
    if raw == 0 {
        None
    } else {
        Some(raw)
    }
}

/// `payload` is long enough to be decoded: a level byte out of range ends the
/// decoding, so what would follow it is never read.
pub open spec fn is_decodable(payload: Seq<u8>) -> bool {
    &&& payload.len() >= 1
    &&& payload[0] <= 100 ==> payload.len() >= 2
    &&& payload[0] <= 100 && payload[1] <= 100 ==> payload.len() >= 3
}

/// `payload` holds two levels up to 100 and the code of a charging status.
pub open spec fn is_battery_report(payload: Seq<u8>) -> bool {
    &&& payload[0] <= 100
    &&& payload[1] <= 100
    &&& exists|status: BatteryStatus| #[trigger] status.wire_code() == payload[2]
}

/// `info` is what `payload` says.
pub open spec fn reports(payload: Seq<u8>, info: BatteryInfo) -> bool {
    &&& percent_of(info.discharge_level) == level_percent(payload[0])
    &&& percent_of(info.next_level) == level_percent(payload[1])
    &&& info.status.wire_code() == payload[2]
}

/// Decodes the reply to `getBatteryCapability`.
pub fn decode_capabilities(payload: &[u8]) -> (capabilities: BatteryCapabilities)
    requires
        payload@.len() >= 2,
    ensures
        capabilities.level_count == payload@[0],
        capabilities.flags.raw == payload@[1],
{
    BatteryCapabilities {
        level_count: payload[0],
        flags: BatteryCapabilityFlags::from_bits_retain(payload[1]),
    }
}

/// Decodes a level byte: 0 means that the level is unavailable.
pub fn decode_level(raw: u8) -> (level: Result<Option<DischargeLevel>, Hidpp20Error>)
    ensures
        raw <= 100 ==> (level matches Ok(l) && percent_of(l) == level_percent(raw)),
        raw > 100 ==> level == Err::<Option<DischargeLevel>, Hidpp20Error>(
            Hidpp20Error::UnsupportedResponse,
        ),
{
    if raw == 0 {
        Ok(None)
    } else if raw <= 100 {
        Ok(DischargeLevel::new(raw))
    } else {
        Err(Hidpp20Error::UnsupportedResponse)
    }
}

/// Decodes the reply to `getBatteryLevelStatus`, or the broadcast with the same
/// payload.
pub fn decode_battery_info(payload: &[u8]) -> (info: Result<BatteryInfo, Hidpp20Error>)
    requires
        is_decodable(payload@),
    ensures
        is_battery_report(payload@) ==> (info matches Ok(i) && reports(payload@, i)),
        !is_battery_report(payload@) ==> info == Err::<BatteryInfo, Hidpp20Error>(
            Hidpp20Error::UnsupportedResponse,
        ),
{
    let discharge_level = match decode_level(payload[0]) {
        Ok(level) => level,
        Err(error) => {
            return Err(error);
        },
    };
    let next_level = match decode_level(payload[1]) {
        Ok(level) => level,
        Err(error) => {
            return Err(error);
        },
    };
    match BatteryStatus::from_code(payload[2]) {
        Some(status) => Ok(BatteryInfo { discharge_level, next_level, status }),
        None => Err(Hidpp20Error::UnsupportedResponse),
    }
}

/// Decodes a broadcast of the feature. Only event 0 is known; a broadcast with
/// an invalid payload is ignored like an unknown one.
pub fn decode_event(function: u8, payload: &[u8]) -> (event: Option<BatteryEvent>)
    requires
        function == 0 ==> is_decodable(payload@),
    ensures
        function == 0 && is_battery_report(payload@) ==> (event matches Some(
            BatteryEvent::InfoUpdate(info),
        ) && reports(payload@, info)),
        !(function == 0 && is_battery_report(payload@)) ==> event is None,
{
    if function != 0 {
        return None;
    }
    match decode_battery_info(payload) {
        Ok(info) => Some(BatteryEvent::InfoUpdate(info)),
        Err(_) => None,
    }
}

impl BatteryStatusFeature {
    /// Feature ID of `BatteryStatus`.
    pub const ID: u16 = 0x1000;

    /// First version of the feature that this implementation understands.
    pub const STARTING_VERSION: u8 = 0;

    /// The feature at `feature_index` of the device at `device_index`.
    pub fn new(device_index: u8, feature_index: u8) -> (feature: BatteryStatusFeature)
        ensures
            feature.device_index == device_index,
            feature.feature_index == feature_index,
    {
        BatteryStatusFeature { device_index, feature_index }
    }

    /// A request to a function of the feature, without arguments.
    pub open spec fn request(self, function: u8) -> FeatureCall {
        FeatureCall {
            device_index: self.device_index,
            feature_index: self.feature_index,
            function,
            arguments: [0u8, 0u8, 0u8],
        }
    }

    /// The request for the number of discharge levels and the feature flags.
    pub fn capabilities_call(&self) -> (call: FeatureCall)
        ensures
            call == (FeatureCall {
                device_index: self.device_index,
                feature_index: self.feature_index,
                function: 1,
                arguments: [0u8, 0u8, 0u8],
            }),
            call == self.request(1),
    {
        FeatureCall {
            device_index: self.device_index,
            feature_index: self.feature_index,
            function: 1,
            arguments: [0, 0, 0],
        }
    }

    /// The request for the current discharge level and charging state.
    pub fn info_call(&self) -> (call: FeatureCall)
        ensures
            call == (FeatureCall {
                device_index: self.device_index,
                feature_index: self.feature_index,
                function: 0,
                arguments: [0u8, 0u8, 0u8],
            }),
            call == self.request(0),
    {
        FeatureCall {
            device_index: self.device_index,
            feature_index: self.feature_index,
            function: 0,
            arguments: [0, 0, 0],
        }
    }

    /// The number of discharge levels and the feature flags, out of the reply to
    /// [`Self::capabilities_call`]. An error of the call is passed on.
    pub fn get_battery_capabilities(&self, reply: Result<[u8; 16], Hidpp20Error>) -> (capabilities:
        Result<BatteryCapabilities, Hidpp20Error>)
        ensures
            match reply {
                Ok(payload) => capabilities matches Ok(c) && c.level_count == payload@[0]
                    && c.flags.raw == payload@[1],
                Err(error) => capabilities == Err::<BatteryCapabilities, Hidpp20Error>(error),
            },
    {
        match reply {
            Ok(payload) => Ok(decode_capabilities(payload.as_slice())),
            Err(error) => Err(error),
        }
    }

    /// The current discharge level and charging state, out of the reply to
    /// [`Self::info_call`]. An error of the call is passed on.
    pub fn get_battery_info(&self, reply: Result<[u8; 16], Hidpp20Error>) -> (info: Result<
        BatteryInfo,
        Hidpp20Error,
    >)
        ensures
            match reply {
                Ok(payload) => if is_battery_report(payload@) {
                    info matches Ok(i) && reports(payload@, i)
                } else {
                    info == Err::<BatteryInfo, Hidpp20Error>(Hidpp20Error::UnsupportedResponse)
                },
                Err(error) => info == Err::<BatteryInfo, Hidpp20Error>(error),
            },
    {
        match reply {
            Ok(payload) => decode_battery_info(payload.as_slice()),
            Err(error) => Err(error),
        }
    }

    /// The event that an incoming message means to listeners of the feature.
    /// Replies to requests and messages of other features mean none.
    pub fn on_message(&self, message: &FeatureMessage, matched: bool) -> (event: Option<
        BatteryEvent,
    >)
        ensures
            ({
                let heard = super::is_event(
                    *message,
                    matched,
                    self.device_index,
                    self.feature_index,
                ) && message.function == 0 && is_battery_report(message.payload@);
                if heard {
                    event matches Some(BatteryEvent::InfoUpdate(info)) && reports(
                        message.payload@,
                        info,
                    )
                } else {
                    event is None
                }
            }),
    {
        match super::event_payload(message, matched, self.device_index, self.feature_index) {
            Some((function, payload)) => decode_event(function, payload.as_slice()),
            None => None,
        }
    }
}

/// A payload determines what is decoded from it: two readings that both report
/// the same payload show the same levels and the same charging status.
pub proof fn report_is_unambiguous(payload: Seq<u8>, a: BatteryInfo, b: BatteryInfo)
    requires
        reports(payload, a),
        reports(payload, b),
    ensures
        percent_of(a.discharge_level) == percent_of(b.discharge_level),
        percent_of(a.next_level) == percent_of(b.next_level),
        a.status == b.status,
{
}

/// The flags sit in the three lowest bits: not showing an indicator, mileage, and
/// rechargeable, from the lowest up.
pub proof fn flags_sit_in_their_bits(raw: u8)
    ensures
        ({
            let flags = BatteryCapabilityFlags { raw };
            &&& flags.includes(BatteryCapabilityFlags { raw: DISABLE_OSD_BIT }) <==> raw % 2 == 1
            &&& flags.includes(BatteryCapabilityFlags { raw: MILEAGE_BIT }) <==> (raw / 2) % 2 == 1
            &&& flags.includes(BatteryCapabilityFlags { raw: RECHARGEABLE_BIT }) <==> (raw / 4) % 2
                == 1
        }),
{
    assert((raw & 1 == 1) == (raw % 2 == 1)) by (bit_vector);
    assert((raw & 2 == 2) == ((raw / 2) % 2 == 1)) by (bit_vector);
    assert((raw & 4 == 4) == ((raw / 4) % 2 == 1)) by (bit_vector);
}

/// Flags include others exactly if none of those is missing, bit by bit.
pub proof fn inclusion_is_bitwise(a: BatteryCapabilityFlags, b: BatteryCapabilityFlags)
    ensures
        a.includes(b) <==> forall|bit: u8|
            bit < 8 && #[trigger] (b.raw >> bit) & 1 == 1 ==> (a.raw >> bit) & 1 == 1,
        a.includes(a),
        a.includes(BatteryCapabilityFlags { raw: 0 }),
        a.includes(b) && b.includes(a) ==> a == b,
{
    let x = a.raw;
    let y = b.raw;
    assert(x & x == x && x & 0 == 0) by (bit_vector);
    assert(x & y == y && y & x == x ==> x == y) by (bit_vector);
    assert forall|bit: u8| x & y == y && bit < 8 && #[trigger] (y >> bit) & 1 == 1 implies (x
        >> bit) & 1 == 1 by {
        assert(x & y == y && bit < 8 && (y >> bit) & 1 == 1 ==> (x >> bit) & 1 == 1)
            by (bit_vector);
    }
    if forall|bit: u8| bit < 8 && #[trigger] (y >> bit) & 1 == 1 ==> (x >> bit) & 1 == 1 {
        assert((y >> 0u8) & 1 == 1 ==> (x >> 0u8) & 1 == 1);
        assert((y >> 1u8) & 1 == 1 ==> (x >> 1u8) & 1 == 1);
        assert((y >> 2u8) & 1 == 1 ==> (x >> 2u8) & 1 == 1);
        assert((y >> 3u8) & 1 == 1 ==> (x >> 3u8) & 1 == 1);
        assert((y >> 4u8) & 1 == 1 ==> (x >> 4u8) & 1 == 1);
        assert((y >> 5u8) & 1 == 1 ==> (x >> 5u8) & 1 == 1);
        assert((y >> 6u8) & 1 == 1 ==> (x >> 6u8) & 1 == 1);
        assert((y >> 7u8) & 1 == 1 ==> (x >> 7u8) & 1 == 1);
        assert(x & y == y) by (bit_vector)
            requires
                (y >> 0u8) & 1 == 1 ==> (x >> 0u8) & 1 == 1,
                (y >> 1u8) & 1 == 1 ==> (x >> 1u8) & 1 == 1,
                (y >> 2u8) & 1 == 1 ==> (x >> 2u8) & 1 == 1,
                (y >> 3u8) & 1 == 1 ==> (x >> 3u8) & 1 == 1,
                (y >> 4u8) & 1 == 1 ==> (x >> 4u8) & 1 == 1,
                (y >> 5u8) & 1 == 1 ==> (x >> 5u8) & 1 == 1,
                (y >> 6u8) & 1 == 1 ==> (x >> 6u8) & 1 == 1,
                (y >> 7u8) & 1 == 1 ==> (x >> 7u8) & 1 == 1,
        ;
    }
}

/// Levels are trusted to be percentages where there are at least ten of them and
/// the mileage flag, the second bit, is set, whatever the other bits are.
pub proof fn percentage_needs_levels_and_mileage(capabilities: BatteryCapabilities)
    ensures
        capabilities.has_percentage() <==> capabilities.level_count > 9 && (capabilities.flags.raw
            / 2) % 2 == 1,
{
    flags_sit_in_their_bits(capabilities.flags.raw);
}

/// Which payloads are battery reports: two bytes up to 100, and a status code up to
/// 4. Payloads of three bytes and more can always be decoded, shorter ones exactly
/// if they end in the first byte above 100.
pub proof fn reports_have_their_ranges(payload: Seq<u8>)
    ensures
        payload.len() >= 3 ==> (is_battery_report(payload) <==> payload[0] <= 100 && payload[1]
            <= 100 && payload[2] <= 4),
        payload.len() >= 3 ==> is_decodable(payload),
        payload.len() == 2 ==> (is_decodable(payload) <==> payload[0] > 100 || payload[1] > 100),
        payload.len() == 1 ==> (is_decodable(payload) <==> payload[0] > 100),
        payload.len() == 0 ==> !is_decodable(payload),
{
    assert(BatteryStatus::Discharging.wire_code() == 0);
    assert(BatteryStatus::Charging.wire_code() == 1);
    assert(BatteryStatus::ChargingSlow.wire_code() == 2);
    assert(BatteryStatus::Full.wire_code() == 3);
    assert(BatteryStatus::Error.wire_code() == 4);
}

/// What a report says: each level is the byte it came from, with 0 for none, and
/// the charging state the one whose code stands third.
pub proof fn reports_say_what_was_sent(payload: Seq<u8>, info: BatteryInfo)
    requires
        reports(payload, info),
    ensures
        info.discharge_level is None <==> payload[0] == 0,
        info.discharge_level matches Some(level) ==> level@ == payload[0],
        info.next_level is None <==> payload[1] == 0,
        info.next_level matches Some(level) ==> level@ == payload[1],
        info.status is Discharging <==> payload[2] == 0,
        info.status is Charging <==> payload[2] == 1,
        info.status is ChargingSlow <==> payload[2] == 2,
        info.status is Full <==> payload[2] == 3,
        info.status is Error <==> payload[2] == 4,
{
}

/// A request goes to the device and the feature it was made for and to the function
/// it names: requests that differ in one of these are different.
pub proof fn requests_address_their_feature(
    feature: BatteryStatusFeature,
    function: u8,
    other: BatteryStatusFeature,
    other_function: u8,
)
    ensures
        feature.request(function).device_index == feature.device_index,
        feature.request(function).feature_index == feature.feature_index,
        feature.request(function).function == function,
        feature.request(function) == other.request(other_function) ==> feature == other && function
            == other_function,
{
}

} // verus!
