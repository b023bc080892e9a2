//! Which battery protocol a device is read through, and what its readings show.

use vstd::prelude::*;

use crate::device::{BatteryInfo, BatteryLevel};
use crate::feature::battery_status;
use crate::feature::battery_status::{percent_of, BatteryCapabilities, BatteryStatusFeature};
use crate::feature::unified_battery;
use crate::feature::unified_battery::{
    UnifiedBatteryEvent, UnifiedBatteryInfo, UNIFIED_BATTERY_ID,
};
use crate::feature::Hidpp20Error;
use crate::mappings::{map_battery_level, map_battery_status};
use crate::route::DeviceRoute;

verus! {

/// A battery broadcast associated with the route that emitted it.
#[derive(Debug, PartialEq, Eq)]
pub struct BatteryUpdate {
    /// Device whose battery state changed.
    pub route: DeviceRoute,
    /// Fresh battery information carried by the HID++ broadcast.
    pub battery: BatteryInfo,
}

/// Where the broadcasts of a probed device should go.
#[derive(Clone, Copy, Debug)]
pub struct BatteryEventContext<'a> {
    /// Route of the device, where it has one.
    pub route: Option<&'a DeviceRoute>,
    /// Whether anybody wants battery updates.
    pub listening: bool,
}

impl<'a> BatteryEventContext<'a> {
    /// The context of a device on `route`.
    pub fn new(route: Option<&'a DeviceRoute>, listening: bool) -> (context: Self)
        ensures
            context.route == route,
            context.listening == listening,
    {
        BatteryEventContext { route, listening }
    }

    /// The context of a device whose broadcasts go nowhere.
    pub fn none() -> (context: Self)
        ensures
            context.route is None,
            !context.listening,
    {
        BatteryEventContext { route: None, listening: false }
    }
}

/// Battery feature selected by a full probe.
#[derive(Clone, Copy, Debug, PartialEq, Eq, Structural)]
pub enum BatteryEndpoint {
    /// HID++ `UnifiedBattery` (`0x1004`).
    Unified {
        /// Whether percentages of the device are shown.
        percentage: bool,
    },
    /// Legacy HID++ `BatteryStatus` (`0x1000`).
    Status {
        /// Whether percentages of the device are shown.
        percentage: bool,
    },
}

/// A battery feature of a device, ready to be read again.
#[derive(Clone, Copy, Debug, PartialEq, Eq, Structural)]
pub struct BatteryHandle {
    /// Protocol of the feature.
    pub endpoint: BatteryEndpoint,
    /// Slot of the device.
    pub slot: u8,
    /// Runtime index of the feature.
    pub feature_index: u8,
}

/// The handle of a `UnifiedBattery` feature.
pub open spec fn unified_handle(slot: u8, feature_index: u8, percentage: bool) -> BatteryHandle {
    BatteryHandle { endpoint: BatteryEndpoint::Unified { percentage }, slot, feature_index }
}

/// The handle of a `BatteryStatus` feature.
pub open spec fn status_handle(slot: u8, feature_index: u8, percentage: bool) -> BatteryHandle {
    BatteryHandle { endpoint: BatteryEndpoint::Status { percentage }, slot, feature_index }
}

impl BatteryHandle {
    /// The handle of a `UnifiedBattery` feature.
    pub fn unified(slot: u8, feature_index: u8, percentage: bool) -> (handle: BatteryHandle)
        ensures
            handle == unified_handle(slot, feature_index, percentage),
    {
        BatteryHandle { endpoint: BatteryEndpoint::Unified { percentage }, slot, feature_index }
    }

    /// The handle of a `BatteryStatus` feature.
    pub fn status(slot: u8, feature_index: u8, percentage: bool) -> (handle: BatteryHandle)
        ensures
            handle == status_handle(slot, feature_index, percentage),
    {
        BatteryHandle { endpoint: BatteryEndpoint::Status { percentage }, slot, feature_index }
    }

    /// Protocol of the feature.
    pub fn endpoint(&self) -> (endpoint: BatteryEndpoint)
        ensures
            endpoint == self.endpoint,
    {
        self.endpoint
    }
}

/// Runtime indices of battery features found in the enumerated feature table.
#[derive(Clone, Copy, Debug, PartialEq, Eq, Structural)]
pub struct BatteryFeatureIndices {
    /// Index of `UnifiedBattery`.
    pub unified: Option<u8>,
    /// Index of `BatteryStatus`.
    pub status: Option<u8>,
}

impl Default for BatteryFeatureIndices {
    fn default() -> (indices: Self)
        ensures
            indices == (BatteryFeatureIndices { unified: None, status: None }),
    {
        BatteryFeatureIndices { unified: None, status: None }
    }
}

/// `index` is the runtime index of the first entry `id` of the feature table
/// `ids`. The table is 1-based because index 0 is the implicit root feature
/// omitted by enumeration, and an index is a byte: entries past the 255th have
/// none.
pub open spec fn is_feature_index(ids: Seq<u16>, id: u16, index: Option<u8>) -> bool {
    match index {
        Some(n) => {
            &&& 1 <= n <= ids.len()
            &&& ids[n - 1] == id
            &&& forall|j: int| 0 <= j < n - 1 ==> ids[j] != id
        },
        None => forall|j: int| 0 <= j < ids.len() && j < 255 ==> ids[j] != id,
    }
}

/// The runtime index of the feature `id` in the table `ids`.
pub open spec fn feature_index(ids: Seq<u16>, id: u16) -> Option<u8> {
    choose|index: Option<u8>| is_feature_index(ids, id, index)
}

/// The runtime indices of the battery features in the table `ids`.
pub open spec fn indices_in(ids: Seq<u16>) -> BatteryFeatureIndices {
    BatteryFeatureIndices {
        unified: feature_index(ids, UNIFIED_BATTERY_ID),
        status: feature_index(ids, BatteryStatusFeature::ID),
    }
}

/// Runtime indices of the battery features in an enumerated feature-ID table.
pub fn battery_feature_indices(ids: &[u16]) -> (indices: BatteryFeatureIndices)
    ensures
        is_feature_index(ids@, UNIFIED_BATTERY_ID, indices.unified),
        is_feature_index(ids@, BatteryStatusFeature::ID, indices.status),
        indices == indices_in(ids@),
{
    let mut indices = BatteryFeatureIndices::default();
    let end: usize = if ids.len() < 255 {
        ids.len()
    } else {
        255
    };
    for position in 0..end
        invariant
            end <= ids@.len(),
            end <= 255,
            match indices.unified {
                Some(n) => n <= position && is_feature_index(
                    ids@,
                    UNIFIED_BATTERY_ID,
                    indices.unified,
                ),
                None => forall|j: int| 0 <= j < position ==> ids@[j] != UNIFIED_BATTERY_ID,
            },
            match indices.status {
                Some(n) => n <= position && is_feature_index(
                    ids@,
                    BatteryStatusFeature::ID,
                    indices.status,
                ),
                None => forall|j: int| 0 <= j < position ==> ids@[j] != BatteryStatusFeature::ID,
            },
    {
        let id = ids[position];
        let feature_index: u8 = (position + 1) as u8;
        if id == UNIFIED_BATTERY_ID {
            if indices.unified.is_none() {
                indices.unified = Some(feature_index);
            }
        } else if id == BatteryStatusFeature::ID {
            if indices.status.is_none() {
                indices.status = Some(feature_index);
            }
        }
    }
    proof {
        let unified = feature_index(ids@, UNIFIED_BATTERY_ID);
        let status = feature_index(ids@, BatteryStatusFeature::ID);
        assert(is_feature_index(ids@, UNIFIED_BATTERY_ID, indices.unified));
        assert(is_feature_index(ids@, BatteryStatusFeature::ID, indices.status));
        feature_index_is_unique(ids@, UNIFIED_BATTERY_ID, indices.unified, unified);
        feature_index_is_unique(ids@, BatteryStatusFeature::ID, indices.status, status);
    }
    indices
}

/// A feature table determines the index of each of its features.
pub proof fn feature_index_is_unique(ids: Seq<u16>, id: u16, a: Option<u8>, b: Option<u8>)
    requires
        is_feature_index(ids, id, a),
        is_feature_index(ids, id, b),
    ensures
        a == b,
{
    match (a, b) {
        (Some(x), Some(y)) => {
            assert(ids[x - 1] == id && ids[y - 1] == id);
        },
        (Some(x), None) => {
            assert(ids[x - 1] == id);
        },
        (None, Some(y)) => {
            assert(ids[y - 1] == id);
        },
        (None, None) => {},
    }
}

/// Every feature table gives every feature an index or none.
pub proof fn feature_index_exists(ids: Seq<u16>, id: u16)
    ensures
        is_feature_index(ids, id, feature_index(ids, id)),
{
    if exists|j: int| 0 <= j < ids.len() && j < 255 && ids[j] == id {
        let at = choose|j: int| 0 <= j < ids.len() && j < 255 && ids[j] == id;
        first_entry(ids, id, at);
    } else {
        assert(is_feature_index(ids, id, None));
    }
}

proof fn first_entry(ids: Seq<u16>, id: u16, at: int)
    requires
        0 <= at < ids.len(),
        at < 255,
        ids[at] == id,
    ensures
        exists|index: Option<u8>| is_feature_index(ids, id, index),
    decreases at,
{
    if exists|j: int| 0 <= j < at && ids[j] == id {
        first_entry(ids, id, choose|j: int| 0 <= j < at && ids[j] == id);
    } else {
        assert(is_feature_index(ids, id, Some((at + 1) as u8)));
    }
}

/// The coarse bucket of a legacy discharge level.
pub open spec fn level_bucket(level: Option<u8>) -> BatteryLevel {
    match level {
        Some(percent) => if 1 <= percent <= 10 {
            BatteryLevel::Critical
        } else if 11 <= percent <= 29 {
            BatteryLevel::Low
        } else if 30 <= percent <= 80 {
            BatteryLevel::Good
        } else if 81 <= percent <= 100 {
            BatteryLevel::Full
        } else {
            BatteryLevel::Unknown
        },
        None => BatteryLevel::Unknown,
    }
}

/// The coarse bucket of a legacy discharge level.
pub fn map_status_level(level: Option<u8>) -> (bucket: BatteryLevel)
    ensures
        bucket == level_bucket(level),
{
    match level {
        Some(percent) => {
            if percent == 0 || percent > 100 {
                BatteryLevel::Unknown
            } else if percent <= 10 {
                BatteryLevel::Critical
            } else if percent <= 29 {
                BatteryLevel::Low
            } else if percent <= 80 {
                BatteryLevel::Good
            } else {
                BatteryLevel::Full
            }
        },
        None => BatteryLevel::Unknown,
    }
}

/// What a legacy reading shows: a percentage only where the device's levels are
/// trusted to be percentages.
pub open spec fn shown_status_battery(
    discharge_level: Option<u8>,
    status: unified_battery::BatteryStatus,
    percentage: bool,
) -> BatteryInfo {
    BatteryInfo {
        percentage: if percentage {
            discharge_level
        } else {
            None
        },
        level: level_bucket(discharge_level),
        status: crate::mappings::shown_status(status),
    }
}

/// What a legacy reading shows.
pub fn map_status_battery_fields(
    discharge_level: Option<u8>,
    status: unified_battery::BatteryStatus,
    percentage: bool,
) -> (battery: BatteryInfo)
    ensures
        battery == shown_status_battery(discharge_level, status, percentage),
{
    BatteryInfo {
        percentage: if percentage {
            discharge_level
        } else {
            None
        },
        level: map_status_level(discharge_level),
        status: map_battery_status(status),
    }
}

/// What a legacy reading shows.
pub fn map_status_battery(info: battery_status::BatteryInfo, percentage: bool) -> (battery:
    BatteryInfo)
    ensures
        battery == shown_status_battery(percent_of(info.discharge_level), info.status, percentage),
{
    let discharge_level: Option<u8> = match info.discharge_level {
        Some(level) => Some(level.get()),
        None => None,
    };
    map_status_battery_fields(discharge_level, info.status, percentage)
}

/// What a `UnifiedBattery` reading shows: a percentage only where the device
/// supports percentages and the value is one.
pub open spec fn shown_unified_battery(info: UnifiedBatteryInfo, percentage: bool) -> BatteryInfo {
    BatteryInfo {
        percentage: if percentage && info.charging_percentage <= 100 {
            Some(info.charging_percentage)
        } else {
            None
        },
        level: crate::mappings::shown_level(info.level),
        status: crate::mappings::shown_status(info.status),
    }
}

/// What a `UnifiedBattery` reading shows.
pub fn map_unified_battery_fields(
    charging_percentage: u8,
    level: unified_battery::BatteryLevel,
    status: unified_battery::BatteryStatus,
    percentage: bool,
) -> (battery: BatteryInfo)
    ensures
        battery == shown_unified_battery(
            UnifiedBatteryInfo { charging_percentage, level, status },
            percentage,
        ),
{
    BatteryInfo {
        percentage: if percentage && charging_percentage <= 100 {
            Some(charging_percentage)
        } else {
            None
        },
        level: map_battery_level(level),
        status: map_battery_status(status),
    }
}

/// What a `UnifiedBattery` reading shows.
pub fn map_unified_battery(info: UnifiedBatteryInfo, percentage: bool) -> (battery: BatteryInfo)
    ensures
        battery == shown_unified_battery(info, percentage),
{
    map_unified_battery_fields(info.charging_percentage, info.level, info.status, percentage)
}

/// What a broadcast of a `UnifiedBattery` feature shows, if it is a reading.
pub fn map_unified_event(event: UnifiedBatteryEvent, percentage: bool) -> (battery: Option<
    BatteryInfo,
>)
    ensures
        battery == match event {
            UnifiedBatteryEvent::InfoUpdate(info) => Some(shown_unified_battery(info, percentage)),
            UnifiedBatteryEvent::Other => None,
        },
{
    match event {
        UnifiedBatteryEvent::InfoUpdate(info) => Some(map_unified_battery(info, percentage)),
        UnifiedBatteryEvent::Other => None,
    }
}

/// What a broadcast of a `BatteryStatus` feature shows.
pub fn map_status_event(event: battery_status::BatteryEvent, percentage: bool) -> (battery: Option<
    BatteryInfo,
>)
    ensures
        battery == match event {
            battery_status::BatteryEvent::InfoUpdate(info) => Some(
                shown_status_battery(percent_of(info.discharge_level), info.status, percentage),
            ),
        },
{
    match event {
        battery_status::BatteryEvent::InfoUpdate(info) => Some(
            map_status_battery(info, percentage),
        ),
    }
}

/// A broadcast of a battery feature.
#[derive(Clone, Copy, Debug, PartialEq, Eq)]
pub enum BatteryBroadcast {
    /// Of `UnifiedBattery`.
    Unified(UnifiedBatteryEvent),
    /// Of `BatteryStatus`.
    Status(battery_status::BatteryEvent),
}

/// What a broadcast of the feature behind `handle` shows: a reading of the
/// handle's own protocol, with a percentage under the same condition as in the
/// readings through the handle.
pub open spec fn shown_broadcast(handle: BatteryHandle, event: BatteryBroadcast) -> Option<
    BatteryInfo,
> {
    match (handle.endpoint, event) {
        (
            BatteryEndpoint::Unified { percentage },
            BatteryBroadcast::Unified(UnifiedBatteryEvent::InfoUpdate(info)),
        ) => Some(shown_unified_battery(info, percentage)),
        (
            BatteryEndpoint::Status { percentage },
            BatteryBroadcast::Status(battery_status::BatteryEvent::InfoUpdate(info)),
        ) => Some(
            shown_status_battery(percent_of(info.discharge_level), info.status, percentage),
        ),
        _ => None,
    }
}

/// What a broadcast of the feature behind `handle` shows, if it is a reading.
pub fn broadcast_shown(handle: &BatteryHandle, event: BatteryBroadcast) -> (battery: Option<
    BatteryInfo,
>)
    ensures
        battery == shown_broadcast(*handle, event),
{
    match (handle.endpoint, event) {
        (
            BatteryEndpoint::Unified { percentage },
            BatteryBroadcast::Unified(event),
        ) => map_unified_event(event, percentage),
        (BatteryEndpoint::Status { percentage }, BatteryBroadcast::Status(event)) => {
            map_status_event(event, percentage)
        },
        _ => None,
    }
}

/// A read of a battery feature.
#[derive(Clone, Copy, Debug, PartialEq, Eq, Structural)]
pub enum BatteryCall {
    /// Read the capabilities of `UnifiedBattery`.
    UnifiedCapabilities {
        /// Slot of the device.
        slot: u8,
        /// Runtime index of the feature.
        feature_index: u8,
    },
    /// Read the battery information of `UnifiedBattery`.
    UnifiedInfo {
        /// Slot of the device.
        slot: u8,
        /// Runtime index of the feature.
        feature_index: u8,
    },
    /// Read the capabilities of `BatteryStatus`.
    StatusCapabilities {
        /// Slot of the device.
        slot: u8,
        /// Runtime index of the feature.
        feature_index: u8,
    },
    /// Read the battery information of `BatteryStatus`.
    StatusInfo {
        /// Slot of the device.
        slot: u8,
        /// Runtime index of the feature.
        feature_index: u8,
    },
}

/// What came of a [`BatteryCall`].
#[derive(Clone, Copy, Debug, PartialEq, Eq)]
pub enum BatteryReply {
    /// Whether `UnifiedBattery` supports percentages.
    UnifiedCapabilities(Result<bool, Hidpp20Error>),
    /// A `UnifiedBattery` reading.
    UnifiedInfo(Result<UnifiedBatteryInfo, Hidpp20Error>),
    /// The capabilities of `BatteryStatus`.
    StatusCapabilities(Result<BatteryCapabilities, Hidpp20Error>),
    /// A `BatteryStatus` reading.
    StatusInfo(Result<battery_status::BatteryInfo, Hidpp20Error>),
}

/// `reply` answers `call`.
pub open spec fn answers_call(call: BatteryCall, reply: BatteryReply) -> bool {
    match call {
        BatteryCall::UnifiedCapabilities { .. } => reply is UnifiedCapabilities,
        BatteryCall::UnifiedInfo { .. } => reply is UnifiedInfo,
        BatteryCall::StatusCapabilities { .. } => reply is StatusCapabilities,
        BatteryCall::StatusInfo { .. } => reply is StatusInfo,
    }
}

/// The one read that refreshes the battery of a probed device.
pub open spec fn info_call(handle: BatteryHandle) -> BatteryCall {
    match handle.endpoint {
        BatteryEndpoint::Unified { .. } => BatteryCall::UnifiedInfo {
            slot: handle.slot,
            feature_index: handle.feature_index,
        },
        BatteryEndpoint::Status { .. } => BatteryCall::StatusInfo {
            slot: handle.slot,
            feature_index: handle.feature_index,
        },
    }
}

/// What a refreshing read shows: nothing if the device did not answer, or
/// answered with an unsupported payload.
pub open spec fn refreshed_battery(handle: BatteryHandle, reply: BatteryReply) -> Option<
    BatteryInfo,
> {
    match (handle.endpoint, reply) {
        (
            BatteryEndpoint::Unified { percentage },
            BatteryReply::UnifiedInfo(Ok(info)),
        ) => Some(shown_unified_battery(info, percentage)),
        (BatteryEndpoint::Status { percentage }, BatteryReply::StatusInfo(Ok(info))) => Some(
            shown_status_battery(percent_of(info.discharge_level), info.status, percentage),
        ),
        _ => None,
    }
}

/// The read that refreshes just the battery, through the endpoint selected by
/// the full probe. It is the only one: no ping, capability read, or
/// feature-table walk goes with it.
pub fn battery_call(handle: &BatteryHandle) -> (call: BatteryCall)
    ensures
        call == info_call(*handle),
{
    match handle.endpoint {
        BatteryEndpoint::Unified { .. } => BatteryCall::UnifiedInfo {
            slot: handle.slot,
            feature_index: handle.feature_index,
        },
        BatteryEndpoint::Status { .. } => BatteryCall::StatusInfo {
            slot: handle.slot,
            feature_index: handle.feature_index,
        },
    }
}

/// The battery state in the reply to [`battery_call`]. `None` means the device
/// did not answer or returned an unsupported payload.
pub fn read_battery(handle: &BatteryHandle, reply: BatteryReply) -> (battery: Option<BatteryInfo>)
    ensures
        battery == refreshed_battery(*handle, reply),
{
    match (handle.endpoint, reply) {
        (
            BatteryEndpoint::Unified { percentage },
            BatteryReply::UnifiedInfo(Ok(info)),
        ) => Some(map_unified_battery(info, percentage)),
        (BatteryEndpoint::Status { percentage }, BatteryReply::StatusInfo(Ok(info))) => Some(
            map_status_battery(info, percentage),
        ),
        _ => None,
    }
}

/// How far a battery probe has come.
#[derive(Clone, Copy, Debug, PartialEq, Eq, Structural)]
pub enum BatteryStage {
    /// The capabilities of `UnifiedBattery` are being read.
    UnifiedCapabilities {
        /// Runtime index of the feature.
        feature_index: u8,
    },
    /// `UnifiedBattery` itself is being read.
    UnifiedInfo {
        /// Runtime index of the feature.
        feature_index: u8,
        /// Whether percentages are trusted.
        percentage: bool,
    },
    /// The capabilities of `BatteryStatus` are being read.
    StatusCapabilities {
        /// Runtime index of the feature.
        feature_index: u8,
    },
    /// `BatteryStatus` itself is being read.
    StatusInfo {
        /// Runtime index of the feature.
        feature_index: u8,
        /// Whether percentages are trusted.
        percentage: bool,
    },
    /// Nothing is left to read.
    Done,
}

/// Probes the available battery protocols of a device and selects the endpoint
/// used by later inventory ticks.
///
/// `0x1004` wins when its status read succeeds; a failed status read falls back
/// to `0x1000`. Capability failures are conservative: the status is still used,
/// but without exposing a percentage.
#[derive(Clone, Copy, Debug, PartialEq, Eq, Structural)]
pub struct BatteryProbe {
    /// Slot of the device.
    pub slot: u8,
    /// Runtime index of `BatteryStatus`, where the device has it.
    pub status: Option<u8>,
    /// How far the probe has come.
    pub stage: BatteryStage,
}

/// What a battery probe wants next.
#[derive(Clone, Copy, Debug, PartialEq, Eq, Structural)]
pub enum BatteryNext {
    /// Perform the read, and hand its reply back.
    Call(BatteryCall),
    /// The probe is over.
    Finish {
        /// The battery state, if it could be read.
        battery: Option<BatteryInfo>,
        /// The feature to read the battery through from now on.
        handle: Option<BatteryHandle>,
    },
}

/// One step of a battery probe.
#[derive(Clone, Copy, Debug, PartialEq, Eq, Structural)]
pub struct BatteryStep {
    /// A feature to attach to now, so that its broadcasts are forwarded. It
    /// replaces the one attached to before.
    pub attach: Option<BatteryHandle>,
    /// What to do then.
    pub next: BatteryNext,
}

impl BatteryProbe {
    /// The read whose reply the probe waits for.
    pub open spec fn pending(self) -> Option<BatteryCall> {
        match self.stage {
            BatteryStage::UnifiedCapabilities { feature_index } => Some(
                BatteryCall::UnifiedCapabilities { slot: self.slot, feature_index },
            ),
            BatteryStage::UnifiedInfo { feature_index, .. } => Some(
                BatteryCall::UnifiedInfo { slot: self.slot, feature_index },
            ),
            BatteryStage::StatusCapabilities { feature_index } => Some(
                BatteryCall::StatusCapabilities { slot: self.slot, feature_index },
            ),
            BatteryStage::StatusInfo { feature_index, .. } => Some(
                BatteryCall::StatusInfo { slot: self.slot, feature_index },
            ),
            BatteryStage::Done => None,
        }
    }

    /// How many reads may still follow, the pending one included.
    pub open spec fn reads_left(self) -> nat {
        match self.stage {
            BatteryStage::UnifiedCapabilities { .. } => 4,
            BatteryStage::UnifiedInfo { .. } => 3,
            BatteryStage::StatusCapabilities { .. } => 2,
            BatteryStage::StatusInfo { .. } => 1,
            BatteryStage::Done => 0,
        }
    }

    /// `reply` answers the pending read.
    pub open spec fn awaits(self, reply: BatteryReply) -> bool {
        self.pending() matches Some(call) && answers_call(call, reply)
    }

    /// The stage once `UnifiedBattery` is done with, in vain: `attached` is its
    /// handle, which is kept if the device has no other battery feature.
    pub open spec fn fallen_back(
        slot: u8,
        status: Option<u8>,
        attached: Option<BatteryHandle>,
    ) -> (BatteryProbe, BatteryStep) {
        match status {
            Some(feature_index) => (
                BatteryProbe {
                    slot,
                    status,
                    stage: BatteryStage::StatusCapabilities { feature_index },
                },
                BatteryStep {
                    attach: attached,
                    next: BatteryNext::Call(BatteryCall::StatusCapabilities { slot, feature_index }),
                },
            ),
            None => (
                BatteryProbe { slot, status, stage: BatteryStage::Done },
                BatteryStep {
                    attach: attached,
                    next: BatteryNext::Finish { battery: None, handle: attached },
                },
            ),
        }
    }

    /// A new probe, and its first step.
    pub open spec fn started(slot: u8, indices: BatteryFeatureIndices) -> (
        BatteryProbe,
        BatteryStep,
    ) {
        match indices.unified {
            Some(feature_index) => (
                BatteryProbe {
                    slot,
                    status: indices.status,
                    stage: BatteryStage::UnifiedCapabilities { feature_index },
                },
                BatteryStep {
                    attach: None,
                    next: BatteryNext::Call(
                        BatteryCall::UnifiedCapabilities { slot, feature_index },
                    ),
                },
            ),
            None => BatteryProbe::fallen_back(slot, indices.status, None),
        }
    }

    /// The probe after the reply to its pending read, and its next step.
    pub open spec fn advanced(self, reply: BatteryReply) -> (BatteryProbe, BatteryStep) {
        let slot = self.slot;
        match (self.stage, reply) {
            (
                BatteryStage::UnifiedCapabilities { feature_index },
                BatteryReply::UnifiedCapabilities(supported),
            ) => (
                BatteryProbe {
                    stage: BatteryStage::UnifiedInfo {
                        feature_index,
                        percentage: unified_percentage(supported),
                    },
                    ..self
                },
                BatteryStep {
                    attach: None,
                    next: BatteryNext::Call(BatteryCall::UnifiedInfo { slot, feature_index }),
                },
            ),
            (
                BatteryStage::UnifiedInfo { feature_index, percentage },
                BatteryReply::UnifiedInfo(Ok(info)),
            ) => (
                BatteryProbe { stage: BatteryStage::Done, ..self },
                BatteryStep {
                    attach: Some(unified_handle(slot, feature_index, percentage)),
                    next: BatteryNext::Finish {
                        battery: Some(shown_unified_battery(info, percentage)),
                        handle: Some(unified_handle(slot, feature_index, percentage)),
                    },
                },
            ),
            (
                BatteryStage::UnifiedInfo { feature_index, percentage },
                BatteryReply::UnifiedInfo(Err(_)),
            ) => BatteryProbe::fallen_back(
                slot,
                self.status,
                Some(unified_handle(slot, feature_index, percentage)),
            ),
            (
                BatteryStage::StatusCapabilities { feature_index },
                BatteryReply::StatusCapabilities(capabilities),
            ) => (
                BatteryProbe {
                    stage: BatteryStage::StatusInfo {
                        feature_index,
                        percentage: status_percentage(capabilities),
                    },
                    ..self
                },
                BatteryStep {
                    attach: None,
                    next: BatteryNext::Call(BatteryCall::StatusInfo { slot, feature_index }),
                },
            ),
            (
                BatteryStage::StatusInfo { feature_index, percentage },
                BatteryReply::StatusInfo(info),
            ) => (
                BatteryProbe { stage: BatteryStage::Done, ..self },
                BatteryStep {
                    attach: Some(status_handle(slot, feature_index, percentage)),
                    next: BatteryNext::Finish {
                        battery: status_reading(info, percentage),
                        handle: Some(status_handle(slot, feature_index, percentage)),
                    },
                },
            ),
            _ => (
                self,
                BatteryStep {
                    attach: None,
                    next: BatteryNext::Finish { battery: None, handle: None },
                },
            ),
        }
    }

    fn fall_back(
        &mut self,
        attached: Option<BatteryHandle>,
    ) -> (step: BatteryStep)
        ensures
            (*final(self), step) == BatteryProbe::fallen_back(
                old(self).slot,
                old(self).status,
                attached,
            ),
    {
        match self.status {
            Some(feature_index) => {
                self.stage = BatteryStage::StatusCapabilities { feature_index };
                BatteryStep {
                    attach: attached,
                    next: BatteryNext::Call(
                        BatteryCall::StatusCapabilities { slot: self.slot, feature_index },
                    ),
                }
            },
            None => {
                self.stage = BatteryStage::Done;
                BatteryStep {
                    attach: attached,
                    next: BatteryNext::Finish { battery: None, handle: attached },
                }
            },
        }
    }

    /// Starts to probe the battery features at `indices` of the device in `slot`.
    pub fn start(slot: u8, indices: BatteryFeatureIndices) -> (probe: (BatteryProbe, BatteryStep))
        ensures
            probe == BatteryProbe::started(slot, indices),
    {
        match indices.unified {
            Some(feature_index) => (
                BatteryProbe {
                    slot,
                    status: indices.status,
                    stage: BatteryStage::UnifiedCapabilities { feature_index },
                },
                BatteryStep {
                    attach: None,
                    next: BatteryNext::Call(
                        BatteryCall::UnifiedCapabilities { slot, feature_index },
                    ),
                },
            ),
            None => {
                let mut probe = BatteryProbe {
                    slot,
                    status: indices.status,
                    stage: BatteryStage::Done,
                };
                let step = probe.fall_back(None);
                (probe, step)
            },
        }
    }

    /// Takes the reply to the pending read, and says what to do next.
    pub fn advance(&mut self, reply: BatteryReply) -> (step: BatteryStep)
        requires
            old(self).awaits(reply),
        ensures
            (*final(self), step) == old(self).advanced(reply),
    {
        let slot = self.slot;
        match (self.stage, reply) {
            (
                BatteryStage::UnifiedCapabilities { feature_index },
                BatteryReply::UnifiedCapabilities(supported),
            ) => {
                let percentage = match supported {
                    Ok(percentage) => percentage,
                    Err(_) => false,
                };
                self.stage = BatteryStage::UnifiedInfo { feature_index, percentage };
                BatteryStep {
                    attach: None,
                    next: BatteryNext::Call(BatteryCall::UnifiedInfo { slot, feature_index }),
                }
            },
            (
                BatteryStage::UnifiedInfo { feature_index, percentage },
                BatteryReply::UnifiedInfo(reading),
            ) => {
                let handle = BatteryHandle::unified(slot, feature_index, percentage);
                match reading {
                    Ok(info) => {
                        self.stage = BatteryStage::Done;
                        BatteryStep {
                            attach: Some(handle),
                            next: BatteryNext::Finish {
                                battery: Some(map_unified_battery(info, percentage)),
                                handle: Some(handle),
                            },
                        }
                    },
                    Err(_) => self.fall_back(Some(handle)),
                }
            },
            (
                BatteryStage::StatusCapabilities { feature_index },
                BatteryReply::StatusCapabilities(capabilities),
            ) => {
                let percentage = match capabilities {
                    Ok(capabilities) => capabilities.reports_percentage(),
                    Err(_) => false,
                };
                self.stage = BatteryStage::StatusInfo { feature_index, percentage };
                BatteryStep {
                    attach: None,
                    next: BatteryNext::Call(BatteryCall::StatusInfo { slot, feature_index }),
                }
            },
            (
                BatteryStage::StatusInfo { feature_index, percentage },
                BatteryReply::StatusInfo(reading),
            ) => {
                let handle = BatteryHandle::status(slot, feature_index, percentage);
                let battery = match reading {
                    Ok(info) => Some(map_status_battery(info, percentage)),
                    Err(_) => None,
                };
                self.stage = BatteryStage::Done;
                BatteryStep {
                    attach: Some(handle),
                    next: BatteryNext::Finish { battery, handle: Some(handle) },
                }
            },
            _ => BatteryStep {
                attach: None,
                next: BatteryNext::Finish { battery: None, handle: None },
            },
        }
    }
}

/// Percentages of `UnifiedBattery` are trusted if its capabilities could be read
/// and say so.
pub open spec fn unified_percentage(supported: Result<bool, Hidpp20Error>) -> bool {
    supported == Ok::<bool, Hidpp20Error>(true)
}

/// Percentages of `BatteryStatus` are trusted if its capabilities could be read
/// and show enough resolution.
pub open spec fn status_percentage(
    capabilities: Result<BatteryCapabilities, Hidpp20Error>,
) -> bool {
    capabilities matches Ok(c) && c.has_percentage()
}

/// The battery state in a `BatteryStatus` reading that may have failed.
pub open spec fn status_reading(
    info: Result<battery_status::BatteryInfo, Hidpp20Error>,
    percentage: bool,
) -> Option<BatteryInfo> {
    match info {
        Ok(i) => Some(shown_status_battery(percent_of(i.discharge_level), i.status, percentage)),
        Err(_) => None,
    }
}

} // verus!
