//! Whole battery probes, from the first step to the selected endpoint.

use vstd::prelude::*;

use super::battery::{
    answers_call, level_bucket, refreshed_battery, shown_status_battery, shown_unified_battery,
    status_handle, status_percentage, status_reading, unified_handle, unified_percentage,
    BatteryBroadcast, BatteryCall, BatteryEndpoint, BatteryFeatureIndices, BatteryHandle,
    BatteryNext, BatteryProbe, BatteryReply,
};
use crate::device::{BatteryInfo, BatteryLevel};
use crate::feature::battery_status;
use crate::feature::battery_status::{is_battery_report, percent_of, reports, BatteryCapabilities};
use crate::feature::unified_battery::{UnifiedBatteryEvent, UnifiedBatteryInfo};
use crate::feature::Hidpp20Error;

verus! {

/// What a device would answer to each read of a battery probe.
pub struct BatteryAnswers {
    /// To the read of the `UnifiedBattery` capabilities.
    pub unified_capabilities: Result<bool, Hidpp20Error>,
    /// To the read of `UnifiedBattery`.
    pub unified_info: Result<UnifiedBatteryInfo, Hidpp20Error>,
    /// To the read of the `BatteryStatus` capabilities.
    pub status_capabilities: Result<BatteryCapabilities, Hidpp20Error>,
    /// To the read of `BatteryStatus`.
    pub status_info: Result<battery_status::BatteryInfo, Hidpp20Error>,
}

impl BatteryAnswers {
    /// The answer to `call`.
    pub open spec fn reply_to(self, call: BatteryCall) -> BatteryReply {
        match call {
            BatteryCall::UnifiedCapabilities { .. } => BatteryReply::UnifiedCapabilities(
                self.unified_capabilities,
            ),
            BatteryCall::UnifiedInfo { .. } => BatteryReply::UnifiedInfo(self.unified_info),
            BatteryCall::StatusCapabilities { .. } => BatteryReply::StatusCapabilities(
                self.status_capabilities,
            ),
            BatteryCall::StatusInfo { .. } => BatteryReply::StatusInfo(self.status_info),
        }
    }
}

/// What a battery probe did and found.
pub struct BatteryRun {
    /// The reads, in order.
    pub asked: Seq<BatteryCall>,
    /// The battery state.
    pub battery: Option<BatteryInfo>,
    /// The feature to read the battery through from now on.
    pub handle: Option<BatteryHandle>,
    /// The features attached to on the way, in order.
    pub attached: Seq<BatteryHandle>,
}

/// What one step attaches to.
pub open spec fn attached_now(attach: Option<BatteryHandle>) -> Seq<BatteryHandle> {
    match attach {
        Some(handle) => seq![handle],
        None => seq![],
    }
}

/// What is left of a probe whose device answers with `answers`.
pub open spec fn rest_of_run(probe: BatteryProbe, answers: BatteryAnswers) -> BatteryRun
    decreases probe.reads_left(),
{
    match probe.pending() {
        Some(call) => {
            let (after, step) = probe.advanced(answers.reply_to(call));
            match step.next {
                BatteryNext::Call(_) => {
                    let rest = rest_of_run(after, answers);
                    BatteryRun {
                        asked: seq![call] + rest.asked,
                        attached: attached_now(step.attach) + rest.attached,
                        ..rest
                    }
                },
                BatteryNext::Finish { battery, handle } => BatteryRun {
                    asked: seq![call],
                    battery,
                    handle,
                    attached: attached_now(step.attach),
                },
            }
        },
        None => BatteryRun { asked: seq![], battery: None, handle: None, attached: seq![] },
    }
}

/// A whole probe of a device that answers with `answers`.
pub open spec fn battery_run(
    slot: u8,
    indices: BatteryFeatureIndices,
    answers: BatteryAnswers,
) -> BatteryRun {
    let (probe, step) = BatteryProbe::started(slot, indices);
    match step.next {
        BatteryNext::Call(_) => {
            let rest = rest_of_run(probe, answers);
            BatteryRun { attached: attached_now(step.attach) + rest.attached, ..rest }
        },
        BatteryNext::Finish { battery, handle } => BatteryRun {
            asked: seq![],
            battery,
            handle,
            attached: attached_now(step.attach),
        },
    }
}

/// `UnifiedBattery` is there and could be read.
pub open spec fn unified_wins(indices: BatteryFeatureIndices, answers: BatteryAnswers) -> bool {
    indices.unified is Some && answers.unified_info is Ok
}

/// The battery state that a probe finds.
pub open spec fn found_battery(indices: BatteryFeatureIndices, answers: BatteryAnswers) -> Option<
    BatteryInfo,
> {
    if unified_wins(indices, answers) {
        Some(
            shown_unified_battery(
                answers.unified_info->Ok_0,
                unified_percentage(answers.unified_capabilities),
            ),
        )
    } else if indices.status is Some {
        status_reading(answers.status_info, status_percentage(answers.status_capabilities))
    } else {
        None
    }
}

/// The feature that a probe selects: an unreadable `UnifiedBattery` is kept only
/// where there is no `BatteryStatus` to fall back to.
pub open spec fn found_handle(
    slot: u8,
    indices: BatteryFeatureIndices,
    answers: BatteryAnswers,
) -> Option<BatteryHandle> {
    if indices.unified is Some && (answers.unified_info is Ok || indices.status is None) {
        Some(
            unified_handle(
                slot,
                indices.unified->0,
                unified_percentage(answers.unified_capabilities),
            ),
        )
    } else if indices.status is Some {
        Some(
            status_handle(
                slot,
                indices.status->0,
                status_percentage(answers.status_capabilities),
            ),
        )
    } else {
        None
    }
}

/// The reads of a probe, in order.
pub open spec fn reads_of_probe(
    slot: u8,
    indices: BatteryFeatureIndices,
    answers: BatteryAnswers,
) -> Seq<BatteryCall> {
    let unified = match indices.unified {
        Some(feature_index) => seq![
            BatteryCall::UnifiedCapabilities { slot, feature_index },
            BatteryCall::UnifiedInfo { slot, feature_index },
        ],
        None => seq![],
    };
    let legacy = match indices.status {
        Some(feature_index) => seq![
            BatteryCall::StatusCapabilities { slot, feature_index },
            BatteryCall::StatusInfo { slot, feature_index },
        ],
        None => seq![],
    };
    if unified_wins(indices, answers) {
        unified
    } else {
        unified + legacy
    }
}

/// A probe reads `UnifiedBattery` first and uses it if that succeeds, without
/// asking `BatteryStatus` anything; else it falls back to `BatteryStatus`. A
/// failed capability read only withholds the percentage.
pub proof fn battery_probe_prefers_unified(
    slot: u8,
    indices: BatteryFeatureIndices,
    answers: BatteryAnswers,
)
    ensures
        battery_run(slot, indices, answers).asked == reads_of_probe(slot, indices, answers),
        battery_run(slot, indices, answers).battery == found_battery(indices, answers),
        battery_run(slot, indices, answers).handle == found_handle(slot, indices, answers),
{
    reveal_with_fuel(rest_of_run, 5);
    assert(battery_run(slot, indices, answers).asked =~= reads_of_probe(slot, indices, answers));
}

/// Every reply to a pending read brings a probe closer to its end, so a probe
/// makes at most four reads.
pub proof fn battery_probe_ends(probe: BatteryProbe, reply: BatteryReply)
    requires
        probe.awaits(reply),
    ensures
        probe.reads_left() <= 4,
        probe.advanced(reply).0.reads_left() < probe.reads_left(),
        match probe.advanced(reply).1.next {
            BatteryNext::Call(call) => probe.advanced(reply).0.pending() == Some(call),
            BatteryNext::Finish { .. } => probe.advanced(reply).0.pending() is None,
        },
{
}

/// The feature that a probe ends with is the one it attached to last.
pub proof fn battery_probe_keeps_what_it_attached(probe: BatteryProbe, reply: BatteryReply)
    requires
        probe.awaits(reply),
        probe.advanced(reply).1.next is Finish,
    ensures
        probe.advanced(reply).1.next->handle == probe.advanced(reply).1.attach,
        probe.advanced(reply).1.attach is Some,
{
}

/// A percentage is only shown where the device's capabilities vouch for it, and
/// then lies between 0 and 100.
pub proof fn unified_percentage_is_trusted(info: UnifiedBatteryInfo, percentage: bool)
    ensures
        shown_unified_battery(info, percentage).percentage matches Some(shown) ==> percentage
            && shown == info.charging_percentage && shown <= 100,
        percentage && info.charging_percentage <= 100 ==> shown_unified_battery(
            info,
            percentage,
        ).percentage == Some(info.charging_percentage),
{
}

/// What a decoded `BatteryStatus` report shows: a percentage between 1 and 100
/// exactly where percentages are trusted and the device gave a level, and a
/// coarse level exactly where the device gave one.
pub proof fn status_percentage_is_trusted(
    payload: Seq<u8>,
    info: battery_status::BatteryInfo,
    percentage: bool,
)
    requires
        is_battery_report(payload),
        reports(payload, info),
    ensures
        ({
            let shown = shown_status_battery(
                percent_of(info.discharge_level),
                info.status,
                percentage,
            );
            &&& shown.percentage is Some <==> percentage && payload[0] != 0
            &&& shown.percentage is Some ==> shown.percentage == Some(payload[0]) && 1 <= payload[0]
                <= 100
            &&& shown.level == BatteryLevel::Unknown <==> payload[0] == 0
        }),
{
}

/// The rank of a level, from empty to full.
pub open spec fn level_rank(level: BatteryLevel) -> int {
    match level {
        BatteryLevel::Unknown => 0,
        BatteryLevel::Critical => 1,
        BatteryLevel::Low => 2,
        BatteryLevel::Good => 3,
        BatteryLevel::Full => 4,
    }
}

/// The coarse buckets leave no level from 1 to 100 out, and a fuller battery is
/// never shown as emptier.
pub proof fn level_buckets_are_ordered(a: u8, b: u8)
    requires
        1 <= a <= b <= 100,
    ensures
        level_bucket(Some(a)) != BatteryLevel::Unknown,
        level_rank(level_bucket(Some(a))) <= level_rank(level_bucket(Some(b))),
{
}

/// A broadcast and a read through the same handle show the same of the same
/// reading.
pub proof fn broadcast_agrees_with_refresh(
    handle: BatteryHandle,
    unified: UnifiedBatteryInfo,
    status: battery_status::BatteryInfo,
)
    ensures
        super::battery::shown_broadcast(
            handle,
            BatteryBroadcast::Unified(UnifiedBatteryEvent::InfoUpdate(unified)),
        ) == refreshed_battery(handle, BatteryReply::UnifiedInfo(Ok(unified))),
        super::battery::shown_broadcast(
            handle,
            BatteryBroadcast::Status(battery_status::BatteryEvent::InfoUpdate(status)),
        ) == refreshed_battery(handle, BatteryReply::StatusInfo(Ok(status))),
{
}

/// Reading a battery again through the selected feature shows what the probe
/// showed, if the device answers the same.
pub proof fn refresh_agrees_with_probe(
    slot: u8,
    indices: BatteryFeatureIndices,
    answers: BatteryAnswers,
)
    requires
        found_handle(slot, indices, answers) is Some,
    ensures
        ({
            let handle = found_handle(slot, indices, answers)->0;
            let call = super::battery::info_call(handle);
            &&& answers_call(call, answers.reply_to(call))
            &&& refreshed_battery(handle, answers.reply_to(call)) == found_battery(indices, answers)
        }),
{
}

/// The read that refreshes the battery of a handle goes to the handle's own device
/// and feature, and speaks the handle's protocol: two handles that differ in one of
/// these are refreshed by different reads.
pub proof fn refresh_addresses_the_handle(handle: BatteryHandle, other: BatteryHandle)
    ensures
        match super::battery::info_call(handle) {
            BatteryCall::UnifiedInfo { slot, feature_index } => {
                &&& handle.endpoint is Unified
                &&& slot == handle.slot
                &&& feature_index == handle.feature_index
            },
            BatteryCall::StatusInfo { slot, feature_index } => {
                &&& handle.endpoint is Status
                &&& slot == handle.slot
                &&& feature_index == handle.feature_index
            },
            _ => false,
        },
        super::battery::info_call(handle) == super::battery::info_call(other) ==> handle.slot
            == other.slot && handle.feature_index == other.feature_index
            && (handle.endpoint is Unified <==> other.endpoint is Unified),
{
}

/// Every read of a probe goes to the device in `slot`, and to the feature whose
/// index the table gives for the protocol that is read.
pub proof fn battery_reads_address_the_device(
    slot: u8,
    indices: BatteryFeatureIndices,
    answers: BatteryAnswers,
    i: int,
)
    requires
        0 <= i < battery_run(slot, indices, answers).asked.len(),
    ensures
        match battery_run(slot, indices, answers).asked[i] {
            BatteryCall::UnifiedCapabilities { slot: asked, feature_index } => asked == slot
                && indices.unified == Some(feature_index) && i == 0,
            BatteryCall::UnifiedInfo { slot: asked, feature_index } => asked == slot
                && indices.unified == Some(feature_index) && i == 1,
            BatteryCall::StatusCapabilities { slot: asked, feature_index } => asked == slot
                && indices.status == Some(feature_index) && i == battery_run(
                slot,
                indices,
                answers,
            ).asked.len() - 2,
            BatteryCall::StatusInfo { slot: asked, feature_index } => asked == slot
                && indices.status == Some(feature_index) && i == battery_run(
                slot,
                indices,
                answers,
            ).asked.len() - 1,
        },
{
    battery_probe_prefers_unified(slot, indices, answers);
}

/// Each battery feature that is read is asked for its capabilities and for its
/// reading, once. `UnifiedBattery` is read wherever it is there, and
/// `BatteryStatus` exactly where no `UnifiedBattery` could be read.
pub proof fn battery_probe_reads_what_it_needs(
    slot: u8,
    indices: BatteryFeatureIndices,
    answers: BatteryAnswers,
)
    ensures
        ({
            let asked = battery_run(slot, indices, answers).asked;
            let unified: int = if indices.unified is Some {
                2
            } else {
                0
            };
            let legacy: int = if indices.status is Some && (indices.unified is None
                || answers.unified_info is Err) {
                2
            } else {
                0
            };
            &&& asked.len() == unified + legacy
            &&& unified == 2 ==> asked[0] is UnifiedCapabilities && asked[1] is UnifiedInfo
            &&& legacy == 2 ==> asked[unified] is StatusCapabilities && asked[unified
                + 1] is StatusInfo
        }),
{
    battery_probe_prefers_unified(slot, indices, answers);
}

/// A refresh repeats the last read of the probe: the feature that the probe selects
/// is the one it read last.
pub proof fn refresh_repeats_the_last_read(
    slot: u8,
    indices: BatteryFeatureIndices,
    answers: BatteryAnswers,
)
    ensures
        ({
            let run = battery_run(slot, indices, answers);
            &&& run.handle is Some <==> run.asked.len() > 0
            &&& run.handle is Some ==> super::battery::info_call(run.handle->0) == run.asked.last()
        }),
        found_handle(slot, indices, answers) matches Some(handle) ==> super::battery::info_call(
            handle,
        ) == reads_of_probe(slot, indices, answers).last(),
{
    battery_probe_prefers_unified(slot, indices, answers);
}

/// What a probe finds through `UnifiedBattery`: the level and the charging state as
/// the device reported them, and the reported percentage exactly where the device
/// answered that it supports percentages and the value is one. A device that denied
/// it, or did not answer, shows none, then and on every refresh through the handle.
pub proof fn unified_percentage_needs_the_capability(
    slot: u8,
    indices: BatteryFeatureIndices,
    answers: BatteryAnswers,
    info: UnifiedBatteryInfo,
    later: UnifiedBatteryInfo,
)
    requires
        indices.unified is Some,
        answers.unified_info == Ok::<UnifiedBatteryInfo, Hidpp20Error>(info),
    ensures
        ({
            let run = battery_run(slot, indices, answers);
            let vouched = match answers.unified_capabilities {
                Ok(supported) => supported,
                Err(_) => false,
            };
            &&& run.handle matches Some(handle) && handle.slot == slot && indices.unified == Some(
                handle.feature_index,
            ) && handle.endpoint == (BatteryEndpoint::Unified { percentage: vouched })
            &&& run.battery matches Some(battery) && (battery.percentage is Some <==> vouched
                && info.charging_percentage <= 100) && (battery.percentage is Some
                ==> battery.percentage == Some(info.charging_percentage)) && battery.level
                == crate::mappings::shown_level(info.level) && battery.status
                == crate::mappings::shown_status(info.status)
            &&& refreshed_battery(
                run.handle->0,
                BatteryReply::UnifiedInfo(Ok(later)),
            ) matches Some(battery) && (battery.percentage is Some <==> vouched
                && later.charging_percentage <= 100) && (battery.percentage is Some
                ==> battery.percentage == Some(later.charging_percentage)) && battery.level
                == crate::mappings::shown_level(later.level) && battery.status
                == crate::mappings::shown_status(later.status)
        }),
{
    battery_probe_prefers_unified(slot, indices, answers);
}

/// What a probe finds through `BatteryStatus`: a percentage exactly where the device
/// gave a level and its capabilities, which it answered, have at least ten levels
/// and the mileage flag; the bucket of the level; and the charging state as
/// reported. Without a reading it shows nothing. The handle is selected either way.
pub proof fn status_percentage_needs_the_capability(
    slot: u8,
    indices: BatteryFeatureIndices,
    answers: BatteryAnswers,
    later: battery_status::BatteryInfo,
)
    requires
        indices.status is Some,
        indices.unified is None || answers.unified_info is Err,
    ensures
        ({
            let run = battery_run(slot, indices, answers);
            let vouched = match answers.status_capabilities {
                Ok(capabilities) => capabilities.level_count >= 10 && (capabilities.flags.raw / 2)
                    % 2 == 1,
                Err(_) => false,
            };
            &&& run.handle matches Some(handle) && handle.slot == slot && indices.status == Some(
                handle.feature_index,
            ) && handle.endpoint == (BatteryEndpoint::Status { percentage: vouched })
            &&& run.battery is Some <==> answers.status_info is Ok
            &&& run.battery matches Some(battery) ==> {
                let info = answers.status_info->Ok_0;
                &&& battery.percentage is Some <==> vouched && info.discharge_level is Some
                &&& battery.percentage matches Some(percent) ==> percent
                    == info.discharge_level->0@
                &&& battery.level == level_bucket(percent_of(info.discharge_level))
                &&& battery.status == crate::mappings::shown_status(info.status)
            }
            &&& refreshed_battery(
                run.handle->0,
                BatteryReply::StatusInfo(Ok(later)),
            ) matches Some(battery) && (battery.percentage is Some <==> vouched
                && later.discharge_level is Some) && (battery.percentage is Some
                ==> battery.percentage == Some(later.discharge_level->0@)) && battery.level
                == level_bucket(percent_of(later.discharge_level)) && battery.status
                == crate::mappings::shown_status(later.status)
        }),
{
    battery_probe_prefers_unified(slot, indices, answers);
    if let Ok(capabilities) = answers.status_capabilities {
        battery_status::percentage_needs_levels_and_mileage(capabilities);
    }
}

/// A device whose `UnifiedBattery` cannot be read and that has no `BatteryStatus`
/// shows no battery, but keeps the feature; a device with neither has nothing.
pub proof fn unreadable_battery_shows_nothing(
    slot: u8,
    indices: BatteryFeatureIndices,
    answers: BatteryAnswers,
)
    requires
        indices.status is None,
        indices.unified is None || answers.unified_info is Err,
    ensures
        ({
            let run = battery_run(slot, indices, answers);
            &&& run.battery is None
            &&& run.handle is Some <==> indices.unified is Some
            &&& run.handle matches Some(handle) ==> handle.slot == slot && indices.unified == Some(
                handle.feature_index,
            ) && (handle.endpoint matches BatteryEndpoint::Unified { percentage } && (percentage
                <==> (answers.unified_capabilities matches Ok(supported) && supported)))
        }),
{
    battery_probe_prefers_unified(slot, indices, answers);
}

/// A probe attaches to every battery feature that it read, in the order it read
/// them, and to nothing else: the feature it selects is the last of them.
pub proof fn probe_attaches_to_what_it_reads(
    slot: u8,
    indices: BatteryFeatureIndices,
    answers: BatteryAnswers,
)
    ensures
        ({
            let run = battery_run(slot, indices, answers);
            &&& run.asked.len() == 2 * run.attached.len()
            &&& forall|i: int|
                0 <= i < run.attached.len() ==> super::battery::info_call(
                    #[trigger] run.attached[i],
                ) == run.asked[2 * i + 1]
            &&& run.handle is Some <==> run.attached.len() > 0
            &&& run.handle is Some ==> run.handle == Some(run.attached.last())
            &&& run.attached.len() > 0 && indices.unified is Some
                ==> (run.attached[0].endpoint matches BatteryEndpoint::Unified { percentage }
                && (percentage <==> (answers.unified_capabilities matches Ok(supported)
                && supported)))
        }),
{
    reveal_with_fuel(rest_of_run, 5);
}

/// A read through a handle shows something exactly if the device answered with a
/// reading of the handle's own protocol.
pub proof fn refresh_needs_an_answer(handle: BatteryHandle, reply: BatteryReply)
    ensures
        refreshed_battery(handle, reply) is Some <==> match reply {
            BatteryReply::UnifiedInfo(info) => info is Ok && handle.endpoint is Unified,
            BatteryReply::StatusInfo(info) => info is Ok && handle.endpoint is Status,
            _ => false,
        },
{
}

/// A broadcast shows something exactly if it is a reading of the handle's own
/// protocol.
pub proof fn broadcasts_show_readings(handle: BatteryHandle, event: BatteryBroadcast)
    ensures
        super::battery::shown_broadcast(handle, event) is Some <==> match event {
            BatteryBroadcast::Unified(unified) => unified is InfoUpdate && handle.endpoint is Unified,
            BatteryBroadcast::Status(_) => handle.endpoint is Status,
        },
{
}

/// What any reading shows, whoever asked for it: the charging state and the level
/// do not depend on whether percentages are trusted, and a trusted percentage is
/// the reported number.
pub proof fn readings_show_what_was_reported(
    unified: UnifiedBatteryInfo,
    level: Option<u8>,
    status: crate::feature::unified_battery::BatteryStatus,
    percentage: bool,
)
    ensures
        ({
            let shown = shown_unified_battery(unified, percentage);
            &&& shown.percentage is Some <==> percentage && unified.charging_percentage <= 100
            &&& shown.percentage is Some ==> shown.percentage == Some(unified.charging_percentage)
            &&& shown.level == crate::mappings::shown_level(unified.level)
            &&& shown.status == crate::mappings::shown_status(unified.status)
        }),
        ({
            let shown = shown_status_battery(level, status, percentage);
            &&& shown.percentage is Some <==> percentage && level is Some
            &&& shown.percentage is Some ==> shown.percentage == level
            &&& shown.level == level_bucket(level)
            &&& shown.status == crate::mappings::shown_status(status)
        }),
{
}

/// The coarse buckets: a tenth or less is critical, less than thirty percent low,
/// up to eighty good, and more full. Everything else is unknown.
pub proof fn level_buckets_have_their_bounds(level: Option<u8>)
    ensures
        level_bucket(level) is Critical <==> level is Some && 0 < level->0 <= 10,
        level_bucket(level) is Low <==> level is Some && 10 < level->0 < 30,
        level_bucket(level) is Good <==> level is Some && 30 <= level->0 <= 80,
        level_bucket(level) is Full <==> level is Some && 80 < level->0 <= 100,
        level_bucket(level) is Unknown <==> level is None || level->0 == 0 || level->0 > 100,
{
}

/// The features of a table are found where they are: the first entry of a battery
/// feature within the range of an index gives its index, and there is no index
/// without such an entry.
pub proof fn battery_features_are_found(ids: Seq<u16>, at: int)
    ensures
        ({
            let first = |id: u16|
                0 <= at < ids.len() && at < 255 && ids[at] == id && forall|j: int|
                    0 <= j < at ==> ids[j] != id;
            let indices = super::battery::indices_in(ids);
            &&& first(0x1004u16) ==> (indices.unified matches Some(index) && index == at + 1)
            &&& first(0x1000u16) ==> (indices.status matches Some(index) && index == at + 1)
            &&& indices.unified matches Some(index) ==> 1 <= index <= ids.len() && ids[index - 1]
                == 0x1004
            &&& indices.status matches Some(index) ==> 1 <= index <= ids.len() && ids[index - 1]
                == 0x1000
        }),
{
    super::battery::feature_index_exists(ids, 0x1004);
    super::battery::feature_index_exists(ids, 0x1000);
    if 0 <= at < ids.len() && at < 255 {
        let found = Some((at + 1) as u8);
        let indices = super::battery::indices_in(ids);
        if ids[at] == 0x1004 && (forall|j: int| 0 <= j < at ==> ids[j] != 0x1004) {
            super::battery::feature_index_is_unique(ids, 0x1004, found, indices.unified);
        }
        if ids[at] == 0x1000 && (forall|j: int| 0 <= j < at ==> ids[j] != 0x1000) {
            super::battery::feature_index_is_unique(ids, 0x1000, found, indices.status);
        }
    }
}

} // verus!
