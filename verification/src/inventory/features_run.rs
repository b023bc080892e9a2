//! Whole device probes, from the opened session to what was read.

use vstd::prelude::*;

use super::battery::{BatteryFeatureIndices, BatteryHandle, BatteryProbe};
use super::battery_run::{BatteryAnswers, BatteryRun};
use super::features::{
    DeviceInformation, Enumeration, FeatureProbe, ProbeCall, ProbeReply, ProbeStage, ProbeStep,
    ProbedFeatures,
};
use crate::device::{DeviceKind, DeviceModelInfo};
use crate::feature::Hidpp20Error;

verus! {

/// What a device would answer to each request of a full probe.
pub struct ProbeAnswers {
    /// To opening a session.
    pub opened: Result<(), Hidpp20Error>,
    /// To enumerating its features.
    pub enumerated: Result<Enumeration, Hidpp20Error>,
    /// To reading its wheel.
    pub wheel: Result<bool, Hidpp20Error>,
    /// To reading its battery.
    pub battery: BatteryAnswers,
    /// To reading its device information.
    pub information: Result<DeviceInformation, Hidpp20Error>,
    /// To reading its serial number.
    pub serial_number: Result<Option<String>, Hidpp20Error>,
    /// To reading its marketing type.
    pub device_type: Result<DeviceKind, Hidpp20Error>,
}

impl ProbeAnswers {
    /// The answer to `call`.
    pub open spec fn reply_to(self, call: ProbeCall) -> ProbeReply {
        match call {
            ProbeCall::OpenDevice => ProbeReply::Opened(self.opened),
            ProbeCall::EnumerateFeatures => ProbeReply::Enumerated(self.enumerated),
            ProbeCall::ReadWheel => ProbeReply::Wheel(self.wheel),
            ProbeCall::ReadBattery(battery) => ProbeReply::Battery(self.battery.reply_to(battery)),
            ProbeCall::ReadInformation => ProbeReply::Information(self.information),
            ProbeCall::ReadSerialNumber => ProbeReply::SerialNumber(self.serial_number),
            ProbeCall::ReadDeviceType => ProbeReply::DeviceType(self.device_type),
        }
    }
}

/// What a full probe did and found.
pub struct ProbeRun {
    /// The requests, in order.
    pub asked: Seq<ProbeCall>,
    /// What was read.
    pub features: ProbedFeatures,
    /// The battery feature to read from now on.
    pub handle: Option<BatteryHandle>,
    /// The battery features attached to on the way, in order.
    pub attached: Seq<BatteryHandle>,
}

/// What follows `step`, if the device answers with `answers`.
pub open spec fn rest_of_probe(step: ProbeStep, answers: ProbeAnswers, fuel: nat) -> ProbeRun
    decreases fuel,
{
    match step {
        ProbeStep::Finish { features, attach, handle } => ProbeRun {
            asked: seq![],
            features,
            handle,
            attached: super::battery_run::attached_now(attach),
        },
        ProbeStep::Call { probe, attach, call } => if fuel == 0 {
            ProbeRun {
                asked: seq![],
                features: probe.found,
                handle: probe.handle,
                attached: super::battery_run::attached_now(attach),
            }
        } else {
            let rest = rest_of_probe(
                probe.advanced(answers.reply_to(call)),
                answers,
                (fuel - 1) as nat,
            );
            ProbeRun {
                asked: seq![call] + rest.asked,
                attached: super::battery_run::attached_now(attach) + rest.attached,
                ..rest
            }
        },
    }
}

/// A whole probe of the device in `slot`, which answers with `answers`. No probe
/// makes more than ten requests.
pub open spec fn probe_run(slot: u8, answers: ProbeAnswers) -> ProbeRun {
    rest_of_probe(
        FeatureProbe::new_probe(slot).asking(ProbeStage::Opening, None, ProbeCall::OpenDevice),
        answers,
        10,
    )
}

/// The battery features that the answers show.
pub open spec fn shown_indices(enumeration: Enumeration) -> BatteryFeatureIndices {
    match enumeration.table {
        Some(table) => super::battery::indices_in(table.ids@),
        None => BatteryFeatureIndices { unified: None, status: None },
    }
}

/// The identity that the answers show.
pub open spec fn shown_model(
    present: bool,
    information: Result<DeviceInformation, Hidpp20Error>,
    serial_number: Result<Option<String>, Hidpp20Error>,
) -> Option<DeviceModelInfo> {
    match information {
        Ok(info) => if present {
            Some(
                super::features::model_of(
                    info,
                    match serial_number {
                        Ok(serial) => if info.has_serial_number {
                            serial
                        } else {
                            None
                        },
                        Err(_) => None,
                    },
                ),
            )
        } else {
            None
        },
        Err(_) => None,
    }
}

/// A read of the unit's identity, which the device should have answered, failed.
pub open spec fn identity_failed(
    present: bool,
    information: Result<DeviceInformation, Hidpp20Error>,
    serial_number: Result<Option<String>, Hidpp20Error>,
) -> bool {
    present && match information {
        Ok(info) => info.has_serial_number && serial_number is Err,
        Err(_) => true,
    }
}

/// What a probe reads from a device whose session opens and whose features
/// enumerate.
pub open spec fn shown_features(enumeration: Enumeration, answers: ProbeAnswers) -> ProbedFeatures {
    let present = enumeration.present;
    ProbedFeatures {
        battery: super::battery_run::found_battery(shown_indices(enumeration), answers.battery),
        model_info: shown_model(
            present.device_information,
            answers.information,
            answers.serial_number,
        ),
        kind: match answers.device_type {
            Ok(kind) => if present.device_type {
                Some(kind)
            } else {
                None
            },
            Err(_) => None,
        },
        capabilities: match enumeration.table {
            Some(table) => if present.hires_wheel {
                super::features::with_inversion(Some(table.capabilities), answers.wheel)
            } else {
                Some(table.capabilities)
            },
            None => None,
        },
        identity_incomplete: identity_failed(
            present.device_information,
            answers.information,
            answers.serial_number,
        ),
    }
}

/// The requests for the identity and the type of a device, in order.
pub open spec fn identity_requests(enumeration: Enumeration, answers: ProbeAnswers) -> Seq<
    ProbeCall,
> {
    let information = if !enumeration.present.device_information {
        seq![]
    } else if answers.information matches Ok(info) && info.has_serial_number {
        seq![ProbeCall::ReadInformation, ProbeCall::ReadSerialNumber]
    } else {
        seq![ProbeCall::ReadInformation]
    };
    let kind = if enumeration.present.device_type {
        seq![ProbeCall::ReadDeviceType]
    } else {
        seq![]
    };
    information + kind
}

/// The requests after the feature table is known, in order.
pub open spec fn table_requests(slot: u8, enumeration: Enumeration, answers: ProbeAnswers) -> Seq<
    ProbeCall,
> {
    let wheel = if enumeration.table is Some && enumeration.present.hires_wheel {
        seq![ProbeCall::ReadWheel]
    } else {
        seq![]
    };
    let battery = super::battery_run::reads_of_probe(
        slot,
        shown_indices(enumeration),
        answers.battery,
    ).map_values(|call: super::battery::BatteryCall| ProbeCall::ReadBattery(call));
    wheel + battery + identity_requests(enumeration, answers)
}

/// The rest of a probe whose battery is done with.
proof fn rest_after_battery(
    probe: FeatureProbe,
    attach: Option<BatteryHandle>,
    answers: ProbeAnswers,
    enumeration: Enumeration,
    fuel: nat,
)
    requires
        fuel >= 3,
        probe.present == enumeration.present,
        probe.found.model_info is None,
        probe.found.kind is None,
        !probe.found.identity_incomplete,
    ensures
        ({
            let run = rest_of_probe(probe.at_information(attach), answers, fuel);
            let shown = shown_features(enumeration, answers);
            &&& run.features == (ProbedFeatures {
                model_info: shown.model_info,
                kind: shown.kind,
                identity_incomplete: shown.identity_incomplete,
                ..probe.found
            })
            &&& run.handle == probe.handle
            &&& run.asked == identity_requests(enumeration, answers)
            &&& run.attached == super::battery_run::attached_now(attach)
        }),
{
    reveal_with_fuel(rest_of_probe, 4);
    let run = rest_of_probe(probe.at_information(attach), answers, fuel);
    assert(run.attached =~= super::battery_run::attached_now(attach));
    assert(run.asked =~= identity_requests(enumeration, answers));
}

/// The rest of a probe that waits for a battery feature: the reads of the
/// battery probe, then what follows them.
proof fn rest_of_battery(
    probe: FeatureProbe,
    battery: BatteryProbe,
    attach: Option<BatteryHandle>,
    answers: ProbeAnswers,
    enumeration: Enumeration,
    fuel: nat,
)
    requires
        battery.pending() is Some,
        fuel >= 3 + battery.reads_left(),
        probe.present == enumeration.present,
        probe.found.model_info is None,
        probe.found.kind is None,
        !probe.found.identity_incomplete,
    ensures
        ({
            let run = rest_of_probe(
                probe.asking(
                    ProbeStage::Battery(battery),
                    attach,
                    ProbeCall::ReadBattery(battery.pending()->0),
                ),
                answers,
                fuel,
            );
            let reading = super::battery_run::rest_of_run(battery, answers.battery);
            let shown = shown_features(enumeration, answers);
            &&& run.features == (ProbedFeatures {
                battery: reading.battery,
                model_info: shown.model_info,
                kind: shown.kind,
                identity_incomplete: shown.identity_incomplete,
                ..probe.found
            })
            &&& run.handle == reading.handle
            &&& run.asked == reading.asked.map_values(
                |call: super::battery::BatteryCall| ProbeCall::ReadBattery(call),
            ) + identity_requests(enumeration, answers)
            &&& run.attached == super::battery_run::attached_now(attach) + reading.attached
        }),
    decreases battery.reads_left(),
{
    let wrap = |call: super::battery::BatteryCall| ProbeCall::ReadBattery(call);
    let call = battery.pending()->0;
    let reply = answers.battery.reply_to(call);
    super::battery_run::battery_probe_ends(battery, reply);
    let (after, step) = battery.advanced(reply);
    let waiting = FeatureProbe { stage: ProbeStage::Battery(battery), ..probe };
    let rest_fuel = (fuel - 1) as nat;
    match step.next {
        super::battery::BatteryNext::Call(next) => {
            rest_of_battery(waiting, after, step.attach, answers, enumeration, rest_fuel);
            let reading = super::battery_run::rest_of_run(battery, answers.battery);
            let rest = super::battery_run::rest_of_run(after, answers.battery);
            assert(reading.asked.map_values(wrap) =~= seq![ProbeCall::ReadBattery(call)]
                + rest.asked.map_values(wrap));
            assert(seq![ProbeCall::ReadBattery(call)] + (rest.asked.map_values(wrap)
                + identity_requests(enumeration, answers)) =~= (seq![ProbeCall::ReadBattery(call)]
                + rest.asked.map_values(wrap)) + identity_requests(enumeration, answers));
        },
        super::battery::BatteryNext::Finish { battery: reading, handle } => {
            let done = FeatureProbe {
                found: ProbedFeatures { battery: reading, ..waiting.found },
                handle,
                ..waiting
            };
            rest_after_battery(done, step.attach, answers, enumeration, rest_fuel);
            let run = super::battery_run::rest_of_run(battery, answers.battery);
            assert(run.asked.map_values(wrap) =~= seq![ProbeCall::ReadBattery(call)]);
        },
    }
}

/// The rest of a probe whose feature table is done with.
proof fn rest_after_table(
    probe: FeatureProbe,
    answers: ProbeAnswers,
    enumeration: Enumeration,
    fuel: nat,
)
    requires
        fuel >= 7,
        probe.present == enumeration.present,
        probe.indices == shown_indices(enumeration),
        probe.found.battery is None,
        probe.found.model_info is None,
        probe.found.kind is None,
        !probe.found.identity_incomplete,
    ensures
        ({
            let run = rest_of_probe(probe.at_battery(), answers, fuel);
            let shown = shown_features(enumeration, answers);
            &&& run.features == (ProbedFeatures {
                capabilities: probe.found.capabilities,
                ..shown
            })
            &&& run.handle == super::battery_run::found_handle(
                probe.slot,
                probe.indices,
                answers.battery,
            )
            &&& run.asked == super::battery_run::reads_of_probe(
                probe.slot,
                probe.indices,
                answers.battery,
            ).map_values(|call: super::battery::BatteryCall| ProbeCall::ReadBattery(call))
                + identity_requests(enumeration, answers)
            &&& run.attached == super::battery_run::battery_run(
                probe.slot,
                probe.indices,
                answers.battery,
            ).attached
        }),
{
    let wrap = |call: super::battery::BatteryCall| ProbeCall::ReadBattery(call);
    super::battery_run::battery_probe_prefers_unified(probe.slot, probe.indices, answers.battery);
    let (battery, step) = BatteryProbe::started(probe.slot, probe.indices);
    match step.next {
        super::battery::BatteryNext::Call(call) => {
            rest_of_battery(probe, battery, step.attach, answers, enumeration, fuel);
        },
        super::battery::BatteryNext::Finish { battery: reading, handle } => {
            let done = FeatureProbe {
                found: ProbedFeatures { battery: reading, ..probe.found },
                handle,
                ..probe
            };
            rest_after_battery(done, step.attach, answers, enumeration, fuel);
            let run: BatteryRun = super::battery_run::battery_run(
                probe.slot,
                probe.indices,
                answers.battery,
            );
            assert(run.asked.map_values(wrap) + identity_requests(enumeration, answers)
                =~= identity_requests(enumeration, answers));
        },
    }
}

/// A probe of a device whose session does not open, or whose features cannot be
/// enumerated, finds nothing and asks nothing further.
pub proof fn unresponsive_device_yields_nothing(slot: u8, answers: ProbeAnswers)
    requires
        answers.opened is Err || answers.enumerated is Err,
    ensures
        probe_run(slot, answers).features == super::features::nothing_probed(),
        probe_run(slot, answers).handle is None,
        probe_run(slot, answers).attached.len() == 0,
        answers.opened is Err ==> probe_run(slot, answers).asked == seq![ProbeCall::OpenDevice],
        answers.opened is Ok ==> probe_run(slot, answers).asked == seq![
            ProbeCall::OpenDevice,
            ProbeCall::EnumerateFeatures,
        ],
{
    reveal_with_fuel(rest_of_probe, 3);
    if answers.opened is Err {
        assert(probe_run(slot, answers).asked =~= seq![ProbeCall::OpenDevice]);
    } else {
        assert(probe_run(slot, answers).asked =~= seq![
            ProbeCall::OpenDevice,
            ProbeCall::EnumerateFeatures,
        ]);
    }
}

/// A probe reads everything that the device has, in one session and with one
/// enumeration: a failed read leaves its own field empty and no other, and a
/// failed read of the identity is noted.
pub proof fn probe_reads_what_the_device_has(
    slot: u8,
    answers: ProbeAnswers,
    enumeration: Enumeration,
)
    requires
        answers.opened is Ok,
        answers.enumerated == Ok::<Enumeration, Hidpp20Error>(enumeration),
    ensures
        probe_run(slot, answers).features == shown_features(enumeration, answers),
        probe_run(slot, answers).handle == super::battery_run::found_handle(
            slot,
            shown_indices(enumeration),
            answers.battery,
        ),
        probe_run(slot, answers).asked == seq![ProbeCall::OpenDevice, ProbeCall::EnumerateFeatures]
            + table_requests(slot, enumeration, answers),
        probe_run(slot, answers).attached == super::battery_run::battery_run(
            slot,
            shown_indices(enumeration),
            answers.battery,
        ).attached,
{
    reveal_with_fuel(rest_of_probe, 4);
    let opened = FeatureProbe { stage: ProbeStage::Enumerating, ..FeatureProbe::new_probe(slot) };
    let listed = opened.with_features(enumeration);
    if enumeration.table is Some && enumeration.present.hires_wheel {
        let waiting = FeatureProbe { stage: ProbeStage::Wheel, ..listed };
        let read = FeatureProbe {
            found: ProbedFeatures {
                capabilities: super::features::with_inversion(
                    waiting.found.capabilities,
                    answers.wheel,
                ),
                ..waiting.found
            },
            ..waiting
        };
        rest_after_table(read, answers, enumeration, 7);
    } else {
        rest_after_table(listed, answers, enumeration, 8);
    }
    assert(probe_run(slot, answers).asked =~= seq![
        ProbeCall::OpenDevice,
        ProbeCall::EnumerateFeatures,
    ] + table_requests(slot, enumeration, answers));
    assert(probe_run(slot, answers).attached =~= super::battery_run::battery_run(
        slot,
        shown_indices(enumeration),
        answers.battery,
    ).attached);
}

/// `capabilities` are known exactly if the feature-table walk succeeded.
pub proof fn capabilities_mean_a_walked_table(slot: u8, answers: ProbeAnswers)
    ensures
        probe_run(slot, answers).features.capabilities is Some <==> answers.opened is Ok
            && (answers.enumerated matches Ok(enumeration) && enumeration.table is Some),
{
    if answers.opened is Err || answers.enumerated is Err {
        unresponsive_device_yields_nothing(slot, answers);
    } else {
        probe_reads_what_the_device_has(slot, answers, answers.enumerated->Ok_0);
    }
}

/// Every reply to a pending request brings a probe closer to its end, so a probe
/// makes at most ten requests.
pub proof fn probe_ends(probe: FeatureProbe, reply: ProbeReply)
    requires
        probe.awaits(reply),
    ensures
        probe.advanced(reply) matches ProbeStep::Call { probe: after, call, .. }
            ==> after.requests_left() < probe.requests_left() && after.pending() == Some(call),
        probe.requests_left() <= 10,
{
    if let ProbeStage::Battery(battery) = probe.stage {
        if let ProbeReply::Battery(battery_reply) = reply {
            super::battery_run::battery_probe_ends(battery, battery_reply);
        }
    }
}

/// The capabilities of a device are those that its feature table shows. Only the
/// scroll inversion is read from the device: where there is a wheel, it is offered
/// exactly if the device answered that the wheel can be inverted, and a wheel that
/// denied it, or did not answer, has none. Without a table nothing is known.
pub proof fn wheel_decides_scroll_inversion(
    slot: u8,
    answers: ProbeAnswers,
    enumeration: Enumeration,
)
    requires
        answers.opened is Ok,
        answers.enumerated == Ok::<Enumeration, Hidpp20Error>(enumeration),
    ensures
        probe_run(slot, answers).features.capabilities is Some <==> enumeration.table is Some,
        enumeration.table matches Some(table) ==> (probe_run(
            slot,
            answers,
        ).features.capabilities matches Some(capabilities) && {
            &&& capabilities.features == table.capabilities.features
            &&& enumeration.present.hires_wheel ==> capabilities.scroll_inversion
                == match answers.wheel {
                Ok(invertible) => invertible,
                Err(_) => false,
            }
            &&& !enumeration.present.hires_wheel ==> capabilities.scroll_inversion
                == table.capabilities.scroll_inversion
        }),
{
    probe_reads_what_the_device_has(slot, answers, enumeration);
}

/// The identity of a device is what it said about itself, field by field. A serial
/// number is only read from a device that has one, and the identity is incomplete
/// exactly if a read that the device supports failed.
pub proof fn identity_is_what_the_device_said(
    slot: u8,
    answers: ProbeAnswers,
    enumeration: Enumeration,
)
    requires
        answers.opened is Ok,
        answers.enumerated == Ok::<Enumeration, Hidpp20Error>(enumeration),
    ensures
        ({
            let features = probe_run(slot, answers).features;
            let asked = enumeration.present.device_information;
            &&& features.model_info is Some <==> asked && answers.information is Ok
            &&& features.model_info matches Some(model) ==> {
                let information = answers.information->Ok_0;
                &&& model.entity_count == information.entity_count
                &&& model.unit_id == information.unit_id
                &&& model.transports == information.transports
                &&& model.model_ids == information.model_ids
                &&& model.extended_model_id == information.extended_model_id
                &&& information.has_serial_number && answers.serial_number is Ok
                    ==> model.serial_number == answers.serial_number->Ok_0
                &&& !information.has_serial_number || answers.serial_number is Err
                    ==> model.serial_number is None
            }
            &&& features.identity_incomplete <==> asked && (answers.information is Err
                || answers.information->Ok_0.has_serial_number && answers.serial_number is Err)
        }),
{
    probe_reads_what_the_device_has(slot, answers, enumeration);
}

/// The type of a device is the one it reports, where it has the feature and
/// answers.
pub proof fn kind_is_what_the_device_said(
    slot: u8,
    answers: ProbeAnswers,
    enumeration: Enumeration,
)
    requires
        answers.opened is Ok,
        answers.enumerated == Ok::<Enumeration, Hidpp20Error>(enumeration),
    ensures
        probe_run(slot, answers).features.kind is Some <==> enumeration.present.device_type
            && answers.device_type is Ok,
        probe_run(slot, answers).features.kind matches Some(kind) ==> kind
            == answers.device_type->Ok_0,
{
    probe_reads_what_the_device_has(slot, answers, enumeration);
}

/// The battery part of a full probe is a battery probe of the features in the
/// table: it finds the same state, selects the same feature, and attaches to the
/// same ones. A device without a table has no battery features.
pub proof fn battery_is_probed_within_a_full_probe(
    slot: u8,
    answers: ProbeAnswers,
    enumeration: Enumeration,
)
    requires
        answers.opened is Ok,
        answers.enumerated == Ok::<Enumeration, Hidpp20Error>(enumeration),
    ensures
        ({
            let run = probe_run(slot, answers);
            match enumeration.table {
                Some(table) => {
                    let battery = super::battery_run::battery_run(
                        slot,
                        super::battery::indices_in(table.ids@),
                        answers.battery,
                    );
                    &&& run.features.battery == battery.battery
                    &&& run.handle == battery.handle
                    &&& run.attached == battery.attached
                },
                None => run.features.battery is None && run.handle is None && run.attached.len()
                    == 0,
            }
        }),
{
    probe_reads_what_the_device_has(slot, answers, enumeration);
    super::battery_run::battery_probe_prefers_unified(
        slot,
        shown_indices(enumeration),
        answers.battery,
    );
    super::battery_run::probe_attaches_to_what_it_reads(
        slot,
        shown_indices(enumeration),
        answers.battery,
    );
}

/// A full probe opens one session and enumerates once. Then it asks what the device
/// has, and only that: the wheel, the battery, the device information, the serial
/// number that this announces, and the type, in this order.
pub proof fn full_probe_asks_what_the_device_has(
    slot: u8,
    answers: ProbeAnswers,
    enumeration: Enumeration,
)
    requires
        answers.opened is Ok,
        answers.enumerated == Ok::<Enumeration, Hidpp20Error>(enumeration),
    ensures
        ({
            let asked = probe_run(slot, answers).asked;
            let battery = match enumeration.table {
                Some(table) => super::battery_run::battery_run(
                    slot,
                    super::battery::indices_in(table.ids@),
                    answers.battery,
                ).asked,
                None => seq![],
            };
            let present = enumeration.present;
            let wheel: int = if enumeration.table is Some && present.hires_wheel {
                1
            } else {
                0
            };
            let information: int = if present.device_information {
                1
            } else {
                0
            };
            let serial: int = if present.device_information && answers.information is Ok
                && answers.information->Ok_0.has_serial_number {
                1
            } else {
                0
            };
            let kind: int = if present.device_type {
                1
            } else {
                0
            };
            let start = 2 + wheel;
            let end = start + battery.len();
            &&& asked.len() == end + information + serial + kind
            &&& asked[0] is OpenDevice
            &&& asked[1] is EnumerateFeatures
            &&& wheel == 1 ==> asked[2] is ReadWheel
            &&& forall|i: int|
                0 <= i < battery.len() ==> asked[start + i] == ProbeCall::ReadBattery(
                    #[trigger] battery[i],
                )
            &&& information == 1 ==> asked[end] is ReadInformation
            &&& serial == 1 ==> asked[end + 1] is ReadSerialNumber
            &&& kind == 1 ==> asked.last() is ReadDeviceType
        }),
{
    probe_reads_what_the_device_has(slot, answers, enumeration);
    super::battery_run::battery_probe_prefers_unified(
        slot,
        shown_indices(enumeration),
        answers.battery,
    );
}

/// An unresponsive device shows nothing at all, and nothing about it is noted.
pub proof fn unresponsive_device_is_blank(slot: u8, answers: ProbeAnswers)
    requires
        answers.opened is Err || answers.enumerated is Err,
    ensures
        ({
            let features = probe_run(slot, answers).features;
            &&& features.battery is None
            &&& features.model_info is None
            &&& features.kind is None
            &&& features.capabilities is None
            &&& !features.identity_incomplete
        }),
{
    unresponsive_device_yields_nothing(slot, answers);
}

} // verus!
