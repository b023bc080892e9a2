use openlogi::device::{
    BatteryInfo, BatteryLevel, BatteryStatus as ShownStatus, Capabilities, DeviceKind,
    DeviceModelInfo, DeviceTransports,
};
use openlogi::feature::battery_status::{
    decode_battery_info, BatteryCapabilities, BatteryCapabilityFlags,
};
use openlogi::feature::unified_battery::{
    BatteryLevel as ReportedLevel, BatteryStatus, UnifiedBatteryInfo,
};
use openlogi::feature::Hidpp20Error;
use openlogi::inventory::battery::{BatteryCall, BatteryHandle, BatteryReply};
use openlogi::inventory::features::{
    DeviceInformation, Enumeration, FeaturePresence, FeatureProbe, FeatureTable, ProbeCall,
    ProbeReply, ProbeStep, ProbedFeatures,
};

const EVERYTHING: FeaturePresence = FeaturePresence {
    hires_wheel: true,
    device_information: true,
    device_type: true,
};

const NOTHING: FeaturePresence = FeaturePresence {
    hires_wheel: false,
    device_information: false,
    device_type: false,
};

const CAPABILITIES: Capabilities = Capabilities { features: 5, scroll_inversion: false };

fn enumeration(ids: &[u16], present: FeaturePresence) -> ProbeReply {
    ProbeReply::Enumerated(Ok(Enumeration {
        table: Some(FeatureTable { ids: ids.to_vec(), capabilities: CAPABILITIES }),
        present,
    }))
}

fn information(has_serial_number: bool) -> DeviceInformation {
    DeviceInformation {
        entity_count: 3,
        unit_id: [1, 2, 3, 4],
        transports: DeviceTransports { btle: true, ..DeviceTransports::default() },
        model_ids: [0xb023, 0, 0],
        extended_model_id: 2,
        has_serial_number,
    }
}

fn model(serial_number: Option<&str>) -> DeviceModelInfo {
    DeviceModelInfo {
        entity_count: 3,
        serial_number: serial_number.map(str::to_string),
        unit_id: [1, 2, 3, 4],
        transports: DeviceTransports { btle: true, ..DeviceTransports::default() },
        model_ids: [0xb023, 0, 0],
        extended_model_id: 2,
    }
}

struct Probed {
    features: ProbedFeatures,
    handle: Option<BatteryHandle>,
    attached: Vec<BatteryHandle>,
    calls: Vec<ProbeCall>,
}

fn run(replies: Vec<ProbeReply>) -> Probed {
    let mut replies = replies.into_iter();
    let mut attached = Vec::new();
    let mut calls = Vec::new();
    let mut step = FeatureProbe::start(1);
    loop {
        match step {
            ProbeStep::Call { probe, attach, call } => {
                attached.extend(attach);
                calls.push(call);
                step = probe.advance(replies.next().expect("an unscripted request"));
            }
            ProbeStep::Finish { features, attach, handle } => {
                attached.extend(attach);
                assert!(replies.next().is_none(), "a scripted reply is left");
                return Probed { features, handle, attached, calls };
            }
        }
    }
}

#[test]
fn full_probe_reads_everything_in_one_session() {
    let probed = run(vec![
        ProbeReply::Opened(Ok(())),
        enumeration(&[0x0003, 0x1004], EVERYTHING),
        ProbeReply::Wheel(Ok(true)),
        ProbeReply::Battery(BatteryReply::UnifiedCapabilities(Ok(true))),
        ProbeReply::Battery(BatteryReply::UnifiedInfo(Ok(UnifiedBatteryInfo {
            charging_percentage: 80,
            level: ReportedLevel::Good,
            status: BatteryStatus::Charging,
        }))),
        ProbeReply::Information(Ok(information(true))),
        ProbeReply::SerialNumber(Ok(Some("abc123".to_string()))),
        ProbeReply::DeviceType(Ok(DeviceKind::Mouse)),
    ]);
    assert_eq!(
        probed.features,
        ProbedFeatures {
            battery: Some(BatteryInfo {
                percentage: Some(80),
                level: BatteryLevel::Good,
                status: ShownStatus::Charging,
            }),
            model_info: Some(model(Some("abc123"))),
            kind: Some(DeviceKind::Mouse),
            capabilities: Some(Capabilities { scroll_inversion: true, ..CAPABILITIES }),
            identity_incomplete: false,
        }
    );
    assert_eq!(probed.handle, Some(BatteryHandle::unified(1, 2, true)));
    assert_eq!(probed.attached, [BatteryHandle::unified(1, 2, true)]);
    assert_eq!(
        probed.calls,
        [
            ProbeCall::OpenDevice,
            ProbeCall::EnumerateFeatures,
            ProbeCall::ReadWheel,
            ProbeCall::ReadBattery(BatteryCall::UnifiedCapabilities { slot: 1, feature_index: 2 }),
            ProbeCall::ReadBattery(BatteryCall::UnifiedInfo { slot: 1, feature_index: 2 }),
            ProbeCall::ReadInformation,
            ProbeCall::ReadSerialNumber,
            ProbeCall::ReadDeviceType,
        ]
    );
}

#[test]
fn unresponsive_device_is_asked_no_more() {
    let probed = run(vec![ProbeReply::Opened(Err(Hidpp20Error::Channel))]);
    assert_eq!(probed.features, ProbedFeatures::default());
    assert_eq!(probed.handle, None);

    let probed = run(vec![
        ProbeReply::Opened(Ok(())),
        ProbeReply::Enumerated(Err(Hidpp20Error::Channel)),
    ]);
    assert_eq!(probed.features, ProbedFeatures::default());
    assert_eq!(probed.handle, None);
}

#[test]
fn device_without_a_table_has_no_capabilities() {
    let probed = run(vec![
        ProbeReply::Opened(Ok(())),
        ProbeReply::Enumerated(Ok(Enumeration { table: None, present: EVERYTHING })),
        ProbeReply::Information(Ok(information(false))),
        ProbeReply::DeviceType(Ok(DeviceKind::Keyboard)),
    ]);
    assert_eq!(probed.features.capabilities, None);
    assert_eq!(probed.features.model_info, Some(model(None)));
    assert_eq!(probed.features.kind, Some(DeviceKind::Keyboard));
    assert!(!probed.features.identity_incomplete);
}

#[test]
fn missing_features_are_not_read() {
    let probed = run(vec![ProbeReply::Opened(Ok(())), enumeration(&[], NOTHING)]);
    assert_eq!(
        probed.features,
        ProbedFeatures { capabilities: Some(CAPABILITIES), ..ProbedFeatures::default() }
    );
}

#[test]
fn failed_reads_leave_only_their_own_gaps() {
    let probed = run(vec![
        ProbeReply::Opened(Ok(())),
        enumeration(&[0x1000], EVERYTHING),
        ProbeReply::Wheel(Err(Hidpp20Error::Channel)),
        ProbeReply::Battery(BatteryReply::StatusCapabilities(Ok(BatteryCapabilities {
            level_count: 10,
            flags: BatteryCapabilityFlags::mileage(),
        }))),
        ProbeReply::Battery(BatteryReply::StatusInfo(decode_battery_info(&[28, 10, 0]))),
        ProbeReply::Information(Err(Hidpp20Error::Channel)),
        ProbeReply::DeviceType(Err(Hidpp20Error::Channel)),
    ]);
    assert_eq!(
        probed.features,
        ProbedFeatures {
            battery: Some(BatteryInfo {
                percentage: Some(28),
                level: BatteryLevel::Low,
                status: ShownStatus::Discharging,
            }),
            model_info: None,
            kind: None,
            capabilities: Some(CAPABILITIES),
            identity_incomplete: true,
        }
    );
    assert_eq!(probed.handle, Some(BatteryHandle::status(1, 1, true)));
}

#[test]
fn failed_serial_read_makes_the_identity_incomplete() {
    let probed = run(vec![
        ProbeReply::Opened(Ok(())),
        enumeration(&[], FeaturePresence { device_information: true, ..NOTHING }),
        ProbeReply::Information(Ok(information(true))),
        ProbeReply::SerialNumber(Err(Hidpp20Error::Channel)),
    ]);
    assert_eq!(probed.features.model_info, Some(model(None)));
    assert!(probed.features.identity_incomplete);

    let probed = run(vec![
        ProbeReply::Opened(Ok(())),
        enumeration(&[], FeaturePresence { device_information: true, ..NOTHING }),
        ProbeReply::Information(Ok(information(true))),
        ProbeReply::SerialNumber(Ok(None)),
    ]);
    assert_eq!(probed.features.model_info, Some(model(None)));
    assert!(!probed.features.identity_incomplete, "a blank serial number was read");
}
