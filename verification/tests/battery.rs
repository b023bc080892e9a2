use openlogi::device::{BatteryInfo, BatteryLevel, BatteryStatus as ShownStatus};
use openlogi::feature::battery_status::BatteryStatusFeature;
use openlogi::feature::unified_battery::{
    BatteryLevel as ReportedLevel, BatteryStatus, UnifiedBatteryEvent, UnifiedBatteryInfo,
    UNIFIED_BATTERY_ID,
};
use openlogi::feature::{FeatureMessage, Hidpp20Error};
use openlogi::inventory::battery::{
    battery_call, battery_feature_indices, broadcast_shown, map_status_battery_fields,
    map_status_level, map_unified_battery_fields, map_unified_event, read_battery,
    BatteryBroadcast, BatteryCall, BatteryEndpoint, BatteryEventContext, BatteryFeatureIndices, BatteryHandle, BatteryNext,
    BatteryProbe, BatteryReply, BatteryUpdate,
};
use openlogi::inventory::battery_events::{EventForwarder, ForwarderAction, ForwarderEvent};
use openlogi::route::DeviceRoute;

enum ScriptedResponse {
    Payload([u8; 3]),
    Error(u8),
}

fn payload(bytes: [u8; 3]) -> [u8; 16] {
    let mut payload = [0; 16];
    payload[..3].copy_from_slice(&bytes);
    payload
}

/// The (feature index, function) that a call is sent as.
fn request(call: BatteryCall) -> (u8, u8) {
    match call {
        BatteryCall::UnifiedCapabilities { feature_index, .. } => (feature_index, 0),
        BatteryCall::UnifiedInfo { feature_index, .. } => (feature_index, 1),
        BatteryCall::StatusCapabilities { slot, feature_index } => {
            let call = BatteryStatusFeature::new(slot, feature_index).capabilities_call();
            (call.feature_index, call.function)
        }
        BatteryCall::StatusInfo { slot, feature_index } => {
            let call = BatteryStatusFeature::new(slot, feature_index).info_call();
            (call.feature_index, call.function)
        }
    }
}

fn level(raw: u8) -> Option<ReportedLevel> {
    match raw {
        1 => Some(ReportedLevel::Critical),
        2 => Some(ReportedLevel::Low),
        4 => Some(ReportedLevel::Good),
        8 => Some(ReportedLevel::Full),
        _ => None,
    }
}

const GOOD: u8 = 4;

fn unified_info(bytes: [u8; 3]) -> Result<UnifiedBatteryInfo, Hidpp20Error> {
    match (level(bytes[1]), BatteryStatus::from_code(bytes[2])) {
        (Some(level), Some(status)) => Ok(UnifiedBatteryInfo {
            charging_percentage: bytes[0],
            level,
            status,
        }),
        _ => Err(Hidpp20Error::UnsupportedResponse),
    }
}

fn reply(call: BatteryCall, response: ScriptedResponse) -> BatteryReply {
    let answer = match response {
        ScriptedResponse::Payload(bytes) => Ok(bytes),
        ScriptedResponse::Error(code) => Err(Hidpp20Error::Feature(code)),
    };
    match call {
        BatteryCall::UnifiedCapabilities { .. } => {
            BatteryReply::UnifiedCapabilities(answer.map(|bytes| bytes[1] & 0x02 != 0))
        }
        BatteryCall::UnifiedInfo { .. } => {
            BatteryReply::UnifiedInfo(answer.and_then(unified_info))
        }
        BatteryCall::StatusCapabilities { slot, feature_index } => BatteryReply::StatusCapabilities(
            BatteryStatusFeature::new(slot, feature_index)
                .get_battery_capabilities(answer.map(payload)),
        ),
        BatteryCall::StatusInfo { slot, feature_index } => BatteryReply::StatusInfo(
            BatteryStatusFeature::new(slot, feature_index).get_battery_info(answer.map(payload)),
        ),
    }
}

struct Probed {
    battery: Option<BatteryInfo>,
    handle: Option<BatteryHandle>,
    attached: Vec<BatteryHandle>,
    requests: Vec<(u8, u8)>,
}

fn probe(indices: BatteryFeatureIndices, responses: Vec<ScriptedResponse>) -> Probed {
    let mut responses = responses.into_iter();
    let mut requests = Vec::new();
    let mut attached = Vec::new();
    let (mut probe, mut step) = BatteryProbe::start(1, indices);
    loop {
        attached.extend(step.attach);
        match step.next {
            BatteryNext::Call(call) => {
                requests.push(request(call));
                let response = responses.next().expect("an unscripted request");
                step = probe.advance(reply(call, response));
            }
            BatteryNext::Finish { battery, handle } => {
                assert!(responses.next().is_none(), "a scripted response is left");
                return Probed { battery, handle, attached, requests };
            }
        }
    }
}

#[test]
fn battery_indices_are_one_based_in_the_enumerated_table() {
    let table = [BatteryStatusFeature::ID, UNIFIED_BATTERY_ID, 0x2201];
    let indices = battery_feature_indices(&table);
    assert_eq!(indices.status, Some(1));
    assert_eq!(indices.unified, Some(2));
    assert_eq!(
        battery_feature_indices(&[UNIFIED_BATTERY_ID]).unified,
        Some(1),
        "first entry maps to index 1, not 0"
    );
}

#[test]
fn no_battery_feature_means_no_indices() {
    assert_eq!(
        battery_feature_indices(&[0x0001, 0x2201, 0x1b04]),
        BatteryFeatureIndices::default()
    );
    assert_eq!(battery_feature_indices(&[]), BatteryFeatureIndices::default());
}

#[test]
fn first_entry_of_a_feature_counts() {
    let indices = battery_feature_indices(&[
        0x0001,
        UNIFIED_BATTERY_ID,
        BatteryStatusFeature::ID,
        UNIFIED_BATTERY_ID,
        BatteryStatusFeature::ID,
    ]);
    assert_eq!(indices, BatteryFeatureIndices { unified: Some(2), status: Some(3) });
}

#[test]
fn entries_past_the_last_index_have_none() {
    let mut table = vec![0x2201; 254];
    table.push(UNIFIED_BATTERY_ID);
    table.push(BatteryStatusFeature::ID);
    let indices = battery_feature_indices(&table);
    assert_eq!(indices.unified, Some(255));
    assert_eq!(indices.status, None);
}

#[test]
fn status_levels_use_the_documented_coarse_buckets() {
    for (raw, expected) in [
        (None, BatteryLevel::Unknown),
        (Some(1), BatteryLevel::Critical),
        (Some(10), BatteryLevel::Critical),
        (Some(11), BatteryLevel::Low),
        (Some(29), BatteryLevel::Low),
        (Some(30), BatteryLevel::Good),
        (Some(80), BatteryLevel::Good),
        (Some(81), BatteryLevel::Full),
        (Some(100), BatteryLevel::Full),
    ] {
        assert_eq!(map_status_level(raw), expected, "raw level {raw:?}");
    }
}

#[test]
fn levels_out_of_range_have_no_bucket() {
    assert_eq!(map_status_level(Some(0)), BatteryLevel::Unknown);
    assert_eq!(map_status_level(Some(101)), BatteryLevel::Unknown);
}

#[test]
fn status_percentage_is_only_exposed_when_capability_is_trusted() {
    assert_eq!(
        map_status_battery_fields(Some(28), BatteryStatus::Discharging, false).percentage,
        None
    );
    assert_eq!(
        map_status_battery_fields(Some(28), BatteryStatus::Discharging, true).percentage,
        Some(28)
    );
    assert_eq!(
        map_status_battery_fields(Some(28), BatteryStatus::Discharging, false).level,
        BatteryLevel::Low
    );
}

#[test]
fn unified_percentage_respects_capability_and_valid_range() {
    assert_eq!(
        map_unified_battery_fields(80, ReportedLevel::Good, BatteryStatus::Discharging, false)
            .percentage,
        None
    );
    assert_eq!(
        map_unified_battery_fields(80, ReportedLevel::Good, BatteryStatus::Discharging, true)
            .percentage,
        Some(80)
    );
    assert_eq!(
        map_unified_battery_fields(101, ReportedLevel::Good, BatteryStatus::Discharging, true)
            .percentage,
        None
    );
}

#[test]
fn levels_and_statuses_are_shown_as_reported() {
    for (reported, shown) in [
        (ReportedLevel::Critical, BatteryLevel::Critical),
        (ReportedLevel::Low, BatteryLevel::Low),
        (ReportedLevel::Good, BatteryLevel::Good),
        (ReportedLevel::Full, BatteryLevel::Full),
    ] {
        let battery = map_unified_battery_fields(50, reported, BatteryStatus::Full, true);
        assert_eq!(battery.level, shown);
        assert_eq!(battery.status, ShownStatus::Full);
    }
    for (reported, shown) in [
        (BatteryStatus::Discharging, ShownStatus::Discharging),
        (BatteryStatus::Charging, ShownStatus::Charging),
        (BatteryStatus::ChargingSlow, ShownStatus::ChargingSlow),
        (BatteryStatus::Full, ShownStatus::Full),
        (BatteryStatus::Error, ShownStatus::Error),
    ] {
        assert_eq!(map_status_battery_fields(None, reported, true).status, shown);
    }
}

#[test]
fn probe_prefers_unified_battery_when_its_status_is_readable() {
    let probed = probe(
        BatteryFeatureIndices { unified: Some(2), status: Some(1) },
        vec![
            ScriptedResponse::Payload([0x0f, 0x02, 0]),
            ScriptedResponse::Payload([80, GOOD, BatteryStatus::Discharging.code()]),
        ],
    );

    assert_eq!(probed.battery.and_then(|info| info.percentage), Some(80));
    assert_eq!(
        probed.handle.map(|handle| handle.endpoint()),
        Some(BatteryEndpoint::Unified { percentage: true })
    );
    assert_eq!(probed.requests.len(), 2, "legacy fallback must not be queried");
    assert!(probed.requests.iter().all(|request| request.0 == 2));
}

#[test]
fn probe_falls_back_to_coarse_status_when_unified_status_fails() {
    let probed = probe(
        BatteryFeatureIndices { unified: Some(2), status: Some(1) },
        vec![
            ScriptedResponse::Payload([0x0f, 0x02, 0]),
            ScriptedResponse::Payload([80, 0xff, 0]),
            ScriptedResponse::Payload([4, 0, 0]),
            ScriptedResponse::Payload([28, 10, 0]),
        ],
    );

    let Some(battery) = probed.battery else {
        panic!("legacy battery response should be retained");
    };
    assert_eq!(battery.percentage, None);
    assert_eq!(battery.level, BatteryLevel::Low);
    assert_eq!(
        probed.handle.map(|handle| handle.endpoint()),
        Some(BatteryEndpoint::Status { percentage: false })
    );
    assert_eq!(probed.requests, [(2, 0), (2, 1), (1, 1), (1, 0)]);
}

#[test]
fn capability_failure_keeps_unified_reading_coarse() {
    let probed = probe(
        BatteryFeatureIndices { unified: Some(2), status: None },
        vec![
            ScriptedResponse::Error(1),
            ScriptedResponse::Payload([80, GOOD, BatteryStatus::Discharging.code()]),
        ],
    );

    assert_eq!(probed.battery.and_then(|info| info.percentage), None);
    assert_eq!(
        probed.handle.map(|handle| handle.endpoint()),
        Some(BatteryEndpoint::Unified { percentage: false })
    );
}

#[test]
fn failed_unified_battery_is_kept_without_a_fallback() {
    let probed = probe(
        BatteryFeatureIndices { unified: Some(2), status: None },
        vec![ScriptedResponse::Payload([0x0f, 0x02, 0]), ScriptedResponse::Error(8)],
    );
    assert_eq!(probed.battery, None);
    assert_eq!(probed.handle, Some(BatteryHandle::unified(1, 2, true)));
    assert_eq!(probed.attached, [BatteryHandle::unified(1, 2, true)]);
}

#[test]
fn failed_status_read_keeps_the_endpoint() {
    let probed = probe(
        BatteryFeatureIndices { unified: None, status: Some(5) },
        vec![ScriptedResponse::Payload([10, 2, 0]), ScriptedResponse::Error(8)],
    );
    assert_eq!(probed.battery, None);
    assert_eq!(probed.handle, Some(BatteryHandle::status(1, 5, true)));
    assert_eq!(probed.requests, [(5, 1), (5, 0)]);
}

#[test]
fn fallback_replaces_what_was_attached() {
    let probed = probe(
        BatteryFeatureIndices { unified: Some(2), status: Some(1) },
        vec![
            ScriptedResponse::Payload([0x0f, 0x02, 0]),
            ScriptedResponse::Error(8),
            ScriptedResponse::Error(8),
            ScriptedResponse::Payload([28, 10, 0]),
        ],
    );
    assert_eq!(
        probed.attached,
        [BatteryHandle::unified(1, 2, true), BatteryHandle::status(1, 1, false)]
    );
    assert_eq!(probed.handle, Some(BatteryHandle::status(1, 1, false)));
}

#[test]
fn device_without_battery_is_not_asked() {
    let probed = probe(BatteryFeatureIndices::default(), vec![]);
    assert_eq!(probed.battery, None);
    assert_eq!(probed.handle, None);
    assert!(probed.attached.is_empty());
    assert!(probed.requests.is_empty());
}

#[test]
fn cached_status_refresh_sends_only_one_request() {
    let handle = BatteryHandle::status(1, 1, false);

    let call = battery_call(&handle);
    let battery = read_battery(&handle, reply(call, ScriptedResponse::Payload([28, 10, 0])));

    assert_eq!(battery.map(|info| info.level), Some(BatteryLevel::Low));
    assert_eq!(request(call), (1, 0));
}

#[test]
fn failed_refresh_shows_nothing() {
    let handle = BatteryHandle::unified(1, 4, true);
    let call = battery_call(&handle);
    assert_eq!(call, BatteryCall::UnifiedInfo { slot: 1, feature_index: 4 });
    assert_eq!(
        read_battery(&handle, BatteryReply::UnifiedInfo(Err(Hidpp20Error::Channel))),
        None
    );
    assert_eq!(
        read_battery(&handle, BatteryReply::StatusInfo(Err(Hidpp20Error::Channel))),
        None
    );
    assert_eq!(
        read_battery(&handle, reply(call, ScriptedResponse::Payload([80, GOOD, 1]))),
        Some(BatteryInfo {
            percentage: Some(80),
            level: BatteryLevel::Good,
            status: ShownStatus::Charging,
        })
    );
}

fn forwarded(route: &DeviceRoute, battery: Option<BatteryInfo>) -> BatteryUpdate {
    let forwarder = EventForwarder::spawn(BatteryEventContext::new(Some(route), true))
        .expect("a listener and a route");
    match forwarder.forward(ForwarderEvent::Broadcast(battery)) {
        ForwarderAction::Send(update) => update,
        other => panic!("battery broadcast should be forwarded, not {other:?}"),
    }
}

#[test]
fn status_broadcast_is_forwarded_with_its_device_route() {
    let route = DeviceRoute::Unifying { receiver_uid: "receiver-a".to_string(), slot: 1 };
    let feature = BatteryStatusFeature::new(1, 1);
    let message = FeatureMessage {
        device_index: 1,
        feature_index: 1,
        function: 0,
        payload: payload([28, 10, 1]),
    };

    let event = feature.on_message(&message, false).expect("a broadcast");
    let handle = BatteryHandle::status(1, 1, false);
    let update = forwarded(&route, broadcast_shown(&handle, BatteryBroadcast::Status(event)));

    assert_eq!(update.route, route);
    assert_eq!(update.battery.percentage, None);
    assert_eq!(update.battery.level, BatteryLevel::Low);
    assert_eq!(update.battery.status, ShownStatus::Charging);
}

#[test]
fn unified_broadcast_preserves_a_trusted_percentage() {
    let route = DeviceRoute::Bolt { receiver_uid: "receiver-b".to_string(), slot: 1 };
    let info = unified_info([80, GOOD, BatteryStatus::Discharging.code()]).unwrap();

    let handle = BatteryHandle::unified(1, 2, true);
    let broadcast = BatteryBroadcast::Unified(UnifiedBatteryEvent::InfoUpdate(info));
    let update = forwarded(&route, broadcast_shown(&handle, broadcast));

    assert_eq!(update.route, route);
    assert_eq!(update.battery.percentage, Some(80));
    assert_eq!(update.battery.level, BatteryLevel::Good);
    assert_eq!(update.battery.status, ShownStatus::Discharging);
}

#[test]
fn broadcasts_follow_their_handle() {
    let info = unified_info([80, GOOD, BatteryStatus::Discharging.code()]).unwrap();
    let unified = BatteryBroadcast::Unified(UnifiedBatteryEvent::InfoUpdate(info));
    let status = BatteryBroadcast::Status(
        openlogi::feature::battery_status::decode_event(0, &[28, 10, 1]).unwrap(),
    );
    let percentage = |handle, event| {
        broadcast_shown(&handle, event).map(|battery: BatteryInfo| battery.percentage)
    };
    assert_eq!(percentage(BatteryHandle::unified(1, 2, true), unified), Some(Some(80)));
    assert_eq!(percentage(BatteryHandle::unified(1, 2, false), unified), Some(None));
    assert_eq!(percentage(BatteryHandle::status(1, 1, true), status), Some(Some(28)));
    assert_eq!(percentage(BatteryHandle::status(1, 1, false), status), Some(None));
    assert_eq!(percentage(BatteryHandle::status(1, 1, true), unified), None);
    assert_eq!(percentage(BatteryHandle::unified(1, 2, true), status), None);
    let other = BatteryBroadcast::Unified(UnifiedBatteryEvent::Other);
    assert_eq!(percentage(BatteryHandle::unified(1, 2, true), other), None);
}

#[test]
fn nothing_is_sent_after_a_failed_send() {
    let route = DeviceRoute::Direct { vendor_id: 0x046d, product_id: 0xb023 };
    let forwarder = EventForwarder::spawn(BatteryEventContext::new(Some(&route), true)).unwrap();
    let reading = |percent| {
        Some(map_status_battery_fields(Some(percent), BatteryStatus::Discharging, true))
    };
    let arrivals =
        [(reading(90), true), (None, true), (reading(80), true), (reading(70), false), (reading(60), true)];
    let mut arrivals = arrivals.into_iter();
    let mut sent = Vec::new();
    let mut deliverable = true;
    let mut action = ForwarderAction::Receive;
    loop {
        let event = match action {
            ForwarderAction::Receive => match arrivals.next() {
                Some((battery, listening)) => {
                    deliverable = listening;
                    ForwarderEvent::Broadcast(battery)
                }
                None => ForwarderEvent::Ended,
            },
            ForwarderAction::Send(update) => {
                sent.push(update.battery.percentage);
                if deliverable {
                    ForwarderEvent::Delivered
                } else {
                    ForwarderEvent::Undeliverable
                }
            }
            ForwarderAction::Stop => break,
        };
        action = forwarder.forward(event);
    }
    assert_eq!(sent, [Some(90), Some(80), Some(70)]);
    assert_eq!(arrivals.len(), 1, "the last broadcast is not received any more");
}

#[test]
fn forwarder_needs_a_route_and_a_listener() {
    let route = DeviceRoute::Direct { vendor_id: 0x046d, product_id: 0xb023 };
    assert!(EventForwarder::spawn(BatteryEventContext::none()).is_none());
    assert!(EventForwarder::spawn(BatteryEventContext::new(Some(&route), false)).is_none());
    assert!(EventForwarder::spawn(BatteryEventContext::new(None, true)).is_none());
    let forwarder = EventForwarder::spawn(BatteryEventContext::new(Some(&route), true)).unwrap();
    assert_eq!(forwarder.route, route);
}

#[test]
fn forwarder_skips_other_broadcasts_and_stops_with_its_listener() {
    let route = DeviceRoute::Direct { vendor_id: 0x046d, product_id: 0xb023 };
    let forwarder = EventForwarder::spawn(BatteryEventContext::new(Some(&route), true)).unwrap();
    assert_eq!(map_unified_event(UnifiedBatteryEvent::Other, true), None);
    assert_eq!(
        forwarder.forward(ForwarderEvent::Broadcast(None)),
        ForwarderAction::Receive
    );
    assert_eq!(forwarder.forward(ForwarderEvent::Delivered), ForwarderAction::Receive);
    assert_eq!(forwarder.forward(ForwarderEvent::Undeliverable), ForwarderAction::Stop);
    assert_eq!(forwarder.forward(ForwarderEvent::Ended), ForwarderAction::Stop);
}
