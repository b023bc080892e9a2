use openlogi::feature::battery_status::{
    decode_battery_info, decode_capabilities, decode_event, decode_level, BatteryCapabilities,
    BatteryCapabilityFlags, BatteryEvent, BatteryStatusFeature, DischargeLevel,
};
use openlogi::feature::unified_battery::BatteryStatus;
use openlogi::feature::{event_payload, FeatureCall, FeatureMessage, Hidpp20Error};

fn payload(bytes: &[u8]) -> [u8; 16] {
    let mut payload = [0; 16];
    payload[..bytes.len()].copy_from_slice(bytes);
    payload
}

#[test]
fn decodes_capabilities_and_retains_unknown_flags() {
    let capabilities = decode_capabilities(&[
        10,
        BatteryCapabilityFlags::mileage().bits()
            | BatteryCapabilityFlags::rechargeable().bits()
            | 0x80,
    ]);

    assert_eq!(capabilities.level_count, 10);
    assert!(capabilities.reports_percentage());
    assert!(capabilities
        .flags
        .contains(BatteryCapabilityFlags::rechargeable()));
    assert_eq!(capabilities.flags.bits() & 0x80, 0x80);
}

#[test]
fn mileage_with_too_few_levels_is_still_coarse() {
    let capabilities = BatteryCapabilities {
        level_count: 4,
        flags: BatteryCapabilityFlags::mileage(),
    };
    assert!(!capabilities.reports_percentage());
}

#[test]
fn decodes_levels_and_status() {
    let info = decode_battery_info(&[80, 32, 0]).unwrap();
    assert_eq!(info.discharge_level, DischargeLevel::new(80));
    assert_eq!(info.next_level, DischargeLevel::new(32));
    assert_eq!(info.status, BatteryStatus::Discharging);
}

#[test]
fn zero_levels_are_unavailable() {
    let info = decode_battery_info(&[0, 0, 1]).unwrap();
    assert_eq!(info.discharge_level, None);
    assert_eq!(info.next_level, None);
    assert_eq!(info.status, BatteryStatus::Charging);
}

#[test]
fn rejects_levels_above_one_hundred() {
    assert!(matches!(
        decode_battery_info(&[101, 0, 0]),
        Err(Hidpp20Error::UnsupportedResponse)
    ));
    assert!(matches!(
        decode_battery_info(&[80, 101, 0]),
        Err(Hidpp20Error::UnsupportedResponse)
    ));
}

#[test]
fn rejects_unknown_status() {
    assert!(matches!(
        decode_battery_info(&[80, 32, 8]),
        Err(Hidpp20Error::UnsupportedResponse)
    ));
}

#[test]
fn decodes_battery_status_broadcast() {
    let event = decode_event(0, &[80, 32, 0]);
    assert!(matches!(
        event,
        Some(BatteryEvent::InfoUpdate(info))
            if info.discharge_level == DischargeLevel::new(80)
                && info.next_level == DischargeLevel::new(32)
                && info.status == BatteryStatus::Discharging
    ));
}

#[test]
fn ignores_unknown_or_invalid_broadcasts() {
    assert!(decode_event(1, &[80, 32, 0]).is_none());
    assert!(decode_event(0, &[101, 32, 0]).is_none());
    assert!(decode_event(0, &[80, 32, 8]).is_none());
}

#[test]
fn level_out_of_range_ends_the_decoding() {
    assert_eq!(
        decode_battery_info(&[101]),
        Err(Hidpp20Error::UnsupportedResponse)
    );
    assert_eq!(
        decode_battery_info(&[1, 200]),
        Err(Hidpp20Error::UnsupportedResponse)
    );
}

#[test]
fn level_bytes_are_percentages_or_nothing() {
    assert_eq!(decode_level(0), Ok(None));
    assert_eq!(decode_level(1), Ok(DischargeLevel::new(1)));
    assert_eq!(decode_level(100), Ok(DischargeLevel::new(100)));
    assert_eq!(decode_level(101), Err(Hidpp20Error::UnsupportedResponse));
    assert_eq!(DischargeLevel::new(100).map(DischargeLevel::get), Some(100));
    assert_eq!(DischargeLevel::new(0), None);
    assert_eq!(DischargeLevel::new(101), None);
}

#[test]
fn mileage_needs_its_flag() {
    let capabilities = BatteryCapabilities {
        level_count: 100,
        flags: BatteryCapabilityFlags::from_bits_retain(!BatteryCapabilityFlags::mileage().bits()),
    };
    assert!(!capabilities.reports_percentage());
    assert!(capabilities
        .flags
        .contains(BatteryCapabilityFlags::disable_osd()));
}

#[test]
fn status_codes_round_trip() {
    for raw in 0..=u8::MAX {
        match BatteryStatus::from_code(raw) {
            Some(status) => assert_eq!(status.code(), raw),
            None => assert!(raw > 4),
        }
    }
    assert_eq!(BatteryStatus::from_code(4), Some(BatteryStatus::Error));
    assert_eq!(BatteryStatus::from_code(5), None);
}

#[test]
fn requests_address_the_feature() {
    let feature = BatteryStatusFeature::new(3, 7);
    assert_eq!(
        feature.capabilities_call(),
        FeatureCall { device_index: 3, feature_index: 7, function: 1, arguments: [0; 3] }
    );
    assert_eq!(
        feature.info_call(),
        FeatureCall { device_index: 3, feature_index: 7, function: 0, arguments: [0; 3] }
    );
    assert_eq!(BatteryStatusFeature::ID, 0x1000);
    assert_eq!(BatteryStatusFeature::STARTING_VERSION, 0);
}

#[test]
fn replies_are_decoded_and_errors_passed_on() {
    let feature = BatteryStatusFeature::new(1, 1);
    let capabilities = feature.get_battery_capabilities(Ok(payload(&[10, 2]))).unwrap();
    assert!(capabilities.reports_percentage());
    assert_eq!(
        feature.get_battery_capabilities(Err(Hidpp20Error::Channel)),
        Err(Hidpp20Error::Channel)
    );
    let info = feature.get_battery_info(Ok(payload(&[28, 10, 1]))).unwrap();
    assert_eq!(info.discharge_level, DischargeLevel::new(28));
    assert_eq!(info.status, BatteryStatus::Charging);
    assert_eq!(
        feature.get_battery_info(Err(Hidpp20Error::Feature(8))),
        Err(Hidpp20Error::Feature(8))
    );
    assert_eq!(
        feature.get_battery_info(Ok(payload(&[28, 10, 9]))),
        Err(Hidpp20Error::UnsupportedResponse)
    );
}

#[test]
fn only_broadcasts_of_the_feature_are_heard() {
    let feature = BatteryStatusFeature::new(1, 2);
    let message = FeatureMessage {
        device_index: 1,
        feature_index: 2,
        function: 0,
        payload: payload(&[80, 32, 0]),
    };
    assert!(feature.on_message(&message, false).is_some());
    assert!(feature.on_message(&message, true).is_none(), "a reply");
    assert!(feature
        .on_message(&FeatureMessage { device_index: 2, ..message }, false)
        .is_none());
    assert!(feature
        .on_message(&FeatureMessage { feature_index: 1, ..message }, false)
        .is_none());
    assert!(feature
        .on_message(&FeatureMessage { function: 1, ..message }, false)
        .is_none());
    assert_eq!(
        event_payload(&message, false, 1, 2),
        Some((0, payload(&[80, 32, 0])))
    );
}
