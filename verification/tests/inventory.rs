use std::collections::HashSet;

use openlogi::device::{
    BatteryInfo, BatteryLevel, BatteryStatus, Capabilities, DeviceInventory, DeviceKind,
    DeviceModelInfo, DeviceTransports, PairedDevice, ReceiverInfo,
};
use openlogi::feature::Hidpp20Error;
use openlogi::inventory::battery::{read_battery, BatteryHandle, BatteryReply};
use openlogi::inventory::cache::{
    backfill_identity, is_stale, plan_probe, probe_or_reuse, seen, CacheKey, CacheOutcome, Cached,
    ProbeAnswer, ProbePlan, CACHE_MISS_GRACE, REFRESH_TICKS,
};
use openlogi::inventory::enumerator::{
    one_shot_should_stop, retained_nodes, Enumerator, ONESHOT_ATTEMPTS,
};
use openlogi::inventory::features::ProbedFeatures;
use openlogi::inventory::probe::{
    assemble_bolt_probe, assemble_unifying_device, is_unifying_device_online,
    parse_codename_unifying, NodeProbe,
};

fn cache_entry(probed_tick: u64) -> Cached {
    Cached {
        probe: ProbedFeatures::default(),
        battery_handle: None,
        probed_tick,
    }
}

#[test]
fn cache_entry_survives_grace_then_evicts() {
    let mut e = Enumerator::default();
    let key = CacheKey::Bolt { unit_id: [1, 2, 3, 4] };
    e.insert(key.clone(), cache_entry(0));
    let nobody = [];
    // Missing for the whole grace window: kept.
    for _ in 0..CACHE_MISS_GRACE {
        e.evict_unseen(&nobody);
        assert!(e.contains_key(&key), "evicted inside the grace window");
    }
    // One miss past the grace: evicted.
    e.evict_unseen(&nobody);
    assert!(!e.contains_key(&key), "should evict past the grace window");
}

#[test]
fn being_seen_resets_the_miss_counter() {
    let mut e = Enumerator::default();
    let key = CacheKey::Bolt { unit_id: [9; 4] };
    e.insert(key.clone(), cache_entry(0));
    let nobody = [];
    let seen = [key.clone()];
    e.evict_unseen(&nobody); // miss 1
    e.evict_unseen(&seen); // seen: counter reset
    for _ in 0..CACHE_MISS_GRACE {
        e.evict_unseen(&nobody);
    }
    assert!(
        e.contains_key(&key),
        "counter reset by a sighting, so still within grace"
    );
}

#[test]
fn outcomes_are_memoized_by_device() {
    let mut e = Enumerator::default();
    let a = CacheKey::UnifyingSlot { receiver_uid: "DA2699E1".to_string(), slot: 1 };
    let b = CacheKey::UnifyingSlot { receiver_uid: "DA2604F2".to_string(), slot: 1 };
    e.apply(CacheOutcome::Fresh(a.clone(), cache_entry(1)));
    e.apply(CacheOutcome::Fresh(b.clone(), cache_entry(2)));
    e.apply(CacheOutcome::Update(a.clone(), cache_entry(3)));
    e.apply(CacheOutcome::Seen(CacheKey::Direct(5)));
    e.apply(CacheOutcome::Unkeyed);
    assert_eq!(e.get(&a), Some(&cache_entry(3)));
    assert_eq!(e.get(&b), Some(&cache_entry(2)));
    assert_eq!(e.get(&CacheKey::Direct(5)), None);
    let c = CacheKey::UnifyingSlot { receiver_uid: "DA2699E1".to_string(), slot: 2 };
    assert!(!e.contains_key(&c));
    assert!(!e.contains_key(&CacheKey::Bolt { unit_id: [0; 4] }));
}

#[test]
fn memoizing_again_is_no_sighting() {
    let mut e = Enumerator::default();
    let key = CacheKey::Direct(3);
    let other = CacheKey::Direct(4);
    e.insert(key.clone(), cache_entry(0));
    for _ in 0..CACHE_MISS_GRACE {
        e.evict_unseen(&[other.clone()]);
    }
    e.insert(key.clone(), cache_entry(1));
    e.evict_unseen(&[other]);
    assert!(!e.contains_key(&key));
}

#[test]
fn live_cached_channel_survives_a_transient_enumeration_gap() {
    let enumerated = HashSet::from([1]);
    let cached_channels = [(1, true), (2, true), (3, false)];

    let retained = retained_nodes(&enumerated, &cached_channels);

    assert_eq!(retained, HashSet::from([1, 2]));
}

#[test]
fn cached_probe_is_reused_until_refresh_ticks() {
    let cached = Cached {
        probe: ProbedFeatures::default(),
        battery_handle: None,
        probed_tick: 10,
    };
    assert!(!is_stale(&cached, 10), "same tick is fresh");
    assert!(
        !is_stale(&cached, 10 + REFRESH_TICKS - 1),
        "just under the window is still fresh"
    );
    assert!(
        is_stale(&cached, 10 + REFRESH_TICKS),
        "at the window the probe is refreshed"
    );
}

#[test]
fn staleness_survives_a_wrapping_tick_counter() {
    let cached = cache_entry(u64::MAX - 2);
    assert!(!is_stale(&cached, 11));
    assert!(is_stale(&cached, 12));
}

#[test]
fn unifying_cached_features_do_not_override_current_liveness() {
    let probe = ProbedFeatures {
        battery: Some(BatteryInfo {
            percentage: None,
            level: BatteryLevel::Full,
            status: BatteryStatus::Charging,
        }),
        capabilities: Some(Capabilities::default()),
        ..ProbedFeatures::default()
    };

    let device = assemble_unifying_device(
        1,
        Some("cached mouse".to_string()),
        0x4082,
        DeviceKind::Mouse,
        probe,
        false,
    );

    assert!(!device.online, "the current liveness probe is authoritative");
    assert!(
        device.capabilities.is_some(),
        "cached immutable features remain available while offline"
    );
    assert_eq!(
        device.battery, None,
        "an offline route must not expose its last cached battery state"
    );
}

#[test]
fn online_device_shows_its_battery_and_its_own_type() {
    let battery = BatteryInfo {
        percentage: Some(50),
        level: BatteryLevel::Good,
        status: BatteryStatus::Discharging,
    };
    let probe = ProbedFeatures {
        battery: Some(battery),
        kind: Some(DeviceKind::Keyboard),
        ..ProbedFeatures::default()
    };
    let device = assemble_unifying_device(2, None, 0x4082, DeviceKind::Mouse, probe, true);
    assert_eq!(
        device,
        PairedDevice {
            slot: 2,
            codename: None,
            wpid: Some(0x4082),
            kind: DeviceKind::Keyboard,
            online: true,
            battery: Some(battery),
            model_info: None,
            capabilities: None,
        }
    );
}

#[test]
fn unifying_battery_failure_uses_root_ping_before_marking_offline() {
    let id = CacheKey::UnifyingSlot { receiver_uid: "receiver".to_string(), slot: 1 };
    let handle = BatteryHandle::unified(1, 4, false);
    let cached = Cached {
        probe: ProbedFeatures {
            capabilities: Some(Capabilities::default()),
            ..ProbedFeatures::default()
        },
        battery_handle: Some(handle),
        probed_tick: 10,
    };
    assert_eq!(
        plan_probe(&Some(id), Some(&cached), true, 11),
        ProbePlan::ReadBattery(handle)
    );
    let refreshed =
        read_battery(&handle, BatteryReply::UnifiedInfo(Err(Hidpp20Error::Feature(0x08))));

    assert!(
        is_unifying_device_online(refreshed.is_some(), true),
        "a failed battery refresh is inconclusive when the root ping still answers"
    );
    assert!(!is_unifying_device_online(refreshed.is_some(), false));
    assert!(is_unifying_device_online(true, false));
}

fn inventory(slots: &[u8]) -> Vec<DeviceInventory> {
    vec![DeviceInventory {
        receiver: ReceiverInfo {
            name: "Unifying Receiver".to_string(),
            vendor_id: 0x046d,
            product_id: 0xc52b,
            unique_id: Some("receiver-1".to_string()),
        },
        paired: slots
            .iter()
            .copied()
            .map(|slot| PairedDevice {
                slot,
                codename: Some(format!("device-{slot}")),
                wpid: Some(0xb000 + u16::from(slot)),
                kind: DeviceKind::Mouse,
                online: true,
                battery: None,
                model_info: None,
                capabilities: None,
            })
            .collect(),
    }]
}

#[test]
fn one_shot_retry_stops_when_first_attempt_is_complete() {
    let current = inventory(&[1, 2]);

    assert!(
        one_shot_should_stop(None, &current, true, true, 1),
        "complete inventories keep the one-pass happy path"
    );
}

#[test]
fn one_shot_retry_waits_for_healthy_incomplete_inventory_to_stabilize() {
    let partial = inventory(&[1]);
    let full = inventory(&[1, 2]);

    assert!(
        !one_shot_should_stop(None, &partial, false, true, 1),
        "the first incomplete pass has no previous inventory to compare"
    );
    assert!(
        !one_shot_should_stop(Some(partial.as_slice()), &full, false, true, 2),
        "a changed inventory should get another retry window"
    );
    assert!(
        one_shot_should_stop(Some(full.as_slice()), &full, false, true, 3),
        "once the returned inventory stabilizes, retrying stops"
    );
}

#[test]
fn one_shot_retry_stops_on_unchanged_incomplete_inventory() {
    let partial = inventory(&[1]);

    assert!(
        one_shot_should_stop(Some(partial.as_slice()), &partial, false, true, 2),
        "stable partial inventories should not burn every retry attempt"
    );
}

#[test]
fn one_shot_retry_keeps_unchanged_inventory_after_unhealthy_probe() {
    let partial = inventory(&[1]);

    assert!(
        !one_shot_should_stop(Some(partial.as_slice()), &partial, false, false, 2),
        "unchanged replay after a failed probe must keep retrying before the cap"
    );
}

#[test]
fn one_shot_retry_stops_at_attempt_cap_when_inventory_keeps_changing() {
    let previous = inventory(&[1]);
    let current = inventory(&[1, 2]);

    assert!(
        one_shot_should_stop(
            Some(previous.as_slice()),
            &current,
            false,
            false,
            ONESHOT_ATTEMPTS
        ),
        "the retry loop must remain bounded even if the inventory changes every time"
    );
}

#[test]
fn any_difference_keeps_an_inventory_unsettled() {
    let settled = |changed: &[DeviceInventory]| {
        one_shot_should_stop(Some(&inventory(&[1])), changed, false, true, 2)
    };
    assert!(settled(&inventory(&[1])));
    let mut renamed = inventory(&[1]);
    renamed[0].receiver.name.push('!');
    assert!(!settled(&renamed));
    let mut offline = inventory(&[1]);
    offline[0].paired[0].online = false;
    assert!(!settled(&offline));
    let mut known = inventory(&[1]);
    known[0].paired[0].model_info = Some(model([1, 2, 3, 4], None));
    assert!(!settled(&known));
    let mut serial = inventory(&[1]);
    serial[0].paired[0].model_info = Some(model([1, 2, 3, 4], Some("a")));
    assert!(!one_shot_should_stop(Some(&known), &serial, false, true, 2));
    assert!(!settled(&[]));
}

fn bolt_receiver_info() -> ReceiverInfo {
    ReceiverInfo {
        name: "Logi Bolt Receiver".to_string(),
        vendor_id: 0x046d,
        product_id: 0xc548,
        unique_id: Some("bolt-1".to_string()),
    }
}

/// A readable slot's probe result.
fn bolt_slot(slot: u8) -> (PairedDevice, CacheOutcome) {
    (
        PairedDevice {
            slot,
            codename: Some(format!("device-{slot}")),
            wpid: None,
            kind: DeviceKind::Mouse,
            online: true,
            battery: None,
            model_info: None,
            capabilities: None,
        },
        CacheOutcome::Seen(CacheKey::Bolt { unit_id: [0, 0, 0, slot] }),
    )
}

fn paired_slots(probe: &NodeProbe) -> Vec<u8> {
    let Some(inventory) = probe.inventory.as_ref() else {
        panic!("expected an inventory");
    };
    inventory.paired.iter().map(|d| d.slot).collect()
}

#[test]
fn bolt_probe_is_complete_when_count_matches_readable_slots() {
    let probe = assemble_bolt_probe(
        bolt_receiver_info(),
        Some(2),
        vec![bolt_slot(1), bolt_slot(2)],
    );
    assert!(probe.complete, "count matches the readable slots");
    assert!(probe.healthy, "a complete Bolt walk is authoritative");
    assert_eq!(paired_slots(&probe), vec![1, 2], "slots surface in order");
    assert_eq!(probe.outcomes.len(), 2, "one cache outcome per readable slot");
}

#[test]
fn bolt_probe_is_incomplete_when_a_counted_slot_is_unreadable() {
    let probe = assemble_bolt_probe(bolt_receiver_info(), Some(2), vec![bolt_slot(1)]);
    assert_eq!(paired_slots(&probe), vec![1], "only the readable slot surfaces");
    assert!(!probe.complete, "a count shortfall is not complete");
    assert!(!probe.healthy, "an incomplete Bolt walk is not authoritative");
}

#[test]
fn bolt_probe_is_incomplete_when_the_count_register_is_unanswered() {
    let probe = assemble_bolt_probe(bolt_receiver_info(), None, vec![bolt_slot(1), bolt_slot(2)]);
    assert_eq!(paired_slots(&probe), vec![1, 2]);
    assert!(
        !probe.complete,
        "no count register means we couldn't fully check"
    );
    assert!(!probe.healthy);
}

fn model(unit_id: [u8; 4], serial: Option<&str>) -> DeviceModelInfo {
    DeviceModelInfo {
        entity_count: 1,
        serial_number: serial.map(str::to_string),
        unit_id,
        transports: DeviceTransports::default(),
        model_ids: [0xc09d, 0, 0],
        extended_model_id: 1,
    }
}

fn probed(model_info: Option<DeviceModelInfo>, identity_incomplete: bool) -> ProbedFeatures {
    ProbedFeatures {
        model_info,
        identity_incomplete,
        kind: Some(DeviceKind::Mouse),
        ..ProbedFeatures::default()
    }
}

#[test]
fn failed_device_info_read_backfills_from_cache() {
    let mut fresh = probed(None, true);
    let cached = probed(Some(model([0x46, 0, 0x2e, 0], None)), false);

    backfill_identity(&mut fresh, &cached);

    assert_eq!(fresh.model_info, cached.model_info);
    assert!(
        !fresh.identity_incomplete,
        "a backfilled identity is complete and may be cached"
    );
}

#[test]
fn failed_serial_read_backfills_only_the_serial() {
    let mut fresh = probed(Some(model([1, 2, 3, 4], None)), true);
    let cached = probed(Some(model([9, 9, 9, 9], Some("abc123"))), false);

    backfill_identity(&mut fresh, &cached);

    let Some(info) = fresh.model_info else {
        panic!("model info kept");
    };
    assert_eq!(info.serial_number.as_deref(), Some("abc123"));
    assert_eq!(info.unit_id, [1, 2, 3, 4], "fresh unit id wins");
    assert!(!fresh.identity_incomplete);
}

#[test]
fn complete_probe_is_never_overwritten_by_cache() {
    let mut fresh = probed(Some(model([1, 2, 3, 4], None)), false);
    let cached = probed(Some(model([9, 9, 9, 9], Some("stale"))), false);

    backfill_identity(&mut fresh, &cached);

    let Some(info) = fresh.model_info else {
        panic!("model info kept");
    };
    assert_eq!(info.unit_id, [1, 2, 3, 4]);
    assert!(info.serial_number.is_none(), "no serial was read, none faked");
}

#[test]
fn incomplete_probe_without_cached_identity_stays_incomplete() {
    let mut fresh = probed(None, true);
    let cached = probed(None, false);

    backfill_identity(&mut fresh, &cached);

    assert!(
        fresh.identity_incomplete,
        "nothing to backfill from — the caller must not memoize this probe"
    );
}

#[test]
fn failed_kind_read_is_carried_forward() {
    let mut fresh = ProbedFeatures::default();
    let cached = probed(None, false);

    backfill_identity(&mut fresh, &cached);

    assert_eq!(fresh.kind, Some(DeviceKind::Mouse));
}

#[test]
fn codename_reads_len_prefixed_name() {
    let mut buf = vec![0x40, 0x0c];
    buf.extend_from_slice(b"MX Master 2S");
    buf.extend_from_slice(&[0u8; 2]); // trailing bytes of the 16-byte register
    assert_eq!(
        parse_codename_unifying(&buf).as_deref(),
        Some("MX Master 2S")
    );
}

#[test]
fn codename_clamps_overlong_len() {
    // a bogus length byte must not over-read past the buffer.
    let buf = [0x40, 0xff, b'h', b'i'];
    assert_eq!(parse_codename_unifying(&buf).as_deref(), Some("hi"));
}

#[test]
fn codename_rejects_short_response() {
    assert_eq!(parse_codename_unifying(&[0x40]), None);
}

#[test]
fn codename_is_text() {
    assert_eq!(parse_codename_unifying(&[]), None);
    assert_eq!(parse_codename_unifying(&[0x40, 0]).as_deref(), Some(""));
    assert_eq!(parse_codename_unifying(&[0x40, 2, 0xc3, 0xa9]).as_deref(), Some("é"));
    assert_eq!(parse_codename_unifying(&[0x40, 1, 0xc3, 0xa9]), None);
    assert_eq!(parse_codename_unifying(&[0x40, 1, 0xff]), None);
}

const BATTERY: BatteryInfo = BatteryInfo {
    percentage: Some(70),
    level: BatteryLevel::Good,
    status: BatteryStatus::Discharging,
};

fn walked(battery: Option<BatteryInfo>) -> ProbedFeatures {
    ProbedFeatures {
        battery,
        capabilities: Some(Capabilities::default()),
        ..ProbedFeatures::default()
    }
}

fn memoized(tick: u64) -> Cached {
    Cached {
        probe: walked(Some(BATTERY)),
        battery_handle: Some(BatteryHandle::status(1, 3, true)),
        probed_tick: tick,
    }
}

fn id() -> Option<CacheKey> {
    Some(CacheKey::Direct(1))
}

#[test]
fn sightings_need_a_key() {
    assert_eq!(seen(id()), CacheOutcome::Seen(CacheKey::Direct(1)));
    assert_eq!(seen(None), CacheOutcome::Unkeyed);
}

#[test]
fn plans_follow_the_cache() {
    let cached = memoized(10);
    let handle = BatteryHandle::status(1, 3, true);
    assert_eq!(plan_probe(&id(), None, true, 10), ProbePlan::Probe);
    assert_eq!(plan_probe(&id(), None, false, 10), ProbePlan::Reuse);
    assert_eq!(plan_probe(&id(), Some(&cached), false, 100), ProbePlan::Reuse);
    assert_eq!(plan_probe(&id(), Some(&cached), true, 24), ProbePlan::ReadBattery(handle));
    assert_eq!(plan_probe(&id(), Some(&cached), true, 25), ProbePlan::Probe);
    assert_eq!(plan_probe(&None, Some(&cached), true, 24), ProbePlan::Reuse);
    let without = Cached { battery_handle: None, ..memoized(10) };
    assert_eq!(plan_probe(&id(), Some(&without), true, 24), ProbePlan::Reuse);
}

#[test]
fn successful_probe_is_memoized() {
    let handle = Some(BatteryHandle::unified(1, 2, true));
    let answer = ProbeAnswer::Probed { features: walked(Some(BATTERY)), battery_handle: handle };
    let (probe, outcome) = probe_or_reuse(id(), None, true, 5, answer);
    assert_eq!(probe, walked(Some(BATTERY)));
    assert_eq!(
        outcome,
        CacheOutcome::Fresh(
            CacheKey::Direct(1),
            Cached { probe: walked(Some(BATTERY)), battery_handle: handle, probed_tick: 5 }
        )
    );
    let answer = ProbeAnswer::Probed { features: walked(None), battery_handle: None };
    assert_eq!(probe_or_reuse(None, None, true, 5, answer).1, CacheOutcome::Unkeyed);
}

#[test]
fn failed_probe_falls_back_to_the_last_known_data() {
    let cached = memoized(0);
    let failed = || ProbeAnswer::Probed {
        features: ProbedFeatures::default(),
        battery_handle: None,
    };
    let (probe, outcome) = probe_or_reuse(id(), Some(&cached), true, 20, failed());
    assert_eq!(probe, cached.probe);
    assert_eq!(outcome, CacheOutcome::Seen(CacheKey::Direct(1)));
    let (probe, outcome) = probe_or_reuse(id(), None, true, 20, failed());
    assert_eq!(probe, ProbedFeatures::default());
    assert_eq!(outcome, CacheOutcome::Seen(CacheKey::Direct(1)));
}

#[test]
fn battery_survives_a_transient_status_failure() {
    let cached = memoized(0);
    let answer = ProbeAnswer::Probed {
        features: walked(None),
        battery_handle: Some(BatteryHandle::status(1, 3, true)),
    };
    let (probe, _) = probe_or_reuse(id(), Some(&cached), true, 20, answer);
    assert_eq!(probe.battery, Some(BATTERY));
    let removed = ProbeAnswer::Probed { features: walked(None), battery_handle: None };
    let (probe, _) = probe_or_reuse(id(), Some(&cached), true, 20, removed);
    assert_eq!(probe.battery, None, "the feature is gone");
}

#[test]
fn incomplete_first_probe_is_served_but_not_memoized() {
    let incomplete = || ProbeAnswer::Probed {
        features: ProbedFeatures { identity_incomplete: true, ..walked(Some(BATTERY)) },
        battery_handle: None,
    };
    let (probe, outcome) = probe_or_reuse(id(), None, true, 5, incomplete());
    assert!(probe.identity_incomplete);
    assert_eq!(outcome, CacheOutcome::Seen(CacheKey::Direct(1)));
    let mut cached = memoized(0);
    cached.probe.model_info = Some(model([1, 2, 3, 4], Some("abc123")));
    let (probe, outcome) = probe_or_reuse(id(), Some(&cached), true, 20, incomplete());
    assert_eq!(probe.model_info, cached.probe.model_info);
    assert!(!probe.identity_incomplete);
    assert!(matches!(outcome, CacheOutcome::Fresh(_, entry) if entry.probed_tick == 20));
}

#[test]
fn identity_with_nothing_to_fill_it_in_is_not_memoized() {
    let incomplete = |model_info: Option<DeviceModelInfo>| ProbeAnswer::Probed {
        features: ProbedFeatures {
            model_info,
            identity_incomplete: true,
            ..walked(Some(BATTERY))
        },
        battery_handle: None,
    };
    // Neither probe has an identity.
    let cached = memoized(0);
    assert_eq!(plan_probe(&id(), Some(&cached), true, 20), ProbePlan::Probe);
    let (probe, outcome) = probe_or_reuse(id(), Some(&cached), true, 20, incomplete(None));
    assert!(probe.identity_incomplete);
    assert_eq!(outcome, CacheOutcome::Seen(CacheKey::Direct(1)));
    // Neither probe has a serial number.
    let mut cached = memoized(0);
    cached.probe.model_info = Some(model([9, 9, 9, 9], None));
    let answer = incomplete(Some(model([1, 2, 3, 4], None)));
    let (probe, outcome) = probe_or_reuse(id(), Some(&cached), true, 20, answer);
    assert!(probe.identity_incomplete);
    assert_eq!(probe.model_info, Some(model([1, 2, 3, 4], None)));
    assert_eq!(outcome, CacheOutcome::Seen(CacheKey::Direct(1)));
    // A serial number to fill in makes the identity complete.
    cached.probe.model_info = Some(model([9, 9, 9, 9], Some("abc123")));
    let answer = incomplete(Some(model([1, 2, 3, 4], None)));
    let (probe, outcome) = probe_or_reuse(id(), Some(&cached), true, 20, answer);
    assert_eq!(probe.model_info, Some(model([1, 2, 3, 4], Some("abc123"))));
    assert!(matches!(outcome, CacheOutcome::Fresh(_, entry) if entry.probe == probe));
    // Without a key there is nothing to memoize.
    let (_, outcome) = probe_or_reuse(None, None, true, 20, incomplete(None));
    assert_eq!(outcome, CacheOutcome::Unkeyed);
}

#[test]
fn cache_hit_rereads_only_the_battery() {
    let cached = memoized(10);
    let reading = BatteryInfo { percentage: Some(69), ..BATTERY };
    let (probe, outcome) =
        probe_or_reuse(id(), Some(&cached), true, 11, ProbeAnswer::Battery(Some(reading)));
    assert_eq!(probe, walked(Some(reading)));
    assert_eq!(
        outcome,
        CacheOutcome::Update(
            CacheKey::Direct(1),
            Cached { probe: walked(Some(reading)), ..memoized(10) }
        )
    );
    let (probe, outcome) =
        probe_or_reuse(id(), Some(&cached), true, 11, ProbeAnswer::Battery(None));
    assert_eq!(probe, walked(Some(BATTERY)));
    assert_eq!(outcome, CacheOutcome::Seen(CacheKey::Direct(1)));
}

#[test]
fn offline_device_is_shown_from_the_cache() {
    let cached = memoized(0);
    let (probe, outcome) =
        probe_or_reuse(id(), Some(&cached), false, 100, ProbeAnswer::Nothing);
    assert_eq!(probe, cached.probe);
    assert_eq!(outcome, CacheOutcome::Seen(CacheKey::Direct(1)));
    let (probe, outcome) = probe_or_reuse(None, None, false, 100, ProbeAnswer::Nothing);
    assert_eq!(probe, ProbedFeatures::default());
    assert_eq!(outcome, CacheOutcome::Unkeyed);
}
