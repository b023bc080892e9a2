use openlogi::route::DeviceRoute;
use openlogi::transport::channel::{HidChannel, HidFailure, ReadAction};
use openlogi::transport::collection_path::normalize_collection_path;
use openlogi::transport::pool::{HidppChannelCache, OpenAction, OpenChannel};
use openlogi::transport::{
    direct_target, enumerate_hidpp_devices, find_target, is_hidpp_long_collection,
    is_long_only_collection, is_receiver_child_node, is_receiver_child_sysfs_path,
    sysfs_device_link, HidNode, LOGITECH_VID,
};

const CONNECTED: OpenChannel = OpenChannel { channel: 1, connected: true };

#[test]
fn channel_cache_reuses_one_live_channel_per_node() {
    let mut cache = HidppChannelCache::default();
    cache.remember(7, CONNECTED.channel);

    let reused = cache
        .live(7, &[CONNECTED])
        .unwrap_or_else(|| panic!("live channel should remain reusable"));

    assert_eq!(CONNECTED.channel, reused);
}

#[test]
fn channel_cache_rejects_a_disconnected_channel() {
    let mut cache = HidppChannelCache::default();
    cache.remember(7, CONNECTED.channel);

    let disconnected = OpenChannel { connected: false, ..CONNECTED };

    assert!(cache.live(7, &[disconnected]).is_none());
    assert!(!cache.is_empty(), "somebody still holds the channel");
}

#[test]
fn channel_cache_rejects_an_invalidated_channel() {
    let mut channel = HidChannel::new(LOGITECH_VID, 0xb023, true);
    let mut cache = HidppChannelCache::default();
    cache.remember(7, CONNECTED.channel);

    channel.mark_disconnected();

    let open = [OpenChannel { channel: CONNECTED.channel, connected: channel.is_connected() }];
    assert!(cache.live(7, &open).is_none());
}

#[test]
fn channel_cache_does_not_keep_an_unowned_channel_alive() {
    let mut cache = HidppChannelCache::default();
    cache.remember(7, CONNECTED.channel);

    assert!(cache.live(7, &[]).is_none());
    assert!(cache.is_empty());
}

#[test]
fn lookup_keeps_the_channels_of_other_nodes() {
    let mut cache = HidppChannelCache::default();
    cache.remember(7, 1);
    cache.remember(8, 2);
    cache.remember(9, 3);
    let open = [CONNECTED, OpenChannel { channel: 3, connected: false }];
    assert_eq!(cache.live(5, &open), None);
    assert_eq!(cache.channels.len(), 2);
    assert_eq!(cache.channels.get(&7), Some(&1));
    assert_eq!(cache.channels.get(&9), Some(&3));
}

#[test]
fn open_channel_is_shared_and_a_new_one_remembered() {
    let mut cache = HidppChannelCache::default();
    assert_eq!(
        cache.begin_open(7, 0xff43, 0x0202, &[]),
        OpenAction::Open { long_only: true }
    );
    assert_eq!(cache.finish_open(7, Some(1)), Some(1));
    assert_eq!(cache.begin_open(7, 0xff43, 0x0202, &[CONNECTED]), OpenAction::Reuse(1));
    assert_eq!(
        cache.begin_open(8, 0xff00, 0x0002, &[CONNECTED]),
        OpenAction::Open { long_only: false }
    );
    assert_eq!(cache.finish_open(8, None), None);
    assert_eq!(cache.live(8, &[CONNECTED]), None, "not a HID++ node");
    assert_eq!(cache.live(7, &[CONNECTED]), Some(1));
}

#[test]
fn matches_usb_ble_and_keyboard_hidpp_collections() {
    assert!(is_hidpp_long_collection(0xff00, 0x0002)); // USB / receiver / BT-classic
    assert!(is_hidpp_long_collection(0xff43, 0x0202)); // BLE-direct
    assert!(is_hidpp_long_collection(0xff43, 0x0602)); // wired G-series keyboard
    assert!(!is_hidpp_long_collection(0x0001, 0x0002)); // generic-desktop mouse
    assert!(!is_hidpp_long_collection(0xff43, 0x0002)); // page right, usage wrong
}

#[test]
fn only_ble_collection_is_long_only() {
    assert!(is_long_only_collection(0xff43, 0x0202)); // BLE-direct: no short reports
    assert!(!is_long_only_collection(0xff00, 0x0002)); // USB / receiver carries both reports
    assert!(!is_long_only_collection(0xff43, 0x0602)); // wired G-series keyboard carries both
    assert!(!is_long_only_collection(0x0001, 0x0002)); // not a HID++ collection at all
}

#[test]
fn short_and_long_collections_of_one_interface_share_a_grouping_key() {
    let short = normalize_collection_path(
        r"\\?\HID#VID_046D&PID_C548&MI_02&Col01#7&348660ac&0&0000#{4d1e55b2-f16f-11cf-88cb-001111000030}",
    );
    let long = normalize_collection_path(
        r"\\?\HID#VID_046D&PID_C548&MI_02&Col02#7&348660ac&0&0001#{4d1e55b2-f16f-11cf-88cb-001111000030}",
    );
    assert_eq!(short, long);
    assert_eq!(short, "vid_046d&pid_c548&mi_02#7&348660ac&0");
}

#[test]
fn distinct_interfaces_do_not_share_a_grouping_key() {
    let mi01 = normalize_collection_path(
        r"\\?\HID#VID_046D&PID_C548&MI_01&Col02#7&1cc2d467&0&0001#{4d1e55b2-f16f-11cf-88cb-001111000030}",
    );
    let mi02 = normalize_collection_path(
        r"\\?\HID#VID_046D&PID_C548&MI_02&Col02#7&348660ac&0&0001#{4d1e55b2-f16f-11cf-88cb-001111000030}",
    );
    assert_ne!(mi01, mi02);
}

#[test]
fn distinct_physical_receivers_do_not_share_a_grouping_key() {
    let recv_a = normalize_collection_path(
        r"\\?\HID#VID_046D&PID_C548&MI_02&Col01#7&348660ac&0&0000#{4d1e55b2-f16f-11cf-88cb-001111000030}",
    );
    let recv_b = normalize_collection_path(
        r"\\?\HID#VID_046D&PID_C548&MI_02&Col01#7&9f1be20c&0&0000#{4d1e55b2-f16f-11cf-88cb-001111000030}",
    );
    assert_ne!(recv_a, recv_b);

    let bolt = normalize_collection_path(
        r"\\?\HID#VID_046D&PID_C548&MI_02&Col02#7&348660ac&0&0001#{4d1e55b2-f16f-11cf-88cb-001111000030}",
    );
    let unifying = normalize_collection_path(
        r"\\?\HID#VID_046D&PID_C52B&MI_02&Col02#7&1a2b3c4d&0&0001#{4d1e55b2-f16f-11cf-88cb-001111000030}",
    );
    assert_ne!(bolt, unifying);
}

#[test]
fn path_without_an_instance_is_its_own_key() {
    assert_eq!(normalize_collection_path("HID"), "hid");
    assert_eq!(normalize_collection_path(r"\\?\HID#VID_046D&Col01"), r"\\?\hid#vid_046d&col01");
    assert_eq!(normalize_collection_path("x#VID#7"), "vid#7");
}

// The child of a Unifying receiver
const UNIFYING_CHILD: &str = "/sys/devices/pci0000:00/0000:00:14.0/usb3/3-5/3-5.4/3-5.4.3/\
     3-5.4.3:1.2/0003:046D:C52B.0009/0003:046D:4076.000A";
// The Unifying receiver itself
const UNIFYING_RECEIVER: &str = "/sys/devices/pci0000:00/0000:00:14.0/usb3/3-5/3-5.4/3-5.4.3/\
     3-5.4.3:1.2/0003:046D:C52B.0009";
// The child of a Bolt receiver
const BOLT_CHILD: &str = "/sys/devices/pci0000:00/0000:00:14.0/usb3/3-5/\
     0003:046D:C548.0001/0003:046D:B037.0002";
// A device of another vendor
const UNRELATED: &str = "/sys/devices/pci0000:00/0000:00:15.0/i2c-0/0018:06CB:CE67.0001";

#[test]
fn child_of_unifying_receiver_is_detected() {
    assert!(is_receiver_child_sysfs_path(UNIFYING_CHILD));
}

#[test]
fn unifying_receiver_itself_is_not_a_child() {
    assert!(!is_receiver_child_sysfs_path(UNIFYING_RECEIVER));
}

#[test]
fn child_of_bolt_receiver_is_detected() {
    assert!(is_receiver_child_sysfs_path(BOLT_CHILD));
}

#[test]
fn unrelated_device_is_not_a_child() {
    assert!(!is_receiver_child_sysfs_path(UNRELATED));
}

#[test]
fn device_link_names_the_node() {
    assert_eq!(sysfs_device_link("hidraw3"), "/sys/class/hidraw/hidraw3/device");
}

fn node(vendor_id: u16, product_id: u16, usage: (u16, u16), path: Option<&str>) -> HidNode {
    HidNode {
        vendor_id,
        product_id,
        usage_page: usage.0,
        usage_id: usage.1,
        sysfs_path: path.map(str::to_string),
    }
}

#[test]
fn only_own_hidpp_nodes_of_the_vendor_are_enumerated() {
    let nodes = [
        node(0x1234, 0xc52b, (0xff00, 0x0002), None),
        node(LOGITECH_VID, 0xc52b, (0xff00, 0x0002), Some(UNIFYING_RECEIVER)),
        node(LOGITECH_VID, 0x4076, (0xff00, 0x0002), Some(UNIFYING_CHILD)),
        node(LOGITECH_VID, 0xb023, (0x0001, 0x0002), None),
        node(LOGITECH_VID, 0xb023, (0xff43, 0x0202), None),
    ];
    assert_eq!(enumerate_hidpp_devices(&nodes), vec![1, 4]);
    assert!(is_receiver_child_node(&nodes[2]));
    assert!(!is_receiver_child_node(&nodes[4]));
}

#[test]
fn raw_writer_goes_to_the_first_direct_node() {
    let nodes = [
        node(LOGITECH_VID, 0xc52b, (0xff00, 0x0002), None),
        node(LOGITECH_VID, 0xc33c, (0xff43, 0x0602), None),
        node(LOGITECH_VID, 0xc33c, (0xff43, 0x0602), None),
    ];
    let direct = DeviceRoute::Direct { vendor_id: LOGITECH_VID, product_id: 0xc33c };
    let (vendor_id, product_id) = direct_target(&direct).unwrap();
    assert_eq!(find_target(&nodes, vendor_id, product_id), Some(1));
    assert_eq!(find_target(&nodes, LOGITECH_VID, 0xb023), None);
    assert_eq!(find_target(&nodes, 0x1234, 0xc33c), None);
    let bolt = DeviceRoute::Bolt { receiver_uid: "b".to_string(), slot: 1 };
    assert_eq!(direct_target(&bolt), None);
    let unifying = DeviceRoute::Unifying { receiver_uid: "u".to_string(), slot: 1 };
    assert_eq!(direct_target(&unifying), None);
}

#[test]
fn disconnection_is_noticed_once_and_parks_reads() {
    let mut channel = HidChannel::new(LOGITECH_VID, 0xb023, true);
    assert!(channel.is_connected());
    assert_eq!(channel.supports_short_long_hidpp(), Some((false, true)));
    assert_eq!(
        HidChannel::new(LOGITECH_VID, 0xc52b, false).supports_short_long_hidpp(),
        Some((true, true))
    );

    assert_eq!(channel.read_report(Ok(20)), ReadAction::Return(20));
    assert_eq!(
        channel.read_report(Err(HidFailure::Other)),
        ReadAction::Fail(HidFailure::Other)
    );
    assert!(channel.is_connected(), "other failures say nothing about the device");
    assert_eq!(channel.read_report(Err(HidFailure::Disconnected)), ReadAction::Park);
    assert!(!channel.is_connected());
    assert!(!channel.mark_disconnected(), "no news");
}

#[test]
fn failed_write_is_reported_and_notices_a_disconnection() {
    let mut channel = HidChannel::new(LOGITECH_VID, 0xb023, false);
    assert_eq!(channel.write_report(7, Ok(())), Ok(7));
    assert_eq!(channel.write_report(7, Err(HidFailure::Other)), Err(HidFailure::Other));
    assert!(channel.is_connected());
    assert_eq!(
        channel.write_report(7, Err(HidFailure::Disconnected)),
        Err(HidFailure::Disconnected)
    );
    assert!(!channel.is_connected());
}
