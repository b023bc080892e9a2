//! Which HID nodes speak HID++, and which of them are opened.
//!
//! Short and long report support is not read from report descriptors. Nodes are
//! filtered to the Logitech HID++ vendor collections instead (see
//! [`HIDPP_LONG_COLLECTIONS`]): USB and receiver collections carry both reports;
//! BLE-direct collections are long-only, and outgoing short messages are
//! up-converted to long for them.

use vstd::prelude::*;

use crate::route::{DeviceRoute, BOLT_PIDS, UNIFYING_PIDS};
use crate::text::{chars_of, find, find_char, push_hex4};

pub mod channel;
pub mod collection_path;
pub mod pool;

verus! {

/// Logitech HID vendor ID.
pub const LOGITECH_VID: u16 = 0x046d;

/// HID++ long-report vendor collections, as `(usage_page, usage_id, long_only)`.
///
/// Logitech exposes its HID++ long-report (report id `0x11`) under a
/// vendor-defined HID collection, but the page differs by transport:
///
/// - `0xFF00 / 0x0002` — USB, Logi Bolt / Unifying receivers, and
///   Bluetooth-*classic* devices.
/// - `0xFF43 / 0x0202` — Bluetooth-*Low-Energy* directly-paired devices. Same
///   HID++ protocol, just a different vendor page.
/// - `0xFF43 / 0x0602` — wired G-series gaming keyboards: a distinct vendor
///   collection on the same page. Carries both report widths.
///
/// `long_only` marks a transport that exposes *only* the long report, so short
/// HID++ requests must be up-converted to long. Keeping the flag in this table
/// means a new long-only transport is a single-line addition here.
pub const HIDPP_LONG_COLLECTIONS: [(u16, u16, bool); 3] = [
    (0xff00, 0x0002, false),
    (0xff43, 0x0202, true),
    (0xff43, 0x0602, false),
];

/// `(usage_page, usage_id)` carries HID++ long reports.
pub open spec fn has_long_reports(usage_page: u16, usage_id: u16) -> bool {
    ||| (usage_page, usage_id) == (0xff00u16, 0x0002u16)
    ||| (usage_page, usage_id) == (0xff43u16, 0x0202u16)
    ||| (usage_page, usage_id) == (0xff43u16, 0x0602u16)
}

/// `(usage_page, usage_id)` carries HID++ long reports and no short ones.
pub open spec fn lacks_short_reports(usage_page: u16, usage_id: u16) -> bool {
    (usage_page, usage_id) == (0xff43u16, 0x0202u16)
}

/// Whether `(usage_page, usage_id)` is one of the HID++ long-report collections.
pub fn is_hidpp_long_collection(usage_page: u16, usage_id: u16) -> (listed: bool)
    ensures
        listed == has_long_reports(usage_page, usage_id),
{
    for i in 0..HIDPP_LONG_COLLECTIONS.len()
        invariant
            forall|j: int|
                0 <= j < i ==> (
                    (#[trigger] HIDPP_LONG_COLLECTIONS@[j]).0,
                    HIDPP_LONG_COLLECTIONS@[j].1,
                ) != (usage_page, usage_id),
    {
        let (page, usage, _) = HIDPP_LONG_COLLECTIONS[i];
        if page == usage_page && usage == usage_id {
            return true;
        }
    }
    assert(HIDPP_LONG_COLLECTIONS@[0] == (0xff00u16, 0x0002u16, false));
    assert(HIDPP_LONG_COLLECTIONS@[1] == (0xff43u16, 0x0202u16, true));
    assert(HIDPP_LONG_COLLECTIONS@[2] == (0xff43u16, 0x0602u16, false));
    false
}

/// Whether the HID++ collection exposes only the long report, so short requests
/// must be re-framed as long. `false` for pages not in
/// [`HIDPP_LONG_COLLECTIONS`].
pub fn is_long_only_collection(usage_page: u16, usage_id: u16) -> (long_only: bool)
    ensures
        long_only == lacks_short_reports(usage_page, usage_id),
{
    for i in 0..HIDPP_LONG_COLLECTIONS.len()
        invariant
            forall|j: int|
                0 <= j < i ==> #[trigger] HIDPP_LONG_COLLECTIONS@[j] != (
                    usage_page,
                    usage_id,
                    true,
                ),
    {
        let (page, usage, long_only) = HIDPP_LONG_COLLECTIONS[i];
        if long_only && page == usage_page && usage == usage_id {
            return true;
        }
    }
    assert(HIDPP_LONG_COLLECTIONS@[1] == (0xff43u16, 0x0202u16, true));
    false
}

/// A long-only collection is a HID++ collection.
pub proof fn long_only_collections_are_hidpp(usage_page: u16, usage_id: u16)
    requires
        lacks_short_reports(usage_page, usage_id),
    ensures
        has_long_reports(usage_page, usage_id),
{
}

/// The name of the HID device of a Logitech product in the kernel's device tree
/// has the form `BUS:VID:PID.IFACE`, with upper-case hexadecimal numbers. This is
/// the part that names the product `pid`.
pub open spec fn product_marker(pid: u16) -> Seq<char> {
    seq![':'] + crate::text::hex4(LOGITECH_VID) + seq![':'] + crate::text::hex4(pid) + seq!['.']
}

/// A component of `path` names the product `pid`, and another component follows.
pub open spec fn is_below_product(path: Seq<char>, pid: u16) -> bool {
    exists|at: int, slash: int|
        #![trigger crate::text::occurs_at(path, product_marker(pid), at), path[slash]]
        {
            &&& crate::text::occurs_at(path, product_marker(pid), at)
            &&& at + product_marker(pid).len() <= slash < path.len()
            &&& path[slash] == '/'
        }
}

/// `pid` is the product ID of a receiver.
pub open spec fn is_receiver_pid(pid: u16) -> bool {
    BOLT_PIDS@.contains(pid) || UNIFYING_PIDS@.contains(pid)
}

/// `path` belongs to a device that is a child of a receiver.
pub open spec fn is_receiver_child(path: Seq<char>) -> bool {
    exists|pid: u16| is_receiver_pid(pid) && #[trigger] is_below_product(path, pid)
}

fn below_product(path: &Vec<char>, pid: u16) -> (below: bool)
    ensures
        below == is_below_product(path@, pid),
{
    let mut marker: Vec<char> = Vec::new();
    marker.push(':');
    push_hex4(&mut marker, LOGITECH_VID);
    marker.push(':');
    push_hex4(&mut marker, pid);
    marker.push('.');
    assert(marker@ =~= product_marker(pid));
    match find(path.as_slice(), marker.as_slice()) {
        Some(at) => {
            assert(at + marker@.len() <= path.len());
            let slash = find_char(path.as_slice(), '/', at + marker.len());
            if slash < path.len() {
                assert(path@[slash as int] == '/');
                true
            } else {
                false
            }
        },
        None => false,
    }
}

/// Determines whether a resolved sysfs path belongs to a device that is a child
/// of a known receiver.
///
/// Each device paired to a receiver may get its own hidraw node whose sysfs path
/// is a subdirectory of the receiver's HID device path, such as
/// `.../0003:046D:C52B.0009/0003:046D:4076.000A`, while the receiver itself ends
/// at `.../0003:046D:C52B.0009`. Such nodes expose the same HID++ collection as
/// the receiver, but must not be probed directly.
pub fn is_receiver_child_sysfs_path(path: &str) -> (child: bool)
    ensures
        child == is_receiver_child(path@),
{
    let chars = chars_of(path);
    for i in 0..BOLT_PIDS.len()
        invariant
            chars@ == path@,
            forall|j: int| 0 <= j < i ==> !is_below_product(path@, #[trigger] BOLT_PIDS@[j]),
    {
        if below_product(&chars, BOLT_PIDS[i]) {
            assert(is_receiver_pid(BOLT_PIDS@[i as int]));
            return true;
        }
    }
    for i in 0..UNIFYING_PIDS.len()
        invariant
            chars@ == path@,
            forall|j: int| 0 <= j < i ==> !is_below_product(path@, #[trigger] UNIFYING_PIDS@[j]),
    {
        if below_product(&chars, UNIFYING_PIDS[i]) {
            assert(is_receiver_pid(UNIFYING_PIDS@[i as int]));
            return true;
        }
    }
    false
}

/// Whatever lies below the HID device of a receiver is a child of it.
pub proof fn nodes_below_a_receiver_are_children(
    receiver: Seq<char>,
    pid: u16,
    at: int,
    below: Seq<char>,
)
    requires
        is_receiver_pid(pid),
        crate::text::occurs_at(receiver, product_marker(pid), at),
    ensures
        is_receiver_child(receiver + seq!['/'] + below),
{
    let path = receiver + seq!['/'] + below;
    let marker = product_marker(pid);
    assert(path.subrange(at, at + marker.len()) =~= receiver.subrange(at, at + marker.len()));
    assert(crate::text::occurs_at(path, marker, at));
    assert(path[receiver.len() as int] == '/');
    assert(is_below_product(path, pid));
}

proof fn marker_has_no_slash(pid: u16, i: int)
    requires
        0 <= i < product_marker(pid).len(),
    ensures
        product_marker(pid)[i] != '/',
{
    assert(product_marker(pid).len() == 11);
}

/// The node at `name` in a directory that is not part of a receiver is not a
/// child, even if `name` is the HID device of a receiver.
pub proof fn receivers_are_not_children(directory: Seq<char>, name: Seq<char>)
    requires
        forall|pid: u16, at: int|
            is_receiver_pid(pid) ==> !#[trigger] crate::text::occurs_at(
                directory,
                product_marker(pid),
                at,
            ),
        !name.contains('/'),
    ensures
        !is_receiver_child(directory + seq!['/'] + name),
{
    let path = directory + seq!['/'] + name;
    assert forall|pid: u16, at: int, slash: int|
        is_receiver_pid(pid) && #[trigger] crate::text::occurs_at(path, product_marker(pid), at)
            && at + product_marker(pid).len() <= slash < path.len() implies #[trigger] path[slash]
        != '/' by {
        let marker = product_marker(pid);
        if at + marker.len() <= directory.len() {
            assert(directory.subrange(at, at + marker.len()) =~= path.subrange(
                at,
                at + marker.len(),
            ));
            assert(crate::text::occurs_at(directory, marker, at));
        } else if at <= directory.len() {
            let inside = directory.len() - at;
            marker_has_no_slash(pid, inside);
            assert(path.subrange(at, at + marker.len())[inside] == path[directory.len() as int]);
        } else {
            assert(path[slash] == name[slash - directory.len() - 1]);
        }
    }
}

/// The sysfs link to the HID device of the hidraw node `node_name`.
pub fn sysfs_device_link(node_name: &str) -> (link: String)
    ensures
        link@ == "/sys/class/hidraw/"@ + node_name@ + "/device"@,
{
    let mut link = "/sys/class/hidraw/".to_owned();
    link.append(node_name);
    link.append("/device");
    link
}

/// What the operating system reports about a HID node.
#[derive(Debug, PartialEq, Eq)]
pub struct HidNode {
    /// USB vendor id.
    pub vendor_id: u16,
    /// USB product id.
    pub product_id: u16,
    /// Usage page of the collection.
    pub usage_page: u16,
    /// Usage of the collection.
    pub usage_id: u16,
    /// Resolved sysfs path of the HID device, where there is one.
    pub sysfs_path: Option<String>,
}

impl HidNode {
    /// The node is a virtual per-device interface below a receiver.
    pub open spec fn is_child(self) -> bool {
        self.sysfs_path matches Some(path) && is_receiver_child(path@)
    }

    /// The node is a Logitech HID++ node to talk to: its own, not one that only
    /// shows what is paired to a receiver.
    pub open spec fn is_hidpp(self) -> bool {
        &&& self.vendor_id == LOGITECH_VID
        &&& has_long_reports(self.usage_page, self.usage_id)
        &&& !self.is_child()
    }
}

/// Whether a HID++ node is a virtual per-device interface below a receiver.
/// Communication must go through the receiver's own node.
pub fn is_receiver_child_node(node: &HidNode) -> (child: bool)
    ensures
        child == node.is_child(),
{
    match &node.sysfs_path {
        Some(path) => is_receiver_child_sysfs_path(path.as_str()),
        None => false,
    }
}

/// The positions of the HID++ nodes in `nodes`, in order.
pub fn enumerate_hidpp_devices(nodes: &[HidNode]) -> (positions: Vec<usize>)
    ensures
        forall|i: int, j: int|
            0 <= i < j < positions@.len() ==> positions@[i] < positions@[j],
        forall|i: usize| #[trigger]
            positions@.contains(i) <==> i < nodes@.len() && nodes@[i as int].is_hidpp(),
        forall|i: usize, row: int|
            #![trigger positions@.contains(i), HIDPP_LONG_COLLECTIONS@[row]]
            0 <= row < 3 && i < nodes@.len() && nodes@[i as int].vendor_id == 0x046d
                && nodes@[i as int].usage_page == HIDPP_LONG_COLLECTIONS@[row].0
                && nodes@[i as int].usage_id == HIDPP_LONG_COLLECTIONS@[row].1 && (
            nodes@[i as int].sysfs_path is None || !is_receiver_child(
                nodes@[i as int].sysfs_path->0@,
            )) ==> positions@.contains(i),
{
    let mut positions: Vec<usize> = Vec::new();
    for i in 0..nodes.len()
        invariant
            forall|a: int, b: int|
                0 <= a < b < positions@.len() ==> positions@[a] < positions@[b],
            forall|a: int| 0 <= a < positions@.len() ==> positions@[a] < i,
            forall|p: usize| #[trigger]
                positions@.contains(p) <==> p < i && nodes@[p as int].is_hidpp(),
    {
        let node = &nodes[i];
        let ghost before = positions@;
        if node.vendor_id == LOGITECH_VID && is_hidpp_long_collection(
            node.usage_page,
            node.usage_id,
        ) && !is_receiver_child_node(node) {
            positions.push(i);
            assert(positions@[before.len() as int] == i);
            assert forall|p: usize| #[trigger] positions@.contains(p) implies p < i + 1
                && nodes@[p as int].is_hidpp() by {
                let at = choose|at: int| 0 <= at < positions@.len() && positions@[at] == p;
                if at < before.len() {
                    assert(before[at] == p);
                    assert(before.contains(p));
                }
            }
            assert forall|p: usize| p < i + 1 && nodes@[p as int].is_hidpp() implies #[trigger]
            positions@.contains(p) by {
                if p < i {
                    assert(before.contains(p));
                    let at = choose|at: int| 0 <= at < before.len() && before[at] == p;
                    assert(positions@[at] == p);
                }
            }
        }
    }
    assert forall|i: usize, row: int|
        #![trigger positions@.contains(i), HIDPP_LONG_COLLECTIONS@[row]]
        0 <= row < 3 && i < nodes@.len() && nodes@[i as int].vendor_id == 0x046d
            && nodes@[i as int].usage_page == HIDPP_LONG_COLLECTIONS@[row].0
            && nodes@[i as int].usage_id == HIDPP_LONG_COLLECTIONS@[row].1 && (
        nodes@[i as int].sysfs_path is None || !is_receiver_child(
            nodes@[i as int].sysfs_path->0@,
        )) implies positions@.contains(i) by {
        listed_collections_are_hidpp_nodes(nodes@[i as int], row);
    }
    positions
}

/// The vendor and product of a directly attached device. Only such a device has
/// a node of its own to write to: routes through a receiver have none.
pub fn direct_target(route: &DeviceRoute) -> (target: Option<(u16, u16)>)
    ensures
        target == match *route {
            DeviceRoute::Direct { vendor_id, product_id } => Some((vendor_id, product_id)),
            _ => None,
        },
        target == target_of(*route),
{
    match route {
        DeviceRoute::Direct { vendor_id, product_id } => Some((*vendor_id, *product_id)),
        _ => None,
    }
}

/// The position of the first node of the given vendor and product.
pub fn find_target(candidates: &[HidNode], vendor_id: u16, product_id: u16) -> (position: Option<
    usize,
>)
    ensures
        match position {
            Some(at) => {
                &&& at < candidates@.len()
                &&& candidates@[at as int].vendor_id == vendor_id
                &&& candidates@[at as int].product_id == product_id
                &&& forall|i: int|
                    0 <= i < at ==> (#[trigger] candidates@[i]).vendor_id != vendor_id
                        || candidates@[i].product_id != product_id
            },
            None => forall|i: int|
                0 <= i < candidates@.len() ==> (#[trigger] candidates@[i]).vendor_id != vendor_id
                    || candidates@[i].product_id != product_id,
        },
{
    for i in 0..candidates.len()
        invariant
            forall|j: int|
                0 <= j < i ==> (#[trigger] candidates@[j]).vendor_id != vendor_id
                    || candidates@[j].product_id != product_id,
    {
        if candidates[i].vendor_id == vendor_id && candidates[i].product_id == product_id {
            return Some(i);
        }
    }
    None
}

/// A Logitech node of any collection in the table is a HID++ node, unless it is the
/// child of a receiver, and is opened with short reports unless its row says that
/// there are none.
pub proof fn listed_collections_are_hidpp_nodes(node: HidNode, row: int)
    requires
        0 <= row < 3,
        node.vendor_id == 0x046d,
        node.usage_page == HIDPP_LONG_COLLECTIONS@[row].0,
        node.usage_id == HIDPP_LONG_COLLECTIONS@[row].1,
    ensures
        node.is_hidpp() <==> node.sysfs_path is None || !is_receiver_child(node.sysfs_path->0@),
        lacks_short_reports(node.usage_page, node.usage_id) <==> HIDPP_LONG_COLLECTIONS@[row].2,
{
    assert(HIDPP_LONG_COLLECTIONS@[0] == (0xff00u16, 0x0002u16, false));
    assert(HIDPP_LONG_COLLECTIONS@[1] == (0xff43u16, 0x0202u16, true));
    assert(HIDPP_LONG_COLLECTIONS@[2] == (0xff43u16, 0x0602u16, false));
}

/// A HID++ node is a Logitech node of one of the collections in the table, and not
/// the child of a receiver: nothing else is.
pub proof fn hidpp_nodes_are_listed(node: HidNode)
    requires
        node.is_hidpp(),
    ensures
        node.vendor_id == 0x046d,
        exists|row: int|
            0 <= row < 3 && (#[trigger] HIDPP_LONG_COLLECTIONS@[row]).0 == node.usage_page
                && HIDPP_LONG_COLLECTIONS@[row].1 == node.usage_id,
        node.sysfs_path is Some ==> !is_receiver_child(node.sysfs_path->0@),
{
    assert(HIDPP_LONG_COLLECTIONS@[0] == (0xff00u16, 0x0002u16, false));
    assert(HIDPP_LONG_COLLECTIONS@[1] == (0xff43u16, 0x0202u16, true));
    assert(HIDPP_LONG_COLLECTIONS@[2] == (0xff43u16, 0x0602u16, false));
}

/// The HID++ collections: usage 2 of page FF00, and usages 202 and 602 of page
/// FF43, all hexadecimal. Only usage 202 lacks short reports.
pub proof fn collections_are_three_usages(usage_page: u16, usage_id: u16)
    ensures
        usage_page == 0xff00 ==> (has_long_reports(usage_page, usage_id) <==> usage_id == 2),
        usage_page == 0xff43 ==> (has_long_reports(usage_page, usage_id) <==> usage_id == 0x202
            || usage_id == 0x602),
        usage_page != 0xff00 && usage_page != 0xff43 ==> !has_long_reports(usage_page, usage_id),
        lacks_short_reports(usage_page, usage_id) <==> usage_page == 0xff43 && usage_id == 0x202,
{
}

/// A node without a sysfs path is no child; one with a path is a child exactly if
/// the path is that of one.
pub proof fn nodes_are_children_by_their_path(node: HidNode)
    ensures
        node.sysfs_path is None ==> !node.is_child(),
        node.sysfs_path matches Some(path) ==> (node.is_child() <==> is_receiver_child(path@)),
{
}

/// The children of a receiver are the paths in which the name of a Bolt or a
/// Unifying receiver stands somewhere before a slash, and no others.
pub proof fn children_have_a_receiver_above_them(path: Seq<char>)
    ensures
        is_receiver_child(path) <==> exists|at: int, slash: int|
            #![trigger path[at], path[slash]]
            {
                &&& crate::text::occurs_at(
                    path,
                    seq![':', '0', '4', '6', 'D', ':', 'C', '5', '4', '8', '.'],
                    at,
                ) || crate::text::occurs_at(
                    path,
                    seq![':', '0', '4', '6', 'D', ':', 'C', '5', '2', 'B', '.'],
                    at,
                )
                &&& at + 11 <= slash < path.len()
                &&& path[slash] == '/'
            },
{
    let bolt = seq![':', '0', '4', '6', 'D', ':', 'C', '5', '4', '8', '.'];
    let unifying = seq![':', '0', '4', '6', 'D', ':', 'C', '5', '2', 'B', '.'];
    assert(product_marker(0xc548) =~= bolt);
    assert(product_marker(0xc52b) =~= unifying);
    assert(BOLT_PIDS@[0] == 0xc548);
    assert(UNIFYING_PIDS@[0] == 0xc52b);
    assert(is_receiver_pid(0xc548) && is_receiver_pid(0xc52b));
    if is_receiver_child(path) {
        let pid = choose|pid: u16| is_receiver_pid(pid) && #[trigger] is_below_product(path, pid);
        assert(pid == 0xc548 || pid == 0xc52b);
        let (at, slash) = choose|at: int, slash: int|
            #![trigger crate::text::occurs_at(path, product_marker(pid), at), path[slash]]
            {
                &&& crate::text::occurs_at(path, product_marker(pid), at)
                &&& at + product_marker(pid).len() <= slash < path.len()
                &&& path[slash] == '/'
            };
        let first = path[at];
        assert(path[slash] == '/');
    }
    if exists|at: int, slash: int|
        #![trigger path[at], path[slash]]
        {
            &&& crate::text::occurs_at(path, bolt, at) || crate::text::occurs_at(path, unifying, at)
            &&& at + 11 <= slash < path.len()
            &&& path[slash] == '/'
        } {
        let (at, slash) = choose|at: int, slash: int|
            #![trigger path[at], path[slash]]
            {
                &&& crate::text::occurs_at(path, bolt, at) || crate::text::occurs_at(
                    path,
                    unifying,
                    at,
                )
                &&& at + 11 <= slash < path.len()
                &&& path[slash] == '/'
            };
        if crate::text::occurs_at(path, bolt, at) {
            assert(crate::text::occurs_at(path, product_marker(0xc548), at));
            assert(is_below_product(path, 0xc548));
        } else {
            assert(crate::text::occurs_at(path, product_marker(0xc52b), at));
            assert(is_below_product(path, 0xc52b));
        }
    }
}

/// The vendor and product of the node that a route leads to directly.
pub open spec fn target_of(route: DeviceRoute) -> Option<(u16, u16)> {
    match route {
        DeviceRoute::Direct { vendor_id, product_id } => Some((vendor_id, product_id)),
        _ => None,
    }
}

/// Only a direct route has a node of its own, and the node determines the route.
pub proof fn only_direct_routes_have_a_target(route: DeviceRoute)
    ensures
        target_of(route) is Some <==> route is Direct,
        target_of(route) matches Some(target) ==> route == (DeviceRoute::Direct {
            vendor_id: target.0,
            product_id: target.1,
        }),
{
}

} // verus!
