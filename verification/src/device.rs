//! What is known about devices and the receivers they are paired to.

use vstd::prelude::*;

verus! {

/// Coarse charge level, as shown to the user.
#[derive(Clone, Copy, Debug, PartialEq, Eq, Hash, Structural)]
pub enum BatteryLevel {
    /// Nearly empty.
    Critical,
    /// Low.
    Low,
    /// Neither low nor full.
    Good,
    /// Full.
    Full,
    /// The device does not say.
    Unknown,
}

/// Charging state, as shown to the user.
#[derive(Clone, Copy, Debug, PartialEq, Eq, Hash, Structural)]
pub enum BatteryStatus {
    /// Running on battery power.
    Discharging,
    /// Charging.
    Charging,
    /// Charging below the optimal speed.
    ChargingSlow,
    /// Fully charged.
    Full,
    /// Charging failed.
    Error,
}

/// Battery state of a device.
#[derive(Clone, Copy, Debug, PartialEq, Eq, Hash, Structural)]
pub struct BatteryInfo {
    /// State of charge in percent, where the device is precise enough.
    pub percentage: Option<u8>,
    /// Coarse charge level.
    pub level: BatteryLevel,
    /// Charging state.
    pub status: BatteryStatus,
}

/// Marketing type of a device.
#[derive(Clone, Copy, Debug, PartialEq, Eq, Hash, Structural)]
pub enum DeviceKind {
    /// Not known.
    Unknown,
    /// A mouse.
    Mouse,
    /// A keyboard.
    Keyboard,
    /// Any other device type, by the code that the device reports.
    Other(u8),
}

/// Transports that a device can be reached over.
#[derive(Clone, Copy, Debug, PartialEq, Eq, Hash, Structural)]
pub struct DeviceTransports {
    /// USB.
    pub usb: bool,
    /// eQuad (Unifying and its relatives).
    pub equad: bool,
    /// Bluetooth Low Energy.
    pub btle: bool,
    /// Bluetooth classic.
    pub bluetooth: bool,
}

impl Default for DeviceTransports {
    fn default() -> (transports: Self)
        ensures
            transports == (DeviceTransports {
                usb: false,
                equad: false,
                btle: false,
                bluetooth: false,
            }),
    {
        DeviceTransports { usb: false, equad: false, btle: false, bluetooth: false }
    }
}

/// Identity of one physical unit of a device model.
#[derive(Debug, PartialEq, Eq)]
pub struct DeviceModelInfo {
    /// Number of firmware entities.
    pub entity_count: u8,
    /// Serial number, where the device has one and it could be read.
    pub serial_number: Option<String>,
    /// Unit id.
    pub unit_id: [u8; 4],
    /// Transports that the device supports.
    pub transports: DeviceTransports,
    /// Model id per transport.
    pub model_ids: [u16; 3],
    /// Variant of the model, such as its colour.
    pub extended_model_id: u8,
}

impl Clone for DeviceModelInfo {
    fn clone(&self) -> (copy: Self)
        ensures
            copy == *self,
    {
        DeviceModelInfo {
            entity_count: self.entity_count,
            serial_number: self.serial_number.clone(),
            unit_id: self.unit_id,
            transports: self.transports,
            model_ids: self.model_ids,
            extended_model_id: self.extended_model_id,
        }
    }
}

/// Configuration capabilities of a device.
#[derive(Clone, Copy, Debug, PartialEq, Eq, Hash, Structural)]
pub struct Capabilities {
    /// One bit per capability that the device's feature table shows.
    pub features: u32,
    /// The scroll direction of the wheel can be inverted.
    pub scroll_inversion: bool,
}

impl Default for Capabilities {
    fn default() -> (capabilities: Self)
        ensures
            capabilities == (Capabilities { features: 0, scroll_inversion: false }),
    {
        Capabilities { features: 0, scroll_inversion: false }
    }
}

/// One device paired to a receiver, or the one behind a direct connection.
#[derive(Debug, PartialEq, Eq)]
pub struct PairedDevice {
    /// Pairing slot.
    pub slot: u8,
    /// Name that the device was paired under.
    pub codename: Option<String>,
    /// Wireless product id.
    pub wpid: Option<u16>,
    /// Marketing type.
    pub kind: DeviceKind,
    /// Whether the device answers.
    pub online: bool,
    /// Battery state, of a device that answers.
    pub battery: Option<BatteryInfo>,
    /// Identity of the unit.
    pub model_info: Option<DeviceModelInfo>,
    /// Configuration capabilities.
    pub capabilities: Option<Capabilities>,
}

/// A receiver, or the HID node of a directly connected device.
#[derive(Debug, PartialEq, Eq)]
pub struct ReceiverInfo {
    /// Product name.
    pub name: String,
    /// USB vendor id.
    pub vendor_id: u16,
    /// USB product id.
    pub product_id: u16,
    /// Serial number of the receiver.
    pub unique_id: Option<String>,
}

/// A receiver with the devices paired to it.
#[derive(Debug, PartialEq, Eq)]
pub struct DeviceInventory {
    /// The receiver.
    pub receiver: ReceiverInfo,
    /// Devices in slot order.
    pub paired: Vec<PairedDevice>,
}

/// The characters of an optional string.
pub open spec fn text_of(text: Option<String>) -> Option<Seq<char>> {
    match text {
        Some(t) => Some(t@),
        None => None,
    }
}

/// Two optional strings read the same.
fn same_text(a: &Option<String>, b: &Option<String>) -> (same: bool)
    ensures
        same == (text_of(*a) == text_of(*b)),
{
    match (a, b) {
        (Some(x), Some(y)) => *x == *y,
        (None, None) => true,
        _ => false,
    }
}

/// Two unit ids are byte for byte the same.
fn same_unit(a: &[u8; 4], b: &[u8; 4]) -> (same: bool)
    ensures
        same == (a@ == b@),
{
    let same = a[0] == b[0] && a[1] == b[1] && a[2] == b[2] && a[3] == b[3];
    proof {
        if same {
            assert(a@ =~= b@);
        }
    }
    same
}

/// Two lists of model ids are the same.
fn same_models(a: &[u16; 3], b: &[u16; 3]) -> (same: bool)
    ensures
        same == (a@ == b@),
{
    let same = a[0] == b[0] && a[1] == b[1] && a[2] == b[2];
    proof {
        if same {
            assert(a@ =~= b@);
        }
    }
    same
}

impl DeviceModelInfo {
    /// `self` and `other` agree in every field, strings compared by their text.
    pub open spec fn agrees(self, other: DeviceModelInfo) -> bool {
        &&& self.entity_count == other.entity_count
        &&& text_of(self.serial_number) == text_of(other.serial_number)
        &&& self.unit_id@ == other.unit_id@
        &&& self.transports == other.transports
        &&& self.model_ids@ == other.model_ids@
        &&& self.extended_model_id == other.extended_model_id
    }

    /// Whether two identities are the same.
    pub fn same(&self, other: &DeviceModelInfo) -> (same: bool)
        ensures
            same == self.agrees(*other),
    {
        self.entity_count == other.entity_count && same_text(
            &self.serial_number,
            &other.serial_number,
        ) && same_unit(&self.unit_id, &other.unit_id) && self.transports == other.transports
            && same_models(&self.model_ids, &other.model_ids) && self.extended_model_id
            == other.extended_model_id
    }
}

/// Both identities are missing, or both are known and agree.
pub open spec fn models_agree(a: Option<DeviceModelInfo>, b: Option<DeviceModelInfo>) -> bool {
    match (a, b) {
        (Some(x), Some(y)) => x.agrees(y),
        (None, None) => true,
        _ => false,
    }
}

impl PairedDevice {
    /// `self` and `other` agree in every field, strings compared by their text.
    pub open spec fn agrees(self, other: PairedDevice) -> bool {
        &&& self.slot == other.slot
        &&& text_of(self.codename) == text_of(other.codename)
        &&& self.wpid == other.wpid
        &&& self.kind == other.kind
        &&& self.online == other.online
        &&& self.battery == other.battery
        &&& models_agree(self.model_info, other.model_info)
        &&& self.capabilities == other.capabilities
    }

    /// Whether two devices are reported in the same state.
    pub fn same(&self, other: &PairedDevice) -> (same: bool)
        ensures
            same == self.agrees(*other),
    {
        let same_battery = match (&self.battery, &other.battery) {
            (Some(x), Some(y)) => *x == *y,
            (None, None) => true,
            _ => false,
        };
        let same_model = match (&self.model_info, &other.model_info) {
            (Some(x), Some(y)) => x.same(y),
            (None, None) => true,
            _ => false,
        };
        let same_capabilities = match (&self.capabilities, &other.capabilities) {
            (Some(x), Some(y)) => *x == *y,
            (None, None) => true,
            _ => false,
        };
        let same_wpid = match (&self.wpid, &other.wpid) {
            (Some(x), Some(y)) => *x == *y,
            (None, None) => true,
            _ => false,
        };
        self.slot == other.slot && same_text(&self.codename, &other.codename) && same_wpid
            && self.kind == other.kind && self.online == other.online && same_battery && same_model
            && same_capabilities
    }
}

impl ReceiverInfo {
    /// `self` and `other` agree in every field, strings compared by their text.
    pub open spec fn agrees(self, other: ReceiverInfo) -> bool {
        &&& self.name@ == other.name@
        &&& self.vendor_id == other.vendor_id
        &&& self.product_id == other.product_id
        &&& text_of(self.unique_id) == text_of(other.unique_id)
    }

    /// Whether two receivers are the same.
    pub fn same(&self, other: &ReceiverInfo) -> (same: bool)
        ensures
            same == self.agrees(*other),
    {
        self.name == other.name && self.vendor_id == other.vendor_id && self.product_id
            == other.product_id && same_text(&self.unique_id, &other.unique_id)
    }
}

impl DeviceInventory {
    /// The same receiver with the same devices in the same order.
    pub open spec fn agrees(self, other: DeviceInventory) -> bool {
        &&& self.receiver.agrees(other.receiver)
        &&& self.paired@.len() == other.paired@.len()
        &&& forall|i: int|
            0 <= i < self.paired@.len() ==> (#[trigger] self.paired@[i]).agrees(other.paired@[i])
    }

    /// Whether two receivers are reported in the same state.
    pub fn same(&self, other: &DeviceInventory) -> (same: bool)
        ensures
            same == self.agrees(*other),
    {
        if !self.receiver.same(&other.receiver) || self.paired.len() != other.paired.len() {
            return false;
        }
        for i in 0..self.paired.len()
            invariant
                self.paired@.len() == other.paired@.len(),
                forall|j: int|
                    0 <= j < i ==> (#[trigger] self.paired@[j]).agrees(other.paired@[j]),
        {
            if !self.paired[i].same(&other.paired[i]) {
                return false;
            }
        }
        true
    }
}

/// The same receivers in the same state and order.
pub open spec fn inventories_agree(a: Seq<DeviceInventory>, b: Seq<DeviceInventory>) -> bool {
    &&& a.len() == b.len()
    &&& forall|i: int| 0 <= i < a.len() ==> (#[trigger] a[i]).agrees(b[i])
}

/// Whether two enumerations found the same receivers in the same state.
pub fn same_inventories(a: &[DeviceInventory], b: &[DeviceInventory]) -> (same: bool)
    ensures
        same == inventories_agree(a@, b@),
{
    if a.len() != b.len() {
        return false;
    }
    for i in 0..a.len()
        invariant
            a@.len() == b@.len(),
            forall|j: int| 0 <= j < i ==> (#[trigger] a@[j]).agrees(b@[j]),
    {
        if !a[i].same(&b[i]) {
            return false;
        }
    }
    true
}

/// Two identities agree exactly if every field does: one that differs anywhere is
/// another.
pub proof fn identities_agree_field_by_field(a: DeviceModelInfo, b: DeviceModelInfo)
    ensures
        a.agrees(a),
        a.agrees(b) ==> b.agrees(a),
        a.entity_count != b.entity_count ==> !a.agrees(b),
        a.serial_number is Some != b.serial_number is Some ==> !a.agrees(b),
        a.serial_number is Some && b.serial_number is Some && a.serial_number->0@
            != b.serial_number->0@ ==> !a.agrees(b),
        a.unit_id@ != b.unit_id@ ==> !a.agrees(b),
        a.transports != b.transports ==> !a.agrees(b),
        a.model_ids@ != b.model_ids@ ==> !a.agrees(b),
        a.extended_model_id != b.extended_model_id ==> !a.agrees(b),
{
}

/// Two devices are in the same state exactly if every field agrees: one that
/// differs anywhere is in another.
pub proof fn devices_agree_field_by_field(a: PairedDevice, b: PairedDevice)
    ensures
        a.agrees(a),
        a.agrees(b) ==> b.agrees(a),
        a.slot != b.slot ==> !a.agrees(b),
        a.codename is Some != b.codename is Some ==> !a.agrees(b),
        a.codename is Some && b.codename is Some && a.codename->0@ != b.codename->0@ ==> !a.agrees(
            b,
        ),
        a.wpid != b.wpid ==> !a.agrees(b),
        a.kind != b.kind ==> !a.agrees(b),
        a.online != b.online ==> !a.agrees(b),
        a.battery != b.battery ==> !a.agrees(b),
        a.model_info is Some != b.model_info is Some ==> !a.agrees(b),
        a.model_info is Some && b.model_info is Some && !a.model_info->0.agrees(b.model_info->0)
            ==> !a.agrees(b),
        a.capabilities != b.capabilities ==> !a.agrees(b),
        a.codename == b.codename && a.model_info == b.model_info && a.slot == b.slot && a.wpid
            == b.wpid && a.kind == b.kind && a.online == b.online && a.battery == b.battery
            && a.capabilities == b.capabilities ==> a.agrees(b),
{
}

/// Two receivers agree exactly if every field does.
pub proof fn receivers_agree_field_by_field(a: ReceiverInfo, b: ReceiverInfo)
    ensures
        a.agrees(a),
        a.agrees(b) ==> b.agrees(a),
        a.name@ != b.name@ ==> !a.agrees(b),
        a.vendor_id != b.vendor_id ==> !a.agrees(b),
        a.product_id != b.product_id ==> !a.agrees(b),
        a.unique_id is Some != b.unique_id is Some ==> !a.agrees(b),
        a.unique_id is Some && b.unique_id is Some && a.unique_id->0@ != b.unique_id->0@
            ==> !a.agrees(b),
{
}

/// Two enumerations agree exactly if they found the same receivers, each with the
/// same devices in the same order: one that lacks a receiver or a device, or has
/// one in another state, does not.
pub proof fn enumerations_agree_device_by_device(
    a: Seq<DeviceInventory>,
    b: Seq<DeviceInventory>,
    i: int,
    j: int,
)
    ensures
        inventories_agree(a, a),
        inventories_agree(a, b) ==> inventories_agree(b, a),
        a.len() != b.len() ==> !inventories_agree(a, b),
        0 <= i < a.len() && i < b.len() && !a[i].receiver.agrees(b[i].receiver)
            ==> !inventories_agree(a, b),
        0 <= i < a.len() && i < b.len() && a[i].paired@.len() != b[i].paired@.len()
            ==> !inventories_agree(a, b),
        0 <= i < a.len() && i < b.len() && 0 <= j < a[i].paired@.len() && j < b[i].paired@.len()
            && !a[i].paired@[j].agrees(b[i].paired@[j]) ==> !inventories_agree(a, b),
{
    if inventories_agree(a, b) {
        assert forall|k: int| 0 <= k < b.len() implies (#[trigger] b[k]).agrees(a[k]) by {
            assert(a[k].agrees(b[k]));
            assert forall|m: int| 0 <= m < b[k].paired@.len() implies (
            #[trigger] b[k].paired@[m]).agrees(a[k].paired@[m]) by {
                assert(a[k].paired@[m].agrees(b[k].paired@[m]));
            }
        }
        if 0 <= i < a.len() && i < b.len() {
            assert(a[i].agrees(b[i]));
        }
    }
}

} // verus!
