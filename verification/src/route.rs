//! How a device is reached.

use vstd::prelude::*;

verus! {

/// Product ids of Logi Bolt receivers.
pub const BOLT_PIDS: [u16; 1] = [0xc548];

/// Product ids of Unifying receivers.
pub const UNIFYING_PIDS: [u16; 1] = [0xc52b];

/// The path to one device.
#[derive(Debug, PartialEq, Eq)]
pub enum DeviceRoute {
    /// Through a Logi Bolt receiver.
    Bolt {
        /// Serial number of the receiver.
        receiver_uid: String,
        /// Pairing slot.
        slot: u8,
    },
    /// Through a Unifying receiver.
    Unifying {
        /// Serial number of the receiver.
        receiver_uid: String,
        /// Pairing slot.
        slot: u8,
    },
    /// Directly attached.
    Direct {
        /// USB vendor id.
        vendor_id: u16,
        /// USB product id.
        product_id: u16,
    },
}

impl Clone for DeviceRoute {
    fn clone(&self) -> (copy: Self)
        ensures
            copy == *self,
    {
        match self {
            DeviceRoute::Bolt { receiver_uid, slot } => DeviceRoute::Bolt {
                receiver_uid: receiver_uid.clone(),
                slot: *slot,
            },
            DeviceRoute::Unifying { receiver_uid, slot } => DeviceRoute::Unifying {
                receiver_uid: receiver_uid.clone(),
                slot: *slot,
            },
            DeviceRoute::Direct { vendor_id, product_id } => DeviceRoute::Direct {
                vendor_id: *vendor_id,
                product_id: *product_id,
            },
        }
    }
}

} // verus!
