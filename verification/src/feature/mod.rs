//! HID++ 2.0 device features.

use vstd::prelude::*;

pub mod battery_status;
pub mod unified_battery;

verus! {

/// Why a HID++ 2.0 request gave no usable answer.
#[derive(Clone, Copy, Debug, PartialEq, Eq, Hash, Structural)]
pub enum Hidpp20Error {
    /// The channel failed before a reply arrived.
    Channel,
    /// The device answered with this protocol error code.
    Feature(u8),
    /// The device answered, but with a payload this host does not understand.
    UnsupportedResponse,
}

/// One request to a feature of a device.
#[derive(Clone, Copy, Debug, PartialEq, Eq)]
pub struct FeatureCall {
    /// Device the request goes to: a receiver slot, or the direct device index.
    pub device_index: u8,
    /// Runtime index of the feature in the device's feature table.
    pub feature_index: u8,
    /// Function of the feature.
    pub function: u8,
    /// Function arguments.
    pub arguments: [u8; 3],
}

/// One HID++ 2.0 message as it arrived from a device, its payload extended with
/// zeros to the length of a long report.
#[derive(Clone, Copy, Debug, PartialEq, Eq)]
pub struct FeatureMessage {
    /// Device that sent the message.
    pub device_index: u8,
    /// Runtime index of the feature that the message belongs to.
    pub feature_index: u8,
    /// Function (of a reply) or event number (of a broadcast).
    pub function: u8,
    /// Message payload.
    pub payload: [u8; 16],
}

/// Whether `message` is a broadcast of the feature at `feature_index` of the
/// device at `device_index`: `matched` messages answer a pending request.
pub open spec fn is_event(
    message: FeatureMessage,
    matched: bool,
    device_index: u8,
    feature_index: u8,
) -> bool {
    !matched && message.device_index == device_index && message.feature_index == feature_index
}

/// The event number and payload of a broadcast of one feature of one device;
/// `None` for a reply to a request and for messages of other features or devices.
pub fn event_payload(
    message: &FeatureMessage,
    matched: bool,
    device_index: u8,
    feature_index: u8,
) -> (event: Option<(u8, [u8; 16])>)
    ensures
        event == if is_event(*message, matched, device_index, feature_index) {
            Some((message.function, message.payload))
        } else {
            None
        },
{
    if matched || message.device_index != device_index || message.feature_index != feature_index {
        None
    } else {
        Some((message.function, message.payload))
    }
}

/// A broadcast is heard by the feature that sent it and by no other, and a reply to
/// a request by none.
pub proof fn broadcasts_are_heard_by_their_feature(
    message: FeatureMessage,
    device_index: u8,
    feature_index: u8,
)
    ensures
        is_event(message, false, message.device_index, message.feature_index),
        is_event(message, false, device_index, feature_index) ==> device_index
            == message.device_index && feature_index == message.feature_index,
        !is_event(message, true, device_index, feature_index),
{
}

} // verus!
