//! What a full probe reads from a device, and in which order.

use vstd::prelude::*;

use super::battery::{
    battery_feature_indices, BatteryCall, BatteryFeatureIndices, BatteryHandle, BatteryNext,
    BatteryProbe, BatteryReply, BatteryStep,
};
use crate::device::{BatteryInfo, Capabilities, DeviceKind, DeviceModelInfo, DeviceTransports};
use crate::feature::Hidpp20Error;

verus! {

/// Everything a single device probe yields. Any field is `None` when the device
/// doesn't expose that feature or the read failed.
#[derive(Debug, PartialEq, Eq)]
pub struct ProbedFeatures {
    /// Battery state.
    pub battery: Option<BatteryInfo>,
    /// Identity of the unit.
    pub model_info: Option<DeviceModelInfo>,
    /// Marketing type from HID++ `0x0005` — an identity hint only.
    pub kind: Option<DeviceKind>,
    /// Configuration capabilities derived from the device's feature table.
    pub capabilities: Option<Capabilities>,
    /// A read of the unit's identity failed, so that `model_info` may say less
    /// than the device could.
    pub identity_incomplete: bool,
}

/// A probe that found nothing.
pub open spec fn nothing_probed() -> ProbedFeatures {
    ProbedFeatures {
        battery: None,
        model_info: None,
        kind: None,
        capabilities: None,
        identity_incomplete: false,
    }
}

impl Default for ProbedFeatures {
    fn default() -> (features: Self)
        ensures
            features == nothing_probed(),
    {
        ProbedFeatures {
            battery: None,
            model_info: None,
            kind: None,
            capabilities: None,
            identity_incomplete: false,
        }
    }
}

impl Clone for ProbedFeatures {
    fn clone(&self) -> (copy: Self)
        ensures
            copy == *self,
    {
        ProbedFeatures {
            battery: self.battery,
            model_info: self.model_info.clone(),
            kind: self.kind,
            capabilities: self.capabilities,
            identity_incomplete: self.identity_incomplete,
        }
    }
}

/// Which of the features that a probe reads a device has, besides its battery.
#[derive(Clone, Copy, Debug, PartialEq, Eq, Structural)]
pub struct FeaturePresence {
    /// `HiResWheel`.
    pub hires_wheel: bool,
    /// `DeviceInformation`.
    pub device_information: bool,
    /// `DeviceTypeAndName`.
    pub device_type: bool,
}

/// The feature-ID table of a device, without the root feature.
#[derive(Debug, PartialEq, Eq)]
pub struct FeatureTable {
    /// Feature IDs in the order of their runtime indices, from 1 on.
    pub ids: Vec<u16>,
    /// The capabilities that the IDs show.
    pub capabilities: Capabilities,
}

/// What came of enumerating the features of a device.
#[derive(Debug, PartialEq, Eq)]
pub struct Enumeration {
    /// The table, of a device that has one.
    pub table: Option<FeatureTable>,
    /// Features that can be used now.
    pub present: FeaturePresence,
}

/// What a device says about itself.
#[derive(Clone, Copy, Debug, PartialEq, Eq)]
pub struct DeviceInformation {
    /// Number of firmware entities.
    pub entity_count: u8,
    /// Unit id.
    pub unit_id: [u8; 4],
    /// Transports that the device supports.
    pub transports: DeviceTransports,
    /// Model id per transport.
    pub model_ids: [u16; 3],
    /// Variant of the model.
    pub extended_model_id: u8,
    /// Whether the device has a serial number to read.
    pub has_serial_number: bool,
}

/// The identity in `information`, with the serial number `serial_number`.
pub open spec fn model_of(
    information: DeviceInformation,
    serial_number: Option<String>,
) -> DeviceModelInfo {
    DeviceModelInfo {
        entity_count: information.entity_count,
        serial_number,
        unit_id: information.unit_id,
        transports: information.transports,
        model_ids: information.model_ids,
        extended_model_id: information.extended_model_id,
    }
}

/// One request of a full probe.
#[derive(Clone, Copy, Debug, PartialEq, Eq, Structural)]
pub enum ProbeCall {
    /// Open a HID++ session with the device.
    OpenDevice,
    /// Enumerate its features.
    EnumerateFeatures,
    /// Read the capabilities of the wheel.
    ReadWheel,
    /// Read a battery feature.
    ReadBattery(BatteryCall),
    /// Read the device information.
    ReadInformation,
    /// Read the serial number.
    ReadSerialNumber,
    /// Read the marketing type.
    ReadDeviceType,
}

/// What came of a [`ProbeCall`].
#[derive(Debug, PartialEq, Eq)]
pub enum ProbeReply {
    /// Whether the session could be opened.
    Opened(Result<(), Hidpp20Error>),
    /// The features.
    Enumerated(Result<Enumeration, Hidpp20Error>),
    /// Whether the wheel can be inverted.
    Wheel(Result<bool, Hidpp20Error>),
    /// The reply of a battery feature.
    Battery(BatteryReply),
    /// The device information.
    Information(Result<DeviceInformation, Hidpp20Error>),
    /// The serial number, unless it is blank.
    SerialNumber(Result<Option<String>, Hidpp20Error>),
    /// The marketing type.
    DeviceType(Result<DeviceKind, Hidpp20Error>),
}

/// How far a full probe has come.
#[derive(Clone, Copy, Debug, PartialEq, Eq, Structural)]
pub enum ProbeStage {
    /// The session is being opened.
    Opening,
    /// The features are being enumerated.
    Enumerating,
    /// The wheel is being read.
    Wheel,
    /// A battery feature is being read.
    Battery(BatteryProbe),
    /// The device information is being read.
    Information,
    /// The serial number is being read.
    SerialNumber,
    /// The marketing type is being read.
    DeviceType,
}

/// Reads everything of interest from one device: battery, device information,
/// marketing type, and the feature table that drives [`Capabilities`].
///
/// Device sessions are expensive, so every read goes through one session and one
/// enumeration; the feature table is what the enumeration already returns.
///
/// Only online, responsive devices are probed.
#[derive(Debug, PartialEq, Eq)]
pub struct FeatureProbe {
    /// Slot of the device.
    pub slot: u8,
    /// How far the probe has come.
    pub stage: ProbeStage,
    /// Features of the device.
    pub present: FeaturePresence,
    /// Battery features of the device.
    pub indices: BatteryFeatureIndices,
    /// What was read so far.
    pub found: ProbedFeatures,
    /// The battery feature to read from now on.
    pub handle: Option<BatteryHandle>,
}

/// What a full probe wants next.
#[derive(Debug, PartialEq, Eq)]
pub enum ProbeStep {
    /// Perform the request, and hand its reply to the probe.
    Call {
        /// The probe.
        probe: FeatureProbe,
        /// A battery feature to attach to now.
        attach: Option<BatteryHandle>,
        /// The request.
        call: ProbeCall,
    },
    /// The probe is over.
    Finish {
        /// What was read.
        features: ProbedFeatures,
        /// A battery feature to attach to now.
        attach: Option<BatteryHandle>,
        /// The battery feature to read from now on.
        handle: Option<BatteryHandle>,
    },
}

impl FeatureProbe {
    /// The request whose reply the probe waits for.
    pub open spec fn pending(self) -> Option<ProbeCall> {
        match self.stage {
            ProbeStage::Opening => Some(ProbeCall::OpenDevice),
            ProbeStage::Enumerating => Some(ProbeCall::EnumerateFeatures),
            ProbeStage::Wheel => Some(ProbeCall::ReadWheel),
            ProbeStage::Battery(battery) => match battery.pending() {
                Some(call) => Some(ProbeCall::ReadBattery(call)),
                None => None,
            },
            ProbeStage::Information => Some(ProbeCall::ReadInformation),
            ProbeStage::SerialNumber => Some(ProbeCall::ReadSerialNumber),
            ProbeStage::DeviceType => Some(ProbeCall::ReadDeviceType),
        }
    }

    /// `reply` answers the pending request.
    pub open spec fn awaits(self, reply: ProbeReply) -> bool {
        match self.stage {
            ProbeStage::Opening => reply is Opened,
            ProbeStage::Enumerating => reply is Enumerated,
            ProbeStage::Wheel => reply is Wheel,
            ProbeStage::Battery(battery) => reply matches ProbeReply::Battery(r) && battery.awaits(
                r,
            ),
            ProbeStage::Information => reply is Information,
            ProbeStage::SerialNumber => reply is SerialNumber,
            ProbeStage::DeviceType => reply is DeviceType,
        }
    }

    /// How many requests may still follow, the pending one included.
    pub open spec fn requests_left(self) -> nat {
        match self.stage {
            ProbeStage::Opening => 10,
            ProbeStage::Enumerating => 9,
            ProbeStage::Wheel => 8,
            ProbeStage::Battery(battery) => 3 + battery.reads_left(),
            ProbeStage::Information => 3,
            ProbeStage::SerialNumber => 2,
            ProbeStage::DeviceType => 1,
        }
    }

    /// A new probe.
    pub open spec fn new_probe(slot: u8) -> FeatureProbe {
        FeatureProbe {
            slot,
            stage: ProbeStage::Opening,
            present: FeaturePresence {
                hires_wheel: false,
                device_information: false,
                device_type: false,
            },
            indices: BatteryFeatureIndices { unified: None, status: None },
            found: nothing_probed(),
            handle: None,
        }
    }

    /// The step that asks `call` in `stage`.
    pub open spec fn asking(
        self,
        stage: ProbeStage,
        attach: Option<BatteryHandle>,
        call: ProbeCall,
    ) -> ProbeStep {
        ProbeStep::Call { probe: FeatureProbe { stage, ..self }, attach, call }
    }

    /// The step once the identity is done with.
    pub open spec fn at_device_type(self, attach: Option<BatteryHandle>) -> ProbeStep {
        if self.present.device_type {
            self.asking(ProbeStage::DeviceType, attach, ProbeCall::ReadDeviceType)
        } else {
            ProbeStep::Finish { features: self.found, attach, handle: self.handle }
        }
    }

    /// The step once the battery is done with.
    pub open spec fn at_information(self, attach: Option<BatteryHandle>) -> ProbeStep {
        if self.present.device_information {
            self.asking(ProbeStage::Information, attach, ProbeCall::ReadInformation)
        } else {
            self.at_device_type(attach)
        }
    }

    /// The step after a step of the battery probe.
    pub open spec fn after_battery(self, battery: (BatteryProbe, BatteryStep)) -> ProbeStep {
        match battery.1.next {
            BatteryNext::Call(call) => self.asking(
                ProbeStage::Battery(battery.0),
                battery.1.attach,
                ProbeCall::ReadBattery(call),
            ),
            BatteryNext::Finish { battery: reading, handle } => FeatureProbe {
                found: ProbedFeatures { battery: reading, ..self.found },
                handle,
                ..self
            }.at_information(battery.1.attach),
        }
    }

    /// The step once the feature table is done with.
    pub open spec fn at_battery(self) -> ProbeStep {
        self.after_battery(BatteryProbe::started(self.slot, self.indices))
    }

    /// What the probe knows once the features are enumerated.
    pub open spec fn with_features(self, enumeration: Enumeration) -> FeatureProbe {
        FeatureProbe {
            present: enumeration.present,
            indices: match enumeration.table {
                Some(table) => super::battery::indices_in(table.ids@),
                None => BatteryFeatureIndices { unified: None, status: None },
            },
            found: ProbedFeatures {
                capabilities: match enumeration.table {
                    Some(table) => Some(table.capabilities),
                    None => None,
                },
                ..self.found
            },
            ..self
        }
    }

    /// The step after the reply to the pending request.
    pub open spec fn advanced(self, reply: ProbeReply) -> ProbeStep {
        match (self.stage, reply) {
            (ProbeStage::Opening, ProbeReply::Opened(Ok(_))) => self.asking(
                ProbeStage::Enumerating,
                None,
                ProbeCall::EnumerateFeatures,
            ),
            (ProbeStage::Enumerating, ProbeReply::Enumerated(Ok(enumeration))) => {
                let probe = self.with_features(enumeration);
                if enumeration.table is Some && enumeration.present.hires_wheel {
                    probe.asking(ProbeStage::Wheel, None, ProbeCall::ReadWheel)
                } else {
                    probe.at_battery()
                }
            },
            (ProbeStage::Wheel, ProbeReply::Wheel(inversion)) => FeatureProbe {
                found: ProbedFeatures {
                    capabilities: with_inversion(self.found.capabilities, inversion),
                    ..self.found
                },
                ..self
            }.at_battery(),
            (ProbeStage::Battery(battery), ProbeReply::Battery(battery_reply)) => self.after_battery(
                battery.advanced(battery_reply),
            ),
            (ProbeStage::Information, ProbeReply::Information(Ok(information))) => {
                let probe = FeatureProbe {
                    found: ProbedFeatures {
                        model_info: Some(model_of(information, None)),
                        ..self.found
                    },
                    ..self
                };
                if information.has_serial_number {
                    probe.asking(ProbeStage::SerialNumber, None, ProbeCall::ReadSerialNumber)
                } else {
                    probe.at_device_type(None)
                }
            },
            (ProbeStage::Information, ProbeReply::Information(Err(_))) => FeatureProbe {
                found: ProbedFeatures { identity_incomplete: true, ..self.found },
                ..self
            }.at_device_type(None),
            (ProbeStage::SerialNumber, ProbeReply::SerialNumber(Ok(serial))) => FeatureProbe {
                found: ProbedFeatures {
                    model_info: match self.found.model_info {
                        Some(model) => Some(DeviceModelInfo { serial_number: serial, ..model }),
                        None => None,
                    },
                    ..self.found
                },
                ..self
            }.at_device_type(None),
            (ProbeStage::SerialNumber, ProbeReply::SerialNumber(Err(_))) => FeatureProbe {
                found: ProbedFeatures { identity_incomplete: true, ..self.found },
                ..self
            }.at_device_type(None),
            (ProbeStage::DeviceType, ProbeReply::DeviceType(kind)) => ProbeStep::Finish {
                features: ProbedFeatures {
                    kind: match kind {
                        Ok(kind) => Some(kind),
                        Err(_) => None,
                    },
                    ..self.found
                },
                attach: None,
                handle: self.handle,
            },
            _ => ProbeStep::Finish { features: nothing_probed(), attach: None, handle: None },
        }
    }

    /// Starts to probe the device in `slot`. The first request is to open a
    /// session with it.
    pub fn start(slot: u8) -> (step: ProbeStep)
        ensures
            step == FeatureProbe::new_probe(slot).asking(
                ProbeStage::Opening,
                None,
                ProbeCall::OpenDevice,
            ),
    {
        ProbeStep::Call {
            probe: FeatureProbe {
                slot,
                stage: ProbeStage::Opening,
                present: FeaturePresence {
                    hires_wheel: false,
                    device_information: false,
                    device_type: false,
                },
                indices: BatteryFeatureIndices::default(),
                found: ProbedFeatures::default(),
                handle: None,
            },
            attach: None,
            call: ProbeCall::OpenDevice,
        }
    }

    fn ask(
        self,
        stage: ProbeStage,
        attach: Option<BatteryHandle>,
        call: ProbeCall,
    ) -> (step: ProbeStep)
        ensures
            step == self.asking(stage, attach, call),
    {
        let mut probe = self;
        probe.stage = stage;
        ProbeStep::Call { probe, attach, call }
    }

    fn enter_device_type(self, attach: Option<BatteryHandle>) -> (step: ProbeStep)
        ensures
            step == self.at_device_type(attach),
    {
        if self.present.device_type {
            self.ask(ProbeStage::DeviceType, attach, ProbeCall::ReadDeviceType)
        } else {
            ProbeStep::Finish { features: self.found, attach, handle: self.handle }
        }
    }

    fn enter_information(self, attach: Option<BatteryHandle>) -> (step: ProbeStep)
        ensures
            step == self.at_information(attach),
    {
        if self.present.device_information {
            self.ask(ProbeStage::Information, attach, ProbeCall::ReadInformation)
        } else {
            self.enter_device_type(attach)
        }
    }

    fn continue_battery(self, battery: BatteryProbe, step: BatteryStep) -> (next: ProbeStep)
        ensures
            next == self.after_battery((battery, step)),
    {
        match step.next {
            BatteryNext::Call(call) => self.ask(
                ProbeStage::Battery(battery),
                step.attach,
                ProbeCall::ReadBattery(call),
            ),
            BatteryNext::Finish { battery: reading, handle } => {
                let mut probe = self;
                probe.found.battery = reading;
                probe.handle = handle;
                probe.enter_information(step.attach)
            },
        }
    }

    fn enter_battery(self) -> (step: ProbeStep)
        ensures
            step == self.at_battery(),
    {
        let (battery, step) = BatteryProbe::start(self.slot, self.indices);
        self.continue_battery(battery, step)
    }

    /// Takes the reply to the pending request, and says what to do next.
    pub fn advance(self, reply: ProbeReply) -> (step: ProbeStep)
        requires
            self.awaits(reply),
        ensures
            step == self.advanced(reply),
    {
        let mut probe = self;
        match (probe.stage, reply) {
            (ProbeStage::Opening, ProbeReply::Opened(Ok(_))) => probe.ask(
                ProbeStage::Enumerating,
                None,
                ProbeCall::EnumerateFeatures,
            ),
            (ProbeStage::Enumerating, ProbeReply::Enumerated(Ok(enumeration))) => {
                probe.present = enumeration.present;
                match enumeration.table {
                    Some(table) => {
                        probe.indices = battery_feature_indices(table.ids.as_slice());
                        probe.found.capabilities = Some(table.capabilities);
                        if enumeration.present.hires_wheel {
                            probe.ask(ProbeStage::Wheel, None, ProbeCall::ReadWheel)
                        } else {
                            probe.enter_battery()
                        }
                    },
                    None => {
                        probe.indices = BatteryFeatureIndices::default();
                        probe.found.capabilities = None;
                        probe.enter_battery()
                    },
                }
            },
            (ProbeStage::Wheel, ProbeReply::Wheel(inversion)) => {
                let invertible = match inversion {
                    Ok(invertible) => invertible,
                    Err(_) => false,
                };
                probe.found.capabilities = match probe.found.capabilities {
                    Some(capabilities) => Some(
                        Capabilities {
                            features: capabilities.features,
                            scroll_inversion: invertible,
                        },
                    ),
                    None => None,
                };
                probe.enter_battery()
            },
            (ProbeStage::Battery(battery), ProbeReply::Battery(battery_reply)) => {
                let mut battery = battery;
                let step = battery.advance(battery_reply);
                probe.continue_battery(battery, step)
            },
            (ProbeStage::Information, ProbeReply::Information(Ok(information))) => {
                probe.found.model_info = Some(
                    DeviceModelInfo {
                        entity_count: information.entity_count,
                        serial_number: None,
                        unit_id: information.unit_id,
                        transports: information.transports,
                        model_ids: information.model_ids,
                        extended_model_id: information.extended_model_id,
                    },
                );
                if information.has_serial_number {
                    probe.ask(ProbeStage::SerialNumber, None, ProbeCall::ReadSerialNumber)
                } else {
                    probe.enter_device_type(None)
                }
            },
            (ProbeStage::Information, ProbeReply::Information(Err(_))) => {
                probe.found.identity_incomplete = true;
                probe.enter_device_type(None)
            },
            (ProbeStage::SerialNumber, ProbeReply::SerialNumber(Ok(serial))) => {
                probe.found.model_info = match probe.found.model_info {
                    Some(model) => {
                        let mut model = model;
                        model.serial_number = serial;
                        Some(model)
                    },
                    None => None,
                };
                probe.enter_device_type(None)
            },
            (ProbeStage::SerialNumber, ProbeReply::SerialNumber(Err(_))) => {
                probe.found.identity_incomplete = true;
                probe.enter_device_type(None)
            },
            (ProbeStage::DeviceType, ProbeReply::DeviceType(kind)) => {
                probe.found.kind = match kind {
                    Ok(kind) => Some(kind),
                    Err(_) => None,
                };
                ProbeStep::Finish { features: probe.found, attach: None, handle: probe.handle }
            },
            _ => ProbeStep::Finish {
                features: ProbedFeatures::default(),
                attach: None,
                handle: None,
            },
        }
    }
}

/// The capabilities, once the wheel was read: a wheel that could not be read
/// cannot be inverted.
pub open spec fn with_inversion(
    capabilities: Option<Capabilities>,
    inversion: Result<bool, Hidpp20Error>,
) -> Option<Capabilities> {
    match capabilities {
        Some(c) => Some(
            Capabilities { scroll_inversion: inversion == Ok::<bool, Hidpp20Error>(true), ..c },
        ),
        None => None,
    }
}

} // verus!
