//! What the probes of a receiver's slots add up to.

use vstd::prelude::*;

use super::cache::CacheOutcome;
use super::features::ProbedFeatures;
use crate::device::{DeviceInventory, DeviceKind, PairedDevice, ReceiverInfo};
use crate::text::utf8_text;

verus! {

/// What came of probing one receiver.
#[derive(Debug)]
pub struct NodeProbe {
    /// The receiver and its devices.
    pub inventory: Option<DeviceInventory>,
    /// What each device contributes to the cache.
    pub outcomes: Vec<CacheOutcome>,
    /// Every paired device was found.
    pub complete: bool,
    /// The probe can be taken for the truth.
    pub healthy: bool,
}

/// A complete walk of a receiver found as many devices as the receiver says it
/// has, and an unanswered count makes every walk incomplete.
pub open spec fn is_confirmed(pairing_count: Option<u8>, found: nat) -> bool {
    pairing_count matches Some(count) && count == found
}

/// Puts the probe of a Bolt receiver together: `pairing_count` is what the
/// receiver says about the number of its devices, if it answered, and `slots`
/// holds the devices that could be read, in slot order. A walk that the count
/// does not confirm is not complete, and then not to be trusted either.
pub fn assemble_bolt_probe(
    receiver: ReceiverInfo,
    pairing_count: Option<u8>,
    slots: Vec<(PairedDevice, CacheOutcome)>,
) -> (probe: NodeProbe)
    ensures
        probe.complete == is_confirmed(pairing_count, slots@.len()),
        probe.healthy == probe.complete,
        probe.inventory matches Some(inventory) && inventory.receiver == receiver
            && inventory.paired@ == slots@.map_values(|slot: (PairedDevice, CacheOutcome)| slot.0),
        probe.outcomes@ == slots@.map_values(|slot: (PairedDevice, CacheOutcome)| slot.1),
        probe.inventory matches Some(inventory) && is_walk(
            slots@,
            inventory.paired@,
            probe.outcomes@,
        ),
{
    let complete = match pairing_count {
        Some(count) => count as usize == slots.len(),
        None => false,
    };
    let ghost all = slots@;
    let mut paired: Vec<PairedDevice> = Vec::new();
    let mut outcomes: Vec<CacheOutcome> = Vec::new();
    for slot in it: slots
        invariant
            it.seq() == all,
            paired@ == all.take(it.index() as int).map_values(
                |slot: (PairedDevice, CacheOutcome)| slot.0,
            ),
            outcomes@ == all.take(it.index() as int).map_values(
                |slot: (PairedDevice, CacheOutcome)| slot.1,
            ),
    {
        let (device, outcome) = slot;
        paired.push(device);
        outcomes.push(outcome);
        assert(all.take(it.index() + 1) =~= all.take(it.index() as int).push(
            all[it.index() as int],
        ));
    }
    assert(all.take(all.len() as int) =~= all);
    NodeProbe {
        inventory: Some(DeviceInventory { receiver, paired }),
        outcomes,
        complete,
        healthy: complete,
    }
}

/// A device of a Unifying receiver, as it is shown.
pub open spec fn unifying_device(
    slot: u8,
    codename: Option<String>,
    wpid: u16,
    kind: DeviceKind,
    probe: ProbedFeatures,
    online: bool,
) -> PairedDevice {
    PairedDevice {
        slot,
        codename,
        wpid: Some(wpid),
        kind: match probe.kind {
            Some(reported) => reported,
            None => kind,
        },
        online,
        battery: if online {
            probe.battery
        } else {
            None
        },
        model_info: probe.model_info,
        capabilities: probe.capabilities,
    }
}

/// Puts a device of a Unifying receiver together. Whether it is online is decided
/// by the current liveness probe: memoized features remain available while it is
/// offline, but its last battery state is not shown then. The type that the
/// device itself reports corrects the one from the pairing register.
pub fn assemble_unifying_device(
    slot: u8,
    codename: Option<String>,
    wpid: u16,
    kind: DeviceKind,
    probe: ProbedFeatures,
    online: bool,
) -> (device: PairedDevice)
    ensures
        device == (PairedDevice {
            slot,
            codename,
            wpid: Some(wpid),
            kind: match probe.kind {
                Some(reported) => reported,
                None => kind,
            },
            online,
            battery: if online {
                probe.battery
            } else {
                None
            },
            model_info: probe.model_info,
            capabilities: probe.capabilities,
        }),
        device == unifying_device(slot, codename, wpid, kind, probe, online),
{
    PairedDevice {
        slot,
        codename,
        wpid: Some(wpid),
        kind: match probe.kind {
            Some(reported) => reported,
            None => kind,
        },
        online,
        battery: if online {
            probe.battery
        } else {
            None
        },
        model_info: probe.model_info,
        capabilities: probe.capabilities,
    }
}

/// Whether a device of a Unifying receiver is there. A battery refresh that it
/// answered shows that it is; a failed one is inconclusive, and then the answer to
/// a ping of its root feature decides.
pub fn is_unifying_device_online(refreshed: bool, ping_answered: bool) -> (online: bool)
    ensures
        online == (refreshed || ping_answered),
{
    refreshed || ping_answered
}

/// The bytes of the name in a codename register: the second byte is its length,
/// which is not trusted beyond the end of the response.
pub open spec fn codename_bytes(response: Seq<u8>) -> Seq<u8> {
    if 2 + response[1] <= response.len() {
        response.subrange(2, 2 + response[1])
    } else {
        response.skip(2)
    }
}

/// The name in a codename register of a Unifying receiver. `None` if the response
/// is too short to have one, or the name is not text.
pub fn parse_codename_unifying(response: &[u8]) -> (name: Option<String>)
    ensures
        name is Some <==> response@.len() >= 2 && vstd::utf8::valid_utf8(codename_bytes(response@)),
        name matches Some(text) ==> text@ == vstd::utf8::decode_utf8(codename_bytes(response@)),
{
    if response.len() < 2 {
        return None;
    }
    let len: usize = response[1] as usize;
    let end: usize = if len <= response.len() - 2 {
        2 + len
    } else {
        response.len()
    };
    let bytes = vstd::slice::slice_subrange(response, 2, end);
    assert(bytes@ =~= codename_bytes(response@));
    utf8_text(bytes)
}

/// The name that a register holds is read back, whatever comes before its length
/// and behind its end.
pub proof fn codename_is_read_back(first: u8, name: Seq<u8>, padding: Seq<u8>)
    requires
        name.len() <= 255,
    ensures
        codename_bytes(seq![first, name.len() as u8] + name + padding) == name,
{
    let response = seq![first, name.len() as u8] + name + padding;
    assert(response[1] == name.len());
    assert(codename_bytes(response) =~= name);
}

/// A length beyond the end of the response reads up to the end.
pub proof fn overlong_codename_is_clamped(first: u8, len: u8, rest: Seq<u8>)
    requires
        rest.len() <= len,
    ensures
        codename_bytes(seq![first, len] + rest) == rest,
{
    let response = seq![first, len] + rest;
    assert(response[1] == len);
    assert(codename_bytes(response) =~= rest);
}

/// The current liveness probe is authoritative, and only the battery depends on it:
/// a device that went offline is shown as before, but without its battery state.
pub proof fn liveness_decides_only_the_battery(
    slot: u8,
    codename: Option<String>,
    wpid: u16,
    kind: DeviceKind,
    probe: ProbedFeatures,
)
    ensures
        ({
            let online = unifying_device(slot, codename, wpid, kind, probe, true);
            let offline = unifying_device(slot, codename, wpid, kind, probe, false);
            &&& online.online && !offline.online
            &&& online.battery == probe.battery && offline.battery is None
            &&& online.slot == slot && offline.slot == slot
            &&& online.codename == codename && offline.codename == codename
            &&& online.wpid == Some(wpid) && offline.wpid == Some(wpid)
            &&& online.model_info == probe.model_info && offline.model_info == probe.model_info
            &&& online.capabilities == probe.capabilities && offline.capabilities
                == probe.capabilities
            &&& online.kind == offline.kind
        }),
{
}

/// The type that the device itself reports corrects the one from the pairing
/// register, online and offline; without one the register is believed.
pub proof fn reported_kind_corrects_the_register(
    slot: u8,
    codename: Option<String>,
    wpid: u16,
    kind: DeviceKind,
    probe: ProbedFeatures,
    online: bool,
)
    ensures
        ({
            let shown = unifying_device(slot, codename, wpid, kind, probe, online).kind;
            &&& probe.kind is Some ==> Some(shown) == probe.kind
            &&& probe.kind is None ==> shown == kind
        }),
{
}

/// A walk is confirmed by exactly one answer: the number of devices it found.
pub proof fn only_the_right_count_confirms(pairing_count: Option<u8>, found: nat)
    ensures
        pairing_count is None ==> !is_confirmed(pairing_count, found),
        pairing_count is Some && pairing_count->0 < found ==> !is_confirmed(pairing_count, found),
        pairing_count is Some && pairing_count->0 > found ==> !is_confirmed(pairing_count, found),
        pairing_count is Some && pairing_count->0 == found ==> is_confirmed(pairing_count, found),
{
}

/// `paired` and `outcomes` are what the slots of a walk hold, slot by slot.
pub open spec fn is_walk(
    slots: Seq<(PairedDevice, CacheOutcome)>,
    paired: Seq<PairedDevice>,
    outcomes: Seq<CacheOutcome>,
) -> bool {
    &&& paired.len() == slots.len()
    &&& outcomes.len() == slots.len()
    &&& forall|i: int| 0 <= i < slots.len() ==> (paired[i], outcomes[i]) == #[trigger] slots[i]
}

/// A walk can be read back from what is put together of it: no slot is lost, made
/// up, moved or mixed with another.
pub proof fn walks_are_kept_slot_by_slot(
    slots: Seq<(PairedDevice, CacheOutcome)>,
    paired: Seq<PairedDevice>,
    outcomes: Seq<CacheOutcome>,
    i: int,
)
    requires
        is_walk(slots, paired, outcomes),
    ensures
        paired.len() == slots.len(),
        outcomes.len() == slots.len(),
        0 <= i < slots.len() ==> paired[i] == slots[i].0 && outcomes[i] == slots[i].1,
{
    if 0 <= i < slots.len() {
        assert((paired[i], outcomes[i]) == slots[i]);
    }
}

} // verus!
