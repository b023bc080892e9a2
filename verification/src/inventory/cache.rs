//! Memoized probes.

use vstd::prelude::*;

use super::battery::BatteryHandle;
use super::features::ProbedFeatures;
use crate::device::BatteryInfo;

verus! {

/// How many enumeration ticks a device's probe is reused before a fresh read.
/// The expensive part of a probe (the feature-table walk) reads *immutable* data
/// — model, capabilities, marketing type — so it never needs re-reading for a
/// known device; the periodic full probe is kept only as a self-healing pass.
/// The volatile battery does NOT ride this window: cache hits re-read it every
/// tick through the memoized feature.
pub const REFRESH_TICKS: u64 = 15;

/// Enumeration ticks a device may be missing before its cache entry is evicted.
/// A small grace rides out a transient receiver timeout without dropping the
/// device's memoized data.
pub const CACHE_MISS_GRACE: u8 = 3;

/// Stable identity used to memoize a device's probe across ticks.
#[derive(Debug, PartialEq, Eq, Hash)]
pub enum CacheKey {
    /// Bolt: the unit id from the pairing register.
    Bolt {
        /// Unit id.
        unit_id: [u8; 4],
    },
    /// Unifying: the full receiver serial number and the pairing slot. The
    /// complete serial avoids collisions between two receivers whose serials
    /// share a prefix.
    UnifyingSlot {
        /// Serial number of the receiver.
        receiver_uid: String,
        /// Pairing slot.
        slot: u8,
    },
    /// Direct (Bluetooth or USB): the number of the HID node. Unique *per node*,
    /// so two units of the same model never collide.
    Direct(u64),
}

/// A [`CacheKey`] with its parts as sequences.
pub enum CacheIdentity {
    /// See [`CacheKey::Bolt`].
    Bolt(Seq<u8>),
    /// See [`CacheKey::UnifyingSlot`].
    UnifyingSlot(Seq<char>, u8),
    /// See [`CacheKey::Direct`].
    Direct(u64),
}

impl View for CacheKey {
    type V = CacheIdentity;

    open spec fn view(&self) -> CacheIdentity {
        match *self {
            CacheKey::Bolt { unit_id } => CacheIdentity::Bolt(unit_id@),
            CacheKey::UnifyingSlot { receiver_uid, slot } => CacheIdentity::UnifyingSlot(
                receiver_uid@,
                slot,
            ),
            CacheKey::Direct(node) => CacheIdentity::Direct(node),
        }
    }
}

impl Clone for CacheKey {
    fn clone(&self) -> (copy: Self)
        ensures
            copy == *self,
    {
        match self {
            CacheKey::Bolt { unit_id } => CacheKey::Bolt { unit_id: *unit_id },
            CacheKey::UnifyingSlot { receiver_uid, slot } => CacheKey::UnifyingSlot {
                receiver_uid: receiver_uid.clone(),
                slot: *slot,
            },
            CacheKey::Direct(node) => CacheKey::Direct(*node),
        }
    }
}

impl CacheKey {
    /// Whether two keys name the same device.
    pub fn same(&self, other: &CacheKey) -> (same: bool)
        ensures
            same == (self@ == other@),
    {
        match (self, other) {
            (CacheKey::Bolt { unit_id: a }, CacheKey::Bolt { unit_id: b }) => {
                let same = a[0] == b[0] && a[1] == b[1] && a[2] == b[2] && a[3] == b[3];
                proof {
                    if same {
                        assert(a@ =~= b@);
                    }
                }
                same
            },
            (
                CacheKey::UnifyingSlot { receiver_uid: a, slot: s },
                CacheKey::UnifyingSlot { receiver_uid: b, slot: t },
            ) => *a == *b && *s == *t,
            (CacheKey::Direct(a), CacheKey::Direct(b)) => *a == *b,
            _ => false,
        }
    }
}

/// A memoized probe result plus the tick it was taken on.
#[derive(Debug, PartialEq, Eq)]
pub struct Cached {
    /// The probe.
    pub probe: ProbedFeatures,
    /// Battery feature selected by the full probe. Cache hits use it for one
    /// status read.
    pub battery_handle: Option<BatteryHandle>,
    /// Tick of the full probe.
    pub probed_tick: u64,
}

impl Clone for Cached {
    fn clone(&self) -> (copy: Self)
        ensures
            copy == *self,
    {
        Cached {
            probe: self.probe.clone(),
            battery_handle: self.battery_handle,
            probed_tick: self.probed_tick,
        }
    }
}

/// What a probed device contributes to the cache this tick. The key lets stale
/// entries be evicted; `Fresh` (a full probe) and `Update` (a cache hit whose
/// volatile battery was re-read) also carry the value to insert. `Unkeyed` is a
/// device that can't be cached, so its key is neither inserted nor kept alive.
#[derive(Debug, PartialEq, Eq)]
pub enum CacheOutcome {
    /// A full probe.
    Fresh(CacheKey, Cached),
    /// A cache hit with a new battery reading.
    Update(CacheKey, Cached),
    /// The device was there.
    Seen(CacheKey),
    /// A device without a stable key.
    Unkeyed,
}

/// `Seen` when the device has a stable key, else `Unkeyed`.
pub open spec fn sighting(id: Option<CacheKey>) -> CacheOutcome {
    match id {
        Some(key) => CacheOutcome::Seen(key),
        None => CacheOutcome::Unkeyed,
    }
}

/// `Seen` when the device has a stable key, else `Unkeyed`.
pub fn seen(id: Option<CacheKey>) -> (outcome: CacheOutcome)
    ensures
        outcome == sighting(id),
{
    match id {
        Some(key) => CacheOutcome::Seen(key),
        None => CacheOutcome::Unkeyed,
    }
}

/// Ticks from `since` to `tick`. The counter wraps around.
pub open spec fn ticks_since(since: u64, tick: u64) -> int {
    (tick - since) % 0x1_0000_0000_0000_0000
}

/// Whether `cached` is stale enough that the device should be re-probed.
pub fn is_stale(cached: &Cached, tick: u64) -> (stale: bool)
    ensures
        stale == (ticks_since(cached.probed_tick, tick) >= REFRESH_TICKS),
{
    tick.wrapping_sub(cached.probed_tick) >= REFRESH_TICKS
}

/// `fresh` with the immutable identity data that it failed to read carried
/// forward from `cached`.
pub open spec fn backfilled(fresh: ProbedFeatures, cached: ProbedFeatures) -> ProbedFeatures {
    let kind = if fresh.kind is None {
        cached.kind
    } else {
        fresh.kind
    };
    if !fresh.identity_incomplete {
        ProbedFeatures { kind, ..fresh }
    } else {
        match (fresh.model_info, cached.model_info) {
            (None, Some(previous)) => ProbedFeatures {
                kind,
                model_info: Some(previous),
                identity_incomplete: false,
                ..fresh
            },
            (Some(now), Some(previous)) => if now.serial_number is None && previous.serial_number is Some {
                ProbedFeatures {
                    kind,
                    model_info: Some(
                        crate::device::DeviceModelInfo {
                            serial_number: previous.serial_number,
                            ..now
                        },
                    ),
                    identity_incomplete: false,
                    ..fresh
                }
            } else {
                ProbedFeatures { kind, ..fresh }
            },
            _ => ProbedFeatures { kind, ..fresh },
        }
    }
}

/// Carry immutable identity data the fresh probe failed to read forward from the
/// cached probe, so a transient failure can't flip the device's identity. A probe
/// whose identity reads all succeeded is returned untouched.
pub fn backfill_identity(fresh: &mut ProbedFeatures, cached: &ProbedFeatures)
    ensures
        *final(fresh) == backfilled(*old(fresh), *cached),
{
    if fresh.kind.is_none() {
        fresh.kind = cached.kind;
    }
    if !fresh.identity_incomplete {
        return;
    }
    match (fresh.model_info.as_mut(), cached.model_info.as_ref()) {
        (None, Some(previous)) => {
            fresh.model_info = Some(previous.clone());
            fresh.identity_incomplete = false;
        },
        (Some(now), Some(previous)) => {
            if now.serial_number.is_none() && previous.serial_number.is_some() {
                now.serial_number = previous.serial_number.clone();
                fresh.identity_incomplete = false;
            }
        },
        _ => {},
    }
}

/// What a device is asked this tick.
#[derive(Clone, Copy, Debug, PartialEq, Eq, Structural)]
pub enum ProbePlan {
    /// Everything: run a full probe.
    Probe,
    /// Just the battery.
    ReadBattery(BatteryHandle),
    /// Nothing.
    Reuse,
}

/// What came of a [`ProbePlan`].
#[derive(Debug, PartialEq, Eq)]
pub enum ProbeAnswer {
    /// A full probe.
    Probed {
        /// What was read.
        features: ProbedFeatures,
        /// The battery feature that was selected.
        battery_handle: Option<BatteryHandle>,
    },
    /// A battery reading, if the device gave one.
    Battery(Option<BatteryInfo>),
    /// Nothing was asked.
    Nothing,
}

/// `answer` is what `plan` asks for.
pub open spec fn answers_plan(plan: ProbePlan, answer: ProbeAnswer) -> bool {
    match plan {
        ProbePlan::Probe => answer is Probed,
        ProbePlan::ReadBattery(_) => answer is Battery,
        ProbePlan::Reuse => answer is Nothing,
    }
}

/// What a device is asked: everything, if it is online and not memoized or not
/// recently; else its battery, if it is online and memoized with one; else
/// nothing.
pub open spec fn planned(
    id: Option<CacheKey>,
    cached: Option<Cached>,
    online: bool,
    tick: u64,
) -> ProbePlan {
    match cached {
        Some(entry) => if !online {
            ProbePlan::Reuse
        } else if ticks_since(entry.probed_tick, tick) >= REFRESH_TICKS {
            ProbePlan::Probe
        } else {
            match entry.battery_handle {
                Some(handle) => if id is Some {
                    ProbePlan::ReadBattery(handle)
                } else {
                    ProbePlan::Reuse
                },
                None => ProbePlan::Reuse,
            }
        },
        None => if online {
            ProbePlan::Probe
        } else {
            ProbePlan::Reuse
        },
    }
}

/// The memoized entry that a reference points to.
pub open spec fn entry_of(cached: Option<&Cached>) -> Option<Cached> {
    match cached {
        Some(entry) => Some(*entry),
        None => None,
    }
}

/// Decides what a device is asked this tick.
pub fn plan_probe(
    id: &Option<CacheKey>,
    cached: Option<&Cached>,
    online: bool,
    tick: u64,
) -> (plan: ProbePlan)
    ensures
        plan == planned(*id, entry_of(cached), online, tick),
{
    match cached {
        Some(entry) => {
            if !online {
                ProbePlan::Reuse
            } else if is_stale(entry, tick) {
                ProbePlan::Probe
            } else {
                match entry.battery_handle {
                    Some(handle) => {
                        if id.is_some() {
                            ProbePlan::ReadBattery(handle)
                        } else {
                            ProbePlan::Reuse
                        }
                    },
                    None => ProbePlan::Reuse,
                }
            }
        },
        None => {
            if online {
                ProbePlan::Probe
            } else {
                ProbePlan::Reuse
            }
        },
    }
}

/// What a device that was probed in vain, or not at all, is shown as: what is
/// memoized of it, or else `otherwise`.
pub open spec fn last_known(cached: Option<Cached>, otherwise: ProbedFeatures) -> ProbedFeatures {
    match cached {
        Some(entry) => entry.probe,
        None => otherwise,
    }
}

/// A successful full probe, completed by what is memoized of the device: the
/// identity that could not be read, and the battery state if the device still
/// has a battery feature but did not answer.
pub open spec fn completed(
    features: ProbedFeatures,
    battery_handle: Option<BatteryHandle>,
    cached: Option<Cached>,
) -> ProbedFeatures {
    match cached {
        Some(entry) => {
            let filled = backfilled(features, entry.probe);
            ProbedFeatures {
                battery: if filled.battery is None && battery_handle is Some {
                    entry.probe.battery
                } else {
                    filled.battery
                },
                ..filled
            }
        },
        None => features,
    }
}

/// What a full probe shows, and what it contributes to the cache.
pub open spec fn after_probe(
    id: Option<CacheKey>,
    cached: Option<Cached>,
    tick: u64,
    features: ProbedFeatures,
    battery_handle: Option<BatteryHandle>,
) -> (ProbedFeatures, CacheOutcome) {
    if features.capabilities is None {
        (last_known(cached, features), sighting(id))
    } else {
        let probe = completed(features, battery_handle, cached);
        match id {
            Some(key) => if probe.identity_incomplete {
                (probe, CacheOutcome::Seen(key))
            } else {
                (
                    probe,
                    CacheOutcome::Fresh(key, Cached { probe, battery_handle, probed_tick: tick }),
                )
            },
            None => (probe, CacheOutcome::Unkeyed),
        }
    }
}

/// What a device is shown as, and what it contributes to the cache.
pub open spec fn probed_or_reused(
    id: Option<CacheKey>,
    cached: Option<Cached>,
    tick: u64,
    answer: ProbeAnswer,
) -> (ProbedFeatures, CacheOutcome) {
    match answer {
        ProbeAnswer::Probed { features, battery_handle } => after_probe(
            id,
            cached,
            tick,
            features,
            battery_handle,
        ),
        ProbeAnswer::Battery(Some(battery)) => match (id, cached) {
            (Some(key), Some(entry)) => {
                let probe = ProbedFeatures { battery: Some(battery), ..entry.probe };
                (probe, CacheOutcome::Update(key, Cached { probe, ..entry }))
            },
            _ => (last_known(cached, super::features::nothing_probed()), sighting(id)),
        },
        _ => (last_known(cached, super::features::nothing_probed()), sighting(id)),
    }
}

fn conclude_probe(
    id: Option<CacheKey>,
    cached: Option<&Cached>,
    tick: u64,
    features: ProbedFeatures,
    battery_handle: Option<BatteryHandle>,
) -> (shown: (ProbedFeatures, CacheOutcome))
    ensures
        shown == after_probe(id, entry_of(cached), tick, features, battery_handle),
{
    if features.capabilities.is_none() {
        // The probe failed: don't cache the failure. Fall back to the last-known
        // data so a transient glitch doesn't drop the device or its battery.
        let shown = match cached {
            Some(entry) => entry.probe.clone(),
            None => features,
        };
        return (shown, seen(id));
    }
    let mut fresh = features;
    if let Some(entry) = cached {
        backfill_identity(&mut fresh, &entry.probe);
        // The table walk succeeded and still exposes a battery endpoint, so an
        // empty reading is a transient status failure rather than a removed
        // feature.
        if fresh.battery.is_none() && battery_handle.is_some() {
            fresh.battery = entry.probe.battery;
        }
    }
    // A probe whose identity reads failed, with nothing memoized to fill them in
    // from, is served but not memoized: caching it would pin a wrong identity. The
    // next tick re-probes.
    if fresh.identity_incomplete {
        return (fresh, seen(id));
    }
    match id {
        Some(key) => {
            let entry = Cached { probe: fresh.clone(), battery_handle, probed_tick: tick };
            (fresh, CacheOutcome::Fresh(key, entry))
        },
        None => (fresh, CacheOutcome::Unkeyed),
    }
}

/// Decides a device's probe from the answer to what [`plan_probe`] asked: reuse a
/// fresh cache, or (online and missing or stale) the new probe — but keep the
/// last-known immutable data if the re-probe failed rather than overwriting it
/// with an empty default. An unprobed offline device with no cache yields a
/// default probe. Returns the probe plus its cache contribution (only a
/// *successful* probe is cached).
pub fn probe_or_reuse(
    id: Option<CacheKey>,
    cached: Option<&Cached>,
    online: bool,
    tick: u64,
    answer: ProbeAnswer,
) -> (shown: (ProbedFeatures, CacheOutcome))
    requires
        answers_plan(planned(id, entry_of(cached), online, tick), answer),
    ensures
        shown == probed_or_reused(id, entry_of(cached), tick, answer),
{
    match answer {
        ProbeAnswer::Probed { features, battery_handle } => conclude_probe(
            id,
            cached,
            tick,
            features,
            battery_handle,
        ),
        ProbeAnswer::Battery(reading) => {
            // Cache hit: the immutable data is reused as-is, but the battery is
            // volatile. A failed read keeps the last-known value.
            match (id, cached, reading) {
                (Some(key), Some(entry), Some(battery)) => {
                    let mut updated = entry.clone();
                    updated.probe.battery = Some(battery);
                    (updated.probe.clone(), CacheOutcome::Update(key, updated))
                },
                (id, Some(entry), _) => (entry.probe.clone(), seen(id)),
                (id, None, _) => (ProbedFeatures::default(), seen(id)),
            }
        },
        ProbeAnswer::Nothing => {
            match cached {
                Some(entry) => (entry.probe.clone(), seen(id)),
                None => (ProbedFeatures::default(), seen(id)),
            }
        },
    }
}

/// A device that is offline is not asked anything. It is shown as what is
/// memoized of it, and the cache learns nothing new.
pub proof fn offline_devices_are_not_asked(
    id: Option<CacheKey>,
    cached: Option<Cached>,
    tick: u64,
    answer: ProbeAnswer,
)
    requires
        answers_plan(planned(id, cached, false, tick), answer),
    ensures
        planned(id, cached, false, tick) == ProbePlan::Reuse,
        probed_or_reused(id, cached, tick, answer) == (
            last_known(cached, super::features::nothing_probed()),
            sighting(id),
        ),
{
}

/// Only a successful probe is cached, as it is shown, under the key of its device
/// and with the tick it was taken on.
pub proof fn only_successful_probes_are_cached(
    id: Option<CacheKey>,
    cached: Option<Cached>,
    online: bool,
    tick: u64,
    answer: ProbeAnswer,
)
    requires
        answers_plan(planned(id, cached, online, tick), answer),
    ensures
        ({
            let (shown, outcome) = probed_or_reused(id, cached, tick, answer);
            match outcome {
                CacheOutcome::Fresh(key, entry) => {
                    &&& online
                    &&& id == Some(key)
                    &&& entry.probe == shown
                    &&& entry.probed_tick == tick
                    &&& shown.capabilities is Some
                    &&& answer matches ProbeAnswer::Probed { features, battery_handle }
                        && features.capabilities is Some && entry.battery_handle == battery_handle
                },
                CacheOutcome::Update(key, entry) => {
                    &&& online
                    &&& id == Some(key)
                    &&& entry.probe == shown
                },
                CacheOutcome::Seen(key) => id == Some(key),
                CacheOutcome::Unkeyed => id is None,
            }
        }),
{
}

/// A failed re-probe is not cached and changes nothing of what is shown.
pub proof fn failed_probe_keeps_the_last_known_data(
    id: Option<CacheKey>,
    entry: Cached,
    tick: u64,
    features: ProbedFeatures,
    battery_handle: Option<BatteryHandle>,
)
    requires
        features.capabilities is None,
    ensures
        after_probe(id, Some(entry), tick, features, battery_handle) == (entry.probe, sighting(id)),
{
}

/// A cache hit changes the battery state of the entry, if the device tells it,
/// and nothing else: not even the tick of the full probe.
pub proof fn cache_hit_changes_only_the_battery(
    id: Option<CacheKey>,
    entry: Cached,
    online: bool,
    tick: u64,
    reading: Option<BatteryInfo>,
)
    requires
        answers_plan(planned(id, Some(entry), online, tick), ProbeAnswer::Battery(reading)),
    ensures
        ({
            let (shown, outcome) = probed_or_reused(
                id,
                Some(entry),
                tick,
                ProbeAnswer::Battery(reading),
            );
            match reading {
                Some(battery) => {
                    &&& shown == (ProbedFeatures { battery: Some(battery), ..entry.probe })
                    &&& outcome == CacheOutcome::Update(id->0, Cached { probe: shown, ..entry })
                },
                None => shown == entry.probe && outcome == sighting(id),
            }
        }),
{
}

/// A memoized probe is reused for [`REFRESH_TICKS`] ticks, also across a wrap of
/// the tick counter: a device that is online is fully probed again once, and only
/// once, that many ticks have passed.
pub proof fn probe_is_reused_for_a_window(
    id: Option<CacheKey>,
    entry: Cached,
    passed: int,
    tick: u64,
)
    requires
        0 <= passed < 0x1_0000_0000_0000_0000,
        tick == (entry.probed_tick + passed) % 0x1_0000_0000_0000_0000,
    ensures
        ticks_since(entry.probed_tick, tick) == passed,
        planned(id, Some(entry), true, tick) is Probe <==> passed >= REFRESH_TICKS,
{
}

/// The battery of a memoized device does not ride the window: as long as the device
/// is online, it is read every tick, alone or as part of a full probe.
pub proof fn battery_is_read_every_tick(key: CacheKey, entry: Cached, tick: u64)
    requires
        entry.battery_handle is Some,
    ensures
        ({
            let plan = planned(Some(key), Some(entry), true, tick);
            plan is Probe || plan == ProbePlan::ReadBattery(entry.battery_handle->0)
        }),
{
}

/// Two units have different keys, even behind receivers whose serial numbers share
/// a prefix.
pub proof fn different_units_have_different_keys(a: CacheKey, b: CacheKey)
    requires
        match (a, b) {
            (CacheKey::Bolt { unit_id: x }, CacheKey::Bolt { unit_id: y }) => x@ != y@,
            (
                CacheKey::UnifyingSlot { receiver_uid: x, slot: s },
                CacheKey::UnifyingSlot { receiver_uid: y, slot: t },
            ) => x@ != y@ || s != t,
            (CacheKey::Direct(x), CacheKey::Direct(y)) => x != y,
            _ => true,
        },
    ensures
        a@ != b@,
{
}

/// A probe whose identity stays incomplete, because nothing memoized fills it in,
/// is shown but not memoized, on first sight and later.
pub proof fn incomplete_identity_is_not_memoized(
    id: Option<CacheKey>,
    cached: Option<Cached>,
    tick: u64,
    features: ProbedFeatures,
    battery_handle: Option<BatteryHandle>,
)
    ensures
        ({
            let (shown, outcome) = after_probe(id, cached, tick, features, battery_handle);
            &&& features.capabilities is Some && shown.identity_incomplete ==> outcome == sighting(
                id,
            )
            &&& outcome matches CacheOutcome::Fresh(_, entry) ==> !entry.probe.identity_incomplete
        }),
{
}

/// What is in the cache has a complete identity: no outcome puts an incomplete one
/// there, as long as there was none for its device before.
pub proof fn memoized_identities_are_complete(
    id: Option<CacheKey>,
    cached: Option<Cached>,
    tick: u64,
    answer: ProbeAnswer,
)
    requires
        cached matches Some(entry) ==> !entry.probe.identity_incomplete,
    ensures
        match probed_or_reused(id, cached, tick, answer).1 {
            CacheOutcome::Fresh(_, entry) | CacheOutcome::Update(_, entry) =>
                !entry.probe.identity_incomplete,
            CacheOutcome::Seen(_) | CacheOutcome::Unkeyed => true,
        },
{
}

/// A complete identity is memoized, also one that was filled in from the cache:
/// the probe of a device with a key and a feature table is then kept as it is
/// shown.
pub proof fn complete_identity_is_memoized(
    key: CacheKey,
    cached: Option<Cached>,
    tick: u64,
    features: ProbedFeatures,
    battery_handle: Option<BatteryHandle>,
)
    requires
        features.capabilities is Some,
    ensures
        ({
            let (shown, outcome) = after_probe(Some(key), cached, tick, features, battery_handle);
            &&& !shown.identity_incomplete ==> outcome == CacheOutcome::Fresh(
                key,
                Cached { probe: shown, battery_handle, probed_tick: tick },
            )
            &&& cached matches Some(entry) ==> (entry.probe.model_info is Some
                && features.model_info is None ==> !shown.identity_incomplete)
        }),
{
}

/// A probe whose identity reads all succeeded is never overwritten by the cache,
/// and what is not part of the identity never is.
pub proof fn backfill_leaves_fresh_data_alone(fresh: ProbedFeatures, cached: ProbedFeatures)
    ensures
        backfilled(fresh, cached).battery == fresh.battery,
        backfilled(fresh, cached).capabilities == fresh.capabilities,
        fresh.kind is Some ==> backfilled(fresh, cached).kind == fresh.kind,
        !fresh.identity_incomplete ==> backfilled(fresh, cached).model_info == fresh.model_info,
        !fresh.identity_incomplete && fresh.kind is Some ==> backfilled(fresh, cached) == fresh,
        fresh.model_info matches Some(now) ==> (backfilled(fresh, cached).model_info matches Some(
            model,
        ) && model == (crate::device::DeviceModelInfo {
            serial_number: model.serial_number,
            ..now
        }) && (now.serial_number is Some ==> model.serial_number == now.serial_number)),
{
}

/// Filling a probe in twice from the same cached probe is filling it in once.
pub proof fn backfill_is_idempotent(fresh: ProbedFeatures, cached: ProbedFeatures)
    ensures
        backfilled(backfilled(fresh, cached), cached) == backfilled(fresh, cached),
{
}

/// A device does not lose its identity to failed reads: a re-probe that could not
/// read the device information shows the memoized identity, one that could not
/// read the serial number shows the memoized one, and one that could not read the
/// marketing type shows the memoized one.
pub proof fn identity_survives_failed_reads(
    id: Option<CacheKey>,
    entry: Cached,
    tick: u64,
    features: ProbedFeatures,
    battery_handle: Option<BatteryHandle>,
)
    ensures
        ({
            let shown = after_probe(id, Some(entry), tick, features, battery_handle).0;
            let before = entry.probe;
            &&& features.identity_incomplete && features.model_info is None && before.model_info is Some
                ==> shown.model_info == before.model_info
            &&& features.identity_incomplete && features.capabilities is Some
                && features.model_info is Some && features.model_info->0.serial_number is None
                && before.model_info is Some && before.model_info->0.serial_number is Some
                ==> shown.model_info is Some && shown.model_info->0.serial_number
                == before.model_info->0.serial_number && shown.model_info->0.unit_id
                == features.model_info->0.unit_id
            &&& features.kind is None ==> shown.kind == before.kind
        }),
{
}

/// A device with a battery feature keeps showing its last battery state while the
/// feature does not answer.
pub proof fn battery_survives_failed_reads(
    id: Option<CacheKey>,
    entry: Cached,
    tick: u64,
    features: ProbedFeatures,
    handle: BatteryHandle,
)
    requires
        features.battery is None,
    ensures
        after_probe(id, Some(entry), tick, features, Some(handle)).0.battery == entry.probe.battery,
{
}

/// A successful full probe shows the battery it read, whatever is memoized. The
/// memoized state is shown only where the device still has a battery feature that
/// did not answer, and no state at all where the feature is gone.
pub proof fn fresh_battery_is_shown(
    id: Option<CacheKey>,
    cached: Option<Cached>,
    tick: u64,
    features: ProbedFeatures,
    battery_handle: Option<BatteryHandle>,
)
    requires
        features.capabilities is Some,
    ensures
        ({
            let (shown, outcome) = after_probe(id, cached, tick, features, battery_handle);
            &&& features.battery is Some ==> shown.battery == features.battery
            &&& features.battery is None && battery_handle is None ==> shown.battery is None
            &&& features.battery is None && battery_handle is Some ==> match cached {
                Some(entry) => shown.battery == entry.probe.battery,
                None => shown.battery is None,
            }
            &&& outcome matches CacheOutcome::Fresh(_, entry) ==> entry.probe.battery
                == shown.battery && entry.battery_handle == battery_handle && entry.probed_tick
                == tick
        }),
{
}

/// A successful full probe shows the capabilities it read, whatever is memoized,
/// and the type it read; the memoized type only where it read none.
pub proof fn fresh_capabilities_and_kind_are_shown(
    id: Option<CacheKey>,
    cached: Option<Cached>,
    tick: u64,
    features: ProbedFeatures,
    battery_handle: Option<BatteryHandle>,
)
    requires
        features.capabilities is Some,
    ensures
        ({
            let shown = after_probe(id, cached, tick, features, battery_handle).0;
            &&& shown.capabilities == features.capabilities
            &&& features.kind is Some ==> shown.kind == features.kind
            &&& features.kind is None ==> match cached {
                Some(entry) => shown.kind == entry.probe.kind,
                None => shown.kind is None,
            }
        }),
{
}

/// The identity that a successful full probe shows. One that was read in full is
/// shown as it was read. Of one that was not, the memoized one stands in for the
/// whole where nothing was read, and its serial number where only that is missing;
/// what was read is kept. It then counts as complete, and else as incomplete.
pub proof fn shown_identity_is_fresh_first(
    id: Option<CacheKey>,
    cached: Option<Cached>,
    tick: u64,
    features: ProbedFeatures,
    battery_handle: Option<BatteryHandle>,
)
    requires
        features.capabilities is Some,
    ensures
        ({
            let shown = after_probe(id, cached, tick, features, battery_handle).0;
            let known = cached is Some && cached->0.probe.model_info is Some;
            let previous = cached->0.probe.model_info->0;
            let now = features.model_info->0;
            let replaced = features.identity_incomplete && features.model_info is None && known;
            let completed = features.identity_incomplete && features.model_info is Some
                && now.serial_number is None && known && previous.serial_number is Some;
            &&& shown.identity_incomplete <==> features.identity_incomplete && !replaced
                && !completed
            &&& replaced ==> shown.model_info == Some(previous)
            &&& !replaced ==> (shown.model_info is Some <==> features.model_info is Some)
            &&& !replaced && shown.model_info is Some ==> {
                let model = shown.model_info->0;
                &&& model.unit_id == now.unit_id
                &&& model.entity_count == now.entity_count
                &&& model.transports == now.transports
                &&& model.model_ids == now.model_ids
                &&& model.extended_model_id == now.extended_model_id
                &&& model.serial_number == if completed {
                    previous.serial_number
                } else {
                    now.serial_number
                }
            }
        }),
{
}

/// What a full probe contributes to the cache: nothing but a sighting if it failed
/// or its identity is not complete, and else what it shows.
pub proof fn full_probe_contributes_what_it_shows(
    id: Option<CacheKey>,
    cached: Option<Cached>,
    tick: u64,
    features: ProbedFeatures,
    battery_handle: Option<BatteryHandle>,
)
    ensures
        ({
            let (shown, outcome) = after_probe(id, cached, tick, features, battery_handle);
            let worth_keeping = features.capabilities is Some && !shown.identity_incomplete;
            match id {
                Some(key) => if worth_keeping {
                    outcome matches CacheOutcome::Fresh(fresh, entry) && fresh == key && entry.probe
                        == shown && entry.battery_handle == battery_handle && entry.probed_tick
                        == tick
                } else {
                    outcome == CacheOutcome::Seen(key)
                },
                None => outcome is Unkeyed,
            }
        }),
{
}

/// A first probe shows exactly what it read, also if it failed; a failed later one
/// exactly what is memoized.
pub proof fn first_probe_is_shown_as_it_is(
    id: Option<CacheKey>,
    cached: Option<Cached>,
    tick: u64,
    features: ProbedFeatures,
    battery_handle: Option<BatteryHandle>,
)
    ensures
        ({
            let shown = after_probe(id, cached, tick, features, battery_handle).0;
            &&& cached is None ==> shown == features
            &&& features.capabilities is None && cached is Some ==> shown == cached->0.probe
        }),
{
}

/// What a device is asked, `passed` ticks after its last full probe: nothing
/// offline; everything if it has none or it was fifteen ticks ago; else its
/// battery through the memoized feature, if it has one and a key to keep the
/// reading under; else nothing.
pub proof fn devices_are_asked_no_more_than_needed(
    id: Option<CacheKey>,
    cached: Option<Cached>,
    online: bool,
    passed: int,
    tick: u64,
)
    requires
        0 <= passed < 0x1_0000_0000_0000_0000,
        cached is Some ==> tick == (cached->0.probed_tick + passed) % 0x1_0000_0000_0000_0000,
    ensures
        ({
            let plan = planned(id, cached, online, tick);
            let due = online && (cached is None || passed >= 15);
            &&& plan is Probe <==> due
            &&& plan is ReadBattery <==> online && !due && id is Some
                && cached->0.battery_handle is Some
            &&& plan matches ProbePlan::ReadBattery(handle) ==> Some(handle)
                == cached->0.battery_handle
        }),
{
}

/// A device that was not asked, or whose battery did not answer, is shown as it is
/// memoized, or blank, and contributes a sighting.
pub proof fn unasked_device_is_shown_as_memoized(
    id: Option<CacheKey>,
    cached: Option<Cached>,
    tick: u64,
    answer: ProbeAnswer,
)
    requires
        answer is Nothing || answer == ProbeAnswer::Battery(None),
    ensures
        ({
            let (shown, outcome) = probed_or_reused(id, cached, tick, answer);
            &&& match cached {
                Some(entry) => shown == entry.probe,
                None => shown.battery is None && shown.model_info is None && shown.kind is None
                    && shown.capabilities is None && !shown.identity_incomplete,
            }
            &&& match id {
                Some(key) => outcome == CacheOutcome::Seen(key),
                None => outcome is Unkeyed,
            }
        }),
{
}

/// The answer of a full probe is concluded from that probe alone and what is
/// memoized.
pub proof fn probes_are_concluded(
    id: Option<CacheKey>,
    cached: Option<Cached>,
    tick: u64,
    features: ProbedFeatures,
    battery_handle: Option<BatteryHandle>,
)
    ensures
        probed_or_reused(id, cached, tick, ProbeAnswer::Probed { features, battery_handle })
            == after_probe(id, cached, tick, features, battery_handle),
{
}

/// A sighting names the device, and a device without a key is not cached.
pub proof fn sightings_name_their_device(id: Option<CacheKey>)
    ensures
        match id {
            Some(key) => sighting(id) == CacheOutcome::Seen(key),
            None => sighting(id) is Unkeyed,
        },
{
}

/// Filling in an identity changes only what was missing: the memoized type where
/// none was read, and the memoized identity as [`shown_identity_is_fresh_first`]
/// says. With nothing memoized to take from, nothing changes.
pub proof fn backfill_takes_only_what_is_missing(fresh: ProbedFeatures, cached: ProbedFeatures)
    ensures
        ({
            let filled = backfilled(fresh, cached);
            let replaced = fresh.identity_incomplete && fresh.model_info is None
                && cached.model_info is Some;
            let completed = fresh.identity_incomplete && fresh.model_info is Some
                && fresh.model_info->0.serial_number is None && cached.model_info is Some
                && cached.model_info->0.serial_number is Some;
            &&& filled.battery == fresh.battery
            &&& filled.capabilities == fresh.capabilities
            &&& filled.kind == if fresh.kind is Some {
                fresh.kind
            } else {
                cached.kind
            }
            &&& filled.identity_incomplete <==> fresh.identity_incomplete && !replaced && !completed
            &&& !replaced && !completed ==> filled.model_info == fresh.model_info
            &&& replaced ==> filled.model_info == cached.model_info
            &&& completed ==> filled.model_info is Some && filled.model_info->0.serial_number
                == cached.model_info->0.serial_number && filled.model_info->0.unit_id
                == fresh.model_info->0.unit_id && filled.model_info->0.entity_count
                == fresh.model_info->0.entity_count && filled.model_info->0.transports
                == fresh.model_info->0.transports && filled.model_info->0.model_ids
                == fresh.model_info->0.model_ids && filled.model_info->0.extended_model_id
                == fresh.model_info->0.extended_model_id
        }),
{
}

} // verus!
