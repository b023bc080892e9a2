//! What is remembered between two enumerations.

use std::collections::HashSet;

use vstd::prelude::*;

use super::cache::{CacheIdentity, CacheKey, CacheOutcome, Cached, CACHE_MISS_GRACE};
use crate::device::{same_inventories, DeviceInventory};

verus! {

broadcast use vstd::std_specs::hash::group_hash_axioms;

/// How often a one-shot enumeration is tried at most.
pub const ONESHOT_ATTEMPTS: usize = 5;

/// A memoized probe, with the ticks its device has been missing for.
#[derive(Debug)]
struct CacheEntry {
    /// Identity of the device.
    key: CacheKey,
    /// The memoized probe.
    cached: Cached,
    /// Ticks in a row that the device was not seen on.
    misses: u8,
}

/// The memoized probes.
#[derive(Debug)]
pub struct Enumerator {
    /// At most one entry per device.
    entries: Vec<CacheEntry>,
}

/// No two entries are of the same device.
spec fn distinct(entries: Seq<CacheEntry>) -> bool {
    forall|i: int, j: int|
        #![trigger entries[i], entries[j]]
        0 <= i < j < entries.len() ==> entries[i].key@ != entries[j].key@
}

/// No entry is of a device that has been missing for longer than the grace.
spec fn within_grace(entries: Seq<CacheEntry>) -> bool {
    forall|i: int| 0 <= i < entries.len() ==> (#[trigger] entries[i]).misses <= CACHE_MISS_GRACE
}

/// There is an entry of the device `id`.
spec fn has_entry(entries: Seq<CacheEntry>, id: CacheIdentity) -> bool {
    exists|i: int| 0 <= i < entries.len() && (#[trigger] entries[i]).key@ == id
}

/// The position of an entry of the device `id`.
spec fn entry_at(entries: Seq<CacheEntry>, id: CacheIdentity) -> int {
    choose|i: int| 0 <= i < entries.len() && (#[trigger] entries[i]).key@ == id
}

/// The memoized probe of each device, and the ticks it has been missing for.
spec fn contents(entries: Seq<CacheEntry>) -> Map<CacheIdentity, (Cached, int)> {
    Map::new(
        |id: CacheIdentity| has_entry(entries, id),
        |id: CacheIdentity|
            {
                let entry = entries[entry_at(entries, id)];
                (entry.cached, entry.misses as int)
            },
    )
}

/// One of `keys` is the device `id`.
pub open spec fn names(keys: Seq<CacheKey>, id: CacheIdentity) -> bool {
    exists|i: int| 0 <= i < keys.len() && (#[trigger] keys[i])@ == id
}

/// What is left of `cache` after a tick on which the devices `seen` were there:
/// those devices are not missing any more, and the others have missed one more
/// tick, which evicts them once they missed more than the grace.
pub open spec fn aged(
    cache: Map<CacheIdentity, (Cached, int)>,
    seen: spec_fn(CacheIdentity) -> bool,
) -> Map<CacheIdentity, (Cached, int)> {
    Map::new(
        |id: CacheIdentity|
            cache.contains_key(id) && (seen(id) || cache[id].1 + 1 <= CACHE_MISS_GRACE),
        |id: CacheIdentity|
            (
                cache[id].0,
                if seen(id) {
                    0
                } else {
                    cache[id].1 + 1
                },
            ),
    )
}

/// `cache` with a probe of the device `id` memoized. That alone does not count as
/// a sighting.
pub open spec fn memoized(
    cache: Map<CacheIdentity, (Cached, int)>,
    id: CacheIdentity,
    cached: Cached,
) -> Map<CacheIdentity, (Cached, int)> {
    cache.insert(
        id,
        (
            cached,
            if cache.contains_key(id) {
                cache[id].1
            } else {
                0
            },
        ),
    )
}

/// `cache` with what a device contributes to it.
pub open spec fn applied(
    cache: Map<CacheIdentity, (Cached, int)>,
    outcome: CacheOutcome,
) -> Map<CacheIdentity, (Cached, int)> {
    match outcome {
        CacheOutcome::Fresh(key, cached) | CacheOutcome::Update(key, cached) => memoized(
            cache,
            key@,
            cached,
        ),
        CacheOutcome::Seen(_) | CacheOutcome::Unkeyed => cache,
    }
}

proof fn entry_is_content(entries: Seq<CacheEntry>, i: int)
    requires
        distinct(entries),
        0 <= i < entries.len(),
    ensures
        contents(entries).contains_key(entries[i].key@),
        entry_at(entries, entries[i].key@) == i,
        contents(entries)[entries[i].key@] == (entries[i].cached, entries[i].misses as int),
{
    let id = entries[i].key@;
    let at = entry_at(entries, id);
    assert(has_entry(entries, id));
    assert(entries[at].key@ == id);
    if at < i {
        assert(entries[at].key@ != entries[i].key@);
    } else if i < at {
        assert(entries[i].key@ != entries[at].key@);
    }
}

/// A new entry adds its device to the contents.
proof fn pushed_entry_is_added(entries: Seq<CacheEntry>, entry: CacheEntry)
    requires
        distinct(entries),
        !has_entry(entries, entry.key@),
    ensures
        distinct(entries.push(entry)),
        contents(entries.push(entry)) == contents(entries).insert(
            entry.key@,
            (entry.cached, entry.misses as int),
        ),
{
    let after = entries.push(entry);
    let last = entries.len() as int;
    assert forall|a: int, b: int|
        #![trigger after[a], after[b]]
        0 <= a < b < after.len() implies after[a].key@ != after[b].key@ by {
        assert(after[a] == entries[a]);
        if b < last {
            assert(after[b] == entries[b]);
        }
    }
    entry_is_content(after, last);
    assert forall|id: CacheIdentity| #[trigger]
        contents(entries).contains_key(id) implies contents(after).contains_key(id) && contents(
        after,
    )[id] == contents(entries)[id] && id != entry.key@ by {
        let at = entry_at(entries, id);
        assert(entries[at].key@ == id);
        assert(after[at] == entries[at]);
        entry_is_content(entries, at);
        entry_is_content(after, at);
    }
    assert forall|id: CacheIdentity|
        #[trigger] contents(after).contains_key(id) && id != entry.key@ implies contents(
        entries,
    ).contains_key(id) by {
        let at = entry_at(after, id);
        assert(after[at].key@ == id);
        assert(entries[at] == after[at]);
    }
    assert(contents(after) =~= contents(entries).insert(
        entry.key@,
        (entry.cached, entry.misses as int),
    ));
}

/// What becomes of an entry at the end of a tick.
spec fn survivor(entry: CacheEntry, seen: Seq<CacheKey>) -> Option<CacheEntry> {
    if names(seen, entry.key@) {
        Some(CacheEntry { misses: 0, ..entry })
    } else if entry.misses + 1 <= CACHE_MISS_GRACE {
        Some(CacheEntry { misses: (entry.misses + 1) as u8, ..entry })
    } else {
        None
    }
}

/// What becomes of all entries at the end of a tick.
spec fn survivors(entries: Seq<CacheEntry>, seen: Seq<CacheKey>) -> Seq<CacheEntry>
    decreases entries.len(),
{
    if entries.len() == 0 {
        seq![]
    } else {
        let earlier = survivors(entries.drop_last(), seen);
        match survivor(entries.last(), seen) {
            Some(entry) => earlier.push(entry),
            None => earlier,
        }
    }
}

proof fn survivors_are_aged(entries: Seq<CacheEntry>, seen: Seq<CacheKey>)
    requires
        distinct(entries),
    ensures
        distinct(survivors(entries, seen)),
        contents(survivors(entries, seen)) == aged(
            contents(entries),
            |id: CacheIdentity| names(seen, id),
        ),
        within_grace(survivors(entries, seen)),
    decreases entries.len(),
{
    let there = |id: CacheIdentity| names(seen, id);
    let kept = survivors(entries, seen);
    if entries.len() == 0 {
        assert(contents(kept) =~= aged(contents(entries), there));
    } else {
        let init = entries.drop_last();
        let last = entries.last();
        let earlier = survivors(init, seen);
        assert forall|a: int, b: int|
            #![trigger init[a], init[b]]
            0 <= a < b < init.len() implies init[a].key@ != init[b].key@ by {
            assert(init[a] == entries[a] && init[b] == entries[b]);
        }
        survivors_are_aged(init, seen);
        if has_entry(init, last.key@) {
            let at = entry_at(init, last.key@);
            assert(init[at].key@ == last.key@);
            assert(entries[at] == init[at]);
            assert(entries[at].key@ != entries[entries.len() - 1].key@);
        }
        pushed_entry_is_added(init, last);
        assert(init.push(last) =~= entries);
        assert(!contents(earlier).contains_key(last.key@));
        if let Some(entry) = survivor(last, seen) {
            pushed_entry_is_added(earlier, entry);
        }
        assert(contents(kept) =~= aged(contents(entries), there));
    }
}

impl View for Enumerator {
    type V = Map<CacheIdentity, (Cached, int)>;

    closed spec fn view(&self) -> Map<CacheIdentity, (Cached, int)> {
        contents(self.entries@)
    }
}

impl Default for Enumerator {
    fn default() -> (enumerator: Self)
        ensures
            enumerator@ == Map::<CacheIdentity, (Cached, int)>::empty(),
    {
        let enumerator = Enumerator { entries: Vec::new() };
        assert(enumerator@ =~= Map::<CacheIdentity, (Cached, int)>::empty());
        enumerator
    }
}

fn is_named(keys: &[CacheKey], key: &CacheKey) -> (named: bool)
    ensures
        named == names(keys@, key@),
{
    for i in 0..keys.len()
        invariant
            forall|j: int| 0 <= j < i ==> (#[trigger] keys@[j])@ != key@,
    {
        if keys[i].same(key) {
            return true;
        }
    }
    false
}

impl Enumerator {
    /// At most one entry per device, and none missing for longer than the grace.
    #[verifier::type_invariant]
    spec fn is_well_formed(self) -> bool {
        distinct(self.entries@) && within_grace(self.entries@)
    }

    fn find(&self, key: &CacheKey) -> (position: Option<usize>)
        ensures
            match position {
                Some(i) => i < self.entries@.len() && self.entries@[i as int].key@ == key@
                    && self@.contains_key(key@) && self@[key@] == (
                    self.entries@[i as int].cached,
                    self.entries@[i as int].misses as int,
                ) && self.entries@[i as int].misses <= CACHE_MISS_GRACE,
                None => !self@.contains_key(key@),
            },
    {
        proof {
            use_type_invariant(self);
        }
        for i in 0..self.entries.len()
            invariant
                self.is_well_formed(),
                forall|j: int| 0 <= j < i ==> (#[trigger] self.entries@[j]).key@ != key@,
        {
            if self.entries[i].key.same(key) {
                proof {
                    entry_is_content(self.entries@, i as int);
                }
                return Some(i);
            }
        }
        None
    }

    /// Whether a probe of the device is memoized. No device that has been missing
    /// for longer than the grace is.
    pub fn contains_key(&self, key: &CacheKey) -> (memoized: bool)
        ensures
            memoized == self@.contains_key(key@),
            memoized ==> 0 <= self@[key@].1 <= CACHE_MISS_GRACE,
    {
        self.find(key).is_some()
    }

    /// The memoized probe of the device.
    pub fn get(&self, key: &CacheKey) -> (cached: Option<&Cached>)
        ensures
            match cached {
                Some(entry) => self@.contains_key(key@) && self@[key@].0 == *entry,
                None => !self@.contains_key(key@),
            },
    {
        match self.find(key) {
            Some(i) => Some(&self.entries[i].cached),
            None => None,
        }
    }

    /// Memoizes a probe of the device, in place of an earlier one. That alone does
    /// not count as a sighting.
    pub fn insert(&mut self, key: CacheKey, cached: Cached)
        ensures
            final(self)@ == memoized(old(self)@, key@, cached),
    {
        proof {
            use_type_invariant(&*self);
        }
        let ghost before = self.entries@;
        let ghost value = cached;
        let ghost id = key@;
        let position = self.find(&key);
        let mut entries: Vec<CacheEntry> = Vec::new();
        std::mem::swap(&mut entries, &mut self.entries);
        match position {
            Some(i) => {
                let misses = entries[i].misses;
                entries[i] = CacheEntry { key, cached, misses };
                proof {
                    let after = entries@;
                    entry_is_content(before, i as int);
                    assert forall|j: int| 0 <= j < after.len() implies (#[trigger] after[j]).key@
                        == before[j].key@ by {}
                    assert(distinct(after)) by {
                        assert forall|a: int, b: int|
                            #![trigger after[a], after[b]]
                            0 <= a < b < after.len() implies after[a].key@ != after[b].key@ by {
                            assert(before[a].key@ != before[b].key@);
                        }
                    }
                    entry_is_content(after, i as int);
                    assert forall|other: CacheIdentity| #[trigger]
                        contents(before).contains_key(other) implies contents(after).contains_key(
                        other,
                    ) && (other != id ==> contents(after)[other] == contents(before)[other]) by {
                        let at = entry_at(before, other);
                        assert(before[at].key@ == other);
                        assert(after[at].key@ == other);
                        entry_is_content(before, at);
                        entry_is_content(after, at);
                    }
                    assert forall|other: CacheIdentity| #[trigger]
                        contents(after).contains_key(other) implies contents(before).contains_key(
                        other,
                    ) by {
                        let at = entry_at(after, other);
                        assert(after[at].key@ == other);
                        assert(before[at].key@ == other);
                    }
                    assert(contents(after) =~= contents(before).insert(
                        id,
                        (value, contents(before)[id].1),
                    ));
                }
            },
            None => {
                let entry = CacheEntry { key, cached, misses: 0 };
                proof {
                    pushed_entry_is_added(before, entry);
                }
                entries.push(entry);
            },
        }
        self.entries = entries;
    }

    /// Applies what a device contributes to the cache.
    pub fn apply(&mut self, outcome: CacheOutcome)
        ensures
            final(self)@ == applied(old(self)@, outcome),
    {
        match outcome {
            CacheOutcome::Fresh(key, cached) => self.insert(key, cached),
            CacheOutcome::Update(key, cached) => self.insert(key, cached),
            _ => {},
        }
    }

    /// Ends a tick on which the devices `seen` were there, and evicts the devices
    /// that have been missing for too long.
    pub fn evict_unseen(&mut self, seen: &[CacheKey])
        ensures
            final(self)@ == aged(old(self)@, |id: CacheIdentity| names(seen@, id)),
    {
        proof {
            use_type_invariant(&*self);
        }
        let ghost before = self.entries@;
        let mut kept: Vec<CacheEntry> = Vec::new();
        for i in 0..self.entries.len()
            invariant
                self.entries@ == before,
                self.is_well_formed(),
                kept@ == survivors(before.take(i as int), seen@),
        {
            let entry = &self.entries[i];
            let misses: u8 = if is_named(seen, &entry.key) {
                0
            } else {
                entry.misses + 1
            };
            if misses <= CACHE_MISS_GRACE {
                kept.push(
                    CacheEntry { key: entry.key.clone(), cached: entry.cached.clone(), misses },
                );
            }
            assert(before.take(i + 1).drop_last() =~= before.take(i as int));
        }
        assert(before.take(before.len() as int) =~= before);
        proof {
            survivors_are_aged(before, seen@);
        }
        self.entries = kept;
    }
}

/// The cache after one tick for each item of `seen`, on which the devices it holds
/// of were there.
pub open spec fn after_ticks(
    cache: Map<CacheIdentity, (Cached, int)>,
    seen: Seq<spec_fn(CacheIdentity) -> bool>,
) -> Map<CacheIdentity, (Cached, int)>
    decreases seen.len(),
{
    if seen.len() == 0 {
        cache
    } else {
        aged(after_ticks(cache, seen.drop_last()), seen.last())
    }
}

/// A device that has not been missing keeps its entry, unchanged, through
/// [`CACHE_MISS_GRACE`] ticks without it, and loses it on the next: the grace is
/// exact, whatever other devices come and go.
pub proof fn entry_survives_the_grace_exactly(
    cache: Map<CacheIdentity, (Cached, int)>,
    id: CacheIdentity,
    seen: Seq<spec_fn(CacheIdentity) -> bool>,
)
    requires
        cache.contains_key(id),
        0 <= cache[id].1,
        forall|i: int| 0 <= i < seen.len() ==> !(#[trigger] seen[i])(id),
    ensures
        after_ticks(cache, seen).contains_key(id) <==> cache[id].1 + seen.len()
            <= CACHE_MISS_GRACE || seen.len() == 0,
        after_ticks(cache, seen).contains_key(id) ==> after_ticks(cache, seen)[id] == (
            cache[id].0,
            cache[id].1 + seen.len(),
        ),
    decreases seen.len(),
{
    if seen.len() > 0 {
        let earlier = seen.drop_last();
        assert forall|i: int| 0 <= i < earlier.len() implies !(#[trigger] earlier[i])(id) by {
            assert(earlier[i] == seen[i]);
        }
        entry_survives_the_grace_exactly(cache, id, earlier);
        assert(!(seen[seen.len() - 1])(id));
    }
}

/// Being seen once resets the ticks a device has been missing for, and changes
/// nothing else of its entry.
pub proof fn a_sighting_resets_the_misses(
    cache: Map<CacheIdentity, (Cached, int)>,
    id: CacheIdentity,
    seen: spec_fn(CacheIdentity) -> bool,
)
    requires
        cache.contains_key(id),
        seen(id),
    ensures
        aged(cache, seen).contains_key(id),
        aged(cache, seen)[id] == (cache[id].0, 0int),
{
}

/// What a device contributes to the cache is what is found there for it, and the
/// entries of other devices stay as they are.
pub proof fn outcome_touches_one_device(
    cache: Map<CacheIdentity, (Cached, int)>,
    key: CacheKey,
    cached: Cached,
    other: CacheIdentity,
)
    requires
        other != key@,
    ensures
        applied(cache, CacheOutcome::Fresh(key, cached)).contains_key(key@),
        applied(cache, CacheOutcome::Fresh(key, cached))[key@].0 == cached,
        applied(cache, CacheOutcome::Update(key, cached)) == applied(
            cache,
            CacheOutcome::Fresh(key, cached),
        ),
        applied(cache, CacheOutcome::Fresh(key, cached)).contains_key(other)
            == cache.contains_key(other),
        cache.contains_key(other) ==> applied(cache, CacheOutcome::Fresh(key, cached))[other]
            == cache[other],
{
}

/// A tick never makes an entry up.
pub proof fn ticks_only_evict(
    cache: Map<CacheIdentity, (Cached, int)>,
    id: CacheIdentity,
    seen: spec_fn(CacheIdentity) -> bool,
)
    ensures
        aged(cache, seen).contains_key(id) ==> cache.contains_key(id) && aged(cache, seen)[id].0
            == cache[id].0,
{
}

/// The nodes to keep: those that were enumerated, and those whose cached channel
/// is still alive, so that a channel survives a gap in the enumeration.
pub fn retained_nodes(enumerated: &HashSet<u64>, cached_channels: &[(u64, bool)]) -> (retained:
    HashSet<u64>)
    ensures
        forall|node: u64| #[trigger]
            retained@.contains(node) <==> enumerated@.contains(node) || cached_channels@.contains(
                (node, true),
            ),
        forall|node: u64| #[trigger]
            retained@.contains(node) <==> is_retained(enumerated@, cached_channels@, node),
{
    let mut retained: HashSet<u64> = HashSet::new();
    for node in it: enumerated.iter()
        invariant
            it.seq() == vstd::std_specs::iter::IteratorSpec::remaining(
                &vstd::std_specs::hash::spec_hash_keys_iter(enumerated),
            ),
            forall|n: u64| #[trigger]
                retained@.contains(n) <==> exists|i: int|
                    0 <= i < it.index() && *(#[trigger] it.seq()[i]) == n,
    {
        retained.insert(*node);
    }
    proof {
        let all = vstd::std_specs::iter::IteratorSpec::remaining(
            &vstd::std_specs::hash::spec_hash_keys_iter(enumerated),
        );
        assert forall|n: u64| #[trigger] retained@.contains(n) <==> enumerated@.contains(n) by {
            assert(all.unref().to_set() == enumerated@);
            if enumerated@.contains(n) {
                assert(all.unref().contains(n));
                let i = choose|i: int| 0 <= i < all.unref().len() && all.unref()[i] == n;
                assert(*all[i] == n);
            }
            if retained@.contains(n) {
                let i = choose|i: int| 0 <= i < all.len() && *(#[trigger] all[i]) == n;
                assert(all.unref()[i] == n);
                assert(all.unref().contains(n));
            }
        }
    }
    for i in 0..cached_channels.len()
        invariant
            forall|n: u64| #[trigger]
                retained@.contains(n) <==> enumerated@.contains(n) || exists|j: int|
                    0 <= j < i && #[trigger] cached_channels@[j] == (n, true),
    {
        let (node, alive) = cached_channels[i];
        if alive {
            retained.insert(node);
        }
    }
    proof {
        assert forall|n: u64| #[trigger] retained@.contains(n) implies enumerated@.contains(n)
            || cached_channels@.contains((n, true)) by {
            if !enumerated@.contains(n) {
                let j = choose|j: int|
                    0 <= j < cached_channels@.len() && #[trigger] cached_channels@[j] == (n, true);
                assert(cached_channels@.contains((n, true)));
            }
        }
    }
    retained
}

/// A one-shot enumeration is good enough: it is complete, or as complete as it
/// will get because two healthy tries in a row found the same, or the last try.
pub open spec fn is_settled(
    previous: Option<Seq<DeviceInventory>>,
    current: Seq<DeviceInventory>,
    complete: bool,
    healthy: bool,
    attempt: usize,
) -> bool {
    ||| complete
    ||| attempt >= ONESHOT_ATTEMPTS
    ||| healthy && (previous matches Some(before) && crate::device::inventories_agree(
        before,
        current,
    ))
}

/// The receivers that an optional slice holds.
pub open spec fn inventories_of(inventories: Option<&[DeviceInventory]>) -> Option<
    Seq<DeviceInventory>,
> {
    match inventories {
        Some(found) => Some(found@),
        None => None,
    }
}

/// Whether a one-shot enumeration stops after try number `attempt`, which found
/// `current` after the one before found `previous`.
pub fn one_shot_should_stop(
    previous: Option<&[DeviceInventory]>,
    current: &[DeviceInventory],
    complete: bool,
    healthy: bool,
    attempt: usize,
) -> (stop: bool)
    ensures
        stop == is_settled(inventories_of(previous), current@, complete, healthy, attempt),
{
    if complete || attempt >= ONESHOT_ATTEMPTS {
        return true;
    }
    match previous {
        Some(before) => healthy && same_inventories(before, current),
        None => false,
    }
}

/// A one-shot enumeration always ends: the last try is the last.
pub proof fn one_shot_is_bounded(
    previous: Option<Seq<DeviceInventory>>,
    current: Seq<DeviceInventory>,
    complete: bool,
    healthy: bool,
    attempt: usize,
)
    requires
        attempt >= ONESHOT_ATTEMPTS,
    ensures
        is_settled(previous, current, complete, healthy, attempt),
{
}

/// An incomplete enumeration that was not healthy is never taken for the truth
/// before the last try, however often it repeats.
pub proof fn unhealthy_inventory_is_not_settled(
    previous: Option<Seq<DeviceInventory>>,
    current: Seq<DeviceInventory>,
    attempt: usize,
)
    requires
        attempt < ONESHOT_ATTEMPTS,
    ensures
        !is_settled(previous, current, false, false, attempt),
{
}

/// A device that was not missing is memoized for three ticks without it, and gone
/// on the fourth.
pub proof fn grace_is_three_ticks(
    cache: Map<CacheIdentity, (Cached, int)>,
    id: CacheIdentity,
    seen: Seq<spec_fn(CacheIdentity) -> bool>,
)
    requires
        cache.contains_key(id),
        cache[id].1 == 0,
        forall|i: int| 0 <= i < seen.len() ==> !(#[trigger] seen[i])(id),
    ensures
        after_ticks(cache, seen).contains_key(id) <==> seen.len() <= 3,
        seen.len() <= 3 ==> after_ticks(cache, seen)[id].0 == cache[id].0,
{
    entry_survives_the_grace_exactly(cache, id, seen);
}

/// A device whose key is among those seen, wherever it stands, keeps its entry and
/// is not missing; a device whose key is not there has missed the tick.
pub proof fn every_seen_key_counts(
    cache: Map<CacheIdentity, (Cached, int)>,
    seen: Seq<CacheKey>,
    id: CacheIdentity,
    i: int,
)
    requires
        cache.contains_key(id),
    ensures
        ({
            let after = aged(cache, |other: CacheIdentity| names(seen, other));
            &&& 0 <= i < seen.len() && seen[i]@ == id ==> after.contains_key(id) && after[id] == (
                cache[id].0,
                0int,
            )
            &&& (forall|j: int| 0 <= j < seen.len() ==> (#[trigger] seen[j])@ != id) ==> (
            after.contains_key(id) <==> cache[id].1 < 3) && (after.contains_key(id) ==> after[id]
                == (cache[id].0, cache[id].1 + 1))
        }),
{
    if 0 <= i < seen.len() && seen[i]@ == id {
        assert(names(seen, id));
    }
}

/// Memoizing a probe does not touch the ticks its device has been missing for; a
/// device that was not memoized has not been missing.
pub proof fn memoizing_is_no_sighting(
    cache: Map<CacheIdentity, (Cached, int)>,
    key: CacheKey,
    cached: Cached,
)
    ensures
        ({
            let after = applied(cache, CacheOutcome::Fresh(key, cached));
            &&& cache.contains_key(key@) ==> after[key@].1 == cache[key@].1
            &&& !cache.contains_key(key@) ==> after[key@].1 == 0
        }),
{
}

/// A sighting, or a device that cannot be cached, changes nothing that is memoized.
pub proof fn sightings_memoize_nothing(
    cache: Map<CacheIdentity, (Cached, int)>,
    outcome: CacheOutcome,
)
    requires
        outcome is Seen || outcome is Unkeyed,
    ensures
        applied(cache, outcome) == cache,
{
}

/// When a one-shot enumeration stops: once it is complete, at the fifth try, or
/// once two tries in a row agree and the last was healthy. A first try that is not
/// complete is never enough.
pub proof fn one_shot_stops_when_settled(
    previous: Option<Seq<DeviceInventory>>,
    current: Seq<DeviceInventory>,
    complete: bool,
    healthy: bool,
    attempt: usize,
)
    ensures
        complete ==> is_settled(previous, current, complete, healthy, attempt),
        attempt >= 5 ==> is_settled(previous, current, complete, healthy, attempt),
        !complete && attempt < 5 ==> (is_settled(previous, current, complete, healthy, attempt)
            <==> healthy && previous is Some && crate::device::inventories_agree(
            previous->0,
            current,
        )),
{
}

/// The previous try is compared as it is, and there is nothing to compare with on
/// the first.
pub proof fn previous_try_is_taken_whole(previous: Option<&[DeviceInventory]>)
    ensures
        match previous {
            Some(found) => inventories_of(previous) == Some(found@),
            None => inventories_of(previous) is None,
        },
{
}

/// `node` was enumerated, or its cached channel is still alive.
pub open spec fn is_retained(
    enumerated: Set<u64>,
    cached_channels: Seq<(u64, bool)>,
    node: u64,
) -> bool {
    enumerated.contains(node) || cached_channels.contains((node, true))
}

/// A node that was enumerated is kept whatever became of its channel, and one that
/// was not as long as its channel is alive; channels that are gone keep nothing,
/// and a node without either is not kept.
pub proof fn gaps_in_the_enumeration_are_bridged(
    enumerated: Set<u64>,
    cached_channels: Seq<(u64, bool)>,
    node: u64,
    i: int,
)
    ensures
        enumerated.contains(node) ==> is_retained(enumerated, cached_channels, node),
        0 <= i < cached_channels.len() && cached_channels[i].0 == node && cached_channels[i].1
            ==> is_retained(enumerated, cached_channels, node),
        !enumerated.contains(node) && (forall|j: int|
            0 <= j < cached_channels.len() ==> (#[trigger] cached_channels[j]).0 != node
                || !cached_channels[j].1) ==> !is_retained(enumerated, cached_channels, node),
{
    if 0 <= i < cached_channels.len() && cached_channels[i].0 == node && cached_channels[i].1 {
        assert(cached_channels[i] == (node, true));
    }
}

} // verus!
