//! Grouping of the HID collections of one interface by their device paths.

use vstd::prelude::*;

use crate::text::{append_chars, find_char, is_at, lower_chars};

verus! {

/// The marker of a collection number in a lower-case device path.
pub open spec fn collection_marker() -> Seq<char> {
    seq!['&', 'c', 'o', 'l']
}

/// The first position in `from..to` at which a collection number starts, or `to`.
pub open spec fn collection_start(path: Seq<char>, from: int, to: int) -> int
    decreases to - from,
{
    if from >= to {
        to
    } else if crate::text::occurs_at(path.take(to), collection_marker(), from) {
        from
    } else {
        collection_start(path, from + 1, to)
    }
}

/// The position of the last `&` in `from..to`, or `to`.
pub open spec fn last_ampersand(path: Seq<char>, from: int, to: int) -> int {
    last_ampersand_before(path, from, to, to)
}

/// The position of the last `&` in `from..below`, or `none`.
pub open spec fn last_ampersand_before(path: Seq<char>, from: int, below: int, none: int) -> int
    decreases below - from,
{
    if below <= from {
        none
    } else if path[below - 1] == '&' {
        below - 1
    } else {
        last_ampersand_before(path, from, below - 1, none)
    }
}

/// The grouping key of a device interface path such as
/// `\\\\?\\HID#VID_046D&PID_C548&MI_02&Col01#7&348660ac&0&0000#{...}`.
///
/// The `#`-separated parts are a prefix, the hardware id, the instance id and the
/// interface class. The hardware id ends in the collection number, and the
/// instance id in a number that goes with it; without both, it is the same for
/// all collections of one interface. Paths without a hardware id and an instance
/// id are their own key. Case does not count.
pub open spec fn collection_key(path: Seq<char>) -> Seq<char> {
    let lowered = crate::text::lower(path);
    let hardware = crate::text::next_char(lowered, '#', 0) + 1;
    let instance = crate::text::next_char(lowered, '#', hardware) + 1;
    if instance > lowered.len() {
        lowered
    } else {
        let end = crate::text::next_char(lowered, '#', instance);
        lowered.subrange(hardware, collection_start(lowered, hardware, instance - 1)) + seq!['#']
            + lowered.subrange(instance, last_ampersand(lowered, instance, end))
    }
}

fn find_collection(path: &Vec<char>, from: usize, to: usize) -> (at: usize)
    requires
        from <= to <= path@.len(),
    ensures
        at == collection_start(path@, from as int, to as int),
        from <= at <= to,
    decreases to - from,
{
    let mut marker: Vec<char> = Vec::new();
    marker.push('&');
    marker.push('c');
    marker.push('o');
    marker.push('l');
    assert(marker@ =~= collection_marker());
    let head = vstd::slice::slice_subrange(path.as_slice(), 0, to);
    assert(head@ =~= path@.take(to as int));
    let mut at: usize = from;
    while at < to
        invariant
            from <= at <= to <= path@.len(),
            marker@ == collection_marker(),
            head@ == path@.take(to as int),
            collection_start(path@, from as int, to as int) == collection_start(
                path@,
                at as int,
                to as int,
            ),
        decreases to - at,
    {
        if is_at(head, marker.as_slice(), at) {
            return at;
        }
        at = at + 1;
    }
    at
}

fn find_last_ampersand(path: &Vec<char>, from: usize, to: usize) -> (at: usize)
    requires
        from <= to <= path@.len(),
    ensures
        at == last_ampersand(path@, from as int, to as int),
        from <= at <= to,
{
    let mut below: usize = to;
    while below > from
        invariant
            from <= below <= to <= path@.len(),
            last_ampersand(path@, from as int, to as int) == last_ampersand_before(
                path@,
                from as int,
                below as int,
                to as int,
            ),
        decreases below,
    {
        if path[below - 1] == '&' {
            return below - 1;
        }
        below = below - 1;
    }
    to
}

/// The grouping key of a device interface path: the short and long HID++
/// collections of one interface share it, and other interfaces and devices have
/// others.
pub fn normalize_collection_path(path: &str) -> (key: String)
    ensures
        key@ == collection_key(path@),
{
    let lowered = lower_chars(path);
    let mut key = String::new();
    let first = find_char(lowered.as_slice(), '#', 0);
    if first >= lowered.len() {
        append_chars(&mut key, lowered.as_slice());
        return key;
    }
    let hardware: usize = first + 1;
    let second = find_char(lowered.as_slice(), '#', hardware);
    if second >= lowered.len() {
        append_chars(&mut key, lowered.as_slice());
        return key;
    }
    let instance: usize = second + 1;
    let end = find_char(lowered.as_slice(), '#', instance);
    let collection = find_collection(&lowered, hardware, second);
    let number = find_last_ampersand(&lowered, instance, end);
    append_chars(
        &mut key,
        vstd::slice::slice_subrange(lowered.as_slice(), hardware, collection),
    );
    key.push('#');
    append_chars(&mut key, vstd::slice::slice_subrange(lowered.as_slice(), instance, number));
    assert(key@ =~= collection_key(path@));
    key
}

/// The parts of the device interface path of one HID collection.
pub struct CollectionPath {
    /// What comes before the hardware id.
    pub prefix: Seq<char>,
    /// The hardware id of the interface.
    pub hardware: Seq<char>,
    /// The collection number, from its `&Col` on.
    pub collection: Seq<char>,
    /// The instance id of the interface.
    pub instance: Seq<char>,
    /// The number that goes with the collection.
    pub number: Seq<char>,
    /// The interface class.
    pub class: Seq<char>,
}

impl CollectionPath {
    /// The path as one text.
    pub open spec fn text(self) -> Seq<char> {
        self.prefix + seq!['#'] + self.hardware + self.collection + seq!['#'] + self.instance
            + seq!['&'] + self.number + seq!['#'] + self.class
    }

    /// The parts can be told apart: none but the class has a `#` in it, the
    /// number has no `&`, and the hardware id names no collection of its own.
    pub open spec fn is_well_formed(self) -> bool {
        &&& !self.prefix.contains('#')
        &&& !self.hardware.contains('#')
        &&& !self.collection.contains('#')
        &&& !self.instance.contains('#')
        &&& !self.number.contains('#')
        &&& !self.number.contains('&')
        &&& self.collection.len() >= 4
        &&& crate::text::lower(self.collection.take(4)) == collection_marker()
        &&& forall|at: int|
            !#[trigger] crate::text::occurs_at(
                crate::text::lower(self.hardware),
                collection_marker(),
                at,
            )
    }
}

proof fn collection_start_is_first(path: Seq<char>, from: int, to: int, at: int)
    requires
        0 <= from <= at < to <= path.len(),
        crate::text::occurs_at(path.take(to), collection_marker(), at),
        forall|i: int|
            from <= i < at ==> !#[trigger] crate::text::occurs_at(
                path.take(to),
                collection_marker(),
                i,
            ),
    ensures
        collection_start(path, from, to) == at,
    decreases at - from,
{
    if from < at {
        assert(!crate::text::occurs_at(path.take(to), collection_marker(), from));
        collection_start_is_first(path, from + 1, to, at);
    }
}

proof fn last_ampersand_is_last(path: Seq<char>, from: int, below: int, none: int, at: int)
    requires
        0 <= from <= at < below <= path.len(),
        path[at] == '&',
        forall|i: int| at < i < below ==> path[i] != '&',
    ensures
        last_ampersand_before(path, from, below, none) == at,
    decreases below - at,
{
    if at < below - 1 {
        last_ampersand_is_last(path, from, below - 1, none, at);
    }
}

/// The key of a collection is the hardware id and the instance id of its
/// interface, in lower case: neither the collection number nor the number that
/// goes with it counts.
pub proof fn key_names_the_interface(path: CollectionPath)
    requires
        path.is_well_formed(),
    ensures
        collection_key(path.text()) == crate::text::lower(path.hardware) + seq!['#']
            + crate::text::lower(path.instance),
{
    let text = path.text();
    let lowered = crate::text::lower(text);
    let hardware: int = path.prefix.len() as int + 1;
    let collection: int = hardware + path.hardware.len();
    let second: int = collection + path.collection.len();
    let instance: int = second + 1;
    let number: int = instance + path.instance.len();
    let end: int = number + 1 + path.number.len();
    assert(lowered.len() == end + 1 + path.class.len());
    assert forall|i: int| 0 <= i < hardware - 1 implies lowered[i] != '#' by {
        assert(text[i] == path.prefix[i]);
    }
    crate::text::next_char_is_first(lowered, '#', 0, hardware - 1);
    assert forall|i: int| hardware <= i < second implies lowered[i] != '#' by {
        if i < collection {
            assert(text[i] == path.hardware[i - hardware]);
        } else {
            assert(text[i] == path.collection[i - collection]);
        }
    }
    crate::text::next_char_is_first(lowered, '#', hardware, second);
    assert forall|i: int| instance <= i < end implies lowered[i] != '#' by {
        if i < number {
            assert(text[i] == path.instance[i - instance]);
        } else if i > number {
            assert(text[i] == path.number[i - number - 1]);
        }
    }
    crate::text::next_char_is_first(lowered, '#', instance, end);
    let head = lowered.take(second);
    let marker = collection_marker();
    let lowered_hardware = crate::text::lower(path.hardware);
    assert(head.subrange(collection, collection + 4) =~= marker) by {
        let shown = crate::text::lower(path.collection.take(4));
        assert forall|i: int| 0 <= i < 4 implies head.subrange(
            collection,
            collection + 4,
        )[i] == shown[i] by {
            assert(text[collection + i] == path.collection[i]);
        }
    }
    assert forall|i: int| hardware <= i < collection implies !#[trigger] crate::text::occurs_at(
        head,
        marker,
        i,
    ) by {
        if crate::text::occurs_at(head, marker, i) {
            let part = head.subrange(i, i + 4);
            assert(part == marker);
            if i + 4 <= collection {
                assert(lowered_hardware.subrange(i - hardware, i - hardware + 4) =~= part) by {
                    assert forall|k: int| 0 <= k < 4 implies lowered_hardware.subrange(
                        i - hardware,
                        i - hardware + 4,
                    )[k] == part[k] by {
                        assert(text[i + k] == path.hardware[i + k - hardware]);
                    }
                }
                assert(crate::text::occurs_at(lowered_hardware, marker, i - hardware));
            } else {
                let inside = collection - i;
                assert(part[inside] == head[collection]);
                assert(head.subrange(collection, collection + 4)[0] == '&');
            }
        }
    }
    collection_start_is_first(lowered, hardware, second, collection);
    assert(lowered[number] == '&') by {
        assert(text[number] == '&');
    }
    assert forall|i: int| number < i < end implies lowered[i] != '&' by {
        assert(text[i] == path.number[i - number - 1]);
    }
    last_ampersand_is_last(lowered, instance, end, end, number);
    assert(lowered.subrange(hardware, collection) =~= lowered_hardware) by {
        assert forall|k: int| 0 <= k < path.hardware.len() implies lowered.subrange(
            hardware,
            collection,
        )[k] == lowered_hardware[k] by {
            assert(text[hardware + k] == path.hardware[k]);
        }
    }
    assert(lowered.subrange(instance, number) =~= crate::text::lower(path.instance))
        by {
        assert forall|k: int| 0 <= k < path.instance.len() implies lowered.subrange(
            instance,
            number,
        )[k] == crate::text::lower(path.instance)[k] by {
            assert(text[instance + k] == path.instance[k]);
        }
    }
}

/// Two collections share a key exactly if they belong to the same interface of
/// the same device: the same hardware id and the same instance id, up to case.
pub proof fn collections_share_a_key_per_interface(a: CollectionPath, b: CollectionPath)
    requires
        a.is_well_formed(),
        b.is_well_formed(),
    ensures
        collection_key(a.text()) == collection_key(b.text()) <==> crate::text::lower(a.hardware)
            == crate::text::lower(b.hardware) && crate::text::lower(a.instance)
            == crate::text::lower(b.instance),
{
    key_names_the_interface(a);
    key_names_the_interface(b);
    let hardware_a = crate::text::lower(a.hardware);
    let hardware_b = crate::text::lower(b.hardware);
    let key_a = hardware_a + seq!['#'] + crate::text::lower(a.instance);
    let key_b = hardware_b + seq!['#'] + crate::text::lower(b.instance);
    assert forall|i: int| 0 <= i < hardware_a.len() implies hardware_a[i] != '#' by {
        assert(a.hardware[i] != '#');
    }
    assert forall|i: int| 0 <= i < hardware_b.len() implies hardware_b[i] != '#' by {
        assert(b.hardware[i] != '#');
    }
    if key_a == key_b {
        assert(key_a[hardware_a.len() as int] == '#');
        assert(key_b[hardware_b.len() as int] == '#');
        if hardware_a.len() < hardware_b.len() {
            assert(key_b[hardware_a.len() as int] == hardware_b[hardware_a.len() as int]);
        } else if hardware_b.len() < hardware_a.len() {
            assert(key_a[hardware_b.len() as int] == hardware_a[hardware_b.len() as int]);
        }
        assert(hardware_a =~= key_a.take(hardware_a.len() as int));
        assert(hardware_b =~= key_b.take(hardware_b.len() as int));
        assert(crate::text::lower(a.instance) =~= key_a.skip(hardware_a.len() as int + 1));
        assert(crate::text::lower(b.instance) =~= key_b.skip(hardware_b.len() as int + 1));
    }
}

/// A path without a hardware id and an instance id, that is, with fewer than two
/// `#`, is its own key, in lower case.
pub proof fn path_without_parts_is_its_own_key(path: Seq<char>)
    requires
        forall|i: int, j: int|
            #![trigger path[i], path[j]]
            0 <= i < j < path.len() ==> path[i] != '#' || path[j] != '#',
    ensures
        collection_key(path) == crate::text::lower(path),
{
    let lowered = crate::text::lower(path);
    crate::text::next_char_stops_at_the_first(lowered, '#', 0);
    let first = crate::text::next_char(lowered, '#', 0);
    if first < lowered.len() {
        assert(path[first] == '#');
        crate::text::next_char_stops_at_the_first(lowered, '#', first + 1);
        let second = crate::text::next_char(lowered, '#', first + 1);
        if second < lowered.len() {
            assert(path[second] == '#');
        }
    }
}

/// The key of a path with a hardware id and an instance id: each is cut, the
/// hardware id at the first `&col` and the instance id at the last `&`, where there
/// is one, and what is left is joined by a `#`, in lower case.
pub proof fn key_joins_the_cut_parts(
    prefix: Seq<char>,
    hardware: Seq<char>,
    instance: Seq<char>,
    rest: Seq<char>,
    marker: Seq<char>,
    head: int,
    tail: int,
)
    requires
        marker == seq!['&', 'c', 'o', 'l'],
        !prefix.contains('#'),
        !hardware.contains('#'),
        !instance.contains('#'),
        rest.len() == 0 || rest[0] == '#',
        0 <= head <= hardware.len(),
        forall|i: int|
            i < head ==> !#[trigger] crate::text::occurs_at(
                crate::text::lower(hardware),
                marker,
                i,
            ),
        head == hardware.len() || crate::text::occurs_at(
            crate::text::lower(hardware),
            marker,
            head,
        ),
        0 <= tail <= instance.len(),
        tail == instance.len() ==> !instance.contains('&'),
        tail < instance.len() ==> instance[tail] == '&' && forall|i: int|
            tail < i < instance.len() ==> instance[i] != '&',
    ensures
        collection_key(prefix + seq!['#'] + hardware + seq!['#'] + instance + rest)
            == crate::text::lower(hardware.take(head)) + seq!['#'] + crate::text::lower(
            instance.take(tail),
        ),
{
    let text = prefix + seq!['#'] + hardware + seq!['#'] + instance + rest;
    let lowered = crate::text::lower(text);
    assert(marker =~= collection_marker());
    let first: int = prefix.len() as int;
    let start: int = first + 1;
    let second: int = start + hardware.len();
    let after: int = second + 1;
    let end: int = after + instance.len();
    assert(lowered.len() == end + rest.len());
    assert forall|i: int| 0 <= i < first implies lowered[i] != '#' by {
        assert(text[i] == prefix[i]);
    }
    assert(text[first] == '#' && text[second] == '#');
    crate::text::next_char_is_first(lowered, '#', 0, first);
    assert forall|i: int| start <= i < second implies lowered[i] != '#' by {
        assert(text[i] == hardware[i - start]);
    }
    crate::text::next_char_is_first(lowered, '#', start, second);
    assert forall|i: int| after <= i < end implies lowered[i] != '#' by {
        assert(text[i] == instance[i - after]);
    }
    if rest.len() > 0 {
        assert(text[end] == '#');
    }
    crate::text::next_char_is_first(lowered, '#', after, end);
    let until = lowered.take(second);
    let lowered_hardware = crate::text::lower(hardware);
    assert forall|i: int| start <= i <= second implies crate::text::occurs_at(until, marker, i)
        == crate::text::occurs_at(lowered_hardware, marker, i - start) by {
        if i + 4 <= second {
            let part = until.subrange(i, i + 4);
            let same = lowered_hardware.subrange(i - start, i - start + 4);
            assert forall|k: int| 0 <= k < 4 implies #[trigger] part[k] == same[k] by {
                assert(text[i + k] == hardware[i + k - start]);
            }
            assert(part =~= same);
        }
    }
    assert forall|i: int| start <= i < start + head implies !#[trigger] crate::text::occurs_at(
        until,
        marker,
        i,
    ) by {
        assert(!crate::text::occurs_at(lowered_hardware, marker, i - start));
    }
    if head < hardware.len() {
        collection_start_is_first(lowered, start, second, start + head);
    } else {
        no_collection_start(lowered, start, second);
    }
    if tail < instance.len() {
        assert(text[after + tail] == '&');
        assert forall|i: int| after + tail < i < end implies lowered[i] != '&' by {
            assert(text[i] == instance[i - after]);
        }
        last_ampersand_is_last(lowered, after, end, end, after + tail);
    } else {
        assert forall|i: int| after <= i < end implies lowered[i] != '&' by {
            assert(text[i] == instance[i - after]);
        }
        no_ampersand(lowered, after, end, end);
    }
    assert(lowered.subrange(start, start + head) =~= crate::text::lower(hardware.take(head))) by {
        let part = lowered.subrange(start, start + head);
        let same = crate::text::lower(hardware.take(head));
        assert forall|k: int| 0 <= k < head implies #[trigger] part[k] == same[k] by {
            assert(text[start + k] == hardware[k]);
        }
    }
    assert(lowered.subrange(after, after + tail) =~= crate::text::lower(instance.take(tail))) by {
        let part = lowered.subrange(after, after + tail);
        let same = crate::text::lower(instance.take(tail));
        assert forall|k: int| 0 <= k < tail implies #[trigger] part[k] == same[k] by {
            assert(text[after + k] == instance[k]);
        }
    }
}

proof fn no_collection_start(path: Seq<char>, from: int, to: int)
    requires
        0 <= from <= to <= path.len(),
        forall|i: int|
            from <= i < to ==> !#[trigger] crate::text::occurs_at(
                path.take(to),
                collection_marker(),
                i,
            ),
    ensures
        collection_start(path, from, to) == to,
    decreases to - from,
{
    if from < to {
        assert(!crate::text::occurs_at(path.take(to), collection_marker(), from));
        no_collection_start(path, from + 1, to);
    }
}

proof fn no_ampersand(path: Seq<char>, from: int, below: int, none: int)
    requires
        0 <= from <= below <= path.len(),
        forall|i: int| from <= i < below ==> path[i] != '&',
    ensures
        last_ampersand_before(path, from, below, none) == none,
    decreases below - from,
{
    if from < below {
        no_ampersand(path, from, below - 1, none);
    }
}

/// Case does not count: two paths that differ only in the case of letters have the
/// same key.
pub proof fn case_does_not_count(a: Seq<char>, b: Seq<char>)
    requires
        crate::text::lower(a) == crate::text::lower(b),
    ensures
        collection_key(a) == collection_key(b),
{
}

} // verus!
