//! Text as sequences of characters.

use vstd::prelude::*;

verus! {

/// `String::push` appends the given character to the end of the string, and
/// changes nothing else.
pub assume_specification[ String::push ](text: &mut String, ch: char)
    ensures
        final(text)@ == old(text)@.push(ch),
;

/// `String::from_utf8` succeeds exactly on valid UTF-8, and then returns the text
/// that the bytes encode.
#[verifier::external_body]
fn string_from_utf8(bytes: Vec<u8>) -> (text: Option<String>)
    ensures
        text is Some <==> vstd::utf8::valid_utf8(bytes@),
        text matches Some(t) ==> t@ == vstd::utf8::decode_utf8(bytes@),
{
    String::from_utf8(bytes).ok()
}

/// The text that `bytes` encode, if they are valid UTF-8.
pub fn utf8_text(bytes: &[u8]) -> (text: Option<String>)
    ensures
        text is Some <==> vstd::utf8::valid_utf8(bytes@),
        text matches Some(t) ==> t@ == vstd::utf8::decode_utf8(bytes@),
{
    let mut owned: Vec<u8> = Vec::new();
    for i in 0..bytes.len()
        invariant
            owned@ == bytes@.take(i as int),
    {
        owned.push(bytes[i]);
        assert(bytes@.take(i as int).push(bytes@[i as int]) =~= bytes@.take(i + 1));
    }
    assert(bytes@.take(bytes@.len() as int) =~= bytes@);
    string_from_utf8(owned)
}

/// The characters of `text`.
pub fn chars_of(text: &str) -> (chars: Vec<char>)
    ensures
        chars@ == text@,
{
    let mut chars: Vec<char> = Vec::new();
    for c in it: text.chars()
        invariant
            it.seq() == text@,
            chars@ == text@.take(it.index() as int),
    {
        chars.push(c);
    }
    chars
}

/// Appends `chars` to `text`.
pub fn append_chars(text: &mut String, chars: &[char])
    ensures
        final(text)@ == old(text)@ + chars@,
{
    let ghost before = text@;
    for i in 0..chars.len()
        invariant
            text@ == before + chars@.take(i as int),
    {
        text.push(chars[i]);
        assert(chars@.take(i as int).push(chars@[i as int]) =~= chars@.take(i + 1));
    }
    assert(chars@.take(chars@.len() as int) =~= chars@);
}

/// `pattern` stands at position `at` of `text`.
pub open spec fn occurs_at(text: Seq<char>, pattern: Seq<char>, at: int) -> bool {
    &&& 0 <= at
    &&& at + pattern.len() <= text.len()
    &&& text.subrange(at, at + pattern.len()) == pattern
}

/// Whether `pattern` stands at position `at` of `text`.
pub fn is_at(text: &[char], pattern: &[char], at: usize) -> (here: bool)
    requires
        at <= text@.len(),
    ensures
        here == occurs_at(text@, pattern@, at as int),
{
    if text.len() - at < pattern.len() {
        return false;
    }
    for i in 0..pattern.len()
        invariant
            at + pattern@.len() <= text.len(),
            forall|j: int| 0 <= j < i ==> text@[at + j] == pattern@[j],
    {
        if text[at + i] != pattern[i] {
            assert(text@.subrange(at as int, at + pattern@.len())[i as int] != pattern@[i as int]);
            return false;
        }
    }
    assert(text@.subrange(at as int, at + pattern@.len()) =~= pattern@);
    true
}

/// The first position of `pattern` in `text`.
pub fn find(text: &[char], pattern: &[char]) -> (position: Option<usize>)
    ensures
        match position {
            Some(at) => occurs_at(text@, pattern@, at as int) && forall|i: int|
                i < at ==> !occurs_at(text@, pattern@, i),
            None => forall|i: int| !occurs_at(text@, pattern@, i),
        },
{
    let mut at: usize = 0;
    while at < text.len()
        invariant
            at <= text@.len(),
            forall|i: int| i < at ==> !occurs_at(text@, pattern@, i),
        decreases text@.len() - at,
    {
        if is_at(text, pattern, at) {
            return Some(at);
        }
        at = at + 1;
    }
    if is_at(text, pattern, at) {
        return Some(at);
    }
    None
}

/// The first position of `wanted` in `text` at or after `from`, or the length of
/// `text`.
pub open spec fn next_char(text: Seq<char>, wanted: char, from: int) -> int
    decreases text.len() - from,
{
    if from >= text.len() {
        text.len() as int
    } else if text[from] == wanted {
        from
    } else {
        next_char(text, wanted, from + 1)
    }
}

/// [`next_char`] is the first position that fits.
pub proof fn next_char_is_first(text: Seq<char>, wanted: char, from: int, at: int)
    requires
        0 <= from <= at <= text.len(),
        at == text.len() || text[at] == wanted,
        forall|i: int| from <= i < at ==> text[i] != wanted,
    ensures
        next_char(text, wanted, from) == at,
    decreases at - from,
{
    if from < at {
        next_char_is_first(text, wanted, from + 1, at);
    }
}

/// The first position of `wanted` in `text` at or after `from`, or the length of
/// `text`.
pub fn find_char(text: &[char], wanted: char, from: usize) -> (at: usize)
    requires
        from <= text@.len(),
    ensures
        at == next_char(text@, wanted, from as int),
        from <= at <= text@.len(),
        at < text@.len() ==> text@[at as int] == wanted,
        forall|i: int| from <= i < at ==> text@[i] != wanted,
{
    let mut at: usize = from;
    while at < text.len() && text[at] != wanted
        invariant
            from <= at <= text@.len(),
            forall|i: int| from <= i < at ==> text@[i] != wanted,
        decreases text@.len() - at,
    {
        at = at + 1;
    }
    proof {
        next_char_is_first(text@, wanted, from as int, at as int);
    }
    at
}

/// An upper-case hexadecimal digit.
pub open spec fn hex_char(digit: int) -> char {
    seq!['0', '1', '2', '3', '4', '5', '6', '7', '8', '9', 'A', 'B', 'C', 'D', 'E', 'F'][digit]
}

/// A 16-bit number in four upper-case hexadecimal digits.
pub open spec fn hex4(number: u16) -> Seq<char> {
    seq![
        hex_char(number as int / 4096),
        hex_char(number as int / 256 % 16),
        hex_char(number as int / 16 % 16),
        hex_char(number as int % 16),
    ]
}

fn hex_digit(digit: u16) -> (c: char)
    requires
        digit < 16,
    ensures
        c == hex_char(digit as int),
{
    let digits: [char; 16] = [
        '0',
        '1',
        '2',
        '3',
        '4',
        '5',
        '6',
        '7',
        '8',
        '9',
        'A',
        'B',
        'C',
        'D',
        'E',
        'F',
    ];
    digits[digit as usize]
}

/// Appends `number` in four upper-case hexadecimal digits.
pub fn push_hex4(chars: &mut Vec<char>, number: u16)
    ensures
        final(chars)@ == old(chars)@ + hex4(number),
{
    chars.push(hex_digit(number / 4096));
    chars.push(hex_digit(number / 256 % 16));
    chars.push(hex_digit(number / 16 % 16));
    chars.push(hex_digit(number % 16));
}

/// The lower-case letter for an upper-case ASCII letter; other characters stay.
pub open spec fn lower_char(c: char) -> char {
    if 'A' <= c && c <= 'Z' {
        ((c as int) + 32) as char
    } else {
        c
    }
}

/// `text` with its ASCII letters in lower case.
pub open spec fn lower(text: Seq<char>) -> Seq<char> {
    text.map_values(|c: char| lower_char(c))
}

/// The lower-case letter for an upper-case ASCII letter; other characters stay.
pub fn to_lower(c: char) -> (lowered: char)
    ensures
        lowered == lower_char(c),
{
    if 'A' <= c && c <= 'Z' {
        ((c as u8) + 32) as char
    } else {
        c
    }
}

/// The characters of `text` with ASCII letters in lower case.
pub fn lower_chars(text: &str) -> (chars: Vec<char>)
    ensures
        chars@ == lower(text@),
{
    let mut chars: Vec<char> = Vec::new();
    for c in it: text.chars()
        invariant
            it.seq() == text@,
            chars@ == lower(text@).take(it.index() as int),
    {
        chars.push(to_lower(c));
        assert(lower(text@).take(it.index() as int).push(lower_char(c)) =~= lower(text@).take(
            it.index() + 1,
        ));
    }
    assert(lower(text@).take(text@.len() as int) =~= lower(text@));
    chars
}

/// A pattern stands at a position exactly if all its characters do, one by one.
pub proof fn occurrence_is_character_by_character(text: Seq<char>, pattern: Seq<char>, at: int)
    ensures
        occurs_at(text, pattern, at) <==> 0 <= at && at + pattern.len() <= text.len() && forall|
            k: int,
        |
            0 <= k < pattern.len() ==> text[at + k] == #[trigger] pattern[k],
{
    if 0 <= at && at + pattern.len() <= text.len() {
        let part = text.subrange(at, at + pattern.len());
        assert forall|k: int| 0 <= k < pattern.len() implies part[k] == text[at + k] by {}
        if forall|k: int| 0 <= k < pattern.len() ==> text[at + k] == #[trigger] pattern[k] {
            assert(part =~= pattern);
        }
        if occurs_at(text, pattern, at) {
            assert forall|k: int| 0 <= k < pattern.len() implies text[at + k]
                == #[trigger] pattern[k] by {
                assert(part[k] == pattern[k]);
            }
        }
    }
}

/// [`next_char`] passes over no wanted character, and stops at one or at the end.
pub proof fn next_char_stops_at_the_first(text: Seq<char>, wanted: char, from: int)
    requires
        0 <= from <= text.len(),
    ensures
        from <= next_char(text, wanted, from) <= text.len(),
        next_char(text, wanted, from) < text.len() ==> text[next_char(text, wanted, from)]
            == wanted,
        forall|i: int| from <= i < next_char(text, wanted, from) ==> text[i] != wanted,
    decreases text.len() - from,
{
    if from < text.len() && text[from] != wanted {
        next_char_stops_at_the_first(text, wanted, from + 1);
    }
}

/// The digits of a number: those up to 9 and the letters from `A` on, in a row.
pub proof fn hex_digits_are_in_a_row(digit: int)
    requires
        0 <= digit < 16,
    ensures
        digit < 10 ==> hex_char(digit) as int == '0' as int + digit,
        digit >= 10 ==> hex_char(digit) as int == 'A' as int + digit - 10,
{
}

/// A number can be read back from its four digits.
pub proof fn hex_numbers_are_read_back(number: u16, a: int, b: int, c: int, d: int)
    requires
        0 <= a < 16,
        0 <= b < 16,
        0 <= c < 16,
        0 <= d < 16,
        number == a * 4096 + b * 256 + c * 16 + d,
    ensures
        hex4(number) == seq![hex_char(a), hex_char(b), hex_char(c), hex_char(d)],
{
    digits_of_a_number(number as int, a, b, c, d);
}

proof fn digits_of_a_number(number: int, a: int, b: int, c: int, d: int)
    requires
        0 <= a < 16,
        0 <= b < 16,
        0 <= c < 16,
        0 <= d < 16,
        number == a * 4096 + b * 256 + c * 16 + d,
    ensures
        number / 4096 == a,
        number / 256 % 16 == b,
        number / 16 % 16 == c,
        number % 16 == d,
{
    assert(number / 256 == a * 16 + b);
    assert(number / 16 == (a * 16 + b) * 16 + c);
}

/// Lowering a character moves the upper-case letters, and only those, to the
/// lower-case ones in their order; it does so character by character, and doing it
/// twice is doing it once.
pub proof fn lowering_moves_upper_case_letters(text: Seq<char>, i: int)
    requires
        0 <= i < text.len(),
    ensures
        lower(text).len() == text.len(),
        'A' <= text[i] && text[i] <= 'Z' ==> lower(text)[i] as int - 'a' as int == text[i] as int
            - 'A' as int,
        text[i] < 'A' || text[i] > 'Z' ==> lower(text)[i] == text[i],
        lower(lower(text)) == lower(text),
{
    assert(lower(lower(text)) =~= lower(text));
}

} // verus!
