//! Text as the platform sees it: UTF-16 code units, and comparison of
//! letters without regard to case.

use vstd::prelude::*;
use vstd::utf8::char_is_scalar;

verus! {

/// The UTF-16 code units of one character: one unit below U+10000, a
/// surrogate pair from there on.
pub open spec fn units_of(c: char) -> Seq<u16> {
    let v = c as u32;
    if v < 0x10000 {
        seq![v as u16]
    } else {
        seq![
            (0xD800 + (v - 0x10000) / 0x400) as u16,
            (0xDC00 + (v - 0x10000) % 0x400) as u16,
        ]
    }
}

/// The UTF-16 encoding of a text, without a terminator.
pub open spec fn utf16(s: Seq<char>) -> Seq<u16>
    decreases s.len(),
{
    if s.len() == 0 {
        seq![]
    } else {
        units_of(s[0]) + utf16(s.drop_first())
    }
}

/// Encoding a text with one more character appends that character's units.
pub proof fn lemma_utf16_push(s: Seq<char>, c: char)
    ensures
        utf16(s.push(c)) == utf16(s) + units_of(c),
    decreases s.len(),
{
    if s.len() == 0 {
        assert(s.push(c).drop_first() =~= s);
        assert(utf16(s.push(c)) =~= utf16(s) + units_of(c));
    } else {
        assert(s.push(c).drop_first() =~= s.drop_first().push(c));
        lemma_utf16_push(s.drop_first(), c);
        assert(utf16(s.push(c)) =~= utf16(s) + units_of(c));
    }
}

/// True when every character of `s` lies below U+10000 and so takes one
/// UTF-16 unit.
pub open spec fn single_units(s: Seq<char>) -> bool {
    forall|i: int| 0 <= i < s.len() ==> 0x10000 > (#[trigger] s[i]) as u32
}

/// A text takes at least one UTF-16 unit for each character, and exactly
/// one where every character lies below U+10000.
pub proof fn lemma_utf16_len(s: Seq<char>)
    ensures
        s.len() <= utf16(s).len(),
        single_units(s) ==> utf16(s).len() == s.len(),
    decreases s.len(),
{
    if s.len() > 0 {
        lemma_utf16_len(s.drop_first());
        if single_units(s) {
            assert forall|i: int| 0 <= i < s.drop_first().len() implies 0x10000 > (
            #[trigger] s.drop_first()[i]) as u32 by {
                assert(s.drop_first()[i] == s[i + 1]);
            }
        }
    }
}

/// The UTF-16 encoding of `text`, without a terminator.
pub fn to_utf16(text: &str) -> (units: Vec<u16>)
    ensures
        units@ == utf16(text@),
{
    let n: usize = text.unicode_len();
    let mut units: Vec<u16> = Vec::new();
    let mut i: usize = 0;
    while i < n
        invariant
            n == text@.len(),
            i <= n,
            units@ == utf16(text@.take(i as int)),
        decreases n - i,
    {
        let c: char = text.get_char(i);
        proof {
            char_is_scalar(c);
            lemma_utf16_push(text@.take(i as int), c);
            assert(text@.take(i as int).push(c) =~= text@.take(i as int + 1));
        }
        let v: u32 = c as u32;
        if v < 0x10000 {
            units.push(v as u16);
        } else {
            let w: u32 = v - 0x10000;
            units.push((0xD800 + w / 0x400) as u16);
            units.push((0xDC00 + w % 0x400) as u16);
        }
        assert(units@ =~= utf16(text@.take(i as int)) + units_of(c));
        i = i + 1;
    }
    assert(text@.take(n as int) =~= text@);
    units
}

/// The texts of a sequence of strings, in order.
pub open spec fn texts(strings: Seq<String>) -> Seq<Seq<char>> {
    Seq::new(strings.len(), |i: int| strings[i]@)
}

/// The code of a character with the letters `A` to `Z` taken as `a` to `z`.
/// No other letter is folded: `É` and `é` stay apart, though the platform
/// takes them for the same letter.
pub open spec fn folded(c: char) -> u32 {
    let v = c as u32;
    if 0x41 <= v <= 0x5A {
        (v + 0x20) as u32
    } else {
        v
    }
}

/// True when `text` begins with `prefix`, the letters `A` to `Z` compared
/// without regard to case and every other character exactly.
pub open spec fn begins_with(text: Seq<char>, prefix: Seq<char>) -> bool {
    &&& prefix.len() <= text.len()
    &&& forall|i: int| 0 <= i < prefix.len() ==> folded(#[trigger] prefix[i]) == folded(text[i])
}

/// The folded code of `c`.
pub fn fold(c: char) -> (v: u32)
    ensures
        v == folded(c),
{
    proof {
        char_is_scalar(c);
    }
    let v: u32 = c as u32;
    if 0x41 <= v && v <= 0x5A {
        v + 0x20
    } else {
        v
    }
}

/// Tests whether `text` begins with `prefix` without regard to the case of
/// the letters `A` to `Z`.
pub fn starts_with_ignoring_case(text: &str, prefix: &str) -> (b: bool)
    ensures
        b == begins_with(text@, prefix@),
{
    let n: usize = prefix.unicode_len();
    if n > text.unicode_len() {
        return false;
    }
    let mut i: usize = 0;
    while i < n
        invariant
            n == prefix@.len(),
            n <= text@.len(),
            i <= n,
            forall|j: int| 0 <= j < i ==> folded(#[trigger] prefix@[j]) == folded(text@[j]),
        decreases n - i,
    {
        if fold(prefix.get_char(i)) != fold(text.get_char(i)) {
            return false;
        }
        i = i + 1;
    }
    true
}

/// True when `a` comes before `b` in the order in which a sorting list
/// keeps its rows: by the folded codes of the characters from the first on,
/// a text after each of its proper prefixes. Texts that differ in case only
/// come before neither.
pub open spec fn precedes(a: Seq<char>, b: Seq<char>) -> bool
    decreases a.len(),
{
    if b.len() == 0 {
        false
    } else if a.len() == 0 {
        true
    } else if folded(a[0]) != folded(b[0]) {
        folded(a[0]) < folded(b[0])
    } else {
        precedes(a.drop_first(), b.drop_first())
    }
}

/// Tests whether `a` comes before `b` in the order of a sorting list.
pub fn comes_before(a: &str, b: &str) -> (r: bool)
    ensures
        r == precedes(a@, b@),
{
    let n: usize = a.unicode_len();
    let m: usize = b.unicode_len();
    let mut i: usize = 0;
    assert(a@.skip(0) =~= a@ && b@.skip(0) =~= b@);
    while i < n && i < m
        invariant
            n == a@.len(),
            m == b@.len(),
            i <= n,
            i <= m,
            precedes(a@, b@) == precedes(a@.skip(i as int), b@.skip(i as int)),
        decreases n - i,
    {
        let x: u32 = fold(a.get_char(i));
        let y: u32 = fold(b.get_char(i));
        proof {
            assert(a@.skip(i as int).drop_first() =~= a@.skip(i as int + 1));
            assert(b@.skip(i as int).drop_first() =~= b@.skip(i as int + 1));
        }
        if x != y {
            return x < y;
        }
        i = i + 1;
    }
    i < m
}

} // verus!
