//! Conversion between Rust strings and the platform's native text encoding:
//! sequences of 16-bit code units (UTF-16).
//!
//! Text handed to the platform is encoded and terminated by a zero unit; text
//! fetched from the platform is decoded, and rejected when it is not
//! well-formed. Encoding and decoding are inverse to each other.

use vstd::prelude::*;

verus! {

/// A unit that opens a surrogate pair.
pub open spec fn is_high_surrogate(u: u16) -> bool {
    0xD800 <= u <= 0xDBFF
}

/// A unit that closes a surrogate pair.
pub open spec fn is_low_surrogate(u: u16) -> bool {
    0xDC00 <= u <= 0xDFFF
}

/// The code units of one character: the character's own value below
/// `0x10000`, a high and a low surrogate carrying ten bits each above it.
pub open spec fn char_units(c: char) -> Seq<u16> {
    let v = c as int;
    if v < 0x10000 {
        seq![v as u16]
    } else {
        seq![(0xD800 + (v - 0x10000) / 0x400) as u16, (0xDC00 + (v - 0x10000) % 0x400) as u16]
    }
}

/// The code units of a string: those of its characters, in order.
pub open spec fn utf16(s: Seq<char>) -> Seq<u16>
    decreases s.len(),
{
    if s.len() == 0 {
        Seq::<u16>::empty()
    } else {
        utf16(s.drop_last()) + char_units(s.last())
    }
}

/// The form in which text is handed to the platform: the code units of the
/// string followed by one zero unit.
pub open spec fn wide(s: Seq<char>) -> Seq<u16> {
    utf16(s).push(0u16)
}

/// Every high surrogate is directly followed by a low one, and every low
/// surrogate directly preceded by a high one.
pub open spec fn well_formed(units: Seq<u16>) -> bool {
    forall|i: int|
        0 <= i < units.len() ==> {
            &&& is_high_surrogate(#[trigger] units[i]) ==> i + 1 < units.len() && is_low_surrogate(
                units[i + 1],
            )
            &&& is_low_surrogate(units[i]) ==> i > 0 && is_high_surrogate(units[i - 1])
        }
}

/// The string that `units` encodes, if there is one.
pub open spec fn decoded(units: Seq<u16>) -> Option<Seq<char>> {
    if exists|t: Seq<char>| utf16(t) == units {
        Some(choose|t: Seq<char>| utf16(t) == units)
    } else {
        None
    }
}

/// The shape of one character's units: a single unit that is no surrogate, or
/// a high surrogate followed by a low one.
pub proof fn lemma_char_units_shape(c: char)
    ensures
        (c as int) < 0x10000 ==> {
            &&& char_units(c).len() == 1
            &&& char_units(c)[0] == c as int
            &&& !is_high_surrogate(char_units(c)[0])
            &&& !is_low_surrogate(char_units(c)[0])
        },
        (c as int) >= 0x10000 ==> {
            &&& char_units(c).len() == 2
            &&& char_units(c)[0] == 0xD800 + (c as int - 0x10000) / 0x400
            &&& char_units(c)[1] == 0xDC00 + (c as int - 0x10000) % 0x400
            &&& is_high_surrogate(char_units(c)[0])
            &&& is_low_surrogate(char_units(c)[1])
        },
{
}

/// Appending a character appends its units.
pub proof fn lemma_utf16_push(s: Seq<char>, c: char)
    ensures
        utf16(s.push(c)) == utf16(s) + char_units(c),
{
    assert(s.push(c).drop_last() =~= s);
}

/// Two characters with the same units are the same character.
pub proof fn lemma_char_units_injective(a: char, b: char)
    requires
        char_units(a) == char_units(b),
    ensures
        a == b,
{
    lemma_char_units_shape(a);
    lemma_char_units_shape(b);
    let va = a as int;
    let vb = b as int;
    if va < 0x10000 {
        assert(char_units(b).len() == 1);
        assert(char_units(a)[0] == char_units(b)[0]);
    } else {
        assert(char_units(b).len() == 2);
        assert(char_units(a)[0] == char_units(b)[0]);
        assert(char_units(a)[1] == char_units(b)[1]);
        assert(va == vb);
    }
}

/// Two strings with the same units are the same string.
pub proof fn lemma_utf16_injective(a: Seq<char>, b: Seq<char>)
    requires
        utf16(a) == utf16(b),
    ensures
        a == b,
    decreases a.len(),
{
    if a.len() == 0 || b.len() == 0 {
        if a.len() > 0 {
            lemma_char_units_shape(a.last());
            assert(utf16(a).len() >= char_units(a.last()).len());
        }
        if b.len() > 0 {
            lemma_char_units_shape(b.last());
            assert(utf16(b).len() >= char_units(b.last()).len());
        }
        assert(a.len() == 0 && b.len() == 0);
        assert(a =~= b);
    } else {
        let ua = utf16(a.drop_last());
        let ub = utf16(b.drop_last());
        let ca = char_units(a.last());
        let cb = char_units(b.last());
        lemma_char_units_shape(a.last());
        lemma_char_units_shape(b.last());
        let whole = utf16(a);
        assert(whole == ua + ca);
        assert(whole == ub + cb);
        assert(whole[whole.len() - 1] == ca[ca.len() - 1]);
        assert(whole[whole.len() - 1] == cb[cb.len() - 1]);
        assert(ca.len() == cb.len());
        assert(ua.len() == ub.len());
        assert(ca =~= cb) by {
            assert forall|i: int| 0 <= i < ca.len() implies ca[i] == cb[i] by {
                assert(whole[ua.len() + i] == ca[i]);
                assert(whole[ub.len() + i] == cb[i]);
            }
        }
        assert(ua =~= ub) by {
            assert forall|i: int| 0 <= i < ua.len() implies ua[i] == ub[i] by {
                assert(whole[i] == ua[i]);
                assert(whole[i] == ub[i]);
            }
        }
        lemma_char_units_injective(a.last(), b.last());
        lemma_utf16_injective(a.drop_last(), b.drop_last());
        assert(a =~= a.drop_last().push(a.last()));
        assert(b =~= b.drop_last().push(b.last()));
    }
}

/// The units of a string are well-formed, and do not end in a high surrogate.
pub proof fn lemma_utf16_well_formed(s: Seq<char>)
    ensures
        well_formed(utf16(s)),
        utf16(s).len() > 0 ==> !is_high_surrogate(utf16(s).last()),
    decreases s.len(),
{
    if s.len() > 0 {
        let head = utf16(s.drop_last());
        let tail = char_units(s.last());
        lemma_utf16_well_formed(s.drop_last());
        lemma_char_units_shape(s.last());
        let whole = utf16(s);
        assert(whole == head + tail);
        assert forall|i: int| 0 <= i < whole.len() implies {
            &&& is_high_surrogate(#[trigger] whole[i]) ==> i + 1 < whole.len() && is_low_surrogate(
                whole[i + 1],
            )
            &&& is_low_surrogate(whole[i]) ==> i > 0 && is_high_surrogate(whole[i - 1])
        } by {
            if i < head.len() {
                assert(whole[i] == head[i]);
                if i + 1 < head.len() {
                    assert(whole[i + 1] == head[i + 1]);
                }
                if i > 0 {
                    assert(whole[i - 1] == head[i - 1]);
                }
            } else {
                assert(whole[i] == tail[i - head.len()]);
                if i + 1 < whole.len() {
                    assert(whole[i + 1] == tail[i + 1 - head.len()]);
                }
                if i > head.len() {
                    assert(whole[i - 1] == tail[i - 1 - head.len()]);
                }
            }
        }
        assert(whole.last() == tail.last());
    }
}

/// What a string encodes to decodes to that string, and to no other.
pub proof fn lemma_decoded_utf16(s: Seq<char>)
    ensures
        decoded(utf16(s)) == Some(s),
{
    let t = choose|t: Seq<char>| utf16(t) == utf16(s);
    lemma_utf16_injective(t, s);
}

/// Encodes `s` for the platform: its code units, then a terminating zero.
pub fn to_wchar(s: &str) -> (units: Vec<u16>)
    ensures
        units@ == wide(s@),
{
    let mut units: Vec<u16> = Vec::new();
    for c in it: s.chars()
        invariant
            it.seq() == s@,
            units@ == utf16(s@.take(it.index())),
    {
        proof {
            let done = s@.take(it.index());
            lemma_utf16_push(done, c);
            assert(done.push(c) =~= s@.take(it.index() + 1));
            lemma_char_units_shape(c);
        }
        let code: u32 = c as u32;
        if code < 0x10000 {
            units.push(code as u16);
        } else {
            let rest: u32 = code - 0x10000;
            units.push((0xD800 + rest / 0x400) as u16);
            units.push((0xDC00 + rest % 0x400) as u16);
        }
        assert(units@ =~= utf16(s@.take(it.index())) + char_units(c));
    }
    proof {
        assert(s@.take(s@.len() as int) =~= s@);
    }
    units.push(0);
    units
}

/// A value that is a character: any but a surrogate, up to `0x10FFFF`.
pub open spec fn is_scalar(i: u32) -> bool {
    i < 0xD800 || (0xE000 <= i && i <= 0x10FFFF)
}

/// `char::from_u32` of the standard library: the character with the value
/// `i` where `i` is the value of a character, and nothing otherwise.
pub assume_specification[ char::from_u32 ](i: u32) -> (r: Option<char>)
    ensures
        r == (if is_scalar(i) {
            Some(i as char)
        } else {
            None::<char>
        }),
;

/// `String::push` of the standard library: the string with `ch` appended.
pub assume_specification[ String::push ](s: &mut String, ch: char)
    ensures
        final(s)@ == old(s)@.push(ch),
;

/// Decodes text fetched from the platform. There is a result exactly when
/// `units` is well-formed, and it is the one string that `units` encodes.
pub fn from_wchar(units: &[u16]) -> (text: Option<String>)
    ensures
        text is Some <==> well_formed(units@),
        match text {
            Some(s) => decoded(units@) == Some(s@),
            None => decoded(units@) is None,
        },
{
    let n = units.len();
    let mut out = String::new();
    let mut i: usize = 0;
    while i < n
        invariant
            n == units@.len(),
            i <= n,
            utf16(out@) == units@.take(i as int),
            i > 0 ==> !is_high_surrogate(units@[i - 1]),
        decreases n - i,
    {
        let unit: u16 = units[i];
        let mut code: u32 = unit as u32;
        let mut width: usize = 1;
        if 0xD800 <= unit && unit <= 0xDFFF {
            let paired = unit <= 0xDBFF && i + 1 < n && 0xDC00 <= units[i + 1] && units[i + 1]
                <= 0xDFFF;
            if !paired {
                proof {
                    assert(!well_formed(units@));
                    assert forall|t: Seq<char>| utf16(t) != units@ by {
                        lemma_utf16_well_formed(t);
                    }
                }
                return None;
            }
            let low: u32 = units[i + 1] as u32;
            code = 0x10000 + (code - 0xD800) * 0x400 + (low - 0xDC00);
            width = 2;
        }
        match char::from_u32(code) {
            Some(c) => {
                proof {
                    lemma_char_units_shape(c);
                    lemma_utf16_push(out@, c);
                    assert(units@.take(i as int) + char_units(c) =~= units@.take(i + width));
                }
                out.push(c);
                i = i + width;
            },
            None => {
                return None;
            },
        }
    }
    proof {
        assert(units@.take(n as int) =~= units@);
        lemma_utf16_well_formed(out@);
        lemma_decoded_utf16(out@);
    }
    Some(out)
}

} // verus!
