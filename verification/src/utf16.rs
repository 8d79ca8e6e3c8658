//! UTF-16 encoding of text for the wide-character Win32 calls, and the
//! little-endian byte form in which the registry stores such text.

use vstd::prelude::*;
use crate::text::chars_of;

verus! {

/// The UTF-16 code units of one character: a single unit for the Basic
/// Multilingual Plane, a surrogate pair above it.
pub open spec fn utf16_char(c: char) -> Seq<u16> {
    let v = c as u32;
    if v < 0x10000 {
        seq![v as u16]
    } else {
        let u = v - 0x10000;
        seq![(0xD800 + u / 0x400) as u16, (0xDC00 + u % 0x400) as u16]
    }
}

/// The UTF-16 encoding of a character sequence (what `str::encode_utf16` yields).
pub open spec fn utf16(s: Seq<char>) -> Seq<u16>
    decreases s.len(),
{
    if s.len() == 0 {
        seq![]
    } else {
        utf16(s.drop_last()) + utf16_char(s.last())
    }
}

/// The encoding of a single character, appended to `out`.
fn push_utf16_char(out: &mut Vec<u16>, c: char)
    ensures
        final(out)@ == old(out)@ + utf16_char(c),
{
    let v = c as u32;
    if v < 0x10000 {
        out.push(v as u16);
    } else {
        let u = v - 0x10000;
        assert(u < 0x100000) by {
            assert(v <= 0x10FFFF);
        }
        out.push((0xD800 + u / 0x400) as u16);
        out.push((0xDC00 + u % 0x400) as u16);
    }
    assert(out@ =~= old(out)@ + utf16_char(c));
}

/// The UTF-16 encoding of `s`, without a terminator.
pub fn wn(s: &str) -> (res: Vec<u16>)
    ensures
        res@ == utf16(s@),
{
    let cs = chars_of(s);
    let mut res: Vec<u16> = Vec::new();
    let mut i: usize = 0;
    while i < cs.len()
        invariant
            i <= cs@.len(),
            cs@ == s@,
            res@ == utf16(cs@.take(i as int)),
        decreases cs@.len() - i,
    {
        assert(cs@.take(i + 1).drop_last() == cs@.take(i as int));
        push_utf16_char(&mut res, cs[i]);
        i = i + 1;
    }
    assert(cs@.take(cs@.len() as int) == cs@);
    res
}

/// The UTF-16 encoding of `s` followed by a NUL unit, as wide-string Win32
/// parameters take it.
pub fn w(s: &str) -> (res: Vec<u16>)
    ensures
        res@ == utf16(s@).push(0),
{
    let mut res = wn(s);
    res.push(0);
    res
}

/// The little-endian bytes of a sequence of 16-bit units, low byte first.
pub open spec fn le_bytes(units: Seq<u16>) -> Seq<u8>
    decreases units.len(),
{
    if units.len() == 0 {
        seq![]
    } else {
        le_bytes(units.drop_last()) + seq![(units.last() % 256) as u8, (units.last() / 256) as u8]
    }
}

/// The little-endian bytes of `units`.
pub fn to_le_bytes(units: &[u16]) -> (res: Vec<u8>)
    ensures
        res@ == le_bytes(units@),
        res@.len() == 2 * units@.len(),
{
    let mut res: Vec<u8> = Vec::new();
    let mut i: usize = 0;
    while i < units.len()
        invariant
            i <= units@.len(),
            res@ == le_bytes(units@.take(i as int)),
            res@.len() == 2 * i,
        decreases units@.len() - i,
    {
        assert(units@.take(i + 1).drop_last() == units@.take(i as int));
        let u = units[i];
        res.push((u % 256) as u8);
        res.push((u / 256) as u8);
        i = i + 1;
        assert(res@ =~= le_bytes(units@.take(i as int)));
    }
    assert(units@.take(units@.len() as int) == units@);
    res
}

} // verus!
