//! Release version tags such as `v1.2.3`, read as `(major, minor, patch)`.

use vstd::prelude::*;
use crate::text::{
    all_digits, chars_of, digits_value, is_digit, is_white_space, lemma_trimmed_ends, back_white,
    parse_u32, parse_u32_chars, skip_white, trim, unsigned_body,
    trim_bounds,
};

verus! {

/// `s` without its leading `v` characters (`trim_start_matches('v')`).
pub open spec fn strip_v(s: Seq<char>) -> Seq<char>
    decreases s.len(),
{
    if s.len() > 0 && s[0] == 'v' {
        strip_v(s.drop_first())
    } else {
        s
    }
}

/// The characters that separate version fields.
pub open spec fn is_separator(c: char) -> bool {
    c == '.' || c == '-' || c == '+'
}

/// The index of the first separator at or after `i`, or the length of `s`.
pub open spec fn field_end(s: Seq<char>, i: int) -> int
    decreases s.len() - i,
{
    if 0 <= i < s.len() && !is_separator(s[i]) {
        field_end(s, i + 1)
    } else {
        i
    }
}

/// The `k`-th piece, counting from 0, that `str::split` on the separators yields
/// for the part of `s` starting at `start`; `None` when there are fewer pieces.
pub open spec fn piece(s: Seq<char>, start: int, k: nat) -> Option<Seq<char>>
    decreases k,
{
    let end = field_end(s, start);
    if k == 0 {
        Some(s.subrange(start, end))
    } else if end < s.len() {
        piece(s, end + 1, (k - 1) as nat)
    } else {
        None
    }
}

/// The number a piece stands for: the piece, trimmed, parsed as a `u32`; 0 when
/// the piece is missing or does not parse.
pub open spec fn field_value(p: Option<Seq<char>>) -> u32 {
    match p {
        Some(x) => match parse_u32(trim(x)) {
            Some(v) => v,
            None => 0,
        },
        None => 0,
    }
}

/// The `(major, minor, patch)` that a version tag stands for: the tag trimmed,
/// its leading `v`s dropped, split at `.`, `-` and `+`, and the first three
/// pieces read as numbers.
pub open spec fn version_of(s: Seq<char>) -> (u32, u32, u32) {
    let t = strip_v(trim(s));
    (field_value(piece(t, 0, 0)), field_value(piece(t, 0, 1)), field_value(piece(t, 0, 2)))
}

/// Lexicographic order on version triples, as tuples compare.
pub open spec fn version_le(a: (u32, u32, u32), b: (u32, u32, u32)) -> bool {
    ||| a.0 < b.0
    ||| a.0 == b.0 && a.1 < b.1
    ||| a.0 == b.0 && a.1 == b.1 && a.2 <= b.2
}

/// A version as one number: major, minor and patch as the digits of a number
/// in base 2^32, the major one most significant.
pub open spec fn version_rank(v: (u32, u32, u32)) -> int {
    v.0 * 0x1_0000_0000_0000_0000 + v.1 * 0x1_0000_0000 + v.2
}

/// Version order is numeric order: `a` is at most `b` exactly when its rank is,
/// so a larger major wins whatever follows, then a larger minor, then a larger patch.
pub proof fn lemma_version_order(a: (u32, u32, u32), b: (u32, u32, u32))
    ensures
        version_le(a, b) <==> version_rank(a) <= version_rank(b),
        a.0 != b.0 ==> (version_le(a, b) <==> a.0 < b.0),
        a.0 == b.0 && a.1 != b.1 ==> (version_le(a, b) <==> a.1 < b.1),
        a.0 == b.0 && a.1 == b.1 ==> (version_le(a, b) <==> a.2 <= b.2),
        version_le(a, b) || version_le(b, a),
        version_le(a, b) && version_le(b, a) ==> a == b,
{
}

/// The value of one piece `s[lo..hi]`.
fn field_number(s: &[char], lo: usize, hi: usize) -> (r: u32)
    requires
        lo <= hi <= s@.len(),
    ensures
        r == field_value(Some(s@.subrange(lo as int, hi as int))),
{
    let part = &s[lo..hi];
    let (a, b) = trim_bounds(part);
    match parse_u32_chars(&part[a..b]) {
        Some(v) => v,
        None => 0,
    }
}

/// The `(major, minor, patch)` of a version tag, as `version_of` describes it.
pub fn ver_tuple(s: &str) -> (r: (u32, u32, u32))
    ensures
        r == version_of(s@),
{
    let all = chars_of(s);
    let (lo, hi) = trim_bounds(all.as_slice());
    let mut start = lo;
    while start < hi && all[start] == 'v'
        invariant
            lo <= start <= hi <= all@.len(),
            strip_v(trim(s@)) == strip_v(all@.subrange(start as int, hi as int)),
            all@ == s@,
        decreases hi - start,
    {
        assert(all@.subrange(start as int, hi as int).drop_first() =~= all@.subrange(
            start + 1,
            hi as int,
        ));
        start = start + 1;
    }
    let t = &all[start..hi];
    let ghost ts = strip_v(trim(s@));
    assert(t@ == ts) by {
        assert(all@.subrange(start as int, hi as int) == t@);
    }
    // Walk the first three pieces.
    let mut fields: [u32; 3] = [0, 0, 0];
    let mut pos: usize = 0;
    let mut k: usize = 0;
    let mut more = true;
    while k < 3
        invariant
            t@ == ts,
            k <= 3,
            pos <= t@.len(),
            more ==> forall|m: nat| #[trigger] piece(ts, pos as int, m) == piece(ts, 0, (m + k) as nat),
            !more ==> forall|m: nat| k <= m ==> #[trigger] piece(ts, 0, m) is None,
            forall|m: int| 0 <= m < k ==> #[trigger] fields@[m] == field_value(piece(ts, 0, m as nat)),
        decreases 3 - k,
    {
        if more {
            let mut end = pos;
            while end < t.len() && !(t[end] == '.' || t[end] == '-' || t[end] == '+')
                invariant
                    pos <= end <= t@.len(),
                    field_end(t@, pos as int) == field_end(t@, end as int),
                decreases t@.len() - end,
            {
                end = end + 1;
            }
            assert(piece(ts, pos as int, 0) == piece(ts, 0, k as nat));
            let v = field_number(t, pos, end);
            fields[k] = v;
            if end < t.len() {
                assert forall|m: nat| #[trigger] piece(ts, (end + 1) as int, m) == piece(
                    ts,
                    0,
                    (m + k + 1) as nat,
                ) by {
                    assert(piece(ts, pos as int, m + 1) == piece(ts, 0, (m + 1 + k) as nat));
                }
                pos = end + 1;
            } else {
                assert forall|m: nat| (k + 1) as nat <= m implies #[trigger] piece(ts, 0, m) is None by {
                    assert(piece(ts, pos as int, (m - k) as nat) == piece(ts, 0, m));
                }
                more = false;
            }
        } else {
            assert(piece(ts, 0, k as nat) is None);
            fields[k] = 0;
        }
        k = k + 1;
    }
    assert(fields@[0] == field_value(piece(ts, 0, 0)));
    assert(fields@[1] == field_value(piece(ts, 0, 1)));
    assert(fields@[2] == field_value(piece(ts, 0, 2)));
    (fields[0], fields[1], fields[2])
}

/// A leading `v` changes nothing: for a tag without white space at either end,
/// `v` followed by the tag stands for the same version as the tag itself.
pub proof fn lemma_leading_v(s: Seq<char>)
    requires
        trim(s) == s,
    ensures
        version_of(seq!['v'] + s) == version_of(s),
{
    let t = seq!['v'] + s;
    lemma_trimmed_ends(s);
    assert(!is_white_space('v'));
    assert(t[0] == 'v');
    assert(skip_white(t, 0) == 0);
    if s.len() > 0 {
        assert(t[t.len() - 1] == s[s.len() - 1]);
    }
    assert(back_white(t, 0, t.len() as int) == t.len());
    assert(t.subrange(0, t.len() as int) =~= t);
    assert(trim(t) == t);
    assert(t.drop_first() =~= s);
    assert(strip_v(t) == strip_v(s));
}

proof fn lemma_digit_char(c: char)
    requires
        is_digit(c),
    ensures
        !is_white_space(c),
        !is_separator(c),
        c != 'v',
        c != '+',
{
}

/// A text whose first and last characters are not white space is its own trim.
proof fn lemma_trim_plain(s: Seq<char>)
    requires
        s.len() > 0,
        !is_white_space(s[0]),
        !is_white_space(s[s.len() - 1]),
    ensures
        trim(s) == s,
{
    assert(skip_white(s, 0) == 0);
    assert(back_white(s, 0, s.len() as int) == s.len());
    assert(s.subrange(0, s.len() as int) =~= s);
}

/// A run of non-separators from `i` that ends at `j` (a separator, or the end).
proof fn lemma_field_end_run(s: Seq<char>, i: int, j: int)
    requires
        0 <= i <= j <= s.len(),
        forall|k: int| i <= k < j ==> !is_separator(#[trigger] s[k]),
        j == s.len() || is_separator(s[j]),
    ensures
        field_end(s, i) == j,
    decreases j - i,
{
    if i < j {
        lemma_field_end_run(s, i + 1, j);
    }
}

/// A non-empty digit string whose value fits reads as that value.
proof fn lemma_plain_field(x: Seq<char>)
    requires
        x.len() > 0,
        all_digits(x),
        digits_value(x) <= u32::MAX,
    ensures
        field_value(Some(x)) == digits_value(x),
{
    lemma_digit_char(x[0]);
    lemma_digit_char(x[x.len() - 1]);
    lemma_trim_plain(x);
    assert(unsigned_body(x) == x);
}

/// Plain tags read as their numbers: for digit strings `x`, `y`, `z` whose
/// values fit in a `u32`, the tag `x.y.z` (and `vx.y.z`) stands for the version
/// `(x, y, z)`, every field read whole.
pub proof fn lemma_plain_version(x: Seq<char>, y: Seq<char>, z: Seq<char>)
    requires
        x.len() > 0,
        y.len() > 0,
        z.len() > 0,
        all_digits(x),
        all_digits(y),
        all_digits(z),
        digits_value(x) <= u32::MAX,
        digits_value(y) <= u32::MAX,
        digits_value(z) <= u32::MAX,
    ensures
        version_of(x + seq!['.'] + y + seq!['.'] + z) == (
            digits_value(x) as u32,
            digits_value(y) as u32,
            digits_value(z) as u32,
        ),
        version_of(seq!['v'] + (x + seq!['.'] + y + seq!['.'] + z)) == version_of(
            x + seq!['.'] + y + seq!['.'] + z,
        ),
{
    let s = x + seq!['.'] + y + seq!['.'] + z;
    let a = x.len() as int;
    let b = a + 1 + y.len();
    let n = s.len() as int;
    assert(n == b + 1 + z.len());
    assert forall|k: int| 0 <= k < a implies s[k] == x[k] by {}
    assert forall|k: int| 0 <= k < y.len() implies s[a + 1 + k] == y[k] by {}
    assert forall|k: int| 0 <= k < z.len() implies s[b + 1 + k] == z[k] by {}
    assert(s[a] == '.');
    assert(s[b] == '.');
    lemma_digit_char(x[0]);
    lemma_digit_char(z[z.len() - 1]);
    assert(s[n - 1] == z[z.len() - 1]);
    lemma_trim_plain(s);
    assert(strip_v(s) == s);
    assert forall|k: int| 0 <= k < a implies !is_separator(#[trigger] s[k]) by {
        lemma_digit_char(x[k]);
    }
    assert forall|k: int| a + 1 <= k < b implies !is_separator(#[trigger] s[k]) by {
        assert(s[k] == y[k - a - 1]);
        lemma_digit_char(y[k - a - 1]);
    }
    assert forall|k: int| b + 1 <= k < n implies !is_separator(#[trigger] s[k]) by {
        assert(s[k] == z[k - b - 1]);
        lemma_digit_char(z[k - b - 1]);
    }
    lemma_field_end_run(s, 0, a);
    lemma_field_end_run(s, a + 1, b);
    lemma_field_end_run(s, b + 1, n);
    assert(s.subrange(0, a) =~= x);
    assert(s.subrange(a + 1, b) =~= y);
    assert(s.subrange(b + 1, n) =~= z);
    assert(piece(s, 0, 0) == Some(x));
    assert(piece(s, b + 1, 0) == Some(z));
    assert(piece(s, a + 1, 1) == piece(s, b + 1, 0));
    assert(piece(s, 0, 2) == piece(s, a + 1, 1));
    assert(piece(s, a + 1, 0) == Some(y));
    assert(piece(s, 0, 1) == piece(s, a + 1, 0));
    lemma_plain_field(x);
    lemma_plain_field(y);
    lemma_plain_field(z);
    lemma_leading_v(s);
}

/// Whether version `a` is at most version `b` (tuple order).
pub fn version_at_most(a: (u32, u32, u32), b: (u32, u32, u32)) -> (r: bool)
    ensures
        r == version_le(a, b),
{
    a.0 < b.0 || (a.0 == b.0 && a.1 < b.1) || (a.0 == b.0 && a.1 == b.1 && a.2 <= b.2)
}

} // verus!
