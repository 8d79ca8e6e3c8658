//! Character-level text helpers shared by the parsers: searching, trimming,
//! decimal rendering and parsing, all stated over the `Seq<char>` view of a string.

use vstd::prelude::*;

verus! {

broadcast use vstd::string::group_string_axioms;

/// `String::push`: appends one character to the end of the string.
#[verifier::external_body]
fn push_char(s: &mut String, c: char)
    ensures
        final(s)@ == old(s)@.push(c),
{
    s.push(c);
}

/// The characters of `s`, in order.
pub fn chars_of(s: &str) -> (res: Vec<char>)
    ensures
        res@ == s@,
{
    let mut res: Vec<char> = Vec::new();
    for c in it: s.chars()
        invariant
            res@ == it.seq().take(it.index() as int),
    {
        res.push(c);
    }
    res
}

/// A string made of the given characters.
pub fn string_from_chars(cs: &[char]) -> (res: String)
    ensures
        res@ == cs@,
{
    let mut res = String::new();
    let mut i: usize = 0;
    while i < cs.len()
        invariant
            i <= cs@.len(),
            res@ == cs@.take(i as int),
        decreases cs@.len() - i,
    {
        push_char(&mut res, cs[i]);
        i = i + 1;
        assert(cs@.take(i as int) == cs@.take(i - 1).push(cs@[i - 1]));
    }
    assert(cs@.take(cs@.len() as int) == cs@);
    res
}

// ---------------------------------------------------------------- searching

/// `pat` occurs in `s` starting at index `i`.
pub open spec fn occurs_at(s: Seq<char>, pat: Seq<char>, i: int) -> bool {
    &&& 0 <= i
    &&& i + pat.len() <= s.len()
    &&& s.subrange(i, i + pat.len()) == pat
}

/// The first index `i >= from` at which `pat` occurs in `s`, as `str::find`
/// on the suffix starting at `from` would report it (shifted by `from`).
pub open spec fn find_from(s: Seq<char>, pat: Seq<char>, from: int) -> Option<int>
    decreases s.len() - from,
{
    if from < 0 || from + pat.len() > s.len() {
        None
    } else if occurs_at(s, pat, from) {
        Some(from)
    } else {
        proof {
            if pat.len() == 0 {
                assert(s.subrange(from, from + pat.len()) =~= pat);
            }
        }
        find_from(s, pat, from + 1)
    }
}

/// What a search result says: a hit is a genuine occurrence at or after `from`,
/// with none before it; a miss means there is no occurrence at or after `from`.
pub proof fn lemma_find_from(s: Seq<char>, pat: Seq<char>, from: int)
    requires
        0 <= from,
    ensures
        find_from(s, pat, from) matches Some(i) ==> {
            &&& from <= i
            &&& occurs_at(s, pat, i)
            &&& forall|j: int| from <= j < i ==> !occurs_at(s, pat, j)
        },
        find_from(s, pat, from) is None ==> forall|j: int| from <= j ==> !occurs_at(s, pat, j),
    decreases s.len() - from,
{
    if from + pat.len() > s.len() {
    } else if occurs_at(s, pat, from) {
    } else {
        if pat.len() == 0 {
            assert(s.subrange(from, from + pat.len()) =~= pat);
        }
        lemma_find_from(s, pat, from + 1);
        if find_from(s, pat, from + 1) is None {
            assert forall|j: int| from <= j implies !occurs_at(s, pat, j) by {
                if j > from {
                }
            }
        }
    }
}

/// Whether `pat` occurs in `s` at index `i`.
pub fn matches_at(s: &[char], pat: &[char], i: usize) -> (res: bool)
    ensures
        res == occurs_at(s@, pat@, i as int),
{
    let n = s.len();
    if i > n || pat.len() > n - i {
        return false;
    }
    let mut k: usize = 0;
    while k < pat.len()
        invariant
            n == s@.len(),
            i + pat@.len() <= s@.len(),
            k <= pat@.len(),
            forall|m: int| 0 <= m < k ==> s@[i + m] == pat@[m],
        decreases pat@.len() - k,
    {
        assert(i + k < s@.len());
        if s[i + k] != pat[k] {
            assert(s@.subrange(i as int, i + pat@.len())[k as int] != pat@[k as int]);
            return false;
        }
        k = k + 1;
    }
    assert(s@.subrange(i as int, i + pat@.len()) =~= pat@);
    true
}

/// The first index at or after `from` at which `pat` occurs in `s`.
pub fn find_in(s: &[char], pat: &[char], from: usize) -> (res: Option<usize>)
    ensures
        res matches Some(i) ==> find_from(s@, pat@, from as int) == Some(i as int),
        res is None ==> find_from(s@, pat@, from as int) is None,
{
    let mut i = from;
    while i <= s.len() && pat.len() <= s.len() - i
        invariant
            from <= i,
            find_from(s@, pat@, from as int) == find_from(s@, pat@, i as int),
        decreases s@.len() + 1 - i,
    {
        if matches_at(s, pat, i) {
            return Some(i);
        }
        if pat.len() == 0 {
            assert(s@.subrange(i as int, i + pat@.len()) =~= pat@);
        }
        i = i + 1;
    }
    None
}

// ---------------------------------------------------------------- whitespace

/// The characters that `char::is_whitespace` accepts: those with the Unicode
/// `White_Space` property.
pub open spec fn is_white_space(c: char) -> bool {
    let v = c as u32;
    ||| 0x09 <= v <= 0x0D
    ||| v == 0x20
    ||| v == 0x85
    ||| v == 0xA0
    ||| v == 0x1680
    ||| 0x2000 <= v <= 0x200A
    ||| v == 0x2028
    ||| v == 0x2029
    ||| v == 0x202F
    ||| v == 0x205F
    ||| v == 0x3000
}

/// Whether `c` is white space in the sense of `char::is_whitespace`.
pub fn white_space(c: char) -> (res: bool)
    ensures
        res == is_white_space(c),
{
    let v = c as u32;
    (0x09 <= v && v <= 0x0D) || v == 0x20 || v == 0x85 || v == 0xA0 || v == 0x1680 || (0x2000
        <= v && v <= 0x200A) || v == 0x2028 || v == 0x2029 || v == 0x202F || v == 0x205F || v
        == 0x3000
}

/// The first index at or after `i` that does not hold white space (or `s.len()`).
pub open spec fn skip_white(s: Seq<char>, i: int) -> int
    decreases s.len() - i,
{
    if 0 <= i < s.len() && is_white_space(s[i]) {
        skip_white(s, i + 1)
    } else {
        i
    }
}

/// Moving back from `j` towards `lo`, the end of the last character that is not
/// white space (or `lo`).
pub open spec fn back_white(s: Seq<char>, lo: int, j: int) -> int
    decreases j - lo,
{
    if lo < j && 0 < j <= s.len() && is_white_space(s[j - 1]) {
        back_white(s, lo, j - 1)
    } else {
        j
    }
}

/// `s` without its leading and trailing white space, as `str::trim` gives it.
pub open spec fn trim(s: Seq<char>) -> Seq<char> {
    let lo = skip_white(s, 0);
    s.subrange(lo, back_white(s, lo, s.len() as int))
}

/// `skip_white` moves forward from `i` but not past the end.
pub proof fn lemma_skip_white_bounds(s: Seq<char>, i: int)
    requires
        0 <= i <= s.len(),
    ensures
        i <= skip_white(s, i) <= s.len(),
    decreases s.len() - i,
{
    if i < s.len() && is_white_space(s[i]) {
        lemma_skip_white_bounds(s, i + 1);
    }
}

/// `back_white` moves back from `j` but not before `lo`.
pub proof fn lemma_back_white_bounds(s: Seq<char>, lo: int, j: int)
    requires
        0 <= lo <= j <= s.len(),
    ensures
        lo <= back_white(s, lo, j) <= j,
    decreases j - lo,
{
    if lo < j && is_white_space(s[j - 1]) {
        lemma_back_white_bounds(s, lo, j - 1);
    }
}

/// A text that trimming leaves as it is neither starts nor ends with white space.
pub proof fn lemma_trimmed_ends(s: Seq<char>)
    requires
        trim(s) == s,
    ensures
        s.len() > 0 ==> !is_white_space(s[0]) && !is_white_space(s[s.len() - 1]),
{
    lemma_skip_white_bounds(s, 0);
    let lo = skip_white(s, 0);
    lemma_back_white_bounds(s, lo, s.len() as int);
    let hi = back_white(s, lo, s.len() as int);
    assert(trim(s).len() == hi - lo);
    if s.len() > 0 {
        assert(lo == 0 && hi == s.len());
        if is_white_space(s[0]) {
            lemma_skip_white_bounds(s, 1);
        }
        if is_white_space(s[s.len() - 1]) {
            lemma_back_white_bounds(s, 0, s.len() - 1);
        }
    }
}

/// The bounds `(lo, hi)` of `s` without its leading and trailing white space.
pub fn trim_bounds(s: &[char]) -> (res: (usize, usize))
    ensures
        res.0 == skip_white(s@, 0),
        res.1 == back_white(s@, res.0 as int, s@.len() as int),
        res.0 <= res.1 <= s@.len(),
        s@.subrange(res.0 as int, res.1 as int) == trim(s@),
{
    let mut lo: usize = 0;
    while lo < s.len() && white_space(s[lo])
        invariant
            lo <= s@.len(),
            skip_white(s@, 0) == skip_white(s@, lo as int),
        decreases s@.len() - lo,
    {
        lo = lo + 1;
    }
    let mut hi: usize = s.len();
    while hi > lo && white_space(s[hi - 1])
        invariant
            lo <= hi <= s@.len(),
            back_white(s@, lo as int, s@.len() as int) == back_white(s@, lo as int, hi as int),
        decreases hi - lo,
    {
        hi = hi - 1;
    }
    (lo, hi)
}

// ---------------------------------------------------------------- decimal numbers

/// The ASCII digit for `d < 10`.
pub open spec fn digit_char(d: nat) -> char {
    ((d + 48) as u32) as char
}

/// `c` is one of the ASCII digits `0`..`9`.
pub open spec fn is_digit(c: char) -> bool {
    '0' <= c <= '9'
}

/// The value of the ASCII digit `c`.
pub open spec fn digit_value(c: char) -> nat {
    (c as u32 - 48) as nat
}

/// The decimal rendering of `n`, as `to_string` prints an unsigned integer.
pub open spec fn decimal(n: nat) -> Seq<char>
    decreases n,
{
    if n < 10 {
        seq![digit_char(n)]
    } else {
        decimal(n / 10).push(digit_char(n % 10))
    }
}

/// All characters of `s` are ASCII digits.
pub open spec fn all_digits(s: Seq<char>) -> bool {
    forall|i: int| 0 <= i < s.len() ==> is_digit(#[trigger] s[i])
}

/// The number that the digit string `s` denotes.
pub open spec fn digits_value(s: Seq<char>) -> nat
    decreases s.len(),
{
    if s.len() == 0 {
        0
    } else {
        digits_value(s.drop_last()) * 10 + digit_value(s.last())
    }
}

/// `s` without one leading `+` sign, if it has one.
pub open spec fn unsigned_body(s: Seq<char>) -> Seq<char> {
    if s.len() > 0 && s[0] == '+' {
        s.drop_first()
    } else {
        s
    }
}

/// What `str::parse::<u32>` accepts: an optional `+`, then one or more ASCII
/// digits whose value fits in a `u32`.
pub open spec fn parse_u32(s: Seq<char>) -> Option<u32> {
    let body = unsigned_body(s);
    if body.len() > 0 && all_digits(body) && digits_value(body) <= u32::MAX {
        Some(digits_value(body) as u32)
    } else {
        None
    }
}

proof fn lemma_digits_value_monotone(s: Seq<char>, k: int)
    requires
        0 <= k <= s.len(),
    ensures
        digits_value(s.take(k)) <= digits_value(s),
    decreases s.len() - k,
{
    if k < s.len() {
        lemma_digits_value_monotone(s, k + 1);
        assert(s.take(k + 1).drop_last() == s.take(k));
    } else {
        assert(s.take(k) == s);
    }
}

/// Parses `s` as `str::parse::<u32>` does.
pub fn parse_u32_chars(s: &[char]) -> (res: Option<u32>)
    ensures
        res == parse_u32(s@),
{
    let start: usize = if s.len() > 0 && s[0] == '+' {
        1
    } else {
        0
    };
    let ghost body = unsigned_body(s@);
    assert(body == s@.subrange(start as int, s@.len() as int));
    if start >= s.len() {
        return None;
    }
    let mut value: u64 = 0;
    let mut i: usize = start;
    while i < s.len()
        invariant
            start <= i <= s@.len(),
            body == s@.subrange(start as int, s@.len() as int),
            body == unsigned_body(s@),
            all_digits(body.take(i - start)),
            value == digits_value(body.take(i - start)),
            value <= u32::MAX,
        decreases s@.len() - i,
    {
        let c = s[i];
        assert(body[i - start] == c);
        assert(body.take(i + 1 - start).drop_last() == body.take(i - start));
        if c < '0' || c > '9' {
            assert(!is_digit(body[i - start]));
            assert(!all_digits(body));
            return None;
        }
        let d = (c as u32 - 48) as u64;
        value = value * 10 + d;
        assert(body.take(i + 1 - start).last() == c);
        assert(value == digits_value(body.take(i + 1 - start)));
        if value > 0xFFFF_FFFF {
            proof {
                lemma_digits_value_monotone(body, i + 1 - start);
            }
            return None;
        }
        i = i + 1;
    }
    assert(body.take(i - start) == body);
    Some(value as u32)
}

/// The decimal rendering of `n` (what `n.to_string()` gives).
pub fn decimal_string(n: u64) -> (res: String)
    ensures
        res@ == decimal(n as nat),
{
    // Collect the digits from the least significant one.
    let mut rev: Vec<char> = Vec::new();
    let mut m: u64 = n;
    loop
        invariant_except_break
            decimal(n as nat) == decimal(m as nat) + rev@.reverse(),
        ensures
            decimal(n as nat) == rev@.reverse(),
        decreases m,
    {
        let d = m % 10;
        let c = ((d as u32) + 48) as u8 as char;
        assert(c == digit_char(d as nat)) by {
            assert(d < 10);
        }
        if m < 10 {
            assert(decimal(m as nat) == seq![c]);
            let ghost old_rev = rev@;
            rev.push(c);
            assert(rev@.reverse() =~= seq![c] + old_rev.reverse());
            break;
        }
        let ghost old_rev = rev@;
        rev.push(c);
        assert(rev@.reverse() =~= seq![c] + old_rev.reverse());
        assert(decimal(m as nat) == decimal((m / 10) as nat).push(c));
        m = m / 10;
        assert(decimal(n as nat) =~= decimal(m as nat) + rev@.reverse());
    }
    let mut res = String::new();
    let mut k: usize = rev.len();
    while k > 0
        invariant
            k <= rev@.len(),
            res@ == rev@.reverse().take(rev@.len() - k),
            decimal(n as nat) == rev@.reverse(),
        decreases k,
    {
        k = k - 1;
        push_char(&mut res, rev[k]);
        assert(rev@.reverse().take(rev@.len() - k) =~= rev@.reverse().take(rev@.len() - k
            - 1).push(rev@[k as int]));
    }
    assert(rev@.reverse().take(rev@.len() as int) == rev@.reverse());
    res
}

} // verus!
