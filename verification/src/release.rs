//! Reading the GitHub "latest release" answer: the release tag, the first
//! `.exe` asset, and whether that release is newer than the running build.

use vstd::prelude::*;
use crate::text::{chars_of, decimal, decimal_string, find_from, find_in, lemma_find_from, string_from_chars};
use crate::version::{
    lemma_version_order, ver_tuple, version_at_most, version_le, version_of, version_rank,
};

verus! {

broadcast use vstd::string::group_string_axioms;

/// `"key"`: a key with its quotes, as it stands in JSON text.
pub open spec fn quoted(key: Seq<char>) -> Seq<char> {
    seq!['"'] + key + seq!['"']
}

/// The string value of `key` in a JSON text, found the plain way: the first
/// `"key"`, then the first `:` after it, then the text between the next two `"`.
pub open spec fn json_value(body: Seq<char>, key: Seq<char>) -> Option<Seq<char>> {
    match find_from(body, quoted(key), 0) {
        None => None,
        Some(i) => match find_from(body, seq![':'], i + quoted(key).len()) {
            None => None,
            Some(j) => match find_from(body, seq!['"'], j + 1) {
                None => None,
                Some(k) => match find_from(body, seq!['"'], k + 1) {
                    None => None,
                    Some(e) => Some(body.subrange(k + 1, e)),
                },
            },
        },
    }
}

/// `"key"`: the key between double quotes.
fn quote_key(key: &[char]) -> (pat: Vec<char>)
    ensures
        pat@ == quoted(key@),
{
    let mut pat: Vec<char> = Vec::new();
    pat.push('"');
    let mut m: usize = 0;
    while m < key.len()
        invariant
            m <= key@.len(),
            pat@ == seq!['"'] + key@.take(m as int),
        decreases key@.len() - m,
    {
        pat.push(key[m]);
        m = m + 1;
        assert(pat@ =~= seq!['"'] + key@.take(m as int));
    }
    pat.push('"');
    assert(key@.take(key@.len() as int) == key@);
    assert(pat@ =~= quoted(key@));
    pat
}

/// Where the value of `key` lies in `body`: `body[lo..hi]`.
fn json_range(body: &[char], key: &[char]) -> (r: Option<(usize, usize)>)
    ensures
        r matches Some((lo, hi)) ==> lo <= hi <= body@.len() && json_value(body@, key@) == Some(
            body@.subrange(lo as int, hi as int),
        ),
        r is None ==> json_value(body@, key@) is None,
{
    let pat = quote_key(key);
    let n = body.len();
    let colon = [':'];
    let quote = ['"'];
    assert(colon@ =~= seq![':']);
    assert(quote@ =~= seq!['"']);
    let i = match find_in(body, pat.as_slice(), 0) {
        Some(i) => i,
        None => return None,
    };
    proof {
        lemma_find_from(body@, pat@, 0);
    }
    let j = match find_in(body, &colon, i + pat.len()) {
        Some(j) => j,
        None => return None,
    };
    proof {
        lemma_find_from(body@, colon@, i + pat@.len());
    }
    let k = match find_in(body, &quote, j + 1) {
        Some(k) => k,
        None => return None,
    };
    proof {
        lemma_find_from(body@, quote@, j + 1);
    }
    let e = match find_in(body, &quote, k + 1) {
        Some(e) => e,
        None => return None,
    };
    proof {
        lemma_find_from(body@, quote@, k + 1);
    }
    Some((k + 1, e))
}

/// The string value of `key` in the JSON text `body`, found as `json_value` says.
pub fn json_string(body: &str, key: &str) -> (r: Option<String>)
    ensures
        r matches Some(v) ==> json_value(body@, key@) == Some(v@),
        r is None ==> json_value(body@, key@) is None,
{
    let b = chars_of(body);
    let k = chars_of(key);
    match json_range(b.as_slice(), k.as_slice()) {
        Some((lo, hi)) => Some(string_from_chars(&b.as_slice()[lo..hi])),
        None => None,
    }
}

/// The key under which a release lists the download address of an asset.
pub open spec fn asset_key() -> Seq<char> {
    "browser_download_url"@
}

/// `u` ends in `.exe`, in any mix of letter case.
///
/// This is `u.to_lowercase().ends_with(".exe")`: only `.` lowercases to `.`,
/// only `e`/`E` to `e` and only `x`/`X` to `x`, and the one character whose
/// lowercase is longer than one character (U+0130) ends in U+0307.
pub open spec fn ends_with_exe(u: Seq<char>) -> bool {
    let n = u.len();
    &&& n >= 4
    &&& u[n - 4] == '.'
    &&& (u[n - 3] == 'e' || u[n - 3] == 'E')
    &&& (u[n - 2] == 'x' || u[n - 2] == 'X')
    &&& (u[n - 1] == 'e' || u[n - 1] == 'E')
}

/// The first asset address, looking at each `"browser_download_url"` of `body`
/// at or after `start` in turn, whose value ends in `.exe`.
pub open spec fn exe_asset_from(body: Seq<char>, start: int) -> Option<Seq<char>>
    decreases body.len() - start,
{
    if start < 0 {
        None
    } else {
        match find_from(body, quoted(asset_key()), start) {
            None => None,
            Some(i) => {
                let v = json_value(body.subrange(i, body.len() as int), asset_key());
                if v is Some && ends_with_exe(v->0) {
                    v
                } else {
                    proof {
                        lemma_find_from(body, quoted(asset_key()), start);
                    }
                    exe_asset_from(body, i + quoted(asset_key()).len())
                }
            },
        }
    }
}

/// Whether `u` ends in `.exe`, ignoring letter case.
fn is_exe(u: &[char]) -> (r: bool)
    ensures
        r == ends_with_exe(u@),
{
    let n = u.len();
    n >= 4 && u[n - 4] == '.' && (u[n - 3] == 'e' || u[n - 3] == 'E') && (u[n - 2] == 'x' || u[n
        - 2] == 'X') && (u[n - 1] == 'e' || u[n - 1] == 'E')
}

/// The address of the first `.exe` asset of a release, as `exe_asset_from` says.
pub fn find_exe_asset(body: &str) -> (r: Option<String>)
    ensures
        r matches Some(u) ==> exe_asset_from(body@, 0) == Some(u@),
        r is None ==> exe_asset_from(body@, 0) is None,
{
    let b = chars_of(body);
    let key = chars_of("browser_download_url");
    let pat = quote_key(key.as_slice());
    let mut start: usize = 0;
    loop
        invariant
            b@ == body@,
            key@ == asset_key(),
            pat@ == quoted(asset_key()),
            start <= b@.len(),
            exe_asset_from(body@, 0) == exe_asset_from(body@, start as int),
        decreases b@.len() - start,
    {
        let i = match find_in(b.as_slice(), pat.as_slice(), start) {
            Some(i) => i,
            None => return None,
        };
        proof {
            lemma_find_from(b@, pat@, start as int);
        }
        let rest = &b.as_slice()[i..b.len()];
        assert(rest@ == b@.subrange(i as int, b@.len() as int));
        match json_range(rest, key.as_slice()) {
            Some((lo, hi)) => {
                let u = &rest[lo..hi];
                if is_exe(u) {
                    return Some(string_from_chars(u));
                }
            },
            None => {},
        }
        start = i + pat.len();
    }
}

/// What the latest release means for the running build.
pub enum ReleaseCheck {
    /// The answer has no (or an empty) `tag_name`.
    Unreadable,
    /// The latest release is not newer than the running build.
    UpToDate { latest: String },
    /// A newer release exists but lists no `.exe` asset.
    NoInstaller { latest: String },
    /// A newer release exists, with its installer at `installer_url`.
    Available { latest: String, installer_url: String },
}

/// The release tag named in a "latest release" answer (empty when there is none).
pub open spec fn latest_tag(body: Seq<char>) -> Seq<char> {
    match json_value(body, "tag_name"@) {
        Some(t) => t,
        None => Seq::empty(),
    }
}

/// Whether the release tagged `latest` is newer than version `current`.
pub open spec fn is_newer(latest: Seq<char>, current: Seq<char>) -> bool {
    !version_le(version_of(latest), version_of(current))
}

/// A release is newer exactly when its version is numerically greater in all
/// three fields taken together: a larger major, or the same major and a larger
/// minor, or the same major and minor and a larger patch.
pub proof fn lemma_is_newer(latest: Seq<char>, current: Seq<char>)
    ensures
        is_newer(latest, current) <==> version_rank(version_of(current)) < version_rank(
            version_of(latest),
        ),
        version_of(latest).0 > version_of(current).0 ==> is_newer(latest, current),
        version_of(latest).0 == version_of(current).0 && version_of(latest).1 > version_of(
            current,
        ).1 ==> is_newer(latest, current),
        version_of(latest).0 == version_of(current).0 && version_of(latest).1 == version_of(
            current,
        ).1 && version_of(latest).2 > version_of(current).2 ==> is_newer(latest, current),
        version_of(latest) == version_of(current) ==> !is_newer(latest, current),
{
    lemma_version_order(version_of(latest), version_of(current));
}

/// The verdict on a "latest release" answer `body` for the running version
/// `current`: unreadable without a tag; up to date unless the tag is newer;
/// otherwise the first `.exe` asset, if there is one.
pub fn assess_release(body: &str, current: &str) -> (r: ReleaseCheck)
    ensures
        ({
            let tag = latest_tag(body@);
            match r {
                ReleaseCheck::Unreadable => tag.len() == 0,
                ReleaseCheck::UpToDate { latest } => tag.len() != 0 && latest@ == tag && !is_newer(
                    tag,
                    current@,
                ),
                ReleaseCheck::NoInstaller { latest } => {
                    &&& tag.len() != 0
                    &&& latest@ == tag
                    &&& is_newer(tag, current@)
                    &&& exe_asset_from(body@, 0) is None
                },
                ReleaseCheck::Available { latest, installer_url } => {
                    &&& tag.len() != 0
                    &&& latest@ == tag
                    &&& is_newer(tag, current@)
                    &&& exe_asset_from(body@, 0) == Some(installer_url@)
                },
            }
        }),
{
    let latest = match json_string(body, "tag_name") {
        Some(t) => t,
        None => String::new(),
    };
    if latest.as_str().is_empty() {
        return ReleaseCheck::Unreadable;
    }
    if version_at_most(ver_tuple(latest.as_str()), ver_tuple(current)) {
        return ReleaseCheck::UpToDate { latest };
    }
    match find_exe_asset(body) {
        None => ReleaseCheck::NoInstaller { latest },
        Some(installer_url) => ReleaseCheck::Available { latest, installer_url },
    }
}

/// The address of the GitHub API's "latest release" answer for this project;
/// `nonce` makes each request distinct so that no cache answers it.
pub open spec fn release_api_url(nonce: u64) -> Seq<char> {
    "https://api.github.com/repos/gabrielchaves6/energyflag/releases/latest?_="@ + decimal(
        nonce as nat,
    )
}

/// The address of the "latest release" answer, with `nonce` appended.
pub fn latest_release_url(nonce: u64) -> (r: String)
    ensures
        r@ == release_api_url(nonce),
{
    let mut r = String::from_str(
        "https://api.github.com/repos/gabrielchaves6/energyflag/releases/latest?_=",
    );
    let n = decimal_string(nonce);
    r.append(n.as_str());
    r
}

} // verus!
