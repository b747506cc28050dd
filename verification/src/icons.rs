//! Launcher icon resolution: a case-insensitive substring match of the
//! application identifier against a small static table, falling back to the
//! generic executable icon.

use vstd::prelude::*;
use vstd::string::*;

verus! {

/// The case folding `str::to_lowercase` performs, named: it depends on the
/// characters alone.
pub uninterp spec fn lower_of(s: Seq<char>) -> Seq<char>;

/// Relies on `str::to_lowercase`: the Unicode-lowercased text, a pure
/// function of the input characters.
#[verifier::external_body]
fn lowercase(s: &str) -> (r: String)
    ensures
        r@ == lower_of(s@),
{
    s.to_lowercase()
}

/// Whether `needle` occurs contiguously in `hay` (every string contains the
/// empty one).
pub open spec fn contains_seq(hay: Seq<char>, needle: Seq<char>) -> bool {
    exists|k: int|
        0 <= k <= hay.len() - needle.len() && #[trigger] hay.subrange(k, k + needle.len() as int)
            == needle
}

/// Whether `needle` occurs at position `k` of `hay`.
fn matches_at(hay: &str, needle: &str, k: usize, hay_len: usize, needle_len: usize) -> (r: bool)
    requires
        hay_len == hay@.len(),
        needle_len == needle@.len(),
        k + needle_len <= hay_len,
    ensures
        r == (hay@.subrange(k as int, k + needle@.len()) == needle@),
{
    let mut j: usize = 0;
    while j < needle_len
        invariant
            hay_len == hay@.len(),
            needle_len == needle@.len(),
            k + needle_len <= hay_len,
            j <= needle_len,
            forall|t: int| 0 <= t < j ==> hay@[k + t] == #[trigger] needle@[t],
        decreases needle_len - j,
    {
        if hay.get_char(k + j) != needle.get_char(j) {
            proof {
                assert(hay@.subrange(k as int, k + needle@.len())[j as int] == hay@[k + j]);
            }
            return false;
        }
        j += 1;
    }
    proof {
        assert(hay@.subrange(k as int, k + needle@.len()) =~= needle@);
    }
    true
}

/// Whether `needle` occurs anywhere in `hay`.
pub fn contains_sub(hay: &str, needle: &str) -> (r: bool)
    ensures
        r == contains_seq(hay@, needle@),
{
    let hay_len = hay.unicode_len();
    let needle_len = needle.unicode_len();
    if needle_len == 0 {
        proof {
            assert(hay@.subrange(0int, 0int + needle@.len() as int) =~= needle@);
            assert(contains_seq(hay@, needle@));
        }
        return true;
    }
    if needle_len > hay_len {
        proof {
            if contains_seq(hay@, needle@) {
                let k0 = choose|k0: int|
                    0 <= k0 <= hay@.len() - needle@.len() && #[trigger] hay@.subrange(
                        k0,
                        k0 + needle@.len() as int,
                    ) == needle@;
                assert(false);
            }
        }
        return false;
    }
    let mut k: usize = 0;
    while k <= hay_len - needle_len
        invariant
            hay_len == hay@.len(),
            needle_len == needle@.len(),
            0 < needle_len <= hay_len,
            k <= hay_len - needle_len + 1,
            forall|t: int|
                0 <= t < k ==> #[trigger] hay@.subrange(t, t + needle@.len() as int) != needle@,
        decreases hay_len - needle_len + 1 - k,
    {
        if matches_at(hay, needle, k, hay_len, needle_len) {
            proof {
                assert(0 <= k as int <= hay@.len() - needle@.len());
                assert(contains_seq(hay@, needle@));
            }
            return true;
        }
        k += 1;
    }
    proof {
        if contains_seq(hay@, needle@) {
            let k0 = choose|k0: int|
                0 <= k0 <= hay@.len() - needle@.len() && #[trigger] hay@.subrange(
                    k0,
                    k0 + needle@.len() as int,
                ) == needle@;
            assert(hay@.subrange(k0, k0 + needle@.len() as int) != needle@);
            assert(false);
        }
    }
    false
}

/// The icon table, applied to an already-lowercased identifier: the first
/// matching pattern wins, and an identifier matching none gets the generic
/// executable icon.
pub open spec fn icon_spec(low: Seq<char>) -> Seq<char> {
    if contains_seq(low, "firefox"@) {
        "firefox"@
    } else if contains_seq(low, "chrome"@) {
        "google-chrome"@
    } else if contains_seq(low, "terminal"@) {
        "terminal"@
    } else if contains_seq(low, "code"@) {
        "visual-studio-code"@
    } else {
        "application-x-executable"@
    }
}

/// Resolve the icon for an identifier that is already lowercase, against the
/// static table.
pub fn icon_for_lowered(low: &str) -> (r: String)
    ensures
        r@ == icon_spec(low@),
{
    if contains_sub(low, "firefox") {
        String::from_str("firefox")
    } else if contains_sub(low, "chrome") {
        String::from_str("google-chrome")
    } else if contains_sub(low, "terminal") {
        String::from_str("terminal")
    } else if contains_sub(low, "code") {
        String::from_str("visual-studio-code")
    } else {
        String::from_str("application-x-executable")
    }
}

/// Resolve the launcher icon for an application identifier: fold case, then
/// match the table.
pub fn get_icon_for_app(app_id: &str) -> (r: String)
    ensures
        r@ == icon_spec(lower_of(app_id@)),
{
    let low = lowercase(app_id);
    icon_for_lowered(low.as_str())
}

} // verus!
