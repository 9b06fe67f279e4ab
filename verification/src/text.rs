//! Substring matching over window titles and process names.
//!
//! The process locator matches names case-insensitively; the title
//! classifier looks for the advertisement marker exactly as written.
//! Both are substring searches, differing only in whether ASCII letters
//! are folded to lower case before comparison.

use vstd::prelude::*;
use vstd::string::StrSliceExecFns;

verus! {

/// An ASCII upper-case letter folded to lower case, as a Unicode scalar;
/// every other scalar is left alone.
pub open spec fn fold_scalar(u: u32) -> u32 {
    if 65 <= u && u <= 90 {
        (u + 32) as u32
    } else {
        u
    }
}

/// Two characters compare equal, folding ASCII case when `fold` is set.
pub open spec fn chars_fold_eq(a: char, b: char, fold: bool) -> bool {
    if fold {
        fold_scalar(a as u32) == fold_scalar(b as u32)
    } else {
        a == b
    }
}

/// `needle` occurs in `hay` starting at position `i`.
pub open spec fn matches_at(hay: Seq<char>, needle: Seq<char>, i: int, fold: bool) -> bool {
    &&& 0 <= i
    &&& i + needle.len() <= hay.len()
    &&& forall|j: int|
        0 <= j < needle.len() ==> chars_fold_eq(hay[i + j], #[trigger] needle[j], fold)
}

/// `needle` occurs somewhere in `hay`.
pub open spec fn contains_folded(hay: Seq<char>, needle: Seq<char>, fold: bool) -> bool {
    exists|i: int| matches_at(hay, needle, i, fold)
}

/// A process name matches the search pattern: case-insensitive substring.
pub open spec fn name_matches_spec(name: Seq<char>, pattern: Seq<char>) -> bool {
    contains_folded(name, pattern, true)
}

/// The fixed substring whose presence in a window title is taken as
/// evidence that an advertisement is playing.
pub open spec fn advert_marker() -> Seq<char> {
    "Advertisement"@
}

/// A window title indicates an advertisement: it contains the marker,
/// matched exactly (case-sensitively).
pub open spec fn is_advert_title(title: Seq<char>) -> bool {
    contains_folded(title, advert_marker(), false)
}

fn chars_eq_folded(a: char, b: char, fold: bool) -> (r: bool)
    ensures
        r == chars_fold_eq(a, b, fold),
{
    if fold {
        let ua: u32 = a as u32;
        let ub: u32 = b as u32;
        let fa: u32 = if 65 <= ua && ua <= 90 {
            ua + 32
        } else {
            ua
        };
        let fb: u32 = if 65 <= ub && ub <= 90 {
            ub + 32
        } else {
            ub
        };
        fa == fb
    } else {
        a == b
    }
}

fn match_at(hay: &str, needle: &str, i: usize, n: usize, m: usize, fold: bool) -> (r: bool)
    requires
        n == hay@.len(),
        m == needle@.len(),
        i + m <= n,
    ensures
        r == matches_at(hay@, needle@, i as int, fold),
{
    let mut j: usize = 0;
    while j < m
        invariant
            n == hay@.len(),
            m == needle@.len(),
            i + m <= n,
            j <= m,
            forall|k: int| 0 <= k < j ==> chars_fold_eq(hay@[i + k], #[trigger] needle@[k], fold),
        decreases m - j,
    {
        let ca = hay.get_char(i + j);
        let cb = needle.get_char(j);
        if !chars_eq_folded(ca, cb, fold) {
            return false;
        }
        j += 1;
    }
    true
}

/// Substring search, folding ASCII case when `fold` is set.
pub fn str_contains_folded(hay: &str, needle: &str, fold: bool) -> (r: bool)
    ensures
        r == contains_folded(hay@, needle@, fold),
{
    let n = hay.unicode_len();
    let m = needle.unicode_len();
    if m > n {
        proof {
            assert(forall|i: int| !matches_at(hay@, needle@, i, fold));
        }
        return false;
    }
    let mut i: usize = 0;
    while i <= n - m
        invariant
            n == hay@.len(),
            m == needle@.len(),
            m <= n,
            i <= n - m + 1,
            forall|k: int| 0 <= k < i ==> !matches_at(hay@, needle@, k, fold),
        decreases n - m + 1 - i,
    {
        if match_at(hay, needle, i, n, m, fold) {
            return true;
        }
        i += 1;
    }
    proof {
        assert(forall|k: int| k > n - m ==> !matches_at(hay@, needle@, k, fold));
    }
    false
}

/// Case-insensitive substring match of a search pattern on a process name.
pub fn name_matches(name: &str, pattern: &str) -> (r: bool)
    ensures
        r == name_matches_spec(name@, pattern@),
{
    str_contains_folded(name, pattern, true)
}

/// Whether a window title indicates an advertisement.
pub fn title_is_advert(title: &str) -> (r: bool)
    ensures
        r == is_advert_title(title@),
{
    str_contains_folded(title, "Advertisement", false)
}

/// Case-insensitivity law: a name and any re-casing of it (character for
/// character, ASCII case folded) match exactly the same patterns, so a
/// process whose name is written in mixed case is still found.
pub proof fn lemma_match_case_insensitive(name1: Seq<char>, name2: Seq<char>, pattern: Seq<char>)
    requires
        name1.len() == name2.len(),
        forall|k: int| 0 <= k < name1.len() ==> chars_fold_eq(#[trigger] name1[k], name2[k], true),
    ensures
        name_matches_spec(name1, pattern) == name_matches_spec(name2, pattern),
{
    assert forall|i: int| matches_at(name1, pattern, i, true) implies matches_at(
        name2,
        pattern,
        i,
        true,
    ) by {
        assert forall|j: int| 0 <= j < pattern.len() implies chars_fold_eq(
            name2[i + j],
            #[trigger] pattern[j],
            true,
        ) by {
            assert(chars_fold_eq(name1[i + j], pattern[j], true));
            assert(chars_fold_eq(name1[i + j], name2[i + j], true));
        }
    }
    assert forall|i: int| matches_at(name2, pattern, i, true) implies matches_at(
        name1,
        pattern,
        i,
        true,
    ) by {
        assert forall|j: int| 0 <= j < pattern.len() implies chars_fold_eq(
            name1[i + j],
            #[trigger] pattern[j],
            true,
        ) by {
            assert(chars_fold_eq(name2[i + j], pattern[j], true));
            assert(chars_fold_eq(name1[i + j], name2[i + j], true));
        }
    }
    if name_matches_spec(name1, pattern) {
        let i = choose|i: int| matches_at(name1, pattern, i, true);
        assert(matches_at(name2, pattern, i, true));
    }
    if name_matches_spec(name2, pattern) {
        let i = choose|i: int| matches_at(name2, pattern, i, true);
        assert(matches_at(name1, pattern, i, true));
    }
}

} // verus!
