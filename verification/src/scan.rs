//! Substring scanning over character sequences.
//!
//! The session page is semi-structured text; resolution reads it by locating
//! fixed markers and the tokens that follow them. These are the scanning
//! primitives: first-occurrence search and its specification.

use vstd::prelude::*;

verus! {

/// `needle` occurs in `hay` starting at index `i`.
pub open spec fn match_at(hay: Seq<char>, needle: Seq<char>, i: int) -> bool {
    0 <= i && i + needle.len() <= hay.len() && hay.subrange(i, i + needle.len() as int)
        == needle
}

/// `needle` occurs somewhere in `hay`.
pub open spec fn contains_sub(hay: Seq<char>, needle: Seq<char>) -> bool {
    exists|i: int| match_at(hay, needle, i)
}

/// Index of the first occurrence of `needle` in `hay` at or after `i`,
/// or `None` if there is none.
pub open spec fn find_from(hay: Seq<char>, needle: Seq<char>, i: int) -> Option<int>
    decreases hay.len() - i + 1,
{
    if i + needle.len() > hay.len() {
        None
    } else if match_at(hay, needle, i) {
        Some(i)
    } else {
        find_from(hay, needle, i + 1)
    }
}

/// Index of the first occurrence of `needle` in `hay`, if any.
pub open spec fn find_first(hay: Seq<char>, needle: Seq<char>) -> Option<int> {
    find_from(hay, needle, 0)
}

/// A found index is a match, and no earlier position at or after `i` matches.
pub proof fn lemma_find_from_some(hay: Seq<char>, needle: Seq<char>, i: int, j: int)
    requires
        find_from(hay, needle, i) == Some(j),
    ensures
        match_at(hay, needle, j),
        i <= j,
        forall|k: int| i <= k < j ==> !match_at(hay, needle, k),
    decreases hay.len() - i + 1,
{
    if i + needle.len() > hay.len() {
    } else if match_at(hay, needle, i) {
    } else {
        lemma_find_from_some(hay, needle, i + 1, j);
    }
}

/// If the search from `i` fails, no position at or after `i` matches.
pub proof fn lemma_find_from_none(hay: Seq<char>, needle: Seq<char>, i: int)
    requires
        find_from(hay, needle, i) is None,
    ensures
        forall|k: int| k >= i ==> !match_at(hay, needle, k),
    decreases hay.len() - i + 1,
{
    if i + needle.len() > hay.len() {
        assert forall|k: int| k >= i implies !match_at(hay, needle, k) by {
            assert(k + needle.len() > hay.len());
        }
    } else {
        lemma_find_from_none(hay, needle, i + 1);
    }
}

/// The first-occurrence search succeeds exactly when the needle occurs at all.
pub proof fn lemma_find_first_contains(hay: Seq<char>, needle: Seq<char>)
    ensures
        contains_sub(hay, needle) <==> find_first(hay, needle) is Some,
{
    match find_first(hay, needle) {
        Some(j) => {
            lemma_find_from_some(hay, needle, 0, j);
        },
        None => {
            lemma_find_from_none(hay, needle, 0);
            assert forall|i: int| !match_at(hay, needle, i) by {
                if i >= 0 {
                } else {
                }
            }
        },
    }
}

/// Whether `needle` occurs in `hay` starting exactly at index `i`.
fn match_at_exec(hay: &str, needle: &str, i: usize) -> (r: bool)
    requires
        i + needle@.len() <= hay@.len(),
    ensures
        r == match_at(hay@, needle@, i as int),
{
    let h = hay.unicode_len();
    let n = needle.unicode_len();
    let mut j: usize = 0;
    while j < n
        invariant
            j <= n,
            h == hay@.len(),
            n == needle@.len(),
            i + n <= h,
            forall|k: int| 0 <= k < j ==> hay@[i + k] == needle@[k],
        decreases n - j,
    {
        if hay.get_char(i + j) != needle.get_char(j) {
            assert(!match_at(hay@, needle@, i as int)) by {
                if hay@.subrange(i as int, i + needle@.len() as int) == needle@ {
                    assert(hay@.subrange(i as int, i + needle@.len() as int)[j as int]
                        == needle@[j as int]);
                }
            }
            return false;
        }
        j += 1;
    }
    assert(hay@.subrange(i as int, i + needle@.len() as int) =~= needle@);
    true
}

/// Index of the first occurrence of `needle` in `hay`, or `None` if `needle`
/// does not occur.
pub fn find_sub(hay: &str, needle: &str) -> (r: Option<usize>)
    ensures
        match r {
            Some(i) => find_first(hay@, needle@) == Some(i as int),
            None => find_first(hay@, needle@) is None,
        },
{
    let h = hay.unicode_len();
    let n = needle.unicode_len();
    if n > h {
        return None;
    }
    if n == 0 {
        assert(hay@.subrange(0, 0) =~= needle@);
        return Some(0);
    }
    let mut i: usize = 0;
    while i <= h - n
        invariant
            h == hay@.len(),
            n == needle@.len(),
            1 <= n <= h,
            i <= h - n + 1,
            find_from(hay@, needle@, 0) == find_from(hay@, needle@, i as int),
        decreases h - n - i + 1,
    {
        if match_at_exec(hay, needle, i) {
            return Some(i);
        }
        i += 1;
    }
    assert(i + n > h);
    None
}

/// Whether two strings hold the same characters.
pub fn str_eq(a: &str, b: &str) -> (r: bool)
    ensures
        r == (a@ == b@),
{
    let la = a.unicode_len();
    let lb = b.unicode_len();
    if la != lb {
        return false;
    }
    let mut i: usize = 0;
    while i < la
        invariant
            i <= la,
            la == a@.len(),
            la == b@.len(),
            forall|k: int| 0 <= k < i ==> a@[k] == b@[k],
        decreases la - i,
    {
        if a.get_char(i) != b.get_char(i) {
            return false;
        }
        i += 1;
    }
    assert(a@ =~= b@);
    true
}

/// Index of the first `'"'` in `page` at or after `i`, or `None` if there is
/// none.
pub open spec fn first_quote_from(page: Seq<char>, i: int) -> Option<int>
    decreases page.len() - i + 1,
{
    if !(0 <= i < page.len()) {
        None
    } else if page[i] == '"' {
        Some(i)
    } else {
        first_quote_from(page, i + 1)
    }
}

/// The token that follows the first occurrence of `marker` in `page`: the
/// characters from the end of the marker up to (not including) the next `'"'`,
/// or up to the end of the page if no quote follows. `None` when the marker
/// does not occur.
pub open spec fn token_after(page: Seq<char>, marker: Seq<char>) -> Option<Seq<char>> {
    match find_first(page, marker) {
        None => None,
        Some(i) => {
            let start = i + marker.len();
            let end = match first_quote_from(page, start) {
                None => page.len() as int,
                Some(e) => e,
            };
            Some(page.subrange(start, end))
        },
    }
}

/// Extracts the token that follows the first occurrence of `marker` in
/// `page`, ending at the next quote character.
pub fn extract_token(page: &str, marker: &str) -> (r: Option<String>)
    ensures
        match r {
            Some(t) => token_after(page@, marker@) == Some(t@),
            None => token_after(page@, marker@) is None,
        },
{
    match find_sub(page, marker) {
        None => None,
        Some(i) => {
            proof {
                lemma_find_from_some(page@, marker@, 0, i as int);
            }
            let mlen = marker.unicode_len();
            let plen = page.unicode_len();
            let start = i + mlen;
            let mut j = start;
            while j < plen && page.get_char(j) != '"'
                invariant
                    start <= j <= plen,
                    plen == page@.len(),
                    first_quote_from(page@, start as int) == first_quote_from(page@, j as int),
                decreases plen - j,
            {
                j += 1;
            }
            Some(page.substring_char(start, j).to_owned())
        },
    }
}

} // verus!
