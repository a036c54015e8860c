//! Substring search over byte strings.
//!
//! The host runtime's string cells are byte strings, and its string
//! builtins are defined over bytes. This module gives the specification
//! of "index of the first occurrence of a needle" and a verified search.

use vstd::prelude::*;

verus! {

/// Index of the first occurrence of `needle` in `haystack` at or after
/// position `from`, if any. An empty needle occurs at every in-bounds
/// position.
pub open spec fn first_match_from(haystack: Seq<u8>, needle: Seq<u8>, from: int) -> Option<int>
    decreases haystack.len() - from,
{
    if from < 0 || from + needle.len() > haystack.len() {
        None
    } else if needle.len() == 0 {
        Some(from)
    } else if haystack.subrange(from, from + needle.len() as int) == needle {
        Some(from)
    } else {
        first_match_from(haystack, needle, from + 1)
    }
}

/// Index of the first occurrence of `needle` in `haystack`, if any.
pub open spec fn first_match(haystack: Seq<u8>, needle: Seq<u8>) -> Option<int> {
    first_match_from(haystack, needle, 0)
}

/// Whether `needle` occurs as a contiguous subrange of `haystack`.
pub open spec fn contains_match(haystack: Seq<u8>, needle: Seq<u8>) -> bool {
    first_match(haystack, needle) is Some
}

/// What `first_match_from` answers, spelled out: a found position is the
/// least in-bounds occurrence at or after `from`, and a miss means there
/// is no in-bounds occurrence at or after `from`.
pub proof fn lemma_first_match_from_characterizes(haystack: Seq<u8>, needle: Seq<u8>, from: int)
    requires
        0 <= from,
    ensures
        match first_match_from(haystack, needle, from) {
            Some(i) => from <= i && i + needle.len() <= haystack.len() && haystack.subrange(
                i,
                i + needle.len() as int,
            ) == needle && forall|j: int|
                from <= j < i ==> #[trigger] haystack.subrange(j, j + needle.len() as int)
                    != needle,
            None => forall|j: int|
                from <= j && j + needle.len() <= haystack.len() ==> #[trigger] haystack.subrange(
                    j,
                    j + needle.len() as int,
                ) != needle,
        },
    decreases haystack.len() - from,
{
    if from + needle.len() > haystack.len() {
    } else if needle.len() == 0 {
    } else if haystack.subrange(from, from + needle.len() as int) == needle {
    } else {
        lemma_first_match_from_characterizes(haystack, needle, from + 1);
    }
}

/// What `first_match` answers, spelled out: `Some(i)` is the least
/// position where `needle` occurs in `haystack`, and `None` means it
/// occurs nowhere.
pub proof fn lemma_first_match_characterizes(haystack: Seq<u8>, needle: Seq<u8>)
    ensures
        match first_match(haystack, needle) {
            Some(i) => 0 <= i && i + needle.len() <= haystack.len() && haystack.subrange(
                i,
                i + needle.len() as int,
            ) == needle && forall|j: int|
                0 <= j < i ==> #[trigger] haystack.subrange(j, j + needle.len() as int) != needle,
            None => forall|j: int|
                0 <= j && j + needle.len() <= haystack.len() ==> #[trigger] haystack.subrange(
                    j,
                    j + needle.len() as int,
                ) != needle,
        },
{
    lemma_first_match_from_characterizes(haystack, needle, 0);
}

/// A found position lies within the haystack: the needle fits at it.
pub proof fn lemma_first_match_bounds(haystack: Seq<u8>, needle: Seq<u8>, from: int, i: int)
    requires
        first_match_from(haystack, needle, from) == Some(i),
    ensures
        from <= i,
        0 <= i,
        i + needle.len() <= haystack.len(),
    decreases haystack.len() - from,
{
    if from < 0 || from + needle.len() > haystack.len() {
    } else if needle.len() == 0 {
    } else if haystack.subrange(from, from + needle.len() as int) == needle {
    } else {
        lemma_first_match_bounds(haystack, needle, from + 1, i);
    }
}

/// True iff `needle` occurs in `haystack` exactly at position `at`.
fn match_at(haystack: &Vec<u8>, needle: &Vec<u8>, at: usize) -> (r: bool)
    requires
        at + needle@.len() <= haystack@.len(),
    ensures
        r == (haystack@.subrange(at as int, at as int + needle@.len() as int) == needle@),
{
    let hl = haystack.len();
    let nl = needle.len();
    let mut j: usize = 0;
    while j < nl
        invariant
            hl == haystack@.len(),
            nl == needle@.len(),
            at + nl <= hl,
            0 <= j <= nl,
            forall|k: int| 0 <= k < j ==> haystack@[at + k] == needle@[k],
        decreases nl - j,
    {
        if haystack[at + j] != needle[j] {
            proof {
                let sub = haystack@.subrange(at as int, at as int + needle@.len() as int);
                assert(sub[j as int] == haystack@[at + j]);
            }
            return false;
        }
        j += 1;
    }
    proof {
        assert(haystack@.subrange(at as int, at as int + needle@.len() as int) =~= needle@);
    }
    true
}

/// Index of the first occurrence of `needle` in `haystack`, if any.
pub fn find_first(haystack: &Vec<u8>, needle: &Vec<u8>) -> (r: Option<usize>)
    ensures
        match r {
            Some(i) => first_match(haystack@, needle@) == Some(i as int),
            None => first_match(haystack@, needle@) is None,
        },
{
    let hl = haystack.len();
    let nl = needle.len();
    if nl == 0 {
        return Some(0);
    }
    if nl > hl {
        return None;
    }
    let mut i: usize = 0;
    while i <= hl - nl
        invariant
            hl == haystack@.len(),
            nl == needle@.len(),
            1 <= nl <= hl,
            0 <= i <= hl - nl + 1,
            first_match(haystack@, needle@) == first_match_from(haystack@, needle@, i as int),
        decreases hl - i,
    {
        if match_at(haystack, needle, i) {
            return Some(i);
        }
        i += 1;
    }
    None
}

/// Whether two byte strings hold the same bytes.
pub fn bytes_equal(a: &Vec<u8>, b: &Vec<u8>) -> (r: bool)
    ensures
        r == (a@ == b@),
{
    let al = a.len();
    if al != b.len() {
        return false;
    }
    let mut i: usize = 0;
    while i < al
        invariant
            al == a@.len(),
            al == b@.len(),
            0 <= i <= al,
            forall|k: int| 0 <= k < i ==> a@[k] == b@[k],
        decreases al - i,
    {
        if a[i] != b[i] {
            return false;
        }
        i += 1;
    }
    proof {
        assert(a@ =~= b@);
    }
    true
}

} // verus!
