//! Finding every match in a buffer by searching again behind each match.
//!
//! The search starts at the front of the buffer. Each match that is found is
//! reported with offsets into the whole buffer, and the search goes on behind
//! it, or one byte further on where the match is empty, until nothing is found
//! or the buffer is used up. An empty buffer is searched once, so that a
//! matcher that matches the empty buffer is reported to match it.
//! `RegexMatcher::find_all` and the collecting sink both go through
//! [`find_spans`].

use crate::matcher::{find_first, first_match, matches_in, MatcherSource, RegexMatcher};
use crate::types::MatchRange;
use vstd::prelude::*;
use vstd::slice::slice_subrange;

verus! {

/// How far the search moves on behind a match that ends `end` bytes into the
/// part searched: to the end of the match, and by one byte where the match is
/// empty and ends at the front.
pub open spec fn step(end: int) -> int {
    if end < 1 {
        1
    } else {
        end
    }
}

/// The number of bytes of a buffer of `len` bytes that lie at or behind
/// `from`.
pub open spec fn bytes_left(len: nat, from: int) -> nat {
    if from < len {
        (len - from) as nat
    } else {
        0
    }
}

/// The range, in the whole buffer, of a match found from `start` to `end` in
/// the part of the buffer that begins at `from`. An offset that does not fit
/// in 32 bits is cut down to its low 32 bits.
pub open spec fn shifted(from: int, start: nat, end: nat) -> MatchRange {
    MatchRange { start: (from + start) as u32, end: (from + end) as u32 }
}

/// The matches that the repeated search reports when it stands at `from`.
pub open spec fn spans_from(source: MatcherSource, haystack: Seq<u8>, from: int) -> Seq<MatchRange>
    decreases bytes_left(haystack.len(), from),
{
    if 0 <= from < haystack.len() {
        match first_match(source, haystack.subrange(from, haystack.len() as int)) {
            Some((start, end)) => seq![shifted(from, start, end)] + spans_from(
                source,
                haystack,
                from + step(end as int),
            ),
            None => Seq::empty(),
        }
    } else {
        Seq::empty()
    }
}

/// The matches that the repeated search reports in a buffer: in an empty
/// buffer the first match, if there is one, and else what the search reports
/// from the front.
pub open spec fn all_spans(source: MatcherSource, haystack: Seq<u8>) -> Seq<MatchRange> {
    if haystack.len() == 0 {
        match first_match(source, haystack) {
            Some((start, end)) => seq![shifted(0, start, end)],
            None => Seq::empty(),
        }
    } else {
        spans_from(source, haystack, 0)
    }
}

/// True if and only if every range lies within `len` bytes, starts no later
/// than it ends, and ends no later than the next one starts.
pub open spec fn ordered_spans(spans: Seq<MatchRange>, len: nat) -> bool {
    &&& forall|i: int| 0 <= i < spans.len() ==> (#[trigger] spans[i]).start <= spans[i].end <= len
    &&& forall|i: int, j: int|
        0 <= i < j < spans.len() ==> (#[trigger] spans[i]).end <= (#[trigger] spans[j]).start
}

/// One step of the repeated search: the range to report for a match found
/// from `found.0` to `found.1` in the part that begins at `from`, and the
/// place at which the search goes on, which lies behind `from`.
pub fn shift_match(from: usize, found: (usize, usize)) -> (r: (MatchRange, usize))
    requires
        found.0 <= found.1,
        from + step(found.1 as int) <= usize::MAX,
    ensures
        r.0 == shifted(from as int, found.0 as nat, found.1 as nat),
        r.1 == from + step(found.1 as int),
        r.1 > from,
{
    let range = MatchRange {
        start: #[verifier::truncate]
        ((from + found.0) as u32),
        end: #[verifier::truncate]
        ((from + found.1) as u32),
    };
    let next = if found.1 == 0 {
        from + 1
    } else {
        from + found.1
    };
    (range, next)
}

/// Every match of the matcher in the buffer, found by the repeated search.
///
/// In a buffer whose offsets fit in 32 bits the ranges lie within it, each
/// starts no later than it ends, and each ends no later than the next one
/// starts. There is no range if and only if the matcher matches nowhere in
/// the buffer.
pub fn find_spans(matcher: &RegexMatcher, bytes: &[u8]) -> (spans: Vec<MatchRange>)
    ensures
        spans@ == all_spans(matcher@, bytes@),
        bytes@.len() <= u32::MAX ==> ordered_spans(spans@, bytes@.len()),
        spans@.len() == 0 <==> !matches_in(matcher@, bytes@),
{
    let mut spans: Vec<MatchRange> = Vec::new();
    proof {
        spans_empty_iff_no_match(matcher@, bytes@);
    }
    if bytes.len() == 0 {
        match find_first(matcher.compiled(), bytes) {
            Ok(Some(found)) => {
                let (range, _) = shift_match(0, found);
                spans.push(range);
            },
            _ => {},
        }
        return spans;
    }
    let mut from: usize = 0;
    let mut done = false;
    while !done && from < bytes.len()
        invariant
            bytes@.len() > 0,
            from <= bytes@.len(),
            all_spans(matcher@, bytes@) == spans@ + (if done {
                Seq::empty()
            } else {
                spans_from(matcher@, bytes@, from as int)
            }),
            bytes@.len() <= u32::MAX ==> ordered_spans(spans@, bytes@.len()),
            bytes@.len() <= u32::MAX ==> forall|i: int|
                0 <= i < spans@.len() ==> (#[trigger] spans@[i]).end <= from,
        decreases bytes@.len() - from + (if done {
            0int
        } else {
            1int
        }),
    {
        let rest = slice_subrange(bytes, from, bytes.len());
        match find_first(matcher.compiled(), rest) {
            Ok(Some(found)) => {
                let (range, next) = shift_match(from, found);
                spans.push(range);
                from = next;
            },
            _ => {
                done = true;
            },
        }
    }
    spans
}

/// The repeated search reports nothing if and only if the matcher matches
/// nowhere in the buffer.
pub proof fn spans_empty_iff_no_match(source: MatcherSource, haystack: Seq<u8>)
    ensures
        all_spans(source, haystack).len() == 0 <==> !matches_in(source, haystack),
{
    if haystack.len() > 0 {
        assert(haystack.subrange(0, haystack.len() as int) =~= haystack);
    }
}

/// Each step of the repeated search goes on at least one byte further on
/// than it stood, so the search ends after at most as many steps as the
/// buffer has bytes.
pub proof fn search_makes_progress(source: MatcherSource, haystack: Seq<u8>, from: int)
    ensures
        forall|end: int| from + #[trigger] step(end) > from,
        0 <= from <= haystack.len() ==> spans_from(source, haystack, from).len()
            <= haystack.len() - from,
        !(0 <= from < haystack.len()) ==> spans_from(source, haystack, from).len() == 0,
    decreases bytes_left(haystack.len(), from),
{
    if 0 <= from < haystack.len() {
        match first_match(source, haystack.subrange(from, haystack.len() as int)) {
            Some((start, end)) => {
                search_makes_progress(source, haystack, from + step(end as int));
            },
            None => {},
        }
    }
}

} // verus!
