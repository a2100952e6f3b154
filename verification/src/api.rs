//! Shorthands that compile a pattern under the default options and use the
//! matcher once.

use crate::error::{GrepError, GrepErrorView};
use crate::matcher::{
    compile_failure, default_options, default_source, first_span, matches_in, RegexMatcher,
};
use crate::searcher::{default_search_options, search_result, slice_scan, Searcher};
use crate::spans::{all_spans, ordered_spans};
use crate::types::{MatchRange, SearchResult};
use vstd::prelude::*;

verus! {

/// True if and only if the result is the compile error with which the
/// pattern is refused under the default options.
pub open spec fn refused<T>(pattern: Seq<char>, r: Result<T, GrepError>) -> bool {
    r matches Err(e) && compile_failure(default_options(), seq![pattern]) matches Some(message)
        && e@ == GrepErrorView::Compile(message)
}

/// True if and only if the pattern compiles under the default options.
pub open spec fn compiles(pattern: Seq<char>) -> bool {
    compile_failure(default_options(), seq![pattern]) is None
}

/// Scans a buffer for the lines that the pattern matches, with the default
/// options for the matcher and for the scan.
pub fn search(pattern: String, haystack: &[u8]) -> (r: Result<SearchResult, GrepError>)
    ensures
        !compiles(pattern@) ==> refused(pattern@, r),
        compiles(pattern@) ==> search_result(
            slice_scan(default_search_options(), default_source(pattern@), haystack@),
            default_source(pattern@),
            r,
        ),
{
    let matcher = match RegexMatcher::from_pattern(pattern) {
        Ok(m) => m,
        Err(e) => {
            return Err(e);
        },
    };
    let mut searcher = Searcher::new();
    searcher.search_slice(&matcher, haystack)
}

/// True if and only if the pattern matches somewhere in the text.
pub fn is_match(pattern: String, text: &[u8]) -> (r: Result<bool, GrepError>)
    ensures
        !compiles(pattern@) ==> refused(pattern@, r),
        compiles(pattern@) ==> (r matches Ok(yes) && yes == matches_in(
            default_source(pattern@),
            text@,
        )),
{
    let matcher = match RegexMatcher::from_pattern(pattern) {
        Ok(m) => m,
        Err(e) => {
            return Err(e);
        },
    };
    matcher.is_match(text)
}

/// The first match of the pattern in the text, or `None` where there is none.
pub fn find(pattern: String, text: &[u8]) -> (r: Result<Option<MatchRange>, GrepError>)
    ensures
        !compiles(pattern@) ==> refused(pattern@, r),
        compiles(pattern@) ==> (r matches Ok(found) && found == first_span(
            default_source(pattern@),
            text@,
        )),
{
    let matcher = match RegexMatcher::from_pattern(pattern) {
        Ok(m) => m,
        Err(e) => {
            return Err(e);
        },
    };
    matcher.find(text)
}

/// Every match of the pattern in the text, found by searching again behind
/// each match.
pub fn find_all(pattern: String, text: &[u8]) -> (r: Result<Vec<MatchRange>, GrepError>)
    ensures
        !compiles(pattern@) ==> refused(pattern@, r),
        compiles(pattern@) ==> (r matches Ok(spans) && spans@ == all_spans(
            default_source(pattern@),
            text@,
        )),
        r matches Ok(spans) ==> (text@.len() <= u32::MAX ==> ordered_spans(spans@, text@.len())),
        r matches Ok(spans) ==> (spans@.len() == 0 <==> !matches_in(
            default_source(pattern@),
            text@,
        )),
{
    let matcher = match RegexMatcher::from_pattern(pattern) {
        Ok(m) => m,
        Err(e) => {
            return Err(e);
        },
    };
    matcher.find_all(text)
}

} // verus!
