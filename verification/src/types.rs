//! The values that a search reports.

use vstd::prelude::*;

verus! {

/// Why a line that did not match was reported.
#[derive(Clone, Copy, Debug, PartialEq, Eq, Structural)]
pub enum ContextKind {
    /// The line precedes a matching line.
    Before,
    /// The line follows a matching line.
    After,
    /// Any other reported line, such as one reported in passthru mode.
    Other,
}

/// What a searcher does about binary data.
#[derive(Clone, Copy, Debug, PartialEq, Eq, Structural)]
pub enum BinaryDetectionMode {
    /// The data is not inspected.
    Off,
    /// The scan ends where a NUL byte is found.
    Quit,
    /// NUL bytes are treated as line terminators.
    Convert,
}

/// A half-open range of byte offsets, `[start, end)`, in the buffer that was
/// matched against.
#[derive(Clone, Copy, Debug, PartialEq, Eq, Structural)]
pub struct MatchRange {
    /// The offset of the first byte of the match.
    pub start: u32,
    /// The offset just behind the last byte of the match.
    pub end: u32,
}

/// A matching line.
#[derive(Clone, Debug)]
pub struct SearchMatch {
    /// The number of the line, counted from 1, where lines are counted.
    pub line_number: Option<u32>,
    /// The offset of the line's first byte from the start of the input.
    pub absolute_byte_offset: i64,
    /// The line as text; bytes that are not UTF-8 are replaced.
    pub line: String,
    /// The bytes of the line, its terminator included.
    pub bytes: Vec<u8>,
    /// The matches within `bytes`, in ascending order.
    pub matches: Vec<MatchRange>,
}

/// A [`SearchMatch`] in contracts.
pub struct SearchMatchView {
    pub line_number: Option<u32>,
    pub absolute_byte_offset: i64,
    pub line: Seq<char>,
    pub bytes: Seq<u8>,
    pub matches: Seq<MatchRange>,
}

impl View for SearchMatch {
    type V = SearchMatchView;

    open spec fn view(&self) -> SearchMatchView {
        SearchMatchView {
            line_number: self.line_number,
            absolute_byte_offset: self.absolute_byte_offset,
            line: self.line@,
            bytes: self.bytes@,
            matches: self.matches@,
        }
    }
}

/// A line that did not match and was reported for its place.
#[derive(Clone, Debug)]
pub struct SearchContext {
    /// The number of the line, counted from 1, where lines are counted.
    pub line_number: Option<u32>,
    /// The offset of the line's first byte from the start of the input.
    pub absolute_byte_offset: i64,
    /// The line as text; bytes that are not UTF-8 are replaced.
    pub line: String,
    /// The bytes of the line, its terminator included.
    pub bytes: Vec<u8>,
    /// Why the line was reported.
    pub kind: ContextKind,
}

/// A [`SearchContext`] in contracts.
pub struct SearchContextView {
    pub line_number: Option<u32>,
    pub absolute_byte_offset: i64,
    pub line: Seq<char>,
    pub bytes: Seq<u8>,
    pub kind: ContextKind,
}

impl View for SearchContext {
    type V = SearchContextView;

    open spec fn view(&self) -> SearchContextView {
        SearchContextView {
            line_number: self.line_number,
            absolute_byte_offset: self.absolute_byte_offset,
            line: self.line@,
            bytes: self.bytes@,
            kind: self.kind,
        }
    }
}

/// The summary of a finished scan.
#[derive(Clone, Copy, Debug, PartialEq, Eq, Structural)]
pub struct SearchFinish {
    /// The number of bytes that the scan consumed.
    pub byte_count: i64,
    /// The offset at which binary data was first found, if any was.
    pub binary_byte_offset: Option<i64>,
}

/// All that one scan reported.
#[derive(Clone, Debug)]
pub struct SearchResult {
    /// The matching lines, in the order of the input.
    pub matches: Vec<SearchMatch>,
    /// The context lines, in the order of the input.
    pub context: Vec<SearchContext>,
    /// The summary.
    pub finish: SearchFinish,
}

/// A [`SearchResult`] in contracts.
pub struct SearchResultView {
    pub matches: Seq<SearchMatchView>,
    pub context: Seq<SearchContextView>,
    pub finish: SearchFinish,
}

impl View for SearchResult {
    type V = SearchResultView;

    open spec fn view(&self) -> SearchResultView {
        SearchResultView {
            matches: self.matches@.map_values(|m: SearchMatch| m@),
            context: self.context@.map_values(|c: SearchContext| c@),
            finish: self.finish,
        }
    }
}

} // verus!
