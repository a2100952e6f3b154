//! Configuring a scan and running it over a buffer.
//!
//! The options of a scan are plain values that this module keeps and reasons
//! about. The scan itself, line by line or over the whole buffer, is done by
//! `grep::searcher`, by an engine that is built for that one scan; its
//! reports are recorded as they come and then collected into one result.

use crate::error::{GrepError, GrepErrorView};
use crate::events::{event_views, ScanEvent, ScanEventView};
use crate::matcher::{low_byte, matcher_source, MatcherSource, RegexMatcher};
use crate::sink::{collect, collected, finish_record, lines_are_texts};
use crate::types::{BinaryDetectionMode, ContextKind, SearchResult};
use grep::matcher::LineTerminator;
use grep::regex::RegexMatcher as GrepRegexMatcher;
use grep::searcher::BinaryDetection;
use grep::searcher::Searcher as GrepSearcher;
use grep::searcher::SearcherBuilder as GrepSearcherBuilder;
use vstd::prelude::*;
use vstd::slice::slice_to_vec;

verus! {

/// What a scan does about binary data, with the byte that marks data as
/// binary.
#[derive(Clone, Copy, Debug)]
pub enum BinarySetting {
    /// The data is not inspected.
    Off,
    /// The scan ends where the byte is found.
    Quit(u8),
    /// The byte is treated as a line terminator.
    Convert(u8),
}

/// The options of a scan.
#[derive(Clone, Copy, Debug)]
pub struct SearchOptions {
    pub line_terminator: u8,
    pub invert_match: bool,
    pub line_number: bool,
    pub multi_line: bool,
    pub after_context: usize,
    pub before_context: usize,
    pub passthru: bool,
    pub heap_limit: Option<usize>,
    pub binary_detection: BinarySetting,
    pub bom_sniffing: bool,
    pub stop_on_nonmatch: bool,
    pub max_matches: Option<u64>,
}

/// The options of a builder that no setter has touched: lines end in a line
/// feed and are counted, a byte-order mark is looked for, and nothing else is
/// switched on or limited.
pub open spec fn default_search_options() -> SearchOptions {
    SearchOptions {
        line_terminator: 10,
        invert_match: false,
        line_number: true,
        multi_line: false,
        after_context: 0,
        before_context: 0,
        passthru: false,
        heap_limit: None,
        binary_detection: BinarySetting::Off,
        bom_sniffing: true,
        stop_on_nonmatch: false,
        max_matches: None,
    }
}

/// The setting that a detection mode stands for: the NUL byte marks data as
/// binary.
pub open spec fn binary_setting(mode: BinaryDetectionMode) -> BinarySetting {
    match mode {
        BinaryDetectionMode::Off => BinarySetting::Off,
        BinaryDetectionMode::Quit => BinarySetting::Quit(0),
        BinaryDetectionMode::Convert => BinarySetting::Convert(0),
    }
}

/// An optional 32-bit number as a size.
pub open spec fn optional_size(value: Option<u32>) -> Option<usize> {
    match value {
        Some(v) => Some(v as usize),
        None => None,
    }
}

/// An optional 32-bit number as a count.
pub open spec fn optional_count(value: Option<u32>) -> Option<u64> {
    match value {
        Some(v) => Some(v as u64),
        None => None,
    }
}

/// True if and only if the reports end with a summary and hold no other
/// summary.
pub open spec fn ends_with_summary(events: Seq<ScanEventView>) -> bool {
    &&& events.len() > 0
    &&& events.last() is Finish
    &&& forall|i: int| 0 <= i < events.len() - 1 ==> !(#[trigger] events[i] is Finish)
}

#[verifier::external_type_specification]
#[verifier::external_body]
pub struct ExSearcher(GrepSearcher);

#[verifier::external_type_specification]
#[verifier::external_body]
pub struct ExSinkMatch<'b>(grep::searcher::SinkMatch<'b>);

#[verifier::external_type_specification]
#[verifier::external_body]
pub struct ExSinkContext<'b>(grep::searcher::SinkContext<'b>);

#[verifier::external_type_specification]
#[verifier::external_body]
pub struct ExSinkFinish(grep::searcher::SinkFinish);

#[verifier::external_type_specification]
#[verifier::external_body]
pub struct ExIoError(std::io::Error);

#[verifier::external_type_specification]
pub struct ExSinkContextKind(grep::searcher::SinkContextKind);

/// What `grep::searcher::Searcher::search_slice` does with a buffer, for a
/// new engine built with the options and a matcher compiled from the source:
/// the reports that it makes to a sink that never stops it, in order, or the
/// message with which it fails.
pub uninterp spec fn slice_scan(
    options: SearchOptions,
    source: MatcherSource,
    haystack: Seq<u8>,
) -> Result<Seq<ScanEventView>, Seq<char>>;

/// What `grep::searcher::Searcher::search_reader` does with a reader that
/// yields the data, for a new engine built with the options and a matcher
/// compiled from the source: the reports that it makes to a sink that never
/// stops it, in order, or the message with which it fails.
pub uninterp spec fn reader_scan(
    options: SearchOptions,
    source: MatcherSource,
    data: Seq<u8>,
) -> Result<Seq<ScanEventView>, Seq<char>>;

impl From<grep::searcher::SinkContextKind> for ContextKind {
    /// The kind of context that the engine reports, as this library names it.
    fn from(kind: grep::searcher::SinkContextKind) -> (r: Self) {
        match kind {
            grep::searcher::SinkContextKind::Before => ContextKind::Before,
            grep::searcher::SinkContextKind::After => ContextKind::After,
            grep::searcher::SinkContextKind::Other => ContextKind::Other,
        }
    }
}

impl vstd::std_specs::convert::FromSpecImpl<grep::searcher::SinkContextKind> for ContextKind {
    open spec fn obeys_from_spec() -> bool {
        true
    }

    open spec fn from_spec(kind: grep::searcher::SinkContextKind) -> Self {
        match kind {
            grep::searcher::SinkContextKind::Before => ContextKind::Before,
            grep::searcher::SinkContextKind::After => ContextKind::After,
            grep::searcher::SinkContextKind::Other => ContextKind::Other,
        }
    }
}

/// Records the reports of one scan, in the order in which the engine makes
/// them, and never stops the scan.
struct EventLog {
    events: Vec<ScanEvent>,
}

impl EventLog {
    /// A record without reports.
    fn new() -> (r: Self)
        ensures
            event_views(r.events@) == Seq::<ScanEventView>::empty(),
    {
        let r = EventLog { events: Vec::new() };
        assert(event_views(r.events@) =~= Seq::<ScanEventView>::empty());
        r
    }

    /// Appends a match to the record.
    fn record_match(&mut self, line_number: Option<u64>, absolute_byte_offset: u64, bytes: &[u8])
        ensures
            event_views(final(self).events@) == event_views(old(self).events@).push(
                (ScanEventView::Match { line_number, absolute_byte_offset, bytes: bytes@ }),
            ),
    {
        let event = ScanEvent::Match {
            line_number,
            absolute_byte_offset,
            bytes: slice_to_vec(bytes),
        };
        let ghost before = self.events@;
        self.events.push(event);
        assert(event_views(self.events@) =~= event_views(before).push(event@));
    }

    /// Appends a context line to the record.
    fn record_context(
        &mut self,
        line_number: Option<u64>,
        absolute_byte_offset: u64,
        bytes: &[u8],
        kind: ContextKind,
    )
        ensures
            event_views(final(self).events@) == event_views(old(self).events@).push(
                (ScanEventView::Context { line_number, absolute_byte_offset, bytes: bytes@, kind }),
            ),
    {
        let event = ScanEvent::Context {
            line_number,
            absolute_byte_offset,
            bytes: slice_to_vec(bytes),
            kind,
        };
        let ghost before = self.events@;
        self.events.push(event);
        assert(event_views(self.events@) =~= event_views(before).push(event@));
    }

    /// Appends a summary to the record.
    fn record_finish(&mut self, byte_count: u64, binary_byte_offset: Option<u64>)
        ensures
            event_views(final(self).events@) == event_views(old(self).events@).push(
                (ScanEventView::Finish { byte_count, binary_byte_offset }),
            ),
    {
        let event = ScanEvent::Finish { byte_count, binary_byte_offset };
        let ghost before = self.events@;
        self.events.push(event);
        assert(event_views(self.events@) =~= event_views(before).push(event@));
    }
}

impl grep::searcher::Sink for EventLog {
    type Error = std::io::Error;

    /// Called by the engine for each match. Hands what
    /// `grep::searcher::SinkMatch` holds to `record_match`, and lets the scan
    /// go on.
    #[verifier::external_body]
    fn matched(&mut self, _engine: &GrepSearcher, found: &grep::searcher::SinkMatch<'_>) -> Result<
        bool,
        std::io::Error,
    > {
        self.record_match(found.line_number(), found.absolute_byte_offset(), found.bytes());
        Ok(true)
    }

    /// Called by the engine for each context line. Hands what
    /// `grep::searcher::SinkContext` holds to `record_context`, and lets the
    /// scan go on.
    #[verifier::external_body]
    fn context(&mut self, _engine: &GrepSearcher, line: &grep::searcher::SinkContext<'_>) -> Result<
        bool,
        std::io::Error,
    > {
        let kind = ContextKind::from(line.kind().clone());
        self.record_context(line.line_number(), line.absolute_byte_offset(), line.bytes(), kind);
        Ok(true)
    }

    /// Called by the engine once at the end of a scan that did not fail.
    /// Hands what `grep::searcher::SinkFinish` holds to `record_finish`.
    #[verifier::external_body]
    fn finish(&mut self, _engine: &GrepSearcher, summary: &grep::searcher::SinkFinish) -> Result<
        (),
        std::io::Error,
    > {
        self.record_finish(summary.byte_count(), summary.binary_byte_offset());
        Ok(())
    }
}

/// Builds a new engine and scans once with it: calls
/// `grep::searcher::SearcherBuilder::new`, each setter of the new builder
/// that has a counterpart in `options` with the value that `options` holds
/// for it, `build`, and then `Searcher::search_slice` on the buffer, with a
/// sink that records every report and never stops the scan. What is reported,
/// or the failure, is for the engine to decide; a scan that does not fail
/// reports its summary once, as its last report.
#[verifier::external_body]
fn scan_slice(options: &SearchOptions, matcher: &GrepRegexMatcher, slice: &[u8]) -> (r: Result<
    Vec<ScanEvent>,
    GrepError,
>)
    ensures
        match r {
            Ok(events) => slice_scan(*options, matcher_source(*matcher), slice@) == Ok::<
                Seq<ScanEventView>,
                Seq<char>,
            >(event_views(events@)) && ends_with_summary(event_views(events@)),
            Err(e) => slice_scan(*options, matcher_source(*matcher), slice@) == Err::<
                Seq<ScanEventView>,
                Seq<char>,
            >(e.message_spec()) && e@ is Operational,
        },
{
    let mut log = EventLog::new();
    GrepSearcherBuilder::new().line_terminator(LineTerminator::byte(options.line_terminator))
        .invert_match(options.invert_match).line_number(options.line_number)
        .multi_line(options.multi_line).after_context(options.after_context)
        .before_context(options.before_context).passthru(options.passthru)
        .heap_limit(options.heap_limit).bom_sniffing(options.bom_sniffing)
        .stop_on_nonmatch(options.stop_on_nonmatch).max_matches(options.max_matches)
        .binary_detection(match options.binary_detection {
            BinarySetting::Off => BinaryDetection::none(),
            BinarySetting::Quit(byte) => BinaryDetection::quit(byte),
            BinarySetting::Convert(byte) => BinaryDetection::convert(byte),
        })
        .build().search_slice(matcher, slice, &mut log)
        .map(|_| log.events).map_err(|e| GrepError::Operational(e.to_string()))
}

/// Builds a new engine and scans once with it: calls
/// `grep::searcher::SearcherBuilder::new`, each setter of the new builder
/// that has a counterpart in `options` with the value that `options` holds
/// for it, `build`, and then `Searcher::search_reader` on a
/// `std::io::Cursor` over the data, with a
/// sink that records every report and never stops the scan. What is reported,
/// or the failure, is for the engine to decide; a scan that does not fail
/// reports its summary once, as its last report.
#[verifier::external_body]
fn scan_reader(options: &SearchOptions, matcher: &GrepRegexMatcher, data: &[u8]) -> (r: Result<
    Vec<ScanEvent>,
    GrepError,
>)
    ensures
        match r {
            Ok(events) => reader_scan(*options, matcher_source(*matcher), data@) == Ok::<
                Seq<ScanEventView>,
                Seq<char>,
            >(event_views(events@)) && ends_with_summary(event_views(events@)),
            Err(e) => reader_scan(*options, matcher_source(*matcher), data@) == Err::<
                Seq<ScanEventView>,
                Seq<char>,
            >(e.message_spec()) && e@ is Operational,
        },
{
    let mut log = EventLog::new();
    GrepSearcherBuilder::new().line_terminator(LineTerminator::byte(options.line_terminator))
        .invert_match(options.invert_match).line_number(options.line_number)
        .multi_line(options.multi_line).after_context(options.after_context)
        .before_context(options.before_context).passthru(options.passthru)
        .heap_limit(options.heap_limit).bom_sniffing(options.bom_sniffing)
        .stop_on_nonmatch(options.stop_on_nonmatch).max_matches(options.max_matches)
        .binary_detection(match options.binary_detection {
            BinarySetting::Off => BinaryDetection::none(),
            BinarySetting::Quit(byte) => BinaryDetection::quit(byte),
            BinarySetting::Convert(byte) => BinaryDetection::convert(byte),
        })
        .build().search_reader(matcher, std::io::Cursor::new(data), &mut log)
        .map(|_| log.events).map_err(|e| GrepError::Operational(e.to_string()))
}

/// What a search returns for the outcome of the scan: the result collected
/// from the reports where the scan did not fail, with the matches within
/// each matching line found by a matcher compiled from the source and each
/// line's text that of its bytes, and else an operational error with the
/// engine's message.
pub open spec fn search_result(
    outcome: Result<Seq<ScanEventView>, Seq<char>>,
    source: MatcherSource,
    r: Result<SearchResult, GrepError>,
) -> bool {
    match r {
        Ok(result) => outcome matches Ok(events) && ends_with_summary(events) && result@
            == collected(source, events) && lines_are_texts(result@.matches, result@.context),
        Err(e) => outcome matches Err(message) && e@ == GrepErrorView::Operational(message),
    }
}

/// Collects the options of a scan and builds searchers with them.
#[derive(Debug)]
pub struct SearcherBuilder {
    options: SearchOptions,
}

impl Clone for SearcherBuilder {
    fn clone(&self) -> (r: Self)
        ensures
            r@ == self@,
    {
        SearcherBuilder { options: self.options }
    }
}

impl View for SearcherBuilder {
    type V = SearchOptions;

    closed spec fn view(&self) -> SearchOptions {
        self.options
    }
}

impl SearcherBuilder {
    /// A builder with the default options.
    pub fn new() -> (r: Self)
        ensures
            r@ == default_search_options(),
    {
        SearcherBuilder {
            options: SearchOptions {
                line_terminator: 10,
                invert_match: false,
                line_number: true,
                multi_line: false,
                after_context: 0,
                before_context: 0,
                passthru: false,
                heap_limit: None,
                binary_detection: BinarySetting::Off,
                bom_sniffing: true,
                stop_on_nonmatch: false,
                max_matches: None,
            },
        }
    }

    /// The current options.
    pub fn options(&self) -> (r: SearchOptions)
        ensures
            r == self@,
    {
        self.options
    }

    /// A searcher with the current options. It never fails.
    pub fn build(&self) -> (r: Searcher)
        ensures
            r@ == self@,
    {
        Searcher { options: self.options }
    }

    /// Sets the byte that ends a line to the low eight bits of the number.
    pub fn line_terminator(&mut self, byte: u32) -> (r: &Self)
        ensures
            final(self)@ == (SearchOptions { line_terminator: low_byte(byte), ..old(self)@ }),
            r@ == final(self)@,
    {
        self.options.line_terminator = (byte % 256) as u8;
        self
    }

    /// Sets whether the lines that do not match are reported as the matching
    /// ones.
    pub fn invert_match(&mut self, yes: bool) -> (r: &Self)
        ensures
            final(self)@ == (SearchOptions { invert_match: yes, ..old(self)@ }),
            r@ == final(self)@,
    {
        self.options.invert_match = yes;
        self
    }

    /// Sets whether lines are counted and reported with their numbers.
    pub fn line_number(&mut self, yes: bool) -> (r: &Self)
        ensures
            final(self)@ == (SearchOptions { line_number: yes, ..old(self)@ }),
            r@ == final(self)@,
    {
        self.options.line_number = yes;
        self
    }

    /// Sets whether a match may span several lines. The whole input is then
    /// held in memory.
    pub fn multi_line(&mut self, yes: bool) -> (r: &Self)
        ensures
            final(self)@ == (SearchOptions { multi_line: yes, ..old(self)@ }),
            r@ == final(self)@,
    {
        self.options.multi_line = yes;
        self
    }

    /// Sets how many lines are reported after each match.
    pub fn after_context(&mut self, line_count: u32) -> (r: &Self)
        ensures
            final(self)@ == (SearchOptions { after_context: line_count as usize, ..old(self)@ }),
            r@ == final(self)@,
    {
        self.options.after_context = line_count as usize;
        self
    }

    /// Sets how many lines are reported before each match.
    pub fn before_context(&mut self, line_count: u32) -> (r: &Self)
        ensures
            final(self)@ == (SearchOptions { before_context: line_count as usize, ..old(self)@ }),
            r@ == final(self)@,
    {
        self.options.before_context = line_count as usize;
        self
    }

    /// Sets passthru mode, in which every line that does not match is
    /// reported as context.
    pub fn passthru(&mut self, yes: bool) -> (r: &Self)
        ensures
            final(self)@ == (SearchOptions { passthru: yes, ..old(self)@ }),
            r@ == final(self)@,
    {
        self.options.passthru = yes;
        self
    }

    /// Sets the limit, in bytes, on the memory that a scan may take, or lifts
    /// it.
    pub fn heap_limit(&mut self, bytes: Option<u32>) -> (r: &Self)
        ensures
            final(self)@ == (SearchOptions { heap_limit: optional_size(bytes), ..old(self)@ }),
            r@ == final(self)@,
    {
        self.options.heap_limit = match bytes {
            Some(b) => Some(b as usize),
            None => None,
        };
        self
    }

    /// Sets what a scan does about binary data. The NUL byte marks data as
    /// binary.
    pub fn binary_detection(&mut self, mode: BinaryDetectionMode) -> (r: &Self)
        ensures
            final(self)@ == (SearchOptions { binary_detection: binary_setting(mode), ..old(self)@ }),
            r@ == final(self)@,
    {
        self.options.binary_detection = match mode {
            BinaryDetectionMode::Off => BinarySetting::Off,
            BinaryDetectionMode::Quit => BinarySetting::Quit(0),
            BinaryDetectionMode::Convert => BinarySetting::Convert(0),
        };
        self
    }

    /// Sets whether a byte-order mark at the start of the input decides how
    /// the input is decoded.
    pub fn bom_sniffing(&mut self, yes: bool) -> (r: &Self)
        ensures
            final(self)@ == (SearchOptions { bom_sniffing: yes, ..old(self)@ }),
            r@ == final(self)@,
    {
        self.options.bom_sniffing = yes;
        self
    }

    /// Sets whether a scan ends at the first line that does not match after
    /// one that did.
    pub fn stop_on_nonmatch(&mut self, yes: bool) -> (r: &Self)
        ensures
            final(self)@ == (SearchOptions { stop_on_nonmatch: yes, ..old(self)@ }),
            r@ == final(self)@,
    {
        self.options.stop_on_nonmatch = yes;
        self
    }

    /// Sets the number of matches after which a scan ends, or lifts the
    /// limit.
    pub fn max_matches(&mut self, limit: Option<u32>) -> (r: &Self)
        ensures
            final(self)@ == (SearchOptions { max_matches: optional_count(limit), ..old(self)@ }),
            r@ == final(self)@,
    {
        self.options.max_matches = match limit {
            Some(l) => Some(l as u64),
            None => None,
        };
        self
    }
}

impl Default for SearcherBuilder {
    fn default() -> (r: Self)
        ensures
            r@ == default_search_options(),
    {
        SearcherBuilder::new()
    }
}

/// Scans buffers for the lines that a matcher matches. One searcher serves
/// any number of scans, one after the other, and its options never change.
/// Each scan runs on an engine of its own, so that no scan depends on the
/// scans before it.
#[derive(Debug)]
pub struct Searcher {
    options: SearchOptions,
}

impl Clone for Searcher {
    fn clone(&self) -> (r: Self)
        ensures
            r@ == self@,
    {
        Searcher { options: self.options }
    }
}

impl View for Searcher {
    type V = SearchOptions;

    closed spec fn view(&self) -> SearchOptions {
        self.options
    }
}

impl Searcher {
    /// A searcher with the default options.
    pub fn new() -> (r: Self)
        ensures
            r@ == default_search_options(),
    {
        SearcherBuilder::new().build()
    }

    /// Scans a buffer held in memory and collects what the scan reports.
    pub fn search_slice(&mut self, matcher: &RegexMatcher, slice: &[u8]) -> (r: Result<
        SearchResult,
        GrepError,
    >)
        ensures
            final(self)@ == old(self)@,
            search_result(slice_scan(old(self)@, matcher@, slice@), matcher@, r),
    {
        match scan_slice(&self.options, matcher.compiled(), slice) {
            Ok(events) => Ok(collect(matcher, &events)),
            Err(e) => Err(e),
        }
    }

    /// Scans data through a reader, as a stream is scanned, and collects what
    /// the scan reports.
    pub fn search_reader(&mut self, matcher: &RegexMatcher, data: &[u8]) -> (r: Result<
        SearchResult,
        GrepError,
    >)
        ensures
            final(self)@ == old(self)@,
            search_result(reader_scan(old(self)@, matcher@, data@), matcher@, r),
    {
        match scan_reader(&self.options, matcher.compiled(), data) {
            Ok(events) => Ok(collect(matcher, &events)),
            Err(e) => Err(e),
        }
    }
}

impl Default for Searcher {
    fn default() -> (r: Self)
        ensures
            r@ == default_search_options(),
    {
        Searcher::new()
    }
}

/// Two scans of the same buffer with the same matcher, by searchers built
/// with the same options, return the same: both the same result, or both the
/// same error. It does not matter what either searcher has scanned before.
pub proof fn scans_agree(
    options: SearchOptions,
    first: Searcher,
    second: Searcher,
    source: MatcherSource,
    haystack: Seq<u8>,
    first_result: Result<SearchResult, GrepError>,
    second_result: Result<SearchResult, GrepError>,
)
    requires
        first@ == options,
        second@ == options,
        search_result(slice_scan(first@, source, haystack), source, first_result),
        search_result(slice_scan(second@, source, haystack), source, second_result),
    ensures
        match (first_result, second_result) {
            (Ok(a), Ok(b)) => a@ == b@,
            (Err(a), Err(b)) => a@ == b@,
            _ => false,
        },
{
}

/// The summary of a collected result is the one that the scan reported last.
pub proof fn summary_is_last_report(source: MatcherSource, events: Seq<ScanEventView>)
    requires
        ends_with_summary(events),
    ensures
        events.last() matches ScanEventView::Finish { byte_count, binary_byte_offset }
            && collected(source, events).finish == finish_record(byte_count, binary_byte_offset),
{
}

} // verus!
