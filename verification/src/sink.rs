//! The collecting sink: it takes the reports of a scan one by one and keeps
//! them all, and finds for each matching line where in the line the matches
//! are.

use crate::events::{event_views, ScanEvent, ScanEventView};
use crate::matcher::{MatcherSource, RegexMatcher};
use crate::spans::{all_spans, find_spans, ordered_spans};
use crate::types::{
    ContextKind, MatchRange, SearchContext, SearchContextView, SearchFinish, SearchMatch,
    SearchMatchView, SearchResult, SearchResultView,
};
use vstd::prelude::*;
use vstd::slice::slice_to_vec;
use vstd::utf8::{decode_utf8, decode_utf8_encode_utf8, encode_utf8, valid_utf8};

verus! {

/// The text that `String::from_utf8_lossy` makes of the bytes.
pub uninterp spec fn lossy_utf8(bytes: Seq<u8>) -> Seq<char>;

/// The text of a line: the characters that its bytes encode where the bytes
/// are valid UTF-8, and else the text in which each invalid sequence is
/// replaced by U+FFFD.
pub open spec fn line_text(bytes: Seq<u8>) -> Seq<char> {
    if valid_utf8(bytes) {
        decode_utf8(bytes)
    } else {
        lossy_utf8(bytes)
    }
}

/// Calls `String::from_utf8_lossy` and takes the text as a `String`. Bytes
/// that are valid UTF-8 are decoded as they are; in other bytes each invalid
/// sequence is replaced by U+FFFD.
#[verifier::external_body]
fn lossy_text(bytes: &[u8]) -> (r: String)
    ensures
        valid_utf8(bytes@) ==> r@ == decode_utf8(bytes@),
        !valid_utf8(bytes@) ==> r@ == lossy_utf8(bytes@),
{
    String::from_utf8_lossy(bytes).into_owned()
}

/// A line number in the 32 bits of a result: its low 32 bits.
pub open spec fn narrow_line(line_number: Option<u64>) -> Option<u32> {
    match line_number {
        Some(n) => Some(n as u32),
        None => None,
    }
}

/// An offset in the signed 64 bits of a result.
pub open spec fn signed_offset(offset: u64) -> i64 {
    offset as i64
}

/// An optional offset in the signed 64 bits of a result.
pub open spec fn signed_optional(offset: Option<u64>) -> Option<i64> {
    match offset {
        Some(n) => Some(n as i64),
        None => None,
    }
}

/// What is kept of a reported match: the line with its text and with every
/// match of the matcher within it.
pub open spec fn match_record(
    source: MatcherSource,
    line_number: Option<u64>,
    absolute_byte_offset: u64,
    bytes: Seq<u8>,
) -> SearchMatchView {
    SearchMatchView {
        line_number: narrow_line(line_number),
        absolute_byte_offset: signed_offset(absolute_byte_offset),
        line: line_text(bytes),
        bytes,
        matches: all_spans(source, bytes),
    }
}

/// What is kept of a reported context line.
pub open spec fn context_record(
    line_number: Option<u64>,
    absolute_byte_offset: u64,
    bytes: Seq<u8>,
    kind: ContextKind,
) -> SearchContextView {
    SearchContextView {
        line_number: narrow_line(line_number),
        absolute_byte_offset: signed_offset(absolute_byte_offset),
        line: line_text(bytes),
        bytes,
        kind,
    }
}

/// What is kept of the summary.
pub open spec fn finish_record(byte_count: u64, binary_byte_offset: Option<u64>) -> SearchFinish {
    SearchFinish {
        byte_count: signed_offset(byte_count),
        binary_byte_offset: signed_optional(binary_byte_offset),
    }
}

/// A [`CollectSink`] in contracts.
pub struct CollectSinkView {
    pub matcher: MatcherSource,
    pub matches: Seq<SearchMatchView>,
    pub context: Seq<SearchContextView>,
    pub finish: Option<SearchFinish>,
}

/// The sink before any report.
pub open spec fn empty_sink(source: MatcherSource) -> CollectSinkView {
    CollectSinkView {
        matcher: source,
        matches: Seq::empty(),
        context: Seq::empty(),
        finish: None,
    }
}

/// The sink after one more report: a match or a context line is appended to
/// its kind, a summary replaces the one before.
pub open spec fn after_event(sink: CollectSinkView, event: ScanEventView) -> CollectSinkView {
    match event {
        ScanEventView::Match { line_number, absolute_byte_offset, bytes } => CollectSinkView {
            matches: sink.matches.push(
                match_record(sink.matcher, line_number, absolute_byte_offset, bytes),
            ),
            ..sink
        },
        ScanEventView::Context { line_number, absolute_byte_offset, bytes, kind } => CollectSinkView {
            context: sink.context.push(
                context_record(line_number, absolute_byte_offset, bytes, kind),
            ),
            ..sink
        },
        ScanEventView::Finish { byte_count, binary_byte_offset } => CollectSinkView {
            finish: Some(finish_record(byte_count, binary_byte_offset)),
            ..sink
        },
    }
}

/// The sink after a sequence of reports, taken in order.
pub open spec fn after_events(sink: CollectSinkView, events: Seq<ScanEventView>) -> CollectSinkView
    decreases events.len(),
{
    if events.len() == 0 {
        sink
    } else {
        after_event(after_events(sink, events.drop_last()), events.last())
    }
}

/// The result that a sink gives up: what it has kept, and an empty summary
/// where none was reported.
pub open spec fn result_of(sink: CollectSinkView) -> SearchResultView {
    SearchResultView {
        matches: sink.matches,
        context: sink.context,
        finish: match sink.finish {
            Some(f) => f,
            None => SearchFinish { byte_count: 0, binary_byte_offset: None },
        },
    }
}

/// The result collected from a sequence of reports.
pub open spec fn collected(source: MatcherSource, events: Seq<ScanEventView>) -> SearchResultView {
    result_of(after_events(empty_sink(source), events))
}

/// True if and only if every kept line has the text of its bytes.
pub open spec fn lines_are_texts(
    matches: Seq<SearchMatchView>,
    context: Seq<SearchContextView>,
) -> bool {
    &&& forall|i: int|
        0 <= i < matches.len() ==> (#[trigger] matches[i]).line == line_text(matches[i].bytes)
    &&& forall|i: int|
        0 <= i < context.len() ==> (#[trigger] context[i]).line == line_text(context[i].bytes)
}

/// A sink that holds the text of each line's bytes does so after any
/// sequence of reports.
pub proof fn reports_keep_texts(sink: CollectSinkView, events: Seq<ScanEventView>)
    requires
        lines_are_texts(sink.matches, sink.context),
    ensures
        lines_are_texts(after_events(sink, events).matches, after_events(sink, events).context),
    decreases events.len(),
{
    if events.len() > 0 {
        reports_keep_texts(sink, events.drop_last());
    }
}

/// Every line of a collected result has the text of its bytes: for bytes
/// that are valid UTF-8 the characters that they encode, so that the text,
/// encoded again, is the bytes.
pub proof fn collected_lines_are_texts(source: MatcherSource, events: Seq<ScanEventView>)
    ensures
        lines_are_texts(collected(source, events).matches, collected(source, events).context),
        forall|i: int|
            0 <= i < collected(source, events).matches.len() && valid_utf8(
                (#[trigger] collected(source, events).matches[i]).bytes,
            ) ==> encode_utf8(collected(source, events).matches[i].line) == collected(
                source,
                events,
            ).matches[i].bytes,
        forall|i: int|
            0 <= i < collected(source, events).context.len() && valid_utf8(
                (#[trigger] collected(source, events).context[i]).bytes,
            ) ==> encode_utf8(collected(source, events).context[i].line) == collected(
                source,
                events,
            ).context[i].bytes,
{
    reports_keep_texts(empty_sink(source), events);
    let result = collected(source, events);
    assert forall|i: int|
        0 <= i < result.matches.len() && valid_utf8(
            (#[trigger] result.matches[i]).bytes,
        ) implies encode_utf8(result.matches[i].line) == result.matches[i].bytes by {
        decode_utf8_encode_utf8(result.matches[i].bytes);
    }
    assert forall|i: int|
        0 <= i < result.context.len() && valid_utf8(
            (#[trigger] result.context[i]).bytes,
        ) implies encode_utf8(result.context[i].line) == result.context[i].bytes by {
        decode_utf8_encode_utf8(result.context[i].bytes);
    }
}

/// Keeps every report of a scan in memory.
pub struct CollectSink {
    matcher: RegexMatcher,
    matches: Vec<SearchMatch>,
    context: Vec<SearchContext>,
    finish: Option<SearchFinish>,
}

impl View for CollectSink {
    type V = CollectSinkView;

    closed spec fn view(&self) -> CollectSinkView {
        CollectSinkView {
            matcher: self.matcher@,
            matches: self.matches@.map_values(|m: SearchMatch| m@),
            context: self.context@.map_values(|c: SearchContext| c@),
            finish: self.finish,
        }
    }
}

impl CollectSink {
    /// A sink that has kept nothing yet. It finds the matches within a line
    /// with `matcher`.
    pub fn new(matcher: RegexMatcher) -> (r: Self)
        ensures
            r@ == empty_sink(matcher@),
    {
        let r = CollectSink {
            matcher,
            matches: Vec::new(),
            context: Vec::new(),
            finish: None,
        };
        assert(r@.matches =~= Seq::empty());
        assert(r@.context =~= Seq::empty());
        r
    }

    /// Takes a reported match: keeps the line, its text, and every match of
    /// the matcher within the line. Returns `true`: the scan is to go on.
    pub fn matched(
        &mut self,
        line_number: Option<u64>,
        absolute_byte_offset: u64,
        bytes: &[u8],
    ) -> (more: bool)
        ensures
            more,
            final(self)@ == after_event(
                old(self)@,
                (ScanEventView::Match { line_number, absolute_byte_offset, bytes: bytes@ }),
            ),
            bytes@.len() <= u32::MAX ==> ordered_spans(
                final(self)@.matches.last().matches,
                bytes@.len(),
            ),
            valid_utf8(bytes@) ==> final(self)@.matches.last().line == decode_utf8(bytes@),
            valid_utf8(bytes@) ==> encode_utf8(final(self)@.matches.last().line) == bytes@,
    {
        proof {
            if valid_utf8(bytes@) {
                decode_utf8_encode_utf8(bytes@);
            }
        }
        let line = lossy_text(bytes);
        let matches = find_spans(&self.matcher, bytes);
        let record = SearchMatch {
            line_number: match line_number {
                Some(n) => Some(
                    #[verifier::truncate]
                    (n as u32),
                ),
                None => None,
            },
            absolute_byte_offset: #[verifier::truncate]
            (absolute_byte_offset as i64),
            line,
            bytes: slice_to_vec(bytes),
            matches,
        };
        let ghost before = self.matches@;
        self.matches.push(record);
        assert(self.matches@.map_values(|m: SearchMatch| m@) =~= before.map_values(
            |m: SearchMatch| m@,
        ).push(record@));
        true
    }

    /// Takes a reported context line and keeps it with its text. Returns
    /// `true`: the scan is to go on.
    pub fn context(
        &mut self,
        line_number: Option<u64>,
        absolute_byte_offset: u64,
        bytes: &[u8],
        kind: ContextKind,
    ) -> (more: bool)
        ensures
            more,
            final(self)@ == after_event(
                old(self)@,
                (ScanEventView::Context { line_number, absolute_byte_offset, bytes: bytes@, kind }),
            ),
            valid_utf8(bytes@) ==> final(self)@.context.last().line == decode_utf8(bytes@),
            valid_utf8(bytes@) ==> encode_utf8(final(self)@.context.last().line) == bytes@,
    {
        proof {
            if valid_utf8(bytes@) {
                decode_utf8_encode_utf8(bytes@);
            }
        }
        let line = lossy_text(bytes);
        let record = SearchContext {
            line_number: match line_number {
                Some(n) => Some(
                    #[verifier::truncate]
                    (n as u32),
                ),
                None => None,
            },
            absolute_byte_offset: #[verifier::truncate]
            (absolute_byte_offset as i64),
            line,
            bytes: slice_to_vec(bytes),
            kind,
        };
        let ghost before = self.context@;
        self.context.push(record);
        assert(self.context@.map_values(|c: SearchContext| c@) =~= before.map_values(
            |c: SearchContext| c@,
        ).push(record@));
        true
    }

    /// Takes the summary of the scan, in place of any summary taken before.
    pub fn finish(&mut self, byte_count: u64, binary_byte_offset: Option<u64>)
        ensures
            final(self)@ == after_event(
                old(self)@,
                (ScanEventView::Finish { byte_count, binary_byte_offset }),
            ),
    {
        self.finish = Some(
            SearchFinish {
                byte_count: #[verifier::truncate]
                (byte_count as i64),
                binary_byte_offset: match binary_byte_offset {
                    Some(n) => Some(
                        #[verifier::truncate]
                        (n as i64),
                    ),
                    None => None,
                },
            },
        );
    }

    /// Takes one report, whatever its kind. Returns `true`: the scan is to go
    /// on.
    pub fn accept(&mut self, event: &ScanEvent) -> (more: bool)
        ensures
            more,
            final(self)@ == after_event(old(self)@, event@),
    {
        match event {
            ScanEvent::Match { line_number, absolute_byte_offset, bytes } => self.matched(
                *line_number,
                *absolute_byte_offset,
                bytes.as_slice(),
            ),
            ScanEvent::Context { line_number, absolute_byte_offset, bytes, kind } => self.context(
                *line_number,
                *absolute_byte_offset,
                bytes.as_slice(),
                *kind,
            ),
            ScanEvent::Finish { byte_count, binary_byte_offset } => {
                self.finish(*byte_count, *binary_byte_offset);
                true
            },
        }
    }

    /// Gives up what the sink has kept. Where no summary was reported, the
    /// summary counts no bytes and no binary data.
    pub fn into_result(self) -> (r: SearchResult)
        ensures
            r@ == result_of(self@),
    {
        let finish = match self.finish {
            Some(f) => f,
            None => SearchFinish { byte_count: 0, binary_byte_offset: None },
        };
        SearchResult { matches: self.matches, context: self.context, finish }
    }
}

/// Collects the reports of a scan into one result: the matching lines and the
/// context lines, each kind in the order reported, and the last summary.
pub fn collect(matcher: &RegexMatcher, events: &Vec<ScanEvent>) -> (r: SearchResult)
    ensures
        r@ == collected(matcher@, event_views(events@)),
        lines_are_texts(r@.matches, r@.context),
{
    proof {
        collected_lines_are_texts(matcher@, event_views(events@));
    }
    let mut sink = CollectSink::new(matcher.clone());
    let mut i: usize = 0;
    assert(event_views(events@).take(0) =~= Seq::empty());
    while i < events.len()
        invariant
            i <= events@.len(),
            sink@ == after_events(empty_sink(matcher@), event_views(events@).take(i as int)),
        decreases events@.len() - i,
    {
        let ghost seen = event_views(events@).take(i as int);
        let ghost next = event_views(events@).take(i + 1);
        sink.accept(&events[i]);
        assert(next.drop_last() =~= seen);
        assert(next.last() == events@[i as int]@);
        i = i + 1;
    }
    assert(event_views(events@).take(i as int) =~= event_views(events@));
    sink.into_result()
}

} // verus!
