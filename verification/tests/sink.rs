use line_search::{
    collect, CollectSink, ContextKind, RegexMatcher, RegexMatcherBuilder, ScanEvent,
};

fn matcher(pattern: &str) -> RegexMatcher {
    RegexMatcher::from_pattern(pattern.to_string()).unwrap()
}

#[test]
fn a_match_is_kept_with_its_text_and_its_ranges() {
    let mut sink = CollectSink::new(matcher("foo"));
    assert!(sink.matched(Some(7), 40, b"foo bar foo\n"));
    let result = sink.into_result();
    assert_eq!(result.matches.len(), 1);
    let kept = &result.matches[0];
    assert_eq!(kept.line_number, Some(7));
    assert_eq!(kept.absolute_byte_offset, 40);
    assert_eq!(kept.line, "foo bar foo\n");
    assert_eq!(kept.bytes, b"foo bar foo\n".to_vec());
    let spans: Vec<(u32, u32)> = kept.matches.iter().map(|m| (m.start, m.end)).collect();
    assert_eq!(spans, vec![(0, 3), (8, 11)]);
}

#[test]
fn a_match_that_the_matcher_does_not_find_has_no_ranges() {
    let mut sink = CollectSink::new(matcher("foo"));
    assert!(sink.matched(None, 0, b"bar\n"));
    let result = sink.into_result();
    assert_eq!(result.matches[0].line_number, None);
    assert!(result.matches[0].matches.is_empty());
}

#[test]
fn a_context_line_is_kept_with_its_kind() {
    let mut sink = CollectSink::new(matcher("foo"));
    assert!(sink.context(Some(1), 0, b"a\n", ContextKind::Before));
    assert!(sink.context(Some(3), 4, b"c\xfe\n", ContextKind::After));
    assert!(sink.context(None, 9, b"", ContextKind::Other));
    let result = sink.into_result();
    assert!(result.matches.is_empty());
    let kinds: Vec<ContextKind> = result.context.iter().map(|c| c.kind).collect();
    assert_eq!(kinds, vec![ContextKind::Before, ContextKind::After, ContextKind::Other]);
    assert_eq!(result.context[1].line, "c\u{fffd}\n");
    assert_eq!(result.context[1].bytes, b"c\xfe\n".to_vec());
    assert_eq!(result.context[1].absolute_byte_offset, 4);
    assert_eq!(result.context[2].line, "");
    assert_eq!(result.context[2].line_number, None);
}

#[test]
fn without_a_summary_the_result_counts_nothing() {
    let sink = CollectSink::new(matcher("foo"));
    let result = sink.into_result();
    assert_eq!(result.finish.byte_count, 0);
    assert_eq!(result.finish.binary_byte_offset, None);
    assert!(result.matches.is_empty());
    assert!(result.context.is_empty());
}

#[test]
fn the_last_summary_is_kept() {
    let mut sink = CollectSink::new(matcher("foo"));
    sink.finish(10, None);
    sink.finish(25, Some(12));
    let result = sink.into_result();
    assert_eq!(result.finish.byte_count, 25);
    assert_eq!(result.finish.binary_byte_offset, Some(12));
}

#[test]
fn wide_numbers_are_cut_down_to_the_width_of_the_result() {
    let mut sink = CollectSink::new(matcher("x"));
    assert!(sink.matched(Some((1u64 << 32) + 5), u64::MAX, b"x"));
    assert!(sink.context(Some(u64::MAX), 1u64 << 63, b"y", ContextKind::Other));
    sink.finish(u64::MAX - 1, Some(u64::MAX));
    let result = sink.into_result();
    assert_eq!(result.matches[0].line_number, Some(5));
    assert_eq!(result.matches[0].absolute_byte_offset, -1);
    assert_eq!(result.context[0].line_number, Some(u32::MAX));
    assert_eq!(result.context[0].absolute_byte_offset, i64::MIN);
    assert_eq!(result.finish.byte_count, -2);
    assert_eq!(result.finish.binary_byte_offset, Some(-1));
}

#[test]
fn accept_takes_each_kind_of_report() {
    let mut sink = CollectSink::new(matcher("b"));
    assert!(sink.accept(&ScanEvent::Context {
        line_number: Some(1),
        absolute_byte_offset: 0,
        bytes: b"a\n".to_vec(),
        kind: ContextKind::Before,
    }));
    assert!(sink.accept(&ScanEvent::Match {
        line_number: Some(2),
        absolute_byte_offset: 2,
        bytes: b"b\n".to_vec(),
    }));
    assert!(sink.accept(&ScanEvent::Finish { byte_count: 4, binary_byte_offset: None }));
    let result = sink.into_result();
    assert_eq!(result.context.len(), 1);
    assert_eq!(result.matches.len(), 1);
    assert_eq!((result.matches[0].matches[0].start, result.matches[0].matches[0].end), (0, 1));
    assert_eq!(result.finish.byte_count, 4);
}

#[test]
fn collect_keeps_each_kind_in_the_order_reported() {
    let events = vec![
        ScanEvent::Match { line_number: Some(1), absolute_byte_offset: 0, bytes: b"ab\n".to_vec() },
        ScanEvent::Context {
            line_number: Some(2),
            absolute_byte_offset: 3,
            bytes: b"x\n".to_vec(),
            kind: ContextKind::After,
        },
        ScanEvent::Context {
            line_number: Some(3),
            absolute_byte_offset: 5,
            bytes: b"y\n".to_vec(),
            kind: ContextKind::Before,
        },
        ScanEvent::Match { line_number: Some(4), absolute_byte_offset: 7, bytes: b"bb\n".to_vec() },
        ScanEvent::Finish { byte_count: 10, binary_byte_offset: None },
    ];
    let result = collect(&matcher("b"), &events);
    let numbers: Vec<Option<u32>> = result.matches.iter().map(|m| m.line_number).collect();
    assert_eq!(numbers, vec![Some(1), Some(4)]);
    let offsets: Vec<i64> = result.context.iter().map(|c| c.absolute_byte_offset).collect();
    assert_eq!(offsets, vec![3, 5]);
    let spans: Vec<(u32, u32)> =
        result.matches[1].matches.iter().map(|m| (m.start, m.end)).collect();
    assert_eq!(spans, vec![(0, 1), (1, 2)]);
    assert_eq!(result.finish.byte_count, 10);
}

#[test]
fn collect_of_no_reports_is_the_empty_result() {
    let result = collect(&matcher("b"), &Vec::new());
    assert!(result.matches.is_empty());
    assert!(result.context.is_empty());
    assert_eq!(result.finish.byte_count, 0);
}

#[test]
fn the_sink_finds_ranges_with_its_own_matcher() {
    let mut builder = RegexMatcherBuilder::new();
    builder.case_insensitive(true);
    let mut sink = CollectSink::new(builder.build("a".to_string()).unwrap());
    assert!(sink.matched(Some(1), 0, b"aAb\n"));
    let result = sink.into_result();
    let spans: Vec<(u32, u32)> =
        result.matches[0].matches.iter().map(|m| (m.start, m.end)).collect();
    assert_eq!(spans, vec![(0, 1), (1, 2)]);
}

#[test]
fn the_text_of_valid_bytes_encodes_to_the_bytes() {
    let mut sink = CollectSink::new(matcher("o"));
    let bytes = "fo\u{f6} \u{1f600}\n".as_bytes();
    assert!(sink.matched(Some(1), 0, bytes));
    assert!(sink.context(Some(2), 11, bytes, ContextKind::After));
    let result = sink.into_result();
    assert_eq!(result.matches[0].line, "fo\u{f6} \u{1f600}\n");
    assert_eq!(result.matches[0].line.as_bytes(), bytes);
    assert_eq!(result.context[0].line.as_bytes(), bytes);
}

#[test]
fn a_match_on_an_empty_line_is_searched_once() {
    let mut sink = CollectSink::new(matcher("x*"));
    assert!(sink.matched(None, 0, b""));
    let result = sink.into_result();
    let spans: Vec<(u32, u32)> =
        result.matches[0].matches.iter().map(|m| (m.start, m.end)).collect();
    assert_eq!(spans, vec![(0, 0)]);
}
