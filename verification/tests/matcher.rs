use line_search::{GrepError, MatchRange, RegexMatcher, RegexMatcherBuilder};

fn span(found: Option<MatchRange>) -> Option<(u32, u32)> {
    found.map(|m| (m.start, m.end))
}

fn built(builder: &RegexMatcherBuilder, pattern: &str) -> RegexMatcher {
    builder.build(pattern.to_string()).unwrap()
}

fn refusal(builder: &RegexMatcherBuilder, pattern: &str) -> GrepError {
    match builder.build(pattern.to_string()) {
        Ok(_) => panic!("the pattern {:?} was compiled", pattern),
        Err(e) => e,
    }
}

#[test]
fn whole_line_matches_only_the_whole_line() {
    let mut builder = RegexMatcherBuilder::new();
    builder.whole_line(true);
    let matcher = built(&builder, "foo");
    assert!(matcher.is_match(b"foo").unwrap());
    assert!(!matcher.is_match(b"foo bar").unwrap());
}

#[test]
fn case_insensitive_matches_the_other_case() {
    let mut builder = RegexMatcherBuilder::new();
    builder.case_insensitive(true);
    let matcher = built(&builder, "ABC");
    assert!(matcher.is_match(b"abc").unwrap());
}

#[test]
fn default_options_regard_case() {
    let matcher = RegexMatcher::from_pattern("ABC".to_string()).unwrap();
    assert!(!matcher.is_match(b"abc").unwrap());
    assert!(matcher.is_match(b"xABCx").unwrap());
}

#[test]
fn banned_byte_in_an_escape_is_a_compile_error() {
    let mut builder = RegexMatcherBuilder::new();
    builder.ban_byte(Some(0));
    let error = refusal(&builder, r"a\x00b");
    assert!(error.is_compile());
    assert!(!error.message().is_empty());
}

#[test]
fn banned_byte_in_a_class_of_one_is_a_compile_error() {
    let mut builder = RegexMatcherBuilder::new();
    builder.ban_byte(Some(b'q' as u32));
    let error = refusal(&builder, "[q]+");
    assert!(error.is_compile());
}

#[test]
fn ban_takes_the_low_eight_bits() {
    let mut builder = RegexMatcherBuilder::new();
    builder.ban_byte(Some(256 + b'q' as u32));
    assert!(refusal(&builder, "(q)").is_compile());
    builder.ban_byte(None);
    assert!(builder.build("(q)".to_string()).is_ok());
}

#[test]
fn banned_byte_in_a_pattern_without_special_characters_is_a_compile_error() {
    let mut builder = RegexMatcherBuilder::new();
    builder.ban_byte(Some(b'a' as u32));
    let error = refusal(&builder, "abc");
    assert!(error.is_compile());
    assert_eq!(error.message(), "the pattern holds the banned byte");
    assert!(builder.build("xyz".to_string()).is_ok());
}

#[test]
fn banned_byte_anywhere_in_the_pattern_is_a_compile_error() {
    let mut builder = RegexMatcherBuilder::new();
    builder.ban_byte(Some(b'a' as u32));
    assert!(refusal(&builder, "[^a]").is_compile());
    assert!(refusal(&builder, "x|(y+a)").is_compile());
    builder.ban_byte(Some(b'i' as u32));
    assert!(refusal(&builder, "(?i)x").is_compile());
    builder.fixed_strings(true);
    assert!(refusal(&builder, "pin").is_compile());
    assert!(built(&builder, "pan").is_match(b"pan").unwrap());
}

#[test]
fn banned_byte_in_one_of_many_patterns_is_a_compile_error() {
    let mut builder = RegexMatcherBuilder::new();
    builder.ban_byte(Some(0));
    let patterns = vec!["ok".to_string(), "b\0d".to_string()];
    assert!(builder.build_many(patterns.clone()).unwrap_err().is_compile());
    assert!(builder.build_literals(patterns).unwrap_err().is_compile());
    assert!(builder.build_many(vec!["ok".to_string(), "fine".to_string()]).is_ok());
    assert!(builder.build_many(Vec::new()).is_ok());
}

#[test]
fn a_banned_byte_that_is_not_ascii_is_checked_in_the_pattern_as_written() {
    let mut builder = RegexMatcherBuilder::new();
    builder.ban_byte(Some(0xa9));
    let error = refusal(&builder, "caf\u{e9}");
    assert!(error.is_compile());
    let matcher = built(&builder, "(a)b");
    assert!(matcher.is_match(b"xab").unwrap());
    assert!(built(&builder, "abc").is_match(b"abc").unwrap());
}

#[test]
fn invalid_pattern_is_a_compile_error() {
    let error = match RegexMatcher::from_pattern("(".to_string()) {
        Ok(_) => panic!("an unclosed group was compiled"),
        Err(e) => e,
    };
    assert!(error.is_compile());
    assert!(matches!(error, GrepError::Compile(_)));
    assert!(!error.message().is_empty());
}

#[test]
fn find_gives_the_first_match() {
    let matcher = RegexMatcher::from_pattern("b+".to_string()).unwrap();
    assert_eq!(span(matcher.find(b"aabbbcc bb").unwrap()), Some((2, 5)));
    assert_eq!(span(matcher.find(b"aacc").unwrap()), None);
}

#[test]
fn find_on_an_empty_text() {
    let matcher = RegexMatcher::from_pattern("a*".to_string()).unwrap();
    assert_eq!(span(matcher.find(b"").unwrap()), Some((0, 0)));
    let other = RegexMatcher::from_pattern("a".to_string()).unwrap();
    assert_eq!(span(other.find(b"").unwrap()), None);
}

#[test]
fn build_many_matches_any_of_the_patterns() {
    let builder = RegexMatcherBuilder::new();
    let matcher = builder.build_many(vec!["fo+".to_string(), "ba[rz]".to_string()]).unwrap();
    assert_eq!(span(matcher.find(b"xx baz foo").unwrap()), Some((3, 6)));
    assert_eq!(span(matcher.find(b"xx fooo").unwrap()), Some((3, 7)));
    assert!(!matcher.is_match(b"bat").unwrap());
}

#[test]
fn build_many_refuses_one_bad_pattern() {
    let builder = RegexMatcherBuilder::new();
    let error = match builder.build_many(vec!["ok".to_string(), "a{2,1}".to_string()]) {
        Ok(_) => panic!("a bad repetition was compiled"),
        Err(e) => e,
    };
    assert!(error.is_compile());
}

#[test]
fn build_literals_takes_the_strings_literally() {
    let builder = RegexMatcherBuilder::new();
    let matcher = builder.build_literals(vec!["a.c".to_string(), "(x".to_string()]).unwrap();
    assert!(!matcher.is_match(b"abc").unwrap());
    assert_eq!(span(matcher.find(b"__a.c").unwrap()), Some((2, 5)));
    assert_eq!(span(matcher.find(b"_(x").unwrap()), Some((1, 3)));
}

#[test]
fn fixed_strings_takes_the_pattern_literally() {
    let mut builder = RegexMatcherBuilder::new();
    builder.fixed_strings(true);
    let matcher = built(&builder, "a.c");
    assert!(!matcher.is_match(b"abc").unwrap());
    assert!(matcher.is_match(b"a.c").unwrap());
    builder.fixed_strings(false);
    assert!(built(&builder, "a.c").is_match(b"abc").unwrap());
}

#[test]
fn a_clone_is_the_same_matcher() {
    let matcher = RegexMatcher::from_pattern("o+".to_string()).unwrap();
    let other = matcher.clone();
    drop(matcher);
    assert_eq!(span(other.find(b"fooo").unwrap()), Some((1, 4)));
}

#[test]
fn a_cloned_builder_keeps_the_options() {
    let mut builder = RegexMatcherBuilder::new();
    builder.case_insensitive(true);
    let copy = builder.clone();
    builder.case_insensitive(false);
    assert!(built(&copy, "abc").is_match(b"ABC").unwrap());
    assert!(!built(&builder, "abc").is_match(b"ABC").unwrap());
}

#[test]
fn the_default_builder_is_a_new_builder() {
    let matcher = built(&RegexMatcherBuilder::default(), r"\w+");
    assert_eq!(span(matcher.find("  héllo ".as_bytes()).unwrap()), Some((2, 8)));
}

#[test]
fn line_terminator_in_a_pattern_is_refused() {
    let mut builder = RegexMatcherBuilder::new();
    builder.line_terminator(Some(10));
    assert!(refusal(&builder, r"a\nb").is_compile());
    let matcher = built(&builder, r"a\s+b");
    assert!(matcher.is_match(b"a  b").unwrap());
    assert!(!matcher.is_match(b"a\nb").unwrap());
    builder.line_terminator(None);
    assert!(built(&builder, r"a\nb").is_match(b"a\nb").unwrap());
}

#[test]
fn line_terminator_takes_the_low_eight_bits() {
    let mut builder = RegexMatcherBuilder::new();
    builder.line_terminator(Some(256 + 10));
    assert!(refusal(&builder, r"a\nb").is_compile());
}

#[test]
fn crlf_sets_the_terminator_and_line_terminator_replaces_it() {
    let mut builder = RegexMatcherBuilder::new();
    builder.crlf(true);
    assert!(refusal(&builder, r"a\rb").is_compile());
    builder.line_terminator(None);
    assert!(built(&builder, r"a\rb").is_match(b"a\rb").unwrap());
    builder.line_terminator(Some(b'\r' as u32));
    assert!(refusal(&builder, r"a\rb").is_compile());
    builder.crlf(false);
    assert!(built(&builder, r"a\rb").is_match(b"a\rb").unwrap());
}

#[test]
fn crlf_lets_a_line_end_before_a_carriage_return() {
    let mut builder = RegexMatcherBuilder::new();
    builder.multi_line(true);
    assert_eq!(span(built(&builder, "a$").find(b"a\r\n").unwrap()), None);
    builder.crlf(true);
    assert_eq!(span(built(&builder, "a$").find(b"a\r\n").unwrap()), Some((0, 1)));
}

#[test]
fn word_asks_for_word_boundaries() {
    let mut builder = RegexMatcherBuilder::new();
    builder.word(true);
    let matcher = built(&builder, "foo");
    assert!(!matcher.is_match(b"foobar").unwrap());
    assert_eq!(span(matcher.find(b"a foo bar").unwrap()), Some((2, 5)));
}

#[test]
fn whole_line_goes_before_word() {
    let mut builder = RegexMatcherBuilder::new();
    builder.word(true);
    builder.whole_line(true);
    let matcher = built(&builder, "foo");
    assert!(!matcher.is_match(b"a foo bar").unwrap());
    assert!(matcher.is_match(b"x\nfoo\ny").unwrap());
}

#[test]
fn case_smart_goes_by_the_pattern() {
    let mut builder = RegexMatcherBuilder::new();
    builder.case_smart(true);
    assert!(built(&builder, "abc").is_match(b"ABC").unwrap());
    assert!(!built(&builder, "Abc").is_match(b"abc").unwrap());
}

#[test]
fn multi_line_anchors_at_lines() {
    let mut builder = RegexMatcherBuilder::new();
    assert_eq!(span(built(&builder, "^b").find(b"a\nb").unwrap()), None);
    builder.multi_line(true);
    assert_eq!(span(built(&builder, "^b").find(b"a\nb").unwrap()), Some((2, 3)));
}

#[test]
fn dot_matches_new_line_when_asked() {
    let mut builder = RegexMatcherBuilder::new();
    assert!(!built(&builder, "a.b").is_match(b"a\nb").unwrap());
    builder.dot_matches_new_line(true);
    assert!(built(&builder, "a.b").is_match(b"a\nb").unwrap());
}

#[test]
fn swap_greed_makes_a_plain_repetition_lazy() {
    let mut builder = RegexMatcherBuilder::new();
    assert_eq!(span(built(&builder, "a+").find(b"aaa").unwrap()), Some((0, 3)));
    builder.swap_greed(true);
    assert_eq!(span(built(&builder, "a+").find(b"aaa").unwrap()), Some((0, 1)));
}

#[test]
fn ignore_whitespace_skips_blanks_in_the_pattern() {
    let mut builder = RegexMatcherBuilder::new();
    assert!(!built(&builder, "a b+").is_match(b"abb").unwrap());
    builder.ignore_whitespace(true);
    assert_eq!(span(built(&builder, "a b+").find(b"abb").unwrap()), Some((0, 3)));
}

#[test]
fn unicode_widens_the_classes() {
    let mut builder = RegexMatcherBuilder::new();
    assert!(built(&builder, r"\w").is_match("é".as_bytes()).unwrap());
    builder.unicode(false);
    assert!(!built(&builder, r"\w").is_match("é".as_bytes()).unwrap());
}

#[test]
fn octal_escapes_are_read_when_asked() {
    let mut builder = RegexMatcherBuilder::new();
    assert!(refusal(&builder, r"\141+").is_compile());
    builder.octal(true);
    assert_eq!(span(built(&builder, r"\141+").find(b"baa").unwrap()), Some((1, 3)));
}

#[test]
fn size_limit_refuses_a_large_pattern() {
    let mut builder = RegexMatcherBuilder::new();
    builder.size_limit(16);
    assert!(refusal(&builder, r"\w{50}").is_compile());
    builder.size_limit(100 * (1 << 20));
    assert!(builder.build(r"\w{50}".to_string()).is_ok());
}

#[test]
fn nest_limit_refuses_a_nested_pattern() {
    let mut builder = RegexMatcherBuilder::new();
    builder.nest_limit(1);
    assert!(refusal(&builder, "((a)(b))+").is_compile());
    builder.nest_limit(250);
    assert!(builder.build("((a)(b))+".to_string()).is_ok());
}

#[test]
fn dfa_size_limit_leaves_the_matches_as_they_are() {
    let mut builder = RegexMatcherBuilder::new();
    builder.dfa_size_limit(1 << 20);
    assert_eq!(span(built(&builder, r"[a-c]+\d").find(b"xxabc1").unwrap()), Some((2, 6)));
}

#[test]
fn error_kinds_and_messages() {
    let compile = GrepError::Compile("bad pattern".to_string());
    assert!(compile.is_compile());
    assert_eq!(compile.message(), "bad pattern");
    let operational = GrepError::Operational("scan failed".to_string());
    assert!(!operational.is_compile());
    assert_eq!(operational.message(), "scan failed");
}

#[test]
fn the_builders_give_their_options() {
    let mut builder = RegexMatcherBuilder::new();
    let fresh = builder.options();
    assert!(fresh.unicode && !fresh.case_insensitive && !fresh.crlf);
    assert_eq!(fresh.size_limit, 100 * (1 << 20));
    assert_eq!(fresh.dfa_size_limit, 1000 * (1 << 20));
    assert_eq!(fresh.nest_limit, 250);
    assert_eq!(fresh.ban_byte, None);
    builder.ban_byte(Some(0x1ff));
    builder.size_limit(77);
    builder.crlf(true);
    let set = builder.options();
    assert_eq!(set.ban_byte, Some(0xff));
    assert_eq!(set.size_limit, 77);
    assert!(set.crlf);
    assert!(matches!(set.line_terminator, line_search::MatcherTerminator::Crlf));
    builder.line_terminator(Some(0x10a));
    assert!(matches!(
        builder.options().line_terminator,
        line_search::MatcherTerminator::Byte(b'\n')
    ));
    builder.crlf(false);
    assert!(matches!(builder.options().line_terminator, line_search::MatcherTerminator::Unset));
}
