//! Compiling patterns into matchers, and asking a matcher where it matches.
//!
//! The options of a matcher are plain values that this module keeps and
//! reasons about. Compiling and matching are done by `grep::regex`; the
//! functions of this module that call it say so above their contracts.

use crate::error::{GrepError, GrepErrorView};
use crate::spans::{all_spans, find_spans, ordered_spans};
use crate::types::MatchRange;
use grep::regex::RegexMatcher as GrepRegexMatcher;
use grep::regex::RegexMatcherBuilder as GrepRegexMatcherBuilder;
use std::sync::Arc;
use vstd::prelude::*;
use vstd::utf8::encode_utf8;

verus! {

/// The line terminator that a matcher is built for: a matcher never reports a
/// match that holds its terminator.
#[derive(Clone, Copy, Debug)]
pub enum MatcherTerminator {
    /// No terminator: a match may hold any byte.
    Unset,
    /// A single byte.
    Byte(u8),
    /// A carriage return followed by a line feed.
    Crlf,
}

/// The options under which patterns are compiled.
#[derive(Clone, Copy, Debug)]
pub struct MatcherOptions {
    pub case_insensitive: bool,
    pub case_smart: bool,
    pub multi_line: bool,
    pub dot_matches_new_line: bool,
    pub swap_greed: bool,
    pub ignore_whitespace: bool,
    pub unicode: bool,
    pub octal: bool,
    pub size_limit: usize,
    pub dfa_size_limit: usize,
    pub nest_limit: u32,
    pub line_terminator: MatcherTerminator,
    pub ban_byte: Option<u8>,
    pub crlf: bool,
    pub word: bool,
    pub fixed_strings: bool,
    pub whole_line: bool,
}

/// What a compiled matcher was made from: the options and the patterns, which
/// are tried as alternatives.
pub struct MatcherSource {
    pub options: MatcherOptions,
    pub patterns: Seq<Seq<char>>,
}

/// The options of a builder that no setter has touched.
pub open spec fn default_options() -> MatcherOptions {
    MatcherOptions {
        case_insensitive: false,
        case_smart: false,
        multi_line: false,
        dot_matches_new_line: false,
        swap_greed: false,
        ignore_whitespace: false,
        unicode: true,
        octal: false,
        size_limit: 104857600,
        dfa_size_limit: 1048576000,
        nest_limit: 250,
        line_terminator: MatcherTerminator::Unset,
        ban_byte: None,
        crlf: false,
        word: false,
        fixed_strings: false,
        whole_line: false,
    }
}

/// The low eight bits of a number handed over where a byte is meant.
pub open spec fn low_byte(value: u32) -> u8 {
    (value % 256) as u8
}

/// The byte that an optional number stands for.
pub open spec fn optional_byte(value: Option<u32>) -> Option<u8> {
    match value {
        Some(v) => Some(low_byte(v)),
        None => None,
    }
}

/// The terminator that `line_terminator` sets for an optional byte.
pub open spec fn terminator_of(byte: Option<u8>) -> MatcherTerminator {
    match byte {
        Some(b) => MatcherTerminator::Byte(b),
        None => MatcherTerminator::Unset,
    }
}

/// The terminator that `crlf` sets.
pub open spec fn crlf_terminator(yes: bool) -> MatcherTerminator {
    if yes {
        MatcherTerminator::Crlf
    } else {
        MatcherTerminator::Unset
    }
}

/// The patterns as sequences of characters.
pub open spec fn pattern_texts(patterns: Seq<String>) -> Seq<Seq<char>> {
    patterns.map_values(|p: String| p@)
}

/// The source of a matcher built from the default options and one pattern.
pub open spec fn default_source(pattern: Seq<char>) -> MatcherSource {
    MatcherSource { options: default_options(), patterns: seq![pattern] }
}

#[verifier::external_type_specification]
#[verifier::external_body]
pub struct ExRegexMatcherBuilder(GrepRegexMatcherBuilder);

#[verifier::external_type_specification]
#[verifier::external_body]
pub struct ExRegexMatcher(GrepRegexMatcher);

/// The options that a `grep::regex::RegexMatcherBuilder` holds.
pub uninterp spec fn builder_options(builder: GrepRegexMatcherBuilder) -> MatcherOptions;

/// The options and patterns that a `grep::regex::RegexMatcher` was compiled
/// from.
pub uninterp spec fn matcher_source(matcher: GrepRegexMatcher) -> MatcherSource;

/// The message with which `grep::regex::RegexMatcherBuilder::build_many`
/// refuses the patterns under the options, or `None` where it compiles them.
pub uninterp spec fn compile_failure(options: MatcherOptions, patterns: Seq<Seq<char>>) -> Option<
    Seq<char>,
>;

/// The start and end of the first match that `grep::matcher::Matcher::find`
/// reports in the haystack for a matcher compiled from the source, or `None`
/// where it reports none.
pub uninterp spec fn first_match(source: MatcherSource, haystack: Seq<u8>) -> Option<(nat, nat)>;

/// Calls `grep::regex::RegexMatcherBuilder::new` and then each setter of the
/// new builder except `line_terminator`, `crlf` last, with the value that
/// `options` holds for it. The builder then holds those values, and the
/// terminator that `crlf` set: CRLF where `options.crlf` is set, none where it
/// is not.
#[verifier::external_body]
fn grep_builder(options: &MatcherOptions) -> (builder: GrepRegexMatcherBuilder)
    ensures
        builder_options(builder) == (MatcherOptions {
            line_terminator: crlf_terminator(options.crlf),
            ..*options
        }),
{
    let mut builder = GrepRegexMatcherBuilder::new();
    builder.case_insensitive(options.case_insensitive).case_smart(options.case_smart)
        .multi_line(options.multi_line).dot_matches_new_line(options.dot_matches_new_line)
        .swap_greed(options.swap_greed).ignore_whitespace(options.ignore_whitespace)
        .unicode(options.unicode).octal(options.octal)
        .size_limit(options.size_limit).dfa_size_limit(options.dfa_size_limit)
        .nest_limit(options.nest_limit).ban_byte(options.ban_byte)
        .word(options.word).fixed_strings(options.fixed_strings)
        .whole_line(options.whole_line).crlf(options.crlf);
    builder
}

/// Calls `grep::regex::RegexMatcherBuilder::line_terminator`, which replaces
/// the builder's terminator by the byte, or by none, and leaves every other
/// option as it was.
#[verifier::external_body]
fn with_line_terminator(builder: GrepRegexMatcherBuilder, byte: Option<u8>) -> (r:
    GrepRegexMatcherBuilder)
    ensures
        builder_options(r) == (MatcherOptions {
            line_terminator: terminator_of(byte),
            ..builder_options(builder)
        }),
{
    let mut builder = builder;
    builder.line_terminator(byte);
    builder
}

/// Calls `grep::regex::RegexMatcherBuilder::build_many`. Whether the patterns
/// compile under the builder's options, and the message if they do not, is
/// for `grep::regex` to decide; a matcher that comes back was compiled from
/// these options and patterns. `build_many` panics on a banned byte that is
/// not ASCII, so such a byte is left out.
#[verifier::external_body]
fn compile(builder: &GrepRegexMatcherBuilder, patterns: &Vec<String>) -> (r: Result<
    GrepRegexMatcher,
    GrepError,
>)
    requires
        builder_options(*builder).ban_byte matches Some(b) ==> b < 128,
    ensures
        match r {
            Ok(m) => compile_failure(builder_options(*builder), pattern_texts(patterns@)) is None
                && matcher_source(m) == (MatcherSource {
                options: builder_options(*builder),
                patterns: pattern_texts(patterns@),
            }),
            Err(e) => compile_failure(builder_options(*builder), pattern_texts(patterns@))
                == Some(e.message_spec()) && e@ is Compile,
        },
{
    builder.build_many(patterns.as_slice()).map_err(|e| GrepError::Compile(e.to_string()))
}

/// Calls `grep::matcher::Matcher::find` on a `grep::regex::RegexMatcher`. It
/// never fails for this matcher; a match that it reports starts no later than
/// it ends and lies within the haystack.
#[verifier::external_body]
pub(crate) fn find_first(matcher: &GrepRegexMatcher, haystack: &[u8]) -> (r: Result<
    Option<(usize, usize)>,
    GrepError,
>)
    ensures
        match r {
            Ok(Some((start, end))) => first_match(matcher_source(*matcher), haystack@) == Some(
                (start as nat, end as nat),
            ) && start <= end <= haystack@.len(),
            Ok(None) => first_match(matcher_source(*matcher), haystack@) is None,
            Err(_) => false,
        },
{
    match grep::matcher::Matcher::find(matcher, haystack) {
        Ok(Some(m)) => Ok(Some((m.start(), m.end()))),
        Ok(None) => Ok(None),
        Err(e) => Err(GrepError::Operational(e.to_string())),
    }
}

/// Calls `grep::matcher::Matcher::is_match` on a `grep::regex::RegexMatcher`.
/// It never fails for this matcher, and is true if and only if the matcher
/// matches somewhere in the haystack, that is where `find` reports a match.
#[verifier::external_body]
fn matches_anywhere(matcher: &GrepRegexMatcher, haystack: &[u8]) -> (r: Result<
    bool,
    GrepError,
>)
    ensures
        match r {
            Ok(yes) => yes == (first_match(matcher_source(*matcher), haystack@) is Some),
            Err(_) => false,
        },
{
    grep::matcher::Matcher::is_match(matcher, haystack).map_err(
        |e| GrepError::Operational(e.to_string()),
    )
}

/// The first match in the haystack as a range, or `None`. An offset that does
/// not fit in 32 bits is cut down to its low 32 bits.
pub open spec fn first_span(source: MatcherSource, haystack: Seq<u8>) -> Option<MatchRange> {
    match first_match(source, haystack) {
        Some((start, end)) => Some(MatchRange { start: start as u32, end: end as u32 }),
        None => None,
    }
}

/// True if and only if the matcher matches somewhere in the haystack.
pub open spec fn matches_in(source: MatcherSource, haystack: Seq<u8>) -> bool {
    first_match(source, haystack) is Some
}

/// True if and only if the byte occurs in the pattern as it is written, that
/// is in its UTF-8 encoding.
pub open spec fn holds_byte(pattern: Seq<char>, byte: u8) -> bool {
    encode_utf8(pattern).contains(byte)
}

/// True if and only if a byte is banned and occurs in one of the patterns.
pub open spec fn banned_in(options: MatcherOptions, patterns: Seq<Seq<char>>) -> bool {
    options.ban_byte matches Some(byte) && exists|i: int|
        0 <= i < patterns.len() && holds_byte(#[trigger] patterns[i], byte)
}

/// The message of the error for a pattern that holds the banned byte.
pub open spec fn banned_message() -> Seq<char> {
    "the pattern holds the banned byte"@
}

/// The options that the pattern compiler is handed: the options as they are,
/// but for a banned byte that is not ASCII, which the compiler cannot check
/// for and which is therefore left out.
pub open spec fn handed_options(options: MatcherOptions) -> MatcherOptions {
    MatcherOptions {
        ban_byte: match options.ban_byte {
            Some(byte) => if byte < 128 {
                Some(byte)
            } else {
                None
            },
            None => None,
        },
        ..options
    }
}

/// What the pattern compiler returns for the options and patterns that it
/// is handed: the matcher compiled from them where it accepts them, and else
/// a compile error with its message.
pub open spec fn compiled_result(
    options: MatcherOptions,
    patterns: Seq<Seq<char>>,
    r: Result<RegexMatcher, GrepError>,
) -> bool {
    match r {
        Ok(m) => compile_failure(options, patterns) is None && m@ == (MatcherSource {
            options,
            patterns,
        }),
        Err(e) => compile_failure(options, patterns) matches Some(message) && e@
            == GrepErrorView::Compile(message),
    }
}

/// What building a matcher returns. Patterns that hold the banned byte are
/// refused with a compile error. Other patterns are handed to the pattern
/// compiler, and the result is what it returns.
pub open spec fn build_result(
    options: MatcherOptions,
    patterns: Seq<Seq<char>>,
    r: Result<RegexMatcher, GrepError>,
) -> bool {
    if banned_in(options, patterns) {
        r matches Err(e) && e@ == GrepErrorView::Compile(banned_message())
    } else {
        compiled_result(handed_options(options), patterns, r)
    }
}

/// True if and only if the byte occurs in the bytes.
fn bytes_hold(bytes: &[u8], byte: u8) -> (r: bool)
    ensures
        r == bytes@.contains(byte),
{
    let mut i: usize = 0;
    while i < bytes.len()
        invariant
            i <= bytes@.len(),
            forall|k: int| 0 <= k < i ==> bytes@[k] != byte,
        decreases bytes@.len() - i,
    {
        if bytes[i] == byte {
            return true;
        }
        i = i + 1;
    }
    false
}

/// True if and only if the byte occurs in one of the patterns.
fn patterns_hold(patterns: &Vec<String>, byte: u8) -> (r: bool)
    ensures
        r == exists|i: int|
            0 <= i < patterns@.len() && holds_byte(#[trigger] pattern_texts(patterns@)[i], byte),
{
    let mut i: usize = 0;
    while i < patterns.len()
        invariant
            i <= patterns@.len(),
            forall|k: int|
                0 <= k < i ==> !holds_byte(#[trigger] pattern_texts(patterns@)[k], byte),
        decreases patterns@.len() - i,
    {
        if bytes_hold(patterns[i].as_str().as_bytes(), byte) {
            assert(holds_byte(pattern_texts(patterns@)[i as int], byte));
            return true;
        }
        i = i + 1;
    }
    false
}

/// Has `grep::regex` compile the patterns: sets up a builder that holds
/// exactly these options, and has it compile the patterns.
fn compile_handed(options: &MatcherOptions, patterns: Vec<String>) -> (r: Result<
    RegexMatcher,
    GrepError,
>)
    requires
        options.line_terminator is Crlf ==> options.crlf,
        options.ban_byte matches Some(b) ==> b < 128,
    ensures
        compiled_result(*options, pattern_texts(patterns@), r),
{
    let base = grep_builder(options);
    let builder = match options.line_terminator {
        MatcherTerminator::Crlf => base,
        MatcherTerminator::Unset => with_line_terminator(base, None),
        MatcherTerminator::Byte(b) => with_line_terminator(base, Some(b)),
    };
    assert(builder_options(builder) == *options);
    match compile(&builder, &patterns) {
        Ok(m) => Ok(RegexMatcher { inner: Arc::new(m) }),
        Err(e) => Err(e),
    }
}

/// Compiles patterns under the options. Patterns that hold the banned byte
/// are refused here; the others are handed to the pattern compiler.
fn compile_under(options: &MatcherOptions, patterns: Vec<String>) -> (r: Result<
    RegexMatcher,
    GrepError,
>)
    requires
        options.line_terminator is Crlf ==> options.crlf,
    ensures
        build_result(*options, pattern_texts(patterns@), r),
{
    let ban_byte = match options.ban_byte {
        Some(byte) => {
            if patterns_hold(&patterns, byte) {
                return Err(GrepError::Compile("the pattern holds the banned byte".to_owned()));
            }
            if byte < 128 {
                Some(byte)
            } else {
                None
            }
        },
        None => None,
    };
    let handed = MatcherOptions { ban_byte, ..*options };
    assert(handed == handed_options(*options));
    compile_handed(&handed, patterns)
}

/// Collects the options for a matcher and compiles patterns under them.
#[derive(Debug)]
pub struct RegexMatcherBuilder {
    options: MatcherOptions,
}

impl View for RegexMatcherBuilder {
    type V = MatcherOptions;

    closed spec fn view(&self) -> MatcherOptions {
        self.options
    }
}

impl Clone for RegexMatcherBuilder {
    fn clone(&self) -> (r: Self)
        ensures
            r@ == self@,
    {
        proof {
            use_type_invariant(self);
        }
        RegexMatcherBuilder { options: self.options }
    }
}

impl Default for RegexMatcherBuilder {
    fn default() -> (r: Self)
        ensures
            r@ == default_options(),
    {
        RegexMatcherBuilder::new()
    }
}

impl RegexMatcherBuilder {
    /// The CRLF terminator is only ever set together with CRLF mode.
    #[verifier::type_invariant]
    spec fn consistent(self) -> bool {
        self.options.line_terminator is Crlf ==> self.options.crlf
    }

    /// A builder with the default options.
    pub fn new() -> (r: Self)
        ensures
            r@ == default_options(),
    {
        RegexMatcherBuilder {
            options: MatcherOptions {
                case_insensitive: false,
                case_smart: false,
                multi_line: false,
                dot_matches_new_line: false,
                swap_greed: false,
                ignore_whitespace: false,
                unicode: true,
                octal: false,
                size_limit: 104857600,
                dfa_size_limit: 1048576000,
                nest_limit: 250,
                line_terminator: MatcherTerminator::Unset,
                ban_byte: None,
                crlf: false,
                word: false,
                fixed_strings: false,
                whole_line: false,
            },
        }
    }

    /// The current options.
    pub fn options(&self) -> (r: MatcherOptions)
        ensures
            r == self@,
    {
        self.options
    }

    /// Compiles one pattern under the current options. A pattern that holds
    /// the banned byte is refused with a compile error.
    pub fn build(&self, pattern: String) -> (r: Result<RegexMatcher, GrepError>)
        ensures
            build_result(self@, seq![pattern@], r),
            r matches Err(e) ==> e@ is Compile,
            banned_in(self@, seq![pattern@]) ==> r is Err,
    {
        let mut patterns: Vec<String> = Vec::new();
        patterns.push(pattern);
        assert(pattern_texts(patterns@) =~= seq![pattern@]);
        self.build_many(patterns)
    }

    /// Compiles several patterns under the current options into one matcher,
    /// which matches where at least one of them does. Patterns of which one
    /// holds the banned byte are refused with a compile error.
    pub fn build_many(&self, patterns: Vec<String>) -> (r: Result<RegexMatcher, GrepError>)
        ensures
            build_result(self@, pattern_texts(patterns@), r),
            r matches Err(e) ==> e@ is Compile,
            banned_in(self@, pattern_texts(patterns@)) ==> r is Err,
    {
        proof {
            use_type_invariant(self);
        }
        compile_under(&self.options, patterns)
    }

    /// Compiles several literal strings into one matcher, which matches where
    /// at least one of them occurs. The strings are compiled under the
    /// current options with `fixed_strings` switched on, so that no character
    /// in them has a special meaning. Strings of which one holds the banned
    /// byte are refused with a compile error.
    pub fn build_literals(&self, literals: Vec<String>) -> (r: Result<RegexMatcher, GrepError>)
        ensures
            build_result(
                (MatcherOptions { fixed_strings: true, ..self@ }),
                pattern_texts(literals@),
                r,
            ),
            r matches Err(e) ==> e@ is Compile,
            banned_in(self@, pattern_texts(literals@)) ==> r is Err,
    {
        proof {
            use_type_invariant(self);
        }
        let options = MatcherOptions { fixed_strings: true, ..self.options };
        compile_under(&options, literals)
    }

    /// Sets whether letters match both of their cases.
    pub fn case_insensitive(&mut self, yes: bool) -> (r: &Self)
        ensures
            final(self)@ == (MatcherOptions { case_insensitive: yes, ..old(self)@ }),
            r@ == final(self)@,
    {
        proof {
            use_type_invariant(&*self);
        }
        self.options.case_insensitive = yes;
        self
    }

    /// Sets smart case: where it is on, a pattern that holds a literal and no
    /// upper-case literal is matched without regard to case.
    pub fn case_smart(&mut self, yes: bool) -> (r: &Self)
        ensures
            final(self)@ == (MatcherOptions { case_smart: yes, ..old(self)@ }),
            r@ == final(self)@,
    {
        proof {
            use_type_invariant(&*self);
        }
        self.options.case_smart = yes;
        self
    }

    /// Sets whether `^` and `$` match at the start and end of each line
    /// rather than of the whole text.
    pub fn multi_line(&mut self, yes: bool) -> (r: &Self)
        ensures
            final(self)@ == (MatcherOptions { multi_line: yes, ..old(self)@ }),
            r@ == final(self)@,
    {
        proof {
            use_type_invariant(&*self);
        }
        self.options.multi_line = yes;
        self
    }

    /// Sets whether `.` also matches a line feed.
    pub fn dot_matches_new_line(&mut self, yes: bool) -> (r: &Self)
        ensures
            final(self)@ == (MatcherOptions { dot_matches_new_line: yes, ..old(self)@ }),
            r@ == final(self)@,
    {
        proof {
            use_type_invariant(&*self);
        }
        self.options.dot_matches_new_line = yes;
        self
    }

    /// Sets whether greed is swapped, so that `a*` is lazy and `a*?` is
    /// greedy.
    pub fn swap_greed(&mut self, yes: bool) -> (r: &Self)
        ensures
            final(self)@ == (MatcherOptions { swap_greed: yes, ..old(self)@ }),
            r@ == final(self)@,
    {
        proof {
            use_type_invariant(&*self);
        }
        self.options.swap_greed = yes;
        self
    }

    /// Sets whether white space and comments in a pattern are skipped.
    pub fn ignore_whitespace(&mut self, yes: bool) -> (r: &Self)
        ensures
            final(self)@ == (MatcherOptions { ignore_whitespace: yes, ..old(self)@ }),
            r@ == final(self)@,
    {
        proof {
            use_type_invariant(&*self);
        }
        self.options.ignore_whitespace = yes;
        self
    }

    /// Sets whether classes such as `\w` cover all of Unicode rather than
    /// ASCII alone.
    pub fn unicode(&mut self, yes: bool) -> (r: &Self)
        ensures
            final(self)@ == (MatcherOptions { unicode: yes, ..old(self)@ }),
            r@ == final(self)@,
    {
        proof {
            use_type_invariant(&*self);
        }
        self.options.unicode = yes;
        self
    }

    /// Sets whether octal escapes are read in a pattern.
    pub fn octal(&mut self, yes: bool) -> (r: &Self)
        ensures
            final(self)@ == (MatcherOptions { octal: yes, ..old(self)@ }),
            r@ == final(self)@,
    {
        proof {
            use_type_invariant(&*self);
        }
        self.options.octal = yes;
        self
    }

    /// Sets the limit, in bytes, on the size of the compiled pattern.
    pub fn size_limit(&mut self, bytes: u32) -> (r: &Self)
        ensures
            final(self)@ == (MatcherOptions { size_limit: bytes as usize, ..old(self)@ }),
            r@ == final(self)@,
    {
        proof {
            use_type_invariant(&*self);
        }
        self.options.size_limit = bytes as usize;
        self
    }

    /// Sets the limit, in bytes, on the cache that matching may use.
    pub fn dfa_size_limit(&mut self, bytes: u32) -> (r: &Self)
        ensures
            final(self)@ == (MatcherOptions { dfa_size_limit: bytes as usize, ..old(self)@ }),
            r@ == final(self)@,
    {
        proof {
            use_type_invariant(&*self);
        }
        self.options.dfa_size_limit = bytes as usize;
        self
    }

    /// Sets how deeply a pattern may be nested.
    pub fn nest_limit(&mut self, limit: u32) -> (r: &Self)
        ensures
            final(self)@ == (MatcherOptions { nest_limit: limit, ..old(self)@ }),
            r@ == final(self)@,
    {
        proof {
            use_type_invariant(&*self);
        }
        self.options.nest_limit = limit;
        self
    }

    /// Sets the line terminator to the low eight bits of the number, or to
    /// none. CRLF mode is left as it is.
    pub fn line_terminator(&mut self, byte: Option<u32>) -> (r: &Self)
        ensures
            final(self)@ == (MatcherOptions { line_terminator: terminator_of(optional_byte(byte)), ..old(self)@ }),
            r@ == final(self)@,
    {
        proof {
            use_type_invariant(&*self);
        }
        self.options.line_terminator = match byte {
            Some(b) => MatcherTerminator::Byte((b % 256) as u8),
            None => MatcherTerminator::Unset,
        };
        self
    }

    /// Bans the byte given by the low eight bits of the number from
    /// patterns, or lifts the ban. A pattern in which the byte occurs is
    /// refused when a matcher is built from it.
    pub fn ban_byte(&mut self, byte: Option<u32>) -> (r: &Self)
        ensures
            final(self)@ == (MatcherOptions { ban_byte: optional_byte(byte), ..old(self)@ }),
            r@ == final(self)@,
    {
        proof {
            use_type_invariant(&*self);
        }
        self.options.ban_byte = match byte {
            Some(b) => Some((b % 256) as u8),
            None => None,
        };
        self
    }

    /// Sets CRLF mode. Turning it on makes CRLF the line terminator;
    /// turning it off leaves the matcher without a line terminator.
    pub fn crlf(&mut self, yes: bool) -> (r: &Self)
        ensures
            final(self)@ == (MatcherOptions { crlf: yes, line_terminator: crlf_terminator(yes), ..old(self)@ }),
            r@ == final(self)@,
    {
        proof {
            use_type_invariant(&*self);
        }
        let line_terminator = if yes {
            MatcherTerminator::Crlf
        } else {
            MatcherTerminator::Unset
        };
        self.options = MatcherOptions { crlf: yes, line_terminator, ..self.options };
        self
    }

    /// Sets whether a match must begin and end at a word boundary.
    pub fn word(&mut self, yes: bool) -> (r: &Self)
        ensures
            final(self)@ == (MatcherOptions { word: yes, ..old(self)@ }),
            r@ == final(self)@,
    {
        proof {
            use_type_invariant(&*self);
        }
        self.options.word = yes;
        self
    }

    /// Sets whether patterns are literal text, in which no character has a
    /// special meaning.
    pub fn fixed_strings(&mut self, yes: bool) -> (r: &Self)
        ensures
            final(self)@ == (MatcherOptions { fixed_strings: yes, ..old(self)@ }),
            r@ == final(self)@,
    {
        proof {
            use_type_invariant(&*self);
        }
        self.options.fixed_strings = yes;
        self
    }

    /// Sets whether a pattern must match a whole line.
    pub fn whole_line(&mut self, yes: bool) -> (r: &Self)
        ensures
            final(self)@ == (MatcherOptions { whole_line: yes, ..old(self)@ }),
            r@ == final(self)@,
    {
        proof {
            use_type_invariant(&*self);
        }
        self.options.whole_line = yes;
        self
    }
}

/// Calls `Arc::clone`: the new pointer points to the matcher that the old
/// one points to.
#[verifier::external_body]
fn share(inner: &Arc<GrepRegexMatcher>) -> (r: Arc<GrepRegexMatcher>)
    ensures
        *r == **inner,
{
    Arc::clone(inner)
}

/// A compiled matcher. It is never changed after it was built, and its
/// clones share the compiled state.
#[derive(Debug)]
pub struct RegexMatcher {
    inner: Arc<GrepRegexMatcher>,
}

impl Clone for RegexMatcher {
    /// Another handle on the same compiled matcher.
    fn clone(&self) -> (r: Self)
        ensures
            r@ == self@,
    {
        RegexMatcher { inner: share(&self.inner) }
    }
}

impl View for RegexMatcher {
    type V = MatcherSource;

    closed spec fn view(&self) -> MatcherSource {
        matcher_source(*self.inner)
    }
}

impl RegexMatcher {
    /// Compiles one pattern under the default options.
    pub fn from_pattern(pattern: String) -> (r: Result<Self, GrepError>)
        ensures
            build_result(default_options(), seq![pattern@], r),
    {
        RegexMatcherBuilder::new().build(pattern)
    }

    /// True if and only if the matcher matches somewhere in the text.
    pub fn is_match(&self, text: &[u8]) -> (r: Result<bool, GrepError>)
        ensures
            r matches Ok(yes) && yes == matches_in(self@, text@),
    {
        matches_anywhere(&*self.inner, text)
    }

    /// The first match in the text, or `None` where there is none.
    pub fn find(&self, text: &[u8]) -> (r: Result<Option<MatchRange>, GrepError>)
        ensures
            r matches Ok(found) && found == first_span(self@, text@),
            r matches Ok(Some(range)) ==> (text@.len() <= u32::MAX ==> range.start <= range.end
                <= text@.len()),
    {
        match find_first(&*self.inner, text) {
            Ok(Some((start, end))) => Ok(
                Some(
                    MatchRange {
                        start: #[verifier::truncate]
                        (start as u32),
                        end: #[verifier::truncate]
                        (end as u32),
                    },
                ),
            ),
            Ok(None) => Ok(None),
            Err(e) => Err(e),
        }
    }

    /// Every match in the text, found by searching again behind each match.
    ///
    /// In a text whose offsets fit in 32 bits the ranges lie within it and do
    /// not overlap, in ascending order. There is no range if and only if
    /// `is_match` is false of the text.
    pub fn find_all(&self, text: &[u8]) -> (r: Result<Vec<MatchRange>, GrepError>)
        ensures
            r matches Ok(spans) && spans@ == all_spans(self@, text@),
            r matches Ok(spans) ==> (text@.len() <= u32::MAX ==> ordered_spans(
                spans@,
                text@.len(),
            )),
            r matches Ok(spans) ==> (spans@.len() == 0 <==> !matches_in(self@, text@)),
    {
        Ok(find_spans(self, text))
    }

    /// The matcher that does the work.
    pub(crate) fn compiled(&self) -> (r: &GrepRegexMatcher)
        ensures
            matcher_source(*r) == self@,
    {
        &*self.inner
    }
}

} // verus!
