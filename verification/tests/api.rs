use line_search::{find, find_all, is_match, search, GrepError};

#[test]
fn search_scans_with_the_default_options() {
    let result = search("b".to_string(), b"a\nb\nc\n").unwrap();
    assert_eq!(result.matches.len(), 1);
    assert_eq!(result.matches[0].line_number, Some(2));
    assert_eq!(result.matches[0].absolute_byte_offset, 2);
    assert_eq!(result.matches[0].line, "b\n");
    assert!(result.context.is_empty());
    assert_eq!(result.finish.byte_count, 6);
    assert_eq!(result.finish.binary_byte_offset, None);
}

#[test]
fn search_refuses_a_bad_pattern() {
    let error = match search("[".to_string(), b"a\n") {
        Ok(_) => panic!("an unclosed class was compiled"),
        Err(e) => e,
    };
    assert!(matches!(error, GrepError::Compile(_)));
}

#[test]
fn is_match_says_whether_the_pattern_matches() {
    assert!(is_match("b+c".to_string(), b"abbbc").unwrap());
    assert!(!is_match("b+c".to_string(), b"abbbd").unwrap());
    assert!(is_match("(".to_string(), b"(").unwrap_err().is_compile());
}

#[test]
fn find_gives_the_first_match_of_the_pattern() {
    let found = find("c+".to_string(), b"abccdcc").unwrap().unwrap();
    assert_eq!((found.start, found.end), (2, 4));
    assert!(find("z".to_string(), b"abc").unwrap().is_none());
    assert!(find("a{".to_string(), b"abc").is_err() || find("a{".to_string(), b"a{").is_ok());
}

#[test]
fn find_all_gives_every_match_of_the_pattern() {
    let spans: Vec<(u32, u32)> =
        find_all("c+".to_string(), b"abccdcc").unwrap().iter().map(|m| (m.start, m.end)).collect();
    assert_eq!(spans, vec![(2, 4), (5, 7)]);
    assert!(find_all("z".to_string(), b"abc").unwrap().is_empty());
    assert!(find_all("(".to_string(), b"abc").unwrap_err().is_compile());
}
