use brunosearch::text::decimal_string;
use brunosearch::text::extract_first_quote;
use brunosearch::text::prepare_query;
use brunosearch::text::truncate_query;
use brunosearch::text::MAX_QUERY_CHARS;

#[test]
fn quote_extraction_finds_first_pair() {
    let r = extract_first_quote("find \"CSCI 0220\" intro");
    assert_eq!(r, Some("CSCI 0220".to_string()));
}

#[test]
fn quote_extraction_without_quotes_is_absent() {
    assert_eq!(extract_first_quote("no quotes here"), None);
}

#[test]
fn quote_extraction_unclosed_is_absent() {
    assert_eq!(extract_first_quote("open \"but not closed"), None);
}

#[test]
fn quote_extraction_empty_pair() {
    assert_eq!(extract_first_quote("an \"\" empty pair"), Some(String::new()));
}

#[test]
fn quote_extraction_takes_first_of_several() {
    let r = extract_first_quote("one \"a\" two \"b\"");
    assert_eq!(r, Some("a".to_string()));
}

#[test]
fn truncation_caps_long_queries() {
    let long: String = std::iter::repeat('x').take(400).collect();
    let t = truncate_query(&long);
    assert_eq!(t.chars().count(), MAX_QUERY_CHARS);
    assert!(long.starts_with(t));
}

#[test]
fn truncation_leaves_short_queries_alone() {
    assert_eq!(truncate_query("short"), "short");
}

#[test]
fn truncation_never_splits_multibyte_characters() {
    // 300 two-byte characters: a byte-indexed cut at 256 would split one.
    let long: String = std::iter::repeat('é').take(300).collect();
    let t = truncate_query(&long);
    assert_eq!(t.chars().count(), MAX_QUERY_CHARS);
    assert!(t.chars().all(|c| c == 'é'));
}

#[test]
fn truncation_happens_before_quote_extraction() {
    // The opening quote survives the cut, the closing quote does not.
    let mut q: String = std::iter::repeat('a').take(250).collect();
    q.push_str(" \"CSCI 0220\"");
    let (t, quoted) = prepare_query(&q);
    assert_eq!(t.chars().count(), MAX_QUERY_CHARS);
    assert_eq!(quoted, None);
}

#[test]
fn prepare_query_extracts_from_short_queries() {
    let (t, quoted) = prepare_query("find \"CSCI 0220\" intro");
    assert_eq!(t, "find \"CSCI 0220\" intro");
    assert_eq!(quoted, Some("CSCI 0220".to_string()));
}

#[test]
fn decimal_rendering_is_exact() {
    assert_eq!(decimal_string(0), "0");
    assert_eq!(decimal_string(7), "7");
    assert_eq!(decimal_string(20), "20");
    assert_eq!(decimal_string(105), "105");
    assert_eq!(decimal_string(1536), "1536");
}
