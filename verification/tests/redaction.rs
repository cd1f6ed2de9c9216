use logid::config::filter::compile_filters;
use logid::create_message_filters;
use logid::redaction::{redact, strip};
use regex::Regex;

fn filters_of(patterns: &[&str]) -> Vec<Regex> {
    compile_filters(&patterns.iter().map(|p| p.to_string()).collect()).unwrap()
}

#[test]
fn test_message_filtering() {
    let _filters = vec![Regex::new("test_filter").unwrap()];
    assert_eq!(redact(&_filters, "a test_filter b"), "a b");
}

#[test]
fn strip_removes_every_match_of_each_pattern() {
    let filters = filters_of(&["ab", "c+"]);
    assert_eq!(strip(&filters, "xabyabz"), "xyz");
    assert_eq!(strip(&filters, "1ccc2c3"), "123");
    assert_eq!(strip(&filters, "none"), "none");
    assert_eq!(strip(&Vec::new(), "  same  "), "  same  ");
}

#[test]
fn strip_applies_patterns_in_list_order() {
    assert_eq!(strip(&filters_of(&["b", "ac"]), "abc"), "");
    assert_eq!(strip(&filters_of(&["ac", "b"]), "abc"), "ac");
}

#[test]
fn redact_collapses_whitespace_after_removal() {
    let filters = filters_of(&["abc123"]);
    assert_eq!(redact(&filters, "token abc123   end"), "token end");
    assert_eq!(redact(&filters, "token abc123 end"), "token end");
    assert_eq!(redact(&filters, "token abc123\tend"), "token end");
    assert_eq!(redact(&filters, "abc123   end"), "end");
    assert_eq!(redact(&filters, "token abc123"), "token");
}

#[test]
fn redact_collapses_blank_lines_left_by_removal() {
    let filters = filters_of(&["SECRET"]);
    assert_eq!(redact(&filters, "a\nSECRET\nSECRET\nb"), "a\n\nb");
    assert_eq!(redact(&filters, "a\n\nSECRET\n\nb"), "a\n\nb");
}

#[test]
fn redact_without_patterns_only_tidies() {
    assert_eq!(redact(&Vec::new(), "  a   b \n\n\n c "), "a b \n\n c");
    assert_eq!(redact(&Vec::new(), ""), "");
}

#[test]
fn redact_with_default_patterns() {
    let filters = create_message_filters(None).unwrap();
    let message = r#"call {"LogID": "20240101abc", "Addr": "10.0.0.1:80", "msg": "hi"}  _compliance_nlp_log   done"#;
    assert_eq!(redact(&filters, message), r#"call {, , "msg": "hi"} done"#);
    let message = "start \"user_extra\": \"{\\\"a\\\":1}\"   end";
    assert_eq!(redact(&filters, message), "start end");
    let message = "_compliance_source=footprint\n\n\n\"Client\":   \"x\"\nkept";
    assert_eq!(redact(&filters, message), "kept");
}

#[test]
fn redact_twice_is_redact_once_on_redacted_text() {
    let filters = create_message_filters(None).unwrap();
    for message in [
        r#"call {"LogID": "20240101abc", "Addr": "10.0.0.1:80"}  _compliance_nlp_log   done"#,
        "plain text",
        "  a \n\n\n\n b _compliance_whitelist_log  c ",
        "",
    ] {
        let once = redact(&filters, message);
        assert_eq!(redact(&filters, &once), once);
    }
}

#[test]
fn redact_is_not_idempotent_where_removal_uncovers_a_match() {
    let filters = filters_of(&["ab"]);
    assert_eq!(redact(&filters, "aabb"), "ab");
    assert_eq!(redact(&filters, "ab"), "");
}

#[test]
fn redacted_text_has_no_two_blanks_side_by_side() {
    let filters = filters_of(&["x+"]);
    let out = redact(&filters, " a x  b\txx\tc  x  x  d ");
    assert_eq!(out, "a b c d");
    let chars: Vec<char> = out.chars().collect();
    for pair in chars.windows(2) {
        assert!(!((pair[0] == ' ' || pair[0] == '\t') && (pair[1] == ' ' || pair[1] == '\t')));
    }
}
