use logid::config::filter::compile_filters;
use logid::redaction::pattern_list;
use logid::{create_message_filters, get_default_filters, FilterConfig, LogidError};

#[test]
fn default_filters_are_the_seven_built_in_patterns() {
    assert_eq!(
        get_default_filters(),
        vec![
            "_compliance_nlp_log".to_string(),
            "_compliance_whitelist_log".to_string(),
            "_compliance_source=footprint".to_string(),
            r#"(?s)"user_extra":\s*"\{.*?\}""#.to_string(),
            r#"(?m)"LogID":\s*"[^"]*""#.to_string(),
            r#"(?m)"Addr":\s*"[^"]*""#.to_string(),
            r#"(?m)"Client":\s*"[^"]*""#.to_string(),
        ]
    );
}

#[test]
fn filter_config_reads_the_current_key() {
    let config = FilterConfig::from_json(r#"{"msg_filters": ["a", "b+"]}"#).unwrap().unwrap();
    assert_eq!(config.msg_filters, Some(vec!["a".to_string(), "b+".to_string()]));
    assert_eq!(config.get_filters(), vec!["a".to_string(), "b+".to_string()]);
}

#[test]
fn filter_config_reads_the_older_keys() {
    let config = FilterConfig::from_json(r#"{"_msg_filters": ["x"]}"#).unwrap().unwrap();
    assert_eq!(config.get_filters(), vec!["x".to_string()]);
    let config = FilterConfig::from_json(r#"{"patterns": ["y", "z"]}"#).unwrap().unwrap();
    assert_eq!(config.get_filters(), vec!["y".to_string(), "z".to_string()]);
}

#[test]
fn filter_config_prefers_the_current_key() {
    let text = r#"{"patterns": ["p"], "_msg_filters": ["u"], "msg_filters": ["m"]}"#;
    let config = FilterConfig::from_json(text).unwrap().unwrap();
    assert_eq!(config.get_filters(), vec!["m".to_string()]);
    let text = r#"{"patterns": ["p"], "_msg_filters": ["u"]}"#;
    let config = FilterConfig::from_json(text).unwrap().unwrap();
    assert_eq!(config.get_filters(), vec!["u".to_string()]);
}

#[test]
fn filter_config_without_a_known_key_is_silent() {
    assert!(FilterConfig::from_json(r#"{"other": ["a"]}"#).unwrap().is_none());
    assert!(FilterConfig::from_json("{}").unwrap().is_none());
    assert!(FilterConfig::from_json("[1, 2]").unwrap().is_none());
    assert!(FilterConfig::from_json("null").unwrap().is_none());
}

#[test]
fn filter_config_accepts_an_empty_list() {
    let config = FilterConfig::from_json(r#"{"msg_filters": []}"#).unwrap().unwrap();
    assert_eq!(config.get_filters(), Vec::<String>::new());
}

#[test]
fn filter_config_refuses_what_is_no_json() {
    assert!(matches!(FilterConfig::from_json("{not json"), Err(LogidError::JsonParseError(_))));
    assert!(matches!(FilterConfig::from_json(""), Err(LogidError::JsonParseError(_))));
}

#[test]
fn filter_config_refuses_a_member_that_is_no_list_of_strings() {
    assert!(matches!(
        FilterConfig::from_json(r#"{"msg_filters": "a"}"#),
        Err(LogidError::JsonParseError(_))
    ));
    assert!(matches!(
        FilterConfig::from_json(r#"{"msg_filters": ["a", 1]}"#),
        Err(LogidError::JsonParseError(_))
    ));
    assert!(matches!(
        FilterConfig::from_json(r#"{"msg_filters": null, "patterns": ["a"]}"#),
        Err(LogidError::JsonParseError(_))
    ));
}

#[test]
fn filter_config_without_patterns_gives_the_defaults() {
    let config = FilterConfig { msg_filters: None };
    assert_eq!(config.get_filters(), get_default_filters());
}

#[test]
fn compile_filters_keeps_order_and_patterns() {
    let patterns = vec!["a+".to_string(), "b".to_string(), "(?i)c".to_string()];
    let filters = compile_filters(&patterns).unwrap();
    assert_eq!(filters.len(), 3);
    assert_eq!(filters[0].as_str(), "a+");
    assert_eq!(filters[1].as_str(), "b");
    assert_eq!(filters[2].as_str(), "(?i)c");
    assert_eq!(pattern_list(&filters), patterns);
}

#[test]
fn compile_filters_fails_on_the_first_bad_pattern() {
    let patterns = vec!["ok".to_string(), "foo(bar".to_string(), "[".to_string()];
    match compile_filters(&patterns) {
        Err(LogidError::FilterConfigError(report)) => {
            assert!(report.starts_with("无效的正则表达式 'foo(bar': "));
            assert!(report.len() > "无效的正则表达式 'foo(bar': ".len());
        }
        _ => panic!("a pattern that does not compile is an error"),
    }
}

#[test]
fn create_message_filters_without_a_document_uses_the_defaults() {
    let filters = create_message_filters(None).unwrap();
    assert_eq!(pattern_list(&filters), get_default_filters());
}

#[test]
fn create_message_filters_with_a_silent_document_uses_the_defaults() {
    let filters = create_message_filters(Some(r#"{"unrelated": 1}"#)).unwrap();
    assert_eq!(pattern_list(&filters), get_default_filters());
}

#[test]
fn create_message_filters_uses_the_documents_patterns() {
    let filters = create_message_filters(Some(r#"{"patterns": ["secret\\d+", "x"]}"#)).unwrap();
    assert_eq!(pattern_list(&filters), vec![r"secret\d+".to_string(), "x".to_string()]);
}

#[test]
fn create_message_filters_fails_on_a_malformed_document() {
    assert!(matches!(create_message_filters(Some("{")), Err(LogidError::JsonParseError(_))));
}

#[test]
fn create_message_filters_fails_on_a_bad_pattern() {
    match create_message_filters(Some(r#"{"msg_filters": ["a", "(", "[", "b"]}"#)) {
        Err(LogidError::FilterConfigError(report)) => {
            assert!(report.starts_with("无效的正则表达式 '(': "));
        }
        _ => panic!("a pattern that does not compile is an error"),
    }
}

#[test]
fn filter_config_from_document_reads_a_parsed_document() {
    let document: serde_json::Value = serde_json::from_str(r#"{"_msg_filters": ["a"]}"#).unwrap();
    let config = FilterConfig::from_document(&document).unwrap().unwrap();
    assert_eq!(config.get_filters(), vec!["a".to_string()]);
    let document: serde_json::Value = serde_json::from_str(r#"{"x": 1}"#).unwrap();
    assert!(FilterConfig::from_document(&document).unwrap().is_none());
    let document: serde_json::Value = serde_json::from_str(r#"{"patterns": {"a": 1}}"#).unwrap();
    assert!(matches!(FilterConfig::from_document(&document), Err(LogidError::JsonParseError(_))));
}
