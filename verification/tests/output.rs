use logid::{
    DetailedLogResult, ExtractedLogMessage, ExtractedValue, LogGroup, LogMeta, OutputConfig,
    OutputFormatter, TimeRange,
};
use std::collections::HashMap;

fn create_test_log_result() -> DetailedLogResult {
    DetailedLogResult {
        logid: "test_logid_123".to_string(),
        messages: vec![ExtractedLogMessage {
            id: "msg_1".to_string(),
            group: LogGroup {
                psm: Some("test.psm".to_string()),
                pod_name: Some("test-pod-123".to_string()),
                ipv4: Some("192.168.1.100".to_string()),
                env: Some("production".to_string()),
                vregion: Some("US-TTP".to_string()),
                idc: Some("us-east-1".to_string()),
            },
            values: vec![ExtractedValue {
                key: "_msg".to_string(),
                value: "这是一条测试消息".to_string(),
                original_value: "这是一条测试消息".to_string(),
                type_field: Some("string".to_string()),
                highlight: false,
            }],
            level: Some("INFO".to_string()),
            location: Some("src/main.rs:42".to_string()),
        }],
        meta: None,
        tag_infos: None,
        total_items: 1,
        scan_time_range: Some(vec![TimeRange { start: Some(1609459200), end: Some(1609459260) }]),
        level_list: Some(vec!["INFO".to_string(), "ERROR".to_string()]),
        timestamp: "2024-01-01T12:00:00Z".to_string(),
        region: "us".to_string(),
        region_display_name: "美区".to_string(),
    }
}

#[test]
fn test_output_config_default() {
    let config = OutputConfig::default();
    assert!(config.show_metadata);
    assert!(config.show_scan_time_range);
    assert!(!config.show_tag_infos);
}

#[test]
fn test_formatter_json_output() {
    let config = OutputConfig::new();
    let formatter = OutputFormatter::new(config);
    let log_result = create_test_log_result();

    let output = formatter.format_log_result(&log_result);

    assert_eq!(output.logid, "test_logid_123");
    assert_eq!(output.region, "us");
    assert_eq!(output.region_display_name, "美区");
    assert_eq!(output.total_items, 1);
    assert_eq!(output.messages.len(), 1);
}

#[test]
fn output_config_new_is_the_default() {
    let config = OutputConfig::new();
    assert!(config.show_metadata);
    assert!(config.show_scan_time_range);
    assert!(!config.show_tag_infos);
}

#[test]
fn document_always_holds_the_fixed_parts() {
    let formatter = OutputFormatter::new(OutputConfig {
        show_metadata: false,
        show_scan_time_range: false,
        show_tag_infos: false,
    });
    let result = create_test_log_result();
    let document = formatter.format_log_result(&result);
    assert_eq!(document.timestamp, "2024-01-01T12:00:00Z");
    assert_eq!(document.messages[0].id, "msg_1");
    assert!(document.meta.is_none());
    assert!(document.scan_time_range.is_none());
    assert!(document.tag_infos.is_none());
}

#[test]
fn document_shows_what_the_configuration_asks_for() {
    let mut result = create_test_log_result();
    result.meta = Some(LogMeta { scan_time_range: None, level_list: None, other: HashMap::new() });
    result.tag_infos = Some(vec![serde_json::Value::Bool(true)]);
    let all = OutputFormatter::new(OutputConfig {
        show_metadata: true,
        show_scan_time_range: true,
        show_tag_infos: true,
    });
    let document = all.format_log_result(&result);
    assert!(document.meta.is_some());
    assert_eq!(document.scan_time_range.unwrap().len(), 1);
    assert_eq!(document.scan_time_range.unwrap()[0].start, Some(1609459200));
    assert_eq!(document.tag_infos.unwrap(), &vec![serde_json::Value::Bool(true)]);
    let default = OutputFormatter::new(OutputConfig::default());
    let document = default.format_log_result(&result);
    assert!(document.meta.is_some());
    assert!(document.scan_time_range.is_some());
    assert!(document.tag_infos.is_none());
}

#[test]
fn document_has_no_part_that_the_result_lacks() {
    let mut result = create_test_log_result();
    result.scan_time_range = None;
    let all = OutputFormatter::new(OutputConfig {
        show_metadata: true,
        show_scan_time_range: true,
        show_tag_infos: true,
    });
    let document = all.format_log_result(&result);
    assert!(document.meta.is_none());
    assert!(document.scan_time_range.is_none());
    assert!(document.tag_infos.is_none());
}
