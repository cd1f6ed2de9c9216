use logid::config::filter::compile_filters;
use logid::log_query::extract::{extract_line, extract_messages};
use logid::{LogGroup, LogItem, LogKv, LogValue};

fn kv(key: &str, value: &str) -> LogKv {
    LogKv { key: key.to_string(), value: value.to_string(), type_field: None, highlight: None }
}

fn group() -> LogGroup {
    LogGroup {
        psm: Some("svc.a".to_string()),
        pod_name: Some("pod-1".to_string()),
        ipv4: None,
        env: Some("prod".to_string()),
        vregion: None,
        idc: Some("idc1".to_string()),
    }
}

fn line(id: &str, entries: Vec<LogKv>, level: Option<&str>) -> LogValue {
    LogValue { id: id.to_string(), kv_list: entries, level: level.map(|l| l.to_string()) }
}

fn item(id: &str, lines: Vec<LogValue>) -> LogItem {
    LogItem { id: id.to_string(), group: group(), value: lines }
}

#[test]
fn line_without_message_gives_nothing() {
    let filters = compile_filters(&vec![]).unwrap();
    let it = item("i", vec![line("v", vec![kv("_location", "a.rs:1"), kv("other", "x")], None)]);
    assert!(extract_line(&filters, &it, &it.value[0]).is_none());
    assert!(extract_messages(&filters, &vec![it]).is_empty());
}

#[test]
fn line_with_message_gives_one_message() {
    let filters = compile_filters(&vec!["SECRET".to_string()]).unwrap();
    let mut entry = kv("_msg", "hello SECRET   world");
    entry.type_field = Some("string".to_string());
    entry.highlight = Some(true);
    let it = item("item1", vec![line("v9", vec![entry, kv("_location", "src/a.rs:7")], Some("INFO"))]);
    let message = extract_line(&filters, &it, &it.value[0]).unwrap();
    assert_eq!(message.id, "item1-v9");
    assert_eq!(message.group.psm, Some("svc.a".to_string()));
    assert_eq!(message.group.pod_name, Some("pod-1".to_string()));
    assert_eq!(message.group.ipv4, None);
    assert_eq!(message.group.env, Some("prod".to_string()));
    assert_eq!(message.group.idc, Some("idc1".to_string()));
    assert_eq!(message.level, Some("INFO".to_string()));
    assert_eq!(message.location, Some("src/a.rs:7".to_string()));
    assert_eq!(message.values.len(), 1);
    assert_eq!(message.values[0].key, "_msg");
    assert_eq!(message.values[0].value, "hello world");
    assert_eq!(message.values[0].original_value, "hello SECRET   world");
    assert_eq!(message.values[0].type_field, Some("string".to_string()));
    assert!(message.values[0].highlight);
}

#[test]
fn several_messages_of_one_line_stay_together() {
    let filters = compile_filters(&vec![]).unwrap();
    let it = item(
        "i",
        vec![line("v", vec![kv("_msg", "one"), kv("x", "y"), kv("_msg", " two ")], None)],
    );
    let messages = extract_messages(&filters, &vec![it]);
    assert_eq!(messages.len(), 1);
    assert_eq!(messages[0].values.len(), 2);
    assert_eq!(messages[0].values[0].value, "one");
    assert_eq!(messages[0].values[1].value, "two");
    assert_eq!(messages[0].values[1].original_value, " two ");
    assert!(!messages[0].values[0].highlight);
    assert_eq!(messages[0].location, None);
    assert_eq!(messages[0].level, None);
}

#[test]
fn location_is_kept_as_it_came_and_the_last_one_counts() {
    let filters = compile_filters(&vec!["a".to_string()]).unwrap();
    let it = item(
        "i",
        vec![line("v", vec![kv("_location", "a.rs"), kv("_msg", "banana"), kv("_location", "  aa.rs  ")], None)],
    );
    let messages = extract_messages(&filters, &vec![it]);
    assert_eq!(messages[0].location, Some("  aa.rs  ".to_string()));
    assert_eq!(messages[0].values[0].value, "bnn");
}

#[test]
fn messages_come_in_the_order_of_the_payload() {
    let filters = compile_filters(&vec![]).unwrap();
    let items = vec![
        item("a", vec![line("1", vec![kv("_msg", "m1")], None), line("2", vec![kv("k", "v")], None), line("3", vec![kv("_msg", "m3")], None)]),
        item("b", vec![]),
        item("c", vec![line("1", vec![kv("_msg", "m4")], None)]),
    ];
    let messages = extract_messages(&filters, &items);
    let ids: Vec<&str> = messages.iter().map(|m| m.id.as_str()).collect();
    assert_eq!(ids, vec!["a-1", "a-3", "c-1"]);
    let texts: Vec<&str> = messages.iter().map(|m| m.values[0].value.as_str()).collect();
    assert_eq!(texts, vec!["m1", "m3", "m4"]);
}

#[test]
fn key_must_be_exactly_the_message_key() {
    let filters = compile_filters(&vec![]).unwrap();
    let it = item("i", vec![line("v", vec![kv("_MSG", "x"), kv("msg", "y"), kv("_msg ", "z")], None)]);
    assert!(extract_messages(&filters, &vec![it]).is_empty());
}
