//! From the payload of an answer to the messages it holds.
//!
//! Each log line that has at least one entry named `_msg` gives one
//! extracted message; a line without such an entry gives nothing.

use crate::log_query::types::{
    message_views, value_views, ExtractedLogMessage, ExtractedLogMessageView, ExtractedValue,
    ExtractedValueView, LogItem, LogKv, LogValue,
};
use crate::redaction::{redact, redacted};
use crate::text::{clone_opt_string, join3, opt_text, str_eq};
use vstd::prelude::*;

verus! {

/// The name of an entry that carries message text.
pub const MESSAGE_KEY: &'static str = "_msg";

/// The name of an entry that says where in the code a line was written.
pub const LOCATION_KEY: &'static str = "_location";

/// What a message entry becomes: its text redacted, the text kept as it
/// came beside it, an absent highlight mark read as not highlighted.
pub open spec fn value_of(filters: Seq<regex::Regex>, entry: LogKv) -> ExtractedValueView {
    ExtractedValueView {
        key: entry.key@,
        value: redacted(filters, entry.value@),
        original_value: entry.value@,
        type_field: opt_text(entry.type_field),
        highlight: match entry.highlight {
            Some(mark) => mark,
            None => false,
        },
    }
}

/// The messages among the entries of a line, in the order of the entries.
pub open spec fn values_of(filters: Seq<regex::Regex>, entries: Seq<LogKv>) -> Seq<ExtractedValueView>
    decreases entries.len(),
{
    if entries.len() == 0 {
        Seq::empty()
    } else if entries.last().key@ == MESSAGE_KEY@ {
        values_of(filters, entries.drop_last()).push(value_of(filters, entries.last()))
    } else {
        values_of(filters, entries.drop_last())
    }
}

/// The location that the entries of a line give: that of the last entry
/// named `_location`, never redacted.
pub open spec fn location_of(entries: Seq<LogKv>) -> Option<Seq<char>>
    decreases entries.len(),
{
    if entries.len() == 0 {
        None
    } else if entries.last().key@ == LOCATION_KEY@ {
        Some(entries.last().value@)
    } else {
        location_of(entries.drop_last())
    }
}

/// The message that a line gives, if it gives one.
pub open spec fn message_of(filters: Seq<regex::Regex>, item: LogItem, line: LogValue) -> Option<
    ExtractedLogMessageView,
> {
    let values = values_of(filters, line.kv_list@);
    if values.len() == 0 {
        None
    } else {
        Some(
            ExtractedLogMessageView {
                id: item.id@ + "-"@ + line.id@,
                group: item.group@,
                values,
                location: location_of(line.kv_list@),
                level: opt_text(line.level),
            },
        )
    }
}

/// The messages of the first `upto` lines of an item, in order.
pub open spec fn messages_of_lines(filters: Seq<regex::Regex>, item: LogItem, upto: int) -> Seq<
    ExtractedLogMessageView,
>
    decreases upto,
{
    if upto <= 0 {
        Seq::empty()
    } else {
        let before = messages_of_lines(filters, item, upto - 1);
        match message_of(filters, item, item.value@[upto - 1]) {
            Some(message) => before.push(message),
            None => before,
        }
    }
}

/// The messages of a list of items: item by item, line by line.
pub open spec fn messages_of(filters: Seq<regex::Regex>, items: Seq<LogItem>) -> Seq<
    ExtractedLogMessageView,
>
    decreases items.len(),
{
    if items.len() == 0 {
        Seq::empty()
    } else {
        messages_of(filters, items.drop_last()) + messages_of_lines(
            filters,
            items.last(),
            items.last().value@.len() as int,
        )
    }
}

/// Extracts the message of one line: `None` for a line without message text.
pub fn extract_line(filters: &Vec<regex::Regex>, item: &LogItem, line: &LogValue) -> (message: Option<
    ExtractedLogMessage,
>)
    ensures
        match message_of(filters@, *item, *line) {
            Some(expected) => message matches Some(found) && found@ == expected,
            None => message is None,
        },
{
    let mut values: Vec<ExtractedValue> = Vec::new();
    let mut location: Option<String> = None;
    let mut k: usize = 0;
    assert(line.kv_list@.take(0) =~= Seq::<LogKv>::empty());
    assert(value_views(values@) =~= Seq::<ExtractedValueView>::empty());
    while k < line.kv_list.len()
        invariant
            k <= line.kv_list.len(),
            value_views(values@) == values_of(filters@, line.kv_list@.take(k as int)),
            opt_text(location) == location_of(line.kv_list@.take(k as int)),
        decreases line.kv_list.len() - k,
    {
        let entry = &line.kv_list[k];
        let ghost before = values@;
        proof {
            let seen = line.kv_list@.take(k + 1);
            assert(seen.drop_last() =~= line.kv_list@.take(k as int));
            assert(seen.last() == *entry);
        }
        if str_eq(entry.key.as_str(), MESSAGE_KEY) {
            let value = ExtractedValue {
                key: entry.key.clone(),
                value: redact(filters, entry.value.as_str()),
                original_value: entry.value.clone(),
                type_field: clone_opt_string(&entry.type_field),
                highlight: match entry.highlight {
                    Some(mark) => mark,
                    None => false,
                },
            };
            assert(value@ == value_of(filters@, *entry));
            values.push(value);
            assert(value_views(values@) =~= value_views(before).push(value_of(filters@, *entry)));
        } else if str_eq(entry.key.as_str(), LOCATION_KEY) {
            location = Some(entry.value.clone());
        }
        proof {
            if entry.key@ == MESSAGE_KEY@ {
                lemma_keys_differ();
            }
        }
        k += 1;
    }
    assert(line.kv_list@.take(line.kv_list.len() as int) =~= line.kv_list@);
    if values.len() == 0 {
        None
    } else {
        Some(
            ExtractedLogMessage {
                id: join3(item.id.as_str(), "-", line.id.as_str()),
                group: item.group.clone(),
                values,
                location,
                level: clone_opt_string(&line.level),
            },
        )
    }
}

/// The two entry names are different names.
pub proof fn lemma_keys_differ()
    ensures
        MESSAGE_KEY@ != LOCATION_KEY@,
{
    reveal_strlit("_msg");
    reveal_strlit("_location");
    assert(MESSAGE_KEY@.len() == 4);
    assert(LOCATION_KEY@.len() == 9);
}

/// Extracts the messages of a list of items: for every item, for every line
/// of it that has message text, one message, in the order of the payload.
pub fn extract_messages(filters: &Vec<regex::Regex>, items: &Vec<LogItem>) -> (messages: Vec<
    ExtractedLogMessage,
>)
    ensures
        message_views(messages@) == messages_of(filters@, items@),
{
    let mut messages: Vec<ExtractedLogMessage> = Vec::new();
    let mut i: usize = 0;
    assert(items@.take(0) =~= Seq::<LogItem>::empty());
    assert(message_views(messages@) =~= Seq::<ExtractedLogMessageView>::empty());
    while i < items.len()
        invariant
            i <= items.len(),
            message_views(messages@) == messages_of(filters@, items@.take(i as int)),
        decreases items.len() - i,
    {
        let item = &items[i];
        let ghost done = message_views(messages@);
        let mut j: usize = 0;
        assert(done + messages_of_lines(filters@, *item, 0) =~= done);
        while j < item.value.len()
            invariant
                j <= item.value.len(),
                    message_views(messages@) == done + messages_of_lines(filters@, *item, j as int),
            decreases item.value.len() - j,
        {
            let ghost before = messages@;
            match extract_line(filters, item, &item.value[j]) {
                Some(message) => {
                    let ghost content = message@;
                    messages.push(message);
                    assert(message_views(messages@) =~= message_views(before).push(content));
                    assert(message_views(messages@) =~= done + messages_of_lines(
                        filters@,
                        *item,
                        j + 1,
                    ));
                },
                None => {},
            }
            j += 1;
        }
        proof {
            let seen = items@.take(i + 1);
            assert(seen.drop_last() =~= items@.take(i as int));
            assert(seen.last() == *item);
        }
        i += 1;
    }
    assert(items@.take(items.len() as int) =~= items@);
    messages
}

} // verus!
