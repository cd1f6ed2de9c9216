//! The data that travels between the client and the log service, and what
//! the client makes of it.

use crate::text::{opt_text, texts};
use std::collections::HashMap;
use vstd::prelude::*;

verus! {

/// The body of a query.
#[derive(Debug)]
pub struct LogQueryRequest {
    /// The log id to look for.
    pub logid: String,
    /// The services to restrict the search to; none restricts nothing.
    pub psm_list: Vec<String>,
    /// How many minutes the service scans.
    pub scan_span_in_min: i32,
    /// The routing string of the region.
    pub vregion: String,
}

/// The mathematical content of a [`LogQueryRequest`].
pub struct LogQueryRequestView {
    pub logid: Seq<char>,
    pub psm_list: Seq<Seq<char>>,
    pub scan_span_in_min: int,
    pub vregion: Seq<char>,
}

impl View for LogQueryRequest {
    type V = LogQueryRequestView;

    open spec fn view(&self) -> LogQueryRequestView {
        LogQueryRequestView {
            logid: self.logid@,
            psm_list: texts(self.psm_list@),
            scan_span_in_min: self.scan_span_in_min as int,
            vregion: self.vregion@,
        }
    }
}

impl LogQueryRequest {
    /// A query for a log id.
    pub fn new(logid: String, psm_list: Vec<String>, scan_span_in_min: i32, vregion: String) -> (request: Self)
        ensures
            request.logid == logid,
            request.psm_list == psm_list,
            request.scan_span_in_min == scan_span_in_min,
            request.vregion == vregion,
    {
        LogQueryRequest { logid, psm_list, scan_span_in_min, vregion }
    }
}

/// Where a log line came from.
#[derive(Debug)]
pub struct LogGroup {
    pub psm: Option<String>,
    pub pod_name: Option<String>,
    pub ipv4: Option<String>,
    pub env: Option<String>,
    pub vregion: Option<String>,
    pub idc: Option<String>,
}

/// The mathematical content of a [`LogGroup`].
pub struct LogGroupView {
    pub psm: Option<Seq<char>>,
    pub pod_name: Option<Seq<char>>,
    pub ipv4: Option<Seq<char>>,
    pub env: Option<Seq<char>>,
    pub vregion: Option<Seq<char>>,
    pub idc: Option<Seq<char>>,
}

impl View for LogGroup {
    type V = LogGroupView;

    open spec fn view(&self) -> LogGroupView {
        LogGroupView {
            psm: opt_text(self.psm),
            pod_name: opt_text(self.pod_name),
            ipv4: opt_text(self.ipv4),
            env: opt_text(self.env),
            vregion: opt_text(self.vregion),
            idc: opt_text(self.idc),
        }
    }
}

impl Clone for LogGroup {
    fn clone(&self) -> (copy: Self)
        ensures
            copy == *self,
    {
        LogGroup {
            psm: crate::text::clone_opt_string(&self.psm),
            pod_name: crate::text::clone_opt_string(&self.pod_name),
            ipv4: crate::text::clone_opt_string(&self.ipv4),
            env: crate::text::clone_opt_string(&self.env),
            vregion: crate::text::clone_opt_string(&self.vregion),
            idc: crate::text::clone_opt_string(&self.idc),
        }
    }
}

/// One named value of a log line.
#[derive(Debug)]
pub struct LogKv {
    pub key: String,
    pub value: String,
    pub type_field: Option<String>,
    pub highlight: Option<bool>,
}

/// One log line: its named values and its severity.
#[derive(Debug)]
pub struct LogValue {
    pub id: String,
    pub kv_list: Vec<LogKv>,
    pub level: Option<String>,
}

/// The log lines of one source.
#[derive(Debug)]
pub struct LogItem {
    pub id: String,
    pub group: LogGroup,
    pub value: Vec<LogValue>,
}

/// A stretch of time, in the service's own count.
#[derive(Debug, Clone, Copy)]
pub struct TimeRange {
    pub start: Option<i64>,
    pub end: Option<i64>,
}

/// What the service says about a search.
#[derive(Debug)]
pub struct LogMeta {
    /// The stretches of time that were scanned.
    pub scan_time_range: Option<Vec<TimeRange>>,
    /// The severities that occur.
    pub level_list: Option<Vec<String>>,
    /// Every further member, as it came.
    pub other: HashMap<String, serde_json::Value>,
}

/// The payload of an answer.
#[derive(Debug)]
pub struct LogData {
    pub items: Vec<LogItem>,
    pub meta: Option<LogMeta>,
    pub tag_infos: Option<Vec<serde_json::Value>>,
}

/// An answer of the log service, normalised.
#[derive(Debug)]
pub struct LogQueryResponse {
    /// The payload.
    pub data: Option<LogData>,
    /// The member `meta` of the answer, as it came.
    pub meta: Option<serde_json::Value>,
    /// The member `tag_infos` of the answer, where it is a list.
    pub tag_infos: Option<Vec<serde_json::Value>>,
    /// When the answer was taken, in the RFC 3339 form of ISO 8601.
    pub timestamp: String,
    /// The key of the region that answered.
    pub region: String,
    /// The name under which that region is shown.
    pub region_display_name: String,
}

/// A message of a log line, redacted, with the text it was made from.
#[derive(Debug)]
pub struct ExtractedValue {
    pub key: String,
    /// The redacted text.
    pub value: String,
    /// The text as it came.
    pub original_value: String,
    pub type_field: Option<String>,
    pub highlight: bool,
}

/// The mathematical content of an [`ExtractedValue`].
pub struct ExtractedValueView {
    pub key: Seq<char>,
    pub value: Seq<char>,
    pub original_value: Seq<char>,
    pub type_field: Option<Seq<char>>,
    pub highlight: bool,
}

impl View for ExtractedValue {
    type V = ExtractedValueView;

    open spec fn view(&self) -> ExtractedValueView {
        ExtractedValueView {
            key: self.key@,
            value: self.value@,
            original_value: self.original_value@,
            type_field: opt_text(self.type_field),
            highlight: self.highlight,
        }
    }
}

/// The messages of one log line.
#[derive(Debug)]
pub struct ExtractedLogMessage {
    /// The id of the source and the id of the line, joined by a hyphen.
    pub id: String,
    pub group: LogGroup,
    /// The messages of the line, redacted; never empty.
    pub values: Vec<ExtractedValue>,
    /// Where in the code the line was written, as the line says itself.
    pub location: Option<String>,
    pub level: Option<String>,
}

/// The mathematical content of an [`ExtractedLogMessage`].
pub struct ExtractedLogMessageView {
    pub id: Seq<char>,
    pub group: LogGroupView,
    pub values: Seq<ExtractedValueView>,
    pub location: Option<Seq<char>>,
    pub level: Option<Seq<char>>,
}

/// The contents of a list of extracted values, in order.
pub open spec fn value_views(values: Seq<ExtractedValue>) -> Seq<ExtractedValueView> {
    Seq::new(values.len(), |i: int| values[i]@)
}

/// The contents of a list of extracted messages, in order.
pub open spec fn message_views(messages: Seq<ExtractedLogMessage>) -> Seq<ExtractedLogMessageView> {
    Seq::new(messages.len(), |i: int| messages[i]@)
}

impl View for ExtractedLogMessage {
    type V = ExtractedLogMessageView;

    open spec fn view(&self) -> ExtractedLogMessageView {
        ExtractedLogMessageView {
            id: self.id@,
            group: self.group@,
            values: value_views(self.values@),
            location: opt_text(self.location),
            level: opt_text(self.level),
        }
    }
}

/// The result of a query as it is handed to the caller.
#[derive(Debug)]
pub struct DetailedLogResult {
    pub logid: String,
    pub messages: Vec<ExtractedLogMessage>,
    pub meta: Option<LogMeta>,
    pub tag_infos: Option<Vec<serde_json::Value>>,
    /// How many items the payload held, with or without messages.
    pub total_items: usize,
    pub scan_time_range: Option<Vec<TimeRange>>,
    pub level_list: Option<Vec<String>>,
    pub timestamp: String,
    pub region: String,
    pub region_display_name: String,
}

} // verus!
