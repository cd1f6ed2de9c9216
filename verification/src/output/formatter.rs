//! From a result to the document that is shown: the parts that are always
//! there, and the optional parts that the configuration asks for.

use crate::log_query::types::{DetailedLogResult, ExtractedLogMessage, LogMeta, TimeRange};
use crate::output::format::OutputConfig;
use vstd::prelude::*;

verus! {

/// The document that is shown for a result. Its members are those of the
/// result; an optional member is absent where the result has none or the
/// configuration hides it.
#[derive(Debug)]
pub struct OutputDocument<'a> {
    pub logid: &'a str,
    pub region: &'a str,
    pub region_display_name: &'a str,
    pub total_items: usize,
    pub messages: &'a Vec<ExtractedLogMessage>,
    pub timestamp: &'a str,
    pub meta: Option<&'a LogMeta>,
    pub scan_time_range: Option<&'a Vec<TimeRange>>,
    pub tag_infos: Option<&'a Vec<serde_json::Value>>,
}

/// Makes the documents that are shown.
#[derive(Debug)]
pub struct OutputFormatter {
    config: OutputConfig,
}

/// An optional part of a document: the part of the result where there is
/// one and it is to be shown.
pub open spec fn shown<T>(show: bool, part: Option<T>) -> Option<T> {
    if show {
        part
    } else {
        None
    }
}

/// What a reference to an optional part refers to.
pub open spec fn referred<T>(part: Option<&T>) -> Option<T> {
    match part {
        Some(found) => Some(*found),
        None => None,
    }
}

impl OutputFormatter {
    /// The configuration of the formatter.
    pub closed spec fn config(&self) -> OutputConfig {
        self.config
    }

    /// A formatter with a configuration.
    pub fn new(config: OutputConfig) -> (formatter: Self)
        ensures
            formatter.config() == config,
    {
        OutputFormatter { config }
    }

    /// Makes the document for a result. The log id, the region with its
    /// name, the count of items, the messages and the time are always part
    /// of it; the search's description, the scanned stretches of time and
    /// the tags are part of it where the result has them and the
    /// configuration shows them.
    pub fn format_log_result<'a>(&self, log_details: &'a DetailedLogResult) -> (document:
        OutputDocument<'a>)
        ensures
            document.logid@ == log_details.logid@,
            document.region@ == log_details.region@,
            document.region_display_name@ == log_details.region_display_name@,
            document.total_items == log_details.total_items,
            *document.messages == log_details.messages,
            document.timestamp@ == log_details.timestamp@,
            referred(document.meta) == shown(self.config().show_metadata, log_details.meta),
            referred(document.scan_time_range) == shown(
                self.config().show_scan_time_range,
                log_details.scan_time_range,
            ),
            referred(document.tag_infos) == shown(
                self.config().show_tag_infos,
                log_details.tag_infos,
            ),
    {
        let meta = if self.config.show_metadata {
            log_details.meta.as_ref()
        } else {
            None
        };
        let scan_time_range = if self.config.show_scan_time_range {
            log_details.scan_time_range.as_ref()
        } else {
            None
        };
        let tag_infos = if self.config.show_tag_infos {
            log_details.tag_infos.as_ref()
        } else {
            None
        };
        OutputDocument {
            logid: log_details.logid.as_str(),
            region: log_details.region.as_str(),
            region_display_name: log_details.region_display_name.as_str(),
            total_items: log_details.total_items,
            messages: &log_details.messages,
            timestamp: log_details.timestamp.as_str(),
            meta,
            scan_time_range,
            tag_infos,
        }
    }
}

} // verus!
