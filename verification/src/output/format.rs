//! Which parts of a result are shown.

use vstd::prelude::*;

verus! {

/// Which of the optional parts of a result are shown.
#[derive(Debug, Clone, Copy)]
pub struct OutputConfig {
    /// Whether what the service says about the search is shown.
    pub show_metadata: bool,
    /// Whether the stretches of time that were scanned are shown.
    pub show_scan_time_range: bool,
    /// Whether the tags of the answer are shown.
    pub show_tag_infos: bool,
}

impl Default for OutputConfig {
    /// The search's description and the scanned stretches of time are shown,
    /// the tags are not.
    fn default() -> (config: Self)
        ensures
            config.show_metadata,
            config.show_scan_time_range,
            !config.show_tag_infos,
    {
        OutputConfig { show_metadata: true, show_scan_time_range: true, show_tag_infos: false }
    }
}

impl OutputConfig {
    /// The default configuration.
    pub fn new() -> (config: Self)
        ensures
            config.show_metadata,
            config.show_scan_time_range,
            !config.show_tag_infos,
    {
        OutputConfig { show_metadata: true, show_scan_time_range: true, show_tag_infos: false }
    }
}

} // verus!
