//! Queries against the log service of one region or of several.

pub mod client;
pub mod extract;
pub mod multi_region;
pub mod response;
pub mod types;

pub use client::{HttpReply, LogQueryClient, QueryCall, QueryStep};
pub use multi_region::{MultiRegionLogQuery, RegionOutcomes};
pub use response::PayloadSource;
pub use types::{
    DetailedLogResult, ExtractedLogMessage, ExtractedValue, LogData, LogGroup, LogItem, LogKv,
    LogMeta, LogQueryRequest, LogQueryResponse, LogValue, TimeRange,
};
