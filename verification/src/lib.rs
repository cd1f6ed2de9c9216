//! Core of a log-retrieval client for a cookie-authenticated log service that is
//! deployed in several regions.
//!
//! The crate holds the decisions of the client and none of its I/O: the region
//! registry, the per-region token cache with its expiry rule, the routing of a
//! query to a region, the normalisation of the service's answers and the
//! redaction of message text. A host program performs the HTTP exchanges and
//! feeds their outcomes back in.

use vstd::prelude::*;

pub mod auth;
pub mod clock;
pub mod config;
pub mod error;
pub mod json;
pub mod log_query;
pub mod output;
pub mod pattern;
pub mod redaction;
pub mod registry;
pub mod text;

pub use auth::{
    AuthManager, AuthReply, AuthRequest, MultiRegionAuthManager, ProxyCandidate, TokenStep,
};
pub use config::{
    create_message_filters, get_default_filters, get_region_config, EnvManager, FilterConfig,
    JwtInfo, Region, RegionConfig,
};
pub use error::LogidError;
pub use log_query::{
    DetailedLogResult, ExtractedLogMessage, ExtractedValue, HttpReply, LogData, LogGroup, LogItem,
    LogKv, LogMeta, LogQueryClient, LogQueryRequest, LogQueryResponse, LogValue,
    MultiRegionLogQuery, PayloadSource, QueryCall, QueryStep, RegionOutcomes, TimeRange,
};
pub use output::{OutputConfig, OutputDocument, OutputFormatter};

verus! {

/// The version of the library.
pub const VERSION: &'static str = "0.1.0";

/// What the library is, in a line.
pub const DESCRIPTION: &'static str = "基于 Rust 的 logid 查询工具，支持多区域日志查询";

} // verus!
