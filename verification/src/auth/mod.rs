//! Bearer tokens: the cache of one region, and the caches of several.

pub mod manager;
pub mod multi_region;

pub use manager::{AuthManager, AuthReply, AuthRequest, ProxyCandidate, TokenStep};
pub use multi_region::MultiRegionAuthManager;
