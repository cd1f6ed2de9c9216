//! Static configuration: the region registry, credentials taken from the
//! environment, token lifetimes and the redaction patterns.

pub mod env;
pub mod filter;
pub mod jwt;
pub mod region;

pub use env::EnvManager;
pub use filter::{create_message_filters, get_default_filters, FilterConfig};
pub use jwt::JwtInfo;
pub use region::{get_region_config, Region, RegionConfig};
