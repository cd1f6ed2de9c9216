//! What is shown of a result.

pub mod format;
pub mod formatter;

pub use format::OutputConfig;
pub use formatter::{OutputDocument, OutputFormatter};
