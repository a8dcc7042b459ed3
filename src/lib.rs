//! Logging levels and the filter that decides, per call, whether a message is
//! emitted. A call at a message level passes when its level is at least the
//! configured threshold; a passing message is the formatted content behind a
//! `[<file>:<line> <LABEL>] ` prefix.
pub mod decimal;
pub mod filter;
pub mod laws;
pub mod level;

pub use decimal::decimal;
pub use filter::{debug, enabled, error, info, record, warn};
pub use level::{level, level_from_flags, Level};
