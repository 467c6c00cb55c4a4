//! Deletion rules for a scheduled file clean-up: thresholds on age and size,
//! a pattern on the file name, and the decision whether a file is removed.

pub mod error;
pub mod text;
pub mod decimal;
pub mod units;
pub mod matcher;
pub mod rule;
pub mod doom;
