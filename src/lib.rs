//! Verified core of a command-line stock tracker: the chronological order of
//! quote records, the sliding windows of a moving average, the symbol list,
//! the start of the reporting period and the per-symbol decision to report or
//! to skip.
pub mod period;
pub mod report;
pub mod series;
pub mod symbols;
