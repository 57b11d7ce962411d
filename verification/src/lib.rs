//! Verified core of the Codex session usage statistics: reading Codex
//! session logs (JSON lines) into token usage events, keeping the import
//! cursor of each log, and the decisions behind the cached statistics.

pub mod cache;
pub mod calendar;
pub mod counters;
pub mod event_key;
pub mod fields;
pub mod json;
pub mod laws;
pub mod paths;
pub mod query;
pub mod scan;
pub mod text;
