//! Structured log types.
//!
//! Topic: `nexox/up/logs/<service>/structured`
use vstd::prelude::*;

use crate::clock::UtcTimestamp;
use crate::json::JsonValue;
use crate::text::{is_non_empty, non_empty};
use crate::validate::PayloadValidation;

verus! {

#[derive(Debug, Clone, Copy, PartialEq, Eq, Structural)]
pub enum LogLevel {
    Trace,
    Debug,
    Info,
    Warn,
    Error,
}

#[derive(Debug, Clone)]
pub struct LogEntry {
    pub level: LogLevel,
    pub service: String,
    pub message: String,
    pub timestamp: UtcTimestamp,
    pub fields: JsonValue,
}

impl LogEntry {
    /// A log entry names its service and says something.
    pub open spec fn valid(&self) -> bool {
        non_empty(self.service@) && non_empty(self.message@)
    }
}

impl PayloadValidation for LogEntry {
    fn is_valid(&self) -> (b: bool)
        ensures
            b == self.valid(),
    {
        is_non_empty(&self.service) && is_non_empty(&self.message)
    }
}

/// A log entry is valid exactly when both its service and its message are
/// non-empty, whatever its level, time and fields.
pub proof fn lemma_log_entry_rule(l: LogEntry)
    ensures
        l.service@.len() == 0 ==> !l.valid(),
        l.message@.len() == 0 ==> !l.valid(),
        l.service@.len() > 0 && l.message@.len() > 0 ==> l.valid(),
{
}

} // verus!
