// The log records the interface collects from tracing events: a record is kept for an
// event that carries a message.
use vstd::prelude::*;
use crate::tui::app::{UILogEntry, LogLevel};
use crate::clock::{is_clock_time, local_clock_time};
use crate::text::str_eq;

verus! {

broadcast use vstd::string::group_string_axioms;

/// What is gathered from one event while its fields are visited.
#[derive(Debug, Clone)]
pub struct LogEntryVisitor {
    pub timestamp: String,
    pub level: LogLevel,
    pub target: String,
    pub message: Option<String>,
}

impl LogEntryVisitor {
    /// A visitor for an event at a given time, with no message yet.
    pub fn new_at(level: LogLevel, target: String, timestamp: String) -> (r: Self)
        ensures
            r.timestamp == timestamp,
            r.level == level,
            r.target == target,
            r.message is None,
    {
        LogEntryVisitor { timestamp, level, target, message: None }
    }

    /// A visitor for an event that happens now: stamped with the local clock time.
    pub fn new(level: LogLevel, target: String) -> (r: Self)
        ensures
            is_clock_time(r.timestamp@),
            r.level == level,
            r.target == target,
            r.message is None,
    {
        LogEntryVisitor::new_at(level, target, local_clock_time())
    }

    /// Takes one field of the event, as text: the field named "message" becomes the
    /// message; other fields are passed over.
    pub fn record_field(&mut self, field_name: &str, text: String)
        ensures
            final(self).message == (if field_name@ == "message"@ { Some(text) } else { old(self).message }),
            final(self).timestamp == old(self).timestamp,
            final(self).level == old(self).level,
            final(self).target == old(self).target,
    {
        if str_eq(field_name, "message") {
            self.message = Some(text);
        }
    }

    /// The record of the event, if it carried a message.
    pub fn into_entry(self) -> (r: Option<UILogEntry>)
        ensures
            match self.message {
                Some(m) => r == Some(UILogEntry {
                    timestamp: self.timestamp,
                    level: self.level,
                    target: self.target,
                    message: m,
                }),
                None => r is None,
            },
    {
        match self.message {
            Some(message) => Some(UILogEntry {
                timestamp: self.timestamp,
                level: self.level,
                target: self.target,
                message,
            }),
            None => None,
        }
    }
}

} // verus!
