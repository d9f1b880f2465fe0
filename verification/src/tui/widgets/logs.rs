// The Logs view: one line per log record, its time, level, target and message.
use vstd::prelude::*;
use crate::tui::app::{App, UILogEntry, LogLevel};
use crate::tui::widgets::{Span, Tone, span_views};
use crate::text::push_all;

verus! {

broadcast use vstd::string::group_string_axioms;

/// The Logs view.
pub struct LogsWidget;

/// A level's name padded to five columns, and its tone.
pub open spec fn level_column(l: LogLevel) -> (Seq<char>, Tone) {
    match l {
        LogLevel::Error => ("ERROR"@, Tone::LevelError),
        LogLevel::Warn => ("WARN "@, Tone::LevelWarn),
        LogLevel::Info => ("INFO "@, Tone::LevelInfo),
        LogLevel::Debug => ("DEBUG"@, Tone::LevelDebug),
        LogLevel::Trace => ("TRACE"@, Tone::LevelTrace),
    }
}

/// The line of a record: its time and a space, its level padded to five columns and a
/// space, its target in brackets and a space, and its message.
pub open spec fn entry_line(e: UILogEntry) -> Seq<(Seq<char>, Tone)> {
    seq![
        (e.timestamp@ + " "@, Tone::Timestamp),
        (level_column(e.level).0 + " "@, level_column(e.level).1),
        ("["@ + e.target@ + "] "@, Tone::LogTarget),
        (e.message@, Tone::Primary),
    ]
}

fn level_text(l: LogLevel) -> (r: (String, Tone))
    ensures
        (r.0@, r.1) == level_column(l),
{
    match l {
        LogLevel::Error => ("ERROR".to_string(), Tone::LevelError),
        LogLevel::Warn => ("WARN ".to_string(), Tone::LevelWarn),
        LogLevel::Info => ("INFO ".to_string(), Tone::LevelInfo),
        LogLevel::Debug => ("DEBUG".to_string(), Tone::LevelDebug),
        LogLevel::Trace => ("TRACE".to_string(), Tone::LevelTrace),
    }
}

impl LogsWidget {
    /// The view's title.
    pub fn title() -> (r: Span)
        ensures
            r.text@ == "Logs"@,
            r.tone == Tone::Title,
    {
        Span { text: "Logs".to_string(), tone: Tone::Title }
    }

    /// What the view shows while there are no records.
    pub fn placeholder() -> (r: Span)
        ensures
            r.text@ == "No log entries yet."@,
            r.tone == Tone::Secondary,
    {
        Span { text: "No log entries yet.".to_string(), tone: Tone::Secondary }
    }

    /// The line of a record (see `entry_line`).
    pub fn entry_spans(e: &UILogEntry) -> (r: Vec<Span>)
        ensures
            span_views(r@) == entry_line(*e),
    {
        let mut ts = e.timestamp.clone();
        push_all(&mut ts, " ");
        let (mut level, tone) = level_text(e.level);
        push_all(&mut level, " ");
        let mut target = "[".to_string();
        push_all(&mut target, e.target.as_str());
        push_all(&mut target, "] ");
        let r = vec![
            Span { text: ts, tone: Tone::Timestamp },
            Span { text: level, tone },
            Span { text: target, tone: Tone::LogTarget },
            Span { text: e.message.clone(), tone: Tone::Primary },
        ];
        assert(span_views(r@) =~= entry_line(*e));
        r
    }

    /// The lines of all records, in order.
    pub fn lines(app: &App) -> (r: Vec<Vec<Span>>)
        ensures
            r@.len() == app.log_entries@.len(),
            forall|i: int| 0 <= i < r@.len() ==> span_views(#[trigger] r@[i]@) == entry_line(app.log_entries@[i]),
    {
        let mut out: Vec<Vec<Span>> = Vec::new();
        let mut i: usize = 0;
        while i < app.log_entries.len()
            invariant
                i <= app.log_entries@.len(),
                out@.len() == i,
                forall|k: int| 0 <= k < i ==> span_views(#[trigger] out@[k]@) == entry_line(app.log_entries@[k]),
            decreases app.log_entries@.len() - i,
        {
            out.push(LogsWidget::entry_spans(&app.log_entries[i]));
            i = i + 1;
        }
        out
    }
}

} // verus!
