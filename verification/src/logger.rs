//! Log events and the bounded record of the most recent ones.

use vstd::prelude::*;
use vstd::string::StringExecFns;
use std::collections::VecDeque;

verus! {

/// Number of events the record keeps for late subscribers.
pub const MAX_BUFFERED_LOGS: usize = 2000usize;

#[derive(Debug, Clone, Copy, PartialEq, Eq, Structural)]
pub enum LogLevel {
    Debug,
    Info,
    Warning,
    Error,
}

/// One line of the log.
#[derive(Debug)]
pub struct LogEvent {
    pub timestamp: String,
    pub level: LogLevel,
    pub source: String,
    pub message: String,
}

/// Mathematical value of a [`LogEvent`].
pub struct LogEventView {
    pub timestamp: Seq<char>,
    pub level: LogLevel,
    pub source: Seq<char>,
    pub message: Seq<char>,
}

impl View for LogEvent {
    type V = LogEventView;

    open spec fn view(&self) -> LogEventView {
        LogEventView {
            timestamp: self.timestamp@,
            level: self.level,
            source: self.source@,
            message: self.message@,
        }
    }
}

impl Clone for LogEvent {
    fn clone(&self) -> (out: Self)
        ensures
            out@ == self@,
    {
        LogEvent {
            timestamp: self.timestamp.clone(),
            level: self.level,
            source: self.source.clone(),
            message: self.message.clone(),
        }
    }
}

/// The values of a sequence of events, in the same order.
pub open spec fn event_views(s: Seq<LogEvent>) -> Seq<LogEventView> {
    s.map_values(|e: LogEvent| e@)
}

/// The last `limit` entries of `s`, or all of `s` where it has no more.
pub open spec fn keep_last(s: Seq<LogEventView>, limit: int) -> Seq<LogEventView> {
    if s.len() > limit {
        s.skip(s.len() - limit)
    } else {
        s
    }
}

/// The text of a log line on the console: the source in square brackets, a
/// space, the message.
pub open spec fn console_line(source: Seq<char>, message: Seq<char>) -> Seq<char> {
    "["@ + source + "] "@ + message
}

impl LogLevel {
    /// The level's name in lower case.
    pub fn name(&self) -> (text: &'static str)
        ensures
            text@ == match *self {
                LogLevel::Debug => "debug"@,
                LogLevel::Info => "info"@,
                LogLevel::Warning => "warning"@,
                LogLevel::Error => "error"@,
            },
    {
        match self {
            LogLevel::Debug => "debug",
            LogLevel::Info => "info",
            LogLevel::Warning => "warning",
            LogLevel::Error => "error",
        }
    }

    /// Whether lines of this level go to the error stream: warnings and
    /// errors do, the others go to the output stream.
    pub fn to_error_stream(&self) -> (yes: bool)
        ensures
            yes == (*self == LogLevel::Warning || *self == LogLevel::Error),
    {
        match self {
            LogLevel::Warning | LogLevel::Error => true,
            _ => false,
        }
    }
}

impl LogEvent {
    /// The event as a console line.
    pub fn line(&self) -> (text: String)
        ensures
            text@ == console_line(self.source@, self.message@),
    {
        let mut text = "[".to_owned();
        text.append(self.source.as_str());
        text.append("] ");
        text.append(self.message.as_str());
        text
    }
}

/// The current time in UTC as an RFC 3339 string, from
/// `chrono::Utc::now().to_rfc3339()`. Nothing is claimed of the text: it
/// depends on the clock.
#[verifier::external_body]
fn utc_timestamp() -> String {
    chrono::Utc::now().to_rfc3339()
}

/// The most recent log events, oldest first, at most [`MAX_BUFFERED_LOGS`].
pub struct LogBuffer {
    events: VecDeque<LogEvent>,
}

impl LogBuffer {
    /// The recorded events, oldest first.
    pub closed spec fn events(&self) -> Seq<LogEventView> {
        event_views(self.events@)
    }

    /// The record never holds more than [`MAX_BUFFERED_LOGS`] events.
    pub open spec fn wf(&self) -> bool {
        self.events().len() <= MAX_BUFFERED_LOGS
    }

    pub fn new() -> (b: Self)
        ensures
            b.wf(),
            b.events() == Seq::<LogEventView>::empty(),
    {
        let b = LogBuffer { events: VecDeque::new() };
        assert(b.events() =~= Seq::<LogEventView>::empty());
        b
    }

    /// Adds `event` as the newest and drops the oldest events beyond the
    /// limit.
    pub fn record(&mut self, event: LogEvent)
        requires
            old(self).wf(),
        ensures
            final(self).wf(),
            final(self).events() == keep_last(
                old(self).events().push(event@),
                MAX_BUFFERED_LOGS as int,
            ),
    {
        proof {
            assert(event_views(self.events@.push(event)) =~= event_views(self.events@).push(
                event@,
            ));
        }
        self.events.push_back(event);
        let ghost all = self.events();
        if self.events.len() > MAX_BUFFERED_LOGS {
            let overflow = self.events.len() - MAX_BUFFERED_LOGS;
            let mut dropped: usize = 0;
            while dropped < overflow
                invariant
                    dropped <= overflow,
                    all.len() == overflow + MAX_BUFFERED_LOGS,
                    self.events() == all.skip(dropped as int),
                decreases overflow - dropped,
            {
                let ghost rest = self.events@;
                proof {
                    assert(event_views(rest).len() == rest.len());
                    assert(all.skip(dropped as int).len() == all.len() - dropped);
                }
                let _ = self.events.pop_front();
                proof {
                    assert(self.events@ =~= rest.drop_first());
                    assert(event_views(rest.drop_first()) =~= event_views(rest).drop_first());
                    assert(all.skip(dropped as int).drop_first() =~= all.skip(dropped + 1));
                }
                dropped = dropped + 1;
            }
        }
    }

    /// Stamps a new event with the current time, records it and hands it out
    /// for forwarding.
    pub fn emit(&mut self, level: LogLevel, source: &str, message: String) -> (event: LogEvent)
        requires
            old(self).wf(),
        ensures
            final(self).wf(),
            event.level == level,
            event.source@ == source@,
            event.message@ == message@,
            final(self).events() == keep_last(
                old(self).events().push(event@),
                MAX_BUFFERED_LOGS as int,
            ),
    {
        let event = LogEvent {
            timestamp: utc_timestamp(),
            level,
            source: source.to_owned(),
            message,
        };
        self.record(event.clone());
        event
    }

    /// Copies of the recorded events, oldest first.
    pub fn recent(&self) -> (out: Vec<LogEvent>)
        ensures
            event_views(out@) == self.events(),
    {
        let mut out: Vec<LogEvent> = Vec::new();
        let n = self.events.len();
        let mut i: usize = 0;
        while i < n
            invariant
                n == self.events@.len(),
                i <= n,
                event_views(out@) == self.events().take(i as int),
            decreases n - i,
        {
            let copy = self.events[i].clone();
            proof {
                assert(event_views(self.events@)[i as int] == self.events@[i as int]@);
                assert(event_views(out@.push(copy)) =~= event_views(out@).push(copy@));
                assert(event_views(out@.push(copy)) =~= self.events().take(i + 1));
            }
            out.push(copy);
            i = i + 1;
        }
        proof {
            assert(self.events().take(n as int) =~= self.events());
        }
        out
    }

    pub fn len(&self) -> (n: usize)
        ensures
            n == self.events().len(),
    {
        self.events.len()
    }
}

/// Records an event of level `Info`.
pub fn info(buffer: &mut LogBuffer, source: &str, message: String) -> (event: LogEvent)
    requires
        old(buffer).wf(),
    ensures
        final(buffer).wf(),
        event.level == LogLevel::Info,
        event.source@ == source@,
        event.message@ == message@,
        final(buffer).events() == keep_last(
            old(buffer).events().push(event@),
            MAX_BUFFERED_LOGS as int,
        ),
{
    buffer.emit(LogLevel::Info, source, message)
}

/// Records an event of level `Warning`.
pub fn warn(buffer: &mut LogBuffer, source: &str, message: String) -> (event: LogEvent)
    requires
        old(buffer).wf(),
    ensures
        final(buffer).wf(),
        event.level == LogLevel::Warning,
        event.source@ == source@,
        event.message@ == message@,
        final(buffer).events() == keep_last(
            old(buffer).events().push(event@),
            MAX_BUFFERED_LOGS as int,
        ),
{
    buffer.emit(LogLevel::Warning, source, message)
}

/// Records an event of level `Error`.
pub fn error(buffer: &mut LogBuffer, source: &str, message: String) -> (event: LogEvent)
    requires
        old(buffer).wf(),
    ensures
        final(buffer).wf(),
        event.level == LogLevel::Error,
        event.source@ == source@,
        event.message@ == message@,
        final(buffer).events() == keep_last(
            old(buffer).events().push(event@),
            MAX_BUFFERED_LOGS as int,
        ),
{
    buffer.emit(LogLevel::Error, source, message)
}

/// Records an event of level `Debug`.
pub fn debug(buffer: &mut LogBuffer, source: &str, message: String) -> (event: LogEvent)
    requires
        old(buffer).wf(),
    ensures
        final(buffer).wf(),
        event.level == LogLevel::Debug,
        event.source@ == source@,
        event.message@ == message@,
        final(buffer).events() == keep_last(
            old(buffer).events().push(event@),
            MAX_BUFFERED_LOGS as int,
        ),
{
    buffer.emit(LogLevel::Debug, source, message)
}

/// Copies of the recorded events, oldest first.
pub fn recent_logs(buffer: &LogBuffer) -> (out: Vec<LogEvent>)
    ensures
        event_views(out@) == buffer.events(),
{
    buffer.recent()
}

} // verus!
