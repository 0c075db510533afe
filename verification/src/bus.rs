//! Reading the pipeline's bus: what each message does to the capture and
//! what it leaves in the log.

use vstd::prelude::*;
use vstd::string::StringExecFns;
use crate::gst_capture::{step, CaptureEvent, CaptureEventView, CaptureLifecycle};
use crate::logger::{
    event_views, keep_last, LogBuffer, LogEvent, LogEventView, LogLevel, MAX_BUFFERED_LOGS,
};

verus! {

/// A message read from the pipeline's bus.
#[derive(Debug)]
pub enum BusMessage {
    /// An element failed. `source` is the path of the element.
    Error { source: Option<String>, error: String, debug: Option<String> },
    /// An element warns.
    Warning { source: Option<String>, error: String, debug: Option<String> },
    /// An element changed state; `from_pipeline` where it is the pipeline
    /// itself.
    StateChanged { from_pipeline: bool, old: String, current: String },
    /// The stream ended.
    Eos,
    /// Any other message.
    Other,
}

/// The event that a bus message stands for, if any.
pub open spec fn event_of(message: BusMessage) -> Option<CaptureEventView> {
    match message {
        BusMessage::Error { error, .. } => Some(CaptureEventView::BusError(error@)),
        BusMessage::Warning { error, .. } => Some(CaptureEventView::BusWarning(error@)),
        BusMessage::Eos => Some(CaptureEventView::BusEos),
        _ => None,
    }
}

/// The bus loop ends after this message: an error or the end of the stream.
pub open spec fn ends_bus_loop(message: BusMessage) -> bool {
    message is Error || message is Eos
}

/// The name that a log line gives the element a message came from.
pub open spec fn origin(source: Option<String>) -> Seq<char> {
    match source {
        Some(path) => path@,
        None => "unknown"@,
    }
}

/// A log line of `level` with the text `message`, before it is stamped.
pub open spec fn line_of(level: LogLevel, message: Seq<char>) -> (LogLevel, Seq<char>) {
    (level, message)
}

/// The debug line for a message's details, if it has any.
pub open spec fn debug_lines(debug: Option<String>) -> Seq<(LogLevel, Seq<char>)> {
    match debug {
        Some(text) => seq![line_of(LogLevel::Debug, "debug: "@ + text@)],
        None => Seq::<(LogLevel, Seq<char>)>::empty(),
    }
}

/// The log lines that a bus message leaves, in order, each with its level.
pub open spec fn bus_lines(message: BusMessage) -> Seq<(LogLevel, Seq<char>)> {
    match message {
        BusMessage::Error { source, error, debug } => seq![
            line_of(LogLevel::Error, "error from "@ + origin(source) + ": "@ + error@),
        ] + debug_lines(debug),
        BusMessage::Warning { source, error, debug } => seq![
            line_of(LogLevel::Warning, "warning from "@ + origin(source) + ": "@ + error@),
        ] + debug_lines(debug),
        BusMessage::StateChanged { from_pipeline, old, current } => if from_pipeline {
            seq![line_of(LogLevel::Info, "pipeline state: "@ + old@ + " -> "@ + current@)]
        } else {
            Seq::<(LogLevel, Seq<char>)>::empty()
        },
        BusMessage::Eos => seq![line_of(LogLevel::Error, "eos"@)],
        BusMessage::Other => Seq::<(LogLevel, Seq<char>)>::empty(),
    }
}

/// The record after each of `events` is added to it in turn.
pub open spec fn recorded(start: Seq<LogEventView>, events: Seq<LogEventView>) -> Seq<
    LogEventView,
>
    decreases events.len(),
{
    if events.len() == 0 {
        start
    } else {
        keep_last(recorded(start, events.drop_last()).push(events.last()), MAX_BUFFERED_LOGS as int)
    }
}

/// The events are the lines, in order, each from the source `gst`.
pub open spec fn events_match(events: Seq<LogEvent>, lines: Seq<(LogLevel, Seq<char>)>) -> bool {
    &&& events.len() == lines.len()
    &&& forall|i: int|
        0 <= i < events.len() ==> {
            &&& (#[trigger] events[i]).level == lines[i].0
            &&& events[i].message@ == lines[i].1
            &&& events[i].source@ == "gst"@
        }
}

/// What the bus loop does after a message.
#[derive(Debug)]
pub struct BusOutcome {
    /// The loop ends.
    pub leave_loop: bool,
    /// The lines that were logged, for forwarding.
    pub logged: Vec<LogEvent>,
}

fn origin_text(source: &Option<String>) -> (text: String)
    ensures
        text@ == origin(*source),
{
    match source {
        Some(path) => path.clone(),
        None => "unknown".to_owned(),
    }
}

fn log_line(
    log: &mut LogBuffer,
    logged: &mut Vec<LogEvent>,
    level: LogLevel,
    message: String,
    Ghost(lines): Ghost<Seq<(LogLevel, Seq<char>)>>,
    Ghost(start): Ghost<Seq<LogEventView>>,
)
    requires
        old(log).wf(),
        events_match(old(logged)@, lines),
        old(log).events() == recorded(start, event_views(old(logged)@)),
    ensures
        final(log).wf(),
        events_match(final(logged)@, lines.push(line_of(level, message@))),
        final(log).events() == recorded(start, event_views(final(logged)@)),
{
    let event = log.emit(level, "gst", message);
    proof {
        let before = event_views(logged@);
        let after = event_views(logged@.push(event));
        assert(after =~= before.push(event@));
        assert(after.drop_last() =~= before);
    }
    logged.push(event);
}

fn log_debug(
    log: &mut LogBuffer,
    logged: &mut Vec<LogEvent>,
    debug: &Option<String>,
    Ghost(lines): Ghost<Seq<(LogLevel, Seq<char>)>>,
    Ghost(start): Ghost<Seq<LogEventView>>,
)
    requires
        old(log).wf(),
        events_match(old(logged)@, lines),
        old(log).events() == recorded(start, event_views(old(logged)@)),
    ensures
        final(log).wf(),
        events_match(final(logged)@, lines + debug_lines(*debug)),
        final(log).events() == recorded(start, event_views(final(logged)@)),
{
    match debug {
        Some(text) => {
            let mut message = "debug: ".to_owned();
            message.append(text.as_str());
            log_line(log, logged, LogLevel::Debug, message, Ghost(lines), Ghost(start));
            proof {
                assert(lines + debug_lines(*debug) =~= lines.push(
                    line_of(LogLevel::Debug, "debug: "@ + text@),
                ));
            }
        },
        None => {
            proof {
                assert(lines + debug_lines(*debug) =~= lines);
            }
        },
    }
}

/// Handles one bus message: moves the lifecycle on, logs what the message
/// says and tells whether the bus loop ends. A warning or a change of state
/// is logged and changes nothing.
pub fn bus_step(lifecycle: &mut CaptureLifecycle, log: &mut LogBuffer, message: BusMessage) -> (out:
    BusOutcome)
    requires
        old(log).wf(),
    ensures
        final(log).wf(),
        final(lifecycle)@ == match event_of(message) {
            Some(e) => step(old(lifecycle)@, e),
            None => old(lifecycle)@,
        },
        out.leave_loop == ends_bus_loop(message),
        events_match(out.logged@, bus_lines(message)),
        final(log).events() == recorded(
            old(log).events(),
            event_views(out.logged@),
        ),
{
    let ghost start = log.events();
    let ghost none = Seq::<(LogLevel, Seq<char>)>::empty();
    let mut logged: Vec<LogEvent> = Vec::new();
    proof {
        assert(event_views(logged@) =~= Seq::<LogEventView>::empty());
    }
    match message {
        BusMessage::Error { source, error, debug } => {
            let mut text = "error from ".to_owned();
            let from = origin_text(&source);
            text.append(from.as_str());
            text.append(": ");
            text.append(error.as_str());
            log_line(log, &mut logged, LogLevel::Error, text, Ghost(none), Ghost(start));
            log_debug(
                log,
                &mut logged,
                &debug,
                Ghost(none.push(line_of(LogLevel::Error, text@))),
                Ghost(start),
            );
            proof {
                assert(none.push(line_of(LogLevel::Error, text@)) =~= seq![
                    line_of(LogLevel::Error, text@),
                ]);
            }
            lifecycle.apply(CaptureEvent::BusError(error));
            BusOutcome { leave_loop: true, logged }
        },
        BusMessage::Warning { source, error, debug } => {
            let mut text = "warning from ".to_owned();
            let from = origin_text(&source);
            text.append(from.as_str());
            text.append(": ");
            text.append(error.as_str());
            log_line(log, &mut logged, LogLevel::Warning, text, Ghost(none), Ghost(start));
            log_debug(
                log,
                &mut logged,
                &debug,
                Ghost(none.push(line_of(LogLevel::Warning, text@))),
                Ghost(start),
            );
            proof {
                assert(none.push(line_of(LogLevel::Warning, text@)) =~= seq![
                    line_of(LogLevel::Warning, text@),
                ]);
            }
            lifecycle.apply(CaptureEvent::BusWarning(error));
            BusOutcome { leave_loop: false, logged }
        },
        BusMessage::StateChanged { from_pipeline, old, current } => {
            if from_pipeline {
                let mut text = "pipeline state: ".to_owned();
                text.append(old.as_str());
                text.append(" -> ");
                text.append(current.as_str());
                log_line(log, &mut logged, LogLevel::Info, text, Ghost(none), Ghost(start));
                proof {
                    assert(none.push(line_of(LogLevel::Info, text@)) =~= seq![
                        line_of(LogLevel::Info, text@),
                    ]);
                }
            }
            BusOutcome { leave_loop: false, logged }
        },
        BusMessage::Eos => {
            log_line(
                log,
                &mut logged,
                LogLevel::Error,
                "eos".to_owned(),
                Ghost(none),
                Ghost(start),
            );
            proof {
                assert(none.push(line_of(LogLevel::Error, "eos"@)) =~= seq![
                    line_of(LogLevel::Error, "eos"@),
                ]);
            }
            lifecycle.apply(CaptureEvent::BusEos);
            BusOutcome { leave_loop: true, logged }
        },
        BusMessage::Other => BusOutcome { leave_loop: false, logged },
    }
}

} // verus!
