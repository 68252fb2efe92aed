//! Relay logic for the server child process: each lifecycle event is
//! turned into at most one line for the host's logging sink.  Output
//! bytes are decoded as UTF-8; lines that fail to decode are dropped
//! rather than propagated, a deliberate best-effort logging policy.

use vstd::prelude::*;

verus! {

use vstd::string::*;
use vstd::utf8::{decode_utf8, valid_utf8};
use crate::text::{i32_dec_string, int_text};

/// Exit information of a terminated child process: the exit code, or
/// the signal that ended it, when the platform reports one.
#[derive(Clone, Copy, Debug)]
pub struct ExitStatus {
    pub code: Option<i32>,
    pub signal: Option<i32>,
}

/// One lifecycle event of the server child process, as the host's
/// process layer reports it.
#[derive(Debug)]
pub enum ProcessEvent {
    /// One line of the child's standard output, undecoded.
    StdoutLine(Vec<u8>),
    /// One line of the child's standard error, undecoded.
    StderrLine(Vec<u8>),
    /// The child could not be started or failed while running.
    LaunchError(String),
    /// The child terminated with the given status.
    Terminated(ExitStatus),
}

/// Which of the host's two log streams a line belongs to.
#[derive(Clone, Copy, PartialEq, Eq, Structural, Debug)]
pub enum LogStream {
    Info,
    Error,
}

/// One line for the host's logging sink.
#[derive(Debug)]
pub struct LogLine {
    pub stream: LogStream,
    pub text: String,
}

/// The text of an optional exit code or signal.
pub open spec fn opt_code_text(c: Option<i32>) -> Seq<char> {
    match c {
        Some(v) => "Some("@ + int_text(v as int) + ")"@,
        None => "None"@,
    }
}

/// The text describing a child's exit status.
pub open spec fn status_text(st: ExitStatus) -> Seq<char> {
    "code: "@ + opt_code_text(st.code) + ", signal: "@ + opt_code_text(st.signal)
}

/// The log line a process event yields, if any: output and error
/// lines are decoded as UTF-8 and prefixed with `[server] `; lines
/// whose bytes are not valid UTF-8 yield nothing; launch errors and
/// termination always yield a line.
pub open spec fn spec_relay(e: ProcessEvent) -> Option<(LogStream, Seq<char>)> {
    match e {
        ProcessEvent::StdoutLine(b) => if valid_utf8(b@) {
            Some((LogStream::Info, "[server] "@ + decode_utf8(b@)))
        } else {
            None
        },
        ProcessEvent::StderrLine(b) => if valid_utf8(b@) {
            Some((LogStream::Error, "[server] "@ + decode_utf8(b@)))
        } else {
            None
        },
        ProcessEvent::LaunchError(m) => Some((LogStream::Error, "[server error] "@ + m@)),
        ProcessEvent::Terminated(st) => Some(
            (LogStream::Info, "[server] terminated with status: "@ + status_text(st)),
        ),
    }
}

/// Relies on `String::from_utf8` from std: it returns the string
/// decoded from the bytes exactly when they are valid UTF-8, and an
/// error value otherwise.
#[verifier::external_body]
fn decode_utf8_line(bytes: Vec<u8>) -> (r: Option<String>)
    ensures
        r is Some <==> valid_utf8(bytes@),
        r is Some ==> r->0@ == decode_utf8(bytes@),
{
    match String::from_utf8(bytes) {
        Ok(s) => Some(s),
        Err(_) => None,
    }
}

fn opt_code_string(c: Option<i32>) -> (r: String)
    ensures
        r@ == opt_code_text(c),
{
    match c {
        Some(v) => {
            let r = String::from_str("Some(").concat(i32_dec_string(v).as_str()).concat(")");
            proof {
                assert(r@ =~= opt_code_text(c));
            }
            r
        },
        None => String::from_str("None"),
    }
}

/// Renders a child's exit status as text.
pub fn exit_status_string(st: &ExitStatus) -> (r: String)
    ensures
        r@ == status_text(*st),
{
    let r = String::from_str("code: ").concat(opt_code_string(st.code).as_str()).concat(
        ", signal: ",
    ).concat(opt_code_string(st.signal).as_str());
    proof {
        assert(r@ =~= status_text(*st));
    }
    r
}

/// Turns one child-process event into at most one log line, exactly
/// as `spec_relay` describes: output that fails UTF-8 decoding is
/// dropped, never propagated as an error.
pub fn handle_command_event(event: ProcessEvent) -> (r: Option<LogLine>)
    ensures
        r is Some <==> spec_relay(event) is Some,
        r is Some ==> (r->0).stream == (spec_relay(event)->0).0 && (r->0).text@ == (spec_relay(
            event,
        )->0).1,
{
    match event {
        ProcessEvent::StdoutLine(bytes) => match decode_utf8_line(bytes) {
            Some(s) => Some(
                LogLine {
                    stream: LogStream::Info,
                    text: String::from_str("[server] ").concat(s.as_str()),
                },
            ),
            None => None,
        },
        ProcessEvent::StderrLine(bytes) => match decode_utf8_line(bytes) {
            Some(s) => Some(
                LogLine {
                    stream: LogStream::Error,
                    text: String::from_str("[server] ").concat(s.as_str()),
                },
            ),
            None => None,
        },
        ProcessEvent::LaunchError(m) => Some(
            LogLine {
                stream: LogStream::Error,
                text: String::from_str("[server error] ").concat(m.as_str()),
            },
        ),
        ProcessEvent::Terminated(st) => Some(
            LogLine {
                stream: LogStream::Info,
                text: String::from_str("[server] terminated with status: ").concat(
                    exit_status_string(&st).as_str(),
                ),
            },
        ),
    }
}

/// An output or error line whose bytes are not valid UTF-8 yields no
/// log line at all: it is dropped, not propagated.
pub proof fn lemma_undecodable_line_dropped(e: ProcessEvent)
    requires
        (e is StdoutLine && !valid_utf8(e->StdoutLine_0@)) || (e is StderrLine && !valid_utf8(
            e->StderrLine_0@,
        )),
    ensures
        spec_relay(e) is None,
{
}

/// The log lines an event sequence yields, in order: each event's
/// line, with dropped events contributing nothing.
pub open spec fn spec_relay_all(events: Seq<ProcessEvent>) -> Seq<(LogStream, Seq<char>)>
    decreases events.len(),
{
    if events.len() == 0 {
        seq![]
    } else {
        let rest = spec_relay_all(events.drop_first());
        match spec_relay(events[0]) {
            Some(l) => seq![l] + rest,
            None => rest,
        }
    }
}

/// The stream-and-text views of a sequence of log lines.
pub open spec fn log_views(lines: Seq<LogLine>) -> Seq<(LogStream, Seq<char>)> {
    lines.map_values(|l: LogLine| (l.stream, l.text@))
}

proof fn lemma_spec_relay_all_push(events: Seq<ProcessEvent>, e: ProcessEvent)
    ensures
        spec_relay_all(events.push(e)) == spec_relay_all(events) + (match spec_relay(e) {
            Some(l) => seq![l],
            None => seq![],
        }),
    decreases events.len(),
{
    let tail: Seq<(LogStream, Seq<char>)> = (match spec_relay(e) {
        Some(l) => seq![l],
        None => seq![],
    });
    if events.len() == 0 {
        assert(events.push(e).drop_first() =~= events);
        assert(spec_relay_all(events.push(e)) =~= spec_relay_all(events) + tail);
    } else {
        assert(events.push(e)[0] == events[0]);
        assert(events.push(e).drop_first() =~= events.drop_first().push(e));
        lemma_spec_relay_all_push(events.drop_first(), e);
        match spec_relay(events[0]) {
            Some(l) => {
                assert(spec_relay_all(events.push(e)) =~= spec_relay_all(events) + tail);
            },
            None => {
            },
        }
    }
}

/// Relays a whole event sequence: the resulting log is exactly the
/// per-event relay of each event in order, undecodable lines dropped.
pub fn relay_events(events: Vec<ProcessEvent>) -> (log: Vec<LogLine>)
    ensures
        log_views(log@) == spec_relay_all(events@),
{
    let ghost all = events@;
    let mut pending = events;
    let mut log: Vec<LogLine> = Vec::new();
    let ghost mut done: int = 0;
    proof {
        assert(all.take(0) =~= Seq::<ProcessEvent>::empty());
        assert(log_views(log@) =~= spec_relay_all(all.take(0)));
    }
    while pending.len() > 0
        invariant
            0 <= done <= all.len(),
            pending@ == all.subrange(done, all.len() as int),
            log_views(log@) == spec_relay_all(all.take(done)),
        decreases pending.len(),
    {
        let ghost prev_log = log@;
        let e = pending.remove(0);
        proof {
            assert(e == all[done]);
            assert(pending@ =~= all.subrange(done + 1, all.len() as int));
        }
        let line = handle_command_event(e);
        match line {
            Some(l) => {
                log.push(l);
                proof {
                    assert(log_views(log@) =~= log_views(prev_log) + seq![(l.stream, l.text@)]);
                }
            },
            None => {
            },
        }
        proof {
            lemma_spec_relay_all_push(all.take(done), all[done]);
            assert(all.take(done + 1) =~= all.take(done).push(all[done]));
            done = done + 1;
            assert(log_views(log@) =~= spec_relay_all(all.take(done)));
        }
    }
    proof {
        assert(all.take(all.len() as int) =~= all);
    }
    log
}

} // verus!
