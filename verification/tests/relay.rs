use app_shell::relay::{
    exit_status_string, handle_command_event, relay_events, ExitStatus, LogStream, ProcessEvent,
};

#[test]
fn stdout_line_goes_to_info_log() {
    let line = handle_command_event(ProcessEvent::StdoutLine(b"listening on 3333".to_vec()))
        .expect("a decodable stdout line must be relayed");
    assert!(matches!(line.stream, LogStream::Info));
    assert_eq!(line.text, "[server] listening on 3333");
}

#[test]
fn stderr_line_goes_to_error_log() {
    let line = handle_command_event(ProcessEvent::StderrLine(b"warning: low disk".to_vec()))
        .expect("a decodable stderr line must be relayed");
    assert!(matches!(line.stream, LogStream::Error));
    assert_eq!(line.text, "[server] warning: low disk");
}

#[test]
fn launch_error_goes_to_error_log() {
    let line = handle_command_event(ProcessEvent::LaunchError(String::from("spawn failed")))
        .expect("a launch error must be relayed");
    assert!(matches!(line.stream, LogStream::Error));
    assert_eq!(line.text, "[server error] spawn failed");
}

#[test]
fn termination_mentions_the_status() {
    let line = handle_command_event(ProcessEvent::Terminated(ExitStatus {
        code: Some(0),
        signal: None,
    }))
    .expect("termination must be relayed");
    assert!(matches!(line.stream, LogStream::Info));
    assert_eq!(
        line.text,
        "[server] terminated with status: code: Some(0), signal: None"
    );
}

#[test]
fn termination_by_signal_mentions_the_signal() {
    let st = ExitStatus {
        code: None,
        signal: Some(9),
    };
    assert_eq!(exit_status_string(&st), "code: None, signal: Some(9)");
}

#[test]
fn negative_exit_code_is_rendered() {
    let st = ExitStatus {
        code: Some(-1),
        signal: None,
    };
    assert_eq!(exit_status_string(&st), "code: Some(-1), signal: None");
}

#[test]
fn undecodable_bytes_are_dropped() {
    assert!(handle_command_event(ProcessEvent::StdoutLine(vec![0xff, 0xfe, 0xfd])).is_none());
    assert!(handle_command_event(ProcessEvent::StderrLine(vec![0x80, 0x80])).is_none());
}

#[test]
fn one_session_yields_one_line_per_event() {
    let events = vec![
        ProcessEvent::StdoutLine(b"hello".to_vec()),
        ProcessEvent::StderrLine(b"oops".to_vec()),
        ProcessEvent::Terminated(ExitStatus {
            code: Some(0),
            signal: None,
        }),
    ];
    let log = relay_events(events);
    assert_eq!(log.len(), 3);
    assert!(matches!(log[0].stream, LogStream::Info));
    assert_eq!(log[0].text, "[server] hello");
    assert!(matches!(log[1].stream, LogStream::Error));
    assert_eq!(log[1].text, "[server] oops");
    assert!(matches!(log[2].stream, LogStream::Info));
    assert_eq!(
        log[2].text,
        "[server] terminated with status: code: Some(0), signal: None"
    );
}

#[test]
fn undecodable_lines_vanish_from_the_session_log() {
    let events = vec![
        ProcessEvent::StdoutLine(b"ok".to_vec()),
        ProcessEvent::StdoutLine(vec![0xc3, 0x28]),
        ProcessEvent::StderrLine(vec![0xff]),
        ProcessEvent::StdoutLine(b"done".to_vec()),
    ];
    let log = relay_events(events);
    assert_eq!(log.len(), 2);
    assert_eq!(log[0].text, "[server] ok");
    assert_eq!(log[1].text, "[server] done");
}

#[test]
fn multibyte_output_is_decoded_not_mangled() {
    let line = handle_command_event(ProcessEvent::StdoutLine("héllo ✓".as_bytes().to_vec()))
        .expect("valid multibyte output must be relayed");
    assert_eq!(line.text, "[server] héllo ✓");
}
