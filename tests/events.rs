use peoplebot::event::{parse_event, status_line, YtDlpEvent};
use peoplebot::runner::{Runner, RunnerAction, StreamEvent};

#[test]
fn parses_download_started() {
    match parse_event(r#"{"event":"dl_started","id":"abc"}"#) {
        Some(YtDlpEvent::DLStarted { id }) => assert_eq!(id, "abc"),
        other => panic!("unexpected {:?}", other),
    }
}

#[test]
fn parses_progress_with_all_fields() {
    let line = r#"{"event":"dl_progress","id":"v1","percent":" 42.0%","eta":"00:03"}"#;
    match parse_event(line) {
        Some(YtDlpEvent::DLProgress { id, percent, eta }) => {
            assert_eq!(id, "v1");
            assert_eq!(percent, " 42.0%");
            assert_eq!(eta, "00:03");
        }
        other => panic!("unexpected {:?}", other),
    }
}

#[test]
fn parses_post_process_events() {
    assert!(matches!(
        parse_event(r#"{"event":"pp_started","id":"v"}"#),
        Some(YtDlpEvent::PPStarted { .. })
    ));
    assert!(matches!(
        parse_event(r#"{"event":"pp_progress","id":"v","percent":"1%","eta":"NA"}"#),
        Some(YtDlpEvent::PPProgress { .. })
    ));
}

#[test]
fn parses_finished_from_moved_record() {
    match parse_event(r#"{"event":"moved","id":"x","path":"/tmp/out/x.mp4"}"#) {
        Some(YtDlpEvent::Finished { id, path }) => {
            assert_eq!(id, "x");
            assert_eq!(path, "/tmp/out/x.mp4");
        }
        other => panic!("unexpected {:?}", other),
    }
    assert!(matches!(
        parse_event(r#"{"event":"Finished","id":"x","path":"p"}"#),
        Some(YtDlpEvent::Finished { .. })
    ));
}

#[test]
fn unknown_tag_is_unknown() {
    assert!(matches!(
        parse_event(r#"{"event":"something_new","id":"x"}"#),
        Some(YtDlpEvent::Unknown)
    ));
}

#[test]
fn free_text_and_incomplete_records_are_dropped() {
    assert!(parse_event("[download] Destination: video.mp4").is_none());
    assert!(parse_event("").is_none());
    assert!(parse_event(r#"{"id":"x"}"#).is_none());
    assert!(parse_event(r#"{"event":"dl_progress","id":"x"}"#).is_none());
    assert!(parse_event(r#"{"event":7}"#).is_none());
    assert!(parse_event(r#"["event","moved"]"#).is_none());
}

#[test]
fn finished_is_terminal() {
    let e = parse_event(r#"{"event":"moved","id":"x","path":"p"}"#).unwrap();
    assert!(e.is_terminal());
    assert!(!YtDlpEvent::Unknown.is_terminal());
}

#[test]
fn unparseable_output_closes_without_finished() {
    let mut r = Runner::new();
    let mut sent = 0;
    for line in ["WARNING: nothing", "garbage {", "[info] 1 of 1"] {
        match r.step(StreamEvent::StdoutLine(line.to_string())) {
            RunnerAction::Forward(_) | RunnerAction::Finish(_) => sent += 1,
            RunnerAction::Stop => panic!("stopped early"),
            RunnerAction::Idle => {}
        }
    }
    assert!(matches!(r.step(StreamEvent::StdoutClosed), RunnerAction::Stop));
    assert_eq!(sent, 0);
    assert!(r.stopped);
}

#[test]
fn runner_forwards_and_stops_after_finished() {
    let mut r = Runner::new();
    let a = r.step(StreamEvent::StdoutLine(r#"{"event":"dl_started","id":"x"}"#.to_string()));
    assert!(matches!(a, RunnerAction::Forward(YtDlpEvent::DLStarted { .. })));
    let b = r.step(StreamEvent::StdoutLine(r#"{"event":"moved","id":"x","path":"p"}"#.to_string()));
    assert!(matches!(b, RunnerAction::Finish(YtDlpEvent::Finished { .. })));
    assert!(r.stopped);
    let c = r.step(StreamEvent::StdoutLine(r#"{"event":"dl_started","id":"y"}"#.to_string()));
    assert!(matches!(c, RunnerAction::Stop));
}

#[test]
fn stderr_end_does_not_stop_stdout() {
    let mut r = Runner::new();
    assert!(r.reads_stderr());
    assert!(matches!(r.step(StreamEvent::StderrLine("oops".to_string())), RunnerAction::Idle));
    assert!(matches!(r.step(StreamEvent::StderrFailed), RunnerAction::Idle));
    assert!(!r.reads_stderr());
    assert!(!r.stopped);
    let a = r.step(StreamEvent::StdoutLine(r#"{"event":"pp_started","id":"x"}"#.to_string()));
    assert!(matches!(a, RunnerAction::Forward(YtDlpEvent::PPStarted { .. })));
    assert!(matches!(r.step(StreamEvent::StdoutFailed), RunnerAction::Stop));
}

#[test]
fn status_lines() {
    let p = parse_event(r#"{"event":"dl_progress","id":"v","percent":"42%","eta":"1"}"#).unwrap();
    assert_eq!(status_line(&p), Some("Downloading... 42%".to_string()));
    let q = parse_event(r#"{"event":"pp_progress","id":"v","percent":"7%","eta":"1"}"#).unwrap();
    assert_eq!(status_line(&q), Some("Processing... 7%".to_string()));
    assert_eq!(status_line(&YtDlpEvent::DLStarted { id: "v".to_string() }), Some("Downloading...".to_string()));
    assert_eq!(status_line(&YtDlpEvent::PPStarted { id: "v".to_string() }), Some("Processing...".to_string()));
    assert_eq!(status_line(&YtDlpEvent::Unknown), None);
}
