use skima_sidecar::log::{LogLine, Sink};
use skima_sidecar::relay::{classify, relay, relay_event, render, ChildEvent, OutputEvent};

fn line(sink: Sink, text: &str) -> LogLine {
    LogLine::new(sink, text.to_string())
}

#[test]
fn relay_emits_three_lines_in_order() {
    let events = vec![
        ChildEvent::Stdout(b"a".to_vec()),
        ChildEvent::Stderr(b"b".to_vec()),
        ChildEvent::Terminated { code: Some(0), signal: None },
    ];
    let lines = relay(&events);
    assert_eq!(
        lines,
        vec![
            line(Sink::Stdout, "[Sidecar] a"),
            line(Sink::Stderr, "[Sidecar ERR] b"),
            line(Sink::Stdout, "[Sidecar] Process terminated with code: Some(0), signal: None"),
        ]
    );
}

#[test]
fn relay_of_empty_stream_is_silent() {
    assert_eq!(relay(&Vec::new()), Vec::<LogLine>::new());
}

#[test]
fn relay_skips_other_events() {
    let events = vec![
        ChildEvent::Other,
        ChildEvent::Stdout(b"up".to_vec()),
        ChildEvent::Other,
        ChildEvent::Stderr(b"down".to_vec()),
    ];
    assert_eq!(
        relay(&events),
        vec![line(Sink::Stdout, "[Sidecar] up"), line(Sink::Stderr, "[Sidecar ERR] down")]
    );
    assert_eq!(relay_event(&ChildEvent::Other), None);
}

#[test]
fn relay_replaces_invalid_encoding_and_goes_on() {
    let events = vec![
        ChildEvent::Stdout(vec![0x68, 0x69, 0xff, 0x21]),
        ChildEvent::Stderr(vec![0xc3]),
        ChildEvent::Stdout(b"after".to_vec()),
    ];
    assert_eq!(
        relay(&events),
        vec![
            line(Sink::Stdout, "[Sidecar] hi\u{fffd}!"),
            line(Sink::Stderr, "[Sidecar ERR] \u{fffd}"),
            line(Sink::Stdout, "[Sidecar] after"),
        ]
    );
}

#[test]
fn relay_decodes_multibyte_text() {
    let bytes = "grüße ✓".as_bytes().to_vec();
    assert_eq!(
        relay_event(&ChildEvent::Stdout(bytes)),
        Some(line(Sink::Stdout, "[Sidecar] grüße ✓"))
    );
}

#[test]
fn relay_in_two_parts_equals_relay_of_whole() {
    let first = vec![ChildEvent::Stdout(b"one".to_vec()), ChildEvent::Other];
    let second = vec![
        ChildEvent::Stderr(vec![0x80]),
        ChildEvent::Terminated { code: None, signal: Some(9) },
    ];
    let mut whole = first.clone();
    whole.extend(second.clone());
    let mut parts = relay(&first);
    parts.extend(relay(&second));
    assert_eq!(relay(&whole), parts);
    assert!(relay(&whole).len() <= whole.len());
}

#[test]
fn classify_keeps_exit_code_and_signal() {
    assert_eq!(
        classify(&ChildEvent::Terminated { code: Some(-1), signal: Some(15) }),
        OutputEvent::Terminated(Some(-1), Some(15))
    );
    assert_eq!(classify(&ChildEvent::Other), OutputEvent::Other);
    assert_eq!(
        classify(&ChildEvent::Stdout(b"x".to_vec())),
        OutputEvent::StandardOutputLine("x".to_string())
    );
    assert_eq!(
        classify(&ChildEvent::Stderr(b"y".to_vec())),
        OutputEvent::ErrorOutputLine("y".to_string())
    );
}

#[test]
fn render_termination_carries_code_and_signal() {
    assert_eq!(
        render(&OutputEvent::Terminated(Some(-1), Some(15))),
        Some(line(
            Sink::Stdout,
            "[Sidecar] Process terminated with code: Some(-1), signal: Some(15)"
        ))
    );
    assert_eq!(
        render(&OutputEvent::Terminated(None, None)),
        Some(line(Sink::Stdout, "[Sidecar] Process terminated with code: None, signal: None"))
    );
    assert_eq!(
        render(&OutputEvent::Terminated(Some(i32::MIN), Some(i32::MAX))),
        Some(line(
            Sink::Stdout,
            "[Sidecar] Process terminated with code: Some(-2147483648), signal: Some(2147483647)"
        ))
    );
    assert_eq!(render(&OutputEvent::Other), None);
}

#[test]
fn render_empty_output_keeps_prefix() {
    assert_eq!(
        render(&OutputEvent::StandardOutputLine(String::new())),
        Some(line(Sink::Stdout, "[Sidecar] "))
    );
    assert_eq!(
        render(&OutputEvent::ErrorOutputLine(String::new())),
        Some(line(Sink::Stderr, "[Sidecar ERR] "))
    );
}
