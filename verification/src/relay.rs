//! One-way relay of the child's output events to the logging sink.
//!
//! The host reads the child's event stream; for each event it asks
//! [`relay_event`] which line, if any, to write. Nothing flows back to the
//! supervisor, and the relay ends when the stream does.

use crate::log::{line_views, sidecar_error_prefix, sidecar_prefix, LogLine, LogLineView, Sink};
use crate::text::{optional_number, optional_number_string};
use vstd::prelude::*;
use vstd::utf8::*;

verus! {

/// An event as the child's event channel delivers it: raw bytes on one of
/// the two output streams, the terminal event, or anything else.
#[derive(Clone, Debug, PartialEq, Eq)]
pub enum ChildEvent {
    Stdout(Vec<u8>),
    Stderr(Vec<u8>),
    Terminated { code: Option<i32>, signal: Option<i32> },
    Other,
}

/// A classified event, its output decoded to text.
#[derive(Clone, Debug, PartialEq, Eq)]
pub enum OutputEvent {
    StandardOutputLine(String),
    ErrorOutputLine(String),
    Terminated(Option<i32>, Option<i32>),
    Other,
}

/// The text that lossy UTF-8 decoding gives for a byte sequence: the decoded
/// text where the bytes are valid, and otherwise the text with each invalid
/// sequence replaced by U+FFFD.
pub uninterp spec fn lossy_text(bytes: Seq<u8>) -> Seq<char>;

/// Calls `String::from_utf8_lossy` and takes ownership of what it returns.
/// Trusted: the result is the lossy decoding of the bytes, and for valid
/// UTF-8 that is the ordinary decoding. The call never fails.
#[verifier::external_body]
fn decode_lossy(bytes: &Vec<u8>) -> (text: String)
    ensures
        text@ == lossy_text(bytes@),
        valid_utf8(bytes@) ==> text@ == decode_utf8(bytes@),
{
    String::from_utf8_lossy(bytes).into_owned()
}

/// The mathematical content of an [`OutputEvent`].
pub enum OutputEventView {
    StandardOutputLine(Seq<char>),
    ErrorOutputLine(Seq<char>),
    Terminated(Option<i32>, Option<i32>),
    Other,
}

impl View for OutputEvent {
    type V = OutputEventView;

    open spec fn view(&self) -> OutputEventView {
        match *self {
            OutputEvent::StandardOutputLine(text) => OutputEventView::StandardOutputLine(text@),
            OutputEvent::ErrorOutputLine(text) => OutputEventView::ErrorOutputLine(text@),
            OutputEvent::Terminated(code, signal) => OutputEventView::Terminated(code, signal),
            OutputEvent::Other => OutputEventView::Other,
        }
    }
}

/// The classification of a raw event: output bytes are decoded lossily, the
/// terminal event keeps its exit code and signal.
pub open spec fn classified(event: ChildEvent) -> OutputEventView {
    match event {
        ChildEvent::Stdout(bytes) => OutputEventView::StandardOutputLine(lossy_text(bytes@)),
        ChildEvent::Stderr(bytes) => OutputEventView::ErrorOutputLine(lossy_text(bytes@)),
        ChildEvent::Terminated { code, signal } => OutputEventView::Terminated(code, signal),
        ChildEvent::Other => OutputEventView::Other,
    }
}

/// Lossy decoding leaves valid text alone: where an event's output is valid
/// UTF-8, its lossy text is the text that the bytes encode.
pub open spec fn keeps_valid_text(event: ChildEvent) -> bool {
    match event {
        ChildEvent::Stdout(bytes) | ChildEvent::Stderr(bytes) => valid_utf8(bytes@) ==> lossy_text(
            bytes@,
        ) == decode_utf8(bytes@),
        _ => true,
    }
}

/// The text of the line that reports the child's termination.
pub open spec fn termination_notice(code: Option<i32>, signal: Option<i32>) -> Seq<char> {
    sidecar_prefix() + "Process terminated with code: "@ + optional_number(code) + ", signal: "@
        + optional_number(signal)
}

/// The line that a classified event is logged as; `Other` events are not
/// logged.
pub open spec fn rendered(event: OutputEventView) -> Option<LogLineView> {
    match event {
        OutputEventView::StandardOutputLine(text) => Some(
            LogLineView { sink: Sink::Stdout, text: sidecar_prefix() + text },
        ),
        OutputEventView::ErrorOutputLine(text) => Some(
            LogLineView { sink: Sink::Stderr, text: sidecar_error_prefix() + text },
        ),
        OutputEventView::Terminated(code, signal) => Some(
            LogLineView { sink: Sink::Stdout, text: termination_notice(code, signal) },
        ),
        OutputEventView::Other => None,
    }
}

/// The lines that relaying a whole stream of raw events writes, in order.
pub open spec fn relayed(events: Seq<ChildEvent>) -> Seq<LogLineView>
    decreases events.len(),
{
    if events.len() == 0 {
        Seq::empty()
    } else {
        let earlier = relayed(events.drop_last());
        match rendered(classified(events.last())) {
            Some(line) => earlier.push(line),
            None => earlier,
        }
    }
}

/// Classifies a raw event, decoding output bytes to text. Invalid encoding
/// is replaced, never reported.
pub fn classify(event: &ChildEvent) -> (out: OutputEvent)
    ensures
        out@ == classified(*event),
        keeps_valid_text(*event),
{
    match event {
        ChildEvent::Stdout(bytes) => OutputEvent::StandardOutputLine(decode_lossy(bytes)),
        ChildEvent::Stderr(bytes) => OutputEvent::ErrorOutputLine(decode_lossy(bytes)),
        ChildEvent::Terminated { code, signal } => OutputEvent::Terminated(*code, *signal),
        ChildEvent::Other => OutputEvent::Other,
    }
}

/// The log line for a classified event, if it is one that is logged.
pub fn render(event: &OutputEvent) -> (line: Option<LogLine>)
    ensures
        match line {
            Some(l) => rendered(event@) == Some(l@),
            None => rendered(event@) is None,
        },
{
    match event {
        OutputEvent::StandardOutputLine(text) => {
            let full = String::from_str("[Sidecar] ").concat(text.as_str());
            Some(LogLine::new(Sink::Stdout, full))
        },
        OutputEvent::ErrorOutputLine(text) => {
            let full = String::from_str("[Sidecar ERR] ").concat(text.as_str());
            Some(LogLine::new(Sink::Stderr, full))
        },
        OutputEvent::Terminated(code, signal) => {
            let code_text = optional_number_string(*code);
            let signal_text = optional_number_string(*signal);
            let full = String::from_str("[Sidecar] ").concat(
                "Process terminated with code: ",
            ).concat(code_text.as_str()).concat(", signal: ").concat(signal_text.as_str());
            Some(LogLine::new(Sink::Stdout, full))
        },
        OutputEvent::Other => None,
    }
}

/// Relays one raw event: the line to write for it, if any.
pub fn relay_event(event: &ChildEvent) -> (line: Option<LogLine>)
    ensures
        match line {
            Some(l) => rendered(classified(*event)) == Some(l@),
            None => rendered(classified(*event)) is None,
        },
        keeps_valid_text(*event),
{
    let classified = classify(event);
    render(&classified)
}

/// Relays a finished stream of raw events: the lines to write, in the order
/// of the events that gave rise to them.
pub fn relay(events: &Vec<ChildEvent>) -> (lines: Vec<LogLine>)
    ensures
        line_views(lines@) == relayed(events@),
        forall|i: int| 0 <= i < events.len() ==> keeps_valid_text(#[trigger] events[i]),
{
    let mut lines: Vec<LogLine> = Vec::new();
    let mut i: usize = 0;
    assert(events@.take(0) =~= Seq::<ChildEvent>::empty());
    while i < events.len()
        invariant
            i <= events.len(),
            line_views(lines@) == relayed(events@.take(i as int)),
            forall|j: int| 0 <= j < i ==> keeps_valid_text(#[trigger] events[j]),
        decreases events.len() - i,
    {
        let ghost before = lines@;
        let line = relay_event(&events[i]);
        proof {
            let prefix = events@.take(i as int + 1);
            assert(prefix.drop_last() =~= events@.take(i as int));
            assert(prefix.last() == events@[i as int]);
        }
        match line {
            Some(l) => {
                lines.push(l);
                assert(line_views(lines@) =~= line_views(before).push(l@));
            },
            None => {},
        }
        i = i + 1;
    }
    assert(events@.take(events.len() as int) =~= events@);
    lines
}

/// Relaying a stream in two parts writes the lines of the first part
/// followed by the lines of the second: no event changes what a later event
/// is logged as.
pub proof fn lemma_relay_is_sequential(first: Seq<ChildEvent>, second: Seq<ChildEvent>)
    ensures
        relayed(first + second) == relayed(first) + relayed(second),
    decreases second.len(),
{
    if second.len() == 0 {
        assert(first + second =~= first);
        assert(relayed(first) + relayed(second) =~= relayed(first));
    } else {
        let whole = first + second;
        assert(whole.drop_last() =~= first + second.drop_last());
        assert(whole.last() == second.last());
        lemma_relay_is_sequential(first, second.drop_last());
        match rendered(classified(second.last())) {
            Some(line) => {
                assert(relayed(whole) =~= relayed(first) + relayed(second));
            },
            None => {},
        }
    }
}

/// Output on either stream is always logged, whatever its bytes: an output
/// event placed anywhere in a stream adds exactly one line, on the stream's
/// own sink and with its own prefix, between the lines of the events before
/// it and those of the events after it.
pub proof fn lemma_output_is_always_logged(
    before: Seq<ChildEvent>,
    event: ChildEvent,
    after: Seq<ChildEvent>,
)
    requires
        event is Stdout || event is Stderr,
    ensures
        rendered(classified(event)) matches Some(line) && relayed(before + seq![event] + after)
            == relayed(before).push(line) + relayed(after) && match event {
            ChildEvent::Stdout(bytes) => line.sink == Sink::Stdout && line.text == sidecar_prefix()
                + lossy_text(bytes@),
            ChildEvent::Stderr(bytes) => line.sink == Sink::Stderr && line.text
                == sidecar_error_prefix() + lossy_text(bytes@),
            _ => false,
        },
{
    let single = seq![event];
    assert(single.drop_last() =~= Seq::<ChildEvent>::empty());
    assert(single.last() == event);
    assert(relayed(single.drop_last()) =~= Seq::<LogLineView>::empty());
    let line = rendered(classified(event))->Some_0;
    assert(relayed(single) =~= seq![line]);
    lemma_relay_is_sequential(before, single);
    lemma_relay_is_sequential(before + single, after);
    assert(relayed(before) + seq![line] =~= relayed(before).push(line));
}

/// A stream never yields more lines than it has events.
pub proof fn lemma_relay_emits_at_most_one_line_per_event(events: Seq<ChildEvent>)
    ensures
        relayed(events).len() <= events.len(),
    decreases events.len(),
{
    if events.len() > 0 {
        lemma_relay_emits_at_most_one_line_per_event(events.drop_last());
    }
}

/// The bytes that an output event carries; none for any other event.
pub open spec fn output_bytes(event: ChildEvent) -> Seq<u8> {
    match event {
        ChildEvent::Stdout(bytes) => bytes@,
        ChildEvent::Stderr(bytes) => bytes@,
        _ => Seq::empty(),
    }
}

/// Output that is plain ASCII is logged letter for letter: where the bytes
/// of an output event are the codes of the ASCII characters of `text`, and
/// decoding has kept valid text (as [`relay_event`] guarantees of the event
/// it is given), the line is the stream's prefix followed by `text`.
pub proof fn lemma_ascii_output_is_logged_verbatim(event: ChildEvent, text: Seq<char>)
    requires
        event is Stdout || event is Stderr,
        is_ascii_chars(text),
        output_bytes(event).len() == text.len(),
        forall|i: int| 0 <= i < text.len() ==> output_bytes(event)[i] == text[i] as u8,
        keeps_valid_text(event),
    ensures
        event is Stdout ==> rendered(classified(event)) == Some(
            LogLineView { sink: Sink::Stdout, text: sidecar_prefix() + text },
        ),
        event is Stderr ==> rendered(classified(event)) == Some(
            LogLineView { sink: Sink::Stderr, text: sidecar_error_prefix() + text },
        ),
{
    let bytes = output_bytes(event);
    is_ascii_chars_encode_utf8(text);
    assert forall|i: int| 0 <= i < text.len() implies encode_utf8(text)[i] == bytes[i] by {
        assert(text[i] as u8 == encode_utf8(text)[i]);
    }
    assert(encode_utf8(text) =~= bytes);
    encode_utf8_valid_utf8(text);
    encode_utf8_decode_utf8(text);
}

} // verus!
