//! The event bridge to the remote inspector: where it connects, the commands
//! that switch its event streams on, and how each incoming message is shown.
use vstd::prelude::*;
use vstd::string::*;
use crate::text::{join, join_spec, views};
use chrome_devtools::runtime::Event;

verus! {

/// The inspector endpoint for a session.
pub open spec fn socket_url_spec(inspector_host: Seq<char>, session_id: Seq<char>) -> Seq<char> {
    "wss://"@ + inspector_host + "/inspect/"@ + session_id
}

/// The streaming-connection URL of the inspector for `session_id`.
pub fn socket_url(inspector_host: &str, session_id: &str) -> (r: String)
    ensures
        r@ == socket_url_spec(inspector_host@, session_id@),
{
    proof {
        reveal_strlit("wss://");
        reveal_strlit("/inspect/");
    }
    let mut u = "wss://".to_owned();
    u.append(inspector_host);
    u.append("/inspect/");
    u.append(session_id);
    u
}

/// The activation command with numeric id `id` that enables `capability`.
pub open spec fn activation_spec(id: Seq<char>, capability: Seq<char>) -> Seq<char> {
    "{\"id\": "@ + id + ", \"method\": \""@ + capability + ".enable\"}"@
}

fn activation_command(id: &str, capability: &str) -> (r: String)
    ensures
        r@ == activation_spec(id@, capability@),
{
    proof {
        reveal_strlit("{\"id\": ");
        reveal_strlit(", \"method\": \"");
        reveal_strlit(".enable\"}");
    }
    let mut c = "{\"id\": ".to_owned();
    c.append(id);
    c.append(", \"method\": \"");
    c.append(capability);
    c.append(".enable\"}");
    c
}

/// The three commands sent once the inspector connection opens, in order:
/// profiling, runtime evaluation and debugging, with ids 1, 2 and 3.
pub fn activation_messages() -> (r: Vec<String>)
    ensures
        r@.len() == 3,
        r@[0]@ == activation_spec("1"@, "Profiler"@),
        r@[1]@ == activation_spec("2"@, "Runtime"@),
        r@[2]@ == activation_spec("3"@, "Debugger"@),
{
    let mut v: Vec<String> = Vec::new();
    v.push(activation_command("1", "Profiler"));
    v.push(activation_command("2", "Runtime"));
    v.push(activation_command("3", "Debugger"));
    v
}

/// The inspector events this bridge shows.
#[derive(Debug, Clone, Copy, PartialEq, Eq, Structural)]
pub enum EventKind {
    ConsoleApiCalled,
    ExceptionThrown,
}

/// An inspector event as shown to the user: its kind, the console call's log
/// type (empty for an exception), and the text of each console argument, or
/// the exception's text as the one part.
#[derive(Debug)]
pub struct DevtoolsEvent {
    pub kind: EventKind,
    pub log_type: String,
    pub parts: Vec<String>,
}

pub open spec fn event_view(e: Option<DevtoolsEvent>) -> Option<
    (EventKind, Seq<char>, Seq<Seq<char>>),
> {
    match e {
        Some(ev) => Some((ev.kind, ev.log_type@, views(ev.parts@))),
        None => None,
    }
}

/// The kind of the event that the devtools protocol library reads from
/// `msg`, with the exception's text for an exception (empty for a console
/// call), or `None` for a message that is none of the known events.
pub uninterp spec fn devtools_event_of(msg: Seq<char>) -> Option<(EventKind, Seq<char>)>;

/// The `params.type` string of the JSON message `msg`, empty when absent.
pub uninterp spec fn console_type_of(msg: Seq<char>) -> Seq<char>;

pub open spec fn kind_text_view(r: Option<(EventKind, String)>) -> Option<(EventKind, Seq<char>)> {
    match r {
        Some((k, text)) => Some((k, text@)),
        None => None,
    }
}

/// Relies on serde_json::from_str into chrome_devtools::runtime::Event:
/// reads an inspector message, keeping its kind and an exception's text.
#[verifier::external_body]
fn read_event(msg: &str) -> (r: Option<(EventKind, String)>)
    ensures
        kind_text_view(r) == devtools_event_of(msg@),
{
    match serde_json::from_str::<Event>(msg) {
        Ok(Event::ConsoleAPICalled(_)) => Some((EventKind::ConsoleApiCalled, String::new())),
        Ok(Event::ExceptionThrown(p)) => Some((EventKind::ExceptionThrown, p.exception_details.text)),
        Ok(_) => None,
        Err(_) => None,
    }
}

/// Relies on serde_json::from_str into serde_json::Value: reads the console
/// call's log type, which the devtools library keeps in its `type` field.
#[verifier::external_body]
fn read_console_type(msg: &str) -> (r: String)
    ensures
        r@ == console_type_of(msg@),
{
    match serde_json::from_str::<serde_json::Value>(msg) {
        Ok(v) => v["params"]["type"].as_str().unwrap_or("").to_string(),
        Err(_) => String::new(),
    }
}

pub open spec fn opt_views(o: Option<Vec<String>>) -> Option<Seq<Seq<char>>> {
    match o {
        Some(v) => Some(views(v@)),
        None => None,
    }
}

/// The event read from `msg`. A console call takes its log type from the
/// message and its argument texts from `console_args`; without those texts
/// it counts as unreadable.
pub open spec fn message_event_spec(msg: Seq<char>, console_args: Option<Seq<Seq<char>>>) -> Option<
    (EventKind, Seq<char>, Seq<Seq<char>>),
> {
    match devtools_event_of(msg) {
        Some((EventKind::ExceptionThrown, text)) => Some(
            (EventKind::ExceptionThrown, Seq::<char>::empty(), seq![text]),
        ),
        Some((EventKind::ConsoleApiCalled, _)) => match console_args {
            Some(args) => Some((EventKind::ConsoleApiCalled, console_type_of(msg), args)),
            None => None,
        },
        None => None,
    }
}

/// Reads an inspector message as one of the known events. `console_args`
/// holds the text of each argument of a console call as the devtools
/// library writes it (its Display), or `None` where it could not be written:
/// that Display panics on some arguments, so the caller writes them where it
/// can recover.
pub fn parse_devtools_event(msg: &str, console_args: Option<Vec<String>>) -> (r: Option<
    DevtoolsEvent,
>)
    ensures
        event_view(r) == message_event_spec(msg@, opt_views(console_args)),
{
    match read_event(msg) {
        Some((EventKind::ExceptionThrown, text)) => {
            let mut parts: Vec<String> = Vec::new();
            parts.push(text);
            assert(views(parts@) =~= seq![parts@[0]@]);
            Some(DevtoolsEvent { kind: EventKind::ExceptionThrown, log_type: String::new(), parts })
        },
        Some((EventKind::ConsoleApiCalled, _)) => match console_args {
            Some(parts) => {
                let log_type = read_console_type(msg);
                Some(DevtoolsEvent { kind: EventKind::ConsoleApiCalled, log_type, parts })
            },
            None => None,
        },
        None => None,
    }
}

/// Where a line goes.
#[derive(Debug, Clone, Copy, PartialEq, Eq, Structural)]
pub enum Stream {
    Stdout,
    Stderr,
}

/// How a line is styled.
#[derive(Debug, Clone, Copy, PartialEq, Eq, Structural)]
pub enum Emphasis {
    Plain,
    Blue,
    Red,
    BoldRed,
}

/// One line for the user's terminal.
#[derive(Debug)]
pub struct ConsoleLine {
    pub stream: Stream,
    pub emphasis: Emphasis,
    pub text: String,
}

pub open spec fn line_view(l: Option<ConsoleLine>) -> Option<(Stream, Emphasis, Seq<char>)> {
    match l {
        Some(x) => Some((x.stream, x.emphasis, x.text@)),
        None => None,
    }
}

/// What is shown for an event: `log` calls on standard output in blue,
/// `error` calls on standard error in red, other console calls on standard
/// output as unknown console events, exceptions on standard error in bold
/// red; nothing for a message that is not a known event.
pub open spec fn classify_spec(e: Option<(EventKind, Seq<char>, Seq<Seq<char>>)>) -> Option<
    (Stream, Emphasis, Seq<char>),
> {
    match e {
        None => None,
        Some((kind, log_type, parts)) => match kind {
            EventKind::ExceptionThrown => Some((Stream::Stderr, Emphasis::BoldRed, join_spec(parts, " "@))),
            EventKind::ConsoleApiCalled => if log_type == "log"@ {
                Some((Stream::Stdout, Emphasis::Blue, join_spec(parts, " "@)))
            } else if log_type == "error"@ {
                Some((Stream::Stderr, Emphasis::Red, join_spec(parts, " "@)))
            } else {
                Some(
                    (
                        Stream::Stdout,
                        Emphasis::Plain,
                        "unknown console event: "@ + join_spec(parts, " "@),
                    ),
                )
            },
        },
    }
}

/// The line shown for an inspector event, or `None` when the message was not
/// a known event.
pub fn classify_event(event: &Option<DevtoolsEvent>) -> (r: Option<ConsoleLine>)
    ensures
        line_view(r) == classify_spec(event_view(*event)),
{
    proof {
        reveal_strlit(" ");
        reveal_strlit("log");
        reveal_strlit("error");
        reveal_strlit("unknown console event: ");
    }
    match event {
        None => None,
        Some(e) => {
            let text = join(&e.parts, " ");
            match e.kind {
                EventKind::ExceptionThrown => Some(
                    ConsoleLine { stream: Stream::Stderr, emphasis: Emphasis::BoldRed, text },
                ),
                EventKind::ConsoleApiCalled => {
                    if crate::text::str_eq(e.log_type.as_str(), "log") {
                        Some(ConsoleLine { stream: Stream::Stdout, emphasis: Emphasis::Blue, text })
                    } else if crate::text::str_eq(e.log_type.as_str(), "error") {
                        Some(ConsoleLine { stream: Stream::Stderr, emphasis: Emphasis::Red, text })
                    } else {
                        let mut t = "unknown console event: ".to_owned();
                        t.append(text.as_str());
                        Some(ConsoleLine { stream: Stream::Stdout, emphasis: Emphasis::Plain, text: t })
                    }
                },
            }
        },
    }
}

/// Handles one text message from the inspector, given the texts of its
/// console arguments (see `parse_devtools_event`): the line to show, or
/// `None` when the message is not a known event and is only worth a
/// diagnostic.
pub fn on_message(msg: &str, console_args: Option<Vec<String>>) -> (r: Option<ConsoleLine>)
    ensures
        line_view(r) == classify_spec(message_event_spec(msg@, opt_views(console_args))),
{
    let event = parse_devtools_event(msg, console_args);
    classify_event(&event)
}

} // verus!
