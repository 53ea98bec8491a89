use wrangler_dev::inspector::{
    activation_messages, on_message, parse_devtools_event, socket_url, Emphasis, EventKind, Stream,
};

#[test]
fn unknown_inspector_message_is_dropped() {
    assert!(on_message(r#"{"id": 1, "result": {}}"#, None).is_none());
    assert!(on_message(r#"{"method": "Debugger.scriptParsed", "params": {}}"#, None).is_none());
    assert!(on_message("not json at all", None).is_none());
}

#[test]
fn console_log_goes_to_stdout_in_blue() {
    let msg = r#"{"method":"Runtime.consoleAPICalled","params":{"type":"log","args":[{"type":"string","value":"hello"},{"type":"number","value":1,"description":"1"}]}}"#;
    let args = Some(vec!["hello".to_string(), "1".to_string()]);
    let line = on_message(msg, args).unwrap();
    assert_eq!(line.stream, Stream::Stdout);
    assert_eq!(line.emphasis, Emphasis::Blue);
    assert_eq!(line.text, "hello 1");
}

#[test]
fn console_error_goes_to_stderr_in_red() {
    let msg = r#"{"method":"Runtime.consoleAPICalled","params":{"type":"error","args":[{"type":"string","value":"bad"}]}}"#;
    let line = on_message(msg, Some(vec!["bad".to_string()])).unwrap();
    assert_eq!(line.stream, Stream::Stderr);
    assert_eq!(line.emphasis, Emphasis::Red);
    assert_eq!(line.text, "bad");
}

#[test]
fn other_console_calls_are_unknown_events() {
    let msg = r#"{"method":"Runtime.consoleAPICalled","params":{"type":"warning","args":[{"type":"string","value":"w"}]}}"#;
    let event = parse_devtools_event(msg, Some(vec!["w".to_string()])).unwrap();
    assert_eq!(event.kind, EventKind::ConsoleApiCalled);
    assert_eq!(event.log_type, "warning");
    let line = on_message(msg, Some(vec!["w".to_string()])).unwrap();
    assert_eq!(line.stream, Stream::Stdout);
    assert_eq!(line.emphasis, Emphasis::Plain);
    assert_eq!(line.text, "unknown console event: w");
}

#[test]
fn exceptions_go_to_stderr_in_bold_red() {
    let msg = r#"{"method":"Runtime.exceptionThrown","params":{"timestamp":1,"exceptionDetails":{"text":"Uncaught Error","lineNumber":0,"columnNumber":0,"exception":{"type":"object"}}}}"#;
    let line = on_message(msg, None).unwrap();
    assert_eq!(line.stream, Stream::Stderr);
    assert_eq!(line.emphasis, Emphasis::BoldRed);
    assert_eq!(line.text, "Uncaught Error");
}

#[test]
fn three_activation_commands_in_order() {
    let m = activation_messages();
    assert_eq!(
        m,
        vec![
            r#"{"id": 1, "method": "Profiler.enable"}"#.to_string(),
            r#"{"id": 2, "method": "Runtime.enable"}"#.to_string(),
            r#"{"id": 3, "method": "Debugger.enable"}"#.to_string(),
        ]
    );
}

#[test]
fn socket_url_embeds_the_session() {
    assert_eq!(
        socket_url("rawhttp.cloudflareworkers.com", "deadbeef"),
        "wss://rawhttp.cloudflareworkers.com/inspect/deadbeef"
    );
}

#[test]
fn console_call_without_argument_texts_is_dropped() {
    // a "string" argument whose value is a number: its text cannot be written
    let msg = r#"{"method":"Runtime.consoleAPICalled","params":{"type":"log","args":[{"type":"string","value":5}]}}"#;
    assert!(on_message(msg, None).is_none());
    let line = on_message(msg, Some(Vec::new())).unwrap();
    assert_eq!(line.text, "");
}
