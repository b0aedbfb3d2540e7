use gemini_mcp::dispatcher::Dispatcher;
use gemini_mcp::event::{is_turn_completed, reply_of, GeminiEvent, DEPRECATED_PROMPT_WARNING};
use serde_json::Value;

fn text_field(object: &mut serde_json::Map<String, Value>, key: &str) -> Option<String> {
    match object.remove(key) {
        Some(Value::String(s)) => Some(s),
        _ => None,
    }
}

fn event_from_line(line: &str) -> GeminiEvent {
    let value: Value = serde_json::from_str(line).unwrap();
    let mut object = match value {
        Value::Object(object) => object,
        _ => panic!("not an object"),
    };
    GeminiEvent {
        event_type: text_field(&mut object, "type"),
        role: text_field(&mut object, "role"),
        content: text_field(&mut object, "content"),
        session_id: text_field(&mut object, "session_id"),
        extra: object,
    }
}

fn feed(dispatcher: &mut Dispatcher, line: &str) {
    dispatcher.accept_line(line, &event_from_line(line));
}

fn assistant(content: &str) -> GeminiEvent {
    GeminiEvent {
        event_type: Some("message".to_string()),
        role: Some("assistant".to_string()),
        content: Some(content.to_string()),
        session_id: None,
        extra: serde_json::Map::new(),
    }
}

#[test]
fn hello_then_turn_completed_is_a_success() {
    let mut dispatcher = Dispatcher::new(false);
    feed(&mut dispatcher, r#"{"type":"message","role":"assistant","content":"Hello"}"#);
    feed(&mut dispatcher, r#"{"type":"turn.completed","session_id":"abc123"}"#);
    assert!(dispatcher.is_stopped());
    let outcome = dispatcher.finish(false);
    assert!(outcome.success);
    assert_eq!(outcome.session_id.as_deref(), Some("abc123"));
    assert_eq!(outcome.agent_messages.as_deref(), Some("Hello"));
    assert_eq!(outcome.error, None);
    assert!(outcome.all_messages.is_none());
}

#[test]
fn deprecation_warning_is_left_out_of_the_reply() {
    let mut dispatcher = Dispatcher::new(false);
    let warning = format!("Warning: {} and will go away.", DEPRECATED_PROMPT_WARNING);
    dispatcher.accept(&assistant("Hi. "), None);
    dispatcher.accept(&assistant(&warning), None);
    dispatcher.accept(&assistant("Bye."), None);
    assert_eq!(dispatcher.agent_messages(), "Hi. Bye.");
}

#[test]
fn deprecation_warning_alone_leaves_the_reply_empty() {
    let mut dispatcher = Dispatcher::new(false);
    dispatcher.accept(&assistant(DEPRECATED_PROMPT_WARNING), None);
    assert_eq!(dispatcher.agent_messages(), "");
    assert_eq!(reply_of(&assistant(DEPRECATED_PROMPT_WARNING)), None);
    assert_eq!(reply_of(&assistant("The --prompt flag is fine")), Some("The --prompt flag is fine"));
}

#[test]
fn only_assistant_messages_add_to_the_reply() {
    let mut dispatcher = Dispatcher::new(false);
    feed(&mut dispatcher, r#"{"type":"message","role":"user","content":"question"}"#);
    feed(&mut dispatcher, r#"{"type":"tool_use","role":"assistant","content":"call"}"#);
    feed(&mut dispatcher, r#"{"type":"message","content":"no role"}"#);
    feed(&mut dispatcher, r#"{"type":"message","role":"assistant"}"#);
    feed(&mut dispatcher, r#"{"type":"Message","role":"assistant","content":"wrong case"}"#);
    assert_eq!(dispatcher.agent_messages(), "");
    feed(&mut dispatcher, r#"{"type":"message","role":"assistant","content":"answer"}"#);
    assert_eq!(dispatcher.agent_messages(), "answer");
}

#[test]
fn reply_texts_are_concatenated_in_order() {
    let mut dispatcher = Dispatcher::new(false);
    dispatcher.accept(&assistant("one "), None);
    dispatcher.accept(&assistant(""), None);
    dispatcher.accept(&assistant("two"), None);
    assert_eq!(dispatcher.agent_messages(), "one two");
}

#[test]
fn latest_session_id_wins() {
    let mut dispatcher = Dispatcher::new(false);
    assert_eq!(dispatcher.session_id(), None);
    feed(&mut dispatcher, r#"{"type":"init","session_id":"first"}"#);
    assert_eq!(dispatcher.session_id(), Some("first"));
    feed(&mut dispatcher, r#"{"type":"message","role":"assistant","content":"x"}"#);
    assert_eq!(dispatcher.session_id(), Some("first"));
    feed(&mut dispatcher, r#"{"type":"note","session_id":"second"}"#);
    assert_eq!(dispatcher.session_id(), Some("second"));
}

#[test]
fn empty_session_id_is_still_a_session_id() {
    let mut dispatcher = Dispatcher::new(false);
    feed(&mut dispatcher, r#"{"session_id":"real"}"#);
    feed(&mut dispatcher, r#"{"session_id":""}"#);
    assert_eq!(dispatcher.session_id(), Some(""));
}

#[test]
fn malformed_lines_lose_nothing() {
    let mut dispatcher = Dispatcher::new(true);
    feed(&mut dispatcher, r#"{"type":"message","role":"assistant","content":"Hel","session_id":"s1"}"#);
    dispatcher.reject("expected value at line 1 column 1", "not json");
    assert_eq!(dispatcher.agent_messages(), "Hel");
    assert_eq!(dispatcher.session_id(), Some("s1"));
    assert_eq!(dispatcher.retained_count(), Some(1));
    feed(&mut dispatcher, r#"{"type":"message","role":"assistant","content":"lo"}"#);
    dispatcher.reject("EOF while parsing an object at line 1 column 1", "{");
    assert_eq!(dispatcher.agent_messages(), "Hello");
    assert_eq!(dispatcher.session_id(), Some("s1"));
    assert_eq!(dispatcher.retained_count(), Some(2));
    assert!(!dispatcher.is_stopped());
    assert_eq!(
        dispatcher.backlog().entries(),
        vec![
            "[parse error] expected value at line 1 column 1: not json",
            "[parse error] EOF while parsing an object at line 1 column 1: {",
        ]
    );
}

#[test]
fn malformed_lines_leave_the_same_outcome_as_without_them() {
    let lines = [
        r#"{"type":"message","role":"assistant","content":"a"}"#,
        r#"{"session_id":"s"}"#,
        r#"{"type":"message","role":"assistant","content":"b"}"#,
        r#"{"type":"turn.completed"}"#,
    ];
    let mut clean = Dispatcher::new(true);
    let mut noisy = Dispatcher::new(true);
    noisy.reject("bad", "garbage 0");
    for (i, line) in lines.iter().enumerate() {
        feed(&mut clean, line);
        feed(&mut noisy, line);
        noisy.reject("bad", &format!("garbage {}", i + 1));
    }
    assert_eq!(clean.agent_messages(), noisy.agent_messages());
    assert_eq!(clean.session_id(), noisy.session_id());
    assert_eq!(clean.retained_count(), noisy.retained_count());
    assert_eq!(clean.is_stopped(), noisy.is_stopped());
    let a = clean.finish(false);
    let b = noisy.finish(false);
    assert!(a.success && b.success);
    assert_eq!(a.agent_messages, b.agent_messages);
    assert_eq!(a.all_messages, b.all_messages);
}

#[test]
fn nothing_is_processed_after_turn_completed() {
    let mut dispatcher = Dispatcher::new(true);
    feed(&mut dispatcher, r#"{"type":"message","role":"assistant","content":"done","session_id":"s1"}"#);
    feed(&mut dispatcher, r#"{"type":"turn.completed"}"#);
    assert!(dispatcher.is_stopped());
    feed(&mut dispatcher, r#"{"type":"message","role":"assistant","content":" more","session_id":"s2"}"#);
    dispatcher.reject("bad", "late garbage");
    dispatcher.fault("late fault");
    dispatcher.accept(&assistant("even more"), Some(Value::Null));
    assert_eq!(dispatcher.agent_messages(), "done");
    assert_eq!(dispatcher.session_id(), Some("s1"));
    assert_eq!(dispatcher.retained_count(), Some(2));
    assert!(dispatcher.backlog().is_empty());
}

#[test]
fn turn_completed_needs_the_exact_tag() {
    let exact = event_from_line(r#"{"type":"turn.completed"}"#);
    let other = event_from_line(r#"{"type":"turn.completed "}"#);
    let none = event_from_line(r#"{"role":"turn.completed"}"#);
    assert!(is_turn_completed(&exact));
    assert!(!is_turn_completed(&other));
    assert!(!is_turn_completed(&none));
}

#[test]
fn fault_is_recorded_and_stops_reading() {
    let mut dispatcher = Dispatcher::new(false);
    dispatcher.accept(&assistant("partial"), None);
    dispatcher.fault("stream did not contain valid UTF-8");
    assert!(dispatcher.is_stopped());
    assert_eq!(dispatcher.backlog().entries(), vec!["[io error] stream did not contain valid UTF-8"]);
    assert_eq!(dispatcher.agent_messages(), "partial");
}

#[test]
fn events_are_retained_only_on_request() {
    let line = r#"{"type":"message","role":"assistant","content":"x","n":[1,2,{"k":null}]}"#;
    let mut without = Dispatcher::new(false);
    feed(&mut without, line);
    assert!(!without.retains_all());
    assert_eq!(without.retained_count(), None);
    assert!(without.finish(false).all_messages.is_none());

    let mut with = Dispatcher::new(true);
    assert!(with.retains_all());
    feed(&mut with, line);
    feed(&mut with, r#"{"unknown":true}"#);
    let outcome = with.finish(false);
    let expected: Vec<Value> = vec![
        serde_json::from_str(line).unwrap(),
        serde_json::from_str(r#"{"unknown":true}"#).unwrap(),
    ];
    assert_eq!(outcome.all_messages, Some(expected));
}

#[test]
fn retained_event_is_the_parsed_line_not_its_text() {
    let line = r#"{"type":"x","n":1.5}"#;
    let mut dispatcher = Dispatcher::new(true);
    feed(&mut dispatcher, line);
    let kept = dispatcher.finish(false).all_messages.unwrap();
    assert_eq!(kept.len(), 1);
    assert_ne!(kept[0], Value::String(line.to_string()));
    assert_eq!(kept[0].get("n").and_then(Value::as_f64), Some(1.5));
    assert_eq!(kept[0].get("type").and_then(Value::as_str), Some("x"));
}

#[test]
fn a_line_that_is_no_json_value_is_not_retained() {
    let mut dispatcher = Dispatcher::new(true);
    dispatcher.accept_line("{broken", &assistant("text"));
    assert_eq!(dispatcher.retained_count(), Some(0));
    assert_eq!(dispatcher.agent_messages(), "text");
}

#[test]
fn backlog_of_the_dispatcher_is_bounded() {
    let mut dispatcher = Dispatcher::new(false);
    for i in 0..15 {
        dispatcher.reject("bad", &format!("line {}", i));
    }
    let expected: Vec<String> = (5..15).map(|i| format!("[parse error] bad: line {}", i)).collect();
    assert_eq!(dispatcher.backlog().entries(), expected);
    dispatcher.fault("broken pipe");
    assert_eq!(dispatcher.backlog().len(), 10);
    assert_eq!(dispatcher.backlog().entries()[9], "[io error] broken pipe");
    assert_eq!(dispatcher.backlog().entries()[0], "[parse error] bad: line 6");
}
