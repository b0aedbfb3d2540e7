use gemini_mcp::backlog::{ErrorBacklog, BACKLOG_CAPACITY};

#[test]
fn backlog_starts_empty() {
    let backlog = ErrorBacklog::new();
    assert_eq!(backlog.len(), 0);
    assert!(backlog.is_empty());
    assert_eq!(backlog.join(), "");
    assert!(backlog.entries().is_empty());
}

#[test]
fn backlog_keeps_insertion_order() {
    let mut backlog = ErrorBacklog::new();
    backlog.push("first".to_string());
    backlog.push("second".to_string());
    backlog.push("third".to_string());
    assert_eq!(backlog.entries(), vec!["first", "second", "third"]);
    assert_eq!(backlog.join(), "first\nsecond\nthird");
    assert!(!backlog.is_empty());
}

#[test]
fn backlog_joins_a_single_entry_without_separator() {
    let mut backlog = ErrorBacklog::new();
    backlog.push("only".to_string());
    assert_eq!(backlog.join(), "only");
}

#[test]
fn backlog_holds_exactly_its_capacity() {
    let mut backlog = ErrorBacklog::new();
    for i in 0..10 {
        backlog.push(format!("d{}", i));
    }
    assert_eq!(backlog.len(), 10);
    assert_eq!(BACKLOG_CAPACITY, 10);
    assert_eq!(backlog.entries()[0], "d0");
    assert_eq!(backlog.entries()[9], "d9");
}

#[test]
fn backlog_eleventh_entry_evicts_the_oldest() {
    let mut backlog = ErrorBacklog::new();
    for i in 0..11 {
        backlog.push(format!("d{}", i));
    }
    assert_eq!(backlog.len(), 10);
    let expected: Vec<String> = (1..11).map(|i| format!("d{}", i)).collect();
    assert_eq!(backlog.entries(), expected);
}

#[test]
fn backlog_of_fifteen_keeps_the_last_ten_in_order() {
    let mut backlog = ErrorBacklog::new();
    for i in 0..15 {
        backlog.push(format!("diagnostic {}", i));
        assert!(backlog.len() <= 10);
    }
    let expected: Vec<String> = (5..15).map(|i| format!("diagnostic {}", i)).collect();
    assert_eq!(backlog.entries(), expected);
    assert_eq!(backlog.join(), expected.join("\n"));
}

#[test]
fn backlog_with_returns_the_grown_backlog() {
    let backlog = ErrorBacklog::new().with("a".to_string()).with("b".to_string());
    assert_eq!(backlog.entries(), vec!["a", "b"]);
}
