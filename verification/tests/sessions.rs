use aemeath::session::{
    handle_session_messages, newest_session, read_record, read_records, recent_messages, role_of,
    shown_message, SessionFile, SessionRecord,
};
use aemeath::text::split_lines;

fn file(extension: Option<&str>, modified: Option<i128>) -> SessionFile {
    SessionFile { extension: extension.map(|e| e.to_string()), modified }
}

fn record(kind: Option<&str>, content: Option<&str>) -> SessionRecord {
    SessionRecord {
        kind: kind.map(|s| s.to_string()),
        content: content.map(|s| s.to_string()),
    }
}

#[test]
fn newest_log_is_chosen() {
    let files = vec![
        file(Some("jsonl"), Some(5)),
        file(Some("txt"), Some(99)),
        file(Some("jsonl"), Some(9)),
        file(Some("jsonl"), Some(9)),
        file(None, Some(50)),
        file(Some("jsonl"), None),
        file(Some("JSONL"), Some(70)),
    ];
    assert_eq!(newest_session(&files), Some(2));
}

#[test]
fn no_log_is_chosen() {
    assert_eq!(newest_session(&Vec::new()), None);
    let files = vec![
        file(Some("jsonl"), Some(0)),
        file(Some("jsonl"), Some(-4)),
        file(Some("json"), Some(8)),
        file(Some("jsonl"), None),
    ];
    assert_eq!(newest_session(&files), None);
}

#[test]
fn roles() {
    assert_eq!(role_of(&Some("user".to_string())), "user");
    assert_eq!(role_of(&Some("assistant".to_string())), "assistant");
    assert_eq!(role_of(&Some("tool_result".to_string())), "tool");
    assert_eq!(role_of(&None), "tool");
}

#[test]
fn short_and_foreign_records_are_not_shown() {
    assert!(shown_message(&record(Some("user"), Some("a"))).is_none());
    assert!(shown_message(&record(Some("user"), Some(""))).is_none());
    assert!(shown_message(&record(Some("user"), None)).is_none());
    assert!(shown_message(&record(Some("summary"), Some("hello"))).is_none());
    assert!(shown_message(&record(None, Some("hello"))).is_none());
    let m = shown_message(&record(Some("assistant"), Some("ok"))).unwrap();
    assert_eq!(m.role, "assistant");
    assert_eq!(m.content, "ok");
    let m = shown_message(&record(Some("user"), Some("好"))).unwrap();
    assert_eq!(m.content, "好");
}

#[test]
fn only_the_last_thirty_records_count() {
    let mut records = Vec::new();
    for i in 0..40 {
        let kind = if i % 2 == 0 { "user" } else { "assistant" };
        records.push(record(Some(kind), Some(&format!("message {}", i))));
    }
    let shown = recent_messages(&records);
    assert_eq!(shown.len(), 30);
    assert_eq!(shown[0].content, "message 10");
    assert_eq!(shown[0].role, "user");
    assert_eq!(shown[29].content, "message 39");
    assert_eq!(shown[29].role, "assistant");

    records.push(record(Some("summary"), Some("hidden")));
    let shown = recent_messages(&records);
    assert_eq!(shown.len(), 29);
    assert_eq!(shown[0].content, "message 11");
}

#[test]
fn exactly_thirty_records_all_count() {
    let mut records = Vec::new();
    for i in 0..30 {
        records.push(record(Some("user"), Some(&format!("message {}", i))));
    }
    let shown = recent_messages(&records);
    assert_eq!(shown.len(), 30);
    assert_eq!(shown[0].content, "message 0");
}

#[test]
fn lines_of_a_text() {
    assert_eq!(split_lines(""), Vec::<String>::new());
    assert_eq!(split_lines("a"), vec!["a"]);
    assert_eq!(split_lines("a\n"), vec!["a"]);
    assert_eq!(split_lines("\n"), vec![""]);
    assert_eq!(split_lines("a\r\nb\n\nc\rd\r"), vec!["a", "b", "", "c\rd\r"]);
    assert_eq!(split_lines("a\r\r\n"), vec!["a\r"]);
    for text in ["", "\r", "\r\n", "x\r\n\r", "一\n二\r\n", "\n\n", "\r\r\n\rz", "q\n\r"] {
        let expected: Vec<String> = text.lines().map(|l| l.to_string()).collect();
        assert_eq!(split_lines(text), expected);
    }
}

#[test]
fn record_is_read_from_a_line() {
    let r = read_record("{\"type\":\"user\",\"message\":{\"content\":\"hi there\"}}").unwrap();
    assert_eq!(r.kind.as_deref(), Some("user"));
    assert_eq!(r.content.as_deref(), Some("hi there"));
    let r = read_record("{\"type\":\"assistant\",\"message\":{\"content\":[{\"text\":\"x\"}]}}").unwrap();
    assert_eq!(r.kind.as_deref(), Some("assistant"));
    assert_eq!(r.content, None);
    let r = read_record("{\"message\":\"text\"}").unwrap();
    assert_eq!(r.kind, None);
    assert_eq!(r.content, None);
    let r = read_record("17").unwrap();
    assert_eq!(r.kind, None);
    assert!(read_record("{\"type\":").is_none());
    assert!(read_record("").is_none());
}

#[test]
fn unreadable_lines_are_skipped() {
    let log = "{\"type\":\"user\",\"message\":{\"content\":\"first\"}}\r\n\
               oops\n\
               \n\
               {\"type\":\"tool\",\"message\":{\"content\":\"hidden\"}}\n\
               {\"type\":\"assistant\",\"message\":{\"content\":\"second\"}}";
    assert_eq!(read_records(log).len(), 3);
    let shown = handle_session_messages(Some(log));
    assert_eq!(shown.len(), 2);
    assert_eq!(shown[0].role, "user");
    assert_eq!(shown[0].content, "first");
    assert_eq!(shown[1].role, "assistant");
    assert_eq!(shown[1].content, "second");
}

#[test]
fn no_log_shows_nothing() {
    assert!(handle_session_messages(None).is_empty());
    assert!(handle_session_messages(Some("")).is_empty());
}

#[test]
fn unreadable_lines_take_no_place() {
    let mut log = String::new();
    for i in 0..30 {
        log.push_str(&format!("{{\"type\":\"user\",\"message\":{{\"content\":\"m{}\"}}}}\nbroken\n", i));
    }
    let shown = handle_session_messages(Some(&log));
    assert_eq!(shown.len(), 30);
    assert_eq!(shown[0].content, "m0");
}

#[test]
fn log_grows_line_by_line() {
    let first = "{\"type\":\"user\",\"message\":{\"content\":\"one\"}}\nbroken\r\n";
    let second = "{\"type\":\"assistant\",\"message\":{\"content\":\"two\"}}";
    let both = format!("{}{}", first, second);
    let mut apart = split_lines(first);
    apart.extend(split_lines(second));
    assert_eq!(split_lines(&both), apart);
    assert_eq!(read_records(&both).len(), read_records(first).len() + read_records(second).len());
    let shown = handle_session_messages(Some(&both));
    assert_eq!(shown[0].content, "one");
    assert_eq!(shown[1].content, "two");
}

#[test]
fn older_log_is_forgotten() {
    let mut newer = String::new();
    for i in 0..30 {
        newer.push_str(&format!("{{\"type\":\"user\",\"message\":{{\"content\":\"m{}\"}}}}\n", i));
    }
    let older = "{\"type\":\"user\",\"message\":{\"content\":\"old\"}}\n";
    let shown = handle_session_messages(Some(&format!("{}{}", older, newer)));
    assert_eq!(shown.len(), 30);
    assert_eq!(shown[0].content, "m0");
}
