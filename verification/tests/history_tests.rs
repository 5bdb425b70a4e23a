use comchat::app::CommandHistory;
use comchat::history::{history_line, history_path, parse_history};

#[test]
fn history_navigation_basic() {
    let mut h = CommandHistory::new();
    assert_eq!(h.previous(), None);
    assert_eq!(h.next(), None);
    h.push("first".to_string());
    h.push("second".to_string());
    h.push(String::new());
    assert_eq!(h.previous(), Some("second"));
    assert_eq!(h.previous(), Some("first"));
    // Up at the oldest entry stays there.
    assert_eq!(h.previous(), Some("first"));
    assert_eq!(h.next(), Some("second"));
    // Down past the newest entry ends browsing.
    assert_eq!(h.next(), None);
    assert_eq!(h.previous(), Some("second"));
}

#[test]
fn history_push_resets_browsing() {
    let mut h = CommandHistory::from_entries(vec!["a".to_string(), "b".to_string()]);
    assert_eq!(h.previous(), Some("b"));
    assert_eq!(h.previous(), Some("a"));
    h.push("c".to_string());
    assert_eq!(h.previous(), Some("c"));
    assert_eq!(h.last(), Some("c"));
}

#[test]
fn history_up_walks_back_k_times() {
    let mut h = CommandHistory::from_entries(vec!["a".into(), "b".into(), "c".into()]);
    assert_eq!(h.previous(), Some("c"));
    assert_eq!(h.previous(), Some("b"));
    assert_eq!(h.previous(), Some("a"));
    assert_eq!(h.previous(), Some("a"));
}

#[test]
fn history_next_undoes_previous() {
    let mut h = CommandHistory::from_entries(vec!["a".into(), "b".into(), "c".into()]);
    assert_eq!(h.previous(), Some("c"));
    assert_eq!(h.previous(), Some("b"));
    assert_eq!(h.next(), Some("c"));
}

#[test]
fn parse_history_keeps_nonempty_lines() {
    let entries = parse_history("status\r\n\nversion\nreset");
    assert_eq!(entries, vec!["status".to_string(), "version".to_string(), "reset".to_string()]);
    assert!(parse_history("").is_empty());
    assert!(parse_history("\n\r\n\n").is_empty());
    // A carriage return not followed by a line feed is kept.
    assert_eq!(parse_history("a\r"), vec!["a\r".to_string()]);
}

#[test]
fn history_roundtrip_through_lines() {
    let cmds = ["AT", "AT+GMR", "reset now"];
    let mut file = String::new();
    for c in cmds.iter() {
        file.push_str(&history_line(c));
    }
    assert_eq!(file, "AT\nAT+GMR\nreset now\n");
    assert_eq!(parse_history(&file), cmds.iter().map(|s| s.to_string()).collect::<Vec<_>>());
}

#[test]
fn history_append_then_load() {
    let mut file = "one\ntwo\n".to_string();
    file.push_str(&history_line("three"));
    assert_eq!(parse_history(&file), vec!["one".to_string(), "two".to_string(), "three".to_string()]);
}

#[test]
fn history_path_ends_with_file_name() {
    let p = history_path("/tmp/comchat");
    assert!(p.ends_with("history.txt"));
    assert!(p.starts_with("/tmp/comchat"));
}

#[test]
fn empty_commands_read_back_as_nothing() {
    let mut file = String::new();
    for c in ["a", "", "b", ""].iter() {
        file.push_str(&history_line(c));
    }
    assert_eq!(parse_history(&file), vec!["a".to_string(), "b".to_string()]);
}
