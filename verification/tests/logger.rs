use libunity::clock::TIMESTAMP_FORMAT;
use libunity::logger::DEFAULT_LABEL;
use libunity::{format_line, log_line, LogLevel};

fn is_timestamp(text: &str) -> bool {
    let shape = "dddd-dd-ddTdd:dd:ddZ";
    text.len() == shape.len()
        && text.chars().zip(shape.chars()).all(|(found, wanted)| match wanted {
            'd' => found.is_ascii_digit(),
            _ => found == wanted,
        })
}

#[test]
fn line_is_label_level_timestamp_message() {
    assert_eq!(
        format_line("I am very hungry", LogLevel::Info, None, "2025-10-08T07:42:37Z"),
        "[Unity] [Info] [2025-10-08T07:42:37Z] I am very hungry"
    );
}

#[test]
fn line_names_the_app() {
    assert_eq!(
        format_line("disk is full", LogLevel::Error, Some("Storage"), "1999-12-31T23:59:59Z"),
        "[Storage] [Error] [1999-12-31T23:59:59Z] disk is full"
    );
    assert_eq!(
        format_line("x", LogLevel::Warning, Some("AppA"), "2025-01-01T00:00:00Z"),
        "[AppA] [Warning] [2025-01-01T00:00:00Z] x"
    );
}

#[test]
fn line_takes_any_text() {
    assert_eq!(format_line("", LogLevel::Info, Some(""), ""), "[] [Info] [] ");
    assert_eq!(
        format_line("a] [b\nc", LogLevel::Warning, Some("two words"), "now"),
        "[two words] [Warning] [now] a] [b\nc"
    );
    assert_eq!(
        format_line("\u{e9}t\u{e9}", LogLevel::Error, Some("\u{4e16}\u{754c}"), "t"),
        "[\u{4e16}\u{754c}] [Error] [t] \u{e9}t\u{e9}"
    );
}

#[test]
fn levels_are_written_by_name() {
    assert_eq!(LogLevel::Info.name(), "Info");
    assert_eq!(LogLevel::Warning.name(), "Warning");
    assert_eq!(LogLevel::Error.name(), "Error");
}

#[test]
fn default_label_is_one_word() {
    assert_eq!(DEFAULT_LABEL, "Unity");
    assert!(!DEFAULT_LABEL.is_empty());
    assert!(!DEFAULT_LABEL.contains(char::is_whitespace));
}

#[test]
fn timestamp_format_is_utc_to_the_second() {
    assert_eq!(TIMESTAMP_FORMAT, "%Y-%m-%dT%H:%M:%SZ");
}

#[test]
fn log_line_without_app() {
    let line = log_line("hello", LogLevel::Info, None);
    assert!(!line.contains('\n'));
    let rest = line.strip_prefix("[Unity] [Info] [").unwrap();
    let (timestamp, message) = rest.split_once("] ").unwrap();
    assert!(is_timestamp(timestamp), "{}", timestamp);
    assert_eq!(message, "hello");
}

#[test]
fn log_line_with_app() {
    let line = log_line("x", LogLevel::Warning, Some("AppA"));
    let rest = line.strip_prefix('[').unwrap();
    let (label, rest) = rest.split_once(']').unwrap();
    assert_eq!(label, "AppA");
    let rest = rest.strip_prefix(" [Warning] [").unwrap();
    let (timestamp, message) = rest.split_once("] ").unwrap();
    assert!(is_timestamp(timestamp), "{}", timestamp);
    assert_eq!(message, "x");
}

#[test]
fn log_line_is_format_line_at_some_moment() {
    let line = log_line("ready", LogLevel::Error, Some("Core"));
    let rest = line.strip_prefix("[Core] [Error] [").unwrap();
    let (timestamp, _) = rest.split_once("] ").unwrap();
    assert_eq!(line, format_line("ready", LogLevel::Error, Some("Core"), timestamp));
}

#[test]
fn log_line_tells_the_present_year() {
    let line = log_line("tick", LogLevel::Info, None);
    let rest = line.strip_prefix("[Unity] [Info] [").unwrap();
    let year: u32 = rest[..4].parse().unwrap();
    assert!(year >= 2025);
}
