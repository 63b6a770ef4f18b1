use ping_bot::events::{client_error_line, ready_lines, reply_failure_line, resumed_line};
use ping_bot::logging::{Level, LogLine};
use ping_bot::text::{decimal_string, is_whitespace, push_decimal};

fn line(level: Level, text: &str) -> LogLine {
    LogLine { level, text: text.to_string() }
}

#[test]
fn ready_lines_name_user_and_servers() {
    let (connected, servers) = ready_lines("pingbot", 3);
    assert_eq!(connected, line(Level::Info, "pingbot is connected!"));
    assert_eq!(servers, line(Level::Info, "Connected in 3 servers"));
    let (connected, servers) = ready_lines("", 0);
    assert_eq!(connected, line(Level::Info, " is connected!"));
    assert_eq!(servers, line(Level::Info, "Connected in 0 servers"));
    assert_eq!(ready_lines("b", 1250).1.text, "Connected in 1250 servers");
}

#[test]
fn resumed_line_carries_the_trace() {
    assert_eq!(
        resumed_line("[Some(\"gw-1\"), None]"),
        line(Level::Debug, "Resumed; trace: [Some(\"gw-1\"), None]")
    );
    assert_eq!(resumed_line("[]"), line(Level::Debug, "Resumed; trace: []"));
}

#[test]
fn client_error_line_carries_the_error() {
    assert_eq!(
        client_error_line("Gateway(InvalidAuthentication)"),
        line(Level::Error, "Client error: Gateway(InvalidAuthentication)")
    );
}

#[test]
fn reply_failure_is_an_error_line() {
    assert_eq!(
        reply_failure_line("Http(403)"),
        line(Level::Error, "Error sending message: Http(403)")
    );
}

#[test]
fn decimal_strings() {
    assert_eq!(decimal_string(0), "0");
    assert_eq!(decimal_string(7), "7");
    assert_eq!(decimal_string(9), "9");
    assert_eq!(decimal_string(10), "10");
    assert_eq!(decimal_string(1234567890), "1234567890");
    assert_eq!(decimal_string(usize::MAX), usize::MAX.to_string());
    for n in 0usize..2000 {
        assert_eq!(decimal_string(n), n.to_string());
    }
}

#[test]
fn push_decimal_appends() {
    let mut out = String::from("n=");
    push_decimal(&mut out, 405);
    assert_eq!(out, "n=405");
    push_decimal(&mut out, 0);
    assert_eq!(out, "n=4050");
}

#[test]
fn whitespace_is_unicode_white_space() {
    assert!(is_whitespace(' '));
    assert!(is_whitespace('\t'));
    assert!(is_whitespace('\n'));
    assert!(is_whitespace('\u{a0}'));
    assert!(is_whitespace('\u{3000}'));
    assert!(!is_whitespace('p'));
    assert!(!is_whitespace('!'));
    assert!(!is_whitespace('\u{200b}'));
    for code in 0u32..=0x10FFFF {
        if let Some(c) = char::from_u32(code) {
            assert_eq!(is_whitespace(c), c.is_whitespace(), "U+{:04X}", code);
        }
    }
}
