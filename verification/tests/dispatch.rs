use std::collections::HashSet;

use ping_bot::commands::{before, ping, run, Action, Command, CommandGroup, Framework, Message};
use ping_bot::logging::{Level, LogLine};

fn message(content: &str, author: &str, channel_id: u64) -> Message {
    Message { content: content.to_string(), author: author.to_string(), channel_id }
}

fn framework() -> Framework {
    let mut owners = HashSet::new();
    owners.insert(42u64);
    Framework::new(owners)
}

#[test]
fn framework_has_prefix_owners_and_ping() {
    let framework = framework();
    assert_eq!(framework.prefix, "!");
    assert_eq!(framework.owners.len(), 1);
    assert!(framework.owners.contains(&42));
    assert_eq!(framework.group.name, "General");
    assert_eq!(framework.group.commands, vec![Command::Ping]);
    assert_eq!(framework.group.commands[0].name(), "ping");
}

#[test]
fn general_group_holds_ping_only() {
    let group = CommandGroup::general();
    assert_eq!(group.name, "General");
    assert_eq!(group.commands, vec![Command::Ping]);
}

#[test]
fn ping_from_alice_is_logged_and_answered() {
    let actions = framework().dispatch(&message("!ping", "alice", 7));
    assert_eq!(actions.len(), 2);
    match &actions[0] {
        Action::Log { line } => {
            assert!(line.text.contains("ping"));
            assert!(line.text.contains("alice"));
            assert_eq!(line.text, "Got command 'ping' by user 'alice'");
            assert_eq!(line.level, Level::Info);
        }
        other => panic!("expected a log line, got {:?}", other),
    }
    assert_eq!(actions[1], Action::Reply { channel_id: 7, content: "Pong!".to_string() });
}

#[test]
fn message_without_prefix_is_ignored() {
    assert_eq!(framework().dispatch(&message("ping", "alice", 7)), vec![]);
}

#[test]
fn unknown_command_is_ignored() {
    assert_eq!(framework().dispatch(&message("!pong", "alice", 7)), vec![]);
}

#[test]
fn near_misses_are_ignored() {
    let framework = framework();
    for content in [
        "", "!", "!!ping", "!Ping", "!PING", "! ping", " !ping", "!pin", "!pings", "?ping",
        "!ping!", "!pingpong", "!ping\u{200b}x", "!p ing", "ping !ping",
    ] {
        assert_eq!(framework.dispatch(&message(content, "bob", 1)), vec![], "{:?}", content);
        assert_eq!(framework.resolve(content), None, "{:?}", content);
        assert!(!framework.is_invoked(content, Command::Ping), "{:?}", content);
    }
}

#[test]
fn text_after_the_command_is_not_read() {
    let framework = framework();
    for content in
        ["!ping ", "!ping now", "!ping\tx", "!ping\nsecond line", "!ping\u{3000}x", "!ping  !pong"]
    {
        assert_eq!(framework.resolve(content), Some(Command::Ping), "{:?}", content);
        assert!(framework.is_invoked(content, Command::Ping), "{:?}", content);
        assert_eq!(
            framework.dispatch(&message(content, "bob", 5)),
            vec![
                Action::Log {
                    line: LogLine {
                        level: Level::Info,
                        text: "Got command 'ping' by user 'bob'".to_string(),
                    },
                },
                Action::Reply { channel_id: 5, content: "Pong!".to_string() },
            ],
            "{:?}",
            content
        );
    }
}

#[test]
fn hook_runs_once_and_before_the_command() {
    let actions = framework().dispatch(&message("!ping", "alice", 7));
    let logs: Vec<usize> = actions
        .iter()
        .enumerate()
        .filter(|(_, a)| matches!(a, Action::Log { .. }))
        .map(|(i, _)| i)
        .collect();
    let replies: Vec<usize> = actions
        .iter()
        .enumerate()
        .filter(|(_, a)| matches!(a, Action::Reply { .. }))
        .map(|(i, _)| i)
        .collect();
    assert_eq!(logs, vec![0]);
    assert_eq!(replies, vec![1]);
}

#[test]
fn resolve_finds_ping() {
    assert_eq!(framework().resolve("!ping"), Some(Command::Ping));
}

#[test]
fn resolve_follows_the_table() {
    let mut framework = framework();
    framework.prefix = "~~".to_string();
    assert_eq!(framework.resolve("~~ping"), Some(Command::Ping));
    assert_eq!(framework.resolve("!ping"), None);
    framework.group.commands.clear();
    assert_eq!(framework.resolve("~~ping"), None);
    assert_eq!(framework.dispatch(&message("~~ping", "alice", 7)), vec![]);
}

#[test]
fn reply_goes_to_the_originating_channel() {
    for channel_id in [0u64, 1, 99, u64::MAX] {
        let actions = framework().dispatch(&message("!ping", "carol", channel_id));
        let replies: Vec<&Action> =
            actions.iter().filter(|a| matches!(a, Action::Reply { .. })).collect();
        assert_eq!(replies.len(), 1);
        assert_eq!(*replies[0], Action::Reply { channel_id, content: "Pong!".to_string() });
    }
}

#[test]
fn dispatch_leaves_framework_and_message_unchanged() {
    let framework = framework();
    let msg = message("!ping", "alice", 7);
    let first = framework.dispatch(&msg);
    let second = framework.dispatch(&msg);
    assert_eq!(first, second);
    assert_eq!(msg.content, "!ping");
    assert_eq!(framework.prefix, "!");
}

#[test]
fn before_always_permits() {
    for (name, author) in [("ping", "alice"), ("", ""), ("anything", "bob's"), ("ping", "žofie")] {
        let (line, permit) = before(&message("whatever", author, 3), name);
        assert!(permit);
        assert_eq!(line.level, Level::Info);
        assert_eq!(line.text, format!("Got command '{}' by user '{}'", name, author));
    }
}

#[test]
fn ping_replies_once() {
    assert_eq!(
        ping(&message("!ping", "alice", 12)),
        Action::Reply { channel_id: 12, content: "Pong!".to_string() }
    );
    assert_eq!(
        run(Command::Ping, &message("!ping", "alice", 13)),
        Action::Reply { channel_id: 13, content: "Pong!".to_string() }
    );
}
