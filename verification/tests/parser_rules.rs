use seance::config::{anchor_pattern, AutoproxyConfig, AutoproxyLatchScope, Member, System};
use seance::message_parser::{Command, MessageParser, ParsedMessage};
use seance::types::FullMessage;

fn msg(id: u64, channel: u64, author: u64, content: &str, ts: u64) -> FullMessage {
    FullMessage {
        id,
        channel_id: channel,
        author_id: author,
        content: content.to_string(),
        timestamp: ts,
        edited_timestamp: None,
        is_reply: false,
        referenced_message: None,
        mentioned_user_ids: vec![],
        mention_roles: vec![],
        mention_everyone: false,
        flags: None,
        attachments: vec![],
    }
}

fn member(name: &str, pattern: &str, user_id: Option<u64>) -> Member {
    Member {
        name: name.to_string(),
        message_pattern: anchor_pattern(pattern),
        discord_token: "token".to_string(),
        user_id,
        presence: None,
        status: None,
    }
}

fn latch_system() -> System {
    System {
        reference_user_id: "1".to_string(),
        members: vec![
            member("A", r"A:\s*(?P<content>.*)", Some(42)),
            member("B", r"B:\s*(?P<content>.*)", Some(43)),
        ],
        forward_pings: false,
        autoproxy: Some(AutoproxyConfig::Latch {
            scope: AutoproxyLatchScope::Global,
            timeout_seconds: 30,
            presence_indicator: true,
        }),
        pluralkit: None,
        ui_color: None,
    }
}

#[test]
fn prefix_match_extracts_content() {
    let sys = latch_system();
    let m = msg(1, 5, 1, "A: hello", 100);
    let parsed = MessageParser::parse(&m, None, &sys, None);
    match parsed {
        ParsedMessage::ProxiedMessage { member_id, message_content, latch } => {
            assert_eq!(member_id, 0);
            assert_eq!(message_content, "hello");
            assert!(latch);
        },
        _ => panic!("expected a proxied message"),
    }
}

#[test]
fn second_member_pattern_matches_too() {
    let sys = latch_system();
    let m = msg(1, 5, 1, "B: hi there", 100);
    let parsed = MessageParser::parse(&m, None, &sys, None);
    match parsed {
        ParsedMessage::ProxiedMessage { member_id, message_content, .. } => {
            assert_eq!(member_id, 1);
            assert_eq!(message_content, "hi there");
        },
        _ => panic!("expected a proxied message"),
    }
}

#[test]
fn escape_prefix_is_unproxied() {
    let sys = latch_system();
    let m = msg(1, 5, 1, r"\raw", 100);
    let parsed = MessageParser::parse(&m, None, &sys, Some((0, 50)));
    assert!(matches!(parsed, ParsedMessage::UnproxiedMessage));
}

#[test]
fn double_backslash_clears_latch() {
    let sys = latch_system();
    let m = msg(1, 5, 1, r"\\", 100);
    let parsed = MessageParser::parse(&m, None, &sys, Some((1, 50)));
    assert!(matches!(parsed, ParsedMessage::LatchClear(1)));
    let parsed = MessageParser::parse(&m, None, &sys, None);
    assert!(matches!(parsed, ParsedMessage::LatchClear(0)));
}

#[test]
fn empty_capture_sets_proxy_and_deletes() {
    let sys = latch_system();
    let m = msg(1, 5, 1, "A:", 100);
    let parsed = MessageParser::parse(&m, None, &sys, None);
    assert!(matches!(parsed, ParsedMessage::SetProxyAndDelete(0)));
}

#[test]
fn star_capture_asks_for_reproxy() {
    let sys = latch_system();
    let m = msg(1, 5, 1, "A: *", 100);
    let secondary = msg(9, 5, 42, "older", 90);
    let parsed = MessageParser::parse(&m, Some(&secondary), &sys, None);
    assert!(matches!(parsed, ParsedMessage::Command(Command::Reproxy(0, 9))));
    let parsed = MessageParser::parse(&m, None, &sys, None);
    assert!(matches!(parsed, ParsedMessage::Command(Command::InvalidCommand)));
}

#[test]
fn active_latch_proxies_plain_text() {
    let sys = latch_system();
    let m = msg(1, 5, 1, "hello", 100);
    let parsed = MessageParser::parse(&m, None, &sys, Some((1, 50)));
    match parsed {
        ParsedMessage::ProxiedMessage { member_id, message_content, latch } => {
            assert_eq!(member_id, 1);
            assert_eq!(message_content, "hello");
            assert!(latch);
        },
        _ => panic!("expected a proxied message"),
    }
}

#[test]
fn no_latch_no_match_is_unproxied() {
    let sys = latch_system();
    let m = msg(1, 5, 1, "hello", 100);
    let parsed = MessageParser::parse(&m, None, &sys, None);
    assert!(matches!(parsed, ParsedMessage::UnproxiedMessage));
}

#[test]
fn partial_cover_never_matches() {
    // A pattern that matches only part of the content must not count.
    let sys = System {
        members: vec![Member {
            name: "A".to_string(),
            message_pattern: r"(?P<content>h)".to_string(),
            discord_token: "token".to_string(),
            user_id: None,
            presence: None,
            status: None,
        }],
        ..latch_system()
    };
    let m = msg(1, 5, 1, "hello", 100);
    assert!(sys.members[0].matches_proxy_prefix(&m).is_none());
    let parsed = MessageParser::parse(&m, None, &sys, None);
    assert!(matches!(parsed, ParsedMessage::UnproxiedMessage));
}

#[test]
fn full_cover_matches() {
    let sys = latch_system();
    let m = msg(1, 5, 1, "a:  stuff", 100);
    // patterns are compiled case-insensitive
    let got = sys.members[0].matches_proxy_prefix(&m);
    assert_eq!(got, Some("stuff".to_string()));
}

#[test]
fn edit_command_parses_rest() {
    let sys = latch_system();
    let m = msg(1, 5, 1, "!edit new text", 100);
    let secondary = msg(9, 5, 42, "old", 90);
    let parsed = MessageParser::parse(&m, Some(&secondary), &sys, None);
    match parsed {
        ParsedMessage::Command(Command::Edit(member_id, target, rest)) => {
            assert_eq!(member_id, 0);
            assert_eq!(target, 9);
            assert_eq!(rest, "new text");
        },
        _ => panic!("expected an edit command"),
    }
}

#[test]
fn edit_without_rest_is_invalid() {
    let sys = latch_system();
    let m = msg(1, 5, 1, "!edit", 100);
    let secondary = msg(9, 5, 42, "old", 90);
    let parsed = MessageParser::parse(&m, Some(&secondary), &sys, None);
    assert!(matches!(parsed, ParsedMessage::Command(Command::InvalidCommand)));
}

#[test]
fn edit_of_foreign_message_is_invalid() {
    let sys = latch_system();
    let m = msg(1, 5, 1, "!edit text", 100);
    // author 7 is no bot of this system
    let secondary = msg(9, 5, 7, "old", 90);
    let parsed = MessageParser::parse(&m, Some(&secondary), &sys, None);
    assert!(matches!(parsed, ParsedMessage::Command(Command::InvalidCommand)));
}

#[test]
fn nick_command_resolves_mention() {
    let sys = latch_system();
    let m = msg(1, 5, 1, "!nick <@43> Moon", 100);
    let parsed = MessageParser::parse(&m, None, &sys, None);
    match parsed {
        ParsedMessage::Command(Command::Nick(member_id, rest)) => {
            assert_eq!(member_id, 1);
            assert_eq!(rest, "Moon");
        },
        _ => panic!("expected a nick command"),
    }
}

#[test]
fn nick_with_bad_mention_is_unknown() {
    let sys = latch_system();
    let m = msg(1, 5, 1, "!nick nobody here", 100);
    let parsed = MessageParser::parse(&m, None, &sys, None);
    assert!(matches!(parsed, ParsedMessage::Command(Command::UnknownCommand)));
}

#[test]
fn reproxy_command_resolves_mention() {
    let sys = latch_system();
    let m = msg(1, 5, 1, "!reproxy <@43>", 100);
    let secondary = msg(9, 5, 42, "old", 90);
    let parsed = MessageParser::parse(&m, Some(&secondary), &sys, None);
    assert!(matches!(parsed, ParsedMessage::Command(Command::Reproxy(1, 9))));
}

#[test]
fn sed_command_substitutes_first_match() {
    let sys = latch_system();
    let m = msg(1, 5, 1, "!s/world/there/", 100);
    let secondary = msg(9, 5, 42, "hello world", 90);
    let parsed = MessageParser::parse(&m, Some(&secondary), &sys, None);
    match parsed {
        ParsedMessage::Command(Command::Edit(member_id, target, rest)) => {
            assert_eq!(member_id, 0);
            assert_eq!(target, 9);
            assert_eq!(rest, "hello there");
        },
        _ => panic!("expected an edit command"),
    }
}

#[test]
fn sed_global_flag_substitutes_everywhere() {
    let sys = latch_system();
    let m = msg(1, 5, 1, "!s/l/L/g", 100);
    let secondary = msg(9, 5, 42, "hello world", 90);
    let parsed = MessageParser::parse(&m, Some(&secondary), &sys, None);
    match parsed {
        ParsedMessage::Command(Command::Edit(_, _, rest)) => {
            assert_eq!(rest, "heLLo worLd");
        },
        _ => panic!("expected an edit command"),
    }
}

#[test]
fn sed_unknown_flag_is_invalid() {
    let sys = latch_system();
    let m = msg(1, 5, 1, "!s/a/b/q", 100);
    let secondary = msg(9, 5, 42, "aaa", 90);
    let parsed = MessageParser::parse(&m, Some(&secondary), &sys, None);
    assert!(matches!(parsed, ParsedMessage::Command(Command::InvalidCommand)));
}

#[test]
fn sed_with_wrong_part_count_is_invalid() {
    let sys = latch_system();
    let m = msg(1, 5, 1, "!something", 100);
    let secondary = msg(9, 5, 42, "aaa", 90);
    let parsed = MessageParser::parse(&m, Some(&secondary), &sys, None);
    assert!(matches!(parsed, ParsedMessage::Command(Command::InvalidCommand)));
}

#[test]
fn unknown_command_word() {
    let sys = latch_system();
    let m = msg(1, 5, 1, "!frobnicate now", 100);
    let parsed = MessageParser::parse(&m, None, &sys, None);
    assert!(matches!(parsed, ParsedMessage::Command(Command::UnknownCommand)));
}

#[test]
fn bare_bang_is_unknown() {
    let sys = latch_system();
    let m = msg(1, 5, 1, "!", 100);
    let parsed = MessageParser::parse(&m, None, &sys, None);
    assert!(matches!(parsed, ParsedMessage::Command(Command::UnknownCommand)));
}

#[test]
fn member_lookup_by_user_id() {
    let sys = latch_system();
    assert_eq!(MessageParser::get_member_id_from_user_id(42, &sys), Some(0));
    assert_eq!(MessageParser::get_member_id_from_user_id(43, &sys), Some(1));
    assert_eq!(MessageParser::get_member_id_from_user_id(7, &sys), None);
}

#[test]
fn empty_content_is_unproxied() {
    let sys = latch_system();
    let m = msg(1, 5, 1, "", 100);
    let parsed = MessageParser::parse(&m, None, &sys, None);
    assert!(matches!(parsed, ParsedMessage::UnproxiedMessage));
}

#[test]
fn empty_content_with_latch_is_proxied_empty() {
    let sys = latch_system();
    let m = msg(1, 5, 1, "", 100);
    let parsed = MessageParser::parse(&m, None, &sys, Some((0, 50)));
    match parsed {
        ParsedMessage::ProxiedMessage { member_id, message_content, .. } => {
            assert_eq!(member_id, 0);
            assert_eq!(message_content, "");
        },
        _ => panic!("expected a proxied message"),
    }
}
