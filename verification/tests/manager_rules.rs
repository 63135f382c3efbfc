use seance::config::{anchor_pattern, AutoproxyConfig, AutoproxyLatchScope, Member, System};
use seance::manager::{Action, Dispatch, Manager, Reaction, SecondaryLookup};
use seance::manager::delete_failure_reaction;
use seance::message_parser::{Command, MessageParser, ParsedMessage};
use seance::proxy::{MessageDuplicateError, ProxyStage, ProxyStep};
use seance::types::{FullMessage, Status};

fn msg(id: u64, channel: u64, author: u64, content: &str, ts: u64) -> FullMessage {
    FullMessage {
        id,
        channel_id: channel,
        author_id: author,
        content: content.to_string(),
        timestamp: ts,
        edited_timestamp: None,
        is_reply: false,
        referenced_message: None,
        mentioned_user_ids: vec![],
        mention_roles: vec![],
        mention_everyone: false,
        flags: None,
        attachments: vec![],
    }
}

fn member(name: &str, pattern: &str) -> Member {
    Member {
        name: name.to_string(),
        message_pattern: anchor_pattern(pattern),
        discord_token: "token".to_string(),
        user_id: None,
        presence: None,
        status: None,
    }
}

fn latch_system() -> System {
    System {
        reference_user_id: "1".to_string(),
        members: vec![
            member("A", r"A:\s*(?P<content>.*)"),
            member("B", r"B:\s*(?P<content>.*)"),
        ],
        forward_pings: false,
        autoproxy: Some(AutoproxyConfig::Latch {
            scope: AutoproxyLatchScope::Global,
            timeout_seconds: 30,
            presence_indicator: true,
        }),
        pluralkit: None,
        ui_color: None,
    }
}

fn manager() -> Manager {
    let mut m = Manager::new("sys".to_string(), latch_system()).expect("manager");
    m.on_gateway_connected(0, 42);
    m.on_gateway_connected(1, 43);
    m
}

#[test]
fn manager_new_rejects_bad_reference_ids() {
    let mut sys = latch_system();
    sys.reference_user_id = "abc".to_string();
    assert!(Manager::new("sys".to_string(), sys).is_none());
    let mut sys = latch_system();
    sys.reference_user_id = "0".to_string();
    assert!(Manager::new("sys".to_string(), sys).is_none());
    assert!(Manager::new("sys".to_string(), latch_system()).is_some());
}

#[test]
fn simple_prefix_proxy_runs_the_protocol() {
    // a reference-user message "A: hello" is re-sent as member A, the
    // source deleted, the send cache updated and the latch set
    let mut mgr = manager();
    let m = msg(1, 5, 1, "A: hello", 100);
    let parsed = MessageParser::parse(&m, None, &mgr.config, mgr.latch_state);
    let dispatch = mgr.dispatch(&m, 100, parsed, None);
    let (draft, mut flow, ctx) = match dispatch {
        Dispatch::StartProxy { draft, flow, ctx } => (draft, flow, ctx),
        _ => panic!("expected the proxy protocol to start"),
    };
    assert_eq!(draft.content, "hello");
    assert_eq!(draft.channel_id, 5);
    assert!(ctx.latch);

    let dup = msg(999, 5, 42, "hello", 101);
    let step = flow.on_duplicate_result(Ok(dup));
    match step {
        ProxyStep::DeleteSource { member, channel, message } => {
            assert_eq!(member, 0);
            assert_eq!(channel, 5);
            assert_eq!(message, 1);
        },
        _ => panic!("expected the source delete"),
    }
    let (flow, step) = flow.on_source_delete_result(true);
    assert!(matches!(step, ProxyStep::Finished));
    assert!(matches!(flow.stage, ProxyStage::Committed { .. }));

    let actions = mgr.proxy_concluded(flow, ctx);
    assert!(matches!(mgr.latch_state, Some((0, 100))));
    assert_eq!(actions.len(), 2);
    assert!(matches!(
        actions[0],
        Action::ScheduleTimeout { seconds: 30, scheduled_for: 100 }
    ));
    assert!(matches!(
        actions[1],
        Action::SetStatus { member: 1, status: Status::Invisible }
    ));

    // the duplicate is now the channel's last proxied message
    let lookup = mgr.resolve_secondary(&msg(2, 5, 1, "next", 200));
    match lookup {
        SecondaryLookup::Cached(cached) => assert_eq!(cached.id, 999),
        _ => panic!("expected the send cache to answer"),
    }
}

#[test]
fn escape_does_nothing() {
    let mut mgr = manager();
    let m = msg(1, 5, 1, r"\raw", 100);
    let parsed = MessageParser::parse(&m, None, &mgr.config, mgr.latch_state);
    let dispatch = mgr.dispatch(&m, 100, parsed, None);
    match dispatch {
        Dispatch::Actions(v) => assert!(v.is_empty()),
        _ => panic!("expected no work"),
    }
    assert!(mgr.latch_state.is_none());
}

#[test]
fn hard_latch_clear_deletes_and_goes_invisible() {
    let mut mgr = manager();
    mgr.latch_state = Some((0, 50));
    let m = msg(1, 5, 1, r"\\", 100);
    let parsed = MessageParser::parse(&m, None, &mgr.config, mgr.latch_state);
    let dispatch = mgr.dispatch(&m, 100, parsed, None);
    let actions = match dispatch {
        Dispatch::Actions(v) => v,
        _ => panic!("expected plain actions"),
    };
    assert!(mgr.latch_state.is_none());
    assert_eq!(actions.len(), 3);
    assert!(matches!(
        actions[0],
        Action::DeleteMessage { member: 0, channel: 5, message: 1 }
    ));
    assert!(matches!(
        actions[1],
        Action::SetStatus { member: 0, status: Status::Invisible }
    ));
    assert!(matches!(
        actions[2],
        Action::SetStatus { member: 1, status: Status::Invisible }
    ));
}

#[test]
fn latch_timeout_supersession() {
    let mut mgr = manager();
    // proxy as A at t=0: latch (A, 0), timer for t+30 carrying 0
    let timer = mgr.update_autoproxy_state_after_message(0, 0);
    assert!(matches!(
        timer,
        Some(Action::ScheduleTimeout { seconds: 30, scheduled_for: 0 })
    ));
    // proxy as A again at t=20: latch (A, 20), timer carrying 20
    let timer = mgr.update_autoproxy_state_after_message(0, 20);
    assert!(matches!(
        timer,
        Some(Action::ScheduleTimeout { seconds: 30, scheduled_for: 20 })
    ));
    // the first timer fires with 0: superseded, nothing happens
    let actions = mgr.on_autoproxy_timeout(0);
    assert!(actions.is_empty());
    assert!(matches!(mgr.latch_state, Some((0, 20))));
    // the second fires with 20: the latch clears
    let actions = mgr.on_autoproxy_timeout(20);
    assert!(mgr.latch_state.is_none());
    assert_eq!(actions.len(), 2);
    // a late duplicate of the second timer finds nothing to clear
    let actions = mgr.on_autoproxy_timeout(20);
    assert!(actions.is_empty());
    assert!(mgr.latch_state.is_none());
}

#[test]
fn sed_edit_refreshes_send_cache() {
    let mut mgr = manager();
    // the send cache holds message 7 with "hello world", authored by bot A
    let cached = msg(7, 5, 42, "hello world", 90);
    let picked = mgr.accept_recent_messages(5, &vec![cached]);
    assert!(picked.is_some());

    let m = msg(1, 5, 1, "!s/world/there/", 100);
    let lookup = mgr.resolve_secondary(&m);
    let secondary = match lookup {
        SecondaryLookup::Cached(s) => s,
        _ => panic!("expected the cached message"),
    };
    let parsed = MessageParser::parse(&m, Some(&secondary), &mgr.config, mgr.latch_state);
    let dispatch = mgr.dispatch(&m, 100, parsed, Some(&secondary));
    let flow = match dispatch {
        Dispatch::StartEdit { flow } => flow,
        _ => panic!("expected an edit to start"),
    };
    assert_eq!(flow.member, 0);
    assert_eq!(flow.target, 7);
    assert_eq!(flow.new_content, "hello there");

    // the service answers with the edited message
    let edited = msg(7, 5, 42, "hello there", 90);
    let actions = mgr.edit_concluded(flow, Some(edited));
    assert_eq!(actions.len(), 1);
    assert!(matches!(
        actions[0],
        Action::DeleteMessage { member: 0, channel: 5, message: 1 }
    ));

    // the cache now answers with the edited message
    let lookup = mgr.resolve_secondary(&msg(2, 5, 1, "x", 200));
    match lookup {
        SecondaryLookup::Cached(s) => assert_eq!(s.content, "hello there"),
        _ => panic!("expected the cached message"),
    }
}

#[test]
fn edit_of_other_message_leaves_cache_alone() {
    let mut mgr = manager();
    let cached = msg(7, 5, 42, "hello world", 90);
    mgr.accept_recent_messages(5, &vec![cached]);

    let m = msg(1, 5, 1, "!edit replaced", 100);
    let secondary = msg(8, 5, 42, "other", 95);
    let parsed = MessageParser::parse(&m, Some(&secondary), &mgr.config, mgr.latch_state);
    let dispatch = mgr.dispatch(&m, 100, parsed, Some(&secondary));
    let flow = match dispatch {
        Dispatch::StartEdit { flow } => flow,
        _ => panic!("expected an edit to start"),
    };
    // the edited message (8) is not the cache's entry (7)
    let edited = msg(8, 5, 42, "replaced", 95);
    mgr.edit_concluded(flow, Some(edited));
    let lookup = mgr.resolve_secondary(&msg(2, 5, 1, "x", 200));
    match lookup {
        SecondaryLookup::Cached(s) => assert_eq!(s.id, 7),
        _ => panic!("expected the cached message"),
    }
}

#[test]
fn reproxy_moves_the_message_to_the_other_member() {
    let mut mgr = manager();
    // message 7 was proxied by A; the command asks B to take it over
    let original = msg(7, 5, 42, "the text", 90);
    mgr.accept_recent_messages(5, &vec![original]);

    let m = msg(1, 5, 1, "!reproxy <@43>", 100);
    let lookup = mgr.resolve_secondary(&m);
    let secondary = match lookup {
        SecondaryLookup::Cached(s) => s,
        _ => panic!("expected the cached message"),
    };
    let parsed = MessageParser::parse(&m, Some(&secondary), &mgr.config, mgr.latch_state);
    assert!(matches!(parsed, ParsedMessage::Command(Command::Reproxy(1, 7))));
    let dispatch = mgr.dispatch(&m, 100, parsed, Some(&secondary));
    let (draft, mut flow, ctx) = match dispatch {
        Dispatch::StartProxy { draft, flow, ctx } => (draft, flow, ctx),
        _ => panic!("expected the proxy protocol to start"),
    };
    assert_eq!(draft.content, "the text");
    assert_eq!(flow.member, 1);
    assert_eq!(flow.source_id, 7);
    assert_eq!(ctx.delete_command, Some((1, 5, 1)));

    let dup = msg(1000, 5, 43, "the text", 101);
    flow.on_duplicate_result(Ok(dup));
    let (flow, _) = flow.on_source_delete_result(true);
    let actions = mgr.proxy_concluded(flow, ctx);
    assert!(matches!(mgr.latch_state, Some((1, 100))));
    // timer, presence for B online and A invisible suppressed/sent, then
    // the command message is deleted last
    assert!(matches!(
        actions[0],
        Action::ScheduleTimeout { seconds: 30, scheduled_for: 100 }
    ));
    assert!(matches!(
        actions.last(),
        Some(Action::DeleteMessage { member: 1, channel: 5, message: 1 })
    ));
    // A's bot goes invisible; B's stays online (start state)
    assert!(actions.iter().any(|a| matches!(
        a,
        Action::SetStatus { member: 0, status: Status::Invisible }
    )));
}

#[test]
fn reproxy_under_same_member_only_deletes_the_command() {
    let mut mgr = manager();
    let original = msg(7, 5, 43, "the text", 90);
    mgr.accept_recent_messages(5, &vec![original]);
    let m = msg(1, 5, 1, "!reproxy <@43>", 100);
    let lookup = mgr.resolve_secondary(&m);
    let secondary = match lookup {
        SecondaryLookup::Cached(s) => s,
        _ => panic!("expected the cached message"),
    };
    let parsed = MessageParser::parse(&m, Some(&secondary), &mgr.config, mgr.latch_state);
    let dispatch = mgr.dispatch(&m, 100, parsed, Some(&secondary));
    match dispatch {
        Dispatch::Actions(v) => {
            assert_eq!(v.len(), 1);
            assert!(matches!(
                v[0],
                Action::DeleteMessage { member: 1, channel: 5, message: 1 }
            ));
        },
        _ => panic!("expected only the command delete"),
    }
}

#[test]
fn reproxy_of_wrong_target_reacts_interrobang() {
    let mut mgr = manager();
    let m = msg(1, 5, 1, "!reproxy <@43>", 100);
    // the secondary is not the message the command was parsed against
    let secondary = msg(8, 5, 42, "other", 95);
    let dispatch = mgr.dispatch(
        &m,
        100,
        ParsedMessage::Command(Command::Reproxy(1, 7)),
        Some(&secondary),
    );
    match dispatch {
        Dispatch::Actions(v) => {
            assert_eq!(v.len(), 1);
            assert!(matches!(
                v[0],
                Action::React { member: 1, channel: 5, message: 1, reaction: Reaction::Interrobang }
            ));
        },
        _ => panic!("expected a reaction"),
    }
}

#[test]
fn failed_delete_rolls_back_the_duplicate() {
    // bot A lacks the permission to delete the source: the duplicate is
    // taken back and the source reacted to with the padlock
    let mut mgr = manager();
    let m = msg(1, 5, 1, "A: hello", 100);
    let parsed = MessageParser::parse(&m, None, &mgr.config, mgr.latch_state);
    let dispatch = mgr.dispatch(&m, 100, parsed, None);
    let (_draft, mut flow, ctx) = match dispatch {
        Dispatch::StartProxy { draft, flow, ctx } => (draft, flow, ctx),
        _ => panic!("expected the proxy protocol to start"),
    };
    let dup = msg(999, 5, 42, "hello", 101);
    flow.on_duplicate_result(Ok(dup));
    let (mut flow, step) = flow.on_source_delete_result(false);
    match step {
        ProxyStep::RollbackDuplicate { member, channel, message } => {
            assert_eq!(member, 0);
            assert_eq!(channel, 5);
            assert_eq!(message, 999);
        },
        _ => panic!("expected the rollback"),
    }
    flow.on_rollback_done();
    assert!(matches!(flow.stage, ProxyStage::Failed));

    let actions = mgr.proxy_concluded(flow, ctx);
    assert!(actions.is_empty());
    assert!(mgr.latch_state.is_none());
    // the send cache was never touched
    assert!(matches!(
        mgr.resolve_secondary(&msg(2, 5, 1, "x", 200)),
        SecondaryLookup::NeedFetch
    ));

    // the permission code asks for the padlock reaction
    assert!(matches!(delete_failure_reaction(50013), Some(Reaction::Lock)));
    assert!(delete_failure_reaction(10008).is_none());
}

#[test]
fn failed_duplicate_changes_nothing() {
    let mut mgr = manager();
    let m = msg(1, 5, 1, "A: hello", 100);
    let parsed = MessageParser::parse(&m, None, &mgr.config, mgr.latch_state);
    let dispatch = mgr.dispatch(&m, 100, parsed, None);
    let (_draft, mut flow, ctx) = match dispatch {
        Dispatch::StartProxy { draft, flow, ctx } => (draft, flow, ctx),
        _ => panic!("expected the proxy protocol to start"),
    };
    let step = flow.on_duplicate_result(Err(MessageDuplicateError::MessageCreate));
    assert!(matches!(step, ProxyStep::Finished));
    assert!(matches!(flow.stage, ProxyStage::Failed));
    let actions = mgr.proxy_concluded(flow, ctx);
    assert!(actions.is_empty());
    assert!(mgr.latch_state.is_none());
}

#[test]
fn overlong_content_is_rejected_before_any_call() {
    let mut mgr = manager();
    let long = "x".repeat(2001);
    let m = msg(1, 5, 1, &format!("A: {long}"), 100);
    let parsed = MessageParser::parse(&m, None, &mgr.config, mgr.latch_state);
    let dispatch = mgr.dispatch(&m, 100, parsed, None);
    match dispatch {
        Dispatch::Actions(v) => assert!(v.is_empty()),
        _ => panic!("expected the proxy to be aborted"),
    }
}

#[test]
fn unknown_command_reacts_interrobang() {
    let mut mgr = manager();
    let m = msg(1, 5, 1, "!frobnicate", 100);
    let parsed = MessageParser::parse(&m, None, &mgr.config, mgr.latch_state);
    let dispatch = mgr.dispatch(&m, 100, parsed, None);
    match dispatch {
        Dispatch::Actions(v) => {
            assert_eq!(v.len(), 1);
            assert!(matches!(
                v[0],
                Action::React { member: 0, channel: 5, message: 1, reaction: Reaction::Interrobang }
            ));
        },
        _ => panic!("expected a reaction"),
    }
}

#[test]
fn client_status_updates_are_suppressed_when_unchanged() {
    let mut mgr = manager();
    // bots start online; the first refresh sends invisible, a second
    // refresh with the same desire sends nothing
    let first = mgr.on_update_client_status(0);
    assert!(matches!(
        first,
        Some(Action::SetStatus { member: 0, status: Status::Invisible })
    ));
    let second = mgr.on_update_client_status(0);
    assert!(second.is_none());
}

#[test]
fn status_reconciliation_is_idempotent() {
    let mut mgr = manager();
    let first = mgr.update_status_of_system();
    assert_eq!(first.len(), 2);
    let second = mgr.update_status_of_system();
    assert!(second.is_empty());
}

#[test]
fn member_lookup_by_name_and_id() {
    let mgr = manager();
    assert_eq!(mgr.find_member_by_name(&"A".to_string()), Some(0));
    assert_eq!(mgr.find_member_by_name(&"B".to_string()), Some(1));
    assert_eq!(mgr.find_member_by_name(&"C".to_string()), None);
    assert_eq!(mgr.find_member_by_id(0).map(|m| m.name.clone()), Some("A".to_string()));
    assert!(mgr.find_member_by_id(2).is_none());
}

#[test]
fn recent_messages_pick_the_latest_bot_post() {
    let mut mgr = manager();
    let batch = vec![
        msg(10, 5, 42, "old", 50),
        msg(11, 5, 7, "stranger", 300),
        msg(12, 5, 43, "newer", 200),
    ];
    let picked = mgr.accept_recent_messages(5, &batch);
    assert_eq!(picked.map(|m| m.id), Some(12));
    // an all-stranger batch yields nothing and caches nothing
    let mut mgr = manager();
    let batch = vec![msg(11, 5, 7, "stranger", 300)];
    assert!(mgr.accept_recent_messages(5, &batch).is_none());
    assert!(matches!(
        mgr.resolve_secondary(&msg(2, 5, 1, "x", 400)),
        SecondaryLookup::NeedFetch
    ));
}
