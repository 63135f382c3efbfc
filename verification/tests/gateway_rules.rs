use seance::gateway::{classify_gateway_event, GatewayEvent};
use seance::proxy::{build_duplicate_draft, MessageDraft, MessageDuplicateError};
use seance::types::{AttachmentInfo, FullMessage, Message, PartialMessage, SystemEvent};

fn msg(id: u64, channel: u64, author: u64, content: &str, ts: u64) -> FullMessage {
    FullMessage {
        id,
        channel_id: channel,
        author_id: author,
        content: content.to_string(),
        timestamp: ts,
        edited_timestamp: None,
        is_reply: false,
        referenced_message: None,
        mentioned_user_ids: vec![],
        mention_roles: vec![],
        mention_everyone: false,
        flags: None,
        attachments: vec![],
    }
}

#[test]
fn ready_reports_the_connection() {
    let step = classify_gateway_event(1, 7, GatewayEvent::Ready { user_id: 42 });
    assert_eq!(step.to_system.len(), 1);
    assert!(matches!(step.to_system[0], SystemEvent::GatewayConnected(1, 42)));
    assert!(step.to_aggregator.is_none());
    assert!(step.keep_listening);
}

#[test]
fn foreign_messages_are_dropped() {
    let step = classify_gateway_event(0, 7, GatewayEvent::MessageCreate(msg(1, 5, 9, "x", 100)));
    assert!(step.to_aggregator.is_none());
    assert!(step.keep_listening);
}

#[test]
fn reference_user_messages_go_to_the_aggregator() {
    let step = classify_gateway_event(0, 7, GatewayEvent::MessageCreate(msg(1, 5, 7, "x", 100)));
    match step.to_aggregator {
        Some((ts, Message::Complete(m, observer))) => {
            assert_eq!(ts, 100);
            assert_eq!(m.id, 1);
            assert_eq!(observer, 0);
        },
        _ => panic!("expected a complete observation"),
    }
}

#[test]
fn updates_without_edit_time_or_content_are_dropped() {
    let p = PartialMessage {
        id: 1,
        channel_id: 5,
        author_id: Some(7),
        content: None,
        edited_timestamp: Some(200),
    };
    let step = classify_gateway_event(0, 7, GatewayEvent::MessageUpdate(p));
    assert!(step.to_aggregator.is_none());

    let p = PartialMessage {
        id: 1,
        channel_id: 5,
        author_id: Some(7),
        content: Some("x".to_string()),
        edited_timestamp: None,
    };
    let step = classify_gateway_event(0, 7, GatewayEvent::MessageUpdate(p));
    assert!(step.to_aggregator.is_none());

    let p = PartialMessage {
        id: 1,
        channel_id: 5,
        author_id: Some(9),
        content: Some("x".to_string()),
        edited_timestamp: Some(200),
    };
    let step = classify_gateway_event(0, 7, GatewayEvent::MessageUpdate(p));
    assert!(step.to_aggregator.is_none());
}

#[test]
fn complete_updates_go_to_the_aggregator() {
    let p = PartialMessage {
        id: 1,
        channel_id: 5,
        author_id: Some(7),
        content: Some("new".to_string()),
        edited_timestamp: Some(200),
    };
    let step = classify_gateway_event(0, 7, GatewayEvent::MessageUpdate(p));
    match step.to_aggregator {
        Some((ts, Message::Partial(p, observer))) => {
            assert_eq!(ts, 200);
            assert_eq!(p.id, 1);
            assert_eq!(observer, 0);
        },
        _ => panic!("expected a partial observation"),
    }
}

#[test]
fn fatal_errors_close_the_listener() {
    let step = classify_gateway_event(
        2,
        7,
        GatewayEvent::Error { fatal: true, text: "boom".to_string() },
    );
    assert_eq!(step.to_system.len(), 2);
    assert!(matches!(step.to_system[0], SystemEvent::GatewayError(2, _)));
    assert!(matches!(step.to_system[1], SystemEvent::GatewayClosed(2)));
    assert!(!step.keep_listening);

    let step = classify_gateway_event(
        2,
        7,
        GatewayEvent::Error { fatal: false, text: "hiccup".to_string() },
    );
    assert_eq!(step.to_system.len(), 1);
    assert!(step.keep_listening);
}

#[test]
fn duplicate_draft_preserves_the_source() {
    let referenced = msg(3, 5, 11, "parent", 50);
    let source = FullMessage {
        is_reply: true,
        referenced_message: Some(Box::new(referenced)),
        mentioned_user_ids: vec![11, 12],
        mention_roles: vec![77],
        mention_everyone: true,
        flags: Some(4),
        attachments: vec![AttachmentInfo {
            id: 900,
            filename: "cat.png".to_string(),
            description: Some("a cat".to_string()),
            proxy_url: "https://example.invalid/cat.png".to_string(),
        }],
        ..msg(1, 5, 7, "A: hi", 100)
    };
    let draft = build_duplicate_draft(&source, "hi").expect("draft");
    assert_eq!(draft.channel_id, 5);
    assert_eq!(draft.content, "hi");
    assert_eq!(draft.reply_to, Some(3));
    // the source mentions the replied author, so the reply pings
    assert!(draft.reply_ping);
    assert_eq!(draft.role_mentions, vec![77]);
    assert_eq!(draft.user_mentions, vec![11, 12]);
    assert!(draft.mention_everyone);
    assert_eq!(draft.flags, Some(4));
    assert_eq!(draft.attachments.len(), 1);
    assert_eq!(draft.attachments[0].filename, "cat.png");
    assert_eq!(draft.attachments[0].description.as_deref(), Some("a cat"));
}

#[test]
fn duplicate_draft_does_not_ping_unmentioned_author() {
    let referenced = msg(3, 5, 11, "parent", 50);
    let source = FullMessage {
        is_reply: true,
        referenced_message: Some(Box::new(referenced)),
        mentioned_user_ids: vec![12],
        ..msg(1, 5, 7, "A: hi", 100)
    };
    let draft = build_duplicate_draft(&source, "hi").expect("draft");
    assert!(!draft.reply_ping);
}

#[test]
fn duplicate_draft_rejects_overlong_content() {
    let source = msg(1, 5, 7, "A: hi", 100);
    let long = "x".repeat(2001);
    assert!(build_duplicate_draft(&source, &long).is_err());
    let edge = "x".repeat(2000);
    let draft: MessageDraft = build_duplicate_draft(&source, &edge).expect("draft");
    assert_eq!(draft.content.len(), 2000);
}

#[test]
fn overlong_draft_fails_with_validation_error() {
    let source = msg(1, 5, 7, "A: hi", 100);
    let long = "y".repeat(2500);
    match build_duplicate_draft(&source, &long) {
        Err(MessageDuplicateError::MessageValidation) => {},
        _ => panic!("expected the validation error"),
    }
}
