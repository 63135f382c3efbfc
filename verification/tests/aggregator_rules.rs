use seance::aggregator::{AggregatorAction, MessageAggregator};
use seance::types::{FullMessage, Message, PartialMessage};

fn msg(id: u64, channel: u64, author: u64, content: &str, ts: u64) -> FullMessage {
    FullMessage {
        id,
        channel_id: channel,
        author_id: author,
        content: content.to_string(),
        timestamp: ts,
        edited_timestamp: None,
        is_reply: false,
        referenced_message: None,
        mentioned_user_ids: vec![],
        mention_roles: vec![],
        mention_everyone: false,
        flags: None,
        attachments: vec![],
    }
}

#[test]
fn first_observation_is_emitted() {
    let mut agg = MessageAggregator::new(2);
    let r = agg.handle_event(100, Message::Complete(msg(1, 5, 1, "hi", 100), 0));
    match r {
        AggregatorAction::Emit(ts, m, observer) => {
            assert_eq!(ts, 100);
            assert_eq!(m.id, 1);
            assert_eq!(observer, 0);
        },
        _ => panic!("expected an emission"),
    }
}

#[test]
fn cross_bot_duplicate_is_dropped() {
    let mut agg = MessageAggregator::new(2);
    let r = agg.handle_event(100, Message::Complete(msg(1, 5, 1, "hi", 100), 0));
    assert!(matches!(r, AggregatorAction::Emit(..)));
    // the same message seen by another bot: same effective timestamp
    let r = agg.handle_event(100, Message::Complete(msg(1, 5, 1, "hi", 100), 1));
    assert!(matches!(r, AggregatorAction::Ignore));
}

#[test]
fn newer_edit_is_emitted_stale_edit_is_dropped() {
    let mut agg = MessageAggregator::new(2);
    let r = agg.handle_event(100, Message::Complete(msg(1, 5, 1, "hi", 100), 0));
    assert!(matches!(r, AggregatorAction::Emit(..)));

    let mut edited = msg(1, 5, 1, "hi!", 100);
    edited.edited_timestamp = Some(200);
    let r = agg.handle_event(200, Message::Complete(edited, 1));
    match r {
        AggregatorAction::Emit(_, m, _) => assert_eq!(m.edited_timestamp, Some(200)),
        _ => panic!("expected the newer edit to be emitted"),
    }

    let mut stale = msg(1, 5, 1, "hi", 100);
    stale.edited_timestamp = Some(150);
    let r = agg.handle_event(150, Message::Complete(stale, 0));
    assert!(matches!(r, AggregatorAction::Ignore));
}

#[test]
fn partial_update_overlays_cached_message() {
    let mut agg = MessageAggregator::new(2);
    agg.handle_event(100, Message::Complete(msg(1, 5, 1, "hi", 100), 0));
    let p = PartialMessage {
        id: 1,
        channel_id: 5,
        author_id: Some(1),
        content: Some("hello".to_string()),
        edited_timestamp: Some(300),
    };
    // observed by another bot; the cached observer wins
    let r = agg.handle_event(300, Message::Partial(p, 1));
    match r {
        AggregatorAction::Resubmit(ts, Message::Complete(m, observer)) => {
            assert_eq!(ts, 300);
            assert_eq!(m.id, 1);
            assert_eq!(m.content, "hello");
            assert_eq!(m.edited_timestamp, Some(300));
            assert_eq!(m.timestamp, 100);
            assert_eq!(observer, 0);
        },
        _ => panic!("expected a resubmission"),
    }
}

#[test]
fn partial_update_without_cache_asks_for_refetch() {
    let mut agg = MessageAggregator::new(2);
    let p = PartialMessage {
        id: 9,
        channel_id: 5,
        author_id: Some(1),
        content: Some("x".to_string()),
        edited_timestamp: Some(300),
    };
    let r = agg.handle_event(300, Message::Partial(p, 1));
    match r {
        AggregatorAction::Refetch(observer, mid, cid) => {
            assert_eq!(observer, 1);
            assert_eq!(mid, 9);
            assert_eq!(cid, 5);
        },
        _ => panic!("expected a refetch request"),
    }
}

#[test]
fn effective_timestamps_of_emissions_increase() {
    let mut agg = MessageAggregator::new(2);
    let mut emitted = Vec::new();
    let inputs = vec![
        (100u64, 1u64, None),
        (100, 1, None),
        (200, 1, Some(200u64)),
        (150, 1, Some(150)),
        (250, 1, Some(250)),
    ];
    for (ts, id, edited) in inputs {
        let mut m = msg(id, 5, 1, "c", 100);
        m.edited_timestamp = edited;
        if let AggregatorAction::Emit(_, m, _) = agg.handle_event(ts, Message::Complete(m, 0)) {
            emitted.push(m.edited_timestamp.unwrap_or(m.timestamp));
        }
    }
    assert_eq!(emitted, vec![100, 200, 250]);
    for w in emitted.windows(2) {
        assert!(w[0] < w[1]);
    }
}
