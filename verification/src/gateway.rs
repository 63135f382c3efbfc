use vstd::prelude::*;

use crate::types::{FullMessage, MemberId, Message, MessageEvent, PartialMessage, SystemEvent,
    UserId};

verus! {

/// One event a member's gateway session yields, reduced to what the
/// listener reads of it.
pub enum GatewayEvent {
    /// The session is ready and the bot's own account id is known.
    Ready { user_id: UserId },
    MessageCreate(FullMessage),
    MessageUpdate(PartialMessage),
    /// A session error; a fatal one ends the listener.
    Error { fatal: bool, text: String },
    /// Anything else; ignored.
    Other,
}

/// What the listener does with one gateway event.
pub struct ListenerStep {
    /// Events for the manager's system loop.
    pub to_system: Vec<SystemEvent>,
    /// A message observation for the aggregator.
    pub to_aggregator: Option<MessageEvent>,
    /// Whether the listener keeps running.
    pub keep_listening: bool,
}

/// Decides what one gateway event becomes. A ready event reports the
/// connection with the bot's account id. A created message counts only
/// when the reference user wrote it. An update counts only when the
/// reference user wrote it and it carries both an edit time and content;
/// anything less is dropped. An error is reported, and a fatal one also
/// reports the closure and ends the listener.
pub fn classify_gateway_event(
    member_id: MemberId,
    reference_user_id: UserId,
    event: GatewayEvent,
) -> (r: ListenerStep)
    ensures
        (match event {
            GatewayEvent::Ready { user_id } => {
                &&& r.to_system@ =~= seq![SystemEvent::GatewayConnected(member_id, user_id)]
                &&& r.to_aggregator is None
                &&& r.keep_listening
            },
            GatewayEvent::MessageCreate(m) => {
                &&& r.to_system@ =~= Seq::<SystemEvent>::empty()
                &&& (if m.author_id == reference_user_id {
                    r.to_aggregator matches Some(ev) && ev.0 == m.timestamp && (ev.1
                        matches Message::Complete(m2, o) && m2 == m && o == member_id)
                } else {
                    r.to_aggregator is None
                })
                &&& r.keep_listening
            },
            GatewayEvent::MessageUpdate(p) => {
                &&& r.to_system@ =~= Seq::<SystemEvent>::empty()
                &&& (if p.author_id == Some(reference_user_id) && (p.edited_timestamp
                    matches Some(et)) && p.content is Some {
                    r.to_aggregator matches Some(ev) && Some(ev.0) == p.edited_timestamp && (ev.1
                        matches Message::Partial(p2, o) && p2 == p && o == member_id)
                } else {
                    r.to_aggregator is None
                })
                &&& r.keep_listening
            },
            GatewayEvent::Error { fatal, text } => {
                &&& (if fatal {
                    r.to_system@ =~= seq![
                        SystemEvent::GatewayError(member_id, text),
                        SystemEvent::GatewayClosed(member_id),
                    ]
                } else {
                    r.to_system@ =~= seq![SystemEvent::GatewayError(member_id, text)]
                })
                &&& r.to_aggregator is None
                &&& r.keep_listening == !fatal
            },
            GatewayEvent::Other => {
                &&& r.to_system@ =~= Seq::<SystemEvent>::empty()
                &&& r.to_aggregator is None
                &&& r.keep_listening
            },
        }),
{
    match event {
        GatewayEvent::Ready { user_id } => {
            let mut to_system: Vec<SystemEvent> = Vec::new();
            to_system.push(SystemEvent::GatewayConnected(member_id, user_id));
            ListenerStep { to_system, to_aggregator: None, keep_listening: true }
        },
        GatewayEvent::MessageCreate(m) => {
            if m.author_id == reference_user_id {
                let ts = m.timestamp;
                ListenerStep {
                    to_system: Vec::new(),
                    to_aggregator: Some((ts, Message::Complete(m, member_id))),
                    keep_listening: true,
                }
            } else {
                ListenerStep { to_system: Vec::new(), to_aggregator: None, keep_listening: true }
            }
        },
        GatewayEvent::MessageUpdate(p) => {
            let authored = match p.author_id {
                Some(a) => a == reference_user_id,
                None => false,
            };
            let et = match p.edited_timestamp {
                Some(t) => Some(t),
                None => None,
            };
            if authored && et.is_some() && p.content.is_some() {
                let ts = match et {
                    Some(t) => t,
                    None => 0,
                };
                ListenerStep {
                    to_system: Vec::new(),
                    to_aggregator: Some((ts, Message::Partial(p, member_id))),
                    keep_listening: true,
                }
            } else {
                ListenerStep { to_system: Vec::new(), to_aggregator: None, keep_listening: true }
            }
        },
        GatewayEvent::Error { fatal, text } => {
            let mut to_system: Vec<SystemEvent> = Vec::new();
            to_system.push(SystemEvent::GatewayError(member_id, text));
            if fatal {
                to_system.push(SystemEvent::GatewayClosed(member_id));
            }
            ListenerStep { to_system, to_aggregator: None, keep_listening: !fatal }
        },
        GatewayEvent::Other => ListenerStep {
            to_system: Vec::new(),
            to_aggregator: None,
            keep_listening: true,
        },
    }
}

} // verus!
