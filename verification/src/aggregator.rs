use vstd::prelude::*;

use crate::cache::{dedup_cache_get, dedup_cache_new, dedup_cache_put, dedup_contents, dedup_empty,
    DedupCache};
use crate::types::{CachedMessage, CachedView, ChannelId, FullMessage, MemberId, Message,
    MessageId, MessageView, PartialMessage, Timestamp};

verus! {

/// What one aggregator step asks its surroundings to do.
pub enum AggregatorAction {
    /// Feed an overlaid complete message back into the aggregator's input.
    Resubmit(Timestamp, Message),
    /// Ask the manager to have the observer's bot refetch and resend.
    Refetch(MemberId, MessageId, ChannelId),
    /// Hand the canonical message to the manager as a new message.
    Emit(Timestamp, FullMessage, MemberId),
    /// A stale duplicate; nothing leaves the aggregator.
    Ignore,
}

/// A partial update laid over a cached message: its edit time and content
/// replace the cached ones where present.
pub open spec fn overlay(cached: MessageView, p: PartialMessage) -> MessageView {
    MessageView {
        content: (match p.content {
            Some(c) => c@,
            None => cached.content,
        }),
        edited_timestamp: (match p.edited_timestamp {
            Some(t) => Some(t),
            None => cached.edited_timestamp,
        }),
        ..cached
    }
}

/// How one complete-message step changes the dedup cache: a message no
/// newer than the cached one is dropped; a newer one replaces the entry
/// (possibly pushing out another id) and is emitted.
pub open spec fn complete_step(
    pre: Map<u64, CachedView>,
    post: Map<u64, CachedView>,
    m: MessageView,
    observer: MemberId,
    emitted: bool,
) -> bool {
    if pre.contains_key(m.id) && pre[m.id].message.effective_timestamp()
        >= m.effective_timestamp() {
        !emitted && post == pre
    } else {
        &&& emitted
        &&& post.contains_key(m.id)
        &&& post[m.id] == (CachedView { message: m, observer })
        &&& forall|k2: u64| #[trigger] post.contains_key(k2) ==> k2 == m.id || (pre.contains_key(k2)
            && post[k2] == pre[k2])
    }
}

/// The per-system event aggregator: collapses what several bots observe
/// of the same underlying message into one canonical event.
pub struct MessageAggregator {
    pub cache: DedupCache,
}

impl MessageAggregator {
    /// What the dedup cache holds, keyed by message id.
    pub open spec fn contents(&self) -> Map<u64, CachedView> {
        dedup_contents(self.cache)
    }

    /// A fresh aggregator for a system of the given size; its cache holds
    /// twice as many entries as there are members.
    pub fn new(system_size: usize) -> (r: MessageAggregator)
        requires
            1 <= system_size <= usize::MAX / 2,
        ensures
            r.contents() == dedup_empty(),
    {
        MessageAggregator { cache: dedup_cache_new(system_size * 2) }
    }

    /// One step of the aggregator loop.
    ///
    /// A partial update found in the cache is overlaid onto the cached
    /// message and resubmitted under the cached observer; one not found is
    /// turned into a refetch request. A complete message is dropped when
    /// the cache holds one with an effective timestamp at least as large
    /// (`complete_step`); otherwise it replaces the entry and is emitted.
    pub fn handle_event(&mut self, timestamp: Timestamp, message: Message) -> (r: AggregatorAction)
        ensures
            (match message {
                Message::Partial(p, observer) => {
                    &&& final(self).contents() == old(self).contents()
                    &&& (if old(self).contents().contains_key(p.id) {
                        r matches AggregatorAction::Resubmit(t, Message::Complete(m2, o2)) && t
                            == timestamp && o2 == old(self).contents()[p.id].observer && m2@
                            == overlay(old(self).contents()[p.id].message, p)
                    } else {
                        r == AggregatorAction::Refetch(observer, p.id, p.channel_id)
                    })
                },
                Message::Complete(m, observer) => {
                    &&& complete_step(
                        old(self).contents(),
                        final(self).contents(),
                        m@,
                        observer,
                        r matches AggregatorAction::Emit(_, _, _),
                    )
                    &&& (if old(self).contents().contains_key(m@.id) && old(
                        self,
                    ).contents()[m@.id].message.effective_timestamp() >= m@.effective_timestamp() {
                        r == AggregatorAction::Ignore
                    } else {
                        r matches AggregatorAction::Emit(t, m2, o2) && t == timestamp && m2@ == m@
                            && o2 == observer
                    })
                },
            }),
    {
        match message {
            Message::Partial(p, observer) => {
                match dedup_cache_get(&mut self.cache, p.id) {
                    Some(cached) => {
                        let CachedMessage { message: mut updated, observer: cached_observer } =
                            cached;
                        if let Some(t) = p.edited_timestamp {
                            updated.edited_timestamp = Some(t);
                        }
                        if let Some(content) = p.content {
                            updated.content = content;
                        }
                        proof {
                            assert(updated@ =~= overlay(
                                old(self).contents()[p.id].message,
                                PartialMessage { ..p },
                            ));
                        }
                        AggregatorAction::Resubmit(
                            timestamp,
                            Message::Complete(updated, cached_observer),
                        )
                    },
                    None => AggregatorAction::Refetch(observer, p.id, p.channel_id),
                }
            },
            Message::Complete(m, observer) => {
                let eff = m.effective_timestamp();
                let mid = m.id;
                let prev = dedup_cache_get(&mut self.cache, mid);
                if let Some(prev) = prev {
                    let prev_eff = prev.message.effective_timestamp();
                    if prev_eff >= eff {
                        return AggregatorAction::Ignore;
                    }
                }
                dedup_cache_put(
                    &mut self.cache,
                    mid,
                    CachedMessage { message: m.duplicate(), observer },
                );
                AggregatorAction::Emit(timestamp, m, observer)
            },
        }
    }
}

/// Dedup monotonicity: along a run of complete-message steps in which the
/// id under consideration is never pushed out of the cache, any two
/// emissions for that id carry strictly increasing effective timestamps.
pub proof fn lemma_dedup_monotonic(
    states: Seq<Map<u64, CachedView>>,
    msgs: Seq<MessageView>,
    observers: Seq<MemberId>,
    emits: Seq<bool>,
    id: u64,
    i: int,
    j: int,
)
    requires
        states.len() == msgs.len() + 1,
        observers.len() == msgs.len(),
        emits.len() == msgs.len(),
        forall|k: int| 0 <= k < msgs.len() ==> complete_step(
            #[trigger] states[k],
            states[k + 1],
            msgs[k],
            observers[k],
            emits[k],
        ),
        forall|k: int| 0 <= k < msgs.len() ==> (#[trigger] states[k].contains_key(id) ==> states[k
            + 1].contains_key(id)),
        0 <= i < j < msgs.len(),
        msgs[i].id == id && emits[i],
        msgs[j].id == id && emits[j],
    ensures
        msgs[j].effective_timestamp() > msgs[i].effective_timestamp(),
{
    let e1 = msgs[i].effective_timestamp();
    lemma_dedup_floor(states, msgs, observers, emits, id, i, j, e1);
    assert(complete_step(states[j], states[j + 1], msgs[j], observers[j], emits[j]));
}

/// After an emission for `id` with effective timestamp `e1`, every later
/// state up to `j` keeps an entry for `id` whose effective timestamp is at
/// least `e1`.
proof fn lemma_dedup_floor(
    states: Seq<Map<u64, CachedView>>,
    msgs: Seq<MessageView>,
    observers: Seq<MemberId>,
    emits: Seq<bool>,
    id: u64,
    i: int,
    j: int,
    e1: Timestamp,
)
    requires
        states.len() == msgs.len() + 1,
        observers.len() == msgs.len(),
        emits.len() == msgs.len(),
        forall|k: int| 0 <= k < msgs.len() ==> complete_step(
            #[trigger] states[k],
            states[k + 1],
            msgs[k],
            observers[k],
            emits[k],
        ),
        forall|k: int| 0 <= k < msgs.len() ==> (#[trigger] states[k].contains_key(id) ==> states[k
            + 1].contains_key(id)),
        0 <= i < j <= msgs.len(),
        msgs[i].id == id && emits[i],
        e1 == msgs[i].effective_timestamp(),
    ensures
        states[j].contains_key(id),
        states[j][id].message.effective_timestamp() >= e1,
    decreases j,
{
    if j == i + 1 {
        assert(complete_step(states[i], states[i + 1], msgs[i], observers[i], emits[i]));
    } else {
        lemma_dedup_floor(states, msgs, observers, emits, id, i, j - 1, e1);
        let k = j - 1;
        assert(complete_step(states[k], states[k + 1], msgs[k], observers[k], emits[k]));
        if msgs[k].id == id {
            if !(states[k].contains_key(id) && states[k][id].message.effective_timestamp()
                >= msgs[k].effective_timestamp()) {
                assert(states[j][id].message == msgs[k]);
                assert(msgs[k].effective_timestamp() > states[k][id].message.effective_timestamp());
            }
        } else {
            assert(states[j].contains_key(id));
            assert(states[j][id] == states[k][id]);
        }
    }
}

} // verus!
