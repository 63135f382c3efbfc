use vstd::prelude::*;
use vstd::pervasive::VecAdditionalExecFns;

use crate::cache::{send_cache_get, send_cache_new, send_cache_put, send_contents, send_empty,
    SendCache};
use crate::config::{AutoproxyConfig, Member, System};
use crate::message_parser::{Command, MessageParser, ParsedMessage};
use crate::presence::{spec_desired_status, desired_status, plan_update_rel, PresenceTracker};
use crate::proxy::{build_duplicate_draft, MessageDraft, ProxyFlow, ProxyStage};
use crate::text::{parse_u64, spec_parse_u64};
use crate::types::{ChannelId, FullMessage, MemberId, MessageId, MessageView, Status, Timestamp,
    UserId};

verus! {

/// An emoji the system answers with.
pub enum Reaction {
    /// The padlock: the bot lacks permission to delete.
    Lock,
    /// The interrobang: the command could not be used here.
    Interrobang,
    /// The stop sign: the target is not one of the system's own messages.
    Stop,
}

/// One outward operation the manager asks its surroundings to perform.
pub enum Action {
    DeleteMessage { member: MemberId, channel: ChannelId, message: MessageId },
    React { member: MemberId, channel: ChannelId, message: MessageId, reaction: Reaction },
    SetStatus { member: MemberId, status: Status },
    /// Fire an autoproxy timeout carrying `scheduled_for` after `seconds`.
    ScheduleTimeout { seconds: u32, scheduled_for: Timestamp },
    ResendMessage { member: MemberId, message: MessageId, channel: ChannelId },
}

/// An edit in flight: the member's bot is editing `target`, and the
/// command message is deleted once the edit went through.
pub struct EditFlow {
    pub member: MemberId,
    pub channel: ChannelId,
    pub target: MessageId,
    pub new_content: String,
    pub command_message: MessageId,
}

/// What must happen once a proxy run concludes.
pub struct ProxyContext {
    /// Whether a successful run moves the latch.
    pub latch: bool,
    /// The timestamp the latch is moved to.
    pub latch_ts: Timestamp,
    /// A command message to delete once the run is over.
    pub delete_command: Option<(MemberId, ChannelId, MessageId)>,
}

/// What the manager asks next for one classified message.
pub enum Dispatch {
    /// Plain operations; nothing to report back.
    Actions(Vec<Action>),
    /// Run the duplicate-then-delete protocol, then conclude it.
    StartProxy { draft: MessageDraft, flow: ProxyFlow, ctx: ProxyContext },
    /// Edit the target message, then conclude with the outcome.
    StartEdit { flow: EditFlow },
}

/// Index of the first member carrying the given name.
pub open spec fn spec_member_for_name(members: Seq<Member>, name: Seq<char>) -> Option<int>
    decreases members.len(),
{
    if members.len() == 0 {
        None
    } else if members[0].name@ == name {
        Some(0int)
    } else {
        match spec_member_for_name(members.drop_first(), name) {
            Some(i) => Some(i + 1),
            None => None,
        }
    }
}

pub proof fn lemma_member_for_name(members: Seq<Member>, name: Seq<char>)
    ensures
        match spec_member_for_name(members, name) {
            Some(i) => 0 <= i < members.len() && members[i].name@ == name && forall|k: int|
                0 <= k < i ==> (#[trigger] members[k]).name@ != name,
            None => forall|k: int| 0 <= k < members.len() ==> (#[trigger] members[k]).name@ != name,
        },
    decreases members.len(),
{
    if members.len() > 0 && members[0].name@ != name {
        let tail = members.drop_first();
        lemma_member_for_name(tail, name);
        match spec_member_for_name(tail, name) {
            Some(i) => {
                assert(tail[i] == members[i + 1]);
                assert forall|k: int| 0 <= k < i + 1 implies (#[trigger] members[k]).name@
                    != name by {
                    if k > 0 {
                        assert(tail[k - 1] == members[k]);
                    }
                }
            },
            None => {
                assert forall|k: int| 0 <= k < members.len() implies (#[trigger] members[k]).name@
                    != name by {
                    if k > 0 {
                        assert(tail[k - 1] == members[k]);
                    }
                }
            },
        }
    }
}

/// The sequence of messages a fetched batch denotes.
pub open spec fn views_of(ms: Seq<FullMessage>) -> Seq<MessageView> {
    ms.map_values(|m: FullMessage| m@)
}

/// Whether a message was authored by one of the system's own bots.
pub open spec fn is_bot_author(config: System, m: MessageView) -> bool {
    crate::message_parser::spec_member_for_user(config.members@, m.author_id) is Some
}

/// Index of the most recent bot-authored message in the batch; on equal
/// timestamps the later one wins.
pub open spec fn spec_pick_recent(config: System, ms: Seq<MessageView>) -> Option<int>
    decreases ms.len(),
{
    if ms.len() == 0 {
        None
    } else {
        let rest = spec_pick_recent(config, ms.drop_last());
        let lasti = ms.len() - 1;
        if is_bot_author(config, ms[lasti]) {
            match rest {
                Some(i) => if ms[i].timestamp > ms[lasti].timestamp {
                    Some(i)
                } else {
                    Some(lasti as int)
                },
                None => Some(lasti as int),
            }
        } else {
            rest
        }
    }
}

/// Where the secondary message of a classification comes from.
pub enum SecondaryLookup {
    /// The message is a reply: its referenced message is the secondary.
    UseReferenced,
    /// The channel's most recently proxied message, from the send cache.
    Cached(FullMessage),
    /// Nothing at hand: fetch the channel's recent messages first.
    NeedFetch,
}

/// The latch and timer after a successful proxy: under a latch policy the
/// member is latched at the given time and a timer over the policy's
/// timeout is scheduled; any other policy leaves the latch alone.
pub open spec fn spec_latch_after_proxy(
    config: System,
    latch: Option<(MemberId, Timestamp)>,
    member: MemberId,
    ts: Timestamp,
) -> (Option<(MemberId, Timestamp)>, Option<u32>) {
    match config.autoproxy {
        Some(AutoproxyConfig::Latch { scope, timeout_seconds, presence_indicator }) => (
            Some((member, ts)),
            Some(timeout_seconds),
        ),
        _ => (latch, None),
    }
}

/// How an autoproxy timeout changes the latch: it clears the latch only
/// when it carries the latch's own timestamp; a superseded timer changes
/// nothing.
pub open spec fn spec_timeout_rel(
    pre: Option<(MemberId, Timestamp)>,
    post: Option<(MemberId, Timestamp)>,
    ts: Timestamp,
    cleared: bool,
) -> bool {
    &&& cleared == (pre matches Some(p) && p.1 == ts)
    &&& post == (if cleared {
        None
    } else {
        pre
    })
}

/// The status updates a reconciliation emits: one per member whose bot is
/// not already advertising the desired status, in member order.
pub open spec fn spec_status_actions(
    config: System,
    latch: Option<(MemberId, Timestamp)>,
    pre: Seq<Status>,
    i: int,
) -> Seq<Action>
    decreases pre.len() - i,
{
    if i < 0 || i >= pre.len() {
        Seq::empty()
    } else {
        let d = spec_desired_status(config, latch, i);
        let rest = spec_status_actions(config, latch, pre, i + 1);
        if pre[i] == d {
            rest
        } else {
            seq![Action::SetStatus { member: i as usize, status: d }] + rest
        }
    }
}

/// The per-system orchestrator: owns the configuration, the latch, the
/// send cache and the presence trackers, and decides what the bots do.
pub struct Manager {
    pub name: String,
    pub config: System,
    pub latch_state: Option<(MemberId, Timestamp)>,
    pub send_cache: SendCache,
    pub presence: PresenceTracker,
    pub reference_user_id: UserId,
}

impl Manager {
    /// One presence tracker per member.
    pub open spec fn wf(&self) -> bool {
        self.presence.last@.len() == self.config.members@.len()
    }

    /// A manager for one system. Yields nothing when the configured
    /// reference user id is not a positive decimal number.
    pub fn new(system_name: String, system_config: System) -> (r: Option<Manager>)
        ensures
            (r is Some <==> (spec_parse_u64(system_config.reference_user_id@) matches Some(u) && u
                != 0)),
            (r matches Some(m) ==> {
                &&& m.wf()
                &&& m.name@ == system_name@
                &&& m.config == system_config
                &&& m.latch_state is None
                &&& send_contents(m.send_cache) == send_empty()
                &&& Some(m.reference_user_id) == spec_parse_u64(system_config.reference_user_id@)
                &&& forall|i: int| 0 <= i < m.presence.last@.len() ==> m.presence.last@[i]
                    == Status::Online
            }),
    {
        let uid = match parse_u64(system_config.reference_user_id.as_str()) {
            Some(u) => u,
            None => {
                return None;
            },
        };
        if uid == 0 {
            return None;
        }
        let n = system_config.members.len();
        Some(
            Manager {
                name: system_name,
                config: system_config,
                latch_state: None,
                send_cache: send_cache_new(15),
                presence: PresenceTracker::new(n),
                reference_user_id: uid,
            },
        )
    }

    /// The first member carrying the given name, with its index.
    pub fn find_member_by_name(&self, name: &String) -> (r: Option<MemberId>)
        ensures
            (match r {
                Some(m) => spec_member_for_name(self.config.members@, name@) == Some(m as int),
                None => spec_member_for_name(self.config.members@, name@) is None,
            }),
    {
        let n = self.config.members.len();
        let mut i: usize = 0;
        while i < n
            invariant
                0 <= i <= n,
                n == self.config.members@.len(),
                forall|k: int| 0 <= k < i ==> (#[trigger] self.config.members@[k]).name@ != name@,
            decreases n - i,
        {
            if self.config.members[i].name.eq(name) {
                proof {
                    lemma_member_for_name(self.config.members@, name@);
                    match spec_member_for_name(self.config.members@, name@) {
                        Some(si) => {
                            if si < i {
                                assert(self.config.members@[si].name@ != name@);
                            }
                            if si > i {
                                assert(self.config.members@[i as int].name@ != name@);
                            }
                        },
                        None => {
                            assert(self.config.members@[i as int].name@ != name@);
                        },
                    }
                }
                return Some(i);
            }
            i = i + 1;
        }
        proof {
            lemma_member_for_name(self.config.members@, name@);
            if let Some(si) = spec_member_for_name(self.config.members@, name@) {
                assert(self.config.members@[si].name@ != name@);
            }
        }
        None
    }

    /// The member at the given index, when there is one.
    pub fn find_member_by_id(&self, id: MemberId) -> (r: Option<&Member>)
        ensures
            (match r {
                Some(m) => id < self.config.members@.len() && *m == self.config.members@[id as int],
                None => id >= self.config.members@.len(),
            }),
    {
        if id < self.config.members.len() {
            Some(&self.config.members[id])
        } else {
            None
        }
    }

    /// Records the bot account a member's gateway connected as.
    pub fn on_gateway_connected(&mut self, member_id: MemberId, user_id: UserId)
        requires
            member_id < old(self).config.members@.len(),
        ensures
            final(self).config.members@ == old(self).config.members@.update(
                member_id as int,
                (Member { user_id: Some(user_id), ..old(self).config.members@[member_id as int] }),
            ),
            final(self).config.reference_user_id == old(self).config.reference_user_id,
            final(self).config.autoproxy == old(self).config.autoproxy,
            final(self).latch_state == old(self).latch_state,
            final(self).presence == old(self).presence,
            final(self).send_cache == old(self).send_cache,
            final(self).reference_user_id == old(self).reference_user_id,
            final(self).name == old(self).name,
    {
        let mut m = Member {
            name: String::new(),
            message_pattern: String::new(),
            discord_token: String::new(),
            user_id: None,
            presence: None,
            status: None,
        };
        self.config.members.set_and_swap(member_id, &mut m);
        m.user_id = Some(user_id);
        self.config.members.set_and_swap(member_id, &mut m);
        proof {
            assert(final(self).config.members@ =~= old(self).config.members@.update(
                member_id as int,
                (Member { user_id: Some(user_id), ..old(self).config.members@[member_id as int] }),
            ));
        }
    }

    /// Where the secondary message for this message comes from: the reply
    /// target when the message is a reply, else the channel's cached last
    /// proxied message, else a fetch.
    pub fn resolve_secondary(&mut self, message: &FullMessage) -> (r: SecondaryLookup)
        ensures
            send_contents(final(self).send_cache) == send_contents(old(self).send_cache),
            final(self).config == old(self).config,
            final(self).latch_state == old(self).latch_state,
            final(self).presence == old(self).presence,
            final(self).reference_user_id == old(self).reference_user_id,
            (if message.is_reply {
                r == SecondaryLookup::UseReferenced
            } else if send_contents(old(self).send_cache).contains_key(message.channel_id) {
                r matches SecondaryLookup::Cached(m) && m@ == send_contents(
                    old(self).send_cache,
                )[message.channel_id]
            } else {
                r == SecondaryLookup::NeedFetch
            }),
    {
        if message.is_reply {
            return SecondaryLookup::UseReferenced;
        }
        match send_cache_get(&mut self.send_cache, message.channel_id) {
            Some(m) => SecondaryLookup::Cached(m),
            None => SecondaryLookup::NeedFetch,
        }
    }

    /// Takes a fetched batch of recent channel messages, picks the most
    /// recent one authored by one of the system's bots, remembers it as
    /// the channel's last proxied message, and hands it back.
    pub fn accept_recent_messages(&mut self, channel: ChannelId, messages: &Vec<FullMessage>) -> (r:
        Option<FullMessage>)
        ensures
            final(self).config == old(self).config,
            final(self).latch_state == old(self).latch_state,
            final(self).presence == old(self).presence,
            final(self).reference_user_id == old(self).reference_user_id,
            (match spec_pick_recent(old(self).config, views_of(messages@)) {
                Some(i) => {
                    &&& r matches Some(m) && m@ == views_of(messages@)[i]
                    &&& send_contents(final(self).send_cache).contains_key(channel)
                    &&& send_contents(final(self).send_cache)[channel] == views_of(messages@)[i]
                    &&& forall|k2: u64| #[trigger] send_contents(final(self).send_cache).contains_key(
                        k2,
                    ) ==> k2 == channel || (send_contents(old(self).send_cache).contains_key(k2)
                        && send_contents(final(self).send_cache)[k2] == send_contents(
                        old(self).send_cache,
                    )[k2])
                },
                None => r is None && send_contents(final(self).send_cache) == send_contents(
                    old(self).send_cache,
                ),
            }),
    {
        let n = messages.len();
        let mut best: Option<usize> = None;
        let mut i: usize = 0;
        proof {
            assert(views_of(messages@.subrange(0, 0)) =~= Seq::<MessageView>::empty());
        }
        while i < n
            invariant
                0 <= i <= n,
                n == messages@.len(),
                (match best {
                    Some(b) => b < i && spec_pick_recent(
                        self.config,
                        views_of(messages@.subrange(0, i as int)),
                    ) == Some(b as int),
                    None => spec_pick_recent(
                        self.config,
                        views_of(messages@.subrange(0, i as int)),
                    ) is None,
                }),
            decreases n - i,
        {
            let author_member = MessageParser::get_member_id_from_user_id(
                messages[i].author_id,
                &self.config,
            );
            proof {
                let pre = views_of(messages@.subrange(0, i as int));
                let cur = views_of(messages@.subrange(0, i as int + 1));
                assert(cur.drop_last() =~= pre);
                assert(cur.last() == messages@[i as int]@);
            }
            if author_member.is_some() {
                match best {
                    Some(b) => {
                        if messages[b].timestamp > messages[i].timestamp {
                        } else {
                            best = Some(i);
                        }
                    },
                    None => {
                        best = Some(i);
                    },
                }
            }
            i = i + 1;
        }
        proof {
            assert(messages@.subrange(0, n as int) =~= messages@);
        }
        match best {
            Some(b) => {
                let picked = messages[b].duplicate();
                send_cache_put(&mut self.send_cache, channel, picked.duplicate());
                Some(picked)
            },
            None => None,
        }
    }

    /// Moves the latch after a proxied message under a latch policy, and
    /// asks for the expiry timer that may later clear it.
    pub fn update_autoproxy_state_after_message(&mut self, member: MemberId, ts: Timestamp) -> (r:
        Option<Action>)
        ensures
            final(self).config == old(self).config,
            final(self).presence == old(self).presence,
            final(self).send_cache == old(self).send_cache,
            final(self).reference_user_id == old(self).reference_user_id,
            ({
                let (nl, t) = spec_latch_after_proxy(
                    old(self).config,
                    old(self).latch_state,
                    member,
                    ts,
                );
                &&& final(self).latch_state == nl
                &&& (match t {
                    Some(secs) => r == Some(
                        Action::ScheduleTimeout { seconds: secs, scheduled_for: ts },
                    ),
                    None => r is None,
                })
            }),
    {
        match &self.config.autoproxy {
            Some(AutoproxyConfig::Latch { scope: _, timeout_seconds, presence_indicator: _ }) => {
                let secs = *timeout_seconds;
                self.latch_state = Some((member, ts));
                Some(Action::ScheduleTimeout { seconds: secs, scheduled_for: ts })
            },
            _ => None,
        }
    }

    /// Acts on an autoproxy timeout: the latch is cleared only when the
    /// timer carries the latch's own timestamp, and presence is then
    /// reconciled. A superseded timer does nothing.
    pub fn on_autoproxy_timeout(&mut self, ts: Timestamp) -> (r: Vec<Action>)
        requires
            old(self).wf(),
        ensures
            final(self).wf(),
            final(self).config == old(self).config,
            final(self).send_cache == old(self).send_cache,
            final(self).reference_user_id == old(self).reference_user_id,
            spec_timeout_rel(
                old(self).latch_state,
                final(self).latch_state,
                ts,
                (old(self).latch_state matches Some(p) && p.1 == ts),
            ),
            (if old(self).latch_state matches Some(p) && p.1 == ts {
                &&& r@ == spec_status_actions(
                    old(self).config,
                    None,
                    old(self).presence.last@,
                    0,
                )
                &&& forall|i: int| 0 <= i < final(self).presence.last@.len()
                    ==> final(self).presence.last@[i] == spec_desired_status(
                    old(self).config,
                    None,
                    i,
                )
            } else {
                r@ == Seq::<Action>::empty() && final(self).presence == old(self).presence
            }),
    {
        let fire = match &self.latch_state {
            Some((_, t)) => *t == ts,
            None => false,
        };
        if fire {
            self.latch_state = None;
            self.update_status_of_system()
        } else {
            Vec::new()
        }
    }

    /// Brings the presence a member's bot advertises to the desired one.
    pub fn update_status_of_member(&mut self, member: MemberId, status: Status) -> (r: Option<
        Action,
    >)
        requires
            old(self).wf(),
            member < old(self).config.members@.len(),
        ensures
            final(self).wf(),
            final(self).config == old(self).config,
            final(self).latch_state == old(self).latch_state,
            final(self).send_cache == old(self).send_cache,
            final(self).reference_user_id == old(self).reference_user_id,
            plan_update_rel(
                old(self).presence.last@,
                final(self).presence.last@,
                member as int,
                status,
                (match r {
                    Some(_) => Some(status),
                    None => None,
                }),
            ),
            (match r {
                Some(a) => a == (Action::SetStatus { member, status }),
                None => true,
            }),
    {
        match self.presence.plan_update(member, status) {
            Some(s) => Some(Action::SetStatus { member, status: s }),
            None => None,
        }
    }

    /// Reconciles every member's advertised presence with the policy and
    /// the latch: one update per member whose bot shows something else.
    pub fn update_status_of_system(&mut self) -> (r: Vec<Action>)
        requires
            old(self).wf(),
        ensures
            final(self).wf(),
            final(self).config == old(self).config,
            final(self).latch_state == old(self).latch_state,
            final(self).send_cache == old(self).send_cache,
            final(self).reference_user_id == old(self).reference_user_id,
            r@ == spec_status_actions(
                old(self).config,
                old(self).latch_state,
                old(self).presence.last@,
                0,
            ),
            forall|i: int| 0 <= i < final(self).presence.last@.len()
                ==> final(self).presence.last@[i] == spec_desired_status(
                old(self).config,
                old(self).latch_state,
                i,
            ),
    {
        let n = self.config.members.len();
        let ghost pre = self.presence.last@;
        let mut r: Vec<Action> = Vec::new();
        let mut i: usize = 0;
        while i < n
            invariant
                0 <= i <= n,
                self.wf(),
                n == self.config.members@.len(),
                self.config == old(self).config,
                self.latch_state == old(self).latch_state,
                self.send_cache == old(self).send_cache,
                self.reference_user_id == old(self).reference_user_id,
                self.name == old(self).name,
                pre == old(self).presence.last@,
                pre.len() == n,
                forall|k: int| i <= k < n ==> self.presence.last@[k] == pre[k],
                forall|k: int| 0 <= k < i ==> self.presence.last@[k] == spec_desired_status(
                    old(self).config,
                    old(self).latch_state,
                    k,
                ),
                r@ + spec_status_actions(old(self).config, old(self).latch_state, pre, i as int)
                    == spec_status_actions(old(self).config, old(self).latch_state, pre, 0),
            decreases n - i,
        {
            let d = desired_status(&self.config, self.latch_state, i);
            let ghost r_pre = r@;
            match self.presence.plan_update(i, d) {
                Some(s) => {
                    r.push(Action::SetStatus { member: i, status: s });
                    proof {
                        assert(r@ =~= r_pre + seq![
                            Action::SetStatus { member: i, status: d },
                        ]);
                    }
                },
                None => {},
            }
            i = i + 1;
        }
        proof {
            assert(spec_status_actions(old(self).config, old(self).latch_state, pre, n as int)
                =~= Seq::<Action>::empty());
            assert(r@ =~= r@ + spec_status_actions(
                old(self).config,
                old(self).latch_state,
                pre,
                n as int,
            ));
        }
        r
    }

    /// Decides what to do with one classified message: nothing for an
    /// unproxied one; delete and clear or move the latch for the escapes;
    /// start the proxy protocol for a proxied message; start an edit, a
    /// reproxy, a delete or a reaction for a command.
    pub fn dispatch(
        &mut self,
        message: &FullMessage,
        timestamp: Timestamp,
        parsed: ParsedMessage,
        secondary: Option<&FullMessage>,
    ) -> (r: Dispatch)
        requires
            old(self).wf(),
            message.wf(),
            (secondary matches Some(s) ==> s.wf()),
        ensures
            final(self).wf(),
            final(self).config == old(self).config,
            final(self).send_cache == old(self).send_cache,
            final(self).reference_user_id == old(self).reference_user_id,
            (match parsed {
                ParsedMessage::UnproxiedMessage => {
                    &&& final(self).latch_state == old(self).latch_state
                    &&& final(self).presence == old(self).presence
                    &&& (r matches Dispatch::Actions(v) && v@ == Seq::<Action>::empty())
                },
                ParsedMessage::LatchClear(member_id) => {
                    &&& final(self).latch_state is None
                    &&& (r matches Dispatch::Actions(v) && v@ == seq![
                        (Action::DeleteMessage {
                            member: member_id,
                            channel: message.channel_id,
                            message: message.id,
                        }),
                    ] + spec_status_actions(old(self).config, None, old(self).presence.last@, 0))
                },
                ParsedMessage::SetProxyAndDelete(member_id) => {
                    ({
                        let (nl, t) = spec_latch_after_proxy(
                            old(self).config,
                            old(self).latch_state,
                            member_id,
                            message.timestamp,
                        );
                        &&& final(self).latch_state == nl
                        &&& (r matches Dispatch::Actions(v) && v@ == seq![
                            (Action::DeleteMessage {
                                member: member_id,
                                channel: message.channel_id,
                                message: message.id,
                            }),
                        ] + (match t {
                            Some(secs) => seq![
                                (Action::ScheduleTimeout {
                                    seconds: secs,
                                    scheduled_for: message.timestamp,
                                }),
                            ],
                            None => Seq::<Action>::empty(),
                        }) + spec_status_actions(old(self).config, nl, old(self).presence.last@, 0))
                    })
                },
                ParsedMessage::ProxiedMessage { member_id, message_content, latch } => {
                    &&& final(self).latch_state == old(self).latch_state
                    &&& final(self).presence == old(self).presence
                    &&& (if message_content@.len() <= 2000 {
                        r matches Dispatch::StartProxy { draft, flow, ctx } && {
                            &&& crate::proxy::draft_corresponds(draft, message@, message_content@)
                            &&& flow.member == member_id
                            &&& flow.source_channel == message.channel_id
                            &&& flow.source_id == message.id
                            &&& flow.stage is AwaitingDuplicate
                            &&& ctx.latch == latch
                            &&& ctx.latch_ts == timestamp
                            &&& ctx.delete_command is None
                        }
                    } else {
                        r matches Dispatch::Actions(v) && v@ == Seq::<Action>::empty()
                    })
                },
                ParsedMessage::Command(Command::Edit(member_id, message_id, new_content)) => {
                    &&& final(self).latch_state == old(self).latch_state
                    &&& final(self).presence == old(self).presence
                    &&& (match secondary {
                        None => r matches Dispatch::Actions(v) && v@ == seq![
                            (Action::React {
                                member: member_id,
                                channel: message.channel_id,
                                message: message.id,
                                reaction: Reaction::Stop,
                            }),
                        ],
                        Some(s) => {
                            if crate::message_parser::spec_member_for_user(
                                old(self).config.members@,
                                s.author_id,
                            ) is None {
                                r matches Dispatch::Actions(v) && v@ == seq![
                                    (Action::React {
                                        member: member_id,
                                        channel: message.channel_id,
                                        message: message.id,
                                        reaction: Reaction::Stop,
                                    }),
                                ]
                            } else {
                                r matches Dispatch::StartEdit { flow } && {
                                    &&& flow.member == member_id
                                    &&& flow.channel == message.channel_id
                                    &&& flow.target == message_id
                                    &&& flow.new_content == new_content
                                    &&& flow.command_message == message.id
                                }
                            }
                        },
                    })
                },
                ParsedMessage::Command(Command::Reproxy(member_id, message_id)) => {
                    &&& final(self).latch_state == old(self).latch_state
                    &&& final(self).presence == old(self).presence
                    &&& (if !(secondary matches Some(s) && s.id == message_id) {
                        r matches Dispatch::Actions(v) && v@ == seq![
                            (Action::React {
                                member: member_id,
                                channel: message.channel_id,
                                message: message.id,
                                reaction: Reaction::Interrobang,
                            }),
                        ]
                    } else {
                        match secondary {
                            Some(s) => {
                                match crate::message_parser::spec_member_for_user(
                                    old(self).config.members@,
                                    s.author_id,
                                ) {
                                    None => r matches Dispatch::Actions(v) && v@ == seq![
                                        (Action::React {
                                            member: member_id,
                                            channel: message.channel_id,
                                            message: message.id,
                                            reaction: Reaction::Stop,
                                        }),
                                    ],
                                    Some(a) => {
                                        if a != member_id as int && s.content@.len() <= 2000 {
                                            r matches Dispatch::StartProxy { draft, flow, ctx } && {
                                                &&& crate::proxy::draft_corresponds(
                                                    draft,
                                                    s@,
                                                    s.content@,
                                                )
                                                &&& flow.member == member_id
                                                &&& flow.source_channel == s.channel_id
                                                &&& flow.source_id == s.id
                                                &&& flow.stage is AwaitingDuplicate
                                                &&& ctx.latch == true
                                                &&& ctx.latch_ts == timestamp
                                                &&& ctx.delete_command == Some(
                                                    (member_id, message.channel_id, message.id),
                                                )
                                            }
                                        } else {
                                            r matches Dispatch::Actions(v) && v@ == seq![
                                                (Action::DeleteMessage {
                                                    member: member_id,
                                                    channel: message.channel_id,
                                                    message: message.id,
                                                }),
                                            ]
                                        }
                                    },
                                }
                            },
                            None => false,
                        }
                    })
                },
                ParsedMessage::Command(Command::Delete(message_id)) => {
                    ({
                        let member_id = (match old(self).latch_state {
                            Some(p) => p.0,
                            None => 0,
                        });
                        &&& final(self).latch_state == old(self).latch_state
                        &&& final(self).presence == old(self).presence
                        &&& (match secondary {
                            None => r matches Dispatch::Actions(v) && v@ == seq![
                                (Action::React {
                                    member: member_id,
                                    channel: message.channel_id,
                                    message: message.id,
                                    reaction: Reaction::Stop,
                                }),
                            ],
                            Some(s) => {
                                if crate::message_parser::spec_member_for_user(
                                    old(self).config.members@,
                                    s.author_id,
                                ) is None {
                                    r matches Dispatch::Actions(v) && v@ == seq![
                                        (Action::React {
                                            member: member_id,
                                            channel: message.channel_id,
                                            message: message.id,
                                            reaction: Reaction::Stop,
                                        }),
                                    ]
                                } else {
                                    r matches Dispatch::Actions(v) && v@ == seq![
                                        (Action::DeleteMessage {
                                            member: member_id,
                                            channel: message.channel_id,
                                            message: message_id,
                                        }),
                                        (Action::DeleteMessage {
                                            member: member_id,
                                            channel: message.channel_id,
                                            message: message.id,
                                        }),
                                    ]
                                }
                            },
                        })
                    })
                },
                ParsedMessage::Command(Command::UnknownCommand)
                | ParsedMessage::Command(Command::InvalidCommand) => {
                    ({
                        let member_id = (match old(self).latch_state {
                            Some(p) => p.0,
                            None => 0,
                        });
                        &&& final(self).latch_state == old(self).latch_state
                        &&& final(self).presence == old(self).presence
                        &&& (r matches Dispatch::Actions(v) && v@ == seq![
                            (Action::React {
                                member: member_id,
                                channel: message.channel_id,
                                message: message.id,
                                reaction: Reaction::Interrobang,
                            }),
                        ])
                    })
                },
                _ => {
                    &&& final(self).latch_state == old(self).latch_state
                    &&& final(self).presence == old(self).presence
                    &&& (r matches Dispatch::Actions(v) && v@ == Seq::<Action>::empty())
                },
            }),
    {
        match parsed {
            ParsedMessage::UnproxiedMessage => Dispatch::Actions(Vec::new()),
            ParsedMessage::LatchClear(member_id) => {
                let mut v: Vec<Action> = Vec::new();
                v.push(
                    Action::DeleteMessage {
                        member: member_id,
                        channel: message.channel_id,
                        message: message.id,
                    },
                );
                self.latch_state = None;
                let mut st = self.update_status_of_system();
                v.append(&mut st);
                Dispatch::Actions(v)
            },
            ParsedMessage::SetProxyAndDelete(member_id) => {
                let mut v: Vec<Action> = Vec::new();
                v.push(
                    Action::DeleteMessage {
                        member: member_id,
                        channel: message.channel_id,
                        message: message.id,
                    },
                );
                match self.update_autoproxy_state_after_message(member_id, message.timestamp) {
                    Some(a) => {
                        v.push(a);
                    },
                    None => {},
                }
                let mut st = self.update_status_of_system();
                v.append(&mut st);
                Dispatch::Actions(v)
            },
            ParsedMessage::ProxiedMessage { member_id, message_content, latch } => {
                match build_duplicate_draft(message, message_content.as_str()) {
                    Ok(draft) => Dispatch::StartProxy {
                        draft,
                        flow: ProxyFlow::begin(member_id, message),
                        ctx: ProxyContext { latch, latch_ts: timestamp, delete_command: None },
                    },
                    Err(_) => Dispatch::Actions(Vec::new()),
                }
            },
            ParsedMessage::Command(Command::Edit(member_id, message_id, new_content)) => {
                match secondary {
                    None => {
                        let mut v: Vec<Action> = Vec::new();
                        v.push(
                            Action::React {
                                member: member_id,
                                channel: message.channel_id,
                                message: message.id,
                                reaction: Reaction::Stop,
                            },
                        );
                        Dispatch::Actions(v)
                    },
                    Some(s) => {
                        match MessageParser::get_member_id_from_user_id(s.author_id, &self.config) {
                            None => {
                                let mut v: Vec<Action> = Vec::new();
                                v.push(
                                    Action::React {
                                        member: member_id,
                                        channel: message.channel_id,
                                        message: message.id,
                                        reaction: Reaction::Stop,
                                    },
                                );
                                Dispatch::Actions(v)
                            },
                            Some(_) => Dispatch::StartEdit {
                                flow: EditFlow {
                                    member: member_id,
                                    channel: message.channel_id,
                                    target: message_id,
                                    new_content,
                                    command_message: message.id,
                                },
                            },
                        }
                    },
                }
            },
            ParsedMessage::Command(Command::Reproxy(member_id, message_id)) => {
                let matches_secondary = match secondary {
                    Some(s) => s.id == message_id,
                    None => false,
                };
                if !matches_secondary {
                    let mut v: Vec<Action> = Vec::new();
                    v.push(
                        Action::React {
                            member: member_id,
                            channel: message.channel_id,
                            message: message.id,
                            reaction: Reaction::Interrobang,
                        },
                    );
                    return Dispatch::Actions(v);
                }
                let s = match secondary {
                    Some(s) => s,
                    None => {
                        proof {
                            assert(false);
                        }
                        return Dispatch::Actions(Vec::new());
                    },
                };
                match MessageParser::get_member_id_from_user_id(s.author_id, &self.config) {
                    None => {
                        let mut v: Vec<Action> = Vec::new();
                        v.push(
                            Action::React {
                                member: member_id,
                                channel: message.channel_id,
                                message: message.id,
                                reaction: Reaction::Stop,
                            },
                        );
                        Dispatch::Actions(v)
                    },
                    Some(a) => {
                        if a != member_id {
                            match build_duplicate_draft(s, s.content.as_str()) {
                                Ok(draft) => Dispatch::StartProxy {
                                    draft,
                                    flow: ProxyFlow::begin(member_id, s),
                                    ctx: ProxyContext {
                                        latch: true,
                                        latch_ts: timestamp,
                                        delete_command: Some(
                                            (member_id, message.channel_id, message.id),
                                        ),
                                    },
                                },
                                Err(_) => {
                                    let mut v: Vec<Action> = Vec::new();
                                    v.push(
                                        Action::DeleteMessage {
                                            member: member_id,
                                            channel: message.channel_id,
                                            message: message.id,
                                        },
                                    );
                                    Dispatch::Actions(v)
                                },
                            }
                        } else {
                            let mut v: Vec<Action> = Vec::new();
                            v.push(
                                Action::DeleteMessage {
                                    member: member_id,
                                    channel: message.channel_id,
                                    message: message.id,
                                },
                            );
                            Dispatch::Actions(v)
                        }
                    },
                }
            },
            ParsedMessage::Command(Command::Delete(message_id)) => {
                let member_id: MemberId = match &self.latch_state {
                    Some((m, _)) => *m,
                    None => 0,
                };
                match secondary {
                    None => {
                        let mut v: Vec<Action> = Vec::new();
                        v.push(
                            Action::React {
                                member: member_id,
                                channel: message.channel_id,
                                message: message.id,
                                reaction: Reaction::Stop,
                            },
                        );
                        Dispatch::Actions(v)
                    },
                    Some(s) => {
                        match MessageParser::get_member_id_from_user_id(s.author_id, &self.config) {
                            None => {
                                let mut v: Vec<Action> = Vec::new();
                                v.push(
                                    Action::React {
                                        member: member_id,
                                        channel: message.channel_id,
                                        message: message.id,
                                        reaction: Reaction::Stop,
                                    },
                                );
                                Dispatch::Actions(v)
                            },
                            Some(_) => {
                                let mut v: Vec<Action> = Vec::new();
                                v.push(
                                    Action::DeleteMessage {
                                        member: member_id,
                                        channel: message.channel_id,
                                        message: message_id,
                                    },
                                );
                                v.push(
                                    Action::DeleteMessage {
                                        member: member_id,
                                        channel: message.channel_id,
                                        message: message.id,
                                    },
                                );
                                Dispatch::Actions(v)
                            },
                        }
                    },
                }
            },
            ParsedMessage::Command(Command::UnknownCommand)
            | ParsedMessage::Command(Command::InvalidCommand) => {
                let member_id: MemberId = match &self.latch_state {
                    Some((m, _)) => *m,
                    None => 0,
                };
                let mut v: Vec<Action> = Vec::new();
                v.push(
                    Action::React {
                        member: member_id,
                        channel: message.channel_id,
                        message: message.id,
                        reaction: Reaction::Interrobang,
                    },
                );
                Dispatch::Actions(v)
            },
            _ => Dispatch::Actions(Vec::new()),
        }
    }

    /// Acts on a scheduled per-bot status refresh: the latched member's
    /// bot goes online, every other bot goes invisible.
    pub fn on_update_client_status(&mut self, member_id: MemberId) -> (r: Option<Action>)
        requires
            old(self).wf(),
            member_id < old(self).config.members@.len(),
        ensures
            final(self).wf(),
            final(self).config == old(self).config,
            final(self).latch_state == old(self).latch_state,
            final(self).send_cache == old(self).send_cache,
            final(self).reference_user_id == old(self).reference_user_id,
            ({
                let desired = (if old(self).latch_state matches Some(p) && p.0 == member_id {
                    Status::Online
                } else {
                    Status::Invisible
                });
                &&& plan_update_rel(
                    old(self).presence.last@,
                    final(self).presence.last@,
                    member_id as int,
                    desired,
                    (match r {
                        Some(_) => Some(desired),
                        None => None,
                    }),
                )
                &&& (match r {
                    Some(a) => a == (Action::SetStatus { member: member_id, status: desired }),
                    None => true,
                })
            }),
    {
        let latched = match &self.latch_state {
            Some((m, _)) => *m == member_id,
            None => false,
        };
        let desired = if latched {
            Status::Online
        } else {
            Status::Invisible
        };
        match self.presence.plan_update(member_id, desired) {
            Some(s) => Some(Action::SetStatus { member: member_id, status: s }),
            None => None,
        }
    }

    /// Concludes a proxy run. A committed run remembers the duplicate as
    /// the channel's last proxied message, moves the latch when asked to,
    /// and reconciles presence; a failed run changes no state. Either way
    /// the command message the context carries is deleted.
    pub fn proxy_concluded(&mut self, flow: ProxyFlow, ctx: ProxyContext) -> (r: Vec<Action>)
        requires
            old(self).wf(),
            flow.stage is Committed || flow.stage is Failed,
        ensures
            final(self).wf(),
            final(self).config == old(self).config,
            final(self).reference_user_id == old(self).reference_user_id,
            (match flow.stage {
                ProxyStage::Committed { dup } => {
                    let (nl, t) = spec_latch_after_proxy(
                        old(self).config,
                        old(self).latch_state,
                        flow.member,
                        ctx.latch_ts,
                    );
                    &&& send_contents(final(self).send_cache).contains_key(dup@.channel_id)
                    &&& send_contents(final(self).send_cache)[dup@.channel_id] == dup@
                    &&& (forall|k2: u64| #[trigger] send_contents(
                        final(self).send_cache,
                    ).contains_key(k2) ==> k2 == dup@.channel_id || (send_contents(
                        old(self).send_cache,
                    ).contains_key(k2) && send_contents(final(self).send_cache)[k2]
                        == send_contents(old(self).send_cache)[k2]))
                    &&& (if ctx.latch {
                        &&& final(self).latch_state == nl
                        &&& r@ == (match t {
                            Some(secs) => seq![
                                (Action::ScheduleTimeout {
                                    seconds: secs,
                                    scheduled_for: ctx.latch_ts,
                                }),
                            ],
                            None => Seq::<Action>::empty(),
                        }) + spec_status_actions(old(self).config, nl, old(self).presence.last@, 0)
                            + delete_command_actions(ctx)
                    } else {
                        &&& final(self).latch_state == old(self).latch_state
                        &&& final(self).presence == old(self).presence
                        &&& r@ == delete_command_actions(ctx)
                    })
                },
                ProxyStage::Failed => {
                    &&& final(self).latch_state == old(self).latch_state
                    &&& final(self).presence == old(self).presence
                    &&& final(self).send_cache == old(self).send_cache
                    &&& r@ == delete_command_actions(ctx)
                },
                _ => true,
            }),
    {
        let ProxyFlow { member, source_channel: _, source_id: _, stage } = flow;
        let mut r: Vec<Action> = Vec::new();
        match stage {
            ProxyStage::Committed { dup } => {
                let channel = dup.channel_id;
                send_cache_put(&mut self.send_cache, channel, dup);
                if ctx.latch {
                    match self.update_autoproxy_state_after_message(member, ctx.latch_ts) {
                        Some(a) => {
                            r.push(a);
                        },
                        None => {},
                    }
                    let mut st = self.update_status_of_system();
                    r.append(&mut st);
                }
            },
            ProxyStage::Failed => {},
            _ => {
                proof {
                    assert(false);
                }
            },
        }
        match ctx.delete_command {
            Some((m, ch, mid)) => {
                r.push(Action::DeleteMessage { member: m, channel: ch, message: mid });
            },
            None => {},
        }
        r
    }

    /// Concludes an edit. When the edit went through, the channel's cached
    /// last proxied message is refreshed exactly when the edited message
    /// was that entry, and the command message is deleted; a failed edit
    /// changes nothing.
    pub fn edit_concluded(&mut self, flow: EditFlow, result: Option<FullMessage>) -> (r: Vec<
        Action,
    >)
        requires
            old(self).wf(),
        ensures
            final(self).wf(),
            final(self).config == old(self).config,
            final(self).latch_state == old(self).latch_state,
            final(self).presence == old(self).presence,
            final(self).reference_user_id == old(self).reference_user_id,
            (match result {
                Some(nm) => {
                    &&& edit_cache_rel(
                        send_contents(old(self).send_cache),
                        send_contents(final(self).send_cache),
                        flow.target,
                        nm@,
                    )
                    &&& r@ == seq![
                        (Action::DeleteMessage {
                            member: flow.member,
                            channel: flow.channel,
                            message: flow.command_message,
                        }),
                    ]
                },
                None => {
                    &&& final(self).send_cache == old(self).send_cache
                    &&& r@ == Seq::<Action>::empty()
                },
            }),
    {
        match result {
            Some(nm) => {
                let was_current = match send_cache_get(&mut self.send_cache, nm.channel_id) {
                    Some(cur) => cur.id == flow.target,
                    None => false,
                };
                if was_current {
                    let channel = nm.channel_id;
                    send_cache_put(&mut self.send_cache, channel, nm);
                }
                let mut r: Vec<Action> = Vec::new();
                r.push(
                    Action::DeleteMessage {
                        member: flow.member,
                        channel: flow.channel,
                        message: flow.command_message,
                    },
                );
                r
            },
            None => Vec::new(),
        }
    }
}

/// The service's error code for a missing permission.
pub const MISSING_PERMISSIONS_CODE: u64 = 50013;

/// What a failed delete asks for: the padlock reaction on the message,
/// exactly when the service reported missing permissions.
pub fn delete_failure_reaction(error_code: u64) -> (r: Option<Reaction>)
    ensures
        r == (if error_code == MISSING_PERMISSIONS_CODE {
            Some(Reaction::Lock)
        } else {
            None::<Reaction>
        }),
{
    if error_code == MISSING_PERMISSIONS_CODE {
        Some(Reaction::Lock)
    } else {
        None
    }
}

/// The delete-command action a proxy context asks for, if any.
pub open spec fn delete_command_actions(ctx: ProxyContext) -> Seq<Action> {
    match ctx.delete_command {
        Some(d) => seq![(Action::DeleteMessage { member: d.0, channel: d.1, message: d.2 })],
        None => Seq::empty(),
    }
}

/// How a concluded edit changes the send cache: the edited channel's entry
/// is replaced by the new message exactly when the edit hit that entry.
pub open spec fn edit_cache_rel(
    pre: Map<u64, MessageView>,
    post: Map<u64, MessageView>,
    target: MessageId,
    nm: MessageView,
) -> bool {
    if pre.contains_key(nm.channel_id) && pre[nm.channel_id].id == target {
        post == pre.insert(nm.channel_id, nm)
    } else {
        post == pre
    }
}

/// An edit refreshes the send cache exactly when it hit the cached entry:
/// afterwards the channel's entry is the new message if and only if the
/// edited message was the channel's entry before, or already identical.
pub proof fn lemma_edit_cache_lookup(
    pre: Map<u64, MessageView>,
    post: Map<u64, MessageView>,
    target: MessageId,
    nm: MessageView,
)
    requires
        edit_cache_rel(pre, post, target, nm),
        nm.id == target,
    ensures
        (post.contains_key(nm.channel_id) && post[nm.channel_id] == nm) <==> (pre.contains_key(
            nm.channel_id,
        ) && (pre[nm.channel_id].id == target || pre[nm.channel_id] == nm)),
{
}

/// Latch supersession, first half: a timeout that cleared the latch
/// cannot clear it again — a second timer carrying the same timestamp
/// finds the latch gone and does nothing.
pub proof fn lemma_timeout_fires_once(
    l0: Option<(MemberId, Timestamp)>,
    l1: Option<(MemberId, Timestamp)>,
    l2: Option<(MemberId, Timestamp)>,
    ts: Timestamp,
    c1: bool,
    c2: bool,
)
    requires
        spec_timeout_rel(l0, l1, ts, c1),
        spec_timeout_rel(l1, l2, ts, c2),
    ensures
        !(c1 && c2),
{
}

/// Latch supersession, second half: activity that moved the latch to a
/// later timestamp shields it from an earlier timer — the timer carrying
/// the old timestamp neither clears nor changes the latch.
pub proof fn lemma_timeout_superseded(
    member: MemberId,
    ts_new: Timestamp,
    post: Option<(MemberId, Timestamp)>,
    ts_old: Timestamp,
    cleared: bool,
)
    requires
        spec_timeout_rel(Some((member, ts_new)), post, ts_old, cleared),
        ts_new != ts_old,
    ensures
        !cleared,
        post == Some((member, ts_new)),
{
}

} // verus!
