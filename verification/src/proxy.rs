use vstd::prelude::*;

use crate::types::{copy_attachments, copy_ids, AttachmentInfo, ChannelId, FullMessage, MemberId,
    MessageId, MessageView};

verus! {

/// Why duplicating a message failed.
#[derive(Debug)]
pub enum MessageDuplicateError {
    /// The new content was rejected before anything was sent.
    MessageValidation,
    /// An attachment could not be fetched.
    AttachmentRequest,
    /// The create call itself failed.
    MessageCreate,
    /// The service's answer could not be read back.
    ResponseDeserialization,
}

/// Everything the service needs to create the duplicate: the re-authored
/// content plus the source's reply target, mentions, flags and attachments.
pub struct MessageDraft {
    pub channel_id: ChannelId,
    pub content: String,
    pub reply_to: Option<MessageId>,
    /// Whether the reply pings the replied-to author: true exactly when
    /// the source mentions that author.
    pub reply_ping: bool,
    pub role_mentions: Vec<u64>,
    pub user_mentions: Vec<u64>,
    pub mention_everyone: bool,
    pub flags: Option<u64>,
    pub attachments: Vec<AttachmentInfo>,
}

/// Relies on twilight_validate::message::content: it accepts exactly the
/// contents of at most 2000 characters.
#[verifier::external_body]
fn validate_message_content(content: &str) -> (r: bool)
    ensures
        r == (content@.len() <= 2000),
{
    twilight_validate::message::content(content).is_ok()
}

/// Whether a vector of ids holds the given one.
fn contains_id(v: &Vec<u64>, x: u64) -> (r: bool)
    ensures
        r == v@.contains(x),
{
    let n = v.len();
    let mut i: usize = 0;
    while i < n
        invariant
            0 <= i <= n,
            n == v@.len(),
            forall|k: int| 0 <= k < i ==> v@[k] != x,
        decreases n - i,
    {
        if v[i] == x {
            return true;
        }
        i = i + 1;
    }
    proof {
        if v@.contains(x) {
            let w = choose|w: int| 0 <= w < v@.len() && v@[w] == x;
            assert(v@[w] != x);
        }
    }
    false
}

/// How a draft relates to the source it duplicates: same channel, the new
/// content, the source's reply target (pinging its author only when the
/// source mentions them), and the source's mentions, flags and attachments.
pub open spec fn draft_corresponds(d: MessageDraft, source: MessageView, content: Seq<char>) -> bool {
    &&& d.channel_id == source.channel_id
    &&& d.content@ == content
    &&& (source.is_reply ==> (match source.referenced {
        Some(rm) => d.reply_to == Some(rm.id) && d.reply_ping == source.mentioned_user_ids.contains(
            rm.author_id,
        ),
        None => false,
    }))
    &&& (!source.is_reply ==> d.reply_to is None && d.reply_ping == false)
    &&& d.role_mentions@ == source.mention_roles
    &&& d.user_mentions@ == source.mentioned_user_ids
    &&& d.mention_everyone == source.mention_everyone
    &&& d.flags == source.flags
    &&& d.attachments@.map_values(|a: AttachmentInfo| a@) == source.attachments
}

/// Builds the draft that duplicates `source` with `content` as its body.
/// Succeeds exactly when the content passes validation.
pub fn build_duplicate_draft(source: &FullMessage, content: &str) -> (r: Result<
    MessageDraft,
    MessageDuplicateError,
>)
    requires
        source.wf(),
    ensures
        r is Ok <==> content@.len() <= 2000,
        (r matches Ok(d) ==> draft_corresponds(d, source@, content@)),
        (r matches Err(e) ==> e == MessageDuplicateError::MessageValidation),
{
    if !validate_message_content(content) {
        return Err(MessageDuplicateError::MessageValidation);
    }
    let mut reply_to: Option<MessageId> = None;
    let mut reply_ping = false;
    if source.is_reply {
        match &source.referenced_message {
            Some(b) => {
                reply_to = Some(b.id);
                reply_ping = contains_id(&source.mentioned_user_ids, b.author_id);
            },
            None => {
                proof {
                    assert(false);
                }
            },
        }
    }
    Ok(
        MessageDraft {
            channel_id: source.channel_id,
            content: content.to_owned(),
            reply_to,
            reply_ping,
            role_mentions: copy_ids(&source.mention_roles),
            user_mentions: copy_ids(&source.mentioned_user_ids),
            mention_everyone: source.mention_everyone,
            flags: source.flags,
            attachments: copy_attachments(&source.attachments),
        },
    )
}

/// Where the duplicate-then-delete protocol stands.
pub enum ProxyStage {
    /// The draft is out; the duplicate has not been created yet.
    AwaitingDuplicate,
    /// The duplicate exists; the source still has to be deleted.
    AwaitingSourceDelete { dup: FullMessage },
    /// Deleting the source failed; the duplicate is being taken back.
    RollingBack { dup_id: MessageId },
    /// The source is gone and the duplicate stands in its place.
    Committed { dup: FullMessage },
    /// Nothing visible remains of the attempt.
    Failed,
}

/// What the protocol asks its surroundings to do next.
pub enum ProxyStep {
    DeleteSource { member: MemberId, channel: ChannelId, message: MessageId },
    RollbackDuplicate { member: MemberId, channel: ChannelId, message: MessageId },
    Finished,
}

/// One run of the atomic duplicate-then-delete protocol.
pub struct ProxyFlow {
    pub member: MemberId,
    pub source_channel: ChannelId,
    pub source_id: MessageId,
    pub stage: ProxyStage,
}

impl ProxyFlow {
    /// Starts the protocol for duplicating `source` as `member`.
    pub fn begin(member: MemberId, source: &FullMessage) -> (r: ProxyFlow)
        ensures
            r.member == member,
            r.source_channel == source.channel_id,
            r.source_id == source.id,
            r.stage is AwaitingDuplicate,
    {
        ProxyFlow {
            member,
            source_channel: source.channel_id,
            source_id: source.id,
            stage: ProxyStage::AwaitingDuplicate,
        }
    }

    /// Feeds in the outcome of the create call. On success the source must
    /// be deleted next; on failure nothing was posted and the run is over.
    pub fn on_duplicate_result(&mut self, result: Result<FullMessage, MessageDuplicateError>) -> (r:
        ProxyStep)
        requires
            old(self).stage is AwaitingDuplicate,
        ensures
            final(self).member == old(self).member,
            final(self).source_channel == old(self).source_channel,
            final(self).source_id == old(self).source_id,
            (match result {
                Ok(dup) => final(self).stage == (ProxyStage::AwaitingSourceDelete { dup }) && r
                    == (ProxyStep::DeleteSource {
                    member: old(self).member,
                    channel: old(self).source_channel,
                    message: old(self).source_id,
                }),
                Err(_) => final(self).stage is Failed && r == ProxyStep::Finished,
            }),
    {
        match result {
            Ok(dup) => {
                self.stage = ProxyStage::AwaitingSourceDelete { dup };
                ProxyStep::DeleteSource {
                    member: self.member,
                    channel: self.source_channel,
                    message: self.source_id,
                }
            },
            Err(_) => {
                self.stage = ProxyStage::Failed;
                ProxyStep::Finished
            },
        }
    }

    /// Feeds in the outcome of deleting the source. On success the run is
    /// committed; on failure the duplicate must be taken back, so that no
    /// ghost post remains.
    pub fn on_source_delete_result(self, ok: bool) -> (r: (ProxyFlow, ProxyStep))
        requires
            self.stage is AwaitingSourceDelete,
        ensures
            r.0.member == self.member,
            r.0.source_channel == self.source_channel,
            r.0.source_id == self.source_id,
            (match self.stage {
                ProxyStage::AwaitingSourceDelete { dup } => {
                    if ok {
                        r.0.stage == (ProxyStage::Committed { dup }) && r.1 == ProxyStep::Finished
                    } else {
                        r.0.stage == (ProxyStage::RollingBack { dup_id: dup@.id }) && r.1
                            == (ProxyStep::RollbackDuplicate {
                            member: self.member,
                            channel: self.source_channel,
                            message: dup@.id,
                        })
                    }
                },
                _ => false,
            }),
    {
        let ProxyFlow { member, source_channel, source_id, stage } = self;
        match stage {
            ProxyStage::AwaitingSourceDelete { dup } => {
                if ok {
                    (
                        ProxyFlow {
                            member,
                            source_channel,
                            source_id,
                            stage: ProxyStage::Committed { dup },
                        },
                        ProxyStep::Finished,
                    )
                } else {
                    let dup_id = dup.id;
                    (
                        ProxyFlow {
                            member,
                            source_channel,
                            source_id,
                            stage: ProxyStage::RollingBack { dup_id },
                        },
                        ProxyStep::RollbackDuplicate {
                            member,
                            channel: source_channel,
                            message: dup_id,
                        },
                    )
                }
            },
            _ => {
                proof {
                    assert(false);
                }
                (
                    ProxyFlow { member, source_channel, source_id, stage: ProxyStage::Failed },
                    ProxyStep::Finished,
                )
            },
        }
    }

    /// Feeds in the completion of the rollback delete: the run failed, and
    /// the channel is as it was.
    pub fn on_rollback_done(&mut self) -> (r: ProxyStep)
        requires
            old(self).stage is RollingBack,
        ensures
            final(self).member == old(self).member,
            final(self).source_channel == old(self).source_channel,
            final(self).source_id == old(self).source_id,
            final(self).stage is Failed,
            r == ProxyStep::Finished,
    {
        self.stage = ProxyStage::Failed;
        ProxyStep::Finished
    }
}

/// The messages visible in one channel, keyed by id.
pub type ChannelModel = Map<MessageId, MessageView>;

/// How a created message relates to the draft it was created from.
pub open spec fn message_matches_draft(m: MessageView, d: MessageDraft) -> bool {
    &&& m.channel_id == d.channel_id
    &&& m.content == d.content@
    &&& m.mention_roles == d.role_mentions@
    &&& m.mentioned_user_ids == d.user_mentions@
    &&& m.mention_everyone == d.mention_everyone
    &&& m.flags == d.flags
    &&& m.attachments == d.attachments@.map_values(|a: AttachmentInfo| a@)
    &&& (match d.reply_to {
        Some(rid) => m.is_reply && (m.referenced matches Some(rm) && rm.id == rid),
        None => !m.is_reply,
    })
}

/// No ghost posts: a duplicate whose id was fresh, deleted again on
/// rollback, leaves the channel's visible message set unchanged.
pub proof fn lemma_rollback_invisible(ch: ChannelModel, created: MessageView)
    requires
        !ch.contains_key(created.id),
    ensures
        ch.insert(created.id, created).remove(created.id) == ch,
{
    assert(ch.insert(created.id, created).remove(created.id) =~= ch);
}

/// Round trip of the proxy protocol: creating the duplicate and deleting
/// the source leaves exactly one new message, which carries the new
/// content and the source's reply target, mentions, everyone flag, flags
/// and attachments; the source is gone and nothing else changed.
pub proof fn lemma_proxy_round_trip(
    ch: ChannelModel,
    source: MessageView,
    d: MessageDraft,
    created: MessageView,
    content: Seq<char>,
)
    requires
        draft_corresponds(d, source, content),
        message_matches_draft(created, d),
        !ch.contains_key(created.id),
        created.id != source.id,
    ensures
        ({
            let after = ch.insert(created.id, created).remove(source.id);
            &&& after.contains_key(created.id)
            &&& after[created.id].content == content
            &&& after[created.id].mention_roles == source.mention_roles
            &&& after[created.id].mentioned_user_ids == source.mentioned_user_ids
            &&& after[created.id].mention_everyone == source.mention_everyone
            &&& after[created.id].flags == source.flags
            &&& after[created.id].attachments == source.attachments
            &&& (source.is_reply ==> (match source.referenced {
                Some(rm) => after[created.id].is_reply && (after[created.id].referenced
                    matches Some(rm2) && rm2.id == rm.id),
                None => false,
            }))
            &&& !after.contains_key(source.id)
            &&& forall|k: MessageId| k != created.id && k != source.id ==> ((
            #[trigger] after.contains_key(k)) == ch.contains_key(k) && (after.contains_key(k)
                ==> after[k] == ch[k]))
        }),
{
}

} // verus!
