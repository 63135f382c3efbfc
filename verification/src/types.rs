use vstd::prelude::*;

verus! {

/// Index of a member within a system's member list.
pub type MemberId = usize;

/// Snowflake identifier of a message.
pub type MessageId = u64;

/// Snowflake identifier of a channel.
pub type ChannelId = u64;

/// Snowflake identifier of a user account.
pub type UserId = u64;

/// A point in time, in microseconds since the Unix epoch.
pub type Timestamp = u64;

/// Presence status a bot can advertise on its gateway connection.
#[derive(Clone, Copy, PartialEq, Eq, Structural, Debug)]
pub enum Status {
    Online,
    DoNotDisturb,
    Idle,
    Invisible,
    Offline,
}

/// One attachment of a message: enough to re-upload it elsewhere.
pub struct AttachmentInfo {
    pub id: u64,
    pub filename: String,
    pub description: Option<String>,
    pub proxy_url: String,
}

/// A fully materialised chat message, as the logic reads it.
pub struct FullMessage {
    pub id: MessageId,
    pub channel_id: ChannelId,
    pub author_id: UserId,
    pub content: String,
    pub timestamp: Timestamp,
    pub edited_timestamp: Option<Timestamp>,
    /// Whether the message is a reply to another message.
    pub is_reply: bool,
    /// The message this one replies to, when the service attached it.
    pub referenced_message: Option<Box<FullMessage>>,
    /// Ids of the users this message mentions.
    pub mentioned_user_ids: Vec<UserId>,
    /// Ids of the roles this message mentions.
    pub mention_roles: Vec<u64>,
    pub mention_everyone: bool,
    /// Raw message flag bits, when present.
    pub flags: Option<u64>,
    pub attachments: Vec<AttachmentInfo>,
}

impl FullMessage {
    /// The ordering key for deduplication: the edit time when the message
    /// was edited, else its creation time.
    pub open spec fn spec_effective_timestamp(&self) -> Timestamp {
        match self.edited_timestamp {
            Some(t) => t,
            None => self.timestamp,
        }
    }

    pub fn effective_timestamp(&self) -> (r: Timestamp)
        ensures
            r == self.spec_effective_timestamp(),
    {
        match self.edited_timestamp {
            Some(t) => t,
            None => self.timestamp,
        }
    }

    /// A message marked as a reply carries its referenced message.
    pub open spec fn wf(&self) -> bool {
        self.is_reply ==> self.referenced_message is Some
    }
}

/// Mathematical form of an attachment.
#[verifier::ext_equal]
pub struct AttachmentView {
    pub id: u64,
    pub filename: Seq<char>,
    pub description: Option<Seq<char>>,
    pub proxy_url: Seq<char>,
}

impl View for AttachmentInfo {
    type V = AttachmentView;

    open spec fn view(&self) -> AttachmentView {
        AttachmentView {
            id: self.id,
            filename: self.filename@,
            description: (match self.description {
                Some(d) => Some(d@),
                None => None,
            }),
            proxy_url: self.proxy_url@,
        }
    }
}

/// What the logic reads of a reply target.
#[verifier::ext_equal]
pub struct ReferencedView {
    pub id: MessageId,
    pub author_id: UserId,
    pub content: Seq<char>,
}

/// Mathematical form of a full message.
#[verifier::ext_equal]
pub struct MessageView {
    pub id: MessageId,
    pub channel_id: ChannelId,
    pub author_id: UserId,
    pub content: Seq<char>,
    pub timestamp: Timestamp,
    pub edited_timestamp: Option<Timestamp>,
    pub is_reply: bool,
    pub referenced: Option<ReferencedView>,
    pub mentioned_user_ids: Seq<UserId>,
    pub mention_roles: Seq<u64>,
    pub mention_everyone: bool,
    pub flags: Option<u64>,
    pub attachments: Seq<AttachmentView>,
}

impl MessageView {
    /// The ordering key for deduplication.
    pub open spec fn effective_timestamp(&self) -> Timestamp {
        match self.edited_timestamp {
            Some(t) => t,
            None => self.timestamp,
        }
    }
}

/// The mathematical form of a full message, reply target included.
pub open spec fn spec_msg_view(m: FullMessage) -> MessageView {
    MessageView {
        id: m.id,
        channel_id: m.channel_id,
        author_id: m.author_id,
        content: m.content@,
        timestamp: m.timestamp,
        edited_timestamp: m.edited_timestamp,
        is_reply: m.is_reply,
        referenced: (match m.referenced_message {
            Some(b) => Some(
                ReferencedView { id: (*b).id, author_id: (*b).author_id, content: (*b).content@ },
            ),
            None => None,
        }),
        mentioned_user_ids: m.mentioned_user_ids@,
        mention_roles: m.mention_roles@,
        mention_everyone: m.mention_everyone,
        flags: m.flags,
        attachments: m.attachments@.map_values(|a: AttachmentInfo| a@),
    }
}

impl View for FullMessage {
    type V = MessageView;

    open spec fn view(&self) -> MessageView {
        spec_msg_view(*self)
    }
}

/// Copies a vector of plain integers.
pub fn copy_ids(v: &Vec<u64>) -> (r: Vec<u64>)
    ensures
        r@ == v@,
{
    let mut r: Vec<u64> = Vec::new();
    let n = v.len();
    let mut i: usize = 0;
    while i < n
        invariant
            0 <= i <= n,
            n == v@.len(),
            r@ == v@.subrange(0, i as int),
        decreases n - i,
    {
        r.push(v[i]);
        proof {
            assert(r@ =~= v@.subrange(0, i as int + 1));
        }
        i = i + 1;
    }
    proof {
        assert(v@.subrange(0, n as int) =~= v@);
    }
    r
}

impl AttachmentInfo {
    /// A fresh attachment record with the same contents.
    pub fn duplicate(&self) -> (r: AttachmentInfo)
        ensures
            r@ == self@,
    {
        AttachmentInfo {
            id: self.id,
            filename: self.filename.clone(),
            description: (match &self.description {
                Some(d) => Some(d.clone()),
                None => None,
            }),
            proxy_url: self.proxy_url.clone(),
        }
    }
}

/// Copies a vector of attachments.
pub fn copy_attachments(v: &Vec<AttachmentInfo>) -> (r: Vec<AttachmentInfo>)
    ensures
        r@.map_values(|a: AttachmentInfo| a@) == v@.map_values(|a: AttachmentInfo| a@),
{
    let mut r: Vec<AttachmentInfo> = Vec::new();
    let n = v.len();
    let mut i: usize = 0;
    while i < n
        invariant
            0 <= i <= n,
            n == v@.len(),
            r@.len() == i,
            forall|k: int| 0 <= k < i ==> (#[trigger] r@[k])@ == v@[k]@,
        decreases n - i,
    {
        r.push(v[i].duplicate());
        i = i + 1;
    }
    proof {
        assert(r@.map_values(|a: AttachmentInfo| a@) =~= v@.map_values(|a: AttachmentInfo| a@));
    }
    r
}

impl FullMessage {
    /// A fresh message with the same mathematical content.
    pub fn duplicate(&self) -> (r: FullMessage)
        ensures
            r@ == self@,
        decreases *self,
    {
        let referenced_message = match &self.referenced_message {
            Some(b) => Some(Box::new(b.duplicate())),
            None => None,
        };
        let r = FullMessage {
            id: self.id,
            channel_id: self.channel_id,
            author_id: self.author_id,
            content: self.content.clone(),
            timestamp: self.timestamp,
            edited_timestamp: self.edited_timestamp,
            is_reply: self.is_reply,
            referenced_message,
            mentioned_user_ids: copy_ids(&self.mentioned_user_ids),
            mention_roles: copy_ids(&self.mention_roles),
            mention_everyone: self.mention_everyone,
            flags: self.flags,
            attachments: copy_attachments(&self.attachments),
        };
        proof {
            assert(r@ =~= self@);
        }
        r
    }
}

/// A partial view of an edited message, as gateway update events carry it.
pub struct PartialMessage {
    pub id: MessageId,
    pub channel_id: ChannelId,
    pub author_id: Option<UserId>,
    pub content: Option<String>,
    pub edited_timestamp: Option<Timestamp>,
}

/// One dedup-cache entry: the last full message seen under an id, and
/// the member whose bot observed it.
pub struct CachedMessage {
    pub message: FullMessage,
    pub observer: MemberId,
}

/// Mathematical form of a dedup-cache entry.
#[verifier::ext_equal]
pub struct CachedView {
    pub message: MessageView,
    pub observer: MemberId,
}

impl View for CachedMessage {
    type V = CachedView;

    open spec fn view(&self) -> CachedView {
        CachedView { message: self.message@, observer: self.observer }
    }
}

impl CachedMessage {
    /// A fresh entry with the same mathematical content.
    pub fn duplicate(&self) -> (r: CachedMessage)
        ensures
            r@ == self@,
    {
        CachedMessage { message: self.message.duplicate(), observer: self.observer }
    }
}

/// A message observation on its way to the aggregator.
pub enum Message {
    /// A fully materialised message, and the member whose bot observed it.
    Complete(FullMessage, MemberId),
    /// A partial update, and the member whose bot observed it.
    Partial(PartialMessage, MemberId),
}

/// What flows through the aggregator's input channel.
pub type MessageEvent = (Timestamp, Message);

/// Placeholder payload for reaction events; not yet carried.
pub type ReactionEvent = (Timestamp, ());

/// Placeholder payload for command events; not yet carried.
pub type CommandEvent = (Timestamp, ());

/// Events delivered to the manager's system loop.
pub enum SystemEvent {
    GatewayConnected(MemberId, UserId),
    GatewayError(MemberId, String),
    GatewayClosed(MemberId),
    RefetchMessage(MemberId, MessageId, ChannelId),
    UpdateClientStatus(MemberId),
    NewMessage(Timestamp, FullMessage, MemberId),
    EditedMessage(MessageEvent),
    NewReaction(ReactionEvent),
    NewCommand(CommandEvent),
    AutoproxyTimeout(Timestamp),
}

/// What a system's thread asks of the supervisor when it ends.
pub enum SystemThreadCommand {
    Restart,
    ReloadConfig,
    ShutdownSystem,
    ShutdownAll,
}

} // verus!
