//! Message records, their attachments, the inputs that create and update them,
//! and the rule that message content is never blank.
use vstd::prelude::*;
use crate::errors::CoreError;
use crate::ids::{AttachmentId, AuthorId, ChannelId, MessageId};
use crate::system::random_uuid;

verus! {

/// A file attached to a message.
#[derive(Debug, Clone)]
pub struct Attachment {
    pub id: AttachmentId,
    pub name: String,
    pub url: String,
}

/// A stored message. Times are milliseconds since the Unix epoch.
#[derive(Debug, Clone)]
pub struct Message {
    pub id: MessageId,
    pub channel_id: ChannelId,
    pub author_id: AuthorId,
    pub content: String,
    pub reply_to_message_id: Option<MessageId>,
    pub attachments: Vec<Attachment>,
    pub is_pinned: bool,
    pub created_at: i64,
    pub updated_at: Option<i64>,
}

/// What an attachment holds, as plain values.
pub struct AttachmentView {
    pub id: AttachmentId,
    pub name: Seq<char>,
    pub url: Seq<char>,
}

/// What a message holds, as plain values.
pub struct MessageView {
    pub id: MessageId,
    pub channel_id: ChannelId,
    pub author_id: AuthorId,
    pub content: Seq<char>,
    pub reply_to_message_id: Option<MessageId>,
    pub attachments: Seq<AttachmentView>,
    pub is_pinned: bool,
    pub created_at: i64,
    pub updated_at: Option<i64>,
}

impl View for Attachment {
    type V = AttachmentView;

    open spec fn view(&self) -> AttachmentView {
        AttachmentView { id: self.id, name: self.name@, url: self.url@ }
    }
}

pub open spec fn attachment_views(v: Seq<Attachment>) -> Seq<AttachmentView> {
    v.map_values(|a: Attachment| a@)
}

impl View for Message {
    type V = MessageView;

    open spec fn view(&self) -> MessageView {
        MessageView {
            id: self.id,
            channel_id: self.channel_id,
            author_id: self.author_id,
            content: self.content@,
            reply_to_message_id: self.reply_to_message_id,
            attachments: attachment_views(self.attachments@),
            is_pinned: self.is_pinned,
            created_at: self.created_at,
            updated_at: self.updated_at,
        }
    }
}

impl Attachment {
    /// A copy of this attachment.
    pub fn duplicate(&self) -> (r: Attachment)
        ensures
            r@ == self@,
    {
        Attachment { id: self.id, name: self.name.clone(), url: self.url.clone() }
    }
}

/// A copy of a list of attachments, in the same order.
pub fn duplicate_attachments(v: &Vec<Attachment>) -> (r: Vec<Attachment>)
    ensures
        attachment_views(r@) == attachment_views(v@),
{
    let mut out: Vec<Attachment> = Vec::new();
    let mut i: usize = 0;
    while i < v.len()
        invariant
            i <= v.len(),
            attachment_views(out@) == attachment_views(v@.take(i as int)),
        decreases v.len() - i,
    {
        let d = v[i].duplicate();
        let ghost prev = out@;
        out.push(d);
        proof {
            assert(attachment_views(out@) =~= attachment_views(prev).push(d@));
            assert(attachment_views(v@.take(i as int + 1)) =~= attachment_views(
                v@.take(i as int),
            ).push(v@[i as int]@));
        }
        i = i + 1;
    }
    proof {
        assert(v@.take(v.len() as int) =~= v@);
    }
    out
}

impl Message {
    /// A copy of this message.
    pub fn duplicate(&self) -> (r: Message)
        ensures
            r@ == self@,
    {
        Message {
            id: self.id,
            channel_id: self.channel_id,
            author_id: self.author_id,
            content: self.content.clone(),
            reply_to_message_id: self.reply_to_message_id,
            attachments: duplicate_attachments(&self.attachments),
            is_pinned: self.is_pinned,
            created_at: self.created_at,
            updated_at: self.updated_at,
        }
    }
}

/// What the repository needs to store a new message.
#[derive(Debug, Clone)]
pub struct InsertMessageInput {
    pub id: MessageId,
    pub channel_id: ChannelId,
    pub author_id: AuthorId,
    pub content: String,
    pub reply_to_message_id: Option<MessageId>,
    pub attachments: Vec<Attachment>,
}

impl Message {
    /// The record that storing `input` at time `now` creates: not pinned,
    /// never updated.
    pub fn from_input(input: InsertMessageInput, now: i64) -> (r: Message)
        ensures
            r.id == input.id,
            r.channel_id == input.channel_id,
            r.author_id == input.author_id,
            r.content == input.content,
            r.reply_to_message_id == input.reply_to_message_id,
            r.attachments == input.attachments,
            !r.is_pinned,
            r.created_at == now,
            r.updated_at is None,
    {
        Message {
            id: input.id,
            channel_id: input.channel_id,
            author_id: input.author_id,
            content: input.content,
            reply_to_message_id: input.reply_to_message_id,
            attachments: input.attachments,
            is_pinned: false,
            created_at: now,
            updated_at: None,
        }
    }
}

/// A client's request to post a message.
#[derive(Debug, Clone)]
pub struct CreateMessageRequest {
    pub channel_id: ChannelId,
    pub content: String,
    pub reply_to_message_id: Option<MessageId>,
    pub attachments: Vec<Attachment>,
}

impl CreateMessageRequest {
    /// The input for the repository: the request, its author, and a fresh
    /// random message id.
    pub fn into_input(self, author_id: AuthorId) -> (r: InsertMessageInput)
        ensures
            r.channel_id == self.channel_id,
            r.author_id == author_id,
            r.content == self.content,
            r.reply_to_message_id == self.reply_to_message_id,
            r.attachments == self.attachments,
    {
        InsertMessageInput {
            id: MessageId(random_uuid()),
            channel_id: self.channel_id,
            author_id,
            content: self.content,
            reply_to_message_id: self.reply_to_message_id,
            attachments: self.attachments,
        }
    }
}

/// A change to a stored message: each field that is present replaces the
/// stored one; the others are kept.
#[derive(Debug, Clone)]
pub struct UpdateMessageInput {
    pub id: MessageId,
    pub content: Option<String>,
    pub is_pinned: Option<bool>,
}

/// A client's request to change a message.
#[derive(Debug, Clone)]
pub struct UpdateMessageRequest {
    pub content: Option<String>,
    pub is_pinned: Option<bool>,
}

impl UpdateMessageRequest {
    /// The change for the message `id`.
    pub fn into_input(self, id: MessageId) -> (r: UpdateMessageInput)
        ensures
            r.id == id,
            r.content == self.content,
            r.is_pinned == self.is_pinned,
    {
        UpdateMessageInput { id, content: self.content, is_pinned: self.is_pinned }
    }
}

/// Published after a message changed.
#[derive(Debug, Clone)]
pub struct UpdateMessageEvent {
    pub id: MessageId,
    pub content: String,
    pub is_pinned: bool,
}

/// Published after a message was deleted.
#[derive(Debug, Clone)]
pub struct DeleteMessageEvent {
    pub id: MessageId,
}

/// A character with the Unicode White_Space property, which is what
/// `str::trim` removes.
pub open spec fn is_white_space(c: char) -> bool {
    let u = c as u32;
    (0x09 <= u && u <= 0x0d) || u == 0x20 || u == 0x85 || u == 0xa0 || u == 0x1680 || (0x2000
        <= u && u <= 0x200a) || u == 0x2028 || u == 0x2029 || u == 0x202f || u == 0x205f || u
        == 0x3000
}

/// Content that is empty once surrounding white space is trimmed.
pub open spec fn is_blank(s: Seq<char>) -> bool {
    forall|i: int| 0 <= i < s.len() ==> is_white_space(#[trigger] s[i])
}

/// Whether `c` has the Unicode White_Space property.
pub fn is_white_space_char(c: char) -> (r: bool)
    ensures
        r == is_white_space(c),
{
    let u = c as u32;
    (0x09 <= u && u <= 0x0d) || u == 0x20 || u == 0x85 || u == 0xa0 || u == 0x1680 || (0x2000
        <= u && u <= 0x200a) || u == 0x2028 || u == 0x2029 || u == 0x202f || u == 0x205f || u
        == 0x3000
}

/// Whether `content` is empty after trimming white space.
pub fn content_is_blank(content: &str) -> (r: bool)
    ensures
        r == is_blank(content@),
{
    let n = content.unicode_len();
    let mut i: usize = 0;
    while i < n
        invariant
            n == content@.len(),
            i <= n,
            forall|k: int| 0 <= k < i ==> is_white_space(#[trigger] content@[k]),
        decreases n - i,
    {
        if !is_white_space_char(content.get_char(i)) {
            return false;
        }
        i = i + 1;
    }
    true
}

/// Accepts content that is not blank; blank content is `InvalidMessageName`.
pub fn validate_content(content: &String) -> (r: Result<(), CoreError>)
    ensures
        r is Ok <==> !is_blank(content@),
        r matches Err(e) ==> e is InvalidMessageName,
{
    if content_is_blank(content.as_str()) {
        Err(CoreError::InvalidMessageName)
    } else {
        Ok(())
    }
}

} // verus!
