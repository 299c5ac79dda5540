//! How the kinds and states of the model are written in the database: one
//! lower-case word each, read back leniently (an unknown word falls back to a
//! default).
use crate::entities::{AttachmentType, ConversationType, MessageStatus, MessageType};
use crate::text::str_eq;
use vstd::prelude::*;

verus! {

/// The stored word of an attachment type.
pub open spec fn attachment_type_text(t: AttachmentType) -> Seq<char> {
    match t {
        AttachmentType::Image => "image"@,
        AttachmentType::File => "file"@,
        AttachmentType::Voice => "voice"@,
        AttachmentType::Video => "video"@,
        AttachmentType::Sticker => "sticker"@,
        AttachmentType::Other => "other"@,
    }
}

/// The attachment type a stored word stands for; any other word reads as `Other`.
pub open spec fn attachment_type_of(s: Seq<char>) -> AttachmentType {
    if s == "image"@ {
        AttachmentType::Image
    } else if s == "file"@ {
        AttachmentType::File
    } else if s == "voice"@ {
        AttachmentType::Voice
    } else if s == "video"@ {
        AttachmentType::Video
    } else if s == "sticker"@ {
        AttachmentType::Sticker
    } else {
        AttachmentType::Other
    }
}

/// The stored word of a conversation type.
pub open spec fn conversation_type_text(t: ConversationType) -> Seq<char> {
    match t {
        ConversationType::Private => "private"@,
        ConversationType::Group => "group"@,
        ConversationType::Channel => "channel"@,
        ConversationType::Thread => "thread"@,
        ConversationType::Email => "email"@,
        ConversationType::Bot => "bot"@,
    }
}

/// The conversation type a stored word stands for; any other word reads as `Private`.
pub open spec fn conversation_type_of(s: Seq<char>) -> ConversationType {
    if s == "private"@ {
        ConversationType::Private
    } else if s == "group"@ {
        ConversationType::Group
    } else if s == "channel"@ {
        ConversationType::Channel
    } else if s == "thread"@ {
        ConversationType::Thread
    } else if s == "email"@ {
        ConversationType::Email
    } else if s == "bot"@ {
        ConversationType::Bot
    } else {
        ConversationType::Private
    }
}

/// The stored word of a message type.
pub open spec fn message_type_text(t: MessageType) -> Seq<char> {
    match t {
        MessageType::Text => "text"@,
        MessageType::Image => "image"@,
        MessageType::File => "file"@,
        MessageType::Voice => "voice"@,
        MessageType::Video => "video"@,
        MessageType::Sticker => "sticker"@,
        MessageType::Other => "other"@,
    }
}

/// The message type a stored word stands for; any other word reads as `Other`.
pub open spec fn message_type_of(s: Seq<char>) -> MessageType {
    if s == "text"@ {
        MessageType::Text
    } else if s == "image"@ {
        MessageType::Image
    } else if s == "file"@ {
        MessageType::File
    } else if s == "voice"@ {
        MessageType::Voice
    } else if s == "video"@ {
        MessageType::Video
    } else if s == "sticker"@ {
        MessageType::Sticker
    } else {
        MessageType::Other
    }
}

/// The stored word of a message status.
pub open spec fn message_status_text(t: MessageStatus) -> Seq<char> {
    match t {
        MessageStatus::Pending => "pending"@,
        MessageStatus::Sent => "sent"@,
        MessageStatus::Delivered => "delivered"@,
        MessageStatus::Read => "read"@,
        MessageStatus::Failed => "failed"@,
    }
}

/// The message status a stored word stands for; any other word reads as `Pending`.
pub open spec fn message_status_of(s: Seq<char>) -> MessageStatus {
    if s == "pending"@ {
        MessageStatus::Pending
    } else if s == "sent"@ {
        MessageStatus::Sent
    } else if s == "delivered"@ {
        MessageStatus::Delivered
    } else if s == "read"@ {
        MessageStatus::Read
    } else if s == "failed"@ {
        MessageStatus::Failed
    } else {
        MessageStatus::Pending
    }
}

/// Reads a stored attachment type.
pub fn parse_attachment_type(s: &str) -> (r: AttachmentType)
    ensures
        r == attachment_type_of(s@),
{
    if str_eq(s, "image") {
        AttachmentType::Image
    } else if str_eq(s, "file") {
        AttachmentType::File
    } else if str_eq(s, "voice") {
        AttachmentType::Voice
    } else if str_eq(s, "video") {
        AttachmentType::Video
    } else if str_eq(s, "sticker") {
        AttachmentType::Sticker
    } else {
        AttachmentType::Other
    }
}

/// The word under which an attachment type is stored.
pub fn attachment_type_str(t: AttachmentType) -> (r: &'static str)
    ensures
        r@ == attachment_type_text(t),
{
    match t {
        AttachmentType::Image => "image",
        AttachmentType::File => "file",
        AttachmentType::Voice => "voice",
        AttachmentType::Video => "video",
        AttachmentType::Sticker => "sticker",
        AttachmentType::Other => "other",
    }
}

/// Reads a stored conversation type.
pub fn parse_conversation_type(s: &str) -> (r: ConversationType)
    ensures
        r == conversation_type_of(s@),
{
    if str_eq(s, "private") {
        ConversationType::Private
    } else if str_eq(s, "group") {
        ConversationType::Group
    } else if str_eq(s, "channel") {
        ConversationType::Channel
    } else if str_eq(s, "thread") {
        ConversationType::Thread
    } else if str_eq(s, "email") {
        ConversationType::Email
    } else if str_eq(s, "bot") {
        ConversationType::Bot
    } else {
        ConversationType::Private
    }
}

/// The word under which a conversation type is stored.
pub fn conversation_type_str(t: ConversationType) -> (r: &'static str)
    ensures
        r@ == conversation_type_text(t),
{
    match t {
        ConversationType::Private => "private",
        ConversationType::Group => "group",
        ConversationType::Channel => "channel",
        ConversationType::Thread => "thread",
        ConversationType::Email => "email",
        ConversationType::Bot => "bot",
    }
}

/// Reads a stored message type.
pub fn parse_message_type(s: &str) -> (r: MessageType)
    ensures
        r == message_type_of(s@),
{
    if str_eq(s, "text") {
        MessageType::Text
    } else if str_eq(s, "image") {
        MessageType::Image
    } else if str_eq(s, "file") {
        MessageType::File
    } else if str_eq(s, "voice") {
        MessageType::Voice
    } else if str_eq(s, "video") {
        MessageType::Video
    } else if str_eq(s, "sticker") {
        MessageType::Sticker
    } else {
        MessageType::Other
    }
}

/// The word under which a message type is stored.
pub fn message_type_str(t: MessageType) -> (r: &'static str)
    ensures
        r@ == message_type_text(t),
{
    match t {
        MessageType::Text => "text",
        MessageType::Image => "image",
        MessageType::File => "file",
        MessageType::Voice => "voice",
        MessageType::Video => "video",
        MessageType::Sticker => "sticker",
        MessageType::Other => "other",
    }
}

/// Reads a stored message status.
pub fn parse_message_status(s: &str) -> (r: MessageStatus)
    ensures
        r == message_status_of(s@),
{
    if str_eq(s, "pending") {
        MessageStatus::Pending
    } else if str_eq(s, "sent") {
        MessageStatus::Sent
    } else if str_eq(s, "delivered") {
        MessageStatus::Delivered
    } else if str_eq(s, "read") {
        MessageStatus::Read
    } else if str_eq(s, "failed") {
        MessageStatus::Failed
    } else {
        MessageStatus::Pending
    }
}

/// The word under which a message status is stored.
pub fn message_status_str(t: MessageStatus) -> (r: &'static str)
    ensures
        r@ == message_status_text(t),
{
    match t {
        MessageStatus::Pending => "pending",
        MessageStatus::Sent => "sent",
        MessageStatus::Delivered => "delivered",
        MessageStatus::Read => "read",
        MessageStatus::Failed => "failed",
    }
}

/// Reading back the word an attachment type is stored under gives that type.
pub proof fn lemma_attachment_type_round_trip(t: AttachmentType)
    ensures
        attachment_type_of(attachment_type_text(t)) == t,
{
    let w = seq!["image"@, "file"@, "voice"@, "video"@, "sticker"@, "other"@];
    lemma_words_distinct(w);
    assert(w[0] == "image"@ && w[1] == "file"@ && w[2] == "voice"@);
    assert(w[3] == "video"@ && w[4] == "sticker"@ && w[5] == "other"@);
}

/// Reading back the word a conversation type is stored under gives that type.
pub proof fn lemma_conversation_type_round_trip(t: ConversationType)
    ensures
        conversation_type_of(conversation_type_text(t)) == t,
{
    let w = seq!["private"@, "group"@, "channel"@, "thread"@, "email"@, "bot"@];
    lemma_words_distinct(w);
    assert(w[0] == "private"@ && w[1] == "group"@ && w[2] == "channel"@);
    assert(w[3] == "thread"@ && w[4] == "email"@ && w[5] == "bot"@);
}

/// Reading back the word a message type is stored under gives that type.
pub proof fn lemma_message_type_round_trip(t: MessageType)
    ensures
        message_type_of(message_type_text(t)) == t,
{
    let w = seq!["text"@, "image"@, "file"@, "voice"@, "video"@, "sticker"@, "other"@];
    lemma_words_distinct(w);
    assert(w[0] == "text"@ && w[1] == "image"@ && w[2] == "file"@ && w[3] == "voice"@);
    assert(w[4] == "video"@ && w[5] == "sticker"@ && w[6] == "other"@);
}

/// Reading back the word a message status is stored under gives that status.
pub proof fn lemma_message_status_round_trip(t: MessageStatus)
    ensures
        message_status_of(message_status_text(t)) == t,
{
    let w = seq!["pending"@, "sent"@, "delivered"@, "read"@, "failed"@];
    lemma_words_distinct(w);
    assert(w[0] == "pending"@ && w[1] == "sent"@ && w[2] == "delivered"@);
    assert(w[3] == "read"@ && w[4] == "failed"@);
}

/// Each attachment type is stored as its own lower-case name, and that name
/// reads back as it; any other word reads as `Other`.
pub proof fn lemma_attachment_type_words(s: Seq<char>)
    ensures
        attachment_type_text(AttachmentType::Image) == "image"@,
        attachment_type_text(AttachmentType::File) == "file"@,
        attachment_type_text(AttachmentType::Voice) == "voice"@,
        attachment_type_text(AttachmentType::Video) == "video"@,
        attachment_type_text(AttachmentType::Sticker) == "sticker"@,
        attachment_type_text(AttachmentType::Other) == "other"@,
        attachment_type_of("image"@) == AttachmentType::Image,
        attachment_type_of("file"@) == AttachmentType::File,
        attachment_type_of("voice"@) == AttachmentType::Voice,
        attachment_type_of("video"@) == AttachmentType::Video,
        attachment_type_of("sticker"@) == AttachmentType::Sticker,
        attachment_type_of("other"@) == AttachmentType::Other,
        s != "image"@ && s != "file"@ && s != "voice"@ && s != "video"@ && s != "sticker"@
            ==> attachment_type_of(s) == AttachmentType::Other,
{
    let w = seq!["image"@, "file"@, "voice"@, "video"@, "sticker"@, "other"@];
    lemma_words_distinct(w);
    assert(w[0] == "image"@ && w[1] == "file"@ && w[2] == "voice"@);
    assert(w[3] == "video"@ && w[4] == "sticker"@ && w[5] == "other"@);
}

/// Each conversation type is stored as its own lower-case name, and that name
/// reads back as it; any other word reads as `Private`.
pub proof fn lemma_conversation_type_words(s: Seq<char>)
    ensures
        conversation_type_text(ConversationType::Private) == "private"@,
        conversation_type_text(ConversationType::Group) == "group"@,
        conversation_type_text(ConversationType::Channel) == "channel"@,
        conversation_type_text(ConversationType::Thread) == "thread"@,
        conversation_type_text(ConversationType::Email) == "email"@,
        conversation_type_text(ConversationType::Bot) == "bot"@,
        conversation_type_of("private"@) == ConversationType::Private,
        conversation_type_of("group"@) == ConversationType::Group,
        conversation_type_of("channel"@) == ConversationType::Channel,
        conversation_type_of("thread"@) == ConversationType::Thread,
        conversation_type_of("email"@) == ConversationType::Email,
        conversation_type_of("bot"@) == ConversationType::Bot,
        s != "group"@ && s != "channel"@ && s != "thread"@ && s != "email"@ && s != "bot"@
            ==> conversation_type_of(s) == ConversationType::Private,
{
    let w = seq!["private"@, "group"@, "channel"@, "thread"@, "email"@, "bot"@];
    lemma_words_distinct(w);
    assert(w[0] == "private"@ && w[1] == "group"@ && w[2] == "channel"@);
    assert(w[3] == "thread"@ && w[4] == "email"@ && w[5] == "bot"@);
}

/// Each message type is stored as its own lower-case name, and that name reads
/// back as it; any other word reads as `Other`.
pub proof fn lemma_message_type_words(s: Seq<char>)
    ensures
        message_type_text(MessageType::Text) == "text"@,
        message_type_text(MessageType::Image) == "image"@,
        message_type_text(MessageType::File) == "file"@,
        message_type_text(MessageType::Voice) == "voice"@,
        message_type_text(MessageType::Video) == "video"@,
        message_type_text(MessageType::Sticker) == "sticker"@,
        message_type_text(MessageType::Other) == "other"@,
        message_type_of("text"@) == MessageType::Text,
        message_type_of("image"@) == MessageType::Image,
        message_type_of("file"@) == MessageType::File,
        message_type_of("voice"@) == MessageType::Voice,
        message_type_of("video"@) == MessageType::Video,
        message_type_of("sticker"@) == MessageType::Sticker,
        message_type_of("other"@) == MessageType::Other,
        s != "text"@ && s != "image"@ && s != "file"@ && s != "voice"@ && s != "video"@ && s
            != "sticker"@ ==> message_type_of(s) == MessageType::Other,
{
    let w = seq!["text"@, "image"@, "file"@, "voice"@, "video"@, "sticker"@, "other"@];
    lemma_words_distinct(w);
    assert(w[0] == "text"@ && w[1] == "image"@ && w[2] == "file"@ && w[3] == "voice"@);
    assert(w[4] == "video"@ && w[5] == "sticker"@ && w[6] == "other"@);
}

/// Each message status is stored as its own lower-case name, and that name
/// reads back as it; any other word reads as `Pending`.
pub proof fn lemma_message_status_words(s: Seq<char>)
    ensures
        message_status_text(MessageStatus::Pending) == "pending"@,
        message_status_text(MessageStatus::Sent) == "sent"@,
        message_status_text(MessageStatus::Delivered) == "delivered"@,
        message_status_text(MessageStatus::Read) == "read"@,
        message_status_text(MessageStatus::Failed) == "failed"@,
        message_status_of("pending"@) == MessageStatus::Pending,
        message_status_of("sent"@) == MessageStatus::Sent,
        message_status_of("delivered"@) == MessageStatus::Delivered,
        message_status_of("read"@) == MessageStatus::Read,
        message_status_of("failed"@) == MessageStatus::Failed,
        s != "sent"@ && s != "delivered"@ && s != "read"@ && s != "failed"@ ==> message_status_of(
            s,
        ) == MessageStatus::Pending,
{
    let w = seq!["pending"@, "sent"@, "delivered"@, "read"@, "failed"@];
    lemma_words_distinct(w);
    assert(w[0] == "pending"@ && w[1] == "sent"@ && w[2] == "delivered"@);
    assert(w[3] == "read"@ && w[4] == "failed"@);
}

/// The stored words differ from one another.
proof fn lemma_words_distinct(w: Seq<Seq<char>>)
    requires
        w == seq!["image"@, "file"@, "voice"@, "video"@, "sticker"@, "other"@]
        || w == seq!["private"@, "group"@, "channel"@, "thread"@, "email"@, "bot"@]
        || w == seq!["text"@, "image"@, "file"@, "voice"@, "video"@, "sticker"@, "other"@]
        || w == seq!["pending"@, "sent"@, "delivered"@, "read"@, "failed"@],
    ensures
        forall|i: int, j: int| 0 <= i < j < w.len() ==> w[i] != w[j],
{
    reveal_strlit("image");
    reveal_strlit("file");
    reveal_strlit("voice");
    reveal_strlit("video");
    reveal_strlit("sticker");
    reveal_strlit("other");
    reveal_strlit("private");
    reveal_strlit("group");
    reveal_strlit("channel");
    reveal_strlit("thread");
    reveal_strlit("email");
    reveal_strlit("bot");
    reveal_strlit("text");
    reveal_strlit("pending");
    reveal_strlit("sent");
    reveal_strlit("delivered");
    reveal_strlit("read");
    reveal_strlit("failed");
    assert forall|i: int, j: int| 0 <= i < j < w.len() implies w[i] != w[j] by {
        if w[i].len() == w[j].len() {
            assert(w[i][0] != w[j][0] || w[i][1] != w[j][1] || w[i][2] != w[j][2]);
        }
    }
}

} // verus!
