//! Connectors: the adapters between a platform and the core, and what each
//! of them declares it can do.
use crate::clock::Timestamp;
use crate::entities::{Message, MessageStatus, MessageType};
use crate::ids::{name_based_id, namespace_url, new_id, uuid_v5_value};
use crate::text::{decimal_text, push_decimal};
use vstd::prelude::*;
use vstd::utf8::encode_utf8;

verus! {

/// What a connector declares it can do.
pub struct ConnectorCapabilities {
    pub receive_messages: bool,
    pub send_messages: bool,
    pub images: bool,
    pub files: bool,
    pub voice: bool,
    pub reactions: bool,
    pub edit_message: bool,
    pub delete_message: bool,
    pub typing_indicator: bool,
    pub read_receipts: bool,
}

/// What the Telegram connector can do: everything but read receipts.
pub open spec fn telegram_capabilities() -> ConnectorCapabilities {
    ConnectorCapabilities {
        receive_messages: true,
        send_messages: true,
        images: true,
        files: true,
        voice: true,
        reactions: true,
        edit_message: true,
        delete_message: true,
        typing_indicator: true,
        read_receipts: false,
    }
}

/// The interface every connector offers the core: its unique name and its
/// capabilities. Sending and receiving, which talk to the platform, are added
/// by the application around the library.
pub trait Connector {
    fn name(&self) -> &str;

    fn capabilities(&self) -> ConnectorCapabilities;
}

/// `teloxide::Bot`, the Telegram Bot API client of the connector.
#[verifier::external_type_specification]
#[verifier::external_body]
pub struct ExBot(teloxide::Bot);

/// The token a `teloxide::Bot` authenticates with, as `Bot::token` returns it.
pub uninterp spec fn bot_token(bot: teloxide::Bot) -> Seq<char>;

/// `teloxide::Bot::new(token)`: a Bot API client with default HTTP settings
/// that authenticates with `token` (`Bot::new` stores the token, which
/// `Bot::token` hands back). Nothing else is stated of the client.
#[verifier::external_body]
fn bot_for_token(token: &str) -> (r: teloxide::Bot)
    ensures
        bot_token(r) == token@,
{
    teloxide::Bot::new(token)
}

/// What a received Telegram message carries, as far as the connector reads it:
/// its text, the number of photo sizes, the file ids of a video, a voice note or
/// a sticker, whether it is audio, and a document's optional file name.
pub struct TelegramContent {
    pub text: Option<String>,
    pub photo_count: Option<usize>,
    pub video_file_id: Option<String>,
    pub voice_file_id: Option<String>,
    pub has_audio: bool,
    pub document: Option<Option<String>>,
    pub sticker_file_id: Option<String>,
}

/// The kind of a received message: the first that applies of photo, video,
/// voice or audio, document, sticker; text otherwise.
pub open spec fn telegram_message_type(c: TelegramContent) -> MessageType {
    if c.photo_count is Some {
        MessageType::Image
    } else if c.video_file_id is Some {
        MessageType::Video
    } else if c.voice_file_id is Some || c.has_audio {
        MessageType::Voice
    } else if c.document is Some {
        MessageType::File
    } else if c.sticker_file_id is Some {
        MessageType::Sticker
    } else {
        MessageType::Text
    }
}

/// What kind a received message is, by what it carries: a photo makes an image;
/// else a video a video; else a voice note or an audio file a voice message;
/// else a document a file; else a sticker a sticker; a message with none of
/// these is text. In particular a voice note with no photo or video is a voice
/// message, whatever else it carries.
pub proof fn lemma_message_type_by_content(c: TelegramContent)
    ensures
        c.photo_count is Some ==> telegram_message_type(c) == MessageType::Image,
        c.photo_count is None && c.video_file_id is Some ==> telegram_message_type(c)
            == MessageType::Video,
        c.photo_count is None && c.video_file_id is None && (c.voice_file_id is Some
            || c.has_audio) ==> telegram_message_type(c) == MessageType::Voice,
        c.photo_count is None && c.video_file_id is None && c.voice_file_id is None
            && !c.has_audio && c.document is Some ==> telegram_message_type(c) == MessageType::File,
        c.photo_count is None && c.video_file_id is None && c.voice_file_id is None
            && !c.has_audio && c.document is None && c.sticker_file_id is Some
            ==> telegram_message_type(c) == MessageType::Sticker,
        c.photo_count is None && c.video_file_id is None && c.voice_file_id is None
            && !c.has_audio && c.document is None && c.sticker_file_id is None
            ==> telegram_message_type(c) == MessageType::Text,
{
}

/// The content of a received message: its text; else `<n> photos`; else the
/// file id of the video, the voice note; else the document's name (or
/// "document"); else the sticker's file id; else "unsupported content".
pub open spec fn telegram_content_text(c: TelegramContent) -> Seq<char> {
    match (c.text, c.photo_count, c.video_file_id, c.voice_file_id, c.document, c.sticker_file_id) {
        (Some(t), _, _, _, _, _) => t@,
        (None, Some(n), _, _, _, _) => decimal_text(n as int) + " photos"@,
        (None, None, Some(v), _, _, _) => v@,
        (None, None, None, Some(v), _, _) => v@,
        (None, None, None, None, Some(d), _) => match d {
            Some(name) => name@,
            None => "document"@,
        },
        (None, None, None, None, None, Some(s)) => s@,
        _ => "unsupported content"@,
    }
}

/// What a received message reads as, by what it carries: its text when it has
/// one; else the number of photo sizes followed by " photos"; else the video's,
/// then the voice note's file id; else the document's name, or "document" when
/// it has none; else the sticker's file id; else "unsupported content".
pub proof fn lemma_content_by_kind(c: TelegramContent)
    ensures
        c.text is Some ==> telegram_content_text(c) == c.text.unwrap()@,
        c.text is None && c.photo_count is Some ==> telegram_content_text(c) == decimal_text(
            c.photo_count.unwrap() as int,
        ) + " photos"@,
        c.text is None && c.photo_count is None && c.video_file_id is Some
            ==> telegram_content_text(c) == c.video_file_id.unwrap()@,
        c.text is None && c.photo_count is None && c.video_file_id is None
            && c.voice_file_id is Some ==> telegram_content_text(c) == c.voice_file_id.unwrap()@,
        c.text is None && c.photo_count is None && c.video_file_id is None
            && c.voice_file_id is None && c.document == Some(None::<String>)
            ==> telegram_content_text(c) == "document"@,
        c.text is None && c.photo_count is None && c.video_file_id is None
            && c.voice_file_id is None && c.document is Some && c.document.unwrap() is Some
            ==> telegram_content_text(c) == c.document.unwrap().unwrap()@,
        c.text is None && c.photo_count is None && c.video_file_id is None
            && c.voice_file_id is None && c.document is None && c.sticker_file_id is Some
            ==> telegram_content_text(c) == c.sticker_file_id.unwrap()@,
        c.text is None && c.photo_count is None && c.video_file_id is None
            && c.voice_file_id is None && c.document is None && c.sticker_file_id is None
            ==> telegram_content_text(c) == "unsupported content"@,
{
}

/// After a poll that returned updates, the connector polls from one past the
/// last update's id (the largest `u32` staying as it is), taken as an `i32`;
/// after a poll that returned none, from where it was.
pub proof fn lemma_offset_after(current: i32, update_ids: Seq<u32>)
    ensures
        update_ids.len() == 0 ==> offset_after(current, update_ids) == current,
        update_ids.len() > 0 && update_ids.last() < u32::MAX && update_ids.last() < i32::MAX
            ==> offset_after(current, update_ids) == update_ids.last() + 1,
        update_ids.len() > 0 && update_ids.last() == u32::MAX ==> offset_after(current, update_ids)
            == (u32::MAX as i32),
{
}

/// The name under which a chat's conversation identifier derives: `telegram:chat:<id>`.
pub open spec fn telegram_chat_key(chat_id: int) -> Seq<char> {
    "telegram:chat:"@ + decimal_text(chat_id)
}

/// The name under which a sender's identifier derives: `telegram:user:<id>`, or
/// `telegram:user:unknown` when the sender is not known.
pub open spec fn telegram_sender_key(user_id: Option<u64>) -> Seq<char> {
    "telegram:user:"@ + match user_id {
        Some(u) => decimal_text(u as int),
        None => "unknown"@,
    }
}

/// The offset to poll from after updates with the given ids: one past the
/// last (saturating, then taken as an `i32`), or unchanged when there were none.
pub open spec fn offset_after(current: i32, update_ids: Seq<u32>) -> i32 {
    if update_ids.len() == 0 {
        current
    } else {
        (if update_ids.last() == u32::MAX {
            u32::MAX
        } else {
            (update_ids.last() + 1) as u32
        }) as i32
    }
}

/// The identifier of the conversation of a Telegram chat: the name-based
/// identifier of `telegram:chat:<chat id>`.
pub open spec fn telegram_conversation_id(chat_id: int) -> u128 {
    uuid_v5_value(0x6ba7b8119dad11d180b400c04fd430c8u128, encode_utf8(telegram_chat_key(chat_id)))
}

/// The chat last recorded for a conversation in a list of (conversation, chat)
/// pairs, if any.
pub open spec fn chat_of(chats: Seq<(u128, i64)>, conversation_id: u128) -> Option<i64>
    decreases chats.len(),
{
    if chats.len() == 0 {
        None
    } else if chats.last().0 == conversation_id {
        Some(chats.last().1)
    } else {
        chat_of(chats.drop_last(), conversation_id)
    }
}

/// The Telegram connector, through the Bot API. It remembers the chat behind
/// each conversation it has received messages in, so that it can send to it.
pub struct TelegramConnector {
    bot: teloxide::Bot,
    offset: i32,
    chats: Vec<(u128, i64)>,
}

impl TelegramConnector {
    /// The offset the next poll starts from.
    pub closed spec fn poll_offset(&self) -> int {
        self.offset as int
    }

    /// The Telegram chat a conversation stands for, as far as the connector
    /// has seen it.
    pub closed spec fn chat_for(&self, conversation_id: u128) -> Option<i64> {
        chat_of(self.chats@, conversation_id)
    }

    /// The Bot API client the connector talks through.
    pub closed spec fn bot_client(&self) -> teloxide::Bot {
        self.bot
    }

    /// A connector for a bot token: its client authenticates with that token,
    /// it polls from offset 0 and knows no chat yet.
    pub fn new(token: &str) -> (r: TelegramConnector)
        ensures
            bot_token(r.bot_client()) == token@,
            r.poll_offset() == 0,
            forall|c: u128| #[trigger] r.chat_for(c) is None,
    {
        TelegramConnector { bot: bot_for_token(token), offset: 0, chats: Vec::new() }
    }

    /// The Bot API client.
    pub fn bot(&self) -> (r: &teloxide::Bot)
        ensures
            *r == self.bot_client(),
    {
        &self.bot
    }

    /// The offset the next poll starts from.
    pub fn offset(&self) -> (r: i32)
        ensures
            r == self.poll_offset(),
    {
        self.offset
    }

    /// Takes note of the updates a poll returned.
    pub fn record_updates(&mut self, update_ids: &Vec<u32>)
        ensures
            final(self).poll_offset() == offset_after(old(self).poll_offset() as i32, update_ids@) as int,
            final(self).bot_client() == old(self).bot_client(),
            forall|c: u128| #[trigger] final(self).chat_for(c) == old(self).chat_for(c),
    {
        let n = update_ids.len();
        if n > 0 {
            let last = update_ids[n - 1];
            let next: u32 = last.saturating_add(1);
            self.offset = next as i32;
        }
    }

    /// The kind of a received message.
    pub fn parse_message_type(content: &TelegramContent) -> (r: MessageType)
        ensures
            r == telegram_message_type(*content),
    {
        if content.photo_count.is_some() {
            MessageType::Image
        } else if content.video_file_id.is_some() {
            MessageType::Video
        } else if content.voice_file_id.is_some() || content.has_audio {
            MessageType::Voice
        } else if content.document.is_some() {
            MessageType::File
        } else if content.sticker_file_id.is_some() {
            MessageType::Sticker
        } else {
            MessageType::Text
        }
    }

    /// The content of a received message.
    pub fn extract_content(content: &TelegramContent) -> (r: String)
        ensures
            r@ == telegram_content_text(*content),
    {
        if let Some(t) = &content.text {
            t.clone()
        } else if let Some(n) = content.photo_count {
            let mut s = String::new();
            push_decimal(&mut s, n as i128);
            s.append(" photos");
            s
        } else if let Some(v) = &content.video_file_id {
            v.clone()
        } else if let Some(v) = &content.voice_file_id {
            v.clone()
        } else if let Some(d) = &content.document {
            match d {
                Some(name) => name.clone(),
                None => String::from_str("document"),
            }
        } else if let Some(s) = &content.sticker_file_id {
            s.clone()
        } else {
            String::from_str("unsupported content")
        }
    }

    /// The universal message for a received Telegram message: its conversation
    /// and sender identifiers derive from `telegram:chat:<chat id>` and
    /// `telegram:user:<user id or "unknown">`; it is delivered, received at `now`,
    /// refers to a fresh random message when it replies to one, comes from the
    /// "telegram" connector and keeps the Telegram message id.
    pub fn from_telegram_message(
        content: &TelegramContent,
        chat_id: i64,
        from_user: Option<u64>,
        message_id: i32,
        is_reply: bool,
        now: Timestamp,
    ) -> (r: Message)
        ensures
            r.conversation_id == telegram_conversation_id(chat_id as int),
            r.sender_id == uuid_v5_value(
                0x6ba7b8119dad11d180b400c04fd430c8u128,
                encode_utf8(telegram_sender_key(from_user)),
            ),
            r.content@ == telegram_content_text(*content),
            r.message_type == telegram_message_type(*content),
            r.status == MessageStatus::Delivered,
            r.created_at == now,
            r.edited_at is None,
            r.reply_to is Some <==> is_reply,
            r.connector_id@ == "telegram"@,
            r.platform_message_id@ == decimal_text(message_id as int),
    {
        let mut chat_key = String::from_str("telegram:chat:");
        push_decimal(&mut chat_key, chat_id as i128);
        let mut sender_key = String::from_str("telegram:user:");
        match from_user {
            Some(u) => push_decimal(&mut sender_key, u as i128),
            None => sender_key.append("unknown"),
        }
        let namespace = namespace_url();
        let conversation_id = name_based_id(namespace, chat_key.as_str().as_bytes());
        let sender_id = name_based_id(namespace, sender_key.as_str().as_bytes());
        let reply_to = if is_reply {
            Some(new_id())
        } else {
            None
        };
        let mut platform_message_id = String::new();
        push_decimal(&mut platform_message_id, message_id as i128);
        Message {
            id: new_id(),
            conversation_id,
            sender_id,
            content: TelegramConnector::extract_content(content),
            message_type: TelegramConnector::parse_message_type(content),
            status: MessageStatus::Delivered,
            created_at: now,
            edited_at: None,
            reply_to,
            connector_id: String::from_str("telegram"),
            platform_message_id,
        }
    }

    /// The chat last recorded for a conversation in `chats`.
    fn lookup(chats: &Vec<(u128, i64)>, conversation_id: u128) -> (r: Option<i64>)
        ensures
            r == chat_of(chats@, conversation_id),
    {
        let mut i: usize = chats.len();
        assert(chats@.take(i as int) =~= chats@);
        while i > 0
            invariant
                i <= chats@.len(),
                chat_of(chats@, conversation_id) == chat_of(chats@.take(i as int), conversation_id),
            decreases i,
        {
            let (c, chat) = chats[i - 1];
            assert(chats@.take(i as int).drop_last() =~= chats@.take(i - 1));
            if c == conversation_id {
                return Some(chat);
            }
            i = i - 1;
        }
        assert(chats@.take(0) =~= Seq::<(u128, i64)>::empty());
        None
    }

    /// Takes note that messages arrive from the chat `chat_id`, and returns the
    /// identifier of its conversation: from then on that conversation stands for
    /// that chat; what the connector knew of other conversations is unchanged.
    pub fn remember_chat(&mut self, chat_id: i64) -> (r: u128)
        ensures
            r == telegram_conversation_id(chat_id as int),
            final(self).chat_for(r) == Some(chat_id),
            forall|c: u128| c != r ==> #[trigger] final(self).chat_for(c) == old(self).chat_for(c),
            final(self).poll_offset() == old(self).poll_offset(),
            final(self).bot_client() == old(self).bot_client(),
    {
        let mut key = String::from_str("telegram:chat:");
        push_decimal(&mut key, chat_id as i128);
        let conversation_id = name_based_id(namespace_url(), key.as_str().as_bytes());
        if TelegramConnector::lookup(&self.chats, conversation_id) != Some(chat_id) {
            let ghost before = self.chats@;
            self.chats.push((conversation_id, chat_id));
            assert(self.chats@.drop_last() =~= before);
        }
        conversation_id
    }

    /// The chat a message is sent to: the chat its conversation stands for, if
    /// the connector has received messages from it.
    pub fn chat_id_for(&self, message: &Message) -> (r: Option<i64>)
        ensures
            r == self.chat_for(message.conversation_id),
    {
        TelegramConnector::lookup(&self.chats, message.conversation_id)
    }
}

/// A message received from a chat is answered in that chat: once the connector
/// has taken note of the chat, the conversation of every message from it stands
/// for that chat.
pub proof fn lemma_reply_goes_to_chat(connector: TelegramConnector, chat_id: i64, message: Message)
    requires
        connector.chat_for(telegram_conversation_id(chat_id as int)) == Some(chat_id),
        message.conversation_id == telegram_conversation_id(chat_id as int),
    ensures
        connector.chat_for(message.conversation_id) == Some(chat_id),
{
}

impl Connector for TelegramConnector {
    fn name(&self) -> (r: &str)
        ensures
            r@ == "telegram"@,
    {
        proof {
            reveal_strlit("telegram");
        }
        "telegram"
    }

    fn capabilities(&self) -> (r: ConnectorCapabilities)
        ensures
            r == telegram_capabilities(),
    {
        ConnectorCapabilities {
            receive_messages: true,
            send_messages: true,
            images: true,
            files: true,
            voice: true,
            reactions: true,
            edit_message: true,
            delete_message: true,
            typing_indicator: true,
            read_receipts: false,
        }
    }
}

} // verus!
