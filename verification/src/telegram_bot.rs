//! The Telegram bot integration: the Bot API's data, the mapping between a
//! Telegram chat and a conversation title, and the bot's polling state.
use crate::clock::Timestamp;
use crate::entities::{Conversation, ConversationType, Message, MessageStatus, MessageType};
use crate::ids::{name_based_id, namespace_url, new_id, uuid_v5_value};
use crate::text::{
    chars_of, decimal, decimal_text, first_index, lemma_decimal_chars, lemma_decimal_round_trip,
    lemma_first_index, parse_i64_range, parse_i64_text, push_char, push_decimal, str_eq, trim,
    trim_text,
};
use vstd::prelude::*;
use vstd::utf8::encode_utf8;

verus! {

/// The prefix of the title of every conversation that mirrors a Telegram chat.
pub open spec fn tg_marker() -> Seq<char> {
    seq!['T', 'G', ':']
}

/// The start of the title of the conversation of a chat: `TG:<chat id>:`.
pub open spec fn chat_title_prefix(chat_id: int) -> Seq<char> {
    tg_marker() + decimal_text(chat_id) + seq![':']
}

/// The title of the conversation of a chat: `TG:<chat id>:<display name>`.
pub open spec fn chat_title(chat_id: int, display: Seq<char>) -> Seq<char> {
    chat_title_prefix(chat_id) + display
}

/// The chat a conversation title designates: the integer between `TG:` and the
/// next ':' (as `str::parse::<i64>` reads it), if the title has that shape.
pub open spec fn chat_id_of_title(t: Seq<char>) -> Option<i64> {
    if t.len() >= 3 && t.take(3) == tg_marker() {
        let rest = t.skip(3);
        match first_index(rest, ':') {
            Some(k) => parse_i64_text(rest.take(k)),
            None => None,
        }
    } else {
        None
    }
}

/// The name under which a Telegram user's identifier is derived: `telegram:user:<id>`.
pub open spec fn telegram_user_key(user_id: int) -> Seq<char> {
    seq!['t', 'e', 'l', 'e', 'g', 'r', 'a', 'm', ':', 'u', 's', 'e', 'r', ':'] + decimal_text(
        user_id,
    )
}

/// The name shown for a sender: first name, a space, then the last name if any.
pub open spec fn sender_name_text(first: Seq<char>, last: Option<Seq<char>>) -> Seq<char> {
    first + seq![' '] + match last {
        Some(l) => l,
        None => Seq::<char>::empty(),
    }
}

/// A chat, as the Bot API describes it.
pub struct TgChat {
    pub id: i64,
    pub chat_type: String,
    pub title: Option<String>,
}

/// A Telegram user, as the Bot API describes it.
pub struct TgUser {
    pub id: i64,
    pub first_name: String,
    pub last_name: Option<String>,
    pub username: Option<String>,
}

/// A message, as the Bot API describes it.
pub struct TgMessage {
    pub message_id: i64,
    pub chat: TgChat,
    pub from: TgUser,
    pub text: Option<String>,
    pub date: i64,
}

/// One update returned by `getUpdates`.
pub struct TgUpdate {
    pub update_id: i64,
    pub message: Option<TgMessage>,
}

/// The reply to `sendMessage`.
pub struct TgSendMessageResponse {
    pub ok: bool,
    pub result: Option<TgMessage>,
}

/// The bot itself, as `getMe` describes it.
pub struct TgMe {
    pub id: i64,
    pub first_name: String,
    pub username: Option<String>,
}

/// The last name of a sender as text, when there is one.
pub open spec fn last_name_text(u: TgUser) -> Option<Seq<char>> {
    match u.last_name {
        Some(l) => Some(l@),
        None => None,
    }
}

/// The display name of a chat's conversation: for a private chat the sender's
/// `@username`, else the sender's first name followed by the trimmed last name if
/// that is not empty; for any other chat its title, else its type.
pub open spec fn chat_display_name(chat: TgChat, sender: TgUser) -> Seq<char> {
    if chat.chat_type@ == "private"@ {
        match sender.username {
            Some(u) => seq!['@'] + u@,
            None => {
                let last = trim_text(
                    match sender.last_name {
                        Some(l) => l@,
                        None => Seq::<char>::empty(),
                    },
                );
                if last.len() == 0 {
                    sender.first_name@
                } else {
                    sender.first_name@ + seq![' '] + last
                }
            },
        }
    } else {
        match chat.title {
            Some(t) => t@,
            None => chat.chat_type@,
        }
    }
}

/// The bot's connection: its token, the HTTP client it talks through, its own
/// user id, and the offset of the next update to fetch.
pub struct TelegramBot {
    token: String,
    client: reqwest::Client,
    bot_id: i64,
    offset: i64,
}

/// `reqwest::Client`, the HTTP client the bot talks through.
#[verifier::external_type_specification]
#[verifier::external_body]
pub struct ExHttpClient(reqwest::Client);

impl TelegramBot {
    /// The token the bot authenticates with.
    pub closed spec fn token_text(&self) -> Seq<char> {
        self.token@
    }

    /// The offset of the next update to fetch.
    pub closed spec fn next_offset(&self) -> int {
        self.offset as int
    }

    /// The HTTP client the bot talks through.
    pub closed spec fn http_client(&self) -> reqwest::Client {
        self.client
    }

    /// The bot's own user id.
    pub closed spec fn own_id(&self) -> int {
        self.bot_id as int
    }

    /// A bot that `getMe` has accepted: it starts fetching updates at offset 0.
    pub fn connected(token: String, client: reqwest::Client, me: &TgMe) -> (r: TelegramBot)
        ensures
            r.token_text() == token@,
            r.http_client() == client,
            r.own_id() == me.id,
            r.next_offset() == 0,
    {
        TelegramBot { token, client, bot_id: me.id, offset: 0 }
    }

    /// The HTTP client.
    pub fn client(&self) -> (r: &reqwest::Client)
        ensures
            *r == self.http_client(),
    {
        &self.client
    }

    /// The bot's own user id.
    pub fn bot_id(&self) -> (r: i64)
        ensures
            r == self.own_id(),
    {
        self.bot_id
    }

    /// The offset of the next update to fetch.
    pub fn offset(&self) -> (r: i64)
        ensures
            r == self.next_offset(),
    {
        self.offset
    }

    /// The URL of a Bot API method for a token: `https://api.telegram.org/bot<token>/<method>`.
    pub fn method_url(token: &str, method: &str) -> (r: String)
        ensures
            r@ == "https://api.telegram.org/bot"@ + token@ + seq!['/'] + method@,
    {
        let mut url = String::from_str("https://api.telegram.org/bot");
        url.append(token);
        push_char(&mut url, '/');
        url.append(method);
        url
    }

    /// The URL that long-polls for updates from the current offset, waiting up to 30 s.
    pub fn updates_url(&self) -> (r: String)
        ensures
            r@ == "https://api.telegram.org/bot"@ + self.token_text() + seq!['/'] + "getUpdates"@
                + "?offset="@ + decimal_text(self.next_offset()) + "&timeout=30"@,
    {
        let mut url = TelegramBot::method_url(self.token.as_str(), "getUpdates");
        url.append("?offset=");
        push_decimal(&mut url, self.offset as i128);
        url.append("&timeout=30");
        url
    }

    /// The URL of `sendMessage`.
    pub fn send_message_url(&self) -> (r: String)
        ensures
            r@ == "https://api.telegram.org/bot"@ + self.token_text() + seq!['/'] + "sendMessage"@,
    {
        TelegramBot::method_url(self.token.as_str(), "sendMessage")
    }

    /// Takes note of an update: the next fetch starts after it. Tells whether the
    /// update carries a message with text, which is then to be handled.
    pub fn accept_update(&mut self, update: &TgUpdate) -> (r: bool)
        requires
            update.update_id < i64::MAX,
        ensures
            final(self).next_offset() == update.update_id + 1,
            final(self).own_id() == old(self).own_id(),
            final(self).token_text() == old(self).token_text(),
            r == (update.message matches Some(m) && m.text is Some),
    {
        self.offset = update.update_id + 1;
        match &update.message {
            Some(m) => m.text.is_some(),
            None => false,
        }
    }

    /// The chat id a conversation title designates, if it has the shape
    /// `TG:<chat id>:...`.
    pub fn extract_chat_id(title: &str) -> (r: Option<i64>)
        ensures
            r == chat_id_of_title(title@),
    {
        let v = chars_of(title);
        let ghost t = title@;
        if v.len() < 3 || v[0] != 'T' || v[1] != 'G' || v[2] != ':' {
            proof {
                if t.len() >= 3 && t.take(3) == tg_marker() {
                    assert(t.take(3)[0] == 'T' && t.take(3)[1] == 'G' && t.take(3)[2] == ':');
                }
            }
            return None;
        }
        assert(t.take(3) =~= tg_marker());
        let ghost rest = t.skip(3);
        let mut k: usize = 3;
        while k < v.len() && v[k] != ':'
            invariant
                3 <= k <= v@.len(),
                v@ == t,
                rest == t.skip(3),
                forall|j: int| 0 <= j < k - 3 ==> rest[j] != ':',
            decreases v@.len() - k,
        {
            assert(rest[k - 3] == v@[k as int]);
            k = k + 1;
        }
        proof {
            if k < v.len() {
                assert(rest[k - 3] == v@[k as int]);
            }
            lemma_first_index(rest, ':', k - 3);
        }
        if k == v.len() {
            return None;
        }
        assert(rest.take(k - 3) =~= v@.subrange(3, k as int));
        parse_i64_range(&v, 3, k)
    }

    /// The start of the titles of the conversation of a chat: `TG:<chat id>:`.
    pub fn title_prefix(chat_id: i64) -> (r: String)
        ensures
            r@ == chat_title_prefix(chat_id as int),
    {
        let mut s = String::new();
        push_char(&mut s, 'T');
        push_char(&mut s, 'G');
        push_char(&mut s, ':');
        push_decimal(&mut s, chat_id as i128);
        push_char(&mut s, ':');
        assert(s@ =~= chat_title_prefix(chat_id as int));
        s
    }

    /// The display name of a chat's conversation (see `chat_display_name`).
    pub fn display_name(chat: &TgChat, sender: &TgUser) -> (r: String)
        ensures
            r@ == chat_display_name(*chat, *sender),
    {
        if str_eq(chat.chat_type.as_str(), "private") {
            match &sender.username {
                Some(u) => {
                    let mut s = String::new();
                    push_char(&mut s, '@');
                    s.append(u.as_str());
                    assert(s@ =~= seq!['@'] + u@);
                    s
                },
                None => {
                    let last_full: &str = match &sender.last_name {
                        Some(l) => l.as_str(),
                        None => "",
                    };
                    proof {
                        reveal_strlit("");
                    }
                    let last = trim(last_full);
                    if last.unicode_len() == 0 {
                        sender.first_name.clone()
                    } else {
                        let mut s = sender.first_name.clone();
                        push_char(&mut s, ' ');
                        s.append(last);
                        s
                    }
                },
            }
        } else {
            match &chat.title {
                Some(t) => t.clone(),
                None => chat.chat_type.clone(),
            }
        }
    }

    /// A new conversation for a chat, owned by `user_id`: private, titled
    /// `TG:<chat id>:<display name>`, created, updated and last active at `now`.
    pub fn new_chat_conversation(
        chat_id: i64,
        chat: &TgChat,
        sender: &TgUser,
        user_id: u128,
        now: Timestamp,
    ) -> (r: Conversation)
        ensures
            r.user_id == user_id,
            r.conversation_type == ConversationType::Private,
            r.title@ == chat_title(chat_id as int, chat_display_name(*chat, *sender)),
            r.created_at == now,
            r.updated_at == now,
            r.last_message_at == Some(now),
    {
        let mut title = TelegramBot::title_prefix(chat_id);
        let display = TelegramBot::display_name(chat, sender);
        title.append(display.as_str());
        Conversation {
            id: new_id(),
            user_id,
            conversation_type: ConversationType::Private,
            title,
            created_at: now,
            updated_at: now,
            last_message_at: Some(now),
        }
    }

    /// The sender's name as shown: first name, a space, and the last name if any.
    pub fn sender_name(from: &TgUser) -> (r: String)
        ensures
            r@ == sender_name_text(from.first_name@, last_name_text(*from)),
    {
        let mut s = from.first_name.clone();
        push_char(&mut s, ' ');
        match &from.last_name {
            Some(l) => s.append(l.as_str()),
            None => {},
        }
        assert(s@ =~= sender_name_text(from.first_name@, last_name_text(*from)));
        s
    }

    /// The universal message for an incoming Telegram text message in a
    /// conversation: a text message, delivered, received at `now`, from the
    /// sender whose identifier derives from `telegram:user:<id>`, attributed to
    /// `Telegram:<trimmed sender name>`, keeping the Telegram message id.
    pub fn incoming_message(msg: &TgMessage, text: &str, conversation_id: u128, now: Timestamp) -> (r:
        Message)
        ensures
            r.conversation_id == conversation_id,
            r.sender_id == uuid_v5_value(
                0x6ba7b8119dad11d180b400c04fd430c8u128,
                encode_utf8(telegram_user_key(msg.from.id as int)),
            ),
            r.content@ == text@,
            r.message_type == MessageType::Text,
            r.status == MessageStatus::Delivered,
            r.created_at == now,
            r.edited_at is None,
            r.reply_to is None,
            r.connector_id@ == seq!['T', 'e', 'l', 'e', 'g', 'r', 'a', 'm', ':'] + trim_text(
                sender_name_text(msg.from.first_name@, last_name_text(msg.from)),
            ),
            r.platform_message_id@ == decimal_text(msg.message_id as int),
    {
        let mut key = String::new();
        let prefix = "telegram:user:";
        proof {
            reveal_strlit("telegram:user:");
        }
        key.append(prefix);
        push_decimal(&mut key, msg.from.id as i128);
        assert(key@ =~= telegram_user_key(msg.from.id as int));
        let sender_id = name_based_id(namespace_url(), key.as_str().as_bytes());
        let full_name = TelegramBot::sender_name(&msg.from);
        let mut connector_id = String::new();
        connector_id.append("Telegram:");
        proof {
            reveal_strlit("Telegram:");
        }
        connector_id.append(trim(full_name.as_str()));
        assert(connector_id@ =~= seq!['T', 'e', 'l', 'e', 'g', 'r', 'a', 'm', ':'] + trim_text(
            full_name@,
        ));
        Message {
            id: new_id(),
            conversation_id,
            sender_id,
            content: String::from_str(text),
            message_type: MessageType::Text,
            status: MessageStatus::Delivered,
            created_at: now,
            edited_at: None,
            reply_to: None,
            connector_id,
            platform_message_id: decimal(msg.message_id as i128),
        }
    }
}

/// The title of the conversation made for a chat designates that chat again,
/// whatever its display name, and starts with the prefix under which that
/// conversation is looked up.
pub proof fn lemma_chat_title_round_trip(chat_id: i64, display: Seq<char>)
    ensures
        chat_id_of_title(chat_title(chat_id as int, display)) == Some(chat_id),
        chat_title(chat_id as int, display).take(chat_title_prefix(chat_id as int).len() as int)
            == chat_title_prefix(chat_id as int),
{
    let d = decimal_text(chat_id as int);
    let t = chat_title(chat_id as int, display);
    assert(t.take(3) =~= tg_marker());
    let rest = t.skip(3);
    assert(rest =~= d + seq![':'] + display);
    assert forall|j: int| 0 <= j < d.len() implies rest[j] != ':' by {
        lemma_decimal_chars(chat_id as int, j);
        assert(rest[j] == d[j]);
    }
    assert(rest[d.len() as int] == ':');
    lemma_first_index(rest, ':', d.len() as int);
    assert(rest.take(d.len() as int) =~= d);
    lemma_decimal_round_trip(chat_id);
    assert(t.take(chat_title_prefix(chat_id as int).len() as int) =~= chat_title_prefix(
        chat_id as int,
    ));
}

/// The conversation made for a chat is found again by that chat's title prefix
/// and by no other chat's: its title starts with `TG:<chat id>:`, designates
/// that chat, and starts with no other chat's prefix. So a later message of the
/// same chat reuses it.
pub proof fn lemma_chat_conversation_found_again(title: Seq<char>, chat_id: i64, display: Seq<char>)
    requires
        title == chat_title(chat_id as int, display),
    ensures
        title.take(chat_title_prefix(chat_id as int).len() as int) == chat_title_prefix(
            chat_id as int,
        ),
        chat_id_of_title(title) == Some(chat_id),
        forall|other: i64|
            #![trigger chat_title_prefix(other as int)]
            title.len() >= chat_title_prefix(other as int).len() && title.take(
                chat_title_prefix(other as int).len() as int,
            ) == chat_title_prefix(other as int) ==> other == chat_id,
{
    lemma_chat_title_round_trip(chat_id, display);
    assert forall|other: i64|
        #![trigger chat_title_prefix(other as int)]
        title.len() >= chat_title_prefix(other as int).len() && title.take(
            chat_title_prefix(other as int).len() as int,
        ) == chat_title_prefix(other as int) implies other == chat_id by {
        let p = chat_title_prefix(other as int);
        let rest = title.skip(p.len() as int);
        assert(title =~= chat_title(other as int, rest));
        lemma_chat_title_round_trip(other, rest);
    }
}

} // verus!
