//! The internal HTTP API: its requests and replies, and the decisions its
//! handlers take (what to create, what to answer).
use crate::clock::Timestamp;
use crate::entities::{
    Conversation, ConversationType, Message, MessageStatus, MessageType, User,
};
use crate::ids::{id_to_string, new_id, uuid_text};
use crate::telegram_user::AuthState;
use crate::text::{decimal, decimal_text, owned, str_eq};
use vstd::prelude::*;

verus! {

/// The envelope of every API reply: either data, or an error message.
pub struct ApiResponse<T> {
    pub success: bool,
    pub data: Option<T>,
    pub error: Option<String>,
}

impl<T> ApiResponse<T> {
    /// A successful reply carrying `data`.
    pub fn success(data: T) -> (r: ApiResponse<T>)
        ensures
            r.success,
            r.data == Some(data),
            r.error is None,
    {
        ApiResponse { success: true, data: Some(data), error: None }
    }

    /// A failed reply carrying the message `msg`.
    pub fn error(msg: &str) -> (r: ApiResponse<T>)
        ensures
            !r.success,
            r.data is None,
            r.error matches Some(e) && e@ == msg@,
    {
        ApiResponse { success: false, data: None, error: Some(owned(msg)) }
    }

    /// The reply to a request whose work gave `result`: its value, or its error's
    /// message.
    pub fn from_result(result: Result<T, String>) -> (r: ApiResponse<T>)
        ensures
            result matches Ok(v) ==> r.success && r.data == Some(v) && r.error is None,
            result matches Err(e) ==> !r.success && r.data is None && (r.error matches Some(m)
                && m@ == e@),
    {
        match result {
            Ok(v) => ApiResponse::success(v),
            Err(e) => ApiResponse::error(e.as_str()),
        }
    }
}

/// Body of `POST /api/conversations`.
pub struct CreateConversationRequest {
    pub title: String,
    pub conversation_type: Option<String>,
}

/// Body of `POST /api/messages`.
pub struct SendMessageRequest {
    pub conversation_id: u128,
    pub content: String,
    pub sender_name: Option<String>,
}

/// Body of `POST /api/auth/telegram/request-code`.
pub struct RequestCodeRequest {
    pub phone: String,
}

/// Body of `POST /api/auth/telegram/sign-in`.
pub struct SignInRequest {
    pub code: String,
}

/// Body of `POST /api/auth/whatsapp/pair-code`.
pub struct PairCodeRequest {
    pub phone_number: String,
}

/// A connected account, as `GET /api/accounts` lists it.
pub struct AccountInfo {
    pub connector: String,
    pub display_name: String,
    pub platform_account_id: String,
    pub is_connected: bool,
}

/// Reply of `GET /api/auth/whatsapp/qr`.
pub struct QRResponse {
    pub qr: Option<String>,
    pub status: String,
}

/// Reply of `GET /api/auth/telegram/status`.
pub struct AuthStatusResponse {
    pub state: AuthState,
    pub has_session: bool,
}

/// `serde_json::Value`, a JSON document the WhatsApp sidecar sent.
#[verifier::external_type_specification]
#[verifier::external_body]
pub struct ExJsonValue(serde_json::Value);

/// Reply of `GET /api/auth/whatsapp/status`.
pub struct WhatsAppStatusResponse {
    pub status: String,
    pub message: String,
    pub user: Option<serde_json::Value>,
}

/// What the WhatsApp sidecar answered: each field the API reads from its JSON
/// reply, absent when the field is missing or of another JSON type (a reply that
/// is no JSON has none).
pub struct SidecarReply {
    pub ok: Option<bool>,
    pub status: Option<String>,
    pub message: Option<String>,
    pub error: Option<String>,
    pub code: Option<String>,
    pub qr: Option<String>,
    pub user: Option<serde_json::Value>,
    pub user_name: Option<String>,
    pub user_id: Option<String>,
}

/// The text of an optional string, or `default`.
pub open spec fn text_or(s: Option<String>, default: Seq<char>) -> Seq<char> {
    match s {
        Some(t) => t@,
        None => default,
    }
}

/// The kind of conversation a creation request asks for: "group", "channel" and
/// "email" are recognised; anything else, or nothing, is a private conversation.
pub open spec fn requested_conversation_type(kind: Option<String>) -> ConversationType {
    match kind {
        Some(k) => if k@ == "group"@ {
            ConversationType::Group
        } else if k@ == "channel"@ {
            ConversationType::Channel
        } else if k@ == "email"@ {
            ConversationType::Email
        } else {
            ConversationType::Private
        },
        None => ConversationType::Private,
    }
}

/// A creation request asks for a group, a channel or an email conversation by
/// naming it ("group", "channel", "email"); any other kind, or none, gives a
/// private conversation.
pub proof fn lemma_requested_types(kind: Option<String>)
    ensures
        (kind matches Some(k) && k@ == "group"@) ==> requested_conversation_type(kind)
            == ConversationType::Group,
        (kind matches Some(k) && k@ == "channel"@) ==> requested_conversation_type(kind)
            == ConversationType::Channel,
        (kind matches Some(k) && k@ == "email"@) ==> requested_conversation_type(kind)
            == ConversationType::Email,
        !(kind matches Some(k) && (k@ == "group"@ || k@ == "channel"@ || k@ == "email"@))
            ==> requested_conversation_type(kind) == ConversationType::Private,
{
    reveal_strlit("group");
    reveal_strlit("channel");
    reveal_strlit("email");
    assert("channel"@.len() != "group"@.len());
    assert("email"@[0] != "group"@[0]);
    assert("email"@.len() != "channel"@.len());
}

/// A copy of the text of an optional string, or `default`.
fn string_or(s: &Option<String>, default: &str) -> (r: String)
    ensures
        r@ == text_or(*s, default@),
{
    match s {
        Some(t) => t.clone(),
        None => owned(default),
    }
}

impl CreateConversationRequest {
    /// The kind of conversation the request asks for.
    pub fn requested_type(&self) -> (r: ConversationType)
        ensures
            r == requested_conversation_type(self.conversation_type),
    {
        match &self.conversation_type {
            Some(k) => {
                if str_eq(k.as_str(), "group") {
                    ConversationType::Group
                } else if str_eq(k.as_str(), "channel") {
                    ConversationType::Channel
                } else if str_eq(k.as_str(), "email") {
                    ConversationType::Email
                } else {
                    ConversationType::Private
                }
            },
            None => ConversationType::Private,
        }
    }

    /// The conversation the request creates at `now`: of the requested kind,
    /// with its title, fresh random identifiers for itself and its owner, and no
    /// message yet.
    pub fn into_conversation(self, now: Timestamp) -> (r: Conversation)
        ensures
            r.conversation_type == requested_conversation_type(self.conversation_type),
            r.title == self.title,
            r.created_at == now,
            r.updated_at == now,
            r.last_message_at is None,
    {
        let conversation_type = self.requested_type();
        Conversation {
            id: new_id(),
            user_id: new_id(),
            conversation_type,
            title: self.title,
            created_at: now,
            updated_at: now,
            last_message_at: None,
        }
    }
}

impl SendMessageRequest {
    /// The message the request sends at `now`: a text message, already sent, in
    /// the requested conversation, attributed to the sender's name or "Vous",
    /// from a fresh random sender, with a fresh random platform message id.
    pub fn to_message(&self, now: Timestamp) -> (r: Message)
        ensures
            r.conversation_id == self.conversation_id,
            r.content == self.content,
            r.message_type == MessageType::Text,
            r.status == MessageStatus::Sent,
            r.created_at == now,
            r.edited_at is None,
            r.reply_to is None,
            r.connector_id@ == text_or(self.sender_name, "Vous"@),
            exists|u: u128| r.platform_message_id@ == uuid_text(u),
    {
        let platform_id = new_id();
        Message {
            id: new_id(),
            conversation_id: self.conversation_id,
            sender_id: new_id(),
            content: self.content.clone(),
            message_type: MessageType::Text,
            status: MessageStatus::Sent,
            created_at: now,
            edited_at: None,
            reply_to: None,
            connector_id: string_or(&self.sender_name, "Vous"),
            platform_message_id: id_to_string(platform_id),
        }
    }
}

impl AccountInfo {
    /// The Telegram account to list: the signed-in user, if any.
    pub fn for_telegram(state: &AuthState) -> (r: Option<AccountInfo>)
        ensures
            state matches AuthState::Connected { user_id, username } ==> (r matches Some(a) && {
                &&& a.connector@ == "telegram"@
                &&& a.display_name == username
                &&& a.platform_account_id@ == decimal_text(user_id as int)
                &&& a.is_connected
            }),
            !(state is Connected) ==> r is None,
    {
        match state {
            AuthState::Connected { user_id, username } => Some(
                AccountInfo {
                    connector: String::from_str("telegram"),
                    display_name: username.clone(),
                    platform_account_id: decimal(*user_id as i128),
                    is_connected: true,
                },
            ),
            _ => None,
        }
    }

    /// The WhatsApp account to list, when the sidecar reports itself connected:
    /// named after its user (or "WhatsApp"), identified by its user id (or nothing).
    pub fn for_whatsapp(reply: &SidecarReply) -> (r: Option<AccountInfo>)
        ensures
            (reply.status matches Some(s) && s@ == "connected"@) ==> (r matches Some(a) && {
                &&& a.connector@ == "whatsapp"@
                &&& a.display_name@ == text_or(reply.user_name, "WhatsApp"@)
                &&& a.platform_account_id@ == text_or(reply.user_id, ""@)
                &&& a.is_connected
            }),
            !(reply.status matches Some(s) && s@ == "connected"@) ==> r is None,
    {
        match &reply.status {
            Some(s) => {
                if str_eq(s.as_str(), "connected") {
                    Some(
                        AccountInfo {
                            connector: String::from_str("whatsapp"),
                            display_name: string_or(&reply.user_name, "WhatsApp"),
                            platform_account_id: string_or(&reply.user_id, ""),
                            is_connected: true,
                        },
                    )
                } else {
                    None
                }
            },
            None => None,
        }
    }
}

/// The reply when the sidecar could not be reached: `Sidecar unreachable: <reason>`.
pub fn sidecar_unreachable<T>(reason: &str) -> (r: ApiResponse<T>)
    ensures
        !r.success,
        r.data is None,
        r.error matches Some(e) && e@ == "Sidecar unreachable: "@ + reason@,
{
    let mut msg = String::from_str("Sidecar unreachable: ");
    msg.append(reason);
    ApiResponse::error(msg.as_str())
}

/// Whether the sidecar reported success (`"ok": true`).
pub open spec fn sidecar_ok(reply: SidecarReply) -> bool {
    reply.ok == Some(true)
}

/// The reply to an action of the sidecar that answers `ok`: `success_text` on
/// success, else its error or "unknown error".
fn sidecar_action_reply(reply: &SidecarReply, success_text: &str) -> (r: ApiResponse<String>)
    ensures
        sidecar_ok(*reply) ==> r.success && (r.data matches Some(d) && d@ == success_text@)
            && r.error is None,
        !sidecar_ok(*reply) ==> !r.success && r.data is None && (r.error matches Some(e) && e@
            == text_or(reply.error, "unknown error"@)),
{
    if reply.ok == Some(true) {
        ApiResponse::success(owned(success_text))
    } else {
        let err = string_or(&reply.error, "unknown error");
        ApiResponse::error(err.as_str())
    }
}

impl SidecarReply {
    /// Reply of `POST /api/auth/whatsapp/start`.
    pub fn start_reply(&self) -> (r: ApiResponse<String>)
        ensures
            sidecar_ok(*self) ==> r.success && (r.data matches Some(d) && d@
                == "WhatsApp sidecar started"@) && r.error is None,
            !sidecar_ok(*self) ==> !r.success && r.data is None && (r.error matches Some(e) && e@
                == text_or(self.error, "unknown error"@)),
    {
        sidecar_action_reply(self, "WhatsApp sidecar started")
    }

    /// Reply of `POST /api/auth/whatsapp/disconnect`.
    pub fn disconnect_reply(&self) -> (r: ApiResponse<String>)
        ensures
            sidecar_ok(*self) ==> r.success && (r.data matches Some(d) && d@ == "Disconnected"@)
                && r.error is None,
            !sidecar_ok(*self) ==> !r.success && r.data is None && (r.error matches Some(e) && e@
                == text_or(self.error, "unknown error"@)),
    {
        sidecar_action_reply(self, "Disconnected")
    }

    /// Reply of `POST /api/auth/whatsapp/pair-code`: the pairing code (or the
    /// empty text) on success, else the error.
    pub fn pair_code_reply(&self) -> (r: ApiResponse<String>)
        ensures
            sidecar_ok(*self) ==> r.success && (r.data matches Some(d) && d@ == text_or(
                self.code,
                ""@,
            )) && r.error is None,
            !sidecar_ok(*self) ==> !r.success && r.data is None && (r.error matches Some(e) && e@
                == text_or(self.error, "unknown error"@)),
    {
        if self.ok == Some(true) {
            ApiResponse::success(string_or(&self.code, ""))
        } else {
            let err = string_or(&self.error, "unknown error");
            ApiResponse::error(err.as_str())
        }
    }

    /// Reply of `GET /api/auth/whatsapp/qr`: the QR code if any, and the status
    /// (or "unknown").
    pub fn qr_reply(&self) -> (r: ApiResponse<QRResponse>)
        ensures
            r.success,
            r.error is None,
            r.data matches Some(q) && q.qr == self.qr && q.status@ == text_or(
                self.status,
                "unknown"@,
            ),
    {
        let qr = match &self.qr {
            Some(q) => Some(q.clone()),
            None => None,
        };
        ApiResponse::success(QRResponse { qr, status: string_or(&self.status, "unknown") })
    }

    /// Reply of `GET /api/auth/whatsapp/status`: the status (or "disconnected"),
    /// the message (or the empty text) and the user as the sidecar described it.
    pub fn status_reply(self) -> (r: ApiResponse<WhatsAppStatusResponse>)
        ensures
            r.success,
            r.error is None,
            r.data matches Some(s) && s.status@ == text_or(self.status, "disconnected"@)
                && s.message@ == text_or(self.message, ""@) && s.user == self.user,
    {
        let status = string_or(&self.status, "disconnected");
        let message = string_or(&self.message, "");
        ApiResponse::success(WhatsAppStatusResponse { status, message, user: self.user })
    }
}

/// Reply of `POST /api/auth/telegram/request-code` when connecting failed:
/// `Connection error: <reason>`.
pub fn connection_failed_reply(reason: &str) -> (r: ApiResponse<String>)
    ensures
        !r.success,
        r.data is None,
        r.error matches Some(e) && e@ == "Connection error: "@ + reason@,
{
    let mut msg = String::from_str("Connection error: ");
    msg.append(reason);
    ApiResponse::error(msg.as_str())
}

/// Reply of `POST /api/auth/telegram/request-code` once connected: "Code sent",
/// or `Failed to send code: <reason>`.
pub fn code_request_reply(outcome: Result<(), String>) -> (r: ApiResponse<String>)
    ensures
        outcome is Ok ==> r.success && (r.data matches Some(d) && d@ == "Code sent"@)
            && r.error is None,
        outcome matches Err(e) ==> !r.success && r.data is None && (r.error matches Some(m) && m@
            == "Failed to send code: "@ + e@),
{
    match outcome {
        Ok(()) => ApiResponse::success(String::from_str("Code sent")),
        Err(e) => {
            let mut msg = String::from_str("Failed to send code: ");
            msg.append(e.as_str());
            ApiResponse::error(msg.as_str())
        },
    }
}

/// Reply of `POST /api/auth/telegram/disconnect`: "Disconnected", or
/// `Disconnect failed: <reason>`.
pub fn telegram_disconnect_reply(outcome: Result<(), String>) -> (r: ApiResponse<String>)
    ensures
        outcome is Ok ==> r.success && (r.data matches Some(d) && d@ == "Disconnected"@)
            && r.error is None,
        outcome matches Err(e) ==> !r.success && r.data is None && (r.error matches Some(m) && m@
            == "Disconnect failed: "@ + e@),
{
    match outcome {
        Ok(()) => ApiResponse::success(String::from_str("Disconnected")),
        Err(e) => {
            let mut msg = String::from_str("Disconnect failed: ");
            msg.append(e.as_str());
            ApiResponse::error(msg.as_str())
        },
    }
}

/// Reply of `GET /api/health`.
pub fn health_reply() -> (r: ApiResponse<String>)
    ensures
        r.success,
        r.data matches Some(d) && d@ == "ok"@,
        r.error is None,
{
    ApiResponse::success(String::from_str("ok"))
}

/// The demo data is seeded only when the store listed no conversation (or
/// could not be listed).
pub open spec fn demo_seed_needed(listed: Option<usize>) -> bool {
    !(listed matches Some(n) && n > 0)
}

/// Seeding happens at most once: once the demo conversations are stored (or
/// any conversation at all), a store that keeps them lists at least as many,
/// and no second seeding takes place.
pub proof fn lemma_seeding_once(listed: usize)
    requires
        listed >= demo_titles().len(),
    ensures
        !demo_seed_needed(Some(listed)),
{
}

/// The demo data is seeded exactly when listing the store failed or listed no
/// conversation: a store that lists even one conversation is left as it is.
pub proof fn lemma_seed_only_when_empty(listed: Option<usize>)
    ensures
        demo_seed_needed(listed) <==> (listed is None || listed == Some(0usize)),
        forall|n: usize| n >= 1 ==> !demo_seed_needed(Some(n)),
{
}

/// Whether the demo data must be seeded, given how many conversations the store
/// listed (`None` when listing failed): only when none could be seen.
pub fn needs_demo_seed(listed: Option<usize>) -> (r: bool)
    ensures
        r == demo_seed_needed(listed),
{
    match listed {
        Some(n) => n == 0,
        None => true,
    }
}

/// One demo conversation: its title and its messages as (sender, content).
pub struct DemoConversation {
    pub title: &'static str,
    pub messages: Vec<(&'static str, &'static str)>,
}

/// The titles of the demo conversations.
pub open spec fn demo_titles() -> Seq<Seq<char>> {
    seq!["Telegram - Alice"@, "Discord - Dev Team"@, "Gmail - Newsletter"@, "WhatsApp - Famille"@]
}

/// The messages of the demo conversation `i`, as (sender, content).
pub open spec fn demo_messages(i: int) -> Seq<(Seq<char>, Seq<char>)> {
    if i == 0 {
        seq![
            ("Alice"@, "Hey, tu es la ?"@),
            ("Vous"@, "Oui ! Quoi de neuf ?"@),
            ("Alice"@, "On se voit ce weekend ?"@),
            ("Vous"@, "Bonne idee ! Samedi aprem ?"@),
            ("Alice"@, "Parfait, au cafe a 15h"@),
        ]
    } else if i == 1 {
        seq![
            ("Marc"@, "Le build est passe !"@),
            ("Sophie"@, "Super, je merge"@),
            ("Vous"@, "Je review la PR"@),
            ("Marc"@, "Merci"@),
        ]
    } else if i == 2 {
        seq![("Newsletter"@, "Votre resume tech de la semaine"@)]
    } else {
        seq![
            ("Maman"@, "N'oublie pas le diner dimanche"@),
            ("Vous"@, "J'y serai !"@),
            ("Papa"@, "A 19h pile"@),
            ("Vous"@, "OK"@),
        ]
    }
}

/// A pair of string slices as a pair of texts.
pub open spec fn pair_text(p: (&str, &str)) -> (Seq<char>, Seq<char>) {
    (p.0@, p.1@)
}

/// Pairs of string slices as pairs of texts.
pub open spec fn pair_texts(v: Seq<(&str, &str)>) -> Seq<(Seq<char>, Seq<char>)> {
    v.map_values(|p: (&str, &str)| pair_text(p))
}

/// The demo conversations seeded into an empty store, in order.
pub fn demo_data() -> (r: Vec<DemoConversation>)
    ensures
        r@.len() == 4,
        forall|i: int| 0 <= i < 4 ==> #[trigger] r@[i].title@ == demo_titles()[i],
        forall|i: int| 0 <= i < 4 ==> pair_texts(#[trigger] r@[i].messages@) == demo_messages(i),
{
    let mut alice = Vec::new();
    alice.push(("Alice", "Hey, tu es la ?"));
    alice.push(("Vous", "Oui ! Quoi de neuf ?"));
    alice.push(("Alice", "On se voit ce weekend ?"));
    alice.push(("Vous", "Bonne idee ! Samedi aprem ?"));
    alice.push(("Alice", "Parfait, au cafe a 15h"));
    let mut team = Vec::new();
    team.push(("Marc", "Le build est passe !"));
    team.push(("Sophie", "Super, je merge"));
    team.push(("Vous", "Je review la PR"));
    team.push(("Marc", "Merci"));
    let mut news = Vec::new();
    news.push(("Newsletter", "Votre resume tech de la semaine"));
    let mut family = Vec::new();
    family.push(("Maman", "N'oublie pas le diner dimanche"));
    family.push(("Vous", "J'y serai !"));
    family.push(("Papa", "A 19h pile"));
    family.push(("Vous", "OK"));
    assert(alice@.map_values(|p: (&str, &str)| pair_text(p)) =~= demo_messages(0));
    assert(team@.map_values(|p: (&str, &str)| pair_text(p)) =~= demo_messages(1));
    assert(news@.map_values(|p: (&str, &str)| pair_text(p)) =~= demo_messages(2));
    assert(family@.map_values(|p: (&str, &str)| pair_text(p)) =~= demo_messages(3));
    let mut r = Vec::new();
    r.push(DemoConversation { title: "Telegram - Alice", messages: alice });
    r.push(DemoConversation { title: "Discord - Dev Team", messages: team });
    r.push(DemoConversation { title: "Gmail - Newsletter", messages: news });
    r.push(DemoConversation { title: "WhatsApp - Famille", messages: family });
    r
}

/// The demo user, created at `now`: "user", "user@socials.local".
pub fn demo_user(id: u128, now: Timestamp) -> (r: User)
    ensures
        r.id == id,
        r.username@ == "user"@,
        r.email@ == "user@socials.local"@,
        r.created_at == now,
        r.updated_at == now,
{
    User {
        id,
        username: String::from_str("user"),
        email: String::from_str("user@socials.local"),
        created_at: now,
        updated_at: now,
    }
}

/// A demo conversation of the demo user: private, created, updated and last
/// active at `now`, with a fresh random identifier.
pub fn demo_conversation(user_id: u128, title: &str, now: Timestamp) -> (r: Conversation)
    ensures
        r.user_id == user_id,
        r.conversation_type == ConversationType::Private,
        r.title@ == title@,
        r.created_at == now,
        r.updated_at == now,
        r.last_message_at == Some(now),
{
    Conversation {
        id: new_id(),
        user_id,
        conversation_type: ConversationType::Private,
        title: owned(title),
        created_at: now,
        updated_at: now,
        last_message_at: Some(now),
    }
}

/// The seconds between two demo messages.
pub const DEMO_MESSAGE_SPACING: i64 = 600;

/// A demo message of a conversation: a text message, already sent, attributed
/// to its sender, written `offset` seconds before `clock`, with fresh random
/// identifiers.
pub fn demo_message(
    conversation_id: u128,
    sender: &str,
    content: &str,
    clock: Timestamp,
    offset: i64,
) -> (r: Message)
    requires
        0 <= offset <= 1_000_000_000,
        clock@.0 >= 0,
        clock@.1 < 1_000_000_000,
    ensures
        r.conversation_id == conversation_id,
        r.content@ == content@,
        r.message_type == MessageType::Text,
        r.status == MessageStatus::Sent,
        r.created_at@ == (clock@.0 - offset, clock@.1),
        r.edited_at is None,
        r.reply_to is None,
        r.connector_id@ == sender@,
        exists|u: u128| r.platform_message_id@ == uuid_text(u),
{
    let platform_id = new_id();
    Message {
        id: new_id(),
        conversation_id,
        sender_id: new_id(),
        content: owned(content),
        message_type: MessageType::Text,
        status: MessageStatus::Sent,
        created_at: clock.minus_seconds(offset),
        edited_at: None,
        reply_to: None,
        connector_id: owned(sender),
        platform_message_id: id_to_string(platform_id),
    }
}

/// How far back the demo messages go: each message is seeded
/// `DEMO_MESSAGE_SPACING` seconds before the clock further than the previous one.
pub struct DemoSeeder {
    offset: i64,
}

impl DemoSeeder {
    /// The seconds before the clock at which the last seeded message was written.
    pub closed spec fn spent(&self) -> int {
        self.offset as int
    }

    /// No message seeded yet.
    pub fn new() -> (r: DemoSeeder)
        ensures
            r.spent() == 0,
    {
        DemoSeeder { offset: 0 }
    }

    /// The seconds before the clock at which the last seeded message was written.
    pub fn offset(&self) -> (r: i64)
        ensures
            r == self.spent(),
    {
        self.offset
    }

    /// The next demo message: written `DEMO_MESSAGE_SPACING` seconds further back
    /// than the previous one.
    pub fn next_message(
        &mut self,
        conversation_id: u128,
        sender: &str,
        content: &str,
        clock: Timestamp,
    ) -> (r: Message)
        requires
            0 <= old(self).spent() <= 1_000_000_000 - DEMO_MESSAGE_SPACING,
            clock@.0 >= 0,
            clock@.1 < 1_000_000_000,
        ensures
            final(self).spent() == old(self).spent() + DEMO_MESSAGE_SPACING,
            r.conversation_id == conversation_id,
            r.content@ == content@,
            r.message_type == MessageType::Text,
            r.status == MessageStatus::Sent,
            r.created_at@ == (clock@.0 - final(self).spent(), clock@.1),
            r.edited_at is None,
            r.reply_to is None,
            r.connector_id@ == sender@,
            exists|u: u128| r.platform_message_id@ == uuid_text(u),
    {
        self.offset = self.offset + DEMO_MESSAGE_SPACING;
        demo_message(conversation_id, sender, content, clock, self.offset)
    }
}

} // verus!
