//! Database rows: the columns of each table as the SQLite store writes and
//! reads them (identifiers as hyphenated text, times as RFC 3339 text, kinds as
//! words), and the mapping between rows and entities.
//!
//! Reading a row back that was written from an entity gives that entity,
//! provided its times lie in a four-digit year.
use crate::clock::{rfc3339_text, rfc3339_value, storable_time, Timestamp};
use crate::codec::{
    attachment_type_of, attachment_type_str, attachment_type_text, conversation_type_of,
    conversation_type_str, conversation_type_text, lemma_attachment_type_round_trip,
    lemma_conversation_type_round_trip, lemma_message_status_round_trip,
    lemma_message_type_round_trip, message_status_of, message_status_str, message_status_text,
    message_type_of, message_type_str, message_type_text, parse_attachment_type,
    parse_conversation_type, parse_message_status, parse_message_type,
};
use crate::entities::{Account, Attachment, Contact, Conversation, Identity, Message, User};
use crate::ids::{id_to_string, parse_id, uuid_text, uuid_value};
use crate::text::owned;
use vstd::prelude::*;

verus! {

/// The time an optional time column holds: absent when the column is empty or
/// does not parse.
pub open spec fn optional_time_value(text: Option<String>) -> Option<(int, int)> {
    match text {
        Some(t) => rfc3339_value(t@),
        None => None,
    }
}

/// The identifier an optional identifier column holds: absent when the column
/// is empty or does not parse.
pub open spec fn optional_id_value(text: Option<String>) -> Option<u128> {
    match text {
        Some(t) => uuid_value(t@),
        None => None,
    }
}

/// `text` is the column written for the optional time `t`.
pub open spec fn optional_time_written(text: Option<String>, t: Option<Timestamp>) -> bool {
    match (text, t) {
        (Some(s), Some(v)) => s@ == rfc3339_text(v@.0, v@.1),
        (None, None) => true,
        _ => false,
    }
}

/// `text` is the column written for the optional identifier `u`.
pub open spec fn optional_id_written(text: Option<String>, u: Option<u128>) -> bool {
    match (text, u) {
        (Some(s), Some(v)) => s@ == uuid_text(v),
        (None, None) => true,
        _ => false,
    }
}

/// An optional time that the database can store and read back.
pub open spec fn storable_optional_time(t: Option<Timestamp>) -> bool {
    match t {
        Some(v) => storable_time(v),
        None => true,
    }
}

/// A copy of an optional string.
pub fn copy_optional(o: &Option<String>) -> (r: Option<String>)
    ensures
        r == *o,
{
    match o {
        Some(s) => Some(s.clone()),
        None => None,
    }
}

/// Reads an identifier column.
fn read_id(s: &String) -> (r: Option<u128>)
    ensures
        r == uuid_value(s@),
        forall|u: u128| #![trigger uuid_text(u)] s@ == uuid_text(u) ==> r == Some(u),
{
    parse_id(s.as_str())
}

/// Reads a time column.
fn read_time(s: &String) -> (r: Option<Timestamp>)
    ensures
        r is Some <==> rfc3339_value(s@) is Some,
        r matches Some(t) ==> rfc3339_value(s@) == Some(t@),
        forall|t: Timestamp| #![trigger rfc3339_text(t@.0, t@.1)]
            storable_time(t) && s@ == rfc3339_text(t@.0, t@.1) ==> r == Some(t),
{
    let r = Timestamp::parse_rfc3339(s.as_str());
    proof {
        assert forall|t: Timestamp| #![trigger rfc3339_text(t@.0, t@.1)]
            storable_time(t) && s@ == rfc3339_text(t@.0, t@.1) implies r == Some(t) by {
            let p = r.unwrap();
            Timestamp::lemma_same_time(p, t);
        }
    }
    r
}

/// Reads an optional time column; a value that does not parse reads as absent.
fn read_optional_time(s: &Option<String>) -> (r: Option<Timestamp>)
    ensures
        r matches Some(t) ==> optional_time_value(*s) == Some(t@),
        r is None ==> optional_time_value(*s) is None,
        forall|t: Option<Timestamp>| #![trigger optional_time_written(*s, t)]
            storable_optional_time(t) && optional_time_written(*s, t) ==> r == t,
{
    match s {
        Some(text) => read_time(text),
        None => None,
    }
}

/// Reads an optional identifier column; a value that does not parse reads as absent.
fn read_optional_id(s: &Option<String>) -> (r: Option<u128>)
    ensures
        r == optional_id_value(*s),
        forall|u: Option<u128>| #![trigger optional_id_written(*s, u)]
            optional_id_written(*s, u) ==> r == u,
{
    match s {
        Some(text) => read_id(text),
        None => None,
    }
}

/// Writes an optional time column.
fn write_optional_time(t: &Option<Timestamp>) -> (r: Option<String>)
    ensures
        optional_time_written(r, *t),
{
    match t {
        Some(v) => Some(v.to_rfc3339()),
        None => None,
    }
}

/// Writes an optional identifier column.
fn write_optional_id(u: &Option<u128>) -> (r: Option<String>)
    ensures
        optional_id_written(r, *u),
{
    match u {
        Some(v) => Some(id_to_string(*v)),
        None => None,
    }
}

/// A row of the `users` table.
pub struct UserRow {
    pub id: String,
    pub username: String,
    pub email: String,
    pub created_at: String,
    pub updated_at: String,
}

/// `row` holds the columns written for `u`.
pub open spec fn user_row_written(row: UserRow, u: User) -> bool {
    &&& row.id@ == uuid_text(u.id)
    &&& row.username == u.username
    &&& row.email == u.email
    &&& row.created_at@ == rfc3339_text(u.created_at@.0, u.created_at@.1)
    &&& row.updated_at@ == rfc3339_text(u.updated_at@.0, u.updated_at@.1)
}

/// The times of `u` can be stored and read back.
pub open spec fn user_storable(u: User) -> bool {
    storable_time(u.created_at) && storable_time(u.updated_at)
}

/// The columns written for a user.
pub fn user_to_row(u: &User) -> (row: UserRow)
    ensures
        user_row_written(row, *u),
{
    UserRow {
        id: id_to_string(u.id),
        username: u.username.clone(),
        email: u.email.clone(),
        created_at: u.created_at.to_rfc3339(),
        updated_at: u.updated_at.to_rfc3339(),
    }
}

/// Reads a user from its row: absent when an identifier or a time does not
/// parse. A row written for a user reads back as that user.
pub fn user_from_row(row: UserRow) -> (r: Option<User>)
    ensures
        r is Some <==> uuid_value(row.id@) is Some && rfc3339_value(row.created_at@) is Some
            && rfc3339_value(row.updated_at@) is Some,
        r matches Some(u) ==> {
            &&& uuid_value(row.id@) == Some(u.id)
            &&& u.username == row.username
            &&& u.email == row.email
            &&& rfc3339_value(row.created_at@) == Some(u.created_at@)
            &&& rfc3339_value(row.updated_at@) == Some(u.updated_at@)
        },
        forall|u: User| #![trigger user_row_written(row, u)]
            user_row_written(row, u) && user_storable(u) ==> r == Some(u),
{
    let id = read_id(&row.id);
    let created_at = read_time(&row.created_at);
    let updated_at = read_time(&row.updated_at);
    match (id, created_at, updated_at) {
        (Some(id), Some(created_at), Some(updated_at)) => Some(
            User { id, username: row.username, email: row.email, created_at, updated_at },
        ),
        _ => None,
    }
}

/// A row of the `accounts` table.
pub struct AccountRow {
    pub id: String,
    pub user_id: String,
    pub connector_name: String,
    pub platform_account_id: String,
    pub display_name: String,
    pub is_connected: bool,
    pub access_token: Option<String>,
    pub refresh_token: Option<String>,
    pub created_at: String,
    pub updated_at: String,
}

/// `row` holds the columns written for `a`.
pub open spec fn account_row_written(row: AccountRow, a: Account) -> bool {
    &&& row.id@ == uuid_text(a.id)
    &&& row.user_id@ == uuid_text(a.user_id)
    &&& row.connector_name == a.connector_name
    &&& row.platform_account_id == a.platform_account_id
    &&& row.display_name == a.display_name
    &&& row.is_connected == a.is_connected
    &&& row.access_token == a.access_token
    &&& row.refresh_token == a.refresh_token
    &&& row.created_at@ == rfc3339_text(a.created_at@.0, a.created_at@.1)
    &&& row.updated_at@ == rfc3339_text(a.updated_at@.0, a.updated_at@.1)
}

/// The times of `a` can be stored and read back.
pub open spec fn account_storable(a: Account) -> bool {
    storable_time(a.created_at) && storable_time(a.updated_at)
}

/// The columns written for an account.
pub fn account_to_row(a: &Account) -> (row: AccountRow)
    ensures
        account_row_written(row, *a),
{
    AccountRow {
        id: id_to_string(a.id),
        user_id: id_to_string(a.user_id),
        connector_name: a.connector_name.clone(),
        platform_account_id: a.platform_account_id.clone(),
        display_name: a.display_name.clone(),
        is_connected: a.is_connected,
        access_token: copy_optional(&a.access_token),
        refresh_token: copy_optional(&a.refresh_token),
        created_at: a.created_at.to_rfc3339(),
        updated_at: a.updated_at.to_rfc3339(),
    }
}

/// Reads an account from its row: absent when an identifier or a time does not
/// parse. A row written for an account reads back as that account.
pub fn account_from_row(row: AccountRow) -> (r: Option<Account>)
    ensures
        r is Some <==> uuid_value(row.id@) is Some && uuid_value(row.user_id@) is Some
            && rfc3339_value(row.created_at@) is Some && rfc3339_value(row.updated_at@) is Some,
        r matches Some(a) ==> {
            &&& uuid_value(row.id@) == Some(a.id)
            &&& uuid_value(row.user_id@) == Some(a.user_id)
            &&& a.connector_name == row.connector_name
            &&& a.platform_account_id == row.platform_account_id
            &&& a.display_name == row.display_name
            &&& a.is_connected == row.is_connected
            &&& a.access_token == row.access_token
            &&& a.refresh_token == row.refresh_token
            &&& rfc3339_value(row.created_at@) == Some(a.created_at@)
            &&& rfc3339_value(row.updated_at@) == Some(a.updated_at@)
        },
        forall|a: Account| #![trigger account_row_written(row, a)]
            account_row_written(row, a) && account_storable(a) ==> r == Some(a),
{
    let id = read_id(&row.id);
    let user_id = read_id(&row.user_id);
    let created_at = read_time(&row.created_at);
    let updated_at = read_time(&row.updated_at);
    match (id, user_id, created_at, updated_at) {
        (Some(id), Some(user_id), Some(created_at), Some(updated_at)) => Some(
            Account {
                id,
                user_id,
                connector_name: row.connector_name,
                platform_account_id: row.platform_account_id,
                display_name: row.display_name,
                is_connected: row.is_connected,
                access_token: row.access_token,
                refresh_token: row.refresh_token,
                created_at,
                updated_at,
            },
        ),
        _ => None,
    }
}

/// A row of the `contacts` table.
pub struct ContactRow {
    pub id: String,
    pub user_id: String,
    pub display_name: String,
    pub avatar_url: Option<String>,
    pub created_at: String,
    pub updated_at: String,
}

/// `row` holds the columns written for `c`.
pub open spec fn contact_row_written(row: ContactRow, c: Contact) -> bool {
    &&& row.id@ == uuid_text(c.id)
    &&& row.user_id@ == uuid_text(c.user_id)
    &&& row.display_name == c.display_name
    &&& row.avatar_url == c.avatar_url
    &&& row.created_at@ == rfc3339_text(c.created_at@.0, c.created_at@.1)
    &&& row.updated_at@ == rfc3339_text(c.updated_at@.0, c.updated_at@.1)
}

/// The times of `c` can be stored and read back.
pub open spec fn contact_storable(c: Contact) -> bool {
    storable_time(c.created_at) && storable_time(c.updated_at)
}

/// The columns written for a contact.
pub fn contact_to_row(c: &Contact) -> (row: ContactRow)
    ensures
        contact_row_written(row, *c),
{
    ContactRow {
        id: id_to_string(c.id),
        user_id: id_to_string(c.user_id),
        display_name: c.display_name.clone(),
        avatar_url: copy_optional(&c.avatar_url),
        created_at: c.created_at.to_rfc3339(),
        updated_at: c.updated_at.to_rfc3339(),
    }
}

/// Reads a contact from its row: absent when an identifier or a time does not
/// parse. A row written for a contact reads back as that contact.
pub fn contact_from_row(row: ContactRow) -> (r: Option<Contact>)
    ensures
        r is Some <==> uuid_value(row.id@) is Some && uuid_value(row.user_id@) is Some
            && rfc3339_value(row.created_at@) is Some && rfc3339_value(row.updated_at@) is Some,
        r matches Some(c) ==> {
            &&& uuid_value(row.id@) == Some(c.id)
            &&& uuid_value(row.user_id@) == Some(c.user_id)
            &&& c.display_name == row.display_name
            &&& c.avatar_url == row.avatar_url
            &&& rfc3339_value(row.created_at@) == Some(c.created_at@)
            &&& rfc3339_value(row.updated_at@) == Some(c.updated_at@)
        },
        forall|c: Contact| #![trigger contact_row_written(row, c)]
            contact_row_written(row, c) && contact_storable(c) ==> r == Some(c),
{
    let id = read_id(&row.id);
    let user_id = read_id(&row.user_id);
    let created_at = read_time(&row.created_at);
    let updated_at = read_time(&row.updated_at);
    match (id, user_id, created_at, updated_at) {
        (Some(id), Some(user_id), Some(created_at), Some(updated_at)) => Some(
            Contact {
                id,
                user_id,
                display_name: row.display_name,
                avatar_url: row.avatar_url,
                created_at,
                updated_at,
            },
        ),
        _ => None,
    }
}

/// A row of the `identities` table.
pub struct IdentityRow {
    pub id: String,
    pub contact_id: String,
    pub account_id: String,
    pub platform_user_id: String,
    pub platform_username: Option<String>,
    pub created_at: String,
}

/// `row` holds the columns written for `i`.
pub open spec fn identity_row_written(row: IdentityRow, i: Identity) -> bool {
    &&& row.id@ == uuid_text(i.id)
    &&& row.contact_id@ == uuid_text(i.contact_id)
    &&& row.account_id@ == uuid_text(i.account_id)
    &&& row.platform_user_id == i.platform_user_id
    &&& row.platform_username == i.platform_username
    &&& row.created_at@ == rfc3339_text(i.created_at@.0, i.created_at@.1)
}

/// The columns written for an identity.
pub fn identity_to_row(i: &Identity) -> (row: IdentityRow)
    ensures
        identity_row_written(row, *i),
{
    IdentityRow {
        id: id_to_string(i.id),
        contact_id: id_to_string(i.contact_id),
        account_id: id_to_string(i.account_id),
        platform_user_id: i.platform_user_id.clone(),
        platform_username: copy_optional(&i.platform_username),
        created_at: i.created_at.to_rfc3339(),
    }
}

/// Reads an identity from its row: absent when an identifier or the time does
/// not parse. A row written for an identity reads back as that identity.
pub fn identity_from_row(row: IdentityRow) -> (r: Option<Identity>)
    ensures
        r is Some <==> uuid_value(row.id@) is Some && uuid_value(row.contact_id@) is Some
            && uuid_value(row.account_id@) is Some && rfc3339_value(row.created_at@) is Some,
        r matches Some(i) ==> {
            &&& uuid_value(row.id@) == Some(i.id)
            &&& uuid_value(row.contact_id@) == Some(i.contact_id)
            &&& uuid_value(row.account_id@) == Some(i.account_id)
            &&& i.platform_user_id == row.platform_user_id
            &&& i.platform_username == row.platform_username
            &&& rfc3339_value(row.created_at@) == Some(i.created_at@)
        },
        forall|i: Identity| #![trigger identity_row_written(row, i)]
            identity_row_written(row, i) && storable_time(i.created_at) ==> r == Some(i),
{
    let id = read_id(&row.id);
    let contact_id = read_id(&row.contact_id);
    let account_id = read_id(&row.account_id);
    let created_at = read_time(&row.created_at);
    match (id, contact_id, account_id, created_at) {
        (Some(id), Some(contact_id), Some(account_id), Some(created_at)) => Some(
            Identity {
                id,
                contact_id,
                account_id,
                platform_user_id: row.platform_user_id,
                platform_username: row.platform_username,
                created_at,
            },
        ),
        _ => None,
    }
}

/// A row of the `conversations` table.
pub struct ConversationRow {
    pub id: String,
    pub user_id: String,
    pub conversation_type: String,
    pub title: String,
    pub created_at: String,
    pub updated_at: String,
    pub last_message_at: Option<String>,
}

/// `row` holds the columns written for `c`.
pub open spec fn conversation_row_written(row: ConversationRow, c: Conversation) -> bool {
    &&& row.id@ == uuid_text(c.id)
    &&& row.user_id@ == uuid_text(c.user_id)
    &&& row.conversation_type@ == conversation_type_text(c.conversation_type)
    &&& row.title == c.title
    &&& row.created_at@ == rfc3339_text(c.created_at@.0, c.created_at@.1)
    &&& row.updated_at@ == rfc3339_text(c.updated_at@.0, c.updated_at@.1)
    &&& optional_time_written(row.last_message_at, c.last_message_at)
}

/// The times of `c` can be stored and read back.
pub open spec fn conversation_storable(c: Conversation) -> bool {
    &&& storable_time(c.created_at)
    &&& storable_time(c.updated_at)
    &&& storable_optional_time(c.last_message_at)
}

/// The columns written for a conversation.
pub fn conversation_to_row(c: &Conversation) -> (row: ConversationRow)
    ensures
        conversation_row_written(row, *c),
{
    ConversationRow {
        id: id_to_string(c.id),
        user_id: id_to_string(c.user_id),
        conversation_type: owned(conversation_type_str(c.conversation_type)),
        title: c.title.clone(),
        created_at: c.created_at.to_rfc3339(),
        updated_at: c.updated_at.to_rfc3339(),
        last_message_at: write_optional_time(&c.last_message_at),
    }
}

/// Reads a conversation from its row: absent when an identifier or a required
/// time does not parse; an unknown kind reads as `Private` and an unreadable
/// last-message time as absent. A row written for a conversation reads back as
/// that conversation.
pub fn conversation_from_row(row: ConversationRow) -> (r: Option<Conversation>)
    ensures
        r is Some <==> uuid_value(row.id@) is Some && uuid_value(row.user_id@) is Some
            && rfc3339_value(row.created_at@) is Some && rfc3339_value(row.updated_at@) is Some,
        r matches Some(c) ==> {
            &&& uuid_value(row.id@) == Some(c.id)
            &&& uuid_value(row.user_id@) == Some(c.user_id)
            &&& c.conversation_type == conversation_type_of(row.conversation_type@)
            &&& c.title == row.title
            &&& rfc3339_value(row.created_at@) == Some(c.created_at@)
            &&& rfc3339_value(row.updated_at@) == Some(c.updated_at@)
            &&& (c.last_message_at matches Some(t) ==> optional_time_value(row.last_message_at)
                == Some(t@))
            &&& (c.last_message_at is None ==> optional_time_value(row.last_message_at) is None)
        },
        forall|c: Conversation| #![trigger conversation_row_written(row, c)]
            conversation_row_written(row, c) && conversation_storable(c) ==> r == Some(c),
{
    let id = read_id(&row.id);
    let user_id = read_id(&row.user_id);
    let created_at = read_time(&row.created_at);
    let updated_at = read_time(&row.updated_at);
    let conversation_type = parse_conversation_type(row.conversation_type.as_str());
    let last_message_at = read_optional_time(&row.last_message_at);
    proof {
        assert forall|c: Conversation| #![trigger conversation_row_written(row, c)]
            conversation_row_written(row, c) implies conversation_type == c.conversation_type by {
            lemma_conversation_type_round_trip(c.conversation_type);
        }
    }
    match (id, user_id, created_at, updated_at) {
        (Some(id), Some(user_id), Some(created_at), Some(updated_at)) => Some(
            Conversation {
                id,
                user_id,
                conversation_type,
                title: row.title,
                created_at,
                updated_at,
                last_message_at,
            },
        ),
        _ => None,
    }
}

/// A row of the `messages` table.
pub struct MessageRow {
    pub id: String,
    pub conversation_id: String,
    pub sender_id: String,
    pub content: String,
    pub message_type: String,
    pub status: String,
    pub created_at: String,
    pub edited_at: Option<String>,
    pub reply_to: Option<String>,
    pub connector_id: String,
    pub platform_message_id: String,
}

/// `row` holds the columns written for `m`.
pub open spec fn message_row_written(row: MessageRow, m: Message) -> bool {
    &&& row.id@ == uuid_text(m.id)
    &&& row.conversation_id@ == uuid_text(m.conversation_id)
    &&& row.sender_id@ == uuid_text(m.sender_id)
    &&& row.content == m.content
    &&& row.message_type@ == message_type_text(m.message_type)
    &&& row.status@ == message_status_text(m.status)
    &&& row.created_at@ == rfc3339_text(m.created_at@.0, m.created_at@.1)
    &&& optional_time_written(row.edited_at, m.edited_at)
    &&& optional_id_written(row.reply_to, m.reply_to)
    &&& row.connector_id == m.connector_id
    &&& row.platform_message_id == m.platform_message_id
}

/// The times of `m` can be stored and read back.
pub open spec fn message_storable(m: Message) -> bool {
    storable_time(m.created_at) && storable_optional_time(m.edited_at)
}

/// The columns written for a message.
pub fn message_to_row(m: &Message) -> (row: MessageRow)
    ensures
        message_row_written(row, *m),
{
    MessageRow {
        id: id_to_string(m.id),
        conversation_id: id_to_string(m.conversation_id),
        sender_id: id_to_string(m.sender_id),
        content: m.content.clone(),
        message_type: owned(message_type_str(m.message_type)),
        status: owned(message_status_str(m.status)),
        created_at: m.created_at.to_rfc3339(),
        edited_at: write_optional_time(&m.edited_at),
        reply_to: write_optional_id(&m.reply_to),
        connector_id: m.connector_id.clone(),
        platform_message_id: m.platform_message_id.clone(),
    }
}

/// Reads a message from its row: absent when an identifier or the creation
/// time does not parse; an unknown type reads as `Other`, an unknown status as
/// `Pending`, and an unreadable edit time or reply reference as absent. A row
/// written for a message reads back as that message.
pub fn message_from_row(row: MessageRow) -> (r: Option<Message>)
    ensures
        r is Some <==> uuid_value(row.id@) is Some && uuid_value(row.conversation_id@) is Some
            && uuid_value(row.sender_id@) is Some && rfc3339_value(row.created_at@) is Some,
        r matches Some(m) ==> {
            &&& uuid_value(row.id@) == Some(m.id)
            &&& uuid_value(row.conversation_id@) == Some(m.conversation_id)
            &&& uuid_value(row.sender_id@) == Some(m.sender_id)
            &&& m.content == row.content
            &&& m.message_type == message_type_of(row.message_type@)
            &&& m.status == message_status_of(row.status@)
            &&& rfc3339_value(row.created_at@) == Some(m.created_at@)
            &&& (m.edited_at matches Some(t) ==> optional_time_value(row.edited_at) == Some(t@))
            &&& (m.edited_at is None ==> optional_time_value(row.edited_at) is None)
            &&& m.reply_to == optional_id_value(row.reply_to)
            &&& m.connector_id == row.connector_id
            &&& m.platform_message_id == row.platform_message_id
        },
        forall|m: Message| #![trigger message_row_written(row, m)]
            message_row_written(row, m) && message_storable(m) ==> r == Some(m),
{
    let id = read_id(&row.id);
    let conversation_id = read_id(&row.conversation_id);
    let sender_id = read_id(&row.sender_id);
    let created_at = read_time(&row.created_at);
    let message_type = parse_message_type(row.message_type.as_str());
    let status = parse_message_status(row.status.as_str());
    let edited_at = read_optional_time(&row.edited_at);
    let reply_to = read_optional_id(&row.reply_to);
    proof {
        assert forall|m: Message| #![trigger message_row_written(row, m)]
            message_row_written(row, m) implies message_type == m.message_type && status
            == m.status by {
            lemma_message_type_round_trip(m.message_type);
            lemma_message_status_round_trip(m.status);
        }
    }
    match (id, conversation_id, sender_id, created_at) {
        (Some(id), Some(conversation_id), Some(sender_id), Some(created_at)) => Some(
            Message {
                id,
                conversation_id,
                sender_id,
                content: row.content,
                message_type,
                status,
                created_at,
                edited_at,
                reply_to,
                connector_id: row.connector_id,
                platform_message_id: row.platform_message_id,
            },
        ),
        _ => None,
    }
}

/// A row of the `attachments` table.
pub struct AttachmentRow {
    pub id: String,
    pub message_id: String,
    pub attachment_type: String,
    pub filename: String,
    pub url: Option<String>,
    pub size: Option<i64>,
    pub mime_type: Option<String>,
    pub created_at: String,
}

/// The size column written for a size: the same 64 bits, read as signed.
pub open spec fn size_column(size: Option<u64>) -> Option<i64> {
    match size {
        Some(s) => Some(s as i64),
        None => None,
    }
}

/// The size a size column holds: the same 64 bits, read as unsigned.
pub open spec fn size_value(column: Option<i64>) -> Option<u64> {
    match column {
        Some(s) => Some(s as u64),
        None => None,
    }
}

/// `row` holds the columns written for `a`.
pub open spec fn attachment_row_written(row: AttachmentRow, a: Attachment) -> bool {
    &&& row.id@ == uuid_text(a.id)
    &&& row.message_id@ == uuid_text(a.message_id)
    &&& row.attachment_type@ == attachment_type_text(a.attachment_type)
    &&& row.filename == a.filename
    &&& row.url == a.url
    &&& row.size == size_column(a.size)
    &&& row.mime_type == a.mime_type
    &&& row.created_at@ == rfc3339_text(a.created_at@.0, a.created_at@.1)
}

/// Writes the size column.
fn write_size(size: Option<u64>) -> (r: Option<i64>)
    ensures
        r == size_column(size),
{
    match size {
        Some(s) => Some(s as i64),
        None => None,
    }
}

/// Reads the size column.
fn read_size(column: Option<i64>) -> (r: Option<u64>)
    ensures
        r == size_value(column),
        forall|size: Option<u64>| #![trigger size_column(size)]
            column == size_column(size) ==> r == size,
{
    proof {
        assert forall|size: Option<u64>| #![trigger size_column(size)]
            column == size_column(size) implies size_value(column) == size by {
            if let Some(s) = size {
                let c = s as i64;
                assert(c as u64 == s) by (bit_vector)
                    requires
                        c == s as i64,
                ;
            }
        }
    }
    match column {
        Some(s) => Some(s as u64),
        None => None,
    }
}

/// The columns written for an attachment.
pub fn attachment_to_row(a: &Attachment) -> (row: AttachmentRow)
    ensures
        attachment_row_written(row, *a),
{
    AttachmentRow {
        id: id_to_string(a.id),
        message_id: id_to_string(a.message_id),
        attachment_type: owned(attachment_type_str(a.attachment_type)),
        filename: a.filename.clone(),
        url: copy_optional(&a.url),
        size: write_size(a.size),
        mime_type: copy_optional(&a.mime_type),
        created_at: a.created_at.to_rfc3339(),
    }
}

/// Reads an attachment from its row: absent when an identifier or the time does
/// not parse; an unknown kind reads as `Other`. A row written for an attachment
/// reads back as that attachment.
pub fn attachment_from_row(row: AttachmentRow) -> (r: Option<Attachment>)
    ensures
        r is Some <==> uuid_value(row.id@) is Some && uuid_value(row.message_id@) is Some
            && rfc3339_value(row.created_at@) is Some,
        r matches Some(a) ==> {
            &&& uuid_value(row.id@) == Some(a.id)
            &&& uuid_value(row.message_id@) == Some(a.message_id)
            &&& a.attachment_type == attachment_type_of(row.attachment_type@)
            &&& a.filename == row.filename
            &&& a.url == row.url
            &&& a.size == size_value(row.size)
            &&& a.mime_type == row.mime_type
            &&& rfc3339_value(row.created_at@) == Some(a.created_at@)
        },
        forall|a: Attachment| #![trigger attachment_row_written(row, a)]
            attachment_row_written(row, a) && storable_time(a.created_at) ==> r == Some(a),
{
    let id = read_id(&row.id);
    let message_id = read_id(&row.message_id);
    let created_at = read_time(&row.created_at);
    let attachment_type = parse_attachment_type(row.attachment_type.as_str());
    let size = read_size(row.size);
    proof {
        assert forall|a: Attachment| #![trigger attachment_row_written(row, a)]
            attachment_row_written(row, a) implies attachment_type == a.attachment_type by {
            lemma_attachment_type_round_trip(a.attachment_type);
        }
    }
    match (id, message_id, created_at) {
        (Some(id), Some(message_id), Some(created_at)) => Some(
            Attachment {
                id,
                message_id,
                attachment_type,
                filename: row.filename,
                url: row.url,
                size,
                mime_type: row.mime_type,
                created_at,
            },
        ),
        _ => None,
    }
}

} // verus!
