//! The universal data model: users, connected accounts, contacts and their
//! platform identities, conversations, messages and attachments.
//! Identifiers are UUIDs, held as their 128-bit value (`Uuid::as_u128`).
use crate::clock::Timestamp;
use vstd::prelude::*;

verus! {

/// A user of the application.
#[derive(Clone, Debug, PartialEq)]
pub struct User {
    pub id: u128,
    pub username: String,
    pub email: String,
    pub created_at: Timestamp,
    pub updated_at: Timestamp,
}

/// An account of a user on one platform, reached through one connector.
#[derive(Clone, Debug, PartialEq)]
pub struct Account {
    pub id: u128,
    pub user_id: u128,
    pub connector_name: String,
    pub platform_account_id: String,
    pub display_name: String,
    pub is_connected: bool,
    pub access_token: Option<String>,
    pub refresh_token: Option<String>,
    pub created_at: Timestamp,
    pub updated_at: Timestamp,
}

/// The unified identity of a person.
#[derive(Clone, Debug, PartialEq)]
pub struct Contact {
    pub id: u128,
    pub user_id: u128,
    pub display_name: String,
    pub avatar_url: Option<String>,
    pub created_at: Timestamp,
    pub updated_at: Timestamp,
}

/// The link between a contact and an account on a platform.
#[derive(Clone, Debug, PartialEq)]
pub struct Identity {
    pub id: u128,
    pub contact_id: u128,
    pub account_id: u128,
    pub platform_user_id: String,
    pub platform_username: Option<String>,
    pub created_at: Timestamp,
}

/// The kind of a conversation.
#[derive(Clone, Copy, Debug, PartialEq, Eq, Structural)]
pub enum ConversationType {
    Private,
    Group,
    Channel,
    Thread,
    Email,
    Bot,
}

/// A conversation, whatever its platform.
#[derive(Clone, Debug, PartialEq)]
pub struct Conversation {
    pub id: u128,
    pub user_id: u128,
    pub conversation_type: ConversationType,
    pub title: String,
    pub created_at: Timestamp,
    pub updated_at: Timestamp,
    pub last_message_at: Option<Timestamp>,
}

impl Conversation {
    /// Records that a message was exchanged at `now`: it becomes the time of the
    /// last message and of the last update; nothing else changes.
    pub fn record_activity(&mut self, now: Timestamp)
        ensures
            final(self).last_message_at == Some(now),
            final(self).updated_at == now,
            final(self).id == old(self).id,
            final(self).user_id == old(self).user_id,
            final(self).conversation_type == old(self).conversation_type,
            final(self).title == old(self).title,
            final(self).created_at == old(self).created_at,
    {
        self.last_message_at = Some(now);
        self.updated_at = now;
    }
}

/// The kind of content a message carries.
#[derive(Clone, Copy, Debug, PartialEq, Eq, Structural)]
pub enum MessageType {
    Text,
    Image,
    File,
    Voice,
    Video,
    Sticker,
    Other,
}

/// The delivery state of a message.
#[derive(Clone, Copy, Debug, PartialEq, Eq, Structural)]
pub enum MessageStatus {
    Pending,
    Sent,
    Delivered,
    Read,
    Failed,
}

/// A message, whatever its platform.
#[derive(Clone, Debug, PartialEq)]
pub struct Message {
    pub id: u128,
    pub conversation_id: u128,
    pub sender_id: u128,
    pub content: String,
    pub message_type: MessageType,
    pub status: MessageStatus,
    pub created_at: Timestamp,
    pub edited_at: Option<Timestamp>,
    pub reply_to: Option<u128>,
    pub connector_id: String,
    pub platform_message_id: String,
}

/// The kind of an attachment.
#[derive(Clone, Copy, Debug, PartialEq, Eq, Structural)]
pub enum AttachmentType {
    Image,
    File,
    Voice,
    Video,
    Sticker,
    Other,
}

/// A file attached to a message.
#[derive(Clone, Debug, PartialEq)]
pub struct Attachment {
    pub id: u128,
    pub message_id: u128,
    pub attachment_type: AttachmentType,
    pub filename: String,
    pub url: Option<String>,
    pub size: Option<u64>,
    pub mime_type: Option<String>,
    pub created_at: Timestamp,
}

} // verus!
