//! Socials: the core model of a unified messaging inbox.
pub mod api;
pub mod clock;
pub mod codec;
pub mod connectors;
pub mod entities;
pub mod events;
pub mod ids;
pub mod rows;
pub mod telegram_bot;
pub mod telegram_user;
pub mod text;
