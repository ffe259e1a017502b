//! The Bot API: what to call, and what the answers say.
pub mod address;
pub mod capabilities;
pub mod checklist;
pub mod commands;
pub mod edit;
pub mod interactions;
pub mod invite;
pub mod keyboard;
pub mod layout;
pub mod media;
pub mod members;
pub mod menus;
pub mod messages;
pub mod outgoing;
pub mod payments;
pub mod permissions;
pub mod placement;
pub mod platform;
pub mod poll;
pub mod profiles;
pub mod reactions;
pub mod request;
pub mod rich_text;
pub mod segments;
pub mod suggestions;
pub mod threads;
