//! The rules of a Telegram adapter for oxidebot: what is asked of the Bot API
//! for each thing that a bot does, and what its answers and updates mean.
pub mod api;
pub mod application;
pub mod bot;
pub mod client;
pub mod collaboration;
pub mod commerce;
pub mod content;
pub mod conversation;
pub mod document;
pub mod envelope;
pub mod error;
pub mod event;
pub mod interaction;
pub mod json;
pub mod lifecycle;
pub mod list;
pub mod mime;
pub mod native;
pub mod reading;
pub mod segment;
pub mod source;
pub mod telegram;
pub mod text;
pub mod time;
pub mod uri;
pub mod utf16;
pub mod utils;
pub mod web_app;

pub use bot::TelegramBot;
pub use client::{GetUpdatesConfig, ResponseParameters, TelegramApiError, TelegramClient};
pub use native::SERVER;
pub use telegram::BOT_API_VERSION;
