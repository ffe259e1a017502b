//! What Telegram sends and receives, and the client that talks to it.
use crate::content::Real;
use crate::json::{Fields, Json};
use crate::text;
use crate::text::same;
use vstd::prelude::*;

verus! {

/// The version of the Bot API that this library is written for.
pub const BOT_API_VERSION: &'static str = "10.2";

#[derive(Debug, PartialEq, Default)]
pub struct User {
    pub id: i64,
    pub is_bot: bool,
    pub first_name: String,
    pub last_name: Option<String>,
    pub username: Option<String>,
}

#[derive(Debug, PartialEq, Default)]
pub struct Chat {
    pub id: i64,
    pub kind: String,
    pub title: Option<String>,
    pub username: Option<String>,
    pub first_name: Option<String>,
    pub last_name: Option<String>,
}

fn copy_text(value: &Option<String>) -> (copy: Option<String>)
    ensures
        copy == *value,
{
    match value {
        Some(text) => Some(text.clone()),
        None => None,
    }
}

impl Clone for Chat {
    fn clone(&self) -> (res: Self)
        ensures
            res == *self,
    {
        Chat {
            id: self.id,
            kind: self.kind.clone(),
            title: copy_text(&self.title),
            username: copy_text(&self.username),
            first_name: copy_text(&self.first_name),
            last_name: copy_text(&self.last_name),
        }
    }
}

#[derive(Debug, PartialEq, Default)]
pub struct ChatFullInfo {
    pub id: i64,
    pub kind: String,
    pub title: Option<String>,
    pub username: Option<String>,
    pub first_name: Option<String>,
    pub last_name: Option<String>,
    pub bio: Option<String>,
    pub birthdate: Option<Birthdate>,
    pub photo: Option<ChatPhoto>,
}

#[derive(Debug, PartialEq, Default)]
pub struct Birthdate {
    pub day: u32,
    pub month: u32,
    pub year: Option<i32>,
}

#[derive(Debug, PartialEq, Default)]
pub struct ChatPhoto {
    pub small_file_id: String,
    pub big_file_id: String,
}

#[derive(Debug, PartialEq, Default)]
pub struct Message {
    pub message_id: i64,
    pub date: i64,
    pub chat: Chat,
    pub from: Option<User>,
    pub sender_chat: Option<Chat>,
    pub text: Option<String>,
    pub entities: Option<Vec<MessageEntity>>,
    pub photo: Option<Vec<PhotoSize>>,
    pub animation: Option<MediaFile>,
    pub audio: Option<MediaFile>,
    pub video: Option<MediaFile>,
    pub video_note: Option<MediaFile>,
    pub document: Option<MediaFile>,
    pub sticker: Option<Sticker>,
    pub voice: Option<MediaFile>,
    pub caption: Option<String>,
    pub caption_entities: Option<Vec<MessageEntity>>,
    pub venue: Option<Venue>,
    pub location: Option<Location>,
    pub new_chat_members: Option<Vec<User>>,
    pub left_chat_member: Option<User>,
    pub rich_message: Option<Json>,
    pub live_photo: Option<Json>,
    pub paid_media: Option<Json>,
    pub story: Option<Json>,
    pub contact: Option<Json>,
    /// The members that have no field of their own.
    pub extra: Fields,
}

/// A part of a text, in UTF-16 code units, that has a meaning of its own.
#[derive(Debug, PartialEq, Default)]
pub struct MessageEntity {
    pub kind: String,
    pub offset: usize,
    pub length: usize,
    pub url: Option<String>,
    pub user: Option<User>,
    pub custom_emoji_id: Option<String>,
}

#[derive(Debug, PartialEq, Default)]
pub struct PhotoSize {
    pub file_id: String,
    pub width: u64,
    pub height: u64,
    pub file_size: Option<u64>,
}

/// An animation, an audio file, a video, a video note, a document or a voice
/// note.
#[derive(Debug, PartialEq, Default)]
pub struct MediaFile {
    pub file_id: String,
    pub file_name: Option<String>,
    pub mime_type: Option<String>,
    pub duration: i64,
    pub file_size: Option<u64>,
}

#[derive(Debug, PartialEq, Default)]
pub struct Sticker {
    pub file_id: String,
    pub emoji: Option<String>,
    pub file_size: Option<u64>,
}

#[derive(Debug, PartialEq)]
pub struct Location {
    pub latitude: Real,
    pub longitude: Real,
}

#[derive(Debug, PartialEq)]
pub struct Venue {
    pub location: Location,
    pub title: String,
    pub address: String,
}

#[derive(Debug, PartialEq, Default)]
pub struct MessageReactionUpdated {
    pub chat: Chat,
    pub message_id: i64,
    pub user: Option<User>,
    pub actor_chat: Option<Chat>,
    pub old_reaction: Vec<ReactionType>,
    pub new_reaction: Vec<ReactionType>,
}

#[derive(Debug, PartialEq, Default)]
pub struct CallbackQuery {
    pub id: String,
    pub from: User,
    pub message: Option<Message>,
    pub inline_message_id: Option<String>,
    pub chat_instance: String,
    pub data: Option<String>,
    pub game_short_name: Option<String>,
}

#[derive(Debug, PartialEq, Default)]
pub struct ReactionType {
    pub kind: String,
    pub emoji: Option<String>,
    pub custom_emoji_id: Option<String>,
}

#[derive(Debug, PartialEq, Default)]
pub struct ChatMemberUpdated {
    pub chat: Chat,
    pub from: User,
    pub date: i64,
    pub old_chat_member: ChatMember,
    pub new_chat_member: ChatMember,
    pub via_join_request: Option<bool>,
    pub via_chat_folder_invite_link: Option<bool>,
}

#[derive(Debug, PartialEq, Default)]
pub struct ChatMember {
    pub status: String,
    pub user: User,
    pub is_member: Option<bool>,
    pub can_send_messages: Option<bool>,
    pub until_date: Option<i64>,
    pub custom_title: Option<String>,
    pub tag: Option<String>,
    /// The members that have no field of their own.
    pub extra: Fields,
}

impl ChatMember {
    /// The member belongs to the chat.
    pub open spec fn present(&self) -> bool {
        ||| self.admin()
        ||| self.status@ == "member"@
        ||| self.status@ == "restricted"@ && self.is_member != Some(false)
    }

    /// The member is the owner or an administrator.
    pub open spec fn admin(&self) -> bool {
        self.status@ == "creator"@ || self.status@ == "administrator"@
    }

    /// The member is restricted and may not send messages.
    pub open spec fn muted(&self) -> bool {
        self.status@ == "restricted"@ && self.can_send_messages == Some(false)
    }

    /// Whether the member belongs to the chat.
    pub fn is_present(&self) -> (result: bool)
        ensures
            result == self.present(),
    {
        let status: &str = self.status.as_str();
        if same(status, "creator") || same(status, "administrator") || same(status, "member") {
            true
        } else if same(status, "restricted") {
            match self.is_member {
                Some(member) => member,
                None => true,
            }
        } else {
            false
        }
    }

    /// Whether the member is the owner or an administrator.
    pub fn is_admin(&self) -> (result: bool)
        ensures
            result == self.admin(),
    {
        same(self.status.as_str(), "creator") || same(self.status.as_str(), "administrator")
    }

    /// Whether the member is restricted and may not send messages.
    pub fn is_muted(&self) -> (result: bool)
        ensures
            result == self.muted(),
    {
        same(self.status.as_str(), "restricted") && match self.can_send_messages {
            Some(can_send) => !can_send,
            None => false,
        }
    }
}

#[derive(Debug, PartialEq, Default)]
pub struct ChatJoinRequest {
    pub chat: Chat,
    pub from: User,
    pub user_chat_id: i64,
    pub bio: Option<String>,
    pub date: i64,
    pub query_id: Option<String>,
}

#[derive(Debug, PartialEq, Default)]
pub struct TelegramFile {
    pub file_id: String,
    pub file_unique_id: String,
    pub file_size: Option<u64>,
    pub file_path: Option<String>,
}

/// A file to be uploaded.
#[derive(Debug, PartialEq, Default)]
pub struct Upload {
    pub name: String,
    pub bytes: Vec<u8>,
    pub mime: Option<String>,
}

} // verus!
