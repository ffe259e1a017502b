//! Reactions, pins and activity, independent of the platform.
use crate::conversation::MessageRef;
use crate::native::PlatformNativeData;
use crate::source::User;
use vstd::prelude::*;

verus! {

#[derive(Debug, PartialEq)]
pub enum Reaction {
    UnicodeEmoji(String),
    CustomEmoji { id: String, name: Option<String> },
    Paid,
    /// A document in the form of the named platform, by its JSON text.
    PlatformNative { platform: String, data: String },
}

#[derive(Debug, PartialEq)]
pub struct ReactionOptions {
    pub emphasized: bool,
    pub variant: Option<String>,
}

/// How often a reaction was given.
#[derive(Debug, PartialEq)]
pub struct ReactionSummary {
    pub reaction: Reaction,
    pub count: u64,
    pub reacted_by_bot: bool,
    pub recent_users: Vec<User>,
    pub platform_data: Option<PlatformNativeData>,
}

/// The reactions to a message that came, that went, and how often each one
/// stands now.
#[derive(Debug, PartialEq)]
pub struct ReactionChange {
    pub added: Vec<Reaction>,
    pub removed: Vec<Reaction>,
    pub current: Vec<ReactionSummary>,
}

#[derive(Debug, PartialEq)]
pub enum ChatActivity {
    Typing,
    UploadingPhoto,
    UploadingVideo,
    UploadingAudio,
    UploadingFile,
    RecordingAudio,
    RecordingVideo,
    ChoosingSticker,
    Playing,
    PlatformNative(String),
}

#[derive(Debug, Clone, Copy, PartialEq, Eq, Structural)]
pub struct PinOptions {
    pub notify_members: Option<bool>,
}

#[derive(Debug, PartialEq)]
pub struct PinnedMessage {
    pub message: MessageRef,
    pub pinned_by: Option<User>,
    /// A point in time, in seconds since the epoch.
    pub pinned_at: Option<i64>,
    pub platform_data: Option<PlatformNativeData>,
}

} // verus!
