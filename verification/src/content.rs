//! The content of messages, independent of the platform.
use crate::conversation::{ConversationRef, MessageRef};
use crate::interaction::{ActionRow, MessageComponents};
use crate::json::Fields;
use crate::native::PlatformNativeData;
use crate::source::{File, User};
use vstd::prelude::*;

verus! {

/// A real number, by the JSON text of its value.
#[derive(Debug, PartialEq)]
pub enum Real {
    Finite(String),
    /// Infinite, or not a number: nothing that JSON can hold.
    NotFinite,
}

/// A span of time.
#[derive(Debug, Clone, Copy, PartialEq, Eq, Structural)]
pub struct Duration {
    pub seconds: u64,
    pub nanoseconds: u32,
}

#[derive(Debug, PartialEq)]
pub struct RichText {
    pub text: String,
    pub spans: Vec<TextSpan>,
}

/// Styles for the bytes `start..end` of a text.
#[derive(Debug, PartialEq)]
pub struct TextSpan {
    pub start: usize,
    pub end: usize,
    pub styles: Vec<TextStyle>,
}

#[derive(Debug, PartialEq)]
pub enum TextStyle {
    Bold,
    Italic,
    Underline,
    Strikethrough,
    Spoiler,
    Code,
    Preformatted { language: Option<String> },
    Link { url: String },
    UserMention { user_id: String },
    RoleMention { role_id: String },
    ConversationMention { conversation_id: String },
    CustomEmoji { id: String, fallback: Option<String> },
    Quote,
    Marked,
    Subscript,
    Superscript,
    Hashtag,
    Cashtag,
    BotCommand,
    Email,
    Phone,
    /// A point in time, in seconds since the epoch.
    DateTime { timestamp: Option<i64> },
    MathematicalExpression,
    Reference { message: Option<MessageRef> },
    PlatformNative(PlatformNativeData),
}

#[derive(Debug, PartialEq)]
pub struct Media {
    pub file: File,
    pub caption: Option<RichText>,
    pub thumbnail: Option<File>,
    pub width: Option<u32>,
    pub height: Option<u32>,
    pub duration: Option<Duration>,
    pub spoiler: bool,
    pub alt_text: Option<String>,
    pub waveform: Option<Vec<u8>>,
    pub platform_data: Option<PlatformNativeData>,
}

#[derive(Debug, PartialEq)]
pub enum MediaType {
    Image,
    Video,
    Audio,
    Document,
    Animation,
    VoiceNote,
    VideoNote,
    PlatformNative(String),
}

#[derive(Debug, PartialEq)]
pub struct MediaGalleryItem {
    pub kind: MediaType,
    pub media: Media,
}

#[derive(Debug, PartialEq)]
pub struct LocationContent {
    pub latitude: Real,
    pub longitude: Real,
    pub title: Option<String>,
    pub address: Option<String>,
    pub horizontal_accuracy: Option<Real>,
    pub live_period: Option<Duration>,
    pub heading: Option<u16>,
    pub proximity_alert_radius: Option<u32>,
    pub platform_data: Option<PlatformNativeData>,
}

#[derive(Debug, PartialEq)]
pub struct LayoutStyle {
    pub accent_color: Option<u32>,
    pub spoiler: bool,
    pub collapsible: bool,
    pub initially_collapsed: bool,
    pub platform_data: Option<PlatformNativeData>,
}

#[derive(Debug, PartialEq)]
pub struct LayoutColumn {
    pub width: Option<u16>,
    pub nodes: Vec<LayoutNode>,
}

#[derive(Debug, PartialEq)]
pub struct TableCell {
    pub content: Vec<LayoutNode>,
    pub header: bool,
    pub colspan: Option<u16>,
    pub rowspan: Option<u16>,
}

#[derive(Debug, PartialEq)]
pub enum LayoutNode {
    Text(RichText),
    Section { children: Vec<LayoutNode>, accessory: Option<Box<LayoutNode>>, style: LayoutStyle },
    Container { children: Vec<LayoutNode>, style: LayoutStyle },
    Columns(Vec<LayoutColumn>),
    Grid { columns: u16, children: Vec<LayoutNode> },
    Image(Media),
    MediaGallery(Vec<MediaGalleryItem>),
    File(Media),
    List { ordered: bool, items: Vec<Vec<LayoutNode>> },
    Table { rows: Vec<Vec<TableCell>> },
    Quote(RichText),
    Code { text: String, language: Option<String> },
    Divider,
    /// A map that shows a place.
    PlaceMap(LocationContent),
    Details { summary: RichText, children: Vec<LayoutNode>, open: bool },
    Actions(ActionRow),
    PlatformNative(PlatformNativeData),
}

#[derive(Debug, PartialEq)]
pub struct RichLayout {
    pub nodes: Vec<LayoutNode>,
    pub fallback_text: Option<String>,
    pub platform_data: Option<PlatformNativeData>,
}

#[derive(Debug, PartialEq)]
pub enum PollType {
    Regular,
    Quiz,
    PlatformNative(String),
}

#[derive(Debug, PartialEq)]
pub struct PollOption {
    pub id: Option<String>,
    pub text: RichText,
    pub voter_count: Option<u64>,
    pub platform_data: Option<PlatformNativeData>,
}

#[derive(Debug, PartialEq)]
pub struct Poll {
    pub id: Option<String>,
    pub question: RichText,
    pub options: Vec<PollOption>,
    pub allows_multiple_answers: bool,
    pub allows_revoting: Option<bool>,
    pub members_only: Option<bool>,
    pub country_codes: Vec<String>,
    pub anonymous: Option<bool>,
    pub kind: PollType,
    pub open_for: Option<Duration>,
    /// A point in time, in seconds since the epoch.
    pub closes_at: Option<i64>,
    pub total_voter_count: Option<u64>,
    pub correct_option: Option<usize>,
    pub correct_options: Vec<usize>,
    pub explanation: Option<RichText>,
    pub closed: bool,
    pub platform_data: Option<PlatformNativeData>,
}

#[derive(Debug, PartialEq)]
pub struct ChecklistTask {
    pub id: Option<String>,
    pub text: RichText,
    pub completed: bool,
    pub completed_by: Option<User>,
    /// A point in time, in seconds since the epoch.
    pub completed_at: Option<i64>,
    pub platform_data: Option<PlatformNativeData>,
}

#[derive(Debug, PartialEq)]
pub struct Checklist {
    pub id: Option<String>,
    pub title: RichText,
    pub tasks: Vec<ChecklistTask>,
    pub can_add_tasks: bool,
    pub can_mark_tasks_done: bool,
    pub platform_data: Option<PlatformNativeData>,
}

/// What changed in a checklist.
#[derive(Debug, PartialEq)]
pub struct ChecklistChange {
    pub message: Option<MessageRef>,
    pub added_tasks: Vec<ChecklistTask>,
    pub completed_task_ids: Vec<String>,
    pub reopened_task_ids: Vec<String>,
    pub actor: Option<User>,
    pub platform_data: Option<PlatformNativeData>,
}

#[derive(Debug, PartialEq)]
pub struct PhoneNumber {
    pub label: Option<String>,
    pub value: String,
}

#[derive(Debug, PartialEq)]
pub struct ContactCard {
    pub user_id: Option<String>,
    pub first_name: String,
    pub last_name: Option<String>,
    pub phone_numbers: Vec<PhoneNumber>,
    pub emails: Vec<String>,
    pub organization: Option<String>,
    pub vcard: Option<String>,
    pub platform_data: Option<PlatformNativeData>,
}

#[derive(Debug, PartialEq)]
pub struct CustomEmoji {
    pub id: String,
    pub name: Option<String>,
    pub fallback: Option<String>,
    pub file: Option<File>,
    pub platform_data: Option<PlatformNativeData>,
}

#[derive(Debug, PartialEq)]
pub struct Sticker {
    pub id: String,
    pub pack_id: Option<String>,
    pub emoji: Option<String>,
    pub file: Option<File>,
    pub animated: bool,
    pub video: bool,
    pub platform_data: Option<PlatformNativeData>,
}

#[derive(Debug, PartialEq)]
pub enum MessageContent {
    PlainText(String),
    RichText(RichText),
    Image(Media),
    Video(Media),
    Audio(Media),
    Animation(Media),
    VoiceNote(Media),
    VideoNote(Media),
    File(Media),
    MediaGallery(Vec<MediaGalleryItem>),
    Location(LocationContent),
    Contact(ContactCard),
    CustomEmoji(CustomEmoji),
    Sticker(Sticker),
    Poll(Poll),
    Checklist(Checklist),
    RichLayout(RichLayout),
    PlatformNative(PlatformNativeData),
}

#[derive(Debug, PartialEq)]
pub struct ReplyOptions {
    pub message: MessageRef,
    pub quote: Option<RichText>,
    pub quote_position: Option<u32>,
    pub allow_without_original: bool,
    pub notify_original_sender: Option<bool>,
    pub platform_data: Option<PlatformNativeData>,
}

#[derive(Debug, Clone, Copy, PartialEq, Eq, Structural)]
pub enum NotificationPolicy {
    Default,
    Silent,
    Force,
}

#[derive(Debug, PartialEq)]
pub enum MessageVisibility {
    Public,
    Ephemeral,
    PrivateTo(Vec<String>),
}

#[derive(Debug, Clone, Copy, PartialEq, Eq, Structural)]
pub struct LinkPreviewOptions {
    pub enabled: bool,
    pub prefer_large_media: Option<bool>,
    pub above_text: Option<bool>,
}

#[derive(Debug, PartialEq)]
pub enum MentionAllowance {
    PlatformDefault,
    Nobody,
    All,
    Only(Vec<String>),
}

#[derive(Debug, PartialEq)]
pub struct MentionPolicy {
    pub users: MentionAllowance,
    pub roles: MentionAllowance,
    pub conversations: MentionAllowance,
    pub everyone: bool,
    pub reply_author: bool,
}

#[derive(Debug, Clone, Copy, PartialEq, Eq, Structural)]
pub enum DeliveryTime {
    Immediate,
    /// At a point in time, in seconds since the epoch.
    Scheduled(i64),
    Draft,
}

/// How a message is sent.
#[derive(Debug, PartialEq)]
pub struct MessageOptions {
    pub components: Option<MessageComponents>,
    pub reply: Option<ReplyOptions>,
    pub notification: NotificationPolicy,
    pub visibility: MessageVisibility,
    pub link_preview: Option<LinkPreviewOptions>,
    pub mentions: Option<MentionPolicy>,
    pub protect_content: bool,
    pub delivery_time: DeliveryTime,
    pub idempotency_key: Option<String>,
    pub client_message_id: Option<String>,
    pub metadata: Fields,
    pub platform_data: Option<PlatformNativeData>,
}

#[derive(Debug, PartialEq)]
pub struct OutgoingMessage {
    pub content: Vec<MessageContent>,
    pub options: MessageOptions,
}

#[derive(Debug, PartialEq)]
pub struct ForwardOptions {
    pub preserve_author: bool,
    pub preserve_caption: bool,
    pub notification: NotificationPolicy,
    pub platform_data: Option<PlatformNativeData>,
}

/// Which messages to list.
#[derive(Debug, PartialEq)]
pub struct MessageQuery {
    pub conversation: Option<ConversationRef>,
    pub thread: Option<ConversationRef>,
    pub before: Option<MessageRef>,
    pub after: Option<MessageRef>,
    pub around: Option<MessageRef>,
    pub limit: Option<u32>,
    pub search: Option<String>,
    pub cursor: Option<String>,
    pub platform_data: Option<PlatformNativeData>,
}

} // verus!
