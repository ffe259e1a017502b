//! Commands, suggestions and menus, independent of the platform.
use crate::content::OutgoingMessage;
use crate::conversation::{ConversationRef, PermissionSet};
use crate::interaction::ActionRow;
use crate::json::{Json, TextMap};
use crate::native::PlatformNativeData;
use crate::source::{File, User};
use vstd::prelude::*;

verus! {

/// A text with its translations, by locale.
#[derive(Debug, PartialEq)]
pub struct Localized {
    pub default: String,
    pub translations: TextMap<String>,
}

#[derive(Debug, PartialEq)]
pub enum CommandKind {
    ChatInput,
    User,
    Message,
    PlatformNative(String),
}

#[derive(Debug, PartialEq)]
pub enum CommandContext {
    Direct,
    Group,
    Channel,
    Administrator,
    Any,
    PlatformNative(String),
}

#[derive(Debug, PartialEq)]
pub struct CommandDefinition {
    pub id: Option<String>,
    pub name: Localized,
    pub description: Localized,
    pub kind: CommandKind,
    /// How many options the command declares.
    pub options: usize,
    /// Whether the command declares default permissions.
    pub has_default_permissions: bool,
    /// A set of contexts: the order does not matter.
    pub contexts: Vec<CommandContext>,
    pub ephemeral: bool,
    pub platform_data: Option<PlatformNativeData>,
}

#[derive(Debug, PartialEq)]
pub struct BotCommand {
    pub command: String,
    pub description: String,
    pub is_ephemeral: bool,
}

#[derive(Debug, PartialEq)]
pub enum CommandScope {
    Default,
    AllPrivateChats,
    AllGroupChats,
    AllChatAdministrators,
    Chat { chat_id: String },
    ChatAdministrators { chat_id: String },
    ChatMember { chat_id: String, user_id: String },
    PlatformNative(PlatformNativeData),
}

#[derive(Debug, PartialEq)]
pub struct BotCommandQuery {
    pub scope: CommandScope,
    pub language_code: Option<String>,
}

#[derive(Debug, PartialEq)]
pub struct BotCommandSet {
    pub commands: Vec<BotCommand>,
    pub scope: CommandScope,
    pub language_code: Option<String>,
}

#[derive(Debug, PartialEq)]
pub enum ChatMenu {
    Default,
    Commands,
    WebApp { text: String, url: String },
    Actions { label: Option<String>, rows: Vec<ActionRow> },
    PlatformNative(PlatformNativeData),
}

/// A value that a user entered or chose.
#[derive(Debug, PartialEq)]
pub enum FormValue {
    Text(String),
    Integer(i64),
    /// A real number, by its text.
    Number(String),
    Boolean(bool),
    /// A day, counted from the first day of the year 1.
    Date { days: i32 },
    /// A time of day.
    Time { seconds: u32, nanoseconds: u32 },
    /// A point in time, counted from the epoch.
    DateTime { timestamp: i64, nanoseconds: u32 },
    User(User),
    Conversation(ConversationRef),
    File(File),
    Json(Json),
}

#[derive(Debug, PartialEq)]
pub struct Suggestion {
    pub id: String,
    pub title: String,
    pub description: Option<String>,
    pub image: Option<File>,
    pub value: FormValue,
    pub message: Option<OutgoingMessage>,
    pub platform_data: Option<PlatformNativeData>,
}

/// A request for suggestions.
#[derive(Debug, PartialEq)]
pub struct SuggestionRequest {
    pub id: String,
    pub platform_data: Option<PlatformNativeData>,
}

#[derive(Debug, PartialEq)]
pub enum AppSurfaceKind {
    ChatMenu,
    Home,
    Modal,
    Sidebar,
    RichMenu,
    Unknown,
    PlatformNative(String),
}

#[derive(Debug, PartialEq)]
pub enum SurfaceContent {
    /// A layout.
    Layout,
    /// A form.
    Modal,
    /// A Mini App, by its address.
    MiniApp { url: String },
    PlatformNative(PlatformNativeData),
}

/// A place in which an app shows itself.
#[derive(Debug, PartialEq)]
pub struct AppSurface {
    pub id: Option<String>,
    pub title: Option<String>,
    pub kind: AppSurfaceKind,
    pub content: SurfaceContent,
    pub user_id: Option<String>,
    pub conversation: Option<ConversationRef>,
    pub platform_data: Option<PlatformNativeData>,
}

/// The profile of a bot, by language.
#[derive(Debug, PartialEq)]
pub struct BotProfile {
    pub names: TextMap<String>,
    pub descriptions: TextMap<String>,
    pub short_descriptions: TextMap<String>,
    pub avatar: Option<File>,
    pub default_permissions: Option<PermissionSet>,
    pub platform_data: Option<PlatformNativeData>,
}

/// What a user typed so far, and asks suggestions for.
#[derive(Debug, PartialEq)]
pub struct SuggestionQuery {
    pub id: String,
    pub query: String,
    pub user: User,
    pub cursor: Option<String>,
    pub platform_data: Option<PlatformNativeData>,
}

/// The suggestion that a user took.
#[derive(Debug, PartialEq)]
pub struct SuggestionSelection {
    pub result_id: String,
    pub query: Option<String>,
    pub user: User,
    pub message_id: Option<String>,
    pub platform_data: Option<PlatformNativeData>,
}

/// What a Mini App sent.
#[derive(Debug, PartialEq)]
pub struct MiniAppEvent {
    pub user: User,
    pub conversation: ConversationRef,
    pub data: Json,
    pub platform_data: Option<PlatformNativeData>,
}

} // verus!
