//! Buttons, keyboards, commands and menus, independent of the platform.
use crate::content::Duration;
use crate::native::PlatformNativeData;
use vstd::prelude::*;

verus! {

#[derive(Debug, PartialEq)]
pub enum MessageComponents {
    InlineKeyboard(InlineKeyboard),
    ReplyKeyboard(ReplyKeyboard),
    RemoveReplyKeyboard { selective: bool },
    ForceReply { input_field_placeholder: Option<String>, selective: bool },
    PlatformNative(PlatformNativeData),
}

#[derive(Debug, PartialEq)]
pub struct InlineKeyboard {
    pub rows: Vec<ActionRow>,
}

#[derive(Debug, PartialEq)]
pub struct ActionRow {
    pub components: Vec<InteractionComponent>,
}

#[derive(Debug, PartialEq)]
pub enum InteractionComponent {
    Button(Button),
    /// A select menu.
    Select,
    /// An input field.
    Input,
    PlatformNative(PlatformNativeData),
}

#[derive(Debug, PartialEq)]
pub struct Button {
    pub label: String,
    pub action: ButtonAction,
    pub style: ButtonStyle,
    pub disabled: bool,
    pub icon: Option<ButtonIcon>,
}

#[derive(Debug, Clone, Copy, PartialEq, Eq, Structural)]
pub enum ButtonStyle {
    Default,
    Primary,
    Secondary,
    Success,
    Danger,
}

#[derive(Debug, PartialEq)]
pub enum ButtonIcon {
    Emoji(String),
    Custom(String),
}

#[derive(Debug, PartialEq)]
pub enum ButtonAction {
    Callback { data: String },
    SendText { text: String },
    Url { url: String },
    WebApp { url: String },
    Login(LoginAction),
    SwitchInlineQuery { query: String, target: InlineQueryTarget },
    CopyText { text: String },
    Game,
    Pay,
    PlatformNative(PlatformNativeData),
}

#[derive(Debug, PartialEq)]
pub struct LoginAction {
    pub url: String,
    pub forward_text: Option<String>,
    pub bot_username: Option<String>,
    pub request_write_access: bool,
}

#[derive(Debug, PartialEq)]
pub enum InlineQueryTarget {
    ChooseChat,
    CurrentChat,
    ChosenChat(ChosenChatCriteria),
}

#[derive(Debug, PartialEq)]
pub struct ChosenChatCriteria {
    pub allow_user_chats: Option<bool>,
    pub allow_bot_chats: Option<bool>,
    pub allow_group_chats: Option<bool>,
    pub allow_channel_chats: Option<bool>,
}

#[derive(Debug, PartialEq)]
pub struct ReplyKeyboard {
    pub rows: Vec<ReplyButtonRow>,
    pub resize: bool,
    pub one_time: bool,
    pub persistent: bool,
    pub input_field_placeholder: Option<String>,
    pub selective: bool,
}

#[derive(Debug, PartialEq)]
pub struct ReplyButtonRow {
    pub buttons: Vec<ReplyButton>,
}

#[derive(Debug, PartialEq)]
pub struct ReplyButton {
    pub label: String,
    pub action: ReplyButtonAction,
    pub style: ButtonStyle,
    pub icon: Option<ButtonIcon>,
}

#[derive(Debug, PartialEq)]
pub enum ReplyButtonAction {
    SendText,
    RequestUsers(RequestUsers),
    RequestChat(RequestChat),
    RequestManagedBot(RequestManagedBot),
    RequestContact,
    RequestLocation,
    RequestPoll { kind: Option<PollKind> },
    WebApp { url: String },
    PlatformNative(PlatformNativeData),
}

#[derive(Debug, Clone, Copy, PartialEq, Eq, Structural)]
pub enum PollKind {
    Regular,
    Quiz,
}

#[derive(Debug, PartialEq)]
pub struct RequestUsers {
    pub request_id: i32,
    pub user_is_bot: Option<bool>,
    pub user_is_premium: Option<bool>,
    pub max_quantity: Option<u8>,
    pub request_name: bool,
    pub request_username: bool,
    pub request_photo: bool,
}

#[derive(Debug, PartialEq)]
pub struct RequestChat {
    pub request_id: i32,
    pub chat_is_channel: bool,
    pub chat_is_forum: Option<bool>,
    pub chat_has_username: Option<bool>,
    pub chat_is_created: Option<bool>,
    pub bot_is_member: bool,
    pub request_title: bool,
    pub request_username: bool,
    pub request_photo: bool,
    pub platform_data: Option<PlatformNativeData>,
}

#[derive(Debug, PartialEq)]
pub struct RequestManagedBot {
    pub request_id: i32,
    pub suggested_name: Option<String>,
    pub suggested_username: Option<String>,
}

#[derive(Debug, Clone, Copy, PartialEq, Eq, Structural)]
pub enum InteractionNotificationStyle {
    Toast,
    Alert,
}

/// An answer to an interaction.
#[derive(Debug, PartialEq)]
pub enum InteractionResponse {
    Acknowledge,
    /// More time for the answer.
    Defer,
    Notification {
        text: String,
        style: InteractionNotificationStyle,
        cache_time: Option<Duration>,
    },
    OpenUrl { url: String, cache_time: Option<Duration> },
    /// A new message.
    Message,
    /// A change of the message that the interaction came from.
    UpdateMessage,
    /// A form.
    OpenModal,
    /// What is wrong with the fields of a form.
    ValidationErrors,
    /// Another view.
    Navigate,
    CloseView,
    PlatformNative(PlatformNativeData),
}

/// What an interaction can be answered with.
#[derive(Debug, PartialEq)]
pub struct InteractionResponseHandle {
    pub id: String,
    pub platform_data: Option<PlatformNativeData>,
}

} // verus!
