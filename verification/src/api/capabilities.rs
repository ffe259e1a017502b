//! What the bot can do.
use crate::api::edit;
use crate::api::edit::{EditStepView, TelegramEditAddress};
use crate::api::interactions;
use crate::api::keyboard;
use crate::api::media;
use crate::api::media::{CAPTION_LIMIT, MEDIA_GROUP_LIMIT};
use crate::api::menus;
use crate::api::messages;
use crate::api::outgoing;
use crate::api::outgoing::{ContextView, StepView};
use crate::api::poll;
use crate::api::reactions;
use crate::api::rich_text;
use crate::api::suggestions;
use crate::application::{AppSurface, BotCommandSet, Suggestion};
use crate::collaboration::Reaction;
use crate::content::{
    Media, MediaGalleryItem, MessageContent, MessageOptions, MessageQuery, MessageVisibility, Poll,
};
use crate::conversation::{MessageRef, MessageTarget};
use crate::error::ErrorView;
use crate::interaction::{
    Button, ButtonAction, ButtonStyle, InteractionComponent, InteractionResponse,
};
use crate::json;
use crate::json::{Fields, JsonView};
use crate::text;
use crate::text::utf16_len;
use vstd::prelude::*;

verus! {

/// How many UTF-16 code units one message can hold.
pub const TEXT_LIMIT: usize = 4096;

/// A text that one message can hold.
pub open spec fn text_fits(text: Seq<char>) -> bool {
    text::units_of(text) <= TEXT_LIMIT
}

/// Whether one message can hold a text.
pub fn fits_in_message(text: &str) -> (result: bool)
    ensures
        result == text_fits(text@),
{
    utf16_len(text) <= TEXT_LIMIT
}

/// How well something is supported.
#[derive(Debug, Clone, Copy, PartialEq, Eq, Structural)]
pub enum SupportLevel {
    /// Telegram has it.
    Native,
    /// It is made of what Telegram has.
    Emulated,
    /// There is nothing like it.
    Unsupported,
}

/// What an interaction can use.
#[derive(Debug, Clone, Copy, PartialEq, Eq, Structural)]
pub struct InteractionCapabilities {
    pub inline_buttons: bool,
    pub reply_keyboard: bool,
    pub select_menus: bool,
    pub modals: bool,
    pub commands: bool,
    pub chat_menu: bool,
    pub web_apps: bool,
    pub update_components: bool,
}

/// Buttons, keyboards, commands, menus and Mini Apps can be used; select menus
/// and modals cannot.
pub fn interaction_capabilities() -> (result: InteractionCapabilities)
    ensures
        result == (InteractionCapabilities {
            inline_buttons: true,
            reply_keyboard: true,
            select_menus: false,
            modals: false,
            commands: true,
            chat_menu: true,
            web_apps: true,
            update_components: true,
        }),
{
    InteractionCapabilities {
        inline_buttons: true,
        reply_keyboard: true,
        select_menus: false,
        modals: false,
        commands: true,
        chat_menu: true,
        web_apps: true,
        update_components: true,
    }
}

/// Which content can be sent.
#[derive(Debug, Clone, Copy, PartialEq, Eq, Structural)]
pub struct ContentCapabilities {
    pub plain_text: SupportLevel,
    pub rich_text: SupportLevel,
    pub rich_layout: SupportLevel,
    pub images: SupportLevel,
    pub video: SupportLevel,
    pub audio: SupportLevel,
    pub animation: SupportLevel,
    pub voice_notes: SupportLevel,
    pub video_notes: SupportLevel,
    pub files: SupportLevel,
    pub media_galleries: SupportLevel,
    pub location: SupportLevel,
    pub contacts: SupportLevel,
    pub stickers: SupportLevel,
    pub custom_emoji: SupportLevel,
    pub polls: SupportLevel,
    pub quizzes: SupportLevel,
    pub checklists: SupportLevel,
    pub platform_native: SupportLevel,
}

/// How messages can be delivered.
#[derive(Debug, PartialEq)]
pub struct DeliveryCapabilities {
    pub replies: SupportLevel,
    pub quoted_replies: SupportLevel,
    pub threads: SupportLevel,
    pub silent: SupportLevel,
    pub forced_notification: SupportLevel,
    pub protected_content: SupportLevel,
    pub link_preview_control: SupportLevel,
    pub mention_control: SupportLevel,
    pub ephemeral: SupportLevel,
    pub private_to_users: SupportLevel,
    pub scheduling: SupportLevel,
    pub drafts: SupportLevel,
    pub idempotency_keys: SupportLevel,
    pub client_message_ids: SupportLevel,
    pub metadata: SupportLevel,
    pub supported_visibilities: Vec<MessageVisibility>,
}

/// What buttons can do.
#[derive(Debug, PartialEq)]
pub struct ButtonCapabilities {
    pub callback: SupportLevel,
    pub send_text: SupportLevel,
    pub url: SupportLevel,
    pub web_app: SupportLevel,
    pub login: SupportLevel,
    pub switch_inline_query: SupportLevel,
    pub copy_text: SupportLevel,
    pub game: SupportLevel,
    pub pay: SupportLevel,
    pub disabled: SupportLevel,
    pub icons: SupportLevel,
    /// Each style once.
    pub styles: Vec<ButtonStyle>,
    pub max_callback_bytes: Option<usize>,
    pub max_buttons_per_row: Option<usize>,
    pub max_rows: Option<usize>,
}

/// Which components a message can have.
#[derive(Debug, PartialEq)]
pub struct ComponentCapabilities {
    pub inline_keyboard: SupportLevel,
    pub reply_keyboard: SupportLevel,
    pub selects: SupportLevel,
    pub text_input: SupportLevel,
    pub number_input: SupportLevel,
    pub checkbox: SupportLevel,
    pub checkbox_group: SupportLevel,
    pub radio_group: SupportLevel,
    pub toggle: SupportLevel,
    pub date_picker: SupportLevel,
    pub time_picker: SupportLevel,
    pub datetime_picker: SupportLevel,
    pub file_upload: SupportLevel,
    pub dynamic_suggestions: SupportLevel,
    pub modals: SupportLevel,
    pub platform_native: SupportLevel,
    pub buttons: ButtonCapabilities,
}

/// How an interaction can be answered.
#[derive(Debug, Clone, Copy, PartialEq, Eq, Structural)]
pub struct InteractionLifecycleCapabilities {
    pub acknowledge: SupportLevel,
    pub defer: SupportLevel,
    pub notifications: SupportLevel,
    pub open_url: SupportLevel,
    pub initial_message: SupportLevel,
    pub update_original: SupportLevel,
    pub followups: SupportLevel,
    pub edit_original: SupportLevel,
    pub delete_original: SupportLevel,
    pub validation_errors: SupportLevel,
    pub view_navigation: SupportLevel,
}

/// What can be done in conversations.
#[derive(Debug, Clone, Copy, PartialEq, Eq, Structural)]
pub struct ConversationCapabilities {
    pub direct: SupportLevel,
    pub groups: SupportLevel,
    pub channels: SupportLevel,
    pub threads: SupportLevel,
    pub topics: SupportLevel,
    pub forums: SupportLevel,
    pub create_threads: SupportLevel,
    pub manage_threads: SupportLevel,
    pub history: SupportLevel,
    pub search: SupportLevel,
    pub members: SupportLevel,
    pub roles: SupportLevel,
    pub member_tags: SupportLevel,
    pub permissions: SupportLevel,
    pub moderation: SupportLevel,
    pub join_requests: SupportLevel,
    pub invite_links: SupportLevel,
    pub profile: SupportLevel,
    pub leave: SupportLevel,
}

/// What can be done with messages of others.
#[derive(Debug, Clone, Copy, PartialEq, Eq, Structural)]
pub struct CollaborationCapabilities {
    pub reactions: SupportLevel,
    pub multiple_reactions: SupportLevel,
    pub reaction_users: SupportLevel,
    pub pins: SupportLevel,
    pub typing: SupportLevel,
    pub read_receipts: SupportLevel,
    pub call_events: SupportLevel,
    pub call_management: SupportLevel,
    pub forwarding: SupportLevel,
    pub copying: SupportLevel,
    pub batch_send: SupportLevel,
    pub bulk_delete: SupportLevel,
    pub broadcast: SupportLevel,
}

/// What the application around the bot can have.
#[derive(Debug, Clone, Copy, PartialEq, Eq, Structural)]
pub struct ApplicationCapabilities {
    pub commands: SupportLevel,
    pub structured_commands: SupportLevel,
    pub command_localizations: SupportLevel,
    pub autocomplete: SupportLevel,
    pub chat_menu: SupportLevel,
    pub home_surface: SupportLevel,
    pub rich_menu: SupportLevel,
    pub mini_apps: SupportLevel,
    pub payments: SupportLevel,
    pub subscriptions: SupportLevel,
}

/// How much is accepted at once.
#[derive(Debug, PartialEq)]
pub struct PlatformLimits {
    pub max_text_length: Option<usize>,
    pub max_caption_length: Option<usize>,
    pub max_rich_text_length: Option<usize>,
    pub max_media_per_message: Option<usize>,
    pub max_file_bytes: Option<u64>,
    pub max_components: Option<usize>,
    pub max_commands: Option<usize>,
    pub max_poll_options: Option<usize>,
    pub max_batch_size: Option<usize>,
    pub edit_window_seconds: Option<u64>,
    pub supported_mime_types: Vec<String>,
    pub platform_limits: Fields,
}

/// What the bot can do.
#[derive(Debug, PartialEq)]
pub struct BotCapabilities {
    pub content: ContentCapabilities,
    pub delivery: DeliveryCapabilities,
    pub components: ComponentCapabilities,
    pub interaction_lifecycle: InteractionLifecycleCapabilities,
    pub conversations: ConversationCapabilities,
    pub collaboration: CollaborationCapabilities,
    pub application: ApplicationCapabilities,
    pub limits: PlatformLimits,
}

/// Every kind of content can be sent.
pub open spec fn content_support() -> ContentCapabilities {
    ContentCapabilities {
        plain_text: SupportLevel::Native,
        rich_text: SupportLevel::Native,
        rich_layout: SupportLevel::Native,
        images: SupportLevel::Native,
        video: SupportLevel::Native,
        audio: SupportLevel::Native,
        animation: SupportLevel::Native,
        voice_notes: SupportLevel::Native,
        video_notes: SupportLevel::Native,
        files: SupportLevel::Native,
        media_galleries: SupportLevel::Native,
        location: SupportLevel::Native,
        contacts: SupportLevel::Native,
        stickers: SupportLevel::Native,
        custom_emoji: SupportLevel::Native,
        polls: SupportLevel::Native,
        quizzes: SupportLevel::Native,
        checklists: SupportLevel::Native,
        platform_native: SupportLevel::Native,
    }
}

fn report_content() -> (result: ContentCapabilities)
    ensures
        result == content_support(),
{
    ContentCapabilities {
        plain_text: SupportLevel::Native,
        rich_text: SupportLevel::Native,
        rich_layout: SupportLevel::Native,
        images: SupportLevel::Native,
        video: SupportLevel::Native,
        audio: SupportLevel::Native,
        animation: SupportLevel::Native,
        voice_notes: SupportLevel::Native,
        video_notes: SupportLevel::Native,
        files: SupportLevel::Native,
        media_galleries: SupportLevel::Native,
        location: SupportLevel::Native,
        contacts: SupportLevel::Native,
        stickers: SupportLevel::Native,
        custom_emoji: SupportLevel::Native,
        polls: SupportLevel::Native,
        quizzes: SupportLevel::Native,
        checklists: SupportLevel::Native,
        platform_native: SupportLevel::Native,
    }
}

/// An interaction can be acknowledged and notified; the rest is made of ordinary
/// messages, and there are no forms.
pub open spec fn interaction_lifecycle_support() -> InteractionLifecycleCapabilities {
    InteractionLifecycleCapabilities {
        acknowledge: SupportLevel::Native,
        defer: SupportLevel::Emulated,
        notifications: SupportLevel::Native,
        open_url: SupportLevel::Native,
        initial_message: SupportLevel::Emulated,
        update_original: SupportLevel::Emulated,
        followups: SupportLevel::Emulated,
        edit_original: SupportLevel::Emulated,
        delete_original: SupportLevel::Emulated,
        validation_errors: SupportLevel::Unsupported,
        view_navigation: SupportLevel::Unsupported,
    }
}

fn report_interaction_lifecycle() -> (result: InteractionLifecycleCapabilities)
    ensures
        result == interaction_lifecycle_support(),
{
    InteractionLifecycleCapabilities {
        acknowledge: SupportLevel::Native,
        defer: SupportLevel::Emulated,
        notifications: SupportLevel::Native,
        open_url: SupportLevel::Native,
        initial_message: SupportLevel::Emulated,
        update_original: SupportLevel::Emulated,
        followups: SupportLevel::Emulated,
        edit_original: SupportLevel::Emulated,
        delete_original: SupportLevel::Emulated,
        validation_errors: SupportLevel::Unsupported,
        view_navigation: SupportLevel::Unsupported,
    }
}

/// Conversations can be managed; what the Bot API does not list, such as history and
/// members, only as far as it goes.
pub open spec fn conversations_support() -> ConversationCapabilities {
    ConversationCapabilities {
        direct: SupportLevel::Native,
        groups: SupportLevel::Native,
        channels: SupportLevel::Native,
        threads: SupportLevel::Native,
        topics: SupportLevel::Native,
        forums: SupportLevel::Native,
        create_threads: SupportLevel::Native,
        manage_threads: SupportLevel::Native,
        history: SupportLevel::Emulated,
        search: SupportLevel::Unsupported,
        members: SupportLevel::Emulated,
        roles: SupportLevel::Emulated,
        member_tags: SupportLevel::Native,
        permissions: SupportLevel::Native,
        moderation: SupportLevel::Native,
        join_requests: SupportLevel::Native,
        invite_links: SupportLevel::Native,
        profile: SupportLevel::Native,
        leave: SupportLevel::Native,
    }
}

fn report_conversations() -> (result: ConversationCapabilities)
    ensures
        result == conversations_support(),
{
    ConversationCapabilities {
        direct: SupportLevel::Native,
        groups: SupportLevel::Native,
        channels: SupportLevel::Native,
        threads: SupportLevel::Native,
        topics: SupportLevel::Native,
        forums: SupportLevel::Native,
        create_threads: SupportLevel::Native,
        manage_threads: SupportLevel::Native,
        history: SupportLevel::Emulated,
        search: SupportLevel::Unsupported,
        members: SupportLevel::Emulated,
        roles: SupportLevel::Emulated,
        member_tags: SupportLevel::Native,
        permissions: SupportLevel::Native,
        moderation: SupportLevel::Native,
        join_requests: SupportLevel::Native,
        invite_links: SupportLevel::Native,
        profile: SupportLevel::Native,
        leave: SupportLevel::Native,
    }
}

/// Messages can be reacted to, pinned, forwarded and removed; calls cannot be managed.
pub open spec fn collaboration_support() -> CollaborationCapabilities {
    CollaborationCapabilities {
        reactions: SupportLevel::Native,
        multiple_reactions: SupportLevel::Unsupported,
        reaction_users: SupportLevel::Unsupported,
        pins: SupportLevel::Native,
        typing: SupportLevel::Native,
        read_receipts: SupportLevel::Native,
        call_events: SupportLevel::Native,
        call_management: SupportLevel::Unsupported,
        forwarding: SupportLevel::Native,
        copying: SupportLevel::Native,
        batch_send: SupportLevel::Native,
        bulk_delete: SupportLevel::Native,
        broadcast: SupportLevel::Native,
    }
}

fn report_collaboration() -> (result: CollaborationCapabilities)
    ensures
        result == collaboration_support(),
{
    CollaborationCapabilities {
        reactions: SupportLevel::Native,
        multiple_reactions: SupportLevel::Unsupported,
        reaction_users: SupportLevel::Unsupported,
        pins: SupportLevel::Native,
        typing: SupportLevel::Native,
        read_receipts: SupportLevel::Native,
        call_events: SupportLevel::Native,
        call_management: SupportLevel::Unsupported,
        forwarding: SupportLevel::Native,
        copying: SupportLevel::Native,
        batch_send: SupportLevel::Native,
        bulk_delete: SupportLevel::Native,
        broadcast: SupportLevel::Native,
    }
}

/// The application has commands, a menu, Mini Apps and payments.
pub open spec fn application_support() -> ApplicationCapabilities {
    ApplicationCapabilities {
        commands: SupportLevel::Native,
        structured_commands: SupportLevel::Emulated,
        command_localizations: SupportLevel::Native,
        autocomplete: SupportLevel::Native,
        chat_menu: SupportLevel::Native,
        home_surface: SupportLevel::Unsupported,
        rich_menu: SupportLevel::Unsupported,
        mini_apps: SupportLevel::Native,
        payments: SupportLevel::Native,
        subscriptions: SupportLevel::Native,
    }
}

fn report_application() -> (result: ApplicationCapabilities)
    ensures
        result == application_support(),
{
    ApplicationCapabilities {
        commands: SupportLevel::Native,
        structured_commands: SupportLevel::Emulated,
        command_localizations: SupportLevel::Native,
        autocomplete: SupportLevel::Native,
        chat_menu: SupportLevel::Native,
        home_surface: SupportLevel::Unsupported,
        rich_menu: SupportLevel::Unsupported,
        mini_apps: SupportLevel::Native,
        payments: SupportLevel::Native,
        subscriptions: SupportLevel::Native,
    }
}

/// A message can be for all, for one or for some; it cannot be scheduled, and
/// carries no keys or metadata of the sender.
pub open spec fn delivery_supported(delivery: DeliveryCapabilities) -> bool {
    &&& delivery.replies == SupportLevel::Native
    &&& delivery.quoted_replies == SupportLevel::Native
    &&& delivery.threads == SupportLevel::Native
    &&& delivery.silent == SupportLevel::Native
    &&& delivery.forced_notification == SupportLevel::Emulated
    &&& delivery.protected_content == SupportLevel::Native
    &&& delivery.link_preview_control == SupportLevel::Native
    &&& delivery.mention_control == SupportLevel::Unsupported
    &&& delivery.ephemeral == SupportLevel::Native
    &&& delivery.private_to_users == SupportLevel::Native
    &&& delivery.scheduling == SupportLevel::Unsupported
    &&& delivery.drafts == SupportLevel::Native
    &&& delivery.idempotency_keys == SupportLevel::Unsupported
    &&& delivery.client_message_ids == SupportLevel::Unsupported
    &&& delivery.metadata == SupportLevel::Unsupported
    &&& delivery.supported_visibilities@.len() == 3
    &&& delivery.supported_visibilities@[0] is Public
    &&& delivery.supported_visibilities@[1] is Ephemeral
    &&& delivery.supported_visibilities@[2] matches MessageVisibility::PrivateTo(users) && users@.len() == 0
}

fn report_delivery() -> (result: DeliveryCapabilities)
    ensures
        delivery_supported(result),
{
    DeliveryCapabilities {
        replies: SupportLevel::Native,
        quoted_replies: SupportLevel::Native,
        threads: SupportLevel::Native,
        silent: SupportLevel::Native,
        forced_notification: SupportLevel::Emulated,
        protected_content: SupportLevel::Native,
        link_preview_control: SupportLevel::Native,
        mention_control: SupportLevel::Unsupported,
        ephemeral: SupportLevel::Native,
        private_to_users: SupportLevel::Native,
        scheduling: SupportLevel::Unsupported,
        drafts: SupportLevel::Native,
        idempotency_keys: SupportLevel::Unsupported,
        client_message_ids: SupportLevel::Unsupported,
        metadata: SupportLevel::Unsupported,
        supported_visibilities: vec![
            MessageVisibility::Public,
            MessageVisibility::Ephemeral,
            MessageVisibility::PrivateTo(Vec::new()),
        ],
    }
}

/// A button can do everything but send a text or be disabled, in four styles.
pub open spec fn buttons_supported(buttons: ButtonCapabilities) -> bool {
    &&& buttons.callback == SupportLevel::Native
    &&& buttons.send_text == SupportLevel::Unsupported
    &&& buttons.url == SupportLevel::Native
    &&& buttons.web_app == SupportLevel::Native
    &&& buttons.login == SupportLevel::Native
    &&& buttons.switch_inline_query == SupportLevel::Native
    &&& buttons.copy_text == SupportLevel::Native
    &&& buttons.game == SupportLevel::Native
    &&& buttons.pay == SupportLevel::Native
    &&& buttons.disabled == SupportLevel::Unsupported
    &&& buttons.icons == SupportLevel::Native
    &&& buttons.styles@ == seq![
        ButtonStyle::Default,
        ButtonStyle::Primary,
        ButtonStyle::Success,
        ButtonStyle::Danger,
    ]
    &&& buttons.max_callback_bytes == Some(64usize)
    &&& buttons.max_buttons_per_row is None
    &&& buttons.max_rows is None
}

fn report_buttons() -> (result: ButtonCapabilities)
    ensures
        buttons_supported(result),
{
    ButtonCapabilities {
        callback: SupportLevel::Native,
        send_text: SupportLevel::Unsupported,
        url: SupportLevel::Native,
        web_app: SupportLevel::Native,
        login: SupportLevel::Native,
        switch_inline_query: SupportLevel::Native,
        copy_text: SupportLevel::Native,
        game: SupportLevel::Native,
        pay: SupportLevel::Native,
        disabled: SupportLevel::Unsupported,
        icons: SupportLevel::Native,
        styles: vec![
            ButtonStyle::Default,
            ButtonStyle::Primary,
            ButtonStyle::Success,
            ButtonStyle::Danger,
        ],
        max_callback_bytes: Some(64),
        max_buttons_per_row: None,
        max_rows: None,
    }
}

/// A message can have keyboards, and nothing to be filled in.
pub open spec fn components_supported(components: ComponentCapabilities) -> bool {
    &&& components.inline_keyboard == SupportLevel::Native
    &&& components.reply_keyboard == SupportLevel::Native
    &&& components.selects == SupportLevel::Unsupported
    &&& components.text_input == SupportLevel::Unsupported
    &&& components.number_input == SupportLevel::Unsupported
    &&& components.checkbox == SupportLevel::Unsupported
    &&& components.checkbox_group == SupportLevel::Unsupported
    &&& components.radio_group == SupportLevel::Unsupported
    &&& components.toggle == SupportLevel::Unsupported
    &&& components.date_picker == SupportLevel::Unsupported
    &&& components.time_picker == SupportLevel::Unsupported
    &&& components.datetime_picker == SupportLevel::Unsupported
    &&& components.file_upload == SupportLevel::Unsupported
    &&& components.dynamic_suggestions == SupportLevel::Unsupported
    &&& components.modals == SupportLevel::Unsupported
    &&& components.platform_native == SupportLevel::Native
    &&& buttons_supported(components.buttons)
}

fn report_components() -> (result: ComponentCapabilities)
    ensures
        components_supported(result),
{
    ComponentCapabilities {
        inline_keyboard: SupportLevel::Native,
        reply_keyboard: SupportLevel::Native,
        selects: SupportLevel::Unsupported,
        text_input: SupportLevel::Unsupported,
        number_input: SupportLevel::Unsupported,
        checkbox: SupportLevel::Unsupported,
        checkbox_group: SupportLevel::Unsupported,
        radio_group: SupportLevel::Unsupported,
        toggle: SupportLevel::Unsupported,
        date_picker: SupportLevel::Unsupported,
        time_picker: SupportLevel::Unsupported,
        datetime_picker: SupportLevel::Unsupported,
        file_upload: SupportLevel::Unsupported,
        dynamic_suggestions: SupportLevel::Unsupported,
        modals: SupportLevel::Unsupported,
        platform_native: SupportLevel::Native,
        buttons: report_buttons(),
    }
}

/// The limits that the calls keep to.
pub open spec fn limits_reported(limits: PlatformLimits) -> bool {
    &&& limits.max_text_length == Some(TEXT_LIMIT)
    &&& limits.max_caption_length == Some(CAPTION_LIMIT)
    &&& limits.max_rich_text_length is None
    &&& limits.max_media_per_message == Some(MEDIA_GROUP_LIMIT)
    &&& limits.max_file_bytes is None
    &&& limits.max_components is None
    &&& limits.max_commands == Some(100usize)
    &&& limits.max_poll_options == Some(12usize)
    &&& limits.max_batch_size == Some(100usize)
    &&& limits.edit_window_seconds is None
    &&& limits.supported_mime_types@.len() == 0
    &&& json::fields(limits.platform_limits) == json::no_fields()
}

fn report_limits() -> (result: PlatformLimits)
    ensures
        limits_reported(result),
{
    PlatformLimits {
        max_text_length: Some(TEXT_LIMIT),
        max_caption_length: Some(CAPTION_LIMIT),
        max_rich_text_length: None,
        max_media_per_message: Some(MEDIA_GROUP_LIMIT),
        max_file_bytes: None,
        max_components: None,
        max_commands: Some(100),
        max_poll_options: Some(12),
        max_batch_size: Some(100),
        edit_window_seconds: None,
        supported_mime_types: Vec::new(),
        platform_limits: Fields::none(),
    }
}

/// What the bot can do.
pub fn bot_capabilities() -> (result: BotCapabilities)
    ensures
        result.content == content_support(),
        delivery_supported(result.delivery),
        components_supported(result.components),
        result.interaction_lifecycle == interaction_lifecycle_support(),
        result.conversations == conversations_support(),
        result.collaboration == collaboration_support(),
        result.application == application_support(),
        limits_reported(result.limits),
{
    BotCapabilities {
        content: report_content(),
        delivery: report_delivery(),
        components: report_components(),
        interaction_lifecycle: report_interaction_lifecycle(),
        conversations: report_conversations(),
        collaboration: report_collaboration(),
        application: report_application(),
        limits: report_limits(),
    }
}

/// A poll with more options than the limit that is reported is refused.
pub proof fn law_poll_limit_is_kept(
    limits: PlatformLimits,
    limit: usize,
    payload: Map<Seq<char>, JsonView>,
    poll: Poll,
)
    requires
        limits_reported(limits),
        limits.max_poll_options == Some(limit),
    ensures
        poll.options@.len() > limit ==> poll::send_poll_outcome(payload, poll) is Err,
{
}

/// Callback data with more bytes than the limit that is reported is refused,
/// and other data that is not empty is accepted as it is.
pub proof fn law_callback_limit_is_kept(
    buttons: ButtonCapabilities,
    limit: usize,
    object: Map<Seq<char>, JsonView>,
    data: String,
    row: int,
    column: int,
)
    requires
        buttons_supported(buttons),
        buttons.max_callback_bytes == Some(limit),
    ensures
        keyboard::inline_action(object, ButtonAction::Callback { data }, row, column)
            == if 1 <= vstd::utf8::encode_utf8(data@).len() <= limit {
            Ok::<Map<Seq<char>, JsonView>, ErrorView>(
                object.insert("callback_data"@, JsonView::Text(data@)),
            )
        } else {
            Err(ErrorView::Message("Telegram callback data must contain 1 to 64 bytes"@))
        },
{
}

/// A list of commands that is longer than the limit that is reported is
/// refused.
pub proof fn law_command_limit_is_kept(limits: PlatformLimits, limit: usize, set: BotCommandSet)
    requires
        limits_reported(limits),
        limits.max_commands == Some(limit),
    ensures
        set.commands@.len() > limit ==> menus::set_commands_outcome(set) is Err,
{
}

/// A caption that is longer than the limit that is reported is refused.
pub proof fn law_caption_limit_is_kept(
    limits: PlatformLimits,
    limit: usize,
    payload: Map<Seq<char>, JsonView>,
    method: Seq<char>,
    media: Media,
)
    requires
        limits_reported(limits),
        limits.max_caption_length == Some(limit),
    ensures
        media.caption matches Some(caption) && text::units_of(caption.text@) > limit
            ==> media::with_caption(payload, method, media) is Err,
{
}

/// An album of more items than the limit that is reported is refused.
pub proof fn law_album_limit_is_kept(
    limits: PlatformLimits,
    limit: usize,
    items: Seq<MediaGalleryItem>,
    markup: Option<JsonView>,
)
    requires
        limits_reported(limits),
        limits.max_media_per_message == Some(limit),
    ensures
        items.len() > limit ==> media::album_rule(items, markup) is Err,
{
}

/// No call that removes messages names more than the limit that is reported.
pub proof fn law_batch_limit_is_kept(limits: PlatformLimits, limit: usize, list: Seq<i64>, i: int)
    requires
        limits_reported(limits),
        limits.max_batch_size == Some(limit),
        0 <= i < messages::parts(list).len(),
    ensures
        1 <= messages::parts(list)[i].len() <= limit,
{
    messages::law_parts_cover_the_list(list);
}

/// The parameters have a text of at most `limit` UTF-16 code units under
/// `key`.
pub open spec fn has_short_text(
    members: Map<Seq<char>, JsonView>,
    key: Seq<char>,
    limit: usize,
) -> bool {
    json::member(members, key) matches Some(JsonView::Text(text)) && text::units_of(text) <= limit
}

/// Where the sending of a message begins, no text of it is longer than the
/// limit that is reported, and every call that sends a text sends one that
/// keeps to the limit. Native content goes out as it is.
pub proof fn law_text_limit_is_kept(
    limits: PlatformLimits,
    limit: usize,
    target: MessageTarget,
    content: Seq<MessageContent>,
    options: MessageOptions,
    context: ContextView,
    i: int,
)
    requires
        limits_reported(limits),
        limits.max_text_length == Some(limit),
        0 <= i < content.len(),
    ensures
        outgoing::start_outcome(target, content, options) is Ok ==> {
            outgoing::message_text(content[i]) matches Some(text) ==> text::units_of(text) <= limit
        },
        outgoing::step_outcome(context, content[i]) matches Ok(StepView::Call(call)) ==> (!(
        content[i] is PlatformNative) && call.method == "sendMessage"@ ==> has_short_text(
            call.payload,
            "text"@,
            limit,
        )),
        outgoing::draft_outcome(context, content) matches Ok((call, _)) ==> has_short_text(
            call.payload,
            "text"@,
            limit,
        ),
{
    reveal_with_fuel(json::stripped, 2);
    reveal_strlit("sendMessage");
    reveal_strlit("sendVenue");
    reveal_strlit("sendLocation");
    reveal_strlit("sendContact");
    reveal_strlit("sendPoll");
    reveal_strlit("sendChecklist");
    reveal_strlit("text");
    reveal_strlit("entities");
    reveal_strlit("chat_id");
    reveal_strlit("message_thread_id");
    reveal_strlit("draft_id");
    assert("sendMessage"@.len() == 11 && "sendContact"@.len() == 11 && "sendMessage"@[4]
        == 'M' && "sendContact"@[4] == 'C');
    assert("sendVenue"@.len() == 9 && "sendLocation"@.len() == 12 && "sendPoll"@.len() == 8
        && "sendChecklist"@.len() == 13);
    assert("text"@.len() == 4 && "chat_id"@.len() == 7 && "message_thread_id"@.len() == 17
        && "draft_id"@.len() == 8 && "entities"@.len() == 8);
    if outgoing::start_outcome(target, content, options) is Ok {
        assert(outgoing::is_short(content[i]));
    }
    let payload = outgoing::next_payload(context);
    match content[i] {
        MessageContent::PlainText(text) => {
            if outgoing::text_payload(payload, text@, None, context.link_preview) is Ok {
                outgoing::lemma_text_written(payload, text@, None, context.link_preview);
            }
        },
        MessageContent::RichText(text) => {
            if let Ok(entities) = rich_text::entities_outcome(text) {
                let preview = context.link_preview;
                if outgoing::text_payload(payload, text.text@, Some(entities), preview) is Ok {
                    outgoing::lemma_text_written(payload, text.text@, Some(entities), preview);
                }
            }
        },
        MessageContent::CustomEmoji(emoji) => {
            if let Some(text) = outgoing::emoji_text(emoji) {
                let entities = Some(seq![outgoing::emoji_entity(emoji.id@, text)]);
                if outgoing::text_payload(payload, text, entities, None) is Ok {
                    outgoing::lemma_text_written(payload, text, entities, None);
                }
            }
        },
        _ => {},
    }
}

/// A message that is given a new text is given one that keeps to the limit
/// that is reported. Native content goes out as it is.
pub proof fn law_edit_limit_is_kept(
    limits: PlatformLimits,
    limit: usize,
    place: Map<Seq<char>, JsonView>,
    address: TelegramEditAddress,
    markup: JsonView,
    content: MessageContent,
    options: MessageOptions,
)
    requires
        limits_reported(limits),
        limits.max_text_length == Some(limit),
    ensures
        edit::edit_content_outcome(place, address, markup, content, options) matches Ok(
            EditStepView::Call(call),
        ) ==> (!(content is PlatformNative) && call.method == edit::edit_text_method(address)
            ==> has_short_text(call.payload, "text"@, limit)),
{
    reveal_with_fuel(json::stripped, 2);
    reveal_strlit("editMessageText");
    reveal_strlit("editEphemeralMessageText");
    reveal_strlit("editMessageChecklist");
    assert("editMessageText"@.len() == 15 && "editEphemeralMessageText"@.len() == 24
        && "editMessageChecklist"@.len() == 20);
    let preview = match options.link_preview {
        Some(preview) => Some(outgoing::link_preview_view(preview)),
        None => None,
    };
    match content {
        MessageContent::PlainText(text) => {
            if outgoing::text_payload(place, text@, None, preview) is Ok {
                edit::lemma_text_edited(place, text@, None, preview, markup, options);
            }
        },
        MessageContent::RichText(text) => {
            if let Ok(entities) = rich_text::entities_outcome(text) {
                if outgoing::text_payload(place, text.text@, Some(entities), preview) is Ok {
                    edit::lemma_text_edited(
                        place,
                        text.text@,
                        Some(entities),
                        preview,
                        markup,
                        options,
                    );
                }
            }
        },
        _ => {},
    }
}

/// The text that an inline result sends keeps to the limit that is reported.
/// Native results go out as they are.
pub proof fn law_inline_limit_is_kept(limits: PlatformLimits, limit: usize, suggestion: Suggestion)
    requires
        limits_reported(limits),
        limits.max_text_length == Some(limit),
        suggestions::suggestion_message(suggestion) is Ok,
    ensures
        suggestions::suggestion_message(suggestion)->Ok_0.0 matches JsonView::Object(input) && (
        input.contains_key("message_text"@) ==> has_short_text(input, "message_text"@, limit)),
{
    reveal_with_fuel(json::stripped, 2);
    reveal_strlit("message_text");
    reveal_strlit("entities");
    reveal_strlit("link_preview_options");
    reveal_strlit("latitude");
    reveal_strlit("longitude");
    reveal_strlit("horizontal_accuracy");
    reveal_strlit("live_period");
    reveal_strlit("heading");
    reveal_strlit("proximity_alert_radius");
    reveal_strlit("phone_number");
    reveal_strlit("first_name");
    reveal_strlit("last_name");
    reveal_strlit("vcard");
    assert("message_text"@.len() == 12 && "message_text"@[0] == 'm');
    assert("phone_number"@.len() == 12 && "phone_number"@[0] == 'p');
    assert("entities"@.len() == 8 && "link_preview_options"@.len() == 20 && "latitude"@.len() == 8
        && "longitude"@.len() == 9 && "horizontal_accuracy"@.len() == 19 && "live_period"@.len()
        == 11 && "heading"@.len() == 7 && "proximity_alert_radius"@.len() == 22
        && "first_name"@.len() == 10 && "last_name"@.len() == 9 && "vcard"@.len() == 5);
}

/// What is reported of buttons is so: a button whose action is reported as
/// missing is refused, one that is accepted is reported as there, and so it is
/// with buttons that are switched off.
pub proof fn law_reported_buttons_work(
    buttons: ButtonCapabilities,
    button: Button,
    row: int,
    column: int,
)
    requires
        buttons_supported(buttons),
    ensures
        keyboard::inline_button_outcome(button, row, column) is Ok ==> {
            &&& button.action is Callback ==> buttons.callback is Native
            &&& button.action is Url ==> buttons.url is Native
            &&& button.action is WebApp ==> buttons.web_app is Native
            &&& button.action is Login ==> buttons.login is Native
            &&& button.action is SwitchInlineQuery ==> buttons.switch_inline_query is Native
            &&& button.action is CopyText ==> buttons.copy_text is Native
            &&& button.action is Game ==> buttons.game is Native
            &&& button.action is Pay ==> buttons.pay is Native
            &&& !(button.action is SendText)
            &&& !button.disabled
            &&& button.style is Primary || button.style is Success || button.style is Danger
                ==> buttons.styles@.contains(button.style)
        },
        button.action is SendText ==> buttons.send_text is Unsupported
            && keyboard::inline_button_outcome(button, row, column) is Err,
        button.disabled ==> buttons.disabled is Unsupported && keyboard::inline_button_outcome(
            button,
            row,
            column,
        ) is Err,
{
    assert(buttons.styles@[1] == ButtonStyle::Primary);
    assert(buttons.styles@[2] == ButtonStyle::Success);
    assert(buttons.styles@[3] == ButtonStyle::Danger);
}

/// What is reported of components is so: keyboards can be sent, and select
/// menus and input fields are refused in them.
pub proof fn law_reported_components_work(
    components: ComponentCapabilities,
    component: InteractionComponent,
    row: int,
    column: int,
)
    requires
        components_supported(components),
    ensures
        component is Select ==> components.selects is Unsupported
            && keyboard::inline_component_outcome(component, row, column) is Err,
        component is Input ==> components.text_input is Unsupported
            && components.number_input is Unsupported && components.toggle is Unsupported
            && keyboard::inline_component_outcome(component, row, column) is Err,
        keyboard::inline_component_outcome(component, row, column) is Ok
            ==> components.inline_keyboard is Native && (component is Button
            || component is PlatformNative),
{
}

/// What is reported of delivery is so: a message is refused where it is to go
/// later or is to keep a key, an id or data that Telegram does not keep, or
/// where it says who may be mentioned, and each of these is reported as
/// missing; drafts, silence, protection and replies are there.
pub proof fn law_reported_delivery_works(
    delivery: DeliveryCapabilities,
    target: MessageTarget,
    content: Seq<MessageContent>,
    options: MessageOptions,
)
    requires
        delivery_supported(delivery),
    ensures
        options.delivery_time is Scheduled ==> delivery.scheduling is Unsupported
            && outgoing::start_outcome(target, content, options) is Err,
        options.idempotency_key is Some ==> delivery.idempotency_keys is Unsupported
            && outgoing::start_outcome(target, content, options) is Err,
        options.client_message_id is Some ==> delivery.client_message_ids is Unsupported
            && outgoing::start_outcome(target, content, options) is Err,
        json::fields(options.metadata) != json::no_fields() ==> delivery.metadata is Unsupported
            && outgoing::start_outcome(target, content, options) is Err,
        options.mentions matches Some(policy) ==> (!outgoing::is_default_policy(policy)
            ==> delivery.mention_control is Unsupported && outgoing::start_outcome(
            target,
            content,
            options,
        ) is Err),
        outgoing::start_outcome(target, content, options) matches Ok(start) ==> (start is Draft
            ==> delivery.drafts is Native) && (options.reply is Some ==> delivery.replies is Native)
            && (options.notification is Silent ==> delivery.silent is Native) && (
        options.protect_content ==> delivery.protected_content is Native) && (
        options.visibility is PrivateTo ==> delivery.private_to_users is Native),
{
}

/// What is reported of content is so: any content that is accepted is reported
/// as there.
pub proof fn law_reported_contents_work(context: ContextView, content: MessageContent)
    requires
        outgoing::step_outcome(context, content) is Ok,
    ensures
        ({
            let support = content_support();
            &&& content is PlainText ==> support.plain_text is Native
            &&& content is RichText ==> support.rich_text is Native
            &&& content is RichLayout ==> support.rich_layout is Native
            &&& content is Image ==> support.images is Native
            &&& content is Video ==> support.video is Native
            &&& content is Audio ==> support.audio is Native
            &&& content is Animation ==> support.animation is Native
            &&& content is VoiceNote ==> support.voice_notes is Native
            &&& content is VideoNote ==> support.video_notes is Native
            &&& content is File ==> support.files is Native
            &&& content is MediaGallery ==> support.media_galleries is Native
            &&& content is Location ==> support.location is Native
            &&& content is Contact ==> support.contacts is Native
            &&& content is Sticker ==> support.stickers is Native
            &&& content is CustomEmoji ==> support.custom_emoji is Native
            &&& content is Checklist ==> support.checklists is Native
            &&& content is PlatformNative ==> support.platform_native is Native
            &&& content matches MessageContent::Poll(poll) ==> support.polls is Native && (
            poll.kind is Quiz ==> support.quizzes is Native)
        }),
{
}

/// What is reported of answers, reactions, surfaces and searches is so: what is
/// missing is refused, and what is accepted is there.
pub proof fn law_reported_answers_work(
    id: Seq<char>,
    response: InteractionResponse,
    message: MessageRef,
    reactions: Seq<Reaction>,
    surface: AppSurface,
    query: MessageQuery,
)
    ensures
        response is ValidationErrors ==> interaction_lifecycle_support().validation_errors is Unsupported
            && interactions::answer_outcome(id, response) is Err,
        response is Navigate ==> interaction_lifecycle_support().view_navigation is Unsupported
            && interactions::answer_outcome(id, response) is Err,
        interactions::answer_outcome(id, response) is Ok ==> (response is Acknowledge
            ==> interaction_lifecycle_support().acknowledge is Native) && (response is Notification
            ==> interaction_lifecycle_support().notifications is Native) && (response is OpenUrl
            ==> interaction_lifecycle_support().open_url is Native),
        reactions.len() > 1 ==> collaboration_support().multiple_reactions is Unsupported
            && reactions::set_reactions_outcome(message, reactions) is Err,
        reactions::set_reactions_outcome(message, reactions) is Ok
            ==> collaboration_support().reactions is Native,
        surface.kind is Home ==> application_support().home_surface is Unsupported
            && menus::publish_outcome(surface) is Err,
        surface.kind is RichMenu ==> application_support().rich_menu is Unsupported
            && menus::publish_outcome(surface) is Err,
        menus::publish_outcome(surface) is Ok ==> application_support().chat_menu is Native,
        query.search is Some ==> conversations_support().search is Unsupported
            && messages::list_messages_outcome(query) is Err,
{
}

/// The limits that are reported are those of Telegram.
pub proof fn law_limits_are_those_of_telegram(limits: PlatformLimits, text: Seq<char>)
    requires
        limits_reported(limits),
    ensures
        limits.max_text_length == Some(4096usize),
        limits.max_caption_length == Some(1024usize),
        limits.max_media_per_message == Some(10usize),
        limits.max_commands == Some(100usize),
        limits.max_poll_options == Some(12usize),
        limits.max_batch_size == Some(100usize),
        text_fits(text) <==> text::units_of(text) <= 4096,
{
}

} // verus!
