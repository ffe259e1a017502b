//! Messages to be sent: the parameters they share, and one step for each
//! piece of content.
use crate::api::address;
use crate::api::address::{
    add_members, chat_id_value, copy_member, telegram_conversation_payload, telegram_message_ref,
};
use crate::api::capabilities;
use crate::api::capabilities::fits_in_message;
use crate::api::checklist;
use crate::api::checklist::send_telegram_checklist;
use crate::api::keyboard;
use crate::api::keyboard::telegram_message_components;
use crate::api::layout;
use crate::api::layout::{
    telegram_input_rich_layout, write_duration, write_optional_real, write_optional_u16, write_optional_u32, write_real,
};
use crate::api::media;
use crate::api::media::{begin_album, make_call_with_uploads, prepare_media, Call, CallView};
use crate::api::poll;
use crate::api::poll::send_telegram_poll;
use crate::api::request;
use crate::api::request::{make_call, Request, RequestView};
use crate::api::rich_text;
use crate::api::rich_text::telegram_rich_text_entities;
use crate::content::{
    ContactCard, CustomEmoji, DeliveryTime, LinkPreviewOptions, LocationContent, Media,
    MediaGalleryItem, MentionAllowance, MentionPolicy, MessageContent, MessageOptions,
    MessageVisibility, NotificationPolicy, ReplyOptions, RichLayout, Sticker,
};
use crate::conversation::{
    ConversationRef, ConversationView, MessageRef, MessageRefView, MessageTarget,
};
use crate::error;
use crate::error::{message, unsupported, Error, ErrorView};
use crate::json;
use crate::json::{strip_nulls, Fields, Json, JsonView};
use crate::native;
use crate::native::{
    add_member, check_vacant, make_native, merge_fields, merge_fields_or, merge_optional_native,
    telegram_native_object, PlatformNativeData,
};
use crate::source;
use crate::source::{make_file_by_id, File, FileView};
use crate::telegram::Upload;
use crate::text;
use crate::text::{i64_text, joined, parse_i64, utf16_len};
use vstd::prelude::*;

verus! {

// ---------------------------------------------------------------------------
// Shared parameters
// ---------------------------------------------------------------------------

/// How links in a text are previewed.
pub open spec fn link_preview_view(options: LinkPreviewOptions) -> JsonView {
    JsonView::Object(
        json::no_fields().insert("is_disabled"@, JsonView::Bool(!options.enabled)).insert(
            "prefer_large_media"@,
            json::optional_bool_view(options.prefer_large_media),
        ).insert("show_above_text"@, json::optional_bool_view(options.above_text)),
    )
}

/// Writes how links in a text are previewed.
pub fn telegram_link_preview(options: &LinkPreviewOptions) -> (value: Json)
    ensures
        value@ == link_preview_view(*options),
{
    let mut object = Fields::none();
    object.put("is_disabled", Json::bool(!options.enabled));
    object.put("prefer_large_media", Json::optional_bool(options.prefer_large_media));
    object.put("show_above_text", Json::optional_bool(options.above_text));
    Json::object(object)
}

/// What a message replies to.
pub open spec fn reply_options_outcome(reply: ReplyOptions) -> Result<JsonView, ErrorView> {
    if reply.notify_original_sender is Some {
        error::refused("Telegram does not expose reply-author notification control"@)
    } else {
        match address::message_ref_outcome(reply.message) {
            Err(e) => Err(e),
            Ok((chat, number)) => match layout::caption_entities_outcome(reply.quote) {
                Err(e) => Err(e),
                Ok(entities) => {
                    let own = json::no_fields().insert(
                        "message_id"@,
                        JsonView::Integer(number as int),
                    ).insert("chat_id"@, address::chat_id_view(chat)).insert(
                        "allow_sending_without_reply"@,
                        JsonView::Bool(reply.allow_without_original),
                    ).insert(
                        "quote"@,
                        match reply.quote {
                            Some(quote) => JsonView::Text(quote.text@),
                            None => JsonView::Null,
                        },
                    ).insert("quote_entities"@, entities).insert(
                        "quote_position"@,
                        layout::optional_u32_view(reply.quote_position),
                    );
                    let all = match reply.platform_data {
                        None => Ok(own),
                        Some(native) => match native::native_object_outcome(
                            native,
                            "reply options"@,
                        ) {
                            Err(e) => Err(e),
                            Ok(extra) => native::merged_or(
                                own,
                                extra,
                                "Telegram reply options duplicate field "@,
                            ),
                        },
                    };
                    match all {
                        Ok(object) => Ok(json::stripped(JsonView::Object(object))),
                        Err(e) => Err(e),
                    }
                },
            },
        }
    }
}

/// Writes what a message replies to.
pub fn telegram_reply_options(reply: &ReplyOptions) -> (result: Result<Json, Error>)
    ensures
        error::shown(result) == reply_options_outcome(*reply),
{
    if reply.notify_original_sender.is_some() {
        return Err(message("Telegram does not expose reply-author notification control"));
    }
    let (chat, number) = telegram_message_ref(&reply.message)?;
    let (quote, entities) = match &reply.quote {
        Some(quote) => {
            let entities = telegram_rich_text_entities(quote)?;
            (Json::text(quote.text.as_str()), Json::array(entities))
        },
        None => (Json::null(), Json::null()),
    };
    let mut own = Fields::none();
    own.put("message_id", Json::integer(number));
    own.put("chat_id", chat_id_value(chat.as_str()));
    own.put("allow_sending_without_reply", Json::bool(reply.allow_without_original));
    own.put("quote", quote);
    own.put("quote_entities", entities);
    own.put("quote_position", write_optional_u32(reply.quote_position));
    if let Some(native) = &reply.platform_data {
        let extra = telegram_native_object(native, "reply options")?;
        own = merge_fields_or(own, &extra, "Telegram reply options duplicate field ")?;
    }
    Ok(strip_nulls(Json::object(own)))
}

/// A policy that leaves mentions to the platform.
pub open spec fn is_default_policy(policy: MentionPolicy) -> bool {
    &&& policy.users is PlatformDefault
    &&& policy.roles is PlatformDefault
    &&& policy.conversations is PlatformDefault
    &&& !policy.everyone
    &&& !policy.reply_author
}

fn is_platform_default(allowance: &MentionAllowance) -> (result: bool)
    ensures
        result == (allowance is PlatformDefault),
{
    match allowance {
        MentionAllowance::PlatformDefault => true,
        _ => false,
    }
}

pub(crate) fn has_default_policy(policy: &MentionPolicy) -> (result: bool)
    ensures
        result == is_default_policy(*policy),
{
    is_platform_default(&policy.users) && is_platform_default(&policy.roles) && is_platform_default(
        &policy.conversations,
    ) && !policy.everyone && !policy.reply_author
}

/// What all the calls for one message share.
#[derive(Debug, PartialEq)]
pub struct TelegramOutgoingContext {
    pub conversation: ConversationRef,
    /// Parameters of every call.
    pub base: Fields,
    /// Parameters of the first call alone.
    pub first_only: Fields,
    pub link_preview: Option<Json>,
    pub delivery_time: DeliveryTime,
}

/// What a context says.
#[verifier::ext_equal]
pub struct ContextView {
    pub conversation: ConversationView,
    pub base: Map<Seq<char>, JsonView>,
    pub first_only: Map<Seq<char>, JsonView>,
    pub link_preview: Option<JsonView>,
    pub delivery_time: DeliveryTime,
}

impl View for TelegramOutgoingContext {
    type V = ContextView;

    open spec fn view(&self) -> ContextView {
        ContextView {
            conversation: self.conversation@,
            base: json::fields(self.base),
            first_only: json::fields(self.first_only),
            link_preview: match self.link_preview {
                Some(value) => Some(value@),
                None => None,
            },
            delivery_time: self.delivery_time,
        }
    }
}

/// The parameters of the next call: those of every call, and those that were
/// kept for the first.
pub open spec fn next_payload(context: ContextView) -> Map<Seq<char>, JsonView> {
    context.base.union_prefer_right(context.first_only)
}

/// The context after a call: nothing is left for the first call.
pub open spec fn after_call(context: ContextView) -> ContextView {
    ContextView { first_only: json::no_fields(), ..context }
}

impl TelegramOutgoingContext {
    /// The parameters of the next call. What was kept for the first call is
    /// handed out once.
    pub fn payload(&mut self) -> (payload: Fields)
        ensures
            json::fields(payload) == next_payload(old(self)@),
            final(self)@ == after_call(old(self)@),
    {
        let payload = self.base.overlaid(&self.first_only);
        self.first_only = Fields::none();
        payload
    }
}

/// After one call nothing that was kept for the first call is handed out
/// again: every later call has the shared parameters alone.
pub proof fn law_first_only_once(context: ContextView)
    ensures
        next_payload(after_call(context)) == context.base,
        after_call(after_call(context)) == after_call(context),
{
    assert(context.base.union_prefer_right(json::no_fields()) =~= context.base);
}

/// Who may see a message: the receiver, where it is not public.
pub open spec fn receivers(target: MessageTarget, visibility: MessageVisibility) -> Seq<String> {
    match visibility {
        MessageVisibility::PrivateTo(users) => users@,
        _ => target.recipients@,
    }
}

/// The parameters of a delivery, with the one receiver where there is one.
pub open spec fn received(
    delivery: Map<Seq<char>, JsonView>,
    target: MessageTarget,
    visibility: MessageVisibility,
) -> Result<Map<Seq<char>, JsonView>, ErrorView> {
    let recipients = receivers(target, visibility);
    if visibility is Public && target.recipients@.len() > 0 {
        error::refused("public Telegram messages cannot specify private recipients"@)
    } else if visibility is PrivateTo && recipients.len() == 0 {
        error::refused("MessageVisibility::PrivateTo requires a Telegram receiver"@)
    } else if recipients.len() > 1 {
        error::refused("Telegram ephemeral messages support one receiver"@)
    } else if recipients.len() == 1 && text::i64_value(recipients[0]@) is None {
        error::refused("invalid Telegram ephemeral receiver user id"@)
    } else if recipients.len() == 1 {
        Ok(
            delivery.insert(
                "receiver_user_id"@,
                JsonView::Integer(text::i64_value(recipients[0]@)->0 as int),
            ),
        )
    } else {
        Ok(delivery)
    }
}

fn add_receiver(delivery: Fields, target: &MessageTarget, visibility: &MessageVisibility) -> (result:
    Result<Fields, Error>)
    ensures
        native::shown_fields(result) == received(json::fields(delivery), *target, *visibility),
{
    let mut delivery = delivery;
    let recipients = match visibility {
        MessageVisibility::Public => {
            if target.recipients.len() > 0 {
                return Err(message("public Telegram messages cannot specify private recipients"));
            }
            &target.recipients
        },
        MessageVisibility::Ephemeral => &target.recipients,
        MessageVisibility::PrivateTo(users) => {
            if users.len() == 0 {
                return Err(message("MessageVisibility::PrivateTo requires a Telegram receiver"));
            }
            users
        },
    };
    if recipients.len() > 1 {
        return Err(message("Telegram ephemeral messages support one receiver"));
    }
    if recipients.len() == 1 {
        match parse_i64(recipients[0].as_str()) {
            Some(id) => {
                delivery.put("receiver_user_id", Json::integer(id));
            },
            None => {
                return Err(message("invalid Telegram ephemeral receiver user id"));
            },
        }
    }
    Ok(delivery)
}

/// The parameters that address a message and say how it is delivered. Nothing
/// that the conversation or the target says in native terms is replaced: what
/// is said twice is refused.
pub open spec fn addressed(target: MessageTarget, options: MessageOptions) -> Result<
    Map<Seq<char>, JsonView>,
    ErrorView,
> {
    match address::conversation_payload(target.conversation) {
        Err(e) => Err(e),
        Ok(place) => match received(
            json::no_fields().insert(
                "disable_notification"@,
                JsonView::Bool(options.notification is Silent),
            ).insert("protect_content"@, JsonView::Bool(options.protect_content)),
            target,
            options.visibility,
        ) {
            Err(e) => Err(e),
            Ok(delivery) => match address::with_members(place, delivery) {
                Err(e) => Err(e),
                Ok(own) => match native::optional_native_merged(
                    own,
                    target.platform_data,
                    "message target"@,
                ) {
                    Err(e) => Err(e),
                    Ok(all) => if options.visibility is Ephemeral && !all.contains_key(
                        "receiver_user_id"@,
                    ) && !all.contains_key("callback_query_id"@) {
                        error::refused(
                            "Telegram ephemeral messages require a receiver or callback_query_id"@,
                        )
                    } else {
                        Ok(all)
                    },
                },
            },
        },
    }
}

fn write_address(target: &MessageTarget, options: &MessageOptions) -> (result: Result<
    Fields,
    Error,
>)
    ensures
        native::shown_fields(result) == addressed(*target, *options),
{
    let place = telegram_conversation_payload(&target.conversation)?;
    let silent = match options.notification {
        NotificationPolicy::Silent => true,
        _ => false,
    };
    let mut delivery = Fields::none();
    delivery.put("disable_notification", Json::bool(silent));
    delivery.put("protect_content", Json::bool(options.protect_content));
    let delivery = add_receiver(delivery, target, &options.visibility)?;
    let own = add_members(place, &delivery)?;
    let all = merge_optional_native(own, &target.platform_data, "message target")?;
    let ephemeral = match &options.visibility {
        MessageVisibility::Ephemeral => true,
        _ => false,
    };
    if ephemeral && !all.contains_key("receiver_user_id") && !all.contains_key(
        "callback_query_id",
    ) {
        return Err(message("Telegram ephemeral messages require a receiver or callback_query_id"));
    }
    Ok(all)
}

/// The parameters of the first call alone: what it replies to, and its markup.
pub open spec fn first_only_outcome(options: MessageOptions) -> Result<
    Map<Seq<char>, JsonView>,
    ErrorView,
> {
    let replied = match options.reply {
        None => Ok(json::no_fields()),
        Some(reply) => match reply_options_outcome(reply) {
            Ok(value) => Ok(json::no_fields().insert("reply_parameters"@, value)),
            Err(e) => Err(e),
        },
    };
    match replied {
        Err(e) => Err(e),
        Ok(replied) => match options.components {
            None => Ok(replied),
            Some(components) => match keyboard::message_components_outcome(components) {
                Ok(value) => Ok(replied.insert("reply_markup"@, value)),
                Err(e) => Err(e),
            },
        },
    }
}

/// What the calls for a message share.
pub open spec fn outgoing_context_outcome(target: MessageTarget, options: MessageOptions) -> Result<
    ContextView,
    ErrorView,
> {
    if options.idempotency_key is Some || options.client_message_id is Some || json::fields(
        options.metadata,
    ) != json::no_fields() {
        error::refused(
            "Telegram Bot API does not expose message idempotency keys or portable metadata"@,
        )
    } else if options.mentions matches Some(mentions) && !is_default_policy(mentions) {
        error::refused("Telegram Bot API does not expose allowed-mention policy controls"@)
    } else {
        match addressed(target, options) {
            Err(e) => Err(e),
            Ok(place) => match native::optional_native_merged(
                place,
                options.platform_data,
                "message options"@,
            ) {
                Err(e) => Err(e),
                Ok(base) => match first_only_outcome(options) {
                    Err(e) => Err(e),
                    Ok(first_only) => match native::merged(base, first_only, "message options"@) {
                        Err(e) => Err(e),
                        Ok(_) => Ok(
                            ContextView {
                                conversation: target.conversation@,
                                base,
                                first_only,
                                link_preview: match options.link_preview {
                                    Some(preview) => Some(link_preview_view(preview)),
                                    None => None,
                                },
                                delivery_time: options.delivery_time,
                            },
                        ),
                    },
                },
            },
        }
    }
}

/// Works out what the calls for a message share.
pub fn telegram_outgoing_context(target: MessageTarget, options: &MessageOptions) -> (result: Result<
    TelegramOutgoingContext,
    Error,
>)
    ensures
        error::shown(result) == outgoing_context_outcome(target, *options),
{
    if options.idempotency_key.is_some() || options.client_message_id.is_some()
        || !options.metadata.is_none() {
        return Err(
            message(
                "Telegram Bot API does not expose message idempotency keys or portable metadata",
            ),
        );
    }
    if let Some(mentions) = &options.mentions {
        if !has_default_policy(mentions) {
            return Err(
                message("Telegram Bot API does not expose allowed-mention policy controls"),
            );
        }
    }
    let place = write_address(&target, options)?;
    let base = merge_optional_native(place, &options.platform_data, "message options")?;
    let mut first_only = Fields::none();
    if let Some(reply) = &options.reply {
        let value = telegram_reply_options(reply)?;
        first_only.put("reply_parameters", value);
    }
    if let Some(components) = &options.components {
        let value = telegram_message_components(components)?;
        first_only.put("reply_markup", value);
    }
    let _ = merge_fields(base.clone(), &first_only, "message options")?;
    let link_preview = match &options.link_preview {
        Some(preview) => Some(telegram_link_preview(preview)),
        None => None,
    };
    Ok(
        TelegramOutgoingContext {
            conversation: target.conversation,
            base,
            first_only,
            link_preview,
            delivery_time: options.delivery_time,
        },
    )
}

// ---------------------------------------------------------------------------
// Steps
// ---------------------------------------------------------------------------

/// What has to be done to send one piece of content.
#[derive(Debug, PartialEq)]
pub enum Step {
    /// Make the call; the answer is the message that was sent.
    Call(Request),
    /// Find the files, then make the call of the method with them.
    Media {
        method: String,
        field: String,
        payload: Fields,
        file: File,
        thumbnail: Option<File>,
    },
    /// Find the files of the items, then send the album.
    Album { items: Vec<MediaGalleryItem>, payload: Fields, markup: Option<Json> },
    /// Find the files of the layout, then send it.
    Layout { layout: RichLayout, payload: Fields },
}

/// What a step says.
#[verifier::ext_equal]
pub enum StepView {
    Call(RequestView),
    Media {
        method: Seq<char>,
        field: Seq<char>,
        payload: Map<Seq<char>, JsonView>,
        file: FileView,
        thumbnail: Option<FileView>,
    },
    Album {
        items: Seq<MediaGalleryItem>,
        payload: Map<Seq<char>, JsonView>,
        markup: Option<JsonView>,
    },
    Layout { layout: RichLayout, payload: Map<Seq<char>, JsonView> },
}

impl View for Step {
    type V = StepView;

    open spec fn view(&self) -> StepView {
        match *self {
            Step::Call(request) => StepView::Call(request@),
            Step::Media { method, field, payload, file, thumbnail } => StepView::Media {
                method: method@,
                field: field@,
                payload: json::fields(payload),
                file: file@,
                thumbnail: source::optional_file(thumbnail),
            },
            Step::Album { items, payload, markup } => StepView::Album {
                items: items@,
                payload: json::fields(payload),
                markup: match markup {
                    Some(value) => Some(value@),
                    None => None,
                },
            },
            Step::Layout { layout, payload } => StepView::Layout {
                layout,
                payload: json::fields(payload),
            },
        }
    }
}

/// `payload` with the members of a piece of content. What the message says in
/// native terms already is not said again: such content is refused.
pub open spec fn with_content(
    payload: Map<Seq<char>, JsonView>,
    own: Map<Seq<char>, JsonView>,
) -> Result<Map<Seq<char>, JsonView>, ErrorView> {
    native::merged(payload, own, "message content"@)
}

/// Adds the members of a piece of content.
pub fn add_content(payload: Fields, own: &Fields) -> (result: Result<Fields, Error>)
    ensures
        native::shown_fields(result) == with_content(json::fields(payload), json::fields(*own)),
{
    merge_fields(payload, own, "message content")
}

/// A text, and how its links are previewed.
pub open spec fn text_members(
    text: Seq<char>,
    entities: Option<Seq<JsonView>>,
    link_preview: Option<JsonView>,
) -> Map<Seq<char>, JsonView> {
    let own = json::no_fields().insert("text"@, JsonView::Text(text));
    let styled = match entities {
        Some(entities) => own.insert("entities"@, JsonView::Array(entities)),
        None => own,
    };
    match link_preview {
        Some(preview) => styled.insert("link_preview_options"@, preview),
        None => styled,
    }
}

/// `payload` with a text and how its links are previewed.
pub open spec fn text_payload(
    payload: Map<Seq<char>, JsonView>,
    text: Seq<char>,
    entities: Option<Seq<JsonView>>,
    link_preview: Option<JsonView>,
) -> Result<Map<Seq<char>, JsonView>, ErrorView> {
    with_content(payload, text_members(text, entities, link_preview))
}

pub(crate) fn write_text_payload(
    payload: Fields,
    text: &str,
    entities: Option<Vec<Json>>,
    link_preview: &Option<Json>,
) -> (result: Result<Fields, Error>)
    ensures
        native::shown_fields(result) == text_payload(
            json::fields(payload),
            text@,
            match entities {
                Some(entities) => Some(json::views(entities@)),
                None => None,
            },
            match *link_preview {
                Some(value) => Some(value@),
                None => None,
            },
        ),
{
    let mut own = Fields::none();
    own.put("text", Json::text(text));
    if let Some(entities) = entities {
        own.put("entities", Json::array(entities));
    }
    if let Some(preview) = link_preview {
        own.put("link_preview_options", preview.clone());
    }
    add_content(payload, &own)
}

/// The call that sends a text, where it fits in one message.
pub open spec fn text_step(
    payload: Map<Seq<char>, JsonView>,
    text: Seq<char>,
    entities: Option<Seq<JsonView>>,
    link_preview: Option<JsonView>,
) -> Result<StepView, ErrorView> {
    if !capabilities::text_fits(text) {
        error::refused("Telegram message text exceeds 4096 UTF-16 code units"@)
    } else {
        match text_payload(payload, text, entities, link_preview) {
            Ok(payload) => Ok(StepView::Call(request::call("sendMessage"@, payload))),
            Err(e) => Err(e),
        }
    }
}

fn make_text_step(
    payload: Fields,
    text: &str,
    entities: Option<Vec<Json>>,
    link_preview: &Option<Json>,
) -> (result: Result<Step, Error>)
    ensures
        error::shown(result) == text_step(
            json::fields(payload),
            text@,
            match entities {
                Some(entities) => Some(json::views(entities@)),
                None => None,
            },
            match *link_preview {
                Some(value) => Some(value@),
                None => None,
            },
        ),
{
    if !fits_in_message(text) {
        return Err(message("Telegram message text exceeds 4096 UTF-16 code units"));
    }
    let payload = write_text_payload(payload, text, entities, link_preview)?;
    Ok(Step::Call(make_call("sendMessage", payload)))
}

/// The step that sends media with the given method.
pub open spec fn media_step(
    method: Seq<char>,
    field: Seq<char>,
    media: Media,
    payload: Map<Seq<char>, JsonView>,
) -> Result<StepView, ErrorView> {
    match media::media_payload(payload, method, field, media) {
        Ok(payload) => Ok(
            StepView::Media {
                method,
                field,
                payload,
                file: media.file@,
                thumbnail: source::optional_file(media.thumbnail),
            },
        ),
        Err(e) => Err(e),
    }
}

fn make_media_step(method: &str, field: &str, media: Media, payload: Fields) -> (result: Result<
    Step,
    Error,
>)
    ensures
        error::shown(result) == media_step(method@, field@, media, json::fields(payload)),
{
    let payload = prepare_media(payload, method, field, &media)?;
    Ok(
        Step::Media {
            method: method.to_owned(),
            field: field.to_owned(),
            payload,
            file: media.file,
            thumbnail: media.thumbnail,
        },
    )
}

/// The step that sends a sticker: its file, or what its id stands for.
pub open spec fn sticker_step(sticker: Sticker, payload: Map<Seq<char>, JsonView>) -> Result<
    StepView,
    ErrorView,
> {
    match native::optional_native_merged(payload, sticker.platform_data, "media options"@) {
        Err(e) => Err(e),
        Ok(payload) => match native::vacant(payload, "sticker"@, "message content"@) {
            Err(e) => Err(e),
            Ok(_) => Ok(
                StepView::Media {
                    method: "sendSticker"@,
                    field: "sticker"@,
                    payload,
                    file: match sticker.file {
                        Some(file) => file@,
                        None => source::file_by_id(sticker.id@),
                    },
                    thumbnail: None,
                },
            ),
        },
    }
}

fn make_sticker_step(sticker: Sticker, payload: Fields) -> (result: Result<Step, Error>)
    ensures
        error::shown(result) == sticker_step(sticker, json::fields(payload)),
{
    let payload = merge_optional_native(payload, &sticker.platform_data, "media options")?;
    check_vacant(&payload, "sticker", "message content")?;
    let file = match sticker.file {
        Some(file) => file,
        None => make_file_by_id(sticker.id),
    };
    Ok(
        Step::Media {
            method: "sendSticker".to_owned(),
            field: "sticker".to_owned(),
            payload,
            file,
            thumbnail: None,
        },
    )
}

/// The text that stands for a custom emoji where it cannot be shown.
pub open spec fn emoji_text(emoji: CustomEmoji) -> Option<Seq<char>> {
    match emoji.fallback {
        Some(text) => Some(text@),
        None => match emoji.name {
            Some(name) => Some(name@),
            None => None,
        },
    }
}

/// The entity that shows a custom emoji in place of a whole text.
pub open spec fn emoji_entity(id: Seq<char>, text: Seq<char>) -> JsonView {
    json::stripped(
        JsonView::Object(
            rich_text::typed(
                json::no_fields().insert("offset"@, JsonView::Integer(0)).insert(
                    "length"@,
                    JsonView::Integer(text::units_of(text) as int),
                ),
                "custom_emoji"@,
            ).insert("custom_emoji_id"@, JsonView::Text(id)),
        ),
    )
}

/// The call that sends a custom emoji.
pub open spec fn emoji_step(emoji: CustomEmoji, payload: Map<Seq<char>, JsonView>) -> Result<
    StepView,
    ErrorView,
> {
    match emoji_text(emoji) {
        None => error::refused("Telegram custom emoji content requires fallback text"@),
        Some(text) => if text.len() == 0 {
            error::refused("Telegram message entities cannot be empty"@)
        } else {
            text_step(payload, text, Some(seq![emoji_entity(emoji.id@, text)]), None)
        },
    }
}

fn make_emoji_step(emoji: &CustomEmoji, payload: Fields) -> (result: Result<Step, Error>)
    ensures
        error::shown(result) == emoji_step(*emoji, json::fields(payload)),
{
    let text: &str = match &emoji.fallback {
        Some(text) => text.as_str(),
        None => match &emoji.name {
            Some(name) => name.as_str(),
            None => {
                return Err(message("Telegram custom emoji content requires fallback text"));
            },
        },
    };
    if text.is_empty() {
        return Err(message("Telegram message entities cannot be empty"));
    }
    let mut object = Fields::none();
    object.put("offset", Json::unsigned(0));
    object.put("length", Json::unsigned(utf16_len(text) as u64));
    object.put("type", Json::text("custom_emoji"));
    object.put("custom_emoji_id", Json::text(emoji.id.as_str()));
    let entity = strip_nulls(Json::object(object));
    let mut entities: Vec<Json> = Vec::new();
    entities.push(entity);
    assert(json::views(entities@) =~= seq![entity@]);
    make_text_step(payload, text, Some(entities), &None)
}

/// The members of a place.
pub open spec fn location_members(location: LocationContent) -> Map<Seq<char>, JsonView> {
    let own = json::no_fields().insert("latitude"@, layout::real_view(location.latitude)).insert(
        "longitude"@,
        layout::real_view(location.longitude),
    ).insert(
        "horizontal_accuracy"@,
        layout::optional_real_view(location.horizontal_accuracy),
    ).insert("live_period"@, layout::duration_view(location.live_period)).insert(
        "heading"@,
        layout::optional_u16_view(location.heading),
    ).insert(
        "proximity_alert_radius"@,
        layout::optional_u32_view(location.proximity_alert_radius),
    );
    match location.title {
        Some(title) => own.insert("title"@, JsonView::Text(title@)).insert(
            "address"@,
            JsonView::Text(location.address->0@),
        ),
        None => own,
    }
}

/// The call that sends a place: a venue where it has a title, a location
/// otherwise.
pub open spec fn location_step(
    location: LocationContent,
    payload: Map<Seq<char>, JsonView>,
) -> Result<StepView, ErrorView> {
    if location.title is None && location.address is Some {
        error::refused("Telegram locations cannot contain an address without venue title"@)
    } else if location.title is Some && !(location.address matches Some(address) && address@.len()
        > 0) {
        error::refused("Telegram venues require a non-empty address"@)
    } else {
        match with_content(payload, location_members(location)) {
            Err(e) => Err(e),
            Ok(payload) => match native::optional_native_merged(
                payload,
                location.platform_data,
                "location"@,
            ) {
                Err(e) => Err(e),
                Ok(payload) => Ok(
                    StepView::Call(
                        request::call(
                            if location.title is Some {
                                "sendVenue"@
                            } else {
                                "sendLocation"@
                            },
                            payload,
                        ),
                    ),
                ),
            },
        }
    }
}

fn make_location_step(location: &LocationContent, payload: Fields) -> (result: Result<Step, Error>)
    ensures
        error::shown(result) == location_step(*location, json::fields(payload)),
{
    let empty = String::new();
    assert(empty@ =~= Seq::<char>::empty());
    let address: &str = match &location.address {
        Some(address) => address.as_str(),
        None => empty.as_str(),
    };
    if location.title.is_none() && location.address.is_some() {
        return Err(message("Telegram locations cannot contain an address without venue title"));
    }
    if location.title.is_some() && address.is_empty() {
        return Err(message("Telegram venues require a non-empty address"));
    }
    let mut own = Fields::none();
    own.put("latitude", write_real(&location.latitude));
    own.put("longitude", write_real(&location.longitude));
    own.put("horizontal_accuracy", write_optional_real(&location.horizontal_accuracy));
    own.put("live_period", write_duration(&location.live_period));
    own.put("heading", write_optional_u16(location.heading));
    own.put("proximity_alert_radius", write_optional_u32(location.proximity_alert_radius));
    let method: &str = match &location.title {
        Some(title) => {
            own.put("title", Json::text(title.as_str()));
            own.put("address", Json::text(address));
            "sendVenue"
        },
        None => "sendLocation",
    };
    let payload = add_content(payload, &own)?;
    let payload = merge_optional_native(payload, &location.platform_data, "location")?;
    Ok(Step::Call(make_call(method, payload)))
}

/// The members of a contact with one phone number.
pub open spec fn contact_members(contact: ContactCard) -> Map<Seq<char>, JsonView> {
    json::no_fields().insert(
        "phone_number"@,
        JsonView::Text(contact.phone_numbers@[0].value@),
    ).insert("first_name"@, JsonView::Text(contact.first_name@)).insert(
        "last_name"@,
        json::optional_text_view(contact.last_name),
    ).insert("vcard"@, json::optional_text_view(contact.vcard))
}

/// The call that sends a contact.
pub open spec fn contact_step(contact: ContactCard, payload: Map<Seq<char>, JsonView>) -> Result<
    StepView,
    ErrorView,
> {
    if !(contact.phone_numbers@.len() == 1 && contact.phone_numbers@[0].label is None
        && contact.user_id is None && contact.emails@.len() == 0 && contact.organization is None) {
        error::refused(
            "Telegram contacts support one unlabeled phone number; put additional contact data in vCard"@,
        )
    } else {
        match with_content(payload, contact_members(contact)) {
            Err(e) => Err(e),
            Ok(payload) => match native::optional_native_merged(
                payload,
                contact.platform_data,
                "contact"@,
            ) {
                Err(e) => Err(e),
                Ok(payload) => Ok(StepView::Call(request::call("sendContact"@, payload))),
            },
        }
    }
}

fn make_contact_step(contact: &ContactCard, payload: Fields) -> (result: Result<Step, Error>)
    ensures
        error::shown(result) == contact_step(*contact, json::fields(payload)),
{
    if !(contact.phone_numbers.len() == 1 && contact.phone_numbers[0].label.is_none()
        && contact.user_id.is_none() && contact.emails.len() == 0
        && contact.organization.is_none()) {
        return Err(
            message(
                "Telegram contacts support one unlabeled phone number; put additional contact data in vCard",
            ),
        );
    }
    let mut own = Fields::none();
    own.put("phone_number", Json::text(contact.phone_numbers[0].value.as_str()));
    own.put("first_name", Json::text(contact.first_name.as_str()));
    own.put("last_name", Json::optional_text(&contact.last_name));
    own.put("vcard", Json::optional_text(&contact.vcard));
    let payload = add_content(payload, &own)?;
    let payload = merge_optional_native(payload, &contact.platform_data, "contact")?;
    Ok(Step::Call(make_call("sendContact", payload)))
}

/// The call that native content names, with its other members as parameters.
pub open spec fn native_step(native: PlatformNativeData, payload: Map<Seq<char>, JsonView>) -> Result<
    StepView,
    ErrorView,
> {
    match native::native_object_outcome(native, "message content"@) {
        Err(e) => Err(e),
        Ok(members) => match json::text_in(members, "method"@) {
            None => error::refused("Telegram native message content requires a method"@),
            Some(method) => match native::merged(
                payload,
                members.remove("method"@),
                "Telegram native message content"@,
            ) {
                Err(e) => Err(e),
                Ok(payload) => Ok(StepView::Call(request::call(method, payload))),
            },
        },
    }
}

fn make_native_step(native: &PlatformNativeData, payload: Fields) -> (result: Result<Step, Error>)
    ensures
        error::shown(result) == native_step(*native, json::fields(payload)),
{
    let mut members = telegram_native_object(native, "message content")?;
    let named = members.take("method");
    let method = match &named {
        Some(value) => value.as_str(),
        None => None,
    };
    match method {
        None => Err(message("Telegram native message content requires a method")),
        Some(method) => {
            let payload = merge_fields(payload, &members, "Telegram native message content")?;
            Ok(Step::Call(make_call(method, payload)))
        },
    }
}

/// The step that sends an album.
pub open spec fn album_step(
    items: Seq<MediaGalleryItem>,
    payload: Map<Seq<char>, JsonView>,
) -> Result<StepView, ErrorView> {
    let markup = json::member(payload, "reply_markup"@);
    let rest = payload.remove("reply_markup"@);
    match media::album_rule(items, markup) {
        Err(e) => Err(e),
        Ok(_) => match native::vacant(rest, "media"@, "message content"@) {
            Err(e) => Err(e),
            Ok(_) => Ok(StepView::Album { items, payload: rest, markup }),
        },
    }
}

/// The step that sends a rich layout, which everyone sees.
pub open spec fn layout_step(layout: RichLayout, payload: Map<Seq<char>, JsonView>) -> Result<
    StepView,
    ErrorView,
> {
    if payload.contains_key("receiver_user_id"@) || payload.contains_key("callback_query_id"@) {
        error::refused("Telegram rich messages cannot be ephemeral"@)
    } else {
        Ok(StepView::Layout { layout, payload })
    }
}

/// What has to be done to send one piece of content.
pub open spec fn step_outcome(context: ContextView, content: MessageContent) -> Result<
    StepView,
    ErrorView,
> {
    let payload = next_payload(context);
    match content {
        MessageContent::PlainText(text) => text_step(payload, text@, None, context.link_preview),
        MessageContent::RichText(text) => match rich_text::entities_outcome(text) {
            Err(e) => Err(e),
            Ok(entities) => text_step(payload, text.text@, Some(entities), context.link_preview),
        },
        MessageContent::Image(media) => media_step("sendPhoto"@, "photo"@, media, payload),
        MessageContent::Video(media) => media_step("sendVideo"@, "video"@, media, payload),
        MessageContent::Audio(media) => media_step("sendAudio"@, "audio"@, media, payload),
        MessageContent::Animation(media) => media_step(
            "sendAnimation"@,
            "animation"@,
            media,
            payload,
        ),
        MessageContent::VoiceNote(media) => media_step("sendVoice"@, "voice"@, media, payload),
        MessageContent::VideoNote(media) => if media.caption is Some {
            error::refused("Telegram video notes do not support captions"@)
        } else {
            media_step("sendVideoNote"@, "video_note"@, media, payload)
        },
        MessageContent::File(media) => media_step("sendDocument"@, "document"@, media, payload),
        MessageContent::Sticker(sticker) => sticker_step(sticker, payload),
        MessageContent::CustomEmoji(emoji) => emoji_step(emoji, payload),
        MessageContent::Location(location) => location_step(location, payload),
        MessageContent::Contact(contact) => contact_step(contact, payload),
        MessageContent::Poll(poll) => match poll::send_poll_outcome(payload, poll) {
            Ok(call) => Ok(StepView::Call(call)),
            Err(e) => Err(e),
        },
        MessageContent::Checklist(checklist) => match checklist::send_checklist_outcome(
            payload,
            checklist,
        ) {
            Ok(call) => Ok(StepView::Call(call)),
            Err(e) => Err(e),
        },
        MessageContent::RichLayout(layout) => layout_step(layout, payload),
        MessageContent::MediaGallery(items) => album_step(items@, payload),
        MessageContent::PlatformNative(native) => native_step(native, payload),
    }
}

/// Works out what has to be done to send one piece of content.
pub fn telegram_send_outgoing(context: &mut TelegramOutgoingContext, content: MessageContent) -> (result:
    Result<Step, Error>)
    ensures
        error::shown(result) == step_outcome(old(context)@, content),
        final(context)@ == after_call(old(context)@),
{
    let payload = context.payload();
    match content {
        MessageContent::PlainText(text) => make_text_step(
            payload,
            text.as_str(),
            None,
            &context.link_preview,
        ),
        MessageContent::RichText(text) => {
            let entities = telegram_rich_text_entities(&text)?;
            make_text_step(payload, text.text.as_str(), Some(entities), &context.link_preview)
        },
        MessageContent::Image(media) => make_media_step("sendPhoto", "photo", media, payload),
        MessageContent::Video(media) => make_media_step("sendVideo", "video", media, payload),
        MessageContent::Audio(media) => make_media_step("sendAudio", "audio", media, payload),
        MessageContent::Animation(media) => make_media_step(
            "sendAnimation",
            "animation",
            media,
            payload,
        ),
        MessageContent::VoiceNote(media) => make_media_step("sendVoice", "voice", media, payload),
        MessageContent::VideoNote(media) => {
            if media.caption.is_some() {
                return Err(message("Telegram video notes do not support captions"));
            }
            make_media_step("sendVideoNote", "video_note", media, payload)
        },
        MessageContent::File(media) => make_media_step("sendDocument", "document", media, payload),
        MessageContent::Sticker(sticker) => make_sticker_step(sticker, payload),
        MessageContent::CustomEmoji(emoji) => make_emoji_step(&emoji, payload),
        MessageContent::Location(location) => make_location_step(&location, payload),
        MessageContent::Contact(contact) => make_contact_step(&contact, payload),
        MessageContent::Poll(poll) => {
            let call = send_telegram_poll(&poll, payload)?;
            Ok(Step::Call(call))
        },
        MessageContent::Checklist(checklist) => {
            let call = send_telegram_checklist(&checklist, payload)?;
            Ok(Step::Call(call))
        },
        MessageContent::RichLayout(layout) => {
            if payload.contains_key("receiver_user_id") || payload.contains_key(
                "callback_query_id",
            ) {
                return Err(message("Telegram rich messages cannot be ephemeral"));
            }
            Ok(Step::Layout { layout, payload })
        },
        MessageContent::MediaGallery(items) => {
            let (payload, markup) = begin_album(&items, payload)?;
            check_vacant(&payload, "media", "message content")?;
            Ok(Step::Album { items, payload, markup })
        },
        MessageContent::PlatformNative(native) => make_native_step(&native, payload),
    }
}

// ---------------------------------------------------------------------------
// Drafts
// ---------------------------------------------------------------------------

/// The text of a draft and its entities.
pub open spec fn draft_text(content: MessageContent) -> Result<
    (Seq<char>, Seq<JsonView>),
    ErrorView,
> {
    match content {
        MessageContent::PlainText(text) => Ok((text@, Seq::empty())),
        MessageContent::RichText(text) => match rich_text::entities_outcome(text) {
            Ok(entities) => Ok((text.text@, entities)),
            Err(e) => Err(e),
        },
        _ => error::unsupported_view("non-text Telegram drafts"@),
    }
}

/// The call that shows a draft of the given text in the conversation that the
/// parameters address.
pub open spec fn draft_call(
    base: Map<Seq<char>, JsonView>,
    text: Map<Seq<char>, JsonView>,
    id: i64,
) -> RequestView {
    let place = address::with_copied(
        address::with_copied(text, base, "chat_id"@),
        base,
        "message_thread_id"@,
    );
    request::call("sendMessageDraft"@, place.insert("draft_id"@, JsonView::Integer(id as int)))
}

/// The call that shows a draft, and the number of the draft.
pub open spec fn draft_outcome(context: ContextView, content: Seq<MessageContent>) -> Result<
    (RequestView, i64),
    ErrorView,
> {
    if content.len() != 1 || context.first_only != json::no_fields() {
        error::refused("Telegram drafts support one text item without reply markup"@)
    } else {
        match draft_text(content[0]) {
            Err(e) => Err(e),
            Ok((text, entities)) => if !capabilities::text_fits(text) {
                error::refused("Telegram message text exceeds 4096 UTF-16 code units"@)
            } else {
                let own = text_members(text, Some(entities), None);
                match with_content(context.base, own) {
                    Err(e) => Err(e),
                    Ok(_) => match json::i64_in(context.base, "draft_id"@) {
                        None => error::refused(
                            "Telegram drafts require a non-zero draft_id in platform data"@,
                        ),
                        Some(id) => if id == 0 {
                            error::refused("Telegram draft_id cannot be zero"@)
                        } else {
                            Ok((draft_call(context.base, own, id), id))
                        },
                    },
                }
            },
        }
    }
}

/// Makes the call that shows a draft.
pub fn send_telegram_draft(context: &TelegramOutgoingContext, content: &Vec<MessageContent>) -> (result:
    Result<(Request, i64), Error>)
    ensures
        match result {
            Ok((call, id)) => draft_outcome(context@, content@) == Ok::<
                (RequestView, i64),
                ErrorView,
            >((call@, id)),
            Err(e) => draft_outcome(context@, content@) == Err::<(RequestView, i64), ErrorView>(e@),
        },
{
    if content.len() != 1 || !context.first_only.is_none() {
        return Err(message("Telegram drafts support one text item without reply markup"));
    }
    let (text, entities): (&str, Vec<Json>) = match &content[0] {
        MessageContent::PlainText(text) => {
            let none: Vec<Json> = Vec::new();
            assert(json::views(none@) =~= Seq::<JsonView>::empty());
            (text.as_str(), none)
        },
        MessageContent::RichText(text) => {
            let entities = telegram_rich_text_entities(text)?;
            (text.text.as_str(), entities)
        },
        _ => {
            return Err(unsupported("non-text Telegram drafts"));
        },
    };
    if !fits_in_message(text) {
        return Err(message("Telegram message text exceeds 4096 UTF-16 code units"));
    }
    let mut own = Fields::none();
    own.put("text", Json::text(text));
    own.put("entities", Json::array(entities));
    let _ = add_content(context.base.clone(), &own)?;
    let id = match context.base.i64_at("draft_id") {
        Some(id) => id,
        None => {
            return Err(message("Telegram drafts require a non-zero draft_id in platform data"));
        },
    };
    if id == 0 {
        return Err(message("Telegram draft_id cannot be zero"));
    }
    let place = copy_member(own, &context.base, "chat_id");
    let mut payload = copy_member(place, &context.base, "message_thread_id");
    payload.put("draft_id", Json::integer(id));
    Ok((make_call("sendMessageDraft", payload), id))
}

/// A reference to a draft.
pub open spec fn draft_ref_view(id: int, conversation: ConversationView) -> MessageRefView {
    MessageRefView {
        id: "draft:"@ + text::decimal(id),
        conversation: Some(conversation),
        native: Some(
            native::telegram_native(
                JsonView::Object(json::no_fields().insert("draft_id"@, JsonView::Integer(id))),
            ),
        ),
    }
}

/// Makes a reference to a draft.
pub fn draft_ref(id: i64, conversation: ConversationRef) -> (result: MessageRef)
    ensures
        result@ == draft_ref_view(id as int, conversation@),
{
    let number = i64_text(id);
    let mut members = Fields::none();
    members.put("draft_id", Json::integer(id));
    MessageRef {
        id: joined("draft:", number.as_str()),
        conversation: Some(conversation),
        platform_data: Some(make_native(Json::object(members))),
    }
}

// ---------------------------------------------------------------------------
// Start
// ---------------------------------------------------------------------------

/// How the sending of a message begins.
#[derive(Debug, PartialEq)]
pub enum Start {
    /// Take the steps for its content, one after the other.
    Send(TelegramOutgoingContext),
    /// Make the call that shows the draft with the given number.
    Draft { call: Request, id: i64, conversation: ConversationRef },
}

/// What the start of a message says.
#[verifier::ext_equal]
pub enum StartView {
    Send(ContextView),
    Draft { call: RequestView, id: i64, conversation: ConversationView },
}

impl View for Start {
    type V = StartView;

    open spec fn view(&self) -> StartView {
        match *self {
            Start::Send(context) => StartView::Send(context@),
            Start::Draft { call, id, conversation } => StartView::Draft {
                call: call@,
                id,
                conversation: conversation@,
            },
        }
    }
}

/// The text that a piece of content sends as a message, where it does.
pub open spec fn message_text(content: MessageContent) -> Option<Seq<char>> {
    match content {
        MessageContent::PlainText(text) => Some(text@),
        MessageContent::RichText(text) => Some(text.text@),
        MessageContent::CustomEmoji(emoji) => emoji_text(emoji),
        _ => None,
    }
}

/// A piece of content whose text, where it has one, fits in one message.
pub open spec fn is_short(content: MessageContent) -> bool {
    message_text(content) matches Some(text) ==> capabilities::text_fits(text)
}

/// Every text of a message fits in one message of Telegram.
pub open spec fn all_short(content: Seq<MessageContent>) -> bool {
    forall|i: int| 0 <= i < content.len() ==> is_short(#[trigger] content[i])
}

fn check_short(content: &MessageContent) -> (result: bool)
    ensures
        result == is_short(*content),
{
    match content {
        MessageContent::PlainText(text) => fits_in_message(text.as_str()),
        MessageContent::RichText(text) => fits_in_message(text.text.as_str()),
        MessageContent::CustomEmoji(emoji) => match &emoji.fallback {
            Some(text) => fits_in_message(text.as_str()),
            None => match &emoji.name {
                Some(name) => fits_in_message(name.as_str()),
                None => true,
            },
        },
        _ => true,
    }
}

fn check_all_short(content: &Vec<MessageContent>) -> (result: bool)
    ensures
        result == all_short(content@),
{
    let mut i: usize = 0;
    while i < content.len()
        invariant
            i <= content@.len(),
            forall|j: int| 0 <= j < i ==> is_short(#[trigger] content@[j]),
        decreases content@.len() - i,
    {
        if !check_short(&content[i]) {
            assert(!is_short(content@[i as int]));
            return false;
        }
        i += 1;
    }
    true
}

/// How the sending of a message begins. A text that no message can hold is
/// refused before anything is sent.
pub open spec fn start_outcome(
    target: MessageTarget,
    content: Seq<MessageContent>,
    options: MessageOptions,
) -> Result<StartView, ErrorView> {
    if content.len() == 0 {
        error::refused("Telegram message content cannot be empty"@)
    } else if !all_short(content) {
        error::refused("Telegram message text exceeds 4096 UTF-16 code units"@)
    } else {
        match outgoing_context_outcome(target, options) {
            Err(e) => Err(e),
            Ok(context) => match options.delivery_time {
                DeliveryTime::Draft => match draft_outcome(context, content) {
                    Ok((call, id)) => Ok(
                        StartView::Draft { call, id, conversation: context.conversation },
                    ),
                    Err(e) => Err(e),
                },
                DeliveryTime::Scheduled(_) => error::refused(
                    "Telegram Bot API does not support scheduled messages"@,
                ),
                DeliveryTime::Immediate => Ok(StartView::Send(context)),
            },
        }
    }
}

/// Begins the sending of a message.
pub fn begin_outgoing(
    target: MessageTarget,
    content: &Vec<MessageContent>,
    options: &MessageOptions,
) -> (result: Result<Start, Error>)
    ensures
        error::shown(result) == start_outcome(target, content@, *options),
{
    if content.len() == 0 {
        return Err(message("Telegram message content cannot be empty"));
    }
    if !check_all_short(content) {
        return Err(message("Telegram message text exceeds 4096 UTF-16 code units"));
    }
    let context = telegram_outgoing_context(target, options)?;
    match context.delivery_time {
        DeliveryTime::Draft => {
            let (call, id) = send_telegram_draft(&context, content)?;
            Ok(Start::Draft { call, id, conversation: context.conversation })
        },
        DeliveryTime::Scheduled(_) => Err(
            message("Telegram Bot API does not support scheduled messages"),
        ),
        DeliveryTime::Immediate => Ok(Start::Send(context)),
    }
}

// ---------------------------------------------------------------------------
// Rich layouts
// ---------------------------------------------------------------------------

/// The call that sends a rich layout whose files are uploaded under the given
/// names. Its buttons become the markup, unless the message has one already.
pub open spec fn layout_call_outcome(
    layout: RichLayout,
    payload: Map<Seq<char>, JsonView>,
    uploads: Seq<(Seq<char>, Upload)>,
) -> Result<CallView, ErrorView> {
    match layout::rich_layout_outcome(layout) {
        Err(e) => Err(e),
        Ok((rich, markup)) => if markup is Some && payload.contains_key("reply_markup"@) {
            error::refused("Telegram rich layout actions conflict with MessageOptions components"@)
        } else {
            let marked = match markup {
                Some(markup) => payload.insert("reply_markup"@, markup),
                None => payload,
            };
            match native::added(
                marked,
                "rich_message"@,
                JsonView::Object(rich),
                "message content"@,
            ) {
                Err(e) => Err(e),
                Ok(all) => Ok(media::call_with_uploads("sendRichMessage"@, all, uploads)),
            }
        },
    }
}

/// Makes the call that sends a rich layout.
pub fn send_telegram_rich_layout(
    layout: RichLayout,
    payload: Fields,
    uploads: Vec<(String, Upload)>,
) -> (result: Result<Call, Error>)
    ensures
        error::shown(result) == layout_call_outcome(
            layout,
            json::fields(payload),
            media::named(uploads@),
        ),
{
    let (rich, markup) = telegram_input_rich_layout(layout)?;
    let mut payload = payload;
    if let Some(markup) = markup {
        if payload.contains_key("reply_markup") {
            return Err(
                message("Telegram rich layout actions conflict with MessageOptions components"),
            );
        }
        payload.put("reply_markup", markup);
    }
    let payload = add_member(payload, "rich_message", rich, "message content")?;
    Ok(make_call_with_uploads("sendRichMessage", payload, uploads))
}

// ---------------------------------------------------------------------------
// Laws
// ---------------------------------------------------------------------------

proof fn lemma_native_keeps(
    destination: Map<Seq<char>, JsonView>,
    native: Option<PlatformNativeData>,
    context: Seq<char>,
    key: Seq<char>,
)
    requires
        native::optional_native_merged(destination, native, context) is Ok,
    ensures
        ({
            let all = native::optional_native_merged(destination, native, context)->Ok_0;
            &&& destination.contains_key(key) ==> all.contains_key(key) && all[key]
                == destination[key]
            &&& native_member(native, key) matches Some(value) ==> all.contains_key(key)
                && all[key] == value
        }),
{
    if let Some(native) = native {
        let extra = native::native_object_outcome(native, context)->Ok_0;
        native::lemma_merged_keeps(destination, extra, context + " duplicates field "@, key);
    }
}

/// The member of native data, where there is one.
pub open spec fn native_member(native: Option<PlatformNativeData>, key: Seq<char>) -> Option<
    JsonView,
> {
    match native {
        Some(native) => match native.data@ {
            JsonView::Object(members) => json::member(members, key),
            _ => None,
        },
        None => None,
    }
}

/// Nothing that a message says is replaced by something else that it says:
/// every native member of the target and of the options stands in the
/// parameters as it was given, and so do the portable options. What is kept
/// for the first call has names of its own.
pub proof fn law_native_data_replaces_nothing(
    target: MessageTarget,
    options: MessageOptions,
    key: Seq<char>,
)
    requires
        outgoing_context_outcome(target, options) is Ok,
    ensures
        ({
            let context = outgoing_context_outcome(target, options)->Ok_0;
            &&& native_member(target.platform_data, key) matches Some(value) ==> json::member(
                context.base,
                key,
            ) == Some(value)
            &&& native_member(options.platform_data, key) matches Some(value) ==> json::member(
                context.base,
                key,
            ) == Some(value)
            &&& json::member(context.base, "protect_content"@) == Some(
                JsonView::Bool(options.protect_content),
            )
            &&& json::member(context.base, "disable_notification"@) == Some(
                JsonView::Bool(options.notification is Silent),
            )
            &&& !native::shares(context.base, context.first_only, key)
        }),
{
    let context = outgoing_context_outcome(target, options)->Ok_0;
    let place = addressed(target, options)->Ok_0;
    let home = address::conversation_payload(target.conversation)->Ok_0;
    let delivery = received(
        json::no_fields().insert(
            "disable_notification"@,
            JsonView::Bool(options.notification is Silent),
        ).insert("protect_content"@, JsonView::Bool(options.protect_content)),
        target,
        options.visibility,
    )->Ok_0;
    let own = address::with_members(home, delivery)->Ok_0;
    reveal_strlit("disable_notification");
    reveal_strlit("protect_content");
    reveal_strlit("receiver_user_id");
    assert("disable_notification"@.len() == 20 && "protect_content"@.len() == 15
        && "receiver_user_id"@.len() == 16);
    assert forall|k: Seq<char>| delivery.contains_key(k) implies #[trigger] json::member(
        context.base,
        k,
    ) == Some(delivery[k]) by {
        native::lemma_merged_keeps(
            home,
            delivery,
            "Telegram conversation data"@ + " duplicates field "@,
            k,
        );
        lemma_native_keeps(own, target.platform_data, "message target"@, k);
        lemma_native_keeps(place, options.platform_data, "message options"@, k);
    }
    assert(delivery.contains_key("disable_notification"@));
    assert(delivery.contains_key("protect_content"@));
    lemma_native_keeps(own, target.platform_data, "message target"@, key);
    lemma_native_keeps(place, options.platform_data, "message options"@, key);
}

/// The step says a parameter that is not null.
pub open spec fn says(step: StepView, key: Seq<char>, value: JsonView) -> bool {
    match step {
        StepView::Call(call) => json::member(call.payload, key) == Some(json::stripped(value)),
        StepView::Media { payload, .. } => json::member(payload, key) == Some(value),
        StepView::Album { payload, markup, .. } => if key == "reply_markup"@ {
            markup == Some(value)
        } else {
            json::member(payload, key) == Some(value)
        },
        StepView::Layout { payload, .. } => json::member(payload, key) == Some(value),
    }
}

proof fn lemma_content_keeps(
    payload: Map<Seq<char>, JsonView>,
    own: Map<Seq<char>, JsonView>,
    key: Seq<char>,
)
    requires
        with_content(payload, own) is Ok,
    ensures
        payload.contains_key(key) ==> {
            &&& with_content(payload, own)->Ok_0.contains_key(key)
            &&& with_content(payload, own)->Ok_0[key] == payload[key]
        },
        own.contains_key(key) ==> {
            &&& with_content(payload, own)->Ok_0.contains_key(key)
            &&& with_content(payload, own)->Ok_0[key] == own[key]
        },
{
    native::lemma_merged_keeps(payload, own, "message content"@ + " duplicates field "@, key);
}

proof fn lemma_call_says(method: Seq<char>, payload: Map<Seq<char>, JsonView>, key: Seq<char>)
    requires
        payload.contains_key(key),
        !(payload[key] is Null),
    ensures
        json::member(request::call(method, payload).payload, key) == Some(
            json::stripped(payload[key]),
        ),
{
    reveal_with_fuel(json::stripped, 2);
}

/// No piece of content replaces what the message says beside it: every
/// parameter that the next call has before the content is known is one of the
/// step for that content, as it was.
pub proof fn law_content_replaces_nothing(
    context: ContextView,
    content: MessageContent,
    key: Seq<char>,
)
    requires
        step_outcome(context, content) is Ok,
        next_payload(context).contains_key(key),
        !(next_payload(context)[key] is Null),
    ensures
        says(step_outcome(context, content)->Ok_0, key, next_payload(context)[key]),
{
    let payload = next_payload(context);
    let step = step_outcome(context, content)->Ok_0;
    match content {
        MessageContent::PlainText(text) => {
            let own = text_members(text@, None, context.link_preview);
            lemma_content_keeps(payload, own, key);
            lemma_call_says("sendMessage"@, with_content(payload, own)->Ok_0, key);
        },
        MessageContent::RichText(text) => {
            let entities = rich_text::entities_outcome(text)->Ok_0;
            let own = text_members(text.text@, Some(entities), context.link_preview);
            lemma_content_keeps(payload, own, key);
            lemma_call_says("sendMessage"@, with_content(payload, own)->Ok_0, key);
        },
        MessageContent::CustomEmoji(emoji) => {
            let text = emoji_text(emoji)->0;
            let own = text_members(text, Some(seq![emoji_entity(emoji.id@, text)]), None);
            lemma_content_keeps(payload, own, key);
            lemma_call_says("sendMessage"@, with_content(payload, own)->Ok_0, key);
        },
        MessageContent::Image(media) => lemma_media_keeps("sendPhoto"@, "photo"@, media, payload, key),
        MessageContent::Video(media) => lemma_media_keeps("sendVideo"@, "video"@, media, payload, key),
        MessageContent::Audio(media) => lemma_media_keeps("sendAudio"@, "audio"@, media, payload, key),
        MessageContent::Animation(media) => lemma_media_keeps(
            "sendAnimation"@,
            "animation"@,
            media,
            payload,
            key,
        ),
        MessageContent::VoiceNote(media) => lemma_media_keeps(
            "sendVoice"@,
            "voice"@,
            media,
            payload,
            key,
        ),
        MessageContent::VideoNote(media) => lemma_media_keeps(
            "sendVideoNote"@,
            "video_note"@,
            media,
            payload,
            key,
        ),
        MessageContent::File(media) => lemma_media_keeps(
            "sendDocument"@,
            "document"@,
            media,
            payload,
            key,
        ),
        MessageContent::Sticker(sticker) => {
            lemma_native_keeps(payload, sticker.platform_data, "media options"@, key);
        },
        MessageContent::Location(location) => {
            let own = location_members(location);
            let described = with_content(payload, own)->Ok_0;
            lemma_content_keeps(payload, own, key);
            lemma_native_keeps(described, location.platform_data, "location"@, key);
            let all = native::optional_native_merged(
                described,
                location.platform_data,
                "location"@,
            )->Ok_0;
            lemma_call_says("sendVenue"@, all, key);
            lemma_call_says("sendLocation"@, all, key);
        },
        MessageContent::Contact(contact) => {
            let own = contact_members(contact);
            let described = with_content(payload, own)->Ok_0;
            lemma_content_keeps(payload, own, key);
            lemma_native_keeps(described, contact.platform_data, "contact"@, key);
            let all = native::optional_native_merged(
                described,
                contact.platform_data,
                "contact"@,
            )->Ok_0;
            lemma_call_says("sendContact"@, all, key);
        },
        MessageContent::Poll(poll) => {
            let own = poll::poll_members(poll)->Ok_0;
            lemma_content_keeps(payload, own, key);
            lemma_call_says("sendPoll"@, with_content(payload, own)->Ok_0, key);
        },
        MessageContent::Checklist(checklist) => {
            let value = checklist::input_checklist_outcome(checklist)->Ok_0;
            lemma_call_says("sendChecklist"@, payload.insert("checklist"@, value), key);
        },
        MessageContent::RichLayout(layout) => {},
        MessageContent::MediaGallery(items) => {},
        MessageContent::PlatformNative(native) => {
            let members = native::native_object_outcome(native, "message content"@)->Ok_0;
            let method = json::text_in(members, "method"@)->0;
            native::lemma_merged_keeps(
                payload,
                members.remove("method"@),
                "Telegram native message content"@ + " duplicates field "@,
                key,
            );
            lemma_call_says(
                method,
                native::merged(
                    payload,
                    members.remove("method"@),
                    "Telegram native message content"@,
                )->Ok_0,
                key,
            );
        },
    }
}

proof fn lemma_media_keeps(
    method: Seq<char>,
    field: Seq<char>,
    media: Media,
    payload: Map<Seq<char>, JsonView>,
    key: Seq<char>,
)
    requires
        media_step(method, field, media, payload) is Ok,
        payload.contains_key(key),
    ensures
        says(media_step(method, field, media, payload)->Ok_0, key, payload[key]),
{
    let own = media::media_fields(json::no_fields(), method, media)->Ok_0;
    lemma_content_keeps(payload, own, key);
    lemma_native_keeps(
        with_content(payload, own)->Ok_0,
        media.platform_data,
        "media options"@,
        key,
    );
}

/// A text that is written stands in the parameters.
pub proof fn lemma_text_written(
    payload: Map<Seq<char>, JsonView>,
    text: Seq<char>,
    entities: Option<Seq<JsonView>>,
    link_preview: Option<JsonView>,
)
    requires
        text_payload(payload, text, entities, link_preview) is Ok,
    ensures
        json::member(text_payload(payload, text, entities, link_preview)->Ok_0, "text"@) == Some(
            JsonView::Text(text),
        ),
{
    reveal_strlit("text");
    reveal_strlit("entities");
    reveal_strlit("link_preview_options");
    assert("text"@.len() == 4 && "entities"@.len() == 8 && "link_preview_options"@.len() == 20);
    lemma_content_keeps(payload, text_members(text, entities, link_preview), "text"@);
}

proof fn lemma_media_described(
    method: Seq<char>,
    field: Seq<char>,
    media: Media,
    payload: Map<Seq<char>, JsonView>,
    key: Seq<char>,
)
    requires
        media_step(method, field, media, payload) is Ok,
    ensures
        media::media_fields(json::no_fields(), method, media) is Ok,
        json::member(media::media_fields(json::no_fields(), method, media)->Ok_0, key) matches Some(
            value,
        ) ==> (media_step(method, field, media, payload) matches Ok(
            StepView::Media { payload: all, .. },
        ) && json::member(all, key) == Some(value)),
{
    let own = media::media_fields(json::no_fields(), method, media)->Ok_0;
    let described = native::merged(payload, own, "message content"@)->Ok_0;
    native::lemma_merged_keeps(payload, own, "message content"@ + " duplicates field "@, key);
    native::lemma_optional_keeps(described, media.platform_data, "media options"@, key);
}

/// The step sends the file of the media with the method, under the field, with
/// its caption, its duration and its thumbnail.
pub open spec fn sends_media(
    step: StepView,
    method: Seq<char>,
    field: Seq<char>,
    media: Media,
) -> bool {
    &&& step matches StepView::Media { method: own, field: under, payload, file, thumbnail }
    &&& own == method
    &&& under == field
    &&& file == media.file@
    &&& thumbnail == source::optional_file(media.thumbnail)
    &&& media.caption matches Some(caption) ==> json::text_in(payload, "caption"@) == Some(
        caption.text@,
    )
    &&& media.duration matches Some(span) ==> json::u64_in(payload, "duration"@) == Some(
        span.seconds,
    )
}

/// Each sort of media is sent with the method that Telegram has for it, under
/// the field of that method; so no two sorts are sent alike.
pub proof fn law_media_are_sent_as_they_are(context: ContextView, content: MessageContent)
    requires
        step_outcome(context, content) is Ok,
    ensures
        ({
            let step = step_outcome(context, content)->Ok_0;
            &&& content matches MessageContent::Image(media) ==> sends_media(
                step,
                "sendPhoto"@,
                "photo"@,
                media,
            )
            &&& content matches MessageContent::Video(media) ==> sends_media(
                step,
                "sendVideo"@,
                "video"@,
                media,
            )
            &&& content matches MessageContent::Audio(media) ==> sends_media(
                step,
                "sendAudio"@,
                "audio"@,
                media,
            )
            &&& content matches MessageContent::Animation(media) ==> sends_media(
                step,
                "sendAnimation"@,
                "animation"@,
                media,
            )
            &&& content matches MessageContent::VoiceNote(media) ==> sends_media(
                step,
                "sendVoice"@,
                "voice"@,
                media,
            )
            &&& content matches MessageContent::VideoNote(media) ==> sends_media(
                step,
                "sendVideoNote"@,
                "video_note"@,
                media,
            )
            &&& content matches MessageContent::File(media) ==> sends_media(
                step,
                "sendDocument"@,
                "document"@,
                media,
            )
            &&& content matches MessageContent::Image(media) ==> json::bool_in(
                step->Media_payload,
                "has_spoiler"@,
            ) == Some(media.spoiler)
            &&& content matches MessageContent::Video(media) ==> json::bool_in(
                step->Media_payload,
                "has_spoiler"@,
            ) == Some(media.spoiler)
            &&& content matches MessageContent::Sticker(sticker) ==> {
                &&& step matches StepView::Media { method, field, file, .. }
                &&& method == "sendSticker"@
                &&& field == "sticker"@
                &&& sticker.file matches Some(own) ==> file == own@
                &&& sticker.file is None ==> file.id == Some(sticker.id@)
            }
            &&& content matches MessageContent::MediaGallery(items) ==> (step matches StepView::Album {
                items: own,
                ..
            } && own == items@)
            &&& content matches MessageContent::RichLayout(layout) ==> (step matches StepView::Layout {
                layout: own,
                ..
            } && own == layout)
        }),
{
    media::lemma_sending_names();
    let payload = next_payload(context);
    match content {
        MessageContent::Image(media) => {
            lemma_media_described("sendPhoto"@, "photo"@, media, payload, "caption"@);
            lemma_media_described("sendPhoto"@, "photo"@, media, payload, "duration"@);
            lemma_media_described("sendPhoto"@, "photo"@, media, payload, "has_spoiler"@);
            media::law_media_are_described(json::no_fields(), "sendPhoto"@, media);
        },
        MessageContent::Video(media) => {
            lemma_media_described("sendVideo"@, "video"@, media, payload, "caption"@);
            lemma_media_described("sendVideo"@, "video"@, media, payload, "duration"@);
            lemma_media_described("sendVideo"@, "video"@, media, payload, "has_spoiler"@);
            media::law_media_are_described(json::no_fields(), "sendVideo"@, media);
        },
        MessageContent::Audio(media) => {
            lemma_media_described("sendAudio"@, "audio"@, media, payload, "caption"@);
            lemma_media_described("sendAudio"@, "audio"@, media, payload, "duration"@);
            lemma_media_described("sendAudio"@, "audio"@, media, payload, "has_spoiler"@);
            media::law_media_are_described(json::no_fields(), "sendAudio"@, media);
        },
        MessageContent::Animation(media) => {
            lemma_media_described("sendAnimation"@, "animation"@, media, payload, "caption"@);
            lemma_media_described("sendAnimation"@, "animation"@, media, payload, "duration"@);
            lemma_media_described("sendAnimation"@, "animation"@, media, payload, "has_spoiler"@);
            media::law_media_are_described(json::no_fields(), "sendAnimation"@, media);
        },
        MessageContent::VoiceNote(media) => {
            lemma_media_described("sendVoice"@, "voice"@, media, payload, "caption"@);
            lemma_media_described("sendVoice"@, "voice"@, media, payload, "duration"@);
            lemma_media_described("sendVoice"@, "voice"@, media, payload, "has_spoiler"@);
            media::law_media_are_described(json::no_fields(), "sendVoice"@, media);
        },
        MessageContent::VideoNote(media) => {
            lemma_media_described("sendVideoNote"@, "video_note"@, media, payload, "caption"@);
            lemma_media_described("sendVideoNote"@, "video_note"@, media, payload, "duration"@);
            lemma_media_described("sendVideoNote"@, "video_note"@, media, payload, "has_spoiler"@);
            media::law_media_are_described(json::no_fields(), "sendVideoNote"@, media);
        },
        MessageContent::File(media) => {
            lemma_media_described("sendDocument"@, "document"@, media, payload, "caption"@);
            lemma_media_described("sendDocument"@, "document"@, media, payload, "duration"@);
            lemma_media_described("sendDocument"@, "document"@, media, payload, "has_spoiler"@);
            media::law_media_are_described(json::no_fields(), "sendDocument"@, media);
        },
        _ => {},
    }
}

proof fn lemma_call_keys()
    ensures
        "text"@.len() == 4,
        "entities"@.len() == 8,
        "link_preview_options"@.len() == 20,
        "latitude"@.len() == 8,
        "longitude"@.len() == 9,
        "horizontal_accuracy"@.len() == 19,
        "live_period"@.len() == 11,
        "heading"@.len() == 7,
        "proximity_alert_radius"@.len() == 22,
        "title"@.len() == 5,
        "address"@.len() == 7,
        "phone_number"@.len() == 12,
        "first_name"@.len() == 10,
        "last_name"@.len() == 9,
        "vcard"@.len() == 5,
        "entities"@ != "latitude"@,
        "longitude"@ != "last_name"@,
        "heading"@ != "address"@,
        "title"@ != "vcard"@,
{
    reveal_strlit("text");
    reveal_strlit("entities");
    reveal_strlit("link_preview_options");
    reveal_strlit("latitude");
    reveal_strlit("longitude");
    reveal_strlit("horizontal_accuracy");
    reveal_strlit("live_period");
    reveal_strlit("heading");
    reveal_strlit("proximity_alert_radius");
    reveal_strlit("title");
    reveal_strlit("address");
    reveal_strlit("phone_number");
    reveal_strlit("first_name");
    reveal_strlit("last_name");
    reveal_strlit("vcard");
    assert("entities"@[0] != "latitude"@[0]);
    assert("longitude"@[1] != "last_name"@[1]);
    assert("heading"@[0] != "address"@[0]);
    assert("title"@[0] != "vcard"@[0]);
}

proof fn lemma_called(
    method: Seq<char>,
    payload: Map<Seq<char>, JsonView>,
    own: Map<Seq<char>, JsonView>,
    native: Option<PlatformNativeData>,
    context: Seq<char>,
    key: Seq<char>,
)
    requires
        with_content(payload, own) is Ok,
        native::optional_native_merged(with_content(payload, own)->Ok_0, native, context) is Ok,
    ensures
        json::member(own, key) matches Some(value) ==> (!(value is Null) ==> json::member(
            request::call(
                method,
                native::optional_native_merged(
                    with_content(payload, own)->Ok_0,
                    native,
                    context,
                )->Ok_0,
            ).payload,
            key,
        ) == Some(json::stripped(value))),
{
    let described = with_content(payload, own)->Ok_0;
    let all = native::optional_native_merged(described, native, context)->Ok_0;
    lemma_content_keeps(payload, own, key);
    native::lemma_optional_keeps(described, native, context, key);
    request::lemma_call_member(method, all, key);
}

/// A text is sent as a message that says it, with one entity for each style of
/// each of its spans; a custom emoji as the text that stands for it, all of
/// which the emoji covers.
pub proof fn law_texts_are_sent_as_they_are(context: ContextView, content: MessageContent)
    requires
        step_outcome(context, content) is Ok,
    ensures
        ({
            let step = step_outcome(context, content)->Ok_0;
            &&& content matches MessageContent::PlainText(text) ==> {
                &&& step matches StepView::Call(call)
                &&& call.method == "sendMessage"@
                &&& json::text_in(call.payload, "text"@) == Some(text@)
            }
            &&& content matches MessageContent::RichText(text) ==> {
                &&& step matches StepView::Call(call)
                &&& call.method == "sendMessage"@
                &&& json::text_in(call.payload, "text"@) == Some(text.text@)
                &&& rich_text::entities_outcome(text) matches Ok(entities)
                &&& json::member(call.payload, "entities"@) == Some(
                    json::stripped(JsonView::Array(entities)),
                )
            }
            &&& content matches MessageContent::CustomEmoji(emoji) ==> {
                &&& step matches StepView::Call(call)
                &&& call.method == "sendMessage"@
                &&& emoji.fallback matches Some(text) ==> json::text_in(call.payload, "text"@)
                    == Some(text@)
                &&& json::array_in(call.payload, "entities"@) matches Some(entities)
                &&& entities.len() == 1
                &&& entities[0] matches JsonView::Object(entity)
                &&& json::text_in(entity, "type"@) == Some("custom_emoji"@)
                &&& json::text_in(entity, "custom_emoji_id"@) == Some(emoji.id@)
                &&& json::text_in(call.payload, "text"@) matches Some(shown)
                &&& json::member(entity, "offset"@) == Some(JsonView::Integer(0))
                &&& json::member(entity, "length"@) == Some(
                    JsonView::Integer(text::units_of(shown) as int),
                )
            }
        }),
{
    lemma_call_keys();
    let payload = next_payload(context);
    match content {
        MessageContent::PlainText(text) => {
            let own = text_members(text@, None, context.link_preview);
            lemma_content_keeps(payload, own, "text"@);
            request::lemma_call_member(
                "sendMessage"@,
                with_content(payload, own)->Ok_0,
                "text"@,
            );
        },
        MessageContent::RichText(text) => {
            let entities = rich_text::entities_outcome(text)->Ok_0;
            let own = text_members(text.text@, Some(entities), context.link_preview);
            lemma_content_keeps(payload, own, "text"@);
            lemma_content_keeps(payload, own, "entities"@);
            let all = with_content(payload, own)->Ok_0;
            request::lemma_call_member("sendMessage"@, all, "text"@);
            request::lemma_call_member("sendMessage"@, all, "entities"@);
        },
        MessageContent::CustomEmoji(emoji) => {
            let text = emoji_text(emoji)->0;
            let entity = emoji_entity(emoji.id@, text);
            let own = text_members(text, Some(seq![entity]), None);
            lemma_content_keeps(payload, own, "text"@);
            lemma_content_keeps(payload, own, "entities"@);
            let all = with_content(payload, own)->Ok_0;
            request::lemma_call_member("sendMessage"@, all, "text"@);
            request::lemma_call_member("sendMessage"@, all, "entities"@);
            json::lemma_stripped_item(seq![entity], 0);
            lemma_emoji_entity(emoji.id@, text);
        },
        _ => {},
    }
}

proof fn lemma_emoji_entity(id: Seq<char>, text: Seq<char>)
    ensures
        ({
            let entity = emoji_entity(id, text);
            let again = json::stripped(entity);
            &&& again is Object
            &&& json::text_in(again->Object_0, "type"@) == Some("custom_emoji"@)
            &&& json::text_in(again->Object_0, "custom_emoji_id"@) == Some(id)
            &&& json::member(again->Object_0, "offset"@) == Some(JsonView::Integer(0))
            &&& json::member(again->Object_0, "length"@) == Some(
                JsonView::Integer(text::units_of(text) as int),
            )
        }),
{
    lemma_emoji_keys();
    let object = rich_text::typed(
        json::no_fields().insert("offset"@, JsonView::Integer(0)).insert(
            "length"@,
            JsonView::Integer(text::units_of(text) as int),
        ),
        "custom_emoji"@,
    ).insert("custom_emoji_id"@, JsonView::Text(id));
    json::lemma_stripped_member(object, "type"@);
    json::lemma_stripped_member(object, "custom_emoji_id"@);
    json::lemma_stripped_member(object, "offset"@);
    json::lemma_stripped_member(object, "length"@);
    let entity = emoji_entity(id, text)->Object_0;
    json::lemma_stripped_member(entity, "type"@);
    json::lemma_stripped_member(entity, "custom_emoji_id"@);
    json::lemma_stripped_member(entity, "offset"@);
    json::lemma_stripped_member(entity, "length"@);
}

proof fn lemma_emoji_keys()
    ensures
        "type"@.len() == 4,
        "custom_emoji_id"@.len() == 15,
        "offset"@.len() == 6,
        "length"@.len() == 6,
        "offset"@ != "length"@,
{
    reveal_strlit("type");
    reveal_strlit("custom_emoji_id");
    reveal_strlit("offset");
    reveal_strlit("length");
    assert("offset"@[0] != "length"@[0]);
}

/// A place is sent as one: its latitude and its longitude each under its name,
/// as a venue with its title and address where it has them, and as a location
/// otherwise. A contact is sent with its number and its names.
pub proof fn law_places_and_contacts_are_sent(context: ContextView, content: MessageContent)
    requires
        step_outcome(context, content) is Ok,
    ensures
        ({
            let step = step_outcome(context, content)->Ok_0;
            &&& content matches MessageContent::Location(location) ==> {
                &&& step matches StepView::Call(call)
                &&& location.title is Some <==> call.method == "sendVenue"@
                &&& location.title is None <==> call.method == "sendLocation"@
                &&& location.latitude matches crate::content::Real::Finite(text) ==> json::member(
                    call.payload,
                    "latitude"@,
                ) == Some(JsonView::Real(text@))
                &&& location.longitude matches crate::content::Real::Finite(text) ==> json::member(
                    call.payload,
                    "longitude"@,
                ) == Some(JsonView::Real(text@))
                &&& location.title matches Some(title) ==> json::text_in(call.payload, "title"@)
                    == Some(title@) && (location.address matches Some(address) && json::text_in(
                    call.payload,
                    "address"@,
                ) == Some(address@))
                &&& location.live_period matches Some(span) ==> json::u64_in(
                    call.payload,
                    "live_period"@,
                ) == Some(span.seconds)
                &&& location.heading matches Some(degrees) ==> json::member(
                    call.payload,
                    "heading"@,
                ) == Some(JsonView::Integer(degrees as int))
                &&& location.proximity_alert_radius matches Some(metres) ==> json::member(
                    call.payload,
                    "proximity_alert_radius"@,
                ) == Some(JsonView::Integer(metres as int))
            }
            &&& content matches MessageContent::Contact(contact) ==> {
                &&& step matches StepView::Call(call)
                &&& call.method == "sendContact"@
                &&& contact.phone_numbers@.len() == 1
                &&& json::text_in(call.payload, "phone_number"@) == Some(
                    contact.phone_numbers@[0].value@,
                )
                &&& json::text_in(call.payload, "first_name"@) == Some(contact.first_name@)
                &&& contact.last_name matches Some(name) ==> json::text_in(
                    call.payload,
                    "last_name"@,
                ) == Some(name@)
                &&& contact.vcard matches Some(card) ==> json::text_in(call.payload, "vcard"@)
                    == Some(card@)
            }
        }),
{
    lemma_call_keys();
    reveal_strlit("sendVenue");
    reveal_strlit("sendLocation");
    assert("sendVenue"@.len() == 9 && "sendLocation"@.len() == 12);
    let payload = next_payload(context);
    match content {
        MessageContent::Location(location) => {
            let own = location_members(location);
            let native = location.platform_data;
            let method = step_outcome(context, content)->Ok_0->Call_0.method;
            lemma_called(method, payload, own, native, "location"@, "latitude"@);
            lemma_called(method, payload, own, native, "location"@, "longitude"@);
            lemma_called(method, payload, own, native, "location"@, "title"@);
            lemma_called(method, payload, own, native, "location"@, "address"@);
            lemma_called(method, payload, own, native, "location"@, "live_period"@);
            lemma_called(method, payload, own, native, "location"@, "heading"@);
            lemma_called(method, payload, own, native, "location"@, "proximity_alert_radius"@);
        },
        MessageContent::Contact(contact) => {
            let own = contact_members(contact);
            let native = contact.platform_data;
            lemma_called("sendContact"@, payload, own, native, "contact"@, "phone_number"@);
            lemma_called("sendContact"@, payload, own, native, "contact"@, "first_name"@);
            lemma_called("sendContact"@, payload, own, native, "contact"@, "last_name"@);
            lemma_called("sendContact"@, payload, own, native, "contact"@, "vcard"@);
        },
        _ => {},
    }
}

/// A preview is switched off where it is not wanted, and the other wishes for
/// it are passed on, each under its own name.
pub proof fn law_previews_are_as_wished(options: LinkPreviewOptions)
    ensures
        link_preview_view(options) matches JsonView::Object(written) && json::bool_in(
            written,
            "is_disabled"@,
        ) == Some(!options.enabled) && (options.prefer_large_media matches Some(large)
            ==> json::bool_in(written, "prefer_large_media"@) == Some(large)) && (
        options.above_text matches Some(above) ==> json::bool_in(written, "show_above_text"@)
            == Some(above)),
{
    lemma_preview_keys();
}

proof fn lemma_preview_keys()
    ensures
        "is_disabled"@.len() == 11,
        "prefer_large_media"@.len() == 18,
        "show_above_text"@.len() == 15,
{
    reveal_strlit("is_disabled");
    reveal_strlit("prefer_large_media");
    reveal_strlit("show_above_text");
}

proof fn lemma_reply_keys()
    ensures
        "message_id"@.len() == 10,
        "chat_id"@.len() == 7,
        "allow_sending_without_reply"@.len() == 27,
        "quote"@.len() == 5,
        "quote_entities"@.len() == 14,
        "quote_position"@.len() == 14,
        "quote_entities"@ != "quote_position"@,
{
    reveal_strlit("message_id");
    reveal_strlit("chat_id");
    reveal_strlit("allow_sending_without_reply");
    reveal_strlit("quote");
    reveal_strlit("quote_entities");
    reveal_strlit("quote_position");
    assert("quote_entities"@[6] != "quote_position"@[6]);
}

/// A reply is one to the message that the reference names, and says whether it
/// is sent without it and what of it is quoted.
pub proof fn law_replies_name_the_message(reply: ReplyOptions)
    requires
        reply_options_outcome(reply) is Ok,
    ensures
        reply_options_outcome(reply) matches Ok(JsonView::Object(written)) && (
        address::message_ref_outcome(reply.message) matches Ok((chat, number)) && json::i64_in(
            written,
            "message_id"@,
        ) == Some(number) && json::member(written, "chat_id"@) == Some(
            match text::i64_value(chat) {
                Some(id) => JsonView::Integer(id as int),
                None => JsonView::Text(chat),
            },
        )) && json::bool_in(written, "allow_sending_without_reply"@) == Some(
            reply.allow_without_original,
        ) && (reply.quote matches Some(quote) ==> json::text_in(written, "quote"@) == Some(
            quote.text@,
        )) && (reply.quote_position matches Some(position) ==> json::member(
            written,
            "quote_position"@,
        ) == Some(JsonView::Integer(position as int))),
{
    lemma_reply_keys();
    let (chat, number) = address::message_ref_outcome(reply.message)->Ok_0;
    let entities = layout::caption_entities_outcome(reply.quote)->Ok_0;
    let own = json::no_fields().insert("message_id"@, JsonView::Integer(number as int)).insert(
        "chat_id"@,
        address::chat_id_view(chat),
    ).insert(
        "allow_sending_without_reply"@,
        JsonView::Bool(reply.allow_without_original),
    ).insert(
        "quote"@,
        match reply.quote {
            Some(quote) => JsonView::Text(quote.text@),
            None => JsonView::Null,
        },
    ).insert("quote_entities"@, entities).insert(
        "quote_position"@,
        layout::optional_u32_view(reply.quote_position),
    );
    let all = match reply.platform_data {
        None => own,
        Some(native) => native::merged_or(
            own,
            native::native_object_outcome(native, "reply options"@)->Ok_0,
            "Telegram reply options duplicate field "@,
        )->Ok_0,
    };
    if let Some(native) = reply.platform_data {
        native::lemma_merged_keeps(
            own,
            native::native_object_outcome(native, "reply options"@)->Ok_0,
            "Telegram reply options duplicate field "@,
            "message_id"@,
        );
    }
    json::lemma_stripped_member(all, "message_id"@);
    if let Some(native) = reply.platform_data {
        native::lemma_merged_keeps(
            own,
            native::native_object_outcome(native, "reply options"@)->Ok_0,
            "Telegram reply options duplicate field "@,
            "chat_id"@,
        );
    }
    json::lemma_stripped_member(all, "chat_id"@);
    if let Some(native) = reply.platform_data {
        native::lemma_merged_keeps(
            own,
            native::native_object_outcome(native, "reply options"@)->Ok_0,
            "Telegram reply options duplicate field "@,
            "allow_sending_without_reply"@,
        );
    }
    json::lemma_stripped_member(all, "allow_sending_without_reply"@);
    if let Some(native) = reply.platform_data {
        native::lemma_merged_keeps(
            own,
            native::native_object_outcome(native, "reply options"@)->Ok_0,
            "Telegram reply options duplicate field "@,
            "quote"@,
        );
    }
    json::lemma_stripped_member(all, "quote"@);
    if let Some(native) = reply.platform_data {
        native::lemma_merged_keeps(
            own,
            native::native_object_outcome(native, "reply options"@)->Ok_0,
            "Telegram reply options duplicate field "@,
            "quote_position"@,
        );
    }
    json::lemma_stripped_member(all, "quote_position"@);
}

/// What is said of a message beside its content stands in the first call: what
/// it replies to and its keyboard there alone, whom it is for and where it goes
/// in every call.
pub proof fn law_options_stand_in_the_calls(target: MessageTarget, options: MessageOptions)
    requires
        outgoing_context_outcome(target, options) is Ok,
    ensures
        ({
            let context = outgoing_context_outcome(target, options)->Ok_0;
            &&& options.reply is Some <==> context.first_only.contains_key("reply_parameters"@)
            &&& options.components is Some <==> context.first_only.contains_key("reply_markup"@)
            &&& options.reply matches Some(reply) ==> (reply_options_outcome(reply) matches Ok(value)
                && json::member(context.first_only, "reply_parameters"@) == Some(value))
            &&& options.components matches Some(components) ==> (
            keyboard::message_components_outcome(components) matches Ok(value) && json::member(
                context.first_only,
                "reply_markup"@,
            ) == Some(value))
            &&& options.visibility matches MessageVisibility::PrivateTo(users) ==> users@.len() == 1
                && json::i64_in(context.base, "receiver_user_id"@) == text::i64_value(users@[0]@)
                && text::i64_value(users@[0]@) is Some
            &&& options.visibility is Public ==> target.recipients@.len() == 0
            &&& address::conversation_payload(target.conversation) matches Ok(place)
                && json::member(context.base, "chat_id"@) == json::member(place, "chat_id"@)
            &&& options.link_preview is Some <==> context.link_preview is Some
        }),
{
    reveal_strlit("reply_parameters");
    reveal_strlit("reply_markup");
    assert("reply_parameters"@.len() == 16 && "reply_markup"@.len() == 12);
    reveal_strlit("disable_notification");
    reveal_strlit("protect_content");
    reveal_strlit("receiver_user_id");
    assert("disable_notification"@.len() == 20 && "protect_content"@.len() == 15
        && "receiver_user_id"@.len() == 16);
    let context = outgoing_context_outcome(target, options)->Ok_0;
    let place = addressed(target, options)->Ok_0;
    let home = address::conversation_payload(target.conversation)->Ok_0;
    let delivery = received(
        json::no_fields().insert(
            "disable_notification"@,
            JsonView::Bool(options.notification is Silent),
        ).insert("protect_content"@, JsonView::Bool(options.protect_content)),
        target,
        options.visibility,
    )->Ok_0;
    let own = address::with_members(home, delivery)->Ok_0;
    address::lemma_chat_is_named(target.conversation);
    address::lemma_members_kept(home, delivery, "chat_id"@);
    address::lemma_members_kept(home, delivery, "receiver_user_id"@);
    native::lemma_optional_keeps(own, target.platform_data, "message target"@, "chat_id"@);
    native::lemma_optional_keeps(own, target.platform_data, "message target"@, "receiver_user_id"@);
    native::lemma_optional_keeps(place, options.platform_data, "message options"@, "chat_id"@);
    native::lemma_optional_keeps(
        place,
        options.platform_data,
        "message options"@,
        "receiver_user_id"@,
    );
}

proof fn lemma_draft_keys()
    ensures
        "chat_id"@.len() == 7,
        "message_thread_id"@.len() == 17,
        "draft_id"@.len() == 8,
        "text"@.len() == 4,
        "entities"@.len() == 8,
        "draft_id"@ != "entities"@,
{
    reveal_strlit("chat_id");
    reveal_strlit("message_thread_id");
    reveal_strlit("draft_id");
    reveal_strlit("text");
    reveal_strlit("entities");
    assert("draft_id"@[0] != "entities"@[0]);
}

/// A draft is shown by a call of its own, in the chat of the message, with the
/// text of it and the number that was given; it is never sent.
pub proof fn law_drafts_are_shown(context: ContextView, content: Seq<MessageContent>)
    requires
        draft_outcome(context, content) is Ok,
    ensures
        ({
            let (call, id) = draft_outcome(context, content)->Ok_0;
            &&& call.method == "sendMessageDraft"@
            &&& id != 0
            &&& json::i64_in(context.base, "draft_id"@) == Some(id)
            &&& json::i64_in(call.payload, "draft_id"@) == Some(id)
            &&& content.len() == 1
            &&& content[0] matches MessageContent::PlainText(text) ==> json::text_in(
                call.payload,
                "text"@,
            ) == Some(text@)
            &&& content[0] matches MessageContent::RichText(text) ==> json::text_in(
                call.payload,
                "text"@,
            ) == Some(text.text@)
            &&& json::i64_in(context.base, "chat_id"@) is Some ==> json::i64_in(
                call.payload,
                "chat_id"@,
            ) == json::i64_in(context.base, "chat_id"@)
        }),
{
    lemma_draft_keys();
    let (call, id) = draft_outcome(context, content)->Ok_0;
    let (text, entities) = draft_text(content[0])->Ok_0;
    let own = text_members(text, Some(entities), None);
    let place = address::with_copied(
        address::with_copied(own, context.base, "chat_id"@),
        context.base,
        "message_thread_id"@,
    ).insert("draft_id"@, JsonView::Integer(id as int));
    request::lemma_call_member("sendMessageDraft"@, place, "draft_id"@);
    request::lemma_call_member("sendMessageDraft"@, place, "text"@);
    request::lemma_call_member("sendMessageDraft"@, place, "chat_id"@);
}

/// A message begins with a draft exactly where it is to be one, is sent where
/// it is to go at once, and is refused where it is to go later.
pub proof fn law_delivery_is_as_asked(
    target: MessageTarget,
    content: Seq<MessageContent>,
    options: MessageOptions,
)
    ensures
        start_outcome(target, content, options) matches Ok(start) ==> (start is Draft
            <==> options.delivery_time is Draft) && (start is Send
            <==> options.delivery_time is Immediate) && content.len() > 0,
        options.delivery_time is Scheduled ==> start_outcome(target, content, options) is Err,
        content.len() == 0 ==> start_outcome(target, content, options) is Err,
{
}

/// A message is silent exactly where it is to be silent, and protected exactly
/// where it is to be protected, in every call for it.
pub proof fn law_messages_are_silent_and_protected_as_asked(
    target: MessageTarget,
    options: MessageOptions,
)
    requires
        outgoing_context_outcome(target, options) is Ok,
    ensures
        ({
            let context = outgoing_context_outcome(target, options)->Ok_0;
            &&& json::bool_in(context.base, "disable_notification"@) == Some(
                options.notification is Silent,
            )
            &&& json::bool_in(context.base, "protect_content"@) == Some(options.protect_content)
        }),
{
    reveal_strlit("disable_notification");
    reveal_strlit("protect_content");
    reveal_strlit("receiver_user_id");
    assert("disable_notification"@.len() == 20 && "protect_content"@.len() == 15
        && "receiver_user_id"@.len() == 16);
    let place = addressed(target, options)->Ok_0;
    let home = address::conversation_payload(target.conversation)->Ok_0;
    let delivery = received(
        json::no_fields().insert(
            "disable_notification"@,
            JsonView::Bool(options.notification is Silent),
        ).insert("protect_content"@, JsonView::Bool(options.protect_content)),
        target,
        options.visibility,
    )->Ok_0;
    let own = address::with_members(home, delivery)->Ok_0;
    address::lemma_members_kept(home, delivery, "disable_notification"@);
    address::lemma_members_kept(home, delivery, "protect_content"@);
    native::lemma_optional_keeps(
        own,
        target.platform_data,
        "message target"@,
        "disable_notification"@,
    );
    native::lemma_optional_keeps(own, target.platform_data, "message target"@, "protect_content"@);
    native::lemma_optional_keeps(
        place,
        options.platform_data,
        "message options"@,
        "disable_notification"@,
    );
    native::lemma_optional_keeps(
        place,
        options.platform_data,
        "message options"@,
        "protect_content"@,
    );
}

/// What is kept for the first call stands in the first call and in no other;
/// what is for every call stands in each of them.
pub proof fn law_the_first_call_says_what_is_kept_for_it(context: ContextView, key: Seq<char>)
    ensures
        json::member(context.first_only, key) matches Some(value) ==> json::member(
            next_payload(context),
            key,
        ) == Some(value),
        json::member(context.first_only, key) is None ==> json::member(next_payload(context), key)
            == json::member(context.base, key),
        json::member(next_payload(after_call(context)), key) == json::member(context.base, key),
        next_payload(after_call(after_call(context))) == next_payload(after_call(context)),
{
}

/// A poll is sent as a poll, a checklist as a checklist, and native content by
/// the method that it names.
pub proof fn law_other_contents_are_sent_as_they_are(context: ContextView, content: MessageContent)
    requires
        step_outcome(context, content) is Ok,
    ensures
        ({
            let step = step_outcome(context, content)->Ok_0;
            &&& content matches MessageContent::Poll(poll) ==> (step matches StepView::Call(call)
                && call.method == "sendPoll"@ && json::text_in(call.payload, "question"@) == Some(
                poll.question.text@,
            ))
            &&& content matches MessageContent::Checklist(checklist) ==> (step matches StepView::Call(
                call,
            ) && call.method == "sendChecklist"@ && json::member(call.payload, "checklist"@) is Some)
            &&& content matches MessageContent::PlatformNative(native) ==> (step matches StepView::Call(
                call,
            ) && (native.data@ matches JsonView::Object(members) && json::text_in(members, "method"@)
                == Some(call.method)))
        }),
{
    let payload = next_payload(context);
    if let MessageContent::Poll(poll) = content {
        poll::law_polls_are_sent_as_they_are(payload, poll);
    }
    if let MessageContent::Checklist(checklist) = content {
        checklist::law_checklists_are_sent(payload, checklist);
    }
}

/// A layout is sent as a rich message, with its buttons under it.
pub proof fn law_layouts_are_sent_as_rich_messages(
    layout: RichLayout,
    payload: Map<Seq<char>, JsonView>,
    uploads: Seq<(Seq<char>, Upload)>,
)
    requires
        layout_call_outcome(layout, payload, uploads) is Ok,
    ensures
        ({
            let call = layout_call_outcome(layout, payload, uploads)->Ok_0;
            &&& layout::rich_layout_outcome(layout) matches Ok((rich, markup))
            &&& uploads.len() == 0 ==> (call matches CallView::Document(request) && request.method
                == "sendRichMessage"@ && json::member(request.payload, "rich_message"@) == Some(
                json::stripped(JsonView::Object(rich)),
            ) && (markup matches Some(keyboard) ==> json::member(request.payload, "reply_markup"@)
                == Some(json::stripped(keyboard))))
            &&& uploads.len() > 0 ==> (call matches CallView::Form {
                method,
                values,
                uploads: parts,
                ..
            } && method == "sendRichMessage"@ && parts == uploads && json::member(
                values,
                "rich_message"@,
            ) == Some(JsonView::Object(rich)))
        }),
{
    reveal_strlit("rich_message");
    reveal_strlit("reply_markup");
    assert("rich_message"@[1] != "reply_markup"@[1]);
    let (rich, markup) = layout::rich_layout_outcome(layout)->Ok_0;
    layout::law_layout_buttons_go_under_the_message(layout);
    let marked = match markup {
        Some(markup) => payload.insert("reply_markup"@, markup),
        None => payload,
    };
    let all = native::added(
        marked,
        "rich_message"@,
        JsonView::Object(rich),
        "message content"@,
    )->Ok_0;
    request::lemma_call_member("sendRichMessage"@, all, "rich_message"@);
    request::lemma_call_member("sendRichMessage"@, all, "reply_markup"@);
}

/// How the links of a text are previewed is said with the text, and how exact a
/// place is with the place.
pub proof fn law_texts_say_how_links_are_shown(
    text: Seq<char>,
    entities: Option<Seq<JsonView>>,
    preview: Option<JsonView>,
    location: LocationContent,
)
    ensures
        json::member(text_members(text, entities, preview), "link_preview_options"@) == preview,
        json::text_in(text_members(text, entities, preview), "text"@) == Some(text),
        json::array_in(text_members(text, entities, preview), "entities"@) == entities,
        location.horizontal_accuracy matches Some(crate::content::Real::Finite(own)) ==> json::member(
            location_members(location),
            "horizontal_accuracy"@,
        ) == Some(JsonView::Real(own@)),
{
    lemma_call_keys();
}

/// A draft is found again by its number.
pub proof fn law_drafts_are_found_again(id: i64, conversation: ConversationView)
    ensures
        ({
            let found = draft_ref_view(id as int, conversation);
            &&& found.id == "draft:"@ + text::decimal(id as int)
            &&& found.conversation == Some(conversation)
            &&& found.native matches Some(native)
            &&& native.data matches JsonView::Object(members)
            &&& json::i64_in(members, "draft_id"@) == Some(id)
        }),
{
}

/// What is quoted in a reply keeps its styles.
pub proof fn law_quotes_keep_their_styles(reply: ReplyOptions)
    requires
        reply_options_outcome(reply) is Ok,
        reply.quote is Some,
    ensures
        reply_options_outcome(reply) matches Ok(JsonView::Object(written)) && (
        rich_text::entities_outcome(reply.quote->0) matches Ok(entities) && json::member(
            written,
            "quote_entities"@,
        ) == Some(json::stripped(JsonView::Array(entities)))),
{
    lemma_reply_keys();
    let (chat, number) = address::message_ref_outcome(reply.message)->Ok_0;
    let entities = layout::caption_entities_outcome(reply.quote)->Ok_0;
    let own = json::no_fields().insert("message_id"@, JsonView::Integer(number as int)).insert(
        "chat_id"@,
        address::chat_id_view(chat),
    ).insert(
        "allow_sending_without_reply"@,
        JsonView::Bool(reply.allow_without_original),
    ).insert("quote"@, JsonView::Text(reply.quote->0.text@)).insert("quote_entities"@, entities).insert(
        "quote_position"@,
        layout::optional_u32_view(reply.quote_position),
    );
    let all = match reply.platform_data {
        None => own,
        Some(native) => native::merged_or(
            own,
            native::native_object_outcome(native, "reply options"@)->Ok_0,
            "Telegram reply options duplicate field "@,
        )->Ok_0,
    };
    if let Some(native) = reply.platform_data {
        native::lemma_merged_keeps(
            own,
            native::native_object_outcome(native, "reply options"@)->Ok_0,
            "Telegram reply options duplicate field "@,
            "quote_entities"@,
        );
    }
    json::lemma_stripped_member(all, "quote_entities"@);
}

/// A place is refused only where an address stands without a title or a title
/// without an address, and a contact only where it holds more than one plain
/// number.
pub proof fn law_places_and_contacts_are_refused_only_for_cause(
    location: LocationContent,
    contact: ContactCard,
    context: ContextView,
)
    ensures
        step_outcome(context, MessageContent::Location(location)) is Ok ==> (location.title is Some
            <==> location.address is Some) && (location.address matches Some(address)
            ==> address@.len() > 0),
        location.platform_data is None && context.base == json::no_fields() && context.first_only
            == json::no_fields() && (location.title is None && location.address is None
            || location.title is Some && (location.address matches Some(address) && address@.len()
            > 0)) ==> step_outcome(context, MessageContent::Location(location)) is Ok,
        step_outcome(context, MessageContent::Contact(contact)) is Ok
            ==> contact.phone_numbers@.len() == 1 && contact.phone_numbers@[0].label is None
            && contact.user_id is None && contact.emails@.len() == 0 && contact.organization is None,
        contact.platform_data is None && context.base == json::no_fields() && context.first_only
            == json::no_fields() && contact.phone_numbers@.len() == 1
            && contact.phone_numbers@[0].label is None && contact.user_id is None
            && contact.emails@.len() == 0 && contact.organization is None ==> step_outcome(
            context,
            MessageContent::Contact(contact),
        ) is Ok,
{
    if context.base == json::no_fields() && context.first_only == json::no_fields() {
        let payload = next_payload(context);
        assert(payload =~= json::no_fields());
        let own = location_members(location);
        assert forall|key: Seq<char>| !#[trigger] native::shares(payload, own, key) by {}
        let card = contact_members(contact);
        assert forall|key: Seq<char>| !#[trigger] native::shares(payload, card, key) by {}
    }
}

/// A draft holds one text and nothing that is kept for the first call.
pub proof fn law_drafts_hold_one_text(context: ContextView, content: Seq<MessageContent>)
    requires
        draft_outcome(context, content) is Ok,
    ensures
        content.len() == 1,
        content[0] is PlainText || content[0] is RichText,
        context.first_only == json::no_fields(),
{
}

} // verus!
