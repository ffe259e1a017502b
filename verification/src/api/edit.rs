//! Changing messages that were sent.
use crate::api::address;
use crate::api::address::{
    add_members, check_reference, telegram_chat_payload, telegram_message_ref,
};
use crate::api::capabilities;
use crate::api::capabilities::fits_in_message;
use crate::api::checklist;
use crate::api::checklist::telegram_input_checklist;
use crate::api::keyboard;
use crate::api::keyboard::telegram_editable_components;
use crate::api::layout;
use crate::api::layout::telegram_input_rich_layout;
use crate::api::media;
use crate::api::media::{
    add_media_fields, check_files, form_from_payload, one_value, Call, CallView,
    FormRequest, ResolvedFile,
};
use crate::api::outgoing;
use crate::api::outgoing::{
    has_default_policy, telegram_link_preview, ContextView, StepView,
};
use crate::api::request;
use crate::api::request::{make_call, Request, RequestView};
use crate::api::rich_text;
use crate::api::rich_text::telegram_rich_text_entities;
use crate::content::{
    DeliveryTime, Media, MessageContent, MessageOptions, MessageVisibility, NotificationPolicy,
    RichLayout,
};
use crate::conversation::MessageRef;
use crate::error;
use crate::error::{message, unsupported, Error, ErrorView};
use crate::json;
use crate::json::{Fields, Json, JsonView};
use crate::native;
use crate::native::{
    add_member, check_vacant, merge_optional_native, telegram_native_object, PlatformNativeData,
};
use crate::source;
use crate::source::{File, FileView};
use crate::telegram::Upload;
use vstd::prelude::*;

verus! {

// ---------------------------------------------------------------------------
// Address and options
// ---------------------------------------------------------------------------

/// How a message to be changed is addressed.
#[derive(Debug, Clone, Copy, PartialEq, Eq, Structural)]
pub enum TelegramEditAddress {
    Regular,
    Inline,
    Ephemeral,
}

/// The native members of a message reference.
pub open spec fn reference_native(message: MessageRef) -> Result<
    Option<Map<Seq<char>, JsonView>>,
    ErrorView,
> {
    match message.platform_data {
        None => Ok(None),
        Some(native) => match native::native_object_outcome(native, "message reference"@) {
            Ok(map) => Ok(Some(map)),
            Err(e) => Err(e),
        },
    }
}

/// The parameters that address a message to be changed, given its native
/// members.
pub open spec fn edit_address_with(
    message: MessageRef,
    native: Map<Seq<char>, JsonView>,
) -> Result<(Map<Seq<char>, JsonView>, TelegramEditAddress), ErrorView> {
    match json::text_in(native, "inline_message_id"@) {
        Some(id) => Ok(
            (
                json::no_fields().insert("inline_message_id"@, JsonView::Text(id)),
                TelegramEditAddress::Inline,
            ),
        ),
        None => match address::message_ref_outcome(message) {
            Err(e) => Err(e),
            Ok((chat, number)) => match address::chat_payload(message.conversation, chat) {
                Err(e) => Err(e),
                Ok(place) => {
                    let place = place.remove("message_thread_id"@).remove(
                        "direct_messages_topic_id"@,
                    );
                    if native.contains_key("receiver_user_id"@) || native.contains_key(
                        "ephemeral_message_id"@,
                    ) {
                        match json::i64_in(native, "receiver_user_id"@) {
                            None => error::refused(
                                "Telegram ephemeral message reference requires receiver_user_id"@,
                            ),
                            Some(receiver) => Ok(
                                (
                                    place.remove("business_connection_id"@).insert(
                                        "receiver_user_id"@,
                                        JsonView::Integer(receiver as int),
                                    ).insert(
                                        "ephemeral_message_id"@,
                                        JsonView::Integer(
                                            match json::i64_in(native, "ephemeral_message_id"@) {
                                                Some(id) => id as int,
                                                None => number as int,
                                            },
                                        ),
                                    ),
                                    TelegramEditAddress::Ephemeral,
                                ),
                            ),
                        }
                    } else {
                        match address::with_members(
                            place,
                            json::no_fields().insert(
                                "message_id"@,
                                JsonView::Integer(number as int),
                            ),
                        ) {
                            Err(e) => Err(e),
                            Ok(place) => Ok(
                                (
                                    address::with_copied(
                                        place,
                                        native,
                                        "business_connection_id"@,
                                    ),
                                    TelegramEditAddress::Regular,
                                ),
                            ),
                        }
                    }
                },
            },
        },
    }
}

/// The parameters that address a message to be changed.
pub open spec fn edit_address_outcome(message: MessageRef) -> Result<
    (Map<Seq<char>, JsonView>, TelegramEditAddress),
    ErrorView,
> {
    match address::reference_rule(message) {
        Err(e) => Err(e),
        Ok(_) => match reference_native(message) {
            Err(e) => Err(e),
            Ok(native) => edit_address_with(
                message,
                match native {
                    Some(map) => map,
                    None => json::no_fields(),
                },
            ),
        },
    }
}

/// Addresses a message to be changed.
pub fn telegram_edit_address(message_ref: &MessageRef) -> (result: Result<
    (Fields, TelegramEditAddress),
    Error,
>)
    ensures
        match result {
            Ok((payload, kind)) => edit_address_outcome(*message_ref) == Ok::<
                (Map<Seq<char>, JsonView>, TelegramEditAddress),
                ErrorView,
            >((json::fields(payload), kind)),
            Err(e) => edit_address_outcome(*message_ref) == Err::<
                (Map<Seq<char>, JsonView>, TelegramEditAddress),
                ErrorView,
            >(e@),
        },
{
    check_reference(message_ref)?;
    let native = match &message_ref.platform_data {
        Some(native) => telegram_native_object(native, "message reference")?,
        None => Fields::none(),
    };
    if let Some(id) = native.text_at("inline_message_id") {
        let mut payload = Fields::none();
        payload.put("inline_message_id", Json::text(id));
        return Ok((payload, TelegramEditAddress::Inline));
    }
    let (chat, number) = telegram_message_ref(message_ref)?;
    let mut payload = telegram_chat_payload(&message_ref.conversation, chat.as_str())?;
    let _ = payload.take("message_thread_id");
    let _ = payload.take("direct_messages_topic_id");
    if native.contains_key("receiver_user_id") || native.contains_key("ephemeral_message_id") {
        let receiver = match native.i64_at("receiver_user_id") {
            Some(receiver) => receiver,
            None => {
                return Err(
                    message("Telegram ephemeral message reference requires receiver_user_id"),
                );
            },
        };
        let ephemeral = match native.i64_at("ephemeral_message_id") {
            Some(id) => id,
            None => number,
        };
        let _ = payload.take("business_connection_id");
        payload.put("receiver_user_id", Json::integer(receiver));
        payload.put("ephemeral_message_id", Json::integer(ephemeral));
        Ok((payload, TelegramEditAddress::Ephemeral))
    } else {
        let mut own = Fields::none();
        own.put("message_id", Json::integer(number));
        let payload = add_members(payload, &own)?;
        let payload = address::copy_member(payload, &native, "business_connection_id");
        Ok((payload, TelegramEditAddress::Regular))
    }
}

/// A keyboard without rows.
pub open spec fn empty_keyboard() -> JsonView {
    JsonView::Object(
        json::no_fields().insert("inline_keyboard"@, JsonView::Array(Seq::empty())),
    )
}

/// A keyboard without rows.
pub fn make_empty_keyboard() -> (value: Json)
    ensures
        value@ == empty_keyboard(),
{
    let none: Vec<Json> = Vec::new();
    assert(json::views(none@) =~= Seq::<JsonView>::empty());
    let mut object = Fields::none();
    object.put("inline_keyboard", Json::array(none));
    Json::object(object)
}

/// The options can be given to a message that was sent.
pub open spec fn editable_options(options: MessageOptions) -> bool {
    &&& options.reply is None
    &&& options.notification is Default
    &&& !(options.visibility is PrivateTo)
    &&& !(options.mentions matches Some(mentions) && !outgoing::is_default_policy(mentions))
    &&& !options.protect_content
    &&& options.delivery_time is Immediate
    &&& options.idempotency_key is None
    &&& options.client_message_id is None
    &&& json::fields(options.metadata) == json::no_fields()
}

/// The markup that a message is given when it is changed.
pub open spec fn edit_markup_outcome(options: MessageOptions) -> Result<JsonView, ErrorView> {
    if !editable_options(options) {
        error::refused(
            "Telegram message edits do not support reply, delivery, visibility, mention, protection, idempotency, or metadata changes"@,
        )
    } else {
        match options.components {
            Some(components) => keyboard::editable_components_outcome(components),
            None => Ok(empty_keyboard()),
        }
    }
}

/// Accepts the options of a change and writes the markup that they ask for.
pub fn telegram_edit_options(options: &MessageOptions) -> (result: Result<Json, Error>)
    ensures
        error::shown(result) == edit_markup_outcome(*options),
{
    let policy_kept = match &options.mentions {
        Some(mentions) => has_default_policy(mentions),
        None => true,
    };
    let notified = match options.notification {
        NotificationPolicy::Default => true,
        _ => false,
    };
    let immediate = match options.delivery_time {
        DeliveryTime::Immediate => true,
        _ => false,
    };
    let open = match &options.visibility {
        MessageVisibility::PrivateTo(_) => false,
        _ => true,
    };
    if !(options.reply.is_none() && notified && open && policy_kept && !options.protect_content
        && immediate && options.idempotency_key.is_none() && options.client_message_id.is_none()
        && options.metadata.is_none()) {
        return Err(
            message(
                "Telegram message edits do not support reply, delivery, visibility, mention, protection, idempotency, or metadata changes",
            ),
        );
    }
    match &options.components {
        Some(components) => telegram_editable_components(components),
        None => Ok(make_empty_keyboard()),
    }
}

/// `payload` with the markup and native options of a change, none of them said
/// twice.
pub open spec fn with_edit_options(
    payload: Map<Seq<char>, JsonView>,
    markup: JsonView,
    native: Option<PlatformNativeData>,
) -> Result<Map<Seq<char>, JsonView>, ErrorView> {
    match native::added(payload, "reply_markup"@, markup, "edit options"@) {
        Err(e) => Err(e),
        Ok(marked) => native::optional_native_merged(marked, native, "edit options"@),
    }
}

fn add_edit_options(payload: Fields, markup: Json, native: &Option<PlatformNativeData>) -> (result:
    Result<Fields, Error>)
    ensures
        native::shown_fields(result) == with_edit_options(
            json::fields(payload),
            markup@,
            *native,
        ),
{
    let marked = add_member(payload, "reply_markup", markup, "edit options")?;
    merge_optional_native(marked, native, "edit options")
}

// ---------------------------------------------------------------------------
// Steps
// ---------------------------------------------------------------------------

/// What has to be done to change a message.
#[derive(Debug, PartialEq)]
pub enum EditStep {
    /// Make the call.
    Call(Request),
    /// Find the files, then make the call with them. `input` describes the
    /// media without its files.
    Media {
        payload: Fields,
        address: TelegramEditAddress,
        input: Fields,
        file: File,
        thumbnail: Option<File>,
        markup: Json,
    },
    /// Find the files of the layout, then make the call with it.
    Layout { payload: Fields, address: TelegramEditAddress, layout: RichLayout, markup: Json },
}

/// What a step says.
#[verifier::ext_equal]
pub enum EditStepView {
    Call(RequestView),
    Media {
        payload: Map<Seq<char>, JsonView>,
        address: TelegramEditAddress,
        input: Map<Seq<char>, JsonView>,
        file: FileView,
        thumbnail: Option<FileView>,
        markup: JsonView,
    },
    Layout {
        payload: Map<Seq<char>, JsonView>,
        address: TelegramEditAddress,
        layout: RichLayout,
        markup: JsonView,
    },
}

impl View for EditStep {
    type V = EditStepView;

    open spec fn view(&self) -> EditStepView {
        match *self {
            EditStep::Call(request) => EditStepView::Call(request@),
            EditStep::Media { payload, address, input, file, thumbnail, markup } => {
                EditStepView::Media {
                    payload: json::fields(payload),
                    address,
                    input: json::fields(input),
                    file: file@,
                    thumbnail: source::optional_file(thumbnail),
                    markup: markup@,
                }
            },
            EditStep::Layout { payload, address, layout, markup } => EditStepView::Layout {
                payload: json::fields(payload),
                address,
                layout,
                markup: markup@,
            },
        }
    }
}

/// What describes new media before its files are known.
pub open spec fn edit_input_outcome(name: Seq<char>, method: Seq<char>, media: Media) -> Result<
    Map<Seq<char>, JsonView>,
    ErrorView,
> {
    match media::media_fields(
        json::no_fields().insert("type"@, JsonView::Text(name)),
        method,
        media,
    ) {
        Err(e) => Err(e),
        Ok(own) => match native::optional_native_merged(
            own,
            media.platform_data,
            "edited media"@,
        ) {
            Err(e) => Err(e),
            Ok(all) => match media::files_rule(
                all,
                "media"@,
                media.thumbnail is Some,
                "edited media"@,
            ) {
                Err(e) => Err(e),
                Ok(_) => Ok(all),
            },
        },
    }
}

/// The step that gives a message new media.
pub open spec fn edit_media_step(
    place: Map<Seq<char>, JsonView>,
    address: TelegramEditAddress,
    name: Seq<char>,
    method: Seq<char>,
    media: Media,
    markup: JsonView,
) -> Result<EditStepView, ErrorView> {
    match edit_input_outcome(name, method, media) {
        Err(e) => Err(e),
        Ok(input) => Ok(
            EditStepView::Media {
                payload: place,
                address,
                input,
                file: media.file@,
                thumbnail: source::optional_file(media.thumbnail),
                markup,
            },
        ),
    }
}

fn make_edit_media_step(
    place: Fields,
    address: TelegramEditAddress,
    name: &str,
    method: &str,
    media: Media,
    markup: Json,
) -> (result: Result<EditStep, Error>)
    ensures
        error::shown(result) == edit_media_step(
            json::fields(place),
            address,
            name@,
            method@,
            media,
            markup@,
        ),
{
    let mut object = Fields::none();
    object.put("type", Json::text(name));
    let own = add_media_fields(object, method, &media)?;
    let input = merge_optional_native(own, &media.platform_data, "edited media")?;
    check_files(&input, "media", media.thumbnail.is_some(), "edited media")?;
    Ok(
        EditStep::Media {
            payload: place,
            address,
            input,
            file: media.file,
            thumbnail: media.thumbnail,
            markup,
        },
    )
}

/// The call that finishes a change that needs no files.
pub open spec fn edit_call(
    method: Seq<char>,
    payload: Map<Seq<char>, JsonView>,
    markup: JsonView,
    native: Option<PlatformNativeData>,
) -> Result<EditStepView, ErrorView> {
    match with_edit_options(payload, markup, native) {
        Ok(payload) => Ok(EditStepView::Call(request::call(method, payload))),
        Err(e) => Err(e),
    }
}

fn make_edit_call(method: &str, payload: Fields, markup: Json, native: &Option<PlatformNativeData>) -> (result:
    Result<EditStep, Error>)
    ensures
        error::shown(result) == edit_call(method@, json::fields(payload), markup@, *native),
{
    let payload = add_edit_options(payload, markup, native)?;
    Ok(EditStep::Call(make_call(method, payload)))
}

/// The call that gives a message a new text, where it fits in one message.
pub open spec fn edit_text_call(
    place: Map<Seq<char>, JsonView>,
    address: TelegramEditAddress,
    markup: JsonView,
    text: Seq<char>,
    entities: Option<Seq<JsonView>>,
    options: MessageOptions,
) -> Result<EditStepView, ErrorView> {
    let preview = match options.link_preview {
        Some(preview) => Some(outgoing::link_preview_view(preview)),
        None => None,
    };
    if !capabilities::text_fits(text) {
        error::refused("edited Telegram message exceeds 4096 UTF-16 code units"@)
    } else {
        match outgoing::text_payload(place, text, entities, preview) {
            Err(e) => Err(e),
            Ok(payload) => edit_call(
                edit_text_method(address),
                payload,
                markup,
                options.platform_data,
            ),
        }
    }
}

/// A text that a message is given stands in the parameters of the call.
pub proof fn lemma_text_edited(
    place: Map<Seq<char>, JsonView>,
    text: Seq<char>,
    entities: Option<Seq<JsonView>>,
    preview: Option<JsonView>,
    markup: JsonView,
    options: MessageOptions,
)
    requires
        outgoing::text_payload(place, text, entities, preview) is Ok,
    ensures
        with_edit_options(
            outgoing::text_payload(place, text, entities, preview)->Ok_0,
            markup,
            options.platform_data,
        ) matches Ok(all) ==> json::member(all, "text"@) == Some(JsonView::Text(text)),
{
    let written = outgoing::text_payload(place, text, entities, preview)->Ok_0;
    outgoing::lemma_text_written(place, text, entities, preview);
    if let Ok(marked) = native::added(written, "reply_markup"@, markup, "edit options"@) {
        if let Some(native) = options.platform_data {
            if let Ok(extra) = native::native_object_outcome(native, "edit options"@) {
                if native::merged(marked, extra, "edit options"@) is Ok {
                    native::lemma_merged_keeps(
                        marked,
                        extra,
                        "edit options"@ + " duplicates field "@,
                        "text"@,
                    );
                }
            }
        }
    }
}

fn make_edit_text_call(
    place: Fields,
    address: TelegramEditAddress,
    markup: Json,
    text: &str,
    entities: Option<Vec<Json>>,
    options: &MessageOptions,
) -> (result: Result<EditStep, Error>)
    ensures
        error::shown(result) == edit_text_call(
            json::fields(place),
            address,
            markup@,
            text@,
            match entities {
                Some(entities) => Some(json::views(entities@)),
                None => None,
            },
            *options,
        ),
{
    if !fits_in_message(text) {
        return Err(message("edited Telegram message exceeds 4096 UTF-16 code units"));
    }
    let preview = match &options.link_preview {
        Some(preview) => Some(telegram_link_preview(preview)),
        None => None,
    };
    let payload = outgoing::write_text_payload(place, text, entities, &preview)?;
    make_edit_call(text_method(address), payload, markup, &options.platform_data)
}

/// The method that changes the text of a message.
pub open spec fn edit_text_method(address: TelegramEditAddress) -> Seq<char> {
    if address is Ephemeral {
        "editEphemeralMessageText"@
    } else {
        "editMessageText"@
    }
}

/// What has to be done to give a message new content.
pub open spec fn edit_content_outcome(
    place: Map<Seq<char>, JsonView>,
    address: TelegramEditAddress,
    markup: JsonView,
    content: MessageContent,
    options: MessageOptions,
) -> Result<EditStepView, ErrorView> {
    match content {
        MessageContent::PlainText(text) => edit_text_call(
            place,
            address,
            markup,
            text@,
            None,
            options,
        ),
        MessageContent::RichText(text) => match rich_text::entities_outcome(text) {
            Err(e) => Err(e),
            Ok(entities) => edit_text_call(
                place,
                address,
                markup,
                text.text@,
                Some(entities),
                options,
            ),
        },
        MessageContent::RichLayout(layout) => if address is Ephemeral {
            error::refused("Telegram ephemeral messages cannot contain rich layouts"@)
        } else {
            Ok(EditStepView::Layout { payload: place, address, layout, markup })
        },
        MessageContent::Checklist(checklist) => if !(address is Regular) {
            error::refused("Telegram can edit checklists only in regular business messages"@)
        } else if !place.contains_key("business_connection_id"@) {
            error::refused("Telegram checklist edits require business_connection_id"@)
        } else {
            match checklist::input_checklist_outcome(checklist) {
                Err(e) => Err(e),
                Ok(value) => match native::added(
                    place,
                    "checklist"@,
                    value,
                    "message content"@,
                ) {
                    Err(e) => Err(e),
                    Ok(payload) => edit_call(
                        "editMessageChecklist"@,
                        payload,
                        markup,
                        options.platform_data,
                    ),
                },
            }
        },
        MessageContent::Image(media) => edit_media_step(
            place,
            address,
            "photo"@,
            "sendPhoto"@,
            media,
            markup,
        ),
        MessageContent::Video(media) => edit_media_step(
            place,
            address,
            "video"@,
            "sendVideo"@,
            media,
            markup,
        ),
        MessageContent::Audio(media) => edit_media_step(
            place,
            address,
            "audio"@,
            "sendAudio"@,
            media,
            markup,
        ),
        MessageContent::Animation(media) => edit_media_step(
            place,
            address,
            "animation"@,
            "sendAnimation"@,
            media,
            markup,
        ),
        MessageContent::File(media) => edit_media_step(
            place,
            address,
            "document"@,
            "sendDocument"@,
            media,
            markup,
        ),
        MessageContent::PlatformNative(native) => match native::native_object_outcome(
            native,
            "edited message content"@,
        ) {
            Err(e) => Err(e),
            Ok(members) => match json::text_in(members, "method"@) {
                None => error::refused("native edited message content requires a method"@),
                Some(method) => match native::merged(
                    place,
                    members.remove("method"@),
                    "native edit"@,
                ) {
                    Err(e) => Err(e),
                    Ok(payload) => edit_call(method, payload, markup, options.platform_data),
                },
            },
        },
        _ => error::unsupported_view("editing a Telegram message to this content kind"@),
    }
}

/// What has to be done to change a message.
pub open spec fn edit_outcome(
    message: MessageRef,
    content: Seq<MessageContent>,
    options: MessageOptions,
) -> Result<EditStepView, ErrorView> {
    if content.len() != 1 {
        error::refused("Telegram can replace a message with exactly one content item"@)
    } else {
        match edit_address_outcome(message) {
            Err(e) => Err(e),
            Ok((place, address)) => match edit_markup_outcome(options) {
                Err(e) => Err(e),
                Ok(markup) => if options.visibility is Ephemeral && !(address is Ephemeral) {
                    error::refused(
                        "MessageVisibility::Ephemeral requires an ephemeral Telegram message reference"@,
                    )
                } else {
                    edit_content_outcome(place, address, markup, content[0], options)
                },
            },
        }
    }
}

fn is_ephemeral(address: TelegramEditAddress) -> (result: bool)
    ensures
        result == (address is Ephemeral),
{
    match address {
        TelegramEditAddress::Ephemeral => true,
        _ => false,
    }
}

fn is_regular(address: TelegramEditAddress) -> (result: bool)
    ensures
        result == (address is Regular),
{
    match address {
        TelegramEditAddress::Regular => true,
        _ => false,
    }
}

fn text_method(address: TelegramEditAddress) -> (method: &'static str)
    ensures
        method@ == edit_text_method(address),
{
    if is_ephemeral(address) {
        "editEphemeralMessageText"
    } else {
        "editMessageText"
    }
}

fn edit_content(
    place: Fields,
    address: TelegramEditAddress,
    markup: Json,
    content: MessageContent,
    options: &MessageOptions,
) -> (result: Result<EditStep, Error>)
    ensures
        error::shown(result) == edit_content_outcome(
            json::fields(place),
            address,
            markup@,
            content,
            *options,
        ),
{
    match content {
        MessageContent::PlainText(text) => make_edit_text_call(
            place,
            address,
            markup,
            text.as_str(),
            None,
            options,
        ),
        MessageContent::RichText(text) => {
            let entities = telegram_rich_text_entities(&text)?;
            make_edit_text_call(
                place,
                address,
                markup,
                text.text.as_str(),
                Some(entities),
                options,
            )
        },
        MessageContent::RichLayout(layout) => {
            if is_ephemeral(address) {
                return Err(message("Telegram ephemeral messages cannot contain rich layouts"));
            }
            Ok(EditStep::Layout { payload: place, address, layout, markup })
        },
        MessageContent::Checklist(checklist) => {
            if !is_regular(address) {
                return Err(
                    message("Telegram can edit checklists only in regular business messages"),
                );
            }
            if !place.contains_key("business_connection_id") {
                return Err(message("Telegram checklist edits require business_connection_id"));
            }
            let value = telegram_input_checklist(&checklist)?;
            let payload = add_member(place, "checklist", value, "message content")?;
            make_edit_call("editMessageChecklist", payload, markup, &options.platform_data)
        },
        MessageContent::Image(media) => make_edit_media_step(
            place,
            address,
            "photo",
            "sendPhoto",
            media,
            markup,
        ),
        MessageContent::Video(media) => make_edit_media_step(
            place,
            address,
            "video",
            "sendVideo",
            media,
            markup,
        ),
        MessageContent::Audio(media) => make_edit_media_step(
            place,
            address,
            "audio",
            "sendAudio",
            media,
            markup,
        ),
        MessageContent::Animation(media) => make_edit_media_step(
            place,
            address,
            "animation",
            "sendAnimation",
            media,
            markup,
        ),
        MessageContent::File(media) => make_edit_media_step(
            place,
            address,
            "document",
            "sendDocument",
            media,
            markup,
        ),
        MessageContent::PlatformNative(native) => {
            let mut members = telegram_native_object(&native, "edited message content")?;
            let named = members.take("method");
            let method = match &named {
                Some(value) => value.as_str(),
                None => None,
            };
            match method {
                None => Err(message("native edited message content requires a method")),
                Some(method) => {
                    let payload = native::merge_fields(place, &members, "native edit")?;
                    make_edit_call(method, payload, markup, &options.platform_data)
                },
            }
        },
        _ => Err(unsupported("editing a Telegram message to this content kind")),
    }
}

/// Works out what has to be done to change a message.
pub fn telegram_edit_outgoing(
    message_ref: &MessageRef,
    content: Vec<MessageContent>,
    options: &MessageOptions,
) -> (result: Result<EditStep, Error>)
    ensures
        error::shown(result) == edit_outcome(*message_ref, content@, *options),
{
    let ghost all = content@;
    let mut content = content;
    if content.len() != 1 {
        return Err(message("Telegram can replace a message with exactly one content item"));
    }
    let (place, address) = telegram_edit_address(message_ref)?;
    let markup = telegram_edit_options(options)?;
    let ephemeral = match &options.visibility {
        MessageVisibility::Ephemeral => true,
        _ => false,
    };
    if ephemeral && !is_ephemeral(address) {
        return Err(
            message(
                "MessageVisibility::Ephemeral requires an ephemeral Telegram message reference",
            ),
        );
    }
    match content.pop() {
        Some(piece) => {
            assert(piece == all[0]);
            edit_content(place, address, markup, piece, options)
        },
        None => Err(message("Telegram can replace a message with exactly one content item")),
    }
}

// ---------------------------------------------------------------------------
// New media
// ---------------------------------------------------------------------------

/// The parameters of a change to new media once its own file is known. Only a
/// regular message can be given an upload.
pub open spec fn edit_media_payload(
    payload: Map<Seq<char>, JsonView>,
    address: TelegramEditAddress,
    markup: JsonView,
    native: Option<PlatformNativeData>,
    file: ResolvedFile,
) -> Result<Map<Seq<char>, JsonView>, ErrorView> {
    match with_edit_options(payload, markup, native) {
        Err(e) => Err(e),
        Ok(payload) => if file is Upload && !(address is Regular) {
            error::refused("Telegram inline and ephemeral message edits cannot upload new files"@)
        } else {
            match native::vacant(payload, "media"@, "edited media"@) {
                Err(e) => Err(e),
                Ok(_) => Ok(payload),
            }
        },
    }
}

/// Writes the parameters of a change to new media once its own file is known.
pub fn prepare_edit_media(
    payload: Fields,
    address: TelegramEditAddress,
    markup: Json,
    native: &Option<PlatformNativeData>,
    file: &ResolvedFile,
) -> (result: Result<Fields, Error>)
    ensures
        native::shown_fields(result) == edit_media_payload(
            json::fields(payload),
            address,
            markup@,
            *native,
            *file,
        ),
{
    let payload = add_edit_options(payload, markup, native)?;
    let uploads = match file {
        ResolvedFile::Upload(_) => true,
        ResolvedFile::Remote(_) => false,
    };
    if uploads && !is_regular(address) {
        return Err(message("Telegram inline and ephemeral message edits cannot upload new files"));
    }
    check_vacant(&payload, "media", "edited media")?;
    Ok(payload)
}

/// The method that gives a message new media.
pub open spec fn edit_media_method(address: TelegramEditAddress) -> Seq<char> {
    if address is Ephemeral {
        "editEphemeralMessageMedia"@
    } else {
        "editMessageMedia"@
    }
}

/// The call that gives a message new media from its files.
pub open spec fn edit_media_call_outcome(
    payload: Map<Seq<char>, JsonView>,
    address: TelegramEditAddress,
    input: Map<Seq<char>, JsonView>,
    file: ResolvedFile,
    thumbnail: Option<ResolvedFile>,
) -> Result<CallView, ErrorView> {
    let method = edit_media_method(address);
    match file {
        ResolvedFile::Remote(reference) => {
            let own = input.insert("media"@, JsonView::Text(reference@));
            match thumbnail {
                Some(ResolvedFile::Upload(_)) => error::refused(
                    "a local Telegram thumbnail requires a local primary media file"@,
                ),
                Some(ResolvedFile::Remote(small)) => Ok(
                    CallView::Document(
                        request::call(
                            method,
                            payload.insert(
                                "media"@,
                                JsonView::Object(
                                    own.insert("thumbnail"@, JsonView::Text(small@)),
                                ),
                            ),
                        ),
                    ),
                ),
                None => Ok(
                    CallView::Document(
                        request::call(method, payload.insert("media"@, JsonView::Object(own))),
                    ),
                ),
            }
        },
        ResolvedFile::Upload(upload) => {
            let own = input.insert("media"@, JsonView::Text("attach://media_file"@));
            let (described, uploads) = match thumbnail {
                Some(ResolvedFile::Upload(small)) => (
                    own.insert("thumbnail"@, JsonView::Text("attach://thumbnail"@)),
                    seq![("media_file"@, upload), ("thumbnail"@, small)],
                ),
                Some(ResolvedFile::Remote(small)) => (
                    own.insert("thumbnail"@, JsonView::Text(small@)),
                    seq![("media_file"@, upload)],
                ),
                None => (own, seq![("media_file"@, upload)]),
            };
            Ok(
                CallView::Form {
                    method,
                    values: media::present(payload),
                    added: seq![("media"@, JsonView::Object(described))],
                    uploads,
                },
            )
        },
    }
}

/// Makes the call that gives a message new media from its files.
pub fn telegram_edit_media_v2(
    payload: Fields,
    address: TelegramEditAddress,
    input: Fields,
    file: ResolvedFile,
    thumbnail: Option<ResolvedFile>,
) -> (result: Result<Call, Error>)
    ensures
        error::shown(result) == edit_media_call_outcome(
            json::fields(payload),
            address,
            json::fields(input),
            file,
            thumbnail,
        ),
{
    let method: &str = if is_ephemeral(address) {
        "editEphemeralMessageMedia"
    } else {
        "editMessageMedia"
    };
    let mut input = input;
    match file {
        ResolvedFile::Remote(reference) => {
            input.put("media", Json::text(reference.as_str()));
            match thumbnail {
                Some(ResolvedFile::Upload(_)) => {
                    return Err(
                        message("a local Telegram thumbnail requires a local primary media file"),
                    );
                },
                Some(ResolvedFile::Remote(small)) => {
                    input.put("thumbnail", Json::text(small.as_str()));
                },
                None => {},
            }
            let mut payload = payload;
            payload.put("media", Json::object(input));
            Ok(Call::Document(make_call(method, payload)))
        },
        ResolvedFile::Upload(upload) => {
            input.put("media", Json::text("attach://media_file"));
            let mut uploads: Vec<(String, Upload)> = Vec::new();
            uploads.push(("media_file".to_owned(), upload));
            assert(media::named(uploads@) =~= seq![("media_file"@, upload)]);
            match thumbnail {
                Some(ResolvedFile::Upload(small)) => {
                    input.put("thumbnail", Json::text("attach://thumbnail"));
                    uploads.push(("thumbnail".to_owned(), small));
                    assert(media::named(uploads@) =~= seq![
                        ("media_file"@, upload),
                        ("thumbnail"@, small),
                    ]);
                },
                Some(ResolvedFile::Remote(small)) => {
                    input.put("thumbnail", Json::text(small.as_str()));
                },
                None => {},
            }
            Ok(
                Call::Form(
                    FormRequest {
                        method: method.to_owned(),
                        values: form_from_payload(&payload),
                        added: one_value("media", Json::object(input)),
                        uploads,
                    },
                ),
            )
        },
    }
}

// ---------------------------------------------------------------------------
// New layouts
// ---------------------------------------------------------------------------

/// Whether a document is a keyboard without rows.
fn is_empty_keyboard(value: &Json) -> (result: bool)
    ensures
        result == (value@ == empty_keyboard()),
{
    broadcast use json::lemma_json_view;

    match value {
        Json::Object(map) => {
            let n: usize = map.len();
            let ghost members = json::fields(*map);
            let ghost expected = empty_keyboard()->Object_0;
            match map.array_at("inline_keyboard") {
                Some(rows) => {
                    let empty = rows.len() == 0;
                    proof {
                        assert(members.contains_key("inline_keyboard"@));
                        if n == 1 && empty {
                            assert(json::views(rows@) =~= Seq::<JsonView>::empty());
                            assert forall|k: Seq<char>| members.contains_key(k) implies k
                                == "inline_keyboard"@ by {
                                assert(map@.dom().contains(k));
                                assert(map@.dom().contains("inline_keyboard"@));
                                let i = choose|i: int|
                                    0 <= i < map.keys().len() && #[trigger] map.keys()[i] == k;
                                let j = choose|j: int|
                                    0 <= j < map.keys().len() && #[trigger] map.keys()[j]
                                        == "inline_keyboard"@;
                            }
                            assert(members =~= expected);
                        }
                        assert(value@ == JsonView::Object(members));
                        assert(empty_keyboard() == JsonView::Object(expected));
                        if members == expected {
                            assert(members["inline_keyboard"@] == JsonView::Array(Seq::empty()));
                            assert(json::views(rows@).len() == 0);
                            assert(empty);
                            if n > 1 {
                                let a = map.keys()[0];
                                let b = map.keys()[1];
                                assert(map@.dom().contains(a) && map@.dom().contains(b));
                                assert(members.contains_key(a) && members.contains_key(b));
                                assert(expected.contains_key(a) && expected.contains_key(b));
                                crate::text::lemma_before_irreflexive(a);
                            }
                            if n == 0 {
                                assert(map@.dom().contains("inline_keyboard"@));
                            }
                        }
                    }
                    n == 1 && empty
                },
                None => {
                    assert(members != expected) by {
                        assert(expected.contains_key("inline_keyboard"@));
                        assert(expected["inline_keyboard"@] == JsonView::Array(Seq::empty()));
                    }
                    false
                },
            }
        },
        _ => false,
    }
}

/// The call that gives a message a new layout whose files are uploaded under
/// the given names. Its buttons become the markup, unless the options have one.
pub open spec fn edit_layout_outcome(
    payload: Map<Seq<char>, JsonView>,
    address: TelegramEditAddress,
    layout: RichLayout,
    uploads: Seq<(Seq<char>, Upload)>,
    markup: JsonView,
    native: Option<PlatformNativeData>,
) -> Result<CallView, ErrorView> {
    if uploads.len() > 0 && !(address is Regular) {
        error::refused("Telegram inline rich-message edits cannot upload new files"@)
    } else {
        match layout::rich_layout_outcome(layout) {
            Err(e) => Err(e),
            Ok((rich, own_markup)) => if own_markup is Some && markup != empty_keyboard() {
                error::refused(
                    "Telegram rich-layout actions conflict with MessageOptions components"@,
                )
            } else {
                match with_edit_options(
                    payload,
                    match own_markup {
                        Some(own) => own,
                        None => markup,
                    },
                    native,
                ) {
                    Err(e) => Err(e),
                    Ok(payload) => match native::vacant(
                        payload,
                        "rich_message"@,
                        "message content"@,
                    ) {
                        Err(e) => Err(e),
                        Ok(_) => Ok(
                            if uploads.len() == 0 {
                                CallView::Document(
                                    request::call(
                                        "editMessageText"@,
                                        payload.insert("rich_message"@, JsonView::Object(rich)),
                                    ),
                                )
                            } else {
                                CallView::Form {
                                    method: "editMessageText"@,
                                    values: media::present(payload),
                                    added: seq![("rich_message"@, JsonView::Object(rich))],
                                    uploads,
                                }
                            },
                        ),
                    },
                }
            },
        }
    }
}

/// Makes the call that gives a message a new layout.
pub fn telegram_edit_rich_layout(
    payload: Fields,
    address: TelegramEditAddress,
    layout: RichLayout,
    uploads: Vec<(String, Upload)>,
    markup: Json,
    native: &Option<PlatformNativeData>,
) -> (result: Result<Call, Error>)
    ensures
        error::shown(result) == edit_layout_outcome(
            json::fields(payload),
            address,
            layout,
            media::named(uploads@),
            markup@,
            *native,
        ),
{
    if uploads.len() > 0 && !is_regular(address) {
        return Err(message("Telegram inline rich-message edits cannot upload new files"));
    }
    let (rich, own_markup) = telegram_input_rich_layout(layout)?;
    let markup = match own_markup {
        Some(own) => {
            if !is_empty_keyboard(&markup) {
                return Err(
                    message("Telegram rich-layout actions conflict with MessageOptions components"),
                );
            }
            own
        },
        None => markup,
    };
    let mut payload = add_edit_options(payload, markup, native)?;
    check_vacant(&payload, "rich_message", "message content")?;
    if uploads.len() == 0 {
        payload.put("rich_message", rich);
        Ok(Call::Document(make_call("editMessageText", payload)))
    } else {
        Ok(
            Call::Form(
                FormRequest {
                    method: "editMessageText".to_owned(),
                    values: form_from_payload(&payload),
                    added: one_value("rich_message", rich),
                    uploads,
                },
            ),
        )
    }
}

// ---------------------------------------------------------------------------
// Laws
// ---------------------------------------------------------------------------

proof fn lemma_input_named(name: Seq<char>, method: Seq<char>, media: Media)
    requires
        edit_input_outcome(name, method, media) is Ok,
    ensures
        ({
            let input = edit_input_outcome(name, method, media)->Ok_0;
            &&& json::text_in(input, "type"@) == Some(name)
            &&& media.caption matches Some(caption) ==> json::text_in(input, "caption"@) == Some(
                caption.text@,
            )
            &&& media.duration matches Some(span) ==> json::u64_in(input, "duration"@) == Some(
                span.seconds,
            )
        }),
{
    let start = json::no_fields().insert("type"@, JsonView::Text(name));
    media::law_media_are_described(start, method, media);
    let own = media::media_fields(start, method, media)->Ok_0;
    native::lemma_optional_keeps(own, media.platform_data, "edited media"@, "type"@);
    native::lemma_optional_keeps(own, media.platform_data, "edited media"@, "caption"@);
    native::lemma_optional_keeps(own, media.platform_data, "edited media"@, "duration"@);
}

/// Media that a message is given is called what the field is called under
/// which the same media would be sent, and its file and its thumbnail are
/// the same: so different sorts of media are called
/// differently.
pub proof fn law_edits_agree_with_sending(
    message: MessageRef,
    content: MessageContent,
    options: MessageOptions,
    context: ContextView,
)
    requires
        edit_outcome(message, seq![content], options) is Ok,
        outgoing::step_outcome(context, content) is Ok,
        content is Image || content is Video || content is Audio || content is Animation
            || content is File,
    ensures
        edit_outcome(message, seq![content], options) matches Ok(
            EditStepView::Media { input, file, thumbnail, .. },
        ) && (outgoing::step_outcome(context, content) matches Ok(
            StepView::Media { field, file: sent, thumbnail: small, .. },
        ) && json::text_in(input, "type"@) == Some(field) && file == sent && thumbnail == small),
{
    outgoing::law_media_are_sent_as_they_are(context, content);
    law_edited_media_are_what_they_are(message, content, options);
}

/// A picture that a message is given is handed to Telegram as a picture, a
/// video as a video, and so on, with its own file.
pub proof fn law_edited_media_are_what_they_are(
    message: MessageRef,
    content: MessageContent,
    options: MessageOptions,
)
    requires
        edit_outcome(message, seq![content], options) is Ok,
    ensures
        ({
            let step = edit_outcome(message, seq![content], options)->Ok_0;
            &&& content matches MessageContent::Image(media) ==> gives_media(step, "photo"@, media)
            &&& content matches MessageContent::Video(media) ==> gives_media(step, "video"@, media)
            &&& content matches MessageContent::Audio(media) ==> gives_media(step, "audio"@, media)
            &&& content matches MessageContent::Animation(media) ==> gives_media(step, "animation"@, media)
            &&& content matches MessageContent::File(media) ==> gives_media(step, "document"@, media)
        }),
{
    match content {
        MessageContent::Image(media) => lemma_input_named("photo"@, "sendPhoto"@, media),
        MessageContent::Video(media) => lemma_input_named("video"@, "sendVideo"@, media),
        MessageContent::Audio(media) => lemma_input_named("audio"@, "sendAudio"@, media),
        MessageContent::Animation(media) => lemma_input_named("animation"@, "sendAnimation"@, media),
        MessageContent::File(media) => lemma_input_named("document"@, "sendDocument"@, media),
        _ => {},
    }
}

/// The step gives a message the media under the name.
pub open spec fn gives_media(step: EditStepView, name: Seq<char>, media: Media) -> bool {
    &&& step matches EditStepView::Media { input, file, thumbnail, .. }
    &&& json::text_in(input, "type"@) == Some(name)
    &&& file == media.file@
    &&& thumbnail == source::optional_file(media.thumbnail)
    &&& media.caption matches Some(caption) ==> json::text_in(input, "caption"@) == Some(
        caption.text@,
    )
    &&& media.duration matches Some(span) ==> json::u64_in(input, "duration"@) == Some(
        span.seconds,
    )
}

proof fn lemma_edit_parameter(
    method: Seq<char>,
    payload: Map<Seq<char>, JsonView>,
    markup: JsonView,
    native: Option<PlatformNativeData>,
    key: Seq<char>,
)
    requires
        with_edit_options(payload, markup, native) is Ok,
    ensures
        json::member(payload, key) matches Some(value) ==> (!(value is Null) ==> json::member(
            request::call(method, with_edit_options(payload, markup, native)->Ok_0).payload,
            key,
        ) == Some(json::stripped(value))),
        !(markup is Null) ==> json::member(
            request::call(method, with_edit_options(payload, markup, native)->Ok_0).payload,
            "reply_markup"@,
        ) == Some(json::stripped(markup)),
{
    let marked = native::added(payload, "reply_markup"@, markup, "edit options"@)->Ok_0;
    let all = with_edit_options(payload, markup, native)->Ok_0;
    native::lemma_optional_keeps(marked, native, "edit options"@, key);
    native::lemma_optional_keeps(marked, native, "edit options"@, "reply_markup"@);
    request::lemma_call_member(method, all, key);
    request::lemma_call_member(method, all, "reply_markup"@);
}

proof fn lemma_edit_keys()
    ensures
        "text"@.len() == 4,
        "entities"@.len() == 8,
        "link_preview_options"@.len() == 20,
        "reply_markup"@.len() == 12,
        "checklist"@.len() == 9,
        "message_id"@.len() == 10,
        "chat_id"@.len() == 7,
        "inline_message_id"@.len() == 17,
        "receiver_user_id"@.len() == 16,
        "ephemeral_message_id"@.len() == 20,
        "business_connection_id"@.len() == 22,
        "message_thread_id"@.len() == 17,
        "direct_messages_topic_id"@.len() == 24,
        "link_preview_options"@ != "ephemeral_message_id"@,
        "inline_message_id"@ != "message_thread_id"@,
{
    reveal_strlit("text");
    reveal_strlit("entities");
    reveal_strlit("link_preview_options");
    reveal_strlit("reply_markup");
    reveal_strlit("checklist");
    reveal_strlit("message_id");
    reveal_strlit("chat_id");
    reveal_strlit("inline_message_id");
    reveal_strlit("receiver_user_id");
    reveal_strlit("ephemeral_message_id");
    reveal_strlit("business_connection_id");
    reveal_strlit("message_thread_id");
    reveal_strlit("direct_messages_topic_id");
    assert("link_preview_options"@[0] != "ephemeral_message_id"@[0]);
    assert("inline_message_id"@[0] != "message_thread_id"@[0]);
}

/// A text that a message is given is the new text, said by the method that
/// changes texts: that for ephemeral messages where the message is one. The
/// message is the one that was named, and the keyboard the one that was asked
/// for; without one the old keyboard goes.
pub proof fn law_edited_texts_are_what_they_are(
    message: MessageRef,
    content: MessageContent,
    options: MessageOptions,
)
    requires
        edit_outcome(message, seq![content], options) is Ok,
        content is PlainText || content is RichText,
    ensures
        ({
            let (place, address) = edit_address_outcome(message)->Ok_0;
            &&& edit_address_outcome(message) is Ok
            &&& edit_outcome(message, seq![content], options) matches Ok(EditStepView::Call(call))
            &&& call.method == if address is Ephemeral {
                "editEphemeralMessageText"@
            } else {
                "editMessageText"@
            }
            &&& content matches MessageContent::PlainText(text) ==> json::text_in(
                call.payload,
                "text"@,
            ) == Some(text@)
            &&& content matches MessageContent::RichText(text) ==> json::text_in(
                call.payload,
                "text"@,
            ) == Some(text.text@) && (rich_text::entities_outcome(text) matches Ok(entities)
                && json::member(call.payload, "entities"@) == Some(
                json::stripped(JsonView::Array(entities)),
            ))
            &&& json::i64_in(place, "message_id"@) matches Some(number) ==> json::i64_in(
                call.payload,
                "message_id"@,
            ) == Some(number)
            &&& json::text_in(place, "inline_message_id"@) matches Some(id) ==> json::text_in(
                call.payload,
                "inline_message_id"@,
            ) == Some(id)
            &&& options.components is None ==> (json::object_in(call.payload, "reply_markup"@) matches
                Some(keyboard) && (json::array_in(keyboard, "inline_keyboard"@) matches Some(rows)
                && rows.len() == 0))
        }),
{
    lemma_edit_keys();
    let (place, address) = edit_address_outcome(message)->Ok_0;
    let markup = edit_markup_outcome(options)->Ok_0;
    let preview = match options.link_preview {
        Some(preview) => Some(outgoing::link_preview_view(preview)),
        None => None,
    };
    let (text, entities) = match content {
        MessageContent::PlainText(text) => (text@, None),
        MessageContent::RichText(text) => (
            text.text@,
            Some(rich_text::entities_outcome(text)->Ok_0),
        ),
        _ => (Seq::empty(), None),
    };
    let own = outgoing::text_members(text, entities, preview);
    let written = outgoing::text_payload(place, text, entities, preview)->Ok_0;
    let method = edit_text_method(address);
    let complaint = "message content"@ + " duplicates field "@;
    native::lemma_merged_keeps(place, own, complaint, "text"@);
    native::lemma_merged_keeps(place, own, complaint, "entities"@);
    native::lemma_merged_keeps(place, own, complaint, "message_id"@);
    native::lemma_merged_keeps(place, own, complaint, "inline_message_id"@);
    lemma_edit_parameter(method, written, markup, options.platform_data, "text"@);
    lemma_edit_parameter(method, written, markup, options.platform_data, "entities"@);
    lemma_edit_parameter(method, written, markup, options.platform_data, "message_id"@);
    lemma_edit_parameter(method, written, markup, options.platform_data, "inline_message_id"@);
    if options.components is None {
        let keyboard = empty_keyboard()->Object_0;
        json::lemma_stripped_member(keyboard, "inline_keyboard"@);
        assert(json::stripped(JsonView::Array(Seq::empty())) is Array) by {
            reveal_with_fuel(json::stripped, 2);
        }
    }
}

/// A message to be changed is the one that the reference names: the inline
/// message where its native data names one, and otherwise the message with its
/// number in its chat; an ephemeral one by its receiver.
pub proof fn law_edits_find_the_message(message: MessageRef)
    requires
        edit_address_outcome(message) is Ok,
    ensures
        ({
            let (place, address) = edit_address_outcome(message)->Ok_0;
            let native = match message.platform_data {
                Some(native) => match native.data@ {
                    JsonView::Object(members) => members,
                    _ => json::no_fields(),
                },
                None => json::no_fields(),
            };
            &&& address is Inline <==> json::text_in(native, "inline_message_id"@) is Some
            &&& address is Inline ==> json::text_in(place, "inline_message_id"@) == json::text_in(
                native,
                "inline_message_id"@,
            )
            &&& address is Regular ==> (address::message_ref_outcome(message) matches Ok(
                (chat, number),
            ) && json::i64_in(place, "message_id"@) == Some(number))
            &&& address is Ephemeral ==> json::i64_in(native, "receiver_user_id"@) is Some
                && json::i64_in(place, "receiver_user_id"@) == json::i64_in(
                native,
                "receiver_user_id"@,
            ) && (json::i64_in(native, "ephemeral_message_id"@) matches Some(id) ==> json::i64_in(
                place,
                "ephemeral_message_id"@,
            ) == Some(id))
            &&& address is Ephemeral <==> json::text_in(native, "inline_message_id"@) is None && (
            native.contains_key("receiver_user_id"@) || native.contains_key(
                "ephemeral_message_id"@,
            ))
        }),
{
    lemma_edit_keys();
    let native = match reference_native(message)->Ok_0 {
        Some(map) => map,
        None => json::no_fields(),
    };
    if json::text_in(native, "inline_message_id"@) is None {
        let (chat, number) = address::message_ref_outcome(message)->Ok_0;
        let place = address::chat_payload(message.conversation, chat)->Ok_0.remove(
            "message_thread_id"@,
        ).remove("direct_messages_topic_id"@);
        let own = json::no_fields().insert("message_id"@, JsonView::Integer(number as int));
        if !(native.contains_key("receiver_user_id"@) || native.contains_key(
            "ephemeral_message_id"@,
        )) {
            address::lemma_members_kept(place, own, "message_id"@);
        }
    }
}

/// New media is given by the method that changes media: that for ephemeral
/// messages where the message is one. A file that Telegram can find is named in
/// the media, and one that it cannot is uploaded and referred to from there.
pub proof fn law_new_media_are_given(
    payload: Map<Seq<char>, JsonView>,
    address: TelegramEditAddress,
    input: Map<Seq<char>, JsonView>,
    file: ResolvedFile,
    thumbnail: Option<ResolvedFile>,
    name: Seq<char>,
)
    requires
        edit_media_call_outcome(payload, address, input, file, thumbnail) is Ok,
        json::text_in(input, "type"@) == Some(name),
    ensures
        ({
            let call = edit_media_call_outcome(payload, address, input, file, thumbnail)->Ok_0;
            let method = if address is Ephemeral {
                "editEphemeralMessageMedia"@
            } else {
                "editMessageMedia"@
            };
            &&& file matches ResolvedFile::Remote(reference) ==> {
                &&& call matches CallView::Document(request)
                &&& request.method == method
                &&& json::object_in(request.payload, "media"@) matches Some(media)
                &&& json::text_in(media, "media"@) == Some(reference@)
                &&& json::text_in(media, "type"@) == Some(name)
            }
            &&& file matches ResolvedFile::Upload(upload) ==> {
                &&& call matches CallView::Form { method: own, added, uploads, .. }
                &&& own == method
                &&& uploads.len() > 0
                &&& uploads[0].1 == upload
                &&& added.len() == 1
                &&& added[0].0 == "media"@
                &&& added[0].1 matches JsonView::Object(media)
                &&& json::text_in(media, "media"@) == Some("attach://"@ + uploads[0].0)
                &&& json::text_in(media, "type"@) == Some(name)
                &&& thumbnail matches Some(ResolvedFile::Upload(small)) ==> uploads.len() == 2
                    && uploads[1].1 == small && json::text_in(media, "thumbnail"@) == Some(
                    "attach://"@ + uploads[1].0,
                )
            }
        }),
{
    lemma_media_keys();
    reveal_strlit("attach://media_file");
    reveal_strlit("attach://thumbnail");
    reveal_strlit("attach://");
    reveal_strlit("media_file");
    reveal_strlit("thumbnail");
    assert("attach://media_file"@ =~= "attach://"@ + "media_file"@);
    assert("attach://thumbnail"@ =~= "attach://"@ + "thumbnail"@);
    let method = edit_media_method(address);
    if let ResolvedFile::Remote(reference) = file {
        let own = input.insert("media"@, JsonView::Text(reference@));
        let media = match thumbnail {
            Some(ResolvedFile::Remote(small)) => own.insert(
                "thumbnail"@,
                JsonView::Text(small@),
            ),
            _ => own,
        };
        let all = payload.insert("media"@, JsonView::Object(media));
        request::lemma_call_member(method, all, "media"@);
        json::lemma_stripped_member(media, "media"@);
        json::lemma_stripped_member(media, "type"@);
    }
}

proof fn lemma_media_keys()
    ensures
        "media"@.len() == 5,
        "type"@.len() == 4,
        "thumbnail"@.len() == 9,
{
    reveal_strlit("media");
    reveal_strlit("type");
    reveal_strlit("thumbnail");
}

/// A checklist that a message is given is the one that would be sent, native
/// content is handed to the method that it names, and content that no message
/// can be changed to is refused.
pub proof fn law_other_edits_are_what_they_are(
    message: MessageRef,
    content: MessageContent,
    options: MessageOptions,
)
    requires
        edit_outcome(message, seq![content], options) is Ok,
    ensures
        ({
            let step = edit_outcome(message, seq![content], options)->Ok_0;
            &&& content matches MessageContent::Checklist(checklist) ==> (step matches EditStepView::Call(
                call,
            ) && call.method == "editMessageChecklist"@ && (checklist::input_checklist_outcome(
                checklist,
            ) matches Ok(value) && json::member(call.payload, "checklist"@) == Some(
                json::stripped(value),
            )))
            &&& content matches MessageContent::PlatformNative(native) ==> (
            step matches EditStepView::Call(call) && (native.data@ matches JsonView::Object(members)
                && json::text_in(members, "method"@) == Some(call.method)))
            &&& content matches MessageContent::RichLayout(layout) ==> (
            step matches EditStepView::Layout { layout: own, .. } && own == layout)
            &&& !(content is Poll || content is Location || content is Contact || content is Sticker
                || content is CustomEmoji || content is VoiceNote || content is VideoNote
                || content is MediaGallery)
        }),
{
    if let MessageContent::Checklist(checklist) = content {
        let (place, address) = edit_address_outcome(message)->Ok_0;
        let markup = edit_markup_outcome(options)->Ok_0;
        let value = checklist::input_checklist_outcome(checklist)->Ok_0;
        let all = native::added(place, "checklist"@, value, "message content"@)->Ok_0;
        checklist::law_checklists_are_written_as_they_are(checklist, 0);
        lemma_edit_parameter(
            "editMessageChecklist"@,
            all,
            markup,
            options.platform_data,
            "checklist"@,
        );
    }
}

/// A layout that a message is given is handed over as a rich text.
pub proof fn law_new_layouts_are_given(
    payload: Map<Seq<char>, JsonView>,
    address: TelegramEditAddress,
    layout: RichLayout,
    uploads: Seq<(Seq<char>, Upload)>,
    markup: JsonView,
    native: Option<PlatformNativeData>,
)
    requires
        edit_layout_outcome(payload, address, layout, uploads, markup, native) is Ok,
    ensures
        ({
            let call = edit_layout_outcome(payload, address, layout, uploads, markup, native)->Ok_0;
            &&& uploads.len() > 0 ==> address is Regular
            &&& layout::rich_layout_outcome(layout) matches Ok((rich, _))
            &&& uploads.len() == 0 ==> (call matches CallView::Document(request) && request.method
                == "editMessageText"@ && json::member(request.payload, "rich_message"@) == Some(
                json::stripped(JsonView::Object(rich)),
            ))
            &&& uploads.len() > 0 ==> (call matches CallView::Form {
                method,
                added,
                uploads: parts,
                ..
            } && method == "editMessageText"@ && parts == uploads && added.len() == 1 && added[0]
                == ("rich_message"@, JsonView::Object(rich)))
        }),
{
    let (rich, own_markup) = layout::rich_layout_outcome(layout)->Ok_0;
    let keyboard = match own_markup {
        Some(own) => own,
        None => markup,
    };
    let all = with_edit_options(payload, keyboard, native)->Ok_0.insert(
        "rich_message"@,
        JsonView::Object(rich),
    );
    request::lemma_call_member("editMessageText"@, all, "rich_message"@);
}

/// New files can be uploaded only to a message that stands in a chat; what is
/// found by Telegram can be given to any.
pub proof fn law_uploads_go_to_messages_in_chats(
    payload: Map<Seq<char>, JsonView>,
    address: TelegramEditAddress,
    markup: JsonView,
    native: Option<PlatformNativeData>,
    file: ResolvedFile,
)
    ensures
        edit_media_payload(payload, address, markup, native, file) is Ok ==> (file is Upload
            ==> address is Regular),
        payload == json::no_fields() && native is None && (file is Remote || address is Regular)
            ==> edit_media_payload(payload, address, markup, native, file) is Ok,
{
    reveal_strlit("media");
    reveal_strlit("reply_markup");
    assert("media"@.len() == 5 && "reply_markup"@.len() == 12);
}

} // verus!
