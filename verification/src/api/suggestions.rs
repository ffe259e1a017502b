//! Results of inline queries.
use crate::api::capabilities;
use crate::api::capabilities::fits_in_message;
use crate::api::keyboard;
use crate::api::keyboard::telegram_editable_components;
use crate::api::layout;
use crate::api::layout::{
    write_duration, write_optional_real, write_optional_u16, write_optional_u32, write_real,
};
use crate::api::outgoing;
use crate::api::outgoing::telegram_link_preview;
use crate::api::rich_text;
use crate::api::rich_text::telegram_rich_text_entities;
use crate::application::{FormValue, Suggestion};
use crate::content::{
    DeliveryTime, LinkPreviewOptions, MessageContent, MessageOptions, MessageVisibility,
    NotificationPolicy, OutgoingMessage,
};
use crate::document;
use crate::document::encode;
use crate::error;
use crate::error::{message, unsupported, Error, ErrorView};
use crate::json;
use crate::json::{strip_nulls, Fields, Json, JsonView};
use crate::native;
use crate::native::telegram_native_object;
use crate::source::File;
use crate::text;
use crate::text::i64_text;
use crate::time;
use crate::time::{date_text, rfc3339_text, time_text};
use vstd::prelude::*;

verus! {

// ---------------------------------------------------------------------------
// Values
// ---------------------------------------------------------------------------

/// The text of a value.
pub open spec fn form_value_outcome(value: FormValue) -> Result<Seq<char>, ErrorView> {
    match value {
        FormValue::Text(text) => Ok(text@),
        FormValue::Integer(n) => Ok(text::decimal(n as int)),
        FormValue::Number(text) => Ok(text@),
        FormValue::Boolean(b) => Ok(
            if b {
                "true"@
            } else {
                "false"@
            },
        ),
        FormValue::Date { days } => dated(time::date_chars(days)),
        FormValue::Time { seconds, nanoseconds } => dated(time::time_chars(seconds, nanoseconds)),
        FormValue::DateTime { timestamp, nanoseconds } => dated(
            time::rfc3339_chars(timestamp, nanoseconds),
        ),
        FormValue::User(user) => Ok(user.id@),
        FormValue::Conversation(conversation) => Ok(conversation.id@),
        FormValue::File(file) => match file.id {
            Some(id) => Ok(id@),
            None => match file.uri {
                Some(uri) => Ok(uri@.text),
                None => error::refused("inline suggestion file has no portable identifier"@),
            },
        },
        FormValue::Json(document) => match document::holdable(document@) {
            Some(held) => Ok(document::json_text(held)),
            None => error::refused("inline suggestion document holds a number out of range"@),
        },
    }
}

/// The text of a date or a time, where there is one.
pub open spec fn dated(text: Option<Seq<char>>) -> Result<Seq<char>, ErrorView> {
    match text {
        Some(text) => Ok(text),
        None => error::refused("inline suggestion date is out of range"@),
    }
}

fn take_date(text: Option<String>) -> (result: Result<String, Error>)
    ensures
        error::shown(result) == dated(json::optional_chars(text)),
{
    match text {
        Some(text) => Ok(text),
        None => Err(message("inline suggestion date is out of range")),
    }
}

/// Writes the text of a value.
pub fn telegram_form_value_text(value: &FormValue) -> (result: Result<String, Error>)
    ensures
        error::shown(result) == form_value_outcome(*value),
{
    match value {
        FormValue::Text(text) => Ok(text.clone()),
        FormValue::Integer(n) => Ok(i64_text(*n)),
        FormValue::Number(text) => Ok(text.clone()),
        FormValue::Boolean(b) => Ok(
            if *b {
                "true".to_owned()
            } else {
                "false".to_owned()
            },
        ),
        FormValue::Date { days } => take_date(date_text(*days)),
        FormValue::Time { seconds, nanoseconds } => take_date(time_text(*seconds, *nanoseconds)),
        FormValue::DateTime { timestamp, nanoseconds } => take_date(
            rfc3339_text(*timestamp, *nanoseconds),
        ),
        FormValue::User(user) => Ok(user.id.clone()),
        FormValue::Conversation(conversation) => Ok(conversation.id.clone()),
        FormValue::File(file) => match &file.id {
            Some(id) => Ok(id.clone()),
            None => match &file.uri {
                Some(uri) => Ok(uri.text.clone()),
                None => Err(message("inline suggestion file has no portable identifier")),
            },
        },
        FormValue::Json(document) => match encode(document) {
            Some(text) => Ok(text),
            None => Err(message("inline suggestion document holds a number out of range")),
        },
    }
}

// ---------------------------------------------------------------------------
// Messages
// ---------------------------------------------------------------------------

/// The options can go with the message of an inline result.
pub open spec fn inline_options(options: MessageOptions) -> bool {
    &&& options.reply is None
    &&& options.notification is Default
    &&& options.visibility is Public
    &&& options.mentions is None
    &&& !options.protect_content
    &&& options.delivery_time is Immediate
    &&& options.idempotency_key is None
    &&& options.client_message_id is None
    &&& json::fields(options.metadata) == json::no_fields()
    &&& options.platform_data is None
}

fn check_inline_options(options: &MessageOptions) -> (result: bool)
    ensures
        result == inline_options(*options),
{
    let default = match options.notification {
        NotificationPolicy::Default => true,
        _ => false,
    };
    let public = match &options.visibility {
        MessageVisibility::Public => true,
        _ => false,
    };
    let immediate = match options.delivery_time {
        DeliveryTime::Immediate => true,
        _ => false,
    };
    options.reply.is_none() && default && public && options.mentions.is_none()
        && !options.protect_content && immediate && options.idempotency_key.is_none()
        && options.client_message_id.is_none() && options.metadata.is_none()
        && options.platform_data.is_none()
}

/// How links are previewed, where that is asked for.
pub open spec fn preview_view(preview: Option<LinkPreviewOptions>) -> JsonView {
    match preview {
        Some(preview) => outgoing::link_preview_view(preview),
        None => JsonView::Null,
    }
}

fn write_preview(preview: &Option<LinkPreviewOptions>) -> (json: Json)
    ensures
        json@ == preview_view(*preview),
{
    match preview {
        Some(preview) => telegram_link_preview(preview),
        None => Json::null(),
    }
}

/// The text that an inline result sends, where it fits in one message.
pub open spec fn inline_text(text: Seq<char>) -> Result<Map<Seq<char>, JsonView>, ErrorView> {
    if !capabilities::text_fits(text) {
        error::refused("Telegram inline message text exceeds 4096 UTF-16 code units"@)
    } else {
        Ok(json::no_fields().insert("message_text"@, JsonView::Text(text)))
    }
}

fn write_inline_text(text: &str) -> (result: Result<Fields, Error>)
    ensures
        native::shown_fields(result) == inline_text(text@),
{
    if !fits_in_message(text) {
        return Err(message("Telegram inline message text exceeds 4096 UTF-16 code units"));
    }
    let mut input = Fields::none();
    input.put("message_text", Json::text(text));
    Ok(input)
}

/// The message that an inline result sends.
pub open spec fn inline_input(content: MessageContent, options: MessageOptions) -> Result<
    Map<Seq<char>, JsonView>,
    ErrorView,
> {
    match content {
        MessageContent::PlainText(text) => match inline_text(text@) {
            Err(e) => Err(e),
            Ok(input) => Ok(
                input.insert("link_preview_options"@, preview_view(options.link_preview)),
            ),
        },
        MessageContent::RichText(text) => match rich_text::entities_outcome(text) {
            Err(e) => Err(e),
            Ok(entities) => match inline_text(text.text@) {
                Err(e) => Err(e),
                Ok(input) => Ok(
                    input.insert("entities"@, JsonView::Array(entities)).insert(
                        "link_preview_options"@,
                        preview_view(options.link_preview),
                    ),
                ),
            },
        },
        MessageContent::Location(location) => Ok(
            json::no_fields().insert("latitude"@, layout::real_view(location.latitude)).insert(
                "longitude"@,
                layout::real_view(location.longitude),
            ).insert(
                "horizontal_accuracy"@,
                layout::optional_real_view(location.horizontal_accuracy),
            ).insert("live_period"@, layout::duration_view(location.live_period)).insert(
                "heading"@,
                layout::optional_u16_view(location.heading),
            ).insert(
                "proximity_alert_radius"@,
                layout::optional_u32_view(location.proximity_alert_radius),
            ),
        ),
        MessageContent::Contact(contact) => if contact.phone_numbers@.len() == 0 {
            error::refused("Telegram inline contacts require a phone number"@)
        } else {
            Ok(
                json::no_fields().insert(
                    "phone_number"@,
                    JsonView::Text(contact.phone_numbers@[0].value@),
                ).insert("first_name"@, JsonView::Text(contact.first_name@)).insert(
                    "last_name"@,
                    json::optional_text_view(contact.last_name),
                ).insert("vcard"@, json::optional_text_view(contact.vcard)),
            )
        },
        _ => error::unsupported_view("this content in a portable Telegram inline query result"@),
    }
}

fn write_inline_input(content: &MessageContent, options: &MessageOptions) -> (result: Result<
    Fields,
    Error,
>)
    ensures
        native::shown_fields(result) == inline_input(*content, *options),
{
    let mut input = Fields::none();
    match content {
        MessageContent::PlainText(text) => {
            input = write_inline_text(text.as_str())?;
            input.put("link_preview_options", write_preview(&options.link_preview));
        },
        MessageContent::RichText(text) => {
            let entities = telegram_rich_text_entities(text)?;
            input = write_inline_text(text.text.as_str())?;
            input.put("entities", Json::array(entities));
            input.put("link_preview_options", write_preview(&options.link_preview));
        },
        MessageContent::Location(location) => {
            input.put("latitude", write_real(&location.latitude));
            input.put("longitude", write_real(&location.longitude));
            input.put("horizontal_accuracy", write_optional_real(&location.horizontal_accuracy));
            input.put("live_period", write_duration(&location.live_period));
            input.put("heading", write_optional_u16(location.heading));
            input.put(
                "proximity_alert_radius",
                write_optional_u32(location.proximity_alert_radius),
            );
        },
        MessageContent::Contact(contact) => {
            if contact.phone_numbers.len() == 0 {
                return Err(message("Telegram inline contacts require a phone number"));
            }
            input.put("phone_number", Json::text(contact.phone_numbers[0].value.as_str()));
            input.put("first_name", Json::text(contact.first_name.as_str()));
            input.put("last_name", Json::optional_text(&contact.last_name));
            input.put("vcard", Json::optional_text(&contact.vcard));
        },
        _ => {
            return Err(unsupported("this content in a portable Telegram inline query result"));
        },
    }
    Ok(input)
}

/// The message that an inline result sends, and its markup.
pub open spec fn inline_message_outcome(outgoing: OutgoingMessage) -> Result<
    (JsonView, Option<JsonView>),
    ErrorView,
> {
    if outgoing.content@.len() != 1 {
        error::refused("Telegram inline query results require exactly one content item"@)
    } else if !inline_options(outgoing.options) {
        error::refused(
            "Telegram inline result messages do not support these portable message options"@,
        )
    } else {
        let markup = match outgoing.options.components {
            None => Ok(None),
            Some(components) => match keyboard::editable_components_outcome(components) {
                Ok(value) => Ok(Some(value)),
                Err(e) => Err(e),
            },
        };
        match markup {
            Err(e) => Err(e),
            Ok(markup) => match inline_input(outgoing.content@[0], outgoing.options) {
                Err(e) => Err(e),
                Ok(input) => Ok((json::stripped(JsonView::Object(input)), markup)),
            },
        }
    }
}

/// Writes the message that an inline result sends, and its markup.
pub fn telegram_inline_input_message(outgoing: &OutgoingMessage) -> (result: Result<
    (Json, Option<Json>),
    Error,
>)
    ensures
        match result {
            Ok((input, markup)) => inline_message_outcome(*outgoing) == Ok::<
                (JsonView, Option<JsonView>),
                ErrorView,
            >(
                (
                    input@,
                    match markup {
                        Some(markup) => Some(markup@),
                        None => None,
                    },
                ),
            ),
            Err(e) => inline_message_outcome(*outgoing) == Err::<
                (JsonView, Option<JsonView>),
                ErrorView,
            >(e@),
        },
{
    if outgoing.content.len() != 1 {
        return Err(message("Telegram inline query results require exactly one content item"));
    }
    if !check_inline_options(&outgoing.options) {
        return Err(
            message(
                "Telegram inline result messages do not support these portable message options",
            ),
        );
    }
    let markup = match &outgoing.options.components {
        None => None,
        Some(components) => Some(telegram_editable_components(components)?),
    };
    let input = write_inline_input(&outgoing.content[0], &outgoing.options)?;
    Ok((strip_nulls(Json::object(input)), markup))
}

// ---------------------------------------------------------------------------
// Results
// ---------------------------------------------------------------------------

/// The address of the picture of a suggestion.
pub open spec fn thumbnail_url(image: Option<File>) -> JsonView {
    match image {
        Some(file) => match file.uri {
            Some(uri) => if uri@.scheme == Some("http"@) || uri@.scheme == Some("https"@) {
                JsonView::Text(uri@.text)
            } else {
                JsonView::Null
            },
            None => JsonView::Null,
        },
        None => JsonView::Null,
    }
}

fn write_thumbnail_url(image: &Option<File>) -> (json: Json)
    ensures
        json@ == thumbnail_url(*image),
{
    match image {
        Some(file) => match &file.uri {
            Some(uri) => if uri.has_scheme("http") || uri.has_scheme("https") {
                Json::text(uri.text.as_str())
            } else {
                Json::null()
            },
            None => Json::null(),
        },
        None => Json::null(),
    }
}

/// The text that a suggestion sends: that of its value, or its title.
pub open spec fn suggestion_text(suggestion: Suggestion) -> Result<Seq<char>, ErrorView> {
    match form_value_outcome(suggestion.value) {
        Ok(text) => Ok(
            if text.len() == 0 {
                suggestion.title@
            } else {
                text
            },
        ),
        Err(e) => Err(e),
    }
}

/// What a suggestion sends, and its markup.
pub open spec fn suggestion_message(suggestion: Suggestion) -> Result<
    (JsonView, Option<JsonView>),
    ErrorView,
> {
    match suggestion.message {
        Some(outgoing) => inline_message_outcome(outgoing),
        None => match suggestion_text(suggestion) {
            Err(e) => Err(e),
            Ok(text) => match inline_text(text) {
                Err(e) => Err(e),
                Ok(input) => Ok((JsonView::Object(input), None)),
            },
        },
    }
}

/// A result of an inline query.
pub open spec fn inline_result_outcome(suggestion: Suggestion) -> Result<JsonView, ErrorView> {
    match suggestion.platform_data {
        Some(native) => match native::native_object_outcome(native, "inline query result"@) {
            Err(e) => Err(e),
            Ok(map) => Ok(
                JsonView::Object(
                    if map.contains_key("id"@) {
                        map
                    } else {
                        map.insert("id"@, JsonView::Text(suggestion.id@))
                    },
                ),
            ),
        },
        None => if suggestion.id@.len() == 0 {
            error::refused("inline query result id cannot be empty"@)
        } else {
            match suggestion_message(suggestion) {
                Err(e) => Err(e),
                Ok((input, markup)) => Ok(
                    json::stripped(
                        JsonView::Object(
                            json::no_fields().insert("type"@, JsonView::Text("article"@)).insert(
                                "id"@,
                                JsonView::Text(suggestion.id@),
                            ).insert("title"@, JsonView::Text(suggestion.title@)).insert(
                                "description"@,
                                json::optional_text_view(suggestion.description),
                            ).insert("thumbnail_url"@, thumbnail_url(suggestion.image)).insert(
                                "input_message_content"@,
                                input,
                            ).insert(
                                "reply_markup"@,
                                match markup {
                                    Some(markup) => markup,
                                    None => JsonView::Null,
                                },
                            ),
                        ),
                    ),
                ),
            }
        },
    }
}

/// Writes a result of an inline query.
pub fn telegram_inline_query_result(suggestion: &Suggestion) -> (result: Result<Json, Error>)
    ensures
        error::shown(result) == inline_result_outcome(*suggestion),
{
    if let Some(native) = &suggestion.platform_data {
        let mut map = telegram_native_object(native, "inline query result")?;
        if !map.contains_key("id") {
            map.put("id", Json::text(suggestion.id.as_str()));
        }
        return Ok(Json::object(map));
    }
    if suggestion.id.as_str().is_empty() {
        return Err(message("inline query result id cannot be empty"));
    }
    let (input, markup) = match &suggestion.message {
        Some(outgoing) => telegram_inline_input_message(outgoing)?,
        None => {
            let text = telegram_form_value_text(&suggestion.value)?;
            let shown: &str = if text.as_str().is_empty() {
                suggestion.title.as_str()
            } else {
                text.as_str()
            };
            let input = write_inline_text(shown)?;
            (Json::object(input), None)
        },
    };
    let mut result = Fields::none();
    result.put("type", Json::text("article"));
    result.put("id", Json::text(suggestion.id.as_str()));
    result.put("title", Json::text(suggestion.title.as_str()));
    result.put("description", Json::optional_text(&suggestion.description));
    result.put("thumbnail_url", write_thumbnail_url(&suggestion.image));
    result.put("input_message_content", input);
    result.put("reply_markup", Json::optional(markup));
    Ok(strip_nulls(Json::object(result)))
}

// ---------------------------------------------------------------------------
// Laws
// ---------------------------------------------------------------------------

proof fn lemma_suggestion_keys()
    ensures
        "message_text"@.len() == 12,
        "entities"@.len() == 8,
        "link_preview_options"@.len() == 20,
        "latitude"@.len() == 8,
        "longitude"@.len() == 9,
        "horizontal_accuracy"@.len() == 19,
        "live_period"@.len() == 11,
        "heading"@.len() == 7,
        "proximity_alert_radius"@.len() == 22,
        "phone_number"@.len() == 12,
        "first_name"@.len() == 10,
        "last_name"@.len() == 9,
        "vcard"@.len() == 5,
        "type"@.len() == 4,
        "id"@.len() == 2,
        "title"@.len() == 5,
        "description"@.len() == 11,
        "thumbnail_url"@.len() == 13,
        "input_message_content"@.len() == 21,
        "reply_markup"@.len() == 12,
        "message_text"@ != "phone_number"@,
        "message_text"@ != "reply_markup"@,
        "entities"@ != "latitude"@,
        "longitude"@ != "last_name"@,
        "live_period"@ != "description"@,
        "phone_number"@ != "reply_markup"@,
        "vcard"@ != "title"@,
{
    reveal_strlit("message_text");
    reveal_strlit("entities");
    reveal_strlit("link_preview_options");
    reveal_strlit("latitude");
    reveal_strlit("longitude");
    reveal_strlit("horizontal_accuracy");
    reveal_strlit("live_period");
    reveal_strlit("heading");
    reveal_strlit("proximity_alert_radius");
    reveal_strlit("phone_number");
    reveal_strlit("first_name");
    reveal_strlit("last_name");
    reveal_strlit("vcard");
    reveal_strlit("type");
    reveal_strlit("id");
    reveal_strlit("title");
    reveal_strlit("description");
    reveal_strlit("thumbnail_url");
    reveal_strlit("input_message_content");
    reveal_strlit("reply_markup");
    assert("message_text"@[0] != "phone_number"@[0]);
    assert("message_text"@[0] != "reply_markup"@[0]);
    assert("entities"@[0] != "latitude"@[0]);
    assert("longitude"@[1] != "last_name"@[1]);
    assert("live_period"@[0] != "description"@[0]);
    assert("phone_number"@[0] != "reply_markup"@[0]);
    assert("vcard"@[0] != "title"@[0]);
}

/// What a suggestion sends is what its message holds: its text, its place or
/// its contact, each part under its own name; and its keyboard is the one that
/// the message has.
pub proof fn law_inline_messages_say_what_they_hold(outgoing: OutgoingMessage)
    requires
        inline_message_outcome(outgoing) is Ok,
    ensures
        ({
            let (input, markup) = inline_message_outcome(outgoing)->Ok_0;
            let said = input->Object_0;
            &&& input is Object
            &&& outgoing.content@.len() == 1
            &&& markup is Some <==> outgoing.options.components is Some
            &&& outgoing.content@[0] matches MessageContent::PlainText(text) ==> json::text_in(
                said,
                "message_text"@,
            ) == Some(text@)
            &&& outgoing.content@[0] matches MessageContent::RichText(text) ==> json::text_in(
                said,
                "message_text"@,
            ) == Some(text.text@)
            &&& outgoing.content@[0] matches MessageContent::Location(location) ==> {
                &&& location.latitude matches crate::content::Real::Finite(text) ==> json::member(
                    said,
                    "latitude"@,
                ) == Some(JsonView::Real(text@))
                &&& location.longitude matches crate::content::Real::Finite(text) ==> json::member(
                    said,
                    "longitude"@,
                ) == Some(JsonView::Real(text@))
                &&& location.heading matches Some(degrees) ==> json::u64_in(said, "heading"@)
                    == Some(degrees as u64)
                &&& location.proximity_alert_radius matches Some(metres) ==> json::u64_in(
                    said,
                    "proximity_alert_radius"@,
                ) == Some(metres as u64)
                &&& location.live_period matches Some(span) ==> json::u64_in(said, "live_period"@)
                    == Some(span.seconds)
            }
            &&& outgoing.content@[0] matches MessageContent::Contact(contact) ==> {
                &&& contact.phone_numbers@.len() > 0
                &&& json::text_in(said, "phone_number"@) == Some(contact.phone_numbers@[0].value@)
                &&& json::text_in(said, "first_name"@) == Some(contact.first_name@)
                &&& json::text_in(said, "last_name"@) == json::optional_chars(contact.last_name)
                &&& json::text_in(said, "vcard"@) == json::optional_chars(contact.vcard)
            }
        }),
{
    lemma_suggestion_keys();
    let input = inline_input(outgoing.content@[0], outgoing.options)->Ok_0;
    json::lemma_stripped_member(input, "message_text"@);
    json::lemma_stripped_member(input, "latitude"@);
    json::lemma_stripped_member(input, "longitude"@);
    json::lemma_stripped_member(input, "heading"@);
    json::lemma_stripped_member(input, "proximity_alert_radius"@);
    json::lemma_stripped_member(input, "live_period"@);
    json::lemma_stripped_member(input, "phone_number"@);
    json::lemma_stripped_member(input, "first_name"@);
    json::lemma_stripped_member(input, "last_name"@);
    json::lemma_stripped_member(input, "vcard"@);
}

/// A suggestion is shown by its title and its description under its id, and
/// sends its message, or its value where it has none, or its title where its
/// value is empty.
pub proof fn law_suggestions_are_shown_as_they_are(suggestion: Suggestion)
    requires
        inline_result_outcome(suggestion) is Ok,
        suggestion.platform_data is None,
    ensures
        ({
            let shown = inline_result_outcome(suggestion)->Ok_0->Object_0;
            &&& inline_result_outcome(suggestion)->Ok_0 is Object
            &&& json::text_in(shown, "type"@) == Some("article"@)
            &&& suggestion.id@.len() > 0
            &&& json::text_in(shown, "id"@) == Some(suggestion.id@)
            &&& json::text_in(shown, "title"@) == Some(suggestion.title@)
            &&& json::text_in(shown, "description"@) == json::optional_chars(suggestion.description)
            &&& suggestion.message is None ==> (json::object_in(shown, "input_message_content"@) matches Some(
                said,
            ) && (form_value_outcome(suggestion.value) matches Ok(text) && json::text_in(
                said,
                "message_text"@,
            ) == Some(
                if text.len() == 0 {
                    suggestion.title@
                } else {
                    text
                },
            )))
            &&& suggestion.message matches Some(outgoing) ==> (inline_message_outcome(outgoing) matches Ok(
                (input, _),
            ) && json::member(shown, "input_message_content"@) == Some(json::stripped(input)))
        }),
{
    lemma_suggestion_keys();
    let (input, markup) = suggestion_message(suggestion)->Ok_0;
    let written = json::no_fields().insert("type"@, JsonView::Text("article"@)).insert(
        "id"@,
        JsonView::Text(suggestion.id@),
    ).insert("title"@, JsonView::Text(suggestion.title@)).insert(
        "description"@,
        json::optional_text_view(suggestion.description),
    ).insert("thumbnail_url"@, thumbnail_url(suggestion.image)).insert(
        "input_message_content"@,
        input,
    ).insert(
        "reply_markup"@,
        match markup {
            Some(markup) => markup,
            None => JsonView::Null,
        },
    );
    json::lemma_stripped_member(written, "type"@);
    json::lemma_stripped_member(written, "id"@);
    json::lemma_stripped_member(written, "title"@);
    json::lemma_stripped_member(written, "description"@);
    json::lemma_stripped_member(written, "input_message_content"@);
    if let Some(outgoing) = suggestion.message {
        json::lemma_stripped_member(
            inline_input(outgoing.content@[0], outgoing.options)->Ok_0,
            "message_text"@,
        );
    } else {
        json::lemma_stripped_member(input->Object_0, "message_text"@);
    }
}

/// Native data stands for a suggestion as it is; the id is added only where it
/// names none.
pub proof fn law_native_suggestions_keep_their_id(suggestion: Suggestion)
    requires
        inline_result_outcome(suggestion) is Ok,
        suggestion.platform_data is Some,
    ensures
        ({
            let own = suggestion.platform_data->0.data@->Object_0;
            let shown = inline_result_outcome(suggestion)->Ok_0->Object_0;
            &&& json::member(own, "id"@) is Some ==> json::member(shown, "id"@) == json::member(
                own,
                "id"@,
            )
            &&& json::member(own, "id"@) is None ==> json::text_in(shown, "id"@) == Some(
                suggestion.id@,
            )
        }),
{
}

/// A value is written as a reader would write it: a truth by its name, a number
/// by its digits, a user and a conversation by their ids.
pub proof fn law_values_are_written_plainly(value: FormValue)
    ensures
        value matches FormValue::Boolean(truth) ==> form_value_outcome(value) == Ok::<
            Seq<char>,
            ErrorView,
        >(
            if truth {
                "true"@
            } else {
                "false"@
            },
        ),
        value matches FormValue::Integer(number) ==> (form_value_outcome(value) matches Ok(text)
            && text::i64_value(text) == Some(number)),
        value matches FormValue::Text(own) ==> form_value_outcome(value) == Ok::<
            Seq<char>,
            ErrorView,
        >(own@),
        value matches FormValue::User(user) ==> form_value_outcome(value) == Ok::<
            Seq<char>,
            ErrorView,
        >(user.id@),
        value matches FormValue::Conversation(conversation) ==> form_value_outcome(value) == Ok::<
            Seq<char>,
            ErrorView,
        >(conversation.id@),
{
    if let FormValue::Integer(number) = value {
        text::lemma_decimal_round_trip(number as int);
    }
}

/// A message of a suggestion says nothing of its delivery.
pub proof fn law_suggested_messages_are_plain(outgoing: OutgoingMessage)
    requires
        inline_message_outcome(outgoing) is Ok,
    ensures
        outgoing.options.reply is None,
        outgoing.options.notification is Default,
        outgoing.options.visibility is Public,
        outgoing.options.mentions is None,
        !outgoing.options.protect_content,
        outgoing.options.delivery_time is Immediate,
{
}

/// The picture of a suggestion is shown where it is on the web.
pub proof fn law_suggested_pictures_are_on_the_web(file: File)
    ensures
        file.uri matches Some(uri) ==> (uri@.scheme == Some("http"@) || uri@.scheme == Some("https"@)
            ==> thumbnail_url(Some(file)) == JsonView::Text(uri@.text)),
        file.uri matches Some(uri) ==> (uri@.scheme != Some("http"@) && uri@.scheme != Some("https"@)
            ==> thumbnail_url(Some(file)) == JsonView::Null),
        file.uri is None ==> thumbnail_url(Some(file)) == JsonView::Null,
        thumbnail_url(None) == JsonView::Null,
{
}

} // verus!
