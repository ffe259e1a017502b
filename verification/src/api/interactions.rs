//! Answers to interactions and queries.
use crate::api::address;
use crate::api::address::{native_from, telegram_conversation_kind};
use crate::api::suggestions;
use crate::api::suggestions::telegram_inline_query_result;
use crate::api::layout;
use crate::api::layout::write_duration;
use crate::api::messages;
use crate::api::messages::delete_message_ref;
use crate::api::request;
use crate::api::request::{make_call, Request, RequestView};
use crate::application::{FormValue, Suggestion, SuggestionRequest};
use crate::content::{MessageOptions, MessageVisibility, NotificationPolicy, OutgoingMessage};
use crate::conversation;
use crate::conversation::{
    ConversationKind, ConversationRef, ConversationView, KindView, MessageRef, MessageRefView,
    MessageTarget,
};
use crate::error;
use crate::error::{message, unsupported, Error, ErrorView};
use crate::interaction::{
    InteractionNotificationStyle, InteractionResponse, InteractionResponseHandle,
};
use crate::json;
use crate::json::{Fields, Json, JsonView};
use crate::list;
use crate::list::collect_json;
use crate::native;
use crate::native::{make_native, quote, telegram_native_object};
use crate::text;
use crate::text::{i64_text, joined, same};
use vstd::prelude::*;
use vstd::string::*;

verus! {

// ---------------------------------------------------------------------------
// Callback queries
// ---------------------------------------------------------------------------

/// The parameters of an answer.
pub open spec fn response_payload(response: InteractionResponse) -> Result<
    Map<Seq<char>, JsonView>,
    ErrorView,
> {
    match response {
        InteractionResponse::Acknowledge => Ok(json::no_fields()),
        InteractionResponse::Notification { text, style, cache_time } => if text@.len() > 200 {
            error::refused("Telegram callback notification text is limited to 200 characters"@)
        } else {
            Ok(
                json::no_fields().insert("text"@, JsonView::Text(text@)).insert(
                    "show_alert"@,
                    JsonView::Bool(style == InteractionNotificationStyle::Alert),
                ).insert("cache_time"@, layout::duration_view(cache_time)),
            )
        },
        InteractionResponse::OpenUrl { url, cache_time } => if url@.len() == 0 {
            error::refused("interaction URL cannot be empty"@)
        } else {
            Ok(
                json::no_fields().insert("url"@, JsonView::Text(url@)).insert(
                    "cache_time"@,
                    layout::duration_view(cache_time),
                ),
            )
        },
        InteractionResponse::PlatformNative(native) => native::native_object_outcome(
            native,
            "interaction response"@,
        ),
        _ => error::unsupported_view("this Telegram callback response type"@),
    }
}

fn write_response(response: &InteractionResponse) -> (result: Result<Fields, Error>)
    ensures
        native::shown_fields(result) == response_payload(*response),
{
    let mut payload = Fields::none();
    match response {
        InteractionResponse::Acknowledge => {},
        InteractionResponse::Notification { text, style, cache_time } => {
            if text.as_str().unicode_len() > 200 {
                return Err(
                    message("Telegram callback notification text is limited to 200 characters"),
                );
            }
            let alert = match style {
                InteractionNotificationStyle::Alert => true,
                InteractionNotificationStyle::Toast => false,
            };
            payload.put("text", Json::text(text.as_str()));
            payload.put("show_alert", Json::bool(alert));
            payload.put("cache_time", write_duration(cache_time));
        },
        InteractionResponse::OpenUrl { url, cache_time } => {
            if url.as_str().is_empty() {
                return Err(message("interaction URL cannot be empty"));
            }
            payload.put("url", Json::text(url.as_str()));
            payload.put("cache_time", write_duration(cache_time));
        },
        InteractionResponse::PlatformNative(native) => {
            return telegram_native_object(native, "interaction response");
        },
        _ => {
            return Err(unsupported("this Telegram callback response type"));
        },
    }
    Ok(payload)
}

/// The call that answers an interaction.
pub open spec fn answer_outcome(id: Seq<char>, response: InteractionResponse) -> Result<
    RequestView,
    ErrorView,
> {
    if id.len() == 0 {
        error::refused("interaction id cannot be empty"@)
    } else {
        match response_payload(response) {
            Err(e) => Err(e),
            Ok(payload) => Ok(
                request::call(
                    "answerCallbackQuery"@,
                    payload.insert("callback_query_id"@, JsonView::Text(id)),
                ),
            ),
        }
    }
}

/// The call that answers an interaction.
pub fn answer_interaction(interaction_id: &str, response: &InteractionResponse) -> (result: Result<
    Request,
    Error,
>)
    ensures
        error::shown(result) == answer_outcome(interaction_id@, *response),
{
    if interaction_id.is_empty() {
        return Err(message("interaction id cannot be empty"));
    }
    let mut payload = write_response(response)?;
    payload.put("callback_query_id", Json::text(interaction_id));
    Ok(make_call("answerCallbackQuery", payload))
}

/// The call that acknowledges an interaction, so that there is time for the
/// answer.
pub fn defer_interaction(handle: &InteractionResponseHandle) -> (result: Result<Request, Error>)
    ensures
        error::shown(result) == answer_outcome(handle.id@, InteractionResponse::Acknowledge),
{
    answer_interaction(handle.id.as_str(), &InteractionResponse::Acknowledge)
}

// ---------------------------------------------------------------------------
// Follow-ups
// ---------------------------------------------------------------------------

/// An id that stands as a number or as a text.
pub open spec fn id_in(members: Map<Seq<char>, JsonView>, key: Seq<char>) -> Option<Seq<char>> {
    match json::i64_in(members, key) {
        Some(id) => Some(text::decimal(id as int)),
        None => json::text_in(members, key),
    }
}

fn find_id(members: &Fields, key: &str) -> (id: Option<String>)
    ensures
        json::optional_chars(id) == id_in(json::fields(*members), key@),
{
    match members.i64_at(key) {
        Some(id) => Some(i64_text(id)),
        None => members.string_at(key),
    }
}

/// The kind of the chat that the members name.
pub open spec fn chat_kind(members: Map<Seq<char>, JsonView>) -> KindView {
    match json::text_in(members, "chat_type"@) {
        Some(kind) => address::conversation_kind_view(kind),
        None => KindView::Unknown,
    }
}

fn find_chat_kind(members: &Fields) -> (kind: ConversationKind)
    ensures
        kind@ == chat_kind(json::fields(*members)),
{
    match members.text_at("chat_type") {
        Some(kind) => telegram_conversation_kind(kind),
        None => ConversationKind::Unknown,
    }
}

/// A conversation by its id alone.
pub open spec fn plain_conversation(id: Seq<char>, kind: KindView) -> ConversationView {
    ConversationView { id, kind, parent: None, native: None }
}

/// The chat of an interaction, or why there is none.
pub open spec fn followup_chat(handle: InteractionResponseHandle) -> Result<
    (Map<Seq<char>, JsonView>, Seq<char>),
    ErrorView,
> {
    match handle.platform_data {
        None => error::refused("Telegram interaction follow-up requires response context"@),
        Some(native) => match native::native_object_outcome(
            native,
            "interaction response context"@,
        ) {
            Err(e) => Err(e),
            Ok(members) => match id_in(members, "chat_id"@) {
                None => error::refused("Telegram interaction follow-up requires chat_id"@),
                Some(chat) => Ok((members, chat)),
            },
        },
    }
}

/// Why there can be no follow-up.
pub open spec fn followup_flaw(handle: InteractionResponseHandle, ephemeral: bool) -> Option<
    ErrorView,
> {
    match followup_chat(handle) {
        Err(e) => Some(e),
        Ok((members, _)) => if ephemeral && json::i64_in(members, "user_id"@) is None {
            Some(ErrorView::Message("Telegram ephemeral follow-up requires user_id"@))
        } else {
            None
        },
    }
}

/// The target is the chat of the interaction; for an ephemeral message also
/// the user and the query.
pub open spec fn is_followup_target(
    target: MessageTarget,
    handle: InteractionResponseHandle,
    ephemeral: bool,
) -> bool {
    let members = followup_chat(handle)->Ok_0.0;
    &&& target.conversation@ == plain_conversation(
        followup_chat(handle)->Ok_0.1,
        chat_kind(members),
    )
    &&& if ephemeral {
        &&& target.recipients@.len() == 1
        &&& target.recipients@[0]@ == text::decimal(
            json::i64_in(members, "user_id"@)->Some_0 as int,
        )
        &&& native::optional_native(target.platform_data) == Some(
            native::telegram_native(
                JsonView::Object(
                    json::no_fields().insert("callback_query_id"@, JsonView::Text(handle.id@)),
                ),
            ),
        )
    } else {
        target.recipients@.len() == 0 && target.platform_data is None
    }
}

/// The same options, but that a forced notification is an ordinary one.
pub open spec fn unforced(options: MessageOptions) -> MessageOptions {
    MessageOptions {
        notification: if options.notification is Force {
            NotificationPolicy::Default
        } else {
            options.notification
        },
        ..options
    }
}

/// Where and how to send a message that follows up on an interaction.
pub fn send_interaction_followup(
    handle: &InteractionResponseHandle,
    message: OutgoingMessage,
) -> (result: Result<(MessageTarget, OutgoingMessage), Error>)
    ensures
        match result {
            Ok((target, sent)) => {
                &&& followup_flaw(*handle, message.options.visibility is Ephemeral) is None
                &&& is_followup_target(
                    target,
                    *handle,
                    message.options.visibility is Ephemeral,
                )
                &&& sent.content == message.content
                &&& sent.options == unforced(message.options)
            },
            Err(e) => followup_flaw(*handle, message.options.visibility is Ephemeral) == Some(e@),
        },
{
    let native = match &handle.platform_data {
        Some(native) => native,
        None => {
            return Err(
                error::message("Telegram interaction follow-up requires response context"),
            );
        },
    };
    let members = telegram_native_object(native, "interaction response context")?;
    let chat = match find_id(&members, "chat_id") {
        Some(chat) => chat,
        None => {
            return Err(error::message("Telegram interaction follow-up requires chat_id"));
        },
    };
    let conversation = ConversationRef {
        id: chat,
        kind: find_chat_kind(&members),
        parent: None,
        platform_data: None,
    };
    let ephemeral = match &message.options.visibility {
        MessageVisibility::Ephemeral => true,
        _ => false,
    };
    let mut recipients: Vec<String> = Vec::new();
    let mut platform_data = None;
    if ephemeral {
        let user = match members.i64_at("user_id") {
            Some(user) => user,
            None => {
                return Err(error::message("Telegram ephemeral follow-up requires user_id"));
            },
        };
        recipients.push(i64_text(user));
        let mut object = Fields::none();
        object.put("callback_query_id", Json::text(handle.id.as_str()));
        platform_data = Some(make_native(Json::object(object)));
    }
    let mut message = message;
    if let NotificationPolicy::Force = message.options.notification {
        message.options.notification = NotificationPolicy::Default;
    }
    Ok((MessageTarget { conversation, recipients, platform_data }, message))
}

// ---------------------------------------------------------------------------
// The message of an interaction
// ---------------------------------------------------------------------------

/// What a reference to the message of an interaction has to keep.
pub open spec fn kept_members(members: Map<Seq<char>, JsonView>) -> Map<Seq<char>, JsonView> {
    address::with_copied(
        address::with_copied(
            address::with_copied(json::no_fields(), members, "business_connection_id"@),
            members,
            "receiver_user_id"@,
        ),
        members,
        "ephemeral_message_id"@,
    )
}

/// A reference to an inline message.
pub open spec fn inline_ref(id: Seq<char>, conversation: Option<ConversationView>) -> MessageRefView {
    MessageRefView {
        id,
        conversation,
        native: Some(
            native::telegram_native(
                JsonView::Object(
                    json::no_fields().insert("inline_message_id"@, JsonView::Text(id)),
                ),
            ),
        ),
    }
}

fn make_inline_native(id: &str) -> (native: native::PlatformNativeData)
    ensures
        native@ == native::telegram_native(
            JsonView::Object(json::no_fields().insert("inline_message_id"@, JsonView::Text(id@))),
        ),
{
    let mut object = Fields::none();
    object.put("inline_message_id", Json::text(id));
    make_native(Json::object(object))
}

/// The message that an interaction came from.
pub open spec fn interaction_ref_outcome(handle: InteractionResponseHandle) -> Result<
    MessageRefView,
    ErrorView,
> {
    match handle.platform_data {
        None => error::refused("Telegram interaction response has no message context"@),
        Some(native) => match native::native_object_outcome(
            native,
            "interaction response context"@,
        ) {
            Err(e) => Err(e),
            Ok(members) => match json::text_in(members, "inline_message_id"@) {
                Some(id) => Ok(inline_ref(id, None)),
                None => match id_in(members, "chat_id"@) {
                    None => error::refused(
                        "Telegram interaction response context has no chat_id"@,
                    ),
                    Some(chat) => match json::i64_in(members, "message_id"@) {
                        None => error::refused(
                            "Telegram interaction response context has no message_id"@,
                        ),
                        Some(number) => Ok(
                            MessageRefView {
                                id: text::decimal(number as int),
                                conversation: Some(plain_conversation(chat, chat_kind(members))),
                                native: address::native_of(kept_members(members)),
                            },
                        ),
                    },
                },
            },
        },
    }
}

/// Finds the message that an interaction came from.
pub fn telegram_interaction_message_ref(handle: &InteractionResponseHandle) -> (result: Result<
    MessageRef,
    Error,
>)
    ensures
        error::shown(result) == interaction_ref_outcome(*handle),
{
    let native = match &handle.platform_data {
        Some(native) => native,
        None => {
            return Err(message("Telegram interaction response has no message context"));
        },
    };
    let members = telegram_native_object(native, "interaction response context")?;
    if let Some(id) = members.text_at("inline_message_id") {
        return Ok(
            MessageRef {
                id: id.to_owned(),
                conversation: None,
                platform_data: Some(make_inline_native(id)),
            },
        );
    }
    let chat = match find_id(&members, "chat_id") {
        Some(chat) => chat,
        None => {
            return Err(message("Telegram interaction response context has no chat_id"));
        },
    };
    let number = match members.i64_at("message_id") {
        Some(number) => number,
        None => {
            return Err(message("Telegram interaction response context has no message_id"));
        },
    };
    let kept = address::copy_member(Fields::none(), &members, "business_connection_id");
    let kept = address::copy_member(kept, &members, "receiver_user_id");
    let kept = address::copy_member(kept, &members, "ephemeral_message_id");
    Ok(
        MessageRef {
            id: i64_text(number),
            conversation: Some(
                ConversationRef {
                    id: chat,
                    kind: find_chat_kind(&members),
                    parent: None,
                    platform_data: None,
                },
            ),
            platform_data: native_from(kept),
        },
    )
}

/// The call that deletes the message that an interaction came from.
pub fn delete_interaction_response(handle: &InteractionResponseHandle) -> (result: Result<
    Request,
    Error,
>)
    ensures
        match interaction_ref_outcome(*handle) {
            Err(e) => error::shown(result) == Err::<RequestView, ErrorView>(e),
            Ok(view) => exists|found: MessageRef|
                found@ == view && error::shown(result) == #[trigger] messages::deletion_outcome(
                    found,
                ),
        },
{
    let found = telegram_interaction_message_ref(handle)?;
    delete_message_ref(&found)
}

// ---------------------------------------------------------------------------
// Inline queries and Mini Apps
// ---------------------------------------------------------------------------

/// How each suggestion is written.
pub open spec fn suggestion_results() -> spec_fn(int, Suggestion) -> Result<JsonView, ErrorView> {
    |i: int, suggestion: Suggestion| suggestions::inline_result_outcome(suggestion)
}

fn write_suggestion(i: usize, suggestion: &Suggestion) -> (result: Result<Json, Error>)
    ensures
        error::shown(result) == suggestion_results()(i as int, *suggestion),
{
    telegram_inline_query_result(suggestion)
}

/// A member of the query itself, which the answer does not repeat.
pub open spec fn is_query_member(name: Seq<char>) -> bool {
    name == "id"@ || name == "inline_query_id"@ || name == "from"@ || name == "query"@ || name
        == "offset"@ || name == "chat_type"@ || name == "location"@
}

fn names_query_member(name: &str) -> (result: bool)
    ensures
        result == is_query_member(name@),
{
    same(name, "id") || same(name, "inline_query_id") || same(name, "from") || same(name, "query")
        || same(name, "offset") || same(name, "chat_type") || same(name, "location")
}

/// A member that an answer can have.
pub open spec fn is_answer_member(name: Seq<char>) -> bool {
    name == "cache_time"@ || name == "is_personal"@ || name == "button"@
}

fn names_answer_member(name: &str) -> (result: bool)
    ensures
        result == is_answer_member(name@),
{
    same(name, "cache_time") || same(name, "is_personal") || same(name, "button")
}

/// A member that has no place in an answer.
pub open spec fn is_foreign(members: Map<Seq<char>, JsonView>, name: Seq<char>) -> bool {
    members.contains_key(name) && !is_query_member(name) && !is_answer_member(name)
}

/// The first member, in order, that has no place in an answer.
pub open spec fn is_first_foreign(members: Map<Seq<char>, JsonView>, name: Seq<char>) -> bool {
    is_foreign(members, name) && forall|other: Seq<char>| #[trigger]
        is_foreign(members, other) && other != name ==> text::before(name, other)
}

/// The members of an answer that the request names, added to the others.
pub open spec fn answer_members(
    payload: Map<Seq<char>, JsonView>,
    members: Map<Seq<char>, JsonView>,
) -> Result<Map<Seq<char>, JsonView>, ErrorView> {
    if exists|name: Seq<char>| is_foreign(members, name) {
        let name = choose|name: Seq<char>| is_first_foreign(members, name);
        error::refused("unsupported Telegram inline-query answer field "@ + native::quoted(name))
    } else {
        Ok(
            address::with_copied(
                address::with_copied(
                    address::with_copied(payload, members, "cache_time"@),
                    members,
                    "is_personal"@,
                ),
                members,
                "button"@,
            ),
        )
    }
}

fn add_answer_members(payload: Fields, members: &Fields) -> (result: Result<Fields, Error>)
    ensures
        native::shown_fields(result) == answer_members(
            json::fields(payload),
            json::fields(*members),
        ),
{
    let n: usize = members.len();
    let ghost keys = members.keys();
    let ghost all = json::fields(*members);
    let mut i: usize = 0;
    while i < n
        invariant
            i <= n,
            n == keys.len(),
            keys == members.keys(),
            all == json::fields(*members),
            json::lists_keys(keys, members@.dom()),
            forall|j: int| 0 <= j < i ==> !is_foreign(all, #[trigger] keys[j]),
        decreases n - i,
    {
        let (name, _) = members.entry(i);
        if !names_query_member(name) && !names_answer_member(name) {
            proof {
                assert(members@.dom().contains(name@));
                assert(is_foreign(all, name@));
                assert forall|other: Seq<char>| #[trigger]
                    is_foreign(all, other) && other != name@ implies text::before(name@, other) by {
                    assert(members@.dom().contains(other));
                    let j = choose|j: int| 0 <= j < keys.len() && #[trigger] keys[j] == other;
                    assert(j > i);
                }
                assert(is_first_foreign(all, name@));
                let chosen = choose|k: Seq<char>| is_first_foreign(all, k);
                if chosen != name@ {
                    assert(text::before(chosen, name@));
                    assert(text::before(name@, chosen));
                    text::lemma_before_asymmetric(chosen, name@);
                }
            }
            let name = quote(name);
            return Err(
                Error::Message(
                    joined("unsupported Telegram inline-query answer field ", name.as_str()),
                ),
            );
        }
        i += 1;
    }
    proof {
        assert forall|name: Seq<char>| !is_foreign(all, name) by {
            if is_foreign(all, name) {
                assert(members@.dom().contains(name));
                let j = choose|j: int| 0 <= j < keys.len() && #[trigger] keys[j] == name;
                assert(!is_foreign(all, keys[j]));
            }
        }
    }
    let payload = address::copy_member(payload, members, "cache_time");
    let payload = address::copy_member(payload, members, "is_personal");
    Ok(address::copy_member(payload, members, "button"))
}

/// The call that answers a request for suggestions.
pub open spec fn suggestions_outcome(
    request: SuggestionRequest,
    suggestions: Seq<Suggestion>,
    next: Option<String>,
) -> Result<RequestView, ErrorView> {
    if suggestions.len() > 50 {
        error::refused("Telegram inline queries support at most 50 results"@)
    } else {
        match list::collect(suggestions, suggestion_results()) {
            Err(e) => Err(e),
            Ok(results) => {
                let payload = json::no_fields().insert(
                    "inline_query_id"@,
                    JsonView::Text(request.id@),
                ).insert("results"@, JsonView::Array(results)).insert(
                    "next_offset"@,
                    JsonView::Text(
                        match next {
                            Some(next) => next@,
                            None => Seq::empty(),
                        },
                    ),
                );
                match request.platform_data {
                    None => Ok(request::call("answerInlineQuery"@, payload)),
                    Some(native) => match native::native_object_outcome(
                        native,
                        "suggestion request"@,
                    ) {
                        Err(e) => Err(e),
                        Ok(members) => request::requested(
                            "answerInlineQuery"@,
                            answer_members(payload, members),
                        ),
                    },
                }
            },
        }
    }
}

/// The call that answers a request for suggestions.
pub fn answer_suggestion_request(
    request: &SuggestionRequest,
    suggestions: &Vec<Suggestion>,
    next_cursor: &Option<String>,
) -> (result: Result<Request, Error>)
    ensures
        error::shown(result) == suggestions_outcome(*request, suggestions@, *next_cursor),
{
    if suggestions.len() > 50 {
        return Err(message("Telegram inline queries support at most 50 results"));
    }
    let results = collect_json(suggestions, write_suggestion, Ghost(suggestion_results()))?;
    let mut payload = Fields::none();
    payload.put("inline_query_id", Json::text(request.id.as_str()));
    payload.put("results", Json::array(results));
    let next: String = match next_cursor {
        Some(next) => next.clone(),
        None => String::new(),
    };
    assert(next_cursor is None ==> next@ =~= Seq::<char>::empty());
    payload.put("next_offset", Json::text(next.as_str()));
    let payload = match &request.platform_data {
        Some(native) => {
            let members = telegram_native_object(native, "suggestion request")?;
            add_answer_members(payload, &members)?
        },
        None => payload,
    };
    Ok(make_call("answerInlineQuery", payload))
}

/// What a Mini App query is answered with: an article that sends a message.
pub open spec fn web_app_result_outcome(id: Seq<char>, message: OutgoingMessage) -> Result<
    JsonView,
    ErrorView,
> {
    if id.len() == 0 {
        error::refused("inline query result id cannot be empty"@)
    } else {
        match suggestions::inline_message_outcome(message) {
            Err(e) => Err(e),
            Ok((input, markup)) => Ok(
                json::stripped(
                    JsonView::Object(
                        json::no_fields().insert("type"@, JsonView::Text("article"@)).insert(
                            "id"@,
                            JsonView::Text(id),
                        ).insert("title"@, JsonView::Text("Web App result"@)).insert(
                            "description"@,
                            JsonView::Null,
                        ).insert("thumbnail_url"@, JsonView::Null).insert(
                            "input_message_content"@,
                            input,
                        ).insert(
                            "reply_markup"@,
                            match markup {
                                Some(markup) => markup,
                                None => JsonView::Null,
                            },
                        ),
                    ),
                ),
            ),
        }
    }
}

/// The call that answers a Mini App query.
pub open spec fn web_app_answer_outcome(query_id: Option<Seq<char>>, message: OutgoingMessage) -> Result<
    RequestView,
    ErrorView,
> {
    match query_id {
        None => error::refused("Telegram Web App query has no query_id"@),
        Some(id) => match web_app_result_outcome(id, message) {
            Err(e) => Err(e),
            Ok(result) => Ok(
                request::call(
                    "answerWebAppQuery"@,
                    json::no_fields().insert("web_app_query_id"@, JsonView::Text(id)).insert(
                        "result"@,
                        result,
                    ),
                ),
            ),
        },
    }
}

/// The call that answers a Mini App query.
pub fn answer_mini_app_query(query_id: &Option<String>, message: OutgoingMessage) -> (result: Result<
    Request,
    Error,
>)
    ensures
        error::shown(result) == web_app_answer_outcome(json::optional_chars(*query_id), message),
{
    let id = match query_id {
        Some(id) => id,
        None => {
            return Err(error::message("Telegram Web App query has no query_id"));
        },
    };
    let suggestion = Suggestion {
        id: id.clone(),
        title: "Web App result".to_owned(),
        description: None,
        image: None,
        value: FormValue::Text(String::new()),
        message: Some(message),
        platform_data: None,
    };
    let result = telegram_inline_query_result(&suggestion)?;
    let mut payload = Fields::none();
    payload.put("web_app_query_id", Json::text(id.as_str()));
    payload.put("result", result);
    Ok(make_call("answerWebAppQuery", payload))
}

/// The id of the inline message in an answer.
pub open spec fn inline_id(answer: JsonView) -> Option<Seq<char>> {
    match answer {
        JsonView::Object(members) => json::text_in(members, "inline_message_id"@),
        _ => None,
    }
}

/// Reads the message that a Mini App query was answered with.
pub fn mini_app_message(answer: &Json, conversation: Option<ConversationRef>) -> (refs: Vec<
    MessageRef,
>)
    ensures
        match inline_id(answer@) {
            Some(id) => refs@.len() == 1 && refs@[0]@ == inline_ref(
                id,
                match conversation {
                    Some(conversation) => Some(conversation@),
                    None => None,
                },
            ),
            None => refs@.len() == 0,
        },
{
    let mut refs: Vec<MessageRef> = Vec::new();
    let id: Option<&str> = match answer.get("inline_message_id") {
        Some(id) => id.as_str(),
        None => None,
    };
    if let Some(id) = id {
        refs.push(
            MessageRef {
                id: id.to_owned(),
                conversation,
                platform_data: Some(make_inline_native(id)),
            },
        );
    }
    refs
}

// ---------------------------------------------------------------------------
// Laws
// ---------------------------------------------------------------------------

proof fn lemma_interaction_keys()
    ensures
        "text"@.len() == 4,
        "show_alert"@.len() == 10,
        "cache_time"@.len() == 10,
        "url"@.len() == 3,
        "callback_query_id"@.len() == 17,
        "chat_id"@.len() == 7,
        "user_id"@.len() == 7,
        "inline_message_id"@.len() == 17,
        "message_id"@.len() == 10,
        "chat_type"@.len() == 9,
        "inline_query_id"@.len() == 15,
        "results"@.len() == 7,
        "next_offset"@.len() == 11,
        "is_personal"@.len() == 11,
        "button"@.len() == 6,
        "web_app_query_id"@.len() == 16,
        "result"@.len() == 6,
        "type"@.len() == 4,
        "id"@.len() == 2,
        "title"@.len() == 5,
        "description"@.len() == 11,
        "thumbnail_url"@.len() == 13,
        "input_message_content"@.len() == 21,
        "reply_markup"@.len() == 12,
        "text"@ != "type"@,
        "show_alert"@ != "cache_time"@,
        "show_alert"@ != "message_id"@,
        "cache_time"@ != "message_id"@,
        "callback_query_id"@ != "inline_message_id"@,
        "chat_id"@ != "user_id"@,
        "chat_id"@ != "results"@,
        "user_id"@ != "results"@,
        "next_offset"@ != "is_personal"@,
        "next_offset"@ != "description"@,
        "is_personal"@ != "description"@,
        "button"@ != "result"@,
{
    reveal_strlit("text");
    reveal_strlit("show_alert");
    reveal_strlit("cache_time");
    reveal_strlit("url");
    reveal_strlit("callback_query_id");
    reveal_strlit("chat_id");
    reveal_strlit("user_id");
    reveal_strlit("inline_message_id");
    reveal_strlit("message_id");
    reveal_strlit("chat_type");
    reveal_strlit("inline_query_id");
    reveal_strlit("results");
    reveal_strlit("next_offset");
    reveal_strlit("is_personal");
    reveal_strlit("button");
    reveal_strlit("web_app_query_id");
    reveal_strlit("result");
    reveal_strlit("type");
    reveal_strlit("id");
    reveal_strlit("title");
    reveal_strlit("description");
    reveal_strlit("thumbnail_url");
    reveal_strlit("input_message_content");
    reveal_strlit("reply_markup");
    assert("text"@[1] != "type"@[1]);
    assert("show_alert"@[0] != "cache_time"@[0]);
    assert("show_alert"@[0] != "message_id"@[0]);
    assert("cache_time"@[0] != "message_id"@[0]);
    assert("callback_query_id"@[0] != "inline_message_id"@[0]);
    assert("chat_id"@[0] != "user_id"@[0]);
    assert("chat_id"@[0] != "results"@[0]);
    assert("user_id"@[0] != "results"@[0]);
    assert("next_offset"@[0] != "is_personal"@[0]);
    assert("next_offset"@[0] != "description"@[0]);
    assert("is_personal"@[0] != "description"@[0]);
    assert("button"@[0] != "result"@[0]);
}

/// An answer is one to the interaction that it was given for. A notification
/// says its text, as an alert exactly where it is one; an address is opened as
/// an address; what is only acknowledged says nothing.
pub proof fn law_answers_are_what_they_are(id: Seq<char>, response: InteractionResponse)
    requires
        answer_outcome(id, response) is Ok,
    ensures
        ({
            let call = answer_outcome(id, response)->Ok_0;
            &&& call.method == "answerCallbackQuery"@
            &&& id.len() > 0
            &&& json::text_in(call.payload, "callback_query_id"@) == Some(id)
            &&& response matches InteractionResponse::Notification { text, style, cache_time } ==> {
                &&& text@.len() <= 200
                &&& json::text_in(call.payload, "text"@) == Some(text@)
                &&& json::bool_in(call.payload, "show_alert"@) == Some(style is Alert)
                &&& json::member(call.payload, "url"@) is None
                &&& cache_time matches Some(span) ==> json::u64_in(call.payload, "cache_time"@)
                    == Some(span.seconds)
            }
            &&& response matches InteractionResponse::OpenUrl { url, cache_time } ==> {
                &&& json::text_in(call.payload, "url"@) == Some(url@)
                &&& json::member(call.payload, "text"@) is None
                &&& cache_time matches Some(span) ==> json::u64_in(call.payload, "cache_time"@)
                    == Some(span.seconds)
            }
            &&& response is Acknowledge ==> json::member(call.payload, "text"@) is None
                && json::member(call.payload, "url"@) is None
            &&& response is Acknowledge || response is Notification || response is OpenUrl
                || response is PlatformNative
        }),
{
    lemma_interaction_keys();
    let payload = response_payload(response)->Ok_0.insert("callback_query_id"@, JsonView::Text(id));
    request::lemma_call_member("answerCallbackQuery"@, payload, "callback_query_id"@);
    request::lemma_call_member("answerCallbackQuery"@, payload, "text"@);
    request::lemma_call_member("answerCallbackQuery"@, payload, "show_alert"@);
    request::lemma_call_member("answerCallbackQuery"@, payload, "url"@);
    request::lemma_call_member("answerCallbackQuery"@, payload, "cache_time"@);
}

/// A follow-up goes to the chat that the interaction came from, and to its user
/// alone exactly where it is ephemeral.
pub proof fn law_follow_ups_go_where_they_belong(
    target: MessageTarget,
    handle: InteractionResponseHandle,
    ephemeral: bool,
)
    requires
        followup_flaw(handle, ephemeral) is None,
        is_followup_target(target, handle, ephemeral),
    ensures
        ({
            let members = handle.platform_data->0.data@->Object_0;
            &&& handle.platform_data matches Some(native)
            &&& native.data@ is Object
            &&& json::i64_in(members, "chat_id"@) matches Some(chat) ==> text::i64_value(
                target.conversation.id@,
            ) == Some(chat)
            &&& json::i64_in(members, "chat_id"@) is None ==> json::text_in(members, "chat_id"@)
                == Some(target.conversation.id@)
            &&& ephemeral <==> target.recipients@.len() == 1
            &&& !ephemeral <==> target.recipients@.len() == 0
            &&& ephemeral ==> (json::i64_in(members, "user_id"@) matches Some(user)
                && text::i64_value(target.recipients@[0]@) == Some(user))
        }),
{
    let members = followup_chat(handle)->Ok_0.0;
    if let Some(chat) = json::i64_in(members, "chat_id"@) {
        text::lemma_decimal_round_trip(chat as int);
    }
    if let Some(user) = json::i64_in(members, "user_id"@) {
        text::lemma_decimal_round_trip(user as int);
    }
}

/// The message of an interaction is the inline one where its context names one,
/// and otherwise that with its number in its chat.
pub proof fn law_interactions_name_their_message(handle: InteractionResponseHandle)
    requires
        interaction_ref_outcome(handle) is Ok,
    ensures
        ({
            let found = interaction_ref_outcome(handle)->Ok_0;
            let members = handle.platform_data->0.data@->Object_0;
            let inline = json::text_in(members, "inline_message_id"@);
            &&& inline matches Some(id) ==> found.id == id && found.conversation is None && (
            found.native matches Some(native) && native.data matches JsonView::Object(kept)
                && json::text_in(kept, "inline_message_id"@) == Some(id))
            &&& inline is None ==> {
                &&& json::i64_in(members, "message_id"@) matches Some(number)
                &&& text::i64_value(found.id) == Some(number)
                &&& found.conversation matches Some(conversation)
                &&& json::i64_in(members, "chat_id"@) matches Some(chat) ==> text::i64_value(
                    conversation.id,
                ) == Some(chat)
                &&& json::i64_in(members, "chat_id"@) is None ==> json::text_in(members, "chat_id"@)
                    == Some(conversation.id)
            }
        }),
{
    let members = handle.platform_data->0.data@->Object_0;
    if let Some(chat) = json::i64_in(members, "chat_id"@) {
        text::lemma_decimal_round_trip(chat as int);
    }
    if let Some(number) = json::i64_in(members, "message_id"@) {
        text::lemma_decimal_round_trip(number as int);
    }
}

/// Only the wish to notify against all settings is given up; every other
/// option of a follow-up stays.
pub proof fn law_follow_ups_keep_their_options(options: MessageOptions)
    ensures
        options.notification is Silent <==> unforced(options).notification is Silent,
        !(unforced(options).notification is Force),
        unforced(options).protect_content == options.protect_content,
        unforced(options).reply == options.reply,
        unforced(options).components == options.components,
        unforced(options).visibility == options.visibility,
        unforced(options).link_preview == options.link_preview,
        unforced(options).delivery_time == options.delivery_time,
{
}

/// Suggestions are given for the query that asked for them, in their order,
/// with the place where more of them start, or with none where there are no
/// more. What the query itself said is not repeated.
pub proof fn law_suggestions_answer_the_query(
    request: SuggestionRequest,
    suggestions: Seq<Suggestion>,
    next: Option<String>,
    i: int,
)
    requires
        suggestions_outcome(request, suggestions, next) is Ok,
        0 <= i < suggestions.len(),
    ensures
        ({
            let call = suggestions_outcome(request, suggestions, next)->Ok_0;
            &&& call.method == "answerInlineQuery"@
            &&& suggestions.len() <= 50
            &&& json::text_in(call.payload, "inline_query_id"@) == Some(request.id@)
            &&& next matches Some(offset) ==> json::text_in(call.payload, "next_offset"@) == Some(
                offset@,
            )
            &&& next is None ==> (json::text_in(call.payload, "next_offset"@) matches Some(offset)
                && offset.len() == 0)
            &&& json::array_in(call.payload, "results"@) matches Some(results)
            &&& results.len() == suggestions.len()
            &&& suggestions::inline_result_outcome(suggestions[i]) matches Ok(result)
            &&& results[i] == json::stripped(result)
        }),
{
    lemma_interaction_keys();
    let results = list::collect(suggestions, suggestion_results())->Ok_0;
    list::lemma_collect_ok(suggestions, suggestion_results());
    assert(suggestion_results()(i, suggestions[i]) == Ok::<JsonView, ErrorView>(results[i]));
    json::lemma_stripped_item(results, i);
    let payload = json::no_fields().insert("inline_query_id"@, JsonView::Text(request.id@)).insert(
        "results"@,
        JsonView::Array(results),
    ).insert(
        "next_offset"@,
        JsonView::Text(
            match next {
                Some(next) => next@,
                None => Seq::empty(),
            },
        ),
    );
    let all = match request.platform_data {
        None => payload,
        Some(native) => answer_members(
            payload,
            native::native_object_outcome(native, "suggestion request"@)->Ok_0,
        )->Ok_0,
    };
    request::lemma_call_member("answerInlineQuery"@, all, "inline_query_id"@);
    request::lemma_call_member("answerInlineQuery"@, all, "next_offset"@);
    request::lemma_call_member("answerInlineQuery"@, all, "results"@);
}

/// A Web App is answered by its own query, with an article that sends the
/// message.
pub proof fn law_web_apps_are_answered(query_id: Option<Seq<char>>, message: OutgoingMessage)
    requires
        web_app_answer_outcome(query_id, message) is Ok,
    ensures
        ({
            let call = web_app_answer_outcome(query_id, message)->Ok_0;
            &&& call.method == "answerWebAppQuery"@
            &&& query_id matches Some(id)
            &&& json::text_in(call.payload, "web_app_query_id"@) == Some(id)
            &&& json::object_in(call.payload, "result"@) matches Some(result)
            &&& json::text_in(result, "type"@) == Some("article"@)
            &&& json::text_in(result, "id"@) == Some(id)
        }),
{
    lemma_interaction_keys();
    let id = query_id->0;
    let result = web_app_result_outcome(id, message)->Ok_0;
    let (input, markup) = suggestions::inline_message_outcome(message)->Ok_0;
    let written = json::no_fields().insert("type"@, JsonView::Text("article"@)).insert(
        "id"@,
        JsonView::Text(id),
    ).insert("title"@, JsonView::Text("Web App result"@)).insert("description"@, JsonView::Null).insert(
        "thumbnail_url"@,
        JsonView::Null,
    ).insert("input_message_content"@, input).insert(
        "reply_markup"@,
        match markup {
            Some(markup) => markup,
            None => JsonView::Null,
        },
    );
    json::lemma_stripped_member(written, "type"@);
    json::lemma_stripped_member(written, "id"@);
    json::lemma_stripped_member(result->Object_0, "type"@);
    json::lemma_stripped_member(result->Object_0, "id"@);
    let payload = json::no_fields().insert("web_app_query_id"@, JsonView::Text(id)).insert(
        "result"@,
        result,
    );
    request::lemma_call_member("answerWebAppQuery"@, payload, "web_app_query_id"@);
    request::lemma_call_member("answerWebAppQuery"@, payload, "result"@);
}

/// A notification may hold two hundred characters, and any address but an empty
/// one can be opened.
pub proof fn law_answers_are_refused_only_for_cause(id: Seq<char>, response: InteractionResponse)
    requires
        id.len() > 0,
    ensures
        response matches InteractionResponse::Notification { text, .. } ==> (answer_outcome(
            id,
            response,
        ) is Ok <==> text@.len() <= 200),
        response matches InteractionResponse::OpenUrl { url, .. } ==> (answer_outcome(id, response) is Ok
            <==> url@.len() > 0),
        response is Acknowledge ==> answer_outcome(id, response) is Ok,
{
}

/// Of what a query said only how its answer is kept and for whom is passed on.
pub proof fn law_answers_pass_on_how_they_are_kept(
    payload: Map<Seq<char>, JsonView>,
    members: Map<Seq<char>, JsonView>,
)
    requires
        answer_members(payload, members) is Ok,
    ensures
        ({
            let all = answer_members(payload, members)->Ok_0;
            &&& json::member(members, "cache_time"@) matches Some(value) ==> json::member(
                all,
                "cache_time"@,
            ) == Some(value)
            &&& json::member(members, "is_personal"@) matches Some(value) ==> json::member(
                all,
                "is_personal"@,
            ) == Some(value)
            &&& json::member(members, "button"@) matches Some(value) ==> json::member(all, "button"@)
                == Some(value)
            &&& json::member(all, "query"@) == json::member(payload, "query"@)
            &&& json::member(all, "from"@) == json::member(payload, "from"@)
        }),
{
    lemma_interaction_keys();
    reveal_strlit("query");
    reveal_strlit("from");
    reveal_strlit("cache_time");
    reveal_strlit("is_personal");
    reveal_strlit("button");
    assert("query"@.len() == 5 && "from"@.len() == 4);
    assert("cache_time"@.len() == 10 && "is_personal"@.len() == 11 && "button"@.len() == 6);
}

/// The sort of the chat of an interaction is the one that its context names.
pub proof fn law_contexts_name_the_chat(members: Map<Seq<char>, JsonView>)
    ensures
        json::text_in(members, "chat_type"@) == Some("private"@) ==> chat_kind(members) is Direct,
        json::text_in(members, "chat_type"@) == Some("channel"@) ==> chat_kind(members) is Channel,
        json::text_in(members, "chat_type"@) is None ==> chat_kind(members) is Unknown,
{
    reveal_strlit("private");
    reveal_strlit("channel");
    reveal_strlit("group");
    reveal_strlit("supergroup");
    assert("private"@[0] != "channel"@[0]);
    assert("private"@.len() == 7 && "channel"@.len() == 7 && "group"@.len() == 5
        && "supergroup"@.len() == 10);
}

} // verus!
