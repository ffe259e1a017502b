//! Forum topics.
use crate::api::address;
use crate::api::address::{add_members, telegram_conversation_payload};
use crate::api::request;
use crate::api::request::{make_call, Request, RequestView};
use crate::conversation::{
    ConversationKind, ConversationRef, ConversationView, KindView, Thread, ThreadOptions,
    ThreadState,
};
use crate::error;
use crate::error::{message, Error, ErrorView};
use crate::json;
use crate::json::{Fields, Json, JsonView};
use crate::native;
use crate::native::{make_native, merge_optional_native};
use crate::text;
use crate::text::i64_text;
use vstd::prelude::*;

verus! {

/// The options ask for nothing that topics do not have.
pub open spec fn are_topic_options(options: ThreadOptions) -> bool {
    options.auto_close_after is None && options.invitable is None && options.slow_mode is None
}

/// The parameters with the title and the icon of a topic, and its native
/// members.
pub open spec fn topic_payload(
    payload: Map<Seq<char>, JsonView>,
    options: ThreadOptions,
) -> Result<Map<Seq<char>, JsonView>, ErrorView> {
    let titled = match options.title {
        Some(title) => json::no_fields().insert("name"@, JsonView::Text(title@)),
        None => json::no_fields(),
    };
    let adorned = match options.icon {
        Some(icon) => titled.insert("icon_custom_emoji_id"@, JsonView::Text(icon@)),
        None => titled,
    };
    match address::with_members(payload, adorned) {
        Err(e) => Err(e),
        Ok(all) => native::optional_native_merged(all, options.platform_data, "thread options"@),
    }
}

fn write_topic_payload(payload: Fields, options: &ThreadOptions) -> (result: Result<Fields, Error>)
    ensures
        native::shown_fields(result) == topic_payload(json::fields(payload), *options),
{
    let mut own = Fields::none();
    if let Some(title) = &options.title {
        own.put("name", Json::text(title.as_str()));
    }
    if let Some(icon) = &options.icon {
        own.put("icon_custom_emoji_id", Json::text(icon.as_str()));
    }
    let all = add_members(payload, &own)?;
    merge_optional_native(all, &options.platform_data, "thread options")
}

/// The call that changes a topic, or makes one.
pub open spec fn topic_outcome(
    method: Seq<char>,
    conversation: ConversationRef,
    options: ThreadOptions,
) -> Result<RequestView, ErrorView> {
    if !are_topic_options(options) {
        error::refused(
            "Telegram forum topics do not support auto-close, invitable, or per-topic slow-mode options"@,
        )
    } else {
        match address::conversation_payload(conversation) {
            Err(e) => Err(e),
            Ok(payload) => request::requested(method, topic_payload(payload, options)),
        }
    }
}

fn topic_call(method: &str, conversation: &ConversationRef, options: &ThreadOptions) -> (result:
    Result<Request, Error>)
    ensures
        error::shown(result) == topic_outcome(method@, *conversation, *options),
{
    if !(options.auto_close_after.is_none() && options.invitable.is_none()
        && options.slow_mode.is_none()) {
        return Err(
            message(
                "Telegram forum topics do not support auto-close, invitable, or per-topic slow-mode options",
            ),
        );
    }
    let payload = telegram_conversation_payload(conversation)?;
    let payload = write_topic_payload(payload, options)?;
    Ok(make_call(method, payload))
}

/// The call that makes a topic.
pub open spec fn create_thread_outcome(parent: ConversationRef, options: ThreadOptions) -> Result<
    RequestView,
    ErrorView,
> {
    if options.title is None {
        error::refused("Telegram forum topics require a title"@)
    } else {
        topic_outcome("createForumTopic"@, parent, options)
    }
}

/// The call that makes a topic.
pub fn create_thread(parent: &ConversationRef, options: &ThreadOptions) -> (result: Result<
    Request,
    Error,
>)
    ensures
        error::shown(result) == create_thread_outcome(*parent, *options),
{
    if options.title.is_none() {
        return Err(message("Telegram forum topics require a title"));
    }
    topic_call("createForumTopic", parent, options)
}

/// A topic that Telegram made.
#[derive(Debug, PartialEq)]
pub struct TelegramForumTopic {
    pub message_thread_id: i64,
    pub name: String,
    pub icon_custom_emoji_id: Option<String>,
}

/// The thread is the topic in its chat.
pub open spec fn reads_topic(thread: Thread, topic: TelegramForumTopic, parent: ConversationRef) -> bool {
    &&& thread.conversation@ == (ConversationView {
        id: text::decimal(topic.message_thread_id as int),
        kind: KindView::Topic,
        parent: Some(Box::new(parent@)),
        native: None,
    })
    &&& json::optional_chars(thread.title) == Some(topic.name@)
    &&& thread.creator is None
    &&& thread.state is Open
    &&& thread.created_at is None
    &&& thread.auto_close_at is None
    &&& native::optional_native(thread.platform_data) == match topic.icon_custom_emoji_id {
        Some(icon) => Some(
            native::telegram_native(
                JsonView::Object(
                    json::no_fields().insert("icon_custom_emoji_id"@, JsonView::Text(icon@)),
                ),
            ),
        ),
        None => None,
    }
}

/// Reads a topic that Telegram made.
pub fn created_thread(topic: TelegramForumTopic, parent: ConversationRef) -> (thread: Thread)
    ensures
        reads_topic(thread, topic, parent),
{
    let platform_data = match &topic.icon_custom_emoji_id {
        Some(icon) => {
            let mut object = Fields::none();
            object.put("icon_custom_emoji_id", Json::text(icon.as_str()));
            Some(make_native(Json::object(object)))
        },
        None => None,
    };
    Thread {
        conversation: ConversationRef {
            id: i64_text(topic.message_thread_id),
            kind: ConversationKind::Topic,
            parent: Some(Box::new(parent)),
            platform_data: None,
        },
        title: Some(topic.name),
        creator: None,
        state: ThreadState::Open,
        created_at: None,
        auto_close_at: None,
        platform_data,
    }
}

/// The call that changes a topic.
pub open spec fn edit_thread_outcome(thread: ConversationRef, options: ThreadOptions) -> Result<
    RequestView,
    ErrorView,
> {
    topic_outcome("editForumTopic"@, thread, options)
}

/// The call that changes a topic.
pub fn edit_thread(thread: &ConversationRef, options: &ThreadOptions) -> (result: Result<
    Request,
    Error,
>)
    ensures
        error::shown(result) == edit_thread_outcome(*thread, *options),
{
    topic_call("editForumTopic", thread, options)
}

/// The thread after the change.
pub fn edited_thread(conversation: ConversationRef, title: Option<String>) -> (thread: Thread)
    ensures
        thread.conversation == conversation,
        thread.title == title,
        thread.creator is None,
        thread.state is Open,
        thread.created_at is None,
        thread.auto_close_at is None,
        thread.platform_data is None,
{
    Thread {
        conversation,
        title,
        creator: None,
        state: ThreadState::Open,
        created_at: None,
        auto_close_at: None,
        platform_data: None,
    }
}

/// The call that closes a topic.
pub fn close_thread(thread: &ConversationRef) -> (result: Result<Request, Error>)
    ensures
        error::shown(result) == request::requested(
            "closeForumTopic"@,
            address::conversation_payload(*thread),
        ),
{
    let payload = telegram_conversation_payload(thread)?;
    Ok(make_call("closeForumTopic", payload))
}

/// The call that opens a topic again.
pub fn reopen_thread(thread: &ConversationRef) -> (result: Result<Request, Error>)
    ensures
        error::shown(result) == request::requested(
            "reopenForumTopic"@,
            address::conversation_payload(*thread),
        ),
{
    let payload = telegram_conversation_payload(thread)?;
    Ok(make_call("reopenForumTopic", payload))
}

/// The call that deletes a topic.
pub fn delete_thread(thread: &ConversationRef) -> (result: Result<Request, Error>)
    ensures
        error::shown(result) == request::requested(
            "deleteForumTopic"@,
            address::conversation_payload(*thread),
        ),
{
    let payload = telegram_conversation_payload(thread)?;
    Ok(make_call("deleteForumTopic", payload))
}

/// A topic is made in its forum and changed where it is, by the method for each,
/// with the name and the icon that were given.
pub proof fn law_topics_are_named(conversation: ConversationRef, options: ThreadOptions)
    ensures
        create_thread_outcome(conversation, options) matches Ok(call) ==> call.method
            == "createForumTopic"@ && options.title is Some && names_topic(
            call.payload,
            conversation,
            options,
        ),
        edit_thread_outcome(conversation, options) matches Ok(call) ==> call.method
            == "editForumTopic"@ && names_topic(call.payload, conversation, options),
{
    if topic_outcome("createForumTopic"@, conversation, options) is Ok {
        lemma_topic_named("createForumTopic"@, conversation, options);
    }
    if topic_outcome("editForumTopic"@, conversation, options) is Ok {
        lemma_topic_named("editForumTopic"@, conversation, options);
    }
}

/// The parameters give a topic of the chat its name and its icon.
pub open spec fn names_topic(
    payload: Map<Seq<char>, JsonView>,
    conversation: ConversationRef,
    options: ThreadOptions,
) -> bool {
    &&& options.title matches Some(title) ==> json::text_in(payload, "name"@) == Some(title@)
    &&& options.icon matches Some(icon) ==> json::text_in(payload, "icon_custom_emoji_id"@) == Some(
        icon@,
    )
    &&& json::member(payload, "chat_id"@) == Some(
        match text::i64_value(address::root(conversation).id@) {
            Some(id) => JsonView::Integer(id as int),
            None => JsonView::Text(address::root(conversation).id@),
        },
    )
}

proof fn lemma_topic_keys()
    ensures
        "name"@.len() == 4,
        "icon_custom_emoji_id"@.len() == 20,
        "chat_id"@.len() == 7,
{
    reveal_strlit("name");
    reveal_strlit("icon_custom_emoji_id");
    reveal_strlit("chat_id");
}

proof fn lemma_topic_named(method: Seq<char>, conversation: ConversationRef, options: ThreadOptions)
    requires
        topic_outcome(method, conversation, options) is Ok,
    ensures
        topic_outcome(method, conversation, options)->Ok_0.method == method,
        names_topic(topic_outcome(method, conversation, options)->Ok_0.payload, conversation, options),
{
    lemma_topic_keys();
    let place = address::conversation_payload(conversation)->Ok_0;
    address::lemma_chat_is_named(conversation);
    let titled = match options.title {
        Some(title) => json::no_fields().insert("name"@, JsonView::Text(title@)),
        None => json::no_fields(),
    };
    let own = match options.icon {
        Some(icon) => titled.insert("icon_custom_emoji_id"@, JsonView::Text(icon@)),
        None => titled,
    };
    let both = address::with_members(place, own)->Ok_0;
    let all = topic_payload(place, options)->Ok_0;
    address::lemma_members_kept(place, own, "name"@);
    native::lemma_optional_keeps(both, options.platform_data, "thread options"@, "name"@);
    request::lemma_call_member(method, all, "name"@);
    address::lemma_members_kept(place, own, "icon_custom_emoji_id"@);
    native::lemma_optional_keeps(both, options.platform_data, "thread options"@, "icon_custom_emoji_id"@);
    request::lemma_call_member(method, all, "icon_custom_emoji_id"@);
    address::lemma_members_kept(place, own, "chat_id"@);
    native::lemma_optional_keeps(both, options.platform_data, "thread options"@, "chat_id"@);
    request::lemma_call_member(method, all, "chat_id"@);
}

/// A topic that was made is an open topic of its forum, with the number and the
/// name that Telegram gave it, and is addressed by that number afterwards.
pub proof fn law_new_topics_are_read(thread: Thread, topic: TelegramForumTopic, parent: ConversationRef)
    requires
        reads_topic(thread, topic, parent),
    ensures
        text::i64_value(thread.conversation.id@) == Some(topic.message_thread_id),
        thread.conversation.kind is Topic,
        thread.conversation.parent matches Some(forum) && forum@ == parent@,
        thread.title matches Some(title) && title@ == topic.name@,
        thread.state is Open,
{
    text::lemma_decimal_round_trip(topic.message_thread_id as int);
}

/// Closing a topic closes it, opening it again opens it, and deleting it
/// deletes it: each by its own method, and each the topic that was named.
pub proof fn law_topics_are_closed_opened_and_deleted(
    thread: &ConversationRef,
    closing: Result<Request, Error>,
    opening: Result<Request, Error>,
    deleting: Result<Request, Error>,
)
    requires
        call_ensures(close_thread, (thread,), closing),
        call_ensures(reopen_thread, (thread,), opening),
        call_ensures(delete_thread, (thread,), deleting),
    ensures
        closing is Ok <==> opening is Ok,
        opening is Ok <==> deleting is Ok,
        closing matches Ok(call) ==> call@.method == "closeForumTopic"@,
        opening matches Ok(call) ==> call@.method == "reopenForumTopic"@,
        deleting matches Ok(call) ==> call@.method == "deleteForumTopic"@,
        closing is Ok ==> closing->Ok_0@.payload == opening->Ok_0@.payload
            && opening->Ok_0@.payload == deleting->Ok_0@.payload && json::member(
            closing->Ok_0@.payload,
            "chat_id"@,
        ) == Some(
            match text::i64_value(address::root(*thread).id@) {
                Some(id) => JsonView::Integer(id as int),
                None => JsonView::Text(address::root(*thread).id@),
            },
        ),
{
    if let Ok(place) = address::conversation_payload(*thread) {
        address::lemma_chat_is_named(*thread);
        request::lemma_call_member("closeForumTopic"@, place, "chat_id"@);
    }
}

} // verus!
