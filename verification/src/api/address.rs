//! Chats and messages as parameters of calls.
use crate::conversation;
use crate::conversation::{
    ConversationKind, ConversationRef, KindView, MessageRef, MessageRefView,
};
use crate::error;
use crate::error::{message, Error, ErrorView};
use crate::json;
use crate::json::{Fields, Json, JsonView};
use crate::native;
use crate::native::{
    make_native, merge_fields, telegram_native_object, telegram_platform, PlatformNativeData,
};
use crate::telegram::Message;
use crate::text;
use crate::text::{i64_text, parse_i64, same};
use crate::utils;
use crate::utils::split_id;
use vstd::prelude::*;

verus! {

/// A chat by its number, or by its name where it is not a number.
pub open spec fn chat_id_view(chat_id: Seq<char>) -> JsonView {
    match text::i64_value(chat_id) {
        Some(id) => JsonView::Integer(id as int),
        None => JsonView::Text(chat_id),
    }
}

/// A chat by its number, or by its name where it is not a number.
pub fn chat_id_value(chat_id: &str) -> (value: Json)
    ensures
        value@ == chat_id_view(chat_id@),
{
    match parse_i64(chat_id) {
        Some(id) => Json::integer(id),
        None => Json::text(chat_id),
    }
}

/// The outermost conversation around a conversation.
pub open spec fn root(conversation: ConversationRef) -> ConversationRef
    decreases conversation,
{
    match conversation.parent {
        Some(parent) => root(*parent),
        None => conversation,
    }
}

/// Finds the outermost conversation around a conversation.
pub fn root_conversation(conversation: &ConversationRef) -> (result: &ConversationRef)
    ensures
        *result == root(*conversation),
    decreases conversation,
{
    match &conversation.parent {
        Some(parent) => root_conversation(&**parent),
        None => conversation,
    }
}

/// `payload` with the native members of a conversation, but for those that
/// say which conversation it is.
pub open spec fn conversation_merged(
    payload: Map<Seq<char>, JsonView>,
    conversation: ConversationRef,
) -> Result<Map<Seq<char>, JsonView>, ErrorView> {
    match conversation.platform_data {
        None => Ok(payload),
        Some(native) => match native::native_object_outcome(native, "conversation data"@) {
            Err(e) => Err(e),
            Ok(extra) => native::merged(
                payload,
                extra.remove("chat_id"@).remove("message_thread_id"@).remove(
                    "direct_messages_topic_id"@,
                ),
                "Telegram conversation data"@,
            ),
        },
    }
}

/// Adds the native members of a conversation, but for those that say which
/// conversation it is.
pub fn merge_conversation_native_fields(payload: Fields, conversation: &ConversationRef) -> (result:
    Result<Fields, Error>)
    ensures
        native::shown_fields(result) == conversation_merged(json::fields(payload), *conversation),
{
    match &conversation.platform_data {
        None => Ok(payload),
        Some(native) => {
            let mut extra = telegram_native_object(native, "conversation data")?;
            let _ = extra.take("chat_id");
            let _ = extra.take("message_thread_id");
            let _ = extra.take("direct_messages_topic_id");
            merge_fields(payload, &extra, "Telegram conversation data")
        },
    }
}

/// The parameters that address the chat of a conversation, or another chat
/// where there is no conversation.
pub open spec fn chat_payload(conversation: Option<ConversationRef>, fallback: Seq<char>) -> Result<
    Map<Seq<char>, JsonView>,
    ErrorView,
> {
    match conversation {
        None => Ok(json::no_fields().insert("chat_id"@, chat_id_view(fallback))),
        Some(conversation) => conversation_merged(
            json::no_fields().insert("chat_id"@, chat_id_view(root(conversation).id@)),
            conversation,
        ),
    }
}

/// Addresses the chat of a conversation, or another chat where there is no
/// conversation.
pub fn telegram_chat_payload(conversation: &Option<ConversationRef>, fallback: &str) -> (result:
    Result<Fields, Error>)
    ensures
        native::shown_fields(result) == chat_payload(*conversation, fallback@),
{
    let mut payload = Fields::none();
    match conversation {
        None => {
            payload.put("chat_id", chat_id_value(fallback));
            Ok(payload)
        },
        Some(conversation) => {
            let chat = root_conversation(conversation);
            payload.put("chat_id", chat_id_value(chat.id.as_str()));
            merge_conversation_native_fields(payload, conversation)
        },
    }
}

/// The native data of a conversation names a topic of direct messages.
pub open spec fn names_direct_topic(conversation: ConversationRef) -> bool {
    conversation.platform_data matches Some(native) && native.data@ is Object
        && native.data@->Object_0.contains_key("direct_messages_topic_id"@)
}

fn has_direct_topic(conversation: &ConversationRef) -> (result: bool)
    ensures
        result == names_direct_topic(*conversation),
{
    match &conversation.platform_data {
        Some(native) => native.data.get("direct_messages_topic_id").is_some(),
        None => false,
    }
}

/// A thread or a topic.
pub open spec fn is_topic(conversation: ConversationRef) -> bool {
    conversation.kind is Thread || conversation.kind is Topic
}

/// Native data, where there is any, is addressed to Telegram.
pub open spec fn platform_rule(native: Option<PlatformNativeData>, context: Seq<char>) -> Result<
    (),
    ErrorView,
> {
    match native {
        None => Ok(()),
        Some(native) => native::platform_outcome(native@, context),
    }
}

/// Checks that native data, where there is any, is addressed to Telegram.
pub fn check_platform(native: &Option<PlatformNativeData>, context: &str) -> (result: Result<
    (),
    Error,
>)
    ensures
        error::shown(result) == platform_rule(*native, context@),
{
    match native {
        Some(native) => telegram_platform(native, context),
        None => Ok(()),
    }
}

/// The native data of a conversation and of those around it is addressed to
/// Telegram.
pub open spec fn conversation_rule(conversation: ConversationRef) -> Result<(), ErrorView>
    decreases conversation,
{
    match platform_rule(conversation.platform_data, "conversation data"@) {
        Err(e) => Err(e),
        Ok(_) => match conversation.parent {
            Some(parent) => conversation_rule(*parent),
            None => Ok(()),
        },
    }
}

/// Checks that the native data of a conversation and of those around it is
/// addressed to Telegram.
pub fn check_conversation(conversation: &ConversationRef) -> (result: Result<(), Error>)
    ensures
        error::shown(result) == conversation_rule(*conversation),
    decreases conversation,
{
    check_platform(&conversation.platform_data, "conversation data")?;
    match &conversation.parent {
        Some(parent) => check_conversation(&**parent),
        None => Ok(()),
    }
}

/// The parameters that address a conversation: its chat, and the thread or
/// topic in it.
pub open spec fn conversation_payload(conversation: ConversationRef) -> Result<
    Map<Seq<char>, JsonView>,
    ErrorView,
> {
    let chat = json::no_fields().insert("chat_id"@, chat_id_view(root(conversation).id@));
    let place = if is_topic(conversation) {
        match text::i64_value(conversation.id@) {
            None => error::refused("invalid Telegram thread or topic id"@),
            Some(id) => Ok(
                chat.insert(
                    if names_direct_topic(conversation) {
                        "direct_messages_topic_id"@
                    } else {
                        "message_thread_id"@
                    },
                    JsonView::Integer(id as int),
                ),
            ),
        }
    } else {
        Ok(chat)
    };
    match conversation_rule(conversation) {
        Err(e) => Err(e),
        Ok(_) => match place {
            Err(e) => Err(e),
            Ok(place) => match conversation_merged(place, root(conversation)) {
                Err(e) => Err(e),
                Ok(merged) => if conversation.parent is None {
                    Ok(merged)
                } else {
                    conversation_merged(merged, conversation)
                },
            },
        },
    }
}

/// Addresses a conversation: its chat, and the thread or topic in it.
pub fn telegram_conversation_payload(conversation: &ConversationRef) -> (result: Result<
    Fields,
    Error,
>)
    ensures
        native::shown_fields(result) == conversation_payload(*conversation),
{
    check_conversation(conversation)?;
    let chat = root_conversation(conversation);
    let mut payload = Fields::none();
    payload.put("chat_id", chat_id_value(chat.id.as_str()));
    let topic = match &conversation.kind {
        ConversationKind::Thread => true,
        ConversationKind::Topic => true,
        _ => false,
    };
    if topic {
        let id = match parse_i64(conversation.id.as_str()) {
            Some(id) => id,
            None => {
                return Err(message("invalid Telegram thread or topic id"));
            },
        };
        if has_direct_topic(conversation) {
            payload.put("direct_messages_topic_id", Json::integer(id));
        } else {
            payload.put("message_thread_id", Json::integer(id));
        }
    }
    let payload = merge_conversation_native_fields(payload, chat)?;
    if conversation.parent.is_none() {
        Ok(payload)
    } else {
        merge_conversation_native_fields(payload, conversation)
    }
}

/// The parameters that address a conversation with others added. What the
/// conversation says in native terms is not replaced: what is said twice is
/// refused.
pub open spec fn with_members(
    place: Map<Seq<char>, JsonView>,
    own: Map<Seq<char>, JsonView>,
) -> Result<Map<Seq<char>, JsonView>, ErrorView> {
    native::merged(place, own, "Telegram conversation data"@)
}

/// Adds parameters to those that address a conversation.
pub fn add_members(place: Fields, own: &Fields) -> (result: Result<Fields, Error>)
    ensures
        native::shown_fields(result) == with_members(json::fields(place), json::fields(*own)),
{
    merge_fields(place, own, "Telegram conversation data")
}

/// The native data of a message and of the conversation around it is addressed
/// to Telegram.
pub open spec fn reference_rule(message: MessageRef) -> Result<(), ErrorView> {
    match platform_rule(message.platform_data, "message reference"@) {
        Err(e) => Err(e),
        Ok(_) => match message.conversation {
            Some(conversation) => conversation_rule(conversation),
            None => Ok(()),
        },
    }
}

/// Checks that the native data of a message and of the conversation around it
/// is addressed to Telegram.
pub fn check_reference(message_ref: &MessageRef) -> (result: Result<(), Error>)
    ensures
        error::shown(result) == reference_rule(*message_ref),
{
    check_platform(&message_ref.platform_data, "message reference")?;
    match &message_ref.conversation {
        Some(conversation) => check_conversation(conversation),
        None => Ok(()),
    }
}

/// The chat and the number of a message: both from its id, or the chat from
/// the conversation around it. Native data of another platform is refused.
pub open spec fn message_ref_outcome(message: MessageRef) -> Result<(Seq<char>, i64), ErrorView> {
    match reference_rule(message) {
        Err(e) => Err(e),
        Ok(_) => message_number(message),
    }
}

/// The chat and the number of a message, whatever its native data.
pub open spec fn message_number(message: MessageRef) -> Result<(Seq<char>, i64), ErrorView> {
    match utils::split_id_outcome(message.id@) {
        Ok(parts) => Ok(parts),
        Err(_) => match message.conversation {
            None => error::refused("Telegram message reference has no conversation"@),
            Some(conversation) => match text::i64_value(message.id@) {
                None => error::refused("invalid Telegram message id"@),
                Some(number) => Ok((root(conversation).id@, number)),
            },
        },
    }
}

/// An outcome that is a chat and a number.
pub open spec fn shown_address(result: Result<(String, i64), Error>) -> Result<
    (Seq<char>, i64),
    ErrorView,
> {
    match result {
        Ok((chat, number)) => Ok((chat@, number)),
        Err(e) => Err(e@),
    }
}

/// Finds the chat and the number of a message.
pub fn telegram_message_ref(message_ref: &MessageRef) -> (result: Result<(String, i64), Error>)
    ensures
        shown_address(result) == message_ref_outcome(*message_ref),
{
    check_reference(message_ref)?;
    if let Ok((chat, number)) = split_id(message_ref.id.as_str()) {
        return Ok((chat, number));
    }
    match &message_ref.conversation {
        None => Err(message("Telegram message reference has no conversation")),
        Some(conversation) => {
            let chat = root_conversation(conversation);
            match parse_i64(message_ref.id.as_str()) {
                None => Err(message("invalid Telegram message id")),
                Some(number) => Ok((chat.id.clone(), number)),
            }
        },
    }
}

/// `to` with the member of `from` under `key`, where there is one.
pub open spec fn with_copied(
    to: Map<Seq<char>, JsonView>,
    from: Map<Seq<char>, JsonView>,
    key: Seq<char>,
) -> Map<Seq<char>, JsonView> {
    if from.contains_key(key) {
        to.insert(key, from[key])
    } else {
        to
    }
}

/// Copies the member of `from` under `key`, where there is one.
pub fn copy_member(to: Fields, from: &Fields, key: &str) -> (result: Fields)
    ensures
        json::fields(result) == with_copied(json::fields(to), json::fields(*from), key@),
{
    let mut to = to;
    if let Some(value) = from.member(key) {
        to.put(key, value.clone());
    }
    to
}

/// Native data that holds members, where there are any.
pub open spec fn native_of(members: Map<Seq<char>, JsonView>) -> Option<native::NativeView> {
    if members == json::no_fields() {
        None
    } else {
        Some(native::telegram_native(JsonView::Object(members)))
    }
}

/// Native data that holds members, where there are any.
pub fn native_from(members: Fields) -> (native: Option<PlatformNativeData>)
    ensures
        native::optional_native(native) == native_of(json::fields(members)),
{
    if members.is_none() {
        None
    } else {
        Some(make_native(Json::object(members)))
    }
}

/// What of a sent message a reference to it has to keep: the connection, the
/// receiver, and the number of an ephemeral message.
pub open spec fn sent_native(sent: Message) -> Map<Seq<char>, JsonView> {
    let extra = json::fields(sent.extra);
    let kept = with_copied(
        with_copied(json::no_fields(), extra, "business_connection_id"@),
        extra,
        "receiver_user_id"@,
    );
    if json::bool_in(extra, "is_ephemeral"@) == Some(true) {
        kept.insert("ephemeral_message_id"@, JsonView::Integer(sent.message_id as int))
    } else {
        kept
    }
}

/// A reference to a message that was sent to a conversation.
pub open spec fn sent_ref_view(sent: Message, conversation: ConversationRef) -> MessageRefView {
    MessageRefView {
        id: text::decimal(sent.message_id as int),
        conversation: Some(conversation@),
        native: native_of(sent_native(sent)),
    }
}

/// Makes a reference to a message that was sent to a conversation.
pub fn telegram_sent_ref(sent: &Message, conversation: &ConversationRef) -> (result: MessageRef)
    ensures
        result@ == sent_ref_view(*sent, *conversation),
{
    let kept = copy_member(Fields::none(), &sent.extra, "business_connection_id");
    let mut kept = copy_member(kept, &sent.extra, "receiver_user_id");
    let ephemeral = match sent.extra.bool_at("is_ephemeral") {
        Some(ephemeral) => ephemeral,
        None => false,
    };
    if ephemeral {
        kept.put("ephemeral_message_id", Json::integer(sent.message_id));
    }
    MessageRef {
        id: i64_text(sent.message_id),
        conversation: Some(conversation.clone()),
        platform_data: native_from(kept),
    }
}

/// The kind of conversation that Telegram's name stands for.
pub open spec fn conversation_kind_view(kind: Seq<char>) -> KindView {
    if kind == "private"@ {
        KindView::Direct
    } else if kind == "group"@ || kind == "supergroup"@ {
        KindView::Group
    } else if kind == "channel"@ {
        KindView::Channel
    } else {
        KindView::PlatformNative(kind)
    }
}

/// The kind of conversation that Telegram's name stands for.
pub fn telegram_conversation_kind(kind: &str) -> (result: ConversationKind)
    ensures
        result@ == conversation_kind_view(kind@),
{
    if same(kind, "private") {
        ConversationKind::Direct
    } else if same(kind, "group") || same(kind, "supergroup") {
        ConversationKind::Group
    } else if same(kind, "channel") {
        ConversationKind::Channel
    } else {
        ConversationKind::PlatformNative(kind.to_owned())
    }
}

proof fn lemma_place_names()
    ensures
        "chat_id"@.len() == 7,
        "message_thread_id"@.len() == 17,
        "direct_messages_topic_id"@.len() == 24,
{
    reveal_strlit("chat_id");
    reveal_strlit("message_thread_id");
    reveal_strlit("direct_messages_topic_id");
}

/// The parameters that address a conversation with others added say all of
/// both.
pub proof fn lemma_members_kept(
    place: Map<Seq<char>, JsonView>,
    own: Map<Seq<char>, JsonView>,
    key: Seq<char>,
)
    requires
        with_members(place, own) is Ok,
    ensures
        json::member(own, key) matches Some(value) ==> json::member(
            with_members(place, own)->Ok_0,
            key,
        ) == Some(value),
        json::member(place, key) matches Some(value) ==> json::member(
            with_members(place, own)->Ok_0,
            key,
        ) == Some(value),
        json::member(own, key) is None && json::member(place, key) is None ==> json::member(
            with_members(place, own)->Ok_0,
            key,
        ) is None,
{
    native::lemma_merged_keeps(
        place,
        own,
        "Telegram conversation data"@ + " duplicates field "@,
        key,
    );
}

proof fn lemma_conversation_kept(
    payload: Map<Seq<char>, JsonView>,
    conversation: ConversationRef,
    key: Seq<char>,
)
    requires
        conversation_merged(payload, conversation) is Ok,
        key == "chat_id"@ || key == "message_thread_id"@ || key == "direct_messages_topic_id"@,
    ensures
        json::member(conversation_merged(payload, conversation)->Ok_0, key) == json::member(
            payload,
            key,
        ),
{
    if let Some(native) = conversation.platform_data {
        let extra = native::native_object_outcome(native, "conversation data"@)->Ok_0.remove(
            "chat_id"@,
        ).remove("message_thread_id"@).remove("direct_messages_topic_id"@);
        native::lemma_merged_keeps(
            payload,
            extra,
            "Telegram conversation data"@ + " duplicates field "@,
            key,
        );
    }
}

/// A conversation is addressed by the chat around it, by number where its id
/// is one, and a thread or topic by its own number beside that: as a topic of
/// direct messages where its native data says so, and as a thread otherwise.
pub proof fn law_conversations_are_addressed(conversation: ConversationRef)
    requires
        conversation_payload(conversation) is Ok,
    ensures
        ({
            let place = conversation_payload(conversation)->Ok_0;
            let topic = conversation.kind is Thread || conversation.kind is Topic;
            let direct = conversation.platform_data matches Some(native)
                && native.data@ matches JsonView::Object(members) && members.contains_key(
                "direct_messages_topic_id"@,
            );
            &&& conversation.parent is None ==> json::member(place, "chat_id"@) == Some(
                match text::i64_value(conversation.id@) {
                    Some(number) => JsonView::Integer(number as int),
                    None => JsonView::Text(conversation.id@),
                },
            )
            &&& conversation.parent matches Some(around) ==> (conversation_payload(*around) matches Ok(
                outer,
            ) ==> json::member(outer, "chat_id"@) == json::member(place, "chat_id"@))
            &&& topic ==> text::i64_value(conversation.id@) is Some
            &&& json::member(place, "message_thread_id"@) == if topic && !direct {
                Some(JsonView::Integer(text::i64_value(conversation.id@)->0 as int))
            } else {
                None
            }
            &&& json::member(place, "direct_messages_topic_id"@) == if topic && direct {
                Some(JsonView::Integer(text::i64_value(conversation.id@)->0 as int))
            } else {
                None
            }
        }),
{
    lemma_addressed(conversation);
    if let Some(around) = conversation.parent {
        if conversation_payload(*around) is Ok {
            lemma_addressed(*around);
        }
    }
}

proof fn lemma_addressed(conversation: ConversationRef)
    requires
        conversation_payload(conversation) is Ok,
    ensures
        ({
            let place = conversation_payload(conversation)->Ok_0;
            &&& json::member(place, "chat_id"@) == Some(chat_id_view(root(conversation).id@))
            &&& is_topic(conversation) ==> text::i64_value(conversation.id@) is Some
            &&& json::member(place, "message_thread_id"@) == if is_topic(conversation)
                && !names_direct_topic(conversation) {
                Some(JsonView::Integer(text::i64_value(conversation.id@)->0 as int))
            } else {
                None
            }
            &&& json::member(place, "direct_messages_topic_id"@) == if is_topic(conversation)
                && names_direct_topic(conversation) {
                Some(JsonView::Integer(text::i64_value(conversation.id@)->0 as int))
            } else {
                None
            }
        }),
{
    lemma_place_names();
    let chat = json::no_fields().insert("chat_id"@, chat_id_view(root(conversation).id@));
    let place = if is_topic(conversation) {
        chat.insert(
            if names_direct_topic(conversation) {
                "direct_messages_topic_id"@
            } else {
                "message_thread_id"@
            },
            JsonView::Integer(text::i64_value(conversation.id@)->0 as int),
        )
    } else {
        chat
    };
    let merged = conversation_merged(place, root(conversation))->Ok_0;
    lemma_conversation_kept(place, root(conversation), "chat_id"@);
    lemma_conversation_kept(place, root(conversation), "message_thread_id"@);
    lemma_conversation_kept(place, root(conversation), "direct_messages_topic_id"@);
    if conversation.parent is Some {
        lemma_conversation_kept(merged, conversation, "chat_id"@);
        lemma_conversation_kept(merged, conversation, "message_thread_id"@);
        lemma_conversation_kept(merged, conversation, "direct_messages_topic_id"@);
    }
}

/// A chat is known by its number where its id is one, and by its name
/// otherwise: two ids that are numbers name one chat only where the numbers are
/// the same.
pub proof fn law_chats_are_told_apart(one: Seq<char>, other: Seq<char>)
    requires
        chat_id_view(one) == chat_id_view(other),
    ensures
        text::i64_value(one) == text::i64_value(other),
        text::i64_value(one) is None ==> one == other,
        text::i64_value(one) matches Some(number) ==> chat_id_view(one) == JsonView::Integer(
            number as int,
        ),
        text::i64_value(one) is None ==> chat_id_view(one) == JsonView::Text(one),
{
}

/// A reference to a message that was sent leads back to it: to its number, in
/// the chat of the conversation to which it was sent.
pub proof fn law_sent_messages_are_found(
    sent: Message,
    conversation: ConversationRef,
    reference: MessageRef,
)
    requires
        reference@ == sent_ref_view(sent, conversation),
        reference.conversation == Some(conversation),
        reference_rule(reference) is Ok,
        conversation.parent is None,
    ensures
        message_ref_outcome(reference) == Ok::<(Seq<char>, i64), ErrorView>(
            (conversation.id@, sent.message_id),
        ),
{
    let id = text::decimal(sent.message_id as int);
    text::lemma_decimal_round_trip(sent.message_id as int);
    assert(reference.id@ == id);
    assert(text::i64_value(id) == Some(sent.message_id));
    assert(utils::split_id_outcome(id) is Err) by {
        if text::first_index(id, '_') is Some {
            let i = text::first_index(id, '_')->0;
            let k = choose|k: int| text::is_first(id, '_', k);
            assert(id[k] == '_');
            assert(id[k] == '-' || text::is_digit(id[k]));
        }
    }
}

/// What Telegram calls a private chat is a direct conversation, its groups and
/// supergroups are groups, its channels channels, and anything else is what it
/// is called.
pub proof fn law_kinds_of_chats(kind: Seq<char>, found: ConversationKind)
    requires
        found@ == conversation_kind_view(kind),
    ensures
        found is Direct <==> kind == "private"@,
        found is Group <==> kind == "group"@ || kind == "supergroup"@,
        found is Channel <==> kind == "channel"@,
        found matches ConversationKind::PlatformNative(name) ==> name@ == kind,
        !(found is Thread || found is Topic || found is Forum || found is Unknown),
{
    lemma_kind_names();
}

proof fn lemma_kind_names()
    ensures
        "private"@.len() == 7,
        "group"@.len() == 5,
        "supergroup"@.len() == 10,
        "channel"@.len() == 7,
        "private"@ != "channel"@,
{
    reveal_strlit("private");
    reveal_strlit("group");
    reveal_strlit("supergroup");
    reveal_strlit("channel");
    assert("private"@[0] != "channel"@[0]);
}

/// The chat of a conversation is named by a number or by a text.
pub proof fn lemma_chat_is_named(conversation: ConversationRef)
    requires
        conversation_payload(conversation) is Ok,
    ensures
        json::member(conversation_payload(conversation)->Ok_0, "chat_id"@) == Some(
            chat_id_view(root(conversation).id@),
        ),
{
    lemma_addressed(conversation);
}

} // verus!
