//! Calls about messages that were sent: deleting, pinning, reading,
//! forwarding and copying.
use crate::api::address;
use crate::api::address::{
    add_members, chat_id_value, check_platform, telegram_chat_payload, telegram_conversation_payload,
    telegram_message_ref,
};
use crate::api::checklist;
use crate::api::checklist::telegram_input_checklist;
use crate::api::edit;
use crate::api::edit::{make_empty_keyboard, telegram_edit_address, TelegramEditAddress};
use crate::api::keyboard;
use crate::api::keyboard::telegram_editable_components;
use crate::api::request;
use crate::api::request::{make_call, Plan, PlanView, Request, RequestView};
use crate::collaboration::{ChatActivity, PinOptions, PinnedMessage};
use crate::content::{Checklist, Duration, ForwardOptions, MessageQuery, NotificationPolicy};
use crate::conversation;
use crate::conversation::{
    ConversationKind, ConversationRef, MessageRef, MessageRefView, MessageTarget, Page, PageRequest,
};
use crate::error;
use crate::error::{message, unsupported, Error, ErrorView};
use crate::interaction::MessageComponents;
use crate::json;
use crate::json::{Fields, Json, JsonView, TextMap};
use crate::native;
use crate::native::{
    make_native, merge_optional_native, SERVER,
};
use crate::text;
use crate::text::{i64_text, parse_i64, same};
use crate::utils;
use crate::utils::split_id;
use vstd::prelude::*;

verus! {

// ---------------------------------------------------------------------------
// Deleting
// ---------------------------------------------------------------------------

/// The call that deletes a message.
pub open spec fn deletion_outcome(message: MessageRef) -> Result<RequestView, ErrorView> {
    match edit::edit_address_outcome(message) {
        Err(e) => Err(e),
        Ok((payload, kind)) => match kind {
            TelegramEditAddress::Regular => Ok(request::call("deleteMessage"@, payload)),
            TelegramEditAddress::Ephemeral => Ok(request::call("deleteEphemeralMessage"@, payload)),
            TelegramEditAddress::Inline => error::unsupported_view(
                "deleting Telegram inline messages"@,
            ),
        },
    }
}

/// The call that deletes a message.
pub fn delete_message_ref(message_ref: &MessageRef) -> (result: Result<Request, Error>)
    ensures
        error::shown(result) == deletion_outcome(*message_ref),
{
    let (payload, kind) = telegram_edit_address(message_ref)?;
    match kind {
        TelegramEditAddress::Regular => Ok(make_call("deleteMessage", payload)),
        TelegramEditAddress::Ephemeral => Ok(make_call("deleteEphemeralMessage", payload)),
        TelegramEditAddress::Inline => Err(unsupported("deleting Telegram inline messages")),
    }
}

/// The parameters that address a message by an id that names its chat.
pub open spec fn by_id(parts: (Seq<char>, i64)) -> Map<Seq<char>, JsonView> {
    json::no_fields().insert("chat_id"@, address::chat_id_view(parts.0)).insert(
        "message_id"@,
        JsonView::Integer(parts.1 as int),
    )
}

fn write_by_id(chat: &str, number: i64) -> (payload: Fields)
    ensures
        json::fields(payload) == by_id((chat@, number)),
{
    let mut payload = Fields::none();
    payload.put("chat_id", chat_id_value(chat));
    payload.put("message_id", Json::integer(number));
    payload
}

/// The call that deletes a message by an id that names its chat.
pub open spec fn delete_by_id_outcome(id: Seq<char>) -> Result<RequestView, ErrorView> {
    match utils::split_id_outcome(id) {
        Ok(parts) => Ok(request::call("deleteMessage"@, by_id(parts))),
        Err(e) => Err(e),
    }
}

/// The call that deletes a message by an id that names its chat.
pub fn delete_message(message_id: &str) -> (result: Result<Request, Error>)
    ensures
        error::shown(result) == delete_by_id_outcome(message_id@),
{
    let (chat, number) = split_id(message_id)?;
    Ok(make_call("deleteMessage", write_by_id(chat.as_str(), number)))
}

/// The message is addressed in a way of its own: it is ephemeral, or inline.
pub open spec fn is_special(message: MessageRef) -> bool {
    message.platform_data matches Some(native) && native.platform@ == SERVER@
        && native.data@ is Object && (native.data@->Object_0.contains_key("receiver_user_id"@)
        || native.data@->Object_0.contains_key("ephemeral_message_id"@)
        || native.data@->Object_0.contains_key("inline_message_id"@))
}

fn has_special_address(message_ref: &MessageRef) -> (result: bool)
    ensures
        result == is_special(*message_ref),
{
    match &message_ref.platform_data {
        Some(native) => same(native.platform.as_str(), SERVER) && (native.data.get(
            "receiver_user_id",
        ).is_some() || native.data.get("ephemeral_message_id").is_some() || native.data.get(
            "inline_message_id",
        ).is_some()),
        None => false,
    }
}

/// The numbers under each chat, with one more.
pub open spec fn with_number(
    groups: Map<Seq<char>, Seq<i64>>,
    chat: Seq<char>,
    number: i64,
) -> Map<Seq<char>, Seq<i64>> {
    groups.insert(
        chat,
        if groups.contains_key(chat) {
            groups[chat].push(number)
        } else {
            seq![number]
        },
    )
}

/// The numbers of the first `n` messages under their chats, in order; the
/// messages that have an address of their own are left out.
pub open spec fn groups_outcome(messages: Seq<MessageRef>, n: int) -> Result<
    Map<Seq<char>, Seq<i64>>,
    ErrorView,
>
    decreases n,
{
    if n <= 0 {
        Ok(Map::empty())
    } else {
        match groups_outcome(messages, n - 1) {
            Err(e) => Err(e),
            Ok(groups) => if is_special(messages[n - 1]) {
                Ok(groups)
            } else {
                match address::message_ref_outcome(messages[n - 1]) {
                    Err(e) => Err(e),
                    Ok((chat, number)) => Ok(with_number(groups, chat, number)),
                }
            },
        }
    }
}

proof fn lemma_groups_refused(messages: Seq<MessageRef>, n: int, m: int, e: ErrorView)
    requires
        groups_outcome(messages, n) == Err::<Map<Seq<char>, Seq<i64>>, ErrorView>(e),
        0 <= n <= m,
    ensures
        groups_outcome(messages, m) == Err::<Map<Seq<char>, Seq<i64>>, ErrorView>(e),
    decreases m - n,
{
    if n < m {
        lemma_groups_refused(messages, n, m - 1, e);
    }
}

/// What a map of lists holds.
pub open spec fn lists(groups: TextMap<Vec<i64>>) -> Map<Seq<char>, Seq<i64>> {
    Map::new(|k: Seq<char>| groups@.contains_key(k), |k: Seq<char>| groups@[k]@)
}

fn group_messages(messages: &Vec<MessageRef>) -> (result: Result<TextMap<Vec<i64>>, Error>)
    ensures
        match result {
            Ok(groups) => groups_outcome(messages@, messages@.len() as int) == Ok::<
                Map<Seq<char>, Seq<i64>>,
                ErrorView,
            >(lists(groups)),
            Err(e) => groups_outcome(messages@, messages@.len() as int) == Err::<
                Map<Seq<char>, Seq<i64>>,
                ErrorView,
            >(e@),
        },
{
    let mut groups: TextMap<Vec<i64>> = TextMap::new();
    assert(lists(groups) =~= Map::empty());
    let mut i: usize = 0;
    while i < messages.len()
        invariant
            i <= messages@.len(),
            groups_outcome(messages@, i as int) == Ok::<Map<Seq<char>, Seq<i64>>, ErrorView>(
                lists(groups),
            ),
        decreases messages@.len() - i,
    {
        if !has_special_address(&messages[i]) {
            let (chat, number) = match telegram_message_ref(&messages[i]) {
                Ok(parts) => parts,
                Err(e) => {
                    proof {
                        lemma_groups_refused(
                            messages@,
                            i + 1,
                            messages@.len() as int,
                            e@,
                        );
                    }
                    return Err(e);
                },
            };
            let ghost before = lists(groups);
            let list: Vec<i64> = match groups.remove(chat.as_str()) {
                Some(list) => list,
                None => Vec::new(),
            };
            let ghost had = list@;
            let mut list: Vec<i64> = list;
            list.push(number);
            assert(had.push(number) =~= with_number(before, chat@, number)[chat@]);
            groups.insert(chat.as_str(), list);
            assert(lists(groups) =~= with_number(before, chat@, number));
        }
        i += 1;
    }
    Ok(groups)
}

/// The list in parts of at most a hundred.
pub open spec fn parts(list: Seq<i64>) -> Seq<Seq<i64>>
    decreases list.len(),
{
    if list.len() == 0 {
        Seq::empty()
    } else if list.len() <= 100 {
        seq![list]
    } else {
        seq![list.take(100)] + parts(list.skip(100))
    }
}

/// A list of numbers.
pub open spec fn numbers_view(list: Seq<i64>) -> JsonView {
    JsonView::Array(Seq::new(list.len(), |i: int| JsonView::Integer(list[i] as int)))
}

fn write_numbers(list: &Vec<i64>, from: usize, to: usize) -> (json: Json)
    requires
        from <= to <= list@.len(),
    ensures
        json@ == numbers_view(list@.subrange(from as int, to as int)),
{
    let mut items: Vec<Json> = Vec::new();
    let mut i: usize = from;
    while i < to
        invariant
            from <= i <= to <= list@.len(),
            items@.len() == i - from,
            forall|k: int|
                0 <= k < items@.len() ==> (#[trigger] items@[k])@ == JsonView::Integer(
                    list@[from + k] as int,
                ),
        decreases to - i,
    {
        items.push(Json::integer(list[i]));
        i += 1;
    }
    assert(json::views(items@) =~= numbers_view(
        list@.subrange(from as int, to as int),
    )->Array_0);
    Json::array(items)
}

/// The call that deletes messages of one chat.
pub open spec fn batch_deletion(chat: Seq<char>, numbers: Seq<i64>) -> RequestView {
    request::call(
        "deleteMessages"@,
        json::no_fields().insert("chat_id"@, address::chat_id_view(chat)).insert(
            "message_ids"@,
            numbers_view(numbers),
        ),
    )
}

/// The calls that delete messages of one chat.
pub open spec fn chat_deletions(chat: Seq<char>, numbers: Seq<i64>) -> Seq<RequestView> {
    parts(numbers).map_values(|part: Seq<i64>| batch_deletion(chat, part))
}

fn push_chat_deletions(requests: &mut Vec<Request>, chat: &str, numbers: &Vec<i64>)
    ensures
        request::calls(final(requests)@) == request::calls(old(requests)@) + chat_deletions(
            chat@,
            numbers@,
        ),
{
    let ghost start = request::calls(requests@);
    let mut i: usize = 0;
    assert(numbers@.skip(0) =~= numbers@);
    while i < numbers.len()
        invariant
            i <= numbers@.len(),
            start + chat_deletions(chat@, numbers@) == request::calls(requests@) + chat_deletions(
                chat@,
                numbers@.skip(i as int),
            ),
        decreases numbers@.len() - i,
    {
        let left: usize = numbers.len() - i;
        let end: usize = if left <= 100 {
            numbers.len()
        } else {
            i + 100
        };
        let mut payload = Fields::none();
        payload.put("chat_id", chat_id_value(chat));
        payload.put("message_ids", write_numbers(numbers, i, end));
        let ghost before = request::calls(requests@);
        let call = make_call("deleteMessages", payload);
        let ghost shown = call@;
        requests.push(call);
        proof {
            let rest = numbers@.skip(i as int);
            let part = numbers@.subrange(i as int, end as int);
            assert(shown == batch_deletion(chat@, part));
            assert(request::calls(requests@) =~= before.push(shown));
            assert(numbers@.skip(end as int) =~= rest.skip(end - i));
            assert(part =~= rest.take(end - i));
            assert(chat_deletions(chat@, rest) =~= seq![batch_deletion(chat@, part)]
                + chat_deletions(chat@, rest.skip(end - i)));
            assert(before + chat_deletions(chat@, rest) =~= request::calls(requests@)
                + chat_deletions(chat@, rest.skip(end - i)));
        }
        i = end;
    }
    assert(chat_deletions(chat@, numbers@.skip(i as int)) =~= Seq::empty());
    assert(request::calls(requests@) =~= start + chat_deletions(chat@, numbers@));
}

/// The calls that delete the messages of the first `n` chats.
pub open spec fn group_deletions(
    groups: Map<Seq<char>, Seq<i64>>,
    chats: Seq<Seq<char>>,
    n: int,
) -> Seq<RequestView>
    decreases n,
{
    if n <= 0 {
        Seq::empty()
    } else {
        group_deletions(groups, chats, n - 1) + chat_deletions(chats[n - 1], groups[chats[n - 1]])
    }
}

/// The deletions so far, and those of the messages among the first `n` that
/// have an address of their own, up to the first that cannot be deleted.
pub open spec fn special_deletions(
    start: Seq<RequestView>,
    messages: Seq<MessageRef>,
    n: int,
) -> PlanView
    decreases n,
{
    if n <= 0 {
        PlanView { requests: start, failure: None }
    } else {
        let before = special_deletions(start, messages, n - 1);
        if before.failure is Some || !is_special(messages[n - 1]) {
            before
        } else {
            match deletion_outcome(messages[n - 1]) {
                Ok(call) => PlanView { requests: before.requests.push(call), failure: None },
                Err(e) => PlanView { requests: before.requests, failure: Some(e) },
            }
        }
    }
}

proof fn lemma_special_failed(start: Seq<RequestView>, messages: Seq<MessageRef>, n: int, m: int)
    requires
        special_deletions(start, messages, n).failure is Some,
        0 <= n <= m,
    ensures
        special_deletions(start, messages, m) == special_deletions(start, messages, n),
    decreases m - n,
{
    if n < m {
        lemma_special_failed(start, messages, n, m - 1);
    }
}

/// The calls that delete messages: chat by chat, at most a hundred at once,
/// and then those that have an address of their own, one by one.
pub open spec fn deletions_outcome(messages: Seq<MessageRef>) -> Result<PlanView, ErrorView> {
    if messages.len() == 0 {
        error::refused("no Telegram messages to delete"@)
    } else {
        match groups_outcome(messages, messages.len() as int) {
            Err(e) => Err(e),
            Ok(groups) => {
                let chats = json::sorted_keys(groups.dom());
                Ok(
                    special_deletions(
                        group_deletions(groups, chats, chats.len() as int),
                        messages,
                        messages.len() as int,
                    ),
                )
            },
        }
    }
}

/// The calls that delete messages.
pub fn delete_messages(messages: &Vec<MessageRef>) -> (result: Result<Plan, Error>)
    ensures
        error::shown(result) == deletions_outcome(messages@),
{
    if messages.len() == 0 {
        return Err(message("no Telegram messages to delete"));
    }
    let groups = group_messages(messages)?;
    let ghost all = lists(groups);
    let ghost chats = groups.keys();
    let mut requests: Vec<Request> = Vec::new();
    let n: usize = groups.len();
    proof {
        assert(all.dom() =~= groups@.dom());
        json::lemma_sorted_keys(chats, all.dom());
        assert(request::calls(requests@) =~= Seq::empty());
    }
    let mut i: usize = 0;
    while i < n
        invariant
            i <= n,
            n == chats.len(),
            chats == groups.keys(),
            all == lists(groups),
            json::lists_keys(chats, groups@.dom()),
            request::calls(requests@) == group_deletions(all, chats, i as int),
        decreases n - i,
    {
        let (chat, numbers) = groups.entry(i);
        push_chat_deletions(&mut requests, chat, numbers);
        i += 1;
    }
    let ghost start = request::calls(requests@);
    let mut i: usize = 0;
    while i < messages.len()
        invariant
            i <= messages@.len(),
            special_deletions(start, messages@, i as int) == (PlanView {
                requests: request::calls(requests@),
                failure: None,
            }),
            messages@.len() > 0,
            groups_outcome(messages@, messages@.len() as int) == Ok::<
                Map<Seq<char>, Seq<i64>>,
                ErrorView,
            >(all),
            json::sorted_keys(all.dom()) == chats,
            start == group_deletions(all, chats, chats.len() as int),
        decreases messages@.len() - i,
    {
        if has_special_address(&messages[i]) {
            match delete_message_ref(&messages[i]) {
                Ok(call) => {
                    let ghost before = request::calls(requests@);
                    let ghost shown = call@;
                    requests.push(call);
                    assert(request::calls(requests@) =~= before.push(shown));
                },
                Err(e) => {
                    proof {
                        lemma_special_failed(start, messages@, i + 1, messages@.len() as int);
                    }
                    return Ok(Plan { requests, failure: Some(e) });
                },
            }
        }
        i += 1;
    }
    Ok(Plan { requests, failure: None })
}

// ---------------------------------------------------------------------------
// Components
// ---------------------------------------------------------------------------

/// The call that replaces the keyboard of a message, or takes it away.
pub open spec fn components_edit_outcome(
    id: Seq<char>,
    components: Option<MessageComponents>,
) -> Result<RequestView, ErrorView> {
    match utils::split_id_outcome(id) {
        Err(e) => Err(e),
        Ok(parts) => {
            let markup = match components {
                Some(components) => keyboard::editable_components_outcome(components),
                None => Ok(edit::empty_keyboard()),
            };
            match markup {
                Err(e) => Err(e),
                Ok(markup) => Ok(
                    request::call(
                        "editMessageReplyMarkup"@,
                        by_id(parts).insert("reply_markup"@, markup),
                    ),
                ),
            }
        },
    }
}

/// The call that replaces the keyboard of a message, or takes it away.
pub fn edit_message_components(message_id: &str, components: &Option<MessageComponents>) -> (result:
    Result<Request, Error>)
    ensures
        error::shown(result) == components_edit_outcome(message_id@, *components),
{
    let (chat, number) = split_id(message_id)?;
    let markup = match components {
        Some(components) => telegram_editable_components(components)?,
        None => make_empty_keyboard(),
    };
    let mut payload = write_by_id(chat.as_str(), number);
    payload.put("reply_markup", markup);
    Ok(make_call("editMessageReplyMarkup", payload))
}

// ---------------------------------------------------------------------------
// Pins
// ---------------------------------------------------------------------------

/// The parameters that address a message by its chat and its number.
pub open spec fn message_payload(message: MessageRef) -> Result<
    (Map<Seq<char>, JsonView>, i64),
    ErrorView,
> {
    match address::message_ref_outcome(message) {
        Err(e) => Err(e),
        Ok((chat, number)) => match address::chat_payload(message.conversation, chat) {
            Err(e) => Err(e),
            Ok(payload) => Ok((payload, number)),
        },
    }
}

fn write_message_payload(message_ref: &MessageRef) -> (result: Result<(Fields, i64), Error>)
    ensures
        match result {
            Ok((payload, number)) => message_payload(*message_ref) == Ok::<
                (Map<Seq<char>, JsonView>, i64),
                ErrorView,
            >((json::fields(payload), number)),
            Err(e) => message_payload(*message_ref) == Err::<
                (Map<Seq<char>, JsonView>, i64),
                ErrorView,
            >(e@),
        },
{
    let (chat, number) = telegram_message_ref(message_ref)?;
    let payload = telegram_chat_payload(&message_ref.conversation, chat.as_str())?;
    Ok((payload, number))
}

/// The number of a message as a parameter.
pub open spec fn numbered(number: i64) -> Map<Seq<char>, JsonView> {
    json::no_fields().insert("message_id"@, JsonView::Integer(number as int))
}

fn write_numbered(number: i64) -> (own: Fields)
    ensures
        json::fields(own) == numbered(number),
{
    let mut own = Fields::none();
    own.put("message_id", Json::integer(number));
    own
}

/// The call that pins a message.
pub open spec fn pin_outcome(message: MessageRef, options: PinOptions) -> Result<
    RequestView,
    ErrorView,
> {
    match message_payload(message) {
        Err(e) => Err(e),
        Ok((payload, number)) => request::requested(
            "pinChatMessage"@,
            address::with_members(
                payload,
                numbered(number).insert(
                    "disable_notification"@,
                    match options.notify_members {
                        Some(notify) => JsonView::Bool(!notify),
                        None => JsonView::Null,
                    },
                ),
            ),
        ),
    }
}

/// The call that pins a message.
pub fn pin_message(message_ref: &MessageRef, options: PinOptions) -> (result: Result<Request, Error>)
    ensures
        error::shown(result) == pin_outcome(*message_ref, options),
{
    let (payload, number) = write_message_payload(message_ref)?;
    let mut own = write_numbered(number);
    let silent = match options.notify_members {
        Some(notify) => Some(!notify),
        None => None,
    };
    own.put("disable_notification", Json::optional_bool(silent));
    let payload = add_members(payload, &own)?;
    Ok(make_call("pinChatMessage", payload))
}

/// The call that unpins a message.
pub open spec fn unpin_outcome(message: MessageRef) -> Result<RequestView, ErrorView> {
    match message_payload(message) {
        Err(e) => Err(e),
        Ok((payload, number)) => request::requested(
            "unpinChatMessage"@,
            address::with_members(payload, numbered(number)),
        ),
    }
}

/// The call that unpins a message.
pub fn unpin_message(message_ref: &MessageRef) -> (result: Result<Request, Error>)
    ensures
        error::shown(result) == unpin_outcome(*message_ref),
{
    let (payload, number) = write_message_payload(message_ref)?;
    let payload = add_members(payload, &write_numbered(number))?;
    Ok(make_call("unpinChatMessage", payload))
}

/// The call that unpins every message of a conversation.
pub open spec fn clear_pins_outcome(conversation: ConversationRef) -> Result<
    RequestView,
    ErrorView,
> {
    request::requested(
        if address::is_topic(conversation) {
            "unpinAllForumTopicMessages"@
        } else {
            "unpinAllChatMessages"@
        },
        address::conversation_payload(conversation),
    )
}

/// The call that unpins every message of a conversation.
pub fn clear_pins(conversation: &ConversationRef) -> (result: Result<Request, Error>)
    ensures
        error::shown(result) == clear_pins_outcome(*conversation),
{
    let payload = telegram_conversation_payload(conversation)?;
    let method: &str = match &conversation.kind {
        ConversationKind::Thread => "unpinAllForumTopicMessages",
        ConversationKind::Topic => "unpinAllForumTopicMessages",
        _ => "unpinAllChatMessages",
    };
    Ok(make_call(method, payload))
}

/// The call that asks for the pinned message of a conversation.
pub open spec fn list_pins_outcome(conversation: ConversationRef, page: PageRequest) -> Result<
    RequestView,
    ErrorView,
> {
    if page.cursor is Some {
        error::refused("Telegram pinned-message lookup does not support cursors"@)
    } else {
        request::requested("getChat"@, address::conversation_payload(conversation))
    }
}

/// The call that asks for the pinned message of a conversation.
pub fn list_pins(conversation: &ConversationRef, page: &PageRequest) -> (result: Result<
    Request,
    Error,
>)
    ensures
        error::shown(result) == list_pins_outcome(*conversation, *page),
{
    if page.cursor.is_some() {
        return Err(message("Telegram pinned-message lookup does not support cursors"));
    }
    let payload = telegram_conversation_payload(conversation)?;
    Ok(make_call("getChat", payload))
}

/// The number of the message that a chat has pinned.
pub open spec fn pinned_number(chat: JsonView) -> Option<i64> {
    match chat {
        JsonView::Object(members) => match json::member(members, "pinned_message"@) {
            Some(JsonView::Object(pinned)) => json::i64_in(pinned, "message_id"@),
            _ => None,
        },
        _ => None,
    }
}

/// A reference to the message with the given number.
pub open spec fn numbered_ref(number: i64, conversation: ConversationRef) -> MessageRefView {
    MessageRefView {
        id: text::decimal(number as int),
        conversation: Some(conversation@),
        native: None,
    }
}

/// The page holds the pinned message, unless there is none or none is wanted.
pub open spec fn reads_pins(
    page: Page<PinnedMessage>,
    chat: JsonView,
    conversation: ConversationRef,
    limit: Option<u32>,
) -> bool {
    &&& conversation::is_only_page(page)
    &&& match pinned_number(chat) {
        Some(number) => if limit == Some(0u32) {
            page.items@.len() == 0
        } else {
            &&& page.items@.len() == 1
            &&& page.items@[0].message@ == numbered_ref(number, conversation)
            &&& page.items@[0].pinned_by is None
            &&& page.items@[0].pinned_at is None
            &&& native::optional_native(page.items@[0].platform_data) == Some(
                native::telegram_native(chat->Object_0["pinned_message"@]),
            )
        },
        None => page.items@.len() == 0,
    }
}

/// Reads the pinned message out of a chat.
pub fn read_pins(chat: &Json, conversation: &ConversationRef, page: &PageRequest) -> (result: Page<
    PinnedMessage,
>)
    ensures
        reads_pins(result, chat@, *conversation, page.limit),
{
    broadcast use json::lemma_json_view;

    let mut items: Vec<PinnedMessage> = Vec::new();
    let wanted = match page.limit {
        Some(limit) => limit > 0,
        None => true,
    };
    if wanted {
        if let Some(pinned) = chat.get("pinned_message") {
            if let Some(number) = pinned.get("message_id") {
                if let Some(number) = number.as_i64() {
                    items.push(
                        PinnedMessage {
                            message: MessageRef {
                                id: i64_text(number),
                                conversation: Some(conversation.clone()),
                                platform_data: None,
                            },
                            pinned_by: None,
                            pinned_at: None,
                            platform_data: Some(make_native(pinned.clone())),
                        },
                    );
                }
            }
        }
    }
    Page { items, next_cursor: None, previous_cursor: None, total: None }
}

// ---------------------------------------------------------------------------
// Activity and read receipts
// ---------------------------------------------------------------------------

/// Telegram's name of an activity.
pub open spec fn action_outcome(activity: ChatActivity) -> Result<Seq<char>, ErrorView> {
    match activity {
        ChatActivity::Typing => Ok("typing"@),
        ChatActivity::UploadingPhoto => Ok("upload_photo"@),
        ChatActivity::UploadingVideo => Ok("upload_video"@),
        ChatActivity::UploadingAudio => Ok("upload_voice"@),
        ChatActivity::UploadingFile => Ok("upload_document"@),
        ChatActivity::RecordingAudio => Ok("record_voice"@),
        ChatActivity::RecordingVideo => Ok("record_video"@),
        ChatActivity::ChoosingSticker => Ok("choose_sticker"@),
        ChatActivity::Playing => error::unsupported_view("Telegram playing activity"@),
        ChatActivity::PlatformNative(action) => Ok(action@),
    }
}

fn name_action(activity: &ChatActivity) -> (result: Result<&str, Error>)
    ensures
        match result {
            Ok(action) => action_outcome(*activity) == Ok::<Seq<char>, ErrorView>(action@),
            Err(e) => action_outcome(*activity) == Err::<Seq<char>, ErrorView>(e@),
        },
{
    match activity {
        ChatActivity::Typing => Ok("typing"),
        ChatActivity::UploadingPhoto => Ok("upload_photo"),
        ChatActivity::UploadingVideo => Ok("upload_video"),
        ChatActivity::UploadingAudio => Ok("upload_voice"),
        ChatActivity::UploadingFile => Ok("upload_document"),
        ChatActivity::RecordingAudio => Ok("record_voice"),
        ChatActivity::RecordingVideo => Ok("record_video"),
        ChatActivity::ChoosingSticker => Ok("choose_sticker"),
        ChatActivity::Playing => Err(unsupported("Telegram playing activity")),
        ChatActivity::PlatformNative(action) => Ok(action.as_str()),
    }
}

/// Longer than five seconds.
pub open spec fn too_long(duration: Option<Duration>) -> bool {
    duration matches Some(duration) && (duration.seconds > 5 || duration.seconds == 5
        && duration.nanoseconds > 0)
}

/// The call that shows an activity.
pub open spec fn activity_outcome(
    conversation: ConversationRef,
    activity: ChatActivity,
    duration: Option<Duration>,
) -> Result<RequestView, ErrorView> {
    if too_long(duration) {
        error::refused("one Telegram chat action lasts at most 5 seconds"@)
    } else {
        match action_outcome(activity) {
            Err(e) => Err(e),
            Ok(action) => match address::conversation_payload(conversation) {
                Err(e) => Err(e),
                Ok(payload) => request::requested(
                    "sendChatAction"@,
                    address::with_members(
                        payload,
                        json::no_fields().insert("action"@, JsonView::Text(action)),
                    ),
                ),
            },
        }
    }
}

/// The call that shows an activity.
pub fn set_chat_activity(
    conversation: &ConversationRef,
    activity: &ChatActivity,
    duration: Option<Duration>,
) -> (result: Result<Request, Error>)
    ensures
        error::shown(result) == activity_outcome(*conversation, *activity, duration),
{
    if let Some(duration) = duration {
        if duration.seconds > 5 || duration.seconds == 5 && duration.nanoseconds > 0 {
            return Err(message("one Telegram chat action lasts at most 5 seconds"));
        }
    }
    let action = name_action(activity)?;
    let payload = telegram_conversation_payload(conversation)?;
    let mut own = Fields::none();
    own.put("action", Json::text(action));
    let payload = add_members(payload, &own)?;
    Ok(make_call("sendChatAction", payload))
}

/// The refusal of a conversation that names no business connection.
pub open spec fn no_connection() -> Result<Seq<char>, ErrorView> {
    error::refused("Telegram read receipts require a business_connection_id"@)
}

/// The business connection that a conversation names.
pub open spec fn business_connection(conversation: ConversationRef) -> Result<
    Seq<char>,
    ErrorView,
> {
    match address::platform_rule(conversation.platform_data, "conversation data"@) {
        Err(e) => Err(e),
        Ok(_) => match conversation.platform_data {
            Some(native) => match native.data@ {
                JsonView::Object(members) => match json::text_in(
                    members,
                    "business_connection_id"@,
                ) {
                    Some(connection) => Ok(connection),
                    None => no_connection(),
                },
                _ => no_connection(),
            },
            None => no_connection(),
        },
    }
}

fn find_business_connection(conversation: &ConversationRef) -> (result: Result<String, Error>)
    ensures
        error::shown(result) == business_connection(*conversation),
{
    check_platform(&conversation.platform_data, "conversation data")?;
    let named: Option<&str> = match &conversation.platform_data {
        Some(native) => match native.data.get("business_connection_id") {
            Some(connection) => connection.as_str(),
            None => None,
        },
        None => None,
    };
    match named {
        Some(connection) => Ok(connection.to_owned()),
        None => Err(message("Telegram read receipts require a business_connection_id")),
    }
}

/// The call that marks a message as read.
pub open spec fn mark_read_outcome(
    conversation: ConversationRef,
    through: Option<MessageRef>,
) -> Result<RequestView, ErrorView> {
    match business_connection(conversation) {
        Err(e) => Err(e),
        Ok(connection) => match through {
            None => error::refused("Telegram read receipts require a message"@),
            Some(message) => match address::message_ref_outcome(message) {
                Err(e) => Err(e),
                Ok((chat, number)) => match text::i64_value(chat) {
                    None => error::refused(
                        "Telegram business read receipts require a numeric chat id"@,
                    ),
                    Some(chat) => Ok(
                        request::call(
                            "readBusinessMessage"@,
                            json::no_fields().insert(
                                "business_connection_id"@,
                                JsonView::Text(connection),
                            ).insert("chat_id"@, JsonView::Integer(chat as int)).insert(
                                "message_id"@,
                                JsonView::Integer(number as int),
                            ),
                        ),
                    ),
                },
            },
        },
    }
}

/// The call that marks a message as read.
pub fn mark_read(conversation: &ConversationRef, through: &Option<MessageRef>) -> (result: Result<
    Request,
    Error,
>)
    ensures
        error::shown(result) == mark_read_outcome(*conversation, *through),
{
    let connection = find_business_connection(conversation)?;
    let through: &MessageRef = match through {
        Some(through) => through,
        None => {
            return Err(message("Telegram read receipts require a message"));
        },
    };
    let (chat, number) = telegram_message_ref(through)?;
    let chat: i64 = match parse_i64(chat.as_str()) {
        Some(chat) => chat,
        None => {
            return Err(message("Telegram business read receipts require a numeric chat id"));
        },
    };
    let mut payload = Fields::none();
    payload.put("business_connection_id", Json::text(connection.as_str()));
    payload.put("chat_id", Json::integer(chat));
    payload.put("message_id", Json::integer(number));
    Ok(make_call("readBusinessMessage", payload))
}

// ---------------------------------------------------------------------------
// Polls and checklists
// ---------------------------------------------------------------------------

/// The parameters that address a message in its chat, wherever in the chat it
/// stands.
pub open spec fn chat_message_payload(message: MessageRef) -> Result<
    (Map<Seq<char>, JsonView>, i64),
    ErrorView,
> {
    match message_payload(message) {
        Err(e) => Err(e),
        Ok((payload, number)) => Ok(
            (
                payload.remove("message_thread_id"@).remove("direct_messages_topic_id"@),
                number,
            ),
        ),
    }
}

/// The call that closes a poll.
pub open spec fn stop_poll_outcome(message: MessageRef) -> Result<RequestView, ErrorView> {
    match chat_message_payload(message) {
        Err(e) => Err(e),
        Ok((payload, number)) => request::requested(
            "stopPoll"@,
            address::with_members(payload, numbered(number)),
        ),
    }
}

/// The call that closes a poll.
pub fn stop_poll(message_ref: &MessageRef) -> (result: Result<Request, Error>)
    ensures
        error::shown(result) == stop_poll_outcome(*message_ref),
{
    let (mut payload, number) = write_message_payload(message_ref)?;
    let _ = payload.take("message_thread_id");
    let _ = payload.take("direct_messages_topic_id");
    let payload = add_members(payload, &write_numbered(number))?;
    Ok(make_call("stopPoll", payload))
}

/// The call that replaces a checklist.
pub open spec fn edit_checklist_outcome(message: MessageRef, checklist: Checklist) -> Result<
    RequestView,
    ErrorView,
> {
    match chat_message_payload(message) {
        Err(e) => Err(e),
        Ok((payload, number)) => if !payload.contains_key("business_connection_id"@) {
            error::refused(
                "Telegram checklist edits require business_connection_id in the conversation"@,
            )
        } else {
            match checklist::input_checklist_outcome(checklist) {
                Err(e) => Err(e),
                Ok(input) => request::requested(
                    "editMessageChecklist"@,
                    address::with_members(payload, numbered(number).insert("checklist"@, input)),
                ),
            }
        },
    }
}

/// The call that replaces a checklist.
pub fn edit_checklist(message_ref: &MessageRef, checklist: &Checklist) -> (result: Result<
    Request,
    Error,
>)
    ensures
        error::shown(result) == edit_checklist_outcome(*message_ref, *checklist),
{
    let (mut payload, number) = write_message_payload(message_ref)?;
    let _ = payload.take("message_thread_id");
    let _ = payload.take("direct_messages_topic_id");
    if !payload.contains_key("business_connection_id") {
        return Err(
            message("Telegram checklist edits require business_connection_id in the conversation"),
        );
    }
    let mut own = write_numbered(number);
    own.put("checklist", telegram_input_checklist(checklist)?);
    let payload = add_members(payload, &own)?;
    Ok(make_call("editMessageChecklist", payload))
}

// ---------------------------------------------------------------------------
// History
// ---------------------------------------------------------------------------

/// The query asks for nothing but a user and a number of messages.
pub open spec fn is_plain_query(query: MessageQuery) -> bool {
    &&& query.thread is None
    &&& query.before is None
    &&& query.after is None
    &&& query.around is None
    &&& query.search is None
    &&& query.cursor is None
    &&& query.platform_data is None
}

/// The call that lists the messages of a user's personal chat.
pub open spec fn list_messages_outcome(query: MessageQuery) -> Result<RequestView, ErrorView> {
    if !is_plain_query(query) {
        error::refused("Telegram personal-chat history supports only a user and limit"@)
    } else {
        match query.conversation {
            None => error::refused(
                "Telegram personal-chat history requires a user conversation"@,
            ),
            Some(conversation) => {
                let limit: u32 = match query.limit {
                    Some(limit) => limit,
                    None => 20,
                };
                if !(conversation.kind is Direct) {
                    error::refused(
                        "Telegram Bot API exposes history only for a user's personal chat"@,
                    )
                } else if !(1 <= limit <= 20) {
                    error::refused(
                        "Telegram personal-chat history limit must be between 1 and 20"@,
                    )
                } else {
                    match text::i64_value(conversation.id@) {
                        None => error::refused("invalid Telegram user id"@),
                        Some(user) => Ok(
                            request::call(
                                "getUserPersonalChatMessages"@,
                                json::no_fields().insert(
                                    "user_id"@,
                                    JsonView::Integer(user as int),
                                ).insert("limit"@, JsonView::Integer(limit as int)),
                            ),
                        ),
                    }
                }
            },
        }
    }
}

/// The call that lists the messages of a user's personal chat.
pub fn list_messages(query: &MessageQuery) -> (result: Result<Request, Error>)
    ensures
        error::shown(result) == list_messages_outcome(*query),
{
    if !(query.thread.is_none() && query.before.is_none() && query.after.is_none()
        && query.around.is_none() && query.search.is_none() && query.cursor.is_none()
        && query.platform_data.is_none()) {
        return Err(message("Telegram personal-chat history supports only a user and limit"));
    }
    let conversation: &ConversationRef = match &query.conversation {
        Some(conversation) => conversation,
        None => {
            return Err(message("Telegram personal-chat history requires a user conversation"));
        },
    };
    let direct = match &conversation.kind {
        ConversationKind::Direct => true,
        _ => false,
    };
    if !direct {
        return Err(message("Telegram Bot API exposes history only for a user's personal chat"));
    }
    let limit: u32 = match query.limit {
        Some(limit) => limit,
        None => 20,
    };
    if !(1 <= limit && limit <= 20) {
        return Err(message("Telegram personal-chat history limit must be between 1 and 20"));
    }
    let user: i64 = match parse_i64(conversation.id.as_str()) {
        Some(user) => user,
        None => {
            return Err(message("invalid Telegram user id"));
        },
    };
    let mut payload = Fields::none();
    payload.put("user_id", Json::integer(user));
    payload.put("limit", Json::integer(limit as i64));
    Ok(make_call("getUserPersonalChatMessages", payload))
}

// ---------------------------------------------------------------------------
// Forwarding and copying
// ---------------------------------------------------------------------------

/// The chat and the numbers of the first `n` messages, which come from one
/// chat.
pub open spec fn batch_outcome(messages: Seq<MessageRef>, n: int) -> Result<
    (Option<Seq<char>>, Seq<i64>),
    ErrorView,
>
    decreases n,
{
    if n <= 0 {
        Ok((None, Seq::empty()))
    } else {
        match batch_outcome(messages, n - 1) {
            Err(e) => Err(e),
            Ok((source, numbers)) => if is_special(messages[n - 1]) {
                error::refused("Telegram cannot forward or copy ephemeral or inline messages"@)
            } else {
                match address::message_ref_outcome(messages[n - 1]) {
                    Err(e) => Err(e),
                    Ok((chat, number)) => if source matches Some(source) && source != chat {
                        error::refused(
                            "Telegram batch forward/copy messages must come from one chat"@,
                        )
                    } else {
                        Ok((Some(chat), numbers.push(number)))
                    },
                }
            },
        }
    }
}

proof fn lemma_batch_refused(messages: Seq<MessageRef>, n: int, m: int, e: ErrorView)
    requires
        batch_outcome(messages, n) == Err::<(Option<Seq<char>>, Seq<i64>), ErrorView>(e),
        0 <= n <= m,
    ensures
        batch_outcome(messages, m) == Err::<(Option<Seq<char>>, Seq<i64>), ErrorView>(e),
    decreases m - n,
{
    if n < m {
        lemma_batch_refused(messages, n, m - 1, e);
    }
}

/// Every number is larger than the one before it.
pub open spec fn rising(numbers: Seq<i64>) -> bool {
    forall|i: int, j: int|
        0 <= i < j < numbers.len() ==> #[trigger] numbers[i] < #[trigger] numbers[j]
}

fn check_rising(numbers: &Vec<i64>) -> (result: bool)
    ensures
        result == rising(numbers@),
{
    if numbers.len() == 0 {
        return true;
    }
    let mut i: usize = 1;
    while i < numbers.len()
        invariant
            1 <= i <= numbers@.len(),
            forall|a: int, b: int|
                0 <= a < b < i ==> #[trigger] numbers@[a] < #[trigger] numbers@[b],
        decreases numbers@.len() - i,
    {
        if !(numbers[i - 1] < numbers[i]) {
            assert(!(numbers@[i - 1] < numbers@[i as int]));
            return false;
        }
        proof {
            assert forall|a: int, b: int| 0 <= a < b < i + 1 implies #[trigger] numbers@[a]
                < #[trigger] numbers@[b] by {
                if b == i && a < i - 1 {
                    assert(numbers@[a] < numbers@[i - 1]);
                }
            }
        }
        i += 1;
    }
    true
}

/// Whether messages are forwarded or copied.
#[derive(Debug, Clone, Copy, PartialEq, Eq, Structural)]
pub enum Transfer {
    Forward,
    Copy,
}

/// Whether the notification is silent.
pub open spec fn is_silent(policy: NotificationPolicy) -> bool {
    policy is Silent
}

/// The parameters that name messages of a chat and say how they are passed on.
pub open spec fn transfer_members(
    transfer: Transfer,
    source: Seq<char>,
    numbers: Seq<i64>,
    options: ForwardOptions,
) -> Map<Seq<char>, JsonView> {
    let own = json::no_fields().insert("from_chat_id"@, address::chat_id_view(source)).insert(
        "message_ids"@,
        numbers_view(numbers),
    ).insert("disable_notification"@, JsonView::Bool(is_silent(options.notification)));
    if transfer == Transfer::Copy {
        own.insert("remove_caption"@, JsonView::Bool(!options.preserve_caption))
    } else {
        own
    }
}

/// The call that forwards or copies messages.
pub open spec fn transfer_outcome(
    transfer: Transfer,
    messages: Seq<MessageRef>,
    target: MessageTarget,
    options: ForwardOptions,
) -> Result<RequestView, ErrorView> {
    if !(1 <= messages.len() <= 100) {
        error::refused("Telegram forward/copy batches must contain 1 to 100 messages"@)
    } else if !(target.recipients@.len() == 0 && target.platform_data is None) {
        error::refused(
            "Telegram forward/copy targets cannot contain fan-out recipients or target-native data"@,
        )
    } else if !(transfer == Transfer::Copy || options.preserve_caption) {
        error::refused("Telegram forwarding cannot remove captions; use copy_messages instead"@)
    } else {
        match batch_outcome(messages, messages.len() as int) {
            Err(e) => Err(e),
            Ok((source, numbers)) => if !rising(numbers) {
                error::refused("Telegram batch message identifiers must be strictly increasing"@)
            } else {
                match address::conversation_payload(target.conversation) {
                    Err(e) => Err(e),
                    Ok(place) => match address::with_members(
                        place,
                        transfer_members(transfer, source->Some_0, numbers, options),
                    ) {
                        Err(e) => Err(e),
                        Ok(payload) => request::requested(
                            if transfer == Transfer::Copy {
                                "copyMessages"@
                            } else {
                                "forwardMessages"@
                            },
                            native::optional_native_merged(
                                payload,
                                options.platform_data,
                                "forward/copy options"@,
                            ),
                        ),
                    },
                }
            },
        }
    }
}

/// The call that forwards or copies messages.
pub fn telegram_forward_or_copy(
    transfer: Transfer,
    messages: &Vec<MessageRef>,
    target: &MessageTarget,
    options: &ForwardOptions,
) -> (result: Result<Request, Error>)
    ensures
        error::shown(result) == transfer_outcome(transfer, messages@, *target, *options),
{
    if !(1 <= messages.len() && messages.len() <= 100) {
        return Err(message("Telegram forward/copy batches must contain 1 to 100 messages"));
    }
    if !(target.recipients.len() == 0 && target.platform_data.is_none()) {
        return Err(
            message(
                "Telegram forward/copy targets cannot contain fan-out recipients or target-native data",
            ),
        );
    }
    let copy = match transfer {
        Transfer::Copy => true,
        Transfer::Forward => false,
    };
    if !(copy || options.preserve_caption) {
        return Err(
            message("Telegram forwarding cannot remove captions; use copy_messages instead"),
        );
    }
    let mut source: Option<String> = None;
    let mut numbers: Vec<i64> = Vec::new();
    let mut i: usize = 0;
    let ghost all = messages@.len() as int;
    while i < messages.len()
        invariant
            i <= messages@.len(),
            all == messages@.len(),
            i > 0 ==> source is Some,
            batch_outcome(messages@, i as int) == Ok::<(Option<Seq<char>>, Seq<i64>), ErrorView>(
                (json::optional_chars(source), numbers@),
            ),
            transfer_start(transfer, messages@, *target, *options),
        decreases messages@.len() - i,
    {
        if has_special_address(&messages[i]) {
            let e = message("Telegram cannot forward or copy ephemeral or inline messages");
            proof {
                lemma_batch_refused(messages@, i + 1, all, e@);
            }
            return Err(e);
        }
        let (chat, number) = match telegram_message_ref(&messages[i]) {
            Ok(parts) => parts,
            Err(e) => {
                proof {
                    lemma_batch_refused(messages@, i + 1, all, e@);
                }
                return Err(e);
            },
        };
        let differs = match &source {
            Some(source) => !same(source.as_str(), chat.as_str()),
            None => false,
        };
        if differs {
            let e = message("Telegram batch forward/copy messages must come from one chat");
            proof {
                lemma_batch_refused(messages@, i + 1, all, e@);
            }
            return Err(e);
        }
        source = Some(chat);
        numbers.push(number);
        i += 1;
    }
    if !check_rising(&numbers) {
        return Err(message("Telegram batch message identifiers must be strictly increasing"));
    }
    let place = telegram_conversation_payload(&target.conversation)?;
    let mut own = Fields::none();
    if let Some(source) = &source {
        own.put("from_chat_id", chat_id_value(source.as_str()));
    }
    assert(numbers@.subrange(0, numbers@.len() as int) =~= numbers@);
    own.put("message_ids", write_numbers(&numbers, 0, numbers.len()));
    let silent = match options.notification {
        NotificationPolicy::Silent => true,
        _ => false,
    };
    own.put("disable_notification", Json::bool(silent));
    if copy {
        own.put("remove_caption", Json::bool(!options.preserve_caption));
    }
    let payload = add_members(place, &own)?;
    let payload = merge_optional_native(payload, &options.platform_data, "forward/copy options")?;
    let method: &str = if copy {
        "copyMessages"
    } else {
        "forwardMessages"
    };
    Ok(make_call(method, payload))
}

/// The batch, its target and its options can go together.
spec fn transfer_start(
    transfer: Transfer,
    messages: Seq<MessageRef>,
    target: MessageTarget,
    options: ForwardOptions,
) -> bool {
    &&& 1 <= messages.len() <= 100
    &&& target.recipients@.len() == 0
    &&& target.platform_data is None
    &&& transfer == Transfer::Copy || options.preserve_caption
}

/// The references are to the messages with the given numbers, in order.
pub open spec fn reads_numbers(
    refs: Seq<MessageRef>,
    numbers: Seq<i64>,
    conversation: ConversationRef,
) -> bool {
    &&& refs.len() == numbers.len()
    &&& forall|i: int|
        0 <= i < refs.len() ==> (#[trigger] refs[i])@ == numbered_ref(numbers[i], conversation)
}

/// Makes references to the messages that were forwarded or copied.
pub fn transferred_refs(numbers: &Vec<i64>, conversation: &ConversationRef) -> (refs: Vec<
    MessageRef,
>)
    ensures
        reads_numbers(refs@, numbers@, *conversation),
{
    let mut refs: Vec<MessageRef> = Vec::new();
    let mut i: usize = 0;
    while i < numbers.len()
        invariant
            i <= numbers@.len(),
            refs@.len() == i,
            forall|k: int|
                0 <= k < i ==> (#[trigger] refs@[k])@ == numbered_ref(numbers@[k], *conversation),
        decreases numbers@.len() - i,
    {
        refs.push(
            MessageRef {
                id: i64_text(numbers[i]),
                conversation: Some(conversation.clone()),
                platform_data: None,
            },
        );
        i += 1;
    }
    refs
}

// ---------------------------------------------------------------------------
// Laws
// ---------------------------------------------------------------------------

/// The parts of a list, one after another, are the list, and none is empty or
/// longer than a hundred.
pub proof fn law_parts_cover_the_list(list: Seq<i64>)
    ensures
        parts(list).flatten() == list,
        forall|i: int|
            0 <= i < parts(list).len() ==> 1 <= (#[trigger] parts(list)[i]).len() <= 100,
    decreases list.len(),
{
    if list.len() == 0 {
        assert(parts(list).flatten() =~= list);
    } else if list.len() <= 100 {
        let whole = seq![list];
        whole.lemma_flatten_one_element();
    } else {
        let rest = list.skip(100);
        law_parts_cover_the_list(rest);
        let all = parts(list);
        assert(all == seq![list.take(100)] + parts(rest));
        assert(all.drop_first() =~= parts(rest));
        assert(all.first() =~= list.take(100));
        assert(all.flatten() =~= list);
        assert forall|i: int| 0 <= i < all.len() implies 1 <= (#[trigger] all[i]).len() <= 100 by {
            if i > 0 {
                assert(all[i] == parts(rest)[i - 1]);
            }
        }
    }
}

proof fn lemma_groups_hold(messages: Seq<MessageRef>, n: int, i: int)
    requires
        groups_outcome(messages, n) is Ok,
        0 <= i < n,
        !is_special(messages[i]),
    ensures
        address::message_ref_outcome(messages[i]) matches Ok((chat, number))
            && groups_outcome(messages, n)->Ok_0.contains_key(chat)
            && groups_outcome(messages, n)->Ok_0[chat].contains(number),
    decreases n,
{
    let groups = groups_outcome(messages, n - 1)->Ok_0;
    if i < n - 1 {
        lemma_groups_hold(messages, n - 1, i);
        let (chat, number) = address::message_ref_outcome(messages[i])->Ok_0;
        if !is_special(messages[n - 1]) {
            let (other, next) = address::message_ref_outcome(messages[n - 1])->Ok_0;
            if other == chat {
                let k = choose|k: int| 0 <= k < groups[chat].len() && groups[chat][k] == number;
                assert(groups[chat].push(next)[k] == number);
            }
        }
    } else {
        let (chat, number) = address::message_ref_outcome(messages[i])->Ok_0;
        let list = with_number(groups, chat, number)[chat];
        assert(list[list.len() - 1] == number);
    }
}

proof fn lemma_groups_finite(messages: Seq<MessageRef>, n: int)
    ensures
        groups_outcome(messages, n) matches Ok(groups) ==> groups.dom().finite(),
    decreases n,
{
    if n > 0 {
        lemma_groups_finite(messages, n - 1);
        if let Ok(groups) = groups_outcome(messages, n - 1) {
            if !is_special(messages[n - 1]) {
                if let Ok((chat, number)) = address::message_ref_outcome(messages[n - 1]) {
                    assert(with_number(groups, chat, number).dom() =~= groups.dom().insert(chat));
                }
            }
        }
    }
}

proof fn lemma_parts_hold(list: Seq<i64>, number: i64) -> (k: int)
    requires
        list.contains(number),
    ensures
        0 <= k < parts(list).len(),
        parts(list)[k].contains(number),
    decreases list.len(),
{
    let i = choose|i: int| 0 <= i < list.len() && list[i] == number;
    if list.len() <= 100 {
        assert(parts(list)[0] == list);
        0
    } else if i < 100 {
        assert(list.take(100)[i] == number);
        assert(parts(list)[0] == list.take(100));
        0
    } else {
        let rest = list.skip(100);
        assert(rest[i - 100] == number);
        let k = lemma_parts_hold(rest, number);
        assert(parts(list)[k + 1] == parts(rest)[k]);
        k + 1
    }
}

proof fn lemma_group_deletions_hold(
    groups: Map<Seq<char>, Seq<i64>>,
    chats: Seq<Seq<char>>,
    n: int,
    j: int,
    k: int,
)
    requires
        0 <= j < n <= chats.len(),
        0 <= k < parts(groups[chats[j]]).len(),
    ensures
        group_deletions(groups, chats, n).contains(
            batch_deletion(chats[j], parts(groups[chats[j]])[k]),
        ),
    decreases n,
{
    let before = group_deletions(groups, chats, n - 1);
    let call = batch_deletion(chats[j], parts(groups[chats[j]])[k]);
    let all = group_deletions(groups, chats, n);
    if j < n - 1 {
        lemma_group_deletions_hold(groups, chats, n - 1, j, k);
        let m = choose|m: int| 0 <= m < before.len() && before[m] == call;
        assert(all[m] == call);
    } else {
        assert(chat_deletions(chats[j], groups[chats[j]])[k] == call);
        assert(all[before.len() + k] == call);
    }
}

proof fn lemma_special_keeps(start: Seq<RequestView>, messages: Seq<MessageRef>, n: int, m: int)
    requires
        0 <= m < start.len(),
    ensures
        start.len() <= special_deletions(start, messages, n).requests.len(),
        special_deletions(start, messages, n).requests[m] == start[m],
    decreases n,
{
    if n > 0 {
        lemma_special_keeps(start, messages, n - 1, m);
    }
}

proof fn lemma_special_holds(start: Seq<RequestView>, messages: Seq<MessageRef>, n: int, i: int)
    requires
        0 <= i < n,
        is_special(messages[i]),
        special_deletions(start, messages, n).failure is None,
    ensures
        deletion_outcome(messages[i]) matches Ok(call)
            && special_deletions(start, messages, n).requests.contains(call),
    decreases n,
{
    let before = special_deletions(start, messages, n - 1);
    let all = special_deletions(start, messages, n);
    if i < n - 1 {
        lemma_special_holds(start, messages, n - 1, i);
        let call = deletion_outcome(messages[i])->Ok_0;
        let m = choose|m: int| 0 <= m < before.requests.len() && before.requests[m] == call;
        assert(all.requests[m] == call);
    } else {
        let call = deletion_outcome(messages[i])->Ok_0;
        assert(all.requests[all.requests.len() - 1] == call);
    }
}

/// No message that is to be deleted is forgotten: one of a chat is named in a
/// call for that chat, with at most a hundred in all; one that has an address of
/// its own has a call of its own, unless one of these cannot be deleted.
pub proof fn law_every_message_is_deleted(messages: Seq<MessageRef>, plan: PlanView, i: int)
    requires
        deletions_outcome(messages) == Ok::<PlanView, ErrorView>(plan),
        0 <= i < messages.len(),
    ensures
        !is_special(messages[i]) ==> {
            &&& address::message_ref_outcome(messages[i]) is Ok
            &&& exists|numbers: Seq<i64>|
                numbers.len() <= 100 && numbers.contains(
                    address::message_ref_outcome(messages[i])->Ok_0.1,
                ) && plan.requests.contains(
                    #[trigger] batch_deletion(
                        address::message_ref_outcome(messages[i])->Ok_0.0,
                        numbers,
                    ),
                )
        },
        is_special(messages[i]) && plan.failure is None ==> (deletion_outcome(messages[i]) matches Ok(
            call,
        ) && plan.requests.contains(call)),
{
    let n = messages.len() as int;
    let groups = groups_outcome(messages, n)->Ok_0;
    let chats = json::sorted_keys(groups.dom());
    let start = group_deletions(groups, chats, chats.len() as int);
    if is_special(messages[i]) {
        if plan.failure is None {
            lemma_special_holds(start, messages, n, i);
        }
    } else {
        lemma_groups_hold(messages, n, i);
        let (chat, number) = address::message_ref_outcome(messages[i])->Ok_0;
        lemma_groups_finite(messages, n);
        json::lemma_sorted_keys_exist(groups.dom());
        assert(groups.dom().contains(chat));
        let j = choose|j: int| 0 <= j < chats.len() && #[trigger] chats[j] == chat;
        let k = lemma_parts_hold(groups[chat], number);
        law_parts_cover_the_list(groups[chat]);
        let numbers = parts(groups[chat])[k];
        lemma_group_deletions_hold(groups, chats, chats.len() as int, j, k);
        let call = batch_deletion(chat, numbers);
        let m = choose|m: int| 0 <= m < start.len() && start[m] == call;
        lemma_special_keeps(start, messages, n, m);
        assert(plan.requests[m] == call);
    }
}

/// At most one pinned message is listed.
pub proof fn law_one_pin_at_most(
    page: Page<PinnedMessage>,
    chat: JsonView,
    conversation: ConversationRef,
    limit: Option<u32>,
)
    requires
        reads_pins(page, chat, conversation, limit),
    ensures
        page.items@.len() <= 1,
{
}

/// No more than twenty messages of a history are asked for, and at least one.
pub proof fn law_histories_are_short(query: MessageQuery)
    requires
        list_messages_outcome(query) is Ok,
    ensures
        json::i64_in(list_messages_outcome(query)->Ok_0.payload, "limit"@) matches Some(limit)
            && 1 <= limit <= 20,
{
    reveal_with_fuel(json::stripped, 2);
}

/// Messages that are forwarded or copied together come from one chat, and every
/// one of them is named, in its place.
pub proof fn law_batches_name_every_message(messages: Seq<MessageRef>, n: int, i: int)
    requires
        batch_outcome(messages, n) is Ok,
        0 <= i < n,
    ensures
        batch_outcome(messages, n)->Ok_0.1.len() == n,
        batch_outcome(messages, n)->Ok_0.0 matches Some(chat) && address::message_ref_outcome(
            messages[i],
        ) == Ok::<(Seq<char>, i64), ErrorView>((chat, batch_outcome(messages, n)->Ok_0.1[i])),
    decreases n,
{
    if n > 1 {
        law_batches_name_every_message(messages, n - 1, if i < n - 1 { i } else { 0 });
    } else {
        assert(batch_outcome(messages, 0) == Ok::<(Option<Seq<char>>, Seq<i64>), ErrorView>(
            (None, Seq::empty()),
        ));
    }
}

// ---------------------------------------------------------------------------
// What the calls say
// ---------------------------------------------------------------------------

proof fn lemma_message_keys()
    ensures
        "chat_id"@.len() == 7,
        "message_id"@.len() == 10,
        "message_ids"@.len() == 11,
        "from_chat_id"@.len() == 12,
        "disable_notification"@.len() == 20,
        "remove_caption"@.len() == 14,
        "reply_markup"@.len() == 12,
        "action"@.len() == 6,
        "business_connection_id"@.len() == 22,
        "checklist"@.len() == 9,
        "user_id"@.len() == 7,
        "limit"@.len() == 5,
        "message_thread_id"@.len() == 17,
        "direct_messages_topic_id"@.len() == 24,
        "inline_keyboard"@.len() == 15,
        "pinned_message"@.len() == 14,
        "chat_id"@ != "user_id"@,
        "from_chat_id"@ != "reply_markup"@,
        "remove_caption"@ != "pinned_message"@,
{
    reveal_strlit("chat_id");
    reveal_strlit("message_id");
    reveal_strlit("message_ids");
    reveal_strlit("from_chat_id");
    reveal_strlit("disable_notification");
    reveal_strlit("remove_caption");
    reveal_strlit("reply_markup");
    reveal_strlit("action");
    reveal_strlit("business_connection_id");
    reveal_strlit("checklist");
    reveal_strlit("user_id");
    reveal_strlit("limit");
    reveal_strlit("message_thread_id");
    reveal_strlit("direct_messages_topic_id");
    reveal_strlit("inline_keyboard");
    reveal_strlit("pinned_message");
    assert("chat_id"@[0] != "user_id"@[0]);
    assert("from_chat_id"@[0] != "reply_markup"@[0]);
    assert("remove_caption"@[0] != "pinned_message"@[0]);
}

proof fn lemma_message_methods()
    ensures
        "pinChatMessage"@.len() == 14,
        "unpinChatMessage"@.len() == 16,
        "unpinAllForumTopicMessages"@.len() == 26,
        "unpinAllChatMessages"@.len() == 20,
        "copyMessages"@.len() == 12,
        "forwardMessages"@.len() == 15,
        "deleteMessage"@.len() == 13,
        "deleteEphemeralMessage"@.len() == 22,
{
    reveal_strlit("pinChatMessage");
    reveal_strlit("unpinChatMessage");
    reveal_strlit("unpinAllForumTopicMessages");
    reveal_strlit("unpinAllChatMessages");
    reveal_strlit("copyMessages");
    reveal_strlit("forwardMessages");
    reveal_strlit("deleteMessage");
    reveal_strlit("deleteEphemeralMessage");
}

proof fn lemma_said(
    method: Seq<char>,
    place: Map<Seq<char>, JsonView>,
    own: Map<Seq<char>, JsonView>,
    key: Seq<char>,
)
    requires
        address::with_members(place, own) is Ok,
    ensures
        json::member(own, key) matches Some(value) ==> json::member(
            request::call(method, address::with_members(place, own)->Ok_0).payload,
            key,
        ) == if value is Null {
            None
        } else {
            Some(json::stripped(value))
        },
        json::member(place, key) matches Some(value) ==> json::member(
            request::call(method, address::with_members(place, own)->Ok_0).payload,
            key,
        ) == if value is Null {
            None
        } else {
            Some(json::stripped(value))
        },
{
    address::lemma_members_kept(place, own, key);
    request::lemma_call_member(method, address::with_members(place, own)->Ok_0, key);
}

/// A message is pinned by its number, with a notification exactly where one is
/// asked for, and the same number takes it off again.
pub proof fn law_pinned_messages_are_unpinned(message: MessageRef, options: PinOptions)
    requires
        pin_outcome(message, options) is Ok,
        unpin_outcome(message) is Ok,
    ensures
        ({
            let put = pin_outcome(message, options)->Ok_0;
            let taken = unpin_outcome(message)->Ok_0;
            let number = address::message_ref_outcome(message)->Ok_0.1;
            &&& put.method == "pinChatMessage"@
            &&& taken.method == "unpinChatMessage"@
            &&& address::message_ref_outcome(message) is Ok
            &&& json::i64_in(put.payload, "message_id"@) == Some(number)
            &&& json::i64_in(taken.payload, "message_id"@) == Some(number)
            &&& options.notify_members == Some(true) ==> json::bool_in(
                put.payload,
                "disable_notification"@,
            ) == Some(false)
            &&& options.notify_members == Some(false) ==> json::bool_in(
                put.payload,
                "disable_notification"@,
            ) == Some(true)
            &&& options.notify_members is None ==> json::bool_in(
                put.payload,
                "disable_notification"@,
            ) is None
        }),
{
    lemma_message_keys();
    let (place, number) = message_payload(message)->Ok_0;
    let own = numbered(number).insert(
        "disable_notification"@,
        match options.notify_members {
            Some(notify) => JsonView::Bool(!notify),
            None => JsonView::Null,
        },
    );
    lemma_said("pinChatMessage"@, place, own, "message_id"@);
    lemma_said("pinChatMessage"@, place, own, "disable_notification"@);
    lemma_said("unpinChatMessage"@, place, numbered(number), "message_id"@);
}

/// All pins of a topic are taken off by the method for topics, and those of
/// any other conversation by the method for chats.
pub proof fn law_pins_are_cleared_where_they_are(conversation: ConversationRef)
    requires
        clear_pins_outcome(conversation) is Ok,
    ensures
        ({
            let call = clear_pins_outcome(conversation)->Ok_0;
            let topic = conversation.kind is Thread || conversation.kind is Topic;
            &&& topic <==> call.method == "unpinAllForumTopicMessages"@
            &&& !topic <==> call.method == "unpinAllChatMessages"@
            &&& json::member(call.payload, "chat_id"@) == Some(
                match text::i64_value(address::root(conversation).id@) {
                    Some(number) => JsonView::Integer(number as int),
                    None => JsonView::Text(address::root(conversation).id@),
                },
            )
        }),
{
    lemma_message_methods();
    let place = address::conversation_payload(conversation)->Ok_0;
    address::lemma_chat_is_named(conversation);
    request::lemma_call_member(clear_pins_outcome(conversation)->Ok_0.method, place, "chat_id"@);
}

/// The message that is said to be pinned is the one that the chat names, in the
/// conversation that was asked about; where the chat names none, none is.
pub proof fn law_pins_are_those_of_the_chat(
    page: Page<PinnedMessage>,
    chat: Map<Seq<char>, JsonView>,
    conversation: ConversationRef,
    limit: Option<u32>,
)
    requires
        reads_pins(page, JsonView::Object(chat), conversation, limit),
        limit != Some(0u32),
    ensures
        json::object_in(chat, "pinned_message"@) is None ==> page.items@.len() == 0,
        json::object_in(chat, "pinned_message"@) matches Some(pinned) ==> (json::i64_in(
            pinned,
            "message_id"@,
        ) matches Some(number) ==> (page.items@.len() == 1 && text::i64_value(
            page.items@[0].message@.id,
        ) == Some(number) && page.items@[0].message@.conversation == Some(conversation@))),
{
    if let Some(pinned) = json::object_in(chat, "pinned_message"@) {
        if let Some(number) = json::i64_in(pinned, "message_id"@) {
            text::lemma_decimal_round_trip(number as int);
        }
    }
}

/// What is shown to go on in a chat is what goes on: no two activities look
/// alike.
pub proof fn law_activities_are_shown_by_name(
    conversation: ConversationRef,
    activity: ChatActivity,
    duration: Option<Duration>,
)
    requires
        activity_outcome(conversation, activity, duration) is Ok,
    ensures
        ({
            let call = activity_outcome(conversation, activity, duration)->Ok_0;
            let action = json::text_in(call.payload, "action"@);
            &&& call.method == "sendChatAction"@
            &&& activity is Typing ==> action == Some("typing"@)
            &&& activity is UploadingPhoto ==> action == Some("upload_photo"@)
            &&& activity is UploadingVideo ==> action == Some("upload_video"@)
            &&& activity is UploadingAudio ==> action == Some("upload_voice"@)
            &&& activity is UploadingFile ==> action == Some("upload_document"@)
            &&& activity is RecordingAudio ==> action == Some("record_voice"@)
            &&& activity is RecordingVideo ==> action == Some("record_video"@)
            &&& activity is ChoosingSticker ==> action == Some("choose_sticker"@)
            &&& activity matches ChatActivity::PlatformNative(own) ==> action == Some(own@)
            &&& !(activity is Playing)
            &&& duration matches Some(span) ==> span.seconds < 5 || span.seconds == 5
                && span.nanoseconds == 0
            &&& json::member(call.payload, "chat_id"@) == Some(
                match text::i64_value(address::root(conversation).id@) {
                    Some(number) => JsonView::Integer(number as int),
                    None => JsonView::Text(address::root(conversation).id@),
                },
            )
        }),
{
    let place = address::conversation_payload(conversation)->Ok_0;
    let own = json::no_fields().insert(
        "action"@,
        JsonView::Text(action_outcome(activity)->Ok_0),
    );
    address::lemma_chat_is_named(conversation);
    lemma_said("sendChatAction"@, place, own, "action"@);
    lemma_said("sendChatAction"@, place, own, "chat_id"@);
}

/// A message is marked as read in its own chat, up to its own number, through
/// the connection that the conversation names.
pub proof fn law_messages_are_marked_as_read(
    conversation: ConversationRef,
    through: Option<MessageRef>,
)
    requires
        mark_read_outcome(conversation, through) is Ok,
    ensures
        ({
            let call = mark_read_outcome(conversation, through)->Ok_0;
            &&& call.method == "readBusinessMessage"@
            &&& through matches Some(message)
            &&& address::message_ref_outcome(message) matches Ok((chat, number))
            &&& json::i64_in(call.payload, "message_id"@) == Some(number)
            &&& text::i64_value(chat) is Some
            &&& json::i64_in(call.payload, "chat_id"@) == text::i64_value(chat)
            &&& conversation.platform_data matches Some(native)
            &&& native.data@ matches JsonView::Object(members)
            &&& json::text_in(members, "business_connection_id"@) is Some
            &&& json::text_in(call.payload, "business_connection_id"@) == json::text_in(
                members,
                "business_connection_id"@,
            )
        }),
{
    lemma_message_keys();
    let connection = business_connection(conversation)->Ok_0;
    let (chat, number) = address::message_ref_outcome(through->0)->Ok_0;
    let payload = json::no_fields().insert(
        "business_connection_id"@,
        JsonView::Text(connection),
    ).insert("chat_id"@, JsonView::Integer(text::i64_value(chat)->0 as int)).insert(
        "message_id"@,
        JsonView::Integer(number as int),
    );
    request::lemma_call_member("readBusinessMessage"@, payload, "business_connection_id"@);
    request::lemma_call_member("readBusinessMessage"@, payload, "chat_id"@);
    request::lemma_call_member("readBusinessMessage"@, payload, "message_id"@);
}

/// A poll is stopped by the number of its message, and a checklist is changed
/// in the message with its number, to what it would be sent as.
pub proof fn law_polls_and_checklists_are_found(message: MessageRef, checklist: Checklist)
    ensures
        stop_poll_outcome(message) matches Ok(call) ==> call.method == "stopPoll"@ && (
        address::message_ref_outcome(message) matches Ok((chat, number)) && json::i64_in(
            call.payload,
            "message_id"@,
        ) == Some(number)),
        edit_checklist_outcome(message, checklist) matches Ok(call) ==> call.method
            == "editMessageChecklist"@ && (address::message_ref_outcome(message) matches Ok(
            (chat, number),
        ) && json::i64_in(call.payload, "message_id"@) == Some(number)) && (
        checklist::input_checklist_outcome(checklist) matches Ok(input) && json::member(
            call.payload,
            "checklist"@,
        ) == Some(json::stripped(input))),
{
    lemma_message_keys();
    if stop_poll_outcome(message) is Ok {
        let (place, number) = chat_message_payload(message)->Ok_0;
        lemma_said("stopPoll"@, place, numbered(number), "message_id"@);
    }
    if edit_checklist_outcome(message, checklist) is Ok {
        let (place, number) = chat_message_payload(message)->Ok_0;
        let input = checklist::input_checklist_outcome(checklist)->Ok_0;
        let own = numbered(number).insert("checklist"@, input);
        checklist::law_checklists_are_written_as_they_are(checklist, 0);
        lemma_said("editMessageChecklist"@, place, own, "message_id"@);
        lemma_said("editMessageChecklist"@, place, own, "checklist"@);
    }
}

/// A single message is deleted by the method for its kind, and one that stands
/// in a chat by its number.
pub proof fn law_messages_are_deleted(message: MessageRef)
    requires
        deletion_outcome(message) is Ok,
    ensures
        ({
            let call = deletion_outcome(message)->Ok_0;
            let (place, kind) = edit::edit_address_outcome(message)->Ok_0;
            &&& edit::edit_address_outcome(message) is Ok
            &&& kind is Ephemeral <==> call.method == "deleteEphemeralMessage"@
            &&& kind is Regular <==> call.method == "deleteMessage"@
            &&& json::i64_in(call.payload, "message_id"@) == json::i64_in(place, "message_id"@)
            &&& kind is Regular ==> (address::message_ref_outcome(message) matches Ok((chat, number))
                && json::i64_in(call.payload, "message_id"@) == Some(number))
        }),
{
    lemma_message_methods();
    let (place, kind) = edit::edit_address_outcome(message)->Ok_0;
    edit::law_edits_find_the_message(message);
    request::lemma_call_member(deletion_outcome(message)->Ok_0.method, place, "message_id"@);
    reveal_with_fuel(json::stripped, 1);
}

/// A batch is deleted in its chat, by all of its numbers in their order.
pub proof fn law_batches_are_deleted(chat: Seq<char>, numbers: Seq<i64>, i: int)
    requires
        0 <= i < numbers.len(),
    ensures
        ({
            let call = batch_deletion(chat, numbers);
            &&& call.method == "deleteMessages"@
            &&& json::member(call.payload, "chat_id"@) == Some(
                match text::i64_value(chat) {
                    Some(number) => JsonView::Integer(number as int),
                    None => JsonView::Text(chat),
                },
            )
            &&& json::array_in(call.payload, "message_ids"@) matches Some(written)
            &&& written.len() == numbers.len()
            &&& written[i] == JsonView::Integer(numbers[i] as int)
        }),
{
    lemma_message_keys();
    let payload = json::no_fields().insert("chat_id"@, address::chat_id_view(chat)).insert(
        "message_ids"@,
        numbers_view(numbers),
    );
    request::lemma_call_member("deleteMessages"@, payload, "chat_id"@);
    request::lemma_call_member("deleteMessages"@, payload, "message_ids"@);
    json::lemma_stripped_item(numbers_view(numbers)->Array_0, i);
}

/// An id of a message is that of its chat and its number, and each call by such
/// an id is about that message; a keyboard that is not given is taken away.
pub proof fn law_ids_name_the_message(id: Seq<char>, components: Option<MessageComponents>)
    ensures
        delete_by_id_outcome(id) matches Ok(call) ==> call.method == "deleteMessage"@ && (
        utils::split_id_outcome(id) matches Ok((chat, number)) && json::i64_in(
            call.payload,
            "message_id"@,
        ) == Some(number) && json::member(call.payload, "chat_id"@) == Some(
            match text::i64_value(chat) {
                Some(number) => JsonView::Integer(number as int),
                None => JsonView::Text(chat),
            },
        )),
        components_edit_outcome(id, components) matches Ok(call) ==> call.method
            == "editMessageReplyMarkup"@ && (utils::split_id_outcome(id) matches Ok((chat, number))
            && json::i64_in(call.payload, "message_id"@) == Some(number) && json::member(
            call.payload,
            "chat_id"@,
        ) == Some(
            match text::i64_value(chat) {
                Some(number) => JsonView::Integer(number as int),
                None => JsonView::Text(chat),
            },
        )) && (components is None ==> (json::object_in(call.payload, "reply_markup"@) matches Some(
            keyboard,
        ) && (json::array_in(keyboard, "inline_keyboard"@) matches Some(rows) && rows.len() == 0))),
{
    lemma_message_keys();
    if let Ok(parts) = utils::split_id_outcome(id) {
        request::lemma_call_member("deleteMessage"@, by_id(parts), "message_id"@);
        request::lemma_call_member("deleteMessage"@, by_id(parts), "chat_id"@);
        if components_edit_outcome(id, components) is Ok {
            let markup = match components {
                Some(components) => keyboard::editable_components_outcome(components)->Ok_0,
                None => edit::empty_keyboard(),
            };
            let payload = by_id(parts).insert("reply_markup"@, markup);
            request::lemma_call_member("editMessageReplyMarkup"@, payload, "message_id"@);
            request::lemma_call_member("editMessageReplyMarkup"@, payload, "chat_id"@);
            request::lemma_call_member("editMessageReplyMarkup"@, payload, "reply_markup"@);
            if components is None {
                json::lemma_stripped_member(edit::empty_keyboard()->Object_0, "inline_keyboard"@);
                assert(json::stripped(JsonView::Array(Seq::empty())) is Array) by {
                    reveal_with_fuel(json::stripped, 2);
                }
            }
        }
    }
}

/// Messages are forwarded by the one method and copied by the other, from the
/// chat that they are in to the one that was named, in their order, silently
/// exactly where that was asked for; a copy loses its captions exactly where
/// they are not to be kept, and what is forwarded keeps them.
pub proof fn law_messages_are_forwarded_or_copied(
    transfer: Transfer,
    messages: Seq<MessageRef>,
    target: MessageTarget,
    options: ForwardOptions,
    i: int,
)
    requires
        transfer_outcome(transfer, messages, target, options) is Ok,
        0 <= i < messages.len(),
    ensures
        ({
            let call = transfer_outcome(transfer, messages, target, options)->Ok_0;
            &&& transfer is Copy <==> call.method == "copyMessages"@
            &&& transfer is Forward <==> call.method == "forwardMessages"@
            &&& address::message_ref_outcome(messages[i]) matches Ok((chat, number))
            &&& json::member(call.payload, "from_chat_id"@) == Some(
                match text::i64_value(chat) {
                    Some(id) => JsonView::Integer(id as int),
                    None => JsonView::Text(chat),
                },
            )
            &&& json::array_in(call.payload, "message_ids"@) matches Some(numbers)
            &&& numbers.len() == messages.len()
            &&& numbers[i] == JsonView::Integer(number as int)
            &&& json::member(call.payload, "chat_id"@) == Some(
                match text::i64_value(address::root(target.conversation).id@) {
                    Some(id) => JsonView::Integer(id as int),
                    None => JsonView::Text(address::root(target.conversation).id@),
                },
            )
            &&& json::bool_in(call.payload, "disable_notification"@) == Some(
                options.notification is Silent,
            )
            &&& transfer is Copy ==> json::bool_in(call.payload, "remove_caption"@) == Some(
                !options.preserve_caption,
            )
            &&& transfer is Forward ==> options.preserve_caption
        }),
{
    lemma_message_keys();
    lemma_message_methods();
    let n = messages.len() as int;
    let (source, numbers) = batch_outcome(messages, n)->Ok_0;
    law_batches_name_every_message(messages, n, i);
    let place = address::conversation_payload(target.conversation)->Ok_0;
    address::lemma_chat_is_named(target.conversation);
    let own = transfer_members(transfer, source->Some_0, numbers, options);
    let both = address::with_members(place, own)->Ok_0;
    let all = native::optional_native_merged(
        both,
        options.platform_data,
        "forward/copy options"@,
    )->Ok_0;
    let method = transfer_outcome(transfer, messages, target, options)->Ok_0.method;
    address::lemma_members_kept(place, own, "from_chat_id"@);
    native::lemma_optional_keeps(both, options.platform_data, "forward/copy options"@, "from_chat_id"@);
    request::lemma_call_member(method, all, "from_chat_id"@);
    address::lemma_members_kept(place, own, "message_ids"@);
    native::lemma_optional_keeps(both, options.platform_data, "forward/copy options"@, "message_ids"@);
    request::lemma_call_member(method, all, "message_ids"@);
    address::lemma_members_kept(place, own, "chat_id"@);
    native::lemma_optional_keeps(both, options.platform_data, "forward/copy options"@, "chat_id"@);
    request::lemma_call_member(method, all, "chat_id"@);
    address::lemma_members_kept(place, own, "disable_notification"@);
    native::lemma_optional_keeps(both, options.platform_data, "forward/copy options"@, "disable_notification"@);
    request::lemma_call_member(method, all, "disable_notification"@);
    address::lemma_members_kept(place, own, "remove_caption"@);
    native::lemma_optional_keeps(both, options.platform_data, "forward/copy options"@, "remove_caption"@);
    request::lemma_call_member(method, all, "remove_caption"@);
    json::lemma_stripped_item(numbers_view(numbers)->Array_0, i);
}

/// The history of a personal chat is asked for by the number of the user.
pub proof fn law_histories_are_those_of_the_user(query: MessageQuery)
    requires
        list_messages_outcome(query) is Ok,
    ensures
        ({
            let call = list_messages_outcome(query)->Ok_0;
            &&& call.method == "getUserPersonalChatMessages"@
            &&& query.conversation matches Some(conversation)
            &&& conversation.kind is Direct
            &&& json::i64_in(call.payload, "user_id"@) is Some
            &&& json::i64_in(call.payload, "user_id"@) == text::i64_value(conversation.id@)
            &&& query.limit matches Some(limit) ==> json::i64_in(call.payload, "limit"@) == Some(
                limit as i64,
            )
        }),
{
    lemma_message_keys();
    let limit: u32 = match query.limit {
        Some(limit) => limit,
        None => 20,
    };
    let payload = json::no_fields().insert(
        "user_id"@,
        JsonView::Integer(text::i64_value(query.conversation->0.id@)->0 as int),
    ).insert("limit"@, JsonView::Integer(limit as int));
    request::lemma_call_member("getUserPersonalChatMessages"@, payload, "user_id"@);
    request::lemma_call_member("getUserPersonalChatMessages"@, payload, "limit"@);
}

/// An activity may last five seconds and no longer.
pub proof fn law_activities_have_a_limit(duration: Duration)
    ensures
        too_long(Some(duration)) <==> duration.seconds > 5 || duration.seconds == 5
            && duration.nanoseconds > 0,
        !too_long(None),
{
}

/// What is done with a message is what was asked for: it is deleted, pinned,
/// taken off, or its poll is stopped, each by its own method.
pub proof fn law_each_call_does_what_it_says(
    message: &MessageRef,
    options: PinOptions,
    deleting: Result<Request, Error>,
    pinning: Result<Request, Error>,
    unpinning: Result<Request, Error>,
    stopping: Result<Request, Error>,
)
    requires
        call_ensures(delete_message_ref, (message,), deleting),
        call_ensures(pin_message, (message, options), pinning),
        call_ensures(unpin_message, (message,), unpinning),
        call_ensures(stop_poll, (message,), stopping),
    ensures
        deleting matches Ok(call) ==> call@.method == "deleteMessage"@ || call@.method
            == "deleteEphemeralMessage"@,
        pinning matches Ok(call) ==> call@.method == "pinChatMessage"@ && (options.notify_members
            == Some(false) ==> json::bool_in(call@.payload, "disable_notification"@) == Some(true)),
        unpinning matches Ok(call) ==> call@.method == "unpinChatMessage"@,
        stopping matches Ok(call) ==> call@.method == "stopPoll"@,
        pinning is Ok ==> (address::message_ref_outcome(*message) matches Ok((_, number))
            && json::i64_in(pinning->Ok_0@.payload, "message_id"@) == Some(number)),
{
    if pinning is Ok {
        lemma_message_keys();
        let (place, number) = message_payload(*message)->Ok_0;
        let own = numbered(number).insert(
            "disable_notification"@,
            match options.notify_members {
                Some(notify) => JsonView::Bool(!notify),
                None => JsonView::Null,
            },
        );
        lemma_said("pinChatMessage"@, place, own, "message_id"@);
        lemma_said("pinChatMessage"@, place, own, "disable_notification"@);
    }
}

/// A message is deleted by itself exactly where its native data names a
/// receiver, an ephemeral message or an inline message.
pub proof fn law_special_messages_are_named(message: MessageRef, members: Map<Seq<char>, JsonView>)
    requires
        message.platform_data is Some,
        message.platform_data->0.platform@ == SERVER@,
        message.platform_data->0.data@ == JsonView::Object(members),
    ensures
        is_special(message) <==> members.contains_key("receiver_user_id"@) || members.contains_key(
            "ephemeral_message_id"@,
        ) || members.contains_key("inline_message_id"@),
{
}

} // verus!
