//! Updates as events.
use crate::api::address;
use crate::api::address::copy_member;
use crate::api::interactions;
use crate::client;
use crate::client::Update;
use crate::content::Duration;
use crate::conversation::ConversationRef;
use crate::error::ErrorView;
use crate::interaction::InteractionResponseHandle;
use crate::json;
use crate::json::{Fields, Json, JsonView};
use crate::native;
use crate::native::{make_native, NativeView, SERVER};
use crate::reading;
use crate::reading::find_conversation;
use crate::segment;
use crate::segment::{parse_message, parse_reaction};
use crate::source;
use crate::source::{Group, GroupView, Message, SegmentView, User, UserView};
use crate::telegram::{
    CallbackQuery, Chat, ChatJoinRequest, ChatMemberUpdated, Message as TelegramMessage,
    MessageReactionUpdated, ReactionType, User as TelegramUser,
};
use crate::text;
use crate::text::{i64_text, same};
use crate::time;
use crate::time::instant;
use crate::utf16;
use crate::utils;
use crate::utils::{
    join_request_id, message_id, parse_chat_sender, parse_group, parse_user,
};
use vstd::prelude::*;

pub use crate::envelope::{telegram_message_envelope, MessageEnvelope};

verus! {

// ---------------------------------------------------------------------------
// Events
// ---------------------------------------------------------------------------

#[derive(Debug, PartialEq)]
pub struct MessageEvent {
    pub id: String,
    /// A point in time, in seconds since the epoch.
    pub time: Option<i64>,
    pub sender: User,
    pub group: Option<Group>,
    pub message: Message,
}

#[derive(Debug, PartialEq)]
pub enum GroupMemberIncreseReason {
    Approve { operator: Option<User> },
    Invite { inviter: Option<User>, operator: Option<User> },
    Unknown,
}

#[derive(Debug, PartialEq)]
pub enum GroupMemberDecreaseReason {
    Kick { operator: Option<User> },
    Leave,
    Unknown,
}

#[derive(Debug, Clone, Copy, PartialEq, Eq, Structural)]
pub enum GroupAdminChangeType {
    Appointed,
    Removed,
}

#[derive(Debug, Clone, Copy, PartialEq, Eq, Structural)]
pub enum MuteType {
    Mute { duration: Option<Duration> },
    UnMute,
}

#[allow(inconsistent_fields)]
#[derive(Debug, PartialEq)]
pub enum NoticeEvent {
    GroupMemberIncreseEvent { group: Group, user: User, reason: GroupMemberIncreseReason },
    GroupMemberDecreaseEvent { group: Group, user: User, reason: GroupMemberDecreaseReason },
    GroupAdminChangeEvent { group: Group, user: User, change: GroupAdminChangeType },
    GroupMemberMuteChangeEvent { group: Group, user: User, operator: Option<User>, mute: MuteType },
    GroupMemberAliasChangeEvent {
        group: Group,
        user: User,
        operator: Option<User>,
        old_alias: Option<String>,
        new_alias: Option<String>,
    },
    MessageEditedEvent {
        user: User,
        edited_in: Option<Group>,
        new_message: Option<Message>,
        operator: Option<User>,
        old_message: Option<Message>,
    },
    MessageReactionsEvent {
        user: User,
        reacted_in: Option<Group>,
        message: Message,
        reactions: Vec<String>,
    },
}

#[derive(Debug, PartialEq)]
pub struct GroupAddEvent {
    pub id: String,
    pub user: User,
    pub group: Group,
    pub message: Option<String>,
}

#[derive(Debug, Clone, Copy, PartialEq, Eq, Structural)]
pub enum InteractionKind {
    Button,
    Select,
    Form,
}

/// Something that a user did with a button, a choice or a form.
#[derive(Debug, PartialEq)]
pub struct InteractionEvent {
    pub id: String,
    pub kind: InteractionKind,
    pub action_id: Option<String>,
    pub values: Vec<String>,
    pub user: User,
    pub group: Option<Group>,
    pub message: Option<Message>,
    pub context_id: Option<String>,
    pub response: Option<InteractionResponseHandle>,
    /// All that Telegram sent about it.
    pub data: Json,
}

/// An update in Telegram's own form. It stands for every kind of update that
/// has no event of its own, those of later versions of the Bot API among them.
#[derive(Debug, PartialEq)]
pub struct TelegramRawEvent {
    pub update_id: i64,
    pub kind: String,
    pub data: Json,
}

#[derive(Debug, PartialEq)]
pub struct AnyEvent {
    pub server: &'static str,
    pub kind: String,
    pub data: TelegramRawEvent,
}

#[derive(Debug, PartialEq)]
pub enum Event {
    MessageEvent(MessageEvent),
    NoticeEvent(NoticeEvent),
    RequestEvent(GroupAddEvent),
    InteractionEvent(InteractionEvent),
    AnyEvent(AnyEvent),
}

/// What an event says.
#[allow(inconsistent_fields)]
#[verifier::ext_equal]
pub enum EventView {
    Message {
        id: Seq<char>,
        time: Option<i64>,
        sender: UserView,
        group: Option<GroupView>,
        message_id: Seq<char>,
        segments: Seq<SegmentView>,
    },
    MemberIncrease { group: GroupView, user: UserView, reason: IncreaseView },
    MemberDecrease { group: GroupView, user: UserView, reason: DecreaseView },
    AdminChange { group: GroupView, user: UserView, change: GroupAdminChangeType },
    MuteChange { group: GroupView, user: UserView, operator: Option<UserView>, mute: MuteType },
    AliasChange {
        group: GroupView,
        user: UserView,
        operator: Option<UserView>,
        old_alias: Option<Seq<char>>,
        new_alias: Option<Seq<char>>,
    },
    Edited {
        user: UserView,
        group: Option<GroupView>,
        new_message: Option<(Seq<char>, Seq<SegmentView>)>,
        operator: Option<UserView>,
        old_message: Option<(Seq<char>, Seq<SegmentView>)>,
    },
    Reactions {
        user: UserView,
        group: Option<GroupView>,
        message: (Seq<char>, Seq<SegmentView>),
        reactions: Seq<Seq<char>>,
    },
    JoinRequest { id: Seq<char>, user: UserView, group: GroupView, message: Option<Seq<char>> },
    Interaction {
        id: Seq<char>,
        kind: InteractionKind,
        action_id: Option<Seq<char>>,
        values: Seq<Seq<char>>,
        user: UserView,
        group: Option<GroupView>,
        message: Option<(Seq<char>, Seq<SegmentView>)>,
        context_id: Option<Seq<char>>,
        response: Option<(Seq<char>, Option<NativeView>)>,
        data: JsonView,
    },
    Raw { server: Seq<char>, kind: Seq<char>, update_id: i64, named: Seq<char>, data: JsonView },
}

/// Why a group has one member more.
pub enum IncreaseView {
    Approve { operator: Option<UserView> },
    Invite { inviter: Option<UserView>, operator: Option<UserView> },
    Unknown,
}

/// Why a group has one member less.
pub enum DecreaseView {
    Kick { operator: Option<UserView> },
    Leave,
    Unknown,
}

/// What is known of a group, where there is one.
pub open spec fn optional_group(group: Option<Group>) -> Option<GroupView> {
    match group {
        Some(group) => Some(group@),
        None => None,
    }
}

/// What a message says, where there is one.
pub open spec fn optional_message(message: Option<Message>) -> Option<
    (Seq<char>, Seq<SegmentView>),
> {
    match message {
        Some(message) => Some((message.id@, source::segments_view(message.segments@))),
        None => None,
    }
}

/// What a notice says.
pub open spec fn notice_view(notice: NoticeEvent) -> EventView {
    match notice {
        NoticeEvent::GroupMemberIncreseEvent { group, user, reason } => EventView::MemberIncrease {
            group: group@,
            user: user@,
            reason: match reason {
                GroupMemberIncreseReason::Approve { operator } => IncreaseView::Approve {
                    operator: reading::optional_user(operator),
                },
                GroupMemberIncreseReason::Invite { inviter, operator } => IncreaseView::Invite {
                    inviter: reading::optional_user(inviter),
                    operator: reading::optional_user(operator),
                },
                GroupMemberIncreseReason::Unknown => IncreaseView::Unknown,
            },
        },
        NoticeEvent::GroupMemberDecreaseEvent { group, user, reason } => EventView::MemberDecrease {
            group: group@,
            user: user@,
            reason: match reason {
                GroupMemberDecreaseReason::Kick { operator } => DecreaseView::Kick {
                    operator: reading::optional_user(operator),
                },
                GroupMemberDecreaseReason::Leave => DecreaseView::Leave,
                GroupMemberDecreaseReason::Unknown => DecreaseView::Unknown,
            },
        },
        NoticeEvent::GroupAdminChangeEvent { group, user, change } => EventView::AdminChange {
            group: group@,
            user: user@,
            change,
        },
        NoticeEvent::GroupMemberMuteChangeEvent {
            group,
            user,
            operator,
            mute,
        } => EventView::MuteChange {
            group: group@,
            user: user@,
            operator: reading::optional_user(operator),
            mute,
        },
        NoticeEvent::GroupMemberAliasChangeEvent {
            group,
            user,
            operator,
            old_alias,
            new_alias,
        } => EventView::AliasChange {
            group: group@,
            user: user@,
            operator: reading::optional_user(operator),
            old_alias: json::optional_chars(old_alias),
            new_alias: json::optional_chars(new_alias),
        },
        NoticeEvent::MessageEditedEvent {
            user,
            edited_in,
            new_message,
            operator,
            old_message,
        } => EventView::Edited {
            user: user@,
            group: optional_group(edited_in),
            new_message: optional_message(new_message),
            operator: reading::optional_user(operator),
            old_message: optional_message(old_message),
        },
        NoticeEvent::MessageReactionsEvent {
            user,
            reacted_in,
            message,
            reactions,
        } => EventView::Reactions {
            user: user@,
            group: optional_group(reacted_in),
            message: (message.id@, source::segments_view(message.segments@)),
            reactions: utf16::texts(reactions@),
        },
    }
}

impl View for Event {
    type V = EventView;

    open spec fn view(&self) -> EventView {
        match *self {
            Event::MessageEvent(event) => EventView::Message {
                id: event.id@,
                time: event.time,
                sender: event.sender@,
                group: optional_group(event.group),
                message_id: event.message.id@,
                segments: source::segments_view(event.message.segments@),
            },
            Event::NoticeEvent(notice) => notice_view(notice),
            Event::RequestEvent(event) => EventView::JoinRequest {
                id: event.id@,
                user: event.user@,
                group: event.group@,
                message: json::optional_chars(event.message),
            },
            Event::InteractionEvent(event) => EventView::Interaction {
                id: event.id@,
                kind: event.kind,
                action_id: json::optional_chars(event.action_id),
                values: utf16::texts(event.values@),
                user: event.user@,
                group: optional_group(event.group),
                message: optional_message(event.message),
                context_id: json::optional_chars(event.context_id),
                response: match event.response {
                    Some(handle) => Some(
                        (handle.id@, native::optional_native(handle.platform_data)),
                    ),
                    None => None,
                },
                data: event.data@,
            },
            Event::AnyEvent(event) => EventView::Raw {
                server: event.server@,
                kind: event.kind@,
                update_id: event.data.update_id,
                named: event.data.kind@,
                data: event.data.data@,
            },
        }
    }
}

/// What a list of events says.
pub open spec fn events_view(events: Seq<Event>) -> Seq<EventView> {
    Seq::new(events.len(), |i: int| events[i]@)
}

fn push_event(events: &mut Vec<Event>, event: Event)
    ensures
        events_view(final(events)@) == events_view(old(events)@).push(event@),
{
    let ghost before = events_view(events@);
    events.push(event);
    assert(events_view(events@) =~= before.push(event@));
}

fn no_events() -> (events: Vec<Event>)
    ensures
        events_view(events@) == Seq::<EventView>::empty(),
{
    let events: Vec<Event> = Vec::new();
    assert(events_view(events@) =~= Seq::<EventView>::empty());
    events
}

// ---------------------------------------------------------------------------
// Who and where
// ---------------------------------------------------------------------------

/// A user that Telegram sent.
pub open spec fn user_of(user: TelegramUser) -> UserView {
    source::plain_user(text::decimal(user.id as int), Some(utils::user_name(user)))
}

fn take_user(user: &TelegramUser) -> (result: User)
    ensures
        result@ == user_of(*user),
{
    parse_user(user)
}

/// A chat that sends messages.
pub open spec fn sender_of(chat: Chat) -> UserView {
    source::plain_user(text::decimal(chat.id as int), utils::sender_name(chat))
}

fn take_sender(chat: &Chat) -> (result: User)
    ensures
        result@ == sender_of(*chat),
{
    parse_chat_sender(chat)
}

/// The name of a group: its title, or its user name.
pub open spec fn group_name(chat: Chat) -> Option<Seq<char>> {
    match chat.title {
        Some(title) => Some(title@),
        None => json::optional_chars(chat.username),
    }
}

/// A chat as a group.
pub open spec fn group_of(chat: Chat) -> GroupView {
    source::plain_group(text::decimal(chat.id as int), group_name(chat))
}

fn take_group(chat: &Chat) -> (result: Group)
    ensures
        result@ == group_of(*chat),
{
    parse_group(chat)
}

/// The chat as a group, unless it is private.
pub open spec fn group_around(chat: Chat) -> Option<GroupView> {
    if chat.kind@ == "private"@ {
        None
    } else {
        Some(group_of(chat))
    }
}

fn find_group(chat: &Chat) -> (result: Option<Group>)
    ensures
        optional_group(result) == group_around(*chat),
{
    if same(chat.kind.as_str(), "private") {
        None
    } else {
        Some(take_group(chat))
    }
}

/// Whether a message is in a private chat.
pub fn is_private(message: &TelegramMessage) -> (result: bool)
    ensures
        result == (message.chat.kind@ == "private"@),
{
    same(message.chat.kind.as_str(), "private")
}

fn message_group(message: &TelegramMessage) -> (result: Option<Group>)
    ensures
        optional_group(result) == group_around(message.chat),
{
    if is_private(message) {
        None
    } else {
        Some(take_group(&message.chat))
    }
}

/// Who acts: a user, or a chat where there is none.
pub open spec fn actor(user: Option<TelegramUser>, chat: Option<Chat>) -> Option<UserView> {
    match user {
        Some(user) => Some(user_of(user)),
        None => match chat {
            Some(chat) => Some(sender_of(chat)),
            None => None,
        },
    }
}

pub(crate) fn find_actor(user: &Option<TelegramUser>, chat: &Option<Chat>) -> (result: Option<User>)
    ensures
        reading::optional_user(result) == actor(*user, *chat),
{
    match user {
        Some(user) => Some(take_user(user)),
        None => match chat {
            Some(chat) => Some(take_sender(chat)),
            None => None,
        },
    }
}

// ---------------------------------------------------------------------------
// Messages
// ---------------------------------------------------------------------------

/// The id of a message.
pub open spec fn id_of(message: TelegramMessage) -> Seq<char> {
    utils::message_id_text(message.chat.id as int, message.message_id as int)
}

/// The events of members that were added, the first `n`.
pub open spec fn added_events(chat: Chat, members: Seq<TelegramUser>, n: int) -> Seq<EventView>
    decreases n,
{
    if n <= 0 {
        Seq::empty()
    } else {
        added_events(chat, members, n - 1).push(
            EventView::MemberIncrease {
                group: group_of(chat),
                user: user_of(members[n - 1]),
                reason: IncreaseView::Unknown,
            },
        )
    }
}

/// The members that a message says were added.
pub open spec fn new_members(message: TelegramMessage) -> Seq<TelegramUser> {
    match message.new_chat_members {
        Some(members) => members@,
        None => Seq::empty(),
    }
}

/// A choice that a message tells of.
pub open spec fn selection(
    message: TelegramMessage,
    user: UserView,
    kind: InteractionKind,
    action_id: Option<Seq<char>>,
    values: Seq<Seq<char>>,
    data: JsonView,
) -> EventView {
    EventView::Interaction {
        id: id_of(message),
        kind,
        action_id,
        values,
        user,
        group: group_around(message.chat),
        message: None,
        context_id: None,
        response: None,
        data,
    }
}

/// The numbers of the first `n` users that were shared.
pub open spec fn shared_users(users: Seq<JsonView>, n: int) -> Seq<Seq<char>>
    decreases n,
{
    if n <= 0 {
        Seq::empty()
    } else {
        let before = shared_users(users, n - 1);
        match users[n - 1] {
            JsonView::Object(user) => match json::i64_in(user, "user_id"@) {
                Some(id) => before.push(text::decimal(id as int)),
                None => before,
            },
            _ => before,
        }
    }
}

/// One value, where there is one.
pub open spec fn one_or_none(value: Option<Seq<char>>) -> Seq<Seq<char>> {
    match value {
        Some(value) => seq![value],
        None => Seq::empty(),
    }
}

/// A number, as a text.
pub open spec fn number_in(members: Map<Seq<char>, JsonView>, key: Seq<char>) -> Option<Seq<char>> {
    match json::i64_in(members, key) {
        Some(number) => Some(text::decimal(number as int)),
        None => None,
    }
}

/// The members of the object that a message has under `key`.
pub open spec fn object_in(message: TelegramMessage, key: Seq<char>) -> Option<
    Map<Seq<char>, JsonView>,
> {
    match json::member(json::fields(message.extra), key) {
        Some(JsonView::Object(members)) => Some(members),
        _ => None,
    }
}

/// The users that were chosen.
pub open spec fn users_event(message: TelegramMessage, user: UserView) -> Option<EventView> {
    match object_in(message, "users_shared"@) {
        Some(members) => Some(
            selection(
                message,
                user,
                InteractionKind::Select,
                number_in(members, "request_id"@),
                match json::array_in(members, "users"@) {
                    Some(users) => shared_users(users, users.len() as int),
                    None => Seq::empty(),
                },
                JsonView::Object(members),
            ),
        ),
        None => None,
    }
}

/// The chat that was chosen.
pub open spec fn chat_event(message: TelegramMessage, user: UserView) -> Option<EventView> {
    match object_in(message, "chat_shared"@) {
        Some(members) => Some(
            selection(
                message,
                user,
                InteractionKind::Select,
                number_in(members, "request_id"@),
                one_or_none(number_in(members, "chat_id"@)),
                JsonView::Object(members),
            ),
        ),
        None => None,
    }
}

/// The bot that was made.
pub open spec fn bot_event(message: TelegramMessage, user: UserView) -> Option<EventView> {
    match object_in(message, "managed_bot_created"@) {
        Some(members) => Some(
            selection(
                message,
                user,
                InteractionKind::Select,
                None,
                match json::member(members, "bot"@) {
                    Some(JsonView::Object(bot)) => one_or_none(number_in(bot, "id"@)),
                    _ => Seq::empty(),
                },
                JsonView::Object(members),
            ),
        ),
        None => None,
    }
}

/// What a Mini App sent.
pub open spec fn web_app_event(message: TelegramMessage, user: UserView) -> Option<EventView> {
    match object_in(message, "web_app_data"@) {
        Some(members) => Some(
            selection(
                message,
                user,
                InteractionKind::Form,
                json::text_in(members, "button_text"@),
                one_or_none(json::text_in(members, "data"@)),
                JsonView::Object(members),
            ),
        ),
        None => None,
    }
}

/// The choices that a message tells of, where someone made them.
pub open spec fn selections(message: TelegramMessage) -> Seq<EventView> {
    match actor(message.from, message.sender_chat) {
        None => Seq::empty(),
        Some(user) => and_event(
            and_event(
                and_event(
                    and_event(Seq::empty(), users_event(message, user)),
                    chat_event(message, user),
                ),
                bot_event(message, user),
            ),
            web_app_event(message, user),
        ),
    }
}

/// The events of a message: the message itself, where it says something and
/// someone sent it, the choices it tells of, and the members who came or went.
pub open spec fn message_events(message: TelegramMessage) -> Seq<EventView> {
    let said = match actor(message.from, message.sender_chat) {
        Some(sender) => if segment::message_segments(message).len() > 0 {
            seq![
                EventView::Message {
                    id: id_of(message),
                    time: time::instant_of(message.date),
                    sender,
                    group: group_around(message.chat),
                    message_id: id_of(message),
                    segments: segment::message_segments(message),
                },
            ]
        } else {
            Seq::empty()
        },
        None => Seq::empty(),
    };
    let added = said + selections(message) + added_events(
        message.chat,
        new_members(message),
        new_members(message).len() as int,
    );
    match message.left_chat_member {
        Some(member) => added.push(
            EventView::MemberDecrease {
                group: group_of(message.chat),
                user: user_of(member),
                reason: DecreaseView::Unknown,
            },
        ),
        None => added,
    }
}

fn find_object<'a>(message: &'a TelegramMessage, key: &str) -> (result: Option<&'a Fields>)
    ensures
        match result {
            Some(members) => object_in(*message, key@) == Some(json::fields(*members)),
            None => object_in(*message, key@) is None,
        },
{
    broadcast use json::lemma_json_view;

    match message.extra.member(key) {
        Some(Json::Object(members)) => Some(members),
        _ => None,
    }
}

fn find_number(members: &Fields, key: &str) -> (result: Option<String>)
    ensures
        json::optional_chars(result) == number_in(json::fields(*members), key@),
{
    match members.i64_at(key) {
        Some(number) => Some(i64_text(number)),
        None => None,
    }
}

fn list_one(value: Option<String>) -> (values: Vec<String>)
    ensures
        utf16::texts(values@) == one_or_none(json::optional_chars(value)),
{
    let mut values: Vec<String> = Vec::new();
    if let Some(value) = value {
        values.push(value);
    }
    assert(utf16::texts(values@) =~= one_or_none(json::optional_chars(value)));
    values
}

fn list_users(members: &Fields) -> (values: Vec<String>)
    ensures
        utf16::texts(values@) == match json::array_in(json::fields(*members), "users"@) {
            Some(users) => shared_users(users, users.len() as int),
            None => Seq::empty(),
        },
{
    broadcast use json::lemma_json_view;

    let mut values: Vec<String> = Vec::new();
    assert(utf16::texts(values@) =~= Seq::<Seq<char>>::empty());
    if let Some(users) = members.array_at("users") {
        let ghost all = json::views(users@);
        let mut i: usize = 0;
        while i < users.len()
            invariant
                i <= users@.len(),
                all == json::views(users@),
                utf16::texts(values@) == shared_users(all, i as int),
            decreases users@.len() - i,
        {
            broadcast use json::lemma_json_view;

            assert(all[i as int] == users@[i as int]@);
            let ghost before = utf16::texts(values@);
            if let Json::Object(user) = &users[i] {
                if let Some(id) = find_number(user, "user_id") {
                    values.push(id);
                    assert(utf16::texts(values@) =~= before.push(id@));
                }
            }
            i += 1;
        }
    }
    values
}

fn make_selection(
    message: &TelegramMessage,
    user: User,
    kind: InteractionKind,
    action_id: Option<String>,
    values: Vec<String>,
    members: &Fields,
) -> (event: Event)
    ensures
        event@ == selection(
            *message,
            user@,
            kind,
            json::optional_chars(action_id),
            utf16::texts(values@),
            JsonView::Object(json::fields(*members)),
        ),
{
    Event::InteractionEvent(
        InteractionEvent {
            id: message_id(message.chat.id, message.message_id),
            kind,
            action_id,
            values,
            user,
            group: message_group(&message),
            message: None,
            context_id: None,
            response: None,
            data: Json::object(members.clone()),
        },
    )
}

fn find_choices(message: &TelegramMessage) -> (events: Vec<Event>)
    ensures
        events_view(events@) == selections(*message),
{
    let mut events = no_events();
    if let Some(members) = find_object(message, "users_shared") {
        if let Some(user) = find_actor(&message.from, &message.sender_chat) {
            let number = find_number(members, "request_id");
            let values = list_users(members);
            let event = make_selection(
                message,
                user,
                InteractionKind::Select,
                number,
                values,
                members,
            );
            push_event(&mut events, event);
        }
    }
    if let Some(members) = find_object(message, "chat_shared") {
        if let Some(user) = find_actor(&message.from, &message.sender_chat) {
            let number = find_number(members, "request_id");
            let values = list_one(find_number(members, "chat_id"));
            let event = make_selection(
                message,
                user,
                InteractionKind::Select,
                number,
                values,
                members,
            );
            push_event(&mut events, event);
        }
    }
    if let Some(members) = find_object(message, "managed_bot_created") {
        if let Some(user) = find_actor(&message.from, &message.sender_chat) {
            let values = list_bot(members);
            let event = make_selection(
                message,
                user,
                InteractionKind::Select,
                None,
                values,
                members,
            );
            push_event(&mut events, event);
        }
    }
    if let Some(members) = find_object(message, "web_app_data") {
        if let Some(user) = find_actor(&message.from, &message.sender_chat) {
            let button = members.string_at("button_text");
            let values = list_one(members.string_at("data"));
            let event = make_selection(
                message,
                user,
                InteractionKind::Form,
                button,
                values,
                members,
            );
            push_event(&mut events, event);
        }
    }
    events
}

fn list_bot(members: &Fields) -> (values: Vec<String>)
    ensures
        utf16::texts(values@) == match json::member(json::fields(*members), "bot"@) {
            Some(JsonView::Object(bot)) => one_or_none(number_in(bot, "id"@)),
            _ => Seq::empty(),
        },
{
    broadcast use json::lemma_json_view;

    match members.member("bot") {
        Some(Json::Object(bot)) => list_one(find_number(bot, "id")),
        _ => list_one(None),
    }
}

fn push_added(events: &mut Vec<Event>, chat: &Chat, members: &Vec<TelegramUser>)
    ensures
        events_view(final(events)@) == events_view(old(events)@) + added_events(
            *chat,
            members@,
            members@.len() as int,
        ),
{
    let ghost start = events_view(events@);
    assert(start + Seq::<EventView>::empty() =~= start);
    let mut i: usize = 0;
    while i < members.len()
        invariant
            i <= members@.len(),
            events_view(events@) == start + added_events(*chat, members@, i as int),
        decreases members@.len() - i,
    {
        let ghost before = added_events(*chat, members@, i as int);
        let event = Event::NoticeEvent(
            NoticeEvent::GroupMemberIncreseEvent {
                group: take_group(chat),
                user: take_user(&members[i]),
                reason: GroupMemberIncreseReason::Unknown,
            },
        );
        let ghost shown = event@;
        push_event(events, event);
        assert((start + before).push(shown) =~= start + before.push(shown));
        i += 1;
    }
}

/// Reads a new message.
pub fn parse_message_update(message: TelegramMessage) -> (events: Vec<Event>)
    ensures
        events_view(events@) == message_events(message),
{
    let ghost whole = message;
    let mut message = message;
    let sender = find_actor(&message.from, &message.sender_chat);
    let group = message_group(&message);
    let chat = message.chat.clone();
    let id = message_id(message.chat.id, message.message_id);
    let time = instant(message.date);
    let mut choices = find_choices(&message);
    let members = message.new_chat_members.take();
    let left = message.left_chat_member.take();
    let parsed = parse_message(message);
    assert(segment::message_segments(message) == segment::message_segments(whole));
    let mut events = no_events();
    if parsed.segments.len() > 0 {
        if let Some(sender) = sender {
            push_event(
                &mut events,
                Event::MessageEvent(MessageEvent { id, time, sender, group, message: parsed }),
            );
        }
    }
    let ghost said = events_view(events@);
    proof {
        assert(source::segments_view(parsed.segments@).len() == parsed.segments@.len());
        if said.len() == 1 {
            assert(said =~= seq![said[0]]);
        }
    }
    let ghost chosen = events_view(choices@);
    events.append(&mut choices);
    assert(events_view(events@) =~= said + chosen);
    assert((said + chosen) + Seq::<EventView>::empty() =~= said + chosen);
    if let Some(members) = members {
        push_added(&mut events, &chat, &members);
    }
    if let Some(member) = left {
        push_event(
            &mut events,
            Event::NoticeEvent(
                NoticeEvent::GroupMemberDecreaseEvent {
                    group: take_group(&chat),
                    user: take_user(&member),
                    reason: GroupMemberDecreaseReason::Unknown,
                },
            ),
        );
    }
    events
}

/// The event of an edited message, where someone edited it.
pub open spec fn edited_events(message: TelegramMessage) -> Seq<EventView> {
    match actor(message.from, message.sender_chat) {
        None => Seq::empty(),
        Some(sender) => seq![
            EventView::Edited {
                user: sender,
                group: group_around(message.chat),
                new_message: Some((id_of(message), segment::message_segments(message))),
                operator: Some(sender),
                old_message: None,
            },
        ],
    }
}

/// Reads an edited message.
pub fn parse_edited_message(message: TelegramMessage) -> (events: Vec<Event>)
    ensures
        events_view(events@) == edited_events(message),
{
    let mut events = no_events();
    let user = match find_actor(&message.from, &message.sender_chat) {
        Some(user) => user,
        None => {
            return events;
        },
    };
    let operator = find_actor(&message.from, &message.sender_chat);
    let edited_in = message_group(&message);
    let new_message = Some(parse_message(message));
    push_event(
        &mut events,
        Event::NoticeEvent(
            NoticeEvent::MessageEditedEvent {
                user,
                edited_in,
                new_message,
                operator,
                old_message: None,
            },
        ),
    );
    assert(events_view(events@) =~= edited_events(message));
    events
}

/// The names of reactions.
pub open spec fn reaction_names(reactions: Seq<ReactionType>) -> Seq<Seq<char>> {
    Seq::new(reactions.len(), |i: int| segment::reaction_name(reactions[i]))
}

fn name_reactions(reactions: Vec<ReactionType>) -> (names: Vec<String>)
    ensures
        utf16::texts(names@) == reaction_names(reactions@),
{
    let mut names: Vec<String> = Vec::new();
    for reaction in iter: reactions
        invariant
            iter.seq() == reactions@,
            names@.len() == iter.index(),
            forall|i: int|
                0 <= i < names@.len() ==> (#[trigger] names@[i])@ == segment::reaction_name(
                    reactions@[i],
                ),
    {
        names.push(parse_reaction(reaction));
    }
    assert(utf16::texts(names@) =~= reaction_names(reactions@));
    names
}

/// The event of reactions that changed, where someone changed them.
pub open spec fn reaction_events(reaction: MessageReactionUpdated) -> Seq<EventView> {
    match actor(reaction.user, reaction.actor_chat) {
        None => Seq::empty(),
        Some(user) => seq![
            EventView::Reactions {
                user,
                group: group_around(reaction.chat),
                message: (
                    utils::message_id_text(reaction.chat.id as int, reaction.message_id as int),
                    Seq::empty(),
                ),
                reactions: reaction_names(reaction.new_reaction@),
            },
        ],
    }
}

/// Reads reactions that changed.
pub fn parse_message_reaction(reaction: MessageReactionUpdated) -> (events: Vec<Event>)
    ensures
        events_view(events@) == reaction_events(reaction),
{
    let mut events = no_events();
    let user = match find_actor(&reaction.user, &reaction.actor_chat) {
        Some(user) => user,
        None => {
            return events;
        },
    };
    let reacted_in = find_group(&reaction.chat);
    let message = Message {
        id: message_id(reaction.chat.id, reaction.message_id),
        segments: Vec::new(),
    };
    assert(source::segments_view(message.segments@) =~= Seq::<SegmentView>::empty());
    let reactions = name_reactions(reaction.new_reaction);
    push_event(
        &mut events,
        Event::NoticeEvent(
            NoticeEvent::MessageReactionsEvent { user, reacted_in, message, reactions },
        ),
    );
    assert(events_view(events@) =~= reaction_events(reaction));
    events
}

// ---------------------------------------------------------------------------
// Members
// ---------------------------------------------------------------------------

/// How long it is until a point in time, in seconds: none where it is over,
/// nothing where there is no such point.
pub open spec fn remaining(until: Option<i64>, now: i64) -> Option<Duration> {
    match until {
        Some(until) => if until <= 0 {
            None
        } else {
            Some(
                Duration {
                    seconds: if until <= now {
                        0
                    } else if until - now > i64::MAX {
                        i64::MAX as u64
                    } else {
                        (until - now) as u64
                    },
                    nanoseconds: 0,
                },
            )
        },
        None => None,
    }
}

/// How long it is until a point in time; `now` is the time in seconds since
/// the epoch.
pub fn remaining_duration(until_date: Option<i64>, now: i64) -> (result: Option<Duration>)
    ensures
        result == remaining(until_date, now),
{
    match until_date {
        Some(until) => {
            if until <= 0 {
                return None;
            }
            let seconds: u64 = if until <= now {
                0
            } else if now < 0 && until > i64::MAX + now {
                i64::MAX as u64
            } else {
                (until - now) as u64
            };
            Some(Duration { seconds, nanoseconds: 0 })
        },
        None => None,
    }
}

/// The events with one more, where there is one.
pub open spec fn and_event(events: Seq<EventView>, event: Option<EventView>) -> Seq<EventView> {
    match event {
        Some(event) => events.push(event),
        None => events,
    }
}

/// Why a member came: by approval, by invitation, or for no reason that is
/// known.
pub open spec fn increase_reason(update: ChatMemberUpdated) -> IncreaseView {
    if update.via_join_request == Some(true) {
        IncreaseView::Approve { operator: Some(user_of(update.from)) }
    } else if update.from.id != update.new_chat_member.user.id {
        IncreaseView::Invite {
            inviter: Some(user_of(update.from)),
            operator: Some(user_of(update.from)),
        }
    } else {
        IncreaseView::Unknown
    }
}

/// Why a member went: who goes without being kicked by anyone leaves.
pub open spec fn decrease_reason(update: ChatMemberUpdated) -> DecreaseView {
    if update.new_chat_member.status@ != "kicked"@ && update.from.id
        == update.new_chat_member.user.id {
        DecreaseView::Leave
    } else {
        DecreaseView::Kick { operator: Some(user_of(update.from)) }
    }
}

/// A member who came or went.
pub open spec fn presence_event(update: ChatMemberUpdated) -> Option<EventView> {
    let group = group_of(update.chat);
    let user = user_of(update.new_chat_member.user);
    if !update.old_chat_member.present() && update.new_chat_member.present() {
        Some(EventView::MemberIncrease { group, user, reason: increase_reason(update) })
    } else if update.old_chat_member.present() && !update.new_chat_member.present() {
        Some(EventView::MemberDecrease { group, user, reason: decrease_reason(update) })
    } else {
        None
    }
}

/// A member who became an administrator, or is no longer one.
pub open spec fn admin_event(update: ChatMemberUpdated) -> Option<EventView> {
    if update.old_chat_member.admin() != update.new_chat_member.admin() {
        Some(
            EventView::AdminChange {
                group: group_of(update.chat),
                user: user_of(update.new_chat_member.user),
                change: if update.new_chat_member.admin() {
                    GroupAdminChangeType::Appointed
                } else {
                    GroupAdminChangeType::Removed
                },
            },
        )
    } else {
        None
    }
}

/// A member who was muted, or may speak again.
pub open spec fn mute_event(update: ChatMemberUpdated, now: i64) -> Option<EventView> {
    if update.old_chat_member.muted() != update.new_chat_member.muted() {
        Some(
            EventView::MuteChange {
                group: group_of(update.chat),
                user: user_of(update.new_chat_member.user),
                operator: Some(user_of(update.from)),
                mute: if update.new_chat_member.muted() {
                    MuteType::Mute { duration: remaining(update.new_chat_member.until_date, now) }
                } else {
                    MuteType::UnMute
                },
            },
        )
    } else {
        None
    }
}

/// A member who has another title.
pub open spec fn alias_event(update: ChatMemberUpdated) -> Option<EventView> {
    let old_alias = json::optional_chars(update.old_chat_member.custom_title);
    let new_alias = json::optional_chars(update.new_chat_member.custom_title);
    if old_alias != new_alias {
        Some(
            EventView::AliasChange {
                group: group_of(update.chat),
                user: user_of(update.new_chat_member.user),
                operator: Some(user_of(update.from)),
                old_alias,
                new_alias,
            },
        )
    } else {
        None
    }
}

/// The events of a change of a member: presence, rank, silence and title.
pub open spec fn member_events(update: ChatMemberUpdated, now: i64) -> Seq<EventView> {
    and_event(
        and_event(
            and_event(
                and_event(Seq::empty(), presence_event(update)),
                admin_event(update),
            ),
            mute_event(update, now),
        ),
        alias_event(update),
    )
}

fn find_presence_event(update: &ChatMemberUpdated) -> (event: Option<Event>)
    ensures
        match event {
            Some(event) => presence_event(*update) == Some(event@),
            None => presence_event(*update) is None,
        },
{
    let was = update.old_chat_member.is_present();
    let now_so = update.new_chat_member.is_present();
    if !was && now_so {
        let approved = match update.via_join_request {
            Some(approved) => approved,
            None => false,
        };
        let reason = if approved {
            GroupMemberIncreseReason::Approve { operator: Some(take_user(&update.from)) }
        } else if update.from.id != update.new_chat_member.user.id {
            GroupMemberIncreseReason::Invite {
                inviter: Some(take_user(&update.from)),
                operator: Some(take_user(&update.from)),
            }
        } else {
            GroupMemberIncreseReason::Unknown
        };
        Some(
            Event::NoticeEvent(
                NoticeEvent::GroupMemberIncreseEvent {
                    group: take_group(&update.chat),
                    user: take_user(&update.new_chat_member.user),
                    reason,
                },
            ),
        )
    } else if was && !now_so {
        let kicked = same(update.new_chat_member.status.as_str(), "kicked");
        let reason = if !kicked && update.from.id == update.new_chat_member.user.id {
            GroupMemberDecreaseReason::Leave
        } else {
            GroupMemberDecreaseReason::Kick { operator: Some(take_user(&update.from)) }
        };
        Some(
            Event::NoticeEvent(
                NoticeEvent::GroupMemberDecreaseEvent {
                    group: take_group(&update.chat),
                    user: take_user(&update.new_chat_member.user),
                    reason,
                },
            ),
        )
    } else {
        None
    }
}

fn find_admin_event(update: &ChatMemberUpdated) -> (event: Option<Event>)
    ensures
        match event {
            Some(event) => admin_event(*update) == Some(event@),
            None => admin_event(*update) is None,
        },
{
    let now_so = update.new_chat_member.is_admin();
    if update.old_chat_member.is_admin() == now_so {
        return None;
    }
    let change = if now_so {
        GroupAdminChangeType::Appointed
    } else {
        GroupAdminChangeType::Removed
    };
    Some(
        Event::NoticeEvent(
            NoticeEvent::GroupAdminChangeEvent {
                group: take_group(&update.chat),
                user: take_user(&update.new_chat_member.user),
                change,
            },
        ),
    )
}

fn find_mute_event(update: &ChatMemberUpdated, now: i64) -> (event: Option<Event>)
    ensures
        match event {
            Some(event) => mute_event(*update, now) == Some(event@),
            None => mute_event(*update, now) is None,
        },
{
    let now_so = update.new_chat_member.is_muted();
    if update.old_chat_member.is_muted() == now_so {
        return None;
    }
    let mute = if now_so {
        MuteType::Mute { duration: remaining_duration(update.new_chat_member.until_date, now) }
    } else {
        MuteType::UnMute
    };
    Some(
        Event::NoticeEvent(
            NoticeEvent::GroupMemberMuteChangeEvent {
                group: take_group(&update.chat),
                user: take_user(&update.new_chat_member.user),
                operator: Some(take_user(&update.from)),
                mute,
            },
        ),
    )
}

fn same_title(a: &Option<String>, b: &Option<String>) -> (equal: bool)
    ensures
        equal == (json::optional_chars(*a) == json::optional_chars(*b)),
{
    match (a, b) {
        (Some(a), Some(b)) => same(a.as_str(), b.as_str()),
        (None, None) => true,
        _ => false,
    }
}

fn copy_title(title: &Option<String>) -> (copy: Option<String>)
    ensures
        json::optional_chars(copy) == json::optional_chars(*title),
{
    match title {
        Some(title) => Some(title.clone()),
        None => None,
    }
}

fn find_alias_event(update: &ChatMemberUpdated) -> (event: Option<Event>)
    ensures
        match event {
            Some(event) => alias_event(*update) == Some(event@),
            None => alias_event(*update) is None,
        },
{
    let old_title: &Option<String> = &update.old_chat_member.custom_title;
    let new_title: &Option<String> = &update.new_chat_member.custom_title;
    if same_title(old_title, new_title) {
        return None;
    }
    Some(
        Event::NoticeEvent(
            NoticeEvent::GroupMemberAliasChangeEvent {
                group: take_group(&update.chat),
                user: take_user(&update.new_chat_member.user),
                operator: Some(take_user(&update.from)),
                old_alias: copy_title(old_title),
                new_alias: copy_title(new_title),
            },
        ),
    )
}

fn push_optional(events: &mut Vec<Event>, event: Option<Event>)
    ensures
        events_view(final(events)@) == match event {
            Some(event) => events_view(old(events)@).push(event@),
            None => events_view(old(events)@),
        },
{
    if let Some(event) = event {
        push_event(events, event);
    }
}

/// Reads a change of a member; `now` is the time in seconds since the epoch.
pub fn parse_chat_member_update(update: &ChatMemberUpdated, now: i64) -> (events: Vec<Event>)
    ensures
        events_view(events@) == member_events(*update, now),
{
    let mut events = no_events();
    push_optional(&mut events, find_presence_event(update));
    push_optional(&mut events, find_admin_event(update));
    push_optional(&mut events, find_mute_event(update, now));
    push_optional(&mut events, find_alias_event(update));
    events
}

/// What an answer to a button needs to know: the inline message, or the chat
/// and the message under which the button stands, and who pressed it.
pub open spec fn callback_context(query: CallbackQuery) -> Map<Seq<char>, JsonView> {
    let context = json::no_fields().insert("user_id"@, JsonView::Integer(query.from.id as int));
    let addressed = match query.message {
        Some(message) => address::with_copied(
            address::with_copied(
                address::with_copied(
                    context.insert("chat_id"@, JsonView::Integer(message.chat.id as int)).insert(
                        "chat_type"@,
                        JsonView::Text(message.chat.kind@),
                    ).insert("message_id"@, JsonView::Integer(message.message_id as int)),
                    json::fields(message.extra),
                    "business_connection_id"@,
                ),
                json::fields(message.extra),
                "receiver_user_id"@,
            ),
            json::fields(message.extra),
            "ephemeral_message_id"@,
        ),
        None => context,
    };
    match query.inline_message_id {
        Some(id) => addressed.insert("inline_message_id"@, JsonView::Text(id@)),
        None => addressed,
    }
}

/// The event of a button that was pressed: what it stands for is its data, or
/// the game it starts.
pub open spec fn callback_event(query: CallbackQuery, data: JsonView) -> EventView {
    EventView::Interaction {
        id: query.id@,
        kind: InteractionKind::Button,
        action_id: match query.data {
            Some(action) => Some(action@),
            None => json::optional_chars(query.game_short_name),
        },
        values: Seq::empty(),
        user: user_of(query.from),
        group: match query.message {
            Some(message) => group_around(message.chat),
            None => None,
        },
        message: match query.message {
            Some(message) => Some((id_of(message), segment::message_segments(message))),
            None => None,
        },
        context_id: json::optional_chars(query.inline_message_id),
        response: Some(
            (
                query.id@,
                Some(native::telegram_native(JsonView::Object(callback_context(query)))),
            ),
        ),
        data,
    }
}

/// The event of a button that was pressed.
pub open spec fn callback_events(query: CallbackQuery, data: JsonView) -> Seq<EventView> {
    seq![callback_event(query, data)]
}

fn write_context(query: &CallbackQuery) -> (context: Fields)
    ensures
        json::fields(context) == callback_context(*query),
{
    let mut context = Fields::none();
    context.put("user_id", Json::integer(query.from.id));
    let mut addressed = match &query.message {
        Some(message) => {
            context.put("chat_id", Json::integer(message.chat.id));
            context.put("chat_type", Json::text(message.chat.kind.as_str()));
            context.put("message_id", Json::integer(message.message_id));
            let context = copy_member(context, &message.extra, "business_connection_id");
            let context = copy_member(context, &message.extra, "receiver_user_id");
            copy_member(context, &message.extra, "ephemeral_message_id")
        },
        None => context,
    };
    if let Some(id) = &query.inline_message_id {
        addressed.put("inline_message_id", Json::text(id.as_str()));
    }
    addressed
}

/// Reads a button that was pressed, given all that Telegram sent about it.
pub fn parse_callback_query(query: CallbackQuery, data: Json) -> (events: Vec<Event>)
    ensures
        events_view(events@) == callback_events(query, data@),
{
    let context = write_context(&query);
    let response = InteractionResponseHandle {
        id: query.id.clone(),
        platform_data: Some(make_native(Json::object(context))),
    };
    let group = match &query.message {
        Some(message) => message_group(&message),
        None => None,
    };
    let action_id = match query.data {
        Some(action) => Some(action),
        None => query.game_short_name,
    };
    let values: Vec<String> = Vec::new();
    assert(utf16::texts(values@) =~= Seq::<Seq<char>>::empty());
    let message = match query.message {
        Some(message) => Some(parse_message(message)),
        None => None,
    };
    let mut events = no_events();
    push_event(
        &mut events,
        Event::InteractionEvent(
            InteractionEvent {
                id: query.id,
                kind: InteractionKind::Button,
                action_id,
                values,
                user: take_user(&query.from),
                group,
                message,
                context_id: query.inline_message_id,
                response: Some(response),
                data,
            },
        ),
    );
    assert(events_view(events@) =~= callback_events(query, data@));
    events
}

/// The event of a request to join.
pub open spec fn join_events(request: ChatJoinRequest) -> Seq<EventView> {
    seq![
        EventView::JoinRequest {
            id: utils::join_request_id_text(request.chat.id as int, request.from.id as int),
            user: user_of(request.from),
            group: group_of(request.chat),
            message: json::optional_chars(request.bio),
        },
    ]
}

/// Reads a request to join.
pub fn parse_join_request(request: ChatJoinRequest) -> (events: Vec<Event>)
    ensures
        events_view(events@) == join_events(request),
{
    let mut events = no_events();
    push_event(
        &mut events,
        Event::RequestEvent(
            GroupAddEvent {
                id: join_request_id(request.chat.id, request.from.id),
                user: take_user(&request.from),
                group: take_group(&request.chat),
                message: request.bio,
            },
        ),
    );
    assert(events_view(events@) =~= join_events(request));
    events
}

// ---------------------------------------------------------------------------
// Updates
// ---------------------------------------------------------------------------

/// What the document of an update is to be read as.
#[derive(Debug, Clone, Copy, PartialEq, Eq, Structural)]
pub enum UpdateKind {
    NewMessage,
    EditedMessage,
    Reaction,
    Member,
    JoinRequest,
    Callback,
    Other,
}

/// What the document of an update is to be read as.
pub open spec fn kind_of(name: Seq<char>) -> UpdateKind {
    if name == "message"@ || name == "channel_post"@ {
        UpdateKind::NewMessage
    } else if name == "edited_message"@ || name == "edited_channel_post"@ {
        UpdateKind::EditedMessage
    } else if name == "message_reaction"@ {
        UpdateKind::Reaction
    } else if name == "my_chat_member"@ || name == "chat_member"@ {
        UpdateKind::Member
    } else if name == "chat_join_request"@ {
        UpdateKind::JoinRequest
    } else if name == "callback_query"@ {
        UpdateKind::Callback
    } else {
        UpdateKind::Other
    }
}

/// What the document of an update is to be read as.
pub fn find_kind(name: &str) -> (kind: UpdateKind)
    ensures
        kind == kind_of(name@),
{
    if same(name, "message") || same(name, "channel_post") {
        UpdateKind::NewMessage
    } else if same(name, "edited_message") || same(name, "edited_channel_post") {
        UpdateKind::EditedMessage
    } else if same(name, "message_reaction") {
        UpdateKind::Reaction
    } else if same(name, "my_chat_member") || same(name, "chat_member") {
        UpdateKind::Member
    } else if same(name, "chat_join_request") {
        UpdateKind::JoinRequest
    } else if same(name, "callback_query") {
        UpdateKind::Callback
    } else {
        UpdateKind::Other
    }
}

/// What the document of an update was read as.
#[derive(Debug, PartialEq)]
pub enum Decoded {
    Message(TelegramMessage),
    Reaction(MessageReactionUpdated),
    Member(ChatMemberUpdated),
    JoinRequest(ChatJoinRequest),
    Callback(CallbackQuery),
    /// It was not read, or could not be.
    Nothing,
}

/// The events that a document of an update stands for.
pub open spec fn mapped_events(
    kind: UpdateKind,
    decoded: Decoded,
    data: JsonView,
    now: i64,
) -> Seq<EventView> {
    match (kind, decoded) {
        (UpdateKind::NewMessage, Decoded::Message(message)) => message_events(message),
        (UpdateKind::EditedMessage, Decoded::Message(message)) => edited_events(message),
        (UpdateKind::Reaction, Decoded::Reaction(reaction)) => reaction_events(reaction),
        (UpdateKind::Member, Decoded::Member(member)) => member_events(member, now),
        (UpdateKind::JoinRequest, Decoded::JoinRequest(request)) => join_events(request),
        (UpdateKind::Callback, Decoded::Callback(query)) => callback_events(query, data),
        _ => Seq::empty(),
    }
}

/// An update as it is.
pub open spec fn raw_view(update_id: i64, kind: Seq<char>, data: JsonView) -> EventView {
    EventView::Raw { server: SERVER@, kind, update_id, named: kind, data }
}

/// The events of an update. An update that has none of its own is handed on
/// as it is.
pub open spec fn update_events(update: Update, decoded: Decoded, now: i64) -> Seq<EventView> {
    match client::update_kind(update.data) {
        None => seq![raw_view(update.update_id, "unknown"@, JsonView::Null)],
        Some(kind) => {
            let data = json::fields(update.data)[kind];
            let mapped = mapped_events(kind_of(kind), decoded, data, now);
            if mapped.len() > 0 {
                mapped
            } else {
                seq![raw_view(update.update_id, kind, data)]
            }
        },
    }
}

fn raw_event(update_id: i64, kind: &str, data: Json) -> (event: Event)
    ensures
        event@ == raw_view(update_id, kind@, data@),
{
    Event::AnyEvent(
        AnyEvent {
            server: SERVER,
            kind: kind.to_owned(),
            data: TelegramRawEvent { update_id, kind: kind.to_owned(), data },
        },
    )
}

fn map_events(kind: UpdateKind, decoded: Decoded, data: &Json, now: i64) -> (events: Vec<Event>)
    ensures
        events_view(events@) == mapped_events(kind, decoded, data@, now),
{
    match (kind, decoded) {
        (UpdateKind::NewMessage, Decoded::Message(message)) => parse_message_update(message),
        (UpdateKind::EditedMessage, Decoded::Message(message)) => parse_edited_message(message),
        (UpdateKind::Reaction, Decoded::Reaction(reaction)) => parse_message_reaction(reaction),
        (UpdateKind::Member, Decoded::Member(member)) => parse_chat_member_update(&member, now),
        (UpdateKind::JoinRequest, Decoded::JoinRequest(request)) => parse_join_request(request),
        (UpdateKind::Callback, Decoded::Callback(query)) => parse_callback_query(
            query,
            data.clone(),
        ),
        _ => no_events(),
    }
}

/// The events of an update, given what its document was read as; `now` is the
/// time in seconds since the epoch.
pub fn parse_update(update: &Update, decoded: Decoded, now: i64) -> (events: Vec<Event>)
    ensures
        events_view(events@) == update_events(*update, decoded, now),
{
    let kind: &str = match update.kind() {
        Some(kind) => kind,
        None => {
            let mut events = no_events();
            push_event(&mut events, raw_event(update.update_id, "unknown", Json::null()));
            assert(events_view(events@) =~= update_events(*update, decoded, now));
            return events;
        },
    };
    let data = match update.value() {
        Some(value) => value.clone(),
        None => Json::null(),
    };
    let mut events = map_events(find_kind(kind), decoded, &data, now);
    assert(events_view(events@).len() == events@.len());
    if events.len() == 0 {
        push_event(&mut events, raw_event(update.update_id, kind, data));
        assert(events_view(events@) =~= update_events(*update, decoded, now));
    }
    events
}

// ---------------------------------------------------------------------------
// Envelopes
// ---------------------------------------------------------------------------

/// What an update says beside its events: its number, when and where it
/// happened, and the whole of it.
#[derive(Debug, PartialEq)]
pub struct UpdateOrigin {
    pub id: String,
    /// A point in time, in seconds since the epoch.
    pub occurred_at: Option<i64>,
    pub conversation: Option<ConversationRef>,
    pub raw: Json,
}

/// The part of an update that says when and where it happened: what it holds,
/// or the message in that where it names no chat itself.
pub open spec fn scene(value: Option<JsonView>) -> Map<Seq<char>, JsonView> {
    match value {
        Some(JsonView::Object(members)) => match json::member(members, "message"@) {
            Some(JsonView::Object(inner)) => if members.contains_key("chat"@) {
                members
            } else {
                inner
            },
            _ => members,
        },
        _ => json::no_fields(),
    }
}

/// What the first member of an update holds.
pub open spec fn update_value(update: Update) -> Option<JsonView> {
    match client::update_kind(update.data) {
        Some(kind) => Some(json::fields(update.data)[kind]),
        None => None,
    }
}

/// What is said of where an update comes from.
pub open spec fn tells_origin(origin: UpdateOrigin, update: Update) -> bool {
    let place = scene(update_value(update));
    &&& origin.id@ == text::decimal(update.update_id as int)
    &&& origin.occurred_at == json::i64_in(place, "date"@)
    &&& match origin.conversation {
        Some(conversation) => reading::chat_conversation(json::member(place, "chat"@)) == Some(
            conversation@,
        ),
        None => reading::chat_conversation(json::member(place, "chat"@)) is None,
    }
    &&& origin.raw@ == JsonView::Object(
        json::fields(update.data).insert("update_id"@, JsonView::Integer(update.update_id as int)),
    )
}

fn find_scene(value: Option<&Json>) -> (place: Option<&Fields>)
    ensures
        match place {
            Some(members) => scene(
                match value {
                    Some(value) => Some(value@),
                    None => None,
                },
            ) == json::fields(*members),
            None => scene(
                match value {
                    Some(value) => Some(value@),
                    None => None,
                },
            ) == json::no_fields(),
        },
{
    broadcast use json::lemma_json_view;

    match value {
        Some(Json::Object(members)) => {
            let named = members.contains_key("chat");
            match members.member("message") {
                Some(Json::Object(inner)) => if named {
                    Some(members)
                } else {
                    Some(inner)
                },
                _ => Some(members),
            }
        },
        _ => None,
    }
}

/// Tells where an update comes from.
pub fn find_origin(update: &Update) -> (origin: UpdateOrigin)
    ensures
        tells_origin(origin, *update),
{
    broadcast use json::lemma_json_view;

    let place = find_scene(update.value());
    let (occurred_at, conversation) = match place {
        Some(members) => (members.i64_at("date"), find_conversation(members.member("chat"))),
        None => (None, None),
    };
    let mut raw = update.data.clone();
    raw.put("update_id", Json::integer(update.update_id));
    UpdateOrigin {
        id: i64_text(update.update_id),
        occurred_at,
        conversation,
        raw: Json::object(raw),
    }
}

/// No update is dropped: each has at least one event.
pub proof fn law_updates_are_never_dropped(update: Update, decoded: Decoded, now: i64)
    ensures
        update_events(update, decoded, now).len() > 0,
{
}

/// An update that is not understood is handed on whole: with its number, its
/// name and the document under that name.
pub proof fn law_unknown_updates_stay_whole(update: Update, decoded: Decoded, now: i64, kind: Seq<char>)
    requires
        client::update_kind(update.data) == Some(kind),
        kind_of(kind) == UpdateKind::Other || decoded is Nothing,
    ensures
        update_events(update, decoded, now) == seq![
            raw_view(update.update_id, kind, json::fields(update.data)[kind]),
        ],
{
}

proof fn lemma_context_names()
    ensures
        "user_id"@ != "chat_id"@,
        "user_id"@ != "chat_type"@,
        "user_id"@ != "message_id"@,
        "user_id"@ != "inline_message_id"@,
        "user_id"@ != "business_connection_id"@,
        "user_id"@ != "receiver_user_id"@,
        "user_id"@ != "ephemeral_message_id"@,
        "chat_id"@ != "chat_type"@,
        "chat_id"@ != "message_id"@,
        "chat_id"@ != "business_connection_id"@,
        "chat_id"@ != "receiver_user_id"@,
        "chat_id"@ != "ephemeral_message_id"@,
        "chat_id"@ != "inline_message_id"@,
        "chat_type"@ != "message_id"@,
        "chat_type"@ != "business_connection_id"@,
        "chat_type"@ != "receiver_user_id"@,
        "chat_type"@ != "ephemeral_message_id"@,
        "chat_type"@ != "inline_message_id"@,
        "message_id"@ != "business_connection_id"@,
        "message_id"@ != "receiver_user_id"@,
        "message_id"@ != "ephemeral_message_id"@,
        "message_id"@ != "inline_message_id"@,
        "business_connection_id"@ != "inline_message_id"@,
        "receiver_user_id"@ != "inline_message_id"@,
        "ephemeral_message_id"@ != "inline_message_id"@,
{
    reveal_strlit("user_id");
    reveal_strlit("chat_id");
    reveal_strlit("chat_type");
    reveal_strlit("message_id");
    reveal_strlit("business_connection_id");
    reveal_strlit("receiver_user_id");
    reveal_strlit("ephemeral_message_id");
    reveal_strlit("inline_message_id");
    assert("user_id"@[0] != "chat_id"@[0]);
    assert("user_id"@.len() == 7);
    assert("chat_id"@.len() == 7);
    assert("chat_type"@.len() == 9);
    assert("message_id"@.len() == 10);
    assert("business_connection_id"@.len() == 22);
    assert("receiver_user_id"@.len() == 16);
    assert("ephemeral_message_id"@.len() == 20);
    assert("inline_message_id"@.len() == 17);
}

/// Whoever answers a button finds the message under which it stands: the
/// inline message, or the message in its chat. A button without either is not
/// answered there.
pub proof fn law_callbacks_find_their_message(query: CallbackQuery, handle: InteractionResponseHandle)
    requires
        native::optional_native(handle.platform_data) == Some(
            native::telegram_native(JsonView::Object(callback_context(query))),
        ),
    ensures
        match query.inline_message_id {
            Some(id) => interactions::interaction_ref_outcome(handle) matches Ok(found) && found.id
                == id@,
            None => match query.message {
                Some(message) => interactions::interaction_ref_outcome(handle) matches Ok(found)
                    && found.id == text::decimal(message.message_id as int) && found.conversation
                    == Some(
                    interactions::plain_conversation(
                        text::decimal(message.chat.id as int),
                        address::conversation_kind_view(message.chat.kind@),
                    ),
                ),
                None => interactions::interaction_ref_outcome(handle) is Err,
            },
        },
{
    lemma_context_names();
    let context = callback_context(query);
    if query.inline_message_id is None {
        assert(json::text_in(context, "inline_message_id"@) is None);
        if query.message is Some {
            let message = query.message->0;
            assert(json::i64_in(context, "chat_id"@) == Some(message.chat.id));
            assert(json::i64_in(context, "message_id"@) == Some(message.message_id));
            assert(json::text_in(context, "chat_type"@) == Some(message.chat.kind@));
        } else {
            assert(!context.contains_key("chat_id"@));
        }
    } else {
        assert(json::text_in(context, "inline_message_id"@) == Some(query.inline_message_id->0@));
    }
    let data = handle.platform_data->0;
    assert(data@ == native::telegram_native(JsonView::Object(context)));
    assert(native::native_object_outcome(data, "interaction response context"@) == Ok::<
        Map<Seq<char>, JsonView>,
        ErrorView,
    >(context));
}

/// A mute is never announced as longer than what is left of it, and one that
/// is over as none.
pub proof fn law_remaining_never_wraps(until: i64, now: i64)
    ensures
        remaining(Some(until), now) matches Some(left) ==> left.seconds <= i64::MAX && (until > now
            ==> left.seconds <= until - now) && (until <= now ==> left.seconds == 0),
{
}

/// Whom an event is about, where it is about a member.
pub open spec fn about(event: EventView) -> Option<UserView> {
    match event {
        EventView::MemberIncrease { user, .. } => Some(user),
        EventView::MemberDecrease { user, .. } => Some(user),
        EventView::AdminChange { user, .. } => Some(user),
        EventView::MuteChange { user, .. } => Some(user),
        EventView::AliasChange { user, .. } => Some(user),
        _ => None,
    }
}

/// A change of a member is announced as one of that member, never as one of
/// whoever made it.
pub proof fn law_changes_are_about_the_member(update: ChatMemberUpdated, now: i64, i: int)
    requires
        0 <= i < member_events(update, now).len(),
    ensures
        about(member_events(update, now)[i]) == Some(user_of(update.new_chat_member.user)),
{
}

proof fn lemma_update_names()
    ensures
        "message"@ != "channel_post"@,
        "message"@ != "edited_message"@,
        "message"@ != "edited_channel_post"@,
        "message"@ != "message_reaction"@,
        "message"@ != "my_chat_member"@,
        "message"@ != "chat_member"@,
        "message"@ != "chat_join_request"@,
        "message"@ != "callback_query"@,
        "channel_post"@ != "edited_message"@,
        "channel_post"@ != "edited_channel_post"@,
        "channel_post"@ != "message_reaction"@,
        "channel_post"@ != "my_chat_member"@,
        "channel_post"@ != "chat_member"@,
        "channel_post"@ != "chat_join_request"@,
        "channel_post"@ != "callback_query"@,
        "edited_message"@ != "edited_channel_post"@,
        "edited_message"@ != "message_reaction"@,
        "edited_message"@ != "my_chat_member"@,
        "edited_message"@ != "chat_member"@,
        "edited_message"@ != "chat_join_request"@,
        "edited_message"@ != "callback_query"@,
        "edited_channel_post"@ != "message_reaction"@,
        "edited_channel_post"@ != "my_chat_member"@,
        "edited_channel_post"@ != "chat_member"@,
        "edited_channel_post"@ != "chat_join_request"@,
        "edited_channel_post"@ != "callback_query"@,
        "message_reaction"@ != "my_chat_member"@,
        "message_reaction"@ != "chat_member"@,
        "message_reaction"@ != "chat_join_request"@,
        "message_reaction"@ != "callback_query"@,
        "my_chat_member"@ != "chat_member"@,
        "my_chat_member"@ != "chat_join_request"@,
        "my_chat_member"@ != "callback_query"@,
        "chat_member"@ != "chat_join_request"@,
        "chat_member"@ != "callback_query"@,
        "chat_join_request"@ != "callback_query"@,
{
    reveal_strlit("message");
    reveal_strlit("channel_post");
    reveal_strlit("edited_message");
    reveal_strlit("edited_channel_post");
    reveal_strlit("message_reaction");
    reveal_strlit("my_chat_member");
    reveal_strlit("chat_member");
    reveal_strlit("chat_join_request");
    reveal_strlit("callback_query");
    assert("message"@.len() == 7);
    assert("channel_post"@.len() == 12);
    assert("edited_message"@.len() == 14);
    assert("edited_channel_post"@.len() == 19);
    assert("message_reaction"@.len() == 16);
    assert("my_chat_member"@.len() == 14);
    assert("chat_member"@.len() == 11);
    assert("chat_join_request"@.len() == 17);
    assert("callback_query"@.len() == 14);
    assert("edited_message"@[0] != "my_chat_member"@[0]);
    assert("edited_message"@[0] != "callback_query"@[0]);
    assert("my_chat_member"@[0] != "callback_query"@[0]);
}

proof fn lemma_member_events(
    update: Update,
    member: ChatMemberUpdated,
    now: i64,
    events: Seq<Event>,
)
    requires
        client::update_kind(update.data) == Some("chat_member"@) || client::update_kind(
            update.data,
        ) == Some("my_chat_member"@),
        events_view(events) == update_events(update, Decoded::Member(member), now),
    ensures
        forall|i: int|
            0 <= i < events.len() ==> {
                let event = (#[trigger] events[i])@;
                ||| event is Raw
                ||| presence_event(member) == Some(event)
                ||| admin_event(member) == Some(event)
                ||| mute_event(member, now) == Some(event)
                ||| alias_event(member) == Some(event)
            },
        presence_event(member) matches Some(event) ==> exists|i: int|
            0 <= i < events.len() && (#[trigger] events[i])@ == event,
        admin_event(member) matches Some(event) ==> exists|i: int|
            0 <= i < events.len() && (#[trigger] events[i])@ == event,
        mute_event(member, now) matches Some(event) ==> exists|i: int|
            0 <= i < events.len() && (#[trigger] events[i])@ == event,
        alias_event(member) matches Some(event) ==> exists|i: int|
            0 <= i < events.len() && (#[trigger] events[i])@ == event,
{
    lemma_update_names();
    let all = member_events(member, now);
    let shown = events_view(events);
    let first = and_event(Seq::empty(), presence_event(member));
    let second = and_event(first, admin_event(member));
    let third = and_event(second, mute_event(member, now));
    assert(all == and_event(third, alias_event(member)));
    assert(all.len() > 0 ==> shown == all);
    assert forall|i: int| 0 <= i < events.len() implies {
        let event = (#[trigger] events[i])@;
        ||| event is Raw
        ||| presence_event(member) == Some(event)
        ||| admin_event(member) == Some(event)
        ||| mute_event(member, now) == Some(event)
        ||| alias_event(member) == Some(event)
    } by {
        assert(shown[i] == events[i]@);
        if all.len() > 0 {
            assert(shown[i] == all[i]);
            if i < third.len() {
                assert(all[i] == third[i]);
                if i < second.len() {
                    assert(third[i] == second[i]);
                    if i < first.len() {
                        assert(second[i] == first[i]);
                    }
                }
            }
        } else {
            assert(shown.len() == 1);
            assert(shown[i] is Raw);
        }
    }
    if presence_event(member) is Some {
        assert(all[0] == presence_event(member)->0);
        assert(shown[0] == events[0]@);
    }
    if admin_event(member) is Some {
        assert(all[first.len() as int] == admin_event(member)->0);
        assert(shown[first.len() as int] == events[first.len() as int]@);
    }
    if mute_event(member, now) is Some {
        assert(all[second.len() as int] == mute_event(member, now)->0);
        assert(shown[second.len() as int] == events[second.len() as int]@);
    }
    if alias_event(member) is Some {
        assert(all[third.len() as int] == alias_event(member)->0);
        assert(shown[third.len() as int] == events[third.len() as int]@);
    }
}

/// A change of rank is announced exactly where the member was the owner or an
/// administrator before and is not after, or the other way round: as an
/// appointment where the member is one now, and as a removal where not.
pub proof fn law_rank_changes_follow_the_status(
    update: Update,
    member: ChatMemberUpdated,
    now: i64,
    events: Seq<Event>,
)
    requires
        client::update_kind(update.data) == Some("chat_member"@) || client::update_kind(
            update.data,
        ) == Some("my_chat_member"@),
        events_view(events) == update_events(update, Decoded::Member(member), now),
    ensures
        ({
            let before = member.old_chat_member.status@;
            let after = member.new_chat_member.status@;
            let was = before == "creator"@ || before == "administrator"@;
            let is_now = after == "creator"@ || after == "administrator"@;
            &&& was != is_now ==> exists|i: int|
                0 <= i < events.len() && (#[trigger] events[i] matches Event::NoticeEvent(notice)
                    && notice is GroupAdminChangeEvent)
            &&& forall|i: int|
                0 <= i < events.len() ==> (#[trigger] events[i] matches Event::NoticeEvent(
                    NoticeEvent::GroupAdminChangeEvent { group, user, change },
                ) ==> {
                    &&& was != is_now
                    &&& is_now ==> change == GroupAdminChangeType::Appointed
                    &&& was ==> change == GroupAdminChangeType::Removed
                    &&& user.id@ == text::decimal(member.new_chat_member.user.id as int)
                    &&& group.id@ == text::decimal(member.chat.id as int)
                })
        }),
{
    lemma_member_events(update, member, now, events);
}

/// The same change the other way round is announced the other way round: where
/// one says that a member was appointed, the other says that the member was
/// removed.
pub proof fn law_rank_changes_turn_round(
    update: Update,
    there: ChatMemberUpdated,
    back: ChatMemberUpdated,
    now: i64,
    events: Seq<Event>,
    others: Seq<Event>,
    i: int,
    j: int,
)
    requires
        client::update_kind(update.data) == Some("chat_member"@),
        events_view(events) == update_events(update, Decoded::Member(there), now),
        events_view(others) == update_events(update, Decoded::Member(back), now),
        there.old_chat_member == back.new_chat_member,
        there.new_chat_member == back.old_chat_member,
        0 <= i < events.len(),
        0 <= j < others.len(),
    ensures
        events[i] matches Event::NoticeEvent(
            NoticeEvent::GroupAdminChangeEvent { change: one, .. },
        ) ==> (others[j] matches Event::NoticeEvent(
            NoticeEvent::GroupAdminChangeEvent { change: other, .. },
        ) ==> one != other),
        events[i] matches Event::NoticeEvent(
            NoticeEvent::GroupMemberMuteChangeEvent { mute: one, .. },
        ) ==> (others[j] matches Event::NoticeEvent(
            NoticeEvent::GroupMemberMuteChangeEvent { mute: other, .. },
        ) ==> one is Mute != other is Mute),
        events[i] matches Event::NoticeEvent(NoticeEvent::GroupMemberIncreseEvent { .. }) ==> !(
        others[j] matches Event::NoticeEvent(NoticeEvent::GroupMemberIncreseEvent { .. })),
        events[i] matches Event::NoticeEvent(NoticeEvent::GroupMemberDecreaseEvent { .. }) ==> !(
        others[j] matches Event::NoticeEvent(NoticeEvent::GroupMemberDecreaseEvent { .. })),
        events[i] matches Event::NoticeEvent(
            NoticeEvent::GroupMemberAliasChangeEvent { old_alias: one, new_alias: two, .. },
        ) ==> (others[j] matches Event::NoticeEvent(
            NoticeEvent::GroupMemberAliasChangeEvent { old_alias: three, new_alias: four, .. },
        ) ==> json::optional_chars(one) == json::optional_chars(four) && json::optional_chars(two)
            == json::optional_chars(three)),
{
    lemma_member_events(update, there, now, events);
    lemma_member_events(update, back, now, others);
    let one = events[i]@;
    let other = others[j]@;
}

/// Someone is announced to have come where they were not there before and are
/// after: as let in where a request to join was granted, as invited where
/// someone else did it. Who was there and is no longer is announced to have
/// gone: of their own will where they did it themselves and were not kicked,
/// and at the hand of whoever did it otherwise.
pub proof fn law_comings_and_goings_follow_the_status(
    update: Update,
    member: ChatMemberUpdated,
    now: i64,
    events: Seq<Event>,
)
    requires
        client::update_kind(update.data) == Some("chat_member"@) || client::update_kind(
            update.data,
        ) == Some("my_chat_member"@),
        events_view(events) == update_events(update, Decoded::Member(member), now),
    ensures
        ({
            let before = member.old_chat_member.status@;
            let after = member.new_chat_member.status@;
            let was = before == "creator"@ || before == "administrator"@ || before == "member"@ || (
            before == "restricted"@ && member.old_chat_member.is_member != Some(false));
            let is_now = after == "creator"@ || after == "administrator"@ || after == "member"@ || (
            after == "restricted"@ && member.new_chat_member.is_member != Some(false));
            let own = member.from.id == member.new_chat_member.user.id;
            let by = text::decimal(member.from.id as int);
            &&& !was && is_now ==> exists|i: int|
                0 <= i < events.len() && (#[trigger] events[i] matches Event::NoticeEvent(notice)
                    && notice is GroupMemberIncreseEvent)
            &&& was && !is_now ==> exists|i: int|
                0 <= i < events.len() && (#[trigger] events[i] matches Event::NoticeEvent(notice)
                    && notice is GroupMemberDecreaseEvent)
            &&& forall|i: int|
                0 <= i < events.len() ==> (#[trigger] events[i] matches Event::NoticeEvent(
                    NoticeEvent::GroupMemberIncreseEvent { user, reason, .. },
                ) ==> {
                    &&& !was && is_now
                    &&& user.id@ == text::decimal(member.new_chat_member.user.id as int)
                    &&& reason is Approve <==> member.via_join_request == Some(true)
                    &&& reason is Invite <==> member.via_join_request != Some(true) && !own
                    &&& reason matches GroupMemberIncreseReason::Approve { operator: Some(done) }
                        ==> done.id@ == by
                    &&& reason matches GroupMemberIncreseReason::Invite { inviter: Some(done), .. }
                        ==> done.id@ == by
                })
            &&& forall|i: int|
                0 <= i < events.len() ==> (#[trigger] events[i] matches Event::NoticeEvent(
                    NoticeEvent::GroupMemberDecreaseEvent { user, reason, .. },
                ) ==> {
                    &&& was && !is_now
                    &&& user.id@ == text::decimal(member.new_chat_member.user.id as int)
                    &&& reason is Leave <==> after != "kicked"@ && own
                    &&& !(reason is Leave) ==> (reason matches GroupMemberDecreaseReason::Kick {
                        operator: Some(done),
                    } && done.id@ == by)
                })
        }),
{
    lemma_member_events(update, member, now, events);
}

/// A member is announced to be muted where they were not before and are now
/// restricted so that they may not send messages, and to speak again where it
/// is the other way round. A mute is announced for as long as it lasts from
/// now on, and without an end where Telegram names none.
pub proof fn law_mutes_follow_the_restriction(
    update: Update,
    member: ChatMemberUpdated,
    now: i64,
    events: Seq<Event>,
)
    requires
        client::update_kind(update.data) == Some("chat_member"@) || client::update_kind(
            update.data,
        ) == Some("my_chat_member"@),
        events_view(events) == update_events(update, Decoded::Member(member), now),
    ensures
        ({
            let was = member.old_chat_member.status@ == "restricted"@
                && member.old_chat_member.can_send_messages == Some(false);
            let is_now = member.new_chat_member.status@ == "restricted"@
                && member.new_chat_member.can_send_messages == Some(false);
            &&& was != is_now ==> exists|i: int|
                0 <= i < events.len() && (#[trigger] events[i] matches Event::NoticeEvent(notice)
                    && notice is GroupMemberMuteChangeEvent)
            &&& forall|i: int|
                0 <= i < events.len() ==> (#[trigger] events[i] matches Event::NoticeEvent(
                    NoticeEvent::GroupMemberMuteChangeEvent { user, operator, mute, .. },
                ) ==> {
                    &&& was != is_now
                    &&& user.id@ == text::decimal(member.new_chat_member.user.id as int)
                    &&& operator matches Some(done) && done.id@ == text::decimal(
                        member.from.id as int,
                    )
                    &&& mute is UnMute <==> was
                    &&& mute matches MuteType::Mute { duration } ==> match member.new_chat_member.until_date {
                        None => duration is None,
                        Some(until) => if until <= 0 {
                            duration is None
                        } else {
                            &&& duration matches Some(left)
                            &&& left.nanoseconds == 0
                            &&& until <= now ==> left.seconds == 0
                            &&& now < until <= now + i64::MAX ==> now + left.seconds == until
                        },
                    }
                })
        }),
{
    lemma_member_events(update, member, now, events);
}

/// A new title is announced with the old one and the new one, each as the
/// member had it then, and only where they differ.
pub proof fn law_titles_are_announced(
    update: Update,
    member: ChatMemberUpdated,
    now: i64,
    events: Seq<Event>,
)
    requires
        client::update_kind(update.data) == Some("chat_member"@) || client::update_kind(
            update.data,
        ) == Some("my_chat_member"@),
        events_view(events) == update_events(update, Decoded::Member(member), now),
    ensures
        ({
            let before = json::optional_chars(member.old_chat_member.custom_title);
            let after = json::optional_chars(member.new_chat_member.custom_title);
            &&& before != after ==> exists|i: int|
                0 <= i < events.len() && (#[trigger] events[i] matches Event::NoticeEvent(notice)
                    && notice is GroupMemberAliasChangeEvent)
            &&& forall|i: int|
                0 <= i < events.len() ==> (#[trigger] events[i] matches Event::NoticeEvent(
                    NoticeEvent::GroupMemberAliasChangeEvent { old_alias, new_alias, .. },
                ) ==> before != after && json::optional_chars(old_alias) == before
                    && json::optional_chars(new_alias) == after)
        }),
{
    lemma_member_events(update, member, now, events);
}

/// Whoever sent a message: the user, or the chat where there is none.
pub open spec fn sent_by(message: TelegramMessage) -> Option<i64> {
    match message.from {
        Some(user) => Some(user.id),
        None => match message.sender_chat {
            Some(chat) => Some(chat.id),
            None => None,
        },
    }
}

/// A new message that says something is announced first: with the number of
/// its chat and its own number, who sent it, when, and the group around it
/// unless it is private.
pub proof fn law_new_messages_are_announced(
    update: Update,
    message: TelegramMessage,
    now: i64,
    events: Seq<Event>,
)
    requires
        client::update_kind(update.data) == Some("message"@) || client::update_kind(update.data)
            == Some("channel_post"@),
        events_view(events) == update_events(update, Decoded::Message(message), now),
        sent_by(message) is Some,
        segment::message_segments(message).len() > 0,
    ensures
        events.len() > 0,
        events[0] matches Event::MessageEvent(event) && {
            let number = text::decimal(message.chat.id as int) + "_"@ + text::decimal(
                message.message_id as int,
            );
            &&& event.id@ == number
            &&& event.message.id@ == number
            &&& event.sender.id@ == text::decimal(sent_by(message)->0 as int)
            &&& 0 <= message.date <= 253_402_300_799 ==> event.time == Some(message.date)
            &&& event.group is None <==> message.chat.kind@ == "private"@
            &&& event.group matches Some(group) ==> group.id@ == text::decimal(
                message.chat.id as int,
            )
            &&& source::segments_view(event.message.segments@) == segment::message_segments(message)
        },
{
    lemma_update_names();
    assert(events_view(events)[0] == message_events(message)[0]);
    assert(events_view(events)[0] == events[0]@);
}

proof fn lemma_added_events(chat: Chat, members: Seq<TelegramUser>, n: int)
    requires
        0 <= n <= members.len(),
    ensures
        added_events(chat, members, n).len() == n,
        forall|i: int|
            0 <= i < n ==> #[trigger] added_events(chat, members, n)[i]
                == (EventView::MemberIncrease {
                group: group_of(chat),
                user: user_of(members[i]),
                reason: IncreaseView::Unknown,
            }),
    decreases n,
{
    if n > 0 {
        lemma_added_events(chat, members, n - 1);
    }
}

/// Everyone whom a message says to have been added is announced to have come,
/// and whom it says to have left to have gone.
pub proof fn law_messages_tell_who_came_and_went(
    update: Update,
    message: TelegramMessage,
    now: i64,
    events: Seq<Event>,
    j: int,
)
    requires
        client::update_kind(update.data) == Some("message"@),
        events_view(events) == update_events(update, Decoded::Message(message), now),
    ensures
        message.new_chat_members matches Some(members) ==> (0 <= j < members@.len() ==> exists|i: int|
            0 <= i < events.len() && (#[trigger] events[i] matches Event::NoticeEvent(
                NoticeEvent::GroupMemberIncreseEvent { user, .. },
            ) && user.id@ == text::decimal(members@[j].id as int))),
        message.left_chat_member matches Some(member) ==> exists|i: int|
            0 <= i < events.len() && (#[trigger] events[i] matches Event::NoticeEvent(
                NoticeEvent::GroupMemberDecreaseEvent { user, .. },
            ) && user.id@ == text::decimal(member.id as int)),
{
    lemma_update_names();
    let all = message_events(message);
    let shown = events_view(events);
    let members = new_members(message);
    lemma_added_events(message.chat, members, members.len() as int);
    let added = added_events(message.chat, members, members.len() as int);
    if message.left_chat_member is Some {
        let last = all.len() - 1;
        assert(all[last] == all.last());
        assert(shown[last] == events[last]@);
        assert(events[last]@ is MemberDecrease);
    }
    if message.new_chat_members is Some && 0 <= j < members.len() {
        let rest = if message.left_chat_member is Some {
            all.len() - 1
        } else {
            all.len() as int
        };
        let at = rest - added.len() + j;
        assert(all[at] == added[j]);
        assert(shown[at] == events[at]@);
        assert(events[at]@ is MemberIncrease);
    }
}

/// An edited message is announced as one, with its new form and not an old one.
pub proof fn law_edits_are_announced(
    update: Update,
    message: TelegramMessage,
    now: i64,
    events: Seq<Event>,
)
    requires
        client::update_kind(update.data) == Some("edited_message"@) || client::update_kind(
            update.data,
        ) == Some("edited_channel_post"@),
        events_view(events) == update_events(update, Decoded::Message(message), now),
        sent_by(message) is Some,
    ensures
        events.len() == 1,
        events[0] matches Event::NoticeEvent(
            NoticeEvent::MessageEditedEvent { user, edited_in, new_message, old_message, .. },
        ) && {
            &&& user.id@ == text::decimal(sent_by(message)->0 as int)
            &&& edited_in is None <==> message.chat.kind@ == "private"@
            &&& old_message is None
            &&& new_message matches Some(edited)
            &&& edited.id@ == text::decimal(message.chat.id as int) + "_"@ + text::decimal(
                message.message_id as int,
            )
            &&& source::segments_view(edited.segments@) == segment::message_segments(message)
        },
{
    lemma_update_names();
    assert(events_view(events)[0] == edited_events(message)[0]);
    assert(events_view(events)[0] == events[0]@);
}

/// A change of reactions is announced with those that stand after it, one by
/// one: an emoji by itself, a custom emoji by its id.
pub proof fn law_reactions_are_announced(
    update: Update,
    reaction: MessageReactionUpdated,
    now: i64,
    events: Seq<Event>,
)
    requires
        client::update_kind(update.data) == Some("message_reaction"@),
        events_view(events) == update_events(update, Decoded::Reaction(reaction), now),
        reaction.user is Some || reaction.actor_chat is Some,
    ensures
        events.len() == 1,
        events[0] matches Event::NoticeEvent(
            NoticeEvent::MessageReactionsEvent { user, reacted_in, message, reactions },
        ) && {
            &&& user.id@ == text::decimal(
                match reaction.user {
                    Some(user) => user.id,
                    None => reaction.actor_chat->0.id,
                } as int,
            )
            &&& reacted_in is None <==> reaction.chat.kind@ == "private"@
            &&& message.id@ == text::decimal(reaction.chat.id as int) + "_"@ + text::decimal(
                reaction.message_id as int,
            )
            &&& reactions@.len() == reaction.new_reaction@.len()
            &&& forall|i: int|
                0 <= i < reactions@.len() ==> {
                    let own = reaction.new_reaction@[i];
                    &&& own.kind@ == "emoji"@ && own.emoji is Some ==> (#[trigger] reactions@[i])@
                        == own.emoji->0@
                    &&& own.kind@ == "custom_emoji"@ && own.custom_emoji_id is Some
                        ==> reactions@[i]@ == own.custom_emoji_id->0@
                    &&& own.kind@ == "paid"@ ==> reactions@[i]@ == "paid"@
                }
        },
{
    lemma_update_names();
    reveal_strlit("emoji");
    reveal_strlit("custom_emoji");
    reveal_strlit("paid");
    assert("emoji"@.len() == 5 && "custom_emoji"@.len() == 12 && "paid"@.len() == 4);
    let names = reaction_names(reaction.new_reaction@);
    assert(events_view(events)[0] == reaction_events(reaction)[0]);
    assert(events_view(events)[0] == events[0]@);
    let reactions = events[0]->NoticeEvent_0->MessageReactionsEvent_reactions;
    assert(utf16::texts(reactions@) == names);
    assert forall|i: int| 0 <= i < reactions@.len() implies (#[trigger] reactions@[i])@ == names[i] by {
        assert(utf16::texts(reactions@)[i] == names[i]);
    }
}

/// A request to join is announced with who asks and for which group, under an
/// id that gives both back.
pub proof fn law_join_requests_are_announced(
    update: Update,
    request: ChatJoinRequest,
    now: i64,
    events: Seq<Event>,
)
    requires
        client::update_kind(update.data) == Some("chat_join_request"@),
        events_view(events) == update_events(update, Decoded::JoinRequest(request), now),
    ensures
        events.len() == 1,
        events[0] matches Event::RequestEvent(event) && {
            &&& event.user.id@ == text::decimal(request.from.id as int)
            &&& event.group.id@ == text::decimal(request.chat.id as int)
            &&& json::optional_chars(event.message) == json::optional_chars(request.bio)
            &&& utils::split_join_request_id_outcome(event.id@) == Ok::<(i64, i64), ErrorView>(
                (request.chat.id, request.from.id),
            )
        },
{
    lemma_update_names();
    utils::law_join_request_id_round_trip(request.chat.id, request.from.id);
    assert(events_view(events)[0] == join_events(request)[0]);
    assert(events_view(events)[0] == events[0]@);
}

/// A button that was pressed is announced as one, with who pressed it and what
/// it stands for, and can be answered by the id of the query.
pub proof fn law_buttons_are_announced(
    update: Update,
    query: CallbackQuery,
    now: i64,
    events: Seq<Event>,
)
    requires
        client::update_kind(update.data) == Some("callback_query"@),
        events_view(events) == update_events(update, Decoded::Callback(query), now),
    ensures
        events.len() == 1,
        events[0] matches Event::InteractionEvent(event) && {
            &&& event.id@ == query.id@
            &&& event.kind == InteractionKind::Button
            &&& event.user.id@ == text::decimal(query.from.id as int)
            &&& query.data matches Some(data) ==> json::optional_chars(event.action_id) == Some(
                data@,
            )
            &&& query.data is None ==> json::optional_chars(event.action_id)
                == json::optional_chars(query.game_short_name)
            &&& json::optional_chars(event.context_id) == json::optional_chars(
                query.inline_message_id,
            )
            &&& event.message is Some <==> query.message is Some
            &&& event.message matches Some(message) ==> message.id@ == text::decimal(
                query.message->0.chat.id as int,
            ) + "_"@ + text::decimal(query.message->0.message_id as int)
            &&& event.data@ == json::fields(update.data)["callback_query"@]
            &&& event.response matches Some(handle) && handle.id@ == query.id@
        },
{
    lemma_update_names();
    assert(events_view(events)[0] == events[0]@);
}

/// What a message tells that was chosen or sent is announced: the users, the
/// chat or the bot as a choice, what a Mini App sent as a form.
pub proof fn law_choices_are_announced(
    update: Update,
    message: TelegramMessage,
    now: i64,
    events: Seq<Event>,
)
    requires
        client::update_kind(update.data) == Some("message"@),
        events_view(events) == update_events(update, Decoded::Message(message), now),
        sent_by(message) is Some,
    ensures
        object_in(message, "chat_shared"@) matches Some(shared) ==> exists|i: int|
            0 <= i < events.len() && (#[trigger] events[i] matches Event::InteractionEvent(event)
                && event.kind == InteractionKind::Select && event.user.id@ == text::decimal(
                sent_by(message)->0 as int,
            ) && event.data@ == JsonView::Object(shared) && (json::i64_in(shared, "request_id"@) matches
                Some(number) ==> json::optional_chars(event.action_id) == Some(
                text::decimal(number as int),
            )) && (json::i64_in(shared, "chat_id"@) matches Some(chat) ==> event.values@.len() == 1
                && event.values@[0]@ == text::decimal(chat as int))),
        object_in(message, "users_shared"@) matches Some(shared) ==> exists|i: int|
            0 <= i < events.len() && (#[trigger] events[i] matches Event::InteractionEvent(event)
                && event.kind == InteractionKind::Select && event.data@ == JsonView::Object(shared)
                && event.user.id@ == text::decimal(sent_by(message)->0 as int)),
        object_in(message, "managed_bot_created"@) matches Some(shared) ==> exists|i: int|
            0 <= i < events.len() && (#[trigger] events[i] matches Event::InteractionEvent(event)
                && event.kind == InteractionKind::Select && event.data@ == JsonView::Object(shared)
                && event.user.id@ == text::decimal(sent_by(message)->0 as int)),
        object_in(message, "web_app_data"@) matches Some(sent) ==> exists|i: int|
            0 <= i < events.len() && (#[trigger] events[i] matches Event::InteractionEvent(event)
                && event.kind == InteractionKind::Form && event.data@ == JsonView::Object(sent)
                && (json::text_in(sent, "button_text"@) matches Some(label) ==> json::optional_chars(
                event.action_id,
            ) == Some(label)) && (json::text_in(sent, "data"@) matches Some(data)
                ==> event.values@.len() == 1 && event.values@[0]@ == data)),
{
    lemma_update_names();
    let user = actor(message.from, message.sender_chat)->0;
    let all = message_events(message);
    let shown = events_view(events);
    let chosen = selections(message);
    let one = and_event(Seq::empty(), users_event(message, user));
    let two = and_event(one, chat_event(message, user));
    let three = and_event(two, bot_event(message, user));
    let four = and_event(three, web_app_event(message, user));
    assert(chosen == four);
    let before: int = if segment::message_segments(message).len() > 0 {
        1
    } else {
        0
    };
    assert forall|k: int| 0 <= k < chosen.len() implies {
        &&& before + k < events.len()
        &&& (#[trigger] chosen[k]) == events[before + k]@
    } by {
        assert(all[before + k] == chosen[k]);
        assert(shown[before + k] == events[before + k]@);
    }
    if object_in(message, "users_shared"@) is Some {
        assert(chosen[0] == users_event(message, user)->0);
    }
    if object_in(message, "chat_shared"@) is Some {
        let at = one.len() as int;
        assert(chosen[at] == chat_event(message, user)->0);
        let event = events[before + at]->InteractionEvent_0;
        assert(utf16::texts(event.values@).len() == event.values@.len());
        if event.values@.len() == 1 {
            assert(utf16::texts(event.values@)[0] == event.values@[0]@);
        }
    }
    if object_in(message, "managed_bot_created"@) is Some {
        assert(chosen[two.len() as int] == bot_event(message, user)->0);
    }
    if object_in(message, "web_app_data"@) is Some {
        let at = three.len() as int;
        assert(chosen[at] == web_app_event(message, user)->0);
        let event = events[before + at]->InteractionEvent_0;
        assert(utf16::texts(event.values@).len() == event.values@.len());
        if event.values@.len() == 1 {
            assert(utf16::texts(event.values@)[0] == event.values@[0]@);
        }
    }
}

/// An update that has no event of its own is handed on with its number, its
/// name and its document, under the name of this platform.
pub proof fn law_raw_events_tell_the_update(
    update: Update,
    now: i64,
    events: Seq<Event>,
    kind: Seq<char>,
)
    requires
        client::update_kind(update.data) == Some(kind),
        events_view(events) == update_events(update, Decoded::Nothing, now),
    ensures
        events.len() == 1,
        events[0] matches Event::AnyEvent(event) && {
            &&& event.server@ == "telegram"@
            &&& event.kind@ == kind
            &&& event.data.kind@ == kind
            &&& event.data.update_id == update.update_id
            &&& event.data.data@ == json::fields(update.data)[kind]
        },
{
    assert(events_view(events).len() == 1);
    assert(events_view(events)[0] == events[0]@);
}

/// What a button was pressed under is handed on by name: the user, the chat with
/// its sort, the message and the inline message.
pub proof fn law_pressed_buttons_say_where_they_stand(query: CallbackQuery)
    ensures
        ({
            let context = callback_context(query);
            &&& json::i64_in(context, "user_id"@) == Some(query.from.id)
            &&& query.message matches Some(message) ==> json::i64_in(context, "chat_id"@) == Some(
                message.chat.id,
            ) && json::text_in(context, "chat_type"@) == Some(message.chat.kind@) && json::i64_in(
                context,
                "message_id"@,
            ) == Some(message.message_id)
            &&& json::text_in(context, "inline_message_id"@) == json::optional_chars(
                query.inline_message_id,
            )
        }),
{
    lemma_context_names();
    let context = callback_context(query);
    assert(json::i64_in(context, "user_id"@) == Some(query.from.id));
    if let Some(message) = query.message {
        assert(json::i64_in(context, "chat_id"@) == Some(message.chat.id));
        assert(json::text_in(context, "chat_type"@) == Some(message.chat.kind@));
        assert(json::i64_in(context, "message_id"@) == Some(message.message_id));
    }
    if query.inline_message_id is None {
        assert(!context.contains_key("inline_message_id"@));
    }
}

/// Where an update comes from is what it says: its number, its date and its
/// chat, and all of it is kept.
pub proof fn law_origins_tell_the_update(
    origin: UpdateOrigin,
    update: Update,
    members: Map<Seq<char>, JsonView>,
)
    requires
        tells_origin(origin, update),
        update_value(update) == Some(JsonView::Object(members)),
        members.contains_key("chat"@),
    ensures
        text::i64_value(origin.id@) == Some(update.update_id),
        origin.occurred_at == json::i64_in(members, "date"@),
        json::object_in(members, "chat"@) matches Some(chat) ==> (json::i64_in(chat, "id"@) matches Some(
            id,
        ) ==> (origin.conversation matches Some(conversation) && text::i64_value(conversation.id@)
            == Some(id))),
        origin.raw@ matches JsonView::Object(raw) && json::i64_in(raw, "update_id"@) == Some(
            update.update_id,
        ),
{
    text::lemma_decimal_round_trip(update.update_id as int);
    if let Some(chat) = json::object_in(members, "chat"@) {
        if let Some(id) = json::i64_in(chat, "id"@) {
            text::lemma_decimal_round_trip(id as int);
        }
    }
}

} // verus!
