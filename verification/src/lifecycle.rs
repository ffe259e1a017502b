//! What happens to messages, reactions, topics, polls, checklists, members and
//! payments, as updates tell it.
use crate::api::permissions;
use crate::api::permissions::telegram_conversation_member;
use crate::api::poll;
use crate::api::poll::telegram_poll;
use crate::application::{MiniAppEvent, SuggestionQuery, SuggestionSelection};
use crate::client;
use crate::client::Update;
use crate::collaboration::{PinnedMessage, Reaction, ReactionChange, ReactionSummary};
use crate::commerce::{
    CheckoutRequest, CustomerDetails, Money, Payment, PaymentStatus, ShippingRequest,
};
use crate::content::{ChecklistChange, Poll};
use crate::conversation::{
    ConversationMember, ConversationRef, ConversationView, JoinRequest, MessageRef,
    MessageRefView, Thread, ThreadState,
};
use crate::envelope;
use crate::envelope::{
    copy_members, find_place, make_chat, make_topic, tasks_at, telegram_message_envelope,
    MessageEnvelope,
};
use crate::event;
use crate::event::{find_actor, Decoded, UpdateKind};
use crate::json;
use crate::json::{Fields, Json, JsonView};
use crate::native;
use crate::native::{make_native, PlatformNativeData};
use crate::reading;
use crate::reading::{
    actor_at, find_conversation, read_reaction, read_reactions, read_ref, read_summaries,
    ref_at, user_at, ReactionView,
};
use crate::source::{User, UserView};
use crate::telegram::{ChatJoinRequest, ChatMemberUpdated, Message, User as TelegramUser};
use crate::text;
use crate::text::{i64_text, same};
use crate::time;
use crate::time::instant;
use crate::utf16;
use crate::utils;
use crate::utils::{join_request_id, parse_user};
use vstd::prelude::*;

verus! {

// ---------------------------------------------------------------------------
// Events
// ---------------------------------------------------------------------------

#[derive(Debug, PartialEq)]
pub enum LifecycleEvent {
    MessageCreated(MessageEnvelope),
    MessageUpdated(MessageEnvelope),
    MessagesDeleted {
        conversation: ConversationRef,
        messages: Vec<MessageRef>,
        platform_data: Option<PlatformNativeData>,
    },
    ReactionsChanged { message: MessageRef, actor: Option<User>, change: ReactionChange },
    MessagePinned(PinnedMessage),
    ThreadCreated(Thread),
    ThreadUpdated(Thread),
    ThreadClosed(Thread),
    PollUpdated(Poll),
    PollVoteChanged {
        poll_id: String,
        user: Option<User>,
        option_ids: Vec<String>,
        platform_data: Option<PlatformNativeData>,
    },
    ChecklistChanged(ChecklistChange),
    MemberUpdated {
        conversation: ConversationRef,
        old_member: Option<ConversationMember>,
        new_member: ConversationMember,
    },
    JoinRequested(JoinRequest),
    SuggestionRequested(SuggestionQuery),
    SuggestionSelected(SuggestionSelection),
    MiniApp(MiniAppEvent),
    ShippingRequested(ShippingRequest),
    CheckoutRequested(CheckoutRequest),
    PaymentUpdated(Payment),
    PlatformNative(PlatformNativeData),
}

/// What a topic went through.
#[derive(Debug, Clone, Copy, PartialEq, Eq, Structural)]
pub enum TopicChange {
    Created,
    Edited,
    Closed,
    Reopened,
}

/// What an update says has happened, by the documents that say it.
pub enum Fact {
    /// A message and its document.
    Created(Message, JsonView),
    Updated(Message, JsonView),
    Deleted(Map<Seq<char>, JsonView>),
    Reacted(Map<Seq<char>, JsonView>),
    Counted(Map<Seq<char>, JsonView>),
    /// A message and its document: the message says what was pinned.
    Pinned(Message, Map<Seq<char>, JsonView>),
    /// What a message says of the topic with the number.
    Topic(TopicChange, i64, Map<Seq<char>, JsonView>, Message),
    Polled(JsonView),
    Voted(Map<Seq<char>, JsonView>),
    /// What a message says of a checklist.
    Listed(Map<Seq<char>, JsonView>, Message),
    Member(ChatMemberUpdated, Map<Seq<char>, JsonView>),
    Joining(ChatJoinRequest, JsonView),
    Queried(Map<Seq<char>, JsonView>),
    Chosen(Map<Seq<char>, JsonView>),
    /// What a message with the document says that a Mini App sent.
    Sent(Map<Seq<char>, JsonView>, Message, Map<Seq<char>, JsonView>),
    Shipping(Map<Seq<char>, JsonView>),
    Checkout(Map<Seq<char>, JsonView>),
    /// What a message with the document says of a payment.
    Paid(PaymentStatus, Map<Seq<char>, JsonView>, Message, Map<Seq<char>, JsonView>),
    Native(JsonView),
}

// ---------------------------------------------------------------------------
// What each event says
// ---------------------------------------------------------------------------

/// The native data is the document with the members.
pub open spec fn keeps(
    data: Option<PlatformNativeData>,
    members: Map<Seq<char>, JsonView>,
) -> bool {
    native::optional_native(data) == Some(native::telegram_native(JsonView::Object(members)))
}

/// Who sent a message.
pub open spec fn sender(message: Message) -> Option<UserView> {
    event::actor(message.from, message.sender_chat)
}

/// The numbers among the first `n` items, as texts.
pub open spec fn numbers(items: Seq<JsonView>, n: int) -> Seq<Seq<char>>
    decreases n,
{
    if n <= 0 {
        Seq::empty()
    } else {
        match json::i64_of(items[n - 1]) {
            Some(number) => numbers(items, n - 1).push(text::decimal(number as int)),
            None => numbers(items, n - 1),
        }
    }
}

/// The numbers under `key`, as texts.
pub open spec fn numbers_in(members: Map<Seq<char>, JsonView>, key: Seq<char>) -> Seq<Seq<char>> {
    let items = reading::list_in(members, key);
    numbers(items, items.len() as int)
}

/// The references name messages of the conversation by the numbers.
pub open spec fn are_refs(
    list: Seq<MessageRef>,
    ids: Seq<Seq<char>>,
    conversation: ConversationView,
) -> bool {
    &&& list.len() == ids.len()
    &&& forall|i: int|
        0 <= i < list.len() ==> (#[trigger] list[i])@ == (MessageRefView {
            id: ids[i],
            conversation: Some(conversation),
            native: None,
        })
}

/// The reactions under `key`.
pub open spec fn reactions_in(members: Map<Seq<char>, JsonView>, key: Seq<char>) -> Seq<
    ReactionView,
> {
    let items = reading::list_in(members, key);
    reading::reactions_among(items, items.len() as int)
}

/// The reactions that are not among the others.
pub open spec fn beyond(list: Seq<ReactionView>, others: Seq<ReactionView>) -> Seq<ReactionView> {
    list.filter(|reaction: ReactionView| !others.contains(reaction))
}

/// A user changed the reactions to a message.
pub open spec fn tells_reactions(event: LifecycleEvent, members: Map<Seq<char>, JsonView>) -> bool {
    let before = reactions_in(members, "old_reaction"@);
    let after = reactions_in(members, "new_reaction"@);
    &&& event matches LifecycleEvent::ReactionsChanged { message, actor, change }
    &&& reading::ref_of(members) == Some(message@)
    &&& reading::optional_user(actor) == reading::actor_in(members, "user"@, "actor_chat"@)
    &&& reading::are_reactions(change.added@, beyond(after, before))
    &&& reading::are_reactions(change.removed@, beyond(before, after))
    &&& change.current@.len() == 0
}

/// The reactions to a message were counted anew.
pub open spec fn tells_counts(event: LifecycleEvent, members: Map<Seq<char>, JsonView>) -> bool {
    &&& event matches LifecycleEvent::ReactionsChanged { message, actor, change }
    &&& reading::ref_of(members) == Some(message@)
    &&& actor is None
    &&& change.added@.len() == 0
    &&& change.removed@.len() == 0
    &&& reading::are_summaries(
        change.current@,
        reading::counted(reading::list_in(members, "reactions"@)),
    )
}

/// Messages were deleted.
pub open spec fn tells_deletion(event: LifecycleEvent, members: Map<Seq<char>, JsonView>) -> bool {
    &&& event matches LifecycleEvent::MessagesDeleted { conversation, messages, platform_data }
    &&& reading::chat_conversation(json::member(members, "chat"@)) == Some(conversation@)
    &&& are_refs(messages@, numbers_in(members, "message_ids"@), conversation@)
    &&& keeps(platform_data, members)
}

/// A message was pinned.
pub open spec fn tells_pin(
    event: LifecycleEvent,
    message: Message,
    members: Map<Seq<char>, JsonView>,
) -> bool {
    &&& event matches LifecycleEvent::MessagePinned(pinned)
    &&& reading::ref_under(members, "pinned_message"@) == Some(pinned.message@)
    &&& reading::optional_user(pinned.pinned_by) == sender(message)
    &&& pinned.pinned_at == time::instant_of(message.date)
    &&& keeps(pinned.platform_data, members)
}

/// The topic as a message tells of it.
pub open spec fn is_topic(
    thread: Thread,
    change: TopicChange,
    number: i64,
    members: Map<Seq<char>, JsonView>,
    message: Message,
) -> bool {
    &&& thread.conversation@ == envelope::topic_view(
        number,
        envelope::chat_view(message.chat),
        None,
    )
    &&& json::optional_chars(thread.title) == json::text_in(members, "name"@)
    &&& reading::optional_user(thread.creator) == if change == TopicChange::Created {
        sender(message)
    } else {
        None
    }
    &&& if change == TopicChange::Closed {
        thread.state is Closed
    } else {
        thread.state is Open
    }
    &&& thread.created_at == if change == TopicChange::Created {
        time::instant_of(message.date)
    } else {
        None
    }
    &&& thread.auto_close_at is None
    &&& keeps(thread.platform_data, members)
}

/// A topic was made, changed, closed or opened again.
pub open spec fn tells_topic(
    event: LifecycleEvent,
    change: TopicChange,
    number: i64,
    members: Map<Seq<char>, JsonView>,
    message: Message,
) -> bool {
    match change {
        TopicChange::Created => event matches LifecycleEvent::ThreadCreated(thread) && is_topic(
            thread,
            change,
            number,
            members,
            message,
        ),
        TopicChange::Closed => event matches LifecycleEvent::ThreadClosed(thread) && is_topic(
            thread,
            change,
            number,
            members,
            message,
        ),
        _ => event matches LifecycleEvent::ThreadUpdated(thread) && is_topic(
            thread,
            change,
            number,
            members,
            message,
        ),
    }
}

/// Someone voted in a poll.
pub open spec fn tells_vote(event: LifecycleEvent, members: Map<Seq<char>, JsonView>) -> bool {
    &&& event matches LifecycleEvent::PollVoteChanged { poll_id, user, option_ids, platform_data }
    &&& json::text_in(members, "poll_id"@) == Some(poll_id@)
    &&& reading::optional_user(user) == reading::actor_in(members, "user"@, "voter_chat"@)
    &&& utf16::texts(option_ids@) == numbers_in(members, "option_ids"@)
    &&& keeps(platform_data, members)
}

/// Tasks were added to a checklist, done or taken up again.
pub open spec fn tells_tasks(
    event: LifecycleEvent,
    members: Map<Seq<char>, JsonView>,
    message: Message,
) -> bool {
    &&& event matches LifecycleEvent::ChecklistChanged(change)
    &&& reading::optional_ref(change.message) == reading::ref_under(members, "checklist_message"@)
    &&& envelope::are_tasks(
        change.added_tasks@,
        envelope::described_tasks(reading::list_in(members, "tasks"@)),
    )
    &&& utf16::texts(change.completed_task_ids@) == numbers_in(members, "marked_as_done_task_ids"@)
    &&& utf16::texts(change.reopened_task_ids@) == numbers_in(
        members,
        "marked_as_not_done_task_ids"@,
    )
    &&& reading::optional_user(change.actor) == sender(message)
    &&& keeps(change.platform_data, members)
}

/// The member that a document describes, where it describes one.
pub open spec fn is_member(
    member: Option<ConversationMember>,
    value: Option<JsonView>,
    user: TelegramUser,
) -> bool {
    match member {
        Some(member) => value matches Some(value) && permissions::member_flaw(value) is None
            && permissions::reads_member(member, value, user),
        None => value matches Some(value) ==> permissions::member_flaw(value) is Some,
    }
}

/// The standing of a member changed.
pub open spec fn tells_member(
    event: LifecycleEvent,
    update: ChatMemberUpdated,
    members: Map<Seq<char>, JsonView>,
) -> bool {
    &&& event matches LifecycleEvent::MemberUpdated { conversation, old_member, new_member }
    &&& conversation@ == envelope::chat_view(update.chat)
    &&& is_member(
        old_member,
        json::member(members, "old_chat_member"@),
        update.old_chat_member.user,
    )
    &&& is_member(
        Some(new_member),
        json::member(members, "new_chat_member"@),
        update.new_chat_member.user,
    )
}

/// Someone asks to join.
pub open spec fn tells_joining(
    event: LifecycleEvent,
    request: ChatJoinRequest,
    data: JsonView,
) -> bool {
    &&& event matches LifecycleEvent::JoinRequested(own)
    &&& own.id@ == utils::join_request_id_text(request.chat.id as int, request.from.id as int)
    &&& own.conversation@ == envelope::chat_view(request.chat)
    &&& own.user@ == event::user_of(request.from)
    &&& json::optional_chars(own.message) == json::optional_chars(request.bio)
    &&& own.requested_at == time::instant_of(request.date)
    &&& native::optional_native(own.platform_data) == Some(native::telegram_native(data))
}

/// The text under `key`, unless it is empty.
pub open spec fn some_text(members: Map<Seq<char>, JsonView>, key: Seq<char>) -> Option<Seq<char>> {
    match json::text_in(members, key) {
        Some(text) => if text.len() == 0 {
            None
        } else {
            Some(text)
        },
        None => None,
    }
}

/// Someone asks for suggestions.
pub open spec fn tells_query(event: LifecycleEvent, members: Map<Seq<char>, JsonView>) -> bool {
    &&& event matches LifecycleEvent::SuggestionRequested(own)
    &&& json::text_in(members, "id"@) == Some(own.id@)
    &&& json::text_in(members, "query"@) == Some(own.query@)
    &&& reading::user_in(members, "from"@) == Some(own.user@)
    &&& json::optional_chars(own.cursor) == some_text(members, "offset"@)
    &&& keeps(own.platform_data, members)
}

/// Someone took a suggestion.
pub open spec fn tells_choice(event: LifecycleEvent, members: Map<Seq<char>, JsonView>) -> bool {
    &&& event matches LifecycleEvent::SuggestionSelected(own)
    &&& json::text_in(members, "result_id"@) == Some(own.result_id@)
    &&& json::optional_chars(own.query) == json::text_in(members, "query"@)
    &&& reading::user_in(members, "from"@) == Some(own.user@)
    &&& json::optional_chars(own.message_id) == json::text_in(members, "inline_message_id"@)
    &&& keeps(own.platform_data, members)
}

/// A Mini App sent something.
pub open spec fn tells_mini_app(
    event: LifecycleEvent,
    members: Map<Seq<char>, JsonView>,
    message: Message,
    raw: Map<Seq<char>, JsonView>,
) -> bool {
    &&& event matches LifecycleEvent::MiniApp(own)
    &&& sender(message) == Some(own.user@)
    &&& own.conversation@ == envelope::place_view(message, raw)
    &&& own.data@ == JsonView::Object(members)
    &&& keeps(own.platform_data, raw)
}

/// Someone asks what shipping costs.
pub open spec fn tells_shipping(event: LifecycleEvent, members: Map<Seq<char>, JsonView>) -> bool {
    &&& event matches LifecycleEvent::ShippingRequested(own)
    &&& json::text_in(members, "id"@) == Some(own.id@)
    &&& reading::user_in(members, "from"@) == Some(own.user@)
    &&& json::text_in(members, "invoice_payload"@) == Some(own.invoice_payload@)
    &&& own.address@ == match json::member(members, "shipping_address"@) {
        Some(address) => address,
        None => JsonView::Null,
    }
    &&& keeps(own.platform_data, members)
}

/// The amount is the one that a document names.
pub open spec fn is_total(money: Money, members: Map<Seq<char>, JsonView>) -> bool {
    &&& json::text_in(members, "currency"@) == Some(money.currency@)
    &&& json::i64_in(members, "total_amount"@) == Some(money.amount)
}

/// The details of the customer that an order names.
pub open spec fn is_customer(details: CustomerDetails, order: Map<Seq<char>, JsonView>) -> bool {
    &&& json::optional_chars(details.name) == json::text_in(order, "name"@)
    &&& json::optional_chars(details.email) == json::text_in(order, "email"@)
    &&& json::optional_chars(details.phone) == json::text_in(order, "phone_number"@)
    &&& match details.shipping_address {
        Some(address) => json::member(order, "shipping_address"@) == Some(address@),
        None => json::member(order, "shipping_address"@) is None,
    }
}

/// The members of the order that a document holds.
pub open spec fn order_of(members: Map<Seq<char>, JsonView>) -> Map<Seq<char>, JsonView> {
    match json::object_in(members, "order_info"@) {
        Some(order) => order,
        None => json::no_fields(),
    }
}

/// Someone is about to pay.
pub open spec fn tells_checkout(event: LifecycleEvent, members: Map<Seq<char>, JsonView>) -> bool {
    &&& event matches LifecycleEvent::CheckoutRequested(own)
    &&& json::text_in(members, "id"@) == Some(own.id@)
    &&& reading::user_in(members, "from"@) == Some(own.user@)
    &&& json::text_in(members, "invoice_payload"@) == Some(own.invoice_payload@)
    &&& is_total(own.total, members)
    &&& is_customer(own.customer_details, order_of(members))
    &&& keeps(own.platform_data, members)
}

/// Someone paid, or was paid back.
pub open spec fn tells_payment(
    event: LifecycleEvent,
    status: PaymentStatus,
    members: Map<Seq<char>, JsonView>,
    message: Message,
    raw: Map<Seq<char>, JsonView>,
) -> bool {
    &&& event matches LifecycleEvent::PaymentUpdated(own)
    &&& json::text_in(members, "telegram_payment_charge_id"@) == Some(own.id@)
    &&& json::optional_chars(own.invoice_id) == json::text_in(members, "invoice_payload"@)
    &&& reading::optional_user(own.payer) == sender(message)
    &&& own.conversation@ == envelope::place_view(message, raw)
    &&& is_total(own.total, members)
    &&& own.status == status
    &&& own.occurred_at == time::instant_of(message.date)
    &&& keeps(own.platform_data, members)
}

/// The event says what has happened.
pub open spec fn tells(event: LifecycleEvent, fact: Fact) -> bool {
    match fact {
        Fact::Created(message, raw) => event matches LifecycleEvent::MessageCreated(own)
            && envelope::is_envelope(own, message, raw),
        Fact::Updated(message, raw) => event matches LifecycleEvent::MessageUpdated(own)
            && envelope::is_envelope(own, message, raw),
        Fact::Deleted(members) => tells_deletion(event, members),
        Fact::Reacted(members) => tells_reactions(event, members),
        Fact::Counted(members) => tells_counts(event, members),
        Fact::Pinned(message, members) => tells_pin(event, message, members),
        Fact::Topic(change, number, members, message) => tells_topic(
            event,
            change,
            number,
            members,
            message,
        ),
        Fact::Polled(value) => event matches LifecycleEvent::PollUpdated(own) && poll::reads_poll(
            own,
            value,
        ),
        Fact::Voted(members) => tells_vote(event, members),
        Fact::Listed(members, message) => tells_tasks(event, members, message),
        Fact::Member(update, members) => tells_member(event, update, members),
        Fact::Joining(request, data) => tells_joining(event, request, data),
        Fact::Queried(members) => tells_query(event, members),
        Fact::Chosen(members) => tells_choice(event, members),
        Fact::Sent(members, message, raw) => tells_mini_app(event, members, message, raw),
        Fact::Shipping(members) => tells_shipping(event, members),
        Fact::Checkout(members) => tells_checkout(event, members),
        Fact::Paid(status, members, message, raw) => tells_payment(
            event,
            status,
            members,
            message,
            raw,
        ),
        Fact::Native(value) => event matches LifecycleEvent::PlatformNative(own) && own@
            == native::telegram_native(value),
    }
}

/// The events say what has happened, one by one.
pub open spec fn all_told(events: Seq<LifecycleEvent>, facts: Seq<Fact>) -> bool {
    &&& events.len() == facts.len()
    &&& forall|i: int| 0 <= i < events.len() ==> tells(#[trigger] events[i], facts[i])
}

// ---------------------------------------------------------------------------
// What has happened
// ---------------------------------------------------------------------------

/// The facts with one more, where there is one.
pub open spec fn and_fact(facts: Seq<Fact>, fact: Option<Fact>) -> Seq<Fact> {
    match fact {
        Some(fact) => facts.push(fact),
        None => facts,
    }
}

/// The pin that a message tells of.
pub open spec fn pin_fact(message: Message, members: Map<Seq<char>, JsonView>) -> Option<Fact> {
    if reading::ref_under(members, "pinned_message"@) is Some {
        Some(Fact::Pinned(message, members))
    } else {
        None
    }
}

/// What a message tells of its topic under `key`.
pub open spec fn topic_fact(
    message: Message,
    members: Map<Seq<char>, JsonView>,
    key: Seq<char>,
    change: TopicChange,
) -> Option<Fact> {
    match (json::object_in(members, key), json::i64_in(members, "message_thread_id"@)) {
        (Some(inner), Some(number)) => Some(Fact::Topic(change, number, inner, message)),
        _ => None,
    }
}

/// What a message tells of a checklist under `key`.
pub open spec fn checklist_fact(
    message: Message,
    members: Map<Seq<char>, JsonView>,
    key: Seq<char>,
) -> Option<Fact> {
    match json::object_in(members, key) {
        Some(inner) => Some(Fact::Listed(inner, message)),
        None => None,
    }
}

/// What a message tells that a Mini App sent.
pub open spec fn mini_app_fact(
    message: Message,
    members: Map<Seq<char>, JsonView>,
) -> Option<Fact> {
    match json::object_in(members, "web_app_data"@) {
        Some(inner) => if sender(message) is Some {
            Some(Fact::Sent(inner, message, members))
        } else {
            None
        },
        None => None,
    }
}

/// A document names an amount.
pub open spec fn has_total(members: Map<Seq<char>, JsonView>) -> bool {
    json::text_in(members, "currency"@) is Some && json::i64_in(members, "total_amount"@) is Some
}

/// What a message tells of a payment under `key`.
pub open spec fn payment_fact(
    message: Message,
    members: Map<Seq<char>, JsonView>,
    key: Seq<char>,
    status: PaymentStatus,
) -> Option<Fact> {
    match json::object_in(members, key) {
        Some(inner) => if json::text_in(inner, "telegram_payment_charge_id"@) is Some && has_total(
            inner,
        ) {
            Some(Fact::Paid(status, inner, message, members))
        } else {
            None
        },
        None => None,
    }
}

/// What a new message tells: that it is there, and what it says has happened.
pub open spec fn message_facts(message: Message, raw: JsonView) -> Seq<Fact> {
    let members = envelope::members_of(raw);
    let there = seq![Fact::Created(message, raw)];
    let pinned = and_fact(there, pin_fact(message, members));
    let made = and_fact(
        pinned,
        topic_fact(message, members, "forum_topic_created"@, TopicChange::Created),
    );
    let edited = and_fact(
        made,
        topic_fact(message, members, "forum_topic_edited"@, TopicChange::Edited),
    );
    let closed = and_fact(
        edited,
        topic_fact(message, members, "forum_topic_closed"@, TopicChange::Closed),
    );
    let opened = and_fact(
        closed,
        topic_fact(message, members, "forum_topic_reopened"@, TopicChange::Reopened),
    );
    let done = and_fact(opened, checklist_fact(message, members, "checklist_tasks_done"@));
    let added = and_fact(done, checklist_fact(message, members, "checklist_tasks_added"@));
    let sent = and_fact(added, mini_app_fact(message, members));
    let paid = and_fact(
        sent,
        payment_fact(message, members, "successful_payment"@, PaymentStatus::Paid),
    );
    and_fact(paid, payment_fact(message, members, "refunded_payment"@, PaymentStatus::Refunded))
}

/// What an update is about.
#[derive(Debug, Clone, Copy, PartialEq, Eq, Structural)]
pub enum Happening {
    NewMessage,
    EditedMessage,
    Deletion,
    Reaction,
    ReactionCount,
    Poll,
    Vote,
    Member,
    JoinRequest,
    Query,
    Choice,
    Shipping,
    Checkout,
    Subscription,
    Other,
}

/// What an update is about, by the name of its member.
pub open spec fn happening_of(name: Seq<char>) -> Happening {
    if name == "message"@ || name == "channel_post"@ || name == "business_message"@ || name
        == "guest_message"@ {
        Happening::NewMessage
    } else if name == "edited_message"@ || name == "edited_channel_post"@ || name
        == "edited_business_message"@ {
        Happening::EditedMessage
    } else if name == "deleted_business_messages"@ {
        Happening::Deletion
    } else if name == "message_reaction"@ {
        Happening::Reaction
    } else if name == "message_reaction_count"@ {
        Happening::ReactionCount
    } else if name == "poll"@ {
        Happening::Poll
    } else if name == "poll_answer"@ {
        Happening::Vote
    } else if name == "my_chat_member"@ || name == "chat_member"@ {
        Happening::Member
    } else if name == "chat_join_request"@ {
        Happening::JoinRequest
    } else if name == "inline_query"@ {
        Happening::Query
    } else if name == "chosen_inline_result"@ {
        Happening::Choice
    } else if name == "shipping_query"@ {
        Happening::Shipping
    } else if name == "pre_checkout_query"@ {
        Happening::Checkout
    } else if name == "subscription"@ {
        Happening::Subscription
    } else {
        Happening::Other
    }
}

/// What an update is about, by the name of its member.
pub fn find_happening(name: &str) -> (happening: Happening)
    ensures
        happening == happening_of(name@),
{
    if same(name, "message") || same(name, "channel_post") || same(name, "business_message")
        || same(name, "guest_message") {
        Happening::NewMessage
    } else if same(name, "edited_message") || same(name, "edited_channel_post") || same(
        name,
        "edited_business_message",
    ) {
        Happening::EditedMessage
    } else if same(name, "deleted_business_messages") {
        Happening::Deletion
    } else if same(name, "message_reaction") {
        Happening::Reaction
    } else if same(name, "message_reaction_count") {
        Happening::ReactionCount
    } else if same(name, "poll") {
        Happening::Poll
    } else if same(name, "poll_answer") {
        Happening::Vote
    } else if same(name, "my_chat_member") || same(name, "chat_member") {
        Happening::Member
    } else if same(name, "chat_join_request") {
        Happening::JoinRequest
    } else if same(name, "inline_query") {
        Happening::Query
    } else if same(name, "chosen_inline_result") {
        Happening::Choice
    } else if same(name, "shipping_query") {
        Happening::Shipping
    } else if same(name, "pre_checkout_query") {
        Happening::Checkout
    } else if same(name, "subscription") {
        Happening::Subscription
    } else {
        Happening::Other
    }
}

/// The change of a member, where the document describes the new standing.
pub open spec fn member_fact(
    update: ChatMemberUpdated,
    members: Map<Seq<char>, JsonView>,
) -> Option<Fact> {
    match json::member(members, "new_chat_member"@) {
        Some(value) => if permissions::member_flaw(value) is None {
            Some(Fact::Member(update, members))
        } else {
            None
        },
        None => None,
    }
}

/// A text stands under each key.
pub open spec fn has_texts(
    members: Map<Seq<char>, JsonView>,
    first: Seq<char>,
    second: Seq<char>,
) -> bool {
    json::text_in(members, first) is Some && json::text_in(members, second) is Some
}

/// What a document of an update tells, apart from messages.
pub open spec fn document_fact(
    happening: Happening,
    decoded: Decoded,
    data: JsonView,
) -> Option<Fact> {
    let members = envelope::members_of(data);
    let from = reading::user_in(members, "from"@) is Some;
    match happening {
        Happening::Deletion => if reading::chat_conversation(
            json::member(members, "chat"@),
        ) is Some {
            Some(Fact::Deleted(members))
        } else {
            None
        },
        Happening::Reaction => if reading::ref_of(members) is Some {
            Some(Fact::Reacted(members))
        } else {
            None
        },
        Happening::ReactionCount => if reading::ref_of(members) is Some {
            Some(Fact::Counted(members))
        } else {
            None
        },
        Happening::Poll => if poll::poll_flaw(data) is None {
            Some(Fact::Polled(data))
        } else {
            None
        },
        Happening::Vote => if json::text_in(members, "poll_id"@) is Some {
            Some(Fact::Voted(members))
        } else {
            None
        },
        Happening::Member => match decoded {
            Decoded::Member(update) => member_fact(update, members),
            _ => None,
        },
        Happening::JoinRequest => match decoded {
            Decoded::JoinRequest(request) => Some(Fact::Joining(request, data)),
            _ => None,
        },
        Happening::Query => if has_texts(members, "id"@, "query"@) && from {
            Some(Fact::Queried(members))
        } else {
            None
        },
        Happening::Choice => if json::text_in(members, "result_id"@) is Some && from {
            Some(Fact::Chosen(members))
        } else {
            None
        },
        Happening::Shipping => if has_texts(members, "id"@, "invoice_payload"@) && from {
            Some(Fact::Shipping(members))
        } else {
            None
        },
        Happening::Checkout => if has_texts(members, "id"@, "invoice_payload"@) && from
            && has_total(members) {
            Some(Fact::Checkout(members))
        } else {
            None
        },
        Happening::Subscription => Some(Fact::Native(data)),
        _ => None,
    }
}

/// What an update tells, given what its document was read as.
pub open spec fn update_facts(update: Update, decoded: Decoded) -> Seq<Fact> {
    match client::update_kind(update.data) {
        None => Seq::empty(),
        Some(kind) => {
            let data = json::fields(update.data)[kind];
            match (happening_of(kind), decoded) {
                (Happening::NewMessage, Decoded::Message(message)) => message_facts(message, data),
                (Happening::EditedMessage, Decoded::Message(message)) => seq![
                    Fact::Updated(message, data),
                ],
                (happening, decoded) => and_fact(
                    Seq::empty(),
                    document_fact(happening, decoded, data),
                ),
            }
        },
    }
}

// ---------------------------------------------------------------------------
// Reading
// ---------------------------------------------------------------------------

/// The event tells the fact, or there is neither.
spec fn fits(event: Option<LifecycleEvent>, fact: Option<Fact>) -> bool {
    match event {
        Some(event) => fact matches Some(fact) && tells(event, fact),
        None => fact is None,
    }
}

fn add_event(
    events: &mut Vec<LifecycleEvent>,
    event: Option<LifecycleEvent>,
    facts: Ghost<Seq<Fact>>,
    fact: Ghost<Option<Fact>>,
)
    requires
        all_told(old(events)@, facts@),
        fits(event, fact@),
    ensures
        all_told(final(events)@, and_fact(facts@, fact@)),
{
    let ghost before = events@;
    if let Some(event) = event {
        events.push(event);
        assert forall|i: int| 0 <= i < events@.len() implies tells(
            #[trigger] events@[i],
            and_fact(facts@, fact@)[i],
        ) by {
            if i < before.len() {
                assert(tells(before[i], facts@[i]));
            }
        }
    }
}

fn keep(members: &Fields) -> (data: Option<PlatformNativeData>)
    ensures
        keeps(data, json::fields(*members)),
{
    Some(make_native(Json::object(members.clone())))
}

fn read_sender(message: &Message) -> (user: Option<User>)
    ensures
        reading::optional_user(user) == sender(*message),
{
    find_actor(&message.from, &message.sender_chat)
}

fn numbers_at(members: &Fields, key: &str) -> (list: Vec<String>)
    ensures
        utf16::texts(list@) == numbers_in(json::fields(*members), key@),
{
    let mut list: Vec<String> = Vec::new();
    assert(utf16::texts(list@) =~= Seq::<Seq<char>>::empty());
    if let Some(items) = members.array_at(key) {
        let ghost all = json::views(items@);
        let mut i: usize = 0;
        while i < items.len()
            invariant
                i <= items@.len(),
                all == json::views(items@),
                utf16::texts(list@) == numbers(all, i as int),
            decreases items@.len() - i,
        {
            let ghost before = utf16::texts(list@);
            assert(all[i as int] == items@[i as int]@);
            if let Some(number) = items[i].as_i64() {
                let shown = i64_text(number);
                let ghost view = shown@;
                list.push(shown);
                assert(utf16::texts(list@) =~= before.push(view));
            }
            i += 1;
        }
    }
    list
}

fn read_deletion(members: &Fields) -> (event: Option<LifecycleEvent>)
    ensures
        match event {
            Some(event) => tells_deletion(event, json::fields(*members)),
            None => reading::chat_conversation(
                json::member(json::fields(*members), "chat"@),
            ) is None,
        },
{
    let conversation = match find_conversation(members.member("chat")) {
        Some(conversation) => conversation,
        None => {
            return None;
        },
    };
    let ids = numbers_at(members, "message_ids");
    let ghost told = utf16::texts(ids@);
    let mut messages: Vec<MessageRef> = Vec::new();
    let mut i: usize = 0;
    while i < ids.len()
        invariant
            i <= ids@.len(),
            told == utf16::texts(ids@),
            are_refs(messages@, told.take(i as int), conversation@),
        decreases ids@.len() - i,
    {
        messages.push(
            MessageRef {
                id: ids[i].clone(),
                conversation: Some(conversation.clone()),
                platform_data: None,
            },
        );
        i += 1;
        assert(told.take(i as int).len() == i);
    }
    assert(told.take(ids@.len() as int) =~= told);
    Some(
        LifecycleEvent::MessagesDeleted { conversation, messages, platform_data: keep(members) },
    )
}

fn same_reaction(
    left: &Reaction,
    right: &Reaction,
    first: Ghost<ReactionView>,
    second: Ghost<ReactionView>,
) -> (result: bool)
    requires
        reading::is_reaction(*left, first@),
        reading::is_reaction(*right, second@),
    ensures
        result == (first@ == second@),
{
    match (left, right) {
        (Reaction::UnicodeEmoji(one), Reaction::UnicodeEmoji(other)) => same(
            one.as_str(),
            other.as_str(),
        ),
        (Reaction::CustomEmoji { id: one, .. }, Reaction::CustomEmoji { id: other, .. }) => same(
            one.as_str(),
            other.as_str(),
        ),
        (Reaction::Paid, Reaction::Paid) => true,
        (
            Reaction::PlatformNative { data: one, .. },
            Reaction::PlatformNative { data: other, .. },
        ) => same(one.as_str(), other.as_str()),
        _ => false,
    }
}

fn among(
    reaction: &Reaction,
    list: &Vec<Reaction>,
    view: Ghost<ReactionView>,
    views: Ghost<Seq<ReactionView>>,
) -> (found: bool)
    requires
        reading::is_reaction(*reaction, view@),
        reading::are_reactions(list@, views@),
    ensures
        found == views@.contains(view@),
{
    let mut i: usize = 0;
    while i < list.len()
        invariant
            i <= list@.len(),
            reading::is_reaction(*reaction, view@),
            reading::are_reactions(list@, views@),
            forall|j: int| 0 <= j < i ==> views@[j] != view@,
        decreases list@.len() - i,
    {
        if same_reaction(reaction, &list[i], view, Ghost(views@[i as int])) {
            assert(views@[i as int] == view@);
            return true;
        }
        i += 1;
    }
    false
}

proof fn lemma_beyond_push(list: Seq<ReactionView>, next: ReactionView, others: Seq<ReactionView>)
    ensures
        beyond(list.push(next), others) == if others.contains(next) {
            beyond(list, others)
        } else {
            beyond(list, others).push(next)
        },
{
    reveal(Seq::filter);
    assert(list.push(next).drop_last() =~= list);
}

fn reactions_at(members: &Fields, key: &str) -> (list: Vec<Reaction>)
    ensures
        reading::are_reactions(list@, reactions_in(json::fields(*members), key@)),
{
    match members.array_at(key) {
        Some(items) => read_reactions(items),
        None => Vec::new(),
    }
}

fn reactions_beyond(members: &Fields, key: &str, other: &str) -> (list: Vec<Reaction>)
    ensures
        reading::are_reactions(
            list@,
            beyond(
                reactions_in(json::fields(*members), key@),
                reactions_in(json::fields(*members), other@),
            ),
        ),
{
    let others = reactions_at(members, other);
    let ghost known = reactions_in(json::fields(*members), other@);
    let mut list: Vec<Reaction> = Vec::new();
    proof {
        reveal(Seq::filter);
        assert(beyond(Seq::empty(), known) =~= Seq::<ReactionView>::empty());
    }
    if let Some(items) = members.array_at(key) {
        let ghost all = json::views(items@);
        let mut i: usize = 0;
        while i < items.len()
            invariant
                i <= items@.len(),
                all == json::views(items@),
                reading::are_reactions(others@, known),
                reading::are_reactions(
                    list@,
                    beyond(reading::reactions_among(all, i as int), known),
                ),
            decreases items@.len() - i,
        {
            let ghost before = list@;
            let ghost done = reading::reactions_among(all, i as int);
            assert(all[i as int] == items@[i as int]@);
            if let Some(reaction) = read_reaction(&items[i]) {
                let ghost view = reading::reaction_of(all[i as int])->0;
                proof {
                    lemma_beyond_push(done, view, known);
                }
                if !among(&reaction, &others, Ghost(view), Ghost(known)) {
                    list.push(reaction);
                    assert forall|j: int| 0 <= j < list@.len() implies reading::is_reaction(
                        #[trigger] list@[j],
                        beyond(done, known).push(view)[j],
                    ) by {
                        if j < before.len() {
                            assert(reading::is_reaction(before[j], beyond(done, known)[j]));
                        }
                    }
                }
            }
            i += 1;
        }
    }
    list
}

fn read_reacted(members: &Fields) -> (event: Option<LifecycleEvent>)
    ensures
        match event {
            Some(event) => tells_reactions(event, json::fields(*members)),
            None => reading::ref_of(json::fields(*members)) is None,
        },
{
    let message = match read_ref(members) {
        Some(message) => message,
        None => {
            return None;
        },
    };
    let change = ReactionChange {
        added: reactions_beyond(members, "new_reaction", "old_reaction"),
        removed: reactions_beyond(members, "old_reaction", "new_reaction"),
        current: Vec::new(),
    };
    let actor = actor_at(members, "user", "actor_chat");
    Some(LifecycleEvent::ReactionsChanged { message, actor, change })
}

fn summaries_at(members: &Fields, key: &str) -> (list: Vec<ReactionSummary>)
    ensures
        reading::are_summaries(
            list@,
            reading::counted(reading::list_in(json::fields(*members), key@)),
        ),
{
    match members.array_at(key) {
        Some(items) => read_summaries(items),
        None => {
            let none: Vec<Json> = Vec::new();
            assert(json::views(none@) =~= Seq::<JsonView>::empty());
            read_summaries(&none)
        },
    }
}

fn read_counts(members: &Fields) -> (event: Option<LifecycleEvent>)
    ensures
        match event {
            Some(event) => tells_counts(event, json::fields(*members)),
            None => reading::ref_of(json::fields(*members)) is None,
        },
{
    let message = match read_ref(members) {
        Some(message) => message,
        None => {
            return None;
        },
    };
    let change = ReactionChange {
        added: Vec::new(),
        removed: Vec::new(),
        current: summaries_at(members, "reactions"),
    };
    Some(LifecycleEvent::ReactionsChanged { message, actor: None, change })
}

fn read_pin(message: &Message, members: &Fields) -> (event: Option<LifecycleEvent>)
    ensures
        fits(event, pin_fact(*message, json::fields(*members))),
{
    match ref_at(members, "pinned_message") {
        Some(pinned) => Some(
            LifecycleEvent::MessagePinned(
                PinnedMessage {
                    message: pinned,
                    pinned_by: read_sender(message),
                    pinned_at: instant(message.date),
                    platform_data: keep(members),
                },
            ),
        ),
        None => None,
    }
}

fn read_topic(
    message: &Message,
    members: &Fields,
    key: &str,
    change: TopicChange,
) -> (event: Option<LifecycleEvent>)
    ensures
        fits(event, topic_fact(*message, json::fields(*members), key@, change)),
{
    let inner = match members.object_at(key) {
        Some(inner) => inner,
        None => {
            return None;
        },
    };
    let number: i64 = match members.i64_at("message_thread_id") {
        Some(number) => number,
        None => {
            return None;
        },
    };
    let made = match change {
        TopicChange::Created => true,
        _ => false,
    };
    let state = match change {
        TopicChange::Closed => ThreadState::Closed,
        _ => ThreadState::Open,
    };
    let thread = Thread {
        conversation: make_topic(number, make_chat(&message.chat), None),
        title: inner.string_at("name"),
        creator: if made {
            read_sender(message)
        } else {
            None
        },
        state,
        created_at: if made {
            instant(message.date)
        } else {
            None
        },
        auto_close_at: None,
        platform_data: keep(inner),
    };
    Some(
        match change {
            TopicChange::Created => LifecycleEvent::ThreadCreated(thread),
            TopicChange::Closed => LifecycleEvent::ThreadClosed(thread),
            _ => LifecycleEvent::ThreadUpdated(thread),
        },
    )
}

fn read_poll(data: &Json) -> (event: Option<LifecycleEvent>)
    ensures
        match event {
            Some(event) => poll::poll_flaw(data@) is None && tells(event, Fact::Polled(data@)),
            None => poll::poll_flaw(data@) is Some,
        },
{
    match telegram_poll(data) {
        Ok(found) => Some(LifecycleEvent::PollUpdated(found)),
        Err(_) => None,
    }
}

fn read_vote(members: &Fields) -> (event: Option<LifecycleEvent>)
    ensures
        match event {
            Some(event) => tells_vote(event, json::fields(*members)),
            None => json::text_in(json::fields(*members), "poll_id"@) is None,
        },
{
    match members.string_at("poll_id") {
        Some(poll_id) => Some(
            LifecycleEvent::PollVoteChanged {
                poll_id,
                user: actor_at(members, "user", "voter_chat"),
                option_ids: numbers_at(members, "option_ids"),
                platform_data: keep(members),
            },
        ),
        None => None,
    }
}

fn read_checklist(message: &Message, members: &Fields, key: &str) -> (event: Option<LifecycleEvent>)
    ensures
        fits(event, checklist_fact(*message, json::fields(*members), key@)),
{
    match members.object_at(key) {
        Some(inner) => Some(
            LifecycleEvent::ChecklistChanged(
                ChecklistChange {
                    message: ref_at(inner, "checklist_message"),
                    added_tasks: tasks_at(inner, "tasks"),
                    completed_task_ids: numbers_at(inner, "marked_as_done_task_ids"),
                    reopened_task_ids: numbers_at(inner, "marked_as_not_done_task_ids"),
                    actor: read_sender(message),
                    platform_data: keep(inner),
                },
            ),
        ),
        None => None,
    }
}

fn member_at(members: &Fields, key: &str, user: &TelegramUser) -> (member: Option<
    ConversationMember,
>)
    ensures
        is_member(member, json::member(json::fields(*members), key@), *user),
{
    match members.member(key) {
        Some(value) => match telegram_conversation_member(value, user) {
            Ok(member) => Some(member),
            Err(_) => None,
        },
        None => None,
    }
}

fn read_member(update: &ChatMemberUpdated, members: &Fields) -> (event: Option<LifecycleEvent>)
    ensures
        fits(event, member_fact(*update, json::fields(*members))),
{
    match member_at(members, "new_chat_member", &update.new_chat_member.user) {
        Some(new_member) => Some(
            LifecycleEvent::MemberUpdated {
                conversation: make_chat(&update.chat),
                old_member: member_at(
                    members,
                    "old_chat_member",
                    &update.old_chat_member.user,
                ),
                new_member,
            },
        ),
        None => None,
    }
}

fn read_joining(request: &ChatJoinRequest, data: &Json) -> (event: LifecycleEvent)
    ensures
        tells_joining(event, *request, data@),
{
    LifecycleEvent::JoinRequested(
        JoinRequest {
            id: join_request_id(request.chat.id, request.from.id),
            conversation: make_chat(&request.chat),
            user: parse_user(&request.from),
            message: match &request.bio {
                Some(bio) => Some(bio.clone()),
                None => None,
            },
            requested_at: instant(request.date),
            platform_data: Some(make_native(data.clone())),
        },
    )
}

fn read_query(members: &Fields) -> (event: Option<LifecycleEvent>)
    ensures
        match event {
            Some(event) => tells_query(event, json::fields(*members)),
            None => !(has_texts(json::fields(*members), "id"@, "query"@) && reading::user_in(
                json::fields(*members),
                "from"@,
            ) is Some),
        },
{
    let id: String = match members.string_at("id") {
        Some(id) => id,
        None => {
            return None;
        },
    };
    let query: String = match members.string_at("query") {
        Some(query) => query,
        None => {
            return None;
        },
    };
    let user = match user_at(members, "from") {
        Some(user) => user,
        None => {
            return None;
        },
    };
    let cursor = match members.string_at("offset") {
        Some(offset) => if text::chars_of(offset.as_str()).len() == 0 {
            None
        } else {
            Some(offset)
        },
        None => None,
    };
    Some(
        LifecycleEvent::SuggestionRequested(
            SuggestionQuery { id, query, user, cursor, platform_data: keep(members) },
        ),
    )
}

fn read_choice(members: &Fields) -> (event: Option<LifecycleEvent>)
    ensures
        match event {
            Some(event) => tells_choice(event, json::fields(*members)),
            None => !(json::text_in(json::fields(*members), "result_id"@) is Some
                && reading::user_in(json::fields(*members), "from"@) is Some),
        },
{
    let result_id: String = match members.string_at("result_id") {
        Some(id) => id,
        None => {
            return None;
        },
    };
    let user = match user_at(members, "from") {
        Some(user) => user,
        None => {
            return None;
        },
    };
    Some(
        LifecycleEvent::SuggestionSelected(
            SuggestionSelection {
                result_id,
                query: members.string_at("query"),
                user,
                message_id: members.string_at("inline_message_id"),
                platform_data: keep(members),
            },
        ),
    )
}

fn read_mini_app(message: &Message, members: &Fields) -> (event: Option<LifecycleEvent>)
    ensures
        fits(event, mini_app_fact(*message, json::fields(*members))),
{
    let inner = match members.object_at("web_app_data") {
        Some(inner) => inner,
        None => {
            return None;
        },
    };
    match read_sender(message) {
        Some(user) => Some(
            LifecycleEvent::MiniApp(
                MiniAppEvent {
                    user,
                    conversation: find_place(message, members),
                    data: Json::object(inner.clone()),
                    platform_data: keep(members),
                },
            ),
        ),
        None => None,
    }
}

fn read_shipping(members: &Fields) -> (event: Option<LifecycleEvent>)
    ensures
        match event {
            Some(event) => tells_shipping(event, json::fields(*members)),
            None => !(has_texts(json::fields(*members), "id"@, "invoice_payload"@)
                && reading::user_in(json::fields(*members), "from"@) is Some),
        },
{
    let id: String = match members.string_at("id") {
        Some(id) => id,
        None => {
            return None;
        },
    };
    let invoice_payload: String = match members.string_at("invoice_payload") {
        Some(payload) => payload,
        None => {
            return None;
        },
    };
    let user = match user_at(members, "from") {
        Some(user) => user,
        None => {
            return None;
        },
    };
    let address = match members.member("shipping_address") {
        Some(address) => address.clone(),
        None => Json::null(),
    };
    Some(
        LifecycleEvent::ShippingRequested(
            ShippingRequest { id, user, invoice_payload, address, platform_data: keep(members) },
        ),
    )
}

fn read_total(members: &Fields) -> (money: Option<Money>)
    ensures
        match money {
            Some(money) => is_total(money, json::fields(*members)),
            None => !has_total(json::fields(*members)),
        },
{
    let currency: String = match members.string_at("currency") {
        Some(currency) => currency,
        None => {
            return None;
        },
    };
    match members.i64_at("total_amount") {
        Some(amount) => Some(Money { currency, amount }),
        None => None,
    }
}

fn read_customer(members: &Fields) -> (details: CustomerDetails)
    ensures
        is_customer(details, order_of(json::fields(*members))),
{
    let none = Fields::none();
    let order = match members.object_at("order_info") {
        Some(order) => order,
        None => &none,
    };
    let shipping_address = match order.member("shipping_address") {
        Some(address) => Some(address.clone()),
        None => None,
    };
    CustomerDetails {
        name: order.string_at("name"),
        email: order.string_at("email"),
        phone: order.string_at("phone_number"),
        shipping_address,
    }
}

fn read_checkout(members: &Fields) -> (event: Option<LifecycleEvent>)
    ensures
        match event {
            Some(event) => tells_checkout(event, json::fields(*members)),
            None => !(has_texts(json::fields(*members), "id"@, "invoice_payload"@)
                && reading::user_in(json::fields(*members), "from"@) is Some && has_total(
                json::fields(*members),
            )),
        },
{
    let id: String = match members.string_at("id") {
        Some(id) => id,
        None => {
            return None;
        },
    };
    let invoice_payload: String = match members.string_at("invoice_payload") {
        Some(payload) => payload,
        None => {
            return None;
        },
    };
    let user = match user_at(members, "from") {
        Some(user) => user,
        None => {
            return None;
        },
    };
    let total = match read_total(members) {
        Some(total) => total,
        None => {
            return None;
        },
    };
    Some(
        LifecycleEvent::CheckoutRequested(
            CheckoutRequest {
                id,
                user,
                invoice_payload,
                total,
                customer_details: read_customer(members),
                platform_data: keep(members),
            },
        ),
    )
}

fn read_payment(
    message: &Message,
    members: &Fields,
    key: &str,
    status: PaymentStatus,
) -> (event: Option<LifecycleEvent>)
    ensures
        fits(event, payment_fact(*message, json::fields(*members), key@, status)),
{
    let inner = match members.object_at(key) {
        Some(inner) => inner,
        None => {
            return None;
        },
    };
    let id: String = match inner.string_at("telegram_payment_charge_id") {
        Some(id) => id,
        None => {
            return None;
        },
    };
    let total = match read_total(inner) {
        Some(total) => total,
        None => {
            return None;
        },
    };
    Some(
        LifecycleEvent::PaymentUpdated(
            Payment {
                id,
                invoice_id: inner.string_at("invoice_payload"),
                payer: read_sender(message),
                conversation: find_place(message, members),
                total,
                status,
                occurred_at: instant(message.date),
                platform_data: keep(inner),
            },
        ),
    )
}

fn read_message(message: &Message, raw: &Json) -> (events: Vec<LifecycleEvent>)
    ensures
        all_told(events@, message_facts(*message, raw@)),
{
    let fields = copy_members(raw);
    let ghost members = json::fields(fields);
    let mut events: Vec<LifecycleEvent> = Vec::new();
    let envelope = telegram_message_envelope(message, raw.clone());
    let ghost there = Fact::Created(*message, raw@);
    add_event(
        &mut events,
        Some(LifecycleEvent::MessageCreated(envelope)),
        Ghost(Seq::empty()),
        Ghost(Some(there)),
    );
    let ghost f0 = seq![there];
    assert(and_fact(Seq::empty(), Some(there)) =~= f0);
    let ghost pinned = pin_fact(*message, members);
    add_event(&mut events, read_pin(message, &fields), Ghost(f0), Ghost(pinned));
    let ghost f1 = and_fact(f0, pinned);
    let ghost made = topic_fact(*message, members, "forum_topic_created"@, TopicChange::Created);
    add_event(
        &mut events,
        read_topic(message, &fields, "forum_topic_created", TopicChange::Created),
        Ghost(f1),
        Ghost(made),
    );
    let ghost f2 = and_fact(f1, made);
    let ghost edited = topic_fact(*message, members, "forum_topic_edited"@, TopicChange::Edited);
    add_event(
        &mut events,
        read_topic(message, &fields, "forum_topic_edited", TopicChange::Edited),
        Ghost(f2),
        Ghost(edited),
    );
    let ghost f3 = and_fact(f2, edited);
    let ghost closed = topic_fact(*message, members, "forum_topic_closed"@, TopicChange::Closed);
    add_event(
        &mut events,
        read_topic(message, &fields, "forum_topic_closed", TopicChange::Closed),
        Ghost(f3),
        Ghost(closed),
    );
    let ghost f4 = and_fact(f3, closed);
    let ghost opened = topic_fact(
        *message,
        members,
        "forum_topic_reopened"@,
        TopicChange::Reopened,
    );
    add_event(
        &mut events,
        read_topic(message, &fields, "forum_topic_reopened", TopicChange::Reopened),
        Ghost(f4),
        Ghost(opened),
    );
    let ghost f5 = and_fact(f4, opened);
    let ghost done = checklist_fact(*message, members, "checklist_tasks_done"@);
    add_event(
        &mut events,
        read_checklist(message, &fields, "checklist_tasks_done"),
        Ghost(f5),
        Ghost(done),
    );
    let ghost f6 = and_fact(f5, done);
    let ghost added = checklist_fact(*message, members, "checklist_tasks_added"@);
    add_event(
        &mut events,
        read_checklist(message, &fields, "checklist_tasks_added"),
        Ghost(f6),
        Ghost(added),
    );
    let ghost f7 = and_fact(f6, added);
    let ghost sent = mini_app_fact(*message, members);
    add_event(&mut events, read_mini_app(message, &fields), Ghost(f7), Ghost(sent));
    let ghost f8 = and_fact(f7, sent);
    let ghost paid = payment_fact(*message, members, "successful_payment"@, PaymentStatus::Paid);
    add_event(
        &mut events,
        read_payment(message, &fields, "successful_payment", PaymentStatus::Paid),
        Ghost(f8),
        Ghost(paid),
    );
    let ghost f9 = and_fact(f8, paid);
    let ghost back = payment_fact(*message, members, "refunded_payment"@, PaymentStatus::Refunded);
    add_event(
        &mut events,
        read_payment(message, &fields, "refunded_payment", PaymentStatus::Refunded),
        Ghost(f9),
        Ghost(back),
    );
    events
}

fn read_document(happening: Happening, decoded: &Decoded, data: &Json) -> (event: Option<
    LifecycleEvent,
>)
    ensures
        fits(event, document_fact(happening, *decoded, data@)),
{
    let members = copy_members(data);
    match happening {
        Happening::Deletion => read_deletion(&members),
        Happening::Reaction => read_reacted(&members),
        Happening::ReactionCount => read_counts(&members),
        Happening::Poll => read_poll(data),
        Happening::Vote => read_vote(&members),
        Happening::Member => match decoded {
            Decoded::Member(update) => read_member(update, &members),
            _ => None,
        },
        Happening::JoinRequest => match decoded {
            Decoded::JoinRequest(request) => Some(read_joining(request, data)),
            _ => None,
        },
        Happening::Query => read_query(&members),
        Happening::Choice => read_choice(&members),
        Happening::Shipping => read_shipping(&members),
        Happening::Checkout => read_checkout(&members),
        Happening::Subscription => Some(
            LifecycleEvent::PlatformNative(make_native(data.clone())),
        ),
        _ => None,
    }
}

/// What an update tells, given what its document was read as. An update of
/// another kind tells nothing here, and so does one that lacks what its event
/// would have to say.
pub fn lifecycle_events(update: &Update, decoded: &Decoded) -> (events: Vec<LifecycleEvent>)
    ensures
        all_told(events@, update_facts(*update, *decoded)),
{
    let happening = match update.kind() {
        Some(kind) => find_happening(kind),
        None => {
            return Vec::new();
        },
    };
    let data = match update.value() {
        Some(value) => value,
        None => {
            return Vec::new();
        },
    };
    match (happening, decoded) {
        (Happening::NewMessage, Decoded::Message(message)) => read_message(message, data),
        (Happening::EditedMessage, Decoded::Message(message)) => {
            let envelope = telegram_message_envelope(message, data.clone());
            let mut events: Vec<LifecycleEvent> = Vec::new();
            events.push(LifecycleEvent::MessageUpdated(envelope));
            events
        },
        (happening, decoded) => {
            let mut events: Vec<LifecycleEvent> = Vec::new();
            let ghost fact = document_fact(happening, *decoded, data@);
            let event = read_document(happening, decoded, data);
            add_event(&mut events, event, Ghost(Seq::empty()), Ghost(fact));
            events
        },
    }
}

// ---------------------------------------------------------------------------
// Laws
// ---------------------------------------------------------------------------

/// Every new message is told first, with its envelope, whatever else it tells.
pub proof fn law_messages_are_enveloped(update: Update, message: Message)
    requires
        client::update_kind(update.data) matches Some(kind) && happening_of(kind)
            == Happening::NewMessage,
    ensures
        ({
            let kind = client::update_kind(update.data)->0;
            let facts = update_facts(update, Decoded::Message(message));
            &&& facts.len() > 0
            &&& facts[0] == Fact::Created(message, json::fields(update.data)[kind])
        }),
{
}

/// A reaction counts as added where it stands after the change and did not
/// before, and as removed where it stood before and does not after: so none is
/// both.
pub proof fn law_reactions_are_told_apart(
    before: Seq<ReactionView>,
    after: Seq<ReactionView>,
    reaction: ReactionView,
)
    ensures
        beyond(after, before).contains(reaction) <==> after.contains(reaction) && !before.contains(
            reaction,
        ),
        beyond(before, after).contains(reaction) <==> before.contains(reaction) && !after.contains(
            reaction,
        ),
        !(beyond(after, before).contains(reaction) && beyond(before, after).contains(reaction)),
{
    lemma_beyond(after, before, reaction);
    lemma_beyond(before, after, reaction);
}

proof fn lemma_beyond(list: Seq<ReactionView>, others: Seq<ReactionView>, reaction: ReactionView)
    ensures
        beyond(list, others).contains(reaction) <==> list.contains(reaction) && !others.contains(
            reaction,
        ),
    decreases list.len(),
{
    if list.len() == 0 {
        reveal(Seq::filter);
        assert(beyond(list, others) =~= Seq::<ReactionView>::empty());
    } else {
        let start = list.drop_last();
        let kept = beyond(start, others);
        assert(start.push(list.last()) =~= list);
        lemma_beyond_push(start, list.last(), others);
        lemma_beyond(start, others, reaction);
        lemma_push_contains(start, list.last(), reaction);
        lemma_push_contains(kept, list.last(), reaction);
    }
}

proof fn lemma_push_contains(list: Seq<ReactionView>, last: ReactionView, item: ReactionView)
    ensures
        list.push(last).contains(item) <==> list.contains(item) || item == last,
{
    if list.contains(item) {
        let i = list.index_of(item);
        assert(list.push(last)[i] == item);
    }
    if item == last {
        assert(list.push(last)[list.len() as int] == item);
    }
}

/// What has an event of its own among the others is told here too, and as the
/// same: messages, edits, reactions, members and requests to join.
pub proof fn law_kinds_agree(name: Seq<char>)
    ensures
        event::kind_of(name) == UpdateKind::NewMessage ==> happening_of(name)
            == Happening::NewMessage,
        event::kind_of(name) == UpdateKind::EditedMessage ==> happening_of(name)
            == Happening::EditedMessage,
        event::kind_of(name) == UpdateKind::Reaction ==> happening_of(name) == Happening::Reaction,
        event::kind_of(name) == UpdateKind::Member ==> happening_of(name) == Happening::Member,
        event::kind_of(name) == UpdateKind::JoinRequest ==> happening_of(name)
            == Happening::JoinRequest,
{
    lemma_names();
}

proof fn lemma_names()
    ensures
        "message"@.len() == 7,
        "channel_post"@.len() == 12,
        "business_message"@.len() == 16,
        "guest_message"@.len() == 13,
        "edited_message"@.len() == 14,
        "edited_channel_post"@.len() == 19,
        "edited_business_message"@.len() == 23,
        "deleted_business_messages"@.len() == 25,
        "message_reaction"@.len() == 16,
        "message_reaction_count"@.len() == 22,
        "poll"@.len() == 4,
        "poll_answer"@.len() == 11,
        "my_chat_member"@.len() == 14,
        "chat_member"@.len() == 11,
        "chat_join_request"@.len() == 17,
        "business_message"@[0] == 'b',
        "message_reaction"@[0] == 'm',
        "edited_message"@[0] == 'e',
        "my_chat_member"@[0] == 'm',
        "poll_answer"@[0] == 'p',
        "chat_member"@[0] == 'c',
{
    reveal_strlit("message");
    reveal_strlit("channel_post");
    reveal_strlit("business_message");
    reveal_strlit("guest_message");
    reveal_strlit("edited_message");
    reveal_strlit("edited_channel_post");
    reveal_strlit("edited_business_message");
    reveal_strlit("deleted_business_messages");
    reveal_strlit("message_reaction");
    reveal_strlit("message_reaction_count");
    reveal_strlit("poll");
    reveal_strlit("poll_answer");
    reveal_strlit("my_chat_member");
    reveal_strlit("chat_member");
    reveal_strlit("chat_join_request");
}

// ---------------------------------------------------------------------------
// What the events tell
// ---------------------------------------------------------------------------

proof fn lemma_happening_names()
    ensures
        "message"@.len() == 7,
        "channel_post"@.len() == 12,
        "business_message"@.len() == 16,
        "guest_message"@.len() == 13,
        "edited_message"@.len() == 14,
        "edited_channel_post"@.len() == 19,
        "edited_business_message"@.len() == 23,
        "deleted_business_messages"@.len() == 25,
        "message_reaction"@.len() == 16,
        "message_reaction_count"@.len() == 22,
        "poll"@.len() == 4,
        "poll_answer"@.len() == 11,
        "my_chat_member"@.len() == 14,
        "chat_member"@.len() == 11,
        "chat_join_request"@.len() == 17,
        "inline_query"@.len() == 12,
        "chosen_inline_result"@.len() == 20,
        "shipping_query"@.len() == 14,
        "pre_checkout_query"@.len() == 18,
        "subscription"@.len() == 12,
        "channel_post"@ != "inline_query"@,
        "channel_post"@ != "subscription"@,
        "business_message"@ != "message_reaction"@,
        "edited_message"@ != "my_chat_member"@,
        "edited_message"@ != "shipping_query"@,
        "poll_answer"@ != "chat_member"@,
        "my_chat_member"@ != "shipping_query"@,
        "inline_query"@ != "subscription"@,
{
    reveal_strlit("message");
    reveal_strlit("channel_post");
    reveal_strlit("business_message");
    reveal_strlit("guest_message");
    reveal_strlit("edited_message");
    reveal_strlit("edited_channel_post");
    reveal_strlit("edited_business_message");
    reveal_strlit("deleted_business_messages");
    reveal_strlit("message_reaction");
    reveal_strlit("message_reaction_count");
    reveal_strlit("poll");
    reveal_strlit("poll_answer");
    reveal_strlit("my_chat_member");
    reveal_strlit("chat_member");
    reveal_strlit("chat_join_request");
    reveal_strlit("inline_query");
    reveal_strlit("chosen_inline_result");
    reveal_strlit("shipping_query");
    reveal_strlit("pre_checkout_query");
    reveal_strlit("subscription");
    assert("channel_post"@[0] != "inline_query"@[0]);
    assert("channel_post"@[0] != "subscription"@[0]);
    assert("business_message"@[0] != "message_reaction"@[0]);
    assert("edited_message"@[0] != "my_chat_member"@[0]);
    assert("edited_message"@[0] != "shipping_query"@[0]);
    assert("poll_answer"@[0] != "chat_member"@[0]);
    assert("my_chat_member"@[0] != "shipping_query"@[0]);
    assert("inline_query"@[0] != "subscription"@[0]);
}

/// A document about one thing that happened gives at most one event, of the
/// sort that its name says, and any event is told by the document that it came
/// with.
pub proof fn law_happenings_are_told_by_name(
    update: Update,
    decoded: Decoded,
    events: Seq<LifecycleEvent>,
    name: Seq<char>,
    i: int,
)
    requires
        client::update_kind(update.data) == Some(name),
        all_told(events, update_facts(update, decoded)),
        0 <= i < events.len(),
    ensures
        name == "edited_message"@ || name == "edited_channel_post"@ || name
            == "edited_business_message"@ ==> events.len() == 1 && events[i] is MessageUpdated,
        name == "deleted_business_messages"@ ==> events.len() == 1 && events[i] is MessagesDeleted,
        name == "message_reaction"@ || name == "message_reaction_count"@ ==> events.len() == 1
            && events[i] is ReactionsChanged,
        name == "poll"@ ==> events.len() == 1 && events[i] is PollUpdated,
        name == "poll_answer"@ ==> events.len() == 1 && events[i] is PollVoteChanged,
        name == "my_chat_member"@ || name == "chat_member"@ ==> events.len() == 1
            && events[i] is MemberUpdated,
        name == "chat_join_request"@ ==> events.len() == 1 && events[i] is JoinRequested,
        name == "inline_query"@ ==> events.len() == 1 && events[i] is SuggestionRequested,
        name == "chosen_inline_result"@ ==> events.len() == 1 && events[i] is SuggestionSelected,
        name == "shipping_query"@ ==> events.len() == 1 && events[i] is ShippingRequested,
        name == "pre_checkout_query"@ ==> events.len() == 1 && events[i] is CheckoutRequested,
        name == "subscription"@ ==> events.len() == 1 && events[i] is PlatformNative,
        name == "message"@ || name == "channel_post"@ || name == "business_message"@ || name
            == "guest_message"@ ==> (events[i] is MessageCreated <==> i == 0),
{
    let facts = update_facts(update, decoded);
    assert(tells(events[i], facts[i]));
    lemma_happening_names();
    if happening_of(name) is NewMessage && decoded is Message {
        lemma_orderly(decoded->Message_0, json::fields(update.data)[name]);
        lemma_told_in_order(events, facts, i);
    } else {
        lemma_other_facts(update, decoded, name);
        lemma_told_by_sort(events[i], facts[i]);
    }
}

/// The message comes first, and nothing after it tells of a message.
spec fn orderly(facts: Seq<Fact>) -> bool {
    &&& facts.len() > 0
    &&& facts[0] is Created
    &&& forall|i: int|
        0 < i < facts.len() ==> !(#[trigger] facts[i] is Created) && !(facts[i] is Updated)
}

proof fn lemma_stays_orderly(facts: Seq<Fact>, more: Option<Fact>)
    requires
        orderly(facts),
        more matches Some(fact) ==> !(fact is Created) && !(fact is Updated),
    ensures
        orderly(and_fact(facts, more)),
        and_fact(facts, more)[0] == facts[0],
{
}

proof fn lemma_orderly(message: Message, raw: JsonView)
    ensures
        orderly(message_facts(message, raw)),
        message_facts(message, raw)[0] == Fact::Created(message, raw),
{
    let members = envelope::members_of(raw);
    let there = seq![Fact::Created(message, raw)];
    let a = pin_fact(message, members);
    let b = topic_fact(message, members, "forum_topic_created"@, TopicChange::Created);
    let c = topic_fact(message, members, "forum_topic_edited"@, TopicChange::Edited);
    let d = topic_fact(message, members, "forum_topic_closed"@, TopicChange::Closed);
    let e = topic_fact(message, members, "forum_topic_reopened"@, TopicChange::Reopened);
    let f = checklist_fact(message, members, "checklist_tasks_done"@);
    let g = checklist_fact(message, members, "checklist_tasks_added"@);
    let h = mini_app_fact(message, members);
    let j = payment_fact(message, members, "successful_payment"@, PaymentStatus::Paid);
    let k = payment_fact(message, members, "refunded_payment"@, PaymentStatus::Refunded);
    let s1 = and_fact(there, a);
    let s2 = and_fact(s1, b);
    let s3 = and_fact(s2, c);
    let s4 = and_fact(s3, d);
    let s5 = and_fact(s4, e);
    let s6 = and_fact(s5, f);
    let s7 = and_fact(s6, g);
    let s8 = and_fact(s7, h);
    let s9 = and_fact(s8, j);
    lemma_stays_orderly(there, a);
    lemma_stays_orderly(s1, b);
    lemma_stays_orderly(s2, c);
    lemma_stays_orderly(s3, d);
    lemma_stays_orderly(s4, e);
    lemma_stays_orderly(s5, f);
    lemma_stays_orderly(s6, g);
    lemma_stays_orderly(s7, h);
    lemma_stays_orderly(s8, j);
    lemma_stays_orderly(s9, k);
}

proof fn lemma_told_in_order(events: Seq<LifecycleEvent>, facts: Seq<Fact>, i: int)
    requires
        orderly(facts),
        all_told(events, facts),
        0 <= i < events.len(),
    ensures
        events[i] is MessageCreated <==> i == 0,
        events[0] is MessageCreated,
{
    assert(tells(events[i], facts[i]));
    assert(tells(events[0], facts[0]));
}

proof fn lemma_told_by_sort(event: LifecycleEvent, fact: Fact)
    requires
        tells(event, fact),
    ensures
        fact is Updated ==> event is MessageUpdated,
        fact is Deleted ==> event is MessagesDeleted,
        fact is Reacted || fact is Counted ==> event is ReactionsChanged,
        fact is Polled ==> event is PollUpdated,
        fact is Voted ==> event is PollVoteChanged,
        fact is Member ==> event is MemberUpdated,
        fact is Joining ==> event is JoinRequested,
        fact is Queried ==> event is SuggestionRequested,
        fact is Chosen ==> event is SuggestionSelected,
        fact is Shipping ==> event is ShippingRequested,
        fact is Checkout ==> event is CheckoutRequested,
        fact is Native ==> event is PlatformNative,
{
}

proof fn lemma_other_facts(update: Update, decoded: Decoded, name: Seq<char>)
    requires
        client::update_kind(update.data) == Some(name),
        !(happening_of(name) is NewMessage && decoded is Message),
        update_facts(update, decoded).len() > 0,
    ensures
        ({
            let facts = update_facts(update, decoded);
            let happening = happening_of(name);
            &&& facts.len() == 1
            &&& happening is EditedMessage ==> facts[0] is Updated
            &&& happening is Deletion ==> facts[0] is Deleted
            &&& happening is Reaction ==> facts[0] is Reacted
            &&& happening is ReactionCount ==> facts[0] is Counted
            &&& happening is Poll ==> facts[0] is Polled
            &&& happening is Vote ==> facts[0] is Voted
            &&& happening is Member ==> facts[0] is Member
            &&& happening is JoinRequest ==> facts[0] is Joining
            &&& happening is Query ==> facts[0] is Queried
            &&& happening is Choice ==> facts[0] is Chosen
            &&& happening is Shipping ==> facts[0] is Shipping
            &&& happening is Checkout ==> facts[0] is Checkout
            &&& happening is Subscription ==> facts[0] is Native
            &&& !(happening is NewMessage)
        }),
{
}

/// New messages come first of what they tell, with the message itself.
pub proof fn law_edits_and_posts_tell_the_message(
    update: Update,
    message: Message,
    events: Seq<LifecycleEvent>,
    name: Seq<char>,
)
    requires
        client::update_kind(update.data) == Some(name),
        all_told(events, update_facts(update, Decoded::Message(message))),
    ensures
        name == "message"@ || name == "channel_post"@ || name == "business_message"@ || name
            == "guest_message"@ ==> events.len() > 0 && (events[0] matches LifecycleEvent::MessageCreated(
            own,
        ) && envelope::is_envelope(own, message, json::fields(update.data)[name])),
        name == "edited_message"@ || name == "edited_channel_post"@ || name
            == "edited_business_message"@ ==> events.len() == 1 && (
        events[0] matches LifecycleEvent::MessageUpdated(own) && envelope::is_envelope(
            own,
            message,
            json::fields(update.data)[name],
        )),
{
    lemma_happening_names();
    let facts = update_facts(update, Decoded::Message(message));
    if happening_of(name) is NewMessage {
        lemma_orderly(message, json::fields(update.data)[name]);
        assert(tells(events[0], facts[0]));
    } else if happening_of(name) is EditedMessage {
        assert(tells(events[0], facts[0]));
    }
}

/// A reaction that is new is told as added, one that is gone as removed, and
/// one that stayed as neither; and turned round, what was added is removed.
pub proof fn law_reactions_are_told_as_they_changed(
    update: Update,
    decoded: Decoded,
    events: Seq<LifecycleEvent>,
    members: Map<Seq<char>, JsonView>,
    reaction: ReactionView,
)
    requires
        client::update_kind(update.data) == Some("message_reaction"@),
        json::fields(update.data)["message_reaction"@] == JsonView::Object(members),
        all_told(events, update_facts(update, decoded)),
        reading::ref_of(members) is Some,
    ensures
        events.len() == 1,
        ({
            let before = reactions_in(members, "old_reaction"@);
            let after = reactions_in(members, "new_reaction"@);
            &&& events[0] matches LifecycleEvent::ReactionsChanged { message, actor, change }
            &&& json::i64_in(members, "message_id"@) is Some
            &&& text::i64_value(message.id@) == json::i64_in(members, "message_id"@)
            &&& after.contains(reaction) && !before.contains(reaction) <==> exists|i: int|
                0 <= i < change.added@.len() && reading::is_reaction(
                    #[trigger] change.added@[i],
                    reaction,
                ) && reaction == beyond(after, before)[i]
            &&& before.contains(reaction) && !after.contains(reaction) <==> exists|i: int|
                0 <= i < change.removed@.len() && reading::is_reaction(
                    #[trigger] change.removed@[i],
                    reaction,
                ) && reaction == beyond(before, after)[i]
        }),
{
    lemma_happening_names();
    assert(tells(events[0], update_facts(update, decoded)[0]));
    let before = reactions_in(members, "old_reaction"@);
    let after = reactions_in(members, "new_reaction"@);
    law_reactions_are_told_apart(before, after, reaction);
    text::lemma_decimal_round_trip(json::i64_in(members, "message_id"@)->0 as int);
    let change = events[0]->ReactionsChanged_change;
    let new = beyond(after, before);
    let gone = beyond(before, after);
    if new.contains(reaction) {
        let i = choose|i: int| 0 <= i < new.len() && new[i] == reaction;
        assert(reading::is_reaction(change.added@[i], new[i]));
    }
    if gone.contains(reaction) {
        let i = choose|i: int| 0 <= i < gone.len() && gone[i] == reaction;
        assert(reading::is_reaction(change.removed@[i], gone[i]));
    }
}

/// A poll is told as it stands: closed where it is closed, a quiz where it is
/// one, and with its settings.
pub proof fn law_polls_are_told_as_they_stand(
    update: Update,
    decoded: Decoded,
    events: Seq<LifecycleEvent>,
    members: Map<Seq<char>, JsonView>,
)
    requires
        client::update_kind(update.data) == Some("poll"@),
        json::fields(update.data)["poll"@] == JsonView::Object(members),
        all_told(events, update_facts(update, decoded)),
        poll::poll_flaw(JsonView::Object(members)) is None,
    ensures
        events.len() == 1,
        events[0] matches LifecycleEvent::PollUpdated(own) && json::optional_chars(own.id)
            == json::text_in(members, "id"@) && json::text_in(members, "question"@) == Some(
            own.question.text@,
        ) && (own.closed <==> json::bool_in(members, "is_closed"@) == Some(true)) && (
        own.kind is Quiz <==> json::text_in(members, "type"@) == Some("quiz"@)) && (
        json::text_in(members, "type"@) == Some("regular"@) ==> own.kind is Regular)
            && own.anonymous == json::bool_in(members, "is_anonymous"@) && (
        own.allows_multiple_answers <==> json::bool_in(members, "allows_multiple_answers"@) == Some(
            true,
        )) && own.total_voter_count == json::u64_in(members, "total_voter_count"@)
            && own.allows_revoting == json::bool_in(members, "allows_revoting"@)
            && own.members_only == json::bool_in(members, "members_only"@),
{
    lemma_happening_names();
    reveal_strlit("regular");
    reveal_strlit("quiz");
    assert("regular"@.len() == 7 && "quiz"@.len() == 4);
    assert(tells(events[0], update_facts(update, decoded)[0]));
}

/// A vote is told by its poll and by the options that were chosen; where all of
/// these are numbers, each of them is there, in its place.
pub proof fn law_votes_are_told(
    update: Update,
    decoded: Decoded,
    events: Seq<LifecycleEvent>,
    members: Map<Seq<char>, JsonView>,
)
    requires
        client::update_kind(update.data) == Some("poll_answer"@),
        json::fields(update.data)["poll_answer"@] == JsonView::Object(members),
        all_told(events, update_facts(update, decoded)),
        json::text_in(members, "poll_id"@) is Some,
    ensures
        events.len() == 1,
        events[0] matches LifecycleEvent::PollVoteChanged { poll_id, user, option_ids, .. }
            && json::text_in(members, "poll_id"@) == Some(poll_id@) && (json::array_in(
            members,
            "option_ids"@,
        ) matches Some(items) ==> ((forall|i: int|
            0 <= i < items.len() ==> json::i64_of(#[trigger] items[i]) is Some) ==> (
        option_ids@.len() == items.len() && forall|i: int|
            0 <= i < items.len() ==> text::i64_value((#[trigger] option_ids@[i])@) == json::i64_of(
                items[i],
            )))) && (json::object_in(members, "user"@) matches Some(own) ==> (json::i64_in(
            own,
            "id"@,
        ) matches Some(id) ==> (user matches Some(voter) && text::i64_value(voter.id@) == Some(id)))),
{
    lemma_happening_names();
    assert(tells(events[0], update_facts(update, decoded)[0]));
    let items = reading::list_in(members, "option_ids"@);
    let option_ids = events[0]->PollVoteChanged_option_ids;
    if forall|i: int| 0 <= i < items.len() ==> json::i64_of(#[trigger] items[i]) is Some {
        lemma_numbers_kept(items, items.len() as int);
        let read = numbers(items, items.len() as int);
        assert forall|i: int| 0 <= i < items.len() implies text::i64_value(
            (#[trigger] option_ids@[i])@,
        ) == json::i64_of(items[i]) by {
            assert(utf16::texts(option_ids@)[i] == option_ids@[i]@);
            assert(read[i] == text::decimal(json::i64_of(items[i])->0 as int));
            text::lemma_decimal_round_trip(json::i64_of(items[i])->0 as int);
        }
        assert(utf16::texts(option_ids@).len() == option_ids@.len());
    }
    if let Some(own) = json::object_in(members, "user"@) {
        if let Some(id) = json::i64_in(own, "id"@) {
            text::lemma_decimal_round_trip(id as int);
        }
    }
}

proof fn lemma_numbers_kept(items: Seq<JsonView>, n: int)
    requires
        0 <= n <= items.len(),
        forall|i: int| 0 <= i < n ==> json::i64_of(#[trigger] items[i]) is Some,
    ensures
        numbers(items, n).len() == n,
        forall|i: int|
            0 <= i < n ==> #[trigger] numbers(items, n)[i] == text::decimal(
                json::i64_of(items[i])->0 as int,
            ),
    decreases n,
{
    if n > 0 {
        lemma_numbers_kept(items, n - 1);
        assert(json::i64_of(items[n - 1]) is Some);
    }
}

/// Messages that were deleted are named by their chat and, where all of them
/// are numbers, by each of their numbers.
pub proof fn law_deletions_are_told(
    update: Update,
    decoded: Decoded,
    events: Seq<LifecycleEvent>,
    members: Map<Seq<char>, JsonView>,
    chat: Map<Seq<char>, JsonView>,
    id: i64,
)
    requires
        client::update_kind(update.data) == Some("deleted_business_messages"@),
        json::fields(update.data)["deleted_business_messages"@] == JsonView::Object(members),
        all_told(events, update_facts(update, decoded)),
        json::object_in(members, "chat"@) == Some(chat),
        json::i64_in(chat, "id"@) == Some(id),
    ensures
        events.len() == 1,
        events[0] matches LifecycleEvent::MessagesDeleted { conversation, messages, .. }
            && text::i64_value(conversation.id@) == Some(id) && (json::array_in(
            members,
            "message_ids"@,
        ) matches Some(items) ==> ((forall|i: int|
            0 <= i < items.len() ==> json::i64_of(#[trigger] items[i]) is Some) ==> (
        messages@.len() == items.len() && forall|i: int|
            0 <= i < items.len() ==> text::i64_value((#[trigger] messages@[i]).id@) == json::i64_of(
                items[i],
            )))),
{
    lemma_happening_names();
    assert(tells(events[0], update_facts(update, decoded)[0]));
    text::lemma_decimal_round_trip(id as int);
    let items = reading::list_in(members, "message_ids"@);
    let messages = events[0]->MessagesDeleted_messages;
    if forall|i: int| 0 <= i < items.len() ==> json::i64_of(#[trigger] items[i]) is Some {
        lemma_numbers_kept(items, items.len() as int);
        let read = numbers(items, items.len() as int);
        assert forall|i: int| 0 <= i < items.len() implies text::i64_value(
            (#[trigger] messages@[i]).id@,
        ) == json::i64_of(items[i]) by {
            assert(messages@[i]@.id == read[i]);
            assert(read[i] == text::decimal(json::i64_of(items[i])->0 as int));
            text::lemma_decimal_round_trip(json::i64_of(items[i])->0 as int);
        }
    }
}

/// Queries, choices and questions about an order are told by what the document
/// says of them.
pub proof fn law_questions_are_told_as_asked(
    update: Update,
    decoded: Decoded,
    events: Seq<LifecycleEvent>,
    members: Map<Seq<char>, JsonView>,
    name: Seq<char>,
    i: int,
)
    requires
        client::update_kind(update.data) == Some(name),
        json::fields(update.data)[name] == JsonView::Object(members),
        all_told(events, update_facts(update, decoded)),
        0 <= i < events.len(),
    ensures
        name == "inline_query"@ ==> (events[i] matches LifecycleEvent::SuggestionRequested(own)
            && json::text_in(members, "id"@) == Some(own.id@) && json::text_in(members, "query"@)
            == Some(own.query@)),
        name == "chosen_inline_result"@ ==> (events[i] matches LifecycleEvent::SuggestionSelected(own)
            && json::text_in(members, "result_id"@) == Some(own.result_id@) && json::optional_chars(
            own.query,
        ) == json::text_in(members, "query"@) && json::optional_chars(own.message_id)
            == json::text_in(members, "inline_message_id"@)),
        name == "shipping_query"@ ==> (events[i] matches LifecycleEvent::ShippingRequested(own)
            && json::text_in(members, "id"@) == Some(own.id@) && json::text_in(
            members,
            "invoice_payload"@,
        ) == Some(own.invoice_payload@) && (json::member(members, "shipping_address"@) matches Some(
            address,
        ) ==> own.address@ == address)),
        name == "pre_checkout_query"@ ==> (events[i] matches LifecycleEvent::CheckoutRequested(own)
            && json::text_in(members, "id"@) == Some(own.id@) && json::text_in(
            members,
            "invoice_payload"@,
        ) == Some(own.invoice_payload@) && json::text_in(members, "currency"@) == Some(
            own.total.currency@,
        ) && json::i64_in(members, "total_amount"@) == Some(own.total.amount) && (json::object_in(
            members,
            "order_info"@,
        ) matches Some(order) ==> json::optional_chars(own.customer_details.name) == json::text_in(
            order,
            "name"@,
        ) && json::optional_chars(own.customer_details.email) == json::text_in(order, "email"@)
            && json::optional_chars(own.customer_details.phone) == json::text_in(
            order,
            "phone_number"@,
        ))),
{
    lemma_happening_names();
    assert(tells(events[i], update_facts(update, decoded)[i]));
}

/// A request to join is told by the chat and the user of it.
pub proof fn law_requests_to_join_are_told(
    update: Update,
    request: ChatJoinRequest,
    events: Seq<LifecycleEvent>,
)
    requires
        client::update_kind(update.data) == Some("chat_join_request"@),
        all_told(events, update_facts(update, Decoded::JoinRequest(request))),
    ensures
        events.len() == 1,
        events[0] matches LifecycleEvent::JoinRequested(own) && text::i64_value(
            own.conversation.id@,
        ) == Some(request.chat.id) && text::i64_value(own.user.id@) == Some(request.from.id)
            && json::optional_chars(own.message) == json::optional_chars(request.bio),
{
    lemma_happening_names();
    assert(tells(events[0], update_facts(update, Decoded::JoinRequest(request))[0]));
    text::lemma_decimal_round_trip(request.chat.id as int);
    text::lemma_decimal_round_trip(request.from.id as int);
}

/// A change of a member is told with who they were before as the old member and
/// with who they are after as the new one, in the chat of it.
pub proof fn law_members_are_told_before_and_after(
    update: Update,
    change: ChatMemberUpdated,
    events: Seq<LifecycleEvent>,
    members: Map<Seq<char>, JsonView>,
    name: Seq<char>,
    i: int,
)
    requires
        name == "chat_member"@ || name == "my_chat_member"@,
        client::update_kind(update.data) == Some(name),
        json::fields(update.data)[name] == JsonView::Object(members),
        all_told(events, update_facts(update, Decoded::Member(change))),
        0 <= i < events.len(),
    ensures
        events[i] matches LifecycleEvent::MemberUpdated { conversation, old_member, new_member }
            && text::i64_value(conversation.id@) == Some(change.chat.id) && (json::member(
            members,
            "new_chat_member"@,
        ) matches Some(now) && permissions::reads_member(
            new_member,
            now,
            change.new_chat_member.user,
        )) && (old_member matches Some(old) ==> (json::member(members, "old_chat_member"@) matches Some(
            then,
        ) && permissions::reads_member(old, then, change.old_chat_member.user))),
{
    lemma_happening_names();
    assert(tells(events[i], update_facts(update, Decoded::Member(change))[i]));
    text::lemma_decimal_round_trip(change.chat.id as int);
}

proof fn lemma_fact_kept(facts: Seq<Fact>, more: Option<Fact>, fact: Fact)
    ensures
        facts.contains(fact) ==> and_fact(facts, more).contains(fact),
        more == Some(fact) ==> and_fact(facts, more).contains(fact),
{
    if facts.contains(fact) {
        let i = choose|i: int| 0 <= i < facts.len() && facts[i] == fact;
        assert(and_fact(facts, more)[i] == fact);
    }
    if more == Some(fact) {
        assert(and_fact(facts, more)[facts.len() as int] == fact);
    }
}

/// Whether the message says the fact beside itself.
spec fn says_fact(message: Message, members: Map<Seq<char>, JsonView>, fact: Fact) -> bool {
    ||| pin_fact(message, members) == Some(fact)
    ||| topic_fact(message, members, "forum_topic_created"@, TopicChange::Created) == Some(fact)
    ||| topic_fact(message, members, "forum_topic_edited"@, TopicChange::Edited) == Some(fact)
    ||| topic_fact(message, members, "forum_topic_closed"@, TopicChange::Closed) == Some(fact)
    ||| topic_fact(message, members, "forum_topic_reopened"@, TopicChange::Reopened) == Some(fact)
    ||| checklist_fact(message, members, "checklist_tasks_done"@) == Some(fact)
    ||| checklist_fact(message, members, "checklist_tasks_added"@) == Some(fact)
    ||| mini_app_fact(message, members) == Some(fact)
    ||| payment_fact(message, members, "successful_payment"@, PaymentStatus::Paid) == Some(fact)
    ||| payment_fact(message, members, "refunded_payment"@, PaymentStatus::Refunded) == Some(fact)
}

proof fn lemma_fact_said(message: Message, raw: JsonView, fact: Fact)
    requires
        says_fact(message, envelope::members_of(raw), fact),
    ensures
        message_facts(message, raw).contains(fact),
{
    let members = envelope::members_of(raw);
    let there = seq![Fact::Created(message, raw)];
    let a = pin_fact(message, members);
    let b = topic_fact(message, members, "forum_topic_created"@, TopicChange::Created);
    let c = topic_fact(message, members, "forum_topic_edited"@, TopicChange::Edited);
    let d = topic_fact(message, members, "forum_topic_closed"@, TopicChange::Closed);
    let e = topic_fact(message, members, "forum_topic_reopened"@, TopicChange::Reopened);
    let f = checklist_fact(message, members, "checklist_tasks_done"@);
    let g = checklist_fact(message, members, "checklist_tasks_added"@);
    let h = mini_app_fact(message, members);
    let j = payment_fact(message, members, "successful_payment"@, PaymentStatus::Paid);
    let k = payment_fact(message, members, "refunded_payment"@, PaymentStatus::Refunded);
    let s1 = and_fact(there, a);
    let s2 = and_fact(s1, b);
    let s3 = and_fact(s2, c);
    let s4 = and_fact(s3, d);
    let s5 = and_fact(s4, e);
    let s6 = and_fact(s5, f);
    let s7 = and_fact(s6, g);
    let s8 = and_fact(s7, h);
    let s9 = and_fact(s8, j);
    lemma_fact_kept(there, a, fact);
    lemma_fact_kept(s1, b, fact);
    lemma_fact_kept(s2, c, fact);
    lemma_fact_kept(s3, d, fact);
    lemma_fact_kept(s4, e, fact);
    lemma_fact_kept(s5, f, fact);
    lemma_fact_kept(s6, g, fact);
    lemma_fact_kept(s7, h, fact);
    lemma_fact_kept(s8, j, fact);
    lemma_fact_kept(s9, k, fact);
}

/// One of the events tells the fact.
pub open spec fn told(events: Seq<LifecycleEvent>, fact: Fact) -> bool {
    exists|i: int| 0 <= i < events.len() && tells(#[trigger] events[i], fact)
}

proof fn lemma_fact_told(
    update: Update,
    message: Message,
    events: Seq<LifecycleEvent>,
    name: Seq<char>,
    fact: Fact,
)
    requires
        client::update_kind(update.data) == Some(name),
        happening_of(name) is NewMessage,
        all_told(events, update_facts(update, Decoded::Message(message))),
        says_fact(message, envelope::members_of(json::fields(update.data)[name]), fact),
    ensures
        told(events, fact),
{
    let facts = message_facts(message, json::fields(update.data)[name]);
    lemma_fact_said(message, json::fields(update.data)[name], fact);
    let i = choose|i: int| 0 <= i < facts.len() && facts[i] == fact;
    assert(tells(events[i], facts[i]));
}

/// The event tells the change of the topic: its making, with its name, or its
/// closing, after which it is closed, or another change, after which it is open.
pub open spec fn tells_of_topic(
    event: LifecycleEvent,
    change: TopicChange,
    number: i64,
    title: Option<Seq<char>>,
) -> bool {
    let thread = match event {
        LifecycleEvent::ThreadCreated(thread) => thread,
        LifecycleEvent::ThreadClosed(thread) => thread,
        LifecycleEvent::ThreadUpdated(thread) => thread,
        _ => event->ThreadUpdated_0,
    };
    &&& change is Created <==> event is ThreadCreated
    &&& change is Closed <==> event is ThreadClosed
    &&& change is Edited || change is Reopened <==> event is ThreadUpdated
    &&& change is Closed <==> thread.state is Closed
    &&& text::i64_value(thread.conversation.id@) == Some(number)
    &&& thread.conversation.kind is Topic
    &&& json::optional_chars(thread.title) == title
}

/// A message that says that a topic was made, changed, closed or opened again
/// is told as that.
pub proof fn law_topics_are_told(
    update: Update,
    message: Message,
    events: Seq<LifecycleEvent>,
    name: Seq<char>,
    members: Map<Seq<char>, JsonView>,
    inner: Map<Seq<char>, JsonView>,
    number: i64,
)
    requires
        name == "message"@ || name == "channel_post"@ || name == "business_message"@ || name
            == "guest_message"@,
        client::update_kind(update.data) == Some(name),
        json::fields(update.data)[name] == JsonView::Object(members),
        all_told(events, update_facts(update, Decoded::Message(message))),
        json::i64_in(members, "message_thread_id"@) == Some(number),
    ensures
        json::object_in(members, "forum_topic_created"@) == Some(inner) ==> exists|i: int|
            0 <= i < events.len() && tells_of_topic(
                #[trigger] events[i],
                TopicChange::Created,
                number,
                json::text_in(inner, "name"@),
            ),
        json::object_in(members, "forum_topic_closed"@) == Some(inner) ==> exists|i: int|
            0 <= i < events.len() && tells_of_topic(
                #[trigger] events[i],
                TopicChange::Closed,
                number,
                json::text_in(inner, "name"@),
            ),
        json::object_in(members, "forum_topic_reopened"@) == Some(inner) ==> exists|i: int|
            0 <= i < events.len() && tells_of_topic(
                #[trigger] events[i],
                TopicChange::Reopened,
                number,
                json::text_in(inner, "name"@),
            ),
        json::object_in(members, "forum_topic_edited"@) == Some(inner) ==> exists|i: int|
            0 <= i < events.len() && tells_of_topic(
                #[trigger] events[i],
                TopicChange::Edited,
                number,
                json::text_in(inner, "name"@),
            ),
{
    lemma_happening_names();
    text::lemma_decimal_round_trip(number as int);
    let title = json::text_in(inner, "name"@);
    if json::object_in(members, "forum_topic_created"@) == Some(inner) {
        let fact = Fact::Topic(TopicChange::Created, number, inner, message);
        lemma_fact_told(update, message, events, name, fact);
        let i = choose|i: int| 0 <= i < events.len() && tells(#[trigger] events[i], fact);
        assert(tells_of_topic(events[i], TopicChange::Created, number, title));
    }
    if json::object_in(members, "forum_topic_closed"@) == Some(inner) {
        let fact = Fact::Topic(TopicChange::Closed, number, inner, message);
        lemma_fact_told(update, message, events, name, fact);
        let i = choose|i: int| 0 <= i < events.len() && tells(#[trigger] events[i], fact);
        assert(tells_of_topic(events[i], TopicChange::Closed, number, title));
    }
    if json::object_in(members, "forum_topic_reopened"@) == Some(inner) {
        let fact = Fact::Topic(TopicChange::Reopened, number, inner, message);
        lemma_fact_told(update, message, events, name, fact);
        let i = choose|i: int| 0 <= i < events.len() && tells(#[trigger] events[i], fact);
        assert(tells_of_topic(events[i], TopicChange::Reopened, number, title));
    }
    if json::object_in(members, "forum_topic_edited"@) == Some(inner) {
        let fact = Fact::Topic(TopicChange::Edited, number, inner, message);
        lemma_fact_told(update, message, events, name, fact);
        let i = choose|i: int| 0 <= i < events.len() && tells(#[trigger] events[i], fact);
        assert(tells_of_topic(events[i], TopicChange::Edited, number, title));
    }
}

/// The event tells the payment: what was charged, how much of what, and whether
/// it was paid or given back.
pub open spec fn tells_of_payment(
    event: LifecycleEvent,
    paid: bool,
    charge: Seq<char>,
    currency: Seq<char>,
    amount: i64,
) -> bool {
    &&& event matches LifecycleEvent::PaymentUpdated(own)
    &&& own.id@ == charge
    &&& own.total.currency@ == currency
    &&& own.total.amount == amount
    &&& paid <==> own.status is Paid
    &&& !paid <==> own.status is Refunded
}

/// A payment that succeeded is told as paid, and one that was given back as
/// given back.
pub proof fn law_payments_are_told(
    update: Update,
    message: Message,
    events: Seq<LifecycleEvent>,
    name: Seq<char>,
    members: Map<Seq<char>, JsonView>,
    inner: Map<Seq<char>, JsonView>,
    charge: Seq<char>,
    currency: Seq<char>,
    amount: i64,
)
    requires
        name == "message"@ || name == "channel_post"@ || name == "business_message"@ || name
            == "guest_message"@,
        client::update_kind(update.data) == Some(name),
        json::fields(update.data)[name] == JsonView::Object(members),
        all_told(events, update_facts(update, Decoded::Message(message))),
        json::text_in(inner, "telegram_payment_charge_id"@) == Some(charge),
        json::text_in(inner, "currency"@) == Some(currency),
        json::i64_in(inner, "total_amount"@) == Some(amount),
    ensures
        json::object_in(members, "successful_payment"@) == Some(inner) ==> exists|i: int|
            0 <= i < events.len() && tells_of_payment(
                #[trigger] events[i],
                true,
                charge,
                currency,
                amount,
            ),
        json::object_in(members, "refunded_payment"@) == Some(inner) ==> exists|i: int|
            0 <= i < events.len() && tells_of_payment(
                #[trigger] events[i],
                false,
                charge,
                currency,
                amount,
            ),
{
    lemma_happening_names();
    if json::object_in(members, "successful_payment"@) == Some(inner) {
        let fact = Fact::Paid(PaymentStatus::Paid, inner, message, members);
        lemma_fact_told(update, message, events, name, fact);
        let i = choose|i: int| 0 <= i < events.len() && tells(#[trigger] events[i], fact);
        assert(tells_of_payment(events[i], true, charge, currency, amount));
    }
    if json::object_in(members, "refunded_payment"@) == Some(inner) {
        let fact = Fact::Paid(PaymentStatus::Refunded, inner, message, members);
        lemma_fact_told(update, message, events, name, fact);
        let i = choose|i: int| 0 <= i < events.len() && tells(#[trigger] events[i], fact);
        assert(tells_of_payment(events[i], false, charge, currency, amount));
    }
}

/// The event tells that the tasks with the numbers were done and those with the
/// others were opened again.
pub open spec fn tells_of_tasks(
    event: LifecycleEvent,
    finished: Seq<Seq<char>>,
    reopened: Seq<Seq<char>>,
) -> bool {
    &&& event matches LifecycleEvent::ChecklistChanged(change)
    &&& utf16::texts(change.completed_task_ids@) == finished
    &&& utf16::texts(change.reopened_task_ids@) == reopened
}

/// A message that says which tasks of a checklist were done is told as that:
/// those that were marked as done, and those that were marked as not done.
pub proof fn law_tasks_are_told(
    update: Update,
    message: Message,
    events: Seq<LifecycleEvent>,
    name: Seq<char>,
    members: Map<Seq<char>, JsonView>,
    inner: Map<Seq<char>, JsonView>,
)
    requires
        name == "message"@ || name == "channel_post"@ || name == "business_message"@ || name
            == "guest_message"@,
        client::update_kind(update.data) == Some(name),
        json::fields(update.data)[name] == JsonView::Object(members),
        all_told(events, update_facts(update, Decoded::Message(message))),
        json::object_in(members, "checklist_tasks_done"@) == Some(inner) || json::object_in(
            members,
            "checklist_tasks_added"@,
        ) == Some(inner),
    ensures
        exists|i: int|
            0 <= i < events.len() && tells_of_tasks(
                #[trigger] events[i],
                numbers_in(inner, "marked_as_done_task_ids"@),
                numbers_in(inner, "marked_as_not_done_task_ids"@),
            ),
{
    lemma_happening_names();
    let fact = Fact::Listed(inner, message);
    lemma_fact_told(update, message, events, name, fact);
    let i = choose|i: int| 0 <= i < events.len() && tells(#[trigger] events[i], fact);
    assert(tells_of_tasks(
        events[i],
        numbers_in(inner, "marked_as_done_task_ids"@),
        numbers_in(inner, "marked_as_not_done_task_ids"@),
    ));
}

/// A message that pins another is told as the pinning of that other message, by
/// whoever sent it.
pub proof fn law_pins_are_told(
    update: Update,
    message: Message,
    events: Seq<LifecycleEvent>,
    name: Seq<char>,
    members: Map<Seq<char>, JsonView>,
    pinned: Map<Seq<char>, JsonView>,
    number: i64,
)
    requires
        name == "message"@ || name == "channel_post"@ || name == "business_message"@ || name
            == "guest_message"@,
        client::update_kind(update.data) == Some(name),
        json::fields(update.data)[name] == JsonView::Object(members),
        all_told(events, update_facts(update, Decoded::Message(message))),
        json::object_in(members, "pinned_message"@) == Some(pinned),
        reading::ref_of(pinned) is Some,
        json::i64_in(pinned, "message_id"@) == Some(number),
    ensures
        exists|i: int| 0 <= i < events.len() && tells_of_pin(#[trigger] events[i], number, message),
{
    lemma_happening_names();
    text::lemma_decimal_round_trip(number as int);
    let fact = Fact::Pinned(message, members);
    lemma_fact_told(update, message, events, name, fact);
    let i = choose|i: int| 0 <= i < events.len() && tells(#[trigger] events[i], fact);
    if let Some(user) = message.from {
        text::lemma_decimal_round_trip(user.id as int);
    }
    assert(tells_of_pin(events[i], number, message));
}

/// The event tells that the message with the number was pinned by the sender of
/// the other.
pub open spec fn tells_of_pin(event: LifecycleEvent, number: i64, by: Message) -> bool {
    &&& event matches LifecycleEvent::MessagePinned(pinned)
    &&& text::i64_value(pinned.message.id@) == Some(number)
    &&& by.from matches Some(user) ==> (pinned.pinned_by matches Some(who) && text::i64_value(
        who.id@,
    ) == Some(user.id))
}

/// Whoever asks is who the document says: in queries, choices and questions
/// about an order.
pub proof fn law_questions_name_who_asks(
    update: Update,
    decoded: Decoded,
    events: Seq<LifecycleEvent>,
    members: Map<Seq<char>, JsonView>,
    from: Map<Seq<char>, JsonView>,
    id: i64,
    name: Seq<char>,
    i: int,
)
    requires
        client::update_kind(update.data) == Some(name),
        json::fields(update.data)[name] == JsonView::Object(members),
        all_told(events, update_facts(update, decoded)),
        json::object_in(members, "from"@) == Some(from),
        json::i64_in(from, "id"@) == Some(id),
        0 <= i < events.len(),
    ensures
        name == "inline_query"@ ==> (events[i] matches LifecycleEvent::SuggestionRequested(own)
            && text::i64_value(own.user.id@) == Some(id)),
        name == "chosen_inline_result"@ ==> (events[i] matches LifecycleEvent::SuggestionSelected(own)
            && text::i64_value(own.user.id@) == Some(id)),
        name == "shipping_query"@ ==> (events[i] matches LifecycleEvent::ShippingRequested(own)
            && text::i64_value(own.user.id@) == Some(id)),
        name == "pre_checkout_query"@ ==> (events[i] matches LifecycleEvent::CheckoutRequested(own)
            && text::i64_value(own.user.id@) == Some(id)),
{
    lemma_happening_names();
    text::lemma_decimal_round_trip(id as int);
    assert(tells(events[i], update_facts(update, decoded)[i]));
}

/// Whoever reacts or votes in the name of a chat is told as that chat, and the
/// counts of a message are those that the document says.
pub proof fn law_reactors_and_voters_are_told(
    update: Update,
    decoded: Decoded,
    events: Seq<LifecycleEvent>,
    members: Map<Seq<char>, JsonView>,
    chat: Map<Seq<char>, JsonView>,
    id: i64,
    name: Seq<char>,
    i: int,
)
    requires
        client::update_kind(update.data) == Some(name),
        json::fields(update.data)[name] == JsonView::Object(members),
        all_told(events, update_facts(update, decoded)),
        json::object_in(members, "user"@) is None,
        json::i64_in(chat, "id"@) == Some(id),
        0 <= i < events.len(),
    ensures
        name == "message_reaction"@ && json::object_in(members, "actor_chat"@) == Some(chat) ==> (
        events[i] matches LifecycleEvent::ReactionsChanged { actor, .. } && (actor matches Some(who)
            && text::i64_value(who.id@) == Some(id))),
        name == "poll_answer"@ && json::object_in(members, "voter_chat"@) == Some(chat) ==> (
        events[i] matches LifecycleEvent::PollVoteChanged { user, .. } && (user matches Some(who)
            && text::i64_value(who.id@) == Some(id))),
        name == "message_reaction_count"@ ==> (
        events[i] matches LifecycleEvent::ReactionsChanged { change, .. }
            && reading::are_summaries(
            change.current@,
            reading::counted(reading::list_in(members, "reactions"@)),
        ) && change.added@.len() == 0 && change.removed@.len() == 0),
{
    lemma_happening_names();
    assert(tells(events[i], update_facts(update, decoded)[i]));
    if json::object_in(members, "actor_chat"@) == Some(chat) {
        reading::law_actors_are_read_in_order(members, "user"@, "actor_chat"@);
    }
    if json::object_in(members, "voter_chat"@) == Some(chat) {
        reading::law_actors_are_read_in_order(members, "user"@, "voter_chat"@);
    }
}

} // verus!
