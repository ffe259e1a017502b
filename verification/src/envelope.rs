//! Messages that Telegram sent, with their content, where they come from and
//! what they answer.
use crate::api::address;
use crate::api::address::{telegram_conversation_kind, telegram_sent_ref};
use crate::api::poll;
use crate::api::poll::telegram_poll;
use crate::collaboration::ReactionSummary;
use crate::content::{
    Checklist, ChecklistTask, ContactCard, Duration, LocationContent, Media, MessageContent,
    PhoneNumber, Real, RichText, Sticker,
};
use crate::conversation;
use crate::conversation::{
    ConversationKind, ConversationRef, ConversationView, KindView, MessageRef, MessageRefView,
};
use crate::event;
use crate::event::find_actor;
use crate::json;
use crate::json::{Fields, Json, JsonView};
use crate::native;
use crate::native::{make_native, NativeView, PlatformNativeData};
use crate::reading;
use crate::reading::{
    actor_at, duration_at, find_conversation, instant_at, make_ref, read_file, read_summaries,
    read_text, real_at, ref_at, text_at, u32_at, user_at,
};
use crate::segment;
use crate::segment::{find_largest, photo_file};
use crate::source;
use crate::source::{File, FileView, User, UserView};
use crate::telegram::{Chat, Message, PhotoSize};
use crate::text;
use crate::text::i64_text;
use crate::time;
use crate::time::instant;
use vstd::prelude::*;

verus! {

// ---------------------------------------------------------------------------
// Types
// ---------------------------------------------------------------------------

/// Where a message comes from that was passed on.
#[derive(Debug, PartialEq)]
pub enum MessageOrigin {
    User(User),
    Conversation {
        conversation: ConversationRef,
        message: Option<MessageRef>,
        author_signature: Option<String>,
    },
    HiddenUser { name: String },
    PlatformNative(PlatformNativeData),
}

/// What an origin says.
pub enum OriginView {
    User(UserView),
    Conversation {
        conversation: ConversationView,
        message: Option<MessageRefView>,
        author_signature: Option<Seq<char>>,
    },
    HiddenUser(Seq<char>),
    PlatformNative(NativeView),
}

impl View for MessageOrigin {
    type V = OriginView;

    open spec fn view(&self) -> OriginView {
        match *self {
            MessageOrigin::User(user) => OriginView::User(user@),
            MessageOrigin::Conversation { conversation, message, author_signature } => {
                OriginView::Conversation {
                    conversation: conversation@,
                    message: reading::optional_ref(message),
                    author_signature: json::optional_chars(author_signature),
                }
            },
            MessageOrigin::HiddenUser { name } => OriginView::HiddenUser(name@),
            MessageOrigin::PlatformNative(native) => OriginView::PlatformNative(native@),
        }
    }
}

/// What a message answers.
#[derive(Debug, PartialEq)]
pub struct ReplyContext {
    pub message: Option<MessageRef>,
    pub quote: Option<RichText>,
    pub quote_position: Option<u32>,
    pub external_origin: Option<MessageOrigin>,
    pub platform_data: Option<PlatformNativeData>,
}

/// How a message was passed on.
#[derive(Debug, PartialEq)]
pub struct ForwardContext {
    pub origin: MessageOrigin,
    /// A point in time, in seconds since the epoch.
    pub sent_at: Option<i64>,
    pub automatically_forwarded: bool,
    pub platform_data: Option<PlatformNativeData>,
}

/// A message that Telegram sent.
#[derive(Debug, PartialEq)]
pub struct MessageEnvelope {
    pub reference: MessageRef,
    pub sender: Option<User>,
    pub conversation: ConversationRef,
    /// Points in time, in seconds since the epoch.
    pub created_at: Option<i64>,
    pub edited_at: Option<i64>,
    pub content: Vec<MessageContent>,
    pub reply_to: Option<MessageRef>,
    pub reply_context: Option<ReplyContext>,
    pub forwarded_from: Option<MessageRef>,
    pub forward_context: Option<ForwardContext>,
    pub reactions: Vec<ReactionSummary>,
    /// The message that this one says was pinned.
    pub pins: Option<MessageRef>,
    pub platform_data: Option<PlatformNativeData>,
}

// ---------------------------------------------------------------------------
// Place
// ---------------------------------------------------------------------------

/// A chat as a conversation of its own.
pub open spec fn chat_view(chat: Chat) -> ConversationView {
    ConversationView {
        id: text::decimal(chat.id as int),
        kind: address::conversation_kind_view(chat.kind@),
        parent: None,
        native: None,
    }
}

/// Makes a reference to a chat.
pub fn make_chat(chat: &Chat) -> (conversation: ConversationRef)
    ensures
        conversation@ == chat_view(*chat),
{
    ConversationRef {
        id: i64_text(chat.id),
        kind: telegram_conversation_kind(chat.kind.as_str()),
        parent: None,
        platform_data: None,
    }
}

/// A topic of a chat.
pub open spec fn topic_view(
    topic: i64,
    chat: ConversationView,
    native: Option<NativeView>,
) -> ConversationView {
    ConversationView {
        id: text::decimal(topic as int),
        kind: KindView::Topic,
        parent: Some(Box::new(chat)),
        native,
    }
}

/// Makes a reference to a topic of a chat.
pub fn make_topic(
    topic: i64,
    chat: ConversationRef,
    native: Option<PlatformNativeData>,
) -> (conversation: ConversationRef)
    ensures
        conversation@ == topic_view(topic, chat@, native::optional_native(native)),
{
    ConversationRef {
        id: i64_text(topic),
        kind: ConversationKind::Topic,
        parent: Some(Box::new(chat)),
        platform_data: native,
    }
}

/// The topic of the chat in which a message stands, where it stands in one.
pub open spec fn forum_topic(members: Map<Seq<char>, JsonView>) -> Option<i64> {
    if json::bool_in(members, "is_topic_message"@) == Some(true) {
        json::i64_in(members, "message_thread_id"@)
    } else {
        None
    }
}

/// The topic of direct messages in which a message stands.
pub open spec fn direct_topic(members: Map<Seq<char>, JsonView>) -> Option<i64> {
    match json::object_in(members, "direct_messages_topic"@) {
        Some(topic) => json::i64_in(topic, "topic_id"@),
        None => None,
    }
}

/// Where a message stands: in its chat, or in a topic of it.
pub open spec fn place_view(
    message: Message,
    members: Map<Seq<char>, JsonView>,
) -> ConversationView {
    let chat = chat_view(message.chat);
    match forum_topic(members) {
        Some(topic) => topic_view(topic, chat, None),
        None => match direct_topic(members) {
            Some(topic) => topic_view(
                topic,
                chat,
                Some(
                    native::telegram_native(
                        JsonView::Object(
                            json::no_fields().insert(
                                "direct_messages_topic_id"@,
                                JsonView::Integer(topic as int),
                            ),
                        ),
                    ),
                ),
            ),
            None => chat,
        },
    }
}

/// Finds where a message stands.
pub fn find_place(message: &Message, members: &Fields) -> (conversation: ConversationRef)
    ensures
        conversation@ == place_view(*message, json::fields(*members)),
{
    let chat = make_chat(&message.chat);
    if flag(members, "is_topic_message") {
        if let Some(topic) = members.i64_at("message_thread_id") {
            return make_topic(topic, chat, None);
        }
    }
    if let Some(inner) = members.object_at("direct_messages_topic") {
        if let Some(topic) = inner.i64_at("topic_id") {
            let mut data = Fields::none();
            data.put("direct_messages_topic_id", Json::integer(topic));
            return make_topic(topic, chat, Some(make_native(Json::object(data))));
        }
    }
    chat
}

// ---------------------------------------------------------------------------
// Origins
// ---------------------------------------------------------------------------

/// The message of a channel that an origin names by its number.
pub open spec fn origin_message(
    members: Map<Seq<char>, JsonView>,
    conversation: ConversationView,
) -> Option<MessageRefView> {
    match json::i64_in(members, "message_id"@) {
        Some(number) => Some(reading::ref_in(number, conversation)),
        None => None,
    }
}

/// The origin that a document describes. One of another kind is kept as
/// Telegram writes it.
pub open spec fn origin_of(value: JsonView) -> OriginView {
    let members = members_of(value);
    let kind = json::text_in(members, "type"@);
    let sender = reading::chat_conversation(json::member(members, "sender_chat"@));
    let channel = reading::chat_conversation(json::member(members, "chat"@));
    if kind == Some("user"@) && reading::user_in(members, "sender_user"@) is Some {
        OriginView::User(reading::user_in(members, "sender_user"@)->0)
    } else if kind == Some("hidden_user"@) && json::text_in(members, "sender_user_name"@) is Some {
        OriginView::HiddenUser(json::text_in(members, "sender_user_name"@)->0)
    } else if kind == Some("chat"@) && sender is Some {
        OriginView::Conversation {
            conversation: sender->0,
            message: None,
            author_signature: json::text_in(members, "author_signature"@),
        }
    } else if kind == Some("channel"@) && channel is Some {
        OriginView::Conversation {
            conversation: channel->0,
            message: origin_message(members, channel->0),
            author_signature: json::text_in(members, "author_signature"@),
        }
    } else {
        OriginView::PlatformNative(native::telegram_native(value))
    }
}

/// The members of a document; none where it is no object.
pub open spec fn members_of(value: JsonView) -> Map<Seq<char>, JsonView> {
    match value {
        JsonView::Object(members) => members,
        _ => json::no_fields(),
    }
}

/// The members of a document; none where it is no object.
pub fn copy_members(value: &Json) -> (members: Fields)
    ensures
        json::fields(members) == members_of(value@),
{
    broadcast use json::lemma_json_view;

    match value {
        Json::Object(members) => members.clone(),
        _ => Fields::none(),
    }
}

proof fn lemma_origin_kinds()
    ensures
        "user"@ != "hidden_user"@,
        "user"@ != "chat"@,
        "user"@ != "channel"@,
        "hidden_user"@ != "chat"@,
        "hidden_user"@ != "channel"@,
        "chat"@ != "channel"@,
{
    reveal_strlit("user");
    reveal_strlit("hidden_user");
    reveal_strlit("chat");
    reveal_strlit("channel");
    assert("user"@.len() == 4 && "hidden_user"@.len() == 11 && "chat"@.len() == 4
        && "channel"@.len() == 7);
    assert("user"@[0] == 'u' && "chat"@[0] == 'c');
}

fn read_origin(value: &Json) -> (origin: MessageOrigin)
    ensures
        origin@ == origin_of(value@),
{
    proof {
        lemma_origin_kinds();
    }
    let members = copy_members(value);
    if let Some(kind) = members.text_at("type") {
        if text::same(kind, "user") {
            if let Some(user) = user_at(&members, "sender_user") {
                return MessageOrigin::User(user);
            }
        } else if text::same(kind, "hidden_user") {
            if let Some(name) = members.string_at("sender_user_name") {
                return MessageOrigin::HiddenUser { name };
            }
        } else if text::same(kind, "chat") {
            if let Some(conversation) = find_conversation(members.member("sender_chat")) {
                return MessageOrigin::Conversation {
                    conversation,
                    message: None,
                    author_signature: members.string_at("author_signature"),
                };
            }
        } else if text::same(kind, "channel") {
            if let Some(conversation) = find_conversation(members.member("chat")) {
                let message = match members.i64_at("message_id") {
                    Some(number) => Some(make_ref(number, conversation.clone())),
                    None => None,
                };
                return MessageOrigin::Conversation {
                    conversation,
                    message,
                    author_signature: members.string_at("author_signature"),
                };
            }
        }
    }
    MessageOrigin::PlatformNative(make_native(value.clone()))
}

/// The message that was passed on, where its origin names it.
pub open spec fn forwarded_view(members: Map<Seq<char>, JsonView>) -> Option<MessageRefView> {
    match json::member(members, "forward_origin"@) {
        Some(value) => match origin_of(value) {
            OriginView::Conversation { message, .. } => message,
            _ => None,
        },
        None => None,
    }
}

/// How a message was passed on, where it was.
pub open spec fn tells_forward(
    context: Option<ForwardContext>,
    members: Map<Seq<char>, JsonView>,
) -> bool {
    match json::member(members, "forward_origin"@) {
        None => context is None,
        Some(value) => {
            &&& context matches Some(context)
            &&& context.origin@ == origin_of(value)
            &&& context.sent_at == reading::instant_in(members_of(value), "date"@)
            &&& context.automatically_forwarded == (json::bool_in(members, "is_automatic_forward"@)
                == Some(true))
            &&& native::optional_native(context.platform_data) == Some(
                native::telegram_native(value),
            )
        },
    }
}

fn copy_ref(reference: &MessageRef) -> (copy: MessageRef)
    ensures
        copy@ == reference@,
{
    MessageRef {
        id: reference.id.clone(),
        conversation: match &reference.conversation {
            Some(conversation) => Some(conversation.clone()),
            None => None,
        },
        platform_data: match &reference.platform_data {
            Some(native) => Some(native.clone()),
            None => None,
        },
    }
}

fn copy_optional_ref(reference: &Option<MessageRef>) -> (copy: Option<MessageRef>)
    ensures
        reading::optional_ref(copy) == reading::optional_ref(*reference),
{
    match reference {
        Some(reference) => Some(copy_ref(reference)),
        None => None,
    }
}

fn flag(members: &Fields, key: &str) -> (set: bool)
    ensures
        set == (json::bool_in(json::fields(*members), key@) == Some(true)),
{
    match members.bool_at(key) {
        Some(set) => set,
        None => false,
    }
}

fn read_forward(members: &Fields) -> (result: (Option<MessageRef>, Option<ForwardContext>))
    ensures
        reading::optional_ref(result.0) == forwarded_view(json::fields(*members)),
        tells_forward(result.1, json::fields(*members)),
{
    let value = match members.member("forward_origin") {
        Some(value) => value,
        None => {
            return (None, None);
        },
    };
    let origin = read_origin(value);
    let from = match &origin {
        MessageOrigin::Conversation { message, .. } => copy_optional_ref(message),
        _ => None,
    };
    let inner = copy_members(value);
    (
        from,
        Some(
            ForwardContext {
                origin,
                sent_at: instant_at(&inner, "date"),
                automatically_forwarded: flag(members, "is_automatic_forward"),
                platform_data: Some(make_native(value.clone())),
            },
        ),
    )
}

// ---------------------------------------------------------------------------
// Replies
// ---------------------------------------------------------------------------

/// A message answers another, or quotes one.
pub open spec fn answers(members: Map<Seq<char>, JsonView>) -> bool {
    members.contains_key("reply_to_message"@) || members.contains_key("quote"@)
        || members.contains_key("external_reply"@)
}

/// The members of the quote of a message.
pub open spec fn quote_of(members: Map<Seq<char>, JsonView>) -> Map<Seq<char>, JsonView> {
    match json::object_in(members, "quote"@) {
        Some(quote) => quote,
        None => json::no_fields(),
    }
}

/// The origin of a message of another chat that is answered.
pub open spec fn external_origin(members: Map<Seq<char>, JsonView>) -> Option<OriginView> {
    match json::object_in(members, "external_reply"@) {
        Some(external) => match json::member(external, "origin"@) {
            Some(origin) => Some(origin_of(origin)),
            None => None,
        },
        None => None,
    }
}

/// What an origin says, where there is one.
pub open spec fn optional_origin(origin: Option<MessageOrigin>) -> Option<OriginView> {
    match origin {
        Some(origin) => Some(origin@),
        None => None,
    }
}

/// What a message answers, where it does.
pub open spec fn tells_reply(
    context: Option<ReplyContext>,
    members: Map<Seq<char>, JsonView>,
) -> bool {
    if !answers(members) {
        context is None
    } else {
        &&& context matches Some(context)
        &&& reading::optional_ref(context.message) == reading::ref_under(
            members,
            "reply_to_message"@,
        )
        &&& reading::optional_text(context.quote, quote_of(members), "text"@, "entities"@)
        &&& context.quote_position == reading::u32_in(quote_of(members), "position"@)
        &&& optional_origin(context.external_origin) == external_origin(members)
        &&& native::optional_native(context.platform_data) == match json::member(
            members,
            "external_reply"@,
        ) {
            Some(external) => Some(native::telegram_native(external)),
            None => None,
        }
    }
}

fn read_reply(members: &Fields) -> (context: Option<ReplyContext>)
    ensures
        tells_reply(context, json::fields(*members)),
{
    if !(members.contains_key("reply_to_message") || members.contains_key("quote")
        || members.contains_key("external_reply")) {
        return None;
    }
    let none = Fields::none();
    let quote = match members.object_at("quote") {
        Some(quote) => quote,
        None => &none,
    };
    let external_origin = match members.object_at("external_reply") {
        Some(external) => match external.member("origin") {
            Some(origin) => Some(read_origin(origin)),
            None => None,
        },
        None => None,
    };
    let platform_data = match members.member("external_reply") {
        Some(external) => Some(make_native(external.clone())),
        None => None,
    };
    Some(
        ReplyContext {
            message: ref_at(members, "reply_to_message"),
            quote: text_at(quote, "text", "entities"),
            quote_position: u32_at(quote, "position"),
            external_origin,
            platform_data,
        },
    )
}

// ---------------------------------------------------------------------------
// Content
// ---------------------------------------------------------------------------

/// A kind of media.
#[derive(Debug, Clone, Copy, PartialEq, Eq, Structural)]
pub enum MediaPart {
    Image,
    Animation,
    Audio,
    Video,
    VideoNote,
    Document,
    Voice,
}

/// What describes media beside its file.
#[verifier::ext_equal]
pub struct MediaFacts {
    pub file: FileView,
    pub width: Option<u32>,
    pub height: Option<u32>,
    pub duration: Option<Duration>,
}

/// A piece of what a message says.
pub enum Piece {
    Text { text: Seq<char>, entities: Seq<JsonView> },
    Media { part: MediaPart, facts: MediaFacts },
    Sticker(Map<Seq<char>, JsonView>),
    /// A place, and its title and address where it has them.
    Location(Map<Seq<char>, JsonView>, Option<(Seq<char>, Seq<char>)>),
    Contact(Map<Seq<char>, JsonView>),
    Poll(JsonView),
    Checklist(Map<Seq<char>, JsonView>),
    Native(NativeView),
}

/// The media has the file and the measures, and the caption of its message.
pub open spec fn is_media(
    media: Media,
    facts: MediaFacts,
    message: Map<Seq<char>, JsonView>,
) -> bool {
    &&& media.file@ == facts.file
    &&& media.width == facts.width
    &&& media.height == facts.height
    &&& media.duration == facts.duration
    &&& reading::optional_text(media.caption, message, "caption"@, "caption_entities"@)
    &&& media.thumbnail is None
    &&& media.spoiler == (json::bool_in(message, "has_media_spoiler"@) == Some(true))
    &&& media.alt_text is None
    &&& media.waveform is None
    &&& media.platform_data is None
}

/// The content is media of the given kind.
pub open spec fn is_media_content(
    content: MessageContent,
    part: MediaPart,
    facts: MediaFacts,
    message: Map<Seq<char>, JsonView>,
) -> bool {
    match part {
        MediaPart::Image => content matches MessageContent::Image(media) && is_media(
            media,
            facts,
            message,
        ),
        MediaPart::Animation => content matches MessageContent::Animation(media) && is_media(
            media,
            facts,
            message,
        ),
        MediaPart::Audio => content matches MessageContent::Audio(media) && is_media(
            media,
            facts,
            message,
        ),
        MediaPart::Video => content matches MessageContent::Video(media) && is_media(
            media,
            facts,
            message,
        ),
        MediaPart::VideoNote => content matches MessageContent::VideoNote(media) && is_media(
            media,
            facts,
            message,
        ),
        MediaPart::Document => content matches MessageContent::File(media) && is_media(
            media,
            facts,
            message,
        ),
        MediaPart::Voice => content matches MessageContent::VoiceNote(media) && is_media(
            media,
            facts,
            message,
        ),
    }
}

/// The sticker that a document describes.
pub open spec fn is_sticker(sticker: Sticker, members: Map<Seq<char>, JsonView>) -> bool {
    &&& json::text_in(members, "file_id"@) == Some(sticker.id@)
    &&& json::optional_chars(sticker.pack_id) == json::text_in(members, "set_name"@)
    &&& json::optional_chars(sticker.emoji) == json::text_in(members, "emoji"@)
    &&& source::optional_file(sticker.file) == reading::file_of(members)
    &&& sticker.animated == (json::bool_in(members, "is_animated"@) == Some(true))
    &&& sticker.video == (json::bool_in(members, "is_video"@) == Some(true))
    &&& sticker.platform_data is None
}

/// A number of degrees that fits.
pub open spec fn degrees(members: Map<Seq<char>, JsonView>) -> Option<u16> {
    match json::u64_in(members, "heading"@) {
        Some(n) => if n <= u16::MAX {
            Some(n as u16)
        } else {
            None
        },
        None => None,
    }
}

/// The place that a document describes.
pub open spec fn is_location(
    location: LocationContent,
    members: Map<Seq<char>, JsonView>,
    venue: Option<(Seq<char>, Seq<char>)>,
) -> bool {
    &&& reading::optional_real(Some(location.latitude)) == reading::real_in(members, "latitude"@)
    &&& reading::optional_real(Some(location.longitude)) == reading::real_in(members, "longitude"@)
    &&& match venue {
        Some((title, address)) => json::optional_chars(location.title) == Some(title)
            && json::optional_chars(location.address) == Some(address),
        None => location.title is None && location.address is None,
    }
    &&& reading::optional_real(location.horizontal_accuracy) == reading::real_in(
        members,
        "horizontal_accuracy"@,
    )
    &&& location.horizontal_accuracy matches Some(number) ==> number is Finite
    &&& location.live_period == reading::duration_in(members, "live_period"@)
    &&& location.heading == degrees(members)
    &&& location.proximity_alert_radius == reading::u32_in(members, "proximity_alert_radius"@)
    &&& location.platform_data is None
}

/// A document describes a place.
pub open spec fn has_place(members: Map<Seq<char>, JsonView>) -> bool {
    reading::real_in(members, "latitude"@) is Some && reading::real_in(
        members,
        "longitude"@,
    ) is Some
}

/// The contact that a document describes.
pub open spec fn is_contact(contact: ContactCard, members: Map<Seq<char>, JsonView>) -> bool {
    &&& contact.phone_numbers@.len() == 1
    &&& contact.phone_numbers@[0].label is None
    &&& json::text_in(members, "phone_number"@) == Some(contact.phone_numbers@[0].value@)
    &&& json::text_in(members, "first_name"@) == Some(contact.first_name@)
    &&& json::optional_chars(contact.last_name) == json::text_in(members, "last_name"@)
    &&& json::optional_chars(contact.vcard) == json::text_in(members, "vcard"@)
    &&& json::optional_chars(contact.user_id) == match json::i64_in(members, "user_id"@) {
        Some(id) => Some(text::decimal(id as int)),
        None => None,
    }
    &&& contact.emails@.len() == 0
    &&& contact.organization is None
    &&& contact.platform_data is None
}

/// A document describes a contact.
pub open spec fn has_contact(members: Map<Seq<char>, JsonView>) -> bool {
    json::text_in(members, "phone_number"@) is Some && json::text_in(members, "first_name"@) is Some
}

/// A document describes a task of a checklist.
pub open spec fn describes_task(value: JsonView) -> bool {
    let members = members_of(value);
    json::i64_in(members, "id"@) is Some && json::text_in(members, "text"@) is Some
}

/// The task that a document describes.
pub open spec fn is_task(task: ChecklistTask, value: JsonView) -> bool {
    let members = members_of(value);
    &&& json::i64_in(members, "id"@) matches Some(id)
    &&& json::optional_chars(task.id) == Some(text::decimal(id as int))
    &&& json::text_in(members, "text"@) matches Some(chars)
    &&& reading::reads_text(task.text, chars, reading::list_in(members, "text_entities"@))
    &&& task.completed == (json::i64_in(members, "completion_date"@) matches Some(date) && date
        != 0)
    &&& reading::optional_user(task.completed_by) == reading::actor_in(
        members,
        "completed_by_user"@,
        "completed_by_chat"@,
    )
    &&& task.completed_at == reading::instant_in(members, "completion_date"@)
    &&& native::optional_native(task.platform_data) == Some(native::telegram_native(value))
}

/// The documents of a list that describe tasks.
pub open spec fn described_tasks(items: Seq<JsonView>) -> Seq<JsonView> {
    items.filter(|item: JsonView| describes_task(item))
}

/// The tasks are those that the documents describe, one by one.
pub open spec fn are_tasks(tasks: Seq<ChecklistTask>, items: Seq<JsonView>) -> bool {
    &&& tasks.len() == items.len()
    &&& forall|i: int| 0 <= i < tasks.len() ==> is_task(#[trigger] tasks[i], items[i])
}

/// The checklist that a document describes.
pub open spec fn is_checklist(checklist: Checklist, members: Map<Seq<char>, JsonView>) -> bool {
    &&& checklist.id is None
    &&& json::text_in(members, "title"@) matches Some(title)
    &&& reading::reads_text(
        checklist.title,
        title,
        reading::list_in(members, "title_entities"@),
    )
    &&& are_tasks(checklist.tasks@, described_tasks(reading::list_in(members, "tasks"@)))
    &&& checklist.can_add_tasks == (json::bool_in(members, "others_can_add_tasks"@) == Some(true))
    &&& checklist.can_mark_tasks_done == (json::bool_in(members, "others_can_mark_tasks_as_done"@)
        == Some(true))
    &&& native::optional_native(checklist.platform_data) == Some(
        native::telegram_native(JsonView::Object(members)),
    )
}

/// The content says what the piece of the message says.
pub open spec fn is_content(
    content: MessageContent,
    piece: Piece,
    message: Map<Seq<char>, JsonView>,
) -> bool {
    match piece {
        Piece::Text { text, entities } => if entities.len() == 0 {
            content matches MessageContent::PlainText(own) && own@ == text
        } else {
            content matches MessageContent::RichText(rich) && reading::reads_text(
                rich,
                text,
                entities,
            )
        },
        Piece::Media { part, facts } => is_media_content(content, part, facts, message),
        Piece::Sticker(members) => content matches MessageContent::Sticker(sticker) && is_sticker(
            sticker,
            members,
        ),
        Piece::Location(members, venue) => content matches MessageContent::Location(location)
            && is_location(location, members, venue),
        Piece::Contact(members) => content matches MessageContent::Contact(contact) && is_contact(
            contact,
            members,
        ),
        Piece::Poll(value) => content matches MessageContent::Poll(found) && poll::reads_poll(
            found,
            value,
        ),
        Piece::Checklist(members) => content matches MessageContent::Checklist(checklist)
            && is_checklist(checklist, members),
        Piece::Native(native) => content matches MessageContent::PlatformNative(own) && own@
            == native,
    }
}

/// The contents say what the pieces say, one by one.
pub open spec fn are_contents(
    list: Seq<MessageContent>,
    pieces: Seq<Piece>,
    message: Map<Seq<char>, JsonView>,
) -> bool {
    &&& list.len() == pieces.len()
    &&& forall|i: int| 0 <= i < list.len() ==> is_content(#[trigger] list[i], pieces[i], message)
}

/// The pieces with one more, where there is one.
pub open spec fn and_piece(pieces: Seq<Piece>, piece: Option<Piece>) -> Seq<Piece> {
    match piece {
        Some(piece) => pieces.push(piece),
        None => pieces,
    }
}

/// The text of a message.
pub open spec fn text_piece(
    message: Map<Seq<char>, JsonView>,
    key: Seq<char>,
    entities: Seq<char>,
) -> Option<Piece> {
    match json::text_in(message, key) {
        Some(text) => Some(Piece::Text { text, entities: reading::list_in(message, entities) }),
        None => None,
    }
}

/// A number of pixels that fits.
pub open spec fn pixels(n: u64) -> Option<u32> {
    if n <= u32::MAX {
        Some(n as u32)
    } else {
        None
    }
}

/// The picture of a message: the largest of its sizes.
pub open spec fn photo_piece(photos: Option<Vec<PhotoSize>>) -> Option<Piece> {
    match photos {
        Some(photos) => if photos@.len() == 0 {
            None
        } else {
            let photo = photos@[segment::largest(photos@, photos@.len() as int)];
            Some(
                Piece::Media {
                    part: MediaPart::Image,
                    facts: MediaFacts {
                        file: segment::photo_view(photo),
                        width: pixels(photo.width),
                        height: pixels(photo.height),
                        duration: None,
                    },
                },
            )
        },
        None => None,
    }
}

/// The media under `key`.
pub open spec fn media_piece(
    message: Map<Seq<char>, JsonView>,
    key: Seq<char>,
    part: MediaPart,
) -> Option<Piece> {
    match json::object_in(message, key) {
        Some(members) => match reading::file_of(members) {
            Some(file) => Some(
                Piece::Media {
                    part,
                    facts: MediaFacts {
                        file,
                        width: reading::u32_in(members, "width"@),
                        height: reading::u32_in(members, "height"@),
                        duration: reading::duration_in(members, "duration"@),
                    },
                },
            ),
            None => None,
        },
        None => None,
    }
}

/// The sticker of a message.
pub open spec fn sticker_piece(message: Map<Seq<char>, JsonView>) -> Option<Piece> {
    match json::object_in(message, "sticker"@) {
        Some(members) => if json::text_in(members, "file_id"@) is Some {
            Some(Piece::Sticker(members))
        } else {
            None
        },
        None => None,
    }
}

/// The place of a message: a venue, or else a location.
pub open spec fn place_piece(message: Map<Seq<char>, JsonView>) -> Option<Piece> {
    match json::object_in(message, "venue"@) {
        Some(venue) => match (
            json::object_in(venue, "location"@),
            json::text_in(venue, "title"@),
            json::text_in(venue, "address"@),
        ) {
            (Some(members), Some(title), Some(address)) => if has_place(members) {
                Some(Piece::Location(members, Some((title, address))))
            } else {
                None
            },
            _ => None,
        },
        None => match json::object_in(message, "location"@) {
            Some(members) => if has_place(members) {
                Some(Piece::Location(members, None))
            } else {
                None
            },
            None => None,
        },
    }
}

/// The contact of a message.
pub open spec fn contact_piece(message: Map<Seq<char>, JsonView>) -> Option<Piece> {
    match json::object_in(message, "contact"@) {
        Some(members) => if has_contact(members) {
            Some(Piece::Contact(members))
        } else {
            None
        },
        None => None,
    }
}

/// The poll of a message.
pub open spec fn poll_piece(message: Map<Seq<char>, JsonView>) -> Option<Piece> {
    match json::member(message, "poll"@) {
        Some(value) => if poll::poll_flaw(value) is None {
            Some(Piece::Poll(value))
        } else {
            None
        },
        None => None,
    }
}

/// The checklist of a message.
pub open spec fn checklist_piece(message: Map<Seq<char>, JsonView>) -> Option<Piece> {
    match json::object_in(message, "checklist"@) {
        Some(members) => if json::text_in(members, "title"@) is Some {
            Some(Piece::Checklist(members))
        } else {
            None
        },
        None => None,
    }
}

/// Content that is kept as Telegram writes it.
pub open spec fn native_piece(message: Map<Seq<char>, JsonView>, key: Seq<char>) -> Option<Piece> {
    match json::member(message, key) {
        Some(value) => Some(
            Piece::Native(
                native::telegram_native(JsonView::Object(json::no_fields().insert(key, value))),
            ),
        ),
        None => None,
    }
}

/// The pieces of a message's media.
pub open spec fn media_pieces(
    photos: Option<Vec<PhotoSize>>,
    message: Map<Seq<char>, JsonView>,
) -> Seq<Piece> {
    let photo = and_piece(Seq::empty(), photo_piece(photos));
    let animation = and_piece(photo, media_piece(message, "animation"@, MediaPart::Animation));
    let audio = and_piece(animation, media_piece(message, "audio"@, MediaPart::Audio));
    let video = and_piece(audio, media_piece(message, "video"@, MediaPart::Video));
    let note = and_piece(video, media_piece(message, "video_note"@, MediaPart::VideoNote));
    // An animation stands in its message as a document too.
    let document = if message.contains_key("animation"@) {
        note
    } else {
        and_piece(note, media_piece(message, "document"@, MediaPart::Document))
    };
    let voice = and_piece(document, media_piece(message, "voice"@, MediaPart::Voice));
    and_piece(voice, sticker_piece(message))
}

/// The pieces of a message: its text, its media, its caption where there is no
/// media to bear it, its place, contact, poll and checklist, and what has no
/// form of its own.
pub open spec fn message_pieces(
    photos: Option<Vec<PhotoSize>>,
    message: Map<Seq<char>, JsonView>,
) -> Seq<Piece> {
    let media = media_pieces(photos, message);
    let told = and_piece(Seq::empty(), text_piece(message, "text"@, "entities"@)) + media;
    let captioned = if media.len() == 0 {
        and_piece(told, text_piece(message, "caption"@, "caption_entities"@))
    } else {
        told
    };
    let placed = and_piece(captioned, place_piece(message));
    let contact = and_piece(placed, contact_piece(message));
    let polled = and_piece(contact, poll_piece(message));
    let listed = and_piece(polled, checklist_piece(message));
    let rich = and_piece(listed, native_piece(message, "rich_message"@));
    let live = and_piece(rich, native_piece(message, "live_photo"@));
    let paid = and_piece(live, native_piece(message, "paid_media"@));
    and_piece(paid, native_piece(message, "story"@))
}

/// The content belongs to the piece, or there is neither.
spec fn fits_piece(
    content: Option<MessageContent>,
    piece: Option<Piece>,
    message: Map<Seq<char>, JsonView>,
) -> bool {
    match content {
        Some(content) => piece matches Some(piece) && is_content(content, piece, message),
        None => piece is None,
    }
}

fn add_content(
    list: &mut Vec<MessageContent>,
    content: Option<MessageContent>,
    pieces: Ghost<Seq<Piece>>,
    piece: Ghost<Option<Piece>>,
    message: Ghost<Map<Seq<char>, JsonView>>,
)
    requires
        are_contents(old(list)@, pieces@, message@),
        fits_piece(content, piece@, message@),
    ensures
        are_contents(final(list)@, and_piece(pieces@, piece@), message@),
{
    let ghost before = list@;
    if let Some(content) = content {
        list.push(content);
        assert forall|i: int| 0 <= i < list@.len() implies is_content(
            #[trigger] list@[i],
            and_piece(pieces@, piece@)[i],
            message@,
        ) by {
            if i < before.len() {
                assert(is_content(before[i], pieces@[i], message@));
            }
        }
    }
}

fn read_text_piece(message: &Fields, key: &str, entities: &str) -> (content: Option<MessageContent>)
    ensures
        fits_piece(
            content,
            text_piece(json::fields(*message), key@, entities@),
            json::fields(*message),
        ),
{
    let text: &str = match message.text_at(key) {
        Some(text) => text,
        None => {
            return None;
        },
    };
    match message.array_at(entities) {
        Some(items) => if items.len() == 0 {
            Some(MessageContent::PlainText(text.to_owned()))
        } else {
            Some(MessageContent::RichText(read_text(text, items)))
        },
        None => Some(MessageContent::PlainText(text.to_owned())),
    }
}

fn make_media(
    file: File,
    width: Option<u32>,
    height: Option<u32>,
    duration: Option<Duration>,
    message: &Fields,
) -> (media: Media)
    ensures
        is_media(
            media,
            (MediaFacts { file: file@, width, height, duration }),
            json::fields(*message),
        ),
{
    Media {
        file,
        caption: text_at(message, "caption", "caption_entities"),
        thumbnail: None,
        width,
        height,
        duration,
        spoiler: flag(message, "has_media_spoiler"),
        alt_text: None,
        waveform: None,
        platform_data: None,
    }
}

fn find_pixels(n: u64) -> (pixels_found: Option<u32>)
    ensures
        pixels_found == pixels(n),
{
    if n <= u32::MAX as u64 {
        Some(n as u32)
    } else {
        None
    }
}

fn read_photo_piece(photos: &Option<Vec<PhotoSize>>, message: &Fields) -> (content: Option<
    MessageContent,
>)
    ensures
        fits_piece(content, photo_piece(*photos), json::fields(*message)),
{
    match photos {
        Some(photos) => match find_largest(photos) {
            Some(i) => {
                let photo: &PhotoSize = &photos[i];
                let media = make_media(
                    photo_file(photo),
                    find_pixels(photo.width),
                    find_pixels(photo.height),
                    None,
                    message,
                );
                Some(MessageContent::Image(media))
            },
            None => None,
        },
        None => None,
    }
}

fn read_media_piece(message: &Fields, key: &str, part: MediaPart) -> (content: Option<
    MessageContent,
>)
    ensures
        fits_piece(
            content,
            media_piece(json::fields(*message), key@, part),
            json::fields(*message),
        ),
{
    let members = match message.object_at(key) {
        Some(members) => members,
        None => {
            return None;
        },
    };
    let file = match read_file(members) {
        Some(file) => file,
        None => {
            return None;
        },
    };
    let media = make_media(
        file,
        u32_at(members, "width"),
        u32_at(members, "height"),
        duration_at(members, "duration"),
        message,
    );
    Some(
        match part {
            MediaPart::Image => MessageContent::Image(media),
            MediaPart::Animation => MessageContent::Animation(media),
            MediaPart::Audio => MessageContent::Audio(media),
            MediaPart::Video => MessageContent::Video(media),
            MediaPart::VideoNote => MessageContent::VideoNote(media),
            MediaPart::Document => MessageContent::File(media),
            MediaPart::Voice => MessageContent::VoiceNote(media),
        },
    )
}

fn read_sticker_piece(message: &Fields) -> (content: Option<MessageContent>)
    ensures
        fits_piece(content, sticker_piece(json::fields(*message)), json::fields(*message)),
{
    let members = match message.object_at("sticker") {
        Some(members) => members,
        None => {
            return None;
        },
    };
    let id: String = match members.string_at("file_id") {
        Some(id) => id,
        None => {
            return None;
        },
    };
    Some(
        MessageContent::Sticker(
            Sticker {
                id,
                pack_id: members.string_at("set_name"),
                emoji: members.string_at("emoji"),
                file: read_file(members),
                animated: flag(members, "is_animated"),
                video: flag(members, "is_video"),
                platform_data: None,
            },
        ),
    )
}

fn read_location(
    members: &Fields,
    title: Option<String>,
    address: Option<String>,
) -> (location: Option<LocationContent>)
    requires
        title is Some <==> address is Some,
    ensures
        match location {
            Some(location) => has_place(json::fields(*members)) && is_location(
                location,
                json::fields(*members),
                match (title, address) {
                    (Some(title), Some(address)) => Some((title@, address@)),
                    _ => None,
                },
            ),
            None => !has_place(json::fields(*members)),
        },
{
    let latitude = match real_at(members, "latitude") {
        Some(value) => value,
        None => {
            return None;
        },
    };
    let longitude = match real_at(members, "longitude") {
        Some(value) => value,
        None => {
            return None;
        },
    };
    let heading = match members.u64_at("heading") {
        Some(n) => if n <= u16::MAX as u64 {
            Some(n as u16)
        } else {
            None
        },
        None => None,
    };
    Some(
        LocationContent {
            latitude,
            longitude,
            title,
            address,
            horizontal_accuracy: real_at(members, "horizontal_accuracy"),
            live_period: duration_at(members, "live_period"),
            heading,
            proximity_alert_radius: u32_at(members, "proximity_alert_radius"),
            platform_data: None,
        },
    )
}

fn read_place_piece(message: &Fields) -> (content: Option<MessageContent>)
    ensures
        fits_piece(content, place_piece(json::fields(*message)), json::fields(*message)),
{
    if let Some(venue) = message.object_at("venue") {
        let members = match venue.object_at("location") {
            Some(members) => members,
            None => {
                return None;
            },
        };
        let title: String = match venue.string_at("title") {
            Some(title) => title,
            None => {
                return None;
            },
        };
        let address: String = match venue.string_at("address") {
            Some(address) => address,
            None => {
                return None;
            },
        };
        return match read_location(members, Some(title), Some(address)) {
            Some(location) => Some(MessageContent::Location(location)),
            None => None,
        };
    }
    match message.object_at("location") {
        Some(members) => match read_location(members, None, None) {
            Some(location) => Some(MessageContent::Location(location)),
            None => None,
        },
        None => None,
    }
}

fn read_contact_piece(message: &Fields) -> (content: Option<MessageContent>)
    ensures
        fits_piece(content, contact_piece(json::fields(*message)), json::fields(*message)),
{
    let members = match message.object_at("contact") {
        Some(members) => members,
        None => {
            return None;
        },
    };
    let value: String = match members.string_at("phone_number") {
        Some(value) => value,
        None => {
            return None;
        },
    };
    let first_name: String = match members.string_at("first_name") {
        Some(first_name) => first_name,
        None => {
            return None;
        },
    };
    let mut phone_numbers: Vec<PhoneNumber> = Vec::new();
    phone_numbers.push(PhoneNumber { label: None, value });
    let user_id = match members.i64_at("user_id") {
        Some(id) => Some(i64_text(id)),
        None => None,
    };
    Some(
        MessageContent::Contact(
            ContactCard {
                user_id,
                first_name,
                last_name: members.string_at("last_name"),
                phone_numbers,
                emails: Vec::new(),
                organization: None,
                vcard: members.string_at("vcard"),
                platform_data: None,
            },
        ),
    )
}

fn read_poll_piece(message: &Fields) -> (content: Option<MessageContent>)
    ensures
        fits_piece(content, poll_piece(json::fields(*message)), json::fields(*message)),
{
    match message.member("poll") {
        Some(value) => match telegram_poll(value) {
            Ok(found) => Some(MessageContent::Poll(found)),
            Err(_) => None,
        },
        None => None,
    }
}

fn read_task(value: &Json) -> (task: Option<ChecklistTask>)
    ensures
        match task {
            Some(task) => is_task(task, value@),
            None => !describes_task(value@),
        },
{
    let members = copy_members(value);
    let id: i64 = match members.i64_at("id") {
        Some(id) => id,
        None => {
            return None;
        },
    };
    let text = match text_at(&members, "text", "text_entities") {
        Some(text) => text,
        None => {
            return None;
        },
    };
    let completed = match members.i64_at("completion_date") {
        Some(date) => date != 0,
        None => false,
    };
    Some(
        ChecklistTask {
            id: Some(i64_text(id)),
            text,
            completed,
            completed_by: actor_at(&members, "completed_by_user", "completed_by_chat"),
            completed_at: instant_at(&members, "completion_date"),
            platform_data: Some(make_native(value.clone())),
        },
    )
}

/// Reads the tasks of a list.
pub fn read_tasks(items: &Vec<Json>) -> (tasks: Vec<ChecklistTask>)
    ensures
        are_tasks(tasks@, described_tasks(json::views(items@))),
{
    let ghost all = json::views(items@);
    let ghost keep = |item: JsonView| describes_task(item);
    let mut tasks: Vec<ChecklistTask> = Vec::new();
    let mut i: usize = 0;
    proof {
        assert(all.take(0) =~= Seq::<JsonView>::empty());
        reveal(Seq::filter);
        assert(all.take(0).filter(keep) =~= Seq::<JsonView>::empty());
    }
    while i < items.len()
        invariant
            i <= items@.len(),
            all == json::views(items@),
            keep == (|item: JsonView| describes_task(item)),
            are_tasks(tasks@, all.take(i as int).filter(keep)),
        decreases items@.len() - i,
    {
        let ghost before = tasks@;
        let ghost done = all.take(i as int).filter(keep);
        proof {
            assert(all[i as int] == items@[i as int]@);
            assert(all.take(i + 1).drop_last() =~= all.take(i as int));
            reveal(Seq::filter);
        }
        if let Some(task) = read_task(&items[i]) {
            tasks.push(task);
            assert forall|j: int| 0 <= j < tasks@.len() implies is_task(
                #[trigger] tasks@[j],
                done.push(all[i as int])[j],
            ) by {
                if j < before.len() {
                    assert(is_task(before[j], done[j]));
                }
            }
        }
        i += 1;
    }
    assert(all.take(items@.len() as int) =~= all);
    tasks
}

/// Reads the tasks under `key`.
pub fn tasks_at(members: &Fields, key: &str) -> (tasks: Vec<ChecklistTask>)
    ensures
        are_tasks(tasks@, described_tasks(reading::list_in(json::fields(*members), key@))),
{
    match members.array_at(key) {
        Some(items) => read_tasks(items),
        None => {
            let none: Vec<Json> = Vec::new();
            assert(json::views(none@) =~= Seq::<JsonView>::empty());
            read_tasks(&none)
        },
    }
}

fn read_checklist_piece(message: &Fields) -> (content: Option<MessageContent>)
    ensures
        fits_piece(content, checklist_piece(json::fields(*message)), json::fields(*message)),
{
    let members = match message.object_at("checklist") {
        Some(members) => members,
        None => {
            return None;
        },
    };
    let title = match text_at(members, "title", "title_entities") {
        Some(title) => title,
        None => {
            return None;
        },
    };
    Some(
        MessageContent::Checklist(
            Checklist {
                id: None,
                title,
                tasks: tasks_at(members, "tasks"),
                can_add_tasks: flag(members, "others_can_add_tasks"),
                can_mark_tasks_done: flag(members, "others_can_mark_tasks_as_done"),
                platform_data: Some(make_native(Json::object(members.clone()))),
            },
        ),
    )
}

fn read_native_piece(message: &Fields, key: &str) -> (content: Option<MessageContent>)
    ensures
        fits_piece(
            content,
            native_piece(json::fields(*message), key@),
            json::fields(*message),
        ),
{
    match message.member(key) {
        Some(value) => {
            let mut own = Fields::none();
            own.put(key, value.clone());
            Some(MessageContent::PlatformNative(make_native(Json::object(own))))
        },
        None => None,
    }
}

fn read_media_pieces(photos: &Option<Vec<PhotoSize>>, message: &Fields) -> (list: Vec<
    MessageContent,
>)
    ensures
        are_contents(
            list@,
            media_pieces(*photos, json::fields(*message)),
            json::fields(*message),
        ),
{
    let ghost members = json::fields(*message);
    let mut list: Vec<MessageContent> = Vec::new();
    let ghost none = Seq::<Piece>::empty();
    let ghost photo = photo_piece(*photos);
    add_content(
        &mut list,
        read_photo_piece(photos, message),
        Ghost(none),
        Ghost(photo),
        Ghost(members),
    );
    let ghost p1 = and_piece(none, photo);
    let ghost animation = media_piece(members, "animation"@, MediaPart::Animation);
    add_content(
        &mut list,
        read_media_piece(message, "animation", MediaPart::Animation),
        Ghost(p1),
        Ghost(animation),
        Ghost(members),
    );
    let ghost p2 = and_piece(p1, animation);
    let ghost audio = media_piece(members, "audio"@, MediaPart::Audio);
    add_content(
        &mut list,
        read_media_piece(message, "audio", MediaPart::Audio),
        Ghost(p2),
        Ghost(audio),
        Ghost(members),
    );
    let ghost p3 = and_piece(p2, audio);
    let ghost video = media_piece(members, "video"@, MediaPart::Video);
    add_content(
        &mut list,
        read_media_piece(message, "video", MediaPart::Video),
        Ghost(p3),
        Ghost(video),
        Ghost(members),
    );
    let ghost p4 = and_piece(p3, video);
    let ghost note = media_piece(members, "video_note"@, MediaPart::VideoNote);
    add_content(
        &mut list,
        read_media_piece(message, "video_note", MediaPart::VideoNote),
        Ghost(p4),
        Ghost(note),
        Ghost(members),
    );
    let ghost p5 = and_piece(p4, note);
    let ghost document = if members.contains_key("animation"@) {
        None
    } else {
        media_piece(members, "document"@, MediaPart::Document)
    };
    let found = if message.contains_key("animation") {
        None
    } else {
        read_media_piece(message, "document", MediaPart::Document)
    };
    add_content(&mut list, found, Ghost(p5), Ghost(document), Ghost(members));
    let ghost p6 = and_piece(p5, document);
    let ghost voice = media_piece(members, "voice"@, MediaPart::Voice);
    add_content(
        &mut list,
        read_media_piece(message, "voice", MediaPart::Voice),
        Ghost(p6),
        Ghost(voice),
        Ghost(members),
    );
    let ghost p7 = and_piece(p6, voice);
    add_content(
        &mut list,
        read_sticker_piece(message),
        Ghost(p7),
        Ghost(sticker_piece(members)),
        Ghost(members),
    );
    list
}

fn add_told(
    list: &mut Vec<MessageContent>,
    media: Vec<MessageContent>,
    told: Ghost<Seq<Piece>>,
    pieces: Ghost<Seq<Piece>>,
    message: Ghost<Map<Seq<char>, JsonView>>,
)
    requires
        are_contents(old(list)@, told@, message@),
        are_contents(media@, pieces@, message@),
    ensures
        are_contents(final(list)@, told@ + pieces@, message@),
{
    let ghost start = list@;
    let ghost more = media@;
    let mut media = media;
    list.append(&mut media);
    assert(list@ =~= start + more);
    assert forall|i: int| 0 <= i < list@.len() implies is_content(
        #[trigger] list@[i],
        (told@ + pieces@)[i],
        message@,
    ) by {
        if i < start.len() {
            assert(is_content(start[i], told@[i], message@));
        } else {
            assert(is_content(more[i - start.len()], pieces@[i - start.len()], message@));
        }
    }
}

fn read_content(photos: &Option<Vec<PhotoSize>>, message: &Fields) -> (list: Vec<MessageContent>)
    ensures
        are_contents(
            list@,
            message_pieces(*photos, json::fields(*message)),
            json::fields(*message),
        ),
{
    let ghost members = json::fields(*message);
    let mut list: Vec<MessageContent> = Vec::new();
    let ghost none = Seq::<Piece>::empty();
    let ghost text = text_piece(members, "text"@, "entities"@);
    add_content(
        &mut list,
        read_text_piece(message, "text", "entities"),
        Ghost(none),
        Ghost(text),
        Ghost(members),
    );
    let media = read_media_pieces(photos, message);
    let ghost shown = media_pieces(*photos, members);
    let bare = media.len() == 0;
    add_told(&mut list, media, Ghost(and_piece(none, text)), Ghost(shown), Ghost(members));
    let ghost told = and_piece(none, text) + shown;
    let ghost caption = if bare {
        text_piece(members, "caption"@, "caption_entities"@)
    } else {
        None
    };
    let found = if bare {
        read_text_piece(message, "caption", "caption_entities")
    } else {
        None
    };
    add_content(&mut list, found, Ghost(told), Ghost(caption), Ghost(members));
    let ghost p1 = and_piece(told, caption);
    let ghost place = place_piece(members);
    add_content(&mut list, read_place_piece(message), Ghost(p1), Ghost(place), Ghost(members));
    let ghost p2 = and_piece(p1, place);
    let ghost contact = contact_piece(members);
    add_content(&mut list, read_contact_piece(message), Ghost(p2), Ghost(contact), Ghost(members));
    let ghost p3 = and_piece(p2, contact);
    let ghost polled = poll_piece(members);
    add_content(&mut list, read_poll_piece(message), Ghost(p3), Ghost(polled), Ghost(members));
    let ghost p4 = and_piece(p3, polled);
    let ghost listed = checklist_piece(members);
    add_content(&mut list, read_checklist_piece(message), Ghost(p4), Ghost(listed), Ghost(members));
    let ghost p5 = and_piece(p4, listed);
    let ghost rich = native_piece(members, "rich_message"@);
    add_content(
        &mut list,
        read_native_piece(message, "rich_message"),
        Ghost(p5),
        Ghost(rich),
        Ghost(members),
    );
    let ghost p6 = and_piece(p5, rich);
    let ghost live = native_piece(members, "live_photo"@);
    add_content(
        &mut list,
        read_native_piece(message, "live_photo"),
        Ghost(p6),
        Ghost(live),
        Ghost(members),
    );
    let ghost p7 = and_piece(p6, live);
    let ghost paid = native_piece(members, "paid_media"@);
    add_content(
        &mut list,
        read_native_piece(message, "paid_media"),
        Ghost(p7),
        Ghost(paid),
        Ghost(members),
    );
    let ghost p8 = and_piece(p7, paid);
    add_content(
        &mut list,
        read_native_piece(message, "story"),
        Ghost(p8),
        Ghost(native_piece(members, "story"@)),
        Ghost(members),
    );
    list
}

// ---------------------------------------------------------------------------
// Envelopes
// ---------------------------------------------------------------------------

/// The envelope says what Telegram sent: the message, who sent it, where it
/// stands, when it was sent and changed, what it says, what it answers, where
/// it comes from, the reactions to it, what it pins, and the whole document.
pub open spec fn is_envelope(envelope: MessageEnvelope, message: Message, raw: JsonView) -> bool {
    let members = members_of(raw);
    &&& envelope.conversation@ == place_view(message, members)
    &&& envelope.reference@ == address::sent_ref_view(message, envelope.conversation)
    &&& reading::optional_user(envelope.sender) == event::actor(message.from, message.sender_chat)
    &&& envelope.created_at == time::instant_of(message.date)
    &&& envelope.edited_at == reading::instant_in(members, "edit_date"@)
    &&& are_contents(envelope.content@, message_pieces(message.photo, members), members)
    &&& reading::optional_ref(envelope.reply_to) == reading::ref_under(
        members,
        "reply_to_message"@,
    )
    &&& tells_reply(envelope.reply_context, members)
    &&& reading::optional_ref(envelope.forwarded_from) == forwarded_view(members)
    &&& tells_forward(envelope.forward_context, members)
    &&& reading::are_summaries(
        envelope.reactions@,
        reading::counted(reading::list_in(members, "reactions"@)),
    )
    &&& reading::optional_ref(envelope.pins) == reading::ref_under(members, "pinned_message"@)
    &&& native::optional_native(envelope.platform_data) == Some(native::telegram_native(raw))
}

/// Reads a message that Telegram sent; `raw` is its document.
pub fn telegram_message_envelope(message: &Message, raw: Json) -> (envelope: MessageEnvelope)
    ensures
        is_envelope(envelope, *message, raw@),
{
    let members = copy_members(&raw);
    let conversation = find_place(message, &members);
    let reference = telegram_sent_ref(message, &conversation);
    let (forwarded_from, forward_context) = read_forward(&members);
    let reactions = match members.array_at("reactions") {
        Some(items) => read_summaries(items),
        None => {
            let none: Vec<Json> = Vec::new();
            assert(json::views(none@) =~= Seq::<JsonView>::empty());
            read_summaries(&none)
        },
    };
    MessageEnvelope {
        reference,
        sender: find_actor(&message.from, &message.sender_chat),
        conversation,
        created_at: instant(message.date),
        edited_at: instant_at(&members, "edit_date"),
        content: read_content(&message.photo, &members),
        reply_to: ref_at(&members, "reply_to_message"),
        reply_context: read_reply(&members),
        forwarded_from,
        forward_context,
        reactions,
        pins: ref_at(&members, "pinned_message"),
        platform_data: Some(make_native(raw)),
    }
}

// ---------------------------------------------------------------------------
// Laws
// ---------------------------------------------------------------------------

proof fn lemma_piece_kept(pieces: Seq<Piece>, more: Option<Piece>, piece: Piece)
    ensures
        pieces.contains(piece) ==> and_piece(pieces, more).contains(piece),
        more == Some(piece) ==> and_piece(pieces, more).contains(piece),
{
    if pieces.contains(piece) {
        let i = choose|i: int| 0 <= i < pieces.len() && pieces[i] == piece;
        assert(and_piece(pieces, more)[i] == piece);
    }
    if more == Some(piece) {
        assert(and_piece(pieces, more)[pieces.len() as int] == piece);
    }
}

spec fn says_media(
    photos: Option<Vec<PhotoSize>>,
    message: Map<Seq<char>, JsonView>,
    piece: Piece,
) -> bool {
    ||| photo_piece(photos) == Some(piece)
    ||| media_piece(message, "animation"@, MediaPart::Animation) == Some(piece)
    ||| media_piece(message, "audio"@, MediaPart::Audio) == Some(piece)
    ||| media_piece(message, "video"@, MediaPart::Video) == Some(piece)
    ||| media_piece(message, "video_note"@, MediaPart::VideoNote) == Some(piece)
    ||| !message.contains_key("animation"@) && media_piece(
        message,
        "document"@,
        MediaPart::Document,
    ) == Some(piece)
    ||| media_piece(message, "voice"@, MediaPart::Voice) == Some(piece)
    ||| sticker_piece(message) == Some(piece)
}

proof fn lemma_media_said(
    photos: Option<Vec<PhotoSize>>,
    message: Map<Seq<char>, JsonView>,
    piece: Piece,
)
    requires
        says_media(photos, message, piece),
    ensures
        media_pieces(photos, message).contains(piece),
{
    let a = photo_piece(photos);
    let b = media_piece(message, "animation"@, MediaPart::Animation);
    let c = media_piece(message, "audio"@, MediaPart::Audio);
    let d = media_piece(message, "video"@, MediaPart::Video);
    let e = media_piece(message, "video_note"@, MediaPart::VideoNote);
    let f = media_piece(message, "document"@, MediaPart::Document);
    let g = media_piece(message, "voice"@, MediaPart::Voice);
    let h = sticker_piece(message);
    let none = Seq::<Piece>::empty();
    let s1 = and_piece(none, a);
    let s2 = and_piece(s1, b);
    let s3 = and_piece(s2, c);
    let s4 = and_piece(s3, d);
    let s5 = and_piece(s4, e);
    let s6 = if message.contains_key("animation"@) {
        s5
    } else {
        and_piece(s5, f)
    };
    let s7 = and_piece(s6, g);
    lemma_piece_kept(none, a, piece);
    lemma_piece_kept(s1, b, piece);
    lemma_piece_kept(s2, c, piece);
    lemma_piece_kept(s3, d, piece);
    lemma_piece_kept(s4, e, piece);
    lemma_piece_kept(s5, f, piece);
    lemma_piece_kept(s6, g, piece);
    lemma_piece_kept(s7, h, piece);
}

spec fn says_piece(
    photos: Option<Vec<PhotoSize>>,
    message: Map<Seq<char>, JsonView>,
    piece: Piece,
) -> bool {
    ||| text_piece(message, "text"@, "entities"@) == Some(piece)
    ||| says_media(photos, message, piece)
    ||| place_piece(message) == Some(piece)
    ||| contact_piece(message) == Some(piece)
    ||| poll_piece(message) == Some(piece)
    ||| checklist_piece(message) == Some(piece)
}

proof fn lemma_piece_said(
    photos: Option<Vec<PhotoSize>>,
    message: Map<Seq<char>, JsonView>,
    piece: Piece,
)
    requires
        says_piece(photos, message, piece),
    ensures
        message_pieces(photos, message).contains(piece),
{
    let none = Seq::<Piece>::empty();
    let media = media_pieces(photos, message);
    let a = text_piece(message, "text"@, "entities"@);
    let first = and_piece(none, a);
    lemma_piece_kept(none, a, piece);
    let told = first + media;
    if says_media(photos, message, piece) {
        lemma_media_said(photos, message, piece);
        let i = choose|i: int| 0 <= i < media.len() && media[i] == piece;
        assert(told[first.len() + i] == piece);
    }
    if first.contains(piece) {
        let i = choose|i: int| 0 <= i < first.len() && first[i] == piece;
        assert(told[i] == piece);
    }
    let b = text_piece(message, "caption"@, "caption_entities"@);
    let captioned = if media.len() == 0 {
        and_piece(told, b)
    } else {
        told
    };
    lemma_piece_kept(told, b, piece);
    let c = place_piece(message);
    let d = contact_piece(message);
    let e = poll_piece(message);
    let f = checklist_piece(message);
    let g = native_piece(message, "rich_message"@);
    let h = native_piece(message, "live_photo"@);
    let j = native_piece(message, "paid_media"@);
    let k = native_piece(message, "story"@);
    let s1 = and_piece(captioned, c);
    let s2 = and_piece(s1, d);
    let s3 = and_piece(s2, e);
    let s4 = and_piece(s3, f);
    let s5 = and_piece(s4, g);
    let s6 = and_piece(s5, h);
    let s7 = and_piece(s6, j);
    lemma_piece_kept(captioned, c, piece);
    lemma_piece_kept(s1, d, piece);
    lemma_piece_kept(s2, e, piece);
    lemma_piece_kept(s3, f, piece);
    lemma_piece_kept(s4, g, piece);
    lemma_piece_kept(s5, h, piece);
    lemma_piece_kept(s6, j, piece);
    lemma_piece_kept(s7, k, piece);
}

proof fn lemma_piece_held(
    envelope: MessageEnvelope,
    message: Message,
    members: Map<Seq<char>, JsonView>,
    piece: Piece,
) -> (i: int)
    requires
        is_envelope(envelope, message, JsonView::Object(members)),
        says_piece(message.photo, members, piece),
    ensures
        0 <= i < envelope.content@.len(),
        is_content(envelope.content@[i], piece, members),
{
    let pieces = message_pieces(message.photo, members);
    lemma_piece_said(message.photo, members, piece);
    let i = choose|i: int| 0 <= i < pieces.len() && pieces[i] == piece;
    assert(is_content(envelope.content@[i], pieces[i], members));
    i
}

/// The content is media of the named sort, with the file, the length and the
/// cover that the message says.
pub open spec fn shows_media(
    content: MessageContent,
    key: Seq<char>,
    members: Map<Seq<char>, JsonView>,
    inner: Map<Seq<char>, JsonView>,
) -> bool {
    let media = match content {
        MessageContent::Animation(media) => media,
        MessageContent::Audio(media) => media,
        MessageContent::Video(media) => media,
        MessageContent::VideoNote(media) => media,
        MessageContent::VoiceNote(media) => media,
        MessageContent::File(media) => media,
        _ => content->Image_0,
    };
    &&& key == "animation"@ <==> content is Animation
    &&& key == "audio"@ <==> content is Audio
    &&& key == "video"@ <==> content is Video
    &&& key == "video_note"@ <==> content is VideoNote
    &&& key == "voice"@ <==> content is VoiceNote
    &&& key == "document"@ <==> content is File
    &&& media.file@.id == json::text_in(inner, "file_id"@)
    &&& media.duration matches Some(span) ==> json::u64_in(inner, "duration"@) == Some(span.seconds)
    &&& json::u64_in(inner, "duration"@) is Some ==> media.duration is Some
    &&& media.width == reading::u32_in(inner, "width"@)
    &&& media.height == reading::u32_in(inner, "height"@)
    &&& media.spoiler <==> json::bool_in(members, "has_media_spoiler"@) == Some(true)
    &&& media.thumbnail is None
    &&& media.alt_text is None
    &&& media.platform_data is None
    &&& media.caption matches Some(caption) ==> json::text_in(members, "caption"@) == Some(
        caption.text@,
    )
}

proof fn lemma_media_names()
    ensures
        "animation"@.len() == 9,
        "audio"@.len() == 5,
        "video"@.len() == 5,
        "video_note"@.len() == 10,
        "voice"@.len() == 5,
        "document"@.len() == 8,
        "audio"@ != "video"@,
        "audio"@ != "voice"@,
        "video"@ != "voice"@,
{
    reveal_strlit("animation");
    reveal_strlit("audio");
    reveal_strlit("video");
    reveal_strlit("video_note");
    reveal_strlit("voice");
    reveal_strlit("document");
    assert("audio"@[0] != "video"@[0]);
    assert("audio"@[0] != "voice"@[0]);
    assert("video"@[1] != "voice"@[1]);
}

/// Media of a message is kept as what it is: a video as a video, a voice note
/// as a voice note, and so on, with its own file. A document beside an
/// animation is that animation again and stands once.
pub proof fn law_media_are_kept_as_they_are(
    envelope: MessageEnvelope,
    message: Message,
    members: Map<Seq<char>, JsonView>,
    key: Seq<char>,
    inner: Map<Seq<char>, JsonView>,
)
    requires
        is_envelope(envelope, message, JsonView::Object(members)),
        key == "animation"@ || key == "audio"@ || key == "video"@ || key == "video_note"@ || key
            == "voice"@ || key == "document"@ && !members.contains_key("animation"@),
        json::object_in(members, key) == Some(inner),
        json::text_in(inner, "file_id"@) is Some,
    ensures
        exists|i: int|
            0 <= i < envelope.content@.len() && shows_media(
                #[trigger] envelope.content@[i],
                key,
                members,
                inner,
            ),
{
    lemma_media_names();
    let part = if key == "animation"@ {
        MediaPart::Animation
    } else if key == "audio"@ {
        MediaPart::Audio
    } else if key == "video"@ {
        MediaPart::Video
    } else if key == "video_note"@ {
        MediaPart::VideoNote
    } else if key == "voice"@ {
        MediaPart::Voice
    } else {
        MediaPart::Document
    };
    let piece = media_piece(members, key, part)->0;
    let i = lemma_piece_held(envelope, message, members, piece);
    assert(shows_media(envelope.content@[i], key, members, inner));
}

/// The picture of a message is kept as a picture.
pub proof fn law_pictures_are_kept(
    envelope: MessageEnvelope,
    message: Message,
    members: Map<Seq<char>, JsonView>,
)
    requires
        is_envelope(envelope, message, JsonView::Object(members)),
        message.photo is Some,
        message.photo->0@.len() > 0,
    ensures
        exists|i: int|
            0 <= i < envelope.content@.len() && (#[trigger] envelope.content@[i] is Image)
                && envelope.content@[i]->Image_0.spoiler == (json::bool_in(
                members,
                "has_media_spoiler"@,
            ) == Some(true)),
{
    let piece = photo_piece(message.photo)->0;
    let i = lemma_piece_held(envelope, message, members, piece);
    assert(envelope.content@[i] is Image);
}

/// The text of a message is kept word for word.
pub proof fn law_texts_are_kept(
    envelope: MessageEnvelope,
    message: Message,
    members: Map<Seq<char>, JsonView>,
    text: Seq<char>,
)
    requires
        is_envelope(envelope, message, JsonView::Object(members)),
        json::text_in(members, "text"@) == Some(text),
    ensures
        exists|i: int|
            0 <= i < envelope.content@.len() && shows_text(#[trigger] envelope.content@[i], text),
{
    let piece = text_piece(members, "text"@, "entities"@)->0;
    let i = lemma_piece_held(envelope, message, members, piece);
    assert(shows_text(envelope.content@[i], text));
}

/// The content is the text.
pub open spec fn shows_text(content: MessageContent, text: Seq<char>) -> bool {
    ||| content matches MessageContent::PlainText(own) && own@ == text
    ||| content matches MessageContent::RichText(rich) && rich.text@ == text
}

/// The content is the place: its latitude and its longitude each where it
/// belongs, with its title and its address where it has them.
pub open spec fn shows_place(
    content: MessageContent,
    place: Map<Seq<char>, JsonView>,
    title: Option<Seq<char>>,
    address: Option<Seq<char>>,
) -> bool {
    &&& content matches MessageContent::Location(location)
    &&& json::member(place, "latitude"@) matches Some(JsonView::Real(text)) ==> (
    location.latitude matches Real::Finite(own) && own@ == text)
    &&& json::member(place, "longitude"@) matches Some(JsonView::Real(text)) ==> (
    location.longitude matches Real::Finite(own) && own@ == text)
    &&& json::optional_chars(location.title) == title
    &&& json::optional_chars(location.address) == address
}

/// A place of a message is kept, and a venue with its name and its address.
pub proof fn law_places_are_kept(
    envelope: MessageEnvelope,
    message: Message,
    members: Map<Seq<char>, JsonView>,
    place: Map<Seq<char>, JsonView>,
)
    requires
        is_envelope(envelope, message, JsonView::Object(members)),
        has_place(place),
    ensures
        json::object_in(members, "venue"@) is None && json::object_in(members, "location"@) == Some(
            place,
        ) ==> exists|i: int|
            0 <= i < envelope.content@.len() && shows_place(
                #[trigger] envelope.content@[i],
                place,
                None,
                None,
            ),
        json::object_in(members, "venue"@) matches Some(venue) ==> (json::object_in(
            venue,
            "location"@,
        ) == Some(place) && json::text_in(venue, "title"@) is Some && json::text_in(
            venue,
            "address"@,
        ) is Some ==> exists|i: int|
            0 <= i < envelope.content@.len() && shows_place(
                #[trigger] envelope.content@[i],
                place,
                json::text_in(venue, "title"@),
                json::text_in(venue, "address"@),
            )),
{
    if json::object_in(members, "venue"@) is None && json::object_in(members, "location"@) == Some(
        place,
    ) {
        let i = lemma_piece_held(envelope, message, members, Piece::Location(place, None));
        assert(shows_place(envelope.content@[i], place, None, None));
    }
    if let Some(venue) = json::object_in(members, "venue"@) {
        if json::object_in(venue, "location"@) == Some(place) && json::text_in(
            venue,
            "title"@,
        ) is Some && json::text_in(venue, "address"@) is Some {
            let title = json::text_in(venue, "title"@)->0;
            let address = json::text_in(venue, "address"@)->0;
            let piece = Piece::Location(place, Some((title, address)));
            let i = lemma_piece_held(envelope, message, members, piece);
            assert(shows_place(envelope.content@[i], place, Some(title), Some(address)));
        }
    }
}

/// The content is the contact.
pub open spec fn shows_contact(content: MessageContent, card: Map<Seq<char>, JsonView>) -> bool {
    &&& content matches MessageContent::Contact(contact)
    &&& contact.phone_numbers@.len() == 1
    &&& json::text_in(card, "phone_number"@) == Some(contact.phone_numbers@[0].value@)
    &&& json::text_in(card, "first_name"@) == Some(contact.first_name@)
    &&& json::optional_chars(contact.last_name) == json::text_in(card, "last_name"@)
    &&& json::optional_chars(contact.vcard) == json::text_in(card, "vcard"@)
    &&& json::i64_in(card, "user_id"@) matches Some(id) ==> (contact.user_id matches Some(own)
        && text::i64_value(own@) == Some(id))
}

/// The content is the sticker: it moves where Telegram says that it is animated
/// and is a video where Telegram says that it is one.
pub open spec fn shows_sticker(content: MessageContent, picture: Map<Seq<char>, JsonView>) -> bool {
    &&& content matches MessageContent::Sticker(sticker)
    &&& json::text_in(picture, "file_id"@) == Some(sticker.id@)
    &&& json::optional_chars(sticker.pack_id) == json::text_in(picture, "set_name"@)
    &&& json::optional_chars(sticker.emoji) == json::text_in(picture, "emoji"@)
    &&& sticker.animated <==> json::bool_in(picture, "is_animated"@) == Some(true)
    &&& sticker.video <==> json::bool_in(picture, "is_video"@) == Some(true)
}

/// The content is the checklist, with what others may do to it.
pub open spec fn shows_checklist(content: MessageContent, list: Map<Seq<char>, JsonView>) -> bool {
    &&& content matches MessageContent::Checklist(checklist)
    &&& json::text_in(list, "title"@) == Some(checklist.title.text@)
    &&& checklist.can_add_tasks <==> json::bool_in(list, "others_can_add_tasks"@) == Some(true)
    &&& checklist.can_mark_tasks_done <==> json::bool_in(list, "others_can_mark_tasks_as_done"@)
        == Some(true)
}

/// Contacts, stickers and checklists of a message are kept as they are.
pub proof fn law_other_contents_are_kept(
    envelope: MessageEnvelope,
    message: Message,
    members: Map<Seq<char>, JsonView>,
    inner: Map<Seq<char>, JsonView>,
)
    requires
        is_envelope(envelope, message, JsonView::Object(members)),
    ensures
        json::object_in(members, "contact"@) == Some(inner) && has_contact(inner) ==> exists|i: int|
            0 <= i < envelope.content@.len() && shows_contact(#[trigger] envelope.content@[i], inner),
        json::object_in(members, "sticker"@) == Some(inner) && json::text_in(
            inner,
            "file_id"@,
        ) is Some ==> exists|i: int|
            0 <= i < envelope.content@.len() && shows_sticker(#[trigger] envelope.content@[i], inner),
        json::object_in(members, "checklist"@) == Some(inner) && json::text_in(
            inner,
            "title"@,
        ) is Some ==> exists|i: int|
            0 <= i < envelope.content@.len() && shows_checklist(
                #[trigger] envelope.content@[i],
                inner,
            ),
{
    if json::object_in(members, "contact"@) == Some(inner) && has_contact(inner) {
        if let Some(id) = json::i64_in(inner, "user_id"@) {
            text::lemma_decimal_round_trip(id as int);
        }
        let i = lemma_piece_held(envelope, message, members, Piece::Contact(inner));
        assert(shows_contact(envelope.content@[i], inner));
    }
    if json::object_in(members, "sticker"@) == Some(inner) && json::text_in(
        inner,
        "file_id"@,
    ) is Some {
        let i = lemma_piece_held(envelope, message, members, Piece::Sticker(inner));
        assert(shows_sticker(envelope.content@[i], inner));
    }
    if json::object_in(members, "checklist"@) == Some(inner) && json::text_in(
        inner,
        "title"@,
    ) is Some {
        let i = lemma_piece_held(envelope, message, members, Piece::Checklist(inner));
        assert(shows_checklist(envelope.content@[i], inner));
    }
}

/// A task is done exactly where it says when it was done.
pub proof fn law_tasks_are_done_when_they_say_so(
    task: ChecklistTask,
    members: Map<Seq<char>, JsonView>,
)
    requires
        is_task(task, JsonView::Object(members)),
    ensures
        json::i64_in(members, "completion_date"@) is None || json::i64_in(
            members,
            "completion_date"@,
        ) == Some(0i64) ==> !task.completed,
        json::i64_in(members, "completion_date"@) matches Some(date) ==> (date != 0
            ==> task.completed),
        json::i64_in(members, "id"@) matches Some(id) && (task.id matches Some(own)
            && text::i64_value(own@) == Some(id)),
        json::text_in(members, "text"@) == Some(task.text.text@),
{
    text::lemma_decimal_round_trip(json::i64_in(members, "id"@)->0 as int);
}

/// A message stands in its topic where it is one of a topic, and otherwise in
/// its chat; it is found by its number, comes from its sender, and answers the
/// message that it names.
pub proof fn law_envelopes_say_where_they_come_from(
    envelope: MessageEnvelope,
    message: Message,
    members: Map<Seq<char>, JsonView>,
)
    requires
        is_envelope(envelope, message, JsonView::Object(members)),
    ensures
        text::i64_value(envelope.reference.id@) == Some(message.message_id),
        message.from matches Some(user) ==> (envelope.sender matches Some(sender)
            && text::i64_value(sender.id@) == Some(user.id)),
        json::bool_in(members, "is_topic_message"@) != Some(true) && json::object_in(
            members,
            "direct_messages_topic"@,
        ) is None ==> text::i64_value(envelope.conversation.id@) == Some(message.chat.id)
            && envelope.conversation.parent is None,
        json::bool_in(members, "is_topic_message"@) == Some(true) ==> (json::i64_in(
            members,
            "message_thread_id"@,
        ) matches Some(topic) ==> (text::i64_value(envelope.conversation.id@) == Some(topic)
            && envelope.conversation.kind is Topic && (envelope.conversation.parent matches Some(chat)
            && text::i64_value(chat.id@) == Some(message.chat.id)))),
        json::object_in(members, "reply_to_message"@) matches Some(replied) ==> (reading::ref_of(
            replied,
        ) is Some ==> (envelope.reply_to matches Some(reference) && json::i64_in(
            replied,
            "message_id"@,
        ) is Some && text::i64_value(reference.id@) == json::i64_in(replied, "message_id"@))),
        json::object_in(members, "reply_to_message"@) is None ==> envelope.reply_to is None,
{
    text::lemma_decimal_round_trip(message.message_id as int);
    text::lemma_decimal_round_trip(message.chat.id as int);
    if let Some(user) = message.from {
        text::lemma_decimal_round_trip(user.id as int);
    }
    if let Some(topic) = json::i64_in(members, "message_thread_id"@) {
        text::lemma_decimal_round_trip(topic as int);
    }
    if let Some(replied) = json::object_in(members, "reply_to_message"@) {
        if let Some(number) = json::i64_in(replied, "message_id"@) {
            text::lemma_decimal_round_trip(number as int);
        }
    }
    assert(envelope.conversation@.parent matches Some(chat) ==> (
    envelope.conversation.parent matches Some(own) && own@.id == chat.id)) by {
        reveal_with_fuel(conversation::conversation_view, 3);
    }
}

/// A forwarded message names where it came from: a user as that user, one who
/// hides by the name alone, a chat as that chat, and a channel with the message
/// there.
pub proof fn law_forwards_name_their_origin(
    envelope: MessageEnvelope,
    message: Message,
    members: Map<Seq<char>, JsonView>,
)
    requires
        is_envelope(envelope, message, JsonView::Object(members)),
    ensures
        json::object_in(members, "forward_origin"@) matches Some(origin) ==> {
            &&& envelope.forward_context matches Some(context)
            &&& context.automatically_forwarded <==> json::bool_in(members, "is_automatic_forward"@)
                == Some(true)
            &&& json::text_in(origin, "type"@) == Some("user"@) ==> (json::object_in(
                origin,
                "sender_user"@,
            ) matches Some(user) ==> (json::i64_in(user, "id"@) matches Some(id) ==> (
            context.origin matches MessageOrigin::User(own) && text::i64_value(own.id@) == Some(id))))
            &&& json::text_in(origin, "type"@) == Some("hidden_user"@) ==> (json::text_in(
                origin,
                "sender_user_name"@,
            ) matches Some(name) ==> (context.origin matches MessageOrigin::HiddenUser { name: own }
                && own@ == name))
            &&& json::text_in(origin, "type"@) == Some("chat"@) ==> (json::object_in(
                origin,
                "sender_chat"@,
            ) matches Some(chat) ==> (json::i64_in(chat, "id"@) matches Some(id) ==> (
            context.origin matches MessageOrigin::Conversation { conversation, message: there, .. }
                && text::i64_value(conversation.id@) == Some(id) && there is None)))
            &&& json::text_in(origin, "type"@) == Some("channel"@) ==> (json::object_in(
                origin,
                "chat"@,
            ) matches Some(chat) ==> (json::i64_in(chat, "id"@) matches Some(id) ==> (
            context.origin matches MessageOrigin::Conversation { conversation, message: there, .. }
                && text::i64_value(conversation.id@) == Some(id) && (json::i64_in(
                origin,
                "message_id"@,
            ) matches Some(number) ==> (there matches Some(reference) && text::i64_value(
                reference.id@,
            ) == Some(number))))))
        },
        json::member(members, "forward_origin"@) is None ==> envelope.forward_context is None,
{
    lemma_origin_names();
    if let Some(origin) = json::object_in(members, "forward_origin"@) {
        if let Some(user) = json::object_in(origin, "sender_user"@) {
            if let Some(id) = json::i64_in(user, "id"@) {
                text::lemma_decimal_round_trip(id as int);
            }
        }
        if let Some(chat) = json::object_in(origin, "sender_chat"@) {
            if let Some(id) = json::i64_in(chat, "id"@) {
                text::lemma_decimal_round_trip(id as int);
            }
        }
        if let Some(chat) = json::object_in(origin, "chat"@) {
            if let Some(id) = json::i64_in(chat, "id"@) {
                text::lemma_decimal_round_trip(id as int);
            }
        }
        if let Some(number) = json::i64_in(origin, "message_id"@) {
            text::lemma_decimal_round_trip(number as int);
        }
    }
}

proof fn lemma_origin_names()
    ensures
        "user"@.len() == 4,
        "hidden_user"@.len() == 11,
        "chat"@.len() == 4,
        "channel"@.len() == 7,
        "user"@ != "chat"@,
{
    reveal_strlit("user");
    reveal_strlit("hidden_user");
    reveal_strlit("chat");
    reveal_strlit("channel");
    assert("user"@[0] != "chat"@[0]);
}

/// An envelope says when its message was changed, what was reacted to it, and
/// what of another message it quotes and where; a topic of direct messages is
/// named by its number.
pub proof fn law_envelopes_say_what_happened_to_them(
    envelope: MessageEnvelope,
    message: Message,
    members: Map<Seq<char>, JsonView>,
)
    requires
        is_envelope(envelope, message, JsonView::Object(members)),
    ensures
        json::i64_in(members, "edit_date"@) is None ==> envelope.edited_at is None,
        json::i64_in(members, "edit_date"@) matches Some(date) ==> envelope.edited_at
            == time::instant_of(date),
        reading::are_summaries(
            envelope.reactions@,
            reading::counted(reading::list_in(members, "reactions"@)),
        ),
        json::object_in(members, "quote"@) matches Some(quote) ==> (
        envelope.reply_context matches Some(context) && context.quote_position == reading::u32_in(
            quote,
            "position"@,
        ) && (json::text_in(quote, "text"@) matches Some(text) ==> (context.quote matches Some(own)
            && own.text@ == text))),
        json::object_in(members, "external_reply"@) matches Some(external) ==> (
        envelope.reply_context matches Some(context) && (json::member(external, "origin"@) matches Some(
            origin,
        ) ==> (context.external_origin matches Some(own) && own@ == origin_of(origin)))),
        json::bool_in(members, "is_topic_message"@) != Some(true) ==> (json::object_in(
            members,
            "direct_messages_topic"@,
        ) matches Some(topic) ==> (json::i64_in(topic, "topic_id"@) matches Some(number) ==> (
        text::i64_value(envelope.conversation.id@) == Some(number)
            && envelope.conversation.kind is Topic))),
{
    if let Some(topic) = json::object_in(members, "direct_messages_topic"@) {
        if let Some(number) = json::i64_in(topic, "topic_id"@) {
            text::lemma_decimal_round_trip(number as int);
        }
    }
}

/// A forwarded post keeps the signature of its author and its date, and a task
/// that was done says who did it.
pub proof fn law_authors_are_kept(
    context: Option<ForwardContext>,
    members: Map<Seq<char>, JsonView>,
    origin: Map<Seq<char>, JsonView>,
    task: ChecklistTask,
    described: Map<Seq<char>, JsonView>,
)
    requires
        tells_forward(context, members),
        json::object_in(members, "forward_origin"@) == Some(origin),
        is_task(task, JsonView::Object(described)),
    ensures
        context matches Some(own) && own.sent_at == reading::instant_in(origin, "date"@) && (
        own.origin matches MessageOrigin::Conversation { author_signature, .. }
            ==> json::optional_chars(author_signature) == json::text_in(
            origin,
            "author_signature"@,
        )),
        reading::optional_user(task.completed_by) == reading::actor_in(
            described,
            "completed_by_user"@,
            "completed_by_chat"@,
        ),
{
    lemma_origin_names();
}

} // verus!
