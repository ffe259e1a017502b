//! Users, files, reactions and styled texts as Telegram writes them in its
//! documents.
use crate::api::address;
use crate::api::address::telegram_conversation_kind;
use crate::collaboration::{Reaction, ReactionSummary};
use crate::content::{Duration, Real, RichText, TextSpan, TextStyle};
use crate::conversation::{
    ConversationKind, ConversationRef, ConversationView, KindView, MessageRef, MessageRefView,
};
use crate::document;
use crate::document::encode;
use crate::json;
use crate::json::{Fields, Json, JsonView};
use crate::mime;
use crate::mime::read_mime;
use crate::native;
use crate::native::{make_native, SERVER};
use crate::source;
use crate::source::{File, FileView, User, UserView};
use crate::telegram::{Chat, User as TelegramUser};
use crate::text;
use crate::text::{bytes_before, chars_of, i64_text, same};
use crate::time;
use crate::time::instant;
use crate::utf16;
use crate::utf16::unit_position;
use crate::utils::{parse_chat_sender, parse_user};
use vstd::prelude::*;

verus! {

// ---------------------------------------------------------------------------
// Numbers
// ---------------------------------------------------------------------------

/// The number under `key`, where it fits.
pub open spec fn u32_in(members: Map<Seq<char>, JsonView>, key: Seq<char>) -> Option<u32> {
    match json::u64_in(members, key) {
        Some(n) => if n <= u32::MAX {
            Some(n as u32)
        } else {
            None
        },
        None => None,
    }
}

/// The number under `key`, where it fits.
pub fn u32_at(members: &Fields, key: &str) -> (n: Option<u32>)
    ensures
        n == u32_in(json::fields(*members), key@),
{
    match members.u64_at(key) {
        Some(n) => if n <= u32::MAX as u64 {
            Some(n as u32)
        } else {
            None
        },
        None => None,
    }
}

/// A span of time under `key`, in seconds.
pub open spec fn duration_in(members: Map<Seq<char>, JsonView>, key: Seq<char>) -> Option<Duration> {
    match json::u64_in(members, key) {
        Some(seconds) => Some(Duration { seconds, nanoseconds: 0 }),
        None => None,
    }
}

/// A span of time under `key`, in seconds.
pub fn duration_at(members: &Fields, key: &str) -> (duration: Option<Duration>)
    ensures
        duration == duration_in(json::fields(*members), key@),
{
    match members.u64_at(key) {
        Some(seconds) => Some(Duration { seconds, nanoseconds: 0 }),
        None => None,
    }
}

/// A point in time under `key`, where the calendar covers it.
pub open spec fn instant_in(members: Map<Seq<char>, JsonView>, key: Seq<char>) -> Option<i64> {
    match json::i64_in(members, key) {
        Some(seconds) => time::instant_of(seconds),
        None => None,
    }
}

/// A point in time under `key`, where the calendar covers it.
pub fn instant_at(members: &Fields, key: &str) -> (seconds: Option<i64>)
    ensures
        seconds == instant_in(json::fields(*members), key@),
{
    match members.i64_at(key) {
        Some(seconds) => instant(seconds),
        None => None,
    }
}

/// The text of a number under `key`.
pub open spec fn real_in(members: Map<Seq<char>, JsonView>, key: Seq<char>) -> Option<Seq<char>> {
    match json::member(members, key) {
        Some(JsonView::Real(text)) => Some(text),
        _ => match json::i64_in(members, key) {
            Some(n) => Some(text::decimal(n as int)),
            None => None,
        },
    }
}

/// The real number has the given text.
pub open spec fn optional_real(value: Option<Real>) -> Option<Seq<char>> {
    match value {
        Some(Real::Finite(text)) => Some(text@),
        _ => None,
    }
}

/// The number under `key`.
pub fn real_at(members: &Fields, key: &str) -> (value: Option<Real>)
    ensures
        optional_real(value) == real_in(json::fields(*members), key@),
        value matches Some(number) ==> number is Finite,
{
    broadcast use json::lemma_json_view;

    match members.member(key) {
        Some(Json::Real(text)) => Some(Real::Finite(text.clone())),
        _ => match members.i64_at(key) {
            Some(n) => Some(Real::Finite(i64_text(n))),
            None => None,
        },
    }
}

// ---------------------------------------------------------------------------
// Users
// ---------------------------------------------------------------------------

/// The text under `key`, or none.
pub open spec fn text_or_empty(members: Map<Seq<char>, JsonView>, key: Seq<char>) -> Seq<char> {
    match json::text_in(members, key) {
        Some(text) => text,
        None => Seq::empty(),
    }
}

fn text_or_none(members: &Fields, key: &str) -> (text: String)
    ensures
        text@ == text_or_empty(json::fields(*members), key@),
{
    match members.string_at(key) {
        Some(text) => text,
        None => {
            let none = String::new();
            assert(none@ =~= Seq::<char>::empty());
            none
        },
    }
}

/// First and last name of a document, without space at the ends.
pub open spec fn document_name(members: Map<Seq<char>, JsonView>) -> Seq<char> {
    text::trimmed(
        text_or_empty(members, "first_name"@) + " "@ + text_or_empty(members, "last_name"@),
    )
}

/// What is known of a user, where there is one.
pub open spec fn optional_user(user: Option<User>) -> Option<UserView> {
    match user {
        Some(user) => Some(user@),
        None => None,
    }
}

/// The user that a document describes: by number, and by user name or else by
/// first and last name.
pub open spec fn user_of(members: Map<Seq<char>, JsonView>) -> Option<UserView> {
    match json::i64_in(members, "id"@) {
        Some(id) => Some(
            source::plain_user(
                text::decimal(id as int),
                Some(
                    match json::text_in(members, "username"@) {
                        Some(name) => name,
                        None => document_name(members),
                    },
                ),
            ),
        ),
        None => None,
    }
}

/// Reads a user.
pub fn read_user(members: &Fields) -> (user: Option<User>)
    ensures
        optional_user(user) == user_of(json::fields(*members)),
{
    let id: i64 = match members.i64_at("id") {
        Some(id) => id,
        None => {
            return None;
        },
    };
    let found = TelegramUser {
        id,
        is_bot: false,
        first_name: text_or_none(members, "first_name"),
        last_name: members.string_at("last_name"),
        username: members.string_at("username"),
    };
    Some(parse_user(&found))
}

/// The user under `key`.
pub open spec fn user_in(members: Map<Seq<char>, JsonView>, key: Seq<char>) -> Option<UserView> {
    match json::object_in(members, key) {
        Some(user) => user_of(user),
        None => None,
    }
}

/// Reads the user under `key`.
pub fn user_at(members: &Fields, key: &str) -> (user: Option<User>)
    ensures
        optional_user(user) == user_in(json::fields(*members), key@),
{
    match members.object_at(key) {
        Some(user) => read_user(user),
        None => None,
    }
}

/// The chat under `key` as one who acts: by number, and by title, user name or
/// full name.
pub open spec fn chat_user_in(members: Map<Seq<char>, JsonView>, key: Seq<char>) -> Option<
    UserView,
> {
    match json::object_in(members, key) {
        None => None,
        Some(chat) => match json::i64_in(chat, "id"@) {
            None => None,
            Some(id) => Some(
                source::plain_user(
                    text::decimal(id as int),
                    match json::text_in(chat, "title"@) {
                        Some(title) => Some(title),
                        None => match json::text_in(chat, "username"@) {
                            Some(name) => Some(name),
                            None => if document_name(chat).len() == 0 {
                                None
                            } else {
                                Some(document_name(chat))
                            },
                        },
                    },
                ),
            ),
        },
    }
}

/// Reads the chat under `key` as one who acts.
pub fn chat_user_at(members: &Fields, key: &str) -> (user: Option<User>)
    ensures
        optional_user(user) == chat_user_in(json::fields(*members), key@),
{
    let chat = match members.object_at(key) {
        Some(chat) => chat,
        None => {
            return None;
        },
    };
    let id: i64 = match chat.i64_at("id") {
        Some(id) => id,
        None => {
            return None;
        },
    };
    let found = Chat {
        id,
        kind: text_or_none(chat, "type"),
        title: chat.string_at("title"),
        username: chat.string_at("username"),
        first_name: chat.string_at("first_name"),
        last_name: chat.string_at("last_name"),
    };
    Some(parse_chat_sender(&found))
}

/// Who acts: the user under one key, or else the chat under another.
pub open spec fn actor_in(
    members: Map<Seq<char>, JsonView>,
    user: Seq<char>,
    chat: Seq<char>,
) -> Option<UserView> {
    match user_in(members, user) {
        Some(user) => Some(user),
        None => chat_user_in(members, chat),
    }
}

/// Reads who acts.
pub fn actor_at(members: &Fields, user: &str, chat: &str) -> (actor: Option<User>)
    ensures
        optional_user(actor) == actor_in(json::fields(*members), user@, chat@),
{
    match user_at(members, user) {
        Some(user) => Some(user),
        None => chat_user_at(members, chat),
    }
}

// ---------------------------------------------------------------------------
// Conversations and messages
// ---------------------------------------------------------------------------

/// The conversation that a chat is.
pub open spec fn chat_conversation(chat: Option<JsonView>) -> Option<ConversationView> {
    match chat {
        Some(JsonView::Object(members)) => match json::i64_in(members, "id"@) {
            Some(id) => Some(
                ConversationView {
                    id: text::decimal(id as int),
                    kind: match json::text_in(members, "type"@) {
                        Some(kind) => address::conversation_kind_view(kind),
                        None => KindView::Unknown,
                    },
                    parent: None,
                    native: None,
                },
            ),
            None => None,
        },
        _ => None,
    }
}

/// Reads the conversation that a chat is.
pub fn find_conversation(chat: Option<&Json>) -> (conversation: Option<ConversationRef>)
    ensures
        match conversation {
            Some(conversation) => chat_conversation(
                match chat {
                    Some(chat) => Some(chat@),
                    None => None,
                },
            ) == Some(conversation@),
            None => chat_conversation(
                match chat {
                    Some(chat) => Some(chat@),
                    None => None,
                },
            ) is None,
        },
{
    broadcast use json::lemma_json_view;

    match chat {
        Some(Json::Object(members)) => match members.i64_at("id") {
            Some(id) => {
                let kind = match members.text_at("type") {
                    Some(kind) => telegram_conversation_kind(kind),
                    None => ConversationKind::Unknown,
                };
                Some(
                    ConversationRef { id: i64_text(id), kind, parent: None, platform_data: None },
                )
            },
            None => None,
        },
        _ => None,
    }
}

/// What a reference to a message says, where there is one.
pub open spec fn optional_ref(reference: Option<MessageRef>) -> Option<MessageRefView> {
    match reference {
        Some(reference) => Some(reference@),
        None => None,
    }
}

/// A message of a conversation by its number.
pub open spec fn ref_in(number: i64, conversation: ConversationView) -> MessageRefView {
    MessageRefView {
        id: text::decimal(number as int),
        conversation: Some(conversation),
        native: None,
    }
}

/// A message of a conversation by its number.
pub fn make_ref(number: i64, conversation: ConversationRef) -> (reference: MessageRef)
    ensures
        reference@ == ref_in(number, conversation@),
{
    MessageRef { id: i64_text(number), conversation: Some(conversation), platform_data: None }
}

/// The message that a document names by its chat and its number.
pub open spec fn ref_of(members: Map<Seq<char>, JsonView>) -> Option<MessageRefView> {
    match (
        json::i64_in(members, "message_id"@),
        chat_conversation(json::member(members, "chat"@)),
    ) {
        (Some(number), Some(conversation)) => Some(ref_in(number, conversation)),
        _ => None,
    }
}

/// Reads which message a document names.
pub fn read_ref(members: &Fields) -> (reference: Option<MessageRef>)
    ensures
        optional_ref(reference) == ref_of(json::fields(*members)),
{
    match members.i64_at("message_id") {
        Some(number) => match find_conversation(members.member("chat")) {
            Some(conversation) => Some(make_ref(number, conversation)),
            None => None,
        },
        None => None,
    }
}

/// The message that the document under `key` names.
pub open spec fn ref_under(members: Map<Seq<char>, JsonView>, key: Seq<char>) -> Option<
    MessageRefView,
> {
    match json::object_in(members, key) {
        Some(inner) => ref_of(inner),
        None => None,
    }
}

/// Reads which message the document under `key` names.
pub fn ref_at(members: &Fields, key: &str) -> (reference: Option<MessageRef>)
    ensures
        optional_ref(reference) == ref_under(json::fields(*members), key@),
{
    match members.object_at(key) {
        Some(inner) => read_ref(inner),
        None => None,
    }
}

// ---------------------------------------------------------------------------
// Files
// ---------------------------------------------------------------------------

/// The file that a document names.
pub open spec fn file_of(members: Map<Seq<char>, JsonView>) -> Option<FileView> {
    match json::text_in(members, "file_id"@) {
        None => None,
        Some(id) => Some(
            FileView {
                id: Some(id),
                name: match json::text_in(members, "file_name"@) {
                    Some(name) => name,
                    None => id,
                },
                uri: None,
                base64: None,
                mime: match json::text_in(members, "mime_type"@) {
                    Some(kind) => mime::named(kind),
                    None => None,
                },
                size: json::u64_in(members, "file_size"@),
            },
        ),
    }
}

/// Reads a file.
pub fn read_file(members: &Fields) -> (file: Option<File>)
    ensures
        source::optional_file(file) == file_of(json::fields(*members)),
{
    let id: String = match members.string_at("file_id") {
        Some(id) => id,
        None => {
            return None;
        },
    };
    let name = match members.string_at("file_name") {
        Some(name) => name,
        None => id.clone(),
    };
    let kind = match members.text_at("mime_type") {
        Some(kind) => read_mime(kind),
        None => None,
    };
    Some(
        File {
            id: Some(id),
            name,
            uri: None,
            base64: None,
            mime: kind,
            size: members.u64_at("file_size"),
        },
    )
}

// ---------------------------------------------------------------------------
// Reactions
// ---------------------------------------------------------------------------

/// What a reaction is.
#[verifier::ext_equal]
pub enum ReactionView {
    Emoji(Seq<char>),
    Custom(Seq<char>),
    Paid,
    Native(Seq<char>),
}

/// The reaction that a document describes. One of an unknown kind is kept by
/// its text; one that has no text is none.
pub open spec fn reaction_of(value: JsonView) -> Option<ReactionView> {
    let members = match value {
        JsonView::Object(members) => members,
        _ => json::no_fields(),
    };
    let kind = json::text_in(members, "type"@);
    let emoji = json::text_in(members, "emoji"@);
    let custom = json::text_in(members, "custom_emoji_id"@);
    if kind == Some("emoji"@) && emoji is Some {
        Some(ReactionView::Emoji(emoji->0))
    } else if kind == Some("custom_emoji"@) && custom is Some {
        Some(ReactionView::Custom(custom->0))
    } else if kind == Some("paid"@) {
        Some(ReactionView::Paid)
    } else {
        match document::holdable(value) {
            Some(held) => Some(ReactionView::Native(document::json_text(held))),
            None => None,
        }
    }
}

/// The reaction says what the view says, and no more.
pub open spec fn is_reaction(reaction: Reaction, view: ReactionView) -> bool {
    match view {
        ReactionView::Emoji(emoji) => reaction matches Reaction::UnicodeEmoji(own) && own@ == emoji,
        ReactionView::Custom(id) => reaction matches Reaction::CustomEmoji { id: own, name }
            && own@ == id && name is None,
        ReactionView::Paid => reaction is Paid,
        ReactionView::Native(text) => reaction matches Reaction::PlatformNative { platform, data }
            && platform@ == SERVER@ && data@ == text,
    }
}

/// Reads a reaction.
pub fn read_reaction(value: &Json) -> (reaction: Option<Reaction>)
    ensures
        match reaction {
            Some(reaction) => reaction_of(value@) matches Some(view) && is_reaction(reaction, view),
            None => reaction_of(value@) is None,
        },
{
    broadcast use json::lemma_json_view;

    if let Json::Object(members) = value {
        if let Some(kind) = members.text_at("type") {
            if same(kind, "emoji") {
                if let Some(emoji) = members.string_at("emoji") {
                    return Some(Reaction::UnicodeEmoji(emoji));
                }
            } else if same(kind, "custom_emoji") {
                if let Some(id) = members.string_at("custom_emoji_id") {
                    proof {
                        reveal_strlit("emoji");
                        reveal_strlit("custom_emoji");
                        assert("emoji"@.len() == 5 && "custom_emoji"@.len() == 12);
                    }
                    return Some(Reaction::CustomEmoji { id, name: None });
                }
            } else if same(kind, "paid") {
                return Some(Reaction::Paid);
            }
        }
    }
    proof {
        reveal_strlit("emoji");
        reveal_strlit("custom_emoji");
        reveal_strlit("paid");
        assert("emoji"@.len() == 5 && "custom_emoji"@.len() == 12 && "paid"@.len() == 4);
        assert(!json::no_fields().contains_key("type"@));
    }
    match encode(value) {
        Some(data) => Some(Reaction::PlatformNative { platform: SERVER.to_owned(), data }),
        None => None,
    }
}

/// The reactions of a list that can be read, among the first `n`.
pub open spec fn reactions_among(items: Seq<JsonView>, n: int) -> Seq<ReactionView>
    decreases n,
{
    if n <= 0 {
        Seq::empty()
    } else {
        match reaction_of(items[n - 1]) {
            Some(reaction) => reactions_among(items, n - 1).push(reaction),
            None => reactions_among(items, n - 1),
        }
    }
}

/// The reactions say what the views say, one by one.
pub open spec fn are_reactions(list: Seq<Reaction>, views: Seq<ReactionView>) -> bool {
    &&& list.len() == views.len()
    &&& forall|i: int| 0 <= i < list.len() ==> is_reaction(#[trigger] list[i], views[i])
}

/// Reads the reactions of a list.
pub fn read_reactions(items: &Vec<Json>) -> (list: Vec<Reaction>)
    ensures
        are_reactions(list@, reactions_among(json::views(items@), items@.len() as int)),
{
    let ghost all = json::views(items@);
    let mut list: Vec<Reaction> = Vec::new();
    let mut i: usize = 0;
    while i < items.len()
        invariant
            i <= items@.len(),
            all == json::views(items@),
            are_reactions(list@, reactions_among(all, i as int)),
        decreases items@.len() - i,
    {
        let ghost before = list@;
        assert(all[i as int] == items@[i as int]@);
        if let Some(reaction) = read_reaction(&items[i]) {
            list.push(reaction);
            assert forall|j: int| 0 <= j < list@.len() implies is_reaction(
                #[trigger] list@[j],
                reactions_among(all, i + 1)[j],
            ) by {
                if j < before.len() {
                    assert(is_reaction(before[j], reactions_among(all, i as int)[j]));
                }
            }
        }
        i += 1;
    }
    list
}

/// How often a reaction was given, as a document says.
pub open spec fn is_summary(summary: ReactionSummary, value: JsonView) -> bool {
    &&& value is Object
    &&& json::member(value->Object_0, "type"@) matches Some(kind)
    &&& reaction_of(kind) matches Some(view)
    &&& is_reaction(summary.reaction, view)
    &&& json::u64_in(value->Object_0, "total_count"@) == Some(summary.count)
    &&& !summary.reacted_by_bot
    &&& summary.recent_users@.len() == 0
    &&& native::optional_native(summary.platform_data) == Some(native::telegram_native(value))
}

/// A document says how often a reaction was given.
pub open spec fn counts_reaction(value: JsonView) -> bool {
    &&& value is Object
    &&& json::member(value->Object_0, "type"@) matches Some(kind)
    &&& reaction_of(kind) is Some
    &&& json::u64_in(value->Object_0, "total_count"@) is Some
}

fn read_summary(value: &Json) -> (summary: Option<ReactionSummary>)
    ensures
        match summary {
            Some(summary) => is_summary(summary, value@),
            None => !counts_reaction(value@),
        },
{
    broadcast use json::lemma_json_view;

    if let Json::Object(members) = value {
        if let Some(kind) = members.member("type") {
            if let Some(reaction) = read_reaction(kind) {
                if let Some(count) = members.u64_at("total_count") {
                    return Some(
                        ReactionSummary {
                            reaction,
                            count,
                            reacted_by_bot: false,
                            recent_users: Vec::new(),
                            platform_data: Some(make_native(value.clone())),
                        },
                    );
                }
            }
        }
    }
    None
}

/// The documents of a list that say how often a reaction was given.
pub open spec fn counted(items: Seq<JsonView>) -> Seq<JsonView> {
    items.filter(|item: JsonView| counts_reaction(item))
}

/// The summaries say what the documents say, one by one.
pub open spec fn are_summaries(list: Seq<ReactionSummary>, items: Seq<JsonView>) -> bool {
    &&& list.len() == items.len()
    &&& forall|i: int| 0 <= i < list.len() ==> is_summary(#[trigger] list[i], items[i])
}

/// Reads how often each reaction was given.
pub fn read_summaries(items: &Vec<Json>) -> (list: Vec<ReactionSummary>)
    ensures
        are_summaries(list@, counted(json::views(items@))),
{
    let ghost all = json::views(items@);
    let ghost keep = |item: JsonView| counts_reaction(item);
    let mut list: Vec<ReactionSummary> = Vec::new();
    let mut i: usize = 0;
    proof {
        assert(all.take(0) =~= Seq::<JsonView>::empty());
        reveal(Seq::filter);
        assert(all.take(0).filter(keep) =~= Seq::<JsonView>::empty());
    }
    while i < items.len()
        invariant
            i <= items@.len(),
            all == json::views(items@),
            keep == (|item: JsonView| counts_reaction(item)),
            are_summaries(list@, all.take(i as int).filter(keep)),
        decreases items@.len() - i,
    {
        let ghost before = list@;
        let ghost done = all.take(i as int).filter(keep);
        proof {
            assert(all[i as int] == items@[i as int]@);
            assert(all.take(i + 1).drop_last() =~= all.take(i as int));
            reveal(Seq::filter);
        }
        if let Some(summary) = read_summary(&items[i]) {
            list.push(summary);
            assert forall|j: int| 0 <= j < list@.len() implies is_summary(
                #[trigger] list@[j],
                done.push(all[i as int])[j],
            ) by {
                if j < before.len() {
                    assert(is_summary(before[j], done[j]));
                }
            }
        }
        i += 1;
    }
    assert(all.take(items@.len() as int) =~= all);
    list
}

// ---------------------------------------------------------------------------
// Styled texts
// ---------------------------------------------------------------------------

/// The style that an entity gives its part of a text. What has no style of its
/// own is kept as Telegram writes it.
pub open spec fn reads_style(style: TextStyle, entity: Map<Seq<char>, JsonView>) -> bool {
    let kind = json::text_in(entity, "type"@);
    if kind == Some("bold"@) {
        style is Bold
    } else if kind == Some("italic"@) {
        style is Italic
    } else if kind == Some("underline"@) {
        style is Underline
    } else if kind == Some("strikethrough"@) {
        style is Strikethrough
    } else if kind == Some("spoiler"@) {
        style is Spoiler
    } else if kind == Some("code"@) {
        style is Code
    } else if kind == Some("pre"@) {
        style matches TextStyle::Preformatted { language } && json::optional_chars(language)
            == json::text_in(entity, "language"@)
    } else if kind == Some("blockquote"@) {
        style is Quote
    } else if kind == Some("hashtag"@) {
        style is Hashtag
    } else if kind == Some("cashtag"@) {
        style is Cashtag
    } else if kind == Some("bot_command"@) {
        style is BotCommand
    } else if kind == Some("email"@) {
        style is Email
    } else if kind == Some("phone_number"@) {
        style is Phone
    } else if kind == Some("date_time"@) {
        style matches TextStyle::DateTime { timestamp } && timestamp == json::i64_in(
            entity,
            "unix_time"@,
        )
    } else if kind == Some("text_link"@) && json::text_in(entity, "url"@) is Some {
        style matches TextStyle::Link { url } && json::text_in(entity, "url"@) == Some(url@)
    } else if kind == Some("text_mention"@) && mentioned_id(entity) is Some {
        style matches TextStyle::UserMention { user_id } && user_id@ == text::decimal(
            mentioned_id(entity)->0 as int,
        )
    } else if kind == Some("custom_emoji"@) && json::text_in(entity, "custom_emoji_id"@) is Some {
        style matches TextStyle::CustomEmoji { id, fallback } && json::text_in(
            entity,
            "custom_emoji_id"@,
        ) == Some(id@) && fallback is None
    } else {
        style matches TextStyle::PlatformNative(native) && native@ == native::telegram_native(
            JsonView::Object(entity.remove("offset"@).remove("length"@)),
        )
    }
}

/// The number of the user whom an entity mentions.
pub open spec fn mentioned_id(entity: Map<Seq<char>, JsonView>) -> Option<i64> {
    match json::object_in(entity, "user"@) {
        Some(user) => json::i64_in(user, "id"@),
        None => None,
    }
}

fn find_mentioned_id(entity: &Fields) -> (id: Option<i64>)
    ensures
        id == mentioned_id(json::fields(*entity)),
{
    match entity.object_at("user") {
        Some(user) => user.i64_at("id"),
        None => None,
    }
}

/// The style that is named alone, where there is one.
fn read_named_style(kind: &str) -> (style: Option<TextStyle>)
    ensures
        match style {
            Some(style) => forall|entity: Map<Seq<char>, JsonView>|
                json::text_in(entity, "type"@) == Some(kind@) ==> #[trigger] reads_style(
                    style,
                    entity,
                ),
            None => kind@ != "bold"@ && kind@ != "italic"@ && kind@ != "underline"@ && kind@
                != "strikethrough"@ && kind@ != "spoiler"@ && kind@ != "code"@ && kind@
                != "blockquote"@ && kind@ != "hashtag"@ && kind@ != "cashtag"@ && kind@
                != "bot_command"@ && kind@ != "email"@ && kind@ != "phone_number"@,
        },
{
    proof {
        reveal_strlit("pre");
        reveal_strlit("blockquote");
        reveal_strlit("hashtag");
        reveal_strlit("cashtag");
        reveal_strlit("bot_command");
        reveal_strlit("email");
        reveal_strlit("phone_number");
        assert("pre"@.len() == 3 && "blockquote"@.len() == 10 && "hashtag"@.len() == 7
            && "cashtag"@.len() == 7 && "bot_command"@.len() == 11 && "email"@.len() == 5
            && "phone_number"@.len() == 12);
    }
    if same(kind, "bold") {
        Some(TextStyle::Bold)
    } else if same(kind, "italic") {
        Some(TextStyle::Italic)
    } else if same(kind, "underline") {
        Some(TextStyle::Underline)
    } else if same(kind, "strikethrough") {
        Some(TextStyle::Strikethrough)
    } else if same(kind, "spoiler") {
        Some(TextStyle::Spoiler)
    } else if same(kind, "code") {
        Some(TextStyle::Code)
    } else if same(kind, "blockquote") {
        Some(TextStyle::Quote)
    } else if same(kind, "hashtag") {
        Some(TextStyle::Hashtag)
    } else if same(kind, "cashtag") {
        Some(TextStyle::Cashtag)
    } else if same(kind, "bot_command") {
        Some(TextStyle::BotCommand)
    } else if same(kind, "email") {
        Some(TextStyle::Email)
    } else if same(kind, "phone_number") {
        Some(TextStyle::Phone)
    } else {
        None
    }
}

fn read_style(entity: &Fields) -> (style: TextStyle)
    ensures
        reads_style(style, json::fields(*entity)),
{
    if let Some(kind) = entity.text_at("type") {
        if let Some(style) = read_named_style(kind) {
            return style;
        }
        if same(kind, "pre") {
            return TextStyle::Preformatted { language: entity.string_at("language") };
        } else if same(kind, "date_time") {
            return TextStyle::DateTime { timestamp: entity.i64_at("unix_time") };
        } else if same(kind, "text_link") {
            if let Some(url) = entity.string_at("url") {
                return TextStyle::Link { url };
            }
        } else if same(kind, "text_mention") {
            if let Some(id) = find_mentioned_id(entity) {
                return TextStyle::UserMention { user_id: i64_text(id) };
            }
        } else if same(kind, "custom_emoji") {
            if let Some(id) = entity.string_at("custom_emoji_id") {
                return TextStyle::CustomEmoji { id, fallback: None };
            }
        }
    }
    proof {
        reveal_strlit("pre");
        reveal_strlit("date_time");
        reveal_strlit("text_link");
        reveal_strlit("text_mention");
        reveal_strlit("custom_emoji");
        assert("pre"@.len() == 3 && "date_time"@.len() == 9 && "text_link"@.len() == 9
            && "text_mention"@.len() == 12 && "custom_emoji"@.len() == 12);
        assert("date_time"@[0] == 'd' && "text_link"@[0] == 't' && "text_mention"@[0] == 't'
            && "custom_emoji"@[0] == 'c');
    }
    let mut own = entity.clone();
    let _ = own.take("offset");
    let _ = own.take("length");
    TextStyle::PlatformNative(make_native(Json::object(own)))
}

/// A part of a text, in bytes, with the entity that styles it.
#[verifier::ext_equal]
pub struct StyledPart {
    pub start: int,
    pub end: int,
    pub entity: Map<Seq<char>, JsonView>,
}

/// The part that an entity styles; nothing where it is empty, cuts a character
/// or lies outside the text.
pub open spec fn styled_part(text: Seq<char>, value: JsonView) -> Option<StyledPart> {
    match value {
        JsonView::Object(entity) => match (
            u32_in(entity, "offset"@),
            u32_in(entity, "length"@),
        ) {
            (Some(offset), Some(length)) => if length == 0 {
                None
            } else {
                match (
                    utf16::unit_index(text, offset as int),
                    utf16::unit_index(text, offset + length),
                ) {
                    (Some(from), Some(to)) => Some(
                        StyledPart {
                            start: text::bytes_of(text.take(from)) as int,
                            end: text::bytes_of(text.take(to)) as int,
                            entity,
                        },
                    ),
                    _ => None,
                }
            },
            _ => None,
        },
        _ => None,
    }
}

/// The span is the part with its one style.
pub open spec fn is_span(span: TextSpan, part: StyledPart) -> bool {
    &&& span.start == part.start
    &&& span.end == part.end
    &&& span.styles@.len() == 1
    &&& reads_style(span.styles@[0], part.entity)
}

fn read_span(text: &str, chars: &Vec<char>, value: &Json) -> (span: Option<TextSpan>)
    requires
        chars@ == text@,
    ensures
        match span {
            Some(span) => styled_part(text@, value@) matches Some(part) && is_span(span, part),
            None => styled_part(text@, value@) is None,
        },
{
    broadcast use json::lemma_json_view;

    let entity = match value {
        Json::Object(entity) => entity,
        _ => {
            return None;
        },
    };
    let (offset, length): (u32, u32) = match (u32_at(entity, "offset"), u32_at(entity, "length")) {
        (Some(offset), Some(length)) => (offset, length),
        _ => {
            return None;
        },
    };
    if length == 0 {
        return None;
    }
    let from: usize = match unit_position(chars, offset as usize) {
        Some(from) => from,
        None => {
            return None;
        },
    };
    if length as usize > usize::MAX - offset as usize {
        proof {
            if utf16::unit_index(text@, offset + length) is Some {
                utf16::lemma_unit_bound(text@, offset + length);
                text::lemma_units_of_bytes(text@);
            }
        }
        let all: usize = text.as_bytes().len();
        assert(all == vstd::utf8::encode_utf8(text@).len());
        return None;
    }
    let to: usize = match unit_position(chars, offset as usize + length as usize) {
        Some(to) => to,
        None => {
            return None;
        },
    };
    let mut styles: Vec<TextStyle> = Vec::new();
    styles.push(read_style(entity));
    Some(
        TextSpan {
            start: bytes_before(text, chars, from),
            end: bytes_before(text, chars, to),
            styles,
        },
    )
}

/// The parts of a text that its entities style, among the first `n` of them.
pub open spec fn styled_parts(text: Seq<char>, entities: Seq<JsonView>, n: int) -> Seq<StyledPart>
    decreases n,
{
    if n <= 0 {
        Seq::empty()
    } else {
        match styled_part(text, entities[n - 1]) {
            Some(part) => styled_parts(text, entities, n - 1).push(part),
            None => styled_parts(text, entities, n - 1),
        }
    }
}

/// The spans are the parts, one by one.
pub open spec fn are_spans(spans: Seq<TextSpan>, parts: Seq<StyledPart>) -> bool {
    &&& spans.len() == parts.len()
    &&& forall|i: int| 0 <= i < spans.len() ==> is_span(#[trigger] spans[i], parts[i])
}

/// The text with the styles that its entities give it.
pub open spec fn reads_text(rich: RichText, text: Seq<char>, entities: Seq<JsonView>) -> bool {
    &&& rich.text@ == text
    &&& are_spans(rich.spans@, styled_parts(text, entities, entities.len() as int))
}

/// Reads a text with the styles that its entities give it.
pub fn read_text(text: &str, entities: &Vec<Json>) -> (rich: RichText)
    ensures
        reads_text(rich, text@, json::views(entities@)),
{
    let ghost all = json::views(entities@);
    let chars = chars_of(text);
    let mut spans: Vec<TextSpan> = Vec::new();
    let mut i: usize = 0;
    while i < entities.len()
        invariant
            i <= entities@.len(),
            all == json::views(entities@),
            chars@ == text@,
            are_spans(spans@, styled_parts(text@, all, i as int)),
        decreases entities@.len() - i,
    {
        let ghost before = spans@;
        assert(all[i as int] == entities@[i as int]@);
        if let Some(span) = read_span(text, &chars, &entities[i]) {
            spans.push(span);
            assert forall|j: int| 0 <= j < spans@.len() implies is_span(
                #[trigger] spans@[j],
                styled_parts(text@, all, i + 1)[j],
            ) by {
                if j < before.len() {
                    assert(is_span(before[j], styled_parts(text@, all, i as int)[j]));
                }
            }
        }
        i += 1;
    }
    RichText { text: text.to_owned(), spans }
}

/// The list under `key`, or none.
pub open spec fn list_in(members: Map<Seq<char>, JsonView>, key: Seq<char>) -> Seq<JsonView> {
    match json::array_in(members, key) {
        Some(items) => items,
        None => Seq::empty(),
    }
}

/// A styled text under `key`, whose entities stand under another key.
pub open spec fn optional_text(
    rich: Option<RichText>,
    members: Map<Seq<char>, JsonView>,
    key: Seq<char>,
    entities: Seq<char>,
) -> bool {
    match rich {
        Some(rich) => json::text_in(members, key) matches Some(text) && reads_text(
            rich,
            text,
            list_in(members, entities),
        ),
        None => json::text_in(members, key) is None,
    }
}

/// Reads a styled text.
pub fn text_at(members: &Fields, key: &str, entities: &str) -> (rich: Option<RichText>)
    ensures
        optional_text(rich, json::fields(*members), key@, entities@),
{
    let text: &str = match members.text_at(key) {
        Some(text) => text,
        None => {
            return None;
        },
    };
    match members.array_at(entities) {
        Some(items) => Some(read_text(text, items)),
        None => {
            let none: Vec<Json> = Vec::new();
            assert(json::views(none@) =~= Seq::<JsonView>::empty());
            Some(read_text(text, &none))
        },
    }
}

// ---------------------------------------------------------------------------
// Laws
// ---------------------------------------------------------------------------

/// A file is known by its id, by its own name where it has one, and by the size
/// and the sort that Telegram says.
pub proof fn law_files_are_read_as_they_are(members: Map<Seq<char>, JsonView>, file: FileView)
    requires
        file_of(members) == Some(file),
    ensures
        file.id is Some,
        file.id == json::text_in(members, "file_id"@),
        json::text_in(members, "file_name"@) matches Some(name) ==> file.name == name,
        json::text_in(members, "file_name"@) is None ==> Some(file.name) == file.id,
        file.size == json::u64_in(members, "file_size"@),
        json::text_in(members, "mime_type"@) is None ==> file.mime is None,
        json::text_in(members, "mime_type"@) matches Some(kind) ==> file.mime == mime::named(kind),
{
}

/// A reaction is read as what it is: an emoji, a custom emoji or a paid one.
pub proof fn law_reactions_are_read_as_they_are(
    members: Map<Seq<char>, JsonView>,
    reaction: Reaction,
    text: Seq<char>,
)
    requires
        reaction_of(JsonView::Object(members)) matches Some(view) && is_reaction(reaction, view),
    ensures
        json::text_in(members, "type"@) == Some("emoji"@) && json::text_in(members, "emoji"@)
            == Some(text) ==> (reaction matches Reaction::UnicodeEmoji(own) && own@ == text),
        json::text_in(members, "type"@) == Some("custom_emoji"@) && json::text_in(
            members,
            "custom_emoji_id"@,
        ) == Some(text) ==> (reaction matches Reaction::CustomEmoji { id, .. } && id@ == text),
        json::text_in(members, "type"@) == Some("paid"@) ==> reaction is Paid,
{
    reveal_strlit("emoji");
    reveal_strlit("custom_emoji");
    reveal_strlit("paid");
    assert("emoji"@.len() == 5 && "custom_emoji"@.len() == 12 && "paid"@.len() == 4);
}

/// A count of reactions is how often the one reaction was given.
pub proof fn law_counts_are_read_as_they_are(
    summary: ReactionSummary,
    members: Map<Seq<char>, JsonView>,
)
    requires
        is_summary(summary, JsonView::Object(members)),
    ensures
        json::u64_in(members, "total_count"@) == Some(summary.count),
        json::object_in(members, "type"@) matches Some(kind) ==> (reaction_of(
            JsonView::Object(kind),
        ) matches Some(view) && is_reaction(summary.reaction, view)),
{
}

/// Who acts is the user where there is one, and otherwise the chat in whose
/// name they act; each by its number.
pub proof fn law_actors_are_read_in_order(
    members: Map<Seq<char>, JsonView>,
    user: Seq<char>,
    chat: Seq<char>,
)
    ensures
        json::object_in(members, user) matches Some(own) ==> (json::i64_in(own, "id"@) matches Some(id)
            ==> (actor_in(members, user, chat) matches Some(actor) && text::i64_value(actor.id)
            == Some(id))),
        json::object_in(members, user) is None ==> (json::object_in(members, chat) matches Some(own)
            ==> (json::i64_in(own, "id"@) matches Some(id) ==> (actor_in(members, user, chat) matches Some(
            actor,
        ) && text::i64_value(actor.id) == Some(id)))),
        json::object_in(members, user) is None && json::object_in(members, chat) is None
            ==> actor_in(members, user, chat) is None,
{
    if let Some(own) = json::object_in(members, user) {
        if let Some(id) = json::i64_in(own, "id"@) {
            text::lemma_decimal_round_trip(id as int);
        }
    }
    if let Some(own) = json::object_in(members, chat) {
        if let Some(id) = json::i64_in(own, "id"@) {
            text::lemma_decimal_round_trip(id as int);
        }
    }
}

} // verus!
