//! Identifiers, and users and groups made of what Telegram sends.
use crate::error;
use crate::error::{message, Error, ErrorView};
use crate::native;
use crate::native::quote;
use crate::source::{Group, GroupProfile, User, UserProfile};
use crate::telegram::{Chat, User as TelegramUser};
use crate::text;
use crate::text::{holds_char, i64_text, joined, joined3, parse_i64, split_at_first, trim};
use vstd::prelude::*;

verus! {

// ---------------------------------------------------------------------------
// Message ids
// ---------------------------------------------------------------------------

/// The id of a message: the number of its chat, an underscore, its own number.
pub open spec fn message_id_text(chat_id: int, message_id: int) -> Seq<char> {
    text::decimal(chat_id) + "_"@ + text::decimal(message_id)
}

/// The id of a message: the number of its chat, an underscore, its own number.
pub fn message_id(chat_id: i64, number: i64) -> (id: String)
    ensures
        id@ == message_id_text(chat_id as int, number as int),
{
    let chat = i64_text(chat_id);
    let number = i64_text(number);
    joined3(chat.as_str(), "_", number.as_str())
}

/// The chat and the number that a message id holds.
pub open spec fn split_id_outcome(id: Seq<char>) -> Result<(Seq<char>, i64), ErrorView> {
    match text::split_once(id, '_') {
        None => error::refused("invalid Telegram message id "@ + native::quoted(id)),
        Some((chat, number)) => if chat.len() == 0 {
            error::refused("Telegram chat id is empty"@)
        } else if number.contains('_') {
            error::refused("invalid Telegram message id "@ + native::quoted(id))
        } else {
            match text::i64_value(number) {
                Some(n) => Ok((chat, n)),
                None => error::refused(
                    "invalid Telegram message number in "@ + native::quoted(id),
                ),
            }
        },
    }
}

/// Splits a message id into the chat and the number of the message.
pub fn split_id(id: &str) -> (result: Result<(String, i64), Error>)
    ensures
        match result {
            Ok((chat, number)) => split_id_outcome(id@) == Ok::<(Seq<char>, i64), ErrorView>(
                (chat@, number),
            ),
            Err(e) => split_id_outcome(id@) == Err::<(Seq<char>, i64), ErrorView>(e@),
        },
{
    let (chat, number) = match split_at_first(id, '_') {
        Some((chat, number)) => (chat, number),
        None => {
            let name = quote(id);
            return Err(Error::Message(joined("invalid Telegram message id ", name.as_str())));
        },
    };
    if chat.as_str().is_empty() {
        return Err(message("Telegram chat id is empty"));
    }
    if holds_char(number.as_str(), '_') {
        let name = quote(id);
        return Err(Error::Message(joined("invalid Telegram message id ", name.as_str())));
    }
    match parse_i64(number.as_str()) {
        Some(n) => Ok((chat, n)),
        None => {
            let name = quote(id);
            Err(Error::Message(joined("invalid Telegram message number in ", name.as_str())))
        },
    }
}

/// Splitting a message id gives back the chat and the number it was made of.
pub proof fn law_message_id_round_trip(chat_id: i64, message_id: i64)
    ensures
        split_id_outcome(message_id_text(chat_id as int, message_id as int)) == Ok::<
            (Seq<char>, i64),
            ErrorView,
        >((text::decimal(chat_id as int), message_id)),
{
    reveal_strlit("_");
    let chat = text::decimal(chat_id as int);
    let number = text::decimal(message_id as int);
    let id = message_id_text(chat_id as int, message_id as int);
    text::lemma_decimal_round_trip(chat_id as int);
    text::lemma_decimal_round_trip(message_id as int);
    let at = chat.len() as int;
    assert(id =~= chat + seq!['_'] + number);
    assert(text::is_first(id, '_', at)) by {
        assert forall|j: int| 0 <= j < at implies #[trigger] id[j] != '_' by {
            assert(id[j] == chat[j]);
            assert(chat[j] == '-' || text::is_digit(chat[j]));
        }
    }
    text::lemma_first_index(id, '_', at);
    assert(id.take(at) =~= chat);
    assert(id.skip(at + 1) =~= number);
    assert(!number.contains('_')) by {
        if number.contains('_') {
            let k = number.index_of('_');
            assert(number[k] == '-' || text::is_digit(number[k]));
        }
    }
}

// ---------------------------------------------------------------------------
// Join-request ids
// ---------------------------------------------------------------------------

/// The id of a request to join: the number of the chat, a colon, the number of
/// the user.
pub open spec fn join_request_id_text(chat_id: int, user_id: int) -> Seq<char> {
    text::decimal(chat_id) + ":"@ + text::decimal(user_id)
}

/// The id of a request to join: the number of the chat, a colon, the number of
/// the user.
pub fn join_request_id(chat_id: i64, user_id: i64) -> (id: String)
    ensures
        id@ == join_request_id_text(chat_id as int, user_id as int),
{
    let chat = i64_text(chat_id);
    let user = i64_text(user_id);
    joined3(chat.as_str(), ":", user.as_str())
}

/// The chat and the user that the id of a request to join holds.
pub open spec fn split_join_request_id_outcome(id: Seq<char>) -> Result<(i64, i64), ErrorView> {
    match text::split_once(id, ':') {
        None => error::refused("invalid Telegram join-request id "@ + native::quoted(id)),
        Some((chat, user)) => match text::i64_value(chat) {
            None => error::refused("invalid chat id in join-request id "@ + native::quoted(id)),
            Some(chat) => match text::i64_value(user) {
                None => error::refused("invalid user id in join-request id "@ + native::quoted(id)),
                Some(user) => Ok((chat, user)),
            },
        },
    }
}

/// Splits the id of a request to join into the chat and the user.
pub fn split_join_request_id(id: &str) -> (result: Result<(i64, i64), Error>)
    ensures
        match result {
            Ok(parts) => split_join_request_id_outcome(id@) == Ok::<(i64, i64), ErrorView>(parts),
            Err(e) => split_join_request_id_outcome(id@) == Err::<(i64, i64), ErrorView>(e@),
        },
{
    let (chat, user) = match split_at_first(id, ':') {
        Some((chat, user)) => (chat, user),
        None => {
            let name = quote(id);
            return Err(Error::Message(joined("invalid Telegram join-request id ", name.as_str())));
        },
    };
    let chat_id = match parse_i64(chat.as_str()) {
        Some(n) => n,
        None => {
            let name = quote(id);
            return Err(
                Error::Message(joined("invalid chat id in join-request id ", name.as_str())),
            );
        },
    };
    let user_id = match parse_i64(user.as_str()) {
        Some(n) => n,
        None => {
            let name = quote(id);
            return Err(
                Error::Message(joined("invalid user id in join-request id ", name.as_str())),
            );
        },
    };
    Ok((chat_id, user_id))
}

/// Splitting the id of a request to join gives back the chat and the user it
/// was made of.
pub proof fn law_join_request_id_round_trip(chat_id: i64, user_id: i64)
    ensures
        split_join_request_id_outcome(join_request_id_text(chat_id as int, user_id as int)) == Ok::<
            (i64, i64),
            ErrorView,
        >((chat_id, user_id)),
{
    reveal_strlit(":");
    let chat = text::decimal(chat_id as int);
    let user = text::decimal(user_id as int);
    let id = join_request_id_text(chat_id as int, user_id as int);
    text::lemma_decimal_round_trip(chat_id as int);
    text::lemma_decimal_round_trip(user_id as int);
    let at = chat.len() as int;
    assert(id =~= chat + seq![':'] + user);
    assert(text::is_first(id, ':', at)) by {
        assert forall|j: int| 0 <= j < at implies #[trigger] id[j] != ':' by {
            assert(id[j] == chat[j]);
            assert(chat[j] == '-' || text::is_digit(chat[j]));
        }
    }
    text::lemma_first_index(id, ':', at);
    assert(id.take(at) =~= chat);
    assert(id.skip(at + 1) =~= user);
}

// ---------------------------------------------------------------------------
// Users and groups
// ---------------------------------------------------------------------------

pub open spec fn chars_or_none(value: Option<String>) -> Seq<char> {
    match value {
        Some(text) => text@,
        None => Seq::empty(),
    }
}

/// First and last name with a space between them, without space at the ends.
pub open spec fn full_name(first: Seq<char>, last: Option<String>) -> Seq<char> {
    text::trimmed(first + " "@ + chars_or_none(last))
}

fn write_full_name(first: &str, last: &Option<String>) -> (name: String)
    ensures
        name@ == full_name(first@, *last),
{
    let empty = String::new();
    let last: &str = match last {
        Some(last) => last.as_str(),
        None => empty.as_str(),
    };
    assert(empty@ =~= Seq::<char>::empty());
    let name = joined3(first, " ", last);
    trim(name.as_str())
}

/// The name of a user: the user name, or the full name where there is none.
pub open spec fn user_name(user: TelegramUser) -> Seq<char> {
    match user.username {
        Some(name) => name@,
        None => full_name(user.first_name@, user.last_name),
    }
}

/// The name of a user: the user name, or the full name where there is none.
pub fn telegram_user_name(user: &TelegramUser) -> (name: String)
    ensures
        name@ == user_name(*user),
{
    match &user.username {
        Some(name) => name.clone(),
        None => write_full_name(user.first_name.as_str(), &user.last_name),
    }
}

/// The user has the given id and nickname and nothing else.
pub open spec fn is_user(user: User, id: int, nickname: Option<Seq<char>>) -> bool {
    &&& user.id@ == text::decimal(id)
    &&& user.group_info is None
    &&& user.profile matches Some(profile)
    &&& profile.sex is None
    &&& profile.age is None
    &&& profile.avatar is None
    &&& profile.email is None
    &&& profile.phone is None
    &&& profile.signature is None
    &&& profile.level is None
    &&& nickname == match profile.nickname {
        Some(name) => Some(name@),
        None => None,
    }
}

fn make_user(id: i64, nickname: Option<String>) -> (user: User)
    ensures
        is_user(
            user,
            id as int,
            match nickname {
                Some(name) => Some(name@),
                None => None,
            },
        ),
{
    User {
        id: i64_text(id),
        profile: Some(
            UserProfile {
                nickname,
                sex: None,
                age: None,
                avatar: None,
                email: None,
                phone: None,
                signature: None,
                level: None,
            },
        ),
        group_info: None,
    }
}

/// A user that Telegram sent.
pub fn parse_user(user: &TelegramUser) -> (result: User)
    ensures
        is_user(result, user.id as int, Some(user_name(*user))),
{
    make_user(user.id, Some(telegram_user_name(user)))
}

/// The name of a chat that sends messages: its title, its user name, or its
/// full name where that is not blank.
pub open spec fn sender_name(chat: Chat) -> Option<Seq<char>> {
    match chat.title {
        Some(title) => Some(title@),
        None => match chat.username {
            Some(name) => Some(name@),
            None => {
                let name = full_name(chars_or_none(chat.first_name), chat.last_name);
                if name.len() == 0 {
                    None
                } else {
                    Some(name)
                }
            },
        },
    }
}

/// A chat that sends messages, as a user.
pub fn parse_chat_sender(chat: &Chat) -> (result: User)
    ensures
        is_user(result, chat.id as int, sender_name(*chat)),
{
    let nickname = match &chat.title {
        Some(title) => Some(title.clone()),
        None => match &chat.username {
            Some(name) => Some(name.clone()),
            None => {
                let empty = String::new();
                assert(empty@ =~= Seq::<char>::empty());
                let first: &str = match &chat.first_name {
                    Some(first) => first.as_str(),
                    None => empty.as_str(),
                };
                let name = write_full_name(first, &chat.last_name);
                if name.as_str().is_empty() {
                    None
                } else {
                    Some(name)
                }
            },
        },
    };
    make_user(chat.id, nickname)
}

/// The group has the id of the chat and its title, or its user name.
pub open spec fn is_group(group: Group, chat: Chat) -> bool {
    &&& group.id@ == text::decimal(chat.id as int)
    &&& group.profile matches Some(profile)
    &&& profile.avatar is None
    &&& profile.member_count is None
    &&& match chat.title {
        Some(title) => profile.name matches Some(name) && name@ == title@,
        None => match chat.username {
            Some(username) => profile.name matches Some(name) && name@ == username@,
            None => profile.name is None,
        },
    }
}

/// A group that Telegram sent.
pub fn parse_group(chat: &Chat) -> (result: Group)
    ensures
        is_group(result, *chat),
{
    let name = match &chat.title {
        Some(title) => Some(title.clone()),
        None => match &chat.username {
            Some(username) => Some(username.clone()),
            None => None,
        },
    };
    Group {
        id: i64_text(chat.id),
        profile: Some(GroupProfile { name, avatar: None, member_count: None }),
    }
}

/// A user is called by their user name where they have one, and by their first
/// name and their last name otherwise; a chat by its title before its user
/// name.
pub proof fn law_names_are_chosen_in_order(user: TelegramUser, chat: Chat, group: Group)
    ensures
        user.username matches Some(name) ==> user_name(user) == name@,
        user.username is None ==> user_name(user) == text::trimmed(
            user.first_name@ + " "@ + match user.last_name {
                Some(last) => last@,
                None => Seq::empty(),
            },
        ),
        chat.title matches Some(title) ==> sender_name(chat) == Some(title@),
        chat.title is None ==> (chat.username matches Some(name) ==> sender_name(chat) == Some(
            name@,
        )),
        is_group(group, chat) ==> text::i64_value(group.id@) == Some(chat.id) && (
        chat.title matches Some(title) ==> (group.profile matches Some(profile) && (
        profile.name matches Some(name) && name@ == title@))),
{
    text::lemma_decimal_round_trip(chat.id as int);
}

} // verus!
