//! Reactions.
use crate::api::address;
use crate::api::address::{chat_id_value, telegram_message_ref};
use crate::api::request;
use crate::api::request::{make_call, Request, RequestView};
use crate::collaboration::{Reaction, ReactionOptions};
use crate::conversation::MessageRef;
use crate::document;
use crate::error;
use crate::error::{message, Error, ErrorView};
use crate::json;
use crate::json::{Fields, Json, JsonView};
use crate::native;
use crate::native::{telegram_native_object, NativeView, PlatformNativeData};
use crate::text;
use crate::text::{chars_of, same};
use crate::utils;
use crate::utils::split_id;
use vstd::prelude::*;

verus! {

/// A reaction that is an emoji.
pub open spec fn emoji_view(emoji: Seq<char>) -> JsonView {
    JsonView::Object(
        json::no_fields().insert("type"@, JsonView::Text("emoji"@)).insert(
            "emoji"@,
            JsonView::Text(emoji),
        ),
    )
}

fn write_emoji(emoji: &str) -> (json: Json)
    ensures
        json@ == emoji_view(emoji@),
{
    let mut object = Fields::none();
    object.put("type", Json::text("emoji"));
    object.put("emoji", Json::text(emoji));
    Json::object(object)
}

/// A reaction that is a custom emoji.
pub open spec fn custom_emoji_view(id: Seq<char>) -> JsonView {
    JsonView::Object(
        json::no_fields().insert("type"@, JsonView::Text("custom_emoji"@)).insert(
            "custom_emoji_id"@,
            JsonView::Text(id),
        ),
    )
}

fn write_custom_emoji(id: &str) -> (json: Json)
    ensures
        json@ == custom_emoji_view(id@),
{
    let mut object = Fields::none();
    object.put("type", Json::text("custom_emoji"));
    object.put("custom_emoji_id", Json::text(id));
    Json::object(object)
}

/// A reaction in Telegram's own form, by what its text parses to.
pub open spec fn native_reaction_outcome(
    platform: Seq<char>,
    document: Result<JsonView, Seq<char>>,
) -> Result<JsonView, ErrorView> {
    match document {
        Err(reason) => error::refused(reason),
        Ok(data) => match native::object_outcome(NativeView { platform, data }, "reaction"@) {
            Ok(map) => Ok(JsonView::Object(map)),
            Err(e) => Err(e),
        },
    }
}

/// Takes what the text of a reaction parsed to.
pub fn native_reaction(platform: &str, document: Result<Json, String>) -> (result: Result<
    Json,
    Error,
>)
    ensures
        error::shown(result) == native_reaction_outcome(
            platform@,
            match document {
                Ok(json) => Ok(json@),
                Err(reason) => Err(reason@),
            },
        ),
{
    match document {
        Err(reason) => Err(Error::Message(reason)),
        Ok(data) => {
            let native = PlatformNativeData { platform: platform.to_owned(), data };
            let map = telegram_native_object(&native, "reaction")?;
            Ok(Json::object(map))
        },
    }
}

/// A reaction in Telegram's form.
pub open spec fn reaction_outcome(reaction: Reaction) -> Result<JsonView, ErrorView> {
    match reaction {
        Reaction::UnicodeEmoji(emoji) => Ok(emoji_view(emoji@)),
        Reaction::CustomEmoji { id, .. } => Ok(custom_emoji_view(id@)),
        Reaction::Paid => error::refused("Telegram bots cannot set paid reactions"@),
        Reaction::PlatformNative { platform, data } => native_reaction_outcome(
            platform@,
            document::parsed(data@),
        ),
    }
}

/// Writes a reaction in Telegram's form.
pub fn telegram_reaction(reaction: &Reaction) -> (result: Result<Json, Error>)
    ensures
        error::shown(result) == reaction_outcome(*reaction),
{
    match reaction {
        Reaction::UnicodeEmoji(emoji) => Ok(write_emoji(emoji.as_str())),
        Reaction::CustomEmoji { id, .. } => Ok(write_custom_emoji(id.as_str())),
        Reaction::Paid => Err(message("Telegram bots cannot set paid reactions")),
        Reaction::PlatformNative { platform, data } => native_reaction(
            platform.as_str(),
            document::parse(data.as_str()),
        ),
    }
}

/// The parameters that set the reactions to a message.
pub open spec fn reaction_payload(parts: (Seq<char>, i64), reactions: Seq<JsonView>) -> Map<
    Seq<char>,
    JsonView,
> {
    json::no_fields().insert("chat_id"@, address::chat_id_view(parts.0)).insert(
        "message_id"@,
        JsonView::Integer(parts.1 as int),
    ).insert("reaction"@, JsonView::Array(reactions))
}

fn write_reaction_payload(chat: &str, number: i64, reactions: Vec<Json>) -> (payload: Fields)
    ensures
        json::fields(payload) == reaction_payload((chat@, number), json::views(reactions@)),
{
    let mut payload = Fields::none();
    payload.put("chat_id", chat_id_value(chat));
    payload.put("message_id", Json::integer(number));
    payload.put("reaction", Json::array(reactions));
    payload
}

fn only(item: Json) -> (list: Vec<Json>)
    ensures
        json::views(list@) == seq![item@],
{
    let ghost shown = item@;
    let mut list: Vec<Json> = Vec::new();
    list.push(item);
    assert(json::views(list@) =~= seq![shown]);
    list
}

fn is_number(id: &str) -> (result: bool)
    ensures
        result == text::all_digits(id@),
{
    let chars = chars_of(id);
    let mut i: usize = 0;
    while i < chars.len()
        invariant
            i <= chars@.len(),
            chars@ == id@,
            forall|j: int| 0 <= j < i ==> text::is_digit(#[trigger] id@[j]),
        decreases chars@.len() - i,
    {
        let c: char = chars[i];
        if !('0' <= c && c <= '9') {
            assert(!text::is_digit(id@[i as int]));
            return false;
        }
        i += 1;
    }
    true
}

/// The call that sets the reaction with the given name: an id made of digits
/// names a custom emoji.
pub open spec fn set_reaction_outcome(message_id: Seq<char>, reaction_id: Seq<char>) -> Result<
    RequestView,
    ErrorView,
> {
    match utils::split_id_outcome(message_id) {
        Err(e) => Err(e),
        Ok(parts) => if reaction_id == "paid"@ {
            error::refused("Telegram bots cannot set paid reactions"@)
        } else {
            Ok(
                request::call(
                    "setMessageReaction"@,
                    reaction_payload(
                        parts,
                        seq![
                            if text::all_digits(reaction_id) {
                                custom_emoji_view(reaction_id)
                            } else {
                                emoji_view(reaction_id)
                            },
                        ],
                    ),
                ),
            )
        },
    }
}

/// The call that sets the reaction with the given name.
pub fn set_message_reaction(message_id: &str, reaction_id: &str) -> (result: Result<
    Request,
    Error,
>)
    ensures
        error::shown(result) == set_reaction_outcome(message_id@, reaction_id@),
{
    let (chat, number) = split_id(message_id)?;
    if same(reaction_id, "paid") {
        return Err(message("Telegram bots cannot set paid reactions"));
    }
    let reaction = if is_number(reaction_id) {
        write_custom_emoji(reaction_id)
    } else {
        write_emoji(reaction_id)
    };
    let payload = write_reaction_payload(chat.as_str(), number, only(reaction));
    Ok(make_call("setMessageReaction", payload))
}

/// The call that sets the only reaction to a message, or takes it away.
pub open spec fn set_reactions_outcome(message: MessageRef, reactions: Seq<Reaction>) -> Result<
    RequestView,
    ErrorView,
> {
    if reactions.len() > 1 {
        error::refused("Telegram bots can set at most one reaction per message"@)
    } else {
        match address::message_ref_outcome(message) {
            Err(e) => Err(e),
            Ok(parts) => {
                let list = if reactions.len() == 0 {
                    Ok(Seq::empty())
                } else {
                    match reaction_outcome(reactions[0]) {
                        Ok(reaction) => Ok(seq![reaction]),
                        Err(e) => Err(e),
                    }
                };
                match list {
                    Err(e) => Err(e),
                    Ok(list) => Ok(
                        request::call("setMessageReaction"@, reaction_payload(parts, list)),
                    ),
                }
            },
        }
    }
}

/// The call that sets the only reaction to a message, or takes it away.
pub fn set_message_reactions(message_ref: &MessageRef, reactions: &Vec<Reaction>) -> (result: Result<
    Request,
    Error,
>)
    ensures
        error::shown(result) == set_reactions_outcome(*message_ref, reactions@),
{
    if reactions.len() > 1 {
        return Err(message("Telegram bots can set at most one reaction per message"));
    }
    let (chat, number) = telegram_message_ref(message_ref)?;
    let list: Vec<Json> = if reactions.len() == 0 {
        let none: Vec<Json> = Vec::new();
        assert(json::views(none@) =~= Seq::<JsonView>::empty());
        none
    } else {
        only(telegram_reaction(&reactions[0])?)
    };
    let payload = write_reaction_payload(chat.as_str(), number, list);
    Ok(make_call("setMessageReaction", payload))
}

/// The call that sets a reaction to a message.
pub open spec fn add_reaction_outcome(
    message: MessageRef,
    reaction: Reaction,
    options: ReactionOptions,
) -> Result<RequestView, ErrorView> {
    if reaction is Paid {
        error::refused("Telegram bots cannot set paid reactions"@)
    } else {
        match address::message_ref_outcome(message) {
            Err(e) => Err(e),
            Ok(parts) => match reaction_outcome(reaction) {
                Err(e) => Err(e),
                Ok(reaction) => Ok(
                    request::call(
                        "setMessageReaction"@,
                        reaction_payload(parts, seq![reaction]).insert(
                            "is_big"@,
                            JsonView::Bool(options.emphasized),
                        ),
                    ),
                ),
            },
        }
    }
}

/// The call that sets a reaction to a message.
pub fn add_message_reaction(
    message_ref: &MessageRef,
    reaction: &Reaction,
    options: &ReactionOptions,
) -> (result: Result<Request, Error>)
    ensures
        error::shown(result) == add_reaction_outcome(*message_ref, *reaction, *options),
{
    if let Reaction::Paid = reaction {
        return Err(message("Telegram bots cannot set paid reactions"));
    }
    let (chat, number) = telegram_message_ref(message_ref)?;
    let reaction = telegram_reaction(reaction)?;
    let mut payload = write_reaction_payload(chat.as_str(), number, only(reaction));
    payload.put("is_big", Json::bool(options.emphasized));
    Ok(make_call("setMessageReaction", payload))
}

/// At most one reaction of the bot stands under a message.
pub proof fn law_one_reaction_at_most(message: MessageRef, reactions: Seq<Reaction>)
    requires
        set_reactions_outcome(message, reactions) is Ok,
    ensures
        reactions.len() <= 1,
        json::member(set_reactions_outcome(message, reactions)->Ok_0.payload, "reaction"@) matches Some(
            JsonView::Array(list),
        ) && list.len() == reactions.len(),
{
    reveal_with_fuel(json::stripped, 2);
}

proof fn lemma_reaction_keys()
    ensures
        "chat_id"@.len() == 7,
        "message_id"@.len() == 10,
        "reaction"@.len() == 8,
        "is_big"@.len() == 6,
        "type"@.len() == 4,
        "emoji"@.len() == 5,
        "custom_emoji_id"@.len() == 15,
        "paid"@.len() == 4,
        "type"@ != "paid"@,
{
    reveal_strlit("chat_id");
    reveal_strlit("message_id");
    reveal_strlit("reaction");
    reveal_strlit("is_big");
    reveal_strlit("type");
    reveal_strlit("emoji");
    reveal_strlit("custom_emoji_id");
    reveal_strlit("paid");
    assert("type"@[0] != "paid"@[0]);
}

/// The document says the reaction: an emoji by itself, a custom emoji by its
/// id.
pub open spec fn says_reaction(written: JsonView, reaction: Reaction) -> bool {
    &&& written matches JsonView::Object(members)
    &&& reaction matches Reaction::UnicodeEmoji(emoji) ==> json::text_in(members, "type"@) == Some(
        "emoji"@,
    ) && json::text_in(members, "emoji"@) == Some(emoji@)
    &&& reaction matches Reaction::CustomEmoji { id, .. } ==> json::text_in(members, "type"@)
        == Some("custom_emoji"@) && json::text_in(members, "custom_emoji_id"@) == Some(id@)
}

proof fn lemma_reaction_said(reaction: Reaction)
    requires
        reaction_outcome(reaction) is Ok,
    ensures
        says_reaction(json::stripped(reaction_outcome(reaction)->Ok_0), reaction),
{
    lemma_reaction_keys();
    let written = reaction_outcome(reaction)->Ok_0->Object_0;
    json::lemma_stripped_member(written, "type"@);
    json::lemma_stripped_member(written, "emoji"@);
    json::lemma_stripped_member(written, "custom_emoji_id"@);
}

proof fn lemma_reaction_sent(payload: Map<Seq<char>, JsonView>, parts: (Seq<char>, i64), list: Seq<JsonView>)
    requires
        payload == reaction_payload(parts, list) || exists|big: bool|
            payload == #[trigger] reaction_payload(parts, list).insert(
                "is_big"@,
                JsonView::Bool(big),
            ),
    ensures
        ({
            let call = request::call("setMessageReaction"@, payload);
            &&& json::i64_in(call.payload, "message_id"@) == Some(parts.1)
            &&& json::member(call.payload, "chat_id"@) == Some(
                match text::i64_value(parts.0) {
                    Some(id) => JsonView::Integer(id as int),
                    None => JsonView::Text(parts.0),
                },
            )
            &&& json::member(call.payload, "reaction"@) == Some(
                json::stripped(JsonView::Array(list)),
            )
        }),
{
    lemma_reaction_keys();
    request::lemma_call_member("setMessageReaction"@, payload, "message_id"@);
    request::lemma_call_member("setMessageReaction"@, payload, "chat_id"@);
    request::lemma_call_member("setMessageReaction"@, payload, "reaction"@);
}

/// A reaction is put on the message that was named, as the reaction that it is,
/// large exactly where that was asked for; a paid one is refused.
pub proof fn law_reactions_are_put(message: MessageRef, reaction: Reaction, options: ReactionOptions)
    requires
        add_reaction_outcome(message, reaction, options) is Ok,
    ensures
        ({
            let call = add_reaction_outcome(message, reaction, options)->Ok_0;
            &&& call.method == "setMessageReaction"@
            &&& !(reaction is Paid)
            &&& address::message_ref_outcome(message) matches Ok((chat, number))
            &&& json::i64_in(call.payload, "message_id"@) == Some(number)
            &&& json::member(call.payload, "chat_id"@) == Some(
                match text::i64_value(chat) {
                    Some(id) => JsonView::Integer(id as int),
                    None => JsonView::Text(chat),
                },
            )
            &&& json::bool_in(call.payload, "is_big"@) == Some(options.emphasized)
            &&& json::array_in(call.payload, "reaction"@) matches Some(list)
            &&& list.len() == 1
            &&& says_reaction(list[0], reaction)
        }),
{
    lemma_reaction_keys();
    let parts = address::message_ref_outcome(message)->Ok_0;
    let list = seq![reaction_outcome(reaction)->Ok_0];
    let payload = reaction_payload(parts, list).insert(
        "is_big"@,
        JsonView::Bool(options.emphasized),
    );
    lemma_reaction_sent(payload, parts, list);
    request::lemma_call_member("setMessageReaction"@, payload, "is_big"@);
    json::lemma_stripped_item(list, 0);
    lemma_reaction_said(reaction);
}

/// The reactions of a message become those that were given, and none are left
/// where none were given.
pub proof fn law_reactions_are_replaced(message: MessageRef, reactions: Seq<Reaction>)
    requires
        set_reactions_outcome(message, reactions) is Ok,
    ensures
        ({
            let call = set_reactions_outcome(message, reactions)->Ok_0;
            &&& call.method == "setMessageReaction"@
            &&& address::message_ref_outcome(message) matches Ok((chat, number))
            &&& json::i64_in(call.payload, "message_id"@) == Some(number)
            &&& json::member(call.payload, "chat_id"@) == Some(
                match text::i64_value(chat) {
                    Some(id) => JsonView::Integer(id as int),
                    None => JsonView::Text(chat),
                },
            )
            &&& json::array_in(call.payload, "reaction"@) matches Some(list)
            &&& list.len() == reactions.len()
            &&& reactions.len() == 1 ==> says_reaction(list[0], reactions[0])
        }),
{
    let parts = address::message_ref_outcome(message)->Ok_0;
    let list = if reactions.len() == 0 {
        Seq::empty()
    } else {
        seq![reaction_outcome(reactions[0])->Ok_0]
    };
    lemma_reaction_sent(reaction_payload(parts, list), parts, list);
    assert(json::stripped(JsonView::Array(list)) matches JsonView::Array(left) && left.len()
        == list.len()) by {
        reveal_with_fuel(json::stripped, 2);
    }
    if reactions.len() == 1 {
        json::lemma_stripped_item(list, 0);
        lemma_reaction_said(reactions[0]);
    }
}

/// A reaction that is given by a name alone is a custom emoji exactly where the
/// name is a number, and an emoji otherwise.
pub proof fn law_named_reactions_are_told_apart(message_id: Seq<char>, reaction_id: Seq<char>)
    requires
        set_reaction_outcome(message_id, reaction_id) is Ok,
    ensures
        ({
            let call = set_reaction_outcome(message_id, reaction_id)->Ok_0;
            &&& call.method == "setMessageReaction"@
            &&& reaction_id != "paid"@
            &&& utils::split_id_outcome(message_id) matches Ok((chat, number))
            &&& json::i64_in(call.payload, "message_id"@) == Some(number)
            &&& json::member(call.payload, "chat_id"@) == Some(
                match text::i64_value(chat) {
                    Some(id) => JsonView::Integer(id as int),
                    None => JsonView::Text(chat),
                },
            )
            &&& json::array_in(call.payload, "reaction"@) matches Some(list)
            &&& list.len() == 1
            &&& list[0] matches JsonView::Object(written)
            &&& text::all_digits(reaction_id) ==> json::text_in(written, "type"@) == Some(
                "custom_emoji"@,
            ) && json::text_in(written, "custom_emoji_id"@) == Some(reaction_id)
            &&& !text::all_digits(reaction_id) ==> json::text_in(written, "type"@) == Some("emoji"@)
                && json::text_in(written, "emoji"@) == Some(reaction_id)
        }),
{
    lemma_reaction_keys();
    let parts = utils::split_id_outcome(message_id)->Ok_0;
    let reaction = if text::all_digits(reaction_id) {
        custom_emoji_view(reaction_id)
    } else {
        emoji_view(reaction_id)
    };
    let list = seq![reaction];
    lemma_reaction_sent(reaction_payload(parts, list), parts, list);
    json::lemma_stripped_item(list, 0);
    json::lemma_stripped_member(reaction->Object_0, "type"@);
    json::lemma_stripped_member(reaction->Object_0, "emoji"@);
    json::lemma_stripped_member(reaction->Object_0, "custom_emoji_id"@);
}

} // verus!
