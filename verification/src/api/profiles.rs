//! Profiles of conversations, users and the bot, and files.
use crate::api::address;
use crate::api::address::{
    add_members, chat_id_value, telegram_conversation_kind, telegram_conversation_payload,
};
use crate::api::media;
use crate::api::media::{
    decode_base64, form_from_payload, no_values, nonempty_name, Call, CallView, FormRequest,
};
use crate::api::members;
use crate::api::members::write_restriction;
use crate::api::permissions;
use crate::api::permissions::{telegram_administrator_permissions, telegram_permission_set};
use crate::api::request;
use crate::api::request::{make_call, Request, RequestView};
use crate::application::BotProfile;
use crate::client;
use crate::client::TelegramClient;
use crate::content::Duration;
use crate::conversation::{
    ConversationKind, ConversationProfile, ConversationRef, ConversationView, KindView, PermissionView,
};
use crate::error;
use crate::error::{message, Error, ErrorView};
use crate::json;
use crate::json::{Fields, Json, JsonView, TextMap};
use crate::mime;
use crate::mime::guess_mime;
use crate::native;
use crate::native::{list_members, make_native, quote, telegram_native_object};
use crate::source;
use crate::source::{make_file_by_id, File, GroupProfile, UserProfile};
use crate::telegram::{Birthdate, ChatFullInfo, TelegramFile, Upload};
use crate::text;
use crate::text::{
    chars_of, i64_text, joined, joined3, same, split_at_first, text_between, trim,
};
use crate::uri;
use crate::uri::Uri;
use vstd::prelude::*;
use vstd::string::*;

verus! {

// ---------------------------------------------------------------------------
// Conversations
// ---------------------------------------------------------------------------

/// The call that asks for a chat.
pub fn get_conversation_profile(conversation: &ConversationRef) -> (result: Result<Request, Error>)
    ensures
        error::shown(result) == request::requested(
            "getChat"@,
            address::conversation_payload(*conversation),
        ),
{
    let payload = telegram_conversation_payload(conversation)?;
    Ok(make_call("getChat", payload))
}

/// The chat is one whose members are counted.
pub open spec fn is_counted(members: Map<Seq<char>, JsonView>) -> bool {
    let kind = json::text_in(members, "type"@);
    kind == Some("group"@) || kind == Some("supergroup"@) || kind == Some("channel"@)
}

/// The call that asks how many members a chat has, where they are counted.
pub open spec fn count_outcome(conversation: ConversationRef, chat: JsonView) -> Result<
    Option<RequestView>,
    ErrorView,
> {
    match chat {
        JsonView::Object(members) => if is_counted(members) {
            match request::requested(
                "getChatMemberCount"@,
                address::conversation_payload(conversation),
            ) {
                Ok(call) => Ok(Some(call)),
                Err(e) => Err(e),
            }
        } else {
            Ok(None)
        },
        _ => error::refused("Telegram returned an invalid ChatFullInfo"@),
    }
}

/// The call that asks how many members a chat has, where they are counted.
pub fn member_count_call(conversation: &ConversationRef, chat: &Json) -> (result: Result<
    Option<Request>,
    Error,
>)
    ensures
        match result {
            Ok(Some(call)) => count_outcome(*conversation, chat@) == Ok::<
                Option<RequestView>,
                ErrorView,
            >(Some(call@)),
            Ok(None) => count_outcome(*conversation, chat@) == Ok::<
                Option<RequestView>,
                ErrorView,
            >(None),
            Err(e) => count_outcome(*conversation, chat@) == Err::<
                Option<RequestView>,
                ErrorView,
            >(e@),
        },
{
    broadcast use json::lemma_json_view;

    match chat {
        Json::Object(chat_members) => {
            let counted = match chat_members.text_at("type") {
                Some(kind) => same(kind, "group") || same(kind, "supergroup") || same(
                    kind,
                    "channel",
                ),
                None => false,
            };
            if !counted {
                return Ok(None);
            }
            let payload = telegram_conversation_payload(conversation)?;
            Ok(Some(make_call("getChatMemberCount", payload)))
        },
        _ => Err(message("Telegram returned an invalid ChatFullInfo")),
    }
}

/// The text, or none.
pub open spec fn text_or_empty(text: Option<Seq<char>>) -> Seq<char> {
    match text {
        Some(text) => text,
        None => Seq::empty(),
    }
}

/// The name of a chat: its title, or first and last name.
pub open spec fn chat_name(members: Map<Seq<char>, JsonView>) -> Option<Seq<char>> {
    match json::text_in(members, "title"@) {
        Some(title) => Some(title),
        None => {
            let name = text::trimmed(
                text_or_empty(json::text_in(members, "first_name"@)) + " "@ + text_or_empty(
                    json::text_in(members, "last_name"@),
                ),
            );
            if name.len() == 0 {
                None
            } else {
                Some(name)
            }
        },
    }
}

fn find_chat_name(chat_members: &Fields) -> (name: Option<String>)
    ensures
        json::optional_chars(name) == chat_name(json::fields(*chat_members)),
{
    if let Some(title) = chat_members.string_at("title") {
        return Some(title);
    }
    let none = String::new();
    assert(none@ =~= Seq::<char>::empty());
    let first: &str = match chat_members.text_at("first_name") {
        Some(first) => first,
        None => none.as_str(),
    };
    let last: &str = match chat_members.text_at("last_name") {
        Some(last) => last,
        None => none.as_str(),
    };
    let name = trim(joined3(first, " ", last).as_str());
    if name.as_str().is_empty() {
        None
    } else {
        Some(name)
    }
}

/// The id of the picture of a chat.
pub open spec fn photo_id(members: Map<Seq<char>, JsonView>) -> Option<Seq<char>> {
    match json::member(members, "photo"@) {
        Some(JsonView::Object(photo)) => json::text_in(photo, "big_file_id"@),
        _ => None,
    }
}

fn find_photo(chat_members: &Fields) -> (photo: Option<File>)
    ensures
        source::optional_file(photo) == match photo_id(json::fields(*chat_members)) {
            Some(id) => Some(source::file_by_id(id)),
            None => None,
        },
{
    let id: Option<&str> = match chat_members.member("photo") {
        Some(photo) => match photo.get("big_file_id") {
            Some(id) => id.as_str(),
            None => None,
        },
        None => None,
    };
    match id {
        Some(id) => Some(make_file_by_id(id.to_owned())),
        None => None,
    }
}

/// What a chat says of itself.
pub open spec fn chat_description(members: Map<Seq<char>, JsonView>) -> Option<Seq<char>> {
    if members.contains_key("description"@) {
        json::text_in(members, "description"@)
    } else {
        json::text_in(members, "bio"@)
    }
}

fn find_description(chat_members: &Fields) -> (text: Option<String>)
    ensures
        json::optional_chars(text) == chat_description(json::fields(*chat_members)),
{
    if chat_members.contains_key("description") {
        chat_members.string_at("description")
    } else {
        chat_members.string_at("bio")
    }
}

/// The count, where there can be such a number of members.
pub open spec fn counted(count: Option<i64>) -> Option<u64> {
    match count {
        Some(count) => if count >= 0 {
            Some(count as u64)
        } else {
            None
        },
        None => None,
    }
}

fn take_count(count: Option<i64>) -> (result: Option<u64>)
    ensures
        result == counted(count),
{
    match count {
        Some(count) => {
            if count >= 0 {
                Some(count as u64)
            } else {
                None
            }
        },
        None => None,
    }
}

/// The profile says what the chat says.
pub open spec fn reads_profile(
    profile: ConversationProfile,
    members: Map<Seq<char>, JsonView>,
    conversation: ConversationRef,
    count: Option<i64>,
) -> bool {
    &&& json::optional_chars(profile.name) == chat_name(members)
    &&& json::optional_chars(profile.username) == json::text_in(members, "username"@)
    &&& json::optional_chars(profile.description) == chat_description(members)
    &&& source::optional_file(profile.avatar) == match photo_id(members) {
        Some(id) => Some(source::file_by_id(id)),
        None => None,
    }
    &&& profile.member_count == counted(count)
    &&& profile.kind matches Some(kind)
    &&& kind@ == match json::text_in(members, "type"@) {
        Some(name) => address::conversation_kind_view(name),
        None => conversation.kind@,
    }
    &&& match json::i64_in(members, "linked_chat_id"@) {
        Some(id) => profile.parent matches Some(parent) && parent@ == (ConversationView {
            id: text::decimal(id as int),
            kind: KindView::Unknown,
            parent: None,
            native: None,
        }),
        None => profile.parent is None,
    }
    &&& match json::member(members, "permissions"@) {
        Some(JsonView::Object(allowed)) => profile.default_permissions matches Some(permissions)
            && permissions@ == permissions::permission_set_view(allowed),
        _ => profile.default_permissions is None,
    }
    &&& profile.slow_mode == match json::u64_in(members, "slow_mode_delay"@) {
        Some(seconds) => Some(Duration { seconds, nanoseconds: 0 }),
        None => None,
    }
    &&& profile.archived is None
    &&& profile.created_at is None
    &&& profile.locale is None
    &&& json::fields(profile.metadata) == json::no_fields()
    &&& native::optional_native(profile.platform_data) == Some(
        native::telegram_native(JsonView::Object(members)),
    )
}

/// Reads the profile of a conversation out of a chat and the number of its
/// members.
pub fn read_conversation_profile(
    conversation: &ConversationRef,
    chat: &Json,
    count: Option<i64>,
) -> (result: Result<ConversationProfile, Error>)
    ensures
        match result {
            Ok(profile) => chat@ is Object && reads_profile(
                profile,
                chat@->Object_0,
                *conversation,
                count,
            ),
            Err(e) => !(chat@ is Object) && e@ == ErrorView::Message(
                "Telegram returned an invalid ChatFullInfo"@,
            ),
        },
{
    broadcast use json::lemma_json_view;

    match chat {
        Json::Object(found) => {
            let kind = match found.text_at("type") {
                Some(kind) => telegram_conversation_kind(kind),
                None => conversation.kind.clone(),
            };
            let parent = match found.i64_at("linked_chat_id") {
                Some(id) => Some(
                    ConversationRef {
                        id: i64_text(id),
                        kind: ConversationKind::Unknown,
                        parent: None,
                        platform_data: None,
                    },
                ),
                None => None,
            };
            let default_permissions = match found.member("permissions") {
                Some(Json::Object(allowed)) => Some(telegram_permission_set(allowed)),
                _ => None,
            };
            let slow_mode = match found.u64_at("slow_mode_delay") {
                Some(seconds) => Some(Duration { seconds, nanoseconds: 0 }),
                None => None,
            };
            Ok(
                ConversationProfile {
                    name: find_chat_name(found),
                    username: found.string_at("username"),
                    description: find_description(found),
                    avatar: find_photo(found),
                    member_count: take_count(count),
                    kind: Some(kind),
                    parent,
                    default_permissions,
                    slow_mode,
                    archived: None,
                    created_at: None,
                    locale: None,
                    metadata: Fields::none(),
                    platform_data: Some(make_native(chat.clone())),
                },
            )
        },
        _ => Err(message("Telegram returned an invalid ChatFullInfo")),
    }
}

/// What to do next to change a profile: a call, or the upload of a picture
/// with the given parameters.
#[derive(Debug, PartialEq)]
pub enum ProfileStep {
    Call(Request),
    Avatar(Fields),
}

/// What a step says.
#[verifier::ext_equal]
pub enum ProfileStepView {
    Call(RequestView),
    Avatar(Map<Seq<char>, JsonView>),
}

impl View for ProfileStep {
    type V = ProfileStepView;

    open spec fn view(&self) -> ProfileStepView {
        match *self {
            ProfileStep::Call(call) => ProfileStepView::Call(call@),
            ProfileStep::Avatar(payload) => ProfileStepView::Avatar(json::fields(payload)),
        }
    }
}

/// What a list of steps says.
pub open spec fn steps_view(steps: Seq<ProfileStep>) -> Seq<ProfileStepView> {
    Seq::new(steps.len(), |i: int| steps[i]@)
}

fn push_call(steps: &mut Vec<ProfileStep>, call: Request)
    ensures
        steps_view(final(steps)@) == steps_view(old(steps)@).push(ProfileStepView::Call(call@)),
{
    let ghost before = steps_view(steps@);
    steps.push(ProfileStep::Call(call));
    assert(steps_view(steps@) =~= before.push(ProfileStepView::Call(call@)));
}

fn push_avatar(steps: &mut Vec<ProfileStep>, payload: Fields)
    ensures
        steps_view(final(steps)@) == steps_view(old(steps)@).push(
            ProfileStepView::Avatar(json::fields(payload)),
        ),
{
    let ghost before = steps_view(steps@);
    steps.push(ProfileStep::Avatar(payload));
    assert(steps_view(steps@) =~= before.push(ProfileStepView::Avatar(json::fields(payload))));
}

/// The profile sets nothing that only Telegram can set.
pub open spec fn is_settable(profile: ConversationProfile) -> bool {
    &&& profile.username is None
    &&& profile.member_count is None
    &&& profile.kind is None
    &&& profile.parent is None
    &&& profile.archived is None
    &&& profile.created_at is None
    &&& profile.locale is None
    &&& json::fields(profile.metadata) == json::no_fields()
}

/// Whether native data asks for the named thing; it can ask for nothing else.
pub open spec fn wish_outcome(
    native: Option<native::PlatformNativeData>,
    context: Seq<char>,
    name: Seq<char>,
    complaint: Seq<char>,
) -> Result<bool, ErrorView> {
    match native {
        None => Ok(false),
        Some(native) => match native::native_object_outcome(native, context) {
            Err(e) => Err(e),
            Ok(members) => if members.remove(name) != json::no_fields() {
                error::refused(complaint + native::member_list(members.remove(name)))
            } else {
                Ok(json::bool_in(members, name) == Some(true))
            },
        },
    }
}

fn find_wish(
    native: &Option<native::PlatformNativeData>,
    context: &str,
    name: &str,
    complaint: &str,
) -> (result: Result<bool, Error>)
    ensures
        match result {
            Ok(wished) => wish_outcome(*native, context@, name@, complaint@) == Ok::<
                bool,
                ErrorView,
            >(wished),
            Err(e) => wish_outcome(*native, context@, name@, complaint@) == Err::<bool, ErrorView>(
                e@,
            ),
        },
{
    match native {
        None => Ok(false),
        Some(native) => {
            let mut found = telegram_native_object(native, context)?;
            let wished = match found.bool_at(name) {
                Some(wished) => wished,
                None => false,
            };
            let _ = found.take(name);
            if !found.is_none() {
                let names = list_members(&found);
                return Err(Error::Message(joined(complaint, names.as_str())));
            }
            Ok(wished)
        },
    }
}

/// A delay that Telegram offers between the messages of a member.
pub open spec fn is_slow_mode(seconds: u64) -> bool {
    seconds == 0 || seconds == 10 || seconds == 30 || seconds == 60 || seconds == 300 || seconds
        == 900 || seconds == 3600
}

/// The first rule that a new profile breaks, and whether the picture is to be
/// deleted.
pub open spec fn profile_rule(profile: ConversationProfile) -> Result<bool, ErrorView> {
    if !is_settable(profile) {
        error::refused("Telegram cannot set read-only conversation profile fields"@)
    } else {
        match wish_outcome(
            profile.platform_data,
            "conversation profile"@,
            "delete_photo"@,
            "unsupported Telegram conversation profile fields: "@,
        ) {
            Err(e) => Err(e),
            Ok(delete) => if delete && profile.avatar is Some {
                error::refused(
                    "Telegram conversation profile cannot set and delete the avatar together"@,
                )
            } else if profile.name matches Some(name) && !(1 <= name@.len() <= 128) {
                error::refused("Telegram chat titles must contain 1 to 128 characters"@)
            } else if profile.description matches Some(text) && text@.len() > 255 {
                error::refused("Telegram chat descriptions are limited to 255 characters"@)
            } else if profile.slow_mode matches Some(delay) && !is_slow_mode(delay.seconds) {
                error::refused(
                    "Telegram slow mode accepts 0, 10, 30, 60, 300, 900, or 3600 seconds"@,
                )
            } else {
                Ok(delete)
            },
        }
    }
}

fn check_profile(profile: &ConversationProfile) -> (result: Result<bool, Error>)
    ensures
        match result {
            Ok(delete) => profile_rule(*profile) == Ok::<bool, ErrorView>(delete),
            Err(e) => profile_rule(*profile) == Err::<bool, ErrorView>(e@),
        },
{
    if !(profile.username.is_none() && profile.member_count.is_none() && profile.kind.is_none()
        && profile.parent.is_none() && profile.archived.is_none() && profile.created_at.is_none()
        && profile.locale.is_none() && profile.metadata.is_none()) {
        return Err(message("Telegram cannot set read-only conversation profile fields"));
    }
    let delete = find_wish(
        &profile.platform_data,
        "conversation profile",
        "delete_photo",
        "unsupported Telegram conversation profile fields: ",
    )?;
    if delete && profile.avatar.is_some() {
        return Err(
            message("Telegram conversation profile cannot set and delete the avatar together"),
        );
    }
    if let Some(name) = &profile.name {
        let n: usize = name.as_str().unicode_len();
        if !(1 <= n && n <= 128) {
            return Err(message("Telegram chat titles must contain 1 to 128 characters"));
        }
    }
    if let Some(text) = &profile.description {
        if text.as_str().unicode_len() > 255 {
            return Err(message("Telegram chat descriptions are limited to 255 characters"));
        }
    }
    if let Some(delay) = profile.slow_mode {
        let s: u64 = delay.seconds;
        if !(s == 0 || s == 10 || s == 30 || s == 60 || s == 300 || s == 900 || s == 3600) {
            return Err(
                message("Telegram slow mode accepts 0, 10, 30, 60, 300, 900, or 3600 seconds"),
            );
        }
    }
    Ok(delete)
}

/// The steps with one more, where there is one.
pub open spec fn and_step(steps: Seq<ProfileStepView>, step: Option<ProfileStepView>) -> Seq<
    ProfileStepView,
> {
    match step {
        Some(step) => steps.push(step),
        None => steps,
    }
}

/// The steps that change the profile of a conversation: title, description,
/// picture, permissions, slow mode, and the end of the picture.
pub open spec fn profile_steps(
    payload: Map<Seq<char>, JsonView>,
    profile: ConversationProfile,
    delete: bool,
) -> Seq<ProfileStepView> {
    let titled = and_step(
        Seq::empty(),
        match profile.name {
            Some(name) => Some(
                ProfileStepView::Call(
                    request::call(
                        "setChatTitle"@,
                        payload.insert("title"@, JsonView::Text(name@)),
                    ),
                ),
            ),
            None => None,
        },
    );
    let described = and_step(
        titled,
        match profile.description {
            Some(text) => Some(
                ProfileStepView::Call(
                    request::call(
                        "setChatDescription"@,
                        payload.insert("description"@, JsonView::Text(text@)),
                    ),
                ),
            ),
            None => None,
        },
    );
    let pictured = and_step(
        described,
        match profile.avatar {
            Some(_) => Some(ProfileStepView::Avatar(payload)),
            None => None,
        },
    );
    let permitted = and_step(
        pictured,
        match profile.default_permissions {
            Some(permissions) => Some(
                ProfileStepView::Call(
                    request::call(
                        "setChatPermissions"@,
                        members::restriction(payload, permissions@.allow),
                    ),
                ),
            ),
            None => None,
        },
    );
    let slowed = and_step(
        permitted,
        match profile.slow_mode {
            Some(delay) => Some(
                ProfileStepView::Call(
                    request::call(
                        "setChatSlowModeDelay"@,
                        payload.insert("slow_mode_delay"@, JsonView::Integer(delay.seconds as int)),
                    ),
                ),
            ),
            None => None,
        },
    );
    and_step(
        slowed,
        if delete {
            Some(ProfileStepView::Call(request::call("deleteChatPhoto"@, payload)))
        } else {
            None
        },
    )
}

/// The parameters with which a profile is changed.
pub open spec fn profile_members(profile: ConversationProfile) -> Map<Seq<char>, JsonView> {
    let titled = match profile.name {
        Some(name) => json::no_fields().insert("title"@, JsonView::Text(name@)),
        None => json::no_fields(),
    };
    let described = match profile.description {
        Some(text) => titled.insert("description"@, JsonView::Text(text@)),
        None => titled,
    };
    let pictured = match profile.avatar {
        Some(_) => described.insert("photo"@, JsonView::Null),
        None => described,
    };
    let permitted = match profile.default_permissions {
        Some(permissions) => members::restriction(pictured, permissions@.allow),
        None => pictured,
    };
    match profile.slow_mode {
        Some(delay) => permitted.insert(
            "slow_mode_delay"@,
            JsonView::Integer(delay.seconds as int),
        ),
        None => permitted,
    }
}

fn write_profile_members(profile: &ConversationProfile) -> (own: Fields)
    ensures
        json::fields(own) == profile_members(*profile),
{
    let mut own = Fields::none();
    if let Some(name) = &profile.name {
        own.put("title", Json::text(name.as_str()));
    }
    if let Some(text) = &profile.description {
        own.put("description", Json::text(text.as_str()));
    }
    if profile.avatar.is_some() {
        own.put("photo", Json::null());
    }
    if let Some(permissions) = &profile.default_permissions {
        own = write_restriction(own, permissions);
    }
    if let Some(delay) = profile.slow_mode {
        own.put("slow_mode_delay", Json::unsigned(delay.seconds));
    }
    own
}

/// The steps that change the profile of a conversation. Where the native data
/// of the conversation says one of their parameters already, there are none.
pub open spec fn set_profile_outcome(
    conversation: ConversationRef,
    profile: ConversationProfile,
) -> Result<Seq<ProfileStepView>, ErrorView> {
    match address::conversation_payload(conversation) {
        Err(e) => Err(e),
        Ok(payload) => match profile_rule(profile) {
            Err(e) => Err(e),
            Ok(delete) => match address::with_members(payload, profile_members(profile)) {
                Err(e) => Err(e),
                Ok(_) => Ok(profile_steps(payload, profile, delete)),
            },
        },
    }
}

/// The steps that change the profile of a conversation.
pub fn set_conversation_profile(conversation: &ConversationRef, profile: &ConversationProfile) -> (result:
    Result<Vec<ProfileStep>, Error>)
    ensures
        match result {
            Ok(steps) => set_profile_outcome(*conversation, *profile) == Ok::<
                Seq<ProfileStepView>,
                ErrorView,
            >(steps_view(steps@)),
            Err(e) => set_profile_outcome(*conversation, *profile) == Err::<
                Seq<ProfileStepView>,
                ErrorView,
            >(e@),
        },
{
    let payload = telegram_conversation_payload(conversation)?;
    let delete = check_profile(profile)?;
    let _ = add_members(payload.clone(), &write_profile_members(profile))?;
    let mut steps: Vec<ProfileStep> = Vec::new();
    assert(steps_view(steps@) =~= Seq::<ProfileStepView>::empty());
    if let Some(name) = &profile.name {
        let mut title = payload.clone();
        title.put("title", Json::text(name.as_str()));
        push_call(&mut steps, make_call("setChatTitle", title));
    }
    if let Some(text) = &profile.description {
        let mut description = payload.clone();
        description.put("description", Json::text(text.as_str()));
        push_call(&mut steps, make_call("setChatDescription", description));
    }
    if profile.avatar.is_some() {
        push_avatar(&mut steps, payload.clone());
    }
    if let Some(permissions) = &profile.default_permissions {
        let restricted = write_restriction(payload.clone(), permissions);
        push_call(&mut steps, make_call("setChatPermissions", restricted));
    }
    if let Some(delay) = profile.slow_mode {
        let mut slow = payload.clone();
        slow.put("slow_mode_delay", Json::unsigned(delay.seconds));
        push_call(&mut steps, make_call("setChatSlowModeDelay", slow));
    }
    if delete {
        push_call(&mut steps, make_call("deleteChatPhoto", payload));
    }
    Ok(steps)
}

/// The call that sets the picture of a chat.
pub fn chat_photo_call(payload: &Fields, upload: Upload) -> (call: Call)
    ensures
        call@ == (CallView::Form {
            method: "setChatPhoto"@,
            values: media::present(json::fields(*payload)),
            added: Seq::empty(),
            uploads: seq![("photo"@, upload)],
        }),
{
    let mut uploads: Vec<(String, Upload)> = Vec::new();
    uploads.push(("photo".to_owned(), upload));
    assert(media::named(uploads@) =~= seq![("photo"@, upload)]);
    Call::Form(
        FormRequest {
            method: "setChatPhoto".to_owned(),
            values: form_from_payload(payload),
            added: no_values(),
            uploads,
        },
    )
}

// ---------------------------------------------------------------------------
// Groups
// ---------------------------------------------------------------------------

/// The steps that change the profile of a group.
pub open spec fn group_profile_outcome(group_id: Seq<char>, profile: GroupProfile) -> Result<
    Seq<ProfileStepView>,
    ErrorView,
> {
    if profile.name matches Some(name) && !(1 <= name@.len() <= 128) {
        error::refused("Telegram chat titles must contain 1 to 128 characters"@)
    } else {
        let titled = and_step(
            Seq::empty(),
            match profile.name {
                Some(name) => Some(
                    ProfileStepView::Call(
                        request::call(
                            "setChatTitle"@,
                            members::group_payload(group_id).insert(
                                "title"@,
                                JsonView::Text(name@),
                            ),
                        ),
                    ),
                ),
                None => None,
            },
        );
        Ok(
            and_step(
                titled,
                match profile.avatar {
                    Some(_) => Some(
                        ProfileStepView::Avatar(
                            json::no_fields().insert("chat_id"@, JsonView::Text(group_id)),
                        ),
                    ),
                    None => None,
                },
            ),
        )
    }
}

/// The steps that change the profile of a group.
pub fn set_group_profile(group_id: &str, profile: &GroupProfile) -> (result: Result<
    Vec<ProfileStep>,
    Error,
>)
    ensures
        match result {
            Ok(steps) => group_profile_outcome(group_id@, *profile) == Ok::<
                Seq<ProfileStepView>,
                ErrorView,
            >(steps_view(steps@)),
            Err(e) => group_profile_outcome(group_id@, *profile) == Err::<
                Seq<ProfileStepView>,
                ErrorView,
            >(e@),
        },
{
    let mut steps: Vec<ProfileStep> = Vec::new();
    assert(steps_view(steps@) =~= Seq::<ProfileStepView>::empty());
    if let Some(name) = &profile.name {
        let n: usize = name.as_str().unicode_len();
        if !(1 <= n && n <= 128) {
            return Err(message("Telegram chat titles must contain 1 to 128 characters"));
        }
        let mut payload = Fields::none();
        payload.put("chat_id", chat_id_value(group_id));
        payload.put("title", Json::text(name.as_str()));
        push_call(&mut steps, make_call("setChatTitle", payload));
    }
    if profile.avatar.is_some() {
        let mut payload = Fields::none();
        payload.put("chat_id", Json::text(group_id));
        push_avatar(&mut steps, payload);
    }
    Ok(steps)
}

/// The call that asks for a chat by its id.
pub fn chat_call(chat_id: &str) -> (result: Request)
    ensures
        result@ == request::call("getChat"@, members::group_payload(chat_id@)),
{
    let mut payload = Fields::none();
    payload.put("chat_id", chat_id_value(chat_id));
    make_call("getChat", payload)
}

/// The call that asks how many members a chat has.
pub fn chat_count_call(chat_id: &str) -> (result: Request)
    ensures
        result@ == request::call("getChatMemberCount"@, members::group_payload(chat_id@)),
{
    let mut payload = Fields::none();
    payload.put("chat_id", chat_id_value(chat_id));
    make_call("getChatMemberCount", payload)
}

/// Reads the profile of a group.
pub fn read_group_profile(title: Option<String>, avatar: Option<Uri>, count: i64) -> (profile:
    GroupProfile)
    ensures
        profile.name == title,
        profile.avatar == avatar,
        profile.member_count == counted(Some(count)),
{
    GroupProfile { name: title, avatar, member_count: take_count(Some(count)) }
}

// ---------------------------------------------------------------------------
// Users
// ---------------------------------------------------------------------------

/// A day of the calendar.
#[derive(Debug, Clone, Copy, PartialEq, Eq, Structural)]
pub struct Day {
    pub year: i32,
    pub month: u32,
    pub day: u32,
}

/// How old someone is: the years between, but one less before the birthday.
pub open spec fn age_on(birthdate: Birthdate, today: Day) -> Option<u64> {
    match birthdate.year {
        None => None,
        Some(year) => {
            let early = today.month < birthdate.month || today.month == birthdate.month && today.day
                < birthdate.day;
            let age = today.year - year - if early {
                1int
            } else {
                0int
            };
            if age >= 0 {
                Some(age as u64)
            } else {
                None
            }
        },
    }
}

/// How old someone is.
pub fn find_age(birthdate: &Birthdate, today: Day) -> (age: Option<u64>)
    ensures
        age == age_on(*birthdate, today),
{
    match birthdate.year {
        None => None,
        Some(year) => {
            let early = today.month < birthdate.month || today.month == birthdate.month && today.day
                < birthdate.day;
            let years: i64 = today.year as i64 - year as i64;
            let age: i64 = if early {
                years - 1
            } else {
                years
            };
            if age >= 0 {
                Some(age as u64)
            } else {
                None
            }
        },
    }
}

/// The nickname of a chat: its user name, or first and last name.
pub open spec fn chat_nickname(chat: ChatFullInfo) -> Option<Seq<char>> {
    match chat.username {
        Some(name) => Some(name@),
        None => {
            let name = text::trimmed(
                text_or_empty(json::optional_chars(chat.first_name)) + " "@ + text_or_empty(
                    json::optional_chars(chat.last_name),
                ),
            );
            if name.len() == 0 {
                None
            } else {
                Some(name)
            }
        },
    }
}

/// The profile says what the chat says.
pub open spec fn reads_user_profile(
    profile: UserProfile,
    chat: ChatFullInfo,
    avatar: Option<Uri>,
    today: Day,
) -> bool {
    &&& json::optional_chars(profile.nickname) == chat_nickname(chat)
    &&& profile.signature == chat.bio
    &&& profile.age == match chat.birthdate {
        Some(birthdate) => age_on(birthdate, today),
        None => None,
    }
    &&& profile.avatar == avatar
    &&& profile.sex is None
    &&& profile.email is None
    &&& profile.phone is None
    &&& profile.level is None
}

/// The call that asks for the description of the bot.
pub fn get_bot_profile() -> (result: Request)
    ensures
        result@ == request::call("getMyDescription"@, json::no_fields()),
{
    make_call("getMyDescription", Fields::none())
}

/// Reads the profile of the bot from its name and its description.
pub fn read_own_profile(nickname: Option<String>, description: String) -> (profile: UserProfile)
    ensures
        profile.nickname == nickname,
        profile.signature == Some(description),
        profile.sex is None,
        profile.age is None,
        profile.avatar is None,
        profile.email is None,
        profile.phone is None,
        profile.level is None,
{
    UserProfile {
        nickname,
        sex: None,
        age: None,
        avatar: None,
        email: None,
        phone: None,
        signature: Some(description),
        level: None,
    }
}

/// Reads the profile of a user.
pub fn read_user_profile(chat: ChatFullInfo, avatar: Option<Uri>, today: Day) -> (profile:
    UserProfile)
    ensures
        reads_user_profile(profile, chat, avatar, today),
{
    let none = String::new();
    assert(none@ =~= Seq::<char>::empty());
    let age = match &chat.birthdate {
        Some(birthdate) => find_age(birthdate, today),
        None => None,
    };
    let nickname = match chat.username {
        Some(name) => Some(name),
        None => {
            let first: &str = match &chat.first_name {
                Some(first) => first.as_str(),
                None => none.as_str(),
            };
            let last: &str = match &chat.last_name {
                Some(last) => last.as_str(),
                None => none.as_str(),
            };
            let name = trim(joined3(first, " ", last).as_str());
            if name.as_str().is_empty() {
                None
            } else {
                Some(name)
            }
        },
    };
    UserProfile {
        nickname,
        sex: None,
        age,
        avatar,
        email: None,
        phone: None,
        signature: chat.bio,
        level: None,
    }
}

// ---------------------------------------------------------------------------
// The bot
// ---------------------------------------------------------------------------

/// The call that sets a text of the bot in a language.
pub open spec fn localized_call(
    method: Seq<char>,
    key: Seq<char>,
    language: Seq<char>,
    value: Seq<char>,
) -> RequestView {
    request::call(
        method,
        json::no_fields().insert(key, JsonView::Text(value)).insert(
            "language_code"@,
            if language.len() == 0 {
                JsonView::Null
            } else {
                JsonView::Text(language)
            },
        ),
    )
}

/// What a map of texts holds.
pub open spec fn texts(map: TextMap<String>) -> Map<Seq<char>, Seq<char>> {
    Map::new(|k: Seq<char>| map@.contains_key(k), |k: Seq<char>| map@[k]@)
}

/// The calls that set a text of the bot in the first `n` languages.
pub open spec fn localized_steps(
    method: Seq<char>,
    key: Seq<char>,
    values: Map<Seq<char>, Seq<char>>,
    languages: Seq<Seq<char>>,
    n: int,
) -> Seq<ProfileStepView>
    decreases n,
{
    if n <= 0 {
        Seq::empty()
    } else {
        localized_steps(method, key, values, languages, n - 1).push(
            ProfileStepView::Call(
                localized_call(method, key, languages[n - 1], values[languages[n - 1]]),
            ),
        )
    }
}

/// The calls that set a text of the bot in every language, in order.
pub open spec fn all_localized(
    method: Seq<char>,
    key: Seq<char>,
    values: Map<Seq<char>, Seq<char>>,
) -> Seq<ProfileStepView> {
    let languages = json::sorted_keys(values.dom());
    localized_steps(method, key, values, languages, languages.len() as int)
}

fn push_localized(
    steps: &mut Vec<ProfileStep>,
    method: &str,
    key: &str,
    values: &TextMap<String>,
)
    ensures
        steps_view(final(steps)@) == steps_view(old(steps)@) + all_localized(
            method@,
            key@,
            texts(*values),
        ),
{
    let ghost start = steps_view(steps@);
    let ghost all = texts(*values);
    let ghost languages = values.keys();
    let n: usize = values.len();
    proof {
        assert(all.dom() =~= values@.dom());
        json::lemma_sorted_keys(languages, all.dom());
        assert(start =~= start + Seq::<ProfileStepView>::empty());
    }
    let mut i: usize = 0;
    while i < n
        invariant
            i <= n,
            n == languages.len(),
            languages == values.keys(),
            all == texts(*values),
            json::lists_keys(languages, values@.dom()),
            steps_view(steps@) == start + localized_steps(
                method@,
                key@,
                all,
                languages,
                i as int,
            ),
        decreases n - i,
    {
        let (language, value) = values.entry(i);
        let mut payload = Fields::none();
        payload.put(key, Json::text(value.as_str()));
        if language.is_empty() {
            payload.put("language_code", Json::null());
        } else {
            payload.put("language_code", Json::text(language));
        }
        let ghost before = localized_steps(method@, key@, all, languages, i as int);
        push_call(steps, make_call(method, payload));
        proof {
            let added = ProfileStepView::Call(
                localized_call(method@, key@, languages[i as int], all[languages[i as int]]),
            );
            assert((start + before).push(added) =~= start + before.push(added));
        }
        i += 1;
    }
}

/// Steps to be taken in order, and what is wrong with the rest where something
/// is.
#[derive(Debug, PartialEq)]
pub struct ProfilePlan {
    pub steps: Vec<ProfileStep>,
    pub failure: Option<Error>,
}

/// The steps that change the profile of the bot: names, descriptions, short
/// descriptions, picture and rights, each where it is given.
pub open spec fn bot_profile_steps(profile: BotProfile) -> Seq<ProfileStepView> {
    let texts = all_localized("setMyName"@, "name"@, texts(profile.names)) + all_localized(
        "setMyDescription"@,
        "description"@,
        texts(profile.descriptions),
    ) + all_localized(
        "setMyShortDescription"@,
        "short_description"@,
        texts(profile.short_descriptions),
    );
    let pictured = and_step(
        texts,
        match profile.avatar {
            Some(_) => Some(ProfileStepView::Avatar(json::no_fields())),
            None => None,
        },
    );
    and_step(
        pictured,
        match profile.default_permissions {
            Some(permissions) => Some(
                ProfileStepView::Call(
                    request::call(
                        "setMyDefaultAdministratorRights"@,
                        json::no_fields().insert(
                            "rights"@,
                            JsonView::Object(
                                permissions::administrator_view(
                                    json::no_fields(),
                                    permissions@.allow,
                                ),
                            ),
                        ),
                    ),
                ),
            ),
            None => None,
        },
    )
}

/// The steps that change the profile of the bot, and what is wrong with its
/// native data: the picture goes away before anything else in it is refused.
pub open spec fn bot_profile_plan(profile: BotProfile) -> (
    Seq<ProfileStepView>,
    Option<ErrorView>,
) {
    let steps = bot_profile_steps(profile);
    match profile.platform_data {
        None => (steps, None),
        Some(native) => match native::native_object_outcome(native, "bot profile"@) {
            Err(e) => (steps, Some(e)),
            Ok(members) => {
                let steps = and_step(
                    steps,
                    if json::bool_in(members, "remove_photo"@) == Some(true) {
                        Some(
                            ProfileStepView::Call(
                                request::call("removeMyProfilePhoto"@, json::no_fields()),
                            ),
                        )
                    } else {
                        None
                    },
                );
                let rest = members.remove("remove_photo"@);
                if rest != json::no_fields() {
                    (
                        steps,
                        Some(
                            ErrorView::Message(
                                "unsupported Telegram bot profile fields: "@
                                    + native::member_list(rest),
                            ),
                        ),
                    )
                } else {
                    (steps, None)
                }
            },
        },
    }
}

/// What a plan says.
pub open spec fn plan_view(plan: ProfilePlan) -> (Seq<ProfileStepView>, Option<ErrorView>) {
    (
        steps_view(plan.steps@),
        match plan.failure {
            Some(e) => Some(e@),
            None => None,
        },
    )
}

/// The steps that change the profile of the bot.
pub fn set_bot_profile_v2(profile: &BotProfile) -> (plan: ProfilePlan)
    ensures
        plan_view(plan) == bot_profile_plan(*profile),
{
    let mut steps: Vec<ProfileStep> = Vec::new();
    assert(steps_view(steps@) =~= Seq::<ProfileStepView>::empty());
    push_localized(&mut steps, "setMyName", "name", &profile.names);
    push_localized(&mut steps, "setMyDescription", "description", &profile.descriptions);
    push_localized(
        &mut steps,
        "setMyShortDescription",
        "short_description",
        &profile.short_descriptions,
    );
    proof {
        let a = all_localized("setMyName"@, "name"@, texts(profile.names));
        let b = all_localized("setMyDescription"@, "description"@, texts(profile.descriptions));
        let c = all_localized(
            "setMyShortDescription"@,
            "short_description"@,
            texts(profile.short_descriptions),
        );
        assert(Seq::<ProfileStepView>::empty() + a + b + c =~= a + b + c);
    }
    if profile.avatar.is_some() {
        push_avatar(&mut steps, Fields::none());
    }
    if let Some(permissions) = &profile.default_permissions {
        let rights = telegram_administrator_permissions(Fields::none(), permissions);
        let mut payload = Fields::none();
        payload.put("rights", Json::object(rights));
        push_call(&mut steps, make_call("setMyDefaultAdministratorRights", payload));
    }
    assert(steps_view(steps@) == bot_profile_steps(*profile));
    if let Some(native) = &profile.platform_data {
        let mut found = match telegram_native_object(native, "bot profile") {
            Ok(found) => found,
            Err(e) => {
                return ProfilePlan { steps, failure: Some(e) };
            },
        };
        let remove = match found.bool_at("remove_photo") {
            Some(remove) => remove,
            None => false,
        };
        let _ = found.take("remove_photo");
        if remove {
            push_call(&mut steps, make_call("removeMyProfilePhoto", Fields::none()));
        }
        if !found.is_none() {
            let names = list_members(&found);
            let e = Error::Message(
                joined("unsupported Telegram bot profile fields: ", names.as_str()),
            );
            return ProfilePlan { steps, failure: Some(e) };
        }
    }
    ProfilePlan { steps, failure: None }
}

/// A media type of moving pictures.
pub open spec fn is_video(mime: Option<Seq<char>>) -> bool {
    match mime {
        Some(mime) => match text::split_once(mime, '/') {
            Some((kind, _)) => kind == "video"@,
            None => false,
        },
        None => false,
    }
}

fn has_video_type(mime: &Option<String>) -> (result: bool)
    ensures
        result == is_video(json::optional_chars(*mime)),
{
    match mime {
        Some(mime) => match split_at_first(mime.as_str(), '/') {
            Some((kind, _)) => same(kind.as_str(), "video"),
            None => false,
        },
        None => false,
    }
}

/// The call that sets the picture of the bot: moving where the file is a
/// video, still otherwise.
pub open spec fn bot_photo_view(mime: Option<Seq<char>>, upload: Upload) -> CallView {
    CallView::Form {
        method: "setMyProfilePhoto"@,
        values: json::no_fields().insert(
            "photo"@,
            JsonView::Object(
                json::no_fields().insert(
                    "type"@,
                    JsonView::Text(
                        if is_video(mime) {
                            "animated"@
                        } else {
                            "static"@
                        },
                    ),
                ).insert(
                    if is_video(mime) {
                        "animation"@
                    } else {
                        "photo"@
                    },
                    JsonView::Text("attach://profile_photo"@),
                ),
            ),
        ),
        added: Seq::empty(),
        uploads: seq![("profile_photo"@, upload)],
    }
}

/// The call that sets the picture of the bot.
pub fn bot_photo_call(mime: &Option<String>, upload: Upload) -> (call: Call)
    ensures
        call@ == bot_photo_view(json::optional_chars(*mime), upload),
{
    let mut photo = Fields::none();
    if has_video_type(mime) {
        photo.put("type", Json::text("animated"));
        photo.put("animation", Json::text("attach://profile_photo"));
    } else {
        photo.put("type", Json::text("static"));
        photo.put("photo", Json::text("attach://profile_photo"));
    }
    let mut values = Fields::none();
    values.put("photo", Json::object(photo));
    let mut uploads: Vec<(String, Upload)> = Vec::new();
    uploads.push(("profile_photo".to_owned(), upload));
    assert(media::named(uploads@) =~= seq![("profile_photo"@, upload)]);
    Call::Form(
        FormRequest {
            method: "setMyProfilePhoto".to_owned(),
            values,
            added: no_values(),
            uploads,
        },
    )
}

/// The calls that ask for the name, the descriptions and the rights of the bot.
pub open spec fn bot_profile_calls() -> Seq<RequestView> {
    seq![
        request::call("getMyName"@, json::no_fields()),
        request::call("getMyDescription"@, json::no_fields()),
        request::call("getMyShortDescription"@, json::no_fields()),
        request::call("getMyDefaultAdministratorRights"@, json::no_fields()),
    ]
}

/// Asks for the name, the description, the short description and the default
/// rights of the bot, in this order.
pub fn get_bot_profile_v2() -> (requests: Vec<Request>)
    ensures
        request::calls(requests@) == bot_profile_calls(),
{
    let mut requests: Vec<Request> = Vec::new();
    requests.push(make_call("getMyName", Fields::none()));
    requests.push(make_call("getMyDescription", Fields::none()));
    requests.push(make_call("getMyShortDescription", Fields::none()));
    requests.push(make_call("getMyDefaultAdministratorRights", Fields::none()));
    assert(request::calls(requests@) =~= bot_profile_calls());
    requests
}

/// The text of a member, or none.
pub open spec fn text_in_answer(answer: JsonView, key: Seq<char>) -> Seq<char> {
    match answer {
        JsonView::Object(members) => text_or_empty(json::text_in(members, key)),
        _ => Seq::empty(),
    }
}

fn take_text(answer: &Json, key: &str) -> (text: String)
    ensures
        text@ == text_in_answer(answer@, key@),
{
    let found: Option<&str> = match answer.get(key) {
        Some(found) => found.as_str(),
        None => None,
    };
    match found {
        Some(found) => found.to_owned(),
        None => {
            let none = String::new();
            assert(none@ =~= Seq::<char>::empty());
            none
        },
    }
}

fn only_default(value: String) -> (map: TextMap<String>)
    ensures
        texts(map) == Map::<Seq<char>, Seq<char>>::empty().insert(Seq::empty(), value@),
{
    let ghost shown = value@;
    let mut map: TextMap<String> = TextMap::new();
    let none = String::new();
    assert(none@ =~= Seq::<char>::empty());
    map.insert(none.as_str(), value);
    assert(texts(map) =~= Map::<Seq<char>, Seq<char>>::empty().insert(Seq::empty(), shown));
    map
}

/// The profile says what the answers say.
pub open spec fn reads_bot_profile(
    profile: BotProfile,
    name: JsonView,
    description: JsonView,
    short_description: JsonView,
    rights: JsonView,
) -> bool {
    let none = Map::<Seq<char>, Seq<char>>::empty();
    &&& texts(profile.names) == none.insert(Seq::empty(), text_in_answer(name, "name"@))
    &&& texts(profile.descriptions) == none.insert(
        Seq::empty(),
        text_in_answer(description, "description"@),
    )
    &&& texts(profile.short_descriptions) == none.insert(
        Seq::empty(),
        text_in_answer(short_description, "short_description"@),
    )
    &&& profile.avatar is None
    &&& match rights {
        JsonView::Object(members) => profile.default_permissions matches Some(permissions)
            && permissions@ == permissions::permission_set_view(members),
        _ => profile.default_permissions is None,
    }
    &&& native::optional_native(profile.platform_data) == Some(
        native::telegram_native(
            JsonView::Object(json::no_fields().insert("default_administrator_rights"@, rights)),
        ),
    )
}

/// Reads the profile of the bot out of the answers about its name, its
/// descriptions and its rights.
pub fn read_bot_profile(
    name: &Json,
    description: &Json,
    short_description: &Json,
    rights: &Json,
) -> (profile: BotProfile)
    ensures
        reads_bot_profile(profile, name@, description@, short_description@, rights@),
{
    broadcast use json::lemma_json_view;

    let default_permissions = match rights {
        Json::Object(found) => Some(telegram_permission_set(found)),
        _ => None,
    };
    let mut native = Fields::none();
    native.put("default_administrator_rights", rights.clone());
    BotProfile {
        names: only_default(take_text(name, "name")),
        descriptions: only_default(take_text(description, "description")),
        short_descriptions: only_default(take_text(short_description, "short_description")),
        avatar: None,
        default_permissions,
        platform_data: Some(make_native(Json::object(native))),
    }
}

/// The calls that change the name and the description of the bot.
pub open spec fn bot_texts_calls(profile: UserProfile) -> Seq<RequestView> {
    let named = match profile.nickname {
        Some(name) => seq![
            request::call("setMyName"@, json::no_fields().insert("name"@, JsonView::Text(name@))),
        ],
        None => Seq::empty(),
    };
    match profile.signature {
        Some(description) => named.push(
            request::call(
                "setMyDescription"@,
                json::no_fields().insert("description"@, JsonView::Text(description@)),
            ),
        ),
        None => named,
    }
}

/// The calls that change the name and the description of the bot.
pub fn set_bot_profile(profile: &UserProfile) -> (requests: Vec<Request>)
    ensures
        request::calls(requests@) == bot_texts_calls(*profile),
{
    let mut requests: Vec<Request> = Vec::new();
    if let Some(name) = &profile.nickname {
        let mut payload = Fields::none();
        payload.put("name", Json::text(name.as_str()));
        requests.push(make_call("setMyName", payload));
    }
    if let Some(description) = &profile.signature {
        let mut payload = Fields::none();
        payload.put("description", Json::text(description.as_str()));
        requests.push(make_call("setMyDescription", payload));
    }
    assert(request::calls(requests@) =~= bot_texts_calls(*profile));
    requests
}

// ---------------------------------------------------------------------------
// Files and pictures
// ---------------------------------------------------------------------------

/// What stands after the last occurrence of a character.
pub open spec fn after_last(text: Seq<char>, c: char) -> Seq<char>
    decreases text.len(),
{
    if text.len() == 0 || text.last() == c {
        Seq::empty()
    } else {
        after_last(text.drop_last(), c).push(text.last())
    }
}

fn find_after_last(text: &str, c: char) -> (result: String)
    ensures
        result@ == after_last(text@, c),
{
    let chars = chars_of(text);
    let n: usize = chars.len();
    let mut i: usize = n;
    assert(text@.take(n as int) =~= text@);
    assert(text@.subrange(n as int, n as int) =~= Seq::<char>::empty());
    assert(after_last(text@, c) =~= after_last(text@.take(n as int), c) + Seq::<char>::empty());
    while i > 0 && chars[i - 1] != c
        invariant
            i <= n,
            n == chars@.len(),
            chars@ == text@,
            after_last(text@, c) == after_last(text@.take(i as int), c) + text@.subrange(
                i as int,
                n as int,
            ),
        decreases i,
    {
        proof {
            let head = text@.take(i as int);
            assert(head.drop_last() =~= text@.take(i - 1));
            assert(head.last() == text@[i - 1]);
            assert(after_last(head, c) == after_last(head.drop_last(), c).push(head.last()));
            assert(after_last(text@.take(i - 1), c).push(text@[i - 1]) + text@.subrange(
                i as int,
                n as int,
            ) =~= after_last(text@.take(i - 1), c) + text@.subrange(i - 1, n as int));
        }
        i -= 1;
    }
    proof {
        if i > 0 {
            assert(text@.take(i as int).last() == c);
        }
        assert(after_last(text@.take(i as int), c) =~= Seq::<char>::empty());
        assert(after_last(text@, c) =~= text@.subrange(i as int, n as int));
    }
    text_between(&chars, i, n)
}

/// The last part of a path that is not empty.
pub open spec fn last_part(path: Seq<char>) -> Seq<char> {
    after_last(client::without_slashes(path), '/')
}

/// The name of the picture at a path.
pub open spec fn avatar_name(path: Seq<char>) -> Seq<char> {
    if last_part(path).len() == 0 {
        "avatar.jpg"@
    } else {
        last_part(path)
    }
}

/// The name of the picture at a path.
pub fn find_avatar_name(path: &str) -> (name: String)
    ensures
        name@ == avatar_name(path@),
{
    let trimmed = client::trim_slashes(path);
    let name = find_after_last(trimmed.as_str(), '/');
    if name.as_str().is_empty() {
        "avatar.jpg".to_owned()
    } else {
        name
    }
}

/// Where the bytes of a picture are.
#[derive(Debug, PartialEq)]
pub enum AvatarSource {
    Ready(Upload),
    Download { url: String, name: String },
    Read { path: String, name: String },
}

/// The most bytes that a picture may have.
pub const MAX_AVATAR_BYTES: u64 = 10_485_760;

/// Why a picture at an address cannot be used.
pub open spec fn avatar_uri_flaw(uri: Uri) -> Option<ErrorView> {
    match uri@.scheme {
        Some(scheme) => if scheme == "http"@ || scheme == "https"@ || scheme == "file"@ {
            None
        } else {
            Some(ErrorView::Message("unsupported avatar URI scheme "@ + native::quoted(scheme)))
        },
        None => None,
    }
}

/// The source is where the picture at an address is.
pub open spec fn is_avatar_source(source: AvatarSource, uri: Uri) -> bool {
    if uri@.scheme == Some("http"@) || uri@.scheme == Some("https"@) {
        source matches AvatarSource::Download { url, name } && url@ == uri@.text && name@
            == avatar_name(uri@.path)
    } else {
        source matches AvatarSource::Read { path, name } && path@ == uri@.path && name@
            == avatar_name(uri@.path)
    }
}

/// Finds where the picture at an address is.
pub fn avatar_upload(uri: &Uri) -> (result: Result<AvatarSource, Error>)
    ensures
        match result {
            Ok(source) => avatar_uri_flaw(*uri) is None && is_avatar_source(source, *uri),
            Err(e) => avatar_uri_flaw(*uri) == Some(e@),
        },
{
    let name = find_avatar_name(uri.path.as_str());
    match &uri.scheme {
        Some(scheme) => {
            if same(scheme.as_str(), "http") || same(scheme.as_str(), "https") {
                Ok(AvatarSource::Download { url: uri.text.clone(), name })
            } else if same(scheme.as_str(), "file") {
                Ok(AvatarSource::Read { path: uri.path.clone(), name })
            } else {
                let scheme = quote(scheme.as_str());
                Err(Error::Message(joined("unsupported avatar URI scheme ", scheme.as_str())))
            }
        },
        None => Ok(AvatarSource::Read { path: uri.path.clone(), name }),
    }
}

/// Accepts a download of the given size.
pub fn check_avatar_size(bytes: u64) -> (result: Result<(), Error>)
    ensures
        match result {
            Ok(_) => bytes <= MAX_AVATAR_BYTES,
            Err(e) => bytes > MAX_AVATAR_BYTES && e@ == ErrorView::Message(
                "group avatar is larger than 10 MiB"@,
            ),
        },
{
    if bytes > MAX_AVATAR_BYTES {
        return Err(message("group avatar is larger than 10 MiB"));
    }
    Ok(())
}

/// Makes an upload of the bytes of a picture; its name tells its type.
pub fn finish_avatar(name: String, bytes: Vec<u8>) -> (upload: Upload)
    ensures
        media::is_upload(upload, name@, bytes@, mime::guessed(name@)),
{
    let mime = guess_mime(name.as_str());
    Upload { name, bytes, mime }
}

/// Why a picture cannot be used. `decoded` is what its base64 text decodes to.
pub open spec fn avatar_flaw(file: File, decoded: Option<Seq<u8>>) -> Option<ErrorView> {
    if file.base64 is Some {
        match decoded {
            None => Some(ErrorView::Message("invalid base64 avatar data"@)),
            Some(bytes) => if bytes.len() > MAX_AVATAR_BYTES {
                Some(ErrorView::Message("avatar is larger than 10 MiB"@))
            } else {
                None
            },
        }
    } else {
        match file.uri {
            Some(uri) => avatar_uri_flaw(uri),
            None => Some(
                ErrorView::Message(
                    "Telegram profile photos must contain base64 data or a readable URI"@,
                ),
            ),
        }
    }
}

/// The source is where the picture is.
pub open spec fn is_file_avatar(source: AvatarSource, file: File, decoded: Option<Seq<u8>>) -> bool {
    if file.base64 is Some {
        source matches AvatarSource::Ready(upload) && media::is_upload(
            upload,
            media::name_or_default(file.name@),
            decoded->Some_0,
            json::optional_chars(file.mime),
        )
    } else {
        is_avatar_source(source, file.uri->Some_0)
    }
}

/// Finds where a picture is, given what its base64 text decodes to.
pub fn choose_avatar(file: &File, decoded: Option<Vec<u8>>) -> (result: Result<AvatarSource, Error>)
    ensures
        ({
            let bytes = match decoded {
                Some(bytes) => Some(bytes@),
                None => None,
            };
            match result {
                Ok(source) => avatar_flaw(*file, bytes) is None && is_file_avatar(
                    source,
                    *file,
                    bytes,
                ),
                Err(e) => avatar_flaw(*file, bytes) == Some(e@),
            }
        }),
{
    if file.base64.is_some() {
        let bytes = match decoded {
            Some(bytes) => bytes,
            None => {
                return Err(message("invalid base64 avatar data"));
            },
        };
        if bytes.len() as u64 > MAX_AVATAR_BYTES {
            return Err(message("avatar is larger than 10 MiB"));
        }
        let mime = match &file.mime {
            Some(mime) => Some(mime.clone()),
            None => None,
        };
        return Ok(
            AvatarSource::Ready(Upload { name: nonempty_name(file.name.as_str()), bytes, mime }),
        );
    }
    match &file.uri {
        Some(uri) => avatar_upload(uri),
        None => Err(
            message("Telegram profile photos must contain base64 data or a readable URI"),
        ),
    }
}

/// Finds where a picture is.
pub fn avatar_file_upload(file: &File) -> (result: Result<AvatarSource, Error>)
    ensures
        match result {
            Ok(source) => avatar_flaw(*file, media::decoded_file(*file)) is None && is_file_avatar(
                source,
                *file,
                media::decoded_file(*file),
            ),
            Err(e) => avatar_flaw(*file, media::decoded_file(*file)) == Some(e@),
        },
{
    let decoded = match &file.base64 {
        Some(text) => decode_base64(text.as_str()),
        None => None,
    };
    choose_avatar(file, decoded)
}

/// The address of a file that Telegram named.
pub open spec fn file_uri_outcome(
    address: Option<Seq<char>>,
    parsed: Option<uri::UriView>,
) -> Result<Option<uri::UriView>, ErrorView> {
    match address {
        None => Ok(None),
        Some(_) => match parsed {
            Some(uri) => Ok(Some(uri)),
            None => error::refused("Telegram returned an invalid file URL"@),
        },
    }
}

impl TelegramClient {
    /// The address of a file that Telegram named.
    pub fn telegram_file_uri(&self, path: &Option<String>) -> (result: Result<Option<Uri>, Error>)
        ensures
            ({
                let address = match *path {
                    Some(path) => Some(client::file_address(self@, path@)),
                    None => None,
                };
                let outcome = file_uri_outcome(
                    address,
                    match address {
                        Some(address) => uri::parsed(address),
                        None => None,
                    },
                );
                match result {
                    Ok(uri) => outcome == Ok::<Option<uri::UriView>, ErrorView>(uri::uri_view(uri)),
                    Err(e) => outcome == Err::<Option<uri::UriView>, ErrorView>(e@),
                }
            }),
    {
        match path {
            None => Ok(None),
            Some(path) => {
                let address = self.file_url(path.as_str());
                match uri::parse(address.as_str()) {
                    Some(uri) => Ok(Some(uri)),
                    None => Err(message("Telegram returned an invalid file URL")),
                }
            },
        }
    }

    /// Reads what Telegram says of a file.
    pub fn get_file_info(&self, file: TelegramFile) -> (result: Result<File, Error>)
        ensures
            ({
                let address = match file.file_path {
                    Some(path) => Some(client::file_address(self@, path@)),
                    None => None,
                };
                let outcome = file_uri_outcome(
                    address,
                    match address {
                        Some(address) => uri::parsed(address),
                        None => None,
                    },
                );
                match result {
                    Ok(read) => outcome matches Ok(uri) && read@ == file_info(file, uri),
                    Err(e) => outcome == Err::<Option<uri::UriView>, ErrorView>(e@),
                }
            }),
    {
        let uri = self.telegram_file_uri(&file.file_path)?;
        Ok(read_file_info(file, uri))
    }
}

/// What Telegram says of a file.
pub open spec fn file_info(file: TelegramFile, uri: Option<uri::UriView>) -> source::FileView {
    source::FileView {
        id: Some(file.file_id@),
        name: match file.file_path {
            Some(path) => after_last(path@, '/'),
            None => Seq::empty(),
        },
        uri,
        base64: None,
        mime: match file.file_path {
            Some(path) => mime::guessed(path@),
            None => None,
        },
        size: file.file_size,
    }
}

/// Reads what Telegram says of a file, given its address.
pub fn read_file_info(file: TelegramFile, uri: Option<Uri>) -> (read: File)
    ensures
        read@ == file_info(file, uri::uri_view(uri)),
{
    let name = match &file.file_path {
        Some(path) => find_after_last(path.as_str(), '/'),
        None => {
            let none = String::new();
            assert(none@ =~= Seq::<char>::empty());
            none
        },
    };
    let mime = match &file.file_path {
        Some(path) => guess_mime(path.as_str()),
        None => None,
    };
    File { id: Some(file.file_id), name, uri, base64: None, mime, size: file.file_size }
}

// ---------------------------------------------------------------------------
// Laws
// ---------------------------------------------------------------------------

proof fn lemma_profile_keys()
    ensures
        "title"@.len() == 5,
        "description"@.len() == 11,
        "slow_mode_delay"@.len() == 15,
        "photo"@.len() == 5,
        "permissions"@.len() == 11,
        "use_independent_chat_permissions"@.len() == 32,
        "name"@.len() == 4,
        "language_code"@.len() == 13,
        "short_description"@.len() == 17,
        "rights"@.len() == 6,
        "type"@.len() == 4,
        "animation"@.len() == 9,
        "static"@.len() == 6,
        "animated"@.len() == 8,
        "first_name"@.len() == 10,
        "last_name"@.len() == 9,
        "username"@.len() == 8,
        "bio"@.len() == 3,
        "big_file_id"@.len() == 11,
        "linked_chat_id"@.len() == 14,
        "chat_id"@.len() == 7,
        "remove_photo"@.len() == 12,
        "title"@ != "photo"@,
        "description"@ != "permissions"@,
        "description"@ != "big_file_id"@,
        "permissions"@ != "big_file_id"@,
        "name"@ != "type"@,
        "rights"@ != "static"@,
        "animation"@ != "last_name"@,
        "animated"@ != "username"@,
{
    reveal_strlit("title");
    reveal_strlit("description");
    reveal_strlit("slow_mode_delay");
    reveal_strlit("photo");
    reveal_strlit("permissions");
    reveal_strlit("use_independent_chat_permissions");
    reveal_strlit("name");
    reveal_strlit("language_code");
    reveal_strlit("short_description");
    reveal_strlit("rights");
    reveal_strlit("type");
    reveal_strlit("animation");
    reveal_strlit("static");
    reveal_strlit("animated");
    reveal_strlit("first_name");
    reveal_strlit("last_name");
    reveal_strlit("username");
    reveal_strlit("bio");
    reveal_strlit("big_file_id");
    reveal_strlit("linked_chat_id");
    reveal_strlit("chat_id");
    reveal_strlit("remove_photo");
    assert("title"@[0] != "photo"@[0]);
    assert("description"@[0] != "permissions"@[0]);
    assert("description"@[0] != "big_file_id"@[0]);
    assert("permissions"@[0] != "big_file_id"@[0]);
    assert("name"@[0] != "type"@[0]);
    assert("rights"@[0] != "static"@[0]);
    assert("animation"@[0] != "last_name"@[0]);
    assert("animated"@[0] != "username"@[0]);
}

proof fn lemma_profile_methods()
    ensures
        "setChatTitle"@.len() == 12,
        "setChatDescription"@.len() == 18,
        "setChatPermissions"@.len() == 18,
        "setChatSlowModeDelay"@.len() == 20,
        "deleteChatPhoto"@.len() == 15,
        "setMyName"@.len() == 9,
        "setMyDescription"@.len() == 16,
        "setMyShortDescription"@.len() == 21,
        "setMyDefaultAdministratorRights"@.len() == 31,
        "removeMyProfilePhoto"@.len() == 20,
        "setChatDescription"@ != "setChatPermissions"@,
        "setChatSlowModeDelay"@ != "removeMyProfilePhoto"@,
{
    reveal_strlit("setChatTitle");
    reveal_strlit("setChatDescription");
    reveal_strlit("setChatPermissions");
    reveal_strlit("setChatSlowModeDelay");
    reveal_strlit("deleteChatPhoto");
    reveal_strlit("setMyName");
    reveal_strlit("setMyDescription");
    reveal_strlit("setMyShortDescription");
    reveal_strlit("setMyDefaultAdministratorRights");
    reveal_strlit("removeMyProfilePhoto");
    assert("setChatDescription"@[7] != "setChatPermissions"@[7]);
    assert("setChatSlowModeDelay"@[0] != "removeMyProfilePhoto"@[0]);
}

/// The step is a call of the method that says the text under the key.
pub open spec fn says(
    step: ProfileStepView,
    method: Seq<char>,
    key: Seq<char>,
    text: Seq<char>,
) -> bool {
    &&& step matches ProfileStepView::Call(call)
    &&& call.method == method
    &&& json::text_in(call.payload, key) == Some(text)
}

/// How many of the parts of a profile are to be set.
pub open spec fn parts_given(profile: ConversationProfile, delete: bool) -> int {
    let one = |given: bool|
        if given {
            1int
        } else {
            0int
        };
    one(profile.name is Some) + one(profile.description is Some) + one(profile.avatar is Some)
        + one(profile.default_permissions is Some) + one(profile.slow_mode is Some) + one(delete)
}

/// A profile is set part by part: one step for each part that was given and
/// none for any other, each by its own method and with what was given.
pub proof fn law_profiles_are_set_part_by_part(
    conversation: ConversationRef,
    profile: ConversationProfile,
)
    requires
        set_profile_outcome(conversation, profile) is Ok,
    ensures
        ({
            let steps = set_profile_outcome(conversation, profile)->Ok_0;
            let delete = profile.platform_data matches Some(native)
                && native.data@ matches JsonView::Object(members) && json::bool_in(
                members,
                "delete_photo"@,
            ) == Some(true);
            let one = |given: bool|
                if given {
                    1int
                } else {
                    0int
                };
            let a = one(profile.name is Some);
            let b = a + one(profile.description is Some);
            let c = b + one(profile.avatar is Some);
            let d = c + one(profile.default_permissions is Some);
            let e = d + one(profile.slow_mode is Some);
            &&& steps.len() == parts_given(profile, delete)
            &&& profile.name matches Some(name) ==> says(
                steps[0],
                "setChatTitle"@,
                "title"@,
                name@,
            )
            &&& profile.description matches Some(text) ==> says(
                steps[a],
                "setChatDescription"@,
                "description"@,
                text@,
            )
            &&& profile.avatar is Some ==> steps[b] is Avatar
            &&& profile.default_permissions matches Some(permissions) ==> {
                &&& steps[c] matches ProfileStepView::Call(call)
                &&& call.method == "setChatPermissions"@
                &&& json::object_in(call.payload, "permissions"@) matches Some(granted)
                &&& json::bool_in(granted, "can_send_messages"@) == Some(
                    permissions@.allow.contains(PermissionView::SendMessages),
                )
                &&& json::bool_in(granted, "can_send_photos"@) == Some(
                    permissions@.allow.contains(PermissionView::SendMedia),
                )
                &&& json::bool_in(granted, "can_invite_users"@) == Some(
                    permissions@.allow.contains(PermissionView::AddMembers),
                )
            }
            &&& profile.slow_mode matches Some(delay) ==> {
                &&& steps[d] matches ProfileStepView::Call(call)
                &&& call.method == "setChatSlowModeDelay"@
                &&& json::u64_in(call.payload, "slow_mode_delay"@) == Some(delay.seconds)
            }
            &&& delete ==> {
                &&& steps[e] matches ProfileStepView::Call(call)
                &&& call.method == "deleteChatPhoto"@
            }
            &&& !(delete && profile.avatar is Some)
        }),
{
    lemma_profile_keys();
    let place = address::conversation_payload(conversation)->Ok_0;
    if let Some(name) = profile.name {
        let all = place.insert("title"@, JsonView::Text(name@));
        request::lemma_call_member("setChatTitle"@, all, "title"@);
    }
    if let Some(text) = profile.description {
        let all = place.insert("description"@, JsonView::Text(text@));
        request::lemma_call_member("setChatDescription"@, all, "description"@);
    }
    if let Some(permissions) = profile.default_permissions {
        let allow = permissions@.allow;
        let all = members::restriction(place, allow);
        request::lemma_call_member("setChatPermissions"@, all, "permissions"@);
        let granted = permissions::chat_permissions_view(permissions::member_table(), allow);
        permissions::law_permissions_are_written_by_name(allow);
        json::lemma_stripped_member(granted, "can_send_messages"@);
        json::lemma_stripped_member(granted, "can_send_photos"@);
        json::lemma_stripped_member(granted, "can_invite_users"@);
    }
    if let Some(delay) = profile.slow_mode {
        let all = place.insert("slow_mode_delay"@, JsonView::Integer(delay.seconds as int));
        request::lemma_call_member("setChatSlowModeDelay"@, all, "slow_mode_delay"@);
    }
}

/// A group is given the name that its profile has and the picture that it has,
/// and nothing else is changed.
pub proof fn law_groups_are_named(group_id: Seq<char>, profile: GroupProfile)
    requires
        group_profile_outcome(group_id, profile) is Ok,
    ensures
        ({
            let steps = group_profile_outcome(group_id, profile)->Ok_0;
            &&& profile.name matches Some(name) ==> 1 <= name@.len() <= 128 && says(
                steps[0],
                "setChatTitle"@,
                "title"@,
                name@,
            ) && (steps[0] matches ProfileStepView::Call(call) && json::member(
                call.payload,
                "chat_id"@,
            ) == Some(
                match text::i64_value(group_id) {
                    Some(id) => JsonView::Integer(id as int),
                    None => JsonView::Text(group_id),
                },
            ))
            &&& profile.avatar is Some ==> steps.last() is Avatar
            &&& profile.avatar is None && profile.name is None ==> steps.len() == 0
            &&& profile.avatar is Some && profile.name is Some ==> steps.len() == 2
            &&& (profile.avatar is Some) != (profile.name is Some) ==> steps.len() == 1
        }),
{
    lemma_profile_keys();
    if let Some(name) = profile.name {
        let all = members::group_payload(group_id).insert("title"@, JsonView::Text(name@));
        request::lemma_call_member("setChatTitle"@, all, "title"@);
        request::lemma_call_member("setChatTitle"@, all, "chat_id"@);
    }
}

/// The age is counted in full years: it is the difference of the years from the
/// birthday on, and one less before it; so it grows by one on each birthday.
pub proof fn law_ages_grow_on_the_birthday(birthdate: Birthdate, today: Day)
    requires
        birthdate.year is Some,
    ensures
        ({
            let years = today.year - birthdate.year->0;
            let passed = today.month > birthdate.month || (today.month == birthdate.month
                && today.day >= birthdate.day);
            &&& passed && years >= 0 ==> (age_on(birthdate, today) matches Some(age) && age == years)
            &&& !passed && years >= 1 ==> (age_on(birthdate, today) matches Some(age) && age
                == years - 1)
            &&& years < 0 || !passed && years == 0 ==> age_on(birthdate, today) is None
        }),
{
}

/// A user is called by the name that they chose, or else by their first and
/// last name; their signature is what they say of themselves.
pub proof fn law_users_are_described_as_they_are(
    profile: UserProfile,
    chat: ChatFullInfo,
    avatar: Option<Uri>,
    today: Day,
)
    requires
        reads_user_profile(profile, chat, avatar, today),
    ensures
        chat.username matches Some(name) ==> (profile.nickname matches Some(shown) && shown@
            == name@),
        profile.signature == chat.bio,
        profile.avatar == avatar,
        chat.birthdate is None ==> profile.age is None,
        chat.birthdate matches Some(birthdate) ==> profile.age == age_on(birthdate, today),
{
}

/// A conversation is described as Telegram describes its chat: by its title, its
/// username and its description, or what its user says of themselves; its
/// picture is the large one, and its number of members is the one that was
/// counted.
pub proof fn law_conversations_are_described_as_they_are(
    profile: ConversationProfile,
    members: Map<Seq<char>, JsonView>,
    conversation: ConversationRef,
    count: Option<i64>,
)
    requires
        reads_profile(profile, members, conversation, count),
    ensures
        json::text_in(members, "title"@) matches Some(title) ==> (profile.name matches Some(name)
            && name@ == title),
        json::optional_chars(profile.username) == json::text_in(members, "username"@),
        json::text_in(members, "description"@) matches Some(text) ==> (profile.description matches Some(
            shown,
        ) && shown@ == text),
        json::member(members, "description"@) is None ==> json::optional_chars(profile.description)
            == json::text_in(members, "bio"@),
        json::object_in(members, "photo"@) matches Some(photo) ==> (json::text_in(
            photo,
            "big_file_id"@,
        ) matches Some(id) ==> (profile.avatar matches Some(file) && file@.id == Some(id))),
        count matches Some(n) ==> (n >= 0 ==> profile.member_count == Some(n as u64)),
        count is None ==> profile.member_count is None,
        json::i64_in(members, "linked_chat_id"@) matches Some(id) ==> (profile.parent matches Some(
            parent,
        ) && text::i64_value(parent.id@) == Some(id)),
        json::i64_in(members, "linked_chat_id"@) is None ==> profile.parent is None,
        json::u64_in(members, "slow_mode_delay"@) matches Some(seconds) ==> (
        profile.slow_mode matches Some(delay) && delay.seconds == seconds),
        json::u64_in(members, "slow_mode_delay"@) is None ==> profile.slow_mode is None,
{
    if let Some(id) = json::i64_in(members, "linked_chat_id"@) {
        text::lemma_decimal_round_trip(id as int);
    }
}

/// Only chats of many have their members counted.
pub proof fn law_only_groups_are_counted(
    conversation: ConversationRef,
    members: Map<Seq<char>, JsonView>,
)
    ensures
        json::text_in(members, "type"@) == Some("private"@) ==> count_outcome(
            conversation,
            JsonView::Object(members),
        ) == Ok::<Option<RequestView>, ErrorView>(None),
        json::text_in(members, "type"@) == Some("group"@) || json::text_in(members, "type"@)
            == Some("supergroup"@) || json::text_in(members, "type"@) == Some("channel"@) ==> (
        count_outcome(conversation, JsonView::Object(members)) matches Ok(found) ==> (
        found matches Some(call) && call.method == "getChatMemberCount"@)),
{
    reveal_strlit("private");
    reveal_strlit("group");
    reveal_strlit("supergroup");
    reveal_strlit("channel");
    assert("private"@[0] != "channel"@[0]);
    assert("private"@.len() == 7 && "group"@.len() == 5 && "supergroup"@.len() == 10);
}

proof fn lemma_localized_step(
    method: Seq<char>,
    key: Seq<char>,
    values: Map<Seq<char>, Seq<char>>,
    languages: Seq<Seq<char>>,
    n: int,
    k: int,
)
    requires
        0 <= k < n,
    ensures
        localized_steps(method, key, values, languages, n).len() == n,
        localized_steps(method, key, values, languages, n)[k] == ProfileStepView::Call(
            localized_call(method, key, languages[k], values[languages[k]]),
        ),
    decreases n,
{
    reveal_with_fuel(localized_steps, 2);
    if k < n - 1 {
        lemma_localized_step(method, key, values, languages, n - 1, k);
    } else if n > 1 {
        lemma_localized_step(method, key, values, languages, n - 1, 0);
    }
}

/// One of the steps says the text under the key by the method, in the language.
pub open spec fn says_in(
    steps: Seq<ProfileStepView>,
    method: Seq<char>,
    key: Seq<char>,
    language: Seq<char>,
    text: Seq<char>,
) -> bool {
    exists|k: int|
        0 <= k < steps.len() && says(#[trigger] steps[k], method, key, text) && (language.len() == 0
            ==> json::member(steps[k]->Call_0.payload, "language_code"@) is None) && (language.len()
            > 0 ==> json::text_in(steps[k]->Call_0.payload, "language_code"@) == Some(language))
}

proof fn lemma_said_in(
    method: Seq<char>,
    key: Seq<char>,
    values: Map<Seq<char>, Seq<char>>,
    language: Seq<char>,
    start: Seq<ProfileStepView>,
    rest: Seq<ProfileStepView>,
)
    requires
        values.dom().finite(),
        values.contains_key(language),
        key != "language_code"@,
    ensures
        says_in(start + all_localized(method, key, values) + rest, method, key, language, values[language]),
{
    let languages = json::sorted_keys(values.dom());
    json::lemma_sorted_keys_exist(values.dom());
    assert(values.dom().contains(language));
    let k = choose|k: int| 0 <= k < languages.len() && languages[k] == language;
    lemma_localized_step(method, key, values, languages, languages.len() as int, k);
    let steps = start + all_localized(method, key, values) + rest;
    let at = start.len() + k;
    let payload = json::no_fields().insert(key, JsonView::Text(values[language])).insert(
        "language_code"@,
        if language.len() == 0 {
            JsonView::Null
        } else {
            JsonView::Text(language)
        },
    );
    request::lemma_call_member(method, payload, key);
    request::lemma_call_member(method, payload, "language_code"@);
    assert(steps[at] == ProfileStepView::Call(
        localized_call(method, key, language, values[language]),
    ));
    assert(says(steps[at], method, key, values[language]));
}

/// A bot is given its name, its description and its short description in every
/// language that each was written in, each by its own method.
pub proof fn law_bots_are_described_in_each_language(profile: BotProfile, language: Seq<char>)
    requires
        texts(profile.names).dom().finite(),
        texts(profile.descriptions).dom().finite(),
        texts(profile.short_descriptions).dom().finite(),
    ensures
        profile.names@.contains_key(language) ==> says_in(
            bot_profile_steps(profile),
            "setMyName"@,
            "name"@,
            language,
            profile.names@[language]@,
        ),
        profile.descriptions@.contains_key(language) ==> says_in(
            bot_profile_steps(profile),
            "setMyDescription"@,
            "description"@,
            language,
            profile.descriptions@[language]@,
        ),
        profile.short_descriptions@.contains_key(language) ==> says_in(
            bot_profile_steps(profile),
            "setMyShortDescription"@,
            "short_description"@,
            language,
            profile.short_descriptions@[language]@,
        ),
{
    lemma_profile_keys();
    let named = all_localized("setMyName"@, "name"@, texts(profile.names));
    let described = all_localized(
        "setMyDescription"@,
        "description"@,
        texts(profile.descriptions),
    );
    let short = all_localized(
        "setMyShortDescription"@,
        "short_description"@,
        texts(profile.short_descriptions),
    );
    let all = bot_profile_steps(profile);
    let none = Seq::<ProfileStepView>::empty();
    let after_named = all.skip(named.len() as int);
    let after_described = all.skip((named.len() + described.len()) as int);
    let after_short = all.skip((named.len() + described.len() + short.len()) as int);
    assert(all =~= none + named + after_named);
    assert(all =~= named + described + after_described);
    assert(all =~= (named + described) + short + after_short);
    if profile.names@.contains_key(language) {
        lemma_said_in("setMyName"@, "name"@, texts(profile.names), language, none, after_named);
    }
    if profile.descriptions@.contains_key(language) {
        lemma_said_in(
            "setMyDescription"@,
            "description"@,
            texts(profile.descriptions),
            language,
            named,
            after_described,
        );
    }
    if profile.short_descriptions@.contains_key(language) {
        lemma_said_in(
            "setMyShortDescription"@,
            "short_description"@,
            texts(profile.short_descriptions),
            language,
            named + described,
            after_short,
        );
    }
}

/// The rights that a bot asks for by default are the ones that it was given,
/// and its picture is taken away only where that was asked for.
pub proof fn law_bots_ask_for_their_rights(profile: BotProfile)
    ensures
        profile.default_permissions matches Some(permissions) ==> {
            let steps = bot_profile_steps(profile);
            &&& steps.len() > 0
            &&& steps.last() matches ProfileStepView::Call(call)
            &&& call.method == "setMyDefaultAdministratorRights"@
            &&& json::object_in(call.payload, "rights"@) matches Some(rights)
            &&& json::bool_in(rights, "can_delete_messages"@) == Some(
                permissions@.allow.contains(PermissionView::ManageMessages),
            )
            &&& json::bool_in(rights, "can_pin_messages"@) == Some(
                permissions@.allow.contains(PermissionView::PinMessages),
            )
            &&& json::bool_in(rights, "can_promote_members"@) == Some(
                permissions@.allow.contains(PermissionView::ManageRoles),
            )
        },
        profile.platform_data matches Some(native) ==> (native::native_object_outcome(
            native,
            "bot profile"@,
        ) matches Ok(members) ==> (json::bool_in(members, "remove_photo"@) == Some(true)
            ==> bot_profile_plan(profile).0.len() == bot_profile_steps(profile).len() + 1 && (
        bot_profile_plan(profile).0.last() matches ProfileStepView::Call(call) && call.method
            == "removeMyProfilePhoto"@)) && (json::bool_in(members, "remove_photo"@) != Some(true)
            ==> bot_profile_plan(profile).0 == bot_profile_steps(profile))),
        profile.platform_data is None ==> bot_profile_plan(profile).0 == bot_profile_steps(profile),
{
    if let Some(permissions) = profile.default_permissions {
        let allow = permissions@.allow;
        let rights = permissions::administrator_view(json::no_fields(), allow);
        let payload = json::no_fields().insert("rights"@, JsonView::Object(rights));
        request::lemma_call_member("setMyDefaultAdministratorRights"@, payload, "rights"@);
        permissions::law_promotions_are_written_by_name(json::no_fields(), allow);
        json::lemma_stripped_member(rights, "can_delete_messages"@);
        json::lemma_stripped_member(rights, "can_pin_messages"@);
        json::lemma_stripped_member(rights, "can_promote_members"@);
    }
}

/// A moving picture is handed over as one, and a still picture as one.
pub proof fn law_bot_pictures_are_what_they_are(mime: Option<Seq<char>>, upload: Upload)
    ensures
        ({
            let call = bot_photo_view(mime, upload);
            &&& call matches CallView::Form { method, values, uploads, .. }
            &&& method == "setMyProfilePhoto"@
            &&& uploads.len() == 1
            &&& uploads[0].1 == upload
            &&& json::object_in(values, "photo"@) matches Some(photo)
            &&& is_video(mime) ==> json::text_in(photo, "type"@) == Some("animated"@)
                && json::text_in(photo, "animation"@) == Some("attach://"@ + uploads[0].0)
            &&& !is_video(mime) ==> json::text_in(photo, "type"@) == Some("static"@)
                && json::text_in(photo, "photo"@) == Some("attach://"@ + uploads[0].0)
        }),
{
    lemma_profile_keys();
    reveal_strlit("attach://profile_photo");
    reveal_strlit("attach://");
    reveal_strlit("profile_photo");
    assert("attach://profile_photo"@ =~= "attach://"@ + "profile_photo"@);
}

/// What a bot is called and how it is described is read from the answer to each
/// question, and its rights from theirs.
pub proof fn law_bots_are_read_as_they_are(
    profile: BotProfile,
    name: Map<Seq<char>, JsonView>,
    description: Map<Seq<char>, JsonView>,
    short_description: Map<Seq<char>, JsonView>,
    rights: JsonView,
)
    requires
        reads_bot_profile(
            profile,
            JsonView::Object(name),
            JsonView::Object(description),
            JsonView::Object(short_description),
            rights,
        ),
    ensures
        json::text_in(name, "name"@) matches Some(text) ==> texts(profile.names).contains_key(
            Seq::empty(),
        ) && texts(profile.names)[Seq::empty()] == text,
        json::text_in(description, "description"@) matches Some(text) ==> texts(
            profile.descriptions,
        ).contains_key(Seq::empty()) && texts(profile.descriptions)[Seq::empty()] == text,
        json::text_in(short_description, "short_description"@) matches Some(text) ==> texts(
            profile.short_descriptions,
        ).contains_key(Seq::empty()) && texts(profile.short_descriptions)[Seq::empty()] == text,
        profile.default_permissions is Some <==> rights is Object,
{
}

/// A bot takes its name from the nickname of a profile and its description from
/// the signature.
pub proof fn law_bots_are_called_as_asked(profile: UserProfile)
    ensures
        ({
            let calls = bot_texts_calls(profile);
            &&& profile.nickname matches Some(name) ==> calls.len() > 0 && calls[0].method
                == "setMyName"@ && json::text_in(calls[0].payload, "name"@) == Some(name@)
            &&& profile.signature matches Some(text) ==> calls.len() > 0 && calls.last().method
                == "setMyDescription"@ && json::text_in(calls.last().payload, "description"@)
                == Some(text@)
            &&& profile.nickname is None && profile.signature is None ==> calls.len() == 0
            &&& profile.nickname is Some && profile.signature is Some ==> calls.len() == 2
        }),
{
    if let Some(name) = profile.nickname {
        let payload = json::no_fields().insert("name"@, JsonView::Text(name@));
        request::lemma_call_member("setMyName"@, payload, "name"@);
    }
    if let Some(text) = profile.signature {
        let payload = json::no_fields().insert("description"@, JsonView::Text(text@));
        request::lemma_call_member("setMyDescription"@, payload, "description"@);
    }
}

/// A picture from the web is downloaded from its address, any other is read
/// from its path.
pub proof fn law_avatars_come_from_where_they_are(source: AvatarSource, uri: Uri)
    requires
        avatar_uri_flaw(uri) is None,
        is_avatar_source(source, uri),
    ensures
        uri@.scheme == Some("http"@) || uri@.scheme == Some("https"@) <==> (source matches AvatarSource::Download {
            url,
            ..
        } && url@ == uri@.text),
        uri@.scheme is None || uri@.scheme == Some("file"@) <==> (source matches AvatarSource::Read {
            path,
            ..
        } && path@ == uri@.path),
{
    reveal_strlit("http");
    reveal_strlit("https");
    reveal_strlit("file");
    assert("http"@.len() == 4 && "https"@.len() == 5 && "file"@.len() == 4);
    assert("http"@[0] != "file"@[0]);
}

/// A profile is refused only for cause: a part that only Telegram sets, a name
/// that is empty or longer than 128 characters, a description longer than 255,
/// a delay that Telegram does not have, or a picture that is set and deleted.
pub proof fn law_profiles_are_refused_only_for_cause(profile: ConversationProfile)
    requires
        is_settable(profile),
        profile.platform_data is None,
    ensures
        profile_rule(profile) is Ok <==> (profile.name matches Some(name) ==> 1 <= name@.len()
            <= 128) && (profile.description matches Some(text) ==> text@.len() <= 255) && (
        profile.slow_mode matches Some(delay) ==> (delay.seconds == 0 || delay.seconds == 10
            || delay.seconds == 30 || delay.seconds == 60 || delay.seconds == 300 || delay.seconds
            == 900 || delay.seconds == 3600)),
{
}

/// A picture may hold ten mebibytes.
pub proof fn law_pictures_have_a_limit(file: File, bytes: Seq<u8>)
    requires
        file.base64 is Some,
    ensures
        avatar_flaw(file, Some(bytes)) is None <==> bytes.len() <= 10 * 1024 * 1024,
{
}

/// A chat is asked for by its number, and so is the number of its members, each
/// by its own method; its picture is set from what is uploaded.
pub proof fn law_each_call_asks_what_it_says(
    chat_id: &str,
    conversation: &ConversationRef,
    payload: &Fields,
    upload: Upload,
    chat: Request,
    count: Request,
    profile: Result<Request, Error>,
    picture: media::Call,
    description: Request,
)
    requires
        call_ensures(chat_call, (chat_id,), chat),
        call_ensures(chat_count_call, (chat_id,), count),
        call_ensures(get_conversation_profile, (conversation,), profile),
        call_ensures(chat_photo_call, (payload, upload), picture),
        call_ensures(get_bot_profile, (), description),
    ensures
        chat@.method == "getChat"@,
        count@.method == "getChatMemberCount"@,
        json::member(chat@.payload, "chat_id"@) == Some(
            match text::i64_value(chat_id@) {
                Some(id) => JsonView::Integer(id as int),
                None => JsonView::Text(chat_id@),
            },
        ),
        json::member(count@.payload, "chat_id"@) == json::member(chat@.payload, "chat_id"@),
        profile matches Ok(call) ==> call@.method == "getChat"@,
        picture@ matches CallView::Form { method, uploads, .. } && method == "setChatPhoto"@
            && uploads.len() == 1 && uploads[0] == ("photo"@, upload),
        description@.method == "getMyDescription"@,
{
    let place = members::group_payload(chat_id@);
    request::lemma_call_member("getChat"@, place, "chat_id"@);
    request::lemma_call_member("getChatMemberCount"@, place, "chat_id"@);
}

/// Everything that is said of a bot is asked for, each by its own method.
pub proof fn law_bots_are_asked_for_everything()
    ensures
        bot_profile_calls().len() == 4,
        bot_profile_calls()[0].method == "getMyName"@,
        bot_profile_calls()[1].method == "getMyDescription"@,
        bot_profile_calls()[2].method == "getMyShortDescription"@,
        bot_profile_calls()[3].method == "getMyDefaultAdministratorRights"@,
{
}

} // verus!
