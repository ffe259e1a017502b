//! Calls about the members of conversations.
use crate::api::address;
use crate::api::address::{add_members, chat_id_value, telegram_conversation_payload};
use crate::api::invite;
use crate::api::invite::{
    add_invite_options, add_subscription_invite_options, validate_invite_options,
};
use crate::api::permissions;
use crate::api::permissions::{
    chat_permissions, telegram_administrator_permissions, telegram_chat_permissions,
    telegram_has_admin_permissions,
};
use crate::api::request;
use crate::api::request::{make_call, Request, RequestView};
use crate::content::Duration;
use crate::conversation;
use crate::conversation::{
    ConversationRef, InviteLink, InviteLinkOptions, PageRequest,
    PermissionSet, PermissionView,
};
use crate::error;
use crate::error::{message, Error, ErrorView};
use crate::json;
use crate::json::{Fields, Json, JsonView};
use crate::source::{Role, User, UserGroupInfo};
use crate::telegram::ChatMember;
use crate::native;
use crate::native::merge_optional_native;
use crate::text;
use crate::text::{parse_i64, same};
use crate::utils;
use crate::utils::{parse_user, split_join_request_id};
use vstd::prelude::*;
use vstd::string::*;

verus! {

// ---------------------------------------------------------------------------
// Members of a conversation
// ---------------------------------------------------------------------------

/// `payload` with the number of a user.
pub open spec fn with_user(
    payload: Result<Map<Seq<char>, JsonView>, ErrorView>,
    user_id: Seq<char>,
) -> Result<Map<Seq<char>, JsonView>, ErrorView> {
    match payload {
        Err(e) => Err(e),
        Ok(payload) => match text::i64_value(user_id) {
            None => error::refused("invalid Telegram user id"@),
            Some(user) => Ok(payload.insert("user_id"@, JsonView::Integer(user as int))),
        },
    }
}

/// The parameters that address a member of a conversation.
pub open spec fn member_payload(conversation: ConversationRef, user_id: Seq<char>) -> Result<
    Map<Seq<char>, JsonView>,
    ErrorView,
> {
    match address::conversation_payload(conversation) {
        Err(e) => Err(e),
        Ok(place) => match text::i64_value(user_id) {
            None => error::refused("invalid Telegram user id"@),
            Some(user) => address::with_members(
                place,
                json::no_fields().insert("user_id"@, JsonView::Integer(user as int)),
            ),
        },
    }
}

fn read_user_id(user_id: &str) -> (result: Result<i64, Error>)
    ensures
        match result {
            Ok(user) => text::i64_value(user_id@) == Some(user),
            Err(e) => text::i64_value(user_id@) is None && e@ == ErrorView::Message(
                "invalid Telegram user id"@,
            ),
        },
{
    match parse_i64(user_id) {
        Some(user) => Ok(user),
        None => Err(message("invalid Telegram user id")),
    }
}

fn write_member_payload(conversation: &ConversationRef, user_id: &str) -> (result: Result<
    Fields,
    Error,
>)
    ensures
        crate::native::shown_fields(result) == member_payload(*conversation, user_id@),
{
    let place = telegram_conversation_payload(conversation)?;
    let user = read_user_id(user_id)?;
    let mut own = Fields::none();
    own.put("user_id", Json::integer(user));
    add_members(place, &own)
}

/// The call that asks for a member.
pub fn get_conversation_member(conversation: &ConversationRef, user_id: &str) -> (result: Result<
    Request,
    Error,
>)
    ensures
        error::shown(result) == request::requested(
            "getChatMember"@,
            member_payload(*conversation, user_id@),
        ),
{
    let payload = write_member_payload(conversation, user_id)?;
    Ok(make_call("getChatMember", payload))
}

/// The call that asks for the administrators.
pub open spec fn list_members_outcome(conversation: ConversationRef, page: PageRequest) -> Result<
    RequestView,
    ErrorView,
> {
    if page.cursor is Some {
        error::refused("Telegram administrator lists do not support cursors"@)
    } else {
        request::requested("getChatAdministrators"@, address::conversation_payload(conversation))
    }
}

/// The call that asks for the administrators.
pub fn list_conversation_members(conversation: &ConversationRef, page: &PageRequest) -> (result:
    Result<Request, Error>)
    ensures
        error::shown(result) == list_members_outcome(*conversation, *page),
{
    if page.cursor.is_some() {
        return Err(message("Telegram administrator lists do not support cursors"));
    }
    let payload = telegram_conversation_payload(conversation)?;
    Ok(make_call("getChatAdministrators", payload))
}

/// How many of the members that Telegram sent are wanted: the first ones, up
/// to the limit.
pub fn wanted_members(page: &PageRequest, sent: usize) -> (wanted: usize)
    ensures
        wanted == match page.limit {
            Some(limit) => if limit < sent {
                limit as usize
            } else {
                sent
            },
            None => sent,
        },
{
    match page.limit {
        Some(limit) => {
            if (limit as u64) < (sent as u64) {
                limit as usize
            } else {
                sent
            }
        },
        None => sent,
    }
}

/// The parameters that restrict to a set of permissions.
pub open spec fn restriction(payload: Map<Seq<char>, JsonView>, allow: Set<PermissionView>) -> Map<
    Seq<char>,
    JsonView,
> {
    payload.insert(
        "permissions"@,
        JsonView::Object(
            permissions::chat_permissions_view(permissions::member_table(), allow),
        ),
    ).insert("use_independent_chat_permissions"@, JsonView::Bool(true))
}

pub(crate) fn write_restriction(payload: Fields, permissions: &PermissionSet) -> (result: Fields)
    ensures
        json::fields(result) == restriction(json::fields(payload), permissions@.allow),
{
    let mut payload = payload;
    payload.put("permissions", Json::object(telegram_chat_permissions(permissions)));
    payload.put("use_independent_chat_permissions", Json::bool(true));
    payload
}

/// The calls that give a member a set of permissions: a promotion where the
/// set is that of an administrator, and otherwise the loss of such rights and
/// then a restriction.
pub open spec fn member_permissions_outcome(
    conversation: ConversationRef,
    user_id: Seq<char>,
    allow: Set<PermissionView>,
) -> Result<Seq<RequestView>, ErrorView> {
    match member_payload(conversation, user_id) {
        Err(e) => Err(e),
        Ok(payload) => if permissions::allows_admin(allow) {
            match promotion_outcome(payload, allow) {
                Err(e) => Err(e),
                Ok(promotion) => Ok(seq![promotion]),
            }
        } else {
            match promotion_outcome(payload, Set::empty()) {
                Err(e) => Err(e),
                Ok(demotion) => match request::requested(
                    "restrictChatMember"@,
                    address::with_members(payload, restriction(json::no_fields(), allow)),
                ) {
                    Err(e) => Err(e),
                    Ok(restricting) => Ok(seq![demotion, restricting]),
                },
            }
        },
    }
}

/// The call that gives a member exactly the given rights of an administrator.
pub open spec fn promotion_outcome(
    payload: Map<Seq<char>, JsonView>,
    allow: Set<PermissionView>,
) -> Result<RequestView, ErrorView> {
    request::requested(
        "promoteChatMember"@,
        address::with_members(
            payload,
            permissions::administrator_view(json::no_fields(), allow),
        ),
    )
}

fn make_promotion(payload: Fields, permissions: &PermissionSet) -> (result: Result<Request, Error>)
    ensures
        error::shown(result) == promotion_outcome(json::fields(payload), permissions@.allow),
{
    let own = telegram_administrator_permissions(Fields::none(), permissions);
    let payload = add_members(payload, &own)?;
    Ok(make_call("promoteChatMember", payload))
}

/// An outcome that is a list of calls.
pub open spec fn shown_calls(result: Result<Vec<Request>, Error>) -> Result<
    Seq<RequestView>,
    ErrorView,
> {
    match result {
        Ok(requests) => Ok(request::calls(requests@)),
        Err(e) => Err(e@),
    }
}

/// The calls that give a member a set of permissions.
pub fn set_member_permissions(
    conversation: &ConversationRef,
    user_id: &str,
    permissions: &PermissionSet,
) -> (result: Result<Vec<Request>, Error>)
    ensures
        shown_calls(result) == member_permissions_outcome(
            *conversation,
            user_id@,
            permissions@.allow,
        ),
{
    let payload = write_member_payload(conversation, user_id)?;
    let mut requests: Vec<Request> = Vec::new();
    if telegram_has_admin_permissions(permissions) {
        requests.push(make_promotion(payload, permissions)?);
    } else {
        let none = PermissionSet { allow: Vec::new(), deny: Vec::new() };
        assert(none@.allow =~= Set::<PermissionView>::empty());
        requests.push(make_promotion(payload.clone(), &none)?);
        let own = write_restriction(Fields::none(), permissions);
        let payload = add_members(payload, &own)?;
        requests.push(make_call("restrictChatMember", payload));
    }
    proof {
        let expected = member_permissions_outcome(*conversation, user_id@, permissions@.allow)->Ok_0;
        assert(request::calls(requests@) =~= expected);
    }
    Ok(requests)
}

/// The call that sets what the members of a conversation may do.
pub open spec fn default_permissions_outcome(
    conversation: ConversationRef,
    allow: Set<PermissionView>,
) -> Result<RequestView, ErrorView> {
    match address::conversation_payload(conversation) {
        Err(e) => Err(e),
        Ok(place) => request::requested(
            "setChatPermissions"@,
            address::with_members(place, restriction(json::no_fields(), allow)),
        ),
    }
}

/// The call that sets what the members of a conversation may do.
pub fn set_default_permissions(conversation: &ConversationRef, permissions: &PermissionSet) -> (result:
    Result<Request, Error>)
    ensures
        error::shown(result) == default_permissions_outcome(*conversation, permissions@.allow),
{
    let place = telegram_conversation_payload(conversation)?;
    let own = write_restriction(Fields::none(), permissions);
    let payload = add_members(place, &own)?;
    Ok(make_call("setChatPermissions", payload))
}

/// The call that gives a member a tag, or takes it away.
pub open spec fn member_tag_outcome(
    conversation: ConversationRef,
    user_id: Seq<char>,
    tag: Option<String>,
) -> Result<RequestView, ErrorView> {
    if tag matches Some(tag) && tag@.len() > 16 {
        error::refused("Telegram member tags are limited to 16 characters"@)
    } else {
        match member_payload(conversation, user_id) {
            Err(e) => Err(e),
            Ok(payload) => request::requested(
                "setChatMemberTag"@,
                address::with_members(
                    payload,
                    json::no_fields().insert("tag"@, json::optional_text_view(tag)),
                ),
            ),
        }
    }
}

/// The call that gives a member a tag, or takes it away.
pub fn set_member_tag(conversation: &ConversationRef, user_id: &str, tag: &Option<String>) -> (result:
    Result<Request, Error>)
    ensures
        error::shown(result) == member_tag_outcome(*conversation, user_id@, *tag),
{
    if let Some(tag) = tag {
        if tag.as_str().unicode_len() > 16 {
            return Err(message("Telegram member tags are limited to 16 characters"));
        }
    }
    let payload = write_member_payload(conversation, user_id)?;
    let mut own = Fields::none();
    own.put("tag", Json::optional_text(tag));
    let payload = add_members(payload, &own)?;
    Ok(make_call("setChatMemberTag", payload))
}

/// The point in time that lies the given number of seconds after another, or
/// the last one that can be told.
pub open spec fn later(now: i64, seconds: int) -> int {
    if now + seconds > i64::MAX {
        i64::MAX as int
    } else {
        now + seconds
    }
}

fn add_seconds(now: i64, seconds: i64) -> (time: i64)
    requires
        seconds >= 0,
    ensures
        time == later(now, seconds as int),
{
    if now > i64::MAX - seconds {
        i64::MAX
    } else {
        now + seconds
    }
}

/// When a span of time that starts now is over.
pub open spec fn until_outcome(
    duration: Option<Duration>,
    now: i64,
    complaint: Seq<char>,
) -> Result<Option<int>, ErrorView> {
    match duration {
        None => Ok(None),
        Some(duration) => if duration.seconds > i64::MAX {
            error::refused(complaint)
        } else {
            Ok(Some(later(now, duration.seconds as int)))
        },
    }
}

fn find_until(duration: Option<Duration>, now: i64, complaint: &str) -> (result: Result<
    Option<i64>,
    Error,
>)
    ensures
        match result {
            Ok(None) => until_outcome(duration, now, complaint@) == Ok::<Option<int>, ErrorView>(
                None,
            ),
            Ok(Some(time)) => until_outcome(duration, now, complaint@) == Ok::<
                Option<int>,
                ErrorView,
            >(Some(time as int)),
            Err(e) => until_outcome(duration, now, complaint@) == Err::<Option<int>, ErrorView>(e@),
        },
{
    match duration {
        None => Ok(None),
        Some(duration) => {
            if duration.seconds > i64::MAX as u64 {
                return Err(message(complaint));
            }
            Ok(Some(add_seconds(now, duration.seconds as i64)))
        },
    }
}

/// The call that bans a member.
pub open spec fn ban_outcome(
    conversation: ConversationRef,
    user_id: Seq<char>,
    duration: Option<Duration>,
    delete_history: bool,
    now: i64,
) -> Result<RequestView, ErrorView> {
    match member_payload(conversation, user_id) {
        Err(e) => Err(e),
        Ok(payload) => {
            let own = json::no_fields().insert("revoke_messages"@, JsonView::Bool(delete_history));
            match until_outcome(duration, now, "ban duration is too large"@) {
                Err(e) => Err(e),
                Ok(until) => request::requested(
                    "banChatMember"@,
                    address::with_members(
                        payload,
                        match until {
                            Some(time) => own.insert("until_date"@, JsonView::Integer(time)),
                            None => own,
                        },
                    ),
                ),
            }
        },
    }
}

/// The call that bans a member; `now` is the time in seconds since the epoch.
pub fn ban_conversation_member(
    conversation: &ConversationRef,
    user_id: &str,
    duration: Option<Duration>,
    delete_history: bool,
    now: i64,
) -> (result: Result<Request, Error>)
    ensures
        error::shown(result) == ban_outcome(
            *conversation,
            user_id@,
            duration,
            delete_history,
            now,
        ),
{
    let payload = write_member_payload(conversation, user_id)?;
    let mut own = Fields::none();
    own.put("revoke_messages", Json::bool(delete_history));
    if let Some(time) = find_until(duration, now, "ban duration is too large")? {
        own.put("until_date", Json::integer(time));
    }
    let payload = add_members(payload, &own)?;
    Ok(make_call("banChatMember", payload))
}

/// The call that lifts a ban.
pub open spec fn unban_outcome(conversation: ConversationRef, user_id: Seq<char>) -> Result<
    RequestView,
    ErrorView,
> {
    match member_payload(conversation, user_id) {
        Err(e) => Err(e),
        Ok(payload) => request::requested(
            "unbanChatMember"@,
            address::with_members(
                payload,
                json::no_fields().insert("only_if_banned"@, JsonView::Bool(true)),
            ),
        ),
    }
}

/// The call that lifts a ban.
pub fn unban_conversation_member(conversation: &ConversationRef, user_id: &str) -> (result: Result<
    Request,
    Error,
>)
    ensures
        error::shown(result) == unban_outcome(*conversation, user_id@),
{
    let payload = write_member_payload(conversation, user_id)?;
    let mut own = Fields::none();
    own.put("only_if_banned", Json::bool(true));
    let payload = add_members(payload, &own)?;
    Ok(make_call("unbanChatMember", payload))
}

/// The calls that remove a member who may come back: a ban, and its end.
pub open spec fn removal_outcome(conversation: ConversationRef, user_id: Seq<char>) -> Result<
    Seq<RequestView>,
    ErrorView,
> {
    match ban_outcome(conversation, user_id, None, false, 0) {
        Err(e) => Err(e),
        Ok(ban) => match unban_outcome(conversation, user_id) {
            Err(e) => Err(e),
            Ok(unban) => Ok(seq![ban, unban]),
        },
    }
}

/// The calls that remove a member who may come back.
pub fn remove_conversation_member(conversation: &ConversationRef, user_id: &str) -> (result: Result<
    Vec<Request>,
    Error,
>)
    ensures
        match result {
            Ok(requests) => removal_outcome(*conversation, user_id@) == Ok::<
                Seq<RequestView>,
                ErrorView,
            >(request::calls(requests@)),
            Err(e) => removal_outcome(*conversation, user_id@) == Err::<
                Seq<RequestView>,
                ErrorView,
            >(e@),
        },
{
    let ban = ban_conversation_member(conversation, user_id, None, false, 0)?;
    let unban = unban_conversation_member(conversation, user_id)?;
    let mut requests: Vec<Request> = Vec::new();
    requests.push(ban);
    requests.push(unban);
    assert(request::calls(requests@) =~= seq![ban@, unban@]);
    Ok(requests)
}

/// The call that answers a request to join.
pub open spec fn join_answer_outcome(
    approve: bool,
    conversation: ConversationRef,
    user_id: Seq<char>,
) -> Result<RequestView, ErrorView> {
    request::requested(
        if approve {
            "approveChatJoinRequest"@
        } else {
            "declineChatJoinRequest"@
        },
        member_payload(conversation, user_id),
    )
}

/// The call that answers a request to join.
pub fn telegram_answer_join_request(approve: bool, conversation: &ConversationRef, user_id: &str) -> (result:
    Result<Request, Error>)
    ensures
        error::shown(result) == join_answer_outcome(approve, *conversation, user_id@),
{
    let payload = write_member_payload(conversation, user_id)?;
    let method: &str = if approve {
        "approveChatJoinRequest"
    } else {
        "declineChatJoinRequest"
    };
    Ok(make_call(method, payload))
}

/// The call with which the bot leaves.
pub fn leave_conversation(conversation: &ConversationRef) -> (result: Result<Request, Error>)
    ensures
        error::shown(result) == request::requested(
            "leaveChat"@,
            address::conversation_payload(*conversation),
        ),
{
    let payload = telegram_conversation_payload(conversation)?;
    Ok(make_call("leaveChat", payload))
}

// ---------------------------------------------------------------------------
// Invite links
// ---------------------------------------------------------------------------

/// The call that makes or changes an invite link: what addresses it, then what
/// the options say, then their native members, none of them said twice.
pub open spec fn invite_request(
    place: Map<Seq<char>, JsonView>,
    own: Map<Seq<char>, JsonView>,
    options: InviteLinkOptions,
    editing: bool,
) -> Result<RequestView, ErrorView> {
    let (method, own) = invite::invite_call(
        invite::invite_fields(own, options),
        options,
        editing,
    );
    match address::with_members(place, own) {
        Err(e) => Err(e),
        Ok(payload) => request::requested(
            method,
            native::optional_native_merged(payload, options.platform_data, "invite options"@),
        ),
    }
}

fn make_invite_request(
    place: Fields,
    own: Fields,
    options: &InviteLinkOptions,
    editing: bool,
) -> (result: Result<Request, Error>)
    ensures
        error::shown(result) == invite_request(
            json::fields(place),
            json::fields(own),
            *options,
            editing,
        ),
{
    let own = add_invite_options(own, options);
    let (method, own) = add_subscription_invite_options(own, options, editing);
    let payload = add_members(place, &own)?;
    let payload = merge_optional_native(payload, &options.platform_data, "invite options")?;
    Ok(make_call(method, payload))
}

/// The parameter that names an invite link.
pub open spec fn link_members(invite: InviteLink) -> Map<Seq<char>, JsonView> {
    json::no_fields().insert("invite_link"@, JsonView::Text(invite.url@))
}

fn write_link_members(link: &InviteLink) -> (own: Fields)
    ensures
        json::fields(own) == link_members(*link),
{
    let mut own = Fields::none();
    own.put("invite_link", Json::text(link.url.as_str()));
    own
}

/// The call that makes an invite link.
pub open spec fn create_invite_outcome(
    conversation: ConversationRef,
    options: InviteLinkOptions,
) -> Result<RequestView, ErrorView> {
    match invite::invite_rule(options) {
        Err(e) => Err(e),
        Ok(_) => match address::conversation_payload(conversation) {
            Err(e) => Err(e),
            Ok(place) => invite_request(place, json::no_fields(), options, false),
        },
    }
}

/// The call that makes an invite link.
pub fn create_invite_link(conversation: &ConversationRef, options: &InviteLinkOptions) -> (result:
    Result<Request, Error>)
    ensures
        error::shown(result) == create_invite_outcome(*conversation, *options),
{
    validate_invite_options(options)?;
    let place = telegram_conversation_payload(conversation)?;
    make_invite_request(place, Fields::none(), options, false)
}

/// The call that changes an invite link.
pub open spec fn edit_invite_outcome(invite: InviteLink, options: InviteLinkOptions) -> Result<
    RequestView,
    ErrorView,
> {
    match invite::invite_rule(options) {
        Err(e) => Err(e),
        Ok(_) => match address::conversation_payload(invite.conversation) {
            Err(e) => Err(e),
            Ok(place) => invite_request(place, link_members(invite), options, true),
        },
    }
}

/// The call that changes an invite link.
pub fn edit_invite_link(link: &InviteLink, options: &InviteLinkOptions) -> (result: Result<
    Request,
    Error,
>)
    ensures
        error::shown(result) == edit_invite_outcome(*link, *options),
{
    validate_invite_options(options)?;
    let place = telegram_conversation_payload(&link.conversation)?;
    make_invite_request(place, write_link_members(link), options, true)
}

/// The call that revokes an invite link.
pub open spec fn revoke_invite_outcome(invite: InviteLink) -> Result<RequestView, ErrorView> {
    match address::conversation_payload(invite.conversation) {
        Err(e) => Err(e),
        Ok(place) => request::requested(
            "revokeChatInviteLink"@,
            address::with_members(place, link_members(invite)),
        ),
    }
}

/// The call that revokes an invite link.
pub fn revoke_invite_link(link: &InviteLink) -> (result: Result<Request, Error>)
    ensures
        error::shown(result) == revoke_invite_outcome(*link),
{
    let place = telegram_conversation_payload(&link.conversation)?;
    let payload = add_members(place, &write_link_members(link))?;
    Ok(make_call("revokeChatInviteLink", payload))
}

// ---------------------------------------------------------------------------
// Groups by their id
// ---------------------------------------------------------------------------

/// The parameters that address a group by its id.
pub open spec fn group_payload(group_id: Seq<char>) -> Map<Seq<char>, JsonView> {
    json::no_fields().insert("chat_id"@, address::chat_id_view(group_id))
}

fn write_group_payload(group_id: &str) -> (payload: Fields)
    ensures
        json::fields(payload) == group_payload(group_id@),
{
    let mut payload = Fields::none();
    payload.put("chat_id", chat_id_value(group_id));
    payload
}

/// The call that asks for the administrators of a group, bots among them.
pub fn get_group_member_list(group_id: &str) -> (result: Request)
    ensures
        result@ == request::call(
            "getChatAdministrators"@,
            group_payload(group_id@).insert("return_bots"@, JsonView::Bool(true)),
        ),
{
    let mut payload = write_group_payload(group_id);
    payload.put("return_bots", Json::bool(true));
    make_call("getChatAdministrators", payload)
}

/// The user is the administrator.
pub open spec fn reads_administrator(user: User, member: ChatMember) -> bool {
    &&& utils::is_user(
        User { group_info: None, ..user },
        member.user.id as int,
        Some(utils::user_name(member.user)),
    )
    &&& user.group_info matches Some(info)
    &&& info.alias == member.custom_title
    &&& info.role == Some(
        if member.status@ == "creator"@ {
            Role::Owner
        } else {
            Role::Admin
        },
    )
    &&& info.join_time is None
    &&& info.last_active_time is None
    &&& info.level is None
}

fn read_administrator(member: ChatMember) -> (user: User)
    ensures
        reads_administrator(user, member),
{
    let found = parse_user(&member.user);
    let role = if same(member.status.as_str(), "creator") {
        Role::Owner
    } else {
        Role::Admin
    };
    User {
        id: found.id,
        profile: found.profile,
        group_info: Some(
            UserGroupInfo {
                alias: member.custom_title,
                role: Some(role),
                join_time: None,
                last_active_time: None,
                level: None,
            },
        ),
    }
}

/// Reads the administrators that Telegram sent.
pub fn read_group_members(members: Vec<ChatMember>) -> (users: Vec<User>)
    ensures
        users@.len() == members@.len(),
        forall|i: int|
            0 <= i < users@.len() ==> reads_administrator(#[trigger] users@[i], members@[i]),
{
    let mut users: Vec<User> = Vec::new();
    for member in iter: members
        invariant
            users@.len() == iter.index(),
            iter.seq() == members@,
            forall|i: int|
                0 <= i < users@.len() ==> reads_administrator(#[trigger] users@[i], members@[i]),
    {
        users.push(read_administrator(member));
    }
    users
}

/// The calls that take a member out of a group: a ban, and where the member
/// may come back, the end of the ban.
pub open spec fn kick_outcome(group_id: Seq<char>, user_id: Seq<char>, reject: Option<bool>) -> Result<
    Seq<RequestView>,
    ErrorView,
> {
    match with_user(Ok(group_payload(group_id)), user_id) {
        Err(e) => Err(e),
        Ok(payload) => {
            let ban = request::call(
                "banChatMember"@,
                payload.insert("revoke_messages"@, JsonView::Bool(true)),
            );
            Ok(
                if reject == Some(false) {
                    seq![
                        ban,
                        request::call(
                            "unbanChatMember"@,
                            payload.insert("only_if_banned"@, JsonView::Bool(true)),
                        ),
                    ]
                } else {
                    seq![ban]
                },
            )
        },
    }
}

/// The calls that take a member out of a group.
pub fn kick_group_member(group_id: &str, user_id: &str, reject_add_request: Option<bool>) -> (result:
    Result<Vec<Request>, Error>)
    ensures
        shown_calls(result) == kick_outcome(group_id@, user_id@, reject_add_request),
{
    let user = read_user_id(user_id)?;
    let mut requests: Vec<Request> = Vec::new();
    let mut payload = write_group_payload(group_id);
    payload.put("user_id", Json::integer(user));
    payload.put("revoke_messages", Json::bool(true));
    requests.push(make_call("banChatMember", payload));
    let may_return = match reject_add_request {
        Some(reject) => !reject,
        None => false,
    };
    if may_return {
        let mut payload = write_group_payload(group_id);
        payload.put("user_id", Json::integer(user));
        payload.put("only_if_banned", Json::bool(true));
        requests.push(make_call("unbanChatMember", payload));
    }
    proof {
        let expected = kick_outcome(group_id@, user_id@, reject_add_request)->Ok_0;
        assert(request::calls(requests@) =~= expected);
    }
    Ok(requests)
}

/// Whether members are muted or may speak again.
#[derive(Debug, Clone, Copy, PartialEq, Eq, Structural)]
pub enum GroupMuteType {
    Mute,
    Unmute,
}

/// The parameters that mute, or let speak again.
pub open spec fn muting(payload: Map<Seq<char>, JsonView>, mute: GroupMuteType) -> Map<
    Seq<char>,
    JsonView,
> {
    payload.insert(
        "permissions"@,
        permissions::mute_permissions(mute == GroupMuteType::Unmute),
    ).insert("use_independent_chat_permissions"@, JsonView::Bool(true))
}

fn write_muting(payload: Fields, mute: GroupMuteType) -> (result: Fields)
    ensures
        json::fields(result) == muting(json::fields(payload), mute),
{
    let allow = match mute {
        GroupMuteType::Unmute => true,
        GroupMuteType::Mute => false,
    };
    let mut payload = payload;
    payload.put("permissions", chat_permissions(allow));
    payload.put("use_independent_chat_permissions", Json::bool(true));
    payload
}

/// The call that mutes a whole group, or lets it speak again.
pub open spec fn mute_group_outcome(
    group_id: Seq<char>,
    duration: Option<Duration>,
    mute: GroupMuteType,
) -> Result<RequestView, ErrorView> {
    if duration is Some {
        error::refused(
            "Telegram does not support expiring chat-wide permissions; mute members individually for a temporary mute"@,
        )
    } else {
        Ok(request::call("setChatPermissions"@, muting(group_payload(group_id), mute)))
    }
}

/// The call that mutes a whole group, or lets it speak again.
pub fn mute_group(group_id: &str, duration: Option<Duration>, mute: GroupMuteType) -> (result: Result<
    Request,
    Error,
>)
    ensures
        error::shown(result) == mute_group_outcome(group_id@, duration, mute),
{
    if duration.is_some() {
        return Err(
            message(
                "Telegram does not support expiring chat-wide permissions; mute members individually for a temporary mute",
            ),
        );
    }
    let payload = write_muting(write_group_payload(group_id), mute);
    Ok(make_call("setChatPermissions", payload))
}

/// The call that mutes a member of a group, or lets them speak again.
pub open spec fn mute_member_outcome(
    group_id: Seq<char>,
    user_id: Seq<char>,
    mute: GroupMuteType,
    duration: Option<Duration>,
    now: i64,
) -> Result<RequestView, ErrorView> {
    let until = if mute == GroupMuteType::Unmute {
        Ok(None)
    } else {
        until_outcome(duration, now, "mute duration is too large"@)
    };
    match until {
        Err(e) => Err(e),
        Ok(until) => match with_user(Ok(group_payload(group_id)), user_id) {
            Err(e) => Err(e),
            Ok(payload) => Ok(
                request::call(
                    "restrictChatMember"@,
                    muting(payload, mute).insert(
                        "until_date"@,
                        match until {
                            Some(time) => JsonView::Integer(time),
                            None => JsonView::Null,
                        },
                    ),
                ),
            ),
        },
    }
}

/// The call that mutes a member of a group, or lets them speak again; `now` is
/// the time in seconds since the epoch.
pub fn mute_group_member(
    group_id: &str,
    user_id: &str,
    mute: GroupMuteType,
    duration: Option<Duration>,
    now: i64,
) -> (result: Result<Request, Error>)
    ensures
        error::shown(result) == mute_member_outcome(group_id@, user_id@, mute, duration, now),
{
    let until: Option<i64> = match mute {
        GroupMuteType::Unmute => None,
        GroupMuteType::Mute => find_until(duration, now, "mute duration is too large")?,
    };
    let user = read_user_id(user_id)?;
    let mut payload = write_group_payload(group_id);
    payload.put("user_id", Json::integer(user));
    let mut payload = write_muting(payload, mute);
    payload.put("until_date", Json::optional_integer(until));
    Ok(make_call("restrictChatMember", payload))
}

/// The rights of an administrator who may only look after the chat, or of a
/// member who is none.
pub open spec fn plain_rights(payload: Map<Seq<char>, JsonView>, promote: bool) -> Map<
    Seq<char>,
    JsonView,
> {
    payload.insert("can_manage_chat"@, JsonView::Bool(promote)).insert(
        "can_change_info"@,
        JsonView::Bool(false),
    ).insert("can_post_messages"@, JsonView::Bool(false)).insert(
        "can_edit_messages"@,
        JsonView::Bool(false),
    ).insert("can_delete_messages"@, JsonView::Bool(false)).insert(
        "can_invite_users"@,
        JsonView::Bool(false),
    ).insert("can_restrict_members"@, JsonView::Bool(false)).insert(
        "can_pin_messages"@,
        JsonView::Bool(false),
    ).insert("can_manage_topics"@, JsonView::Bool(false)).insert(
        "can_promote_members"@,
        JsonView::Bool(false),
    ).insert("can_manage_video_chats"@, JsonView::Bool(false)).insert(
        "can_post_stories"@,
        JsonView::Bool(false),
    ).insert("can_edit_stories"@, JsonView::Bool(false)).insert(
        "can_delete_stories"@,
        JsonView::Bool(false),
    ).insert("can_manage_direct_messages"@, JsonView::Bool(false)).insert(
        "can_manage_tags"@,
        JsonView::Bool(false),
    )
}

/// The call that makes a member an administrator, or no longer one.
pub open spec fn change_admin_outcome(group_id: Seq<char>, user_id: Seq<char>, promote: bool) -> Result<
    RequestView,
    ErrorView,
> {
    match with_user(Ok(group_payload(group_id)), user_id) {
        Err(e) => Err(e),
        Ok(payload) => Ok(request::call("promoteChatMember"@, plain_rights(payload, promote))),
    }
}

/// The call that makes a member an administrator, or no longer one.
pub fn change_group_admin(group_id: &str, user_id: &str, promote: bool) -> (result: Result<
    Request,
    Error,
>)
    ensures
        error::shown(result) == change_admin_outcome(group_id@, user_id@, promote),
{
    let user = read_user_id(user_id)?;
    let mut payload = write_group_payload(group_id);
    payload.put("user_id", Json::integer(user));
    payload.put("can_manage_chat", Json::bool(promote));
    payload.put("can_change_info", Json::bool(false));
    payload.put("can_post_messages", Json::bool(false));
    payload.put("can_edit_messages", Json::bool(false));
    payload.put("can_delete_messages", Json::bool(false));
    payload.put("can_invite_users", Json::bool(false));
    payload.put("can_restrict_members", Json::bool(false));
    payload.put("can_pin_messages", Json::bool(false));
    payload.put("can_manage_topics", Json::bool(false));
    payload.put("can_promote_members", Json::bool(false));
    payload.put("can_manage_video_chats", Json::bool(false));
    payload.put("can_post_stories", Json::bool(false));
    payload.put("can_edit_stories", Json::bool(false));
    payload.put("can_delete_stories", Json::bool(false));
    payload.put("can_manage_direct_messages", Json::bool(false));
    payload.put("can_manage_tags", Json::bool(false));
    Ok(make_call("promoteChatMember", payload))
}

/// The call that gives an administrator a title.
pub open spec fn alias_outcome(group_id: Seq<char>, user_id: Seq<char>, alias: Seq<char>) -> Result<
    RequestView,
    ErrorView,
> {
    if alias.len() > 16 {
        error::refused("Telegram administrator custom titles are limited to 16 characters"@)
    } else {
        match with_user(Ok(group_payload(group_id)), user_id) {
            Err(e) => Err(e),
            Ok(payload) => Ok(
                request::call(
                    "setChatAdministratorCustomTitle"@,
                    payload.insert("custom_title"@, JsonView::Text(alias)),
                ),
            ),
        }
    }
}

/// The call that gives an administrator a title.
pub fn set_group_member_alias(group_id: &str, user_id: &str, new_alias: &str) -> (result: Result<
    Request,
    Error,
>)
    ensures
        error::shown(result) == alias_outcome(group_id@, user_id@, new_alias@),
{
    if new_alias.unicode_len() > 16 {
        return Err(message("Telegram administrator custom titles are limited to 16 characters"));
    }
    let user = read_user_id(user_id)?;
    let mut payload = write_group_payload(group_id);
    payload.put("user_id", Json::integer(user));
    payload.put("custom_title", Json::text(new_alias));
    Ok(make_call("setChatAdministratorCustomTitle", payload))
}

/// The call that answers a request to join by the id of the request.
pub open spec fn add_request_outcome(id: Seq<char>, approve: bool) -> Result<
    RequestView,
    ErrorView,
> {
    match utils::split_join_request_id_outcome(id) {
        Err(e) => Err(e),
        Ok((chat, user)) => Ok(
            request::call(
                if approve {
                    "approveChatJoinRequest"@
                } else {
                    "declineChatJoinRequest"@
                },
                json::no_fields().insert("chat_id"@, JsonView::Integer(chat as int)).insert(
                    "user_id"@,
                    JsonView::Integer(user as int),
                ),
            ),
        ),
    }
}

/// The call that answers a request to join by the id of the request.
pub fn handle_add_group_request(id: &str, approve: bool) -> (result: Result<Request, Error>)
    ensures
        error::shown(result) == add_request_outcome(id@, approve),
{
    let (chat, user) = split_join_request_id(id)?;
    let mut payload = Fields::none();
    payload.put("chat_id", Json::integer(chat));
    payload.put("user_id", Json::integer(user));
    let method: &str = if approve {
        "approveChatJoinRequest"
    } else {
        "declineChatJoinRequest"
    };
    Ok(make_call(method, payload))
}

/// Muting and letting speak again never let a member manage the group.
pub proof fn law_muting_grants_no_management(payload: Map<Seq<char>, JsonView>, mute: GroupMuteType)
    ensures
        ({
            let granted = muting(payload, mute)["permissions"@]->Object_0;
            &&& granted["can_change_info"@] == JsonView::Bool(false)
            &&& granted["can_invite_users"@] == JsonView::Bool(false)
            &&& granted["can_pin_messages"@] == JsonView::Bool(false)
            &&& granted["can_manage_topics"@] == JsonView::Bool(false)
            &&& granted["can_edit_tag"@] == JsonView::Bool(false)
        }),
{
    reveal_strlit("permissions");
    reveal_strlit("use_independent_chat_permissions");
    assert("permissions"@.len() != "use_independent_chat_permissions"@.len());
    reveal_strlit("can_change_info");
    reveal_strlit("can_invite_users");
    reveal_strlit("can_pin_messages");
    reveal_strlit("can_manage_topics");
    reveal_strlit("can_edit_tag");
    assert("can_change_info"@.len() == 15 && "can_invite_users"@.len() == 16
        && "can_pin_messages"@.len() == 16 && "can_manage_topics"@.len() == 17
        && "can_edit_tag"@.len() == 12);
    assert("can_invite_users"@[4] != "can_pin_messages"@[4]);
}

// ---------------------------------------------------------------------------
// Laws
// ---------------------------------------------------------------------------

proof fn lemma_parameter_names()
    ensures
        "chat_id"@.len() == 7,
        "user_id"@.len() == 7,
        "permissions"@.len() == 11,
        "use_independent_chat_permissions"@.len() == 32,
        "until_date"@.len() == 10,
        "revoke_messages"@.len() == 15,
        "only_if_banned"@.len() == 14,
        "tag"@.len() == 3,
        "custom_title"@.len() == 12,
        "return_bots"@.len() == 11,
        "invite_link"@.len() == 11,
        "can_manage_chat"@.len() == 15,
        "chat_id"@ != "user_id"@,
        "permissions"@ != "return_bots"@,
        "permissions"@ != "invite_link"@,
        "revoke_messages"@ != "can_manage_chat"@,
        "return_bots"@ != "invite_link"@,
{
    reveal_strlit("chat_id");
    reveal_strlit("user_id");
    reveal_strlit("permissions");
    reveal_strlit("use_independent_chat_permissions");
    reveal_strlit("until_date");
    reveal_strlit("revoke_messages");
    reveal_strlit("only_if_banned");
    reveal_strlit("tag");
    reveal_strlit("custom_title");
    reveal_strlit("return_bots");
    reveal_strlit("invite_link");
    reveal_strlit("can_manage_chat");
    assert("chat_id"@[0] != "user_id"@[0]);
    assert("permissions"@[0] != "return_bots"@[0]);
    assert("permissions"@[0] != "invite_link"@[0]);
    assert("revoke_messages"@[0] != "can_manage_chat"@[0]);
    assert("return_bots"@[0] != "invite_link"@[0]);
}

proof fn lemma_permission_names()
    ensures
        "can_send_messages"@.len() == 17,
        "can_send_audios"@.len() == 15,
        "can_send_documents"@.len() == 18,
        "can_send_photos"@.len() == 15,
        "can_send_videos"@.len() == 15,
        "can_send_video_notes"@.len() == 20,
        "can_send_voice_notes"@.len() == 20,
        "can_send_polls"@.len() == 14,
        "can_send_other_messages"@.len() == 23,
        "can_add_web_page_previews"@.len() == 25,
        "can_react_to_messages"@.len() == 21,
        "can_change_info"@.len() == 15,
        "can_invite_users"@.len() == 16,
        "can_pin_messages"@.len() == 16,
        "can_manage_topics"@.len() == 17,
        "can_edit_tag"@.len() == 12,
        "can_send_messages"@ != "can_manage_topics"@,
        "can_send_audios"@ != "can_send_photos"@,
        "can_send_audios"@ != "can_send_videos"@,
        "can_send_audios"@ != "can_change_info"@,
        "can_send_photos"@ != "can_send_videos"@,
        "can_send_photos"@ != "can_change_info"@,
        "can_send_videos"@ != "can_change_info"@,
        "can_send_video_notes"@ != "can_send_voice_notes"@,
        "can_invite_users"@ != "can_pin_messages"@,
{
    reveal_strlit("can_send_messages");
    reveal_strlit("can_send_audios");
    reveal_strlit("can_send_documents");
    reveal_strlit("can_send_photos");
    reveal_strlit("can_send_videos");
    reveal_strlit("can_send_video_notes");
    reveal_strlit("can_send_voice_notes");
    reveal_strlit("can_send_polls");
    reveal_strlit("can_send_other_messages");
    reveal_strlit("can_add_web_page_previews");
    reveal_strlit("can_react_to_messages");
    reveal_strlit("can_change_info");
    reveal_strlit("can_invite_users");
    reveal_strlit("can_pin_messages");
    reveal_strlit("can_manage_topics");
    reveal_strlit("can_edit_tag");
    assert("can_send_messages"@[4] != "can_manage_topics"@[4]);
    assert("can_send_audios"@[9] != "can_send_photos"@[9]);
    assert("can_send_audios"@[9] != "can_send_videos"@[9]);
    assert("can_send_audios"@[4] != "can_change_info"@[4]);
    assert("can_send_photos"@[9] != "can_send_videos"@[9]);
    assert("can_send_photos"@[4] != "can_change_info"@[4]);
    assert("can_send_videos"@[4] != "can_change_info"@[4]);
    assert("can_send_video_notes"@[10] != "can_send_voice_notes"@[10]);
    assert("can_invite_users"@[4] != "can_pin_messages"@[4]);
}

proof fn lemma_plain_right_names()
    ensures
        "can_manage_chat"@.len() == 15,
        "can_change_info"@.len() == 15,
        "can_post_messages"@.len() == 17,
        "can_edit_messages"@.len() == 17,
        "can_delete_messages"@.len() == 19,
        "can_invite_users"@.len() == 16,
        "can_restrict_members"@.len() == 20,
        "can_pin_messages"@.len() == 16,
        "can_manage_topics"@.len() == 17,
        "can_promote_members"@.len() == 19,
        "can_manage_video_chats"@.len() == 22,
        "can_post_stories"@.len() == 16,
        "can_edit_stories"@.len() == 16,
        "can_delete_stories"@.len() == 18,
        "can_manage_direct_messages"@.len() == 26,
        "can_manage_tags"@.len() == 15,
        "chat_id"@.len() == 7,
        "user_id"@.len() == 7,
        "can_manage_chat"@ != "can_change_info"@,
        "can_manage_chat"@ != "can_manage_tags"@,
        "can_change_info"@ != "can_manage_tags"@,
        "can_post_messages"@ != "can_edit_messages"@,
        "can_post_messages"@ != "can_manage_topics"@,
        "can_edit_messages"@ != "can_manage_topics"@,
        "can_delete_messages"@ != "can_promote_members"@,
        "can_invite_users"@ != "can_pin_messages"@,
        "can_invite_users"@ != "can_post_stories"@,
        "can_invite_users"@ != "can_edit_stories"@,
        "can_pin_messages"@ != "can_post_stories"@,
        "can_pin_messages"@ != "can_edit_stories"@,
        "can_post_stories"@ != "can_edit_stories"@,
        "chat_id"@ != "user_id"@,
{
    reveal_strlit("can_manage_chat");
    reveal_strlit("can_change_info");
    reveal_strlit("can_post_messages");
    reveal_strlit("can_edit_messages");
    reveal_strlit("can_delete_messages");
    reveal_strlit("can_invite_users");
    reveal_strlit("can_restrict_members");
    reveal_strlit("can_pin_messages");
    reveal_strlit("can_manage_topics");
    reveal_strlit("can_promote_members");
    reveal_strlit("can_manage_video_chats");
    reveal_strlit("can_post_stories");
    reveal_strlit("can_edit_stories");
    reveal_strlit("can_delete_stories");
    reveal_strlit("can_manage_direct_messages");
    reveal_strlit("can_manage_tags");
    reveal_strlit("chat_id");
    reveal_strlit("user_id");
    assert("can_manage_chat"@[4] != "can_change_info"@[4]);
    assert("can_manage_chat"@[11] != "can_manage_tags"@[11]);
    assert("can_change_info"@[4] != "can_manage_tags"@[4]);
    assert("can_post_messages"@[4] != "can_edit_messages"@[4]);
    assert("can_post_messages"@[4] != "can_manage_topics"@[4]);
    assert("can_edit_messages"@[4] != "can_manage_topics"@[4]);
    assert("can_delete_messages"@[4] != "can_promote_members"@[4]);
    assert("can_invite_users"@[4] != "can_pin_messages"@[4]);
    assert("can_invite_users"@[4] != "can_post_stories"@[4]);
    assert("can_invite_users"@[4] != "can_edit_stories"@[4]);
    assert("can_pin_messages"@[5] != "can_post_stories"@[5]);
    assert("can_pin_messages"@[4] != "can_edit_stories"@[4]);
    assert("can_post_stories"@[4] != "can_edit_stories"@[4]);
    assert("chat_id"@[0] != "user_id"@[0]);
}

/// The object lets its member send everything, or nothing at all.
pub open spec fn speaks(granted: Map<Seq<char>, JsonView>, may: bool) -> bool {
    &&& json::bool_in(granted, "can_send_messages"@) == Some(may)
    &&& json::bool_in(granted, "can_send_audios"@) == Some(may)
    &&& json::bool_in(granted, "can_send_documents"@) == Some(may)
    &&& json::bool_in(granted, "can_send_photos"@) == Some(may)
    &&& json::bool_in(granted, "can_send_videos"@) == Some(may)
    &&& json::bool_in(granted, "can_send_video_notes"@) == Some(may)
    &&& json::bool_in(granted, "can_send_voice_notes"@) == Some(may)
    &&& json::bool_in(granted, "can_send_polls"@) == Some(may)
    &&& json::bool_in(granted, "can_send_other_messages"@) == Some(may)
    &&& json::bool_in(granted, "can_add_web_page_previews"@) == Some(may)
    &&& json::bool_in(granted, "can_react_to_messages"@) == Some(may)
}

proof fn lemma_speaks(may: bool)
    ensures
        permissions::mute_permissions(may) is Object,
        json::stripped(permissions::mute_permissions(may)) is Object,
        speaks(json::stripped(permissions::mute_permissions(may))->Object_0, may),
{
    lemma_permission_names();
    let written = permissions::mute_permissions(may)->Object_0;
    json::lemma_stripped_member(written, "can_send_messages"@);
    json::lemma_stripped_member(written, "can_send_audios"@);
    json::lemma_stripped_member(written, "can_send_documents"@);
    json::lemma_stripped_member(written, "can_send_photos"@);
    json::lemma_stripped_member(written, "can_send_videos"@);
    json::lemma_stripped_member(written, "can_send_video_notes"@);
    json::lemma_stripped_member(written, "can_send_voice_notes"@);
    json::lemma_stripped_member(written, "can_send_polls"@);
    json::lemma_stripped_member(written, "can_send_other_messages"@);
    json::lemma_stripped_member(written, "can_add_web_page_previews"@);
    json::lemma_stripped_member(written, "can_react_to_messages"@);
}

/// The call names the group and the user.
pub open spec fn names_member(
    payload: Map<Seq<char>, JsonView>,
    group_id: Seq<char>,
    user_id: Seq<char>,
) -> bool {
    &&& text::i64_value(group_id) matches Some(group) ==> json::i64_in(payload, "chat_id"@) == Some(
        group,
    )
    &&& text::i64_value(group_id) is None ==> json::text_in(payload, "chat_id"@) == Some(group_id)
    &&& text::i64_value(user_id) is Some
    &&& json::i64_in(payload, "user_id"@) == text::i64_value(user_id)
}

/// A member who is muted may send nothing, and one who is let speak again may
/// send everything: who is restricted by the call is muted exactly where the
/// call is one that mutes. A mute lasts as long as was asked, from now on, and
/// for good where nothing was asked; letting speak again has no end.
pub proof fn law_mutes_silence_the_member(
    group_id: Seq<char>,
    user_id: Seq<char>,
    mute: GroupMuteType,
    duration: Option<Duration>,
    now: i64,
    member: ChatMember,
)
    requires
        mute_member_outcome(group_id, user_id, mute, duration, now) is Ok,
    ensures
        ({
            let request = mute_member_outcome(group_id, user_id, mute, duration, now)->Ok_0;
            &&& request.method == "restrictChatMember"@
            &&& names_member(request.payload, group_id, user_id)
            &&& json::object_in(request.payload, "permissions"@) matches Some(granted)
            &&& speaks(granted, mute == GroupMuteType::Unmute)
            &&& member.status@ == "restricted"@ && member.can_send_messages == json::bool_in(
                granted,
                "can_send_messages"@,
            ) ==> (member.muted() <==> mute == GroupMuteType::Mute)
            &&& mute == GroupMuteType::Unmute || duration is None ==> json::member(
                request.payload,
                "until_date"@,
            ) is None
            &&& mute == GroupMuteType::Mute && duration is Some && now + duration->0.seconds
                <= i64::MAX ==> json::member(request.payload, "until_date"@) == Some(
                JsonView::Integer(now + duration->0.seconds),
            )
        }),
{
    lemma_parameter_names();
    lemma_speaks(mute == GroupMuteType::Unmute);
    let until = if mute == GroupMuteType::Unmute {
        None
    } else {
        until_outcome(duration, now, "mute duration is too large"@)->Ok_0
    };
    let payload = muting(with_user(Ok(group_payload(group_id)), user_id)->Ok_0, mute).insert(
        "until_date"@,
        match until {
            Some(time) => JsonView::Integer(time),
            None => JsonView::Null,
        },
    );
    request::lemma_call_member("restrictChatMember"@, payload, "permissions"@);
    request::lemma_call_member("restrictChatMember"@, payload, "until_date"@);
    request::lemma_call_member("restrictChatMember"@, payload, "user_id"@);
    request::lemma_call_member("restrictChatMember"@, payload, "chat_id"@);
}

/// A group that is muted may send nothing, and one that is let speak again may
/// send everything; both without an end.
pub proof fn law_mutes_silence_the_group(group_id: Seq<char>, mute: GroupMuteType)
    ensures
        mute_group_outcome(group_id, None, mute) matches Ok(request) && request.method
            == "setChatPermissions"@ && json::member(request.payload, "chat_id"@) == Some(
            match text::i64_value(group_id) {
                Some(group) => JsonView::Integer(group as int),
                None => JsonView::Text(group_id),
            },
        ) && (json::object_in(request.payload, "permissions"@) matches Some(granted) && speaks(
            granted,
            mute == GroupMuteType::Unmute,
        )),
        forall|duration: Duration| mute_group_outcome(group_id, Some(duration), mute) is Err,
{
    lemma_parameter_names();
    lemma_speaks(mute == GroupMuteType::Unmute);
    let payload = muting(group_payload(group_id), mute);
    request::lemma_call_member("setChatPermissions"@, payload, "permissions"@);
    request::lemma_call_member("setChatPermissions"@, payload, "chat_id"@);
}

/// Who is taken out of a group is banned from it, with what they wrote deleted.
/// The ban ends at once exactly where they may ask to join again, and each
/// call is about the same member of the same group.
pub proof fn law_kicks_ban_the_member(
    group_id: Seq<char>,
    user_id: Seq<char>,
    reject: Option<bool>,
)
    requires
        kick_outcome(group_id, user_id, reject) is Ok,
    ensures
        ({
            let calls = kick_outcome(group_id, user_id, reject)->Ok_0;
            &&& calls.len() == if reject == Some(false) {
                2int
            } else {
                1int
            }
            &&& calls[0].method == "banChatMember"@
            &&& names_member(calls[0].payload, group_id, user_id)
            &&& json::bool_in(calls[0].payload, "revoke_messages"@) == Some(true)
            &&& json::member(calls[0].payload, "until_date"@) is None
            &&& reject == Some(false) ==> calls[1].method == "unbanChatMember"@ && names_member(
                calls[1].payload,
                group_id,
                user_id,
            ) && json::bool_in(calls[1].payload, "only_if_banned"@) == Some(true)
        }),
{
    lemma_parameter_names();
    let payload = with_user(Ok(group_payload(group_id)), user_id)->Ok_0;
    let ban = payload.insert("revoke_messages"@, JsonView::Bool(true));
    request::lemma_call_member("banChatMember"@, ban, "chat_id"@);
    request::lemma_call_member("banChatMember"@, ban, "user_id"@);
    request::lemma_call_member("banChatMember"@, ban, "revoke_messages"@);
    request::lemma_call_member("banChatMember"@, ban, "until_date"@);
    let unban = payload.insert("only_if_banned"@, JsonView::Bool(true));
    request::lemma_call_member("unbanChatMember"@, unban, "chat_id"@);
    request::lemma_call_member("unbanChatMember"@, unban, "user_id"@);
    request::lemma_call_member("unbanChatMember"@, unban, "only_if_banned"@);
}

/// Who is made an administrator may look after the chat, and who no longer is
/// one may not; no other right is granted either way.
pub proof fn law_appointments_grant_one_right(
    group_id: Seq<char>,
    user_id: Seq<char>,
    promote: bool,
)
    requires
        change_admin_outcome(group_id, user_id, promote) is Ok,
    ensures
        ({
            let request = change_admin_outcome(group_id, user_id, promote)->Ok_0;
            &&& request.method == "promoteChatMember"@
            &&& names_member(request.payload, group_id, user_id)
            &&& json::bool_in(request.payload, "can_manage_chat"@) == Some(promote)
            &&& json::bool_in(request.payload, "can_change_info"@) == Some(false)
            &&& json::bool_in(request.payload, "can_post_messages"@) == Some(false)
            &&& json::bool_in(request.payload, "can_edit_messages"@) == Some(false)
            &&& json::bool_in(request.payload, "can_delete_messages"@) == Some(false)
            &&& json::bool_in(request.payload, "can_invite_users"@) == Some(false)
            &&& json::bool_in(request.payload, "can_restrict_members"@) == Some(false)
            &&& json::bool_in(request.payload, "can_pin_messages"@) == Some(false)
            &&& json::bool_in(request.payload, "can_manage_topics"@) == Some(false)
            &&& json::bool_in(request.payload, "can_promote_members"@) == Some(false)
            &&& json::bool_in(request.payload, "can_manage_video_chats"@) == Some(false)
            &&& json::bool_in(request.payload, "can_post_stories"@) == Some(false)
            &&& json::bool_in(request.payload, "can_edit_stories"@) == Some(false)
            &&& json::bool_in(request.payload, "can_delete_stories"@) == Some(false)
            &&& json::bool_in(request.payload, "can_manage_direct_messages"@) == Some(false)
            &&& json::bool_in(request.payload, "can_manage_tags"@) == Some(false)
        }),
{
    lemma_plain_right_names();
    let payload = plain_rights(with_user(Ok(group_payload(group_id)), user_id)->Ok_0, promote);
    request::lemma_call_member("promoteChatMember"@, payload, "can_manage_chat"@);
    request::lemma_call_member("promoteChatMember"@, payload, "can_change_info"@);
    request::lemma_call_member("promoteChatMember"@, payload, "can_post_messages"@);
    request::lemma_call_member("promoteChatMember"@, payload, "can_edit_messages"@);
    request::lemma_call_member("promoteChatMember"@, payload, "can_delete_messages"@);
    request::lemma_call_member("promoteChatMember"@, payload, "can_invite_users"@);
    request::lemma_call_member("promoteChatMember"@, payload, "can_restrict_members"@);
    request::lemma_call_member("promoteChatMember"@, payload, "can_pin_messages"@);
    request::lemma_call_member("promoteChatMember"@, payload, "can_manage_topics"@);
    request::lemma_call_member("promoteChatMember"@, payload, "can_promote_members"@);
    request::lemma_call_member("promoteChatMember"@, payload, "can_manage_video_chats"@);
    request::lemma_call_member("promoteChatMember"@, payload, "can_post_stories"@);
    request::lemma_call_member("promoteChatMember"@, payload, "can_edit_stories"@);
    request::lemma_call_member("promoteChatMember"@, payload, "can_delete_stories"@);
    request::lemma_call_member("promoteChatMember"@, payload, "can_manage_direct_messages"@);
    request::lemma_call_member("promoteChatMember"@, payload, "can_manage_tags"@);
    request::lemma_call_member("promoteChatMember"@, payload, "chat_id"@);
    request::lemma_call_member("promoteChatMember"@, payload, "user_id"@);
}

/// A title is given to the named member of the group as it was asked, and a
/// tag too.
pub proof fn law_titles_are_given(group_id: Seq<char>, user_id: Seq<char>, alias: Seq<char>)
    requires
        alias_outcome(group_id, user_id, alias) is Ok,
    ensures
        ({
            let request = alias_outcome(group_id, user_id, alias)->Ok_0;
            &&& request.method == "setChatAdministratorCustomTitle"@
            &&& names_member(request.payload, group_id, user_id)
            &&& json::text_in(request.payload, "custom_title"@) == Some(alias)
            &&& alias.len() <= 16
        }),
{
    lemma_parameter_names();
    let payload = with_user(Ok(group_payload(group_id)), user_id)->Ok_0.insert(
        "custom_title"@,
        JsonView::Text(alias),
    );
    request::lemma_call_member("setChatAdministratorCustomTitle"@, payload, "chat_id"@);
    request::lemma_call_member("setChatAdministratorCustomTitle"@, payload, "user_id"@);
    request::lemma_call_member("setChatAdministratorCustomTitle"@, payload, "custom_title"@);
}

/// A request to join is granted where it is to be and declined where not, for
/// the user and the group whose numbers its id was made of.
pub proof fn law_join_requests_are_answered(chat: i64, user: i64, approve: bool)
    ensures
        add_request_outcome(utils::join_request_id_text(chat as int, user as int), approve) matches Ok(
            request,
        ) && request.method == (if approve {
            "approveChatJoinRequest"@
        } else {
            "declineChatJoinRequest"@
        }) && json::i64_in(request.payload, "chat_id"@) == Some(chat) && json::i64_in(
            request.payload,
            "user_id"@,
        ) == Some(user),
{
    lemma_parameter_names();
    utils::law_join_request_id_round_trip(chat, user);
    let payload = json::no_fields().insert("chat_id"@, JsonView::Integer(chat as int)).insert(
        "user_id"@,
        JsonView::Integer(user as int),
    );
    request::lemma_call_member("approveChatJoinRequest"@, payload, "chat_id"@);
    request::lemma_call_member("approveChatJoinRequest"@, payload, "user_id"@);
    request::lemma_call_member("declineChatJoinRequest"@, payload, "chat_id"@);
    request::lemma_call_member("declineChatJoinRequest"@, payload, "user_id"@);
}

/// What addresses a member of a conversation names that conversation and that
/// member.
pub open spec fn names_member_of(
    payload: Map<Seq<char>, JsonView>,
    conversation: ConversationRef,
    user_id: Seq<char>,
) -> bool {
    &&& conversation.parent is None ==> json::member(payload, "chat_id"@) == Some(
        match text::i64_value(conversation.id@) {
            Some(number) => JsonView::Integer(number as int),
            None => JsonView::Text(conversation.id@),
        },
    )
    &&& text::i64_value(user_id) is Some
    &&& json::i64_in(payload, "user_id"@) == text::i64_value(user_id)
}

proof fn lemma_member_named(conversation: ConversationRef, user_id: Seq<char>)
    requires
        member_payload(conversation, user_id) is Ok,
    ensures
        names_member_of(member_payload(conversation, user_id)->Ok_0, conversation, user_id),
        json::member(member_payload(conversation, user_id)->Ok_0, "chat_id"@) is Some,
        !(json::member(member_payload(conversation, user_id)->Ok_0, "chat_id"@)->0 is Object),
        !(json::member(member_payload(conversation, user_id)->Ok_0, "chat_id"@)->0 is Array),
        !(json::member(member_payload(conversation, user_id)->Ok_0, "chat_id"@)->0 is Null),
{
    lemma_parameter_names();
    let place = address::conversation_payload(conversation)->Ok_0;
    let own = json::no_fields().insert(
        "user_id"@,
        JsonView::Integer(text::i64_value(user_id)->0 as int),
    );
    address::law_conversations_are_addressed(conversation);
    address::lemma_chat_is_named(conversation);
    address::lemma_members_kept(place, own, "chat_id"@);
    address::lemma_members_kept(place, own, "user_id"@);
}

proof fn lemma_call_names_member(
    method: Seq<char>,
    payload: Map<Seq<char>, JsonView>,
    own: Map<Seq<char>, JsonView>,
    conversation: ConversationRef,
    user_id: Seq<char>,
)
    requires
        member_payload(conversation, user_id) == Ok::<Map<Seq<char>, JsonView>, ErrorView>(payload),
        address::with_members(payload, own) is Ok,
    ensures
        names_member_of(
            request::call(method, address::with_members(payload, own)->Ok_0).payload,
            conversation,
            user_id,
        ),
{
    lemma_member_named(conversation, user_id);
    let all = address::with_members(payload, own)->Ok_0;
    address::lemma_members_kept(payload, own, "chat_id"@);
    address::lemma_members_kept(payload, own, "user_id"@);
    request::lemma_call_member(method, all, "chat_id"@);
    request::lemma_call_member(method, all, "user_id"@);
}

/// A ban is one of the member of the conversation; it deletes what the member
/// wrote where that was asked, and lasts as long as was asked, from now on.
pub proof fn law_bans_are_as_asked(
    conversation: ConversationRef,
    user_id: Seq<char>,
    duration: Option<Duration>,
    delete_history: bool,
    now: i64,
)
    requires
        ban_outcome(conversation, user_id, duration, delete_history, now) is Ok,
    ensures
        ({
            let request = ban_outcome(conversation, user_id, duration, delete_history, now)->Ok_0;
            &&& request.method == "banChatMember"@
            &&& names_member_of(request.payload, conversation, user_id)
            &&& json::bool_in(request.payload, "revoke_messages"@) == Some(delete_history)
            &&& duration matches Some(span) ==> (now + span.seconds <= i64::MAX ==> json::member(
                request.payload,
                "until_date"@,
            ) == Some(JsonView::Integer(now + span.seconds)))
        }),
{
    lemma_parameter_names();
    let payload = member_payload(conversation, user_id)->Ok_0;
    let until = until_outcome(duration, now, "ban duration is too large"@)->Ok_0;
    let flag = json::no_fields().insert("revoke_messages"@, JsonView::Bool(delete_history));
    let own = match until {
        Some(time) => flag.insert("until_date"@, JsonView::Integer(time)),
        None => flag,
    };
    let all = address::with_members(payload, own)->Ok_0;
    lemma_call_names_member("banChatMember"@, payload, own, conversation, user_id);
    address::lemma_members_kept(payload, own, "revoke_messages"@);
    address::lemma_members_kept(payload, own, "until_date"@);
    request::lemma_call_member("banChatMember"@, all, "revoke_messages"@);
    request::lemma_call_member("banChatMember"@, all, "until_date"@);
}

/// A ban is lifted by a call of its own, which does nothing to who is not
/// banned. Who is removed is banned first and let in again after that.
pub proof fn law_removals_end_the_ban(conversation: ConversationRef, user_id: Seq<char>)
    ensures
        unban_outcome(conversation, user_id) matches Ok(request) ==> request.method
            == "unbanChatMember"@ && names_member_of(request.payload, conversation, user_id)
            && json::bool_in(request.payload, "only_if_banned"@) == Some(true),
        removal_outcome(conversation, user_id) matches Ok(calls) ==> calls.len() == 2
            && calls[0].method == "banChatMember"@ && calls[1].method == "unbanChatMember"@
            && names_member_of(calls[0].payload, conversation, user_id) && names_member_of(
            calls[1].payload,
            conversation,
            user_id,
        ) && json::bool_in(calls[0].payload, "revoke_messages"@) == Some(false),
{
    lemma_parameter_names();
    if unban_outcome(conversation, user_id) is Ok {
        let payload = member_payload(conversation, user_id)->Ok_0;
        let own = json::no_fields().insert("only_if_banned"@, JsonView::Bool(true));
        let all = address::with_members(payload, own)->Ok_0;
        lemma_call_names_member("unbanChatMember"@, payload, own, conversation, user_id);
        address::lemma_members_kept(payload, own, "only_if_banned"@);
        request::lemma_call_member("unbanChatMember"@, all, "only_if_banned"@);
    }
    if ban_outcome(conversation, user_id, None, false, 0) is Ok {
        law_bans_are_as_asked(conversation, user_id, None, false, 0);
    }
}

/// A request to join that is answered in its conversation is granted or
/// declined as asked, for the user who asks.
pub proof fn law_requests_are_granted_or_declined(
    conversation: ConversationRef,
    user_id: Seq<char>,
    approve: bool,
)
    requires
        join_answer_outcome(approve, conversation, user_id) is Ok,
    ensures
        ({
            let request = join_answer_outcome(approve, conversation, user_id)->Ok_0;
            &&& approve <==> request.method == "approveChatJoinRequest"@
            &&& !approve <==> request.method == "declineChatJoinRequest"@
            &&& names_member_of(request.payload, conversation, user_id)
        }),
{
    reveal_strlit("approveChatJoinRequest");
    reveal_strlit("declineChatJoinRequest");
    assert("approveChatJoinRequest"@[0] != "declineChatJoinRequest"@[0]);
    lemma_member_named(conversation, user_id);
    let payload = member_payload(conversation, user_id)->Ok_0;
    let method = join_answer_outcome(approve, conversation, user_id)->Ok_0.method;
    request::lemma_call_member(method, payload, "chat_id"@);
    request::lemma_call_member(method, payload, "user_id"@);
}

/// A member has a tag as asked, and loses it where none is asked for.
pub proof fn law_tags_are_given(
    conversation: ConversationRef,
    user_id: Seq<char>,
    tag: Option<String>,
)
    requires
        member_tag_outcome(conversation, user_id, tag) is Ok,
    ensures
        ({
            let request = member_tag_outcome(conversation, user_id, tag)->Ok_0;
            &&& request.method == "setChatMemberTag"@
            &&& names_member_of(request.payload, conversation, user_id)
            &&& json::text_in(request.payload, "tag"@) == json::optional_chars(tag)
        }),
{
    lemma_parameter_names();
    let payload = member_payload(conversation, user_id)->Ok_0;
    let own = json::no_fields().insert("tag"@, json::optional_text_view(tag));
    let all = address::with_members(payload, own)->Ok_0;
    lemma_call_names_member("setChatMemberTag"@, payload, own, conversation, user_id);
    address::lemma_members_kept(payload, own, "tag"@);
    request::lemma_call_member("setChatMemberTag"@, all, "tag"@);
}

/// A member who is to have a right that only administrators have is promoted,
/// by one call. Anyone else loses such rights first and is then restricted to
/// what they may do.
pub proof fn law_permissions_promote_or_restrict(
    conversation: ConversationRef,
    user_id: Seq<char>,
    allow: Set<PermissionView>,
)
    requires
        member_permissions_outcome(conversation, user_id, allow) is Ok,
    ensures
        ({
            let calls = member_permissions_outcome(conversation, user_id, allow)->Ok_0;
            let manages = allow.contains(PermissionView::RemoveMembers) || allow.contains(
                PermissionView::BanMembers,
            ) || allow.contains(PermissionView::ManageMessages) || allow.contains(
                PermissionView::ManageThreads,
            ) || allow.contains(PermissionView::ManageProfile) || allow.contains(
                PermissionView::ManageInvites,
            ) || allow.contains(PermissionView::ManageRoles) || allow.contains(
                PermissionView::ManageTags,
            ) || allow.contains(PermissionView::ManageCalls);
            &&& calls.len() == if manages {
                1int
            } else {
                2int
            }
            &&& calls[0].method == "promoteChatMember"@
            &&& names_member_of(calls[0].payload, conversation, user_id)
            &&& json::bool_in(calls[0].payload, "can_manage_chat"@) == Some(manages)
            &&& !manages ==> {
                &&& calls[1].method == "restrictChatMember"@
                &&& names_member_of(calls[1].payload, conversation, user_id)
                &&& json::object_in(calls[1].payload, "permissions"@) matches Some(granted)
                &&& json::bool_in(granted, "can_send_messages"@) == Some(
                    allow.contains(PermissionView::SendMessages),
                )
                &&& json::bool_in(granted, "can_send_photos"@) == Some(
                    allow.contains(PermissionView::SendMedia),
                )
                &&& json::bool_in(granted, "can_send_polls"@) == Some(
                    allow.contains(PermissionView::SendPolls),
                )
                &&& json::bool_in(granted, "can_pin_messages"@) == Some(
                    allow.contains(PermissionView::PinMessages),
                )
                &&& json::bool_in(granted, "can_invite_users"@) == Some(
                    allow.contains(PermissionView::AddMembers),
                )
            }
        }),
{
    lemma_parameter_names();
    let payload = member_payload(conversation, user_id)->Ok_0;
    let none = Set::<PermissionView>::empty();
    permissions::law_promotions_are_written_by_name(json::no_fields(), allow);
    permissions::law_promotions_are_written_by_name(json::no_fields(), none);
    permissions::lemma_allows_admin(allow);
    if permissions::allows_admin(allow) {
        let own = permissions::administrator_view(json::no_fields(), allow);
        lemma_call_names_member("promoteChatMember"@, payload, own, conversation, user_id);
        address::lemma_members_kept(payload, own, "can_manage_chat"@);
        let all = address::with_members(payload, own)->Ok_0;
        request::lemma_call_member("promoteChatMember"@, all, "can_manage_chat"@);
    } else {
        let own = permissions::administrator_view(json::no_fields(), none);
        lemma_call_names_member("promoteChatMember"@, payload, own, conversation, user_id);
        address::lemma_members_kept(payload, own, "can_manage_chat"@);
        let all = address::with_members(payload, own)->Ok_0;
        request::lemma_call_member("promoteChatMember"@, all, "can_manage_chat"@);
        let limits = restriction(json::no_fields(), allow);
        lemma_call_names_member("restrictChatMember"@, payload, limits, conversation, user_id);
        let place = address::with_members(payload, limits)->Ok_0;
        address::lemma_members_kept(payload, limits, "permissions"@);
        request::lemma_call_member("restrictChatMember"@, place, "permissions"@);
        lemma_granted(allow);
    }
}

proof fn lemma_granted(allow: Set<PermissionView>)
    ensures
        ({
            let written = permissions::chat_permissions_view(permissions::member_table(), allow);
            let granted = json::stripped(JsonView::Object(written));
            &&& granted is Object
            &&& json::bool_in(granted->Object_0, "can_send_messages"@) == Some(
                allow.contains(PermissionView::SendMessages),
            )
            &&& json::bool_in(granted->Object_0, "can_send_audios"@) == Some(
                allow.contains(PermissionView::SendMedia),
            )
            &&& json::bool_in(granted->Object_0, "can_send_documents"@) == Some(
                allow.contains(PermissionView::SendMedia),
            )
            &&& json::bool_in(granted->Object_0, "can_send_photos"@) == Some(
                allow.contains(PermissionView::SendMedia),
            )
            &&& json::bool_in(granted->Object_0, "can_send_videos"@) == Some(
                allow.contains(PermissionView::SendMedia),
            )
            &&& json::bool_in(granted->Object_0, "can_send_video_notes"@) == Some(
                allow.contains(PermissionView::SendMedia),
            )
            &&& json::bool_in(granted->Object_0, "can_send_voice_notes"@) == Some(
                allow.contains(PermissionView::SendMedia),
            )
            &&& json::bool_in(granted->Object_0, "can_send_polls"@) == Some(
                allow.contains(PermissionView::SendPolls),
            )
            &&& json::bool_in(granted->Object_0, "can_send_other_messages"@) == Some(
                allow.contains(PermissionView::SendMedia),
            )
            &&& json::bool_in(granted->Object_0, "can_add_web_page_previews"@) == Some(
                allow.contains(PermissionView::SendMedia),
            )
            &&& json::bool_in(granted->Object_0, "can_react_to_messages"@) == Some(
                allow.contains(PermissionView::SendReactions),
            )
            &&& json::bool_in(granted->Object_0, "can_edit_tag"@) == Some(
                allow.contains(PermissionView::EditOwnTag),
            )
            &&& json::bool_in(granted->Object_0, "can_change_info"@) == Some(
                allow.contains(PermissionView::ManageProfile),
            )
            &&& json::bool_in(granted->Object_0, "can_invite_users"@) == Some(
                allow.contains(PermissionView::AddMembers),
            )
            &&& json::bool_in(granted->Object_0, "can_pin_messages"@) == Some(
                allow.contains(PermissionView::PinMessages),
            )
            &&& json::bool_in(granted->Object_0, "can_manage_topics"@) == Some(
                allow.contains(PermissionView::ManageThreads),
            )
        }),
{
    let written = permissions::chat_permissions_view(permissions::member_table(), allow);
    permissions::law_permissions_are_written_by_name(allow);
    json::lemma_stripped_member(written, "can_send_messages"@);
    json::lemma_stripped_member(written, "can_send_audios"@);
    json::lemma_stripped_member(written, "can_send_documents"@);
    json::lemma_stripped_member(written, "can_send_photos"@);
    json::lemma_stripped_member(written, "can_send_videos"@);
    json::lemma_stripped_member(written, "can_send_video_notes"@);
    json::lemma_stripped_member(written, "can_send_voice_notes"@);
    json::lemma_stripped_member(written, "can_send_polls"@);
    json::lemma_stripped_member(written, "can_send_other_messages"@);
    json::lemma_stripped_member(written, "can_add_web_page_previews"@);
    json::lemma_stripped_member(written, "can_react_to_messages"@);
    json::lemma_stripped_member(written, "can_edit_tag"@);
    json::lemma_stripped_member(written, "can_change_info"@);
    json::lemma_stripped_member(written, "can_invite_users"@);
    json::lemma_stripped_member(written, "can_pin_messages"@);
    json::lemma_stripped_member(written, "can_manage_topics"@);
}

/// What the members of a conversation may do by default is what the set allows.
pub proof fn law_defaults_are_as_allowed(conversation: ConversationRef, allow: Set<PermissionView>)
    requires
        default_permissions_outcome(conversation, allow) is Ok,
    ensures
        ({
            let request = default_permissions_outcome(conversation, allow)->Ok_0;
            &&& request.method == "setChatPermissions"@
            &&& json::object_in(request.payload, "permissions"@) matches Some(granted)
            &&& json::bool_in(granted, "can_send_messages"@) == Some(
                allow.contains(PermissionView::SendMessages),
            )
            &&& json::bool_in(granted, "can_send_photos"@) == Some(
                allow.contains(PermissionView::SendMedia),
            )
            &&& json::bool_in(granted, "can_send_polls"@) == Some(
                allow.contains(PermissionView::SendPolls),
            )
            &&& json::bool_in(granted, "can_pin_messages"@) == Some(
                allow.contains(PermissionView::PinMessages),
            )
            &&& json::bool_in(granted, "can_invite_users"@) == Some(
                allow.contains(PermissionView::AddMembers),
            )
        }),
{
    lemma_parameter_names();
    let place = address::conversation_payload(conversation)->Ok_0;
    let limits = restriction(json::no_fields(), allow);
    let all = address::with_members(place, limits)->Ok_0;
    address::lemma_members_kept(place, limits, "permissions"@);
    request::lemma_call_member("setChatPermissions"@, all, "permissions"@);
    lemma_granted(allow);
}

/// Whom Telegram names as the creator is the owner of the group, and every
/// other administrator is one.
pub proof fn law_owners_are_creators(user: User, member: ChatMember)
    requires
        reads_administrator(user, member),
    ensures
        user.id@ == text::decimal(member.user.id as int),
        user.group_info matches Some(info) && (info.role == Some(Role::Owner) <==> member.status@
            == "creator"@) && (info.role == Some(Role::Admin) <==> member.status@ != "creator"@)
            && info.alias == member.custom_title,
{
}

/// An invite link that is changed or revoked is named by its address, and the
/// call says what the options say. A link with a price is a subscription, and
/// making one is not changing one.
pub proof fn law_links_are_as_asked(
    place: Map<Seq<char>, JsonView>,
    link: InviteLink,
    options: InviteLinkOptions,
    editing: bool,
)
    ensures
        revoke_invite_outcome(link) matches Ok(request) ==> request.method
            == "revokeChatInviteLink"@ && json::text_in(request.payload, "invite_link"@) == Some(
            link.url@,
        ),
        invite_request(
            place,
            if editing {
                link_members(link)
            } else {
                json::no_fields()
            },
            options,
            editing,
        ) matches Ok(request) ==> {
            &&& request.method == if options.subscription_price is Some {
                if editing {
                    "editChatSubscriptionInviteLink"@
                } else {
                    "createChatSubscriptionInviteLink"@
                }
            } else if editing {
                "editChatInviteLink"@
            } else {
                "createChatInviteLink"@
            }
            &&& editing ==> json::text_in(request.payload, "invite_link"@) == Some(link.url@)
            &&& options.name matches Some(name) ==> json::text_in(request.payload, "name"@) == Some(
                name@,
            )
            &&& options.expires_at matches Some(time) ==> json::i64_in(
                request.payload,
                "expire_date"@,
            ) == Some(time)
            &&& options.subscription_price matches Some(price) ==> json::i64_in(
                request.payload,
                "subscription_price"@,
            ) == Some(price.amount) && json::i64_in(request.payload, "subscription_period"@)
                == Some(2_592_000i64)
            &&& options.subscription_price is None ==> json::bool_in(
                request.payload,
                "creates_join_request"@,
            ) == Some(options.require_approval) && (options.max_uses matches Some(limit)
                ==> json::i64_in(request.payload, "member_limit"@) == Some(limit as i64))
        },
{
    lemma_link_names();
    if revoke_invite_outcome(link) is Ok {
        let around = address::conversation_payload(link.conversation)->Ok_0;
        let own = link_members(link);
        let all = address::with_members(around, own)->Ok_0;
        address::lemma_members_kept(around, own, "invite_link"@);
        request::lemma_call_member("revokeChatInviteLink"@, all, "invite_link"@);
    }
    let start = if editing {
        link_members(link)
    } else {
        json::no_fields()
    };
    if let Ok(request) = invite_request(place, start, options, editing) {
        let (method, own) = invite::invite_call(
            invite::invite_fields(start, options),
            options,
            editing,
        );
        let payload = address::with_members(place, own)->Ok_0;
        let all = native::optional_native_merged(
            payload,
            options.platform_data,
            "invite options"@,
        )->Ok_0;
        lemma_link_parameter(place, own, options, method, "invite_link"@);
        lemma_link_parameter(place, own, options, method, "name"@);
        lemma_link_parameter(place, own, options, method, "expire_date"@);
        lemma_link_parameter(place, own, options, method, "subscription_price"@);
        lemma_link_parameter(place, own, options, method, "subscription_period"@);
        lemma_link_parameter(place, own, options, method, "creates_join_request"@);
        lemma_link_parameter(place, own, options, method, "member_limit"@);
    }
}

proof fn lemma_link_parameter(
    place: Map<Seq<char>, JsonView>,
    own: Map<Seq<char>, JsonView>,
    options: InviteLinkOptions,
    method: Seq<char>,
    key: Seq<char>,
)
    requires
        address::with_members(place, own) is Ok,
        native::optional_native_merged(
            address::with_members(place, own)->Ok_0,
            options.platform_data,
            "invite options"@,
        ) is Ok,
    ensures
        ({
            let all = native::optional_native_merged(
                address::with_members(place, own)->Ok_0,
                options.platform_data,
                "invite options"@,
            )->Ok_0;
            json::member(own, key) matches Some(value) ==> (!(value is Null) ==> json::member(
                request::call(method, all).payload,
                key,
            ) == Some(json::stripped(value)))
        }),
{
    let payload = address::with_members(place, own)->Ok_0;
    let all = native::optional_native_merged(
        payload,
        options.platform_data,
        "invite options"@,
    )->Ok_0;
    address::lemma_members_kept(place, own, key);
    native::lemma_optional_keeps(payload, options.platform_data, "invite options"@, key);
    request::lemma_call_member(method, all, key);
}

proof fn lemma_link_names()
    ensures
        "invite_link"@.len() == 11,
        "name"@.len() == 4,
        "expire_date"@.len() == 11,
        "subscription_price"@.len() == 18,
        "subscription_period"@.len() == 19,
        "creates_join_request"@.len() == 20,
        "member_limit"@.len() == 12,
        "invite_link"@ != "expire_date"@,
{
    reveal_strlit("invite_link");
    reveal_strlit("name");
    reveal_strlit("expire_date");
    reveal_strlit("subscription_price");
    reveal_strlit("subscription_period");
    reveal_strlit("creates_join_request");
    reveal_strlit("member_limit");
    assert("invite_link"@[0] != "expire_date"@[0]);
}

/// Titles and tags may hold sixteen characters, for any user with a number.
pub proof fn law_titles_are_refused_only_for_cause(
    group_id: Seq<char>,
    user_id: Seq<char>,
    alias: Seq<char>,
)
    requires
        text::i64_value(user_id) is Some,
    ensures
        alias_outcome(group_id, user_id, alias) is Ok <==> alias.len() <= 16,
{
}

/// What is done with a member is what was asked for: they are looked up,
/// banned or let in again, and the bot leaves where it is to leave, each by its
/// own method and in the chat that was named.
pub proof fn law_each_call_does_what_it_says(
    conversation: &ConversationRef,
    user_id: &str,
    duration: Option<Duration>,
    delete_history: bool,
    now: i64,
    asking: Result<Request, Error>,
    banning: Result<Request, Error>,
    unbanning: Result<Request, Error>,
    leaving: Result<Request, Error>,
)
    requires
        call_ensures(get_conversation_member, (conversation, user_id), asking),
        call_ensures(
            ban_conversation_member,
            (conversation, user_id, duration, delete_history, now),
            banning,
        ),
        call_ensures(unban_conversation_member, (conversation, user_id), unbanning),
        call_ensures(leave_conversation, (conversation,), leaving),
    ensures
        asking matches Ok(call) ==> call@.method == "getChatMember"@ && names_member_of(
            call@.payload,
            *conversation,
            user_id@,
        ),
        banning matches Ok(call) ==> call@.method == "banChatMember"@,
        unbanning matches Ok(call) ==> call@.method == "unbanChatMember"@,
        leaving matches Ok(call) ==> call@.method == "leaveChat"@ && json::member(
            call@.payload,
            "chat_id"@,
        ) == Some(
            match text::i64_value(address::root(*conversation).id@) {
                Some(id) => JsonView::Integer(id as int),
                None => JsonView::Text(address::root(*conversation).id@),
            },
        ),
{
    if leaving is Ok {
        let place = address::conversation_payload(*conversation)->Ok_0;
        address::lemma_chat_is_named(*conversation);
        request::lemma_call_member("leaveChat"@, place, "chat_id"@);
    }
    if asking is Ok {
        lemma_parameter_names();
        let payload = member_payload(*conversation, user_id@)->Ok_0;
        let none = json::no_fields();
        assert(address::with_members(payload, none) == Ok::<
            Map<Seq<char>, JsonView>,
            ErrorView,
        >(payload)) by {
            assert forall|key: Seq<char>| !#[trigger] crate::native::shares(payload, none, key) by {}
            assert(payload.union_prefer_right(none) =~= payload);
        }
        lemma_call_names_member("getChatMember"@, payload, none, *conversation, user_id@);
    }
}

/// The members that can be listed are the administrators of the group, bots
/// among them.
pub proof fn law_administrators_are_listed(group_id: &str, request: Request)
    requires
        call_ensures(get_group_member_list, (group_id,), request),
    ensures
        request@.method == "getChatAdministrators"@,
        json::bool_in(request@.payload, "return_bots"@) == Some(true),
        json::member(request@.payload, "chat_id"@) == Some(
            match text::i64_value(group_id@) {
                Some(id) => JsonView::Integer(id as int),
                None => JsonView::Text(group_id@),
            },
        ),
{
    lemma_parameter_names();
    reveal_strlit("return_bots");
    reveal_strlit("chat_id");
    assert("return_bots"@.len() == 11 && "chat_id"@.len() == 7);
    let payload = group_payload(group_id@).insert("return_bots"@, JsonView::Bool(true));
    request::lemma_call_member("getChatAdministrators"@, payload, "return_bots"@);
    request::lemma_call_member("getChatAdministrators"@, payload, "chat_id"@);
}

/// Each permission is set by itself where a member or a group is restricted.
pub proof fn law_permissions_are_set_one_by_one(
    payload: Map<Seq<char>, JsonView>,
    mute: GroupMuteType,
    allow: Set<PermissionView>,
)
    ensures
        json::bool_in(restriction(payload, allow), "use_independent_chat_permissions"@) == Some(true),
        json::bool_in(muting(payload, mute), "use_independent_chat_permissions"@) == Some(true),
{
}

} // verus!
