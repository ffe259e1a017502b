//! Permissions of members and administrators.
use crate::api::poll;
use crate::conversation;
use crate::conversation::{
    add_permission, holds_permission, ConversationMember, ConversationPermission, PermissionSet,
    PermissionSetView, PermissionView, RoleRef,
};
use crate::error::{message, Error, ErrorView};
use crate::json;
use crate::json::{Fields, Json, JsonView};
use crate::telegram::User as TelegramUser;
use crate::text;
use crate::text::same;
use crate::utils;
use crate::utils::parse_user;
use vstd::prelude::*;

verus! {

/// The permissions of members under Telegram's names.
pub open spec fn member_table() -> Seq<(Seq<char>, PermissionView)> {
    seq![
        ("can_send_messages"@, PermissionView::SendMessages),
        ("can_send_audios"@, PermissionView::SendMedia),
        ("can_send_documents"@, PermissionView::SendMedia),
        ("can_send_photos"@, PermissionView::SendMedia),
        ("can_send_videos"@, PermissionView::SendMedia),
        ("can_send_video_notes"@, PermissionView::SendMedia),
        ("can_send_voice_notes"@, PermissionView::SendMedia),
        ("can_send_polls"@, PermissionView::SendPolls),
        ("can_send_other_messages"@, PermissionView::SendMedia),
        ("can_add_web_page_previews"@, PermissionView::SendMedia),
        ("can_react_to_messages"@, PermissionView::SendReactions),
        ("can_edit_tag"@, PermissionView::EditOwnTag),
        ("can_change_info"@, PermissionView::ManageProfile),
        ("can_invite_users"@, PermissionView::AddMembers),
        ("can_pin_messages"@, PermissionView::PinMessages),
        ("can_manage_topics"@, PermissionView::ManageThreads),
    ]
}

/// The permissions of members and administrators under Telegram's names.
pub open spec fn full_table() -> Seq<(Seq<char>, PermissionView)> {
    member_table() + seq![
        ("can_delete_messages"@, PermissionView::ManageMessages),
        ("can_restrict_members"@, PermissionView::BanMembers),
        ("can_promote_members"@, PermissionView::ManageRoles),
        ("can_manage_video_chats"@, PermissionView::ManageCalls),
        ("can_manage_tags"@, PermissionView::ManageTags),
    ]
}

/// A table by what it says.
spec fn shown_table(table: Seq<(&'static str, ConversationPermission)>) -> Seq<
    (Seq<char>, PermissionView),
> {
    Seq::new(table.len(), |i: int| (table[i].0@, table[i].1@))
}

fn list_member_table() -> (table: Vec<(&'static str, ConversationPermission)>)
    ensures
        shown_table(table@) == member_table(),
{
    let mut table: Vec<(&'static str, ConversationPermission)> = Vec::new();
    table.push(("can_send_messages", ConversationPermission::SendMessages));
    table.push(("can_send_audios", ConversationPermission::SendMedia));
    table.push(("can_send_documents", ConversationPermission::SendMedia));
    table.push(("can_send_photos", ConversationPermission::SendMedia));
    table.push(("can_send_videos", ConversationPermission::SendMedia));
    table.push(("can_send_video_notes", ConversationPermission::SendMedia));
    table.push(("can_send_voice_notes", ConversationPermission::SendMedia));
    table.push(("can_send_polls", ConversationPermission::SendPolls));
    table.push(("can_send_other_messages", ConversationPermission::SendMedia));
    table.push(("can_add_web_page_previews", ConversationPermission::SendMedia));
    table.push(("can_react_to_messages", ConversationPermission::SendReactions));
    table.push(("can_edit_tag", ConversationPermission::EditOwnTag));
    table.push(("can_change_info", ConversationPermission::ManageProfile));
    table.push(("can_invite_users", ConversationPermission::AddMembers));
    table.push(("can_pin_messages", ConversationPermission::PinMessages));
    table.push(("can_manage_topics", ConversationPermission::ManageThreads));
    assert(shown_table(table@) =~= member_table());
    table
}

fn list_full_table() -> (table: Vec<(&'static str, ConversationPermission)>)
    ensures
        shown_table(table@) == full_table(),
{
    let mut table = list_member_table();
    let ghost before = shown_table(table@);
    table.push(("can_delete_messages", ConversationPermission::ManageMessages));
    table.push(("can_restrict_members", ConversationPermission::BanMembers));
    table.push(("can_promote_members", ConversationPermission::ManageRoles));
    table.push(("can_manage_video_chats", ConversationPermission::ManageCalls));
    table.push(("can_manage_tags", ConversationPermission::ManageTags));
    assert(shown_table(table@) =~= before + seq![
        ("can_delete_messages"@, PermissionView::ManageMessages),
        ("can_restrict_members"@, PermissionView::BanMembers),
        ("can_promote_members"@, PermissionView::ManageRoles),
        ("can_manage_video_chats"@, PermissionView::ManageCalls),
        ("can_manage_tags"@, PermissionView::ManageTags),
    ]);
    table
}

/// The permissions that the members of an object set to `value`.
pub open spec fn permissions_set_to(
    table: Seq<(Seq<char>, PermissionView)>,
    members: Map<Seq<char>, JsonView>,
    value: bool,
) -> Set<PermissionView> {
    Set::new(
        |p: PermissionView|
            exists|i: int|
                0 <= i < table.len() && (#[trigger] table[i]).1 == p && json::bool_in(
                    members,
                    table[i].0,
                ) == Some(value),
    )
}

/// The permissions that an object that Telegram sent allows and denies.
pub open spec fn permission_set_view(members: Map<Seq<char>, JsonView>) -> PermissionSetView {
    PermissionSetView {
        allow: permissions_set_to(full_table(), members, true),
        deny: permissions_set_to(full_table(), members, false),
    }
}

proof fn lemma_permissions_step(
    table: Seq<(Seq<char>, PermissionView)>,
    members: Map<Seq<char>, JsonView>,
    value: bool,
    i: int,
)
    requires
        0 <= i < table.len(),
    ensures
        permissions_set_to(table.take(i + 1), members, value) == if json::bool_in(
            members,
            table[i].0,
        ) == Some(value) {
            permissions_set_to(table.take(i), members, value).insert(table[i].1)
        } else {
            permissions_set_to(table.take(i), members, value)
        },
{
    let before = permissions_set_to(table.take(i), members, value);
    let after = permissions_set_to(table.take(i + 1), members, value);
    let set = json::bool_in(members, table[i].0) == Some(value);
    assert forall|p: PermissionView| #[trigger] before.contains(p) implies after.contains(p) by {
        let k = choose|k: int|
            0 <= k < table.take(i).len() && (#[trigger] table.take(i)[k]).1 == p && json::bool_in(
                members,
                table.take(i)[k].0,
            ) == Some(value);
        assert(table.take(i + 1)[k] == table.take(i)[k]);
    }
    assert forall|p: PermissionView| #[trigger] after.contains(p) implies before.contains(p) || (set
        && p == table[i].1) by {
        let k = choose|k: int|
            0 <= k < table.take(i + 1).len() && (#[trigger] table.take(i + 1)[k]).1 == p
                && json::bool_in(members, table.take(i + 1)[k].0) == Some(value);
        if k < i {
            assert(table.take(i)[k] == table.take(i + 1)[k]);
        }
    }
    if set {
        assert(table.take(i + 1)[i] == table[i]);
        assert(after.contains(table[i].1));
        assert(after =~= before.insert(table[i].1));
    } else {
        assert(after =~= before);
    }
}

/// Reads the permissions that an object allows and denies.
pub fn telegram_permission_set(members: &Fields) -> (permissions: PermissionSet)
    ensures
        permissions@ == permission_set_view(json::fields(*members)),
{
    let table = list_full_table();
    let ghost all = full_table();
    let ghost map = json::fields(*members);
    let mut allow: Vec<ConversationPermission> = Vec::new();
    let mut deny: Vec<ConversationPermission> = Vec::new();
    let mut i: usize = 0;
    proof {
        assert(conversation::permission_set(allow@) =~= Set::<PermissionView>::empty());
        assert(conversation::permission_set(deny@) =~= Set::<PermissionView>::empty());
        assert(permissions_set_to(all.take(0), map, true) =~= Set::<PermissionView>::empty());
        assert(permissions_set_to(all.take(0), map, false) =~= Set::<PermissionView>::empty());
    }
    while i < table.len()
        invariant
            i <= table@.len(),
            all == shown_table(table@),
            map == json::fields(*members),
            conversation::permission_set(allow@) == permissions_set_to(
                all.take(i as int),
                map,
                true,
            ),
            conversation::permission_set(deny@) == permissions_set_to(
                all.take(i as int),
                map,
                false,
            ),
        decreases table@.len() - i,
    {
        proof {
            lemma_permissions_step(all, map, true, i as int);
            lemma_permissions_step(all, map, false, i as int);
            assert(all[i as int] == (table@[i as int].0@, table@[i as int].1@));
        }
        let permission = table[i].1.clone();
        match members.bool_at(table[i].0) {
            Some(true) => add_permission(&mut allow, permission),
            Some(false) => add_permission(&mut deny, permission),
            None => {},
        }
        i += 1;
    }
    assert(all.take(all.len() as int) =~= all);
    PermissionSet { allow, deny }
}

/// The parameters that give members the permissions of a set: each one is
/// named, and is granted where the set allows it.
pub open spec fn chat_permissions_view(
    table: Seq<(Seq<char>, PermissionView)>,
    allow: Set<PermissionView>,
) -> Map<Seq<char>, JsonView>
    decreases table.len(),
{
    if table.len() == 0 {
        json::no_fields()
    } else {
        chat_permissions_view(table.drop_last(), allow).insert(
            table.last().0,
            JsonView::Bool(allow.contains(table.last().1)),
        )
    }
}

/// Writes the parameters that give members the permissions of a set.
pub fn telegram_chat_permissions(permissions: &PermissionSet) -> (members: Fields)
    ensures
        json::fields(members) == chat_permissions_view(member_table(), permissions@.allow),
{
    let table = list_member_table();
    let ghost all = member_table();
    let mut members = Fields::none();
    let mut i: usize = 0;
    assert(all.take(0) =~= Seq::<(Seq<char>, PermissionView)>::empty());
    while i < table.len()
        invariant
            i <= table@.len(),
            all == shown_table(table@),
            json::fields(members) == chat_permissions_view(
                all.take(i as int),
                permissions@.allow,
            ),
        decreases table@.len() - i,
    {
        proof {
            assert(all.take(i + 1).drop_last() =~= all.take(i as int));
            assert(all[i as int] == (table@[i as int].0@, table@[i as int].1@));
        }
        let granted = holds_permission(&permissions.allow, &table[i].1);
        members.put(table[i].0, Json::bool(granted));
        i += 1;
    }
    assert(all.take(all.len() as int) =~= all);
    members
}

/// Permissions that only administrators have.
pub open spec fn is_admin_permission(p: PermissionView) -> bool {
    match p {
        PermissionView::RemoveMembers => true,
        PermissionView::BanMembers => true,
        PermissionView::ManageMessages => true,
        PermissionView::ManageThreads => true,
        PermissionView::ManageProfile => true,
        PermissionView::ManageInvites => true,
        PermissionView::ManageRoles => true,
        PermissionView::ManageTags => true,
        PermissionView::ManageCalls => true,
        _ => false,
    }
}

/// The set allows something that only administrators may do.
pub open spec fn allows_admin(allow: Set<PermissionView>) -> bool {
    exists|p: PermissionView| allow.contains(p) && #[trigger] is_admin_permission(p)
}

/// Whether a set allows something that only administrators may do.
pub fn telegram_has_admin_permissions(permissions: &PermissionSet) -> (result: bool)
    ensures
        result == allows_admin(permissions@.allow),
{
    let mut i: usize = 0;
    while i < permissions.allow.len()
        invariant
            i <= permissions.allow@.len(),
            forall|j: int| 0 <= j < i ==> !is_admin_permission((#[trigger] permissions.allow@[j])@),
        decreases permissions.allow@.len() - i,
    {
        let admin = match &permissions.allow[i] {
            ConversationPermission::RemoveMembers => true,
            ConversationPermission::BanMembers => true,
            ConversationPermission::ManageMessages => true,
            ConversationPermission::ManageThreads => true,
            ConversationPermission::ManageProfile => true,
            ConversationPermission::ManageInvites => true,
            ConversationPermission::ManageRoles => true,
            ConversationPermission::ManageTags => true,
            ConversationPermission::ManageCalls => true,
            _ => false,
        };
        if admin {
            proof {
                let p = permissions.allow@[i as int]@;
                assert(permissions@.allow.contains(p));
                assert(is_admin_permission(p));
            }
            return true;
        }
        i += 1;
    }
    proof {
        assert forall|p: PermissionView| permissions@.allow.contains(p) implies !#[trigger] is_admin_permission(
            p,
        ) by {
            let k = choose|k: int|
                0 <= k < permissions.allow@.len() && (#[trigger] permissions.allow@[k])@ == p;
        }
    }
    false
}

/// The parameters that promote a member to the permissions of a set.
pub open spec fn administrator_view(payload: Map<Seq<char>, JsonView>, allow: Set<PermissionView>) -> Map<
    Seq<char>,
    JsonView,
> {
    payload.insert("can_manage_chat"@, JsonView::Bool(allows_admin(allow))).insert(
        "can_change_info"@,
        JsonView::Bool(allow.contains(PermissionView::ManageProfile)),
    ).insert(
        "can_delete_messages"@,
        JsonView::Bool(allow.contains(PermissionView::ManageMessages)),
    ).insert(
        "can_invite_users"@,
        JsonView::Bool(
            allow.contains(PermissionView::AddMembers) || allow.contains(
                PermissionView::ManageInvites,
            ),
        ),
    ).insert(
        "can_restrict_members"@,
        JsonView::Bool(
            allow.contains(PermissionView::RemoveMembers) || allow.contains(
                PermissionView::BanMembers,
            ),
        ),
    ).insert(
        "can_pin_messages"@,
        JsonView::Bool(allow.contains(PermissionView::PinMessages)),
    ).insert(
        "can_manage_topics"@,
        JsonView::Bool(allow.contains(PermissionView::ManageThreads)),
    ).insert(
        "can_promote_members"@,
        JsonView::Bool(allow.contains(PermissionView::ManageRoles)),
    ).insert("can_manage_tags"@, JsonView::Bool(allow.contains(PermissionView::ManageTags))).insert(
        "can_manage_video_chats"@,
        JsonView::Bool(allow.contains(PermissionView::ManageCalls)),
    )
}

/// Adds the parameters that promote a member to the permissions of a set.
pub fn telegram_administrator_permissions(payload: Fields, permissions: &PermissionSet) -> (result:
    Fields)
    ensures
        json::fields(result) == administrator_view(json::fields(payload), permissions@.allow),
{
    let allow: &Vec<ConversationPermission> = &permissions.allow;
    let invites = holds_permission(allow, &ConversationPermission::AddMembers) || holds_permission(
        allow,
        &ConversationPermission::ManageInvites,
    );
    let restricts = holds_permission(allow, &ConversationPermission::RemoveMembers)
        || holds_permission(allow, &ConversationPermission::BanMembers);
    let mut payload = payload;
    payload.put("can_manage_chat", Json::bool(telegram_has_admin_permissions(permissions)));
    payload.put(
        "can_change_info",
        Json::bool(holds_permission(allow, &ConversationPermission::ManageProfile)),
    );
    payload.put(
        "can_delete_messages",
        Json::bool(holds_permission(allow, &ConversationPermission::ManageMessages)),
    );
    payload.put("can_invite_users", Json::bool(invites));
    payload.put("can_restrict_members", Json::bool(restricts));
    payload.put(
        "can_pin_messages",
        Json::bool(holds_permission(allow, &ConversationPermission::PinMessages)),
    );
    payload.put(
        "can_manage_topics",
        Json::bool(holds_permission(allow, &ConversationPermission::ManageThreads)),
    );
    payload.put(
        "can_promote_members",
        Json::bool(holds_permission(allow, &ConversationPermission::ManageRoles)),
    );
    payload.put(
        "can_manage_tags",
        Json::bool(holds_permission(allow, &ConversationPermission::ManageTags)),
    );
    payload.put(
        "can_manage_video_chats",
        Json::bool(holds_permission(allow, &ConversationPermission::ManageCalls)),
    );
    payload
}

/// The permissions of a member that is muted, or no longer muted.
pub open spec fn mute_permissions(allow: bool) -> JsonView {
    JsonView::Object(
        json::no_fields().insert("can_send_messages"@, JsonView::Bool(allow)).insert(
            "can_send_audios"@,
            JsonView::Bool(allow),
        ).insert("can_send_documents"@, JsonView::Bool(allow)).insert(
            "can_send_photos"@,
            JsonView::Bool(allow),
        ).insert("can_send_videos"@, JsonView::Bool(allow)).insert(
            "can_send_video_notes"@,
            JsonView::Bool(allow),
        ).insert("can_send_voice_notes"@, JsonView::Bool(allow)).insert(
            "can_send_polls"@,
            JsonView::Bool(allow),
        ).insert("can_send_other_messages"@, JsonView::Bool(allow)).insert(
            "can_add_web_page_previews"@,
            JsonView::Bool(allow),
        ).insert("can_react_to_messages"@, JsonView::Bool(allow)).insert(
            "can_change_info"@,
            JsonView::Bool(false),
        ).insert("can_invite_users"@, JsonView::Bool(false)).insert(
            "can_pin_messages"@,
            JsonView::Bool(false),
        ).insert("can_manage_topics"@, JsonView::Bool(false)).insert(
            "can_edit_tag"@,
            JsonView::Bool(false),
        ),
    )
}

/// Writes the permissions of a member that is muted, or no longer muted.
pub fn chat_permissions(allow: bool) -> (value: Json)
    ensures
        value@ == mute_permissions(allow),
{
    let mut object = Fields::none();
    object.put("can_send_messages", Json::bool(allow));
    object.put("can_send_audios", Json::bool(allow));
    object.put("can_send_documents", Json::bool(allow));
    object.put("can_send_photos", Json::bool(allow));
    object.put("can_send_videos", Json::bool(allow));
    object.put("can_send_video_notes", Json::bool(allow));
    object.put("can_send_voice_notes", Json::bool(allow));
    object.put("can_send_polls", Json::bool(allow));
    object.put("can_send_other_messages", Json::bool(allow));
    object.put("can_add_web_page_previews", Json::bool(allow));
    object.put("can_react_to_messages", Json::bool(allow));
    object.put("can_change_info", Json::bool(false));
    object.put("can_invite_users", Json::bool(false));
    object.put("can_pin_messages", Json::bool(false));
    object.put("can_manage_topics", Json::bool(false));
    object.put("can_edit_tag", Json::bool(false));
    Json::object(object)
}

// ---------------------------------------------------------------------------
// Members
// ---------------------------------------------------------------------------

/// Why a member that Telegram sent cannot be read.
pub open spec fn member_flaw(value: JsonView) -> Option<ErrorView> {
    match value {
        JsonView::Object(map) => if map.contains_key("user"@) {
            None
        } else {
            Some(ErrorView::Message("Telegram chat member has no user"@))
        },
        _ => Some(ErrorView::Message("Telegram returned an invalid ChatMember"@)),
    }
}

/// Finds the document of the user in that of a member.
pub fn member_user(value: &Json) -> (result: Result<&Json, Error>)
    ensures
        match result {
            Ok(user) => member_flaw(value@) is None && user@ == value@->Object_0["user"@],
            Err(e) => member_flaw(value@) == Some(e@),
        },
{
    broadcast use json::lemma_json_view;

    match value {
        Json::Object(map) => match map.member("user") {
            Some(user) => Ok(user),
            None => Err(message("Telegram chat member has no user")),
        },
        _ => Err(message("Telegram returned an invalid ChatMember")),
    }
}

/// The standing of a member: the one Telegram names, or that it is unknown.
pub open spec fn status_of(map: Map<Seq<char>, JsonView>) -> Seq<char> {
    match json::text_in(map, "status"@) {
        Some(status) => status,
        None => "unknown"@,
    }
}

/// The member says what the document and the user in it say.
pub open spec fn reads_member(
    member: ConversationMember,
    value: JsonView,
    user: TelegramUser,
) -> bool {
    let map = value->Object_0;
    let status = status_of(map);
    let title = json::text_in(map, "custom_title"@);
    &&& utils::is_user(member.user, user.id as int, Some(utils::user_name(user)))
    &&& member.permissions@ == permission_set_view(map)
    &&& if status == "member"@ || status == "restricted"@ || status == "left"@ {
        member.roles@.len() == 0
    } else {
        member.roles@.len() == 1 && member.roles@[0].id@ == status && json::optional_chars(
            member.roles@[0].name,
        ) == title && member.roles@[0].permissions@ == permission_set_view(map)
    }
    &&& member.joined_at is None
    &&& json::optional_chars(member.nickname) == title
    &&& json::optional_chars(member.tag) == json::text_in(map, "tag"@)
    &&& poll::is_native(member.platform_data, value)
}

/// Reads a member that Telegram sent; `user` is what its user document says.
pub fn telegram_conversation_member(value: &Json, user: &TelegramUser) -> (result: Result<
    ConversationMember,
    Error,
>)
    ensures
        match result {
            Ok(member) => member_flaw(value@) is None && reads_member(member, value@, *user),
            Err(e) => member_flaw(value@) == Some(e@),
        },
{
    broadcast use json::lemma_json_view;

    let _ = member_user(value)?;
    match value {
        Json::Object(map) => {
            let status: &str = match map.text_at("status") {
                Some(status) => status,
                None => "unknown",
            };
            let permissions = telegram_permission_set(map);
            let mut roles: Vec<RoleRef> = Vec::new();
            if !(same(status, "member") || same(status, "restricted") || same(status, "left")) {
                roles.push(
                    RoleRef {
                        id: status.to_owned(),
                        name: map.string_at("custom_title"),
                        permissions: permissions.clone(),
                    },
                );
            }
            Ok(
                ConversationMember {
                    user: parse_user(user),
                    roles,
                    permissions,
                    joined_at: None,
                    nickname: map.string_at("custom_title"),
                    tag: map.string_at("tag"),
                    platform_data: poll::native_copy(value),
                },
            )
        },
        _ => Err(message("Telegram returned an invalid ChatMember")),
    }
}

/// Reading the permissions that were written for a set allows those of the set
/// that Telegram has for members, and denies the others that it has.
pub proof fn law_member_permissions_round_trip(allow: Set<PermissionView>, permission: PermissionView)
    ensures
        ({
            let read = permission_set_view(chat_permissions_view(member_table(), allow));
            let known = exists|i: int|
                0 <= i < member_table().len() && (#[trigger] member_table()[i]).1 == permission;
            &&& read.allow.contains(permission) <==> known && allow.contains(permission)
            &&& read.deny.contains(permission) <==> known && !allow.contains(permission)
        }),
{
    let table = member_table();
    let written = chat_permissions_view(table, allow);
    lemma_names_distinct();
    lemma_written(table, allow);
    let read = permission_set_view(written);
    assert forall|i: int| 0 <= i < full_table().len() implies json::bool_in(
        written,
        (#[trigger] full_table()[i]).0,
    ) == if i < table.len() {
        Some(allow.contains(full_table()[i].1))
    } else {
        None
    } by {
        if i < table.len() {
            assert(full_table()[i] == table[i]);
        } else {
            if written.contains_key(full_table()[i].0) {
                let k = choose|k: int|
                    0 <= k < table.len() && (#[trigger] table[k]).0 == full_table()[i].0;
                assert(full_table()[k] == table[k]);
            }
        }
    }
    if exists|i: int| 0 <= i < table.len() && (#[trigger] table[i]).1 == permission {
        let i = choose|i: int| 0 <= i < table.len() && (#[trigger] table[i]).1 == permission;
        assert(full_table()[i] == table[i]);
    }
    if read.allow.contains(permission) {
        let i = choose|i: int|
            0 <= i < full_table().len() && (#[trigger] full_table()[i]).1 == permission
                && json::bool_in(written, full_table()[i].0) == Some(true);
        assert(table[i].1 == permission);
    }
    if read.deny.contains(permission) {
        let i = choose|i: int|
            0 <= i < full_table().len() && (#[trigger] full_table()[i]).1 == permission
                && json::bool_in(written, full_table()[i].0) == Some(false);
        assert(table[i].1 == permission);
    }
}

/// No two entries have one name.
spec fn distinct_names(table: Seq<(Seq<char>, PermissionView)>) -> bool {
    forall|i: int, j: int|
        0 <= i < j < table.len() ==> (#[trigger] table[i]).0 != (#[trigger] table[j]).0
}

proof fn lemma_written(table: Seq<(Seq<char>, PermissionView)>, allow: Set<PermissionView>)
    requires
        distinct_names(table),
    ensures
        forall|i: int|
            0 <= i < table.len() ==> chat_permissions_view(table, allow).contains_key(
                (#[trigger] table[i]).0,
            ) && chat_permissions_view(table, allow)[table[i].0] == JsonView::Bool(
                allow.contains(table[i].1),
            ),
        forall|key: Seq<char>| #[trigger]
            chat_permissions_view(table, allow).contains_key(key) ==> exists|i: int|
                0 <= i < table.len() && (#[trigger] table[i]).0 == key,
    decreases table.len(),
{
    if table.len() > 0 {
        let before = table.drop_last();
        lemma_written(before, allow);
        assert forall|i: int| 0 <= i < table.len() implies chat_permissions_view(
            table,
            allow,
        ).contains_key((#[trigger] table[i]).0) && chat_permissions_view(table, allow)[table[i].0]
            == JsonView::Bool(allow.contains(table[i].1)) by {
            if i < before.len() {
                assert(before[i] == table[i]);
                assert(table[i].0 != table[table.len() - 1].0);
            }
        }
        assert forall|key: Seq<char>| #[trigger]
            chat_permissions_view(table, allow).contains_key(key) implies exists|i: int|
            0 <= i < table.len() && (#[trigger] table[i]).0 == key by {
            if key == table.last().0 {
                assert(table[table.len() - 1].0 == key);
            } else {
                let i = choose|i: int| 0 <= i < before.len() && (#[trigger] before[i]).0 == key;
                assert(table[i].0 == key);
            }
        }
    }
}

proof fn lemma_names_distinct()
    ensures
        distinct_names(full_table()),
        distinct_names(member_table()),
        forall|i: int| 0 <= i < member_table().len() ==> member_table()[i] == #[trigger] full_table()[i],
{
    reveal_strlit("can_send_messages");
    reveal_strlit("can_send_audios");
    reveal_strlit("can_send_documents");
    reveal_strlit("can_send_photos");
    reveal_strlit("can_send_videos");
    reveal_strlit("can_send_video_notes");
    reveal_strlit("can_send_voice_notes");
    reveal_strlit("can_send_polls");
    reveal_strlit("can_send_other_messages");
    reveal_strlit("can_add_web_page_previews");
    reveal_strlit("can_react_to_messages");
    reveal_strlit("can_edit_tag");
    reveal_strlit("can_change_info");
    reveal_strlit("can_invite_users");
    reveal_strlit("can_pin_messages");
    reveal_strlit("can_manage_topics");
    reveal_strlit("can_delete_messages");
    reveal_strlit("can_restrict_members");
    reveal_strlit("can_promote_members");
    reveal_strlit("can_manage_video_chats");
    reveal_strlit("can_manage_tags");
    let table = full_table();
    assert forall|i: int, j: int| 0 <= i < j < table.len() implies (#[trigger] table[i]).0 != (
    #[trigger] table[j]).0 by {
        assert("can_send_messages"@.len() == 17);
        assert("can_send_audios"@.len() == 15);
        assert("can_send_documents"@.len() == 18);
        assert("can_send_photos"@.len() == 15);
        assert("can_send_videos"@.len() == 15);
        assert("can_send_video_notes"@.len() == 20);
        assert("can_send_voice_notes"@.len() == 20);
        assert("can_send_polls"@.len() == 14);
        assert("can_send_other_messages"@.len() == 23);
        assert("can_add_web_page_previews"@.len() == 25);
        assert("can_react_to_messages"@.len() == 21);
        assert("can_edit_tag"@.len() == 12);
        assert("can_change_info"@.len() == 15);
        assert("can_invite_users"@.len() == 16);
        assert("can_pin_messages"@.len() == 16);
        assert("can_manage_topics"@.len() == 17);
        assert("can_delete_messages"@.len() == 19);
        assert("can_restrict_members"@.len() == 20);
        assert("can_promote_members"@.len() == 19);
        assert("can_manage_video_chats"@.len() == 22);
        assert("can_manage_tags"@.len() == 15);
        assert("can_send_messages"@[4] != "can_manage_topics"@[4]);
        assert("can_send_audios"@[9] != "can_send_photos"@[9]);
        assert("can_send_audios"@[9] != "can_send_videos"@[9]);
        assert("can_send_audios"@[4] != "can_change_info"@[4]);
        assert("can_send_audios"@[4] != "can_manage_tags"@[4]);
        assert("can_send_photos"@[9] != "can_send_videos"@[9]);
        assert("can_send_photos"@[4] != "can_change_info"@[4]);
        assert("can_send_photos"@[4] != "can_manage_tags"@[4]);
        assert("can_send_videos"@[4] != "can_change_info"@[4]);
        assert("can_send_videos"@[4] != "can_manage_tags"@[4]);
        assert("can_change_info"@[4] != "can_manage_tags"@[4]);
        assert("can_send_video_notes"@[10] != "can_send_voice_notes"@[10]);
        assert("can_send_video_notes"@[4] != "can_restrict_members"@[4]);
        assert("can_send_voice_notes"@[4] != "can_restrict_members"@[4]);
        assert("can_invite_users"@[4] != "can_pin_messages"@[4]);
        assert("can_delete_messages"@[4] != "can_promote_members"@[4]);
    }
    assert forall|i: int, j: int| 0 <= i < j < member_table().len() implies (
    #[trigger] member_table()[i]).0 != (#[trigger] member_table()[j]).0 by {
        assert(member_table()[i] == table[i]);
        assert(member_table()[j] == table[j]);
    }
}

/// Promoting a member to no permission at all, which takes the rights of an
/// administrator away, grants nothing.
pub proof fn law_demotion_grants_nothing(payload: Map<Seq<char>, JsonView>, name: Seq<char>)
    ensures
        json::bool_in(administrator_view(payload, Set::empty()), name) == Some(true)
            ==> json::bool_in(payload, name) == Some(true),
{
    assert(!allows_admin(Set::empty()));
}

/// What a member may do is written under the name that Telegram has for it:
/// whoever may send messages has that granted, whoever may send media has each
/// sort of media granted, and so on; and nothing else is granted.
pub proof fn law_permissions_are_written_by_name(allow: Set<PermissionView>)
    ensures
        ({
            let written = chat_permissions_view(member_table(), allow);
            &&& json::bool_in(written, "can_send_messages"@) == Some(allow.contains(PermissionView::SendMessages))
            &&& json::bool_in(written, "can_send_audios"@) == Some(allow.contains(PermissionView::SendMedia))
            &&& json::bool_in(written, "can_send_documents"@) == Some(allow.contains(PermissionView::SendMedia))
            &&& json::bool_in(written, "can_send_photos"@) == Some(allow.contains(PermissionView::SendMedia))
            &&& json::bool_in(written, "can_send_videos"@) == Some(allow.contains(PermissionView::SendMedia))
            &&& json::bool_in(written, "can_send_video_notes"@) == Some(allow.contains(PermissionView::SendMedia))
            &&& json::bool_in(written, "can_send_voice_notes"@) == Some(allow.contains(PermissionView::SendMedia))
            &&& json::bool_in(written, "can_send_polls"@) == Some(allow.contains(PermissionView::SendPolls))
            &&& json::bool_in(written, "can_send_other_messages"@) == Some(allow.contains(PermissionView::SendMedia))
            &&& json::bool_in(written, "can_add_web_page_previews"@) == Some(allow.contains(PermissionView::SendMedia))
            &&& json::bool_in(written, "can_react_to_messages"@) == Some(allow.contains(PermissionView::SendReactions))
            &&& json::bool_in(written, "can_edit_tag"@) == Some(allow.contains(PermissionView::EditOwnTag))
            &&& json::bool_in(written, "can_change_info"@) == Some(allow.contains(PermissionView::ManageProfile))
            &&& json::bool_in(written, "can_invite_users"@) == Some(allow.contains(PermissionView::AddMembers))
            &&& json::bool_in(written, "can_pin_messages"@) == Some(allow.contains(PermissionView::PinMessages))
            &&& json::bool_in(written, "can_manage_topics"@) == Some(allow.contains(PermissionView::ManageThreads))
        }),
{
    lemma_names_distinct();
    let table = member_table();
    lemma_written(table, allow);
    assert(table[0].0 == "can_send_messages"@);
    assert(table[1].0 == "can_send_audios"@);
    assert(table[2].0 == "can_send_documents"@);
    assert(table[3].0 == "can_send_photos"@);
    assert(table[4].0 == "can_send_videos"@);
    assert(table[5].0 == "can_send_video_notes"@);
    assert(table[6].0 == "can_send_voice_notes"@);
    assert(table[7].0 == "can_send_polls"@);
    assert(table[8].0 == "can_send_other_messages"@);
    assert(table[9].0 == "can_add_web_page_previews"@);
    assert(table[10].0 == "can_react_to_messages"@);
    assert(table[11].0 == "can_edit_tag"@);
    assert(table[12].0 == "can_change_info"@);
    assert(table[13].0 == "can_invite_users"@);
    assert(table[14].0 == "can_pin_messages"@);
    assert(table[15].0 == "can_manage_topics"@);
}

/// What Telegram says that a member may do is read as that: each name that it
/// grants allows, and each that it denies denies, what the name stands for.
pub proof fn law_permissions_are_read_by_name(
    members: Map<Seq<char>, JsonView>,
    read: PermissionSet,
)
    requires
        read@ == permission_set_view(members),
    ensures
        read@.allow.contains(PermissionView::SendMessages) <==> json::bool_in(members, "can_send_messages"@) == Some(
            true,
        ),
        read@.deny.contains(PermissionView::SendMessages) <==> json::bool_in(members, "can_send_messages"@) == Some(
            false,
        ),
        read@.allow.contains(PermissionView::SendPolls) <==> json::bool_in(members, "can_send_polls"@) == Some(
            true,
        ),
        read@.deny.contains(PermissionView::SendPolls) <==> json::bool_in(members, "can_send_polls"@) == Some(
            false,
        ),
        read@.allow.contains(PermissionView::SendReactions) <==> json::bool_in(members, "can_react_to_messages"@) == Some(
            true,
        ),
        read@.deny.contains(PermissionView::SendReactions) <==> json::bool_in(members, "can_react_to_messages"@) == Some(
            false,
        ),
        read@.allow.contains(PermissionView::EditOwnTag) <==> json::bool_in(members, "can_edit_tag"@) == Some(
            true,
        ),
        read@.deny.contains(PermissionView::EditOwnTag) <==> json::bool_in(members, "can_edit_tag"@) == Some(
            false,
        ),
        read@.allow.contains(PermissionView::ManageProfile) <==> json::bool_in(members, "can_change_info"@) == Some(
            true,
        ),
        read@.deny.contains(PermissionView::ManageProfile) <==> json::bool_in(members, "can_change_info"@) == Some(
            false,
        ),
        read@.allow.contains(PermissionView::AddMembers) <==> json::bool_in(members, "can_invite_users"@) == Some(
            true,
        ),
        read@.deny.contains(PermissionView::AddMembers) <==> json::bool_in(members, "can_invite_users"@) == Some(
            false,
        ),
        read@.allow.contains(PermissionView::PinMessages) <==> json::bool_in(members, "can_pin_messages"@) == Some(
            true,
        ),
        read@.deny.contains(PermissionView::PinMessages) <==> json::bool_in(members, "can_pin_messages"@) == Some(
            false,
        ),
        read@.allow.contains(PermissionView::ManageThreads) <==> json::bool_in(members, "can_manage_topics"@) == Some(
            true,
        ),
        read@.deny.contains(PermissionView::ManageThreads) <==> json::bool_in(members, "can_manage_topics"@) == Some(
            false,
        ),
        read@.allow.contains(PermissionView::ManageMessages) <==> json::bool_in(members, "can_delete_messages"@) == Some(
            true,
        ),
        read@.deny.contains(PermissionView::ManageMessages) <==> json::bool_in(members, "can_delete_messages"@) == Some(
            false,
        ),
        read@.allow.contains(PermissionView::BanMembers) <==> json::bool_in(members, "can_restrict_members"@) == Some(
            true,
        ),
        read@.deny.contains(PermissionView::BanMembers) <==> json::bool_in(members, "can_restrict_members"@) == Some(
            false,
        ),
        read@.allow.contains(PermissionView::ManageRoles) <==> json::bool_in(members, "can_promote_members"@) == Some(
            true,
        ),
        read@.deny.contains(PermissionView::ManageRoles) <==> json::bool_in(members, "can_promote_members"@) == Some(
            false,
        ),
        read@.allow.contains(PermissionView::ManageCalls) <==> json::bool_in(members, "can_manage_video_chats"@) == Some(
            true,
        ),
        read@.deny.contains(PermissionView::ManageCalls) <==> json::bool_in(members, "can_manage_video_chats"@) == Some(
            false,
        ),
        read@.allow.contains(PermissionView::ManageTags) <==> json::bool_in(members, "can_manage_tags"@) == Some(
            true,
        ),
        read@.deny.contains(PermissionView::ManageTags) <==> json::bool_in(members, "can_manage_tags"@) == Some(
            false,
        ),
        json::bool_in(members, "can_send_audios"@) == Some(true) ==> read@.allow.contains(
            PermissionView::SendMedia,
        ),
        json::bool_in(members, "can_send_documents"@) == Some(true) ==> read@.allow.contains(
            PermissionView::SendMedia,
        ),
        json::bool_in(members, "can_send_photos"@) == Some(true) ==> read@.allow.contains(
            PermissionView::SendMedia,
        ),
        json::bool_in(members, "can_send_videos"@) == Some(true) ==> read@.allow.contains(
            PermissionView::SendMedia,
        ),
        json::bool_in(members, "can_send_video_notes"@) == Some(true) ==> read@.allow.contains(
            PermissionView::SendMedia,
        ),
        json::bool_in(members, "can_send_voice_notes"@) == Some(true) ==> read@.allow.contains(
            PermissionView::SendMedia,
        ),
        json::bool_in(members, "can_send_other_messages"@) == Some(true) ==> read@.allow.contains(
            PermissionView::SendMedia,
        ),
        json::bool_in(members, "can_add_web_page_previews"@) == Some(true) ==> read@.allow.contains(
            PermissionView::SendMedia,
        ),
{
    let table = full_table();
    lemma_table();
    lemma_read_by_name(members, 0);
    lemma_read_by_name(members, 1);
    lemma_read_by_name(members, 2);
    lemma_read_by_name(members, 3);
    lemma_read_by_name(members, 4);
    lemma_read_by_name(members, 5);
    lemma_read_by_name(members, 6);
    lemma_read_by_name(members, 7);
    lemma_read_by_name(members, 8);
    lemma_read_by_name(members, 9);
    lemma_read_by_name(members, 10);
    lemma_read_by_name(members, 11);
    lemma_read_by_name(members, 12);
    lemma_read_by_name(members, 13);
    lemma_read_by_name(members, 14);
    lemma_read_by_name(members, 15);
    lemma_read_by_name(members, 16);
    lemma_read_by_name(members, 17);
    lemma_read_by_name(members, 18);
    lemma_read_by_name(members, 19);
    lemma_read_by_name(members, 20);
}

proof fn lemma_table()
    ensures
        full_table().len() == 21,
        full_table()[0] == ("can_send_messages"@, PermissionView::SendMessages),
        full_table()[1] == ("can_send_audios"@, PermissionView::SendMedia),
        full_table()[2] == ("can_send_documents"@, PermissionView::SendMedia),
        full_table()[3] == ("can_send_photos"@, PermissionView::SendMedia),
        full_table()[4] == ("can_send_videos"@, PermissionView::SendMedia),
        full_table()[5] == ("can_send_video_notes"@, PermissionView::SendMedia),
        full_table()[6] == ("can_send_voice_notes"@, PermissionView::SendMedia),
        full_table()[7] == ("can_send_polls"@, PermissionView::SendPolls),
        full_table()[8] == ("can_send_other_messages"@, PermissionView::SendMedia),
        full_table()[9] == ("can_add_web_page_previews"@, PermissionView::SendMedia),
        full_table()[10] == ("can_react_to_messages"@, PermissionView::SendReactions),
        full_table()[11] == ("can_edit_tag"@, PermissionView::EditOwnTag),
        full_table()[12] == ("can_change_info"@, PermissionView::ManageProfile),
        full_table()[13] == ("can_invite_users"@, PermissionView::AddMembers),
        full_table()[14] == ("can_pin_messages"@, PermissionView::PinMessages),
        full_table()[15] == ("can_manage_topics"@, PermissionView::ManageThreads),
        full_table()[16] == ("can_delete_messages"@, PermissionView::ManageMessages),
        full_table()[17] == ("can_restrict_members"@, PermissionView::BanMembers),
        full_table()[18] == ("can_promote_members"@, PermissionView::ManageRoles),
        full_table()[19] == ("can_manage_video_chats"@, PermissionView::ManageCalls),
        full_table()[20] == ("can_manage_tags"@, PermissionView::ManageTags),
{
}

proof fn lemma_read_by_name(members: Map<Seq<char>, JsonView>, i: int)
    requires
        0 <= i < full_table().len(),
    ensures
        json::bool_in(members, full_table()[i].0) == Some(true) ==> permission_set_view(
            members,
        ).allow.contains(full_table()[i].1),
        json::bool_in(members, full_table()[i].0) == Some(false) ==> permission_set_view(
            members,
        ).deny.contains(full_table()[i].1),
        permission_set_view(members).allow.contains(full_table()[i].1) ==> exists|k: int|
            0 <= k < full_table().len() && (#[trigger] full_table()[k]).1 == full_table()[i].1
                && json::bool_in(members, full_table()[k].0) == Some(true),
        permission_set_view(members).deny.contains(full_table()[i].1) ==> exists|k: int|
            0 <= k < full_table().len() && (#[trigger] full_table()[k]).1 == full_table()[i].1
                && json::bool_in(members, full_table()[k].0) == Some(false),
{
}

/// A member is promoted to what the set allows, each right under Telegram's
/// name for it; whoever may remove or ban may restrict, and whoever may add
/// members or manage invitations may invite.
pub proof fn law_promotions_are_written_by_name(
    payload: Map<Seq<char>, JsonView>,
    allow: Set<PermissionView>,
)
    ensures
        ({
            let written = administrator_view(payload, allow);
            let may = |p: PermissionView| allow.contains(p);
            &&& json::bool_in(written, "can_change_info"@) == Some(may(PermissionView::ManageProfile))
            &&& json::bool_in(written, "can_delete_messages"@) == Some(
                may(PermissionView::ManageMessages),
            )
            &&& json::bool_in(written, "can_invite_users"@) == Some(
                may(PermissionView::AddMembers) || may(PermissionView::ManageInvites),
            )
            &&& json::bool_in(written, "can_restrict_members"@) == Some(
                may(PermissionView::RemoveMembers) || may(PermissionView::BanMembers),
            )
            &&& json::bool_in(written, "can_pin_messages"@) == Some(may(PermissionView::PinMessages))
            &&& json::bool_in(written, "can_manage_topics"@) == Some(
                may(PermissionView::ManageThreads),
            )
            &&& json::bool_in(written, "can_promote_members"@) == Some(
                may(PermissionView::ManageRoles),
            )
            &&& json::bool_in(written, "can_manage_tags"@) == Some(may(PermissionView::ManageTags))
            &&& json::bool_in(written, "can_manage_video_chats"@) == Some(
                may(PermissionView::ManageCalls),
            )
            &&& json::bool_in(written, "can_manage_chat"@) == Some(
                may(PermissionView::RemoveMembers) || may(PermissionView::BanMembers) || may(
                    PermissionView::ManageMessages,
                ) || may(PermissionView::ManageThreads) || may(PermissionView::ManageProfile)
                    || may(PermissionView::ManageInvites) || may(PermissionView::ManageRoles)
                    || may(PermissionView::ManageTags) || may(PermissionView::ManageCalls),
            )
        }),
{
    lemma_right_names();
    lemma_allows_admin(allow);
}

proof fn lemma_right_names()
    ensures
        "can_manage_chat"@.len() == 15,
        "can_change_info"@.len() == 15,
        "can_delete_messages"@.len() == 19,
        "can_invite_users"@.len() == 16,
        "can_restrict_members"@.len() == 20,
        "can_pin_messages"@.len() == 16,
        "can_manage_topics"@.len() == 17,
        "can_promote_members"@.len() == 19,
        "can_manage_tags"@.len() == 15,
        "can_manage_video_chats"@.len() == 22,
        "can_manage_chat"@ != "can_change_info"@,
        "can_manage_chat"@ != "can_manage_tags"@,
        "can_change_info"@ != "can_manage_tags"@,
        "can_delete_messages"@ != "can_promote_members"@,
        "can_invite_users"@ != "can_pin_messages"@,
{
    reveal_strlit("can_manage_chat");
    reveal_strlit("can_change_info");
    reveal_strlit("can_delete_messages");
    reveal_strlit("can_invite_users");
    reveal_strlit("can_restrict_members");
    reveal_strlit("can_pin_messages");
    reveal_strlit("can_manage_topics");
    reveal_strlit("can_promote_members");
    reveal_strlit("can_manage_tags");
    reveal_strlit("can_manage_video_chats");
    assert("can_manage_chat"@[4] != "can_change_info"@[4]);
    assert("can_manage_chat"@[11] != "can_manage_tags"@[11]);
    assert("can_change_info"@[4] != "can_manage_tags"@[4]);
    assert("can_delete_messages"@[4] != "can_promote_members"@[4]);
    assert("can_invite_users"@[4] != "can_pin_messages"@[4]);
}

/// A member whom Telegram names is read with the standing that Telegram gives:
/// the owner and the administrators have a role of that name, the others none.
pub proof fn law_members_keep_their_standing(
    member: ConversationMember,
    value: JsonView,
    user: TelegramUser,
    status: Seq<char>,
)
    requires
        member_flaw(value) is None,
        reads_member(member, value, user),
        json::text_in(value->Object_0, "status"@) == Some(status),
    ensures
        member.user.id@ == text::decimal(user.id as int),
        status == "member"@ || status == "restricted"@ || status == "left"@ ==> member.roles@.len()
            == 0,
        status == "creator"@ || status == "administrator"@ || status == "kicked"@
            ==> member.roles@.len() == 1 && member.roles@[0].id@ == status,
        json::optional_chars(member.nickname) == json::text_in(value->Object_0, "custom_title"@),
        json::optional_chars(member.tag) == json::text_in(value->Object_0, "tag"@),
{
    lemma_standing_names();
}

proof fn lemma_standing_names()
    ensures
        "member"@.len() == 6,
        "restricted"@.len() == 10,
        "left"@.len() == 4,
        "creator"@.len() == 7,
        "administrator"@.len() == 13,
        "kicked"@.len() == 6,
        "member"@ != "kicked"@,
{
    reveal_strlit("member");
    reveal_strlit("restricted");
    reveal_strlit("left");
    reveal_strlit("creator");
    reveal_strlit("administrator");
    reveal_strlit("kicked");
    assert("member"@[0] != "kicked"@[0]);
}

/// A set allows something that only administrators may do where it allows to
/// remove or ban members, or to manage anything.
pub proof fn lemma_allows_admin(allow: Set<PermissionView>)
    ensures
        allows_admin(allow) <==> {
            ||| allow.contains(PermissionView::RemoveMembers)
            ||| allow.contains(PermissionView::BanMembers)
            ||| allow.contains(PermissionView::ManageMessages)
            ||| allow.contains(PermissionView::ManageThreads)
            ||| allow.contains(PermissionView::ManageProfile)
            ||| allow.contains(PermissionView::ManageInvites)
            ||| allow.contains(PermissionView::ManageRoles)
            ||| allow.contains(PermissionView::ManageTags)
            ||| allow.contains(PermissionView::ManageCalls)
        },
{
    if allows_admin(allow) {
        let p = choose|p: PermissionView| allow.contains(p) && #[trigger] is_admin_permission(p);
    }
    assert(is_admin_permission(PermissionView::RemoveMembers));
    assert(is_admin_permission(PermissionView::BanMembers));
    assert(is_admin_permission(PermissionView::ManageMessages));
    assert(is_admin_permission(PermissionView::ManageThreads));
    assert(is_admin_permission(PermissionView::ManageProfile));
    assert(is_admin_permission(PermissionView::ManageInvites));
    assert(is_admin_permission(PermissionView::ManageRoles));
    assert(is_admin_permission(PermissionView::ManageTags));
    assert(is_admin_permission(PermissionView::ManageCalls));
}

} // verus!
