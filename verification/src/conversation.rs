//! Conversations, messages and members, independent of the platform.
use crate::commerce::Money;
use crate::content::Duration;
use crate::json::Fields;
use crate::native;
use crate::native::{NativeView, PlatformNativeData};
use crate::source::{File, User};
use crate::text::same;
use vstd::prelude::*;

verus! {

#[derive(Debug, PartialEq)]
pub enum ConversationKind {
    Direct,
    Group,
    Channel,
    Thread,
    Topic,
    Forum,
    Unknown,
    PlatformNative(String),
}

impl Clone for ConversationKind {
    fn clone(&self) -> (res: Self)
        ensures
            res == *self,
    {
        match self {
            ConversationKind::Direct => ConversationKind::Direct,
            ConversationKind::Group => ConversationKind::Group,
            ConversationKind::Channel => ConversationKind::Channel,
            ConversationKind::Thread => ConversationKind::Thread,
            ConversationKind::Topic => ConversationKind::Topic,
            ConversationKind::Forum => ConversationKind::Forum,
            ConversationKind::Unknown => ConversationKind::Unknown,
            ConversationKind::PlatformNative(name) => ConversationKind::PlatformNative(name.clone()),
        }
    }
}

/// A kind of conversation, by what it says.
pub enum KindView {
    Direct,
    Group,
    Channel,
    Thread,
    Topic,
    Forum,
    Unknown,
    PlatformNative(Seq<char>),
}

impl View for ConversationKind {
    type V = KindView;

    open spec fn view(&self) -> KindView {
        match *self {
            ConversationKind::Direct => KindView::Direct,
            ConversationKind::Group => KindView::Group,
            ConversationKind::Channel => KindView::Channel,
            ConversationKind::Thread => KindView::Thread,
            ConversationKind::Topic => KindView::Topic,
            ConversationKind::Forum => KindView::Forum,
            ConversationKind::Unknown => KindView::Unknown,
            ConversationKind::PlatformNative(name) => KindView::PlatformNative(name@),
        }
    }
}

#[derive(Debug, PartialEq)]
pub struct ConversationRef {
    pub id: String,
    pub kind: ConversationKind,
    pub parent: Option<Box<ConversationRef>>,
    pub platform_data: Option<PlatformNativeData>,
}

/// What a reference to a conversation says.
pub struct ConversationView {
    pub id: Seq<char>,
    pub kind: KindView,
    pub parent: Option<Box<ConversationView>>,
    pub native: Option<NativeView>,
}

/// What a reference to a conversation says.
pub open spec fn conversation_view(conversation: ConversationRef) -> ConversationView
    decreases conversation,
{
    ConversationView {
        id: conversation.id@,
        kind: conversation.kind@,
        parent: match conversation.parent {
            Some(parent) => Some(Box::new(conversation_view(*parent))),
            None => None,
        },
        native: native::optional_native(conversation.platform_data),
    }
}

impl View for ConversationRef {
    type V = ConversationView;

    open spec fn view(&self) -> ConversationView {
        conversation_view(*self)
    }
}

impl Clone for ConversationRef {
    fn clone(&self) -> (res: Self)
        ensures
            res@ == self@,
        decreases self,
    {
        let parent = match &self.parent {
            Some(parent) => Some(Box::new((**parent).clone())),
            None => None,
        };
        let platform_data = match &self.platform_data {
            Some(native) => Some(native.clone()),
            None => None,
        };
        ConversationRef { id: self.id.clone(), kind: self.kind.clone(), parent, platform_data }
    }
}

#[derive(Debug, PartialEq)]
pub struct MessageRef {
    pub id: String,
    pub conversation: Option<ConversationRef>,
    pub platform_data: Option<PlatformNativeData>,
}

/// What a reference to a message says.
pub struct MessageRefView {
    pub id: Seq<char>,
    pub conversation: Option<ConversationView>,
    pub native: Option<NativeView>,
}

impl View for MessageRef {
    type V = MessageRefView;

    open spec fn view(&self) -> MessageRefView {
        MessageRefView {
            id: self.id@,
            conversation: match self.conversation {
                Some(conversation) => Some(conversation@),
                None => None,
            },
            native: native::optional_native(self.platform_data),
        }
    }
}

#[derive(Debug, PartialEq)]
pub struct MessageTarget {
    pub conversation: ConversationRef,
    pub recipients: Vec<String>,
    pub platform_data: Option<PlatformNativeData>,
}

// ---------------------------------------------------------------------------
// Permissions
// ---------------------------------------------------------------------------

#[derive(Debug, PartialEq)]
pub enum ConversationPermission {
    SendMessages,
    SendMedia,
    SendPolls,
    SendReactions,
    AddMembers,
    RemoveMembers,
    BanMembers,
    PinMessages,
    ManageMessages,
    ManageThreads,
    ManageProfile,
    ManageInvites,
    ManageRoles,
    ManageTags,
    EditOwnTag,
    ManageCalls,
    Unknown,
    PlatformNative(String),
}

/// A permission, by what it says.
pub enum PermissionView {
    SendMessages,
    SendMedia,
    SendPolls,
    SendReactions,
    AddMembers,
    RemoveMembers,
    BanMembers,
    PinMessages,
    ManageMessages,
    ManageThreads,
    ManageProfile,
    ManageInvites,
    ManageRoles,
    ManageTags,
    EditOwnTag,
    ManageCalls,
    Unknown,
    PlatformNative(Seq<char>),
}

impl View for ConversationPermission {
    type V = PermissionView;

    open spec fn view(&self) -> PermissionView {
        match *self {
            ConversationPermission::SendMessages => PermissionView::SendMessages,
            ConversationPermission::SendMedia => PermissionView::SendMedia,
            ConversationPermission::SendPolls => PermissionView::SendPolls,
            ConversationPermission::SendReactions => PermissionView::SendReactions,
            ConversationPermission::AddMembers => PermissionView::AddMembers,
            ConversationPermission::RemoveMembers => PermissionView::RemoveMembers,
            ConversationPermission::BanMembers => PermissionView::BanMembers,
            ConversationPermission::PinMessages => PermissionView::PinMessages,
            ConversationPermission::ManageMessages => PermissionView::ManageMessages,
            ConversationPermission::ManageThreads => PermissionView::ManageThreads,
            ConversationPermission::ManageProfile => PermissionView::ManageProfile,
            ConversationPermission::ManageInvites => PermissionView::ManageInvites,
            ConversationPermission::ManageRoles => PermissionView::ManageRoles,
            ConversationPermission::ManageTags => PermissionView::ManageTags,
            ConversationPermission::EditOwnTag => PermissionView::EditOwnTag,
            ConversationPermission::ManageCalls => PermissionView::ManageCalls,
            ConversationPermission::Unknown => PermissionView::Unknown,
            ConversationPermission::PlatformNative(name) => PermissionView::PlatformNative(name@),
        }
    }
}

impl Clone for ConversationPermission {
    fn clone(&self) -> (res: Self)
        ensures
            res@ == self@,
    {
        match self {
            ConversationPermission::SendMessages => ConversationPermission::SendMessages,
            ConversationPermission::SendMedia => ConversationPermission::SendMedia,
            ConversationPermission::SendPolls => ConversationPermission::SendPolls,
            ConversationPermission::SendReactions => ConversationPermission::SendReactions,
            ConversationPermission::AddMembers => ConversationPermission::AddMembers,
            ConversationPermission::RemoveMembers => ConversationPermission::RemoveMembers,
            ConversationPermission::BanMembers => ConversationPermission::BanMembers,
            ConversationPermission::PinMessages => ConversationPermission::PinMessages,
            ConversationPermission::ManageMessages => ConversationPermission::ManageMessages,
            ConversationPermission::ManageThreads => ConversationPermission::ManageThreads,
            ConversationPermission::ManageProfile => ConversationPermission::ManageProfile,
            ConversationPermission::ManageInvites => ConversationPermission::ManageInvites,
            ConversationPermission::ManageRoles => ConversationPermission::ManageRoles,
            ConversationPermission::ManageTags => ConversationPermission::ManageTags,
            ConversationPermission::EditOwnTag => ConversationPermission::EditOwnTag,
            ConversationPermission::ManageCalls => ConversationPermission::ManageCalls,
            ConversationPermission::Unknown => ConversationPermission::Unknown,
            ConversationPermission::PlatformNative(name) => ConversationPermission::PlatformNative(
                name.clone(),
            ),
        }
    }
}

/// A number for each permission that has no name.
spec fn permission_code(permission: PermissionView) -> int {
    match permission {
        PermissionView::SendMessages => 0,
        PermissionView::SendMedia => 1,
        PermissionView::SendPolls => 2,
        PermissionView::SendReactions => 3,
        PermissionView::AddMembers => 4,
        PermissionView::RemoveMembers => 5,
        PermissionView::BanMembers => 6,
        PermissionView::PinMessages => 7,
        PermissionView::ManageMessages => 8,
        PermissionView::ManageThreads => 9,
        PermissionView::ManageProfile => 10,
        PermissionView::ManageInvites => 11,
        PermissionView::ManageRoles => 12,
        PermissionView::ManageTags => 13,
        PermissionView::EditOwnTag => 14,
        PermissionView::ManageCalls => 15,
        PermissionView::Unknown => 16,
        PermissionView::PlatformNative(_) => 17,
    }
}

fn code_of(permission: &ConversationPermission) -> (code: u8)
    ensures
        code == permission_code(permission@),
{
    match permission {
        ConversationPermission::SendMessages => 0,
        ConversationPermission::SendMedia => 1,
        ConversationPermission::SendPolls => 2,
        ConversationPermission::SendReactions => 3,
        ConversationPermission::AddMembers => 4,
        ConversationPermission::RemoveMembers => 5,
        ConversationPermission::BanMembers => 6,
        ConversationPermission::PinMessages => 7,
        ConversationPermission::ManageMessages => 8,
        ConversationPermission::ManageThreads => 9,
        ConversationPermission::ManageProfile => 10,
        ConversationPermission::ManageInvites => 11,
        ConversationPermission::ManageRoles => 12,
        ConversationPermission::ManageTags => 13,
        ConversationPermission::EditOwnTag => 14,
        ConversationPermission::ManageCalls => 15,
        ConversationPermission::Unknown => 16,
        ConversationPermission::PlatformNative(_) => 17,
    }
}

/// Whether two permissions are the same.
pub fn same_permission(a: &ConversationPermission, b: &ConversationPermission) -> (equal: bool)
    ensures
        equal == (a@ == b@),
{
    match (a, b) {
        (
            ConversationPermission::PlatformNative(x),
            ConversationPermission::PlatformNative(y),
        ) => same(x.as_str(), y.as_str()),
        _ => code_of(a) == code_of(b),
    }
}

/// A set of permissions, as a list in which the order does not matter and
/// nothing has to stand twice.
pub open spec fn permission_set(list: Seq<ConversationPermission>) -> Set<PermissionView> {
    Set::new(
        |p: PermissionView| exists|i: int| 0 <= i < list.len() && (#[trigger] list[i])@ == p,
    )
}

/// Whether the set holds the permission.
pub fn holds_permission(list: &Vec<ConversationPermission>, permission: &ConversationPermission) -> (found:
    bool)
    ensures
        found == permission_set(list@).contains(permission@),
{
    let mut i: usize = 0;
    while i < list.len()
        invariant
            i <= list@.len(),
            forall|j: int| 0 <= j < i ==> (#[trigger] list@[j])@ != permission@,
        decreases list@.len() - i,
    {
        if same_permission(&list[i], permission) {
            assert(list@[i as int]@ == permission@);
            return true;
        }
        i += 1;
    }
    false
}

/// Adds a permission to the set, unless it is there.
pub fn add_permission(list: &mut Vec<ConversationPermission>, permission: ConversationPermission)
    ensures
        permission_set(final(list)@) == permission_set(old(list)@).insert(permission@),
{
    if holds_permission(list, &permission) {
        assert(permission_set(list@) =~= permission_set(old(list)@).insert(permission@));
        return ;
    }
    list.push(permission);
    proof {
        let before = old(list)@;
        let after = list@;
        assert(after[before.len() as int] == permission);
        assert forall|p: PermissionView| permission_set(before).contains(p) implies permission_set(
            after,
        ).contains(p) by {
            let i = choose|i: int| 0 <= i < before.len() && (#[trigger] before[i])@ == p;
            assert(after[i]@ == p);
        }
        assert forall|p: PermissionView| #[trigger] permission_set(after).contains(p) implies p
            == permission@ || permission_set(before).contains(p) by {
            let i = choose|i: int| 0 <= i < after.len() && (#[trigger] after[i])@ == p;
            if i < before.len() {
                assert(before[i]@ == p);
            }
        }
        assert(permission_set(after) =~= permission_set(before).insert(permission@));
    }
}

#[derive(Debug, PartialEq)]
pub struct PermissionSet {
    pub allow: Vec<ConversationPermission>,
    pub deny: Vec<ConversationPermission>,
}

/// What a set of permissions allows and denies.
#[verifier::ext_equal]
pub struct PermissionSetView {
    pub allow: Set<PermissionView>,
    pub deny: Set<PermissionView>,
}

impl View for PermissionSet {
    type V = PermissionSetView;

    open spec fn view(&self) -> PermissionSetView {
        PermissionSetView {
            allow: permission_set(self.allow@),
            deny: permission_set(self.deny@),
        }
    }
}

fn copy_permissions(list: &Vec<ConversationPermission>) -> (copy: Vec<ConversationPermission>)
    ensures
        permission_set(copy@) == permission_set(list@),
{
    let mut copy: Vec<ConversationPermission> = Vec::new();
    let mut i: usize = 0;
    while i < list.len()
        invariant
            i <= list@.len(),
            copy@.len() == i,
            forall|j: int| 0 <= j < i ==> (#[trigger] copy@[j])@ == list@[j]@,
        decreases list@.len() - i,
    {
        copy.push(list[i].clone());
        i += 1;
    }
    proof {
        assert forall|p: PermissionView| permission_set(list@).contains(p) implies permission_set(
            copy@,
        ).contains(p) by {
            let k = choose|k: int| 0 <= k < list@.len() && (#[trigger] list@[k])@ == p;
            assert(copy@[k]@ == p);
        }
        assert forall|p: PermissionView| #[trigger] permission_set(copy@).contains(p) implies permission_set(
            list@,
        ).contains(p) by {
            let k = choose|k: int| 0 <= k < copy@.len() && (#[trigger] copy@[k])@ == p;
            assert(list@[k]@ == p);
        }
        assert(permission_set(copy@) =~= permission_set(list@));
    }
    copy
}

impl Clone for PermissionSet {
    fn clone(&self) -> (res: Self)
        ensures
            res@ == self@,
    {
        PermissionSet { allow: copy_permissions(&self.allow), deny: copy_permissions(&self.deny) }
    }
}

#[derive(Debug, PartialEq)]
pub struct RoleRef {
    pub id: String,
    pub name: Option<String>,
    pub permissions: PermissionSet,
}

#[derive(Debug, PartialEq)]
pub struct ConversationMember {
    pub user: User,
    pub roles: Vec<RoleRef>,
    pub permissions: PermissionSet,
    /// A point in time, in seconds since the epoch.
    pub joined_at: Option<i64>,
    pub nickname: Option<String>,
    pub tag: Option<String>,
    pub platform_data: Option<PlatformNativeData>,
}

/// A user asks to join a conversation.
#[derive(Debug, PartialEq)]
pub struct JoinRequest {
    pub id: String,
    pub conversation: ConversationRef,
    pub user: User,
    pub message: Option<String>,
    /// A point in time, in seconds since the epoch.
    pub requested_at: Option<i64>,
    pub platform_data: Option<PlatformNativeData>,
}

#[derive(Debug, PartialEq)]
pub struct InviteLinkOptions {
    pub name: Option<String>,
    /// A point in time, in seconds since the epoch.
    pub expires_at: Option<i64>,
    pub max_uses: Option<u32>,
    pub require_approval: bool,
    pub temporary_membership: bool,
    pub subscription_price: Option<Money>,
    pub platform_data: Option<PlatformNativeData>,
}

#[derive(Debug, PartialEq)]
pub struct InviteLink {
    pub id: String,
    pub url: String,
    pub conversation: ConversationRef,
    pub creator: Option<User>,
    pub options: InviteLinkOptions,
    pub use_count: Option<u64>,
    pub revoked: bool,
    pub platform_data: Option<PlatformNativeData>,
}

#[derive(Debug, PartialEq)]
pub struct PageRequest {
    pub cursor: Option<String>,
    pub limit: Option<u32>,
}

#[derive(Debug, PartialEq)]
pub struct Page<T> {
    pub items: Vec<T>,
    pub next_cursor: Option<String>,
    pub previous_cursor: Option<String>,
    pub total: Option<u64>,
}

/// A page that is the only one.
pub open spec fn is_only_page<T>(page: Page<T>) -> bool {
    &&& page.next_cursor is None
    &&& page.previous_cursor is None
    &&& page.total is None
}

#[derive(Debug, PartialEq)]
pub enum ThreadState {
    Open,
    Closed,
    Archived,
    Hidden,
    Deleted,
    PlatformNative(String),
}

#[derive(Debug, PartialEq)]
pub struct Thread {
    pub conversation: ConversationRef,
    pub title: Option<String>,
    pub creator: Option<User>,
    pub state: ThreadState,
    /// Points in time, in seconds since the epoch.
    pub created_at: Option<i64>,
    pub auto_close_at: Option<i64>,
    pub platform_data: Option<PlatformNativeData>,
}

#[derive(Debug, PartialEq)]
pub struct ThreadOptions {
    pub title: Option<String>,
    pub auto_close_after: Option<Duration>,
    pub invitable: Option<bool>,
    pub slow_mode: Option<Duration>,
    pub icon: Option<String>,
    pub platform_data: Option<PlatformNativeData>,
}

#[derive(Debug, PartialEq)]
pub struct ConversationProfile {
    pub name: Option<String>,
    pub username: Option<String>,
    pub description: Option<String>,
    pub avatar: Option<File>,
    pub member_count: Option<u64>,
    pub kind: Option<ConversationKind>,
    pub parent: Option<ConversationRef>,
    pub default_permissions: Option<PermissionSet>,
    pub slow_mode: Option<Duration>,
    pub archived: Option<bool>,
    /// A point in time, in seconds since the epoch.
    pub created_at: Option<i64>,
    pub locale: Option<String>,
    pub metadata: Fields,
    pub platform_data: Option<PlatformNativeData>,
}

} // verus!
