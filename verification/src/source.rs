//! Files, users and groups, independent of the platform.
use crate::content::Real;
use crate::json;
use crate::json::{Json, JsonView};
use crate::uri;
use crate::uri::{Uri, UriView};
use vstd::prelude::*;

verus! {

/// A file: known by an id, found at an address, or carried as base64.
#[derive(Debug, PartialEq)]
pub struct File {
    pub id: Option<String>,
    pub name: String,
    pub uri: Option<Uri>,
    pub base64: Option<String>,
    pub mime: Option<String>,
    pub size: Option<u64>,
}

/// What is known of a file.
#[verifier::ext_equal]
pub struct FileView {
    pub id: Option<Seq<char>>,
    pub name: Seq<char>,
    pub uri: Option<UriView>,
    pub base64: Option<Seq<char>>,
    pub mime: Option<Seq<char>>,
    pub size: Option<u64>,
}

impl View for File {
    type V = FileView;

    open spec fn view(&self) -> FileView {
        FileView {
            id: json::optional_chars(self.id),
            name: self.name@,
            uri: uri::uri_view(self.uri),
            base64: json::optional_chars(self.base64),
            mime: json::optional_chars(self.mime),
            size: self.size,
        }
    }
}

/// A file of which only the id is known.
pub open spec fn file_by_id(id: Seq<char>) -> FileView {
    FileView {
        id: Some(id),
        name: Seq::empty(),
        uri: None,
        base64: None,
        mime: None,
        size: None,
    }
}

/// A file of which only the id is known.
pub fn make_file_by_id(id: String) -> (file: File)
    ensures
        file@ == file_by_id(id@),
{
    let name = String::new();
    assert(name@ =~= Seq::<char>::empty());
    File { id: Some(id), name, uri: None, base64: None, mime: None, size: None }
}

/// What is known of a file, where there is one.
pub open spec fn optional_file(file: Option<File>) -> Option<FileView> {
    match file {
        Some(file) => Some(file@),
        None => None,
    }
}

#[derive(Debug, PartialEq)]
pub struct User {
    pub id: String,
    pub profile: Option<UserProfile>,
    pub group_info: Option<UserGroupInfo>,
}

#[derive(Debug, Clone, Copy, PartialEq, Eq, Structural)]
pub enum Role {
    Owner,
    Admin,
    Member,
    Guest,
    Unknown,
}

#[derive(Debug, PartialEq)]
pub struct UserGroupInfo {
    pub alias: Option<String>,
    pub role: Option<Role>,
    /// Points in time, in seconds since the epoch.
    pub join_time: Option<i64>,
    pub last_active_time: Option<i64>,
    pub level: Option<String>,
}

#[derive(Debug, Clone, Copy, PartialEq, Eq, Structural)]
pub enum Sex {
    Male,
    Female,
    Other,
    Unknown,
}

#[derive(Debug, PartialEq)]
pub struct UserProfile {
    pub nickname: Option<String>,
    pub sex: Option<Sex>,
    pub age: Option<u64>,
    pub avatar: Option<Uri>,
    pub email: Option<String>,
    pub phone: Option<String>,
    pub signature: Option<String>,
    pub level: Option<String>,
}

#[derive(Debug, PartialEq)]
pub struct Group {
    pub id: String,
    pub profile: Option<GroupProfile>,
}

#[derive(Debug, PartialEq)]
pub struct GroupProfile {
    pub name: Option<String>,
    pub avatar: Option<Uri>,
    pub member_count: Option<u64>,
}

/// What is known of a user's profile.
#[verifier::ext_equal]
pub struct UserProfileView {
    pub nickname: Option<Seq<char>>,
    pub sex: Option<Sex>,
    pub age: Option<u64>,
    pub avatar: Option<UriView>,
    pub email: Option<Seq<char>>,
    pub phone: Option<Seq<char>>,
    pub signature: Option<Seq<char>>,
    pub level: Option<Seq<char>>,
}

/// What is known of a user in a group.
#[verifier::ext_equal]
pub struct UserGroupView {
    pub alias: Option<Seq<char>>,
    pub role: Option<Role>,
    pub join_time: Option<i64>,
    pub last_active_time: Option<i64>,
    pub level: Option<Seq<char>>,
}

/// What is known of a user.
#[verifier::ext_equal]
pub struct UserView {
    pub id: Seq<char>,
    pub profile: Option<UserProfileView>,
    pub group_info: Option<UserGroupView>,
}

impl View for User {
    type V = UserView;

    open spec fn view(&self) -> UserView {
        UserView {
            id: self.id@,
            profile: match self.profile {
                Some(profile) => Some(
                    UserProfileView {
                        nickname: json::optional_chars(profile.nickname),
                        sex: profile.sex,
                        age: profile.age,
                        avatar: uri::uri_view(profile.avatar),
                        email: json::optional_chars(profile.email),
                        phone: json::optional_chars(profile.phone),
                        signature: json::optional_chars(profile.signature),
                        level: json::optional_chars(profile.level),
                    },
                ),
                None => None,
            },
            group_info: match self.group_info {
                Some(info) => Some(
                    UserGroupView {
                        alias: json::optional_chars(info.alias),
                        role: info.role,
                        join_time: info.join_time,
                        last_active_time: info.last_active_time,
                        level: json::optional_chars(info.level),
                    },
                ),
                None => None,
            },
        }
    }
}

/// A user of whom only the id and the nickname are known.
pub open spec fn plain_user(id: Seq<char>, nickname: Option<Seq<char>>) -> UserView {
    UserView {
        id,
        profile: Some(
            UserProfileView {
                nickname,
                sex: None,
                age: None,
                avatar: None,
                email: None,
                phone: None,
                signature: None,
                level: None,
            },
        ),
        group_info: None,
    }
}

/// What is known of a group.
#[verifier::ext_equal]
pub struct GroupView {
    pub id: Seq<char>,
    pub profile: Option<(Option<Seq<char>>, Option<UriView>, Option<u64>)>,
}

impl View for Group {
    type V = GroupView;

    open spec fn view(&self) -> GroupView {
        GroupView {
            id: self.id@,
            profile: match self.profile {
                Some(profile) => Some(
                    (
                        json::optional_chars(profile.name),
                        uri::uri_view(profile.avatar),
                        profile.member_count,
                    ),
                ),
                None => None,
            },
        }
    }
}

/// A group of which only the id and the name are known.
pub open spec fn plain_group(id: Seq<char>, name: Option<Seq<char>>) -> GroupView {
    GroupView { id, profile: Some((name, None, None)) }
}

/// A message in the older form: a list of segments.
#[derive(Debug, PartialEq)]
pub struct Message {
    pub id: String,
    pub segments: Vec<MessageSegment>,
}

#[allow(inconsistent_fields)]
#[derive(Debug, PartialEq)]
pub enum MessageSegment {
    Text { content: String },
    Image { file: Option<File> },
    Video { file: Option<File>, length: Option<i32> },
    Audio { file: Option<File>, length: Option<i32> },
    File { file: Option<File> },
    Reply { message_id: String },
    At { user_id: String },
    AtAll,
    Reference { message_id: String },
    Share { title: String, content: Option<String>, url: String, image: Option<File> },
    Location { latitude: Real, longitude: Real, title: String, content: Option<String> },
    Emoji { id: String },
    ForwardNode { message_id: String },
    ForwardCustomNode { user: Option<User>, message: Message },
    CustomString { kind: String, data: String },
    CustomValue { kind: String, data: Json },
}

/// What a segment says.
#[verifier::ext_equal]
pub enum SegmentView {
    Text(Seq<char>),
    Image(Option<FileView>),
    Video(Option<FileView>, Option<i32>),
    Audio(Option<FileView>, Option<i32>),
    File(Option<FileView>),
    Reply(Seq<char>),
    At(Seq<char>),
    AtAll,
    Reference(Seq<char>),
    Share(Seq<char>, Option<Seq<char>>, Seq<char>, Option<FileView>),
    Location(Real, Real, Seq<char>, Option<Seq<char>>),
    Emoji(Seq<char>),
    ForwardNode(Seq<char>),
    ForwardCustomNode,
    CustomString(Seq<char>, Seq<char>),
    CustomValue(Seq<char>, JsonView),
}

impl View for MessageSegment {
    type V = SegmentView;

    open spec fn view(&self) -> SegmentView {
        match *self {
            MessageSegment::Text { content } => SegmentView::Text(content@),
            MessageSegment::Image { file } => SegmentView::Image(optional_file(file)),
            MessageSegment::Video { file, length } => SegmentView::Video(
                optional_file(file),
                length,
            ),
            MessageSegment::Audio { file, length } => SegmentView::Audio(
                optional_file(file),
                length,
            ),
            MessageSegment::File { file } => SegmentView::File(optional_file(file)),
            MessageSegment::Reply { message_id } => SegmentView::Reply(message_id@),
            MessageSegment::At { user_id } => SegmentView::At(user_id@),
            MessageSegment::AtAll => SegmentView::AtAll,
            MessageSegment::Reference { message_id } => SegmentView::Reference(message_id@),
            MessageSegment::Share { title, content, url, image } => SegmentView::Share(
                title@,
                json::optional_chars(content),
                url@,
                optional_file(image),
            ),
            MessageSegment::Location {
                latitude,
                longitude,
                title,
                content,
            } => SegmentView::Location(latitude, longitude, title@, json::optional_chars(content)),
            MessageSegment::Emoji { id } => SegmentView::Emoji(id@),
            MessageSegment::ForwardNode { message_id } => SegmentView::ForwardNode(message_id@),
            MessageSegment::ForwardCustomNode { .. } => SegmentView::ForwardCustomNode,
            MessageSegment::CustomString { kind, data } => SegmentView::CustomString(kind@, data@),
            MessageSegment::CustomValue { kind, data } => SegmentView::CustomValue(kind@, data@),
        }
    }
}

/// What a list of segments says.
pub open spec fn segments_view(segments: Seq<MessageSegment>) -> Seq<SegmentView> {
    Seq::new(segments.len(), |i: int| segments[i]@)
}

} // verus!
