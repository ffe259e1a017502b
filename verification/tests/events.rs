//! Updates as events.
use telegram_bot_oxidebot::api::interactions::{answer_interaction, telegram_interaction_message_ref};
use telegram_bot_oxidebot::client::Update;
use telegram_bot_oxidebot::content::Duration;
use telegram_bot_oxidebot::conversation::ConversationKind;
use telegram_bot_oxidebot::document::{encode, parse};
use telegram_bot_oxidebot::event::{
    find_origin, parse_update, remaining_duration, Decoded, Event, GroupAdminChangeType,
    GroupMemberDecreaseReason, GroupMemberIncreseReason, InteractionKind, MuteType, NoticeEvent,
};
use telegram_bot_oxidebot::interaction::InteractionResponse;
use telegram_bot_oxidebot::json::{Fields, Json};
use telegram_bot_oxidebot::source::MessageSegment;
use telegram_bot_oxidebot::telegram::{
    CallbackQuery, Chat, ChatJoinRequest, ChatMember, ChatMemberUpdated, Message,
    MessageReactionUpdated, ReactionType, User,
};

fn members(text: &str) -> Fields {
    match parse(text).unwrap() {
        Json::Object(members) => members,
        other => panic!("not an object: {other:?}"),
    }
}

fn update(update_id: i64, data: &str) -> Update {
    Update { update_id, data: members(data) }
}

fn message() -> Message {
    Message {
        message_id: 0,
        date: 0,
        chat: chat(0, "private", None),
        from: None,
        sender_chat: None,
        text: None,
        entities: None,
        photo: None,
        animation: None,
        audio: None,
        video: None,
        video_note: None,
        document: None,
        sticker: None,
        voice: None,
        caption: None,
        caption_entities: None,
        venue: None,
        location: None,
        new_chat_members: None,
        left_chat_member: None,
        rich_message: None,
        live_photo: None,
        paid_media: None,
        story: None,
        contact: None,
        extra: Fields::new(),
    }
}

fn chat(id: i64, kind: &str, title: Option<&str>) -> Chat {
    Chat {
        id,
        kind: kind.to_owned(),
        title: title.map(str::to_owned),
        username: None,
        first_name: None,
        last_name: None,
    }
}

fn user(id: i64, first_name: &str) -> User {
    User {
        id,
        is_bot: false,
        first_name: first_name.to_owned(),
        last_name: None,
        username: None,
    }
}

fn member(status: &str) -> ChatMember {
    ChatMember {
        status: status.to_owned(),
        user: user(2, "Member"),
        is_member: None,
        can_send_messages: None,
        until_date: None,
        custom_title: None,
        tag: None,
        extra: Fields::new(),
    }
}

fn change(old_chat_member: ChatMember, new_chat_member: ChatMember) -> ChatMemberUpdated {
    ChatMemberUpdated {
        chat: chat(-100, "supergroup", Some("Group")),
        from: user(1, "Admin"),
        date: 1,
        old_chat_member,
        new_chat_member,
        via_join_request: None,
        via_chat_folder_invite_link: None,
    }
}

fn member_events(change: ChatMemberUpdated) -> Vec<Event> {
    let update = update(3, r#"{"chat_member": {"date": 1}}"#);
    parse_update(&update, Decoded::Member(change), 1000)
}

#[test]
fn bot_api_10_2_subscription_is_forwarded_raw() {
    let update = update(1, r#"{"subscription": {"currency": "XTR"}}"#);
    let events = parse_update(&update, Decoded::Nothing, 0);
    let Event::AnyEvent(event) = &events[0] else {
        panic!("expected raw event")
    };
    assert_eq!(event.kind, "subscription");
    assert_eq!(event.server, "telegram");
    assert_eq!(event.data.update_id, 1);
    assert_eq!(event.data.kind, "subscription");
    assert_eq!(encode(&event.data.data).unwrap(), r#"{"currency":"XTR"}"#);
}

#[test]
fn channel_post_uses_sender_chat_instead_of_being_dropped() {
    let update = update(
        2,
        r#"{"channel_post": {
            "message_id": 7,
            "date": 1,
            "chat": {"id": -100, "type": "channel", "title": "News"},
            "sender_chat": {"id": -100, "type": "channel", "title": "News"},
            "text": "hello"
        }}"#,
    );
    let mut post = message();
    post.message_id = 7;
    post.date = 1;
    post.chat = chat(-100, "channel", Some("News"));
    post.sender_chat = Some(chat(-100, "channel", Some("News")));
    post.text = Some("hello".to_owned());
    let events = parse_update(&update, Decoded::Message(post), 0);
    let Event::MessageEvent(event) = &events[0] else {
        panic!("expected message event")
    };
    assert_eq!(event.sender.id, "-100");
    assert_eq!(
        event.message.segments,
        vec![MessageSegment::Text { content: "hello".to_owned() }]
    );
    assert_eq!(event.id, "-100_7");
    assert_eq!(event.time, Some(1));
    assert_eq!(event.group.as_ref().unwrap().id, "-100");
}

#[test]
fn kicked_member_is_target_not_the_operator() {
    let events = member_events(change(member("member"), member("kicked")));
    let Event::NoticeEvent(NoticeEvent::GroupMemberDecreaseEvent { user, reason, .. }) =
        &events[0]
    else {
        panic!("expected decrease event")
    };
    assert_eq!(user.id, "2");
    let GroupMemberDecreaseReason::Kick { operator } = reason else {
        panic!("expected kick reason")
    };
    assert_eq!(operator.as_ref().unwrap().id, "1");
}

#[test]
fn expired_mute_duration_never_wraps_to_u64_max() {
    let none = Some(Duration { seconds: 0, nanoseconds: 0 });
    assert_eq!(remaining_duration(Some(1), 1_700_000_000), none);
    assert_eq!(remaining_duration(Some(1), i64::MAX), none);
    assert_eq!(
        remaining_duration(Some(25), 10),
        Some(Duration { seconds: 15, nanoseconds: 0 })
    );
    assert_eq!(
        remaining_duration(Some(i64::MAX), i64::MIN),
        Some(Duration { seconds: i64::MAX as u64, nanoseconds: 0 })
    );
    assert_eq!(remaining_duration(Some(0), 10), None);
    assert_eq!(remaining_duration(None, 10), None);
}

#[test]
fn join_request_id_contains_chat_and_user() {
    let update = update(4, r#"{"chat_join_request": {"user_chat_id": 2, "date": 1}}"#);
    let request = ChatJoinRequest {
        chat: chat(-100, "supergroup", Some("Group")),
        from: user(2, "User"),
        user_chat_id: 2,
        bio: None,
        date: 1,
        query_id: None,
    };
    let events = parse_update(&update, Decoded::JoinRequest(request), 0);
    let Event::RequestEvent(event) = &events[0] else {
        panic!("expected join request")
    };
    assert_eq!(event.id, "-100:2");
}

#[test]
fn known_update_with_no_common_semantic_mapping_is_not_dropped() {
    let update = update(
        6,
        r#"{"chat_member": {"new_chat_member": {"can_delete_messages": true}}}"#,
    );
    let mut before = member("administrator");
    before.extra = members(r#"{"can_delete_messages": false}"#);
    let mut now = member("administrator");
    now.extra = members(r#"{"can_delete_messages": true}"#);
    let events = parse_update(&update, Decoded::Member(change(before, now)), 0);
    assert_eq!(events.len(), 1);
    let Event::AnyEvent(event) = &events[0] else {
        panic!("expected a raw fallback event")
    };
    assert_eq!(event.kind, "chat_member");
}

#[test]
fn administrator_title_change_maps_to_alias_event() {
    let mut before = member("administrator");
    before.custom_title = Some("old".to_owned());
    let mut now = member("administrator");
    now.custom_title = Some("new".to_owned());
    let events = member_events(change(before, now));
    let Event::NoticeEvent(NoticeEvent::GroupMemberAliasChangeEvent {
        old_alias, new_alias, ..
    }) = &events[0]
    else {
        panic!("expected an alias change event")
    };
    assert_eq!(old_alias.as_deref(), Some("old"));
    assert_eq!(new_alias.as_deref(), Some("new"));
}

#[test]
fn members_come_and_go_for_a_reason() {
    let mut approved = change(member("left"), member("member"));
    approved.via_join_request = Some(true);
    match &member_events(approved)[0] {
        Event::NoticeEvent(NoticeEvent::GroupMemberIncreseEvent { reason, .. }) => {
            assert!(matches!(reason, GroupMemberIncreseReason::Approve { .. }));
        }
        other => panic!("unexpected {other:?}"),
    }
    match &member_events(change(member("left"), member("member")))[0] {
        Event::NoticeEvent(NoticeEvent::GroupMemberIncreseEvent { reason, .. }) => {
            assert!(matches!(reason, GroupMemberIncreseReason::Invite { .. }));
        }
        other => panic!("unexpected {other:?}"),
    }
    let mut alone = change(member("member"), member("left"));
    alone.from = user(2, "Member");
    match &member_events(alone)[0] {
        Event::NoticeEvent(NoticeEvent::GroupMemberDecreaseEvent { reason, .. }) => {
            assert_eq!(reason, &GroupMemberDecreaseReason::Leave);
        }
        other => panic!("unexpected {other:?}"),
    }
}

#[test]
fn ranks_and_mutes_are_announced() {
    let events = member_events(change(member("member"), member("administrator")));
    let Event::NoticeEvent(NoticeEvent::GroupAdminChangeEvent { change: rank, user, .. }) =
        &events[0]
    else {
        panic!("expected a change of rank")
    };
    assert_eq!(*rank, GroupAdminChangeType::Appointed);
    assert_eq!(user.id, "2");

    let mut muted = member("restricted");
    muted.can_send_messages = Some(false);
    muted.until_date = Some(1060);
    let events = member_events(change(member("member"), muted));
    let Event::NoticeEvent(NoticeEvent::GroupMemberMuteChangeEvent { mute, operator, .. }) =
        &events[0]
    else {
        panic!("expected a mute")
    };
    assert_eq!(
        *mute,
        MuteType::Mute { duration: Some(Duration { seconds: 60, nanoseconds: 0 }) }
    );
    assert_eq!(operator.as_ref().unwrap().id, "1");
}

#[test]
fn updates_that_cannot_be_read_are_handed_on() {
    let update = update(9, r#"{"message": {"odd": true}}"#);
    let events = parse_update(&update, Decoded::Nothing, 0);
    let Event::AnyEvent(event) = &events[0] else {
        panic!("expected raw event")
    };
    assert_eq!(event.kind, "message");
    assert_eq!(encode(&event.data.data).unwrap(), r#"{"odd":true}"#);

    let empty = Update { update_id: 10, data: Fields::new() };
    let events = parse_update(&empty, Decoded::Nothing, 0);
    let Event::AnyEvent(event) = &events[0] else {
        panic!("expected raw event")
    };
    assert_eq!(event.kind, "unknown");
    assert_eq!(event.data.data, Json::Null);
}

#[test]
fn members_in_a_message_are_announced() {
    let update = update(11, r#"{"message": {}}"#);
    let mut joined = message();
    joined.message_id = 5;
    joined.chat = chat(-7, "group", Some("Group"));
    joined.from = Some(user(1, "Admin"));
    joined.new_chat_members = Some(vec![user(2, "A"), user(3, "B")]);
    joined.left_chat_member = Some(user(4, "C"));
    let events = parse_update(&update, Decoded::Message(joined), 0);
    assert_eq!(events.len(), 3);
    let Event::NoticeEvent(NoticeEvent::GroupMemberIncreseEvent { user, .. }) = &events[1] else {
        panic!("expected an increase")
    };
    assert_eq!(user.id, "3");
    let Event::NoticeEvent(NoticeEvent::GroupMemberDecreaseEvent { user, reason, .. }) =
        &events[2]
    else {
        panic!("expected a decrease")
    };
    assert_eq!(user.id, "4");
    assert_eq!(reason, &GroupMemberDecreaseReason::Unknown);
}

#[test]
fn edits_and_reactions_are_announced() {
    let edited = update(12, r#"{"edited_message": {}}"#);
    let mut changed = message();
    changed.message_id = 8;
    changed.chat = chat(5, "private", None);
    changed.from = Some(user(5, "Ann"));
    changed.text = Some("again".to_owned());
    let events = parse_update(&edited, Decoded::Message(changed), 0);
    let Event::NoticeEvent(NoticeEvent::MessageEditedEvent {
        user: editor,
        edited_in,
        new_message,
        ..
    }) = &events[0]
    else {
        panic!("expected an edit")
    };
    assert_eq!(editor.id, "5");
    assert!(edited_in.is_none());
    assert_eq!(new_message.as_ref().unwrap().id, "5_8");

    let reacted = update(13, r#"{"message_reaction": {}}"#);
    let reaction = MessageReactionUpdated {
        chat: chat(-7, "group", None),
        message_id: 9,
        user: None,
        actor_chat: Some(chat(-8, "channel", Some("News"))),
        old_reaction: vec![],
        new_reaction: vec![ReactionType {
            kind: "emoji".to_owned(),
            emoji: Some("\u{1f44d}".to_owned()),
            custom_emoji_id: None,
        }],
    };
    let events = parse_update(&reacted, Decoded::Reaction(reaction), 0);
    let Event::NoticeEvent(NoticeEvent::MessageReactionsEvent { user, message, reactions, .. }) =
        &events[0]
    else {
        panic!("expected reactions")
    };
    assert_eq!(user.id, "-8");
    assert_eq!(message.id, "-7_9");
    assert_eq!(reactions, &vec!["\u{1f44d}".to_owned()]);
}

#[test]
fn pressed_buttons_can_be_answered() {
    let pressed = update(14, r#"{"callback_query": {"id": "q", "data": "confirm"}}"#);
    let mut under = message();
    under.message_id = 31;
    under.chat = chat(-100, "supergroup", Some("Group"));
    under.text = Some("Choose".to_owned());
    under.extra = members(r#"{"business_connection_id": "c"}"#);
    let query = CallbackQuery {
        id: "q".to_owned(),
        from: user(42, "Ann"),
        message: Some(under),
        inline_message_id: None,
        chat_instance: "i".to_owned(),
        data: Some("confirm".to_owned()),
        game_short_name: None,
    };
    let mut events = parse_update(&pressed, Decoded::Callback(query), 0);
    let Some(Event::InteractionEvent(event)) = events.pop() else {
        panic!("expected an interaction")
    };
    assert!(events.is_empty());
    assert_eq!(event.kind, InteractionKind::Button);
    assert_eq!(event.action_id.as_deref(), Some("confirm"));
    assert_eq!(event.user.id, "42");
    assert_eq!(event.group.unwrap().id, "-100");
    assert_eq!(event.message.unwrap().id, "-100_31");
    assert_eq!(encode(&event.data).unwrap(), r#"{"data":"confirm","id":"q"}"#);

    let handle = event.response.unwrap();
    let found = telegram_interaction_message_ref(&handle).unwrap();
    assert_eq!(found.id, "31");
    assert_eq!(found.conversation.unwrap().id, "-100");
    assert_eq!(
        encode(&found.platform_data.unwrap().data).unwrap(),
        r#"{"business_connection_id":"c"}"#
    );
    let answer = answer_interaction(&handle.id, &InteractionResponse::Acknowledge).unwrap();
    assert_eq!(answer.method, "answerCallbackQuery");
    assert_eq!(answer.payload.text_at("callback_query_id"), Some("q"));
}

#[test]
fn inline_buttons_keep_their_inline_message() {
    let pressed = update(15, r#"{"callback_query": {"id": "q"}}"#);
    let query = CallbackQuery {
        id: "q".to_owned(),
        from: user(42, "Ann"),
        message: None,
        inline_message_id: Some("inline-1".to_owned()),
        chat_instance: String::new(),
        data: None,
        game_short_name: Some("chess".to_owned()),
    };
    let mut events = parse_update(&pressed, Decoded::Callback(query), 0);
    let Some(Event::InteractionEvent(event)) = events.pop() else {
        panic!("expected an interaction")
    };
    assert_eq!(event.action_id.as_deref(), Some("chess"));
    assert_eq!(event.context_id.as_deref(), Some("inline-1"));
    let found = telegram_interaction_message_ref(&event.response.unwrap()).unwrap();
    assert_eq!(found.id, "inline-1");
    assert!(found.conversation.is_none());
}

#[test]
fn choices_in_messages_are_interactions() {
    let shared = update(16, r#"{"message": {}}"#);
    let mut told = message();
    told.message_id = 3;
    told.chat = chat(42, "private", None);
    told.from = Some(user(42, "Ann"));
    told.extra = members(
        r#"{"users_shared": {"request_id": 7, "users": [{"user_id": 5}, {"user_id": 6}]},
            "chat_shared": {"request_id": 8, "chat_id": -100},
            "managed_bot_created": {"bot": {"id": 77}},
            "web_app_data": {"data": "{}", "button_text": "Open"}}"#,
    );
    let events = parse_update(&shared, Decoded::Message(told), 0);
    let found: Vec<_> = events
        .iter()
        .filter_map(|event| match event {
            Event::InteractionEvent(event) => Some((
                event.kind,
                event.action_id.as_deref(),
                event.values.iter().map(String::as_str).collect::<Vec<_>>(),
            )),
            _ => None,
        })
        .collect();
    assert_eq!(
        found,
        vec![
            (InteractionKind::Select, Some("7"), vec!["5", "6"]),
            (InteractionKind::Select, Some("8"), vec!["-100"]),
            (InteractionKind::Select, None, vec!["77"]),
            (InteractionKind::Form, Some("Open"), vec!["{}"]),
        ]
    );
    assert!(matches!(&events[0], Event::MessageEvent(_)));
}

#[test]
fn updates_tell_where_they_come_from() {
    let origin = find_origin(&update(
        5,
        r#"{"message":{"message_id":1,"date":1000,"chat":{"id":-100,"type":"supergroup"}}}"#,
    ));
    assert_eq!(origin.id, "5");
    assert_eq!(origin.occurred_at, Some(1000));
    let conversation = origin.conversation.unwrap();
    assert_eq!(conversation.id, "-100");
    assert_eq!(conversation.kind, ConversationKind::Group);
    assert_eq!(
        encode(&origin.raw).unwrap(),
        r#"{"message":{"chat":{"id":-100,"type":"supergroup"},"date":1000,"message_id":1},"update_id":5}"#
    );
    let pressed = find_origin(&update(
        6,
        r#"{"callback_query":{"id":"c","message":{"date":2000,"chat":{"id":7,"type":"private"}}}}"#,
    ));
    assert_eq!(pressed.occurred_at, Some(2000));
    assert_eq!(pressed.conversation.unwrap().kind, ConversationKind::Direct);
    let bare = find_origin(&update(7, r#"{"poll":{"id":"p"}}"#));
    assert_eq!(bare.occurred_at, None);
    assert_eq!(bare.conversation, None);
    assert_eq!(find_origin(&update(8, "{}")).id, "8");
}
