//! Messages with all that they carry, and what updates tell beside the events.
use telegram_bot_oxidebot::api::rich_text::telegram_rich_text_entities;
use telegram_bot_oxidebot::client::Update;
use telegram_bot_oxidebot::collaboration::Reaction;
use telegram_bot_oxidebot::commerce::PaymentStatus;
use telegram_bot_oxidebot::content::{Duration, MessageContent, Real, TextStyle};
use telegram_bot_oxidebot::conversation::{ConversationKind, ConversationRef, ThreadState};
use telegram_bot_oxidebot::document::parse;
use telegram_bot_oxidebot::envelope::{
    telegram_message_envelope, MessageEnvelope, MessageOrigin,
};
use telegram_bot_oxidebot::event::{find_kind, Decoded, UpdateKind};
use telegram_bot_oxidebot::json::{Fields, Json};
use telegram_bot_oxidebot::lifecycle::{
    find_happening, lifecycle_events, Happening, LifecycleEvent,
};
use telegram_bot_oxidebot::native::PlatformNativeData;
use telegram_bot_oxidebot::telegram::{
    Chat, ChatJoinRequest, ChatMember, ChatMemberUpdated, Message, PhotoSize, User,
};

const CHAT: &str = r#"{"id":-100,"type":"supergroup","title":"Room"}"#;

fn doc(text: &str) -> Json {
    parse(text).unwrap()
}

fn native(data: &str) -> Option<PlatformNativeData> {
    Some(PlatformNativeData { platform: "telegram".to_owned(), data: doc(data) })
}

fn room() -> ConversationRef {
    ConversationRef {
        id: "-100".to_owned(),
        kind: ConversationKind::Group,
        parent: None,
        platform_data: None,
    }
}

fn ann() -> User {
    User { id: 8, first_name: "Ann".to_owned(), ..Default::default() }
}

fn chat() -> Chat {
    Chat { id: -100, kind: "supergroup".to_owned(), ..Default::default() }
}

fn message() -> Message {
    Message { message_id: 5, date: 1000, chat: chat(), from: Some(ann()), ..Default::default() }
}

fn envelope(raw: &str) -> MessageEnvelope {
    telegram_message_envelope(&message(), doc(raw))
}

fn update(kind: &str, data: &str) -> Update {
    let mut members = Fields::new();
    members.insert(kind, doc(data));
    Update { update_id: 1, data: members }
}

fn events(kind: &str, data: &str) -> Vec<LifecycleEvent> {
    lifecycle_events(&update(kind, data), &Decoded::Nothing)
}

fn message_events(kind: &str, data: &str) -> Vec<LifecycleEvent> {
    lifecycle_events(&update(kind, data), &Decoded::Message(message()))
}

#[test]
fn envelopes_carry_styled_text() {
    // The clef takes two units of UTF-16 and four bytes.
    let raw = r#"{"text":"𝄞 bold https","entities":[
        {"type":"bold","offset":3,"length":4},
        {"type":"text_link","offset":8,"length":5,"url":"https://a.b"},
        {"type":"text_mention","offset":0,"length":2,"user":{"id":9}}]}"#;
    let read = envelope(raw);
    let [MessageContent::RichText(rich)] = &read.content[..] else {
        panic!("expected a styled text")
    };
    assert_eq!(rich.text, "𝄞 bold https");
    let spans: Vec<_> = rich.spans.iter().map(|span| (span.start, span.end)).collect();
    assert_eq!(spans, [(5, 9), (10, 15), (0, 4)]);
    assert_eq!(rich.spans[0].styles, [TextStyle::Bold]);
    assert_eq!(rich.spans[1].styles, [TextStyle::Link { url: "https://a.b".to_owned() }]);
    assert_eq!(rich.spans[2].styles, [TextStyle::UserMention { user_id: "9".to_owned() }]);
    assert_eq!(read.platform_data, native(raw));
    assert_eq!(read.created_at, Some(1000));
    assert_eq!(read.edited_at, None);
    assert_eq!(envelope(r#"{"edit_date":1001}"#).edited_at, Some(1001));
}

#[test]
fn read_texts_are_written_again() {
    let entities = r#"[{"length":4,"offset":3,"type":"bold"},
        {"length":2,"offset":0,"type":"custom_emoji","custom_emoji_id":"7"},
        {"length":1,"offset":3,"type":"expandable_blockquote"},
        {"length":1,"offset":1,"type":"italic"},
        {"length":9,"offset":3,"type":"code"}]"#;
    let read = envelope(&format!(r#"{{"text":"𝄞 bold","entities":{entities}}}"#));
    let [MessageContent::RichText(rich)] = &read.content[..] else {
        panic!("expected a styled text")
    };
    // An entity that cuts a character or leaves the text styles nothing.
    assert_eq!(rich.spans.len(), 3);
    let written = telegram_rich_text_entities(rich).unwrap();
    let Json::Array(wanted) = doc(entities) else { panic!("expected a list") };
    assert_eq!(written[..], wanted[..3]);
}

#[test]
fn envelopes_carry_media() {
    let mut photo = message();
    photo.photo = Some(vec![
        PhotoSize { file_id: "s".to_owned(), width: 1, height: 2, ..Default::default() },
        PhotoSize { file_id: "l".to_owned(), width: 3, height: 4, ..Default::default() },
    ]);
    let raw = doc(r#"{"caption":"see","has_media_spoiler":true}"#);
    let read = telegram_message_envelope(&photo, raw);
    let [MessageContent::Image(media)] = &read.content[..] else { panic!("expected a picture") };
    assert_eq!(media.file.id.as_deref(), Some("l"));
    assert_eq!((media.width, media.height), (Some(3), Some(4)));
    assert_eq!(media.caption.as_ref().unwrap().text, "see");
    assert!(media.spoiler);

    // An animation is a document too.
    let read = envelope(
        r#"{"animation":{"file_id":"a","width":5,"height":6,"duration":7},
            "document":{"file_id":"a"}}"#,
    );
    let [MessageContent::Animation(media)] = &read.content[..] else {
        panic!("expected an animation")
    };
    assert_eq!(media.duration, Some(Duration { seconds: 7, nanoseconds: 0 }));
    for (key, index) in
        [("audio", 0), ("video", 1), ("video_note", 2), ("document", 3), ("voice", 4)]
    {
        let read = envelope(&format!(r#"{{"{key}":{{"file_id":"f"}}}}"#));
        let found = match &read.content[..] {
            [MessageContent::Audio(_)] => 0,
            [MessageContent::Video(_)] => 1,
            [MessageContent::VideoNote(_)] => 2,
            [MessageContent::File(_)] => 3,
            [MessageContent::VoiceNote(_)] => 4,
            other => panic!("unexpected {other:?}"),
        };
        assert_eq!(found, index);
    }
    let read = envelope(r#"{"sticker":{"file_id":"s","set_name":"p","is_video":true}}"#);
    let [MessageContent::Sticker(sticker)] = &read.content[..] else {
        panic!("expected a sticker")
    };
    assert_eq!((sticker.id.as_str(), sticker.pack_id.as_deref()), ("s", Some("p")));
    assert!(sticker.video && !sticker.animated);
}

#[test]
fn envelopes_carry_other_content() {
    let read = envelope(
        r#"{"venue":{"location":{"latitude":1.5,"longitude":2},"title":"T","address":"A"},
            "location":{"latitude":1.5,"longitude":2}}"#,
    );
    let [MessageContent::Location(place)] = &read.content[..] else { panic!("expected a place") };
    assert_eq!(place.latitude, Real::Finite("1.5".to_owned()));
    assert_eq!(place.longitude, Real::Finite("2".to_owned()));
    assert_eq!((place.title.as_deref(), place.address.as_deref()), (Some("T"), Some("A")));

    let read = envelope(r#"{"contact":{"phone_number":"+1","first_name":"Bo","user_id":3}}"#);
    let [MessageContent::Contact(card)] = &read.content[..] else { panic!("expected a contact") };
    assert_eq!(card.phone_numbers[0].value, "+1");
    assert_eq!((card.first_name.as_str(), card.user_id.as_deref()), ("Bo", Some("3")));

    let read = envelope(
        r#"{"checklist":{"title":"L","others_can_add_tasks":true,"tasks":[
            {"id":1,"text":"one","completion_date":9,"completed_by_user":{"id":8}},
            {"text":"nameless"},
            {"id":2,"text":"two","completion_date":0}]}}"#,
    );
    let [MessageContent::Checklist(list)] = &read.content[..] else {
        panic!("expected a checklist")
    };
    assert_eq!(list.title.text, "L");
    assert!(list.can_add_tasks && !list.can_mark_tasks_done);
    assert_eq!(list.tasks.len(), 2);
    assert!(list.tasks[0].completed && !list.tasks[1].completed);
    assert_eq!(list.tasks[0].completed_by.as_ref().unwrap().id, "8");
    assert_eq!(list.tasks[0].completed_at, Some(9));
    assert_eq!(list.tasks[1].id.as_deref(), Some("2"));

    // What has no form of its own is kept as it is, and a flawed poll is not read.
    let read = envelope(r#"{"story":{"id":4},"poll":{}}"#);
    assert_eq!(
        read.content,
        [MessageContent::PlatformNative(native(r#"{"story":{"id":4}}"#).unwrap())]
    );
    assert_eq!(telegram_message_envelope(&message(), doc("7")).content, []);
}

#[test]
fn envelopes_tell_topics() {
    let forum = envelope(r#"{"is_topic_message":true,"message_thread_id":12}"#);
    assert_eq!(forum.conversation.id, "12");
    assert_eq!(forum.conversation.kind, ConversationKind::Topic);
    assert_eq!(forum.conversation.parent.as_deref(), Some(&room()));
    assert_eq!(forum.conversation.platform_data, None);
    assert_eq!(forum.reference.conversation.as_ref(), Some(&forum.conversation));

    let direct = envelope(r#"{"direct_messages_topic":{"topic_id":13}}"#);
    assert_eq!(direct.conversation.id, "13");
    assert_eq!(
        direct.conversation.platform_data,
        native(r#"{"direct_messages_topic_id":13}"#)
    );
    // A thread of replies is no topic.
    assert_eq!(envelope(r#"{"message_thread_id":12}"#).conversation, room());
}

#[test]
fn envelopes_tell_where_messages_come_from() {
    let read = envelope(&format!(
        r#"{{"forward_origin":{{"type":"channel","chat":{CHAT},"message_id":3,
            "author_signature":"S","date":7}},"is_automatic_forward":true}}"#
    ));
    let context = read.forward_context.unwrap();
    let MessageOrigin::Conversation { conversation, message, author_signature } = context.origin
    else {
        panic!("expected a conversation")
    };
    assert_eq!(conversation, room());
    assert_eq!(message.as_ref().unwrap().id, "3");
    assert_eq!(read.forwarded_from, message);
    assert_eq!(author_signature.as_deref(), Some("S"));
    assert_eq!(context.sent_at, Some(7));
    assert!(context.automatically_forwarded);

    let origin = |text: &str| {
        let read = envelope(&format!(r#"{{"forward_origin":{text}}}"#));
        assert_eq!(read.forwarded_from, None);
        read.forward_context.unwrap().origin
    };
    let user = origin(r#"{"type":"user","sender_user":{"id":9,"username":"u"}}"#);
    assert!(matches!(user, MessageOrigin::User(user) if user.id == "9"));
    let hidden = origin(r#"{"type":"hidden_user","sender_user_name":"H"}"#);
    assert_eq!(hidden, MessageOrigin::HiddenUser { name: "H".to_owned() });
    let sent = origin(&format!(r#"{{"type":"chat","sender_chat":{CHAT}}}"#));
    assert!(matches!(sent, MessageOrigin::Conversation { conversation, message: None, .. }
        if conversation == room()));
    let other = r#"{"type":"later"}"#;
    assert_eq!(origin(other), MessageOrigin::PlatformNative(native(other).unwrap()));
    assert_eq!(envelope("{}").forward_context, None);
}

#[test]
fn envelopes_tell_what_is_answered() {
    let read = envelope(&format!(
        r#"{{"reply_to_message":{{"message_id":4,"chat":{CHAT}}},
            "quote":{{"text":"q","position":2}},
            "external_reply":{{"origin":{{"type":"hidden_user","sender_user_name":"H"}}}}}}"#
    ));
    assert_eq!(read.reply_to.as_ref().unwrap().id, "4");
    let context = read.reply_context.unwrap();
    assert_eq!(context.message, read.reply_to);
    assert_eq!(context.quote.unwrap().text, "q");
    assert_eq!(context.quote_position, Some(2));
    let hidden = MessageOrigin::HiddenUser { name: "H".to_owned() };
    assert_eq!(context.external_origin, Some(hidden));
    assert!(context.platform_data.is_some());
    assert_eq!(envelope("{}").reply_context, None);
}

#[test]
fn envelopes_tell_reactions_and_pins() {
    let read = envelope(&format!(
        r#"{{"reactions":[{{"type":{{"type":"emoji","emoji":"x"}},"total_count":3}},{{}}],
            "pinned_message":{{"message_id":2,"chat":{CHAT}}}}}"#
    ));
    assert_eq!(read.reactions.len(), 1);
    assert_eq!(read.reactions[0].reaction, Reaction::UnicodeEmoji("x".to_owned()));
    assert_eq!(read.reactions[0].count, 3);
    assert_eq!(read.pins.unwrap().id, "2");
}

#[test]
fn messages_of_every_kind_are_created_or_updated() {
    for kind in ["message", "channel_post", "business_message", "guest_message"] {
        let told = message_events(kind, r#"{"text":"t"}"#);
        assert!(matches!(&told[..], [LifecycleEvent::MessageCreated(read)]
            if read.content == [MessageContent::PlainText("t".to_owned())]));
    }
    for kind in ["edited_message", "edited_channel_post", "edited_business_message"] {
        let told = message_events(kind, r#"{"text":"t"}"#);
        assert!(matches!(&told[..], [LifecycleEvent::MessageUpdated(_)]));
    }
    assert_eq!(events("message", "{}"), []);
    for (name, kind, happening) in [
        ("channel_post", UpdateKind::NewMessage, Happening::NewMessage),
        ("edited_message", UpdateKind::EditedMessage, Happening::EditedMessage),
        ("message_reaction", UpdateKind::Reaction, Happening::Reaction),
        ("my_chat_member", UpdateKind::Member, Happening::Member),
        ("chat_join_request", UpdateKind::JoinRequest, Happening::JoinRequest),
        ("message_reaction_count", UpdateKind::Other, Happening::ReactionCount),
    ] {
        assert_eq!((find_kind(name), find_happening(name)), (kind, happening));
    }
    assert_eq!(events("later", "{}"), []);
    let empty = Update { update_id: 1, data: Fields::new() };
    assert_eq!(lifecycle_events(&empty, &Decoded::Nothing), []);
}

#[test]
fn service_messages_tell_what_happened() {
    let pinned = format!(r#"{{"pinned_message":{{"message_id":2,"chat":{CHAT}}}}}"#);
    let told = message_events("message", &pinned);
    let [LifecycleEvent::MessageCreated(_), LifecycleEvent::MessagePinned(pin)] = &told[..] else {
        panic!("unexpected {told:?}")
    };
    assert_eq!(pin.message.id, "2");
    assert_eq!(pin.pinned_by.as_ref().unwrap().id, "8");
    assert_eq!(pin.pinned_at, Some(1000));

    let told = message_events(
        "message",
        r#"{"message_thread_id":12,"forum_topic_created":{"name":"N"}}"#,
    );
    let [_, LifecycleEvent::ThreadCreated(thread)] = &told[..] else {
        panic!("unexpected {told:?}")
    };
    assert_eq!(thread.conversation.id, "12");
    assert_eq!(thread.title.as_deref(), Some("N"));
    assert_eq!(thread.created_at, Some(1000));
    assert_eq!(thread.state, ThreadState::Open);
    for (key, state) in [
        ("forum_topic_edited", ThreadState::Open),
        ("forum_topic_closed", ThreadState::Closed),
        ("forum_topic_reopened", ThreadState::Open),
    ] {
        let told =
            message_events("message", &format!(r#"{{"message_thread_id":12,"{key}":{{}}}}"#));
        let thread = match (key, &told[..]) {
            ("forum_topic_closed", [_, LifecycleEvent::ThreadClosed(thread)]) => thread,
            ("forum_topic_closed", other) => panic!("unexpected {other:?}"),
            (_, [_, LifecycleEvent::ThreadUpdated(thread)]) => thread,
            other => panic!("unexpected {other:?}"),
        };
        assert_eq!(thread.state, state);
        assert_eq!((&thread.creator, thread.created_at), (&None, None));
    }
    // Without its number a topic cannot be named.
    assert_eq!(message_events("message", r#"{"forum_topic_closed":{}}"#).len(), 1);

    let told = message_events(
        "message",
        r#"{"checklist_tasks_done":{"marked_as_done_task_ids":[1,2],
            "marked_as_not_done_task_ids":[3]},
            "checklist_tasks_added":{"tasks":[{"id":4,"text":"four"}]}}"#,
    );
    let [_, LifecycleEvent::ChecklistChanged(done), LifecycleEvent::ChecklistChanged(added)] =
        &told[..]
    else {
        panic!("unexpected {told:?}")
    };
    assert_eq!(done.completed_task_ids, ["1", "2"]);
    assert_eq!(done.reopened_task_ids, ["3"]);
    assert!(done.added_tasks.is_empty() && added.completed_task_ids.is_empty());
    assert_eq!(added.added_tasks[0].text.text, "four");

    let told = message_events("message", r#"{"web_app_data":{"data":"d"}}"#);
    let [_, LifecycleEvent::MiniApp(app)] = &told[..] else { panic!("unexpected {told:?}") };
    assert_eq!(app.user.id, "8");
    assert_eq!(app.conversation, room());
    assert_eq!(app.data, doc(r#"{"data":"d"}"#));
}

#[test]
fn payments_are_told() {
    for (key, status) in [
        ("successful_payment", PaymentStatus::Paid),
        ("refunded_payment", PaymentStatus::Refunded),
    ] {
        let raw = format!(
            r#"{{"{key}":{{"currency":"XTR","total_amount":5,"invoice_payload":"p",
                "telegram_payment_charge_id":"c"}}}}"#
        );
        let told = message_events("message", &raw);
        let [_, LifecycleEvent::PaymentUpdated(payment)] = &told[..] else {
            panic!("unexpected {told:?}")
        };
        assert_eq!((payment.id.as_str(), payment.invoice_id.as_deref()), ("c", Some("p")));
        assert_eq!((payment.total.currency.as_str(), payment.total.amount), ("XTR", 5));
        assert_eq!(payment.status, status);
        assert_eq!(payment.occurred_at, Some(1000));
    }
    assert_eq!(message_events("message", r#"{"successful_payment":{"currency":"XTR"}}"#).len(), 1);

    let asked = r#"{"id":"q","from":{"id":8},"invoice_payload":"p","currency":"XTR",
        "total_amount":5,"order_info":{"name":"N","phone_number":"+1"}}"#;
    let told = events("pre_checkout_query", asked);
    let [LifecycleEvent::CheckoutRequested(request)] = &told[..] else {
        panic!("unexpected {told:?}")
    };
    assert_eq!((request.id.as_str(), request.total.amount), ("q", 5));
    assert_eq!(request.customer_details.name.as_deref(), Some("N"));
    assert_eq!(request.customer_details.phone.as_deref(), Some("+1"));
    assert_eq!(request.platform_data, native(asked));
    assert_eq!(events("pre_checkout_query", r#"{"id":"q","from":{"id":8}}"#), []);

    let told = events(
        "shipping_query",
        r#"{"id":"s","from":{"id":8},"invoice_payload":"p","shipping_address":{"city":"C"}}"#,
    );
    let [LifecycleEvent::ShippingRequested(request)] = &told[..] else {
        panic!("unexpected {told:?}")
    };
    assert_eq!(request.address, doc(r#"{"city":"C"}"#));

    let raw = r#"{"currency":"XTR"}"#;
    assert_eq!(
        events("subscription", raw),
        [LifecycleEvent::PlatformNative(native(raw).unwrap())]
    );
}

#[test]
fn changed_reactions_are_told() {
    let raw = format!(
        r#"{{"chat":{CHAT},"message_id":4,"user":{{"id":8}},
            "old_reaction":[{{"type":"emoji","emoji":"a"}},{{"type":"paid"}}],
            "new_reaction":[{{"type":"paid"}},{{"type":"custom_emoji","custom_emoji_id":"5"}}]}}"#
    );
    let told = events("message_reaction", &raw);
    let [LifecycleEvent::ReactionsChanged { message, actor, change }] = &told[..] else {
        panic!("unexpected {told:?}")
    };
    assert_eq!(message.id, "4");
    assert_eq!(message.conversation, Some(room()));
    assert_eq!(actor.as_ref().unwrap().id, "8");
    assert_eq!(change.added, [Reaction::CustomEmoji { id: "5".to_owned(), name: None }]);
    assert_eq!(change.removed, [Reaction::UnicodeEmoji("a".to_owned())]);
    assert!(change.current.is_empty());

    let raw = format!(
        r#"{{"chat":{CHAT},"message_id":4,
            "reactions":[{{"type":{{"type":"paid"}},"total_count":2}}]}}"#
    );
    let told = events("message_reaction_count", &raw);
    let [LifecycleEvent::ReactionsChanged { actor: None, change, .. }] = &told[..] else {
        panic!("unexpected {told:?}")
    };
    assert_eq!((&change.current[0].reaction, change.current[0].count), (&Reaction::Paid, 2));
    assert_eq!(events("message_reaction", "{}"), []);
}

#[test]
fn deletions_polls_and_votes_are_told() {
    let raw = format!(r#"{{"chat":{CHAT},"message_ids":[3,"x",4]}}"#);
    let told = events("deleted_business_messages", &raw);
    let [LifecycleEvent::MessagesDeleted { conversation, messages, platform_data }] = &told[..]
    else {
        panic!("unexpected {told:?}")
    };
    assert_eq!(conversation, &room());
    let ids: Vec<_> = messages.iter().map(|message| message.id.as_str()).collect();
    assert_eq!(ids, ["3", "4"]);
    assert_eq!(messages[0].conversation, Some(room()));
    assert_eq!(platform_data, &native(&raw));
    assert_eq!(events("deleted_business_messages", "{}"), []);

    assert_eq!(events("poll", "{}"), []);
    let told = events(
        "poll",
        r#"{"id":"p","question":"Q","options":[{"text":"o","voter_count":1}],"type":"regular",
            "total_voter_count":1,"is_closed":false,"is_anonymous":true,
            "allows_multiple_answers":false}"#,
    );
    assert!(matches!(&told[..], [LifecycleEvent::PollUpdated(poll)]
        if poll.id.as_deref() == Some("p") && poll.options.len() == 1));

    let told = events(
        "poll_answer",
        r#"{"poll_id":"p","voter_chat":{"id":-7,"title":"C"},"option_ids":[0,2]}"#,
    );
    let [LifecycleEvent::PollVoteChanged { poll_id, user, option_ids, .. }] = &told[..] else {
        panic!("unexpected {told:?}")
    };
    assert_eq!(poll_id, "p");
    assert_eq!(user.as_ref().unwrap().id, "-7");
    assert_eq!(option_ids, &["0", "2"]);
}

#[test]
fn members_and_requests_are_told() {
    let member = |status: &str| ChatMember {
        status: status.to_owned(),
        user: ann(),
        ..Default::default()
    };
    let decoded = || Decoded::Member(ChatMemberUpdated {
        chat: chat(),
        from: ann(),
        date: 1000,
        old_chat_member: member("left"),
        new_chat_member: member("administrator"),
        via_join_request: None,
        via_chat_folder_invite_link: None,
    });
    let raw = r#"{"old_chat_member":{"status":"left"},
        "new_chat_member":{"status":"administrator","user":{"id":8},"custom_title":"Boss"}}"#;
    let told = lifecycle_events(&update("chat_member", raw), &decoded());
    let [LifecycleEvent::MemberUpdated { conversation, old_member: None, new_member }] = &told[..]
    else {
        panic!("unexpected {told:?}")
    };
    assert_eq!(conversation, &room());
    assert_eq!(new_member.user.id, "8");
    assert_eq!(new_member.roles[0].id, "administrator");
    assert_eq!(new_member.nickname.as_deref(), Some("Boss"));
    assert_eq!(lifecycle_events(&update("my_chat_member", "{}"), &decoded()), []);
    assert_eq!(events("chat_member", raw), []);

    let request = Decoded::JoinRequest(ChatJoinRequest {
        chat: chat(),
        from: ann(),
        user_chat_id: 8,
        bio: Some("hello".to_owned()),
        date: 1000,
        query_id: None,
    });
    let told = lifecycle_events(&update("chat_join_request", "{}"), &request);
    let [LifecycleEvent::JoinRequested(request)] = &told[..] else {
        panic!("unexpected {told:?}")
    };
    assert_eq!(request.id, "-100:8");
    assert_eq!(request.conversation, room());
    assert_eq!(request.message.as_deref(), Some("hello"));
    assert_eq!(request.requested_at, Some(1000));
}

#[test]
fn suggestions_are_told() {
    let told = events("inline_query", r#"{"id":"i","query":"q","from":{"id":8},"offset":""}"#);
    let [LifecycleEvent::SuggestionRequested(query)] = &told[..] else {
        panic!("unexpected {told:?}")
    };
    assert_eq!((query.id.as_str(), query.query.as_str()), ("i", "q"));
    assert_eq!(query.user.id, "8");
    assert_eq!(query.cursor, None);
    let told = events("inline_query", r#"{"id":"i","query":"","from":{"id":8},"offset":"20"}"#);
    assert!(matches!(&told[..], [LifecycleEvent::SuggestionRequested(query)]
        if query.cursor.as_deref() == Some("20")));
    assert_eq!(events("inline_query", r#"{"id":"i","query":"q"}"#), []);

    let told = events(
        "chosen_inline_result",
        r#"{"result_id":"r","query":"q","from":{"id":8},"inline_message_id":"m"}"#,
    );
    let [LifecycleEvent::SuggestionSelected(choice)] = &told[..] else {
        panic!("unexpected {told:?}")
    };
    assert_eq!(choice.result_id, "r");
    assert_eq!(choice.message_id.as_deref(), Some("m"));
}
