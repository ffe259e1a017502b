//! Messages that are sent and changed.
use telegram_bot_oxidebot::api::capabilities::{
    bot_capabilities, interaction_capabilities, SupportLevel, TEXT_LIMIT,
};
use telegram_bot_oxidebot::api::media::{
    finish_album_item, finish_read, resolve_file, send_v2_media, Call, FileSource, ResolvedFile,
};
use telegram_bot_oxidebot::api::outgoing::{
    begin_outgoing, send_telegram_rich_layout, telegram_send_outgoing, Start, Step,
};
use telegram_bot_oxidebot::api::placement::{layout_files, prepare_rich_layout_uploads};
use telegram_bot_oxidebot::api::platform::{call_platform_api, PlatformCall};
use telegram_bot_oxidebot::api::segments::{
    begin_media, begin_media_group, edit_media, edit_messagee, finish_media_group,
    send_media_group, send_message_impl, send_single_media, sent_response, SegmentEdit,
    SegmentStep,
};
use telegram_bot_oxidebot::content::{
    Checklist, ChecklistTask, DeliveryTime, LayoutNode, Media, MediaGalleryItem, MediaType,
    MessageContent, MessageOptions, MessageVisibility, NotificationPolicy, Poll, PollOption,
    PollType, Real, RichLayout, RichText,
};
use telegram_bot_oxidebot::conversation::{ConversationKind, ConversationRef, MessageTarget};
use telegram_bot_oxidebot::document::{encode, parse};
use telegram_bot_oxidebot::error::Error;
use telegram_bot_oxidebot::interaction::{
    ActionRow, Button, ButtonAction, ButtonStyle, InlineKeyboard, InteractionComponent,
    MessageComponents,
};
use telegram_bot_oxidebot::json::{Fields, Json};
use telegram_bot_oxidebot::segment::{MediaKind, OutgoingMedia};
use telegram_bot_oxidebot::source::{File, MessageSegment};
use telegram_bot_oxidebot::telegram::{Chat, Message, Upload};
use telegram_bot_oxidebot::uri::Uri;

fn written(payload: Fields) -> String {
    encode(&Json::Object(payload)).unwrap()
}

fn text(content: &str) -> MessageSegment {
    MessageSegment::Text { content: content.to_owned() }
}

fn file(id: &str) -> File {
    File {
        id: Some(id.to_owned()),
        name: String::new(),
        uri: None,
        base64: None,
        mime: None,
        size: None,
    }
}

fn image(id: &str) -> MessageSegment {
    MessageSegment::Image { file: Some(file(id)) }
}

fn audio(id: &str) -> MessageSegment {
    MessageSegment::Audio { file: Some(file(id)), length: Some(7) }
}

fn options(components: Option<MessageComponents>) -> MessageOptions {
    MessageOptions {
        components,
        reply: None,
        notification: NotificationPolicy::Default,
        visibility: MessageVisibility::Public,
        link_preview: None,
        mentions: None,
        protect_content: false,
        delivery_time: DeliveryTime::Immediate,
        idempotency_key: None,
        client_message_id: None,
        metadata: Fields::new(),
        platform_data: None,
    }
}

fn keyboard() -> MessageComponents {
    let button = Button {
        label: "OK".to_owned(),
        action: ButtonAction::Callback { data: "ok".to_owned() },
        style: ButtonStyle::Default,
        disabled: false,
        icon: None,
    };
    MessageComponents::InlineKeyboard(InlineKeyboard {
        rows: vec![ActionRow { components: vec![InteractionComponent::Button(button)] }],
    })
}

fn refusal<T: std::fmt::Debug>(result: Result<T, Error>) -> String {
    match result {
        Err(Error::Message(reason)) => reason,
        other => panic!("unexpected {other:?}"),
    }
}

fn requests(steps: Vec<SegmentStep>) -> Vec<(String, String)> {
    steps
        .into_iter()
        .map(|step| match step {
            SegmentStep::Call(request) => (request.method, written(request.payload)),
            other => panic!("unexpected {other:?}"),
        })
        .collect()
}

#[test]
fn long_texts_become_several_messages_with_one_keyboard() {
    let steps = send_message_impl(
        vec![
            MessageSegment::Reply { message_id: "42_7".to_owned() },
            text(&"x".repeat(TEXT_LIMIT + 1)),
        ],
        "42",
        &options(Some(keyboard())),
    )
    .unwrap();
    let requests = requests(steps);
    assert_eq!(requests.len(), 2);
    assert!(requests[0].1.contains("\"reply_markup\":{\"inline_keyboard\""));
    assert!(requests[0].1.contains("\"reply_parameters\":{\"chat_id\":42,\"message_id\":7}"));
    assert_eq!(
        requests[1],
        ("sendMessage".to_owned(), r#"{"chat_id":42,"text":"x"}"#.to_owned())
    );
}

#[test]
fn mentions_are_entities_of_the_first_message() {
    let steps = send_message_impl(
        vec![text("hi "), MessageSegment::At { user_id: "5".to_owned() }],
        "@news",
        &options(None),
    )
    .unwrap();
    assert_eq!(
        requests(steps),
        vec![(
            "sendMessage".to_owned(),
            r#"{"chat_id":"@news","entities":[{"length":2,"offset":3,"type":"text_mention","user":{"first_name":"5","id":5,"is_bot":false}}],"text":"hi @5"}"#
            .to_owned()
        )]
    );
    let long = send_message_impl(
        vec![
            text(&"x".repeat(TEXT_LIMIT)),
            MessageSegment::At { user_id: "5".to_owned() },
        ],
        "42",
        &options(None),
    );
    assert_eq!(
        refusal(long),
        "Telegram text with entities exceeds 4096 UTF-16 code units and cannot be split safely"
    );
}

#[test]
fn only_components_go_with_segments() {
    let mut silent = options(None);
    silent.notification = NotificationPolicy::Silent;
    assert_eq!(
        refusal(send_message_impl(vec![text("hi")], "42", &silent)),
        "legacy Telegram send_message_with_options supports components only; use send_outgoing_message for v2 message options"
    );
    let nothing = refusal(send_message_impl(vec![], "42", &options(Some(keyboard()))));
    assert!(nothing.contains("Telegram-sendable segments"));
}

#[test]
fn media_go_in_batches_of_one_class() {
    let mut segments = vec![text("caption")];
    segments.extend((0..11).map(|i| image(&format!("p{i}"))));
    segments.push(audio("a"));
    segments.push(image("last"));
    let steps = send_message_impl(segments, "42", &options(None)).unwrap();
    let shape: Vec<usize> = steps
        .iter()
        .map(|step| match step {
            SegmentStep::Media { .. } => 1,
            SegmentStep::Group { media, .. } => media.len(),
            SegmentStep::Call(_) => 0,
        })
        .collect();
    assert_eq!(shape, vec![10, 1, 1, 1]);
    let SegmentStep::Group { media, .. } = &steps[0] else {
        panic!("expected an album")
    };
    assert_eq!(media[0].caption.as_deref(), Some("caption"));
    assert_eq!(media[1].caption, None);
}

#[test]
fn places_and_stickers_have_calls_of_their_own() {
    let place = |title: &str| MessageSegment::Location {
        latitude: Real::Finite("1.5".to_owned()),
        longitude: Real::Finite("-2.0".to_owned()),
        title: title.to_owned(),
        content: Some("Street".to_owned()),
    };
    let steps = send_message_impl(
        vec![place(" "), place("Home"), MessageSegment::Emoji { id: "s".to_owned() }],
        "42",
        &options(None),
    )
    .unwrap();
    let found = requests(steps);
    assert_eq!(found[0].0, "sendLocation");
    assert_eq!(found[0].1, r#"{"chat_id":42,"latitude":1.5,"longitude":-2.0}"#);
    assert_eq!(found[1].0, "sendVenue");
    assert!(found[1].1.contains(r#""title":"Home""#));
    assert_eq!(
        found[2],
        ("sendSticker".to_owned(), r#"{"chat_id":42,"sticker":"s"}"#.to_owned())
    );
}

fn media(kind: MediaKind, file: File, caption: Option<&str>) -> OutgoingMedia {
    OutgoingMedia { kind, file, duration: None, caption: caption.map(str::to_owned) }
}

fn upload(name: &str) -> Upload {
    Upload { name: name.to_owned(), bytes: vec![1, 2], mime: None }
}

#[test]
fn single_media_is_found_or_uploaded() {
    let photo = media(MediaKind::Photo, file("f"), Some("hi"));
    assert_eq!(
        begin_media(&photo),
        Ok(FileSource::Ready(ResolvedFile::Remote("f".to_owned())))
    );
    let Call::Document(request) =
        send_single_media("42", &photo, ResolvedFile::Remote("f".to_owned()), None, None)
    else {
        panic!("expected a document")
    };
    assert_eq!(request.method, "sendPhoto");
    assert_eq!(written(request.payload), r#"{"caption":"hi","chat_id":42,"photo":"f"}"#);

    let Call::Form(form) = send_single_media(
        "42",
        &photo,
        ResolvedFile::Upload(upload("a.jpg")),
        None,
        Some(parse("{}").unwrap()),
    ) else {
        panic!("expected a form")
    };
    assert_eq!(form.method, "sendPhoto");
    assert_eq!(written(form.values), r#"{"caption":"hi","chat_id":"42","reply_markup":{}}"#);
    assert_eq!(form.uploads, vec![("photo".to_owned(), upload("a.jpg"))]);

    let long = media(MediaKind::Photo, file("f"), Some(&"x".repeat(1025)));
    assert_eq!(
        refusal(begin_media(&long)),
        "Telegram media caption exceeds 1024 UTF-16 code units"
    );
}

#[test]
fn files_come_from_where_they_are() {
    let mut carried = file("");
    carried.id = None;
    carried.base64 = Some("aGVsbG8=".to_owned());
    assert_eq!(
        resolve_file(&carried),
        Ok(FileSource::Ready(ResolvedFile::Upload(Upload {
            name: "upload.bin".to_owned(),
            bytes: b"hello".to_vec(),
            mime: None,
        })))
    );
    carried.base64 = Some("?".to_owned());
    assert_eq!(refusal(resolve_file(&carried)), "invalid base64 media data");
    carried.base64 = None;
    assert_eq!(
        refusal(resolve_file(&carried)),
        "media file has no Telegram file_id, URI, or data"
    );
    let address = |scheme: Option<&str>| Uri {
        text: "x://host/a".to_owned(),
        scheme: scheme.map(str::to_owned),
        has_authority: true,
        path: "/a".to_owned(),
    };
    carried.uri = Some(address(Some("https")));
    assert_eq!(
        resolve_file(&carried),
        Ok(FileSource::Ready(ResolvedFile::Remote("x://host/a".to_owned())))
    );
    carried.uri = Some(address(Some("ftp")));
    assert_eq!(refusal(resolve_file(&carried)), "unsupported media URI scheme \"ftp\"");
    carried.uri = Some(address(None));
    assert_eq!(
        resolve_file(&carried),
        Ok(FileSource::Read {
            path: "/a".to_owned(),
            name: "upload.bin".to_owned(),
            mime: None,
        })
    );
    assert_eq!(
        refusal(finish_read("/a", "n".to_owned(), None, None)),
        "failed to read media file \"/a\""
    );
}

#[test]
fn albums_name_their_uploads() {
    let items = vec![
        media(MediaKind::Photo, file("f"), Some("hi")),
        media(MediaKind::Video, file("g"), None),
    ];
    let Call::Form(form) = send_media_group(
        "42",
        &items,
        vec![ResolvedFile::Remote("f".to_owned()), ResolvedFile::Upload(upload("v.mp4"))],
        None,
    ) else {
        panic!("expected a form")
    };
    assert_eq!(
        written(form.values),
        r#"{"chat_id":"42","media":[{"caption":"hi","media":"f","type":"photo"},{"media":"attach://media1","type":"video"}]}"#
    );
    assert_eq!(form.uploads, vec![("media1".to_owned(), upload("v.mp4"))]);

    assert!(begin_media_group(&None).is_ok());
    assert!(begin_media_group(&Some(parse(r#"{"inline_keyboard": []}"#).unwrap())).is_ok());
    assert_eq!(
        refusal(begin_media_group(&Some(parse(r#"{"keyboard": []}"#).unwrap()))),
        "Telegram media groups can be followed only by an inline keyboard; reply keyboards require a separate message"
    );
    let sent = Message {
        message_id: 9,
        chat: Chat { id: 42, ..Default::default() },
        ..Default::default()
    };
    assert_eq!(sent_response(&sent), "42_9");
    let markup = parse(r#"{"inline_keyboard": []}"#).unwrap();
    let request = finish_media_group("42", Some(markup), &vec![sent]).unwrap();
    assert_eq!(request.method, "editMessageReplyMarkup");
    assert_eq!(
        written(request.payload),
        r#"{"chat_id":42,"message_id":9,"reply_markup":{"inline_keyboard":[]}}"#
    );
    assert!(finish_media_group("42", None, &vec![]).is_none());
}

#[test]
fn messages_are_changed_into_segments() {
    let Ok(SegmentEdit::Text(request)) = edit_messagee("42_9", vec![text("new")]) else {
        panic!("expected a text")
    };
    assert_eq!(request.method, "editMessageText");
    assert_eq!(written(request.payload), r#"{"chat_id":42,"message_id":9,"text":"new"}"#);

    let Ok(SegmentEdit::Media { chat_id, message_id, media, entities }) =
        edit_messagee("42_9", vec![text("new"), image("f")])
    else {
        panic!("expected media")
    };
    assert_eq!((chat_id.as_str(), message_id), ("42", 9));
    assert_eq!(media.caption.as_deref(), Some("new"));
    let call = edit_media("42", 9, &media, &entities, ResolvedFile::Upload(upload("a")));
    let Call::Form(form) = call else {
        panic!("expected a form")
    };
    assert_eq!(
        written(form.values),
        r#"{"chat_id":"42","media":{"caption":"new","media":"attach://media_file","type":"photo"},"message_id":9}"#
    );

    let reply = MessageSegment::Reply { message_id: "42_1".to_owned() };
    assert_eq!(
        refusal(edit_messagee("42_9", vec![reply, text("new")])),
        "an edited message cannot contain a reply segment"
    );
    assert_eq!(
        refusal(edit_messagee("42_9", vec![image("a"), image("b")])),
        "Telegram can edit only one media item at a time"
    );
    assert_eq!(
        refusal(edit_messagee("42_9", vec![MessageSegment::Emoji { id: "s".to_owned() }])),
        "Telegram cannot edit a message into a venue or sticker"
    );
    assert_eq!(
        refusal(edit_messagee("42_9", vec![text(&"x".repeat(4097))])),
        "edited Telegram message exceeds 4096 UTF-16 code units"
    );
    assert_eq!(
        refusal(edit_messagee("42_9", vec![text(&"x".repeat(1025)), image("a")])),
        "edited Telegram media caption exceeds 1024 UTF-16 code units"
    );
}

#[test]
fn native_calls_leave_nulls_out() {
    let parameters = parse(r#"{"known": true, "omitted": null}"#).unwrap();
    let Ok(PlatformCall::Document(request)) = call_platform_api("future_method_1", parameters, false)
    else {
        panic!("expected a document")
    };
    assert_eq!(request.method, "future_method_1");
    assert_eq!(written(request.payload), r#"{"known":true}"#);
    assert_eq!(
        refusal(call_platform_api("m", parse("[]").unwrap(), false)),
        "platform API parameters must be a JSON object"
    );
}

#[test]
fn native_forms_have_distinct_fields() {
    let parameters =
        parse(r#"{"file": "attach://payload", "n": 5, "o": {"a": 1}, "z": null}"#).unwrap();
    let Ok(PlatformCall::Form(mut form)) = call_platform_api("future_upload_1", parameters, true)
    else {
        panic!("expected a form")
    };
    assert_eq!(form.method(), "future_upload_1");
    assert_eq!(
        form.values(),
        &vec![
            ("file".to_owned(), "attach://payload".to_owned()),
            ("n".to_owned(), "5".to_owned()),
            ("o".to_owned(), r#"{"a":1}"#.to_owned()),
        ]
    );
    assert_eq!(form.accept("payload", "a.bin"), Ok(()));
    assert_eq!(
        refusal(form.accept("payload", "b.bin")),
        "duplicate platform API multipart field \"payload\""
    );
    assert_eq!(
        refusal(form.accept("n", "b.bin")),
        "duplicate platform API multipart field \"n\""
    );
    assert_eq!(
        refusal(form.accept("", "b.bin")),
        "platform API attachment field cannot be empty"
    );
    assert_eq!(
        refusal(form.accept("other", "")),
        "platform API attachment file name cannot be empty"
    );
    assert_eq!(form.accept("other", "b.bin"), Ok(()));
    assert_eq!(
        refusal(call_platform_api("m", parse(r#"{"": 1}"#).unwrap(), true)),
        "platform API multipart parameter name cannot be empty"
    );
}

fn plain(content: &str) -> RichText {
    RichText { text: content.to_owned(), spans: vec![] }
}

fn target(id: &str) -> MessageTarget {
    MessageTarget {
        conversation: ConversationRef {
            id: id.to_owned(),
            kind: ConversationKind::Direct,
            parent: None,
            platform_data: None,
        },
        recipients: vec![],
        platform_data: None,
    }
}

fn option(content: &str) -> PollOption {
    PollOption { id: None, text: plain(content), voter_count: None, platform_data: None }
}

fn poll(options: Vec<PollOption>) -> Poll {
    Poll {
        id: None,
        question: plain("Question?"),
        options,
        allows_multiple_answers: false,
        allows_revoting: None,
        members_only: None,
        country_codes: vec![],
        anonymous: Some(true),
        kind: PollType::Regular,
        open_for: None,
        closes_at: None,
        total_voter_count: None,
        correct_option: None,
        correct_options: vec![],
        explanation: None,
        closed: false,
        platform_data: None,
    }
}

fn task(id: &str) -> ChecklistTask {
    ChecklistTask {
        id: Some(id.to_owned()),
        text: plain("Test"),
        completed: false,
        completed_by: None,
        completed_at: None,
        platform_data: None,
    }
}

fn checklist(tasks: Vec<ChecklistTask>) -> Checklist {
    Checklist {
        id: None,
        title: plain("Release"),
        tasks,
        can_add_tasks: true,
        can_mark_tasks_done: true,
        platform_data: None,
    }
}

#[test]
fn content_goes_piece_by_piece() {
    let content = vec![
        MessageContent::PlainText("hello".to_owned()),
        MessageContent::Poll(poll(vec![option("Yes"), option("No")])),
        MessageContent::Checklist(checklist(vec![task("1")])),
    ];
    let Ok(Start::Send(mut context)) =
        begin_outgoing(target("42"), &content, &options(Some(keyboard())))
    else {
        panic!("expected a start")
    };
    let mut methods = vec![];
    let mut marked = 0;
    for piece in content {
        let Ok(Step::Call(request)) = telegram_send_outgoing(&mut context, piece) else {
            panic!("expected a call")
        };
        if request.payload.contains_key("reply_markup") {
            marked += 1;
        }
        methods.push(request.method);
    }
    assert_eq!(methods, ["sendMessage", "sendPoll", "sendChecklist"]);
    assert_eq!(marked, 1);
}

#[test]
fn polls_and_checklists_keep_to_their_limits() {
    let send = |content: MessageContent| {
        let content = vec![content];
        let Ok(Start::Send(mut context)) = begin_outgoing(target("42"), &content, &options(None))
        else {
            panic!("expected a start")
        };
        let mut content = content;
        telegram_send_outgoing(&mut context, content.remove(0))
    };
    let many: Vec<PollOption> = (0..13).map(|i| option(&format!("o{i}"))).collect();
    assert_eq!(
        refusal(send(MessageContent::Poll(poll(many)))),
        "Telegram polls require 2 to 12 options"
    );
    let most: Vec<PollOption> = (0..12).map(|i| option(&format!("o{i}"))).collect();
    assert!(send(MessageContent::Poll(poll(most))).is_ok());
    assert!(
        send(MessageContent::Checklist(checklist(vec![task("1"), task("1")]))).is_err()
    );
    assert!(send(MessageContent::Checklist(checklist(vec![task("1"), task("2")]))).is_ok());
    assert_eq!(
        refusal(begin_outgoing(target("42"), &vec![], &options(None))),
        "Telegram message content cannot be empty"
    );
    let mut later = options(None);
    later.delivery_time = DeliveryTime::Scheduled(5);
    assert!(
        begin_outgoing(
            target("42"),
            &vec![MessageContent::PlainText("hi".to_owned())],
            &later
        )
        .is_err()
    );
}

fn picture(file: File) -> Media {
    Media {
        file,
        caption: None,
        thumbnail: None,
        width: None,
        height: None,
        duration: None,
        spoiler: false,
        alt_text: None,
        waveform: None,
        platform_data: None,
    }
}

#[test]
fn layouts_refer_to_their_uploads() {
    let layout = RichLayout {
        nodes: vec![LayoutNode::Image(picture(file("first"))), LayoutNode::Image(picture(file("second")))],
        fallback_text: None,
        platform_data: None,
    };
    assert_eq!(layout_files(&layout).len(), 2);
    let (layout, uploads) = prepare_rich_layout_uploads(
        layout,
        vec![ResolvedFile::Remote("first".to_owned()), ResolvedFile::Upload(upload("p.jpg"))],
    );
    assert_eq!(uploads, vec![("rich_media_0".to_owned(), upload("p.jpg"))]);
    let mut payload = Fields::new();
    payload.put("chat_id", Json::integer(42));
    let Ok(Call::Form(form)) = send_telegram_rich_layout(layout, payload, uploads) else {
        panic!("expected a form")
    };
    assert_eq!(form.method, "sendRichMessage");
    let values = written(form.values);
    assert!(values.contains("attach://rich_media_0"));
    assert!(values.contains("\"first\""));
}

#[test]
fn galleries_are_albums() {
    let gallery = |kinds: Vec<MediaType>| {
        let items = kinds
            .into_iter()
            .map(|kind| MediaGalleryItem { kind, media: picture(file("f")) })
            .collect();
        let content = vec![MessageContent::MediaGallery(items)];
        let Ok(Start::Send(mut context)) = begin_outgoing(target("42"), &content, &options(None))
        else {
            panic!("expected a start")
        };
        let mut content = content;
        telegram_send_outgoing(&mut context, content.remove(0))
    };
    assert!(matches!(
        gallery(vec![MediaType::Image, MediaType::Video]),
        Ok(Step::Album { .. })
    ));
    assert_eq!(
        refusal(gallery(vec![MediaType::Image])),
        "Telegram media groups require 2 to 10 items"
    );
    assert!(gallery(vec![MediaType::Image, MediaType::Audio]).is_err());

    let (item, uploads) = finish_album_item(
        Fields::new(),
        vec![],
        3,
        ResolvedFile::Upload(upload("a")),
        Some(ResolvedFile::Upload(upload("t"))),
    );
    assert_eq!(
        encode(&item).unwrap(),
        r#"{"media":"attach://media3","thumbnail":"attach://thumbnail3"}"#
    );
    assert_eq!(uploads[1].0, "thumbnail3");
    assert_eq!(
        refusal(send_v2_media(
            "sendPhoto",
            "photo",
            Fields::new(),
            ResolvedFile::Remote("f".to_owned()),
            Some(ResolvedFile::Upload(upload("t"))),
        )),
        "a local Telegram thumbnail requires the primary media to be uploaded"
    );
}

#[test]
fn capabilities_are_reported() {
    let capabilities = bot_capabilities();
    assert_eq!(capabilities.content.checklists, SupportLevel::Native);
    assert_eq!(capabilities.delivery.scheduling, SupportLevel::Unsupported);
    assert_eq!(capabilities.delivery.forced_notification, SupportLevel::Emulated);
    assert_eq!(
        capabilities.delivery.supported_visibilities,
        vec![
            MessageVisibility::Public,
            MessageVisibility::Ephemeral,
            MessageVisibility::PrivateTo(vec![]),
        ]
    );
    assert_eq!(capabilities.components.buttons.max_callback_bytes, Some(64));
    assert_eq!(capabilities.components.buttons.styles.len(), 4);
    assert_eq!(capabilities.limits.max_text_length, Some(4096));
    assert_eq!(capabilities.limits.max_poll_options, Some(12));
    assert!(interaction_capabilities().inline_buttons);
    assert!(!interaction_capabilities().modals);
}
