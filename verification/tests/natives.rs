//! The limit of a text, native data beside portable options, and envelopes.
use telegram_bot_oxidebot::api::capabilities::TEXT_LIMIT;
use telegram_bot_oxidebot::api::edit::{telegram_edit_outgoing, EditStep};
use telegram_bot_oxidebot::api::keyboard::telegram_inline_button;
use telegram_bot_oxidebot::api::media::begin_album_item;
use telegram_bot_oxidebot::api::members::{
    ban_conversation_member, create_invite_link, revoke_invite_link, set_default_permissions,
    set_member_permissions,
};
use telegram_bot_oxidebot::api::messages::{
    delete_messages, edit_checklist, mark_read, pin_message, set_chat_activity, stop_poll,
    telegram_forward_or_copy, unpin_message, Transfer,
};
use telegram_bot_oxidebot::api::outgoing::{
    begin_outgoing, send_telegram_draft, telegram_outgoing_context, telegram_send_outgoing, Start,
    Step,
};
use telegram_bot_oxidebot::api::payments::send_invoice;
use telegram_bot_oxidebot::api::profiles::set_conversation_profile;
use telegram_bot_oxidebot::api::reactions::{add_message_reaction, set_message_reactions};
use telegram_bot_oxidebot::api::request::Request;
use telegram_bot_oxidebot::api::suggestions::telegram_inline_query_result;
use telegram_bot_oxidebot::api::threads::create_thread;
use telegram_bot_oxidebot::application::{FormValue, Suggestion};
use telegram_bot_oxidebot::collaboration::{ChatActivity, PinOptions, Reaction, ReactionOptions};
use telegram_bot_oxidebot::commerce::{CustomerDetails, Invoice, InvoiceOptions, LineItem, Money};
use telegram_bot_oxidebot::content::{
    Checklist, ChecklistTask, ContactCard, CustomEmoji, DeliveryTime, ForwardOptions,
    LinkPreviewOptions, LocationContent, Media, MediaGalleryItem, MediaType, MessageContent,
    MessageOptions, MessageVisibility, NotificationPolicy, OutgoingMessage, PhoneNumber, Real,
    RichText,
};
use telegram_bot_oxidebot::conversation::{
    ConversationKind, ConversationProfile, ConversationRef, InviteLink, InviteLinkOptions,
    MessageRef, MessageTarget, PermissionSet, ThreadOptions,
};
use telegram_bot_oxidebot::document::{encode, parse};
use telegram_bot_oxidebot::error::Error;
use telegram_bot_oxidebot::event::telegram_message_envelope;
use telegram_bot_oxidebot::interaction::{
    ActionRow, Button, ButtonAction, ButtonStyle, InlineKeyboard, InteractionComponent,
    MessageComponents,
};
use telegram_bot_oxidebot::json::{Fields, Json};
use telegram_bot_oxidebot::native::PlatformNativeData;
use telegram_bot_oxidebot::segment::TextComposer;
use telegram_bot_oxidebot::source::File;
use telegram_bot_oxidebot::telegram::{Chat, Message, MessageEntity, User};

fn doc(text: &str) -> Json {
    parse(text).unwrap()
}

fn shown(request: Request) -> (String, String) {
    (request.method, encode(&Json::Object(request.payload)).unwrap())
}

fn refusal<T: std::fmt::Debug>(result: Result<T, Error>) -> String {
    match result {
        Err(Error::Message(reason)) => reason,
        other => panic!("unexpected {other:?}"),
    }
}

fn native(data: &str) -> Option<PlatformNativeData> {
    Some(PlatformNativeData { platform: "telegram".to_owned(), data: doc(data) })
}

fn foreign() -> Option<PlatformNativeData> {
    Some(PlatformNativeData { platform: "discord".to_owned(), data: doc("{}") })
}

fn direct(platform_data: Option<PlatformNativeData>) -> ConversationRef {
    ConversationRef {
        id: "42".to_owned(),
        kind: ConversationKind::Direct,
        parent: None,
        platform_data,
    }
}

fn target(platform_data: Option<PlatformNativeData>) -> MessageTarget {
    MessageTarget { conversation: direct(None), recipients: vec![], platform_data }
}

fn reference(platform_data: Option<PlatformNativeData>) -> MessageRef {
    MessageRef { id: "7".to_owned(), conversation: Some(direct(None)), platform_data }
}

fn options(platform_data: Option<PlatformNativeData>) -> MessageOptions {
    MessageOptions {
        components: None,
        reply: None,
        notification: NotificationPolicy::Default,
        visibility: MessageVisibility::Public,
        link_preview: None,
        mentions: None,
        protect_content: false,
        delivery_time: DeliveryTime::Immediate,
        idempotency_key: None,
        client_message_id: None,
        metadata: Fields::new(),
        platform_data,
    }
}

fn plain(text: &str) -> MessageContent {
    MessageContent::PlainText(text.to_owned())
}

fn rich(text: &str) -> RichText {
    RichText { text: text.to_owned(), spans: vec![] }
}

fn long() -> String {
    "x".repeat(TEXT_LIMIT + 1)
}

fn button(disabled: bool) -> Button {
    Button {
        label: "Disabled".to_owned(),
        action: ButtonAction::Callback { data: "disabled".to_owned() },
        style: ButtonStyle::Default,
        disabled,
        icon: None,
    }
}

fn keyboard() -> MessageComponents {
    MessageComponents::InlineKeyboard(InlineKeyboard {
        rows: vec![ActionRow { components: vec![InteractionComponent::Button(button(false))] }],
    })
}

fn file(id: &str) -> File {
    File {
        id: Some(id.to_owned()),
        name: String::new(),
        uri: None,
        base64: None,
        mime: None,
        size: None,
    }
}

fn media(platform_data: Option<PlatformNativeData>) -> Media {
    Media {
        file: file("F"),
        caption: None,
        thumbnail: None,
        width: None,
        height: None,
        duration: None,
        spoiler: false,
        alt_text: None,
        waveform: None,
        platform_data,
    }
}

/// The step for content that goes to a chat with the given native options.
fn step(native_options: &str, content: MessageContent) -> Result<Step, Error> {
    let mut context =
        telegram_outgoing_context(target(None), &options(native(native_options))).unwrap();
    telegram_send_outgoing(&mut context, content)
}

#[test]
fn no_message_is_longer_than_the_limit() {
    let too_long = "Telegram message text exceeds 4096 UTF-16 code units";
    for content in [
        plain(&long()),
        MessageContent::RichText(rich(&"😀".repeat(TEXT_LIMIT / 2 + 1))),
        MessageContent::CustomEmoji(CustomEmoji {
            id: "5".to_owned(),
            name: None,
            fallback: Some(long()),
            file: None,
            platform_data: None,
        }),
    ] {
        assert_eq!(refusal(step("{}", content)), too_long);
    }
    match step("{}", plain(&"x".repeat(TEXT_LIMIT))).unwrap() {
        Step::Call(request) => assert_eq!(request.method, "sendMessage"),
        other => panic!("unexpected {other:?}"),
    }

    // Nothing is sent where a later text is too long.
    let content = vec![plain("short"), plain(&long())];
    assert_eq!(refusal(begin_outgoing(target(None), &content, &options(None))), too_long);
    match begin_outgoing(target(None), &vec![plain("short")], &options(None)).unwrap() {
        Start::Send(_) => {}
        other => panic!("unexpected {other:?}"),
    }

    let context =
        telegram_outgoing_context(target(None), &options(native(r#"{"draft_id":9}"#))).unwrap();
    assert_eq!(refusal(send_telegram_draft(&context, &vec![plain(&long())])), too_long);
}

#[test]
fn no_edit_or_inline_result_is_longer_than_the_limit() {
    let edited = |content| telegram_edit_outgoing(&reference(None), vec![content], &options(None));
    let too_long = "edited Telegram message exceeds 4096 UTF-16 code units";
    assert_eq!(refusal(edited(plain(&long()))), too_long);
    assert_eq!(refusal(edited(MessageContent::RichText(rich(&long())))), too_long);
    assert!(edited(plain(&"x".repeat(TEXT_LIMIT))).is_ok());

    let suggestion = |value: &str, message| Suggestion {
        id: "1".to_owned(),
        title: "One".to_owned(),
        description: None,
        image: None,
        value: FormValue::Text(value.to_owned()),
        message,
        platform_data: None,
    };
    let sends = |text: &str| {
        Some(OutgoingMessage { content: vec![plain(text)], options: options(None) })
    };
    let too_long = "Telegram inline message text exceeds 4096 UTF-16 code units";
    assert_eq!(refusal(telegram_inline_query_result(&suggestion("a", sends(&long())))), too_long);
    assert_eq!(refusal(telegram_inline_query_result(&suggestion(&long(), None))), too_long);
    assert!(telegram_inline_query_result(&suggestion("a", sends("b"))).is_ok());
}

#[test]
fn disabled_inline_buttons_do_not_exist() {
    assert_eq!(
        telegram_inline_button(&button(true), 0, 0),
        Err(Error::Unsupported("disabled Telegram inline buttons".to_owned()))
    );
    assert!(telegram_inline_button(&button(false), 0, 0).is_ok());
}

#[test]
fn targets_repeat_no_portable_option() {
    for (data, name) in [
        (r#"{"protect_content":true}"#, "protect_content"),
        (r#"{"disable_notification":true}"#, "disable_notification"),
        (r#"{"chat_id":1}"#, "chat_id"),
    ] {
        assert_eq!(
            refusal(telegram_outgoing_context(target(native(data)), &options(None))),
            format!("message target duplicates field \"{name}\"")
        );
    }
    let received = MessageTarget {
        recipients: vec!["8".to_owned()],
        ..target(native(r#"{"receiver_user_id":9}"#))
    };
    let hidden = MessageOptions { visibility: MessageVisibility::Ephemeral, ..options(None) };
    assert_eq!(
        refusal(telegram_outgoing_context(received, &hidden)),
        "message target duplicates field \"receiver_user_id\""
    );
    let home = MessageTarget {
        conversation: direct(native(r#"{"protect_content":true}"#)),
        ..target(None)
    };
    assert_eq!(
        refusal(telegram_outgoing_context(home, &options(None))),
        "Telegram conversation data duplicates field \"protect_content\""
    );
    let context =
        telegram_outgoing_context(target(native(r#"{"effect_id":"e"}"#)), &options(None)).unwrap();
    assert_eq!(
        encode(&Json::Object(context.base)).unwrap(),
        r#"{"chat_id":42,"disable_notification":false,"effect_id":"e","protect_content":false}"#
    );
}

#[test]
fn invoices_repeat_nothing() {
    let invoice = Invoice {
        id: None,
        title: "Tea".to_owned(),
        description: "Green".to_owned(),
        payload: "p".to_owned(),
        items: vec![LineItem {
            label: "Cup".to_owned(),
            amount: Money { currency: "XTR".to_owned(), amount: 5 },
            quantity: None,
        }],
        customer_details: CustomerDetails {
            name: None,
            email: None,
            phone: None,
            shipping_address: None,
        },
        flexible_shipping: false,
        platform_data: None,
    };
    let options = InvoiceOptions {
        provider_token: None,
        start_parameter: None,
        photo_url: None,
        protect_content: false,
        platform_data: None,
    };
    assert_eq!(
        refusal(send_invoice(&target(native(r#"{"protect_content":true}"#)), &invoice, &options)),
        "invoice target duplicates field \"protect_content\""
    );
    let home = MessageTarget {
        conversation: direct(native(r#"{"title":"Coffee"}"#)),
        ..target(None)
    };
    assert_eq!(
        refusal(send_invoice(&home, &invoice, &options)),
        "Telegram conversation data duplicates field \"title\""
    );
    let sent = send_invoice(&target(native(r#"{"message_effect_id":"e"}"#)), &invoice, &options);
    assert!(shown(sent.unwrap()).1.contains(r#""message_effect_id":"e""#));
}

#[test]
fn native_options_repeat_no_member_of_the_content() {
    let repeats = |name: &str| format!("message content duplicates field \"{name}\"");
    assert_eq!(refusal(step(r#"{"text":"a"}"#, plain("b"))), repeats("text"));
    assert_eq!(
        refusal(step(r#"{"entities":[]}"#, MessageContent::RichText(rich("b")))),
        repeats("entities")
    );
    let location = LocationContent {
        latitude: Real::Finite("1.5".to_owned()),
        longitude: Real::Finite("2.5".to_owned()),
        title: Some("Home".to_owned()),
        address: Some("Street".to_owned()),
        horizontal_accuracy: None,
        live_period: None,
        heading: None,
        proximity_alert_radius: None,
        platform_data: None,
    };
    assert_eq!(
        refusal(step(r#"{"title":"Work"}"#, MessageContent::Location(location))),
        repeats("title")
    );
    let contact = ContactCard {
        first_name: "Ann".to_owned(),
        last_name: None,
        user_id: None,
        phone_numbers: vec![PhoneNumber { label: None, value: "+1".to_owned() }],
        emails: vec![],
        organization: None,
        vcard: None,
        platform_data: None,
    };
    assert_eq!(
        refusal(step(r#"{"phone_number":"+2"}"#, MessageContent::Contact(contact))),
        repeats("phone_number")
    );
    assert_eq!(
        refusal(step(r#"{"photo":"G"}"#, MessageContent::Image(media(None)))),
        repeats("photo")
    );
    assert_eq!(
        refusal(step("{}", MessageContent::Image(media(native(r#"{"photo":"G"}"#))))),
        repeats("photo")
    );
    let item = || MediaGalleryItem { kind: MediaType::Image, media: media(None) };
    assert_eq!(
        refusal(step(r#"{"media":[]}"#, MessageContent::MediaGallery(vec![item(), item()]))),
        repeats("media")
    );
    let other = MediaGalleryItem {
        kind: MediaType::Image,
        media: media(native(r#"{"media":"G"}"#)),
    };
    assert_eq!(refusal(begin_album_item(&other)), "media-group item duplicates field \"media\"");

    let marked = MessageOptions {
        components: Some(keyboard()),
        ..options(native(r#"{"reply_markup":{}}"#))
    };
    assert_eq!(
        refusal(telegram_outgoing_context(target(None), &marked)),
        "message options duplicates field \"reply_markup\""
    );
    let previewed = MessageOptions {
        link_preview: Some(LinkPreviewOptions {
            enabled: true,
            prefer_large_media: None,
            above_text: None,
        }),
        ..options(native(r#"{"link_preview_options":{}}"#))
    };
    let mut context = telegram_outgoing_context(target(None), &previewed).unwrap();
    assert_eq!(
        refusal(telegram_send_outgoing(&mut context, plain("a"))),
        repeats("link_preview_options")
    );
    let drafting =
        telegram_outgoing_context(target(None), &options(native(r#"{"draft_id":9,"text":"a"}"#)))
            .unwrap();
    assert_eq!(refusal(send_telegram_draft(&drafting, &vec![plain("b")])), repeats("text"));

    // What is said once goes out as it is.
    match step(r#"{"message_effect_id":"e"}"#, plain("b")).unwrap() {
        Step::Call(request) => assert_eq!(
            shown(request).1,
            r#"{"chat_id":42,"disable_notification":false,"message_effect_id":"e","protect_content":false,"text":"b"}"#
        ),
        other => panic!("unexpected {other:?}"),
    }
}

#[test]
fn edits_say_nothing_twice() {
    let content = || {
        MessageContent::PlatformNative(PlatformNativeData {
            platform: "telegram".to_owned(),
            data: doc(r#"{"method":"editMessageCaption","reply_markup":{},"caption":"c"}"#),
        })
    };
    assert_eq!(
        refusal(telegram_edit_outgoing(&reference(None), vec![content()], &options(None))),
        "edit options duplicates field \"reply_markup\""
    );
    assert_eq!(
        refusal(telegram_edit_outgoing(
            &reference(None),
            vec![plain("a")],
            &options(native(r#"{"text":"b"}"#)),
        )),
        "edit options duplicates field \"text\""
    );
    let placed = MessageRef {
        conversation: Some(direct(native(r#"{"text":"b"}"#))),
        ..reference(None)
    };
    assert_eq!(
        refusal(telegram_edit_outgoing(&placed, vec![plain("a")], &options(None))),
        "message content duplicates field \"text\""
    );
    match telegram_edit_outgoing(
        &reference(None),
        vec![plain("a")],
        &options(native(r#"{"parse_mode":"HTML"}"#)),
    )
    .unwrap()
    {
        EditStep::Call(request) => assert_eq!(
            shown(request).1,
            r#"{"chat_id":42,"message_id":7,"parse_mode":"HTML","reply_markup":{"inline_keyboard":[]},"text":"a"}"#
        ),
        other => panic!("unexpected {other:?}"),
    }
}

fn checklist() -> Checklist {
    Checklist {
        id: None,
        title: rich("Buy"),
        tasks: vec![ChecklistTask {
            id: None,
            text: rich("Tea"),
            completed: false,
            completed_by: None,
            completed_at: None,
            platform_data: None,
        }],
        can_add_tasks: false,
        can_mark_tasks_done: false,
        platform_data: None,
    }
}

#[test]
fn references_of_other_platforms_are_refused() {
    let wrong = "message reference targets platform \"discord\", not Telegram";
    let strange = || reference(foreign());
    assert_eq!(refusal(pin_message(&strange(), PinOptions { notify_members: None })), wrong);
    assert_eq!(refusal(unpin_message(&strange())), wrong);
    assert_eq!(refusal(set_message_reactions(&strange(), &vec![])), wrong);
    let reaction = Reaction::UnicodeEmoji("👍".to_owned());
    assert_eq!(
        refusal(add_message_reaction(&strange(), &reaction, &ReactionOptions { emphasized: false, variant: None })),
        wrong
    );
    assert_eq!(refusal(stop_poll(&strange())), wrong);
    assert_eq!(refusal(edit_checklist(&strange(), &checklist())), wrong);
    assert_eq!(refusal(delete_messages(&vec![strange()])), wrong);
    let hidden = reference(Some(PlatformNativeData {
        platform: "discord".to_owned(),
        data: doc(r#"{"receiver_user_id":7}"#),
    }));
    assert_eq!(refusal(delete_messages(&vec![reference(None), hidden])), wrong);
    let forwarding = ForwardOptions {
        preserve_author: true,
        preserve_caption: true,
        notification: NotificationPolicy::Default,
        platform_data: None,
    };
    assert_eq!(
        refusal(telegram_forward_or_copy(
            Transfer::Copy,
            &vec![strange()],
            &target(None),
            &forwarding,
        )),
        wrong
    );

    let wrong = "conversation data targets platform \"discord\", not Telegram";
    let placed = MessageRef { conversation: Some(direct(foreign())), ..reference(None) };
    assert_eq!(refusal(set_message_reactions(&placed, &vec![])), wrong);
    let topic = ConversationRef {
        id: "3".to_owned(),
        kind: ConversationKind::Topic,
        parent: Some(Box::new(direct(foreign()))),
        platform_data: None,
    };
    assert_eq!(refusal(set_chat_activity(&topic, &ChatActivity::Typing, None)), wrong);
    let business = direct(Some(PlatformNativeData {
        platform: "discord".to_owned(),
        data: doc(r#"{"business_connection_id":"b"}"#),
    }));
    assert_eq!(refusal(mark_read(&business, &Some(reference(None)))), wrong);
}

fn invitation(platform_data: Option<PlatformNativeData>) -> InviteLinkOptions {
    InviteLinkOptions {
        name: None,
        expires_at: None,
        max_uses: None,
        require_approval: false,
        temporary_membership: false,
        subscription_price: None,
        platform_data,
    }
}

#[test]
fn invitations_have_native_members() {
    assert_eq!(
        refusal(create_invite_link(&direct(None), &invitation(foreign()))),
        "invite options targets platform \"discord\", not Telegram"
    );
    assert_eq!(
        refusal(create_invite_link(&direct(None), &invitation(native(r#"{"name":"n"}"#)))),
        "invite options duplicates field \"name\""
    );
    let made = create_invite_link(&direct(None), &invitation(native(r#"{"extra":1}"#)));
    assert_eq!(
        shown(made.unwrap()),
        (
            "createChatInviteLink".to_owned(),
            r#"{"chat_id":42,"creates_join_request":false,"extra":1}"#.to_owned()
        )
    );
    let link = InviteLink {
        id: "l".to_owned(),
        url: "l".to_owned(),
        conversation: direct(None),
        creator: None,
        options: invitation(None),
        use_count: None,
        revoked: false,
        platform_data: foreign(),
    };
    // What the link itself carries is not looked at.
    assert_eq!(
        shown(revoke_invite_link(&link).unwrap()),
        ("revokeChatInviteLink".to_owned(), r#"{"chat_id":42,"invite_link":"l"}"#.to_owned())
    );
}

#[test]
fn native_data_of_references_may_be_of_any_shape() {
    // Only the platform is looked at where no member is read.
    let odd = reference(native("[1]"));
    let call = ("unpinChatMessage".to_owned(), r#"{"chat_id":42,"message_id":7}"#.to_owned());
    assert_eq!(shown(unpin_message(&odd).unwrap()), call);
    assert_eq!(
        refusal(unpin_message(&reference(foreign()))),
        "message reference targets platform \"discord\", not Telegram"
    );
    let business = direct(native("7"));
    assert_eq!(
        refusal(mark_read(&business, &Some(odd))),
        "Telegram read receipts require a business_connection_id"
    );
}

#[test]
fn conversations_repeat_no_parameter() {
    let repeats = |name: &str| format!("Telegram conversation data duplicates field \"{name}\"");
    let none = || PermissionSet { allow: vec![], deny: vec![] };
    let user = direct(native(r#"{"user_id":1}"#));
    assert_eq!(
        refusal(ban_conversation_member(&user, "2", None, false, 0)),
        repeats("user_id")
    );
    let revoking = direct(native(r#"{"revoke_messages":true}"#));
    assert_eq!(
        refusal(ban_conversation_member(&revoking, "2", None, false, 0)),
        repeats("revoke_messages")
    );
    let promoting = direct(native(r#"{"can_manage_chat":true}"#));
    assert_eq!(
        refusal(set_member_permissions(&promoting, "2", &none())),
        repeats("can_manage_chat")
    );
    let permitting = direct(native(r#"{"permissions":{}}"#));
    assert_eq!(refusal(set_default_permissions(&permitting, &none())), repeats("permissions"));
    let acting = direct(native(r#"{"action":"typing"}"#));
    assert_eq!(
        refusal(set_chat_activity(&acting, &ChatActivity::Typing, None)),
        repeats("action")
    );
    let pinned = MessageRef {
        conversation: Some(direct(native(r#"{"message_id":1}"#))),
        ..reference(None)
    };
    assert_eq!(refusal(unpin_message(&pinned)), repeats("message_id"));
    let topic = ThreadOptions {
        title: Some("T".to_owned()),
        auto_close_after: None,
        invitable: None,
        slow_mode: None,
        icon: None,
        platform_data: None,
    };
    assert_eq!(refusal(create_thread(&direct(native(r#"{"name":"n"}"#)), &topic)), repeats("name"));
    let profile = ConversationProfile {
        name: Some("N".to_owned()),
        username: None,
        description: Some("D".to_owned()),
        avatar: None,
        member_count: None,
        kind: None,
        parent: None,
        default_permissions: None,
        slow_mode: None,
        archived: None,
        created_at: None,
        locale: None,
        metadata: Fields::new(),
        platform_data: None,
    };
    assert_eq!(
        refusal(set_conversation_profile(&direct(native(r#"{"description":"d"}"#)), &profile)),
        repeats("description")
    );
}

#[test]
fn mentions_follow_other_entities() {
    let mut composer = TextComposer {
        text: "see".to_owned(),
        entities: vec![MessageEntity {
            kind: "bold".to_owned(),
            offset: 0,
            length: 3,
            ..Default::default()
        }],
    };
    composer.mention("@ann").unwrap();
    assert_eq!(composer.text, "see@ann");
    assert_eq!(composer.entities.len(), 2);
    assert_eq!(composer.entities[0].kind, "bold");
    assert_eq!(composer.entities[1].kind, "mention");
    assert_eq!((composer.entities[1].offset, composer.entities[1].length), (3, 4));
    assert_eq!(
        refusal(composer.mention("ann")),
        "invalid Telegram mention user id \"ann\""
    );
    assert_eq!(composer.text, "see@ann");
}

#[test]
fn histories_are_made_of_envelopes() {
    let message = |text: Option<&str>, date: i64| Message {
        message_id: 5,
        date,
        chat: Chat { id: 42, kind: "private".to_owned(), ..Default::default() },
        from: Some(User { id: 8, first_name: "Ann".to_owned(), ..Default::default() }),
        text: text.map(str::to_owned),
        caption: Some("caption".to_owned()),
        ..Default::default()
    };
    let raw = r#"{"text":"said"}"#;
    let envelope = telegram_message_envelope(&message(Some("said"), 1000), doc(raw));
    assert_eq!(envelope.conversation, direct(None));
    assert_eq!(envelope.reference.id, "5");
    assert_eq!(envelope.reference.conversation, Some(direct(None)));
    assert_eq!(envelope.sender.unwrap().id, "8");
    assert_eq!(envelope.created_at, Some(1000));
    assert_eq!(envelope.content, [plain("said")]);
    assert_eq!(envelope.platform_data, native(raw));

    // The first and the last second of the calendar, and their neighbours.
    for (date, known) in [
        (-8_334_601_228_800, true),
        (-8_334_601_228_801, false),
        (8_210_266_876_799, true),
        (8_210_266_876_800, false),
    ] {
        let raw = doc(r#"{"caption":"caption"}"#);
        let envelope = telegram_message_envelope(&message(None, date), raw);
        assert_eq!(envelope.content, [plain("caption")]);
        assert_eq!(envelope.created_at, if known { Some(date) } else { None });
    }
}
