//! Calls as they are written, and what is said where one cannot be made.
use telegram_bot_oxidebot::api::edit::{telegram_edit_outgoing, EditStep};
use telegram_bot_oxidebot::api::interactions::{
    answer_mini_app_query, answer_suggestion_request, delete_interaction_response,
    mini_app_message, send_interaction_followup, telegram_interaction_message_ref,
};
use telegram_bot_oxidebot::api::invite::{telegram_invite_link, TelegramChatInviteLink};
use telegram_bot_oxidebot::api::members::{
    ban_conversation_member, change_group_admin, create_invite_link, edit_invite_link,
    handle_add_group_request, kick_group_member, list_conversation_members, mute_group,
    set_group_member_alias, set_member_permissions, telegram_answer_join_request, wanted_members,
    GroupMuteType,
};
use telegram_bot_oxidebot::api::menus::{
    delete_surface, publish_surface, read_command_definitions, set_command_definitions,
};
use telegram_bot_oxidebot::api::messages::{
    clear_pins, delete_message, delete_message_ref, delete_messages, edit_checklist,
    list_messages, list_pins, mark_read, pin_message, read_pins, set_chat_activity,
    telegram_forward_or_copy, transferred_refs, unpin_message, Transfer,
};
use telegram_bot_oxidebot::api::outgoing::{
    begin_outgoing, draft_ref, telegram_send_outgoing, Start, Step,
};
use telegram_bot_oxidebot::api::payments::{
    answer_checkout_request, answer_shipping_request, refund_payment,
};
use telegram_bot_oxidebot::api::permissions::telegram_administrator_permissions;
use telegram_bot_oxidebot::api::profiles::{
    get_bot_profile_v2, member_count_call, read_bot_profile, read_conversation_profile,
    set_bot_profile_v2, set_conversation_profile, set_group_profile, ProfileStep,
};
use telegram_bot_oxidebot::api::reactions::{
    add_message_reaction, set_message_reaction, set_message_reactions,
};
use telegram_bot_oxidebot::api::request::Request;
use telegram_bot_oxidebot::api::threads::{
    close_thread, create_thread, created_thread, edit_thread, TelegramForumTopic,
};
use telegram_bot_oxidebot::application::{
    AppSurface, AppSurfaceKind, BotCommand, BotProfile, CommandContext, CommandDefinition,
    CommandKind, FormValue, Localized, Suggestion, SuggestionRequest, SurfaceContent,
};
use telegram_bot_oxidebot::collaboration::{ChatActivity, PinOptions, Reaction, ReactionOptions};
use telegram_bot_oxidebot::commerce::{LineItem, Money, ShippingOption};
use telegram_bot_oxidebot::content::{
    Checklist, ChecklistTask, DeliveryTime, Duration, ForwardOptions, MessageContent,
    MessageOptions, MessageQuery, MessageVisibility, NotificationPolicy, OutgoingMessage,
    ReplyOptions, RichText,
};
use telegram_bot_oxidebot::conversation::{
    ConversationKind, ConversationPermission, ConversationProfile, ConversationRef, InviteLink,
    InviteLinkOptions, MessageRef, MessageTarget, PageRequest, PermissionSet, ThreadOptions,
};
use telegram_bot_oxidebot::document::{encode, parse};
use telegram_bot_oxidebot::error::Error;
use telegram_bot_oxidebot::interaction::InteractionResponseHandle;
use telegram_bot_oxidebot::json::{Fields, Json, TextMap};
use telegram_bot_oxidebot::native::PlatformNativeData;
use telegram_bot_oxidebot::source::GroupProfile;
use telegram_bot_oxidebot::telegram::User;

fn doc(text: &str) -> Json {
    parse(text).unwrap()
}

fn shown(request: Request) -> (String, String) {
    (request.method, encode(&Json::Object(request.payload)).unwrap())
}

fn is_call(result: Result<Request, Error>, method: &str, payload: &str) {
    assert_eq!(shown(result.unwrap()), (method.to_owned(), payload.to_owned()));
}

fn refusal<T: std::fmt::Debug>(result: Result<T, Error>) -> String {
    match result {
        Err(Error::Message(reason)) => reason,
        other => panic!("unexpected {other:?}"),
    }
}

fn missing<T: std::fmt::Debug>(result: Result<T, Error>) -> String {
    match result {
        Err(Error::Unsupported(feature)) => feature,
        other => panic!("unexpected {other:?}"),
    }
}

fn native(data: &str) -> Option<PlatformNativeData> {
    Some(PlatformNativeData { platform: "telegram".to_owned(), data: doc(data) })
}

fn foreign() -> Option<PlatformNativeData> {
    Some(PlatformNativeData { platform: "discord".to_owned(), data: doc("{}") })
}

fn place(id: &str, kind: ConversationKind) -> ConversationRef {
    ConversationRef { id: id.to_owned(), kind, parent: None, platform_data: None }
}

fn group() -> ConversationRef {
    place("-100", ConversationKind::Group)
}

fn topic() -> ConversationRef {
    ConversationRef {
        id: "17".to_owned(),
        kind: ConversationKind::Topic,
        parent: Some(Box::new(group())),
        platform_data: None,
    }
}

fn message(id: &str) -> MessageRef {
    MessageRef { id: id.to_owned(), conversation: Some(group()), platform_data: None }
}

fn page(cursor: Option<&str>, limit: Option<u32>) -> PageRequest {
    PageRequest { cursor: cursor.map(str::to_owned), limit }
}

fn options() -> MessageOptions {
    MessageOptions {
        components: None,
        reply: None,
        notification: NotificationPolicy::Default,
        visibility: MessageVisibility::Public,
        link_preview: None,
        mentions: None,
        protect_content: false,
        delivery_time: DeliveryTime::Immediate,
        idempotency_key: None,
        client_message_id: None,
        metadata: Fields::new(),
        platform_data: None,
    }
}

fn outgoing(text: &str) -> OutgoingMessage {
    OutgoingMessage {
        content: vec![MessageContent::PlainText(text.to_owned())],
        options: options(),
    }
}

fn seconds(seconds: u64) -> Option<Duration> {
    Some(Duration { seconds, nanoseconds: 0 })
}

#[test]
fn pins_are_set_and_listed() {
    is_call(
        pin_message(&message("5"), PinOptions { notify_members: Some(true) }),
        "pinChatMessage",
        r#"{"chat_id":-100,"disable_notification":false,"message_id":5}"#,
    );
    is_call(
        pin_message(&message("5"), PinOptions { notify_members: None }),
        "pinChatMessage",
        r#"{"chat_id":-100,"message_id":5}"#,
    );
    is_call(
        unpin_message(&message("5")),
        "unpinChatMessage",
        r#"{"chat_id":-100,"message_id":5}"#,
    );
    is_call(clear_pins(&group()), "unpinAllChatMessages", r#"{"chat_id":-100}"#);
    is_call(
        clear_pins(&topic()),
        "unpinAllForumTopicMessages",
        r#"{"chat_id":-100,"message_thread_id":17}"#,
    );
    is_call(list_pins(&group(), &page(None, None)), "getChat", r#"{"chat_id":-100}"#);
    assert_eq!(
        refusal(list_pins(&group(), &page(Some("next"), None))),
        "Telegram pinned-message lookup does not support cursors"
    );
    let chat = doc(r#"{"id":-100,"pinned_message":{"message_id":9,"text":"Rules"}}"#);
    let pins = read_pins(&chat, &group(), &page(None, Some(10)));
    assert_eq!(pins.items.len(), 1);
    assert_eq!(pins.items[0].message, message("9"));
    assert_eq!(pins.items[0].platform_data, native(r#"{"message_id":9,"text":"Rules"}"#));
    assert!(read_pins(&chat, &group(), &page(None, Some(0))).items.is_empty());
    assert!(read_pins(&doc(r#"{"id":-100}"#), &group(), &page(None, None)).items.is_empty());
}

#[test]
fn activities_last_five_seconds() {
    is_call(
        set_chat_activity(&topic(), &ChatActivity::UploadingAudio, seconds(5)),
        "sendChatAction",
        r#"{"action":"upload_voice","chat_id":-100,"message_thread_id":17}"#,
    );
    is_call(
        set_chat_activity(&group(), &ChatActivity::PlatformNative("wave".to_owned()), None),
        "sendChatAction",
        r#"{"action":"wave","chat_id":-100}"#,
    );
    assert_eq!(
        refusal(set_chat_activity(
            &group(),
            &ChatActivity::Typing,
            Some(Duration { seconds: 5, nanoseconds: 1 })
        )),
        "one Telegram chat action lasts at most 5 seconds"
    );
    assert_eq!(
        missing(set_chat_activity(&group(), &ChatActivity::Playing, None)),
        "Telegram playing activity"
    );
}

#[test]
fn messages_are_marked_as_read_for_a_business() {
    let business = ConversationRef {
        platform_data: native(r#"{"business_connection_id":"b"}"#),
        ..place("7", ConversationKind::Direct)
    };
    let read = MessageRef {
        id: "5".to_owned(),
        conversation: Some(place("7", ConversationKind::Direct)),
        platform_data: None,
    };
    is_call(
        mark_read(&business, &Some(read)),
        "readBusinessMessage",
        r#"{"business_connection_id":"b","chat_id":7,"message_id":5}"#,
    );
    assert_eq!(
        refusal(mark_read(&group(), &Some(message("5")))),
        "Telegram read receipts require a business_connection_id"
    );
    assert_eq!(
        refusal(mark_read(&business, &None)),
        "Telegram read receipts require a message"
    );
}

#[test]
fn histories_are_those_of_users() {
    let query = |conversation, limit| MessageQuery {
        conversation,
        thread: None,
        before: None,
        after: None,
        around: None,
        limit,
        search: None,
        cursor: None,
        platform_data: None,
    };
    let user = || Some(place("7", ConversationKind::Direct));
    is_call(
        list_messages(&query(user(), None)),
        "getUserPersonalChatMessages",
        r#"{"limit":20,"user_id":7}"#,
    );
    assert_eq!(
        refusal(list_messages(&query(user(), Some(21)))),
        "Telegram personal-chat history limit must be between 1 and 20"
    );
    assert_eq!(
        refusal(list_messages(&query(user(), Some(0)))),
        "Telegram personal-chat history limit must be between 1 and 20"
    );
    assert_eq!(
        refusal(list_messages(&query(Some(group()), None))),
        "Telegram Bot API exposes history only for a user's personal chat"
    );
    assert_eq!(
        refusal(list_messages(&query(None, None))),
        "Telegram personal-chat history requires a user conversation"
    );
    let searched = MessageQuery { search: Some("word".to_owned()), ..query(user(), None) };
    assert_eq!(
        refusal(list_messages(&searched)),
        "Telegram personal-chat history supports only a user and limit"
    );
}

#[test]
fn messages_are_forwarded_in_batches() {
    let target = || MessageTarget {
        conversation: topic(),
        recipients: vec![],
        platform_data: None,
    };
    let plain = |preserve_caption| ForwardOptions {
        preserve_author: true,
        preserve_caption,
        notification: NotificationPolicy::Silent,
        platform_data: None,
    };
    let batch = vec![message("3"), message("8")];
    is_call(
        telegram_forward_or_copy(Transfer::Forward, &batch, &target(), &plain(true)),
        "forwardMessages",
        r#"{"chat_id":-100,"disable_notification":true,"from_chat_id":-100,"message_ids":[3,8],"message_thread_id":17}"#,
    );
    is_call(
        telegram_forward_or_copy(Transfer::Copy, &batch, &target(), &plain(false)),
        "copyMessages",
        r#"{"chat_id":-100,"disable_notification":true,"from_chat_id":-100,"message_ids":[3,8],"message_thread_id":17,"remove_caption":true}"#,
    );
    assert_eq!(
        refusal(telegram_forward_or_copy(Transfer::Forward, &batch, &target(), &plain(false))),
        "Telegram forwarding cannot remove captions; use copy_messages instead"
    );
    let falling = vec![message("8"), message("3")];
    assert_eq!(
        refusal(telegram_forward_or_copy(Transfer::Copy, &falling, &target(), &plain(true))),
        "Telegram batch message identifiers must be strictly increasing"
    );
    let mixed = vec![
        message("3"),
        MessageRef { conversation: Some(place("7", ConversationKind::Direct)), ..message("8") },
    ];
    assert_eq!(
        refusal(telegram_forward_or_copy(Transfer::Copy, &mixed, &target(), &plain(true))),
        "Telegram batch forward/copy messages must come from one chat"
    );
    let inline = vec![MessageRef {
        platform_data: native(r#"{"inline_message_id":"i"}"#),
        ..message("3")
    }];
    assert_eq!(
        refusal(telegram_forward_or_copy(Transfer::Copy, &inline, &target(), &plain(true))),
        "Telegram cannot forward or copy ephemeral or inline messages"
    );
    assert_eq!(
        refusal(telegram_forward_or_copy(Transfer::Copy, &vec![], &target(), &plain(true))),
        "Telegram forward/copy batches must contain 1 to 100 messages"
    );
    let refs = transferred_refs(&vec![1, 2], &group());
    assert_eq!(refs, vec![message("1"), message("2")]);
}

#[test]
fn special_messages_are_deleted_one_by_one() {
    let ephemeral = || MessageRef {
        platform_data: native(r#"{"receiver_user_id":7}"#),
        ..message("4")
    };
    let inline = || MessageRef {
        platform_data: native(r#"{"inline_message_id":"i"}"#),
        ..message("5")
    };
    is_call(
        delete_message_ref(&ephemeral()),
        "deleteEphemeralMessage",
        r#"{"chat_id":-100,"ephemeral_message_id":4,"receiver_user_id":7}"#,
    );
    assert_eq!(missing(delete_message_ref(&inline())), "deleting Telegram inline messages");
    let plan =
        delete_messages(&vec![ephemeral(), message("3"), inline(), ephemeral()]).unwrap();
    let methods: Vec<&str> =
        plan.requests.iter().map(|request| request.method.as_str()).collect();
    assert_eq!(methods, ["deleteMessages", "deleteEphemeralMessage"]);
    assert_eq!(
        plan.failure,
        Some(Error::Unsupported("deleting Telegram inline messages".to_owned()))
    );
    is_call(
        delete_message("-100_3"),
        "deleteMessage",
        r#"{"chat_id":-100,"message_id":3}"#,
    );
}

#[test]
fn one_reaction_is_set() {
    let heart = || Reaction::CustomEmoji { id: "12".to_owned(), name: None };
    is_call(
        set_message_reactions(&message("5"), &vec![heart()]),
        "setMessageReaction",
        r#"{"chat_id":-100,"message_id":5,"reaction":[{"custom_emoji_id":"12","type":"custom_emoji"}]}"#,
    );
    is_call(
        set_message_reactions(&message("5"), &vec![]),
        "setMessageReaction",
        r#"{"chat_id":-100,"message_id":5,"reaction":[]}"#,
    );
    assert_eq!(
        refusal(set_message_reactions(&message("5"), &vec![heart(), heart()])),
        "Telegram bots can set at most one reaction per message"
    );
    is_call(
        add_message_reaction(
            &message("5"),
            &heart(),
            &ReactionOptions { emphasized: true, variant: None },
        ),
        "setMessageReaction",
        r#"{"chat_id":-100,"is_big":true,"message_id":5,"reaction":[{"custom_emoji_id":"12","type":"custom_emoji"}]}"#,
    );
    assert_eq!(
        refusal(add_message_reaction(
            &message("5"),
            &Reaction::Paid,
            &ReactionOptions { emphasized: false, variant: None }
        )),
        "Telegram bots cannot set paid reactions"
    );
    is_call(
        set_message_reaction("-100_5", "123"),
        "setMessageReaction",
        r#"{"chat_id":-100,"message_id":5,"reaction":[{"custom_emoji_id":"123","type":"custom_emoji"}]}"#,
    );
    assert_eq!(
        refusal(set_message_reaction("-100_5", "paid")),
        "Telegram bots cannot set paid reactions"
    );
}

#[test]
fn topics_are_opened_and_closed() {
    let plain = |title: Option<&str>| ThreadOptions {
        title: title.map(str::to_owned),
        auto_close_after: None,
        invitable: None,
        slow_mode: None,
        icon: Some("e".to_owned()),
        platform_data: None,
    };
    is_call(
        create_thread(&group(), &plain(Some("News"))),
        "createForumTopic",
        r#"{"chat_id":-100,"icon_custom_emoji_id":"e","name":"News"}"#,
    );
    assert_eq!(
        refusal(create_thread(&group(), &plain(None))),
        "Telegram forum topics require a title"
    );
    let slow = ThreadOptions { slow_mode: seconds(1), ..plain(Some("News")) };
    assert_eq!(
        refusal(create_thread(&group(), &slow)),
        "Telegram forum topics do not support auto-close, invitable, or per-topic slow-mode options"
    );
    let thread = created_thread(
        TelegramForumTopic {
            message_thread_id: 17,
            name: "News".to_owned(),
            icon_custom_emoji_id: Some("e".to_owned()),
        },
        group(),
    );
    assert_eq!(thread.conversation, topic());
    assert_eq!(thread.title.as_deref(), Some("News"));
    assert_eq!(thread.platform_data, native(r#"{"icon_custom_emoji_id":"e"}"#));
    is_call(
        edit_thread(&topic(), &plain(None)),
        "editForumTopic",
        r#"{"chat_id":-100,"icon_custom_emoji_id":"e","message_thread_id":17}"#,
    );
    is_call(
        close_thread(&topic()),
        "closeForumTopic",
        r#"{"chat_id":-100,"message_thread_id":17}"#,
    );
    let strange = ConversationRef { id: "x".to_owned(), ..topic() };
    assert_eq!(refusal(close_thread(&strange)), "invalid Telegram thread or topic id");
    let elsewhere = ConversationRef { platform_data: foreign(), ..topic() };
    assert_eq!(
        refusal(close_thread(&elsewhere)),
        "conversation data targets platform \"discord\", not Telegram"
    );
}

fn invitation() -> InviteLinkOptions {
    InviteLinkOptions {
        name: Some("Friends".to_owned()),
        expires_at: Some(1000),
        max_uses: Some(5),
        require_approval: false,
        temporary_membership: false,
        subscription_price: None,
        platform_data: None,
    }
}

#[test]
fn invitations_are_made_and_read() {
    is_call(
        create_invite_link(&group(), &invitation()),
        "createChatInviteLink",
        r#"{"chat_id":-100,"creates_join_request":false,"expire_date":1000,"member_limit":5,"name":"Friends"}"#,
    );
    let asked = InviteLinkOptions { require_approval: true, ..invitation() };
    assert_eq!(
        refusal(create_invite_link(&group(), &asked)),
        "Telegram join-request invite links cannot have a member limit"
    );
    let guest = InviteLinkOptions { temporary_membership: true, ..invitation() };
    assert_eq!(
        refusal(create_invite_link(&group(), &guest)),
        "Telegram invite links do not expose temporary membership"
    );
    let paid = |currency: &str, amount| InviteLinkOptions {
        max_uses: None,
        subscription_price: Some(Money { currency: currency.to_owned(), amount }),
        ..invitation()
    };
    is_call(
        create_invite_link(&group(), &paid("XTR", 10_000)),
        "createChatSubscriptionInviteLink",
        r#"{"chat_id":-100,"expire_date":1000,"name":"Friends","subscription_period":2592000,"subscription_price":10000}"#,
    );
    assert_eq!(
        refusal(create_invite_link(&group(), &paid("EUR", 10))),
        "Telegram subscription invite prices must contain 1 to 10000 XTR"
    );
    let link = telegram_invite_link(
        TelegramChatInviteLink {
            invite_link: "https://t.me/+a".to_owned(),
            creator: User { id: 1, first_name: "Bot".to_owned(), ..User::default() },
            creates_join_request: true,
            is_revoked: false,
            name: None,
            expire_date: Some(2000),
            member_limit: None,
            pending_join_request_count: Some(3),
            subscription_price: Some(40),
        },
        group(),
        invitation(),
    );
    assert_eq!(link.id, "https://t.me/+a");
    assert_eq!(link.use_count, Some(3));
    assert_eq!(link.options.name, None);
    assert_eq!(link.options.expires_at, Some(2000));
    assert!(link.options.require_approval);
    assert_eq!(
        link.options.subscription_price,
        Some(Money { currency: "XTR".to_owned(), amount: 40 })
    );
    let current = InviteLink { options: invitation(), ..link };
    let changed = InviteLinkOptions { expires_at: None, max_uses: None, ..invitation() };
    is_call(
        edit_invite_link(&current, &changed),
        "editChatInviteLink",
        r#"{"chat_id":-100,"creates_join_request":false,"invite_link":"https://t.me/+a","name":"Friends"}"#,
    );
}

#[test]
fn members_are_banned_promoted_and_listed() {
    is_call(
        ban_conversation_member(&group(), "7", seconds(60), true, 1000),
        "banChatMember",
        r#"{"chat_id":-100,"revoke_messages":true,"until_date":1060,"user_id":7}"#,
    );
    assert_eq!(
        refusal(ban_conversation_member(&group(), "7", seconds(u64::MAX), true, 1000)),
        "ban duration is too large"
    );
    assert_eq!(
        refusal(ban_conversation_member(&group(), "seven", None, true, 1000)),
        "invalid Telegram user id"
    );
    is_call(
        telegram_answer_join_request(true, &group(), "7"),
        "approveChatJoinRequest",
        r#"{"chat_id":-100,"user_id":7}"#,
    );
    is_call(
        handle_add_group_request("-100:7", false),
        "declineChatJoinRequest",
        r#"{"chat_id":-100,"user_id":7}"#,
    );
    let kicked = kick_group_member("-100", "7", Some(false)).unwrap();
    assert_eq!(kicked.len(), 2);
    assert_eq!(kick_group_member("-100", "7", None).unwrap().len(), 1);
    assert_eq!(
        refusal(mute_group("-100", seconds(60), GroupMuteType::Mute)),
        "Telegram does not support expiring chat-wide permissions; mute members individually for a temporary mute"
    );
    let promoted = change_group_admin("-100", "7", true).unwrap();
    assert_eq!(promoted.payload.bool_at("can_manage_chat"), Some(true));
    assert_eq!(promoted.payload.bool_at("can_promote_members"), Some(false));
    assert_eq!(
        refusal(set_group_member_alias("-100", "7", "seventeen letters")),
        "Telegram administrator custom titles are limited to 16 characters"
    );
    assert_eq!(
        refusal(list_conversation_members(&group(), &page(Some("next"), None))),
        "Telegram administrator lists do not support cursors"
    );
    assert_eq!(wanted_members(&page(None, Some(2)), 5), 2);
    assert_eq!(wanted_members(&page(None, None), 5), 5);
}

#[test]
fn a_member_without_permissions_manages_nothing() {
    let none = || PermissionSet { allow: vec![], deny: vec![] };
    let rights = telegram_administrator_permissions(Fields::new(), &none());
    assert_eq!(rights.len(), 10);
    for index in 0..rights.len() {
        assert_eq!(rights.entry(index).1, &Json::Bool(false));
    }
    let requests = set_member_permissions(&group(), "7", &none()).unwrap();
    let methods: Vec<&str> = requests.iter().map(|request| request.method.as_str()).collect();
    assert_eq!(methods, ["promoteChatMember", "restrictChatMember"]);
    let leader = PermissionSet { allow: vec![ConversationPermission::BanMembers], deny: vec![] };
    let requests = set_member_permissions(&group(), "7", &leader).unwrap();
    assert_eq!(requests.len(), 1);
    assert_eq!(requests[0].payload.bool_at("can_restrict_members"), Some(true));
    assert_eq!(requests[0].payload.bool_at("can_manage_chat"), Some(true));
}

fn surface(kind: AppSurfaceKind, content: SurfaceContent) -> AppSurface {
    AppSurface {
        id: None,
        title: None,
        kind,
        content,
        user_id: None,
        conversation: Some(place("7", ConversationKind::Direct)),
        platform_data: None,
    }
}

#[test]
fn surfaces_are_chat_menus() {
    let app = || SurfaceContent::MiniApp { url: "https://example.com/app".to_owned() };
    is_call(
        publish_surface(&surface(AppSurfaceKind::ChatMenu, app())),
        "setChatMenuButton",
        r#"{"chat_id":7,"menu_button":{"text":"Open","type":"web_app","web_app":{"url":"https://example.com/app"}}}"#,
    );
    is_call(
        delete_surface(&surface(AppSurfaceKind::ChatMenu, app())),
        "setChatMenuButton",
        r#"{"chat_id":7,"menu_button":{"type":"default"}}"#,
    );
    assert_eq!(
        refusal(publish_surface(&surface(AppSurfaceKind::Home, app()))),
        "Telegram exposes only the chat menu as a persistent app surface"
    );
    assert_eq!(
        missing(publish_surface(&surface(AppSurfaceKind::ChatMenu, SurfaceContent::Layout))),
        "this content in the Telegram chat-menu surface"
    );
    let personal =
        AppSurface { user_id: Some("7".to_owned()), ..surface(AppSurfaceKind::ChatMenu, app()) };
    assert_eq!(
        refusal(publish_surface(&personal)),
        "Telegram chat-menu surfaces cannot be scoped to a user or carry outer native data"
    );
}

fn localized(default: &str, translation: Option<(&str, &str)>) -> Localized {
    let mut translations = TextMap::new();
    if let Some((locale, text)) = translation {
        translations.insert(locale, text.to_owned());
    }
    Localized { default: default.to_owned(), translations }
}

fn definition() -> CommandDefinition {
    CommandDefinition {
        id: None,
        name: localized("start", None),
        description: localized("Start", Some(("de", "Los"))),
        kind: CommandKind::ChatInput,
        options: 0,
        has_default_permissions: false,
        contexts: vec![CommandContext::Any],
        ephemeral: false,
        platform_data: None,
    }
}

#[test]
fn commands_are_set_in_every_language() {
    let plan = set_command_definitions(&vec![definition()]).unwrap();
    assert!(plan.failure.is_none());
    let calls: Vec<(String, String)> = plan.requests.into_iter().map(shown).collect();
    assert_eq!(
        calls,
        vec![
            (
                "setMyCommands".to_owned(),
                r#"{"commands":[{"command":"start","description":"Start","is_ephemeral":false}],"scope":{"type":"default"}}"#
                    .to_owned()
            ),
            (
                "setMyCommands".to_owned(),
                r#"{"commands":[{"command":"start","description":"Los","is_ephemeral":false}],"language_code":"de","scope":{"type":"default"}}"#
                    .to_owned()
            ),
        ]
    );
    let typed = CommandDefinition { options: 1, ..definition() };
    assert_eq!(
        refusal(set_command_definitions(&vec![typed])),
        "Telegram command menus cannot register typed options, targets, or default permissions"
    );
    let read = read_command_definitions(vec![BotCommand {
        command: "start".to_owned(),
        description: "Start".to_owned(),
        is_ephemeral: true,
    }]);
    assert_eq!(
        read,
        vec![CommandDefinition {
            description: localized("Start", None),
            ephemeral: true,
            ..definition()
        }]
    );
}

fn suggestion(message: Option<OutgoingMessage>) -> Suggestion {
    Suggestion {
        id: "1".to_owned(),
        title: "One".to_owned(),
        description: None,
        image: None,
        value: FormValue::Integer(5),
        message,
        platform_data: None,
    }
}

#[test]
fn suggestions_are_answered() {
    let request = |data: Option<PlatformNativeData>| SuggestionRequest {
        id: "q".to_owned(),
        platform_data: data,
    };
    is_call(
        answer_suggestion_request(
            &request(native(r#"{"id":"q","query":"x","cache_time":5}"#)),
            &vec![suggestion(None)],
            &Some("next".to_owned()),
        ),
        "answerInlineQuery",
        r#"{"cache_time":5,"inline_query_id":"q","next_offset":"next","results":[{"id":"1","input_message_content":{"message_text":"5"},"title":"One","type":"article"}]}"#,
    );
    assert_eq!(
        refusal(answer_suggestion_request(
            &request(native(r#"{"results":[]}"#)),
            &vec![],
            &None
        )),
        "unsupported Telegram inline-query answer field \"results\""
    );
    let many: Vec<Suggestion> = (0..51).map(|_| suggestion(None)).collect();
    assert_eq!(
        refusal(answer_suggestion_request(&request(None), &many, &None)),
        "Telegram inline queries support at most 50 results"
    );
    let silent = OutgoingMessage {
        options: MessageOptions { notification: NotificationPolicy::Silent, ..options() },
        ..outgoing("Hi")
    };
    assert_eq!(
        refusal(answer_suggestion_request(
            &request(None),
            &vec![suggestion(Some(silent))],
            &None
        )),
        "Telegram inline result messages do not support these portable message options"
    );
}

#[test]
fn mini_apps_are_answered() {
    is_call(
        answer_mini_app_query(&Some("q".to_owned()), outgoing("Hi")),
        "answerWebAppQuery",
        r#"{"result":{"id":"q","input_message_content":{"message_text":"Hi"},"title":"Web App result","type":"article"},"web_app_query_id":"q"}"#,
    );
    assert_eq!(
        refusal(answer_mini_app_query(&None, outgoing("Hi"))),
        "Telegram Web App query has no query_id"
    );
    let sent = mini_app_message(&doc(r#"{"inline_message_id":"i"}"#), Some(group()));
    assert_eq!(
        sent,
        vec![MessageRef {
            id: "i".to_owned(),
            conversation: Some(group()),
            platform_data: native(r#"{"inline_message_id":"i"}"#),
        }]
    );
    assert!(mini_app_message(&doc("{}"), None).is_empty());
}

fn handle(data: Option<PlatformNativeData>) -> InteractionResponseHandle {
    InteractionResponseHandle { id: "callback".to_owned(), platform_data: data }
}

#[test]
fn interactions_lead_back_to_their_chat() {
    let pressed = || {
        handle(native(
            r#"{"chat_id":-100,"chat_type":"supergroup","message_id":5,"user_id":7}"#,
        ))
    };
    let (target, _) = send_interaction_followup(&pressed(), outgoing("Hi")).unwrap();
    assert_eq!(target.conversation, group());
    assert!(target.recipients.is_empty());
    let hidden = OutgoingMessage {
        options: MessageOptions { visibility: MessageVisibility::Ephemeral, ..options() },
        ..outgoing("Hi")
    };
    let (target, _) = send_interaction_followup(&pressed(), hidden).unwrap();
    assert_eq!(target.recipients, vec!["7".to_owned()]);
    assert_eq!(target.platform_data, native(r#"{"callback_query_id":"callback"}"#));
    assert_eq!(
        refusal(send_interaction_followup(
            &handle(native(r#"{"inline_message_id":"i"}"#)),
            outgoing("Hi")
        )),
        "Telegram interaction follow-up requires chat_id"
    );
    assert_eq!(telegram_interaction_message_ref(&pressed()), Ok(message("5")));
    assert_eq!(
        refusal(telegram_interaction_message_ref(&handle(None))),
        "Telegram interaction response has no message context"
    );
    is_call(
        delete_interaction_response(&pressed()),
        "deleteMessage",
        r#"{"chat_id":-100,"message_id":5}"#,
    );
    assert_eq!(
        missing(delete_interaction_response(&handle(native(r#"{"inline_message_id":"i"}"#)))),
        "deleting Telegram inline messages"
    );
}

#[test]
fn messages_are_replaced() {
    let edited = |reference: &MessageRef, message: OutgoingMessage| {
        match telegram_edit_outgoing(reference, message.content, &message.options) {
            Ok(EditStep::Call(request)) => shown(request),
            other => panic!("unexpected {other:?}"),
        }
    };
    assert_eq!(
        edited(&message("5"), outgoing("New")),
        (
            "editMessageText".to_owned(),
            r#"{"chat_id":-100,"message_id":5,"reply_markup":{"inline_keyboard":[]},"text":"New"}"#
                .to_owned()
        )
    );
    let ephemeral =
        MessageRef { platform_data: native(r#"{"receiver_user_id":7}"#), ..message("4") };
    assert_eq!(edited(&ephemeral, outgoing("New")).0, "editEphemeralMessageText");
    let loud = MessageOptions { protect_content: true, ..options() };
    assert_eq!(
        refusal(telegram_edit_outgoing(&message("5"), outgoing("New").content, &loud)),
        "Telegram message edits do not support reply, delivery, visibility, mention, protection, idempotency, or metadata changes"
    );
    assert_eq!(
        refusal(telegram_edit_outgoing(&message("5"), vec![], &options())),
        "Telegram can replace a message with exactly one content item"
    );
    let hidden = MessageOptions { visibility: MessageVisibility::Ephemeral, ..options() };
    assert_eq!(
        refusal(telegram_edit_outgoing(&message("5"), outgoing("New").content, &hidden)),
        "MessageVisibility::Ephemeral requires an ephemeral Telegram message reference"
    );
}

#[test]
fn checklists_are_edited_for_a_business() {
    let list = Checklist {
        id: None,
        title: RichText { text: "Plan".to_owned(), spans: vec![] },
        tasks: vec![ChecklistTask {
            id: None,
            text: RichText { text: "One".to_owned(), spans: vec![] },
            completed: false,
            completed_by: None,
            completed_at: None,
            platform_data: None,
        }],
        can_add_tasks: true,
        can_mark_tasks_done: false,
        platform_data: None,
    };
    assert_eq!(
        refusal(edit_checklist(&message("5"), &list)),
        "Telegram checklist edits require business_connection_id in the conversation"
    );
    let business = MessageRef {
        conversation: Some(ConversationRef {
            platform_data: native(r#"{"business_connection_id":"b"}"#),
            ..group()
        }),
        ..message("5")
    };
    is_call(
        edit_checklist(&business, &list),
        "editMessageChecklist",
        r#"{"business_connection_id":"b","chat_id":-100,"checklist":{"others_can_add_tasks":true,"others_can_mark_tasks_as_done":false,"tasks":[{"id":1,"text":"One","text_entities":[]}],"title":"Plan","title_entities":[]},"message_id":5}"#,
    );
}

#[test]
fn messages_answer_others_and_are_drafted() {
    let target = || MessageTarget {
        conversation: topic(),
        recipients: vec![],
        platform_data: None,
    };
    let replying = MessageOptions {
        reply: Some(ReplyOptions {
            message: message("3"),
            quote: Some(RichText { text: "said".to_owned(), spans: vec![] }),
            quote_position: Some(4),
            allow_without_original: true,
            notify_original_sender: None,
            platform_data: None,
        }),
        ..options()
    };
    let content =
        vec![MessageContent::PlainText("a".to_owned()), MessageContent::PlainText("b".to_owned())];
    let mut context = match begin_outgoing(target(), &content, &replying).unwrap() {
        Start::Send(context) => context,
        other => panic!("unexpected {other:?}"),
    };
    let calls: Vec<(String, String)> = content
        .into_iter()
        .map(|item| match telegram_send_outgoing(&mut context, item).unwrap() {
            Step::Call(request) => shown(request),
            other => panic!("unexpected {other:?}"),
        })
        .collect();
    assert_eq!(
        calls[0].1,
        r#"{"chat_id":-100,"disable_notification":false,"message_thread_id":17,"protect_content":false,"reply_parameters":{"allow_sending_without_reply":true,"chat_id":-100,"message_id":3,"quote":"said","quote_entities":[],"quote_position":4},"text":"a"}"#
    );
    assert_eq!(
        calls[1].1,
        r#"{"chat_id":-100,"disable_notification":false,"message_thread_id":17,"protect_content":false,"text":"b"}"#
    );

    let draft = MessageOptions {
        delivery_time: DeliveryTime::Draft,
        platform_data: native(r#"{"draft_id":9}"#),
        ..options()
    };
    let words = vec![MessageContent::PlainText("soon".to_owned())];
    match begin_outgoing(target(), &words, &draft).unwrap() {
        Start::Draft { call, id, conversation } => {
            assert_eq!(
                shown(call),
                (
                    "sendMessageDraft".to_owned(),
                    r#"{"chat_id":-100,"draft_id":9,"entities":[],"message_thread_id":17,"text":"soon"}"#
                        .to_owned()
                )
            );
            let reference = draft_ref(id, conversation);
            assert_eq!(reference.id, "draft:9");
            assert_eq!(reference.platform_data, native(r#"{"draft_id":9}"#));
        }
        other => panic!("unexpected {other:?}"),
    }
    let later = MessageOptions { delivery_time: DeliveryTime::Scheduled(5), ..options() };
    assert_eq!(
        refusal(begin_outgoing(target(), &words, &later)),
        "Telegram Bot API does not support scheduled messages"
    );
    let named = MessageOptions { idempotency_key: Some("k".to_owned()), ..options() };
    assert_eq!(
        refusal(begin_outgoing(target(), &words, &named)),
        "Telegram Bot API does not expose message idempotency keys or portable metadata"
    );
    let hidden = MessageOptions { visibility: MessageVisibility::Ephemeral, ..options() };
    assert_eq!(
        refusal(begin_outgoing(target(), &words, &hidden)),
        "Telegram ephemeral messages require a receiver or callback_query_id"
    );
    let overriding =
        MessageOptions { platform_data: native(r#"{"chat_id":1}"#), ..options() };
    assert_eq!(
        refusal(begin_outgoing(target(), &words, &overriding)),
        "message options duplicates field \"chat_id\""
    );
}

fn profile() -> ConversationProfile {
    ConversationProfile {
        name: None,
        username: None,
        description: None,
        avatar: None,
        member_count: None,
        kind: None,
        parent: None,
        default_permissions: None,
        slow_mode: None,
        archived: None,
        created_at: None,
        locale: None,
        metadata: Fields::new(),
        platform_data: None,
    }
}

fn steps(result: Result<Vec<ProfileStep>, Error>) -> Vec<(String, String)> {
    result
        .unwrap()
        .into_iter()
        .map(|step| match step {
            ProfileStep::Call(request) => shown(request),
            ProfileStep::Avatar(payload) => {
                ("avatar".to_owned(), encode(&Json::Object(payload)).unwrap())
            }
        })
        .collect()
}

#[test]
fn conversation_profiles_are_changed_and_read() {
    let changed = ConversationProfile {
        name: Some("Club".to_owned()),
        slow_mode: seconds(30),
        platform_data: native(r#"{"delete_photo":true}"#),
        ..profile()
    };
    assert_eq!(
        steps(set_conversation_profile(&group(), &changed)),
        vec![
            ("setChatTitle".to_owned(), r#"{"chat_id":-100,"title":"Club"}"#.to_owned()),
            (
                "setChatSlowModeDelay".to_owned(),
                r#"{"chat_id":-100,"slow_mode_delay":30}"#.to_owned()
            ),
            ("deleteChatPhoto".to_owned(), r#"{"chat_id":-100}"#.to_owned()),
        ]
    );
    assert_eq!(
        refusal(set_conversation_profile(
            &group(),
            &ConversationProfile { slow_mode: seconds(31), ..profile() }
        )),
        "Telegram slow mode accepts 0, 10, 30, 60, 300, 900, or 3600 seconds"
    );
    assert_eq!(
        refusal(set_conversation_profile(
            &group(),
            &ConversationProfile { username: Some("club".to_owned()), ..profile() }
        )),
        "Telegram cannot set read-only conversation profile fields"
    );
    assert_eq!(
        refusal(set_conversation_profile(
            &group(),
            &ConversationProfile { name: Some(String::new()), ..profile() }
        )),
        "Telegram chat titles must contain 1 to 128 characters"
    );
    assert_eq!(
        refusal(set_conversation_profile(
            &group(),
            &ConversationProfile { platform_data: native(r#"{"new":1}"#), ..profile() }
        )),
        "unsupported Telegram conversation profile fields: [\"new\"]"
    );

    let chat = doc(
        r#"{"id":-100,"type":"supergroup","title":"Club","bio":"About","linked_chat_id":-200,"slow_mode_delay":10,"photo":{"big_file_id":"big"}}"#,
    );
    is_call(
        Ok(member_count_call(&group(), &chat).unwrap().unwrap()),
        "getChatMemberCount",
        r#"{"chat_id":-100}"#,
    );
    let read = read_conversation_profile(&group(), &chat, Some(12)).unwrap();
    assert_eq!(read.name.as_deref(), Some("Club"));
    assert_eq!(read.description.as_deref(), Some("About"));
    assert_eq!(read.member_count, Some(12));
    assert_eq!(read.kind, Some(ConversationKind::Group));
    assert_eq!(read.parent, Some(place("-200", ConversationKind::Unknown)));
    assert_eq!(read.slow_mode, seconds(10));
    assert_eq!(read.avatar.unwrap().id.as_deref(), Some("big"));
    assert_eq!(read_conversation_profile(&group(), &chat, Some(-1)).unwrap().member_count, None);
    let person = doc(r#"{"id":7,"type":"private","first_name":"Ann"}"#);
    assert_eq!(member_count_call(&group(), &person), Ok(None));
    let read = read_conversation_profile(&group(), &person, None).unwrap();
    assert_eq!(read.name.as_deref(), Some("Ann"));
    assert_eq!(
        refusal(read_conversation_profile(&group(), &doc("[]"), None)),
        "Telegram returned an invalid ChatFullInfo"
    );
}

#[test]
fn groups_and_bots_have_profiles() {
    let named = GroupProfile { name: Some("Club".to_owned()), avatar: None, member_count: None };
    assert_eq!(
        steps(set_group_profile("-100", &named)),
        vec![("setChatTitle".to_owned(), r#"{"chat_id":-100,"title":"Club"}"#.to_owned())]
    );

    let asked: Vec<(String, String)> = get_bot_profile_v2().into_iter().map(shown).collect();
    let methods: Vec<&str> = asked.iter().map(|(method, _)| method.as_str()).collect();
    assert_eq!(
        methods,
        [
            "getMyName",
            "getMyDescription",
            "getMyShortDescription",
            "getMyDefaultAdministratorRights"
        ]
    );
    let read = read_bot_profile(
        &doc(r#"{"name":"Bot"}"#),
        &doc(r#"{"description":"Long"}"#),
        &doc(r#"{"short_description":"Short"}"#),
        &doc(r#"{"can_pin_messages":true}"#),
    );
    assert_eq!(read.names.get(""), Some(&"Bot".to_owned()));
    assert_eq!(read.descriptions.get(""), Some(&"Long".to_owned()));
    assert_eq!(read.short_descriptions.get(""), Some(&"Short".to_owned()));
    assert_eq!(
        read.default_permissions.unwrap().allow,
        vec![ConversationPermission::PinMessages]
    );

    let mut names = TextMap::new();
    names.insert("", "Bot".to_owned());
    names.insert("de", "Roboter".to_owned());
    let plan = set_bot_profile_v2(&BotProfile {
        names,
        descriptions: TextMap::new(),
        short_descriptions: TextMap::new(),
        avatar: None,
        default_permissions: None,
        platform_data: native(r#"{"remove_photo":true,"other":1}"#),
    });
    assert_eq!(
        plan.failure,
        Some(Error::Message("unsupported Telegram bot profile fields: [\"other\"]".to_owned()))
    );
    assert_eq!(
        steps(Ok(plan.steps)),
        vec![
            ("setMyName".to_owned(), r#"{"name":"Bot"}"#.to_owned()),
            (
                "setMyName".to_owned(),
                r#"{"language_code":"de","name":"Roboter"}"#.to_owned()
            ),
            ("removeMyProfilePhoto".to_owned(), "{}".to_owned()),
        ]
    );
}

#[test]
fn payments_are_answered() {
    let shipping = ShippingOption {
        id: "s".to_owned(),
        title: "Post".to_owned(),
        prices: vec![LineItem {
            label: "Fee".to_owned(),
            amount: Money { currency: "EUR".to_owned(), amount: 500 },
            quantity: None,
        }],
    };
    is_call(
        answer_shipping_request("r", &vec![shipping], &None),
        "answerShippingQuery",
        r#"{"ok":true,"shipping_options":[{"id":"s","prices":[{"amount":500,"label":"Fee"}],"title":"Post"}],"shipping_query_id":"r"}"#,
    );
    is_call(
        answer_shipping_request("r", &vec![], &Some("Too far".to_owned())),
        "answerShippingQuery",
        r#"{"error_message":"Too far","ok":false,"shipping_query_id":"r"}"#,
    );
    is_call(
        answer_checkout_request("c", true, &None),
        "answerPreCheckoutQuery",
        r#"{"ok":true,"pre_checkout_query_id":"c"}"#,
    );
    assert_eq!(
        refusal(answer_checkout_request("c", false, &None)),
        "approved Telegram checkouts cannot include an error, and rejected checkouts require one"
    );
    let stars = Money { currency: "XTR".to_owned(), amount: 5 };
    is_call(
        refund_payment("charge", &stars, &Some("7".to_owned())),
        "refundStarPayment",
        r#"{"telegram_payment_charge_id":"charge","user_id":7}"#,
    );
    assert_eq!(
        refusal(refund_payment("charge", &stars, &None)),
        "Telegram refunds require the payer"
    );
    let euros = Money { currency: "EUR".to_owned(), amount: 5 };
    assert_eq!(
        refusal(refund_payment("charge", &euros, &Some("7".to_owned()))),
        "Telegram Bot API can refund only Telegram Star payments"
    );
}
