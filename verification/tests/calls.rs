//! Calls about conversations, members, menus, payments and profiles.
use telegram_bot_oxidebot::api::commands::telegram_chat_menu_response;
use telegram_bot_oxidebot::api::interactions::answer_interaction;
use telegram_bot_oxidebot::api::members::{
    mute_group_member, remove_conversation_member, set_member_tag, GroupMuteType,
};
use telegram_bot_oxidebot::api::menus::{
    delete_command_definitions, get_bot_commands, set_bot_commands, set_chat_menu,
};
use telegram_bot_oxidebot::api::messages::{delete_messages, edit_message_components, stop_poll};
use telegram_bot_oxidebot::api::payments::send_invoice;
use telegram_bot_oxidebot::api::permissions::{telegram_chat_permissions, telegram_permission_set};
use telegram_bot_oxidebot::api::poll::telegram_poll;
use telegram_bot_oxidebot::api::profiles::{
    avatar_file_upload, avatar_upload, check_avatar_size, find_age, finish_avatar,
    read_own_profile, AvatarSource, Day,
};
use telegram_bot_oxidebot::api::reactions::telegram_reaction;
use telegram_bot_oxidebot::api::suggestions::telegram_form_value_text;
use telegram_bot_oxidebot::application::{
    BotCommand, BotCommandQuery, BotCommandSet, ChatMenu, CommandScope, FormValue,
};
use telegram_bot_oxidebot::client::TelegramClient;
use telegram_bot_oxidebot::collaboration::Reaction;
use telegram_bot_oxidebot::commerce::{CustomerDetails, Invoice, InvoiceOptions, LineItem, Money};
use telegram_bot_oxidebot::content::Duration;
use telegram_bot_oxidebot::conversation::{
    ConversationKind, ConversationPermission, ConversationRef, MessageRef, MessageTarget,
    PermissionSet,
};
use telegram_bot_oxidebot::document::{encode, parse};
use telegram_bot_oxidebot::error::Error;
use telegram_bot_oxidebot::interaction::{InteractionNotificationStyle, InteractionResponse};
use telegram_bot_oxidebot::json::{Fields, Json};
use telegram_bot_oxidebot::source::File;
use telegram_bot_oxidebot::telegram::{Birthdate, TelegramFile};
use telegram_bot_oxidebot::uri::Uri;

fn written(payload: Fields) -> String {
    encode(&Json::Object(payload)).unwrap()
}

fn refusal<T: std::fmt::Debug>(result: Result<T, Error>) -> String {
    match result {
        Err(Error::Message(reason)) => reason,
        other => panic!("unexpected {other:?}"),
    }
}

fn conversation(id: &str) -> ConversationRef {
    ConversationRef {
        id: id.to_owned(),
        kind: ConversationKind::Direct,
        parent: None,
        platform_data: None,
    }
}

fn message(id: &str, chat: &str) -> MessageRef {
    MessageRef {
        id: id.to_owned(),
        conversation: Some(conversation(chat)),
        platform_data: None,
    }
}

#[test]
fn messages_are_deleted_chat_by_chat() {
    let plan = delete_messages(&vec![message("10", "42"), message("11", "42")]).unwrap();
    assert!(plan.failure.is_none());
    assert_eq!(plan.requests.len(), 1);
    let request = plan.requests.into_iter().next().unwrap();
    assert_eq!(request.method, "deleteMessages");
    assert_eq!(written(request.payload), r#"{"chat_id":42,"message_ids":[10,11]}"#);

    let many: Vec<MessageRef> = (0..201).map(|i| message(&i.to_string(), "42")).collect();
    let plan = delete_messages(&many).unwrap();
    let sizes: Vec<usize> = plan
        .requests
        .iter()
        .map(|request| request.payload.array_at("message_ids").unwrap().len())
        .collect();
    assert_eq!(sizes, vec![100, 100, 1]);
    assert_eq!(refusal(delete_messages(&vec![])), "no Telegram messages to delete");
}

#[test]
fn polls_are_stopped_and_read() {
    assert_eq!(stop_poll(&message("10", "42")).unwrap().method, "stopPoll");
    let answer = parse(
        r#"{"id":"poll-1","question":"Question?","options":[{"text":"Yes","voter_count":1},{"text":"No","voter_count":0}],"total_voter_count":1,"is_closed":true,"is_anonymous":true,"type":"regular","allows_multiple_answers":false}"#,
    )
    .unwrap();
    let poll = telegram_poll(&answer).unwrap();
    assert!(poll.closed);
    assert_eq!(poll.options[0].voter_count, Some(1));
    assert_eq!(poll.question.text, "Question?");
}

#[test]
fn members_are_tagged_removed_and_muted() {
    let request =
        set_member_tag(&conversation("42"), "7", &Some("helper".to_owned())).unwrap();
    assert_eq!(request.method, "setChatMemberTag");
    assert_eq!(written(request.payload), r#"{"chat_id":42,"tag":"helper","user_id":7}"#);

    let requests = remove_conversation_member(&conversation("-100"), "7").unwrap();
    let methods: Vec<&str> = requests.iter().map(|request| request.method.as_str()).collect();
    assert_eq!(methods, ["banChatMember", "unbanChatMember"]);

    let request = mute_group_member(
        "-100",
        "7",
        GroupMuteType::Mute,
        Some(Duration { seconds: 60, nanoseconds: 0 }),
        1000,
    )
    .unwrap();
    assert_eq!(request.method, "restrictChatMember");
    assert_eq!(request.payload.i64_at("until_date"), Some(1060));
}

#[test]
fn permissions_are_read_as_they_were_written() {
    let set = PermissionSet {
        allow: vec![ConversationPermission::SendMedia, ConversationPermission::ManageRoles],
        deny: vec![],
    };
    let written = telegram_chat_permissions(&set);
    assert_eq!(written.bool_at("can_send_photos"), Some(true));
    assert_eq!(written.bool_at("can_send_messages"), Some(false));
    let read = telegram_permission_set(&written);
    assert_eq!(read.allow, vec![ConversationPermission::SendMedia]);
    assert!(read.deny.contains(&ConversationPermission::SendMessages));
    assert!(!read.deny.contains(&ConversationPermission::ManageRoles));
}

#[test]
fn invoices_have_prices() {
    let target = MessageTarget {
        conversation: conversation("42"),
        recipients: vec![],
        platform_data: None,
    };
    let options = InvoiceOptions {
        provider_token: None,
        start_parameter: None,
        photo_url: None,
        protect_content: false,
        platform_data: None,
    };
    let invoice = |items: Vec<LineItem>| Invoice {
        id: None,
        title: "Support".to_owned(),
        description: "One month".to_owned(),
        payload: "support-monthly".to_owned(),
        items,
        customer_details: CustomerDetails {
            name: None,
            email: None,
            phone: None,
            shipping_address: None,
        },
        flexible_shipping: false,
        platform_data: None,
    };
    let item = LineItem {
        label: "Month".to_owned(),
        amount: Money { currency: "XTR".to_owned(), amount: 50 },
        quantity: Some(1),
    };
    let request = send_invoice(&target, &invoice(vec![item]), &options).unwrap();
    assert_eq!(request.method, "sendInvoice");
    assert_eq!(request.payload.text_at("currency"), Some("XTR"));
    assert_eq!(
        refusal(send_invoice(&target, &invoice(vec![]), &options)),
        "Telegram invoices require prices"
    );
}

#[test]
fn interactions_commands_and_menus_use_telegram_methods() {
    let answer = answer_interaction(
        "callback-1",
        &InteractionResponse::Notification {
            text: "Done".to_owned(),
            style: InteractionNotificationStyle::Toast,
            cache_time: None,
        },
    )
    .unwrap();
    assert_eq!(answer.method, "answerCallbackQuery");
    assert_eq!(answer.payload.text_at("text"), Some("Done"));

    let set = BotCommandSet {
        commands: vec![BotCommand {
            command: "start".to_owned(),
            description: "Start".to_owned(),
            is_ephemeral: true,
        }],
        scope: CommandScope::Default,
        language_code: None,
    };
    let request = set_bot_commands(&set).unwrap();
    assert_eq!(request.method, "setMyCommands");
    assert!(written(request.payload).contains(r#""is_ephemeral":true"#));
    let query = BotCommandQuery { scope: CommandScope::Default, language_code: None };
    assert_eq!(get_bot_commands(&query).unwrap().method, "getMyCommands");
    let request = delete_command_definitions(&Some(conversation("42"))).unwrap();
    assert_eq!(request.method, "deleteMyCommands");
    assert_eq!(written(request.payload), r#"{"scope":{"chat_id":42,"type":"chat"}}"#);

    let menu = ChatMenu::WebApp {
        text: "Open".to_owned(),
        url: "https://example.com/app".to_owned(),
    };
    let request = set_chat_menu(&Some("42".to_owned()), &menu).unwrap();
    assert_eq!(request.method, "setChatMenuButton");
    let button = request.payload.member("menu_button").unwrap();
    assert_eq!(telegram_chat_menu_response(button), Ok(menu));

    let request = edit_message_components("42_10", &None).unwrap();
    assert_eq!(request.method, "editMessageReplyMarkup");
    assert!(written(request.payload).contains(r#""reply_markup":{"inline_keyboard":[]}"#));
}

#[test]
fn values_have_texts() {
    let text = |value: FormValue| telegram_form_value_text(&value).unwrap();
    assert_eq!(text(FormValue::Date { days: 719_163 }), "1970-01-01");
    assert_eq!(text(FormValue::Time { seconds: 3661, nanoseconds: 0 }), "01:01:01");
    assert_eq!(
        text(FormValue::DateTime { timestamp: 0, nanoseconds: 0 }),
        "1970-01-01T00:00:00+00:00"
    );
    assert_eq!(text(FormValue::Json(parse(r#"{"b": 1, "a": [ ]}"#).unwrap())), r#"{"a":[],"b":1}"#);
    assert_eq!(text(FormValue::Boolean(true)), "true");
    assert_eq!(
        refusal(telegram_form_value_text(&FormValue::Time { seconds: 86_400, nanoseconds: 0 })),
        "inline suggestion date is out of range"
    );
    assert_eq!(
        refusal(telegram_form_value_text(&FormValue::Json(Json::Integer(i128::MIN)))),
        "inline suggestion document holds a number out of range"
    );
}

#[test]
fn reactions_are_written() {
    let reaction = telegram_reaction(&Reaction::UnicodeEmoji("\u{1f44d}".to_owned())).unwrap();
    assert_eq!(encode(&reaction).unwrap(), "{\"emoji\":\"\u{1f44d}\",\"type\":\"emoji\"}");
    let native = Reaction::PlatformNative {
        platform: "telegram".to_owned(),
        data: r#"{"type": "new"}"#.to_owned(),
    };
    assert_eq!(encode(&telegram_reaction(&native).unwrap()).unwrap(), r#"{"type":"new"}"#);
    let broken =
        Reaction::PlatformNative { platform: "telegram".to_owned(), data: "{".to_owned() };
    assert!(telegram_reaction(&broken).is_err());
    assert_eq!(
        refusal(telegram_reaction(&Reaction::Paid)),
        "Telegram bots cannot set paid reactions"
    );
}

#[test]
fn pictures_are_found_and_typed() {
    let upload = finish_avatar("me.png".to_owned(), vec![1]);
    assert_eq!(upload.mime.as_deref(), Some("image/png"));
    assert_eq!(finish_avatar("me".to_owned(), vec![1]).mime, None);
    assert!(check_avatar_size(10_485_760).is_ok());
    assert_eq!(refusal(check_avatar_size(10_485_761)), "group avatar is larger than 10 MiB");
    let uri = |scheme: &str| Uri {
        text: "x://host/a/me.png".to_owned(),
        scheme: Some(scheme.to_owned()),
        has_authority: true,
        path: "/a/me.png".to_owned(),
    };
    assert_eq!(
        avatar_upload(&uri("https")),
        Ok(AvatarSource::Download {
            url: "x://host/a/me.png".to_owned(),
            name: "me.png".to_owned(),
        })
    );
    assert_eq!(
        refusal(avatar_upload(&uri("ftp"))),
        "unsupported avatar URI scheme \"ftp\""
    );
    let carried = File {
        id: None,
        name: "me.png".to_owned(),
        uri: None,
        base64: Some("AQI=".to_owned()),
        mime: None,
        size: None,
    };
    match avatar_file_upload(&carried) {
        Ok(AvatarSource::Ready(upload)) => assert_eq!(upload.bytes, vec![1, 2]),
        other => panic!("unexpected {other:?}"),
    }
}

#[test]
fn profiles_are_read() {
    let born = Birthdate { day: 2, month: 3, year: Some(2000) };
    assert_eq!(find_age(&born, Day { year: 2026, month: 3, day: 1 }), Some(25));
    assert_eq!(find_age(&born, Day { year: 2026, month: 3, day: 2 }), Some(26));
    assert_eq!(find_age(&born, Day { year: 1999, month: 3, day: 2 }), None);
    let profile = read_own_profile(Some("bot".to_owned()), "about".to_owned());
    assert_eq!(profile.signature.as_deref(), Some("about"));

    let client = match TelegramClient::with_api_base("1:a", "http://localhost") {
        Ok(client) => client,
        Err(error) => panic!("{error:?}"),
    };
    let file = client
        .get_file_info(TelegramFile {
            file_id: "f".to_owned(),
            file_unique_id: "u".to_owned(),
            file_size: Some(3),
            file_path: Some("photos/me.png".to_owned()),
        })
        .unwrap();
    assert_eq!(file.mime.as_deref(), Some("image/png"));
    let uri = file.uri.unwrap();
    assert_eq!(uri.text, "http://localhost/file/bot1:a/photos/me.png");
    assert_eq!(uri.scheme.as_deref(), Some("http"));
    assert_eq!(uri.path, "/file/bot1:a/photos/me.png");
}
