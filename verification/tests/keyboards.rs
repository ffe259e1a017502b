//! Keyboards, commands, permissions and documents.
use telegram_bot_oxidebot::api::commands::{validate_commands, validate_language_code};
use telegram_bot_oxidebot::api::keyboard::telegram_message_components;
use telegram_bot_oxidebot::api::permissions::chat_permissions;
use telegram_bot_oxidebot::api::platform::platform_form_value;
use telegram_bot_oxidebot::application::BotCommand;
use telegram_bot_oxidebot::document::{encode, parse};
use telegram_bot_oxidebot::error::Error;
use telegram_bot_oxidebot::interaction::{
    ActionRow, Button, ButtonAction, ButtonIcon, ButtonStyle, ChosenChatCriteria, InlineKeyboard,
    InlineQueryTarget, InteractionComponent, LoginAction, MessageComponents, PollKind, ReplyButton,
    ReplyButtonAction, ReplyButtonRow, ReplyKeyboard, RequestChat, RequestManagedBot, RequestUsers,
};
use telegram_bot_oxidebot::json::{strip_nulls, Json};
use telegram_bot_oxidebot::native::{PlatformNativeData, SERVER};

fn doc(text: &str) -> Json {
    parse(text).unwrap()
}

/// The value under a path of member names and indices.
fn at<'a>(value: &'a Json, path: &[&str]) -> &'a Json {
    let mut value = value;
    for step in path {
        value = match value {
            Json::Array(items) => &items[step.parse::<usize>().unwrap()],
            other => other.get(step).unwrap(),
        };
    }
    value
}

fn text(value: &str) -> Json {
    Json::Text(value.to_owned())
}

fn button(label: &str, action: ButtonAction) -> Button {
    Button {
        label: label.to_owned(),
        action,
        style: ButtonStyle::Default,
        disabled: false,
        icon: None,
    }
}

fn callback(label: &str, data: &str) -> Button {
    button(label, ButtonAction::Callback { data: data.to_owned() })
}

fn inline(buttons: Vec<Button>) -> MessageComponents {
    let components = buttons.into_iter().map(InteractionComponent::Button).collect();
    MessageComponents::InlineKeyboard(InlineKeyboard { rows: vec![ActionRow { components }] })
}

fn reply_button(label: &str, action: ReplyButtonAction) -> ReplyButton {
    ReplyButton { label: label.to_owned(), action, style: ButtonStyle::Default, icon: None }
}

fn reply_keyboard(buttons: Vec<ReplyButton>) -> ReplyKeyboard {
    ReplyKeyboard {
        rows: vec![ReplyButtonRow { buttons }],
        resize: false,
        one_time: false,
        persistent: false,
        input_field_placeholder: None,
        selective: false,
    }
}

#[test]
fn permissions_include_bot_api_10_reaction_permission() {
    assert_eq!(at(&chat_permissions(false), &["can_react_to_messages"]), &Json::Bool(false));
    assert_eq!(at(&chat_permissions(true), &["can_send_messages"]), &Json::Bool(true));
    assert_eq!(at(&chat_permissions(true), &["can_change_info"]), &Json::Bool(false));
    assert_eq!(at(&chat_permissions(true), &["can_edit_tag"]), &Json::Bool(false));
}

#[test]
fn optional_json_fields_are_omitted_instead_of_sent_as_null() {
    let value = doc(
        r#"{"text": "hello", "reply_parameters": null, "nested": {"caption": null, "type": "photo"}}"#,
    );
    assert_eq!(strip_nulls(value), doc(r#"{"text": "hello", "nested": {"type": "photo"}}"#));
}

#[test]
fn null_items_of_arrays_stay() {
    let value = doc(r#"[null, {"a": null, "b": [null]}]"#);
    let once = strip_nulls(value);
    assert_eq!(once, doc(r#"[null, {"b": [null]}]"#));
    assert_eq!(strip_nulls(once), doc(r#"[null, {"b": [null]}]"#));
}

#[test]
fn platform_form_values_use_telegram_encoding() {
    assert_eq!(platform_form_value(&doc("42")).unwrap(), "42");
    assert_eq!(platform_form_value(&doc("true")).unwrap(), "true");
    assert_eq!(platform_form_value(&doc(r#"{"type": "photo"}"#)).unwrap(), r#"{"type":"photo"}"#);
    assert!(platform_form_value(&Json::Null).is_err());
}

#[test]
fn form_values_keep_texts_and_write_numbers() {
    assert_eq!(platform_form_value(&text("a \"b\"")).unwrap(), "a \"b\"");
    assert_eq!(platform_form_value(&doc("[1.50, \"x\", -3]")).unwrap(), r#"[1.5,"x",-3]"#);
    assert_eq!(
        platform_form_value(&Json::Null),
        Err(Error::Message("null multipart parameters must be omitted".to_owned()))
    );
    assert_eq!(
        platform_form_value(&Json::Integer(i128::MAX)),
        Err(Error::Message("failed to encode multipart parameter".to_owned()))
    );
}

#[test]
fn documents_are_read_and_written() {
    let value = doc(r#" {"b": [1, -2, 18446744073709551615, 2.5e0, "xé", null, true], "a": {}} "#);
    assert_eq!(
        encode(&value).unwrap(),
        "{\"a\":{},\"b\":[1,-2,18446744073709551615,2.5,\"x\u{e9}\",null,true]}"
    );
    assert_eq!(at(&value, &["b", "2"]), &Json::Integer(18446744073709551615));
    assert_eq!(at(&value, &["b", "3"]), &Json::Real("2.5".to_owned()));
    assert!(parse("{").is_err());
    assert_eq!(encode(&Json::Real("not a number".to_owned())), None);
    assert_eq!(encode(&Json::Integer(-9223372036854775809)), None);
}

#[test]
fn inline_keyboard_maps_common_actions_and_bot_api_10_2_style() {
    let mut confirm = callback("Confirm", "confirm");
    confirm.style = ButtonStyle::Success;
    confirm.icon = Some(ButtonIcon::Custom("emoji-id".to_owned()));
    let markup = telegram_message_components(&inline(vec![
        confirm,
        button("Docs", ButtonAction::Url { url: "https://example.com".to_owned() }),
        button("Open", ButtonAction::WebApp { url: "https://example.com/app".to_owned() }),
    ]))
    .unwrap();

    let row = ["inline_keyboard", "0"];
    let first = at(&markup, &[row[0], row[1], "0"]);
    assert_eq!(at(first, &["callback_data"]), &text("confirm"));
    assert_eq!(at(first, &["style"]), &text("success"));
    assert_eq!(at(first, &["icon_custom_emoji_id"]), &text("emoji-id"));
    assert_eq!(at(&markup, &[row[0], row[1], "1", "url"]), &text("https://example.com"));
    assert_eq!(
        at(&markup, &[row[0], row[1], "2", "web_app", "url"]),
        &text("https://example.com/app")
    );
}

#[test]
fn inline_keyboard_maps_telegram_advanced_actions() {
    let markup = telegram_message_components(&inline(vec![
        button(
            "Sign in",
            ButtonAction::Login(LoginAction {
                url: "https://example.com/login".to_owned(),
                forward_text: None,
                bot_username: None,
                request_write_access: false,
            }),
        ),
        button(
            "Choose",
            ButtonAction::SwitchInlineQuery {
                query: "query".to_owned(),
                target: InlineQueryTarget::ChosenChat(ChosenChatCriteria {
                    allow_user_chats: Some(true),
                    allow_bot_chats: None,
                    allow_group_chats: None,
                    allow_channel_chats: None,
                }),
            },
        ),
        button("Copy", ButtonAction::CopyText { text: "copied".to_owned() }),
    ]))
    .unwrap();

    assert_eq!(
        at(&markup, &["inline_keyboard", "0", "0", "login_url", "url"]),
        &text("https://example.com/login")
    );
    assert_eq!(
        at(
            &markup,
            &["inline_keyboard", "0", "1", "switch_inline_query_chosen_chat", "allow_user_chats"]
        ),
        &Json::Bool(true)
    );
    assert_eq!(
        at(&markup, &["inline_keyboard", "0", "2", "copy_text", "text"]),
        &text("copied")
    );
}

#[test]
fn reply_keyboard_maps_request_and_web_app_actions() {
    let markup = telegram_message_components(&MessageComponents::ReplyKeyboard(reply_keyboard(
        vec![
            reply_button(
                "Users",
                ReplyButtonAction::RequestUsers(RequestUsers {
                    request_id: 7,
                    user_is_bot: Some(false),
                    user_is_premium: None,
                    max_quantity: Some(3),
                    request_name: true,
                    request_username: true,
                    request_photo: false,
                }),
            ),
            reply_button("Location", ReplyButtonAction::RequestLocation),
            reply_button("Poll", ReplyButtonAction::RequestPoll { kind: Some(PollKind::Quiz) }),
        ],
    )))
    .unwrap();

    assert_eq!(
        at(&markup, &["keyboard", "0", "0", "request_users", "request_id"]),
        &Json::Integer(7)
    );
    assert_eq!(
        at(&markup, &["keyboard", "0", "0", "request_users", "max_quantity"]),
        &Json::Integer(3)
    );
    assert_eq!(at(&markup, &["keyboard", "0", "1", "request_location"]), &Json::Bool(true));
    assert_eq!(at(&markup, &["keyboard", "0", "2", "request_poll", "type"]), &text("quiz"));
}

#[test]
fn reply_keyboard_maps_chat_and_managed_bot_requests() {
    let request_chat = RequestChat {
        request_id: 9,
        chat_is_channel: false,
        chat_is_forum: None,
        chat_has_username: None,
        chat_is_created: None,
        bot_is_member: false,
        request_title: true,
        request_username: false,
        request_photo: false,
        platform_data: Some(PlatformNativeData {
            platform: SERVER.to_owned(),
            data: doc(
                r#"{"user_administrator_rights": {"can_manage_chat": true},
                    "bot_administrator_rights": {"can_manage_chat": true}}"#,
            ),
        }),
    };
    let mut keyboard = reply_keyboard(vec![
        reply_button("Chat", ReplyButtonAction::RequestChat(request_chat)),
        reply_button(
            "Bot",
            ReplyButtonAction::RequestManagedBot(RequestManagedBot {
                request_id: 10,
                suggested_name: Some("Helper".to_owned()),
                suggested_username: Some("helper_bot".to_owned()),
            }),
        ),
    ]);
    keyboard.persistent = true;
    keyboard.input_field_placeholder = Some("Choose one".to_owned());
    let markup =
        telegram_message_components(&MessageComponents::ReplyKeyboard(keyboard)).unwrap();

    let chat = at(&markup, &["keyboard", "0", "0", "request_chat"]);
    assert_eq!(at(chat, &["request_id"]), &Json::Integer(9));
    assert_eq!(
        at(chat, &["user_administrator_rights", "can_manage_chat"]),
        &Json::Bool(true)
    );
    assert_eq!(
        at(&markup, &["keyboard", "0", "1", "request_managed_bot", "request_id"]),
        &Json::Integer(10)
    );
    assert_eq!(at(&markup, &["is_persistent"]), &Json::Bool(true));
}

#[test]
fn telegram_rejects_unrepresentable_component_states() {
    let mut disabled = callback("Disabled", "disabled");
    disabled.disabled = true;
    assert!(telegram_message_components(&inline(vec![disabled])).is_err());

    let oversized = inline(vec![callback("Too large", &"x".repeat(65))]);
    assert!(telegram_message_components(&oversized).is_err());

    let send_text =
        inline(vec![button("Send", ButtonAction::SendText { text: "/start".to_owned() })]);
    assert!(telegram_message_components(&send_text).is_err());

    let oversized_copy =
        inline(vec![button("Copy", ButtonAction::CopyText { text: "x".repeat(257) })]);
    assert!(telegram_message_components(&oversized_copy).is_err());

    let insecure_web_app = inline(vec![button(
        "Open",
        ButtonAction::WebApp { url: "http://example.com/app".to_owned() },
    )]);
    assert!(telegram_message_components(&insecure_web_app).is_err());

    let misplaced_game =
        inline(vec![callback("First", "first"), button("Play", ButtonAction::Game)]);
    assert!(telegram_message_components(&misplaced_game).is_err());

    let wrong_platform = MessageComponents::PlatformNative(PlatformNativeData {
        platform: "discord".to_owned(),
        data: doc(r#"{"inline_keyboard": []}"#),
    });
    assert!(telegram_message_components(&wrong_platform).is_err());

    let mut invalid_placeholder =
        reply_keyboard(vec![reply_button("Choice", ReplyButtonAction::SendText)]);
    invalid_placeholder.input_field_placeholder = Some(String::new());
    assert!(
        telegram_message_components(&MessageComponents::ReplyKeyboard(invalid_placeholder))
            .is_err()
    );

    let mut empty_icon = callback("OK", "ok");
    empty_icon.icon = Some(ButtonIcon::Custom(String::new()));
    assert!(telegram_message_components(&inline(vec![empty_icon])).is_err());
}

#[test]
fn refusals_say_what_is_wrong() {
    let wrong = MessageComponents::PlatformNative(PlatformNativeData {
        platform: "dis\"cord".to_owned(),
        data: doc("{}"),
    });
    match telegram_message_components(&wrong) {
        Err(Error::Message(reason)) => {
            assert!(reason.contains("targets platform \"dis\\\"cord\", not Telegram"));
        }
        other => panic!("unexpected {other:?}"),
    }
    assert_eq!(
        telegram_message_components(&inline(vec![callback("Too large", &"x".repeat(65))])),
        Err(Error::Message("Telegram callback data must contain 1 to 64 bytes".to_owned()))
    );
    assert!(telegram_message_components(&inline(vec![callback("OK", &"x".repeat(64))])).is_ok());
    assert!(matches!(
        telegram_message_components(&inline(vec![button(
            "Send",
            ButtonAction::SendText { text: "/start".to_owned() }
        )])),
        Err(Error::Unsupported(_))
    ));
    assert!(
        telegram_message_components(&inline(vec![button(
            "Open",
            ButtonAction::Url { url: "tg://user?id=1".to_owned() }
        )]))
        .is_ok()
    );
    assert!(
        telegram_message_components(&inline(vec![button(
            "Open",
            ButtonAction::Url { url: "ftp://example.com".to_owned() }
        )]))
        .is_err()
    );
}

fn command(name: &str, description: &str) -> BotCommand {
    BotCommand {
        command: name.to_owned(),
        description: description.to_owned(),
        is_ephemeral: false,
    }
}

#[test]
fn telegram_validates_commands_and_ephemeral_flag() {
    validate_commands(&vec![command("start_2", "Start")]).unwrap();
    assert!(validate_commands(&vec![command("Start", "Start")]).is_err());
    assert!(validate_commands(&vec![command(&"x".repeat(33), "Start")]).is_err());
    validate_language_code(&Some("zh".to_owned())).unwrap();
    assert!(validate_language_code(&Some("zh-CN".to_owned())).is_err());

    let mut private = command("private", "Private response");
    private.is_ephemeral = true;
    assert!(private.is_ephemeral);
}
