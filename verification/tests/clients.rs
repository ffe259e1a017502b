//! The client, its errors, the bot, and Mini App data.
use hmac::{Hmac, KeyInit, Mac};
use sha2::Sha256;
use telegram_bot_oxidebot::bot::{Polling, TelegramBot};
use telegram_bot_oxidebot::client::{
    decode_response, get_file, invalid_answer_text, validate_method, ApiResponse, CallError,
    GetUpdatesConfig, ResponseParameters, TelegramApiError, TelegramClient, Update,
};
use telegram_bot_oxidebot::content::Duration;
use telegram_bot_oxidebot::document::{encode, parse};
use telegram_bot_oxidebot::error::Error;
use telegram_bot_oxidebot::json::Json;
use telegram_bot_oxidebot::telegram::{ChatMember, User};
use telegram_bot_oxidebot::web_app::decode_hex;

fn client(token: &str) -> TelegramClient {
    match TelegramClient::with_api_base(token, "http://localhost") {
        Ok(client) => client,
        Err(error) => panic!("{error:?}"),
    }
}

fn refusal<T>(result: Result<T, Error>) -> String {
    match result {
        Err(Error::Message(reason)) => reason,
        Err(Error::Unsupported(feature)) => panic!("unsupported {feature}"),
        Ok(_) => panic!("accepted"),
    }
}

#[test]
fn unknown_bot_api_10_2_update_stays_decodable() {
    let Json::Object(data) = parse(
        r#"{"subscription": {"id": "sub", "new_field_from_a_future_api": true}}"#,
    )
    .unwrap() else {
        panic!("not an object")
    };
    let update = Update { update_id: 42, data };
    assert_eq!(update.kind(), Some("subscription"));
    assert_eq!(
        update.value().unwrap().get("new_field_from_a_future_api"),
        Some(&Json::Bool(true))
    );
    assert!(update.decode("subscription").is_ok());
    assert_eq!(refusal(update.decode("message")), "update does not contain message");
}

#[test]
fn client_debug_never_contains_the_token() {
    let debug = client("123:top-secret").debug_text();
    assert!(!debug.contains("top-secret"));
    assert!(debug.contains("<redacted>"));
    assert_eq!(debug, client("456:other").debug_text());
}

#[test]
fn restricted_member_presence_uses_is_member() {
    let mut member = ChatMember {
        status: "restricted".to_owned(),
        is_member: Some(false),
        ..Default::default()
    };
    assert!(!member.is_present());
    member.is_member = Some(true);
    assert!(member.is_present());
}

#[test]
fn method_names_cannot_escape_the_bot_api_path() {
    assert!(validate_method("sendRichMessage").is_ok());
    assert!(validate_method("future_method_1").is_ok());
    assert!(validate_method("../getMe").is_err());
    assert!(validate_method("").is_err());
}

#[test]
fn methods_are_called_under_the_token() {
    let client = match TelegramClient::with_api_base("1:a-b_c", "http://localhost:8081//") {
        Ok(client) => client,
        Err(error) => panic!("{error:?}"),
    };
    assert_eq!(client.method_url("getMe"), "http://localhost:8081/bot1:a-b_c/getMe");
    assert_eq!(client.file_url("photos/1.jpg"), "http://localhost:8081/file/bot1:a-b_c/photos/1.jpg");
    assert_eq!(refusal(TelegramClient::new(" ")), "Telegram bot token cannot be empty");
    assert_eq!(
        refusal(TelegramClient::new("1:a/b")),
        "Telegram bot token contains invalid characters"
    );
    assert_eq!(
        refusal(validate_method("get me")),
        "invalid Telegram API method \"get me\""
    );
    assert_eq!(get_file("f").payload.text_at("file_id"), Some("f"));
}

#[test]
fn api_errors_preserve_all_response_parameters() {
    let error = TelegramApiError {
        method: "sendMessage".to_owned(),
        http_status: 429,
        error_code: Some(429),
        description: "Too Many Requests".to_owned(),
        parameters: Some(ResponseParameters {
            migrate_to_chat_id: Some(-1_001),
            retry_after: Some(5),
        }),
    };

    assert!(error.to_text().contains("migrated to chat -1001"));
    assert!(error.to_text().contains("retry after 5s"));
    assert_eq!(
        error.to_text(),
        "Telegram sendMessage failed (HTTP 429, API code 429): Too Many Requests; migrated to chat -1001; retry after 5s"
    );
    assert_eq!(error.retry_after(), Some(5));
}

#[test]
fn answers_are_results_or_errors() {
    let fine = ApiResponse {
        ok: true,
        result: Some(7),
        error_code: None,
        description: None,
        parameters: None,
    };
    assert!(matches!(decode_response("getMe", 200, fine), Ok(7)));
    let empty: ApiResponse<i64> = ApiResponse {
        ok: true,
        result: None,
        error_code: None,
        description: None,
        parameters: None,
    };
    match decode_response("getMe", 200, empty) {
        Err(CallError::Message(reason)) => {
            assert_eq!(reason, "Telegram getMe succeeded without a result");
        }
        _ => panic!("expected an error"),
    }
    let refused: ApiResponse<i64> = ApiResponse {
        ok: false,
        result: None,
        error_code: Some(400),
        description: None,
        parameters: None,
    };
    match decode_response("getMe", 400, refused) {
        Err(CallError::Api(error)) => {
            assert_eq!(error.http_status, 400);
            assert_eq!(error.description, "unknown Telegram API error");
        }
        _ => panic!("expected an error"),
    }
    assert_eq!(
        invalid_answer_text("getMe", "502 Bad Gateway", &"x".repeat(600)),
        format!(
            "Telegram getMe returned invalid JSON (HTTP 502 Bad Gateway): {}",
            "x".repeat(500)
        )
    );
}

fn tag(key: &[u8], data: &[u8]) -> Vec<u8> {
    let mut mac = Hmac::<Sha256>::new_from_slice(key).unwrap();
    mac.update(data);
    mac.finalize().into_bytes().to_vec()
}

fn hex(bytes: &[u8]) -> String {
    bytes.iter().map(|byte| format!("{byte:02x}")).collect()
}

fn signed(token: &str, check: &str) -> String {
    hex(&tag(&tag(b"WebAppData", token.as_bytes()), check.as_bytes()))
}

#[test]
fn mini_app_init_data_is_authenticated_and_decoded() {
    let token = "123:test-secret";
    let user = r#"{"id":42,"first_name":"User","is_bot":false}"#;
    let check = format!("auth_date=1700000000\nquery_id=query-1\nuser={user}");
    let hash = signed(token, &check);
    let init_data = url::form_urlencoded::Serializer::new(String::new())
        .append_pair("query_id", "query-1")
        .append_pair("user", user)
        .append_pair("auth_date", "1700000000")
        .append_pair("hash", &hash)
        .finish();
    let client = client(token);
    let verified = client.verify_web_app_init_data(&init_data, None, 0).unwrap();
    assert_eq!(
        verified.member("user").unwrap().get("id"),
        Some(&Json::Integer(42))
    );
    assert_eq!(verified.i64_at("auth_date"), Some(1_700_000_000));

    let tampered = init_data.replace("query-1", "query-2");
    assert!(client.verify_web_app_init_data(&tampered, None, 0).is_err());
    assert_eq!(
        refusal(client.verify_web_app_init_data(&tampered, None, 0)),
        "invalid Telegram Mini App signature"
    );
}

#[test]
fn mini_app_data_grows_old() {
    let token = "123:test-secret";
    let hash = signed(token, "auth_date=1000");
    let init_data = format!("auth_date=1000&hash={hash}&signature=ignored");
    let client = client(token);
    let minute = Some(Duration { seconds: 60, nanoseconds: 0 });
    assert!(client.verify_web_app_init_data(&init_data, minute, 1060).is_ok());
    assert_eq!(
        refusal(client.verify_web_app_init_data(&init_data, minute, 1061)),
        "Telegram Mini App init data has expired"
    );
    assert_eq!(
        refusal(client.verify_web_app_init_data(&init_data, minute, 999)),
        "Telegram Mini App auth_date is in the future"
    );
    assert_eq!(
        refusal(client.verify_web_app_init_data("a=1", None, 0)),
        "Telegram Mini App init data must contain exactly one hash"
    );
    assert_eq!(
        refusal(client.verify_web_app_init_data("a=1&a=2&hash=00", None, 0)),
        "Telegram Mini App init data contains duplicate fields"
    );
    assert_eq!(
        refusal(client.verify_web_app_init_data("a=1&hash=0", None, 0)),
        "invalid Telegram Mini App hash"
    );
    let nameless = format!("a=1&hash={}", signed(token, "a=1"));
    assert_eq!(
        refusal(client.verify_web_app_init_data(&nameless, minute, 0)),
        "Telegram Mini App init data has no valid auth_date"
    );
    let broken = format!("user=%7B&hash={}", signed(token, "user={"));
    assert!(
        refusal(client.verify_web_app_init_data(&broken, None, 0))
            .starts_with("invalid Telegram Mini App user JSON")
    );
}

#[test]
fn hexadecimal_texts_are_bytes() {
    assert_eq!(decode_hex("00ffA5"), Ok(vec![0, 255, 165]));
    assert_eq!(refusal(decode_hex("0")), "hex value has odd length");
    assert!(refusal(decode_hex("0g")).contains("invalid hex byte \"0g\""));
}

fn config(limit: u8) -> GetUpdatesConfig {
    GetUpdatesConfig { limit, ..Default::default() }
}

#[test]
fn bots_ask_who_they_are() {
    assert_eq!(
        refusal(TelegramBot::try_new("1:a", config(0))),
        "Telegram getUpdates limit must be between 1 and 100"
    );
    assert_eq!(
        refusal(TelegramBot::try_with_api_base("", "http://localhost", config(0))),
        "Telegram bot token cannot be empty"
    );
    let starting = match TelegramBot::try_with_api_base("1:a", "http://localhost", config(100)) {
        Ok(starting) => starting,
        Err(error) => panic!("{error:?}"),
    };
    assert_eq!(starting.request().method, "getMe");
    let me = User {
        id: 42,
        is_bot: true,
        first_name: "Ann".to_owned(),
        last_name: Some("Bot".to_owned()),
        username: None,
    };
    let bot = starting.connected(&me);
    assert_eq!(bot.bot_info().id.as_deref(), Some("42"));
    assert_eq!(bot.bot_info().nickname.as_deref(), Some("Ann Bot"));
    assert_eq!(bot.client().method_url("getMe"), "http://localhost/bot1:a/getMe");
    let request = bot.polling().request();
    assert_eq!(request.method, "getUpdates");
    assert_eq!(encode(&Json::Object(request.payload)).unwrap(), r#"{"limit":100,"timeout":60}"#);
}

fn polling() -> Polling {
    let mut config = config(10);
    config.allowed_updates = Some(vec!["message".to_owned()]);
    match TelegramBot::try_new("1:a", config) {
        Ok(starting) => starting.connected(&User::default()).polling(),
        Err(error) => panic!("{error:?}"),
    }
}

#[test]
fn failures_are_waited_out_longer_and_longer() {
    let mut polling = polling();
    let waits: Vec<u64> = (0..7).map(|_| polling.failed(None)).collect();
    assert_eq!(waits, vec![1, 2, 4, 8, 16, 30, 30]);
    assert_eq!(polling.failed(Some(77)), 77);
    assert_eq!(polling.failed(None), 1);
    assert_eq!(polling.failed(None), 2);
    polling.answered();
    assert_eq!(polling.failed(None), 1);
}

#[test]
fn updates_are_asked_for_once() {
    let mut polling = polling();
    polling.taken(41);
    polling.failed(None);
    let request = polling.request();
    assert_eq!(
        encode(&Json::Object(request.payload)).unwrap(),
        r#"{"allowed_updates":["message"],"limit":10,"offset":42,"timeout":60}"#
    );
    polling.taken(i64::MAX);
    assert_eq!(polling.request().payload.i64_at("offset"), Some(i64::MAX));
}
