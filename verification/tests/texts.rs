//! Segments, ids, styled texts and layouts.
use telegram_bot_oxidebot::api::layout::telegram_layout_nodes;
use telegram_bot_oxidebot::api::rich_text::{telegram_rich_text_entities, telegram_rich_text_value};
use telegram_bot_oxidebot::content::{
    LayoutNode, Real, RichText, TableCell, TextSpan, TextStyle,
};
use telegram_bot_oxidebot::document::encode;
use telegram_bot_oxidebot::error::Error;
use telegram_bot_oxidebot::json::Json;
use telegram_bot_oxidebot::segment::{
    parse_message, parse_photo, parse_reaction, process_message_segments, MediaGroupClass,
    MediaKind,
};
use telegram_bot_oxidebot::source::{File, MessageSegment};
use telegram_bot_oxidebot::telegram::{
    Chat, MediaFile, Message, MessageEntity, PhotoSize, ReactionType, User,
};
use telegram_bot_oxidebot::text::utf16_len;
use telegram_bot_oxidebot::utf16::{split_utf16, utf16_slice};
use telegram_bot_oxidebot::utils::{
    join_request_id, message_id, split_id, split_join_request_id,
};

fn text(content: &str) -> MessageSegment {
    MessageSegment::Text { content: content.to_owned() }
}

fn mention(user_id: &str) -> MessageSegment {
    MessageSegment::At { user_id: user_id.to_owned() }
}

fn file(id: &str) -> File {
    File {
        id: Some(id.to_owned()),
        name: String::new(),
        uri: None,
        base64: None,
        mime: None,
        size: None,
    }
}

#[test]
fn text_split_respects_utf16_boundaries() {
    let chunks = split_utf16("😀😀a", 3);
    assert_eq!(chunks, ["😀", "😀a"]);
    assert!(chunks.iter().all(|chunk| utf16_len(chunk) <= 3));
}

#[test]
fn chunks_make_the_text_again() {
    let text = "a😀bc😀😀d";
    for limit in 2..8 {
        let chunks = split_utf16(text, limit);
        assert_eq!(chunks.concat(), text);
        assert!(chunks.iter().all(|chunk| utf16_len(chunk) <= limit && !chunk.is_empty()));
    }
    assert!(split_utf16("", 3).is_empty());
    assert_eq!(split_utf16("😀a", 1), ["😀", "a"]);
}

#[test]
fn slices_are_counted_in_units() {
    assert_eq!(utf16_slice("😀@42", 2, 3).as_deref(), Some("@42"));
    assert_eq!(utf16_slice("😀@42", 1, 3), None);
    assert_eq!(utf16_slice("ab", 1, 5), None);
}

#[test]
fn media_classes_match_telegram_album_rules() {
    assert_eq!(MediaKind::Photo.group_class(), MediaGroupClass::Visual);
    assert_eq!(MediaKind::Video.group_class(), MediaGroupClass::Visual);
    assert_eq!(MediaKind::Audio.group_class(), MediaGroupClass::Audio);
    assert_eq!(MediaKind::Document.group_class(), MediaGroupClass::Document);
    assert_eq!(MediaKind::Photo.telegram_type(), "photo");
    assert_eq!(MediaKind::Document.field_name(), "document");
}

#[test]
fn message_id_round_trip_supports_negative_chat_ids() {
    assert_eq!(
        split_id(&message_id(-1_001_234, 56)).unwrap(),
        ("-1001234".to_owned(), 56)
    );
}

#[test]
fn message_id_rejects_trailing_components() {
    assert!(split_id("-100_12_extra").is_err());
}

#[test]
fn message_ids_are_checked() {
    assert_eq!(
        split_id("_5"),
        Err(Error::Message("Telegram chat id is empty".to_owned()))
    );
    assert_eq!(
        split_id("5"),
        Err(Error::Message("invalid Telegram message id \"5\"".to_owned()))
    );
    assert_eq!(
        split_id("5_x"),
        Err(Error::Message("invalid Telegram message number in \"5_x\"".to_owned()))
    );
    assert_eq!(split_id("@news_7").unwrap(), ("@news".to_owned(), 7));
}

#[test]
fn join_request_id_round_trip() {
    let id = join_request_id(-100, 200);
    assert_eq!(split_join_request_id(&id).unwrap(), (-100, 200));
    assert_eq!(
        split_join_request_id("x:1"),
        Err(Error::Message("invalid chat id in join-request id \"x:1\"".to_owned()))
    );
    assert_eq!(
        split_join_request_id("1:x"),
        Err(Error::Message("invalid user id in join-request id \"1:x\"".to_owned()))
    );
    assert_eq!(
        split_join_request_id("1"),
        Err(Error::Message("invalid Telegram join-request id \"1\"".to_owned()))
    );
}

#[test]
fn photo_uses_telegram_file_size_not_pixel_count() {
    let segment = parse_photo(PhotoSize {
        file_id: "photo".to_owned(),
        width: 4000,
        height: 3000,
        file_size: Some(123_456),
    });
    let MessageSegment::Image { file: Some(file) } = segment else {
        panic!("expected image")
    };
    assert_eq!(file.size, Some(123_456));
}

#[test]
fn numeric_mentions_have_valid_utf16_offsets() {
    let output = process_message_segments(vec![text("😀"), mention("42")]).unwrap();
    assert_eq!(output.text, "😀@42");
    assert_eq!(output.entities[0].offset, 2);
    assert_eq!(output.entities[0].length, 3);
}

#[test]
fn inbound_mentions_do_not_duplicate_visible_text_segments() {
    let message = Message {
        message_id: 1,
        chat: Chat { id: 2, kind: "private".to_owned(), ..Default::default() },
        text: Some("hi Alice!".to_owned()),
        entities: Some(vec![MessageEntity {
            kind: "text_mention".to_owned(),
            offset: 3,
            length: 5,
            user: Some(User { id: 42, first_name: "Alice".to_owned(), ..Default::default() }),
            ..Default::default()
        }]),
        ..Default::default()
    };
    let parsed = parse_message(message);
    assert_eq!(parsed.segments, vec![text("hi "), mention("42"), text("!")]);
}

#[test]
fn location_only_message_does_not_create_empty_text() {
    let output = process_message_segments(vec![MessageSegment::Location {
        latitude: Real::Finite("1.0".to_owned()),
        longitude: Real::Finite("2.0".to_owned()),
        title: String::new(),
        content: None,
    }])
    .unwrap();
    assert!(output.text.is_empty());
    assert_eq!(output.venues.len(), 1);
}

#[test]
fn share_with_image_keeps_the_url() {
    let output = process_message_segments(vec![MessageSegment::Share {
        title: "title".to_owned(),
        content: Some("description".to_owned()),
        url: "https://example.com".to_owned(),
        image: Some(file("file-id")),
    }])
    .unwrap();
    assert_eq!(
        output.media[0].caption.as_deref(),
        Some("title\ndescription\nhttps://example.com")
    );
}

#[test]
fn segments_that_cannot_be_sent_are_refused() {
    assert!(process_message_segments(vec![mention("someone")]).is_err());
    assert!(process_message_segments(vec![MessageSegment::Image { file: None }]).is_err());
    assert_eq!(
        process_message_segments(vec![mention("x")]),
        Err(Error::Message("invalid Telegram mention user id \"x\"".to_owned()))
    );
}

#[test]
fn messages_keep_media_and_their_types() {
    let message = Message {
        message_id: 1,
        chat: Chat { id: 2, kind: "private".to_owned(), ..Default::default() },
        photo: Some(vec![
            PhotoSize { file_id: "small".to_owned(), width: 1, height: 1, file_size: None },
            PhotoSize { file_id: "large".to_owned(), width: 9, height: 9, file_size: None },
        ]),
        document: Some(MediaFile {
            file_id: "doc".to_owned(),
            file_name: Some("a.txt".to_owned()),
            mime_type: Some("TEXT/Plain".to_owned()),
            duration: 0,
            file_size: Some(3),
        }),
        ..Default::default()
    };
    let parsed = parse_message(message);
    let MessageSegment::Image { file: Some(photo) } = &parsed.segments[0] else {
        panic!("expected image")
    };
    assert_eq!(photo.id.as_deref(), Some("large"));
    let MessageSegment::File { file: Some(document) } = &parsed.segments[1] else {
        panic!("expected file")
    };
    assert_eq!(document.mime.as_deref(), Some("text/plain"));
    assert_eq!(document.name, "a.txt");
}

#[test]
fn reactions_have_names() {
    let reaction = |kind: &str, emoji: Option<&str>, custom: Option<&str>| ReactionType {
        kind: kind.to_owned(),
        emoji: emoji.map(str::to_owned),
        custom_emoji_id: custom.map(str::to_owned),
    };
    assert_eq!(parse_reaction(reaction("emoji", Some("👍"), None)), "👍");
    assert_eq!(parse_reaction(reaction("paid", None, None)), "paid");
    assert_eq!(parse_reaction(reaction("new", None, None)), "telegram:new");
}

fn plain(content: &str) -> RichText {
    RichText { text: content.to_owned(), spans: vec![] }
}

fn span(start: usize, end: usize, style: TextStyle) -> TextSpan {
    TextSpan { start, end, styles: vec![style] }
}

#[test]
fn rich_layout_supports_nested_spans_and_valid_table_cells() {
    let text = RichText {
        text: "abcdef".to_owned(),
        spans: vec![span(0, 6, TextStyle::Bold), span(2, 4, TextStyle::Italic)],
    };
    let Json::Array(value) = telegram_rich_text_value(&text).unwrap() else {
        panic!("expected pieces")
    };
    assert_eq!(value.len(), 3);
    assert_eq!(value[1].get("type").unwrap().as_str(), Some("bold"));
    assert_eq!(value[1].get("text").unwrap().get("type").unwrap().as_str(), Some("italic"));

    let (blocks, actions) = telegram_layout_nodes(vec![LayoutNode::Table {
        rows: vec![vec![TableCell {
            content: vec![LayoutNode::Text(plain("cell"))],
            header: true,
            colspan: None,
            rowspan: None,
        }]],
    }])
    .unwrap();
    assert!(actions.is_empty());
    let Some(Json::Array(rows)) = blocks[0].get("cells") else {
        panic!("expected rows")
    };
    let Json::Array(cells) = &rows[0] else {
        panic!("expected cells")
    };
    assert_eq!(cells[0].get("align").unwrap().as_str(), Some("left"));
    assert_eq!(cells[0].get("valign").unwrap().as_str(), Some("top"));
}

#[test]
fn entities_are_counted_in_units() {
    let text = RichText {
        text: "😀é!".to_owned(),
        spans: vec![span(4, 6, TextStyle::Bold)],
    };
    let entities = telegram_rich_text_entities(&text).unwrap();
    assert_eq!(
        encode(&Json::Array(entities)).unwrap(),
        r#"[{"length":1,"offset":2,"type":"bold"}]"#
    );
    let inside = RichText {
        text: "😀é!".to_owned(),
        spans: vec![span(1, 6, TextStyle::Bold)],
    };
    assert_eq!(
        telegram_rich_text_entities(&inside),
        Err(Error::Message("rich-text span is not on valid UTF-8 boundaries".to_owned()))
    );
    let empty = RichText { text: "a".to_owned(), spans: vec![span(1, 1, TextStyle::Bold)] };
    assert_eq!(
        telegram_rich_text_entities(&empty),
        Err(Error::Message("Telegram message entities cannot be empty".to_owned()))
    );
}
