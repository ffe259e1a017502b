//! Styled text: as a text with entities, and as nested values.
use crate::content::{RichText, TextSpan, TextStyle};
use crate::error;
use crate::error::{message, unsupported, Error, ErrorView};
use crate::json;
use crate::json::{strip_nulls, Fields, Json, JsonView};
use crate::list;
use crate::list::gather_json;
use crate::native;
use crate::native::{merge_fields, telegram_native_object};
use crate::reading;
use crate::text;
use crate::text::{
    chars_of, char_position, i64_text, joined, parse_i64, text_between, utf16_len,
};
use crate::utf16;
use vstd::prelude::*;

verus! {

// ---------------------------------------------------------------------------
// Entities
// ---------------------------------------------------------------------------

/// The characters that a span covers, where both ends lie between characters.
pub open spec fn span_chars(text: Seq<char>, span: TextSpan) -> Option<(int, int)> {
    match (text::char_index(text, span.start as int), text::char_index(text, span.end as int)) {
        (Some(start), Some(end)) => Some((start, end)),
        _ => None,
    }
}

/// The characters that a span covers.
fn span_positions(chars: &Vec<char>, span: &TextSpan) -> (result: Option<(usize, usize)>)
    ensures
        match result {
            Some((start, end)) => start <= chars@.len() && end <= chars@.len() && span_chars(
                chars@,
                *span,
            ) == Some((start as int, end as int)) && (span.start < span.end <==> start < end) && (
            span.start <= span.end <==> start <= end),
            None => span_chars(chars@, *span) is None,
        },
{
    match char_position(chars, span.start) {
        Some(start) => match char_position(chars, span.end) {
            Some(end) => {
                proof {
                    text::lemma_char_index_ordered(chars@, span.start as int, span.end as int);
                    text::lemma_char_index_ordered(chars@, span.end as int, span.start as int);
                }
                Some((start, end))
            },
            None => None,
        },
        None => None,
    }
}

/// A member `type` with the given name.
pub open spec fn typed(object: Map<Seq<char>, JsonView>, name: Seq<char>) -> Map<
    Seq<char>,
    JsonView,
> {
    object.insert("type"@, JsonView::Text(name))
}

/// The members of the entity for one style of a span.
pub open spec fn entity_fields(base: Map<Seq<char>, JsonView>, style: TextStyle) -> Result<
    Map<Seq<char>, JsonView>,
    ErrorView,
> {
    match style {
        TextStyle::Bold => Ok(typed(base, "bold"@)),
        TextStyle::Italic => Ok(typed(base, "italic"@)),
        TextStyle::Underline => Ok(typed(base, "underline"@)),
        TextStyle::Strikethrough => Ok(typed(base, "strikethrough"@)),
        TextStyle::Spoiler => Ok(typed(base, "spoiler"@)),
        TextStyle::Code => Ok(typed(base, "code"@)),
        TextStyle::Preformatted { language } => Ok(
            typed(base, "pre"@).insert("language"@, json::optional_text_view(language)),
        ),
        TextStyle::Link { url } => Ok(
            typed(base, "text_link"@).insert("url"@, JsonView::Text(url@)),
        ),
        TextStyle::UserMention { user_id } => match text::i64_value(user_id@) {
            Some(id) => Ok(
                typed(base, "text_link"@).insert(
                    "url"@,
                    JsonView::Text("tg://user?id="@ + text::decimal(id as int)),
                ),
            ),
            None => error::refused("invalid Telegram mentioned user id"@),
        },
        TextStyle::CustomEmoji { id, .. } => Ok(
            typed(base, "custom_emoji"@).insert("custom_emoji_id"@, JsonView::Text(id@)),
        ),
        TextStyle::Quote => Ok(typed(base, "blockquote"@)),
        TextStyle::Hashtag => Ok(typed(base, "hashtag"@)),
        TextStyle::Cashtag => Ok(typed(base, "cashtag"@)),
        TextStyle::BotCommand => Ok(typed(base, "bot_command"@)),
        TextStyle::Email => Ok(typed(base, "email"@)),
        TextStyle::Phone => Ok(typed(base, "phone_number"@)),
        TextStyle::DateTime { timestamp } => Ok(
            typed(base, "date_time"@).insert("unix_time"@, json::optional_int_view(timestamp)),
        ),
        TextStyle::PlatformNative(native) => match native::native_object_outcome(
            native,
            "rich-text entity"@,
        ) {
            Ok(extra) => native::merged(base, extra, "Telegram rich-text entity"@),
            Err(e) => Err(e),
        },
        _ => error::unsupported_view(
            "this rich-text style in a regular Telegram text message; use RichLayout"@,
        ),
    }
}

/// The entity for one style of `length` UTF-16 units from `offset` on.
pub open spec fn entity_outcome(offset: int, length: int, style: TextStyle) -> Result<
    JsonView,
    ErrorView,
> {
    let base = json::no_fields().insert("offset"@, JsonView::Integer(offset)).insert(
        "length"@,
        JsonView::Integer(length),
    );
    match entity_fields(base, style) {
        Ok(object) => Ok(json::stripped(JsonView::Object(object))),
        Err(e) => Err(e),
    }
}

fn write_entity(offset: usize, length: usize, style: &TextStyle) -> (result: Result<Json, Error>)
    ensures
        error::shown(result) == entity_outcome(offset as int, length as int, *style),
{
    let mut entity = Fields::none();
    entity.put("offset", Json::unsigned(offset as u64));
    entity.put("length", Json::unsigned(length as u64));
    match style {
        TextStyle::Bold => entity.put("type", Json::text("bold")),
        TextStyle::Italic => entity.put("type", Json::text("italic")),
        TextStyle::Underline => entity.put("type", Json::text("underline")),
        TextStyle::Strikethrough => entity.put("type", Json::text("strikethrough")),
        TextStyle::Spoiler => entity.put("type", Json::text("spoiler")),
        TextStyle::Code => entity.put("type", Json::text("code")),
        TextStyle::Preformatted { language } => {
            entity.put("type", Json::text("pre"));
            entity.put("language", Json::optional_text(language));
        },
        TextStyle::Link { url } => {
            entity.put("type", Json::text("text_link"));
            entity.put("url", Json::text(url.as_str()));
        },
        TextStyle::UserMention { user_id } => {
            let id = match parse_i64(user_id.as_str()) {
                Some(id) => id,
                None => {
                    return Err(message("invalid Telegram mentioned user id"));
                },
            };
            let id_text = i64_text(id);
            let url = joined("tg://user?id=", id_text.as_str());
            entity.put("type", Json::text("text_link"));
            entity.put("url", Json::text(url.as_str()));
        },
        TextStyle::CustomEmoji { id, .. } => {
            entity.put("type", Json::text("custom_emoji"));
            entity.put("custom_emoji_id", Json::text(id.as_str()));
        },
        TextStyle::Quote => entity.put("type", Json::text("blockquote")),
        TextStyle::Hashtag => entity.put("type", Json::text("hashtag")),
        TextStyle::Cashtag => entity.put("type", Json::text("cashtag")),
        TextStyle::BotCommand => entity.put("type", Json::text("bot_command")),
        TextStyle::Email => entity.put("type", Json::text("email")),
        TextStyle::Phone => entity.put("type", Json::text("phone_number")),
        TextStyle::DateTime { timestamp } => {
            entity.put("type", Json::text("date_time"));
            entity.put("unix_time", Json::optional_integer(*timestamp));
        },
        TextStyle::PlatformNative(native) => {
            let extra = telegram_native_object(native, "rich-text entity")?;
            entity = merge_fields(entity, &extra, "Telegram rich-text entity")?;
        },
        _ => {
            return Err(
                unsupported(
                    "this rich-text style in a regular Telegram text message; use RichLayout",
                ),
            );
        },
    }
    Ok(strip_nulls(Json::object(entity)))
}

/// How the styles of a span become entities.
pub open spec fn style_entities(offset: int, length: int) -> spec_fn(int, TextStyle) -> Result<
    JsonView,
    ErrorView,
> {
    |i: int, style: TextStyle| entity_outcome(offset, length, style)
}

/// The entities of one span, one for each of its styles.
pub open spec fn span_entities(text: Seq<char>, span: TextSpan) -> Result<
    Seq<JsonView>,
    ErrorView,
> {
    match span_chars(text, span) {
        None => error::refused("rich-text span is not on valid UTF-8 boundaries"@),
        Some((start, end)) => if start > end {
            error::refused("rich-text span is not on valid UTF-8 boundaries"@)
        } else if start == end {
            error::refused("Telegram message entities cannot be empty"@)
        } else {
            list::collect(
                span.styles@,
                style_entities(
                    text::units_of(text.take(start)) as int,
                    text::units_of(text.subrange(start, end)) as int,
                ),
            )
        },
    }
}

spec fn entity_at(offset: usize, length: usize, style: TextStyle) -> Result<JsonView, ErrorView> {
    entity_outcome(offset as int, length as int, style)
}

fn write_span_entities(chars: &Vec<char>, span: &TextSpan) -> (result: Result<Vec<Json>, Error>)
    ensures
        list::shown_list(result) == span_entities(chars@, *span),
{
    let (start, end) = match span_positions(chars, span) {
        Some((start, end)) => (start, end),
        None => {
            return Err(message("rich-text span is not on valid UTF-8 boundaries"));
        },
    };
    if start > end {
        return Err(message("rich-text span is not on valid UTF-8 boundaries"));
    }
    if start == end {
        return Err(message("Telegram message entities cannot be empty"));
    }
    let before = text_between(chars, 0, start);
    let inside = text_between(chars, start, end);
    assert(chars@.subrange(0, start as int) =~= chars@.take(start as int));
    let offset: usize = utf16_len(before.as_str());
    let length: usize = utf16_len(inside.as_str());
    let write = |i: usize, style: &TextStyle| -> (out: Result<Json, Error>)
        ensures
            error::shown(out) == entity_at(offset, length, *style),
        { write_entity(offset, length, style) };
    list::collect_json(
        &span.styles,
        write,
        Ghost(style_entities(offset as int, length as int)),
    )
}

/// How the spans of a text become entities.
pub open spec fn spans_entities(text: Seq<char>) -> spec_fn(int, TextSpan) -> Result<
    Seq<JsonView>,
    ErrorView,
> {
    |i: int, span: TextSpan| span_entities(text, span)
}

/// The entities of a styled text, span by span.
pub open spec fn entities_outcome(text: RichText) -> Result<Seq<JsonView>, ErrorView> {
    list::gather(text.spans@, spans_entities(text.text@))
}

/// Writes the entities of a styled text.
pub fn telegram_rich_text_entities(text: &RichText) -> (result: Result<Vec<Json>, Error>)
    ensures
        list::shown_list(result) == entities_outcome(*text),
{
    let chars = chars_of(text.text.as_str());
    let write = |i: usize, span: &TextSpan| -> (out: Result<Vec<Json>, Error>)
        ensures
            list::shown_list(out) == span_entities(chars@, *span),
        { write_span_entities(&chars, span) };
    gather_json(&text.spans, write, Ghost(spans_entities(text.text@)))
}

// ---------------------------------------------------------------------------
// Nested values
// ---------------------------------------------------------------------------

/// An object with a `type` and, under `text`, what it is about.
pub open spec fn styled(name: Seq<char>, inner: JsonView) -> Map<Seq<char>, JsonView> {
    json::no_fields().insert("type"@, JsonView::Text(name)).insert("text"@, inner)
}

fn write_styled(name: &str, inner: Json) -> (object: Fields)
    ensures
        json::fields(object) == styled(name@, inner@),
{
    let mut object = Fields::none();
    object.put("type", Json::text(name));
    object.put("text", inner);
    object
}

/// A styled object that also carries its source under its own name.
pub open spec fn sourced(
    name: Seq<char>,
    inner: JsonView,
    key: Seq<char>,
    source: Seq<char>,
) -> JsonView {
    JsonView::Object(styled(name, inner).insert(key, JsonView::Text(source)))
}

fn write_sourced(name: &str, inner: Json, key: &str, source: &str) -> (json: Json)
    ensures
        json@ == sourced(name@, inner@, key@, source@),
{
    let mut object = write_styled(name, inner);
    object.put(key, Json::text(source));
    Json::object(object)
}

/// `inner` in the given style; `source` is the plain text that it shows.
pub open spec fn style_outcome(style: TextStyle, source: Seq<char>, inner: JsonView) -> Result<
    JsonView,
    ErrorView,
> {
    match style {
        TextStyle::Bold => Ok(JsonView::Object(styled("bold"@, inner))),
        TextStyle::Italic => Ok(JsonView::Object(styled("italic"@, inner))),
        TextStyle::Underline => Ok(JsonView::Object(styled("underline"@, inner))),
        TextStyle::Strikethrough => Ok(JsonView::Object(styled("strikethrough"@, inner))),
        TextStyle::Spoiler => Ok(JsonView::Object(styled("spoiler"@, inner))),
        TextStyle::Code => Ok(JsonView::Object(styled("code"@, inner))),
        TextStyle::Preformatted { .. } => Ok(JsonView::Object(styled("code"@, inner))),
        TextStyle::Link { url } => Ok(sourced("url"@, inner, "url"@, url@)),
        TextStyle::UserMention { user_id } => match text::i64_value(user_id@) {
            Some(id) => Ok(
                JsonView::Object(
                    styled("text_mention"@, inner).insert(
                        "user"@,
                        JsonView::Object(
                            json::no_fields().insert("id"@, JsonView::Integer(id as int)).insert(
                                "is_bot"@,
                                JsonView::Bool(false),
                            ).insert("first_name"@, JsonView::Text(user_id@)),
                        ),
                    ),
                ),
            ),
            None => error::refused("invalid Telegram mentioned user id"@),
        },
        TextStyle::CustomEmoji { id, fallback } => Ok(
            JsonView::Object(
                json::no_fields().insert("type"@, JsonView::Text("custom_emoji"@)).insert(
                    "custom_emoji_id"@,
                    JsonView::Text(id@),
                ).insert(
                    "alternative_text"@,
                    JsonView::Text(
                        match fallback {
                            Some(fallback) => fallback@,
                            None => source,
                        },
                    ),
                ),
            ),
        ),
        TextStyle::Marked => Ok(JsonView::Object(styled("marked"@, inner))),
        TextStyle::Subscript => Ok(JsonView::Object(styled("subscript"@, inner))),
        TextStyle::Superscript => Ok(JsonView::Object(styled("superscript"@, inner))),
        TextStyle::MathematicalExpression => Ok(
            JsonView::Object(
                json::no_fields().insert("type"@, JsonView::Text("mathematical_expression"@)).insert(
                    "expression"@,
                    JsonView::Text(source),
                ),
            ),
        ),
        TextStyle::Hashtag => Ok(sourced("hashtag"@, inner, "hashtag"@, source)),
        TextStyle::Cashtag => Ok(sourced("cashtag"@, inner, "cashtag"@, source)),
        TextStyle::BotCommand => Ok(sourced("bot_command"@, inner, "bot_command"@, source)),
        TextStyle::Email => Ok(sourced("email_address"@, inner, "email_address"@, source)),
        TextStyle::Phone => Ok(sourced("phone_number"@, inner, "phone_number"@, source)),
        TextStyle::DateTime { timestamp } => Ok(
            JsonView::Object(
                styled("date_time"@, inner).insert("unix_time"@, json::optional_int_view(timestamp)),
            ),
        ),
        TextStyle::Reference { message } => Ok(
            sourced(
                "reference"@,
                inner,
                "name"@,
                match message {
                    Some(message) => message.id@,
                    None => source,
                },
            ),
        ),
        TextStyle::Quote => Ok(JsonView::Object(styled("italic"@, inner))),
        TextStyle::RoleMention { .. } => error::unsupported_view(
            "role or conversation mentions in Telegram rich text"@,
        ),
        TextStyle::ConversationMention { .. } => error::unsupported_view(
            "role or conversation mentions in Telegram rich text"@,
        ),
        TextStyle::PlatformNative(native) => match native::native_object_outcome(
            native,
            "rich-text style"@,
        ) {
            Ok(object) => Ok(
                JsonView::Object(
                    if object.contains_key("text"@) {
                        object
                    } else {
                        object.insert("text"@, inner)
                    },
                ),
            ),
            Err(e) => Err(e),
        },
    }
}

/// Puts `inner` into the given style.
pub fn telegram_rich_text_style(style: &TextStyle, source: &str, inner: Json) -> (result: Result<
    Json,
    Error,
>)
    ensures
        error::shown(result) == style_outcome(*style, source@, inner@),
{
    Ok(
        match style {
            TextStyle::Bold => Json::object(write_styled("bold", inner)),
            TextStyle::Italic => Json::object(write_styled("italic", inner)),
            TextStyle::Underline => Json::object(write_styled("underline", inner)),
            TextStyle::Strikethrough => Json::object(write_styled("strikethrough", inner)),
            TextStyle::Spoiler => Json::object(write_styled("spoiler", inner)),
            TextStyle::Code => Json::object(write_styled("code", inner)),
            TextStyle::Preformatted { .. } => Json::object(write_styled("code", inner)),
            TextStyle::Link { url } => write_sourced("url", inner, "url", url.as_str()),
            TextStyle::UserMention { user_id } => {
                let id = match parse_i64(user_id.as_str()) {
                    Some(id) => id,
                    None => {
                        return Err(message("invalid Telegram mentioned user id"));
                    },
                };
                let mut user = Fields::none();
                user.put("id", Json::integer(id));
                user.put("is_bot", Json::bool(false));
                user.put("first_name", Json::text(user_id.as_str()));
                let mut object = write_styled("text_mention", inner);
                object.put("user", Json::object(user));
                Json::object(object)
            },
            TextStyle::CustomEmoji { id, fallback } => {
                let alternative: &str = match fallback {
                    Some(fallback) => fallback.as_str(),
                    None => source,
                };
                let mut object = Fields::none();
                object.put("type", Json::text("custom_emoji"));
                object.put("custom_emoji_id", Json::text(id.as_str()));
                object.put("alternative_text", Json::text(alternative));
                Json::object(object)
            },
            TextStyle::Marked => Json::object(write_styled("marked", inner)),
            TextStyle::Subscript => Json::object(write_styled("subscript", inner)),
            TextStyle::Superscript => Json::object(write_styled("superscript", inner)),
            TextStyle::MathematicalExpression => {
                let mut object = Fields::none();
                object.put("type", Json::text("mathematical_expression"));
                object.put("expression", Json::text(source));
                Json::object(object)
            },
            TextStyle::Hashtag => write_sourced("hashtag", inner, "hashtag", source),
            TextStyle::Cashtag => write_sourced("cashtag", inner, "cashtag", source),
            TextStyle::BotCommand => write_sourced("bot_command", inner, "bot_command", source),
            TextStyle::Email => write_sourced("email_address", inner, "email_address", source),
            TextStyle::Phone => write_sourced("phone_number", inner, "phone_number", source),
            TextStyle::DateTime { timestamp } => {
                let mut object = write_styled("date_time", inner);
                object.put("unix_time", Json::optional_integer(*timestamp));
                Json::object(object)
            },
            TextStyle::Reference { message } => {
                let name: &str = match message {
                    Some(message) => message.id.as_str(),
                    None => source,
                };
                write_sourced("reference", inner, "name", name)
            },
            TextStyle::Quote => Json::object(write_styled("italic", inner)),
            TextStyle::RoleMention { .. } => {
                return Err(unsupported("role or conversation mentions in Telegram rich text"));
            },
            TextStyle::ConversationMention { .. } => {
                return Err(unsupported("role or conversation mentions in Telegram rich text"));
            },
            TextStyle::PlatformNative(native) => {
                let mut object = telegram_native_object(native, "rich-text style")?;
                if !object.contains_key("text") {
                    object.put("text", inner);
                }
                Json::object(object)
            },
        },
    )
}

/// `inner` in the styles from `from` on, the first of them outermost.
pub open spec fn wrap_styles(
    styles: Seq<TextStyle>,
    from: int,
    source: Seq<char>,
    inner: JsonView,
) -> Result<JsonView, ErrorView>
    decreases styles.len() - from,
{
    if from >= styles.len() {
        Ok(inner)
    } else {
        match wrap_styles(styles, from + 1, source, inner) {
            Ok(value) => style_outcome(styles[from], source, value),
            Err(e) => Err(e),
        }
    }
}

/// The span covers the characters `start..end`.
pub open spec fn covers(text: Seq<char>, span: TextSpan, start: int, end: int) -> bool {
    match span_chars(text, span) {
        Some((first, last)) => first <= start && end <= last,
        None => false,
    }
}

/// The characters `start..end` in the styles of the spans from `from` on that
/// cover them, those of the first span outermost.
pub open spec fn wrap_spans(
    text: Seq<char>,
    spans: Seq<TextSpan>,
    from: int,
    start: int,
    end: int,
) -> Result<JsonView, ErrorView>
    decreases spans.len() - from,
{
    let source = text.subrange(start, end);
    if from >= spans.len() {
        Ok(JsonView::Text(source))
    } else {
        match wrap_spans(text, spans, from + 1, start, end) {
            Ok(value) => if covers(text, spans[from], start, end) {
                wrap_styles(spans[from].styles@, 0, source, value)
            } else {
                Ok(value)
            },
            Err(e) => Err(e),
        }
    }
}

proof fn lemma_wrap_styles_refused(
    styles: Seq<TextStyle>,
    from: int,
    source: Seq<char>,
    inner: JsonView,
)
    requires
        0 <= from,
        wrap_styles(styles, from, source, inner) is Err,
    ensures
        wrap_styles(styles, 0, source, inner) == wrap_styles(styles, from, source, inner),
    decreases from,
{
    if from > 0 && from <= styles.len() {
        lemma_wrap_styles_refused(styles, from - 1, source, inner);
    }
}

proof fn lemma_wrap_spans_refused(
    text: Seq<char>,
    spans: Seq<TextSpan>,
    from: int,
    start: int,
    end: int,
)
    requires
        0 <= from,
        wrap_spans(text, spans, from, start, end) is Err,
    ensures
        wrap_spans(text, spans, 0, start, end) == wrap_spans(text, spans, from, start, end),
    decreases from,
{
    if from > 0 && from <= spans.len() {
        lemma_wrap_spans_refused(text, spans, from - 1, start, end);
    }
}

fn write_styles(styles: &Vec<TextStyle>, source: &str, inner: Json) -> (result: Result<Json, Error>)
    ensures
        error::shown(result) == wrap_styles(styles@, 0, source@, inner@),
{
    let ghost start = inner@;
    let mut value = inner;
    let mut i: usize = styles.len();
    while i > 0
        invariant
            i <= styles@.len(),
            start == inner@,
            wrap_styles(styles@, i as int, source@, start) == Ok::<JsonView, ErrorView>(value@),
        decreases i,
    {
        i -= 1;
        match telegram_rich_text_style(&styles[i], source, value) {
            Ok(next) => {
                value = next;
            },
            Err(e) => {
                proof {
                    lemma_wrap_styles_refused(styles@, i as int, source@, start);
                }
                return Err(e);
            },
        }
    }
    Ok(value)
}

/// Whether a span covers the characters `start..end`.
fn is_covered(chars: &Vec<char>, span: &TextSpan, start: usize, end: usize) -> (result: bool)
    ensures
        result == covers(chars@, *span, start as int, end as int),
{
    match span_positions(chars, span) {
        Some((first, last)) => first <= start && end <= last,
        None => false,
    }
}

fn write_piece(chars: &Vec<char>, spans: &Vec<TextSpan>, start: usize, end: usize) -> (result:
    Result<Json, Error>)
    requires
        start <= end <= chars@.len(),
    ensures
        error::shown(result) == wrap_spans(chars@, spans@, 0, start as int, end as int),
{
    let source = text_between(chars, start, end);
    let mut value = Json::text(source.as_str());
    let mut i: usize = spans.len();
    while i > 0
        invariant
            i <= spans@.len(),
            start <= end <= chars@.len(),
            source@ == chars@.subrange(start as int, end as int),
            wrap_spans(chars@, spans@, i as int, start as int, end as int) == Ok::<
                JsonView,
                ErrorView,
            >(value@),
        decreases i,
    {
        i -= 1;
        if is_covered(chars, &spans[i], start, end) {
            match write_styles(&spans[i].styles, source.as_str(), value) {
                Ok(next) => {
                    value = next;
                },
                Err(e) => {
                    proof {
                        lemma_wrap_spans_refused(
                            chars@,
                            spans@,
                            i as int,
                            start as int,
                            end as int,
                        );
                    }
                    return Err(e);
                },
            }
        }
    }
    Ok(value)
}

/// `cuts` with `cut` at its place, once.
pub open spec fn with_cut(cuts: Seq<int>, cut: int) -> Seq<int>
    decreases cuts.len(),
{
    if cuts.len() == 0 || cuts.last() < cut {
        cuts.push(cut)
    } else if cuts.last() == cut {
        cuts
    } else {
        with_cut(cuts.drop_last(), cut).push(cuts.last())
    }
}

/// Where the text is cut: at its ends and where the first `n` spans begin or end.
pub open spec fn cuts(text: Seq<char>, spans: Seq<TextSpan>, n: int) -> Seq<int>
    decreases n,
{
    if n <= 0 {
        with_cut(with_cut(Seq::empty(), 0), text.len() as int)
    } else {
        let (start, end) = span_chars(text, spans[n - 1])->0;
        with_cut(with_cut(cuts(text, spans, n - 1), start), end)
    }
}

/// The cuts ascend and lie within `0..=limit`.
pub open spec fn ordered_cuts(cuts: Seq<int>, limit: int) -> bool {
    &&& forall|i: int, j: int| 0 <= i < j < cuts.len() ==> #[trigger] cuts[i] < #[trigger] cuts[j]
    &&& forall|i: int| 0 <= i < cuts.len() ==> 0 <= #[trigger] cuts[i] <= limit
}

proof fn lemma_with_cut(list: Seq<int>, cut: int, limit: int)
    requires
        ordered_cuts(list, limit),
        0 <= cut <= limit,
    ensures
        ordered_cuts(with_cut(list, cut), limit),
        with_cut(list, cut).contains(cut),
        forall|x: int| list.contains(x) ==> with_cut(list, cut).contains(x),
        forall|x: int| #[trigger] with_cut(list, cut).contains(x) ==> x == cut || list.contains(x),
    decreases list.len(),
{
    if list.len() == 0 || list.last() < cut {
        assert(list.push(cut)[list.len() as int] == cut);
        assert forall|x: int| list.contains(x) implies list.push(cut).contains(x) by {
            let k = list.index_of(x);
            assert(list.push(cut)[k] == x);
        }
    } else if list.last() == cut {
        assert(list[list.len() - 1] == cut);
    } else {
        let front = list.drop_last();
        let last = list.last();
        lemma_with_cut(front, cut, limit);
        let inner = with_cut(front, cut);
        let out = inner.push(last);
        assert forall|k: int| 0 <= k < inner.len() implies #[trigger] inner[k] < last by {
            assert(inner.contains(inner[k]));
            if inner[k] != cut {
                let q = front.index_of(inner[k]);
                assert(list[q] == inner[k]);
            }
        }
        assert(out[inner.len() as int] == last);
        assert forall|x: int| list.contains(x) implies out.contains(x) by {
            let k = list.index_of(x);
            if k < front.len() {
                assert(front[k] == x);
                assert(front.contains(x));
                assert(inner.contains(x));
                let q = inner.index_of(x);
                assert(out[q] == x);
            }
        }
        assert(out.contains(cut)) by {
            let q = inner.index_of(cut);
            assert(out[q] == cut);
        }
        assert forall|x: int| #[trigger] out.contains(x) implies x == cut || list.contains(x) by {
            let k = out.index_of(x);
            if k < inner.len() {
                assert(inner[k] == x);
                assert(inner.contains(x));
                if x != cut {
                    let q = front.index_of(x);
                    assert(list[q] == x);
                }
            } else {
                assert(list[list.len() - 1] == x);
            }
        }
    }
}

/// All spans cover at least one character and end between characters.
pub open spec fn valid_spans(text: Seq<char>, spans: Seq<TextSpan>, n: int) -> bool {
    forall|i: int|
        0 <= i < n ==> (span_chars(text, #[trigger] spans[i]) matches Some((start, end)) && start
            < end)
}

proof fn lemma_cuts(text: Seq<char>, spans: Seq<TextSpan>, n: int)
    requires
        0 <= n <= spans.len(),
        valid_spans(text, spans, n),
    ensures
        ordered_cuts(cuts(text, spans, n), text.len() as int),
        cuts(text, spans, n).contains(0),
        cuts(text, spans, n).contains(text.len() as int),
    decreases n,
{
    if n == 0 {
        lemma_with_cut(Seq::empty(), 0, text.len() as int);
        lemma_with_cut(with_cut(Seq::empty(), 0), text.len() as int, text.len() as int);
    } else {
        lemma_cuts(text, spans, n - 1);
        let (start, end) = span_chars(text, spans[n - 1])->0;
        text::lemma_char_index_ordered(
            text,
            spans[n - 1].start as int,
            spans[n - 1].end as int,
        );
        text::lemma_char_index_ordered(
            text,
            spans[n - 1].end as int,
            spans[n - 1].start as int,
        );
        let before = cuts(text, spans, n - 1);
        lemma_with_cut(before, start, text.len() as int);
        lemma_with_cut(with_cut(before, start), end, text.len() as int);
    }
}

/// Inserts a cut at its place, once.
fn insert_cut(list: &mut Vec<usize>, cut: usize)
    ensures
        positions(final(list)@) == with_cut(positions(old(list)@), cut as int),
{
    let mut i: usize = list.len();
    let ghost all = positions(list@);
    assert(all.take(i as int) =~= all);
    assert(all.skip(i as int) =~= Seq::<int>::empty());
    assert(with_cut(all, cut as int) =~= with_cut(all.take(i as int), cut as int) + all.skip(
        i as int,
    ));
    while i > 0 && list[i - 1] > cut
        invariant
            i <= list@.len(),
            list@ == old(list)@,
            all == positions(list@),
            with_cut(all, cut as int) == with_cut(all.take(i as int), cut as int) + all.skip(
                i as int,
            ),
        decreases i,
    {
        proof {
            let front = all.take(i as int);
            assert(front.last() == all[i - 1]);
            assert(front.drop_last() =~= all.take(i - 1));
            assert(all.skip(i - 1) =~= seq![all[i - 1]] + all.skip(i as int));
            assert(with_cut(all.take(i - 1), cut as int).push(all[i - 1]) + all.skip(i as int)
                =~= with_cut(all.take(i - 1), cut as int) + all.skip(i - 1));
        }
        i -= 1;
    }
    if i > 0 && list[i - 1] == cut {
        assert(all.take(i as int).last() == cut);
        assert(with_cut(all, cut as int) =~= all);
        return ;
    }
    list.insert(i, cut);
    proof {
        assert(with_cut(all.take(i as int), cut as int) =~= all.take(i as int).push(cut as int));
        assert(positions(list@) =~= all.take(i as int).push(cut as int) + all.skip(i as int));
    }
}

/// Positions as integers.
pub open spec fn positions(list: Seq<usize>) -> Seq<int> {
    Seq::new(list.len(), |i: int| list[i] as int)
}

/// The pieces between neighbouring cuts, each in its styles.
pub open spec fn pieces_outcome(
    text: Seq<char>,
    spans: Seq<TextSpan>,
    cuts: Seq<int>,
    n: int,
) -> Result<Seq<JsonView>, ErrorView>
    decreases n,
{
    if n <= 0 {
        Ok(Seq::empty())
    } else {
        match pieces_outcome(text, spans, cuts, n - 1) {
            Ok(done) => match wrap_spans(text, spans, 0, cuts[n - 1], cuts[n]) {
                Ok(value) => Ok(done.push(value)),
                Err(e) => Err(e),
            },
            Err(e) => Err(e),
        }
    }
}

proof fn lemma_pieces_refused(
    text: Seq<char>,
    spans: Seq<TextSpan>,
    cuts: Seq<int>,
    n: int,
    total: int,
)
    requires
        0 <= n <= total,
        pieces_outcome(text, spans, cuts, n) is Err,
    ensures
        pieces_outcome(text, spans, cuts, total) == pieces_outcome(text, spans, cuts, n),
    decreases total - n,
{
    if n < total {
        lemma_pieces_refused(text, spans, cuts, n + 1, total);
    }
}

/// A styled text as a value: the plain text where nothing is styled, the
/// styled piece where there is one, the list of pieces otherwise.
pub open spec fn rich_text_outcome(text: RichText) -> Result<JsonView, ErrorView> {
    let spans = text.spans@;
    if spans.len() == 0 {
        Ok(JsonView::Text(text.text@))
    } else if !valid_spans(text.text@, spans, spans.len() as int) {
        error::refused("rich-text span is not on valid UTF-8 boundaries"@)
    } else {
        let all = cuts(text.text@, spans, spans.len() as int);
        match pieces_outcome(text.text@, spans, all, all.len() - 1) {
            Ok(pieces) => Ok(
                if pieces.len() == 1 {
                    pieces[0]
                } else {
                    JsonView::Array(pieces)
                },
            ),
            Err(e) => Err(e),
        }
    }
}

/// Writes a styled text as a value.
pub fn telegram_rich_text_value(text: &RichText) -> (result: Result<Json, Error>)
    ensures
        error::shown(result) == rich_text_outcome(*text),
{
    if text.spans.len() == 0 {
        return Ok(Json::text(text.text.as_str()));
    }
    let chars = chars_of(text.text.as_str());
    let ghost body = text.text@;
    let ghost spans = text.spans@;
    let mut list: Vec<usize> = Vec::new();
    assert(positions(list@) =~= Seq::<int>::empty());
    insert_cut(&mut list, 0);
    insert_cut(&mut list, chars.len());
    let mut i: usize = 0;
    while i < text.spans.len()
        invariant
            i <= spans.len(),
            chars@ == body,
            body == text.text@,
            spans == text.spans@,
            spans.len() > 0,
            valid_spans(body, spans, i as int),
            positions(list@) == cuts(body, spans, i as int),
        decreases spans.len() - i,
    {
        let (start, end) = match span_positions(&chars, &text.spans[i]) {
            Some((start, end)) => (start, end),
            None => {
                assert(span_chars(body, spans[i as int]) is None);
                return Err(message("rich-text span is not on valid UTF-8 boundaries"));
            },
        };
        if start >= end {
            assert(span_chars(body, spans[i as int]) == Some((start as int, end as int)));
            return Err(message("rich-text span is not on valid UTF-8 boundaries"));
        }
        insert_cut(&mut list, start);
        insert_cut(&mut list, end);
        i += 1;
    }
    let ghost all = cuts(body, spans, spans.len() as int);
    let mut pieces: Vec<Json> = Vec::new();
    proof {
        lemma_cuts(body, spans, spans.len() as int);
        assert(all.len() > 0) by {
            assert(all.contains(0));
        }
        assert(json::views(pieces@) =~= Seq::<JsonView>::empty());
    }
    let mut k: usize = 1;
    while k < list.len()
        invariant
            1 <= k <= list@.len(),
            chars@ == body,
            body == text.text@,
            spans == text.spans@,
            spans.len() > 0,
            valid_spans(body, spans, spans.len() as int),
            all == cuts(body, spans, spans.len() as int),
            all == positions(list@),
            ordered_cuts(all, body.len() as int),
            pieces_outcome(body, spans, all, k - 1) == Ok::<Seq<JsonView>, ErrorView>(
                json::views(pieces@),
            ),
        decreases list@.len() - k,
    {
        assert(all[k - 1] < all[k as int] <= body.len());
        let ghost before = json::views(pieces@);
        match write_piece(&chars, &text.spans, list[k - 1], list[k]) {
            Ok(piece) => {
                pieces.push(piece);
                assert(json::views(pieces@) =~= before.push(piece@));
            },
            Err(e) => {
                proof {
                    assert(pieces_outcome(body, spans, all, k as int) is Err);
                    lemma_pieces_refused(body, spans, all, k as int, all.len() - 1);
                }
                return Err(e);
            },
        }
        k += 1;
    }
    let ghost written = json::views(pieces@);
    if pieces.len() == 1 {
        match pieces.pop() {
            Some(piece) => {
                assert(piece@ == written[0]);
                Ok(piece)
            },
            None => Ok(Json::null()),
        }
    } else {
        Ok(Json::array(pieces))
    }
}

// ---------------------------------------------------------------------------
// Laws
// ---------------------------------------------------------------------------

/// The entity covers at least one UTF-16 unit of a text of the given length,
/// and none outside of it.
pub open spec fn lies_within(entity: JsonView, units: int) -> bool {
    &&& entity matches JsonView::Object(members)
    &&& members.contains_key("offset"@)
    &&& members.contains_key("length"@)
    &&& members["offset"@] matches JsonView::Integer(offset)
    &&& (members["length"@] matches JsonView::Integer(length) && 0 <= offset && 1 <= length
        && offset + length <= units)
}

proof fn lemma_entity_place(offset: int, length: int, style: TextStyle)
    ensures
        entity_outcome(offset, length, style) matches Ok(entity) ==> {
            &&& entity is Object
            &&& entity->Object_0.contains_key("offset"@)
            &&& entity->Object_0["offset"@] == JsonView::Integer(offset)
            &&& entity->Object_0.contains_key("length"@)
            &&& entity->Object_0["length"@] == JsonView::Integer(length)
        },
{
    reveal_strlit("offset");
    reveal_strlit("length");
    reveal_strlit("type");
    reveal_strlit("language");
    reveal_strlit("url");
    reveal_strlit("custom_emoji_id");
    reveal_strlit("unix_time");
    assert("offset"@[0] != "length"@[0]);
    assert("offset"@.len() == 6 && "length"@.len() == 6 && "type"@.len() == 4 && "language"@.len()
        == 8 && "url"@.len() == 3 && "custom_emoji_id"@.len() == 15 && "unix_time"@.len() == 9);
    let base = json::no_fields().insert("offset"@, JsonView::Integer(offset)).insert(
        "length"@,
        JsonView::Integer(length),
    );
    assert(base.contains_key("offset"@) && base["offset"@] == JsonView::Integer(offset));
    assert(base.contains_key("length"@) && base["length"@] == JsonView::Integer(length));
    if style is PlatformNative {
        if let Ok(extra) = native::native_object_outcome(
            style->PlatformNative_0,
            "rich-text entity"@,
        ) {
            if !(exists|key: Seq<char>| native::shares(base, extra, key)) {
                assert(!native::shares(base, extra, "offset"@));
                assert(!native::shares(base, extra, "length"@));
            }
        }
    }
    if let Ok(object) = entity_fields(base, style) {
        assert(object.contains_key("offset"@) && object["offset"@] == JsonView::Integer(offset));
        assert(object.contains_key("length"@) && object["length"@] == JsonView::Integer(length));
        reveal_with_fuel(json::stripped, 2);
        let left = json::stripped(JsonView::Object(object))->Object_0;
        assert(left.contains_key("offset"@) && left["offset"@] == JsonView::Integer(offset));
        assert(left.contains_key("length"@) && left["length"@] == JsonView::Integer(length));
    }
}

proof fn lemma_collected(styles: Seq<TextStyle>, offset: int, length: int, units: int)
    requires
        0 <= offset,
        1 <= length,
        offset + length <= units,
    ensures
        list::collect(styles, style_entities(offset, length)) matches Ok(entities) ==> forall|i: int|
            0 <= i < entities.len() ==> lies_within(#[trigger] entities[i], units),
    decreases styles.len(),
{
    if styles.len() > 0 {
        lemma_collected(styles.drop_last(), offset, length, units);
        lemma_entity_place(offset, length, styles.last());
    }
}

proof fn lemma_gathered(text: Seq<char>, spans: Seq<TextSpan>)
    ensures
        list::gather(spans, spans_entities(text)) matches Ok(entities) ==> forall|i: int|
            0 <= i < entities.len() ==> lies_within(
                #[trigger] entities[i],
                text::units_of(text) as int,
            ),
    decreases spans.len(),
{
    if spans.len() > 0 {
        let before = spans.drop_last();
        lemma_gathered(text, before);
        let span = spans.last();
        if let Some((start, end)) = span_chars(text, span) {
            if start < end {
                text::lemma_char_index_ordered(text, span.start as int, span.end as int);
                text::lemma_char_index_ordered(text, span.end as int, span.start as int);
                let head = text.take(start);
                let middle = text.subrange(start, end);
                let tail = text.skip(end);
                assert(head + middle + tail =~= text);
                text::lemma_units_of_add(head, middle);
                text::lemma_units_of_add(head + middle, tail);
                text::lemma_units_of_bound(middle);
                lemma_collected(
                    span.styles@,
                    text::units_of(head) as int,
                    text::units_of(middle) as int,
                    text::units_of(text) as int,
                );
            }
        }
        if let Ok(entities) = list::gather(spans, spans_entities(text)) {
            let done = list::gather(before, spans_entities(text))->Ok_0;
            let more = span_entities(text, span)->Ok_0;
            assert(entities == done + more);
            assert forall|i: int| 0 <= i < entities.len() implies lies_within(
                #[trigger] entities[i],
                text::units_of(text) as int,
            ) by {
                if i < done.len() {
                    assert(entities[i] == done[i]);
                } else {
                    assert(entities[i] == more[i - done.len()]);
                }
            }
        }
    }
}

/// Every entity of a styled text covers at least one UTF-16 unit of the text,
/// and none outside of it.
pub proof fn law_entities_lie_in_the_text(text: RichText)
    ensures
        entities_outcome(text) matches Ok(entities) ==> forall|i: int|
            0 <= i < entities.len() ==> lies_within(
                #[trigger] entities[i],
                text::units_of(text.text@) as int,
            ),
{
    lemma_gathered(text.text@, text.spans@);
}

/// What was written names the part of a text that the entity names.
pub open spec fn keeps_place(written: JsonView, entity: Map<Seq<char>, JsonView>) -> bool {
    &&& written matches JsonView::Object(members)
    &&& reading::u32_in(entity, "offset"@) matches Some(offset)
    &&& reading::u32_in(entity, "length"@) matches Some(length)
    &&& json::member(members, "offset"@) == Some(JsonView::Integer(offset as int))
    &&& json::member(members, "length"@) == Some(JsonView::Integer(length as int))
}

proof fn lemma_read_style(
    style: TextStyle,
    entity: Map<Seq<char>, JsonView>,
    offset: int,
    length: int,
)
    requires
        reading::reads_style(style, entity),
    ensures
        entity_outcome(offset, length, style) is Ok,
{
    let base = json::no_fields().insert("offset"@, JsonView::Integer(offset)).insert(
        "length"@,
        JsonView::Integer(length),
    );
    if let TextStyle::UserMention { user_id } = style {
        text::lemma_decimal_round_trip(reading::mentioned_id(entity)->0 as int);
    }
    if let TextStyle::PlatformNative(native) = style {
        let extra = entity.remove("offset"@).remove("length"@);
        assert forall|key: Seq<char>| !native::shares(base, extra, key) by {
            assert(base.contains_key(key) ==> key == "offset"@ || key == "length"@);
        }
    }
}

proof fn lemma_read_span(text: Seq<char>, span: TextSpan, value: JsonView)
    requires
        reading::styled_part(text, value) matches Some(part) && reading::is_span(span, part),
    ensures
        span_entities(text, span) matches Ok(list) && list.len() == 1 && keeps_place(
            list[0],
            reading::styled_part(text, value)->0.entity,
        ),
{
    let entity = value->Object_0;
    let offset = reading::u32_in(entity, "offset"@)->0 as int;
    let length = reading::u32_in(entity, "length"@)->0 as int;
    let from = utf16::unit_index(text, offset)->0;
    let to = utf16::unit_index(text, offset + length)->0;
    assert(utf16::starts_at(text, offset, from));
    assert(utf16::starts_at(text, offset + length, to));
    utf16::lemma_index_order(text, offset, offset + length);
    assert(text::starts_at(text, span.start as int, from));
    assert(text::starts_at(text, span.end as int, to));
    text::lemma_char_index(text, span.start as int, from);
    text::lemma_char_index(text, span.end as int, to);
    assert(text.take(from) + text.subrange(from, to) =~= text.take(to));
    text::lemma_units_of_add(text.take(from), text.subrange(from, to));
    assert(text.subrange(from, from) =~= Seq::<char>::empty());
    assert(text::units_of(Seq::<char>::empty()) == 0);
    let style = span.styles@[0];
    let write = style_entities(offset, length);
    lemma_read_style(style, entity, offset, length);
    lemma_entity_place(offset, length, style);
    assert(span.styles@.drop_last() =~= Seq::<TextStyle>::empty());
    assert(list::collect(span.styles@.drop_last(), write) =~= Ok::<Seq<JsonView>, ErrorView>(
        Seq::empty(),
    ));
}

proof fn lemma_read_spans(
    text: Seq<char>,
    spans: Seq<TextSpan>,
    entities: Seq<JsonView>,
    n: int,
)
    requires
        0 <= n <= entities.len(),
        reading::are_spans(spans, reading::styled_parts(text, entities, n)),
    ensures
        list::gather(spans, spans_entities(text)) matches Ok(written) && written.len()
            == spans.len() && forall|i: int|
            0 <= i < spans.len() ==> keeps_place(
                #[trigger] written[i],
                reading::styled_parts(text, entities, n)[i].entity,
            ),
    decreases n,
{
    if n > 0 {
        let parts = reading::styled_parts(text, entities, n);
        if let Some(part) = reading::styled_part(text, entities[n - 1]) {
            let before = spans.drop_last();
            let earlier = reading::styled_parts(text, entities, n - 1);
            assert(parts == earlier.push(part));
            assert forall|i: int| 0 <= i < before.len() implies reading::is_span(
                #[trigger] before[i],
                earlier[i],
            ) by {
                assert(reading::is_span(spans[i], parts[i]));
            }
            lemma_read_spans(text, before, entities, n - 1);
            assert(reading::is_span(spans.last(), parts[spans.len() - 1]));
            lemma_read_span(text, spans.last(), entities[n - 1]);
            let done = list::gather(before, spans_entities(text))->Ok_0;
            let more = span_entities(text, spans.last())->Ok_0;
            let written = done + more;
            assert(list::gather(spans, spans_entities(text)) == Ok::<Seq<JsonView>, ErrorView>(
                written,
            ));
            assert forall|i: int| 0 <= i < spans.len() implies keeps_place(
                #[trigger] written[i],
                parts[i].entity,
            ) by {
                if i < done.len() {
                    assert(written[i] == done[i]);
                } else {
                    assert(written[i] == more[0]);
                }
            }
        } else {
            lemma_read_spans(text, spans, entities, n - 1);
        }
    }
}

/// A styled text that was read can be written again: each entity that was read
/// is written once, in order, and names the same UTF-16 units as before.
pub proof fn law_read_texts_can_be_written(rich: RichText, text: Seq<char>, entities: Seq<JsonView>)
    requires
        reading::reads_text(rich, text, entities),
    ensures
        ({
            let parts = reading::styled_parts(text, entities, entities.len() as int);
            &&& entities_outcome(rich) matches Ok(written)
            &&& written.len() == parts.len()
            &&& forall|i: int|
                0 <= i < parts.len() ==> keeps_place(#[trigger] written[i], parts[i].entity)
        }),
{
    lemma_read_spans(text, rich.spans@, entities, entities.len() as int);
}

/// The plain text of the first `n` pieces.
pub open spec fn pieces_text(text: Seq<char>, cuts: Seq<int>, n: int) -> Seq<char>
    decreases n,
{
    if n <= 0 {
        Seq::empty()
    } else {
        pieces_text(text, cuts, n - 1) + text.subrange(cuts[n - 1], cuts[n])
    }
}

proof fn lemma_pieces_text(text: Seq<char>, list: Seq<int>, n: int)
    requires
        ordered_cuts(list, text.len() as int),
        0 <= n < list.len(),
    ensures
        pieces_text(text, list, n) == text.subrange(list[0], list[n]),
    decreases n,
{
    if n > 0 {
        lemma_pieces_text(text, list, n - 1);
        assert(list[n - 1] < list[n]);
        if n > 1 {
            assert(list[0] < list[n - 1]);
        }
        assert(text.subrange(list[0], list[n - 1]) + text.subrange(list[n - 1], list[n])
            =~= text.subrange(list[0], list[n]));
    }
}

proof fn lemma_cut_places(text: Seq<char>, spans: Seq<TextSpan>, n: int)
    requires
        0 <= n <= spans.len(),
        valid_spans(text, spans, n),
    ensures
        cuts(text, spans, n).contains(0),
        cuts(text, spans, n).contains(text.len() as int),
        forall|i: int|
            0 <= i < n ==> (span_chars(text, #[trigger] spans[i]) matches Some((start, end))
                && cuts(text, spans, n).contains(start) && cuts(text, spans, n).contains(end)),
    decreases n,
{
    let limit = text.len() as int;
    if n <= 0 {
        lemma_with_cut(Seq::empty(), 0, limit);
        lemma_with_cut(with_cut(Seq::empty(), 0), limit, limit);
    } else {
        lemma_cut_places(text, spans, n - 1);
        lemma_cuts(text, spans, n - 1);
        assert(span_chars(text, spans[n - 1]) is Some);
        let (start, end) = span_chars(text, spans[n - 1])->0;
        text::lemma_char_index_ordered(
            text,
            spans[n - 1].start as int,
            spans[n - 1].end as int,
        );
        text::lemma_char_index_ordered(
            text,
            spans[n - 1].end as int,
            spans[n - 1].start as int,
        );
        let before = cuts(text, spans, n - 1);
        lemma_with_cut(before, start, limit);
        lemma_with_cut(with_cut(before, start), end, limit);
        assert forall|i: int| 0 <= i < n implies (span_chars(
            text,
            #[trigger] spans[i],
        ) matches Some((from, to)) && cuts(text, spans, n).contains(from) && cuts(
            text,
            spans,
            n,
        ).contains(to)) by {
            if i < n - 1 {
                let (from, to) = span_chars(text, spans[i])->0;
                assert(before.contains(from) && before.contains(to));
                assert(with_cut(before, start).contains(from));
                assert(with_cut(before, start).contains(to));
            } else {
                assert(with_cut(before, start).contains(start));
            }
        }
    }
}

/// The pieces of a styled text, one after another, are the text, and every
/// span begins and ends between two pieces.
pub proof fn law_pieces_cover_the_text(text: Seq<char>, spans: Seq<TextSpan>)
    requires
        valid_spans(text, spans, spans.len() as int),
    ensures
        ({
            let all = cuts(text, spans, spans.len() as int);
            &&& pieces_text(text, all, all.len() - 1) == text
            &&& forall|i: int|
                0 <= i < spans.len() ==> (span_chars(text, #[trigger] spans[i]) matches Some(
                    (start, end),
                ) && all.contains(start) && all.contains(end))
        }),
{
    let all = cuts(text, spans, spans.len() as int);
    lemma_cuts(text, spans, spans.len() as int);
    lemma_cut_places(text, spans, spans.len() as int);
    let first = all.index_of(0);
    let last = all.index_of(text.len() as int);
    assert(all[first] == 0 && all[last] == text.len());
    if first > 0 {
        assert(all[0] < all[first]);
    }
    if last < all.len() - 1 {
        assert(all[last] < all[all.len() - 1]);
    }
    lemma_pieces_text(text, all, all.len() - 1);
    assert(text.subrange(0, text.len() as int) =~= text);
}

proof fn lemma_style_names()
    ensures
        "bold"@.len() == 4,
        "italic"@.len() == 6,
        "underline"@.len() == 9,
        "strikethrough"@.len() == 13,
        "spoiler"@.len() == 7,
        "code"@.len() == 4,
        "blockquote"@.len() == 10,
        "hashtag"@.len() == 7,
        "cashtag"@.len() == 7,
        "bot_command"@.len() == 11,
        "email"@.len() == 5,
        "phone_number"@.len() == 12,
        "pre"@.len() == 3,
        "date_time"@.len() == 9,
        "text_link"@.len() == 9,
        "text_mention"@.len() == 12,
        "custom_emoji"@.len() == 12,
        "bold"@ != "code"@,
        "underline"@ != "date_time"@,
        "underline"@ != "text_link"@,
        "spoiler"@ != "hashtag"@,
        "spoiler"@ != "cashtag"@,
        "hashtag"@ != "cashtag"@,
        "phone_number"@ != "text_mention"@,
        "phone_number"@ != "custom_emoji"@,
        "date_time"@ != "text_link"@,
        "text_mention"@ != "custom_emoji"@,
{
    reveal_strlit("bold");
    reveal_strlit("italic");
    reveal_strlit("underline");
    reveal_strlit("strikethrough");
    reveal_strlit("spoiler");
    reveal_strlit("code");
    reveal_strlit("blockquote");
    reveal_strlit("hashtag");
    reveal_strlit("cashtag");
    reveal_strlit("bot_command");
    reveal_strlit("email");
    reveal_strlit("phone_number");
    reveal_strlit("pre");
    reveal_strlit("date_time");
    reveal_strlit("text_link");
    reveal_strlit("text_mention");
    reveal_strlit("custom_emoji");
    assert("bold"@[0] != "code"@[0]);
    assert("underline"@[0] != "date_time"@[0]);
    assert("underline"@[0] != "text_link"@[0]);
    assert("spoiler"@[0] != "hashtag"@[0]);
    assert("spoiler"@[0] != "cashtag"@[0]);
    assert("hashtag"@[0] != "cashtag"@[0]);
    assert("phone_number"@[0] != "text_mention"@[0]);
    assert("phone_number"@[0] != "custom_emoji"@[0]);
    assert("date_time"@[0] != "text_link"@[0]);
    assert("text_mention"@[0] != "custom_emoji"@[0]);
}

proof fn lemma_entity_keys()
    ensures
        "offset"@.len() == 6,
        "length"@.len() == 6,
        "type"@.len() == 4,
        "language"@.len() == 8,
        "url"@.len() == 3,
        "unix_time"@.len() == 9,
        "custom_emoji_id"@.len() == 15,
        "user"@.len() == 4,
        "offset"@ != "length"@,
        "type"@ != "user"@,
{
    reveal_strlit("offset");
    reveal_strlit("length");
    reveal_strlit("type");
    reveal_strlit("language");
    reveal_strlit("url");
    reveal_strlit("unix_time");
    reveal_strlit("custom_emoji_id");
    reveal_strlit("user");
    assert("offset"@[0] != "length"@[0]);
    assert("type"@[0] != "user"@[0]);
}

proof fn lemma_entity_written(offset: int, length: int, style: TextStyle)
    requires
        entity_outcome(offset, length, style) is Ok,
        !(style is PlatformNative),
    ensures
        ({
            let base = json::no_fields().insert("offset"@, JsonView::Integer(offset)).insert(
                "length"@,
                JsonView::Integer(length),
            );
            let written = entity_fields(base, style)->Ok_0;
            let entity = entity_outcome(offset, length, style)->Ok_0;
            &&& entity is Object
            &&& forall|key: Seq<char>| #[trigger]
                json::member(entity->Object_0, key) == match json::member(written, key) {
                    None => None,
                    Some(value) => if value is Null {
                        None
                    } else {
                        Some(json::stripped(value))
                    },
                }
        }),
{
    let base = json::no_fields().insert("offset"@, JsonView::Integer(offset)).insert(
        "length"@,
        JsonView::Integer(length),
    );
    let written = entity_fields(base, style)->Ok_0;
    let entity = entity_outcome(offset, length, style)->Ok_0;
    json::lemma_stripped_member(written, "type"@);
    assert forall|key: Seq<char>| #[trigger]
        json::member(entity->Object_0, key) == match json::member(written, key) {
            None => None,
            Some(value) => if value is Null {
                None
            } else {
                Some(json::stripped(value))
            },
        } by {
        json::lemma_stripped_member(written, key);
    }
}

/// Writing a style and reading what was written gives that style again, with
/// its language, its address, its emoji or its time. A mention of a user is
/// written, and so read, as a link to that user.
pub proof fn law_written_styles_are_read_back(
    offset: int,
    length: int,
    style: TextStyle,
    read: TextStyle,
)
    requires
        !(style is PlatformNative),
        entity_outcome(offset, length, style) is Ok,
        reading::reads_style(read, entity_outcome(offset, length, style)->Ok_0->Object_0),
    ensures
        style is Bold <==> read is Bold,
        style is Italic <==> read is Italic,
        style is Underline <==> read is Underline,
        style is Strikethrough <==> read is Strikethrough,
        style is Spoiler <==> read is Spoiler,
        style is Code <==> read is Code,
        style is Quote <==> read is Quote,
        style is Hashtag <==> read is Hashtag,
        style is Cashtag <==> read is Cashtag,
        style is BotCommand <==> read is BotCommand,
        style is Email <==> read is Email,
        style is Phone <==> read is Phone,
        style matches TextStyle::Preformatted { language } ==> (read matches
            TextStyle::Preformatted { language: again } && json::optional_chars(language)
            == json::optional_chars(again)),
        style matches TextStyle::Link { url } ==> (read matches TextStyle::Link { url: again }
            && url@ == again@),
        style matches TextStyle::CustomEmoji { id, .. } ==> (read matches TextStyle::CustomEmoji {
            id: again,
            ..
        } && id@ == again@),
        style matches TextStyle::DateTime { timestamp } ==> (read matches TextStyle::DateTime {
            timestamp: again,
        } && timestamp == again),
        style matches TextStyle::UserMention { user_id } ==> (read matches TextStyle::Link { url }
            && text::i64_value(user_id@) matches Some(id) && url@ == "tg://user?id="@
            + text::decimal(id as int)),
{
    lemma_style_names();
    lemma_entity_keys();
    lemma_entity_written(offset, length, style);
    let entity = entity_outcome(offset, length, style)->Ok_0->Object_0;
    let kind = json::text_in(entity, "type"@);
    assert(json::member(entity, "language"@) == json::member(entity, "language"@));
    assert(json::member(entity, "url"@) == json::member(entity, "url"@));
    assert(json::member(entity, "custom_emoji_id"@) == json::member(entity, "custom_emoji_id"@));
    assert(json::member(entity, "unix_time"@) == json::member(entity, "unix_time"@));
}

/// Each style has the name that Telegram has for it, so that no two of them
/// are written alike.
pub proof fn law_styles_have_their_names(offset: int, length: int, style: TextStyle)
    requires
        !(style is PlatformNative),
        entity_outcome(offset, length, style) is Ok,
    ensures
        ({
            let entity = entity_outcome(offset, length, style)->Ok_0->Object_0;
            let name = json::text_in(entity, "type"@);
            &&& style is Bold <==> name == Some("bold"@)
            &&& style is Italic <==> name == Some("italic"@)
            &&& style is Underline <==> name == Some("underline"@)
            &&& style is Strikethrough <==> name == Some("strikethrough"@)
            &&& style is Spoiler <==> name == Some("spoiler"@)
            &&& style is Code <==> name == Some("code"@)
            &&& style is Quote <==> name == Some("blockquote"@)
            &&& style is Hashtag <==> name == Some("hashtag"@)
            &&& style is Cashtag <==> name == Some("cashtag"@)
            &&& style is BotCommand <==> name == Some("bot_command"@)
            &&& style is Email <==> name == Some("email"@)
            &&& style is Phone <==> name == Some("phone_number"@)
            &&& style is Preformatted <==> name == Some("pre"@)
            &&& style is CustomEmoji <==> name == Some("custom_emoji"@)
            &&& style is DateTime <==> name == Some("date_time"@)
            &&& style is Link || style is UserMention <==> name == Some("text_link"@)
            &&& json::member(entity, "offset"@) == Some(JsonView::Integer(offset))
            &&& json::member(entity, "length"@) == Some(JsonView::Integer(length))
        }),
{
    lemma_style_names();
    lemma_entity_keys();
    lemma_entity_written(offset, length, style);
    lemma_entity_place(offset, length, style);
    let entity = entity_outcome(offset, length, style)->Ok_0->Object_0;
    assert(json::member(entity, "type"@) == json::member(entity, "type"@));
}

/// A style has one name in a text with entities and in a nested text, and what
/// it is about stands in it.
pub proof fn law_nested_styles_agree(
    style: TextStyle,
    source: Seq<char>,
    inner: JsonView,
    offset: int,
    length: int,
)
    requires
        style is Bold || style is Italic || style is Underline || style is Strikethrough
            || style is Spoiler || style is Code || style is Hashtag || style is Cashtag
            || style is BotCommand || style is Phone || style is DateTime || style is CustomEmoji,
    ensures
        style_outcome(style, source, inner) matches Ok(JsonView::Object(nested)) && (
        entity_outcome(offset, length, style) matches Ok(JsonView::Object(entity)) && json::text_in(
            nested,
            "type"@,
        ) == json::text_in(entity, "type"@) && json::text_in(nested, "type"@) is Some
            && json::text_in(nested, "custom_emoji_id"@) == json::text_in(
            entity,
            "custom_emoji_id"@,
        ) && (!(style is CustomEmoji) ==> json::member(nested, "text"@) == Some(inner))),
{
    lemma_style_names();
    lemma_entity_keys();
    lemma_nested_keys();
    lemma_entity_written(offset, length, style);
    let entity = entity_outcome(offset, length, style)->Ok_0->Object_0;
    assert(json::member(entity, "type"@) == json::member(entity, "type"@));
    assert(json::member(entity, "custom_emoji_id"@) == json::member(entity, "custom_emoji_id"@));
}

proof fn lemma_nested_keys()
    ensures
        "text"@.len() == 4,
        "type"@.len() == 4,
        "url"@.len() == 3,
        "hashtag"@.len() == 7,
        "cashtag"@.len() == 7,
        "bot_command"@.len() == 11,
        "email_address"@.len() == 13,
        "phone_number"@.len() == 12,
        "unix_time"@.len() == 9,
        "user"@.len() == 4,
        "name"@.len() == 4,
        "custom_emoji_id"@.len() == 15,
        "alternative_text"@.len() == 16,
        "expression"@.len() == 10,
        "text"@ != "type"@,
        "text"@ != "user"@,
        "text"@ != "name"@,
        "type"@ != "user"@,
        "type"@ != "name"@,
        "hashtag"@ != "cashtag"@,
        "user"@ != "name"@,
{
    reveal_strlit("text");
    reveal_strlit("type");
    reveal_strlit("url");
    reveal_strlit("hashtag");
    reveal_strlit("cashtag");
    reveal_strlit("bot_command");
    reveal_strlit("email_address");
    reveal_strlit("phone_number");
    reveal_strlit("unix_time");
    reveal_strlit("user");
    reveal_strlit("name");
    reveal_strlit("custom_emoji_id");
    reveal_strlit("alternative_text");
    reveal_strlit("expression");
    assert("text"@[1] != "type"@[1]);
    assert("text"@[0] != "user"@[0]);
    assert("text"@[0] != "name"@[0]);
    assert("type"@[0] != "user"@[0]);
    assert("type"@[0] != "name"@[0]);
    assert("hashtag"@[0] != "cashtag"@[0]);
    assert("user"@[0] != "name"@[0]);
}

/// The styles that only nested texts have are written under their names: what
/// is marked, lowered or raised, an expression by its source, a link with its
/// address, a mention with the number of the user.
pub proof fn law_nested_styles_have_their_names(
    style: TextStyle,
    source: Seq<char>,
    inner: JsonView,
)
    requires
        style_outcome(style, source, inner) is Ok,
    ensures
        ({
            let nested = style_outcome(style, source, inner)->Ok_0->Object_0;
            let name = json::text_in(nested, "type"@);
            &&& style is Marked ==> name == Some("marked"@)
            &&& style is Subscript ==> name == Some("subscript"@)
            &&& style is Superscript ==> name == Some("superscript"@)
            &&& style is Quote ==> name == Some("italic"@)
            &&& style is Email ==> name == Some("email_address"@) && json::text_in(
                nested,
                "email_address"@,
            ) == Some(source)
            &&& style is Preformatted ==> name == Some("code"@)
            &&& style is MathematicalExpression ==> name == Some("mathematical_expression"@)
                && json::text_in(nested, "expression"@) == Some(source)
            &&& style matches TextStyle::Link { url } ==> name == Some("url"@) && json::text_in(
                nested,
                "url"@,
            ) == Some(url@)
            &&& style matches TextStyle::UserMention { user_id } ==> name == Some("text_mention"@)
                && (json::object_in(nested, "user"@) matches Some(user) && json::i64_in(user, "id"@)
                == text::i64_value(user_id@) && text::i64_value(user_id@) is Some)
            &&& style matches TextStyle::DateTime { timestamp: Some(time) } ==> json::i64_in(
                nested,
                "unix_time"@,
            ) == Some(time)
        }),
{
    lemma_nested_keys();
    lemma_user_keys();
}

proof fn lemma_user_keys()
    ensures
        "id"@.len() == 2,
        "is_bot"@.len() == 6,
        "first_name"@.len() == 10,
{
    reveal_strlit("id");
    reveal_strlit("is_bot");
    reveal_strlit("first_name");
}

/// The entities of a span mark exactly its characters, each for one of its
/// styles in their order: where they start and end in UTF-16 units is where the
/// span starts and ends in bytes.
pub proof fn law_entities_mark_the_span(text: Seq<char>, span: TextSpan, i: int)
    requires
        span_entities(text, span) is Ok,
        0 <= i < span.styles@.len(),
    ensures
        ({
            let entities = span_entities(text, span)->Ok_0;
            &&& entities.len() == span.styles@.len()
            &&& entity_of(text, span, entities[i])
            &&& exists|offset: int, length: int|
                #[trigger] entity_outcome(offset, length, span.styles@[i]) == Ok::<
                    JsonView,
                    ErrorView,
                >(entities[i])
        }),
{
    let (start, end) = span_chars(text, span)->0;
    let offset = text::units_of(text.take(start)) as int;
    let length = text::units_of(text.subrange(start, end)) as int;
    let write = style_entities(offset, length);
    lemma_collected_item(span.styles@, write, i);
    let entity = span_entities(text, span)->Ok_0[i];
    assert(entity_outcome(offset, length, span.styles@[i]) == Ok::<JsonView, ErrorView>(entity));
    lemma_entity_place(offset, length, span.styles@[i]);
    assert(text::starts_at(text, span.start as int, start));
    assert(text::starts_at(text, span.end as int, end));
    assert(text.take(start) + text.subrange(start, end) =~= text.take(end));
    text::lemma_units_of_add(text.take(start), text.subrange(start, end));
    assert(utf16::starts_at(text, offset, start));
    assert(utf16::starts_at(text, offset + length, end));
    utf16::lemma_unit_index(text, offset, start);
    utf16::lemma_unit_index(text, offset + length, end);
    text::lemma_units_of_bound(text.subrange(start, end));
}

/// The entity starts and ends where the span does, counted in UTF-16 units.
pub open spec fn entity_of(text: Seq<char>, span: TextSpan, entity: JsonView) -> bool {
    &&& entity matches JsonView::Object(members)
    &&& json::member(members, "offset"@) matches Some(JsonView::Integer(offset))
    &&& json::member(members, "length"@) matches Some(JsonView::Integer(length))
    &&& length > 0
    &&& utf16::unit_index(text, offset) matches Some(start)
    &&& utf16::unit_index(text, offset + length) matches Some(end)
    &&& text::bytes_of(text.take(start)) == span.start
    &&& text::bytes_of(text.take(end)) == span.end
}

proof fn lemma_collected_item(
    items: Seq<TextStyle>,
    f: spec_fn(int, TextStyle) -> Result<JsonView, ErrorView>,
    i: int,
)
    requires
        list::collect(items, f) is Ok,
        0 <= i < items.len(),
    ensures
        list::collect(items, f)->Ok_0.len() == items.len(),
        f(i, items[i]) == Ok::<JsonView, ErrorView>(list::collect(items, f)->Ok_0[i]),
    decreases items.len(),
{
    let before = items.drop_last();
    if i < before.len() {
        lemma_collected_item(before, f, i);
    } else if before.len() > 0 {
        lemma_collected_item(before, f, before.len() - 1);
    }
}

/// A span styles the characters that it covers and no others: over the first
/// span that covers them its styles come last, and one that does not cover them
/// changes nothing.
pub proof fn law_spans_style_what_they_cover(
    text: Seq<char>,
    spans: Seq<TextSpan>,
    from: int,
    start: int,
    end: int,
)
    requires
        0 <= from < spans.len(),
        wrap_spans(text, spans, from + 1, start, end) is Ok,
    ensures
        span_chars(text, spans[from]) matches Some((first, last)) && first <= start && end <= last
            ==> wrap_spans(text, spans, from, start, end) == wrap_styles(
            spans[from].styles@,
            0,
            text.subrange(start, end),
            wrap_spans(text, spans, from + 1, start, end)->Ok_0,
        ),
        span_chars(text, spans[from]) matches Some((first, last)) && (start < first || last < end)
            ==> wrap_spans(text, spans, from, start, end) == wrap_spans(
            text,
            spans,
            from + 1,
            start,
            end,
        ),
        wrap_spans(text, spans, spans.len() as int, start, end) == Ok::<JsonView, ErrorView>(
            JsonView::Text(text.subrange(start, end)),
        ),
{
    reveal_with_fuel(wrap_spans, 2);
}

} // verus!
