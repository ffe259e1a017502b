//! Polls.
use crate::api::layout;
use crate::api::layout::write_duration;
use crate::api::request;
use crate::api::request::{make_call, Request, RequestView};
use crate::api::rich_text;
use crate::api::rich_text::telegram_rich_text_entities;
use crate::content::{Duration, Poll, PollOption, PollType, RichText};
use crate::error;
use crate::error::{message, Error, ErrorView};
use crate::json;
use crate::json::{Fields, Json, JsonView};
use crate::list;
use crate::list::collect_json;
use crate::native;
use crate::native::{merge_fields, merge_optional_native, telegram_native_object, PlatformNativeData, SERVER};
use crate::text;
use crate::text::{chars_of, same};
use crate::time;
use crate::time::instant;
use vstd::prelude::*;
use vstd::string::*;

verus! {

// ---------------------------------------------------------------------------
// Sending
// ---------------------------------------------------------------------------

/// Two upper-case ASCII letters.
pub open spec fn is_country_code(code: Seq<char>) -> bool {
    code.len() == 2 && text::is_upper(code[0]) && text::is_upper(code[1])
}

fn has_country_code(code: &str) -> (result: bool)
    ensures
        result == is_country_code(code@),
{
    let chars = chars_of(code);
    chars.len() == 2 && 'A' <= chars[0] && chars[0] <= 'Z' && 'A' <= chars[1] && chars[1] <= 'Z'
}

pub open spec fn countries_valid(codes: Seq<String>) -> bool {
    forall|i: int| 0 <= i < codes.len() ==> is_country_code((#[trigger] codes[i])@)
}

fn check_countries(codes: &Vec<String>) -> (result: bool)
    ensures
        result == countries_valid(codes@),
{
    let mut i: usize = 0;
    while i < codes.len()
        invariant
            i <= codes@.len(),
            forall|j: int| 0 <= j < i ==> is_country_code((#[trigger] codes@[j])@),
        decreases codes@.len() - i,
    {
        if !has_country_code(codes[i].as_str()) {
            assert(!is_country_code(codes@[i as int]@));
            return false;
        }
        i += 1;
    }
    true
}

pub open spec fn options_valid(options: Seq<PollOption>) -> bool {
    forall|i: int| 0 <= i < options.len() ==> 1 <= (#[trigger] options[i]).text.text@.len() <= 100
}

fn check_options(options: &Vec<PollOption>) -> (result: bool)
    ensures
        result == options_valid(options@),
{
    let mut i: usize = 0;
    while i < options.len()
        invariant
            i <= options@.len(),
            forall|j: int| 0 <= j < i ==> 1 <= (#[trigger] options@[j]).text.text@.len() <= 100,
        decreases options@.len() - i,
    {
        let n: usize = options[i].text.text.as_str().unicode_len();
        if !(1 <= n && n <= 100) {
            assert(!(1 <= options@[i as int].text.text@.len() <= 100));
            return false;
        }
        i += 1;
    }
    true
}

/// The first rule that a poll breaks.
pub open spec fn poll_rule(poll: Poll) -> Result<(), ErrorView> {
    if !(2 <= poll.options@.len() <= 12) {
        error::refused("Telegram polls require 2 to 12 options"@)
    } else if !(1 <= poll.question.text@.len() <= 300) {
        error::refused("Telegram poll questions must contain 1 to 300 characters"@)
    } else if !options_valid(poll.options@) {
        error::refused("Telegram poll options must contain 1 to 100 characters"@)
    } else if poll.explanation matches Some(explanation) && explanation.text@.len() > 200 {
        error::refused("Telegram poll explanations are limited to 200 characters"@)
    } else if poll.open_for matches Some(duration) && !(5 <= duration.seconds <= 600) {
        error::refused("Telegram poll open periods must be between 5 and 600 seconds"@)
    } else if !countries_valid(poll.country_codes@) {
        error::refused(
            "Telegram poll country codes must be uppercase ISO 3166-1 alpha-2 codes or FT"@,
        )
    } else {
        Ok(())
    }
}

fn check_poll(poll: &Poll) -> (result: Result<(), Error>)
    ensures
        error::shown(result) == poll_rule(*poll),
{
    let count: usize = poll.options.len();
    if !(2 <= count && count <= 12) {
        return Err(message("Telegram polls require 2 to 12 options"));
    }
    let question: usize = poll.question.text.as_str().unicode_len();
    if !(1 <= question && question <= 300) {
        return Err(message("Telegram poll questions must contain 1 to 300 characters"));
    }
    if !check_options(&poll.options) {
        return Err(message("Telegram poll options must contain 1 to 100 characters"));
    }
    if let Some(explanation) = &poll.explanation {
        if explanation.text.as_str().unicode_len() > 200 {
            return Err(message("Telegram poll explanations are limited to 200 characters"));
        }
    }
    if let Some(duration) = &poll.open_for {
        if !(5 <= duration.seconds && duration.seconds <= 600) {
            return Err(message("Telegram poll open periods must be between 5 and 600 seconds"));
        }
    }
    if !check_countries(&poll.country_codes) {
        return Err(
            message("Telegram poll country codes must be uppercase ISO 3166-1 alpha-2 codes or FT"),
        );
    }
    Ok(())
}

/// A text with its entities beside it, and native members.
pub open spec fn option_outcome(option: PollOption) -> Result<JsonView, ErrorView> {
    match rich_text::entities_outcome(option.text) {
        Err(e) => Err(e),
        Ok(entities) => {
            let own = json::no_fields().insert("text"@, JsonView::Text(option.text.text@)).insert(
                "text_entities"@,
                JsonView::Array(entities),
            );
            match option.platform_data {
                None => Ok(JsonView::Object(own)),
                Some(native) => match native::native_object_outcome(native, "poll option"@) {
                    Err(e) => Err(e),
                    Ok(extra) => match native::merged(own, extra, "Telegram poll option"@) {
                        Err(e) => Err(e),
                        Ok(all) => Ok(JsonView::Object(all)),
                    },
                },
            }
        },
    }
}

fn write_option(index: usize, option: &PollOption) -> (result: Result<Json, Error>)
    ensures
        error::shown(result) == option_outcome(*option),
{
    let entities = telegram_rich_text_entities(&option.text)?;
    let mut own = Fields::none();
    own.put("text", Json::text(option.text.text.as_str()));
    own.put("text_entities", Json::array(entities));
    if let Some(native) = &option.platform_data {
        let extra = telegram_native_object(native, "poll option")?;
        own = merge_fields(own, &extra, "Telegram poll option")?;
    }
    Ok(Json::object(own))
}

/// How the options of a poll are written.
pub open spec fn poll_options() -> spec_fn(int, PollOption) -> Result<JsonView, ErrorView> {
    |index: int, option: PollOption| option_outcome(option)
}

/// The name of a kind of poll.
pub open spec fn poll_type_name(kind: PollType) -> Seq<char> {
    match kind {
        PollType::Regular => "regular"@,
        PollType::Quiz => "quiz"@,
        PollType::PlatformNative(name) => name@,
    }
}

/// The correct options: those listed, or the single one where none is listed.
pub open spec fn correct_options_outcome(poll: Poll) -> Result<Seq<usize>, ErrorView> {
    let listed = poll.correct_options@;
    if listed.len() == 0 {
        Ok(
            match poll.correct_option {
                Some(option) => seq![option],
                None => Seq::empty(),
            },
        )
    } else if poll.correct_option matches Some(option) && !listed.contains(option) {
        error::refused("poll correct_option conflicts with correct_options"@)
    } else {
        Ok(listed)
    }
}

fn correct_options(poll: &Poll) -> (result: Result<Vec<usize>, Error>)
    ensures
        match result {
            Ok(list) => correct_options_outcome(*poll) == Ok::<Seq<usize>, ErrorView>(list@),
            Err(e) => correct_options_outcome(*poll) == Err::<Seq<usize>, ErrorView>(e@),
        },
{
    let mut list: Vec<usize> = Vec::new();
    if poll.correct_options.len() == 0 {
        if let Some(option) = poll.correct_option {
            list.push(option);
            assert(list@ =~= seq![option]);
        } else {
            assert(list@ =~= Seq::<usize>::empty());
        }
        return Ok(list);
    }
    let mut found = poll.correct_option.is_none();
    let mut i: usize = 0;
    while i < poll.correct_options.len()
        invariant
            i <= poll.correct_options@.len(),
            list@ == poll.correct_options@.take(i as int),
            found == match poll.correct_option {
                None => true,
                Some(option) => exists|j: int|
                    0 <= j < i && #[trigger] poll.correct_options@[j] == option,
            },
        decreases poll.correct_options@.len() - i,
    {
        let listed: usize = poll.correct_options[i];
        if let Some(option) = poll.correct_option {
            if option == listed {
                found = true;
            }
        }
        list.push(listed);
        assert(list@ =~= poll.correct_options@.take(i + 1));
        i += 1;
    }
    assert(list@ =~= poll.correct_options@);
    if !found {
        return Err(message("poll correct_option conflicts with correct_options"));
    }
    Ok(list)
}

pub open spec fn indices_valid(list: Seq<usize>, count: int) -> bool {
    forall|i: int| 0 <= i < list.len() ==> #[trigger] list[i] < count
}

/// Indices as documents.
pub open spec fn indices_view(list: Seq<usize>) -> Seq<JsonView> {
    Seq::new(list.len(), |i: int| JsonView::Integer(list[i] as int))
}

fn write_indices(list: &Vec<usize>) -> (items: Vec<Json>)
    ensures
        json::views(items@) == indices_view(list@),
{
    let mut items: Vec<Json> = Vec::new();
    let mut i: usize = 0;
    while i < list.len()
        invariant
            i <= list@.len(),
            items@.len() == i,
            forall|j: int|
                0 <= j < i ==> (#[trigger] items@[j])@ == JsonView::Integer(list@[j] as int),
        decreases list@.len() - i,
    {
        items.push(Json::unsigned(list[i] as u64));
        i += 1;
    }
    assert(json::views(items@) =~= indices_view(list@));
    items
}

/// Texts as documents.
pub open spec fn texts_view(list: Seq<String>) -> Seq<JsonView> {
    Seq::new(list.len(), |i: int| JsonView::Text(list[i]@))
}

/// Writes texts as documents.
pub fn write_texts(list: &Vec<String>) -> (items: Vec<Json>)
    ensures
        json::views(items@) == texts_view(list@),
{
    let mut items: Vec<Json> = Vec::new();
    let mut i: usize = 0;
    while i < list.len()
        invariant
            i <= list@.len(),
            items@.len() == i,
            forall|j: int| 0 <= j < i ==> (#[trigger] items@[j])@ == JsonView::Text(list@[j]@),
        decreases list@.len() - i,
    {
        items.push(Json::text(list[i].as_str()));
        i += 1;
    }
    assert(json::views(items@) =~= texts_view(list@));
    items
}

/// The parameters of a poll from its question to its open period.
pub open spec fn poll_head(
    payload: Map<Seq<char>, JsonView>,
    poll: Poll,
    question: Seq<JsonView>,
    options: Seq<JsonView>,
) -> Map<Seq<char>, JsonView> {
    payload.insert("question"@, JsonView::Text(poll.question.text@)).insert(
        "question_entities"@,
        JsonView::Array(question),
    ).insert("options"@, JsonView::Array(options)).insert(
        "is_anonymous"@,
        JsonView::Bool(
            match poll.anonymous {
                Some(anonymous) => anonymous,
                None => true,
            },
        ),
    ).insert("type"@, JsonView::Text(poll_type_name(poll.kind))).insert(
        "allows_multiple_answers"@,
        JsonView::Bool(poll.allows_multiple_answers),
    ).insert("allows_revoting"@, json::optional_bool_view(poll.allows_revoting)).insert(
        "members_only"@,
        json::optional_bool_view(poll.members_only),
    ).insert("country_codes"@, JsonView::Array(texts_view(poll.country_codes@))).insert(
        "open_period"@,
        layout::duration_view(poll.open_for),
    )
}

/// The explanation of a poll with its entities.
pub open spec fn with_explanation(
    payload: Map<Seq<char>, JsonView>,
    explanation: Option<RichText>,
) -> Result<Map<Seq<char>, JsonView>, ErrorView> {
    match explanation {
        None => Ok(payload),
        Some(explanation) => match rich_text::entities_outcome(explanation) {
            Err(e) => Err(e),
            Ok(entities) => Ok(
                payload.insert("explanation"@, JsonView::Text(explanation.text@)).insert(
                    "explanation_entities"@,
                    JsonView::Array(entities),
                ),
            ),
        },
    }
}

/// The parameters of a poll.
pub open spec fn poll_members(poll: Poll) -> Result<Map<Seq<char>, JsonView>, ErrorView> {
    match poll_rule(poll) {
        Err(e) => Err(e),
        Ok(_) => match rich_text::entities_outcome(poll.question) {
            Err(e) => Err(e),
            Ok(question) => match list::collect(poll.options@, poll_options()) {
                Err(e) => Err(e),
                Ok(options) => if poll.open_for is Some && poll.closes_at is Some {
                    error::refused("Telegram polls cannot use open_for and closes_at together"@)
                } else {
                    match correct_options_outcome(poll) {
                        Err(e) => Err(e),
                        Ok(correct) => if !indices_valid(correct, poll.options@.len() as int) {
                            error::refused("Telegram poll correct-option indices are out of range"@)
                        } else {
                            let head = poll_head(json::no_fields(), poll, question, options).insert(
                                "correct_option_ids"@,
                                if correct.len() == 0 {
                                    JsonView::Null
                                } else {
                                    JsonView::Array(indices_view(correct))
                                },
                            );
                            match with_explanation(head, poll.explanation) {
                                Err(e) => Err(e),
                                Ok(explained) => native::optional_native_merged(
                                    explained.insert(
                                        "close_date"@,
                                        json::optional_int_view(poll.closes_at),
                                    ).insert("is_closed"@, JsonView::Bool(poll.closed)),
                                    poll.platform_data,
                                    "poll"@,
                                ),
                            }
                        },
                    }
                },
            },
        },
    }
}

/// The call that sends a poll: its parameters beside those that every message
/// has, none of them said twice.
pub open spec fn send_poll_outcome(payload: Map<Seq<char>, JsonView>, poll: Poll) -> Result<
    RequestView,
    ErrorView,
> {
    match poll_members(poll) {
        Err(e) => Err(e),
        Ok(own) => request::requested(
            "sendPoll"@,
            native::merged(payload, own, "message content"@),
        ),
    }
}

fn check_indices(list: &Vec<usize>, count: usize) -> (result: bool)
    ensures
        result == indices_valid(list@, count as int),
{
    let mut i: usize = 0;
    while i < list.len()
        invariant
            i <= list@.len(),
            forall|j: int| 0 <= j < i ==> #[trigger] list@[j] < count,
        decreases list@.len() - i,
    {
        if list[i] >= count {
            assert(!(list@[i as int] < count));
            return false;
        }
        i += 1;
    }
    true
}

/// Makes the call that sends a poll.
pub fn send_telegram_poll(poll: &Poll, payload: Fields) -> (result: Result<Request, Error>)
    ensures
        error::shown(result) == send_poll_outcome(json::fields(payload), *poll),
{
    check_poll(poll)?;
    let question = telegram_rich_text_entities(&poll.question)?;
    let options = collect_json(&poll.options, write_option, Ghost(poll_options()))?;
    let kind: &str = match &poll.kind {
        PollType::Regular => "regular",
        PollType::Quiz => "quiz",
        PollType::PlatformNative(name) => name.as_str(),
    };
    let anonymous = match poll.anonymous {
        Some(anonymous) => anonymous,
        None => true,
    };
    let mut own = Fields::none();
    own.put("question", Json::text(poll.question.text.as_str()));
    own.put("question_entities", Json::array(question));
    own.put("options", Json::array(options));
    own.put("is_anonymous", Json::bool(anonymous));
    own.put("type", Json::text(kind));
    own.put("allows_multiple_answers", Json::bool(poll.allows_multiple_answers));
    own.put("allows_revoting", Json::optional_bool(poll.allows_revoting));
    own.put("members_only", Json::optional_bool(poll.members_only));
    own.put("country_codes", Json::array(write_texts(&poll.country_codes)));
    own.put("open_period", write_duration(&poll.open_for));
    if poll.open_for.is_some() && poll.closes_at.is_some() {
        return Err(message("Telegram polls cannot use open_for and closes_at together"));
    }
    let correct = correct_options(poll)?;
    if !check_indices(&correct, poll.options.len()) {
        return Err(message("Telegram poll correct-option indices are out of range"));
    }
    own.put(
        "correct_option_ids",
        if correct.len() == 0 {
            Json::null()
        } else {
            Json::array(write_indices(&correct))
        },
    );
    if let Some(explanation) = &poll.explanation {
        let entities = telegram_rich_text_entities(explanation)?;
        own.put("explanation", Json::text(explanation.text.as_str()));
        own.put("explanation_entities", Json::array(entities));
    }
    own.put("close_date", Json::optional_integer(poll.closes_at));
    own.put("is_closed", Json::bool(poll.closed));
    let own = merge_optional_native(own, &poll.platform_data, "poll")?;
    let all = merge_fields(payload, &own, "message content")?;
    Ok(make_call("sendPoll", all))
}

// ---------------------------------------------------------------------------
// Reading
// ---------------------------------------------------------------------------

/// A text without styles.
pub open spec fn is_plain(text: RichText, chars: Seq<char>) -> bool {
    text.text@ == chars && text.spans@.len() == 0
}

/// A text without styles.
pub fn plain(text: &str) -> (result: RichText)
    ensures
        is_plain(result, text@),
{
    RichText { text: text.to_owned(), spans: Vec::new() }
}

/// Native data that holds the document Telegram sent.
pub open spec fn is_native(native: Option<PlatformNativeData>, value: JsonView) -> bool {
    native matches Some(native) && native.platform@ == SERVER@ && native.data@ == value
}

/// Native data that holds the document Telegram sent.
pub fn native_copy(value: &Json) -> (native: Option<PlatformNativeData>)
    ensures
        is_native(native, value@),
{
    Some(PlatformNativeData { platform: SERVER.to_owned(), data: value.clone() })
}

/// Why a poll option that Telegram sent cannot be read.
pub open spec fn option_flaw(option: JsonView) -> Option<ErrorView> {
    match option {
        JsonView::Object(map) => if json::text_in(map, "text"@) is None {
            Some(ErrorView::Message("Telegram poll option has no text"@))
        } else {
            None
        },
        _ => Some(ErrorView::Message("Telegram returned an invalid poll option"@)),
    }
}

/// The option says what the document says.
pub open spec fn reads_option(option: PollOption, value: JsonView) -> bool {
    &&& option.id is None
    &&& is_plain(option.text, json::text_in(value->Object_0, "text"@)->0)
    &&& option.voter_count == json::u64_in(value->Object_0, "voter_count"@)
    &&& is_native(option.platform_data, value)
}

fn read_option(value: &Json) -> (result: Result<PollOption, Error>)
    ensures
        match result {
            Ok(option) => option_flaw(value@) is None && reads_option(option, value@),
            Err(e) => option_flaw(value@) == Some(e@),
        },
{
    broadcast use json::lemma_json_view;

    match value {
        Json::Object(map) => match map.text_at("text") {
            Some(text) => Ok(
                PollOption {
                    id: None,
                    text: plain(text),
                    voter_count: map.u64_at("voter_count"),
                    platform_data: native_copy(value),
                },
            ),
            None => Err(message("Telegram poll option has no text")),
        },
        _ => Err(message("Telegram returned an invalid poll option")),
    }
}

/// The first flaw among the options that Telegram sent.
pub open spec fn options_flaw(options: Seq<JsonView>, n: int) -> Option<ErrorView>
    decreases n,
{
    if n <= 0 {
        None
    } else {
        match options_flaw(options, n - 1) {
            Some(e) => Some(e),
            None => option_flaw(options[n - 1]),
        }
    }
}

proof fn lemma_options_flaw(options: Seq<JsonView>, n: int, total: int)
    requires
        0 <= n <= total,
        options_flaw(options, n) is Some,
    ensures
        options_flaw(options, total) == options_flaw(options, n),
    decreases total - n,
{
    if n < total {
        lemma_options_flaw(options, n + 1, total);
    }
}

fn read_options(items: &Vec<Json>) -> (result: Result<Vec<PollOption>, Error>)
    ensures
        match result {
            Ok(options) => options_flaw(json::views(items@), items@.len() as int) is None
                && options@.len() == items@.len() && forall|i: int|
                0 <= i < items@.len() ==> reads_option(#[trigger] options@[i], items@[i]@),
            Err(e) => options_flaw(json::views(items@), items@.len() as int) == Some(e@),
        },
{
    let mut options: Vec<PollOption> = Vec::new();
    let ghost all = json::views(items@);
    let mut i: usize = 0;
    while i < items.len()
        invariant
            i <= items@.len(),
            all == json::views(items@),
            options@.len() == i,
            options_flaw(all, i as int) is None,
            forall|j: int| 0 <= j < i ==> reads_option(#[trigger] options@[j], items@[j]@),
        decreases items@.len() - i,
    {
        match read_option(&items[i]) {
            Ok(option) => {
                options.push(option);
            },
            Err(e) => {
                proof {
                    lemma_options_flaw(all, i + 1, items@.len() as int);
                }
                return Err(e);
            },
        }
        i += 1;
    }
    Ok(options)
}

/// Why a poll that Telegram sent cannot be read.
pub open spec fn poll_flaw(value: JsonView) -> Option<ErrorView> {
    match value {
        JsonView::Object(map) => match json::array_in(map, "options"@) {
            None => Some(ErrorView::Message("Telegram poll has no options"@)),
            Some(options) => match options_flaw(options, options.len() as int) {
                Some(e) => Some(e),
                None => if json::text_in(map, "question"@) is None {
                    Some(ErrorView::Message("Telegram poll has no question"@))
                } else {
                    None
                },
            },
        },
        _ => Some(ErrorView::Message("Telegram returned an invalid poll object"@)),
    }
}

/// The texts among documents, in order.
pub open spec fn texts_among(items: Seq<JsonView>) -> Seq<Seq<char>>
    decreases items.len(),
{
    if items.len() == 0 {
        Seq::empty()
    } else {
        match json::text_of(items.last()) {
            Some(text) => texts_among(items.drop_last()).push(text),
            None => texts_among(items.drop_last()),
        }
    }
}

/// The indices among documents, in order.
pub open spec fn indices_among(items: Seq<JsonView>) -> Seq<int>
    decreases items.len(),
{
    if items.len() == 0 {
        Seq::empty()
    } else {
        match index_of(items.last()) {
            Some(index) => indices_among(items.drop_last()).push(index),
            None => indices_among(items.drop_last()),
        }
    }
}

/// The index that a document holds, if it holds one.
pub open spec fn index_of(item: JsonView) -> Option<int> {
    match item {
        JsonView::Integer(n) => if 0 <= n <= usize::MAX {
            Some(n)
        } else {
            None
        },
        _ => None,
    }
}

/// Texts by their characters.
pub open spec fn chars_list(list: Seq<String>) -> Seq<Seq<char>> {
    Seq::new(list.len(), |i: int| list[i]@)
}

fn read_texts(items: &Vec<Json>) -> (list: Vec<String>)
    ensures
        chars_list(list@) == texts_among(json::views(items@)),
{
    let mut list: Vec<String> = Vec::new();
    let ghost all = json::views(items@);
    let mut i: usize = 0;
    assert(chars_list(list@) =~= Seq::<Seq<char>>::empty());
    assert(all.take(0) =~= Seq::<JsonView>::empty());
    while i < items.len()
        invariant
            i <= items@.len(),
            all == json::views(items@),
            chars_list(list@) == texts_among(all.take(i as int)),
        decreases items@.len() - i,
    {
        assert(all.take(i + 1).drop_last() =~= all.take(i as int));
        let ghost before = chars_list(list@);
        if let Some(text) = items[i].as_str() {
            list.push(text.to_owned());
            assert(chars_list(list@) =~= before.push(text@));
        }
        i += 1;
    }
    assert(all.take(items@.len() as int) =~= all);
    list
}

fn read_index(item: &Json) -> (index: Option<usize>)
    ensures
        match index {
            Some(n) => index_of(item@) == Some(n as int),
            None => index_of(item@) is None,
        },
{
    broadcast use json::lemma_json_view;

    match item {
        Json::Integer(n) => if 0 <= *n && *n <= usize::MAX as i128 {
            Some(*n as usize)
        } else {
            None
        },
        _ => None,
    }
}

fn read_indices(items: &Vec<Json>) -> (list: Vec<usize>)
    ensures
        rich_text::positions(list@) == indices_among(json::views(items@)),
{
    let mut list: Vec<usize> = Vec::new();
    let ghost all = json::views(items@);
    let mut i: usize = 0;
    assert(rich_text::positions(list@) =~= Seq::<int>::empty());
    assert(all.take(0) =~= Seq::<JsonView>::empty());
    while i < items.len()
        invariant
            i <= items@.len(),
            all == json::views(items@),
            rich_text::positions(list@) == indices_among(all.take(i as int)),
        decreases items@.len() - i,
    {
        assert(all.take(i + 1).drop_last() =~= all.take(i as int));
        let ghost before = rich_text::positions(list@);
        if let Some(n) = read_index(&items[i]) {
            list.push(n);
            assert(rich_text::positions(list@) =~= before.push(n as int));
        }
        i += 1;
    }
    assert(all.take(items@.len() as int) =~= all);
    list
}

/// The kind that a document names; a poll without one is a regular poll.
pub open spec fn reads_kind(kind: PollType, name: Option<Seq<char>>) -> bool {
    match name {
        None => kind is Regular,
        Some(name) => if name == "regular"@ {
            kind is Regular
        } else if name == "quiz"@ {
            kind is Quiz
        } else {
            kind matches PollType::PlatformNative(own) && own@ == name
        },
    }
}

/// The first of the correct options.
pub open spec fn first_index(items: Option<Seq<JsonView>>) -> Option<int> {
    match items {
        Some(items) => if items.len() > 0 {
            index_of(items[0])
        } else {
            None
        },
        None => None,
    }
}

/// A point in time that Telegram sent, where the calendar covers it.
pub open spec fn instant_in(map: Map<Seq<char>, JsonView>, key: Seq<char>) -> Option<i64> {
    match json::i64_in(map, key) {
        Some(seconds) => time::instant_of(seconds),
        None => None,
    }
}

/// The poll says what the document says.
pub open spec fn reads_poll(poll: Poll, value: JsonView) -> bool {
    let map = value->Object_0;
    let options = json::array_in(map, "options"@)->0;
    let correct = json::array_in(map, "correct_option_ids"@);
    &&& json::optional_chars(poll.id) == json::text_in(map, "id"@)
    &&& is_plain(poll.question, json::text_in(map, "question"@)->0)
    &&& poll.options@.len() == options.len()
    &&& forall|i: int|
        0 <= i < options.len() ==> reads_option(#[trigger] poll.options@[i], options[i])
    &&& poll.allows_multiple_answers == (json::bool_in(map, "allows_multiple_answers"@) == Some(
        true,
    ))
    &&& poll.allows_revoting == json::bool_in(map, "allows_revoting"@)
    &&& poll.members_only == json::bool_in(map, "members_only"@)
    &&& chars_list(poll.country_codes@) == match json::array_in(map, "country_codes"@) {
        Some(items) => texts_among(items),
        None => Seq::empty(),
    }
    &&& poll.anonymous == json::bool_in(map, "is_anonymous"@)
    &&& reads_kind(poll.kind, json::text_in(map, "type"@))
    &&& poll.open_for == match json::u64_in(map, "open_period"@) {
        Some(seconds) => Some(Duration { seconds, nanoseconds: 0 }),
        None => None,
    }
    &&& poll.closes_at == instant_in(map, "close_date"@)
    &&& match poll.correct_option {
        Some(option) => first_index(correct) == Some(option as int),
        None => first_index(correct) is None,
    }
    &&& rich_text::positions(poll.correct_options@) == match correct {
        Some(items) => indices_among(items),
        None => Seq::empty(),
    }
    &&& poll.total_voter_count == json::u64_in(map, "total_voter_count"@)
    &&& match poll.explanation {
        Some(text) => json::text_in(map, "explanation"@) matches Some(chars) && is_plain(
            text,
            chars,
        ),
        None => json::text_in(map, "explanation"@) is None,
    }
    &&& poll.closed == (json::bool_in(map, "is_closed"@) == Some(true))
    &&& is_native(poll.platform_data, value)
}

/// Reads a poll that Telegram sent.
pub fn telegram_poll(value: &Json) -> (result: Result<Poll, Error>)
    ensures
        match result {
            Ok(poll) => poll_flaw(value@) is None && reads_poll(poll, value@),
            Err(e) => poll_flaw(value@) == Some(e@),
        },
{
    broadcast use json::lemma_json_view;

    let object = match value {
        Json::Object(map) => map,
        _ => {
            return Err(message("Telegram returned an invalid poll object"));
        },
    };
    let options = match object.array_at("options") {
        Some(items) => read_options(items)?,
        None => {
            return Err(message("Telegram poll has no options"));
        },
    };
    let (correct_option, correct_options) = match object.array_at("correct_option_ids") {
        Some(items) => {
            let first = if items.len() > 0 {
                read_index(&items[0])
            } else {
                None
            };
            (first, read_indices(items))
        },
        None => (None, Vec::new()),
    };
    let kind = match object.text_at("type") {
        None => PollType::Regular,
        Some(name) => {
            if same(name, "regular") {
                PollType::Regular
            } else if same(name, "quiz") {
                PollType::Quiz
            } else {
                PollType::PlatformNative(name.to_owned())
            }
        },
    };
    let question = match object.text_at("question") {
        Some(text) => plain(text),
        None => {
            return Err(message("Telegram poll has no question"));
        },
    };
    let country_codes = match object.array_at("country_codes") {
        Some(items) => read_texts(items),
        None => Vec::new(),
    };
    let open_for = match object.u64_at("open_period") {
        Some(seconds) => Some(Duration { seconds, nanoseconds: 0 }),
        None => None,
    };
    let closes_at = match object.i64_at("close_date") {
        Some(seconds) => instant(seconds),
        None => None,
    };
    let explanation = match object.text_at("explanation") {
        Some(text) => Some(plain(text)),
        None => None,
    };
    let allows_multiple_answers = match object.bool_at("allows_multiple_answers") {
        Some(allowed) => allowed,
        None => false,
    };
    let closed = match object.bool_at("is_closed") {
        Some(closed) => closed,
        None => false,
    };
    let poll = Poll {
        id: object.string_at("id"),
        question,
        options,
        allows_multiple_answers,
        allows_revoting: object.bool_at("allows_revoting"),
        members_only: object.bool_at("members_only"),
        country_codes,
        anonymous: object.bool_at("is_anonymous"),
        kind,
        open_for,
        closes_at,
        total_voter_count: object.u64_at("total_voter_count"),
        correct_option,
        correct_options,
        explanation,
        closed,
        platform_data: native_copy(value),
    };
    proof {
        if json::array_in(json::fields(*object), "country_codes"@) is None {
            assert(chars_list(poll.country_codes@) =~= Seq::<Seq<char>>::empty());
        }
        if json::array_in(json::fields(*object), "correct_option_ids"@) is None {
            assert(rich_text::positions(poll.correct_options@) =~= Seq::<int>::empty());
        }
    }
    Ok(poll)
}

/// A poll that is sent keeps to what Telegram allows: 2 to 12 options, the
/// lengths of its texts, 5 to 600 seconds or a date but not both, and correct
/// options that it has.
pub proof fn law_accepted_polls_are_valid(payload: Map<Seq<char>, JsonView>, poll: Poll)
    requires
        send_poll_outcome(payload, poll) is Ok,
    ensures
        2 <= poll.options@.len() <= 12,
        1 <= poll.question.text@.len() <= 300,
        options_valid(poll.options@),
        countries_valid(poll.country_codes@),
        poll.explanation matches Some(explanation) ==> explanation.text@.len() <= 200,
        poll.open_for matches Some(duration) ==> 5 <= duration.seconds <= 600,
        poll.open_for is None || poll.closes_at is None,
        poll.correct_option matches Some(option) ==> option < poll.options@.len(),
        forall|i: int|
            0 <= i < poll.correct_options@.len() ==> (#[trigger] poll.correct_options@[i])
                < poll.options@.len(),
{
    let correct = correct_options_outcome(poll)->Ok_0;
    assert(indices_valid(correct, poll.options@.len() as int));
    if let Some(option) = poll.correct_option {
        if poll.correct_options@.len() == 0 {
            assert(correct[0] == option);
        } else {
            let i = choose|i: int| 0 <= i < correct.len() && correct[i] == option;
            assert(correct[i] < poll.options@.len());
        }
    }
}

proof fn lemma_poll_keys()
    ensures
        "question"@.len() == 8,
        "question_entities"@.len() == 17,
        "options"@.len() == 7,
        "is_anonymous"@.len() == 12,
        "type"@.len() == 4,
        "allows_multiple_answers"@.len() == 23,
        "allows_revoting"@.len() == 15,
        "members_only"@.len() == 12,
        "country_codes"@.len() == 13,
        "open_period"@.len() == 11,
        "correct_option_ids"@.len() == 18,
        "explanation"@.len() == 11,
        "explanation_entities"@.len() == 20,
        "close_date"@.len() == 10,
        "is_closed"@.len() == 9,
        "is_anonymous"@ != "members_only"@,
        "open_period"@ != "explanation"@,
{
    reveal_strlit("question");
    reveal_strlit("question_entities");
    reveal_strlit("options");
    reveal_strlit("is_anonymous");
    reveal_strlit("type");
    reveal_strlit("allows_multiple_answers");
    reveal_strlit("allows_revoting");
    reveal_strlit("members_only");
    reveal_strlit("country_codes");
    reveal_strlit("open_period");
    reveal_strlit("correct_option_ids");
    reveal_strlit("explanation");
    reveal_strlit("explanation_entities");
    reveal_strlit("close_date");
    reveal_strlit("is_closed");
    assert("is_anonymous"@[0] != "members_only"@[0]);
    assert("open_period"@[0] != "explanation"@[0]);
}

spec fn written_poll(poll: Poll) -> Map<Seq<char>, JsonView> {
    let question = rich_text::entities_outcome(poll.question)->Ok_0;
    let options = list::collect(poll.options@, poll_options())->Ok_0;
    let correct = correct_options_outcome(poll)->Ok_0;
    let head = poll_head(json::no_fields(), poll, question, options).insert(
        "correct_option_ids"@,
        if correct.len() == 0 {
            JsonView::Null
        } else {
            JsonView::Array(indices_view(correct))
        },
    );
    with_explanation(head, poll.explanation)->Ok_0.insert(
        "close_date"@,
        json::optional_int_view(poll.closes_at),
    ).insert("is_closed"@, JsonView::Bool(poll.closed))
}

proof fn lemma_poll_member(poll: Poll, key: Seq<char>)
    requires
        poll_members(poll) is Ok,
    ensures
        json::member(written_poll(poll), key) matches Some(value) ==> json::member(
            poll_members(poll)->Ok_0,
            key,
        ) == Some(value),
{
    native::lemma_optional_keeps(written_poll(poll), poll.platform_data, "poll"@, key);
}

proof fn lemma_poll_called(payload: Map<Seq<char>, JsonView>, poll: Poll, key: Seq<char>)
    requires
        send_poll_outcome(payload, poll) is Ok,
    ensures
        json::member(written_poll(poll), key) matches Some(value) ==> json::member(
            send_poll_outcome(payload, poll)->Ok_0.payload,
            key,
        ) == if value is Null {
            None
        } else {
            Some(json::stripped(value))
        },
{
    let own = poll_members(poll)->Ok_0;
    let all = native::merged(payload, own, "message content"@)->Ok_0;
    lemma_poll_member(poll, key);
    native::lemma_merged_keeps(payload, own, "message content"@ + " duplicates field "@, key);
    request::lemma_call_member("sendPoll"@, all, key);
}

/// A poll is sent as it is: a quiz as a quiz, with each of its settings under
/// the name that Telegram has for it. It is anonymous where nothing is said.
pub proof fn law_polls_are_sent_as_they_are(payload: Map<Seq<char>, JsonView>, poll: Poll)
    requires
        send_poll_outcome(payload, poll) is Ok,
    ensures
        ({
            let call = send_poll_outcome(payload, poll)->Ok_0;
            &&& call.method == "sendPoll"@
            &&& json::text_in(call.payload, "question"@) == Some(poll.question.text@)
            &&& poll.kind is Regular ==> json::text_in(call.payload, "type"@) == Some("regular"@)
            &&& poll.kind is Quiz ==> json::text_in(call.payload, "type"@) == Some("quiz"@)
            &&& json::bool_in(call.payload, "is_anonymous"@) == Some(
                !(poll.anonymous == Some(false)),
            )
            &&& json::bool_in(call.payload, "allows_multiple_answers"@) == Some(
                poll.allows_multiple_answers,
            )
            &&& json::bool_in(call.payload, "allows_revoting"@) == poll.allows_revoting
            &&& json::bool_in(call.payload, "members_only"@) == poll.members_only
            &&& json::bool_in(call.payload, "is_closed"@) == Some(poll.closed)
            &&& json::i64_in(call.payload, "close_date"@) == poll.closes_at
            &&& poll.open_for matches Some(span) ==> json::u64_in(call.payload, "open_period"@)
                == Some(span.seconds)
            &&& poll.open_for is None ==> json::member(call.payload, "open_period"@) is None
            &&& poll.explanation matches Some(explanation) ==> json::text_in(
                call.payload,
                "explanation"@,
            ) == Some(explanation.text@)
        }),
{
    lemma_poll_keys();
    lemma_poll_called(payload, poll, "question"@);
    lemma_poll_called(payload, poll, "question_entities"@);
    lemma_poll_called(payload, poll, "options"@);
    lemma_poll_called(payload, poll, "is_anonymous"@);
    lemma_poll_called(payload, poll, "type"@);
    lemma_poll_called(payload, poll, "allows_multiple_answers"@);
    lemma_poll_called(payload, poll, "allows_revoting"@);
    lemma_poll_called(payload, poll, "members_only"@);
    lemma_poll_called(payload, poll, "country_codes"@);
    lemma_poll_called(payload, poll, "open_period"@);
    lemma_poll_called(payload, poll, "correct_option_ids"@);
    lemma_poll_called(payload, poll, "explanation"@);
    lemma_poll_called(payload, poll, "explanation_entities"@);
    lemma_poll_called(payload, poll, "close_date"@);
    lemma_poll_called(payload, poll, "is_closed"@);
}

/// The options of a poll are sent in their order, each with its own text, and
/// those that are right are the ones that were marked.
pub proof fn law_poll_options_are_sent_in_order(
    payload: Map<Seq<char>, JsonView>,
    poll: Poll,
    i: int,
)
    requires
        send_poll_outcome(payload, poll) is Ok,
        0 <= i < poll.options@.len(),
    ensures
        ({
            let call = send_poll_outcome(payload, poll)->Ok_0;
            let right = json::array_in(call.payload, "correct_option_ids"@);
            &&& json::array_in(call.payload, "options"@) matches Some(options)
            &&& options.len() == poll.options@.len()
            &&& options[i] matches JsonView::Object(option)
            &&& json::text_in(option, "text"@) == Some(poll.options@[i].text.text@)
            &&& right is None <==> poll.correct_option is None && poll.correct_options@.len() == 0
            &&& poll.correct_options@.len() == 0 ==> (poll.correct_option matches Some(index) ==> (
            right matches Some(ids) && ids.len() == 1 && ids[0] == JsonView::Integer(index as int)))
            &&& poll.correct_options@.len() > 0 ==> (right matches Some(ids) && ids.len()
                == poll.correct_options@.len() && (i < ids.len() ==> ids[i] == JsonView::Integer(
                poll.correct_options@[i] as int,
            )))
        }),
{
    lemma_poll_keys();
    lemma_poll_called(payload, poll, "options"@);
    lemma_poll_called(payload, poll, "correct_option_ids"@);
    list::lemma_collect_ok(poll.options@, poll_options());
    let options = list::collect(poll.options@, poll_options())->Ok_0;
    let option = poll.options@[i];
    assert(poll_options()(i, option) == Ok::<JsonView, ErrorView>(options[i]));
    json::lemma_stripped_item(options, i);
    reveal_strlit("text");
    reveal_strlit("text_entities");
    assert("text"@.len() == 4 && "text_entities"@.len() == 13);
    let entities = rich_text::entities_outcome(option.text)->Ok_0;
    let own = json::no_fields().insert("text"@, JsonView::Text(option.text.text@)).insert(
        "text_entities"@,
        JsonView::Array(entities),
    );
    if let Some(native) = option.platform_data {
        native::lemma_merged_keeps(
            own,
            native::native_object_outcome(native, "poll option"@)->Ok_0,
            "Telegram poll option"@ + " duplicates field "@,
            "text"@,
        );
    }
    json::lemma_stripped_member(options[i]->Object_0, "text"@);
    let correct = correct_options_outcome(poll)->Ok_0;
    if correct.len() > 0 {
        json::lemma_stripped_item(indices_view(correct), 0);
        if i < correct.len() {
            json::lemma_stripped_item(indices_view(correct), i);
        }
    }
}

proof fn lemma_texts_among(list: Seq<String>)
    ensures
        texts_among(texts_view(list)) == chars_list(list),
    decreases list.len(),
{
    if list.len() > 0 {
        lemma_texts_among(list.drop_last());
        assert(texts_view(list).drop_last() =~= texts_view(list.drop_last()));
        assert(chars_list(list) =~= chars_list(list.drop_last()).push(list.last()@));
    } else {
        assert(texts_view(list) =~= Seq::empty());
        assert(chars_list(list) =~= Seq::empty());
    }
}

proof fn lemma_indices_among(list: Seq<usize>)
    ensures
        indices_among(indices_view(list)) == rich_text::positions(list),
    decreases list.len(),
{
    if list.len() > 0 {
        lemma_indices_among(list.drop_last());
        assert(indices_view(list).drop_last() =~= indices_view(list.drop_last()));
        assert(rich_text::positions(list) =~= rich_text::positions(list.drop_last()).push(
            list.last() as int,
        ));
    } else {
        assert(indices_view(list) =~= Seq::empty());
        assert(rich_text::positions(list) =~= Seq::empty());
    }
}

/// What is written of a poll is read back as it was: its question, its kind
/// and its settings, its options in their order, and which of them are right.
pub proof fn law_written_polls_are_read_back(poll: Poll, read: Poll, i: int)
    requires
        poll_members(poll) is Ok,
        reads_poll(read, JsonView::Object(poll_members(poll)->Ok_0)),
        0 <= i < poll.options@.len(),
    ensures
        read.question.text@ == poll.question.text@,
        poll.kind is Regular ==> read.kind is Regular,
        poll.kind is Quiz ==> read.kind is Quiz,
        poll.anonymous is Some ==> read.anonymous == poll.anonymous,
        poll.anonymous is None ==> read.anonymous == Some(true),
        read.allows_multiple_answers == poll.allows_multiple_answers,
        read.allows_revoting == poll.allows_revoting,
        read.members_only == poll.members_only,
        read.closed == poll.closed,
        chars_list(read.country_codes@) == chars_list(poll.country_codes@),
        poll.open_for matches Some(span) ==> (read.open_for matches Some(again) && again.seconds
            == span.seconds),
        poll.open_for is None ==> read.open_for is None,
        poll.closes_at matches Some(moment) ==> (time::instant_of(moment) == Some(moment)
            ==> read.closes_at == Some(moment)),
        poll.explanation matches Some(text) ==> (read.explanation matches Some(again)
            && again.text@ == text.text@),
        read.options@.len() == poll.options@.len(),
        read.options@[i].text.text@ == poll.options@[i].text.text@,
        poll.correct_options@.len() > 0 ==> rich_text::positions(read.correct_options@)
            == rich_text::positions(poll.correct_options@),
        poll.correct_options@.len() == 0 ==> (poll.correct_option matches Some(index) ==> (
        read.correct_option == Some(index) && read.correct_options@.len() == 1
            && read.correct_options@[0] == index)),
{
    lemma_poll_keys();
    reveal_strlit("regular");
    reveal_strlit("quiz");
    assert("regular"@.len() == 7 && "quiz"@.len() == 4);
    lemma_poll_member(poll, "question"@);
    lemma_poll_member(poll, "question_entities"@);
    lemma_poll_member(poll, "options"@);
    lemma_poll_member(poll, "is_anonymous"@);
    lemma_poll_member(poll, "type"@);
    lemma_poll_member(poll, "allows_multiple_answers"@);
    lemma_poll_member(poll, "allows_revoting"@);
    lemma_poll_member(poll, "members_only"@);
    lemma_poll_member(poll, "country_codes"@);
    lemma_poll_member(poll, "open_period"@);
    lemma_poll_member(poll, "correct_option_ids"@);
    lemma_poll_member(poll, "explanation"@);
    lemma_poll_member(poll, "explanation_entities"@);
    lemma_poll_member(poll, "close_date"@);
    lemma_poll_member(poll, "is_closed"@);
    lemma_texts_among(poll.country_codes@);
    let correct = correct_options_outcome(poll)->Ok_0;
    lemma_indices_among(correct);
    list::lemma_collect_ok(poll.options@, poll_options());
    let options = list::collect(poll.options@, poll_options())->Ok_0;
    let option = poll.options@[i];
    assert(poll_options()(i, option) == Ok::<JsonView, ErrorView>(options[i]));
    assert(reads_option(read.options@[i], options[i]));
    reveal_strlit("text");
    reveal_strlit("text_entities");
    assert("text"@.len() == 4 && "text_entities"@.len() == 13);
    let own = json::no_fields().insert("text"@, JsonView::Text(option.text.text@)).insert(
        "text_entities"@,
        JsonView::Array(rich_text::entities_outcome(option.text)->Ok_0),
    );
    if let Some(native) = option.platform_data {
        native::lemma_merged_keeps(
            own,
            native::native_object_outcome(native, "poll option"@)->Ok_0,
            "Telegram poll option"@ + " duplicates field "@,
            "text"@,
        );
    }
    if poll.correct_options@.len() == 0 && poll.correct_option is Some {
        let again = rich_text::positions(read.correct_options@);
        assert(again == rich_text::positions(correct));
        assert(again.len() == 1);
        assert(again[0] == read.correct_options@[0]);
        assert(indices_view(correct)[0] == JsonView::Integer(correct[0] as int));
    }
}

/// A poll that keeps to the limits is accepted: two to twelve options of at
/// most a hundred characters, a question of at most three hundred, an
/// explanation of at most two hundred, open for five seconds to ten minutes,
/// for countries named by two capitals.
pub proof fn law_polls_within_the_limits_are_accepted(
    payload: Map<Seq<char>, JsonView>,
    poll: Poll,
)
    requires
        2 <= poll.options@.len() <= 12,
        1 <= poll.question.text@.len() <= 300,
        poll.question.spans@.len() == 0,
        forall|i: int|
            0 <= i < poll.options@.len() ==> 1 <= (#[trigger] poll.options@[i]).text.text@.len()
                <= 100 && poll.options@[i].text.spans@.len() == 0
                && poll.options@[i].platform_data is None,
        poll.explanation matches Some(text) ==> text.text@.len() <= 200 && text.spans@.len() == 0,
        poll.open_for matches Some(span) ==> 5 <= span.seconds <= 600,
        poll.open_for is None || poll.closes_at is None,
        forall|i: int|
            0 <= i < poll.country_codes@.len() ==> (#[trigger] poll.country_codes@[i])@.len() == 2
                && 'A' <= poll.country_codes@[i]@[0] <= 'Z' && 'A' <= poll.country_codes@[i]@[1]
                <= 'Z',
        poll.correct_option matches Some(index) ==> index < poll.options@.len()
            && poll.correct_options@.len() == 0,
        forall|i: int|
            0 <= i < poll.correct_options@.len() ==> #[trigger] poll.correct_options@[i]
                < poll.options@.len(),
        poll.platform_data is None,
    ensures
        poll_members(poll) is Ok,
        payload == json::no_fields() ==> send_poll_outcome(payload, poll) is Ok,
{
    assert(options_valid(poll.options@));
    assert forall|i: int| 0 <= i < poll.country_codes@.len() implies is_country_code(
        (#[trigger] poll.country_codes@[i])@,
    ) by {}
    lemma_options_accepted(poll.options@);
    let correct = correct_options_outcome(poll)->Ok_0;
    assert(indices_valid(correct, poll.options@.len() as int));
    if payload == json::no_fields() {
        let own = poll_members(poll)->Ok_0;
        assert forall|key: Seq<char>| !#[trigger] native::shares(payload, own, key) by {}
    }
}

proof fn lemma_options_accepted(options: Seq<PollOption>)
    requires
        forall|i: int|
            0 <= i < options.len() ==> (#[trigger] options[i]).text.spans@.len() == 0
                && options[i].platform_data is None,
    ensures
        list::collect(options, poll_options()) is Ok,
    decreases options.len(),
{
    if options.len() > 0 {
        lemma_options_accepted(options.drop_last());
        assert(options[options.len() - 1].text.spans@.len() == 0);
        assert(option_outcome(options.last()) is Ok);
    }
}

/// The texts of a poll keep their styles, and its countries are named.
pub proof fn law_poll_texts_keep_their_styles(
    payload: Map<Seq<char>, JsonView>,
    poll: Poll,
    i: int,
)
    requires
        send_poll_outcome(payload, poll) is Ok,
    ensures
        ({
            let call = send_poll_outcome(payload, poll)->Ok_0;
            &&& rich_text::entities_outcome(poll.question) matches Ok(entities)
            &&& json::member(call.payload, "question_entities"@) == Some(
                json::stripped(JsonView::Array(entities)),
            )
            &&& poll.explanation matches Some(text) ==> (rich_text::entities_outcome(text) matches Ok(own)
                && json::member(call.payload, "explanation_entities"@) == Some(
                json::stripped(JsonView::Array(own)),
            ))
            &&& 0 <= i < poll.country_codes@.len() ==> (json::array_in(call.payload, "country_codes"@) matches Some(
                codes,
            ) && codes.len() == poll.country_codes@.len() && codes[i] == JsonView::Text(
                poll.country_codes@[i]@,
            ))
        }),
{
    lemma_poll_keys();
    lemma_poll_called(payload, poll, "question_entities"@);
    lemma_poll_called(payload, poll, "explanation_entities"@);
    lemma_poll_called(payload, poll, "country_codes"@);
    if 0 <= i < poll.country_codes@.len() {
        json::lemma_stripped_item(texts_view(poll.country_codes@), i);
    }
}

/// An option is written with its text and the styles of it, and read with its
/// votes.
pub proof fn law_options_keep_their_styles(option: PollOption, read: PollOption, value: Map<Seq<char>, JsonView>)
    requires
        option_outcome(option) is Ok,
        option_flaw(JsonView::Object(value)) is None,
        reads_option(read, JsonView::Object(value)),
    ensures
        option_outcome(option) matches Ok(JsonView::Object(written)) && json::text_in(written, "text"@)
            == Some(option.text.text@) && (rich_text::entities_outcome(option.text) matches Ok(entities)
            && json::array_in(written, "text_entities"@) == Some(entities)),
        json::text_in(value, "text"@) == Some(read.text.text@),
        read.voter_count == json::u64_in(value, "voter_count"@),
{
    reveal_strlit("text");
    reveal_strlit("text_entities");
    assert("text"@.len() == 4 && "text_entities"@.len() == 13);
    let own = json::no_fields().insert("text"@, JsonView::Text(option.text.text@)).insert(
        "text_entities"@,
        JsonView::Array(rich_text::entities_outcome(option.text)->Ok_0),
    );
    if let Some(native) = option.platform_data {
        let extra = native::native_object_outcome(native, "poll option"@)->Ok_0;
        let complaint = "Telegram poll option"@ + " duplicates field "@;
        native::lemma_merged_keeps(own, extra, complaint, "text"@);
        native::lemma_merged_keeps(own, extra, complaint, "text_entities"@);
    }
}

} // verus!
