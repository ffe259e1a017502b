//! The client of the Bot API: its addresses, what it asks and how it reads the
//! answers.
use crate::api::request;
use crate::api::request::{make_call, Request, RequestView};
use crate::error::{message, Error, ErrorView};
use crate::json;
use crate::json::{Fields, Json, JsonView};
use crate::native;
use crate::native::quote;
use crate::text;
use crate::text::{chars_of, i64_text, is_blank, joined, joined3, text_between, u64_text};
use vstd::prelude::*;

verus! {

// ---------------------------------------------------------------------------
// Addresses
// ---------------------------------------------------------------------------

/// A character that a token can hold.
pub open spec fn is_token_char(c: char) -> bool {
    text::is_alphanumeric(c) || c == '_' || c == ':' || c == '-'
}

/// A text made of characters that a token can hold, and not blank.
pub open spec fn is_token(token: Seq<char>) -> bool {
    !text::blank(token) && forall|i: int|
        0 <= i < token.len() ==> is_token_char(#[trigger] token[i])
}

/// Why a text is no token.
pub open spec fn token_flaw(token: Seq<char>) -> Option<ErrorView> {
    if text::blank(token) {
        Some(ErrorView::Message("Telegram bot token cannot be empty"@))
    } else if !is_token(token) {
        Some(ErrorView::Message("Telegram bot token contains invalid characters"@))
    } else {
        None
    }
}

fn is_plain_char(c: char) -> (result: bool)
    ensures
        result == text::is_alphanumeric(c),
{
    ('a' <= c && c <= 'z') || ('A' <= c && c <= 'Z') || ('0' <= c && c <= '9')
}

fn has_token_chars(token: &str) -> (result: bool)
    ensures
        result == forall|i: int| 0 <= i < token@.len() ==> is_token_char(#[trigger] token@[i]),
{
    let chars = chars_of(token);
    let mut i: usize = 0;
    while i < chars.len()
        invariant
            i <= chars@.len(),
            chars@ == token@,
            forall|j: int| 0 <= j < i ==> is_token_char(#[trigger] token@[j]),
        decreases chars@.len() - i,
    {
        let c: char = chars[i];
        if !(is_plain_char(c) || c == '_' || c == ':' || c == '-') {
            assert(!is_token_char(token@[i as int]));
            return false;
        }
        i += 1;
    }
    true
}

/// A text without the slashes at its end.
pub open spec fn without_slashes(text: Seq<char>) -> Seq<char>
    decreases text.len(),
{
    if text.len() > 0 && text.last() == '/' {
        without_slashes(text.drop_last())
    } else {
        text
    }
}

/// A text without the slashes at its end.
pub fn trim_slashes(text: &str) -> (result: String)
    ensures
        result@ == without_slashes(text@),
{
    let chars = chars_of(text);
    let mut n: usize = chars.len();
    assert(text@.take(n as int) =~= text@);
    while n > 0 && chars[n - 1] == '/'
        invariant
            n <= chars@.len(),
            chars@ == text@,
            without_slashes(text@) == without_slashes(text@.take(n as int)),
        decreases n,
    {
        assert(text@.take(n as int).drop_last() =~= text@.take(n - 1));
        n -= 1;
    }
    proof {
        if n > 0 {
            assert(text@.take(n as int).last() == text@[n - 1]);
        }
        assert(text@.subrange(0, n as int) =~= text@.take(n as int));
    }
    text_between(&chars, 0, n)
}

/// A client of a Bot API server for one bot.
pub struct TelegramClient {
    token: String,
    api_base: String,
}

/// What a client knows.
pub struct ClientView {
    pub token: Seq<char>,
    pub api_base: Seq<char>,
}

impl View for TelegramClient {
    type V = ClientView;

    closed spec fn view(&self) -> ClientView {
        ClientView { token: self.token@, api_base: self.api_base@ }
    }
}

/// The address of a method.
pub open spec fn method_address(client: ClientView, method: Seq<char>) -> Seq<char> {
    client.api_base + "/bot"@ + client.token + "/"@ + method
}

/// The address of a file.
pub open spec fn file_address(client: ClientView, path: Seq<char>) -> Seq<char> {
    client.api_base + "/file/bot"@ + client.token + "/"@ + path
}

/// How a client is shown: without its token.
pub open spec fn debug_view(api_base: Seq<char>) -> Seq<char> {
    "TelegramClient { token: \"<redacted>\", api_base: "@ + native::quoted(api_base) + ", .. }"@
}

impl TelegramClient {
    #[verifier::type_invariant]
    spec fn well_formed(self) -> bool {
        is_token(self.token@)
    }

    /// A client of Telegram itself.
    pub fn new(token: &str) -> (result: Result<TelegramClient, Error>)
        ensures
            match result {
                Ok(client) => token_flaw(token@) is None && client@ == (ClientView {
                    token: token@,
                    api_base: "https://api.telegram.org"@,
                }),
                Err(e) => token_flaw(token@) == Some(e@),
            },
    {
        let result = Self::with_api_base(token, "https://api.telegram.org");
        proof {
            reveal_strlit("https://api.telegram.org");
            assert("https://api.telegram.org"@.last() == 'g');
        }
        result
    }

    /// A client of Telegram or of a compatible local Bot API server.
    pub fn with_api_base(token: &str, api_base: &str) -> (result: Result<TelegramClient, Error>)
        ensures
            match result {
                Ok(client) => token_flaw(token@) is None && client@ == (ClientView {
                    token: token@,
                    api_base: without_slashes(api_base@),
                }),
                Err(e) => token_flaw(token@) == Some(e@),
            },
    {
        if is_blank(token) {
            return Err(message("Telegram bot token cannot be empty"));
        }
        if !has_token_chars(token) {
            return Err(message("Telegram bot token contains invalid characters"));
        }
        Ok(TelegramClient { token: token.to_owned(), api_base: trim_slashes(api_base) })
    }

    /// The address of a method.
    pub fn method_url(&self, method: &str) -> (url: String)
        ensures
            url@ == method_address(self@, method@),
            is_token(self@.token),
    {
        proof {
            use_type_invariant(self);
        }
        let start = joined3(self.api_base.as_str(), "/bot", self.token.as_str());
        joined3(start.as_str(), "/", method)
    }

    /// The address of a file. It holds the token: it is as secret as that.
    pub fn file_url(&self, path: &str) -> (url: String)
        ensures
            url@ == file_address(self@, path@),
    {
        let start = joined3(self.api_base.as_str(), "/file/bot", self.token.as_str());
        joined3(start.as_str(), "/", path)
    }

    /// How the client is shown: without its token.
    pub fn debug_text(&self) -> (shown: String)
        ensures
            shown@ == debug_view(self@.api_base),
    {
        let base = quote(self.api_base.as_str());
        joined3(
            "TelegramClient { token: \"<redacted>\", api_base: ",
            base.as_str(),
            ", .. }",
        )
    }

    /// The token.
    pub(crate) fn token(&self) -> (token: &str)
        ensures
            token@ == self@.token,
    {
        self.token.as_str()
    }
}

/// How a client is shown does not depend on its token.
pub proof fn law_shown_without_token(first: ClientView, second: ClientView)
    requires
        first.api_base == second.api_base,
    ensures
        debug_view(first.api_base) == debug_view(second.api_base),
{
}

// ---------------------------------------------------------------------------
// Methods
// ---------------------------------------------------------------------------

/// A character that the name of a method can hold.
pub open spec fn is_method_char(c: char) -> bool {
    text::is_alphanumeric(c) || c == '_'
}

/// A name that a method can have.
pub open spec fn is_method(method: Seq<char>) -> bool {
    method.len() > 0 && forall|i: int|
        0 <= i < method.len() ==> is_method_char(#[trigger] method[i])
}

/// Why a text is no name of a method.
pub open spec fn method_flaw(method: Seq<char>) -> Option<ErrorView> {
    if method.len() == 0 {
        Some(ErrorView::Message("Telegram API method cannot be empty"@))
    } else if !is_method(method) {
        Some(ErrorView::Message("invalid Telegram API method "@ + native::quoted(method)))
    } else {
        None
    }
}

/// Accepts a name that a method can have.
pub fn validate_method(method: &str) -> (result: Result<(), Error>)
    ensures
        match result {
            Ok(_) => is_method(method@),
            Err(e) => method_flaw(method@) == Some(e@),
        },
{
    if method.is_empty() {
        return Err(message("Telegram API method cannot be empty"));
    }
    let chars = chars_of(method);
    let mut i: usize = 0;
    while i < chars.len()
        invariant
            i <= chars@.len(),
            chars@ == method@,
            method@.len() > 0,
            forall|j: int| 0 <= j < i ==> is_method_char(#[trigger] method@[j]),
        decreases chars@.len() - i,
    {
        let c: char = chars[i];
        if !(is_plain_char(c) || c == '_') {
            assert(!is_method_char(method@[i as int]));
            let name = quote(method);
            return Err(Error::Message(joined("invalid Telegram API method ", name.as_str())));
        }
        i += 1;
    }
    Ok(())
}

/// A method that is accepted cannot leave the path of the bot: after the base
/// of the address come the bot and the method, which hold no slash, question
/// mark, number sign, percent sign or dot.
pub proof fn law_methods_stay_in_the_path(client: ClientView, method: Seq<char>)
    requires
        is_token(client.token),
        method_flaw(method) is None,
    ensures
        method_address(client, method) == client.api_base + "/bot"@ + client.token + "/"@ + method,
        forall|i: int|
            0 <= i < method.len() ==> {
                let c = #[trigger] method[i];
                c != '/' && c != '?' && c != '#' && c != '%' && c != '.'
            },
        forall|i: int|
            0 <= i < client.token.len() ==> {
                let c = #[trigger] client.token[i];
                c != '/' && c != '?' && c != '#' && c != '%' && c != '.'
            },
{
    assert forall|i: int| 0 <= i < method.len() implies {
        let c = #[trigger] method[i];
        c != '/' && c != '?' && c != '#' && c != '%' && c != '.'
    } by {
        assert(is_method_char(method[i]));
    }
    assert forall|i: int| 0 <= i < client.token.len() implies {
        let c = #[trigger] client.token[i];
        c != '/' && c != '?' && c != '#' && c != '%' && c != '.'
    } by {
        assert(is_token_char(client.token[i]));
    }
}

// ---------------------------------------------------------------------------
// Answers
// ---------------------------------------------------------------------------

/// Additional recovery information returned with a failed request.
#[derive(Debug, Clone, Copy, PartialEq, Eq, Structural, Default)]
pub struct ResponseParameters {
    pub migrate_to_chat_id: Option<i64>,
    pub retry_after: Option<u64>,
}

/// A refusal by the Bot API.
#[derive(Debug, PartialEq, Eq)]
pub struct TelegramApiError {
    pub method: String,
    pub http_status: u16,
    pub error_code: Option<i64>,
    pub description: String,
    pub parameters: Option<ResponseParameters>,
}

/// The part of an error's text that names the chat that a group became.
pub open spec fn migration_text(parameters: Option<ResponseParameters>) -> Seq<char> {
    match parameters {
        Some(parameters) => match parameters.migrate_to_chat_id {
            Some(chat) => "; migrated to chat "@ + text::decimal(chat as int),
            None => Seq::empty(),
        },
        None => Seq::empty(),
    }
}

/// The part of an error's text that says how long to wait.
pub open spec fn waiting_text(parameters: Option<ResponseParameters>) -> Seq<char> {
    match parameters {
        Some(parameters) => match parameters.retry_after {
            Some(seconds) => "; retry after "@ + text::decimal(seconds as int) + "s"@,
            None => Seq::empty(),
        },
        None => Seq::empty(),
    }
}

/// The text of an error.
pub open spec fn api_error_text(error: TelegramApiError) -> Seq<char> {
    "Telegram "@ + error.method@ + " failed (HTTP "@ + text::decimal(error.http_status as int)
        + ", API code "@ + text::decimal(
        match error.error_code {
            Some(code) => code as int,
            None => 0,
        },
    ) + "): "@ + error.description@ + migration_text(error.parameters) + waiting_text(
        error.parameters,
    )
}

impl TelegramApiError {
    /// The text of the error.
    pub fn to_text(&self) -> (shown: String)
        ensures
            shown@ == api_error_text(*self),
    {
        let status = u64_text(self.http_status as u64);
        let code: i64 = match self.error_code {
            Some(code) => code,
            None => 0,
        };
        let code = i64_text(code);
        let shown = joined3("Telegram ", self.method.as_str(), " failed (HTTP ");
        let shown = joined3(shown.as_str(), status.as_str(), ", API code ");
        let shown = joined3(shown.as_str(), code.as_str(), "): ");
        let mut shown = joined(shown.as_str(), self.description.as_str());
        let ghost base = shown@;
        if let Some(parameters) = self.parameters {
            if let Some(chat) = parameters.migrate_to_chat_id {
                let chat = i64_text(chat);
                shown = joined3(shown.as_str(), "; migrated to chat ", chat.as_str());
            }
            proof {
                assert(shown@ =~= base + migration_text(self.parameters));
            }
            if let Some(seconds) = parameters.retry_after {
                let seconds = u64_text(seconds);
                shown = joined3(shown.as_str(), "; retry after ", seconds.as_str());
                shown = joined(shown.as_str(), "s");
            }
        }
        proof {
            assert(shown@ =~= base + migration_text(self.parameters) + waiting_text(
                self.parameters,
            ));
        }
        shown
    }

    /// How long Telegram asks to wait, in seconds.
    pub fn retry_after(&self) -> (seconds: Option<u64>)
        ensures
            seconds == match self.parameters {
                Some(parameters) => parameters.retry_after,
                None => None,
            },
    {
        match self.parameters {
            Some(parameters) => parameters.retry_after,
            None => None,
        }
    }
}

/// The text of an error names every response parameter that came with it.
pub proof fn law_error_text_keeps_parameters(error: TelegramApiError)
    ensures
        exists|before: Seq<char>, after: Seq<char>|
            api_error_text(error) == #[trigger] (before + migration_text(error.parameters) + after),
        exists|before: Seq<char>|
            api_error_text(error) == #[trigger] (before + waiting_text(error.parameters)),
{
    let base = "Telegram "@ + error.method@ + " failed (HTTP "@ + text::decimal(
        error.http_status as int,
    ) + ", API code "@ + text::decimal(
        match error.error_code {
            Some(code) => code as int,
            None => 0,
        },
    ) + "): "@ + error.description@;
    assert(api_error_text(error) == base + migration_text(error.parameters) + waiting_text(
        error.parameters,
    ));
    let longer = base + migration_text(error.parameters);
    assert(api_error_text(error) == longer + waiting_text(error.parameters));
}

/// What the Bot API answers.
#[derive(Debug, PartialEq)]
pub struct ApiResponse<T> {
    pub ok: bool,
    pub result: Option<T>,
    pub error_code: Option<i64>,
    pub description: Option<String>,
    pub parameters: Option<ResponseParameters>,
}

/// Why a call gave no result.
#[derive(Debug, PartialEq)]
pub enum CallError {
    Message(String),
    Api(TelegramApiError),
}

/// The error is the refusal that the answer holds.
pub open spec fn is_refusal<T>(
    error: TelegramApiError,
    method: Seq<char>,
    http_status: u16,
    response: ApiResponse<T>,
) -> bool {
    &&& error.method@ == method
    &&& error.http_status == http_status
    &&& error.error_code == response.error_code
    &&& error.description@ == match response.description {
        Some(description) => description@,
        None => "unknown Telegram API error"@,
    }
    &&& error.parameters == response.parameters
}

/// Takes the result out of an answer.
pub fn decode_response<T>(method: &str, http_status: u16, response: ApiResponse<T>) -> (result:
    Result<T, CallError>)
    ensures
        match result {
            Ok(value) => response.ok && response.result == Some(value),
            Err(CallError::Message(text)) => response.ok && response.result is None && text@
                == "Telegram "@ + method@ + " succeeded without a result"@,
            Err(CallError::Api(error)) => !response.ok && is_refusal(
                error,
                method@,
                http_status,
                response,
            ),
        },
{
    if response.ok {
        match response.result {
            Some(value) => Ok(value),
            None => Err(
                CallError::Message(joined3("Telegram ", method, " succeeded without a result")),
            ),
        }
    } else {
        let description = match response.description {
            Some(description) => description,
            None => "unknown Telegram API error".to_owned(),
        };
        Err(
            CallError::Api(
                TelegramApiError {
                    method: method.to_owned(),
                    http_status,
                    error_code: response.error_code,
                    description,
                    parameters: response.parameters,
                },
            ),
        )
    }
}

/// The first characters of a text, at most five hundred.
pub open spec fn preview(text: Seq<char>) -> Seq<char> {
    if text.len() <= 500 {
        text
    } else {
        text.take(500)
    }
}

/// The complaint about an answer that is not what was asked for.
pub fn invalid_answer_text(method: &str, status: &str, body: &str) -> (shown: String)
    ensures
        shown@ == "Telegram "@ + method@ + " returned invalid JSON (HTTP "@ + status@ + "): "@
            + preview(body@),
{
    let chars = chars_of(body);
    let n: usize = if chars.len() <= 500 {
        chars.len()
    } else {
        500
    };
    assert(body@.subrange(0, n as int) =~= preview(body@));
    let start = text_between(&chars, 0, n);
    let shown = joined3("Telegram ", method, " returned invalid JSON (HTTP ");
    let shown = joined3(shown.as_str(), status, "): ");
    joined(shown.as_str(), start.as_str())
}

// ---------------------------------------------------------------------------
// Updates
// ---------------------------------------------------------------------------

/// What updates to ask for.
#[derive(Debug, PartialEq)]
pub struct GetUpdatesConfig {
    pub limit: u8,
    pub timeout: u16,
    pub offset: Option<i64>,
    pub allowed_updates: Option<Vec<String>>,
}

/// As many updates as one answer can hold.
pub fn default_limit() -> (limit: u8)
    ensures
        limit == 100,
{
    100
}

/// How many seconds an answer may take.
pub fn default_timeout() -> (timeout: u16)
    ensures
        timeout == 60,
{
    60
}

impl Default for GetUpdatesConfig {
    fn default() -> (config: Self)
        ensures
            config.limit == 100,
            config.timeout == 60,
            config.offset is None,
            config.allowed_updates is None,
    {
        GetUpdatesConfig {
            limit: default_limit(),
            timeout: default_timeout(),
            offset: None,
            allowed_updates: None,
        }
    }
}

/// A list of names.
pub open spec fn names_view(names: Seq<String>) -> JsonView {
    JsonView::Array(Seq::new(names.len(), |i: int| JsonView::Text(names[i]@)))
}

fn write_names(names: &Vec<String>) -> (json: Json)
    ensures
        json@ == names_view(names@),
{
    let mut items: Vec<Json> = Vec::new();
    let mut i: usize = 0;
    while i < names.len()
        invariant
            i <= names@.len(),
            items@.len() == i,
            forall|k: int|
                0 <= k < i ==> (#[trigger] items@[k])@ == JsonView::Text(names@[k]@),
        decreases names@.len() - i,
    {
        items.push(Json::text(names[i].as_str()));
        i += 1;
    }
    assert(json::views(items@) =~= names_view(names@)->Array_0);
    Json::array(items)
}

/// The call that asks for updates.
pub open spec fn updates_call(config: GetUpdatesConfig) -> RequestView {
    request::call(
        "getUpdates"@,
        json::no_fields().insert("limit"@, JsonView::Integer(config.limit as int)).insert(
            "timeout"@,
            JsonView::Integer(config.timeout as int),
        ).insert("offset"@, json::optional_int_view(config.offset)).insert(
            "allowed_updates"@,
            match config.allowed_updates {
                Some(names) => names_view(names@),
                None => JsonView::Null,
            },
        ),
    )
}

/// The call that asks for updates.
pub fn get_updates(config: &GetUpdatesConfig) -> (result: Request)
    ensures
        result@ == updates_call(*config),
{
    let mut payload = Fields::none();
    payload.put("limit", Json::integer(config.limit as i64));
    payload.put("timeout", Json::integer(config.timeout as i64));
    payload.put("offset", Json::optional_integer(config.offset));
    let names = match &config.allowed_updates {
        Some(names) => write_names(names),
        None => Json::null(),
    };
    payload.put("allowed_updates", names);
    make_call("getUpdates", payload)
}

/// The call that asks who the bot is.
pub fn get_me() -> (result: Request)
    ensures
        result@ == request::call("getMe"@, json::no_fields()),
{
    make_call("getMe", Fields::none())
}

/// The call that asks for a file.
pub fn get_file(file_id: &str) -> (result: Request)
    ensures
        result@ == request::call(
            "getFile"@,
            json::no_fields().insert("file_id"@, JsonView::Text(file_id@)),
        ),
{
    let mut payload = Fields::none();
    payload.put("file_id", Json::text(file_id));
    make_call("getFile", payload)
}

/// An update: its number, and a member for what happened.
#[derive(Debug, PartialEq)]
pub struct Update {
    pub update_id: i64,
    pub data: Fields,
}

/// The name of the first member, which says what happened.
pub open spec fn update_kind(data: Fields) -> Option<Seq<char>> {
    let keys = json::sorted_keys(data@.dom());
    if keys.len() == 0 {
        None
    } else {
        Some(keys[0])
    }
}

impl Update {
    /// The name of the first member, which says what happened.
    pub fn kind(&self) -> (kind: Option<&str>)
        ensures
            match kind {
                Some(kind) => update_kind(self.data) == Some(kind@) && self.data@.contains_key(
                    kind@,
                ),
                None => update_kind(self.data) is None,
            },
    {
        let n: usize = self.data.len();
        proof {
            json::lemma_sorted_keys(self.data.keys(), self.data@.dom());
        }
        if n == 0 {
            None
        } else {
            Some(self.data.entry(0).0)
        }
    }

    /// What the first member holds.
    pub fn value(&self) -> (value: Option<&Json>)
        ensures
            match update_kind(self.data) {
                Some(kind) => value matches Some(value) && json::fields(self.data).contains_key(
                    kind,
                ) && value@ == json::fields(self.data)[kind],
                None => value is None,
            },
    {
        let n: usize = self.data.len();
        proof {
            json::lemma_sorted_keys(self.data.keys(), self.data@.dom());
        }
        if n == 0 {
            None
        } else {
            Some(self.data.entry(0).1)
        }
    }

    /// What the named member holds.
    pub fn decode(&self, name: &str) -> (result: Result<&Json, Error>)
        ensures
            match result {
                Ok(value) => json::member(json::fields(self.data), name@) == Some(value@),
                Err(e) => json::member(json::fields(self.data), name@) is None && e@
                    == ErrorView::Message("update does not contain "@ + name@),
            },
    {
        match self.data.member(name) {
            Some(value) => Ok(value),
            None => Err(Error::Message(joined("update does not contain ", name))),
        }
    }
}

/// A token is letters, digits, underscores, colons and hyphens and not blank,
/// and a method is letters, digits and underscores and not empty; nothing else
/// is refused or accepted.
pub proof fn law_tokens_and_methods_are_plain(token: Seq<char>, method: Seq<char>)
    ensures
        token_flaw(token) is None <==> !text::blank(token) && forall|i: int|
            0 <= i < token.len() ==> ({
                let c = #[trigger] token[i];
                'a' <= c <= 'z' || 'A' <= c <= 'Z' || '0' <= c <= '9' || c == '_' || c == ':' || c
                    == '-'
            }),
        method_flaw(method) is None <==> method.len() > 0 && forall|i: int|
            0 <= i < method.len() ==> ({
                let c = #[trigger] method[i];
                'a' <= c <= 'z' || 'A' <= c <= 'Z' || '0' <= c <= '9' || c == '_'
            }),
{
    if token_flaw(token) is None {
        assert forall|i: int| 0 <= i < token.len() implies is_token_char(#[trigger] token[i]) by {}
    }
    if method_flaw(method) is None {
        assert forall|i: int| 0 <= i < method.len() implies is_method_char(#[trigger] method[i]) by {}
    }
}

/// An address ends without a slash, and loses nothing but the slashes at its
/// end.
pub proof fn law_addresses_end_without_a_slash(text: Seq<char>)
    ensures
        without_slashes(text).len() > 0 ==> without_slashes(text).last() != '/',
        without_slashes(text).is_prefix_of(text),
        forall|i: int| without_slashes(text).len() <= i < text.len() ==> #[trigger] text[i] == '/',
    decreases text.len(),
{
    if text.len() > 0 && text.last() == '/' {
        let rest = text.drop_last();
        law_addresses_end_without_a_slash(rest);
        assert forall|i: int| without_slashes(text).len() <= i < text.len() implies #[trigger] text[i]
            == '/' by {
            if i < rest.len() {
                assert(rest[i] == '/');
            }
        }
        assert(without_slashes(text) =~= text.subrange(0, without_slashes(text).len() as int));
    } else {
        assert(text =~= text.subrange(0, text.len() as int));
    }
}

/// What Telegram says of a refusal is kept, and so is how long to wait.
pub proof fn law_refusals_are_kept<T>(
    error: TelegramApiError,
    method: Seq<char>,
    http_status: u16,
    response: ApiResponse<T>,
)
    requires
        is_refusal(error, method, http_status, response),
    ensures
        error.method@ == method,
        error.http_status == http_status,
        error.error_code == response.error_code,
        response.description matches Some(text) ==> error.description@ == text@,
        response.parameters matches Some(given) ==> (error.parameters matches Some(kept)
            && kept.retry_after == given.retry_after && kept.migrate_to_chat_id
            == given.migrate_to_chat_id),
{
}

/// The bot is asked who it is, and a file is asked for by its id.
pub proof fn law_files_are_asked_for_by_id(file_id: &str, me: Request, file: Request)
    requires
        call_ensures(get_me, (), me),
        call_ensures(get_file, (file_id,), file),
    ensures
        me@.method == "getMe"@,
        file@.method == "getFile"@,
        json::text_in(file@.payload, "file_id"@) == Some(file_id@),
{
    let payload = json::no_fields().insert("file_id"@, JsonView::Text(file_id@));
    request::lemma_call_member("getFile"@, payload, "file_id"@);
}

/// A client talks to Telegram itself, with the token that it was given, where
/// no other server was named.
pub proof fn law_clients_talk_to_telegram(token: &str, result: Result<TelegramClient, Error>)
    requires
        call_ensures(TelegramClient::new, (token,), result),
    ensures
        result is Ok <==> token_flaw(token@) is None,
        result matches Ok(client) ==> client@.token == token@ && client@.api_base
            == "https://api.telegram.org"@,
{
}

/// An answer is a success exactly where Telegram says so and gives a result.
pub proof fn law_answers_succeed_where_telegram_says_so<T>(
    method: &str,
    http_status: u16,
    response: ApiResponse<T>,
    result: Result<T, CallError>,
)
    requires
        call_ensures(decode_response::<T>, (method, http_status, response), result),
    ensures
        result is Ok <==> response.ok && response.result is Some,
        result matches Ok(value) ==> response.result == Some(value),
        result matches Err(CallError::Api(error)) ==> !response.ok && error.method@ == method@
            && error.http_status == http_status && error.error_code == response.error_code,
        !response.ok ==> (result matches Err(CallError::Api(_))),
{
}

/// A file is fetched from beside the methods, with the token of the client.
pub proof fn law_files_are_fetched_beside_the_methods(client: ClientView, path: Seq<char>)
    ensures
        file_address(client, path) == client.api_base + "/file/bot"@ + client.token + "/"@ + path,
        client.api_base.is_prefix_of(file_address(client, path)),
{
    assert(client.api_base =~= file_address(client, path).subrange(
        0,
        client.api_base.len() as int,
    ));
}

} // verus!
