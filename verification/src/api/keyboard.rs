//! Keyboards and buttons in Telegram's form.
use crate::error;
use crate::error::{message, unsupported, Error, ErrorView};
use crate::interaction::{
    ActionRow, Button, ButtonAction, ButtonIcon, ButtonStyle, InlineKeyboard, InlineQueryTarget,
    InteractionComponent, MessageComponents, PollKind, ReplyButton, ReplyButtonAction,
    ReplyButtonRow, ReplyKeyboard, RequestChat, RequestUsers,
};
use crate::json;
use crate::json::{strip_members, strip_nulls, Fields, Json, JsonView};
use crate::list;
use crate::list::collect_json;
use crate::native;
use crate::native::{merge_native_fields, merge_optional_native, telegram_native_object};
use crate::text::joined3;
use crate::uri;
use crate::uri::{validate_button_url, validate_https_url};
use vstd::prelude::*;
use vstd::string::*;

verus! {

/// A button's label with an emoji in front, and the custom emoji beside it.
pub open spec fn label_outcome(label: Seq<char>, icon: Option<ButtonIcon>) -> Result<
    (Seq<char>, Option<Seq<char>>),
    ErrorView,
> {
    match icon {
        Some(ButtonIcon::Emoji(emoji)) => if emoji@.len() == 0 {
            error::refused("button emoji cannot be empty"@)
        } else {
            Ok((emoji@ + " "@ + label, None))
        },
        Some(ButtonIcon::Custom(id)) => if id@.len() == 0 {
            error::refused("custom button emoji id cannot be empty"@)
        } else {
            Ok((label, Some(id@)))
        },
        None => Ok((label, None)),
    }
}

/// Places a button's icon: an emoji in front of the label, or a custom emoji.
pub fn telegram_button_label(label: &str, icon: &Option<ButtonIcon>) -> (result: Result<
    (String, Option<String>),
    Error,
>)
    ensures
        match result {
            Ok((text, custom)) => label_outcome(label@, *icon) == Ok::<_, ErrorView>(
                (
                    text@,
                    match custom {
                        Some(id) => Some(id@),
                        None => None,
                    },
                ),
            ),
            Err(e) => label_outcome(label@, *icon) == Err::<
                (Seq<char>, Option<Seq<char>>),
                ErrorView,
            >(e@),
        },
{
    match icon {
        Some(ButtonIcon::Emoji(emoji)) => {
            if emoji.as_str().is_empty() {
                return Err(message("button emoji cannot be empty"));
            }
            Ok((joined3(emoji.as_str(), " ", label), None))
        },
        Some(ButtonIcon::Custom(id)) => {
            if id.as_str().is_empty() {
                return Err(message("custom button emoji id cannot be empty"));
            }
            Ok((label.to_owned(), Some(id.clone())))
        },
        None => Ok((label.to_owned(), None)),
    }
}

/// The name of a style that Telegram knows.
pub open spec fn style_name(style: ButtonStyle) -> Option<Seq<char>> {
    match style {
        ButtonStyle::Default => None,
        ButtonStyle::Secondary => None,
        ButtonStyle::Primary => Some("primary"@),
        ButtonStyle::Success => Some("success"@),
        ButtonStyle::Danger => Some("danger"@),
    }
}

/// The name of a style that Telegram knows.
pub fn telegram_button_style(style: ButtonStyle) -> (name: Option<&'static str>)
    ensures
        match name {
            Some(name) => style_name(style) == Some(name@),
            None => style_name(style) == None::<Seq<char>>,
        },
{
    match style {
        ButtonStyle::Default => None,
        ButtonStyle::Secondary => None,
        ButtonStyle::Primary => Some("primary"),
        ButtonStyle::Success => Some("success"),
        ButtonStyle::Danger => Some("danger"),
    }
}

/// Whether a placeholder can stand in an input field.
pub open spec fn placeholder_outcome(placeholder: Option<Seq<char>>, context: Seq<char>) -> Result<
    (),
    ErrorView,
> {
    match placeholder {
        Some(text) => if 1 <= text.len() <= 64 {
            Ok(())
        } else {
            error::refused(
                "Telegram "@ + context + " placeholder must contain 1 to 64 characters"@,
            )
        },
        None => Ok(()),
    }
}

/// Accepts a placeholder of 1 to 64 characters, or none.
pub fn validate_placeholder(placeholder: &Option<String>, context: &str) -> (result: Result<
    (),
    Error,
>)
    ensures
        error::shown(result) == placeholder_outcome(json::optional_chars(*placeholder), context@),
{
    if let Some(text) = placeholder {
        let n: usize = text.as_str().unicode_len();
        if !(1 <= n && n <= 64) {
            return Err(
                Error::Message(
                    joined3("Telegram ", context, " placeholder must contain 1 to 64 characters"),
                ),
            );
        }
    }
    Ok(())
}

/// What every button shows: its text, its custom emoji and its style.
pub open spec fn face(
    label: Seq<char>,
    icon: Option<ButtonIcon>,
    style: ButtonStyle,
) -> Result<Map<Seq<char>, JsonView>, ErrorView> {
    match label_outcome(label, icon) {
        Err(e) => Err(e),
        Ok((text, custom)) => {
            let with_text = json::no_fields().insert("text"@, JsonView::Text(text));
            let with_icon = match custom {
                Some(id) => with_text.insert("icon_custom_emoji_id"@, JsonView::Text(id)),
                None => with_text,
            };
            Ok(
                match style_name(style) {
                    Some(name) => with_icon.insert("style"@, JsonView::Text(name)),
                    None => with_icon,
                },
            )
        },
    }
}

fn write_face(label: &str, icon: &Option<ButtonIcon>, style: ButtonStyle) -> (result: Result<
    Fields,
    Error,
>)
    ensures
        native::shown_fields(result) == face(label@, *icon, style),
{
    let (text, custom) = telegram_button_label(label, icon)?;
    let mut object = Fields::none();
    object.put("text", Json::text(text.as_str()));
    if let Some(id) = &custom {
        object.put("icon_custom_emoji_id", Json::text(id.as_str()));
    }
    if let Some(name) = telegram_button_style(style) {
        object.put("style", Json::text(name));
    }
    Ok(object)
}

/// An object whose only member is a `url`.
pub open spec fn url_object(url: Seq<char>) -> JsonView {
    JsonView::Object(json::no_fields().insert("url"@, JsonView::Text(url)))
}

pub(crate) fn write_url_object(url: &str) -> (json: Json)
    ensures
        json@ == url_object(url@),
{
    let mut object = Fields::none();
    object.put("url", Json::text(url));
    Json::object(object)
}

/// The members of an inline button: those of its face and that of its action.
pub open spec fn inline_action(
    object: Map<Seq<char>, JsonView>,
    action: ButtonAction,
    row: int,
    column: int,
) -> Result<Map<Seq<char>, JsonView>, ErrorView> {
    match action {
        ButtonAction::Callback { data } => if 1 <= vstd::utf8::encode_utf8(data@).len() <= 64 {
            Ok(object.insert("callback_data"@, JsonView::Text(data@)))
        } else {
            error::refused("Telegram callback data must contain 1 to 64 bytes"@)
        },
        ButtonAction::SendText { .. } => error::unsupported_view(
            "send-text actions on Telegram inline buttons"@,
        ),
        ButtonAction::Url { url } => match uri::button_url_outcome(uri::parsed(url@)) {
            Ok(_) => Ok(object.insert("url"@, JsonView::Text(url@))),
            Err(e) => Err(e),
        },
        ButtonAction::WebApp { url } => match uri::https_url_outcome(
            uri::parsed(url@),
            "Web App URL"@,
        ) {
            Ok(_) => Ok(object.insert("web_app"@, url_object(url@))),
            Err(e) => Err(e),
        },
        ButtonAction::Login(login) => match uri::https_url_outcome(
            uri::parsed(login.url@),
            "login URL"@,
        ) {
            Ok(_) => Ok(
                object.insert(
                    "login_url"@,
                    JsonView::Object(
                        json::no_fields().insert("url"@, JsonView::Text(login.url@)).insert(
                            "forward_text"@,
                            json::optional_text_view(login.forward_text),
                        ).insert("bot_username"@, json::optional_text_view(login.bot_username)).insert(
                            "request_write_access"@,
                            json::flag_view(login.request_write_access),
                        ),
                    ),
                ),
            ),
            Err(e) => Err(e),
        },
        ButtonAction::SwitchInlineQuery { query, target } => Ok(
            match target {
                InlineQueryTarget::ChooseChat => object.insert(
                    "switch_inline_query"@,
                    JsonView::Text(query@),
                ),
                InlineQueryTarget::CurrentChat => object.insert(
                    "switch_inline_query_current_chat"@,
                    JsonView::Text(query@),
                ),
                InlineQueryTarget::ChosenChat(criteria) => object.insert(
                    "switch_inline_query_chosen_chat"@,
                    JsonView::Object(
                        json::no_fields().insert("query"@, JsonView::Text(query@)).insert(
                            "allow_user_chats"@,
                            json::optional_bool_view(criteria.allow_user_chats),
                        ).insert(
                            "allow_bot_chats"@,
                            json::optional_bool_view(criteria.allow_bot_chats),
                        ).insert(
                            "allow_group_chats"@,
                            json::optional_bool_view(criteria.allow_group_chats),
                        ).insert(
                            "allow_channel_chats"@,
                            json::optional_bool_view(criteria.allow_channel_chats),
                        ),
                    ),
                ),
            },
        ),
        ButtonAction::CopyText { text } => if 1 <= text@.len() <= 256 {
            Ok(
                object.insert(
                    "copy_text"@,
                    JsonView::Object(json::no_fields().insert("text"@, JsonView::Text(text@))),
                ),
            )
        } else {
            error::refused("Telegram copied text must contain 1 to 256 characters"@)
        },
        ButtonAction::Game => if row == 0 && column == 0 {
            Ok(object.insert("callback_game"@, JsonView::Object(json::no_fields())))
        } else {
            error::refused("Telegram game button must be the first button in the first row"@)
        },
        ButtonAction::Pay => if row == 0 && column == 0 {
            Ok(object.insert("pay"@, JsonView::Bool(true)))
        } else {
            error::refused("Telegram pay button must be the first button in the first row"@)
        },
        ButtonAction::PlatformNative(native) => native::native_merged(
            object,
            native,
            "inline button action"@,
        ),
    }
}

/// An inline button at the given place of its keyboard.
pub open spec fn inline_button_outcome(button: Button, row: int, column: int) -> Result<
    JsonView,
    ErrorView,
> {
    if button.label@.len() == 0 {
        error::refused("button label cannot be empty"@)
    } else if button.disabled {
        error::unsupported_view("disabled Telegram inline buttons"@)
    } else {
        match face(button.label@, button.icon, button.style) {
            Err(e) => Err(e),
            Ok(object) => match inline_action(object, button.action, row, column) {
                Err(e) => Err(e),
                Ok(object) => Ok(json::stripped(JsonView::Object(object))),
            },
        }
    }
}

/// Writes an inline button.
pub fn telegram_inline_button(button: &Button, row: usize, column: usize) -> (result: Result<
    Json,
    Error,
>)
    ensures
        error::shown(result) == inline_button_outcome(*button, row as int, column as int),
{
    if button.label.as_str().is_empty() {
        return Err(message("button label cannot be empty"));
    }
    if button.disabled {
        return Err(unsupported("disabled Telegram inline buttons"));
    }
    let mut object = write_face(button.label.as_str(), &button.icon, button.style)?;
    match &button.action {
        ButtonAction::Callback { data } => {
            let n: usize = data.as_str().as_bytes().len();
            if !(1 <= n && n <= 64) {
                return Err(message("Telegram callback data must contain 1 to 64 bytes"));
            }
            object.put("callback_data", Json::text(data.as_str()));
        },
        ButtonAction::SendText { .. } => {
            return Err(unsupported("send-text actions on Telegram inline buttons"));
        },
        ButtonAction::Url { url } => {
            validate_button_url(url.as_str())?;
            object.put("url", Json::text(url.as_str()));
        },
        ButtonAction::WebApp { url } => {
            validate_https_url(url.as_str(), "Web App URL")?;
            object.put("web_app", write_url_object(url.as_str()));
        },
        ButtonAction::Login(login) => {
            validate_https_url(login.url.as_str(), "login URL")?;
            let mut inner = Fields::none();
            inner.put("url", Json::text(login.url.as_str()));
            inner.put("forward_text", Json::optional_text(&login.forward_text));
            inner.put("bot_username", Json::optional_text(&login.bot_username));
            inner.put("request_write_access", Json::flag(login.request_write_access));
            object.put("login_url", Json::object(inner));
        },
        ButtonAction::SwitchInlineQuery { query, target } => match target {
            InlineQueryTarget::ChooseChat => {
                object.put("switch_inline_query", Json::text(query.as_str()));
            },
            InlineQueryTarget::CurrentChat => {
                object.put("switch_inline_query_current_chat", Json::text(query.as_str()));
            },
            InlineQueryTarget::ChosenChat(criteria) => {
                let mut inner = Fields::none();
                inner.put("query", Json::text(query.as_str()));
                inner.put("allow_user_chats", Json::optional_bool(criteria.allow_user_chats));
                inner.put("allow_bot_chats", Json::optional_bool(criteria.allow_bot_chats));
                inner.put("allow_group_chats", Json::optional_bool(criteria.allow_group_chats));
                inner.put("allow_channel_chats", Json::optional_bool(criteria.allow_channel_chats));
                object.put("switch_inline_query_chosen_chat", Json::object(inner));
            },
        },
        ButtonAction::CopyText { text } => {
            let n: usize = text.as_str().unicode_len();
            if !(1 <= n && n <= 256) {
                return Err(message("Telegram copied text must contain 1 to 256 characters"));
            }
            let mut inner = Fields::none();
            inner.put("text", Json::text(text.as_str()));
            object.put("copy_text", Json::object(inner));
        },
        ButtonAction::Game => {
            if !(row == 0 && column == 0) {
                return Err(
                    message("Telegram game button must be the first button in the first row"),
                );
            }
            object.put("callback_game", Json::object(Fields::none()));
        },
        ButtonAction::Pay => {
            if !(row == 0 && column == 0) {
                return Err(
                    message("Telegram pay button must be the first button in the first row"),
                );
            }
            object.put("pay", Json::bool(true));
        },
        ButtonAction::PlatformNative(native) => {
            object = merge_native_fields(object, native, "inline button action")?;
        },
    }
    Ok(strip_nulls(Json::object(object)))
}

/// One component of an inline keyboard row.
pub open spec fn inline_component_outcome(
    component: InteractionComponent,
    row: int,
    column: int,
) -> Result<JsonView, ErrorView> {
    match component {
        InteractionComponent::Button(button) => inline_button_outcome(button, row, column),
        InteractionComponent::PlatformNative(native) => match native::native_object_outcome(
            native,
            "inline keyboard button"@,
        ) {
            Ok(map) => Ok(JsonView::Object(map)),
            Err(e) => Err(e),
        },
        InteractionComponent::Select => error::unsupported_view("Telegram inline select menus"@),
        InteractionComponent::Input => error::unsupported_view("Telegram inline input components"@),
    }
}

fn write_inline_component(component: &InteractionComponent, row: usize, column: usize) -> (result:
    Result<Json, Error>)
    ensures
        error::shown(result) == inline_component_outcome(*component, row as int, column as int),
{
    match component {
        InteractionComponent::Button(button) => telegram_inline_button(button, row, column),
        InteractionComponent::PlatformNative(native) => {
            let map = telegram_native_object(native, "inline keyboard button")?;
            Ok(Json::object(map))
        },
        InteractionComponent::Select => Err(unsupported("Telegram inline select menus")),
        InteractionComponent::Input => Err(unsupported("Telegram inline input components")),
    }
}

/// How the components of row `row` are written.
pub open spec fn inline_components(row: int) -> spec_fn(int, InteractionComponent) -> Result<
    JsonView,
    ErrorView,
> {
    |column: int, component: InteractionComponent| inline_component_outcome(component, row, column)
}

/// One row of an inline keyboard.
pub open spec fn inline_row_outcome(row: ActionRow, index: int) -> Result<JsonView, ErrorView> {
    if row.components@.len() == 0 {
        error::refused("Telegram inline keyboard row cannot be empty"@)
    } else {
        match list::collect(row.components@, inline_components(index)) {
            Ok(items) => Ok(JsonView::Array(items)),
            Err(e) => Err(e),
        }
    }
}

spec fn inline_component_at(component: InteractionComponent, row: usize, column: usize) -> Result<
    JsonView,
    ErrorView,
> {
    inline_component_outcome(component, row as int, column as int)
}

fn write_inline_row(index: usize, row: &ActionRow) -> (result: Result<Json, Error>)
    ensures
        error::shown(result) == inline_row_outcome(*row, index as int),
{
    if row.components.len() == 0 {
        return Err(message("Telegram inline keyboard row cannot be empty"));
    }
    let write = |column: usize, component: &InteractionComponent| -> (out: Result<Json, Error>)
        ensures
            error::shown(out) == inline_component_at(*component, index, column),
        { write_inline_component(component, index, column) };
    let items = collect_json(&row.components, write, Ghost(inline_components(index as int)))?;
    Ok(Json::array(items))
}

/// How the rows of an inline keyboard are written.
pub open spec fn inline_rows() -> spec_fn(int, ActionRow) -> Result<JsonView, ErrorView> {
    |index: int, row: ActionRow| inline_row_outcome(row, index)
}

/// The rows of an inline keyboard.
pub open spec fn inline_keyboard_outcome(keyboard: InlineKeyboard) -> Result<
    Seq<JsonView>,
    ErrorView,
> {
    if keyboard.rows@.len() == 0 {
        error::refused("Telegram inline keyboard must contain at least one row"@)
    } else {
        list::collect(keyboard.rows@, inline_rows())
    }
}

/// Writes the rows of an inline keyboard.
pub fn telegram_inline_keyboard(keyboard: &InlineKeyboard) -> (result: Result<Vec<Json>, Error>)
    ensures
        list::shown_list(result) == inline_keyboard_outcome(*keyboard),
{
    if keyboard.rows.len() == 0 {
        return Err(message("Telegram inline keyboard must contain at least one row"));
    }
    collect_json(&keyboard.rows, write_inline_row, Ghost(inline_rows()))
}

/// What a request for users asks.
pub open spec fn request_users_view(request: RequestUsers) -> JsonView {
    JsonView::Object(
        json::no_fields().insert("request_id"@, JsonView::Integer(request.request_id as int)).insert(
            "user_is_bot"@,
            json::optional_bool_view(request.user_is_bot),
        ).insert("user_is_premium"@, json::optional_bool_view(request.user_is_premium)).insert(
            "max_quantity"@,
            match request.max_quantity {
                Some(n) => JsonView::Integer(n as int),
                None => JsonView::Null,
            },
        ).insert("request_name"@, json::flag_view(request.request_name)).insert(
            "request_username"@,
            json::flag_view(request.request_username),
        ).insert("request_photo"@, json::flag_view(request.request_photo)),
    )
}

fn write_request_users(request: &RequestUsers) -> (json: Json)
    ensures
        json@ == request_users_view(*request),
{
    let max_quantity = match request.max_quantity {
        Some(n) => Some(n as i64),
        None => None,
    };
    let mut inner = Fields::none();
    inner.put("request_id", Json::integer(request.request_id as i64));
    inner.put("user_is_bot", Json::optional_bool(request.user_is_bot));
    inner.put("user_is_premium", Json::optional_bool(request.user_is_premium));
    inner.put("max_quantity", Json::optional_integer(max_quantity));
    inner.put("request_name", Json::flag(request.request_name));
    inner.put("request_username", Json::flag(request.request_username));
    inner.put("request_photo", Json::flag(request.request_photo));
    Json::object(inner)
}

/// What a request for a chat asks, before native criteria are added.
pub open spec fn request_chat_fields(request: RequestChat) -> Map<Seq<char>, JsonView> {
    json::no_fields().insert("request_id"@, JsonView::Integer(request.request_id as int)).insert(
        "chat_is_channel"@,
        JsonView::Bool(request.chat_is_channel),
    ).insert("chat_is_forum"@, json::optional_bool_view(request.chat_is_forum)).insert(
        "chat_has_username"@,
        json::optional_bool_view(request.chat_has_username),
    ).insert("chat_is_created"@, json::optional_bool_view(request.chat_is_created)).insert(
        "bot_is_member"@,
        json::flag_view(request.bot_is_member),
    ).insert("request_title"@, json::flag_view(request.request_title)).insert(
        "request_username"@,
        json::flag_view(request.request_username),
    ).insert("request_photo"@, json::flag_view(request.request_photo))
}

/// A request for a chat: its own criteria without the unset ones, and native
/// criteria beside them.
pub open spec fn request_chat_outcome(request: RequestChat) -> Result<JsonView, ErrorView> {
    let own = json::stripped(JsonView::Object(request_chat_fields(request)))->Object_0;
    match native::optional_native_merged(own, request.platform_data, "request-chat criteria"@) {
        Ok(map) => Ok(JsonView::Object(map)),
        Err(e) => Err(e),
    }
}

fn write_request_chat(request: &RequestChat) -> (result: Result<Json, Error>)
    ensures
        error::shown(result) == request_chat_outcome(*request),
{
    let mut inner = Fields::none();
    inner.put("request_id", Json::integer(request.request_id as i64));
    inner.put("chat_is_channel", Json::bool(request.chat_is_channel));
    inner.put("chat_is_forum", Json::optional_bool(request.chat_is_forum));
    inner.put("chat_has_username", Json::optional_bool(request.chat_has_username));
    inner.put("chat_is_created", Json::optional_bool(request.chat_is_created));
    inner.put("bot_is_member", Json::flag(request.bot_is_member));
    inner.put("request_title", Json::flag(request.request_title));
    inner.put("request_username", Json::flag(request.request_username));
    inner.put("request_photo", Json::flag(request.request_photo));
    let own = strip_members(inner);
    let map = merge_optional_native(own, &request.platform_data, "request-chat criteria")?;
    Ok(Json::object(map))
}

/// The name of a kind of poll.
pub open spec fn poll_kind_view(kind: Option<PollKind>) -> JsonView {
    match kind {
        Some(PollKind::Regular) => JsonView::Text("regular"@),
        Some(PollKind::Quiz) => JsonView::Text("quiz"@),
        None => JsonView::Null,
    }
}

/// The members of a reply button: those of its face and that of its action.
pub open spec fn reply_action(
    object: Map<Seq<char>, JsonView>,
    action: ReplyButtonAction,
) -> Result<Map<Seq<char>, JsonView>, ErrorView> {
    match action {
        ReplyButtonAction::SendText => Ok(object),
        ReplyButtonAction::RequestUsers(request) => if request.max_quantity matches Some(n) && !(1
            <= n <= 10) {
            error::refused("Telegram request-users quantity must be between 1 and 10"@)
        } else {
            Ok(object.insert("request_users"@, request_users_view(request)))
        },
        ReplyButtonAction::RequestChat(request) => match request_chat_outcome(request) {
            Ok(value) => Ok(object.insert("request_chat"@, value)),
            Err(e) => Err(e),
        },
        ReplyButtonAction::RequestManagedBot(request) => Ok(
            object.insert(
                "request_managed_bot"@,
                JsonView::Object(
                    json::no_fields().insert(
                        "request_id"@,
                        JsonView::Integer(request.request_id as int),
                    ).insert(
                        "suggested_name"@,
                        json::optional_text_view(request.suggested_name),
                    ).insert(
                        "suggested_username"@,
                        json::optional_text_view(request.suggested_username),
                    ),
                ),
            ),
        ),
        ReplyButtonAction::RequestContact => Ok(
            object.insert("request_contact"@, JsonView::Bool(true)),
        ),
        ReplyButtonAction::RequestLocation => Ok(
            object.insert("request_location"@, JsonView::Bool(true)),
        ),
        ReplyButtonAction::RequestPoll { kind } => Ok(
            object.insert(
                "request_poll"@,
                JsonView::Object(json::no_fields().insert("type"@, poll_kind_view(kind))),
            ),
        ),
        ReplyButtonAction::WebApp { url } => match uri::https_url_outcome(
            uri::parsed(url@),
            "Web App URL"@,
        ) {
            Ok(_) => Ok(object.insert("web_app"@, url_object(url@))),
            Err(e) => Err(e),
        },
        ReplyButtonAction::PlatformNative(native) => native::native_merged(
            object,
            native,
            "reply button action"@,
        ),
    }
}

/// A button of a reply keyboard.
pub open spec fn reply_button_outcome(button: ReplyButton) -> Result<JsonView, ErrorView> {
    if button.label@.len() == 0 {
        error::refused("button label cannot be empty"@)
    } else {
        match face(button.label@, button.icon, button.style) {
            Err(e) => Err(e),
            Ok(object) => match reply_action(object, button.action) {
                Err(e) => Err(e),
                Ok(object) => Ok(json::stripped(JsonView::Object(object))),
            },
        }
    }
}

/// Writes a button of a reply keyboard.
pub fn telegram_reply_button(button: &ReplyButton) -> (result: Result<Json, Error>)
    ensures
        error::shown(result) == reply_button_outcome(*button),
{
    if button.label.as_str().is_empty() {
        return Err(message("button label cannot be empty"));
    }
    let mut object = write_face(button.label.as_str(), &button.icon, button.style)?;
    match &button.action {
        ReplyButtonAction::SendText => {},
        ReplyButtonAction::RequestUsers(request) => {
            if let Some(n) = request.max_quantity {
                if !(1 <= n && n <= 10) {
                    return Err(
                        message("Telegram request-users quantity must be between 1 and 10"),
                    );
                }
            }
            object.put("request_users", write_request_users(request));
        },
        ReplyButtonAction::RequestChat(request) => {
            let value = write_request_chat(request)?;
            object.put("request_chat", value);
        },
        ReplyButtonAction::RequestManagedBot(request) => {
            let mut inner = Fields::none();
            inner.put("request_id", Json::integer(request.request_id as i64));
            inner.put("suggested_name", Json::optional_text(&request.suggested_name));
            inner.put("suggested_username", Json::optional_text(&request.suggested_username));
            object.put("request_managed_bot", Json::object(inner));
        },
        ReplyButtonAction::RequestContact => {
            object.put("request_contact", Json::bool(true));
        },
        ReplyButtonAction::RequestLocation => {
            object.put("request_location", Json::bool(true));
        },
        ReplyButtonAction::RequestPoll { kind } => {
            let kind = match kind {
                Some(PollKind::Regular) => Json::text("regular"),
                Some(PollKind::Quiz) => Json::text("quiz"),
                None => Json::null(),
            };
            let mut inner = Fields::none();
            inner.put("type", kind);
            object.put("request_poll", Json::object(inner));
        },
        ReplyButtonAction::WebApp { url } => {
            validate_https_url(url.as_str(), "Web App URL")?;
            object.put("web_app", write_url_object(url.as_str()));
        },
        ReplyButtonAction::PlatformNative(native) => {
            object = merge_native_fields(object, native, "reply button action")?;
        },
    }
    Ok(strip_nulls(Json::object(object)))
}

/// How the buttons of a reply keyboard row are written.
pub open spec fn reply_buttons() -> spec_fn(int, ReplyButton) -> Result<JsonView, ErrorView> {
    |column: int, button: ReplyButton| reply_button_outcome(button)
}

fn write_reply_button(column: usize, button: &ReplyButton) -> (result: Result<Json, Error>)
    ensures
        error::shown(result) == reply_button_outcome(*button),
{
    telegram_reply_button(button)
}

/// One row of a reply keyboard.
pub open spec fn reply_row_outcome(row: ReplyButtonRow) -> Result<JsonView, ErrorView> {
    if row.buttons@.len() == 0 {
        error::refused("Telegram reply keyboard row cannot be empty"@)
    } else {
        match list::collect(row.buttons@, reply_buttons()) {
            Ok(items) => Ok(JsonView::Array(items)),
            Err(e) => Err(e),
        }
    }
}

fn write_reply_row(index: usize, row: &ReplyButtonRow) -> (result: Result<Json, Error>)
    ensures
        error::shown(result) == reply_row_outcome(*row),
{
    if row.buttons.len() == 0 {
        return Err(message("Telegram reply keyboard row cannot be empty"));
    }
    let items = collect_json(&row.buttons, write_reply_button, Ghost(reply_buttons()))?;
    Ok(Json::array(items))
}

/// How the rows of a reply keyboard are written.
pub open spec fn reply_rows() -> spec_fn(int, ReplyButtonRow) -> Result<JsonView, ErrorView> {
    |index: int, row: ReplyButtonRow| reply_row_outcome(row)
}

/// A reply keyboard.
pub open spec fn reply_keyboard_outcome(keyboard: ReplyKeyboard) -> Result<JsonView, ErrorView> {
    if keyboard.rows@.len() == 0 {
        error::refused("Telegram reply keyboard must contain at least one row"@)
    } else {
        match placeholder_outcome(json::optional_chars(keyboard.input_field_placeholder), "reply-keyboard"@) {
            Err(e) => Err(e),
            Ok(_) => match list::collect(keyboard.rows@, reply_rows()) {
                Err(e) => Err(e),
                Ok(rows) => Ok(
                    json::stripped(
                        JsonView::Object(
                            json::no_fields().insert("keyboard"@, JsonView::Array(rows)).insert(
                                "is_persistent"@,
                                json::flag_view(keyboard.persistent),
                            ).insert("resize_keyboard"@, json::flag_view(keyboard.resize)).insert(
                                "one_time_keyboard"@,
                                json::flag_view(keyboard.one_time),
                            ).insert(
                                "input_field_placeholder"@,
                                json::optional_text_view(keyboard.input_field_placeholder),
                            ).insert("selective"@, json::flag_view(keyboard.selective)),
                        ),
                    ),
                ),
            },
        }
    }
}

/// Writes a reply keyboard.
pub fn telegram_reply_keyboard(keyboard: &ReplyKeyboard) -> (result: Result<Json, Error>)
    ensures
        error::shown(result) == reply_keyboard_outcome(*keyboard),
{
    if keyboard.rows.len() == 0 {
        return Err(message("Telegram reply keyboard must contain at least one row"));
    }
    validate_placeholder(&keyboard.input_field_placeholder, "reply-keyboard")?;
    let rows = collect_json(&keyboard.rows, write_reply_row, Ghost(reply_rows()))?;
    let mut object = Fields::none();
    object.put("keyboard", Json::array(rows));
    object.put("is_persistent", Json::flag(keyboard.persistent));
    object.put("resize_keyboard", Json::flag(keyboard.resize));
    object.put("one_time_keyboard", Json::flag(keyboard.one_time));
    object.put(
        "input_field_placeholder",
        Json::optional_text(&keyboard.input_field_placeholder),
    );
    object.put("selective", Json::flag(keyboard.selective));
    Ok(strip_nulls(Json::object(object)))
}

/// The markup that goes with a new message.
pub open spec fn message_components_outcome(components: MessageComponents) -> Result<
    JsonView,
    ErrorView,
> {
    let written = match components {
        MessageComponents::InlineKeyboard(keyboard) => match inline_keyboard_outcome(keyboard) {
            Ok(rows) => Ok(
                JsonView::Object(json::no_fields().insert("inline_keyboard"@, JsonView::Array(rows))),
            ),
            Err(e) => Err(e),
        },
        MessageComponents::ReplyKeyboard(keyboard) => reply_keyboard_outcome(keyboard),
        MessageComponents::RemoveReplyKeyboard { selective } => Ok(
            JsonView::Object(
                json::no_fields().insert("remove_keyboard"@, JsonView::Bool(true)).insert(
                    "selective"@,
                    json::flag_view(selective),
                ),
            ),
        ),
        MessageComponents::ForceReply { input_field_placeholder, selective } => {
            match placeholder_outcome(json::optional_chars(input_field_placeholder), "force-reply"@) {
                Err(e) => Err(e),
                Ok(_) => Ok(
                    JsonView::Object(
                        json::no_fields().insert("force_reply"@, JsonView::Bool(true)).insert(
                            "input_field_placeholder"@,
                            json::optional_text_view(input_field_placeholder),
                        ).insert("selective"@, json::flag_view(selective)),
                    ),
                ),
            }
        },
        MessageComponents::PlatformNative(native) => match native::native_object_outcome(
            native,
            "message components"@,
        ) {
            Ok(map) => Ok(JsonView::Object(map)),
            Err(e) => Err(e),
        },
    };
    match written {
        Ok(value) => Ok(json::stripped(value)),
        Err(e) => Err(e),
    }
}

/// Writes the markup that goes with a new message.
pub fn telegram_message_components(components: &MessageComponents) -> (result: Result<Json, Error>)
    ensures
        error::shown(result) == message_components_outcome(*components),
{
    let value = match components {
        MessageComponents::InlineKeyboard(keyboard) => {
            let rows = telegram_inline_keyboard(keyboard)?;
            let mut object = Fields::none();
            object.put("inline_keyboard", Json::array(rows));
            Json::object(object)
        },
        MessageComponents::ReplyKeyboard(keyboard) => telegram_reply_keyboard(keyboard)?,
        MessageComponents::RemoveReplyKeyboard { selective } => {
            let mut object = Fields::none();
            object.put("remove_keyboard", Json::bool(true));
            object.put("selective", Json::flag(*selective));
            Json::object(object)
        },
        MessageComponents::ForceReply { input_field_placeholder, selective } => {
            validate_placeholder(input_field_placeholder, "force-reply")?;
            let mut object = Fields::none();
            object.put("force_reply", Json::bool(true));
            object.put("input_field_placeholder", Json::optional_text(input_field_placeholder));
            object.put("selective", Json::flag(*selective));
            Json::object(object)
        },
        MessageComponents::PlatformNative(native) => {
            let map = telegram_native_object(native, "message components")?;
            Json::object(map)
        },
    };
    Ok(strip_nulls(value))
}

/// The markup that a message can be given after it was sent.
pub open spec fn editable_components_outcome(components: MessageComponents) -> Result<
    JsonView,
    ErrorView,
> {
    match components {
        MessageComponents::InlineKeyboard(keyboard) => match inline_keyboard_outcome(keyboard) {
            Ok(rows) => Ok(
                JsonView::Object(json::no_fields().insert("inline_keyboard"@, JsonView::Array(rows))),
            ),
            Err(e) => Err(e),
        },
        MessageComponents::PlatformNative(native) => match native::native_object_outcome(
            native,
            "editable message components"@,
        ) {
            Ok(map) => if map.contains_key("inline_keyboard"@) {
                Ok(JsonView::Object(map))
            } else {
                error::refused("Telegram can edit only inline keyboards"@)
            },
            Err(e) => Err(e),
        },
        _ => error::unsupported_view("editing Telegram reply keyboards"@),
    }
}

/// Writes the markup that a message is given after it was sent.
pub fn telegram_editable_components(components: &MessageComponents) -> (result: Result<Json, Error>)
    ensures
        error::shown(result) == editable_components_outcome(*components),
{
    match components {
        MessageComponents::InlineKeyboard(keyboard) => {
            let rows = telegram_inline_keyboard(keyboard)?;
            let mut object = Fields::none();
            object.put("inline_keyboard", Json::array(rows));
            Ok(Json::object(object))
        },
        MessageComponents::PlatformNative(native) => {
            let map = telegram_native_object(native, "editable message components")?;
            if !map.contains_key("inline_keyboard") {
                return Err(message("Telegram can edit only inline keyboards"));
            }
            Ok(Json::object(map))
        },
        _ => Err(unsupported("editing Telegram reply keyboards")),
    }
}

// ---------------------------------------------------------------------------
// Laws
// ---------------------------------------------------------------------------

/// An inline keyboard that is accepted is written row by row and button by
/// button, and has no row without buttons.
pub proof fn law_keyboards_keep_their_shape(keyboard: InlineKeyboard, i: int)
    requires
        inline_keyboard_outcome(keyboard) is Ok,
        0 <= i < keyboard.rows@.len(),
    ensures
        inline_keyboard_outcome(keyboard)->Ok_0.len() == keyboard.rows@.len(),
        keyboard.rows@[i].components@.len() >= 1,
        inline_keyboard_outcome(keyboard)->Ok_0[i] matches JsonView::Array(buttons)
            && buttons.len() == keyboard.rows@[i].components@.len(),
{
    list::lemma_collect_ok(keyboard.rows@, inline_rows());
    let written = inline_keyboard_outcome(keyboard)->Ok_0;
    assert(inline_rows()(i, keyboard.rows@[i]) == Ok::<JsonView, ErrorView>(written[i]));
    list::lemma_collect_ok(keyboard.rows@[i].components@, inline_components(i));
}

/// What holds of a button that Telegram takes at the given place.
pub open spec fn button_fits(button: Button, row: int, column: int) -> bool {
    &&& button.label@.len() >= 1
    &&& !button.disabled
    &&& match button.action {
        ButtonAction::Callback { data } => 1 <= vstd::utf8::encode_utf8(data@).len() <= 64,
        ButtonAction::SendText { .. } => false,
        ButtonAction::Url { url } => uri::parsed(url@) matches Some(found) && found.has_authority,
        ButtonAction::WebApp { url } => uri::parsed(url@) matches Some(found) && found.scheme
            == Some("https"@),
        ButtonAction::Login(login) => uri::parsed(login.url@) matches Some(found) && found.scheme
            == Some("https"@),
        ButtonAction::CopyText { text } => 1 <= text@.len() <= 256,
        ButtonAction::Game | ButtonAction::Pay => row == 0 && column == 0,
        _ => true,
    }
}

/// Every component of an inline keyboard that is accepted is a native one or a
/// button that fits its place: it has a label and is not disabled, callback data
/// has 1 to 64 bytes, a text to be copied 1 to 256 characters, Web Apps and
/// logins are opened over https, and only the very first button starts a game or
/// pays.
pub proof fn law_accepted_buttons_fit(keyboard: InlineKeyboard, i: int, j: int)
    requires
        inline_keyboard_outcome(keyboard) is Ok,
        0 <= i < keyboard.rows@.len(),
        0 <= j < keyboard.rows@[i].components@.len(),
    ensures
        match keyboard.rows@[i].components@[j] {
            InteractionComponent::Button(button) => button_fits(button, i, j),
            InteractionComponent::PlatformNative(_) => true,
            InteractionComponent::Select | InteractionComponent::Input => false,
        },
{
    list::lemma_collect_ok(keyboard.rows@, inline_rows());
    let written = inline_keyboard_outcome(keyboard)->Ok_0;
    assert(inline_rows()(i, keyboard.rows@[i]) == Ok::<JsonView, ErrorView>(written[i]));
    let components = keyboard.rows@[i].components@;
    list::lemma_collect_ok(components, inline_components(i));
    let row = list::collect(components, inline_components(i))->Ok_0;
    assert(inline_components(i)(j, components[j]) == Ok::<JsonView, ErrorView>(row[j]));
}

// ---------------------------------------------------------------------------
// What buttons and keyboards say
// ---------------------------------------------------------------------------

proof fn lemma_button_keys()
    ensures
        "callback_data"@.len() == 13,
        "url"@.len() == 3,
        "web_app"@.len() == 7,
        "login_url"@.len() == 9,
        "switch_inline_query"@.len() == 19,
        "switch_inline_query_current_chat"@.len() == 32,
        "switch_inline_query_chosen_chat"@.len() == 31,
        "copy_text"@.len() == 9,
        "callback_game"@.len() == 13,
        "pay"@.len() == 3,
        "text"@.len() == 4,
        "icon_custom_emoji_id"@.len() == 20,
        "style"@.len() == 5,
        "request_users"@.len() == 13,
        "request_chat"@.len() == 12,
        "request_managed_bot"@.len() == 19,
        "request_contact"@.len() == 15,
        "request_location"@.len() == 16,
        "request_poll"@.len() == 12,
        "callback_data"@ != "callback_game"@,
        "callback_data"@ != "request_users"@,
        "url"@ != "pay"@,
        "login_url"@ != "copy_text"@,
        "switch_inline_query"@ != "request_managed_bot"@,
        "callback_game"@ != "request_users"@,
        "request_chat"@ != "request_poll"@,
{
    reveal_strlit("callback_data");
    reveal_strlit("url");
    reveal_strlit("web_app");
    reveal_strlit("login_url");
    reveal_strlit("switch_inline_query");
    reveal_strlit("switch_inline_query_current_chat");
    reveal_strlit("switch_inline_query_chosen_chat");
    reveal_strlit("copy_text");
    reveal_strlit("callback_game");
    reveal_strlit("pay");
    reveal_strlit("text");
    reveal_strlit("icon_custom_emoji_id");
    reveal_strlit("style");
    reveal_strlit("request_users");
    reveal_strlit("request_chat");
    reveal_strlit("request_managed_bot");
    reveal_strlit("request_contact");
    reveal_strlit("request_location");
    reveal_strlit("request_poll");
    assert("callback_data"@[9] != "callback_game"@[9]);
    assert("callback_data"@[0] != "request_users"@[0]);
    assert("url"@[0] != "pay"@[0]);
    assert("login_url"@[0] != "copy_text"@[0]);
    assert("switch_inline_query"@[0] != "request_managed_bot"@[0]);
    assert("callback_game"@[0] != "request_users"@[0]);
    assert("request_chat"@[8] != "request_poll"@[8]);
}

proof fn lemma_inner_keys()
    ensures
        "forward_text"@.len() == 12,
        "bot_username"@.len() == 12,
        "request_write_access"@.len() == 20,
        "query"@.len() == 5,
        "allow_user_chats"@.len() == 16,
        "allow_bot_chats"@.len() == 15,
        "allow_group_chats"@.len() == 17,
        "allow_channel_chats"@.len() == 19,
        "request_id"@.len() == 10,
        "user_is_bot"@.len() == 11,
        "user_is_premium"@.len() == 15,
        "max_quantity"@.len() == 12,
        "request_name"@.len() == 12,
        "request_username"@.len() == 16,
        "request_photo"@.len() == 13,
        "chat_is_channel"@.len() == 15,
        "chat_is_forum"@.len() == 13,
        "chat_has_username"@.len() == 17,
        "chat_is_created"@.len() == 15,
        "bot_is_member"@.len() == 13,
        "request_title"@.len() == 13,
        "suggested_name"@.len() == 14,
        "suggested_username"@.len() == 18,
        "type"@.len() == 4,
        "keyboard"@.len() == 8,
        "is_persistent"@.len() == 13,
        "resize_keyboard"@.len() == 15,
        "one_time_keyboard"@.len() == 17,
        "input_field_placeholder"@.len() == 23,
        "selective"@.len() == 9,
        "inline_keyboard"@.len() == 15,
        "remove_keyboard"@.len() == 15,
        "force_reply"@.len() == 11,
        "url"@.len() == 3,
        "text"@.len() == 4,
        "forward_text"@ != "bot_username"@,
        "forward_text"@ != "max_quantity"@,
        "forward_text"@ != "request_name"@,
        "bot_username"@ != "max_quantity"@,
        "bot_username"@ != "request_name"@,
        "allow_user_chats"@ != "request_username"@,
        "allow_bot_chats"@ != "user_is_premium"@,
        "allow_bot_chats"@ != "chat_is_channel"@,
        "allow_bot_chats"@ != "chat_is_created"@,
        "allow_bot_chats"@ != "resize_keyboard"@,
        "allow_bot_chats"@ != "inline_keyboard"@,
        "allow_bot_chats"@ != "remove_keyboard"@,
        "allow_group_chats"@ != "chat_has_username"@,
        "allow_group_chats"@ != "one_time_keyboard"@,
        "user_is_bot"@ != "force_reply"@,
        "user_is_premium"@ != "chat_is_channel"@,
        "user_is_premium"@ != "chat_is_created"@,
        "user_is_premium"@ != "resize_keyboard"@,
        "user_is_premium"@ != "inline_keyboard"@,
        "user_is_premium"@ != "remove_keyboard"@,
        "max_quantity"@ != "request_name"@,
        "request_photo"@ != "chat_is_forum"@,
        "request_photo"@ != "bot_is_member"@,
        "request_photo"@ != "request_title"@,
        "request_photo"@ != "is_persistent"@,
        "chat_is_channel"@ != "chat_is_created"@,
        "chat_is_channel"@ != "resize_keyboard"@,
        "chat_is_channel"@ != "inline_keyboard"@,
        "chat_is_channel"@ != "remove_keyboard"@,
        "chat_is_forum"@ != "bot_is_member"@,
        "chat_is_forum"@ != "request_title"@,
        "chat_is_forum"@ != "is_persistent"@,
        "chat_has_username"@ != "one_time_keyboard"@,
        "chat_is_created"@ != "resize_keyboard"@,
        "chat_is_created"@ != "inline_keyboard"@,
        "chat_is_created"@ != "remove_keyboard"@,
        "bot_is_member"@ != "request_title"@,
        "bot_is_member"@ != "is_persistent"@,
        "request_title"@ != "is_persistent"@,
        "type"@ != "text"@,
        "resize_keyboard"@ != "inline_keyboard"@,
        "resize_keyboard"@ != "remove_keyboard"@,
        "inline_keyboard"@ != "remove_keyboard"@,
{
    reveal_strlit("forward_text");
    reveal_strlit("bot_username");
    reveal_strlit("request_write_access");
    reveal_strlit("query");
    reveal_strlit("allow_user_chats");
    reveal_strlit("allow_bot_chats");
    reveal_strlit("allow_group_chats");
    reveal_strlit("allow_channel_chats");
    reveal_strlit("request_id");
    reveal_strlit("user_is_bot");
    reveal_strlit("user_is_premium");
    reveal_strlit("max_quantity");
    reveal_strlit("request_name");
    reveal_strlit("request_username");
    reveal_strlit("request_photo");
    reveal_strlit("chat_is_channel");
    reveal_strlit("chat_is_forum");
    reveal_strlit("chat_has_username");
    reveal_strlit("chat_is_created");
    reveal_strlit("bot_is_member");
    reveal_strlit("request_title");
    reveal_strlit("suggested_name");
    reveal_strlit("suggested_username");
    reveal_strlit("type");
    reveal_strlit("keyboard");
    reveal_strlit("is_persistent");
    reveal_strlit("resize_keyboard");
    reveal_strlit("one_time_keyboard");
    reveal_strlit("input_field_placeholder");
    reveal_strlit("selective");
    reveal_strlit("inline_keyboard");
    reveal_strlit("remove_keyboard");
    reveal_strlit("force_reply");
    reveal_strlit("url");
    reveal_strlit("text");
    assert("forward_text"@[0] != "bot_username"@[0]);
    assert("forward_text"@[0] != "max_quantity"@[0]);
    assert("forward_text"@[0] != "request_name"@[0]);
    assert("bot_username"@[0] != "max_quantity"@[0]);
    assert("bot_username"@[0] != "request_name"@[0]);
    assert("allow_user_chats"@[0] != "request_username"@[0]);
    assert("allow_bot_chats"@[0] != "user_is_premium"@[0]);
    assert("allow_bot_chats"@[0] != "chat_is_channel"@[0]);
    assert("allow_bot_chats"@[0] != "chat_is_created"@[0]);
    assert("allow_bot_chats"@[0] != "resize_keyboard"@[0]);
    assert("allow_bot_chats"@[0] != "inline_keyboard"@[0]);
    assert("allow_bot_chats"@[0] != "remove_keyboard"@[0]);
    assert("allow_group_chats"@[0] != "chat_has_username"@[0]);
    assert("allow_group_chats"@[0] != "one_time_keyboard"@[0]);
    assert("user_is_bot"@[0] != "force_reply"@[0]);
    assert("user_is_premium"@[0] != "chat_is_channel"@[0]);
    assert("user_is_premium"@[0] != "chat_is_created"@[0]);
    assert("user_is_premium"@[0] != "resize_keyboard"@[0]);
    assert("user_is_premium"@[0] != "inline_keyboard"@[0]);
    assert("user_is_premium"@[0] != "remove_keyboard"@[0]);
    assert("max_quantity"@[0] != "request_name"@[0]);
    assert("request_photo"@[0] != "chat_is_forum"@[0]);
    assert("request_photo"@[0] != "bot_is_member"@[0]);
    assert("request_photo"@[8] != "request_title"@[8]);
    assert("request_photo"@[0] != "is_persistent"@[0]);
    assert("chat_is_channel"@[9] != "chat_is_created"@[9]);
    assert("chat_is_channel"@[0] != "resize_keyboard"@[0]);
    assert("chat_is_channel"@[0] != "inline_keyboard"@[0]);
    assert("chat_is_channel"@[0] != "remove_keyboard"@[0]);
    assert("chat_is_forum"@[0] != "bot_is_member"@[0]);
    assert("chat_is_forum"@[0] != "request_title"@[0]);
    assert("chat_is_forum"@[0] != "is_persistent"@[0]);
    assert("chat_has_username"@[0] != "one_time_keyboard"@[0]);
    assert("chat_is_created"@[0] != "resize_keyboard"@[0]);
    assert("chat_is_created"@[0] != "inline_keyboard"@[0]);
    assert("chat_is_created"@[0] != "remove_keyboard"@[0]);
    assert("bot_is_member"@[0] != "request_title"@[0]);
    assert("bot_is_member"@[0] != "is_persistent"@[0]);
    assert("request_title"@[0] != "is_persistent"@[0]);
    assert("type"@[1] != "text"@[1]);
    assert("resize_keyboard"@[0] != "inline_keyboard"@[0]);
    assert("resize_keyboard"@[2] != "remove_keyboard"@[2]);
    assert("inline_keyboard"@[0] != "remove_keyboard"@[0]);
}

/// The button shows its label, with the emoji before it or the custom emoji
/// beside it, in the style that was asked for; a style that Telegram lacks is
/// left out.
pub open spec fn shows(
    written: Map<Seq<char>, JsonView>,
    label: Seq<char>,
    icon: Option<ButtonIcon>,
    style: ButtonStyle,
) -> bool {
    &&& json::text_in(written, "text"@) matches Some(text)
    &&& icon is None ==> text == label
    &&& icon matches Some(ButtonIcon::Custom(id)) ==> text == label && json::text_in(
        written,
        "icon_custom_emoji_id"@,
    ) == Some(id@)
    &&& icon matches Some(ButtonIcon::Emoji(emoji)) ==> text.len() == emoji@.len() + 1 + label.len()
        && text.take(emoji@.len() as int) == emoji@ && text.skip((emoji@.len() + 1) as int) == label
    &&& style is Primary ==> json::text_in(written, "style"@) == Some("primary"@)
    &&& style is Success ==> json::text_in(written, "style"@) == Some("success"@)
    &&& style is Danger ==> json::text_in(written, "style"@) == Some("danger"@)
}

proof fn lemma_face_shows(label: Seq<char>, icon: Option<ButtonIcon>, style: ButtonStyle)
    requires
        face(label, icon, style) is Ok,
    ensures
        shows(face(label, icon, style)->Ok_0, label, icon, style),
        style is Default || style is Secondary ==> json::member(
            face(label, icon, style)->Ok_0,
            "style"@,
        ) is None,
        json::member(face(label, icon, style)->Ok_0, "callback_data"@) is None,
        json::member(face(label, icon, style)->Ok_0, "url"@) is None,
        json::member(face(label, icon, style)->Ok_0, "web_app"@) is None,
        json::member(face(label, icon, style)->Ok_0, "login_url"@) is None,
        json::member(face(label, icon, style)->Ok_0, "switch_inline_query"@) is None,
        json::member(face(label, icon, style)->Ok_0, "switch_inline_query_current_chat"@) is None,
        json::member(face(label, icon, style)->Ok_0, "switch_inline_query_chosen_chat"@) is None,
        json::member(face(label, icon, style)->Ok_0, "copy_text"@) is None,
        json::member(face(label, icon, style)->Ok_0, "callback_game"@) is None,
        json::member(face(label, icon, style)->Ok_0, "pay"@) is None,
        json::member(face(label, icon, style)->Ok_0, "request_users"@) is None,
        json::member(face(label, icon, style)->Ok_0, "request_chat"@) is None,
        json::member(face(label, icon, style)->Ok_0, "request_managed_bot"@) is None,
        json::member(face(label, icon, style)->Ok_0, "request_contact"@) is None,
        json::member(face(label, icon, style)->Ok_0, "request_location"@) is None,
        json::member(face(label, icon, style)->Ok_0, "request_poll"@) is None,
{
    lemma_button_keys();
    reveal_strlit(" ");
    if let Some(ButtonIcon::Emoji(emoji)) = icon {
        let text = emoji@ + " "@ + label;
        assert(text.take(emoji@.len() as int) =~= emoji@);
        assert(text.skip((emoji@.len() + 1) as int) =~= label);
    }
}

/// A button of an inline keyboard shows what it was given and does what it
/// says and nothing else: it sends its data back, opens its address or its
/// application, logs in, starts a query here or elsewhere, copies its text,
/// opens the game or pays.
pub proof fn law_inline_buttons_do_what_they_say(button: Button, row: int, column: int)
    requires
        inline_button_outcome(button, row, column) is Ok,
        !(button.action is PlatformNative),
    ensures
        ({
            let written = inline_button_outcome(button, row, column)->Ok_0->Object_0;
            &&& inline_button_outcome(button, row, column)->Ok_0 is Object
            &&& shows(written, button.label@, button.icon, button.style)
            &&& button.style is Default || button.style is Secondary ==> json::member(
                written,
                "style"@,
            ) is None
            &&& json::text_in(written, "callback_data"@) == match button.action {
                ButtonAction::Callback { data } => Some(data@),
                _ => None,
            }
            &&& json::text_in(written, "url"@) == match button.action {
                ButtonAction::Url { url } => Some(url@),
                _ => None,
            }
            &&& button.action is WebApp <==> json::member(written, "web_app"@) is Some
            &&& button.action matches ButtonAction::WebApp { url } ==> (json::object_in(
                written,
                "web_app"@,
            ) matches Some(app) && json::text_in(app, "url"@) == Some(url@))
            &&& button.action is Login <==> json::member(written, "login_url"@) is Some
            &&& button.action matches ButtonAction::Login(login) ==> (json::object_in(
                written,
                "login_url"@,
            ) matches Some(asked) && json::text_in(asked, "url"@) == Some(login.url@)
                && json::text_in(asked, "forward_text"@) == json::optional_chars(login.forward_text)
                && json::text_in(asked, "bot_username"@) == json::optional_chars(login.bot_username)
                && (json::bool_in(asked, "request_write_access"@) == Some(true)
                <==> login.request_write_access))
            &&& json::text_in(written, "switch_inline_query"@) == match button.action {
                ButtonAction::SwitchInlineQuery { query, target: InlineQueryTarget::ChooseChat } => Some(
                    query@,
                ),
                _ => None,
            }
            &&& json::text_in(written, "switch_inline_query_current_chat"@) == match button.action {
                ButtonAction::SwitchInlineQuery { query, target: InlineQueryTarget::CurrentChat } => Some(
                    query@,
                ),
                _ => None,
            }
            &&& button.action matches ButtonAction::SwitchInlineQuery {
                query,
                target: InlineQueryTarget::ChosenChat(chosen),
            } ==> (json::object_in(written, "switch_inline_query_chosen_chat"@) matches Some(asked)
                && json::text_in(asked, "query"@) == Some(query@) && json::bool_in(
                asked,
                "allow_user_chats"@,
            ) == chosen.allow_user_chats && json::bool_in(asked, "allow_bot_chats"@)
                == chosen.allow_bot_chats && json::bool_in(asked, "allow_group_chats"@)
                == chosen.allow_group_chats && json::bool_in(asked, "allow_channel_chats"@)
                == chosen.allow_channel_chats)
            &&& button.action is CopyText <==> json::member(written, "copy_text"@) is Some
            &&& button.action matches ButtonAction::CopyText { text } ==> (json::object_in(
                written,
                "copy_text"@,
            ) matches Some(copied) && json::text_in(copied, "text"@) == Some(text@))
            &&& button.action is Game <==> json::object_in(written, "callback_game"@) is Some
            &&& button.action is Pay <==> json::bool_in(written, "pay"@) == Some(true)
        }),
{
    lemma_button_keys();
    lemma_inner_keys();
    let object = face(button.label@, button.icon, button.style)->Ok_0;
    lemma_face_shows(button.label@, button.icon, button.style);
    let all = inline_action(object, button.action, row, column)->Ok_0;
    json::lemma_stripped_member(all, "text"@);
    json::lemma_stripped_member(all, "icon_custom_emoji_id"@);
    json::lemma_stripped_member(all, "style"@);
    json::lemma_stripped_member(all, "callback_data"@);
    json::lemma_stripped_member(all, "url"@);
    json::lemma_stripped_member(all, "web_app"@);
    json::lemma_stripped_member(all, "login_url"@);
    json::lemma_stripped_member(all, "switch_inline_query"@);
    json::lemma_stripped_member(all, "switch_inline_query_current_chat"@);
    json::lemma_stripped_member(all, "switch_inline_query_chosen_chat"@);
    json::lemma_stripped_member(all, "copy_text"@);
    json::lemma_stripped_member(all, "callback_game"@);
    json::lemma_stripped_member(all, "pay"@);
    match button.action {
        ButtonAction::WebApp { url } => {
            json::lemma_stripped_member(url_object(url@)->Object_0, "url"@);
        },
        ButtonAction::Login(login) => {
            let asked = all["login_url"@]->Object_0;
            json::lemma_stripped_member(asked, "url"@);
            json::lemma_stripped_member(asked, "forward_text"@);
            json::lemma_stripped_member(asked, "bot_username"@);
            json::lemma_stripped_member(asked, "request_write_access"@);
        },
        ButtonAction::SwitchInlineQuery { query, target: InlineQueryTarget::ChosenChat(chosen) } => {
            let asked = all["switch_inline_query_chosen_chat"@]->Object_0;
            json::lemma_stripped_member(asked, "query"@);
            json::lemma_stripped_member(asked, "allow_user_chats"@);
            json::lemma_stripped_member(asked, "allow_bot_chats"@);
            json::lemma_stripped_member(asked, "allow_group_chats"@);
            json::lemma_stripped_member(asked, "allow_channel_chats"@);
        },
        ButtonAction::CopyText { text } => {
            json::lemma_stripped_member(all["copy_text"@]->Object_0, "text"@);
        },
        _ => {},
    }
}

/// A button of a reply keyboard shows what it was given and asks for what it
/// says and nothing else.
pub proof fn law_reply_buttons_ask_for_what_they_say(button: ReplyButton)
    requires
        reply_button_outcome(button) is Ok,
        !(button.action is PlatformNative),
    ensures
        ({
            let written = reply_button_outcome(button)->Ok_0->Object_0;
            &&& reply_button_outcome(button)->Ok_0 is Object
            &&& shows(written, button.label@, button.icon, button.style)
            &&& button.style is Default || button.style is Secondary ==> json::member(
                written,
                "style"@,
            ) is None
            &&& button.action is RequestContact <==> json::bool_in(written, "request_contact"@)
                == Some(true)
            &&& button.action is RequestLocation <==> json::bool_in(written, "request_location"@)
                == Some(true)
            &&& button.action is RequestPoll <==> json::object_in(written, "request_poll"@) is Some
            &&& button.action matches ReplyButtonAction::RequestPoll { kind } ==> (json::object_in(
                written,
                "request_poll"@,
            ) matches Some(asked) && json::text_in(asked, "type"@) == match kind {
                Some(PollKind::Regular) => Some("regular"@),
                Some(PollKind::Quiz) => Some("quiz"@),
                None => None,
            })
            &&& button.action is WebApp <==> json::object_in(written, "web_app"@) is Some
            &&& button.action matches ReplyButtonAction::WebApp { url } ==> (json::object_in(
                written,
                "web_app"@,
            ) matches Some(app) && json::text_in(app, "url"@) == Some(url@))
            &&& button.action is RequestUsers <==> json::object_in(written, "request_users"@) is Some
            &&& button.action matches ReplyButtonAction::RequestUsers(request) ==> (json::object_in(
                written,
                "request_users"@,
            ) matches Some(asked) && asks_for_users(asked, request))
            &&& button.action is RequestChat <==> json::object_in(written, "request_chat"@) is Some
            &&& button.action matches ReplyButtonAction::RequestChat(request) ==> (json::object_in(
                written,
                "request_chat"@,
            ) matches Some(asked) && asks_for_chat(asked, request))
            &&& button.action is RequestManagedBot <==> json::object_in(
                written,
                "request_managed_bot"@,
            ) is Some
            &&& button.action matches ReplyButtonAction::RequestManagedBot(request) ==> (
            json::object_in(written, "request_managed_bot"@) matches Some(asked) && json::i64_in(
                asked,
                "request_id"@,
            ) == Some(request.request_id as i64) && json::text_in(asked, "suggested_name"@)
                == json::optional_chars(request.suggested_name) && json::text_in(
                asked,
                "suggested_username"@,
            ) == json::optional_chars(request.suggested_username))
        }),
{
    lemma_button_keys();
    lemma_inner_keys();
    let object = face(button.label@, button.icon, button.style)->Ok_0;
    lemma_face_shows(button.label@, button.icon, button.style);
    let all = reply_action(object, button.action)->Ok_0;
    json::lemma_stripped_member(all, "text"@);
    json::lemma_stripped_member(all, "icon_custom_emoji_id"@);
    json::lemma_stripped_member(all, "style"@);
    json::lemma_stripped_member(all, "request_users"@);
    json::lemma_stripped_member(all, "request_chat"@);
    json::lemma_stripped_member(all, "request_managed_bot"@);
    json::lemma_stripped_member(all, "request_contact"@);
    json::lemma_stripped_member(all, "request_location"@);
    json::lemma_stripped_member(all, "request_poll"@);
    json::lemma_stripped_member(all, "web_app"@);
    match button.action {
        ReplyButtonAction::RequestPoll { kind } => {
            json::lemma_stripped_member(all["request_poll"@]->Object_0, "type"@);
        },
        ReplyButtonAction::WebApp { url } => {
            json::lemma_stripped_member(url_object(url@)->Object_0, "url"@);
        },
        ReplyButtonAction::RequestUsers(request) => lemma_users_asked(request),
        ReplyButtonAction::RequestChat(request) => lemma_chat_asked(request),
        ReplyButtonAction::RequestManagedBot(request) => {
            let asked = all["request_managed_bot"@]->Object_0;
            json::lemma_stripped_member(asked, "request_id"@);
            json::lemma_stripped_member(asked, "suggested_name"@);
            json::lemma_stripped_member(asked, "suggested_username"@);
        },
        _ => {},
    }
}

/// The object asks for the users that the request describes.
pub open spec fn asks_for_users(asked: Map<Seq<char>, JsonView>, request: RequestUsers) -> bool {
    &&& json::i64_in(asked, "request_id"@) == Some(request.request_id as i64)
    &&& json::bool_in(asked, "user_is_bot"@) == request.user_is_bot
    &&& json::bool_in(asked, "user_is_premium"@) == request.user_is_premium
    &&& request.max_quantity matches Some(most) ==> json::u64_in(asked, "max_quantity"@) == Some(
        most as u64,
    )
    &&& json::bool_in(asked, "request_name"@) == Some(true) <==> request.request_name
    &&& json::bool_in(asked, "request_username"@) == Some(true) <==> request.request_username
    &&& json::bool_in(asked, "request_photo"@) == Some(true) <==> request.request_photo
}

/// The object asks for the chat that the request describes.
pub open spec fn asks_for_chat(asked: Map<Seq<char>, JsonView>, request: RequestChat) -> bool {
    &&& json::i64_in(asked, "request_id"@) == Some(request.request_id as i64)
    &&& json::bool_in(asked, "chat_is_channel"@) == Some(request.chat_is_channel)
    &&& request.chat_is_forum is Some ==> json::bool_in(asked, "chat_is_forum"@)
        == request.chat_is_forum
    &&& request.chat_has_username is Some ==> json::bool_in(asked, "chat_has_username"@)
        == request.chat_has_username
    &&& request.chat_is_created is Some ==> json::bool_in(asked, "chat_is_created"@)
        == request.chat_is_created
    &&& request.bot_is_member ==> json::bool_in(asked, "bot_is_member"@) == Some(true)
    &&& request.request_title ==> json::bool_in(asked, "request_title"@) == Some(true)
    &&& request.request_username ==> json::bool_in(asked, "request_username"@) == Some(true)
    &&& request.request_photo ==> json::bool_in(asked, "request_photo"@) == Some(true)
    &&& request.platform_data is None ==> {
        &&& json::bool_in(asked, "chat_is_forum"@) == request.chat_is_forum
        &&& json::bool_in(asked, "chat_has_username"@) == request.chat_has_username
        &&& json::bool_in(asked, "chat_is_created"@) == request.chat_is_created
        &&& !request.bot_is_member ==> json::member(asked, "bot_is_member"@) is None
        &&& !request.request_title ==> json::member(asked, "request_title"@) is None
        &&& !request.request_username ==> json::member(asked, "request_username"@) is None
        &&& !request.request_photo ==> json::member(asked, "request_photo"@) is None
    }
}

proof fn lemma_users_asked(request: RequestUsers)
    ensures
        json::stripped(request_users_view(request)) is Object,
        asks_for_users(json::stripped(request_users_view(request))->Object_0, request),
{
    lemma_inner_keys();
    let asked = request_users_view(request)->Object_0;
    json::lemma_stripped_member(asked, "request_id"@);
    json::lemma_stripped_member(asked, "user_is_bot"@);
    json::lemma_stripped_member(asked, "user_is_premium"@);
    json::lemma_stripped_member(asked, "max_quantity"@);
    json::lemma_stripped_member(asked, "request_name"@);
    json::lemma_stripped_member(asked, "request_username"@);
    json::lemma_stripped_member(asked, "request_photo"@);
}

proof fn lemma_chat_asked(request: RequestChat)
    requires
        request_chat_outcome(request) is Ok,
    ensures
        json::stripped(request_chat_outcome(request)->Ok_0) is Object,
        asks_for_chat(json::stripped(request_chat_outcome(request)->Ok_0)->Object_0, request),
{
    lemma_inner_keys();
    let fields = request_chat_fields(request);
    let own = json::stripped(JsonView::Object(fields))->Object_0;
    let asked = request_chat_outcome(request)->Ok_0->Object_0;
    json::lemma_stripped_member(fields, "request_id"@);
    native::lemma_optional_keeps(own, request.platform_data, "request-chat criteria"@, "request_id"@);
    json::lemma_stripped_member(asked, "request_id"@);
    json::lemma_stripped_member(fields, "chat_is_channel"@);
    native::lemma_optional_keeps(own, request.platform_data, "request-chat criteria"@, "chat_is_channel"@);
    json::lemma_stripped_member(asked, "chat_is_channel"@);
    json::lemma_stripped_member(fields, "chat_is_forum"@);
    native::lemma_optional_keeps(own, request.platform_data, "request-chat criteria"@, "chat_is_forum"@);
    json::lemma_stripped_member(asked, "chat_is_forum"@);
    json::lemma_stripped_member(fields, "chat_has_username"@);
    native::lemma_optional_keeps(own, request.platform_data, "request-chat criteria"@, "chat_has_username"@);
    json::lemma_stripped_member(asked, "chat_has_username"@);
    json::lemma_stripped_member(fields, "chat_is_created"@);
    native::lemma_optional_keeps(own, request.platform_data, "request-chat criteria"@, "chat_is_created"@);
    json::lemma_stripped_member(asked, "chat_is_created"@);
    json::lemma_stripped_member(fields, "bot_is_member"@);
    native::lemma_optional_keeps(own, request.platform_data, "request-chat criteria"@, "bot_is_member"@);
    json::lemma_stripped_member(asked, "bot_is_member"@);
    json::lemma_stripped_member(fields, "request_title"@);
    native::lemma_optional_keeps(own, request.platform_data, "request-chat criteria"@, "request_title"@);
    json::lemma_stripped_member(asked, "request_title"@);
    json::lemma_stripped_member(fields, "request_username"@);
    native::lemma_optional_keeps(own, request.platform_data, "request-chat criteria"@, "request_username"@);
    json::lemma_stripped_member(asked, "request_username"@);
    json::lemma_stripped_member(fields, "request_photo"@);
    native::lemma_optional_keeps(own, request.platform_data, "request-chat criteria"@, "request_photo"@);
    json::lemma_stripped_member(asked, "request_photo"@);
}

/// What is put under a message is what was asked for and nothing else: an
/// inline keyboard, a reply keyboard with its settings, the removal of one, or
/// the wish for a reply.
pub proof fn law_components_are_what_they_are(components: MessageComponents)
    requires
        message_components_outcome(components) is Ok,
        !(components is PlatformNative),
    ensures
        ({
            let written = message_components_outcome(components)->Ok_0->Object_0;
            &&& message_components_outcome(components)->Ok_0 is Object
            &&& components is InlineKeyboard <==> json::member(written, "inline_keyboard"@) is Some
            &&& components is ReplyKeyboard <==> json::member(written, "keyboard"@) is Some
            &&& components is RemoveReplyKeyboard <==> json::bool_in(written, "remove_keyboard"@)
                == Some(true)
            &&& components is ForceReply <==> json::bool_in(written, "force_reply"@) == Some(true)
            &&& components matches MessageComponents::InlineKeyboard(keyboard) ==> (json::array_in(
                written,
                "inline_keyboard"@,
            ) matches Some(rows) && rows.len() == keyboard.rows@.len())
            &&& components matches MessageComponents::ReplyKeyboard(keyboard) ==> {
                &&& json::array_in(written, "keyboard"@) matches Some(rows)
                &&& rows.len() == keyboard.rows@.len()
                &&& json::bool_in(written, "is_persistent"@) == Some(true) <==> keyboard.persistent
                &&& json::bool_in(written, "resize_keyboard"@) == Some(true) <==> keyboard.resize
                &&& json::bool_in(written, "one_time_keyboard"@) == Some(true) <==> keyboard.one_time
                &&& json::bool_in(written, "selective"@) == Some(true) <==> keyboard.selective
                &&& json::text_in(written, "input_field_placeholder"@) == json::optional_chars(
                    keyboard.input_field_placeholder,
                )
            }
            &&& components matches MessageComponents::RemoveReplyKeyboard { selective } ==> (
            json::bool_in(written, "selective"@) == Some(true) <==> selective)
            &&& components matches MessageComponents::ForceReply { input_field_placeholder, selective } ==> (
            json::bool_in(written, "selective"@) == Some(true) <==> selective) && json::text_in(
                written,
                "input_field_placeholder"@,
            ) == json::optional_chars(input_field_placeholder)
        }),
{
    lemma_inner_keys();
    match components {
        MessageComponents::InlineKeyboard(keyboard) => {
            let rows = inline_keyboard_outcome(keyboard)->Ok_0;
            list::lemma_collect_ok(keyboard.rows@, inline_rows());
            json::lemma_stripped_item(rows, 0);
            let all = json::no_fields().insert("inline_keyboard"@, JsonView::Array(rows));
            json::lemma_stripped_member(all, "inline_keyboard"@);
            json::lemma_stripped_member(all, "keyboard"@);
            json::lemma_stripped_member(all, "remove_keyboard"@);
            json::lemma_stripped_member(all, "force_reply"@);
        },
        MessageComponents::ReplyKeyboard(keyboard) => {
            let rows = list::collect(keyboard.rows@, reply_rows())->Ok_0;
            list::lemma_collect_ok(keyboard.rows@, reply_rows());
            json::lemma_stripped_item(rows, 0);
            let all = json::no_fields().insert("keyboard"@, JsonView::Array(rows)).insert(
                "is_persistent"@,
                json::flag_view(keyboard.persistent),
            ).insert("resize_keyboard"@, json::flag_view(keyboard.resize)).insert(
                "one_time_keyboard"@,
                json::flag_view(keyboard.one_time),
            ).insert(
                "input_field_placeholder"@,
                json::optional_text_view(keyboard.input_field_placeholder),
            ).insert("selective"@, json::flag_view(keyboard.selective));
            let once = json::stripped(JsonView::Object(all))->Object_0;
            json::law_stripped_is_clean(JsonView::Object(all));
            json::law_clean_documents_stay(json::stripped(JsonView::Object(all)));
            json::lemma_stripped_member(all, "inline_keyboard"@);
            json::lemma_stripped_member(once, "inline_keyboard"@);
            json::lemma_stripped_member(all, "keyboard"@);
            json::lemma_stripped_member(once, "keyboard"@);
            json::lemma_stripped_member(all, "remove_keyboard"@);
            json::lemma_stripped_member(once, "remove_keyboard"@);
            json::lemma_stripped_member(all, "force_reply"@);
            json::lemma_stripped_member(once, "force_reply"@);
            json::lemma_stripped_member(all, "is_persistent"@);
            json::lemma_stripped_member(once, "is_persistent"@);
            json::lemma_stripped_member(all, "resize_keyboard"@);
            json::lemma_stripped_member(once, "resize_keyboard"@);
            json::lemma_stripped_member(all, "one_time_keyboard"@);
            json::lemma_stripped_member(once, "one_time_keyboard"@);
            json::lemma_stripped_member(all, "input_field_placeholder"@);
            json::lemma_stripped_member(once, "input_field_placeholder"@);
            json::lemma_stripped_member(all, "selective"@);
            json::lemma_stripped_member(once, "selective"@);
        },
        MessageComponents::RemoveReplyKeyboard { selective } => {
            let all = json::no_fields().insert("remove_keyboard"@, JsonView::Bool(true)).insert(
                "selective"@,
                json::flag_view(selective),
            );
            json::lemma_stripped_member(all, "inline_keyboard"@);
            json::lemma_stripped_member(all, "keyboard"@);
            json::lemma_stripped_member(all, "remove_keyboard"@);
            json::lemma_stripped_member(all, "force_reply"@);
            json::lemma_stripped_member(all, "selective"@);
        },
        MessageComponents::ForceReply { input_field_placeholder, selective } => {
            let all = json::no_fields().insert("force_reply"@, JsonView::Bool(true)).insert(
                "input_field_placeholder"@,
                json::optional_text_view(input_field_placeholder),
            ).insert("selective"@, json::flag_view(selective));
            json::lemma_stripped_member(all, "inline_keyboard"@);
            json::lemma_stripped_member(all, "keyboard"@);
            json::lemma_stripped_member(all, "remove_keyboard"@);
            json::lemma_stripped_member(all, "force_reply"@);
            json::lemma_stripped_member(all, "selective"@);
            json::lemma_stripped_member(all, "input_field_placeholder"@);
        },
        _ => {},
    }
}

/// The buttons of a keyboard stand where they were put: that in row `i` and
/// column `j` is the button of that place.
pub proof fn law_buttons_stand_in_their_place(keyboard: InlineKeyboard, i: int, j: int)
    requires
        inline_keyboard_outcome(keyboard) is Ok,
        0 <= i < keyboard.rows@.len(),
        0 <= j < keyboard.rows@[i].components@.len(),
        keyboard.rows@[i].components@[j] is Button,
    ensures
        inline_keyboard_outcome(keyboard)->Ok_0[i] matches JsonView::Array(buttons)
            && inline_button_outcome(keyboard.rows@[i].components@[j]->Button_0, i, j) == Ok::<
            JsonView,
            ErrorView,
        >(buttons[j]),
{
    list::lemma_collect_ok(keyboard.rows@, inline_rows());
    let rows = inline_keyboard_outcome(keyboard)->Ok_0;
    assert(inline_rows()(i, keyboard.rows@[i]) == Ok::<JsonView, ErrorView>(rows[i]));
    let components = keyboard.rows@[i].components@;
    list::lemma_collect_ok(components, inline_components(i));
    let buttons = rows[i]->Array_0;
    assert(inline_components(i)(j, components[j]) == Ok::<JsonView, ErrorView>(buttons[j]));
}

/// Only inline keyboards can be changed, and they are changed to what they
/// would be sent as.
pub proof fn law_keyboards_are_edited_as_sent(components: MessageComponents)
    ensures
        editable_components_outcome(components) is Ok ==> components is InlineKeyboard
            || components is PlatformNative,
        components is InlineKeyboard ==> (editable_components_outcome(components) is Ok
            <==> message_components_outcome(components) is Ok),
        components is InlineKeyboard && editable_components_outcome(components) is Ok
            ==> message_components_outcome(components) == Ok::<JsonView, ErrorView>(
            json::stripped(editable_components_outcome(components)->Ok_0),
        ),
{
}

/// A button is refused only for cause: an empty label or icon, being switched
/// off, data or a text that is too long, an address that is none, or standing
/// in the wrong place.
pub proof fn law_buttons_are_refused_only_for_cause(button: Button, row: int, column: int)
    requires
        button.label@.len() > 0,
        !button.disabled,
        button.icon matches Some(ButtonIcon::Emoji(emoji)) ==> emoji@.len() > 0,
        button.icon matches Some(ButtonIcon::Custom(id)) ==> id@.len() > 0,
    ensures
        button.action matches ButtonAction::Callback { data } ==> (inline_button_outcome(
            button,
            row,
            column,
        ) is Ok <==> 1 <= vstd::utf8::encode_utf8(data@).len() <= 64),
        button.action matches ButtonAction::CopyText { text } ==> (inline_button_outcome(
            button,
            row,
            column,
        ) is Ok <==> 1 <= text@.len() <= 256),
        button.action is SwitchInlineQuery ==> inline_button_outcome(button, row, column) is Ok,
        button.action is Pay || button.action is Game ==> (inline_button_outcome(
            button,
            row,
            column,
        ) is Ok <==> row == 0 && column == 0),
        button.action matches ButtonAction::Url { url } ==> (inline_button_outcome(
            button,
            row,
            column,
        ) is Ok <==> uri::button_url_outcome(uri::parsed(url@)) is Ok),
{
}

/// A placeholder may hold one to sixty-four characters, and a button may ask
/// for one to ten users.
pub proof fn law_placeholders_and_quantities_have_limits(
    placeholder: Seq<char>,
    context: Seq<char>,
    object: Map<Seq<char>, JsonView>,
    request: RequestUsers,
)
    ensures
        placeholder_outcome(Some(placeholder), context) is Ok <==> 1 <= placeholder.len() <= 64,
        placeholder_outcome(None, context) is Ok,
        reply_action(object, ReplyButtonAction::RequestUsers(request)) is Ok <==> (
        request.max_quantity matches Some(n) ==> 1 <= n <= 10),
{
}

} // verus!
