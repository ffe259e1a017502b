//! Calls about bot commands, chat menus and surfaces.
use crate::api::address;
use crate::api::address::root_conversation;
use crate::api::commands;
use crate::api::commands::{
    optional_private_chat_id, telegram_chat_menu, telegram_command_scope,
    telegram_commands_for_locale, telegram_definition_scope, validate_commands,
    validate_language_code,
};
use crate::api::keyboard;
use crate::api::request;
use crate::api::request::{make_call, Plan, PlanView, Request, RequestView};
use crate::application::{
    AppSurface, AppSurfaceKind, BotCommand, BotCommandQuery, BotCommandSet, ChatMenu,
    CommandContext, CommandDefinition, CommandKind, CommandScope, Localized, SurfaceContent,
};
use crate::conversation::ConversationRef;
use crate::error;
use crate::error::{message, unsupported, Error, ErrorView};
use crate::json;
use crate::json::{Fields, Json, JsonView, TextMap};
use crate::native;
use crate::text;
use crate::uri;
use vstd::prelude::*;

verus! {

// ---------------------------------------------------------------------------
// Commands
// ---------------------------------------------------------------------------

/// A command of a menu.
pub open spec fn command_view(name: Seq<char>, description: Seq<char>, ephemeral: bool) -> JsonView {
    JsonView::Object(
        json::no_fields().insert("command"@, JsonView::Text(name)).insert(
            "description"@,
            JsonView::Text(description),
        ).insert("is_ephemeral"@, JsonView::Bool(ephemeral)),
    )
}

/// A list of commands.
pub open spec fn commands_view(commands: Seq<BotCommand>) -> Seq<JsonView> {
    Seq::new(
        commands.len(),
        |i: int|
            command_view(
                commands[i].command@,
                commands[i].description@,
                commands[i].is_ephemeral,
            ),
    )
}

fn write_commands(commands: &Vec<BotCommand>) -> (list: Vec<Json>)
    ensures
        json::views(list@) == commands_view(commands@),
{
    let mut list: Vec<Json> = Vec::new();
    let mut i: usize = 0;
    while i < commands.len()
        invariant
            i <= commands@.len(),
            list@.len() == i,
            forall|k: int| 0 <= k < i ==> (#[trigger] list@[k])@ == commands_view(commands@)[k],
        decreases commands@.len() - i,
    {
        let command: &BotCommand = &commands[i];
        let mut object = Fields::none();
        object.put("command", Json::text(command.command.as_str()));
        object.put("description", Json::text(command.description.as_str()));
        object.put("is_ephemeral", Json::bool(command.is_ephemeral));
        list.push(Json::object(object));
        i += 1;
    }
    assert(json::views(list@) =~= commands_view(commands@));
    list
}

/// The parameters that name a set of commands.
pub open spec fn scope_payload(scope: JsonView, language: Option<Seq<char>>) -> Map<
    Seq<char>,
    JsonView,
> {
    json::no_fields().insert("scope"@, scope).insert(
        "language_code"@,
        match language {
            Some(language) => JsonView::Text(language),
            None => JsonView::Null,
        },
    )
}

fn write_scope_payload(scope: Json, language: &Option<String>) -> (payload: Fields)
    ensures
        json::fields(payload) == scope_payload(scope@, json::optional_chars(*language)),
{
    let mut payload = Fields::none();
    payload.put("scope", scope);
    payload.put("language_code", Json::optional_text(language));
    payload
}

/// The call that sets a list of commands.
pub open spec fn set_commands_call(
    commands: Seq<JsonView>,
    scope: JsonView,
    language: Option<Seq<char>>,
) -> RequestView {
    request::call(
        "setMyCommands"@,
        scope_payload(scope, language).insert("commands"@, JsonView::Array(commands)),
    )
}

/// The call that sets a set of commands.
pub open spec fn set_commands_outcome(set: BotCommandSet) -> Result<RequestView, ErrorView> {
    match commands::commands_rule(set.commands@, set.commands@.len() as int) {
        Err(e) => Err(e),
        Ok(_) => match commands::language_code_outcome(json::optional_chars(set.language_code)) {
            Err(e) => Err(e),
            Ok(_) => if set.commands@.len() > 100 {
                error::refused("Telegram supports at most 100 bot commands per scope"@)
            } else {
                match commands::command_scope_outcome(set.scope) {
                    Err(e) => Err(e),
                    Ok(scope) => Ok(
                        set_commands_call(
                            commands_view(set.commands@),
                            scope,
                            json::optional_chars(set.language_code),
                        ),
                    ),
                }
            },
        },
    }
}

/// The call that sets a set of commands.
pub fn set_bot_commands(set: &BotCommandSet) -> (result: Result<Request, Error>)
    ensures
        error::shown(result) == set_commands_outcome(*set),
{
    validate_commands(&set.commands)?;
    validate_language_code(&set.language_code)?;
    if set.commands.len() > 100 {
        return Err(message("Telegram supports at most 100 bot commands per scope"));
    }
    let list = write_commands(&set.commands);
    let scope = telegram_command_scope(&set.scope)?;
    let mut payload = write_scope_payload(scope, &set.language_code);
    payload.put("commands", Json::array(list));
    Ok(make_call("setMyCommands", payload))
}

/// A call about the commands that a query names.
pub open spec fn query_outcome(method: Seq<char>, query: BotCommandQuery) -> Result<
    RequestView,
    ErrorView,
> {
    match commands::language_code_outcome(json::optional_chars(query.language_code)) {
        Err(e) => Err(e),
        Ok(_) => match commands::command_scope_outcome(query.scope) {
            Err(e) => Err(e),
            Ok(scope) => Ok(
                request::call(
                    method,
                    scope_payload(scope, json::optional_chars(query.language_code)),
                ),
            ),
        },
    }
}

fn query_call(method: &str, query: &BotCommandQuery) -> (result: Result<Request, Error>)
    ensures
        error::shown(result) == query_outcome(method@, *query),
{
    validate_language_code(&query.language_code)?;
    let scope = telegram_command_scope(&query.scope)?;
    let payload = write_scope_payload(scope, &query.language_code);
    Ok(make_call(method, payload))
}

/// The call that asks for commands.
pub fn get_bot_commands(query: &BotCommandQuery) -> (result: Result<Request, Error>)
    ensures
        error::shown(result) == query_outcome("getMyCommands"@, *query),
{
    query_call("getMyCommands", query)
}

/// The call that deletes commands.
pub fn delete_bot_commands(query: &BotCommandQuery) -> (result: Result<Request, Error>)
    ensures
        error::shown(result) == query_outcome("deleteMyCommands"@, *query),
{
    query_call("deleteMyCommands", query)
}

// ---------------------------------------------------------------------------
// Definitions
// ---------------------------------------------------------------------------

/// A definition that a menu can hold.
pub open spec fn is_menu_definition(definition: CommandDefinition) -> bool {
    &&& definition.kind is ChatInput
    &&& definition.options == 0
    &&& !definition.has_default_permissions
    &&& definition.platform_data is None
}

/// The definition has a translation for the locale.
pub open spec fn translates(definition: CommandDefinition, locale: Seq<char>) -> bool {
    definition.name.translations@.contains_key(locale)
        || definition.description.translations@.contains_key(locale)
}

/// The locales for which the first `n` definitions have translations.
pub open spec fn locales(definitions: Seq<CommandDefinition>, n: int) -> Set<Seq<char>> {
    Set::new(
        |locale: Seq<char>|
            exists|i: int| 0 <= i < n && translates(#[trigger] definitions[i], locale),
    )
}

/// The scope that a set of commands has on Telegram, by its contexts.
pub open spec fn definition_scope_view(contexts: Set<commands::ContextKind>) -> JsonView {
    JsonView::Object(
        commands::typed_object(
            if contexts == set![commands::ContextKind::Direct] {
                "all_private_chats"@
            } else if contexts == set![commands::ContextKind::Administrator] {
                "all_chat_administrators"@
            } else if contexts != Set::<commands::ContextKind>::empty() && contexts.subset_of(
                set![commands::ContextKind::Group, commands::ContextKind::Channel],
            ) {
                "all_group_chats"@
            } else {
                "default"@
            },
        ),
    )
}

/// The definitions as commands in the given locale.
pub open spec fn localized_view(
    definitions: Seq<CommandDefinition>,
    locale: Option<Seq<char>>,
) -> Seq<JsonView> {
    Seq::new(
        definitions.len(),
        |i: int|
            command_view(
                commands::localized(definitions[i].name, locale),
                commands::localized(definitions[i].description, locale),
                definitions[i].ephemeral,
            ),
    )
}

/// The call that sets the commands of one locale.
pub open spec fn locale_outcome(
    definitions: Seq<CommandDefinition>,
    locale: Option<Seq<char>>,
) -> Result<RequestView, ErrorView> {
    match commands::definitions_rule(definitions, locale, definitions.len() as int) {
        Err(e) => Err(e),
        Ok(_) => match commands::language_code_outcome(locale) {
            Err(e) => Err(e),
            Ok(_) => if definitions.len() > 100 {
                error::refused("Telegram supports at most 100 bot commands per scope"@)
            } else {
                Ok(
                    set_commands_call(
                        localized_view(definitions, locale),
                        definition_scope_view(commands::shared_contexts(definitions)),
                        locale,
                    ),
                )
            },
        },
    }
}

/// The calls for no locale and the first `n` locales, up to the first for
/// which there is none.
pub open spec fn locale_calls(
    definitions: Seq<CommandDefinition>,
    names: Seq<Seq<char>>,
    n: int,
) -> PlanView
    decreases n + 1,
{
    let (before, locale) = if n <= 0 {
        (PlanView { requests: Seq::empty(), failure: None }, None)
    } else {
        (locale_calls(definitions, names, n - 1), Some(names[n - 1]))
    };
    if before.failure is Some {
        before
    } else {
        match locale_outcome(definitions, locale) {
            Ok(call) => PlanView { requests: before.requests.push(call), failure: None },
            Err(e) => PlanView { requests: before.requests, failure: Some(e) },
        }
    }
}

proof fn lemma_locales_failed(
    definitions: Seq<CommandDefinition>,
    names: Seq<Seq<char>>,
    n: int,
    m: int,
)
    requires
        locale_calls(definitions, names, n).failure is Some,
        0 <= n <= m,
    ensures
        locale_calls(definitions, names, m) == locale_calls(definitions, names, n),
    decreases m - n,
{
    if n < m {
        lemma_locales_failed(definitions, names, n, m - 1);
    }
}

/// The calls that set commands in every language for which they are
/// translated: first without a language, then by locale in order.
pub open spec fn definitions_outcome(definitions: Seq<CommandDefinition>) -> Result<
    PlanView,
    ErrorView,
> {
    if exists|i: int| 0 <= i < definitions.len() && !is_menu_definition(#[trigger] definitions[i]) {
        error::refused(
            "Telegram command menus cannot register typed options, targets, or default permissions"@,
        )
    } else {
        match commands::scope_flaw(definitions) {
            Some(e) => Err(e),
            None => {
                let names = json::sorted_keys(locales(definitions, definitions.len() as int));
                Ok(locale_calls(definitions, names, names.len() as int))
            },
        }
    }
}

fn is_menu_command(definition: &CommandDefinition) -> (result: bool)
    ensures
        result == is_menu_definition(*definition),
{
    let input = match &definition.kind {
        CommandKind::ChatInput => true,
        _ => false,
    };
    input && definition.options == 0 && !definition.has_default_permissions
        && definition.platform_data.is_none()
}

/// Adds the keys of a map to a set.
fn add_keys(names: TextMap<()>, translations: &TextMap<String>) -> (result: TextMap<()>)
    ensures
        result@.dom() == names@.dom().union(translations@.dom()),
{
    let ghost start = names@.dom();
    let ghost keys = translations.keys();
    let mut names = names;
    let n: usize = translations.len();
    let mut i: usize = 0;
    while i < n
        invariant
            i <= n,
            n == keys.len(),
            keys == translations.keys(),
            json::lists_keys(keys, translations@.dom()),
            forall|k: Seq<char>| #[trigger]
                names@.dom().contains(k) <==> start.contains(k) || exists|j: int|
                    0 <= j < i && #[trigger] keys[j] == k,
        decreases n - i,
    {
        let (key, _) = translations.entry(i);
        let ghost before = names@.dom();
        names.insert(key, ());
        proof {
            assert forall|k: Seq<char>| #[trigger]
                names@.dom().contains(k) <==> start.contains(k) || exists|j: int|
                0 <= j < i + 1 && #[trigger] keys[j] == k by {
                if k == key@ {
                    assert(keys[i as int] == k);
                } else {
                    assert(names@.dom().contains(k) == before.contains(k));
                    if exists|j: int| 0 <= j < i + 1 && #[trigger] keys[j] == k {
                        let j = choose|j: int| 0 <= j < i + 1 && #[trigger] keys[j] == k;
                        assert(j < i);
                    }
                }
            }
        }
        i += 1;
    }
    proof {
        assert forall|k: Seq<char>| names@.dom().contains(k) == start.union(
            translations@.dom(),
        ).contains(k) by {
            if translations@.dom().contains(k) {
                let j = choose|j: int| 0 <= j < keys.len() && #[trigger] keys[j] == k;
                assert(keys[j] == k);
            }
            if exists|j: int| 0 <= j < n && #[trigger] keys[j] == k {
                let j = choose|j: int| 0 <= j < n && #[trigger] keys[j] == k;
                assert(translations@.dom().contains(keys[j]));
            }
        }
        assert(names@.dom() =~= start.union(translations@.dom()));
    }
    names
}

fn locale_call(
    definitions: &Vec<CommandDefinition>,
    locale: &Option<String>,
    scope: &CommandScope,
) -> (result: Result<Request, Error>)
    requires
        commands::is_definition_scope(*scope, commands::shared_contexts(definitions@)),
    ensures
        error::shown(result) == locale_outcome(definitions@, json::optional_chars(*locale)),
{
    let list = telegram_commands_for_locale(definitions, locale)?;
    validate_language_code(locale)?;
    if list.len() > 100 {
        return Err(message("Telegram supports at most 100 bot commands per scope"));
    }
    proof {
        assert(commands_view(list@) =~= localized_view(
            definitions@,
            json::optional_chars(*locale),
        )) by {
            assert forall|i: int| 0 <= i < list@.len() implies #[trigger] commands_view(list@)[i]
                == localized_view(definitions@, json::optional_chars(*locale))[i] by {
                assert(commands::is_localized_command(
                    list@[i],
                    definitions@[i],
                    json::optional_chars(*locale),
                ));
            }
        }
    }
    let scope = telegram_command_scope(scope)?;
    let mut payload = write_scope_payload(scope, locale);
    payload.put("commands", Json::array(write_commands(&list)));
    Ok(make_call("setMyCommands", payload))
}

/// The calls that set commands in every language for which they are
/// translated.
pub fn set_command_definitions(definitions: &Vec<CommandDefinition>) -> (result: Result<
    Plan,
    Error,
>)
    ensures
        error::shown(result) == definitions_outcome(definitions@),
{
    let mut names: TextMap<()> = TextMap::new();
    let mut i: usize = 0;
    assert(names@.dom() =~= locales(definitions@, 0));
    while i < definitions.len()
        invariant
            i <= definitions@.len(),
            forall|j: int| 0 <= j < i ==> is_menu_definition(#[trigger] definitions@[j]),
            names@.dom() == locales(definitions@, i as int),
        decreases definitions@.len() - i,
    {
        let definition: &CommandDefinition = &definitions[i];
        if !is_menu_command(definition) {
            assert(!is_menu_definition(definitions@[i as int]));
            return Err(
                message(
                    "Telegram command menus cannot register typed options, targets, or default permissions",
                ),
            );
        }
        names = add_keys(names, &definition.name.translations);
        names = add_keys(names, &definition.description.translations);
        proof {
            let before = locales(definitions@, i as int);
            let after = locales(definitions@, i + 1);
            assert forall|k: Seq<char>| names@.dom().contains(k) == after.contains(k) by {
                if before.contains(k) {
                    let j = choose|j: int| 0 <= j < i && translates(#[trigger] definitions@[j], k);
                    assert(translates(definitions@[j], k));
                }
                if translates(definitions@[i as int], k) {
                    assert(after.contains(k));
                }
                if after.contains(k) {
                    let j = choose|j: int|
                        0 <= j < i + 1 && translates(#[trigger] definitions@[j], k);
                    if j < i {
                        assert(before.contains(k));
                    }
                }
            }
            assert(names@.dom() =~= after);
        }
        i += 1;
    }
    let scope = telegram_definition_scope(definitions)?;
    let ghost listed = names.keys();
    let n: usize = names.len();
    proof {
        json::lemma_sorted_keys(listed, names@.dom());
    }
    let mut requests: Vec<Request> = Vec::new();
    assert(request::calls(requests@) =~= Seq::empty());
    match locale_call(definitions, &None, &scope) {
        Ok(call) => {
            let ghost shown = call@;
            requests.push(call);
            assert(request::calls(requests@) =~= Seq::empty().push(shown));
        },
        Err(e) => {
            proof {
                lemma_locales_failed(definitions@, listed, 0, listed.len() as int);
            }
            return Ok(Plan { requests, failure: Some(e) });
        },
    }
    let mut i: usize = 0;
    while i < n
        invariant
            i <= n,
            n == listed.len(),
            listed == names.keys(),
            json::lists_keys(listed, names@.dom()),
            json::sorted_keys(locales(definitions@, definitions@.len() as int)) == listed,
            commands::scope_flaw(definitions@) is None,
            commands::is_definition_scope(scope, commands::shared_contexts(definitions@)),
            forall|j: int|
                0 <= j < definitions@.len() ==> is_menu_definition(#[trigger] definitions@[j]),
            locale_calls(definitions@, listed, i as int) == (PlanView {
                requests: request::calls(requests@),
                failure: None,
            }),
        decreases n - i,
    {
        let (name, _) = names.entry(i);
        let locale: Option<String> = Some(name.to_owned());
        match locale_call(definitions, &locale, &scope) {
            Ok(call) => {
                let ghost before = request::calls(requests@);
                let ghost shown = call@;
                requests.push(call);
                assert(request::calls(requests@) =~= before.push(shown));
            },
            Err(e) => {
                proof {
                    lemma_locales_failed(definitions@, listed, i + 1, listed.len() as int);
                }
                return Ok(Plan { requests, failure: Some(e) });
            },
        }
        i += 1;
    }
    Ok(Plan { requests, failure: None })
}

/// The scope of a chat, or of all chats.
pub open spec fn is_conversation_scope(
    scope: CommandScope,
    conversation: Option<ConversationRef>,
) -> bool {
    match conversation {
        Some(conversation) => scope matches CommandScope::Chat { chat_id } && chat_id@
            == address::root(conversation).id@,
        None => scope is Default,
    }
}

/// The query for the commands of a conversation.
pub fn definitions_query(conversation: &Option<ConversationRef>) -> (query: BotCommandQuery)
    ensures
        is_conversation_scope(query.scope, *conversation),
        query.language_code is None,
{
    let scope = match conversation {
        Some(conversation) => CommandScope::Chat {
            chat_id: root_conversation(conversation).id.clone(),
        },
        None => CommandScope::Default,
    };
    BotCommandQuery { scope, language_code: None }
}

/// A call about the commands of a conversation.
pub open spec fn conversation_commands(
    method: Seq<char>,
    conversation: Option<ConversationRef>,
) -> RequestView {
    let scope = match conversation {
        Some(conversation) => commands::typed_object("chat"@).insert(
            "chat_id"@,
            address::chat_id_view(address::root(conversation).id@),
        ),
        None => commands::typed_object("default"@),
    };
    request::call(method, scope_payload(JsonView::Object(scope), None))
}

/// The call that asks for the commands of a conversation.
pub fn get_command_definitions(conversation: &Option<ConversationRef>) -> (result: Result<
    Request,
    Error,
>)
    ensures
        error::shown(result) == Ok::<RequestView, ErrorView>(
            conversation_commands("getMyCommands"@, *conversation),
        ),
{
    get_bot_commands(&definitions_query(conversation))
}

/// The call that deletes the commands of a conversation.
pub fn delete_command_definitions(conversation: &Option<ConversationRef>) -> (result: Result<
    Request,
    Error,
>)
    ensures
        error::shown(result) == Ok::<RequestView, ErrorView>(
            conversation_commands("deleteMyCommands"@, *conversation),
        ),
{
    delete_bot_commands(&definitions_query(conversation))
}

/// The definition is that of the command.
pub open spec fn reads_command(definition: CommandDefinition, command: BotCommand) -> bool {
    &&& definition.id is None
    &&& definition.name.default == command.command
    &&& definition.name.translations@ == Map::<Seq<char>, String>::empty()
    &&& definition.description.default == command.description
    &&& definition.description.translations@ == Map::<Seq<char>, String>::empty()
    &&& definition.kind is ChatInput
    &&& definition.options == 0
    &&& !definition.has_default_permissions
    &&& commands::context_set(definition.contexts@) == set![commands::ContextKind::Any]
    &&& definition.ephemeral == command.is_ephemeral
    &&& definition.platform_data is None
}

fn read_command(command: BotCommand) -> (definition: CommandDefinition)
    ensures
        reads_command(definition, command),
{
    let mut contexts: Vec<CommandContext> = Vec::new();
    contexts.push(CommandContext::Any);
    proof {
        assert(contexts@[0] == CommandContext::Any);
        assert(commands::context_set(contexts@) =~= set![commands::ContextKind::Any]) by {
            assert(commands::context_kind(contexts@[0]) == commands::ContextKind::Any);
            assert(commands::context_set(contexts@).contains(commands::ContextKind::Any));
        }
    }
    CommandDefinition {
        id: None,
        name: Localized { default: command.command, translations: TextMap::new() },
        description: Localized { default: command.description, translations: TextMap::new() },
        kind: CommandKind::ChatInput,
        options: 0,
        has_default_permissions: false,
        contexts,
        ephemeral: command.is_ephemeral,
        platform_data: None,
    }
}

/// Reads the commands that Telegram sent as definitions.
pub fn read_command_definitions(commands: Vec<BotCommand>) -> (definitions: Vec<CommandDefinition>)
    ensures
        definitions@.len() == commands@.len(),
        forall|i: int|
            0 <= i < definitions@.len() ==> reads_command(
                #[trigger] definitions@[i],
                commands@[i],
            ),
{
    let mut definitions: Vec<CommandDefinition> = Vec::new();
    for command in iter: commands
        invariant
            definitions@.len() == iter.index(),
            iter.seq() == commands@,
            forall|i: int|
                0 <= i < definitions@.len() ==> reads_command(
                    #[trigger] definitions@[i],
                    commands@[i],
                ),
    {
        definitions.push(read_command(command));
    }
    definitions
}

// ---------------------------------------------------------------------------
// Menus and surfaces
// ---------------------------------------------------------------------------

/// The call that sets a chat menu that is written already, or cannot be.
pub open spec fn menu_call(
    chat_id: Option<Seq<char>>,
    menu: Result<JsonView, ErrorView>,
) -> Result<RequestView, ErrorView> {
    match commands::private_chat_outcome(chat_id) {
        Err(e) => Err(e),
        Ok(chat) => match menu {
            Err(e) => Err(e),
            Ok(menu) => Ok(
                request::call(
                    "setChatMenuButton"@,
                    json::no_fields().insert("chat_id"@, json::optional_int_view(chat)).insert(
                        "menu_button"@,
                        menu,
                    ),
                ),
            ),
        },
    }
}

/// The call that sets a chat menu.
pub fn set_chat_menu(chat_id: &Option<String>, menu: &ChatMenu) -> (result: Result<Request, Error>)
    ensures
        error::shown(result) == menu_call(
            json::optional_chars(*chat_id),
            commands::chat_menu_outcome(*menu),
        ),
{
    let chat = optional_private_chat_id(chat_id)?;
    let menu = telegram_chat_menu(menu)?;
    let mut payload = Fields::none();
    payload.put("chat_id", Json::optional_integer(chat));
    payload.put("menu_button", menu);
    Ok(make_call("setChatMenuButton", payload))
}

/// The call that asks for a chat menu.
pub open spec fn get_menu_outcome(chat_id: Option<Seq<char>>) -> Result<RequestView, ErrorView> {
    match commands::private_chat_outcome(chat_id) {
        Err(e) => Err(e),
        Ok(chat) => Ok(
            request::call(
                "getChatMenuButton"@,
                json::no_fields().insert("chat_id"@, json::optional_int_view(chat)),
            ),
        ),
    }
}

/// The call that asks for a chat menu.
pub fn get_chat_menu(chat_id: &Option<String>) -> (result: Result<Request, Error>)
    ensures
        error::shown(result) == get_menu_outcome(json::optional_chars(*chat_id)),
{
    let chat = optional_private_chat_id(chat_id)?;
    let mut payload = Fields::none();
    payload.put("chat_id", Json::optional_integer(chat));
    Ok(make_call("getChatMenuButton", payload))
}

/// Why a surface does not exist on Telegram.
pub open spec fn surface_flaw(surface: AppSurface) -> Option<ErrorView> {
    if !(surface.kind is ChatMenu) {
        Some(
            ErrorView::Message(
                "Telegram exposes only the chat menu as a persistent app surface"@,
            ),
        )
    } else if !(surface.user_id is None && surface.platform_data is None) {
        Some(
            ErrorView::Message(
                "Telegram chat-menu surfaces cannot be scoped to a user or carry outer native data"@,
            ),
        )
    } else {
        None
    }
}

fn check_surface(surface: &AppSurface) -> (result: Result<(), Error>)
    ensures
        match result {
            Ok(_) => surface_flaw(*surface) is None,
            Err(e) => surface_flaw(*surface) == Some(e@),
        },
{
    let menu = match &surface.kind {
        AppSurfaceKind::ChatMenu => true,
        _ => false,
    };
    if !menu {
        return Err(message("Telegram exposes only the chat menu as a persistent app surface"));
    }
    if !(surface.user_id.is_none() && surface.platform_data.is_none()) {
        return Err(
            message(
                "Telegram chat-menu surfaces cannot be scoped to a user or carry outer native data",
            ),
        );
    }
    Ok(())
}

/// The chat of a surface.
pub open spec fn surface_chat(surface: AppSurface) -> Option<Seq<char>> {
    match surface.conversation {
        Some(conversation) => Some(address::root(conversation).id@),
        None => None,
    }
}

fn find_surface_chat(surface: &AppSurface) -> (chat: Option<String>)
    ensures
        json::optional_chars(chat) == surface_chat(*surface),
{
    match &surface.conversation {
        Some(conversation) => Some(root_conversation(conversation).id.clone()),
        None => None,
    }
}

/// The title of the button that opens the surface.
pub open spec fn surface_title(surface: AppSurface) -> Seq<char> {
    match surface.title {
        Some(title) => if title@.len() == 0 {
            "Open"@
        } else {
            title@
        },
        None => "Open"@,
    }
}

/// The menu that shows a surface.
pub open spec fn surface_menu(surface: AppSurface) -> Result<JsonView, ErrorView> {
    match surface.content {
        SurfaceContent::MiniApp { url } => match uri::https_url_outcome(
            uri::parsed(url@),
            "menu Web App URL"@,
        ) {
            Err(e) => Err(e),
            Ok(_) => Ok(
                JsonView::Object(
                    commands::typed_object("web_app"@).insert(
                        "text"@,
                        JsonView::Text(surface_title(surface)),
                    ).insert("web_app"@, keyboard::url_object(url@)),
                ),
            ),
        },
        SurfaceContent::PlatformNative(native) => match native::native_object_outcome(
            native,
            "chat menu"@,
        ) {
            Ok(map) => Ok(JsonView::Object(map)),
            Err(e) => Err(e),
        },
        _ => error::unsupported_view("this content in the Telegram chat-menu surface"@),
    }
}

/// The call that shows a surface.
pub open spec fn publish_outcome(surface: AppSurface) -> Result<RequestView, ErrorView> {
    match surface_flaw(surface) {
        Some(e) => Err(e),
        None => if surface.content is Layout || surface.content is Modal {
            error::unsupported_view("this content in the Telegram chat-menu surface"@)
        } else {
            menu_call(surface_chat(surface), surface_menu(surface))
        },
    }
}

/// The call that shows a surface.
pub fn publish_surface(surface: &AppSurface) -> (result: Result<Request, Error>)
    ensures
        error::shown(result) == publish_outcome(*surface),
{
    check_surface(surface)?;
    let chat = find_surface_chat(surface);
    let menu = match &surface.content {
        SurfaceContent::MiniApp { url } => {
            let text = match &surface.title {
                Some(title) => if title.as_str().is_empty() {
                    "Open".to_owned()
                } else {
                    title.clone()
                },
                None => "Open".to_owned(),
            };
            proof {
                reveal_strlit("Open");
                assert(text@ == surface_title(*surface));
                assert(text@.len() > 0);
            }
            ChatMenu::WebApp { text, url: url.clone() }
        },
        SurfaceContent::PlatformNative(native) => ChatMenu::PlatformNative(native.clone()),
        _ => {
            return Err(unsupported("this content in the Telegram chat-menu surface"));
        },
    };
    set_chat_menu(&chat, &menu)
}

/// The call that takes a surface away.
pub open spec fn delete_surface_outcome(surface: AppSurface) -> Result<RequestView, ErrorView> {
    match surface_flaw(surface) {
        Some(e) => Err(e),
        None => menu_call(
            surface_chat(surface),
            Ok(JsonView::Object(commands::typed_object("default"@))),
        ),
    }
}

/// The call that takes a surface away.
pub fn delete_surface(surface: &AppSurface) -> (result: Result<Request, Error>)
    ensures
        error::shown(result) == delete_surface_outcome(*surface),
{
    check_surface(surface)?;
    let chat = find_surface_chat(surface);
    set_chat_menu(&chat, &ChatMenu::Default)
}

// ---------------------------------------------------------------------------
// Laws
// ---------------------------------------------------------------------------

proof fn lemma_menu_keys()
    ensures
        "scope"@.len() == 5,
        "language_code"@.len() == 13,
        "commands"@.len() == 8,
        "command"@.len() == 7,
        "description"@.len() == 11,
        "is_ephemeral"@.len() == 12,
        "chat_id"@.len() == 7,
        "menu_button"@.len() == 11,
        "type"@.len() == 4,
        "text"@.len() == 4,
        "web_app"@.len() == 7,
        "url"@.len() == 3,
        "command"@ != "chat_id"@,
        "command"@ != "web_app"@,
        "description"@ != "menu_button"@,
        "chat_id"@ != "web_app"@,
        "type"@ != "text"@,
{
    reveal_strlit("scope");
    reveal_strlit("language_code");
    reveal_strlit("commands");
    reveal_strlit("command");
    reveal_strlit("description");
    reveal_strlit("is_ephemeral");
    reveal_strlit("chat_id");
    reveal_strlit("menu_button");
    reveal_strlit("type");
    reveal_strlit("text");
    reveal_strlit("web_app");
    reveal_strlit("url");
    assert("command"@[1] != "chat_id"@[1]);
    assert("command"@[0] != "web_app"@[0]);
    assert("description"@[0] != "menu_button"@[0]);
    assert("chat_id"@[0] != "web_app"@[0]);
    assert("type"@[1] != "text"@[1]);
}

proof fn lemma_command_said(name: Seq<char>, description: Seq<char>, ephemeral: bool)
    ensures
        says_command(json::stripped(command_view(name, description, ephemeral)), name, description, ephemeral),
{
    lemma_menu_keys();
    let written = command_view(name, description, ephemeral)->Object_0;
    json::lemma_stripped_member(written, "command"@);
    json::lemma_stripped_member(written, "description"@);
    json::lemma_stripped_member(written, "is_ephemeral"@);
}

/// The document says the command.
pub open spec fn says_command(
    written: JsonView,
    name: Seq<char>,
    description: Seq<char>,
    ephemeral: bool,
) -> bool {
    &&& written matches JsonView::Object(command)
    &&& json::text_in(command, "command"@) == Some(name)
    &&& json::text_in(command, "description"@) == Some(description)
    &&& json::bool_in(command, "is_ephemeral"@) == Some(ephemeral)
}

proof fn lemma_scope_said(
    method: Seq<char>,
    scope: JsonView,
    language: Option<Seq<char>>,
)
    requires
        scope is Object,
    ensures
        ({
            let call = request::call(method, scope_payload(scope, language));
            &&& json::member(call.payload, "scope"@) == Some(json::stripped(scope))
            &&& json::text_in(call.payload, "language_code"@) == language
        }),
{
    lemma_menu_keys();
    request::lemma_call_member(method, scope_payload(scope, language), "scope"@);
    request::lemma_call_member(method, scope_payload(scope, language), "language_code"@);
}

/// Commands are set in their order, each with its name and its description and
/// as private as it is, in the scope and the language that were named.
pub proof fn law_commands_are_set_in_order(set: BotCommandSet, i: int)
    requires
        set_commands_outcome(set) is Ok,
        0 <= i < set.commands@.len(),
    ensures
        ({
            let call = set_commands_outcome(set)->Ok_0;
            &&& call.method == "setMyCommands"@
            &&& json::text_in(call.payload, "language_code"@) == json::optional_chars(
                set.language_code,
            )
            &&& commands::command_scope_outcome(set.scope) matches Ok(scope)
            &&& json::member(call.payload, "scope"@) == Some(json::stripped(scope))
            &&& json::array_in(call.payload, "commands"@) matches Some(list)
            &&& list.len() == set.commands@.len()
            &&& says_command(
                list[i],
                set.commands@[i].command@,
                set.commands@[i].description@,
                set.commands@[i].is_ephemeral,
            )
        }),
{
    lemma_menu_keys();
    let scope = commands::command_scope_outcome(set.scope)->Ok_0;
    let language = json::optional_chars(set.language_code);
    let written = commands_view(set.commands@);
    let all = scope_payload(scope, language).insert("commands"@, JsonView::Array(written));
    request::lemma_call_member("setMyCommands"@, all, "scope"@);
    request::lemma_call_member("setMyCommands"@, all, "language_code"@);
    request::lemma_call_member("setMyCommands"@, all, "commands"@);
    json::lemma_stripped_item(written, i);
    let command = set.commands@[i];
    lemma_command_said(command.command@, command.description@, command.is_ephemeral);
}

/// What is set in a scope is asked for and deleted in that scope.
pub proof fn law_queries_name_the_scope(method: Seq<char>, query: BotCommandQuery)
    requires
        query_outcome(method, query) is Ok,
    ensures
        ({
            let call = query_outcome(method, query)->Ok_0;
            &&& call.method == method
            &&& json::text_in(call.payload, "language_code"@) == json::optional_chars(
                query.language_code,
            )
            &&& commands::command_scope_outcome(query.scope) matches Ok(scope)
            &&& json::member(call.payload, "scope"@) == Some(json::stripped(scope))
        }),
{
    let scope = commands::command_scope_outcome(query.scope)->Ok_0;
    lemma_scope_said(method, scope, json::optional_chars(query.language_code));
}

/// The scope that definitions are written to is the one that they are for.
pub proof fn law_definitions_are_written_to_their_scope(
    definitions: Seq<CommandDefinition>,
    scope: CommandScope,
)
    requires
        commands::is_definition_scope(scope, commands::shared_contexts(definitions)),
    ensures
        commands::command_scope_outcome(scope) == Ok::<JsonView, ErrorView>(
            definition_scope_view(commands::shared_contexts(definitions)),
        ),
{
}

/// The definitions of one language are set in their order, each said in that
/// language.
pub proof fn law_definitions_are_set_in_each_language(
    definitions: Seq<CommandDefinition>,
    locale: Option<Seq<char>>,
    i: int,
)
    requires
        locale_outcome(definitions, locale) is Ok,
        0 <= i < definitions.len(),
    ensures
        ({
            let call = locale_outcome(definitions, locale)->Ok_0;
            &&& call.method == "setMyCommands"@
            &&& json::text_in(call.payload, "language_code"@) == locale
            &&& json::array_in(call.payload, "commands"@) matches Some(list)
            &&& list.len() == definitions.len()
            &&& says_command(
                list[i],
                commands::localized(definitions[i].name, locale),
                commands::localized(definitions[i].description, locale),
                definitions[i].ephemeral,
            )
        }),
{
    lemma_menu_keys();
    let scope = definition_scope_view(commands::shared_contexts(definitions));
    let written = localized_view(definitions, locale);
    let all = scope_payload(scope, locale).insert("commands"@, JsonView::Array(written));
    request::lemma_call_member("setMyCommands"@, all, "language_code"@);
    request::lemma_call_member("setMyCommands"@, all, "commands"@);
    json::lemma_stripped_item(written, i);
    lemma_command_said(
        commands::localized(definitions[i].name, locale),
        commands::localized(definitions[i].description, locale),
        definitions[i].ephemeral,
    );
}

proof fn lemma_locales_called(
    definitions: Seq<CommandDefinition>,
    names: Seq<Seq<char>>,
    n: int,
    k: int,
)
    requires
        locale_calls(definitions, names, n).failure is None,
        0 <= k <= n,
    ensures
        locale_calls(definitions, names, n).requests.len() == n + 1,
        locale_outcome(
            definitions,
            if k == 0 {
                None
            } else {
                Some(names[k - 1])
            },
        ) == Ok::<RequestView, ErrorView>(locale_calls(definitions, names, n).requests[k]),
    decreases n,
{
    reveal_with_fuel(locale_calls, 2);
    if n > 0 {
        if k < n {
            lemma_locales_called(definitions, names, n - 1, k);
        } else {
            lemma_locales_called(definitions, names, n - 1, 0);
        }
    }
}

/// The definitions are set once without a language, and once for each language
/// that any of them is translated into.
pub proof fn law_every_language_is_set(
    definitions: Seq<CommandDefinition>,
    plan: PlanView,
    i: int,
    language: Seq<char>,
)
    requires
        definitions_outcome(definitions) == Ok::<PlanView, ErrorView>(plan),
        plan.failure is None,
        locales(definitions, definitions.len() as int).finite(),
        0 <= i < definitions.len(),
    ensures
        plan.requests.len() > 0,
        locale_outcome(definitions, None) == Ok::<RequestView, ErrorView>(plan.requests[0]),
        definitions[i].name.translations@.contains_key(language)
            || definitions[i].description.translations@.contains_key(language) ==> (locale_outcome(
            definitions,
            Some(language),
        ) matches Ok(call) && plan.requests.contains(call)),
{
    let all = locales(definitions, definitions.len() as int);
    let names = json::sorted_keys(all);
    json::lemma_sorted_keys_exist(all);
    lemma_locales_called(definitions, names, names.len() as int, 0);
    if definitions[i].name.translations@.contains_key(language)
        || definitions[i].description.translations@.contains_key(language) {
        assert(translates(definitions[i], language));
        assert(all.contains(language));
        let k = choose|k: int| 0 <= k < names.len() && names[k] == language;
        lemma_locales_called(definitions, names, names.len() as int, k + 1);
        assert(plan.requests[k + 1] == plan.requests[k + 1]);
    }
}

/// The menu of a chat is set by its number, or of all chats without one, to
/// what was given.
pub proof fn law_menus_are_set(chat_id: Option<Seq<char>>, menu: Result<JsonView, ErrorView>)
    requires
        menu_call(chat_id, menu) is Ok,
        menu->Ok_0 is Object,
    ensures
        ({
            let call = menu_call(chat_id, menu)->Ok_0;
            &&& call.method == "setChatMenuButton"@
            &&& chat_id is None ==> json::member(call.payload, "chat_id"@) is None
            &&& chat_id matches Some(chat) ==> text::i64_value(chat) is Some && json::i64_in(
                call.payload,
                "chat_id"@,
            ) == text::i64_value(chat)
            &&& json::member(call.payload, "menu_button"@) == Some(json::stripped(menu->Ok_0))
        }),
{
    lemma_menu_keys();
    let chat = commands::private_chat_outcome(chat_id)->Ok_0;
    let payload = json::no_fields().insert("chat_id"@, json::optional_int_view(chat)).insert(
        "menu_button"@,
        menu->Ok_0,
    );
    request::lemma_call_member("setChatMenuButton"@, payload, "chat_id"@);
    request::lemma_call_member("setChatMenuButton"@, payload, "menu_button"@);
}

/// A menu is asked for in the chat that was named.
pub proof fn law_menus_are_asked_for(chat_id: Option<Seq<char>>)
    requires
        get_menu_outcome(chat_id) is Ok,
    ensures
        ({
            let call = get_menu_outcome(chat_id)->Ok_0;
            &&& call.method == "getChatMenuButton"@
            &&& chat_id is None ==> json::member(call.payload, "chat_id"@) is None
            &&& chat_id matches Some(chat) ==> json::i64_in(call.payload, "chat_id"@)
                == text::i64_value(chat)
        }),
{
    let chat = commands::private_chat_outcome(chat_id)->Ok_0;
    let payload = json::no_fields().insert("chat_id"@, json::optional_int_view(chat));
    request::lemma_call_member("getChatMenuButton"@, payload, "chat_id"@);
}

/// An application that is published becomes the menu of the chat, with its
/// title and its address; when it is deleted, the menu is the usual one again.
pub proof fn law_surfaces_are_published_and_deleted(surface: AppSurface)
    ensures
        publish_outcome(surface) matches Ok(call) ==> surface.kind is ChatMenu && call.method
            == "setChatMenuButton"@ && (surface.content matches SurfaceContent::MiniApp { url } ==> (
        json::object_in(call.payload, "menu_button"@) matches Some(menu) && json::text_in(
            menu,
            "type"@,
        ) == Some("web_app"@) && (json::object_in(menu, "web_app"@) matches Some(app)
            && json::text_in(app, "url"@) == Some(url@)) && (surface.title matches Some(title)
            ==> (title@.len() > 0 ==> json::text_in(menu, "text"@) == Some(title@))))),
        delete_surface_outcome(surface) matches Ok(call) ==> surface.kind is ChatMenu && call.method
            == "setChatMenuButton"@ && (json::object_in(call.payload, "menu_button"@) matches Some(menu)
            && json::text_in(menu, "type"@) == Some("default"@)),
{
    lemma_menu_keys();
    if publish_outcome(surface) is Ok {
        if let SurfaceContent::MiniApp { url } = surface.content {
            law_menus_are_set(surface_chat(surface), surface_menu(surface));
            let menu = surface_menu(surface)->Ok_0->Object_0;
            json::lemma_stripped_member(menu, "type"@);
            json::lemma_stripped_member(menu, "text"@);
            json::lemma_stripped_member(menu, "web_app"@);
            json::lemma_stripped_member(keyboard::url_object(url@)->Object_0, "url"@);
        }
    }
    if delete_surface_outcome(surface) is Ok {
        let menu = commands::typed_object("default"@);
        law_menus_are_set(surface_chat(surface), Ok(JsonView::Object(menu)));
        json::lemma_stripped_member(menu, "type"@);
    }
}

/// Commands that are asked for are not deleted, and those that are deleted are
/// not asked for; so it is with the commands of a conversation, and what is
/// published is not deleted.
pub proof fn law_asking_is_not_deleting(
    query: &BotCommandQuery,
    conversation: &Option<ConversationRef>,
    asking: Result<Request, Error>,
    deleting: Result<Request, Error>,
    defined: Result<Request, Error>,
    undefined: Result<Request, Error>,
)
    requires
        call_ensures(get_bot_commands, (query,), asking),
        call_ensures(delete_bot_commands, (query,), deleting),
        call_ensures(get_command_definitions, (conversation,), defined),
        call_ensures(delete_command_definitions, (conversation,), undefined),
    ensures
        asking matches Ok(call) ==> call@.method == "getMyCommands"@,
        deleting matches Ok(call) ==> call@.method == "deleteMyCommands"@,
        asking is Ok <==> deleting is Ok,
        asking is Ok ==> asking->Ok_0@.payload == deleting->Ok_0@.payload,
        defined matches Ok(call) && call@.method == "getMyCommands"@,
        undefined matches Ok(call) && call@.method == "deleteMyCommands"@,
        defined->Ok_0@.payload == undefined->Ok_0@.payload,
{
}

/// The commands of a conversation are those of the chat around it, and without
/// a conversation they are those of everyone.
pub proof fn law_conversations_have_their_commands(
    method: Seq<char>,
    conversation: Option<ConversationRef>,
)
    ensures
        ({
            let call = conversation_commands(method, conversation);
            &&& call.method == method
            &&& json::object_in(call.payload, "scope"@) matches Some(scope)
            &&& conversation is None ==> json::text_in(scope, "type"@) == Some("default"@)
            &&& conversation matches Some(own) ==> json::text_in(scope, "type"@) == Some("chat"@)
                && json::member(scope, "chat_id"@) == Some(
            match text::i64_value(address::root(own).id@) {
                Some(id) => JsonView::Integer(id as int),
                None => JsonView::Text(address::root(own).id@),
            },
            )
        }),
{
    lemma_menu_keys();
    let scope = match conversation {
        Some(own) => commands::typed_object("chat"@).insert(
            "chat_id"@,
            address::chat_id_view(address::root(own).id@),
        ),
        None => commands::typed_object("default"@),
    };
    lemma_scope_said(method, JsonView::Object(scope), None);
    json::lemma_stripped_member(scope, "type"@);
    json::lemma_stripped_member(scope, "chat_id"@);
}

/// An application without a title is opened by the word for opening.
pub proof fn law_untitled_surfaces_are_opened(surface: AppSurface)
    ensures
        surface.title is None ==> surface_title(surface) == "Open"@,
        surface.title matches Some(title) ==> surface_title(surface) == if title@.len() == 0 {
            "Open"@
        } else {
            title@
        },
{
}

} // verus!
