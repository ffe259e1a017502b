//! Bot commands and chat menus.
use crate::api::address;
use crate::api::address::chat_id_value;
use crate::api::keyboard;
use crate::application::{
    BotCommand, ChatMenu, CommandContext, CommandDefinition, CommandScope, Localized,
};
use crate::error;
use crate::error::{message, unsupported, Error, ErrorView};
use crate::json;
use crate::json::{Fields, Json, JsonView};
use crate::native;
use crate::native::{make_native, quote, telegram_native_object};
use crate::text;
use crate::text::{chars_of, joined, joined3, parse_i64, same};
use crate::uri;
use crate::uri::validate_https_url;
use vstd::prelude::*;
use vstd::string::*;

verus! {

// ---------------------------------------------------------------------------
// Scopes
// ---------------------------------------------------------------------------

/// An object whose only member is its type.
pub open spec fn typed_object(name: Seq<char>) -> Map<Seq<char>, JsonView> {
    json::no_fields().insert("type"@, JsonView::Text(name))
}

fn write_typed(name: &str) -> (object: Fields)
    ensures
        json::fields(object) == typed_object(name@),
{
    let mut object = Fields::none();
    object.put("type", Json::text(name));
    object
}

/// The scope of a set of commands.
pub open spec fn command_scope_outcome(scope: CommandScope) -> Result<JsonView, ErrorView> {
    match scope {
        CommandScope::Default => Ok(JsonView::Object(typed_object("default"@))),
        CommandScope::AllPrivateChats => Ok(JsonView::Object(typed_object("all_private_chats"@))),
        CommandScope::AllGroupChats => Ok(JsonView::Object(typed_object("all_group_chats"@))),
        CommandScope::AllChatAdministrators => Ok(
            JsonView::Object(typed_object("all_chat_administrators"@)),
        ),
        CommandScope::Chat { chat_id } => Ok(
            JsonView::Object(
                typed_object("chat"@).insert("chat_id"@, address::chat_id_view(chat_id@)),
            ),
        ),
        CommandScope::ChatAdministrators { chat_id } => Ok(
            JsonView::Object(
                typed_object("chat_administrators"@).insert(
                    "chat_id"@,
                    address::chat_id_view(chat_id@),
                ),
            ),
        ),
        CommandScope::ChatMember { chat_id, user_id } => match text::i64_value(user_id@) {
            None => error::refused("invalid Telegram user id"@),
            Some(user) => Ok(
                JsonView::Object(
                    typed_object("chat_member"@).insert(
                        "chat_id"@,
                        address::chat_id_view(chat_id@),
                    ).insert("user_id"@, JsonView::Integer(user as int)),
                ),
            ),
        },
        CommandScope::PlatformNative(native) => match native::native_object_outcome(
            native,
            "command scope"@,
        ) {
            Ok(map) => Ok(JsonView::Object(map)),
            Err(e) => Err(e),
        },
    }
}

/// Writes the scope of a set of commands.
pub fn telegram_command_scope(scope: &CommandScope) -> (result: Result<Json, Error>)
    ensures
        error::shown(result) == command_scope_outcome(*scope),
{
    Ok(
        match scope {
            CommandScope::Default => Json::object(write_typed("default")),
            CommandScope::AllPrivateChats => Json::object(write_typed("all_private_chats")),
            CommandScope::AllGroupChats => Json::object(write_typed("all_group_chats")),
            CommandScope::AllChatAdministrators => Json::object(
                write_typed("all_chat_administrators"),
            ),
            CommandScope::Chat { chat_id } => {
                let mut object = write_typed("chat");
                object.put("chat_id", chat_id_value(chat_id.as_str()));
                Json::object(object)
            },
            CommandScope::ChatAdministrators { chat_id } => {
                let mut object = write_typed("chat_administrators");
                object.put("chat_id", chat_id_value(chat_id.as_str()));
                Json::object(object)
            },
            CommandScope::ChatMember { chat_id, user_id } => {
                let user = match parse_i64(user_id.as_str()) {
                    Some(user) => user,
                    None => {
                        return Err(message("invalid Telegram user id"));
                    },
                };
                let mut object = write_typed("chat_member");
                object.put("chat_id", chat_id_value(chat_id.as_str()));
                object.put("user_id", Json::integer(user));
                Json::object(object)
            },
            CommandScope::PlatformNative(native) => {
                let map = telegram_native_object(native, "command scope")?;
                Json::object(map)
            },
        },
    )
}

// ---------------------------------------------------------------------------
// Commands
// ---------------------------------------------------------------------------

/// A lower-case ASCII letter, a digit or an underscore.
pub open spec fn is_command_char(c: char) -> bool {
    text::is_lower(c) || text::is_digit(c) || c == '_'
}

/// A name that a command can have.
pub open spec fn is_command_name(name: Seq<char>) -> bool {
    1 <= name.len() <= 32 && forall|i: int|
        0 <= i < name.len() ==> is_command_char(#[trigger] name[i])
}

fn has_command_name(name: &str) -> (result: bool)
    ensures
        result == is_command_name(name@),
{
    let chars = chars_of(name);
    if !(1 <= chars.len() && chars.len() <= 32) {
        return false;
    }
    let mut i: usize = 0;
    while i < chars.len()
        invariant
            i <= chars@.len(),
            chars@ == name@,
            forall|j: int| 0 <= j < i ==> is_command_char(#[trigger] name@[j]),
        decreases chars@.len() - i,
    {
        let c: char = chars[i];
        if !(('a' <= c && c <= 'z') || ('0' <= c && c <= '9') || c == '_') {
            assert(!is_command_char(name@[i as int]));
            return false;
        }
        i += 1;
    }
    true
}

/// The first rule that a command breaks.
pub open spec fn command_rule(command: BotCommand) -> Result<(), ErrorView> {
    if !is_command_name(command.command@) {
        error::refused(
            "invalid Telegram bot command "@ + native::quoted(command.command@)
                + "; use 1-32 lowercase ASCII letters, digits, or underscores"@,
        )
    } else if !(1 <= command.description@.len() <= 256) {
        error::refused("Telegram bot command descriptions must contain 1 to 256 characters"@)
    } else {
        Ok(())
    }
}

/// The first rule that the first `n` commands break.
pub open spec fn commands_rule(commands: Seq<BotCommand>, n: int) -> Result<(), ErrorView>
    decreases n,
{
    if n <= 0 {
        Ok(())
    } else {
        match commands_rule(commands, n - 1) {
            Err(e) => Err(e),
            Ok(_) => command_rule(commands[n - 1]),
        }
    }
}

proof fn lemma_commands_refused(commands: Seq<BotCommand>, n: int, total: int)
    requires
        0 <= n <= total,
        commands_rule(commands, n) is Err,
    ensures
        commands_rule(commands, total) == commands_rule(commands, n),
    decreases total - n,
{
    if n < total {
        lemma_commands_refused(commands, n + 1, total);
    }
}

/// Accepts commands that Telegram can have.
pub fn validate_commands(commands: &Vec<BotCommand>) -> (result: Result<(), Error>)
    ensures
        error::shown(result) == commands_rule(commands@, commands@.len() as int),
{
    let mut i: usize = 0;
    while i < commands.len()
        invariant
            i <= commands@.len(),
            commands_rule(commands@, i as int) is Ok,
        decreases commands@.len() - i,
    {
        let command: &BotCommand = &commands[i];
        if !has_command_name(command.command.as_str()) {
            proof {
                lemma_commands_refused(commands@, i + 1, commands@.len() as int);
            }
            let name = quote(command.command.as_str());
            return Err(
                Error::Message(
                    joined3(
                        "invalid Telegram bot command ",
                        name.as_str(),
                        "; use 1-32 lowercase ASCII letters, digits, or underscores",
                    ),
                ),
            );
        }
        let n: usize = command.description.as_str().unicode_len();
        if !(1 <= n && n <= 256) {
            proof {
                lemma_commands_refused(commands@, i + 1, commands@.len() as int);
            }
            return Err(
                message("Telegram bot command descriptions must contain 1 to 256 characters"),
            );
        }
        i += 1;
    }
    Ok(())
}

/// Two lower-case ASCII letters.
pub open spec fn is_language_code(code: Seq<char>) -> bool {
    code.len() == 2 && text::is_lower(code[0]) && text::is_lower(code[1])
}

/// Whether a language code can be used.
pub open spec fn language_code_outcome(code: Option<Seq<char>>) -> Result<(), ErrorView> {
    match code {
        Some(code) => if is_language_code(code) {
            Ok(())
        } else {
            error::refused(
                "Telegram command language code must contain two lowercase ASCII letters"@,
            )
        },
        None => Ok(()),
    }
}

/// Accepts a language code of two lower-case letters, or none.
pub fn validate_language_code(code: &Option<String>) -> (result: Result<(), Error>)
    ensures
        error::shown(result) == language_code_outcome(json::optional_chars(*code)),
{
    if let Some(code) = code {
        let chars = chars_of(code.as_str());
        if !(chars.len() == 2 && 'a' <= chars[0] && chars[0] <= 'z' && 'a' <= chars[1] && chars[1]
            <= 'z') {
            return Err(
                message("Telegram command language code must contain two lowercase ASCII letters"),
            );
        }
    }
    Ok(())
}

/// The number of a private chat, where one is named.
pub open spec fn private_chat_outcome(chat_id: Option<Seq<char>>) -> Result<
    Option<i64>,
    ErrorView,
> {
    match chat_id {
        None => Ok(None),
        Some(chat_id) => match text::i64_value(chat_id) {
            Some(id) => Ok(Some(id)),
            None => error::refused("invalid Telegram private chat id "@ + native::quoted(chat_id)),
        },
    }
}

/// The number of a private chat, where one is named.
pub fn optional_private_chat_id(chat_id: &Option<String>) -> (result: Result<Option<i64>, Error>)
    ensures
        match result {
            Ok(id) => private_chat_outcome(json::optional_chars(*chat_id)) == Ok::<
                Option<i64>,
                ErrorView,
            >(id),
            Err(e) => private_chat_outcome(json::optional_chars(*chat_id)) == Err::<
                Option<i64>,
                ErrorView,
            >(e@),
        },
{
    match chat_id {
        None => Ok(None),
        Some(chat_id) => match parse_i64(chat_id.as_str()) {
            Some(id) => Ok(Some(id)),
            None => {
                let name = quote(chat_id.as_str());
                Err(Error::Message(joined("invalid Telegram private chat id ", name.as_str())))
            },
        },
    }
}

// ---------------------------------------------------------------------------
// Definitions
// ---------------------------------------------------------------------------

/// A context, by what it says.
pub enum ContextKind {
    Direct,
    Group,
    Channel,
    Administrator,
    Any,
    PlatformNative(Seq<char>),
}

/// What a context says.
pub open spec fn context_kind(context: CommandContext) -> ContextKind {
    match context {
        CommandContext::Direct => ContextKind::Direct,
        CommandContext::Group => ContextKind::Group,
        CommandContext::Channel => ContextKind::Channel,
        CommandContext::Administrator => ContextKind::Administrator,
        CommandContext::Any => ContextKind::Any,
        CommandContext::PlatformNative(name) => ContextKind::PlatformNative(name@),
    }
}

/// The set of contexts that a list stands for.
pub open spec fn context_set(list: Seq<CommandContext>) -> Set<ContextKind> {
    Set::new(
        |kind: ContextKind|
            exists|i: int| 0 <= i < list.len() && context_kind(#[trigger] list[i]) == kind,
    )
}

fn same_context(a: &CommandContext, b: &CommandContext) -> (equal: bool)
    ensures
        equal == (context_kind(*a) == context_kind(*b)),
{
    match (a, b) {
        (CommandContext::Direct, CommandContext::Direct) => true,
        (CommandContext::Group, CommandContext::Group) => true,
        (CommandContext::Channel, CommandContext::Channel) => true,
        (CommandContext::Administrator, CommandContext::Administrator) => true,
        (CommandContext::Any, CommandContext::Any) => true,
        (CommandContext::PlatformNative(x), CommandContext::PlatformNative(y)) => same(
            x.as_str(),
            y.as_str(),
        ),
        _ => false,
    }
}

fn holds_context(list: &Vec<CommandContext>, context: &CommandContext) -> (found: bool)
    ensures
        found == context_set(list@).contains(context_kind(*context)),
{
    let mut i: usize = 0;
    while i < list.len()
        invariant
            i <= list@.len(),
            forall|j: int|
                0 <= j < i ==> context_kind(#[trigger] list@[j]) != context_kind(*context),
        decreases list@.len() - i,
    {
        if same_context(&list[i], context) {
            assert(context_kind(list@[i as int]) == context_kind(*context));
            return true;
        }
        i += 1;
    }
    false
}

fn within(a: &Vec<CommandContext>, b: &Vec<CommandContext>) -> (result: bool)
    ensures
        result == context_set(a@).subset_of(context_set(b@)),
{
    let mut i: usize = 0;
    while i < a.len()
        invariant
            i <= a@.len(),
            forall|j: int|
                0 <= j < i ==> context_set(b@).contains(context_kind(#[trigger] a@[j])),
        decreases a@.len() - i,
    {
        if !holds_context(b, &a[i]) {
            assert(context_set(a@).contains(context_kind(a@[i as int])));
            return false;
        }
        i += 1;
    }
    proof {
        assert forall|kind: ContextKind| #[trigger] context_set(a@).contains(kind) implies context_set(
            b@,
        ).contains(kind) by {
            let k = choose|k: int| 0 <= k < a@.len() && context_kind(#[trigger] a@[k]) == kind;
            assert(context_set(b@).contains(context_kind(a@[k])));
        }
    }
    true
}

fn same_contexts(a: &Vec<CommandContext>, b: &Vec<CommandContext>) -> (equal: bool)
    ensures
        equal == (context_set(a@) == context_set(b@)),
{
    let equal = within(a, b) && within(b, a);
    proof {
        if equal {
            assert(context_set(a@) =~= context_set(b@));
        }
    }
    equal
}

/// Every command of the set is for the same contexts.
pub open spec fn one_scope(commands: Seq<CommandDefinition>) -> bool {
    forall|i: int|
        0 <= i < commands.len() ==> context_set((#[trigger] commands[i]).contexts@) == context_set(
            commands[0].contexts@,
        )
}

/// One of the contexts is in Telegram's own form.
pub open spec fn has_native(contexts: Set<ContextKind>) -> bool {
    exists|kind: ContextKind| #[trigger] contexts.contains(kind) && kind is PlatformNative
}

/// The contexts of a set of commands.
pub open spec fn shared_contexts(commands: Seq<CommandDefinition>) -> Set<ContextKind> {
    if commands.len() == 0 {
        Set::empty()
    } else {
        context_set(commands[0].contexts@)
    }
}

/// The scope that a set of commands has on Telegram, by its contexts.
pub open spec fn is_definition_scope(scope: CommandScope, contexts: Set<ContextKind>) -> bool {
    if contexts == set![ContextKind::Direct] {
        scope is AllPrivateChats
    } else if contexts == set![ContextKind::Administrator] {
        scope is AllChatAdministrators
    } else if contexts != Set::<ContextKind>::empty() && contexts.subset_of(
        set![ContextKind::Group, ContextKind::Channel],
    ) {
        scope is AllGroupChats
    } else {
        scope is Default
    }
}

/// Why a set of commands has no scope on Telegram.
pub open spec fn scope_flaw(commands: Seq<CommandDefinition>) -> Option<ErrorView> {
    if !one_scope(commands) {
        Some(
            ErrorView::Message(
                "Telegram requires all commands in one set to use the same scope"@,
            ),
        )
    } else if has_native(shared_contexts(commands)) {
        Some(
            ErrorView::Message(
                "Telegram platform-native command contexts require the legacy scoped command API"@,
            ),
        )
    } else {
        None
    }
}

/// What a list of contexts consists of.
struct Contexts {
    direct: bool,
    group: bool,
    channel: bool,
    administrator: bool,
    any: bool,
    native: bool,
}

fn survey(list: &Vec<CommandContext>) -> (found: Contexts)
    ensures
        found.direct == context_set(list@).contains(ContextKind::Direct),
        found.group == context_set(list@).contains(ContextKind::Group),
        found.channel == context_set(list@).contains(ContextKind::Channel),
        found.administrator == context_set(list@).contains(ContextKind::Administrator),
        found.any == context_set(list@).contains(ContextKind::Any),
        found.native == has_native(context_set(list@)),
{
    let mut native = false;
    let mut i: usize = 0;
    while i < list.len()
        invariant
            i <= list@.len(),
            native ==> has_native(context_set(list@)),
            !native ==> forall|j: int|
                0 <= j < i ==> !(context_kind(#[trigger] list@[j]) is PlatformNative),
        decreases list@.len() - i,
    {
        if let CommandContext::PlatformNative(name) = &list[i] {
            native = true;
            assert(context_kind(list@[i as int]) == ContextKind::PlatformNative(name@));
            assert(context_set(list@).contains(ContextKind::PlatformNative(name@)));
        }
        i += 1;
    }
    proof {
        if !native {
            assert forall|kind: ContextKind| #[trigger]
                context_set(list@).contains(kind) implies !(kind is PlatformNative) by {
                let k = choose|k: int|
                    0 <= k < list@.len() && context_kind(#[trigger] list@[k]) == kind;
            }
        }
    }
    Contexts {
        direct: holds_context(list, &CommandContext::Direct),
        group: holds_context(list, &CommandContext::Group),
        channel: holds_context(list, &CommandContext::Channel),
        administrator: holds_context(list, &CommandContext::Administrator),
        any: holds_context(list, &CommandContext::Any),
        native,
    }
}

/// Finds the scope that a set of commands has on Telegram.
pub fn telegram_definition_scope(commands: &Vec<CommandDefinition>) -> (result: Result<
    CommandScope,
    Error,
>)
    ensures
        match result {
            Ok(scope) => scope_flaw(commands@) is None && is_definition_scope(
                scope,
                shared_contexts(commands@),
            ),
            Err(e) => scope_flaw(commands@) == Some(e@),
        },
{
    if commands.len() == 0 {
        proof {
            let none = Set::<ContextKind>::empty();
            assert(!none.contains(ContextKind::Direct));
            assert(set![ContextKind::Direct].contains(ContextKind::Direct));
            assert(set![ContextKind::Administrator].contains(ContextKind::Administrator));
        }
        return Ok(CommandScope::Default);
    }
    let mut i: usize = 0;
    while i < commands.len()
        invariant
            i <= commands@.len(),
            commands@.len() > 0,
            forall|j: int|
                0 <= j < i ==> context_set((#[trigger] commands@[j]).contexts@) == context_set(
                    commands@[0].contexts@,
                ),
        decreases commands@.len() - i,
    {
        if !same_contexts(&commands[i].contexts, &commands[0].contexts) {
            assert(context_set(commands@[i as int].contexts@) != context_set(
                commands@[0].contexts@,
            ));
            return Err(message("Telegram requires all commands in one set to use the same scope"));
        }
        i += 1;
    }
    let found = survey(&commands[0].contexts);
    let ghost all = shared_contexts(commands@);
    if found.native {
        return Err(
            message(
                "Telegram platform-native command contexts require the legacy scoped command API",
            ),
        );
    }
    proof {
        let direct = set![ContextKind::Direct];
        let admin = set![ContextKind::Administrator];
        let groups = set![ContextKind::Group, ContextKind::Channel];
        assert(direct.contains(ContextKind::Direct) && !direct.contains(ContextKind::Group)
            && !direct.contains(ContextKind::Channel) && !direct.contains(
            ContextKind::Administrator,
        ) && !direct.contains(ContextKind::Any));
        assert(admin.contains(ContextKind::Administrator) && !admin.contains(ContextKind::Direct)
            && !admin.contains(ContextKind::Group) && !admin.contains(ContextKind::Channel)
            && !admin.contains(ContextKind::Any));
        if found.direct && !found.group && !found.channel && !found.administrator && !found.any {
            assert(all =~= direct);
        }
        if found.administrator && !found.group && !found.channel && !found.direct && !found.any {
            assert(all =~= admin);
        }
        if !found.administrator && !found.direct && !found.any {
            assert(all.subset_of(groups));
            if !found.group && !found.channel {
                assert(all =~= Set::<ContextKind>::empty());
            } else {
                assert(all != Set::<ContextKind>::empty());
            }
        } else {
            if found.direct {
                assert(!groups.contains(ContextKind::Direct));
            }
            if found.administrator {
                assert(!groups.contains(ContextKind::Administrator));
            }
            if found.any {
                assert(!groups.contains(ContextKind::Any));
            }
        }
    }
    Ok(
        if found.direct && !found.group && !found.channel && !found.administrator && !found.any {
            CommandScope::AllPrivateChats
        } else if found.administrator && !found.group && !found.channel && !found.direct
            && !found.any {
            CommandScope::AllChatAdministrators
        } else if (found.group || found.channel) && !found.administrator && !found.direct
            && !found.any {
            CommandScope::AllGroupChats
        } else {
            CommandScope::Default
        },
    )
}

/// The text for a locale: its translation, or the default.
pub open spec fn localized(text: Localized, locale: Option<Seq<char>>) -> Seq<char> {
    match locale {
        Some(locale) => if text.translations@.contains_key(locale) {
            text.translations@[locale]@
        } else {
            text.default@
        },
        None => text.default@,
    }
}

fn find_localized(text: &Localized, locale: &Option<String>) -> (result: String)
    ensures
        result@ == localized(*text, json::optional_chars(*locale)),
{
    match locale {
        Some(locale) => match text.translations.get(locale.as_str()) {
            Some(translation) => translation.clone(),
            None => text.default.clone(),
        },
        None => text.default.clone(),
    }
}

/// The command is the definition in the given locale.
pub open spec fn is_localized_command(
    command: BotCommand,
    definition: CommandDefinition,
    locale: Option<Seq<char>>,
) -> bool {
    &&& command.command@ == localized(definition.name, locale)
    &&& command.description@ == localized(definition.description, locale)
    &&& command.is_ephemeral == definition.ephemeral
}

/// The first rule that a definition breaks in the given locale.
pub open spec fn definition_rule(definition: CommandDefinition, locale: Option<Seq<char>>) -> Result<
    (),
    ErrorView,
> {
    let name = localized(definition.name, locale);
    if !is_command_name(name) {
        error::refused(
            "invalid Telegram bot command "@ + native::quoted(name)
                + "; use 1-32 lowercase ASCII letters, digits, or underscores"@,
        )
    } else if !(1 <= localized(definition.description, locale).len() <= 256) {
        error::refused("Telegram bot command descriptions must contain 1 to 256 characters"@)
    } else {
        Ok(())
    }
}

/// The first rule that the first `n` definitions break in the given locale.
pub open spec fn definitions_rule(
    definitions: Seq<CommandDefinition>,
    locale: Option<Seq<char>>,
    n: int,
) -> Result<(), ErrorView>
    decreases n,
{
    if n <= 0 {
        Ok(())
    } else {
        match definitions_rule(definitions, locale, n - 1) {
            Err(e) => Err(e),
            Ok(_) => definition_rule(definitions[n - 1], locale),
        }
    }
}

proof fn lemma_definitions_rule(
    definitions: Seq<CommandDefinition>,
    locale: Option<Seq<char>>,
    commands: Seq<BotCommand>,
    n: int,
)
    requires
        0 <= n <= definitions.len(),
        commands.len() == definitions.len(),
        forall|i: int|
            0 <= i < commands.len() ==> is_localized_command(
                #[trigger] commands[i],
                definitions[i],
                locale,
            ),
    ensures
        commands_rule(commands, n) == definitions_rule(definitions, locale, n),
    decreases n,
{
    if n > 0 {
        lemma_definitions_rule(definitions, locale, commands, n - 1);
        assert(is_localized_command(commands[n - 1], definitions[n - 1], locale));
    }
}

/// The commands that definitions stand for in the given locale.
pub fn telegram_commands_for_locale(
    definitions: &Vec<CommandDefinition>,
    locale: &Option<String>,
) -> (result: Result<Vec<BotCommand>, Error>)
    ensures
        match result {
            Ok(commands) => definitions_rule(
                definitions@,
                json::optional_chars(*locale),
                definitions@.len() as int,
            ) is Ok && commands@.len() == definitions@.len() && forall|i: int|
                0 <= i < commands@.len() ==> is_localized_command(
                    #[trigger] commands@[i],
                    definitions@[i],
                    json::optional_chars(*locale),
                ),
            Err(e) => definitions_rule(
                definitions@,
                json::optional_chars(*locale),
                definitions@.len() as int,
            ) == Err::<(), ErrorView>(e@),
        },
{
    let mut commands: Vec<BotCommand> = Vec::new();
    let mut i: usize = 0;
    while i < definitions.len()
        invariant
            i <= definitions@.len(),
            commands@.len() == i,
            forall|j: int|
                0 <= j < i ==> is_localized_command(
                    #[trigger] commands@[j],
                    definitions@[j],
                    json::optional_chars(*locale),
                ),
        decreases definitions@.len() - i,
    {
        let definition: &CommandDefinition = &definitions[i];
        commands.push(
            BotCommand {
                command: find_localized(&definition.name, locale),
                description: find_localized(&definition.description, locale),
                is_ephemeral: definition.ephemeral,
            },
        );
        i += 1;
    }
    proof {
        lemma_definitions_rule(
            definitions@,
            json::optional_chars(*locale),
            commands@,
            definitions@.len() as int,
        );
    }
    validate_commands(&commands)?;
    Ok(commands)
}

// ---------------------------------------------------------------------------
// Menus
// ---------------------------------------------------------------------------

/// A chat menu.
pub open spec fn chat_menu_outcome(menu: ChatMenu) -> Result<JsonView, ErrorView> {
    match menu {
        ChatMenu::Default => Ok(JsonView::Object(typed_object("default"@))),
        ChatMenu::Commands => Ok(JsonView::Object(typed_object("commands"@))),
        ChatMenu::WebApp { text, url } => if text@.len() == 0 {
            error::refused("menu button text cannot be empty"@)
        } else {
            match uri::https_url_outcome(uri::parsed(url@), "menu Web App URL"@) {
                Err(e) => Err(e),
                Ok(_) => Ok(
                    JsonView::Object(
                        typed_object("web_app"@).insert("text"@, JsonView::Text(text@)).insert(
                            "web_app"@,
                            keyboard::url_object(url@),
                        ),
                    ),
                ),
            }
        },
        ChatMenu::PlatformNative(native) => match native::native_object_outcome(
            native,
            "chat menu"@,
        ) {
            Ok(map) => Ok(JsonView::Object(map)),
            Err(e) => Err(e),
        },
        ChatMenu::Actions { .. } => error::unsupported_view(
            "Telegram action-based persistent menus"@,
        ),
    }
}

/// Writes a chat menu.
pub fn telegram_chat_menu(menu: &ChatMenu) -> (result: Result<Json, Error>)
    ensures
        error::shown(result) == chat_menu_outcome(*menu),
{
    Ok(
        match menu {
            ChatMenu::Default => Json::object(write_typed("default")),
            ChatMenu::Commands => Json::object(write_typed("commands")),
            ChatMenu::WebApp { text, url } => {
                if text.as_str().is_empty() {
                    return Err(message("menu button text cannot be empty"));
                }
                validate_https_url(url.as_str(), "menu Web App URL")?;
                let mut object = write_typed("web_app");
                object.put("text", Json::text(text.as_str()));
                object.put("web_app", keyboard::write_url_object(url.as_str()));
                Json::object(object)
            },
            ChatMenu::PlatformNative(native) => {
                let map = telegram_native_object(native, "chat menu")?;
                Json::object(map)
            },
            ChatMenu::Actions { .. } => {
                return Err(unsupported("Telegram action-based persistent menus"));
            },
        },
    )
}

/// What a member of a document says, where the document is an object.
pub open spec fn text_under(value: JsonView, key: Seq<char>) -> Option<Seq<char>> {
    match value {
        JsonView::Object(map) => json::text_in(map, key),
        _ => None,
    }
}

/// The address of the Web App in a menu that Telegram sent.
pub open spec fn menu_url(value: JsonView) -> Option<Seq<char>> {
    match value {
        JsonView::Object(map) => match json::member(map, "web_app"@) {
            Some(app) => text_under(app, "url"@),
            None => None,
        },
        _ => None,
    }
}

/// Why a menu that Telegram sent cannot be read.
pub open spec fn menu_flaw(value: JsonView) -> Option<ErrorView> {
    match text_under(value, "type"@) {
        None => Some(ErrorView::Message("Telegram menu button response has no type"@)),
        Some(kind) => if kind != "default"@ && kind != "commands"@ && kind == "web_app"@ {
            if text_under(value, "text"@) is None {
                Some(ErrorView::Message("Telegram Web App menu has no text"@))
            } else if menu_url(value) is None {
                Some(ErrorView::Message("Telegram Web App menu has no URL"@))
            } else {
                None
            }
        } else {
            None
        },
    }
}

/// The menu says what the document says.
pub open spec fn reads_menu(menu: ChatMenu, value: JsonView) -> bool {
    let kind = text_under(value, "type"@)->0;
    if kind == "default"@ {
        menu is Default
    } else if kind == "commands"@ {
        menu is Commands
    } else if kind == "web_app"@ {
        menu matches ChatMenu::WebApp { text, url } && Some(text@) == text_under(value, "text"@)
            && Some(url@) == menu_url(value)
    } else {
        menu matches ChatMenu::PlatformNative(native) && native@ == native::telegram_native(value)
    }
}

fn find_text<'a>(value: &'a Json, key: &str) -> (text: Option<&'a str>)
    ensures
        match text {
            Some(text) => text_under(value@, key@) == Some(text@),
            None => text_under(value@, key@) is None,
        },
{
    broadcast use json::lemma_json_view;

    match value {
        Json::Object(map) => map.text_at(key),
        _ => None,
    }
}

fn find_menu_url<'a>(value: &'a Json) -> (text: Option<&'a str>)
    ensures
        match text {
            Some(text) => menu_url(value@) == Some(text@),
            None => menu_url(value@) is None,
        },
{
    broadcast use json::lemma_json_view;

    match value {
        Json::Object(map) => match map.member("web_app") {
            Some(app) => find_text(app, "url"),
            None => None,
        },
        _ => None,
    }
}

/// Reads a menu that Telegram sent.
pub fn telegram_chat_menu_response(value: &Json) -> (result: Result<ChatMenu, Error>)
    ensures
        match result {
            Ok(menu) => menu_flaw(value@) is None && reads_menu(menu, value@),
            Err(e) => menu_flaw(value@) == Some(e@),
        },
{
    let kind = match find_text(value, "type") {
        Some(kind) => kind,
        None => {
            return Err(message("Telegram menu button response has no type"));
        },
    };
    if same(kind, "default") {
        Ok(ChatMenu::Default)
    } else if same(kind, "commands") {
        Ok(ChatMenu::Commands)
    } else if same(kind, "web_app") {
        let text = match find_text(value, "text") {
            Some(text) => text.to_owned(),
            None => {
                return Err(message("Telegram Web App menu has no text"));
            },
        };
        let url = match find_menu_url(value) {
            Some(url) => url.to_owned(),
            None => {
                return Err(message("Telegram Web App menu has no URL"));
            },
        };
        Ok(ChatMenu::WebApp { text, url })
    } else {
        Ok(ChatMenu::PlatformNative(make_native(value.clone())))
    }
}

/// A menu that Telegram accepts is read back as it was written, but that a
/// native one can turn out to be one of the others.
pub proof fn law_chat_menu_round_trip(menu: ChatMenu, written: JsonView, read: ChatMenu)
    requires
        chat_menu_outcome(menu) == Ok::<JsonView, ErrorView>(written),
        !(menu is PlatformNative),
        menu_flaw(written) is None ==> reads_menu(read, written),
    ensures
        menu_flaw(written) is None,
        menu is Default ==> read is Default,
        menu is Commands ==> read is Commands,
        menu matches ChatMenu::WebApp { text, url } ==> (read matches ChatMenu::WebApp {
            text: read_text,
            url: read_url,
        } && read_text@ == text@ && read_url@ == url@),
{
    reveal_strlit("type");
    reveal_strlit("text");
    reveal_strlit("url");
    reveal_strlit("web_app");
    reveal_strlit("default");
    reveal_strlit("commands");
    assert("type"@.len() == 4 && "text"@.len() == 4 && "web_app"@.len() == 7 && "default"@.len()
        == 7 && "commands"@.len() == 8);
    assert("type"@[1] != "text"@[1]);
    assert("web_app"@[0] != "default"@[0]);
}

proof fn lemma_scope_names()
    ensures
        "default"@.len() == 7,
        "all_private_chats"@.len() == 17,
        "all_group_chats"@.len() == 15,
        "all_chat_administrators"@.len() == 23,
        "chat"@.len() == 4,
        "chat_administrators"@.len() == 19,
        "chat_member"@.len() == 11,
        "commands"@.len() == 8,
        "web_app"@.len() == 7,
        "default"@ != "web_app"@,
{
    reveal_strlit("default");
    reveal_strlit("all_private_chats");
    reveal_strlit("all_group_chats");
    reveal_strlit("all_chat_administrators");
    reveal_strlit("chat");
    reveal_strlit("chat_administrators");
    reveal_strlit("chat_member");
    reveal_strlit("commands");
    reveal_strlit("web_app");
    assert("default"@[0] != "web_app"@[0]);
}

proof fn lemma_scope_keys()
    ensures
        "type"@.len() == 4,
        "chat_id"@.len() == 7,
        "user_id"@.len() == 7,
        "text"@.len() == 4,
        "web_app"@.len() == 7,
        "type"@ != "text"@,
        "chat_id"@ != "user_id"@,
        "chat_id"@ != "web_app"@,
        "user_id"@ != "web_app"@,
{
    reveal_strlit("type");
    reveal_strlit("chat_id");
    reveal_strlit("user_id");
    reveal_strlit("text");
    reveal_strlit("web_app");
    assert("type"@[1] != "text"@[1]);
    assert("chat_id"@[0] != "user_id"@[0]);
    assert("chat_id"@[0] != "web_app"@[0]);
    assert("user_id"@[0] != "web_app"@[0]);
}

/// Each scope is called what Telegram calls it, and names its chat and its
/// member where it is about one; so no two scopes are taken for one another.
pub proof fn law_scopes_are_called_by_name(scope: CommandScope)
    requires
        command_scope_outcome(scope) is Ok,
        !(scope is PlatformNative),
    ensures
        ({
            let written = command_scope_outcome(scope)->Ok_0->Object_0;
            let name = json::text_in(written, "type"@);
            let chat = json::member(written, "chat_id"@);
            &&& command_scope_outcome(scope)->Ok_0 is Object
            &&& scope is Default <==> name == Some("default"@)
            &&& scope is AllPrivateChats <==> name == Some("all_private_chats"@)
            &&& scope is AllGroupChats <==> name == Some("all_group_chats"@)
            &&& scope is AllChatAdministrators <==> name == Some("all_chat_administrators"@)
            &&& scope is Chat <==> name == Some("chat"@)
            &&& scope is ChatAdministrators <==> name == Some("chat_administrators"@)
            &&& scope is ChatMember <==> name == Some("chat_member"@)
            &&& scope matches CommandScope::Chat { chat_id } ==> chat == Some(
                match text::i64_value(chat_id@) {
                    Some(id) => JsonView::Integer(id as int),
                    None => JsonView::Text(chat_id@),
                },
            )
            &&& scope matches CommandScope::ChatAdministrators { chat_id } ==> chat == Some(
                match text::i64_value(chat_id@) {
                    Some(id) => JsonView::Integer(id as int),
                    None => JsonView::Text(chat_id@),
                },
            )
            &&& scope matches CommandScope::ChatMember { chat_id, user_id } ==> chat == Some(
                match text::i64_value(chat_id@) {
                    Some(id) => JsonView::Integer(id as int),
                    None => JsonView::Text(chat_id@),
                },
            ) && json::i64_in(written, "user_id"@) == text::i64_value(user_id@)
        }),
{
    lemma_scope_names();
    lemma_scope_keys();
}

/// Commands that are all for direct chats go to all private chats, those for
/// administrators to all administrators, those for groups and channels to all
/// groups, and any other set of commands to everyone.
pub proof fn law_commands_go_where_they_are_for(
    commands: Seq<CommandDefinition>,
    scope: CommandScope,
)
    requires
        commands.len() > 0,
        is_definition_scope(scope, shared_contexts(commands)),
    ensures
        ({
            let list = commands[0].contexts@;
            let direct = list.len() > 0 && forall|i: int|
                0 <= i < list.len() ==> #[trigger] list[i] is Direct;
            let leading = list.len() > 0 && forall|i: int|
                0 <= i < list.len() ==> #[trigger] list[i] is Administrator;
            let grouped = list.len() > 0 && forall|i: int|
                0 <= i < list.len() ==> (#[trigger] list[i] is Group || list[i] is Channel);
            &&& direct <==> scope is AllPrivateChats
            &&& leading <==> scope is AllChatAdministrators
            &&& grouped <==> scope is AllGroupChats
            &&& !direct && !leading && !grouped <==> scope is Default
        }),
{
    let list = commands[0].contexts@;
    let all = context_set(list);
    let direct = set![ContextKind::Direct];
    let leading = set![ContextKind::Administrator];
    let grouped = set![ContextKind::Group, ContextKind::Channel];
    assert forall|i: int| 0 <= i < list.len() implies all.contains(
        context_kind(#[trigger] list[i]),
    ) by {}
    if list.len() > 0 {
        assert(all.contains(context_kind(list[0])));
        assert(all != Set::<ContextKind>::empty());
    } else {
        assert(all =~= Set::<ContextKind>::empty());
        assert(direct.contains(ContextKind::Direct));
        assert(leading.contains(ContextKind::Administrator));
    }
    if list.len() > 0 && forall|i: int| 0 <= i < list.len() ==> #[trigger] list[i] is Direct {
        assert(all =~= direct);
        assert(leading.contains(ContextKind::Administrator) && !direct.contains(
            ContextKind::Administrator,
        ));
        assert(!grouped.contains(ContextKind::Direct));
    }
    if list.len() > 0 && forall|i: int|
        0 <= i < list.len() ==> #[trigger] list[i] is Administrator {
        assert(all =~= leading);
        assert(direct.contains(ContextKind::Direct) && !leading.contains(ContextKind::Direct));
        assert(!grouped.contains(ContextKind::Administrator));
    }
    if list.len() > 0 && forall|i: int|
        0 <= i < list.len() ==> (#[trigger] list[i] is Group || list[i] is Channel) {
        assert(all.subset_of(grouped));
        assert(direct.contains(ContextKind::Direct) && !all.contains(ContextKind::Direct));
        assert(leading.contains(ContextKind::Administrator) && !all.contains(
            ContextKind::Administrator,
        ));
    }
    if all == direct {
        assert forall|i: int| 0 <= i < list.len() implies #[trigger] list[i] is Direct by {
            assert(all.contains(context_kind(list[i])));
        }
    }
    if all == leading {
        assert forall|i: int| 0 <= i < list.len() implies #[trigger] list[i] is Administrator by {
            assert(all.contains(context_kind(list[i])));
        }
    }
    if all.subset_of(grouped) {
        assert forall|i: int| 0 <= i < list.len() implies (#[trigger] list[i] is Group
            || list[i] is Channel) by {
            assert(all.contains(context_kind(list[i])));
            assert(grouped.contains(context_kind(list[i])));
        }
    }
}

/// A command is said in the language that was asked for where it is translated
/// into it, and otherwise as it was written; it stays as private as it was.
pub proof fn law_commands_are_translated(
    command: BotCommand,
    definition: CommandDefinition,
    locale: Option<Seq<char>>,
)
    requires
        is_localized_command(command, definition, locale),
    ensures
        locale is None ==> command.command@ == definition.name.default@ && command.description@
            == definition.description.default@,
        locale matches Some(language) ==> {
            &&& definition.name.translations@.contains_key(language) ==> command.command@
                == definition.name.translations@[language]@
            &&& !definition.name.translations@.contains_key(language) ==> command.command@
                == definition.name.default@
            &&& definition.description.translations@.contains_key(language) ==> command.description@
                == definition.description.translations@[language]@
            &&& !definition.description.translations@.contains_key(language)
                ==> command.description@ == definition.description.default@
        },
        command.is_ephemeral == definition.ephemeral,
{
}

/// A menu is called what Telegram calls it, and one that opens an application
/// says its text and its address.
pub proof fn law_menus_are_called_by_name(menu: ChatMenu)
    requires
        chat_menu_outcome(menu) is Ok,
        !(menu is PlatformNative),
    ensures
        ({
            let written = chat_menu_outcome(menu)->Ok_0->Object_0;
            let name = json::text_in(written, "type"@);
            &&& chat_menu_outcome(menu)->Ok_0 is Object
            &&& menu is Default <==> name == Some("default"@)
            &&& menu is Commands <==> name == Some("commands"@)
            &&& menu is WebApp <==> name == Some("web_app"@)
            &&& menu matches ChatMenu::WebApp { text, url } ==> text@.len() > 0 && json::text_in(
                written,
                "text"@,
            ) == Some(text@) && (json::object_in(written, "web_app"@) matches Some(app)
                && json::text_in(app, "url"@) == Some(url@))
        }),
{
    lemma_scope_names();
    lemma_scope_keys();
}

/// A command that is accepted is called by lowercase letters, digits and
/// underscores, at most 32 of them, and has a description.
pub proof fn law_accepted_commands_are_plain(command: BotCommand, i: int)
    requires
        command_rule(command) is Ok,
        0 <= i < command.command@.len(),
    ensures
        command.command@.len() <= 32,
        ({
            let c = command.command@[i];
            'a' <= c <= 'z' || '0' <= c <= '9' || c == '_'
        }),
        1 <= command.description@.len() <= 256,
{
    assert(is_command_char(command.command@[i]));
}

/// A command is refused only for its name or its description, and a language
/// only where it is not two lowercase letters.
pub proof fn law_commands_are_refused_only_for_cause(command: BotCommand, code: Seq<char>)
    ensures
        1 <= command.command@.len() <= 32 && (forall|i: int|
            0 <= i < command.command@.len() ==> ({
                let c = #[trigger] command.command@[i];
                'a' <= c <= 'z' || '0' <= c <= '9' || c == '_'
            })) && 1 <= command.description@.len() <= 256 ==> command_rule(command) is Ok,
        language_code_outcome(Some(code)) is Ok <==> code.len() == 2 && 'a' <= code[0] <= 'z' && 'a'
            <= code[1] <= 'z',
        language_code_outcome(None) is Ok,
{
}

} // verus!
