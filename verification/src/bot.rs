//! The bot: how it starts, and how it asks for updates.
use crate::api::request;
use crate::api::request::Request;
use crate::client;
use crate::client::{get_me, get_updates, ClientView, GetUpdatesConfig, TelegramClient};
use crate::error::{message, Error, ErrorView};
use crate::json;
use crate::telegram::User;
use crate::text;
use crate::text::i64_text;
use crate::utils;
use crate::utils::telegram_user_name;
use vstd::prelude::*;

verus! {

/// Who the bot is.
#[derive(Debug, PartialEq)]
pub struct BotInfo {
    pub id: Option<String>,
    pub nickname: Option<String>,
}

/// A bot that is to ask who it is before it runs.
pub struct StartingBot {
    client: TelegramClient,
    config: GetUpdatesConfig,
}

/// What is known of a starting bot.
pub struct StartingView {
    pub client: ClientView,
    pub config: GetUpdatesConfig,
}

impl View for StartingBot {
    type V = StartingView;

    closed spec fn view(&self) -> StartingView {
        StartingView { client: self.client@, config: self.config }
    }
}

/// A bot that knows who it is.
pub struct TelegramBot {
    client: TelegramClient,
    bot_info: BotInfo,
    config: GetUpdatesConfig,
}

/// What is known of a bot.
pub struct BotView {
    pub client: ClientView,
    pub id: Option<Seq<char>>,
    pub nickname: Option<Seq<char>>,
    pub config: GetUpdatesConfig,
}

impl View for TelegramBot {
    type V = BotView;

    closed spec fn view(&self) -> BotView {
        BotView {
            client: self.client@,
            id: json::optional_chars(self.bot_info.id),
            nickname: json::optional_chars(self.bot_info.nickname),
            config: self.config,
        }
    }
}

/// What is wrong with the way in which updates are to be asked for: Telegram
/// hands out between one and a hundred at a time.
pub open spec fn config_flaw(config: GetUpdatesConfig) -> Option<ErrorView> {
    if 1 <= config.limit <= 100 {
        None
    } else {
        Some(ErrorView::Message("Telegram getUpdates limit must be between 1 and 100"@))
    }
}

/// What comes of starting a bot: a token that is no token is found before a
/// limit that is none.
pub open spec fn starting_outcome(
    token: Seq<char>,
    api_base: Seq<char>,
    config: GetUpdatesConfig,
) -> Result<StartingView, ErrorView> {
    match client::token_flaw(token) {
        Some(flaw) => Err(flaw),
        None => match config_flaw(config) {
            Some(flaw) => Err(flaw),
            None => Ok(
                StartingView {
                    client: ClientView { token, api_base: client::without_slashes(api_base) },
                    config,
                },
            ),
        },
    }
}

impl StartingBot {
    #[verifier::type_invariant]
    spec fn well_formed(self) -> bool {
        1 <= self.config.limit <= 100
    }

    fn start(client: TelegramClient, config: GetUpdatesConfig) -> (result: Result<
        StartingBot,
        Error,
    >)
        ensures
            match result {
                Ok(bot) => config_flaw(config) is None && bot@ == (StartingView {
                    client: client@,
                    config,
                }),
                Err(e) => config_flaw(config) == Some(e@),
            },
    {
        if config.limit < 1 || config.limit > 100 {
            return Err(message("Telegram getUpdates limit must be between 1 and 100"));
        }
        Ok(StartingBot { client, config })
    }

    /// The call that asks who the bot is.
    pub fn request(&self) -> (result: Request)
        ensures
            result@ == request::call("getMe"@, json::no_fields()),
    {
        get_me()
    }

    /// The client that asks.
    pub fn client(&self) -> (result: &TelegramClient)
        ensures
            result@ == self@.client,
    {
        &self.client
    }

    /// The bot, now that it is known who it is.
    pub fn connected(self, me: &User) -> (bot: TelegramBot)
        ensures
            bot@ == (BotView {
                client: self@.client,
                id: Some(text::decimal(me.id as int)),
                nickname: Some(utils::user_name(*me)),
                config: self@.config,
            }),
    {
        let bot_info = BotInfo {
            id: Some(i64_text(me.id)),
            nickname: Some(telegram_user_name(me)),
        };
        TelegramBot { client: self.client, bot_info, config: self.config }
    }
}

impl TelegramBot {
    /// Starts a bot on Telegram's own server.
    pub fn try_new(token: &str, config: GetUpdatesConfig) -> (result: Result<StartingBot, Error>)
        ensures
            match result {
                Ok(bot) => starting_outcome(token@, "https://api.telegram.org"@, config) == Ok::<
                    StartingView,
                    ErrorView,
                >(bot@),
                Err(e) => starting_outcome(token@, "https://api.telegram.org"@, config) == Err::<
                    StartingView,
                    ErrorView,
                >(e@),
            },
    {
        Self::try_with_api_base(token, "https://api.telegram.org", config)
    }

    /// Starts a bot on the given server.
    pub fn try_with_api_base(token: &str, api_base: &str, config: GetUpdatesConfig) -> (result:
        Result<StartingBot, Error>)
        ensures
            match result {
                Ok(bot) => starting_outcome(token@, api_base@, config) == Ok::<
                    StartingView,
                    ErrorView,
                >(bot@),
                Err(e) => starting_outcome(token@, api_base@, config) == Err::<
                    StartingView,
                    ErrorView,
                >(e@),
            },
    {
        let client = TelegramClient::with_api_base(token, api_base)?;
        StartingBot::start(client, config)
    }

    /// The client, for what only Telegram has.
    pub fn client(&self) -> (result: &TelegramClient)
        ensures
            result@ == self@.client,
    {
        &self.client
    }

    /// Who the bot is.
    pub fn bot_info(&self) -> (result: &BotInfo)
        ensures
            json::optional_chars(result.id) == self@.id,
            json::optional_chars(result.nickname) == self@.nickname,
    {
        &self.bot_info
    }

    /// How the bot asks for updates at first.
    pub fn polling(&self) -> (result: Polling)
        ensures
            result@ == (PollingView {
                limit: self@.config.limit,
                timeout: self@.config.timeout,
                offset: self@.config.offset,
                allowed_updates: allowed(self@.config),
                delay: FIRST_DELAY,
            }),
    {
        let allowed_updates = match &self.config.allowed_updates {
            Some(names) => Some(copy_names(names)),
            None => None,
        };
        Polling {
            config: GetUpdatesConfig {
                limit: self.config.limit,
                timeout: self.config.timeout,
                offset: self.config.offset,
                allowed_updates,
            },
            delay: FIRST_DELAY,
        }
    }
}

/// The kinds of updates that are asked for.
pub open spec fn allowed(config: GetUpdatesConfig) -> Option<Seq<Seq<char>>> {
    match config.allowed_updates {
        Some(names) => Some(Seq::new(names@.len(), |i: int| names@[i]@)),
        None => None,
    }
}

fn copy_names(names: &Vec<String>) -> (copy: Vec<String>)
    ensures
        Seq::new(copy@.len(), |i: int| copy@[i]@) == Seq::new(names@.len(), |i: int| names@[i]@),
{
    let mut copy: Vec<String> = Vec::new();
    let mut i: usize = 0;
    while i < names.len()
        invariant
            i <= names@.len(),
            copy@.len() == i,
            forall|k: int| 0 <= k < i ==> (#[trigger] copy@[k])@ == names@[k]@,
        decreases names@.len() - i,
    {
        copy.push(names[i].clone());
        i += 1;
    }
    assert(Seq::new(copy@.len(), |i: int| copy@[i]@) =~= Seq::new(
        names@.len(),
        |i: int| names@[i]@,
    ));
    copy
}

// ---------------------------------------------------------------------------
// Asking for updates
// ---------------------------------------------------------------------------

/// How many seconds pass after the first failure.
pub const FIRST_DELAY: u64 = 1;

/// How many seconds pass at most after a failure, unless Telegram asks for
/// more.
pub const LONGEST_DELAY: u64 = 30;

/// Where the bot is in the stream of updates.
#[derive(Debug, PartialEq)]
pub struct Polling {
    config: GetUpdatesConfig,
    delay: u64,
}

/// Where the bot is in the stream of updates.
#[verifier::ext_equal]
pub struct PollingView {
    pub limit: u8,
    pub timeout: u16,
    pub offset: Option<i64>,
    pub allowed_updates: Option<Seq<Seq<char>>>,
    /// How many seconds pass after the next failure.
    pub delay: u64,
}

impl View for Polling {
    type V = PollingView;

    closed spec fn view(&self) -> PollingView {
        PollingView {
            limit: self.config.limit,
            timeout: self.config.timeout,
            offset: self.config.offset,
            allowed_updates: allowed(self.config),
            delay: self.delay,
        }
    }
}

/// What happens while the bot asks for updates.
#[derive(Debug, Clone, Copy, PartialEq, Eq, Structural)]
pub enum PollingEvent {
    /// An answer came.
    Answered,
    /// The update of this number is handed on.
    Taken(i64),
    /// No answer came; Telegram may say how many seconds to wait.
    Failed(Option<u64>),
}

/// The number after an update's, which is where the bot goes on.
pub open spec fn offset_after(update_id: i64) -> i64 {
    if update_id == i64::MAX {
        i64::MAX
    } else {
        (update_id + 1) as i64
    }
}

/// How long the bot waits after a failure.
pub open spec fn wait(state: PollingView, retry_after: Option<u64>) -> u64 {
    match retry_after {
        Some(seconds) => seconds,
        None => state.delay,
    }
}

/// Where the bot is after something happened.
pub open spec fn after(state: PollingView, event: PollingEvent) -> PollingView {
    match event {
        PollingEvent::Answered => PollingView { delay: FIRST_DELAY, ..state },
        PollingEvent::Taken(update_id) => PollingView {
            offset: Some(offset_after(update_id)),
            ..state
        },
        PollingEvent::Failed(Some(_)) => PollingView { delay: FIRST_DELAY, ..state },
        PollingEvent::Failed(None) => PollingView {
            delay: if 2 * state.delay <= LONGEST_DELAY {
                (2 * state.delay) as u64
            } else {
                LONGEST_DELAY
            },
            ..state
        },
    }
}

/// The call that asks for what comes next.
pub open spec fn next_call(state: PollingView) -> request::RequestView {
    request::call(
        "getUpdates"@,
        json::no_fields().insert("limit"@, json::JsonView::Integer(state.limit as int)).insert(
            "timeout"@,
            json::JsonView::Integer(state.timeout as int),
        ).insert("offset"@, json::optional_int_view(state.offset)).insert(
            "allowed_updates"@,
            match state.allowed_updates {
                Some(names) => json::JsonView::Array(
                    Seq::new(names.len(), |i: int| json::JsonView::Text(names[i])),
                ),
                None => json::JsonView::Null,
            },
        ),
    )
}

impl Polling {
    #[verifier::type_invariant]
    spec fn well_formed(self) -> bool {
        FIRST_DELAY <= self.delay <= LONGEST_DELAY
    }

    /// The call that asks for what comes next.
    pub fn request(&self) -> (result: Request)
        ensures
            result@ == next_call(self@),
    {
        proof {
            if self.config.allowed_updates is Some {
                let names = self.config.allowed_updates.unwrap();
                let texts = allowed(self.config).unwrap();
                assert(client::names_view(names@) == json::JsonView::Array(
                    Seq::new(texts.len(), |i: int| json::JsonView::Text(texts[i])),
                )) by {
                    assert(Seq::new(names@.len(), |i: int| json::JsonView::Text(names@[i]@))
                        =~= Seq::new(texts.len(), |i: int| json::JsonView::Text(texts[i])));
                }
            }
        }
        get_updates(&self.config)
    }

    /// An answer came.
    pub fn answered(&mut self)
        ensures
            final(self)@ == after(old(self)@, PollingEvent::Answered),
    {
        self.delay = FIRST_DELAY;
    }

    /// An update is handed on.
    pub fn taken(&mut self, update_id: i64)
        ensures
            final(self)@ == after(old(self)@, PollingEvent::Taken(update_id)),
    {
        proof {
            use_type_invariant(&*self);
        }
        let offset: i64 = if update_id == i64::MAX {
            i64::MAX
        } else {
            update_id + 1
        };
        self.config.offset = Some(offset);
    }

    /// No answer came: how many seconds to wait before the next call.
    pub fn failed(&mut self, retry_after: Option<u64>) -> (seconds: u64)
        ensures
            seconds == wait(old(self)@, retry_after),
            retry_after is None ==> FIRST_DELAY <= seconds <= LONGEST_DELAY,
            final(self)@ == after(old(self)@, PollingEvent::Failed(retry_after)),
    {
        proof {
            use_type_invariant(&*self);
        }
        let delay: u64 = self.delay;
        match retry_after {
            Some(seconds) => {
                self.delay = FIRST_DELAY;
                seconds
            },
            None => {
                self.delay = if 2 * delay <= LONGEST_DELAY {
                    2 * delay
                } else {
                    LONGEST_DELAY
                };
                delay
            },
        }
    }
}

/// Where the bot is after a number of things happened.
pub open spec fn after_all(state: PollingView, events: Seq<PollingEvent>) -> PollingView
    decreases events.len(),
{
    if events.len() == 0 {
        state
    } else {
        after(after_all(state, events.drop_last()), events.last())
    }
}

/// Whatever happens, the next wait that Telegram does not ask for lasts from
/// one to thirty seconds, and the bot asks for the same kinds of updates in the
/// same amounts.
pub proof fn law_waits_are_bounded(state: PollingView, events: Seq<PollingEvent>)
    requires
        FIRST_DELAY <= state.delay <= LONGEST_DELAY,
    ensures
        FIRST_DELAY <= after_all(state, events).delay <= LONGEST_DELAY,
        after_all(state, events).limit == state.limit,
        after_all(state, events).timeout == state.timeout,
        after_all(state, events).allowed_updates == state.allowed_updates,
    decreases events.len(),
{
    if events.len() > 0 {
        law_waits_are_bounded(state, events.drop_last());
    }
}

/// An update that was handed on as the last one is not asked for again,
/// whatever fails afterwards: the bot goes on behind it. The greatest number
/// that there is has none behind it.
pub proof fn law_taken_updates_are_passed(
    state: PollingView,
    update_id: i64,
    events: Seq<PollingEvent>,
)
    requires
        update_id < i64::MAX,
        forall|i: int| 0 <= i < events.len() ==> !(#[trigger] events[i] is Taken),
    ensures
        after_all(after(state, PollingEvent::Taken(update_id)), events).offset == Some(
            (update_id + 1) as i64,
        ),
    decreases events.len(),
{
    if events.len() > 0 {
        assert(!(events[events.len() - 1] is Taken));
        law_taken_updates_are_passed(state, update_id, events.drop_last());
    }
}

/// After an answer, or after a wait that Telegram asked for, a failure is waited
/// out from the start: one second.
pub proof fn law_waits_start_anew(state: PollingView, seconds: u64)
    ensures
        wait(after(state, PollingEvent::Answered), None) == FIRST_DELAY,
        wait(after(state, PollingEvent::Failed(Some(seconds))), None) == FIRST_DELAY,
        wait(state, Some(seconds)) == seconds,
{
}

/// Updates are asked for one to a hundred at a time.
pub proof fn law_updates_come_in_hundreds_at_most(config: GetUpdatesConfig)
    ensures
        config_flaw(config) is None <==> 1 <= config.limit <= 100,
{
}

/// Updates are asked for with the settings as they are, from the one after the
/// last that was taken.
pub proof fn law_updates_are_asked_for(state: PollingView, i: int)
    ensures
        ({
            let call = next_call(state);
            &&& call.method == "getUpdates"@
            &&& json::i64_in(call.payload, "limit"@) == Some(state.limit as i64)
            &&& json::i64_in(call.payload, "timeout"@) == Some(state.timeout as i64)
            &&& json::i64_in(call.payload, "offset"@) == state.offset
            &&& state.allowed_updates is None ==> json::member(call.payload, "allowed_updates"@) is None
            &&& state.allowed_updates matches Some(names) ==> (0 <= i < names.len() ==> (
            json::array_in(call.payload, "allowed_updates"@) matches Some(written) && written.len()
                == names.len() && written[i] == json::JsonView::Text(names[i])))
        }),
{
    lemma_setting_names();
    let payload = json::no_fields().insert(
        "limit"@,
        json::JsonView::Integer(state.limit as int),
    ).insert("timeout"@, json::JsonView::Integer(state.timeout as int)).insert(
        "offset"@,
        json::optional_int_view(state.offset),
    ).insert(
        "allowed_updates"@,
        match state.allowed_updates {
            Some(names) => json::JsonView::Array(
                Seq::new(names.len(), |i: int| json::JsonView::Text(names[i])),
            ),
            None => json::JsonView::Null,
        },
    );
    request::lemma_call_member("getUpdates"@, payload, "limit"@);
    request::lemma_call_member("getUpdates"@, payload, "timeout"@);
    request::lemma_call_member("getUpdates"@, payload, "offset"@);
    request::lemma_call_member("getUpdates"@, payload, "allowed_updates"@);
    if let Some(names) = state.allowed_updates {
        if 0 <= i < names.len() {
            json::lemma_stripped_item(
                Seq::new(names.len(), |i: int| json::JsonView::Text(names[i])),
                i,
            );
        }
    }
}

proof fn lemma_setting_names()
    ensures
        "limit"@.len() == 5,
        "timeout"@.len() == 7,
        "offset"@.len() == 6,
        "allowed_updates"@.len() == 15,
{
    reveal_strlit("limit");
    reveal_strlit("timeout");
    reveal_strlit("offset");
    reveal_strlit("allowed_updates");
}

/// The wait after a failure doubles with each failure in a row, up to half a
/// minute, and starts with one second.
pub proof fn law_waits_double(state: PollingView)
    ensures
        state.delay <= 15 ==> wait(after(state, PollingEvent::Failed(None)), None) == 2 * wait(
            state,
            None,
        ),
        state.delay > 15 ==> wait(after(state, PollingEvent::Failed(None)), None) == 30,
        wait(after(state, PollingEvent::Answered), None) == 1,
{
}

} // verus!
