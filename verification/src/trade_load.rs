//! How the items of a trade are loaded.
//!
//! The worker carries the actions out and tells how they went; every decision
//! between two actions is made here. The trade service is asked first, and the
//! page of the confirmation where the service does not tell. Then come the
//! partner's picture and the names of the games, as far as they are missing.
use std::collections::HashMap;
use vstd::prelude::*;

use crate::account::MobileAccount;
use crate::confirmation::TradeJob;
use crate::json::{parsed_json, text_field, Json};
use crate::mobile::{answer_error, read_mobile_response};
use crate::request::{
    community_cookie, confirmation_params, cookie_of, is_header_text, pairs, signed_params,
    signing_error,
};
use crate::text::concat2;
use crate::trade::{
    either, offered_trade, parse_api_offer, partner_fits, partner_number_fits, text_option, ItemView, TradeDetails,
    TradeView,
};
use crate::trade_extras::{
    all_items, asked_game, asked_games_are_settled, enter_known_games, enters_known, first_unnamed,
    game_from_store, icon_image, lemma_unnamed_is_needed, name_games, named, named_trade_is_complete, needs_game,
    next_unnamed_game, profile_account, profile_avatar, profile_to_ask, unnamed_count, with_icon,
};
use crate::trade_page::{can_be_read, is_page, page_in_answer, page_trade, parse_trade_html};

verus! {

// ---------------------------------------------------------------------------
// The states
// ---------------------------------------------------------------------------

/// What the worker has been asked to do.
#[derive(Debug, PartialEq, Eq)]
pub enum TradeStage {
    AskingService,
    AskingTime,
    AskingPage { time: u64 },
    AskingDetails,
    AskingProfile { details: TradeDetails },
    AskingGame { details: TradeDetails, app_id: u64 },
    Finished,
}

/// Where the loading of a trade stands.
#[derive(Debug, PartialEq, Eq)]
pub struct TradeLoad {
    pub job: TradeJob,
    pub stage: TradeStage,
}

/// What the worker is to do next.
#[derive(Debug, PartialEq, Eq)]
pub enum TradeAction {
    /// Nothing.
    Rest,
    /// Ask the trade service for the offer. Requests to the community carry the
    /// cookie from then on.
    AskService { cookie: String, access_token: String, offer_id: String },
    /// Ask Steam for the time.
    AskTime,
    /// Ask the community for the page of the confirmation.
    AskPage { id: String, params: Vec<(&'static str, String)> },
    /// Ask the community for the page of the confirmation in another way.
    AskDetails { id: String, params: Vec<(&'static str, String)> },
    /// Ask the community for a profile.
    AskProfile { account: u64 },
    /// Ask the store for a game.
    AskGame { app_id: u64 },
    /// Tell the window what was found.
    Finish { details: Result<TradeDetails, String> },
}

/// How an action went. What Steam answered comes as JSON where it is JSON.
#[derive(Debug)]
pub enum TradeReply {
    /// The worker could not even try: it has no connection.
    Unreachable(String),
    Service(Option<Json>),
    Time(Option<u64>),
    Unsent(String),
    Answered { status: u16, text: Result<String, String> },
    Profile(Option<Json>),
    Game(Option<Json>),
}

/// Where the loading stands now, and what the worker is to do next.
#[derive(Debug, PartialEq, Eq)]
pub struct TradeStep {
    pub load: TradeLoad,
    pub action: TradeAction,
}

// ---------------------------------------------------------------------------
// What a step says
// ---------------------------------------------------------------------------

/// Whether a step ends the loading with an error.
pub open spec fn gives_up(step: TradeStep, message: Seq<char>) -> bool {
    &&& step.load.stage is Finished
    &&& step.action matches TradeAction::Finish { details: Err(told) } && told@ == message
}

/// Whether a step asks for the next game whose name is missing, or ends the
/// loading where none is. The names that are known without asking are entered
/// before.
pub open spec fn asks_names(
    step: TradeStep,
    details: TradeView,
    before: Map<u64, String>,
    after: Map<u64, String>,
) -> bool {
    &&& enters_known(all_items(details), before, after)
    &&& match first_unnamed(all_items(details), after) {
        Some(game) => {
            &&& step.load.stage matches TradeStage::AskingGame { details: kept, app_id }
                && kept@ == details && app_id == game
            &&& step.action == (TradeAction::AskGame { app_id: game })
        },
        None => {
            &&& step.load.stage is Finished
            &&& step.action matches TradeAction::Finish { details: Ok(told) } && told@
                == (TradeView {
                giving: details.giving.map_values(|item: ItemView| named(item, after)),
                receiving: details.receiving.map_values(|item: ItemView| named(item, after)),
                ..details
            })
        },
    }
}

/// A trade with the icon of its confirmation as the partner's picture.
pub open spec fn with_own_icon(details: TradeView, icon: Option<Seq<char>>) -> TradeView {
    TradeView { avatar: either(icon_image(icon), details.avatar), ..details }
}

/// Whether a step goes on with the items of a trade: the partner's picture is
/// asked for where there is none yet, and then the names of the games.
pub open spec fn goes_on(
    step: TradeStep,
    job: TradeJob,
    details: TradeView,
    before: Map<u64, String>,
    after: Map<u64, String>,
) -> bool {
    let shown = with_own_icon(details, text_option(job.icon));
    match profile_account(shown) {
        Some(account) => {
            &&& step.load.stage matches TradeStage::AskingProfile { details: kept } && kept@ == shown
            &&& step.action == (TradeAction::AskProfile { account })
            &&& after == before
        },
        None => asks_names(step, shown, before, after),
    }
}

/// Whether a step goes on with what the page of a confirmation shows.
pub open spec fn reads_page(
    step: TradeStep,
    job: TradeJob,
    html: Seq<char>,
    before: Map<u64, String>,
    after: Map<u64, String>,
) -> bool {
    match page_trade(html, job.creator_id@) {
        Ok(details) => goes_on(step, job, details, before, after),
        Err(message) => gives_up(step, message) && after == before,
    }
}

/// Whether parameters are those of a request for the page of a confirmation.
pub open spec fn asks_page(
    params: Seq<(&'static str, String)>,
    account: MobileAccount,
    time: u64,
) -> bool {
    pairs(params) == signed_params(account, time, "details"@)
}

fn gave_up(job: TradeJob, message: String) -> (r: TradeStep)
    ensures
        r.load.job == job,
        gives_up(r, message@),
{
    TradeStep {
        load: TradeLoad { job, stage: TradeStage::Finished },
        action: TradeAction::Finish { details: Err(message) },
    }
}

fn ask_names(job: TradeJob, details: TradeDetails, games: &mut HashMap<u64, String>) -> (r:
    TradeStep)
    ensures
        r.load.job == job,
        asks_names(r, details@, old(games)@, final(games)@),
{
    enter_known_games(&details, games);
    match next_unnamed_game(&details, games) {
        Some(app_id) => TradeStep {
            load: TradeLoad { job, stage: TradeStage::AskingGame { details, app_id } },
            action: TradeAction::AskGame { app_id },
        },
        None => TradeStep {
            load: TradeLoad { job, stage: TradeStage::Finished },
            action: TradeAction::Finish { details: Ok(name_games(details, games)) },
        },
    }
}

fn go_on(job: TradeJob, details: TradeDetails, games: &mut HashMap<u64, String>) -> (r: TradeStep)
    ensures
        r.load.job == job,
        goes_on(r, job, details@, old(games)@, final(games)@),
{
    let shown = with_icon(
        details,
        match &job.icon {
            Some(icon) => Some(icon.as_str()),
            None => None,
        },
    );
    match profile_to_ask(&shown) {
        Some(account) => TradeStep {
            load: TradeLoad { job, stage: TradeStage::AskingProfile { details: shown } },
            action: TradeAction::AskProfile { account },
        },
        None => ask_names(job, shown, games),
    }
}

fn read_page(job: TradeJob, html: &str, games: &mut HashMap<u64, String>) -> (r: Option<TradeStep>)
    ensures
        match r {
            Some(step) => is_page(html@) && step.load.job == job && reads_page(
                step,
                job,
                html@,
                old(games)@,
                final(games)@,
            ),
            None => !is_page(html@) && final(games)@ == old(games)@,
        },
{
    if !can_be_read(html) {
        return None;
    }
    Some(
        match parse_trade_html(html, job.creator_id.as_str()) {
            Ok(details) => go_on(job, details, games),
            Err(message) => gave_up(job, message),
        },
    )
}

// ---------------------------------------------------------------------------
// The steps
// ---------------------------------------------------------------------------

/// Whether a step begins to load the items of a trade.
pub open spec fn begins_trade(job: TradeJob, step: TradeStep) -> bool {
    match job.account.tokens {
        None => gives_up(step, "Нужна авторизация Steam"@),
        Some(tokens) => {
            let session = cookie_of(job.account.steam_id, tokens.access_token@);
            if is_header_text(session) {
                &&& step.load.stage is AskingService
                &&& step.action matches TradeAction::AskService { cookie, access_token, offer_id }
                    && cookie@ == session && access_token == tokens.access_token && offer_id
                    == job.creator_id
            } else {
                gives_up(step, "Некорректная сессия Steam"@)
            }
        },
    }
}

/// Begins to load the items of a trade.
pub fn begin_trade(job: TradeJob) -> (r: TradeStep)
    ensures
        r.load.job == job,
        begins_trade(job, r),
{
    let cookie = match community_cookie(&job.account) {
        Ok(cookie) => cookie,
        Err(message) => return gave_up(job, message),
    };
    let access_token = match &job.account.tokens {
        Some(tokens) => tokens.access_token.clone(),
        None => return gave_up(job, "Нужна авторизация Steam".to_owned()),
    };
    let offer_id = job.creator_id.clone();
    TradeStep {
        load: TradeLoad { job, stage: TradeStage::AskingService },
        action: TradeAction::AskService { cookie, access_token, offer_id },
    }
}

/// Whether a reply can be taken: the number of the partner that the trade
/// service tells of has to fit 64 bits, and the page of the confirmation has to
/// fit the buffers of the HTML library.
pub open spec fn can_take(load: TradeLoad, reply: TradeReply) -> bool {
    match (load.stage, reply) {
        (TradeStage::AskingService, TradeReply::Service(Some(body))) => partner_fits(
            body.tree(),
            load.job.creator_id@,
        ),
        (
            TradeStage::AskingPage { .. },
            TradeReply::Answered { status, text: Ok(html) },
        ) => 200 <= status < 300 ==> is_page(html@),
        (TradeStage::AskingDetails, TradeReply::Answered { status, text }) => match page_in_details(
            status,
            text,
        ) {
            Some(html) => is_page(html),
            None => true,
        },
        _ => true,
    }
}

/// The page that the answer to the other request carries, if it does.
pub open spec fn page_in_details(status: u16, text: Result<String, String>) -> Option<Seq<char>> {
    if answer_error(status, text) is None {
        text_field(parsed_json(text->Ok_0@)->0, "html"@)
    } else {
        None
    }
}

/// Whether a step is what becomes of the trade service's answer: the page is
/// asked for where the answer does not tell of the wanted trade.
pub open spec fn after_service(
    step: TradeStep,
    job: TradeJob,
    body: Option<Json>,
    before: Map<u64, String>,
    after: Map<u64, String>,
) -> bool {
    match body {
        Some(json) if offered_trade(json.tree(), job.creator_id@) is Ok => goes_on(
            step,
            job,
            offered_trade(json.tree(), job.creator_id@)->Ok_0,
            before,
            after,
        ),
        _ => step.load.stage is AskingTime && step.action is AskTime && after == before,
    }
}

/// Whether a step is what becomes of Steam's time: the page is asked for with
/// parameters that are signed at that time.
pub open spec fn after_time(step: TradeStep, job: TradeJob, time: Option<u64>) -> bool {
    match time {
        None => gives_up(step, "Не удалось получить время Steam"@),
        Some(time) => match signing_error(job.account) {
            Some(message) => gives_up(step, message),
            None => {
                &&& step.load.stage == (TradeStage::AskingPage { time })
                &&& step.action matches TradeAction::AskPage { id, params } && id == job.id
                    && asks_page(params@, job.account, time)
            },
        },
    }
}

/// Whether a step is what becomes of the answer to the request for the page: a
/// refused one is asked for in another way, with the same parameters.
pub open spec fn after_page(
    step: TradeStep,
    job: TradeJob,
    time: u64,
    status: u16,
    text: Result<String, String>,
    before: Map<u64, String>,
    after: Map<u64, String>,
) -> bool {
    if 200 <= status < 300 {
        match text {
            Ok(html) => reads_page(step, job, html@, before, after),
            Err(_) => gives_up(step, "Не удалось прочитать состав обмена"@) && after == before,
        }
    } else {
        &&& after == before
        &&& match signing_error(job.account) {
            Some(message) => gives_up(step, message),
            None => {
                &&& step.load.stage is AskingDetails
                &&& step.action matches TradeAction::AskDetails { id, params } && id == job.id
                    && asks_page(params@, job.account, time)
            },
        }
    }
}

/// Whether a step is what becomes of the answer to the other request for the
/// page.
pub open spec fn after_details(
    step: TradeStep,
    job: TradeJob,
    status: u16,
    text: Result<String, String>,
    before: Map<u64, String>,
    after: Map<u64, String>,
) -> bool {
    match answer_error(status, text) {
        Some(told) => gives_up(step, told.0) && after == before,
        None => match text_field(parsed_json(text->Ok_0@)->0, "html"@) {
            Some(html) => reads_page(step, job, html, before, after),
            None => gives_up(step, "Steam не вернул состав обмена"@) && after == before,
        },
    }
}

/// A trade with the picture that a profile shows.
pub open spec fn with_profile(details: TradeView, body: Option<Json>) -> TradeView {
    TradeView {
        avatar: match body {
            Some(json) => icon_image(text_field(json.tree(), "avatar_url"@)),
            None => None,
        },
        ..details
    }
}

/// Whether a step is what becomes of the store's answer: the name that it tells
/// is learned, and the next one is asked for.
pub open spec fn after_game(
    step: TradeStep,
    details: TradeView,
    app_id: u64,
    body: Option<Json>,
    before: Map<u64, String>,
    after: Map<u64, String>,
) -> bool {
    exists|name: String|
        name@ == asked_game(
            match body {
                Some(json) => Some(json.tree()),
                None => None,
            },
            app_id,
        ) && asks_names(step, details, #[trigger] before.insert(app_id, name), after)
}

/// Whether a step, and the names of the games behind it, are what becomes of a
/// reply. A reply to something else than what was asked changes nothing.
pub open spec fn trade_follows(
    load: TradeLoad,
    reply: TradeReply,
    before: Map<u64, String>,
    step: TradeStep,
    after: Map<u64, String>,
) -> bool {
    let job = load.job;
    &&& step.load.job == job
    &&& match (load.stage, reply) {
        (TradeStage::AskingService, TradeReply::Unreachable(error)) => gives_up(step, error@)
            && after == before,
        (TradeStage::AskingService, TradeReply::Service(body)) => after_service(
            step,
            job,
            body,
            before,
            after,
        ),
        (TradeStage::AskingTime, TradeReply::Time(time)) => after_time(step, job, time) && after
            == before,
        (TradeStage::AskingPage { .. }, TradeReply::Unsent(error)) => gives_up(
            step,
            "Не удалось загрузить состав обмена: "@ + error@,
        ) && after == before,
        (TradeStage::AskingPage { time }, TradeReply::Answered { status, text }) => after_page(
            step,
            job,
            time,
            status,
            text,
            before,
            after,
        ),
        (TradeStage::AskingDetails, TradeReply::Unsent(error)) => gives_up(
            step,
            "Не удалось загрузить состав обмена: "@ + error@,
        ) && after == before,
        (TradeStage::AskingDetails, TradeReply::Answered { status, text }) => after_details(
            step,
            job,
            status,
            text,
            before,
            after,
        ),
        (TradeStage::AskingProfile { details }, TradeReply::Profile(body)) => asks_names(
            step,
            with_profile(details@, body),
            before,
            after,
        ),
        (TradeStage::AskingGame { details, app_id }, TradeReply::Game(body)) => after_game(
            step,
            details@,
            app_id,
            body,
            before,
            after,
        ),
        _ => step.load == load && step.action is Rest && after == before,
    }
}

fn take_service(job: TradeJob, body: Option<Json>, games: &mut HashMap<u64, String>) -> (r: Option<
    TradeStep,
>)
    ensures
        match r {
            Some(step) => {
                &&& body matches Some(json) ==> partner_fits(json.tree(), job.creator_id@)
                &&& step.load.job == job
                &&& after_service(step, job, body, old(games)@, final(games)@)
            },
            None => body is Some && !partner_fits(body->0.tree(), job.creator_id@) && final(games)@
                == old(games)@,
        },
{
    if let Some(json) = &body {
        if !partner_number_fits(json, job.creator_id.as_str()) {
            return None;
        }
        if let Ok(details) = parse_api_offer(json, job.creator_id.as_str()) {
            return Some(go_on(job, details, games));
        }
    }
    Some(
        TradeStep {
            load: TradeLoad { job, stage: TradeStage::AskingTime },
            action: TradeAction::AskTime,
        },
    )
}

fn take_time(job: TradeJob, time: Option<u64>) -> (r: TradeStep)
    ensures
        r.load.job == job,
        after_time(r, job, time),
{
    let time: u64 = match time {
        Some(time) => time,
        None => return gave_up(job, "Не удалось получить время Steam".to_owned()),
    };
    match confirmation_params(&job.account, time, "details") {
        Ok(params) => {
            let id = job.id.clone();
            TradeStep {
                load: TradeLoad { job, stage: TradeStage::AskingPage { time } },
                action: TradeAction::AskPage { id, params },
            }
        },
        Err(message) => gave_up(job, message),
    }
}

fn take_page(
    job: TradeJob,
    time: u64,
    status: u16,
    text: Result<String, String>,
    games: &mut HashMap<u64, String>,
) -> (r: Option<TradeStep>)
    ensures
        match r {
            Some(step) => {
                &&& 200 <= status < 300 && text is Ok ==> is_page(text->Ok_0@)
                &&& step.load.job == job
                &&& after_page(step, job, time, status, text, old(games)@, final(games)@)
            },
            None => 200 <= status < 300 && text is Ok && !is_page(text->Ok_0@) && final(games)@
                == old(games)@,
        },
{
    if 200 <= status && status < 300 {
        return match text {
            Ok(html) => read_page(job, html.as_str(), games),
            Err(_) => Some(gave_up(job, "Не удалось прочитать состав обмена".to_owned())),
        };
    }
    Some(
        match confirmation_params(&job.account, time, "details") {
            Ok(params) => {
                let id = job.id.clone();
                TradeStep {
                    load: TradeLoad { job, stage: TradeStage::AskingDetails },
                    action: TradeAction::AskDetails { id, params },
                }
            },
            Err(message) => gave_up(job, message),
        },
    )
}

fn take_details(
    job: TradeJob,
    status: u16,
    text: Result<String, String>,
    games: &mut HashMap<u64, String>,
) -> (r: Option<TradeStep>)
    ensures
        match r {
            Some(step) => {
                &&& page_in_details(status, text) matches Some(html) ==> is_page(html)
                &&& step.load.job == job
                &&& after_details(step, job, status, text, old(games)@, final(games)@)
            },
            None => page_in_details(status, text) is Some && !is_page(
                page_in_details(status, text)->0,
            ) && final(games)@ == old(games)@,
        },
{
    match read_mobile_response(status, text) {
        Ok(body) => match page_in_answer(&body) {
            Ok(html) => read_page(job, html.as_str(), games),
            Err(message) => Some(gave_up(job, message)),
        },
        Err(message) => Some(gave_up(job, message)),
    }
}

/// What becomes of a reply, if it can be taken. Every name of a game that an
/// item is given is kept for the trades to come.
pub fn advance_trade(load: TradeLoad, reply: TradeReply, games: &mut HashMap<u64, String>) -> (r:
    Option<TradeStep>)
    ensures
        match r {
            Some(step) => can_take(load, reply) && trade_follows(
                load,
                reply,
                old(games)@,
                step,
                final(games)@,
            ),
            None => !can_take(load, reply) && final(games)@ == old(games)@,
        },
{
    broadcast use vstd::std_specs::hash::group_hash_axioms;

    let job = load.job;
    let step = match (load.stage, reply) {
        (TradeStage::AskingService, TradeReply::Unreachable(error)) => gave_up(job, error),
        (TradeStage::AskingService, TradeReply::Service(body)) => return take_service(
            job,
            body,
            games,
        ),
        (TradeStage::AskingTime, TradeReply::Time(time)) => take_time(job, time),
        (TradeStage::AskingPage { .. }, TradeReply::Unsent(error)) => gave_up(
            job,
            concat2("Не удалось загрузить состав обмена: ", error.as_str()),
        ),
        (TradeStage::AskingPage { time }, TradeReply::Answered { status, text }) => return take_page(
            job,
            time,
            status,
            text,
            games,
        ),
        (TradeStage::AskingDetails, TradeReply::Unsent(error)) => gave_up(
            job,
            concat2("Не удалось загрузить состав обмена: ", error.as_str()),
        ),
        (TradeStage::AskingDetails, TradeReply::Answered { status, text }) => return take_details(
            job,
            status,
            text,
            games,
        ),
        (TradeStage::AskingProfile { details }, TradeReply::Profile(body)) => {
            let avatar = match &body {
                Some(json) => profile_avatar(json),
                None => None,
            };
            let shown = TradeDetails {
                giving: details.giving,
                receiving: details.receiving,
                partner_id: details.partner_id,
                avatar,
            };
            ask_names(job, shown, games)
        },
        (TradeStage::AskingGame { details, app_id }, TradeReply::Game(body)) => {
            let name = match &body {
                Some(json) => game_from_store(Some(json), app_id),
                None => game_from_store(None, app_id),
            };
            games.insert(app_id, name);
            assert(old(games)@.insert(app_id, name) == games@);
            ask_names(job, details, games)
        },
        (stage, _) => TradeStep { load: TradeLoad { job, stage }, action: TradeAction::Rest },
    };
    Some(step)
}

// ---------------------------------------------------------------------------
// What holds over several steps
// ---------------------------------------------------------------------------

/// Whether the game that a loading asks for is the next one that is missing.
pub open spec fn asks_missing_game(load: TradeLoad, games: Map<u64, String>) -> bool {
    load.stage matches TradeStage::AskingGame { details, app_id } ==> first_unnamed(
        all_items(details@),
        games,
    ) == Some(app_id)
}

/// How far a loading is from its end, before the names of the games count.
pub open spec fn trade_rank(stage: TradeStage) -> nat {
    match stage {
        TradeStage::AskingService => 6,
        TradeStage::AskingTime => 5,
        TradeStage::AskingPage { .. } => 4,
        TradeStage::AskingDetails => 3,
        TradeStage::AskingProfile { .. } => 2,
        TradeStage::AskingGame { .. } => 1,
        TradeStage::Finished => 0,
    }
}

/// How many names of games are still missing.
pub open spec fn names_missing(load: TradeLoad, games: Map<u64, String>) -> nat {
    match load.stage {
        TradeStage::AskingGame { details, .. } => unnamed_count(all_items(details@), games),
        _ => 0,
    }
}

/// The loading of a trade comes to an end: every step that is not at rest
/// brings it to a later stage, or leaves fewer names of games missing; and it
/// only ever asks for a game whose name is missing.
pub proof fn trade_loading_ends(
    load: TradeLoad,
    reply: TradeReply,
    before: Map<u64, String>,
    step: TradeStep,
    after: Map<u64, String>,
)
    requires
        asks_missing_game(load, before),
        trade_follows(load, reply, before, step, after),
    ensures
        asks_missing_game(step.load, after),
        step.action is Rest || trade_rank(step.load.stage) < trade_rank(load.stage) || (trade_rank(
            step.load.stage,
        ) == trade_rank(load.stage) && names_missing(step.load, after) < names_missing(
            load,
            before,
        )),
{
    if let (TradeStage::AskingGame { details, app_id }, TradeReply::Game(body)) = (
        load.stage,
        reply,
    ) {
        let name = learned_name(step, details@, app_id, body, before, after);
        let more = before.insert(app_id, name);
        assert forall|id: u64| before.contains_key(id) implies #[trigger] after.contains_key(
            id,
        ) by {
            assert(more.contains_key(id));
        }
        assert(more.contains_key(app_id) && after.contains_key(app_id));
        asked_games_are_settled(details@, before, after);
    }
}

/// The name that was learned of the store's answer.
spec fn learned_name(
    step: TradeStep,
    details: TradeView,
    app_id: u64,
    body: Option<Json>,
    before: Map<u64, String>,
    after: Map<u64, String>,
) -> String {
    choose|name: String|
        name@ == asked_game(
            match body {
                Some(json) => Some(json.tree()),
                None => None,
            },
            app_id,
        ) && asks_names(step, details, #[trigger] before.insert(app_id, name), after)
}

/// What was learned stays: no step takes a name of a game back or changes it,
/// and a step that gives up learns none.
pub proof fn learned_names_stay(
    load: TradeLoad,
    reply: TradeReply,
    before: Map<u64, String>,
    step: TradeStep,
    after: Map<u64, String>,
    app_id: u64,
)
    requires
        asks_missing_game(load, before),
        trade_follows(load, reply, before, step, after),
    ensures
        before.contains_key(app_id) ==> after.contains_key(app_id) && after[app_id]
            == before[app_id],
        step.action matches TradeAction::Finish { details: Err(_) } ==> after == before,
{
    assert(after.contains_key(app_id) || !after.contains_key(app_id));
    if let (TradeStage::AskingGame { details, app_id: asked }, TradeReply::Game(body)) = (
        load.stage,
        reply,
    ) {
        let name = learned_name(step, details@, asked, body, before, after);
        let more = before.insert(asked, name);
        assert(before.contains_key(app_id) ==> more.contains_key(app_id));
        lemma_unnamed_is_needed(all_items(details@), before);
    }
}

/// Only what a trade lacks is learned: a name that a step adds is of a game
/// that an item of the trade did not tell.
pub proof fn only_missing_names_are_learned(
    step: TradeStep,
    details: TradeView,
    before: Map<u64, String>,
    after: Map<u64, String>,
    app_id: u64,
)
    requires
        asks_names(step, details, before, after),
        after.contains_key(app_id),
    ensures
        before.contains_key(app_id) || needs_game(all_items(details), app_id),
{
}

/// Only what a trade lacks is learned of the store: the name in its answer is
/// of a game that an item of the trade did not tell, and so are the known names
/// that come with it.
pub proof fn only_missing_names_are_asked(
    step: TradeStep,
    details: TradeView,
    asked: u64,
    body: Option<Json>,
    before: Map<u64, String>,
    after: Map<u64, String>,
    app_id: u64,
)
    requires
        after_game(step, details, asked, body, before, after),
        first_unnamed(all_items(details), before) == Some(asked),
        after.contains_key(app_id),
    ensures
        before.contains_key(app_id) || needs_game(all_items(details), app_id),
{
    let name = learned_name(step, details, asked, body, before, after);
    lemma_unnamed_is_needed(all_items(details), before);
    only_missing_names_are_learned(step, details, before.insert(asked, name), after, app_id);
}

/// A trade that is shown takes its names from what was learned: an item that
/// arrived without a game has the name that is kept for it, and any other is
/// as it arrived.
pub proof fn shown_names_are_kept(
    step: TradeStep,
    details: TradeView,
    before: Map<u64, String>,
    after: Map<u64, String>,
    i: int,
)
    requires
        asks_names(step, details, before, after),
        step.load.stage is Finished,
        0 <= i < all_items(details).len(),
    ensures
        ({
            let item = all_items(details)[i];
            &&& step.action matches TradeAction::Finish { details: Ok(told) }
            &&& all_items(told@).len() == all_items(details).len()
            &&& if item.game.len() > 0 {
                all_items(told@)[i] == item
            } else {
                &&& after.contains_key(item.app_id)
                &&& all_items(told@)[i] == ItemView { game: after[item.app_id]@, ..item }
            }
        }),
{
    named_trade_is_complete(details, after, i);
}

/// The items in an answer of the trade service are taken only where the answer
/// is of the wanted offer: any other leads on to the page.
pub proof fn service_items_are_of_the_offer(
    load: TradeLoad,
    body: Json,
    before: Map<u64, String>,
    step: TradeStep,
    after: Map<u64, String>,
)
    requires
        load.stage is AskingService,
        trade_follows(load, TradeReply::Service(Some(body)), before, step, after),
        !(step.load.stage is AskingTime),
    ensures
        text_field(crate::trade::offer_in(body.tree()), "tradeofferid"@) == Some(
            load.job.creator_id@,
        ),
{
}

/// The trade service is asked for the offer that the confirmation names, with
/// the account's own session and cookie. An account without a session, or with
/// one that no header can carry, is asked nothing.
pub proof fn services_are_asked_for_the_offer(job: TradeJob, step: TradeStep)
    requires
        begins_trade(job, step),
    ensures
        step.action is AskService <==> (job.account.tokens matches Some(tokens) && is_header_text(
            cookie_of(job.account.steam_id, tokens.access_token@),
        )),
        step.action matches TradeAction::AskService { cookie, access_token, offer_id } ==> {
            &&& offer_id@ == job.creator_id@
            &&& job.account.tokens matches Some(tokens) && access_token@ == tokens.access_token@
                && cookie@ == "steamLoginSecure="@ + crate::text::decimal(
                job.account.steam_id as nat,
            ) + "%7C%7C"@ + tokens.access_token@ + "; steamid="@ + crate::text::decimal(
                job.account.steam_id as nat,
            )
        },
        job.account.tokens is None ==> (step.action matches TradeAction::Finish {
            details: Err(told),
        } && told@ == "Нужна авторизация Steam"@),
{
}

/// Where the service does not tell of the wanted trade, the page is asked for:
/// first the time, then the page of this very confirmation, signed at that time
/// under the tag of details, and where that is refused, once more in the other
/// way with the same time.
pub proof fn pages_stand_in_for_the_service(
    load: TradeLoad,
    reply: TradeReply,
    before: Map<u64, String>,
    step: TradeStep,
    after: Map<u64, String>,
    time: u64,
)
    requires
        trade_follows(load, reply, before, step, after),
        signing_error(load.job.account) is None,
    ensures
        load.stage is AskingService && reply == TradeReply::Service(None) ==> step.action is AskTime,
        load.stage is AskingTime && reply == TradeReply::Time(Some(time)) ==> (
        step.action matches TradeAction::AskPage { id, params } && id@ == load.job.id@ && pairs(
            params@,
        ) == signed_params(load.job.account, time, "details"@)) && step.load.stage
            == (TradeStage::AskingPage { time }),
        load.stage == (TradeStage::AskingPage { time }) ==> (reply matches TradeReply::Answered {
            status,
            ..
        } ==> (!(200 <= status < 300) ==> (step.action matches TradeAction::AskDetails {
            id,
            params,
        } && id@ == load.job.id@ && pairs(params@) == signed_params(
            load.job.account,
            time,
            "details"@,
        )))),
{
}

/// Whatever cannot be asked or read ends the loading with its reason, and never
/// with a trade.
pub proof fn unreadable_trades_are_told(
    load: TradeLoad,
    reply: TradeReply,
    before: Map<u64, String>,
    step: TradeStep,
    after: Map<u64, String>,
)
    requires
        trade_follows(load, reply, before, step, after),
    ensures
        load.stage is AskingTime && reply == TradeReply::Time(None) ==> (
        step.action matches TradeAction::Finish { details: Err(told) } && told@
            == "Не удалось получить время Steam"@),
        (load.stage is AskingPage || load.stage is AskingDetails) ==> (
        reply matches TradeReply::Unsent(error) ==> (step.action matches TradeAction::Finish {
            details: Err(told),
        } && told@ == "Не удалось загрузить состав обмена: "@ + error@)),
        load.stage is AskingService ==> (reply matches TradeReply::Unreachable(error) ==> (
        step.action matches TradeAction::Finish { details: Err(told) } && told@ == error@)),
        load.stage is AskingPage ==> (reply matches TradeReply::Answered { status, text } ==> (200
            <= status < 300 && text is Err ==> (step.action matches TradeAction::Finish {
            details: Err(told),
        } && told@ == "Не удалось прочитать состав обмена"@))),
        step.load.job == load.job,
{
}

/// What is shown of a trade has the sides and the partner that were read, and
/// the icon of its own confirmation as the partner's picture where that may be
/// loaded.
pub proof fn shown_trades_keep_their_sides(details: TradeView, icon: Option<Seq<char>>)
    ensures
        with_own_icon(details, icon).giving == details.giving,
        with_own_icon(details, icon).receiving == details.receiving,
        with_own_icon(details, icon).partner_id == details.partner_id,
        icon_image(icon) is Some ==> with_own_icon(details, icon).avatar == icon_image(icon),
        icon_image(icon) is None ==> with_own_icon(details, icon).avatar == details.avatar,
{
}

/// A profile gives its picture, from `avatar_url`, and changes nothing else of a
/// trade.
pub proof fn profiles_give_their_picture(details: TradeView, body: Json, address: Seq<char>)
    ensures
        with_profile(details, Some(body)).giving == details.giving,
        with_profile(details, Some(body)).receiving == details.receiving,
        with_profile(details, Some(body)).partner_id == details.partner_id,
        crate::json::field_of(body.tree(), "avatar_url"@) == Some(
            crate::json::JsonTree::Text(address),
        ) ==> with_profile(details, Some(body)).avatar == crate::address::image_address(address),
        with_profile(details, None).avatar is None,
{
}

/// A trade that is told has as many items on either side as were read, in their
/// order, each under its own name, number, picture and amount.
pub proof fn told_trades_have_all_their_items(
    step: TradeStep,
    details: TradeView,
    before: Map<u64, String>,
    after: Map<u64, String>,
    told: TradeDetails,
    i: int,
)
    requires
        asks_names(step, details, before, after),
        step.action == (TradeAction::Finish { details: Ok(told) }),
    ensures
        told@.giving.len() == details.giving.len(),
        told@.receiving.len() == details.receiving.len(),
        told@.partner_id == details.partner_id,
        told@.avatar == details.avatar,
        0 <= i < details.giving.len() ==> told@.giving[i].name == details.giving[i].name
            && told@.giving[i].amount == details.giving[i].amount && told@.giving[i].app_id
            == details.giving[i].app_id && told@.giving[i].image == details.giving[i].image,
        0 <= i < details.receiving.len() ==> told@.receiving[i].name == details.receiving[i].name
            && told@.receiving[i].amount == details.receiving[i].amount && told@.receiving[i].app_id
            == details.receiving[i].app_id && told@.receiving[i].image == details.receiving[i].image,
{
}

} // verus!
