//! How the confirmations of several accounts are loaded.
//!
//! The worker carries the actions out and tells how they went; every decision
//! between two actions is made here. The accounts come one after the other, and
//! the first error ends the loading.
use vstd::prelude::*;

use crate::account::{MobileAccount, Tokens};
use crate::confirmation::{
    account_error, add_confirmations, adds_jobs, adds_rows, trades_of, ConfirmationRow, TradeJob,
};
use crate::mobile::{
    after_failed_attempt, answer_text, lists_confirmations, parse_confirmations, retry_delay, send_error,
    time_error, time_refusal, unread_error, Confirmation, MobileResponseError,
};
use crate::request::{
    community_cookie, confirmation_params, cookie_of, is_header_text, pairs, signed_params,
    signing_error,
};
use crate::text::texts;
use crate::worker::{first_asked, lemma_asked_place, take_next, with_renewed_session};

verus! {

// ---------------------------------------------------------------------------
// The states
// ---------------------------------------------------------------------------

/// What the worker has been asked to do for the account at hand.
#[derive(Debug, PartialEq, Eq)]
pub enum ListStage {
    Renewing { index: usize, account: MobileAccount, tokens: Tokens },
    AskingTime { index: usize, account: MobileAccount },
    AskingList { index: usize, account: MobileAccount, attempt: usize },
    Waiting { index: usize, account: MobileAccount, attempt: usize },
    Finished,
}

/// Where the loading of confirmations stands: the accounts that are still to
/// come, and what the others have yielded.
#[derive(Debug, PartialEq, Eq)]
pub struct ListLoad {
    pub load_id: u64,
    pub waiting: Vec<(usize, MobileAccount)>,
    pub rows: Vec<ConfirmationRow>,
    pub jobs: Vec<TradeJob>,
    pub stage: ListStage,
}

/// What the worker is to do next.
#[derive(Debug, PartialEq, Eq)]
pub enum ListAction {
    /// Nothing.
    Rest,
    /// Have Steam renew the session of an account.
    Renew { steam_id: u64, tokens: Tokens },
    /// Ask Steam for the time. Requests to the community carry the cookie from
    /// then on.
    AskTime { cookie: String },
    /// Ask the community for the list.
    AskList { params: Vec<(&'static str, String)> },
    /// Wait for that many milliseconds.
    Wait { milliseconds: u64 },
    /// Tell the window what was found, or why nothing was.
    Finish { error: Option<String> },
}

/// How an action went.
#[derive(Debug, PartialEq, Eq)]
pub enum ListReply {
    Renewed(Result<String, String>),
    /// The worker could not even try: it has no connection.
    Unreachable(String),
    Time(u64),
    TimeFailed { error: String, causes: Vec<String> },
    Unsent { detail: String, timed_out: bool, connecting: bool, in_body: bool },
    Answered { status: u16, text: Result<String, String> },
    /// The wait is over, and Steam's time is now that.
    Waited(u64),
}

/// Where the loading stands now, and what the worker is to do next.
#[derive(Debug, PartialEq, Eq)]
pub struct ListStep {
    pub load: ListLoad,
    pub action: ListAction,
}

// ---------------------------------------------------------------------------
// What a step says
// ---------------------------------------------------------------------------

/// Whether a step leaves what was found as it is.
pub open spec fn keeps_found(before: ListLoad, after: ListLoad) -> bool {
    after.load_id == before.load_id && after.rows == before.rows && after.jobs == before.jobs
}

/// Whether a step leaves all but the stage as it is.
pub open spec fn keeps_all(before: ListLoad, after: ListLoad) -> bool {
    keeps_found(before, after) && after.waiting == before.waiting
}

/// Whether a step turns to the next account that is asked, of those that are
/// still to come, or ends the loading where there is none.
pub open spec fn turns_to_next(step: ListStep, waiting: Seq<(usize, MobileAccount)>) -> bool {
    match first_asked(waiting, true, 0) {
        Some(at) => {
            let (next, mobile) = waiting[at as int];
            &&& step.load.waiting@ == waiting.skip(at as int + 1)
            &&& step.load.stage matches ListStage::Renewing { index, account, tokens } && index
                == next && account == mobile && Some(tokens) == mobile.tokens
            &&& step.action == (ListAction::Renew {
                steam_id: mobile.steam_id,
                tokens: mobile.tokens->0,
            })
        },
        None => {
            &&& step.load.waiting@.len() == 0
            &&& step.load.stage is Finished
            &&& step.action == (ListAction::Finish { error: None })
        },
    }
}

/// Whether a step ends the loading with an error.
pub open spec fn list_fails(step: ListStep, message: Seq<char>) -> bool {
    &&& step.load.stage is Finished
    &&& step.action matches ListAction::Finish { error: Some(told) } && told@ == message
}

/// The message of an error of an account.
pub open spec fn of_account(account: MobileAccount, message: Seq<char>) -> Seq<char> {
    account.account_name@ + ": "@ + message
}

/// Whether a step asks for the list of an account, with parameters that are
/// signed at that time.
pub open spec fn asks_list(
    step: ListStep,
    next: usize,
    mobile: MobileAccount,
    count: usize,
    time: u64,
) -> bool {
    match signing_error(mobile) {
        Some(message) => list_fails(step, of_account(mobile, message)),
        None => {
            &&& step.load.stage == (ListStage::AskingList {
                index: next,
                account: mobile,
                attempt: count,
            })
            &&& step.action matches ListAction::AskList { params } && pairs(params@)
                == signed_params(mobile, time, "conf"@)
        },
    }
}

fn list_failed(load: ListLoad, message: String) -> (r: ListStep)
    ensures
        keeps_all(load, r.load),
        list_fails(r, message@),
{
    ListStep {
        load: ListLoad {
            load_id: load.load_id,
            waiting: load.waiting,
            rows: load.rows,
            jobs: load.jobs,
            stage: ListStage::Finished,
        },
        action: ListAction::Finish { error: Some(message) },
    }
}

fn failed_for(load: ListLoad, account: &MobileAccount, message: &str) -> (r: ListStep)
    ensures
        keeps_all(load, r.load),
        list_fails(r, of_account(*account, message@)),
{
    list_failed(load, account_error(account.account_name.as_str(), message))
}

fn turn_to_next(
    load_id: u64,
    waiting: Vec<(usize, MobileAccount)>,
    rows: Vec<ConfirmationRow>,
    jobs: Vec<TradeJob>,
) -> (r: ListStep)
    ensures
        r.load.load_id == load_id,
        r.load.rows == rows,
        r.load.jobs == jobs,
        turns_to_next(r, waiting@),
{
    let mut waiting = waiting;
    match take_next(&mut waiting, true) {
        Some((index, account, tokens)) => ListStep {
            action: ListAction::Renew { steam_id: account.steam_id, tokens: tokens.clone() },
            load: ListLoad {
                load_id,
                waiting,
                rows,
                jobs,
                stage: ListStage::Renewing { index, account, tokens },
            },
        },
        None => ListStep {
            load: ListLoad { load_id, waiting, rows, jobs, stage: ListStage::Finished },
            action: ListAction::Finish { error: None },
        },
    }
}

fn ask_list(
    load: ListLoad,
    index: usize,
    account: MobileAccount,
    attempt: usize,
    time: u64,
) -> (r: ListStep)
    ensures
        keeps_all(load, r.load),
        asks_list(r, index, account, attempt, time),
{
    match confirmation_params(&account, time, "conf") {
        Ok(params) => ListStep {
            load: ListLoad {
                load_id: load.load_id,
                waiting: load.waiting,
                rows: load.rows,
                jobs: load.jobs,
                stage: ListStage::AskingList { index, account, attempt },
            },
            action: ListAction::AskList { params },
        },
        Err(message) => failed_for(load, &account, message.as_str()),
    }
}

// ---------------------------------------------------------------------------
// The steps
// ---------------------------------------------------------------------------

/// Begins to load the confirmations of a row of accounts.
pub fn load_confirmations(accounts: Vec<(usize, MobileAccount)>, load_id: u64) -> (r: ListStep)
    ensures
        r.load.load_id == load_id,
        r.load.rows@.len() == 0,
        r.load.jobs@.len() == 0,
        turns_to_next(r, accounts@),
        can_go_on(r.load),
{
    turn_to_next(load_id, accounts, Vec::new(), Vec::new())
}

/// Whether a step is what becomes of the try to renew a session: an account
/// whose session was renewed is asked with it.
pub open spec fn after_renewal(
    load: ListLoad,
    next: usize,
    mobile: MobileAccount,
    tokens: Tokens,
    result: Result<String, String>,
    step: ListStep,
) -> bool {
    &&& keeps_all(load, step.load)
    &&& match result {
        Err(error) => list_fails(
            step,
            mobile.account_name@ + ": сессия Steam истекла ("@ + error@ + ")"@,
        ),
        Ok(access_token) => {
            let renewed = MobileAccount {
                tokens: Some(Tokens { access_token, refresh_token: tokens.refresh_token }),
                ..mobile
            };
            let session = cookie_of(mobile.steam_id, access_token@);
            if is_header_text(session) {
                &&& step.load.stage == (ListStage::AskingTime { index: next, account: renewed })
                &&& step.action matches ListAction::AskTime { cookie } && cookie@ == session
            } else {
                list_fails(step, of_account(mobile, "Некорректная сессия Steam"@))
            }
        },
    }
}

/// Whether an attempt to get the list failed with that error.
pub open spec fn attempt_error(reply: ListReply) -> Option<(Seq<char>, bool)> {
    match reply {
        ListReply::Unsent { detail, timed_out, connecting, in_body } => Some(
            (
                "Не удалось загрузить подтверждения Steam: "@ + detail@,
                timed_out || connecting || in_body,
            ),
        ),
        ListReply::Answered { status, text } => unread_error(status, text),
        _ => None,
    }
}

/// Whether a step is what becomes of an attempt that failed: another one after
/// a wait where asking again may help, at most twice.
pub open spec fn after_failure(
    load: ListLoad,
    next: usize,
    mobile: MobileAccount,
    count: usize,
    error: (Seq<char>, bool),
    step: ListStep,
) -> bool {
    &&& keeps_all(load, step.load)
    &&& match retry_delay(count as nat, error.1) {
        Some(milliseconds) => {
            &&& step.load.stage == (ListStage::Waiting {
                index: next,
                account: mobile,
                attempt: count,
            })
            &&& step.action == (ListAction::Wait { milliseconds })
        },
        None => list_fails(step, of_account(mobile, error.0)),
    }
}

/// Whether a step adds the confirmations of an account to what was found, and
/// turns to the next account.
pub open spec fn adds_list(
    load: ListLoad,
    next: usize,
    mobile: MobileAccount,
    confirmations: Seq<Confirmation>,
    step: ListStep,
) -> bool {
    &&& step.load.load_id == load.load_id
    &&& adds_rows(load.rows@, step.load.rows@, confirmations, next, load.load_id)
    &&& adds_jobs(load.jobs@, step.load.jobs@, trades_of(confirmations), mobile)
    &&& turns_to_next(step, load.waiting@)
}

/// Whether a step is what becomes of a list, or of the error in its place.
pub open spec fn after_list(
    load: ListLoad,
    next: usize,
    mobile: MobileAccount,
    count: usize,
    result: Result<Vec<Confirmation>, MobileResponseError>,
    step: ListStep,
) -> bool {
    match result {
        Ok(confirmations) => adds_list(load, next, mobile, confirmations@, step),
        Err(error) => after_failure(
            load,
            next,
            mobile,
            count,
            (error.message@, error.retryable),
            step,
        ),
    }
}

/// Whether a step is what becomes of a reply. A reply to something else than
/// what was asked changes nothing.
pub open spec fn list_follows(load: ListLoad, reply: ListReply, step: ListStep) -> bool {
    match (load.stage, reply) {
        (ListStage::Renewing { index, account, tokens }, ListReply::Renewed(result)) => after_renewal(
            load,
            index,
            account,
            tokens,
            result,
            step,
        ),
        (ListStage::AskingTime { account, .. }, ListReply::Unreachable(error)) => {
            &&& keeps_all(load, step.load)
            &&& list_fails(step, of_account(account, error@))
        },
        (ListStage::AskingTime { account, .. }, ListReply::TimeFailed { error, causes }) => {
            &&& keeps_all(load, step.load)
            &&& list_fails(step, of_account(account, time_refusal(error@, texts(causes@))))
        },
        (ListStage::AskingTime { index, account }, ListReply::Time(time)) => {
            &&& keeps_all(load, step.load)
            &&& asks_list(step, index, account, 0, time)
        },
        (ListStage::Waiting { index, account, attempt }, ListReply::Waited(time)) => {
            &&& keeps_all(load, step.load)
            &&& asks_list(step, index, account, (attempt + 1) as usize, time)
        },
        (
            ListStage::AskingList { index, account, attempt },
            ListReply::Unsent { .. },
        ) => after_failure(load, index, account, attempt, attempt_error(reply)->0, step),
        (
            ListStage::AskingList { index, account, attempt },
            ListReply::Answered { status, text },
        ) => match attempt_error(reply) {
            Some(error) => after_failure(load, index, account, attempt, error, step),
            None => exists|result: Result<Vec<Confirmation>, MobileResponseError>|
                lists_confirmations(text->Ok_0@, result) && #[trigger] after_list(
                    load,
                    index,
                    account,
                    attempt,
                    result,
                    step,
                ),
        },
        _ => step.load == load && step.action is Rest,
    }
}

fn take_renewal(
    load: ListLoad,
    index: usize,
    account: MobileAccount,
    tokens: Tokens,
    result: Result<String, String>,
) -> (r: ListStep)
    ensures
        after_renewal(load, index, account, tokens, result, r),
{
    let renewed = match with_renewed_session(account, tokens, result) {
        Ok(renewed) => renewed,
        Err(message) => return list_failed(load, message),
    };
    match community_cookie(&renewed) {
        Ok(cookie) => ListStep {
            load: ListLoad {
                load_id: load.load_id,
                waiting: load.waiting,
                rows: load.rows,
                jobs: load.jobs,
                stage: ListStage::AskingTime { index, account: renewed },
            },
            action: ListAction::AskTime { cookie },
        },
        Err(message) => failed_for(load, &renewed, message.as_str()),
    }
}

fn take_failure(
    load: ListLoad,
    index: usize,
    account: MobileAccount,
    attempt: usize,
    error: MobileResponseError,
) -> (r: ListStep)
    ensures
        after_failure(load, index, account, attempt, (error.message@, error.retryable), r),
{
    match after_failed_attempt(attempt, &error) {
        Some(milliseconds) => ListStep {
            load: ListLoad {
                load_id: load.load_id,
                waiting: load.waiting,
                rows: load.rows,
                jobs: load.jobs,
                stage: ListStage::Waiting { index, account, attempt },
            },
            action: ListAction::Wait { milliseconds },
        },
        None => failed_for(load, &account, error.message.as_str()),
    }
}

/// What becomes of a list of confirmations, or of the error in its place.
pub fn take_list(
    load: ListLoad,
    index: usize,
    account: MobileAccount,
    attempt: usize,
    result: Result<Vec<Confirmation>, MobileResponseError>,
) -> (r: ListStep)
    ensures
        after_list(load, index, account, attempt, result, r),
{
    match result {
        Ok(confirmations) => {
            let mut rows = load.rows;
            let mut jobs = load.jobs;
            add_confirmations(&mut rows, &mut jobs, confirmations, index, &account, load.load_id);
            turn_to_next(load.load_id, load.waiting, rows, jobs)
        },
        Err(error) => take_failure(load, index, account, attempt, error),
    }
}

/// What holds of every loading: attempts are counted from zero, and there are
/// at most three.
pub open spec fn can_go_on(load: ListLoad) -> bool {
    match load.stage {
        ListStage::AskingList { attempt, .. } => attempt <= 2,
        ListStage::Waiting { attempt, .. } => attempt < 2,
        _ => true,
    }
}

/// What becomes of a reply.
pub fn advance_list(load: ListLoad, reply: ListReply) -> (r: ListStep)
    requires
        can_go_on(load),
    ensures
        list_follows(load, reply, r),
        can_go_on(r.load),
{
    let load_id = load.load_id;
    let waiting = load.waiting;
    let rows = load.rows;
    let jobs = load.jobs;
    match (load.stage, reply) {
        (ListStage::Renewing { index, account, tokens }, ListReply::Renewed(result)) => take_renewal(
            ListLoad { load_id, waiting, rows, jobs, stage: ListStage::Finished },
            index,
            account,
            tokens,
            result,
        ),
        (ListStage::AskingTime { account, .. }, ListReply::Unreachable(error)) => failed_for(
            ListLoad { load_id, waiting, rows, jobs, stage: ListStage::Finished },
            &account,
            error.as_str(),
        ),
        (ListStage::AskingTime { account, .. }, ListReply::TimeFailed { error, causes }) => failed_for(
            ListLoad { load_id, waiting, rows, jobs, stage: ListStage::Finished },
            &account,
            time_error(error.as_str(), causes.as_slice()).as_str(),
        ),
        (ListStage::AskingTime { index, account }, ListReply::Time(time)) => ask_list(
            ListLoad { load_id, waiting, rows, jobs, stage: ListStage::Finished },
            index,
            account,
            0,
            time,
        ),
        (ListStage::Waiting { index, account, attempt }, ListReply::Waited(time)) => ask_list(
            ListLoad { load_id, waiting, rows, jobs, stage: ListStage::Finished },
            index,
            account,
            attempt + 1,
            time,
        ),
        (
            ListStage::AskingList { index, account, attempt },
            ListReply::Unsent { detail, timed_out, connecting, in_body },
        ) => take_failure(
            ListLoad { load_id, waiting, rows, jobs, stage: ListStage::Finished },
            index,
            account,
            attempt,
            send_error(detail.as_str(), timed_out, connecting, in_body),
        ),
        (
            ListStage::AskingList { index, account, attempt },
            ListReply::Answered { status, text },
        ) => {
            let rest = ListLoad { load_id, waiting, rows, jobs, stage: ListStage::Finished };
            match answer_text(status, text) {
                Ok(text) => {
                    let result = parse_confirmations(text.as_str());
                    let step = take_list(rest, index, account, attempt, result);
                    assert(after_list(load, index, account, attempt, result, step));
                    step
                },
                Err(error) => take_failure(rest, index, account, attempt, error),
            }
        },
        (stage, _) => ListStep {
            load: ListLoad { load_id, waiting, rows, jobs, stage },
            action: ListAction::Rest,
        },
    }
}

// ---------------------------------------------------------------------------
// What holds over several steps
// ---------------------------------------------------------------------------

/// How far an account is from its end.
pub open spec fn list_rank(stage: ListStage) -> int {
    match stage {
        ListStage::Renewing { .. } => 9,
        ListStage::AskingTime { .. } => 8,
        ListStage::AskingList { attempt, .. } => 7 - 2 * attempt,
        ListStage::Waiting { attempt, .. } => 6 - 2 * attempt,
        ListStage::Finished => 0,
    }
}

/// The loading of confirmations comes to an end: every step that is not at rest
/// leaves fewer accounts to come, or brings the one at hand nearer to its end.
pub proof fn list_loading_ends(load: ListLoad, reply: ListReply, step: ListStep)
    requires
        can_go_on(load),
        list_follows(load, reply, step),
    ensures
        list_rank(step.load.stage) >= 0,
        step.action is Rest || step.load.waiting@.len() < load.waiting@.len() || (
        step.load.waiting@.len() == load.waiting@.len() && list_rank(step.load.stage) < list_rank(
            load.stage,
        )),
{
    lemma_asked_place(load.waiting@, true, 0);
}

/// What was found of the accounts before is never lost or changed: every step
/// keeps it at the beginning of the list.
pub proof fn found_confirmations_stay(load: ListLoad, reply: ListReply, step: ListStep)
    requires
        list_follows(load, reply, step),
    ensures
        step.load.load_id == load.load_id,
        load.rows@.len() <= step.load.rows@.len(),
        step.load.rows@.take(load.rows@.len() as int) == load.rows@,
        load.jobs@.len() <= step.load.jobs@.len(),
        step.load.jobs@.take(load.jobs@.len() as int) == load.jobs@,
{
    assert(load.rows@.take(load.rows@.len() as int) =~= load.rows@);
    assert(load.jobs@.take(load.jobs@.len() as int) =~= load.jobs@);
}

/// The next account is the first that has a session and a secret to sign with:
/// its own session is renewed under its own number. The loading ends well only
/// where no account that is left has both.
pub proof fn accounts_come_in_their_order(
    step: ListStep,
    waiting: Seq<(usize, MobileAccount)>,
    at: int,
)
    requires
        turns_to_next(step, waiting),
        0 <= at <= waiting.len(),
        forall|i: int|
            0 <= i < at ==> (#[trigger] waiting[i]).1.tokens is None
                || waiting[i].1.identity_secret@.len() == 0,
        at < waiting.len() ==> waiting[at].1.tokens is Some && waiting[at].1.identity_secret@.len()
            > 0,
    ensures
        at < waiting.len() ==> {
            &&& step.action == (ListAction::Renew {
                steam_id: waiting[at].1.steam_id,
                tokens: waiting[at].1.tokens->0,
            })
            &&& step.load.stage == (ListStage::Renewing {
                index: waiting[at].0,
                account: waiting[at].1,
                tokens: waiting[at].1.tokens->0,
            })
            &&& step.load.waiting@ == waiting.skip(at + 1)
        },
        at == waiting.len() ==> step.action == (ListAction::Finish { error: None })
            && step.load.stage is Finished,
{
    crate::worker::only_usable_accounts_are_asked(waiting, true);
    if let Some(found) = first_asked(waiting, true, 0) {
        if found < at {
            assert(waiting[found as int].1.tokens is None
                || waiting[found as int].1.identity_secret@.len() == 0);
        }
        if at < found {
            assert(waiting[at].1.tokens is None || waiting[at].1.identity_secret@.len() == 0);
        }
    } else if at < waiting.len() {
        assert(waiting[at].1.tokens is None || waiting[at].1.identity_secret@.len() == 0);
    }
}

/// A renewed session is the one that is used from then on, in the account and in
/// the cookie, which names the account's own number; the token that renews it
/// stays. A session that was not renewed ends the loading under the account's
/// name.
pub proof fn renewed_sessions_are_used(
    load: ListLoad,
    index: usize,
    account: MobileAccount,
    tokens: Tokens,
    result: Result<String, String>,
    step: ListStep,
)
    requires
        load.stage == (ListStage::Renewing { index, account, tokens }),
        list_follows(load, ListReply::Renewed(result), step),
    ensures
        step.action matches ListAction::AskTime { cookie } ==> {
            &&& result is Ok
            &&& cookie@ == "steamLoginSecure="@ + crate::text::decimal(account.steam_id as nat)
                + "%7C%7C"@ + result->Ok_0@ + "; steamid="@ + crate::text::decimal(
                account.steam_id as nat,
            )
            &&& step.load.stage matches ListStage::AskingTime { index: same, account: renewed }
                && same == index && renewed == (MobileAccount {
                tokens: Some(
                    Tokens { access_token: result->Ok_0, refresh_token: tokens.refresh_token },
                ),
                ..account
            })
        },
        result matches Err(error) ==> (step.action matches ListAction::Finish { error: Some(told) }
            && told@ == account.account_name@ + ": сессия Steam истекла ("@ + error@ + ")"@),
        step.action is AskTime || step.action is Finish,
{
}

/// The list is asked for as the account, with parameters that are signed at the
/// time that Steam told last, under the tag of a list.
pub proof fn lists_are_asked_for_at_steams_time(
    load: ListLoad,
    reply: ListReply,
    time: u64,
    step: ListStep,
    account: MobileAccount,
)
    requires
        list_follows(load, reply, step),
        (load.stage matches ListStage::AskingTime { account: at_hand, .. } && at_hand == account
            && reply == ListReply::Time(time)) || (load.stage matches ListStage::Waiting {
            account: at_hand,
            ..
        } && at_hand == account && reply == ListReply::Waited(time)),
    ensures
        step.action matches ListAction::AskList { params } ==> pairs(params@) == signed_params(
            account,
            time,
            "conf"@,
        ) && (step.load.stage matches ListStage::AskingList { account: same, .. } && same == account),
        step.action is AskList <==> signing_error(account) is None,
        !(step.action is AskList) ==> (step.action matches ListAction::Finish { error: Some(told) }
            && told@ == account.account_name@ + ": "@ + signing_error(account)->0),
{
}

/// A failed attempt is made again after four tenths of a second, and after nine
/// tenths the second time, where asking again may help; else the loading ends
/// with the error under the account's name.
pub proof fn failed_lists_are_asked_for_again(
    load: ListLoad,
    index: usize,
    account: MobileAccount,
    attempt: usize,
    detail: String,
    timed_out: bool,
    connecting: bool,
    in_body: bool,
    step: ListStep,
)
    requires
        load.stage == (ListStage::AskingList { index, account, attempt }),
        list_follows(load, ListReply::Unsent { detail, timed_out, connecting, in_body }, step),
    ensures
        (timed_out || connecting || in_body) && attempt == 0 ==> step.action == (ListAction::Wait {
            milliseconds: 400,
        }),
        (timed_out || connecting || in_body) && attempt == 1 ==> step.action == (ListAction::Wait {
            milliseconds: 900,
        }),
        step.action is Wait ==> step.load.stage == (ListStage::Waiting { index, account, attempt }),
        attempt >= 2 || !(timed_out || connecting || in_body) ==> (
        step.action matches ListAction::Finish { error: Some(told) } && told@
            == account.account_name@ + ": Не удалось загрузить подтверждения Steam: "@ + detail@),
        step.load.rows == load.rows,
{
    reveal_strlit(": ");
    reveal_strlit("Не удалось загрузить подтверждения Steam: ");
    reveal_strlit(": Не удалось загрузить подтверждения Steam: ");
    assert(account.account_name@ + ": Не удалось загрузить подтверждения Steam: "@ + detail@
        =~= account.account_name@ + ": "@ + ("Не удалось загрузить подтверждения Steam: "@
        + detail@));
}

/// An answer that lists confirmations adds a row for each of them, of the
/// account that was asked and of this loading, with what the list tells of it.
pub proof fn listed_rows_are_of_their_account(
    load: ListLoad,
    index: usize,
    account: MobileAccount,
    attempt: usize,
    confirmations: Vec<Confirmation>,
    step: ListStep,
    i: int,
)
    requires
        after_list(load, index, account, attempt, Ok(confirmations), step),
        0 <= i < confirmations@.len(),
    ensures
        step.load.rows@.len() == load.rows@.len() + confirmations@.len(),
        ({
            let row = step.load.rows@[load.rows@.len() + i];
            &&& row.account_index == index
            &&& row.load_id == load.load_id
            &&& row.id@ == confirmations@[i].listed.id@
            &&& row.nonce@ == confirmations@[i].listed.nonce@
            &&& row.headline@ == confirmations@[i].listed.headline@
        }),
{
    crate::confirmation::loaded_rows_keep_the_list(
        load.rows@,
        step.load.rows@,
        confirmations@,
        index,
        load.load_id,
        i,
    );
}

/// A refused answer ends the loading under the account's name, and an answer
/// that says that the session is over is never asked for again.
pub proof fn expired_sessions_end_the_loading(
    load: ListLoad,
    index: usize,
    account: MobileAccount,
    attempt: usize,
    status: u16,
    text: Result<String, String>,
    step: ListStep,
)
    requires
        load.stage == (ListStage::AskingList { index, account, attempt }),
        300 <= status < 400 || status == 401,
        list_follows(load, ListReply::Answered { status, text }, step),
    ensures
        step.load.stage is Finished,
        step.action matches ListAction::Finish { error: Some(told) } && told@
            == account.account_name@
            + ": Сессия Steam истекла. Выполните авторизацию Steam заново"@,
        step.load.rows == load.rows,
{
    reveal_strlit(": ");
    reveal_strlit("Сессия Steam истекла. Выполните авторизацию Steam заново");
    reveal_strlit(": Сессия Steam истекла. Выполните авторизацию Steam заново");
    assert(": Сессия Steam истекла. Выполните авторизацию Steam заново"@ =~= ": "@
        + "Сессия Steam истекла. Выполните авторизацию Steam заново"@);
    assert(account.account_name@ + ": "@
        + "Сессия Steam истекла. Выполните авторизацию Steam заново"@ =~= account.account_name@
        + (": "@ + "Сессия Steam истекла. Выполните авторизацию Steam заново"@));
}

} // verus!
