//! How the sign-ins that wait for an answer are loaded, for several accounts.
//!
//! The worker carries the actions out and tells how they went; every decision
//! between two actions is made here. The accounts come one after the other, and
//! the first error ends the loading.
use vstd::prelude::*;

use crate::account::{MobileAccount, Tokens};
use crate::confirmation::account_error;
use crate::login::{login_row, shows_login, LoginInfo, LoginRequestRow};
use crate::worker::{first_asked, lemma_asked_place, take_next, with_renewed_session};

verus! {

/// What the worker has been asked to do for the account at hand.
#[derive(Debug, PartialEq, Eq)]
pub enum LoginStage {
    Renewing { index: usize, account: MobileAccount, tokens: Tokens },
    AskingSessions { index: usize, account_name: String },
    AskingSession { index: usize, account_name: String, client_id: u64, others: Vec<u64> },
    Finished,
}

/// Where the loading of sign-ins stands: the accounts that are still to come,
/// and the rows of the others.
#[derive(Debug, PartialEq, Eq)]
pub struct LoginLoad {
    pub waiting: Vec<(usize, MobileAccount)>,
    pub rows: Vec<LoginRequestRow>,
    pub stage: LoginStage,
}

/// What the worker is to do next.
#[derive(Debug, PartialEq, Eq)]
pub enum LoginAction {
    /// Nothing.
    Rest,
    /// Have Steam renew the session of an account.
    Renew { steam_id: u64, tokens: Tokens },
    /// Ask for the numbers of the sign-ins that wait, with that session.
    AskSessions { tokens: Tokens },
    /// Ask for one sign-in, with the same session.
    AskSession { client_id: u64 },
    /// Tell the window what was found, or why nothing was.
    Finish { error: Option<String> },
}

/// How an action went.
#[derive(Debug, PartialEq, Eq)]
pub enum LoginReply {
    Renewed(Result<String, String>),
    Sessions(Result<Vec<u64>, String>),
    Session(Result<LoginInfo, String>),
}

/// Where the loading stands now, and what the worker is to do next.
#[derive(Debug, PartialEq, Eq)]
pub struct LoginStep {
    pub load: LoginLoad,
    pub action: LoginAction,
}

/// Whether a step turns to the next account that has a session, of those that
/// are still to come, or ends the loading where there is none.
pub open spec fn turns_to_next(step: LoginStep, waiting: Seq<(usize, MobileAccount)>) -> bool {
    match first_asked(waiting, false, 0) {
        Some(at) => {
            let (next, mobile) = waiting[at as int];
            &&& step.load.waiting@ == waiting.skip(at as int + 1)
            &&& step.load.stage matches LoginStage::Renewing { index, account, tokens } && index
                == next && account == mobile && Some(tokens) == mobile.tokens
            &&& step.action == (LoginAction::Renew {
                steam_id: mobile.steam_id,
                tokens: mobile.tokens->0,
            })
        },
        None => {
            &&& step.load.waiting@.len() == 0
            &&& step.load.stage is Finished
            &&& step.action == (LoginAction::Finish { error: None })
        },
    }
}

/// Whether a step turns to the next of an account's sign-ins, or to the next
/// account where there is none.
pub open spec fn asks_next_session(
    step: LoginStep,
    waiting: Seq<(usize, MobileAccount)>,
    next: usize,
    name: String,
    ids: Seq<u64>,
) -> bool {
    if ids.len() == 0 {
        turns_to_next(step, waiting)
    } else {
        &&& step.load.waiting@ == waiting
        &&& step.load.stage matches LoginStage::AskingSession {
            index,
            account_name,
            client_id,
            others,
        } && index == next && account_name == name && client_id == ids[0] && others@ == ids.skip(1)
        &&& step.action == (LoginAction::AskSession { client_id: ids[0] })
    }
}

/// Whether a step ends the loading with an error.
pub open spec fn login_fails(step: LoginStep, message: Seq<char>) -> bool {
    &&& step.load.stage is Finished
    &&& step.action matches LoginAction::Finish { error: Some(told) } && told@ == message
}

/// Whether `after` are the rows before with one more for a sign-in.
pub open spec fn adds_login(
    before: Seq<LoginRequestRow>,
    after: Seq<LoginRequestRow>,
    index: usize,
    client_id: u64,
    info: LoginInfo,
) -> bool {
    &&& after.len() == before.len() + 1
    &&& after.take(before.len() as int) == before
    &&& shows_login(after[before.len() as int], index, client_id, info)
}

/// Whether a step is what becomes of a reply. A reply to something else than
/// what was asked changes nothing.
pub open spec fn login_follows(load: LoginLoad, reply: LoginReply, step: LoginStep) -> bool {
    match (load.stage, reply) {
        (LoginStage::Renewing { index, account, tokens }, LoginReply::Renewed(result)) => {
            &&& step.load.waiting == load.waiting
            &&& step.load.rows == load.rows
            &&& match result {
                Ok(access_token) => {
                    &&& step.load.stage == (LoginStage::AskingSessions {
                        index,
                        account_name: account.account_name,
                    })
                    &&& step.action == (LoginAction::AskSessions {
                        tokens: Tokens { access_token, refresh_token: tokens.refresh_token },
                    })
                },
                Err(error) => login_fails(
                    step,
                    account.account_name@ + ": сессия Steam истекла ("@ + error@ + ")"@,
                ),
            }
        },
        (LoginStage::AskingSessions { index, account_name }, LoginReply::Sessions(result)) => {
            &&& step.load.rows == load.rows
            &&& match result {
                Ok(ids) => asks_next_session(step, load.waiting@, index, account_name, ids@),
                Err(error) => step.load.waiting == load.waiting && login_fails(
                    step,
                    account_name@ + ": "@ + error@,
                ),
            }
        },
        (
            LoginStage::AskingSession { index, account_name, client_id, others },
            LoginReply::Session(result),
        ) => match result {
            Ok(info) => {
                &&& adds_login(load.rows@, step.load.rows@, index, client_id, info)
                &&& asks_next_session(step, load.waiting@, index, account_name, others@)
            },
            Err(error) => {
                &&& step.load.waiting == load.waiting
                &&& step.load.rows == load.rows
                &&& login_fails(step, account_name@ + ": "@ + error@)
            },
        },
        _ => step.load == load && step.action is Rest,
    }
}

fn turn_to_next(waiting: Vec<(usize, MobileAccount)>, rows: Vec<LoginRequestRow>) -> (r: LoginStep)
    ensures
        r.load.rows == rows,
        turns_to_next(r, waiting@),
{
    let mut waiting = waiting;
    match take_next(&mut waiting, false) {
        Some((index, account, tokens)) => LoginStep {
            action: LoginAction::Renew { steam_id: account.steam_id, tokens: tokens.clone() },
            load: LoginLoad { waiting, rows, stage: LoginStage::Renewing { index, account, tokens } },
        },
        None => LoginStep {
            load: LoginLoad { waiting, rows, stage: LoginStage::Finished },
            action: LoginAction::Finish { error: None },
        },
    }
}

fn ask_next_session(
    waiting: Vec<(usize, MobileAccount)>,
    rows: Vec<LoginRequestRow>,
    index: usize,
    account_name: String,
    ids: Vec<u64>,
) -> (r: LoginStep)
    ensures
        r.load.rows == rows,
        asks_next_session(r, waiting@, index, account_name, ids@),
{
    if ids.len() == 0 {
        return turn_to_next(waiting, rows);
    }
    let mut others = ids;
    let client_id: u64 = others.remove(0);
    assert(others@ =~= ids@.skip(1));
    LoginStep {
        load: LoginLoad {
            waiting,
            rows,
            stage: LoginStage::AskingSession { index, account_name, client_id, others },
        },
        action: LoginAction::AskSession { client_id },
    }
}

fn login_failed(
    waiting: Vec<(usize, MobileAccount)>,
    rows: Vec<LoginRequestRow>,
    message: String,
) -> (r: LoginStep)
    ensures
        r.load.waiting == waiting,
        r.load.rows == rows,
        login_fails(r, message@),
{
    LoginStep {
        load: LoginLoad { waiting, rows, stage: LoginStage::Finished },
        action: LoginAction::Finish { error: Some(message) },
    }
}

/// Begins to load the sign-ins of a row of accounts.
pub fn load_login_requests(accounts: Vec<(usize, MobileAccount)>) -> (r: LoginStep)
    ensures
        r.load.rows@.len() == 0,
        turns_to_next(r, accounts@),
{
    turn_to_next(accounts, Vec::new())
}

/// What becomes of a reply.
pub fn advance_login(load: LoginLoad, reply: LoginReply) -> (r: LoginStep)
    ensures
        login_follows(load, reply, r),
{
    let waiting = load.waiting;
    let rows = load.rows;
    match (load.stage, reply) {
        (LoginStage::Renewing { index, account, tokens }, LoginReply::Renewed(result)) => {
            match with_renewed_session(account, tokens, result) {
                Ok(renewed) => match renewed.tokens {
                    Some(tokens) => LoginStep {
                        load: LoginLoad {
                            waiting,
                            rows,
                            stage: LoginStage::AskingSessions {
                                index,
                                account_name: renewed.account_name,
                            },
                        },
                        action: LoginAction::AskSessions { tokens },
                    },
                    None => turn_to_next(waiting, rows),
                },
                Err(message) => login_failed(waiting, rows, message),
            }
        },
        (LoginStage::AskingSessions { index, account_name }, LoginReply::Sessions(result)) => {
            match result {
                Ok(ids) => ask_next_session(waiting, rows, index, account_name, ids),
                Err(error) => login_failed(
                    waiting,
                    rows,
                    account_error(account_name.as_str(), error.as_str()),
                ),
            }
        },
        (
            LoginStage::AskingSession { index, account_name, client_id, others },
            LoginReply::Session(result),
        ) => match result {
            Ok(info) => {
                let mut rows = rows;
                rows.push(login_row(index, client_id, info));
                assert(rows@.take(load.rows@.len() as int) =~= load.rows@);
                ask_next_session(waiting, rows, index, account_name, others)
            },
            Err(error) => login_failed(
                waiting,
                rows,
                account_error(account_name.as_str(), error.as_str()),
            ),
        },
        (stage, _) => LoginStep {
            load: LoginLoad { waiting, rows, stage },
            action: LoginAction::Rest,
        },
    }
}

/// How far an account is from its end: what has been asked, and how many of its
/// sign-ins are still to come.
pub open spec fn login_rank(stage: LoginStage) -> (nat, nat) {
    match stage {
        LoginStage::Renewing { .. } => (3, 0),
        LoginStage::AskingSessions { .. } => (2, 0),
        LoginStage::AskingSession { others, .. } => (1, others@.len()),
        LoginStage::Finished => (0, 0),
    }
}

/// The loading of sign-ins comes to an end: every step that is not at rest
/// leaves fewer accounts to come, or brings the one at hand nearer to its end.
pub proof fn login_loading_ends(load: LoginLoad, reply: LoginReply, step: LoginStep)
    requires
        login_follows(load, reply, step),
    ensures
        ({
            let before = login_rank(load.stage);
            let after = login_rank(step.load.stage);
            step.action is Rest || step.load.waiting@.len() < load.waiting@.len() || (
            step.load.waiting@.len() == load.waiting@.len() && (after.0 < before.0 || (after.0
                == before.0 && after.1 < before.1)))
        }),
{
    lemma_asked_place(load.waiting@, false, 0);
}

/// The next account is the first that has a session, whether it can sign or not:
/// its own session is renewed under its own number. The loading ends well only
/// where no account that is left has a session.
pub proof fn signed_in_accounts_come_in_order(
    step: LoginStep,
    waiting: Seq<(usize, MobileAccount)>,
    at: int,
)
    requires
        turns_to_next(step, waiting),
        0 <= at <= waiting.len(),
        forall|i: int| 0 <= i < at ==> (#[trigger] waiting[i]).1.tokens is None,
        at < waiting.len() ==> waiting[at].1.tokens is Some,
    ensures
        at < waiting.len() ==> {
            &&& step.action == (LoginAction::Renew {
                steam_id: waiting[at].1.steam_id,
                tokens: waiting[at].1.tokens->0,
            })
            &&& step.load.stage == (LoginStage::Renewing {
                index: waiting[at].0,
                account: waiting[at].1,
                tokens: waiting[at].1.tokens->0,
            })
            &&& step.load.waiting@ == waiting.skip(at + 1)
        },
        at == waiting.len() ==> step.action == (LoginAction::Finish { error: None }),
{
    crate::worker::only_usable_accounts_are_asked(waiting, false);
    if let Some(found) = first_asked(waiting, false, 0) {
        if found < at {
            assert(waiting[found as int].1.tokens is None);
        }
        if at < found {
            assert(waiting[at].1.tokens is None);
        }
    } else if at < waiting.len() {
        assert(waiting[at].1.tokens is None);
    }
}

/// The sign-ins of an account are asked for with the session that Steam has just
/// renewed.
pub proof fn sign_ins_are_asked_for_with_the_new_session(
    load: LoginLoad,
    index: usize,
    account: MobileAccount,
    tokens: Tokens,
    access_token: String,
    step: LoginStep,
)
    requires
        load.stage == (LoginStage::Renewing { index, account, tokens }),
        login_follows(load, LoginReply::Renewed(Ok(access_token)), step),
    ensures
        step.action matches LoginAction::AskSessions { tokens: used } && used.access_token
            == access_token && used.refresh_token == tokens.refresh_token,
        step.load.stage matches LoginStage::AskingSessions { index: same, account_name } && same
            == index && account_name == account.account_name,
        step.load.rows == load.rows,
{
}

/// The sign-ins that Steam lists are asked for one by one, in its order, none
/// twice and none left out.
pub proof fn every_sign_in_is_asked_for(
    load: LoginLoad,
    index: usize,
    account_name: String,
    ids: Vec<u64>,
    step: LoginStep,
)
    requires
        load.stage == (LoginStage::AskingSessions { index, account_name }),
        login_follows(load, LoginReply::Sessions(Ok(ids)), step),
        ids@.len() > 0,
    ensures
        step.action == (LoginAction::AskSession { client_id: ids@[0] }),
        step.load.stage matches LoginStage::AskingSession {
            index: same,
            client_id,
            others,
            account_name: name,
        } && same == index && name == account_name && client_id == ids@[0] && seq![client_id]
            + others@ == ids@,
        step.load.waiting@ == load.waiting@,
{
    assert(seq![ids@[0]] + ids@.skip(1) =~= ids@);
}

/// What Steam tells of a sign-in becomes a row behind the others, under the
/// number that was asked for and of the account that was asked, and the next
/// sign-in of that account is asked for.
pub proof fn sign_ins_become_rows(
    load: LoginLoad,
    index: usize,
    account_name: String,
    client_id: u64,
    others: Vec<u64>,
    info: LoginInfo,
    step: LoginStep,
)
    requires
        load.stage == (LoginStage::AskingSession { index, account_name, client_id, others }),
        login_follows(load, LoginReply::Session(Ok(info)), step),
    ensures
        step.load.rows@.len() == load.rows@.len() + 1,
        forall|i: int|
            0 <= i < load.rows@.len() ==> (#[trigger] step.load.rows@[i]) == load.rows@[i],
        step.load.rows@[load.rows@.len() as int].client_id == client_id,
        step.load.rows@[load.rows@.len() as int].account_index == index,
        others@.len() > 0 ==> step.action == (LoginAction::AskSession { client_id: others@[0] }),
{
    assert forall|i: int| 0 <= i < load.rows@.len() implies (#[trigger] step.load.rows@[i])
        == load.rows@[i] by {
        assert(step.load.rows@.take(load.rows@.len() as int)[i] == step.load.rows@[i]);
    }
}

/// An error ends the loading under the account's name, with what was found so
/// far left as it is.
pub proof fn failed_sign_ins_end_the_loading(
    load: LoginLoad,
    reply: LoginReply,
    name: String,
    error: String,
    step: LoginStep,
)
    requires
        login_follows(load, reply, step),
        (load.stage matches LoginStage::AskingSessions { account_name, .. } && account_name == name
            && reply == LoginReply::Sessions(Err(error))) || (
        load.stage matches LoginStage::AskingSession { account_name, .. } && account_name == name
            && reply == LoginReply::Session(Err(error))),
    ensures
        step.action matches LoginAction::Finish { error: Some(told) } && told@ == name@ + ": "@
            + error@,
        step.load.rows == load.rows,
        step.load.stage is Finished,
{
}

} // verus!
