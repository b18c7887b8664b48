//! What the worker makes of Steam's answers to everything but an enrollment.
use vstd::prelude::*;
use vstd::string::StringExecFns;

use crate::account::{MobileAccount, Tokens};
use crate::confirmation::{has_confirmations, ConfirmationTarget};
use crate::steam::SteamEvent;
use crate::text::{concat2, concat3, texts};

verus! {

// ---------------------------------------------------------------------------
// Sessions
// ---------------------------------------------------------------------------

/// The session of an account that is to be renewed, or that there is none.
pub fn session_of(account: &MobileAccount) -> (r: Result<Tokens, String>)
    ensures
        match r {
            Ok(tokens) => account.tokens == Some(tokens),
            Err(message) => account.tokens is None && message@ == account.account_name@
                + ": требуется авторизация Steam"@,
        },
{
    match &account.tokens {
        Some(tokens) => Ok(tokens.clone()),
        None => Err(concat2(account.account_name.as_str(), ": требуется авторизация Steam")),
    }
}

/// An account with its session renewed, given the new access token or why Steam
/// gave none.
pub fn with_renewed_session(account: MobileAccount, tokens: Tokens, result: Result<String, String>) -> (r:
    Result<MobileAccount, String>)
    ensures
        match (result, r) {
            (Ok(access_token), Ok(renewed)) => renewed == (MobileAccount {
                tokens: Some(Tokens { access_token, refresh_token: tokens.refresh_token }),
                ..account
            }),
            (Err(error), Err(message)) => message@ == account.account_name@
                + ": сессия Steam истекла ("@ + error@ + ")"@,
            _ => false,
        },
{
    match result {
        Ok(access_token) => Ok(
            MobileAccount {
                tokens: Some(Tokens { access_token, refresh_token: tokens.refresh_token }),
                ..account
            },
        ),
        Err(error) => {
            let mut message = account.account_name;
            message.append(": сессия Steam истекла (");
            message.append(error.as_str());
            message.append(")");
            Err(message)
        },
    }
}

// ---------------------------------------------------------------------------
// One account after the other
// ---------------------------------------------------------------------------

/// Whether an account is asked: it has a session and, for what is signed, a
/// secret to sign with.
pub open spec fn is_asked(account: MobileAccount, signed: bool) -> bool {
    account.tokens is Some && (signed ==> account.identity_secret@.len() > 0)
}

/// The place of the first account of a row, from `from` on, that is asked.
pub open spec fn first_asked(
    accounts: Seq<(usize, MobileAccount)>,
    signed: bool,
    from: nat,
) -> Option<nat>
    decreases accounts.len() - from,
{
    if from >= accounts.len() {
        None
    } else if is_asked(accounts[from as int].1, signed) {
        Some(from)
    } else {
        first_asked(accounts, signed, from + 1)
    }
}

/// The account that is asked is one of the row.
pub proof fn lemma_asked_place(accounts: Seq<(usize, MobileAccount)>, signed: bool, from: nat)
    ensures
        first_asked(accounts, signed, from) matches Some(at) ==> from <= at < accounts.len()
            && is_asked(accounts[at as int].1, signed),
    decreases accounts.len() - from,
{
    if from < accounts.len() && !is_asked(accounts[from as int].1, signed) {
        lemma_asked_place(accounts, signed, from + 1);
    }
}

proof fn lemma_asked_shift(accounts: Seq<(usize, MobileAccount)>, signed: bool, from: nat)
    requires
        1 <= from <= accounts.len(),
    ensures
        first_asked(accounts, signed, from) == match first_asked(
            accounts.skip(1),
            signed,
            (from - 1) as nat,
        ) {
            Some(found) => Some(found + 1),
            None => None,
        },
    decreases accounts.len() - from,
{
    if from < accounts.len() {
        assert(accounts.skip(1)[from - 1] == accounts[from as int]);
        if !is_asked(accounts[from as int].1, signed) {
            lemma_asked_shift(accounts, signed, from + 1);
        }
    }
}

/// Takes the next account that is asked, with its session, from a row, and
/// drops those before it.
pub fn take_next(waiting: &mut Vec<(usize, MobileAccount)>, signed: bool) -> (r: Option<
    (usize, MobileAccount, Tokens),
>)
    ensures
        match first_asked(old(waiting)@, signed, 0) {
            Some(at) => {
                &&& at < old(waiting)@.len()
                &&& final(waiting)@ == old(waiting)@.skip(at as int + 1)
                &&& r matches Some((index, account, tokens)) && (index, account)
                    == old(waiting)@[at as int] && account.tokens == Some(tokens)
            },
            None => final(waiting)@.len() == 0 && r is None,
        },
{
    let ghost all = waiting@;
    let ghost mut passed: nat = 0;
    assert(all.skip(0) =~= all);
    while waiting.len() > 0
        invariant
            all == old(waiting)@,
            passed <= all.len(),
            waiting@ == all.skip(passed as int),
            first_asked(all, signed, 0) == match first_asked(waiting@, signed, 0) {
                Some(found) => Some(passed + found),
                None => None,
            },
        decreases waiting@.len(),
    {
        let ghost before = waiting@;
        let (index, account) = waiting.remove(0);
        assert(waiting@ =~= before.skip(1));
        assert(waiting@ =~= all.skip(passed as int + 1));
        assert(before[0] == all[passed as int]);
        let asked = if signed {
            has_confirmations(&account)
        } else {
            account.is_logged_in()
        };
        if asked {
            if let Ok(tokens) = session_of(&account) {
                return Some((index, account, tokens));
            }
        }
        proof {
            lemma_asked_shift(before, signed, 1);
            passed = passed + 1;
        }
    }
    None
}

/// No account that can be asked is passed over.
pub proof fn passed_accounts_cannot_be_asked(
    accounts: Seq<(usize, MobileAccount)>,
    signed: bool,
    i: int,
)
    requires
        match first_asked(accounts, signed, 0) {
            Some(at) => 0 <= i < at,
            None => 0 <= i < accounts.len(),
        },
    ensures
        i < accounts.len(),
        !is_asked(accounts[i].1, signed),
{
    lemma_passed(accounts, signed, 0, i);
}

proof fn lemma_passed(accounts: Seq<(usize, MobileAccount)>, signed: bool, from: nat, i: int)
    requires
        match first_asked(accounts, signed, from) {
            Some(at) => from <= i < at,
            None => from <= i < accounts.len(),
        },
    ensures
        i < accounts.len(),
        !is_asked(accounts[i].1, signed),
    decreases accounts.len() - from,
{
    if from < accounts.len() && !is_asked(accounts[from as int].1, signed) && i > from {
        lemma_passed(accounts, signed, from + 1, i);
    }
}

// ---------------------------------------------------------------------------
// Answers
// ---------------------------------------------------------------------------

/// What the window is told of the answer to a confirmation.
pub fn confirmation_answered(accept: bool, result: Result<(), String>) -> (r: SteamEvent)
    ensures
        match result {
            Ok(_) => r matches SteamEvent::ActionComplete(text) && text@ == if accept {
                "Подтверждение принято"@
            } else {
                "Подтверждение отклонено"@
            },
            Err(error) => r == SteamEvent::Error(error),
        },
{
    match result {
        Ok(_) => SteamEvent::ActionComplete(
            if accept {
                "Подтверждение принято".to_owned()
            } else {
                "Подтверждение отклонено".to_owned()
            },
        ),
        Err(error) => SteamEvent::Error(error),
    }
}

/// What the window is told of the answer to a sign-in.
pub fn login_answered(accept: bool, result: Result<(), String>) -> (r: SteamEvent)
    ensures
        match result {
            Ok(_) => r matches SteamEvent::ActionComplete(text) && text@ == if accept {
                "Вход подтверждён"@
            } else {
                "Вход отклонён"@
            },
            Err(error) => r == SteamEvent::Error(error),
        },
{
    match result {
        Ok(_) => SteamEvent::ActionComplete(
            if accept {
                "Вход подтверждён".to_owned()
            } else {
                "Вход отклонён".to_owned()
            },
        ),
        Err(error) => SteamEvent::Error(error),
    }
}

/// How the groups of a bulk answer have gone so far.
#[derive(Debug, PartialEq, Eq)]
pub struct BatchProgress {
    pub completed: Vec<ConfirmationTarget>,
    pub errors: Vec<String>,
}

impl BatchProgress {
    /// A bulk answer of which no group has been sent.
    pub fn new() -> (r: Self)
        ensures
            r.completed@.len() == 0,
            r.errors@.len() == 0,
    {
        BatchProgress { completed: Vec::new(), errors: Vec::new() }
    }

    /// Takes note of how a group went: all its targets are answered, or none is
    /// and the error is kept with the account's name.
    pub fn add_group(
        self,
        account_name: &str,
        targets: Vec<ConfirmationTarget>,
        result: Result<(), String>,
    ) -> (r: Self)
        ensures
            match result {
                Ok(_) => r.completed@ == self.completed@ + targets@ && r.errors == self.errors,
                Err(error) => r.completed == self.completed && texts(r.errors@) == texts(
                    self.errors@,
                ).push(account_name@ + ": "@ + error@),
            },
    {
        let mut completed = self.completed;
        let mut errors = self.errors;
        match result {
            Ok(_) => {
                let mut targets = targets;
                completed.append(&mut targets);
            },
            Err(error) => {
                let ghost before = texts(errors@);
                let message = concat3(account_name, ": ", error.as_str());
                errors.push(message);
                assert(texts(errors@) =~= before.push(message@));
            },
        }
        BatchProgress { completed, errors }
    }

    /// What the window is told once every group has been sent.
    pub fn finished(self) -> (r: SteamEvent)
        ensures
            r == (SteamEvent::ConfirmationsBatchComplete {
                completed: self.completed,
                errors: self.errors,
            }),
    {
        SteamEvent::ConfirmationsBatchComplete { completed: self.completed, errors: self.errors }
    }
}

// ---------------------------------------------------------------------------
// Loadings of trades
// ---------------------------------------------------------------------------

/// Whether a loading of trades is the latest one that has begun.
pub open spec fn is_latest(load_id: u64, latest: u64) -> bool {
    load_id == latest
}

/// Whether a loading of trades goes on, given the number of the latest one: its
/// next trade is loaded, and what was found is told, only while no later loading
/// has begun.
pub fn is_current(load_id: u64, latest: u64) -> (r: bool)
    ensures
        r == is_latest(load_id, latest),
{
    load_id == latest
}

/// A loading that begins takes over from all that began before it.
pub proof fn later_loadings_take_over(load_id: u64, latest: u64)
    requires
        load_id <= latest,
        latest < u64::MAX,
    ensures
        !is_latest(load_id, (latest + 1) as u64),
        is_latest((latest + 1) as u64, (latest + 1) as u64),
{
}

/// The account that is asked next is the first that has a session and, where
/// the question is signed, a secret to sign it with; none is asked exactly
/// where no account has both.
pub proof fn only_usable_accounts_are_asked(accounts: Seq<(usize, MobileAccount)>, signed: bool)
    ensures
        match first_asked(accounts, signed, 0) {
            Some(at) => {
                &&& at < accounts.len()
                &&& accounts[at as int].1.tokens is Some
                &&& signed ==> accounts[at as int].1.identity_secret@.len() > 0
                &&& forall|i: int|
                    0 <= i < at ==> (#[trigger] accounts[i]).1.tokens is None || (signed
                        && accounts[i].1.identity_secret@.len() == 0)
            },
            None => forall|i: int|
                0 <= i < accounts.len() ==> (#[trigger] accounts[i]).1.tokens is None || (signed
                    && accounts[i].1.identity_secret@.len() == 0),
        },
{
    lemma_asked_place(accounts, signed, 0);
    assert forall|i: int|
        0 <= i < accounts.len() && (first_asked(accounts, signed, 0) is None || i < first_asked(
            accounts,
            signed,
            0,
        )->0) implies (#[trigger] accounts[i]).1.tokens is None || (signed
        && accounts[i].1.identity_secret@.len() == 0) by {
        passed_accounts_cannot_be_asked(accounts, signed, i);
    }
}

} // verus!
