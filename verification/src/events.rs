//! What the window makes of what the worker tells it.
use vstd::prelude::*;
use vstd::string::StringExecFns;

use crate::account::Account;
use crate::confirmation::{remaining_rows, target_views, unanswered, ConfirmationRow};
use crate::dialog::{AddDialog, AddStage};
use crate::pages::loads_page;
use crate::state::{shows_notice, AfterSave, AppState};
use crate::steam::{SteamEvent, SteamRequest};
use crate::text::{concat2, decimal, decimal_text, join, joined, same_text, texts};
use crate::trade::TradeDetails;

verus! {

/// What is to be done after an event.
#[derive(Debug, PartialEq, Eq)]
pub enum Effect {
    /// Nothing.
    Rest,
    /// Store the vault, and then tell how that went.
    Save(AfterSave),
    /// Give the worker a request.
    Send(SteamRequest),
}

// ---------------------------------------------------------------------------
// Placing an account
// ---------------------------------------------------------------------------

/// Whether two entries are of the same Steam account: both tell its number.
pub open spec fn same_steam_id(a: Account, b: Account) -> bool {
    match (a.steam_id, b.steam_id) {
        (Some(first), Some(second)) => first@ == second@,
        _ => false,
    }
}

/// The first entry from `from` on that is of the same Steam account.
pub open spec fn entry_of(accounts: Seq<Account>, account: Account, from: nat) -> Option<nat>
    decreases accounts.len() - from,
{
    if from >= accounts.len() {
        None
    } else if same_steam_id(accounts[from as int], account) {
        Some(from)
    } else {
        entry_of(accounts, account, from + 1)
    }
}

/// The accounts with one more, in place of the entry of the same Steam account
/// or behind the others, and the place that it has.
pub open spec fn placed(accounts: Seq<Account>, account: Account) -> (Seq<Account>, nat) {
    match entry_of(accounts, account, 0) {
        Some(index) => (accounts.update(index as int, account), index),
        None => (accounts.push(account), accounts.len()),
    }
}

/// The accounts with a signed-in one: in place of the entry that was signed in
/// again, or placed as a new one is.
pub open spec fn placed_at(accounts: Seq<Account>, account: Account, index: Option<usize>) -> (
    Seq<Account>,
    nat,
) {
    match index {
        Some(index) => if index < accounts.len() {
            (accounts.update(index as int, account), index as nat)
        } else {
            (accounts, index as nat)
        },
        None => placed(accounts, account),
    }
}

/// Placing an account loses no other: every entry but the one that it replaces
/// stays where it is, and the account is there.
pub proof fn placing_keeps_others(accounts: Seq<Account>, account: Account, i: int)
    requires
        0 <= i < accounts.len(),
    ensures
        ({
            let (after, at) = placed(accounts, account);
            &&& at < after.len()
            &&& after[at as int] == account
            &&& accounts.len() <= after.len()
            &&& i != at ==> after[i] == accounts[i]
            &&& i == at ==> same_steam_id(accounts[i], account)
        }),
{
    lemma_entry_of(accounts, account, 0);
}

proof fn lemma_entry_of(accounts: Seq<Account>, account: Account, from: nat)
    ensures
        entry_of(accounts, account, from) matches Some(index) ==> from <= index < accounts.len()
            && same_steam_id(accounts[index as int], account),
    decreases accounts.len() - from,
{
    if from < accounts.len() && !same_steam_id(accounts[from as int], account) {
        lemma_entry_of(accounts, account, from + 1);
    }
}

fn find_entry(accounts: &Vec<Account>, account: &Account) -> (r: Option<usize>)
    ensures
        match r {
            Some(index) => index < accounts@.len() && entry_of(accounts@, *account, 0) == Some(
                index as nat,
            ),
            None => entry_of(accounts@, *account, 0) is None,
        },
{
    let mut i: usize = 0;
    while i < accounts.len()
        invariant
            i <= accounts@.len(),
            entry_of(accounts@, *account, 0) == entry_of(accounts@, *account, i as nat),
        decreases accounts@.len() - i,
    {
        if let (Some(first), Some(second)) = (&accounts[i].steam_id, &account.steam_id) {
            if same_text(first.as_str(), second.as_str()) {
                return Some(i);
            }
        }
        i = i + 1;
    }
    None
}

fn place(accounts: &mut Vec<Account>, account: Account) -> (r: usize)
    ensures
        (final(accounts)@, r as nat) == placed(old(accounts)@, account),
{
    match find_entry(accounts, &account) {
        Some(index) => {
            accounts.set(index, account);
            index
        },
        None => {
            let index: usize = accounts.len();
            accounts.push(account);
            index
        },
    }
}

// ---------------------------------------------------------------------------
// The dialog
// ---------------------------------------------------------------------------

/// A dialog, if there is one, at another stage.
pub open spec fn at_stage(dialog: Option<AddDialog>, stage: AddStage) -> Option<AddDialog> {
    match dialog {
        Some(dialog) => Some(AddDialog { stage, ..dialog }),
        None => None,
    }
}

/// Whether a dialog waits for the worker, or has asked it for nothing yet.
pub open spec fn is_working(dialog: Option<AddDialog>) -> bool {
    dialog matches Some(dialog) && (dialog.stage is Credentials || dialog.stage is Working)
}

/// Whether `after` is `before` without an entered code, at some stage.
pub open spec fn asks_anew(before: Option<AddDialog>, after: Option<AddDialog>) -> bool {
    match before {
        None => after is None,
        Some(dialog) => {
            &&& after is Some
            &&& after->0 == AddDialog { code: after->0.code, stage: after->0.stage, ..dialog }
            &&& after->0.code@.len() == 0
        },
    }
}

// ---------------------------------------------------------------------------
// The items of a trade
// ---------------------------------------------------------------------------

/// The first row from `from` on that came with that load and has that number.
pub open spec fn row_of_trade(
    rows: Seq<ConfirmationRow>,
    load_id: u64,
    id: Seq<char>,
    from: nat,
) -> Option<nat>
    decreases rows.len() - from,
{
    if from >= rows.len() {
        None
    } else if rows[from as int].load_id == load_id && rows[from as int].id@ == id {
        Some(from)
    } else {
        row_of_trade(rows, load_id, id, from + 1)
    }
}

/// The rows with the items of a trade in the row that they are for, if it is
/// still there.
pub open spec fn with_trade(
    rows: Seq<ConfirmationRow>,
    load_id: u64,
    id: Seq<char>,
    details: Result<TradeDetails, String>,
) -> Seq<ConfirmationRow> {
    match row_of_trade(rows, load_id, id, 0) {
        Some(index) => rows.update(
            index as int,
            ConfirmationRow { trade: Some(details), ..rows[index as int] },
        ),
        None => rows,
    }
}

/// The items of a trade of an earlier load reach no row of this one.
pub proof fn late_trades_are_dropped(
    rows: Seq<ConfirmationRow>,
    load_id: u64,
    id: Seq<char>,
    details: Result<TradeDetails, String>,
)
    requires
        forall|i: int| 0 <= i < rows.len() ==> (#[trigger] rows[i]).load_id != load_id,
    ensures
        with_trade(rows, load_id, id, details) == rows,
{
    lemma_no_row(rows, load_id, id, 0);
}

proof fn lemma_no_row(rows: Seq<ConfirmationRow>, load_id: u64, id: Seq<char>, from: nat)
    requires
        forall|i: int| 0 <= i < rows.len() ==> (#[trigger] rows[i]).load_id != load_id,
    ensures
        row_of_trade(rows, load_id, id, from) is None,
    decreases rows.len() - from,
{
    if from < rows.len() {
        lemma_no_row(rows, load_id, id, from + 1);
    }
}

fn find_trade(rows: &Vec<ConfirmationRow>, load_id: u64, id: &str) -> (r: Option<usize>)
    ensures
        match r {
            Some(index) => index < rows@.len() && row_of_trade(rows@, load_id, id@, 0) == Some(
                index as nat,
            ),
            None => row_of_trade(rows@, load_id, id@, 0) is None,
        },
{
    let mut i: usize = 0;
    while i < rows.len()
        invariant
            i <= rows@.len(),
            row_of_trade(rows@, load_id, id@, 0) == row_of_trade(rows@, load_id, id@, i as nat),
        decreases rows@.len() - i,
    {
        if rows[i].load_id == load_id && same_text(rows[i].id.as_str(), id) {
            return Some(i);
        }
        i = i + 1;
    }
    None
}

fn set_trade(
    rows: &mut Vec<ConfirmationRow>,
    load_id: u64,
    id: &str,
    details: Result<TradeDetails, String>,
)
    ensures
        final(rows)@ == with_trade(old(rows)@, load_id, id@, details),
{
    if let Some(index) = find_trade(rows, load_id, id) {
        rows[index].trade = Some(details);
    }
}

// ---------------------------------------------------------------------------
// Events
// ---------------------------------------------------------------------------

/// What the user is told of a bulk answer.
pub open spec fn batch_summary(count: nat, errors: Seq<Seq<char>>) -> Seq<char> {
    if errors.len() == 0 {
        "Обработано подтверждений: "@ + decimal(count)
    } else {
        "Обработано: "@ + decimal(count) + ". Не удалось обработать часть списка: "@ + joined(
            errors,
            "; "@,
        )
    }
}

fn batch_text(count: usize, errors: &[String]) -> (r: String)
    ensures
        r@ == batch_summary(count as nat, texts(errors@)),
{
    let number = decimal_text(count as u64);
    if errors.len() == 0 {
        concat2("Обработано подтверждений: ", number.as_str())
    } else {
        let mut text = concat2("Обработано: ", number.as_str());
        text.append(". Не удалось обработать часть списка: ");
        text.append(join(errors, "; ").as_str());
        text
    }
}

/// Whether `after` and the effect are what becomes of an event.
pub open spec fn handles(before: AppState, event: SteamEvent, after: AppState, effect: Effect) -> bool {
    match event {
        SteamEvent::Working(message) => {
            &&& after == AppState {
                steam_busy: true,
                add_dialog: if is_working(before.add_dialog) {
                    at_stage(before.add_dialog, AddStage::Working(message))
                } else {
                    before.add_dialog
                },
                ..before
            }
            &&& effect is Rest
        },
        SteamEvent::NeedGuardCode { device_code, message } => {
            &&& after == AppState { steam_busy: false, add_dialog: after.add_dialog, ..before }
            &&& asks_anew(before.add_dialog, after.add_dialog)
            &&& after.add_dialog matches Some(dialog) ==> {
                dialog.stage matches AddStage::GuardCode { message: shown } && shown@
                    == if device_code {
                    message@
                } else {
                    "Код из письма: "@ + message@
                }
            }
            &&& effect is Rest
        },
        SteamEvent::NeedExternalApproval(message) => {
            &&& after == AppState {
                steam_busy: true,
                add_dialog: at_stage(before.add_dialog, AddStage::ExternalApproval(message)),
                ..before
            }
            &&& effect is Rest
        },
        SteamEvent::NeedEnrollmentCode { destination, recovery_code, draft_account } => {
            &&& after == AppState { steam_busy: false, accounts: after.accounts, ..before }
            &&& after.accounts@ == placed(before.accounts@, draft_account).0
            &&& effect matches Effect::Save(
                AfterSave::DraftAdded { destination: to, recovery_code: code, saved_index },
            ) && to == destination && code == recovery_code && saved_index == placed(
                before.accounts@,
                draft_account,
            ).1
        },
        SteamEvent::AuthenticatorAlreadyPresent => {
            &&& after == AppState {
                steam_busy: false,
                add_dialog: at_stage(before.add_dialog, AddStage::ExistingAuthenticator),
                ..before
            }
            &&& effect is Rest
        },
        SteamEvent::NeedTransferCode => {
            &&& after == AppState { steam_busy: false, add_dialog: after.add_dialog, ..before }
            &&& asks_anew(before.add_dialog, after.add_dialog)
            &&& after.add_dialog matches Some(dialog) ==> dialog.stage is TransferCode
            &&& effect is Rest
        },
        SteamEvent::EnrollmentComplete { replace_index, account, recovery_code } => {
            &&& after == AppState { steam_busy: false, accounts: after.accounts, ..before }
            &&& after.accounts@ == placed_at(before.accounts@, account, replace_index).0
            &&& effect matches Effect::Save(
                AfterSave::AccountAdded { recovery_code: code, saved_index },
            ) && code == recovery_code && saved_index == placed_at(
                before.accounts@,
                account,
                replace_index,
            ).1
        },
        SteamEvent::ConfirmationsLoaded(rows) => {
            &&& after == AppState {
                steam_busy: false,
                confirmations: rows,
                notice: after.notice,
                ..before
            }
            &&& shows_notice(after, "Подтверждения обновлены"@, false)
            &&& effect is Rest
        },
        SteamEvent::TradeDetailsLoaded { load_id, id, details } => {
            &&& after == AppState { confirmations: after.confirmations, ..before }
            &&& after.confirmations@ == with_trade(before.confirmations@, load_id, id@, details)
            &&& effect is Rest
        },
        SteamEvent::LoginRequestsLoaded(rows) => {
            &&& after == AppState {
                steam_busy: false,
                login_requests: rows,
                notice: after.notice,
                ..before
            }
            &&& shows_notice(after, "Запросы входа обновлены"@, false)
            &&& effect is Rest
        },
        SteamEvent::ActionComplete(message) => {
            &&& after == AppState { steam_busy: false, notice: after.notice, ..before }
            &&& shows_notice(after, message@, false)
            &&& match effect {
                Effect::Send(request) => loads_page(after, Some(request)),
                Effect::Rest => loads_page(after, None),
                Effect::Save(_) => false,
            }
        },
        SteamEvent::ConfirmationsBatchComplete { completed, errors } => {
            &&& after == AppState {
                steam_busy: false,
                confirmations: after.confirmations,
                notice: after.notice,
                ..before
            }
            &&& after.confirmations@ == unanswered(
                before.confirmations@,
                target_views(completed@),
            )
            &&& shows_notice(
                after,
                batch_summary(completed@.len(), texts(errors@)),
                errors@.len() > 0,
            )
            &&& effect is Rest
        },
        SteamEvent::Error(error) => {
            &&& after == AppState {
                steam_busy: false,
                add_dialog: match before.add_dialog {
                    Some(dialog) if dialog.stage is Working => at_stage(
                        before.add_dialog,
                        AddStage::Credentials,
                    ),
                    _ => before.add_dialog,
                },
                notice: after.notice,
                ..before
            }
            &&& shows_notice(after, error@, true)
            &&& effect is Rest
        },
    }
}

impl AppState {
    fn set_stage(&mut self, stage: AddStage)
        ensures
            *final(self) == (AppState {
                add_dialog: at_stage(old(self).add_dialog, stage),
                ..*old(self)
            }),
    {
        if let Some(dialog) = &mut self.add_dialog {
            dialog.stage = stage;
        }
    }

    fn ask_anew(&mut self, stage: AddStage)
        ensures
            *final(self) == (AppState { add_dialog: final(self).add_dialog, ..*old(self) }),
            asks_anew(old(self).add_dialog, final(self).add_dialog),
            final(self).add_dialog matches Some(dialog) ==> dialog.stage == stage,
    {
        if let Some(dialog) = &mut self.add_dialog {
            dialog.code = String::new();
            dialog.stage = stage;
        }
    }

    /// Takes note of what the worker tells.
    pub fn handle_event(&mut self, event: SteamEvent) -> (r: Effect)
        ensures
            handles(*old(self), event, *final(self), r),
    {
        match event {
            SteamEvent::Working(message) => {
                self.steam_busy = true;
                let working = match &self.add_dialog {
                    Some(dialog) => match &dialog.stage {
                        AddStage::Credentials => true,
                        AddStage::Working(_) => true,
                        _ => false,
                    },
                    None => false,
                };
                if working {
                    self.set_stage(AddStage::Working(message));
                }
                Effect::Rest
            },
            SteamEvent::NeedGuardCode { device_code, message } => {
                self.steam_busy = false;
                let shown = if device_code {
                    message
                } else {
                    concat2("Код из письма: ", message.as_str())
                };
                self.ask_anew(AddStage::GuardCode { message: shown });
                Effect::Rest
            },
            SteamEvent::NeedExternalApproval(message) => {
                self.steam_busy = true;
                self.set_stage(AddStage::ExternalApproval(message));
                Effect::Rest
            },
            SteamEvent::NeedEnrollmentCode { destination, recovery_code, draft_account } => {
                self.steam_busy = false;
                let saved_index = place(&mut self.accounts, draft_account);
                Effect::Save(AfterSave::DraftAdded { destination, recovery_code, saved_index })
            },
            SteamEvent::AuthenticatorAlreadyPresent => {
                self.steam_busy = false;
                self.set_stage(AddStage::ExistingAuthenticator);
                Effect::Rest
            },
            SteamEvent::NeedTransferCode => {
                self.steam_busy = false;
                self.ask_anew(AddStage::TransferCode);
                Effect::Rest
            },
            SteamEvent::EnrollmentComplete { replace_index, account, recovery_code } => {
                self.steam_busy = false;
                let saved_index = match replace_index {
                    Some(index) => {
                        if index < self.accounts.len() {
                            self.accounts.set(index, account);
                        }
                        index
                    },
                    None => place(&mut self.accounts, account),
                };
                Effect::Save(AfterSave::AccountAdded { recovery_code, saved_index })
            },
            SteamEvent::ConfirmationsLoaded(rows) => {
                self.steam_busy = false;
                self.confirmations = rows;
                self.show_notice("Подтверждения обновлены".to_owned(), false);
                Effect::Rest
            },
            SteamEvent::TradeDetailsLoaded { load_id, id, details } => {
                set_trade(&mut self.confirmations, load_id, id.as_str(), details);
                Effect::Rest
            },
            SteamEvent::LoginRequestsLoaded(rows) => {
                self.steam_busy = false;
                self.login_requests = rows;
                self.show_notice("Запросы входа обновлены".to_owned(), false);
                Effect::Rest
            },
            SteamEvent::ActionComplete(message) => {
                self.steam_busy = false;
                self.show_notice(message, false);
                match self.refresh_current_tab() {
                    Some(request) => Effect::Send(request),
                    None => Effect::Rest,
                }
            },
            SteamEvent::ConfirmationsBatchComplete { completed, errors } => {
                self.steam_busy = false;
                let mut rows: Vec<ConfirmationRow> = Vec::new();
                std::mem::swap(&mut rows, &mut self.confirmations);
                self.confirmations = remaining_rows(rows, completed.as_slice());
                self.show_notice(
                    batch_text(completed.len(), errors.as_slice()),
                    errors.len() > 0,
                );
                Effect::Rest
            },
            SteamEvent::Error(error) => {
                self.steam_busy = false;
                let working = match &self.add_dialog {
                    Some(dialog) => match &dialog.stage {
                        AddStage::Working(_) => true,
                        _ => false,
                    },
                    None => false,
                };
                if working {
                    self.set_stage(AddStage::Credentials);
                }
                self.show_notice(error, true);
                Effect::Rest
            },
        }
    }
}

/// An event never closes the dialog, and never unlocks or locks the vault.
pub proof fn events_keep_dialog_and_vault(
    before: AppState,
    event: SteamEvent,
    after: AppState,
    effect: Effect,
)
    requires
        handles(before, event, after, effect),
    ensures
        after.add_dialog is Some <==> before.add_dialog is Some,
        after.screen == before.screen,
        after.key == before.key,
        after.salt == before.salt,
{
}

proof fn lemma_entry_is_first(accounts: Seq<Account>, account: Account, from: nat, i: int)
    requires
        from <= i <= accounts.len(),
        forall|j: int| from <= j < i ==> !same_steam_id(#[trigger] accounts[j], account),
        i < accounts.len() ==> same_steam_id(accounts[i], account),
    ensures
        entry_of(accounts, account, from) == if i < accounts.len() {
            Some(i as nat)
        } else {
            None
        },
    decreases accounts.len() - from,
{
    if from < i {
        assert(!same_steam_id(accounts[from as int], account));
        lemma_entry_is_first(accounts, account, from + 1, i);
    }
}

/// An account takes the place of the first entry that tells the same number, and
/// of no other.
pub proof fn known_accounts_keep_their_place(
    accounts: Seq<Account>,
    account: Account,
    id: Seq<char>,
    i: int,
)
    requires
        account.steam_id matches Some(own) && own@ == id,
        0 <= i < accounts.len(),
        accounts[i].steam_id matches Some(own) && own@ == id,
        forall|j: int|
            0 <= j < i ==> ((#[trigger] accounts[j]).steam_id matches Some(own) ==> own@ != id),
    ensures
        placed(accounts, account).0 == accounts.update(i, account),
        placed(accounts, account).1 == i,
{
    assert forall|j: int| 0 <= j < i implies !same_steam_id(#[trigger] accounts[j], account) by {
        assert(accounts[j].steam_id matches Some(own) ==> own@ != id);
    }
    lemma_entry_is_first(accounts, account, 0, i);
}

/// An account whose number no entry tells, or that has none, is put behind the
/// others.
pub proof fn new_accounts_go_last(accounts: Seq<Account>, account: Account)
    requires
        account.steam_id matches Some(id) ==> forall|j: int|
            0 <= j < accounts.len() ==> ((#[trigger] accounts[j]).steam_id matches Some(own) ==> own@
                != id@),
    ensures
        placed(accounts, account).0 == accounts.push(account),
        placed(accounts, account).1 == accounts.len(),
{
    assert forall|j: int| 0 <= j < accounts.len() implies !same_steam_id(
        #[trigger] accounts[j],
        account,
    ) by {
        if account.steam_id is Some {
            assert(accounts[j].steam_id matches Some(own) ==> own@ != account.steam_id->0@);
        }
    }
    lemma_entry_is_first(accounts, account, 0, accounts.len() as int);
}

/// An account that was signed in again is stored at its own place and at no
/// other, and the saved place is the one that is told.
pub proof fn signed_in_accounts_are_stored(
    before: AppState,
    index: usize,
    account: Account,
    recovery_code: String,
    after: AppState,
    effect: Effect,
)
    requires
        index < before.accounts@.len(),
        handles(
            before,
            SteamEvent::EnrollmentComplete { replace_index: Some(index), account, recovery_code },
            after,
            effect,
        ),
    ensures
        after.accounts@.len() == before.accounts@.len(),
        after.accounts@[index as int] == account,
        forall|i: int|
            0 <= i < before.accounts@.len() && i != index ==> (#[trigger] after.accounts@[i])
                == before.accounts@[i],
        !after.steam_busy,
        effect matches Effect::Save(AfterSave::AccountAdded { recovery_code: code, saved_index })
            && code == recovery_code && saved_index == index,
{
}

/// The secrets of an unfinished authenticator are stored before the user is
/// asked for the code: they are among the accounts, and the vault is to be
/// saved.
pub proof fn drafts_are_stored(
    before: AppState,
    destination: String,
    recovery_code: String,
    draft_account: Account,
    after: AppState,
    effect: Effect,
)
    requires
        handles(
            before,
            SteamEvent::NeedEnrollmentCode { destination, recovery_code, draft_account },
            after,
            effect,
        ),
    ensures
        effect matches Effect::Save(
            AfterSave::DraftAdded { destination: to, recovery_code: code, saved_index },
        ) && to == destination && code == recovery_code && saved_index < after.accounts@.len()
            && after.accounts@[saved_index as int] == draft_account,
        after.add_dialog == before.add_dialog,
{
    lemma_entry_of(before.accounts@, draft_account, 0);
}

/// The window is busy exactly while the worker works or waits for an approval;
/// the items of a trade come beside that and change nothing of it.
pub proof fn window_is_busy_while_the_worker_is(
    before: AppState,
    event: SteamEvent,
    after: AppState,
    effect: Effect,
)
    requires
        handles(before, event, after, effect),
    ensures
        event is TradeDetailsLoaded ==> after.steam_busy == before.steam_busy,
        !(event is TradeDetailsLoaded) ==> (after.steam_busy <==> event is Working
            || event is NeedExternalApproval),
{
}

/// What was loaded is what is shown: the confirmations and the sign-ins are
/// those that came, and every message is shown as it came, an error as an
/// error.
pub proof fn loaded_rows_are_shown(
    before: AppState,
    event: SteamEvent,
    after: AppState,
    effect: Effect,
)
    requires
        handles(before, event, after, effect),
    ensures
        event matches SteamEvent::ConfirmationsLoaded(rows) ==> after.confirmations == rows
            && after.login_requests == before.login_requests,
        event matches SteamEvent::LoginRequestsLoaded(rows) ==> after.login_requests == rows
            && after.confirmations == before.confirmations,
        event matches SteamEvent::Error(error) ==> (after.notice matches Some(notice) && notice.text@
            == error@ && notice.error && notice.created == before.now),
        event matches SteamEvent::ActionComplete(message) ==> (after.notice matches Some(notice)
            && notice.text@ == message@ && !notice.error && notice.created == before.now),
        !(event is NeedEnrollmentCode) && !(event is EnrollmentComplete) ==> after.accounts
            == before.accounts,
{
}

/// A failure takes a dialog that was waiting back to its first stage, with what
/// was entered in it; another stage stays.
pub proof fn failures_return_to_the_form(
    before: AppState,
    error: String,
    after: AppState,
    effect: Effect,
    dialog: AddDialog,
)
    requires
        handles(before, SteamEvent::Error(error), after, effect),
        before.add_dialog == Some(dialog),
    ensures
        after.add_dialog matches Some(next) && next.username == dialog.username && next.code
            == dialog.code && next.existing_index == dialog.existing_index && (dialog.stage
            is Working ==> next.stage is Credentials) && (!(dialog.stage is Working) ==> next
            == dialog),
{
}

/// A code that is asked for is asked for in Steam's words, marked where it
/// comes by e-mail, and with nothing entered yet.
pub proof fn asked_codes_name_their_source(
    before: AppState,
    device_code: bool,
    message: String,
    after: AppState,
    effect: Effect,
)
    requires
        handles(before, SteamEvent::NeedGuardCode { device_code, message }, after, effect),
        before.add_dialog is Some,
    ensures
        after.add_dialog matches Some(next) && next.code@.len() == 0 && (
        next.stage matches AddStage::GuardCode { message: shown } && (device_code ==> shown@
            == message@) && (!device_code ==> shown@ == "Код из письма: "@ + message@)),
{
}

proof fn lemma_row_is_first(
    rows: Seq<ConfirmationRow>,
    load_id: u64,
    id: Seq<char>,
    from: nat,
    i: int,
)
    requires
        from <= i < rows.len(),
        rows[i].load_id == load_id,
        rows[i].id@ == id,
        forall|j: int|
            from <= j < i ==> (#[trigger] rows[j]).load_id != load_id || rows[j].id@ != id,
    ensures
        row_of_trade(rows, load_id, id, from) == Some(i as nat),
    decreases rows.len() - from,
{
    if from < i {
        assert(rows[from as int].load_id != load_id || rows[from as int].id@ != id);
        lemma_row_is_first(rows, load_id, id, from + 1, i);
    }
}

/// The items of a trade go to the row of that load and that number, which stays
/// as it is but for them, and to no other row.
pub proof fn trades_go_to_their_row(
    before: AppState,
    load_id: u64,
    id: String,
    details: Result<TradeDetails, String>,
    after: AppState,
    effect: Effect,
    i: int,
)
    requires
        handles(before, SteamEvent::TradeDetailsLoaded { load_id, id, details }, after, effect),
        0 <= i < before.confirmations@.len(),
        before.confirmations@[i].load_id == load_id,
        before.confirmations@[i].id@ == id@,
        forall|j: int|
            0 <= j < i ==> (#[trigger] before.confirmations@[j]).load_id != load_id
                || before.confirmations@[j].id@ != id@,
    ensures
        after.confirmations@.len() == before.confirmations@.len(),
        after.confirmations@[i] == (ConfirmationRow {
            trade: Some(details),
            ..before.confirmations@[i]
        }),
        forall|j: int|
            0 <= j < before.confirmations@.len() && j != i ==> (#[trigger] after.confirmations@[j])
                == before.confirmations@[j],
        after.notice == before.notice,
{
    lemma_row_is_first(before.confirmations@, load_id, id@, 0, i);
}

/// After a bulk answer exactly the answered rows are gone, and the message
/// counts them; it is an error where a part could not be answered.
pub proof fn bulk_answers_are_counted(
    before: AppState,
    completed: Vec<crate::confirmation::ConfirmationTarget>,
    errors: Vec<String>,
    after: AppState,
    effect: Effect,
    row: ConfirmationRow,
)
    requires
        handles(
            before,
            SteamEvent::ConfirmationsBatchComplete { completed, errors },
            after,
            effect,
        ),
        before.confirmations@.contains(row),
    ensures
        !after.confirmations@.contains(row) <==> exists|i: int|
            0 <= i < completed@.len() && (#[trigger] completed@[i]).load_id == row.load_id
                && completed@[i].id@ == row.id@ && completed@[i].nonce@ == row.nonce@,
        after.notice matches Some(notice) && (notice.error <==> errors@.len() > 0) && (errors@.len()
            == 0 ==> notice.text@ == "Обработано подтверждений: "@ + decimal(completed@.len())) && (
        errors@.len() > 0 ==> notice.text@ == "Обработано: "@ + decimal(completed@.len())
            + ". Не удалось обработать часть списка: "@ + joined(texts(errors@), "; "@)),
{
    let views = target_views(completed@);
    crate::confirmation::only_the_answered_row_leaves(before.confirmations@, views, row);
    assert forall|i: int| 0 <= i < completed@.len() implies (#[trigger] views[i])
        == completed@[i]@ by {}
    if exists|i: int|
        0 <= i < completed@.len() && (#[trigger] completed@[i]).load_id == row.load_id
            && completed@[i].id@ == row.id@ && completed@[i].nonce@ == row.nonce@ {
        let i = choose|i: int|
            0 <= i < completed@.len() && (#[trigger] completed@[i]).load_id == row.load_id
                && completed@[i].id@ == row.id@ && completed@[i].nonce@ == row.nonce@;
        assert(views[i].load_id == row.load_id);
    }
    if exists|i: int|
        0 <= i < views.len() && (#[trigger] views[i]).load_id == row.load_id && views[i].id
            == row.id@ && views[i].nonce == row.nonce@ {
        let i = choose|i: int|
            0 <= i < views.len() && (#[trigger] views[i]).load_id == row.load_id && views[i].id
                == row.id@ && views[i].nonce == row.nonce@;
        assert(completed@[i].load_id == row.load_id);
    }
}

} // verus!
