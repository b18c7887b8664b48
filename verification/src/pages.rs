//! What the pages of an open vault ask of Steam.
use vstd::prelude::*;

use crate::account::{Account, MobileAccount};
use crate::confirmation::{
    all_available, count_in, count_rows, group_confirmations, group_views, grouped, mobile_at, ConfirmationRow,
    ConfirmationScope,
};
use crate::crypto::wipe_text;
use crate::dialog::{AddDialog, AddStage};
use crate::import::{import_summary, import_text};
use crate::login::LoginRequestRow;
use crate::state::{only_notice_changes, shows_notice, AfterSave, AppState, ReadyTab};
use crate::steam::SteamRequest;
use crate::text::concat2;

verus! {

// ---------------------------------------------------------------------------
// Loading a page
// ---------------------------------------------------------------------------

/// The authenticators of the vault, each with its place, in order.
pub open spec fn mobile_accounts(accounts: Seq<Account>) -> Seq<(usize, MobileAccount)>
    decreases accounts.len(),
{
    if accounts.len() == 0 {
        Seq::empty()
    } else {
        let before = mobile_accounts(accounts.drop_last());
        match accounts.last().mobile {
            Some(mobile) => before.push(((accounts.len() - 1) as usize, mobile)),
            None => before,
        }
    }
}

/// The authenticators whose confirmations are loaded: those of the one account
/// that the page is for, or all.
pub open spec fn filtered_accounts(accounts: Seq<Account>, filter: Option<usize>) -> Seq<
    (usize, MobileAccount),
> {
    match filter {
        Some(index) => match mobile_at(accounts, index as nat) {
            Some(mobile) => seq![(index, mobile)],
            None => Seq::empty(),
        },
        None => mobile_accounts(accounts),
    }
}

/// Whether a request is the one that loads the page at hand.
pub open spec fn loads_page(state: AppState, request: Option<SteamRequest>) -> bool {
    match state.ready_tab {
        ReadyTab::Codes => request is None,
        ReadyTab::Confirmations => request matches Some(SteamRequest::LoadConfirmations(accounts))
            && accounts@ == filtered_accounts(
            state.accounts@,
            state.confirmation_account_filter,
        ),
        ReadyTab::LoginRequests => request matches Some(SteamRequest::LoadLoginRequests(accounts))
            && accounts@ == mobile_accounts(state.accounts@),
    }
}

/// Whether a state shows that a request went out, or that it could not.
pub open spec fn is_sent(before: AppState, sent: bool, after: AppState) -> bool {
    if sent {
        after == AppState { steam_busy: true, ..before }
    } else {
        only_notice_changes(before, after) && shows_notice(
            after,
            "Фоновый модуль Steam остановлен"@,
            true,
        )
    }
}

impl AppState {
    /// The authenticators of the vault, each with its place.
    pub fn steam_accounts(&self) -> (r: Vec<(usize, MobileAccount)>)
        ensures
            r@ == mobile_accounts(self.accounts@),
    {
        let mut out: Vec<(usize, MobileAccount)> = Vec::new();
        let mut i: usize = 0;
        assert(self.accounts@.take(0) =~= Seq::<Account>::empty());
        while i < self.accounts.len()
            invariant
                i <= self.accounts@.len(),
                out@ == mobile_accounts(self.accounts@.take(i as int)),
            decreases self.accounts@.len() - i,
        {
            assert(self.accounts@.take(i + 1).drop_last() =~= self.accounts@.take(i as int));
            assert(self.accounts@.take(i + 1).last() == self.accounts@[i as int]);
            if let Some(mobile) = &self.accounts[i].mobile {
                out.push((i, mobile.clone()));
            }
            i = i + 1;
        }
        assert(self.accounts@.take(i as int) =~= self.accounts@);
        out
    }

    /// The authenticator of the account at that place, if there is one.
    pub fn mobile_of(&self, index: usize) -> (r: Option<MobileAccount>)
        ensures
            r == mobile_at(self.accounts@, index as nat),
    {
        if index < self.accounts.len() {
            self.accounts[index].mobile.clone()
        } else {
            None
        }
    }

    /// The request that loads the page at hand.
    pub fn refresh_current_tab(&self) -> (r: Option<SteamRequest>)
        ensures
            loads_page(*self, r),
    {
        match self.ready_tab {
            ReadyTab::Codes => None,
            ReadyTab::Confirmations => {
                let accounts = match self.confirmation_account_filter {
                    Some(index) => {
                        let mut accounts: Vec<(usize, MobileAccount)> = Vec::new();
                        if let Some(mobile) = self.mobile_of(index) {
                            accounts.push((index, mobile));
                        }
                        assert(accounts@ =~= filtered_accounts(self.accounts@, Some(index)));
                        accounts
                    },
                    None => self.steam_accounts(),
                };
                Some(SteamRequest::LoadConfirmations(accounts))
            },
            ReadyTab::LoginRequests => Some(SteamRequest::LoadLoginRequests(self.steam_accounts())),
        }
    }

    /// Takes note of whether the worker could be given a request.
    pub fn request_sent(&mut self, sent: bool)
        ensures
            is_sent(*old(self), sent, *final(self)),
    {
        if sent {
            self.steam_busy = true;
        } else {
            self.show_notice("Фоновый модуль Steam остановлен".to_owned(), true);
        }
    }

    /// Turns to another page. The confirmations are loaded anew, for all
    /// accounts; the codes are always there.
    pub fn open_tab(&mut self, tab: ReadyTab) -> (r: Option<SteamRequest>)
        ensures
            ({
                let cleared = tab == ReadyTab::Confirmations;
                &&& *final(self) == (AppState {
                    ready_tab: tab,
                    confirmation_account_filter: if cleared {
                        None
                    } else {
                        old(self).confirmation_account_filter
                    },
                    confirmations: final(self).confirmations,
                    ..*old(self)
                })
                &&& if cleared {
                    final(self).confirmations@.len() == 0
                } else {
                    final(self).confirmations == old(self).confirmations
                }
                &&& loads_page(*final(self), r)
            }),
    {
        self.ready_tab = tab;
        if let ReadyTab::Confirmations = tab {
            self.confirmation_account_filter = None;
            self.confirmations = Vec::new();
        }
        self.refresh_current_tab()
    }

    /// Shows the confirmations of all accounts in place of those of one.
    pub fn show_all_confirmations(&mut self) -> (r: Option<SteamRequest>)
        ensures
            *final(self) == (AppState {
                confirmation_account_filter: None,
                confirmations: final(self).confirmations,
                ..*old(self)
            }),
            final(self).confirmations@.len() == 0,
            loads_page(*final(self), r),
    {
        self.confirmation_account_filter = None;
        self.confirmations = Vec::new();
        self.refresh_current_tab()
    }

    /// Opens the dialog that signs an account in: a new one, or one of the
    /// vault, whose name is filled in.
    pub fn open_steam_login(&mut self, existing_index: Option<usize>)
        ensures
            *final(self) == (AppState { add_dialog: final(self).add_dialog, ..*old(self) }),
            final(self).add_dialog matches Some(dialog) && is_new_dialog(
                dialog,
                existing_index,
                old(self).accounts@,
            ),
    {
        let username = match existing_index {
            Some(index) => if index < self.accounts.len() {
                self.accounts[index].name.clone()
            } else {
                String::new()
            },
            None => String::new(),
        };
        self.add_dialog = Some(AddDialog::new(existing_index, username));
    }

    /// Opens the confirmations of one account. An account without a session is
    /// to sign in first, and one without an authenticator has none.
    pub fn open_account_confirmations(&mut self, index: usize) -> (r: Option<SteamRequest>)
        ensures
            opens_confirmations(*old(self), index, *final(self), r),
    {
        if index >= self.accounts.len() {
            return None;
        }
        let authorized = match &self.accounts[index].mobile {
            Some(mobile) => mobile.is_logged_in(),
            None => {
                self.show_notice(
                    "В maFile нет identity_secret или device_id — подтверждения недоступны".to_owned(),
                    true,
                );
                return None;
            },
        };
        self.ready_tab = ReadyTab::Confirmations;
        self.confirmation_account_filter = Some(index);
        self.confirmations = Vec::new();
        if authorized {
            return self.refresh_current_tab();
        }
        self.show_notice(
            "Для подтверждений нужна отдельная авторизация Steam".to_owned(),
            false,
        );
        self.open_steam_login(Some(index));
        None
    }
}

/// Whether a dialog is new: it asks for the password, and knows the name of the
/// account that it is for.
pub open spec fn is_new_dialog(
    dialog: AddDialog,
    existing_index: Option<usize>,
    accounts: Seq<Account>,
) -> bool {
    &&& dialog.username@ == match existing_index {
        Some(index) if index < accounts.len() => accounts[index as int].name@,
        _ => Seq::empty(),
    }
    &&& dialog.password@.len() == 0
    &&& dialog.code@.len() == 0
    &&& dialog.existing_index == existing_index
    &&& dialog.result_index is None
    &&& dialog.stage is Credentials
}

/// Whether `after` and the request are what becomes of the wish to see the
/// confirmations of one account.
pub open spec fn opens_confirmations(
    before: AppState,
    index: usize,
    after: AppState,
    request: Option<SteamRequest>,
) -> bool {
    if index >= before.accounts@.len() {
        after == before && request is None
    } else {
        match before.accounts@[index as int].mobile {
            None => {
                &&& only_notice_changes(before, after)
                &&& shows_notice(
                    after,
                    "В maFile нет identity_secret или device_id — подтверждения недоступны"@,
                    true,
                )
                &&& request is None
            },
            Some(mobile) => {
                let opened = AppState {
                    ready_tab: ReadyTab::Confirmations,
                    confirmation_account_filter: Some(index),
                    confirmations: after.confirmations,
                    ..before
                };
                &&& after.confirmations@.len() == 0
                &&& if mobile.tokens is Some {
                    after == opened && loads_page(after, request)
                } else {
                    &&& after == AppState {
                        notice: after.notice,
                        add_dialog: after.add_dialog,
                        ..opened
                    }
                    &&& shows_notice(
                        after,
                        "Для подтверждений нужна отдельная авторизация Steam"@,
                        false,
                    )
                    &&& after.add_dialog matches Some(dialog) && is_new_dialog(
                        dialog,
                        Some(index),
                        before.accounts@,
                    )
                    &&& request is None
                }
            },
        }
    }
}

// ---------------------------------------------------------------------------
// Answering
// ---------------------------------------------------------------------------

/// Whether `after` and the request are what becomes of a bulk answer.
pub open spec fn answers_in_bulk(
    before: AppState,
    scope: ConfirmationScope,
    accept: bool,
    after: AppState,
    request: Option<SteamRequest>,
) -> bool {
    let rows = before.confirmations@;
    if count_in(rows, scope) == 0 || before.steam_busy {
        after == before && request is None
    } else if all_available(before.accounts@, rows, scope) {
        &&& after == before
        &&& request matches Some(
            SteamRequest::RespondConfirmations { groups, accept: sent },
        ) && sent == accept && group_views(groups@) == grouped(
            before.accounts@,
            rows,
            scope,
            before.accounts@.len(),
        )
    } else {
        &&& only_notice_changes(before, after)
        &&& shows_notice(after, "Аккаунт подтверждения недоступен. Обновите список"@, true)
        &&& request is None
    }
}

/// Whether `after` and the request are what becomes of the answer to one row.
pub open spec fn answers_row(
    before: AppState,
    row: ConfirmationRow,
    accept: bool,
    after: AppState,
    request: Option<SteamRequest>,
) -> bool {
    if before.steam_busy {
        after == before && request is None
    } else {
        match mobile_at(before.accounts@, row.account_index as nat) {
            Some(account) => {
                &&& after == before
                &&& request == Some(
                    SteamRequest::RespondConfirmation { account, id: row.id, nonce: row.nonce, accept },
                )
            },
            None => {
                &&& only_notice_changes(before, after)
                &&& shows_notice(after, "Аккаунт подтверждения недоступен"@, true)
                &&& request is None
            },
        }
    }
}

impl AppState {
    /// Answers all rows of a scope alike. Nothing is answered while the worker
    /// is busy.
    pub fn answer_confirmations(&mut self, scope: ConfirmationScope, accept: bool) -> (r: Option<
        SteamRequest,
    >)
        ensures
            answers_in_bulk(*old(self), scope, accept, *final(self), r),
    {
        if count_rows(self.confirmations.as_slice(), scope) == 0 || self.steam_busy {
            return None;
        }
        match group_confirmations(self.accounts.as_slice(), self.confirmations.as_slice(), scope) {
            Ok(groups) => Some(SteamRequest::RespondConfirmations { groups, accept }),
            Err(message) => {
                self.show_notice(message, true);
                None
            },
        }
    }

    /// Answers one row. Nothing is answered while the worker is busy.
    pub fn answer_confirmation(&mut self, row: &ConfirmationRow, accept: bool) -> (r: Option<
        SteamRequest,
    >)
        ensures
            answers_row(*old(self), *row, accept, *final(self), r),
    {
        if self.steam_busy {
            return None;
        }
        match self.mobile_of(row.account_index) {
            Some(account) => Some(
                SteamRequest::RespondConfirmation {
                    account,
                    id: row.id.clone(),
                    nonce: row.nonce.clone(),
                    accept,
                },
            ),
            None => {
                self.show_notice("Аккаунт подтверждения недоступен".to_owned(), true);
                None
            },
        }
    }

    /// The request that answers a sign-in, where its account is there.
    pub fn answer_login(&self, row: &LoginRequestRow, accept: bool) -> (r: Option<SteamRequest>)
        ensures
            r == match mobile_at(self.accounts@, row.account_index as nat) {
                Some(account) => Some(
                    SteamRequest::RespondLogin {
                        account,
                        client_id: row.client_id,
                        version: row.version,
                        accept,
                    },
                ),
                None => None,
            },
    {
        match self.mobile_of(row.account_index) {
            Some(account) => Some(
                SteamRequest::RespondLogin {
                    account,
                    client_id: row.client_id,
                    version: row.version,
                    accept,
                },
            ),
            None => None,
        }
    }
}

/// While the worker is busy no confirmation can be answered a second time.
pub proof fn busy_window_answers_nothing(
    before: AppState,
    scope: ConfirmationScope,
    row: ConfirmationRow,
    accept: bool,
    after: AppState,
    request: Option<SteamRequest>,
)
    requires
        before.steam_busy,
        answers_in_bulk(before, scope, accept, after, request) || answers_row(
            before,
            row,
            accept,
            after,
            request,
        ),
    ensures
        request is None,
        after == before,
{
}

// ---------------------------------------------------------------------------
// Deleting an account
// ---------------------------------------------------------------------------

impl AppState {
    /// The name of the account that is about to be deleted.
    pub fn delete_name(&self) -> (r: Option<String>)
        ensures
            match self.pending_delete {
                None => r is None,
                Some(index) => r matches Some(name) && name@ == if index < self.accounts@.len() {
                    self.accounts@[index as int].name@
                } else {
                    Seq::empty()
                },
            },
    {
        match self.pending_delete {
            Some(index) => if index < self.accounts.len() {
                Some(self.accounts[index].name.clone())
            } else {
                Some(String::new())
            },
            None => None,
        }
    }

    /// Deletes the account that is about to be deleted, and tells whether the
    /// vault is to be stored.
    pub fn confirm_delete(&mut self) -> (r: Option<AfterSave>)
        ensures
            *final(self) == (AppState {
                accounts: final(self).accounts,
                pending_delete: None,
                ..*old(self)
            }),
            match old(self).pending_delete {
                Some(index) if index < old(self).accounts@.len() => {
                    &&& final(self).accounts@ == old(self).accounts@.remove(index as int)
                    &&& r == Some(AfterSave::Deleted)
                },
                _ => final(self).accounts == old(self).accounts && r is None,
            },
    {
        let deleted = match self.pending_delete {
            Some(index) => if index < self.accounts.len() {
                let mut removed = self.accounts.remove(index);
                wipe_text(&mut removed.shared_secret);
                true
            } else {
                false
            },
            None => false,
        };
        self.pending_delete = None;
        if deleted {
            Some(AfterSave::Deleted)
        } else {
            None
        }
    }
}

// ---------------------------------------------------------------------------
// Exporting an account
// ---------------------------------------------------------------------------

impl AppState {
    /// The authenticator that is exported from that place. The user is told
    /// where there is none.
    pub fn export_source(&mut self, index: usize) -> (r: Option<MobileAccount>)
        ensures
            r == mobile_at(old(self).accounts@, index as nat),
            if r is None && index < old(self).accounts@.len() {
                &&& only_notice_changes(*old(self), *final(self))
                &&& shows_notice(
                    *final(self),
                    "В импортированном файле недостаточно данных для экспорта"@,
                    true,
                )
            } else {
                *final(self) == *old(self)
            },
    {
        let mobile = self.mobile_of(index);
        if mobile.is_none() && index < self.accounts.len() {
            self.show_notice(
                "В импортированном файле недостаточно данных для экспорта".to_owned(),
                true,
            );
        }
        mobile
    }

    /// Tells whether a backup was written to a file.
    pub fn mafile_saved(&mut self, path: &str, result: Result<(), String>)
        ensures
            only_notice_changes(*old(self), *final(self)),
            match result {
                Ok(_) => shows_notice(*final(self), "maFile сохранён: "@ + path@, false),
                Err(error) => shows_notice(
                    *final(self),
                    "Не удалось сохранить maFile: "@ + error@,
                    true,
                ),
            },
    {
        match result {
            Ok(_) => self.show_notice(concat2("maFile сохранён: ", path), false),
            Err(error) => self.show_notice(
                concat2("Не удалось сохранить maFile: ", error.as_str()),
                true,
            ),
        }
    }
}

// ---------------------------------------------------------------------------
// After the vault has been stored
// ---------------------------------------------------------------------------

/// Whether the dialog `after` is `before` at another stage, with no code
/// entered and the account that it has saved.
pub open spec fn dialog_asks_enrollment(
    before: Option<AddDialog>,
    after: Option<AddDialog>,
    saved_index: usize,
    destination: String,
    recovery_code: String,
) -> bool {
    match before {
        None => after is None,
        Some(dialog) => {
            &&& after is Some
            &&& after->0 == AddDialog {
                code: after->0.code,
                result_index: Some(saved_index),
                stage: AddStage::EnrollmentCode { destination, recovery_code },
                ..dialog
            }
            &&& after->0.code@.len() == 0
        },
    }
}

/// Whether `after` and the request are what becomes of a state once the vault
/// has been stored, or could not be.
pub open spec fn follows_save(
    before: AppState,
    save: AfterSave,
    result: Result<(), String>,
    after: AppState,
    request: Option<SteamRequest>,
) -> bool {
    match save {
        AfterSave::Created => {
            &&& only_notice_changes(before, after)
            &&& match result {
                Ok(_) => shows_notice(after, "Зашифрованное хранилище создано"@, false),
                Err(error) => shows_notice(after, error@, true),
            }
            &&& request is None
        },
        AfterSave::Imported { imported, upgraded, skipped } => {
            &&& only_notice_changes(before, after)
            &&& match result {
                Ok(_) => shows_notice(
                    after,
                    import_summary(imported as nat, upgraded as nat, skipped as nat),
                    false,
                ),
                Err(error) => shows_notice(after, error@, true),
            }
            &&& request is None
        },
        AfterSave::DraftAdded { destination, recovery_code, saved_index } => {
            &&& after == AppState { notice: after.notice, add_dialog: after.add_dialog, ..before }
            &&& match result {
                Ok(_) => after.notice == before.notice,
                Err(error) => shows_notice(
                    after,
                    "Критическая ошибка сохранения секретов: "@ + error@,
                    true,
                ),
            }
            &&& dialog_asks_enrollment(
                before.add_dialog,
                after.add_dialog,
                saved_index,
                destination,
                recovery_code,
            )
            &&& request is None
        },
        AfterSave::AccountAdded { recovery_code, saved_index } => match result {
            Ok(_) => {
                &&& after == AppState {
                    notice: after.notice,
                    add_dialog: match before.add_dialog {
                        Some(dialog) => Some(
                            AddDialog {
                                result_index: Some(saved_index),
                                stage: AddStage::Complete { recovery_code },
                                ..dialog
                            },
                        ),
                        None => None,
                    },
                    ..before
                }
                &&& shows_notice(after, "Аккаунт Steam сохранён"@, false)
                &&& if before.ready_tab == ReadyTab::Confirmations
                    && before.confirmation_account_filter == Some(saved_index) {
                    loads_page(after, request)
                } else {
                    request is None
                }
            },
            Err(error) => {
                &&& only_notice_changes(before, after)
                &&& shows_notice(after, error@, true)
                &&& request is None
            },
        },
        AfterSave::Deleted => {
            &&& only_notice_changes(before, after)
            &&& match result {
                Ok(_) => shows_notice(after, "Аккаунт удалён"@, false),
                Err(error) => shows_notice(after, error@, true),
            }
            &&& request is None
        },
    }
}

impl AppState {
    fn tell_result(&mut self, text: String, result: Result<(), String>)
        ensures
            only_notice_changes(*old(self), *final(self)),
            match result {
                Ok(_) => shows_notice(*final(self), text@, false),
                Err(error) => shows_notice(*final(self), error@, true),
            },
    {
        match result {
            Ok(_) => self.show_notice(text, false),
            Err(error) => self.show_notice(error, true),
        }
    }

    /// Takes note of whether the vault could be stored. The confirmations of an
    /// account that has just signed in are loaded if the page is for it.
    pub fn vault_saved(&mut self, save: AfterSave, result: Result<(), String>) -> (r: Option<
        SteamRequest,
    >)
        ensures
            follows_save(*old(self), save, result, *final(self), r),
    {
        match save {
            AfterSave::Created => {
                self.tell_result("Зашифрованное хранилище создано".to_owned(), result);
                None
            },
            AfterSave::Imported { imported, upgraded, skipped } => {
                self.tell_result(import_text(imported, upgraded, skipped), result);
                None
            },
            AfterSave::DraftAdded { destination, recovery_code, saved_index } => {
                if let Err(error) = result {
                    self.show_notice(
                        concat2("Критическая ошибка сохранения секретов: ", error.as_str()),
                        true,
                    );
                }
                if let Some(dialog) = &mut self.add_dialog {
                    dialog.code = String::new();
                    dialog.result_index = Some(saved_index);
                    dialog.stage = AddStage::EnrollmentCode { destination, recovery_code };
                }
                None
            },
            AfterSave::AccountAdded { recovery_code, saved_index } => match result {
                Ok(_) => {
                    if let Some(dialog) = &mut self.add_dialog {
                        dialog.result_index = Some(saved_index);
                        dialog.stage = AddStage::Complete { recovery_code };
                    }
                    self.show_notice("Аккаунт Steam сохранён".to_owned(), false);
                    if self.ready_tab == ReadyTab::Confirmations && self.confirmation_account_filter
                        == Some(saved_index) {
                        self.refresh_current_tab()
                    } else {
                        None
                    }
                },
                Err(error) => {
                    self.show_notice(error, true);
                    None
                },
            },
            AfterSave::Deleted => {
                self.tell_result("Аккаунт удалён".to_owned(), result);
                None
            },
        }
    }
}

proof fn lemma_mobile_accounts(accounts: Seq<Account>, entry: (usize, MobileAccount))
    requires
        accounts.len() <= usize::MAX,
    ensures
        mobile_accounts(accounts).contains(entry) <==> entry.0 < accounts.len()
            && accounts[entry.0 as int].mobile == Some(entry.1),
        forall|i: int|
            0 <= i < mobile_accounts(accounts).len() ==> (#[trigger] mobile_accounts(accounts)[i]).0
                < accounts.len(),
        forall|i: int, j: int|
            0 <= i < j < mobile_accounts(accounts).len() ==> (
            #[trigger] mobile_accounts(accounts)[i]).0 < (#[trigger] mobile_accounts(accounts)[j]).0,
    decreases accounts.len(),
{
    if accounts.len() > 0 {
        let fore = accounts.drop_last();
        lemma_mobile_accounts(fore, entry);
        let before = mobile_accounts(fore);
        let all = mobile_accounts(accounts);
        if let Some(mobile) = accounts.last().mobile {
            let last = ((accounts.len() - 1) as usize, mobile);
            assert(all == before.push(last));
            if before.contains(entry) {
                let k = choose|k: int| 0 <= k < before.len() && before[k] == entry;
                assert(all[k] == entry);
            }
            if entry == last {
                assert(all[all.len() - 1] == entry);
            }
            if all.contains(entry) {
                let k = choose|k: int| 0 <= k < all.len() && all[k] == entry;
                if k < before.len() {
                    assert(before[k] == entry);
                }
            }
        }
    }
}

/// What is loaded for the whole vault is every authenticator that an account
/// has, each with the account's own place, in the order of the vault, and
/// nothing else.
pub proof fn every_authenticator_is_asked_for(accounts: Seq<Account>, index: usize, mobile: MobileAccount)
    requires
        accounts.len() <= usize::MAX,
    ensures
        mobile_accounts(accounts).contains((index, mobile)) <==> index < accounts.len()
            && accounts[index as int].mobile == Some(mobile),
        forall|i: int, j: int|
            0 <= i < j < mobile_accounts(accounts).len() ==> (
            #[trigger] mobile_accounts(accounts)[i]).0 < (#[trigger] mobile_accounts(accounts)[j]).0,
{
    lemma_mobile_accounts(accounts, (index, mobile));
}

/// Each page loads what it shows: the codes nothing, the confirmations those of
/// the chosen account alone or of all, the sign-ins those of all.
pub proof fn pages_load_what_they_show(state: AppState, request: Option<SteamRequest>)
    requires
        loads_page(state, request),
    ensures
        state.ready_tab is Codes ==> request is None,
        state.ready_tab is Confirmations ==> (request matches Some(
            SteamRequest::LoadConfirmations(asked),
        ) && (state.confirmation_account_filter is None ==> asked@ == mobile_accounts(
            state.accounts@,
        )) && (state.confirmation_account_filter matches Some(index) ==> {
            &&& asked@.len() <= 1
            &&& asked@.len() == 1 <==> index < state.accounts@.len()
                && state.accounts@[index as int].mobile is Some
            &&& asked@.len() == 1 ==> asked@[0].0 == index && state.accounts@[index as int].mobile
                == Some(asked@[0].1)
        })),
        state.ready_tab is LoginRequests ==> (request matches Some(
            SteamRequest::LoadLoginRequests(asked),
        ) && asked@ == mobile_accounts(state.accounts@)),
{
}

/// A row is answered as its own account, by its own number and key, with what
/// was chosen.
pub proof fn rows_are_answered_as_themselves(
    before: AppState,
    row: ConfirmationRow,
    accept: bool,
    after: AppState,
    request: Option<SteamRequest>,
)
    requires
        answers_row(before, row, accept, after, request),
        !before.steam_busy,
    ensures
        request is Some <==> row.account_index < before.accounts@.len()
            && before.accounts@[row.account_index as int].mobile is Some,
        request matches Some(sent) ==> (sent matches SteamRequest::RespondConfirmation {
            account,
            id,
            nonce,
            accept: chosen,
        } && before.accounts@[row.account_index as int].mobile == Some(account) && id@ == row.id@
            && nonce@ == row.nonce@ && chosen == accept),
        request is None ==> (after.notice matches Some(notice) && notice.error && notice.text@
            == "Аккаунт подтверждения недоступен"@),
        after.confirmations == before.confirmations,
{
}

/// A bulk answer goes out with what was chosen, where there is anything to
/// answer and every row's account is there; else nothing goes out.
pub proof fn bulk_answers_go_out_whole(
    before: AppState,
    scope: ConfirmationScope,
    accept: bool,
    after: AppState,
    request: Option<SteamRequest>,
)
    requires
        answers_in_bulk(before, scope, accept, after, request),
        !before.steam_busy,
    ensures
        request is Some <==> count_in(before.confirmations@, scope) > 0 && all_available(
            before.accounts@,
            before.confirmations@,
            scope,
        ),
        request matches Some(sent) ==> (sent matches SteamRequest::RespondConfirmations {
            accept: chosen,
            groups,
        } && chosen == accept && group_views(groups@) == grouped(
            before.accounts@,
            before.confirmations@,
            scope,
            before.accounts@.len(),
        )),
        count_in(before.confirmations@, scope) > 0 && request is None ==> (after.notice matches Some(
            notice,
        ) && notice.error),
        after.confirmations == before.confirmations,
{
}

/// The confirmations of one account open its page and load it alone where it
/// has a session; where it has none, its dialog opens under its name; where it
/// has no authenticator, the page stays.
pub proof fn one_accounts_confirmations_open(
    before: AppState,
    index: usize,
    after: AppState,
    request: Option<SteamRequest>,
)
    requires
        opens_confirmations(before, index, after, request),
        index < before.accounts@.len(),
    ensures
        before.accounts@[index as int].mobile is None ==> after.ready_tab == before.ready_tab
            && request is None && (after.notice matches Some(notice) && notice.error),
        before.accounts@[index as int].mobile matches Some(mobile) ==> {
            &&& after.ready_tab is Confirmations
            &&& after.confirmation_account_filter == Some(index)
            &&& after.confirmations@.len() == 0
            &&& mobile.tokens is Some ==> (request matches Some(
                SteamRequest::LoadConfirmations(asked),
            ) && asked@ == seq![(index, mobile)]) && after.add_dialog == before.add_dialog
            &&& mobile.tokens is None ==> request is None && (after.add_dialog matches Some(dialog)
                && dialog.existing_index == Some(index) && dialog.username@
                == before.accounts@[index as int].name@ && dialog.password@.len() == 0
                && dialog.stage is Credentials)
        },
        after.accounts == before.accounts,
{
}

/// Once the secrets of an unfinished authenticator have been stored, or could
/// not be, the dialog shows where the code comes from and the recovery code;
/// only a failure is told, and as an error.
pub proof fn stored_drafts_ask_for_their_code(
    before: AppState,
    destination: String,
    recovery_code: String,
    saved_index: usize,
    result: Result<(), String>,
    after: AppState,
    request: Option<SteamRequest>,
)
    requires
        follows_save(
            before,
            AfterSave::DraftAdded { destination, recovery_code, saved_index },
            result,
            after,
            request,
        ),
    ensures
        before.add_dialog is Some ==> (after.add_dialog matches Some(dialog) && dialog.result_index
            == Some(saved_index) && dialog.code@.len() == 0 && dialog.stage
            == (AddStage::EnrollmentCode { destination, recovery_code })),
        result is Ok ==> after.notice == before.notice,
        result matches Err(error) ==> (after.notice matches Some(notice) && notice.error
            && notice.text@ == "Критическая ошибка сохранения секретов: "@ + error@),
        request is None,
        after.accounts == before.accounts,
{
}

/// Once an account has been stored, the dialog shows its recovery code, and its
/// confirmations are loaded where the page is for it; where it could not be
/// stored, the dialog stays and the error is told.
pub proof fn stored_accounts_are_shown(
    before: AppState,
    recovery_code: String,
    saved_index: usize,
    result: Result<(), String>,
    after: AppState,
    request: Option<SteamRequest>,
)
    requires
        follows_save(
            before,
            AfterSave::AccountAdded { recovery_code, saved_index },
            result,
            after,
            request,
        ),
    ensures
        result is Ok && before.add_dialog is Some ==> (after.add_dialog matches Some(dialog)
            && dialog.result_index == Some(saved_index) && dialog.stage == (AddStage::Complete {
            recovery_code,
        })),
        request is Some <==> result is Ok && before.ready_tab is Confirmations
            && before.confirmation_account_filter == Some(saved_index),
        request matches Some(sent) ==> sent is LoadConfirmations,
        result matches Err(error) ==> after.add_dialog == before.add_dialog && (
        after.notice matches Some(notice) && notice.error && notice.text@ == error@),
        after.accounts == before.accounts,
{
}

/// Whatever was stored, a failure is told in its own words as an error, and a
/// success as none.
pub proof fn saves_are_told(
    before: AppState,
    save: AfterSave,
    result: Result<(), String>,
    after: AppState,
    request: Option<SteamRequest>,
)
    requires
        follows_save(before, save, result, after, request),
        !(save is DraftAdded),
    ensures
        after.notice matches Some(notice) && notice.created == before.now && (notice.error <==> result
            is Err) && (result matches Err(error) ==> notice.text@ == error@) && (result is Ok ==> (
        save is Created ==> notice.text@ == "Зашифрованное хранилище создано"@) && (save is Deleted
            ==> notice.text@ == "Аккаунт удалён"@) && (save is AccountAdded ==> notice.text@
            == "Аккаунт Steam сохранён"@)),
        after.accounts == before.accounts,
        after.screen == before.screen,
{
}

} // verus!
