//! What the window knows, and how it is unlocked and locked.
use vstd::prelude::*;

use crate::account::Account;
use crate::confirmation::ConfirmationRow;
use crate::crypto::{wipe_key, wipe_text};
use crate::dialog::AddDialog;
use crate::login::LoginRequestRow;
use crate::text::{chars_of, same_text};
use crate::vault::{derive_key, is_salt_from, new_salt, vault_key};

verus! {

/// What the window shows: the creation of a vault, a locked vault or an open
/// one.
#[derive(Clone, Copy, Debug, PartialEq, Eq, Structural)]
pub enum Screen {
    Setup,
    Locked,
    Ready,
}

/// The pages of an open vault.
#[derive(Clone, Copy, Debug, PartialEq, Eq, Structural)]
pub enum ReadyTab {
    Codes,
    Confirmations,
    LoginRequests,
}

/// A message at the window's edge, and the time at which it was shown.
#[derive(Debug, PartialEq, Eq)]
pub struct Notice {
    pub text: String,
    pub error: bool,
    pub created: u64,
}

/// What the window knows. `now` is the time, in nanoseconds from the window's
/// start.
pub struct AppState {
    pub now: u64,
    pub screen: Screen,
    pub accounts: Vec<Account>,
    pub password: String,
    pub password_repeat: String,
    pub search: String,
    pub key: Option<[u8; 32]>,
    pub salt: Option<[u8; 16]>,
    pub notice: Option<Notice>,
    pub pending_delete: Option<usize>,
    pub ready_tab: ReadyTab,
    pub add_dialog: Option<AddDialog>,
    pub confirmations: Vec<ConfirmationRow>,
    pub confirmation_account_filter: Option<usize>,
    pub login_requests: Vec<LoginRequestRow>,
    pub steam_busy: bool,
}

/// What is told once the vault has been stored, or could not be.
#[derive(Debug, PartialEq, Eq)]
pub enum AfterSave {
    /// The vault is new.
    Created,
    /// Accounts were imported.
    Imported { imported: usize, upgraded: usize, skipped: usize },
    /// The secrets of an unfinished authenticator were added.
    DraftAdded { destination: String, recovery_code: String, saved_index: usize },
    /// An account was signed in.
    AccountAdded { recovery_code: String, saved_index: usize },
    /// An account was deleted.
    Deleted,
}

/// Whether the state shows exactly this message, and shows it since now.
pub open spec fn shows_notice(state: AppState, text: Seq<char>, error: bool) -> bool {
    state.notice matches Some(notice) && notice.text@ == text && notice.error == error
        && notice.created == state.now
}

/// Whether `after` is `before` but for the message.
pub open spec fn only_notice_changes(before: AppState, after: AppState) -> bool {
    after == AppState { notice: after.notice, ..before }
}

impl AppState {
    /// What the window knows when it opens, given whether there is a vault.
    pub fn new(vault_exists: bool) -> (r: Self)
        ensures
            r.now == 0,
            r.screen == if vault_exists {
                Screen::Locked
            } else {
                Screen::Setup
            },
            r.accounts@.len() == 0,
            r.password@.len() == 0,
            r.password_repeat@.len() == 0,
            r.search@.len() == 0,
            r.key is None,
            r.salt is None,
            r.notice is None,
            r.pending_delete is None,
            r.ready_tab == ReadyTab::Codes,
            r.add_dialog is None,
            r.confirmations@.len() == 0,
            r.confirmation_account_filter is None,
            r.login_requests@.len() == 0,
            !r.steam_busy,
    {
        AppState {
            now: 0,
            screen: if vault_exists {
                Screen::Locked
            } else {
                Screen::Setup
            },
            accounts: Vec::new(),
            password: String::new(),
            password_repeat: String::new(),
            search: String::new(),
            key: None,
            salt: None,
            notice: None,
            pending_delete: None,
            ready_tab: ReadyTab::Codes,
            add_dialog: None,
            confirmations: Vec::new(),
            confirmation_account_filter: None,
            login_requests: Vec::new(),
            steam_busy: false,
        }
    }

    /// Shows a message in place of the one before.
    pub fn show_notice(&mut self, text: String, error: bool)
        ensures
            only_notice_changes(*old(self), *final(self)),
            shows_notice(*final(self), text@, error),
    {
        self.notice = Some(Notice { text, error, created: self.now });
    }

    /// Takes the message away once its time is over: twelve seconds for an
    /// error, four for anything else.
    pub fn expire_notice(&mut self)
        ensures
            only_notice_changes(*old(self), *final(self)),
            final(self).notice == match old(self).notice {
                Some(notice) => if old(self).now - notice.created > notice_lifetime(notice.error) {
                    None
                } else {
                    Some(notice)
                },
                None => None,
            },
            old(self).notice matches Some(notice) ==> {
                &&& old(self).now - notice.created > 12_000_000_000 ==> final(self).notice is None
                &&& old(self).now - notice.created <= 4_000_000_000 ==> final(self).notice == Some(
                    notice,
                )
                &&& 4_000_000_000 < old(self).now - notice.created <= 12_000_000_000 ==> (
                final(self).notice is Some <==> notice.error)
            },
    {
        let over = match &self.notice {
            Some(notice) => {
                let lifetime: u64 = if notice.error {
                    12_000_000_000
                } else {
                    4_000_000_000
                };
                self.now > notice.created && self.now - notice.created > lifetime
            },
            None => false,
        };
        if over {
            self.notice = None;
        }
    }

    // -----------------------------------------------------------------------
    // Creating a vault
    // -----------------------------------------------------------------------

    /// Why the entered password cannot be that of a new vault, if it cannot.
    pub open spec fn password_refusal(self) -> Option<Seq<char>> {
        if self.password@.len() < 8 {
            Some("Пароль должен содержать минимум 8 символов"@)
        } else if self.password@ != self.password_repeat@ {
            Some("Пароли не совпадают"@)
        } else {
            None
        }
    }

    /// Whether `after` is what becomes of the wish for a vault with that salt:
    /// the key of the entered password is taken, the password is wiped and the
    /// vault is open.
    pub open spec fn creates_vault(
        before: AppState,
        salt: Result<[u8; 16], String>,
        after: AppState,
        save: bool,
    ) -> bool {
        match salt {
            Err(message) => {
                &&& !save
                &&& only_notice_changes(before, after)
                &&& shows_notice(after, message@, true)
            },
            Ok(salt) => match vault_key(before.password@, salt@) {
                Err(message) => {
                    &&& !save
                    &&& only_notice_changes(before, after)
                    &&& shows_notice(after, message, true)
                },
                Ok(key) => {
                    &&& save
                    &&& after == AppState {
                        key: after.key,
                        salt: Some(salt),
                        password: after.password,
                        password_repeat: after.password_repeat,
                        screen: Screen::Ready,
                        ..before
                    }
                    &&& after.key is Some
                    &&& after.key->0@ == key
                    &&& after.password@.len() == 0
                    &&& after.password_repeat@.len() == 0
                },
            },
        }
    }

    /// Creates a vault with that salt, and tells whether it is to be stored.
    pub fn create_vault_with(&mut self, salt: Result<[u8; 16], String>) -> (save: bool)
        ensures
            Self::creates_vault(*old(self), salt, *final(self), save),
    {
        let salt: [u8; 16] = match salt {
            Ok(salt) => salt,
            Err(message) => {
                self.show_notice(message, true);
                return false;
            },
        };
        match derive_key(self.password.as_str(), &salt) {
            Ok(key) => {
                self.key = Some(key);
                self.salt = Some(salt);
                wipe_text(&mut self.password);
                wipe_text(&mut self.password_repeat);
                self.screen = Screen::Ready;
                true
            },
            Err(message) => {
                self.show_notice(message, true);
                false
            },
        }
    }

    /// Creates a vault with the entered password and a salt of random bytes,
    /// and tells whether it is to be stored. A password needs eight characters
    /// in any script. Whether the system has random bytes, and which, is up to
    /// it.
    pub fn create_vault(&mut self) -> (save: bool)
        ensures
            match old(self).password_refusal() {
                Some(message) => {
                    &&& !save
                    &&& only_notice_changes(*old(self), *final(self))
                    &&& shows_notice(*final(self), message, true)
                },
                None => exists|random: Result<[u8; 16], String>, salt: Result<[u8; 16], String>|
                    #[trigger] is_salt_from(random, salt) && #[trigger] Self::creates_vault(
                        *old(self),
                        salt,
                        *final(self),
                        save,
                    ),
            },
    {
        if chars_of(self.password.as_str()).len() < 8 {
            self.show_notice("Пароль должен содержать минимум 8 символов".to_owned(), true);
            return false;
        }
        if !same_text(self.password.as_str(), self.password_repeat.as_str()) {
            self.show_notice("Пароли не совпадают".to_owned(), true);
            return false;
        }
        let salt = new_salt();
        self.create_vault_with(salt)
    }

    // -----------------------------------------------------------------------
    // Unlocking and locking
    // -----------------------------------------------------------------------

    /// Opens the vault with what was read of it under the entered password, or
    /// tells why it does not open. The password is wiped either way.
    pub fn unlock(&mut self, result: Result<(Vec<Account>, [u8; 32], [u8; 16]), String>)
        ensures
            final(self).password@.len() == 0,
            match result {
                Ok((accounts, key, salt)) => {
                    &&& *final(self) == (AppState {
                        password: final(self).password,
                        accounts,
                        key: Some(key),
                        salt: Some(salt),
                        screen: Screen::Ready,
                        notice: final(self).notice,
                        ..*old(self)
                    })
                    &&& shows_notice(*final(self), "Хранилище разблокировано"@, false)
                },
                Err(message) => {
                    &&& *final(self) == (AppState {
                        password: final(self).password,
                        notice: final(self).notice,
                        ..*old(self)
                    })
                    &&& shows_notice(*final(self), message@, true)
                },
            },
    {
        wipe_text(&mut self.password);
        match result {
            Ok((accounts, key, salt)) => {
                self.accounts = accounts;
                self.key = Some(key);
                self.salt = Some(salt);
                self.screen = Screen::Ready;
                self.show_notice("Хранилище разблокировано".to_owned(), false);
            },
            Err(message) => {
                self.show_notice(message, true);
            },
        }
    }

    /// Wipes and forgets the accounts and the key.
    fn forget_secrets(&mut self)
        ensures
            final(self).accounts@.len() == 0,
            *final(self) == (AppState {
                accounts: final(self).accounts,
                key: None,
                salt: None,
                ..*old(self)
            }),
    {
        while self.accounts.len() > 0
            invariant
                *self == (AppState { accounts: self.accounts, ..*old(self) }),
            decreases self.accounts@.len(),
        {
            if let Some(mut account) = self.accounts.pop() {
                wipe_text(&mut account.shared_secret);
            }
        }
        if let Some(key) = &mut self.key {
            wipe_key(key);
        }
        self.key = None;
        self.salt = None;
    }

    /// Locks the vault: the accounts, the key and all that was loaded with them
    /// are forgotten.
    pub fn lock(&mut self)
        ensures
            *final(self) == (AppState {
                accounts: final(self).accounts,
                key: None,
                salt: None,
                search: final(self).search,
                confirmations: final(self).confirmations,
                confirmation_account_filter: None,
                login_requests: final(self).login_requests,
                add_dialog: None,
                screen: Screen::Locked,
                notice: final(self).notice,
                ..*old(self)
            }),
            final(self).accounts@.len() == 0,
            final(self).search@.len() == 0,
            final(self).confirmations@.len() == 0,
            final(self).login_requests@.len() == 0,
            !holds_secrets(*final(self)),
            shows_notice(*final(self), "Хранилище заблокировано"@, false),
    {
        self.forget_secrets();
        self.search = String::new();
        self.confirmations = Vec::new();
        self.confirmation_account_filter = None;
        self.login_requests = Vec::new();
        self.add_dialog = None;
        self.screen = Screen::Locked;
        self.show_notice("Хранилище заблокировано".to_owned(), false);
    }

    /// Wipes what is secret before the window closes.
    pub fn wipe(&mut self)
        ensures
            *final(self) == (AppState {
                password: final(self).password,
                password_repeat: final(self).password_repeat,
                accounts: final(self).accounts,
                key: None,
                salt: None,
                ..*old(self)
            }),
            final(self).password@.len() == 0,
            final(self).password_repeat@.len() == 0,
            final(self).accounts@.len() == 0,
    {
        wipe_text(&mut self.password);
        wipe_text(&mut self.password_repeat);
        self.forget_secrets();
    }

    /// What the vault is stored with, or why it cannot be stored.
    pub fn vault_keys(&self) -> (r: Result<([u8; 32], [u8; 16]), String>)
        ensures
            match (self.key, self.salt) {
                (None, _) => r is Err && r->Err_0@ == "Хранилище заблокировано"@,
                (Some(_), None) => r is Err && r->Err_0@ == "Нет соли хранилища"@,
                (Some(key), Some(salt)) => r == Ok::<([u8; 32], [u8; 16]), String>((key, salt)),
            },
    {
        let key: [u8; 32] = match self.key {
            Some(key) => key,
            None => return Err("Хранилище заблокировано".to_owned()),
        };
        match self.salt {
            Some(salt) => Ok((key, salt)),
            None => Err("Нет соли хранилища".to_owned()),
        }
    }
}

/// The nanoseconds for which a message is shown.
pub open spec fn notice_lifetime(error: bool) -> int {
    if error {
        12_000_000_000
    } else {
        4_000_000_000
    }
}

/// Whether a state gives away anything of a vault: an account, a key, a loaded
/// confirmation or sign-in, or a dialog.
pub open spec fn holds_secrets(state: AppState) -> bool {
    state.accounts@.len() > 0 || state.key is Some || state.salt is Some
        || state.confirmations@.len() > 0 || state.login_requests@.len() > 0 || state.add_dialog
        is Some || state.search@.len() > 0
}

/// An error stays for twelve seconds, any other message for four.
pub proof fn errors_stay_longer(error: bool)
    ensures
        error ==> notice_lifetime(error) == 12 * 1_000_000_000,
        !error ==> notice_lifetime(error) == 4 * 1_000_000_000,
{
}

/// A new vault takes a password exactly where it has eight characters or more,
/// of any script, and was entered twice alike. Of a short one that was also
/// repeated wrongly, the length is told.
pub proof fn new_passwords_are_long_and_repeated(state: AppState)
    ensures
        state.password_refusal() is None <==> state.password@.len() >= 8 && state.password@
            == state.password_repeat@,
        state.password@.len() < 8 ==> state.password_refusal() == Some(
            "Пароль должен содержать минимум 8 символов"@,
        ),
        state.password@.len() >= 8 && state.password@ != state.password_repeat@
            ==> state.password_refusal() == Some("Пароли не совпадают"@),
{
}

/// A new vault is open under the key that the entered password yields with its
/// salt; the password is gone from the window, and the vault is to be stored.
/// Where there is no salt, nothing is opened or stored.
pub proof fn new_vaults_open_under_their_password(
    before: AppState,
    salt: Result<[u8; 16], String>,
    after: AppState,
    save: bool,
)
    requires
        AppState::creates_vault(before, salt, after, save),
    ensures
        save ==> {
            &&& salt is Ok
            &&& after.salt == Some(salt->Ok_0)
            &&& after.key matches Some(key) && vault_key(before.password@, salt->Ok_0@) == Ok::<
                Seq<u8>,
                Seq<char>,
            >(key@)
            &&& after.password@.len() == 0
            &&& after.password_repeat@.len() == 0
            &&& after.screen == Screen::Ready
        },
        !save ==> {
            &&& after.screen == before.screen
            &&& after.key == before.key
            &&& after.salt == before.salt
            &&& after.password == before.password
            &&& after.notice matches Some(notice) && notice.error
        },
        save <==> (salt matches Ok(bytes) && vault_key(before.password@, bytes@) is Ok),
        after.accounts == before.accounts,
{
}

} // verus!
