//! The dialog that signs an account in to Steam.
use vstd::prelude::*;

use crate::account::{Account, MobileAccount};
use crate::confirmation::mobile_at;
use crate::crypto::wipe_text;
use crate::state::{only_notice_changes, shows_notice, AppState};
use crate::steam::SteamRequest;
use crate::text::{lowercased, trim, trimmed};

verus! {

/// What the dialog shows and waits for.
#[derive(Clone, Debug, PartialEq, Eq)]
pub enum AddStage {
    Credentials,
    Working(String),
    GuardCode { message: String },
    ExternalApproval(String),
    EnrollmentCode { destination: String, recovery_code: String },
    ExistingAuthenticator,
    TransferCode,
    Complete { recovery_code: String },
}

/// The dialog's fields. `existing_index` is the account that is signed in
/// again, `result_index` the one that the dialog has saved.
#[derive(Clone, Debug, PartialEq, Eq)]
pub struct AddDialog {
    pub username: String,
    pub password: String,
    pub code: String,
    pub existing_index: Option<usize>,
    pub result_index: Option<usize>,
    pub stage: AddStage,
}

impl AddDialog {
    /// A dialog that asks for the password of `username`.
    pub fn new(existing_index: Option<usize>, username: String) -> (r: Self)
        ensures
            r.username == username,
            r.password@ == Seq::<char>::empty(),
            r.code@ == Seq::<char>::empty(),
            r.existing_index == existing_index,
            r.result_index is None,
            r.stage is Credentials,
    {
        AddDialog {
            username,
            password: String::new(),
            code: String::new(),
            existing_index,
            result_index: None,
            stage: AddStage::Credentials,
        }
    }
}

// ---------------------------------------------------------------------------
// What the dialog says
// ---------------------------------------------------------------------------

/// The heading of the dialog and the line below it.
pub open spec fn dialog_heading(dialog: AddDialog) -> (Seq<char>, Seq<char>) {
    match dialog.stage {
        AddStage::Credentials => if dialog.existing_index is Some {
            ("Авторизация Steam"@, "Подключение сессии для подтверждений"@)
        } else {
            ("Добавить аккаунт"@, "Безопасное подключение к Steam"@)
        },
        AddStage::Working(_) | AddStage::ExternalApproval(_) => (
            "Подключение к Steam"@,
            "Защищённый обмен данными"@,
        ),
        AddStage::GuardCode { .. } => ("Проверка входа"@, "Подтвердите владение аккаунтом"@),
        AddStage::EnrollmentCode { .. } => ("Активация Steam Guard"@, "Последний шаг настройки"@),
        AddStage::ExistingAuthenticator => (
            "Steam Guard уже активен"@,
            "Выберите способ продолжения"@,
        ),
        AddStage::TransferCode => ("Перенос аутентификатора"@, "Подтверждение по SMS"@),
        AddStage::Complete { .. } => ("Готово"@, "Аккаунт защищён и добавлен"@),
    }
}

impl AddDialog {
    /// The heading of the dialog and the line below it.
    pub fn heading(&self) -> (r: (&'static str, &'static str))
        ensures
            (r.0@, r.1@) == dialog_heading(*self),
    {
        match &self.stage {
            AddStage::Credentials => if self.existing_index.is_some() {
                ("Авторизация Steam", "Подключение сессии для подтверждений")
            } else {
                ("Добавить аккаунт", "Безопасное подключение к Steam")
            },
            AddStage::Working(_) => ("Подключение к Steam", "Защищённый обмен данными"),
            AddStage::ExternalApproval(_) => ("Подключение к Steam", "Защищённый обмен данными"),
            AddStage::GuardCode { .. } => ("Проверка входа", "Подтвердите владение аккаунтом"),
            AddStage::EnrollmentCode { .. } => ("Активация Steam Guard", "Последний шаг настройки"),
            AddStage::ExistingAuthenticator => (
                "Steam Guard уже активен",
                "Выберите способ продолжения",
            ),
            AddStage::TransferCode => ("Перенос аутентификатора", "Подтверждение по SMS"),
            AddStage::Complete { .. } => ("Готово", "Аккаунт защищён и добавлен"),
        }
    }
}

// ---------------------------------------------------------------------------
// What the dialog does
// ---------------------------------------------------------------------------

/// The account of the vault that a dialog signs in again, if it can.
pub open spec fn existing_account(accounts: Seq<Account>, index: Option<usize>) -> Option<
    (usize, MobileAccount),
> {
    match index {
        Some(index) => match mobile_at(accounts, index as nat) {
            Some(mobile) => Some((index, mobile)),
            None => None,
        },
        None => None,
    }
}

/// Whether a dialog is `before` with its code handed out.
pub open spec fn code_taken(before: AddDialog, after: Option<AddDialog>) -> bool {
    &&& after is Some
    &&& after->0 == AddDialog { code: after->0.code, ..before }
    &&& after->0.code@.len() == 0
}

/// Whether `after` and the request are what becomes of the dialog's button. The
/// name is trimmed and in lower case, as Steam keeps it, and the password
/// leaves the dialog with the request.
pub open spec fn submits(before: AppState, after: AppState, request: Option<SteamRequest>) -> bool {
    match before.add_dialog {
        None => after == before && request is None,
        Some(dialog) => {
            let blank = trimmed(dialog.code@).len() == 0;
            match dialog.stage {
                AddStage::Credentials => if trimmed(dialog.username@).len() == 0
                    || dialog.password@.len() == 0 {
                    &&& only_notice_changes(before, after)
                    &&& shows_notice(after, "Введите логин и пароль Steam"@, true)
                    &&& request is None
                } else {
                    &&& after == AppState { add_dialog: after.add_dialog, ..before }
                    &&& after.add_dialog matches Some(next) && next == (AddDialog {
                        password: next.password,
                        stage: next.stage,
                        ..dialog
                    }) && next.password@.len() == 0 && (next.stage matches AddStage::Working(text)
                        && text@ == "Подключаемся к Steam…"@)
                    &&& request matches Some(
                        SteamRequest::BeginEnrollment { username, password, existing },
                    ) && username@ == lowercased(trimmed(dialog.username@)) && password
                        == dialog.password && existing == existing_account(
                        before.accounts@,
                        dialog.existing_index,
                    )
                },
                AddStage::GuardCode { .. } => if blank {
                    after == before && request is None
                } else {
                    &&& after == AppState { add_dialog: after.add_dialog, ..before }
                    &&& code_taken(dialog, after.add_dialog)
                    &&& request == Some(SteamRequest::SubmitGuardCode(dialog.code))
                },
                AddStage::EnrollmentCode { .. } => if blank {
                    after == before && request is None
                } else {
                    &&& after == AppState { add_dialog: after.add_dialog, ..before }
                    &&& code_taken(dialog, after.add_dialog)
                    &&& request == Some(SteamRequest::FinalizeEnrollment(dialog.code))
                },
                AddStage::TransferCode => if blank {
                    after == before && request is None
                } else {
                    &&& after == AppState { add_dialog: after.add_dialog, ..before }
                    &&& code_taken(dialog, after.add_dialog)
                    &&& request == Some(SteamRequest::SubmitTransferCode(dialog.code))
                },
                AddStage::ExistingAuthenticator => {
                    &&& after == before
                    &&& request == Some(SteamRequest::BeginTransfer)
                },
                AddStage::Complete { .. } => {
                    &&& after == AppState { add_dialog: None, ..before }
                    &&& request is None
                },
                AddStage::Working(_) | AddStage::ExternalApproval(_) => after == before
                    && request is None,
            }
        },
    }
}

impl AppState {
    fn take_code(&mut self) -> (r: Option<String>)
        requires
            old(self).add_dialog is Some,
        ensures
            ({
                let dialog = old(self).add_dialog->0;
                if trimmed(dialog.code@).len() == 0 {
                    *final(self) == *old(self) && r is None
                } else {
                    &&& *final(self) == (AppState {
                        add_dialog: final(self).add_dialog,
                        ..*old(self)
                    })
                    &&& code_taken(dialog, final(self).add_dialog)
                    &&& r == Some(dialog.code)
                }
            }),
    {
        let mut code = String::new();
        if let Some(dialog) = &mut self.add_dialog {
            if trim(dialog.code.as_str()).as_str().is_empty() {
                return None;
            }
            std::mem::swap(&mut code, &mut dialog.code);
        }
        Some(code)
    }

    fn submit_credentials(&mut self) -> (r: Option<SteamRequest>)
        requires
            old(self).add_dialog matches Some(dialog) && dialog.stage is Credentials,
        ensures
            submits(*old(self), *final(self), r),
    {
        let mut dialog = match self.add_dialog.take() {
            Some(dialog) => dialog,
            None => return None,
        };
        let username = trim(dialog.username.as_str());
        if username.as_str().is_empty() || dialog.password.as_str().is_empty() {
            self.add_dialog = Some(dialog);
            self.show_notice("Введите логин и пароль Steam".to_owned(), true);
            return None;
        }
        let existing = match dialog.existing_index {
            Some(index) => match self.mobile_of(index) {
                Some(mobile) => Some((index, mobile)),
                None => None,
            },
            None => None,
        };
        let mut password = String::new();
        std::mem::swap(&mut password, &mut dialog.password);
        dialog.stage = AddStage::Working("Подключаемся к Steam…".to_owned());
        self.add_dialog = Some(dialog);
        Some(
            SteamRequest::BeginEnrollment {
                username: username.as_str().to_lowercase(),
                password,
                existing,
            },
        )
    }

    /// Does what the dialog's button is for.
    pub fn submit_dialog(&mut self) -> (r: Option<SteamRequest>)
        ensures
            submits(*old(self), *final(self), r),
    {
        let stage = match &self.add_dialog {
            Some(dialog) => &dialog.stage,
            None => return None,
        };
        match stage {
            AddStage::Credentials => self.submit_credentials(),
            AddStage::GuardCode { .. } => match self.take_code() {
                Some(code) => Some(SteamRequest::SubmitGuardCode(code)),
                None => None,
            },
            AddStage::EnrollmentCode { .. } => match self.take_code() {
                Some(code) => Some(SteamRequest::FinalizeEnrollment(code)),
                None => None,
            },
            AddStage::TransferCode => match self.take_code() {
                Some(code) => Some(SteamRequest::SubmitTransferCode(code)),
                None => None,
            },
            AddStage::ExistingAuthenticator => Some(SteamRequest::BeginTransfer),
            AddStage::Complete { .. } => {
                self.close_dialog();
                None
            },
            AddStage::Working(_) => None,
            AddStage::ExternalApproval(_) => None,
        }
    }

    /// Closes the dialog and wipes what was entered in it.
    pub fn close_dialog(&mut self)
        ensures
            *final(self) == (AppState { add_dialog: None, ..*old(self) }),
    {
        if let Some(dialog) = &mut self.add_dialog {
            wipe_text(&mut dialog.password);
            wipe_text(&mut dialog.code);
        }
        self.add_dialog = None;
    }
}

/// Whatever is submitted, no password is left in the dialog once it has been
/// handed out.
pub proof fn submitted_password_leaves_dialog(
    before: AppState,
    after: AppState,
    request: Option<SteamRequest>,
)
    requires
        submits(before, after, request),
        request matches Some(SteamRequest::BeginEnrollment { .. }),
    ensures
        after.add_dialog matches Some(dialog) && dialog.password@.len() == 0,
{
}

/// Credentials go to the worker exactly where a name and a password were
/// entered: the name without the blanks around it and in lower case, the
/// password as it is, and the account at the dialog's place, if the vault has
/// an authenticator there.
pub proof fn credentials_go_out_as_entered(
    before: AppState,
    after: AppState,
    request: Option<SteamRequest>,
    dialog: AddDialog,
)
    requires
        submits(before, after, request),
        before.add_dialog == Some(dialog),
        dialog.stage is Credentials,
    ensures
        request is Some <==> trimmed(dialog.username@).len() > 0 && dialog.password@.len() > 0,
        request matches Some(sent) ==> (sent matches SteamRequest::BeginEnrollment {
            username,
            password,
            existing,
        } && username@ == lowercased(trimmed(dialog.username@)) && password@ == dialog.password@ && (
        dialog.existing_index is None ==> existing is None) && (dialog.existing_index matches Some(
            index,
        ) ==> {
            &&& existing is Some <==> index < before.accounts@.len()
                && before.accounts@[index as int].mobile is Some
            &&& existing matches Some(known) ==> known.0 == index
                && before.accounts@[index as int].mobile == Some(known.1)
        })),
        request is None ==> (after.notice matches Some(notice) && notice.error && notice.text@
            == "Введите логин и пароль Steam"@) && after.add_dialog == before.add_dialog,
{
}

/// A code goes to the worker under the stage that asked for it, as it was
/// entered, and leaves the dialog; blanks alone go nowhere.
pub proof fn codes_go_out_under_their_stage(
    before: AppState,
    after: AppState,
    request: Option<SteamRequest>,
    dialog: AddDialog,
)
    requires
        submits(before, after, request),
        before.add_dialog == Some(dialog),
    ensures
        dialog.stage is GuardCode && trimmed(dialog.code@).len() > 0 ==> request == Some(
            SteamRequest::SubmitGuardCode(dialog.code),
        ),
        dialog.stage is EnrollmentCode && trimmed(dialog.code@).len() > 0 ==> request == Some(
            SteamRequest::FinalizeEnrollment(dialog.code),
        ),
        dialog.stage is TransferCode && trimmed(dialog.code@).len() > 0 ==> request == Some(
            SteamRequest::SubmitTransferCode(dialog.code),
        ),
        (dialog.stage is GuardCode || dialog.stage is EnrollmentCode || dialog.stage
            is TransferCode) ==> {
            &&& request is Some <==> trimmed(dialog.code@).len() > 0
            &&& request is Some ==> (after.add_dialog matches Some(next) && next.code@.len() == 0
                && next.stage == dialog.stage && next.username == dialog.username)
            &&& request is None ==> after == before
        },
        dialog.stage is ExistingAuthenticator ==> request == Some(SteamRequest::BeginTransfer)
            && after == before,
        dialog.stage is Complete ==> request is None && after.add_dialog is None,
        (dialog.stage is Working || dialog.stage is ExternalApproval) ==> request is None && after
            == before,
{
}

/// The dialog says at every stage what it is at: whether an account is signed in
/// again or added, that Steam is being asked, which code it wants, that there is
/// an authenticator already, or that all is done.
pub proof fn headings_tell_the_stage(dialog: AddDialog)
    ensures
        dialog.stage is Credentials && dialog.existing_index is Some ==> dialog_heading(dialog)
            == ("Авторизация Steam"@, "Подключение сессии для подтверждений"@),
        dialog.stage is Credentials && dialog.existing_index is None ==> dialog_heading(dialog) == (
            "Добавить аккаунт"@,
            "Безопасное подключение к Steam"@,
        ),
        dialog.stage is Working || dialog.stage is ExternalApproval ==> dialog_heading(dialog) == (
            "Подключение к Steam"@,
            "Защищённый обмен данными"@,
        ),
        dialog.stage is GuardCode ==> dialog_heading(dialog) == (
            "Проверка входа"@,
            "Подтвердите владение аккаунтом"@,
        ),
        dialog.stage is EnrollmentCode ==> dialog_heading(dialog) == (
            "Активация Steam Guard"@,
            "Последний шаг настройки"@,
        ),
        dialog.stage is ExistingAuthenticator ==> dialog_heading(dialog) == (
            "Steam Guard уже активен"@,
            "Выберите способ продолжения"@,
        ),
        dialog.stage is TransferCode ==> dialog_heading(dialog) == (
            "Перенос аутентификатора"@,
            "Подтверждение по SMS"@,
        ),
        dialog.stage is Complete ==> dialog_heading(dialog) == (
            "Готово"@,
            "Аккаунт защищён и добавлен"@,
        ),
{
}

} // verus!
