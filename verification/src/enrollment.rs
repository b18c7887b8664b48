//! How an account is signed in and its authenticator connected.
//!
//! The worker carries the actions out and tells how they went; every decision
//! between two actions is made here.
use vstd::prelude::*;

use crate::account::{account_from_steam, is_entry_of, MobileAccount, Tokens};
use crate::guard::{authenticator_code, guard_code};
use crate::steam::SteamEvent;
use crate::text::{concat2, concat3, decimal, decimal_text, trim, trimmed};

verus! {

// ---------------------------------------------------------------------------
// The states
// ---------------------------------------------------------------------------

/// Where a code comes from.
#[derive(Clone, Copy, Debug, PartialEq, Eq, Structural)]
pub enum CodeSource {
    Device,
    Email,
}

/// The ways in which Steam lets a sign-in be proved.
#[derive(Clone, Copy, Debug, PartialEq, Eq, Structural)]
pub enum GuardKind {
    DeviceCode,
    EmailCode,
    DeviceConfirmation,
    EmailConfirmation,
    Other,
}

/// One way in which Steam lets a sign-in be proved, and what it says of it.
#[derive(Debug, PartialEq, Eq)]
pub struct GuardMethod {
    pub kind: GuardKind,
    pub message: String,
}

/// What waits for the user.
#[derive(Debug, PartialEq, Eq)]
pub enum Pending {
    /// Nothing.
    Nothing,
    /// A sign-in that needs a code.
    Login { source: CodeSource, existing: Option<(usize, MobileAccount)> },
    /// A new authenticator that needs a code.
    Link { account: MobileAccount, server_time: u64 },
    /// An account that has an authenticator already.
    ExistingAuthenticator,
    /// A transfer that needs a code.
    Transfer,
}

/// What the worker is doing.
#[derive(Debug, PartialEq, Eq)]
pub enum Task {
    Idle,
    SigningIn { existing: Option<(usize, MobileAccount)> },
    AskingTime { index: usize, account: MobileAccount },
    SendingOwnCode { index: usize, account: MobileAccount },
    SendingCode { source: CodeSource, existing: Option<(usize, MobileAccount)> },
    WaitingForTokens { existing: Option<(usize, MobileAccount)> },
    Linking,
    StartingTransfer,
    FinishingTransfer,
    Finalizing { code: String, tries: u32 },
    CheckingStatus,
}

/// Where the enrollment of an account stands.
#[derive(Debug, PartialEq, Eq)]
pub struct Enrollment {
    pub pending: Pending,
    pub task: Task,
}

/// What the worker is to do next.
#[derive(Debug, PartialEq, Eq)]
pub enum Action {
    Rest,
    SignIn { username: String, password: String },
    AskTime,
    SendCode { source: CodeSource, code: String },
    WaitForTokens,
    Link { tokens: Tokens },
    StartTransfer,
    FinishTransfer { code: String },
    Finalize { server_time: u64, account: MobileAccount, code: String },
    CheckStatus { account: MobileAccount },
}

/// Why Steam refused a sign-in.
#[derive(Debug, PartialEq, Eq)]
pub enum LoginFailure {
    BadCredentials,
    TooManyAttempts,
    SessionExpired,
    Unknown(String),
}

/// How Steam wants a new authenticator to be confirmed.
#[derive(Debug, PartialEq, Eq)]
pub enum ConfirmBy {
    Sms { hint: String },
    Email,
    Unknown(i32),
}

/// How connecting an authenticator went.
#[derive(Debug, PartialEq, Eq)]
pub enum LinkOutcome {
    Linked { confirm_by: ConfirmBy, server_time: u64, account: MobileAccount },
    AuthenticatorPresent,
    Failed(String),
}

/// How finishing an authenticator went. Steam may want another code, of the
/// time that it then tells.
#[derive(Debug, PartialEq, Eq)]
pub enum FinalizeOutcome {
    Done,
    WantMore { server_time: u64, error: String },
    Failed(String),
}

/// How an action went.
#[derive(Debug, PartialEq, Eq)]
pub enum Reply {
    SignedIn(Result<Vec<GuardMethod>, LoginFailure>),
    Time(u64),
    CodeSent(Result<(), String>),
    TokensCame(Result<Tokens, String>),
    LinkTried(LinkOutcome),
    TransferStarted(Result<(), String>),
    TransferFinished(Result<MobileAccount, String>),
    FinalizeTried(FinalizeOutcome),
    StatusCame(Result<u32, String>),
    /// The worker could not even try: it has no connection to Steam.
    Unreachable(String),
}

/// Where the enrollment stands now, what the window is told, and what the
/// worker is to do next.
#[derive(Debug, PartialEq, Eq)]
pub struct Step {
    pub enrollment: Enrollment,
    pub events: Vec<SteamEvent>,
    pub action: Action,
}

/// The most times that finishing an authenticator is repeated.
pub const MAX_REPEATS: u32 = 30;

// ---------------------------------------------------------------------------
// What a step says
// ---------------------------------------------------------------------------

/// Whether a step leaves `pending` waiting and the worker busy with `task`.
pub open spec fn leaves(step: Step, pending: Pending, task: Task) -> bool {
    step.enrollment == Enrollment { pending, task }
}

/// Whether a step tells the window exactly that work is going on.
pub open spec fn tells_work(step: Step, text: Seq<char>) -> bool {
    step.events@.len() == 1 && (step.events@[0] matches SteamEvent::Working(told) && told@ == text)
}

/// Whether a step tells the window exactly that something failed.
pub open spec fn tells_error(step: Step, text: Seq<char>) -> bool {
    step.events@.len() == 1 && (step.events@[0] matches SteamEvent::Error(told) && told@ == text)
}

/// Whether a step ends the task with an error.
pub open spec fn fails(step: Step, pending: Pending, text: Seq<char>) -> bool {
    leaves(step, pending, Task::Idle) && tells_error(step, text) && step.action is Rest
}

/// Whether a step asks the user for a code and waits for it.
pub open spec fn asks_code(
    step: Step,
    source: CodeSource,
    existing: Option<(usize, MobileAccount)>,
    text: Seq<char>,
) -> bool {
    &&& leaves(step, Pending::Login { source, existing }, Task::Idle)
    &&& step.events@.len() == 1
    &&& step.events@[0] matches SteamEvent::NeedGuardCode { device_code, message } && device_code
        == (source == CodeSource::Device) && message@ == text
    &&& step.action is Rest
}

/// Whether a step tells the window that an account is complete.
pub open spec fn tells_complete(
    step: Step,
    index: Option<usize>,
    account: MobileAccount,
    code: Seq<char>,
) -> bool {
    &&& step.events@.len() == 1
    &&& step.events@[0] matches SteamEvent::EnrollmentComplete {
        replace_index,
        account: entry,
        recovery_code,
    } && replace_index == index && is_entry_of(entry, account) && recovery_code@ == code
}

fn resting(pending: Pending) -> (r: Enrollment)
    ensures
        r == (Enrollment { pending, task: Task::Idle }),
{
    Enrollment { pending, task: Task::Idle }
}

fn no_events() -> (r: Vec<SteamEvent>)
    ensures
        r@.len() == 0,
{
    Vec::new()
}

fn told(event: SteamEvent) -> (r: Vec<SteamEvent>)
    ensures
        r@ == seq![event],
{
    let mut events: Vec<SteamEvent> = Vec::new();
    events.push(event);
    assert(events@ =~= seq![event]);
    events
}

fn failure(pending: Pending, message: String) -> (r: Step)
    ensures
        fails(r, pending, message@),
{
    Step {
        enrollment: resting(pending),
        events: told(SteamEvent::Error(message)),
        action: Action::Rest,
    }
}

// ---------------------------------------------------------------------------
// What the user asks for
// ---------------------------------------------------------------------------

/// An enrollment that has not begun.
pub fn new_enrollment() -> (r: Enrollment)
    ensures
        r == (Enrollment { pending: Pending::Nothing, task: Task::Idle }),
{
    resting(Pending::Nothing)
}

/// Whether `step` begins to sign an account in.
pub open spec fn begins(
    pending: Pending,
    username: String,
    password: String,
    existing: Option<(usize, MobileAccount)>,
    step: Step,
) -> bool {
    &&& leaves(step, pending, Task::SigningIn { existing })
    &&& tells_work(step, "Входим в Steam…"@)
    &&& step.action == (Action::SignIn { username, password })
}

/// Begins to sign an account in.
pub fn begin_enrollment(
    pending: Pending,
    username: String,
    password: String,
    existing: Option<(usize, MobileAccount)>,
) -> (r: Step)
    ensures
        begins(pending, username, password, existing, r),
{
    Step {
        enrollment: Enrollment { pending, task: Task::SigningIn { existing } },
        events: told(SteamEvent::Working("Входим в Steam…".to_owned())),
        action: Action::SignIn { username, password },
    }
}

/// Whether `step` is what becomes of a code for the sign-in that waits.
pub open spec fn submits_guard(pending: Pending, code: Seq<char>, step: Step) -> bool {
    match pending {
        Pending::Login { source, existing } => {
            &&& leaves(step, Pending::Nothing, Task::SendingCode { source, existing })
            &&& tells_work(step, "Проверяем код и получаем сессию…"@)
            &&& step.action matches Action::SendCode { source: sent, code: text } && sent == source
                && text@ == trimmed(code)
        },
        _ => fails(step, pending, "Нет активной авторизации Steam"@),
    }
}

/// Sends a code for the sign-in that waits.
pub fn submit_guard(pending: Pending, code: &str) -> (r: Step)
    ensures
        submits_guard(pending, code@, r),
{
    match pending {
        Pending::Login { source, existing } => Step {
            enrollment: Enrollment {
                pending: Pending::Nothing,
                task: Task::SendingCode { source, existing },
            },
            events: told(SteamEvent::Working("Проверяем код и получаем сессию…".to_owned())),
            action: Action::SendCode { source, code: trim(code) },
        },
        other => failure(other, "Нет активной авторизации Steam".to_owned()),
    }
}

/// Whether `step` is what becomes of the wish to transfer an authenticator.
pub open spec fn begins_transfer(pending: Pending, step: Step) -> bool {
    match pending {
        Pending::ExistingAuthenticator => {
            &&& leaves(step, Pending::Nothing, Task::StartingTransfer)
            &&& tells_work(step, "Запрашиваем SMS для переноса аутентификатора…"@)
            &&& step.action is StartTransfer
        },
        _ => fails(step, pending, "Нет активного переноса аутентификатора"@),
    }
}

/// Begins to transfer the authenticator that the account has already.
pub fn begin_transfer(pending: Pending) -> (r: Step)
    ensures
        begins_transfer(pending, r),
{
    match pending {
        Pending::ExistingAuthenticator => Step {
            enrollment: Enrollment { pending: Pending::Nothing, task: Task::StartingTransfer },
            events: told(
                SteamEvent::Working("Запрашиваем SMS для переноса аутентификатора…".to_owned()),
            ),
            action: Action::StartTransfer,
        },
        other => failure(other, "Нет активного переноса аутентификатора".to_owned()),
    }
}

/// Whether `step` is what becomes of a code for the transfer that waits.
pub open spec fn submits_transfer(pending: Pending, code: Seq<char>, step: Step) -> bool {
    match pending {
        Pending::Transfer => {
            &&& leaves(step, Pending::Nothing, Task::FinishingTransfer)
            &&& tells_work(step, "Завершаем перенос аутентификатора…"@)
            &&& step.action matches Action::FinishTransfer { code: text } && text@ == trimmed(code)
        },
        _ => fails(step, pending, "Сначала начните перенос аутентификатора"@),
    }
}

/// Sends a code for the transfer that waits.
pub fn submit_transfer(pending: Pending, code: &str) -> (r: Step)
    ensures
        submits_transfer(pending, code@, r),
{
    match pending {
        Pending::Transfer => Step {
            enrollment: Enrollment { pending: Pending::Nothing, task: Task::FinishingTransfer },
            events: told(SteamEvent::Working("Завершаем перенос аутентификатора…".to_owned())),
            action: Action::FinishTransfer { code: trim(code) },
        },
        other => failure(other, "Сначала начните перенос аутентификатора".to_owned()),
    }
}

/// Whether `step` is what becomes of a code for the authenticator that waits.
pub open spec fn finalizes(pending: Pending, code: Seq<char>, step: Step) -> bool {
    match pending {
        Pending::Link { account, server_time } => {
            &&& step.enrollment.pending == pending
            &&& step.enrollment.task matches Task::Finalizing { code: text, tries } && text@
                == trimmed(code) && tries == 0
            &&& tells_work(step, "Завершаем подключение аутентификатора…"@)
            &&& step.action matches Action::Finalize {
                server_time: time,
                account: linked,
                code: text,
            } && time == server_time && linked == account && text@ == trimmed(code)
        },
        _ => fails(step, pending, "Нет незавершённого подключения аутентификатора"@),
    }
}

/// Sends a code for the authenticator that waits.
pub fn finalize_enrollment(pending: Pending, code: &str) -> (r: Step)
    ensures
        finalizes(pending, code@, r),
{
    match pending {
        Pending::Link { account, server_time } => {
            let text = trim(code);
            Step {
                action: Action::Finalize {
                    server_time,
                    account: account.clone(),
                    code: text.clone(),
                },
                enrollment: Enrollment {
                    pending: Pending::Link { account, server_time },
                    task: Task::Finalizing { code: text, tries: 0 },
                },
                events: told(
                    SteamEvent::Working("Завершаем подключение аутентификатора…".to_owned()),
                ),
            }
        },
        other => failure(other, "Нет незавершённого подключения аутентификатора".to_owned()),
    }
}

// ---------------------------------------------------------------------------
// After the sign-in
// ---------------------------------------------------------------------------

/// What the user is told of a refused sign-in.
pub open spec fn failure_text(failure: LoginFailure) -> Seq<char> {
    match failure {
        LoginFailure::BadCredentials => "Неверный логин или пароль Steam"@,
        LoginFailure::TooManyAttempts => "Steam временно ограничил попытки входа. Попробуйте позже"@,
        LoginFailure::SessionExpired => "Сессия входа Steam истекла"@,
        LoginFailure::Unknown(error) => "Не удалось войти в Steam: "@ + error@,
    }
}

/// What the user is told of a refused sign-in.
pub fn login_error(failure: &LoginFailure) -> (r: String)
    ensures
        r@ == failure_text(*failure),
{
    match failure {
        LoginFailure::BadCredentials => "Неверный логин или пароль Steam".to_owned(),
        LoginFailure::TooManyAttempts => "Steam временно ограничил попытки входа. Попробуйте позже".to_owned(),
        LoginFailure::SessionExpired => "Сессия входа Steam истекла".to_owned(),
        LoginFailure::Unknown(error) => concat2("Не удалось войти в Steam: ", error.as_str()),
    }
}

/// The first of the ways that is of that kind.
pub open spec fn first_method(methods: Seq<GuardMethod>, kind: GuardKind) -> Option<GuardMethod>
    decreases methods.len(),
{
    if methods.len() == 0 {
        None
    } else if methods[0].kind == kind {
        Some(methods[0])
    } else {
        first_method(methods.skip(1), kind)
    }
}

/// What Steam says of a way, or the library's own words where it says nothing.
pub open spec fn prompt(method: GuardMethod, own: Seq<char>) -> Seq<char> {
    if method.message@.len() == 0 {
        own
    } else {
        method.message@
    }
}

/// Whether `step` is what becomes of a sign-in that Steam wants proved. A code
/// of the device comes first: an account of the vault makes it itself, and
/// another one is asked for. Then comes a code of the e-mail. What is left is
/// to wait until the sign-in is approved elsewhere.
pub open spec fn after_sign_in(
    pending: Pending,
    existing: Option<(usize, MobileAccount)>,
    methods: Seq<GuardMethod>,
    step: Step,
) -> bool {
    match first_method(methods, GuardKind::DeviceCode) {
        Some(method) => match existing {
            Some((index, account)) => {
                &&& leaves(step, pending, Task::AskingTime { index, account })
                &&& tells_work(step, "Автоматически подставляем текущий Steam Guard-код…"@)
                &&& step.action is AskTime
            },
            None => asks_code(
                step,
                CodeSource::Device,
                existing,
                prompt(method, "Введите код из текущего Steam Guard"@),
            ),
        },
        None => match first_method(methods, GuardKind::EmailCode) {
            Some(method) => asks_code(
                step,
                CodeSource::Email,
                existing,
                prompt(method, "Введите код из письма Steam"@),
            ),
            None => {
                &&& leaves(step, pending, Task::WaitingForTokens { existing })
                &&& if first_method(methods, GuardKind::DeviceConfirmation) is Some || first_method(
                    methods,
                    GuardKind::EmailConfirmation,
                ) is Some {
                    step.events@.len() == 1 && (step.events@[0] matches SteamEvent::NeedExternalApproval(
                        text,
                    ) && text@
                        == "Подтвердите вход в текущем приложении Steam или по ссылке в письме"@)
                } else {
                    step.events@.len() == 0
                }
                &&& step.action is WaitForTokens
            },
        },
    }
}

fn find_method(methods: &Vec<GuardMethod>, kind: GuardKind) -> (r: Option<&GuardMethod>)
    ensures
        match r {
            Some(method) => first_method(methods@, kind) == Some(*method),
            None => first_method(methods@, kind) is None,
        },
{
    let mut i: usize = 0;
    assert(methods@.skip(0) =~= methods@);
    while i < methods.len()
        invariant
            i <= methods@.len(),
            first_method(methods@, kind) == first_method(methods@.skip(i as int), kind),
        decreases methods@.len() - i,
    {
        assert(methods@.skip(i as int)[0] == methods@[i as int]);
        if methods[i].kind == kind {
            return Some(&methods[i]);
        }
        assert(methods@.skip(i as int).skip(1) =~= methods@.skip(i + 1));
        i = i + 1;
    }
    None
}

fn ask_code(
    source: CodeSource,
    existing: Option<(usize, MobileAccount)>,
    message: String,
) -> (r: Step)
    ensures
        asks_code(r, source, existing, message@),
{
    let device_code = match source {
        CodeSource::Device => true,
        CodeSource::Email => false,
    };
    Step {
        enrollment: resting(Pending::Login { source, existing }),
        events: told(SteamEvent::NeedGuardCode { device_code, message }),
        action: Action::Rest,
    }
}

fn prompt_text(method: &GuardMethod, own: &str) -> (r: String)
    ensures
        r@ == prompt(*method, own@),
{
    if method.message.as_str().is_empty() {
        own.to_owned()
    } else {
        method.message.clone()
    }
}

/// What becomes of a sign-in that Steam wants proved.
pub fn choose_method(
    pending: Pending,
    existing: Option<(usize, MobileAccount)>,
    methods: &Vec<GuardMethod>,
) -> (r: Step)
    ensures
        after_sign_in(pending, existing, methods@, r),
{
    if let Some(method) = find_method(methods, GuardKind::DeviceCode) {
        return match existing {
            Some((index, account)) => Step {
                enrollment: Enrollment { pending, task: Task::AskingTime { index, account } },
                events: told(
                    SteamEvent::Working(
                        "Автоматически подставляем текущий Steam Guard-код…".to_owned(),
                    ),
                ),
                action: Action::AskTime,
            },
            None => ask_code(
                CodeSource::Device,
                None,
                prompt_text(method, "Введите код из текущего Steam Guard"),
            ),
        };
    }
    if let Some(method) = find_method(methods, GuardKind::EmailCode) {
        return ask_code(
            CodeSource::Email,
            existing,
            prompt_text(method, "Введите код из письма Steam"),
        );
    }
    let elsewhere = find_method(methods, GuardKind::DeviceConfirmation).is_some() || find_method(
        methods,
        GuardKind::EmailConfirmation,
    ).is_some();
    let events = if elsewhere {
        told(
            SteamEvent::NeedExternalApproval(
                "Подтвердите вход в текущем приложении Steam или по ссылке в письме".to_owned(),
            ),
        )
    } else {
        no_events()
    };
    Step {
        enrollment: Enrollment { pending, task: Task::WaitingForTokens { existing } },
        events,
        action: Action::WaitForTokens,
    }
}

// ---------------------------------------------------------------------------
// After a code
// ---------------------------------------------------------------------------

/// Whether `step` waits for the session that follows a good code.
pub open spec fn waits_for_tokens(
    pending: Pending,
    existing: Option<(usize, MobileAccount)>,
    step: Step,
) -> bool {
    &&& leaves(step, pending, Task::WaitingForTokens { existing })
    &&& step.events@.len() == 0
    &&& step.action is WaitForTokens
}

fn wait_for_tokens(pending: Pending, existing: Option<(usize, MobileAccount)>) -> (r: Step)
    ensures
        waits_for_tokens(pending, existing, r),
{
    Step {
        enrollment: Enrollment { pending, task: Task::WaitingForTokens { existing } },
        events: no_events(),
        action: Action::WaitForTokens,
    }
}

/// Whether `step` sends the code that the account makes itself at that time.
pub open spec fn after_time(
    pending: Pending,
    index: usize,
    account: MobileAccount,
    time: u64,
    step: Step,
) -> bool {
    &&& leaves(step, pending, Task::SendingOwnCode { index, account })
    &&& step.events@.len() == 0
    &&& step.action matches Action::SendCode { source, code } && source == CodeSource::Device
        && code@ == guard_code(account.shared_secret@, time)
}

fn send_own_code(pending: Pending, index: usize, account: MobileAccount, time: u64) -> (r: Step)
    ensures
        after_time(pending, index, account, time, r),
{
    let code = authenticator_code(&account.shared_secret, time);
    Step {
        enrollment: Enrollment { pending, task: Task::SendingOwnCode { index, account } },
        events: no_events(),
        action: Action::SendCode { source: CodeSource::Device, code },
    }
}

/// Whether `step` is what becomes of a code that the account made itself.
pub open spec fn after_own_code(
    pending: Pending,
    index: usize,
    account: MobileAccount,
    result: Result<(), String>,
    step: Step,
) -> bool {
    match result {
        Ok(_) => waits_for_tokens(pending, Some((index, account)), step),
        Err(error) => asks_code(
            step,
            CodeSource::Device,
            Some((index, account)),
            "Steam отклонил автоматически созданный код ("@ + error@
                + "). Проверьте системное время Windows и при необходимости введите код вручную"@,
        ),
    }
}

/// Whether `step` is what becomes of a code that the user entered. After a
/// refusal the user can enter another.
pub open spec fn after_code(
    pending: Pending,
    source: CodeSource,
    existing: Option<(usize, MobileAccount)>,
    result: Result<(), String>,
    step: Step,
) -> bool {
    match result {
        Ok(_) => waits_for_tokens(pending, existing, step),
        Err(error) => fails(
            step,
            Pending::Login { source, existing },
            "Steam отклонил код: "@ + error@,
        ),
    }
}

// ---------------------------------------------------------------------------
// After the session has come
// ---------------------------------------------------------------------------

/// Whether `step` is what becomes of the session of a signed-in account: an
/// account of the vault is complete with it, and a new one gets an
/// authenticator.
pub open spec fn after_tokens(
    pending: Pending,
    existing: Option<(usize, MobileAccount)>,
    result: Result<Tokens, String>,
    step: Step,
) -> bool {
    match result {
        Err(error) => fails(
            step,
            Pending::Nothing,
            "Не удалось получить сессию Steam: "@ + error@,
        ),
        Ok(tokens) => match existing {
            Some((index, account)) => {
                &&& leaves(step, pending, Task::Idle)
                &&& tells_complete(
                    step,
                    Some(index),
                    MobileAccount { tokens: Some(tokens), ..account },
                    Seq::empty(),
                )
                &&& step.action is Rest
            },
            None => {
                &&& leaves(step, pending, Task::Linking)
                &&& tells_work(step, "Подключаем мобильный аутентификатор…"@)
                &&& step.action == (Action::Link { tokens })
            },
        },
    }
}

fn complete(
    pending: Pending,
    replace_index: Option<usize>,
    account: MobileAccount,
    recovery_code: String,
) -> (r: Step)
    ensures
        leaves(r, pending, Task::Idle),
        tells_complete(r, replace_index, account, recovery_code@),
        r.action is Rest,
{
    Step {
        enrollment: resting(pending),
        events: told(
            SteamEvent::EnrollmentComplete {
                replace_index,
                account: account_from_steam(account),
                recovery_code,
            },
        ),
        action: Action::Rest,
    }
}

/// What becomes of the session of a signed-in account.
pub fn after_login(
    pending: Pending,
    existing: Option<(usize, MobileAccount)>,
    result: Result<Tokens, String>,
) -> (r: Step)
    ensures
        after_tokens(pending, existing, result, r),
{
    let tokens = match result {
        Ok(tokens) => tokens,
        Err(error) => return failure(
            Pending::Nothing,
            concat2("Не удалось получить сессию Steam: ", error.as_str()),
        ),
    };
    match existing {
        Some((index, account)) => {
            let signed_in = MobileAccount { tokens: Some(tokens), ..account };
            complete(pending, Some(index), signed_in, String::new())
        },
        None => Step {
            enrollment: Enrollment { pending, task: Task::Linking },
            events: told(SteamEvent::Working("Подключаем мобильный аутентификатор…".to_owned())),
            action: Action::Link { tokens },
        },
    }
}

/// What the user is told of where the code for a new authenticator comes from.
pub open spec fn destination_of(confirm_by: ConfirmBy) -> Option<Seq<char>> {
    match confirm_by {
        ConfirmBy::Sms { hint } => Some(
            "Введите код из SMS (номер оканчивается на "@ + hint@ + ")"@,
        ),
        ConfirmBy::Email => Some("Введите код из письма Steam"@),
        ConfirmBy::Unknown(_) => None,
    }
}

/// The decimal notation of a number with its sign.
pub open spec fn signed_decimal(n: int) -> Seq<char> {
    if n < 0 {
        "-"@ + decimal((-n) as nat)
    } else {
        decimal(n as nat)
    }
}

/// Whether `step` is what becomes of the try to connect an authenticator: its
/// secrets are handed to the window before anything else happens, since Steam
/// tells them only once.
pub open spec fn after_link(outcome: LinkOutcome, step: Step) -> bool {
    match outcome {
        LinkOutcome::Failed(error) => fails(
            step,
            Pending::Nothing,
            "Не удалось подключить аутентификатор: "@ + error@,
        ),
        LinkOutcome::AuthenticatorPresent => {
            &&& leaves(step, Pending::ExistingAuthenticator, Task::Idle)
            &&& step.events@.len() == 1
            &&& step.events@[0] is AuthenticatorAlreadyPresent
            &&& step.action is Rest
        },
        LinkOutcome::Linked { confirm_by, server_time, account } => match confirm_by {
            ConfirmBy::Unknown(value) => fails(
                step,
                Pending::Nothing,
                "Steam запросил неизвестный тип подтверждения: "@ + signed_decimal(value as int),
            ),
            _ => {
                &&& leaves(step, Pending::Link { account, server_time }, Task::Idle)
                &&& step.events@.len() == 1
                &&& step.events@[0] matches SteamEvent::NeedEnrollmentCode {
                    destination,
                    recovery_code,
                    draft_account,
                } && destination_of(confirm_by) == Some(destination@) && recovery_code
                    == account.revocation_code && is_entry_of(draft_account, account)
                &&& step.action is Rest
            },
        },
    }
}

fn signed_text(n: i32) -> (r: String)
    ensures
        r@ == signed_decimal(n as int),
{
    if n < 0 {
        concat2("-", decimal_text((-(n as i64)) as u64).as_str())
    } else {
        decimal_text(n as u64)
    }
}

/// What becomes of the try to connect an authenticator.
pub fn finish_link(outcome: LinkOutcome) -> (r: Step)
    ensures
        after_link(outcome, r),
{
    match outcome {
        LinkOutcome::Failed(error) => failure(
            Pending::Nothing,
            concat2("Не удалось подключить аутентификатор: ", error.as_str()),
        ),
        LinkOutcome::AuthenticatorPresent => Step {
            enrollment: resting(Pending::ExistingAuthenticator),
            events: told(SteamEvent::AuthenticatorAlreadyPresent),
            action: Action::Rest,
        },
        LinkOutcome::Linked { confirm_by, server_time, account } => {
            let destination = match confirm_by {
                ConfirmBy::Sms { hint } => concat3(
                    "Введите код из SMS (номер оканчивается на ",
                    hint.as_str(),
                    ")",
                ),
                ConfirmBy::Email => "Введите код из письма Steam".to_owned(),
                ConfirmBy::Unknown(value) => {
                    return failure(
                        Pending::Nothing,
                        concat2(
                            "Steam запросил неизвестный тип подтверждения: ",
                            signed_text(value).as_str(),
                        ),
                    );
                },
            };
            Step {
                events: told(
                    SteamEvent::NeedEnrollmentCode {
                        destination,
                        recovery_code: account.revocation_code.clone(),
                        draft_account: account_from_steam(account.clone()),
                    },
                ),
                enrollment: resting(Pending::Link { account, server_time }),
                action: Action::Rest,
            }
        },
    }
}

// ---------------------------------------------------------------------------
// Transfers
// ---------------------------------------------------------------------------

/// Whether `step` is what becomes of the try to start a transfer.
pub open spec fn after_transfer_start(result: Result<(), String>, step: Step) -> bool {
    match result {
        Ok(_) => {
            &&& leaves(step, Pending::Transfer, Task::Idle)
            &&& step.events@.len() == 1
            &&& step.events@[0] is NeedTransferCode
            &&& step.action is Rest
        },
        Err(error) => fails(step, Pending::Nothing, "Не удалось начать перенос: "@ + error@),
    }
}

/// Whether `step` is what becomes of the try to finish a transfer. After a
/// failure the user can enter another code.
pub open spec fn after_transfer_finish(result: Result<MobileAccount, String>, step: Step) -> bool {
    match result {
        Ok(account) => {
            &&& leaves(step, Pending::Nothing, Task::Idle)
            &&& tells_complete(step, None, account, account.revocation_code@)
            &&& step.action is Rest
        },
        Err(error) => fails(step, Pending::Transfer, "Не удалось завершить перенос: "@ + error@),
    }
}

// ---------------------------------------------------------------------------
// Finishing a new authenticator
// ---------------------------------------------------------------------------

/// Whether `step` is what becomes of the try to finish an authenticator: it is
/// repeated with the time that Steam tells, at most 30 times, and whatever
/// fails, the authenticator goes on waiting for a code.
pub open spec fn after_finalize(
    account: MobileAccount,
    server_time: u64,
    code: String,
    tries: u32,
    outcome: FinalizeOutcome,
    step: Step,
) -> bool {
    match outcome {
        FinalizeOutcome::Done => {
            &&& leaves(step, Pending::Link { account, server_time }, Task::CheckingStatus)
            &&& step.events@.len() == 0
            &&& step.action == (Action::CheckStatus { account })
        },
        FinalizeOutcome::WantMore { server_time: time, error } => if tries < MAX_REPEATS {
            &&& leaves(
                step,
                Pending::Link { account, server_time: time },
                Task::Finalizing { code, tries: (tries + 1) as u32 },
            )
            &&& step.events@.len() == 0
            &&& step.action == (Action::Finalize { server_time: time, account, code })
        } else {
            fails(
                step,
                Pending::Link { account, server_time },
                "Steam не завершил подключение: "@ + error@,
            )
        },
        FinalizeOutcome::Failed(error) => fails(
            step,
            Pending::Link { account, server_time },
            "Steam не завершил подключение: "@ + error@,
        ),
    }
}

fn continue_finalize(
    account: MobileAccount,
    server_time: u64,
    code: String,
    tries: u32,
    outcome: FinalizeOutcome,
) -> (r: Step)
    ensures
        after_finalize(account, server_time, code, tries, outcome, r),
{
    match outcome {
        FinalizeOutcome::Done => Step {
            action: Action::CheckStatus { account: account.clone() },
            enrollment: Enrollment {
                pending: Pending::Link { account, server_time },
                task: Task::CheckingStatus,
            },
            events: no_events(),
        },
        FinalizeOutcome::WantMore { server_time: time, error } => if tries < MAX_REPEATS {
            Step {
                action: Action::Finalize {
                    server_time: time,
                    account: account.clone(),
                    code: code.clone(),
                },
                enrollment: Enrollment {
                    pending: Pending::Link { account, server_time: time },
                    task: Task::Finalizing { code, tries: tries + 1 },
                },
                events: no_events(),
            }
        } else {
            failure(
                Pending::Link { account, server_time },
                concat2("Steam не завершил подключение: ", error.as_str()),
            )
        },
        FinalizeOutcome::Failed(error) => failure(
            Pending::Link { account, server_time },
            concat2("Steam не завершил подключение: ", error.as_str()),
        ),
    }
}

/// Whether `step` is what becomes of the look at a finished authenticator.
pub open spec fn after_status(
    account: MobileAccount,
    server_time: u64,
    result: Result<u32, String>,
    step: Step,
) -> bool {
    match result {
        Err(error) => fails(
            step,
            Pending::Link { account, server_time },
            "Не удалось проверить аутентификатор: "@ + error@,
        ),
        Ok(state) => if state == 0 {
            fails(
                step,
                Pending::Link { account, server_time },
                "Steam не активировал аутентификатор; проверьте код и повторите"@,
            )
        } else {
            &&& leaves(step, Pending::Nothing, Task::Idle)
            &&& tells_complete(step, None, account, account.revocation_code@)
            &&& step.action is Rest
        },
    }
}

fn finish_status(account: MobileAccount, server_time: u64, result: Result<u32, String>) -> (r: Step)
    ensures
        after_status(account, server_time, result, r),
{
    match result {
        Err(error) => failure(
            Pending::Link { account, server_time },
            concat2("Не удалось проверить аутентификатор: ", error.as_str()),
        ),
        Ok(state) => if state == 0 {
            failure(
                Pending::Link { account, server_time },
                "Steam не активировал аутентификатор; проверьте код и повторите".to_owned(),
            )
        } else {
            let recovery_code = account.revocation_code.clone();
            complete(Pending::Nothing, None, account, recovery_code)
        },
    }
}

// ---------------------------------------------------------------------------
// One step
// ---------------------------------------------------------------------------

/// Whether `step` is what becomes of a reply. A reply to another task than the
/// one at hand changes nothing.
pub open spec fn follows_reply(enrollment: Enrollment, reply: Reply, step: Step) -> bool {
    let pending = enrollment.pending;
    match (enrollment.task, reply) {
        (Task::SigningIn { .. }, Reply::Unreachable(error)) => fails(
            step,
            Pending::Nothing,
            error@,
        ),
        (Task::Linking, Reply::Unreachable(error)) => fails(step, Pending::Nothing, error@),
        (Task::SigningIn { existing }, Reply::SignedIn(Ok(methods))) => after_sign_in(
            pending,
            existing,
            methods@,
            step,
        ),
        (Task::SigningIn { .. }, Reply::SignedIn(Err(failure))) => fails(
            step,
            Pending::Nothing,
            failure_text(failure),
        ),
        (Task::AskingTime { index, account }, Reply::Time(time)) => after_time(
            pending,
            index,
            account,
            time,
            step,
        ),
        (Task::SendingOwnCode { index, account }, Reply::CodeSent(result)) => after_own_code(
            pending,
            index,
            account,
            result,
            step,
        ),
        (Task::SendingCode { source, existing }, Reply::CodeSent(result)) => after_code(
            pending,
            source,
            existing,
            result,
            step,
        ),
        (Task::WaitingForTokens { existing }, Reply::TokensCame(result)) => after_tokens(
            pending,
            existing,
            result,
            step,
        ),
        (Task::Linking, Reply::LinkTried(outcome)) => after_link(outcome, step),
        (Task::StartingTransfer, Reply::TransferStarted(result)) => after_transfer_start(
            result,
            step,
        ),
        (Task::FinishingTransfer, Reply::TransferFinished(result)) => after_transfer_finish(
            result,
            step,
        ),
        (Task::Finalizing { code, tries }, Reply::FinalizeTried(outcome)) => match pending {
            Pending::Link { account, server_time } => after_finalize(
                account,
                server_time,
                code,
                tries,
                outcome,
                step,
            ),
            _ => stays(enrollment, step),
        },
        (Task::CheckingStatus, Reply::StatusCame(result)) => match pending {
            Pending::Link { account, server_time } => after_status(
                account,
                server_time,
                result,
                step,
            ),
            _ => stays(enrollment, step),
        },
        _ => stays(enrollment, step),
    }
}

/// Whether a step changes and asks for nothing.
pub open spec fn stays(enrollment: Enrollment, step: Step) -> bool {
    step.enrollment == enrollment && step.events@.len() == 0 && step.action is Rest
}

fn unchanged(pending: Pending, task: Task) -> (r: Step)
    ensures
        stays(Enrollment { pending, task }, r),
{
    Step { enrollment: Enrollment { pending, task }, events: no_events(), action: Action::Rest }
}

/// What becomes of a reply.
pub fn advance(enrollment: Enrollment, reply: Reply) -> (r: Step)
    ensures
        follows_reply(enrollment, reply, r),
{
    let pending = enrollment.pending;
    match (enrollment.task, reply) {
        (Task::SigningIn { .. }, Reply::Unreachable(error)) => failure(Pending::Nothing, error),
        (Task::Linking, Reply::Unreachable(error)) => failure(Pending::Nothing, error),
        (Task::SigningIn { existing }, Reply::SignedIn(Ok(methods))) => choose_method(
            pending,
            existing,
            &methods,
        ),
        (Task::SigningIn { .. }, Reply::SignedIn(Err(refused))) => failure(
            Pending::Nothing,
            login_error(&refused),
        ),
        (Task::AskingTime { index, account }, Reply::Time(time)) => send_own_code(
            pending,
            index,
            account,
            time,
        ),
        (Task::SendingOwnCode { index, account }, Reply::CodeSent(result)) => match result {
            Ok(_) => wait_for_tokens(pending, Some((index, account))),
            Err(error) => ask_code(
                CodeSource::Device,
                Some((index, account)),
                concat3(
                    "Steam отклонил автоматически созданный код (",
                    error.as_str(),
                    "). Проверьте системное время Windows и при необходимости введите код вручную",
                ),
            ),
        },
        (Task::SendingCode { source, existing }, Reply::CodeSent(result)) => match result {
            Ok(_) => wait_for_tokens(pending, existing),
            Err(error) => failure(
                Pending::Login { source, existing },
                concat2("Steam отклонил код: ", error.as_str()),
            ),
        },
        (Task::WaitingForTokens { existing }, Reply::TokensCame(result)) => after_login(
            pending,
            existing,
            result,
        ),
        (Task::Linking, Reply::LinkTried(outcome)) => finish_link(outcome),
        (Task::StartingTransfer, Reply::TransferStarted(result)) => match result {
            Ok(_) => Step {
                enrollment: resting(Pending::Transfer),
                events: told(SteamEvent::NeedTransferCode),
                action: Action::Rest,
            },
            Err(error) => failure(
                Pending::Nothing,
                concat2("Не удалось начать перенос: ", error.as_str()),
            ),
        },
        (Task::FinishingTransfer, Reply::TransferFinished(result)) => match result {
            Ok(account) => {
                let recovery_code = account.revocation_code.clone();
                complete(Pending::Nothing, None, account, recovery_code)
            },
            Err(error) => failure(
                Pending::Transfer,
                concat2("Не удалось завершить перенос: ", error.as_str()),
            ),
        },
        (Task::Finalizing { code, tries }, Reply::FinalizeTried(outcome)) => match pending {
            Pending::Link { account, server_time } => continue_finalize(
                account,
                server_time,
                code,
                tries,
                outcome,
            ),
            other => unchanged(other, Task::Finalizing { code, tries }),
        },
        (Task::CheckingStatus, Reply::StatusCame(result)) => match pending {
            Pending::Link { account, server_time } => finish_status(account, server_time, result),
            other => unchanged(other, Task::CheckingStatus),
        },
        (task, _) => unchanged(pending, task),
    }
}

// ---------------------------------------------------------------------------
// What holds over several steps
// ---------------------------------------------------------------------------

/// A code that Steam refuses costs nothing: the sign-in waits again exactly as
/// it did before the code was sent.
pub proof fn refused_code_can_be_entered_again(
    pending: Pending,
    code: Seq<char>,
    sent: Step,
    error: String,
    answered: Step,
)
    requires
        pending is Login,
        submits_guard(pending, code, sent),
        follows_reply(sent.enrollment, Reply::CodeSent(Err(error)), answered),
    ensures
        answered.enrollment == (Enrollment { pending, task: Task::Idle }),
        tells_error(answered, "Steam отклонил код: "@ + error@),
{
}

/// A code that Steam refuses does not end a transfer: it waits again.
pub proof fn refused_transfer_code_can_be_entered_again(
    code: Seq<char>,
    sent: Step,
    error: String,
    answered: Step,
)
    requires
        submits_transfer(Pending::Transfer, code, sent),
        follows_reply(sent.enrollment, Reply::TransferFinished(Err(error)), answered),
    ensures
        answered.enrollment == (Enrollment { pending: Pending::Transfer, task: Task::Idle }),
{
}

/// The new authenticator that an enrollment keeps, if it keeps one.
pub open spec fn kept_authenticator(pending: Pending) -> Option<MobileAccount> {
    match pending {
        Pending::Link { account, .. } => Some(account),
        _ => None,
    }
}

/// The secrets of a new authenticator are never dropped on the way: while it is
/// being finished, every step either keeps it or tells the window that it is
/// complete.
pub proof fn unfinished_authenticator_is_kept(enrollment: Enrollment, reply: Reply, step: Step)
    requires
        enrollment.pending is Link,
        enrollment.task is Finalizing || enrollment.task is CheckingStatus,
        follows_reply(enrollment, reply, step),
    ensures
        kept_authenticator(step.enrollment.pending) == kept_authenticator(enrollment.pending)
            || tells_complete(
            step,
            None,
            kept_authenticator(enrollment.pending)->0,
            kept_authenticator(enrollment.pending)->0.revocation_code@,
        ),
{
}

/// How often finishing an authenticator may still be repeated.
pub open spec fn repeats_left(task: Task) -> int {
    match task {
        Task::Finalizing { tries, .. } => 1 + MAX_REPEATS - tries,
        _ => 0,
    }
}

/// Finishing an authenticator comes to an end: it begins with 31 tries, and
/// each try leaves fewer.
pub proof fn finishing_ends(enrollment: Enrollment, reply: Reply, step: Step)
    requires
        enrollment.pending is Link,
        enrollment.task matches Task::Finalizing { tries, .. } && tries <= MAX_REPEATS,
        reply is FinalizeTried,
        follows_reply(enrollment, reply, step),
    ensures
        0 <= repeats_left(step.enrollment.task) < repeats_left(enrollment.task) <= 31,
{
}

/// A sign-in that Steam refuses, or that the worker cannot try, leaves nothing
/// waiting.
pub proof fn refused_sign_in_leaves_nothing(
    pending: Pending,
    existing: Option<(usize, MobileAccount)>,
    failure: LoginFailure,
    step: Step,
)
    requires
        follows_reply(
            Enrollment { pending, task: Task::SigningIn { existing } },
            Reply::SignedIn(Err(failure)),
            step,
        ),
    ensures
        step.enrollment == (Enrollment { pending: Pending::Nothing, task: Task::Idle }),
{
}

/// An account of the vault that proves its sign-in itself sends the same code
/// that the window shows for it at that time.
pub proof fn own_code_is_the_shown_code(
    pending: Pending,
    index: usize,
    account: MobileAccount,
    time: u64,
    step: Step,
)
    requires
        follows_reply(
            Enrollment { pending, task: Task::AskingTime { index, account } },
            Reply::Time(time),
            step,
        ),
    ensures
        step.action matches Action::SendCode { code, .. } && code@ == guard_code(
            account.shared_secret@,
            time,
        ),
{
}

proof fn lemma_first_method(methods: Seq<GuardMethod>, kind: GuardKind) -> (i: int)
    ensures
        match first_method(methods, kind) {
            Some(method) => 0 <= i < methods.len() && methods[i] == method && method.kind == kind
                && forall|j: int| 0 <= j < i ==> (#[trigger] methods[j]).kind != kind,
            None => forall|j: int| 0 <= j < methods.len() ==> (#[trigger] methods[j]).kind != kind,
        },
    decreases methods.len(),
{
    if methods.len() == 0 || methods[0].kind == kind {
        0
    } else {
        let rest = methods.skip(1);
        let k = lemma_first_method(rest, kind);
        assert forall|j: int|
            0 <= j < methods.len() && (first_method(methods, kind) is None || j < k + 1) implies (
        #[trigger] methods[j]).kind != kind by {
            if j > 0 {
                assert(methods[j] == rest[j - 1]);
            }
        }
        k + 1
    }
}

/// Wherever Steam offers it, a code of the device is what proves a sign-in: an
/// account of the vault is asked to make it, and the user of another is asked
/// to enter it.
pub proof fn device_codes_come_first(
    pending: Pending,
    existing: Option<(usize, MobileAccount)>,
    methods: Seq<GuardMethod>,
    step: Step,
    i: int,
)
    requires
        after_sign_in(pending, existing, methods, step),
        0 <= i < methods.len(),
        methods[i].kind == GuardKind::DeviceCode,
    ensures
        existing matches Some(known) ==> {
            &&& step.action is AskTime
            &&& step.enrollment.task == (Task::AskingTime { index: known.0, account: known.1 })
            &&& step.enrollment.pending == pending
        },
        existing is None ==> {
            &&& step.action is Rest
            &&& step.enrollment.pending == (Pending::Login { source: CodeSource::Device, existing })
            &&& step.events@.len() == 1
            &&& step.events@[0] matches SteamEvent::NeedGuardCode { device_code, .. } && device_code
        },
{
    lemma_first_method(methods, GuardKind::DeviceCode);
}

/// Where Steam offers no code of the device but one of the e-mail, the user is
/// asked for that one, and the account that is signed in again is kept.
pub proof fn mailed_codes_come_second(
    pending: Pending,
    existing: Option<(usize, MobileAccount)>,
    methods: Seq<GuardMethod>,
    step: Step,
    i: int,
)
    requires
        after_sign_in(pending, existing, methods, step),
        forall|j: int|
            0 <= j < methods.len() ==> (#[trigger] methods[j]).kind != GuardKind::DeviceCode,
        0 <= i < methods.len(),
        methods[i].kind == GuardKind::EmailCode,
    ensures
        step.action is Rest,
        step.enrollment.pending == (Pending::Login { source: CodeSource::Email, existing }),
        step.enrollment.task is Idle,
        step.events@.len() == 1,
        step.events@[0] matches SteamEvent::NeedGuardCode { device_code, .. } && !device_code,
{
    lemma_first_method(methods, GuardKind::DeviceCode);
    lemma_first_method(methods, GuardKind::EmailCode);
}

/// Where Steam wants no code, the session is waited for at once, and the user
/// is told to approve the sign-in elsewhere exactly where Steam offers that.
pub proof fn sign_ins_without_codes_are_waited_for(
    pending: Pending,
    existing: Option<(usize, MobileAccount)>,
    methods: Seq<GuardMethod>,
    step: Step,
)
    requires
        after_sign_in(pending, existing, methods, step),
        forall|j: int|
            0 <= j < methods.len() ==> (#[trigger] methods[j]).kind != GuardKind::DeviceCode
                && methods[j].kind != GuardKind::EmailCode,
    ensures
        step.action is WaitForTokens,
        step.enrollment == (Enrollment { pending, task: Task::WaitingForTokens { existing } }),
        step.events@.len() == 1 <==> exists|j: int|
            0 <= j < methods.len() && ((#[trigger] methods[j]).kind == GuardKind::DeviceConfirmation
                || methods[j].kind == GuardKind::EmailConfirmation),
        step.events@.len() <= 1,
        step.events@.len() == 1 ==> step.events@[0] is NeedExternalApproval,
{
    lemma_first_method(methods, GuardKind::DeviceCode);
    lemma_first_method(methods, GuardKind::EmailCode);
    lemma_first_method(methods, GuardKind::DeviceConfirmation);
    lemma_first_method(methods, GuardKind::EmailConfirmation);
}

/// The user is asked for a code in Steam's own words, where it has some.
pub proof fn codes_are_asked_for_in_steams_words(method: GuardMethod, own: Seq<char>)
    ensures
        method.message@.len() > 0 ==> prompt(method, own) == method.message@,
        method.message@.len() == 0 ==> prompt(method, own) == own,
{
}

/// A code goes to Steam as the user entered it, but for the blanks around it,
/// and as a code of the source that it was asked for from.
pub proof fn codes_go_to_their_source(pending: Pending, code: Seq<char>, step: Step)
    requires
        submits_guard(pending, code, step),
    ensures
        pending matches Pending::Login { source, existing } ==> {
            &&& step.action matches Action::SendCode { source: sent, code: text } && sent == source
                && text@ == trimmed(code)
            &&& step.enrollment.task == (Task::SendingCode { source, existing })
        },
        !(pending is Login) ==> step.action is Rest && step.enrollment.pending == pending
            && step.events@.len() == 1 && step.events@[0] is Error,
{
}

/// A session that comes for an account of the vault completes exactly that
/// account: at its place, with its secrets and numbers as they were, and the
/// new session in place of the old one.
pub proof fn sessions_go_to_their_account(
    pending: Pending,
    index: usize,
    account: MobileAccount,
    tokens: Tokens,
    step: Step,
)
    requires
        follows_reply(
            Enrollment { pending, task: Task::WaitingForTokens { existing: Some((index, account)) } },
            Reply::TokensCame(Ok(tokens)),
            step,
        ),
    ensures
        step.action is Rest,
        step.events@.len() == 1,
        step.events@[0] matches SteamEvent::EnrollmentComplete {
            replace_index,
            account: entry,
            recovery_code,
        } && replace_index == Some(index) && recovery_code@.len() == 0 && (entry.mobile matches Some(
            kept,
        ) && kept.tokens == Some(tokens) && kept.shared_secret == account.shared_secret
            && kept.identity_secret == account.identity_secret && kept.device_id
            == account.device_id && kept.steam_id == account.steam_id && kept.account_name
            == account.account_name && kept.revocation_code == account.revocation_code),
{
}

/// A session that comes for a new account goes into connecting its
/// authenticator.
pub proof fn new_sessions_are_linked(pending: Pending, tokens: Tokens, step: Step)
    requires
        follows_reply(
            Enrollment { pending, task: Task::WaitingForTokens { existing: None } },
            Reply::TokensCame(Ok(tokens)),
            step,
        ),
    ensures
        step.action == (Action::Link { tokens }),
        step.enrollment.task is Linking,
{
}

/// The secrets of a new authenticator reach the window with their recovery
/// code as soon as Steam has told them, and wait with Steam's time for the
/// code that finishes them.
pub proof fn new_secrets_are_handed_over(
    pending: Pending,
    confirm_by: ConfirmBy,
    server_time: u64,
    account: MobileAccount,
    step: Step,
)
    requires
        follows_reply(
            Enrollment { pending, task: Task::Linking },
            Reply::LinkTried(LinkOutcome::Linked { confirm_by, server_time, account }),
            step,
        ),
        !(confirm_by is Unknown),
    ensures
        step.enrollment == (Enrollment {
            pending: Pending::Link { account, server_time },
            task: Task::Idle,
        }),
        step.events@.len() == 1,
        step.events@[0] matches SteamEvent::NeedEnrollmentCode {
            recovery_code,
            draft_account,
            destination,
        } && recovery_code == account.revocation_code && draft_account.mobile == Some(account)
            && (confirm_by matches ConfirmBy::Sms { hint } ==> destination@
            == "Введите код из SMS (номер оканчивается на "@ + hint@ + ")"@) && (confirm_by is Email
            ==> destination@ == "Введите код из письма Steam"@),
{
}

/// A code that Steam wants more of is sent again as it is, with the time that
/// Steam told last, thirty times at most.
pub proof fn finishing_takes_steams_time(
    account: MobileAccount,
    server_time: u64,
    code: String,
    tries: u32,
    time: u64,
    error: String,
    step: Step,
)
    requires
        follows_reply(
            Enrollment {
                pending: Pending::Link { account, server_time },
                task: Task::Finalizing { code, tries },
            },
            Reply::FinalizeTried(FinalizeOutcome::WantMore { server_time: time, error }),
            step,
        ),
    ensures
        tries < 30 ==> {
            &&& step.action == (Action::Finalize { server_time: time, account, code })
            &&& step.enrollment.pending == (Pending::Link { account, server_time: time })
            &&& step.enrollment.task matches Task::Finalizing { code: same, tries: more } && same
                == code && more == tries + 1
        },
        tries >= 30 ==> {
            &&& step.action is Rest
            &&& step.enrollment.pending == (Pending::Link { account, server_time })
            &&& step.events@.len() == 1
            &&& step.events@[0] matches SteamEvent::Error(text) && text@
                == "Steam не завершил подключение: "@ + error@
        },
{
}

/// An authenticator is complete only once Steam says that it is active: then it
/// is told to the window with its recovery code, and until then it waits.
pub proof fn only_active_authenticators_are_complete(
    account: MobileAccount,
    server_time: u64,
    state: u32,
    step: Step,
)
    requires
        follows_reply(
            Enrollment {
                pending: Pending::Link { account, server_time },
                task: Task::CheckingStatus,
            },
            Reply::StatusCame(Ok(state)),
            step,
        ),
    ensures
        step.events@.len() == 1,
        step.events@[0] is EnrollmentComplete <==> state != 0,
        state != 0 ==> {
            &&& step.enrollment.pending is Nothing
            &&& step.events@[0] matches SteamEvent::EnrollmentComplete {
                replace_index,
                account: entry,
                recovery_code,
            } && replace_index is None && entry.mobile == Some(account) && recovery_code@
                == account.revocation_code@
        },
        state == 0 ==> step.enrollment.pending == (Pending::Link { account, server_time })
            && step.events@[0] is Error,
{
}

/// A transferred authenticator is told to the window as a new account, with its
/// recovery code.
pub proof fn transfers_complete_the_account(account: MobileAccount, pending: Pending, step: Step)
    requires
        follows_reply(
            Enrollment { pending, task: Task::FinishingTransfer },
            Reply::TransferFinished(Ok(account)),
            step,
        ),
    ensures
        step.enrollment.pending is Nothing,
        step.events@.len() == 1,
        step.events@[0] matches SteamEvent::EnrollmentComplete {
            replace_index,
            account: entry,
            recovery_code,
        } && replace_index is None && entry.mobile == Some(account) && recovery_code@
            == account.revocation_code@,
{
}

} // verus!
