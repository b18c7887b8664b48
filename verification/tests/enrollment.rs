use morty_steam_auth::account::{MobileAccount, Tokens};
use morty_steam_auth::enrollment::{
    advance, begin_enrollment, begin_transfer, finalize_enrollment, finish_link, login_error,
    new_enrollment, submit_guard, submit_transfer, Action, CodeSource, ConfirmBy, Enrollment,
    FinalizeOutcome, GuardKind, GuardMethod, LinkOutcome, LoginFailure, Pending, Reply, Step, Task,
};
use morty_steam_auth::guard::generate_code;
use morty_steam_auth::steam::SteamEvent;

fn mobile() -> MobileAccount {
    MobileAccount {
        account_name: "name".to_owned(),
        steam_id: 76561198000000001,
        revocation_code: "R12345".to_owned(),
        shared_secret: [1; 20],
        ..Default::default()
    }
}

fn tokens() -> Tokens {
    Tokens {
        access_token: "a".to_owned(),
        refresh_token: "r".to_owned(),
    }
}

fn method(kind: GuardKind, message: &str) -> GuardMethod {
    GuardMethod {
        kind,
        message: message.to_owned(),
    }
}

fn begin(existing: Option<(usize, MobileAccount)>) -> Step {
    begin_enrollment(Pending::Nothing, "user".to_owned(), "word".to_owned(), existing)
}

fn working(text: &str) -> Vec<SteamEvent> {
    vec![SteamEvent::Working(text.to_owned())]
}

fn error(text: &str) -> Vec<SteamEvent> {
    vec![SteamEvent::Error(text.to_owned())]
}

#[test]
fn a_new_account_signs_in_with_a_code_and_gets_an_authenticator() {
    assert_eq!(
        new_enrollment(),
        Enrollment { pending: Pending::Nothing, task: Task::Idle }
    );
    let step = begin(None);
    assert_eq!(step.events, working("Входим в Steam…"));
    assert_eq!(
        step.action,
        Action::SignIn { username: "user".to_owned(), password: "word".to_owned() }
    );
    let step = advance(
        step.enrollment,
        Reply::SignedIn(Ok(vec![
            method(GuardKind::DeviceConfirmation, ""),
            method(GuardKind::EmailCode, "mail"),
            method(GuardKind::DeviceCode, ""),
        ])),
    );
    assert_eq!(
        step.events,
        vec![SteamEvent::NeedGuardCode {
            device_code: true,
            message: "Введите код из текущего Steam Guard".to_owned()
        }]
    );
    assert_eq!(step.action, Action::Rest);
    let step = submit_guard(step.enrollment.pending, " ABCDE\n");
    assert_eq!(step.events, working("Проверяем код и получаем сессию…"));
    assert_eq!(
        step.action,
        Action::SendCode { source: CodeSource::Device, code: "ABCDE".to_owned() }
    );
    let step = advance(step.enrollment, Reply::CodeSent(Ok(())));
    assert_eq!(step.action, Action::WaitForTokens);
    let step = advance(step.enrollment, Reply::TokensCame(Ok(tokens())));
    assert_eq!(step.events, working("Подключаем мобильный аутентификатор…"));
    assert_eq!(step.action, Action::Link { tokens: tokens() });
    let step = advance(
        step.enrollment,
        Reply::LinkTried(LinkOutcome::Linked {
            confirm_by: ConfirmBy::Sms { hint: "42".to_owned() },
            server_time: 100,
            account: mobile(),
        }),
    );
    match &step.events[0] {
        SteamEvent::NeedEnrollmentCode { destination, recovery_code, draft_account } => {
            assert_eq!(destination, "Введите код из SMS (номер оканчивается на 42)");
            assert_eq!(recovery_code, "R12345");
            assert_eq!(draft_account.mobile, Some(mobile()));
        }
        other => panic!("{other:?}"),
    }
    let step = finalize_enrollment(step.enrollment.pending, " 777 ");
    assert_eq!(step.events, working("Завершаем подключение аутентификатора…"));
    assert_eq!(
        step.action,
        Action::Finalize { server_time: 100, account: mobile(), code: "777".to_owned() }
    );
    let step = advance(
        step.enrollment,
        Reply::FinalizeTried(FinalizeOutcome::WantMore {
            server_time: 130,
            error: "more".to_owned(),
        }),
    );
    assert_eq!(
        step.action,
        Action::Finalize { server_time: 130, account: mobile(), code: "777".to_owned() }
    );
    let step = advance(step.enrollment, Reply::FinalizeTried(FinalizeOutcome::Done));
    assert_eq!(step.action, Action::CheckStatus { account: mobile() });
    let step = advance(step.enrollment, Reply::StatusCame(Ok(1)));
    assert_eq!(step.enrollment, new_enrollment());
    match &step.events[0] {
        SteamEvent::EnrollmentComplete { replace_index, account, recovery_code } => {
            assert_eq!(*replace_index, None);
            assert_eq!(account.steam_id.as_deref(), Some("76561198000000001"));
            assert_eq!(recovery_code, "R12345");
        }
        other => panic!("{other:?}"),
    }
}

#[test]
fn an_account_of_the_vault_proves_its_sign_in_itself() {
    let step = begin(Some((3, mobile())));
    let step = advance(
        step.enrollment,
        Reply::SignedIn(Ok(vec![method(GuardKind::DeviceCode, "")])),
    );
    assert_eq!(
        step.events,
        working("Автоматически подставляем текущий Steam Guard-код…")
    );
    assert_eq!(step.action, Action::AskTime);
    let step = advance(step.enrollment, Reply::Time(1_700_000_000));
    assert_eq!(
        step.action,
        Action::SendCode {
            source: CodeSource::Device,
            code: generate_code(&[1; 20], 1_700_000_000).unwrap(),
        }
    );
    let step = advance(step.enrollment, Reply::CodeSent(Ok(())));
    let step = advance(step.enrollment, Reply::TokensCame(Ok(tokens())));
    match &step.events[0] {
        SteamEvent::EnrollmentComplete { replace_index, account, recovery_code } => {
            assert_eq!(*replace_index, Some(3));
            assert_eq!(account.mobile.as_ref().unwrap().tokens, Some(tokens()));
            assert_eq!(recovery_code, "");
        }
        other => panic!("{other:?}"),
    }
}

#[test]
fn a_refused_own_code_is_asked_for() {
    let step = begin(Some((3, mobile())));
    let step = advance(
        step.enrollment,
        Reply::SignedIn(Ok(vec![method(GuardKind::DeviceCode, "")])),
    );
    let step = advance(step.enrollment, Reply::Time(0));
    let step = advance(step.enrollment, Reply::CodeSent(Err("late".to_owned())));
    assert_eq!(
        step.events,
        vec![SteamEvent::NeedGuardCode {
            device_code: true,
            message: "Steam отклонил автоматически созданный код (late). Проверьте системное время Windows и при необходимости введите код вручную".to_owned()
        }]
    );
    assert_eq!(
        step.enrollment.pending,
        Pending::Login { source: CodeSource::Device, existing: Some((3, mobile())) }
    );
}

#[test]
fn other_ways_to_prove_a_sign_in() {
    let step = advance(
        begin(None).enrollment,
        Reply::SignedIn(Ok(vec![
            method(GuardKind::DeviceConfirmation, ""),
            method(GuardKind::EmailCode, ""),
        ])),
    );
    assert_eq!(
        step.events,
        vec![SteamEvent::NeedGuardCode {
            device_code: false,
            message: "Введите код из письма Steam".to_owned()
        }]
    );
    for kind in [GuardKind::DeviceConfirmation, GuardKind::EmailConfirmation] {
        let step = advance(
            begin(None).enrollment,
            Reply::SignedIn(Ok(vec![method(GuardKind::Other, ""), method(kind, "")])),
        );
        assert_eq!(
            step.events,
            vec![SteamEvent::NeedExternalApproval(
                "Подтвердите вход в текущем приложении Steam или по ссылке в письме".to_owned()
            )]
        );
        assert_eq!(step.action, Action::WaitForTokens);
    }
    let step = advance(begin(None).enrollment, Reply::SignedIn(Ok(vec![])));
    assert!(step.events.is_empty());
    assert_eq!(step.action, Action::WaitForTokens);
    let step = advance(
        begin(None).enrollment,
        Reply::SignedIn(Ok(vec![method(GuardKind::DeviceCode, "own words")])),
    );
    assert_eq!(
        step.events,
        vec![SteamEvent::NeedGuardCode { device_code: true, message: "own words".to_owned() }]
    );
}

#[test]
fn a_failed_sign_in_says_why_and_leaves_nothing_waiting() {
    for (failure, text) in [
        (LoginFailure::BadCredentials, "Неверный логин или пароль Steam"),
        (
            LoginFailure::TooManyAttempts,
            "Steam временно ограничил попытки входа. Попробуйте позже",
        ),
        (LoginFailure::SessionExpired, "Сессия входа Steam истекла"),
        (
            LoginFailure::Unknown("x".to_owned()),
            "Не удалось войти в Steam: x",
        ),
    ] {
        assert_eq!(login_error(&failure), text);
        let step = begin_enrollment(Pending::Transfer, String::new(), String::new(), None);
        let step = advance(step.enrollment, Reply::SignedIn(Err(failure)));
        assert_eq!(step.events, error(text));
        assert_eq!(step.enrollment, new_enrollment());
    }
    let step = advance(begin(None).enrollment, Reply::Unreachable("no net".to_owned()));
    assert_eq!(step.events, error("no net"));
    let waiting = Enrollment {
        pending: Pending::Nothing,
        task: Task::WaitingForTokens { existing: None },
    };
    let step = advance(waiting, Reply::TokensCame(Err("x".to_owned())));
    assert_eq!(step.events, error("Не удалось получить сессию Steam: x"));
    let linking = Enrollment { pending: Pending::Nothing, task: Task::Linking };
    let step = advance(linking, Reply::Unreachable("no net".to_owned()));
    assert_eq!(step.enrollment, new_enrollment());
}

#[test]
fn a_refused_code_can_be_entered_again() {
    let pending = || Pending::Login { source: CodeSource::Email, existing: None };
    let step = submit_guard(pending(), "1");
    let step = advance(step.enrollment, Reply::CodeSent(Err("bad".to_owned())));
    assert_eq!(step.events, error("Steam отклонил код: bad"));
    assert_eq!(step.enrollment.pending, pending());
}

#[test]
fn codes_without_a_question_are_refused() {
    let step = submit_guard(Pending::Transfer, "1");
    assert_eq!(step.events, error("Нет активной авторизации Steam"));
    assert_eq!(step.enrollment.pending, Pending::Transfer);
    let step = begin_transfer(Pending::Nothing);
    assert_eq!(step.events, error("Нет активного переноса аутентификатора"));
    let step = submit_transfer(Pending::ExistingAuthenticator, "1");
    assert_eq!(step.events, error("Сначала начните перенос аутентификатора"));
    assert_eq!(step.enrollment.pending, Pending::ExistingAuthenticator);
    let step = finalize_enrollment(Pending::Nothing, "1");
    assert_eq!(
        step.events,
        error("Нет незавершённого подключения аутентификатора")
    );
}

#[test]
fn connecting_may_fail() {
    let step = finish_link(LinkOutcome::AuthenticatorPresent);
    assert_eq!(step.events, vec![SteamEvent::AuthenticatorAlreadyPresent]);
    assert_eq!(step.enrollment.pending, Pending::ExistingAuthenticator);
    let step = finish_link(LinkOutcome::Failed("x".to_owned()));
    assert_eq!(step.events, error("Не удалось подключить аутентификатор: x"));
    for (value, text) in [
        (7, "Steam запросил неизвестный тип подтверждения: 7"),
        (
            i32::MIN,
            "Steam запросил неизвестный тип подтверждения: -2147483648",
        ),
    ] {
        let step = finish_link(LinkOutcome::Linked {
            confirm_by: ConfirmBy::Unknown(value),
            server_time: 1,
            account: mobile(),
        });
        assert_eq!(step.events, error(text));
        assert_eq!(step.enrollment.pending, Pending::Nothing);
    }
    let step = finish_link(LinkOutcome::Linked {
        confirm_by: ConfirmBy::Email,
        server_time: 1,
        account: mobile(),
    });
    assert!(matches!(
        &step.events[0],
        SteamEvent::NeedEnrollmentCode { destination, .. } if destination == "Введите код из письма Steam"
    ));
}

#[test]
fn an_authenticator_is_transferred() {
    let step = begin_transfer(Pending::ExistingAuthenticator);
    assert_eq!(
        step.events,
        working("Запрашиваем SMS для переноса аутентификатора…")
    );
    assert_eq!(step.action, Action::StartTransfer);
    let failed = advance(step.enrollment, Reply::TransferStarted(Err("x".to_owned())));
    assert_eq!(failed.events, error("Не удалось начать перенос: x"));
    assert_eq!(failed.enrollment.pending, Pending::Nothing);
    let step = advance(
        begin_transfer(Pending::ExistingAuthenticator).enrollment,
        Reply::TransferStarted(Ok(())),
    );
    assert_eq!(step.events, vec![SteamEvent::NeedTransferCode]);
    let step = submit_transfer(step.enrollment.pending, " 1 ");
    assert_eq!(step.events, working("Завершаем перенос аутентификатора…"));
    assert_eq!(step.action, Action::FinishTransfer { code: "1".to_owned() });
    let step = advance(step.enrollment, Reply::TransferFinished(Err("x".to_owned())));
    assert_eq!(step.events, error("Не удалось завершить перенос: x"));
    assert_eq!(step.enrollment.pending, Pending::Transfer);
    let step = submit_transfer(step.enrollment.pending, "2");
    let step = advance(step.enrollment, Reply::TransferFinished(Ok(mobile())));
    assert!(matches!(
        &step.events[0],
        SteamEvent::EnrollmentComplete { replace_index: None, recovery_code, .. } if recovery_code == "R12345"
    ));
}

#[test]
fn finishing_is_repeated_thirty_times_and_keeps_the_authenticator() {
    let pending = Pending::Link { account: mobile(), server_time: 0 };
    let mut step = finalize_enrollment(pending, "1");
    for time in 1..=30 {
        step = advance(
            step.enrollment,
            Reply::FinalizeTried(FinalizeOutcome::WantMore {
                server_time: time,
                error: "more".to_owned(),
            }),
        );
        assert!(matches!(step.action, Action::Finalize { server_time, .. } if server_time == time));
    }
    let step = advance(
        step.enrollment,
        Reply::FinalizeTried(FinalizeOutcome::WantMore {
            server_time: 31,
            error: "more".to_owned(),
        }),
    );
    assert_eq!(step.events, error("Steam не завершил подключение: more"));
    assert_eq!(
        step.enrollment.pending,
        Pending::Link { account: mobile(), server_time: 30 }
    );
    let step = finalize_enrollment(step.enrollment.pending, "2");
    let step = advance(
        step.enrollment,
        Reply::FinalizeTried(FinalizeOutcome::Failed("bad".to_owned())),
    );
    assert_eq!(step.events, error("Steam не завершил подключение: bad"));
    let checking = || Enrollment {
        pending: Pending::Link { account: mobile(), server_time: 30 },
        task: Task::CheckingStatus,
    };
    let step = advance(checking(), Reply::StatusCame(Ok(0)));
    assert_eq!(
        step.events,
        error("Steam не активировал аутентификатор; проверьте код и повторите")
    );
    assert_eq!(step.enrollment.pending, checking().pending);
    let step = advance(checking(), Reply::StatusCame(Err("x".to_owned())));
    assert_eq!(step.events, error("Не удалось проверить аутентификатор: x"));
    assert_eq!(step.enrollment.pending, checking().pending);
}

#[test]
fn a_reply_to_nothing_changes_nothing() {
    let step = advance(new_enrollment(), Reply::Time(1));
    assert_eq!(step.enrollment, new_enrollment());
    assert!(step.events.is_empty());
    assert_eq!(step.action, Action::Rest);
}
