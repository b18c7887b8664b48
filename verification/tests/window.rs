use base64::engine::general_purpose::STANDARD as BASE64;
use base64::Engine as _;
use morty_steam_auth::account::{Account, MobileAccount, Tokens};
use morty_steam_auth::cards::{
    account_card, bulk_menu, confirmation_card, count_label, item_label, items_line, login_card,
    partner_link, side_heading, total_amount,
};
use morty_steam_auth::confirmation::{ConfirmationRow, ConfirmationScope, ConfirmationTarget};
use morty_steam_auth::dialog::{AddDialog, AddStage};
use morty_steam_auth::events::Effect;
use morty_steam_auth::login::{login_row, LoginInfo, LoginRequestRow};
use morty_steam_auth::state::{AfterSave, AppState, ReadyTab, Screen};
use morty_steam_auth::steam::{SteamEvent, SteamRequest};
use morty_steam_auth::trade::{TradeDetails, TradeItem};
use morty_steam_auth::tray::{
    passes_on, poll_pointer, remembered_buttons, repaint_interval, shortened_login,
    tray_pointer_action, tray_popup_height,
    MouseButtons, PointerPoll, TrayAction, TrayClick, TrayPointerAction, WindowCommand, WindowState,
};
use morty_steam_auth::worker::{
    confirmation_answered, is_current, login_answered, session_of, with_renewed_session, BatchProgress,
};

fn tokens() -> Tokens {
    Tokens {
        access_token: "a".to_owned(),
        refresh_token: "r".to_owned(),
    }
}

fn account(name: &str, secret: u8, mobile: bool, signed_in: bool) -> Account {
    Account {
        name: name.to_owned(),
        steam_id: Some(format!("7656119800000000{secret}")),
        shared_secret: BASE64.encode([secret; 20]),
        mobile: if mobile {
            Some(MobileAccount {
                account_name: name.to_owned(),
                steam_id: secret as u64,
                tokens: if signed_in { Some(tokens()) } else { None },
                ..Default::default()
            })
        } else {
            None
        },
    }
}

fn open_state(accounts: Vec<Account>) -> AppState {
    let mut state = AppState::new(true);
    state.unlock(Ok((accounts, [1; 32], [2; 16])));
    state
}

fn notice(state: &AppState) -> (&str, bool) {
    let notice = state.notice.as_ref().unwrap();
    (notice.text.as_str(), notice.error)
}

fn row(account_index: usize, id: &str) -> ConfirmationRow {
    ConfirmationRow {
        account_index,
        id: id.to_owned(),
        nonce: format!("nonce-{id}"),
        kind: "Обмен".to_owned(),
        headline: "h".to_owned(),
        summary: "s".to_owned(),
        created: 0,
        icon: None,
        is_trade: true,
        is_market_sale: false,
        load_id: 1,
        trade: None,
    }
}

#[test]
fn a_vault_is_created_with_a_good_password() {
    let mut state = AppState::new(false);
    assert_eq!(state.screen, Screen::Setup);
    state.password = "1234567".to_owned();
    assert!(!state.create_vault());
    assert_eq!(notice(&state), ("Пароль должен содержать минимум 8 символов", true));
    state.password = "12345678".to_owned();
    assert!(!state.create_vault());
    assert_eq!(notice(&state), ("Пароли не совпадают", true));
    state.password_repeat = "12345678".to_owned();
    assert!(state.create_vault());
    assert_eq!(state.screen, Screen::Ready);
    assert!(state.password.is_empty() && state.password_repeat.is_empty());
    let (key, salt) = state.vault_keys().unwrap();
    assert_eq!(morty_steam_auth::vault::derive_key("12345678", &salt).unwrap(), key);
    assert!(state.vault_saved(AfterSave::Created, Ok(())).is_none());
    assert_eq!(notice(&state), ("Зашифрованное хранилище создано", false));
    state.vault_saved(AfterSave::Created, Err("disk".to_owned()));
    assert_eq!(notice(&state), ("disk", true));
    let mut state = AppState::new(false);
    assert!(!state.create_vault_with(Err("no bytes".to_owned())));
    assert_eq!(notice(&state), ("no bytes", true));
    for short in ["пароль", "четыре", "семьбукв"] {
        state.password = short.chars().take(7).collect();
        state.password_repeat = state.password.clone();
        assert!(!state.create_vault());
        assert_eq!(notice(&state), ("Пароль должен содержать минимум 8 символов", true));
        assert_eq!(state.screen, Screen::Setup);
        assert!(state.key.is_none() && state.salt.is_none());
    }
    state.password = "семьбукв".to_owned();
    state.password_repeat = "семьбукв".to_owned();
    assert!(state.create_vault());
    assert_eq!(state.screen, Screen::Ready);
}

#[test]
fn a_vault_is_unlocked_and_locked() {
    let mut state = AppState::new(true);
    assert_eq!(state.screen, Screen::Locked);
    assert_eq!(state.vault_keys().unwrap_err(), "Хранилище заблокировано");
    state.password = "word".to_owned();
    state.unlock(Err("Неверный пароль".to_owned()));
    assert_eq!(notice(&state), ("Неверный пароль", true));
    assert!(state.password.is_empty());
    assert_eq!(state.screen, Screen::Locked);
    state.unlock(Ok((vec![account("one", 1, true, true)], [1; 32], [2; 16])));
    assert_eq!(notice(&state), ("Хранилище разблокировано", false));
    assert_eq!(state.screen, Screen::Ready);
    state.search = "x".to_owned();
    state.confirmations = vec![row(0, "1")];
    state.open_steam_login(None);
    state.lock();
    assert_eq!(notice(&state), ("Хранилище заблокировано", false));
    assert_eq!(state.screen, Screen::Locked);
    assert!(state.accounts.is_empty() && state.key.is_none() && state.salt.is_none());
    assert!(state.search.is_empty() && state.confirmations.is_empty());
    assert!(state.add_dialog.is_none());
    state.key = Some([1; 32]);
    assert_eq!(state.vault_keys().unwrap_err(), "Нет соли хранилища");
    state.password = "word".to_owned();
    state.wipe();
    assert!(state.password.is_empty() && state.key.is_none());
}

#[test]
fn notices_go_away() {
    let mut state = AppState::new(true);
    state.now = 5;
    state.show_notice("text".to_owned(), false);
    state.now = 4_000_000_005;
    state.expire_notice();
    assert!(state.notice.is_some());
    state.now = 4_000_000_006;
    state.expire_notice();
    assert!(state.notice.is_none());
    state.show_notice("text".to_owned(), true);
    state.now = 16_000_000_006;
    state.expire_notice();
    assert!(state.notice.is_some());
    state.now = 16_000_000_007;
    state.expire_notice();
    assert!(state.notice.is_none());
}

#[test]
fn imports_add_upgrade_and_skip() {
    let mut state = open_state(vec![account("one", 1, false, false), account("two", 2, true, true)]);
    let save = state.import_accounts(vec![
        Ok(account("one again", 1, true, false)),
        Ok(account("two again", 2, true, false)),
        Ok(account("three", 3, false, false)),
        Err("bad".to_owned()),
        Ok(account("three again", 3, false, false)),
    ]);
    let save = save.unwrap();
    assert_eq!(save, AfterSave::Imported { imported: 1, upgraded: 1, skipped: 3 });
    assert_eq!(
        state.accounts.iter().map(|a| a.name.as_str()).collect::<Vec<_>>(),
        vec!["one again", "two", "three"]
    );
    state.vault_saved(save, Ok(()));
    assert_eq!(
        notice(&state),
        ("Импортировано: 1, обновлено для подтверждений: 1, пропущено: 3", false)
    );
    assert!(state.import_accounts(vec![Err("bad".to_owned())]).is_none());
    assert_eq!(notice(&state), ("bad", true));
    assert!(state.import_accounts(vec![Ok(account("x", 3, false, false))]).is_none());
    assert_eq!(notice(&state), ("Новых аккаунтов не найдено", true));
    assert!(state.import_accounts(vec![]).is_none());
}

#[test]
fn pages_load_what_they_show() {
    let mut state = open_state(vec![
        account("one", 1, true, true),
        account("two", 2, false, false),
        account("three", 3, true, false),
    ]);
    assert!(state.refresh_current_tab().is_none());
    state.confirmations = vec![row(0, "1")];
    state.confirmation_account_filter = Some(1);
    match state.open_tab(ReadyTab::Confirmations) {
        Some(SteamRequest::LoadConfirmations(accounts)) => {
            assert_eq!(accounts.iter().map(|a| a.0).collect::<Vec<_>>(), vec![0, 2]);
        }
        other => panic!("{other:?}"),
    }
    assert!(state.confirmations.is_empty() && state.confirmation_account_filter.is_none());
    assert!(matches!(
        state.open_tab(ReadyTab::LoginRequests),
        Some(SteamRequest::LoadLoginRequests(accounts)) if accounts.len() == 2
    ));
    assert!(state.open_tab(ReadyTab::Codes).is_none());
    state.request_sent(true);
    assert!(state.steam_busy);
    state.request_sent(false);
    assert_eq!(notice(&state), ("Фоновый модуль Steam остановлен", true));
}

#[test]
fn the_confirmations_of_one_account_need_a_session() {
    let mut state = open_state(vec![
        account("one", 1, true, true),
        account("two", 2, false, false),
        account("three", 3, true, false),
    ]);
    assert!(state.open_account_confirmations(9).is_none());
    assert!(state.open_account_confirmations(1).is_none());
    assert_eq!(
        notice(&state),
        ("В maFile нет identity_secret или device_id — подтверждения недоступны", true)
    );
    assert!(matches!(
        state.open_account_confirmations(0),
        Some(SteamRequest::LoadConfirmations(accounts)) if accounts.len() == 1 && accounts[0].0 == 0
    ));
    assert_eq!(state.confirmations_title(), "Подтверждения · one · 0");
    assert!(state.open_account_confirmations(2).is_none());
    assert_eq!(
        notice(&state),
        ("Для подтверждений нужна отдельная авторизация Steam", false)
    );
    let dialog = state.add_dialog.as_ref().unwrap();
    assert_eq!(dialog.username, "three");
    assert_eq!(dialog.existing_index, Some(2));
    state.show_all_confirmations();
    assert_eq!(state.confirmations_title(), "Подтверждения · 0");
}

#[test]
fn confirmations_are_answered_one_by_one_or_in_bulk() {
    let mut state = open_state(vec![account("one", 1, true, true), account("two", 2, false, false)]);
    state.confirmations = vec![row(0, "1"), row(0, "2")];
    match state.answer_confirmation(&row(0, "1"), false) {
        Some(SteamRequest::RespondConfirmation { id, nonce, accept, .. }) => {
            assert_eq!((id.as_str(), nonce.as_str(), accept), ("1", "nonce-1", false));
        }
        other => panic!("{other:?}"),
    }
    match state.answer_confirmations(ConfirmationScope::Trades, true) {
        Some(SteamRequest::RespondConfirmations { groups, accept }) => {
            assert!(accept);
            assert_eq!(groups.len(), 1);
            assert_eq!(groups[0].targets.len(), 2);
        }
        other => panic!("{other:?}"),
    }
    assert!(state.answer_confirmations(ConfirmationScope::Sales, true).is_none());
    assert!(state.answer_confirmation(&row(1, "3"), true).is_none());
    assert_eq!(notice(&state), ("Аккаунт подтверждения недоступен", true));
    state.confirmations.push(row(1, "3"));
    assert!(state.answer_confirmations(ConfirmationScope::All, true).is_none());
    assert_eq!(
        notice(&state),
        ("Аккаунт подтверждения недоступен. Обновите список", true)
    );
    state.steam_busy = true;
    assert!(state.answer_confirmation(&row(0, "1"), true).is_none());
    assert!(state.answer_confirmations(ConfirmationScope::Trades, true).is_none());
}

#[test]
fn events_change_the_dialog() {
    let mut state = open_state(vec![]);
    state.open_steam_login(None);
    assert_eq!(state.handle_event(SteamEvent::Working("one".to_owned())), Effect::Rest);
    assert!(state.steam_busy);
    let stage = |state: &AppState| state.add_dialog.as_ref().unwrap().stage.clone();
    assert_eq!(stage(&state), AddStage::Working("one".to_owned()));
    state.handle_event(SteamEvent::NeedGuardCode { device_code: false, message: "m".to_owned() });
    assert_eq!(stage(&state), AddStage::GuardCode { message: "Код из письма: m".to_owned() });
    assert!(!state.steam_busy);
    state.handle_event(SteamEvent::Working("two".to_owned()));
    assert_eq!(stage(&state), AddStage::GuardCode { message: "Код из письма: m".to_owned() });
    state.handle_event(SteamEvent::NeedExternalApproval("e".to_owned()));
    assert_eq!(stage(&state), AddStage::ExternalApproval("e".to_owned()));
    state.handle_event(SteamEvent::AuthenticatorAlreadyPresent);
    assert_eq!(stage(&state), AddStage::ExistingAuthenticator);
    state.add_dialog.as_mut().unwrap().code = "x".to_owned();
    state.handle_event(SteamEvent::NeedTransferCode);
    assert_eq!(stage(&state), AddStage::TransferCode);
    assert!(state.add_dialog.as_ref().unwrap().code.is_empty());
    state.handle_event(SteamEvent::Error("e".to_owned()));
    assert_eq!(stage(&state), AddStage::TransferCode);
    assert_eq!(notice(&state), ("e", true));
    state.add_dialog.as_mut().unwrap().stage = AddStage::Working("w".to_owned());
    state.handle_event(SteamEvent::Error("e".to_owned()));
    assert_eq!(stage(&state), AddStage::Credentials);
}

#[test]
fn a_new_account_is_saved_before_its_code_is_asked_for() {
    let mut state = open_state(vec![account("one", 1, false, false)]);
    state.open_steam_login(None);
    let effect = state.handle_event(SteamEvent::NeedEnrollmentCode {
        destination: "to".to_owned(),
        recovery_code: "R1".to_owned(),
        draft_account: account("two", 2, true, true),
    });
    assert_eq!(state.accounts.len(), 2);
    let save = match effect {
        Effect::Save(save) => save,
        other => panic!("{other:?}"),
    };
    state.vault_saved(save, Err("disk".to_owned()));
    assert_eq!(notice(&state), ("Критическая ошибка сохранения секретов: disk", true));
    let dialog = state.add_dialog.as_ref().unwrap();
    assert_eq!(dialog.result_index, Some(1));
    assert_eq!(
        dialog.stage,
        AddStage::EnrollmentCode { destination: "to".to_owned(), recovery_code: "R1".to_owned() }
    );
    let effect = state.handle_event(SteamEvent::EnrollmentComplete {
        replace_index: None,
        account: account("two done", 2, true, true),
        recovery_code: "R1".to_owned(),
    });
    assert_eq!(state.accounts.len(), 2);
    assert_eq!(state.accounts[1].name, "two done");
    assert_eq!(
        effect,
        Effect::Save(AfterSave::AccountAdded { recovery_code: "R1".to_owned(), saved_index: 1 })
    );
}

#[test]
fn a_signed_in_account_loads_its_confirmations() {
    let mut state = open_state(vec![account("one", 1, true, false)]);
    state.open_account_confirmations(0);
    let effect = state.handle_event(SteamEvent::EnrollmentComplete {
        replace_index: Some(0),
        account: account("one", 1, true, true),
        recovery_code: String::new(),
    });
    let save = match effect {
        Effect::Save(save) => save,
        other => panic!("{other:?}"),
    };
    assert!(matches!(
        state.vault_saved(save, Ok(())),
        Some(SteamRequest::LoadConfirmations(accounts)) if accounts.len() == 1
    ));
    assert_eq!(notice(&state), ("Аккаунт Steam сохранён", false));
    assert_eq!(
        state.add_dialog.as_ref().unwrap().stage,
        AddStage::Complete { recovery_code: String::new() }
    );
    let effect = state.handle_event(SteamEvent::EnrollmentComplete {
        replace_index: Some(7),
        account: account("gone", 1, true, true),
        recovery_code: String::new(),
    });
    assert_eq!(state.accounts.len(), 1);
    let save = match effect {
        Effect::Save(save) => save,
        other => panic!("{other:?}"),
    };
    assert!(state.vault_saved(save, Err("disk".to_owned())).is_none());
    assert_eq!(notice(&state), ("disk", true));
}

#[test]
fn loaded_lists_are_shown() {
    let mut state = open_state(vec![account("one", 1, true, true)]);
    state.steam_busy = true;
    state.handle_event(SteamEvent::ConfirmationsLoaded(vec![row(0, "1"), row(0, "2")]));
    assert_eq!(notice(&state), ("Подтверждения обновлены", false));
    assert!(!state.steam_busy);
    for (load_id, id, found) in [(2, "2", false), (1, "3", false), (1, "2", true)] {
        state.handle_event(SteamEvent::TradeDetailsLoaded {
            load_id,
            id: id.to_owned(),
            details: Ok(TradeDetails::default()),
        });
        assert_eq!(state.confirmations[1].trade.is_some(), found);
    }
    assert!(state.confirmations[0].trade.is_none());
    let completed = vec![state.confirmations[0].target()];
    state.handle_event(SteamEvent::ConfirmationsBatchComplete { completed, errors: vec![] });
    assert_eq!(notice(&state), ("Обработано подтверждений: 1", false));
    assert_eq!(state.confirmations.len(), 1);
    state.handle_event(SteamEvent::ConfirmationsBatchComplete {
        completed: vec![],
        errors: vec!["one: a".to_owned(), "two: b".to_owned()],
    });
    assert_eq!(
        notice(&state),
        ("Обработано: 0. Не удалось обработать часть списка: one: a; two: b", true)
    );
    state.handle_event(SteamEvent::LoginRequestsLoaded(vec![]));
    assert_eq!(notice(&state), ("Запросы входа обновлены", false));
    assert_eq!(
        state.handle_event(SteamEvent::ActionComplete("done".to_owned())),
        Effect::Rest
    );
    assert_eq!(notice(&state), ("done", false));
    state.ready_tab = ReadyTab::LoginRequests;
    assert!(matches!(
        state.handle_event(SteamEvent::ActionComplete("done".to_owned())),
        Effect::Send(SteamRequest::LoadLoginRequests(_))
    ));
}

#[test]
fn the_dialog_submits_what_was_entered() {
    let mut state = open_state(vec![account("One", 1, true, true)]);
    assert!(state.submit_dialog().is_none());
    state.open_steam_login(Some(0));
    assert_eq!(
        state.add_dialog.as_ref().unwrap().heading(),
        ("Авторизация Steam", "Подключение сессии для подтверждений")
    );
    assert!(state.submit_dialog().is_none());
    assert_eq!(notice(&state), ("Введите логин и пароль Steam", true));
    let dialog = state.add_dialog.as_mut().unwrap();
    dialog.username = "  OnE ".to_owned();
    dialog.password = "word".to_owned();
    match state.submit_dialog() {
        Some(SteamRequest::BeginEnrollment { username, password, existing }) => {
            assert_eq!((username.as_str(), password.as_str()), ("one", "word"));
            assert_eq!(existing.unwrap().0, 0);
        }
        other => panic!("{other:?}"),
    }
    let dialog = state.add_dialog.as_mut().unwrap();
    assert!(dialog.password.is_empty());
    assert_eq!(dialog.stage, AddStage::Working("Подключаемся к Steam…".to_owned()));
    assert!(state.submit_dialog().is_none());
    let stages = [
        AddStage::GuardCode { message: String::new() },
        AddStage::EnrollmentCode { destination: String::new(), recovery_code: String::new() },
        AddStage::TransferCode,
    ];
    let requests = [
        SteamRequest::SubmitGuardCode(" 1 ".to_owned()),
        SteamRequest::FinalizeEnrollment(" 1 ".to_owned()),
        SteamRequest::SubmitTransferCode(" 1 ".to_owned()),
    ];
    for (stage, request) in stages.into_iter().zip(requests) {
        let dialog = state.add_dialog.as_mut().unwrap();
        dialog.stage = stage;
        dialog.code = "  ".to_owned();
        assert!(state.submit_dialog().is_none());
        state.add_dialog.as_mut().unwrap().code = " 1 ".to_owned();
        assert_eq!(state.submit_dialog(), Some(request));
        assert!(state.add_dialog.as_ref().unwrap().code.is_empty());
    }
    state.add_dialog.as_mut().unwrap().stage = AddStage::ExistingAuthenticator;
    assert_eq!(state.submit_dialog(), Some(SteamRequest::BeginTransfer));
    state.add_dialog.as_mut().unwrap().stage = AddStage::Complete { recovery_code: String::new() };
    assert!(state.submit_dialog().is_none());
    assert!(state.add_dialog.is_none());
    state.open_steam_login(None);
    state.close_dialog();
    assert!(state.add_dialog.is_none());
}

#[test]
fn every_stage_has_a_heading() {
    let heading = |stage: AddStage| {
        let mut dialog = AddDialog::new(None, String::new());
        dialog.stage = stage;
        dialog.heading()
    };
    assert_eq!(heading(AddStage::Credentials), ("Добавить аккаунт", "Безопасное подключение к Steam"));
    assert_eq!(heading(AddStage::Working(String::new())), ("Подключение к Steam", "Защищённый обмен данными"));
    assert_eq!(heading(AddStage::ExternalApproval(String::new())), ("Подключение к Steam", "Защищённый обмен данными"));
    assert_eq!(heading(AddStage::GuardCode { message: String::new() }), ("Проверка входа", "Подтвердите владение аккаунтом"));
    assert_eq!(
        heading(AddStage::EnrollmentCode { destination: String::new(), recovery_code: String::new() }),
        ("Активация Steam Guard", "Последний шаг настройки")
    );
    assert_eq!(heading(AddStage::ExistingAuthenticator), ("Steam Guard уже активен", "Выберите способ продолжения"));
    assert_eq!(heading(AddStage::TransferCode), ("Перенос аутентификатора", "Подтверждение по SMS"));
    assert_eq!(heading(AddStage::Complete { recovery_code: String::new() }), ("Готово", "Аккаунт защищён и добавлен"));
}

#[test]
fn accounts_are_deleted_and_exported() {
    let mut state = open_state(vec![account("one", 1, true, true), account("two", 2, false, false)]);
    assert!(state.delete_name().is_none());
    state.pending_delete = Some(0);
    assert_eq!(state.delete_name().as_deref(), Some("one"));
    assert!(state.export_source(1).is_none());
    assert_eq!(
        notice(&state),
        ("В импортированном файле недостаточно данных для экспорта", true)
    );
    assert_eq!(state.export_source(0).unwrap().account_name, "one");
    assert!(state.export_source(5).is_none());
    assert_eq!(state.confirm_delete(), Some(AfterSave::Deleted));
    assert_eq!(state.accounts.len(), 1);
    assert_eq!(state.accounts[0].name, "two");
    state.vault_saved(AfterSave::Deleted, Ok(()));
    assert_eq!(notice(&state), ("Аккаунт удалён", false));
    state.pending_delete = Some(5);
    assert_eq!(state.delete_name().as_deref(), Some(""));
    assert_eq!(state.confirm_delete(), None);
    assert_eq!(state.pending_delete, None);
    state.mafile_saved("/tmp/a", Ok(()));
    assert_eq!(notice(&state), ("maFile сохранён: /tmp/a", false));
    state.mafile_saved("/tmp/a", Err("full".to_owned()));
    assert_eq!(notice(&state), ("Не удалось сохранить maFile: full", true));
}

#[test]
fn accounts_are_found_by_name() {
    let mut state = open_state(vec![
        account("Alpha", 1, false, false),
        account("ПЕРВЫЙ", 2, false, false),
        account("alphabet", 3, false, false),
    ]);
    assert_eq!(state.visible_accounts(), vec![0, 1, 2]);
    state.search = " ALPHA ".to_owned();
    assert_eq!(state.visible_accounts(), vec![0, 2]);
    state.search = "перв".to_owned();
    assert_eq!(state.visible_accounts(), vec![1]);
    state.search = "none".to_owned();
    assert!(state.visible_accounts().is_empty());
    assert_eq!(state.account_name(1), "ПЕРВЫЙ");
    assert_eq!(state.account_name(9), "Steam");
    assert_eq!(count_label(7), "07");
    assert_eq!(count_label(12), "12");
}

#[test]
fn cards_show_accounts() {
    let mut entry = account("one", 1, true, true);
    let card = account_card(&entry, 1_700_000_000);
    assert_eq!(card.code.as_deref(), Some("73FVW"));
    assert_eq!(card.seconds_line, "10с");
    assert_eq!(card.session, Some(true));
    assert!(card.has_id);
    entry.steam_id = None;
    entry.mobile = None;
    entry.shared_secret = "?".to_owned();
    let card = account_card(&entry, 30);
    assert_eq!(card.id_line, "SteamID не указан");
    assert_eq!(card.seconds_line, "30с");
    assert_eq!((card.code, card.session), (None, None));
}

fn item(name: &str, amount: u64) -> TradeItem {
    TradeItem {
        name: name.to_owned(),
        game: String::new(),
        app_id: 730,
        image: None,
        amount,
    }
}

#[test]
fn cards_show_confirmations() {
    let mut shown = row(0, "1");
    let card = confirmation_card(&shown, "one");
    assert!(card.has_picture && card.picture.is_none());
    assert_eq!(card.kind_line, "one · Обмен");
    assert_eq!(card.summary, Some(("s".to_owned(), "s".to_owned())));
    assert_eq!(items_line(&shown.trade).as_deref(), Some("Предметы обмена"));
    shown.created = 5;
    shown.trade = Some(Ok(TradeDetails {
        giving: vec![item("a", 2), item("b", 3)],
        receiving: vec![item("c", 1)],
        avatar: Some("https://avatars.steamstatic.com/p.jpg".to_owned()),
        ..Default::default()
    }));
    let card = confirmation_card(&shown, "one");
    assert_eq!(card.picture.as_deref(), Some("https://avatars.steamstatic.com/p.jpg"));
    assert_eq!(card.summary.unwrap().1, "s\nСоздано: 5");
    assert_eq!(
        items_line(&shown.trade).as_deref(),
        Some("Предметы · Отдаёте: 5 · Получаете: 1")
    );
    shown.icon = Some("//avatars.steamstatic.com/i.jpg".to_owned());
    assert_eq!(
        confirmation_card(&shown, "one").picture.as_deref(),
        Some("https://avatars.steamstatic.com/i.jpg")
    );
    shown.is_trade = false;
    shown.summary.clear();
    let card = confirmation_card(&shown, "one");
    assert_eq!((card.has_picture, card.picture, card.summary), (false, None, None));
    assert_eq!(item_label(&item("a", 1)), "a");
    assert_eq!(item_label(&item("a", 2)), "a ×2");
    assert_eq!(side_heading("Вы отдаёте", &[item("a", 2)]).as_deref(), Some("Вы отдаёте · 2"));
    assert_eq!(total_amount(&[item("a", u64::MAX), item("b", 1)]), None);
    assert_eq!(
        partner_link("7"),
        ("Steam ID: 7".to_owned(), "https://steamcommunity.com/profiles/7".to_owned())
    );
}

#[test]
fn the_menu_counts_the_rows_of_each_scope() {
    let menu = bulk_menu(&[row(0, "1"), row(0, "2")]);
    assert_eq!(
        menu.iter().map(|option| option.label.as_str()).collect::<Vec<_>>(),
        vec![
            "Принять все · 2",
            "Принять все трейды · 2",
            "Принять все продажи · 0",
            "Отклонить все трейды · 2",
            "Отклонить все продажи · 0",
        ]
    );
    assert!(menu[3].enabled && !menu[3].accept);
    assert!(!menu[2].enabled && menu[2].accept);
}

fn login_info() -> LoginInfo {
    LoginInfo {
        version: 2,
        device_name: "Phone".to_owned(),
        platform: "Mobile".to_owned(),
        ip: "1.2.3.4".to_owned(),
        city: "City".to_owned(),
        state: String::new(),
        country: "Land".to_owned(),
        location_mismatch: false,
        high_usage: false,
    }
}

#[test]
fn sign_ins_are_shown_and_answered() {
    let shown = login_row(0, 77, login_info());
    assert_eq!(
        shown,
        LoginRequestRow {
            account_index: 0,
            client_id: 77,
            version: 2,
            device: "Phone".to_owned(),
            ip: "1.2.3.4".to_owned(),
            location: "City, Land".to_owned(),
            warning: false,
        }
    );
    let odd = login_row(
        1,
        1,
        LoginInfo {
            version: -5,
            device_name: String::new(),
            city: String::new(),
            country: String::new(),
            high_usage: true,
            ..login_info()
        },
    );
    assert_eq!((odd.version, odd.device.as_str(), odd.location.as_str()), (1, "Mobile", ""));
    assert!(odd.warning);
    assert_eq!(login_row(0, 1, LoginInfo { version: 65537, ..login_info() }).version, 1);
    let card = login_card(&shown);
    assert_eq!(card.ip_line, "IP: 1.2.3.4");
    assert_eq!(card.location_line.as_deref(), Some("Местоположение: City, Land"));
    assert_eq!(card.warning, None);
    let card = login_card(&odd);
    assert_eq!(card.location_line, None);
    assert_eq!(card.warning, Some("Steam отметил необычное местоположение или активность"));
    let state = open_state(vec![account("one", 1, true, true)]);
    assert!(matches!(
        state.answer_login(&shown, true),
        Some(SteamRequest::RespondLogin { client_id: 77, version: 2, accept: true, .. })
    ));
    assert!(state.answer_login(&odd, true).is_none());
}

#[test]
fn the_worker_tells_how_answers_went() {
    assert_eq!(
        confirmation_answered(true, Ok(())),
        SteamEvent::ActionComplete("Подтверждение принято".to_owned())
    );
    assert_eq!(
        confirmation_answered(false, Ok(())),
        SteamEvent::ActionComplete("Подтверждение отклонено".to_owned())
    );
    assert_eq!(
        login_answered(true, Ok(())),
        SteamEvent::ActionComplete("Вход подтверждён".to_owned())
    );
    assert_eq!(
        login_answered(false, Ok(())),
        SteamEvent::ActionComplete("Вход отклонён".to_owned())
    );
    assert_eq!(
        login_answered(false, Err("x".to_owned())),
        SteamEvent::Error("x".to_owned())
    );
    let target = |id: &str| ConfirmationTarget {
        load_id: 1,
        id: id.to_owned(),
        nonce: String::new(),
    };
    let event = BatchProgress::new()
        .add_group("one", vec![target("1")], Ok(()))
        .add_group("two", vec![target("2")], Err("x".to_owned()))
        .add_group("three", vec![target("3")], Ok(()))
        .finished();
    assert_eq!(
        event,
        SteamEvent::ConfirmationsBatchComplete {
            completed: vec![target("1"), target("3")],
            errors: vec!["two: x".to_owned()],
        }
    );
}

#[test]
fn sessions_are_renewed() {
    let mut mobile = account("one", 1, true, true).mobile.unwrap();
    let session = session_of(&mobile).unwrap();
    let renewed = with_renewed_session(mobile.clone(), session, Ok("new".to_owned())).unwrap();
    assert_eq!(
        renewed.tokens,
        Some(Tokens { access_token: "new".to_owned(), refresh_token: "r".to_owned() })
    );
    assert_eq!(
        with_renewed_session(mobile.clone(), tokens(), Err("x".to_owned())).unwrap_err(),
        "one: сессия Steam истекла (x)"
    );
    mobile.tokens = None;
    assert_eq!(session_of(&mobile).unwrap_err(), "one: требуется авторизация Steam");
}

#[test]
fn the_tray_shows_codes_of_an_open_vault() {
    let mut state = open_state(vec![account("a_very_long_login_name_indeed", 1, false, false)]);
    state.accounts.push(Account {
        shared_secret: "?".to_owned(),
        ..account("two", 2, false, false)
    });
    let rows = state.tray_rows(1_700_000_000);
    assert_eq!(rows[0].login, "a_very_long_login_n…");
    assert_eq!(rows[0].code_text(), "73FVW");
    assert_eq!(rows[1].code_text(), "-----");
    assert_eq!(rows[1].code, None);
    state.screen = Screen::Locked;
    assert!(state.tray_rows(0).is_empty());
    assert_eq!(shortened_login("12345678901234567890"), "12345678901234567890");
    assert_eq!(tray_popup_height(Screen::Locked, 3), 280);
    assert_eq!(tray_popup_height(Screen::Ready, 0), 225);
    assert_eq!(tray_popup_height(Screen::Ready, 3), 294);
    assert_eq!(tray_popup_height(Screen::Ready, 60), 438);
    assert_eq!(repaint_interval(Screen::Ready), 16);
    assert_eq!(repaint_interval(Screen::Setup), 250);
}

#[test]
fn the_window_hides_in_the_tray_and_comes_back() {
    let window = WindowState::new();
    let (hidden, command) = window.close_requested(true);
    assert_eq!(command, WindowCommand::Hide);
    assert!(hidden.hidden && !hidden.exiting);
    let (popup, command) = hidden.tray_clicked(TrayClick::Right);
    assert_eq!(command, WindowCommand::Keep);
    assert!(popup.popup_open && popup.hidden);
    assert_eq!(popup.popup_acted(TrayAction::ClosePopup).0, hidden);
    assert_eq!(
        popup.popup_acted(TrayAction::RestoreWindow),
        (window, WindowCommand::Restore)
    );
    assert_eq!(
        hidden.tray_clicked(TrayClick::Left),
        (window, WindowCommand::Restore)
    );
    assert_eq!(
        hidden.tray_clicked(TrayClick::Elsewhere),
        (hidden, WindowCommand::Keep)
    );
    let (ending, command) = window.close_requested(false);
    assert!(ending.exiting);
    assert_eq!(command, WindowCommand::Close);
    assert_eq!(ending.close_requested(true), (ending, WindowCommand::Close));
    assert!(passes_on(TrayAction::ClosePopup, false));
    assert!(!passes_on(TrayAction::ClosePopup, true));
    assert!(passes_on(TrayAction::RestoreWindow, true));
}

#[test]
fn clicks_outside_the_popup_close_it() {
    let up = MouseButtons { left: false, right: false };
    let left = MouseButtons { left: true, right: false };
    let right = MouseButtons { left: false, right: true };
    let poll = |down: MouseButtons, pressed: MouseButtons, x: i32, y: i32| PointerPoll {
        down,
        pressed_since_last_poll: pressed,
        x,
        y,
        left: 10,
        top: 10,
        right: 110,
        bottom: 210,
        footer_top: 150,
    };
    assert_eq!(tray_pointer_action(up, &poll(up, up, 0, 0)), TrayPointerAction::Ignore);
    assert_eq!(tray_pointer_action(left, &poll(left, up, 0, 0)), TrayPointerAction::Ignore);
    assert_eq!(tray_pointer_action(up, &poll(left, up, 0, 0)), TrayPointerAction::Close);
    assert_eq!(tray_pointer_action(up, &poll(right, up, 110, 20)), TrayPointerAction::Close);
    assert_eq!(tray_pointer_action(left, &poll(left, left, 9, 20)), TrayPointerAction::Close);
    assert_eq!(tray_pointer_action(up, &poll(left, up, 10, 149)), TrayPointerAction::Ignore);
    assert_eq!(tray_pointer_action(up, &poll(left, up, 10, 150)), TrayPointerAction::Exit);
    assert_eq!(tray_pointer_action(up, &poll(right, up, 10, 150)), TrayPointerAction::Ignore);
    assert_eq!(remembered_buttons(right, Some(&poll(left, up, 0, 0))), left);
    assert_eq!(remembered_buttons(right, None), right);
    assert_eq!(poll_pointer(left, None), (TrayPointerAction::Ignore, left));
    let (first, held) = poll_pointer(up, Some(poll(left, up, 10, 150)));
    assert_eq!((first, held), (TrayPointerAction::Exit, left));
    assert_eq!(
        poll_pointer(held, Some(poll(left, up, 10, 150))),
        (TrayPointerAction::Ignore, left)
    );
    let popup = |x: i32, y: i32| PointerPoll {
        down: left,
        pressed_since_last_poll: up,
        x,
        y,
        left: 0,
        top: 0,
        right: 310,
        bottom: 400,
        footer_top: 338,
    };
    for (x, y, action) in [
        (10, 338, TrayPointerAction::Exit),
        (10, 337, TrayPointerAction::Ignore),
        (310, 338, TrayPointerAction::Close),
    ] {
        assert_eq!(poll_pointer(up, Some(popup(x, y))), (action, left));
    }
}

#[test]
fn only_the_latest_loading_goes_on() {
    assert!(is_current(3, 3));
    assert!(!is_current(3, 4));
    assert!(!is_current(3, 2));
}
