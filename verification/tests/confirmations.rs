use morty_steam_auth::account::{Account, MobileAccount, Tokens};
use morty_steam_auth::confirmation::{
    account_error, add_confirmations, count_rows, group_confirmations, has_confirmations,
    prepare_confirmation_groups, remaining_rows, ConfirmationRow, ConfirmationScope, TradeJob,
};
use morty_steam_auth::mobile::{Confirmation, ConfirmationKind, ListedConfirmation};
use morty_steam_auth::trade::{TradeDetails, TradeItem};

fn test_confirmation_rows() -> Vec<ConfirmationRow> {
    (0..80)
        .map(|index| ConfirmationRow {
            account_index: 0,
            id: (index + 1).to_string(),
            nonce: (index + 100).to_string(),
            load_id: 1,
            kind: if index < 48 {
                "Трейд"
            } else if index < 76 {
                "Продажа"
            } else {
                "Steam Family"
            }
            .to_owned(),
            headline: "Подтверждение действия с аккаунтом Steam".to_owned(),
            summary: "Описание ожидающего подтверждения".to_owned(),
            created: 0,
            icon: None,
            is_trade: index < 48,
            is_market_sale: (48..76).contains(&index),
            trade: if index < 48 {
                Some(Ok(TradeDetails {
                    giving: vec![
                        TradeItem {
                            name: "Предмет обмена".to_owned(),
                            game: "Counter-Strike 2".to_owned(),
                            app_id: 730,
                            image: None,
                            amount: 1
                        };
                        if index == 5 { 100 } else { 1 }
                    ],
                    ..Default::default()
                }))
            } else {
                None
            },
        })
        .collect()
}

#[test]
fn bulk_selection_distinguishes_sales_trades_and_other_actions() {
    let rows = test_confirmation_rows();
    assert_eq!(
        rows.iter()
            .filter(|row| ConfirmationScope::All.matches(row))
            .count(),
        80
    );
    assert_eq!(
        rows.iter()
            .filter(|row| ConfirmationScope::Trades.matches(row))
            .count(),
        48
    );
    assert_eq!(
        rows.iter()
            .filter(|row| ConfirmationScope::Sales.matches(row))
            .count(),
        28
    );
}

fn account(name: &str) -> Account {
    Account {
        name: name.to_owned(),
        steam_id: None,
        shared_secret: String::new(),
        mobile: Some(MobileAccount {
            account_name: name.to_owned(),
            ..Default::default()
        }),
    }
}

#[test]
fn bulk_groups_preserve_accounts_and_reject_missing_accounts() {
    let accounts = vec![account("one"), account("two")];
    let mut rows: Vec<_> = test_confirmation_rows().into_iter().take(3).collect();
    for (index, row) in rows.iter_mut().enumerate() {
        row.id = (index + 1).to_string();
        row.nonce = (index + 10).to_string();
        row.account_index = index % 2;
    }
    let groups = prepare_confirmation_groups(&accounts, &rows).unwrap();
    assert_eq!(groups.len(), 2);
    assert_eq!(groups[0].account.account_name, "one");
    assert_eq!(
        groups[0]
            .targets
            .iter()
            .map(|target| target.id.as_str())
            .collect::<Vec<_>>(),
        vec!["1", "3"]
    );
    assert_eq!(groups[1].targets[0].nonce, "11");
    rows[0].account_index = 2;
    assert!(prepare_confirmation_groups(&accounts, &rows).is_err());
}

#[test]
fn bulk_groups_answer_each_row_of_the_scope_once() {
    let accounts = vec![account("one"), account("two")];
    let mut rows = test_confirmation_rows();
    for (index, row) in rows.iter_mut().enumerate() {
        row.account_index = index % 2;
    }
    for scope in [
        ConfirmationScope::All,
        ConfirmationScope::Trades,
        ConfirmationScope::Sales,
    ] {
        let groups = group_confirmations(&accounts, &rows, scope).unwrap();
        let answered: usize = groups.iter().map(|group| group.targets.len()).sum();
        assert_eq!(answered, count_rows(&rows, scope));
    }
    assert_eq!(count_rows(&rows, ConfirmationScope::Sales), 28);
}

#[test]
fn a_row_out_of_scope_needs_no_account() {
    let accounts = vec![account("one")];
    let mut rows: Vec<_> = test_confirmation_rows();
    rows[79].account_index = 9;
    assert!(group_confirmations(&accounts, &rows, ConfirmationScope::Sales).is_ok());
    assert_eq!(
        group_confirmations(&accounts, &rows, ConfirmationScope::All).unwrap_err(),
        "Аккаунт подтверждения недоступен. Обновите список"
    );
}

#[test]
fn an_account_without_authenticator_cannot_answer() {
    let mut accounts = vec![account("one")];
    accounts[0].mobile = None;
    let rows: Vec<_> = test_confirmation_rows().into_iter().take(1).collect();
    assert!(prepare_confirmation_groups(&accounts, &rows).is_err());
    assert!(prepare_confirmation_groups(&accounts, &[]).unwrap().is_empty());
}

#[test]
fn answered_rows_leave_and_the_others_stay() {
    let rows = test_confirmation_rows();
    let mut completed = vec![rows[0].target(), rows[2].target()];
    let mut late = rows[4].target();
    late.load_id = 2;
    completed.push(late);
    let mut other = rows[5].target();
    other.nonce = "other".to_owned();
    completed.push(other);
    let left = remaining_rows(rows, &completed);
    assert_eq!(left.len(), 78);
    assert_eq!(left[0].id, "2");
    assert_eq!(left[1].id, "4");
    assert_eq!(left[2].id, "5");
    assert_eq!(left[3].id, "6");
}

fn listed(id: &str, kind: ConfirmationKind) -> Confirmation {
    Confirmation {
        label: "Обмен".to_owned(),
        listed: ListedConfirmation {
            kind,
            id: id.to_owned(),
            creator_id: format!("creator-{id}"),
            nonce: format!("nonce-{id}"),
            creation_time: 5,
            icon: Some("icon".to_owned()),
            headline: "Заголовок".to_owned(),
            summary: vec!["a".to_owned(), "b".to_owned(), "c".to_owned()],
        },
    }
}

#[test]
fn listed_confirmations_become_rows_and_trades_become_jobs() {
    let mobile = MobileAccount {
        account_name: "one".to_owned(),
        ..Default::default()
    };
    let mut rows = Vec::new();
    let mut jobs: Vec<TradeJob> = Vec::new();
    add_confirmations(
        &mut rows,
        &mut jobs,
        vec![
            listed("1", ConfirmationKind::MarketSell),
            listed("2", ConfirmationKind::Trade),
            listed("3", ConfirmationKind::Unknown(42)),
        ],
        7,
        &mobile,
        3,
    );
    add_confirmations(
        &mut rows,
        &mut jobs,
        vec![listed("4", ConfirmationKind::Trade)],
        8,
        &mobile,
        3,
    );
    assert_eq!(rows.len(), 4);
    assert_eq!(rows[0].summary, "a · b · c");
    assert_eq!(rows[0].kind, "Обмен");
    assert!(rows[0].is_market_sale && !rows[0].is_trade);
    assert!(rows[1].is_trade && !rows[1].is_market_sale);
    assert!(!rows[2].is_trade && !rows[2].is_market_sale);
    assert_eq!(rows[3].account_index, 8);
    assert_eq!(rows[3].load_id, 3);
    assert!(rows[3].trade.is_none());
    assert_eq!(jobs.len(), 2);
    assert_eq!(jobs[0].id, "2");
    assert_eq!(jobs[1].creator_id, "creator-4");
}

#[test]
fn only_signed_in_accounts_with_a_secret_are_loaded() {
    let mut mobile = MobileAccount::default();
    assert!(!has_confirmations(&mobile));
    mobile.identity_secret = "AAAA".to_owned();
    assert!(!has_confirmations(&mobile));
    mobile.tokens = Some(Tokens {
        access_token: "a".to_owned(),
        refresh_token: "r".to_owned(),
    });
    assert!(has_confirmations(&mobile));
    assert_eq!(account_error("one", "broken"), "one: broken");
}
