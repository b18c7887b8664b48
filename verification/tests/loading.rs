use std::collections::HashMap;

use base64::engine::general_purpose::STANDARD as BASE64;
use base64::Engine as _;
use morty_steam_auth::account::{MobileAccount, Tokens};
use morty_steam_auth::confirmation::{ConfirmationTarget, TradeJob};
use morty_steam_auth::json::{parse_json, parse_json_bytes, Json};
use morty_steam_auth::list_load::{
    advance_list, load_confirmations, ListAction, ListReply, ListStage, ListStep,
};
use morty_steam_auth::login::LoginInfo;
use morty_steam_auth::login_load::{
    advance_login, load_login_requests, LoginAction, LoginReply, LoginStage,
};
use morty_steam_auth::request::{
    batch_response_params, confirmation_params, response_params, signed_answer, signed_bulk_answer,
    unanswered_login, unsent_answer,
};
use morty_steam_auth::trade::TradeDetails;
use morty_steam_auth::trade_load::{
    advance_trade, begin_trade, TradeAction, TradeReply, TradeStage, TradeStep,
};

fn tokens(access: &str) -> Tokens {
    Tokens {
        access_token: access.to_owned(),
        refresh_token: "refresh".to_owned(),
    }
}

fn account(name: &str) -> MobileAccount {
    MobileAccount {
        account_name: name.to_owned(),
        steam_id: 76561198000000001,
        identity_secret: BASE64.encode([2_u8; 20]),
        device_id: "android:x".to_owned(),
        tokens: Some(tokens("old")),
        ..Default::default()
    }
}

fn json(text: &str) -> Json {
    parse_json(text).unwrap()
}

// ---------------------------------------------------------------------------
// Trades
// ---------------------------------------------------------------------------

fn job(icon: Option<&str>) -> TradeJob {
    TradeJob {
        account: account("one"),
        id: "11".to_owned(),
        creator_id: "7".to_owned(),
        icon: icon.map(str::to_owned),
    }
}

fn offer(app_id: u64) -> Json {
    json(&format!(
        r#"{{"response":{{"offer":{{"tradeofferid":"7","accountid_other":5,"items_to_give":[{{"appid":{app_id}}}]}},"descriptions":[{{"appid":{app_id},"name":"x"}}]}}}}"#
    ))
}

const PAGE: &str = r#"<div class="tradeoffer" id="tradeofferid_7"><div class="trade_item" id="i"></div></div>
    <script>BuildHover('i', {"appid":570,"name":"Dota item"}, UserYou, UserThem);</script>"#;

fn trade(step: TradeStep, reply: TradeReply, games: &mut HashMap<u64, String>) -> TradeStep {
    advance_trade(step.load, reply, games).unwrap()
}

fn found(step: &TradeStep) -> &TradeDetails {
    match &step.action {
        TradeAction::Finish { details: Ok(details) } => details,
        other => panic!("{other:?}"),
    }
}

fn refused(step: &TradeStep) -> &str {
    assert_eq!(step.load.stage, TradeStage::Finished);
    match &step.action {
        TradeAction::Finish { details: Err(message) } => message,
        other => panic!("{other:?}"),
    }
}

#[test]
fn a_trade_of_the_service_asks_for_what_is_missing() {
    let mut games = HashMap::new();
    let step = begin_trade(job(None));
    assert_eq!(
        step.action,
        TradeAction::AskService {
            cookie: "steamLoginSecure=76561198000000001%7C%7Cold; steamid=76561198000000001"
                .to_owned(),
            access_token: "old".to_owned(),
            offer_id: "7".to_owned(),
        }
    );
    let step = trade(step, TradeReply::Service(Some(offer(10))), &mut games);
    assert_eq!(step.action, TradeAction::AskProfile { account: 5 });
    let profile = json(r#"{"avatar_url":"https://avatars.steamstatic.com/p.jpg"}"#);
    let step = trade(step, TradeReply::Profile(Some(profile)), &mut games);
    assert_eq!(step.action, TradeAction::AskGame { app_id: 10 });
    let store = json(r#"{"10":{"data":{"name":"Ten"}}}"#);
    let step = trade(step, TradeReply::Game(Some(store)), &mut games);
    assert_eq!(found(&step).giving[0].game, "Ten");
    assert_eq!(
        found(&step).avatar.as_deref(),
        Some("https://avatars.steamstatic.com/p.jpg")
    );
    assert_eq!(games[&10], "Ten");
    let step = begin_trade(job(Some("//avatars.steamstatic.com/i.jpg")));
    let step = trade(step, TradeReply::Service(Some(offer(10))), &mut games);
    assert_eq!(found(&step).giving[0].game, "Ten");
    assert_eq!(
        found(&step).avatar.as_deref(),
        Some("https://avatars.steamstatic.com/i.jpg")
    );
    let step = trade(begin_trade(job(None)), TradeReply::Service(Some(offer(20))), &mut games);
    let step = trade(step, TradeReply::Profile(None), &mut games);
    let step = trade(step, TradeReply::Game(None), &mut games);
    assert_eq!(found(&step).giving[0].game, "Игра Steam · App ID 20");
    assert_eq!(found(&step).avatar, None);
    let step = trade(begin_trade(job(None)), TradeReply::Service(Some(offer(730))), &mut games);
    assert!(!games.contains_key(&730));
    let step = trade(step, TradeReply::Profile(None), &mut games);
    assert_eq!(found(&step).giving[0].game, "Counter-Strike 2");
    assert_eq!(games[&730], "Counter-Strike 2");
    assert_eq!(games.len(), 3);
}

#[test]
fn the_page_is_asked_where_the_service_does_not_tell() {
    let mut games = HashMap::new();
    let other = json(r#"{"response":{"offer":{"tradeofferid":"8"}}}"#);
    for body in [None, Some(other)] {
        let step = trade(begin_trade(job(None)), TradeReply::Service(body), &mut games);
        assert_eq!(step.action, TradeAction::AskTime);
        let step = trade(step, TradeReply::Time(Some(1_700_000_000)), &mut games);
        let params = confirmation_params(&account("one"), 1_700_000_000, "details").unwrap();
        assert_eq!(
            step.action,
            TradeAction::AskPage { id: "11".to_owned(), params }
        );
        let page = TradeReply::Answered { status: 200, text: Ok(PAGE.to_owned()) };
        let step = trade(step, page, &mut games);
        assert_eq!(found(&step).giving[0].game, "Dota 2");
    }
    assert_eq!(games, HashMap::from([(570, "Dota 2".to_owned())]));
}

#[test]
fn what_does_not_fit_is_not_taken() {
    let mut games = HashMap::new();
    let service = |number: u64| {
        let body = json(&format!(
            r#"{{"response":{{"offer":{{"tradeofferid":"7","accountid_other":{number},
            "items_to_give":[{{"appid":730,"classid":"1"}}]}},
            "descriptions":[{{"appid":730,"classid":"1","name":"a"}}]}}}}"#
        ));
        TradeReply::Service(Some(body))
    };
    let most = u64::MAX - 76561197960265728;
    let step = trade(begin_trade(job(None)), service(most), &mut games);
    assert_eq!(step.action, TradeAction::AskProfile { account: most });
    let load = begin_trade(job(None)).load;
    assert_eq!(advance_trade(load, service(most + 1), &mut games), None);
    let page = String::from_utf8(vec![0; 0x2AAA_AAAB]).unwrap();
    let load = asking_page(&mut games).load;
    let reply = TradeReply::Answered { status: 200, text: Ok(page) };
    assert_eq!(advance_trade(load, reply, &mut games), None);
    assert!(games.is_empty());
}

fn asking_page(games: &mut HashMap<u64, String>) -> TradeStep {
    let step = trade(begin_trade(job(None)), TradeReply::Service(None), games);
    trade(step, TradeReply::Time(Some(1)), games)
}

#[test]
fn a_refused_page_is_asked_for_in_another_way() {
    let mut games = HashMap::new();
    let answered = |status: u16, text: &str| TradeReply::Answered {
        status,
        text: Ok(text.to_owned()),
    };
    let asking_details =
        |games: &mut HashMap<u64, String>| trade(asking_page(games), answered(404, ""), games);
    let step = asking_details(&mut games);
    let params = confirmation_params(&account("one"), 1, "details").unwrap();
    assert_eq!(
        step.action,
        TradeAction::AskDetails { id: "11".to_owned(), params }
    );
    let page = PAGE.replace('"', "\\\"").replace('\n', " ");
    let body = format!("{{\"success\":true,\"html\":\"{page}\"}}");
    let step = trade(step, answered(200, &body), &mut games);
    assert_eq!(found(&step).giving[0].name, "Dota item");
    for (reply, message) in [
        (answered(200, r#"{"success":true}"#), "Steam не вернул состав обмена"),
        (
            answered(401, ""),
            "Сессия Steam истекла. Выполните авторизацию Steam заново",
        ),
        (
            TradeReply::Unsent("x".to_owned()),
            "Не удалось загрузить состав обмена: x",
        ),
    ] {
        let step = asking_details(&mut games);
        assert_eq!(refused(&trade(step, reply, &mut games)), message);
    }
}

#[test]
fn the_loading_of_a_trade_may_fail() {
    let mut games = HashMap::new();
    let without_session = TradeJob {
        account: MobileAccount { tokens: None, ..account("one") },
        ..job(None)
    };
    assert_eq!(refused(&begin_trade(without_session)), "Нужна авторизация Steam");
    let odd_session = TradeJob {
        account: MobileAccount { tokens: Some(tokens("a\nb")), ..account("one") },
        ..job(None)
    };
    assert_eq!(refused(&begin_trade(odd_session)), "Некорректная сессия Steam");
    let step = trade(
        begin_trade(job(None)),
        TradeReply::Unreachable("no net".to_owned()),
        &mut games,
    );
    assert_eq!(refused(&step), "no net");
    let step = trade(begin_trade(job(None)), TradeReply::Service(None), &mut games);
    let step = trade(step, TradeReply::Time(None), &mut games);
    assert_eq!(refused(&step), "Не удалось получить время Steam");
    let unsigned = TradeJob {
        account: MobileAccount { device_id: String::new(), ..account("one") },
        ..job(None)
    };
    let step = trade(begin_trade(unsigned), TradeReply::Service(None), &mut games);
    let step = trade(step, TradeReply::Time(Some(1)), &mut games);
    assert_eq!(refused(&step), "В maFile не хватает данных для подтверждений");
    let step = trade(
        asking_page(&mut games),
        TradeReply::Answered { status: 200, text: Err("x".to_owned()) },
        &mut games,
    );
    assert_eq!(refused(&step), "Не удалось прочитать состав обмена");
    let step = trade(asking_page(&mut games), TradeReply::Unsent("x".to_owned()), &mut games);
    assert_eq!(refused(&step), "Не удалось загрузить состав обмена: x");
    let step = trade(begin_trade(job(None)), TradeReply::Time(Some(1)), &mut games);
    assert_eq!(step.load.stage, TradeStage::AskingService);
    assert_eq!(step.action, TradeAction::Rest);
}

// ---------------------------------------------------------------------------
// Confirmations
// ---------------------------------------------------------------------------

const LIST: &str = r#"{"success":true,"conf":[{"type":2,"type_name":"Trade","id":"1","creator_id":"7","nonce":"n","creation_time":5,"cancel":"c","accept":"a","icon":null,"multi":false,"headline":"h","summary":["s","t"],"warn":null}]}"#;

fn renewed(step: ListStep) -> ListStep {
    advance_list(step.load, ListReply::Renewed(Ok("new".to_owned())))
}

fn answered(status: u16, text: &str) -> ListReply {
    ListReply::Answered { status, text: Ok(text.to_owned()) }
}

fn failed(step: &ListStep) -> &str {
    assert_eq!(step.load.stage, ListStage::Finished);
    match &step.action {
        ListAction::Finish { error: Some(message) } => message,
        other => panic!("{other:?}"),
    }
}

#[test]
fn confirmations_are_loaded_account_by_account() {
    let step = load_confirmations(
        vec![
            (0, MobileAccount { tokens: None, ..account("zero") }),
            (1, account("one")),
            (2, MobileAccount { identity_secret: String::new(), ..account("two") }),
            (3, account("three")),
        ],
        9,
    );
    assert_eq!(
        step.action,
        ListAction::Renew { steam_id: 76561198000000001, tokens: tokens("old") }
    );
    let step = renewed(step);
    assert_eq!(
        step.action,
        ListAction::AskTime {
            cookie: "steamLoginSecure=76561198000000001%7C%7Cnew; steamid=76561198000000001"
                .to_owned(),
        }
    );
    let step = advance_list(step.load, ListReply::Time(1_700_000_000));
    let params = confirmation_params(&account("one"), 1_700_000_000, "conf").unwrap();
    assert_eq!(step.action, ListAction::AskList { params });
    let step = advance_list(step.load, answered(200, LIST));
    assert!(matches!(step.action, ListAction::Renew { .. }));
    let step = advance_list(renewed(step).load, ListReply::Time(1));
    let step = advance_list(step.load, answered(200, r#"{"success":true}"#));
    assert_eq!(step.action, ListAction::Finish { error: None });
    assert_eq!(step.load.rows.len(), 1);
    assert_eq!(step.load.rows[0].account_index, 1);
    assert_eq!(step.load.rows[0].summary, "s · t");
    assert_eq!(step.load.rows[0].load_id, 9);
    assert_eq!(step.load.jobs.len(), 1);
    assert_eq!(step.load.jobs[0].account.tokens, Some(tokens("new")));
    assert_eq!(
        load_confirmations(vec![], 1).action,
        ListAction::Finish { error: None }
    );
}

fn asking_list() -> ListStep {
    let step = renewed(load_confirmations(vec![(1, account("one"))], 9));
    advance_list(step.load, ListReply::Time(1))
}

#[test]
fn a_list_is_asked_for_three_times() {
    let step = advance_list(asking_list().load, answered(500, ""));
    assert_eq!(step.action, ListAction::Wait { milliseconds: 400 });
    let step = advance_list(step.load, ListReply::Waited(2));
    let params = confirmation_params(&account("one"), 2, "conf").unwrap();
    assert_eq!(step.action, ListAction::AskList { params });
    let unsent = || ListReply::Unsent {
        detail: "x".to_owned(),
        timed_out: true,
        connecting: false,
        in_body: false,
    };
    let step = advance_list(step.load, unsent());
    assert_eq!(step.action, ListAction::Wait { milliseconds: 900 });
    let step = advance_list(step.load, ListReply::Waited(3));
    let step = advance_list(step.load, unsent());
    assert_eq!(failed(&step), "one: Не удалось загрузить подтверждения Steam: x");
}

#[test]
fn the_loading_of_confirmations_may_fail() {
    let begin = || load_confirmations(vec![(1, account("one"))], 9);
    let step = advance_list(begin().load, ListReply::Renewed(Err("x".to_owned())));
    assert_eq!(failed(&step), "one: сессия Steam истекла (x)");
    let step = advance_list(begin().load, ListReply::Renewed(Ok("a\nb".to_owned())));
    assert_eq!(failed(&step), "one: Некорректная сессия Steam");
    let step = advance_list(renewed(begin()).load, ListReply::Unreachable("x".to_owned()));
    assert_eq!(failed(&step), "one: x");
    let step = advance_list(
        renewed(begin()).load,
        ListReply::TimeFailed { error: "x".to_owned(), causes: vec!["y".to_owned()] },
    );
    assert_eq!(failed(&step), "one: Не удалось получить время Steam: x: y");
    let unsigned = MobileAccount { device_id: String::new(), ..account("one") };
    let step = renewed(load_confirmations(vec![(1, unsigned)], 9));
    let step = advance_list(step.load, ListReply::Time(1));
    assert_eq!(failed(&step), "one: В maFile не хватает данных для подтверждений");
    let step = advance_list(asking_list().load, answered(401, ""));
    assert_eq!(
        failed(&step),
        "one: Сессия Steam истекла. Выполните авторизацию Steam заново"
    );
    let step = advance_list(asking_list().load, answered(200, r#"{"success":true,"conf":7}"#));
    assert_eq!(
        failed(&step),
        "one: Steam вернул неподдерживаемый формат списка подтверждений. Попробуйте обновить подтверждения позже"
    );
    let step = advance_list(begin().load, ListReply::Time(1));
    assert!(matches!(step.load.stage, ListStage::Renewing { .. }));
    assert_eq!(step.action, ListAction::Rest);
}

// ---------------------------------------------------------------------------
// Sign-ins
// ---------------------------------------------------------------------------

fn info(ip: &str) -> LoginInfo {
    LoginInfo {
        version: 2,
        device_name: "Phone".to_owned(),
        platform: String::new(),
        ip: ip.to_owned(),
        city: String::new(),
        state: String::new(),
        country: String::new(),
        location_mismatch: false,
        high_usage: false,
    }
}

#[test]
fn sign_ins_are_loaded_account_by_account() {
    let step = load_login_requests(vec![
        (0, MobileAccount { tokens: None, ..account("zero") }),
        (1, MobileAccount { identity_secret: String::new(), ..account("one") }),
        (2, account("two")),
    ]);
    assert_eq!(
        step.action,
        LoginAction::Renew { steam_id: 76561198000000001, tokens: tokens("old") }
    );
    let step = advance_login(step.load, LoginReply::Renewed(Ok("new".to_owned())));
    assert_eq!(step.action, LoginAction::AskSessions { tokens: tokens("new") });
    let step = advance_login(step.load, LoginReply::Sessions(Ok(vec![7, 8])));
    assert_eq!(step.action, LoginAction::AskSession { client_id: 7 });
    let step = advance_login(step.load, LoginReply::Session(Ok(info("a"))));
    assert_eq!(step.action, LoginAction::AskSession { client_id: 8 });
    let step = advance_login(step.load, LoginReply::Session(Ok(info("b"))));
    assert!(matches!(step.action, LoginAction::Renew { .. }));
    let step = advance_login(step.load, LoginReply::Renewed(Ok("new".to_owned())));
    let step = advance_login(step.load, LoginReply::Sessions(Ok(vec![])));
    assert_eq!(step.action, LoginAction::Finish { error: None });
    let rows: Vec<_> = step
        .load
        .rows
        .iter()
        .map(|row| (row.account_index, row.client_id, row.ip.as_str()))
        .collect();
    assert_eq!(rows, vec![(1, 7, "a"), (1, 8, "b")]);
}

#[test]
fn the_loading_of_sign_ins_may_fail() {
    let begin = || load_login_requests(vec![(1, account("one"))]);
    let told = |message: &str| LoginAction::Finish { error: Some(message.to_owned()) };
    let step = advance_login(begin().load, LoginReply::Renewed(Err("x".to_owned())));
    assert_eq!(step.action, told("one: сессия Steam истекла (x)"));
    let asking =
        || advance_login(begin().load, LoginReply::Renewed(Ok("new".to_owned()))).load;
    let step = advance_login(asking(), LoginReply::Sessions(Err("x".to_owned())));
    assert_eq!(step.action, told("one: x"));
    let step = advance_login(asking(), LoginReply::Sessions(Ok(vec![7])));
    let step = advance_login(step.load, LoginReply::Session(Err("y".to_owned())));
    assert_eq!(step.action, told("one: y"));
    assert_eq!(step.load.stage, LoginStage::Finished);
    let step = advance_login(step.load, LoginReply::Session(Err("y".to_owned())));
    assert_eq!(step.action, LoginAction::Rest);
}

// ---------------------------------------------------------------------------
// Answers
// ---------------------------------------------------------------------------

#[test]
fn answers_are_signed_and_carry_the_session() {
    let cookie = "steamLoginSecure=76561198000000001%7C%7Cold; steamid=76561198000000001";
    let params = response_params(&account("one"), 5, "1", "2", true).unwrap();
    assert_eq!(
        signed_answer(&account("one"), 5, "1", "2", true),
        Ok((params, cookie.to_owned()))
    );
    let targets = [ConfirmationTarget {
        load_id: 1,
        id: "1".to_owned(),
        nonce: "2".to_owned(),
    }];
    let params = batch_response_params(&account("one"), 5, &targets, false).unwrap();
    assert_eq!(
        signed_bulk_answer(&account("one"), 5, &targets, false),
        Ok((params, cookie.to_owned()))
    );
    let without_session = MobileAccount { tokens: None, ..account("one") };
    assert_eq!(
        signed_answer(&without_session, 5, "1", "2", true).unwrap_err(),
        "Нужна авторизация Steam"
    );
    let unsigned = MobileAccount { device_id: String::new(), ..without_session };
    assert_eq!(
        signed_bulk_answer(&unsigned, 5, &targets, true).unwrap_err(),
        "В maFile не хватает данных для подтверждений"
    );
    assert_eq!(unsent_answer("x"), "Не удалось отправить ответ в Steam: x");
    assert_eq!(unanswered_login("x"), "Не удалось ответить на запрос входа: x");
}

#[test]
fn bytes_are_read_as_json() {
    assert!(matches!(parse_json_bytes(b" [1] "), Some(Json::Array(items)) if items.len() == 1));
    assert!(parse_json_bytes(b"{").is_none());
    assert!(parse_json_bytes(&[0xff]).is_none());
}
