use morty_steam_auth::json::{parse_json, Json};
use morty_steam_auth::mobile::{
    after_failed_attempt, check_mobile_status, checked_body, error_chain, listed_confirmations,
    parse_confirmations, parse_mobile_body, read_mobile_response, read_mobile_response_checked,
    send_error, time_error, validate_mobile_response, ConfirmationKind, MobileResponseError,
};

fn json(text: &str) -> Json {
    parse_json(text).unwrap()
}

#[test]
fn mobile_http_errors_do_not_become_json_errors() {
    for status in [302, 401, 403, 429, 500, 502, 503] {
        let error = check_mobile_status(status).unwrap_err();
        assert_eq!(error.retryable, status >= 500);
        assert!(!error.message.contains("deserialize"));
        if status == 302 || status == 401 {
            assert!(error.message.contains("авторизацию"));
        } else {
            assert!(error.message.contains(&status.to_string()));
        }
    }
}

#[test]
fn only_good_answers_are_read() {
    for status in [200, 204, 299] {
        assert!(check_mobile_status(status).is_ok());
    }
    for status in [100, 199, 300, 404, 600, 999] {
        assert!(check_mobile_status(status).is_err());
    }
    let timeout = check_mobile_status(408).unwrap_err();
    assert!(timeout.retryable);
    assert_eq!(
        timeout.message,
        "Steam не принял запрос (HTTP 408). Попробуйте обновить подтверждения позже"
    );
}

#[test]
fn empty_or_non_json_mobile_responses_can_be_retried() {
    for body in [
        "",
        " \r\n",
        "<html>Service Unavailable</html>",
        "{\"success\":",
    ] {
        let error = parse_mobile_body(body).unwrap_err();
        assert!(error.retryable);
        assert!(!error.message.contains(body.trim()) || body.trim().is_empty());
    }
    assert!(parse_mobile_body(" ").unwrap_err().message.contains("пустой"));
}

#[test]
fn expired_sessions_and_rejected_actions_are_not_retried() {
    for body in [
        r#"{"success":false,"needauth":true}"#,
        r#"{"success":true,"needsauth":true}"#,
        r#"{"success":false,"message":"Expired"}"#,
        r#"{"unexpected":true}"#,
        "null",
    ] {
        assert!(!parse_mobile_body(body).unwrap_err().retryable);
    }
    let body = parse_mobile_body(r#"{"success":true,"conf":[]}"#).unwrap();
    assert_eq!(body.array("conf").map(Vec::len), Some(0));
    assert!(parse_mobile_body(r#"{"success":true}"#).is_ok());
}

#[test]
fn reports_auth_and_remote_errors() {
    assert!(validate_mobile_response(json(r#"{"success":true,"needauth":true}"#)).is_err());
    assert!(
        validate_mobile_response(json(r#"{"success":false,"needsauth":true}"#))
            .unwrap_err()
            .contains("Сессия")
    );
    assert_eq!(
        validate_mobile_response(json(r#"{"success":false,"message":"Expired"}"#)).unwrap_err(),
        "Expired"
    );
    assert!(validate_mobile_response(json(r#"{"success":true}"#)).is_ok());
}

#[test]
fn a_refusal_tells_the_first_reason() {
    assert_eq!(
        validate_mobile_response(json(r#"{"success":false,"detail":"Later"}"#)).unwrap_err(),
        "Later"
    );
    let own = "Steam не выполнил действие. Обновите список: подтверждение могло быть обработано или отменено на другом устройстве";
    assert_eq!(
        validate_mobile_response(json(r#"{"success":false,"message":"","detail":"Later"}"#))
            .unwrap_err(),
        own
    );
    assert_eq!(validate_mobile_response(json("[]")).unwrap_err(), own);
    assert_eq!(
        validate_mobile_response(json(r#"{"success":1}"#)).unwrap_err(),
        own
    );
}

#[test]
fn a_body_is_judged_by_what_it_reads_as() {
    assert!(checked_body("  ", Some(Json::Null)).unwrap_err().message.contains("пустой"));
    assert!(checked_body("x", None).unwrap_err().message.contains("вместо JSON"));
    let good = Json::Object(vec![("success".to_owned(), Json::Bool(true))]);
    assert!(checked_body("x", Some(good)).is_ok());
}

const LIST: &str = r#"{"success":true,"conf":[
    {"type":2,"type_name":"Trade Offer","id":"11","creator_id":"12","nonce":"13","creation_time":1700000000,
     "cancel":"Cancel","accept":"Send Offer","icon":"https://avatars.steamstatic.com/a.jpg","multi":false,
     "headline":"Partner","summary":["You give","You get"]},
    {"type":3,"type_name":"Market Listing","id":"21","creator_id":"22","nonce":"23","creation_time":1,
     "cancel":"Cancel","accept":"Create","icon":null,"multi":true,"headline":"Selling","summary":[]},
    [77,"Row","31","32","33",2,"no","yes",null,false,"As a row",["x"]]
]}"#;

#[test]
fn lists_of_confirmations_are_read() {
    let list = parse_confirmations(LIST).unwrap();
    assert_eq!(list.len(), 3);
    assert_eq!(list[0].label, "Trade Offer");
    assert_eq!(list[0].listed.kind, ConfirmationKind::Trade);
    assert_eq!(list[0].listed.id, "11");
    assert_eq!(list[0].listed.creator_id, "12");
    assert_eq!(list[0].listed.nonce, "13");
    assert_eq!(list[0].listed.creation_time, 1_700_000_000);
    assert_eq!(
        list[0].listed.icon.as_deref(),
        Some("https://avatars.steamstatic.com/a.jpg")
    );
    assert_eq!(list[0].listed.summary, vec!["You give", "You get"]);
    assert_eq!(list[1].label, "Market Listing");
    assert_eq!(list[1].listed.kind, ConfirmationKind::MarketSell);
    assert_eq!(list[1].listed.icon, None);
    assert_eq!(list[2].label, "Row");
    assert_eq!(list[2].listed.kind, ConfirmationKind::Unknown(77));
    assert_eq!(list[2].listed.headline, "As a row");
}

#[test]
fn every_kind_of_confirmation_is_told_apart() {
    let kinds = [
        (1, ConfirmationKind::Test),
        (2, ConfirmationKind::Trade),
        (3, ConfirmationKind::MarketSell),
        (4, ConfirmationKind::FeatureOptOut),
        (5, ConfirmationKind::PhoneNumberChange),
        (6, ConfirmationKind::AccountRecovery),
        (9, ConfirmationKind::ApiKeyCreation),
        (11, ConfirmationKind::JoinSteamFamily),
        (12, ConfirmationKind::Unknown(12)),
    ];
    for (number, kind) in kinds {
        let body = format!(
            r#"{{"success":true,"conf":[[{number},"n","1","2","3",4,"no","yes",null,false,"h",[]]]}}"#
        );
        assert_eq!(parse_confirmations(&body).unwrap()[0].listed.kind, kind);
    }
}

#[test]
fn a_missing_list_is_empty_and_a_bad_one_is_an_error() {
    assert!(parse_confirmations(r#"{"success":true}"#).unwrap().is_empty());
    assert!(parse_confirmations(r#"{"success":true,"conf":[]}"#).unwrap().is_empty());
    for body in [
        r#"{"success":true,"conf":{}}"#,
        r#"{"success":true,"conf":[{"type":2}]}"#,
        r#"{"success":true,"conf":null}"#,
    ] {
        let error = parse_confirmations(body).unwrap_err();
        assert!(!error.retryable);
        assert!(error.message.contains("неподдерживаемый формат"));
    }
    assert!(parse_confirmations("").unwrap_err().retryable);
    assert!(!parse_confirmations(r#"{"needauth":true}"#).unwrap_err().retryable);
    assert!(listed_confirmations(Some(None)).is_err());
    assert!(listed_confirmations(None).unwrap().is_empty());
}

#[test]
fn the_list_is_asked_for_at_most_three_times() {
    let again = MobileResponseError::new("later".to_owned(), true);
    assert_eq!(after_failed_attempt(0, &again), Some(400));
    assert_eq!(after_failed_attempt(1, &again), Some(900));
    assert_eq!(after_failed_attempt(2, &again), None);
    let never = MobileResponseError::new("no".to_owned(), false);
    assert_eq!(after_failed_attempt(0, &never), None);
}

#[test]
fn network_errors_are_told() {
    let error = send_error("reset", false, true, false);
    assert_eq!(error.message, "Не удалось загрузить подтверждения Steam: reset");
    assert!(error.retryable);
    assert!(!send_error("reset", false, false, false).retryable);
    let error = read_mobile_response_checked(200, Err("cut".to_owned())).unwrap_err();
    assert_eq!(error.message, "Не удалось прочитать ответ Steam: cut");
    assert!(error.retryable);
    let refused = read_mobile_response(500, Ok(r#"{"success":true}"#.to_owned())).unwrap_err();
    assert_eq!(
        refused,
        "Steam не принял запрос (HTTP 500). Попробуйте обновить подтверждения позже"
    );
    let refused = read_mobile_response(200, Ok(r#"{"success":false,"detail":"no"}"#.to_owned()));
    assert_eq!(refused.unwrap_err(), "no");
    assert!(read_mobile_response(200, Ok(r#"{"success":true}"#.to_owned())).is_ok());
    assert_eq!(
        time_error("outer", &["inner".to_owned()]),
        "Не удалось получить время Steam: outer: inner"
    );
}

#[test]
fn causes_are_told_once() {
    let causes = vec![
        "outer".to_owned(),
        "timed out".to_owned(),
        "timed".to_owned(),
    ];
    assert_eq!(error_chain("outer failure", &causes), "outer failure: timed out");
    assert_eq!(error_chain("alone", &[]), "alone");
}

#[test]
fn asking_again_is_offered_exactly_where_there_is_no_json() {
    for (text, retryable) in [
        ("", true),
        (" \t\r\n", true),
        ("\u{a0}\u{2003}", true),
        ("<html>", true),
        ("null", false),
        ("[]", false),
        (r#"{"success":false,"message":"no"}"#, false),
    ] {
        assert_eq!(parse_mobile_body(text).unwrap_err().retryable, retryable);
    }
}
