use std::collections::HashMap;

use base64::engine::general_purpose::STANDARD as BASE64;
use base64::Engine as _;
use morty_steam_auth::account::{MobileAccount, Tokens};
use morty_steam_auth::confirmation::ConfirmationTarget;
use morty_steam_auth::request::{
    batch_response_params, community_cookie, confirmation_params, response_params,
};
use reqwest::blocking::Client;

#[test]
fn response_request_signs_accept_and_reject_and_encodes_hash() {
    let account = MobileAccount {
        steam_id: 76561198000000001,
        device_id: "android:test".to_owned(),
        identity_secret: BASE64.encode((0_u8..20).collect::<Vec<_>>()),
        ..Default::default()
    };
    // Reference HMAC-SHA1 vectors calculated independently with Python's hmac.
    for (accept, op, tag, hash) in [
        (true, "allow", "accept", "0bBIomcF2qVl/zF4isGPy7YSJTs="),
        (false, "cancel", "reject", "0E4Gy/o/DiuW/fzukIVNb6S6rAg="),
    ] {
        let params = response_params(&account, 1700000000, "123", "456", accept).unwrap();
        let request = Client::new()
            .get("https://steamcommunity.com/mobileconf/ajaxop")
            .query(&params)
            .build()
            .unwrap();
        let query: HashMap<_, _> = request.url().query_pairs().collect();
        assert_eq!(query["op"], op);
        assert_eq!(query["tag"], tag);
        assert_eq!(query["k"], hash);
        assert_eq!(query["cid"], "123");
        assert_eq!(query["ck"], "456");
    }
    assert!(confirmation_params(&MobileAccount::default(), 1, "reject").is_err());
}

#[test]
fn batch_request_preserves_confirmation_key_pairs_and_signature() {
    let account = MobileAccount {
        device_id: "android:test".to_owned(),
        identity_secret: BASE64.encode((0_u8..20).collect::<Vec<_>>()),
        ..Default::default()
    };
    let targets = vec![
        ConfirmationTarget {
            load_id: 1,
            id: "12".to_owned(),
            nonce: "34".to_owned(),
        },
        ConfirmationTarget {
            load_id: 1,
            id: "56".to_owned(),
            nonce: "78".to_owned(),
        },
    ];
    for (accept, tag, op, hash) in [
        (true, "accept", "allow", "0bBIomcF2qVl/zF4isGPy7YSJTs="),
        (false, "reject", "cancel", "0E4Gy/o/DiuW/fzukIVNb6S6rAg="),
    ] {
        let params = batch_response_params(&account, 1700000000, &targets, accept).unwrap();
        let request = Client::new()
            .post("https://steamcommunity.com/mobileconf/multiajaxop")
            .form(&params)
            .build()
            .unwrap();
        let bytes = request.body().unwrap().as_bytes().unwrap();
        let body = std::str::from_utf8(bytes).unwrap();
        let url = reqwest::Url::parse(&format!("https://example.invalid/?{body}")).unwrap();
        let pairs: Vec<_> = url.query_pairs().collect();
        assert_eq!(
            pairs
                .iter()
                .filter(|(key, _)| key == "cid[]")
                .map(|(_, value)| value.as_ref())
                .collect::<Vec<_>>(),
            vec!["12", "56"]
        );
        assert_eq!(
            pairs
                .iter()
                .filter(|(key, _)| key == "ck[]")
                .map(|(_, value)| value.as_ref())
                .collect::<Vec<_>>(),
            vec!["34", "78"]
        );
        let query: HashMap<_, _> = pairs.into_iter().collect();
        assert_eq!(query["tag"], tag);
        assert_eq!(query["op"], op);
        assert_eq!(query["k"], hash);
    }
}

fn signing_account() -> MobileAccount {
    MobileAccount {
        steam_id: 76561198000000001,
        device_id: "android:test".to_owned(),
        identity_secret: BASE64.encode((0_u8..20).collect::<Vec<_>>()),
        ..Default::default()
    }
}

#[test]
fn every_request_carries_the_same_parameters() {
    let params = confirmation_params(&signing_account(), 1700000000, "conf").unwrap();
    assert_eq!(
        params,
        vec![
            ("p", "android:test".to_owned()),
            ("a", "76561198000000001".to_owned()),
            ("k", "MnyTnNQlGkbWQN0NCU9mCTxb/Ec=".to_owned()),
            ("t", "1700000000".to_owned()),
            ("m", "react".to_owned()),
            ("tag", "conf".to_owned()),
        ]
    );
}

#[test]
fn only_the_beginning_of_a_long_tag_is_signed() {
    let tag = "x".repeat(40);
    let params = confirmation_params(&signing_account(), 1700000000, &tag).unwrap();
    assert_eq!(params[2].1, "3GPWEmnXHqkoTn2Zp+nS3K5eW5U=");
    assert_eq!(params[5].1, tag);
}

#[test]
fn an_account_that_cannot_sign_says_why() {
    let mut account = signing_account();
    account.device_id.clear();
    assert_eq!(
        confirmation_params(&account, 1, "conf").unwrap_err(),
        "В maFile не хватает данных для подтверждений"
    );
    account = signing_account();
    account.identity_secret.clear();
    assert_eq!(
        response_params(&account, 1, "1", "2", true).unwrap_err(),
        "В maFile не хватает данных для подтверждений"
    );
    account.identity_secret = "no base64!".to_owned();
    assert_eq!(
        batch_response_params(&account, 1, &[], true).unwrap_err(),
        "Некорректный identity_secret в maFile"
    );
}

#[test]
fn a_bulk_answer_to_one_is_signed_like_a_single_answer() {
    let target = ConfirmationTarget {
        load_id: 1,
        id: "12".to_owned(),
        nonce: "34".to_owned(),
    };
    let single = response_params(&signing_account(), 5, "12", "34", true).unwrap();
    let bulk = batch_response_params(&signing_account(), 5, &[target], true).unwrap();
    assert_eq!(single[..7], bulk[..7]);
    assert_eq!(single[7].1, bulk[7].1);
    assert_eq!(single[8].1, bulk[8].1);
}

#[test]
fn the_cookie_carries_the_session() {
    let mut account = signing_account();
    assert_eq!(community_cookie(&account).unwrap_err(), "Нужна авторизация Steam");
    account.tokens = Some(Tokens {
        access_token: "a.b.c".to_owned(),
        refresh_token: "r".to_owned(),
    });
    assert_eq!(
        community_cookie(&account).unwrap(),
        "steamLoginSecure=76561198000000001%7C%7Ca.b.c; steamid=76561198000000001"
    );
    account.tokens = Some(Tokens {
        access_token: "a\nb".to_owned(),
        refresh_token: "r".to_owned(),
    });
    assert_eq!(community_cookie(&account).unwrap_err(), "Некорректная сессия Steam");
}
