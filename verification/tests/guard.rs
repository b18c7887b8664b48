use base64::engine::general_purpose::STANDARD as BASE64;
use base64::Engine as _;
use morty_steam_auth::account::{account_from_steam, MobileAccount};
use morty_steam_auth::guard::{generate_code, steam_device_id, steam_guard_code};

#[test]
fn generated_code_has_steam_format() {
    let secret = BASE64.encode(b"test shared secret");
    let code = steam_guard_code(&secret, 1_700_000_000).unwrap();
    assert_eq!(code.len(), 5);
    assert!(code
        .bytes()
        .all(|character| b"23456789BCDFGHJKMNPQRTVWXY".contains(&character)));
}

#[test]
fn codes_match_known_values() {
    assert_eq!(
        steam_guard_code("zvIayp3JPvtvX/QGHqsqKBk/44s=", 1_616_374_841).unwrap(),
        "2F9J5"
    );
    assert_eq!(
        steam_guard_code(&BASE64.encode(b"test shared secret"), 1_700_000_000).unwrap(),
        "R7RKP"
    );
    assert_eq!(generate_code(&[1; 20], 1_700_000_000).unwrap(), "73FVW");
}

#[test]
fn a_code_stays_for_its_period() {
    let secret = BASE64.encode([1_u8; 20]);
    let first = steam_guard_code(&secret, 1_699_999_980).unwrap();
    assert_eq!(steam_guard_code(&secret, 1_700_000_009).unwrap(), first);
    assert_ne!(steam_guard_code(&secret, 1_700_000_010).unwrap(), first);
}

#[test]
fn a_bad_secret_has_no_code() {
    assert_eq!(
        steam_guard_code("no base64!", 0).unwrap_err(),
        "Некорректный shared_secret"
    );
}

#[test]
fn device_identifiers_match_known_values() {
    assert_eq!(
        steam_device_id(76561198000000001),
        "android:ca748b58-133d-73d0-adcd-109baa02c0fa"
    );
    assert_eq!(
        steam_device_id(0),
        "android:b6589fc6-ab0d-c82c-f120-99d1c2d40ab9"
    );
}

#[test]
fn the_entry_of_an_authenticator_carries_its_secret() {
    let entry = account_from_steam(MobileAccount {
        account_name: "name".to_owned(),
        steam_id: 76561198000000001,
        shared_secret: [1; 20],
        ..Default::default()
    });
    assert_eq!(entry.name, "name");
    assert_eq!(entry.steam_id.as_deref(), Some("76561198000000001"));
    assert_eq!(entry.shared_secret, "AQEBAQEBAQEBAQEBAQEBAQEBAQE=");
    assert_eq!(entry.mobile.unwrap().steam_id, 76561198000000001);
}
