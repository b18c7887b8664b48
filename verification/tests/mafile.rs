use base64::engine::general_purpose::STANDARD as BASE64;
use base64::Engine as _;
use morty_steam_auth::account::{MobileAccount, Tokens};
use morty_steam_auth::json::parse_json;
use morty_steam_auth::mafile::{
    account_from_json, exported_mafile, is_mafile_extension, json_id, json_string, parse_mafile,
    suggested_name,
};

#[test]
fn imports_sda_session_steam_id_and_generates_device_id() {
    let data = format!(
        r#"{{"account_name":"sda_test","shared_secret":"{}","identity_secret":"{}","device_id":"","Session":{{"SteamID":"76561198000000001"}}}}"#,
        BASE64.encode([1_u8; 20]),
        BASE64.encode([2_u8; 20]),
    );
    let account = parse_mafile(
        data.as_bytes(),
        "/tmp/76561198000000001-1.maFile",
        Some("76561198000000001-1"),
    )
    .unwrap();
    let mobile = account.mobile.expect("full SDA maFile must support login");
    assert_eq!(mobile.steam_id, 76561198000000001);
    assert!(mobile.device_id.starts_with("android:"));
}

fn secret(byte: u8, count: usize) -> String {
    BASE64.encode(vec![byte; count])
}

#[test]
fn a_full_file_is_imported_as_it_is() {
    let data = format!(
        r#"{{"AccountName":"other","steamid":76561198000000002,"shared_secret":"{}","identity_secret":"{}",
        "device_id":"android:own","serial_number":"s","revocation_code":"R1","token_gid":"g","uri":"otpauth://x",
        "secret_1":"c2VjcmV0","tokens":{{"access_token":"a","refresh_token":"r"}}}}"#,
        secret(1, 20),
        secret(2, 20),
    );
    let account = parse_mafile(data.as_bytes(), "a.maFile", Some("a")).unwrap();
    assert_eq!(account.name, "other");
    assert_eq!(account.steam_id.as_deref(), Some("76561198000000002"));
    assert_eq!(account.shared_secret, secret(1, 20));
    assert_eq!(
        account.mobile,
        Some(MobileAccount {
            account_name: "other".to_owned(),
            steam_id: 76561198000000002,
            serial_number: "s".to_owned(),
            revocation_code: "R1".to_owned(),
            shared_secret: [1; 20],
            token_gid: "g".to_owned(),
            identity_secret: secret(2, 20),
            uri: "otpauth://x".to_owned(),
            device_id: "android:own".to_owned(),
            secret_1: "c2VjcmV0".to_owned(),
            tokens: Some(Tokens {
                access_token: "a".to_owned(),
                refresh_token: "r".to_owned(),
            }),
        })
    );
}

#[test]
fn the_number_and_the_name_have_fallbacks() {
    let bare = format!(r#"{{"shared_secret":"{}"}}"#, secret(1, 20));
    let account = parse_mafile(bare.as_bytes(), "p", Some("76561198000000003")).unwrap();
    assert_eq!(account.steam_id.as_deref(), Some("76561198000000003"));
    assert_eq!(account.name, "76561198000000003");
    assert!(account.mobile.is_none());
    let account = parse_mafile(bare.as_bytes(), "p", Some("backup")).unwrap();
    assert_eq!(account.steam_id, None);
    assert_eq!(account.name, "backup");
    let account = parse_mafile(bare.as_bytes(), "p", None).unwrap();
    assert_eq!(account.name, "Steam account");
    let zero = format!(
        r#"{{"shared_secret":"{}","SteamID":0,"Session":{{"SteamID":"0"}},"account_name":""}}"#,
        secret(1, 20)
    );
    let account = parse_mafile(zero.as_bytes(), "p", Some("12")).unwrap();
    assert_eq!(account.steam_id.as_deref(), Some("12"));
    assert_eq!(account.name, "12");
    let null = format!(
        r#"{{"shared_secret":"{}","SteamID":null,"steamid":"7"}}"#,
        secret(1, 20)
    );
    assert_eq!(parse_mafile(null.as_bytes(), "p", None).unwrap().steam_id, None);
}

#[test]
fn sessions_are_read_in_both_notations_and_bad_ones_dropped() {
    let tokens = |notation: &str| {
        let data = format!(
            r#"{{"SteamID":"1","shared_secret":"{}","identity_secret":"{}","tokens":{notation}}}"#,
            secret(1, 20),
            secret(2, 20),
        );
        parse_mafile(data.as_bytes(), "p", None).unwrap().mobile.unwrap().tokens
    };
    let both = Some(Tokens {
        access_token: "a".to_owned(),
        refresh_token: "r".to_owned(),
    });
    assert_eq!(tokens(r#"{"refresh_token":"r","access_token":"a","more":1}"#), both);
    assert_eq!(tokens(r#"["a","r"]"#), both);
    for bad in [
        "null",
        r#"["a"]"#,
        r#"["a","r","x"]"#,
        r#"{"access_token":"a"}"#,
        r#"{"access_token":1,"refresh_token":"r"}"#,
        r#""a""#,
    ] {
        assert_eq!(tokens(bad), None);
    }
}

#[test]
fn a_bad_file_says_why() {
    let refused = |data: &str| parse_mafile(data.as_bytes(), "x.maFile", None).unwrap_err();
    assert!(refused("{").starts_with("x.maFile: неверный JSON ("));
    assert_eq!(refused("{}"), "x.maFile: отсутствует shared_secret");
    assert_eq!(
        refused(r#"{"shared_secret":""}"#),
        "x.maFile: отсутствует shared_secret"
    );
    assert_eq!(
        refused(r#"{"shared_secret":"?"}"#),
        "x.maFile: shared_secret не является Base64"
    );
    assert_eq!(
        refused(&format!(r#"{{"shared_secret":"{}"}}"#, secret(1, 19))),
        "x.maFile: shared_secret имеет неверную длину"
    );
    assert_eq!(
        refused(&format!(
            r#"{{"shared_secret":"{}","identity_secret":"?"}}"#,
            secret(1, 20)
        )),
        "x.maFile: identity_secret не является Base64"
    );
}

#[test]
fn json_fields_are_read_as_text() {
    let json = parse_json(r#"{"a":"x","b":1,"SteamID":12.5}"#).unwrap();
    assert_eq!(json_string(&json, "a"), "x");
    assert_eq!(json_string(&json, "b"), "");
    assert_eq!(json_id(&json).as_deref(), Some("12.5"));
    let account = account_from_json(&json, None, "p", None);
    assert_eq!(account.unwrap_err(), "p: отсутствует shared_secret");
}

#[test]
fn a_backup_is_imported_as_the_same_account() {
    let mobile = MobileAccount {
        account_name: "name".to_owned(),
        steam_id: 76561198000000001,
        serial_number: "serial".to_owned(),
        revocation_code: "R12345".to_owned(),
        shared_secret: [9; 20],
        token_gid: "gid".to_owned(),
        identity_secret: secret(2, 20),
        uri: "otpauth://totp/Steam:name?secret=\"quoted\"".to_owned(),
        device_id: "android:device".to_owned(),
        secret_1: "c2VjcmV0".to_owned(),
        tokens: Some(Tokens {
            access_token: "a".to_owned(),
            refresh_token: "r".to_owned(),
        }),
    };
    let bytes = exported_mafile(&mobile).unwrap();
    let json = parse_json(std::str::from_utf8(&bytes).unwrap()).unwrap();
    assert_eq!(json_string(&json, "SteamID"), "76561198000000001");
    assert!(json.is_true("fully_enrolled"));
    assert_eq!(json_string(&json, "shared_secret"), secret(9, 20));
    let account = parse_mafile(&bytes, "any", Some("any")).unwrap();
    assert_eq!(account.name, "name");
    assert_eq!(account.steam_id.as_deref(), Some("76561198000000001"));
    assert_eq!(account.mobile.as_ref(), Some(&mobile));
    let signed_out = MobileAccount {
        tokens: None,
        ..mobile
    };
    let bytes = exported_mafile(&signed_out).unwrap();
    assert_eq!(
        parse_mafile(&bytes, "any", None).unwrap().mobile,
        Some(signed_out)
    );
}

#[test]
fn backups_are_named_after_the_account() {
    let mobile = MobileAccount {
        steam_id: 76561198000000001,
        ..Default::default()
    };
    assert_eq!(suggested_name(&mobile), "76561198000000001.maFile");
}

#[test]
fn folders_are_searched_for_both_extensions() {
    for extension in ["mafile", "maFile", "MAFILE", "json", "Json"] {
        assert!(is_mafile_extension(extension));
    }
    for extension in ["", "ma", "jsonx", "txt", "mаfile"] {
        assert!(!is_mafile_extension(extension));
    }
}
