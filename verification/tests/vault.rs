use base64::engine::general_purpose::STANDARD as BASE64;
use base64::Engine as _;
use morty_steam_auth::vault::{
    derive_key, fits_when_sealed, new_salt, open_vault, salt_from, seal_vault, seal_with_nonce,
    vault_place, VaultEnvelope, VaultPlace,
};
use morty_steam_auth::vault_save::{first_save_step, next_save_step, SaveReply, SaveStep};

#[test]
fn vault_round_trip() {
    let salt = [7_u8; 16];
    let key = derive_key("correct horse battery staple", &salt).unwrap();
    let shared_secret = BASE64.encode(b"secret");
    let data = format!(
        r#"{{"accounts":[{{"name":"test","steam_id":"76561198000000000","shared_secret":"{shared_secret}","mobile":null}}]}}"#
    );
    seal_vault(data.clone().into_bytes(), &key, &salt).unwrap();
    let envelope = seal_vault(data.clone().into_bytes(), &key, &salt).unwrap();
    let vault = open_vault(&envelope, "correct horse battery staple").unwrap();
    let loaded: serde_json::Value = serde_json::from_slice(&vault.plaintext).unwrap();
    assert_eq!(loaded["accounts"].as_array().unwrap().len(), 1);
    assert_eq!(loaded["accounts"][0]["name"], "test");
    assert_eq!(vault.plaintext, data.into_bytes());
    assert_eq!(vault.key, key);
    assert_eq!(vault.salt, salt);
}

fn sealed() -> VaultEnvelope {
    let salt = [7_u8; 16];
    let key = derive_key("password", &salt).unwrap();
    seal_with_nonce(b"content", &key, &salt, &[3; 12]).unwrap()
}

#[test]
fn an_envelope_holds_what_it_was_sealed_with() {
    let envelope = sealed();
    assert_eq!(envelope.version, 1);
    assert_eq!(envelope.salt, BASE64.encode([7_u8; 16]));
    assert_eq!(envelope.nonce, BASE64.encode([3_u8; 12]));
    assert_eq!(BASE64.decode(&envelope.ciphertext).unwrap().len(), 7 + 16);
    assert_eq!(open_vault(&envelope, "password").unwrap().plaintext, b"content");
}

#[test]
fn sealing_twice_uses_two_nonces() {
    let salt = [7_u8; 16];
    let key = [9_u8; 32];
    let first = seal_vault(b"content".to_vec(), &key, &salt).unwrap();
    let second = seal_vault(b"content".to_vec(), &key, &salt).unwrap();
    assert_ne!(first.nonce, second.nonce);
    assert_ne!(new_salt().unwrap(), new_salt().unwrap());
}

#[test]
fn a_salt_is_the_random_bytes_or_tells_why_there_are_none() {
    assert_eq!(salt_from(Ok([5; 16])), Ok([5; 16]));
    assert_eq!(
        salt_from(Err("no source".to_owned())),
        Err("Не удалось создать соль: no source".to_owned())
    );
}

#[test]
fn keys_depend_on_password_and_salt() {
    let first = derive_key("password", &[1; 16]).unwrap();
    assert_eq!(derive_key("password", &[1; 16]).unwrap(), first);
    assert_ne!(derive_key("password", &[2; 16]).unwrap(), first);
    assert_ne!(derive_key("Password", &[1; 16]).unwrap(), first);
}

#[test]
fn a_vault_that_does_not_open_says_why() {
    let refused = |change: &dyn Fn(&mut VaultEnvelope), password: &str| {
        let mut envelope = sealed();
        change(&mut envelope);
        open_vault(&envelope, password).unwrap_err()
    };
    assert_eq!(
        refused(&|_| {}, "wrong"),
        "Неверный пароль или хранилище повреждено"
    );
    assert_eq!(
        refused(&|e| e.version = 2, "password"),
        "Эта версия хранилища пока не поддерживается"
    );
    assert_eq!(
        refused(&|e| e.salt = "?".to_owned(), "password"),
        "Соль хранилища повреждена"
    );
    assert_eq!(
        refused(&|e| e.salt = BASE64.encode([7_u8; 15]), "password"),
        "Соль хранилища имеет неверный размер"
    );
    assert_eq!(
        refused(&|e| e.nonce = "?".to_owned(), "password"),
        "Nonce хранилища повреждён"
    );
    assert_eq!(
        refused(&|e| e.nonce = BASE64.encode([3_u8; 13]), "password"),
        "Nonce хранилища имеет неверный размер"
    );
    assert_eq!(
        refused(&|e| e.ciphertext = "?".to_owned(), "password"),
        "Данные хранилища повреждены"
    );
    assert_eq!(
        refused(&|e| e.ciphertext = BASE64.encode([0_u8; 23]), "password"),
        "Неверный пароль или хранилище повреждено"
    );
}

#[test]
fn ordinary_vaults_fit() {
    assert!(fits_when_sealed(0));
    assert!(fits_when_sealed(1 << 20));
    assert!(!fits_when_sealed(usize::MAX));
}

#[test]
fn the_vault_of_an_earlier_version_is_found_first() {
    assert_eq!(vault_place(true, true), VaultPlace::Legacy);
    assert_eq!(vault_place(false, true), VaultPlace::Current);
    assert_eq!(vault_place(false, false), VaultPlace::WorkingFolder);
}

struct Disk {
    vault: Option<&'static str>,
    backup: Option<&'static str>,
    temporary: Option<&'static str>,
}

fn carry_out(disk: &mut Disk, step: &SaveStep, fails: bool) -> SaveReply {
    match step {
        SaveStep::LookForVault => return SaveReply::Found(disk.vault.is_some()),
        SaveStep::LookForBackup => return SaveReply::Found(disk.backup.is_some()),
        _ if fails => return SaveReply::Error("full".to_owned()),
        SaveStep::WriteTemporary => disk.temporary = Some("new"),
        SaveStep::RemoveOldBackup | SaveStep::RemoveBackup => disk.backup = None,
        SaveStep::SetVaultAside => disk.backup = disk.vault.take(),
        SaveStep::PutInPlace | SaveStep::PutFirstInPlace => disk.vault = disk.temporary.take(),
        SaveStep::PutBack { .. } => disk.vault = disk.backup.take(),
        _ => {}
    }
    SaveReply::Done
}

fn save(disk: &mut Disk, failing: &[usize]) -> (SaveStep, usize) {
    let mut step = first_save_step(true);
    let mut count = 0;
    let had_vault = disk.vault.is_some();
    while !matches!(step, SaveStep::Saved | SaveStep::Failed { .. }) {
        let reply = carry_out(disk, &step, failing.contains(&count));
        step = next_save_step(step, reply);
        count += 1;
        assert!(!had_vault || disk.vault.is_some() || disk.backup == Some("old"));
    }
    (step, count)
}

#[test]
fn a_save_puts_the_new_vault_in_place() {
    let mut disk = Disk { vault: None, backup: None, temporary: None };
    assert_eq!(save(&mut disk, &[]).0, SaveStep::Saved);
    assert_eq!(disk.vault, Some("new"));
    let mut disk = Disk { vault: Some("old"), backup: Some("older"), temporary: None };
    let (step, count) = save(&mut disk, &[]);
    assert_eq!(step, SaveStep::Saved);
    assert_eq!(count, 8);
    assert_eq!(disk.vault, Some("new"));
    assert_eq!(disk.backup, None);
}

#[test]
fn a_failed_save_keeps_the_old_vault() {
    let messages = [
        (0, "Не удалось создать папку хранилища: full"),
        (1, "Не удалось сохранить хранилище: full"),
        (4, "Не удалось очистить резервную копию: full"),
        (5, "Не удалось подготовить обновление: full"),
        (6, "Не удалось завершить сохранение: full"),
    ];
    for (at, message) in messages {
        let mut disk = Disk { vault: Some("old"), backup: Some("older"), temporary: None };
        assert_eq!(
            save(&mut disk, &[at]).0,
            SaveStep::Failed { message: message.to_owned() }
        );
        assert_eq!(disk.vault, Some("old"));
    }
    let mut disk = Disk { vault: Some("old"), backup: None, temporary: None };
    let (step, _) = save(&mut disk, &[5, 6]);
    assert!(matches!(step, SaveStep::Failed { .. }));
    assert_eq!(disk.backup, Some("old"));
    let mut disk = Disk { vault: Some("old"), backup: None, temporary: None };
    assert_eq!(save(&mut disk, &[6]).0, SaveStep::Saved);
    assert_eq!(disk.vault, Some("new"));
    let mut disk = Disk { vault: None, backup: None, temporary: None };
    assert_eq!(
        save(&mut disk, &[3]).0,
        SaveStep::Failed { message: "Не удалось завершить сохранение: full".to_owned() }
    );
}
