//! The vault: the accounts under a key that a password yields.
//!
//! The library frames and checks bytes: what the bytes of an opened vault hold
//! is for the caller to read.
use vstd::prelude::*;
use vstd::utf8::encode_utf8;

use crate::crypto::{
    aes_gcm_opened, aes_gcm_sealed, argon2_key, base64_decoded, base64_encoded, decode_base64,
    decrypt_aes_gcm, derive_argon2, encodable, encode_base64, encrypt_aes_gcm, random_bytes, wipe_bytes,
    wipe_key,
};
use crate::text::concat2;

verus! {

/// A vault as it is stored: the version of the format, and in Base64 the salt
/// of its password, the nonce of its cipher and the encrypted bytes.
#[derive(Debug, PartialEq, Eq)]
pub struct VaultEnvelope {
    pub version: u8,
    pub salt: String,
    pub nonce: String,
    pub ciphertext: String,
}

/// The mathematical form of a stored vault.
pub struct EnvelopeView {
    pub version: u8,
    pub salt: Seq<char>,
    pub nonce: Seq<char>,
    pub ciphertext: Seq<char>,
}

impl View for VaultEnvelope {
    type V = EnvelopeView;

    open spec fn view(&self) -> EnvelopeView {
        EnvelopeView {
            version: self.version,
            salt: self.salt@,
            nonce: self.nonce@,
            ciphertext: self.ciphertext@,
        }
    }
}

/// An opened vault: its bytes, and what it is sealed with again.
#[derive(Debug, PartialEq, Eq)]
pub struct OpenedVault {
    pub plaintext: Vec<u8>,
    pub key: [u8; 32],
    pub salt: [u8; 16],
}

/// The mathematical form of an opened vault.
pub struct OpenedView {
    pub plaintext: Seq<u8>,
    pub key: Seq<u8>,
    pub salt: Seq<u8>,
}

impl View for OpenedVault {
    type V = OpenedView;

    open spec fn view(&self) -> OpenedView {
        OpenedView { plaintext: self.plaintext@, key: self.key@, salt: self.salt@ }
    }
}

/// The version of the format that is written and read.
pub const VAULT_VERSION: u8 = 1;

// ---------------------------------------------------------------------------
// The place
// ---------------------------------------------------------------------------

/// Where the vault lies: in the folder of an earlier version, in the
/// application's own folder, or in the folder that it was started in.
#[derive(Clone, Copy, Debug, PartialEq, Eq, Structural)]
pub enum VaultPlace {
    Legacy,
    Current,
    WorkingFolder,
}

/// Where the vault lies, given whether there is one in the folder of an earlier
/// version and whether the system tells the application a folder of its own.
pub fn vault_place(legacy_exists: bool, has_folder: bool) -> (r: VaultPlace)
    ensures
        r == if legacy_exists {
            VaultPlace::Legacy
        } else if has_folder {
            VaultPlace::Current
        } else {
            VaultPlace::WorkingFolder
        },
{
    if legacy_exists {
        VaultPlace::Legacy
    } else if has_folder {
        VaultPlace::Current
    } else {
        VaultPlace::WorkingFolder
    }
}

// ---------------------------------------------------------------------------
// The key
// ---------------------------------------------------------------------------

/// The key that a password yields with a salt, or why it yields none.
pub open spec fn vault_key(password: Seq<char>, salt: Seq<u8>) -> Result<Seq<u8>, Seq<char>> {
    match argon2_key(encode_utf8(password), salt) {
        Ok(key) => Ok(key),
        Err(error) => Err("Не удалось создать ключ: "@ + error),
    }
}

/// The key that a password yields with a salt.
pub fn derive_key(password: &str, salt: &[u8; 16]) -> (r: Result<[u8; 32], String>)
    ensures
        match r {
            Ok(key) => vault_key(password@, salt@) == Ok::<Seq<u8>, Seq<char>>(key@),
            Err(message) => vault_key(password@, salt@) == Err::<Seq<u8>, Seq<char>>(message@),
        },
        r is Ok <==> encode_utf8(password@).len() <= u32::MAX,
{
    match derive_argon2(password.as_bytes(), salt) {
        Ok(key) => Ok(key),
        Err(error) => Err(concat2("Не удалось создать ключ: ", error.as_str())),
    }
}

/// A new salt, or why the system has no random bytes for one. Which bytes they
/// are, and whether there are any, is up to the system.
pub fn new_salt() -> (r: Result<[u8; 16], String>)
    ensures
        exists|random: Result<[u8; 16], String>| #[trigger] is_salt_from(random, r),
{
    let random = random_bytes::<16>();
    let ghost drawn = random;
    let salt = salt_from(random);
    assert(is_salt_from(drawn, salt));
    salt
}

/// Whether `salt` is what a new salt becomes, given the random bytes that the
/// system had for it or the error that it gave instead.
pub open spec fn is_salt_from(
    random: Result<[u8; 16], String>,
    salt: Result<[u8; 16], String>,
) -> bool {
    match random {
        Ok(bytes) => salt == Ok::<[u8; 16], String>(bytes),
        Err(error) => salt matches Err(message) && message@ == "Не удалось создать соль: "@
            + error@,
    }
}

/// The salt made of the random bytes that the system had for it, or why there
/// is none.
pub fn salt_from(random: Result<[u8; 16], String>) -> (r: Result<[u8; 16], String>)
    ensures
        is_salt_from(random, r),
{
    match random {
        Ok(bytes) => Ok(bytes),
        Err(error) => Err(concat2("Не удалось создать соль: ", error.as_str())),
    }
}

// ---------------------------------------------------------------------------
// Sealing
// ---------------------------------------------------------------------------

/// Whether a vault of that many bytes fits this machine once it is sealed.
pub open spec fn is_sealable(count: nat) -> bool {
    encodable(count + 16)
}

/// Whether a vault of that many bytes fits this machine once it is sealed.
pub fn fits_when_sealed(count: usize) -> (r: bool)
    ensures
        r == is_sealable(count as nat),
{
    count <= isize::MAX as usize - 16 && (count + 16) / 3 < isize::MAX as usize / 4
}

/// Whether an envelope is what sealing the bytes yields, and opens again.
pub open spec fn is_sealed(
    envelope: EnvelopeView,
    plaintext: Seq<u8>,
    key: Seq<u8>,
    salt: Seq<u8>,
    nonce: Seq<u8>,
) -> bool {
    let ciphertext = aes_gcm_sealed(key, nonce, plaintext);
    &&& ciphertext is Some
    &&& envelope == EnvelopeView {
        version: VAULT_VERSION,
        salt: base64_encoded(salt),
        nonce: base64_encoded(nonce),
        ciphertext: base64_encoded(ciphertext->0),
    }
    &&& base64_decoded(envelope.salt) == Some(salt)
    &&& base64_decoded(envelope.nonce) == Some(nonce)
    &&& base64_decoded(envelope.ciphertext) == ciphertext
    &&& aes_gcm_opened(key, nonce, ciphertext->0) == Some(plaintext)
}

/// The most bytes that one vault can hold.
pub const MAX_VAULT_BYTES: u64 = 0x10_0000_0000;

/// The vault of these bytes, sealed with a nonce that was used for no other.
pub fn seal_with_nonce(plaintext: &[u8], key: &[u8; 32], salt: &[u8; 16], nonce: &[u8; 12]) -> (r:
    Result<VaultEnvelope, String>)
    requires
        is_sealable(plaintext@.len()),
    ensures
        r is Ok <==> plaintext@.len() <= MAX_VAULT_BYTES,
        match r {
            Ok(envelope) => is_sealed(envelope@, plaintext@, key@, salt@, nonce@),
            Err(message) => message@ == "Не удалось зашифровать хранилище"@,
        },
{
    let ciphertext = match encrypt_aes_gcm(key, nonce, plaintext) {
        Some(ciphertext) => ciphertext,
        None => return Err("Не удалось зашифровать хранилище".to_owned()),
    };
    Ok(
        VaultEnvelope {
            version: VAULT_VERSION,
            salt: encode_base64(salt.as_slice()),
            nonce: encode_base64(nonce.as_slice()),
            ciphertext: encode_base64(ciphertext.as_slice()),
        },
    )
}

/// The vault of these bytes, sealed with a nonce of random bytes; the bytes
/// themselves are wiped. Whether the system has random bytes, and which, is up
/// to it.
pub fn seal_vault(plaintext: Vec<u8>, key: &[u8; 32], salt: &[u8; 16]) -> (r: Result<
    VaultEnvelope,
    String,
>)
    requires
        is_sealable(plaintext@.len()),
    ensures
        match r {
            Ok(envelope) => plaintext@.len() <= MAX_VAULT_BYTES && exists|nonce: Seq<u8>|
                nonce.len() == 12 && #[trigger] is_sealed(
                    envelope@,
                    plaintext@,
                    key@,
                    salt@,
                    nonce,
                ),
            Err(message) => (plaintext@.len() > MAX_VAULT_BYTES && message@
                == "Не удалось зашифровать хранилище"@) || exists|error: Seq<char>| #[trigger]
                ("Не удалось создать nonce: "@ + error) == message@,
        },
{
    let mut plaintext = plaintext;
    let nonce: [u8; 12] = match random_bytes::<12>() {
        Ok(nonce) => nonce,
        Err(error) => {
            let message = concat2("Не удалось создать nonce: ", error.as_str());
            assert("Не удалось создать nonce: "@ + error@ == message@);
            return Err(message);
        },
    };
    match seal_with_nonce(plaintext.as_slice(), key, salt, &nonce) {
        Ok(envelope) => {
            assert(nonce@.len() == 12);
            wipe_bytes(&mut plaintext);
            Ok(envelope)
        },
        Err(message) => Err(message),
    }
}

// ---------------------------------------------------------------------------
// Opening
// ---------------------------------------------------------------------------

/// What a stored vault holds under a password, or why it does not open.
pub open spec fn opened(envelope: EnvelopeView, password: Seq<char>) -> Result<
    OpenedView,
    Seq<char>,
> {
    let salt = base64_decoded(envelope.salt);
    let nonce = base64_decoded(envelope.nonce);
    let ciphertext = base64_decoded(envelope.ciphertext);
    if envelope.version != VAULT_VERSION {
        Err("Эта версия хранилища пока не поддерживается"@)
    } else if salt is None {
        Err("Соль хранилища повреждена"@)
    } else if salt->0.len() != 16 {
        Err("Соль хранилища имеет неверный размер"@)
    } else if nonce is None {
        Err("Nonce хранилища повреждён"@)
    } else if nonce->0.len() != 12 {
        Err("Nonce хранилища имеет неверный размер"@)
    } else if ciphertext is None {
        Err("Данные хранилища повреждены"@)
    } else {
        match vault_key(password, salt->0) {
            Err(message) => Err(message),
            Ok(key) => match aes_gcm_opened(key, nonce->0, ciphertext->0) {
                Some(plaintext) => Ok(OpenedView { plaintext, key, salt: salt->0 }),
                None => Err("Неверный пароль или хранилище повреждено"@),
            },
        }
    }
}

fn salt_of(bytes: &[u8]) -> (r: Option<[u8; 16]>)
    ensures
        r is Some <==> bytes@.len() == 16,
        r matches Some(salt) ==> salt@ == bytes@,
{
    if bytes.len() != 16 {
        return None;
    }
    let salt: [u8; 16] = [
        bytes[0], bytes[1], bytes[2], bytes[3], bytes[4], bytes[5], bytes[6], bytes[7], bytes[8],
        bytes[9], bytes[10], bytes[11], bytes[12], bytes[13], bytes[14], bytes[15],
    ];
    assert(salt@ =~= bytes@);
    Some(salt)
}

fn nonce_of(bytes: &[u8]) -> (r: Option<[u8; 12]>)
    ensures
        r is Some <==> bytes@.len() == 12,
        r matches Some(nonce) ==> nonce@ == bytes@,
{
    if bytes.len() != 12 {
        return None;
    }
    let nonce: [u8; 12] = [
        bytes[0], bytes[1], bytes[2], bytes[3], bytes[4], bytes[5], bytes[6], bytes[7], bytes[8],
        bytes[9], bytes[10], bytes[11],
    ];
    assert(nonce@ =~= bytes@);
    Some(nonce)
}

/// What a stored vault holds under a password.
pub fn open_vault(envelope: &VaultEnvelope, password: &str) -> (r: Result<OpenedVault, String>)
    ensures
        match r {
            Ok(vault) => opened(envelope@, password@) == Ok::<OpenedView, Seq<char>>(vault@),
            Err(message) => opened(envelope@, password@) == Err::<OpenedView, Seq<char>>(message@),
        },
{
    if envelope.version != VAULT_VERSION {
        return Err("Эта версия хранилища пока не поддерживается".to_owned());
    }
    let salt: [u8; 16] = match decode_base64(envelope.salt.as_str()) {
        Some(bytes) => match salt_of(bytes.as_slice()) {
            Some(salt) => salt,
            None => return Err("Соль хранилища имеет неверный размер".to_owned()),
        },
        None => return Err("Соль хранилища повреждена".to_owned()),
    };
    let nonce: [u8; 12] = match decode_base64(envelope.nonce.as_str()) {
        Some(bytes) => match nonce_of(bytes.as_slice()) {
            Some(nonce) => nonce,
            None => return Err("Nonce хранилища имеет неверный размер".to_owned()),
        },
        None => return Err("Nonce хранилища повреждён".to_owned()),
    };
    let ciphertext = match decode_base64(envelope.ciphertext.as_str()) {
        Some(bytes) => bytes,
        None => return Err("Данные хранилища повреждены".to_owned()),
    };
    let mut key: [u8; 32] = match derive_key(password, &salt) {
        Ok(key) => key,
        Err(message) => return Err(message),
    };
    match decrypt_aes_gcm(&key, &nonce, ciphertext.as_slice()) {
        Some(plaintext) => Ok(OpenedVault { plaintext, key, salt }),
        None => {
            wipe_key(&mut key);
            Err("Неверный пароль или хранилище повреждено".to_owned())
        },
    }
}

/// A sealed vault opens with the password that its key came from, and holds the
/// bytes that were sealed, under the same key and salt.
pub proof fn sealed_vault_opens(
    envelope: EnvelopeView,
    plaintext: Seq<u8>,
    password: Seq<char>,
    key: Seq<u8>,
    salt: Seq<u8>,
    nonce: Seq<u8>,
)
    requires
        salt.len() == 16,
        nonce.len() == 12,
        vault_key(password, salt) == Ok::<Seq<u8>, Seq<char>>(key),
        is_sealed(envelope, plaintext, key, salt, nonce),
    ensures
        opened(envelope, password) == Ok::<OpenedView, Seq<char>>(
            OpenedView { plaintext, key, salt },
        ),
{
}

/// A stored vault opens exactly where it is of version 1, its salt is sixteen
/// bytes and its nonce twelve, its bytes can be decoded, the password yields a
/// key with that salt, and the key opens the bytes under that nonce. What comes
/// out is what the key opened, the key, and the stored salt.
pub proof fn vaults_open_under_their_own_salt_and_nonce(
    envelope: EnvelopeView,
    password: Seq<char>,
    salt: Seq<u8>,
    nonce: Seq<u8>,
    ciphertext: Seq<u8>,
)
    requires
        base64_decoded(envelope.salt) == Some(salt),
        base64_decoded(envelope.nonce) == Some(nonce),
        base64_decoded(envelope.ciphertext) == Some(ciphertext),
    ensures
        opened(envelope, password) is Ok <==> {
            &&& envelope.version == 1
            &&& salt.len() == 16
            &&& nonce.len() == 12
            &&& argon2_key(encode_utf8(password), salt) is Ok
            &&& aes_gcm_opened(argon2_key(encode_utf8(password), salt)->Ok_0, nonce, ciphertext) is Some
        },
        opened(envelope, password) matches Ok(vault) ==> {
            &&& vault.salt == salt
            &&& argon2_key(encode_utf8(password), salt) == Ok::<Seq<u8>, Seq<char>>(vault.key)
            &&& aes_gcm_opened(vault.key, nonce, ciphertext) == Some(vault.plaintext)
        },
        envelope.version == 1 && salt.len() == 16 && nonce.len() == 12 && (argon2_key(
            encode_utf8(password),
            salt,
        ) matches Ok(key) && aes_gcm_opened(key, nonce, ciphertext) is None) ==> opened(
            envelope,
            password,
        ) == Err::<OpenedView, Seq<char>>("Неверный пароль или хранилище повреждено"@),
{
}

/// A stored vault of another version, or of which a part cannot be decoded, is
/// told apart from one whose password is wrong: the version is told first, then
/// the salt, the nonce and the bytes.
pub proof fn damaged_vaults_are_told_apart(envelope: EnvelopeView, password: Seq<char>)
    ensures
        envelope.version != 1 ==> opened(envelope, password) == Err::<OpenedView, Seq<char>>(
            "Эта версия хранилища пока не поддерживается"@,
        ),
        envelope.version == 1 && base64_decoded(envelope.salt) is None ==> opened(
            envelope,
            password,
        ) == Err::<OpenedView, Seq<char>>("Соль хранилища повреждена"@),
        envelope.version == 1 && (base64_decoded(envelope.salt) matches Some(salt) && salt.len()
            != 16) ==> opened(envelope, password) == Err::<OpenedView, Seq<char>>(
            "Соль хранилища имеет неверный размер"@,
        ),
        envelope.version == 1 && (base64_decoded(envelope.salt) matches Some(salt) && salt.len()
            == 16) && base64_decoded(envelope.nonce) is None ==> opened(envelope, password) == Err::<
            OpenedView,
            Seq<char>,
        >("Nonce хранилища повреждён"@),
        envelope.version == 1 && (base64_decoded(envelope.salt) matches Some(salt) && salt.len()
            == 16) && (base64_decoded(envelope.nonce) matches Some(nonce) && nonce.len() != 12)
            ==> opened(envelope, password) == Err::<OpenedView, Seq<char>>(
            "Nonce хранилища имеет неверный размер"@,
        ),
        envelope.version == 1 && (base64_decoded(envelope.salt) matches Some(salt) && salt.len()
            == 16) && (base64_decoded(envelope.nonce) matches Some(nonce) && nonce.len() == 12)
            && base64_decoded(envelope.ciphertext) is None ==> opened(envelope, password) == Err::<
            OpenedView,
            Seq<char>,
        >("Данные хранилища повреждены"@),
{
}

/// What is stored of a sealed vault is its salt, its nonce and its encrypted
/// bytes, each to be decoded again, under version 1: never the key, and never
/// the bytes themselves.
pub proof fn sealed_vaults_store_what_opens_them(
    envelope: EnvelopeView,
    plaintext: Seq<u8>,
    key: Seq<u8>,
    salt: Seq<u8>,
    nonce: Seq<u8>,
)
    requires
        is_sealed(envelope, plaintext, key, salt, nonce),
    ensures
        envelope.version == 1,
        base64_decoded(envelope.salt) == Some(salt),
        base64_decoded(envelope.nonce) == Some(nonce),
        base64_decoded(envelope.ciphertext) == aes_gcm_sealed(key, nonce, plaintext),
        aes_gcm_sealed(key, nonce, plaintext) is Some,
{
}

/// The key of a vault is what its password yields with its salt, both as they
/// are: neither is trimmed, folded or shortened first.
pub proof fn keys_come_from_password_and_salt(password: Seq<char>, salt: Seq<u8>)
    ensures
        vault_key(password, salt) is Ok <==> argon2_key(encode_utf8(password), salt) is Ok,
        vault_key(password, salt) matches Ok(key) ==> argon2_key(encode_utf8(password), salt)
            == Ok::<Seq<u8>, Seq<char>>(key),
{
}

} // verus!
