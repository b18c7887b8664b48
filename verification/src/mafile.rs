//! maFiles: the files in which authenticators are exchanged and kept as a
//! backup.
use vstd::prelude::*;

use crate::account::{Account, AccountView, MobileAccount, MobileView, Tokens, TokensView};
use crate::crypto::{base64_decoded, base64_encoded, decode_base64};
use crate::guard::{device_id_of, steam_device_id};
use crate::json::{
    field_of, json_of, parsed_json_bytes, read_value_bytes, text_field, text_in, value_field,
    value_tree, Json, JsonTree,
};
use crate::text::{
    chars_of, concat2, concat3, decimal, decimal_text, read_number, same_text, spelled_number,
};

verus! {

// ---------------------------------------------------------------------------
// Reading
// ---------------------------------------------------------------------------

/// The session tokens that a JSON value holds, by name or as a row of two.
pub open spec fn tokens_in(tree: JsonTree) -> Option<TokensView> {
    let parts = match tree {
        JsonTree::Array(items) => if items.len() == 2 {
            (text_in(items[0]), text_in(items[1]))
        } else {
            (None, None)
        },
        _ => (text_field(tree, "access_token"@), text_field(tree, "refresh_token"@)),
    };
    match parts {
        (Some(access_token), Some(refresh_token)) => Some(
            TokensView { access_token, refresh_token },
        ),
        _ => None,
    }
}

/// `serde_json::from_value` to steamguard's `Tokens`, with the two texts. It is
/// trusted to read an object that holds both texts by name, or a row of exactly
/// the two, and to refuse everything else; its error counts as no tokens.
#[verifier::external_body]
fn read_tokens(value: serde_json::Value) -> (r: Option<Tokens>)
    ensures
        match r {
            Some(tokens) => tokens_in(value_tree(value)) == Some(tokens@),
            None => tokens_in(value_tree(value)) is None,
        },
{
    let tokens: steamguard::token::Tokens = serde_json::from_value(value).ok()?;
    Some(Tokens {
        access_token: tokens.access_token().expose_secret().to_owned(),
        refresh_token: tokens.refresh_token().expose_secret().to_owned(),
    })
}

/// `TwoFactorSecret::parse_shared_secret` of steamguard, with its bytes. It is
/// trusted to decode the standard Base64 of 20 bytes; on a text that decodes to
/// another number of bytes it panics.
#[verifier::external_body]
fn read_shared_secret(secret: &str) -> (r: Option<[u8; 20]>)
    requires
        base64_decoded(secret@) is Some,
        base64_decoded(secret@)->0.len() == 20,
    ensures
        r is Some,
        r->0@ == base64_decoded(secret@)->0,
{
    let secret = steamguard::token::TwoFactorSecret::parse_shared_secret(secret.to_owned()).ok()?;
    Some(*secret.expose_secret())
}

/// The field of the first name, or that of the second where there is no first.
pub open spec fn field_of_either(json: JsonTree, first: Seq<char>, second: Seq<char>) -> Option<
    JsonTree,
> {
    match field_of(json, first) {
        Some(value) => Some(value),
        None => field_of(json, second),
    }
}

/// The account number that a JSON value holds, as it is written there.
pub open spec fn id_in(json: JsonTree) -> Option<Seq<char>> {
    match field_of_either(json, "SteamID"@, "steamid"@) {
        Some(JsonTree::Text(text)) => Some(text),
        Some(JsonTree::Number { text, .. }) => Some(text),
        _ => None,
    }
}

/// An account number other than zero, which stands for none.
pub open spec fn nonzero_id(id: Option<Seq<char>>) -> Option<Seq<char>> {
    match id {
        Some(id) if id != "0"@ => Some(id),
        _ => None,
    }
}

/// The account number of a maFile: its own, that of the session in it, or the
/// file's name where that is a number.
pub open spec fn imported_id(json: JsonTree, stem: Option<Seq<char>>) -> Option<Seq<char>> {
    match nonzero_id(id_in(json)) {
        Some(id) => Some(id),
        None => {
            let session = match field_of(json, "Session"@) {
                Some(session) => nonzero_id(id_in(session)),
                None => None,
            };
            match session {
                Some(id) => Some(id),
                None => match stem {
                    Some(stem) if spelled_number(stem) is Some => Some(stem),
                    _ => None,
                },
            }
        },
    }
}

/// The name of an imported account: the one in the file, else its number, else
/// the file's name.
pub open spec fn imported_name(json: JsonTree, stem: Option<Seq<char>>) -> Seq<char> {
    match field_of_either(json, "account_name"@, "AccountName"@) {
        Some(JsonTree::Text(name)) if name.len() > 0 => name,
        _ => match imported_id(json, stem) {
            Some(id) => id,
            None => match stem {
                Some(stem) => stem,
                None => "Steam account"@,
            },
        },
    }
}

/// The text in the field of that name, or an empty one.
pub open spec fn text_or_empty(json: JsonTree, key: Seq<char>) -> Seq<char> {
    match text_field(json, key) {
        Some(text) => text,
        None => Seq::empty(),
    }
}

/// The number of an imported account, where it has one that fits 64 bits.
pub open spec fn imported_number(json: JsonTree, stem: Option<Seq<char>>) -> Option<u64> {
    match imported_id(json, stem) {
        Some(id) => spelled_number(id),
        None => None,
    }
}

/// The device identifier of an imported account: the one in the file, else the
/// one that follows from the account's number.
pub open spec fn imported_device(json: JsonTree, stem: Option<Seq<char>>) -> Seq<char> {
    let device = text_or_empty(json, "device_id"@);
    match imported_number(json, stem) {
        Some(number) if device.len() == 0 => device_id_of(number),
        _ => device,
    }
}

/// The authenticator in a maFile: it takes the number of the account and a
/// secret for confirmations.
pub open spec fn imported_mobile(
    json: JsonTree,
    tokens: Option<TokensView>,
    stem: Option<Seq<char>>,
) -> Option<MobileView> {
    match imported_number(json, stem) {
        Some(steam_id) if text_or_empty(json, "identity_secret"@).len() > 0 => Some(
            MobileView {
                account_name: imported_name(json, stem),
                steam_id,
                serial_number: text_or_empty(json, "serial_number"@),
                revocation_code: text_or_empty(json, "revocation_code"@),
                shared_secret: base64_decoded(text_or_empty(json, "shared_secret"@))->0,
                token_gid: text_or_empty(json, "token_gid"@),
                identity_secret: text_or_empty(json, "identity_secret"@),
                uri: text_or_empty(json, "uri"@),
                device_id: imported_device(json, stem),
                secret_1: text_or_empty(json, "secret_1"@),
                tokens,
            },
        ),
        _ => None,
    }
}

/// What is wrong with the secrets of a maFile, if anything is.
pub open spec fn secret_error(json: JsonTree) -> Option<Seq<char>> {
    let shared = text_or_empty(json, "shared_secret"@);
    let identity = text_or_empty(json, "identity_secret"@);
    if shared.len() == 0 {
        Some(": отсутствует shared_secret"@)
    } else if base64_decoded(shared) is None {
        Some(": shared_secret не является Base64"@)
    } else if base64_decoded(shared)->0.len() != 20 {
        Some(": shared_secret имеет неверную длину"@)
    } else if identity.len() > 0 && base64_decoded(identity) is None {
        Some(": identity_secret не является Base64"@)
    } else if identity.len() > 0 && base64_decoded(identity)->0.len() == 0 {
        Some(": identity_secret пуст"@)
    } else {
        None
    }
}

/// The account in a maFile, given its JSON, the session tokens in it, and the
/// file's path and name; or why there is none.
pub open spec fn imported_account(
    json: JsonTree,
    tokens: Option<TokensView>,
    path: Seq<char>,
    stem: Option<Seq<char>>,
) -> Result<AccountView, Seq<char>> {
    match secret_error(json) {
        Some(message) => Err(path + message),
        None => Ok(
            AccountView {
                name: imported_name(json, stem),
                steam_id: imported_id(json, stem),
                shared_secret: text_or_empty(json, "shared_secret"@),
                mobile: imported_mobile(json, tokens, stem),
            },
        ),
    }
}

/// The session tokens in a maFile.
pub open spec fn imported_tokens(json: JsonTree) -> Option<TokensView> {
    match field_of(json, "tokens"@) {
        Some(tokens) => tokens_in(tokens),
        None => None,
    }
}

/// The account in the bytes of a maFile, or why there is none.
pub open spec fn imported_file(bytes: Seq<u8>, path: Seq<char>, stem: Option<Seq<char>>) -> Result<
    AccountView,
    Seq<char>,
> {
    match parsed_json_bytes(bytes) {
        Err(error) => Err(path + (": неверный JSON ("@ + error + ")"@)),
        Ok(json) => imported_account(json, imported_tokens(json), path, stem),
    }
}

/// Every imported account has a shared secret of 20 bytes, so that codes can be
/// made of it; and its authenticator, if there is one, has the same secret.
pub proof fn imported_secret_is_usable(
    json: JsonTree,
    tokens: Option<TokensView>,
    path: Seq<char>,
    stem: Option<Seq<char>>,
)
    requires
        imported_account(json, tokens, path, stem) is Ok,
    ensures
        ({
            let account = imported_account(json, tokens, path, stem)->Ok_0;
            let secret = base64_decoded(account.shared_secret);
            &&& secret is Some
            &&& secret->0.len() == 20
            &&& account.mobile matches Some(mobile) ==> mobile.shared_secret == secret->0
                && mobile.identity_secret.len() > 0
        }),
{
}

/// An account whose file tells its number and a confirmation secret can always
/// sign: it never lacks a device identifier.
pub proof fn imported_mobile_has_device(
    json: JsonTree,
    tokens: Option<TokensView>,
    stem: Option<Seq<char>>,
)
    ensures
        imported_mobile(json, tokens, stem) matches Some(mobile) ==> mobile.device_id.len() > 0,
{
    reveal_strlit("android:");
}

/// Where a maFile tells no device identifier, the authenticator has the one that
/// follows from the account's number; one that the file tells is kept.
pub proof fn devices_follow_from_the_number(
    json: JsonTree,
    tokens: Option<TokensView>,
    stem: Option<Seq<char>>,
)
    requires
        imported_mobile(json, tokens, stem) is Some,
    ensures
        ({
            let mobile = imported_mobile(json, tokens, stem)->0;
            let told = text_field(json, "device_id"@);
            &&& told is None || told->0.len() == 0 ==> mobile.device_id == device_id_of(
                mobile.steam_id,
            )
            &&& told is Some && told->0.len() > 0 ==> mobile.device_id == told->0
        }),
{
}

/// An imported account has the secrets and the numbers that its file names, each
/// under its own name, and the session that came with it.
pub proof fn imports_keep_what_the_file_tells(
    json: JsonTree,
    tokens: Option<TokensView>,
    path: Seq<char>,
    stem: Option<Seq<char>>,
)
    requires
        imported_account(json, tokens, path, stem) is Ok,
    ensures
        ({
            let account = imported_account(json, tokens, path, stem)->Ok_0;
            let told = |key: Seq<char>|
                match text_field(json, key) {
                    Some(text) => text,
                    None => Seq::<char>::empty(),
                };
            &&& text_field(json, "shared_secret"@) == Some(account.shared_secret)
            &&& account.mobile is Some <==> told("identity_secret"@).len() > 0 && (
            account.steam_id matches Some(id) && spelled_number(id) is Some)
            &&& account.mobile matches Some(mobile) ==> {
                &&& account.steam_id is Some && spelled_number(account.steam_id->0) == Some(
                    mobile.steam_id,
                )
                &&& mobile.account_name == account.name
                &&& mobile.serial_number == told("serial_number"@)
                &&& mobile.revocation_code == told("revocation_code"@)
                &&& base64_decoded(account.shared_secret) == Some(mobile.shared_secret)
                &&& mobile.token_gid == told("token_gid"@)
                &&& mobile.identity_secret == told("identity_secret"@)
                &&& mobile.uri == told("uri"@)
                &&& mobile.secret_1 == told("secret_1"@)
                &&& mobile.tokens == tokens
            }
        }),
{
}

/// The number of an account is that of its file, and else that of the session in
/// the file, and else the file's name; a zero counts as no number, and a file's
/// name only where it spells a number.
pub proof fn numbers_come_from_file_session_and_name(json: JsonTree, stem: Option<Seq<char>>)
    ensures
        ({
            let own = match field_of(json, "SteamID"@) {
                Some(value) => Some(value),
                None => field_of(json, "steamid"@),
            };
            let session = field_of(json, "Session"@);
            let id = imported_id(json, stem);
            &&& own matches Some(JsonTree::Text(text)) ==> (text != "0"@ ==> id == Some(text))
            &&& own matches Some(JsonTree::Number { text, .. }) ==> (text != "0"@ ==> id == Some(
                text,
            ))
            &&& own is None && session is Some ==> (field_of(session->0, "SteamID"@) matches Some(
                JsonTree::Text(text),
            ) ==> (text != "0"@ ==> id == Some(text)))
            &&& own is None && session is Some ==> (field_of(session->0, "SteamID"@) matches Some(
                JsonTree::Number { text, .. },
            ) ==> (text != "0"@ ==> id == Some(text)))
            &&& own is None && session is None ==> id == match stem {
                Some(name) => if spelled_number(name) is Some {
                    Some(name)
                } else {
                    None
                },
                None => None,
            }
            &&& id != Some("0"@) || stem == Some("0"@)
        }),
{
}

/// An account is named as its file says, and else by its number, its file or, in
/// the last resort, as a Steam account: it always has a name, but for a file
/// without one.
pub proof fn accounts_are_named(json: JsonTree, stem: Option<Seq<char>>)
    ensures
        ({
            let told = match field_of(json, "account_name"@) {
                Some(value) => Some(value),
                None => field_of(json, "AccountName"@),
            };
            let name = imported_name(json, stem);
            &&& told matches Some(JsonTree::Text(text)) ==> (text.len() > 0 ==> name == text)
            &&& told is None && imported_id(json, stem) is Some ==> name == imported_id(
                json,
                stem,
            )->0
            &&& told is None && imported_id(json, stem) is None && stem is Some ==> name == stem->0
            &&& told is None && imported_id(json, stem) is None && stem is None ==> name
                == "Steam account"@
        }),
{
}

/// A file is imported exactly where its shared secret is the Base64 of 20 bytes
/// and its identity secret, where it tells one, is the Base64 of some.
pub proof fn only_sound_secrets_are_imported(
    json: JsonTree,
    tokens: Option<TokensView>,
    path: Seq<char>,
    stem: Option<Seq<char>>,
)
    ensures
        ({
            let shared = text_field(json, "shared_secret"@);
            let identity = text_field(json, "identity_secret"@);
            imported_account(json, tokens, path, stem) is Ok <==> {
                &&& shared is Some && shared->0.len() > 0
                &&& base64_decoded(shared->0) is Some && base64_decoded(shared->0)->0.len() == 20
                &&& identity is Some && identity->0.len() > 0 ==> base64_decoded(identity->0)
                    is Some && base64_decoded(identity->0)->0.len() > 0
            }
        }),
{
}

/// The text in the field of that name, or an empty one.
pub fn json_string(json: &Json, key: &str) -> (r: String)
    ensures
        r@ == text_or_empty(json.tree(), key@),
{
    match json.text(key) {
        Some(text) => text.clone(),
        None => String::new(),
    }
}

/// The account number that a JSON value holds, as it is written there.
pub fn json_id(json: &Json) -> (r: Option<String>)
    ensures
        match r {
            Some(id) => id_in(json.tree()) == Some(id@),
            None => id_in(json.tree()) is None,
        },
{
    let value = match json.field("SteamID") {
        Some(value) => Some(value),
        None => json.field("steamid"),
    };
    match value {
        Some(Json::Text(text)) => Some(text.clone()),
        Some(Json::Number(number)) => Some(number.text.clone()),
        _ => None,
    }
}

fn nonzero_json_id(json: &Json) -> (r: Option<String>)
    ensures
        match r {
            Some(id) => nonzero_id(id_in(json.tree())) == Some(id@),
            None => nonzero_id(id_in(json.tree())) is None,
        },
{
    match json_id(json) {
        Some(id) => if same_text(id.as_str(), "0") {
            None
        } else {
            Some(id)
        },
        None => None,
    }
}

/// The characters of a text that may be missing.
pub open spec fn str_option(text: Option<&str>) -> Option<Seq<char>> {
    match text {
        Some(text) => Some(text@),
        None => None,
    }
}

fn read_id(json: &Json, stem: Option<&str>) -> (r: Option<String>)
    ensures
        match r {
            Some(id) => imported_id(json.tree(), str_option(stem)) == Some(id@),
            None => imported_id(json.tree(), str_option(stem)) is None,
        },
{
    if let Some(id) = nonzero_json_id(json) {
        return Some(id);
    }
    if let Some(session) = json.field("Session") {
        if let Some(id) = nonzero_json_id(session) {
            return Some(id);
        }
    }
    match stem {
        Some(stem) => if read_number(stem).is_some() {
            Some(stem.to_owned())
        } else {
            None
        },
        None => None,
    }
}

fn read_name(json: &Json, steam_id: &Option<String>, stem: Option<&str>) -> (r: String)
    requires
        match *steam_id {
            Some(id) => imported_id(json.tree(), str_option(stem)) == Some(id@),
            None => imported_id(json.tree(), str_option(stem)) is None,
        },
    ensures
        r@ == imported_name(json.tree(), str_option(stem)),
{
    let told = match json.field("account_name") {
        Some(value) => Some(value),
        None => json.field("AccountName"),
    };
    if let Some(Json::Text(name)) = told {
        if !name.as_str().is_empty() {
            return name.clone();
        }
    }
    if let Some(id) = steam_id {
        return id.clone();
    }
    match stem {
        Some(stem) => stem.to_owned(),
        None => "Steam account".to_owned(),
    }
}

/// The account in a maFile, given its JSON, the session tokens in it, and the
/// file's path and name.
pub fn account_from_json(json: &Json, tokens: Option<Tokens>, path: &str, stem: Option<&str>) -> (r:
    Result<Account, String>)
    ensures
        ({
            let told = match tokens {
                Some(tokens) => Some(tokens@),
                None => None,
            };
            match r {
                Ok(account) => imported_account(json.tree(), told, path@, str_option(stem)) == Ok::<
                    AccountView,
                    Seq<char>,
                >(account@),
                Err(message) => imported_account(json.tree(), told, path@, str_option(stem))
                    == Err::<AccountView, Seq<char>>(message@),
            }
        }),
{
    let shared_secret = json_string(json, "shared_secret");
    if shared_secret.as_str().is_empty() {
        return Err(concat2(path, ": отсутствует shared_secret"));
    }
    match decode_base64(shared_secret.as_str()) {
        Some(bytes) => if bytes.len() != 20 {
            return Err(concat2(path, ": shared_secret имеет неверную длину"));
        },
        None => return Err(concat2(path, ": shared_secret не является Base64")),
    }
    let steam_id = read_id(json, stem);
    let name = read_name(json, &steam_id, stem);
    let identity_secret = json_string(json, "identity_secret");
    if !identity_secret.as_str().is_empty() {
        match decode_base64(identity_secret.as_str()) {
            Some(bytes) => if bytes.len() == 0 {
                return Err(concat2(path, ": identity_secret пуст"));
            },
            None => return Err(concat2(path, ": identity_secret не является Base64")),
        }
    }
    let number: Option<u64> = match &steam_id {
        Some(id) => read_number(id.as_str()),
        None => None,
    };
    let told_device = json_string(json, "device_id");
    let device_id = match number {
        Some(number) => if told_device.as_str().is_empty() {
            steam_device_id(number)
        } else {
            told_device
        },
        None => told_device,
    };
    let mobile = match number {
        Some(number) => if identity_secret.as_str().is_empty() {
            None
        } else {
            let secret: [u8; 20] = match read_shared_secret(shared_secret.as_str()) {
                Some(secret) => secret,
                None => return Err(concat2(path, ": shared_secret не является Base64")),
            };
            Some(
                MobileAccount {
                    account_name: name.clone(),
                    steam_id: number,
                    serial_number: json_string(json, "serial_number"),
                    revocation_code: json_string(json, "revocation_code"),
                    shared_secret: secret,
                    token_gid: json_string(json, "token_gid"),
                    identity_secret,
                    uri: json_string(json, "uri"),
                    device_id,
                    secret_1: json_string(json, "secret_1"),
                    tokens,
                },
            )
        },
        None => None,
    };
    Ok(Account { name, steam_id, shared_secret, mobile })
}

/// The account in the bytes of a maFile, given the file's path and name.
pub fn parse_mafile(bytes: &[u8], path: &str, stem: Option<&str>) -> (r: Result<Account, String>)
    ensures
        match r {
            Ok(account) => imported_file(bytes@, path@, str_option(stem)) == Ok::<
                AccountView,
                Seq<char>,
            >(account@),
            Err(message) => imported_file(bytes@, path@, str_option(stem)) == Err::<
                AccountView,
                Seq<char>,
            >(message@),
        },
{
    let value = match read_value_bytes(bytes) {
        Ok(value) => value,
        Err(error) => return Err(
            concat2(path, concat3(": неверный JSON (", error.as_str(), ")").as_str()),
        ),
    };
    let tokens = match value_field(&value, "tokens") {
        Some(tokens) => read_tokens(tokens),
        None => None,
    };
    account_from_json(&json_of(value), tokens, path, stem)
}

// ---------------------------------------------------------------------------
// Finding
// ---------------------------------------------------------------------------

/// The lower-case form of an ASCII letter, and any other character itself.
pub open spec fn ascii_lower(c: char) -> char {
    if 65 <= c as int <= 90 {
        (c as int + 32) as char
    } else {
        c
    }
}

/// Whether two texts differ at most in the case of ASCII letters.
pub open spec fn same_ignoring_case(a: Seq<char>, b: Seq<char>) -> bool {
    a.map_values(|c: char| ascii_lower(c)) == b.map_values(|c: char| ascii_lower(c))
}

fn lower(c: char) -> (r: char)
    ensures
        r == ascii_lower(c),
{
    if c >= 'A' && c <= 'Z' {
        (c as u8 + 32) as char
    } else {
        c
    }
}

fn equal_ignoring_case(a: &str, b: &str) -> (r: bool)
    ensures
        r == same_ignoring_case(a@, b@),
{
    let left = chars_of(a);
    let right = chars_of(b);
    let ghost lowered = (
        a@.map_values(|c: char| ascii_lower(c)),
        b@.map_values(|c: char| ascii_lower(c)),
    );
    if left.len() != right.len() {
        assert(lowered.0.len() != lowered.1.len());
        return false;
    }
    let mut i: usize = 0;
    while i < left.len()
        invariant
            i <= left@.len() == right@.len(),
            left@ == a@,
            right@ == b@,
            lowered.0 == a@.map_values(|c: char| ascii_lower(c)),
            lowered.1 == b@.map_values(|c: char| ascii_lower(c)),
            forall|k: int| 0 <= k < i ==> #[trigger] lowered.0[k] == lowered.1[k],
        decreases left@.len() - i,
    {
        if lower(left[i]) != lower(right[i]) {
            assert(lowered.0[i as int] != lowered.1[i as int]);
            return false;
        }
        i = i + 1;
    }
    assert(lowered.0 =~= lowered.1);
    true
}

/// Whether a file with this extension is imported when a folder is.
pub fn is_mafile_extension(extension: &str) -> (r: bool)
    ensures
        r == (same_ignoring_case(extension@, "mafile"@) || same_ignoring_case(extension@, "json"@)),
{
    equal_ignoring_case(extension, "mafile") || equal_ignoring_case(extension, "json")
}

// ---------------------------------------------------------------------------
// Writing
// ---------------------------------------------------------------------------

/// Whether a value has at most that many levels of rows and objects, and no
/// numbers but integers from zero up.
pub open spec fn is_storable(tree: JsonTree, levels: nat) -> bool
    decreases levels,
{
    match tree {
        JsonTree::Number { unsigned, .. } => unsigned is Some,
        JsonTree::Array(items) => levels > 0 && forall|i: int|
            0 <= i < items.len() ==> is_storable(#[trigger] items[i], (levels - 1) as nat),
        JsonTree::Object(fields) => levels > 0 && forall|i: int|
            0 <= i < fields.len() ==> is_storable((#[trigger] fields[i]).1, (levels - 1) as nat),
        _ => true,
    }
}

/// Whether a JSON value is an object that holds an authenticator.
pub open spec fn holds_account(tree: JsonTree, account: MobileView) -> bool {
    &&& tree is Object
    &&& text_field(tree, "account_name"@) == Some(account.account_name)
    &&& field_of(tree, "steam_id"@) == Some(
        JsonTree::Number {
            unsigned: Some(account.steam_id),
            text: decimal(account.steam_id as nat),
        },
    )
    &&& text_field(tree, "serial_number"@) == Some(account.serial_number)
    &&& text_field(tree, "revocation_code"@) == Some(account.revocation_code)
    &&& text_field(tree, "shared_secret"@) == Some(base64_encoded(account.shared_secret))
    &&& base64_encoded(account.shared_secret).len() == 28
    &&& base64_decoded(base64_encoded(account.shared_secret)) == Some(account.shared_secret)
    &&& text_field(tree, "token_gid"@) == Some(account.token_gid)
    &&& text_field(tree, "identity_secret"@) == Some(account.identity_secret)
    &&& text_field(tree, "uri"@) == Some(account.uri)
    &&& text_field(tree, "device_id"@) == Some(account.device_id)
    &&& text_field(tree, "secret_1"@) == Some(account.secret_1)
    &&& imported_tokens(tree) == account.tokens
}

/// `serde_json::to_value` of steamguard's `SteamGuardAccount`. It is trusted to
/// write an object that has the account's fields under their names, the shared
/// secret in the 28 characters of its Base64 and the session as an object or
/// null, and nothing else; and not to fail.
#[verifier::external_body]
fn account_value(account: &MobileAccount) -> (r: Result<serde_json::Value, String>)
    ensures
        r is Ok,
        holds_account(value_tree(r->Ok_0), account@),
        is_storable(value_tree(r->Ok_0), 2),
        field_of(value_tree(r->Ok_0), "SteamID"@) is None,
        field_of(value_tree(r->Ok_0), "fully_enrolled"@) is None,
{
    serde_json::to_value(steamguard::SteamGuardAccount {
        account_name: account.account_name.clone(),
        steam_id: account.steam_id,
        serial_number: account.serial_number.clone(),
        revocation_code: account.revocation_code.clone().into(),
        shared_secret: steamguard::token::TwoFactorSecret::from_bytes(account.shared_secret.to_vec()),
        token_gid: account.token_gid.clone(),
        identity_secret: account.identity_secret.clone().into(),
        uri: account.uri.clone().into(),
        device_id: account.device_id.clone(),
        secret_1: account.secret_1.clone().into(),
        tokens: account.tokens.as_ref().map(|t| steamguard::token::Tokens::new(t.access_token.clone(), t.refresh_token.clone())),
    }).map_err(|error| error.to_string())
}

/// Whether `new` is the object `old` with one field set.
pub open spec fn is_with_field(
    old: JsonTree,
    new: JsonTree,
    key: Seq<char>,
    value: JsonTree,
) -> bool {
    &&& new is Object
    &&& forall|k: Seq<char>| #[trigger]
        field_of(new, k) == if k == key {
            Some(value)
        } else {
            field_of(old, k)
        }
    &&& forall|levels: nat|
        levels > 0 && is_storable(old, levels) && is_storable(value, (levels - 1) as nat)
            ==> #[trigger] is_storable(new, levels)
}

/// `Map::insert` of serde_json on an object, with a text. It is trusted to set
/// that field and to leave the others.
#[verifier::external_body]
fn with_text(value: serde_json::Value, key: &str, text: &str) -> (r: serde_json::Value)
    requires
        value_tree(value) is Object,
    ensures
        is_with_field(value_tree(value), value_tree(r), key@, JsonTree::Text(text@)),
{
    let mut value = value;
    if let Some(object) = value.as_object_mut() {
        object.insert(key.to_owned(), serde_json::Value::String(text.to_owned()));
    }
    value
}

/// `Map::insert` of serde_json on an object, with a truth value. It is trusted
/// to set that field and to leave the others.
#[verifier::external_body]
fn with_flag(value: serde_json::Value, key: &str, flag: bool) -> (r: serde_json::Value)
    requires
        value_tree(value) is Object,
    ensures
        is_with_field(value_tree(value), value_tree(r), key@, JsonTree::Bool(flag)),
{
    let mut value = value;
    if let Some(object) = value.as_object_mut() {
        object.insert(key.to_owned(), serde_json::Value::Bool(flag));
    }
    value
}

/// `serde_json::to_vec_pretty` on a value that is not deep and has no fractions
/// or negative numbers. It is trusted not to fail, and to write bytes in which
/// `serde_json::from_slice` reads the same value.
#[verifier::external_body]
fn pretty_bytes(value: &serde_json::Value) -> (r: Result<Vec<u8>, String>)
    requires
        is_storable(value_tree(*value), 64),
    ensures
        r is Ok,
        parsed_json_bytes(r->Ok_0@) is Ok,
        parsed_json_bytes(r->Ok_0@)->Ok_0 == value_tree(*value),
{
    serde_json::to_vec_pretty(value).map_err(|error| error.to_string())
}

proof fn lemma_key_lengths()
    ensures
        "SteamID"@.len() == 7,
        "fully_enrolled"@.len() == 14,
        "account_name"@.len() == 12,
        "steam_id"@.len() == 8,
        "serial_number"@.len() == 13,
        "revocation_code"@.len() == 15,
        "shared_secret"@.len() == 13,
        "token_gid"@.len() == 9,
        "identity_secret"@.len() == 15,
        "uri"@.len() == 3,
        "device_id"@.len() == 9,
        "secret_1"@.len() == 8,
        "tokens"@.len() == 6,
{
    reveal_strlit("SteamID");
    reveal_strlit("fully_enrolled");
    reveal_strlit("account_name");
    reveal_strlit("steam_id");
    reveal_strlit("serial_number");
    reveal_strlit("revocation_code");
    reveal_strlit("shared_secret");
    reveal_strlit("token_gid");
    reveal_strlit("identity_secret");
    reveal_strlit("uri");
    reveal_strlit("device_id");
    reveal_strlit("secret_1");
    reveal_strlit("tokens");
}

proof fn lemma_storable_deeper(tree: JsonTree, levels: nat, more: nat)
    requires
        is_storable(tree, levels),
        levels <= more,
    ensures
        is_storable(tree, more),
    decreases levels,
{
    match tree {
        JsonTree::Array(items) => {
            assert forall|i: int| 0 <= i < items.len() implies is_storable(
                #[trigger] items[i],
                (more - 1) as nat,
            ) by {
                lemma_storable_deeper(items[i], (levels - 1) as nat, (more - 1) as nat);
            }
        },
        JsonTree::Object(fields) => {
            assert forall|i: int| 0 <= i < fields.len() implies is_storable(
                (#[trigger] fields[i]).1,
                (more - 1) as nat,
            ) by {
                lemma_storable_deeper(fields[i].1, (levels - 1) as nat, (more - 1) as nat);
            }
        },
        _ => {},
    }
}

/// The name under which a backup is offered to be saved.
pub fn suggested_name(account: &MobileAccount) -> (r: String)
    ensures
        r@ == decimal(account.steam_id as nat) + ".maFile"@,
{
    concat2(decimal_text(account.steam_id).as_str(), ".maFile")
}

/// Whether a JSON value is the backup of an authenticator: its fields, its
/// number as other programs name it, and that it is in use.
pub open spec fn is_backup(tree: JsonTree, account: MobileView) -> bool {
    &&& holds_account(tree, account)
    &&& field_of(tree, "SteamID"@) == Some(JsonTree::Text(decimal(account.steam_id as nat)))
    &&& field_of(tree, "fully_enrolled"@) == Some(JsonTree::Bool(true))
}

/// The bytes of the backup of an authenticator.
pub fn exported_mafile(account: &MobileAccount) -> (r: Result<Vec<u8>, String>)
    ensures
        r is Ok,
        parsed_json_bytes(r->Ok_0@) is Ok,
        is_backup(parsed_json_bytes(r->Ok_0@)->Ok_0, account@),
{
    let value = match account_value(account) {
        Ok(value) => value,
        Err(error) => return Err(concat2("Не удалось подготовить maFile: ", error.as_str())),
    };
    proof {
        lemma_key_lengths();
    }
    let ghost plain = value_tree(value);
    let value = with_text(value, "SteamID", decimal_text(account.steam_id).as_str());
    let value = with_flag(value, "fully_enrolled", true);
    proof {
        lemma_storable_deeper(plain, 2, 64);
    }
    pretty_bytes(&value)
}

/// A backup gives the authenticator back: importing it, from a file of any
/// name, yields the account with all its secrets and its session. The account
/// needs a name, a number, a device identifier and a confirmation secret, as
/// every account that signs confirmations has.
pub proof fn backup_reads_back(
    json: JsonTree,
    account: MobileView,
    path: Seq<char>,
    stem: Option<Seq<char>>,
)
    requires
        is_backup(json, account),
        account.shared_secret.len() == 20,
        account.account_name.len() > 0,
        account.steam_id != 0,
        account.device_id.len() > 0,
        account.identity_secret.len() > 0,
        base64_decoded(account.identity_secret) is Some,
        base64_decoded(account.identity_secret)->0.len() > 0,
    ensures
        imported_account(json, imported_tokens(json), path, stem) == Ok::<AccountView, Seq<char>>(
            AccountView {
                name: account.account_name,
                steam_id: Some(decimal(account.steam_id as nat)),
                shared_secret: base64_encoded(account.shared_secret),
                mobile: Some(account),
            },
        ),
{
    reveal_strlit("0");
    crate::text::decimal_reads_back(account.steam_id);
    crate::text::decimal_reads_back(0);
    assert(decimal(0) =~= "0"@);
}

/// A number of zero, or one that is neither text nor number, counts as none: the
/// session's takes its place, under either spelling, and else the file's name.
pub proof fn zero_numbers_give_way(json: JsonTree, stem: Option<Seq<char>>, session: JsonTree)
    requires
        ({
            let own = match field_of(json, "SteamID"@) {
                Some(value) => Some(value),
                None => field_of(json, "steamid"@),
            };
            match own {
                Some(JsonTree::Text(text)) => text == "0"@,
                Some(JsonTree::Number { text, .. }) => text == "0"@,
                _ => true,
            }
        }),
    ensures
        field_of(json, "Session"@) == Some(session) ==> ({
            let its = match field_of(session, "SteamID"@) {
                Some(value) => Some(value),
                None => field_of(session, "steamid"@),
            };
            &&& its matches Some(JsonTree::Text(text)) ==> (text != "0"@ ==> imported_id(json, stem)
                == Some(text))
            &&& its matches Some(JsonTree::Number { text, .. }) ==> (text != "0"@ ==> imported_id(
                json,
                stem,
            ) == Some(text))
            &&& its is None ==> (stem matches Some(name) ==> (spelled_number(name) is Some
                ==> imported_id(json, stem) == Some(name)))
        }),
        field_of(json, "Session"@) is None && stem is None ==> imported_id(json, stem) is None,
        field_of(json, "Session"@) is None ==> (stem matches Some(name) ==> (imported_id(json, stem)
            is Some <==> spelled_number(name) is Some)),
{
}

/// An account whose file tells an empty name, or none that is a text, is named
/// by its number, and else by its file.
pub proof fn nameless_accounts_are_named_by_number(json: JsonTree, stem: Option<Seq<char>>)
    requires
        ({
            let told = match field_of(json, "account_name"@) {
                Some(value) => Some(value),
                None => field_of(json, "AccountName"@),
            };
            told matches Some(JsonTree::Text(text)) ==> text.len() == 0
        }),
    ensures
        imported_id(json, stem) matches Some(id) ==> imported_name(json, stem) == id,
        imported_id(json, stem) is None ==> (stem matches Some(name) ==> imported_name(json, stem)
            == name),
        imported_id(json, stem) is None && stem is None ==> imported_name(json, stem)
            == "Steam account"@,
{
}

/// A file that is not imported is told by its path and by what is wrong with its
/// secrets, the shared one first.
pub proof fn unsound_secrets_are_told(
    json: JsonTree,
    tokens: Option<TokensView>,
    path: Seq<char>,
    stem: Option<Seq<char>>,
)
    ensures
        ({
            let shared = text_field(json, "shared_secret"@);
            let identity = text_field(json, "identity_secret"@);
            let told = imported_account(json, tokens, path, stem);
            &&& shared is None || shared->0.len() == 0 ==> told == Err::<AccountView, Seq<char>>(
                path + ": отсутствует shared_secret"@,
            )
            &&& shared is Some && shared->0.len() > 0 && base64_decoded(shared->0) is None ==> told
                == Err::<AccountView, Seq<char>>(path + ": shared_secret не является Base64"@)
            &&& shared is Some && shared->0.len() > 0 && base64_decoded(shared->0) is Some
                && base64_decoded(shared->0)->0.len() != 20 ==> told == Err::<AccountView, Seq<char>>(
                path + ": shared_secret имеет неверную длину"@,
            )
            &&& shared is Some && shared->0.len() > 0 && base64_decoded(shared->0) is Some
                && base64_decoded(shared->0)->0.len() == 20 && identity is Some && identity->0.len()
                > 0 && base64_decoded(identity->0) is None ==> told == Err::<AccountView, Seq<char>>(
                path + ": identity_secret не является Base64"@,
            )
            &&& shared is Some && shared->0.len() > 0 && base64_decoded(shared->0) is Some
                && base64_decoded(shared->0)->0.len() == 20 && identity is Some && identity->0.len()
                > 0 && base64_decoded(identity->0) is Some && base64_decoded(identity->0)->0.len()
                == 0 ==> told == Err::<AccountView, Seq<char>>(path + ": identity_secret пуст"@)
        }),
{
}

/// A file is read as the JSON that its bytes are, with the session under
/// `tokens`; bytes that are none are refused under the file's path.
pub proof fn files_are_read_as_json(
    bytes: Seq<u8>,
    path: Seq<char>,
    stem: Option<Seq<char>>,
    json: JsonTree,
    error: Seq<char>,
)
    ensures
        parsed_json_bytes(bytes) == Ok::<JsonTree, Seq<char>>(json) && field_of(json, "tokens"@)
            is None ==> imported_file(bytes, path, stem) == imported_account(
            json,
            None,
            path,
            stem,
        ),
        parsed_json_bytes(bytes) == Ok::<JsonTree, Seq<char>>(json) ==> (field_of(
            json,
            "tokens"@,
        ) matches Some(tokens) ==> imported_file(bytes, path, stem) == imported_account(
            json,
            tokens_in(tokens),
            path,
            stem,
        )),
        parsed_json_bytes(bytes) == Err::<JsonTree, Seq<char>>(error) ==> imported_file(
            bytes,
            path,
            stem,
        ) == Err::<AccountView, Seq<char>>(path + ": неверный JSON ("@ + error + ")"@),
{
    assert(path + (": неверный JSON ("@ + error + ")"@) =~= path + ": неверный JSON ("@ + error
        + ")"@);
}

/// Two texts are the same but for their case exactly where they are as long and
/// have the same characters, each capital letter from A to Z counting as its
/// small one.
pub proof fn case_alone_may_differ(a: Seq<char>, b: Seq<char>)
    ensures
        same_ignoring_case(a, b) ==> a.len() == b.len() && forall|i: int|
            0 <= i < a.len() ==> (#[trigger] a[i]) == b[i] || ('A' <= a[i] <= 'Z' && b[i] as int
                == a[i] as int + 32) || ('A' <= b[i] <= 'Z' && a[i] as int == b[i] as int + 32),
        a.len() == b.len() && (forall|i: int|
            0 <= i < a.len() ==> (#[trigger] a[i]) == b[i] || ('A' <= a[i] <= 'Z' && b[i] as int
                == a[i] as int + 32) || ('A' <= b[i] <= 'Z' && a[i] as int == b[i] as int + 32))
            ==> same_ignoring_case(a, b),
{
    let left = a.map_values(|c: char| ascii_lower(c));
    let right = b.map_values(|c: char| ascii_lower(c));
    if same_ignoring_case(a, b) {
        assert(left.len() == right.len());
        assert forall|i: int| 0 <= i < a.len() implies (#[trigger] a[i]) == b[i] || ('A' <= a[i]
            <= 'Z' && b[i] as int == a[i] as int + 32) || ('A' <= b[i] <= 'Z' && a[i] as int
            == b[i] as int + 32) by {
            assert(left[i] == ascii_lower(a[i]));
            assert(right[i] == ascii_lower(b[i]));
        }
    }
    if a.len() == b.len() && (forall|i: int|
        0 <= i < a.len() ==> (#[trigger] a[i]) == b[i] || ('A' <= a[i] <= 'Z' && b[i] as int
            == a[i] as int + 32) || ('A' <= b[i] <= 'Z' && a[i] as int == b[i] as int + 32)) {
        assert forall|i: int| 0 <= i < a.len() implies left[i] == right[i] by {
            assert(a[i] == b[i] || ('A' <= a[i] <= 'Z' && b[i] as int == a[i] as int + 32) || ('A'
                <= b[i] <= 'Z' && a[i] as int == b[i] as int + 32));
        }
        assert(left =~= right);
    }
}

/// A backup tells the authenticator's fields each under its own name, the number
/// both as a number and, as other programs name it, as a text, and that the
/// authenticator is in use.
pub proof fn backups_tell_every_field(json: JsonTree, account: MobileView)
    requires
        is_backup(json, account),
    ensures
        text_field(json, "account_name"@) == Some(account.account_name),
        text_field(json, "serial_number"@) == Some(account.serial_number),
        text_field(json, "revocation_code"@) == Some(account.revocation_code),
        text_field(json, "shared_secret"@) matches Some(secret) && base64_decoded(secret) == Some(
            account.shared_secret,
        ),
        text_field(json, "token_gid"@) == Some(account.token_gid),
        text_field(json, "identity_secret"@) == Some(account.identity_secret),
        text_field(json, "uri"@) == Some(account.uri),
        text_field(json, "device_id"@) == Some(account.device_id),
        text_field(json, "secret_1"@) == Some(account.secret_1),
        text_field(json, "SteamID"@) == Some(decimal(account.steam_id as nat)),
        field_of(json, "fully_enrolled"@) == Some(JsonTree::Bool(true)),
{
}

} // verus!
