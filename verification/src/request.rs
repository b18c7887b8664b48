//! The signed requests of the mobile confirmation pages.
use vstd::prelude::*;
use vstd::string::StringExecFns;
use vstd::utf8::encode_utf8;

use crate::account::MobileAccount;
use crate::confirmation::ConfirmationTarget;
use crate::crypto::{
    base64_decoded, base64_encoded, be_bytes, be_bytes_are_the_digits, be_bytes_of, decode_base64, encode_base64, hmac_sha1,
    hmac_sha1_code,
};
use crate::text::{concat2, decimal, decimal_text};

verus! {

/// A row of named parameters by the characters of their names and values.
pub open spec fn pairs(params: Seq<(&'static str, String)>) -> Seq<(Seq<char>, Seq<char>)> {
    params.map_values(|pair: (&'static str, String)| (pair.0@, pair.1@))
}

/// The bytes of a tag that a signature covers: the first 32.
pub open spec fn signed_tag(tag: Seq<char>) -> Seq<u8> {
    let bytes = encode_utf8(tag);
    if bytes.len() <= 32 {
        bytes
    } else {
        bytes.take(32)
    }
}

/// The signature of a request: the time and the tag under the identity secret.
pub open spec fn signature(secret: Seq<u8>, time: u64, tag: Seq<char>) -> Seq<char> {
    base64_encoded(hmac_sha1(secret, be_bytes(time) + signed_tag(tag)))
}

/// Why an account cannot sign, if it cannot.
pub open spec fn signing_error(account: MobileAccount) -> Option<Seq<char>> {
    match base64_decoded(account.identity_secret@) {
        None => Some("Некорректный identity_secret в maFile"@),
        Some(secret) => if secret.len() == 0 || account.device_id@.len() == 0 {
            Some("В maFile не хватает данных для подтверждений"@)
        } else {
            None
        },
    }
}

/// The parameters that every request carries.
pub open spec fn signed_params(account: MobileAccount, time: u64, tag: Seq<char>) -> Seq<
    (Seq<char>, Seq<char>),
> {
    seq![
        ("p"@, account.device_id@),
        ("a"@, decimal(account.steam_id as nat)),
        ("k"@, signature(base64_decoded(account.identity_secret@)->0, time, tag)),
        ("t"@, decimal(time as nat)),
        ("m"@, "react"@),
        ("tag"@, tag),
    ]
}

/// The parameters that every request with this tag carries, signed at `time`.
pub fn confirmation_params(account: &MobileAccount, time: u64, tag: &str) -> (r: Result<
    Vec<(&'static str, String)>,
    String,
>)
    ensures
        match r {
            Ok(params) => signing_error(*account) is None && pairs(params@) == signed_params(
                *account,
                time,
                tag@,
            ),
            Err(message) => signing_error(*account) == Some(message@),
        },
{
    let secret = match decode_base64(account.identity_secret.as_str()) {
        Some(secret) => secret,
        None => return Err("Некорректный identity_secret в maFile".to_owned()),
    };
    if secret.len() == 0 || account.device_id.as_str().is_empty() {
        return Err("В maFile не хватает данных для подтверждений".to_owned());
    }
    let mut message = be_bytes_of(time);
    let bytes = tag.as_bytes();
    let covered: usize = if bytes.len() <= 32 { bytes.len() } else { 32 };
    let mut i: usize = 0;
    while i < covered
        invariant
            i <= covered <= bytes@.len(),
            message@ == be_bytes(time) + bytes@.take(i as int),
        decreases covered - i,
    {
        message.push(bytes[i]);
        assert(bytes@.take(i + 1) =~= bytes@.take(i as int).push(bytes@[i as int]));
        i = i + 1;
    }
    assert(bytes@.take(covered as int) =~= signed_tag(tag@));
    let code = match hmac_sha1_code(secret.as_slice(), message.as_slice()) {
        Some(code) => code,
        None => return Err("Некорректный секрет подтверждений".to_owned()),
    };
    let mut params: Vec<(&'static str, String)> = Vec::new();
    params.push(("p", account.device_id.clone()));
    params.push(("a", decimal_text(account.steam_id)));
    params.push(("k", encode_base64(code.as_slice())));
    params.push(("t", decimal_text(time)));
    params.push(("m", "react".to_owned()));
    params.push(("tag", tag.to_owned()));
    assert(pairs(params@) =~= signed_params(*account, time, tag@));
    Ok(params)
}

/// What an answer asks Steam to do.
pub open spec fn operation(accept: bool) -> Seq<char> {
    if accept {
        "allow"@
    } else {
        "cancel"@
    }
}

/// The tag that an answer is signed with.
pub open spec fn answer_tag(accept: bool) -> Seq<char> {
    if accept {
        "accept"@
    } else {
        "reject"@
    }
}

fn operation_and_tag(accept: bool) -> (r: (&'static str, &'static str))
    ensures
        r.0@ == operation(accept),
        r.1@ == answer_tag(accept),
{
    if accept {
        ("allow", "accept")
    } else {
        ("cancel", "reject")
    }
}

/// The parameters of the answer to one confirmation.
pub open spec fn answer_params(
    account: MobileAccount,
    time: u64,
    id: Seq<char>,
    nonce: Seq<char>,
    accept: bool,
) -> Seq<(Seq<char>, Seq<char>)> {
    signed_params(account, time, answer_tag(accept)) + seq![
        ("op"@, operation(accept)),
        ("cid"@, id),
        ("ck"@, nonce),
    ]
}

/// The parameters of the answer to one confirmation.
pub fn response_params(account: &MobileAccount, time: u64, id: &str, nonce: &str, accept: bool) -> (r:
    Result<Vec<(&'static str, String)>, String>)
    ensures
        match r {
            Ok(params) => signing_error(*account) is None && pairs(params@) == answer_params(
                *account,
                time,
                id@,
                nonce@,
                accept,
            ),
            Err(message) => signing_error(*account) == Some(message@),
        },
{
    let (operation, tag) = operation_and_tag(accept);
    let mut params = match confirmation_params(account, time, tag) {
        Ok(params) => params,
        Err(message) => return Err(message),
    };
    let ghost signed = params@;
    params.push(("op", operation.to_owned()));
    params.push(("cid", id.to_owned()));
    params.push(("ck", nonce.to_owned()));
    assert forall|i: int| 0 <= i < signed.len() implies pairs(params@)[i] == pairs(signed)[i] by {
        assert(params@[i] == signed[i]);
    }
    assert(pairs(params@) =~= answer_params(*account, time, id@, nonce@, accept));
    Ok(params)
}

/// The parameters that name the targets of a bulk answer: the identifier and
/// the key of each, in order.
pub open spec fn target_params(targets: Seq<ConfirmationTarget>) -> Seq<(Seq<char>, Seq<char>)> {
    Seq::new(
        2 * targets.len(),
        |i: int|
            if i % 2 == 0 {
                ("cid[]"@, targets[i / 2].id@)
            } else {
                ("ck[]"@, targets[i / 2].nonce@)
            },
    )
}

/// The parameters of one answer to many confirmations.
pub open spec fn bulk_params(
    account: MobileAccount,
    time: u64,
    targets: Seq<ConfirmationTarget>,
    accept: bool,
) -> Seq<(Seq<char>, Seq<char>)> {
    signed_params(account, time, answer_tag(accept)).push(("op"@, operation(accept)))
        + target_params(targets)
}

/// The parameters of one answer to many confirmations.
pub fn batch_response_params(
    account: &MobileAccount,
    time: u64,
    targets: &[ConfirmationTarget],
    accept: bool,
) -> (r: Result<Vec<(&'static str, String)>, String>)
    ensures
        match r {
            Ok(params) => signing_error(*account) is None && pairs(params@) == bulk_params(
                *account,
                time,
                targets@,
                accept,
            ),
            Err(message) => signing_error(*account) == Some(message@),
        },
{
    let (operation, tag) = operation_and_tag(accept);
    let mut params = match confirmation_params(account, time, tag) {
        Ok(params) => params,
        Err(message) => return Err(message),
    };
    params.push(("op", operation.to_owned()));
    let ghost head = signed_params(*account, time, answer_tag(accept)).push(
        ("op"@, crate::request::operation(accept)),
    );
    let mut i: usize = 0;
    assert(pairs(params@) =~= head + target_params(targets@.take(0)));
    while i < targets.len()
        invariant
            i <= targets@.len(),
            pairs(params@) == head + target_params(targets@.take(i as int)),
        decreases targets@.len() - i,
    {
        let ghost before = params@;
        params.push(("cid[]", targets[i].id.clone()));
        params.push(("ck[]", targets[i].nonce.clone()));
        assert(pairs(params@) =~= pairs(before).push(("cid[]"@, targets@[i as int].id@)).push(
            ("ck[]"@, targets@[i as int].nonce@),
        ));
        i = i + 1;
        assert(pairs(params@) =~= head + target_params(targets@.take(i as int)));
    }
    assert(targets@.take(i as int) =~= targets@);
    Ok(params)
}

/// A bulk answer to one confirmation is signed as the single answer is, and
/// names the same identifier and key.
pub proof fn bulk_answer_agrees_with_single(
    account: MobileAccount,
    time: u64,
    target: ConfirmationTarget,
    accept: bool,
)
    ensures
        ({
            let bulk = bulk_params(account, time, seq![target], accept);
            let single = answer_params(account, time, target.id@, target.nonce@, accept);
            &&& bulk.len() == single.len()
            &&& bulk.take(7) == single.take(7)
            &&& bulk[7].1 == single[7].1
            &&& bulk[8].1 == single[8].1
        }),
{
    let bulk = bulk_params(account, time, seq![target], accept);
    let single = answer_params(account, time, target.id@, target.nonce@, accept);
    assert(bulk.take(7) =~= single.take(7));
}

/// A bulk answer names the identifier of each of its targets directly before
/// the key of the same target, and keeps their order.
pub proof fn bulk_answer_keeps_pairs(
    account: MobileAccount,
    time: u64,
    targets: Seq<ConfirmationTarget>,
    accept: bool,
    i: int,
)
    requires
        0 <= i < targets.len(),
    ensures
        ({
            let bulk = bulk_params(account, time, targets, accept);
            &&& bulk.len() == 7 + 2 * targets.len()
            &&& bulk[7 + 2 * i] == ("cid[]"@, targets[i].id@)
            &&& bulk[8 + 2 * i] == ("ck[]"@, targets[i].nonce@)
        }),
{
    let tail = target_params(targets);
    assert(tail[2 * i] == ("cid[]"@, targets[i].id@));
    assert(tail[2 * i + 1] == ("ck[]"@, targets[i].nonce@));
}

// ---------------------------------------------------------------------------
// The session cookie
// ---------------------------------------------------------------------------

/// Whether a byte may stand in the value of an HTTP header.
pub open spec fn is_header_byte(byte: u8) -> bool {
    (byte >= 32 && byte != 127) || byte == 9
}

/// Whether every byte of a text may stand in the value of an HTTP header.
pub open spec fn is_header_text(text: Seq<char>) -> bool {
    forall|i: int| 0 <= i < encode_utf8(text).len() ==> is_header_byte(#[trigger] encode_utf8(text)[i])
}

/// `HeaderValue::from_str` of the http crate, by which reqwest takes a header.
/// It is trusted to refuse a text exactly where one of its bytes is a control
/// character other than the tab.
#[verifier::external_body]
fn fits_header(text: &str) -> (r: bool)
    ensures
        r == is_header_text(text@),
{
    reqwest::header::HeaderValue::from_str(text).is_ok()
}

/// The cookie of an account's session.
pub open spec fn cookie_of(steam_id: u64, access_token: Seq<char>) -> Seq<char> {
    "steamLoginSecure="@ + decimal(steam_id as nat) + "%7C%7C"@ + access_token + "; steamid="@
        + decimal(steam_id as nat)
}

/// The cookie that an account's requests carry, or why they cannot carry one.
pub fn community_cookie(account: &MobileAccount) -> (r: Result<String, String>)
    ensures
        match account.tokens {
            None => r is Err && r->Err_0@ == "Нужна авторизация Steam"@,
            Some(tokens) => {
                let cookie = cookie_of(account.steam_id, tokens.access_token@);
                if is_header_text(cookie) {
                    r is Ok && r->Ok_0@ == cookie
                } else {
                    r is Err && r->Err_0@ == "Некорректная сессия Steam"@
                }
            },
        },
{
    let tokens = match &account.tokens {
        Some(tokens) => tokens,
        None => return Err("Нужна авторизация Steam".to_owned()),
    };
    let id = decimal_text(account.steam_id);
    let mut cookie = "steamLoginSecure=".to_owned();
    cookie.append(id.as_str());
    cookie.append("%7C%7C");
    cookie.append(tokens.access_token.as_str());
    cookie.append("; steamid=");
    cookie.append(id.as_str());
    if fits_header(cookie.as_str()) {
        Ok(cookie)
    } else {
        Err("Некорректная сессия Steam".to_owned())
    }
}

/// Why an account's answers cannot be sent, if they cannot: they cannot be
/// signed, or there is no session that they could carry.
pub open spec fn answer_refusal(account: MobileAccount) -> Option<Seq<char>> {
    match (signing_error(account), account.tokens) {
        (Some(message), _) => Some(message),
        (None, None) => Some("Нужна авторизация Steam"@),
        (None, Some(tokens)) => if is_header_text(
            cookie_of(account.steam_id, tokens.access_token@),
        ) {
            None
        } else {
            Some("Некорректная сессия Steam"@)
        },
    }
}

/// The parameters of the answer to one confirmation, and the cookie that it
/// carries.
pub fn signed_answer(account: &MobileAccount, time: u64, id: &str, nonce: &str, accept: bool) -> (r:
    Result<(Vec<(&'static str, String)>, String), String>)
    ensures
        match r {
            Ok((params, cookie)) => {
                &&& answer_refusal(*account) is None
                &&& pairs(params@) == answer_params(*account, time, id@, nonce@, accept)
                &&& cookie@ == cookie_of(account.steam_id, account.tokens->0.access_token@)
            },
            Err(message) => answer_refusal(*account) == Some(message@),
        },
{
    let params = match response_params(account, time, id, nonce, accept) {
        Ok(params) => params,
        Err(message) => return Err(message),
    };
    match community_cookie(account) {
        Ok(cookie) => Ok((params, cookie)),
        Err(message) => Err(message),
    }
}

/// The parameters of one answer to many confirmations, and the cookie that it
/// carries.
pub fn signed_bulk_answer(
    account: &MobileAccount,
    time: u64,
    targets: &[ConfirmationTarget],
    accept: bool,
) -> (r: Result<(Vec<(&'static str, String)>, String), String>)
    ensures
        match r {
            Ok((params, cookie)) => {
                &&& answer_refusal(*account) is None
                &&& pairs(params@) == bulk_params(*account, time, targets@, accept)
                &&& cookie@ == cookie_of(account.steam_id, account.tokens->0.access_token@)
            },
            Err(message) => answer_refusal(*account) == Some(message@),
        },
{
    let params = match batch_response_params(account, time, targets, accept) {
        Ok(params) => params,
        Err(message) => return Err(message),
    };
    match community_cookie(account) {
        Ok(cookie) => Ok((params, cookie)),
        Err(message) => Err(message),
    }
}

/// What is told of an answer that could not be sent.
pub fn unsent_answer(detail: &str) -> (r: String)
    ensures
        r@ == "Не удалось отправить ответ в Steam: "@ + detail@,
{
    concat2("Не удалось отправить ответ в Steam: ", detail)
}

/// What is told of the answer to a sign-in that could not be given.
pub fn unanswered_login(detail: &str) -> (r: String)
    ensures
        r@ == "Не удалось ответить на запрос входа: "@ + detail@,
{
    concat2("Не удалось ответить на запрос входа: ", detail)
}

// ---------------------------------------------------------------------------
// What an answer says
// ---------------------------------------------------------------------------

/// A request is signed over its time, as eight bytes with the most significant
/// first, and at most 32 bytes of its tag, under the identity secret.
pub proof fn signatures_cover_time_and_tag(
    account: MobileAccount,
    time: u64,
    tag: Seq<char>,
    bytes: Seq<u8>,
)
    requires
        bytes.len() == 8,
        bytes[0] * 0x100_0000_0000_0000 + bytes[1] * 0x1_0000_0000_0000 + bytes[2] * 0x100_0000_0000
            + bytes[3] * 0x1_0000_0000 + bytes[4] * 0x100_0000 + bytes[5] * 0x1_0000 + bytes[6]
            * 0x100 + bytes[7] == time,
    ensures
        ({
            let params = signed_params(account, time, tag);
            let secret = base64_decoded(account.identity_secret@)->0;
            let name = encode_utf8(tag);
            &&& params.len() == 6
            &&& params[0] == ("p"@, account.device_id@)
            &&& params[1] == ("a"@, decimal(account.steam_id as nat))
            &&& params[2].0 == "k"@
            &&& name.len() <= 32 ==> params[2].1 == base64_encoded(hmac_sha1(secret, bytes + name))
            &&& name.len() > 32 ==> params[2].1 == base64_encoded(
                hmac_sha1(secret, bytes + name.subrange(0, 32)),
            )
            &&& params[3] == ("t"@, decimal(time as nat))
            &&& params[4] == ("m"@, "react"@)
            &&& params[5] == ("tag"@, tag)
        }),
{
    be_bytes_are_the_digits(time, bytes);
    let name = encode_utf8(tag);
    if name.len() > 32 {
        assert(name.take(32) =~= name.subrange(0, 32));
    }
}

/// An answer says what the user chose: an accepted confirmation is allowed and
/// any other is cancelled, both in the operation and in the tag that is signed;
/// and it names the confirmation by its own identifier and key.
pub proof fn answers_say_what_was_chosen(
    account: MobileAccount,
    time: u64,
    id: Seq<char>,
    nonce: Seq<char>,
)
    ensures
        ({
            let yes = answer_params(account, time, id, nonce, true);
            let no = answer_params(account, time, id, nonce, false);
            &&& yes.len() == 9 && no.len() == 9
            &&& yes.take(6) == signed_params(account, time, "accept"@)
            &&& no.take(6) == signed_params(account, time, "reject"@)
            &&& yes[6] == ("op"@, "allow"@) && no[6] == ("op"@, "cancel"@)
            &&& yes[7] == ("cid"@, id) && yes[8] == ("ck"@, nonce)
            &&& no[7] == ("cid"@, id) && no[8] == ("ck"@, nonce)
        }),
{
    let yes = answer_params(account, time, id, nonce, true);
    let no = answer_params(account, time, id, nonce, false);
    assert(yes.take(6) =~= signed_params(account, time, "accept"@));
    assert(no.take(6) =~= signed_params(account, time, "reject"@));
}

/// So does an answer to many confirmations.
pub proof fn bulk_answers_say_what_was_chosen(
    account: MobileAccount,
    time: u64,
    targets: Seq<ConfirmationTarget>,
)
    ensures
        ({
            let yes = bulk_params(account, time, targets, true);
            let no = bulk_params(account, time, targets, false);
            &&& yes.take(6) == signed_params(account, time, "accept"@)
            &&& no.take(6) == signed_params(account, time, "reject"@)
            &&& yes[6] == ("op"@, "allow"@) && no[6] == ("op"@, "cancel"@)
        }),
{
    let yes = bulk_params(account, time, targets, true);
    let no = bulk_params(account, time, targets, false);
    assert(yes.take(6) =~= signed_params(account, time, "accept"@));
    assert(no.take(6) =~= signed_params(account, time, "reject"@));
}

/// An account can sign exactly where its identity secret decodes to at least one
/// byte and it has a device identifier.
pub proof fn signing_takes_secret_and_device(account: MobileAccount)
    ensures
        signing_error(account) is None <==> base64_decoded(account.identity_secret@) is Some
            && base64_decoded(account.identity_secret@)->0.len() > 0 && account.device_id@.len()
            > 0,
        base64_decoded(account.identity_secret@) is None ==> signing_error(account) == Some(
            "Некорректный identity_secret в maFile"@,
        ),
        base64_decoded(account.identity_secret@) is Some && signing_error(account) is Some
            ==> signing_error(account) == Some("В maFile не хватает данных для подтверждений"@),
{
}

/// The cookie of a session names the account twice and carries the access token
/// between: as the login, behind the escaped bars, and before the number.
pub proof fn cookies_carry_the_session(steam_id: u64, access_token: Seq<char>)
    ensures
        ({
            let number = decimal(steam_id as nat);
            cookie_of(steam_id, access_token) == "steamLoginSecure="@ + (number + ("%7C%7C"@ + (
            access_token + ("; steamid="@ + number))))
        }),
{
    let number = decimal(steam_id as nat);
    assert(cookie_of(steam_id, access_token) =~= "steamLoginSecure="@ + (number + ("%7C%7C"@ + (
    access_token + ("; steamid="@ + number)))));
}

/// A header refuses the control characters but the tab: no byte below 32 but 9,
/// and not 127.
pub proof fn headers_refuse_control_characters(text: Seq<char>, i: int)
    requires
        0 <= i < encode_utf8(text).len(),
        encode_utf8(text)[i] != 9,
        encode_utf8(text)[i] < 32 || encode_utf8(text)[i] == 127,
    ensures
        !is_header_text(text),
{
    assert(!is_header_byte(encode_utf8(text)[i]));
}

/// A header takes every text without control characters: the tab, the printable
/// bytes and those above them all pass.
pub proof fn headers_take_all_other_texts(text: Seq<char>)
    requires
        forall|i: int|
            0 <= i < encode_utf8(text).len() ==> (#[trigger] encode_utf8(text)[i]) == 9 || (
            encode_utf8(text)[i] >= 32 && encode_utf8(text)[i] != 127),
    ensures
        is_header_text(text),
{
}

/// An answer goes out exactly where the account can sign and has a session that
/// a header can carry; what is missing is told, the signature first.
pub proof fn answers_need_signature_and_session(account: MobileAccount)
    ensures
        answer_refusal(account) is None <==> signing_error(account) is None && (
        account.tokens matches Some(tokens) && is_header_text(
            cookie_of(account.steam_id, tokens.access_token@),
        )),
        signing_error(account) is Some ==> answer_refusal(account) == signing_error(account),
        signing_error(account) is None && account.tokens is None ==> answer_refusal(account) == Some(
            "Нужна авторизация Steam"@,
        ),
        signing_error(account) is None && (account.tokens matches Some(tokens) && !is_header_text(
            cookie_of(account.steam_id, tokens.access_token@),
        )) ==> answer_refusal(account) == Some("Некорректная сессия Steam"@),
{
}

} // verus!
