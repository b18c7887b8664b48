//! Steam Guard codes and device identifiers.
use vstd::prelude::*;
use vstd::string::StringExecFns;
use vstd::utf8::encode_utf8;

use crate::crypto::{base64_decoded, be_bytes, be_bytes_are_the_digits, be_bytes_of, decode_base64, hmac_sha1, hmac_sha1_code, sha1, sha1_digest};
use crate::text::{chars_of, decimal, decimal_text, text_of};

verus! {

/// The seconds for which a Steam Guard code stays the same.
pub const CODE_SECONDS: u64 = 30;

/// The number of characters in a Steam Guard code.
pub const CODE_LENGTH: usize = 5;

/// The characters that Steam Guard codes are written in.
pub open spec fn steam_chars() -> Seq<char> {
    "23456789BCDFGHJKMNPQRTVWXY"@
}

/// The 31-bit number that a 20-byte code yields: four bytes from the offset in
/// its last half byte, without their sign bit.
pub open spec fn truncated(code: Seq<u8>) -> nat {
    let offset = (code[19] % 16) as int;
    ((code[offset] % 128) as nat) * 0x100_0000 + (code[offset + 1] as nat) * 0x1_0000 + (code[offset
        + 2] as nat) * 0x100 + code[offset + 3] as nat
}

/// The `count` lowest digits of `value` in the Steam alphabet, lowest first.
pub open spec fn steam_digits(value: nat, count: nat) -> Seq<char>
    decreases count,
{
    if count == 0 {
        Seq::empty()
    } else {
        seq![steam_chars()[(value % 26) as int]] + steam_digits(value / 26, (count - 1) as nat)
    }
}

/// The Steam Guard code of a secret at a time in seconds.
pub open spec fn guard_code(secret: Seq<u8>, timestamp: u64) -> Seq<char> {
    steam_digits(
        truncated(hmac_sha1(secret, be_bytes((timestamp / CODE_SECONDS) as u64))),
        CODE_LENGTH as nat,
    )
}

/// A code has five characters, all of the Steam alphabet.
pub proof fn guard_code_has_steam_format(secret: Seq<u8>, timestamp: u64)
    ensures
        guard_code(secret, timestamp).len() == CODE_LENGTH,
        forall|i: int|
            0 <= i < CODE_LENGTH ==> steam_chars().contains(#[trigger] guard_code(secret, timestamp)[i]),
{
    let value = truncated(hmac_sha1(secret, be_bytes((timestamp / CODE_SECONDS) as u64)));
    lemma_steam_digits(value, CODE_LENGTH as nat);
}

/// Within one period of 30 seconds the code of a secret does not change.
pub proof fn guard_code_stays_for_a_period(secret: Seq<u8>, first: u64, second: u64)
    requires
        first / 30 == second / 30,
    ensures
        guard_code(secret, first) == guard_code(secret, second),
{
}

/// The number that a code is written from has 31 bits: it is the big-endian
/// number of the four bytes at the offset, without its highest bit. Two codes
/// that differ in that bit alone yield the same number.
pub proof fn code_number_has_31_bits(code: Seq<u8>, other: Seq<u8>)
    requires
        code.len() == 20,
        other.len() == 20,
    ensures
        ({
            let at = code[19] as int % 16;
            let four = code[at] * 0x100_0000 + code[at + 1] * 0x1_0000 + code[at + 2] * 0x100
                + code[at + 3];
            &&& truncated(code) == four % 0x8000_0000
            &&& truncated(code) < 0x8000_0000
            &&& other == code.update(at, (code[at] as int % 128) as u8) && at < 19 ==> truncated(
                other,
            ) == truncated(code)
        }),
{
}

/// A Steam Guard code is the truncated HMAC of the 30-second period in five
/// digits to the base 26, the lowest first. The period is hashed as eight bytes,
/// the most significant first.
pub proof fn guard_code_is_the_truncated_hmac(secret: Seq<u8>, timestamp: u64, period: Seq<u8>)
    requires
        period.len() == 8,
        period[0] * 0x100_0000_0000_0000 + period[1] * 0x1_0000_0000_0000 + period[2]
            * 0x100_0000_0000 + period[3] * 0x1_0000_0000 + period[4] * 0x100_0000 + period[5]
            * 0x1_0000 + period[6] * 0x100 + period[7] == timestamp as int / 30,
    ensures
        ({
            let hash = hmac_sha1(secret, period);
            let at = hash[19] as int % 16;
            let value = (hash[at] * 0x100_0000 + hash[at + 1] * 0x1_0000 + hash[at + 2] * 0x100
                + hash[at + 3]) % 0x8000_0000;
            let letters = "23456789BCDFGHJKMNPQRTVWXY"@;
            &&& guard_code(secret, timestamp).len() == 5
            &&& guard_code(secret, timestamp)[0] == letters[value % 26]
            &&& guard_code(secret, timestamp)[1] == letters[value / 26 % 26]
            &&& guard_code(secret, timestamp)[2] == letters[value / 676 % 26]
            &&& guard_code(secret, timestamp)[3] == letters[value / 17576 % 26]
            &&& guard_code(secret, timestamp)[4] == letters[value / 456976 % 26]
        }),
{
    be_bytes_are_the_digits((timestamp / 30) as u64, period);
    let hash = hmac_sha1(secret, period);
    lemma_code_number(hash);
    lemma_five_digits(truncated(hash));
}

proof fn lemma_code_number(code: Seq<u8>)
    ensures
        ({
            let at = code[19] as int % 16;
            truncated(code) == (code[at] * 0x100_0000 + code[at + 1] * 0x1_0000 + code[at + 2]
                * 0x100 + code[at + 3]) % 0x8000_0000
        }),
{
}

proof fn lemma_five_digits(value: nat)
    ensures
        ({
            let letters = "23456789BCDFGHJKMNPQRTVWXY"@;
            let digits = steam_digits(value, 5);
            &&& digits.len() == 5
            &&& digits[0] == letters[value as int % 26]
            &&& digits[1] == letters[value as int / 26 % 26]
            &&& digits[2] == letters[value as int / 676 % 26]
            &&& digits[3] == letters[value as int / 17576 % 26]
            &&& digits[4] == letters[value as int / 456976 % 26]
        }),
{
    vstd::arithmetic::div_mod::lemma_div_denominator(value as int, 26, 26);
    vstd::arithmetic::div_mod::lemma_div_denominator(value as int, 676, 26);
    vstd::arithmetic::div_mod::lemma_div_denominator(value as int, 17576, 26);
    let v1 = value / 26;
    let v2 = v1 / 26;
    let v3 = v2 / 26;
    let v4 = v3 / 26;
    assert(steam_digits(v4 / 26, 0) =~= Seq::<char>::empty());
    assert(steam_digits(v4, 1) =~= seq![steam_chars()[(v4 % 26) as int]]);
    assert(steam_digits(v3, 2) =~= seq![steam_chars()[(v3 % 26) as int]] + steam_digits(v4, 1));
    assert(steam_digits(v2, 3) =~= seq![steam_chars()[(v2 % 26) as int]] + steam_digits(v3, 2));
    assert(steam_digits(v1, 4) =~= seq![steam_chars()[(v1 % 26) as int]] + steam_digits(v2, 3));
    assert(steam_digits(value, 5) =~= seq![steam_chars()[(value % 26) as int]] + steam_digits(v1, 4));
}

proof fn lemma_steam_digits(value: nat, count: nat)
    ensures
        steam_digits(value, count).len() == count,
        forall|i: int|
            0 <= i < count ==> steam_chars().contains(#[trigger] steam_digits(value, count)[i]),
    decreases count,
{
    reveal_strlit("23456789BCDFGHJKMNPQRTVWXY");
    if count > 0 {
        lemma_steam_digits(value / 26, (count - 1) as nat);
        let rest = steam_digits(value / 26, (count - 1) as nat);
        assert forall|i: int| 0 <= i < count implies steam_chars().contains(
            #[trigger] steam_digits(value, count)[i],
        ) by {
            if i == 0 {
                assert(steam_digits(value, count)[0] == steam_chars()[(value % 26) as int]);
            } else {
                assert(steam_digits(value, count)[i] == rest[i - 1]);
            }
        }
    }
}

/// The Steam Guard code of a secret at a time in seconds.
pub fn generate_code(secret: &[u8], timestamp: u64) -> (r: Option<String>)
    ensures
        r is Some,
        r->0@ == guard_code(secret@, timestamp),
{
    let period = be_bytes_of(timestamp / CODE_SECONDS);
    let code = match hmac_sha1_code(secret, period.as_slice()) {
        Some(code) => code,
        None => return None,
    };
    let offset: usize = (code[19] % 16) as usize;
    let mut value: u32 = ((code[offset] % 128) as u32) * 0x100_0000 + (code[offset + 1] as u32)
        * 0x1_0000 + (code[offset + 2] as u32) * 0x100 + code[offset + 3] as u32;
    let ghost first = value as nat;
    let alphabet = chars_of("23456789BCDFGHJKMNPQRTVWXY");
    proof {
        reveal_strlit("23456789BCDFGHJKMNPQRTVWXY");
    }
    let mut out = String::new();
    let mut i: usize = 0;
    while i < CODE_LENGTH
        invariant
            i <= CODE_LENGTH,
            alphabet@ == steam_chars(),
            alphabet@.len() == 26,
            steam_digits(first, CODE_LENGTH as nat) =~= out@ + steam_digits(
                value as nat,
                (CODE_LENGTH - i) as nat,
            ),
        decreases CODE_LENGTH - i,
    {
        out.push(alphabet[(value % 26) as usize]);
        value = value / 26;
        i = i + 1;
    }
    Some(out)
}

/// The Steam Guard code of a shared secret in Base64 at a time in seconds.
pub fn steam_guard_code(shared_secret: &str, timestamp: u64) -> (r: Result<String, String>)
    ensures
        match r {
            Ok(code) => base64_decoded(shared_secret@) is Some && code@ == guard_code(
                base64_decoded(shared_secret@)->0,
                timestamp,
            ),
            Err(message) => base64_decoded(shared_secret@) is None && message@
                == "Некорректный shared_secret"@,
        },
{
    let secret = match decode_base64(shared_secret) {
        Some(secret) => secret,
        None => return Err("Некорректный shared_secret".to_owned()),
    };
    match generate_code(secret.as_slice(), timestamp) {
        Some(code) => Ok(code),
        None => Err("Не удалось создать HMAC".to_owned()),
    }
}

/// `TwoFactorSecret::generate_code` of steamguard. It is trusted to make the
/// same code of a secret as the rest of the library does.
#[verifier::external_body]
pub(crate) fn authenticator_code(secret: &[u8; 20], timestamp: u64) -> (r: String)
    ensures
        r@ == guard_code(secret@, timestamp),
{
    steamguard::token::TwoFactorSecret::from_bytes(secret.to_vec()).generate_code(timestamp)
}

/// The lower-case hexadecimal digit of a value below 16.
pub open spec fn hex_digit(d: int) -> char {
    if d < 10 {
        (48 + d) as char
    } else {
        (87 + d) as char
    }
}

/// The lower-case hexadecimal notation of a row of bytes.
pub open spec fn hex(bytes: Seq<u8>) -> Seq<char> {
    Seq::new(
        2 * bytes.len(),
        |i: int|
            if i % 2 == 0 {
                hex_digit(bytes[i / 2] as int / 16)
            } else {
                hex_digit(bytes[i / 2] as int % 16)
            },
    )
}

/// The identifier of the device that Steam's own application would have on an
/// account: a hash of the account's number in the form of a UUID.
pub open spec fn device_id_of(steam_id: u64) -> Seq<char> {
    let digits = hex(sha1(encode_utf8(decimal(steam_id as nat))));
    "android:"@ + digits.subrange(0, 8) + "-"@ + digits.subrange(8, 12) + "-"@ + digits.subrange(
        12,
        16,
    ) + "-"@ + digits.subrange(16, 20) + "-"@ + digits.subrange(20, 32)
}

fn hex_digit_of(d: u8) -> (r: char)
    requires
        d < 16,
    ensures
        r == hex_digit(d as int),
{
    if d < 10 {
        (48 + d) as char
    } else {
        (87 + d) as char
    }
}

fn hex_chars(bytes: &[u8]) -> (r: Vec<char>)
    ensures
        r@ == hex(bytes@),
{
    let mut out: Vec<char> = Vec::new();
    let mut i: usize = 0;
    while i < bytes.len()
        invariant
            i <= bytes@.len(),
            out@ == hex(bytes@.take(i as int)),
        decreases bytes@.len() - i,
    {
        out.push(hex_digit_of(bytes[i] / 16));
        out.push(hex_digit_of(bytes[i] % 16));
        i = i + 1;
        assert(out@ =~= hex(bytes@.take(i as int)));
    }
    assert(bytes@.take(i as int) =~= bytes@);
    out
}

/// The device identifier of a Steam account.
pub fn steam_device_id(steam_id: u64) -> (r: String)
    ensures
        r@ == device_id_of(steam_id),
{
    let number = decimal_text(steam_id);
    let digest = sha1_digest(number.as_str().as_bytes());
    let digits = hex_chars(digest.as_slice());
    let mut out = "android:".to_owned();
    out.append(text_of(digits.as_slice(), 0, 8).as_str());
    out.append("-");
    out.append(text_of(digits.as_slice(), 8, 12).as_str());
    out.append("-");
    out.append(text_of(digits.as_slice(), 12, 16).as_str());
    out.append("-");
    out.append(text_of(digits.as_slice(), 16, 20).as_str());
    out.append("-");
    out.append(text_of(digits.as_slice(), 20, 32).as_str());
    out
}

/// The value of a lower-case hexadecimal digit.
pub open spec fn hex_value(c: char) -> Option<int> {
    if '0' <= c <= '9' {
        Some(c as int - '0' as int)
    } else if 'a' <= c <= 'f' {
        Some(c as int - 'a' as int + 10)
    } else {
        None
    }
}

/// Where the two digits of the byte number `k` of the hash stand in a device
/// identifier.
pub open spec fn device_place(k: int) -> int {
    if k < 4 {
        8 + 2 * k
    } else if k < 6 {
        9 + 2 * k
    } else if k < 8 {
        10 + 2 * k
    } else if k < 10 {
        11 + 2 * k
    } else {
        12 + 2 * k
    }
}

/// A device identifier is `android:` and a UUID: 8, 4, 4, 4 and 12 hexadecimal
/// digits between dashes, which are the first sixteen bytes of the hash of the
/// account's number in decimal.
pub proof fn device_id_is_a_hashed_uuid(steam_id: u64, k: int)
    requires
        sha1(encode_utf8(decimal(steam_id as nat))).len() == 20,
        0 <= k < 16,
    ensures
        ({
            let id = device_id_of(steam_id);
            let hash = sha1(encode_utf8(decimal(steam_id as nat)));
            let at = device_place(k);
            &&& id.len() == 44
            &&& id.take(8) == "android:"@
            &&& id[16] == '-' && id[21] == '-' && id[26] == '-' && id[31] == '-'
            &&& hex_value(id[at]) is Some && hex_value(id[at + 1]) is Some
            &&& hex_value(id[at])->0 * 16 + hex_value(id[at + 1])->0 == hash[k]
        }),
{
    reveal_strlit("android:");
    reveal_strlit("-");
    let hash = sha1(encode_utf8(decimal(steam_id as nat)));
    let digits = hex(hash);
    assert(digits[2 * k] == hex_digit(hash[k] as int / 16));
    assert(digits[2 * k + 1] == hex_digit(hash[k] as int % 16));
    assert(device_id_of(steam_id).take(8) =~= "android:"@);
    let at = device_place(k);
    assert(device_id_of(steam_id)[at] == digits[2 * k]);
    assert(device_id_of(steam_id)[at + 1] == digits[2 * k + 1]);
}

} // verus!
