//! The cryptographic primitives and encodings that other crates compute.
//!
//! Each function here makes one call into such a crate. What the call computes
//! is named by a spec function, and the rest of the library speaks of that name.
use vstd::prelude::*;

verus! {

/// What the standard padded Base64 alphabet makes of `bytes`.
pub uninterp spec fn base64_encoded(bytes: Seq<u8>) -> Seq<char>;

/// The bytes that a standard padded Base64 text stands for, if it is one.
pub uninterp spec fn base64_decoded(text: Seq<char>) -> Option<Seq<u8>>;

/// The HMAC-SHA1 code of `message` under `key`.
pub uninterp spec fn hmac_sha1(key: Seq<u8>, message: Seq<u8>) -> Seq<u8>;

/// The SHA-1 digest of `message`.
pub uninterp spec fn sha1(message: Seq<u8>) -> Seq<u8>;

/// The 32 bytes that Argon2 with its default parameters derives from a password
/// and a salt, or the description of why it derives none.
pub uninterp spec fn argon2_key(password: Seq<u8>, salt: Seq<u8>) -> Result<Seq<u8>, Seq<char>>;

/// What AES-256-GCM makes of `plaintext` under a key and a nonce, the tag
/// behind the text, or nothing where the text is too long for the mode.
pub uninterp spec fn aes_gcm_sealed(key: Seq<u8>, nonce: Seq<u8>, plaintext: Seq<u8>) -> Option<
    Seq<u8>,
>;

/// The plaintext that AES-256-GCM finds in `ciphertext` under a key and a
/// nonce, if the tag behind the text is right.
pub uninterp spec fn aes_gcm_opened(key: Seq<u8>, nonce: Seq<u8>, ciphertext: Seq<u8>) -> Option<
    Seq<u8>,
>;

/// Whether the Base64 text of `count` bytes fits a buffer of this machine.
pub open spec fn encodable(count: nat) -> bool {
    4 * (count / 3 + 1) <= isize::MAX
}

/// `Engine::encode` of base64's `STANDARD` engine. It is trusted to give the
/// Base64 text of the bytes, and `Engine::decode` to read that text back as the
/// same bytes. Its buffer of four characters for each three bytes must fit the
/// machine's address space, else it panics.
#[verifier::external_body]
pub(crate) fn encode_base64(bytes: &[u8]) -> (r: String)
    requires
        encodable(bytes@.len()),
    ensures
        r@ == base64_encoded(bytes@),
        base64_decoded(r@) == Some(bytes@),
{
    base64::Engine::encode(&base64::engine::general_purpose::STANDARD, bytes)
}

/// `Engine::decode` of base64's `STANDARD` engine. It is trusted to give the
/// bytes that the text stands for, and an error, whose kind is dropped here,
/// for a text that is no padded Base64.
#[verifier::external_body]
pub(crate) fn decode_base64(text: &str) -> (r: Option<Vec<u8>>)
    ensures
        r.is_some() == base64_decoded(text@).is_some(),
        r matches Some(bytes) ==> base64_decoded(text@) == Some(bytes@),
{
    base64::Engine::decode(&base64::engine::general_purpose::STANDARD, text).ok()
}

/// `Hmac::<Sha1>` of the hmac and sha1 crates, over one message. It is trusted
/// to give the HMAC-SHA1 code, which has 20 bytes, and to take a key of any
/// length: `new_from_slice` returns no error.
#[verifier::external_body]
pub(crate) fn hmac_sha1_code(key: &[u8], message: &[u8]) -> (r: Option<Vec<u8>>)
    ensures
        r is Some,
        r->0@ == hmac_sha1(key@, message@),
        r->0@.len() == 20,
{
    let mut mac = <hmac::Hmac<sha1::Sha1> as hmac::Mac>::new_from_slice(key).ok()?;
    hmac::Mac::update(&mut mac, message);
    Some(hmac::Mac::finalize(mac).into_bytes().to_vec())
}

/// `Sha1::digest` of the sha1 crate. It is trusted to give the SHA-1 digest,
/// which has 20 bytes.
#[verifier::external_body]
pub(crate) fn sha1_digest(message: &[u8]) -> (r: Vec<u8>)
    ensures
        r@ == sha1(message@),
        r@.len() == 20,
{
    <sha1::Sha1 as sha1::Digest>::digest(message).to_vec()
}

/// `Argon2::hash_password_into` of the argon2 crate with the default
/// parameters. It is trusted to derive the key, to succeed on every password of
/// at most `u32::MAX` bytes with this salt length, and to describe its error
/// otherwise.
#[verifier::external_body]
pub(crate) fn derive_argon2(password: &[u8], salt: &[u8; 16]) -> (r: Result<[u8; 32], String>)
    ensures
        match r {
            Ok(key) => argon2_key(password@, salt@) == Ok::<Seq<u8>, Seq<char>>(key@),
            Err(text) => argon2_key(password@, salt@) == Err::<Seq<u8>, Seq<char>>(text@),
        },
        r is Ok <==> password@.len() <= u32::MAX,
{
    let mut key = [0_u8; 32];
    match argon2::Argon2::default().hash_password_into(password, salt, &mut key) {
        Ok(()) => Ok(key),
        Err(error) => Err(error.to_string()),
    }
}

/// `Aead::encrypt` of aes-gcm's `Aes256Gcm`. It is trusted to give the
/// ciphertext with the 16 bytes of the tag behind it, to fail only on a text of
/// more than 2^36 bytes, and `Aead::decrypt` to open the result under the same
/// key and nonce. The buffer for text and tag must fit the machine's address
/// space, else it panics.
#[verifier::external_body]
pub(crate) fn encrypt_aes_gcm(key: &[u8; 32], nonce: &[u8; 12], plaintext: &[u8]) -> (r: Option<
    Vec<u8>,
>)
    requires
        plaintext@.len() + 16 <= isize::MAX,
    ensures
        r.is_some() == (plaintext@.len() <= 0x10_0000_0000),
        r.is_some() == aes_gcm_sealed(key@, nonce@, plaintext@).is_some(),
        r matches Some(ciphertext) ==> {
            &&& aes_gcm_sealed(key@, nonce@, plaintext@) == Some(ciphertext@)
            &&& aes_gcm_opened(key@, nonce@, ciphertext@) == Some(plaintext@)
            &&& ciphertext@.len() == plaintext@.len() + 16
        },
{
    let cipher = <aes_gcm::Aes256Gcm as aes_gcm::KeyInit>::new(key.into());
    aes_gcm::aead::Aead::encrypt(&cipher, nonce.into(), plaintext).ok()
}

/// `Aead::decrypt` of aes-gcm's `Aes256Gcm`. It is trusted to give the
/// plaintext where the tag is right, and an error otherwise.
#[verifier::external_body]
pub(crate) fn decrypt_aes_gcm(key: &[u8; 32], nonce: &[u8; 12], ciphertext: &[u8]) -> (r: Option<
    Vec<u8>,
>)
    ensures
        r.is_some() == aes_gcm_opened(key@, nonce@, ciphertext@).is_some(),
        r matches Some(plaintext) ==> aes_gcm_opened(key@, nonce@, ciphertext@) == Some(
            plaintext@,
        ),
{
    let cipher = <aes_gcm::Aes256Gcm as aes_gcm::KeyInit>::new(key.into());
    aes_gcm::aead::Aead::decrypt(&cipher, nonce.into(), ciphertext).ok()
}

/// `getrandom::fill` on an array. Nothing is promised of the bytes, of when the
/// system's source fails, or of how it then describes itself.
#[verifier::external_body]
pub(crate) fn random_bytes<const N: usize>() -> (r: Result<[u8; N], String>) {
    let mut bytes = [0_u8; N];
    match getrandom::fill(&mut bytes) {
        Ok(()) => Ok(bytes),
        Err(error) => Err(error.to_string()),
    }
}

/// `Zeroize::zeroize` of the zeroize crate on a `String`. It is trusted to
/// leave the text empty; that the memory behind it is overwritten is not
/// something a contract can speak of.
#[verifier::external_body]
pub(crate) fn wipe_text(secret: &mut String)
    ensures
        final(secret)@ == Seq::<char>::empty(),
{
    zeroize::Zeroize::zeroize(secret)
}

/// `Zeroize::zeroize` of the zeroize crate on a vector of bytes. It is trusted
/// to leave the vector empty.
#[verifier::external_body]
pub(crate) fn wipe_bytes(secret: &mut Vec<u8>)
    ensures
        final(secret)@ == Seq::<u8>::empty(),
{
    zeroize::Zeroize::zeroize(secret)
}

/// `Zeroize::zeroize` of the zeroize crate on a key. It is trusted to set every
/// byte to zero.
#[verifier::external_body]
pub(crate) fn wipe_key(secret: &mut [u8; 32])
    ensures
        final(secret)@ == Seq::new(32, |i: int| 0u8),
{
    zeroize::Zeroize::zeroize(secret)
}

/// The eight bytes of a number, the most significant first.
pub open spec fn be_bytes(n: u64) -> Seq<u8> {
    seq![
        (n / 0x100_0000_0000_0000) as u8,
        (n / 0x1_0000_0000_0000 % 256) as u8,
        (n / 0x100_0000_0000 % 256) as u8,
        (n / 0x1_0000_0000 % 256) as u8,
        (n / 0x100_0000 % 256) as u8,
        (n / 0x1_0000 % 256) as u8,
        (n / 0x100 % 256) as u8,
        (n % 256) as u8,
    ]
}

/// The eight bytes of a number, the most significant first.
pub fn be_bytes_of(n: u64) -> (r: Vec<u8>)
    ensures
        r@ == be_bytes(n),
{
    let mut out: Vec<u8> = Vec::new();
    out.push((n / 0x100_0000_0000_0000) as u8);
    out.push((n / 0x1_0000_0000_0000 % 256) as u8);
    out.push((n / 0x100_0000_0000 % 256) as u8);
    out.push((n / 0x1_0000_0000 % 256) as u8);
    out.push((n / 0x100_0000 % 256) as u8);
    out.push((n / 0x1_0000 % 256) as u8);
    out.push((n / 0x100 % 256) as u8);
    out.push((n % 256) as u8);
    out
}

/// The bytes of a number are its digits to the base 256, the most significant
/// first: there are eight, and no other eight bytes have the same value.
pub proof fn be_bytes_are_the_digits(n: u64, bytes: Seq<u8>)
    requires
        bytes.len() == 8,
        bytes[0] * 0x100_0000_0000_0000 + bytes[1] * 0x1_0000_0000_0000 + bytes[2] * 0x100_0000_0000
            + bytes[3] * 0x1_0000_0000 + bytes[4] * 0x100_0000 + bytes[5] * 0x1_0000 + bytes[6]
            * 0x100 + bytes[7] == n,
    ensures
        bytes == be_bytes(n),
{
    let own = be_bytes(n);
    let m = n as int;
    lemma_digit(m, 1);
    lemma_digit(m, 0x100);
    lemma_digit(m, 0x1_0000);
    lemma_digit(m, 0x100_0000);
    lemma_digit(m, 0x1_0000_0000);
    lemma_digit(m, 0x100_0000_0000);
    lemma_digit(m, 0x1_0000_0000_0000);
    let k7 = bytes[0] as int;
    let k6 = k7 * 256 + bytes[1];
    let k5 = k6 * 256 + bytes[2];
    let k4 = k5 * 256 + bytes[3];
    let k3 = k4 * 256 + bytes[4];
    let k2 = k3 * 256 + bytes[5];
    let k1 = k2 * 256 + bytes[6];
    lemma_last_digit(m, k1, bytes[7]);
    lemma_last_digit(k1, k2, bytes[6]);
    lemma_last_digit(k2, k3, bytes[5]);
    lemma_last_digit(k3, k4, bytes[4]);
    lemma_last_digit(k4, k5, bytes[3]);
    lemma_last_digit(k5, k6, bytes[2]);
    lemma_last_digit(k6, k7, bytes[1]);
    assert(bytes =~= own);
}

proof fn lemma_digit(n: int, place: int)
    requires
        0 <= n,
        0 < place,
    ensures
        n / (place * 256) == n / place / 256,
{
    vstd::arithmetic::div_mod::lemma_div_denominator(n, place, 256);
}

proof fn lemma_last_digit(n: int, rest: int, last: u8)
    requires
        n == rest * 256 + last,
    ensures
        n / 256 == rest,
        n % 256 == last,
{
}

} // verus!
