//! The outside routines the vault is built on: SHA-512 from `sha2`,
//! AES-256-GCM and the operating system's random source from `aes-gcm`,
//! standard base64 from `base64`, and UTF-8 validation from std.
//!
//! Every item here is trusted: its contract is believed, not proved.
//! Results that would take pages to state are given a name (a spec
//! function without a body); each wrapper ties its result to that name.
use vstd::prelude::*;
use vstd::utf8::{decode_utf8, valid_utf8};

use aes_gcm::aead::rand_core::RngCore;
use aes_gcm::aead::{Aead, KeyInit, OsRng};
use aes_gcm::{Aes256Gcm, Key, Nonce};
use base64::engine::general_purpose::STANDARD;
use base64::Engine;
use sha2::{Digest, Sha512};

verus! {

/// Length in bytes of a SHA-512 digest.
pub const DIGEST_LEN: usize = 64;

/// Length in bytes of an AES-256 key.
pub const KEY_LEN: usize = 32;

/// Length in bytes of an AES-GCM nonce.
pub const NONCE_LEN: usize = 12;

/// Length in bytes of the authentication tag that AES-GCM appends.
pub const TAG_LEN: usize = 16;

/// Largest plaintext, in bytes, that AES-GCM accepts (2^36).
pub const MAX_PLAINTEXT_LEN: u64 = 68719476736;

/// The SHA-512 digest of `data`.
pub uninterp spec fn sha512(data: Seq<u8>) -> Seq<u8>;

/// What AES-256-GCM encryption without associated data yields for `plaintext`
/// under `key` and `nonce`: the ciphertext followed by the tag.
pub uninterp spec fn aes256_gcm_seal(key: Seq<u8>, nonce: Seq<u8>, plaintext: Seq<u8>) -> Seq<u8>;

/// What AES-256-GCM decryption without associated data yields for
/// `ciphertext` (ciphertext followed by tag) under `key` and `nonce`:
/// the plaintext, or `None` when authentication fails.
pub uninterp spec fn aes256_gcm_open(key: Seq<u8>, nonce: Seq<u8>, ciphertext: Seq<u8>) -> Option<Seq<u8>>;

/// The padded standard-alphabet base64 text of `data`.
pub uninterp spec fn base64_encode(data: Seq<u8>) -> Seq<char>;

/// The bytes that padded standard-alphabet base64 `text` stands for, or
/// `None` when `text` is not canonical padded base64.
pub uninterp spec fn base64_decode(text: Seq<char>) -> Option<Seq<u8>>;

/// Whether the base64 text of `n` bytes has a length that fits in `usize`:
/// four characters for each started group of three bytes.
pub open spec fn base64_len_fits(n: int) -> bool {
    (n / 3) * 4 + (if n % 3 == 0 { 0int } else { 4int }) <= usize::MAX
}

/// The error type of `aes_gcm`'s `Aead::encrypt` and `Aead::decrypt`.
#[verifier::external_type_specification]
#[verifier::external_body]
pub struct ExAeadError(aes_gcm::Error);

/// The error type of `base64`'s `Engine::decode`.
#[verifier::external_type_specification]
#[verifier::external_body]
pub struct ExBase64DecodeError(base64::DecodeError);

/// The error type of std's `String::from_utf8`.
#[verifier::external_type_specification]
#[verifier::external_body]
pub struct ExFromUtf8Error(std::string::FromUtf8Error);

/// Calls `sha2::Sha512::digest`. Claimed: the result is the digest named
/// `sha512` of the input, and it is 64 bytes long.
#[verifier::external_body]
pub(crate) fn sha512_digest(data: &[u8]) -> (digest: Vec<u8>)
    ensures
        digest@ == sha512(data@),
        digest@.len() == DIGEST_LEN,
{
    Sha512::digest(data).to_vec()
}

/// Calls `aes_gcm`'s `Aead::encrypt` for `Aes256Gcm` with no associated data.
/// Claimed, as `aes-gcm` 0.10 shows: it fails exactly when the plaintext is
/// longer than 2^36 bytes; on success the result is the value named
/// `aes256_gcm_seal`, 16 bytes (the tag) longer than the plaintext, and
/// decrypting it with the same key and nonce gives the plaintext back.
/// `Key::from_slice` and `Nonce::from_slice` panic on other lengths, which
/// `requires` leaves out.
#[verifier::external_body]
pub(crate) fn aes256_gcm_encrypt(key: &[u8], nonce: &[u8], plaintext: &[u8]) -> (res: Result<
    Vec<u8>,
    aes_gcm::Error,
>)
    requires
        key@.len() == KEY_LEN,
        nonce@.len() == NONCE_LEN,
    ensures
        res is Ok <==> plaintext@.len() <= MAX_PLAINTEXT_LEN,
        res matches Ok(sealed) ==> sealed@ == aes256_gcm_seal(key@, nonce@, plaintext@),
        res matches Ok(sealed) ==> sealed@.len() == plaintext@.len() + TAG_LEN,
        res matches Ok(sealed) ==> aes256_gcm_open(key@, nonce@, sealed@) == Some(plaintext@),
{
    let cipher = Aes256Gcm::new(Key::<Aes256Gcm>::from_slice(key));
    cipher.encrypt(Nonce::from_slice(nonce), plaintext)
}

/// Calls `aes_gcm`'s `Aead::decrypt` for `Aes256Gcm` with no associated data.
/// Claimed: the result is the value named `aes256_gcm_open`, an error where
/// that is `None`.
#[verifier::external_body]
pub(crate) fn aes256_gcm_decrypt(key: &[u8], nonce: &[u8], ciphertext: &[u8]) -> (res: Result<
    Vec<u8>,
    aes_gcm::Error,
>)
    requires
        key@.len() == KEY_LEN,
        nonce@.len() == NONCE_LEN,
    ensures
        match res {
            Ok(plaintext) => aes256_gcm_open(key@, nonce@, ciphertext@) == Some(plaintext@),
            Err(_) => aes256_gcm_open(key@, nonce@, ciphertext@) is None,
        },
{
    let cipher = Aes256Gcm::new(Key::<Aes256Gcm>::from_slice(key));
    cipher.decrypt(Nonce::from_slice(nonce), ciphertext)
}

/// Fills a buffer of `len` bytes from `aes_gcm::aead::OsRng` (`fill_bytes`).
/// Claimed: only the length. The bytes come from the operating system and
/// nothing is stated of their values.
#[verifier::external_body]
pub(crate) fn random_bytes(len: usize) -> (bytes: Vec<u8>)
    ensures
        bytes@.len() == len,
{
    let mut bytes = vec![0u8; len];
    OsRng.fill_bytes(&mut bytes);
    bytes
}

/// Calls `base64`'s `Engine::encode` on the `STANDARD` engine. Claimed: the
/// result is the text named `base64_encode`, and decoding that text gives the
/// input back. The crate panics when the text's length overflows `usize`,
/// which `requires` leaves out.
#[verifier::external_body]
pub(crate) fn base64_encode_bytes(data: &[u8]) -> (text: String)
    requires
        base64_len_fits(data@.len() as int),
    ensures
        text@ == base64_encode(data@),
        base64_decode(text@) == Some(data@),
{
    STANDARD.encode(data)
}

/// Calls `base64`'s `Engine::decode` on the `STANDARD` engine. Claimed: the
/// result is the value named `base64_decode`, an error where that is `None`.
#[verifier::external_body]
pub(crate) fn base64_decode_text(text: &str) -> (res: Result<Vec<u8>, base64::DecodeError>)
    ensures
        match res {
            Ok(data) => base64_decode(text@) == Some(data@),
            Err(_) => base64_decode(text@) is None,
        },
{
    STANDARD.decode(text)
}

/// Calls std's `String::from_utf8`. Claimed, as std documents: it succeeds
/// exactly on valid UTF-8, and then the text is what the bytes decode to.
#[verifier::external_body]
pub(crate) fn string_from_utf8(bytes: Vec<u8>) -> (res: Result<String, std::string::FromUtf8Error>)
    ensures
        match res {
            Ok(text) => valid_utf8(bytes@) && text@ == decode_utf8(bytes@),
            Err(_) => !valid_utf8(bytes@),
        },
{
    String::from_utf8(bytes)
}

} // verus!
