//! Key derivation and the encrypted text form in which every secret of the
//! vault is stored: base64 of a random 12-byte nonce followed by the
//! AES-256-GCM ciphertext and tag.
use vstd::prelude::*;
use vstd::utf8::{decode_utf8, encode_utf8, encode_utf8_decode_utf8, encode_utf8_valid_utf8, valid_utf8};

use crate::backend::{
    aes256_gcm_decrypt, aes256_gcm_encrypt, aes256_gcm_open, aes256_gcm_seal, base64_decode,
    base64_decode_text, base64_encode, base64_encode_bytes, base64_len_fits, random_bytes,
    sha512, sha512_digest, string_from_utf8, KEY_LEN, MAX_PLAINTEXT_LEN, NONCE_LEN, TAG_LEN,
};

verus! {

/// Reported when the stored text is not base64.
pub const ERR_NOT_BASE64: &'static str = "stored key is not valid base64";

/// Reported when the decoded blob has no room for a ciphertext after the nonce.
pub const ERR_TOO_SHORT: &'static str = "stored key is too short";

/// Reported when AES-GCM authentication fails, most often under a wrong master key.
pub const ERR_DECRYPTION_FAILED: &'static str = "decryption failed (wrong master key?)";

/// Reported when the decrypted bytes are not UTF-8 text.
pub const ERR_NOT_UTF8: &'static str = "decrypted data is not valid UTF-8";

/// A 32-byte AES-256 key derived from the master key.
pub struct VaultKey {
    bytes: Vec<u8>,
}

impl VaultKey {
    #[verifier::type_invariant]
    spec fn has_key_len(self) -> bool {
        self.bytes@.len() == KEY_LEN
    }

    /// The key's bytes.
    pub fn as_bytes(&self) -> (bytes: &[u8])
        ensures
            bytes@ == self@,
            bytes@.len() == KEY_LEN,
    {
        proof {
            use_type_invariant(self);
        }
        self.bytes.as_slice()
    }
}

impl View for VaultKey {
    type V = Seq<u8>;

    closed spec fn view(&self) -> Seq<u8> {
        self.bytes@
    }
}

/// The key derived from `master` and `salt`: the first half of the SHA-512
/// digest of the master key's UTF-8 bytes followed by the salt.
pub open spec fn spec_derive_key(master: Seq<char>, salt: Seq<u8>) -> Seq<u8> {
    sha512(encode_utf8(master) + salt).subrange(0, KEY_LEN as int)
}

/// The bytes stored for `plaintext` sealed under `key` with `nonce`: the
/// nonce followed by the AES-GCM ciphertext and tag.
pub open spec fn sealed_blob(key: Seq<u8>, nonce: Seq<u8>, plaintext: Seq<u8>) -> Seq<u8> {
    nonce + aes256_gcm_seal(key, nonce, plaintext)
}

/// The stored text of `plaintext` sealed under `key` with `nonce`: the base64
/// text of its sealed blob.
pub open spec fn sealed_text(key: Seq<u8>, nonce: Seq<u8>, plaintext: Seq<u8>) -> Seq<char> {
    base64_encode(sealed_blob(key, nonce, plaintext))
}

/// The stored text `text` is, under `key` and `nonce`, the seal of
/// `plaintext`: it is the base64 text of the sealed blob, it decodes back to
/// that blob, and the blob is the 12-byte nonce, the ciphertext and the
/// 16-byte tag.
pub open spec fn is_sealed_text(key: Seq<u8>, nonce: Seq<u8>, plaintext: Seq<u8>, text: Seq<char>) -> bool {
    &&& nonce.len() == NONCE_LEN
    &&& text == sealed_text(key, nonce, plaintext)
    &&& base64_decode(text) == Some(sealed_blob(key, nonce, plaintext))
    &&& sealed_blob(key, nonce, plaintext).len() == NONCE_LEN + plaintext.len() + TAG_LEN
}

/// Whether a plaintext of `n` bytes can be sealed: AES-GCM takes at most 2^36
/// bytes, and the base64 text of nonce, ciphertext and tag must fit in memory.
pub open spec fn sealable_len(n: int) -> bool {
    n <= MAX_PLAINTEXT_LEN && base64_len_fits(n + NONCE_LEN + TAG_LEN)
}

/// Reading decrypted bytes as text: the UTF-8 text they encode, or the error
/// that they are not UTF-8.
pub open spec fn text_of_bytes(bytes: Seq<u8>) -> Result<Seq<char>, Seq<char>> {
    if valid_utf8(bytes) {
        Ok(decode_utf8(bytes))
    } else {
        Err(ERR_NOT_UTF8@)
    }
}

/// What an AES-GCM opening result reads as: the failed-authentication error,
/// or the plaintext as text.
pub open spec fn spec_read_opened(opened: Option<Seq<u8>>) -> Result<Seq<char>, Seq<char>> {
    match opened {
        None => Err(ERR_DECRYPTION_FAILED@),
        Some(plaintext) => text_of_bytes(plaintext),
    }
}

/// What opening a decoded blob under `key` gives: the too-short error when no
/// ciphertext follows the 12-byte nonce, else what the AES-GCM opening of the
/// rest under that nonce reads as.
pub open spec fn spec_open_blob(key: Seq<u8>, blob: Seq<u8>) -> Result<Seq<char>, Seq<char>> {
    if blob.len() <= NONCE_LEN {
        Err(ERR_TOO_SHORT@)
    } else {
        spec_read_opened(
            aes256_gcm_open(
                key,
                blob.subrange(0, NONCE_LEN as int),
                blob.subrange(NONCE_LEN as int, blob.len() as int),
            ),
        )
    }
}

/// What decrypting the stored `text` under `key` gives: the plaintext as text,
/// or the first of the errors (not base64, too short, failed authentication,
/// not UTF-8) that applies.
pub open spec fn spec_decrypt(key: Seq<u8>, text: Seq<char>) -> Result<Seq<char>, Seq<char>> {
    match base64_decode(text) {
        None => Err(ERR_NOT_BASE64@),
        Some(blob) => spec_open_blob(key, blob),
    }
}

/// A `Result` of strings seen as character sequences.
pub open spec fn result_view(res: Result<String, String>) -> Result<Seq<char>, Seq<char>> {
    match res {
        Ok(s) => Ok(s@),
        Err(e) => Err(e@),
    }
}

/// The concatenation of two byte slices.
fn concat_bytes(first: &[u8], second: &[u8]) -> (joined: Vec<u8>)
    ensures
        joined@ == first@ + second@,
{
    let mut joined = vstd::slice::slice_to_vec(first);
    let mut rest = vstd::slice::slice_to_vec(second);
    joined.append(&mut rest);
    joined
}

/// Derives the vault key from the master key and the salt: the first 32 bytes
/// of SHA-512 over the master key's bytes followed by the salt.
pub fn derive_key(master: &str, salt: &[u8]) -> (key: VaultKey)
    ensures
        key@ == spec_derive_key(master@, salt@),
{
    let input = concat_bytes(master.as_bytes(), salt);
    let digest = sha512_digest(input.as_slice());
    let bytes = vstd::slice::slice_to_vec(vstd::slice::slice_subrange(digest.as_slice(), 0, KEY_LEN));
    VaultKey { bytes }
}

/// Seals `plaintext` under `key` with the given nonce and returns its stored
/// text. Decrypting that text under the same key gives back the plaintext read
/// as UTF-8.
pub fn encrypt_with_nonce(key: &VaultKey, nonce: &[u8], plaintext: &[u8]) -> (text: String)
    requires
        nonce@.len() == NONCE_LEN,
        sealable_len(plaintext@.len() as int),
    ensures
        is_sealed_text(key@, nonce@, plaintext@, text@),
        spec_decrypt(key@, text@) == text_of_bytes(plaintext@),
{
    let key_bytes = key.as_bytes();
    let sealed = match aes256_gcm_encrypt(key_bytes, nonce, plaintext) {
        Ok(sealed) => sealed,
        Err(_) => {
            proof {
                assert(false);
            }
            Vec::new()
        },
    };
    let blob = concat_bytes(nonce, sealed.as_slice());
    let text = base64_encode_bytes(blob.as_slice());
    proof {
        assert(blob@.subrange(0, NONCE_LEN as int) =~= nonce@);
        assert(blob@.subrange(NONCE_LEN as int, blob@.len() as int) =~= sealed@);
    }
    text
}

/// Seals `plaintext` under `key` with a fresh random nonce and returns its
/// stored text. Decrypting that text under the same key gives back the
/// plaintext read as UTF-8.
pub fn encrypt(key: &VaultKey, plaintext: &[u8]) -> (text: String)
    requires
        sealable_len(plaintext@.len() as int),
    ensures
        exists|nonce: Seq<u8>| #[trigger] is_sealed_text(key@, nonce, plaintext@, text@),
        spec_decrypt(key@, text@) == text_of_bytes(plaintext@),
{
    let nonce = random_bytes(NONCE_LEN);
    encrypt_with_nonce(key, nonce.as_slice(), plaintext)
}

/// Decrypts a stored text: decodes the base64, splits off the 12-byte nonce,
/// opens the rest with AES-256-GCM and reads the plaintext as UTF-8.
pub fn decrypt(key: &VaultKey, encoded: &str) -> (res: Result<String, String>)
    ensures
        result_view(res) == spec_decrypt(key@, encoded@),
{
    match base64_decode_text(encoded) {
        Ok(blob) => open_blob(key, blob.as_slice()),
        Err(_) => Err(String::from_str(ERR_NOT_BASE64)),
    }
}

/// Opens a decoded blob: splits off the 12-byte nonce, opens the rest with
/// AES-256-GCM and reads the plaintext as UTF-8.
pub fn open_blob(key: &VaultKey, blob: &[u8]) -> (res: Result<String, String>)
    ensures
        result_view(res) == spec_open_blob(key@, blob@),
{
    if blob.len() <= NONCE_LEN {
        return Err(String::from_str(ERR_TOO_SHORT));
    }
    let (nonce, ciphertext) = blob.split_at(NONCE_LEN);
    let opened = match aes256_gcm_decrypt(key.as_bytes(), nonce, ciphertext) {
        Ok(plaintext) => Some(plaintext),
        Err(_) => None,
    };
    read_opened(opened)
}

/// Reads the result of an AES-GCM opening: the failed-authentication error
/// when it failed, else the plaintext as UTF-8 text or the not-UTF-8 error.
pub fn read_opened(opened: Option<Vec<u8>>) -> (res: Result<String, String>)
    ensures
        result_view(res) == spec_read_opened(
            match opened {
                Some(plaintext) => Some(plaintext@),
                None => None,
            },
        ),
{
    match opened {
        None => Err(String::from_str(ERR_DECRYPTION_FAILED)),
        Some(plaintext) => match string_from_utf8(plaintext) {
            Ok(text) => Ok(text),
            Err(_) => Err(String::from_str(ERR_NOT_UTF8)),
        },
    }
}

/// Text survives sealing: reading the UTF-8 bytes of `text` back gives `text`.
pub proof fn lemma_text_of_utf8_bytes(text: Seq<char>)
    ensures
        text_of_bytes(encode_utf8(text)) == Ok::<Seq<char>, Seq<char>>(text),
{
    encode_utf8_valid_utf8(text);
    encode_utf8_decode_utf8(text);
}

/// The vault key is the first 32 bytes of the SHA-512 digest of the master
/// key's UTF-8 bytes followed by the whole salt; two salts that differ
/// anywhere give different digest inputs.
pub proof fn lemma_derive_key_hashes_whole_salt(master: Seq<char>, salt: Seq<u8>, other_salt: Seq<u8>)
    ensures
        spec_derive_key(master, salt) == sha512(encode_utf8(master) + salt).subrange(0, 32),
        salt != other_salt ==> encode_utf8(master) + salt != encode_utf8(master) + other_salt,
{
    let prefix = encode_utf8(master);
    if prefix + salt == prefix + other_salt {
        assert((prefix + salt).subrange(prefix.len() as int, (prefix + salt).len() as int) =~= salt);
        assert((prefix + other_salt).subrange(prefix.len() as int, (prefix + other_salt).len() as int)
            =~= other_salt);
    }
}

/// The stored blob is the 12-byte nonce followed by the AES-GCM output, and
/// opening a blob takes its first 12 bytes as the nonce and opens the rest:
/// a blob of nonce and AES-GCM output opens to what AES-GCM opens it to, read
/// as UTF-8; so a plaintext that AES-GCM gets back from its own output is
/// read back from its stored blob, whatever its length.
pub proof fn lemma_blob_layout(key: Seq<u8>, nonce: Seq<u8>, plaintext: Seq<u8>, sealed: Seq<u8>)
    requires
        nonce.len() == NONCE_LEN,
        sealed.len() > 0,
    ensures
        sealed_blob(key, nonce, plaintext) == nonce + aes256_gcm_seal(key, nonce, plaintext),
        sealed_blob(key, nonce, plaintext).subrange(0, NONCE_LEN as int) == nonce,
        sealed_text(key, nonce, plaintext) == base64_encode(nonce + aes256_gcm_seal(key, nonce, plaintext)),
        spec_open_blob(key, nonce + sealed) == match aes256_gcm_open(key, nonce, sealed) {
            None => Err(ERR_DECRYPTION_FAILED@),
            Some(opened) => if valid_utf8(opened) {
                Ok(decode_utf8(opened))
            } else {
                Err(ERR_NOT_UTF8@)
            },
        },
        aes256_gcm_seal(key, nonce, plaintext).len() == plaintext.len() + TAG_LEN && aes256_gcm_open(
            key,
            nonce,
            aes256_gcm_seal(key, nonce, plaintext),
        ) == Some(plaintext) ==> spec_open_blob(key, sealed_blob(key, nonce, plaintext)) == if valid_utf8(
            plaintext,
        ) {
            Ok::<Seq<char>, Seq<char>>(decode_utf8(plaintext))
        } else {
            Err(ERR_NOT_UTF8@)
        },
{
    let blob = nonce + sealed;
    assert(blob.subrange(0, NONCE_LEN as int) =~= nonce);
    assert(blob.subrange(NONCE_LEN as int, blob.len() as int) =~= sealed);
    let own = nonce + aes256_gcm_seal(key, nonce, plaintext);
    assert(own.subrange(0, NONCE_LEN as int) =~= nonce);
    assert(own.subrange(NONCE_LEN as int, own.len() as int) =~= aes256_gcm_seal(key, nonce, plaintext));
}

/// Decrypting a stored text decodes its base64 first: text that is not base64
/// is refused as such, and decodable text is opened as the blob it decodes to.
pub proof fn lemma_decrypt_decodes_first(key: Seq<u8>, text: Seq<char>)
    ensures
        base64_decode(text) is None ==> spec_decrypt(key, text) == Err::<Seq<char>, Seq<char>>(ERR_NOT_BASE64@),
        base64_decode(text) matches Some(blob) ==> spec_decrypt(key, text) == spec_open_blob(key, blob),
{
}

/// A blob of at most 12 bytes holds no ciphertext and is refused as too short.
pub proof fn lemma_short_blob_refused(key: Seq<u8>, blob: Seq<u8>)
    requires
        blob.len() <= NONCE_LEN,
    ensures
        spec_open_blob(key, blob) == Err::<Seq<char>, Seq<char>>(ERR_TOO_SHORT@),
{
}

/// Whether a plaintext of `len` bytes can be sealed (see `sealable_len`).
pub fn can_seal(len: usize) -> (ok: bool)
    ensures
        ok == sealable_len(len as int),
{
    if len as u64 > MAX_PLAINTEXT_LEN {
        return false;
    }
    let n: u128 = len as u128 + NONCE_LEN as u128 + TAG_LEN as u128;
    let text_len: u128 = n / 3 * 4 + if n % 3 == 0 { 0 } else { 4 };
    text_len <= usize::MAX as u128
}

} // verus!
