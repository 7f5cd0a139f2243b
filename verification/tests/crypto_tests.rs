use aes_gcm::aead::{Aead, KeyInit};
use aes_gcm::{Aes256Gcm, Key, Nonce};
use base64::engine::general_purpose::STANDARD;
use base64::Engine;
use porquinho::crypto::{
    can_seal, decrypt, derive_key, encrypt, encrypt_with_nonce, open_blob, read_opened, ERR_DECRYPTION_FAILED, ERR_NOT_BASE64,
    ERR_NOT_UTF8, ERR_TOO_SHORT,
};

fn hex(bytes: &[u8]) -> String {
    bytes.iter().map(|b| format!("{:02x}", b)).collect()
}

#[test]
fn derive_key_of_empty_input_is_half_of_sha512_of_nothing() {
    let key = derive_key("", &[]);
    assert_eq!(
        hex(key.as_bytes()),
        "cf83e1357eefb8bdf1542850d66d8007d620e4050b5715dc83f4a921d36ce9ce"
    );
}

#[test]
fn derive_key_hashes_master_then_salt() {
    let key = derive_key("abc", &[]);
    assert_eq!(
        hex(key.as_bytes()),
        "ddaf35a193617abacc417349ae20413112e6fa4e89a97ea20a9eeee64b55d39a"
    );
    let split = derive_key("ab", b"c");
    assert_eq!(split.as_bytes(), key.as_bytes());
    assert_ne!(derive_key("abc", b"salt").as_bytes(), key.as_bytes());
}

#[test]
fn derive_key_uses_utf8_bytes_of_master() {
    // "é" is the two bytes c3 a9
    let from_text = derive_key("\u{e9}", &[]);
    let from_bytes = derive_key("", &[0xc3, 0xa9]);
    assert_eq!(from_text.as_bytes(), from_bytes.as_bytes());
    assert_eq!(from_text.as_bytes().len(), 32);
}

#[test]
fn encrypt_with_nonce_is_base64_of_nonce_and_aes_gcm_output() {
    let key = derive_key("master", b"0123456789abcdef");
    let nonce = [7u8; 12];
    let text = encrypt_with_nonce(&key, &nonce, b"sk-secret");
    let cipher = Aes256Gcm::new(Key::<Aes256Gcm>::from_slice(key.as_bytes()));
    let sealed = cipher.encrypt(Nonce::from_slice(&nonce), &b"sk-secret"[..]).unwrap();
    let mut blob = nonce.to_vec();
    blob.extend_from_slice(&sealed);
    assert_eq!(text, STANDARD.encode(&blob));
    assert_eq!(STANDARD.decode(&text).unwrap().len(), 12 + 9 + 16);
    assert_ne!(&sealed[..9], b"sk-secret");
}

#[test]
fn decrypt_gives_back_what_encrypt_sealed() {
    let key = derive_key("master", b"salt");
    let text = encrypt(&key, "sk-\u{e9}t\u{e9}-123".as_bytes());
    assert_eq!(decrypt(&key, &text), Ok("sk-\u{e9}t\u{e9}-123".to_string()));
    let empty = encrypt(&key, b"");
    assert_eq!(decrypt(&key, &empty), Ok(String::new()));
}

#[test]
fn encrypt_uses_fresh_nonces() {
    let key = derive_key("master", b"salt");
    let a = encrypt(&key, b"same");
    let b = encrypt(&key, b"same");
    assert_ne!(a, b);
    assert_eq!(decrypt(&key, &a), decrypt(&key, &b));
}

#[test]
fn decrypt_rejects_text_that_is_not_base64() {
    let key = derive_key("master", b"salt");
    assert_eq!(decrypt(&key, "not base64!"), Err(ERR_NOT_BASE64.to_string()));
    assert_eq!(decrypt(&key, "not base64!"), Err("stored key is not valid base64".to_string()));
}

#[test]
fn decrypt_rejects_blobs_without_ciphertext() {
    let key = derive_key("master", b"salt");
    let twelve = STANDARD.encode([1u8; 12]);
    assert_eq!(decrypt(&key, &twelve), Err(ERR_TOO_SHORT.to_string()));
    assert_eq!(decrypt(&key, ""), Err("stored key is too short".to_string()));
}

#[test]
fn decrypt_rejects_wrong_key_and_tampering() {
    let key = derive_key("master", b"salt");
    let other = derive_key("other", b"salt");
    let text = encrypt(&key, b"sk-secret");
    assert_eq!(decrypt(&other, &text), Err(ERR_DECRYPTION_FAILED.to_string()));
    let mut blob = STANDARD.decode(&text).unwrap();
    let last = blob.len() - 1;
    blob[last] ^= 1;
    assert_eq!(
        decrypt(&key, &STANDARD.encode(&blob)),
        Err("decryption failed (wrong master key?)".to_string())
    );
    let thirteen = STANDARD.encode([1u8; 13]);
    assert_eq!(decrypt(&key, &thirteen), Err(ERR_DECRYPTION_FAILED.to_string()));
}

#[test]
fn decrypt_rejects_plaintext_that_is_not_utf8() {
    let key = derive_key("master", b"salt");
    let text = encrypt(&key, &[0xff, 0xfe]);
    assert_eq!(decrypt(&key, &text), Err(ERR_NOT_UTF8.to_string()));
    assert_eq!(decrypt(&key, &text), Err("decrypted data is not valid UTF-8".to_string()));
}

#[test]
fn can_seal_follows_the_aes_gcm_limit() {
    assert!(can_seal(0));
    assert!(can_seal(1 << 20));
    assert!(can_seal(1usize << 36));
    assert!(!can_seal((1usize << 36) + 1));
    assert!(!can_seal(usize::MAX));
}

#[test]
fn encrypt_text_decodes_to_nonce_ciphertext_and_tag() {
    let key = derive_key("master", b"salt");
    let text = encrypt(&key, b"sk-12345");
    let blob = STANDARD.decode(&text).unwrap();
    assert_eq!(blob.len(), 12 + 8 + 16);
    assert_eq!(STANDARD.encode(&blob), text);
    let cipher = Aes256Gcm::new(Key::<Aes256Gcm>::from_slice(key.as_bytes()));
    let opened = cipher.decrypt(Nonce::from_slice(&blob[..12]), &blob[12..]).unwrap();
    assert_eq!(opened, b"sk-12345");
}

#[test]
fn open_blob_takes_decoded_bytes() {
    let key = derive_key("master", b"salt");
    let blob = STANDARD.decode(encrypt(&key, b"abc")).unwrap();
    assert_eq!(open_blob(&key, &blob), Ok("abc".to_string()));
    assert_eq!(open_blob(&key, &[0u8; 12]), Err(ERR_TOO_SHORT.to_string()));
    assert_eq!(open_blob(&key, &[0u8; 28]), Err(ERR_DECRYPTION_FAILED.to_string()));
    let other = derive_key("other", b"salt");
    assert_eq!(open_blob(&other, &blob), Err(ERR_DECRYPTION_FAILED.to_string()));
}

#[test]
fn read_opened_maps_aes_results() {
    assert_eq!(read_opened(None), Err("decryption failed (wrong master key?)".to_string()));
    assert_eq!(read_opened(Some(b"hi".to_vec())), Ok("hi".to_string()));
    assert_eq!(read_opened(Some(vec![0xc3])), Err(ERR_NOT_UTF8.to_string()));
    assert_eq!(read_opened(Some(Vec::new())), Ok(String::new()));
}
