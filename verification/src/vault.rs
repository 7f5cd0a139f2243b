//! The vault's records: its entries, its salt, and the check text that tells
//! a right master key from a wrong one.
use vstd::prelude::*;
use vstd::utf8::encode_utf8;

use crate::backend::{base64_decode, base64_decode_text, base64_encode, base64_encode_bytes, random_bytes};
use crate::cli::{is_notice, Notice, Tone};
use crate::crypto::{
    decrypt, derive_key, encrypt, lemma_text_of_utf8_bytes, is_sealed_text, spec_decrypt,
    spec_derive_key, VaultKey,
};

verus! {

/// The text that is sealed under the master key to recognise it later.
pub const CHECK_PLAINTEXT: &'static str = "porquinho-master-key-check";

/// Length in bytes of a freshly generated salt.
pub const SALT_LEN: usize = 32;

/// Shown when the master key is empty.
pub const ERR_EMPTY_MASTER: &'static str = "Master key cannot be empty.";

/// Shown when the master key does not open the check record.
pub const ERR_WRONG_MASTER: &'static str = "Wrong master key.";

/// One stored API key: a name, the provider it belongs to, and the key itself
/// as encrypted text.
pub struct Entry {
    pub name: String,
    pub provider: String,
    pub key: String,
}

/// Whether the stored check text opens, under `key`, to the check plaintext.
pub open spec fn check_accepts(key: Seq<u8>, stored: Seq<char>) -> bool {
    spec_decrypt(key, stored) == Ok::<Seq<char>, Seq<char>>(CHECK_PLAINTEXT@)
}

/// The salt to use, and the text to write to the salt file when it was just made.
pub struct SaltState {
    pub salt: Vec<u8>,
    pub new_record: Option<String>,
}

/// The salt from the salt file's text (`Some`), or a new random salt when
/// there is no salt file (`None`). `None` is returned when the stored text is
/// not base64.
pub fn load_or_create_salt(stored: Option<&str>) -> (res: Option<SaltState>)
    ensures
        match stored {
            Some(text) => match base64_decode(text@) {
                Some(salt) => res matches Some(state) && state.salt@ == salt && state.new_record is None,
                None => res is None,
            },
            None => res matches Some(state) && (state.salt@.len() == SALT_LEN && (
            state.new_record matches Some(record) && record@ == base64_encode(state.salt@)
                && base64_decode(record@) == Some(state.salt@))),
        },
{
    match stored {
        Some(text) => match base64_decode_text(text) {
            Ok(salt) => Some(SaltState { salt, new_record: None }),
            Err(_) => None,
        },
        None => {
            let salt = random_bytes(SALT_LEN);
            let record = base64_encode_bytes(salt.as_slice());
            Some(SaltState { salt, new_record: Some(record) })
        },
    }
}

/// The answer of checking a master key against the vault's check record.
pub enum MasterKeyCheck {
    /// The stored check record opens to the check plaintext.
    Accepted,
    /// It does not.
    Rejected,
    /// There was no check record; this one, sealed under the key, is to be stored.
    Registered(String),
}

/// Checks `key` against the stored check text (`Some`), or, for a vault that
/// has none (`None`), seals the check plaintext under `key` as the record to
/// store. A record made here is accepted by the same key later.
pub fn verify_master_key(key: &VaultKey, stored: Option<&str>) -> (res: MasterKeyCheck)
    ensures
        match stored {
            Some(text) => if check_accepts(key@, text@) {
                res is Accepted
            } else {
                res is Rejected
            },
            None => res matches MasterKeyCheck::Registered(record) && check_accepts(key@, record@)
                && exists|nonce: Seq<u8>|
                #[trigger] is_sealed_text(key@, nonce, encode_utf8(CHECK_PLAINTEXT@), record@),
        },
{
    match stored {
        Some(text) => match decrypt(key, text) {
            Ok(value) => {
                if value == String::from_str(CHECK_PLAINTEXT) {
                    MasterKeyCheck::Accepted
                } else {
                    MasterKeyCheck::Rejected
                }
            },
            Err(_) => MasterKeyCheck::Rejected,
        },
        None => {
            let plaintext = CHECK_PLAINTEXT.as_bytes();
            proof {
                reveal_strlit("porquinho-master-key-check");
                vstd::string::is_ascii_spec_bytes(CHECK_PLAINTEXT);
                lemma_text_of_utf8_bytes(CHECK_PLAINTEXT@);
            }
            let record = encrypt(key, plaintext);
            MasterKeyCheck::Registered(record)
        },
    }
}

/// An unlocked vault's key, and the check record to store when the vault had none.
pub struct Unlocked {
    pub key: VaultKey,
    pub new_check_record: Option<String>,
}

/// Unlocks the vault with the master key the user typed: refuses an empty one,
/// derives the key from it and the salt, and checks it against the stored
/// check text, registering it when there is none.
pub fn unlock(master: &str, salt: &[u8], stored_check: Option<&str>) -> (res: Result<Unlocked, Notice>)
    ensures
        master@.len() == 0 ==> (res matches Err(notice) && is_notice(
            notice,
            Tone::Error,
            ERR_EMPTY_MASTER@,
        )),
        master@.len() > 0 ==> match stored_check {
            Some(text) => if check_accepts(spec_derive_key(master@, salt@), text@) {
                res matches Ok(unlocked) && unlocked.key@ == spec_derive_key(master@, salt@)
                    && unlocked.new_check_record is None
            } else {
                res matches Err(notice) && is_notice(notice, Tone::Error, ERR_WRONG_MASTER@)
            },
            None => res matches Ok(unlocked) && (unlocked.key@ == spec_derive_key(master@, salt@) && (
            unlocked.new_check_record matches Some(record) && check_accepts(unlocked.key@, record@))),
        },
{
    if master.is_empty() {
        return Err(Notice::new(Tone::Error, ERR_EMPTY_MASTER));
    }
    let key = derive_key(master, salt);
    match verify_master_key(&key, stored_check) {
        MasterKeyCheck::Accepted => Ok(Unlocked { key, new_check_record: None }),
        MasterKeyCheck::Rejected => Err(Notice::new(Tone::Error, ERR_WRONG_MASTER)),
        MasterKeyCheck::Registered(record) => Ok(Unlocked { key, new_check_record: Some(record) }),
    }
}

} // verus!
