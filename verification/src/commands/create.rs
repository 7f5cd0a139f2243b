//! `/create`: adds an entry under a new, non-empty name.
use vstd::prelude::*;
use vstd::utf8::encode_utf8;

use crate::cli::{is_notice, surround, Notice, Tone};
use crate::commands::{has_name, names_distinct, names_nonempty, Outcome};
use crate::crypto::{encrypt, lemma_text_of_utf8_bytes, is_sealed_text, sealable_len, spec_decrypt, VaultKey};
use crate::vault::Entry;

verus! {

/// Shown when the name is empty.
pub const ERR_EMPTY_NAME: &'static str = "Name cannot be empty.";

/// Shown when the API key is empty.
pub const ERR_EMPTY_API_KEY: &'static str = "API key cannot be empty.";

/// The text shown when the name is taken.
pub open spec fn duplicate_text(name: Seq<char>) -> Seq<char> {
    "An entry named '"@ + name + "' already exists. Use /update to change its key."@
}

/// The text shown when an entry was created.
pub open spec fn created_text(name: Seq<char>) -> Seq<char> {
    "Entry '"@ + name + "' created."@
}

/// Whether `name` may name a new entry: it is not empty and not taken.
pub open spec fn name_available(entries: Seq<Entry>, name: Seq<char>) -> bool {
    name.len() > 0 && !has_name(entries, name)
}

/// `entry` holds `api_key` sealed under `key`: its key text is the seal of
/// the API key's UTF-8 bytes under some nonce, and decrypting gives it back.
pub open spec fn holds_api_key(key: Seq<u8>, entry: Entry, api_key: Seq<char>) -> bool {
    &&& spec_decrypt(key, entry.key@) == Ok::<Seq<char>, Seq<char>>(api_key)
    &&& exists|nonce: Seq<u8>|
        #[trigger] is_sealed_text(key, nonce, encode_utf8(api_key), entry.key@)
}

/// Checks the name typed for a new entry: it must not be empty and no entry
/// may have it already.
pub fn validate_new_name(entries: &[Entry], name: &str) -> (res: Result<(), Notice>)
    ensures
        name@.len() == 0 ==> (res matches Err(notice) && is_notice(notice, Tone::Error, ERR_EMPTY_NAME@)),
        name@.len() > 0 && has_name(entries@, name@) ==> (res matches Err(notice) && is_notice(
            notice,
            Tone::Error,
            duplicate_text(name@),
        )),
        res is Ok <==> name_available(entries@, name@),
{
    if name.is_empty() {
        return Err(Notice::new(Tone::Error, ERR_EMPTY_NAME));
    }
    let target = String::from_str(name);
    let mut i: usize = 0;
    while i < entries.len()
        invariant
            0 <= i <= entries@.len(),
            target@ == name@,
            name@.len() > 0,
            forall|j: int| 0 <= j < i ==> (#[trigger] entries@[j]).name@ != name@,
        decreases entries@.len() - i,
    {
        if entries[i].name == target {
            let text = surround("An entry named '", name, "' already exists. Use /update to change its key.");
            return Err(Notice { tone: Tone::Error, text });
        }
        i = i + 1;
    }
    Ok(())
}

/// Adds an entry called `name` for `provider`, holding `api_key` encrypted
/// under `key`. Refuses an empty or taken name and an empty API key, in that
/// order, and then leaves the entries as they were.
pub fn cmd_create(entries: &mut Vec<Entry>, key: &VaultKey, name: &str, provider: &str, api_key: &str) -> (outcome: Outcome)
    requires
        name_available(old(entries)@, name@) && api_key@.len() > 0 ==> sealable_len(
            encode_utf8(api_key@).len() as int,
        ),
    ensures
        name@.len() == 0 ==> (outcome matches Outcome::Unchanged(notice) && is_notice(
            notice,
            Tone::Error,
            ERR_EMPTY_NAME@,
        )),
        name@.len() > 0 && has_name(old(entries)@, name@) ==> (outcome matches Outcome::Unchanged(notice)
            && is_notice(notice, Tone::Error, duplicate_text(name@))),
        name_available(old(entries)@, name@) && api_key@.len() == 0 ==> (outcome matches Outcome::Unchanged(
            notice,
        ) && is_notice(notice, Tone::Error, ERR_EMPTY_API_KEY@)),
        outcome is Unchanged ==> final(entries)@ == old(entries)@,
        outcome is Changed <==> name_available(old(entries)@, name@) && api_key@.len() > 0,
        outcome matches Outcome::Changed(notice) ==> {
            &&& is_notice(notice, Tone::Success, created_text(name@))
            &&& final(entries)@.len() == old(entries)@.len() + 1
            &&& final(entries)@.subrange(0, old(entries)@.len() as int) == old(entries)@
            &&& final(entries)@.last().name@ == name@
            &&& final(entries)@.last().provider@ == provider@
            &&& holds_api_key(key@, final(entries)@.last(), api_key@)
        },
        names_distinct(old(entries)@) ==> names_distinct(final(entries)@),
        names_nonempty(old(entries)@) ==> names_nonempty(final(entries)@),
{
    match validate_new_name(entries.as_slice(), name) {
        Err(notice) => {
            return Outcome::Unchanged(notice);
        },
        Ok(()) => {},
    }
    if api_key.is_empty() {
        return Outcome::Unchanged(Notice::new(Tone::Error, ERR_EMPTY_API_KEY));
    }
    proof {
        lemma_text_of_utf8_bytes(api_key@);
    }
    let sealed = encrypt(key, api_key.as_bytes());
    let ghost before = entries@;
    entries.push(Entry { name: String::from_str(name), provider: String::from_str(provider), key: sealed });
    proof {
        assert(entries@.subrange(0, before.len() as int) =~= before);
        if names_distinct(before) {
            assert forall|i: int, j: int| 0 <= i < j < entries@.len() implies (#[trigger] entries@[i]).name@
                != (#[trigger] entries@[j]).name@ by {
                assert(entries@[i] == before[i]);
                if j < before.len() {
                    assert(entries@[j] == before[j]);
                }
            }
        }
    }
    Outcome::Changed(Notice { tone: Tone::Success, text: surround("Entry '", name, "' created.") })
}

} // verus!
