//! `/update`: replaces the API key of an entry.
use vstd::prelude::*;
use vstd::utf8::encode_utf8;

use crate::cli::{is_notice, surround, Notice, Tone};
use crate::commands::create::{holds_api_key, ERR_EMPTY_API_KEY};
use crate::commands::{names_distinct, names_nonempty, Outcome};
use crate::crypto::{encrypt, lemma_text_of_utf8_bytes, sealable_len, VaultKey};
use crate::vault::Entry;

verus! {

/// The text shown when an entry's key was replaced.
pub open spec fn updated_text(name: Seq<char>) -> Seq<char> {
    "Entry '"@ + name + "' updated."@
}

/// Replaces the API key of the entry at `index` (found by its name) with
/// `api_key` encrypted under `key`. An empty API key is refused and the
/// entries stay as they were. Every other entry, and this entry's name and
/// provider, stay as they were.
pub fn cmd_update(entries: &mut Vec<Entry>, index: usize, key: &VaultKey, api_key: &str) -> (outcome: Outcome)
    requires
        index < old(entries)@.len(),
        api_key@.len() > 0 ==> sealable_len(encode_utf8(api_key@).len() as int),
    ensures
        api_key@.len() == 0 ==> (outcome matches Outcome::Unchanged(notice) && is_notice(
            notice,
            Tone::Error,
            ERR_EMPTY_API_KEY@,
        )),
        outcome is Unchanged ==> final(entries)@ == old(entries)@,
        outcome is Changed <==> api_key@.len() > 0,
        outcome matches Outcome::Changed(notice) ==> {
            &&& is_notice(notice, Tone::Success, updated_text(old(entries)@[index as int].name@))
            &&& final(entries)@.len() == old(entries)@.len()
            &&& forall|j: int|
                0 <= j < old(entries)@.len() && j != index ==> #[trigger] final(entries)@[j]
                    == old(entries)@[j]
            &&& final(entries)@[index as int].name == old(entries)@[index as int].name
            &&& final(entries)@[index as int].provider == old(entries)@[index as int].provider
            &&& holds_api_key(key@, final(entries)@[index as int], api_key@)
        },
        names_distinct(old(entries)@) ==> names_distinct(final(entries)@),
        names_nonempty(old(entries)@) ==> names_nonempty(final(entries)@),
{
    if api_key.is_empty() {
        return Outcome::Unchanged(Notice::new(Tone::Error, ERR_EMPTY_API_KEY));
    }
    proof {
        lemma_text_of_utf8_bytes(api_key@);
    }
    let sealed = encrypt(key, api_key.as_bytes());
    let name = entries[index].name.clone();
    let provider = entries[index].provider.clone();
    let text = surround("Entry '", name.as_str(), "' updated.");
    let ghost before = entries@;
    entries.set(index, Entry { name, provider, key: sealed });
    proof {
        if names_distinct(before) {
            assert forall|i: int, j: int| 0 <= i < j < entries@.len() implies (#[trigger] entries@[i]).name@
                != (#[trigger] entries@[j]).name@ by {
                assert(entries@[i].name == before[i].name);
                assert(entries@[j].name == before[j].name);
            }
        }
    }
    Outcome::Changed(Notice { tone: Tone::Success, text })
}

} // verus!
