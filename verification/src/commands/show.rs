//! `/show`: an entry with its key decrypted.
use vstd::prelude::*;

use crate::cli::{is_notice, surround, Notice, Tone, BOLD, CYAN, DIM, GREEN, RESET};
use crate::commands::list::{entry_line, entry_line_text};
use crate::crypto::{decrypt, spec_decrypt, VaultKey};
use crate::vault::Entry;

verus! {

/// What `/show` shows in place of a key: the key in green.
pub open spec fn revealed_key(api_key: Seq<char>) -> Seq<char> {
    GREEN@ + api_key + RESET@
}

/// `/show` reveals the whole key: the line for an entry whose key decrypts to
/// `api_key` is the entry line with `GREEN`, all of `api_key` and `RESET` after
/// `key: `, so `api_key` stands uncut just before the closing `RESET`.
pub proof fn lemma_show_reveals_whole_key(name: Seq<char>, provider: Seq<char>, api_key: Seq<char>)
    ensures
        entry_line(name, provider, revealed_key(api_key)) == CYAN@ + "\u{25cf}"@ + RESET@ + " "@ + BOLD@ + name
            + RESET@ + " "@ + DIM@ + "("@ + provider + ")"@ + RESET@ + " key: "@ + GREEN@ + api_key + RESET@,
        ({
            let line = entry_line(name, provider, revealed_key(api_key));
            line.subrange(line.len() - RESET@.len() - api_key.len(), line.len() - RESET@.len()) == api_key
        }),
{
    let head = CYAN@ + "\u{25cf}"@ + RESET@ + " "@ + BOLD@ + name + RESET@ + " "@ + DIM@ + "("@ + provider + ")"@
        + RESET@ + " key: "@ + GREEN@;
    let line = entry_line(name, provider, revealed_key(api_key));
    assert(line =~= head + api_key + RESET@);
    assert(line.subrange(line.len() - RESET@.len() - api_key.len(), line.len() - RESET@.len()) =~= api_key);
}

/// Shows the entry at `index` (found by its name) with its key decrypted
/// under `key`, or the error that decryption gave.
pub fn cmd_show(entries: &[Entry], index: usize, key: &VaultKey) -> (notice: Notice)
    requires
        index < entries@.len(),
    ensures
        match spec_decrypt(key@, entries@[index as int].key@) {
            Ok(api_key) => is_notice(
                notice,
                Tone::Plain,
                entry_line(entries@[index as int].name@, entries@[index as int].provider@, revealed_key(api_key)),
            ),
            Err(message) => is_notice(notice, Tone::Error, message),
        },
{
    let entry = &entries[index];
    match decrypt(key, entry.key.as_str()) {
        Ok(api_key) => {
            let shown = surround(GREEN, api_key.as_str(), RESET);
            let text = entry_line_text(entry.name.as_str(), entry.provider.as_str(), shown.as_str());
            Notice { tone: Tone::Plain, text }
        },
        Err(message) => Notice { tone: Tone::Error, text: message },
    }
}

} // verus!
