//! `/list`: one line per entry, with the key masked.
use vstd::prelude::*;

use crate::cli::{Notice, Tone, BOLD, CYAN, DIM, RESET};
use crate::vault::Entry;

verus! {

/// Shown when there are no entries.
pub const EMPTY_LIST: &'static str = "No entries yet. Use /create to add one.";

/// The line that shows an entry: a bullet, its name in bold, its provider
/// dimmed in brackets, and `key_part` after `key: `.
pub open spec fn entry_line(name: Seq<char>, provider: Seq<char>, key_part: Seq<char>) -> Seq<char> {
    CYAN@ + "\u{25cf}"@ + RESET@ + " "@ + BOLD@ + name + RESET@ + " "@ + DIM@ + "("@ + provider + ")"@
        + RESET@ + " key: "@ + key_part
}

/// What `/list` shows in place of a key.
pub open spec fn masked_key() -> Seq<char> {
    DIM@ + "****"@ + RESET@
}

/// What `/list` shows: the lines for the entries in their order, or a hint
/// when there are none. A line is a tone and a text.
pub open spec fn listing(entries: Seq<Entry>) -> Seq<(Tone, Seq<char>)> {
    if entries.len() == 0 {
        seq![(Tone::Info, EMPTY_LIST@)]
    } else {
        Seq::new(
            entries.len(),
            |i: int| (Tone::Plain, entry_line(entries[i].name@, entries[i].provider@, masked_key())),
        )
    }
}

/// Builds the line that shows an entry (see `entry_line`).
pub fn entry_line_text(name: &str, provider: &str, key_part: &str) -> (line: String)
    ensures
        line@ == entry_line(name@, provider@, key_part@),
{
    let mut line = String::from_str(CYAN);
    line.append("\u{25cf}");
    line.append(RESET);
    line.append(" ");
    line.append(BOLD);
    line.append(name);
    line.append(RESET);
    line.append(" ");
    line.append(DIM);
    line.append("(");
    line.append(provider);
    line.append(")");
    line.append(RESET);
    line.append(" key: ");
    line.append(key_part);
    line
}

/// The lines `/list` shows for `entries`; no key appears in them.
pub fn cmd_list(entries: &[Entry]) -> (lines: Vec<Notice>)
    ensures
        lines@.len() == listing(entries@).len(),
        forall|i: int|
            0 <= i < lines@.len() ==> (#[trigger] lines@[i]).tone == listing(entries@)[i].0
                && lines@[i].text@ == listing(entries@)[i].1,
{
    let mut lines: Vec<Notice> = Vec::new();
    if entries.len() == 0 {
        lines.push(Notice::new(Tone::Info, EMPTY_LIST));
        return lines;
    }
    let mut masked = String::from_str(DIM);
    masked.append("****");
    masked.append(RESET);
    let mut i: usize = 0;
    while i < entries.len()
        invariant
            0 < entries@.len(),
            0 <= i <= entries@.len(),
            masked@ == masked_key(),
            lines@.len() == i,
            forall|k: int|
                0 <= k < i ==> (#[trigger] lines@[k]).tone == listing(entries@)[k].0
                    && lines@[k].text@ == listing(entries@)[k].1,
        decreases entries@.len() - i,
    {
        let text = entry_line_text(entries[i].name.as_str(), entries[i].provider.as_str(), masked.as_str());
        lines.push(Notice { tone: Tone::Plain, text });
        i = i + 1;
    }
    lines
}

/// `/list` shows the hint exactly when there are no entries, and otherwise one
/// line per entry, in order, naming that entry and its provider with the key
/// masked as `****`.
pub proof fn lemma_listing_shape(entries: Seq<Entry>)
    ensures
        entries.len() == 0 ==> listing(entries) == seq![(Tone::Info, EMPTY_LIST@)],
        entries.len() > 0 ==> listing(entries).len() == entries.len(),
        entries.len() > 0 ==> forall|i: int|
            0 <= i < entries.len() ==> #[trigger] listing(entries)[i] == (
                Tone::Plain,
                CYAN@ + "\u{25cf}"@ + RESET@ + " "@ + BOLD@ + entries[i].name@ + RESET@ + " "@ + DIM@ + "("@
                    + entries[i].provider@ + ")"@ + RESET@ + " key: "@ + DIM@ + "****"@ + RESET@,
            ),
        (exists|i: int| 0 <= i < listing(entries).len() && (#[trigger] listing(entries)[i]).0 == Tone::Info)
            <==> entries.len() == 0,
{
    if entries.len() > 0 {
        assert forall|i: int| 0 <= i < entries.len() implies #[trigger] listing(entries)[i] == (
            Tone::Plain,
            CYAN@ + "\u{25cf}"@ + RESET@ + " "@ + BOLD@ + entries[i].name@ + RESET@ + " "@ + DIM@ + "("@
                + entries[i].provider@ + ")"@ + RESET@ + " key: "@ + DIM@ + "****"@ + RESET@,
        ) by {
            assert(entry_line(entries[i].name@, entries[i].provider@, masked_key()) =~= CYAN@ + "\u{25cf}"@
                + RESET@ + " "@ + BOLD@ + entries[i].name@ + RESET@ + " "@ + DIM@ + "("@ + entries[i].provider@
                + ")"@ + RESET@ + " key: "@ + DIM@ + "****"@ + RESET@);
        }
    } else {
        assert(listing(entries)[0].0 == Tone::Info);
    }
}

/// `/list` shows nothing of the keys: two entry lists that agree on names
/// and providers are listed alike, whatever their keys.
pub proof fn lemma_listing_ignores_keys(a: Seq<Entry>, b: Seq<Entry>)
    requires
        a.len() == b.len(),
        forall|i: int| 0 <= i < a.len() ==> (#[trigger] a[i]).name@ == b[i].name@ && a[i].provider@ == b[i].provider@,
    ensures
        listing(a) == listing(b),
{
    if a.len() > 0 {
        assert(listing(a) =~= listing(b));
    }
}

} // verus!
