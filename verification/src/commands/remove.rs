//! `/remove`: deletes an entry once the user confirms.
use vstd::prelude::*;

use crate::cli::{is_notice, surround, Notice, Tone};
use crate::commands::{names_distinct, names_nonempty, Outcome};
use crate::vault::Entry;

verus! {

/// Shown when the user does not confirm.
pub const ABORTED: &'static str = "Aborted.";

/// The text shown when an entry was removed.
pub open spec fn removed_text(name: Seq<char>) -> Seq<char> {
    "Entry '"@ + name + "' removed."@
}

/// The question asked before removing the entry called `name`.
pub open spec fn confirmation_text(name: Seq<char>) -> Seq<char> {
    "Remove '"@ + name + "'? [y/N]"@
}

/// A character with ASCII upper case letters mapped to lower case.
pub open spec fn ascii_lower(c: char) -> char {
    if 'A' <= c && c <= 'Z' {
        ((c as int) + 32) as char
    } else {
        c
    }
}

/// Equality of texts up to ASCII case.
pub open spec fn eq_ignore_ascii_case(a: Seq<char>, b: Seq<char>) -> bool {
    a.len() == b.len() && forall|i: int| 0 <= i < a.len() ==> ascii_lower(#[trigger] a[i]) == ascii_lower(b[i])
}

/// The answer confirms: it is `y` or `yes`, in any ASCII case.
pub open spec fn is_yes(answer: Seq<char>) -> bool {
    eq_ignore_ascii_case(answer, "y"@) || eq_ignore_ascii_case(answer, "yes"@)
}

/// An answer confirms exactly when it is `y` or `yes` with each letter in
/// either ASCII case; anything else, such as `n`, `N`, `no` or `yep`, does not.
pub proof fn lemma_confirming_answers(answer: Seq<char>)
    ensures
        is_yes(answer) <==> (answer.len() == 1 && (answer[0] == 'y' || answer[0] == 'Y')) || (answer.len() == 3
            && (answer[0] == 'y' || answer[0] == 'Y') && (answer[1] == 'e' || answer[1] == 'E') && (answer[2]
            == 's' || answer[2] == 'S')),
        answer.len() > 0 && (answer[0] == 'n' || answer[0] == 'N') ==> !is_yes(answer),
{
    reveal_strlit("y");
    reveal_strlit("yes");
    if answer.len() == 1 {
        assert(eq_ignore_ascii_case(answer, "y"@) <==> ascii_lower(answer[0]) == ascii_lower("y"@[0]));
    }
    if answer.len() == 3 {
        assert(eq_ignore_ascii_case(answer, "yes"@) <==> (ascii_lower(answer[0]) == ascii_lower("yes"@[0])
            && ascii_lower(answer[1]) == ascii_lower("yes"@[1]) && ascii_lower(answer[2]) == ascii_lower(
            "yes"@[2],
        )));
    }
}

/// The question asked before removing the entry called `name`.
pub fn confirmation_prompt(name: &str) -> (question: String)
    ensures
        question@ == confirmation_text(name@),
{
    surround("Remove '", name, "'? [y/N]")
}

/// Whether `c` is `lower` or its ASCII upper case form `upper`.
fn is_letter(c: char, lower: char, upper: char) -> (same: bool)
    requires
        'a' <= lower <= 'z',
        upper as int == lower as int - 32,
    ensures
        same == (ascii_lower(c) == ascii_lower(lower)),
{
    c == lower || c == upper
}

/// Whether the answer confirms: `y` or `yes`, in any ASCII case.
pub fn is_confirmation(answer: &str) -> (yes: bool)
    ensures
        yes == is_yes(answer@),
{
    proof {
        reveal_strlit("y");
        reveal_strlit("yes");
    }
    let n = answer.unicode_len();
    if n == 1 {
        let yes = is_letter(answer.get_char(0), 'y', 'Y');
        proof {
            if yes {
                assert(eq_ignore_ascii_case(answer@, "y"@));
            } else {
                assert(ascii_lower(answer@[0]) != ascii_lower("y"@[0]));
            }
        }
        yes
    } else if n == 3 {
        let yes = is_letter(answer.get_char(0), 'y', 'Y') && is_letter(answer.get_char(1), 'e', 'E')
            && is_letter(answer.get_char(2), 's', 'S');
        proof {
            if yes {
                assert(eq_ignore_ascii_case(answer@, "yes"@));
            } else {
                if eq_ignore_ascii_case(answer@, "yes"@) {
                    assert(ascii_lower(answer@[0]) == ascii_lower("yes"@[0]));
                    assert(ascii_lower(answer@[1]) == ascii_lower("yes"@[1]));
                    assert(ascii_lower(answer@[2]) == ascii_lower("yes"@[2]));
                }
            }
        }
        yes
    } else {
        false
    }
}

/// Removes the entry at `index` (found by its name) when `answer` confirms,
/// keeping the others in their order; otherwise leaves the entries as they were.
pub fn cmd_remove(entries: &mut Vec<Entry>, index: usize, answer: &str) -> (outcome: Outcome)
    requires
        index < old(entries)@.len(),
    ensures
        is_yes(answer@) ==> (outcome matches Outcome::Changed(notice) && is_notice(
            notice,
            Tone::Success,
            removed_text(old(entries)@[index as int].name@),
        )),
        is_yes(answer@) ==> final(entries)@ == old(entries)@.remove(index as int),
        !is_yes(answer@) ==> (outcome matches Outcome::Unchanged(notice) && is_notice(
            notice,
            Tone::Info,
            ABORTED@,
        )),
        !is_yes(answer@) ==> final(entries)@ == old(entries)@,
        names_distinct(old(entries)@) ==> names_distinct(final(entries)@),
        names_nonempty(old(entries)@) ==> names_nonempty(final(entries)@),
{
    if is_confirmation(answer) {
        let ghost before = entries@;
        let removed = entries.remove(index);
        proof {
            if names_distinct(before) {
                assert forall|i: int, j: int| 0 <= i < j < entries@.len() implies (
                #[trigger] entries@[i]).name@ != (#[trigger] entries@[j]).name@ by {
                    let bi = if i < index { i } else { i + 1 };
                    let bj = if j < index { j } else { j + 1 };
                    assert(entries@[i] == before[bi]);
                    assert(entries@[j] == before[bj]);
                }
            }
        }
        Outcome::Changed(Notice { tone: Tone::Success, text: surround("Entry '", removed.name.as_str(), "' removed.") })
    } else {
        Outcome::Unchanged(Notice::new(Tone::Info, ABORTED))
    }
}

} // verus!
