//! `/help`: the list of commands.
use vstd::prelude::*;

use crate::cli::{Notice, Tone, BOLD, CYAN, RESET};

verus! {

/// Width of the command column in the help text.
pub const NAME_WIDTH: usize = 8;

/// `text` padded on the right with spaces to `width` characters.
pub open spec fn pad_right(text: Seq<char>, width: nat) -> Seq<char> {
    if text.len() >= width {
        text
    } else {
        text + Seq::new((width - text.len()) as nat, |i: int| ' ')
    }
}

/// Padding keeps the text and adds only spaces, up to exactly `width`
/// characters when the text is shorter.
pub proof fn lemma_pad_right_parts(text: Seq<char>, width: nat)
    ensures
        pad_right(text, width).len() == if text.len() >= width { text.len() } else { width },
        pad_right(text, width).subrange(0, text.len() as int) == text,
        forall|i: int| text.len() <= i < pad_right(text, width).len() ==> #[trigger] pad_right(text, width)[i] == ' ',
{
    assert(pad_right(text, width).subrange(0, text.len() as int) =~= text);
}

/// The commands and what they do, in the order the help lists them.
pub open spec fn help_table() -> Seq<(Seq<char>, Seq<char>)> {
    seq![
        ("/list"@, "List all entries (keys stay hidden)"@),
        ("/create"@, "Create a new entry"@),
        ("/update"@, "Change the key of an existing entry"@),
        ("/show"@, "Show an entry with its key decrypted"@),
        ("/remove"@, "Remove an entry (asks for confirmation)"@),
        ("/help"@, "Show this help"@),
        ("/quit"@, "Exit"@),
    ]
}

/// The help line for one command.
pub open spec fn help_line(name: Seq<char>, description: Seq<char>) -> Seq<char> {
    "  "@ + CYAN@ + pad_right(name, NAME_WIDTH as nat) + RESET@ + " "@ + description
}

/// The heading of the help text.
pub open spec fn help_heading() -> Seq<char> {
    BOLD@ + "Commands:"@ + RESET@
}

/// Pads `text` on the right with spaces to `width` characters.
pub fn pad_to_width(text: &str, width: usize) -> (padded: String)
    ensures
        padded@ == pad_right(text@, width as nat),
{
    let len = text.unicode_len();
    let mut padded = String::from_str(text);
    if len >= width {
        return padded;
    }
    let mut count: usize = len;
    while count < width
        invariant
            len == text@.len(),
            len <= count <= width,
            padded@ == text@ + Seq::new((count - len) as nat, |i: int| ' '),
        decreases width - count,
    {
        padded.append(" ");
        count = count + 1;
        proof {
            reveal_strlit(" ");
        }
        assert(padded@ =~= text@ + Seq::new((count - len) as nat, |i: int| ' '));
    }
    padded
}

/// Builds the help line for one command (see `help_line`).
fn help_entry(name: &str, description: &str) -> (notice: Notice)
    ensures
        notice.tone == Tone::Plain,
        notice.text@ == help_line(name@, description@),
{
    let mut text = String::from_str("  ");
    text.append(CYAN);
    let padded = pad_to_width(name, NAME_WIDTH);
    text.append(padded.as_str());
    text.append(RESET);
    text.append(" ");
    text.append(description);
    Notice { tone: Tone::Plain, text }
}

/// The help text: a heading, then, at line `i` from 1 on, the line for the
/// command `help_table()[i - 1]`.
pub fn print_help() -> (lines: Vec<Notice>)
    ensures
        lines@.len() == help_table().len() + 1,
        lines@[0].tone == Tone::Plain && lines@[0].text@ == help_heading(),
        forall|i: int|
            1 <= i <= help_table().len() ==> (#[trigger] lines@[i]).tone == Tone::Plain
                && lines@[i].text@ == help_line(help_table()[i - 1].0, help_table()[i - 1].1),
{
    let mut heading = String::from_str(BOLD);
    heading.append("Commands:");
    heading.append(RESET);
    let mut lines: Vec<Notice> = Vec::new();
    lines.push(Notice { tone: Tone::Plain, text: heading });
    lines.push(help_entry("/list", "List all entries (keys stay hidden)"));
    lines.push(help_entry("/create", "Create a new entry"));
    lines.push(help_entry("/update", "Change the key of an existing entry"));
    lines.push(help_entry("/show", "Show an entry with its key decrypted"));
    lines.push(help_entry("/remove", "Remove an entry (asks for confirmation)"));
    lines.push(help_entry("/help", "Show this help"));
    lines.push(help_entry("/quit", "Exit"));
    proof {
        assert forall|i: int| 1 <= i <= help_table().len() implies (#[trigger] lines@[i]).tone == Tone::Plain
            && lines@[i].text@ == help_line(help_table()[i - 1].0, help_table()[i - 1].1) by {
            if i == 1 {} else if i == 2 {} else if i == 3 {} else if i == 4 {} else if i == 5 {} else if i == 6 {} else {}
        }
    }
    lines
}

} // verus!
