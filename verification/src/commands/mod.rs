//! The interactive commands: reading a command line, finding entries by
//! name, and what each command does to the entries and shows to the user.
use vstd::prelude::*;

use crate::cli::{is_notice, surround, Notice, Tone};
use crate::vault::Entry;

pub mod create;
pub mod help;
pub mod list;
pub mod remove;
pub mod show;
pub mod update;

verus! {

/// A command typed at the prompt.
pub enum Command {
    /// An empty line.
    Nothing,
    List,
    Create,
    Remove,
    Update,
    Show,
    Help,
    /// `/quit` or `/exit`.
    Quit,
    /// Anything else, as typed.
    Unknown(String),
}

/// What a command that may change the entries did.
pub enum Outcome {
    /// The entries changed and must be saved; the notice reports it.
    Changed(Notice),
    /// The entries are as they were; the notice says why.
    Unchanged(Notice),
}

/// Some entry is called `name`.
pub open spec fn has_name(entries: Seq<Entry>, name: Seq<char>) -> bool {
    exists|j: int| 0 <= j < entries.len() && (#[trigger] entries[j]).name@ == name
}

/// `i` is the first entry called `name`.
pub open spec fn first_named(entries: Seq<Entry>, name: Seq<char>, i: int) -> bool {
    &&& 0 <= i < entries.len()
    &&& entries[i].name@ == name
    &&& forall|j: int| 0 <= j < i ==> (#[trigger] entries[j]).name@ != name
}

/// No two entries share a name.
pub open spec fn names_distinct(entries: Seq<Entry>) -> bool {
    forall|i: int, j: int|
        0 <= i < j < entries.len() ==> (#[trigger] entries[i]).name@ != (#[trigger] entries[j]).name@
}

/// No entry has an empty name.
pub open spec fn names_nonempty(entries: Seq<Entry>) -> bool {
    forall|i: int| 0 <= i < entries.len() ==> (#[trigger] entries[i]).name@.len() > 0
}

/// The text shown when no entry is called `name`.
pub open spec fn missing_text(name: Seq<char>) -> Seq<char> {
    "No entry named '"@ + name + "'."@
}

/// The text shown for a line that is not a command.
pub open spec fn unknown_text(line: Seq<char>) -> Seq<char> {
    "Unknown command '"@ + line + "'. Type /help for commands."@
}

/// Whether two texts are the same.
pub fn same_text(a: &str, b: &str) -> (same: bool)
    ensures
        same == (a@ == b@),
{
    String::from_str(a) == String::from_str(b)
}

/// Reads a command line: `/list`, `/create`, `/remove`, `/update`, `/show`,
/// `/help`, `/quit` or `/exit`, the empty line, or anything else.
pub fn parse_command(line: &str) -> (command: Command)
    ensures
        command is Nothing <==> line@ == ""@,
        command is List <==> line@ == "/list"@,
        command is Create <==> line@ == "/create"@,
        command is Remove <==> line@ == "/remove"@,
        command is Update <==> line@ == "/update"@,
        command is Show <==> line@ == "/show"@,
        command is Help <==> line@ == "/help"@,
        command is Quit <==> (line@ == "/quit"@ || line@ == "/exit"@),
        command matches Command::Unknown(other) ==> other@ == line@,
{
    proof {
        reveal_strlit("");
        reveal_strlit("/list");
        reveal_strlit("/create");
        reveal_strlit("/remove");
        reveal_strlit("/update");
        reveal_strlit("/show");
        reveal_strlit("/help");
        reveal_strlit("/quit");
        reveal_strlit("/exit");
        assert(""@.len() == 0);
        assert("/list"@.len() == 5 && "/list"@[1] == 'l');
        assert("/create"@.len() == 7 && "/create"@[1] == 'c');
        assert("/remove"@.len() == 7 && "/remove"@[1] == 'r');
        assert("/update"@.len() == 7 && "/update"@[1] == 'u');
        assert("/show"@.len() == 5 && "/show"@[1] == 's');
        assert("/help"@.len() == 5 && "/help"@[1] == 'h');
        assert("/quit"@.len() == 5 && "/quit"@[1] == 'q');
        assert("/exit"@.len() == 5 && "/exit"@[1] == 'e');
    }
    if same_text(line, "") {
        Command::Nothing
    } else if same_text(line, "/list") {
        Command::List
    } else if same_text(line, "/create") {
        Command::Create
    } else if same_text(line, "/remove") {
        Command::Remove
    } else if same_text(line, "/update") {
        Command::Update
    } else if same_text(line, "/show") {
        Command::Show
    } else if same_text(line, "/help") {
        Command::Help
    } else if same_text(line, "/quit") || same_text(line, "/exit") {
        Command::Quit
    } else {
        Command::Unknown(String::from_str(line))
    }
}

/// The error shown for a line that is not a command.
pub fn unknown_command(line: &str) -> (notice: Notice)
    ensures
        is_notice(notice, Tone::Error, unknown_text(line@)),
{
    Notice { tone: Tone::Error, text: surround("Unknown command '", line, "'. Type /help for commands.") }
}

/// Finds the first entry called `name`, or the error to show when there is none.
pub fn lookup(entries: &[Entry], name: &str) -> (res: Result<usize, Notice>)
    ensures
        match res {
            Ok(i) => first_named(entries@, name@, i as int),
            Err(notice) => !has_name(entries@, name@) && is_notice(notice, Tone::Error, missing_text(name@)),
        },
{
    let target = String::from_str(name);
    let mut i: usize = 0;
    while i < entries.len()
        invariant
            0 <= i <= entries@.len(),
            target@ == name@,
            forall|j: int| 0 <= j < i ==> (#[trigger] entries@[j]).name@ != name@,
        decreases entries@.len() - i,
    {
        if entries[i].name == target {
            return Ok(i);
        }
        i = i + 1;
    }
    Err(Notice { tone: Tone::Error, text: surround("No entry named '", name, "'.") })
}


/// What `/show` gives back of `/create`: once an entry called `name` has been
/// appended to entries that had no such name, looking the name up finds the
/// new entry, and showing it reveals the API key it was created with.
pub proof fn lemma_show_after_create(
    key: Seq<u8>,
    before: Seq<Entry>,
    after: Seq<Entry>,
    name: Seq<char>,
    api_key: Seq<char>,
)
    requires
        !has_name(before, name),
        after.len() == before.len() + 1,
        after.subrange(0, before.len() as int) == before,
        after.last().name@ == name,
        crate::commands::create::holds_api_key(key, after.last(), api_key),
    ensures
        first_named(after, name, before.len() as int),
        crate::crypto::spec_decrypt(key, after[before.len() as int].key@) == Ok::<Seq<char>, Seq<char>>(
            api_key,
        ),
{
    assert forall|j: int| 0 <= j < before.len() implies (#[trigger] after[j]).name@ != name by {
        assert(after[j] == after.subrange(0, before.len() as int)[j]);
    }
}

/// Updating a key keeps every name, so a name is found at the same place
/// before and after the update.
pub proof fn lemma_lookup_after_update(before: Seq<Entry>, after: Seq<Entry>, name: Seq<char>, i: int)
    requires
        first_named(before, name, i),
        after.len() == before.len(),
        forall|j: int| 0 <= j < before.len() ==> (#[trigger] after[j]).name == before[j].name,
    ensures
        first_named(after, name, i),
{
    assert(after[i].name == before[i].name);
    assert forall|j: int| 0 <= j < i implies (#[trigger] after[j]).name@ != name by {
        assert(after[j].name == before[j].name);
    }
}

/// A removed entry is gone: when names are distinct, removing the entry found
/// under `name` leaves no entry with that name.
pub proof fn lemma_removed_name_gone(before: Seq<Entry>, name: Seq<char>, i: int)
    requires
        names_distinct(before),
        first_named(before, name, i),
    ensures
        !has_name(before.remove(i), name),
{
    let after = before.remove(i);
    assert forall|j: int| 0 <= j < after.len() implies (#[trigger] after[j]).name@ != name by {
        if j < i {
            assert(after[j] == before[j]);
        } else {
            assert(after[j] == before[j + 1]);
            assert(before[i].name@ != before[j + 1].name@);
        }
    }
}

} // verus!
