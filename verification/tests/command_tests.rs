use porquinho::cli::{Notice, Tone};
use porquinho::commands::create::{cmd_create, validate_new_name};
use porquinho::commands::help::{pad_to_width, print_help};
use porquinho::commands::list::cmd_list;
use porquinho::commands::remove::{cmd_remove, confirmation_prompt, is_confirmation};
use porquinho::commands::show::cmd_show;
use porquinho::commands::update::cmd_update;
use porquinho::commands::{lookup, parse_command, unknown_command, Command, Outcome};
use porquinho::crypto::{decrypt, derive_key, VaultKey};
use porquinho::vault::Entry;

fn key() -> VaultKey {
    derive_key("master", b"salt")
}

fn entry(name: &str, provider: &str, key: &str) -> Entry {
    Entry { name: name.to_string(), provider: provider.to_string(), key: key.to_string() }
}

fn changed(outcome: Outcome) -> Notice {
    match outcome {
        Outcome::Changed(notice) => notice,
        Outcome::Unchanged(notice) => panic!("unexpectedly unchanged: {}", notice.text),
    }
}

fn unchanged(outcome: Outcome) -> Notice {
    match outcome {
        Outcome::Unchanged(notice) => notice,
        Outcome::Changed(notice) => panic!("unexpectedly changed: {}", notice.text),
    }
}

fn names(entries: &[Entry]) -> Vec<&str> {
    entries.iter().map(|e| e.name.as_str()).collect()
}

#[test]
fn commands_are_recognised() {
    assert!(matches!(parse_command(""), Command::Nothing));
    assert!(matches!(parse_command("/list"), Command::List));
    assert!(matches!(parse_command("/create"), Command::Create));
    assert!(matches!(parse_command("/remove"), Command::Remove));
    assert!(matches!(parse_command("/update"), Command::Update));
    assert!(matches!(parse_command("/show"), Command::Show));
    assert!(matches!(parse_command("/help"), Command::Help));
    assert!(matches!(parse_command("/quit"), Command::Quit));
    assert!(matches!(parse_command("/exit"), Command::Quit));
    match parse_command("/LIST") {
        Command::Unknown(text) => assert_eq!(text, "/LIST"),
        _ => panic!("commands are case sensitive"),
    }
    assert!(matches!(parse_command("list"), Command::Unknown(_)));
}

#[test]
fn unknown_command_message() {
    let notice = unknown_command("/foo");
    assert!(notice.tone == Tone::Error);
    assert_eq!(notice.text, "Unknown command '/foo'. Type /help for commands.");
    assert_eq!(notice.render(), "\x1b[31m\u{2718} Unknown command '/foo'. Type /help for commands.\x1b[0m");
}

#[test]
fn notices_render_with_their_colours() {
    assert_eq!(Notice::new(Tone::Success, "ok").render(), "\x1b[32m\u{2714} ok\x1b[0m");
    assert_eq!(Notice::new(Tone::Error, "bad").render(), "\x1b[31m\u{2718} bad\x1b[0m");
    assert_eq!(Notice::new(Tone::Info, "note").render(), "\x1b[2mnote\x1b[0m");
    assert_eq!(Notice::new(Tone::Plain, "line").render(), "line");
}

#[test]
fn lookup_finds_the_first_entry_with_the_name() {
    let entries = vec![entry("a", "p", "k1"), entry("b", "p", "k2"), entry("b", "q", "k3")];
    assert_eq!(lookup(&entries, "a").ok(), Some(0));
    assert_eq!(lookup(&entries, "b").ok(), Some(1));
    let missing = lookup(&entries, "c").err().unwrap();
    assert!(missing.tone == Tone::Error);
    assert_eq!(missing.text, "No entry named 'c'.");
}

#[test]
fn create_refuses_empty_and_taken_names_and_empty_keys() {
    let k = key();
    let mut entries = vec![entry("openai", "OpenAI", "x")];
    let n = unchanged(cmd_create(&mut entries, &k, "", "p", "sk"));
    assert!(n.tone == Tone::Error);
    assert_eq!(n.text, "Name cannot be empty.");
    let n = unchanged(cmd_create(&mut entries, &k, "openai", "p", "sk"));
    assert_eq!(n.text, "An entry named 'openai' already exists. Use /update to change its key.");
    let n = unchanged(cmd_create(&mut entries, &k, "aws", "Amazon", ""));
    assert_eq!(n.text, "API key cannot be empty.");
    assert_eq!(names(&entries), vec!["openai"]);
    assert!(validate_new_name(&entries, "aws").is_ok());
    assert_eq!(validate_new_name(&entries, "").err().unwrap().text, "Name cannot be empty.");
    assert_eq!(
        validate_new_name(&entries, "openai").err().unwrap().text,
        "An entry named 'openai' already exists. Use /update to change its key."
    );
}

#[test]
fn created_entry_is_shown_with_its_key() {
    let k = key();
    let mut entries = vec![entry("openai", "OpenAI", "x")];
    let n = changed(cmd_create(&mut entries, &k, "aws", "Amazon", "AKIA123"));
    assert!(n.tone == Tone::Success);
    assert_eq!(n.text, "Entry 'aws' created.");
    assert_eq!(names(&entries), vec!["openai", "aws"]);
    assert_eq!(entries[1].provider, "Amazon");
    assert_ne!(entries[1].key, "AKIA123");
    assert_eq!(decrypt(&k, &entries[1].key), Ok("AKIA123".to_string()));
    let i = lookup(&entries, "aws").ok().unwrap();
    assert_eq!(i, 1);
    let shown = cmd_show(&entries, i, &k);
    assert!(shown.tone == Tone::Plain);
    assert_eq!(
        shown.text,
        "\x1b[36m\u{25cf}\x1b[0m \x1b[1maws\x1b[0m \x1b[2m(Amazon)\x1b[0m key: \x1b[32mAKIA123\x1b[0m"
    );
}

#[test]
fn show_reports_decryption_errors() {
    let k = key();
    let entries = vec![entry("bad", "p", "%%%")];
    let n = cmd_show(&entries, 0, &k);
    assert!(n.tone == Tone::Error);
    assert_eq!(n.text, "stored key is not valid base64");
    let other = derive_key("other", b"salt");
    let mut entries = Vec::new();
    changed(cmd_create(&mut entries, &other, "x", "p", "secret"));
    assert_eq!(cmd_show(&entries, 0, &k).text, "decryption failed (wrong master key?)");
}

#[test]
fn update_replaces_only_the_key() {
    let k = key();
    let mut entries = Vec::new();
    changed(cmd_create(&mut entries, &k, "a", "P", "old"));
    changed(cmd_create(&mut entries, &k, "b", "Q", "other"));
    let b_key = entries[1].key.clone();
    let n = unchanged(cmd_update(&mut entries, 0, &k, ""));
    assert_eq!(n.text, "API key cannot be empty.");
    assert_eq!(decrypt(&k, &entries[0].key), Ok("old".to_string()));
    let n = changed(cmd_update(&mut entries, 0, &k, "new"));
    assert!(n.tone == Tone::Success);
    assert_eq!(n.text, "Entry 'a' updated.");
    assert_eq!(decrypt(&k, &entries[0].key), Ok("new".to_string()));
    assert_eq!(entries[0].name, "a");
    assert_eq!(entries[0].provider, "P");
    assert_eq!(entries[1].key, b_key);
    assert_eq!(names(&entries), vec!["a", "b"]);
}

#[test]
fn remove_needs_confirmation() {
    let mut entries = vec![entry("a", "p", "1"), entry("b", "p", "2"), entry("c", "p", "3")];
    let n = unchanged(cmd_remove(&mut entries, 1, "n"));
    assert!(n.tone == Tone::Info);
    assert_eq!(n.text, "Aborted.");
    assert_eq!(names(&entries), vec!["a", "b", "c"]);
    let n = unchanged(cmd_remove(&mut entries, 1, ""));
    assert_eq!(n.text, "Aborted.");
    let n = changed(cmd_remove(&mut entries, 1, "YES"));
    assert!(n.tone == Tone::Success);
    assert_eq!(n.text, "Entry 'b' removed.");
    assert_eq!(names(&entries), vec!["a", "c"]);
    assert!(lookup(&entries, "b").is_err());
    changed(cmd_remove(&mut entries, 0, "y"));
    assert_eq!(names(&entries), vec!["c"]);
}

#[test]
fn confirmation_accepts_y_and_yes_in_any_case() {
    for yes in ["y", "Y", "yes", "YES", "Yes", "yEs"] {
        assert!(is_confirmation(yes), "{}", yes);
    }
    for no in ["", "n", "no", "ye", "yess", " y", "y ", "\u{ff}", "\u{ff}es", "yep"] {
        assert!(!is_confirmation(no), "{}", no);
    }
    assert_eq!(confirmation_prompt("aws"), "Remove 'aws'? [y/N]");
}

#[test]
fn list_masks_keys() {
    let empty: Vec<Entry> = Vec::new();
    let lines = cmd_list(&empty);
    assert_eq!(lines.len(), 1);
    assert!(lines[0].tone == Tone::Info);
    assert_eq!(lines[0].text, "No entries yet. Use /create to add one.");
    let entries = vec![entry("a", "P", "secret-one"), entry("b", "Q", "secret-two")];
    let lines = cmd_list(&entries);
    assert_eq!(lines.len(), 2);
    assert!(lines[0].tone == Tone::Plain);
    assert_eq!(
        lines[0].text,
        "\x1b[36m\u{25cf}\x1b[0m \x1b[1ma\x1b[0m \x1b[2m(P)\x1b[0m key: \x1b[2m****\x1b[0m"
    );
    assert_eq!(
        lines[1].text,
        "\x1b[36m\u{25cf}\x1b[0m \x1b[1mb\x1b[0m \x1b[2m(Q)\x1b[0m key: \x1b[2m****\x1b[0m"
    );
    let rekeyed = vec![entry("a", "P", "x"), entry("b", "Q", "y")];
    let again = cmd_list(&rekeyed);
    assert_eq!(again[0].text, lines[0].text);
    assert_eq!(again[1].text, lines[1].text);
    assert!(!lines[0].text.contains("secret"));
}

#[test]
fn help_lists_every_command() {
    let lines = print_help();
    let texts: Vec<&str> = lines.iter().map(|n| n.text.as_str()).collect();
    assert_eq!(
        texts,
        vec![
            "\x1b[1mCommands:\x1b[0m",
            "  \x1b[36m/list   \x1b[0m List all entries (keys stay hidden)",
            "  \x1b[36m/create \x1b[0m Create a new entry",
            "  \x1b[36m/update \x1b[0m Change the key of an existing entry",
            "  \x1b[36m/show   \x1b[0m Show an entry with its key decrypted",
            "  \x1b[36m/remove \x1b[0m Remove an entry (asks for confirmation)",
            "  \x1b[36m/help   \x1b[0m Show this help",
            "  \x1b[36m/quit   \x1b[0m Exit",
        ]
    );
    assert!(lines.iter().all(|n| n.tone == Tone::Plain));
}

#[test]
fn padding_counts_characters() {
    assert_eq!(pad_to_width("ab", 4), "ab  ");
    assert_eq!(pad_to_width("abcdef", 4), "abcdef");
    assert_eq!(pad_to_width("\u{e9}", 3), "\u{e9}  ");
    assert_eq!(pad_to_width("", 0), "");
    assert_eq!(format!("{:<8}", "/list"), pad_to_width("/list", 8));
}
