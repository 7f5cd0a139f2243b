//! Terminal styling and the notices that the vault shows to its user.
use vstd::prelude::*;

verus! {

pub const RESET: &'static str = "\x1b[0m";
pub const BOLD: &'static str = "\x1b[1m";
pub const DIM: &'static str = "\x1b[2m";
pub const RED: &'static str = "\x1b[31m";
pub const GREEN: &'static str = "\x1b[32m";
pub const YELLOW: &'static str = "\x1b[33m";
pub const MAGENTA: &'static str = "\x1b[35m";
pub const CYAN: &'static str = "\x1b[36m";

/// How a notice is shown.
#[derive(Clone, Copy, Debug, PartialEq, Eq, Structural)]
pub enum Tone {
    /// Green, with a check mark.
    Success,
    /// Red, with a cross.
    Error,
    /// Dimmed.
    Info,
    /// As it is.
    Plain,
}

/// One line for the user.
pub struct Notice {
    pub tone: Tone,
    pub text: String,
}

/// `notice` has the given tone and text.
pub open spec fn is_notice(notice: Notice, tone: Tone, text: Seq<char>) -> bool {
    notice.tone == tone && notice.text@ == text
}

/// The line printed for a notice.
pub open spec fn spec_render(tone: Tone, text: Seq<char>) -> Seq<char> {
    match tone {
        Tone::Success => GREEN@ + "\u{2714} "@ + text + RESET@,
        Tone::Error => RED@ + "\u{2718} "@ + text + RESET@,
        Tone::Info => DIM@ + text + RESET@,
        Tone::Plain => text,
    }
}

/// A rendered notice shows its whole text: colour and mark before it, `RESET`
/// after it (plain notices as they are), for every tone.
pub proof fn lemma_render_keeps_text(tone: Tone, text: Seq<char>)
    ensures
        ({
            let line = spec_render(tone, text);
            let head = match tone {
                Tone::Success => GREEN@ + "\u{2714} "@,
                Tone::Error => RED@ + "\u{2718} "@,
                Tone::Info => DIM@,
                Tone::Plain => Seq::<char>::empty(),
            };
            let tail = if tone == Tone::Plain { Seq::<char>::empty() } else { RESET@ };
            line == head + text + tail
        }),
{
    let line = spec_render(tone, text);
    match tone {
        Tone::Plain => {
            assert(line =~= Seq::<char>::empty() + text + Seq::<char>::empty());
        },
        _ => {},
    }
}

impl Notice {
    /// A notice with the given tone whose text is `text`.
    pub fn new(tone: Tone, text: &str) -> (notice: Notice)
        ensures
            is_notice(notice, tone, text@),
    {
        Notice { tone, text: String::from_str(text) }
    }

    /// The line printed for this notice, with its colour codes.
    pub fn render(&self) -> (line: String)
        ensures
            line@ == spec_render(self.tone, self.text@),
    {
        match self.tone {
            Tone::Success => {
                let mut line = String::from_str(GREEN);
                line.append("\u{2714} ");
                line.append(self.text.as_str());
                line.append(RESET);
                line
            },
            Tone::Error => {
                let mut line = String::from_str(RED);
                line.append("\u{2718} ");
                line.append(self.text.as_str());
                line.append(RESET);
                line
            },
            Tone::Info => {
                let mut line = String::from_str(DIM);
                line.append(self.text.as_str());
                line.append(RESET);
                line
            },
            Tone::Plain => self.text.clone(),
        }
    }
}

/// The text `first` + `middle` + `last`.
pub fn surround(first: &str, middle: &str, last: &str) -> (text: String)
    ensures
        text@ == first@ + middle@ + last@,
{
    let mut text = String::from_str(first);
    text.append(middle);
    text.append(last);
    text
}

} // verus!
