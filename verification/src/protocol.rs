//! The control protocol: one request line, one reply line.

use crate::decimal::{decimal_text, push_decimal, read_unsigned, unsigned_value};
use crate::text::{chars_of, find_word, first_word, second_word, spells, word_bounds};
use vstd::prelude::*;
use vstd::slice::slice_subrange;
use vstd::string::StringExecFns;

verus! {

/// A request that the daemon understands.
#[derive(Clone, Copy, Debug, PartialEq, Eq, Structural)]
pub enum Command {
    /// `add <id>`
    Add(u64),
    /// `remove <id>`
    Remove(u64),
    /// `list`
    List,
    /// `toggle_active`
    ToggleActive,
}

/// Why a request line is no command.
#[derive(Clone, Copy, Debug, PartialEq, Eq, Structural)]
pub enum ParseError {
    /// The line is empty or its first word is no command.
    UnknownCommand,
    /// `add` or `remove` without a second word.
    MissingWindowId,
    /// `add` or `remove` with a second word that writes no window id.
    InvalidWindowId,
}

/// The window id that the argument of `add` or `remove` names.
pub open spec fn window_id_of(arg: Seq<char>) -> Result<u64, ParseError> {
    if arg.len() == 0 {
        Err(ParseError::MissingWindowId)
    } else {
        match unsigned_value(arg) {
            Some(id) => Ok(id),
            None => Err(ParseError::InvalidWindowId),
        }
    }
}

/// The command that a request line holds. The first word names it, the second is its
/// argument, further words are ignored.
pub open spec fn parse_line(line: Seq<char>) -> Result<Command, ParseError> {
    let verb = first_word(line);
    if verb == "add"@ {
        match window_id_of(second_word(line)) {
            Ok(id) => Ok(Command::Add(id)),
            Err(e) => Err(e),
        }
    } else if verb == "remove"@ {
        match window_id_of(second_word(line)) {
            Ok(id) => Ok(Command::Remove(id)),
            Err(e) => Err(e),
        }
    } else if verb == "list"@ {
        Ok(Command::List)
    } else if verb == "toggle_active"@ {
        Ok(Command::ToggleActive)
    } else {
        Err(ParseError::UnknownCommand)
    }
}

/// Reads the argument of `add` or `remove`: the first word at or after `from`.
fn parse_window_id(line: &[char], from: usize) -> (r: Result<u64, ParseError>)
    requires
        from <= line.len(),
    ensures
        r == window_id_of(
            line@.subrange(
                word_bounds(line@, from as int).0,
                word_bounds(line@, from as int).1,
            ),
        ),
{
    let (begin, end) = find_word(line, from);
    if begin == end {
        Err(ParseError::MissingWindowId)
    } else {
        match read_unsigned(slice_subrange(line, begin, end)) {
            Some(id) => Ok(id),
            None => Err(ParseError::InvalidWindowId),
        }
    }
}

/// Parses one request line.
pub fn parse_command(line: &str) -> (r: Result<Command, ParseError>)
    ensures
        r == parse_line(line@),
{
    let chars = chars_of(line);
    let (begin, end) = find_word(chars.as_slice(), 0);
    let verb = slice_subrange(chars.as_slice(), begin, end);
    if spells(verb, "add") {
        match parse_window_id(chars.as_slice(), end) {
            Ok(id) => Ok(Command::Add(id)),
            Err(e) => Err(e),
        }
    } else if spells(verb, "remove") {
        match parse_window_id(chars.as_slice(), end) {
            Ok(id) => Ok(Command::Remove(id)),
            Err(e) => Err(e),
        }
    } else if spells(verb, "list") {
        Ok(Command::List)
    } else if spells(verb, "toggle_active") {
        Ok(Command::ToggleActive)
    } else {
        Err(ParseError::UnknownCommand)
    }
}

/// What the daemon answers.
#[derive(Debug, PartialEq, Eq)]
pub enum Reply {
    Added,
    AlreadySticky,
    Removed,
    NotSticky,
    WindowNotFound,
    InvalidWindowId,
    MissingWindowId,
    /// The sticky windows that exist.
    Listing(Vec<u64>),
    ActiveAdded,
    ActiveRemoved,
    ActiveNotFound,
    ActiveUnknown,
    /// The compositor did not say which windows exist.
    WindowsUnknown,
    UnknownCommand,
}

/// The ids with `, ` between them.
pub open spec fn joined_text(ids: Seq<u64>) -> Seq<char>
    decreases ids.len(),
{
    if ids.len() == 0 {
        Seq::empty()
    } else if ids.len() == 1 {
        decimal_text(ids[0] as nat)
    } else {
        joined_text(ids.drop_last()) + ", "@ + decimal_text(ids.last() as nat)
    }
}

/// The line that lists `ids`: `[1, 2, 3]`, and `[]` for none.
pub open spec fn listing_text(ids: Seq<u64>) -> Seq<char> {
    "["@ + joined_text(ids) + "]\n"@
}

impl View for Reply {
    type V = Seq<char>;

    /// A reply is viewed as the line that the client reads.
    open spec fn view(&self) -> Seq<char> {
        match *self {
            Reply::Added => "Added\n"@,
            Reply::AlreadySticky => "Already in sticky list\n"@,
            Reply::Removed => "Removed\n"@,
            Reply::NotSticky => "Not in sticky list\n"@,
            Reply::WindowNotFound => "Window not found in Niri\n"@,
            Reply::InvalidWindowId => "Invalid window id\n"@,
            Reply::MissingWindowId => "Missing window id\n"@,
            Reply::Listing(ids) => listing_text(ids@),
            Reply::ActiveAdded => "Added active window to sticky\n"@,
            Reply::ActiveRemoved => "Removed active window from sticky\n"@,
            Reply::ActiveNotFound => "Active window not found in Niri\n"@,
            Reply::ActiveUnknown => "Failed to get active window\n"@,
            Reply::WindowsUnknown => "Failed to get windows list\n"@,
            Reply::UnknownCommand => "Unknown command\n"@,
        }
    }
}

/// The reply to a line that is no command.
pub open spec fn refusal(error: ParseError) -> Reply {
    match error {
        ParseError::UnknownCommand => Reply::UnknownCommand,
        ParseError::MissingWindowId => Reply::MissingWindowId,
        ParseError::InvalidWindowId => Reply::InvalidWindowId,
    }
}

impl ParseError {
    /// The reply that tells the client what was wrong with its line.
    pub fn reply(self) -> (reply: Reply)
        ensures
            reply == refusal(self),
    {
        match self {
            ParseError::UnknownCommand => Reply::UnknownCommand,
            ParseError::MissingWindowId => Reply::MissingWindowId,
            ParseError::InvalidWindowId => Reply::InvalidWindowId,
        }
    }
}

impl Reply {
    /// The reply as the line that goes to the client, newline included.
    pub fn line(&self) -> (text: String)
        ensures
            text@ == self@,
    {
        match self {
            Reply::Added => String::from_str("Added\n"),
            Reply::AlreadySticky => String::from_str("Already in sticky list\n"),
            Reply::Removed => String::from_str("Removed\n"),
            Reply::NotSticky => String::from_str("Not in sticky list\n"),
            Reply::WindowNotFound => String::from_str("Window not found in Niri\n"),
            Reply::InvalidWindowId => String::from_str("Invalid window id\n"),
            Reply::MissingWindowId => String::from_str("Missing window id\n"),
            Reply::Listing(ids) => {
                let mut text = String::from_str("[");
                let mut at: usize = 0;
                while at < ids.len()
                    invariant
                        at <= ids.len(),
                        text@ == "["@ + joined_text(ids@.take(at as int)),
                    decreases ids.len() - at,
                {
                    let ghost done = ids@.take(at as int);
                    let ghost more = ids@.take(at + 1);
                    assert(more.drop_last() =~= done);
                    if at > 0 {
                        text.append(", ");
                    }
                    push_decimal(&mut text, ids[at]);
                    assert(text@ =~= "["@ + joined_text(more));
                    at += 1;
                }
                assert(ids@.take(at as int) =~= ids@);
                text.append("]\n");
                text
            },
            Reply::ActiveAdded => String::from_str("Added active window to sticky\n"),
            Reply::ActiveRemoved => String::from_str("Removed active window from sticky\n"),
            Reply::ActiveNotFound => String::from_str("Active window not found in Niri\n"),
            Reply::ActiveUnknown => String::from_str("Failed to get active window\n"),
            Reply::WindowsUnknown => String::from_str("Failed to get windows list\n"),
            Reply::UnknownCommand => String::from_str("Unknown command\n"),
        }
    }
}

} // verus!
