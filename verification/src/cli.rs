//! The command-line front end's part in an exchange with the daemon.
//!
//! The front end sends one request line and prints the one line that comes back as it
//! is. What it sends is decided here.

use crate::decimal::{decimal_text, push_decimal};
use crate::protocol::Command;
use vstd::prelude::*;
use vstd::string::StringExecFns;

verus! {

/// The request line that asks for `command`.
pub open spec fn request_text(command: Command) -> Seq<char> {
    match command {
        Command::Add(id) => "add "@ + decimal_text(id as nat) + "\n"@,
        Command::Remove(id) => "remove "@ + decimal_text(id as nat) + "\n"@,
        Command::List => "list\n"@,
        Command::ToggleActive => "toggle_active\n"@,
    }
}

/// The line that the front end sends to the daemon to ask for `command`.
pub fn run_cli(command: Command) -> (request: String)
    ensures
        request@ == request_text(command),
{
    match command {
        Command::Add(id) => {
            let mut request = String::from_str("add ");
            push_decimal(&mut request, id);
            request.append("\n");
            request
        },
        Command::Remove(id) => {
            let mut request = String::from_str("remove ");
            push_decimal(&mut request, id);
            request.append("\n");
            request
        },
        Command::List => String::from_str("list\n"),
        Command::ToggleActive => String::from_str("toggle_active\n"),
    }
}

} // verus!
