//! The commands that the bot answers to.

use crate::text::{chars_of, first_word, first_word_of, same_chars};
use vstd::prelude::*;

verus! {

/// The command that asks for the help text.
pub const HELP_COMMAND: &'static str = "!help";

/// The command that asks for a print.
pub const PRINT_COMMAND: &'static str = "!print";

/// The command that asks for a picture from the camera.
pub const SHOW_COMMAND: &'static str = "!showme";

/// The command that hands a script to the sandbox.
pub const LUA_COMMAND: &'static str = "!lua";

/// A command of the bot.
#[derive(Debug, Clone, Copy, PartialEq, Eq, Structural)]
pub enum Command {
    Print,
    Lua,
    Help,
    Show,
}

/// The command that a word is, if it is one. Commands are matched letter for
/// letter.
pub open spec fn command_of_word(word: Seq<char>) -> Option<Command> {
    if word == PRINT_COMMAND@ {
        Some(Command::Print)
    } else if word == LUA_COMMAND@ {
        Some(Command::Lua)
    } else if word == HELP_COMMAND@ {
        Some(Command::Help)
    } else if word == SHOW_COMMAND@ {
        Some(Command::Show)
    } else {
        None
    }
}

/// The command that a message gives: its first word, if that is a command.
pub open spec fn command_of(content: Seq<char>) -> Option<Command> {
    match first_word(content) {
        Some(word) => command_of_word(word),
        None => None,
    }
}

/// The command that a message gives.
pub fn parse_command(content: &str) -> (r: Option<Command>)
    ensures
        r == command_of(content@),
{
    let chars = chars_of(content);
    match first_word_of(&chars) {
        None => None,
        Some(word) => {
            if same_chars(&word, &chars_of(PRINT_COMMAND)) {
                Some(Command::Print)
            } else if same_chars(&word, &chars_of(LUA_COMMAND)) {
                Some(Command::Lua)
            } else if same_chars(&word, &chars_of(HELP_COMMAND)) {
                Some(Command::Help)
            } else if same_chars(&word, &chars_of(SHOW_COMMAND)) {
                Some(Command::Show)
            } else {
                None
            }
        },
    }
}

} // verus!
