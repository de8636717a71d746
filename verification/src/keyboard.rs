//! Command lines for the keyboard.

use vstd::prelude::*;
use crate::command::options::KeyboardOption;
use crate::command::sub_commands::Keyboard;
use crate::command::Command;
use crate::optionvec::{OptionVec, Render};
use crate::{command_line, invocation};

verus! {

/// The command line that types a keystroke: each key is pressed and released.
/// Keys that belong to one keystroke are joined by `+`; keystrokes are
/// separated by spaces.
pub fn send_key(keys: &str, options: OptionVec<KeyboardOption>) -> (line: String)
    ensures
        line@ == invocation(Command::Keyboard(Keyboard::Key(options)).rendered(), keys@),
{
    command_line(Command::Keyboard(Keyboard::Key(options)), keys)
}

/// As [`send_key`], but the keys are only pressed.
pub fn send_key_down(keys: &str, options: OptionVec<KeyboardOption>) -> (line: String)
    ensures
        line@ == invocation(Command::Keyboard(Keyboard::KeyDown(options)).rendered(), keys@),
{
    command_line(Command::Keyboard(Keyboard::KeyDown(options)), keys)
}

/// As [`send_key`], but the keys are only released.
pub fn send_key_up(keys: &str, options: OptionVec<KeyboardOption>) -> (line: String)
    ensures
        line@ == invocation(Command::Keyboard(Keyboard::KeyUp(options)).rendered(), keys@),
{
    command_line(Command::Keyboard(Keyboard::KeyUp(options)), keys)
}

/// The command line that types `text` as if it came from the keyboard.
pub fn type_text(text: &str, options: OptionVec<KeyboardOption>) -> (line: String)
    ensures
        line@ == invocation(Command::Keyboard(Keyboard::Type(options)).rendered(), text@),
{
    command_line(Command::Keyboard(Keyboard::Type(options)), text)
}

} // verus!
