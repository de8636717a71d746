//! Typed commands for the `xdotool` command line tool, rendered to the exact
//! command line that drives it.

use vstd::prelude::*;
use crate::command::Command;

pub mod args;
pub mod command;
pub mod decimal;
pub mod desktop;
pub mod keyboard;
pub mod misc;
pub mod mouse;
pub mod optionvec;
pub mod window;

pub use optionvec::OptionVec;
pub use optionvec::Render;

verus! {

/// The command line for a command and its arguments: the tool's name, the
/// command and the arguments, with one space after each of the first two.
pub open spec fn invocation(command: Seq<char>, args: Seq<char>) -> Seq<char> {
    "xdotool"@ + seq![' '] + command + seq![' '] + args
}

/// Writes the command line that runs `command` with the arguments `args`.
/// Nothing in `args` is quoted or escaped: the shell reads it as it stands.
pub fn command_line(command: Command, args: &str) -> (line: String)
    ensures
        line@ == invocation(command.rendered(), args@),
{
    let mut line = String::from_str("xdotool");
    let written = command.render();
    proof {
        reveal_strlit(" ");
    }
    line.append(" ");
    line.append(written.as_str());
    line.append(" ");
    line.append(args);
    line
}

} // verus!
