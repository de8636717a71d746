//! Command lines for what belongs to no other family.

use vstd::prelude::*;
use crate::command::options::Sync;
use crate::command::sub_commands::Misc;
use crate::command::Command;
use crate::optionvec::{OptionVec, Render};
use crate::{command_line, invocation};

verus! {

/// The command line that runs the program `command`.
pub fn exec(command: &str, options: OptionVec<Sync>) -> (line: String)
    ensures
        line@ == invocation(Command::Misc(Misc::Exec(options)).rendered(), command@),
{
    command_line(Command::Misc(Misc::Exec(options)), command)
}

/// The command line that waits for `seconds`, a number of seconds in decimal
/// notation, with a fraction or without (`2`, `1.3`, `0.4`).
pub fn sleep(seconds: &str) -> (line: String)
    ensures
        line@ == invocation(Command::Misc(Misc::Sleep).rendered(), seconds@),
{
    command_line(Command::Misc(Misc::Sleep), seconds)
}

} // verus!
