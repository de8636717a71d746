//! The commands of the tool and the text of each.

use vstd::prelude::*;
use crate::optionvec::{spaced, Render};

pub mod options;
pub mod sub_commands;

pub use crate::optionvec::OptionVec;

verus! {

/// A command of the tool: one of a family, with its options.
pub enum Command {
    /// A command that sends keystrokes.
    Keyboard(sub_commands::Keyboard),
    /// A command that moves the mouse or presses its buttons.
    Mouse(sub_commands::Mouse),
    /// A command that finds, inspects or changes windows.
    Window(sub_commands::Window),
    /// A command that deals with desktops.
    Desktop(sub_commands::Desktop),
    /// A command of no other family.
    Misc(sub_commands::Misc),
}

impl Command {
    /// The command's name.
    pub open spec fn name(&self) -> Seq<char> {
        match self {
            Command::Keyboard(sub) => sub.name(),
            Command::Mouse(sub) => sub.name(),
            Command::Window(sub) => sub.name(),
            Command::Desktop(sub) => sub.name(),
            Command::Misc(sub) => sub.name(),
        }
    }

    /// The text of each of the command's options, in order.
    pub open spec fn options(&self) -> Seq<Seq<char>> {
        match self {
            Command::Keyboard(sub) => sub.options(),
            Command::Mouse(sub) => sub.options(),
            Command::Window(sub) => sub.options(),
            Command::Desktop(sub) => sub.options(),
            Command::Misc(sub) => sub.options(),
        }
    }
}

impl Render for Command {
    open spec fn rendered(&self) -> Seq<char> {
        match self {
            Command::Keyboard(sub) => sub.rendered(),
            Command::Mouse(sub) => sub.rendered(),
            Command::Window(sub) => sub.rendered(),
            Command::Desktop(sub) => sub.rendered(),
            Command::Misc(sub) => sub.rendered(),
        }
    }

    fn render(&self) -> (text: String) {
        match self {
            Command::Keyboard(sub) => sub.render(),
            Command::Mouse(sub) => sub.render(),
            Command::Window(sub) => sub.render(),
            Command::Desktop(sub) => sub.render(),
            Command::Misc(sub) => sub.render(),
        }
    }
}

/// A command without options renders to its name and nothing more, with no
/// space after it. A command with options renders to its name, one space and
/// the options joined by single spaces.
pub proof fn lemma_command_rendering(command: Command)
    ensures
        command.options().len() == 0 ==> command.rendered() == command.name(),
        command.options().len() > 0 ==> command.rendered() == command.name() + seq![' ']
            + spaced(command.options()),
{
}

/// However often a command is rendered, the text is the same: of all the
/// texts that calls of `render` return for one command, no two differ.
pub proof fn lemma_command_render_repeatable(command: Command, texts: Seq<String>)
    requires
        forall|i: int|
            0 <= i < texts.len() ==> call_ensures(Command::render, (&command,), #[trigger] texts[i]),
    ensures
        forall|i: int, j: int|
            0 <= i < texts.len() && 0 <= j < texts.len() ==> (#[trigger] texts[i])@ == (
            #[trigger] texts[j])@,
{
}

} // verus!
