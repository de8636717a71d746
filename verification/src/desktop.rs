//! Command lines for desktops.

use vstd::prelude::*;
use crate::args::{none, pair};
use crate::command::options::{SetDesktopOption, Sync};
use crate::command::sub_commands::Desktop;
use crate::command::Command;
use crate::decimal::{decimal, decimal_text};
use crate::optionvec::{spaced, OptionVec, Render};
use crate::{command_line, invocation};

verus! {

/// The command line that activates `window`, switching to the desktop that
/// holds it.
pub fn activate_window(window: &str, options: OptionVec<Sync>) -> (line: String)
    ensures
        line@ == invocation(
            Command::Desktop(Desktop::WindowActivate(options)).rendered(),
            window@,
        ),
{
    command_line(Command::Desktop(Desktop::WindowActivate(options)), window)
}

/// The command line that reports the active window.
pub fn get_active_window() -> (line: String)
    ensures
        line@ == invocation(Command::Desktop(Desktop::GetActiveWindow).rendered(), Seq::empty()),
{
    command_line(Command::Desktop(Desktop::GetActiveWindow), none())
}

/// The command line that sets the number of desktops to `num`.
pub fn set_num_desktops(num: u8) -> (line: String)
    ensures
        line@ == invocation(
            Command::Desktop(Desktop::SetNumDesktops).rendered(),
            decimal(num as nat),
        ),
{
    let args = decimal_text(num as u64);
    command_line(Command::Desktop(Desktop::SetNumDesktops), args.as_str())
}

/// The command line that reports the number of desktops.
pub fn get_num_desktops() -> (line: String)
    ensures
        line@ == invocation(Command::Desktop(Desktop::GetNumDesktops).rendered(), Seq::empty()),
{
    command_line(Command::Desktop(Desktop::GetNumDesktops), none())
}

/// The command line that moves the viewport to the position `x`, `y`.
pub fn set_desktop_viewport(x: u16, y: u16) -> (line: String)
    ensures
        line@ == invocation(
            Command::Desktop(Desktop::SetDesktopViewport).rendered(),
            spaced(seq![decimal(x as nat), decimal(y as nat)]),
        ),
{
    let across = decimal_text(x as u64);
    let down = decimal_text(y as u64);
    let args = pair(across.as_str(), down.as_str());
    command_line(Command::Desktop(Desktop::SetDesktopViewport), args.as_str())
}

/// The command line that reports the position of the viewport.
pub fn get_desktop_viewport() -> (line: String)
    ensures
        line@ == invocation(
            Command::Desktop(Desktop::GetDesktopViewport).rendered(),
            Seq::empty(),
        ),
{
    command_line(Command::Desktop(Desktop::GetDesktopViewport), none())
}

/// The command line that switches to the desktop `desktop_number`.
pub fn set_desktop(desktop_number: u8, options: OptionVec<SetDesktopOption>) -> (line: String)
    ensures
        line@ == invocation(
            Command::Desktop(Desktop::SetDesktop(options)).rendered(),
            decimal(desktop_number as nat),
        ),
{
    let args = decimal_text(desktop_number as u64);
    command_line(Command::Desktop(Desktop::SetDesktop(options)), args.as_str())
}

/// The command line that reports the desktop in view.
pub fn get_desktop() -> (line: String)
    ensures
        line@ == invocation(Command::Desktop(Desktop::GetDesktop).rendered(), Seq::empty()),
{
    command_line(Command::Desktop(Desktop::GetDesktop), none())
}

/// The command line that moves `window` to the desktop `desktop_number`.
pub fn set_desktop_for_window(
    window: &str,
    desktop_number: u8,
    options: OptionVec<SetDesktopOption>,
) -> (line: String)
    ensures
        line@ == invocation(
            Command::Desktop(Desktop::SetDesktopForWindow(options)).rendered(),
            spaced(seq![window@, decimal(desktop_number as nat)]),
        ),
{
    let number = decimal_text(desktop_number as u64);
    let args = pair(window, number.as_str());
    command_line(Command::Desktop(Desktop::SetDesktopForWindow(options)), args.as_str())
}

/// The command line that reports the desktop that holds `window`.
pub fn get_desktop_for_window(window: &str) -> (line: String)
    ensures
        line@ == invocation(Command::Desktop(Desktop::GetDesktopForWindow).rendered(), window@),
{
    command_line(Command::Desktop(Desktop::GetDesktopForWindow), window)
}

} // verus!
