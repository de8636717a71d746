//! Command lines for windows.

use vstd::prelude::*;
use crate::args::{pair, triple};
use crate::command::options::{
    GetWindowGeometryOption, SearchOption, SetWindowOption, Sync, WindowMoveOption,
    WindowSizeOption,
};
use crate::command::sub_commands::Window;
use crate::command::Command;
use crate::optionvec::{spaced, OptionVec, Render};
use crate::{command_line, invocation};

verus! {

/// The command line that searches for the windows whose title, name or class
/// matches the pattern `s`.
pub fn search(s: &str, options: OptionVec<SearchOption>) -> (line: String)
    ensures
        line@ == invocation(Command::Window(Window::Search(options)).rendered(), s@),
{
    command_line(Command::Window(Window::Search(options)), s)
}

/// The command line that reports the process that owns `window`.
pub fn get_window_pid(window: &str) -> (line: String)
    ensures
        line@ == invocation(Command::Window(Window::GetWindowPid).rendered(), window@),
{
    command_line(Command::Window(Window::GetWindowPid), window)
}

/// The command line that reports the name of `window`, also known as its
/// title.
pub fn get_window_name(window: &str) -> (line: String)
    ensures
        line@ == invocation(Command::Window(Window::GetWindowName).rendered(), window@),
{
    command_line(Command::Window(Window::GetWindowName), window)
}

/// The command line that reports where `window` is and how large.
pub fn get_window_geometry(
    window: &str,
    options: OptionVec<GetWindowGeometryOption>,
) -> (line: String)
    ensures
        line@ == invocation(
            Command::Window(Window::GetWindowGeometry(options)).rendered(),
            window@,
        ),
{
    command_line(Command::Window(Window::GetWindowGeometry(options)), window)
}

/// The command line that reports the window that has the focus.
pub fn get_window_focus(window: &str) -> (line: String)
    ensures
        line@ == invocation(Command::Window(Window::GetWindowFocus).rendered(), window@),
{
    command_line(Command::Window(Window::GetWindowFocus), window)
}

/// The command line that gives `window` the size `width` by `height`. Each
/// may be a percentage of the screen's size.
pub fn set_window_size(
    window: &str,
    width: &str,
    height: &str,
    options: OptionVec<WindowSizeOption>,
) -> (line: String)
    ensures
        line@ == invocation(
            Command::Window(Window::WindowSize(options)).rendered(),
            spaced(seq![window@, width@, height@]),
        ),
{
    let args = triple(window, width, height);
    command_line(Command::Window(Window::WindowSize(options)), args.as_str())
}

/// The command line that moves `window` to the position `x`, `y`. A
/// coordinate written as the letter `x` or `y` stays as it is.
pub fn move_window(
    window: &str,
    x: &str,
    y: &str,
    options: OptionVec<WindowMoveOption>,
) -> (line: String)
    ensures
        line@ == invocation(
            Command::Window(Window::WindowMove(options)).rendered(),
            spaced(seq![window@, x@, y@]),
        ),
{
    let args = triple(window, x, y);
    command_line(Command::Window(Window::WindowMove(options)), args.as_str())
}

/// The command line that gives `window` the focus.
pub fn focus_window(window: &str, options: OptionVec<Sync>) -> (line: String)
    ensures
        line@ == invocation(Command::Window(Window::WindowFocus(options)).rendered(), window@),
{
    command_line(Command::Window(Window::WindowFocus(options)), window)
}

/// The command line that maps `window`: makes it visible on the screen.
pub fn window_map(window: &str, options: OptionVec<Sync>) -> (line: String)
    ensures
        line@ == invocation(Command::Window(Window::WindowMap(options)).rendered(), window@),
{
    command_line(Command::Window(Window::WindowMap(options)), window)
}

/// The command line that minimizes `window`.
pub fn minimize_window(window: &str, options: OptionVec<Sync>) -> (line: String)
    ensures
        line@ == invocation(Command::Window(Window::WindowMinimize(options)).rendered(), window@),
{
    command_line(Command::Window(Window::WindowMinimize(options)), window)
}

/// The command line that raises `window` to the top of the stack.
pub fn raise_window(window: &str) -> (line: String)
    ensures
        line@ == invocation(Command::Window(Window::WindowRaise).rendered(), window@),
{
    command_line(Command::Window(Window::WindowRaise), window)
}

/// The command line that makes `source_window` a child of
/// `destination_window`.
pub fn reparent_window(source_window: &str, destination_window: &str) -> (line: String)
    ensures
        line@ == invocation(
            Command::Window(Window::WindowReparent).rendered(),
            spaced(seq![source_window@, destination_window@]),
        ),
{
    let args = pair(source_window, destination_window);
    command_line(Command::Window(Window::WindowReparent), args.as_str())
}

/// The command line that closes `window` and leaves the client that controls
/// it alive.
pub fn close_window(window: &str) -> (line: String)
    ensures
        line@ == invocation(Command::Window(Window::WindowClose).rendered(), window@),
{
    command_line(Command::Window(Window::WindowClose), window)
}

/// The command line that closes `window` and kills the client that controls
/// it.
pub fn kill_window(window: &str) -> (line: String)
    ensures
        line@ == invocation(Command::Window(Window::WindowKill).rendered(), window@),
{
    command_line(Command::Window(Window::WindowKill), window)
}

/// The command line that unmaps `window`: takes it off the screen.
pub fn unmap_window(window: &str, options: OptionVec<Sync>) -> (line: String)
    ensures
        line@ == invocation(Command::Window(Window::WindowUnmap(options)).rendered(), window@),
{
    command_line(Command::Window(Window::WindowUnmap(options)), window)
}

/// The command line that sets properties of `window`, one for each option.
pub fn set_window(window: &str, options: OptionVec<SetWindowOption>) -> (line: String)
    ensures
        line@ == invocation(Command::Window(Window::SetWindow(options)).rendered(), window@),
{
    command_line(Command::Window(Window::SetWindow(options)), window)
}

} // verus!
