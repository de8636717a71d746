//! Command lines for the mouse.

use vstd::prelude::*;
use crate::args::{none, pair};
use crate::command::options::{
    BehaveScreenEdgeOption, ClickOption, MouseMoveOption, MouseMoveRelativeOption,
};
use crate::command::sub_commands::Mouse;
use crate::command::Command;
use crate::decimal::{decimal, decimal_text, signed_decimal, signed_decimal_text};
use crate::optionvec::{spaced, OptionVec, Render};
use crate::{command_line, invocation};

verus! {

/// A button of the mouse, or a turn of its wheel.
pub enum Button {
    Left,
    Middle,
    Right,
    ScrollUp,
    ScrollDown,
}

impl Render for Button {
    /// The number that the tool knows the button by.
    open spec fn rendered(&self) -> Seq<char> {
        match self {
            Button::Left => "1"@,
            Button::Middle => "2"@,
            Button::Right => "3"@,
            Button::ScrollUp => "4"@,
            Button::ScrollDown => "5"@,
        }
    }

    fn render(&self) -> (text: String) {
        match self {
            Button::Left => String::from_str("1"),
            Button::Middle => String::from_str("2"),
            Button::Right => String::from_str("3"),
            Button::ScrollUp => String::from_str("4"),
            Button::ScrollDown => String::from_str("5"),
        }
    }
}

/// An edge or a corner of the screen.
pub enum ScreenEdge {
    Left,
    TopLeft,
    Top,
    TopRight,
    Right,
    BottomLeft,
    Bottom,
    BottomRight,
}

impl Render for ScreenEdge {
    /// The word that the tool knows the edge by.
    open spec fn rendered(&self) -> Seq<char> {
        match self {
            ScreenEdge::Left => "left"@,
            ScreenEdge::TopLeft => "top-left"@,
            ScreenEdge::Top => "top"@,
            ScreenEdge::TopRight => "top-right"@,
            ScreenEdge::Right => "right"@,
            ScreenEdge::BottomLeft => "bottom-left"@,
            ScreenEdge::Bottom => "bottom"@,
            ScreenEdge::BottomRight => "bottom-right"@,
        }
    }

    fn render(&self) -> (text: String) {
        match self {
            ScreenEdge::Left => String::from_str("left"),
            ScreenEdge::TopLeft => String::from_str("top-left"),
            ScreenEdge::Top => String::from_str("top"),
            ScreenEdge::TopRight => String::from_str("top-right"),
            ScreenEdge::Right => String::from_str("right"),
            ScreenEdge::BottomLeft => String::from_str("bottom-left"),
            ScreenEdge::Bottom => String::from_str("bottom"),
            ScreenEdge::BottomRight => String::from_str("bottom-right"),
        }
    }
}

/// The command line that moves the mouse to the position `x`, `y`.
pub fn move_mouse(x: u16, y: u16, options: OptionVec<MouseMoveOption>) -> (line: String)
    ensures
        line@ == invocation(
            Command::Mouse(Mouse::MouseMove(options)).rendered(),
            spaced(seq![decimal(x as nat), decimal(y as nat)]),
        ),
{
    let across = decimal_text(x as u64);
    let down = decimal_text(y as u64);
    let args = pair(across.as_str(), down.as_str());
    command_line(Command::Mouse(Mouse::MouseMove(options)), args.as_str())
}

/// The command line that moves the mouse by `x`, `y` from where it is.
pub fn move_mouse_relative(
    x: i16,
    y: i16,
    options: OptionVec<MouseMoveRelativeOption>,
) -> (line: String)
    ensures
        line@ == invocation(
            Command::Mouse(Mouse::MouseMoveRelative(options)).rendered(),
            spaced(seq![signed_decimal(x as int), signed_decimal(y as int)]),
        ),
{
    let across = signed_decimal_text(x as i32);
    let down = signed_decimal_text(y as i32);
    let args = pair(across.as_str(), down.as_str());
    command_line(Command::Mouse(Mouse::MouseMoveRelative(options)), args.as_str())
}

/// The command line that presses and releases `button`.
pub fn click(button: Button, options: OptionVec<ClickOption>) -> (line: String)
    ensures
        line@ == invocation(Command::Mouse(Mouse::Click(options)).rendered(), button.rendered()),
{
    let number = button.render();
    command_line(Command::Mouse(Mouse::Click(options)), number.as_str())
}

/// The command line that presses `button`.
pub fn click_down(button: Button, options: OptionVec<ClickOption>) -> (line: String)
    ensures
        line@ == invocation(
            Command::Mouse(Mouse::MouseDown(options)).rendered(),
            button.rendered(),
        ),
{
    let number = button.render();
    command_line(Command::Mouse(Mouse::MouseDown(options)), number.as_str())
}

/// The command line that releases `button`.
pub fn click_up(button: Button, options: OptionVec<ClickOption>) -> (line: String)
    ensures
        line@ == invocation(Command::Mouse(Mouse::MouseUp(options)).rendered(), button.rendered()),
{
    let number = button.render();
    command_line(Command::Mouse(Mouse::MouseUp(options)), number.as_str())
}

/// The command line that reports the position of the mouse, with its screen
/// and the window below it.
pub fn get_mouse_location() -> (line: String)
    ensures
        line@ == invocation(Command::Mouse(Mouse::GetMouseLocation).rendered(), Seq::empty()),
{
    command_line(Command::Mouse(Mouse::GetMouseLocation), none())
}

/// The command line that binds the command `cmd` to the mouse reaching
/// `screen_edge`. The command is written out in full, with its own options,
/// after the edge.
pub fn behave_screen_edge(
    screen_edge: ScreenEdge,
    cmd: Command,
    options: OptionVec<BehaveScreenEdgeOption>,
) -> (line: String)
    ensures
        line@ == invocation(
            Command::Mouse(Mouse::BehaveScreenEdge(options)).rendered(),
            spaced(seq![screen_edge.rendered(), cmd.rendered()]),
        ),
{
    let edge = screen_edge.render();
    let action = cmd.render();
    let args = pair(edge.as_str(), action.as_str());
    command_line(Command::Mouse(Mouse::BehaveScreenEdge(options)), args.as_str())
}

} // verus!
