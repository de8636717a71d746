//! The options of each command, and the flags they are written as.

use vstd::prelude::*;
use crate::decimal::{append_decimal, append_signed_decimal, decimal, signed_decimal};
use crate::optionvec::Render;

verus! {

/// A flag followed by its value, one space between them.
pub open spec fn with_value(flag: Seq<char>, value: Seq<char>) -> Seq<char> {
    flag + seq![' '] + value
}

/// A flag that stands alone.
fn bare(flag: &str) -> (text: String)
    ensures
        text@ == flag@,
{
    String::from_str(flag)
}

/// A flag whose value is written as given.
fn with_text(flag: &str, value: &str) -> (text: String)
    ensures
        text@ == with_value(flag@, value@),
{
    let mut text = String::from_str(flag);
    proof {
        reveal_strlit(" ");
    }
    text.append(" ");
    text.append(value);
    text
}

/// A flag whose value is a natural number.
fn with_number(flag: &str, value: u64) -> (text: String)
    ensures
        text@ == with_value(flag@, decimal(value as nat)),
{
    let mut text = String::from_str(flag);
    proof {
        reveal_strlit(" ");
    }
    text.append(" ");
    append_decimal(&mut text, value);
    text
}

/// A flag whose value is an integer of either sign.
fn with_signed_number(flag: &str, value: i32) -> (text: String)
    ensures
        text@ == with_value(flag@, signed_decimal(value as int)),
{
    let mut text = String::from_str(flag);
    proof {
        reveal_strlit(" ");
    }
    text.append(" ");
    append_signed_decimal(&mut text, value);
    text
}

/// Options of the commands that send keystrokes.
#[derive(Debug)]
pub enum KeyboardOption {
    /// Send the keystrokes to the window with this id.
    Window(String),
    /// Clear the modifiers before the keystrokes are sent.
    ClearModifiers,
    /// Milliseconds between two keystrokes.
    Delay(u32),
}

impl Render for KeyboardOption {
    open spec fn rendered(&self) -> Seq<char> {
        match self {
            KeyboardOption::Window(x) => with_value("--window"@, x@),
            KeyboardOption::ClearModifiers => "--clearmodifiers"@,
            KeyboardOption::Delay(x) => with_value("--delay"@, decimal(*x as nat)),
        }
    }

    fn render(&self) -> (text: String) {
        match self {
            KeyboardOption::Window(x) => with_text("--window", x.as_str()),
            KeyboardOption::ClearModifiers => bare("--clearmodifiers"),
            KeyboardOption::Delay(x) => with_number("--delay", *x as u64),
        }
    }
}

/// Options of the command that moves the mouse to a position.
#[derive(Debug)]
pub enum MouseMoveOption {
    /// Move relative to the top left corner of the window with this id.
    Window(String),
    /// Move the mouse to this screen.
    Screen(u8),
    /// Read the coordinates as an angle and a distance.
    Polar,
    /// Clear the modifiers before the mouse is moved.
    ClearModifiers,
    /// Wait until the mouse has moved.
    Sync,
}

impl Render for MouseMoveOption {
    open spec fn rendered(&self) -> Seq<char> {
        match self {
            MouseMoveOption::Window(x) => with_value("--window"@, x@),
            MouseMoveOption::Screen(x) => with_value("--screen"@, decimal(*x as nat)),
            MouseMoveOption::Polar => "--polar"@,
            MouseMoveOption::ClearModifiers => "--clearmodifiers"@,
            MouseMoveOption::Sync => "--sync"@,
        }
    }

    fn render(&self) -> (text: String) {
        match self {
            MouseMoveOption::Window(x) => with_text("--window", x.as_str()),
            MouseMoveOption::Screen(x) => with_number("--screen", *x as u64),
            MouseMoveOption::Polar => bare("--polar"),
            MouseMoveOption::ClearModifiers => bare("--clearmodifiers"),
            MouseMoveOption::Sync => bare("--sync"),
        }
    }
}

/// Options of the command that moves the mouse by a distance.
#[derive(Debug)]
pub enum MouseMoveRelativeOption {
    /// Read the coordinates as an angle and a distance.
    Polar,
    /// Wait until the mouse has moved.
    Sync,
    /// Clear the modifiers before the mouse is moved.
    ClearModifiers,
}

impl Render for MouseMoveRelativeOption {
    open spec fn rendered(&self) -> Seq<char> {
        match self {
            MouseMoveRelativeOption::Polar => "--polar"@,
            MouseMoveRelativeOption::ClearModifiers => "--clearmodifiers"@,
            MouseMoveRelativeOption::Sync => "--sync"@,
        }
    }

    fn render(&self) -> (text: String) {
        match self {
            MouseMoveRelativeOption::Polar => bare("--polar"),
            MouseMoveRelativeOption::ClearModifiers => bare("--clearmodifiers"),
            MouseMoveRelativeOption::Sync => bare("--sync"),
        }
    }
}

/// Options of the commands that press and release mouse buttons.
#[derive(Debug)]
pub enum ClickOption {
    /// Clear the modifiers before the click is sent.
    ClearModifiers,
    /// How many times to click.
    Repeat(u32),
    /// Milliseconds between two clicks.
    Delay(u32),
    /// Send the click to the window with this id.
    Window(String),
}

impl Render for ClickOption {
    open spec fn rendered(&self) -> Seq<char> {
        match self {
            ClickOption::ClearModifiers => "--clearmodifiers"@,
            ClickOption::Repeat(x) => with_value("--repeat"@, decimal(*x as nat)),
            ClickOption::Delay(x) => with_value("--delay"@, decimal(*x as nat)),
            ClickOption::Window(x) => with_value("--window"@, x@),
        }
    }

    fn render(&self) -> (text: String) {
        match self {
            ClickOption::ClearModifiers => bare("--clearmodifiers"),
            ClickOption::Repeat(x) => with_number("--repeat", *x as u64),
            ClickOption::Delay(x) => with_number("--delay", *x as u64),
            ClickOption::Window(x) => with_text("--window", x.as_str()),
        }
    }
}

/// Options of the command that binds an action to a screen edge.
#[derive(Debug)]
pub enum BehaveScreenEdgeOption {
    /// Milliseconds the mouse must stay at the edge before the action runs.
    Delay(u32),
    /// Milliseconds before the action may run again.
    Quiesce(u32),
}

impl Render for BehaveScreenEdgeOption {
    open spec fn rendered(&self) -> Seq<char> {
        match self {
            BehaveScreenEdgeOption::Delay(x) => with_value("--delay"@, decimal(*x as nat)),
            BehaveScreenEdgeOption::Quiesce(x) => with_value("--quiesce"@, decimal(*x as nat)),
        }
    }

    fn render(&self) -> (text: String) {
        match self {
            BehaveScreenEdgeOption::Delay(x) => with_number("--delay", *x as u64),
            BehaveScreenEdgeOption::Quiesce(x) => with_number("--quiesce", *x as u64),
        }
    }
}

/// Options of the command that searches for windows.
#[derive(Debug)]
pub enum SearchOption {
    /// Match against the window class.
    Class(String),
    /// Match against the window class name.
    ClassName(String),
    /// How deep to search below the root windows; -1 for no limit.
    MaxDepth(i32),
    /// Match against the window name.
    Name(String),
    /// Show visible windows only.
    OnlyVisible,
    /// Match the windows of this process.
    Pid(u32),
    /// Match the windows on this screen.
    Screen(u8),
    /// Match the windows on this desktop.
    Desktop(u32),
    /// Stop after this many matches.
    Limit(u32),
    /// Require that every condition is met.
    All,
    /// Require that some condition is met.
    Any,
    /// Wait until there is a match.
    Sync,
}

impl Render for SearchOption {
    open spec fn rendered(&self) -> Seq<char> {
        match self {
            SearchOption::Class(x) => with_value("--class"@, x@),
            SearchOption::ClassName(x) => with_value("--classname"@, x@),
            SearchOption::MaxDepth(x) => with_value("--maxdepth"@, signed_decimal(*x as int)),
            SearchOption::Name(x) => with_value("--name"@, x@),
            SearchOption::OnlyVisible => "--onlyvisible"@,
            SearchOption::Pid(x) => with_value("--pid"@, decimal(*x as nat)),
            SearchOption::Screen(x) => with_value("--screen"@, decimal(*x as nat)),
            SearchOption::Desktop(x) => with_value("--desktop"@, decimal(*x as nat)),
            SearchOption::Limit(x) => with_value("--limit"@, decimal(*x as nat)),
            SearchOption::All => "--all"@,
            SearchOption::Any => "--any"@,
            SearchOption::Sync => "--sync"@,
        }
    }

    fn render(&self) -> (text: String) {
        match self {
            SearchOption::Class(x) => with_text("--class", x.as_str()),
            SearchOption::ClassName(x) => with_text("--classname", x.as_str()),
            SearchOption::MaxDepth(x) => with_signed_number("--maxdepth", *x),
            SearchOption::Name(x) => with_text("--name", x.as_str()),
            SearchOption::OnlyVisible => bare("--onlyvisible"),
            SearchOption::Pid(x) => with_number("--pid", *x as u64),
            SearchOption::Screen(x) => with_number("--screen", *x as u64),
            SearchOption::Desktop(x) => with_number("--desktop", *x as u64),
            SearchOption::Limit(x) => with_number("--limit", *x as u64),
            SearchOption::All => bare("--all"),
            SearchOption::Any => bare("--any"),
            SearchOption::Sync => bare("--sync"),
        }
    }
}

/// Options of the command that reports where a window is and how large.
#[derive(Debug)]
pub enum GetWindowGeometryOption {
    /// Write the values so that a shell can evaluate them.
    Shell,
}

impl Render for GetWindowGeometryOption {
    open spec fn rendered(&self) -> Seq<char> {
        match self {
            GetWindowGeometryOption::Shell => "--shell"@,
        }
    }

    fn render(&self) -> (text: String) {
        match self {
            GetWindowGeometryOption::Shell => bare("--shell"),
        }
    }
}

/// Options of the command that resizes a window.
#[derive(Debug)]
pub enum WindowSizeOption {
    /// Count width and height in the units of the window's sizing hints.
    UseHints,
    /// Wait until the window has its new size.
    Sync,
}

impl Render for WindowSizeOption {
    open spec fn rendered(&self) -> Seq<char> {
        match self {
            WindowSizeOption::Sync => "--sync"@,
            WindowSizeOption::UseHints => "--usehints"@,
        }
    }

    fn render(&self) -> (text: String) {
        match self {
            WindowSizeOption::Sync => bare("--sync"),
            WindowSizeOption::UseHints => bare("--usehints"),
        }
    }
}

/// Options of the command that moves a window.
#[derive(Debug)]
pub enum WindowMoveOption {
    /// Wait until the window has moved.
    Sync,
    /// Move by a distance from where the window is.
    Relative,
}

impl Render for WindowMoveOption {
    open spec fn rendered(&self) -> Seq<char> {
        match self {
            WindowMoveOption::Sync => "--sync"@,
            WindowMoveOption::Relative => "--relative"@,
        }
    }

    fn render(&self) -> (text: String) {
        match self {
            WindowMoveOption::Sync => bare("--sync"),
            WindowMoveOption::Relative => bare("--relative"),
        }
    }
}

/// The one option of the commands that can wait for their effect.
#[derive(Debug)]
pub enum Sync {
    /// Wait until the command has taken effect.
    Sync,
}

impl Render for Sync {
    open spec fn rendered(&self) -> Seq<char> {
        match self {
            Sync::Sync => "--sync"@,
        }
    }

    fn render(&self) -> (text: String) {
        match self {
            Sync::Sync => bare("--sync"),
        }
    }
}

/// Options of the command that sets properties of a window.
#[derive(Debug)]
pub enum SetWindowOption {
    /// The window's name, usually its title.
    Name(String),
    /// The window's icon name, usually its title when minimized.
    IconName(String),
    /// The window's role.
    Role(String),
    /// The window's class name.
    ClassName(String),
    /// The window's class.
    Class(String),
    /// Whether the window is marked urgent: 1 or 0.
    Urgency(u8),
    /// Whether the window manager leaves the window alone: 1 or 0.
    OverrideRedirect(u8),
}

impl Render for SetWindowOption {
    open spec fn rendered(&self) -> Seq<char> {
        match self {
            SetWindowOption::Name(x) => with_value("--name"@, x@),
            SetWindowOption::IconName(x) => with_value("--icon-name"@, x@),
            SetWindowOption::Role(x) => with_value("--role"@, x@),
            SetWindowOption::ClassName(x) => with_value("--classname"@, x@),
            SetWindowOption::Class(x) => with_value("--class"@, x@),
            SetWindowOption::Urgency(x) => with_value("--urgency"@, decimal(*x as nat)),
            SetWindowOption::OverrideRedirect(x) => with_value(
                "--overrideredirect"@,
                decimal(*x as nat),
            ),
        }
    }

    fn render(&self) -> (text: String) {
        match self {
            SetWindowOption::Name(x) => with_text("--name", x.as_str()),
            SetWindowOption::IconName(x) => with_text("--icon-name", x.as_str()),
            SetWindowOption::Role(x) => with_text("--role", x.as_str()),
            SetWindowOption::ClassName(x) => with_text("--classname", x.as_str()),
            SetWindowOption::Class(x) => with_text("--class", x.as_str()),
            SetWindowOption::Urgency(x) => with_number("--urgency", *x as u64),
            SetWindowOption::OverrideRedirect(x) => with_number("--overrideredirect", *x as u64),
        }
    }
}

/// Options of the commands that choose a desktop.
#[derive(Debug)]
pub enum SetDesktopOption {
    /// Count the desktop from the current one.
    Relative,
}

impl Render for SetDesktopOption {
    open spec fn rendered(&self) -> Seq<char> {
        match self {
            SetDesktopOption::Relative => "--relative"@,
        }
    }

    fn render(&self) -> (text: String) {
        match self {
            SetDesktopOption::Relative => bare("--relative"),
        }
    }
}

} // verus!
