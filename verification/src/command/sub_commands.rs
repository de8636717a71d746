//! The commands of each family, and the name and options each is written with.

use vstd::prelude::*;
use crate::command::options::{
    BehaveScreenEdgeOption, ClickOption, GetWindowGeometryOption, KeyboardOption,
    MouseMoveOption, MouseMoveRelativeOption, SearchOption, SetDesktopOption, SetWindowOption,
    Sync, WindowMoveOption, WindowSizeOption,
};
use crate::optionvec::{spaced, OptionVec, Render};

verus! {

/// A command's name alone where it has no option, else the name, one space
/// and the options joined by single spaces.
pub open spec fn with_options(name: Seq<char>, options: Seq<Seq<char>>) -> Seq<char> {
    if options.len() == 0 {
        name
    } else {
        name + seq![' '] + spaced(options)
    }
}

/// The text of a command that takes no option.
fn plain(name: &str) -> (text: String)
    ensures
        text@ == with_options(name@, Seq::empty()),
{
    String::from_str(name)
}

/// The text of a command with its options.
fn optioned<T: Render>(name: &str, options: &OptionVec<T>) -> (text: String)
    ensures
        text@ == with_options(name@, options.pieces()),
{
    let mut text = String::from_str(name);
    if options.0.len() > 0 {
        proof {
            reveal_strlit(" ");
        }
        text.append(" ");
        let written = options.render();
        text.append(written.as_str());
    }
    text
}

/// The commands that send keystrokes.
#[derive(Debug)]
pub enum Keyboard {
    /// Press and release keys.
    Key(OptionVec<KeyboardOption>),
    /// Press keys.
    KeyDown(OptionVec<KeyboardOption>),
    /// Release keys.
    KeyUp(OptionVec<KeyboardOption>),
    /// Type a text.
    Type(OptionVec<KeyboardOption>),
}

impl Keyboard {
    /// The command's name.
    pub open spec fn name(&self) -> Seq<char> {
        match self {
            Keyboard::Key(_) => "key"@,
            Keyboard::KeyDown(_) => "keydown"@,
            Keyboard::KeyUp(_) => "keyup"@,
            Keyboard::Type(_) => "type"@,
        }
    }

    /// The text of each of the command's options, in order.
    pub open spec fn options(&self) -> Seq<Seq<char>> {
        match self {
            Keyboard::Key(o) => o.pieces(),
            Keyboard::KeyDown(o) => o.pieces(),
            Keyboard::KeyUp(o) => o.pieces(),
            Keyboard::Type(o) => o.pieces(),
        }
    }
}

impl Render for Keyboard {
    open spec fn rendered(&self) -> Seq<char> {
        with_options(self.name(), self.options())
    }

    fn render(&self) -> (text: String) {
        match self {
            Keyboard::Key(o) => optioned("key", o),
            Keyboard::KeyDown(o) => optioned("keydown", o),
            Keyboard::KeyUp(o) => optioned("keyup", o),
            Keyboard::Type(o) => optioned("type", o),
        }
    }
}

/// The commands that move the mouse and press its buttons.
#[derive(Debug)]
pub enum Mouse {
    /// Move the mouse to a position.
    MouseMove(OptionVec<MouseMoveOption>),
    /// Move the mouse by a distance.
    MouseMoveRelative(OptionVec<MouseMoveRelativeOption>),
    /// Press and release a button.
    Click(OptionVec<ClickOption>),
    /// Press a button.
    MouseDown(OptionVec<ClickOption>),
    /// Release a button.
    MouseUp(OptionVec<ClickOption>),
    /// Report where the mouse is.
    GetMouseLocation,
    /// Bind an action to an edge or corner of the screen.
    BehaveScreenEdge(OptionVec<BehaveScreenEdgeOption>),
}

impl Mouse {
    /// The command's name.
    pub open spec fn name(&self) -> Seq<char> {
        match self {
            Mouse::MouseMove(_) => "mousemove"@,
            Mouse::MouseMoveRelative(_) => "mousemove_relative"@,
            Mouse::Click(_) => "click"@,
            Mouse::MouseDown(_) => "mousedown"@,
            Mouse::MouseUp(_) => "mouseup"@,
            Mouse::GetMouseLocation => "getmouselocation"@,
            Mouse::BehaveScreenEdge(_) => "behave_screen_edge"@,
        }
    }

    /// The text of each of the command's options, in order.
    pub open spec fn options(&self) -> Seq<Seq<char>> {
        match self {
            Mouse::MouseMove(o) => o.pieces(),
            Mouse::MouseMoveRelative(o) => o.pieces(),
            Mouse::Click(o) => o.pieces(),
            Mouse::MouseDown(o) => o.pieces(),
            Mouse::MouseUp(o) => o.pieces(),
            Mouse::GetMouseLocation => Seq::empty(),
            Mouse::BehaveScreenEdge(o) => o.pieces(),
        }
    }
}

impl Render for Mouse {
    open spec fn rendered(&self) -> Seq<char> {
        with_options(self.name(), self.options())
    }

    fn render(&self) -> (text: String) {
        match self {
            Mouse::MouseMove(o) => optioned("mousemove", o),
            Mouse::MouseMoveRelative(o) => optioned("mousemove_relative", o),
            Mouse::Click(o) => optioned("click", o),
            Mouse::MouseDown(o) => optioned("mousedown", o),
            Mouse::MouseUp(o) => optioned("mouseup", o),
            Mouse::GetMouseLocation => plain("getmouselocation"),
            Mouse::BehaveScreenEdge(o) => optioned("behave_screen_edge", o),
        }
    }
}

/// The commands that find, inspect and change windows.
#[derive(Debug)]
pub enum Window {
    /// Search for windows.
    Search(OptionVec<SearchOption>),
    /// Let the user pick a window by a click.
    SelectWindow,
    /// Bind an action to an event on a window.
    Behave,
    /// Report the process that owns a window.
    GetWindowPid,
    /// Report a window's name.
    GetWindowName,
    /// Report where a window is and how large.
    GetWindowGeometry(OptionVec<GetWindowGeometryOption>),
    /// Report the window that has the focus.
    GetWindowFocus,
    /// Resize a window.
    WindowSize(OptionVec<WindowSizeOption>),
    /// Move a window.
    WindowMove(OptionVec<WindowMoveOption>),
    /// Give a window the focus.
    WindowFocus(OptionVec<Sync>),
    /// Make a window visible.
    WindowMap(OptionVec<Sync>),
    /// Minimize a window.
    WindowMinimize(OptionVec<Sync>),
    /// Raise a window to the top of the stack.
    WindowRaise,
    /// Make a window the child of another.
    WindowReparent,
    /// Close a window.
    WindowClose,
    /// Close a window and kill the client that controls it.
    WindowKill,
    /// Take a window off the screen.
    WindowUnmap(OptionVec<Sync>),
    /// Set properties of a window.
    SetWindow(OptionVec<SetWindowOption>),
}

impl Window {
    /// The command's name.
    pub open spec fn name(&self) -> Seq<char> {
        match self {
            Window::Search(_) => "search"@,
            Window::SelectWindow => "selectwindow"@,
            Window::Behave => "behave"@,
            Window::GetWindowPid => "getwindowpid"@,
            Window::GetWindowName => "getwindowname"@,
            Window::GetWindowGeometry(_) => "getwindowgeometry"@,
            Window::GetWindowFocus => "getwindowfocus"@,
            Window::WindowSize(_) => "windowsize"@,
            Window::WindowMove(_) => "windowmove"@,
            Window::WindowFocus(_) => "windowfocus"@,
            Window::WindowMap(_) => "windowmap"@,
            Window::WindowMinimize(_) => "windowminimize"@,
            Window::WindowRaise => "windowraise"@,
            Window::WindowReparent => "windowreparent"@,
            Window::WindowClose => "windowclose"@,
            Window::WindowKill => "windowkill"@,
            Window::WindowUnmap(_) => "windowunmap"@,
            Window::SetWindow(_) => "set_window"@,
        }
    }

    /// The text of each of the command's options, in order.
    pub open spec fn options(&self) -> Seq<Seq<char>> {
        match self {
            Window::Search(o) => o.pieces(),
            Window::GetWindowGeometry(o) => o.pieces(),
            Window::WindowSize(o) => o.pieces(),
            Window::WindowMove(o) => o.pieces(),
            Window::WindowFocus(o) => o.pieces(),
            Window::WindowMap(o) => o.pieces(),
            Window::WindowMinimize(o) => o.pieces(),
            Window::WindowUnmap(o) => o.pieces(),
            Window::SetWindow(o) => o.pieces(),
            _ => Seq::empty(),
        }
    }
}

impl Render for Window {
    open spec fn rendered(&self) -> Seq<char> {
        with_options(self.name(), self.options())
    }

    fn render(&self) -> (text: String) {
        match self {
            Window::Search(o) => optioned("search", o),
            Window::SelectWindow => plain("selectwindow"),
            Window::Behave => plain("behave"),
            Window::GetWindowPid => plain("getwindowpid"),
            Window::GetWindowName => plain("getwindowname"),
            Window::GetWindowGeometry(o) => optioned("getwindowgeometry", o),
            Window::GetWindowFocus => plain("getwindowfocus"),
            Window::WindowSize(o) => optioned("windowsize", o),
            Window::WindowMove(o) => optioned("windowmove", o),
            Window::WindowFocus(o) => optioned("windowfocus", o),
            Window::WindowMap(o) => optioned("windowmap", o),
            Window::WindowMinimize(o) => optioned("windowminimize", o),
            Window::WindowRaise => plain("windowraise"),
            Window::WindowReparent => plain("windowreparent"),
            Window::WindowClose => plain("windowclose"),
            Window::WindowKill => plain("windowkill"),
            Window::WindowUnmap(o) => optioned("windowunmap", o),
            Window::SetWindow(o) => optioned("set_window", o),
        }
    }
}

/// The commands that deal with desktops.
#[derive(Debug)]
pub enum Desktop {
    /// Activate a window, switching to its desktop.
    WindowActivate(OptionVec<Sync>),
    /// Report the active window.
    GetActiveWindow,
    /// Set the number of desktops.
    SetNumDesktops,
    /// Report the number of desktops.
    GetNumDesktops,
    /// Report the position of the viewport.
    GetDesktopViewport,
    /// Move the viewport.
    SetDesktopViewport,
    /// Switch to a desktop.
    SetDesktop(OptionVec<SetDesktopOption>),
    /// Report the desktop in view.
    GetDesktop,
    /// Move a window to a desktop.
    SetDesktopForWindow(OptionVec<SetDesktopOption>),
    /// Report the desktop that holds a window.
    GetDesktopForWindow,
}

impl Desktop {
    /// The command's name.
    pub open spec fn name(&self) -> Seq<char> {
        match self {
            Desktop::WindowActivate(_) => "windowactivate"@,
            Desktop::GetActiveWindow => "getactivewindow"@,
            Desktop::SetNumDesktops => "set_num_desktops"@,
            Desktop::GetNumDesktops => "get_num_desktops"@,
            Desktop::GetDesktopViewport => "get_desktop_viewport"@,
            Desktop::SetDesktopViewport => "set_desktop_viewport"@,
            Desktop::SetDesktop(_) => "set_desktop"@,
            Desktop::GetDesktop => "get_desktop"@,
            Desktop::SetDesktopForWindow(_) => "set_desktop_for_window"@,
            Desktop::GetDesktopForWindow => "get_desktop_for_window"@,
        }
    }

    /// The text of each of the command's options, in order.
    pub open spec fn options(&self) -> Seq<Seq<char>> {
        match self {
            Desktop::WindowActivate(o) => o.pieces(),
            Desktop::SetDesktop(o) => o.pieces(),
            Desktop::SetDesktopForWindow(o) => o.pieces(),
            _ => Seq::empty(),
        }
    }
}

impl Render for Desktop {
    open spec fn rendered(&self) -> Seq<char> {
        with_options(self.name(), self.options())
    }

    fn render(&self) -> (text: String) {
        match self {
            Desktop::WindowActivate(o) => optioned("windowactivate", o),
            Desktop::GetActiveWindow => plain("getactivewindow"),
            Desktop::SetNumDesktops => plain("set_num_desktops"),
            Desktop::GetNumDesktops => plain("get_num_desktops"),
            Desktop::GetDesktopViewport => plain("get_desktop_viewport"),
            Desktop::SetDesktopViewport => plain("set_desktop_viewport"),
            Desktop::SetDesktop(o) => optioned("set_desktop", o),
            Desktop::GetDesktop => plain("get_desktop"),
            Desktop::SetDesktopForWindow(o) => optioned("set_desktop_for_window", o),
            Desktop::GetDesktopForWindow => plain("get_desktop_for_window"),
        }
    }
}

/// The commands that belong to no other family.
#[derive(Debug)]
pub enum Misc {
    /// Run a program.
    Exec(OptionVec<Sync>),
    /// Wait for a while.
    Sleep,
}

impl Misc {
    /// The command's name.
    pub open spec fn name(&self) -> Seq<char> {
        match self {
            Misc::Exec(_) => "exec"@,
            Misc::Sleep => "sleep"@,
        }
    }

    /// The text of each of the command's options, in order.
    pub open spec fn options(&self) -> Seq<Seq<char>> {
        match self {
            Misc::Exec(o) => o.pieces(),
            Misc::Sleep => Seq::empty(),
        }
    }
}

impl Render for Misc {
    open spec fn rendered(&self) -> Seq<char> {
        with_options(self.name(), self.options())
    }

    fn render(&self) -> (text: String) {
        match self {
            Misc::Exec(o) => optioned("exec", o),
            Misc::Sleep => plain("sleep"),
        }
    }
}

} // verus!
