use xdotool::command::options::{
    BehaveScreenEdgeOption, KeyboardOption, SearchOption, SetDesktopOption,
};
use xdotool::command::sub_commands::{Desktop, Keyboard, Mouse, Window};
use xdotool::command::Command;
use xdotool::mouse::ScreenEdge;
use xdotool::{command_line, desktop, keyboard, mouse, window, OptionVec, Render};

#[test]
fn it_works() {
    assert_eq!(2 + 2, 4);
}

#[test]
fn new_collection_is_empty() {
    assert_eq!(OptionVec::<KeyboardOption>::new().0.len(), 0);
    assert!(OptionVec::<SearchOption>::default().0.is_empty());
}

#[test]
fn key_with_options_and_keys() {
    let options = OptionVec(vec![
        KeyboardOption::ClearModifiers,
        KeyboardOption::Delay(200),
    ]);
    let command = Command::Keyboard(Keyboard::Key(options));
    assert_eq!(command.render(), "key --clearmodifiers --delay 200");
    assert_eq!(
        command_line(command, "ctrl+l BackSpace"),
        "xdotool key --clearmodifiers --delay 200 ctrl+l BackSpace"
    );
}

#[test]
fn send_key_with_options_and_keys() {
    let options = OptionVec(vec![
        KeyboardOption::ClearModifiers,
        KeyboardOption::Delay(200),
    ]);
    assert_eq!(
        keyboard::send_key("ctrl+l BackSpace", options),
        "xdotool key --clearmodifiers --delay 200 ctrl+l BackSpace"
    );
}

#[test]
fn mouse_move_without_options() {
    let command = Command::Mouse(Mouse::MouseMove(OptionVec::new()));
    assert_eq!(command_line(command, "200 200"), "xdotool mousemove 200 200");
    assert_eq!(
        mouse::move_mouse(200, 200, OptionVec::new()),
        "xdotool mousemove 200 200"
    );
}

#[test]
fn search_on_a_desktop() {
    let command = Command::Window(Window::Search(OptionVec(vec![SearchOption::Desktop(2)])));
    assert_eq!(
        command_line(command, "Firefox"),
        "xdotool search --desktop 2 Firefox"
    );
    assert_eq!(
        window::search("Firefox", OptionVec(vec![SearchOption::Desktop(2)])),
        "xdotool search --desktop 2 Firefox"
    );
}

#[test]
fn set_desktop_for_window_relative() {
    let command = Command::Desktop(Desktop::SetDesktopForWindow(OptionVec(vec![
        SetDesktopOption::Relative,
    ])));
    assert_eq!(
        command_line(command, "12345 3"),
        "xdotool set_desktop_for_window --relative 12345 3"
    );
    assert_eq!(
        desktop::set_desktop_for_window("12345", 3, OptionVec(vec![SetDesktopOption::Relative])),
        "xdotool set_desktop_for_window --relative 12345 3"
    );
}

#[test]
fn command_line_keeps_the_template_without_arguments() {
    let command = Command::Desktop(Desktop::GetActiveWindow);
    assert_eq!(command_line(command, ""), "xdotool getactivewindow ");
}

#[test]
fn command_line_does_not_quote_arguments() {
    let command = Command::Keyboard(Keyboard::Type(OptionVec::new()));
    assert_eq!(
        command_line(command, "a 'b' $c; d"),
        "xdotool type a 'b' $c; d"
    );
}

#[test]
fn screen_edge_action_is_written_in_full() {
    let action = Command::Keyboard(Keyboard::Key(OptionVec(vec![KeyboardOption::Delay(5)])));
    let line = mouse::behave_screen_edge(
        ScreenEdge::TopRight,
        action,
        OptionVec(vec![
            BehaveScreenEdgeOption::Delay(500),
            BehaveScreenEdgeOption::Quiesce(2000),
        ]),
    );
    assert_eq!(
        line,
        "xdotool behave_screen_edge --delay 500 --quiesce 2000 top-right key --delay 5"
    );
}

#[test]
fn screen_edge_action_without_options() {
    let action = Command::Keyboard(Keyboard::Key(OptionVec::new()));
    let line = mouse::behave_screen_edge(ScreenEdge::Left, action, OptionVec::new());
    assert_eq!(line, "xdotool behave_screen_edge left key");
}
