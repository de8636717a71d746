use xdotool::args::{none, pair, triple};
use xdotool::command::options::{
    ClickOption, GetWindowGeometryOption, KeyboardOption, MouseMoveOption,
    MouseMoveRelativeOption, SearchOption, SetDesktopOption, SetWindowOption, Sync,
    WindowMoveOption, WindowSizeOption,
};
use xdotool::decimal::{append_decimal, append_signed_decimal, decimal_text, signed_decimal_text};
use xdotool::mouse::Button;
use xdotool::{desktop, keyboard, misc, mouse, window, OptionVec};

#[test]
fn decimal_notation() {
    assert_eq!(decimal_text(0), "0");
    assert_eq!(decimal_text(7), "7");
    assert_eq!(decimal_text(9), "9");
    assert_eq!(decimal_text(10), "10");
    assert_eq!(decimal_text(99), "99");
    assert_eq!(decimal_text(100), "100");
    assert_eq!(decimal_text(1234567890), "1234567890");
    assert_eq!(decimal_text(u64::MAX), "18446744073709551615");
}

#[test]
fn signed_decimal_notation() {
    assert_eq!(signed_decimal_text(0), "0");
    assert_eq!(signed_decimal_text(5), "5");
    assert_eq!(signed_decimal_text(-5), "-5");
    assert_eq!(signed_decimal_text(-300), "-300");
    assert_eq!(signed_decimal_text(i32::MAX), "2147483647");
    assert_eq!(signed_decimal_text(i32::MIN), "-2147483648");
}

#[test]
fn decimal_notation_is_appended() {
    let mut text = String::from("n=");
    append_decimal(&mut text, 405);
    assert_eq!(text, "n=405");
    append_signed_decimal(&mut text, -17);
    assert_eq!(text, "n=405-17");
    append_signed_decimal(&mut text, 8);
    assert_eq!(text, "n=405-178");
}

#[test]
fn arguments_are_joined_by_single_spaces() {
    assert_eq!(none(), "");
    assert_eq!(pair("a", "b"), "a b");
    assert_eq!(pair("", ""), " ");
    assert_eq!(triple("w", "50%", "100%"), "w 50% 100%");
}

#[test]
fn keyboard_lines() {
    assert_eq!(keyboard::send_key("Return", OptionVec::new()), "xdotool key Return");
    assert_eq!(
        keyboard::send_key_down("shift", OptionVec(vec![KeyboardOption::Window("9".to_string())])),
        "xdotool keydown --window 9 shift"
    );
    assert_eq!(
        keyboard::send_key_up("shift", OptionVec(vec![KeyboardOption::ClearModifiers])),
        "xdotool keyup --clearmodifiers shift"
    );
    assert_eq!(
        keyboard::type_text("hello world", OptionVec(vec![KeyboardOption::Delay(50)])),
        "xdotool type --delay 50 hello world"
    );
}

#[test]
fn mouse_lines() {
    assert_eq!(
        mouse::move_mouse(
            0,
            65535,
            OptionVec(vec![MouseMoveOption::Window("w".to_string()), MouseMoveOption::Sync])
        ),
        "xdotool mousemove --window w --sync 0 65535"
    );
    assert_eq!(
        mouse::move_mouse_relative(100, -300, OptionVec(vec![MouseMoveRelativeOption::Sync])),
        "xdotool mousemove_relative --sync 100 -300"
    );
    assert_eq!(
        mouse::move_mouse_relative(i16::MIN, i16::MAX, OptionVec::new()),
        "xdotool mousemove_relative -32768 32767"
    );
    assert_eq!(
        mouse::click(Button::Left, OptionVec(vec![ClickOption::Repeat(2)])),
        "xdotool click --repeat 2 1"
    );
    assert_eq!(mouse::click(Button::Middle, OptionVec::new()), "xdotool click 2");
    assert_eq!(mouse::click_down(Button::Right, OptionVec::new()), "xdotool mousedown 3");
    assert_eq!(
        mouse::click_up(Button::ScrollDown, OptionVec(vec![ClickOption::Delay(4)])),
        "xdotool mouseup --delay 4 5"
    );
    assert_eq!(mouse::get_mouse_location(), "xdotool getmouselocation ");
}

#[test]
fn window_lines() {
    assert_eq!(
        window::search("Firefox", OptionVec(vec![SearchOption::Name("x".to_string())])),
        "xdotool search --name x Firefox"
    );
    assert_eq!(window::get_window_pid("11"), "xdotool getwindowpid 11");
    assert_eq!(window::get_window_name("11"), "xdotool getwindowname 11");
    assert_eq!(
        window::get_window_geometry("11", OptionVec(vec![GetWindowGeometryOption::Shell])),
        "xdotool getwindowgeometry --shell 11"
    );
    assert_eq!(window::get_window_focus(""), "xdotool getwindowfocus ");
    assert_eq!(
        window::set_window_size(
            "terminal-id",
            "80",
            "24",
            OptionVec(vec![WindowSizeOption::UseHints])
        ),
        "xdotool windowsize --usehints terminal-id 80 24"
    );
    assert_eq!(
        window::set_window_size("window-id", "50%", "100%", OptionVec::new()),
        "xdotool windowsize window-id 50% 100%"
    );
    assert_eq!(
        window::move_window("window-id", "50%", "0", OptionVec::new()),
        "xdotool windowmove window-id 50% 0"
    );
    assert_eq!(
        window::move_window("w", "x", "20", OptionVec(vec![WindowMoveOption::Relative])),
        "xdotool windowmove --relative w x 20"
    );
    assert_eq!(
        window::focus_window("w", OptionVec(vec![Sync::Sync])),
        "xdotool windowfocus --sync w"
    );
    assert_eq!(window::window_map("w", OptionVec::new()), "xdotool windowmap w");
    assert_eq!(window::minimize_window("w", OptionVec::new()), "xdotool windowminimize w");
    assert_eq!(window::raise_window("w"), "xdotool windowraise w");
    assert_eq!(window::reparent_window("child", "parent"), "xdotool windowreparent child parent");
    assert_eq!(window::close_window("w"), "xdotool windowclose w");
    assert_eq!(window::kill_window("w"), "xdotool windowkill w");
    assert_eq!(
        window::unmap_window("w", OptionVec(vec![Sync::Sync])),
        "xdotool windowunmap --sync w"
    );
    assert_eq!(
        window::set_window("w", OptionVec(vec![SetWindowOption::OverrideRedirect(1)])),
        "xdotool set_window --overrideredirect 1 w"
    );
}

#[test]
fn desktop_lines() {
    assert_eq!(
        desktop::activate_window("window-id", OptionVec::new()),
        "xdotool windowactivate window-id"
    );
    assert_eq!(desktop::get_active_window(), "xdotool getactivewindow ");
    assert_eq!(desktop::set_num_desktops(4), "xdotool set_num_desktops 4");
    assert_eq!(desktop::get_num_desktops(), "xdotool get_num_desktops ");
    assert_eq!(desktop::set_desktop_viewport(1920, 0), "xdotool set_desktop_viewport 1920 0");
    assert_eq!(desktop::get_desktop_viewport(), "xdotool get_desktop_viewport ");
    assert_eq!(desktop::set_desktop(255, OptionVec::new()), "xdotool set_desktop 255");
    assert_eq!(
        desktop::set_desktop(1, OptionVec(vec![SetDesktopOption::Relative])),
        "xdotool set_desktop --relative 1"
    );
    assert_eq!(desktop::get_desktop(), "xdotool get_desktop ");
    assert_eq!(
        desktop::set_desktop_for_window("12345", 0, OptionVec::new()),
        "xdotool set_desktop_for_window 12345 0"
    );
    assert_eq!(desktop::get_desktop_for_window("12345"), "xdotool get_desktop_for_window 12345");
}

#[test]
fn misc_lines() {
    assert_eq!(misc::exec("firefox", OptionVec::new()), "xdotool exec firefox");
    assert_eq!(
        misc::exec("firefox", OptionVec(vec![Sync::Sync])),
        "xdotool exec --sync firefox"
    );
    assert_eq!(misc::sleep("1.3"), "xdotool sleep 1.3");
    assert_eq!(misc::sleep("2"), "xdotool sleep 2");
}
