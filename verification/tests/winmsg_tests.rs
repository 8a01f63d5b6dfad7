use transglass::winmsg::{DRAG_BTN_LEFT, DRAG_BTN_MIDDLE, DRAG_BTN_RIGHT, INJECT_EXTRA_INFO, MOUSEEVENTF_ABSOLUTE, MOUSEEVENTF_LEFTDOWN, MOUSEEVENTF_MOVE, MOUSEEVENTF_WHEEL, WM_LBUTTONDOWN, WM_LBUTTONUP, WM_MBUTTONDOWN, WM_MBUTTONUP, WM_MOUSEMOVE, WM_MOUSEWHEEL, WM_RBUTTONDOWN, WM_RBUTTONUP, WM_XBUTTONDOWN, WS_EX_LAYERED, WS_EX_TOPMOST, WS_EX_TRANSPARENT, absolute_coordinate, button_drag_mask, button_input, click_through_style, is_button_down_msg, is_button_up_msg, is_pen_input, is_topmost_style, move_input, next_ex_style, screen_extent, wheel_delta_of, wheel_input, xbutton_of};

#[test]
fn button_classification() {
    assert_eq!(button_drag_mask(WM_LBUTTONDOWN), Some(DRAG_BTN_LEFT));
    assert_eq!(button_drag_mask(WM_LBUTTONUP), Some(DRAG_BTN_LEFT));
    assert_eq!(button_drag_mask(WM_RBUTTONUP), Some(DRAG_BTN_RIGHT));
    assert_eq!(button_drag_mask(WM_MBUTTONDOWN), Some(DRAG_BTN_MIDDLE));
    assert_eq!(button_drag_mask(WM_MOUSEMOVE), None);
    assert_eq!(button_drag_mask(WM_XBUTTONDOWN), None);
    assert!(is_button_down_msg(WM_RBUTTONDOWN));
    assert!(!is_button_down_msg(WM_RBUTTONUP));
    assert!(is_button_up_msg(WM_MBUTTONUP));
    assert!(!is_button_up_msg(WM_MOUSEWHEEL));
}

#[test]
fn managed_style_bits() {
    let base = 0x0000_0100u32;
    assert_eq!(next_ex_style(base, false, false), base | WS_EX_LAYERED);
    assert_eq!(next_ex_style(base, true, false), base | WS_EX_LAYERED | WS_EX_TRANSPARENT);
    assert_eq!(next_ex_style(base, false, true), base | WS_EX_LAYERED | WS_EX_TRANSPARENT);
    assert_eq!(next_ex_style(base | WS_EX_TRANSPARENT, false, false), base | WS_EX_LAYERED);
    assert_eq!(click_through_style(WS_EX_TOPMOST), WS_EX_TOPMOST | WS_EX_TRANSPARENT);
    assert!(is_topmost_style(0x0000_0008 | 0x100));
    assert!(!is_topmost_style(0x100));
}

#[test]
fn absolute_coordinates() {
    assert_eq!(screen_extent(1920), 1919);
    assert_eq!(screen_extent(1), 1);
    assert_eq!(screen_extent(0), 1);
    assert_eq!(absolute_coordinate(100, 1919), 3415);
    assert_eq!(absolute_coordinate(-10, 1919), -341);
    assert_eq!(absolute_coordinate(1919, 1919), 65535);
    let inp = button_input(100, 50, WM_LBUTTONDOWN, 1919, 1079);
    assert_eq!(inp.dx, 3415);
    assert_eq!(inp.dy, 50 * 65535 / 1079);
    assert_eq!(inp.flags, MOUSEEVENTF_ABSOLUTE | MOUSEEVENTF_MOVE | MOUSEEVENTF_LEFTDOWN);
    assert_eq!(inp.extra_info, INJECT_EXTRA_INFO);
    assert_eq!(button_input(0, 0, WM_MBUTTONUP, 1, 1).flags, 0x8000 | 0x1 | 0x40);
    assert_eq!(button_input(0, 0, WM_MOUSEMOVE, 1, 1).flags, 0x8001);
    let mv = move_input(5, 5, 10, 10);
    assert_eq!((mv.dx, mv.dy, mv.flags), (32767, 32767, 0x8001));
}

#[test]
fn wheel_and_buttons_from_mouse_data() {
    assert_eq!(wheel_delta_of(0x0078_0000), 120);
    assert_eq!(wheel_delta_of(0xFF88_0000), -120);
    assert_eq!(wheel_input(-120).mouse_data, (-120i32) as u32);
    assert_eq!(wheel_input(-120).flags, MOUSEEVENTF_WHEEL);
    assert_eq!(xbutton_of(0x0001_0000), 1);
    assert_eq!(xbutton_of(0x0002_1234), 2);
    assert!(is_pen_input(0xFF51_5780));
    assert!(!is_pen_input(0xFF51_5600));
    assert!(!is_pen_input(INJECT_EXTRA_INFO));
}

#[test]
fn own_process_check() {
    assert!(transglass::winmsg::is_own_process(42, 42));
    assert!(!transglass::winmsg::is_own_process(41, 42));
    assert!(!transglass::winmsg::is_own_process(0, 0));
}
