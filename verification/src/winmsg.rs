//! Win32 message numbers, style bits and input flags the library reasons
//! about, together with the pure computations made on them: which mouse
//! button a message belongs to, the extended style a managed window gets,
//! and the synthetic mouse input records handed to `SendInput`.
use vstd::prelude::*;

verus! {

/// `WM_MOUSEMOVE`
pub const WM_MOUSEMOVE: u32 = 0x0200;
/// `WM_LBUTTONDOWN`
pub const WM_LBUTTONDOWN: u32 = 0x0201;
/// `WM_LBUTTONUP`
pub const WM_LBUTTONUP: u32 = 0x0202;
/// `WM_RBUTTONDOWN`
pub const WM_RBUTTONDOWN: u32 = 0x0204;
/// `WM_RBUTTONUP`
pub const WM_RBUTTONUP: u32 = 0x0205;
/// `WM_MBUTTONDOWN`
pub const WM_MBUTTONDOWN: u32 = 0x0207;
/// `WM_MBUTTONUP`
pub const WM_MBUTTONUP: u32 = 0x0208;
/// `WM_MOUSEWHEEL`
pub const WM_MOUSEWHEEL: u32 = 0x020A;
/// `WM_XBUTTONDOWN`
pub const WM_XBUTTONDOWN: u32 = 0x020B;

/// `HC_ACTION`: the hook code of an event the hook may act on.
pub const HC_ACTION: i32 = 0;

/// `MOUSEEVENTF_MOVE`
pub const MOUSEEVENTF_MOVE: u32 = 0x0001;
/// `MOUSEEVENTF_LEFTDOWN`
pub const MOUSEEVENTF_LEFTDOWN: u32 = 0x0002;
/// `MOUSEEVENTF_LEFTUP`
pub const MOUSEEVENTF_LEFTUP: u32 = 0x0004;
/// `MOUSEEVENTF_RIGHTDOWN`
pub const MOUSEEVENTF_RIGHTDOWN: u32 = 0x0008;
/// `MOUSEEVENTF_RIGHTUP`
pub const MOUSEEVENTF_RIGHTUP: u32 = 0x0010;
/// `MOUSEEVENTF_MIDDLEDOWN`
pub const MOUSEEVENTF_MIDDLEDOWN: u32 = 0x0020;
/// `MOUSEEVENTF_MIDDLEUP`
pub const MOUSEEVENTF_MIDDLEUP: u32 = 0x0040;
/// `MOUSEEVENTF_WHEEL`
pub const MOUSEEVENTF_WHEEL: u32 = 0x0800;
/// `MOUSEEVENTF_ABSOLUTE`
pub const MOUSEEVENTF_ABSOLUTE: u32 = 0x8000;

/// `WS_EX_TOPMOST`
pub const WS_EX_TOPMOST: u32 = 0x0000_0008;
/// `WS_EX_TRANSPARENT`
pub const WS_EX_TRANSPARENT: u32 = 0x0000_0020;
/// `WS_EX_LAYERED`
pub const WS_EX_LAYERED: u32 = 0x0008_0000;

/// Marker stored in `dwExtraInfo` of every input this program injects, so
/// that the hook recognises and ignores its own events.
pub const INJECT_EXTRA_INFO: usize = 0x5452_474C;

/// Drag button bit of the left button.
pub const DRAG_BTN_LEFT: u8 = 1;
/// Drag button bit of the right button.
pub const DRAG_BTN_RIGHT: u8 = 2;
/// Drag button bit of the middle button.
pub const DRAG_BTN_MIDDLE: u8 = 4;

/// Scale of absolute mouse coordinates: the screen spans `0..=65535`.
pub const ABSOLUTE_SCALE: i32 = 65535;

/// The drag bit of the button that a press or release message concerns.
pub open spec fn drag_mask_of(msg: u32) -> Option<u8> {
    if msg == WM_LBUTTONDOWN || msg == WM_LBUTTONUP {
        Some(DRAG_BTN_LEFT)
    } else if msg == WM_RBUTTONDOWN || msg == WM_RBUTTONUP {
        Some(DRAG_BTN_RIGHT)
    } else if msg == WM_MBUTTONDOWN || msg == WM_MBUTTONUP {
        Some(DRAG_BTN_MIDDLE)
    } else {
        None
    }
}

/// A press of the left, right or middle button.
pub open spec fn is_press(msg: u32) -> bool {
    msg == WM_LBUTTONDOWN || msg == WM_RBUTTONDOWN || msg == WM_MBUTTONDOWN
}

/// A release of the left, right or middle button.
pub open spec fn is_release(msg: u32) -> bool {
    msg == WM_LBUTTONUP || msg == WM_RBUTTONUP || msg == WM_MBUTTONUP
}

/// The `MOUSEEVENTF_*DOWN/UP` flag that replays a button message.
pub open spec fn button_event_flag(msg: u32) -> u32 {
    if msg == WM_LBUTTONDOWN {
        MOUSEEVENTF_LEFTDOWN
    } else if msg == WM_LBUTTONUP {
        MOUSEEVENTF_LEFTUP
    } else if msg == WM_RBUTTONDOWN {
        MOUSEEVENTF_RIGHTDOWN
    } else if msg == WM_RBUTTONUP {
        MOUSEEVENTF_RIGHTUP
    } else if msg == WM_MBUTTONDOWN {
        MOUSEEVENTF_MIDDLEDOWN
    } else if msg == WM_MBUTTONUP {
        MOUSEEVENTF_MIDDLEUP
    } else {
        0
    }
}

/// Returns the drag bit of the button a press or release message concerns,
/// and `None` for any other message.
pub fn button_drag_mask(msg: u32) -> (r: Option<u8>)
    ensures
        r == drag_mask_of(msg),
        r is Some <==> (is_press(msg) || is_release(msg)),
{
    if msg == WM_LBUTTONDOWN || msg == WM_LBUTTONUP {
        Some(DRAG_BTN_LEFT)
    } else if msg == WM_RBUTTONDOWN || msg == WM_RBUTTONUP {
        Some(DRAG_BTN_RIGHT)
    } else if msg == WM_MBUTTONDOWN || msg == WM_MBUTTONUP {
        Some(DRAG_BTN_MIDDLE)
    } else {
        None
    }
}

/// Whether `msg` presses the left, right or middle button.
pub fn is_button_down_msg(msg: u32) -> (r: bool)
    ensures
        r == is_press(msg),
{
    msg == WM_LBUTTONDOWN || msg == WM_RBUTTONDOWN || msg == WM_MBUTTONDOWN
}

/// Whether `msg` releases the left, right or middle button.
pub fn is_button_up_msg(msg: u32) -> (r: bool)
    ensures
        r == is_release(msg),
{
    msg == WM_LBUTTONUP || msg == WM_RBUTTONUP || msg == WM_MBUTTONUP
}

/// Rounds an integer quotient toward zero, as Rust's `/` on signed integers does.
pub open spec fn div_toward_zero(n: int, d: int) -> int
    recommends
        d > 0,
{
    if n >= 0 {
        n / d
    } else {
        -((-n) / d)
    }
}

/// The usable extent of a screen axis whose `GetSystemMetrics` size is
/// `metric`: the largest pixel index, and never less than 1.
pub open spec fn extent_of(metric: int) -> int {
    if metric - 1 >= 1 {
        metric - 1
    } else {
        1
    }
}

/// A pixel coordinate on an axis of the given extent, in absolute units.
pub open spec fn absolute_of(v: int, extent: int) -> int {
    div_toward_zero(v * ABSOLUTE_SCALE, extent)
}

/// A pixel coordinate whose absolute-unit product fits an `i32`.
pub open spec fn scalable(v: int) -> bool {
    i32::MIN <= v * ABSOLUTE_SCALE <= i32::MAX
}

/// Turns a `GetSystemMetrics(SM_CXSCREEN/SM_CYSCREEN)` value into the divisor
/// of absolute coordinates: one less than the size, at least 1.
pub fn screen_extent(metric: i32) -> (r: i32)
    requires
        metric > i32::MIN,
    ensures
        r == extent_of(metric as int),
        r >= 1,
{
    let m = metric - 1;
    if m >= 1 {
        m
    } else {
        1
    }
}

/// Maps a pixel coordinate to absolute mouse units on an axis of the given extent.
pub fn absolute_coordinate(v: i32, extent: i32) -> (r: i32)
    requires
        extent >= 1,
        scalable(v as int),
    ensures
        r == absolute_of(v as int, extent as int),
{
    (v * ABSOLUTE_SCALE) / extent
}

/// One `MOUSEINPUT` record to inject: its fields as `SendInput` takes them.
#[derive(Clone, Copy, Debug, PartialEq, Eq, Structural)]
pub struct MouseInput {
    pub dx: i32,
    pub dy: i32,
    pub mouse_data: u32,
    pub flags: u32,
    pub extra_info: usize,
}

/// The input that replays button message `msg` at pixel `(x, y)`: an absolute
/// move to the point combined with the button's flag (none for another message).
pub fn button_input(x: i32, y: i32, msg: u32, cx: i32, cy: i32) -> (r: MouseInput)
    requires
        cx >= 1,
        cy >= 1,
        scalable(x as int),
        scalable(y as int),
    ensures
        r.dx == absolute_of(x as int, cx as int),
        r.dy == absolute_of(y as int, cy as int),
        r.mouse_data == 0,
        r.flags == MOUSEEVENTF_ABSOLUTE | MOUSEEVENTF_MOVE | button_event_flag(msg),
        r.extra_info == INJECT_EXTRA_INFO,
{
    let btn: u32 = if msg == WM_LBUTTONDOWN {
        MOUSEEVENTF_LEFTDOWN
    } else if msg == WM_LBUTTONUP {
        MOUSEEVENTF_LEFTUP
    } else if msg == WM_RBUTTONDOWN {
        MOUSEEVENTF_RIGHTDOWN
    } else if msg == WM_RBUTTONUP {
        MOUSEEVENTF_RIGHTUP
    } else if msg == WM_MBUTTONDOWN {
        MOUSEEVENTF_MIDDLEDOWN
    } else if msg == WM_MBUTTONUP {
        MOUSEEVENTF_MIDDLEUP
    } else {
        0
    };
    MouseInput {
        dx: absolute_coordinate(x, cx),
        dy: absolute_coordinate(y, cy),
        mouse_data: 0,
        flags: MOUSEEVENTF_ABSOLUTE | MOUSEEVENTF_MOVE | btn,
        extra_info: INJECT_EXTRA_INFO,
    }
}

/// The input that moves the pointer to pixel `(x, y)` in absolute units.
pub fn move_input(x: i32, y: i32, cx: i32, cy: i32) -> (r: MouseInput)
    requires
        cx >= 1,
        cy >= 1,
        scalable(x as int),
        scalable(y as int),
    ensures
        r.dx == absolute_of(x as int, cx as int),
        r.dy == absolute_of(y as int, cy as int),
        r.mouse_data == 0,
        r.flags == MOUSEEVENTF_ABSOLUTE | MOUSEEVENTF_MOVE,
        r.extra_info == INJECT_EXTRA_INFO,
{
    MouseInput {
        dx: absolute_coordinate(x, cx),
        dy: absolute_coordinate(y, cy),
        mouse_data: 0,
        flags: MOUSEEVENTF_ABSOLUTE | MOUSEEVENTF_MOVE,
        extra_info: INJECT_EXTRA_INFO,
    }
}

/// The input that turns the wheel by `delta` (in `WHEEL_DELTA` units, signed).
pub fn wheel_input(delta: i32) -> (r: MouseInput)
    ensures
        r.dx == 0,
        r.dy == 0,
        r.mouse_data == delta as u32,
        r.flags == MOUSEEVENTF_WHEEL,
        r.extra_info == INJECT_EXTRA_INFO,
{
    MouseInput {
        dx: 0,
        dy: 0,
        mouse_data: delta as u32,
        flags: MOUSEEVENTF_WHEEL,
        extra_info: INJECT_EXTRA_INFO,
    }
}

/// The extended style a managed window is given: always layered, and
/// transparent to input exactly when mouse or pen pass-through is on.
pub open spec fn managed_style(current: u32, mouse: bool, pen: bool) -> u32 {
    if mouse || pen {
        (current | WS_EX_LAYERED) | WS_EX_TRANSPARENT
    } else {
        (current | WS_EX_LAYERED) & !WS_EX_TRANSPARENT
    }
}

/// Computes the extended style for a window whose current style is
/// `current`, given its pass-through settings.
pub fn next_ex_style(current: u32, mouse_passthrough: bool, pen_passthrough: bool) -> (r: u32)
    ensures
        r == managed_style(current, mouse_passthrough, pen_passthrough),
        r & WS_EX_LAYERED == WS_EX_LAYERED,
        (r & WS_EX_TRANSPARENT == WS_EX_TRANSPARENT) == (mouse_passthrough || pen_passthrough),
        (r & WS_EX_TRANSPARENT == 0) == !(mouse_passthrough || pen_passthrough),
        r & !(WS_EX_LAYERED | WS_EX_TRANSPARENT) == current & !(WS_EX_LAYERED | WS_EX_TRANSPARENT),
{
    let next = current | WS_EX_LAYERED;
    if mouse_passthrough || pen_passthrough {
        let r = next | WS_EX_TRANSPARENT;
        assert(r & 0x0008_0000u32 == 0x0008_0000u32 && r & 0x20u32 == 0x20u32
            && r & !(0x0008_0000u32 | 0x20u32) == current & !(0x0008_0000u32 | 0x20u32))
            by (bit_vector)
            requires
                r == (current | 0x0008_0000u32) | 0x20u32,
        ;
        r
    } else {
        let r = next & !WS_EX_TRANSPARENT;
        assert(r & 0x0008_0000u32 == 0x0008_0000u32 && r & 0x20u32 == 0
            && r & !(0x0008_0000u32 | 0x20u32) == current & !(0x0008_0000u32 | 0x20u32))
            by (bit_vector)
            requires
                r == (current | 0x0008_0000u32) & !0x20u32,
        ;
        r
    }
}

/// The style a window is given while an input is replayed through it:
/// its own style made transparent to input.
pub fn click_through_style(style: u32) -> (r: u32)
    ensures
        r == style | WS_EX_TRANSPARENT,
{
    style | WS_EX_TRANSPARENT
}

/// Whether an extended style keeps a window above all non-topmost windows.
pub open spec fn style_is_topmost(ex_style: u32) -> bool {
    ex_style & WS_EX_TOPMOST != 0
}

/// Whether the extended style `ex_style` has `WS_EX_TOPMOST`.
pub fn is_topmost_style(ex_style: u32) -> (r: bool)
    ensures
        r == style_is_topmost(ex_style),
{
    ex_style & WS_EX_TOPMOST != 0
}

/// The high word of a hook's `mouseData`.
pub open spec fn high_word(mouse_data: u32) -> u16 {
    ((mouse_data >> 16u32) & 0xFFFFu32) as u16
}

/// Which X button (1 or 2) an `WM_XBUTTONDOWN` concerns: the high word of `mouseData`.
pub fn xbutton_of(mouse_data: u32) -> (r: u16)
    ensures
        r == high_word(mouse_data),
{
    ((mouse_data >> 16) & 0xFFFF) as u16
}

/// The signed wheel rotation a `WM_MOUSEWHEEL` carries in the high word of `mouseData`.
pub fn wheel_delta_of(mouse_data: u32) -> (r: i32)
    ensures
        r == (high_word(mouse_data) as i16) as i32,
        -32768 <= r <= 32767,
{
    let w: u16 = ((mouse_data >> 16) & 0xFFFF) as u16;
    let s: i16 = w as i16;
    s as i32
}

/// Whether a window whose owning process id is `window_pid` belongs to the
/// process `own_pid`; a process id of 0 (lookup failed) belongs to no one.
pub fn is_own_process(window_pid: u32, own_pid: u32) -> (r: bool)
    ensures
        r == (window_pid != 0 && window_pid == own_pid),
{
    window_pid != 0 && window_pid == own_pid
}

/// The signature pen and touch input carries in `dwExtraInfo`.
pub open spec fn pen_signature(extra_info: usize) -> bool {
    extra_info & 0xFFFF_FF00usize == 0xFF51_5700usize
}

/// Whether an input event came from a pen (or touch) rather than a mouse.
pub fn is_pen_input(extra_info: usize) -> (r: bool)
    ensures
        r == pen_signature(extra_info),
{
    extra_info & 0xFFFF_FF00usize == 0xFF51_5700usize
}

/// Replaying a button message uses the event flag of the same button and
/// direction: left/right/middle down and up give six different flags; the
/// drag bit of a button is the same for its press and its release, one of
/// three different single bits.
pub proof fn law_button_flags_and_bits()
    ensures
        button_event_flag(WM_LBUTTONDOWN) == 0x0002,
        button_event_flag(WM_LBUTTONUP) == 0x0004,
        button_event_flag(WM_RBUTTONDOWN) == 0x0008,
        button_event_flag(WM_RBUTTONUP) == 0x0010,
        button_event_flag(WM_MBUTTONDOWN) == 0x0020,
        button_event_flag(WM_MBUTTONUP) == 0x0040,
        button_event_flag(WM_MOUSEMOVE) == 0,
        drag_mask_of(WM_LBUTTONDOWN) == Some(1u8) && drag_mask_of(WM_LBUTTONUP) == Some(1u8),
        drag_mask_of(WM_RBUTTONDOWN) == Some(2u8) && drag_mask_of(WM_RBUTTONUP) == Some(2u8),
        drag_mask_of(WM_MBUTTONDOWN) == Some(4u8) && drag_mask_of(WM_MBUTTONUP) == Some(4u8),
        is_press(WM_LBUTTONDOWN) && is_press(WM_RBUTTONDOWN) && is_press(WM_MBUTTONDOWN),
        is_release(WM_LBUTTONUP) && is_release(WM_RBUTTONUP) && is_release(WM_MBUTTONUP),
        !is_press(WM_LBUTTONUP) && !is_release(WM_LBUTTONDOWN) && !is_press(WM_MOUSEMOVE)
            && !is_release(WM_MOUSEMOVE),
{
}

/// An absolute coordinate is the pixel's share of the extent scaled to
/// 65535, rounded toward zero: it has the pixel's sign, and it times the
/// extent falls short of the pixel times 65535 by less than one extent.
pub proof fn law_absolute_coordinate_scaling(v: int, extent: int)
    requires
        extent >= 1,
    ensures
        v >= 0 ==> 0 <= absolute_of(v, extent) && 0 <= v * 65535 - absolute_of(v, extent) * extent
            < extent,
        v < 0 ==> absolute_of(v, extent) <= 0 && 0 <= absolute_of(v, extent) * extent - v * 65535
            < extent,
        v == extent ==> absolute_of(v, extent) == 65535,
{
    let n = v * 65535;
    if v >= 0 {
        assert(n >= 0) by (nonlinear_arith)
            requires
                v >= 0,
                n == v * 65535,
        ;
        let q = n / extent;
        assert(0 <= q && 0 <= n - q * extent < extent) by (nonlinear_arith)
            requires
                n >= 0,
                extent >= 1,
                q == n / extent,
        ;
    } else {
        assert(n < 0) by (nonlinear_arith)
            requires
                v < 0,
                n == v * 65535,
        ;
        let q = (-n) / extent;
        assert(0 <= q && 0 <= (-n) - q * extent < extent) by (nonlinear_arith)
            requires
                -n > 0,
                extent >= 1,
                q == (-n) / extent,
        ;
        assert((-q) * extent == -(q * extent)) by (nonlinear_arith);
    }
    if v == extent {
        assert((v * 65535) / extent == 65535) by (nonlinear_arith)
            requires
                v == extent,
                extent >= 1,
        ;
    }
}

} // verus!
