//! The decisions of the low-level mouse hook. When a managed window lets
//! only mouse input or only pen input through, the hook takes over: it
//! replays button presses and wheel turns on the window below (making the
//! managed window transparent to input for the moment), follows the drag
//! that such a press starts until its buttons are released, and runs the
//! actions bound to the extra mouse buttons.
//!
//! The caller performs the outside work the decisions ask for (looking up
//! the window under the pointer, injecting input) and hands back what it found.
use vstd::prelude::*;
use crate::config::{MouseAction, MouseBindings};
use crate::winmsg::{
    button_drag_mask, drag_mask_of, high_word, is_button_down_msg, is_button_up_msg, is_pen_input,
    is_press, is_release, pen_signature, wheel_delta_of, xbutton_of, HC_ACTION, INJECT_EXTRA_INFO,
    WM_LBUTTONDOWN, WM_LBUTTONUP, WM_MBUTTONDOWN, WM_MBUTTONUP, WM_MOUSEMOVE, WM_MOUSEWHEEL,
    WM_RBUTTONDOWN, WM_RBUTTONUP, WM_XBUTTONDOWN,
};

verus! {

/// A drag the hook took over: the managed root window it started on and the
/// buttons (drag bits) still held.
#[derive(Clone, Copy, Debug, PartialEq, Eq, Structural)]
pub struct DragState {
    pub root_val: isize,
    pub buttons: u8,
}

/// What the hook remembers between events: the drag it is following, and a
/// cheap flag that a drag may be active (checked before taking the drag lock
/// on every pointer move).
#[derive(Clone, Copy, Debug, PartialEq, Eq, Structural)]
pub struct HookState {
    pub drag: Option<DragState>,
    pub drag_hint: bool,
}

/// One low-level mouse event as the hook receives it.
#[derive(Clone, Copy, Debug, PartialEq, Eq, Structural)]
pub struct HookEvent {
    /// The hook code; only `HC_ACTION` events are acted on.
    pub code: i32,
    /// The mouse message (`WM_*`).
    pub msg: u32,
    /// Pointer position in screen pixels.
    pub x: i32,
    pub y: i32,
    /// `mouseData`: wheel delta or X button in the high word.
    pub mouse_data: u32,
    /// `dwExtraInfo`: marks injected, pen and touch input.
    pub extra_info: usize,
}

/// The managed root window under the pointer and its pass-through settings.
#[derive(Clone, Copy, Debug, PartialEq, Eq, Structural)]
pub struct HitWindow {
    pub root_val: isize,
    pub mouse_passthrough: bool,
    pub pen_passthrough: bool,
}

/// What the hook does with an event, before knowing the window under the pointer.
#[derive(Clone, Copy, Debug, PartialEq, Eq, Structural)]
pub enum HookStep {
    /// Hand the event on (`CallNextHookEx`).
    PassThrough,
    /// Replay the release `msg` at the pointer, with `root_val` made
    /// transparent to input meanwhile, and swallow the event.
    ReleaseDragButton { root_val: isize, msg: u32 },
    /// Replay the pointer move at the pointer and swallow the event.
    ContinueDrag,
    /// Run the bound action on the foreground window and swallow the event.
    RunMouseAction(MouseAction),
    /// Find the managed root window under the pointer and decide with
    /// `hook_on_target`.
    LookUpTarget,
}

/// What the hook does with a wheel or button event once the window under
/// the pointer is known.
#[derive(Clone, Copy, Debug, PartialEq, Eq, Structural)]
pub enum TargetStep {
    PassThrough,
    /// Replay the wheel turn with `root_val` made transparent to input
    /// meanwhile, and swallow the event.
    ForwardWheel { root_val: isize, delta: i32 },
    /// Replay the press `msg` with `root_val` made transparent to input
    /// meanwhile; if that succeeded, record it with `record_press(root_val,
    /// mask)` and swallow the event, otherwise hand the event on.
    ForwardPress { root_val: isize, msg: u32, mask: u8 },
}

/// A hook state that can occur: a followed drag holds some of the three
/// buttons, and the drag flag is set while a drag is followed.
pub open spec fn hook_state_wf(s: HookState) -> bool {
    match s.drag {
        Some(d) => d.buttons != 0 && d.buttons < 8 && s.drag_hint,
        None => true,
    }
}

/// The action bound to the extra button a `WM_XBUTTONDOWN` names.
pub open spec fn bound_action_of(b: MouseBindings, mouse_data: u32) -> MouseAction {
    if high_word(mouse_data) == 1 {
        b.xbutton1
    } else if high_word(mouse_data) == 2 {
        b.xbutton2
    } else {
        MouseAction::Unbound
    }
}

/// Whether an event is the release of a button of the followed drag.
pub open spec fn releases_drag_button(s: HookState, ev: HookEvent) -> bool {
    is_release(ev.msg) && s.drag is Some && drag_mask_of(ev.msg) is Some && s.drag->0.buttons
        & drag_mask_of(ev.msg)->0 != 0
}

/// The hook state after the release of a followed button: the button is
/// dropped, and with the last one the drag ends.
pub open spec fn after_release(s: HookState, mask: u8) -> HookState {
    let d = s.drag->0;
    let rest = d.buttons & !mask;
    if rest == 0 {
        HookState { drag: None, drag_hint: false }
    } else {
        HookState { drag: Some(DragState { root_val: d.root_val, buttons: rest }), ..s }
    }
}

/// The first decision on an event, and the hook state after it.
pub open spec fn hook_step_of(s: HookState, ev: HookEvent, b: MouseBindings) -> (HookState, HookStep) {
    if ev.code != HC_ACTION || ev.extra_info == INJECT_EXTRA_INFO {
        (s, HookStep::PassThrough)
    } else if releases_drag_button(s, ev) {
        (
            after_release(s, drag_mask_of(ev.msg)->0),
            HookStep::ReleaseDragButton { root_val: s.drag->0.root_val, msg: ev.msg },
        )
    } else if ev.msg == WM_MOUSEMOVE && s.drag_hint {
        if s.drag is Some && s.drag->0.buttons != 0 {
            (s, HookStep::ContinueDrag)
        } else {
            (HookState { drag_hint: false, ..s }, HookStep::PassThrough)
        }
    } else if ev.msg == WM_XBUTTONDOWN && bound_action_of(b, ev.mouse_data)
        != MouseAction::Unbound {
        (s, HookStep::RunMouseAction(bound_action_of(b, ev.mouse_data)))
    } else if ev.msg == WM_MOUSEWHEEL || is_press(ev.msg) || is_release(ev.msg) {
        (s, HookStep::LookUpTarget)
    } else {
        (s, HookStep::PassThrough)
    }
}

/// The decision on a wheel or button event over the given window.
pub open spec fn target_step_of(ev: HookEvent, hit: Option<HitWindow>) -> TargetStep {
    match hit {
        None => TargetStep::PassThrough,
        Some(h) => {
            let all = h.mouse_passthrough && h.pen_passthrough;
            if ev.msg == WM_MOUSEWHEEL {
                if h.mouse_passthrough && !all {
                    TargetStep::ForwardWheel {
                        root_val: h.root_val,
                        delta: (high_word(ev.mouse_data) as i16) as i32,
                    }
                } else {
                    TargetStep::PassThrough
                }
            } else {
                let wants = if pen_signature(ev.extra_info) {
                    h.pen_passthrough
                } else {
                    h.mouse_passthrough
                };
                if wants && !all && is_press(ev.msg) {
                    TargetStep::ForwardPress {
                        root_val: h.root_val,
                        msg: ev.msg,
                        mask: drag_mask_of(ev.msg)->0,
                    }
                } else {
                    TargetStep::PassThrough
                }
            }
        },
    }
}

/// The hook state after a replayed press on `root_val`: the button joins the
/// drag on that window, or starts a new drag.
pub open spec fn after_press(s: HookState, root_val: isize, mask: u8) -> HookState {
    let d = match s.drag {
        Some(d) => if d.root_val == root_val {
            DragState { root_val, buttons: d.buttons | mask }
        } else {
            DragState { root_val, buttons: mask }
        },
        None => DragState { root_val, buttons: mask },
    };
    HookState { drag: Some(d), drag_hint: true }
}

/// A drag bit of one of the three buttons.
pub open spec fn is_drag_bit(mask: u8) -> bool {
    mask == 1 || mask == 2 || mask == 4
}

proof fn lemma_bits(b: u8, m: u8)
    requires
        b < 8,
        m == 1 || m == 2 || m == 4,
    ensures
        b & !m < 8,
        b | m < 8,
        b | m != 0,
{
    assert(b & !m < 8 && b | m < 8 && b | m != 0) by (bit_vector)
        requires
            b < 8,
            m == 1u8 || m == 2u8 || m == 4u8,
    ;
}

impl HookState {
    /// The state when the hook starts: no drag.
    pub fn new() -> (r: Self)
        ensures
            r.drag is None,
            !r.drag_hint,
            hook_state_wf(r),
    {
        HookState { drag: None, drag_hint: false }
    }
}

/// Decides what the hook does with an event before the window under the
/// pointer is known, updating the drag it follows:
/// - events that are not `HC_ACTION`, and input this program injected, pass;
/// - the release of a button of the followed drag is replayed on the window
///   below and swallowed, ending the drag with its last button;
/// - while a drag is followed, pointer moves are replayed and swallowed
///   (a stale drag flag is cleared);
/// - an extra-button press with a bound action runs it and is swallowed;
/// - wheel and other button events need the window under the pointer;
/// - everything else passes.
pub fn hook_step(state: &mut HookState, ev: &HookEvent, bindings: &MouseBindings) -> (r: HookStep)
    ensures
        (*final(state), r) == hook_step_of(*old(state), *ev, *bindings),
        hook_state_wf(*old(state)) ==> hook_state_wf(*final(state)),
{
    if ev.code != HC_ACTION || ev.extra_info == INJECT_EXTRA_INFO {
        return HookStep::PassThrough;
    }
    if is_button_up_msg(ev.msg) {
        if let Some(mask) = button_drag_mask(ev.msg) {
            if let Some(d) = state.drag {
                if d.buttons & mask != 0 {
                    let rest = d.buttons & !mask;
                    proof {
                        if hook_state_wf(*old(state)) {
                            lemma_bits(d.buttons, mask);
                        }
                    }
                    if rest == 0 {
                        state.drag = None;
                        state.drag_hint = false;
                    } else {
                        state.drag = Some(DragState { root_val: d.root_val, buttons: rest });
                    }
                    return HookStep::ReleaseDragButton { root_val: d.root_val, msg: ev.msg };
                }
            }
        }
    }
    if ev.msg == WM_MOUSEMOVE && state.drag_hint {
        match state.drag {
            Some(d) => {
                if d.buttons != 0 {
                    return HookStep::ContinueDrag;
                }
                state.drag_hint = false;
            },
            None => {
                state.drag_hint = false;
            },
        }
        return HookStep::PassThrough;
    }
    if ev.msg == WM_XBUTTONDOWN {
        let button = xbutton_of(ev.mouse_data);
        let action = if button == 1 {
            bindings.xbutton1
        } else if button == 2 {
            bindings.xbutton2
        } else {
            MouseAction::Unbound
        };
        if action != MouseAction::Unbound {
            return HookStep::RunMouseAction(action);
        }
    }
    if ev.msg == WM_MOUSEWHEEL || is_button_down_msg(ev.msg) || is_button_up_msg(ev.msg) {
        return HookStep::LookUpTarget;
    }
    HookStep::PassThrough
}

/// Decides what the hook does with a wheel or button event over `hit`, the
/// managed root window under the pointer (`None` when there is none). When
/// only one of mouse and pen input passes through that window, the hook
/// replays the wheel turn (mouse pass-through) or the press of the kind of
/// input that passes, on the window below; when both pass, Windows itself
/// lets input through and the hook stays out.
pub fn hook_on_target(ev: &HookEvent, hit: Option<HitWindow>) -> (r: TargetStep)
    ensures
        r == target_step_of(*ev, hit),
{
    match hit {
        None => TargetStep::PassThrough,
        Some(h) => {
            let all = h.mouse_passthrough && h.pen_passthrough;
            if ev.msg == WM_MOUSEWHEEL {
                if h.mouse_passthrough && !all {
                    TargetStep::ForwardWheel {
                        root_val: h.root_val,
                        delta: wheel_delta_of(ev.mouse_data),
                    }
                } else {
                    TargetStep::PassThrough
                }
            } else {
                let wants = if is_pen_input(ev.extra_info) {
                    h.pen_passthrough
                } else {
                    h.mouse_passthrough
                };
                if wants && !all && is_button_down_msg(ev.msg) {
                    match button_drag_mask(ev.msg) {
                        Some(mask) => TargetStep::ForwardPress {
                            root_val: h.root_val,
                            msg: ev.msg,
                            mask,
                        },
                        None => TargetStep::PassThrough,
                    }
                } else {
                    TargetStep::PassThrough
                }
            }
        },
    }
}

/// Records a press replayed on `root_val`: the button joins the drag on that
/// window, or starts a new drag there.
pub fn record_press(state: &mut HookState, root_val: isize, mask: u8)
    ensures
        *final(state) == after_press(*old(state), root_val, mask),
        hook_state_wf(*old(state)) && is_drag_bit(mask) ==> hook_state_wf(*final(state)),
{
    match state.drag {
        Some(d) => {
            if d.root_val == root_val {
                proof {
                    if hook_state_wf(*old(state)) && is_drag_bit(mask) {
                        lemma_bits(d.buttons, mask);
                    }
                }
                state.drag = Some(DragState { root_val, buttons: d.buttons | mask });
            } else {
                state.drag = Some(DragState { root_val, buttons: mask });
            }
        },
        None => {
            state.drag = Some(DragState { root_val, buttons: mask });
        },
    }
    state.drag_hint = true;
}

/// Forgets the followed drag when it is on the window being restored.
pub fn clear_drag_for(state: &mut HookState, hwnd_val: isize)
    ensures
        final(state).drag_hint == old(state).drag_hint,
        final(state).drag == (match old(state).drag {
            Some(d) => if d.root_val == hwnd_val {
                None
            } else {
                Some(d)
            },
            None => None,
        }),
        hook_state_wf(*old(state)) ==> hook_state_wf(*final(state)),
{
    if let Some(d) = state.drag {
        if d.root_val == hwnd_val {
            state.drag = None;
        }
    }
}

/// Forgets any followed drag, as restoring every window does.
pub fn clear_all_drags(state: &mut HookState)
    ensures
        final(state).drag is None,
        final(state).drag_hint == old(state).drag_hint,
        hook_state_wf(*final(state)),
{
    state.drag = None;
}

/// Input this program injected is always handed on untouched, whatever the
/// hook state: the hook never reacts to its own replays.
pub proof fn law_injected_input_passes(s: HookState, ev: HookEvent, b: MouseBindings)
    requires
        ev.extra_info == INJECT_EXTRA_INFO,
    ensures
        hook_step_of(s, ev, b) == (s, HookStep::PassThrough),
{
}

/// A press replayed on a window while no drag is followed starts a drag
/// there; the release of the same button is then replayed on that window and
/// ends the drag.
pub proof fn law_press_then_release_ends_drag(
    s: HookState,
    root_val: isize,
    press: u32,
    release: HookEvent,
    b: MouseBindings,
)
    requires
        s.drag is None,
        is_press(press),
        is_release(release.msg),
        drag_mask_of(release.msg) == drag_mask_of(press),
        release.code == HC_ACTION,
        release.extra_info != INJECT_EXTRA_INFO,
    ensures
        after_press(s, root_val, drag_mask_of(press)->0).drag == Some(
            DragState { root_val, buttons: drag_mask_of(press)->0 },
        ),
        hook_step_of(after_press(s, root_val, drag_mask_of(press)->0), release, b) == (
            HookState { drag: None, drag_hint: false },
            HookStep::ReleaseDragButton { root_val, msg: release.msg },
        ),
{
    let m = drag_mask_of(press)->0;
    assert(m & m != 0 && m & !m == 0) by (bit_vector)
        requires
            m == 1u8 || m == 2u8 || m == 4u8,
    ;
}

/// When both mouse and pen input pass through a window, Windows lets all
/// input through it and the hook never replays anything for it.
pub proof fn law_full_passthrough_is_left_to_windows(ev: HookEvent, h: HitWindow)
    requires
        h.mouse_passthrough,
        h.pen_passthrough,
    ensures
        target_step_of(ev, Some(h)) == TargetStep::PassThrough,
{
}

/// The hook replays input only for a managed window, and only for the kind
/// of input that passes through it.
pub proof fn law_forwarding_follows_settings(ev: HookEvent, hit: Option<HitWindow>)
    ensures
        target_step_of(ev, hit) matches TargetStep::ForwardPress { root_val, .. } ==> hit is Some
            && hit->0.root_val == root_val && (if pen_signature(ev.extra_info) {
            hit->0.pen_passthrough
        } else {
            hit->0.mouse_passthrough
        }),
        target_step_of(ev, hit) matches TargetStep::ForwardWheel { root_val, .. } ==> hit is Some
            && hit->0.root_val == root_val && hit->0.mouse_passthrough
            && !hit->0.pen_passthrough,
{
}

/// What the hook does first with each kind of event it acts on (an
/// `HC_ACTION` event this program did not inject):
/// - the release of a button the followed drag holds is replayed on the drag's
///   window; the button leaves the drag, and the drag ends with its last button;
/// - a wheel turn, a press, or a release the drag does not hold goes on to
///   look up the window under the pointer, with the hook state unchanged;
/// - a pointer move while a drag with held buttons is followed is replayed;
/// - an extra-button press runs the action bound to that button, if any;
/// - any other event is handed on.
pub proof fn law_hook_step_by_event(s: HookState, ev: HookEvent, b: MouseBindings)
    requires
        ev.code == HC_ACTION,
        ev.extra_info != INJECT_EXTRA_INFO,
        hook_state_wf(s),
    ensures
        (ev.msg == WM_MOUSEWHEEL || ev.msg == WM_LBUTTONDOWN || ev.msg == WM_RBUTTONDOWN
            || ev.msg == WM_MBUTTONDOWN) ==> hook_step_of(s, ev, b) == (s, HookStep::LookUpTarget),
        (ev.msg == WM_LBUTTONUP || ev.msg == WM_RBUTTONUP || ev.msg == WM_MBUTTONUP) ==> {
            let bit: u8 = if ev.msg == WM_LBUTTONUP {
                1u8
            } else if ev.msg == WM_RBUTTONUP {
                2u8
            } else {
                4u8
            };
            match s.drag {
                Some(d) => if d.buttons & bit != 0 {
                    &&& hook_step_of(s, ev, b).1 == HookStep::ReleaseDragButton {
                        root_val: d.root_val,
                        msg: ev.msg,
                    }
                    &&& hook_step_of(s, ev, b).0.drag == (if d.buttons & !bit == 0 {
                        None
                    } else {
                        Some(DragState { root_val: d.root_val, buttons: d.buttons & !bit })
                    })
                    &&& hook_step_of(s, ev, b).0.drag is None ==> !hook_step_of(s, ev, b).0.drag_hint
                } else {
                    hook_step_of(s, ev, b) == (s, HookStep::LookUpTarget)
                },
                None => hook_step_of(s, ev, b) == (s, HookStep::LookUpTarget),
            }
        },
        ev.msg == WM_MOUSEMOVE ==> (if s.drag is Some {
            hook_step_of(s, ev, b) == (s, HookStep::ContinueDrag)
        } else {
            hook_step_of(s, ev, b) == (HookState { drag: None, drag_hint: false }, HookStep::PassThrough)
        }),
        ev.msg == WM_XBUTTONDOWN ==> {
            let x = ((ev.mouse_data >> 16u32) & 0xFFFFu32) as u16;
            let a = if x == 1 {
                b.xbutton1
            } else if x == 2 {
                b.xbutton2
            } else {
                MouseAction::Unbound
            };
            hook_step_of(s, ev, b) == (s, if a == MouseAction::Unbound {
                HookStep::PassThrough
            } else {
                HookStep::RunMouseAction(a)
            })
        },
        !(ev.msg == WM_MOUSEWHEEL || ev.msg == WM_MOUSEMOVE || ev.msg == WM_XBUTTONDOWN || (0x0201
            <= ev.msg <= 0x0208 && ev.msg != 0x0203 && ev.msg != 0x0206)) ==> hook_step_of(s, ev, b)
            == (s, HookStep::PassThrough),
{
}

/// Once the window under the pointer is known:
/// - a wheel turn over a window that lets only mouse input through is replayed
///   there with the signed delta from the high word of `mouseData`;
/// - a press over a window that lets only the pressing device's input through
///   (pen input is recognised by its signature) is replayed, with the drag bit
///   of its button (left 1, right 2, middle 4);
/// - every other event, and any event over no managed window, is handed on.
pub proof fn law_target_step_by_event(ev: HookEvent, hit: Option<HitWindow>)
    ensures
        hit is None ==> target_step_of(ev, hit) == TargetStep::PassThrough,
        hit matches Some(h) ==> {
            let pen = ev.extra_info & 0xFFFF_FF00usize == 0xFF51_5700usize;
            let passes = if pen {
                h.pen_passthrough && !h.mouse_passthrough
            } else {
                h.mouse_passthrough && !h.pen_passthrough
            };
            &&& ev.msg == WM_MOUSEWHEEL ==> target_step_of(ev, hit) == (if h.mouse_passthrough
                && !h.pen_passthrough {
                TargetStep::ForwardWheel {
                    root_val: h.root_val,
                    delta: (((ev.mouse_data >> 16u32) & 0xFFFFu32) as u16 as i16) as i32,
                }
            } else {
                TargetStep::PassThrough
            })
            &&& ev.msg == WM_LBUTTONDOWN ==> target_step_of(ev, hit) == (if passes {
                TargetStep::ForwardPress { root_val: h.root_val, msg: ev.msg, mask: 1 }
            } else {
                TargetStep::PassThrough
            })
            &&& ev.msg == WM_RBUTTONDOWN ==> target_step_of(ev, hit) == (if passes {
                TargetStep::ForwardPress { root_val: h.root_val, msg: ev.msg, mask: 2 }
            } else {
                TargetStep::PassThrough
            })
            &&& ev.msg == WM_MBUTTONDOWN ==> target_step_of(ev, hit) == (if passes {
                TargetStep::ForwardPress { root_val: h.root_val, msg: ev.msg, mask: 4 }
            } else {
                TargetStep::PassThrough
            })
            &&& !(ev.msg == WM_MOUSEWHEEL || ev.msg == WM_LBUTTONDOWN || ev.msg == WM_RBUTTONDOWN
                || ev.msg == WM_MBUTTONDOWN) ==> target_step_of(ev, hit) == TargetStep::PassThrough
        },
{
}

/// A recorded press leaves a followed drag on that window holding the
/// pressed button: added to the buttons already held there, or alone when
/// the drag was elsewhere or there was none; the drag flag is set.
pub proof fn law_record_press_holds_button(s: HookState, root_val: isize, mask: u8)
    ensures
        after_press(s, root_val, mask).drag_hint,
        after_press(s, root_val, mask).drag is Some,
        after_press(s, root_val, mask).drag->0.root_val == root_val,
        after_press(s, root_val, mask).drag->0.buttons & mask == mask,
        (s.drag is Some && s.drag->0.root_val == root_val) ==> after_press(
            s,
            root_val,
            mask,
        ).drag->0.buttons == s.drag->0.buttons | mask,
        !(s.drag is Some && s.drag->0.root_val == root_val) ==> after_press(
            s,
            root_val,
            mask,
        ).drag->0.buttons == mask,
{
    let r = after_press(s, root_val, mask).drag->0.buttons;
    if s.drag is Some && s.drag->0.root_val == root_val {
        let x = s.drag->0.buttons;
        assert((x | mask) & mask == mask) by (bit_vector);
    } else {
        assert(mask & mask == mask) by (bit_vector);
    }
}

} // verus!
