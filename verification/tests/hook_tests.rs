use transglass::config::{MouseAction, MouseBindings};
use transglass::hook::{
    clear_all_drags, clear_drag_for, hook_on_target, hook_step, record_press, DragState, HitWindow,
    HookEvent, HookState, HookStep, TargetStep,
};
use transglass::winmsg::{DRAG_BTN_LEFT, DRAG_BTN_MIDDLE, DRAG_BTN_RIGHT, HC_ACTION, INJECT_EXTRA_INFO, WM_LBUTTONDOWN, WM_LBUTTONUP, WM_MBUTTONDOWN, WM_MOUSEMOVE, WM_MOUSEWHEEL, WM_RBUTTONUP, WM_XBUTTONDOWN};

fn ev(msg: u32) -> HookEvent {
    HookEvent { code: HC_ACTION, msg, x: 10, y: 20, mouse_data: 0, extra_info: 0 }
}

fn hit(m: bool, p: bool) -> Option<HitWindow> {
    Some(HitWindow { root_val: 77, mouse_passthrough: m, pen_passthrough: p })
}

#[test]
fn mouse_only_passthrough_drag_round_trip() {
    let b = MouseBindings::default();
    let mut s = HookState::new();
    let down = ev(WM_LBUTTONDOWN);
    assert_eq!(hook_step(&mut s, &down, &b), HookStep::LookUpTarget);
    let step = hook_on_target(&down, hit(true, false));
    assert_eq!(step, TargetStep::ForwardPress { root_val: 77, msg: WM_LBUTTONDOWN, mask: DRAG_BTN_LEFT });
    record_press(&mut s, 77, DRAG_BTN_LEFT);
    assert_eq!(s, HookState { drag: Some(DragState { root_val: 77, buttons: 1 }), drag_hint: true });
    assert_eq!(hook_step(&mut s, &ev(WM_MOUSEMOVE), &b), HookStep::ContinueDrag);
    record_press(&mut s, 77, DRAG_BTN_RIGHT);
    assert_eq!(s.drag.unwrap().buttons, 3);
    assert_eq!(
        hook_step(&mut s, &ev(WM_LBUTTONUP), &b),
        HookStep::ReleaseDragButton { root_val: 77, msg: WM_LBUTTONUP }
    );
    assert_eq!(s.drag.unwrap().buttons, 2);
    assert_eq!(
        hook_step(&mut s, &ev(WM_RBUTTONUP), &b),
        HookStep::ReleaseDragButton { root_val: 77, msg: WM_RBUTTONUP }
    );
    assert_eq!(s, HookState { drag: None, drag_hint: false });
    assert_eq!(hook_step(&mut s, &ev(WM_MOUSEMOVE), &b), HookStep::PassThrough);
}

#[test]
fn own_and_non_action_events_pass() {
    let b = MouseBindings::default();
    let mut s = HookState { drag: Some(DragState { root_val: 1, buttons: 1 }), drag_hint: true };
    let mut injected = ev(WM_LBUTTONUP);
    injected.extra_info = INJECT_EXTRA_INFO;
    assert_eq!(hook_step(&mut s, &injected, &b), HookStep::PassThrough);
    let mut other = ev(WM_LBUTTONUP);
    other.code = 3;
    assert_eq!(hook_step(&mut s, &other, &b), HookStep::PassThrough);
    assert_eq!(s.drag.unwrap().buttons, 1);
    // A release of a button the drag does not hold looks for the target.
    assert_eq!(hook_step(&mut s, &ev(WM_RBUTTONUP), &b), HookStep::LookUpTarget);
    assert_eq!(hook_on_target(&ev(WM_RBUTTONUP), hit(true, false)), TargetStep::PassThrough);
}

#[test]
fn stale_drag_hint_is_cleared() {
    let b = MouseBindings::default();
    let mut s = HookState { drag: None, drag_hint: true };
    assert_eq!(hook_step(&mut s, &ev(WM_MOUSEMOVE), &b), HookStep::PassThrough);
    assert!(!s.drag_hint);
}

#[test]
fn extra_buttons_run_bound_actions() {
    let b = MouseBindings { xbutton1: MouseAction::ToggleTopmost, xbutton2: MouseAction::Unbound };
    let mut s = HookState::new();
    let mut x1 = ev(WM_XBUTTONDOWN);
    x1.mouse_data = 0x0001_0000;
    assert_eq!(hook_step(&mut s, &x1, &b), HookStep::RunMouseAction(MouseAction::ToggleTopmost));
    let mut x2 = ev(WM_XBUTTONDOWN);
    x2.mouse_data = 0x0002_0000;
    assert_eq!(hook_step(&mut s, &x2, &b), HookStep::PassThrough);
    assert_eq!(
        hook_step(&mut s, &x1, &MouseBindings::default()),
        HookStep::RunMouseAction(MouseAction::Decrease)
    );
}

#[test]
fn wheel_and_pen_forwarding() {
    let mut wheel = ev(WM_MOUSEWHEEL);
    wheel.mouse_data = 0xFF88_0000;
    assert_eq!(hook_on_target(&wheel, hit(true, false)), TargetStep::ForwardWheel { root_val: 77, delta: -120 });
    assert_eq!(hook_on_target(&wheel, hit(false, true)), TargetStep::PassThrough);
    assert_eq!(hook_on_target(&wheel, hit(true, true)), TargetStep::PassThrough);
    assert_eq!(hook_on_target(&wheel, None), TargetStep::PassThrough);
    let mut pen = ev(WM_LBUTTONDOWN);
    pen.extra_info = 0xFF51_5701;
    assert_eq!(
        hook_on_target(&pen, hit(false, true)),
        TargetStep::ForwardPress { root_val: 77, msg: WM_LBUTTONDOWN, mask: DRAG_BTN_LEFT }
    );
    assert_eq!(hook_on_target(&pen, hit(true, false)), TargetStep::PassThrough);
    assert_eq!(hook_on_target(&pen, hit(true, true)), TargetStep::PassThrough);
    assert_eq!(hook_on_target(&ev(WM_MBUTTONDOWN), hit(true, false)),
        TargetStep::ForwardPress { root_val: 77, msg: WM_MBUTTONDOWN, mask: DRAG_BTN_MIDDLE });
}

#[test]
fn press_on_another_window_replaces_the_drag_and_restore_clears_it() {
    let mut s = HookState::new();
    record_press(&mut s, 1, DRAG_BTN_LEFT);
    record_press(&mut s, 2, DRAG_BTN_RIGHT);
    assert_eq!(s.drag, Some(DragState { root_val: 2, buttons: DRAG_BTN_RIGHT }));
    clear_drag_for(&mut s, 1);
    assert!(s.drag.is_some());
    clear_drag_for(&mut s, 2);
    assert!(s.drag.is_none());
    assert!(s.drag_hint);
    record_press(&mut s, 3, DRAG_BTN_LEFT);
    clear_all_drags(&mut s);
    assert!(s.drag.is_none());
}
