use transglass::registry::{Appearance, PendingChange, WindowRegistry, WindowTarget};
use transglass::winmsg::{WS_EX_LAYERED, WS_EX_TOPMOST};

fn target(h: isize, style: u32) -> WindowTarget {
    WindowTarget { hwnd_val: h, is_own: false, ex_style: style, title: format!("window {}", h) }
}

#[test]
fn adjust_manages_and_clamps() {
    let mut reg = WindowRegistry::new();
    assert!(reg.is_empty());
    let r = reg.adjust_window_transparency(target(10, 0x100), -25).unwrap();
    assert_eq!(
        r,
        Some(Appearance { alpha: 230, topmost: false, mouse_passthrough: false, pen_passthrough: false })
    );
    let s = reg.get(10).unwrap();
    assert_eq!(s.original_ex_style, 0x100);
    assert_eq!(s.current_alpha, 230);
    assert_eq!(s.title, "window 10");
    for _ in 0..20 {
        reg.adjust_window_transparency(target(10, 0x100), -25).unwrap();
    }
    assert_eq!(reg.get(10).unwrap().current_alpha, 30);
    for _ in 0..20 {
        reg.adjust_window_transparency(target(10, 0x100), 25).unwrap();
    }
    assert_eq!(reg.get(10).unwrap().current_alpha, 255);
    assert_eq!(reg.get(10).unwrap().title, "window 10");
}

#[test]
fn adjust_rejects_no_window_and_skips_own() {
    let mut reg = WindowRegistry::new();
    let err = reg.adjust_window_transparency(target(0, 0), 25).unwrap_err();
    assert_eq!(err, "Invalid HWND");
    let own = WindowTarget { hwnd_val: 7, is_own: true, ex_style: 0, title: String::new() };
    assert_eq!(reg.adjust_window_transparency(own.clone(), 25), Ok(None));
    assert_eq!(reg.toggle_topmost(own), None);
    assert!(reg.is_empty());
}

#[test]
fn toggles_flip_and_flip_back() {
    let mut reg = WindowRegistry::new();
    let a = reg.toggle_topmost(target(5, WS_EX_TOPMOST)).unwrap();
    assert!(!a.topmost);
    assert!(reg.get(5).unwrap().original_is_topmost);
    let a = reg.toggle_topmost(target(5, 0)).unwrap();
    assert!(a.topmost);
    let a = reg.toggle_mouse_passthrough(target(5, 0)).unwrap();
    assert!(a.mouse_passthrough && !a.pen_passthrough);
    let a = reg.toggle_pen_passthrough(target(5, 0)).unwrap();
    assert!(a.mouse_passthrough && a.pen_passthrough);
    let a = reg.toggle_mouse_passthrough(target(5, 0)).unwrap();
    assert!(!a.mouse_passthrough && a.pen_passthrough);
    assert_eq!(reg.toggle_pen_passthrough(target(0, 0)), None);
    assert_eq!(reg.get(5).unwrap().original_ex_style, WS_EX_TOPMOST);
}

#[test]
fn restore_one_and_all() {
    let mut reg = WindowRegistry::new();
    reg.toggle_topmost(target(1, 0x100 | WS_EX_LAYERED)).unwrap();
    reg.toggle_topmost(target(2, 0x200)).unwrap();
    reg.adjust_window_transparency(target(3, 0x300), -50).unwrap();
    let s = reg.restore_window(1).unwrap();
    assert_eq!(s.original_ex_style, 0x100 | WS_EX_LAYERED);
    assert!(reg.get(1).is_none());
    assert!(reg.restore_window(1).is_none());
    assert!(reg.restore_window(0).is_none());
    let mut all = reg.restore_all_windows();
    all.sort_by_key(|(h, _)| *h);
    let keys: Vec<isize> = all.iter().map(|(h, _)| *h).collect();
    assert_eq!(keys, vec![2, 3]);
    assert_eq!(all[1].1.current_alpha, 205);
    assert_eq!(all[0].1.original_ex_style, 0x200);
    assert!(reg.is_empty());
    assert!(reg.entries().is_empty());
}

#[test]
fn panel_changes_only_touch_managed_windows() {
    let mut reg = WindowRegistry::new();
    let change = PendingChange {
        hwnd_val: 4,
        alpha: Some(100),
        topmost: None,
        mouse_passthrough: Some(true),
        pen_passthrough: None,
    };
    assert_eq!(reg.apply_pending_change(change), None);
    assert!(reg.is_empty());
    reg.toggle_pen_passthrough(target(4, 0)).unwrap();
    let a = reg.apply_pending_change(change).unwrap();
    assert_eq!(a, Appearance { alpha: 100, topmost: false, mouse_passthrough: true, pen_passthrough: true });
    let entries = reg.entries();
    assert_eq!(entries.len(), 1);
    assert_eq!(entries[0].0, 4);
    assert_eq!(entries[0].1.current_alpha, 100);
}

#[test]
fn restore_plans() {
    let mut reg = WindowRegistry::new();
    reg.toggle_topmost(target(8, WS_EX_TOPMOST | 0x40)).unwrap();
    reg.toggle_topmost(target(9, 0x40)).unwrap();
    let p8 = transglass::registry::restore_plan(&reg.restore_window(8).unwrap());
    assert_eq!(p8, transglass::registry::RestorePlan { ex_style: WS_EX_TOPMOST | 0x40, alpha: 255, drop_topmost: false });
    let p9 = transglass::registry::restore_plan(&reg.restore_window(9).unwrap());
    assert_eq!(p9, transglass::registry::RestorePlan { ex_style: 0x40, alpha: 255, drop_topmost: true });
}

#[test]
fn switching_twice_leaves_the_window_as_it_was() {
    let mut reg = WindowRegistry::new();
    reg.adjust_window_transparency(target(6, 0x10), -75).unwrap();
    let before = reg.get(6).unwrap();
    reg.toggle_mouse_passthrough(target(6, 0)).unwrap();
    reg.toggle_mouse_passthrough(target(6, 0)).unwrap();
    reg.toggle_topmost(target(6, 0)).unwrap();
    reg.toggle_topmost(target(6, 0)).unwrap();
    let after = reg.get(6).unwrap();
    assert_eq!(after.current_alpha, before.current_alpha);
    assert_eq!(after.user_pref_topmost, before.user_pref_topmost);
    assert_eq!(after.mouse_passthrough, before.mouse_passthrough);
    assert_eq!(after.pen_passthrough, before.pen_passthrough);
    assert_eq!(after.original_ex_style, 0x10);
    assert_eq!(after.title, before.title);
}
