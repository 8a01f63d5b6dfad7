//! The registry of managed windows: for every window whose appearance was
//! changed, the style it had before and its current opacity, topmost and
//! pass-through settings. Every command on a window goes through here and
//! yields the appearance to apply, or the state to restore.
use vstd::prelude::*;
use dashmap::DashMap;
use crate::winmsg::{is_topmost_style, style_is_topmost};

verus! {

/// Lowest opacity a window can be made (out of 255), so it never vanishes.
pub const MIN_ALPHA: u8 = 30;
/// Full opacity.
pub const MAX_ALPHA: u8 = 255;

/// What the registry remembers of one managed window.
#[derive(Clone, Debug)]
pub struct WindowState {
    /// Extended style before the window was first managed.
    pub original_ex_style: u32,
    pub current_alpha: u8,
    /// Whether the window was topmost before it was first managed.
    pub original_is_topmost: bool,
    pub user_pref_topmost: bool,
    pub mouse_passthrough: bool,
    pub pen_passthrough: bool,
    pub title: String,
}

/// What to apply to a managed window: opacity, z-order and pass-through.
#[derive(Clone, Copy, Debug, PartialEq, Eq, Structural)]
pub struct Appearance {
    pub alpha: u8,
    pub topmost: bool,
    pub mouse_passthrough: bool,
    pub pen_passthrough: bool,
}

/// The window a command is aimed at, as the caller found it: its handle
/// value (0 for none), whether it belongs to this process, and its current
/// extended style and title, used when it is managed for the first time.
#[derive(Clone, Debug)]
pub struct WindowTarget {
    pub hwnd_val: isize,
    pub is_own: bool,
    pub ex_style: u32,
    pub title: String,
}

/// A change made from the control panel to one managed window; each field
/// that is present replaces the stored setting.
#[derive(Clone, Copy, Debug, PartialEq, Eq, Structural)]
pub struct PendingChange {
    pub hwnd_val: isize,
    pub alpha: Option<u8>,
    pub topmost: Option<bool>,
    pub mouse_passthrough: Option<bool>,
    pub pen_passthrough: Option<bool>,
}

#[verifier::external_type_specification]
#[verifier::external_body]
#[verifier::reject_recursive_types(K)]
#[verifier::reject_recursive_types(V)]
#[verifier::reject_recursive_types(S)]
pub struct ExDashMap<K, V, S>(DashMap<K, V, S>);

/// The concurrent map that holds the managed windows.
pub type WindowMap = DashMap<isize, WindowState>;

/// The entries a `DashMap` of managed windows holds.
pub uninterp spec fn registry_entries(m: DashMap<isize, WindowState>) -> Map<isize, WindowState>;

/// Calls `DashMap::new`: a map with no entries.
#[verifier::external_body]
fn map_new() -> (r: WindowMap)
    ensures
        registry_entries(r).is_empty(),
{
    DashMap::new()
}

/// Calls `DashMap::get` and clones the value found: the entry of `key`, if any.
#[verifier::external_body]
fn map_get(m: &DashMap<isize, WindowState>, key: isize) -> (r: Option<WindowState>)
    ensures
        r == (if registry_entries(*m).dom().contains(key) {
            Some(registry_entries(*m)[key])
        } else {
            None
        }),
{
    match m.get(&key) {
        Some(entry) => Some(entry.value().clone()),
        None => None,
    }
}

/// Calls `DashMap::insert`: the entry of `key` becomes `value`, others stay.
#[verifier::external_body]
fn map_insert(m: &mut DashMap<isize, WindowState>, key: isize, value: WindowState)
    ensures
        registry_entries(*final(m)) == registry_entries(*old(m)).insert(key, value),
{
    m.insert(key, value);
}

/// Calls `DashMap::remove`: the entry of `key` leaves and is returned.
#[verifier::external_body]
fn map_remove(m: &mut DashMap<isize, WindowState>, key: isize) -> (r: Option<WindowState>)
    ensures
        registry_entries(*final(m)) == registry_entries(*old(m)).remove(key),
        r == (if registry_entries(*old(m)).dom().contains(key) {
            Some(registry_entries(*old(m))[key])
        } else {
            None
        }),
{
    match m.remove(&key) {
        Some((_, value)) => Some(value),
        None => None,
    }
}

/// Calls `DashMap::is_empty`.
#[verifier::external_body]
fn map_is_empty(m: &DashMap<isize, WindowState>) -> (r: bool)
    ensures
        r == registry_entries(*m).is_empty(),
{
    m.is_empty()
}

/// Calls `DashMap::iter` and copies out each entry. The source visits every
/// shard once and every entry of a shard once, so each key comes exactly
/// once with its value; the order (by hash and shard) is not stated.
#[verifier::external_body]
fn map_snapshot(m: &DashMap<isize, WindowState>) -> (r: Vec<(isize, WindowState)>)
    ensures
        forall|i: int, j: int| 0 <= i < j < r@.len() ==> r@[i].0 != r@[j].0,
        forall|i: int|
            0 <= i < r@.len() ==> registry_entries(*m).dom().contains(#[trigger] r@[i].0)
                && registry_entries(*m)[r@[i].0] == r@[i].1,
        forall|k: isize|
            registry_entries(*m).dom().contains(k) ==> exists|i: int|
                0 <= i < r@.len() && #[trigger] r@[i].0 == k,
{
    m.iter().map(|entry| (*entry.key(), entry.value().clone())).collect()
}

/// The managed windows, keyed by handle value.
pub struct WindowRegistry {
    map: DashMap<isize, WindowState>,
}

impl View for WindowRegistry {
    type V = Map<isize, WindowState>;

    closed spec fn view(&self) -> Map<isize, WindowState> {
        registry_entries(self.map)
    }
}

/// The state a window starts with when it is first managed.
pub open spec fn fresh_state(ex_style: u32, title: String) -> WindowState {
    WindowState {
        original_ex_style: ex_style,
        current_alpha: MAX_ALPHA,
        original_is_topmost: style_is_topmost(ex_style),
        user_pref_topmost: style_is_topmost(ex_style),
        mouse_passthrough: false,
        pen_passthrough: false,
        title,
    }
}

/// The stored state of the target window, or the state it starts with.
pub open spec fn entry_or_fresh(m: Map<isize, WindowState>, t: WindowTarget) -> WindowState {
    if m.dom().contains(t.hwnd_val) {
        m[t.hwnd_val]
    } else {
        fresh_state(t.ex_style, t.title)
    }
}

/// Whether a command may act on the target: a real window of another process.
pub open spec fn actionable(t: WindowTarget) -> bool {
    t.hwnd_val != 0 && !t.is_own
}

/// What a stored state asks to be applied.
pub open spec fn appearance_of(s: WindowState) -> Appearance {
    Appearance {
        alpha: s.current_alpha,
        topmost: s.user_pref_topmost,
        mouse_passthrough: s.mouse_passthrough,
        pen_passthrough: s.pen_passthrough,
    }
}

/// `a` limited to `MIN_ALPHA..=MAX_ALPHA`.
pub open spec fn clamp_alpha(a: int) -> u8 {
    if a < MIN_ALPHA {
        MIN_ALPHA
    } else if a > MAX_ALPHA {
        MAX_ALPHA
    } else {
        a as u8
    }
}

/// A setting of a managed window that can be switched on and off.
#[derive(Clone, Copy, Debug, PartialEq, Eq, Structural)]
pub enum Switch {
    Topmost,
    MousePassthrough,
    PenPassthrough,
}

/// `s` with the given setting switched.
pub open spec fn flipped(s: WindowState, sw: Switch) -> WindowState {
    match sw {
        Switch::Topmost => WindowState { user_pref_topmost: !s.user_pref_topmost, ..s },
        Switch::MousePassthrough => WindowState { mouse_passthrough: !s.mouse_passthrough, ..s },
        Switch::PenPassthrough => WindowState { pen_passthrough: !s.pen_passthrough, ..s },
    }
}

/// The registry after switching a setting of the target window (managing it
/// first if needed); unchanged when the target is not actionable.
pub open spec fn after_switch(m: Map<isize, WindowState>, t: WindowTarget, sw: Switch) -> Map<
    isize,
    WindowState,
> {
    if actionable(t) {
        m.insert(t.hwnd_val, flipped(entry_or_fresh(m, t), sw))
    } else {
        m
    }
}

/// `s` with its opacity moved by `delta` and kept within `MIN_ALPHA..=MAX_ALPHA`.
pub open spec fn adjusted(s: WindowState, delta: int) -> WindowState {
    WindowState { current_alpha: clamp_alpha(s.current_alpha + delta), ..s }
}

/// The registry after adjusting the target's opacity by `delta`.
pub open spec fn after_adjust(m: Map<isize, WindowState>, t: WindowTarget, delta: int) -> Map<
    isize,
    WindowState,
> {
    if actionable(t) {
        m.insert(t.hwnd_val, adjusted(entry_or_fresh(m, t), delta))
    } else {
        m
    }
}

/// `s` with the settings a pending change carries.
pub open spec fn changed(s: WindowState, c: PendingChange) -> WindowState {
    WindowState {
        current_alpha: match c.alpha {
            Some(a) => a,
            None => s.current_alpha,
        },
        user_pref_topmost: match c.topmost {
            Some(t) => t,
            None => s.user_pref_topmost,
        },
        mouse_passthrough: match c.mouse_passthrough {
            Some(p) => p,
            None => s.mouse_passthrough,
        },
        pen_passthrough: match c.pen_passthrough {
            Some(p) => p,
            None => s.pen_passthrough,
        },
        ..s
    }
}

/// The registry after a pending change: only a managed window changes.
pub open spec fn after_change(m: Map<isize, WindowState>, c: PendingChange) -> Map<
    isize,
    WindowState,
> {
    if m.dom().contains(c.hwnd_val) {
        m.insert(c.hwnd_val, changed(m[c.hwnd_val], c))
    } else {
        m
    }
}

/// How to give a window back its original appearance.
#[derive(Clone, Copy, Debug, PartialEq, Eq, Structural)]
pub struct RestorePlan {
    /// The extended style to set again.
    pub ex_style: u32,
    /// The opacity to set: fully opaque.
    pub alpha: u8,
    /// Whether to move the window out of the topmost band: exactly when it
    /// was not topmost before it was managed.
    pub drop_topmost: bool,
}

/// The way back for a window that was managed with state `s`.
pub fn restore_plan(s: &WindowState) -> (r: RestorePlan)
    ensures
        r.ex_style == s.original_ex_style,
        r.alpha == MAX_ALPHA,
        r.drop_topmost == !s.original_is_topmost,
{
    RestorePlan { ex_style: s.original_ex_style, alpha: MAX_ALPHA, drop_topmost: !s.original_is_topmost }
}

fn copy_state(s: &WindowState) -> (r: WindowState)
    ensures
        r == *s,
{
    WindowState {
        original_ex_style: s.original_ex_style,
        current_alpha: s.current_alpha,
        original_is_topmost: s.original_is_topmost,
        user_pref_topmost: s.user_pref_topmost,
        mouse_passthrough: s.mouse_passthrough,
        pen_passthrough: s.pen_passthrough,
        title: s.title.clone(),
    }
}

fn appearance(s: &WindowState) -> (r: Appearance)
    ensures
        r == appearance_of(*s),
{
    Appearance {
        alpha: s.current_alpha,
        topmost: s.user_pref_topmost,
        mouse_passthrough: s.mouse_passthrough,
        pen_passthrough: s.pen_passthrough,
    }
}

impl WindowRegistry {
    /// An empty registry.
    pub fn new() -> (r: Self)
        ensures
            r@ == Map::<isize, WindowState>::empty(),
    {
        WindowRegistry { map: map_new() }
    }

    /// The stored state of a window, if it is managed.
    pub fn get(&self, hwnd_val: isize) -> (r: Option<WindowState>)
        ensures
            r == (if self@.dom().contains(hwnd_val) {
                Some(self@[hwnd_val])
            } else {
                None
            }),
    {
        map_get(&self.map, hwnd_val)
    }

    /// Whether no window is managed.
    pub fn is_empty(&self) -> (r: bool)
        ensures
            r == self@.is_empty(),
    {
        map_is_empty(&self.map)
    }

    /// Every managed window with its state, each once, in no stated order.
    pub fn entries(&self) -> (r: Vec<(isize, WindowState)>)
        ensures
            forall|i: int, j: int| 0 <= i < j < r@.len() ==> r@[i].0 != r@[j].0,
            forall|i: int|
                0 <= i < r@.len() ==> self@.dom().contains(#[trigger] r@[i].0) && self@[r@[i].0]
                    == r@[i].1,
            forall|k: isize|
                self@.dom().contains(k) ==> exists|i: int| 0 <= i < r@.len() && #[trigger] r@[i].0 == k,
    {
        map_snapshot(&self.map)
    }

    /// The state of the target window, managing it first if it is not yet.
    fn entry_or_register(&mut self, target: WindowTarget) -> (r: WindowState)
        ensures
            r == entry_or_fresh(old(self)@, target),
            final(self)@ == old(self)@.insert(target.hwnd_val, r),
    {
        match map_get(&self.map, target.hwnd_val) {
            Some(s) => {
                proof {
                    assert(old(self)@.insert(target.hwnd_val, s) =~= old(self)@);
                }
                s
            },
            None => {
                let top = is_topmost_style(target.ex_style);
                let s = WindowState {
                    original_ex_style: target.ex_style,
                    current_alpha: MAX_ALPHA,
                    original_is_topmost: top,
                    user_pref_topmost: top,
                    mouse_passthrough: false,
                    pen_passthrough: false,
                    title: target.title,
                };
                map_insert(&mut self.map, target.hwnd_val, copy_state(&s));
                s
            },
        }
    }

    /// Makes the target window more opaque (`delta > 0`) or more transparent
    /// (`delta < 0`), within `MIN_ALPHA..=MAX_ALPHA`, managing it first if
    /// needed. No window is an error; a window of this process is left alone.
    /// Returns the appearance to apply to the window.
    pub fn adjust_window_transparency(&mut self, target: WindowTarget, delta: i32) -> (r: Result<
        Option<Appearance>,
        String,
    >)
        requires
            actionable(target) ==> entry_or_fresh(old(self)@, target).current_alpha + delta
                <= i32::MAX,
        ensures
            final(self)@ == after_adjust(old(self)@, target, delta as int),
            target.hwnd_val == 0 ==> (r matches Err(e) && e@ == "Invalid HWND"@),
            target.hwnd_val != 0 && target.is_own ==> r == Ok::<Option<Appearance>, String>(
                None,
            ),
            actionable(target) ==> r == Ok::<Option<Appearance>, String>(
                Some(appearance_of(final(self)@[target.hwnd_val])),
            ),
            actionable(target) ==> MIN_ALPHA <= final(self)@[target.hwnd_val].current_alpha
                <= MAX_ALPHA,
    {
        if target.hwnd_val == 0 {
            return Err(String::from_str("Invalid HWND"));
        }
        if target.is_own {
            return Ok(None);
        }
        let h = target.hwnd_val;
        let ghost t = target;
        let mut s = self.entry_or_register(target);
        let a: i32 = s.current_alpha as i32 + delta;
        let na: u8 = if a < MIN_ALPHA as i32 {
            MIN_ALPHA
        } else if a > MAX_ALPHA as i32 {
            MAX_ALPHA
        } else {
            a as u8
        };
        s.current_alpha = na;
        let ap = appearance(&s);
        map_insert(&mut self.map, h, s);
        proof {
            assert(final(self)@ =~= after_adjust(old(self)@, t, delta as int));
        }
        Ok(Some(ap))
    }

    fn switch_setting(&mut self, target: WindowTarget, sw: Switch) -> (r: Option<Appearance>)
        ensures
            final(self)@ == after_switch(old(self)@, target, sw),
            r == (if actionable(target) {
                Some(appearance_of(final(self)@[target.hwnd_val]))
            } else {
                None
            }),
    {
        if target.hwnd_val == 0 || target.is_own {
            return None;
        }
        let h = target.hwnd_val;
        let ghost t = target;
        let mut s = self.entry_or_register(target);
        match sw {
            Switch::Topmost => {
                s.user_pref_topmost = !s.user_pref_topmost;
            },
            Switch::MousePassthrough => {
                s.mouse_passthrough = !s.mouse_passthrough;
            },
            Switch::PenPassthrough => {
                s.pen_passthrough = !s.pen_passthrough;
            },
        }
        let ap = appearance(&s);
        map_insert(&mut self.map, h, s);
        proof {
            assert(final(self)@ =~= after_switch(old(self)@, t, sw));
        }
        Some(ap)
    }

    /// Switches whether the target window stays above others, managing it
    /// first if needed; nothing for no window or a window of this process.
    /// Returns the appearance to apply.
    pub fn toggle_topmost(&mut self, target: WindowTarget) -> (r: Option<Appearance>)
        ensures
            final(self)@ == after_switch(old(self)@, target, Switch::Topmost),
            r == (if actionable(target) {
                Some(appearance_of(final(self)@[target.hwnd_val]))
            } else {
                None
            }),
    {
        self.switch_setting(target, Switch::Topmost)
    }

    /// Switches whether mouse clicks pass through the target window.
    pub fn toggle_mouse_passthrough(&mut self, target: WindowTarget) -> (r: Option<Appearance>)
        ensures
            final(self)@ == after_switch(old(self)@, target, Switch::MousePassthrough),
            r == (if actionable(target) {
                Some(appearance_of(final(self)@[target.hwnd_val]))
            } else {
                None
            }),
    {
        self.switch_setting(target, Switch::MousePassthrough)
    }

    /// Switches whether pen input passes through the target window.
    pub fn toggle_pen_passthrough(&mut self, target: WindowTarget) -> (r: Option<Appearance>)
        ensures
            final(self)@ == after_switch(old(self)@, target, Switch::PenPassthrough),
            r == (if actionable(target) {
                Some(appearance_of(final(self)@[target.hwnd_val]))
            } else {
                None
            }),
    {
        self.switch_setting(target, Switch::PenPassthrough)
    }

    /// Stops managing a window and returns the state to restore it from
    /// (full opacity, its original style, and no longer topmost unless it
    /// was); nothing for no window or an unmanaged one.
    pub fn restore_window(&mut self, hwnd_val: isize) -> (r: Option<WindowState>)
        ensures
            hwnd_val == 0 ==> final(self)@ == old(self)@ && r is None,
            hwnd_val != 0 ==> final(self)@ == old(self)@.remove(hwnd_val),
            hwnd_val != 0 ==> r == (if old(self)@.dom().contains(hwnd_val) {
                Some(old(self)@[hwnd_val])
            } else {
                None
            }),
    {
        if hwnd_val == 0 {
            return None;
        }
        map_remove(&mut self.map, hwnd_val)
    }

    /// Stops managing every window and returns each with the state to
    /// restore it from, each once, in no stated order.
    pub fn restore_all_windows(&mut self) -> (r: Vec<(isize, WindowState)>)
        ensures
            final(self)@ == Map::<isize, WindowState>::empty(),
            forall|i: int, j: int| 0 <= i < j < r@.len() ==> r@[i].0 != r@[j].0,
            forall|i: int|
                0 <= i < r@.len() ==> old(self)@.dom().contains(#[trigger] r@[i].0)
                    && old(self)@[r@[i].0] == r@[i].1,
            forall|k: isize|
                old(self)@.dom().contains(k) ==> exists|i: int|
                    0 <= i < r@.len() && #[trigger] r@[i].0 == k,
    {
        let snapshot = map_snapshot(&self.map);
        let ghost start = self@;
        let mut out: Vec<(isize, WindowState)> = Vec::new();
        let mut i: usize = 0;
        while i < snapshot.len()
            invariant
                start == old(self)@,
                i <= snapshot@.len(),
                forall|a: int, b: int|
                    0 <= a < b < snapshot@.len() ==> snapshot@[a].0 != snapshot@[b].0,
                forall|a: int|
                    0 <= a < snapshot@.len() ==> start.dom().contains(#[trigger] snapshot@[a].0)
                        && start[snapshot@[a].0] == snapshot@[a].1,
                forall|k: isize|
                    start.dom().contains(k) ==> exists|a: int|
                        0 <= a < snapshot@.len() && #[trigger] snapshot@[a].0 == k,
                out@.len() == i,
                forall|a: int| 0 <= a < i ==> #[trigger] out@[a] == snapshot@[a],
                forall|k: isize|
                    self@.dom().contains(k) <==> (start.dom().contains(k) && forall|a: int|
                        0 <= a < i ==> #[trigger] snapshot@[a].0 != k),
                forall|k: isize| #[trigger] self@.dom().contains(k) ==> self@[k] == start[k],
            decreases snapshot@.len() - i,
        {
            let key = snapshot[i].0;
            let removed = map_remove(&mut self.map, key);
            match removed {
                Some(s) => {
                    out.push((key, s));
                },
                None => {
                    assert(false);
                },
            }
            proof {
                assert forall|k: isize|
                    self@.dom().contains(k) <==> (start.dom().contains(k) && forall|a: int|
                        0 <= a < i + 1 ==> #[trigger] snapshot@[a].0 != k) by {
                    if start.dom().contains(k) && (forall|a: int| 0 <= a < i ==> #[trigger] snapshot@[a].0 != k) && k != key {
                        assert forall|a: int| 0 <= a < i + 1 implies #[trigger] snapshot@[a].0 != k by {
                            if a == i {
                            }
                        }
                    }
                }
            }
            i = i + 1;
        }
        proof {
            assert forall|k: isize| !self@.dom().contains(k) by {
                if start.dom().contains(k) {
                    let a = choose|a: int| 0 <= a < snapshot@.len() && #[trigger] snapshot@[a].0 == k;
                    assert(snapshot@[a].0 == k);
                }
            }
            assert(self@ =~= Map::<isize, WindowState>::empty());
            assert forall|k: isize| old(self)@.dom().contains(k) implies exists|a: int|
                0 <= a < out@.len() && #[trigger] out@[a].0 == k by {
                let a = choose|a: int| 0 <= a < snapshot@.len() && #[trigger] snapshot@[a].0 == k;
                assert(out@[a] == snapshot@[a]);
            }
        }
        out
    }

    /// Applies a change made in the control panel to a managed window and
    /// returns the appearance to apply; nothing for an unmanaged window.
    pub fn apply_pending_change(&mut self, change: PendingChange) -> (r: Option<Appearance>)
        ensures
            final(self)@ == after_change(old(self)@, change),
            r == (if old(self)@.dom().contains(change.hwnd_val) {
                Some(appearance_of(final(self)@[change.hwnd_val]))
            } else {
                None
            }),
    {
        match map_get(&self.map, change.hwnd_val) {
            Some(mut s) => {
                if let Some(a) = change.alpha {
                    s.current_alpha = a;
                }
                if let Some(t) = change.topmost {
                    s.user_pref_topmost = t;
                }
                if let Some(m) = change.mouse_passthrough {
                    s.mouse_passthrough = m;
                }
                if let Some(p) = change.pen_passthrough {
                    s.pen_passthrough = p;
                }
                let ap = appearance(&s);
                map_insert(&mut self.map, change.hwnd_val, s);
                proof {
                    assert(final(self)@ =~= after_change(old(self)@, change));
                }
                Some(ap)
            },
            None => None,
        }
    }
}

/// Switching the same setting of a window twice leaves it as it was: the
/// window stays managed with the state it had (or started with).
pub proof fn law_switch_twice_restores(
    m: Map<isize, WindowState>,
    first: WindowTarget,
    second: WindowTarget,
    sw: Switch,
)
    requires
        first.hwnd_val == second.hwnd_val,
        first.is_own == second.is_own,
    ensures
        after_switch(after_switch(m, first, sw), second, sw) == (if actionable(first) {
            m.insert(first.hwnd_val, entry_or_fresh(m, first))
        } else {
            m
        }),
{
    if actionable(first) {
        let s = entry_or_fresh(m, first);
        assert(flipped(flipped(s, sw), sw) == s);
        assert(after_switch(after_switch(m, first, sw), second, sw) =~= m.insert(
            first.hwnd_val,
            s,
        ));
    }
}

/// A window becomes managed with the style, z-order and title it had, at
/// full opacity and without pass-through; and no later adjustment, switch or
/// panel change alters what is remembered of its original style, z-order or
/// title, so restoring it returns it to exactly where it started.
pub proof fn law_original_appearance_is_kept(
    m: Map<isize, WindowState>,
    t: WindowTarget,
    delta: int,
    sw: Switch,
    c: PendingChange,
    h: isize,
)
    ensures
        actionable(t) && !m.dom().contains(t.hwnd_val) ==> after_switch(m, t, sw)[t.hwnd_val]
            == flipped(fresh_state(t.ex_style, t.title), sw),
        actionable(t) && !m.dom().contains(t.hwnd_val) ==> after_adjust(m, t, delta)[t.hwnd_val]
            == adjusted(fresh_state(t.ex_style, t.title), delta),
        m.dom().contains(h) ==> {
            &&& after_switch(m, t, sw).dom().contains(h)
            &&& after_switch(m, t, sw)[h].original_ex_style == m[h].original_ex_style
            &&& after_switch(m, t, sw)[h].original_is_topmost == m[h].original_is_topmost
            &&& after_switch(m, t, sw)[h].title == m[h].title
            &&& after_adjust(m, t, delta).dom().contains(h)
            &&& after_adjust(m, t, delta)[h].original_ex_style == m[h].original_ex_style
            &&& after_adjust(m, t, delta)[h].original_is_topmost == m[h].original_is_topmost
            &&& after_adjust(m, t, delta)[h].title == m[h].title
            &&& after_change(m, c).dom().contains(h)
            &&& after_change(m, c)[h].original_ex_style == m[h].original_ex_style
            &&& after_change(m, c)[h].original_is_topmost == m[h].original_is_topmost
            &&& after_change(m, c)[h].title == m[h].title
        },
{
}

/// Repeated opacity changes never leave `MIN_ALPHA..=MAX_ALPHA`, and a change
/// that stays inside the range is exact.
pub proof fn law_alpha_stays_in_range(s: WindowState, delta: int)
    ensures
        MIN_ALPHA <= adjusted(s, delta).current_alpha <= MAX_ALPHA,
        MIN_ALPHA <= s.current_alpha + delta <= MAX_ALPHA ==> adjusted(s, delta).current_alpha
            == s.current_alpha + delta,
{
}

/// A window managed for the first time starts fully opaque, without
/// pass-through, topmost exactly when its style has `WS_EX_TOPMOST`, and
/// remembers that style and its title; what is applied to a window is its
/// stored opacity, topmost preference and pass-through settings.
pub proof fn law_fresh_state_and_appearance(ex_style: u32, title: String, s: WindowState)
    ensures
        fresh_state(ex_style, title).current_alpha == 255,
        !fresh_state(ex_style, title).mouse_passthrough,
        !fresh_state(ex_style, title).pen_passthrough,
        fresh_state(ex_style, title).user_pref_topmost == (ex_style & 0x8u32 != 0),
        fresh_state(ex_style, title).original_is_topmost == (ex_style & 0x8u32 != 0),
        fresh_state(ex_style, title).original_ex_style == ex_style,
        fresh_state(ex_style, title).title == title,
        appearance_of(s).alpha == s.current_alpha,
        appearance_of(s).topmost == s.user_pref_topmost,
        appearance_of(s).mouse_passthrough == s.mouse_passthrough,
        appearance_of(s).pen_passthrough == s.pen_passthrough,
{
}

/// Switching a setting of an actionable window changes that one setting of
/// its state (stored, or the state it starts with) and nothing else: not
/// its opacity, the other settings, its remembered style or its title, and
/// no other window.
pub proof fn law_switch_changes_only_that_setting(
    m: Map<isize, WindowState>,
    t: WindowTarget,
    sw: Switch,
)
    requires
        actionable(t),
    ensures
        ({
            let e = entry_or_fresh(m, t);
            let n = after_switch(m, t, sw)[t.hwnd_val];
            &&& after_switch(m, t, sw).dom() == m.dom().insert(t.hwnd_val)
            &&& forall|k: isize|
                k != t.hwnd_val && m.dom().contains(k) ==> #[trigger] after_switch(m, t, sw)[k]
                    == m[k]
            &&& n.current_alpha == e.current_alpha
            &&& n.original_ex_style == e.original_ex_style
            &&& n.original_is_topmost == e.original_is_topmost
            &&& n.title == e.title
            &&& n.user_pref_topmost == (if sw == Switch::Topmost {
                !e.user_pref_topmost
            } else {
                e.user_pref_topmost
            })
            &&& n.mouse_passthrough == (if sw == Switch::MousePassthrough {
                !e.mouse_passthrough
            } else {
                e.mouse_passthrough
            })
            &&& n.pen_passthrough == (if sw == Switch::PenPassthrough {
                !e.pen_passthrough
            } else {
                e.pen_passthrough
            })
        }),
{
    assert(after_switch(m, t, sw).dom() =~= m.dom().insert(t.hwnd_val));
}

/// A control-panel change to a managed window sets each setting it carries
/// to the value it carries and leaves every other setting, the remembered
/// style, the title and every other window as they were; a change to an
/// unmanaged window changes nothing.
pub proof fn law_panel_change_sets_what_it_carries(m: Map<isize, WindowState>, c: PendingChange)
    ensures
        !m.dom().contains(c.hwnd_val) ==> after_change(m, c) == m,
        m.dom().contains(c.hwnd_val) ==> ({
            let o = m[c.hwnd_val];
            let n = after_change(m, c)[c.hwnd_val];
            &&& after_change(m, c).dom() == m.dom()
            &&& forall|k: isize|
                k != c.hwnd_val && m.dom().contains(k) ==> #[trigger] after_change(m, c)[k] == m[k]
            &&& (c.alpha matches Some(a) ==> n.current_alpha == a)
            &&& (c.alpha is None ==> n.current_alpha == o.current_alpha)
            &&& (c.topmost matches Some(v) ==> n.user_pref_topmost == v)
            &&& (c.topmost is None ==> n.user_pref_topmost == o.user_pref_topmost)
            &&& (c.mouse_passthrough matches Some(v) ==> n.mouse_passthrough == v)
            &&& (c.mouse_passthrough is None ==> n.mouse_passthrough == o.mouse_passthrough)
            &&& (c.pen_passthrough matches Some(v) ==> n.pen_passthrough == v)
            &&& (c.pen_passthrough is None ==> n.pen_passthrough == o.pen_passthrough)
            &&& n.original_ex_style == o.original_ex_style
            &&& n.original_is_topmost == o.original_is_topmost
            &&& n.title == o.title
        }),
{
    if m.dom().contains(c.hwnd_val) {
        assert(after_change(m, c).dom() =~= m.dom());
    }
}

/// Adjusting opacity moves it by `delta`, stopping at `MIN_ALPHA` and
/// `MAX_ALPHA`, and changes no other setting of the window and no other window.
pub proof fn law_adjust_moves_only_opacity(m: Map<isize, WindowState>, t: WindowTarget, delta: int)
    requires
        actionable(t),
    ensures
        ({
            let e = entry_or_fresh(m, t);
            let n = after_adjust(m, t, delta)[t.hwnd_val];
            let want = e.current_alpha + delta;
            &&& after_adjust(m, t, delta).dom() == m.dom().insert(t.hwnd_val)
            &&& forall|k: isize|
                k != t.hwnd_val && m.dom().contains(k) ==> #[trigger] after_adjust(m, t, delta)[k]
                    == m[k]
            &&& (want < 30 ==> n.current_alpha == 30)
            &&& (want > 255 ==> n.current_alpha == 255)
            &&& (30 <= want <= 255 ==> n.current_alpha == want)
            &&& n.user_pref_topmost == e.user_pref_topmost
            &&& n.mouse_passthrough == e.mouse_passthrough
            &&& n.pen_passthrough == e.pen_passthrough
            &&& n.original_ex_style == e.original_ex_style
            &&& n.original_is_topmost == e.original_is_topmost
            &&& n.title == e.title
        }),
{
    assert(after_adjust(m, t, delta).dom() =~= m.dom().insert(t.hwnd_val));
}

} // verus!
