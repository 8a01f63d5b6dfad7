//! The hotkey and mouse-button configuration: its default, the parsers of
//! its textual fields, the hotkey registrations it asks for, and the
//! commands that hotkeys, mouse buttons and tray menu entries stand for.
use vstd::prelude::*;
use crate::text::{
    same_text, split_on, split_pieces, trim, trimmed, to_lowercase, to_uppercase,
    unicode_lowercase, unicode_uppercase,
};

verus! {

/// Opacity step of one "more/less transparent" command.
pub const ALPHA_STEP: i32 = 25;

/// `MOD_ALT`
pub const MOD_ALT: u32 = 0x0001;
/// `MOD_CONTROL`
pub const MOD_CONTROL: u32 = 0x0002;
/// `MOD_SHIFT`
pub const MOD_SHIFT: u32 = 0x0004;
/// `MOD_WIN`
pub const MOD_WIN: u32 = 0x0008;

/// What an extra mouse button (X1 or X2) is bound to.
#[derive(Clone, Copy, Debug, PartialEq, Eq, Structural)]
pub enum MouseAction {
    Unbound,
    Increase,
    Decrease,
    ToggleTopmost,
    ToggleClickThrough,
    TogglePenPassthrough,
    ResetCurrent,
    ResetAll,
    Update,
}

/// The actions of the two extra mouse buttons.
#[derive(Clone, Copy, Debug, PartialEq, Eq, Structural)]
pub struct MouseBindings {
    pub xbutton1: MouseAction,
    pub xbutton2: MouseAction,
}

impl Default for MouseBindings {
    /// X1 makes the foreground window more transparent, X2 more opaque.
    fn default() -> (r: Self)
        ensures
            r.xbutton1 == MouseAction::Decrease,
            r.xbutton2 == MouseAction::Increase,
    {
        MouseBindings { xbutton1: MouseAction::Decrease, xbutton2: MouseAction::Increase }
    }
}

/// A hotkey as written in the configuration: modifier names joined by `+`,
/// and a key name.
#[derive(Clone, Debug)]
pub struct HotkeySpec {
    pub modifiers: String,
    pub key: String,
}

/// The keyword each extra mouse button is bound to, if any.
#[derive(Clone, Debug)]
pub struct MouseBindingsSpec {
    pub xbutton1: Option<String>,
    pub xbutton2: Option<String>,
}

/// The whole configuration file.
#[derive(Clone, Debug)]
pub struct HotkeyConfig {
    pub increase: HotkeySpec,
    pub decrease: HotkeySpec,
    pub toggle_top: HotkeySpec,
    pub toggle_click_through: Option<HotkeySpec>,
    pub toggle_pen_passthrough: Option<HotkeySpec>,
    pub reset_current: HotkeySpec,
    pub reset_all: HotkeySpec,
    pub update: HotkeySpec,
    pub reload: Option<HotkeySpec>,
    pub mouse: Option<MouseBindingsSpec>,
}

/// A hotkey spec reads `modifiers` + `key`.
pub open spec fn spec_is(s: HotkeySpec, modifiers: Seq<char>, key: Seq<char>) -> bool {
    s.modifiers@ == modifiers && s.key@ == key
}

fn hotkey_spec(modifiers: &str, key: &str) -> (r: HotkeySpec)
    ensures
        spec_is(r, modifiers@, key@),
{
    HotkeySpec { modifiers: String::from_str(modifiers), key: String::from_str(key) }
}

/// The configuration written when none can be read: Alt+Z/X for opacity,
/// Alt+T topmost, Alt+P and Alt+Shift+P pass-through, Alt+R and Alt+Shift+R
/// restore, Alt+U update, Alt+Shift+C reload, X1/X2 decrease/increase.
pub fn default_config() -> (r: HotkeyConfig)
    ensures
        spec_is(r.increase, "ALT"@, "Z"@),
        spec_is(r.decrease, "ALT"@, "X"@),
        spec_is(r.toggle_top, "ALT"@, "T"@),
        r.toggle_click_through matches Some(s) && spec_is(s, "ALT"@, "P"@),
        r.toggle_pen_passthrough matches Some(s) && spec_is(s, "ALT+SHIFT"@, "P"@),
        spec_is(r.reset_current, "ALT"@, "R"@),
        spec_is(r.reset_all, "ALT+SHIFT"@, "R"@),
        spec_is(r.update, "ALT"@, "U"@),
        r.reload matches Some(s) && spec_is(s, "ALT+SHIFT"@, "C"@),
        r.mouse is Some,
        r.mouse->0.xbutton1 matches Some(a) && a@ == "decrease"@,
        r.mouse->0.xbutton2 matches Some(b) && b@ == "increase"@,
{
    HotkeyConfig {
        increase: hotkey_spec("ALT", "Z"),
        decrease: hotkey_spec("ALT", "X"),
        toggle_top: hotkey_spec("ALT", "T"),
        toggle_click_through: Some(hotkey_spec("ALT", "P")),
        toggle_pen_passthrough: Some(hotkey_spec("ALT+SHIFT", "P")),
        reset_current: hotkey_spec("ALT", "R"),
        reset_all: hotkey_spec("ALT+SHIFT", "R"),
        update: hotkey_spec("ALT", "U"),
        reload: Some(hotkey_spec("ALT+SHIFT", "C")),
        mouse: Some(
            MouseBindingsSpec {
                xbutton1: Some(String::from_str("decrease")),
                xbutton2: Some(String::from_str("increase")),
            },
        ),
    }
}

/// The action a lower-case keyword names.
pub open spec fn mouse_action_for(k: Seq<char>) -> MouseAction {
    if k == "increase"@ || k == "inc"@ || k == "up"@ {
        MouseAction::Increase
    } else if k == "decrease"@ || k == "dec"@ || k == "down"@ {
        MouseAction::Decrease
    } else if k == "toggle_topmost"@ || k == "topmost"@ || k == "toggle_top"@ {
        MouseAction::ToggleTopmost
    } else if k == "toggle_click_through"@ || k == "toggle_mouse_passthrough"@ || k
        == "click_through"@ || k == "toggle_click"@ {
        MouseAction::ToggleClickThrough
    } else if k == "toggle_pen_passthrough"@ || k == "pen_passthrough"@ {
        MouseAction::TogglePenPassthrough
    } else if k == "reset_current"@ || k == "reset"@ {
        MouseAction::ResetCurrent
    } else if k == "reset_all"@ {
        MouseAction::ResetAll
    } else if k == "update"@ {
        MouseAction::Update
    } else {
        MouseAction::Unbound
    }
}

/// The action a configuration keyword names: the keyword trimmed and
/// lower-cased, then looked up.
pub open spec fn parsed_mouse_action(s: Seq<char>) -> MouseAction {
    mouse_action_for(unicode_lowercase(trimmed(s)))
}

/// Looks up an already trimmed, lower-case action keyword; an unknown one is `None`.
pub fn mouse_action_for_keyword(k: &str) -> (r: MouseAction)
    ensures
        r == mouse_action_for(k@),
{
    if same_text(k, "increase") || same_text(k, "inc") || same_text(k, "up") {
        MouseAction::Increase
    } else if same_text(k, "decrease") || same_text(k, "dec") || same_text(k, "down") {
        MouseAction::Decrease
    } else if same_text(k, "toggle_topmost") || same_text(k, "topmost") || same_text(
        k,
        "toggle_top",
    ) {
        MouseAction::ToggleTopmost
    } else if same_text(k, "toggle_click_through") || same_text(k, "toggle_mouse_passthrough")
        || same_text(k, "click_through") || same_text(k, "toggle_click") {
        MouseAction::ToggleClickThrough
    } else if same_text(k, "toggle_pen_passthrough") || same_text(k, "pen_passthrough") {
        MouseAction::TogglePenPassthrough
    } else if same_text(k, "reset_current") || same_text(k, "reset") {
        MouseAction::ResetCurrent
    } else if same_text(k, "reset_all") {
        MouseAction::ResetAll
    } else if same_text(k, "update") {
        MouseAction::Update
    } else {
        MouseAction::Unbound
    }
}

/// Parses an action keyword of the configuration, ignoring surrounding
/// whitespace and case; an unknown keyword gives `MouseAction::Unbound`.
pub fn parse_mouse_action(s: &str) -> (r: MouseAction)
    ensures
        r == parsed_mouse_action(s@),
{
    let t = trim(s);
    let lower = to_lowercase(t);
    mouse_action_for_keyword(lower.as_str())
}

/// The action bound to one extra button: the parsed keyword when given,
/// otherwise the default.
pub open spec fn bound_action(keyword: Option<String>, default: MouseAction) -> MouseAction {
    match keyword {
        Some(s) => parsed_mouse_action(s@),
        None => default,
    }
}

/// The mouse bindings a configuration asks for; missing entries keep the defaults.
pub fn mouse_bindings_from_config(cfg: &HotkeyConfig) -> (r: MouseBindings)
    ensures
        r.xbutton1 == (match cfg.mouse {
            Some(m) => bound_action(m.xbutton1, MouseAction::Decrease),
            None => MouseAction::Decrease,
        }),
        r.xbutton2 == (match cfg.mouse {
            Some(m) => bound_action(m.xbutton2, MouseAction::Increase),
            None => MouseAction::Increase,
        }),
{
    let mut b = MouseBindings::default();
    if let Some(spec) = cfg.mouse.as_ref() {
        if let Some(s) = spec.xbutton1.as_ref() {
            b.xbutton1 = parse_mouse_action(s.as_str());
        }
        if let Some(s) = spec.xbutton2.as_ref() {
            b.xbutton2 = parse_mouse_action(s.as_str());
        }
    }
    b
}

/// The modifier flag an upper-case modifier name stands for (0 for an unknown name).
pub open spec fn modifier_bit(k: Seq<char>) -> u32 {
    if k == "ALT"@ {
        MOD_ALT
    } else if k == "CTRL"@ || k == "CONTROL"@ {
        MOD_CONTROL
    } else if k == "SHIFT"@ {
        MOD_SHIFT
    } else if k == "WIN"@ || k == "WINDOWS"@ {
        MOD_WIN
    } else {
        0
    }
}

/// The flag one `+`-separated piece contributes: trimmed, upper-cased, looked up.
pub open spec fn piece_modifier(p: Seq<char>) -> u32 {
    modifier_bit(unicode_uppercase(trimmed(p)))
}

/// The union of the flags of the pieces.
pub open spec fn modifier_flags(pieces: Seq<Seq<char>>) -> u32
    decreases pieces.len(),
{
    if pieces.len() == 0 {
        0
    } else {
        modifier_flags(pieces.drop_last()) | piece_modifier(pieces.last())
    }
}

/// The modifier flags a text such as `"ALT+SHIFT"` denotes.
pub open spec fn parsed_modifiers(s: Seq<char>) -> u32 {
    modifier_flags(split_pieces(s, '+'))
}

/// Looks up an already trimmed, upper-case modifier name.
pub fn modifier_bit_for_keyword(k: &str) -> (r: u32)
    ensures
        r == modifier_bit(k@),
{
    if same_text(k, "ALT") {
        MOD_ALT
    } else if same_text(k, "CTRL") || same_text(k, "CONTROL") {
        MOD_CONTROL
    } else if same_text(k, "SHIFT") {
        MOD_SHIFT
    } else if same_text(k, "WIN") || same_text(k, "WINDOWS") {
        MOD_WIN
    } else {
        0
    }
}

/// Parses `+`-separated modifier names (`ALT`, `CTRL`/`CONTROL`, `SHIFT`,
/// `WIN`/`WINDOWS`, any case, surrounding whitespace ignored) into
/// `RegisterHotKey` modifier flags; unknown names add nothing.
pub fn parse_modifiers(s: &str) -> (r: u32)
    ensures
        r == parsed_modifiers(s@),
{
    let parts = split_on(s, '+');
    let ghost pieces = split_pieces(s@, '+');
    let mut m: u32 = 0;
    let mut i: usize = 0;
    assert(pieces.take(0) =~= Seq::<Seq<char>>::empty());
    while i < parts.len()
        invariant
            parts@.len() == pieces.len(),
            forall|t: int| 0 <= t < parts@.len() ==> #[trigger] parts@[t]@ == pieces[t],
            pieces == split_pieces(s@, '+'),
            i <= parts@.len(),
            m == modifier_flags(pieces.take(i as int)),
        decreases parts@.len() - i,
    {
        let t = trim(parts[i]);
        let up = to_uppercase(t);
        let bit = modifier_bit_for_keyword(up.as_str());
        assert(parts@[i as int]@ == pieces[i as int]);
        assert(pieces.take(i + 1).drop_last() =~= pieces.take(i as int));
        m = m | bit;
        i = i + 1;
    }
    assert(pieces.take(parts@.len() as int) =~= pieces);
    m
}

/// An ASCII letter or digit.
pub open spec fn is_ascii_alnum(c: char) -> bool {
    let v = c as u32;
    (0x30 <= v <= 0x39) || (0x41 <= v <= 0x5A) || (0x61 <= v <= 0x7A)
}

/// The virtual-key code an upper-case key name stands for: a single ASCII
/// letter or digit is its own code, `F1`..`F12` are `0x70`..`0x7B`, anything
/// else is 0 (no key).
pub open spec fn virtual_key_for(up: Seq<char>) -> u32 {
    if up.len() == 1 && is_ascii_alnum(up[0]) {
        up[0] as u32
    } else if up == "F1"@ {
        0x70
    } else if up == "F2"@ {
        0x71
    } else if up == "F3"@ {
        0x72
    } else if up == "F4"@ {
        0x73
    } else if up == "F5"@ {
        0x74
    } else if up == "F6"@ {
        0x75
    } else if up == "F7"@ {
        0x76
    } else if up == "F8"@ {
        0x77
    } else if up == "F9"@ {
        0x78
    } else if up == "F10"@ {
        0x79
    } else if up == "F11"@ {
        0x7A
    } else if up == "F12"@ {
        0x7B
    } else {
        0
    }
}

/// The virtual-key code a key name of the configuration denotes.
pub open spec fn parsed_virtual_key(s: Seq<char>) -> u32 {
    virtual_key_for(unicode_uppercase(trimmed(s)))
}

/// Looks up an already trimmed, upper-case key name.
pub fn virtual_key_for_keyword(up: &str) -> (r: u32)
    ensures
        r == virtual_key_for(up@),
{
    if up.unicode_len() == 1 {
        let ch = up.get_char(0);
        let v = ch as u32;
        if (0x30 <= v && v <= 0x39) || (0x41 <= v && v <= 0x5A) || (0x61 <= v && v <= 0x7A) {
            return v;
        }
    }
    if same_text(up, "F1") {
        0x70
    } else if same_text(up, "F2") {
        0x71
    } else if same_text(up, "F3") {
        0x72
    } else if same_text(up, "F4") {
        0x73
    } else if same_text(up, "F5") {
        0x74
    } else if same_text(up, "F6") {
        0x75
    } else if same_text(up, "F7") {
        0x76
    } else if same_text(up, "F8") {
        0x77
    } else if same_text(up, "F9") {
        0x78
    } else if same_text(up, "F10") {
        0x79
    } else if same_text(up, "F11") {
        0x7A
    } else if same_text(up, "F12") {
        0x7B
    } else {
        0
    }
}

/// Parses a key name (any case, surrounding whitespace ignored) into a
/// virtual-key code; 0 when it names no supported key.
pub fn parse_vk(s: &str) -> (r: u32)
    ensures
        r == parsed_virtual_key(s@),
{
    let t = trim(s);
    let up = to_uppercase(t);
    virtual_key_for_keyword(up.as_str())
}

/// A hotkey to hand to `RegisterHotKey`.
#[derive(Clone, Copy, Debug, PartialEq, Eq, Structural)]
pub struct HotkeyRegistration {
    pub id: i32,
    pub modifiers: u32,
    pub vk: u32,
}

/// The registration a hotkey spec asks for: none when its key is unknown.
pub open spec fn registration_of(id: i32, modifiers: Seq<char>, key: Seq<char>) -> Option<
    HotkeyRegistration,
> {
    if parsed_virtual_key(key) == 0 {
        None
    } else {
        Some(
            HotkeyRegistration {
                id,
                modifiers: parsed_modifiers(modifiers),
                vk: parsed_virtual_key(key),
            },
        )
    }
}

/// Decides whether hotkey `id` is registered for the given spec, and with
/// which modifier flags and key: a spec whose key is unknown is skipped.
pub fn try_register_hotkey(id: i32, modifiers: &str, key: &str) -> (r: Option<HotkeyRegistration>)
    ensures
        r == registration_of(id, modifiers@, key@),
{
    let mods = parse_modifiers(modifiers);
    let vk = parse_vk(key);
    if vk != 0 {
        Some(HotkeyRegistration { id, modifiers: mods, vk })
    } else {
        None
    }
}

/// A possibly absent registration as a sequence of at most one.
pub open spec fn present(r: Option<HotkeyRegistration>) -> Seq<HotkeyRegistration> {
    match r {
        Some(x) => seq![x],
        None => Seq::empty(),
    }
}

/// The registration of an optional spec, falling back to the given default text.
pub open spec fn optional_registration(
    id: i32,
    spec: Option<HotkeySpec>,
    modifiers: Seq<char>,
    key: Seq<char>,
) -> Option<HotkeyRegistration> {
    match spec {
        Some(s) => registration_of(id, s.modifiers@, s.key@),
        None => registration_of(id, modifiers, key),
    }
}

/// The hotkeys a configuration registers, in id order 1..=9: increase,
/// decrease, topmost, mouse pass-through (default Alt+P), pen pass-through
/// (default Alt+Shift+P), restore current, restore all, update, reload
/// (default Alt+Shift+C); specs with an unknown key are left out.
pub open spec fn planned_registrations(cfg: HotkeyConfig) -> Seq<HotkeyRegistration> {
    present(registration_of(1, cfg.increase.modifiers@, cfg.increase.key@)) + present(
        registration_of(2, cfg.decrease.modifiers@, cfg.decrease.key@),
    ) + present(registration_of(3, cfg.toggle_top.modifiers@, cfg.toggle_top.key@)) + present(
        optional_registration(4, cfg.toggle_click_through, "ALT"@, "P"@),
    ) + present(optional_registration(5, cfg.toggle_pen_passthrough, "ALT+SHIFT"@, "P"@))
        + present(registration_of(6, cfg.reset_current.modifiers@, cfg.reset_current.key@))
        + present(registration_of(7, cfg.reset_all.modifiers@, cfg.reset_all.key@)) + present(
        registration_of(8, cfg.update.modifiers@, cfg.update.key@),
    ) + present(optional_registration(9, cfg.reload, "ALT+SHIFT"@, "C"@))
}

fn push_registration(out: &mut Vec<HotkeyRegistration>, id: i32, modifiers: &str, key: &str)
    ensures
        final(out)@ == old(out)@ + present(registration_of(id, modifiers@, key@)),
{
    if let Some(r) = try_register_hotkey(id, modifiers, key) {
        out.push(r);
    } else {
        assert(old(out)@ + Seq::<HotkeyRegistration>::empty() =~= old(out)@);
    }
}

fn push_optional_registration(
    out: &mut Vec<HotkeyRegistration>,
    id: i32,
    spec: &Option<HotkeySpec>,
    modifiers: &str,
    key: &str,
)
    ensures
        final(out)@ == old(out)@ + present(optional_registration(id, *spec, modifiers@, key@)),
{
    match spec {
        Some(s) => push_registration(out, id, s.modifiers.as_str(), s.key.as_str()),
        None => push_registration(out, id, modifiers, key),
    }
}

/// The hotkeys to register for a configuration, in id order; see
/// `planned_registrations`.
pub fn hotkey_registrations(cfg: &HotkeyConfig) -> (r: Vec<HotkeyRegistration>)
    ensures
        r@ == planned_registrations(*cfg),
{
    let mut out: Vec<HotkeyRegistration> = Vec::new();
    push_registration(&mut out, 1, cfg.increase.modifiers.as_str(), cfg.increase.key.as_str());
    assert(out@ =~= present(registration_of(1, cfg.increase.modifiers@, cfg.increase.key@)));
    push_registration(&mut out, 2, cfg.decrease.modifiers.as_str(), cfg.decrease.key.as_str());
    push_registration(&mut out, 3, cfg.toggle_top.modifiers.as_str(), cfg.toggle_top.key.as_str());
    push_optional_registration(&mut out, 4, &cfg.toggle_click_through, "ALT", "P");
    push_optional_registration(&mut out, 5, &cfg.toggle_pen_passthrough, "ALT+SHIFT", "P");
    push_registration(
        &mut out,
        6,
        cfg.reset_current.modifiers.as_str(),
        cfg.reset_current.key.as_str(),
    );
    push_registration(&mut out, 7, cfg.reset_all.modifiers.as_str(), cfg.reset_all.key.as_str());
    push_registration(&mut out, 8, cfg.update.modifiers.as_str(), cfg.update.key.as_str());
    push_optional_registration(&mut out, 9, &cfg.reload, "ALT+SHIFT", "C");
    out
}

/// Something the user asked for, by hotkey, extra mouse button or tray menu.
#[derive(Clone, Copy, Debug, PartialEq, Eq, Structural)]
pub enum Command {
    /// Change the foreground window's opacity by this many steps of 1/255.
    AdjustTransparency(i32),
    ToggleTopmost,
    ToggleMousePassthrough,
    TogglePenPassthrough,
    RestoreCurrent,
    RestoreAll,
    SelfUpdate,
    ReloadConfig,
}

/// The command of each registered hotkey id.
pub open spec fn hotkey_command_of(id: i32) -> Option<Command> {
    if id == 1 {
        Some(Command::AdjustTransparency((-ALPHA_STEP) as i32))
    } else if id == 2 {
        Some(Command::AdjustTransparency(ALPHA_STEP))
    } else if id == 3 {
        Some(Command::ToggleTopmost)
    } else if id == 4 {
        Some(Command::ToggleMousePassthrough)
    } else if id == 5 {
        Some(Command::TogglePenPassthrough)
    } else if id == 6 {
        Some(Command::RestoreCurrent)
    } else if id == 7 {
        Some(Command::RestoreAll)
    } else if id == 8 {
        Some(Command::SelfUpdate)
    } else if id == 9 {
        Some(Command::ReloadConfig)
    } else {
        None
    }
}

/// The command a `WM_HOTKEY` with this id triggers; `None` for an unknown id.
pub fn hotkey_command(id: i32) -> (r: Option<Command>)
    ensures
        r == hotkey_command_of(id),
{
    if id == 1 {
        Some(Command::AdjustTransparency(-ALPHA_STEP))
    } else if id == 2 {
        Some(Command::AdjustTransparency(ALPHA_STEP))
    } else if id == 3 {
        Some(Command::ToggleTopmost)
    } else if id == 4 {
        Some(Command::ToggleMousePassthrough)
    } else if id == 5 {
        Some(Command::TogglePenPassthrough)
    } else if id == 6 {
        Some(Command::RestoreCurrent)
    } else if id == 7 {
        Some(Command::RestoreAll)
    } else if id == 8 {
        Some(Command::SelfUpdate)
    } else if id == 9 {
        Some(Command::ReloadConfig)
    } else {
        None
    }
}

/// The command an extra-button action stands for.
pub open spec fn mouse_action_command_of(a: MouseAction) -> Option<Command> {
    match a {
        MouseAction::Unbound => None,
        MouseAction::Increase => Some(Command::AdjustTransparency(ALPHA_STEP)),
        MouseAction::Decrease => Some(Command::AdjustTransparency((-ALPHA_STEP) as i32)),
        MouseAction::ToggleTopmost => Some(Command::ToggleTopmost),
        MouseAction::ToggleClickThrough => Some(Command::ToggleMousePassthrough),
        MouseAction::TogglePenPassthrough => Some(Command::TogglePenPassthrough),
        MouseAction::ResetCurrent => Some(Command::RestoreCurrent),
        MouseAction::ResetAll => Some(Command::RestoreAll),
        MouseAction::Update => Some(Command::SelfUpdate),
    }
}

/// The command an extra-button action runs; `None` for an unbound button.
pub fn mouse_action_command(a: MouseAction) -> (r: Option<Command>)
    ensures
        r == mouse_action_command_of(a),
{
    match a {
        MouseAction::Unbound => None,
        MouseAction::Increase => Some(Command::AdjustTransparency(ALPHA_STEP)),
        MouseAction::Decrease => Some(Command::AdjustTransparency(-ALPHA_STEP)),
        MouseAction::ToggleTopmost => Some(Command::ToggleTopmost),
        MouseAction::ToggleClickThrough => Some(Command::ToggleMousePassthrough),
        MouseAction::TogglePenPassthrough => Some(Command::TogglePenPassthrough),
        MouseAction::ResetCurrent => Some(Command::RestoreCurrent),
        MouseAction::ResetAll => Some(Command::RestoreAll),
        MouseAction::Update => Some(Command::SelfUpdate),
    }
}

/// What a tray menu entry asks for.
#[derive(Clone, Copy, Debug, PartialEq, Eq, Structural)]
pub enum MenuCommand {
    Show,
    RestoreAll,
    Exit,
    Ignore,
}

/// The command of a tray menu entry id: `show`, `reset_all`, `exit`; any
/// other id is ignored.
pub fn menu_command(id: &str) -> (r: MenuCommand)
    ensures
        r == (if id@ == "show"@ {
            MenuCommand::Show
        } else if id@ == "reset_all"@ {
            MenuCommand::RestoreAll
        } else if id@ == "exit"@ {
            MenuCommand::Exit
        } else {
            MenuCommand::Ignore
        }),
{
    if same_text(id, "show") {
        MenuCommand::Show
    } else if same_text(id, "reset_all") {
        MenuCommand::RestoreAll
    } else if same_text(id, "exit") {
        MenuCommand::Exit
    } else {
        MenuCommand::Ignore
    }
}

/// Registrations with strictly increasing ids, all in `1..=bound`.
pub open spec fn ids_ordered_within(s: Seq<HotkeyRegistration>, bound: int) -> bool {
    &&& forall|i: int, j: int| 0 <= i < j < s.len() ==> s[i].id < s[j].id
    &&& forall|i: int| 0 <= i < s.len() ==> 1 <= #[trigger] s[i].id <= bound
}

proof fn lemma_append_registration(a: Seq<HotkeyRegistration>, id: i32, o: Option<HotkeyRegistration>)
    requires
        1 <= id,
        ids_ordered_within(a, id - 1),
        o matches Some(r) ==> r.id == id,
    ensures
        ids_ordered_within(a + present(o), id as int),
{
}

/// The hotkeys a configuration registers have distinct ids, in increasing
/// order, each from 1 to 9, and every one of them triggers a command.
pub proof fn law_registrations_are_ordered(cfg: HotkeyConfig)
    ensures
        ids_ordered_within(planned_registrations(cfg), 9),
        forall|i: int|
            0 <= i < planned_registrations(cfg).len() ==> #[trigger] hotkey_command_of(
                planned_registrations(cfg)[i].id,
            ) is Some,
{
    let e = Seq::<HotkeyRegistration>::empty();
    let s1 = present(registration_of(1, cfg.increase.modifiers@, cfg.increase.key@));
    assert(e + s1 =~= s1);
    lemma_append_registration(e, 1, registration_of(1, cfg.increase.modifiers@, cfg.increase.key@));
    let s2 = s1 + present(registration_of(2, cfg.decrease.modifiers@, cfg.decrease.key@));
    lemma_append_registration(s1, 2, registration_of(2, cfg.decrease.modifiers@, cfg.decrease.key@));
    let s3 = s2 + present(registration_of(3, cfg.toggle_top.modifiers@, cfg.toggle_top.key@));
    lemma_append_registration(s2, 3, registration_of(3, cfg.toggle_top.modifiers@, cfg.toggle_top.key@));
    let o4 = optional_registration(4, cfg.toggle_click_through, "ALT"@, "P"@);
    let s4 = s3 + present(o4);
    lemma_append_registration(s3, 4, o4);
    let o5 = optional_registration(5, cfg.toggle_pen_passthrough, "ALT+SHIFT"@, "P"@);
    let s5 = s4 + present(o5);
    lemma_append_registration(s4, 5, o5);
    let o6 = registration_of(6, cfg.reset_current.modifiers@, cfg.reset_current.key@);
    let s6 = s5 + present(o6);
    lemma_append_registration(s5, 6, o6);
    let o7 = registration_of(7, cfg.reset_all.modifiers@, cfg.reset_all.key@);
    let s7 = s6 + present(o7);
    lemma_append_registration(s6, 7, o7);
    let o8 = registration_of(8, cfg.update.modifiers@, cfg.update.key@);
    let s8 = s7 + present(o8);
    lemma_append_registration(s7, 8, o8);
    let o9 = optional_registration(9, cfg.reload, "ALT+SHIFT"@, "C"@);
    let s9 = s8 + present(o9);
    lemma_append_registration(s8, 9, o9);
    assert(s9 == planned_registrations(cfg));
}

/// The decimal digit `d` (0..=9) as a character.
pub open spec fn digit_char(d: int) -> char {
    ((48 + d) as u32) as char
}

/// The name of function key `n` (1..=12): `F` followed by `n` in decimal.
pub open spec fn function_key_name(n: int) -> Seq<char> {
    if n < 10 {
        seq!['F', digit_char(n)]
    } else {
        seq!['F', '1', digit_char(n - 10)]
    }
}

/// Key names: `F1`..`F12` are the consecutive codes `VK_F1` (0x70) to
/// `VK_F12` (0x7B), so distinct function keys get distinct codes; a single
/// ASCII letter or digit is its own code; any other single character names
/// no key.
pub proof fn law_key_names(n: int, c: char)
    requires
        1 <= n <= 12,
    ensures
        virtual_key_for(function_key_name(n)) == 0x70 + n - 1,
        virtual_key_for(seq![c]) == (if ('0' <= c <= '9') || ('A' <= c <= 'Z') || ('a' <= c
            <= 'z') {
            c as u32
        } else {
            0
        }),
{
    reveal_strlit("F1");
    reveal_strlit("F2");
    reveal_strlit("F3");
    reveal_strlit("F4");
    reveal_strlit("F5");
    reveal_strlit("F6");
    reveal_strlit("F7");
    reveal_strlit("F8");
    reveal_strlit("F9");
    reveal_strlit("F10");
    reveal_strlit("F11");
    reveal_strlit("F12");
        if n == 1 {
            reveal_strlit("F1");
            assert(function_key_name(n) =~= "F1"@);
        }
        if n == 2 {
            reveal_strlit("F2");
            assert(function_key_name(n) =~= "F2"@);
        }
        if n == 3 {
            reveal_strlit("F3");
            assert(function_key_name(n) =~= "F3"@);
        }
        if n == 4 {
            reveal_strlit("F4");
            assert(function_key_name(n) =~= "F4"@);
        }
        if n == 5 {
            reveal_strlit("F5");
            assert(function_key_name(n) =~= "F5"@);
        }
        if n == 6 {
            reveal_strlit("F6");
            assert(function_key_name(n) =~= "F6"@);
        }
        if n == 7 {
            reveal_strlit("F7");
            assert(function_key_name(n) =~= "F7"@);
        }
        if n == 8 {
            reveal_strlit("F8");
            assert(function_key_name(n) =~= "F8"@);
        }
        if n == 9 {
            reveal_strlit("F9");
            assert(function_key_name(n) =~= "F9"@);
        }
        if n == 10 {
            reveal_strlit("F10");
            assert(function_key_name(n) =~= "F10"@);
        }
        if n == 11 {
            reveal_strlit("F11");
            assert(function_key_name(n) =~= "F11"@);
        }
        if n == 12 {
            reveal_strlit("F12");
            assert(function_key_name(n) =~= "F12"@);
        }
}

/// The hotkey ids and the extra-button actions agree on what they do:
/// - hotkeys 1..=9 trigger nine different commands, and no other id triggers one;
/// - an unbound button runs nothing, and different bound actions run
///   different commands;
/// - each bound action runs the command of the hotkey of the same name:
///   Decrease = hotkey 1, Increase = 2, ToggleTopmost = 3,
///   ToggleClickThrough = 4, TogglePenPassthrough = 5, ResetCurrent = 6,
///   ResetAll = 7, Update = 8;
/// - "increase" raises opacity and "decrease" lowers it, by the same step.
pub proof fn law_commands_agree(a: MouseAction, a2: MouseAction, id: i32, id2: i32)
    ensures
        (1 <= id <= 9) <==> hotkey_command_of(id) is Some,
        1 <= id <= 9 && 1 <= id2 <= 9 && id != id2 ==> hotkey_command_of(id) != hotkey_command_of(
            id2,
        ),
        mouse_action_command_of(a) is None <==> a == MouseAction::Unbound,
        a != MouseAction::Unbound && a2 != MouseAction::Unbound && a != a2
            ==> mouse_action_command_of(a) != mouse_action_command_of(a2),
        mouse_action_command_of(MouseAction::Decrease) == hotkey_command_of(1),
        mouse_action_command_of(MouseAction::Increase) == hotkey_command_of(2),
        mouse_action_command_of(MouseAction::ToggleTopmost) == hotkey_command_of(3),
        mouse_action_command_of(MouseAction::ToggleClickThrough) == hotkey_command_of(4),
        mouse_action_command_of(MouseAction::TogglePenPassthrough) == hotkey_command_of(5),
        mouse_action_command_of(MouseAction::ResetCurrent) == hotkey_command_of(6),
        mouse_action_command_of(MouseAction::ResetAll) == hotkey_command_of(7),
        mouse_action_command_of(MouseAction::Update) == hotkey_command_of(8),
        hotkey_command_of(6) == Some(Command::RestoreCurrent),
        hotkey_command_of(7) == Some(Command::RestoreAll),
        hotkey_command_of(3) == Some(Command::ToggleTopmost),
        hotkey_command_of(4) == Some(Command::ToggleMousePassthrough),
        hotkey_command_of(5) == Some(Command::TogglePenPassthrough),
        hotkey_command_of(8) == Some(Command::SelfUpdate),
        hotkey_command_of(9) == Some(Command::ReloadConfig),
        mouse_action_command_of(MouseAction::Increase) matches Some(Command::AdjustTransparency(up))
            && mouse_action_command_of(MouseAction::Decrease) matches Some(
            Command::AdjustTransparency(down),
        ) && up > 0 && down == -up,
{
}

/// Modifier names: `ALT`, `CTRL` or `CONTROL`, `SHIFT`, `WIN` or `WINDOWS`
/// name the four distinct `RegisterHotKey` modifier flags 1, 2, 4, 8;
/// lower-case or unknown names name none.
pub proof fn law_modifier_names()
    ensures
        modifier_bit("ALT"@) == 1,
        modifier_bit("CTRL"@) == 2,
        modifier_bit("CONTROL"@) == 2,
        modifier_bit("SHIFT"@) == 4,
        modifier_bit("WIN"@) == 8,
        modifier_bit("WINDOWS"@) == 8,
        modifier_bit("alt"@) == 0,
        modifier_bit(Seq::<char>::empty()) == 0,
{
    reveal_strlit("ALT");
    reveal_strlit("CTRL");
    reveal_strlit("CONTROL");
    reveal_strlit("SHIFT");
    reveal_strlit("WIN");
    reveal_strlit("WINDOWS");
    reveal_strlit("alt");
    assert("ALT"@.len() == 3 && "CTRL"@.len() == 4 && "CONTROL"@.len() == 7 && "SHIFT"@.len() == 5
        && "WIN"@.len() == 3 && "WINDOWS"@.len() == 7 && "alt"@.len() == 3);
    assert("ALT"@[0] == 'A' && "WIN"@[0] == 'W' && "alt"@[0] == 'a' && "CONTROL"@[0] == 'C'
        && "WINDOWS"@[0] == 'W' && "CONTROL"@[1] == 'O' && "WINDOWS"@[1] == 'I');
    assert("CTRL"@ != "ALT"@);
    assert("CONTROL"@ != "ALT"@ && "CONTROL"@ != "CTRL"@);
    assert("SHIFT"@ != "ALT"@ && "SHIFT"@ != "CTRL"@ && "SHIFT"@ != "CONTROL"@);
    assert("WIN"@ != "ALT"@ && "WIN"@ != "CTRL"@ && "WIN"@ != "CONTROL"@ && "WIN"@ != "SHIFT"@);
    assert("WINDOWS"@ != "ALT"@ && "WINDOWS"@ != "CTRL"@ && "WINDOWS"@ != "CONTROL"@
        && "WINDOWS"@ != "SHIFT"@ && "WINDOWS"@ != "WIN"@);
    assert("alt"@ != "ALT"@ && "alt"@ != "CTRL"@ && "alt"@ != "CONTROL"@ && "alt"@ != "SHIFT"@
        && "alt"@ != "WIN"@ && "alt"@ != "WINDOWS"@);
}

/// Extra-button keywords (already trimmed and lower-cased): `increase`,
/// `inc`, `up` raise opacity; `decrease`, `dec`, `down` lower it;
/// `toggle_topmost`, `topmost`, `toggle_top` switch topmost;
/// `toggle_click_through`, `toggle_mouse_passthrough`, `click_through`,
/// `toggle_click` switch mouse pass-through; `toggle_pen_passthrough`,
/// `pen_passthrough` switch pen pass-through; `reset_current`, `reset`
/// restore the window; `reset_all` restores all; `update` updates; upper
/// case is not a keyword.
pub proof fn law_action_keywords()
    ensures
        mouse_action_for("increase"@) == MouseAction::Increase,
        mouse_action_for("inc"@) == MouseAction::Increase,
        mouse_action_for("up"@) == MouseAction::Increase,
        mouse_action_for("decrease"@) == MouseAction::Decrease,
        mouse_action_for("dec"@) == MouseAction::Decrease,
        mouse_action_for("down"@) == MouseAction::Decrease,
        mouse_action_for("toggle_topmost"@) == MouseAction::ToggleTopmost,
        mouse_action_for("topmost"@) == MouseAction::ToggleTopmost,
        mouse_action_for("toggle_top"@) == MouseAction::ToggleTopmost,
        mouse_action_for("toggle_click_through"@) == MouseAction::ToggleClickThrough,
        mouse_action_for("toggle_mouse_passthrough"@) == MouseAction::ToggleClickThrough,
        mouse_action_for("click_through"@) == MouseAction::ToggleClickThrough,
        mouse_action_for("toggle_click"@) == MouseAction::ToggleClickThrough,
        mouse_action_for("toggle_pen_passthrough"@) == MouseAction::TogglePenPassthrough,
        mouse_action_for("pen_passthrough"@) == MouseAction::TogglePenPassthrough,
        mouse_action_for("reset_current"@) == MouseAction::ResetCurrent,
        mouse_action_for("reset"@) == MouseAction::ResetCurrent,
        mouse_action_for("reset_all"@) == MouseAction::ResetAll,
        mouse_action_for("update"@) == MouseAction::Update,
        mouse_action_for("INCREASE"@) == MouseAction::Unbound,
{
    reveal_strlit("increase");
    assert("increase"@.len() == 8);
    reveal_strlit("inc");
    assert("inc"@.len() == 3);
    reveal_strlit("up");
    assert("up"@.len() == 2);
    reveal_strlit("decrease");
    assert("decrease"@.len() == 8);
    reveal_strlit("dec");
    assert("dec"@.len() == 3);
    reveal_strlit("down");
    assert("down"@.len() == 4);
    reveal_strlit("toggle_topmost");
    assert("toggle_topmost"@.len() == 14);
    reveal_strlit("topmost");
    assert("topmost"@.len() == 7);
    reveal_strlit("toggle_top");
    assert("toggle_top"@.len() == 10);
    reveal_strlit("toggle_click_through");
    assert("toggle_click_through"@.len() == 20);
    reveal_strlit("toggle_mouse_passthrough");
    assert("toggle_mouse_passthrough"@.len() == 24);
    reveal_strlit("click_through");
    assert("click_through"@.len() == 13);
    reveal_strlit("toggle_click");
    assert("toggle_click"@.len() == 12);
    reveal_strlit("toggle_pen_passthrough");
    assert("toggle_pen_passthrough"@.len() == 22);
    reveal_strlit("pen_passthrough");
    assert("pen_passthrough"@.len() == 15);
    reveal_strlit("reset_current");
    assert("reset_current"@.len() == 13);
    reveal_strlit("reset");
    assert("reset"@.len() == 5);
    reveal_strlit("reset_all");
    assert("reset_all"@.len() == 9);
    reveal_strlit("update");
    assert("update"@.len() == 6);
    reveal_strlit("INCREASE");
    assert("INCREASE"@.len() == 8);
    assert("decrease"@[0] == 'd' && "increase"@[0] == 'i');
    assert("dec"@[0] == 'd' && "inc"@[0] == 'i');
    assert("reset_current"@[0] == 'r' && "click_through"@[0] == 'c');
    assert("INCREASE"@[0] == 'I' && "increase"@[0] == 'i');
    assert("INCREASE"@[0] == 'I' && "decrease"@[0] == 'd');
}

proof fn lemma_or_facts(a: u32, b: u32, c: u32)
    ensures
        (a | b) & b == b,
        a & c == c ==> (a | b) & c == c,
        a < 16 && b < 16 ==> (a | b) < 16,
        (0u32 | 0u32) == 0,
{
    assert((a | b) & b == b) by (bit_vector);
    assert(a & c == c ==> (a | b) & c == c) by (bit_vector);
    assert(a < 16 && b < 16 ==> (a | b) < 16) by (bit_vector);
    assert((0u32 | 0u32) == 0) by (bit_vector);
}

/// The flags of a modifier text are the union of the flags of its pieces:
/// every piece's flag is included, nothing is set when no piece names a
/// modifier, and only the four modifier bits can be set.
pub proof fn law_modifiers_are_the_union_of_pieces(p: Seq<Seq<char>>)
    ensures
        forall|i: int|
            0 <= i < p.len() ==> modifier_flags(p) & #[trigger] piece_modifier(p[i])
                == piece_modifier(p[i]),
        (forall|i: int| 0 <= i < p.len() ==> #[trigger] piece_modifier(p[i]) == 0)
            ==> modifier_flags(p) == 0,
        modifier_flags(p) < 16,
    decreases p.len(),
{
    if p.len() > 0 {
        let q = p.drop_last();
        law_modifiers_are_the_union_of_pieces(q);
        let a = modifier_flags(q);
        let b = piece_modifier(p.last());
        assert(b < 16);
        lemma_or_facts(a, b, 0);
        assert forall|i: int| 0 <= i < p.len() implies modifier_flags(p) & #[trigger] piece_modifier(
            p[i],
        ) == piece_modifier(p[i]) by {
            if i < q.len() {
                assert(p[i] == q[i]);
                lemma_or_facts(a, b, piece_modifier(q[i]));
            }
        }
        if forall|i: int| 0 <= i < p.len() ==> #[trigger] piece_modifier(p[i]) == 0 {
            assert forall|i: int| 0 <= i < q.len() implies #[trigger] piece_modifier(q[i]) == 0 by {
                assert(p[i] == q[i]);
            }
            assert(piece_modifier(p[p.len() - 1]) == 0);
        }
    }
}

} // verus!
