use transglass::config::{
    default_config, hotkey_command, hotkey_registrations, menu_command, mouse_action_command,
    mouse_action_for_keyword, mouse_bindings_from_config, parse_modifiers, parse_mouse_action,
    parse_vk, try_register_hotkey, virtual_key_for_keyword, modifier_bit_for_keyword, Command,
    HotkeyConfig, HotkeyRegistration, HotkeySpec, MenuCommand, MouseAction, MouseBindings,
    MouseBindingsSpec, MOD_ALT, MOD_CONTROL, MOD_SHIFT, MOD_WIN,
};

fn spec(m: &str, k: &str) -> HotkeySpec {
    HotkeySpec { modifiers: m.to_string(), key: k.to_string() }
}

#[test]
fn mouse_action_keywords() {
    assert_eq!(parse_mouse_action("increase"), MouseAction::Increase);
    assert_eq!(parse_mouse_action("inc"), MouseAction::Increase);
    assert_eq!(parse_mouse_action("up"), MouseAction::Increase);
    assert_eq!(parse_mouse_action("  Decrease\t"), MouseAction::Decrease);
    assert_eq!(parse_mouse_action("DOWN"), MouseAction::Decrease);
    assert_eq!(parse_mouse_action("toggle_top"), MouseAction::ToggleTopmost);
    assert_eq!(parse_mouse_action("TopMost"), MouseAction::ToggleTopmost);
    assert_eq!(parse_mouse_action("toggle_mouse_passthrough"), MouseAction::ToggleClickThrough);
    assert_eq!(parse_mouse_action("click_through"), MouseAction::ToggleClickThrough);
    assert_eq!(parse_mouse_action("pen_passthrough"), MouseAction::TogglePenPassthrough);
    assert_eq!(parse_mouse_action("reset"), MouseAction::ResetCurrent);
    assert_eq!(parse_mouse_action("reset_all"), MouseAction::ResetAll);
    assert_eq!(parse_mouse_action("\u{3000}update\u{3000}"), MouseAction::Update);
    assert_eq!(parse_mouse_action("resetall"), MouseAction::Unbound);
    assert_eq!(parse_mouse_action(""), MouseAction::Unbound);
}

#[test]
fn mouse_action_uses_unicode_lower_case() {
    // KELVIN SIGN lower-cases to 'k'.
    assert_eq!(parse_mouse_action("TOGGLE_CLIC\u{212A}"), MouseAction::ToggleClickThrough);
    assert_eq!(mouse_action_for_keyword("INC"), MouseAction::Unbound);
    assert_eq!(mouse_action_for_keyword("inc"), MouseAction::Increase);
}

#[test]
fn modifiers_parse() {
    assert_eq!(parse_modifiers("ALT"), MOD_ALT);
    assert_eq!(parse_modifiers("ALT+SHIFT"), MOD_ALT | MOD_SHIFT);
    assert_eq!(parse_modifiers(" ctrl + win "), MOD_CONTROL | MOD_WIN);
    assert_eq!(parse_modifiers("Control+Windows+Alt+Shift"), 0xF);
    assert_eq!(parse_modifiers("Hyper+alt"), MOD_ALT);
    assert_eq!(parse_modifiers(""), 0);
    assert_eq!(parse_modifiers("++"), 0);
    assert_eq!(modifier_bit_for_keyword("shift"), 0);
    assert_eq!(modifier_bit_for_keyword("SHIFT"), MOD_SHIFT);
}

#[test]
fn virtual_keys_parse() {
    assert_eq!(parse_vk("z"), 0x5A);
    assert_eq!(parse_vk(" Z "), 0x5A);
    assert_eq!(parse_vk("5"), 0x35);
    assert_eq!(parse_vk("f5"), 0x74);
    assert_eq!(parse_vk("F12"), 0x7B);
    assert_eq!(parse_vk("F13"), 0);
    assert_eq!(parse_vk("%"), 0);
    assert_eq!(parse_vk("é"), 0);
    assert_eq!(parse_vk(""), 0);
    assert_eq!(parse_vk("ZZ"), 0);
    // LATIN SMALL LETTER DOTLESS I upper-cases to 'I'.
    assert_eq!(parse_vk("\u{131}"), 0x49);
    assert_eq!(virtual_key_for_keyword("F1"), 0x70);
    assert_eq!(virtual_key_for_keyword("f1"), 0);
}

#[test]
fn default_configuration() {
    let cfg = default_config();
    assert_eq!(cfg.increase.modifiers, "ALT");
    assert_eq!(cfg.increase.key, "Z");
    assert_eq!(cfg.decrease.key, "X");
    assert_eq!(cfg.toggle_top.key, "T");
    assert_eq!(cfg.toggle_click_through.as_ref().unwrap().key, "P");
    assert_eq!(cfg.toggle_pen_passthrough.as_ref().unwrap().modifiers, "ALT+SHIFT");
    assert_eq!(cfg.reset_current.key, "R");
    assert_eq!(cfg.reset_all.modifiers, "ALT+SHIFT");
    assert_eq!(cfg.update.key, "U");
    assert_eq!(cfg.reload.as_ref().unwrap().key, "C");
    let m = cfg.mouse.as_ref().unwrap();
    assert_eq!(m.xbutton1.as_deref(), Some("decrease"));
    assert_eq!(m.xbutton2.as_deref(), Some("increase"));
    assert_eq!(mouse_bindings_from_config(&cfg), MouseBindings::default());
}

#[test]
fn default_registrations() {
    let regs = hotkey_registrations(&default_config());
    let expected = vec![
        HotkeyRegistration { id: 1, modifiers: MOD_ALT, vk: 'Z' as u32 },
        HotkeyRegistration { id: 2, modifiers: MOD_ALT, vk: 'X' as u32 },
        HotkeyRegistration { id: 3, modifiers: MOD_ALT, vk: 'T' as u32 },
        HotkeyRegistration { id: 4, modifiers: MOD_ALT, vk: 'P' as u32 },
        HotkeyRegistration { id: 5, modifiers: MOD_ALT | MOD_SHIFT, vk: 'P' as u32 },
        HotkeyRegistration { id: 6, modifiers: MOD_ALT, vk: 'R' as u32 },
        HotkeyRegistration { id: 7, modifiers: MOD_ALT | MOD_SHIFT, vk: 'R' as u32 },
        HotkeyRegistration { id: 8, modifiers: MOD_ALT, vk: 'U' as u32 },
        HotkeyRegistration { id: 9, modifiers: MOD_ALT | MOD_SHIFT, vk: 'C' as u32 },
    ];
    assert_eq!(regs, expected);
}

#[test]
fn registrations_skip_unknown_keys_and_fill_defaults() {
    let cfg = HotkeyConfig {
        increase: spec("ctrl", "f1"),
        decrease: spec("ALT", "PageUp"),
        toggle_top: spec("", "t"),
        toggle_click_through: None,
        toggle_pen_passthrough: Some(spec("WIN", "")),
        reset_current: spec("ALT", "R"),
        reset_all: spec("ALT+SHIFT", "R"),
        update: spec("ALT", "U"),
        reload: None,
        mouse: None,
    };
    let regs = hotkey_registrations(&cfg);
    let ids: Vec<i32> = regs.iter().map(|r| r.id).collect();
    assert_eq!(ids, vec![1, 3, 4, 6, 7, 8, 9]);
    assert_eq!(regs[0], HotkeyRegistration { id: 1, modifiers: MOD_CONTROL, vk: 0x70 });
    assert_eq!(regs[1], HotkeyRegistration { id: 3, modifiers: 0, vk: 'T' as u32 });
    assert_eq!(regs[2], HotkeyRegistration { id: 4, modifiers: MOD_ALT, vk: 'P' as u32 });
    assert_eq!(regs[6], HotkeyRegistration { id: 9, modifiers: MOD_ALT | MOD_SHIFT, vk: 'C' as u32 });
    assert_eq!(try_register_hotkey(2, "ALT", "PageUp"), None);
}

#[test]
fn mouse_bindings_from_partial_config() {
    let mut cfg = default_config();
    cfg.mouse = None;
    assert_eq!(mouse_bindings_from_config(&cfg), MouseBindings::default());
    cfg.mouse = Some(MouseBindingsSpec { xbutton1: Some(" Reset_All ".to_string()), xbutton2: None });
    let b = mouse_bindings_from_config(&cfg);
    assert_eq!(b.xbutton1, MouseAction::ResetAll);
    assert_eq!(b.xbutton2, MouseAction::Increase);
    cfg.mouse = Some(MouseBindingsSpec { xbutton1: None, xbutton2: Some("nothing".to_string()) });
    let b = mouse_bindings_from_config(&cfg);
    assert_eq!(b.xbutton1, MouseAction::Decrease);
    assert_eq!(b.xbutton2, MouseAction::Unbound);
}

#[test]
fn commands_of_hotkeys_buttons_and_menu() {
    assert_eq!(hotkey_command(1), Some(Command::AdjustTransparency(-25)));
    assert_eq!(hotkey_command(2), Some(Command::AdjustTransparency(25)));
    assert_eq!(hotkey_command(3), Some(Command::ToggleTopmost));
    assert_eq!(hotkey_command(4), Some(Command::ToggleMousePassthrough));
    assert_eq!(hotkey_command(5), Some(Command::TogglePenPassthrough));
    assert_eq!(hotkey_command(6), Some(Command::RestoreCurrent));
    assert_eq!(hotkey_command(7), Some(Command::RestoreAll));
    assert_eq!(hotkey_command(8), Some(Command::SelfUpdate));
    assert_eq!(hotkey_command(9), Some(Command::ReloadConfig));
    assert_eq!(hotkey_command(0), None);
    assert_eq!(hotkey_command(10), None);
    assert_eq!(mouse_action_command(MouseAction::Increase), Some(Command::AdjustTransparency(25)));
    assert_eq!(mouse_action_command(MouseAction::Decrease), Some(Command::AdjustTransparency(-25)));
    assert_eq!(mouse_action_command(MouseAction::ToggleClickThrough), Some(Command::ToggleMousePassthrough));
    assert_eq!(mouse_action_command(MouseAction::Update), Some(Command::SelfUpdate));
    assert_eq!(mouse_action_command(MouseAction::Unbound), None);
    assert_eq!(menu_command("show"), MenuCommand::Show);
    assert_eq!(menu_command("reset_all"), MenuCommand::RestoreAll);
    assert_eq!(menu_command("exit"), MenuCommand::Exit);
    assert_eq!(menu_command("Exit"), MenuCommand::Ignore);
}
