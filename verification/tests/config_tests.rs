use rfc::config::{
    key_name_to_keycode, Config, Hotkey, HotkeyConfig, HotkeyMap, InputConfig, KeyCode, KeyMap,
    Modifiers, PlayerInput,
};
use rfc::joypad::Button;

#[test]
fn test_default_config() {
    let config = Config::default();
    assert_eq!(config.display.scale, 3);
    assert_eq!(config.input.player1.up, "E");
    assert_eq!(config.input.player1.select, "G");
    assert_eq!(config.input.player1.start, "H");
}

#[test]
fn test_key_name_mapping() {
    assert_eq!(key_name_to_keycode("E"), Some(KeyCode::KeyE));
    assert_eq!(key_name_to_keycode("Up"), Some(KeyCode::ArrowUp));
    assert_eq!(key_name_to_keycode("Numpad5"), Some(KeyCode::Numpad5));
    assert_eq!(key_name_to_keycode("invalid"), None);
}

#[test]
fn default_settings_match_documentation() {
    let config = Config::default();
    assert_eq!(config.display.shader, "none");
    assert_eq!(config.rom.path, "./roms");
    assert_eq!(config.hotkeys.scale_1, "Super+1");
    assert_eq!(config.hotkeys.reset, "Ctrl+Super+R");
    assert_eq!(config.input.player2.a, "Numpad2");
    assert_eq!(config.input.player2.start, "Numpad6");
    assert_eq!(PlayerInput::default().b, "J");
}

#[test]
fn hotkey_parse_reads_modifiers_and_key() {
    let h = Hotkey::parse("Ctrl+Super+R").unwrap();
    assert_eq!(
        h,
        Hotkey { key: KeyCode::KeyR, ctrl: true, super_key: true, shift: false, alt: false }
    );
    let h = Hotkey::parse(" Cmd + Shift +  1 ").unwrap();
    assert_eq!(
        h,
        Hotkey { key: KeyCode::Digit1, ctrl: false, super_key: true, shift: true, alt: false }
    );
    let h = Hotkey::parse("Option+Alt+Space").unwrap();
    assert_eq!(
        h,
        Hotkey { key: KeyCode::Space, ctrl: false, super_key: false, shift: false, alt: true }
    );
}

#[test]
fn hotkey_parse_needs_a_key() {
    assert_eq!(Hotkey::parse("Ctrl+Shift"), None);
    assert_eq!(Hotkey::parse(""), None);
    assert_eq!(Hotkey::parse("Ctrl+Nope"), None);
    // the last key name decides
    assert_eq!(Hotkey::parse("A+Bogus"), None);
    assert_eq!(Hotkey::parse("Bogus+A").unwrap().key, KeyCode::KeyA);
}

#[test]
fn hotkey_matches_needs_every_modifier() {
    let h = Hotkey::parse("Ctrl+Super+R").unwrap();
    let held = Modifiers { control: true, super_key: true, shift: false, alt: false };
    assert!(h.matches(KeyCode::KeyR, &held));
    assert!(!h.matches(KeyCode::KeyE, &held));
    let extra = Modifiers { control: true, super_key: true, shift: true, alt: false };
    assert!(!h.matches(KeyCode::KeyR, &extra));
}

#[test]
fn default_hotkeys_parse() {
    let map = HotkeyMap::from_config(&HotkeyConfig::default());
    assert_eq!(map.scale_1.unwrap().key, KeyCode::Digit1);
    assert!(map.scale_1.unwrap().super_key);
    assert_eq!(map.scale_3.unwrap().key, KeyCode::Digit3);
    let reset = map.reset.unwrap();
    assert_eq!(reset.key, KeyCode::KeyR);
    assert!(reset.ctrl && reset.super_key && !reset.shift && !reset.alt);
}

#[test]
fn default_key_map_binds_both_players_in_order() {
    let map = KeyMap::from_config(&InputConfig::default());
    assert_eq!(map.mappings.len(), 16);
    let (k, b, p) = map.mappings[0];
    assert_eq!(k, KeyCode::KeyE);
    assert!(matches!(b, Button::Up));
    assert_eq!(p, 1);
    let (k, b, p) = map.mappings[7];
    assert_eq!(k, KeyCode::KeyH);
    assert!(matches!(b, Button::Start));
    assert_eq!(p, 1);
    let (k, b, p) = map.mappings[8];
    assert_eq!(k, KeyCode::ArrowUp);
    assert!(matches!(b, Button::Up));
    assert_eq!(p, 2);
    let (k, b, p) = map.mappings[12];
    assert_eq!(k, KeyCode::Numpad2);
    assert!(matches!(b, Button::A));
    assert_eq!(p, 2);
}

#[test]
fn key_map_skips_unknown_names() {
    let mut input = InputConfig::default();
    input.player1.up = "Nothing".to_string();
    input.player2 = PlayerInput::default_p1();
    let map = KeyMap::from_config(&input);
    assert_eq!(map.mappings.len(), 15);
    assert_eq!(map.mappings[0].0, KeyCode::KeyD);
    assert_eq!(map.mappings[7].0, KeyCode::KeyE);
    assert_eq!(map.mappings[7].2, 2);
}
