use input0::input::hotkey::{is_single_key, parse_hotkey, to_tauri_shortcut};
use input0::input::single_key::{key_event, tap_decision, SingleKey, TapOutcome, EVENT_FLAGS_CHANGED, EVENT_TAP_DISABLED_BY_TIMEOUT};
use input0::activation::{
    is_single_key_hotkey, plan_hotkey_change, shortcut_route, HotkeyChange, ShortcutRoute,
};

#[test]
fn is_single_key_true_for_fn_and_all_split_modifiers() {
    for raw in [
        "Fn", "RightOption", "LeftOption",
        "RightCommand", "LeftCommand",
        "RightControl", "LeftControl",
        "RightShift", "LeftShift",
    ] {
        assert!(is_single_key(raw), "expected single-key: {raw}");
    }
}

#[test]
fn is_single_key_false_for_combos_and_plain_keys() {
    assert!(!is_single_key("Option+Space"));
    assert!(!is_single_key("Command+Shift+R"));
    assert!(!is_single_key("Space"));
    assert!(!is_single_key(""));
}

#[test]
fn test_parse_option_space() {
    let (modifiers, key) = parse_hotkey("Option+Space").unwrap();
    assert_eq!(modifiers, vec!["Option"]);
    assert_eq!(key, "Space");
}

#[test]
fn test_parse_cmd_shift_k() {
    let (modifiers, key) = parse_hotkey("Command+Shift+K").unwrap();
    assert_eq!(modifiers, vec!["Command", "Shift"]);
    assert_eq!(key, "K");
}

#[test]
fn test_parse_single_key() {
    let (modifiers, key) = parse_hotkey("F1").unwrap();
    assert!(modifiers.is_empty());
    assert_eq!(key, "F1");
}

#[test]
fn test_parse_empty_string() {
    let result = parse_hotkey("");
    assert!(result.is_err());
}

#[test]
fn test_parse_invalid_modifier() {
    let result = parse_hotkey("Banana+Space");
    assert!(result.is_err());
}

#[test]
fn test_parse_trailing_plus() {
    let result = parse_hotkey("Option+");
    assert!(result.is_err());
}

#[test]
fn test_parse_with_spaces() {
    let (modifiers, key) = parse_hotkey(" Option + Space ").unwrap();
    assert_eq!(modifiers, vec!["Option"]);
    assert_eq!(key, "Space");
}

#[test]
fn test_tauri_option_space() {
    let result = to_tauri_shortcut("Option+Space").unwrap();
    assert_eq!(result, "Alt+Space");
}

#[test]
fn test_tauri_cmd_v() {
    let result = to_tauri_shortcut("Command+V").unwrap();
    assert_eq!(result, "Command+V");
}

#[test]
fn test_tauri_ctrl_shift_a() {
    let result = to_tauri_shortcut("Control+Shift+A").unwrap();
    assert_eq!(result, "Control+Shift+A");
}

#[test]
fn test_tauri_case_insensitive() {
    let result = to_tauri_shortcut("option+space").unwrap();
    assert_eq!(result, "Alt+space");
}

#[test]
fn test_tauri_single_key() {
    let result = to_tauri_shortcut("F5").unwrap();
    assert_eq!(result, "F5");
}

#[test]
fn update_hotkey_accepts_all_single_keys_without_combo_validation() {
    for raw in [
        "Fn", "RightOption", "LeftOption",
        "RightCommand", "LeftCommand",
        "RightControl", "LeftControl",
        "RightShift", "LeftShift",
    ] {
        assert!(is_single_key(raw));
    }
    assert!(!is_single_key("Option+Space"));
}

#[test]
fn from_raw_accepts_canonical_names() {
    assert_eq!(SingleKey::from_raw("Fn"), Some(SingleKey::Fn));
    assert_eq!(SingleKey::from_raw("RightOption"), Some(SingleKey::RightOption));
    assert_eq!(SingleKey::from_raw("LeftOption"), Some(SingleKey::LeftOption));
    assert_eq!(SingleKey::from_raw("RightCommand"), Some(SingleKey::RightCommand));
    assert_eq!(SingleKey::from_raw("LeftCommand"), Some(SingleKey::LeftCommand));
    assert_eq!(SingleKey::from_raw("RightControl"), Some(SingleKey::RightControl));
    assert_eq!(SingleKey::from_raw("LeftControl"), Some(SingleKey::LeftControl));
    assert_eq!(SingleKey::from_raw("RightShift"), Some(SingleKey::RightShift));
    assert_eq!(SingleKey::from_raw("LeftShift"), Some(SingleKey::LeftShift));
}

#[test]
fn from_raw_is_case_and_separator_insensitive() {
    assert_eq!(SingleKey::from_raw("fn"), Some(SingleKey::Fn));
    assert_eq!(SingleKey::from_raw("right_option"), Some(SingleKey::RightOption));
    assert_eq!(SingleKey::from_raw("right-option"), Some(SingleKey::RightOption));
    assert_eq!(SingleKey::from_raw("  RIGHT OPTION "), Some(SingleKey::RightOption));
}

#[test]
fn from_raw_rejects_combos_and_unknown() {
    assert_eq!(SingleKey::from_raw("Option+Space"), None);
    assert_eq!(SingleKey::from_raw(""), None);
    assert_eq!(SingleKey::from_raw("Space"), None);
    assert_eq!(SingleKey::from_raw("RightAlt"), None);
}

#[test]
fn key_codes_are_distinct() {
    let all = [
        SingleKey::Fn,
        SingleKey::LeftOption, SingleKey::RightOption,
        SingleKey::LeftCommand, SingleKey::RightCommand,
        SingleKey::LeftControl, SingleKey::RightControl,
        SingleKey::LeftShift, SingleKey::RightShift,
    ];
    let mut codes: Vec<i64> = all.iter().map(|k| k.key_code()).collect();
    codes.sort();
    codes.dedup();
    assert_eq!(codes.len(), all.len(), "every SingleKey must have a unique key_code");
}

#[test]
fn device_masks_cover_expected_bits() {
    assert_eq!(SingleKey::Fn.device_mask(), 1 << 23);
    assert_eq!(SingleKey::RightOption.device_mask(), 0x40);
    assert_eq!(SingleKey::LeftCommand.device_mask(), 0x08);
    assert_eq!(SingleKey::RightControl.device_mask(), 0x2000);
}

#[test]
fn parse_reports_first_invalid_modifier_and_empty_key() {
    let e = parse_hotkey("Shift+Banana+Apple+K").unwrap_err();
    assert_eq!(e.message(), "Invalid modifier: Banana");
    let e = parse_hotkey("Option+ ").unwrap_err();
    assert_eq!(e.message(), "Empty key in hotkey");
    let e = parse_hotkey("").unwrap_err();
    assert_eq!(e.message(), "Empty key in hotkey");
}

#[test]
fn tauri_maps_cmd_and_super_and_keeps_key_case() {
    assert_eq!(to_tauri_shortcut("cmd+alt+x").unwrap(), "Command+Alt+x");
    assert_eq!(to_tauri_shortcut("SUPER + shift + F2").unwrap(), "Super+Shift+F2");
}

#[test]
fn repeated_flags_event_reports_one_edge() {
    let (pressed, edge) = key_event(SingleKey::RightOption, false, 0x40);
    assert!(pressed);
    assert_eq!(edge, Some(true));
    let (pressed, edge) = key_event(SingleKey::RightOption, pressed, 0x40);
    assert!(pressed);
    assert_eq!(edge, None);
    let (pressed, edge) = key_event(SingleKey::RightOption, pressed, 0);
    assert!(!pressed);
    assert_eq!(edge, Some(false));
}

#[test]
fn tap_passes_other_keys_and_reenables_after_timeout() {
    assert_eq!(
        tap_decision(SingleKey::Fn, EVENT_FLAGS_CHANGED, 58, 0x80_0000, false),
        TapOutcome::Pass
    );
    assert_eq!(
        tap_decision(SingleKey::Fn, EVENT_TAP_DISABLED_BY_TIMEOUT, 63, 0, false),
        TapOutcome::ReEnable
    );
    assert_eq!(
        tap_decision(SingleKey::Fn, EVENT_FLAGS_CHANGED, 63, 0x80_0000, false),
        TapOutcome::Swallow { pressed: true }
    );
    assert_eq!(
        tap_decision(SingleKey::Fn, EVENT_FLAGS_CHANGED, 63, 0x80_0000, true),
        TapOutcome::Pass
    );
    assert_eq!(
        tap_decision(SingleKey::Fn, EVENT_FLAGS_CHANGED, 63, 0, true),
        TapOutcome::Swallow { pressed: false }
    );
    assert_eq!(tap_decision(SingleKey::Fn, EVENT_FLAGS_CHANGED, 63, 0, false), TapOutcome::Pass);
    assert_eq!(tap_decision(SingleKey::Fn, 10, 63, 0x80_0000, false), TapOutcome::Pass);
}

#[test]
fn routes_single_keys_and_combos() {
    assert!(is_single_key_hotkey(" fn "));
    match shortcut_route("RightCommand").unwrap() {
        ShortcutRoute::SingleKey(k) => assert_eq!(k, SingleKey::RightCommand),
        ShortcutRoute::Accelerator(_) => panic!("expected the key monitor"),
    }
    match shortcut_route("Option+Space").unwrap() {
        ShortcutRoute::Accelerator(s) => assert_eq!(s, "Alt+Space"),
        ShortcutRoute::SingleKey(_) => panic!("expected an accelerator"),
    }
    assert!(shortcut_route("Hyper+Space").is_err());
}

#[test]
fn hotkey_change_plans() {
    assert!(matches!(plan_hotkey_change("Option+Space", "option+SPACE"), Ok(HotkeyChange::SaveOnly)));
    assert!(matches!(plan_hotkey_change("Option+Space", "Fn"), Ok(HotkeyChange::Replace)));
    let e = plan_hotkey_change("Option+Space", "Meta+K").err().unwrap();
    assert_eq!(e.message(), "Invalid modifier: Meta");
}
