use kild_ui::keybindings::{
    Keybindings, Keystroke, Modifiers, ParsedJumpModifier, ParsedKeybinding, UiKeybindings,
};

fn make_keystroke(key: &str, modifiers: Modifiers) -> Keystroke {
    Keystroke {
        key: key.into(),
        modifiers,
    }
}

fn ctrl_mods() -> Modifiers {
    Modifiers {
        control: true,
        ..Default::default()
    }
}

fn cmd_mods() -> Modifiers {
    Modifiers {
        platform: true,
        ..Default::default()
    }
}

fn cmd_shift_mods() -> Modifiers {
    Modifiers {
        platform: true,
        shift: true,
        ..Default::default()
    }
}

#[test]
fn test_from_str_simple_cmd_j() {
    let kb = ParsedKeybinding::from_str("cmd+j").unwrap();
    assert!(kb.platform);
    assert!(!kb.control);
    assert!(!kb.shift);
    assert_eq!(kb.key, "j");
}

#[test]
fn test_from_str_ctrl_escape() {
    let kb = ParsedKeybinding::from_str("ctrl+escape").unwrap();
    assert!(kb.control);
    assert!(!kb.platform);
    assert_eq!(kb.key, "escape");
}

#[test]
fn test_from_str_cmd_shift_bracket() {
    let kb = ParsedKeybinding::from_str("cmd+shift+[").unwrap();
    assert!(kb.platform);
    assert!(kb.shift);
    assert!(!kb.control);
    assert_eq!(kb.key, "[");
}

#[test]
fn test_from_str_unknown_modifier_returns_none() {
    let result = ParsedKeybinding::from_str("typo+j");
    assert!(result.is_none());
}

#[test]
fn test_from_str_empty_string_returns_none() {
    assert!(ParsedKeybinding::from_str("").is_none());
}

#[test]
fn test_from_str_key_only_no_modifiers() {
    let kb = ParsedKeybinding::from_str("escape").unwrap();
    assert!(!kb.control);
    assert!(!kb.platform);
    assert!(!kb.shift);
    assert!(!kb.alt);
    assert_eq!(kb.key, "escape");
}

#[test]
fn test_matches_cmd_j() {
    let kb = ParsedKeybinding::from_str("cmd+j").unwrap();
    let ks = make_keystroke("j", cmd_mods());
    assert!(kb.matches(&ks));
}

#[test]
fn test_matches_does_not_match_wrong_modifier() {
    let kb = ParsedKeybinding::from_str("cmd+j").unwrap();
    let ks = make_keystroke("j", ctrl_mods());
    assert!(!kb.matches(&ks));
}

#[test]
fn test_matches_does_not_match_wrong_key() {
    let kb = ParsedKeybinding::from_str("cmd+j").unwrap();
    let ks = make_keystroke("k", cmd_mods());
    assert!(!kb.matches(&ks));
}

#[test]
fn test_matches_ctrl_escape() {
    let kb = ParsedKeybinding::from_str("ctrl+escape").unwrap();
    let ks = make_keystroke("escape", ctrl_mods());
    assert!(kb.matches(&ks));
}

#[test]
fn test_matches_cmd_shift_bracket() {
    let kb = ParsedKeybinding::from_str("cmd+shift+[").unwrap();
    let ks = make_keystroke("[", cmd_shift_mods());
    assert!(kb.matches(&ks));
}

#[test]
fn test_hint_str_cmd_j() {
    let kb = ParsedKeybinding::from_str("cmd+j").unwrap();
    assert_eq!(kb.hint_str(), "cmd-j");
}

#[test]
fn test_hint_str_cmd_shift_bracket() {
    let kb = ParsedKeybinding::from_str("cmd+shift+[").unwrap();
    assert_eq!(kb.hint_str(), "cmd-shift-[");
}

#[test]
fn test_hint_str_ctrl_escape() {
    let kb = ParsedKeybinding::from_str("ctrl+escape").unwrap();
    assert_eq!(kb.hint_str(), "ctrl-escape");
}

#[test]
fn test_jump_modifier_ctrl() {
    let m = ParsedJumpModifier::from_str("ctrl");
    assert!(m.matches(&ctrl_mods()));
    assert!(!m.matches(&cmd_mods()));
    assert_eq!(m.hint_prefix(), "ctrl");
}

#[test]
fn test_jump_modifier_alt() {
    let m = ParsedJumpModifier::from_str("alt");
    let alt_mods = Modifiers {
        alt: true,
        ..Default::default()
    };
    assert!(m.matches(&alt_mods));
    assert!(!m.matches(&ctrl_mods()));
    assert_eq!(m.hint_prefix(), "alt");
}

#[test]
fn test_jump_modifier_cmd_shift() {
    let m = ParsedJumpModifier::from_str("cmd+shift");
    assert!(m.matches(&cmd_shift_mods()));
    assert!(!m.matches(&ctrl_mods()));
    assert_eq!(m.hint_prefix(), "cmd-shift");
}

#[test]
fn test_jump_modifier_invalid_falls_back_to_ctrl() {
    let m = ParsedJumpModifier::from_str("invalid");
    assert!(m.matches(&ctrl_mods()));
    assert_eq!(m.hint_prefix(), "ctrl");
}

#[test]
fn test_default_bindings_are_valid() {
    let kb = UiKeybindings::default_bindings();
    assert!(kb
        .navigation
        .next_kild
        .matches(&make_keystroke("j", cmd_mods())));
    assert!(kb
        .navigation
        .prev_kild
        .matches(&make_keystroke("k", cmd_mods())));
    assert!(kb
        .terminal
        .focus_escape
        .matches(&make_keystroke("escape", ctrl_mods())));
}

#[test]
fn test_matches_any_nav_shortcut_next_kild() {
    let kb = UiKeybindings::default_bindings();
    assert!(kb.matches_any_nav_shortcut(&make_keystroke("j", cmd_mods())));
}

#[test]
fn test_matches_any_nav_shortcut_focus_escape() {
    let kb = UiKeybindings::default_bindings();
    assert!(kb.matches_any_nav_shortcut(&make_keystroke("escape", ctrl_mods())));
}

#[test]
fn test_matches_any_nav_shortcut_no_match() {
    let kb = UiKeybindings::default_bindings();
    let ks = make_keystroke("a", Modifiers::default());
    assert!(!kb.matches_any_nav_shortcut(&ks));
}

#[test]
fn test_from_config_custom_binding() {
    let mut raw = Keybindings::default();
    raw.navigation.next_kild = Some("alt+j".to_string());

    let kb = UiKeybindings::from_config(&raw);
    let alt_mods = Modifiers {
        alt: true,
        ..Default::default()
    };
    assert!(kb
        .navigation
        .next_kild
        .matches(&make_keystroke("j", alt_mods)));
    assert!(!kb
        .navigation
        .next_kild
        .matches(&make_keystroke("j", cmd_mods())));
}

#[test]
fn test_matches_any_nav_shortcut_respects_custom_binding() {
    let mut raw = Keybindings::default();
    raw.navigation.next_kild = Some("alt+j".to_string());
    let kb = UiKeybindings::from_config(&raw);

    let alt_mods = Modifiers {
        alt: true,
        ..Default::default()
    };
    assert!(kb.matches_any_nav_shortcut(&make_keystroke("j", alt_mods)));
    assert!(!kb.matches_any_nav_shortcut(&make_keystroke("j", cmd_mods())));
}

#[test]
fn test_from_config_invalid_binding_falls_back_to_default() {
    let mut raw = Keybindings::default();
    raw.navigation.next_kild = Some("badmod+j".to_string());

    let kb = UiKeybindings::from_config(&raw);
    assert!(kb
        .navigation
        .next_kild
        .matches(&make_keystroke("j", cmd_mods())));
}

#[test]
fn test_from_str_mixed_case_is_lowercased() {
    let kb = ParsedKeybinding::from_str("CMD+Shift+J").unwrap();
    assert!(kb.platform);
    assert!(kb.shift);
    assert_eq!(kb.key, "j");
    assert!(kb.matches(&make_keystroke("J", cmd_shift_mods())));
}

#[test]
fn test_from_str_empty_key_returns_none() {
    assert!(ParsedKeybinding::from_str("cmd+").is_none());
}

#[test]
fn test_from_str_modifier_aliases() {
    let kb = ParsedKeybinding::from_str("control+option+super+x").unwrap();
    assert!(kb.control && kb.alt && kb.platform && !kb.shift);
    assert_eq!(kb.hint_str(), "cmd-ctrl-alt-x");
}

#[test]
fn hint_reads_back_as_the_same_binding() {
    for s in ["Cmd+Shift+[", "ctrl+alt+k", "j", "SUPER+Control+Option+shift+X"] {
        let kb = ParsedKeybinding::from_str(s).unwrap();
        let back = ParsedKeybinding::from_str(&kb.hint_str().replace('-', "+")).unwrap();
        assert_eq!(back.key, kb.key);
        assert_eq!(
            (back.control, back.alt, back.shift, back.platform),
            (kb.control, kb.alt, kb.shift, kb.platform)
        );
    }
}
