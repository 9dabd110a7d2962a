use kild_ui::input::keystroke_to_escape;
use kild_ui::keybindings::{Keystroke, Modifiers};

fn key(name: &str) -> Keystroke {
    Keystroke {
        key: name.into(),
        modifiers: Modifiers::default(),
    }
}

fn ctrl_key(name: &str) -> Keystroke {
    Keystroke {
        key: name.into(),
        modifiers: Modifiers {
            control: true,
            ..Default::default()
        },
    }
}

fn alt_key(name: &str) -> Keystroke {
    Keystroke {
        key: name.into(),
        modifiers: Modifiers {
            alt: true,
            ..Default::default()
        },
    }
}

fn shift_key(name: &str) -> Keystroke {
    Keystroke {
        key: name.into(),
        modifiers: Modifiers {
            shift: true,
            ..Default::default()
        },
    }
}

fn cmd_key(name: &str) -> Keystroke {
    Keystroke {
        key: name.into(),
        modifiers: Modifiers {
            platform: true,
            ..Default::default()
        },
    }
}

#[test]
fn test_printable_characters() {
    assert_eq!(keystroke_to_escape(&key("a"), false), Some(b"a".to_vec()));
    assert_eq!(keystroke_to_escape(&key("f"), false), Some(b"f".to_vec()));
    assert_eq!(keystroke_to_escape(&key("z"), false), Some(b"z".to_vec()));
    assert_eq!(keystroke_to_escape(&key("1"), false), Some(b"1".to_vec()));
}

#[test]
fn test_function_keys_return_none() {
    assert_eq!(keystroke_to_escape(&key("f1"), false), None);
    assert_eq!(keystroke_to_escape(&key("f12"), false), None);
}

#[test]
fn test_enter_returns_cr() {
    assert_eq!(
        keystroke_to_escape(&key("enter"), false),
        Some(b"\r".to_vec())
    );
}

#[test]
fn test_backspace_returns_del() {
    assert_eq!(
        keystroke_to_escape(&key("backspace"), false),
        Some(vec![0x7f])
    );
}

#[test]
fn test_tab() {
    assert_eq!(
        keystroke_to_escape(&key("tab"), false),
        Some(b"\t".to_vec())
    );
}

#[test]
fn test_shift_tab() {
    assert_eq!(
        keystroke_to_escape(&shift_key("tab"), false),
        Some(b"\x1b[Z".to_vec())
    );
}

#[test]
fn test_escape_key() {
    assert_eq!(keystroke_to_escape(&key("escape"), false), Some(vec![0x1b]));
}

#[test]
fn test_arrow_keys_normal_mode() {
    assert_eq!(
        keystroke_to_escape(&key("up"), false),
        Some(b"\x1b[A".to_vec())
    );
    assert_eq!(
        keystroke_to_escape(&key("down"), false),
        Some(b"\x1b[B".to_vec())
    );
    assert_eq!(
        keystroke_to_escape(&key("right"), false),
        Some(b"\x1b[C".to_vec())
    );
    assert_eq!(
        keystroke_to_escape(&key("left"), false),
        Some(b"\x1b[D".to_vec())
    );
}

#[test]
fn test_arrow_keys_app_cursor_mode() {
    assert_eq!(
        keystroke_to_escape(&key("up"), true),
        Some(b"\x1bOA".to_vec())
    );
    assert_eq!(
        keystroke_to_escape(&key("down"), true),
        Some(b"\x1bOB".to_vec())
    );
    assert_eq!(
        keystroke_to_escape(&key("right"), true),
        Some(b"\x1bOC".to_vec())
    );
    assert_eq!(
        keystroke_to_escape(&key("left"), true),
        Some(b"\x1bOD".to_vec())
    );
}

#[test]
fn test_ctrl_c() {
    assert_eq!(keystroke_to_escape(&ctrl_key("c"), false), Some(vec![0x03]));
}

#[test]
fn test_ctrl_d_returns_none() {
    assert_eq!(keystroke_to_escape(&ctrl_key("d"), false), None);
}

#[test]
fn test_ctrl_z() {
    assert_eq!(keystroke_to_escape(&ctrl_key("z"), false), Some(vec![0x1a]));
}

#[test]
fn test_ctrl_t_returns_none() {
    assert_eq!(keystroke_to_escape(&ctrl_key("t"), false), None);
}

#[test]
fn test_home_end() {
    assert_eq!(
        keystroke_to_escape(&key("home"), false),
        Some(b"\x1b[H".to_vec())
    );
    assert_eq!(
        keystroke_to_escape(&key("end"), false),
        Some(b"\x1b[F".to_vec())
    );
}

#[test]
fn test_page_up_down() {
    assert_eq!(
        keystroke_to_escape(&key("pageup"), false),
        Some(b"\x1b[5~".to_vec())
    );
    assert_eq!(
        keystroke_to_escape(&key("pagedown"), false),
        Some(b"\x1b[6~".to_vec())
    );
}

#[test]
fn test_delete() {
    assert_eq!(
        keystroke_to_escape(&key("delete"), false),
        Some(b"\x1b[3~".to_vec())
    );
}

#[test]
fn test_alt_key_wraps_with_esc() {
    let result = keystroke_to_escape(&alt_key("b"), false);
    assert_eq!(result, Some(vec![0x1b, b'b']));
}

#[test]
fn test_space() {
    assert_eq!(
        keystroke_to_escape(&key("space"), false),
        Some(b" ".to_vec())
    );
}

#[test]
fn test_cmd_j_returns_none() {
    assert_eq!(keystroke_to_escape(&cmd_key("j"), false), None);
}

#[test]
fn test_cmd_k_returns_none() {
    assert_eq!(keystroke_to_escape(&cmd_key("k"), false), None);
}

#[test]
fn test_cmd_d_returns_none() {
    assert_eq!(keystroke_to_escape(&cmd_key("d"), false), None);
}

#[test]
fn test_cmd_backspace_deletes_to_line_start() {
    assert_eq!(
        keystroke_to_escape(&cmd_key("backspace"), false),
        Some(vec![0x15])
    );
}

#[test]
fn test_cmd_delete_deletes_to_line_end() {
    assert_eq!(
        keystroke_to_escape(&cmd_key("delete"), false),
        Some(vec![0x0b])
    );
}

#[test]
fn test_cmd_left_jumps_to_line_start() {
    assert_eq!(
        keystroke_to_escape(&cmd_key("left"), false),
        Some(vec![0x01])
    );
}

#[test]
fn test_cmd_right_jumps_to_line_end() {
    assert_eq!(
        keystroke_to_escape(&cmd_key("right"), false),
        Some(vec![0x05])
    );
}

#[test]
fn test_alt_backspace_deletes_word() {
    assert_eq!(
        keystroke_to_escape(&alt_key("backspace"), false),
        Some(vec![0x1b, 0x7f])
    );
}

#[test]
fn test_alt_left_moves_word_backward() {
    assert_eq!(
        keystroke_to_escape(&alt_key("left"), false),
        Some(vec![0x1b, b'b'])
    );
}

#[test]
fn test_alt_delete_deletes_word_forward() {
    assert_eq!(
        keystroke_to_escape(&alt_key("delete"), false),
        Some(vec![0x1b, b'd'])
    );
}

#[test]
fn test_alt_right_moves_word_forward() {
    assert_eq!(
        keystroke_to_escape(&alt_key("right"), false),
        Some(vec![0x1b, b'f'])
    );
}

#[test]
fn test_cmd_other_keys_propagate() {
    assert_eq!(keystroke_to_escape(&cmd_key("z"), false), None);
    assert_eq!(keystroke_to_escape(&cmd_key("a"), false), None);
}

#[test]
fn multibyte_key_is_sent_as_utf8() {
    assert_eq!(
        keystroke_to_escape(&key("é"), false),
        Some("é".as_bytes().to_vec())
    );
    assert_eq!(
        keystroke_to_escape(&alt_key("é"), false),
        Some(vec![0x1b, 0xc3, 0xa9])
    );
}

#[test]
fn ctrl_with_non_letter_is_not_sent() {
    assert_eq!(keystroke_to_escape(&ctrl_key("1"), false), None);
    assert_eq!(keystroke_to_escape(&ctrl_key("A"), false), None);
}

#[test]
fn empty_key_is_not_sent() {
    assert_eq!(keystroke_to_escape(&key(""), false), None);
}

#[test]
fn lone_f_with_letters_is_printable() {
    assert_eq!(keystroke_to_escape(&key("fx"), false), Some(b"fx".to_vec()));
}
