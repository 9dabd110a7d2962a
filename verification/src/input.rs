//! Encoding of key presses as the byte sequences a terminal expects.
use vstd::prelude::*;
use vstd::utf8::encode_utf8;
use crate::keybindings::{Keystroke, Modifiers};
use crate::text::str_eq;

verus! {

/// A function-key name: `f` followed by one or more ASCII digits (`f1`..`f12`).
pub open spec fn is_function_key(b: Seq<u8>) -> bool {
    &&& b.len() > 1
    &&& b[0] == 0x66u8
    &&& forall|i: int| 1 <= i < b.len() ==> 0x30u8 <= #[trigger] b[i] <= 0x39u8
}

/// Cursor-key sequence: `ESC O x` in application cursor mode, `ESC [ x` otherwise.
pub open spec fn cursor_seq(app_cursor_mode: bool, letter: u8) -> Seq<u8> {
    if app_cursor_mode {
        seq![0x1bu8, 0x4fu8, letter]
    } else {
        seq![0x1bu8, 0x5bu8, letter]
    }
}

/// The bytes sent to the terminal for key `key` (UTF-8 bytes `bytes`) with
/// modifiers `m`, or `None` when the key press is not for the terminal.
///
/// In priority order: Ctrl+T/Ctrl+D and Cmd+J/K/D are reserved; other Cmd keys
/// map backspace/delete/left/right to line-editing controls and propagate the
/// rest; Alt+backspace/delete/left/right give word-editing escapes; Ctrl plus
/// a lowercase ASCII letter gives its control code; named keys give their
/// sequences; any other key without Ctrl, except function keys, is sent as its
/// own bytes, prefixed with ESC when Alt is held.
pub open spec fn escape_bytes(key: Seq<char>, bytes: Seq<u8>, m: Modifiers, app_cursor_mode: bool) -> Option<Seq<u8>> {
    let ctrl = m.control;
    let alt = m.alt;
    let cmd = m.platform;
    if ctrl && (key == "t"@ || key == "d"@) {
        None
    } else if cmd && (key == "j"@ || key == "k"@ || key == "d"@) {
        None
    } else if cmd {
        if key == "backspace"@ {
            Some(seq![0x15u8])
        } else if key == "delete"@ {
            Some(seq![0x0bu8])
        } else if key == "left"@ {
            Some(seq![0x01u8])
        } else if key == "right"@ {
            Some(seq![0x05u8])
        } else {
            None
        }
    } else if alt && key == "backspace"@ {
        Some(seq![0x1bu8, 0x7fu8])
    } else if alt && key == "delete"@ {
        Some(seq![0x1bu8, 0x64u8])
    } else if alt && key == "left"@ {
        Some(seq![0x1bu8, 0x62u8])
    } else if alt && key == "right"@ {
        Some(seq![0x1bu8, 0x66u8])
    } else if ctrl && bytes.len() == 1 && 0x61u8 <= bytes[0] <= 0x7au8 {
        Some(seq![(bytes[0] - 0x60) as u8])
    } else if key == "enter"@ {
        Some(seq![0x0du8])
    } else if key == "backspace"@ {
        Some(seq![0x7fu8])
    } else if key == "tab"@ {
        if m.shift {
            Some(seq![0x1bu8, 0x5bu8, 0x5au8])
        } else {
            Some(seq![0x09u8])
        }
    } else if key == "escape"@ {
        Some(seq![0x1bu8])
    } else if key == "space"@ {
        Some(seq![0x20u8])
    } else if key == "delete"@ {
        Some(seq![0x1bu8, 0x5bu8, 0x33u8, 0x7eu8])
    } else if key == "home"@ {
        Some(seq![0x1bu8, 0x5bu8, 0x48u8])
    } else if key == "end"@ {
        Some(seq![0x1bu8, 0x5bu8, 0x46u8])
    } else if key == "pageup"@ {
        Some(seq![0x1bu8, 0x5bu8, 0x35u8, 0x7eu8])
    } else if key == "pagedown"@ {
        Some(seq![0x1bu8, 0x5bu8, 0x36u8, 0x7eu8])
    } else if key == "up"@ {
        Some(cursor_seq(app_cursor_mode, 0x41u8))
    } else if key == "down"@ {
        Some(cursor_seq(app_cursor_mode, 0x42u8))
    } else if key == "right"@ {
        Some(cursor_seq(app_cursor_mode, 0x43u8))
    } else if key == "left"@ {
        Some(cursor_seq(app_cursor_mode, 0x44u8))
    } else if !ctrl && bytes.len() > 0 && !is_function_key(bytes) {
        if alt {
            Some(seq![0x1bu8] + bytes)
        } else {
            Some(bytes)
        }
    } else {
        None
    }
}

fn cursor_bytes(app_cursor_mode: bool, letter: u8) -> (v: Vec<u8>)
    ensures
        v@ == cursor_seq(app_cursor_mode, letter),
{
    let mut v: Vec<u8> = Vec::new();
    v.push(0x1b);
    if app_cursor_mode {
        v.push(0x4f);
    } else {
        v.push(0x5b);
    }
    v.push(letter);
    v
}

fn one(b: u8) -> (v: Vec<u8>)
    ensures
        v@ == seq![b],
{
    let mut v: Vec<u8> = Vec::new();
    v.push(b);
    v
}

fn two(a: u8, b: u8) -> (v: Vec<u8>)
    ensures
        v@ == seq![a, b],
{
    let mut v = one(a);
    v.push(b);
    v
}

fn three(a: u8, b: u8, c: u8) -> (v: Vec<u8>)
    ensures
        v@ == seq![a, b, c],
{
    let mut v = two(a, b);
    v.push(c);
    v
}

fn four(a: u8, b: u8, c: u8, d: u8) -> (v: Vec<u8>)
    ensures
        v@ == seq![a, b, c, d],
{
    let mut v = three(a, b, c);
    v.push(d);
    v
}

fn function_key(b: &[u8]) -> (r: bool)
    ensures
        r == is_function_key(b@),
{
    if b.len() <= 1 || b[0] != 0x66 {
        return false;
    }
    let mut i: usize = 1;
    while i < b.len()
        invariant
            1 <= i <= b@.len(),
            forall|j: int| 1 <= j < i ==> 0x30u8 <= #[trigger] b@[j] <= 0x39u8,
        decreases b@.len() - i,
    {
        if b[i] < 0x30 || b[i] > 0x39 {
            return false;
        }
        i = i + 1;
    }
    true
}

/// Converts a keystroke to the bytes to write to the terminal, or `None` when
/// the keystroke is not meant for the terminal (reserved shortcuts,
/// unrecognised Cmd combinations, function keys, Ctrl with other keys).
///
/// `app_cursor_mode` switches arrow keys from `ESC [ A-D` to `ESC O A-D`.
pub fn keystroke_to_escape(keystroke: &Keystroke, app_cursor_mode: bool) -> (r: Option<Vec<u8>>)
    ensures
        match r {
            Some(v) => escape_bytes(keystroke.key@, encode_utf8(keystroke.key@), keystroke.modifiers, app_cursor_mode) == Some(v@),
            None => escape_bytes(keystroke.key@, encode_utf8(keystroke.key@), keystroke.modifiers, app_cursor_mode) is None,
        },
{
    let key = keystroke.key.as_str();
    let ctrl = keystroke.modifiers.control;
    let alt = keystroke.modifiers.alt;
    let cmd = keystroke.modifiers.platform;

    if ctrl && (str_eq(key, "t") || str_eq(key, "d")) {
        return None;
    }
    if cmd && (str_eq(key, "j") || str_eq(key, "k") || str_eq(key, "d")) {
        return None;
    }
    if cmd {
        if str_eq(key, "backspace") {
            return Some(one(0x15));
        } else if str_eq(key, "delete") {
            return Some(one(0x0b));
        } else if str_eq(key, "left") {
            return Some(one(0x01));
        } else if str_eq(key, "right") {
            return Some(one(0x05));
        } else {
            return None;
        }
    }
    if alt {
        if str_eq(key, "backspace") {
            return Some(two(0x1b, 0x7f));
        } else if str_eq(key, "delete") {
            return Some(two(0x1b, 0x64));
        } else if str_eq(key, "left") {
            return Some(two(0x1b, 0x62));
        } else if str_eq(key, "right") {
            return Some(two(0x1b, 0x66));
        }
    }
    let bytes = key.as_bytes();
    if ctrl && bytes.len() == 1 {
        let ch = bytes[0];
        if 0x61 <= ch && ch <= 0x7a {
            let code: u8 = ch - 0x60;
            return Some(one(code));
        }
    }
    if str_eq(key, "enter") {
        return Some(one(0x0d));
    } else if str_eq(key, "backspace") {
        return Some(one(0x7f));
    } else if str_eq(key, "tab") {
        if keystroke.modifiers.shift {
            return Some(three(0x1b, 0x5b, 0x5a));
        }
        return Some(one(0x09));
    } else if str_eq(key, "escape") {
        return Some(one(0x1b));
    } else if str_eq(key, "space") {
        return Some(one(0x20));
    } else if str_eq(key, "delete") {
        return Some(four(0x1b, 0x5b, 0x33, 0x7e));
    } else if str_eq(key, "home") {
        return Some(three(0x1b, 0x5b, 0x48));
    } else if str_eq(key, "end") {
        return Some(three(0x1b, 0x5b, 0x46));
    } else if str_eq(key, "pageup") {
        return Some(four(0x1b, 0x5b, 0x35, 0x7e));
    } else if str_eq(key, "pagedown") {
        return Some(four(0x1b, 0x5b, 0x36, 0x7e));
    } else if str_eq(key, "up") {
        return Some(cursor_bytes(app_cursor_mode, 0x41));
    } else if str_eq(key, "down") {
        return Some(cursor_bytes(app_cursor_mode, 0x42));
    } else if str_eq(key, "right") {
        return Some(cursor_bytes(app_cursor_mode, 0x43));
    } else if str_eq(key, "left") {
        return Some(cursor_bytes(app_cursor_mode, 0x44));
    }
    if !ctrl && bytes.len() > 0 && !function_key(bytes) {
        let mut out = vstd::slice::slice_to_vec(bytes);
        if alt {
            out.insert(0, 0x1b);
            assert(out@ =~= seq![0x1bu8] + bytes@);
        }
        return Some(out);
    }
    None
}

/// Ctrl with a lowercase ASCII letter (other than the reserved `t` and
/// `d`), without Cmd, sends exactly one byte: the letter's control code,
/// from 0x01 for `a` to 0x1A for `z`, whatever else is held.
pub proof fn lemma_ctrl_letter_control_code(c: char, m: Modifiers, app_cursor_mode: bool)
    requires
        'a' <= c <= 'z',
        c != 't',
        c != 'd',
        m.control,
        !m.platform,
    ensures
        escape_bytes(seq![c], encode_utf8(seq![c]), m, app_cursor_mode) == Some(seq![((c as u32) - 0x60) as u8]),
        ((c as u32) - 0x60) as u8 == (c as u32) - (('a' as u32) - 1),
        1 <= ((c as u32) - 0x60) as u8 <= 26,
{
    reveal_strlit("t");
    reveal_strlit("d");
    reveal_strlit("backspace");
    reveal_strlit("delete");
    reveal_strlit("left");
    reveal_strlit("right");
    let k = seq![c];
    assert(vstd::utf8::is_ascii_chars(k));
    vstd::utf8::is_ascii_chars_encode_utf8(k);
    let bytes = encode_utf8(k);
    assert(bytes.len() == 1 && bytes[0] == c as u8);
    assert(k != "t"@ && k != "d"@) by {
        assert(k[0] != "t"@[0]);
        assert(k[0] != "d"@[0]);
    }
    assert(k != "backspace"@ && k != "delete"@ && k != "left"@ && k != "right"@);
    assert(0x61u8 <= bytes[0] <= 0x7au8);
}

} // verus!
