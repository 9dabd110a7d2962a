//! Keyboard shortcuts: parsing `"modifier+key"` strings, matching them
//! against keystrokes, and rendering them as hints.
use vstd::prelude::*;
use crate::text::{
    ascii_lower_char, is_ascii, lemma_split_nonempty, push_str, lowercase_text, split_char, split_on, str_eq,
    to_lowercase,
};

verus! {

/// Modifier keys held during a keystroke.
#[derive(Clone, Copy, Debug, PartialEq, Eq, Default)]
pub struct Modifiers {
    pub control: bool,
    pub alt: bool,
    pub shift: bool,
    pub platform: bool,
}

/// A key press: the key's name and the modifiers held.
#[derive(Clone, Debug, Default)]
pub struct Keystroke {
    pub key: String,
    pub modifiers: Modifiers,
}

/// A parsed keyboard shortcut: modifier flags plus a lowercased key name.
#[derive(Clone, Debug)]
pub struct ParsedKeybinding {
    pub key: String,
    pub control: bool,
    pub alt: bool,
    pub shift: bool,
    pub platform: bool,
}

/// The mathematical content of a parsed shortcut.
pub struct KeybindingView {
    pub key: Seq<char>,
    pub control: bool,
    pub alt: bool,
    pub shift: bool,
    pub platform: bool,
}

impl View for ParsedKeybinding {
    type V = KeybindingView;

    open spec fn view(&self) -> KeybindingView {
        KeybindingView {
            key: self.key@,
            control: self.control,
            alt: self.alt,
            shift: self.shift,
            platform: self.platform,
        }
    }
}

/// Which modifier a (lowercased) token names.
#[derive(Clone, Copy, Debug, PartialEq, Eq)]
pub enum ModifierKind {
    Control,
    Alt,
    Shift,
    Platform,
}

/// The modifier named by a lowercased token, if it is one of the known names.
pub open spec fn modifier_kind(tok: Seq<char>) -> Option<ModifierKind> {
    if tok == "ctrl"@ || tok == "control"@ {
        Some(ModifierKind::Control)
    } else if tok == "alt"@ || tok == "option"@ {
        Some(ModifierKind::Alt)
    } else if tok == "shift"@ {
        Some(ModifierKind::Shift)
    } else if tok == "cmd"@ || tok == "super"@ || tok == "win"@ {
        Some(ModifierKind::Platform)
    } else {
        None
    }
}

/// Every token before the key names a known modifier.
pub open spec fn all_modifiers_known(parts: Seq<Seq<char>>) -> bool {
    forall|i: int| 0 <= i < parts.len() - 1 ==> #[trigger] modifier_kind(lowercase_text(parts[i])) is Some
}

/// Some token before the key names modifier `k`.
pub open spec fn names_modifier(parts: Seq<Seq<char>>, k: ModifierKind) -> bool {
    exists|i: int| 0 <= i < parts.len() - 1 && #[trigger] modifier_kind(lowercase_text(parts[i])) == Some(k)
}

/// The shortcut described by `s`: `+`-separated modifier names followed by a
/// key. Empty strings, empty keys and unknown modifier names give `None`.
pub open spec fn parse_keybinding(s: Seq<char>) -> Option<KeybindingView> {
    if s.len() == 0 {
        None
    } else {
        let parts = split_on(s, '+');
        let key = lowercase_text(parts.last());
        if key.len() == 0 || !all_modifiers_known(parts) {
            None
        } else {
            Some(KeybindingView {
                key,
                control: names_modifier(parts, ModifierKind::Control),
                alt: names_modifier(parts, ModifierKind::Alt),
                shift: names_modifier(parts, ModifierKind::Shift),
                platform: names_modifier(parts, ModifierKind::Platform),
            })
        }
    }
}

/// A shortcut matches a keystroke when the lowercased key names agree and
/// the four modifier flags are equal.
pub open spec fn binding_matches(b: KeybindingView, key: Seq<char>, m: Modifiers) -> bool {
    &&& lowercase_text(key) == b.key
    &&& m.control == b.control
    &&& m.alt == b.alt
    &&& m.shift == b.shift
    &&& m.platform == b.platform
}

/// The `-`-separated hint text: present modifiers in the order
/// cmd, ctrl, alt, shift, then the key.
pub open spec fn hint_text(b: KeybindingView) -> Seq<char> {
    (if b.platform { "cmd-"@ } else { Seq::<char>::empty() }) + (if b.control {
        "ctrl-"@
    } else {
        Seq::<char>::empty()
    }) + (if b.alt { "alt-"@ } else { Seq::<char>::empty() }) + (if b.shift {
        "shift-"@
    } else {
        Seq::<char>::empty()
    }) + b.key
}

fn modifier_of(tok: &str) -> (k: Option<ModifierKind>)
    ensures
        k == modifier_kind(tok@),
{
    if str_eq(tok, "ctrl") || str_eq(tok, "control") {
        Some(ModifierKind::Control)
    } else if str_eq(tok, "alt") || str_eq(tok, "option") {
        Some(ModifierKind::Alt)
    } else if str_eq(tok, "shift") {
        Some(ModifierKind::Shift)
    } else if str_eq(tok, "cmd") || str_eq(tok, "super") || str_eq(tok, "win") {
        Some(ModifierKind::Platform)
    } else {
        None
    }
}

impl ParsedKeybinding {
    /// Parses a `"modifier+key"` string such as `"cmd+shift+["`.
    ///
    /// Known modifiers: `ctrl`/`control`, `alt`/`option`, `shift`,
    /// `cmd`/`super`/`win` (compared after lowercasing). Returns `None` for an
    /// empty string, an empty key, or an unknown modifier.
    pub fn from_str(s: &str) -> (r: Option<ParsedKeybinding>)
        ensures
            match r {
                Some(b) => parse_keybinding(s@) == Some(b@),
                None => parse_keybinding(s@) is None,
            },
            r is Some <==> (s@.len() > 0 && split_on(s@, '+').last().len() > 0 && all_modifiers_known(
                split_on(s@, '+'),
            )),
    {
        if s.unicode_len() == 0 {
            return None;
        }
        let parts = split_char(s, '+');
        proof {
            lemma_split_nonempty(s@, '+');
        }
        let ghost ps = split_on(s@, '+');
        let n = parts.len();
        assert(parts@[n - 1]@ == ps.last());
        let key = to_lowercase(parts[n - 1].as_str());
        if key.unicode_len() == 0 {
            return None;
        }
        let mut control = false;
        let mut alt = false;
        let mut shift = false;
        let mut platform = false;
        let mut i: usize = 0;
        while i < n - 1
            invariant
                ps == split_on(s@, '+'),
                s@.len() > 0,
                n == ps.len(),
                n == parts@.len(),
                n >= 1,
                i <= n - 1,
                forall|j: int| 0 <= j < n ==> #[trigger] parts@[j]@ == ps[j],
                forall|j: int| 0 <= j < i ==> #[trigger] modifier_kind(lowercase_text(ps[j])) is Some,
                control == exists|j: int| 0 <= j < i && #[trigger] modifier_kind(lowercase_text(ps[j])) == Some(ModifierKind::Control),
                alt == exists|j: int| 0 <= j < i && #[trigger] modifier_kind(lowercase_text(ps[j])) == Some(ModifierKind::Alt),
                shift == exists|j: int| 0 <= j < i && #[trigger] modifier_kind(lowercase_text(ps[j])) == Some(ModifierKind::Shift),
                platform == exists|j: int| 0 <= j < i && #[trigger] modifier_kind(lowercase_text(ps[j])) == Some(ModifierKind::Platform),
            decreases n - 1 - i,
        {
            let lowered = to_lowercase(parts[i].as_str());
            let kind = modifier_of(lowered.as_str());
            assert(parts@[i as int]@ == ps[i as int]);
            match kind {
                Some(ModifierKind::Control) => { control = true; },
                Some(ModifierKind::Alt) => { alt = true; },
                Some(ModifierKind::Shift) => { shift = true; },
                Some(ModifierKind::Platform) => { platform = true; },
                None => {
                    assert(modifier_kind(lowercase_text(ps[i as int])) is None);
                    assert(!all_modifiers_known(ps));
                    return None;
                },
            }
            i = i + 1;
        }
        Some(ParsedKeybinding { key, control, alt, shift, platform })
    }

    /// Whether this shortcut matches `keystroke`: the lowercased key name and
    /// all four modifier flags agree (any typed character is ignored).
    pub fn matches(&self, keystroke: &Keystroke) -> (r: bool)
        ensures
            r == binding_matches(self@, keystroke.key@, keystroke.modifiers),
    {
        let lowered = to_lowercase(keystroke.key.as_str());
        str_eq(lowered.as_str(), self.key.as_str()) && keystroke.modifiers.control == self.control
            && keystroke.modifiers.alt == self.alt && keystroke.modifiers.shift == self.shift
            && keystroke.modifiers.platform == self.platform
    }

    /// The shortcut in `-`-separated hint form, e.g. `"cmd-shift-["`.
    pub fn hint_str(&self) -> (r: String)
        ensures
            r@ == hint_text(self@),
    {
        let mut out = String::new();
        if self.platform {
            push_str(&mut out, "cmd-");
        }
        if self.control {
            push_str(&mut out, "ctrl-");
        }
        if self.alt {
            push_str(&mut out, "alt-");
        }
        if self.shift {
            push_str(&mut out, "shift-");
        }
        push_str(&mut out, self.key.as_str());
        out
    }
}


/// `s` with every `-` turned into `+` (how a hint is written back as a
/// shortcut string).
pub open spec fn dashes_to_plus(s: Seq<char>) -> Seq<char> {
    s.map_values(|c: char| if c == '-' { '+' } else { c })
}

/// The tokens joined by `+`, each followed by one.
pub open spec fn plus_joined(ts: Seq<Seq<char>>) -> Seq<char>
    decreases ts.len(),
{
    if ts.len() == 0 {
        Seq::empty()
    } else {
        plus_joined(ts.drop_last()) + ts.last() + seq!['+']
    }
}

/// The modifier names of a hint, in hint order.
pub open spec fn hint_modifiers(b: KeybindingView) -> Seq<Seq<char>> {
    let t0 = if b.platform { seq!["cmd"@] } else { Seq::<Seq<char>>::empty() };
    let t1 = if b.control { t0.push("ctrl"@) } else { t0 };
    let t2 = if b.alt { t1.push("alt"@) } else { t1 };
    if b.shift { t2.push("shift"@) } else { t2 }
}

/// Whether `c` occurs in `s`.
pub open spec fn has_char(s: Seq<char>, c: char) -> bool {
    exists|i: int| 0 <= i < s.len() && s[i] == c
}

/// Appending text without the separator extends the last piece.
proof fn lemma_split_append(s: Seq<char>, t: Seq<char>, sep: char)
    requires
        !has_char(t, sep),
    ensures
        split_on(s + t, sep) == split_on(s, sep).update(
            split_on(s, sep).len() - 1,
            split_on(s, sep).last() + t,
        ),
    decreases t.len(),
{
    lemma_split_nonempty(s, sep);
    let ss = split_on(s, sep);
    if t.len() == 0 {
        assert(s + t =~= s);
        assert(ss.last() + t =~= ss.last());
        assert(ss.update(ss.len() - 1, ss.last() + t) =~= ss);
    } else {
        let t2 = t.drop_last();
        assert(!has_char(t2, sep)) by {
            if has_char(t2, sep) {
                let i = choose|i: int| 0 <= i < t2.len() && t2[i] == sep;
                assert(t[i] == sep);
            }
        }
        lemma_split_append(s, t2, sep);
        assert((s + t).drop_last() =~= s + t2);
        assert((s + t).last() == t.last());
        assert(t.last() != sep) by {
            assert(t[t.len() - 1] == t.last());
        }
        assert((ss.last() + t2).push(t.last()) =~= ss.last() + t);
        let p = split_on(s + t2, sep);
        assert(p.update(p.len() - 1, p.last().push(t.last())) =~= ss.update(ss.len() - 1, ss.last() + t));
    }
}

/// Splitting `+`-joined tokens followed by a last piece gives back the
/// tokens and the piece.
proof fn lemma_split_plus_joined(ts: Seq<Seq<char>>, last: Seq<char>)
    requires
        forall|i: int| 0 <= i < ts.len() ==> !has_char(#[trigger] ts[i], '+'),
        !has_char(last, '+'),
    ensures
        split_on(plus_joined(ts) + last, '+') == ts.push(last),
    decreases ts.len(),
{
    if ts.len() == 0 {
        lemma_split_append(Seq::empty(), last, '+');
        assert(plus_joined(ts) + last =~= Seq::<char>::empty() + last);
        assert(split_on(Seq::<char>::empty(), '+') == seq![Seq::<char>::empty()]);
        assert(Seq::<char>::empty() + last =~= last);
        assert(seq![Seq::<char>::empty()].update(0, Seq::<char>::empty() + last) =~= ts.push(last));
    } else {
        let q = ts.drop_last();
        let t = ts.last();
        assert(!has_char(t, '+')) by {
            assert(ts[ts.len() - 1] == t);
        }
        lemma_split_plus_joined(q, t);
        let x = plus_joined(q) + t;
        assert(plus_joined(ts) =~= x.push('+'));
        assert(x.push('+').drop_last() =~= x);
        assert(split_on(x.push('+'), '+') == q.push(t).push(Seq::<char>::empty()));
        lemma_split_append(x.push('+'), last, '+');
        assert(Seq::<char>::empty() + last =~= last);
        assert(q.push(t) =~= ts);
        assert(q.push(t).push(Seq::<char>::empty()).update(ts.len() as int, Seq::<char>::empty() + last) =~= ts.push(
            last,
        ));
    }
}

/// A hint written back with `+` is the modifier names joined by `+`,
/// followed by the key.
proof fn lemma_hint_as_tokens(b: KeybindingView)
    requires
        !has_char(b.key, '-'),
    ensures
        dashes_to_plus(hint_text(b)) == plus_joined(hint_modifiers(b)) + b.key,
{
    reveal_strlit("cmd-");
    reveal_strlit("ctrl-");
    reveal_strlit("alt-");
    reveal_strlit("shift-");
    reveal_strlit("cmd");
    reveal_strlit("ctrl");
    reveal_strlit("alt");
    reveal_strlit("shift");
    let e = Seq::<char>::empty();
    let a = if b.platform { "cmd-"@ } else { e };
    let c = if b.control { "ctrl-"@ } else { e };
    let d = if b.alt { "alt-"@ } else { e };
    let f = if b.shift { "shift-"@ } else { e };
    let t0 = if b.platform { seq!["cmd"@] } else { Seq::<Seq<char>>::empty() };
    let t1 = if b.control { t0.push("ctrl"@) } else { t0 };
    let t2 = if b.alt { t1.push("alt"@) } else { t1 };
    let t3 = if b.shift { t2.push("shift"@) } else { t2 };
    assert(hint_text(b) == a + c + d + f + b.key);
    assert(dashes_to_plus(b.key) =~= b.key) by {
        assert forall|i: int| 0 <= i < b.key.len() implies dashes_to_plus(b.key)[i] == b.key[i] by {
            if b.key[i] == '-' {
                assert(has_char(b.key, '-'));
            }
        }
    }
    assert(plus_joined(Seq::<Seq<char>>::empty()) == e);
    assert(dashes_to_plus(a) =~= plus_joined(t0)) by {
        if b.platform {
            assert(seq!["cmd"@].drop_last() =~= Seq::<Seq<char>>::empty());
            assert(plus_joined(t0) == e + "cmd"@ + seq!['+']);
            assert(dashes_to_plus(a) =~= e + "cmd"@ + seq!['+']);
        }
    }
    assert(dashes_to_plus(a + c) =~= plus_joined(t1)) by {
        assert(dashes_to_plus(a + c) =~= dashes_to_plus(a) + dashes_to_plus(c));
        if b.control {
            assert(t0.push("ctrl"@).drop_last() =~= t0);
        }
    }
    assert(dashes_to_plus(a + c + d) =~= plus_joined(t2)) by {
        assert(dashes_to_plus(a + c + d) =~= dashes_to_plus(a + c) + dashes_to_plus(d));
        if b.alt {
            assert(t1.push("alt"@).drop_last() =~= t1);
        }
    }
    assert(dashes_to_plus(a + c + d + f) =~= plus_joined(t3)) by {
        assert(dashes_to_plus(a + c + d + f) =~= dashes_to_plus(a + c + d) + dashes_to_plus(f));
        if b.shift {
            assert(t2.push("shift"@).drop_last() =~= t2);
        }
    }
    assert(dashes_to_plus(a + c + d + f + b.key) =~= dashes_to_plus(a + c + d + f) + dashes_to_plus(b.key));
}

/// Whether `s` has no ASCII uppercase letter.
pub open spec fn no_uppercase(s: Seq<char>) -> bool {
    forall|i: int| 0 <= i < s.len() ==> !('A' <= #[trigger] s[i] && s[i] <= 'Z')
}

/// ASCII text without uppercase letters is its own lowercase.
proof fn lemma_lowercase_fixed(s: Seq<char>)
    requires
        is_ascii(s),
        no_uppercase(s),
    ensures
        lowercase_text(s) == s,
{
    assert(s.map_values(|c: char| ascii_lower_char(c)) =~= s) by {
        assert forall|i: int| 0 <= i < s.len() implies s.map_values(|c: char| ascii_lower_char(c))[i] == s[i] by {
            assert(!('A' <= s[i] && s[i] <= 'Z'));
        }
    }
}

/// The modifier names a hint uses are their own lowercase and name their
/// modifiers.
proof fn lemma_modifier_names()
    ensures
        lowercase_text("cmd"@) == "cmd"@ && modifier_kind("cmd"@) == Some(ModifierKind::Platform),
        lowercase_text("ctrl"@) == "ctrl"@ && modifier_kind("ctrl"@) == Some(ModifierKind::Control),
        lowercase_text("alt"@) == "alt"@ && modifier_kind("alt"@) == Some(ModifierKind::Alt),
        lowercase_text("shift"@) == "shift"@ && modifier_kind("shift"@) == Some(ModifierKind::Shift),
        !has_char("cmd"@, '+') && !has_char("ctrl"@, '+') && !has_char("alt"@, '+') && !has_char("shift"@, '+'),
{
    reveal_strlit("cmd");
    reveal_strlit("ctrl");
    reveal_strlit("control");
    reveal_strlit("alt");
    reveal_strlit("option");
    reveal_strlit("shift");
    reveal_strlit("super");
    reveal_strlit("win");
    lemma_lowercase_fixed("cmd"@);
    assert("cmd"@ != "ctrl"@ && "cmd"@ != "control"@) by {
        assert("cmd"@[1] != "ctrl"@[1]);
    }
    assert("cmd"@ != "alt"@ && "cmd"@ != "option"@ && "cmd"@ != "shift"@) by {
        assert("cmd"@[0] != "alt"@[0]);
        assert("cmd"@[0] != "shift"@[0]);
    }
    lemma_lowercase_fixed("ctrl"@);
    lemma_lowercase_fixed("alt"@);
    lemma_lowercase_fixed("shift"@);
}

/// Reading back the hint of a shortcut, written with `+` in place of `-`,
/// gives the same shortcut, when its key is ASCII text without uppercase
/// letters, `+` or `-`.
pub proof fn lemma_hint_round_trip(b: KeybindingView)
    requires
        b.key.len() > 0,
        is_ascii(b.key),
        no_uppercase(b.key),
        !has_char(b.key, '+'),
        !has_char(b.key, '-'),
    ensures
        parse_keybinding(dashes_to_plus(hint_text(b))) == Some(b),
{
    lemma_hint_as_tokens(b);
    lemma_modifier_names();
    lemma_lowercase_fixed(b.key);
    let ts = hint_modifiers(b);
    let cmd = "cmd"@;
    let ctrl = "ctrl"@;
    let alt = "alt"@;
    let shift = "shift"@;
    let t0 = if b.platform { seq![cmd] } else { Seq::<Seq<char>>::empty() };
    let t1 = if b.control { t0.push(ctrl) } else { t0 };
    let t2 = if b.alt { t1.push(alt) } else { t1 };
    assert(ts == if b.shift { t2.push(shift) } else { t2 });
    let i_ctrl: int = if b.platform { 1 } else { 0 };
    let i_alt: int = i_ctrl + if b.control { 1int } else { 0 };
    let i_shift: int = i_alt + if b.alt { 1int } else { 0 };
    assert(b.platform ==> ts[0] == cmd);
    assert(b.control ==> ts[i_ctrl] == ctrl);
    assert(b.alt ==> ts[i_alt] == alt);
    assert(b.shift ==> ts[i_shift] == shift);
    assert forall|i: int| 0 <= i < ts.len() implies {
        ||| (#[trigger] ts[i] == cmd && b.platform)
        ||| (ts[i] == ctrl && b.control)
        ||| (ts[i] == alt && b.alt)
        ||| (ts[i] == shift && b.shift)
    } by {}
    assert forall|i: int| 0 <= i < ts.len() implies !has_char(#[trigger] ts[i], '+') by {}
    lemma_split_plus_joined(ts, b.key);
    let text = dashes_to_plus(hint_text(b));
    let parts = split_on(text, '+');
    assert(parts == ts.push(b.key));
    assert(text.len() > 0) by {
        assert(text.len() >= b.key.len());
    }
    assert(parts.last() == b.key);
    assert forall|i: int| 0 <= i < parts.len() - 1 implies #[trigger] modifier_kind(lowercase_text(parts[i])) is Some by {
        assert(parts[i] == ts[i]);
    }
    assert(names_modifier(parts, ModifierKind::Platform) == b.platform) by {
        if b.platform {
            assert(parts[0] == cmd);
        }
        if names_modifier(parts, ModifierKind::Platform) {
            let i = choose|i: int| 0 <= i < parts.len() - 1 && #[trigger] modifier_kind(lowercase_text(parts[i]))
                == Some(ModifierKind::Platform);
            assert(parts[i] == ts[i]);
        }
    }
    assert(names_modifier(parts, ModifierKind::Control) == b.control) by {
        if b.control {
            assert(parts[i_ctrl] == ctrl);
        }
        if names_modifier(parts, ModifierKind::Control) {
            let i = choose|i: int| 0 <= i < parts.len() - 1 && #[trigger] modifier_kind(lowercase_text(parts[i]))
                == Some(ModifierKind::Control);
            assert(parts[i] == ts[i]);
        }
    }
    assert(names_modifier(parts, ModifierKind::Alt) == b.alt) by {
        if b.alt {
            assert(parts[i_alt] == alt);
        }
        if names_modifier(parts, ModifierKind::Alt) {
            let i = choose|i: int| 0 <= i < parts.len() - 1 && #[trigger] modifier_kind(lowercase_text(parts[i]))
                == Some(ModifierKind::Alt);
            assert(parts[i] == ts[i]);
        }
    }
    assert(names_modifier(parts, ModifierKind::Shift) == b.shift) by {
        if b.shift {
            assert(parts[i_shift] == shift);
        }
        if names_modifier(parts, ModifierKind::Shift) {
            let i = choose|i: int| 0 <= i < parts.len() - 1 && #[trigger] modifier_kind(lowercase_text(parts[i]))
                == Some(ModifierKind::Shift);
            assert(parts[i] == ts[i]);
        }
    }
}

/// The pieces of a split hold no separator, and are ASCII when the text is.
proof fn lemma_split_pieces(s: Seq<char>, sep: char)
    ensures
        forall|i: int| 0 <= i < split_on(s, sep).len() ==> !has_char(#[trigger] split_on(s, sep)[i], sep) && (
        is_ascii(s) ==> is_ascii(split_on(s, sep)[i])),
    decreases s.len(),
{
    if s.len() > 0 {
        let d = s.drop_last();
        lemma_split_pieces(d, sep);
        lemma_split_nonempty(d, sep);
        let p = split_on(d, sep);
        assert(is_ascii(s) ==> is_ascii(d)) by {
            if is_ascii(s) {
                assert forall|k: int| 0 <= k < d.len() implies (#[trigger] d[k] as u32) < 128 by {
                    assert(d[k] == s[k]);
                }
            }
        }
        if s.last() != sep {
            let l = p.last().push(s.last());
            assert(!has_char(p.last(), sep)) by {
                assert(p[p.len() - 1] == p.last());
            }
            assert(!has_char(l, sep)) by {
                if has_char(l, sep) {
                    let k = choose|k: int| 0 <= k < l.len() && l[k] == sep;
                    if k < p.last().len() {
                        assert(p.last()[k] == sep);
                    }
                }
            }
            assert(is_ascii(s) ==> is_ascii(l)) by {
                if is_ascii(s) {
                    assert(is_ascii(p[p.len() - 1]));
                    assert((s[s.len() - 1] as u32) < 128);
                    assert forall|k: int| 0 <= k < l.len() implies (#[trigger] l[k] as u32) < 128 by {
                        if k < p.last().len() {
                            assert(l[k] == p[p.len() - 1][k]);
                        }
                    }
                }
            }
        } else {
            assert(!has_char(Seq::<char>::empty(), sep));
            assert(is_ascii(Seq::<char>::empty()));
        }
    }
}

/// A lowercased ASCII text is ASCII, has no uppercase letters, and holds a
/// `+` only where the text does.
proof fn lemma_lowercase_ascii(s: Seq<char>)
    requires
        is_ascii(s),
        !has_char(s, '+'),
    ensures
        is_ascii(lowercase_text(s)),
        no_uppercase(lowercase_text(s)),
        !has_char(lowercase_text(s), '+'),
        lowercase_text(s).len() == s.len(),
{
    let l = lowercase_text(s);
    assert forall|i: int| 0 <= i < l.len() implies (#[trigger] l[i] as u32) < 128 && !('A' <= l[i] && l[i] <= 'Z')
        && l[i] != '+' by {
        let c = s[i];
        assert((c as u32) < 128);
        assert(l[i] == ascii_lower_char(c));
        if 'A' <= c && c <= 'Z' {
            assert(((c as u32) + 32) as char as u32 == (c as u32) + 32);
        } else {
            if c == '+' {
                assert(has_char(s, '+'));
            }
        }
    }
}

/// A shortcut parsed from ASCII text reads back as itself from its hint
/// (written with `+` in place of `-`), unless its key holds a `-`.
pub proof fn lemma_parsed_hint_round_trip(s: Seq<char>)
    requires
        is_ascii(s),
        parse_keybinding(s) is Some,
        !has_char(parse_keybinding(s)->0.key, '-'),
    ensures
        parse_keybinding(dashes_to_plus(hint_text(parse_keybinding(s)->0))) == parse_keybinding(s),
{
    let parts = split_on(s, '+');
    lemma_split_nonempty(s, '+');
    lemma_split_pieces(s, '+');
    assert(parts[parts.len() - 1] == parts.last());
    lemma_lowercase_ascii(parts.last());
    lemma_hint_round_trip(parse_keybinding(s)->0);
}

/// Modifier combination for jumping to a kild by digit (modifier + 1-9).
#[derive(Clone, Copy, Debug, PartialEq, Eq)]
pub enum ParsedJumpModifier {
    Ctrl,
    Alt,
    CmdShift,
}

/// The jump modifier named by `s` (`"ctrl"`, `"alt"`, `"cmd+shift"`), falling back to `Ctrl`.
pub open spec fn parse_jump_modifier(s: Seq<char>) -> ParsedJumpModifier {
    if s == "ctrl"@ {
        ParsedJumpModifier::Ctrl
    } else if s == "alt"@ {
        ParsedJumpModifier::Alt
    } else if s == "cmd+shift"@ {
        ParsedJumpModifier::CmdShift
    } else {
        ParsedJumpModifier::Ctrl
    }
}

/// Whether `m` is exactly the combination `j` stands for.
pub open spec fn jump_matches(j: ParsedJumpModifier, m: Modifiers) -> bool {
    match j {
        ParsedJumpModifier::Ctrl => m.control && !m.shift && !m.alt && !m.platform,
        ParsedJumpModifier::Alt => m.alt && !m.control && !m.shift && !m.platform,
        ParsedJumpModifier::CmdShift => m.platform && m.shift && !m.control && !m.alt,
    }
}

/// The hint prefix shown for a jump modifier.
pub open spec fn jump_hint(j: ParsedJumpModifier) -> Seq<char> {
    match j {
        ParsedJumpModifier::Ctrl => "ctrl"@,
        ParsedJumpModifier::Alt => "alt"@,
        ParsedJumpModifier::CmdShift => "cmd-shift"@,
    }
}

impl ParsedJumpModifier {
    /// Parses a jump modifier; unknown values fall back to `Ctrl`.
    pub fn from_str(s: &str) -> (r: ParsedJumpModifier)
        ensures
            r == parse_jump_modifier(s@),
    {
        if str_eq(s, "ctrl") {
            ParsedJumpModifier::Ctrl
        } else if str_eq(s, "alt") {
            ParsedJumpModifier::Alt
        } else if str_eq(s, "cmd+shift") {
            ParsedJumpModifier::CmdShift
        } else {
            ParsedJumpModifier::Ctrl
        }
    }

    /// The display prefix for keyboard hints (`"ctrl"`, `"alt"`, `"cmd-shift"`).
    pub fn hint_prefix(&self) -> (r: &'static str)
        ensures
            r@ == jump_hint(*self),
    {
        match self {
            ParsedJumpModifier::Ctrl => "ctrl",
            ParsedJumpModifier::Alt => "alt",
            ParsedJumpModifier::CmdShift => "cmd-shift",
        }
    }

    /// Whether `modifiers` is exactly this combination.
    pub fn matches(&self, modifiers: &Modifiers) -> (r: bool)
        ensures
            r == jump_matches(*self, *modifiers),
    {
        match self {
            ParsedJumpModifier::Ctrl => modifiers.control && !modifiers.shift && !modifiers.alt
                && !modifiers.platform,
            ParsedJumpModifier::Alt => modifiers.alt && !modifiers.control && !modifiers.shift
                && !modifiers.platform,
            ParsedJumpModifier::CmdShift => modifiers.platform && modifiers.shift
                && !modifiers.control && !modifiers.alt,
        }
    }
}

/// Configured navigation shortcuts; `None` means "use the default".
#[derive(Clone, Debug, Default)]
pub struct NavigationKeybindings {
    pub next_kild: Option<String>,
    pub prev_kild: Option<String>,
    pub jump_modifier: Option<String>,
    pub toggle_view: Option<String>,
    pub next_workspace: Option<String>,
    pub prev_workspace: Option<String>,
}

/// Configured terminal shortcuts; `None` means "use the default".
#[derive(Clone, Debug, Default)]
pub struct TerminalKeybindings {
    pub focus_escape: Option<String>,
    pub copy: Option<String>,
    pub paste: Option<String>,
}

/// Raw keybinding configuration as read from the user's settings.
#[derive(Clone, Debug, Default)]
pub struct Keybindings {
    pub navigation: NavigationKeybindings,
    pub terminal: TerminalKeybindings,
}

/// The configured string, or `default` when nothing is configured.
pub open spec fn configured_or(v: Option<String>, default: Seq<char>) -> Seq<char> {
    match v {
        Some(s) => s@,
        None => default,
    }
}

fn configured_or_default<'a>(v: &'a Option<String>, default: &'a str) -> (r: &'a str)
    ensures
        r@ == configured_or(*v, default@),
{
    match v {
        Some(s) => s.as_str(),
        None => default,
    }
}

/// Parsed terminal shortcuts.
#[derive(Clone, Debug)]
pub struct UiTerminalKeybindings {
    pub focus_escape: ParsedKeybinding,
    pub copy: ParsedKeybinding,
    pub paste: ParsedKeybinding,
}

/// Parsed navigation shortcuts.
#[derive(Clone, Debug)]
pub struct UiNavigationKeybindings {
    pub next_kild: ParsedKeybinding,
    pub prev_kild: ParsedKeybinding,
    pub jump_modifier: ParsedJumpModifier,
    pub toggle_view: ParsedKeybinding,
    pub next_workspace: ParsedKeybinding,
    pub prev_workspace: ParsedKeybinding,
}

/// All parsed UI shortcuts.
#[derive(Clone, Debug)]
pub struct UiKeybindings {
    pub terminal: UiTerminalKeybindings,
    pub navigation: UiNavigationKeybindings,
}

/// A shortcut given by its parts.
pub open spec fn kb(key: Seq<char>, control: bool, alt: bool, shift: bool, platform: bool) -> KeybindingView {
    KeybindingView { key, control, alt, shift, platform }
}

/// The shortcut `raw` describes, or `default` when `raw` does not parse.
pub open spec fn parsed_or(raw: Seq<char>, default: KeybindingView) -> KeybindingView {
    match parse_keybinding(raw) {
        Some(b) => b,
        None => default,
    }
}

fn binding(key: &str, control: bool, alt: bool, shift: bool, platform: bool) -> (r: ParsedKeybinding)
    ensures
        r@ == kb(key@, control, alt, shift, platform),
{
    ParsedKeybinding { key: crate::text::owned(key), control, alt, shift, platform }
}

fn parse_or(raw: &str, default: ParsedKeybinding) -> (r: ParsedKeybinding)
    ensures
        r@ == parsed_or(raw@, default@),
{
    match ParsedKeybinding::from_str(raw) {
        Some(b) => b,
        None => default,
    }
}

/// `r` holds the shortcuts configuration `k` describes, each unset or
/// unparsable entry replaced by its default.
pub open spec fn built_from(r: UiKeybindings, k: Keybindings) -> bool {
    &&& r.terminal.focus_escape@ == parsed_or(configured_or(k.terminal.focus_escape, "ctrl+escape"@), kb("escape"@, true, false, false, false))
    &&& r.terminal.copy@ == parsed_or(configured_or(k.terminal.copy, "cmd+c"@), kb("c"@, false, false, false, true))
    &&& r.terminal.paste@ == parsed_or(configured_or(k.terminal.paste, "cmd+v"@), kb("v"@, false, false, false, true))
    &&& r.navigation.next_kild@ == parsed_or(configured_or(k.navigation.next_kild, "cmd+j"@), kb("j"@, false, false, false, true))
    &&& r.navigation.prev_kild@ == parsed_or(configured_or(k.navigation.prev_kild, "cmd+k"@), kb("k"@, false, false, false, true))
    &&& r.navigation.jump_modifier == parse_jump_modifier(configured_or(k.navigation.jump_modifier, "ctrl"@))
    &&& r.navigation.toggle_view@ == parsed_or(configured_or(k.navigation.toggle_view, "cmd+d"@), kb("d"@, false, false, false, true))
    &&& r.navigation.next_workspace@ == parsed_or(configured_or(k.navigation.next_workspace, "cmd+shift+]"@), kb("]"@, false, false, true, true))
    &&& r.navigation.prev_workspace@ == parsed_or(configured_or(k.navigation.prev_workspace, "cmd+shift+["@), kb("["@, false, false, true, true))
}

/// A configuration with nothing set.
pub open spec fn empty_config() -> Keybindings {
    Keybindings {
        navigation: NavigationKeybindings {
            next_kild: None,
            prev_kild: None,
            jump_modifier: None,
            toggle_view: None,
            next_workspace: None,
            prev_workspace: None,
        },
        terminal: TerminalKeybindings { focus_escape: None, copy: None, paste: None },
    }
}

impl UiKeybindings {
    /// Builds the parsed shortcuts from a configuration. Each unset or
    /// unparsable entry falls back to its default: `ctrl+escape`, `cmd+c`,
    /// `cmd+v`, `cmd+j`, `cmd+k`, `cmd+d`, `cmd+shift+]`, `cmd+shift+[`; the
    /// jump modifier defaults to `ctrl`.
    pub fn from_config(keybindings: &Keybindings) -> (r: UiKeybindings)
        ensures
            built_from(r, *keybindings),
    {
        let nav = &keybindings.navigation;
        let term = &keybindings.terminal;
        UiKeybindings {
            terminal: UiTerminalKeybindings {
                focus_escape: parse_or(
                    configured_or_default(&term.focus_escape, "ctrl+escape"),
                    binding("escape", true, false, false, false),
                ),
                copy: parse_or(
                    configured_or_default(&term.copy, "cmd+c"),
                    binding("c", false, false, false, true),
                ),
                paste: parse_or(
                    configured_or_default(&term.paste, "cmd+v"),
                    binding("v", false, false, false, true),
                ),
            },
            navigation: UiNavigationKeybindings {
                next_kild: parse_or(
                    configured_or_default(&nav.next_kild, "cmd+j"),
                    binding("j", false, false, false, true),
                ),
                prev_kild: parse_or(
                    configured_or_default(&nav.prev_kild, "cmd+k"),
                    binding("k", false, false, false, true),
                ),
                jump_modifier: ParsedJumpModifier::from_str(
                    configured_or_default(&nav.jump_modifier, "ctrl"),
                ),
                toggle_view: parse_or(
                    configured_or_default(&nav.toggle_view, "cmd+d"),
                    binding("d", false, false, false, true),
                ),
                next_workspace: parse_or(
                    configured_or_default(&nav.next_workspace, "cmd+shift+]"),
                    binding("]", false, false, true, true),
                ),
                prev_workspace: parse_or(
                    configured_or_default(&nav.prev_workspace, "cmd+shift+["),
                    binding("[", false, false, true, true),
                ),
            },
        }
    }

    /// The default shortcuts (an empty configuration).
    pub fn default_bindings() -> (r: UiKeybindings)
        ensures
            built_from(r, empty_config()),
    {
        let cfg = Keybindings {
            navigation: NavigationKeybindings {
                next_kild: None,
                prev_kild: None,
                jump_modifier: None,
                toggle_view: None,
                next_workspace: None,
                prev_workspace: None,
            },
            terminal: TerminalKeybindings { focus_escape: None, copy: None, paste: None },
        };
        Self::from_config(&cfg)
    }

    /// Whether `keystroke` is a navigation shortcut that must reach the main
    /// view rather than the terminal: next/prev kild, toggle view, next/prev
    /// workspace, or the focus-escape shortcut.
    pub fn matches_any_nav_shortcut(&self, keystroke: &Keystroke) -> (r: bool)
        ensures
            r == (binding_matches(self.navigation.next_kild@, keystroke.key@, keystroke.modifiers)
                || binding_matches(self.navigation.prev_kild@, keystroke.key@, keystroke.modifiers)
                || binding_matches(self.navigation.toggle_view@, keystroke.key@, keystroke.modifiers)
                || binding_matches(self.navigation.next_workspace@, keystroke.key@, keystroke.modifiers)
                || binding_matches(self.navigation.prev_workspace@, keystroke.key@, keystroke.modifiers)
                || binding_matches(self.terminal.focus_escape@, keystroke.key@, keystroke.modifiers)),
    {
        self.navigation.next_kild.matches(keystroke) || self.navigation.prev_kild.matches(keystroke)
            || self.navigation.toggle_view.matches(keystroke)
            || self.navigation.next_workspace.matches(keystroke)
            || self.navigation.prev_workspace.matches(keystroke)
            || self.terminal.focus_escape.matches(keystroke)
    }
}

/// A shortcut matches a keystroke only when every modifier flag is the
/// same: a shortcut with Alt never matches a keystroke without it, nor one
/// without Alt a keystroke with it (and likewise for Ctrl, Shift and Cmd);
/// with the same flags, it matches exactly the keys that lowercase to its
/// key.
pub proof fn lemma_match_needs_same_modifiers(b: KeybindingView, key: Seq<char>, m: Modifiers)
    ensures
        binding_matches(b, key, m) ==> m.alt == b.alt && m.control == b.control && m.shift == b.shift
            && m.platform == b.platform,
        (m.alt != b.alt || m.control != b.control || m.shift != b.shift || m.platform != b.platform)
            ==> !binding_matches(b, key, m),
        (m.alt == b.alt && m.control == b.control && m.shift == b.shift && m.platform == b.platform) ==> (
        binding_matches(b, key, m) <==> lowercase_text(key) == b.key),
{
}

} // verus!
