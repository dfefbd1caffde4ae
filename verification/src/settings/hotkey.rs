//! Hotkeys as the settings store them: text such as `"ctrl+shift+a"`, with
//! up to four modifiers and one main key, names matched regardless of ASCII
//! case.  Parsing yields the modifiers and the main key's code (the name of
//! the physical key, such as `KeyA`, `Digit1`, `F12` or `ArrowUp`).
use vstd::prelude::*;

use crate::text::{ascii_lower, chars_of, owned, str_eq, string_from_chars, to_ascii_lower};

verus! {

/// A modifier key.
#[derive(Debug, Clone, Copy, PartialEq, Eq, Structural)]
pub enum Modifier {
    Control,
    Shift,
    Alt,
    /// The Command key on macOS, the Windows key elsewhere.
    Super,
}

/// The modifiers held with a hotkey's main key.
#[derive(Debug, Clone, Copy, PartialEq, Eq, Structural)]
pub struct HotkeyModifiers {
    pub control: bool,
    pub shift: bool,
    pub alt: bool,
    pub super_key: bool,
}

/// Whether a modifier is among the held ones.
pub open spec fn holds(m: HotkeyModifiers, k: Modifier) -> bool {
    match k {
        Modifier::Control => m.control,
        Modifier::Shift => m.shift,
        Modifier::Alt => m.alt,
        Modifier::Super => m.super_key,
    }
}

/// The held modifiers with one more.
pub open spec fn with_modifier(m: HotkeyModifiers, k: Modifier) -> HotkeyModifiers {
    match k {
        Modifier::Control => HotkeyModifiers { control: true, ..m },
        Modifier::Shift => HotkeyModifiers { shift: true, ..m },
        Modifier::Alt => HotkeyModifiers { alt: true, ..m },
        Modifier::Super => HotkeyModifiers { super_key: true, ..m },
    }
}

/// No modifier held.
pub open spec fn no_modifiers() -> HotkeyModifiers {
    HotkeyModifiers { control: false, shift: false, alt: false, super_key: false }
}

impl HotkeyModifiers {
    /// Whether the modifier is held.
    pub fn contains(&self, k: Modifier) -> (b: bool)
        ensures
            b == holds(*self, k),
    {
        match k {
            Modifier::Control => self.control,
            Modifier::Shift => self.shift,
            Modifier::Alt => self.alt,
            Modifier::Super => self.super_key,
        }
    }
}

/// A text with its ASCII capitals made small.
pub open spec fn lower_ascii(s: Seq<char>) -> Seq<char> {
    s.map_values(|c: char| ascii_lower(c))
}

/// The modifier a part names, by its lowercase form: `ctrl`, `shift`, `alt`,
/// and `cmd`, `command` or `meta` for the Super key.
pub open spec fn modifier_named_spec(l: Seq<char>) -> Option<Modifier> {
    if l == "ctrl"@ {
        Some(Modifier::Control)
    } else if l == "shift"@ {
        Some(Modifier::Shift)
    } else if l == "alt"@ {
        Some(Modifier::Alt)
    } else if l == "cmd"@ || l == "command"@ || l == "meta"@ {
        Some(Modifier::Super)
    } else {
        None
    }
}

/// Executable form of [`modifier_named_spec`].
fn modifier_named(l: &str) -> (m: Option<Modifier>)
    ensures
        m == modifier_named_spec(l@),
{
    if str_eq(l, "ctrl") {
        Some(Modifier::Control)
    } else if str_eq(l, "shift") {
        Some(Modifier::Shift)
    } else if str_eq(l, "alt") {
        Some(Modifier::Alt)
    } else if str_eq(l, "cmd") || str_eq(l, "command") || str_eq(l, "meta") {
        Some(Modifier::Super)
    } else {
        None
    }
}

/// The code of a named key, by its lowercase name.
pub open spec fn named_key_spec(l: Seq<char>) -> Option<Seq<char>> {
    if l == "space"@ {
        Some("Space"@)
    } else if l == "enter"@ {
        Some("Enter"@)
    } else if l == "tab"@ {
        Some("Tab"@)
    } else if l == "escape"@ {
        Some("Escape"@)
    } else if l == "backspace"@ {
        Some("Backspace"@)
    } else if l == "delete"@ {
        Some("Delete"@)
    } else if l == "insert"@ {
        Some("Insert"@)
    } else if l == "home"@ {
        Some("Home"@)
    } else if l == "end"@ {
        Some("End"@)
    } else if l == "pageup"@ {
        Some("PageUp"@)
    } else if l == "pagedown"@ {
        Some("PageDown"@)
    } else if l == "arrowup"@ {
        Some("ArrowUp"@)
    } else if l == "arrowdown"@ {
        Some("ArrowDown"@)
    } else if l == "arrowleft"@ {
        Some("ArrowLeft"@)
    } else if l == "arrowright"@ {
        Some("ArrowRight"@)
    } else if l == "comma"@ {
        Some("Comma"@)
    } else if l == "period"@ {
        Some("Period"@)
    } else if l == "slash"@ {
        Some("Slash"@)
    } else if l == "backslash"@ {
        Some("Backslash"@)
    } else if l == "semicolon"@ {
        Some("Semicolon"@)
    } else if l == "quote"@ {
        Some("Quote"@)
    } else if l == "backquote"@ {
        Some("Backquote"@)
    } else if l == "bracketleft"@ {
        Some("BracketLeft"@)
    } else if l == "bracketright"@ {
        Some("BracketRight"@)
    } else if l == "minus"@ {
        Some("Minus"@)
    } else if l == "equal"@ {
        Some("Equal"@)
    } else if l == "capslock"@ {
        Some("CapsLock"@)
    } else if l == "printscreen"@ {
        Some("PrintScreen"@)
    } else if l == "scrolllock"@ {
        Some("ScrollLock"@)
    } else if l == "pause"@ {
        Some("Pause"@)
    } else {
        None
    }
}

/// The code of a function key, by its lowercase name.
pub open spec fn function_key_spec(l: Seq<char>) -> Option<Seq<char>> {
    if l == "f1"@ {
        Some("F1"@)
    } else if l == "f2"@ {
        Some("F2"@)
    } else if l == "f3"@ {
        Some("F3"@)
    } else if l == "f4"@ {
        Some("F4"@)
    } else if l == "f5"@ {
        Some("F5"@)
    } else if l == "f6"@ {
        Some("F6"@)
    } else if l == "f7"@ {
        Some("F7"@)
    } else if l == "f8"@ {
        Some("F8"@)
    } else if l == "f9"@ {
        Some("F9"@)
    } else if l == "f10"@ {
        Some("F10"@)
    } else if l == "f11"@ {
        Some("F11"@)
    } else if l == "f12"@ {
        Some("F12"@)
    } else if l == "f13"@ {
        Some("F13"@)
    } else if l == "f14"@ {
        Some("F14"@)
    } else if l == "f15"@ {
        Some("F15"@)
    } else if l == "f16"@ {
        Some("F16"@)
    } else if l == "f17"@ {
        Some("F17"@)
    } else if l == "f18"@ {
        Some("F18"@)
    } else if l == "f19"@ {
        Some("F19"@)
    } else if l == "f20"@ {
        Some("F20"@)
    } else if l == "f21"@ {
        Some("F21"@)
    } else if l == "f22"@ {
        Some("F22"@)
    } else if l == "f23"@ {
        Some("F23"@)
    } else if l == "f24"@ {
        Some("F24"@)
    } else {
        None
    }
}

/// The code of a numeric keypad key, by its lowercase name.
pub open spec fn numpad_key_spec(l: Seq<char>) -> Option<Seq<char>> {
    if l == "numpad0"@ {
        Some("Numpad0"@)
    } else if l == "numpad1"@ {
        Some("Numpad1"@)
    } else if l == "numpad2"@ {
        Some("Numpad2"@)
    } else if l == "numpad3"@ {
        Some("Numpad3"@)
    } else if l == "numpad4"@ {
        Some("Numpad4"@)
    } else if l == "numpad5"@ {
        Some("Numpad5"@)
    } else if l == "numpad6"@ {
        Some("Numpad6"@)
    } else if l == "numpad7"@ {
        Some("Numpad7"@)
    } else if l == "numpad8"@ {
        Some("Numpad8"@)
    } else if l == "numpad9"@ {
        Some("Numpad9"@)
    } else if l == "numpadadd"@ {
        Some("NumpadAdd"@)
    } else if l == "numpadsubtract"@ {
        Some("NumpadSubtract"@)
    } else if l == "numpadmultiply"@ {
        Some("NumpadMultiply"@)
    } else if l == "numpaddivide"@ {
        Some("NumpadDivide"@)
    } else if l == "numpaddecimal"@ {
        Some("NumpadDecimal"@)
    } else if l == "numpadenter"@ {
        Some("NumpadEnter"@)
    } else if l == "numpadequal"@ {
        Some("NumpadEqual"@)
    } else {
        None
    }
}

/// Executable form of [`named_key_spec`].
fn named_key(l: &str) -> (r: Option<String>)
    ensures
        match r {
            Some(c) => named_key_spec(l@) == Some(c@),
            None => named_key_spec(l@) is None,
        },
{
    if str_eq(l, "space") {
        Some(owned("Space"))
    } else if str_eq(l, "enter") {
        Some(owned("Enter"))
    } else if str_eq(l, "tab") {
        Some(owned("Tab"))
    } else if str_eq(l, "escape") {
        Some(owned("Escape"))
    } else if str_eq(l, "backspace") {
        Some(owned("Backspace"))
    } else if str_eq(l, "delete") {
        Some(owned("Delete"))
    } else if str_eq(l, "insert") {
        Some(owned("Insert"))
    } else if str_eq(l, "home") {
        Some(owned("Home"))
    } else if str_eq(l, "end") {
        Some(owned("End"))
    } else if str_eq(l, "pageup") {
        Some(owned("PageUp"))
    } else if str_eq(l, "pagedown") {
        Some(owned("PageDown"))
    } else if str_eq(l, "arrowup") {
        Some(owned("ArrowUp"))
    } else if str_eq(l, "arrowdown") {
        Some(owned("ArrowDown"))
    } else if str_eq(l, "arrowleft") {
        Some(owned("ArrowLeft"))
    } else if str_eq(l, "arrowright") {
        Some(owned("ArrowRight"))
    } else if str_eq(l, "comma") {
        Some(owned("Comma"))
    } else if str_eq(l, "period") {
        Some(owned("Period"))
    } else if str_eq(l, "slash") {
        Some(owned("Slash"))
    } else if str_eq(l, "backslash") {
        Some(owned("Backslash"))
    } else if str_eq(l, "semicolon") {
        Some(owned("Semicolon"))
    } else if str_eq(l, "quote") {
        Some(owned("Quote"))
    } else if str_eq(l, "backquote") {
        Some(owned("Backquote"))
    } else if str_eq(l, "bracketleft") {
        Some(owned("BracketLeft"))
    } else if str_eq(l, "bracketright") {
        Some(owned("BracketRight"))
    } else if str_eq(l, "minus") {
        Some(owned("Minus"))
    } else if str_eq(l, "equal") {
        Some(owned("Equal"))
    } else if str_eq(l, "capslock") {
        Some(owned("CapsLock"))
    } else if str_eq(l, "printscreen") {
        Some(owned("PrintScreen"))
    } else if str_eq(l, "scrolllock") {
        Some(owned("ScrollLock"))
    } else if str_eq(l, "pause") {
        Some(owned("Pause"))
    } else {
        None
    }
}

/// Executable form of [`function_key_spec`].
fn function_key(l: &str) -> (r: Option<String>)
    ensures
        match r {
            Some(c) => function_key_spec(l@) == Some(c@),
            None => function_key_spec(l@) is None,
        },
{
    if str_eq(l, "f1") {
        Some(owned("F1"))
    } else if str_eq(l, "f2") {
        Some(owned("F2"))
    } else if str_eq(l, "f3") {
        Some(owned("F3"))
    } else if str_eq(l, "f4") {
        Some(owned("F4"))
    } else if str_eq(l, "f5") {
        Some(owned("F5"))
    } else if str_eq(l, "f6") {
        Some(owned("F6"))
    } else if str_eq(l, "f7") {
        Some(owned("F7"))
    } else if str_eq(l, "f8") {
        Some(owned("F8"))
    } else if str_eq(l, "f9") {
        Some(owned("F9"))
    } else if str_eq(l, "f10") {
        Some(owned("F10"))
    } else if str_eq(l, "f11") {
        Some(owned("F11"))
    } else if str_eq(l, "f12") {
        Some(owned("F12"))
    } else if str_eq(l, "f13") {
        Some(owned("F13"))
    } else if str_eq(l, "f14") {
        Some(owned("F14"))
    } else if str_eq(l, "f15") {
        Some(owned("F15"))
    } else if str_eq(l, "f16") {
        Some(owned("F16"))
    } else if str_eq(l, "f17") {
        Some(owned("F17"))
    } else if str_eq(l, "f18") {
        Some(owned("F18"))
    } else if str_eq(l, "f19") {
        Some(owned("F19"))
    } else if str_eq(l, "f20") {
        Some(owned("F20"))
    } else if str_eq(l, "f21") {
        Some(owned("F21"))
    } else if str_eq(l, "f22") {
        Some(owned("F22"))
    } else if str_eq(l, "f23") {
        Some(owned("F23"))
    } else if str_eq(l, "f24") {
        Some(owned("F24"))
    } else {
        None
    }
}

/// Executable form of [`numpad_key_spec`].
fn numpad_key(l: &str) -> (r: Option<String>)
    ensures
        match r {
            Some(c) => numpad_key_spec(l@) == Some(c@),
            None => numpad_key_spec(l@) is None,
        },
{
    if str_eq(l, "numpad0") {
        Some(owned("Numpad0"))
    } else if str_eq(l, "numpad1") {
        Some(owned("Numpad1"))
    } else if str_eq(l, "numpad2") {
        Some(owned("Numpad2"))
    } else if str_eq(l, "numpad3") {
        Some(owned("Numpad3"))
    } else if str_eq(l, "numpad4") {
        Some(owned("Numpad4"))
    } else if str_eq(l, "numpad5") {
        Some(owned("Numpad5"))
    } else if str_eq(l, "numpad6") {
        Some(owned("Numpad6"))
    } else if str_eq(l, "numpad7") {
        Some(owned("Numpad7"))
    } else if str_eq(l, "numpad8") {
        Some(owned("Numpad8"))
    } else if str_eq(l, "numpad9") {
        Some(owned("Numpad9"))
    } else if str_eq(l, "numpadadd") {
        Some(owned("NumpadAdd"))
    } else if str_eq(l, "numpadsubtract") {
        Some(owned("NumpadSubtract"))
    } else if str_eq(l, "numpadmultiply") {
        Some(owned("NumpadMultiply"))
    } else if str_eq(l, "numpaddivide") {
        Some(owned("NumpadDivide"))
    } else if str_eq(l, "numpaddecimal") {
        Some(owned("NumpadDecimal"))
    } else if str_eq(l, "numpadenter") {
        Some(owned("NumpadEnter"))
    } else if str_eq(l, "numpadequal") {
        Some(owned("NumpadEqual"))
    } else {
        None
    }
}

/// Whether a lowercase key name names one side of a modifier key.
pub open spec fn sided_modifier_spec(l: Seq<char>) -> bool {
    l == "ctrlleft"@
        || l == "ctrlright"@
        || l == "controlleft"@
        || l == "controlright"@
        || l == "shiftleft"@
        || l == "shiftright"@
        || l == "altleft"@
        || l == "altright"@
        || l == "cmdleft"@
        || l == "cmdright"@
        || l == "metaleft"@
        || l == "metaright"@
}

/// Executable form of [`sided_modifier_spec`].
fn sided_modifier(l: &str) -> (b: bool)
    ensures
        b == sided_modifier_spec(l@),
{
    str_eq(l, "ctrlleft")
        || str_eq(l, "ctrlright")
        || str_eq(l, "controlleft")
        || str_eq(l, "controlright")
        || str_eq(l, "shiftleft")
        || str_eq(l, "shiftright")
        || str_eq(l, "altleft")
        || str_eq(l, "altright")
        || str_eq(l, "cmdleft")
        || str_eq(l, "cmdright")
        || str_eq(l, "metaleft")
        || str_eq(l, "metaright")
}
/// The uppercase form of a lowercase ASCII letter.
pub open spec fn ascii_upper(c: char) -> char {
    ((c as u32) - 32) as char
}

/// The code of a main key, by its lowercase name: a letter or a digit on
/// its own, or a named, function or keypad key.
pub open spec fn key_code_spec(l: Seq<char>) -> Option<Seq<char>> {
    if l.len() == 1 && 'a' <= l[0] && l[0] <= 'z' {
        Some("Key"@ + seq![ascii_upper(l[0])])
    } else if l.len() == 1 && '0' <= l[0] && l[0] <= '9' {
        Some("Digit"@ + seq![l[0]])
    } else if named_key_spec(l) is Some {
        named_key_spec(l)
    } else if function_key_spec(l) is Some {
        function_key_spec(l)
    } else {
        numpad_key_spec(l)
    }
}

/// Whether a lowercase key name names a modifier key, of either side or of
/// none.
pub open spec fn modifier_key_spec(l: Seq<char>) -> bool {
    modifier_named_spec(l) is Some || sided_modifier_spec(l)
}

/// The parts of a text between `+` signs, as `str::split` gives them: an
/// empty text is one empty part.
pub open spec fn split_plus(s: Seq<char>) -> Seq<Seq<char>>
    decreases s.len(),
{
    if s.len() == 0 {
        seq![Seq::empty()]
    } else {
        let prev = split_plus(s.drop_last());
        if s.last() == '+' {
            prev.push(Seq::empty())
        } else {
            prev.update(prev.len() - 1, prev.last().push(s.last()))
        }
    }
}

/// The modifiers that the first `n` parts name, or the error of the first
/// part that names none or one already named.
pub open spec fn modifiers_spec(parts: Seq<Seq<char>>, n: int) -> Result<HotkeyModifiers, Seq<char>>
    decreases n,
{
    if n <= 0 {
        Ok(no_modifiers())
    } else {
        match modifiers_spec(parts, n - 1) {
            Err(e) => Err(e),
            Ok(m) => match modifier_named_spec(lower_ascii(parts[n - 1])) {
                None => Err("Invalid hotkey: unknown modifier '"@ + parts[n - 1] + "'"@),
                Some(k) => if holds(m, k) {
                    Err("Invalid hotkey: duplicate modifier '"@ + parts[n - 1] + "'"@)
                } else {
                    Ok(with_modifier(m, k))
                },
            },
        }
    }
}

/// Whether one of the parts is empty.
pub open spec fn has_empty_part(parts: Seq<Seq<char>>) -> bool {
    exists|i: int| 0 <= i < parts.len() && (#[trigger] parts[i]).len() == 0
}

/// What a hotkey text stands for: one to five parts, none empty; every part
/// but the last a distinct modifier; the last a main key that is no
/// modifier.  The modifiers are absent when none is held.
pub open spec fn hotkey_spec(s: Seq<char>) -> Result<(Option<HotkeyModifiers>, Seq<char>), Seq<char>> {
    let parts = split_plus(s);
    if s.len() == 0 || parts.len() > 5 {
        Err("Invalid hotkey: must have 1-5 keys"@)
    } else if has_empty_part(parts) {
        Err("Invalid hotkey: invalid format, empty key"@)
    } else {
        match modifiers_spec(parts, parts.len() - 1) {
            Err(e) => Err(e),
            Ok(m) => {
                let key = parts[parts.len() - 1];
                let l = lower_ascii(key);
                if modifier_key_spec(l) {
                    Err("Invalid hotkey: modifier key '"@ + key + "' is not supported as the main key"@)
                } else {
                    match key_code_spec(l) {
                        None => Err("Invalid hotkey: unknown key '"@ + key + "'"@),
                        Some(code) => Ok(
                            (
                                if m == no_modifiers() {
                                    None
                                } else {
                                    Some(m)
                                },
                                code,
                            ),
                        ),
                    }
                }
            },
        }
    }
}

/// A text is split into at least one part.
proof fn lemma_split_has_a_part(s: Seq<char>)
    ensures
        split_plus(s).len() >= 1,
    decreases s.len(),
{
    if s.len() > 0 {
        lemma_split_has_a_part(s.drop_last());
    }
}

/// Once a part is rejected, the modifiers of any longer prefix are rejected
/// with the same error.
proof fn lemma_modifier_error_persists(parts: Seq<Seq<char>>, a: int, b: int)
    requires
        0 <= a <= b,
        modifiers_spec(parts, a) is Err,
    ensures
        modifiers_spec(parts, b) == modifiers_spec(parts, a),
    decreases b - a,
{
    if a < b {
        lemma_modifier_error_persists(parts, a, b - 1);
    }
}

/// The views of character vectors.
pub open spec fn part_views(v: Seq<Vec<char>>) -> Seq<Seq<char>> {
    v.map_values(|p: Vec<char>| p@)
}

/// Splits characters at `+` signs.
fn split_plus_exec(s: &Vec<char>) -> (parts: Vec<Vec<char>>)
    ensures
        part_views(parts@) == split_plus(s@),
{
    let mut done: Vec<Vec<char>> = Vec::new();
    let mut cur: Vec<char> = Vec::new();
    let mut i: usize = 0;
    assert(part_views(done@).push(cur@) =~= split_plus(s@.take(0)));
    while i < s.len()
        invariant
            i <= s@.len(),
            part_views(done@).push(cur@) == split_plus(s@.take(i as int)),
        decreases s.len() - i,
    {
        let ghost before = part_views(done@).push(cur@);
        proof {
            assert(s@.take(i + 1).drop_last() =~= s@.take(i as int));
            lemma_split_has_a_part(s@.take(i as int));
        }
        if s[i] == '+' {
            let ghost old_done = done@;
            done.push(cur);
            cur = Vec::new();
            assert(part_views(done@) =~= part_views(old_done).push(before.last()));
            assert(part_views(done@).push(cur@) =~= before.push(Seq::empty()));
        } else {
            cur.push(s[i]);
            assert(part_views(done@).push(cur@) =~= before.update(before.len() - 1, before.last().push(s@[i as int])));
        }
        i = i + 1;
    }
    let ghost fin = part_views(done@).push(cur@);
    done.push(cur);
    assert(s@.take(s@.len() as int) =~= s@);
    assert(part_views(done@) =~= fin);
    done
}

/// The text of characters with their ASCII capitals made small.
fn lower_string(v: &Vec<char>) -> (r: String)
    ensures
        r@ == lower_ascii(v@),
{
    let mut out: Vec<char> = Vec::new();
    let mut i: usize = 0;
    while i < v.len()
        invariant
            i <= v@.len(),
            out@.len() == i,
            forall|j: int| 0 <= j < i ==> out@[j] == ascii_lower(#[trigger] v@[j]),
        decreases v.len() - i,
    {
        out.push(to_ascii_lower(v[i]));
        i = i + 1;
    }
    assert(out@ =~= lower_ascii(v@));
    string_from_chars(&out)
}

/// The held modifiers with one more.
fn add_modifier(m: HotkeyModifiers, k: Modifier) -> (r: HotkeyModifiers)
    ensures
        r == with_modifier(m, k),
{
    match k {
        Modifier::Control => HotkeyModifiers { control: true, ..m },
        Modifier::Shift => HotkeyModifiers { shift: true, ..m },
        Modifier::Alt => HotkeyModifiers { alt: true, ..m },
        Modifier::Super => HotkeyModifiers { super_key: true, ..m },
    }
}

/// An error naming a part: `before`, the part, then `after`.
fn part_error(before: &str, part: &Vec<char>, after: &str) -> (e: String)
    ensures
        e@ == before@ + part@ + after@,
{
    let mut e = owned(before);
    let p = string_from_chars(part);
    crate::text::append_str(&mut e, p.as_str());
    crate::text::append_str(&mut e, after);
    e
}

/// Executable form of [`key_code_spec`].
fn key_code(l: &str) -> (r: Option<String>)
    ensures
        match r {
            Some(c) => key_code_spec(l@) == Some(c@),
            None => key_code_spec(l@) is None,
        },
{
    let v = chars_of(l);
    if v.len() == 1 && 'a' <= v[0] && v[0] <= 'z' {
        let u: u32 = (v[0] as u32) - 32;
        let mut code = owned("Key");
        let b: u8 = u as u8;
        let c: char = b as char;
        let mut tail: Vec<char> = Vec::new();
        tail.push(c);
        let t = string_from_chars(&tail);
        crate::text::append_str(&mut code, t.as_str());
        assert(tail@ =~= seq![ascii_upper(l@[0])]);
        Some(code)
    } else if v.len() == 1 && '0' <= v[0] && v[0] <= '9' {
        let mut code = owned("Digit");
        let t = string_from_chars(&v);
        crate::text::append_str(&mut code, t.as_str());
        assert(v@ =~= seq![l@[0]]);
        Some(code)
    } else {
        match named_key(l) {
            Some(c) => Some(c),
            None => match function_key(l) {
                Some(c) => Some(c),
                None => numpad_key(l),
            },
        }
    }
}

/// Parses a hotkey text into its modifiers and its main key's code, or says
/// what is wrong with it.
pub fn parse_hotkey(hotkey: &str) -> (r: Result<(Option<HotkeyModifiers>, String), String>)
    ensures
        match (r, hotkey_spec(hotkey@)) {
            (Ok(x), Ok(y)) => x.0 == y.0 && x.1@ == y.1,
            (Err(e), Err(f)) => e@ == f,
            _ => false,
        },
{
    let s = chars_of(hotkey);
    let parts = split_plus_exec(&s);
    let ghost ps = part_views(parts@);
    proof {
        lemma_split_has_a_part(hotkey@);
    }
    if s.len() == 0 || parts.len() > 5 {
        return Err(owned("Invalid hotkey: must have 1-5 keys"));
    }
    let mut i: usize = 0;
    while i < parts.len()
        invariant
            ps == part_views(parts@),
            ps == split_plus(hotkey@),
            hotkey@.len() > 0,
            parts@.len() <= 5,
            i <= parts@.len(),
            forall|j: int| 0 <= j < i ==> (#[trigger] ps[j]).len() > 0,
        decreases parts.len() - i,
    {
        if parts[i].len() == 0 {
            assert(ps[i as int].len() == 0);
            return Err(owned("Invalid hotkey: invalid format, empty key"));
        }
        i = i + 1;
    }
    assert(!has_empty_part(ps));
    let n = parts.len();
    let mut mods = HotkeyModifiers { control: false, shift: false, alt: false, super_key: false };
    let mut j: usize = 0;
    while j < n - 1
        invariant
            ps == part_views(parts@),
            ps == split_plus(hotkey@),
            hotkey@.len() > 0,
            !has_empty_part(ps),
            n == parts@.len(),
            1 <= n <= 5,
            j <= n - 1,
            modifiers_spec(ps, j as int) == Ok::<HotkeyModifiers, Seq<char>>(mods),
        decreases n - 1 - j,
    {
        let l = lower_string(&parts[j]);
        assert(ps[j as int] == parts@[j as int]@);
        match modifier_named(l.as_str()) {
            None => {
                proof {
                    lemma_modifier_error_persists(ps, j + 1, n - 1);
                }
                return Err(part_error("Invalid hotkey: unknown modifier '", &parts[j], "'"));
            },
            Some(k) => {
                if mods.contains(k) {
                    proof {
                        lemma_modifier_error_persists(ps, j + 1, n - 1);
                    }
                    return Err(part_error("Invalid hotkey: duplicate modifier '", &parts[j], "'"));
                }
                mods = add_modifier(mods, k);
            },
        }
        j = j + 1;
    }
    let key = &parts[n - 1];
    assert(ps[n - 1] == key@);
    let l = lower_string(key);
    let is_modifier = match modifier_named(l.as_str()) {
        Some(_) => true,
        None => sided_modifier(l.as_str()),
    };
    if is_modifier {
        return Err(part_error("Invalid hotkey: modifier key '", key, "' is not supported as the main key"));
    }
    match key_code(l.as_str()) {
        None => Err(part_error("Invalid hotkey: unknown key '", key, "'")),
        Some(code) => {
            let held = mods.control || mods.shift || mods.alt || mods.super_key;
            if held {
                Ok((Some(mods), code))
            } else {
                Ok((None, code))
            }
        },
    }
}


/// Making ASCII capitals small twice is making them small once.
proof fn lemma_lower_char_idempotent(c: char)
    ensures
        ascii_lower(ascii_lower(c)) == ascii_lower(c),
        ascii_lower(c) == '+' <==> c == '+',
{
    if 'A' <= c && c <= 'Z' {
        let u = (c as u32) + 32;
        assert(0x61 <= u <= 0x7A);
        assert((u as char) as u32 == u);
    }
}

/// Making ASCII capitals small twice is making them small once, for a text.
proof fn lemma_lower_idempotent(s: Seq<char>)
    ensures
        lower_ascii(lower_ascii(s)) == lower_ascii(s),
{
    assert forall|i: int| 0 <= i < s.len() implies #[trigger] lower_ascii(lower_ascii(s))[i] == lower_ascii(s)[i] by {
        lemma_lower_char_idempotent(s[i]);
    }
    assert(lower_ascii(lower_ascii(s)) =~= lower_ascii(s));
}

/// Splitting a text with small capitals gives its parts with small capitals.
proof fn lemma_split_lower(s: Seq<char>)
    ensures
        split_plus(lower_ascii(s)) == split_plus(s).map_values(|p: Seq<char>| lower_ascii(p)),
    decreases s.len(),
{
    let l = lower_ascii(s);
    if s.len() == 0 {
        assert(l =~= Seq::<char>::empty());
        assert(lower_ascii(Seq::<char>::empty()) =~= Seq::<char>::empty());
        assert(split_plus(s).map_values(|p: Seq<char>| lower_ascii(p))[0] == lower_ascii(Seq::<char>::empty()));
        assert(split_plus(s).map_values(|p: Seq<char>| lower_ascii(p)) =~= seq![Seq::<char>::empty()]);
    } else {
        let d = s.drop_last();
        assert(l.drop_last() =~= lower_ascii(d));
        lemma_split_lower(d);
        lemma_split_has_a_part(d);
        lemma_lower_char_idempotent(s.last());
        let prev = split_plus(d);
        let lprev = prev.map_values(|p: Seq<char>| lower_ascii(p));
        if s.last() == '+' {
            assert(lower_ascii(Seq::<char>::empty()) =~= Seq::<char>::empty());
            assert(prev.push(Seq::empty()).map_values(|p: Seq<char>| lower_ascii(p)) =~= lprev.push(Seq::empty()));
        } else {
            assert(lower_ascii(prev.last().push(s.last())) =~= lprev.last().push(l.last()));
            assert(prev.update(prev.len() - 1, prev.last().push(s.last())).map_values(|p: Seq<char>| lower_ascii(p))
                =~= lprev.update(lprev.len() - 1, lprev.last().push(l.last())));
        }
    }
}

/// The modifiers of parts with small capitals are those of the parts, when
/// the parts name modifiers.
proof fn lemma_modifiers_ignore_case(parts: Seq<Seq<char>>, n: int)
    requires
        0 <= n <= parts.len(),
    ensures
        modifiers_spec(parts.map_values(|p: Seq<char>| lower_ascii(p)), n) is Ok == modifiers_spec(parts, n) is Ok,
        modifiers_spec(parts, n) is Ok ==> modifiers_spec(parts.map_values(|p: Seq<char>| lower_ascii(p)), n)
            == modifiers_spec(parts, n),
    decreases n,
{
    if n > 0 {
        lemma_modifiers_ignore_case(parts, n - 1);
        lemma_lower_idempotent(parts[n - 1]);
    }
}

/// Law: hotkey names are read regardless of ASCII case: a hotkey is valid
/// exactly when its small-capital form is, and both stand for the same keys.
pub proof fn lemma_hotkey_names_ignore_case(s: Seq<char>)
    ensures
        hotkey_spec(lower_ascii(s)) is Ok == hotkey_spec(s) is Ok,
        hotkey_spec(s) is Ok ==> hotkey_spec(lower_ascii(s)) == hotkey_spec(s),
{
    let parts = split_plus(s);
    let lparts = parts.map_values(|p: Seq<char>| lower_ascii(p));
    lemma_split_lower(s);
    lemma_split_has_a_part(s);
    assert(lower_ascii(s).len() == s.len());
    if has_empty_part(parts) {
        let i = choose|i: int| 0 <= i < parts.len() && (#[trigger] parts[i]).len() == 0;
        assert(lparts[i].len() == 0);
    }
    if has_empty_part(lparts) {
        let i = choose|i: int| 0 <= i < lparts.len() && (#[trigger] lparts[i]).len() == 0;
        assert(parts[i].len() == 0);
    }
    lemma_modifiers_ignore_case(parts, parts.len() - 1);
    lemma_lower_idempotent(parts[parts.len() - 1]);
}


/// Whether optional modifiers hold a modifier.
pub open spec fn held(o: Option<HotkeyModifiers>, k: Modifier) -> bool {
    o matches Some(m) && holds(m, k)
}

/// Law: adding a modifier holds it, and leaves every other modifier as it was.
pub proof fn lemma_with_modifier_holds(m: HotkeyModifiers, k: Modifier, other: Modifier)
    ensures
        holds(with_modifier(m, k), k),
        other != k ==> holds(with_modifier(m, k), other) == holds(m, other),
        holds(with_modifier(m, k), other) == (other == k || holds(m, other)),
{
}

/// The modifiers the first `n` parts name are held, and no others.
proof fn lemma_modifiers_held(parts: Seq<Seq<char>>, n: int)
    requires
        0 <= n <= parts.len(),
        modifiers_spec(parts, n) is Ok,
    ensures
        forall|i: int|
            0 <= i < n ==> (modifier_named_spec(lower_ascii(#[trigger] parts[i])) matches Some(k) && holds(
                modifiers_spec(parts, n)->Ok_0,
                k,
            )),
        forall|k: Modifier|
            #[trigger] holds(modifiers_spec(parts, n)->Ok_0, k) ==> exists|i: int|
                0 <= i < n && modifier_named_spec(lower_ascii(#[trigger] parts[i])) == Some(k),
    decreases n,
{
    if n > 0 {
        lemma_modifiers_held(parts, n - 1);
        let m = modifiers_spec(parts, n - 1)->Ok_0;
        let k = modifier_named_spec(lower_ascii(parts[n - 1]))->Some_0;
        assert forall|k2: Modifier| #[trigger] holds(modifiers_spec(parts, n)->Ok_0, k2) implies exists|i: int|
            0 <= i < n && modifier_named_spec(lower_ascii(#[trigger] parts[i])) == Some(k2) by {
            lemma_with_modifier_holds(m, k, k2);
            if k2 == k {
                assert(modifier_named_spec(lower_ascii(parts[n - 1])) == Some(k2));
            } else {
                assert(holds(m, k2));
            }
        }
        assert forall|i: int| 0 <= i < n implies (modifier_named_spec(lower_ascii(#[trigger] parts[i])) matches Some(
            k2,
        ) && holds(modifiers_spec(parts, n)->Ok_0, k2)) by {
            let k2 = modifier_named_spec(lower_ascii(parts[i]))->Some_0;
            lemma_with_modifier_holds(m, k, k2);
        }
    }
}

/// Law: a parsed hotkey holds exactly the modifiers its parts name: every
/// part before the main key names a modifier that is held, every held
/// modifier is named by such a part, and the modifiers are absent exactly
/// when the hotkey is its main key alone.
pub proof fn lemma_parsed_hotkey_holds_named_modifiers(s: Seq<char>)
    requires
        hotkey_spec(s) is Ok,
    ensures
        split_plus(s).len() == 1 <==> hotkey_spec(s)->Ok_0.0 is None,
        forall|i: int|
            0 <= i < split_plus(s).len() - 1 ==> (modifier_named_spec(lower_ascii(#[trigger] split_plus(s)[i]))
                matches Some(k) && held(hotkey_spec(s)->Ok_0.0, k)),
        forall|k: Modifier|
            #[trigger] held(hotkey_spec(s)->Ok_0.0, k) ==> exists|i: int|
                0 <= i < split_plus(s).len() - 1 && modifier_named_spec(lower_ascii(#[trigger] split_plus(s)[i]))
                    == Some(k),
{
    let parts = split_plus(s);
    lemma_split_has_a_part(s);
    let n = parts.len() - 1;
    lemma_modifiers_held(parts, n);
    let m = modifiers_spec(parts, n)->Ok_0;
    if n > 0 {
        let k = modifier_named_spec(lower_ascii(parts[0]))->Some_0;
        assert(holds(m, k));
        assert(m != no_modifiers());
    } else {
        assert(m == no_modifiers());
    }
    if m == no_modifiers() {
        if n > 0 {
            let k = modifier_named_spec(lower_ascii(parts[0]))->Some_0;
            assert(holds(m, k));
        }
    }
}

} // verus!
