//! What the virtual keyboard types: the character-to-key table, the keys the
//! device must register, and the taps a string becomes.
//!
//! Key codes are the Linux input event codes (`evdev::KeyCode` values);
//! emitting events on the uinput device happens outside the library.

use vstd::prelude::*;

verus! {

pub const KEY_ESC: u16 = 1;
pub const KEY_1: u16 = 2;
pub const KEY_2: u16 = 3;
pub const KEY_3: u16 = 4;
pub const KEY_4: u16 = 5;
pub const KEY_5: u16 = 6;
pub const KEY_6: u16 = 7;
pub const KEY_7: u16 = 8;
pub const KEY_8: u16 = 9;
pub const KEY_9: u16 = 10;
pub const KEY_0: u16 = 11;
pub const KEY_MINUS: u16 = 12;
pub const KEY_EQUAL: u16 = 13;
pub const KEY_BACKSPACE: u16 = 14;
pub const KEY_TAB: u16 = 15;
pub const KEY_Q: u16 = 16;
pub const KEY_W: u16 = 17;
pub const KEY_E: u16 = 18;
pub const KEY_R: u16 = 19;
pub const KEY_T: u16 = 20;
pub const KEY_Y: u16 = 21;
pub const KEY_U: u16 = 22;
pub const KEY_I: u16 = 23;
pub const KEY_O: u16 = 24;
pub const KEY_P: u16 = 25;
pub const KEY_LEFTBRACE: u16 = 26;
pub const KEY_RIGHTBRACE: u16 = 27;
pub const KEY_ENTER: u16 = 28;
pub const KEY_LEFTCTRL: u16 = 29;
pub const KEY_A: u16 = 30;
pub const KEY_S: u16 = 31;
pub const KEY_D: u16 = 32;
pub const KEY_F: u16 = 33;
pub const KEY_G: u16 = 34;
pub const KEY_H: u16 = 35;
pub const KEY_J: u16 = 36;
pub const KEY_K: u16 = 37;
pub const KEY_L: u16 = 38;
pub const KEY_SEMICOLON: u16 = 39;
pub const KEY_APOSTROPHE: u16 = 40;
pub const KEY_GRAVE: u16 = 41;
pub const KEY_LEFTSHIFT: u16 = 42;
pub const KEY_BACKSLASH: u16 = 43;
pub const KEY_Z: u16 = 44;
pub const KEY_X: u16 = 45;
pub const KEY_C: u16 = 46;
pub const KEY_V: u16 = 47;
pub const KEY_B: u16 = 48;
pub const KEY_N: u16 = 49;
pub const KEY_M: u16 = 50;
pub const KEY_COMMA: u16 = 51;
pub const KEY_DOT: u16 = 52;
pub const KEY_SLASH: u16 = 53;
pub const KEY_RIGHTSHIFT: u16 = 54;
pub const KEY_LEFTALT: u16 = 56;
pub const KEY_SPACE: u16 = 57;
pub const KEY_RIGHTCTRL: u16 = 97;
pub const KEY_RIGHTALT: u16 = 100;

/// One key tap: the character it types, its key, and whether Shift is held.
#[derive(Debug, Clone, Copy, PartialEq, Eq, Structural)]
pub struct Tap {
    pub ch: char,
    pub code: u16,
    pub shift: bool,
}

/// The key (and Shift) that types `c` on a US layout; `None` for characters
/// the keyboard cannot type.
pub open spec fn key_for(c: char) -> Option<(u16, bool)> {
    match c {
        'a' => Some((KEY_A, false)),
        'b' => Some((KEY_B, false)),
        'c' => Some((KEY_C, false)),
        'd' => Some((KEY_D, false)),
        'e' => Some((KEY_E, false)),
        'f' => Some((KEY_F, false)),
        'g' => Some((KEY_G, false)),
        'h' => Some((KEY_H, false)),
        'i' => Some((KEY_I, false)),
        'j' => Some((KEY_J, false)),
        'k' => Some((KEY_K, false)),
        'l' => Some((KEY_L, false)),
        'm' => Some((KEY_M, false)),
        'n' => Some((KEY_N, false)),
        'o' => Some((KEY_O, false)),
        'p' => Some((KEY_P, false)),
        'q' => Some((KEY_Q, false)),
        'r' => Some((KEY_R, false)),
        's' => Some((KEY_S, false)),
        't' => Some((KEY_T, false)),
        'u' => Some((KEY_U, false)),
        'v' => Some((KEY_V, false)),
        'w' => Some((KEY_W, false)),
        'x' => Some((KEY_X, false)),
        'y' => Some((KEY_Y, false)),
        'z' => Some((KEY_Z, false)),
        'A' => Some((KEY_A, true)),
        'B' => Some((KEY_B, true)),
        'C' => Some((KEY_C, true)),
        'D' => Some((KEY_D, true)),
        'E' => Some((KEY_E, true)),
        'F' => Some((KEY_F, true)),
        'G' => Some((KEY_G, true)),
        'H' => Some((KEY_H, true)),
        'I' => Some((KEY_I, true)),
        'J' => Some((KEY_J, true)),
        'K' => Some((KEY_K, true)),
        'L' => Some((KEY_L, true)),
        'M' => Some((KEY_M, true)),
        'N' => Some((KEY_N, true)),
        'O' => Some((KEY_O, true)),
        'P' => Some((KEY_P, true)),
        'Q' => Some((KEY_Q, true)),
        'R' => Some((KEY_R, true)),
        'S' => Some((KEY_S, true)),
        'T' => Some((KEY_T, true)),
        'U' => Some((KEY_U, true)),
        'V' => Some((KEY_V, true)),
        'W' => Some((KEY_W, true)),
        'X' => Some((KEY_X, true)),
        'Y' => Some((KEY_Y, true)),
        'Z' => Some((KEY_Z, true)),
        '1' => Some((KEY_1, false)),
        '2' => Some((KEY_2, false)),
        '3' => Some((KEY_3, false)),
        '4' => Some((KEY_4, false)),
        '5' => Some((KEY_5, false)),
        '6' => Some((KEY_6, false)),
        '7' => Some((KEY_7, false)),
        '8' => Some((KEY_8, false)),
        '9' => Some((KEY_9, false)),
        '0' => Some((KEY_0, false)),
        '!' => Some((KEY_1, true)),
        '@' => Some((KEY_2, true)),
        '#' => Some((KEY_3, true)),
        '$' => Some((KEY_4, true)),
        '%' => Some((KEY_5, true)),
        '^' => Some((KEY_6, true)),
        '&' => Some((KEY_7, true)),
        '*' => Some((KEY_8, true)),
        '(' => Some((KEY_9, true)),
        ')' => Some((KEY_0, true)),
        '-' => Some((KEY_MINUS, false)),
        '_' => Some((KEY_MINUS, true)),
        '=' => Some((KEY_EQUAL, false)),
        '+' => Some((KEY_EQUAL, true)),
        '[' => Some((KEY_LEFTBRACE, false)),
        '{' => Some((KEY_LEFTBRACE, true)),
        ']' => Some((KEY_RIGHTBRACE, false)),
        '}' => Some((KEY_RIGHTBRACE, true)),
        ';' => Some((KEY_SEMICOLON, false)),
        ':' => Some((KEY_SEMICOLON, true)),
        '\'' => Some((KEY_APOSTROPHE, false)),
        '"' => Some((KEY_APOSTROPHE, true)),
        '`' => Some((KEY_GRAVE, false)),
        '~' => Some((KEY_GRAVE, true)),
        '\\' => Some((KEY_BACKSLASH, false)),
        '|' => Some((KEY_BACKSLASH, true)),
        ',' => Some((KEY_COMMA, false)),
        '<' => Some((KEY_COMMA, true)),
        '.' => Some((KEY_DOT, false)),
        '>' => Some((KEY_DOT, true)),
        '/' => Some((KEY_SLASH, false)),
        '?' => Some((KEY_SLASH, true)),
        ' ' => Some((KEY_SPACE, false)),
        '\n' => Some((KEY_ENTER, false)),
        '\t' => Some((KEY_TAB, false)),
        _ => None,
    }
}

/// The key (and Shift) that types `c`, if any.
pub fn key_for_char(c: char) -> (r: Option<(u16, bool)>)
    ensures
        r == key_for(c),
{
    match c {
        'a' => Some((KEY_A, false)),
        'b' => Some((KEY_B, false)),
        'c' => Some((KEY_C, false)),
        'd' => Some((KEY_D, false)),
        'e' => Some((KEY_E, false)),
        'f' => Some((KEY_F, false)),
        'g' => Some((KEY_G, false)),
        'h' => Some((KEY_H, false)),
        'i' => Some((KEY_I, false)),
        'j' => Some((KEY_J, false)),
        'k' => Some((KEY_K, false)),
        'l' => Some((KEY_L, false)),
        'm' => Some((KEY_M, false)),
        'n' => Some((KEY_N, false)),
        'o' => Some((KEY_O, false)),
        'p' => Some((KEY_P, false)),
        'q' => Some((KEY_Q, false)),
        'r' => Some((KEY_R, false)),
        's' => Some((KEY_S, false)),
        't' => Some((KEY_T, false)),
        'u' => Some((KEY_U, false)),
        'v' => Some((KEY_V, false)),
        'w' => Some((KEY_W, false)),
        'x' => Some((KEY_X, false)),
        'y' => Some((KEY_Y, false)),
        'z' => Some((KEY_Z, false)),
        'A' => Some((KEY_A, true)),
        'B' => Some((KEY_B, true)),
        'C' => Some((KEY_C, true)),
        'D' => Some((KEY_D, true)),
        'E' => Some((KEY_E, true)),
        'F' => Some((KEY_F, true)),
        'G' => Some((KEY_G, true)),
        'H' => Some((KEY_H, true)),
        'I' => Some((KEY_I, true)),
        'J' => Some((KEY_J, true)),
        'K' => Some((KEY_K, true)),
        'L' => Some((KEY_L, true)),
        'M' => Some((KEY_M, true)),
        'N' => Some((KEY_N, true)),
        'O' => Some((KEY_O, true)),
        'P' => Some((KEY_P, true)),
        'Q' => Some((KEY_Q, true)),
        'R' => Some((KEY_R, true)),
        'S' => Some((KEY_S, true)),
        'T' => Some((KEY_T, true)),
        'U' => Some((KEY_U, true)),
        'V' => Some((KEY_V, true)),
        'W' => Some((KEY_W, true)),
        'X' => Some((KEY_X, true)),
        'Y' => Some((KEY_Y, true)),
        'Z' => Some((KEY_Z, true)),
        '1' => Some((KEY_1, false)),
        '2' => Some((KEY_2, false)),
        '3' => Some((KEY_3, false)),
        '4' => Some((KEY_4, false)),
        '5' => Some((KEY_5, false)),
        '6' => Some((KEY_6, false)),
        '7' => Some((KEY_7, false)),
        '8' => Some((KEY_8, false)),
        '9' => Some((KEY_9, false)),
        '0' => Some((KEY_0, false)),
        '!' => Some((KEY_1, true)),
        '@' => Some((KEY_2, true)),
        '#' => Some((KEY_3, true)),
        '$' => Some((KEY_4, true)),
        '%' => Some((KEY_5, true)),
        '^' => Some((KEY_6, true)),
        '&' => Some((KEY_7, true)),
        '*' => Some((KEY_8, true)),
        '(' => Some((KEY_9, true)),
        ')' => Some((KEY_0, true)),
        '-' => Some((KEY_MINUS, false)),
        '_' => Some((KEY_MINUS, true)),
        '=' => Some((KEY_EQUAL, false)),
        '+' => Some((KEY_EQUAL, true)),
        '[' => Some((KEY_LEFTBRACE, false)),
        '{' => Some((KEY_LEFTBRACE, true)),
        ']' => Some((KEY_RIGHTBRACE, false)),
        '}' => Some((KEY_RIGHTBRACE, true)),
        ';' => Some((KEY_SEMICOLON, false)),
        ':' => Some((KEY_SEMICOLON, true)),
        '\'' => Some((KEY_APOSTROPHE, false)),
        '"' => Some((KEY_APOSTROPHE, true)),
        '`' => Some((KEY_GRAVE, false)),
        '~' => Some((KEY_GRAVE, true)),
        '\\' => Some((KEY_BACKSLASH, false)),
        '|' => Some((KEY_BACKSLASH, true)),
        ',' => Some((KEY_COMMA, false)),
        '<' => Some((KEY_COMMA, true)),
        '.' => Some((KEY_DOT, false)),
        '>' => Some((KEY_DOT, true)),
        '/' => Some((KEY_SLASH, false)),
        '?' => Some((KEY_SLASH, true)),
        ' ' => Some((KEY_SPACE, false)),
        '\n' => Some((KEY_ENTER, false)),
        '\t' => Some((KEY_TAB, false)),
        _ => None,
    }
}

/// The taps that type `s`: one per character the keyboard can type, in
/// order; other characters are skipped.
pub open spec fn taps_for(s: Seq<char>) -> Seq<Tap>
    decreases s.len(),
{
    if s.len() == 0 {
        Seq::empty()
    } else {
        let rest = taps_for(s.drop_last());
        match key_for(s.last()) {
            Some((code, shift)) => rest.push(Tap { ch: s.last(), code, shift }),
            None => rest,
        }
    }
}

/// The taps that type `text`.
pub fn plan_taps(text: &str) -> (r: Vec<Tap>)
    ensures
        r@ == taps_for(text@),
{
    let v = crate::text::chars_of(text);
    let mut r: Vec<Tap> = Vec::new();
    let mut i: usize = 0;
    while i < v.len()
        invariant
            i <= v.len(),
            r@ == taps_for(v@.take(i as int)),
        decreases v.len() - i,
    {
        let c = v[i];
        assert(v@.take(i + 1).drop_last() == v@.take(i as int));
        match key_for_char(c) {
            Some((code, shift)) => r.push(Tap { ch: c, code, shift }),
            None => {},
        }
        i = i + 1;
    }
    assert(v@.take(v.len() as int) == v@);
    r
}

/// One key event on the virtual keyboard (each is followed by a sync
/// report), then a pause of `pause_ms` before the next.
#[derive(Debug, Clone, Copy, PartialEq, Eq, Structural)]
pub struct KeyStep {
    pub code: u16,
    /// 1 for a press, 0 for a release.
    pub value: i32,
    pub pause_ms: u64,
}

/// How long a key is held down.
pub const HOLD_MS: u64 = 4;

/// The pause after a tap, before the next one.
pub const GAP_MS: u64 = 2;

/// The events of one tap: Shift down if needed, the key down, a hold, the
/// key up, Shift up if needed, and a short gap.
pub open spec fn steps_for(t: Tap) -> Seq<KeyStep> {
    if t.shift {
        seq![
            KeyStep { code: KEY_LEFTSHIFT, value: 1, pause_ms: 0 },
            KeyStep { code: t.code, value: 1, pause_ms: HOLD_MS },
            KeyStep { code: t.code, value: 0, pause_ms: 0 },
            KeyStep { code: KEY_LEFTSHIFT, value: 0, pause_ms: GAP_MS },
        ]
    } else {
        seq![
            KeyStep { code: t.code, value: 1, pause_ms: HOLD_MS },
            KeyStep { code: t.code, value: 0, pause_ms: GAP_MS },
        ]
    }
}

/// The key events that perform `t`, in order.
pub fn tap_steps(t: Tap) -> (r: Vec<KeyStep>)
    ensures
        r@ == steps_for(t),
{
    let mut r: Vec<KeyStep> = Vec::new();
    if t.shift {
        r.push(KeyStep { code: KEY_LEFTSHIFT, value: 1, pause_ms: 0 });
        r.push(KeyStep { code: t.code, value: 1, pause_ms: HOLD_MS });
        r.push(KeyStep { code: t.code, value: 0, pause_ms: 0 });
        r.push(KeyStep { code: KEY_LEFTSHIFT, value: 0, pause_ms: GAP_MS });
    } else {
        r.push(KeyStep { code: t.code, value: 1, pause_ms: HOLD_MS });
        r.push(KeyStep { code: t.code, value: 0, pause_ms: GAP_MS });
    }
    assert(r@ =~= steps_for(t));
    r
}

/// The keys the virtual keyboard registers: Shift, Ctrl and Alt on both
/// sides, Backspace, Escape, and every key of the character table.
pub open spec fn registered_key(k: u16) -> bool {
    (1 <= k && k <= 54) || k == KEY_LEFTALT || k == KEY_SPACE || k == KEY_RIGHTCTRL || k
        == KEY_RIGHTALT
}

/// The codes to register on the virtual keyboard, in increasing order.
pub fn keyboard_keys() -> (r: Vec<u16>)
    ensures
        forall|i: int| 0 <= i < r@.len() ==> registered_key(#[trigger] r@[i]),
        forall|k: u16| registered_key(k) ==> r@.contains(k),
        forall|i: int, j: int| 0 <= i < j < r@.len() ==> r@[i] < r@[j],
{
    let mut r: Vec<u16> = Vec::new();
    let mut k: u16 = 1;
    while k <= 54
        invariant
            1 <= k <= 55,
            r@.len() == k - 1,
            forall|i: int| 0 <= i < r@.len() ==> r@[i] == i + 1,
        decreases 55 - k,
    {
        r.push(k);
        k = k + 1;
    }
    r.push(KEY_LEFTALT);
    r.push(KEY_SPACE);
    r.push(KEY_RIGHTCTRL);
    r.push(KEY_RIGHTALT);
    assert forall|k: u16| registered_key(k) implies r@.contains(k) by {
        if 1 <= k <= 54 {
            assert(r@[k - 1] == k);
        } else if k == KEY_LEFTALT {
            assert(r@[54] == k);
        } else if k == KEY_SPACE {
            assert(r@[55] == k);
        } else if k == KEY_RIGHTCTRL {
            assert(r@[56] == k);
        } else {
            assert(r@[57] == k);
        }
    }
    r
}

/// A character a US keyboard types directly: printable ASCII (space to
/// tilde), newline and tab.
pub open spec fn typable(c: char) -> bool {
    (0x20 <= c as u32 && c as u32 <= 0x7e) || c == '\n' || c == '\t'
}

/// Space, newline and tab are typed with Space, Enter and Tab; a digit
/// with its number key; a lowercase letter with its key, and the same
/// letter in upper case with that key and Shift.
pub proof fn lemma_whitespace_digits_and_letters(c: char)
    ensures
        key_for(' ') == Some((KEY_SPACE, false)),
        key_for('\n') == Some((KEY_ENTER, false)),
        key_for('\t') == Some((KEY_TAB, false)),
        key_for('0') == Some((KEY_0, false)),
        ('1' <= c && c <= '9') ==> key_for(c) == Some(((KEY_1 + (c as u32 - '1' as u32)) as u16, false)),
        ('a' <= c && c <= 'z') ==> (key_for(c) matches Some((k, false)) && key_for(
            ((c as u32) - 32) as char,
        ) == Some((k, true))),
{
}

/// Every typable character has a key.
pub proof fn lemma_typable_has_key(c: char)
    requires
        typable(c),
    ensures
        key_for(c) is Some,
{
}

/// Text made of typable characters is typed in full: one tap per
/// character, in order, each for its own character.
pub proof fn lemma_typable_text_is_typed_in_full(s: Seq<char>)
    requires
        forall|i: int| 0 <= i < s.len() ==> typable(#[trigger] s[i]),
    ensures
        taps_for(s).len() == s.len(),
        forall|i: int| 0 <= i < s.len() ==> (#[trigger] taps_for(s)[i]).ch == s[i],
    decreases s.len(),
{
    if s.len() > 0 {
        let t = s.drop_last();
        assert forall|i: int| 0 <= i < t.len() implies typable(#[trigger] t[i]) by {
            assert(t[i] == s[i]);
        }
        lemma_typable_text_is_typed_in_full(t);
        lemma_typable_has_key(s.last());
        assert forall|i: int| 0 <= i < s.len() implies (#[trigger] taps_for(s)[i]).ch == s[i] by {
            if i < s.len() - 1 {
                assert(taps_for(s)[i] == taps_for(t)[i]);
                assert(t[i] == s[i]);
            }
        }
    }
}

/// A tap leaves no key held: every key it presses it releases again, after
/// the press, and Shift is released after the key.
pub proof fn lemma_tap_releases_keys(t: Tap)
    ensures
        forall|i: int|
            0 <= i < steps_for(t).len() && (#[trigger] steps_for(t)[i]).value == 1 ==> exists|
                j: int,
            |
                i < j < steps_for(t).len() && (#[trigger] steps_for(t)[j]).value == 0
                    && steps_for(t)[j].code == steps_for(t)[i].code,
        steps_for(t).last().value == 0,
        t.shift ==> steps_for(t).last().code == KEY_LEFTSHIFT,
{
    let s = steps_for(t);
    if t.shift {
        assert(s[0].value == 1 ==> s[3].value == 0 && s[3].code == s[0].code);
        assert(s[1].value == 1 ==> s[2].value == 0 && s[2].code == s[1].code);
    } else {
        assert(s[0].value == 1 ==> s[1].value == 0 && s[1].code == s[0].code);
    }
}

/// Every key a tap presses, Shift included, is registered on the virtual
/// keyboard.
pub proof fn lemma_taps_use_registered_keys(c: char)
    ensures
        match key_for(c) {
            Some((code, shift)) => registered_key(code) && (shift ==> registered_key(
                KEY_LEFTSHIFT,
            )),
            None => true,
        },
{
}

} // verus!
