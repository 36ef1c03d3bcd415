//! The settings window's form: the editable working copy of the config,
//! keyboard editing of its text fields, and the config it saves.
//!
//! Drawing the window, reading the clipboard and writing the file happen
//! outside the library.

use vstd::prelude::*;
use std::path::PathBuf;
use crate::config::{Config, DEFAULT_MODEL};
use crate::hotkey::{evdev_key_code, parse_key, HotkeyError};
use crate::text::{
    chars_of, is_control, is_control_char, is_white, is_whitespace, owned, push_char, push_str,
    str_eq, string_from, string_of, trim, trim_end, trim_end_len, trimmed,
};

verus! {

/// The editable text fields, in tab order.
#[derive(Debug, Clone, Copy, PartialEq, Eq, Structural)]
pub enum Field {
    ApiKey,
    Model,
    Language,
    Hotkey,
}

/// Colour of an error message in the footer.
pub const RED: u32 = 0xef4444;

/// Colour of a success message in the footer.
pub const GREEN: u32 = 0x4ade80;

/// Colour of the footer hint.
pub const DIM: u32 = 0x8b93a3;

/// Editable working copy of the config.
pub struct SettingsForm {
    pub api_key: String,
    pub model: String,
    pub language: String,
    pub mode_hold: bool,
    pub hotkey: String,
    pub mic: Option<String>,
    pub mic_devices: Vec<String>,
    pub type_text: bool,
    pub beeps: bool,
    pub cleanup: bool,
    pub cleanup_model: String,
    pub reveal_key: bool,
    pub active: Option<Field>,
    /// The footer message and whether it reports an error.
    pub message: Option<(String, bool)>,
}

/// What the window must do after a key press.
#[derive(Debug, Clone, Copy, PartialEq, Eq, Structural)]
pub enum KeyOutcome {
    /// Close the settings window.
    CloseWindow,
    /// Read the clipboard and hand its text to `paste`.
    Paste,
    /// The form changed; redraw.
    Redraw,
    /// Nothing to do.
    Ignore,
}

/// The next field in tab order (the first when none is active).
pub open spec fn next_field(active: Option<Field>) -> Field {
    match active {
        None => Field::ApiKey,
        Some(Field::ApiKey) => Field::Model,
        Some(Field::Model) => Field::Language,
        Some(Field::Language) => Field::Hotkey,
        Some(Field::Hotkey) => Field::ApiKey,
    }
}

pub open spec fn field_of(s: SettingsForm, f: Field) -> String {
    match f {
        Field::ApiKey => s.api_key,
        Field::Model => s.model,
        Field::Language => s.language,
        Field::Hotkey => s.hotkey,
    }
}

/// `a` and `b` agree on everything but the text of field `f`.
pub open spec fn same_except(a: SettingsForm, b: SettingsForm, f: Field) -> bool {
    &&& f != Field::ApiKey ==> a.api_key == b.api_key
    &&& f != Field::Model ==> a.model == b.model
    &&& f != Field::Language ==> a.language == b.language
    &&& f != Field::Hotkey ==> a.hotkey == b.hotkey
    &&& a.mode_hold == b.mode_hold
    &&& a.mic == b.mic
    &&& a.mic_devices == b.mic_devices
    &&& a.type_text == b.type_text
    &&& a.beeps == b.beeps
    &&& a.cleanup == b.cleanup
    &&& a.cleanup_model == b.cleanup_model
    &&& a.reveal_key == b.reveal_key
    &&& a.active == b.active
    &&& a.message == b.message
}

/// `a` and `b` agree on everything but the active field.
pub open spec fn same_but_focus(a: SettingsForm, b: SettingsForm) -> bool {
    &&& a.api_key == b.api_key
    &&& a.model == b.model
    &&& a.language == b.language
    &&& a.hotkey == b.hotkey
    &&& a.mode_hold == b.mode_hold
    &&& a.mic == b.mic
    &&& a.mic_devices == b.mic_devices
    &&& a.type_text == b.type_text
    &&& a.beeps == b.beeps
    &&& a.cleanup == b.cleanup
    &&& a.cleanup_model == b.cleanup_model
    &&& a.reveal_key == b.reveal_key
    &&& a.message == b.message
}

/// Characters at which ctrl+backspace stops deleting.
pub open spec fn is_word_sep(c: char) -> bool {
    is_white(c) || c == '/' || c == '_' || c == '-'
}

/// Position of the last word separator in `t`, or -1.
pub open spec fn last_sep(t: Seq<char>) -> int
    decreases t.len(),
{
    if t.len() == 0 {
        -1
    } else if is_word_sep(t.last()) {
        t.len() - 1
    } else {
        last_sep(t.drop_last())
    }
}

/// ctrl+backspace: keep everything up to and including the last separator
/// before the trailing whitespace; nothing when there is none.
pub open spec fn word_cut(v: Seq<char>) -> Seq<char> {
    v.subrange(0, last_sep(trim_end(v)) + 1)
}

/// The separator ctrl+backspace cuts after is a one-byte character, so the
/// cut falls on a character boundary (`String::truncate` panics otherwise).
pub open spec fn word_cut_safe(v: Seq<char>) -> bool {
    let j = last_sep(trim_end(v));
    j < 0 || (trim_end(v)[j] as u32) < 0x80
}

/// backspace: drop the last character, if any.
pub open spec fn popped(v: Seq<char>) -> Seq<char> {
    if v.len() == 0 {
        v
    } else {
        v.drop_last()
    }
}

/// `s` without its control characters.
pub open spec fn strip_controls(s: Seq<char>) -> Seq<char>
    decreases s.len(),
{
    if s.len() == 0 {
        s
    } else if is_control_char(s.last()) {
        strip_controls(s.drop_last())
    } else {
        strip_controls(s.drop_last()).push(s.last())
    }
}

/// What a paste appends: the clipboard text without control characters,
/// trimmed.
pub open spec fn pasted(clip: Seq<char>) -> Seq<char> {
    trim(strip_controls(clip))
}

/// The effect of a key press on the active field `f`: its new text, and
/// whether the press asks for the clipboard.
pub open spec fn edited(v: Seq<char>, key: Seq<char>, ctrl: bool, platform: bool, key_char: Option<
    Seq<char>,
>) -> Seq<char> {
    if key == "backspace"@ {
        if ctrl {
            word_cut(v)
        } else {
            popped(v)
        }
    } else if ctrl && key == "v"@ {
        v
    } else {
        match key_char {
            Some(ch) => if !ctrl && !platform {
                v + ch
            } else {
                v
            },
            None => v,
        }
    }
}

pub open spec fn opt_view(o: Option<&str>) -> Option<Seq<char>> {
    match o {
        Some(s) => Some(s@),
        None => None,
    }
}

proof fn lemma_last_sep_range(t: Seq<char>)
    ensures
        -1 <= last_sep(t) < t.len(),
        last_sep(t) >= 0 ==> is_word_sep(t[last_sep(t)]),
        forall|k: int| last_sep(t) < k < t.len() ==> !is_word_sep(#[trigger] t[k]),
    decreases t.len(),
{
    if t.len() > 0 && !is_word_sep(t.last()) {
        lemma_last_sep_range(t.drop_last());
        assert forall|k: int| last_sep(t) < k < t.len() implies !is_word_sep(#[trigger] t[k]) by {
            if k < t.len() - 1 {
                assert(t[k] == t.drop_last()[k]);
            }
        }
    }
}

fn is_sep(c: char) -> (r: bool)
    ensures
        r == is_word_sep(c),
{
    is_whitespace(c) || c == '/' || c == '_' || c == '-'
}

/// Length of `trim_end(v)` and the cut point of ctrl+backspace: one past
/// the last separator before the trailing whitespace, 0 when there is none.
fn word_cut_point(v: &Vec<char>) -> (r: (usize, usize))
    ensures
        r.1 <= r.0 <= v.len(),
        v@.subrange(0, r.0 as int) == trim_end(v@),
        r.1 as int == last_sep(trim_end(v@)) + 1,
{
    let n = trim_end_len(v);
    let ghost t = trim_end(v@);
    let mut j: usize = n;
    assert(t.subrange(0, n as int) == t);
    while j > 0 && !is_sep(v[j - 1])
        invariant
            j <= n <= v.len(),
            t == v@.subrange(0, n as int),
            last_sep(t) == last_sep(t.subrange(0, j as int)),
        decreases j,
    {
        assert(t.subrange(0, j as int).drop_last() == t.subrange(0, j - 1));
        j = j - 1;
    }
    proof {
        if j == 0 {
            assert(t.subrange(0, 0).len() == 0);
        } else {
            assert(t.subrange(0, j as int).last() == v@[j - 1]);
        }
    }
    (n, j)
}

/// Whether ctrl+backspace can cut `value` without splitting a character.
pub fn can_cut_word(value: &str) -> (r: bool)
    ensures
        r == word_cut_safe(value@),
{
    let v = chars_of(value);
    let (n, j) = word_cut_point(&v);
    proof {
        lemma_last_sep_range(trim_end(v@));
    }
    if j == 0 {
        true
    } else {
        (v[j - 1] as u32) < 0x80
    }
}

fn cut_word(value: &String) -> (r: String)
    ensures
        r@ == word_cut(value@),
{
    let v = chars_of(value.as_str());
    let (n, j) = word_cut_point(&v);
    string_of(&v, 0, j)
}

fn pop_char(value: &String) -> (r: String)
    ensures
        r@ == popped(value@),
{
    let v = chars_of(value.as_str());
    if v.len() == 0 {
        string_from(&v)
    } else {
        string_of(&v, 0, v.len() - 1)
    }
}

fn without_controls(s: &str) -> (r: String)
    ensures
        r@ == strip_controls(s@),
{
    let v = chars_of(s);
    let mut r = String::new();
    let mut i: usize = 0;
    while i < v.len()
        invariant
            i <= v.len(),
            r@ == strip_controls(v@.take(i as int)),
        decreases v.len() - i,
    {
        assert(v@.take(i + 1).drop_last() == v@.take(i as int));
        if !is_control(v[i]) {
            push_char(&mut r, v[i]);
        }
        i = i + 1;
    }
    assert(v@.take(v.len() as int) == v@);
    r
}

/// The text shown in a field: masked fields show one bullet per byte of the
/// value, at most 24, unless revealed.
pub open spec fn shown_text(value: &str, masked: bool, reveal: bool) -> Seq<char> {
    if masked && !reveal {
        if value@.len() == 0 {
            Seq::empty()
        } else {
            Seq::new(
                if value.len() < 24 {
                    value.len() as nat
                } else {
                    24
                },
                |i: int| '•',
            )
        }
    } else {
        value@
    }
}

pub fn shown_value(value: &str, masked: bool, reveal: bool) -> (r: String)
    ensures
        r@ == shown_text(value, masked, reveal),
{
    if masked && !reveal {
        if value.is_empty() {
            return String::new();
        }
        let n = if value.len() < 24 {
            value.len()
        } else {
            24
        };
        let mut r = String::new();
        let mut i: usize = 0;
        while i < n
            invariant
                i <= n,
                r@ == Seq::new(i as nat, |k: int| '•'),
            decreases n - i,
        {
            push_char(&mut r, '•');
            assert(r@ =~= Seq::new((i + 1) as nat, |k: int| '•'));
            i = i + 1;
        }
        r
    } else {
        owned(value)
    }
}

/// Device names can be long: labels over 40 characters keep their first 39
/// and end in an ellipsis.
pub open spec fn label_text(s: Seq<char>) -> Seq<char> {
    if s.len() > 40 {
        s.take(39).push('…')
    } else {
        s
    }
}

pub fn truncate_label(s: &str) -> (r: String)
    ensures
        r@ == label_text(s@),
{
    let v = chars_of(s);
    if v.len() > 40 {
        let mut r = string_of(&v, 0, 39);
        push_char(&mut r, '…');
        r
    } else {
        string_from(&v)
    }
}

/// The configured microphone stays selectable even while unplugged.
pub open spec fn mic_list(devices: Seq<String>, mic: Option<String>) -> Seq<Seq<char>> {
    let names = devices.map_values(|s: String| s@);
    match mic {
        Some(m) => if names.contains(m@) {
            names
        } else {
            names.push(m@)
        },
        None => names,
    }
}

pub open spec fn view_opt(o: Option<String>) -> Option<Seq<char>> {
    match o {
        Some(s) => Some(s@),
        None => None,
    }
}

/// `s` trimmed, or `None` when that leaves nothing.
pub open spec fn trimmed_opt(s: Seq<char>) -> Option<Seq<char>> {
    if trim(s).len() == 0 {
        None
    } else {
        Some(trim(s))
    }
}

/// The settings as saved from the form: text fields trimmed, a blank API key
/// or language unset, a blank model replaced by the default.
pub open spec fn saved_config(f: SettingsForm, c: Config, path: PathBuf) -> bool {
    &&& view_opt(c.api_key) == trimmed_opt(f.api_key@)
    &&& c.model@ == (if trim(f.model@).len() == 0 {
        DEFAULT_MODEL@
    } else {
        trim(f.model@)
    })
    &&& view_opt(c.language) == trimmed_opt(f.language@)
    &&& c.mode@ == (if f.mode_hold {
        "hold"@
    } else {
        "toggle"@
    })
    &&& c.hotkey@ == trim(f.hotkey@)
    &&& c.mic == f.mic
    &&& c.type_text == f.type_text
    &&& c.beeps == f.beeps
    &&& c.cleanup == f.cleanup
    &&& c.cleanup_model@ == f.cleanup_model@
    &&& c.path == path
}

fn nonempty_trimmed(s: &String) -> (r: Option<String>)
    ensures
        view_opt(r) == trimmed_opt(s@),
{
    let t = trimmed(s.as_str());
    if t.as_str().is_empty() {
        None
    } else {
        Some(t)
    }
}

fn clone_opt(o: &Option<String>) -> (r: Option<String>)
    ensures
        r == *o,
{
    match o {
        Some(s) => Some(s.clone()),
        None => None,
    }
}

/// The form as opened on `cfg`: unset strings become empty, the mode a
/// hold flag, nothing is active and no message shows.
pub open spec fn loaded_form(f: SettingsForm, cfg: Config, mic_devices: Vec<String>) -> bool {
    &&& f.api_key@ == (match cfg.api_key {
        Some(k) => k@,
        None => Seq::empty(),
    })
    &&& f.model == cfg.model
    &&& f.language@ == (match cfg.language {
        Some(l) => l@,
        None => Seq::empty(),
    })
    &&& f.mode_hold == (cfg.mode@ != "toggle"@)
    &&& f.hotkey == cfg.hotkey
    &&& f.mic == cfg.mic
    &&& f.mic_devices == mic_devices
    &&& f.type_text == cfg.type_text
    &&& f.beeps == cfg.beeps
    &&& f.cleanup == cfg.cleanup
    &&& f.cleanup_model == cfg.cleanup_model
    &&& !f.reveal_key
    &&& f.active is None
    &&& f.message is None
}

/// A string that trimming leaves unchanged and that is not empty.
pub open spec fn canonical(s: Seq<char>) -> bool {
    trim(s) == s && s.len() > 0
}

pub open spec fn canonical_opt(o: Option<String>) -> bool {
    match o {
        Some(s) => canonical(s@),
        None => true,
    }
}

/// Opening the settings on a config and saving without edits writes the
/// same settings back, when its strings are already trimmed and its mode is
/// one of the two the form offers.
pub proof fn lemma_save_unedited_keeps_config(
    cfg: Config,
    devices: Vec<String>,
    f: SettingsForm,
    c: Config,
    path: PathBuf,
)
    requires
        canonical_opt(cfg.api_key),
        canonical(cfg.model@),
        canonical_opt(cfg.language),
        cfg.mode@ == "hold"@ || cfg.mode@ == "toggle"@,
        trim(cfg.hotkey@) == cfg.hotkey@,
        loaded_form(f, cfg, devices),
        saved_config(f, c, path),
    ensures
        view_opt(c.api_key) == view_opt(cfg.api_key),
        c.model@ == cfg.model@,
        view_opt(c.language) == view_opt(cfg.language),
        c.mode@ == cfg.mode@,
        c.hotkey@ == cfg.hotkey@,
        c.mic == cfg.mic,
        c.type_text == cfg.type_text,
        c.beeps == cfg.beeps,
        c.cleanup == cfg.cleanup,
        c.cleanup_model@ == cfg.cleanup_model@,
        c.path == path,
{
    reveal_strlit("hold");
    reveal_strlit("toggle");
    assert(trim(Seq::<char>::empty()).len() == 0);
}

impl SettingsForm {
    /// The form for a loaded config and the currently listed input devices.
    pub fn from_config(cfg: Config, mic_devices: Vec<String>) -> (f: SettingsForm)
        ensures
            loaded_form(f, cfg, mic_devices),
    {
        let mode_hold = !str_eq(cfg.mode.as_str(), "toggle");
        SettingsForm {
            api_key: match cfg.api_key {
                Some(k) => k,
                None => String::new(),
            },
            model: cfg.model,
            language: match cfg.language {
                Some(l) => l,
                None => String::new(),
            },
            mode_hold,
            hotkey: cfg.hotkey,
            mic: cfg.mic,
            mic_devices,
            type_text: cfg.type_text,
            beeps: cfg.beeps,
            cleanup: cfg.cleanup,
            cleanup_model: cfg.cleanup_model,
            reveal_key: false,
            active: None,
            message: None,
        }
    }

    /// The text of a field.
    pub fn field(&self, f: Field) -> (v: &String)
        ensures
            *v == field_of(*self, f),
    {
        match f {
            Field::ApiKey => &self.api_key,
            Field::Model => &self.model,
            Field::Language => &self.language,
            Field::Hotkey => &self.hotkey,
        }
    }

    fn set_field(&mut self, f: Field, v: String)
        ensures
            field_of(*final(self), f) == v,
            same_except(*final(self), *old(self), f),
    {
        match f {
            Field::ApiKey => self.api_key = v,
            Field::Model => self.model = v,
            Field::Language => self.language = v,
            Field::Hotkey => self.hotkey = v,
        }
    }

    /// Handle a key press: Escape leaves the active field or closes the
    /// window, Tab moves to the next field, and the active field takes
    /// backspace, ctrl+backspace (delete a word), ctrl+v (paste) and typed
    /// text.
    pub fn key_down(&mut self, key: &str, ctrl: bool, platform: bool, key_char: Option<&str>) -> (o:
        KeyOutcome)
        requires
            (key@ == "backspace"@ && ctrl && old(self).active is Some) ==> word_cut_safe(
                field_of(*old(self), old(self).active->0)@,
            ),
        ensures
            if key@ == "escape"@ {
                if old(self).active is Some {
                    o == KeyOutcome::Redraw && final(self).active is None && same_but_focus(
                        *final(self),
                        *old(self),
                    )
                } else {
                    o == KeyOutcome::CloseWindow && *final(self) == *old(self)
                }
            } else if key@ == "tab"@ {
                o == KeyOutcome::Redraw && final(self).active == Some(next_field(old(self).active))
                    && same_but_focus(*final(self), *old(self))
            } else {
                match old(self).active {
                    None => o == KeyOutcome::Ignore && *final(self) == *old(self),
                    Some(f) => {
                        &&& o == (if key@ != "backspace"@ && ctrl && key@ == "v"@ {
                            KeyOutcome::Paste
                        } else {
                            KeyOutcome::Redraw
                        })
                        &&& field_of(*final(self), f)@ == edited(
                            field_of(*old(self), f)@,
                            key@,
                            ctrl,
                            platform,
                            opt_view(key_char),
                        )
                        &&& same_except(*final(self), *old(self), f)
                    },
                }
            },
    {
        if str_eq(key, "escape") {
            if self.active.is_some() {
                self.active = None;
                return KeyOutcome::Redraw;
            } else {
                return KeyOutcome::CloseWindow;
            }
        }
        if str_eq(key, "tab") {
            self.active = Some(
                match self.active {
                    None => Field::ApiKey,
                    Some(Field::ApiKey) => Field::Model,
                    Some(Field::Model) => Field::Language,
                    Some(Field::Language) => Field::Hotkey,
                    Some(Field::Hotkey) => Field::ApiKey,
                },
            );
            return KeyOutcome::Redraw;
        }
        let f = match self.active {
            Some(f) => f,
            None => return KeyOutcome::Ignore,
        };
        if str_eq(key, "backspace") {
            let v = if ctrl {
                cut_word(self.field(f))
            } else {
                pop_char(self.field(f))
            };
            self.set_field(f, v);
            KeyOutcome::Redraw
        } else if ctrl && str_eq(key, "v") {
            KeyOutcome::Paste
        } else {
            match key_char {
                Some(ch) => {
                    if !ctrl && !platform {
                        let mut v = self.field(f).clone();
                        push_str(&mut v, ch);
                        self.set_field(f, v);
                    }
                },
                None => {},
            }
            KeyOutcome::Redraw
        }
    }

    /// Append pasted clipboard text to the active field: control characters
    /// removed, then trimmed.
    pub fn paste(&mut self, clip: &str)
        ensures
            match old(self).active {
                None => *final(self) == *old(self),
                Some(f) => field_of(*final(self), f)@ == field_of(*old(self), f)@ + pasted(clip@)
                    && same_except(*final(self), *old(self), f),
            },
    {
        let f = match self.active {
            Some(f) => f,
            None => return ,
        };
        let clean = without_controls(clip);
        let add = trimmed(clean.as_str());
        let mut v = self.field(f).clone();
        push_str(&mut v, add.as_str());
        self.set_field(f, v);
    }

    /// Flip one of the output toggles: 0 typing, 1 sound cues, 2 refinement;
    /// any other value changes nothing.
    pub fn toggle_flag(&mut self, which: u8)
        ensures
            *final(self) == (SettingsForm {
                type_text: if which == 0 {
                    !old(self).type_text
                } else {
                    old(self).type_text
                },
                beeps: if which == 1 {
                    !old(self).beeps
                } else {
                    old(self).beeps
                },
                cleanup: if which == 2 {
                    !old(self).cleanup
                } else {
                    old(self).cleanup
                },
                ..*old(self)
            }),
    {
        if which == 0 {
            self.type_text = !self.type_text;
        } else if which == 1 {
            self.beeps = !self.beeps;
        } else if which == 2 {
            self.cleanup = !self.cleanup;
        }
    }

    /// Choose a model preset; this also leaves the active field.
    pub fn pick_model(&mut self, m: &str)
        ensures
            final(self).model@ == m@,
            *final(self) == (SettingsForm { model: final(self).model, active: None, ..*old(self) }),
    {
        self.model = owned(m);
        self.active = None;
    }

    /// The microphone choices: the listed devices, plus the configured one
    /// when it is not among them.
    pub fn mic_choices(&self) -> (r: Vec<String>)
        ensures
            r@.map_values(|s: String| s@) == mic_list(self.mic_devices@, self.mic),
    {
        let mut r: Vec<String> = Vec::new();
        let mut i: usize = 0;
        let mut found = false;
        while i < self.mic_devices.len()
            invariant
                i <= self.mic_devices.len(),
                r@.map_values(|s: String| s@) == self.mic_devices@.take(i as int).map_values(
                    |s: String| s@,
                ),
                found == (self.mic is Some && exists|k: int|
                    0 <= k < i && #[trigger] self.mic_devices@[k]@ == self.mic->0@),
            decreases self.mic_devices.len() - i,
        {
            let ghost before = r@;
            let d = self.mic_devices[i].clone();
            proof {
                assert(self.mic_devices@.take(i + 1).map_values(|s: String| s@)
                    =~= self.mic_devices@.take(i as int).map_values(|s: String| s@).push(
                    self.mic_devices@[i as int]@,
                ));
            }
            match &self.mic {
                Some(m) => {
                    if str_eq(d.as_str(), m.as_str()) {
                        found = true;
                    }
                },
                None => {},
            }
            r.push(d);
            assert(r@.map_values(|s: String| s@) =~= before.map_values(|s: String| s@).push(d@));
            i = i + 1;
        }
        assert(self.mic_devices@.take(self.mic_devices.len() as int) == self.mic_devices@);
        proof {
            let names = self.mic_devices@.map_values(|s: String| s@);
            if self.mic is Some {
                let m = self.mic->0@;
                if found {
                    let k = choose|k: int|
                        0 <= k < self.mic_devices@.len() && #[trigger] self.mic_devices@[k]@ == m;
                    assert(names[k] == m);
                } else {
                    assert forall|k: int| 0 <= k < names.len() implies names[k] != m by {
                        assert(names[k] == self.mic_devices@[k]@);
                    }
                }
            }
        }
        match &self.mic {
            Some(m) => {
                if !found {
                    let ghost before = r@;
                    r.push(m.clone());
                    assert(r@.map_values(|s: String| s@) =~= before.map_values(|s: String| s@).push(
                        m@,
                    ));
                }
            },
            None => {},
        }
        r
    }

    /// The config to save, or the hotkey error when the (trimmed) hotkey is
    /// not a key name evdev knows.
    pub fn to_config(&self, path: PathBuf) -> (r: Result<Config, HotkeyError>)
        ensures
            match r {
                Ok(c) => evdev_key_code(trim(self.hotkey@)) is Some && saved_config(*self, c, path),
                Err(e) => evdev_key_code(trim(self.hotkey@)) is None && e.name@ == trim(self.hotkey@),
            },
    {
        let hotkey = trimmed(self.hotkey.as_str());
        match parse_key(hotkey.as_str()) {
            Ok(_) => {},
            Err(e) => return Err(e),
        }
        let model_trim = trimmed(self.model.as_str());
        let model = if model_trim.as_str().is_empty() {
            owned(DEFAULT_MODEL)
        } else {
            model_trim
        };
        let mode = if self.mode_hold {
            owned("hold")
        } else {
            owned("toggle")
        };
        Ok(
            Config {
                api_key: nonempty_trimmed(&self.api_key),
                model,
                language: nonempty_trimmed(&self.language),
                mode,
                hotkey,
                mic: clone_opt(&self.mic),
                type_text: self.type_text,
                beeps: self.beeps,
                cleanup: self.cleanup,
                cleanup_model: self.cleanup_model.clone(),
                path,
            },
        )
    }

    /// Record the outcome of Save: `Saved.` on success, else the error text.
    pub fn record_save(&mut self, failure: Option<String>)
        ensures
            match failure {
                None => final(self).message matches Some((m, false)) && m@ == "Saved."@,
                Some(e) => final(self).message == Some((e, true)),
            },
            *final(self) == (SettingsForm { message: final(self).message, ..*old(self) }),
    {
        match failure {
            None => self.message = Some((owned("Saved."), false)),
            Some(e) => self.message = Some((e, true)),
        }
    }

    /// The footer line: the last message, or a hint about pasting.
    pub fn footer_text(&self) -> (t: String)
        ensures
            t@ == match self.message {
                Some((m, _)) => m@,
                None => "Ctrl+V to paste into fields."@,
            },
    {
        match &self.message {
            Some((m, _)) => m.clone(),
            None => owned("Ctrl+V to paste into fields."),
        }
    }

    /// The footer's colour: red for errors, green for success, dim for the hint.
    pub fn footer_color(&self) -> (c: u32)
        ensures
            c == match self.message {
                Some((_, true)) => RED,
                Some((_, false)) => GREEN,
                None => DIM,
            },
    {
        match &self.message {
            Some((_, true)) => RED,
            Some((_, false)) => GREEN,
            None => DIM,
        }
    }
}

/// Tab cycles through the four fields and comes back after four presses.
pub proof fn lemma_tab_cycles(f: Field)
    ensures
        next_field(Some(next_field(Some(next_field(Some(next_field(Some(f)))))))) == f,
        next_field(Some(f)) != f,
{
}

} // verus!
