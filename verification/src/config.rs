//! The settings record: how a parsed config file, the environment and the
//! built-in defaults combine, and the text the settings are saved as.
//!
//! Reading and writing the file happen outside the library.

use vstd::prelude::*;
use std::path::PathBuf;
use crate::text::{
    bool_text, is_white, keep_nonblank, lemma_blank_iff_all_white, nonblank, owned, push_bool,
    push_str,
};

verus! {

/// `std::path::PathBuf`, carried through as an opaque value.
#[verifier::external_type_specification]
#[verifier::external_body]
pub struct ExPathBuf(PathBuf);

/// `<PathBuf as Clone>::clone`: the copy holds the same path.
pub assume_specification[ <PathBuf as Clone>::clone ](p: &PathBuf) -> (r: PathBuf)
    ensures
        r == *p,
;

pub const DEFAULT_MODEL: &'static str = "fish-audio/transcribe-1";

pub const DEFAULT_CLEANUP_MODEL: &'static str = "inclusionai/ling-3.0-flash";

pub const DEFAULT_HOTKEY: &'static str = "KEY_RIGHTCTRL";

/// The settings as they stand in config.toml; every key may be absent.
#[derive(Debug)]
pub struct FileConfig {
    pub api_key: Option<String>,
    pub model: Option<String>,
    pub language: Option<String>,
    /// "hold" or "toggle"
    pub mode: Option<String>,
    /// evdev key name, e.g. "KEY_RIGHTCTRL"
    pub hotkey: Option<String>,
    /// input device name; absent or blank means the system default
    pub mic: Option<String>,
    /// type the transcript into the focused window via uinput
    pub type_text: Option<bool>,
    /// play subtle start/stop audio cues
    pub beeps: Option<bool>,
    pub cleanup: Option<bool>,
    pub cleanup_model: Option<String>,
}

impl Default for FileConfig {
    /// A file that sets nothing.
    fn default() -> (r: FileConfig)
        ensures
            r.api_key is None,
            r.model is None,
            r.language is None,
            r.mode is None,
            r.hotkey is None,
            r.mic is None,
            r.type_text is None,
            r.beeps is None,
            r.cleanup is None,
            r.cleanup_model is None,
    {
        FileConfig {
            api_key: None,
            model: None,
            language: None,
            mode: None,
            hotkey: None,
            mic: None,
            type_text: None,
            beeps: None,
            cleanup: None,
            cleanup_model: None,
        }
    }
}

/// The settings in effect.
#[derive(Debug, Clone)]
pub struct Config {
    pub api_key: Option<String>,
    pub model: String,
    pub language: Option<String>,
    pub mode: String,
    pub hotkey: String,
    pub mic: Option<String>,
    pub type_text: bool,
    pub beeps: bool,
    pub cleanup: bool,
    pub cleanup_model: String,
    pub path: PathBuf,
}

/// The non-blank value of `o`, else `default`.
pub open spec fn nonblank_or(o: Option<String>, default: Seq<char>) -> Seq<char> {
    match keep_nonblank(o) {
        Some(s) => s@,
        None => default,
    }
}

pub open spec fn flag_or(o: Option<bool>, default: bool) -> bool {
    match o {
        Some(b) => b,
        None => default,
    }
}

/// The API key in effect: the environment's when it is not blank, else the
/// file's when it is not blank.
pub open spec fn chosen_api_key(env: Option<String>, file: Option<String>) -> Option<String> {
    match keep_nonblank(env) {
        Some(k) => Some(k),
        None => keep_nonblank(file),
    }
}

/// How a config file, the environment's API key and the defaults combine.
pub open spec fn resolves(c: Config, path: PathBuf, file: FileConfig, env_api_key: Option<String>) -> bool {
    &&& c.api_key == chosen_api_key(env_api_key, file.api_key)
    &&& c.model@ == nonblank_or(file.model, DEFAULT_MODEL@)
    &&& c.language == keep_nonblank(file.language)
    &&& c.mode@ == match file.mode {
        Some(m) => m@,
        None => "hold"@,
    }
    &&& c.hotkey@ == nonblank_or(file.hotkey, DEFAULT_HOTKEY@)
    &&& c.mic == keep_nonblank(file.mic)
    &&& c.type_text == flag_or(file.type_text, true)
    &&& c.beeps == flag_or(file.beeps, true)
    &&& c.cleanup == flag_or(file.cleanup, true)
    &&& c.cleanup_model@ == nonblank_or(file.cleanup_model, DEFAULT_CLEANUP_MODEL@)
    &&& c.path == path
}

fn nonblank_or_default(o: Option<String>, default: &str) -> (r: String)
    ensures
        r@ == nonblank_or(o, default@),
{
    match nonblank(o) {
        Some(s) => s,
        None => owned(default),
    }
}

fn flag(o: Option<bool>, default: bool) -> (r: bool)
    ensures
        r == flag_or(o, default),
{
    match o {
        Some(b) => b,
        None => default,
    }
}

/// Combine a parsed config file with the environment's API key; blank
/// strings count as unset and fall back to the defaults.
pub fn from_file(path: PathBuf, file: FileConfig, env_api_key: Option<String>) -> (c: Config)
    ensures
        resolves(c, path, file, env_api_key),
{
    let api_key = match nonblank(env_api_key) {
        Some(k) => Some(k),
        None => nonblank(file.api_key),
    };
    let mode = match file.mode {
        Some(m) => m,
        None => owned("hold"),
    };
    Config {
        api_key,
        model: nonblank_or_default(file.model, DEFAULT_MODEL),
        language: nonblank(file.language),
        mode,
        hotkey: nonblank_or_default(file.hotkey, DEFAULT_HOTKEY),
        mic: nonblank(file.mic),
        type_text: flag(file.type_text, true),
        beeps: flag(file.beeps, true),
        cleanup: flag(file.cleanup, true),
        cleanup_model: nonblank_or_default(file.cleanup_model, DEFAULT_CLEANUP_MODEL),
        path,
    }
}

/// `s` holds at least one character that is not whitespace.
pub open spec fn has_text(s: Seq<char>) -> bool {
    exists|i: int| 0 <= i < s.len() && !is_white(#[trigger] s[i])
}

/// An optional setting as it takes effect: a value with text in it is kept
/// as it is, an absent or all-whitespace one counts as unset.
pub open spec fn setting_kept(resolved: Option<String>, given: Option<String>) -> bool {
    match given {
        Some(v) => if has_text(v@) {
            resolved == Some(v)
        } else {
            resolved is None
        },
        None => resolved is None,
    }
}

/// A string setting as it takes effect: a value with text in it is kept,
/// otherwise the default applies.
pub open spec fn setting_or(resolved: Seq<char>, given: Option<String>, default: Seq<char>) -> bool {
    match given {
        Some(v) => if has_text(v@) {
            resolved == v@
        } else {
            resolved == default
        },
        None => resolved == default,
    }
}

proof fn lemma_keep_nonblank_has_text(o: Option<String>)
    ensures
        setting_kept(keep_nonblank(o), o),
{
    if let Some(v) = o {
        lemma_blank_iff_all_white(v@);
    }
}

/// What the settings of config.toml become: the language, microphone and
/// API key are kept when they hold text and are unset otherwise, with a
/// key from the environment winning over the file's; the models and the
/// hotkey fall back to their defaults; the mode defaults to hold; the
/// switches default to on; the file's path is kept.
pub proof fn lemma_file_settings_take_effect(
    c: Config,
    path: PathBuf,
    file: FileConfig,
    env_api_key: Option<String>,
)
    requires
        resolves(c, path, file, env_api_key),
    ensures
        setting_kept(c.language, file.language),
        setting_kept(c.mic, file.mic),
        (env_api_key matches Some(k) && has_text(k@)) ==> c.api_key == env_api_key,
        !(env_api_key matches Some(k) && has_text(k@)) ==> setting_kept(c.api_key, file.api_key),
        setting_or(c.model@, file.model, "fish-audio/transcribe-1"@),
        setting_or(c.hotkey@, file.hotkey, "KEY_RIGHTCTRL"@),
        setting_or(c.cleanup_model@, file.cleanup_model, "inclusionai/ling-3.0-flash"@),
        c.mode@ == (match file.mode {
            Some(m) => m@,
            None => "hold"@,
        }),
        c.type_text == (file.type_text != Some(false)),
        c.beeps == (file.beeps != Some(false)),
        c.cleanup == (file.cleanup != Some(false)),
        c.path == path,
{
    lemma_keep_nonblank_has_text(file.language);
    lemma_keep_nonblank_has_text(file.mic);
    lemma_keep_nonblank_has_text(file.api_key);
    lemma_keep_nonblank_has_text(env_api_key);
    lemma_keep_nonblank_has_text(file.model);
    lemma_keep_nonblank_has_text(file.hotkey);
    lemma_keep_nonblank_has_text(file.cleanup_model);
}

/// What `format!("{:?}", s)` makes of a string slice: Rust's quoted and
/// escaped rendering.
pub uninterp spec fn debug_str(s: Seq<char>) -> Seq<char>;

/// `<str as Debug>::fmt` through `format!("{:?}", s)`; the contract only
/// names the result, it does not spell out Rust's escaping rules.
#[verifier::external_body]
pub(crate) fn debug_quoted(s: &str) -> (q: String)
    ensures
        q@ == debug_str(s@),
{
    format!("{:?}", s)
}

/// `key = <quoted value>` and a newline.
pub open spec fn string_line(key: Seq<char>, value: Seq<char>) -> Seq<char> {
    key + " = "@ + debug_str(value) + "\n"@
}

/// `key = true|false` and a newline.
pub open spec fn bool_line(key: Seq<char>, value: bool) -> Seq<char> {
    key + " = "@ + bool_text(value) + "\n"@
}

pub open spec fn optional_line(key: Seq<char>, value: Option<String>) -> Seq<char> {
    match value {
        Some(v) => string_line(key, v@),
        None => Seq::empty(),
    }
}

/// The text the settings are saved as: one `key = value` line per setting,
/// strings quoted as Rust's `Debug` prints them, unset optional keys left
/// out, and an unset API key written as the empty string.
pub open spec fn toml_text(c: Config) -> Seq<char> {
    string_line("api_key"@, match c.api_key {
        Some(k) => k@,
        None => Seq::empty(),
    }) + string_line("model"@, c.model@) + optional_line("language"@, c.language)
        + optional_line("mic"@, c.mic) + bool_line("cleanup"@, c.cleanup) + string_line(
        "cleanup_model"@,
        c.cleanup_model@,
    ) + string_line("mode"@, c.mode@) + string_line("hotkey"@, c.hotkey@) + bool_line(
        "type_text"@,
        c.type_text,
    ) + bool_line("beeps"@, c.beeps)
}

fn push_string_line(s: &mut String, key: &str, value: &str)
    ensures
        final(s)@ == old(s)@ + string_line(key@, value@),
{
    push_str(s, key);
    push_str(s, " = ");
    let q = debug_quoted(value);
    push_str(s, q.as_str());
    push_str(s, "\n");
    assert(final(s)@ =~= old(s)@ + string_line(key@, value@));
}

fn push_bool_line(s: &mut String, key: &str, value: bool)
    ensures
        final(s)@ == old(s)@ + bool_line(key@, value),
{
    push_str(s, key);
    push_str(s, " = ");
    push_bool(s, value);
    push_str(s, "\n");
    assert(final(s)@ =~= old(s)@ + bool_line(key@, value));
}

impl Config {
    /// The config file's text for these settings.
    pub fn to_toml(&self) -> (t: String)
        ensures
            t@ == toml_text(*self),
    {
        let mut s = String::new();
        match &self.api_key {
            Some(k) => push_string_line(&mut s, "api_key", k.as_str()),
            None => {
                proof {
                    reveal_strlit("");
                }
                assert(""@ =~= Seq::<char>::empty());
                push_string_line(&mut s, "api_key", "");
            },
        }
        assert(s@ =~= string_line("api_key"@, match self.api_key {
            Some(k) => k@,
            None => Seq::empty(),
        }));
        push_string_line(&mut s, "model", self.model.as_str());
        let ghost a = s@;
        if let Some(l) = &self.language {
            push_string_line(&mut s, "language", l.as_str());
        }
        assert(s@ == a + optional_line("language"@, self.language));
        let ghost b = s@;
        if let Some(m) = &self.mic {
            push_string_line(&mut s, "mic", m.as_str());
        }
        assert(s@ == b + optional_line("mic"@, self.mic));
        push_bool_line(&mut s, "cleanup", self.cleanup);
        push_string_line(&mut s, "cleanup_model", self.cleanup_model.as_str());
        push_string_line(&mut s, "mode", self.mode.as_str());
        push_string_line(&mut s, "hotkey", self.hotkey.as_str());
        push_bool_line(&mut s, "type_text", self.type_text);
        push_bool_line(&mut s, "beeps", self.beeps);
        assert(s@ =~= toml_text(*self));
        s
    }
}

} // verus!
