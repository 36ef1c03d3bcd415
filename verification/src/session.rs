//! The dictation state machine behind the pill:
//! Idle → Recording → Transcribing → (Cleaning) → (Typing) → Idle,
//! plus the transient error and notice messages the pill shows.
//!
//! The window, the microphone, the HTTP calls and the virtual keyboard live
//! outside the library. They report what happened through the methods below
//! and perform the `Action`s and cues these return. Times are milliseconds
//! on the caller's monotonic clock.

use vstd::prelude::*;
use std::time::Instant;
use crate::beep::Cue;
use crate::config::Config;
use crate::ipc::Command;
use crate::text::{decimal, owned, push_char, push_decimal, push_str, str_eq, two_digits};

verus! {

/// `std::time::Instant`, carried through as an opaque value.
#[verifier::external_type_specification]
#[verifier::external_body]
pub struct ExInstant(Instant);

pub enum Status {
    Idle,
    Recording { started: Instant },
    Transcribing,
    Cleaning,
    Typing,
}

impl Status {
    /// Everything but Idle is active.
    pub fn is_active(&self) -> (r: bool)
        ensures
            r == !(*self is Idle),
    {
        match self {
            Status::Idle => false,
            _ => true,
        }
    }
}

/// How long an error stays on the pill.
pub const ERROR_DURATION_MS: u64 = 4000;

/// How long a notice stays on the pill.
pub const NOTICE_DURATION_MS: u64 = 2500;

pub const MISSING_KEY_TEXT: &'static str = "Add an OpenRouter API key in Settings.";

pub const MIC_UNAVAILABLE_TEXT: &'static str = "Microphone unavailable. Check your input device.";

pub const TOO_SHORT_TEXT: &'static str = "Keep holding while you speak.";

pub const WAV_FAILED_TEXT: &'static str = "Unable to prepare the recording. Try again.";

pub const NO_SPEECH_TEXT: &'static str = "No speech detected. Try again.";

pub const TRANSCRIPTION_FAILED_TEXT: &'static str =
    "Transcription failed. Check your connection and speech model.";

pub const RELOAD_FAILED_TEXT: &'static str = "Unable to reload settings. Check config.toml.";

/// What the caller must do after a command.
#[derive(Debug, Clone, Copy, PartialEq, Eq, Structural)]
pub enum Action {
    Nothing,
    /// Check the API key and open the microphone (`start_recording`).
    StartRecording,
    /// Finish the recording and transcribe it (`recorded` and onwards).
    StopAndTranscribe,
    /// Drop the recording and reset the waveform; the session is already Idle.
    DiscardRecording,
    Quit,
    OpenSettings,
    Reload,
}

/// What starting a recording asks of the caller besides recording.
#[derive(Debug, Clone, Copy, PartialEq, Eq, Structural)]
pub struct RecordingStart {
    /// The cue to play, if any.
    pub cue: Option<Cue>,
    /// The pill was already showing, so it must follow the focused output
    /// (`niri::reposition`); a newly opened pill is placed on its own.
    pub reposition: bool,
}

/// What to do with the native pill window. Idle without a message there is
/// no window at all, so that nothing on screen can take clicks or focus.
#[derive(Debug, Clone, Copy, PartialEq, Eq, Structural)]
pub enum WindowAction {
    Keep,
    Open,
    Close,
}

/// The pill's state apart from the window itself.
pub struct Session {
    pub status: Status,
    pub error: Option<String>,
    pub notice: Option<String>,
    /// When the current message disappears.
    pub message_expires_at: Option<u64>,
}

/// `now + duration`, saturating at the clock's end.
pub open spec fn deadline(now: u64, duration: u64) -> u64 {
    if now + duration > u64::MAX {
        u64::MAX
    } else {
        (now + duration) as u64
    }
}

pub open spec fn no_message(s: Session) -> bool {
    &&& s.error is None
    &&& s.notice is None
    &&& s.message_expires_at is None
}

/// `s` shows error `text`, due to disappear `ERROR_DURATION_MS` after `now`.
pub open spec fn shows_error(s: Session, text: Seq<char>, now: u64) -> bool {
    &&& s.error matches Some(e) && e@ == text
    &&& s.notice is None
    &&& s.message_expires_at == Some(deadline(now, ERROR_DURATION_MS))
}

/// `s` shows notice `text`, due to disappear `NOTICE_DURATION_MS` after `now`.
pub open spec fn shows_notice(s: Session, text: Seq<char>, now: u64) -> bool {
    &&& s.notice matches Some(n) && n@ == text
    &&& s.error is None
    &&& s.message_expires_at == Some(deadline(now, NOTICE_DURATION_MS))
}

/// The messages are unchanged between `a` and `b`.
pub open spec fn same_messages(a: Session, b: Session) -> bool {
    &&& a.error == b.error
    &&& a.notice == b.notice
    &&& a.message_expires_at == b.message_expires_at
}

/// A status in which a recording is being processed.
pub open spec fn busy(st: Status) -> bool {
    st is Transcribing || st is Cleaning || st is Typing
}

/// What a command asks for in a given status.
pub open spec fn command_action(st: Status, cmd: Command) -> Action {
    match cmd {
        Command::Toggle => match st {
            Status::Recording { .. } => Action::StopAndTranscribe,
            Status::Idle => Action::StartRecording,
            _ => Action::Nothing,
        },
        Command::Start => if st is Idle {
            Action::StartRecording
        } else {
            Action::Nothing
        },
        Command::Stop => if st is Recording {
            Action::StopAndTranscribe
        } else {
            Action::Nothing
        },
        Command::Cancel => if st is Recording {
            Action::DiscardRecording
        } else {
            Action::Nothing
        },
        Command::Quit => Action::Quit,
        Command::Settings => Action::OpenSettings,
        Command::Reload => Action::Reload,
    }
}

/// `m:ss` for a recording that has run `secs` seconds.
pub open spec fn elapsed_label(secs: nat) -> Seq<char> {
    decimal(secs / 60) + seq![':'] + two_digits(secs % 60)
}

pub open spec fn status_text(st: Status, elapsed_secs: u64) -> Seq<char> {
    match st {
        Status::Recording { .. } => elapsed_label(elapsed_secs as nat),
        Status::Transcribing => "Transcribing"@,
        Status::Cleaning => "Refining"@,
        Status::Typing => "Inserting"@,
        Status::Idle => Seq::empty(),
    }
}

/// The colour of the pill's status dot.
pub open spec fn dot_colour(s: Session) -> u32 {
    match s.status {
        Status::Idle => if s.error is Some {
            0xff6b6b
        } else {
            0xf6c85f
        },
        Status::Recording { .. } => 0xff5f57,
        _ => 0x8da2fb,
    }
}

/// The pill shows while a recording is in flight or a message is up.
pub open spec fn pill_shown(s: Session) -> bool {
    !(s.status is Idle) || s.error is Some || s.notice is Some
}

/// The window is opened when the pill must show and none is open, and
/// removed when the pill must not show and one is open.
pub open spec fn window_step(s: Session, window_open: bool) -> WindowAction {
    if pill_shown(s) && !window_open {
        WindowAction::Open
    } else if !pill_shown(s) && window_open {
        WindowAction::Close
    } else {
        WindowAction::Keep
    }
}

/// The text that ends up typed and on the clipboard: the cleaned transcript
/// when cleanup produced one, else the raw transcript.
pub fn final_text(raw: String, cleaned: Option<String>) -> (t: String)
    ensures
        t == match cleaned {
            Some(c) => c,
            None => raw,
        },
{
    match cleaned {
        Some(c) => c,
        None => raw,
    }
}

fn saturating_deadline(now: u64, duration: u64) -> (d: u64)
    ensures
        d == deadline(now, duration),
{
    if now > u64::MAX - duration {
        u64::MAX
    } else {
        now + duration
    }
}

impl Session {
    /// At most one message shows, and it has a deadline exactly when it shows.
    pub open spec fn wf(&self) -> bool {
        &&& !(self.error is Some && self.notice is Some)
        &&& (self.message_expires_at is Some <==> (self.error is Some || self.notice is Some))
    }

    /// Idle, with no message.
    pub fn new() -> (s: Session)
        ensures
            s.status is Idle,
            no_message(s),
            s.wf(),
    {
        Session { status: Status::Idle, error: None, notice: None, message_expires_at: None }
    }

    pub fn clear_message(&mut self)
        ensures
            final(self).status == old(self).status,
            no_message(*final(self)),
    {
        self.error = None;
        self.notice = None;
        self.message_expires_at = None;
    }

    pub fn show_error(&mut self, text: String, now: u64)
        ensures
            final(self).status == old(self).status,
            shows_error(*final(self), text@, now),
    {
        self.error = Some(text);
        self.notice = None;
        self.message_expires_at = Some(saturating_deadline(now, ERROR_DURATION_MS));
    }

    pub fn show_notice(&mut self, text: String, now: u64)
        ensures
            final(self).status == old(self).status,
            shows_notice(*final(self), text@, now),
    {
        self.notice = Some(text);
        self.error = None;
        self.message_expires_at = Some(saturating_deadline(now, NOTICE_DURATION_MS));
    }

    /// The pill shows while a recording is in flight or a message is up.
    pub fn pill_visible(&self) -> (r: bool)
        ensures
            r == pill_shown(*self),
    {
        self.status.is_active() || self.error.is_some() || self.notice.is_some()
    }

    /// What to do with the pill window, given whether one is open now.
    pub fn window_action(&self, window_open: bool) -> (a: WindowAction)
        ensures
            a == window_step(*self, window_open),
    {
        let visible = self.pill_visible();
        if visible && !window_open {
            WindowAction::Open
        } else if !visible && window_open {
            WindowAction::Close
        } else {
            WindowAction::Keep
        }
    }

    /// Drop the message once its deadline has come; returns whether it did.
    pub fn tick(&mut self, now: u64) -> (changed: bool)
        requires
            old(self).wf(),
        ensures
            final(self).wf(),
            final(self).status == old(self).status,
            changed == (old(self).message_expires_at matches Some(d) && now >= d),
            changed ==> no_message(*final(self)),
            !changed ==> same_messages(*final(self), *old(self)),
    {
        match self.message_expires_at {
            Some(d) => {
                if now >= d {
                    self.clear_message();
                    true
                } else {
                    false
                }
            },
            None => false,
        }
    }

    /// React to a command from the hotkey, the socket or the pill. Only a
    /// cancel changes the session here: it drops the recording and returns
    /// to Idle without a message.
    pub fn handle_command(&mut self, cmd: Command) -> (a: Action)
        requires
            old(self).wf(),
        ensures
            final(self).wf(),
            a == command_action(old(self).status, cmd),
            a is DiscardRecording ==> final(self).status is Idle && no_message(*final(self)),
            !(a is DiscardRecording) ==> *final(self) == *old(self),
    {
        match cmd {
            Command::Toggle => match self.status {
                Status::Recording { .. } => Action::StopAndTranscribe,
                Status::Idle => Action::StartRecording,
                _ => Action::Nothing,
            },
            Command::Start => match self.status {
                Status::Idle => Action::StartRecording,
                _ => Action::Nothing,
            },
            Command::Stop => match self.status {
                Status::Recording { .. } => Action::StopAndTranscribe,
                _ => Action::Nothing,
            },
            Command::Cancel => match self.status {
                Status::Recording { .. } => {
                    self.status = Status::Idle;
                    self.clear_message();
                    Action::DiscardRecording
                },
                _ => Action::Nothing,
            },
            Command::Quit => Action::Quit,
            Command::Settings => Action::OpenSettings,
            Command::Reload => Action::Reload,
        }
    }

    /// First step of starting a recording: without an API key, show an error
    /// and stop; with one, the caller opens the microphone.
    pub fn start_recording(&mut self, has_api_key: bool, now: u64) -> (go: bool)
        requires
            old(self).wf(),
        ensures
            final(self).wf(),
            go == has_api_key,
            go ==> *final(self) == *old(self),
            !go ==> final(self).status == old(self).status && shows_error(
                *final(self),
                MISSING_KEY_TEXT@,
                now,
            ),
    {
        if !has_api_key {
            self.show_error(owned(MISSING_KEY_TEXT), now);
            return false;
        }
        true
    }

    /// The microphone is open: record, play the start cue if cues are on,
    /// and move the pill to the focused output if it was already showing.
    pub fn recording_started(&mut self, started: Instant, beeps: bool) -> (r: RecordingStart)
        requires
            old(self).wf(),
        ensures
            final(self).wf(),
            final(self).status == (Status::Recording { started }),
            no_message(*final(self)),
            r.cue == (if beeps {
                Some(Cue::Start)
            } else {
                None
            }),
            r.reposition == pill_shown(*old(self)),
    {
        let reposition = self.pill_visible();
        self.status = Status::Recording { started };
        self.clear_message();
        let cue = if beeps {
            Some(Cue::Start)
        } else {
            None
        };
        RecordingStart { cue, reposition }
    }

    /// The microphone could not be opened.
    pub fn recording_failed(&mut self, beeps: bool, now: u64) -> (cue: Option<Cue>)
        requires
            old(self).wf(),
        ensures
            final(self).wf(),
            final(self).status == old(self).status,
            shows_error(*final(self), MIC_UNAVAILABLE_TEXT@, now),
            cue == (if beeps {
                Some(Cue::Error)
            } else {
                None
            }),
    {
        self.show_error(owned(MIC_UNAVAILABLE_TEXT), now);
        if beeps {
            Some(Cue::Error)
        } else {
            None
        }
    }

    /// The recording was stopped with `n_samples` samples at `sample_rate`.
    /// Under a quarter of a second is too short: back to Idle with a notice.
    pub fn recorded(&mut self, n_samples: usize, sample_rate: u32, now: u64) -> (go: bool)
        requires
            old(self).wf(),
        ensures
            final(self).wf(),
            go == (n_samples >= sample_rate / 4),
            go ==> *final(self) == *old(self),
            !go ==> final(self).status is Idle && shows_notice(
                *final(self),
                TOO_SHORT_TEXT@,
                now,
            ),
    {
        let quarter: u32 = sample_rate / 4;
        if (n_samples as u64) < (quarter as u64) {
            self.status = Status::Idle;
            self.show_notice(owned(TOO_SHORT_TEXT), now);
            return false;
        }
        true
    }

    /// The recording could not be encoded as WAV.
    pub fn wav_failed(&mut self, now: u64)
        requires
            old(self).wf(),
        ensures
            final(self).wf(),
            final(self).status is Idle,
            shows_error(*final(self), WAV_FAILED_TEXT@, now),
    {
        self.status = Status::Idle;
        self.show_error(owned(WAV_FAILED_TEXT), now);
    }

    /// The audio is on its way to the speech model; the stop cue plays if
    /// cues are on.
    pub fn transcribing(&mut self, beeps: bool) -> (cue: Option<Cue>)
        requires
            old(self).wf(),
        ensures
            final(self).wf(),
            final(self).status is Transcribing,
            same_messages(*final(self), *old(self)),
            cue == (if beeps {
                Some(Cue::Stop)
            } else {
                None
            }),
    {
        self.status = Status::Transcribing;
        if beeps {
            Some(Cue::Stop)
        } else {
            None
        }
    }

    /// The transcription finished with `outcome` (`None` when it failed).
    /// A non-empty transcript is handed back to go on with; an empty one or
    /// a failure ends at Idle with a notice or an error.
    pub fn transcript_arrived(&mut self, outcome: Option<String>, now: u64) -> (text: Option<
        String,
    >)
        requires
            old(self).wf(),
        ensures
            final(self).wf(),
            match outcome {
                Some(t) => if t@.len() > 0 {
                    text == Some(t) && *final(self) == *old(self)
                } else {
                    text is None && final(self).status is Idle && shows_notice(
                        *final(self),
                        NO_SPEECH_TEXT@,
                        now,
                    )
                },
                None => text is None && final(self).status is Idle && shows_error(
                    *final(self),
                    TRANSCRIPTION_FAILED_TEXT@,
                    now,
                ),
            },
    {
        match outcome {
            Some(t) => {
                if t.as_str().is_empty() {
                    self.status = Status::Idle;
                    self.show_notice(owned(NO_SPEECH_TEXT), now);
                    None
                } else {
                    Some(t)
                }
            },
            None => {
                self.status = Status::Idle;
                self.show_error(owned(TRANSCRIPTION_FAILED_TEXT), now);
                None
            },
        }
    }

    /// A transcript has arrived. With cleanup on (`enabled`, the config's
    /// `cleanup`) it goes to the cleanup model and the session is Cleaning;
    /// with cleanup off the raw transcript is final and nothing changes.
    /// Returns whether cleanup runs.
    pub fn start_cleanup(&mut self, enabled: bool) -> (cleaning: bool)
        requires
            old(self).wf(),
        ensures
            final(self).wf(),
            cleaning == enabled,
            cleaning ==> final(self).status is Cleaning && same_messages(
                *final(self),
                *old(self),
            ),
            !cleaning ==> *final(self) == *old(self),
    {
        if enabled {
            self.status = Status::Cleaning;
        }
        enabled
    }

    /// The final text is on the clipboard. With a virtual keyboard it is
    /// typed next; without one the session is done.
    pub fn delivered(&mut self, has_typer: bool) -> (typing: bool)
        requires
            old(self).wf(),
        ensures
            final(self).wf(),
            typing == has_typer,
            typing ==> final(self).status is Typing && same_messages(*final(self), *old(self)),
            !typing ==> final(self).status is Idle && no_message(*final(self)),
    {
        if has_typer {
            self.status = Status::Typing;
            true
        } else {
            self.status = Status::Idle;
            self.clear_message();
            false
        }
    }

    /// Typing finished; `failure` describes the error, if any.
    pub fn typing_finished(&mut self, failure: Option<&str>, now: u64)
        requires
            old(self).wf(),
        ensures
            final(self).wf(),
            final(self).status is Idle,
            match failure {
                None => no_message(*final(self)),
                Some(e) => shows_error(
                    *final(self),
                    "Typing failed ("@ + e@ + ") — transcript is on the clipboard"@,
                    now,
                ),
            },
    {
        self.status = Status::Idle;
        match failure {
            None => self.clear_message(),
            Some(e) => {
                let mut m = owned("Typing failed (");
                push_str(&mut m, e);
                push_str(&mut m, ") — transcript is on the clipboard");
                self.show_error(m, now);
            },
        }
    }

    /// config.toml could not be re-read.
    pub fn reload_failed(&mut self, now: u64)
        requires
            old(self).wf(),
        ensures
            final(self).wf(),
            final(self).status == old(self).status,
            shows_error(*final(self), RELOAD_FAILED_TEXT@, now),
    {
        self.show_error(owned(RELOAD_FAILED_TEXT), now);
    }

    /// config.toml was re-read as `new`; the message is cleared. Returns
    /// whether the hotkey or the mode changed, in which case the hotkey
    /// watcher must restart.
    pub fn reloaded(&mut self, current: &Config, new: &Config) -> (restart: bool)
        requires
            old(self).wf(),
        ensures
            final(self).wf(),
            final(self).status == old(self).status,
            no_message(*final(self)),
            restart == (new.hotkey@ != current.hotkey@ || new.mode@ != current.mode@),
    {
        self.clear_message();
        !str_eq(new.hotkey.as_str(), current.hotkey.as_str()) || !str_eq(
            new.mode.as_str(),
            current.mode.as_str(),
        )
    }

    /// Restarting the hotkey watcher failed with `detail`.
    pub fn hotkey_failed(&mut self, detail: &str, now: u64)
        requires
            old(self).wf(),
        ensures
            final(self).wf(),
            final(self).status == old(self).status,
            shows_error(*final(self), "hotkey: "@ + detail@, now),
    {
        let mut m = owned("hotkey: ");
        push_str(&mut m, detail);
        self.show_error(m, now);
    }

    /// The label beside the waveform: elapsed `m:ss` while recording, the
    /// phase name while busy, nothing when idle.
    pub fn status_label(&self, elapsed_secs: u64) -> (l: String)
        ensures
            l@ == status_text(self.status, elapsed_secs),
    {
        match &self.status {
            Status::Recording { .. } => {
                let mut s = String::new();
                push_decimal(&mut s, elapsed_secs / 60);
                push_char(&mut s, ':');
                let sec = elapsed_secs % 60;
                if sec < 10 {
                    push_char(&mut s, '0');
                }
                push_decimal(&mut s, sec);
                proof {
                    if sec < 10 {
                        assert(decimal(sec as nat) == seq![crate::text::digit_char(sec as nat)]);
                    }
                }
                assert(s@ =~= elapsed_label(elapsed_secs as nat));
                s
            },
            Status::Transcribing => owned("Transcribing"),
            Status::Cleaning => owned("Refining"),
            Status::Typing => owned("Inserting"),
            Status::Idle => {
                let s = String::new();
                s
            },
        }
    }

    pub fn dot_color(&self) -> (c: u32)
        ensures
            c == dot_colour(*self),
    {
        match &self.status {
            Status::Idle => {
                if self.error.is_some() {
                    0xff6b6b
                } else {
                    0xf6c85f
                }
            },
            Status::Recording { .. } => 0xff5f57,
            _ => 0x8da2fb,
        }
    }
}

/// What each command asks for. While recording: toggle and stop finish the
/// recording and have it transcribed, cancel throws it away, start does
/// nothing. When idle: toggle and start begin a recording, stop and cancel
/// do nothing. Quit, settings and reload act in every status.
pub proof fn lemma_command_meanings(started: Instant, st: Status)
    ensures
        command_action(Status::Recording { started }, Command::Stop) == Action::StopAndTranscribe,
        command_action(Status::Recording { started }, Command::Toggle)
            == Action::StopAndTranscribe,
        command_action(Status::Recording { started }, Command::Cancel) == Action::DiscardRecording,
        command_action(Status::Recording { started }, Command::Start) == Action::Nothing,
        command_action(Status::Idle, Command::Start) == Action::StartRecording,
        command_action(Status::Idle, Command::Toggle) == Action::StartRecording,
        command_action(Status::Idle, Command::Stop) == Action::Nothing,
        command_action(Status::Idle, Command::Cancel) == Action::Nothing,
        command_action(st, Command::Quit) == Action::Quit,
        command_action(st, Command::Settings) == Action::OpenSettings,
        command_action(st, Command::Reload) == Action::Reload,
{
}

/// Only a cancel during a recording discards it; every other command
/// leaves a well-formed session as it was (see `handle_command`), so a
/// stop keeps the recording for transcription.
pub proof fn lemma_only_cancel_discards(st: Status, cmd: Command)
    ensures
        command_action(st, cmd) == Action::DiscardRecording <==> (st is Recording && cmd
            == Command::Cancel),
{
}

/// The pill shows while a recording is in flight, an error is up or a
/// notice is up, and only then; a window is opened for it when none is
/// open, and an open one is removed once none of these holds.
pub proof fn lemma_pill_shows_work_and_messages(s: Session)
    ensures
        (!(s.status is Idle) || s.error is Some || s.notice is Some) ==> pill_shown(s)
            && window_step(s, false) == WindowAction::Open && window_step(s, true)
            == WindowAction::Keep,
        (s.status is Idle && s.error is None && s.notice is None) ==> !pill_shown(s)
            && window_step(s, false) == WindowAction::Keep && window_step(s, true)
            == WindowAction::Close,
{
}

/// Idle is the only inactive status.
pub proof fn lemma_idle_only_inactive(st: Status)
    ensures
        (st is Idle) <==> !busy(st) && !(st is Recording),
{
}

/// While a recording is being transcribed, refined or typed, the recording
/// commands (toggle, start, stop, cancel) do nothing.
pub proof fn lemma_busy_ignores_recording_commands(st: Status, cmd: Command)
    requires
        busy(st),
        cmd == Command::Toggle || cmd == Command::Start || cmd == Command::Stop || cmd
            == Command::Cancel,
    ensures
        command_action(st, cmd) == Action::Nothing,
{
}

/// Toggle starts a recording from Idle and stops it while recording.
pub proof fn lemma_toggle_alternates(st: Status)
    ensures
        st is Idle ==> command_action(st, Command::Toggle) == Action::StartRecording,
        st is Recording ==> command_action(st, Command::Toggle) == Action::StopAndTranscribe,
{
}

/// A well-formed session hides the pill exactly when it is Idle with no
/// message, and then no message is pending either.
pub proof fn lemma_hidden_pill_is_quiet(s: Session)
    requires
        s.wf(),
    ensures
        (s.status is Idle && s.error is None && s.notice is None) <==> (s.status is Idle
            && no_message(s)),
{
}

/// Once a well-formed session is Idle with no message, an open pill window
/// is removed and none is opened.
pub proof fn lemma_idle_has_no_window(s: Session, window_open: bool)
    requires
        s.wf(),
        s.status is Idle,
        no_message(s),
    ensures
        window_step(s, window_open) == (if window_open {
            WindowAction::Close
        } else {
            WindowAction::Keep
        }),
{
}

/// While the pill must show, a window is open or about to be opened.
pub proof fn lemma_shown_pill_has_window(s: Session, window_open: bool)
    requires
        pill_shown(s),
    ensures
        window_step(s, window_open) != WindowAction::Close,
        !window_open ==> window_step(s, window_open) == WindowAction::Open,
{
}

/// A message shown at `now` disappears at the first tick at or after its
/// deadline, and not before.
pub proof fn lemma_message_expiry(s: Session, now: u64, t: u64, text: Seq<char>)
    requires
        s.wf(),
        shows_error(s, text, now) || shows_notice(s, text, now),
    ensures
        shows_error(s, text, now) ==> (t >= deadline(now, ERROR_DURATION_MS) <==> (
        s.message_expires_at matches Some(d) && t >= d)),
        shows_notice(s, text, now) ==> (t >= deadline(now, NOTICE_DURATION_MS) <==> (
        s.message_expires_at matches Some(d) && t >= d)),
{
}

} // verus!
