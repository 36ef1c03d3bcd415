use dictationapp::beep::Cue;
use dictationapp::config::{from_file, FileConfig};
use dictationapp::ipc::Command;
use dictationapp::session::{
    final_text, Action, RecordingStart, Session, Status, WindowAction, ERROR_DURATION_MS, MIC_UNAVAILABLE_TEXT,
    MISSING_KEY_TEXT, NO_SPEECH_TEXT, NOTICE_DURATION_MS, TOO_SHORT_TEXT,
    TRANSCRIPTION_FAILED_TEXT,
};
use std::path::PathBuf;
use std::time::Instant;

#[test]
fn idle_is_the_only_inactive_status() {
    assert!(!Status::Idle.is_active());
    assert!(
        Status::Recording {
            started: Instant::now()
        }
        .is_active()
    );
    assert!(Status::Transcribing.is_active());
    assert!(Status::Cleaning.is_active());
    assert!(Status::Typing.is_active());
}

fn recording() -> Session {
    let mut s = Session::new();
    assert!(s.start_recording(true, 0));
    assert_eq!(
        s.recording_started(Instant::now(), true),
        RecordingStart { cue: Some(Cue::Start), reposition: false }
    );
    s
}

#[test]
fn toggle_starts_and_stops() {
    let mut s = Session::new();
    assert!(!s.pill_visible());
    assert_eq!(s.handle_command(Command::Toggle), Action::StartRecording);
    let mut s = recording();
    assert!(s.pill_visible());
    assert_eq!(s.handle_command(Command::Toggle), Action::StopAndTranscribe);
    assert_eq!(s.handle_command(Command::Start), Action::Nothing);
    assert_eq!(s.handle_command(Command::Quit), Action::Quit);
    assert_eq!(s.handle_command(Command::Settings), Action::OpenSettings);
    assert_eq!(s.handle_command(Command::Reload), Action::Reload);
}

#[test]
fn busy_session_ignores_recording_commands() {
    let mut s = recording();
    s.transcribing(false);
    for c in [Command::Toggle, Command::Start, Command::Stop, Command::Cancel] {
        assert_eq!(s.handle_command(c), Action::Nothing);
        assert!(matches!(s.status, Status::Transcribing));
    }
}

#[test]
fn cancel_discards_the_recording() {
    let mut s = recording();
    assert_eq!(s.handle_command(Command::Cancel), Action::DiscardRecording);
    assert!(matches!(s.status, Status::Idle));
    assert!(!s.pill_visible());
    let mut idle = Session::new();
    assert_eq!(idle.handle_command(Command::Cancel), Action::Nothing);
}

#[test]
fn missing_api_key_shows_an_error_for_four_seconds() {
    let mut s = Session::new();
    assert!(!s.start_recording(false, 1000));
    assert_eq!(s.error.as_deref(), Some(MISSING_KEY_TEXT));
    assert_eq!(s.message_expires_at, Some(1000 + ERROR_DURATION_MS));
    assert!(s.pill_visible());
    assert_eq!(s.dot_color(), 0xff6b6b);
    assert!(!s.tick(4999));
    assert!(s.tick(5000));
    assert!(!s.pill_visible());
    assert_eq!(s.dot_color(), 0xf6c85f);
}

#[test]
fn microphone_failure_plays_the_error_cue() {
    let mut s = Session::new();
    assert_eq!(s.recording_failed(true, 0), Some(Cue::Error));
    assert_eq!(s.error.as_deref(), Some(MIC_UNAVAILABLE_TEXT));
    assert_eq!(s.recording_failed(false, 0), None);
}

#[test]
fn short_recordings_are_dropped_with_a_notice() {
    let mut s = recording();
    assert!(!s.recorded(11_999, 48_000, 10));
    assert!(matches!(s.status, Status::Idle));
    assert_eq!(s.notice.as_deref(), Some(TOO_SHORT_TEXT));
    assert_eq!(s.message_expires_at, Some(10 + NOTICE_DURATION_MS));
    let mut s = recording();
    assert!(s.recorded(12_000, 48_000, 10));
}

#[test]
fn a_full_dictation_ends_idle() {
    let mut s = recording();
    assert!(s.recorded(48_000, 48_000, 0));
    assert_eq!(s.transcribing(true), Some(Cue::Stop));
    assert_eq!(s.status_label(0), "Transcribing");
    let raw = s.transcript_arrived(Some("hello".into()), 0).unwrap();
    assert!(s.start_cleanup(true));
    assert_eq!(s.status_label(0), "Refining");
    let text = final_text(raw, Some("Hello.".into()));
    assert_eq!(text, "Hello.");
    assert!(s.delivered(true));
    assert_eq!(s.status_label(0), "Inserting");
    assert_eq!(s.dot_color(), 0x8da2fb);
    s.typing_finished(None, 0);
    assert!(!s.pill_visible());
}

#[test]
fn transcription_outcomes() {
    let mut s = recording();
    s.transcribing(false);
    assert!(s.transcript_arrived(Some(String::new()), 5).is_none());
    assert_eq!(s.notice.as_deref(), Some(NO_SPEECH_TEXT));
    let mut s = recording();
    s.transcribing(false);
    assert!(s.transcript_arrived(None, 5).is_none());
    assert_eq!(s.error.as_deref(), Some(TRANSCRIPTION_FAILED_TEXT));
    assert_eq!(s.notice, None);
}

#[test]
fn cleanup_failure_keeps_the_raw_text() {
    assert_eq!(final_text("raw".into(), None), "raw");
}

#[test]
fn typing_failure_points_to_the_clipboard() {
    let mut s = recording();
    s.delivered(true);
    s.typing_finished(Some("failed to type 'a'"), 0);
    assert_eq!(
        s.error.as_deref(),
        Some("Typing failed (failed to type 'a') — transcript is on the clipboard")
    );
    let mut s = recording();
    assert!(!s.delivered(false));
    assert!(!s.pill_visible());
}

#[test]
fn recording_label_counts_minutes_and_seconds() {
    let s = recording();
    assert_eq!(s.status_label(0), "0:00");
    assert_eq!(s.status_label(7), "0:07");
    assert_eq!(s.status_label(65), "1:05");
    assert_eq!(s.status_label(600), "10:00");
    assert_eq!(s.dot_color(), 0xff5f57);
    assert_eq!(Session::new().status_label(3), "");
}

#[test]
fn reload_restarts_the_hotkey_only_on_change() {
    let current = from_file(PathBuf::from("/c"), FileConfig::default(), None);
    let same = from_file(PathBuf::from("/c"), FileConfig::default(), None);
    let mut s = Session::new();
    s.reload_failed(0);
    assert!(s.error.is_some());
    assert!(!s.reloaded(&current, &same));
    assert!(s.error.is_none());
    let toggled = from_file(
        PathBuf::from("/c"),
        FileConfig { mode: Some("toggle".into()), ..Default::default() },
        None,
    );
    assert!(s.reloaded(&current, &toggled));
    s.hotkey_failed("unknown key name 'X': failed to parse Key from string", 3);
    assert_eq!(
        s.error.as_deref(),
        Some("hotkey: unknown key name 'X': failed to parse Key from string")
    );
}

#[test]
fn a_notice_replaces_an_error() {
    let mut s = Session::new();
    s.show_error("e".into(), 0);
    s.show_notice("n".into(), 100);
    assert_eq!(s.error, None);
    assert_eq!(s.notice.as_deref(), Some("n"));
    assert_eq!(s.message_expires_at, Some(100 + NOTICE_DURATION_MS));
    s.show_error("late".into(), u64::MAX - 1);
    assert_eq!(s.message_expires_at, Some(u64::MAX));
}

#[test]
fn cleanup_runs_only_when_enabled() {
    let mut s = recording();
    s.transcribing(false);
    s.transcript_arrived(Some("hello".into()), 0).unwrap();
    assert!(!s.start_cleanup(false));
    assert!(matches!(s.status, Status::Transcribing));
    assert!(s.start_cleanup(true));
    assert!(matches!(s.status, Status::Cleaning));
    assert!(s.error.is_none() && s.notice.is_none());
}

#[test]
fn a_visible_pill_is_repositioned_when_recording_starts() {
    // From a hidden pill: the new window is placed when it opens.
    let mut s = Session::new();
    let start = s.recording_started(Instant::now(), false);
    assert_eq!(start, RecordingStart { cue: None, reposition: false });
    // From a pill still showing a message: it follows the focused output.
    let mut s = Session::new();
    assert!(!s.start_recording(false, 0));
    assert!(s.pill_visible());
    assert!(s.start_recording(true, 1));
    let start = s.recording_started(Instant::now(), true);
    assert_eq!(start, RecordingStart { cue: Some(Cue::Start), reposition: true });
    assert!(s.error.is_none());
}

#[test]
fn the_window_exists_only_while_the_pill_shows() {
    let mut s = Session::new();
    assert_eq!(s.window_action(false), WindowAction::Keep);
    assert_eq!(s.window_action(true), WindowAction::Close);
    assert!(!s.start_recording(false, 0));
    assert_eq!(s.window_action(false), WindowAction::Open);
    assert_eq!(s.window_action(true), WindowAction::Keep);
    assert!(s.tick(ERROR_DURATION_MS));
    assert_eq!(s.window_action(true), WindowAction::Close);
    let s = recording();
    assert_eq!(s.window_action(false), WindowAction::Open);
    assert_eq!(s.window_action(true), WindowAction::Keep);
}
