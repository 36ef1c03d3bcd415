use dictationapp::config::{from_file, FileConfig, DEFAULT_MODEL};
use dictationapp::settings::{
    can_cut_word, shown_value, truncate_label, Field, KeyOutcome, SettingsForm, DIM, GREEN, RED,
};
use std::path::PathBuf;

fn form() -> SettingsForm {
    let cfg = from_file(PathBuf::from("/c"), FileConfig::default(), None);
    SettingsForm::from_config(cfg, vec!["USB Mic".into()])
}

#[test]
fn form_starts_from_the_config() {
    let f = form();
    assert_eq!(f.api_key, "");
    assert_eq!(f.model, DEFAULT_MODEL);
    assert!(f.mode_hold);
    assert_eq!(f.active, None);
    assert_eq!(f.footer_text(), "Ctrl+V to paste into fields.");
    assert_eq!(f.footer_color(), DIM);
}

#[test]
fn escape_and_tab() {
    let mut f = form();
    assert_eq!(f.key_down("escape", false, false, None), KeyOutcome::CloseWindow);
    assert_eq!(f.key_down("tab", false, false, None), KeyOutcome::Redraw);
    assert_eq!(f.active, Some(Field::ApiKey));
    for expected in [Field::Model, Field::Language, Field::Hotkey, Field::ApiKey] {
        f.key_down("tab", false, false, None);
        assert_eq!(f.active, Some(expected));
    }
    assert_eq!(f.key_down("escape", false, false, None), KeyOutcome::Redraw);
    assert_eq!(f.active, None);
    assert_eq!(f.key_down("a", false, false, Some("a")), KeyOutcome::Ignore);
}

#[test]
fn typing_and_deleting() {
    let mut f = form();
    f.active = Some(Field::Language);
    f.key_down("d", false, false, Some("d"));
    f.key_down("e", false, false, Some("e"));
    assert_eq!(f.language, "de");
    f.key_down("x", true, false, Some("x"));
    f.key_down("x", false, true, Some("x"));
    assert_eq!(f.language, "de");
    f.key_down("backspace", false, false, None);
    assert_eq!(f.language, "d");
    assert_eq!(f.key_down("v", true, false, None), KeyOutcome::Paste);
}

#[test]
fn ctrl_backspace_deletes_a_word() {
    let mut f = form();
    f.active = Some(Field::Model);
    f.model = "openai/whisper-large ".into();
    assert!(can_cut_word(&f.model));
    f.key_down("backspace", true, false, None);
    assert_eq!(f.model, "openai/whisper-");
    f.key_down("backspace", true, false, None);
    assert_eq!(f.model, "openai/whisper-");
    f.model = "word".into();
    f.key_down("backspace", true, false, None);
    assert_eq!(f.model, "");
    assert!(!can_cut_word("a\u{3000}b"));
}

#[test]
fn paste_strips_controls_and_trims() {
    let mut f = form();
    f.active = Some(Field::ApiKey);
    f.paste("  sk-or-\u{7}abc\n");
    assert_eq!(f.api_key, "sk-or-abc");
}

#[test]
fn masked_key_shows_bullets() {
    assert_eq!(shown_value("", true, false), "");
    assert_eq!(shown_value("abc", true, false), "•••");
    assert_eq!(shown_value(&"k".repeat(40), true, false).chars().count(), 24);
    assert_eq!(shown_value("é", true, false), "••");
    assert_eq!(shown_value("abc", true, true), "abc");
    assert_eq!(shown_value("abc", false, false), "abc");
}

#[test]
fn long_labels_are_truncated() {
    let long = "x".repeat(41);
    assert_eq!(truncate_label(&long), format!("{}…", "x".repeat(39)));
    assert_eq!(truncate_label(&"y".repeat(40)), "y".repeat(40));
}

#[test]
fn configured_mic_stays_selectable() {
    let mut f = form();
    assert_eq!(f.mic_choices(), vec!["USB Mic".to_string()]);
    f.mic = Some("Old Mic".into());
    assert_eq!(f.mic_choices(), vec!["USB Mic".to_string(), "Old Mic".to_string()]);
    f.mic = Some("USB Mic".into());
    assert_eq!(f.mic_choices(), vec!["USB Mic".to_string()]);
}

#[test]
fn save_builds_a_trimmed_config() {
    let mut f = form();
    f.api_key = "  sk-1 ".into();
    f.model = "   ".into();
    f.language = " fr ".into();
    f.hotkey = " KEY_F13 ".into();
    f.mode_hold = false;
    let c = f.to_config(PathBuf::from("/p")).unwrap();
    assert_eq!(c.api_key.as_deref(), Some("sk-1"));
    assert_eq!(c.model, DEFAULT_MODEL);
    assert_eq!(c.language.as_deref(), Some("fr"));
    assert_eq!(c.hotkey, "KEY_F13");
    assert_eq!(c.mode, "toggle");
    assert_eq!(c.path, PathBuf::from("/p"));
    f.hotkey = "KEY_BOGUS".into();
    let e = f.to_config(PathBuf::from("/p")).unwrap_err();
    assert_eq!(e.name, "KEY_BOGUS");
    f.record_save(None);
    assert_eq!(f.footer_text(), "Saved.");
    assert_eq!(f.footer_color(), GREEN);
    f.record_save(Some("failed to write /p".into()));
    assert_eq!(f.footer_color(), RED);
}

#[test]
fn output_toggles() {
    let mut f = form();
    f.toggle_flag(1);
    assert!(!f.beeps && f.type_text && f.cleanup);
    f.toggle_flag(7);
    assert!(!f.beeps && f.type_text && f.cleanup);
    f.pick_model("openai/whisper-1");
    assert_eq!(f.model, "openai/whisper-1");
}

#[test]
fn saving_an_unedited_form_keeps_the_config() {
    let cfg = dictationapp::config::Config {
        api_key: Some("sk-or-9".into()),
        model: "openai/whisper-1".into(),
        language: None,
        mode: "toggle".into(),
        hotkey: "KEY_CAPSLOCK".into(),
        mic: Some("USB Mic".into()),
        type_text: false,
        beeps: true,
        cleanup: false,
        cleanup_model: "c/m".into(),
        path: PathBuf::from("/p"),
    };
    let f = SettingsForm::from_config(cfg.clone(), vec![]);
    let saved = f.to_config(PathBuf::from("/p")).unwrap();
    assert_eq!(saved.to_toml(), cfg.to_toml());
    assert_eq!(saved.mic, cfg.mic);
    assert_eq!(saved.path, cfg.path);
}
