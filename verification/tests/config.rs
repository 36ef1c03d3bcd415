use dictationapp::config::{from_file, Config, FileConfig, DEFAULT_CLEANUP_MODEL, DEFAULT_HOTKEY, DEFAULT_MODEL};
use std::path::PathBuf;

#[test]
fn default_file_config_resolves_cleanup_defaults() {
    let cfg = from_file(PathBuf::from("/tmp/x"), FileConfig::default(), None);
    assert!(cfg.cleanup);
    assert_eq!(cfg.cleanup_model, DEFAULT_CLEANUP_MODEL);
}

#[test]
fn explicit_cleanup_settings_are_preserved() {
    let file = FileConfig {
        cleanup: Some(false),
        cleanup_model: Some("custom/model".into()),
        ..Default::default()
    };
    let cfg = from_file(PathBuf::from("/tmp/x"), file, None);
    assert!(!cfg.cleanup);
    assert_eq!(cfg.cleanup_model, "custom/model");
}

#[test]
fn empty_file_takes_every_default() {
    let cfg = from_file(PathBuf::from("/tmp/x"), FileConfig::default(), None);
    assert_eq!(cfg.api_key, None);
    assert_eq!(cfg.model, DEFAULT_MODEL);
    assert_eq!(cfg.language, None);
    assert_eq!(cfg.mode, "hold");
    assert_eq!(cfg.hotkey, DEFAULT_HOTKEY);
    assert_eq!(cfg.mic, None);
    assert!(cfg.type_text && cfg.beeps && cfg.cleanup);
    assert_eq!(cfg.path, PathBuf::from("/tmp/x"));
}

#[test]
fn environment_key_wins_unless_blank() {
    let file = FileConfig { api_key: Some("file-key".into()), ..Default::default() };
    let cfg = from_file(PathBuf::from("/c"), file, Some("env-key".into()));
    assert_eq!(cfg.api_key.as_deref(), Some("env-key"));
    let file = FileConfig { api_key: Some("file-key".into()), ..Default::default() };
    let cfg = from_file(PathBuf::from("/c"), file, Some("  ".into()));
    assert_eq!(cfg.api_key.as_deref(), Some("file-key"));
    let file = FileConfig { api_key: Some("\t".into()), ..Default::default() };
    let cfg = from_file(PathBuf::from("/c"), file, None);
    assert_eq!(cfg.api_key, None);
}

#[test]
fn blank_strings_fall_back_but_mode_is_kept() {
    let file = FileConfig {
        model: Some(" ".into()),
        language: Some("".into()),
        hotkey: Some("\n".into()),
        mode: Some(" ".into()),
        cleanup_model: Some("".into()),
        mic: Some("  ".into()),
        type_text: Some(false),
        beeps: Some(false),
        ..Default::default()
    };
    let cfg = from_file(PathBuf::from("/c"), file, None);
    assert_eq!(cfg.model, DEFAULT_MODEL);
    assert_eq!(cfg.language, None);
    assert_eq!(cfg.hotkey, DEFAULT_HOTKEY);
    assert_eq!(cfg.mode, " ");
    assert_eq!(cfg.cleanup_model, DEFAULT_CLEANUP_MODEL);
    assert_eq!(cfg.mic, None);
    assert!(!cfg.type_text && !cfg.beeps);
}

fn sample() -> Config {
    Config {
        api_key: Some("sk-or-1".into()),
        model: "m/x".into(),
        language: Some("en".into()),
        mode: "toggle".into(),
        hotkey: "KEY_F13".into(),
        mic: None,
        type_text: false,
        beeps: true,
        cleanup: true,
        cleanup_model: "c/y".into(),
        path: PathBuf::from("/tmp/c.toml"),
    }
}

#[test]
fn saved_text_lists_every_setting() {
    let text = sample().to_toml();
    assert_eq!(
        text,
        "api_key = \"sk-or-1\"\nmodel = \"m/x\"\nlanguage = \"en\"\ncleanup = true\ncleanup_model = \"c/y\"\nmode = \"toggle\"\nhotkey = \"KEY_F13\"\ntype_text = false\nbeeps = true\n"
    );
}

#[test]
fn saved_text_omits_unset_language_and_quotes_strings() {
    let mut c = sample();
    c.api_key = None;
    c.language = None;
    c.mic = Some("USB \"Mic\"".into());
    let text = c.to_toml();
    assert!(text.starts_with("api_key = \"\"\nmodel = \"m/x\"\nmic = \"USB \\\"Mic\\\"\"\ncleanup = true\n"));
    assert!(!text.contains("language"));
}
