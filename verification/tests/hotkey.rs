use dictationapp::hotkey::{
    is_event_node, note_open, parse_key, should_probe, KeyFilter, Mode, NodeSet, DEBOUNCE_NS,
};
use dictationapp::ipc::Command;

const KEY: u16 = 97;
const MS: u64 = 1_000_000;

#[test]
fn known_key_names_parse() {
    assert_eq!(parse_key("KEY_RIGHTCTRL").unwrap(), 97);
    assert_eq!(parse_key("KEY_F24").unwrap(), 194);
    assert_eq!(parse_key("KEY_A").unwrap(), 30);
}

#[test]
fn unknown_key_names_are_rejected() {
    let e = parse_key("KEY_NOPE").unwrap_err();
    assert_eq!(e.name, "KEY_NOPE");
    assert_eq!(e.message(), "unknown key name 'KEY_NOPE': failed to parse Key from string");
    assert!(parse_key(" KEY_A").is_err());
}

#[test]
fn mode_setting() {
    assert_eq!(Mode::from_setting("toggle"), Mode::Toggle);
    assert_eq!(Mode::from_setting("hold"), Mode::Hold);
    assert_eq!(Mode::from_setting("Toggle"), Mode::Hold);
}

#[test]
fn hold_mode_sends_start_then_stop() {
    let mut f = KeyFilter::new(KEY, Mode::Hold);
    assert_eq!(f.on_event(true, KEY, 1, 0), Some(Command::Start));
    assert!(f.held);
    // autorepeat is ignored
    assert_eq!(f.on_event(true, KEY, 2, 200 * MS), None);
    assert_eq!(f.on_event(true, KEY, 0, 500 * MS), Some(Command::Stop));
    assert!(!f.held);
    // a second release does nothing
    assert_eq!(f.on_event(true, KEY, 0, 700 * MS), None);
}

#[test]
fn toggle_mode_sends_toggle_on_press_only() {
    let mut f = KeyFilter::new(KEY, Mode::Toggle);
    assert_eq!(f.on_event(true, KEY, 1, 10 * MS), Some(Command::Toggle));
    assert_eq!(f.on_event(true, KEY, 0, 200 * MS), None);
    assert_eq!(f.on_event(true, KEY, 1, 400 * MS), Some(Command::Toggle));
}

#[test]
fn changes_within_80ms_are_debounced() {
    let mut f = KeyFilter::new(KEY, Mode::Hold);
    assert_eq!(f.on_event(true, KEY, 1, 1000 * MS), Some(Command::Start));
    assert_eq!(f.on_event(true, KEY, 0, 1000 * MS + DEBOUNCE_NS - 1), None);
    assert!(f.held);
    assert_eq!(f.on_event(true, KEY, 0, 1000 * MS + DEBOUNCE_NS), Some(Command::Stop));
}

#[test]
fn other_keys_and_event_types_are_ignored() {
    let mut f = KeyFilter::new(KEY, Mode::Toggle);
    let before = f;
    assert_eq!(f.on_event(true, 30, 1, 0), None);
    assert_eq!(f.on_event(false, KEY, 1, 0), None);
    assert_eq!(f, before);
}

#[test]
fn event_nodes_are_recognised() {
    assert!(is_event_node("event0"));
    assert!(is_event_node("event12"));
    assert!(!is_event_node("mouse0"));
    assert!(!is_event_node("even"));
    assert!(!is_event_node("by-id"));
}

#[test]
fn node_set_keeps_each_name_once() {
    let mut set = NodeSet::new();
    assert_eq!(set.len(), 0);
    assert!(set.insert("event3"));
    assert!(!set.insert("event3"));
    assert!(set.insert("event7"));
    assert_eq!(set.len(), 2);
    assert!(set.contains("event3"));
    assert!(set.remove("event3"));
    assert!(!set.remove("event3"));
    assert!(!set.contains("event3"));
    assert_eq!(set.len(), 1);
}

#[test]
fn only_unwatched_event_nodes_are_probed() {
    let mut watched = NodeSet::new();
    assert!(should_probe("event4", &watched));
    assert!(!should_probe("mouse0", &watched));
    assert!(!should_probe("by-id", &watched));
    watched.insert("event4");
    assert!(!should_probe("event4", &watched));
    assert!(should_probe("event5", &watched));
}

#[test]
fn an_unreadable_node_is_reported_once_until_it_opens() {
    let mut failed = NodeSet::new();
    assert!(note_open(&mut failed, "event9", false));
    assert!(!note_open(&mut failed, "event9", false));
    assert!(failed.contains("event9"));
    assert!(!note_open(&mut failed, "event9", true));
    assert!(!failed.contains("event9"));
    assert!(note_open(&mut failed, "event9", false));
}
