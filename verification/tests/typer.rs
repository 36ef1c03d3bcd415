use dictationapp::typer;
use dictationapp::typer::{
    key_for_char, keyboard_keys, plan_taps, tap_steps, KeyStep, Tap, KEY_A, KEY_LEFTSHIFT, KEY_SLASH,
};
use evdev::KeyCode;

#[test]
fn letters_digits_and_symbols_map_to_keys() {
    assert_eq!(key_for_char('a'), Some((KEY_A, false)));
    assert_eq!(key_for_char('A'), Some((KEY_A, true)));
    assert_eq!(key_for_char('1'), Some((2, false)));
    assert_eq!(key_for_char('!'), Some((2, true)));
    assert_eq!(key_for_char('?'), Some((KEY_SLASH, true)));
    assert_eq!(key_for_char('\n'), Some((28, false)));
    assert_eq!(key_for_char('é'), None);
}

#[test]
fn unmapped_characters_are_skipped() {
    let taps = plan_taps("Hé!");
    assert_eq!(
        taps,
        vec![
            Tap { ch: 'H', code: 35, shift: true },
            Tap { ch: '!', code: 2, shift: true },
        ]
    );
    assert!(plan_taps("").is_empty());
}

#[test]
fn every_typed_key_is_registered() {
    let keys = keyboard_keys();
    assert!(keys.contains(&KEY_LEFTSHIFT));
    for c in (0u8..128).map(char::from) {
        if let Some((code, _)) = key_for_char(c) {
            assert!(keys.contains(&code), "{c:?}");
        }
    }
    assert_eq!(keys.len(), 58);
}

#[test]
fn a_tap_presses_holds_and_releases() {
    let plain = tap_steps(Tap { ch: 'a', code: KEY_A, shift: false });
    assert_eq!(
        plain,
        vec![
            KeyStep { code: KEY_A, value: 1, pause_ms: 4 },
            KeyStep { code: KEY_A, value: 0, pause_ms: 2 },
        ]
    );
    let shifted = tap_steps(Tap { ch: '?', code: KEY_SLASH, shift: true });
    assert_eq!(
        shifted,
        vec![
            KeyStep { code: KEY_LEFTSHIFT, value: 1, pause_ms: 0 },
            KeyStep { code: KEY_SLASH, value: 1, pause_ms: 4 },
            KeyStep { code: KEY_SLASH, value: 0, pause_ms: 0 },
            KeyStep { code: KEY_LEFTSHIFT, value: 0, pause_ms: 2 },
        ]
    );
}

#[test]
fn key_codes_match_evdev() {
    let pairs: Vec<(&str, u16, u16)> = vec![
        ("KEY_ESC", typer::KEY_ESC, KeyCode::KEY_ESC.code()),
        ("KEY_1", typer::KEY_1, KeyCode::KEY_1.code()),
        ("KEY_2", typer::KEY_2, KeyCode::KEY_2.code()),
        ("KEY_3", typer::KEY_3, KeyCode::KEY_3.code()),
        ("KEY_4", typer::KEY_4, KeyCode::KEY_4.code()),
        ("KEY_5", typer::KEY_5, KeyCode::KEY_5.code()),
        ("KEY_6", typer::KEY_6, KeyCode::KEY_6.code()),
        ("KEY_7", typer::KEY_7, KeyCode::KEY_7.code()),
        ("KEY_8", typer::KEY_8, KeyCode::KEY_8.code()),
        ("KEY_9", typer::KEY_9, KeyCode::KEY_9.code()),
        ("KEY_0", typer::KEY_0, KeyCode::KEY_0.code()),
        ("KEY_MINUS", typer::KEY_MINUS, KeyCode::KEY_MINUS.code()),
        ("KEY_EQUAL", typer::KEY_EQUAL, KeyCode::KEY_EQUAL.code()),
        ("KEY_BACKSPACE", typer::KEY_BACKSPACE, KeyCode::KEY_BACKSPACE.code()),
        ("KEY_TAB", typer::KEY_TAB, KeyCode::KEY_TAB.code()),
        ("KEY_Q", typer::KEY_Q, KeyCode::KEY_Q.code()),
        ("KEY_W", typer::KEY_W, KeyCode::KEY_W.code()),
        ("KEY_E", typer::KEY_E, KeyCode::KEY_E.code()),
        ("KEY_R", typer::KEY_R, KeyCode::KEY_R.code()),
        ("KEY_T", typer::KEY_T, KeyCode::KEY_T.code()),
        ("KEY_Y", typer::KEY_Y, KeyCode::KEY_Y.code()),
        ("KEY_U", typer::KEY_U, KeyCode::KEY_U.code()),
        ("KEY_I", typer::KEY_I, KeyCode::KEY_I.code()),
        ("KEY_O", typer::KEY_O, KeyCode::KEY_O.code()),
        ("KEY_P", typer::KEY_P, KeyCode::KEY_P.code()),
        ("KEY_LEFTBRACE", typer::KEY_LEFTBRACE, KeyCode::KEY_LEFTBRACE.code()),
        ("KEY_RIGHTBRACE", typer::KEY_RIGHTBRACE, KeyCode::KEY_RIGHTBRACE.code()),
        ("KEY_ENTER", typer::KEY_ENTER, KeyCode::KEY_ENTER.code()),
        ("KEY_LEFTCTRL", typer::KEY_LEFTCTRL, KeyCode::KEY_LEFTCTRL.code()),
        ("KEY_A", typer::KEY_A, KeyCode::KEY_A.code()),
        ("KEY_S", typer::KEY_S, KeyCode::KEY_S.code()),
        ("KEY_D", typer::KEY_D, KeyCode::KEY_D.code()),
        ("KEY_F", typer::KEY_F, KeyCode::KEY_F.code()),
        ("KEY_G", typer::KEY_G, KeyCode::KEY_G.code()),
        ("KEY_H", typer::KEY_H, KeyCode::KEY_H.code()),
        ("KEY_J", typer::KEY_J, KeyCode::KEY_J.code()),
        ("KEY_K", typer::KEY_K, KeyCode::KEY_K.code()),
        ("KEY_L", typer::KEY_L, KeyCode::KEY_L.code()),
        ("KEY_SEMICOLON", typer::KEY_SEMICOLON, KeyCode::KEY_SEMICOLON.code()),
        ("KEY_APOSTROPHE", typer::KEY_APOSTROPHE, KeyCode::KEY_APOSTROPHE.code()),
        ("KEY_GRAVE", typer::KEY_GRAVE, KeyCode::KEY_GRAVE.code()),
        ("KEY_LEFTSHIFT", typer::KEY_LEFTSHIFT, KeyCode::KEY_LEFTSHIFT.code()),
        ("KEY_BACKSLASH", typer::KEY_BACKSLASH, KeyCode::KEY_BACKSLASH.code()),
        ("KEY_Z", typer::KEY_Z, KeyCode::KEY_Z.code()),
        ("KEY_X", typer::KEY_X, KeyCode::KEY_X.code()),
        ("KEY_C", typer::KEY_C, KeyCode::KEY_C.code()),
        ("KEY_V", typer::KEY_V, KeyCode::KEY_V.code()),
        ("KEY_B", typer::KEY_B, KeyCode::KEY_B.code()),
        ("KEY_N", typer::KEY_N, KeyCode::KEY_N.code()),
        ("KEY_M", typer::KEY_M, KeyCode::KEY_M.code()),
        ("KEY_COMMA", typer::KEY_COMMA, KeyCode::KEY_COMMA.code()),
        ("KEY_DOT", typer::KEY_DOT, KeyCode::KEY_DOT.code()),
        ("KEY_SLASH", typer::KEY_SLASH, KeyCode::KEY_SLASH.code()),
        ("KEY_RIGHTSHIFT", typer::KEY_RIGHTSHIFT, KeyCode::KEY_RIGHTSHIFT.code()),
        ("KEY_LEFTALT", typer::KEY_LEFTALT, KeyCode::KEY_LEFTALT.code()),
        ("KEY_SPACE", typer::KEY_SPACE, KeyCode::KEY_SPACE.code()),
        ("KEY_RIGHTCTRL", typer::KEY_RIGHTCTRL, KeyCode::KEY_RIGHTCTRL.code()),
        ("KEY_RIGHTALT", typer::KEY_RIGHTALT, KeyCode::KEY_RIGHTALT.code()),
    ];
    for (name, ours, theirs) in &pairs {
        assert_eq!(ours, theirs, "{name}");
    }
    assert_eq!(pairs.len(), 58);
}
