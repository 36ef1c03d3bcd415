use dictationapp::beep::{error, player_commands, sample_count, start, stop, Cue, Tone};

#[test]
fn cues_name_their_files() {
    assert_eq!(start(), Cue::Start);
    assert_eq!(stop(), Cue::Stop);
    assert_eq!(error(), Cue::Error);
    assert_eq!(start().file_name(), "start.wav");
    assert_eq!(stop().file_name(), "stop.wav");
    assert_eq!(error().file_name(), "error.wav");
}

#[test]
fn start_rises_and_stop_falls() {
    assert_eq!(
        Cue::Start.segments(),
        vec![Tone { freq_hz: 660, duration_ms: 60 }, Tone { freq_hz: 990, duration_ms: 90 }]
    );
    assert_eq!(
        Cue::Stop.segments(),
        vec![Tone { freq_hz: 880, duration_ms: 60 }, Tone { freq_hz: 550, duration_ms: 90 }]
    );
    assert_eq!(Cue::Error.segments(), vec![Tone { freq_hz: 220, duration_ms: 180 }]);
}

#[test]
fn samples_per_segment() {
    assert_eq!(sample_count(60), 2880);
    assert_eq!(sample_count(90), 4320);
    assert_eq!(sample_count(180), 8640);
    assert_eq!(sample_count(0), 0);
}

#[test]
fn players_are_tried_in_order() {
    let players = player_commands("/tmp/cue.wav");
    let got: Vec<(&str, Vec<String>)> =
        players.into_iter().map(|p| (p.program, p.args)).collect();
    assert_eq!(
        got,
        vec![
            ("pw-play", vec!["/tmp/cue.wav".to_string()]),
            ("paplay", vec!["/tmp/cue.wav".to_string()]),
            ("aplay", vec!["-q".to_string(), "/tmp/cue.wav".to_string()]),
        ]
    );
}
