//! Subtle audio cues for recording start/stop, like Wispr Flow.
//!
//! Each cue is a short sequence of sine tones written once as a WAV file in
//! the cache directory and played by a system player; synthesising the
//! samples and running the player happen outside the library. This module
//! decides which cue plays and what it consists of.

use vstd::prelude::*;
use crate::text::owned;

verus! {

/// Sample rate of the cue files, in Hz.
pub const RATE: u32 = 48_000;

#[derive(Debug, Clone, Copy, PartialEq, Eq, Structural)]
pub enum Cue {
    /// Rising two-tone "listening now".
    Start,
    /// Falling tone "done".
    Stop,
    /// Low blip on errors.
    Error,
}

/// One segment of a cue: a sine tone of a frequency for a duration.
#[derive(Debug, Clone, Copy, PartialEq, Eq, Structural)]
pub struct Tone {
    pub freq_hz: u32,
    pub duration_ms: u32,
}

/// The cue that announces that recording started.
pub fn start() -> (c: Cue)
    ensures
        c == Cue::Start,
{
    Cue::Start
}

/// The cue that announces that recording stopped.
pub fn stop() -> (c: Cue)
    ensures
        c == Cue::Stop,
{
    Cue::Stop
}

/// The cue that announces an error.
pub fn error() -> (c: Cue)
    ensures
        c == Cue::Error,
{
    Cue::Error
}

pub open spec fn cue_file(c: Cue) -> Seq<char> {
    match c {
        Cue::Start => "start.wav"@,
        Cue::Stop => "stop.wav"@,
        Cue::Error => "error.wav"@,
    }
}

/// (frequency Hz, duration ms) segments per cue.
pub open spec fn cue_tones(c: Cue) -> Seq<Tone> {
    match c {
        Cue::Start => seq![
            Tone { freq_hz: 660, duration_ms: 60 },
            Tone { freq_hz: 990, duration_ms: 90 },
        ],
        Cue::Stop => seq![
            Tone { freq_hz: 880, duration_ms: 60 },
            Tone { freq_hz: 550, duration_ms: 90 },
        ],
        Cue::Error => seq![Tone { freq_hz: 220, duration_ms: 180 }],
    }
}

impl Cue {
    /// The cue's file name inside the cache directory.
    pub fn file_name(&self) -> (n: &'static str)
        ensures
            n@ == cue_file(*self),
    {
        match self {
            Cue::Start => "start.wav",
            Cue::Stop => "stop.wav",
            Cue::Error => "error.wav",
        }
    }

    /// The tones the cue plays, in order.
    pub fn segments(&self) -> (t: Vec<Tone>)
        ensures
            t@ == cue_tones(*self),
    {
        let mut t: Vec<Tone> = Vec::new();
        match self {
            Cue::Start => {
                t.push(Tone { freq_hz: 660, duration_ms: 60 });
                t.push(Tone { freq_hz: 990, duration_ms: 90 });
            },
            Cue::Stop => {
                t.push(Tone { freq_hz: 880, duration_ms: 60 });
                t.push(Tone { freq_hz: 550, duration_ms: 90 });
            },
            Cue::Error => {
                t.push(Tone { freq_hz: 220, duration_ms: 180 });
            },
        }
        assert(t@ =~= cue_tones(*self));
        t
    }
}

/// A system player and the arguments that play a cue file with it.
#[derive(Debug, Clone)]
pub struct Player {
    pub program: &'static str,
    pub args: Vec<String>,
}

/// The players tried in order; the first one installed plays the file.
pub open spec fn player_program(i: int) -> Seq<char> {
    if i == 0 {
        "pw-play"@
    } else if i == 1 {
        "paplay"@
    } else {
        "aplay"@
    }
}

/// The arguments of the `i`-th player for the file at `path`: the path
/// alone, and for `aplay` the quiet flag before it.
pub open spec fn player_args(i: int, path: Seq<char>) -> Seq<Seq<char>> {
    if i < 2 {
        seq![path]
    } else {
        seq!["-q"@, path]
    }
}

/// `pw-play`, then `paplay`, then `aplay -q`, each given the cue file.
pub fn player_commands(path: &str) -> (r: Vec<Player>)
    ensures
        r@.len() == 3,
        forall|i: int|
            0 <= i < 3 ==> {
                &&& (#[trigger] r@[i]).program@ == player_program(i)
                &&& r@[i].args@.len() == player_args(i, path@).len()
                &&& forall|j: int|
                    0 <= j < r@[i].args@.len() ==> (#[trigger] r@[i].args@[j])@ == player_args(
                        i,
                        path@,
                    )[j]
            },
{
    let mut pw: Vec<String> = Vec::new();
    pw.push(owned(path));
    let mut pa: Vec<String> = Vec::new();
    pa.push(owned(path));
    let mut ap: Vec<String> = Vec::new();
    ap.push(owned("-q"));
    ap.push(owned(path));
    let mut r: Vec<Player> = Vec::new();
    r.push(Player { program: "pw-play", args: pw });
    r.push(Player { program: "paplay", args: pa });
    r.push(Player { program: "aplay", args: ap });
    r
}

/// The number of samples a tone of `duration_ms` takes at `RATE`
/// (`(RATE as u64 * ms as u64 / 1000) as u32`).
pub fn sample_count(duration_ms: u32) -> (n: u32)
    ensures
        n == (#[verifier::truncate] ((48_000 * duration_ms as int / 1000) as u32)),
{
    let wide: u64 = 48_000u64 * (duration_ms as u64) / 1000;
    #[verifier::truncate]
    (wide as u32)
}

} // verus!
