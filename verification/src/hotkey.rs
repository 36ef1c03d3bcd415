//! The global hotkey: its key name, its mode, and the per-device filter that
//! turns raw key events into recording commands.
//!
//! Opening input devices and polling them happens outside the library; each
//! event read is handed to `KeyFilter::on_event` with the time it was seen.

use vstd::prelude::*;
use std::str::FromStr;
use crate::ipc::Command;
use crate::text::{has_prefix, owned, push_str, str_eq};

verus! {

#[derive(Debug, Clone, Copy, PartialEq, Eq, Structural)]
pub enum Mode {
    /// Hold the key to record, release to transcribe.
    Hold,
    /// Press the key to toggle recording on/off.
    Toggle,
}

impl Mode {
    /// The mode named by the config's `mode` setting: `"toggle"` selects
    /// toggling, anything else holding.
    pub fn from_setting(mode: &str) -> (m: Mode)
        ensures
            m == (if mode@ == "toggle"@ {
                Mode::Toggle
            } else {
                Mode::Hold
            }),
    {
        if str_eq(mode, "toggle") {
            Mode::Toggle
        } else {
            Mode::Hold
        }
    }
}

/// The key code `evdev::KeyCode::from_str` finds for a key name such as
/// `KEY_RIGHTCTRL`, if any.
pub uninterp spec fn evdev_key_code(name: Seq<char>) -> Option<u16>;

/// `<evdev::KeyCode as FromStr>::from_str`, seen through the key's code.
/// The crate looks the name up in its table of key names; the contract only
/// names the outcome.
#[verifier::external_body]
fn key_code_by_name(name: &str) -> (r: Option<u16>)
    ensures
        r == evdev_key_code(name@),
{
    evdev::KeyCode::from_str(name).ok().map(|k| k.0)
}

/// A key name that evdev does not know.
#[derive(Debug, Clone)]
pub struct HotkeyError {
    pub name: String,
}

impl HotkeyError {
    /// `unknown key name '<name>': failed to parse Key from string`
    pub fn message(&self) -> (m: String)
        ensures
            m@ == "unknown key name '"@ + self.name@ + "': failed to parse Key from string"@,
    {
        let mut m = owned("unknown key name '");
        push_str(&mut m, self.name.as_str());
        push_str(&mut m, "': failed to parse Key from string");
        m
    }
}

/// Look up a key by name like "KEY_RIGHTCTRL"; the result is its input code.
pub fn parse_key(name: &str) -> (r: Result<u16, HotkeyError>)
    ensures
        match r {
            Ok(code) => evdev_key_code(name@) == Some(code),
            Err(e) => evdev_key_code(name@) is None && e.name@ == name@,
        },
{
    match key_code_by_name(name) {
        Some(code) => Ok(code),
        None => Err(HotkeyError { name: owned(name) }),
    }
}

/// Key events closer together than this are ignored (80 ms).
pub const DEBOUNCE_NS: u64 = 80_000_000;

/// Event value of a key release.
pub const KEY_RELEASE: i32 = 0;

/// Event value of a key press.
pub const KEY_PRESS: i32 = 1;

/// Event value of an autorepeat.
pub const KEY_REPEAT: i32 = 2;

/// Per-device state of the hotkey listener.
#[derive(Debug, Clone, Copy, PartialEq, Eq)]
pub struct KeyFilter {
    /// The hotkey's input code.
    pub key: u16,
    pub mode: Mode,
    /// In hold mode: a Start has been sent and its Stop has not.
    pub held: bool,
    /// When the last press or release of the hotkey was accepted, in
    /// nanoseconds on the caller's monotonic clock.
    pub last_change: Option<u64>,
}

/// An event that comes too soon after the last accepted change of the key
/// (a clock that went backwards counts as too soon).
pub open spec fn too_soon(last: Option<u64>, now: u64) -> bool {
    match last {
        Some(t) => now < t || now - t < DEBOUNCE_NS,
        None => false,
    }
}

/// Whether an event is a press or release of the hotkey that is not dropped.
pub open spec fn accepted(f: KeyFilter, is_key: bool, code: u16, value: i32, now: u64) -> bool {
    is_key && code == f.key && value != KEY_REPEAT && !too_soon(f.last_change, now)
}

/// The filter after an event and the command it sends.
pub open spec fn filter_step(f: KeyFilter, is_key: bool, code: u16, value: i32, now: u64) -> (
    KeyFilter,
    Option<Command>,
) {
    if !accepted(f, is_key, code, value, now) {
        (f, None)
    } else {
        let g = KeyFilter { last_change: Some(now), ..f };
        match f.mode {
            Mode::Hold => if value == KEY_PRESS && !f.held {
                (KeyFilter { held: true, ..g }, Some(Command::Start))
            } else if value == KEY_RELEASE && f.held {
                (KeyFilter { held: false, ..g }, Some(Command::Stop))
            } else {
                (g, None)
            },
            Mode::Toggle => if value == KEY_PRESS {
                (g, Some(Command::Toggle))
            } else {
                (g, None)
            },
        }
    }
}

impl KeyFilter {
    pub fn new(key: u16, mode: Mode) -> (f: KeyFilter)
        ensures
            f.key == key,
            f.mode == mode,
            !f.held,
            f.last_change is None,
    {
        KeyFilter { key, mode, held: false, last_change: None }
    }

    /// Feed one input event seen at `now` (nanoseconds); returns the
    /// command to send, if any. Autorepeats, other keys and changes within
    /// 80 ms of the last accepted one are dropped. In hold mode a press
    /// sends Start and the matching release sends Stop; in toggle mode each
    /// press sends Toggle.
    pub fn on_event(&mut self, is_key: bool, code: u16, value: i32, now: u64) -> (r: Option<
        Command,
    >)
        ensures
            (*final(self), r) == filter_step(*old(self), is_key, code, value, now),
    {
        if !is_key || code != self.key || value == KEY_REPEAT {
            return None;
        }
        match self.last_change {
            Some(t) => {
                if now < t || now - t < DEBOUNCE_NS {
                    return None;
                }
            },
            None => {},
        }
        self.last_change = Some(now);
        match self.mode {
            Mode::Hold => {
                if value == KEY_PRESS && !self.held {
                    self.held = true;
                    Some(Command::Start)
                } else if value == KEY_RELEASE && self.held {
                    self.held = false;
                    Some(Command::Stop)
                } else {
                    None
                }
            },
            Mode::Toggle => {
                if value == KEY_PRESS {
                    Some(Command::Toggle)
                } else {
                    None
                }
            },
        }
    }
}

/// In hold mode Start and Stop alternate, beginning with Start: a Start is
/// sent only while the key is not held and a Stop only while it is, and
/// `held` records which of the two was sent last.
pub proof fn lemma_hold_alternates(f: KeyFilter, is_key: bool, code: u16, value: i32, now: u64)
    requires
        f.mode == Mode::Hold,
    ensures
        ({
            let (g, c) = filter_step(f, is_key, code, value, now);
            &&& c == Some(Command::Start) ==> !f.held && g.held
            &&& c == Some(Command::Stop) ==> f.held && !g.held
            &&& c is None ==> g.held == f.held
            &&& c != Some(Command::Toggle)
        }),
{
}

/// Autorepeats and events of other keys never change the filter or send
/// anything.
pub proof fn lemma_ignored_events(f: KeyFilter, is_key: bool, code: u16, value: i32, now: u64)
    requires
        !is_key || code != f.key || value == KEY_REPEAT,
    ensures
        filter_step(f, is_key, code, value, now) == (f, None::<Command>),
{
}

/// A `/dev/input` entry that is an event node (its name starts with `event`).
pub open spec fn event_node_name(name: Seq<char>) -> bool {
    name.len() >= 5 && name.subrange(0, 5) == "event"@
}

pub fn is_event_node(name: &str) -> (r: bool)
    ensures
        r == event_node_name(name@),
{
    proof {
        reveal_strlit("event");
    }
    has_prefix(name, "event")
}

/// A set of `/dev/input` node names, such as the nodes being watched or
/// those that could not be opened, held without repeats.
pub struct NodeSet {
    names: Vec<String>,
}

impl NodeSet {
    /// The names in insertion order, as character sequences.
    pub closed spec fn entries(&self) -> Seq<Seq<char>> {
        self.names@.map_values(|n: String| n@)
    }

    #[verifier::type_invariant]
    closed spec fn no_repeats(&self) -> bool {
        self.entries().no_duplicates()
    }
}

impl View for NodeSet {
    type V = Set<Seq<char>>;

    closed spec fn view(&self) -> Set<Seq<char>> {
        self.entries().to_set()
    }
}

impl NodeSet {
    pub fn new() -> (r: NodeSet)
        ensures
            r@ == Set::<Seq<char>>::empty(),
    {
        let r = NodeSet { names: Vec::new() };
        assert(r.entries().to_set() =~= Set::<Seq<char>>::empty());
        r
    }

    /// Where `name` stands, if it is in the set.
    fn position(&self, name: &str) -> (r: Option<usize>)
        ensures
            match r {
                Some(i) => i < self.names@.len() && self.entries()[i as int] == name@,
                None => !self.entries().contains(name@),
            },
    {
        let mut i: usize = 0;
        while i < self.names.len()
            invariant
                i <= self.names@.len(),
                forall|k: int| 0 <= k < i ==> self.entries()[k] != name@,
            decreases self.names@.len() - i,
        {
            if crate::text::str_eq(self.names[i].as_str(), name) {
                return Some(i);
            }
            i = i + 1;
        }
        None
    }

    pub fn contains(&self, name: &str) -> (r: bool)
        ensures
            r == self@.contains(name@),
    {
        self.position(name).is_some()
    }

    /// The number of names.
    pub fn len(&self) -> (n: usize)
        ensures
            n == self@.len(),
    {
        proof {
            use_type_invariant(self);
            self.entries().unique_seq_to_set();
        }
        self.names.len()
    }

    /// Adds `name`; returns whether it was new.
    pub fn insert(&mut self, name: &str) -> (added: bool)
        ensures
            added == !old(self)@.contains(name@),
            final(self)@ == old(self)@.insert(name@),
    {
        proof {
            use_type_invariant(&*self);
        }
        match self.position(name) {
            Some(_) => {
                assert(self.entries().to_set().insert(name@) =~= self.entries().to_set());
                false
            },
            None => {
                let ghost before = self.entries();
                let mut names: Vec<String> = Vec::new();
                std::mem::swap(&mut names, &mut self.names);
                names.push(owned(name));
                proof {
                    let after = names@.map_values(|n: String| n@);
                    assert(after =~= before.push(name@));
                    assert forall|a: int, b: int|
                        0 <= a < after.len() && 0 <= b < after.len() && a != b implies after[a]
                        != after[b] by {
                        if a == before.len() {
                            assert(before[b] != name@);
                        } else if b == before.len() {
                            assert(before[a] != name@);
                        }
                    }
                }
                self.names = names;
                assert(self.entries() =~= before.push(name@));
                assert(self.entries().to_set() =~= before.to_set().insert(name@)) by {
                    assert forall|x: Seq<char>|
                        before.to_set().insert(name@).contains(x) implies self.entries().contains(
                            x,
                        ) by {
                        if x == name@ {
                            assert(self.entries()[before.len() as int] == x);
                        } else {
                            let k = choose|k: int| 0 <= k < before.len() && before[k] == x;
                            assert(self.entries()[k] == x);
                        }
                    }
                }
                true
            },
        }
    }

    /// Drops `name`; returns whether it was there.
    pub fn remove(&mut self, name: &str) -> (removed: bool)
        ensures
            removed == old(self)@.contains(name@),
            final(self)@ == old(self)@.remove(name@),
    {
        proof {
            use_type_invariant(&*self);
        }
        match self.position(name) {
            None => {
                assert(self.entries().to_set().remove(name@) =~= self.entries().to_set());
                false
            },
            Some(i) => {
                let ghost before = self.entries();
                let mut names: Vec<String> = Vec::new();
                std::mem::swap(&mut names, &mut self.names);
                names.remove(i);
                proof {
                    let after = names@.map_values(|n: String| n@);
                    assert(after =~= before.remove(i as int));
                    assert forall|a: int, b: int|
                        0 <= a < after.len() && 0 <= b < after.len() && a != b implies after[a]
                        != after[b] by {
                        let a2 = if a < i {
                            a
                        } else {
                            a + 1
                        };
                        let b2 = if b < i {
                            b
                        } else {
                            b + 1
                        };
                        assert(after[a] == before[a2]);
                        assert(after[b] == before[b2]);
                    }
                }
                self.names = names;
                assert(self.entries() =~= before.remove(i as int));
                assert(self.entries().to_set() =~= before.to_set().remove(name@)) by {
                    assert forall|x: Seq<char>| #[trigger]
                        self.entries().contains(x) <==> before.to_set().remove(name@).contains(
                            x,
                        ) by {
                        if self.entries().contains(x) {
                            let k = choose|k: int|
                                0 <= k < self.entries().len() && self.entries()[k] == x;
                            if k < i {
                                assert(before[k] == x);
                            } else {
                                assert(before[k + 1] == x);
                            }
                        }
                        if before.to_set().remove(name@).contains(x) {
                            let k = choose|k: int| 0 <= k < before.len() && before[k] == x;
                            assert(k != i);
                            if k < i {
                                assert(self.entries()[k] == x);
                            } else {
                                assert(self.entries()[k - 1] == x);
                            }
                        }
                    }
                }
                true
            },
        }
    }
}

/// Whether a scan of `/dev/input` opens the entry `name`: an event node that
/// is not watched yet.
pub fn should_probe(name: &str, watched: &NodeSet) -> (r: bool)
    ensures
        r == (event_node_name(name@) && !watched@.contains(name@)),
{
    is_event_node(name) && !watched.contains(name)
}

/// The failed set after an attempt to open `name`, and whether to report
/// the failure: a node that opened leaves the set, one that did not joins
/// it to be retried on the next scan, and a failure is reported only when
/// the node was not already failing.
pub open spec fn open_step(failed: Set<Seq<char>>, name: Seq<char>, opened: bool) -> (
    Set<Seq<char>>,
    bool,
) {
    if opened {
        (failed.remove(name), false)
    } else {
        (failed.insert(name), !failed.contains(name))
    }
}

/// Records whether opening `name` worked (see `open_step`); returns whether
/// to report the failure.
pub fn note_open(failed: &mut NodeSet, name: &str, opened: bool) -> (report: bool)
    ensures
        (final(failed)@, report) == open_step(old(failed)@, name@, opened),
{
    if opened {
        failed.remove(name);
        false
    } else {
        failed.insert(name)
    }
}

/// A node that keeps failing is reported once: a second failure in a row
/// reports nothing, and after it opens, its next failure is reported again.
pub proof fn lemma_failure_reported_once(failed: Set<Seq<char>>, name: Seq<char>)
    ensures
        !open_step(open_step(failed, name, false).0, name, false).1,
        open_step(open_step(failed, name, true).0, name, false).1,
{
}

} // verus!
