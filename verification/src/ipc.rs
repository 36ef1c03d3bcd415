//! Commands exchanged over the control socket and given on the command line.
//!
//! A command travels as its name on one line; the receiver trims the line
//! and maps it back. The socket itself is handled outside the library.

use vstd::prelude::*;
use crate::text::{chars_of, owned, push_str, same_chars, str_eq, trim, trim_bounds, trim_end, trim_start};

verus! {

#[derive(Debug, Clone, Copy, PartialEq, Eq, Structural)]
pub enum Command {
    Toggle,
    Start,
    Stop,
    Cancel,
    Quit,
    /// Open the settings window.
    Settings,
    /// Re-read config.toml and apply changes (restarts the hotkey watcher if needed).
    Reload,
}

/// The wire name of a command.
pub open spec fn command_name(c: Command) -> Seq<char> {
    match c {
        Command::Toggle => "toggle"@,
        Command::Start => "start"@,
        Command::Stop => "stop"@,
        Command::Cancel => "cancel"@,
        Command::Quit => "quit"@,
        Command::Settings => "settings"@,
        Command::Reload => "reload"@,
    }
}

/// The command named by a line, once surrounding whitespace is trimmed.
pub open spec fn parse_command(line: Seq<char>) -> Option<Command> {
    let t = trim(line);
    if t == "toggle"@ {
        Some(Command::Toggle)
    } else if t == "start"@ {
        Some(Command::Start)
    } else if t == "stop"@ {
        Some(Command::Stop)
    } else if t == "cancel"@ {
        Some(Command::Cancel)
    } else if t == "quit"@ {
        Some(Command::Quit)
    } else if t == "settings"@ {
        Some(Command::Settings)
    } else if t == "reload"@ {
        Some(Command::Reload)
    } else {
        None
    }
}

impl Command {
    /// The command named by `s`, ignoring surrounding whitespace.
    pub fn parse(s: &str) -> (r: Option<Command>)
        ensures
            r == parse_command(s@),
    {
        let v = chars_of(s);
        let (lo, hi) = trim_bounds(&v);
        let mut t: Vec<char> = Vec::new();
        let mut i = lo;
        while i < hi
            invariant
                lo <= i <= hi <= v.len(),
                t@ == v@.subrange(lo as int, i as int),
            decreases hi - i,
        {
            t.push(v[i]);
            assert(v@.subrange(lo as int, i + 1) == v@.subrange(lo as int, i as int).push(
                v@[i as int],
            ));
            i = i + 1;
        }
        if same_chars(&t, &chars_of("toggle")) {
            Some(Command::Toggle)
        } else if same_chars(&t, &chars_of("start")) {
            Some(Command::Start)
        } else if same_chars(&t, &chars_of("stop")) {
            Some(Command::Stop)
        } else if same_chars(&t, &chars_of("cancel")) {
            Some(Command::Cancel)
        } else if same_chars(&t, &chars_of("quit")) {
            Some(Command::Quit)
        } else if same_chars(&t, &chars_of("settings")) {
            Some(Command::Settings)
        } else if same_chars(&t, &chars_of("reload")) {
            Some(Command::Reload)
        } else {
            None
        }
    }

    /// The wire name of the command.
    pub fn as_str(&self) -> (s: &'static str)
        ensures
            s@ == command_name(*self),
    {
        match self {
            Command::Toggle => "toggle",
            Command::Start => "start",
            Command::Stop => "stop",
            Command::Cancel => "cancel",
            Command::Quit => "quit",
            Command::Settings => "settings",
            Command::Reload => "reload",
        }
    }

    /// The bytes a client writes to the socket: the name and a newline.
    pub fn wire_line(&self) -> (s: String)
        ensures
            s@ == command_name(*self).push('\n'),
    {
        let mut s = owned(self.as_str());
        push_str(&mut s, "\n");
        proof {
            reveal_strlit("\n");
        }
        assert(s@ =~= command_name(*self).push('\n'));
        s
    }
}

/// Each command's name reads back as that command: what a client sends
/// is what the listener receives.
pub proof fn lemma_command_round_trip(c: Command)
    ensures
        parse_command(command_name(c)) == Some(c),
{
    reveal_strlit("toggle");
    reveal_strlit("start");
    reveal_strlit("stop");
    reveal_strlit("cancel");
    reveal_strlit("quit");
    reveal_strlit("settings");
    reveal_strlit("reload");
    let n = command_name(c);
    assert(trim_start(n) == n);
    assert(trim_end(n) == n);
}

/// A command's wire line (its name and a newline) reads back as the command.
pub proof fn lemma_wire_line_round_trip(c: Command)
    ensures
        parse_command(command_name(c).push('\n')) == Some(c),
{
    lemma_command_round_trip(c);
    let n = command_name(c);
    reveal_strlit("toggle");
    reveal_strlit("start");
    reveal_strlit("stop");
    reveal_strlit("cancel");
    reveal_strlit("quit");
    reveal_strlit("settings");
    reveal_strlit("reload");
    assert(trim_start(n.push('\n')) == n.push('\n'));
    assert(n.push('\n').drop_last() == n);
    assert(trim_end(n) == n);
    assert(trim_end(n.push('\n')) == n);
}

/// On the command line, each command's name, alone or after `--`, sends
/// that command to the running instance; `record` and `--record` record.
pub proof fn lemma_cli_words_send_their_commands(c: Command)
    ensures
        cli_request_for("--"@ + command_name(c)) == CliRequest::Send(c),
        cli_request_for(command_name(c)) == CliRequest::Send(c),
        cli_request_for("--record"@) == CliRequest::Record,
        cli_request_for("record"@) == CliRequest::Record,
{
    reveal_strlit("--");
    reveal_strlit("--record");
    reveal_strlit("record");
    reveal_strlit("--toggle");
    reveal_strlit("toggle");
    reveal_strlit("--start");
    reveal_strlit("start");
    reveal_strlit("--stop");
    reveal_strlit("stop");
    reveal_strlit("--cancel");
    reveal_strlit("cancel");
    reveal_strlit("--quit");
    reveal_strlit("quit");
    reveal_strlit("--settings");
    reveal_strlit("settings");
    reveal_strlit("--reload");
    reveal_strlit("reload");
    let n = command_name(c);
    let flag = "--"@ + n;
    match c {
        Command::Toggle => {
            assert(flag =~= "--toggle"@);
            assert(flag[2] != "--record"@[2]);
            assert(n[0] != "record"@[0]);
        },
        Command::Start => {
            assert(flag =~= "--start"@);
            assert(flag[2] != "--record"@[2]);
            assert(flag[2] != "--toggle"@[2]);
            assert(n[0] != "record"@[0]);
            assert(n[0] != "toggle"@[0]);
        },
        Command::Stop => {
            assert(flag =~= "--stop"@);
            assert(flag[2] != "--record"@[2]);
            assert(flag[2] != "--toggle"@[2]);
            assert(flag[4] != "--start"@[4]);
            assert(n[0] != "record"@[0]);
            assert(n[0] != "toggle"@[0]);
            assert(n[2] != "start"@[2]);
        },
        Command::Cancel => {
            assert(flag =~= "--cancel"@);
            assert(flag[2] != "--record"@[2]);
            assert(flag[2] != "--toggle"@[2]);
            assert(flag[2] != "--start"@[2]);
            assert(flag[2] != "--stop"@[2]);
            assert(n[0] != "record"@[0]);
            assert(n[0] != "toggle"@[0]);
            assert(n[0] != "start"@[0]);
            assert(n[0] != "stop"@[0]);
        },
        Command::Quit => {
            assert(flag =~= "--quit"@);
            assert(flag[2] != "--record"@[2]);
            assert(flag[2] != "--toggle"@[2]);
            assert(flag[2] != "--start"@[2]);
            assert(flag[2] != "--stop"@[2]);
            assert(flag[2] != "--cancel"@[2]);
            assert(n[0] != "record"@[0]);
            assert(n[0] != "toggle"@[0]);
            assert(n[0] != "start"@[0]);
            assert(n[0] != "stop"@[0]);
            assert(n[0] != "cancel"@[0]);
        },
        Command::Settings => {
            assert(flag =~= "--settings"@);
            assert(flag[2] != "--record"@[2]);
            assert(flag[2] != "--toggle"@[2]);
            assert(flag[3] != "--start"@[3]);
            assert(flag[3] != "--stop"@[3]);
            assert(flag[2] != "--cancel"@[2]);
            assert(flag[2] != "--quit"@[2]);
            assert(n[0] != "record"@[0]);
            assert(n[0] != "toggle"@[0]);
            assert(n[1] != "start"@[1]);
            assert(n[1] != "stop"@[1]);
            assert(n[0] != "cancel"@[0]);
            assert(n[0] != "quit"@[0]);
        },
        Command::Reload => {
            assert(flag =~= "--reload"@);
            assert(flag[4] != "--record"@[4]);
            assert(flag[2] != "--toggle"@[2]);
            assert(flag[2] != "--start"@[2]);
            assert(flag[2] != "--stop"@[2]);
            assert(flag[2] != "--cancel"@[2]);
            assert(flag[2] != "--quit"@[2]);
            assert(flag[2] != "--settings"@[2]);
            assert(n[2] != "record"@[2]);
            assert(n[0] != "toggle"@[0]);
            assert(n[0] != "start"@[0]);
            assert(n[0] != "stop"@[0]);
            assert(n[0] != "cancel"@[0]);
            assert(n[0] != "quit"@[0]);
            assert(n[0] != "settings"@[0]);
        },
    }
}

/// The socket file name: `dictationapp-<user>.sock`, with `unknown` when the
/// user name is not available.
pub open spec fn socket_name(user: Option<Seq<char>>) -> Seq<char> {
    "dictationapp-"@ + match user {
        Some(u) => u,
        None => "unknown"@,
    } + ".sock"@
}

pub fn socket_file_name(user: Option<&str>) -> (s: String)
    ensures
        s@ == socket_name(match user {
            Some(u) => Some(u@),
            None => None,
        }),
{
    let mut s = owned("dictationapp-");
    match user {
        Some(u) => push_str(&mut s, u),
        None => push_str(&mut s, "unknown"),
    }
    push_str(&mut s, ".sock");
    s
}

/// What a command-line argument asks for.
#[derive(Debug, Clone, Copy, PartialEq, Eq, Structural)]
pub enum CliRequest {
    /// Record from the microphone into a WAV file.
    Record,
    /// Send a command to the running instance.
    Send(Command),
    /// Anything else: print the usage text.
    Usage,
}

pub open spec fn either(a: Seq<char>, x: Seq<char>, y: Seq<char>) -> bool {
    a == x || a == y
}

pub open spec fn cli_request_for(arg: Seq<char>) -> CliRequest {
    if either(arg, "--record"@, "record"@) {
        CliRequest::Record
    } else if either(arg, "--toggle"@, "toggle"@) {
        CliRequest::Send(Command::Toggle)
    } else if either(arg, "--start"@, "start"@) {
        CliRequest::Send(Command::Start)
    } else if either(arg, "--stop"@, "stop"@) {
        CliRequest::Send(Command::Stop)
    } else if either(arg, "--cancel"@, "cancel"@) {
        CliRequest::Send(Command::Cancel)
    } else if either(arg, "--quit"@, "quit"@) {
        CliRequest::Send(Command::Quit)
    } else if either(arg, "--settings"@, "settings"@) {
        CliRequest::Send(Command::Settings)
    } else if either(arg, "--reload"@, "reload"@) {
        CliRequest::Send(Command::Reload)
    } else {
        CliRequest::Usage
    }
}

fn is_either(arg: &str, x: &str, y: &str) -> (r: bool)
    ensures
        r == either(arg@, x@, y@),
{
    str_eq(arg, x) || str_eq(arg, y)
}

/// The request made by the first command-line argument (matched exactly).
pub fn cli_request(arg: &str) -> (r: CliRequest)
    ensures
        r == cli_request_for(arg@),
{
    if is_either(arg, "--record", "record") {
        CliRequest::Record
    } else if is_either(arg, "--toggle", "toggle") {
        CliRequest::Send(Command::Toggle)
    } else if is_either(arg, "--start", "start") {
        CliRequest::Send(Command::Start)
    } else if is_either(arg, "--stop", "stop") {
        CliRequest::Send(Command::Stop)
    } else if is_either(arg, "--cancel", "cancel") {
        CliRequest::Send(Command::Cancel)
    } else if is_either(arg, "--quit", "quit") {
        CliRequest::Send(Command::Quit)
    } else if is_either(arg, "--settings", "settings") {
        CliRequest::Send(Command::Settings)
    } else if is_either(arg, "--reload", "reload") {
        CliRequest::Send(Command::Reload)
    } else {
        CliRequest::Usage
    }
}

} // verus!
