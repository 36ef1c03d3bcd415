use dictationapp::ipc::{cli_request, socket_file_name, CliRequest, Command};

const ALL: [Command; 7] = [
    Command::Toggle,
    Command::Start,
    Command::Stop,
    Command::Cancel,
    Command::Quit,
    Command::Settings,
    Command::Reload,
];

#[test]
fn every_command_round_trips() {
    for c in ALL {
        assert_eq!(Command::parse(c.as_str()), Some(c));
        assert_eq!(Command::parse(&c.wire_line()), Some(c));
    }
}

#[test]
fn parse_trims_and_rejects_unknown() {
    assert_eq!(Command::parse("  toggle \r"), Some(Command::Toggle));
    assert_eq!(Command::parse("reload\n"), Some(Command::Reload));
    assert_eq!(Command::parse("Toggle"), None);
    assert_eq!(Command::parse("to ggle"), None);
    assert_eq!(Command::parse(""), None);
}

#[test]
fn wire_line_is_name_and_newline() {
    assert_eq!(Command::Settings.wire_line(), "settings\n");
    assert_eq!(Command::Cancel.as_str(), "cancel");
}

#[test]
fn socket_name_uses_the_user() {
    assert_eq!(socket_file_name(Some("ann")), "dictationapp-ann.sock");
    assert_eq!(socket_file_name(None), "dictationapp-unknown.sock");
}

#[test]
fn cli_arguments_map_to_requests() {
    assert_eq!(cli_request("--toggle"), CliRequest::Send(Command::Toggle));
    assert_eq!(cli_request("stop"), CliRequest::Send(Command::Stop));
    assert_eq!(cli_request("--settings"), CliRequest::Send(Command::Settings));
    assert_eq!(cli_request("--record"), CliRequest::Record);
    assert_eq!(cli_request("record"), CliRequest::Record);
    assert_eq!(cli_request("--help"), CliRequest::Usage);
    assert_eq!(cli_request(" --quit"), CliRequest::Usage);
}
