use dictationapp::niri::{
    find_pill, move_action, move_floating, pick_workspace, pill_position, place_at_bottom,
    reposition, LogicalSize, NiriOutput, NiriWindow, NiriWorkspace, PlaceError, Target,
};

fn win(id: Option<u64>, app: &str, title: &str, ws: Option<u64>) -> NiriWindow {
    NiriWindow { id, app_id: Some(app.into()), title: Some(title.into()), workspace_id: ws }
}

fn ws(id: u64, idx: u64, output: &str, focused: bool) -> NiriWorkspace {
    NiriWorkspace { id: Some(id), idx: Some(idx), output: Some(output.into()), is_focused: Some(focused) }
}

#[test]
fn delays() {
    assert_eq!(place_at_bottom(), 400);
    assert_eq!(reposition(), 50);
}

#[test]
fn finds_the_pill_window() {
    let windows = vec![
        win(Some(1), "firefox", "Dictation", Some(1)),
        win(Some(2), "dictationapp", "Dictation Settings", Some(1)),
        win(Some(7), "dictationapp", "Dictation", Some(3)),
    ];
    assert_eq!(find_pill(&windows).unwrap(), (7, 3));
    let others = vec![win(Some(1), "firefox", "Dictation", Some(1))];
    assert_eq!(find_pill(&others).unwrap_err(), PlaceError::WindowNotFound);
    let broken = vec![win(None, "dictationapp", "Dictation", Some(3)), win(Some(9), "dictationapp", "Dictation", Some(3))];
    assert_eq!(find_pill(&broken).unwrap_err(), PlaceError::NoWindowId);
    let no_ws = vec![win(Some(4), "dictationapp", "Dictation", None)];
    assert_eq!(find_pill(&no_ws).unwrap_err(), PlaceError::NoWorkspaceId);
}

#[test]
fn targets_the_focused_workspace() {
    let wss = vec![ws(1, 1, "DP-1", false), ws(2, 2, "DP-1", false), ws(5, 1, "HDMI-A-1", true)];
    let t = pick_workspace(Some(&wss), 2).unwrap();
    assert_eq!((t.id, t.idx, t.output.as_str(), t.own_output.as_str()), (5, 1, "HDMI-A-1", "DP-1"));
    let args = move_action(42, 2, &t).unwrap();
    assert_eq!(args, vec!["move-window-to-monitor", "--id", "42", "HDMI-A-1"]);
}

#[test]
fn same_output_moves_by_index() {
    let wss = vec![ws(1, 1, "DP-1", true), ws(2, 2, "DP-1", false)];
    let t = pick_workspace(Some(&wss), 2).unwrap();
    let args = move_action(42, 2, &t).unwrap();
    assert_eq!(args, vec!["move-window-to-workspace", "--window-id", "42", "--focus", "false", "1"]);
}

#[test]
fn already_in_place_needs_no_move() {
    let wss = vec![ws(3, 1, "DP-1", true)];
    let t = pick_workspace(Some(&wss), 3).unwrap();
    assert!(move_action(42, 3, &t).is_none());
}

#[test]
fn falls_back_to_own_workspace_and_reports_gaps() {
    let wss = vec![ws(1, 1, "DP-1", false), ws(2, 4, "DP-2", false)];
    let t = pick_workspace(Some(&wss), 2).unwrap();
    assert_eq!((t.id, t.idx), (2, 4));
    assert!(matches!(pick_workspace(Some(&wss), 9), Err(PlaceError::WorkspaceNotFound)));
    assert!(matches!(pick_workspace(None, 2), Err(PlaceError::BadWorkspaces)));
    let no_idx = vec![NiriWorkspace { id: Some(2), idx: None, output: Some("DP-1".into()), is_focused: Some(true) }];
    assert!(matches!(pick_workspace(Some(&no_idx), 2), Err(PlaceError::NoWorkspaceIndex)));
    let no_out = vec![NiriWorkspace { id: Some(2), idx: Some(1), output: None, is_focused: None }];
    assert!(matches!(pick_workspace(Some(&no_out), 2), Err(PlaceError::NoOutput)));
    let focused_unknown = vec![
        NiriWorkspace { id: Some(2), idx: Some(1), output: None, is_focused: None },
        ws(8, 3, "DP-3", true),
    ];
    let t: Target = pick_workspace(Some(&focused_unknown), 2).unwrap();
    assert_eq!(t.own_output, "");
    assert_eq!(move_action(1, 2, &t).unwrap()[0], "move-window-to-monitor");
}

fn out(name: &str, w: Option<u32>, h: Option<u32>) -> NiriOutput {
    NiriOutput { name: name.into(), logical: Some(LogicalSize { width: w, height: h }) }
}

#[test]
fn pill_sits_centred_above_the_bottom() {
    let outs = vec![out("DP-1", Some(1920), Some(1080)), out("HDMI-A-1", Some(1281), Some(720))];
    assert_eq!(pill_position(&outs, "DP-1").unwrap(), (800, 936));
    // (1281 - 320) / 2 = 480.5 rounds away from zero
    assert_eq!(pill_position(&outs, "HDMI-A-1").unwrap(), (481, 576));
    // narrower than the pill: (301 - 320) / 2 = -9.5 rounds to -10
    assert_eq!(pill_position(&vec![out("X", Some(301), Some(100))], "X").unwrap(), (-10, -44));
    assert_eq!(pill_position(&outs, "eDP-1").unwrap_err(), PlaceError::OutputNotFound);
    let no_logical = vec![NiriOutput { name: "X".into(), logical: None }];
    assert_eq!(pill_position(&no_logical, "X").unwrap_err(), PlaceError::OutputNotFound);
    assert_eq!(pill_position(&vec![out("X", None, Some(1))], "X").unwrap_err(), PlaceError::NoWidth);
    assert_eq!(pill_position(&vec![out("X", Some(1), None)], "X").unwrap_err(), PlaceError::NoHeight);
}

#[test]
fn floating_move_arguments() {
    assert_eq!(
        move_floating(7, -10, 936),
        vec!["move-floating-window", "--id", "7", "-x", "-10", "-y", "936"]
    );
    assert_eq!(PlaceError::OutputNotFound.message(), "output not found");
}
