//! niri compositor integration.
//! niri 26.04 ignores `default-floating-position` on this setup, so the pill
//! is positioned through `niri msg` after the window opens.
//!
//! Running `niri msg` and reading its JSON happen outside the library; this
//! module decides, from what niri reported, where the pill goes and which
//! `niri msg action` arguments move it there.

use vstd::prelude::*;
use crate::text::{decimal, owned, signed_decimal, str_eq};

verus! {

/// Pill width in logical pixels.
pub const PILL_W: i64 = 320;

/// Pill height in logical pixels.
pub const PILL_H: i64 = 64;

/// Gap between the bottom of the working area and the pill.
pub const BOTTOM_GAP: i64 = 80;

/// How long to wait, in milliseconds, before positioning a newly opened pill
/// (niri needs a moment to map the window).
pub fn place_at_bottom() -> (delay_ms: u64)
    ensures
        delay_ms == 400,
{
    400
}

/// How long to wait, in milliseconds, before moving an already visible pill
/// to the focused output.
pub fn reposition() -> (delay_ms: u64)
    ensures
        delay_ms == 50,
{
    50
}

/// A window as `niri msg --json windows` lists it (only what is read).
pub struct NiriWindow {
    pub id: Option<u64>,
    pub app_id: Option<String>,
    pub title: Option<String>,
    pub workspace_id: Option<u64>,
}

/// A workspace as `niri msg --json workspaces` lists it.
pub struct NiriWorkspace {
    pub id: Option<u64>,
    pub idx: Option<u64>,
    pub output: Option<String>,
    pub is_focused: Option<bool>,
}

/// An output's logical size as `niri msg --json outputs` gives it.
pub struct LogicalSize {
    pub width: Option<u32>,
    pub height: Option<u32>,
}

/// An entry of `niri msg --json outputs`, keyed by output name.
pub struct NiriOutput {
    pub name: String,
    pub logical: Option<LogicalSize>,
}

/// Why the pill could not be positioned.
#[derive(Debug, Clone, Copy, PartialEq, Eq, Structural)]
pub enum PlaceError {
    WindowNotFound,
    NoWindowId,
    NoWorkspaceId,
    BadWorkspaces,
    WorkspaceNotFound,
    NoWorkspaceIndex,
    NoOutput,
    OutputNotFound,
    NoWidth,
    NoHeight,
}

impl PlaceError {
    pub fn message(&self) -> (m: &'static str)
        ensures
            m@ == place_error_text(*self),
    {
        match self {
            PlaceError::WindowNotFound => "dictationapp window not found",
            PlaceError::NoWindowId => "no window id",
            PlaceError::NoWorkspaceId => "no workspace id",
            PlaceError::BadWorkspaces => "bad workspaces json",
            PlaceError::WorkspaceNotFound => "workspace not found",
            PlaceError::NoWorkspaceIndex => "no workspace index",
            PlaceError::NoOutput => "workspace has no output",
            PlaceError::OutputNotFound => "output not found",
            PlaceError::NoWidth => "no width",
            PlaceError::NoHeight => "no height",
        }
    }
}

pub open spec fn place_error_text(e: PlaceError) -> Seq<char> {
    match e {
        PlaceError::WindowNotFound => "dictationapp window not found"@,
        PlaceError::NoWindowId => "no window id"@,
        PlaceError::NoWorkspaceId => "no workspace id"@,
        PlaceError::BadWorkspaces => "bad workspaces json"@,
        PlaceError::WorkspaceNotFound => "workspace not found"@,
        PlaceError::NoWorkspaceIndex => "no workspace index"@,
        PlaceError::NoOutput => "workspace has no output"@,
        PlaceError::OutputNotFound => "output not found"@,
        PlaceError::NoWidth => "no width"@,
        PlaceError::NoHeight => "no height"@,
    }
}

pub open spec fn opt_is(o: Option<String>, v: Seq<char>) -> bool {
    o matches Some(s) && s@ == v
}

/// The pill window: app id `dictationapp`, title `Dictation`.
pub open spec fn is_pill(w: NiriWindow) -> bool {
    opt_is(w.app_id, "dictationapp"@) && opt_is(w.title, "Dictation"@)
}

/// `i` is the first window that is the pill.
pub open spec fn pill_first(ws: Seq<NiriWindow>, i: int) -> bool {
    0 <= i < ws.len() && is_pill(ws[i]) && forall|j: int| 0 <= j < i ==> !is_pill(#[trigger] ws[j])
}

pub open spec fn no_pill(ws: Seq<NiriWindow>) -> bool {
    forall|j: int| 0 <= j < ws.len() ==> !is_pill(#[trigger] ws[j])
}

fn opt_eq(o: &Option<String>, v: &str) -> (r: bool)
    ensures
        r == opt_is(*o, v@),
{
    match o {
        Some(s) => str_eq(s.as_str(), v),
        None => false,
    }
}

/// Find the pill among niri's windows: the first window with the pill's app
/// id and title, which must carry an id and a workspace id.
pub fn find_pill(windows: &Vec<NiriWindow>) -> (r: Result<(u64, u64), PlaceError>)
    ensures
        match r {
            Ok((wid, ws)) => exists|i: int|
                pill_first(windows@, i) && windows@[i].id == Some(wid)
                    && windows@[i].workspace_id == Some(ws),
            Err(PlaceError::WindowNotFound) => no_pill(windows@),
            Err(PlaceError::NoWindowId) => exists|i: int|
                pill_first(windows@, i) && windows@[i].id is None,
            Err(PlaceError::NoWorkspaceId) => exists|i: int|
                pill_first(windows@, i) && windows@[i].id is Some
                    && windows@[i].workspace_id is None,
            Err(_) => false,
        },
{
    let mut i: usize = 0;
    while i < windows.len()
        invariant
            i <= windows.len(),
            forall|j: int| 0 <= j < i ==> !is_pill(#[trigger] windows@[j]),
        decreases windows.len() - i,
    {
        let w = &windows[i];
        if opt_eq(&w.app_id, "dictationapp") && opt_eq(&w.title, "Dictation") {
            assert(pill_first(windows@, i as int));
            let wid = match w.id {
                Some(id) => id,
                None => return Err(PlaceError::NoWindowId),
            };
            let ws = match w.workspace_id {
                Some(ws) => ws,
                None => return Err(PlaceError::NoWorkspaceId),
            };
            return Ok((wid, ws));
        }
        i = i + 1;
    }
    Err(PlaceError::WindowNotFound)
}

/// Where the pill should go: the focused workspace, else its own.
pub struct Target {
    /// The target workspace's id.
    pub id: u64,
    /// The target workspace's index on its output.
    pub idx: u64,
    /// The target workspace's output.
    pub output: String,
    /// The output of the pill's current workspace, empty when unknown.
    pub own_output: String,
}

pub open spec fn has_id(w: NiriWorkspace, id: u64) -> bool {
    w.id == Some(id)
}

pub open spec fn focused(w: NiriWorkspace) -> bool {
    w.is_focused == Some(true)
}

/// `i` is the first workspace with id `ws`.
pub open spec fn id_first(wss: Seq<NiriWorkspace>, ws: u64, i: int) -> bool {
    0 <= i < wss.len() && has_id(wss[i], ws) && forall|j: int| 0 <= j < i ==> !has_id(#[trigger] wss[j], ws)
}

pub open spec fn no_id(wss: Seq<NiriWorkspace>, ws: u64) -> bool {
    forall|j: int| 0 <= j < wss.len() ==> !has_id(#[trigger] wss[j], ws)
}

/// `i` is the first focused workspace.
pub open spec fn focus_first(wss: Seq<NiriWorkspace>, i: int) -> bool {
    0 <= i < wss.len() && focused(wss[i]) && forall|j: int| 0 <= j < i ==> !focused(#[trigger] wss[j])
}

pub open spec fn no_focus(wss: Seq<NiriWorkspace>) -> bool {
    forall|j: int| 0 <= j < wss.len() ==> !focused(#[trigger] wss[j])
}

/// The output of the first workspace with id `ws`, or the empty string.
pub open spec fn own_output_of(wss: Seq<NiriWorkspace>, ws: u64) -> Seq<char> {
    if exists|i: int| id_first(wss, ws, i) && wss[i].output is Some {
        let i = choose|i: int| #[trigger] id_first(wss, ws, i);
        wss[i].output->0@
    } else {
        Seq::empty()
    }
}

/// The target workspace `t`, chosen as the first focused workspace or, if
/// none is focused, the first with the pill's workspace id.
pub open spec fn chosen_workspace(wss: Seq<NiriWorkspace>, ws: u64, t: int) -> bool {
    ||| focus_first(wss, t)
    ||| (no_focus(wss) && id_first(wss, ws, t))
}

fn first_with_id(wss: &Vec<NiriWorkspace>, ws: u64) -> (r: Option<usize>)
    ensures
        match r {
            Some(i) => id_first(wss@, ws, i as int),
            None => no_id(wss@, ws),
        },
{
    let mut i: usize = 0;
    while i < wss.len()
        invariant
            i <= wss.len(),
            forall|j: int| 0 <= j < i ==> !has_id(#[trigger] wss@[j], ws),
        decreases wss.len() - i,
    {
        if wss[i].id == Some(ws) {
            return Some(i);
        }
        i = i + 1;
    }
    None
}

fn first_focused(wss: &Vec<NiriWorkspace>) -> (r: Option<usize>)
    ensures
        match r {
            Some(i) => focus_first(wss@, i as int),
            None => no_focus(wss@),
        },
{
    let mut i: usize = 0;
    while i < wss.len()
        invariant
            i <= wss.len(),
            forall|j: int| 0 <= j < i ==> !focused(#[trigger] wss@[j]),
        decreases wss.len() - i,
    {
        if wss[i].is_focused == Some(true) {
            return Some(i);
        }
        i = i + 1;
    }
    None
}

proof fn lemma_id_first_unique(wss: Seq<NiriWorkspace>, ws: u64, i: int, k: int)
    requires
        id_first(wss, ws, i),
        id_first(wss, ws, k),
    ensures
        i == k,
{
    if i < k {
        assert(!has_id(wss[i], ws));
    } else if k < i {
        assert(!has_id(wss[k], ws));
    }
}

/// Choose the workspace the pill belongs on. `workspaces` is `None` when
/// niri's reply was not a list.
pub fn pick_workspace(workspaces: Option<&Vec<NiriWorkspace>>, ws: u64) -> (r: Result<
    Target,
    PlaceError,
>)
    ensures
        match workspaces {
            None => r == Err::<Target, PlaceError>(PlaceError::BadWorkspaces),
            Some(wss) => match r {
                Ok(t) => exists|i: int|
                    chosen_workspace(wss@, ws, i) && wss@[i].id == Some(t.id) && wss@[i].idx
                        == Some(t.idx) && opt_is(wss@[i].output, t.output@) && t.own_output@
                        == own_output_of(wss@, ws),
                Err(PlaceError::WorkspaceNotFound) => no_focus(wss@) && no_id(wss@, ws),
                Err(PlaceError::NoWorkspaceId) => exists|i: int|
                    chosen_workspace(wss@, ws, i) && wss@[i].id is None,
                Err(PlaceError::NoWorkspaceIndex) => exists|i: int|
                    chosen_workspace(wss@, ws, i) && wss@[i].id is Some && wss@[i].idx is None,
                Err(PlaceError::NoOutput) => exists|i: int|
                    chosen_workspace(wss@, ws, i) && wss@[i].id is Some && wss@[i].idx is Some
                        && wss@[i].output is None,
                Err(_) => false,
            },
        },
{
    let wss = match workspaces {
        Some(w) => w,
        None => return Err(PlaceError::BadWorkspaces),
    };
    let own = first_with_id(wss, ws);
    let t = match first_focused(wss) {
        Some(i) => i,
        None => match own {
            Some(i) => i,
            None => return Err(PlaceError::WorkspaceNotFound),
        },
    };
    assert(chosen_workspace(wss@, ws, t as int));
    let w = &wss[t];
    let id = match w.id {
        Some(id) => id,
        None => return Err(PlaceError::NoWorkspaceId),
    };
    let idx = match w.idx {
        Some(idx) => idx,
        None => return Err(PlaceError::NoWorkspaceIndex),
    };
    let output = match &w.output {
        Some(o) => o.clone(),
        None => return Err(PlaceError::NoOutput),
    };
    let own_output = match own {
        Some(i) => match &wss[i].output {
            Some(o) => {
                proof {
                    let k = choose|k: int|
                        id_first(wss@, ws, k) && wss@[k].output is Some;
                    lemma_id_first_unique(wss@, ws, i as int, k);
                    let c = choose|c: int| id_first(wss@, ws, c);
                    lemma_id_first_unique(wss@, ws, i as int, c);
                }
                o.clone()
            },
            None => {
                proof {
                    if exists|k: int|
                        id_first(wss@, ws, k)
                            && wss@[k].output is Some {
                        let k = choose|k: int|
                            id_first(wss@, ws, k)
                                && wss@[k].output is Some;
                        lemma_id_first_unique(wss@, ws, i as int, k);
                    }
                }
                String::new()
            },
        },
        None => String::new(),
    };
    Ok(Target { id, idx, output, own_output })
}

/// The `niri msg action` arguments that bring the pill to the target
/// workspace, if it is not already there: across outputs the window moves to
/// the other monitor (landing on its active, focused workspace); on the same
/// output it moves to the target's index without taking focus.
pub open spec fn move_args(wid: u64, ws: u64, t: Target) -> Option<Seq<Seq<char>>> {
    if t.id == ws {
        None
    } else if t.own_output@ != t.output@ {
        Some(seq!["move-window-to-monitor"@, "--id"@, decimal(wid as nat), t.output@])
    } else {
        Some(
            seq![
                "move-window-to-workspace"@,
                "--window-id"@,
                decimal(wid as nat),
                "--focus"@,
                "false"@,
                decimal(t.idx as nat),
            ],
        )
    }
}

pub open spec fn strings_view(v: Seq<String>) -> Seq<Seq<char>> {
    v.map_values(|s: String| s@)
}

pub fn move_action(wid: u64, ws: u64, t: &Target) -> (r: Option<Vec<String>>)
    ensures
        match r {
            Some(v) => move_args(wid, ws, *t) == Some(strings_view(v@)),
            None => move_args(wid, ws, *t) is None,
        },
{
    if t.id == ws {
        return None;
    }
    let mut v: Vec<String> = Vec::new();
    if !str_eq(t.own_output.as_str(), t.output.as_str()) {
        v.push(owned("move-window-to-monitor"));
        v.push(owned("--id"));
        v.push(crate::text::decimal_string(wid));
        v.push(t.output.clone());
    } else {
        v.push(owned("move-window-to-workspace"));
        v.push(owned("--window-id"));
        v.push(crate::text::decimal_string(wid));
        v.push(owned("--focus"));
        v.push(owned("false"));
        v.push(crate::text::decimal_string(t.idx));
    }
    assert(strings_view(v@) =~= move_args(wid, ws, *t)->0);
    Some(v)
}

/// `d / 2` rounded to the nearest integer, halves away from zero (as
/// `f64::round` does).
pub open spec fn half_rounded(d: int) -> int {
    if d >= 0 {
        (d + 1) / 2
    } else {
        -((-d + 1) / 2)
    }
}

/// The pill's position on an output of the given logical size: centred
/// horizontally, `BOTTOM_GAP` above the bottom edge.
pub open spec fn pill_origin(width: u32, height: u32) -> (int, int) {
    (half_rounded(width - PILL_W), height - PILL_H - BOTTOM_GAP)
}

pub open spec fn named(o: NiriOutput, name: Seq<char>) -> bool {
    o.name@ == name
}

/// `i` is the first output called `name`.
pub open spec fn name_first(outs: Seq<NiriOutput>, name: Seq<char>, i: int) -> bool {
    0 <= i < outs.len() && named(outs[i], name) && forall|j: int| 0 <= j < i ==> !named(#[trigger] outs[j], name)
}

pub open spec fn no_name(outs: Seq<NiriOutput>, name: Seq<char>) -> bool {
    forall|j: int| 0 <= j < outs.len() ==> !named(#[trigger] outs[j], name)
}

/// An output's logical size, or what is missing from it.
pub open spec fn output_size(o: NiriOutput) -> Result<(u32, u32), PlaceError> {
    match o.logical {
        None => Err(PlaceError::OutputNotFound),
        Some(l) => match l.width {
            None => Err(PlaceError::NoWidth),
            Some(w) => match l.height {
                None => Err(PlaceError::NoHeight),
                Some(h) => Ok((w, h)),
            },
        },
    }
}

/// `r` is the pill position for an output of size `size`, or its error.
pub open spec fn placed(size: Result<(u32, u32), PlaceError>, r: Result<(i64, i64), PlaceError>) -> bool {
    match size {
        Ok((w, h)) => r matches Ok((x, y)) && (x as int, y as int) == pill_origin(w, h),
        Err(e) => r == Err::<(i64, i64), PlaceError>(e),
    }
}

/// Where the pill goes on output `name` (the first output of that name).
pub fn pill_position(outputs: &Vec<NiriOutput>, name: &str) -> (r: Result<(i64, i64), PlaceError>)
    ensures
        (no_name(outputs@, name@) && r == Err::<
            (i64, i64),
            PlaceError,
        >(PlaceError::OutputNotFound)) || (exists|i: int|
            name_first(outputs@, name@, i) && placed(
                output_size(outputs@[i]),
                r,
            )),
{
    let mut i: usize = 0;
    while i < outputs.len()
        invariant
            i <= outputs.len(),
            forall|j: int| 0 <= j < i ==> !named(#[trigger] outputs@[j], name@),
        decreases outputs.len() - i,
    {
        if str_eq(outputs[i].name.as_str(), name) {
            assert(name_first(outputs@, name@, i as int));
            let l = match &outputs[i].logical {
                Some(l) => l,
                None => return Err(PlaceError::OutputNotFound),
            };
            let w = match l.width {
                Some(w) => w,
                None => return Err(PlaceError::NoWidth),
            };
            let h = match l.height {
                Some(h) => h,
                None => return Err(PlaceError::NoHeight),
            };
            let d: i64 = w as i64 - PILL_W;
            let x: i64 = if d >= 0 {
                (d + 1) / 2
            } else {
                -((-d + 1) / 2)
            };
            let y: i64 = h as i64 - PILL_H - BOTTOM_GAP;
            return Ok((x, y));
        }
        i = i + 1;
    }
    Err(PlaceError::OutputNotFound)
}

/// The `niri msg action` arguments that move the floating pill to `(x, y)`.
pub open spec fn floating_args(wid: u64, x: i64, y: i64) -> Seq<Seq<char>> {
    seq![
        "move-floating-window"@,
        "--id"@,
        decimal(wid as nat),
        "-x"@,
        signed_decimal(x as int),
        "-y"@,
        signed_decimal(y as int),
    ]
}

pub fn move_floating(wid: u64, x: i64, y: i64) -> (v: Vec<String>)
    ensures
        strings_view(v@) == floating_args(wid, x, y),
{
    let mut v: Vec<String> = Vec::new();
    v.push(owned("move-floating-window"));
    v.push(owned("--id"));
    v.push(crate::text::decimal_string(wid));
    v.push(owned("-x"));
    v.push(crate::text::signed_decimal_string(x));
    v.push(owned("-y"));
    v.push(crate::text::signed_decimal_string(y));
    assert(strings_view(v@) =~= floating_args(wid, x, y));
    v
}

/// The pill's horizontal position is the true centre rounded: `2x` is
/// within one of `width - PILL_W`.
pub proof fn lemma_pill_centred(width: u32, height: u32)
    ensures
        ({
            let (x, y) = pill_origin(width, height);
            &&& -1 <= 2 * x - (width - PILL_W) <= 1
            &&& y + PILL_H + BOTTOM_GAP == height
        }),
{
}

} // verus!
