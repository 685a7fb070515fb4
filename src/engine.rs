//! The reconciliation rules: how a focus change or a due rotation changes the
//! state, and which wallpaper, if any, must be applied as a result.
use vstd::prelude::*;

use crate::config::Wallpaper;
use crate::state::{PaperState, PaperView, WorkspaceView};

verus! {

/// One input of the reconciliation loop.
#[derive(Clone, Copy, Debug, PartialEq, Eq, Structural)]
pub enum Event {
    /// Monitor `monitor_idx` now shows workspace `workspace_idx`.
    FocusChanged { monitor_idx: usize, workspace_idx: usize },
    /// The rotation timer of workspace `workspace_idx` on monitor
    /// `monitor_idx` has fired.
    RotationDue { monitor_idx: usize, workspace_idx: usize },
}

/// What the wallpaper applier is asked to do on one monitor.
#[derive(Clone, Debug, PartialEq, Eq)]
pub enum Apply {
    /// Set `path` as the desktop background of the monitor, after closing the
    /// engine's wallpaper there when an engine executable is configured.
    Native { monitor_idx: usize, path: String, close_engine: Option<String> },
    /// Have the engine at `we_path` open `path` on the monitor.
    Engine { monitor_idx: usize, path: String, we_path: String },
    /// `path` needs the engine but none is configured: skipped, with a warning.
    MissingEnginePath { monitor_idx: usize, path: String },
}

/// The action that shows the current wallpaper of workspace `w` on monitor
/// `m`; `None` when that workspace has no wallpaper.
pub open spec fn apply_for(s: PaperView, m: int, w: int) -> Option<Apply> {
    if !s.has_workspace(m, w) || s.monitors[m][w].wallpapers.len() == 0 {
        None
    } else {
        let ws = s.monitors[m][w];
        let wp = ws.wallpapers[ws.wallpaper_idx as int];
        if wp.needs_engine() {
            match s.we_path {
                Some(p) => Some(Apply::Engine { monitor_idx: m as usize, path: wp.path, we_path: p }),
                None => Some(Apply::MissingEnginePath { monitor_idx: m as usize, path: wp.path }),
            }
        } else {
            Some(Apply::Native { monitor_idx: m as usize, path: wp.path, close_engine: s.we_path })
        }
    }
}

/// The state after monitor `m` focuses workspace `w`.
pub open spec fn focus_step(s: PaperView, m: int, w: usize) -> PaperView {
    PaperView { active_workspaces: s.active_workspaces.update(m, w), ..s }
}

/// A workspace advanced by one rotation step.
pub open spec fn rotated(ws: WorkspaceView) -> WorkspaceView {
    if ws.wallpapers.len() == 0 {
        ws
    } else {
        WorkspaceView {
            wallpaper_idx: ((ws.wallpaper_idx + 1) % (ws.wallpapers.len() as int)) as usize,
            ..ws
        }
    }
}

/// The state after the rotation timer of workspace `w` on monitor `m` fires.
pub open spec fn rotation_step(s: PaperView, m: int, w: int) -> PaperView {
    PaperView {
        monitors: s.monitors.update(m, s.monitors[m].update(w, rotated(s.monitors[m][w]))),
        ..s
    }
}

/// What a focus change applies: the newly focused workspace's current
/// wallpaper, only when the focus really moved.
pub open spec fn focus_effect(s: PaperView, m: int, w: usize) -> Option<Apply> {
    if s.active_workspaces[m] != w {
        apply_for(focus_step(s, m, w), m, w as int)
    } else {
        None
    }
}

/// What a rotation applies: the new wallpaper, only when the workspace is the
/// focused one of its monitor and its index really changed.
pub open spec fn rotation_effect(s: PaperView, m: int, w: int) -> Option<Apply> {
    let t = rotation_step(s, m, w);
    if s.monitors[m][w].wallpapers.len() > 0 && s.active_workspaces[m] == w
        && t.monitors[m][w].wallpaper_idx != s.monitors[m][w].wallpaper_idx {
        apply_for(t, m, w)
    } else {
        None
    }
}

/// The event names a workspace of the state.
pub open spec fn event_ok(s: PaperView, e: Event) -> bool {
    match e {
        Event::FocusChanged { monitor_idx, workspace_idx } => s.has_workspace(
            monitor_idx as int,
            workspace_idx as int,
        ),
        Event::RotationDue { monitor_idx, workspace_idx } => s.has_workspace(
            monitor_idx as int,
            workspace_idx as int,
        ),
    }
}

/// The state after one event.
pub open spec fn step(s: PaperView, e: Event) -> PaperView {
    match e {
        Event::FocusChanged { monitor_idx, workspace_idx } => focus_step(
            s,
            monitor_idx as int,
            workspace_idx,
        ),
        Event::RotationDue { monitor_idx, workspace_idx } => rotation_step(
            s,
            monitor_idx as int,
            workspace_idx as int,
        ),
    }
}

/// What one event applies.
pub open spec fn effect(s: PaperView, e: Event) -> Option<Apply> {
    match e {
        Event::FocusChanged { monitor_idx, workspace_idx } => focus_effect(
            s,
            monitor_idx as int,
            workspace_idx,
        ),
        Event::RotationDue { monitor_idx, workspace_idx } => rotation_effect(
            s,
            monitor_idx as int,
            workspace_idx as int,
        ),
    }
}

/// Builds the action for one wallpaper of monitor `m`.
fn action_for(wallpaper: &Wallpaper, m: usize, we_path: &Option<String>) -> (r: Apply)
    ensures
        r == (if wallpaper.needs_engine() {
            match *we_path {
                Some(p) => Apply::Engine { monitor_idx: m, path: wallpaper.path, we_path: p },
                None => Apply::MissingEnginePath { monitor_idx: m, path: wallpaper.path },
            }
        } else {
            Apply::Native { monitor_idx: m, path: wallpaper.path, close_engine: *we_path }
        }),
{
    let engine = match wallpaper.kind {
        Some(k) => k == crate::config::WallpaperType::WallpaperEngine,
        None => false,
    };
    if engine {
        match we_path {
            Some(p) => Apply::Engine { monitor_idx: m, path: wallpaper.path.clone(), we_path: p.clone() },
            None => Apply::MissingEnginePath { monitor_idx: m, path: wallpaper.path.clone() },
        }
    } else {
        let close_engine = match we_path {
            Some(p) => Some(p.clone()),
            None => None,
        };
        Apply::Native { monitor_idx: m, path: wallpaper.path.clone(), close_engine }
    }
}

/// The action that shows the current wallpaper of workspace
/// `workspace_index` on monitor `monitor_index`, or `None` when there is no
/// such workspace or it has no wallpaper.
pub fn set_wallpaper(paper_state: &PaperState, monitor_index: usize, workspace_index: usize) -> (r: Option<Apply>)
    requires
        paper_state@.wf(),
    ensures
        r == apply_for(paper_state@, monitor_index as int, workspace_index as int),
{
    if monitor_index >= paper_state.monitors.len() {
        return None;
    }
    let monitor = &paper_state.monitors[monitor_index];
    if workspace_index >= monitor.workspaces.len() {
        return None;
    }
    let workspace = &monitor.workspaces[workspace_index];
    assert(workspace@ == paper_state@.monitors[monitor_index as int][workspace_index as int]);
    if workspace.wallpapers.len() == 0 {
        return None;
    }
    let wallpaper = &workspace.wallpapers[workspace.wallpaper_idx];
    Some(action_for(wallpaper, monitor_index, &paper_state.we_path))
}

/// A focus change keeps the state well formed.
pub proof fn lemma_focus_step_wf(s: PaperView, m: int, w: usize)
    requires
        s.wf(),
        0 <= m < s.monitors.len(),
    ensures
        focus_step(s, m, w).wf(),
        focus_step(s, m, w).monitors == s.monitors,
{
}

/// A rotation keeps the state well formed and every wallpaper list as it was.
pub proof fn lemma_rotation_step_wf(s: PaperView, m: int, w: int)
    requires
        s.wf(),
        s.has_workspace(m, w),
    ensures
        rotation_step(s, m, w).wf(),
        rotation_step(s, m, w).active_workspaces == s.active_workspaces,
        rotation_step(s, m, w).monitors.len() == s.monitors.len(),
        forall|i: int|
            0 <= i < s.monitors.len() ==> (#[trigger] rotation_step(s, m, w).monitors[i]).len()
                == s.monitors[i].len(),
        forall|i: int, j: int|
            s.has_workspace(i, j) ==> (#[trigger] rotation_step(s, m, w).monitors[i][j]).wallpapers
                == s.monitors[i][j].wallpapers,
{
    let t = rotation_step(s, m, w);
    assert forall|i: int, j: int| t.has_workspace(i, j) implies (#[trigger] t.monitors[i][j]).index_ok() by {
        if i == m && j == w {
            assert(s.monitors[m][w].index_ok());
        } else {
            assert(s.monitors[i][j].index_ok());
        }
    }
}

/// Handles a focus change on monitor `monitor_idx` to `workspace_idx`: the
/// monitor's focused workspace becomes `workspace_idx`, and when that is a
/// change, the result is the action that shows that workspace's current
/// wallpaper.
pub fn handle_socket_event(paper_state: &mut PaperState, monitor_idx: usize, workspace_idx: usize) -> (r: Option<Apply>)
    requires
        old(paper_state)@.wf(),
        old(paper_state)@.has_workspace(monitor_idx as int, workspace_idx as int),
    ensures
        final(paper_state)@ == focus_step(old(paper_state)@, monitor_idx as int, workspace_idx),
        final(paper_state)@.wf(),
        r == focus_effect(old(paper_state)@, monitor_idx as int, workspace_idx),
        final(paper_state)@.active_workspaces[monitor_idx as int] == workspace_idx,
        old(paper_state)@.active_workspaces[monitor_idx as int] == workspace_idx ==> r is None
            && final(paper_state)@ == old(paper_state)@,
{
    proof {
        lemma_focus_step_wf(paper_state@, monitor_idx as int, workspace_idx);
    }
    if paper_state.active_workspaces[monitor_idx] != workspace_idx {
        paper_state.active_workspaces.set(monitor_idx, workspace_idx);
        assert(paper_state@ == focus_step(old(paper_state)@, monitor_idx as int, workspace_idx));
        set_wallpaper(paper_state, monitor_idx, workspace_idx)
    } else {
        assert(old(paper_state)@.active_workspaces.update(monitor_idx as int, workspace_idx)
            =~= old(paper_state)@.active_workspaces);
        None
    }
}

/// Handles a fired rotation timer of workspace `workspace_idx` on monitor
/// `monitor_idx`: a workspace with wallpapers moves to the next one,
/// wrapping round; the result is the action that shows it, only when the
/// workspace is focused and its index changed.
pub fn handle_timer_event(paper_state: &mut PaperState, monitor_idx: usize, workspace_idx: usize) -> (r: Option<Apply>)
    requires
        old(paper_state)@.wf(),
        old(paper_state)@.has_workspace(monitor_idx as int, workspace_idx as int),
    ensures
        final(paper_state)@ == rotation_step(old(paper_state)@, monitor_idx as int, workspace_idx as int),
        final(paper_state)@.wf(),
        r == rotation_effect(old(paper_state)@, monitor_idx as int, workspace_idx as int),
        old(paper_state)@.monitors[monitor_idx as int][workspace_idx as int].wallpapers.len() == 0
            ==> r is None && final(paper_state)@ == old(paper_state)@,
        old(paper_state)@.monitors[monitor_idx as int][workspace_idx as int].wallpapers.len() == 1
            ==> r is None,
{
    let ghost s = paper_state@;
    proof {
        lemma_rotation_step_wf(s, monitor_idx as int, workspace_idx as int);
    }
    let len = paper_state.monitors[monitor_idx].workspaces[workspace_idx].wallpapers.len();
    let old_idx = paper_state.monitors[monitor_idx].workspaces[workspace_idx].wallpaper_idx;
    assert(len == s.monitors[monitor_idx as int][workspace_idx as int].wallpapers.len());
    assert(old_idx == s.monitors[monitor_idx as int][workspace_idx as int].wallpaper_idx);
    if len == 0 {
        assert(s.monitors[monitor_idx as int].update(
            workspace_idx as int,
            rotated(s.monitors[monitor_idx as int][workspace_idx as int]),
        ) =~= s.monitors[monitor_idx as int]);
        assert(rotation_step(s, monitor_idx as int, workspace_idx as int).monitors =~= s.monitors);
        return None;
    }
    let new_idx = (old_idx + 1) % len;
    paper_state.monitors[monitor_idx].workspaces[workspace_idx].wallpaper_idx = new_idx;
    assert(paper_state@.monitors[monitor_idx as int] =~= s.monitors[monitor_idx as int].update(
        workspace_idx as int,
        rotated(s.monitors[monitor_idx as int][workspace_idx as int]),
    ));
    assert(paper_state@.monitors =~= rotation_step(s, monitor_idx as int, workspace_idx as int).monitors);
    if paper_state.active_workspaces[monitor_idx] == workspace_idx && old_idx != new_idx {
        set_wallpaper(paper_state, monitor_idx, workspace_idx)
    } else {
        None
    }
}

/// Handles one event of either kind.
pub fn handle_event(paper_state: &mut PaperState, event: Event) -> (r: Option<Apply>)
    requires
        old(paper_state)@.wf(),
        event_ok(old(paper_state)@, event),
    ensures
        final(paper_state)@ == step(old(paper_state)@, event),
        final(paper_state)@.wf(),
        r == effect(old(paper_state)@, event),
{
    match event {
        Event::FocusChanged { monitor_idx, workspace_idx } => handle_socket_event(
            paper_state,
            monitor_idx,
            workspace_idx,
        ),
        Event::RotationDue { monitor_idx, workspace_idx } => handle_timer_event(
            paper_state,
            monitor_idx,
            workspace_idx,
        ),
    }
}

/// The actions applied at startup for the first `n` monitors: each shows the
/// current wallpaper of its focused workspace, when it has one.
pub open spec fn startup_plan(s: PaperView, n: int) -> Seq<Apply>
    decreases n,
{
    if n <= 0 {
        Seq::empty()
    } else {
        let rest = startup_plan(s, n - 1);
        match apply_for(s, n - 1, s.active_workspaces[n - 1] as int) {
            Some(a) => rest.push(a),
            None => rest,
        }
    }
}

/// The unconditional startup actions: for each monitor in order, the
/// wallpaper of its focused workspace.
pub fn initial_applies(paper_state: &PaperState) -> (r: Vec<Apply>)
    requires
        paper_state@.wf(),
    ensures
        r@ == startup_plan(paper_state@, paper_state@.monitors.len() as int),
{
    let mut r: Vec<Apply> = Vec::new();
    let mut m: usize = 0;
    while m < paper_state.active_workspaces.len()
        invariant
            paper_state@.wf(),
            m <= paper_state@.monitors.len(),
            r@ == startup_plan(paper_state@, m as int),
        decreases paper_state@.monitors.len() - m,
    {
        match set_wallpaper(paper_state, m, paper_state.active_workspaces[m]) {
            Some(a) => r.push(a),
            None => {},
        }
        m = m + 1;
    }
    r
}

} // verus!
