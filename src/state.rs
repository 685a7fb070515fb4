//! The engine's mutable state: the focused workspace of each monitor and the
//! resolved wallpapers, rotation position and interval of every workspace.
use vstd::prelude::*;

use crate::config::{resolve_interval, resolve_wallpapers, resolved_interval, resolved_wallpapers, Config, Wallpaper};

verus! {

/// What the window manager reports of one monitor at startup.
#[derive(Clone, Copy, Debug, PartialEq, Eq, Structural)]
pub struct MonitorTopology {
    pub workspace_count: usize,
    pub focused_workspace_idx: usize,
}

/// The resolved state of one workspace.
#[derive(Debug)]
pub struct WorkspaceState {
    pub wallpaper_idx: usize,
    pub wallpapers: Vec<Wallpaper>,
    pub interval: Option<usize>,
}

/// A workspace's state as a mathematical value.
pub struct WorkspaceView {
    pub wallpapers: Seq<Wallpaper>,
    pub wallpaper_idx: usize,
    pub interval: Option<usize>,
}

impl View for WorkspaceState {
    type V = WorkspaceView;

    open spec fn view(&self) -> WorkspaceView {
        WorkspaceView {
            wallpapers: self.wallpapers@,
            wallpaper_idx: self.wallpaper_idx,
            interval: self.interval,
        }
    }
}

impl WorkspaceView {
    /// The rotation index points into the list, or is 0 for an empty list.
    pub open spec fn index_ok(self) -> bool {
        &&& self.wallpapers.len() <= usize::MAX
        &&& if self.wallpapers.len() == 0 {
            self.wallpaper_idx == 0
        } else {
            self.wallpaper_idx < self.wallpapers.len()
        }
    }
}

impl WorkspaceState {
    /// A workspace with no wallpapers and no timer.
    pub fn new() -> (r: WorkspaceState)
        ensures
            r@ == (WorkspaceView { wallpapers: Seq::empty(), wallpaper_idx: 0, interval: None }),
    {
        WorkspaceState { wallpaper_idx: 0, wallpapers: Vec::new(), interval: None }
    }
}

/// The resolved state of one monitor: its workspaces in index order.
#[derive(Debug)]
pub struct MonitorState {
    pub workspaces: Vec<WorkspaceState>,
}

impl View for MonitorState {
    type V = Seq<WorkspaceView>;

    open spec fn view(&self) -> Seq<WorkspaceView> {
        self.workspaces@.map_values(|w: WorkspaceState| w@)
    }
}

impl MonitorState {
    /// A monitor with no workspaces yet.
    pub fn new() -> (r: MonitorState)
        ensures
            r@ == Seq::<WorkspaceView>::empty(),
    {
        let r = MonitorState { workspaces: Vec::new() };
        assert(r@ =~= Seq::<WorkspaceView>::empty());
        r
    }
}

/// The whole engine state.
#[derive(Debug)]
pub struct PaperState {
    pub active_workspaces: Vec<usize>,
    pub monitors: Vec<MonitorState>,
    pub we_path: Option<String>,
}

/// The engine state as a mathematical value: `monitors[m][w]` is workspace
/// `w` of monitor `m`.
pub struct PaperView {
    pub active_workspaces: Seq<usize>,
    pub monitors: Seq<Seq<WorkspaceView>>,
    pub we_path: Option<String>,
}

impl View for PaperState {
    type V = PaperView;

    open spec fn view(&self) -> PaperView {
        PaperView {
            active_workspaces: self.active_workspaces@,
            monitors: self.monitors@.map_values(|m: MonitorState| m@),
            we_path: self.we_path,
        }
    }
}

impl PaperView {
    /// One focused workspace per monitor, and every rotation index in range.
    pub open spec fn wf(self) -> bool {
        &&& self.active_workspaces.len() == self.monitors.len()
        &&& forall|m: int, w: int|
            0 <= m < self.monitors.len() && 0 <= w < self.monitors[m].len()
                ==> (#[trigger] self.monitors[m][w]).index_ok()
    }

    /// `(m, w)` names a workspace of the state.
    pub open spec fn has_workspace(self, m: int, w: int) -> bool {
        0 <= m < self.monitors.len() && 0 <= w < self.monitors[m].len()
    }
}

impl PaperState {
    /// A state with no monitors.
    pub fn new() -> (r: PaperState)
        ensures
            r@.active_workspaces == Seq::<usize>::empty(),
            r@.monitors == Seq::<Seq<WorkspaceView>>::empty(),
            r@.we_path is None,
    {
        let r = PaperState { active_workspaces: Vec::new(), monitors: Vec::new(), we_path: None };
        assert(r@.monitors =~= Seq::<Seq<WorkspaceView>>::empty());
        r
    }
}

/// Workspace `w` of monitor `m` as the configuration resolves it, before any
/// rotation.
pub open spec fn resolved_workspace(c: Config, m: int, w: int) -> WorkspaceView {
    WorkspaceView {
        wallpapers: resolved_wallpapers(c, m, w as usize),
        wallpaper_idx: 0,
        interval: resolved_interval(c, m, w as usize),
    }
}

/// The workspaces of monitor `m` as resolved, `count` of them.
pub open spec fn resolved_monitor(c: Config, m: int, count: nat) -> Seq<WorkspaceView> {
    Seq::new(count, |w: int| resolved_workspace(c, m, w))
}

/// The state built from a configuration and the startup topology.
pub open spec fn initial_view(c: Config, topology: Seq<MonitorTopology>) -> PaperView {
    PaperView {
        active_workspaces: topology.map_values(|t: MonitorTopology| t.focused_workspace_idx),
        monitors: Seq::new(
            topology.len(),
            |m: int| resolved_monitor(c, m, topology[m].workspace_count as nat),
        ),
        we_path: c.we_path,
    }
}

/// Builds the engine state: one entry per monitor and per workspace that the
/// window manager reports, each resolved from the configuration, with the
/// focused workspaces taken from the topology.
pub fn initialize_paper_state(config: &Config, topology: &Vec<MonitorTopology>) -> (r: PaperState)
    ensures
        r@ == initial_view(*config, topology@),
        r@.wf(),
{
    let mut paper_state = PaperState::new();
    paper_state.we_path = match &config.we_path {
        Some(p) => Some(p.clone()),
        None => None,
    };
    let mut m: usize = 0;
    while m < topology.len()
        invariant
            m <= topology@.len(),
            paper_state.we_path == config.we_path,
            paper_state.active_workspaces@ =~= initial_view(*config, topology@).active_workspaces.subrange(0, m as int),
            paper_state@.monitors =~= initial_view(*config, topology@).monitors.subrange(0, m as int),
        decreases topology@.len() - m,
    {
        let t = topology[m];
        paper_state.active_workspaces.push(t.focused_workspace_idx);
        let mut monitor_state = MonitorState::new();
        let mut w: usize = 0;
        while w < t.workspace_count
            invariant
                w <= t.workspace_count,
                m < topology@.len(),
                t == topology@[m as int],
                paper_state@.monitors =~= initial_view(*config, topology@).monitors.subrange(0, m as int),
                paper_state.we_path == config.we_path,
                paper_state.active_workspaces@ =~= initial_view(*config, topology@).active_workspaces.subrange(0, m + 1),
                monitor_state@ =~= resolved_monitor(*config, m as int, t.workspace_count as nat).subrange(0, w as int),
            decreases t.workspace_count - w,
        {
            let workspace_state = WorkspaceState {
                wallpaper_idx: 0,
                wallpapers: resolve_wallpapers(config, m, w),
                interval: resolve_interval(config, m, w),
            };
            assert(workspace_state@ == resolved_workspace(*config, m as int, w as int));
            let ghost before = monitor_state@;
            monitor_state.workspaces.push(workspace_state);
            assert(monitor_state@ =~= before.push(workspace_state@));
            assert(resolved_monitor(*config, m as int, t.workspace_count as nat)[w as int]
                == resolved_workspace(*config, m as int, w as int));
            w = w + 1;
        }
        assert(monitor_state@ =~= resolved_monitor(*config, m as int, t.workspace_count as nat));
        let ghost before = paper_state@.monitors;
        paper_state.monitors.push(monitor_state);
        assert(paper_state@.monitors =~= before.push(monitor_state@));
        m = m + 1;
    }
    assert(paper_state@.active_workspaces =~= initial_view(*config, topology@).active_workspaces);
    assert(paper_state@.monitors =~= initial_view(*config, topology@).monitors);
    assert forall|i: int, j: int| paper_state@.has_workspace(i, j) implies (#[trigger] paper_state@.monitors[i][j]).index_ok() by {
        let ws = paper_state.monitors@[i].workspaces@[j];
        assert(ws.wallpapers.len() == ws.wallpapers@.len());
        assert(paper_state@.monitors[i][j] == ws@);
    }
    paper_state
}

} // verus!
