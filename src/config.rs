//! The configuration tree and its three-level resolution
//! (workspace entry, then monitor entry, then global value).
use vstd::prelude::*;

verus! {

/// How a wallpaper is shown: by the desktop itself or by the external
/// wallpaper engine.
#[derive(Clone, Copy, Debug, PartialEq, Eq, Structural)]
pub enum WallpaperType {
    Windows,
    WallpaperEngine,
}

/// One wallpaper entry: a file path and the backend that shows it
/// (`None` means the native desktop backend).
#[derive(Debug, PartialEq, Eq)]
pub struct Wallpaper {
    pub path: String,
    pub kind: Option<WallpaperType>,
}

impl Clone for Wallpaper {
    fn clone(&self) -> (r: Self)
        ensures
            r == *self,
    {
        Wallpaper { path: self.path.clone(), kind: self.kind }
    }
}

impl Wallpaper {
    /// True when this wallpaper needs the external engine.
    pub open spec fn needs_engine(self) -> bool {
        self.kind == Some(WallpaperType::WallpaperEngine)
    }
}

/// A per-workspace entry of a monitor's configuration.
#[derive(Debug)]
pub struct Workspace {
    pub index: usize,
    pub wallpapers: Option<Vec<Wallpaper>>,
    pub interval: Option<usize>,
}

/// A per-monitor entry of the configuration.
#[derive(Debug)]
pub struct Monitor {
    pub workspaces: Option<Vec<Workspace>>,
    pub wallpapers: Option<Vec<Wallpaper>>,
    pub interval: Option<usize>,
    pub enable: Option<bool>,
}

/// The whole configuration tree; `monitors[i]` configures monitor `i`.
#[derive(Debug)]
pub struct Config {
    pub monitors: Vec<Monitor>,
    pub wallpapers: Option<Vec<Wallpaper>>,
    pub we_path: Option<String>,
    pub interval: Option<usize>,
}

/// A wallpaper list as a sequence, `None` when the level does not set one.
pub open spec fn list_of(l: Option<Vec<Wallpaper>>) -> Option<Seq<Wallpaper>> {
    match l {
        Some(v) => Some(v@),
        None => None,
    }
}

/// Position of the first entry at or after `i` whose `index` is `w`.
pub open spec fn find_from(s: Seq<Workspace>, w: usize, i: int) -> Option<int>
    decreases s.len() - i,
{
    if i < 0 || i >= s.len() {
        None
    } else if s[i].index == w {
        Some(i)
    } else {
        find_from(s, w, i + 1)
    }
}

/// The entry of monitor `m`, if the configuration has one.
pub open spec fn monitor_entry(c: Config, m: int) -> Option<Monitor> {
    if 0 <= m < c.monitors@.len() {
        Some(c.monitors@[m])
    } else {
        None
    }
}

/// The first per-workspace entry of monitor `m` that names workspace `w`.
pub open spec fn workspace_entry(c: Config, m: int, w: usize) -> Option<Workspace> {
    match monitor_entry(c, m) {
        Some(mon) => match mon.workspaces {
            Some(ws) => match find_from(ws@, w, 0) {
                Some(i) => Some(ws@[i]),
                None => None,
            },
            None => None,
        },
        None => None,
    }
}

/// The most specific of three optional values.
pub open spec fn cascade<T>(ws: Option<T>, mon: Option<T>, global: Option<T>) -> Option<T> {
    if ws is Some {
        ws
    } else if mon is Some {
        mon
    } else {
        global
    }
}

/// The wallpaper list that workspace `w` of monitor `m` resolves to.
pub open spec fn resolved_wallpapers(c: Config, m: int, w: usize) -> Seq<Wallpaper> {
    let ws = match workspace_entry(c, m, w) {
        Some(e) => list_of(e.wallpapers),
        None => None,
    };
    let mon = match monitor_entry(c, m) {
        Some(e) => list_of(e.wallpapers),
        None => None,
    };
    match cascade(ws, mon, list_of(c.wallpapers)) {
        Some(l) => l,
        None => Seq::empty(),
    }
}

/// The rotation interval, in seconds, that workspace `w` of monitor `m`
/// resolves to; `None` means no rotation.
pub open spec fn resolved_interval(c: Config, m: int, w: usize) -> Option<usize> {
    let ws = match workspace_entry(c, m, w) {
        Some(e) => e.interval,
        None => None,
    };
    let mon = match monitor_entry(c, m) {
        Some(e) => e.interval,
        None => None,
    };
    cascade(ws, mon, c.interval)
}

/// Copies a wallpaper list.
pub fn copy_wallpapers(v: &Vec<Wallpaper>) -> (r: Vec<Wallpaper>)
    ensures
        r@ == v@,
{
    let mut r: Vec<Wallpaper> = Vec::new();
    let mut i: usize = 0;
    while i < v.len()
        invariant
            i <= v@.len(),
            r@ == v@.subrange(0, i as int),
        decreases v@.len() - i,
    {
        r.push(v[i].clone());
        i = i + 1;
    }
    assert(r@ =~= v@);
    r
}

/// Finds the first per-workspace entry that names workspace `w`.
pub fn find_workspace(entries: &Vec<Workspace>, w: usize) -> (r: Option<usize>)
    ensures
        r matches Some(i) ==> find_from(entries@, w, 0) == Some(i as int) && i < entries@.len()
            && entries@[i as int].index == w,
        r is None ==> find_from(entries@, w, 0) is None,
{
    let mut i: usize = 0;
    while i < entries.len()
        invariant
            i <= entries@.len(),
            find_from(entries@, w, 0) == find_from(entries@, w, i as int),
        decreases entries@.len() - i,
    {
        if entries[i].index == w {
            return Some(i);
        }
        i = i + 1;
    }
    None
}

/// Resolves the wallpaper list of workspace `w` of monitor `m`.
pub fn resolve_wallpapers(config: &Config, m: usize, w: usize) -> (r: Vec<Wallpaper>)
    ensures
        r@ == resolved_wallpapers(*config, m as int, w),
{
    if m < config.monitors.len() {
        let mon = &config.monitors[m];
        if let Some(entries) = &mon.workspaces {
            if let Some(i) = find_workspace(entries, w) {
                if let Some(l) = &entries[i].wallpapers {
                    return copy_wallpapers(l);
                }
            }
        }
        if let Some(l) = &mon.wallpapers {
            return copy_wallpapers(l);
        }
    }
    match &config.wallpapers {
        Some(l) => copy_wallpapers(l),
        None => Vec::new(),
    }
}

/// Resolves the rotation interval of workspace `w` of monitor `m`.
pub fn resolve_interval(config: &Config, m: usize, w: usize) -> (r: Option<usize>)
    ensures
        r == resolved_interval(*config, m as int, w),
        workspace_entry(*config, m as int, w) is Some
            && workspace_entry(*config, m as int, w).unwrap().interval is Some
            ==> r == workspace_entry(*config, m as int, w).unwrap().interval,
{
    if m < config.monitors.len() {
        let mon = &config.monitors[m];
        if let Some(entries) = &mon.workspaces {
            if let Some(i) = find_workspace(entries, w) {
                if let Some(v) = entries[i].interval {
                    return Some(v);
                }
            }
        }
        if let Some(v) = mon.interval {
            return Some(v);
        }
    }
    config.interval
}

} // verus!
