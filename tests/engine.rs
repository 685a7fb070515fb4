use komopaper::config::{Config, Monitor, Wallpaper, WallpaperType, Workspace};
use komopaper::engine::{handle_event, handle_socket_event, handle_timer_event, initial_applies, set_wallpaper, Apply, Event};
use komopaper::state::{initialize_paper_state, MonitorTopology, PaperState};

fn wp(path: &str) -> Wallpaper {
    Wallpaper { path: path.to_string(), kind: None }
}

fn engine_wp(path: &str) -> Wallpaper {
    Wallpaper { path: path.to_string(), kind: Some(WallpaperType::WallpaperEngine) }
}

fn native(m: usize, path: &str) -> Apply {
    Apply::Native { monitor_idx: m, path: path.to_string(), close_engine: None }
}

fn topo(counts: &[(usize, usize)]) -> Vec<MonitorTopology> {
    counts
        .iter()
        .map(|&(workspace_count, focused_workspace_idx)| MonitorTopology { workspace_count, focused_workspace_idx })
        .collect()
}

/// Monitor 0 with two workspaces: `[A, B]` without interval and `[C]` every 5 s.
fn scenario_state() -> PaperState {
    let config = Config {
        monitors: vec![Monitor {
            workspaces: Some(vec![
                Workspace { index: 0, wallpapers: Some(vec![wp("A"), wp("B")]), interval: None },
                Workspace { index: 1, wallpapers: Some(vec![wp("C")]), interval: Some(5) },
            ]),
            wallpapers: None,
            interval: None,
            enable: None,
        }],
        wallpapers: None,
        we_path: None,
        interval: None,
    };
    initialize_paper_state(&config, &topo(&[(2, 0)]))
}

#[test]
fn cascade_monitor_interval_beats_global() {
    let config = Config {
        monitors: vec![Monitor {
            workspaces: Some(vec![Workspace { index: 1, wallpapers: None, interval: None }]),
            wallpapers: None,
            interval: Some(5),
            enable: None,
        }],
        wallpapers: None,
        we_path: None,
        interval: Some(10),
    };
    let state = initialize_paper_state(&config, &topo(&[(2, 0)]));
    assert_eq!(state.monitors[0].workspaces[0].interval, Some(5));
    assert_eq!(state.monitors[0].workspaces[1].interval, Some(5));
}

#[test]
fn cascade_workspace_interval_wins() {
    let config = Config {
        monitors: vec![Monitor {
            workspaces: Some(vec![
                Workspace { index: 0, wallpapers: None, interval: Some(0) },
                Workspace { index: 1, wallpapers: None, interval: Some(30) },
            ]),
            wallpapers: None,
            interval: Some(5),
            enable: None,
        }],
        wallpapers: None,
        we_path: None,
        interval: Some(10),
    };
    let state = initialize_paper_state(&config, &topo(&[(2, 0)]));
    assert_eq!(state.monitors[0].workspaces[0].interval, Some(0));
    assert_eq!(state.monitors[0].workspaces[1].interval, Some(30));
}

#[test]
fn cascade_wallpapers_and_missing_levels() {
    let config = Config {
        monitors: vec![Monitor {
            workspaces: Some(vec![Workspace { index: 2, wallpapers: Some(vec![wp("W")]), interval: None }]),
            wallpapers: Some(vec![wp("M")]),
            interval: None,
            enable: None,
        }],
        wallpapers: Some(vec![wp("G")]),
        we_path: None,
        interval: None,
    };
    // Monitor 1 has no entry, so it takes the global list; monitor 0's
    // workspace 2 is matched by its index, not by its position.
    let state = initialize_paper_state(&config, &topo(&[(3, 0), (1, 0)]));
    assert_eq!(state.monitors.len(), 2);
    assert_eq!(state.active_workspaces, vec![0, 0]);
    assert_eq!(state.monitors[0].workspaces[0].wallpapers, vec![wp("M")]);
    assert_eq!(state.monitors[0].workspaces[1].wallpapers, vec![wp("M")]);
    assert_eq!(state.monitors[0].workspaces[2].wallpapers, vec![wp("W")]);
    assert_eq!(state.monitors[1].workspaces[0].wallpapers, vec![wp("G")]);
    assert_eq!(state.monitors[1].workspaces[0].interval, None);
}

#[test]
fn unconfigured_setup_is_inert() {
    let config = Config { monitors: vec![], wallpapers: None, we_path: None, interval: None };
    let state = initialize_paper_state(&config, &topo(&[(2, 1)]));
    assert_eq!(state.monitors[0].workspaces.len(), 2);
    assert!(state.monitors[0].workspaces[1].wallpapers.is_empty());
    assert_eq!(state.monitors[0].workspaces[1].interval, None);
    assert!(initial_applies(&state).is_empty());
}

#[test]
fn scenario_startup_focus_and_single_rotation() {
    let mut state = scenario_state();
    assert_eq!(initial_applies(&state), vec![native(0, "A")]);
    assert_eq!(handle_socket_event(&mut state, 0, 1), Some(native(0, "C")));
    assert_eq!(handle_timer_event(&mut state, 0, 1), None);
    assert_eq!(state.monitors[0].workspaces[1].wallpaper_idx, 0);
}

#[test]
fn focus_tracks_latest_event_per_monitor() {
    let config = Config { monitors: vec![], wallpapers: Some(vec![wp("G")]), we_path: None, interval: None };
    let mut state = initialize_paper_state(&config, &topo(&[(3, 0), (3, 0)]));
    let events = [(0, 2), (1, 1), (0, 1), (1, 1), (0, 0), (1, 2)];
    for &(m, w) in events.iter() {
        handle_socket_event(&mut state, m, w);
    }
    assert_eq!(state.active_workspaces, vec![0, 2]);
}

#[test]
fn repeated_focus_does_not_reapply() {
    let mut state = scenario_state();
    assert_eq!(handle_socket_event(&mut state, 0, 0), None);
    assert_eq!(handle_socket_event(&mut state, 0, 1), Some(native(0, "C")));
    assert_eq!(handle_socket_event(&mut state, 0, 1), None);
}

#[test]
fn rotation_index_is_ticks_mod_len() {
    let config = Config {
        monitors: vec![],
        wallpapers: Some(vec![wp("A"), wp("B"), wp("C")]),
        we_path: None,
        interval: Some(1),
    };
    let mut state = initialize_paper_state(&config, &topo(&[(2, 0)]));
    for n in 1..=7usize {
        // Focus alternates between the two workspaces meanwhile.
        handle_socket_event(&mut state, 0, n % 2);
        handle_timer_event(&mut state, 0, 1);
        assert_eq!(state.monitors[0].workspaces[1].wallpaper_idx, n % 3);
    }
}

#[test]
fn rotation_of_focused_workspace_applies_next() {
    let config = Config { monitors: vec![], wallpapers: Some(vec![wp("A"), wp("B")]), we_path: None, interval: None };
    let mut state = initialize_paper_state(&config, &topo(&[(2, 0)]));
    assert_eq!(handle_timer_event(&mut state, 0, 0), Some(native(0, "B")));
    assert_eq!(handle_timer_event(&mut state, 0, 0), Some(native(0, "A")));
    // Unfocused: advances silently, shown on the next focus.
    assert_eq!(handle_timer_event(&mut state, 0, 1), None);
    assert_eq!(handle_socket_event(&mut state, 0, 1), Some(native(0, "B")));
}

#[test]
fn rotation_without_wallpapers_is_noop() {
    let config = Config { monitors: vec![], wallpapers: None, we_path: None, interval: Some(3) };
    let mut state = initialize_paper_state(&config, &topo(&[(1, 0)]));
    assert_eq!(handle_timer_event(&mut state, 0, 0), None);
    assert_eq!(state.monitors[0].workspaces[0].wallpaper_idx, 0);
}

#[test]
fn handle_event_dispatches_both_kinds() {
    let mut state = scenario_state();
    let e = Event::FocusChanged { monitor_idx: 0, workspace_idx: 1 };
    assert_eq!(handle_event(&mut state, e), Some(native(0, "C")));
    let r = Event::RotationDue { monitor_idx: 0, workspace_idx: 0 };
    assert_eq!(handle_event(&mut state, r), None);
    assert_eq!(state.monitors[0].workspaces[0].wallpaper_idx, 1);
}

#[test]
fn apply_variants_follow_kind_and_engine_path() {
    let with_engine = Config {
        monitors: vec![Monitor {
            workspaces: Some(vec![Workspace { index: 1, wallpapers: Some(vec![engine_wp("E")]), interval: None }]),
            wallpapers: Some(vec![wp("N")]),
            interval: None,
            enable: Some(true),
        }],
        wallpapers: None,
        we_path: Some("we.exe".to_string()),
        interval: None,
    };
    let state = initialize_paper_state(&with_engine, &topo(&[(2, 0)]));
    assert_eq!(
        set_wallpaper(&state, 0, 0),
        Some(Apply::Native { monitor_idx: 0, path: "N".to_string(), close_engine: Some("we.exe".to_string()) })
    );
    assert_eq!(
        set_wallpaper(&state, 0, 1),
        Some(Apply::Engine { monitor_idx: 0, path: "E".to_string(), we_path: "we.exe".to_string() })
    );
    assert_eq!(set_wallpaper(&state, 1, 0), None);
    assert_eq!(set_wallpaper(&state, 0, 2), None);

    let without_engine = Config { monitors: vec![], wallpapers: Some(vec![engine_wp("E")]), we_path: None, interval: None };
    let state = initialize_paper_state(&without_engine, &topo(&[(1, 0)]));
    assert_eq!(set_wallpaper(&state, 0, 0), Some(Apply::MissingEnginePath { monitor_idx: 0, path: "E".to_string() }));
}

#[test]
fn explicit_windows_kind_is_native() {
    let config = Config {
        monitors: vec![],
        wallpapers: Some(vec![Wallpaper { path: "W".to_string(), kind: Some(WallpaperType::Windows) }]),
        we_path: None,
        interval: None,
    };
    let state = initialize_paper_state(&config, &topo(&[(1, 0), (1, 0)]));
    assert_eq!(initial_applies(&state), vec![native(0, "W"), native(1, "W")]);
}
