use komopaper::config::{Config, Monitor, Wallpaper, Workspace};
use komopaper::engine::Event;
use komopaper::state::{initialize_paper_state, MonitorTopology};
use komopaper::timer::{Scheduler, Timer, TimerEntry};

#[test]
fn timer_fires_once_its_instant_has_come() {
    let mut t = Timer::new(5, 100);
    assert_eq!(t, Timer { interval: 5, next: 105 });
    assert!(!t.check_and_reset(104));
    assert_eq!(t.next, 105);
    assert!(t.check_and_reset(105));
    assert_eq!(t.next, 110);
}

#[test]
fn timer_does_not_catch_up() {
    let mut t = Timer::new(5, 0);
    assert!(t.check_and_reset(23));
    assert_eq!(t.next, 28);
    assert!(!t.check_and_reset(27));
}

#[test]
fn timer_with_zero_interval_fires_every_check() {
    let mut t = Timer::new(0, 7);
    assert!(t.check_and_reset(7));
    assert!(t.check_and_reset(7));
    assert_eq!(t.next, 7);
}

#[test]
fn timer_deadline_saturates() {
    let t = Timer::new(10, u64::MAX - 3);
    assert_eq!(t.next, u64::MAX);
}

#[test]
fn scheduler_has_one_entry_per_timed_workspace() {
    let config = Config {
        monitors: vec![
            Monitor {
                workspaces: Some(vec![Workspace {
                    index: 1,
                    wallpapers: Some(vec![Wallpaper { path: "C".to_string(), kind: None }]),
                    interval: Some(5),
                }]),
                wallpapers: None,
                interval: None,
                enable: None,
            },
            Monitor { workspaces: None, wallpapers: None, interval: Some(2), enable: None },
        ],
        wallpapers: None,
        we_path: None,
        interval: None,
    };
    let topology = vec![
        MonitorTopology { workspace_count: 2, focused_workspace_idx: 0 },
        MonitorTopology { workspace_count: 2, focused_workspace_idx: 1 },
    ];
    let state = initialize_paper_state(&config, &topology);
    let mut scheduler = Scheduler::new(&state, 10);
    assert_eq!(
        scheduler.entries,
        vec![
            TimerEntry { monitor_idx: 0, workspace_idx: 1, timer: Timer { interval: 5, next: 15 } },
            TimerEntry { monitor_idx: 1, workspace_idx: 0, timer: Timer { interval: 2, next: 12 } },
            TimerEntry { monitor_idx: 1, workspace_idx: 1, timer: Timer { interval: 2, next: 12 } },
        ]
    );
    assert!(scheduler.poll(11).is_empty());
    assert_eq!(
        scheduler.poll(12),
        vec![
            Event::RotationDue { monitor_idx: 1, workspace_idx: 0 },
            Event::RotationDue { monitor_idx: 1, workspace_idx: 1 },
        ]
    );
    assert_eq!(scheduler.entries[1].timer.next, 14);
    assert_eq!(
        scheduler.poll(15),
        vec![
            Event::RotationDue { monitor_idx: 0, workspace_idx: 1 },
            Event::RotationDue { monitor_idx: 1, workspace_idx: 0 },
            Event::RotationDue { monitor_idx: 1, workspace_idx: 1 },
        ]
    );
    assert_eq!(scheduler.entries[0].timer.next, 20);
    assert_eq!(scheduler.entries[2].timer.next, 17);
}
