//! What holds of whole runs of the reconciliation loop.
use vstd::prelude::*;

use vstd::arithmetic::div_mod::lemma_add_mod_noop;

use crate::engine::{event_ok, rotated, step, Event};
use crate::state::PaperView;

verus! {

/// The state after the events, taken in order.
pub open spec fn run(s: PaperView, events: Seq<Event>) -> PaperView
    decreases events.len(),
{
    if events.len() == 0 {
        s
    } else {
        step(run(s, events.drop_last()), events.last())
    }
}

/// Every event names a workspace of the state.
pub open spec fn events_ok(s: PaperView, events: Seq<Event>) -> bool {
    forall|i: int| 0 <= i < events.len() ==> event_ok(s, #[trigger] events[i])
}

/// The workspace that the event focuses on monitor `m`, if it is a focus
/// change of that monitor.
pub open spec fn focus_of(e: Event, m: usize) -> Option<usize> {
    match e {
        Event::FocusChanged { monitor_idx, workspace_idx } => if monitor_idx == m {
            Some(workspace_idx)
        } else {
            None
        },
        Event::RotationDue { .. } => None,
    }
}

/// How many of the events are rotations of workspace `w` on monitor `m`.
pub open spec fn rotations(events: Seq<Event>, m: usize, w: usize) -> nat
    decreases events.len(),
{
    if events.len() == 0 {
        0
    } else {
        rotations(events.drop_last(), m, w) + if events.last() == (Event::RotationDue {
            monitor_idx: m,
            workspace_idx: w,
        }) {
            1nat
        } else {
            0nat
        }
    }
}

/// Two states with the same monitors, workspaces and wallpaper lists.
pub open spec fn same_shape(s: PaperView, t: PaperView) -> bool {
    &&& t.active_workspaces.len() == s.active_workspaces.len()
    &&& t.monitors.len() == s.monitors.len()
    &&& forall|i: int| 0 <= i < s.monitors.len() ==> (#[trigger] t.monitors[i]).len() == s.monitors[i].len()
    &&& forall|i: int, j: int|
        s.has_workspace(i, j) ==> (#[trigger] t.monitors[i][j]).wallpapers == s.monitors[i][j].wallpapers
}

/// Events keep the state well formed, and never add or remove a monitor or
/// a workspace or change a wallpaper list.
pub proof fn lemma_run_keeps_shape(s: PaperView, events: Seq<Event>)
    requires
        s.wf(),
        events_ok(s, events),
    ensures
        run(s, events).wf(),
        same_shape(s, run(s, events)),
    decreases events.len(),
{
    if events.len() > 0 {
        let prefix = events.drop_last();
        assert(events_ok(s, prefix)) by {
            assert forall|i: int| 0 <= i < prefix.len() implies event_ok(s, #[trigger] prefix[i]) by {
                assert(prefix[i] == events[i]);
            }
        }
        lemma_run_keeps_shape(s, prefix);
        let t = run(s, prefix);
        assert(event_ok(s, events[events.len() - 1]));
        match events.last() {
            Event::FocusChanged { monitor_idx, workspace_idx } => {
                crate::engine::lemma_focus_step_wf(t, monitor_idx as int, workspace_idx);
            },
            Event::RotationDue { monitor_idx, workspace_idx } => {
                crate::engine::lemma_rotation_step_wf(t, monitor_idx as int, workspace_idx as int);
            },
        }
    }
}

/// After any run of events, a monitor's focused workspace is the one named
/// by the last focus change of that monitor.
pub proof fn lemma_focus_follows_latest(s: PaperView, events: Seq<Event>, m: usize, i: int)
    requires
        s.wf(),
        events_ok(s, events),
        0 <= i < events.len(),
        focus_of(events[i], m) is Some,
        forall|j: int| i < j < events.len() ==> focus_of(#[trigger] events[j], m) is None,
    ensures
        run(s, events).active_workspaces[m as int] == focus_of(events[i], m).unwrap(),
    decreases events.len(),
{
    let prefix = events.drop_last();
    assert(events_ok(s, prefix)) by {
        assert forall|k: int| 0 <= k < prefix.len() implies event_ok(s, #[trigger] prefix[k]) by {
            assert(prefix[k] == events[k]);
        }
    }
    lemma_run_keeps_shape(s, prefix);
    if i < events.len() - 1 {
        assert forall|j: int| i < j < prefix.len() implies focus_of(#[trigger] prefix[j], m) is None by {
            assert(prefix[j] == events[j]);
        }
        lemma_focus_follows_latest(s, prefix, m, i);
        assert(focus_of(events[events.len() - 1], m) is None);
        assert(event_ok(s, events[events.len() - 1]));
    }
}

/// After a run with no focus change of monitor `m`, its focused workspace is
/// the one it had before.
pub proof fn lemma_focus_kept_without_change(s: PaperView, events: Seq<Event>, m: usize)
    requires
        s.wf(),
        events_ok(s, events),
        (m as int) < s.monitors.len(),
        forall|j: int| 0 <= j < events.len() ==> focus_of(#[trigger] events[j], m) is None,
    ensures
        run(s, events).active_workspaces[m as int] == s.active_workspaces[m as int],
    decreases events.len(),
{
    if events.len() > 0 {
        let prefix = events.drop_last();
        assert(events_ok(s, prefix)) by {
            assert forall|k: int| 0 <= k < prefix.len() implies event_ok(s, #[trigger] prefix[k]) by {
                assert(prefix[k] == events[k]);
            }
        }
        assert forall|j: int| 0 <= j < prefix.len() implies focus_of(#[trigger] prefix[j], m) is None by {
            assert(prefix[j] == events[j]);
        }
        lemma_run_keeps_shape(s, prefix);
        lemma_focus_kept_without_change(s, prefix, m);
        assert(focus_of(events[events.len() - 1], m) is None);
        assert(event_ok(s, events[events.len() - 1]));
    }
}

/// Rotation index of a workspace with `k` wallpapers after a run: it has
/// moved on by the number of its rotations, modulo `k`, whatever the focus
/// was meanwhile.
pub proof fn lemma_rotation_counts(s: PaperView, events: Seq<Event>, m: usize, w: usize)
    requires
        s.wf(),
        events_ok(s, events),
        s.has_workspace(m as int, w as int),
        s.monitors[m as int][w as int].wallpapers.len() > 0,
    ensures
        run(s, events).monitors[m as int][w as int].wallpaper_idx == (s.monitors[m as int][w as int].wallpaper_idx
            + rotations(events, m, w)) % (s.monitors[m as int][w as int].wallpapers.len() as int),
    decreases events.len(),
{
    let k = s.monitors[m as int][w as int].wallpapers.len() as int;
    let i0 = s.monitors[m as int][w as int].wallpaper_idx as int;
    if events.len() == 0 {
        assert(i0 % k == i0) by {
            vstd::arithmetic::div_mod::lemma_small_mod(i0 as nat, k as nat);
        }
    } else {
        let prefix = events.drop_last();
        assert(events_ok(s, prefix)) by {
            assert forall|j: int| 0 <= j < prefix.len() implies event_ok(s, #[trigger] prefix[j]) by {
                assert(prefix[j] == events[j]);
            }
        }
        lemma_run_keeps_shape(s, prefix);
        lemma_rotation_counts(s, prefix, m, w);
        let t = run(s, prefix);
        let n = rotations(prefix, m, w) as int;
        let e = events.last();
        assert(event_ok(s, events[events.len() - 1]));
        if e == (Event::RotationDue { monitor_idx: m, workspace_idx: w }) {
            assert(t.monitors[m as int][w as int].wallpapers.len() == k);
            assert(run(s, events).monitors[m as int][w as int] == rotated(t.monitors[m as int][w as int]));
            assert(t.monitors[m as int][w as int].wallpaper_idx == (i0 + n) % k);
            assert(run(s, events).monitors[m as int][w as int].wallpaper_idx == ((i0 + n) % k + 1) % k);
            assert(((i0 + n) % k + 1) % k == (i0 + n + 1) % k) by {
                lemma_add_mod_noop(i0 + n, 1, k);
                vstd::arithmetic::div_mod::lemma_mod_twice(i0 + n, k);
                lemma_add_mod_noop((i0 + n) % k, 1, k);
            }
            assert(rotations(events, m, w) == n + 1);
        } else {
            assert(rotations(events, m, w) == n);
            assert(run(s, events).monitors[m as int][w as int] == t.monitors[m as int][w as int]);
        }
    }
}

} // verus!
