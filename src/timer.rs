//! The rotation timers: one per workspace that has an interval, each knowing
//! only when it fires next, never which wallpaper is shown.
use vstd::prelude::*;

use crate::engine::Event;
use crate::state::{PaperState, PaperView, WorkspaceView};

verus! {

/// `now + interval`, held at the largest instant when that does not fit.
pub open spec fn later(now: u64, interval: u64) -> u64 {
    if now + interval > u64::MAX {
        u64::MAX
    } else {
        (now + interval) as u64
    }
}

/// A recurring timer; instants and intervals are in whole seconds.
#[derive(Clone, Copy, Debug, PartialEq, Eq, Structural)]
pub struct Timer {
    pub interval: u64,
    pub next: u64,
}

impl Timer {
    /// A timer that first fires one interval after `now`.
    pub fn new(interval: u64, now: u64) -> (r: Timer)
        ensures
            r == (Timer { interval, next: later(now, interval) }),
    {
        Timer { interval, next: now.saturating_add(interval) }
    }

    /// The timer after a check at `now`: a timer whose instant has come
    /// fires and is set one interval after `now`, without catching up on
    /// intervals missed in between.
    pub open spec fn checked(self, now: u64) -> Timer {
        if now >= self.next {
            Timer { interval: self.interval, next: later(now, self.interval) }
        } else {
            self
        }
    }

    /// Fires when its instant has come, and then sets the next one.
    pub fn check_and_reset(&mut self, now: u64) -> (fired: bool)
        ensures
            fired == (now >= old(self).next),
            *final(self) == old(self).checked(now),
    {
        if now >= self.next {
            self.next = now.saturating_add(self.interval);
            true
        } else {
            false
        }
    }
}

/// The timer of one workspace.
#[derive(Clone, Copy, Debug, PartialEq, Eq, Structural)]
pub struct TimerEntry {
    pub monitor_idx: usize,
    pub workspace_idx: usize,
    pub timer: Timer,
}

/// The `(monitor, workspace, interval)` of each of the first `n` workspaces
/// of monitor `m` that has an interval, in index order.
pub open spec fn slots_in(ws: Seq<WorkspaceView>, m: int, n: int) -> Seq<(usize, usize, usize)>
    decreases n,
{
    if n <= 0 {
        Seq::empty()
    } else {
        let rest = slots_in(ws, m, n - 1);
        match ws[n - 1].interval {
            Some(iv) => rest.push((m as usize, (n - 1) as usize, iv)),
            None => rest,
        }
    }
}

/// The timed workspaces of the first `k` monitors, in order.
pub open spec fn slots_upto(monitors: Seq<Seq<WorkspaceView>>, k: int) -> Seq<(usize, usize, usize)>
    decreases k,
{
    if k <= 0 {
        Seq::empty()
    } else {
        slots_upto(monitors, k - 1) + slots_in(monitors[k - 1], k - 1, monitors[k - 1].len() as int)
    }
}

/// The timed workspaces of a state, in monitor and then workspace order.
pub open spec fn timer_slots(s: PaperView) -> Seq<(usize, usize, usize)> {
    slots_upto(s.monitors, s.monitors.len() as int)
}

/// The fresh timer of a timed workspace.
pub open spec fn entry_of(slot: (usize, usize, usize), now: u64) -> TimerEntry {
    TimerEntry {
        monitor_idx: slot.0,
        workspace_idx: slot.1,
        timer: Timer { interval: slot.2 as u64, next: later(now, slot.2 as u64) },
    }
}

/// The rotation events of the entries whose instant has come at `now`, in
/// table order.
pub open spec fn fired(entries: Seq<TimerEntry>, now: u64) -> Seq<Event>
    decreases entries.len(),
{
    if entries.len() == 0 {
        Seq::empty()
    } else {
        let rest = fired(entries.drop_last(), now);
        let e = entries.last();
        if now >= e.timer.next {
            rest.push(Event::RotationDue { monitor_idx: e.monitor_idx, workspace_idx: e.workspace_idx })
        } else {
            rest
        }
    }
}

/// An entry after a check at `now`.
pub open spec fn entry_checked(e: TimerEntry, now: u64) -> TimerEntry {
    TimerEntry { timer: e.timer.checked(now), ..e }
}

/// The timer table: when each timed workspace rotates next.
#[derive(Debug)]
pub struct Scheduler {
    pub entries: Vec<TimerEntry>,
}

impl Scheduler {
    /// One timer for each workspace of the state that has an interval, each
    /// first firing one interval after `now`.
    pub fn new(paper_state: &PaperState, now: u64) -> (r: Scheduler)
        ensures
            r.entries@ == timer_slots(paper_state@).map_values(|slot: (usize, usize, usize)| entry_of(slot, now)),
    {
        let ghost s = paper_state@;
        let mut entries: Vec<TimerEntry> = Vec::new();
        let mut m: usize = 0;
        while m < paper_state.monitors.len()
            invariant
                s == paper_state@,
                m <= s.monitors.len(),
                entries@ =~= slots_upto(s.monitors, m as int).map_values(
                    |slot: (usize, usize, usize)| entry_of(slot, now),
                ),
            decreases s.monitors.len() - m,
        {
            let workspaces = &paper_state.monitors[m].workspaces;
            let ghost base = entries@;
            let mut w: usize = 0;
            while w < workspaces.len()
                invariant
                    s == paper_state@,
                    m < s.monitors.len(),
                    workspaces@.map_values(|x: crate::state::WorkspaceState| x@) == s.monitors[m as int],
                    w <= workspaces@.len(),
                    entries@ =~= base + slots_in(s.monitors[m as int], m as int, w as int).map_values(
                        |slot: (usize, usize, usize)| entry_of(slot, now),
                    ),
                decreases workspaces@.len() - w,
            {
                assert(workspaces@[w as int]@ == s.monitors[m as int][w as int]);
                if let Some(iv) = workspaces[w].interval {
                    entries.push(TimerEntry { monitor_idx: m, workspace_idx: w, timer: Timer::new(iv as u64, now) });
                }
                assert(entries@ =~= base + slots_in(s.monitors[m as int], m as int, w + 1).map_values(
                    |slot: (usize, usize, usize)| entry_of(slot, now),
                ));
                w = w + 1;
            }
            assert(slots_upto(s.monitors, m + 1) == slots_upto(s.monitors, m as int) + slots_in(
                s.monitors[m as int],
                m as int,
                s.monitors[m as int].len() as int,
            ));
            assert(entries@ =~= slots_upto(s.monitors, m + 1).map_values(
                |slot: (usize, usize, usize)| entry_of(slot, now),
            ));
            m = m + 1;
        }
        Scheduler { entries }
    }

    /// Checks every timer at `now`: the result holds, in table order, one
    /// rotation event for each timer that fired, and each fired timer is set
    /// one interval after `now`.
    pub fn poll(&mut self, now: u64) -> (r: Vec<Event>)
        ensures
            r@ == fired(old(self).entries@, now),
            final(self).entries@ == old(self).entries@.map_values(|e: TimerEntry| entry_checked(e, now)),
    {
        let ghost start = self.entries@;
        let mut r: Vec<Event> = Vec::new();
        let mut i: usize = 0;
        while i < self.entries.len()
            invariant
                self.entries@.len() == start.len(),
                i <= start.len(),
                r@ == fired(start.subrange(0, i as int), now),
                forall|j: int| 0 <= j < i ==> self.entries@[j] == entry_checked(start[j], now),
                forall|j: int| i <= j < start.len() ==> self.entries@[j] == start[j],
            decreases start.len() - i,
        {
            let mut e = self.entries[i];
            if e.timer.check_and_reset(now) {
                r.push(Event::RotationDue { monitor_idx: e.monitor_idx, workspace_idx: e.workspace_idx });
            }
            self.entries.set(i, e);
            assert(start.subrange(0, i + 1).drop_last() =~= start.subrange(0, i as int));
            i = i + 1;
        }
        assert(start.subrange(0, start.len() as int) =~= start);
        assert(self.entries@ =~= start.map_values(|e: TimerEntry| entry_checked(e, now)));
        r
    }
}

} // verus!
