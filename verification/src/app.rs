//! Live monitoring state: committed snapshots, history, scroll, cadence.
//!
//! One `App` value holds everything a render pass reads: the committed
//! snapshot list, the per-device history series and the process-list
//! scroll offset.  A refresh commits a freshly built snapshot list and
//! revalidates the scroll offset; discrete navigation events move the
//! offset one row at a time.
//!
//! The scroll bound is deliberately keyed on the first device's process
//! count only, even with several devices on screen: per-device scrolling
//! is an acknowledged simplification carried forward, not a bug.

use vstd::prelude::*;

use crate::GpuInfo;
use crate::GpuInfoView;
use crate::device::usage_percent_of;
use crate::history::history_bounded;
use crate::history::lemma_updated_history_bounded;
use crate::history::push_history_sample;
use crate::history::update_history;
use crate::history::updated_history;

verus! {

/// A discrete input event the monitor reacts to.  Key releases, repeats
/// and unrelated keys are ignored before they reach the library.
#[derive(Clone, Copy, Debug, PartialEq, Eq, Structural)]
pub enum InputAction {
    /// End the session.
    Quit,
    /// Scroll the process list up one row.
    ScrollUp,
    /// Scroll the process list down one row.
    ScrollDown,
}

/// What one turn of the monitoring loop should do.  The loop is a
/// two-state machine: it idles until the refresh interval has elapsed,
/// refreshes exactly once, and returns to idling unconditionally.
#[derive(Clone, Copy, Debug, PartialEq, Eq, Structural)]
pub enum TickAction {
    /// The quit flag is set: leave the loop.
    Stop,
    /// The interval has elapsed: refresh the data, then render.
    RefreshThenRender,
    /// Nothing is due: render the current state and poll for input.
    RenderOnly,
}

/// The per-device utilization samples of one snapshot list.
pub open spec fn util_samples(gs: Seq<GpuInfoView>) -> Seq<u64> {
    Seq::new(gs.len(), |i: int| gs[i].metrics.gpu_utilization as u64)
}

/// The per-device memory-usage-percent samples of one snapshot list.
pub open spec fn memory_samples(gs: Seq<GpuInfoView>) -> Seq<u64> {
    Seq::new(gs.len(), |i: int| usage_percent_of(gs[i].memory.used, gs[i].memory.total))
}

/// Largest valid scroll offset for `count` process rows of which
/// `rows` are visible.
pub open spec fn max_scroll_of(count: int, rows: int) -> int {
    if count > rows {
        count - rows
    } else {
        0
    }
}

/// The scroll offset after a refresh: clamped down to the new maximum.
/// When the whole list fits the view, the maximum is zero, so the
/// offset resets to zero.
pub open spec fn refreshed_scroll(offset: int, count: int, rows: int) -> int {
    if offset > max_scroll_of(count, rows) {
        max_scroll_of(count, rows)
    } else {
        offset
    }
}

/// The scroll offset after one scroll-down: one more row, unless that
/// would pass the maximum.
pub open spec fn scrolled_down(offset: int, count: int, rows: int) -> int {
    if offset < max_scroll_of(count, rows) {
        offset + 1
    } else {
        offset
    }
}

/// State of one monitoring session.
pub struct App {
    /// Whether the session should end at the next loop turn.
    pub exit: bool,
    /// Refresh interval in milliseconds.
    pub interval_ms: u64,
    /// Currently committed snapshot list, one entry per device.
    pub gpus: Vec<GpuInfo>,
    /// Per-device GPU-utilization history, most recent sample last.
    pub gpu_history: Vec<Vec<u64>>,
    /// Per-device memory-usage-percent history, most recent sample last.
    pub memory_history: Vec<Vec<u64>>,
    /// Scroll offset into the first device's process list.
    pub process_scroll: usize,
}

impl App {
    /// Both history collections are within the depth cap and cover the
    /// same devices.
    pub open spec fn wf(&self) -> bool {
        &&& history_bounded(self.gpu_history.deep_view())
        &&& history_bounded(self.memory_history.deep_view())
        &&& self.gpu_history.len() == self.memory_history.len()
    }

    /// The process count that gates scrolling: the first device's, or
    /// zero with no devices (the acknowledged single-reference
    /// simplification).
    pub open spec fn reference_process_count(&self) -> int {
        if self.gpus@.len() > 0 {
            self.gpus@[0].processes@.len() as int
        } else {
            0
        }
    }

    /// A fresh session that will refresh immediately on its first turn.
    pub fn new(interval_ms: u64) -> (r: App)
        ensures
            r.exit == false,
            r.interval_ms == interval_ms,
            r.gpus@.len() == 0,
            r.gpu_history@.len() == 0,
            r.memory_history@.len() == 0,
            r.process_scroll == 0,
            r.wf(),
    {
        App {
            exit: false,
            interval_ms,
            gpus: Vec::new(),
            gpu_history: Vec::new(),
            memory_history: Vec::new(),
            process_scroll: 0,
        }
    }

    /// What this turn of the loop should do, given the milliseconds
    /// elapsed since the last refresh.  The very first turn refreshes
    /// immediately because the session starts with its elapsed time
    /// seeded beyond any configured interval.
    pub fn tick_action(&self, elapsed_ms: u64) -> (r: TickAction)
        ensures
            self.exit ==> r is Stop,
            !self.exit && elapsed_ms >= self.interval_ms ==> r is RefreshThenRender,
            !self.exit && elapsed_ms < self.interval_ms ==> r is RenderOnly,
    {
        if self.exit {
            TickAction::Stop
        } else if elapsed_ms >= self.interval_ms {
            TickAction::RefreshThenRender
        } else {
            TickAction::RenderOnly
        }
    }

    /// Commits one freshly built snapshot list: replaces the previous
    /// list wholesale, appends each device's utilization and
    /// memory-usage samples to its history series (growing the history
    /// collections to the device count, capped at the fixed depth), and
    /// revalidates the scroll offset against the first device's process
    /// count.  With no devices in the list the scroll offset is left
    /// untouched.
    pub fn commit_refresh(&mut self, gpus: Vec<GpuInfo>, visible_rows: usize)
        requires
            old(self).wf(),
        ensures
            final(self).wf(),
            final(self).exit == old(self).exit,
            final(self).interval_ms == old(self).interval_ms,
            final(self).gpus == gpus,
            final(self).gpu_history.deep_view() == updated_history(
                old(self).gpu_history.deep_view(),
                util_samples(gpus.deep_view()),
            ),
            final(self).memory_history.deep_view() == updated_history(
                old(self).memory_history.deep_view(),
                memory_samples(gpus.deep_view()),
            ),
            gpus@.len() > 0 ==> final(self).process_scroll as int == refreshed_scroll(
                old(self).process_scroll as int,
                gpus@[0].processes@.len() as int,
                visible_rows as int,
            ),
            gpus@.len() == 0 ==> final(self).process_scroll == old(self).process_scroll,
    {
        let ghost gv = gpus.deep_view();
        self.gpus = gpus;
        proof {
            assert(self.gpus.deep_view() == gv);
        }

        let mut util_vals: Vec<u64> = Vec::new();
        let mut mem_vals: Vec<u64> = Vec::new();
        let mut i: usize = 0;
        while i < self.gpus.len()
            invariant
                gv == self.gpus.deep_view(),
                i <= gv.len(),
                util_vals@ =~= util_samples(gv).subrange(0, i as int),
                mem_vals@ =~= memory_samples(gv).subrange(0, i as int),
            decreases gv.len() - i,
        {
            let util = self.gpus[i].metrics.gpu_utilization;
            util_vals.push(util as u64);
            let pct = self.gpus[i].memory.usage_percent();
            mem_vals.push(pct);
            proof {
                assert(self.gpus@[i as int].deep_view() == gv[i as int]);
                assert(util_vals@ =~= util_samples(gv).subrange(0, i + 1));
                assert(mem_vals@ =~= memory_samples(gv).subrange(0, i + 1));
            }
            i += 1;
        }
        proof {
            assert(util_vals@ =~= util_samples(gv));
            assert(mem_vals@ =~= memory_samples(gv));
        }

        update_history(&mut self.gpu_history, &util_vals);
        update_history(&mut self.memory_history, &mem_vals);
        proof {
            lemma_updated_history_bounded(old(self).gpu_history.deep_view(), util_samples(gv));
            lemma_updated_history_bounded(old(self).memory_history.deep_view(), memory_samples(gv));
            assert(self.gpu_history@.len() == self.gpu_history.deep_view().len());
            assert(self.memory_history@.len() == self.memory_history.deep_view().len());
            assert(self.gpu_history.len() == self.memory_history.len());
        }

        if self.gpus.len() > 0 {
            let count = self.gpus[0].processes.len();
            if count > visible_rows {
                let max_scroll = count - visible_rows;
                if self.process_scroll > max_scroll {
                    self.process_scroll = max_scroll;
                }
            } else {
                self.process_scroll = 0;
            }
        }
    }

    /// Applies one discrete input event: quit sets the exit flag,
    /// scroll-up moves one row up saturating at the top, scroll-down
    /// moves one row down without passing the last visible window of
    /// the reference process list.  Nothing else changes.
    pub fn apply_input(&mut self, action: InputAction, visible_rows: usize)
        ensures
            final(self).interval_ms == old(self).interval_ms,
            final(self).gpus == old(self).gpus,
            final(self).gpu_history == old(self).gpu_history,
            final(self).memory_history == old(self).memory_history,
            action is Quit ==> final(self).exit == true && final(self).process_scroll == old(self).process_scroll,
            action is ScrollUp ==> final(self).exit == old(self).exit
                && final(self).process_scroll as int == (if old(self).process_scroll > 0 {
                old(self).process_scroll - 1
            } else {
                0int
            }),
            action is ScrollDown ==> final(self).exit == old(self).exit
                && final(self).process_scroll as int == scrolled_down(
                old(self).process_scroll as int,
                old(self).reference_process_count(),
                visible_rows as int,
            ),
    {
        match action {
            InputAction::Quit => {
                self.exit = true;
            },
            InputAction::ScrollUp => {
                if self.process_scroll > 0 {
                    self.process_scroll = self.process_scroll - 1;
                }
            },
            InputAction::ScrollDown => {
                let count = if self.gpus.len() > 0 {
                    self.gpus[0].processes.len()
                } else {
                    0
                };
                if count > visible_rows {
                    let max_scroll = count - visible_rows;
                    if self.process_scroll < max_scroll {
                        self.process_scroll = self.process_scroll + 1;
                    }
                }
            },
        }
    }
}

} // verus!
