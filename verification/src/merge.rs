//! Merging a device's independently queried process lists.
//!
//! The compute query and the graphics query of one device each return
//! their own process list, and the same PID may appear in both.  The
//! merged list holds each PID exactly once: entries seen only by the
//! compute query are tagged `Compute`, entries seen only by the graphics
//! query `Graphics`, and entries seen by both `Mixed`, with the larger of
//! the two reported memory values (not the sum, which would double-count
//! one allocation seen by both queries).

use vstd::prelude::*;

use crate::process::GpuProcess;
use crate::process::ProcView;
use crate::process::ProcessSample;
use crate::process::ProcessType;
use crate::process::SampleView;
use crate::process::display_name_of;
use crate::process::resolve_process_name;
use crate::sort::sort_desc;
use crate::sort::sort_processes_by_memory;

verus! {

/// The larger of two memory readings.
pub open spec fn max_memory(a: u64, b: u64) -> u64 {
    if a >= b {
        a
    } else {
        b
    }
}

/// Index of the first record with this PID, or -1 when none has it.
pub open spec fn find_pid(s: Seq<ProcView>, pid: u32) -> int
    decreases s.len(),
{
    if s.len() == 0 {
        -1
    } else if s[0].pid == pid {
        0
    } else if find_pid(s.drop_first(), pid) == -1 {
        -1
    } else {
        find_pid(s.drop_first(), pid) + 1
    }
}

/// The record a compute-query entry becomes: tagged `Compute`, carrying
/// its resolved display name.
pub open spec fn compute_entry(s: SampleView) -> ProcView {
    ProcView {
        pid: s.pid,
        name: display_name_of(s.name),
        gpu_memory: s.gpu_memory,
        process_type: ProcessType::Compute,
    }
}

/// The record a graphics-query entry becomes when its PID was not seen
/// by the compute query: tagged `Graphics`.
pub open spec fn graphics_entry(s: SampleView) -> ProcView {
    ProcView {
        pid: s.pid,
        name: display_name_of(s.name),
        gpu_memory: s.gpu_memory,
        process_type: ProcessType::Graphics,
    }
}

/// The merged list starts as the compute list, each entry tagged
/// `Compute` and carrying its resolved display name.
pub open spec fn seeded_compute(c: Seq<SampleView>) -> Seq<ProcView> {
    Seq::new(c.len(), |i: int| compute_entry(c[i]))
}

/// One graphics entry folded into the merged list: a record that already
/// has its PID is retagged `Mixed` and keeps the larger memory value and
/// its earlier name; an unseen PID is appended, tagged `Graphics`.
pub open spec fn merge_one(s: Seq<ProcView>, g: SampleView) -> Seq<ProcView> {
    let i = find_pid(s, g.pid);
    if i >= 0 {
        s.update(
            i,
            ProcView {
                pid: s[i].pid,
                name: s[i].name,
                gpu_memory: max_memory(s[i].gpu_memory, g.gpu_memory),
                process_type: ProcessType::Mixed,
            },
        )
    } else {
        s.push(graphics_entry(g))
    }
}

/// The whole graphics list folded into the merged list, in query order.
pub open spec fn merge_all(s: Seq<ProcView>, gs: Seq<SampleView>) -> Seq<ProcView>
    decreases gs.len(),
{
    if gs.len() == 0 {
        s
    } else {
        merge_one(merge_all(s, gs.drop_last()), gs.last())
    }
}

/// The deduplicated, classified process list of one device, before
/// sorting: the compute list seeded first, then every graphics entry
/// merged in.
pub open spec fn merged_processes(c: Seq<SampleView>, g: Seq<SampleView>) -> Seq<ProcView> {
    merge_all(seeded_compute(c), g)
}

/// `find_pid` returns -1 exactly when no record has the PID, and the
/// first matching index otherwise.
pub proof fn lemma_find_pid(s: Seq<ProcView>, pid: u32)
    ensures
        find_pid(s, pid) == -1 ==> forall|i: int| 0 <= i < s.len() ==> s[i].pid != pid,
        find_pid(s, pid) != -1 ==> 0 <= find_pid(s, pid) < s.len() && s[find_pid(s, pid)].pid
            == pid && (forall|i: int| 0 <= i < find_pid(s, pid) ==> s[i].pid != pid),
    decreases s.len(),
{
    if s.len() > 0 && s[0].pid != pid {
        lemma_find_pid(s.drop_first(), pid);
        assert forall|i: int| 1 <= i < s.len() implies s.drop_first()[i - 1] == s[i] by {}
    }
}

/// No PID appears twice in the list.
pub open spec fn pids_unique(s: Seq<ProcView>) -> bool {
    forall|i: int, j: int| 0 <= i < j < s.len() ==> s[i].pid != s[j].pid
}

/// The merged list holds each PID exactly once, whenever the compute
/// list it was seeded from reported each PID once: folding a graphics
/// entry in either updates the one record that already has its PID or
/// appends a PID not seen before.
pub proof fn lemma_merged_pids_unique(c: Seq<SampleView>, g: Seq<SampleView>)
    requires
        forall|a: int, b: int| 0 <= a < b < c.len() ==> c[a].pid != c[b].pid,
    ensures
        pids_unique(merged_processes(c, g)),
    decreases g.len(),
{
    if g.len() == 0 {
        assert forall|i: int, j: int|
            0 <= i < j < merged_processes(c, g).len() implies merged_processes(c, g)[i].pid
            != merged_processes(c, g)[j].pid by {
            assert(merged_processes(c, g)[i] == compute_entry(c[i]));
            assert(merged_processes(c, g)[j] == compute_entry(c[j]));
        }
    } else {
        lemma_merged_pids_unique(c, g.drop_last());
        let m = merged_processes(c, g.drop_last());
        let last = g.last();
        let k = find_pid(m, last.pid);
        lemma_find_pid(m, last.pid);
        if k >= 0 {
            let r = merge_one(m, last);
            assert forall|i: int, j: int| 0 <= i < j < r.len() implies r[i].pid != r[j].pid by {
                assert(r[i].pid == m[i].pid);
                assert(r[j].pid == m[j].pid);
            }
        }
    }
}

/// Merging disjoint PID sets concatenates the two lists: the merged list
/// is exactly as long as both inputs together, every compute entry keeps
/// its place and its `Compute` tag, and every graphics entry is appended
/// in query order with a `Graphics` tag.
pub proof fn lemma_merge_disjoint_pids(c: Seq<SampleView>, g: Seq<SampleView>)
    requires
        forall|a: int, b: int|
            0 <= a < c.len() && 0 <= b < g.len() ==> c[a].pid != g[b].pid,
        forall|a: int, b: int|
            0 <= a < g.len() && 0 <= b < g.len() && a != b ==> g[a].pid != g[b].pid,
    ensures
        merged_processes(c, g).len() == c.len() + g.len(),
        forall|a: int| 0 <= a < c.len() ==> merged_processes(c, g)[a] == compute_entry(c[a]),
        forall|b: int|
            0 <= b < g.len() ==> merged_processes(c, g)[c.len() + b] == graphics_entry(g[b]),
    decreases g.len(),
{
    if g.len() == 0 {
        assert(merged_processes(c, g) == seeded_compute(c));
    } else {
        lemma_merge_disjoint_pids(c, g.drop_last());
        let m = merged_processes(c, g.drop_last());
        let last = g.last();
        assert(merged_processes(c, g) == merge_one(m, last));
        assert forall|t: int| 0 <= t < m.len() implies m[t].pid != last.pid by {
            if t >= c.len() {
                assert(m[t] == graphics_entry(g.drop_last()[t - c.len()]));
                assert(g.drop_last()[t - c.len()] == g[t - c.len()]);
            }
        }
        lemma_find_pid(m, last.pid);
        assert(find_pid(m, last.pid) == -1);
        assert forall|b: int| 0 <= b < g.len() - 1 implies g.drop_last()[b] == g[b] by {}
    }
}

/// Merges the two process lists of one device and sorts the result by
/// attributed memory, largest first, stably.
///
/// Each entry's memory reading is taken as handed in (an unavailable
/// reading is zero), and each entry's display name is its resolved name
/// or the fixed placeholder.
pub fn merge_gpu_processes(compute: Vec<ProcessSample>, graphics: Vec<ProcessSample>) -> (r: Vec<
    GpuProcess,
>)
    ensures
        r.deep_view() == sort_desc(merged_processes(compute.deep_view(), graphics.deep_view())),
{
    let ghost cv = compute.deep_view();
    let ghost gv = graphics.deep_view();
    let mut compute = compute;
    let mut graphics = graphics;
    let mut merged: Vec<GpuProcess> = Vec::new();
    let ghost mut i: int = 0;

    while compute.len() > 0
        invariant
            0 <= i <= cv.len(),
            i + compute.len() == cv.len(),
            compute.deep_view() =~= cv.subrange(i, cv.len() as int),
            merged.deep_view() == seeded_compute(cv.subrange(0, i)),
        decreases compute.len(),
    {
        let ghost pre = compute.deep_view();
        let ghost prev = compute@;
        let ghost mpre = merged.deep_view();
        let s = compute.remove(0);
        proof {
            assert(s.deep_view() == pre[0]);
            assert forall|j: int| 0 <= j < compute.deep_view().len() implies #[trigger] compute.deep_view()[j]
                == pre[j + 1] by {
                assert(compute@[j] == prev[j + 1]);
            }
            assert(compute.deep_view() =~= cv.subrange(i + 1, cv.len() as int));
        }
        let name = resolve_process_name(s.name);
        merged.push(
            GpuProcess {
                pid: s.pid,
                name,
                gpu_memory: s.gpu_memory,
                process_type: ProcessType::Compute,
            },
        );
        proof {
            i = i + 1;
            assert(merged.deep_view() =~= mpre.push(
                ProcView {
                    pid: cv[i - 1].pid,
                    name: display_name_of(cv[i - 1].name),
                    gpu_memory: cv[i - 1].gpu_memory,
                    process_type: ProcessType::Compute,
                },
            ));
            assert(merged.deep_view() =~= seeded_compute(cv.subrange(0, i)));
        }
    }

    let ghost seed = merged.deep_view();
    proof {
        assert(cv.subrange(0, cv.len() as int) =~= cv);
        assert(seed == seeded_compute(cv));
    }
    let ghost mut j: int = 0;

    while graphics.len() > 0
        invariant
            0 <= j <= gv.len(),
            j + graphics.len() == gv.len(),
            graphics.deep_view() =~= gv.subrange(j, gv.len() as int),
            merged.deep_view() == merge_all(seed, gv.subrange(0, j)),
        decreases graphics.len(),
    {
        let ghost pre = graphics.deep_view();
        let ghost prev = graphics@;
        let ghost mpre = merged.deep_view();
        let g = graphics.remove(0);
        proof {
            assert(g.deep_view() == pre[0]);
            assert(pre[0] == gv[j]);
            assert forall|t: int| 0 <= t < graphics.deep_view().len() implies #[trigger] graphics.deep_view()[t]
                == pre[t + 1] by {
                assert(graphics@[t] == prev[t + 1]);
            }
            assert(graphics.deep_view() =~= gv.subrange(j + 1, gv.len() as int));
        }

        let mut k: usize = 0;
        while k < merged.len() && merged[k].pid != g.pid
            invariant
                0 <= k <= merged.len(),
                merged.deep_view() == mpre,
                mpre.len() == merged.len(),
                forall|t: int| 0 <= t < k ==> mpre[t].pid != g.pid,
            decreases merged.len() - k,
        {
            assert(mpre[k as int] == merged@[k as int].deep_view());
            k += 1;
        }
        proof {
            lemma_find_pid(mpre, g.pid);
            if k < merged.len() {
                assert(mpre[k as int] == merged@[k as int].deep_view());
                assert(mpre[k as int].pid == g.pid);
                assert(find_pid(mpre, g.pid) == k as int);
            } else {
                assert(find_pid(mpre, g.pid) == -1);
            }
        }

        if k < merged.len() {
            let old_mem = merged[k].gpu_memory;
            let new_mem = if old_mem >= g.gpu_memory {
                old_mem
            } else {
                g.gpu_memory
            };
            merged[k].gpu_memory = new_mem;
            merged[k].process_type = ProcessType::Mixed;
            proof {
                assert(merged.deep_view() =~= merge_one(mpre, gv[j]));
            }
        } else {
            let name = resolve_process_name(g.name);
            merged.push(
                GpuProcess {
                    pid: g.pid,
                    name,
                    gpu_memory: g.gpu_memory,
                    process_type: ProcessType::Graphics,
                },
            );
            proof {
                assert(merged.deep_view() =~= merge_one(mpre, gv[j]));
            }
        }
        proof {
            j = j + 1;
            let sub = gv.subrange(0, j);
            assert(sub.drop_last() =~= gv.subrange(0, j - 1));
            assert(sub.last() == gv[j - 1]);
            assert(merged.deep_view() == merge_all(seed, sub));
        }
    }

    proof {
        assert(gv.subrange(0, gv.len() as int) =~= gv);
    }
    sort_processes_by_memory(merged)
}

} // verus!
