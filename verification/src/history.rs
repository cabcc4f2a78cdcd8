//! Fixed-depth rolling history series, one per device.
//!
//! Each series holds the most recent sample values, oldest first, and is
//! capped at depth 60: once a series is full, the oldest value is evicted
//! when a new one arrives.  The collection of series only ever grows to
//! match the device count; it is never shrunk, so a device that briefly
//! disappears from enumeration keeps its history.

use vstd::prelude::*;

verus! {

/// Maximum number of samples a history series keeps.
pub const HISTORY_DEPTH: usize = 60;

/// One sample appended to a series: a plain append below the cap, and an
/// append with FIFO eviction of the oldest value at or above it.
pub open spec fn pushed_capped(s: Seq<u64>, v: u64) -> Seq<u64> {
    if s.len() < HISTORY_DEPTH {
        s.push(v)
    } else {
        s.drop_first().push(v)
    }
}

/// Every series is at or under the cap.
pub open spec fn history_bounded(h: Seq<Seq<u64>>) -> bool {
    forall|i: int| 0 <= i < h.len() ==> h[i].len() <= HISTORY_DEPTH
}

/// The series at index `i` once the collection has grown to cover `i`:
/// the existing series, or a fresh empty one.
pub open spec fn grown_series(h: Seq<Seq<u64>>, i: int) -> Seq<u64> {
    if i < h.len() {
        h[i]
    } else {
        Seq::empty()
    }
}

/// One refresh applied to a whole history collection: the collection
/// grows (never shrinks) to the sample count, every sampled series gets
/// its new value with the cap applied, and series beyond the sample
/// count stay as they were.
pub open spec fn updated_history(h: Seq<Seq<u64>>, vs: Seq<u64>) -> Seq<Seq<u64>> {
    Seq::new(
        if h.len() > vs.len() {
            h.len()
        } else {
            vs.len()
        },
        |i: int|
            if i < vs.len() {
                pushed_capped(grown_series(h, i), vs[i])
            } else {
                h[i]
            },
    )
}

/// A history series never grows past the fixed depth: below the cap an
/// update is a plain append, and at the cap the series drops its oldest
/// value and appends the new one.
pub proof fn lemma_history_depth_bounded(s: Seq<u64>, v: u64)
    ensures
        s.len() <= HISTORY_DEPTH ==> pushed_capped(s, v).len() <= HISTORY_DEPTH,
        s.len() == HISTORY_DEPTH ==> pushed_capped(s, v) == s.drop_first().push(v),
        s.len() < HISTORY_DEPTH ==> pushed_capped(s, v) == s.push(v),
{
}

/// A whole-collection update keeps every series at or under the cap.
pub proof fn lemma_updated_history_bounded(h: Seq<Seq<u64>>, vs: Seq<u64>)
    requires
        history_bounded(h),
    ensures
        history_bounded(updated_history(h, vs)),
{
    assert forall|i: int|
        0 <= i < updated_history(h, vs).len() implies updated_history(h, vs)[i].len()
        <= HISTORY_DEPTH by {
        if i < vs.len() {
            lemma_history_depth_bounded(grown_series(h, i), vs[i]);
        }
    }
}

/// Appends one sample to a series, evicting the oldest value when the
/// series is full.
pub fn push_history_sample(series: &mut Vec<u64>, value: u64)
    ensures
        final(series)@ == pushed_capped(old(series)@, value),
{
    series.push(value);
    if series.len() > HISTORY_DEPTH {
        series.remove(0);
        proof {
            assert(series@ =~= old(series)@.drop_first().push(value));
        }
    }
}

/// Applies one refresh to a history collection, as `updated_history`
/// describes: grow to the sample count, append each sample with the cap
/// applied, keep any surplus series unchanged.
pub fn update_history(history: &mut Vec<Vec<u64>>, values: &Vec<u64>)
    ensures
        final(history).deep_view() == updated_history(old(history).deep_view(), values@),
{
    let ghost hv = old(history).deep_view();
    let ghost vs = values@;
    let ghost goal = updated_history(hv, vs);
    let mut out: Vec<Vec<u64>> = Vec::new();
    let mut i: usize = 0;
    while i < values.len()
        invariant
            vs == values@,
            hv == old(history).deep_view(),
            goal == updated_history(hv, vs),
            i <= vs.len(),
            out.len() == i,
            forall|t: int| 0 <= t < i ==> out.deep_view()[t] == goal[t],
            i <= hv.len() ==> history.deep_view() =~= hv.subrange(i as int, hv.len() as int),
            i >= hv.len() ==> history.len() == 0,
        decreases vs.len() - i,
    {
        let ghost hpre = history.deep_view();
        let ghost hprev = history@;
        let mut s: Vec<u64> = if history.len() > 0 {
            let t = history.remove(0);
            proof {
                assert(t@ =~= hpre[0]);
                assert forall|j: int| 0 <= j < history.deep_view().len() implies #[trigger] history.deep_view()[j]
                    == hpre[j + 1] by {
                    assert(history@[j] == hprev[j + 1]);
                }
                assert(history.deep_view() =~= hv.subrange(i + 1, hv.len() as int));
            }
            t
        } else {
            Vec::new()
        };
        proof {
            assert(s@ =~= grown_series(hv, i as int));
        }
        push_history_sample(&mut s, values[i]);
        let ghost opre = out.deep_view();
        out.push(s);
        proof {
            assert forall|t: int| 0 <= t < i + 1 implies out.deep_view()[t] == goal[t] by {
                if t < i {
                    assert(out.deep_view()[t] == opre[t]);
                } else {
                    assert(out.deep_view()[t] =~= pushed_capped(grown_series(hv, t), vs[t]));
                }
            }
        }
        i += 1;
    }
    while history.len() > 0
        invariant
            vs == values@,
            hv == old(history).deep_view(),
            goal == updated_history(hv, vs),
            vs.len() <= out.len(),
            out.len() + history.len() == goal.len(),
            forall|t: int| 0 <= t < out.len() ==> out.deep_view()[t] == goal[t],
            out.len() <= hv.len() ==> history.deep_view() =~= hv.subrange(
                out.len() as int,
                hv.len() as int,
            ),
            out.len() >= hv.len() ==> history.len() == 0,
        decreases history.len(),
    {
        let ghost hpre = history.deep_view();
        let ghost hprev = history@;
        let s = history.remove(0);
        proof {
            assert(s@ =~= hpre[0]);
            assert(hpre[0] == hv[out.len() as int]);
            assert forall|j: int| 0 <= j < history.deep_view().len() implies #[trigger] history.deep_view()[j]
                == hpre[j + 1] by {
                assert(history@[j] == hprev[j + 1]);
            }
        }
        let ghost opre = out.deep_view();
        out.push(s);
        proof {
            assert forall|t: int| 0 <= t < out.len() implies out.deep_view()[t] == goal[t] by {
                if t < opre.len() {
                    assert(out.deep_view()[t] == opre[t]);
                } else {
                    assert(out.deep_view()[t] =~= hv[t]);
                }
            }
            assert(out.len() <= hv.len() ==> history.deep_view() =~= hv.subrange(
                out.len() as int,
                hv.len() as int,
            ));
        }
    }
    proof {
        assert(out.len() == goal.len());
        assert(out.deep_view() =~= goal);
    }
    *history = out;
}

} // verus!
