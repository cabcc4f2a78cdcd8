//! Stable ordering of a device's process list by memory usage.
//!
//! The merged process list is shown sorted by attributed GPU memory,
//! largest first.  The sort must be stable: when two processes report the
//! same memory, their relative order must not change between refreshes,
//! or rows would jitter in the view.  Stability is therefore part of the
//! contract here, not an implementation accident.

use vstd::prelude::*;

use crate::process::GpuProcess;
use crate::process::ProcView;

verus! {

/// The list is ordered by attributed memory, largest first.
pub open spec fn sorted_by_memory_desc(s: Seq<ProcView>) -> bool {
    forall|i: int, j: int| 0 <= i <= j < s.len() ==> s[i].gpu_memory >= s[j].gpu_memory
}

/// Where `x` lands when inserted into `s`: after every element whose
/// memory is at least `x`'s, counted from the back, and before the
/// trailing run of elements with strictly smaller memory.
pub open spec fn insert_desc(s: Seq<ProcView>, x: ProcView) -> Seq<ProcView>
    decreases s.len(),
{
    if s.len() == 0 {
        seq![x]
    } else if s.last().gpu_memory >= x.gpu_memory {
        s.push(x)
    } else {
        insert_desc(s.drop_last(), x).push(s.last())
    }
}

/// Insertion sort by memory, largest first: elements are inserted in
/// input order, so later elements land after earlier ones with equal
/// memory.  This pins the sorted list down completely.
pub open spec fn sort_desc(s: Seq<ProcView>) -> Seq<ProcView>
    decreases s.len(),
{
    if s.len() == 0 {
        Seq::<ProcView>::empty()
    } else {
        insert_desc(sort_desc(s.drop_last()), s.last())
    }
}

/// Holds of the records that report exactly `m` bytes of memory.
pub open spec fn has_memory(m: u64) -> spec_fn(ProcView) -> bool {
    |p: ProcView| p.gpu_memory == m
}

/// `insert_desc` splits `s` at the insertion point `k`.
proof fn lemma_insert_desc_split(s: Seq<ProcView>, x: ProcView, k: int)
    requires
        0 <= k <= s.len(),
        forall|i: int| k <= i < s.len() ==> s[i].gpu_memory < x.gpu_memory,
        k > 0 ==> s[k - 1].gpu_memory >= x.gpu_memory,
    ensures
        insert_desc(s, x) == s.subrange(0, k).push(x) + s.subrange(k, s.len() as int),
    decreases s.len(),
{
    if s.len() == 0 {
        assert(insert_desc(s, x) =~= s.subrange(0, 0).push(x) + s.subrange(0, 0));
    } else if k == s.len() {
        assert(insert_desc(s, x) =~= s.subrange(0, k).push(x) + s.subrange(k, s.len() as int));
    } else {
        assert(s.last().gpu_memory < x.gpu_memory);
        lemma_insert_desc_split(s.drop_last(), x, k);
        assert(insert_desc(s, x) =~= s.subrange(0, k).push(x) + s.subrange(k, s.len() as int));
    }
}

/// Inserting preserves sortedness, and adds exactly `x` to the elements.
proof fn lemma_insert_desc_sorted(s: Seq<ProcView>, x: ProcView)
    requires
        sorted_by_memory_desc(s),
    ensures
        sorted_by_memory_desc(insert_desc(s, x)),
        insert_desc(s, x).len() == s.len() + 1,
        forall|i: int|
            0 <= i < insert_desc(s, x).len() ==> (insert_desc(s, x)[i] == x || s.contains(
                insert_desc(s, x)[i],
            )),
    decreases s.len(),
{
    if s.len() == 0 {
    } else if s.last().gpu_memory >= x.gpu_memory {
        assert forall|i: int| 0 <= i < s.len() implies s[i].gpu_memory >= x.gpu_memory by {
            assert(s[i].gpu_memory >= s[s.len() - 1].gpu_memory);
        }
    } else {
        let inner = insert_desc(s.drop_last(), x);
        assert(sorted_by_memory_desc(s.drop_last()));
        lemma_insert_desc_sorted(s.drop_last(), x);
        assert forall|i: int| 0 <= i < inner.len() implies inner[i].gpu_memory
            >= s.last().gpu_memory by {
            if inner[i] == x {
            } else {
                let j = choose|j: int| 0 <= j < s.drop_last().len() && s.drop_last()[j] == inner[i];
                assert(s[j].gpu_memory >= s[s.len() - 1].gpu_memory);
            }
        }
        assert forall|i: int|
            0 <= i < insert_desc(s, x).len() implies (insert_desc(s, x)[i] == x || s.contains(
            insert_desc(s, x)[i],
        )) by {
            if i < inner.len() {
                if inner[i] != x {
                    let j = choose|j: int|
                        0 <= j < s.drop_last().len() && s.drop_last()[j] == inner[i];
                    assert(s[j] == insert_desc(s, x)[i]);
                }
            } else {
                assert(insert_desc(s, x)[i] == s[s.len() - 1]);
            }
        }
    }
}

/// Inserting adds exactly one copy of `x` to the multiset of records.
proof fn lemma_insert_desc_multiset(s: Seq<ProcView>, x: ProcView)
    ensures
        insert_desc(s, x).to_multiset() =~= s.to_multiset().insert(x),
    decreases s.len(),
{
    broadcast use vstd::seq_lib::group_to_multiset_ensures;

    if s.len() == 0 {
        assert(s =~= Seq::<ProcView>::empty());
        assert(seq![x] =~= s.push(x));
        assert(s.push(x).to_multiset() =~= s.to_multiset().insert(x));
    } else if s.last().gpu_memory >= x.gpu_memory {
    } else {
        lemma_insert_desc_multiset(s.drop_last(), x);
        assert(s.drop_last().push(s.last()) =~= s);
        assert(insert_desc(s, x).to_multiset() =~= insert_desc(s.drop_last(), x).to_multiset().insert(
            s.last(),
        ));
        assert(s.to_multiset() =~= s.drop_last().to_multiset().insert(s.last()));
    }
}

/// How inserting affects the subsequence of records with memory `m`:
/// a record with memory `m` is appended to that subsequence, a record
/// with any other memory leaves it unchanged.
proof fn lemma_insert_desc_filter(s: Seq<ProcView>, x: ProcView, m: u64)
    ensures
        x.gpu_memory == m ==> insert_desc(s, x).filter(has_memory(m)) == s.filter(
            has_memory(m),
        ).push(x),
        x.gpu_memory != m ==> insert_desc(s, x).filter(has_memory(m)) == s.filter(has_memory(m)),
    decreases s.len(),
{
    reveal(Seq::filter);
    let pred = has_memory(m);
    if s.len() == 0 {
        assert(seq![x].drop_last() =~= s);
        assert(seq![x].last() == x);
    } else if s.last().gpu_memory >= x.gpu_memory {
        assert(s.push(x).drop_last() =~= s);
    } else {
        let inner = insert_desc(s.drop_last(), x);
        lemma_insert_desc_filter(s.drop_last(), x, m);
        assert(inner.push(s.last()).drop_last() =~= inner);
        assert(insert_desc(s, x).filter(pred) == if pred(s.last()) {
            inner.filter(pred).push(s.last())
        } else {
            inner.filter(pred)
        });
        if x.gpu_memory == m {
            assert(!pred(s.last()));
            assert(s.filter(pred) == s.drop_last().filter(pred));
        }
    }
}

/// The sorted list is ordered by memory, largest first.
pub proof fn lemma_sort_desc_sorted(s: Seq<ProcView>)
    ensures
        sorted_by_memory_desc(sort_desc(s)),
        sort_desc(s).len() == s.len(),
    decreases s.len(),
{
    if s.len() > 0 {
        lemma_sort_desc_sorted(s.drop_last());
        lemma_insert_desc_sorted(sort_desc(s.drop_last()), s.last());
    }
}

/// Sorting permutes the records: the multiset of records is unchanged.
pub proof fn lemma_sort_desc_permutes(s: Seq<ProcView>)
    ensures
        sort_desc(s).to_multiset() =~= s.to_multiset(),
    decreases s.len(),
{
    broadcast use vstd::seq_lib::group_to_multiset_ensures;

    if s.len() > 0 {
        lemma_sort_desc_permutes(s.drop_last());
        lemma_insert_desc_multiset(sort_desc(s.drop_last()), s.last());
        assert(s.drop_last().push(s.last()) =~= s);
        assert(s.to_multiset() =~= s.drop_last().to_multiset().insert(s.last()));
    }
}

/// Sorting is stable: for every memory value `m`, the records reporting
/// exactly `m` bytes appear in the sorted list in the same order as in
/// the input.
pub proof fn lemma_sort_desc_stable(s: Seq<ProcView>, m: u64)
    ensures
        sort_desc(s).filter(has_memory(m)) == s.filter(has_memory(m)),
    decreases s.len(),
{
    reveal(Seq::filter);
    let pred = has_memory(m);
    if s.len() > 0 {
        lemma_sort_desc_stable(s.drop_last(), m);
        lemma_insert_desc_filter(sort_desc(s.drop_last()), s.last(), m);
        assert(s.filter(pred) == if pred(s.last()) {
            s.drop_last().filter(pred).push(s.last())
        } else {
            s.drop_last().filter(pred)
        });
    }
}

/// Inserts `x` into `out` before the trailing run of records with
/// strictly smaller memory, matching `insert_desc`.
fn insert_by_memory(out: &mut Vec<GpuProcess>, x: GpuProcess)
    ensures
        final(out).deep_view() == insert_desc(old(out).deep_view(), x.deep_view()),
{
    let ghost s = old(out).deep_view();
    let mut k: usize = out.len();
    while k > 0 && out[k - 1].gpu_memory < x.gpu_memory
        invariant
            0 <= k <= out.len(),
            out.deep_view() == s,
            s.len() == out.len(),
            forall|i: int| k <= i < s.len() ==> s[i].gpu_memory < x.gpu_memory,
        decreases k,
    {
        assert(s[k - 1] == out@[k - 1].deep_view());
        k -= 1;
    }
    proof {
        assert(k > 0 ==> s[k - 1].gpu_memory == out@[k - 1].gpu_memory);
        lemma_insert_desc_split(s, x.deep_view(), k as int);
    }
    out.insert(k, x);
    proof {
        assert(out.deep_view() =~= s.subrange(0, k as int).push(x.deep_view()) + s.subrange(
            k as int,
            s.len() as int,
        ));
    }
}

/// Sorts the process list by attributed memory, largest first, with the
/// stable insertion order fixed by `sort_desc`.
pub fn sort_processes_by_memory(list: Vec<GpuProcess>) -> (r: Vec<GpuProcess>)
    ensures
        r.deep_view() == sort_desc(list.deep_view()),
{
    let ghost orig = list.deep_view();
    let mut rest = list;
    let mut out: Vec<GpuProcess> = Vec::new();
    let ghost mut i: int = 0;
    while rest.len() > 0
        invariant
            0 <= i <= orig.len(),
            i + rest.len() == orig.len(),
            rest.deep_view() =~= orig.subrange(i, orig.len() as int),
            out.deep_view() == sort_desc(orig.subrange(0, i)),
        decreases rest.len(),
    {
        let ghost rest_pre = rest.deep_view();
        let ghost rv = rest@;
        let x = rest.remove(0);
        proof {
            assert(x.deep_view() == rest_pre[0]);
            assert(rest_pre[0] == orig[i]);
            assert forall|j: int| 0 <= j < rest.deep_view().len() implies #[trigger] rest.deep_view()[j]
                == rest_pre[j + 1] by {
                assert(rest@[j] == rv[j + 1]);
            }
            assert(rest.deep_view() =~= orig.subrange(i + 1, orig.len() as int));
            let sub = orig.subrange(0, i + 1);
            assert(sub.drop_last() =~= orig.subrange(0, i));
            assert(sub.last() == orig[i]);
        }
        insert_by_memory(&mut out, x);
        proof {
            i = i + 1;
            assert(out.deep_view() == sort_desc(orig.subrange(0, i)));
        }
    }
    proof {
        assert(orig.subrange(0, orig.len() as int) =~= orig);
    }
    out
}

} // verus!
