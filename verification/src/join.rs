//! Ordering the fan-out's results.
//!
//! Every configured command is launched as an independent concurrent task
//! that knows its declared position; the tasks complete in whatever order
//! the host pleases, and each completion hands back its position with its
//! run result. This module places every result at its declared position,
//! so that the document's section order is the configuration's declared
//! order for any interleaving of completion times — which is proved below,
//! not just asserted.

use vstd::prelude::*;
use crate::runner::RunError;

verus! {

/// The result the join assigns to declared position `i`: that of the
/// latest completion reporting position `i`, if any completion does.
pub open spec fn result_at(completed: Seq<(usize, Result<String, RunError>)>, i: int) -> Option<
    Result<String, RunError>,
>
    decreases completed.len(),
{
    if completed.len() == 0 {
        None
    } else if completed.last().0 == i {
        Some(completed.last().1)
    } else {
        result_at(completed.drop_last(), i)
    }
}

/// No two completions report the same declared position. The fan-out
/// guarantees this: it launches one task per position.
pub open spec fn distinct_positions(completed: Seq<(usize, Result<String, RunError>)>) -> bool {
    forall|j: int, k: int|
        0 <= j < k < completed.len() ==> (#[trigger] completed[j]).0 != (#[trigger] completed[k]).0
}

/// Place the fanned-out results at their declared positions. `completed`
/// holds one (position, run result) pair per completion, in completion
/// order; the join yields, for each declared position below `n`, the
/// result reported for it — or nothing at all if some position never
/// completed. Positions at `n` or above are ignored.
pub fn join_by_position(n: usize, completed: Vec<(usize, Result<String, RunError>)>) -> (r: Option<
    Vec<Result<String, RunError>>,
>)
    ensures
        r is Some <==> (forall|i: int| 0 <= i < n ==> result_at(completed@, i) is Some),
        r matches Some(v) ==> v@.len() == n && (forall|i: int|
            0 <= i < n ==> Some(#[trigger] v@[i]) == result_at(completed@, i)),
{
    let ghost all = completed@;
    let mut rest = completed;
    let total = rest.len();
    proof {
        assert(all.len() == total);
    }
    let mut slots: Vec<Option<Result<String, RunError>>> = Vec::new();
    let mut k: usize = 0;
    while k < n
        invariant
            k <= n,
            slots@.len() == k,
            forall|i: int| 0 <= i < k ==> (#[trigger] slots@[i]) is None,
        decreases n - k,
    {
        slots.push(None);
        k = k + 1;
    }
    let mut j: usize = 0;
    while rest.len() > 0
        invariant
            all == completed@,
            all.len() == total,
            all.len() == j + rest@.len(),
            rest@ =~= all.skip(j as int),
            slots@.len() == n,
            forall|i: int|
                0 <= i < n ==> opt_result(#[trigger] slots@[i]) == result_at(
                    all.take(j as int),
                    i,
                ),
        decreases rest@.len(),
    {
        let (pos, res) = rest.remove(0);
        proof {
            assert(all.skip(j as int)[0] == all[j as int]);
            assert(rest@ =~= all.skip(j as int + 1));
            assert(all.take(j as int + 1).drop_last() =~= all.take(j as int));
            assert(all.take(j as int + 1).last() == all[j as int]);
        }
        if pos < n {
            slots.set(pos, Some(res));
        }
        j = j + 1;
    }
    proof {
        assert(all.take(j as int) =~= all);
    }
    let ghost filled = slots@;
    let mut ordered: Vec<Result<String, RunError>> = Vec::new();
    let mut i: usize = 0;
    while slots.len() > 0
        invariant
            all == completed@,
            filled.len() == n,
            n == i + slots@.len(),
            slots@ =~= filled.skip(i as int),
            forall|p: int| 0 <= p < n ==> opt_result(#[trigger] filled[p]) == result_at(all, p),
            ordered@.len() == i,
            forall|p: int|
                0 <= p < i ==> Some(#[trigger] ordered@[p]) == result_at(all, p),
        decreases slots@.len(),
    {
        let next = slots.remove(0);
        proof {
            assert(filled.skip(i as int)[0] == filled[i as int]);
            assert(slots@ =~= filled.skip(i as int + 1));
        }
        match next {
            Some(res) => {
                ordered.push(res);
                i = i + 1;
            },
            None => {
                proof {
                    assert(result_at(all, i as int) is None);
                }
                return None;
            },
        }
    }
    proof {
        assert forall|p: int| 0 <= p < n implies result_at(completed@, p) is Some by {
            assert(Some(ordered@[p]) == result_at(all, p));
        }
    }
    Some(ordered)
}

/// The contents of one slot, as the result it holds, if any.
pub open spec fn opt_result(slot: Option<Result<String, RunError>>) -> Option<
    Result<String, RunError>,
> {
    match slot {
        Option::None => None,
        Option::Some(r) => Some(r),
    }
}

/// With distinct positions, the result at position `i` is exactly that of
/// the unique completion reporting `i`, wherever it stands in completion
/// order.
pub proof fn lemma_result_at_unique(completed: Seq<(usize, Result<String, RunError>)>, i: int)
    requires
        distinct_positions(completed),
    ensures
        (result_at(completed, i) is Some) <==> (exists|j: int|
            0 <= j < completed.len() && (#[trigger] completed[j]).0 == i),
        forall|j: int|
            0 <= j < completed.len() && (#[trigger] completed[j]).0 == i ==> result_at(completed, i)
                == Some(completed[j].1),
    decreases completed.len(),
{
    if completed.len() > 0 {
        let t = completed.drop_last();
        assert(distinct_positions(t));
        lemma_result_at_unique(t, i);
        assert forall|j: int|
            0 <= j < completed.len() && (#[trigger] completed[j]).0 == i implies result_at(
            completed,
            i,
        ) == Some(completed[j].1) by {
            if completed.last().0 == i {
                if j < completed.len() - 1 {
                    assert(completed[j].0 != completed[completed.len() - 1].0);
                }
            } else {
                assert(j < completed.len() - 1);
                assert(t[j] == completed[j]);
            }
        }
    }
}

/// Completion order cannot influence the join: two completion sequences
/// made of the same (position, result) pairs, in whatever orders, assign
/// the same result to every declared position.
pub proof fn lemma_join_completion_order_irrelevant(
    c1: Seq<(usize, Result<String, RunError>)>,
    c2: Seq<(usize, Result<String, RunError>)>,
)
    requires
        distinct_positions(c1),
        distinct_positions(c2),
        c1.to_set() == c2.to_set(),
    ensures
        forall|i: int| #[trigger] result_at(c1, i) == result_at(c2, i),
{
    assert forall|i: int| #[trigger] result_at(c1, i) == result_at(c2, i) by {
        lemma_result_at_unique(c1, i);
        lemma_result_at_unique(c2, i);
        if result_at(c1, i) is Some {
            let j = choose|j: int| 0 <= j < c1.len() && (#[trigger] c1[j]).0 == i;
            assert(c1.contains(c1[j]));
            assert(c2.to_set().contains(c1[j]));
            let k = choose|k: int| 0 <= k < c2.len() && c2[k] == c1[j];
            assert(c2[k].0 == i);
        } else if result_at(c2, i) is Some {
            let j = choose|j: int| 0 <= j < c2.len() && (#[trigger] c2[j]).0 == i;
            assert(c2.contains(c2[j]));
            assert(c1.to_set().contains(c2[j]));
            let k = choose|k: int| 0 <= k < c1.len() && c1[k] == c2[j];
            assert(c1[k].0 == i);
        }
    }
}

/// For a fixed configuration, the document's section order is the declared
/// order for any interleaving of completion times: joins of two completion
/// sequences made of the same (position, result) pairs agree position by
/// position, so the assembled documents — pure functions of the joined
/// results — are the same.
pub proof fn lemma_joined_results_equal(
    c1: Seq<(usize, Result<String, RunError>)>,
    c2: Seq<(usize, Result<String, RunError>)>,
    v1: Seq<Result<String, RunError>>,
    v2: Seq<Result<String, RunError>>,
)
    requires
        distinct_positions(c1),
        distinct_positions(c2),
        c1.to_set() == c2.to_set(),
        v1.len() == v2.len(),
        forall|i: int| 0 <= i < v1.len() ==> Some(#[trigger] v1[i]) == result_at(c1, i),
        forall|i: int| 0 <= i < v2.len() ==> Some(#[trigger] v2[i]) == result_at(c2, i),
    ensures
        v1 =~= v2,
{
    lemma_join_completion_order_irrelevant(c1, c2);
    assert forall|i: int| 0 <= i < v1.len() implies v1[i] == v2[i] by {
        assert(Some(v1[i]) == result_at(c1, i));
        assert(Some(v2[i]) == result_at(c2, i));
        assert(result_at(c1, i) == result_at(c2, i));
    }
}

} // verus!
