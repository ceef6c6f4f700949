//! The retention sweep: keep the newest posts, delete those below a boundary id.
use vstd::prelude::*;

verus! {

/// Post ids in strictly descending order, as the store lists them newest first.
pub open spec fn strictly_descending(ids: Seq<i64>) -> bool {
    forall|i: int, j: int| 0 <= i < j < ids.len() ==> ids[i] > ids[j]
}

/// The boundary post's id: the one at offset `keep - 1` from the newest, if there is one.
pub open spec fn boundary_of(ids: Seq<i64>, keep: int) -> Option<i64> {
    if keep > 0 && keep <= ids.len() {
        Some(ids[keep - 1])
    } else {
        None
    }
}

/// The ids of `ids` that are at least `b`, in order.
pub open spec fn at_least(ids: Seq<i64>, b: i64) -> Seq<i64>
    decreases ids.len(),
{
    if ids.len() == 0 {
        ids
    } else if ids.last() >= b {
        at_least(ids.drop_last(), b).push(ids.last())
    } else {
        at_least(ids.drop_last(), b)
    }
}

/// The ids left after one sweep that keeps the newest `keep`: all ids at least the
/// boundary's, or all of them where there is no boundary.
pub open spec fn retained(ids: Seq<i64>, keep: int) -> Seq<i64> {
    match boundary_of(ids, keep) {
        Some(b) => at_least(ids, b),
        None => ids,
    }
}

/// The id of the boundary post for a sweep that keeps the newest `keep_latest` posts;
/// none where `keep_latest` is zero or fewer posts exist.
pub fn retention_boundary(ids_desc: &Vec<i64>, keep_latest: u64) -> (r: Option<i64>)
    ensures
        r == boundary_of(ids_desc@, keep_latest as int),
{
    if keep_latest == 0 || keep_latest > ids_desc.len() as u64 {
        None
    } else {
        Some(ids_desc[(keep_latest - 1) as usize])
    }
}

/// The ids that one sweep keeping the newest `keep_latest` posts leaves.
pub fn retain_latest(ids_desc: &Vec<i64>, keep_latest: u64) -> (r: Vec<i64>)
    ensures
        r@ == retained(ids_desc@, keep_latest as int),
{
    match retention_boundary(ids_desc, keep_latest) {
        None => ids_desc.clone(),
        Some(b) => {
            let mut r: Vec<i64> = Vec::new();
            let mut i: usize = 0;
            while i < ids_desc.len()
                invariant
                    i <= ids_desc.len(),
                    r@ == at_least(ids_desc@.subrange(0, i as int), b),
                decreases ids_desc.len() - i,
            {
                assert(ids_desc@.subrange(0, i + 1).drop_last() =~= ids_desc@.subrange(
                    0,
                    i as int,
                ));
                if ids_desc[i] >= b {
                    r.push(ids_desc[i]);
                }
                i = i + 1;
            }
            assert(ids_desc@.subrange(0, ids_desc.len() as int) =~= ids_desc@);
            r
        },
    }
}

proof fn lemma_at_least_all(ids: Seq<i64>, b: i64)
    requires
        forall|i: int| 0 <= i < ids.len() ==> ids[i] >= b,
    ensures
        at_least(ids, b) == ids,
    decreases ids.len(),
{
    if ids.len() > 0 {
        lemma_at_least_all(ids.drop_last(), b);
        assert(ids.drop_last().push(ids.last()) =~= ids);
    }
}

proof fn lemma_at_least_prefix(ids: Seq<i64>, k: int)
    requires
        strictly_descending(ids),
        1 <= k <= ids.len(),
    ensures
        at_least(ids, ids[k - 1]) == ids.take(k),
    decreases ids.len(),
{
    if ids.len() == k {
        lemma_at_least_all(ids, ids[k - 1]);
        assert(ids.take(k) =~= ids);
    } else {
        let d = ids.drop_last();
        assert(d.take(k) =~= ids.take(k));
        lemma_at_least_prefix(d, k);
    }
}

/// After a sweep with `keep > 0`, at most `keep` posts remain, and they are exactly the
/// `keep` newest (all of them where there were fewer).
pub proof fn lemma_retention_keeps_newest(ids: Seq<i64>, keep: int)
    requires
        strictly_descending(ids),
        keep > 0,
    ensures
        retained(ids, keep).len() <= keep,
        keep <= ids.len() ==> retained(ids, keep) == ids.take(keep),
        keep > ids.len() ==> retained(ids, keep) == ids,
{
    if keep <= ids.len() {
        lemma_at_least_prefix(ids, keep);
    }
}

/// A second sweep with the same `keep` right after the first deletes nothing.
pub proof fn lemma_retention_idempotent(ids: Seq<i64>, keep: int)
    requires
        strictly_descending(ids),
    ensures
        retained(retained(ids, keep), keep) == retained(ids, keep),
{
    if keep > 0 && keep <= ids.len() {
        lemma_at_least_prefix(ids, keep);
        let t = ids.take(keep);
        assert(strictly_descending(t));
        lemma_at_least_prefix(t, keep);
        assert(t.take(keep) =~= t);
    }
}

/// A sweep with `keep == 0` deletes nothing.
pub proof fn lemma_retention_zero_keeps_all(ids: Seq<i64>)
    ensures
        boundary_of(ids, 0) is None,
        retained(ids, 0) == ids,
{
}

} // verus!
