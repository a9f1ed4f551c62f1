use vstd::prelude::*;
use crate::cell::{Inner, release_step, add_owner_step, promotable};

verus! {

/// The slot after `k` owning handles have been released, one after another.
pub open spec fn release_n<T>(s: Option<Inner<T>>, k: nat) -> Option<Inner<T>>
    decreases k,
{
    if k == 0 {
        s
    } else {
        release_step(release_n(s, (k - 1) as nat))
    }
}

/// Lifecycle soundness: on a cell owned by `n` handles, the first `n - 1`
/// releases leave the cell allocated with its payload and identity untouched,
/// and the `n`-th release — no earlier one — deallocates it, dropping the
/// payload exactly once, after the last owner is gone.
pub proof fn lemma_lifecycle<T>(s: Option<Inner<T>>, k: nat)
    requires
        s matches Some(inner) && inner.ref_count >= 1,
        k <= s.unwrap().ref_count,
    ensures
        k < s.unwrap().ref_count ==> (release_n(s, k) matches Some(inner)
            && inner.ref_count == s.unwrap().ref_count - k
            && inner.data == s.unwrap().data
            && inner.provenance == s.unwrap().provenance),
        k == s.unwrap().ref_count ==> release_n(s, k) is None,
    decreases k,
{
    if k > 0 {
        lemma_lifecycle(s, (k - 1) as nat);
    }
}

/// One step the set of owning handles of a cell can take: gaining an owner
/// (a clone of a live handle, or a successful promotion) or releasing one.
pub enum HandleOp {
    AddOwner,
    Release,
}

/// How one step moves a slot.
pub open spec fn apply_op<T>(s: Option<Inner<T>>, op: HandleOp) -> Option<Inner<T>> {
    match op {
        HandleOp::AddOwner => add_owner_step(s),
        HandleOp::Release => release_step(s),
    }
}

/// The slot after a whole sequence of steps, applied in order.
pub open spec fn apply_ops<T>(s: Option<Inner<T>>, ops: Seq<HandleOp>) -> Option<Inner<T>>
    decreases ops.len(),
{
    if ops.len() == 0 {
        s
    } else {
        apply_ops(apply_op(s, ops[0]), ops.drop_first())
    }
}

/// The number of outstanding owning handles after a sequence of steps,
/// starting from `n` of them.
pub open spec fn outstanding(n: int, ops: Seq<HandleOp>) -> int
    decreases ops.len(),
{
    if ops.len() == 0 {
        n
    } else {
        outstanding(n + (if ops[0] is AddOwner { 1int } else { -1int }), ops.drop_first())
    }
}

/// A sequence of steps that handles can actually perform against a cell with
/// `n` outstanding owners: every step happens while some owning handle is
/// still outstanding (a clone needs a live handle to clone, a release a live
/// handle to release, and a promotion must find the cell allocated), and a
/// gained owner must fit the count's machine width.
pub open spec fn feasible(n: int, ops: Seq<HandleOp>) -> bool
    decreases ops.len(),
{
    ops.len() > 0 ==> {
        &&& n >= 1
        &&& ops[0] is AddOwner ==> n < usize::MAX
        &&& feasible(n + (if ops[0] is AddOwner { 1int } else { -1int }), ops.drop_first())
    }
}

/// Lifecycle soundness over arbitrary interleavings: however clones,
/// promotions and releases of the handles of one cell are ordered, the cell
/// stays allocated — payload and identity untouched, count equal to the
/// number of outstanding handles — for as long as any handle is outstanding,
/// and the release that lets the last one go deallocates it, dropping the
/// payload exactly once.
pub proof fn lemma_lifecycle_trace<T>(s: Option<Inner<T>>, ops: Seq<HandleOp>)
    requires
        s matches Some(inner) && inner.ref_count >= 1,
        feasible(s.unwrap().ref_count as int, ops),
    ensures
        outstanding(s.unwrap().ref_count as int, ops) >= 1 ==> (apply_ops(s, ops) matches Some(inner)
            && inner.ref_count == outstanding(s.unwrap().ref_count as int, ops)
            && inner.data == s.unwrap().data
            && inner.provenance == s.unwrap().provenance),
        outstanding(s.unwrap().ref_count as int, ops) == 0 ==> apply_ops(s, ops) is None,
        outstanding(s.unwrap().ref_count as int, ops) >= 0,
    decreases ops.len(),
{
    if ops.len() > 0 {
        let rest = ops.drop_first();
        let n: int = s.unwrap().ref_count as int;
        let d: int = if ops[0] is AddOwner { 1 } else { -1 };
        let s1 = apply_op(s, ops[0]);
        assert(feasible(n + d, rest));
        assert(outstanding(n, ops) == outstanding(n + d, rest));
        assert(apply_ops(s, ops) == apply_ops(s1, rest));
        if n + d == 0 {
            // the first step released the last outstanding handle: the cell
            // is deallocated, and feasibility leaves no step that could
            // follow on a cell with no handles left
            assert(rest.len() == 0);
            assert(s1 is None);
        } else {
            lemma_lifecycle_trace(s1, rest);
        }
    }
}

/// Once deallocated, a cell stays deallocated: no number of further releases
/// brings it back, so the payload's cleanup cannot run a second time.
pub proof fn lemma_freed_stays_freed<T>(k: nat)
    ensures
        release_n::<T>(None, k) is None,
    decreases k,
{
    if k > 0 {
        lemma_freed_stays_freed::<T>((k - 1) as nat);
    }
}

/// Promotion correctness: whatever snapshot a non-owning handle carries, once
/// every owning handle of its cell has been released, a promotion attempt is
/// declined.
pub proof fn lemma_promotion_after_last_release<T>(s: Option<Inner<T>>, snapshot: usize)
    requires
        s matches Some(inner) && inner.ref_count >= 1,
    ensures
        !promotable(release_n(s, s.unwrap().ref_count as nat), snapshot),
{
    lemma_lifecycle(s, s.unwrap().ref_count as nat);
}

/// Resurrection correctness: a promotion taken while an owning handle is
/// still alive raises the count to at least two, so releasing that older
/// handle leaves the cell allocated under the same identity, and the same
/// snapshot still promotes.
pub proof fn lemma_repromotion<T>(s: Option<Inner<T>>, snapshot: usize)
    requires
        promotable(s, snapshot),
        s.unwrap().ref_count >= 1,
        s.unwrap().ref_count < usize::MAX,
    ensures
        promotable(add_owner_step(s), snapshot),
        promotable(release_step(add_owner_step(s)), snapshot),
{
}

} // verus!
