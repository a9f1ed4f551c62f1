use vstd::prelude::*;
use crate::cell::{Inner, Weak, unlocked, lemma_identity, slot_wf, room_for_owner,
    release_step, add_owner_step, promotable};

verus! {

/// The allocator this pointer lives on, made explicit: a row of slots, one
/// per allocation. A slot holds `Some` cell while that allocation is live and
/// `None` once it has been deallocated; slots are never reused, so an
/// allocation's address (its index) stays valid to look at — though not to
/// promote from — after the cell is gone.
pub struct Heap<T> {
    pub slots: Vec<Option<Inner<T>>>,
}

/// An owning handle: conceptually owns one unit of the cell's reference
/// count, and keeps the cell allocated for as long as it is not released.
pub struct Arc {
    pub ptr: usize,
}

impl<T> Heap<T> {
    /// Every slot satisfies the between-operations invariant: live cells are
    /// unlocked and owned by at least one handle.
    pub open spec fn wf(self) -> bool {
        forall|i: int| 0 <= i < self.slots@.len() ==> slot_wf(#[trigger] self.slots@[i])
    }

    /// The slot an address refers to.
    pub open spec fn slot(self, ptr: usize) -> Option<Inner<T>>
        recommends
            ptr < self.slots@.len(),
    {
        self.slots@[ptr as int]
    }

    /// An empty heap: no allocations yet.
    pub fn new() -> (h: Heap<T>)
        ensures
            h.slots@.len() == 0,
            h.wf(),
    {
        Heap { slots: Vec::new() }
    }
}

impl Arc {
    /// The handle refers to a still-allocated cell of the heap. Every handle
    /// that has not been released owns a unit of the count, so its cell is
    /// live; this is the obligation a caller carries per handle.
    pub open spec fn owns<T>(self, heap: Heap<T>) -> bool {
        self.ptr < heap.slots@.len() && heap.slot(self.ptr) is Some
    }

    /// Construct the first owning handle to a fresh cell: sample an identity,
    /// clear its lock flag, and allocate a cell with a count of one. Nothing
    /// is promised of the identity's value — it comes from a random source —
    /// beyond its lock flag being clear.
    pub fn new<T>(heap: &mut Heap<T>, val: T) -> (a: Arc)
        requires
            old(heap).wf(),
        ensures
            final(heap).wf(),
            a.ptr == old(heap).slots@.len(),
            final(heap).slots@.len() == old(heap).slots@.len() + 1,
            forall|i: int| 0 <= i < old(heap).slots@.len()
                ==> final(heap).slots@[i] == old(heap).slots@[i],
            final(heap).slot(a.ptr) matches Some(inner)
                && inner.ref_count == 1
                && inner.data == val
                && unlocked(inner.provenance),
            a.owns(*final(heap)),
    {
        let sampled: usize = sample_identity();
        let provenance: usize = sampled ^ (sampled & 1);  // clear the lock flag
        proof {
            lemma_identity(sampled);
        }
        let ptr: usize = heap.slots.len();
        heap.slots.push(Some(Inner { provenance, ref_count: 1, data: val }));
        proof {
            assert forall|i: int| 0 <= i < heap.slots@.len()
                implies slot_wf(#[trigger] heap.slots@[i]) by {
                if i < old(heap).slots@.len() {
                    assert(heap.slots@[i] == old(heap).slots@[i]);
                }
            }
        }
        Arc { ptr }
    }

    /// Clone an owning handle: one more unit of the count, nothing else of
    /// the heap changes. No lock is needed — the cloning handle itself holds
    /// a unit, so the count is positive and the cell cannot be freed.
    pub fn clone<T>(&self, heap: &mut Heap<T>) -> (a: Arc)
        requires
            old(heap).wf(),
            self.owns(*old(heap)),
            room_for_owner(old(heap).slot(self.ptr)),
        ensures
            final(heap).wf(),
            final(heap).slots@ == old(heap).slots@.update(
                self.ptr as int,
                add_owner_step(old(heap).slot(self.ptr)),
            ),
            a.ptr == self.ptr,
            a.owns(*final(heap)),
            self.owns(*final(heap)),
    {
        match &mut heap.slots[self.ptr] {
            Some(inner) => {
                inner.increment();
            },
            None => {},
        }
        Arc { ptr: self.ptr }
    }

    /// Release an owning handle, consuming it; this is each handle's one
    /// end-of-life step. With other owners remaining only the count drops;
    /// the handle that drives the count to zero takes the lock for the cell's
    /// identity, confirms the count is still zero under it, scrubs the
    /// generation word and deallocates the cell, dropping the payload.
    pub fn release<T>(self, heap: &mut Heap<T>)
        requires
            old(heap).wf(),
            self.owns(*old(heap)),
        ensures
            final(heap).wf(),
            final(heap).slots@ == old(heap).slots@.update(
                self.ptr as int,
                release_step(old(heap).slot(self.ptr)),
            ),
            final(heap).slot(self.ptr) is None <==> old(heap).slot(self.ptr).unwrap().ref_count == 1,
    {
        let ptr: usize = self.ptr;
        let mut deallocate: bool = false;
        match &mut heap.slots[ptr] {
            Some(inner) => {
                // read the identity before the decrement: once the count may
                // be zero, a racing deallocation could invalidate the cell.
                let exp: usize = inner.provenance;
                let exp: usize = exp ^ (exp & 1);
                proof {
                    lemma_identity(inner.provenance);
                }
                if inner.decrement() > 1 {
                    // other owners remain; nothing more to do
                } else if !inner.lock(exp) {
                    // the identity moved on: some other handle already
                    // deallocated the cell (a racing promotion and release
                    // can finish first); never touch the memory again
                } else if inner.ref_count != 0 {
                    // a promotion slipped in between the decrement and the
                    // lock and resurrected the cell; its own release will
                    // deallocate, so just leave the critical section
                    inner.unlock(exp);
                } else {
                    // zero confirmed under the lock: scrub the generation
                    // word, then free the block
                    proof {
                        assert(unlocked(0)) by (bit_vector);
                    }
                    inner.unlock(0);
                    deallocate = true;
                }
            },
            None => {},
        }
        if deallocate {
            let slot = &mut heap.slots[ptr];
            *slot = None;
        }
        proof {
            assert(heap.slots@ =~= old(heap).slots@.update(
                ptr as int,
                release_step(old(heap).slot(ptr)),
            ));
        }
    }

    /// Read the payload through an owning handle. The layer above exposes the
    /// value read-only; interior mutation is no business of this pointer.
    pub fn get<'a, T>(&self, heap: &'a Heap<T>) -> (r: &'a T)
        requires
            self.owns(*heap),
        ensures
            *r == heap.slot(self.ptr).unwrap().data,
    {
        let inner = heap.slots[self.ptr].as_ref().unwrap();
        &inner.data
    }

    /// Derive a non-owning handle from a live owning one: the cell's address
    /// paired with a snapshot of its identity.
    pub fn downgrade<T>(this: &Arc, heap: &Heap<T>) -> (w: Weak)
        requires
            heap.wf(),
            this.owns(*heap),
        ensures
            w.ptr == this.ptr,
            w.provenance == heap.slot(this.ptr).unwrap().provenance,
            promotable(heap.slot(this.ptr), w.provenance),
    {
        let inner = heap.slots[this.ptr].as_ref().unwrap();
        proof {
            lemma_identity(inner.provenance);
        }
        inner.weak(this.ptr)
    }
}

impl Weak {
    /// Attempt promotion back to ownership. The attempt takes the cell's
    /// lock for the snapshotted identity; failure to take it means the cell
    /// has been deallocated (its generation word was scrubbed, or the
    /// identity otherwise moved on) and the attempt yields nothing. With the
    /// lock held the count is raised — from zero back to one is the
    /// resurrection case, safe only because no release can deallocate while
    /// the lock is held — and the lock is released by restoring the snapshot.
    ///
    /// Succeeds, with one more owner on the cell and nothing else changed,
    /// exactly when the cell is still allocated under the snapshotted
    /// identity; otherwise the heap is untouched.
    pub fn upgrade<T>(&self, heap: &mut Heap<T>) -> (r: Option<Arc>)
        requires
            old(heap).wf(),
            self.ptr < old(heap).slots@.len(),
            room_for_owner(old(heap).slot(self.ptr)),
        ensures
            final(heap).wf(),
            r is Some <==> promotable(old(heap).slot(self.ptr), self.provenance),
            r matches Some(a) ==> a.ptr == self.ptr && a.owns(*final(heap))
                && final(heap).slots@ == old(heap).slots@.update(
                    self.ptr as int,
                    add_owner_step(old(heap).slot(self.ptr)),
                ),
            r is None ==> final(heap).slots@ == old(heap).slots@,
    {
        let exp: usize = self.provenance;
        let mut promoted: bool = false;
        match &mut heap.slots[self.ptr] {
            Some(inner) => {
                if inner.lock(exp) {
                    inner.increment();
                    // leave the critical section: store the identity with
                    // the lock flag clear
                    inner.unlock(exp);
                    promoted = true;
                }
            },
            None => {},
        }
        proof {
            if !promoted {
                assert(heap.slots@ =~= old(heap).slots@);
            }
        }
        if promoted {
            Some(Arc { ptr: self.ptr })
        } else {
            None
        }
    }
}

/// Relies on rand::random: a freshly sampled machine word from the
/// thread-local generator, standing in for the external high-entropy identity
/// source. Nothing is assumed of the value.
#[verifier::external_body]
fn sample_identity() -> (r: usize) {
    rand::random::<u64>() as usize
}

} // verus!
