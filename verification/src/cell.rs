use vstd::prelude::*;

verus! {

/// A generation word is unlocked when its low bit, the lock flag, is clear.
pub open spec fn unlocked(p: usize) -> bool {
    p & 1 == 0
}

/// The identity bits of a generation word: the word with its lock flag cleared.
pub open spec fn identity(p: usize) -> usize {
    p ^ (p & 1)
}

/// Clearing the lock flag always yields an unlocked word, and leaves a word
/// that was already unlocked untouched.
pub proof fn lemma_identity(p: usize)
    by (bit_vector)
    ensures
        unlocked(identity(p)),
        unlocked(p) ==> identity(p) == p,
{
}

/// The heap block behind one allocation: the payload plus the two control
/// words of the protocol.
///
/// The low bit of `provenance` is a spin-lock flag; the remaining bits are an
/// identity stamp sampled at construction, used to tell this allocation's
/// lifetime apart from any later one. `ref_count` counts the live owning
/// handles; the cell must stay allocated exactly while it is positive.
pub struct Inner<T> {
    pub provenance: usize,
    pub ref_count: usize,
    pub data: T,
}

/// A non-owning handle: the address of a cell paired with a snapshot of the
/// cell's identity at derivation time (lock flag cleared). It keeps nothing
/// alive; its one capability is an attempt at promotion back to ownership.
#[derive(Clone, Copy)]
pub struct Weak {
    pub provenance: usize,
    pub ptr: usize,
}

impl<T> Inner<T> {
    /// Derive a non-owning handle: snapshot the identity bits of the current
    /// generation word, so that a snapshot taken while some critical section
    /// happens to hold the lock still records the pre-lock identity.
    pub fn weak(&self, ptr: usize) -> (w: Weak)
        ensures
            w.provenance == identity(self.provenance),
            unlocked(w.provenance),
            w.ptr == ptr,
    {
        let provenance: usize = self.provenance;
        let provenance: usize = provenance ^ (provenance & 1);  // clear the lock flag
        proof {
            lemma_identity(self.provenance);
        }
        Weak { provenance, ptr }
    }

    /// Try to take the one-word spin lock for the identity `exp`: succeed
    /// exactly when the generation word still equals the expected identity,
    /// and fail when the identity has moved on. A word of `exp | 1` would mean
    /// another critical section is pending for the same identity; between
    /// operations every cell is unlocked, so here the contended retry of the
    /// protocol resolves at once and no spin is needed.
    pub fn lock(&mut self, exp: usize) -> (r: bool)
        requires
            unlocked(old(self).provenance),
        ensures
            r == (old(self).provenance == exp),
            r ==> *final(self) == (Inner { provenance: exp | 1, ..*old(self) }),
            !r ==> *final(self) == *old(self),
    {
        if self.provenance == exp {
            self.provenance = exp | 1;
            true
        } else {
            false
        }
    }

    /// Leave a critical section by storing an unlocked generation word. A
    /// plain store suffices: the caller is the sole lock holder.
    pub fn unlock(&mut self, word: usize)
        requires
            unlocked(word),
        ensures
            *final(self) == (Inner { provenance: word, ..*old(self) }),
    {
        self.provenance = word;
    }

    /// Add one owning handle to the count.
    pub fn increment(&mut self)
        requires
            old(self).ref_count < usize::MAX,
        ensures
            *final(self) == (Inner { ref_count: (old(self).ref_count + 1) as usize, ..*old(self) }),
    {
        self.ref_count = self.ref_count + 1;
    }

    /// Remove one owning handle from the count; returns the count as it stood
    /// before the decrement, as the releasing thread must act on that value.
    pub fn decrement(&mut self) -> (prev: usize)
        requires
            old(self).ref_count >= 1,
        ensures
            prev == old(self).ref_count,
            *final(self) == (Inner { ref_count: (old(self).ref_count - 1) as usize, ..*old(self) }),
    {
        let prev: usize = self.ref_count;
        self.ref_count = prev - 1;
        prev
    }
}

/// What one slot of the heap must satisfy between operations: a live cell is
/// unlocked (no critical section outlives the operation that opened it) and
/// owned by at least one handle (a cell whose count reached zero is freed
/// before the releasing operation returns).
pub open spec fn slot_wf<T>(s: Option<Inner<T>>) -> bool {
    s matches Some(inner) ==> unlocked(inner.provenance) && inner.ref_count >= 1
}

/// Whether one more owning handle fits in a slot's count; a machine limit,
/// not a rule of the protocol.
pub open spec fn room_for_owner<T>(s: Option<Inner<T>>) -> bool {
    s matches Some(inner) ==> inner.ref_count < usize::MAX
}

/// How a slot moves when one owning handle is released: with other owners
/// remaining the count drops by one and the cell stays; when the last owner
/// goes, the cell is deallocated and its payload dropped with it.
pub open spec fn release_step<T>(s: Option<Inner<T>>) -> Option<Inner<T>> {
    match s {
        Some(inner) => if inner.ref_count > 1 {
            Some(Inner { ref_count: (inner.ref_count - 1) as usize, ..inner })
        } else {
            None
        },
        None => None,
    }
}

/// How a slot moves when it gains one owning handle, by a clone of an owner
/// or by a successful promotion: the count rises by one and nothing else of
/// the cell changes. A freed slot cannot gain an owner.
pub open spec fn add_owner_step<T>(s: Option<Inner<T>>) -> Option<Inner<T>> {
    match s {
        Some(inner) => Some(Inner { ref_count: (inner.ref_count + 1) as usize, ..inner }),
        None => None,
    }
}

/// Whether a promotion attempt carrying the snapshot `snapshot` is accepted
/// by a slot: the cell must still be allocated and its generation word must
/// still equal the snapshot, i.e. the identity has not moved on.
pub open spec fn promotable<T>(s: Option<Inner<T>>, snapshot: usize) -> bool {
    s matches Some(inner) && inner.provenance == snapshot
}

} // verus!
