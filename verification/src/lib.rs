//! A shared-ownership pointer with generation-tagged observer handles,
//! modelled over an explicit heap of cells.
//!
//! An owning handle keeps a heap cell alive through its reference count; a
//! non-owning handle snapshots the cell's generation identity and may later
//! try to promote itself back to ownership, succeeding exactly while the cell
//! has not been deallocated. The race between final release and promotion is
//! serialized by a one-word lock: the low bit of the generation word.

mod cell;
mod heap;
mod laws;

pub use cell::{Inner, Weak};
pub use heap::{Heap, Arc};
pub use cell::{unlocked, identity, slot_wf, room_for_owner, release_step, add_owner_step,
    promotable, lemma_identity};
pub use laws::{release_n, lemma_lifecycle, lemma_freed_stays_freed, HandleOp, apply_op,
    apply_ops, outstanding, feasible, lemma_lifecycle_trace,
    lemma_promotion_after_last_release, lemma_repromotion};
