use vstd::pervasive::unreached;
use vstd::prelude::*;

verus! {

/// A memory-ordering strength controlling the cross-thread visibility of an
/// atomic operation.
///
/// The five strengths mirror the orderings of the machine's atomic
/// instructions. Each operation of the library restricts the orderings it
/// accepts exactly as the underlying instructions do: a load rejects
/// `Release` and `AcqRel`, a store rejects `Acquire` and `AcqRel`, and
/// read-modify-write operations accept all five.
#[derive(Clone, Copy, Debug, PartialEq, Eq, Structural)]
pub enum Ordering {
    /// No cross-thread ordering beyond the atomicity of the access itself.
    Relaxed,
    /// A load with this ordering observes every write that happened before
    /// the `Release` store it reads from.
    Acquire,
    /// A store with this ordering publishes every write that happened before
    /// it to any `Acquire` load that reads it.
    Release,
    /// Acquire semantics on the read half and release semantics on the write
    /// half of a read-modify-write operation.
    AcqRel,
    /// Sequentially consistent: `AcqRel` plus a single total order over all
    /// `SeqCst` operations.
    SeqCst,
}

impl Ordering {
    /// Whether this ordering may be given to a load-only operation.
    pub open spec fn is_load_legal(self) -> bool {
        self == Ordering::Relaxed || self == Ordering::Acquire || self == Ordering::SeqCst
    }

    /// Whether this ordering may be given to a store-only operation.
    pub open spec fn is_store_legal(self) -> bool {
        self == Ordering::Relaxed || self == Ordering::Release || self == Ordering::SeqCst
    }
}

/// Canonicalizes a bidirectional ordering into the one-sided ordering legal
/// for the load-only or store-only half of a composite operation.
///
/// A caller often holds one bidirectional ordering (say `AcqRel`) for a
/// logical read-modify-write and must derive the correct one-sided ordering
/// for each of the two physical half-operations inside a composite.
pub trait OrderingExt: Sized {
    /// The ordering that [`for_load`](OrderingExt::for_load) returns.
    spec fn spec_for_load(self) -> Self;

    /// The ordering that [`for_store`](OrderingExt::for_store) returns.
    spec fn spec_for_store(self) -> Self;

    /// Whether the ordering carries a load-side half, so that
    /// [`for_load`](OrderingExt::for_load) is defined on it.
    spec fn has_load_half(self) -> bool;

    /// Whether the ordering carries a store-side half, so that
    /// [`for_store`](OrderingExt::for_store) is defined on it.
    spec fn has_store_half(self) -> bool;

    /// Converts to the appropriate ordering for a load operation.
    ///
    /// There is no such thing as a release load, so the conversion is not
    /// defined on `Release`; an unverified caller that passes it anyway is
    /// stopped with a fatal error.
    fn for_load(self) -> (r: Self)
        requires
            self.has_load_half(),
        ensures
            r == self.spec_for_load(),
    ;

    /// Converts to the appropriate ordering for a store operation.
    ///
    /// There is no such thing as an acquire store, so the conversion is not
    /// defined on `Acquire`; an unverified caller that passes it anyway is
    /// stopped with a fatal error.
    fn for_store(self) -> (r: Self)
        requires
            self.has_store_half(),
        ensures
            r == self.spec_for_store(),
    ;
}

impl OrderingExt for Ordering {
    open spec fn spec_for_load(self) -> Ordering {
        match self {
            Ordering::Relaxed => Ordering::Relaxed,
            Ordering::Acquire => Ordering::Acquire,
            Ordering::Release => Ordering::Release,
            Ordering::AcqRel => Ordering::Acquire,
            Ordering::SeqCst => Ordering::SeqCst,
        }
    }

    open spec fn spec_for_store(self) -> Ordering {
        match self {
            Ordering::Relaxed => Ordering::Relaxed,
            Ordering::Acquire => Ordering::Acquire,
            Ordering::Release => Ordering::Release,
            Ordering::AcqRel => Ordering::Release,
            Ordering::SeqCst => Ordering::SeqCst,
        }
    }

    open spec fn has_load_half(self) -> bool {
        self != Ordering::Release
    }

    open spec fn has_store_half(self) -> bool {
        self != Ordering::Acquire
    }

    fn for_load(self) -> (r: Self) {
        match self {
            Ordering::Relaxed => Ordering::Relaxed,
            Ordering::Acquire => Ordering::Acquire,
            Ordering::Release => unreached(),
            Ordering::AcqRel => Ordering::Acquire,
            Ordering::SeqCst => Ordering::SeqCst,
        }
    }

    fn for_store(self) -> (r: Self) {
        match self {
            Ordering::Relaxed => Ordering::Relaxed,
            Ordering::Acquire => unreached(),
            Ordering::Release => Ordering::Release,
            Ordering::AcqRel => Ordering::Release,
            Ordering::SeqCst => Ordering::SeqCst,
        }
    }
}

} // verus!
