//! Atomic containers over packable value types, with verified contracts.
//!
//! A value type chooses a primitive machine-word representation — its *atom* —
//! through the [`Atomizable`] trait, and the generic [`Atomic`] container holds
//! one such word and exposes the atomic operation surface (load, store, swap,
//! compare-exchange, fetch-update, and, where the atom supports them, bitwise
//! and integer fetch-operations) in terms of the value type itself.
//!
//! On top of the container sit [`option::AtomicOption`], a lock-free
//! single-slot optional value built from a presence flag and a value slot with
//! a write-value-then-write-flag publication discipline, and
//! [`CancellationToken`], a monotonic cooperative-cancellation flag.
//!
//! The container is specified against a sequential model of the primitive
//! cell: operations that write take the cell by `&mut`, and every contract
//! pins down the exact word held afterwards. Cross-thread visibility is
//! governed by the [`Ordering`] argument of each operation, exactly as for the
//! underlying primitive instructions; the ordering-legality rules and the
//! ordering-canonicalization helpers of [`OrderingExt`] are part of the
//! verified surface.

mod atom;
mod atomic;
mod atomizable;
mod cancellation_token;
mod ordering;
mod packable;
mod try_init_model;

pub mod option;

pub use atom::{Atom, BitAtom, IntAtom};
pub use atomic::{Atomic, lemma_store_then_load};
pub use atomizable::{Atomize, Atomizable, BitAtomizable, IntAtomizable};
pub use cancellation_token::{Cancel, CancellationToken};
pub use ordering::{Ordering, OrderingExt};
pub use packable::{Counter, Phase};
pub use try_init_model::try_init_model;
