//! Hand-written packable value types of the two shapes user code declares:
//! a record with a single field, and an enumeration with only unit
//! alternatives over an explicit fixed-width backing representation.

use crate::atomizable::{Atomizable, BitAtomizable, IntAtomizable};
use vstd::prelude::*;

verus! {

/// A single-field record over a 32-bit packed representation.
///
/// Packing extracts the sole field and unpacking reconstructs the record
/// around it, so the two directions are mutually inverse bijections; the
/// record therefore carries the full bitwise and arithmetic capability of
/// its atom.
#[derive(Clone, Copy, Debug, PartialEq, Eq, Structural)]
pub struct Counter(pub u32);

impl Atomizable for Counter {
    type Atom = u32;

    open spec fn spec_pack(self) -> u32 {
        self.0
    }

    open spec fn spec_unpack(atom: u32) -> Counter {
        Counter(atom)
    }

    fn pack(self) -> u32 {
        self.0
    }

    fn unpack(atom: u32) -> Counter {
        Counter(atom)
    }

    proof fn lemma_round_trip(self) {
    }
}

impl BitAtomizable for Counter {
    proof fn lemma_bit_pack_exact(atom: u32) {
    }
}

impl IntAtomizable for Counter {
    proof fn lemma_int_pack_exact(atom: u32) {
    }
}

/// An enumeration with only unit alternatives over an explicit 8-bit
/// backing representation.
///
/// Packing maps each alternative to its discriminant; unpacking
/// reinterprets a discriminant, and is total: a bit pattern outside the
/// discriminant set — which correct use of the containers never produces —
/// reconstructs [`Phase::Idle`] rather than invoking any unchecked
/// reinterpretation. Because several patterns thus collapse onto one
/// alternative, packing is no bijection, and the type deliberately has
/// neither [`BitAtomizable`] nor [`IntAtomizable`]: the bitwise and
/// arithmetic fetch-operations, which could step outside the discriminant
/// set, are not available on a container over such a type.
#[derive(Clone, Copy, Debug, PartialEq, Eq, Structural)]
pub enum Phase {
    /// Work has not started.
    Idle,
    /// Work is in flight.
    Running,
    /// Work has finished.
    Done,
}

impl Atomizable for Phase {
    type Atom = u8;

    open spec fn spec_pack(self) -> u8 {
        match self {
            Phase::Idle => 0u8,
            Phase::Running => 1u8,
            Phase::Done => 2u8,
        }
    }

    open spec fn spec_unpack(atom: u8) -> Phase {
        if atom == 1u8 {
            Phase::Running
        } else if atom == 2u8 {
            Phase::Done
        } else {
            Phase::Idle
        }
    }

    fn pack(self) -> u8 {
        match self {
            Phase::Idle => 0u8,
            Phase::Running => 1u8,
            Phase::Done => 2u8,
        }
    }

    fn unpack(atom: u8) -> Phase {
        if atom == 1u8 {
            Phase::Running
        } else if atom == 2u8 {
            Phase::Done
        } else {
            Phase::Idle
        }
    }

    proof fn lemma_round_trip(self) {
    }
}

} // verus!
