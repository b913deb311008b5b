use crate::atom::{Atom, BitAtom, IntAtom};
use crate::atomic::Atomic;
use vstd::prelude::*;

verus! {

/// A value type that may be represented as a primitive atomic value.
///
/// The type fixes one primitive representation — its atom — together with a
/// lossless encode/decode pair between values and atoms. Both directions are
/// total, and every implementor proves the round-trip law
/// [`lemma_round_trip`](Atomizable::lemma_round_trip): unpacking a packed
/// value gives the value back. Primitive atoms themselves pack and unpack to
/// themselves with no transformation.
pub trait Atomizable: Sized {
    /// The primitive representation of the type.
    type Atom: Atom;

    /// The atom that [`pack`](Atomizable::pack) produces for this value.
    spec fn spec_pack(self) -> Self::Atom;

    /// The value that [`unpack`](Atomizable::unpack) reconstructs from an
    /// atom.
    spec fn spec_unpack(atom: Self::Atom) -> Self;

    /// Packs the value into its primitive representation.
    fn pack(self) -> (r: Self::Atom)
        ensures
            r == self.spec_pack(),
    ;

    /// Unpacks a value from its primitive representation.
    fn unpack(atom: Self::Atom) -> (r: Self)
        ensures
            r == Self::spec_unpack(atom),
    ;

    /// The round-trip law: unpacking a packed value gives the value back.
    proof fn lemma_round_trip(self)
        ensures
            Self::spec_unpack(self.spec_pack()) == self,
    ;
}

impl<T: Atom> Atomizable for T {
    type Atom = T;

    open spec fn spec_pack(self) -> T {
        self
    }

    open spec fn spec_unpack(atom: T) -> T {
        atom
    }

    fn pack(self) -> T {
        self
    }

    fn unpack(atom: T) -> T {
        atom
    }

    proof fn lemma_round_trip(self) {
    }
}

/// A packable type whose atom supports the bitwise fetch-operations, and
/// which may therefore be held in a container exposing them.
///
/// Beyond the capability of the atom itself, the type proves
/// [`lemma_bit_pack_exact`](BitAtomizable::lemma_bit_pack_exact): packing is
/// a bijection, so every atom the bitwise operations can produce unpacks to a
/// value that packs back to that same atom. A type whose unpacking collapses
/// several atoms onto one value — an enumeration with a restricted
/// discriminant set, say — cannot provide this law, and so cannot be given
/// the bitwise operations, which could otherwise step outside the set of
/// atoms that packing produces.
pub trait BitAtomizable: Atomizable<Atom: BitAtom> {
    /// Packing inverts unpacking: the packed representation is in bijection
    /// with the values of the type.
    proof fn lemma_bit_pack_exact(atom: Self::Atom)
        ensures
            Self::spec_unpack(atom).spec_pack() == atom,
    ;
}

impl<T: BitAtom> BitAtomizable for T {
    proof fn lemma_bit_pack_exact(atom: T) {
    }
}

/// A packable type whose atom additionally supports the arithmetic
/// fetch-operations.
///
/// The same bijection law as for [`BitAtomizable`] is required, for the same
/// reason: an arithmetic fetch-operation may produce any atom of the width.
pub trait IntAtomizable: Atomizable<Atom: IntAtom> {
    /// Packing inverts unpacking: the packed representation is in bijection
    /// with the values of the type.
    proof fn lemma_int_pack_exact(atom: Self::Atom)
        ensures
            Self::spec_unpack(atom).spec_pack() == atom,
    ;
}

impl<T: IntAtom> IntAtomizable for T {
    proof fn lemma_int_pack_exact(atom: T) {
    }
}

/// Converting values into atomic containers.
///
/// This trait is implemented for all types that implement [`Atomizable`]; the
/// container it produces holds the packed representation of the value.
pub trait Atomize: Sized {
    /// The primitive representation of the type.
    type Atom: Atom;

    /// The atom that the produced container starts from.
    spec fn spec_atomize(self) -> Self::Atom;

    /// Converts the value into an atomic container over its primitive
    /// representation.
    fn atomize(self) -> (r: Atomic<Self::Atom>)
        ensures
            r.spec_atom() == self.spec_atomize(),
    ;
}

impl<T: Atomizable> Atomize for T {
    type Atom = T::Atom;

    open spec fn spec_atomize(self) -> T::Atom {
        self.spec_pack()
    }

    fn atomize(self) -> (r: Atomic<T::Atom>) {
        Atomic::from(self.pack())
    }
}

} // verus!
