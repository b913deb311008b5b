use crate::atomizable::{Atomizable, BitAtomizable, IntAtomizable};
use crate::atom::{Atom, BitAtom, IntAtom};
use crate::ordering::Ordering;
use vstd::prelude::*;

verus! {

/// An atomic container for a packable value type.
///
/// The container owns one primitive cell sized to `T`'s packed
/// representation and exposes the atomic operation surface in terms of `T`:
/// inputs are packed, the operation acts indivisibly on the cell, and outputs
/// are unpacked. No operation exposes a partially-written word — a concurrent
/// reader observes either the fully-old or the fully-new value, because each
/// operation is a single transaction on the one cell.
///
/// The contracts below specify the container against a sequential model of
/// that cell: [`spec_atom`](Atomic::spec_atom) is the word it holds, and
/// [`spec_value`](Atomic::spec_value) the unpacked value observable through
/// the container. Operations that write take the container by `&mut`; the
/// `ordering` argument of each operation is constrained exactly as the
/// underlying primitive instruction constrains it, and governs cross-thread
/// visibility.
pub struct Atomic<T: Atomizable> {
    atom: T::Atom,
}

impl<T: Atomizable> Atomic<T> {
    /// The primitive word currently held by the container's cell.
    pub closed spec fn spec_atom(self) -> T::Atom {
        self.atom
    }

    /// The value observable through the container: the unpacking of the word
    /// its cell holds.
    pub open spec fn spec_value(self) -> T {
        T::spec_unpack(self.spec_atom())
    }

    /// Loads the value with the given ordering.
    pub fn load(&self, ordering: Ordering) -> (r: T)
        requires
            ordering.is_load_legal(),
        ensures
            r == self.spec_value(),
    {
        T::unpack(self.atom)
    }

    /// Stores a value with the given ordering.
    pub fn store(&mut self, value: T, ordering: Ordering)
        requires
            ordering.is_store_legal(),
        ensures
            final(self).spec_atom() == value.spec_pack(),
            final(self).spec_value() == value,
    {
        proof {
            value.lemma_round_trip();
        }
        self.atom = value.pack();
    }

    /// Swaps in a value with the given ordering, returning the previous
    /// value; an unconditional replace.
    pub fn swap(&mut self, value: T, ordering: Ordering) -> (r: T)
        ensures
            r == old(self).spec_value(),
            final(self).spec_atom() == value.spec_pack(),
            final(self).spec_value() == value,
    {
        proof {
            value.lemma_round_trip();
        }
        let prev = self.atom;
        self.atom = value.pack();
        T::unpack(prev)
    }

    /// Stores `new` if the word currently held equals the packing of
    /// `current`.
    ///
    /// Returns `Ok` with the previous value exactly when the exchange took
    /// place, and `Err` with the actual current value otherwise; it never
    /// spuriously fails. `success` and `failure` order the two outcomes; a
    /// failed exchange is a load, so `failure` must be load-legal.
    pub fn compare_exchange(
        &mut self,
        current: T,
        new: T,
        success: Ordering,
        failure: Ordering,
    ) -> (r: Result<T, T>)
        requires
            failure.is_load_legal(),
        ensures
            ({
                let prev = old(self).spec_value();
                match r {
                    Ok(p) => p == prev && old(self).spec_atom() == current.spec_pack()
                        && final(self).spec_atom() == new.spec_pack() && final(self).spec_value()
                        == new,
                    Err(p) => p == prev && old(self).spec_atom() != current.spec_pack()
                        && *final(self) == *old(self),
                }
            }),
    {
        proof {
            new.lemma_round_trip();
        }
        let cur_atom = current.pack();
        let prev = self.atom;
        if prev.atom_eq(cur_atom) {
            self.atom = new.pack();
            Ok(T::unpack(prev))
        } else {
            Err(T::unpack(prev))
        }
    }

    /// Stores `new` if the word currently held equals the packing of
    /// `current`, but may spuriously report failure even when it does.
    ///
    /// The contract therefore promises nothing on which outcome is taken; on
    /// `Ok` the exchange happened exactly as with
    /// [`compare_exchange`](Atomic::compare_exchange), on `Err` the container
    /// is unmodified. The weak variant exists purely as a performance hint
    /// for retry loops.
    pub fn compare_exchange_weak(
        &mut self,
        current: T,
        new: T,
        success: Ordering,
        failure: Ordering,
    ) -> (r: Result<T, T>)
        requires
            failure.is_load_legal(),
        ensures
            ({
                let prev = old(self).spec_value();
                match r {
                    Ok(p) => p == prev && old(self).spec_atom() == current.spec_pack()
                        && final(self).spec_atom() == new.spec_pack() && final(self).spec_value()
                        == new,
                    Err(p) => p == prev && *final(self) == *old(self),
                }
            }),
    {
        self.compare_exchange(current, new, success, failure)
    }

    /// Fetches the value, applies `f` to it, and stores the result if `f`
    /// returns one.
    ///
    /// If `f` returns `None` the container is left unmodified and the call
    /// returns `Err` with the current value; if `f` returns `Some(x)` the
    /// container ends holding the packing of `x` and the call returns `Ok`
    /// with the previous value. A fetch-update is composed in software from
    /// a load and an exchange, not provided by the hardware as one
    /// instruction, and a caller must expect `f` to be consulted more than
    /// once under contention: `f` must be a pure function of its argument
    /// with no externally observable side effects.
    pub fn fetch_update<F: Fn(T) -> Option<T>>(
        &mut self,
        set_ordering: Ordering,
        fetch_ordering: Ordering,
        f: F,
    ) -> (r: Result<T, T>)
        requires
            fetch_ordering.is_load_legal(),
            call_requires(f, (old(self).spec_value(),)),
        ensures
            ({
                let prev = old(self).spec_value();
                match r {
                    Ok(p) => p == prev && exists|x: T|
                        #[trigger] call_ensures(f, (prev,), Some(x)) && final(self).spec_atom()
                            == x.spec_pack() && final(self).spec_value() == x,
                    Err(p) => p == prev && *final(self) == *old(self) && call_ensures(
                        f,
                        (prev,),
                        None::<T>,
                    ),
                }
            }),
    {
        let prev_atom = self.atom;
        match f(T::unpack(prev_atom)) {
            None => Err(T::unpack(prev_atom)),
            Some(x) => {
                proof {
                    x.lemma_round_trip();
                }
                self.atom = x.pack();
                Ok(T::unpack(prev_atom))
            },
        }
    }
}

impl<T: BitAtomizable> Atomic<T> {
    /// Fetches the value, stores the bitwise AND of its word and the packing
    /// of `value`, and returns the previous value.
    pub fn fetch_and(&mut self, value: T, ordering: Ordering) -> (r: T)
        ensures
            r == old(self).spec_value(),
            final(self).spec_atom() == old(self).spec_atom().spec_and(value.spec_pack()),
            final(self).spec_value().spec_pack() == final(self).spec_atom(),
    {
        let prev = self.atom;
        let next = prev.and(value.pack());
        proof {
            T::lemma_bit_pack_exact(next);
        }
        self.atom = next;
        T::unpack(prev)
    }

    /// Fetches the value, stores the bitwise NAND of its word and the
    /// packing of `value`, and returns the previous value.
    pub fn fetch_nand(&mut self, value: T, ordering: Ordering) -> (r: T)
        ensures
            r == old(self).spec_value(),
            final(self).spec_atom() == old(self).spec_atom().spec_nand(value.spec_pack()),
            final(self).spec_value().spec_pack() == final(self).spec_atom(),
    {
        let prev = self.atom;
        let next = prev.nand(value.pack());
        proof {
            T::lemma_bit_pack_exact(next);
        }
        self.atom = next;
        T::unpack(prev)
    }

    /// Fetches the value, stores the bitwise OR of its word and the packing
    /// of `value`, and returns the previous value.
    pub fn fetch_or(&mut self, value: T, ordering: Ordering) -> (r: T)
        ensures
            r == old(self).spec_value(),
            final(self).spec_atom() == old(self).spec_atom().spec_or(value.spec_pack()),
            final(self).spec_value().spec_pack() == final(self).spec_atom(),
    {
        let prev = self.atom;
        let next = prev.or(value.pack());
        proof {
            T::lemma_bit_pack_exact(next);
        }
        self.atom = next;
        T::unpack(prev)
    }

    /// Fetches the value, stores the bitwise XOR of its word and the packing
    /// of `value`, and returns the previous value.
    pub fn fetch_xor(&mut self, value: T, ordering: Ordering) -> (r: T)
        ensures
            r == old(self).spec_value(),
            final(self).spec_atom() == old(self).spec_atom().spec_xor(value.spec_pack()),
            final(self).spec_value().spec_pack() == final(self).spec_atom(),
    {
        let prev = self.atom;
        let next = prev.xor(value.pack());
        proof {
            T::lemma_bit_pack_exact(next);
        }
        self.atom = next;
        T::unpack(prev)
    }
}

impl<T: IntAtomizable> Atomic<T> {
    /// Fetches the value, stores the wrapping sum of its word and the
    /// packing of `value`, and returns the previous value.
    pub fn fetch_add(&mut self, value: T, ordering: Ordering) -> (r: T)
        ensures
            r == old(self).spec_value(),
            final(self).spec_atom() == old(self).spec_atom().spec_wrap_add(value.spec_pack()),
            final(self).spec_value().spec_pack() == final(self).spec_atom(),
    {
        let prev = self.atom;
        let next = prev.wrap_add(value.pack());
        proof {
            T::lemma_int_pack_exact(next);
        }
        self.atom = next;
        T::unpack(prev)
    }

    /// Fetches the value, stores the wrapping difference of its word and the
    /// packing of `value`, and returns the previous value.
    pub fn fetch_sub(&mut self, value: T, ordering: Ordering) -> (r: T)
        ensures
            r == old(self).spec_value(),
            final(self).spec_atom() == old(self).spec_atom().spec_wrap_sub(value.spec_pack()),
            final(self).spec_value().spec_pack() == final(self).spec_atom(),
    {
        let prev = self.atom;
        let next = prev.wrap_sub(value.pack());
        proof {
            T::lemma_int_pack_exact(next);
        }
        self.atom = next;
        T::unpack(prev)
    }

    /// Fetches the value, stores the minimum of its word and the packing of
    /// `value`, and returns the previous value.
    pub fn fetch_min(&mut self, value: T, ordering: Ordering) -> (r: T)
        ensures
            r == old(self).spec_value(),
            final(self).spec_atom() == old(self).spec_atom().spec_min(value.spec_pack()),
            final(self).spec_value().spec_pack() == final(self).spec_atom(),
    {
        let prev = self.atom;
        let next = prev.min_of(value.pack());
        proof {
            T::lemma_int_pack_exact(next);
        }
        self.atom = next;
        T::unpack(prev)
    }

    /// Fetches the value, stores the maximum of its word and the packing of
    /// `value`, and returns the previous value.
    pub fn fetch_max(&mut self, value: T, ordering: Ordering) -> (r: T)
        ensures
            r == old(self).spec_value(),
            final(self).spec_atom() == old(self).spec_atom().spec_max(value.spec_pack()),
            final(self).spec_value().spec_pack() == final(self).spec_atom(),
    {
        let prev = self.atom;
        let next = prev.max_of(value.pack());
        proof {
            T::lemma_int_pack_exact(next);
        }
        self.atom = next;
        T::unpack(prev)
    }
}

/// The basic container law: a store of `value` leaves the container's cell
/// holding `value.spec_pack()`, and a container whose cell holds that word
/// observes `value` itself — so a load subsequent to the store, under any
/// load-legal ordering, returns exactly the value stored.
pub proof fn lemma_store_then_load<T: Atomizable>(container: Atomic<T>, value: T)
    requires
        container.spec_atom() == value.spec_pack(),
    ensures
        container.spec_value() == value,
{
    value.lemma_round_trip();
}

impl<T: Atomizable> Default for Atomic<T> {
    /// Produces a container holding the packed representation's zero value.
    fn default() -> (r: Self)
        ensures
            r.spec_atom() == <T::Atom as Atom>::spec_zero(),
    {
        Atomic { atom: <T::Atom as Atom>::zero() }
    }
}

impl<T: Atomizable> From<T> for Atomic<T> {
    /// Packs `value` and stores it as the initial content.
    fn from(value: T) -> (r: Self)
        ensures
            r.spec_atom() == value.spec_pack(),
            r.spec_value() == T::spec_unpack(value.spec_pack()),
    {
        Atomic { atom: value.pack() }
    }
}

impl<T: Atomizable> vstd::std_specs::convert::FromSpecImpl<T> for Atomic<T> {
    open spec fn obeys_from_spec() -> bool {
        true
    }

    closed spec fn from_spec(value: T) -> Self {
        Atomic { atom: value.spec_pack() }
    }
}

} // verus!
