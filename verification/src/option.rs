//! Lock-free single-slot optional values.
//!
//! See [`AtomicOption`] for more information.

use crate::atom::Atom;
use crate::atomic::Atomic;
use crate::atomizable::Atomizable;
use crate::ordering::Ordering;
use vstd::pervasive::unreached;
use vstd::prelude::*;

verus! {

/// A lock-free optional value, composed of two atomic containers: a boolean
/// presence flag and a value slot.
///
/// Storing a value follows a publish protocol: **the value slot is written
/// before the presence flag**. A reader that observes the flag set under an
/// ordering no weaker than `Acquire` is therefore guaranteed — by the
/// happens-before edge from the writer's `Release`-or-stronger flag store —
/// to observe the value written before it. With `Relaxed` ordering the flag
/// may become visible before the value, so `Relaxed` must be avoided for
/// cross-thread publication. Storing `None` writes only the flag; the slot
/// is left untouched, its content meaningless rather than erased, so the
/// pattern must not be used to clear sensitive data.
///
/// The pattern is deliberately restricted to single-slot publish and
/// retract: it is no multi-writer queue, and two concurrent stores are
/// ordered only by the atomicity of each individual flag or slot write.
pub struct AtomicOption<T: Atomizable> {
    is_some: Atomic<bool>,
    value: Atomic<T>,
}

impl<T: Atomizable> AtomicOption<T> {
    /// Whether the presence flag is set.
    pub closed spec fn spec_flag(self) -> bool {
        self.is_some.spec_value()
    }

    /// The atomic container backing the value slot.
    pub closed spec fn spec_slot(self) -> Atomic<T> {
        self.value
    }

    /// The optional value observable through the container: `Some` of the
    /// slot's value when the presence flag is set, `None` otherwise. When
    /// the flag is clear the slot's content is unspecified and carries no
    /// meaning.
    pub open spec fn spec_value(self) -> Option<T> {
        if self.spec_flag() {
            Some(self.spec_slot().spec_value())
        } else {
            None
        }
    }

    /// Creates a new atomic option with no value; the slot starts from the
    /// packed representation's zero value.
    pub fn none() -> (r: Self)
        ensures
            r.spec_value() == None::<T>,
            r.spec_slot().spec_atom() == <T::Atom as Atom>::spec_zero(),
    {
        AtomicOption { is_some: Atomic::from(false), value: Atomic::default() }
    }

    /// Creates a new atomic option holding `value`.
    ///
    /// No concurrent reader exists yet at construction time, so no write
    /// ordering between the two containers is required here.
    pub fn some(value: T) -> (r: Self)
        ensures
            r.spec_value() == Some(value),
            r.spec_slot().spec_atom() == value.spec_pack(),
    {
        proof {
            value.lemma_round_trip();
        }
        AtomicOption { is_some: Atomic::from(true), value: Atomic::from(value) }
    }

    /// Returns whether the option is `Some`, reading the presence flag with
    /// the given ordering.
    pub fn is_some(&self, ordering: Ordering) -> (r: bool)
        requires
            ordering.is_load_legal(),
        ensures
            r == (self.spec_value() is Some),
    {
        self.is_some.load(ordering)
    }

    /// Returns whether the option is `None`, reading the presence flag with
    /// the given ordering.
    pub fn is_none(&self, ordering: Ordering) -> (r: bool)
        requires
            ordering.is_load_legal(),
        ensures
            r == (self.spec_value() is None),
    {
        !self.is_some(ordering)
    }

    /// Loads the value with the given ordering.
    ///
    /// This is two physically separate atomic reads — the flag first, then
    /// the slot; the publish protocol is what makes the slot read meaningful
    /// whenever the flag read observed `true`.
    pub fn load(&self, ordering: Ordering) -> (r: Option<T>)
        requires
            ordering.is_load_legal(),
        ensures
            r == self.spec_value(),
    {
        if self.is_some(ordering) {
            Some(self.value.load(ordering))
        } else {
            None
        }
    }

    /// Stores a value with the given ordering.
    ///
    /// For `Some`, the value slot is written before the presence flag, both
    /// with `ordering`; this write order is the core invariant of the
    /// publish protocol. For `None`, only the flag is written and the slot
    /// is left untouched.
    pub fn store(&mut self, value: Option<T>, ordering: Ordering)
        requires
            ordering.is_store_legal(),
        ensures
            final(self).spec_value() == value,
            value is None ==> final(self).spec_slot() == old(self).spec_slot(),
            value matches Some(v) ==> final(self).spec_slot().spec_atom() == v.spec_pack(),
    {
        match value {
            Some(value) => {
                // The slot is written first, so that a reader observing the
                // flag never reads a value it predates.
                self.value.store(value, ordering);
                self.is_some.store(true, ordering);
            },
            None => {
                self.is_some.store(false, ordering);
            },
        }
    }

    /// Stores `None` with the given ordering; the slot is left untouched.
    pub fn store_none(&mut self, ordering: Ordering)
        requires
            ordering.is_store_legal(),
        ensures
            final(self).spec_value() == None::<T>,
            final(self).spec_slot() == old(self).spec_slot(),
    {
        self.store(None, ordering);
    }

    /// Stores `Some` of `value` with the given ordering, following the
    /// publish protocol.
    pub fn store_some(&mut self, value: T, ordering: Ordering)
        requires
            ordering.is_store_legal(),
        ensures
            final(self).spec_value() == Some(value),
            final(self).spec_slot().spec_atom() == value.spec_pack(),
    {
        self.store(Some(value), ordering);
    }

    /// Unwraps the value with the given ordering.
    ///
    /// Unwrapping an absent option is a caller's logic bug, not a
    /// recoverable condition: the operation is not defined on it, and an
    /// unverified caller that reaches it anyway is stopped with a fatal
    /// error.
    pub fn unwrap(&self, ordering: Ordering) -> (r: T)
        requires
            ordering.is_load_legal(),
            self.spec_value() is Some,
        ensures
            Some(r) == self.spec_value(),
    {
        match self.load(ordering) {
            Some(value) => value,
            None => unreached(),
        }
    }
}

impl<T: Atomizable> From<Option<T>> for AtomicOption<T> {
    /// Builds [`AtomicOption::some`] from `Some` and [`AtomicOption::none`]
    /// from `None`.
    fn from(option: Option<T>) -> (r: Self)
        ensures
            r.spec_value() == option,
    {
        match option {
            Some(value) => Self::some(value),
            None => Self::none(),
        }
    }
}

impl<T: Atomizable> vstd::std_specs::convert::FromSpecImpl<Option<T>> for AtomicOption<T> {
    // What `from` returns is pinned by the `ensures` of the impl above, not
    // through `from_spec`: a container value cannot be written down outside
    // its own module, so `obeys_from_spec` stays false and nothing may rely
    // on this body.
    open spec fn obeys_from_spec() -> bool {
        false
    }

    open spec fn from_spec(option: Option<T>) -> Self {
        vstd::pervasive::arbitrary()
    }
}

} // verus!
