use crate::atomic::Atomic;
use crate::ordering::Ordering;
use vstd::prelude::*;

verus! {

/// A token used to cancel a cooperative operation.
///
/// The token wraps one boolean atomic container and is monotonic: once set,
/// no operation resets it to `false` for the lifetime of the token. All
/// operations use `Relaxed` ordering, and deliberately so: the flag is a
/// best-effort cooperative signal, not a publication mechanism guarding
/// other data, so no happens-before edge is needed — in contrast with the
/// publish protocol of [`AtomicOption`](crate::option::AtomicOption), where
/// `Relaxed` must be avoided.
pub struct CancellationToken {
    flag: Atomic<bool>,
}

impl CancellationToken {
    /// Creates a new, uncancelled token.
    pub fn new() -> (r: Self)
        ensures
            !r.spec_cancelled(),
    {
        CancellationToken { flag: Atomic::from(false) }
    }
}

impl Default for CancellationToken {
    /// Equivalent to [`CancellationToken::new`].
    fn default() -> (r: Self)
        ensures
            !r.spec_cancelled(),
    {
        CancellationToken::new()
    }
}

/// The cancellation surface, shared by [`CancellationToken`] itself and by
/// an optional handle to one.
///
/// The two spec functions model a handle: whether a token stands behind it,
/// and whether that token has been cancelled. Every operation leaves the
/// first unchanged, and cancelling sets the second exactly where a token is
/// present — a handle without a token reports `false` forever and cancelling
/// it does nothing.
pub trait Cancel: Sized {
    /// Whether a token stands behind this handle.
    spec fn spec_has_token(self) -> bool;

    /// Whether the token behind this handle, if any, has been cancelled.
    spec fn spec_cancelled(self) -> bool;

    /// Cancels the operation associated with the token.
    ///
    /// If already cancelled, does nothing; if no token is present, does
    /// nothing.
    fn cancel(&mut self)
        ensures
            final(self).spec_has_token() == old(self).spec_has_token(),
            final(self).spec_cancelled() == old(self).spec_has_token(),
    ;

    /// Cancels the operation associated with the token and returns whether
    /// it was already cancelled.
    ///
    /// If no token is present, does nothing and returns `false`.
    fn fetch_cancel(&mut self) -> (r: bool)
        ensures
            r == old(self).spec_cancelled(),
            final(self).spec_has_token() == old(self).spec_has_token(),
            final(self).spec_cancelled() == old(self).spec_has_token(),
    ;

    /// Returns whether the token has been cancelled.
    ///
    /// If no token is present, always returns `false`.
    fn is_cancelled(&self) -> (r: bool)
        ensures
            r == self.spec_cancelled(),
    ;
}

impl Cancel for CancellationToken {
    open spec fn spec_has_token(self) -> bool {
        true
    }

    closed spec fn spec_cancelled(self) -> bool {
        self.flag.spec_value()
    }

    fn cancel(&mut self) {
        self.flag.store(true, Ordering::Relaxed);
    }

    fn fetch_cancel(&mut self) -> (r: bool) {
        self.flag.swap(true, Ordering::Relaxed)
    }

    fn is_cancelled(&self) -> (r: bool) {
        self.flag.load(Ordering::Relaxed)
    }
}

impl Cancel for Option<CancellationToken> {
    open spec fn spec_has_token(self) -> bool {
        self is Some
    }

    open spec fn spec_cancelled(self) -> bool {
        match self {
            Some(token) => token.spec_cancelled(),
            None => false,
        }
    }

    fn cancel(&mut self) {
        match self {
            Some(token) => token.cancel(),
            None => (),
        }
    }

    fn fetch_cancel(&mut self) -> (r: bool) {
        match self {
            Some(token) => token.fetch_cancel(),
            None => false,
        }
    }

    fn is_cancelled(&self) -> (r: bool) {
        match self {
            Some(token) => token.is_cancelled(),
            None => false,
        }
    }
}

} // verus!
