use vstd::prelude::*;

verus! {

/// Runs a closed scenario of atomic operations.
///
/// The containers of this library are ordinary owned values and need no
/// model or runtime set up before they are used, so this simply calls `f`
/// once, immediately, on the current thread. It exists so that a scenario
/// written as one self-contained closure — the shape an exhaustive
/// interleaving explorer also takes — can be handed over unchanged.
pub fn try_init_model<F: Fn() + Sync + Send + 'static>(f: F)
    requires
        call_requires(f, ()),
    ensures
        call_ensures(f, (), ()),
{
    f();
}

} // verus!
