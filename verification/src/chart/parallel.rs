//! Running two independent parts of a chart computation side by side.
use vstd::prelude::*;

verus! {

/// Runs two closures, possibly in parallel on the rayon thread pool, and returns both
/// results (`rayon::join`).
///
/// Trusted: `rayon::join` executes each closure exactly once and returns the pair of
/// their results; a panic of either closure is propagated. The contract claims only
/// that: each component of the pair is a result of its closure. Which thread runs which
/// closure is left unsaid.
#[verifier::external_body]
pub(crate) fn join<A, B, RA, RB>(oper_a: A, oper_b: B) -> (r: (RA, RB)) where
    A: FnOnce() -> RA + Send,
    B: FnOnce() -> RB + Send,
    RA: Send,
    RB: Send,

    requires
        oper_a.requires(()),
        oper_b.requires(()),
    ensures
        oper_a.ensures((), r.0),
        oper_b.ensures((), r.1),
{
    rayon::join(oper_a, oper_b)
}

} // verus!
