//! The random choices of the program, drawn from the generator that `rand`
//! keeps for each thread.

use rand::rngs::ThreadRng;
use rand::seq::SliceRandom;
use rand::Rng;
use vstd::prelude::*;

verus! {

/// The handle of `rand` to the random number generator of the thread.
#[verifier::external_type_specification]
#[verifier::external_body]
pub struct ExThreadRng(ThreadRng);

/// `rand::thread_rng`: a handle to the generator of the thread, which the
/// system seeds. Nothing is claimed of it.
#[verifier::external_body]
pub(crate) fn thread_rng() -> ThreadRng {
    rand::thread_rng()
}

/// `rand::seq::SliceRandom::shuffle` on the entries of `order`: the crate
/// swaps them among themselves, so afterwards `order` holds the same entries,
/// each as often as before. Nothing is claimed of the order they end up in.
#[verifier::external_body]
pub(crate) fn shuffle(order: &mut Vec<usize>, rng: &mut ThreadRng)
    ensures
        final(order)@.to_multiset() == old(order)@.to_multiset(),
{
    order.shuffle(rng);
}

/// `rand::Rng::gen_range` with the bounds `0` and `high`: some number from
/// zero up to, and without, `high`. The crate panics on an empty range, which
/// `requires` leaves out.
#[verifier::external_body]
pub(crate) fn gen_range(rng: &mut ThreadRng, high: usize) -> (res: usize)
    requires
        high > 0,
    ensures
        res < high,
{
    rng.gen_range(0, high)
}

} // verus!
