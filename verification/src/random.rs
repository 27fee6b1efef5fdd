//! Random choices, through the `rand` crate.
use rand::rngs::SmallRng;
use rand::seq::SliceRandom;
use rand::SeedableRng;
use vstd::prelude::*;

verus! {

/// Declares `rand::rngs::SmallRng`, to carry it through signatures; Verus sees nothing inside it.
#[verifier::external_type_specification]
#[verifier::external_body]
pub struct ExSmallRng(SmallRng);

/// A fast generator seeded from the operating system (`SmallRng::from_entropy`).
#[verifier::external_body]
pub(crate) fn small_rng_from_entropy() -> SmallRng {
    SmallRng::from_entropy()
}

/// Puts the items in a random order (`SliceRandom::shuffle`): the same items, each as often.
#[verifier::external_body]
pub(crate) fn shuffle<T>(v: &mut Vec<T>, rng: &mut SmallRng)
    ensures
        final(v)@.len() == old(v)@.len(),
        final(v)@.to_multiset() == old(v)@.to_multiset(),
{
    v.shuffle(rng)
}

/// Puts the items in a random order, drawing from the thread's generator
/// (`SliceRandom::shuffle` with `thread_rng`): the same items, each as often.
#[verifier::external_body]
pub(crate) fn shuffle_with_thread_rng<T>(v: &mut Vec<T>)
    ensures
        final(v)@.len() == old(v)@.len(),
        final(v)@.to_multiset() == old(v)@.to_multiset(),
{
    v.shuffle(&mut rand::thread_rng())
}

/// One of the items at random (`SliceRandom::choose`); `None` only for no item.
#[verifier::external_body]
pub(crate) fn pick<T: Copy>(items: &Vec<T>, rng: &mut SmallRng) -> (r: Option<T>)
    ensures
        r is None <==> items@.len() == 0,
        r matches Some(x) ==> items@.contains(x),
{
    items.choose(rng).copied()
}

/// One of the items at random, drawing from the thread's generator (`SliceRandom::choose`
/// with `thread_rng`); `None` only for no item.
#[verifier::external_body]
pub(crate) fn pick_with_thread_rng<T: Copy>(items: &Vec<T>) -> (r: Option<T>)
    ensures
        r is None <==> items@.len() == 0,
        r matches Some(x) ==> items@.contains(x),
{
    items.choose(&mut rand::thread_rng()).copied()
}

} // verus!
