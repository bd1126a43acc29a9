//! The random source and the one call that consumes randomness.

use im::OrdSet;
use rand::rngs::SmallRng;
use rand::seq::IteratorRandom;
use vstd::prelude::*;

use crate::ordset::members;

verus! {

/// `rand::rngs::SmallRng`, the generator that draws are taken from. It is
/// carried through verified code as an opaque value: nothing is said of
/// the numbers it yields.
#[verifier::external_type_specification]
#[verifier::external_body]
pub struct ExSmallRng(SmallRng);

/// `IteratorRandom::choose` on `OrdSet::iter`: one value of the set, picked
/// uniformly with the next number of `rng`. The iterator yields each value
/// of the set once, and `choose` returns `None` if and only if the iterator
/// is empty. Which value comes back is up to `rng`, so the contract says
/// only that it is one of the set.
#[verifier::external_body]
pub(crate) fn choose_member(set: &OrdSet<char>, rng: &mut SmallRng) -> (draw: Option<char>)
    ensures
        draw is None <==> members(*set).is_empty(),
        draw matches Some(c) ==> members(*set).contains(c),
{
    set.iter().choose(rng).copied()
}

} // verus!
