//! `im::OrdSet<char>`, as far as the pool needs it.
//!
//! The set is a persistent B-tree whose inside Verus does not see. What it
//! holds is named by `members`; each function below calls one method of the
//! set and says, over `members`, what that method does. None of these
//! contracts is proved: they restate the set's own documentation and code.

use im::OrdSet;
use vstd::prelude::*;

verus! {

/// `im::OrdSet`, carried through verified code as an opaque value.
#[verifier::external_type_specification]
#[verifier::external_body]
#[verifier::reject_recursive_types(A)]
pub struct ExOrdSet<A>(OrdSet<A>);

/// The characters that `set` holds.
pub uninterp spec fn members(set: OrdSet<char>) -> Set<char>;

/// `FromIterator::from_iter` of `OrdSet`, over the characters of `text`: it
/// starts from the empty set and inserts each item, so the result holds
/// exactly the characters that occur in `text`, each once.
#[verifier::external_body]
pub(crate) fn set_of_chars(text: &str) -> (set: OrdSet<char>)
    ensures
        members(set) == text@.to_set(),
{
    OrdSet::from_iter(text.chars())
}

/// `OrdSet::union`: it inserts every value of the smaller set into the
/// larger one, so the result holds what either holds.
#[verifier::external_body]
pub(crate) fn union(left: OrdSet<char>, right: OrdSet<char>) -> (set: OrdSet<char>)
    ensures
        members(set) == members(left).union(members(right)),
{
    left.union(right)
}

/// `OrdSet::relative_complement`: it removes every value of `right` from
/// `left`, so the result holds what `left` holds and `right` does not.
#[verifier::external_body]
pub(crate) fn relative_complement(left: OrdSet<char>, right: OrdSet<char>) -> (set: OrdSet<char>)
    ensures
        members(set) == members(left).difference(members(right)),
{
    left.relative_complement(right)
}

/// `OrdSet::is_empty`: whether the set holds nothing.
#[verifier::external_body]
pub(crate) fn is_empty(set: &OrdSet<char>) -> (empty: bool)
    ensures
        empty == members(*set).is_empty(),
{
    set.is_empty()
}

/// `OrdSet::len`: the number of values in the set.
#[verifier::external_body]
pub(crate) fn len(set: &OrdSet<char>) -> (n: usize)
    requires
        members(*set).finite(),
    ensures
        n == members(*set).len(),
{
    set.len()
}

/// `OrdSet::contains`: whether the set holds `c`.
#[verifier::external_body]
pub(crate) fn contains(set: &OrdSet<char>, c: char) -> (found: bool)
    ensures
        found == members(*set).contains(c),
{
    set.contains(&c)
}

} // verus!
