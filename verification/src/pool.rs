//! The effective pool: the characters a password may be drawn from.

use im::OrdSet;
use rand::rngs::SmallRng;
use vstd::prelude::*;

use crate::alphabet::{
    digit_class, lemma_classes_inhabited, lemma_digit_chars, lemma_lower_chars,
    lemma_symbol_chars, lemma_upper_chars, lower_class, symbol_class, upper_class, ASCII_LOWER,
    ASCII_NUMBERS, ASCII_SYMBOLS, ASCII_UPPER,
};
use crate::filter::{FilterConfig, FilterState};
use crate::ordset;
use crate::random;

verus! {

/// What a class contributes: all of it where it is switched on, nothing
/// where it is switched off.
pub open spec fn enabled(on: bool, class: Set<char>) -> Set<char> {
    if on {
        class
    } else {
        Set::empty()
    }
}

impl FilterConfig {
    /// The candidate set: the union of the enabled classes and of the
    /// characters added by hand.
    pub open spec fn candidates(self) -> Set<char> {
        enabled(self.has_upper, upper_class())
            .union(enabled(self.has_lower, lower_class()))
            .union(enabled(self.has_number, digit_class()))
            .union(enabled(self.has_symbol, symbol_class()))
            .union(self.include_chars.to_set())
    }

    /// The effective pool: the candidate set without the characters removed
    /// by hand.
    pub open spec fn pool(self) -> Set<char> {
        self.candidates().difference(self.exclude_chars.to_set())
    }

    /// No class is switched on.
    pub open spec fn no_class(self) -> bool {
        !self.has_upper && !self.has_lower && !self.has_number && !self.has_symbol
    }
}

/// A set of distinct characters, kept in an ordered set. Its view is the
/// mathematical set of its members, which is always finite.
pub struct EffectivePool {
    chars: OrdSet<char>,
}

impl View for EffectivePool {
    type V = Set<char>;

    closed spec fn view(&self) -> Set<char> {
        ordset::members(self.chars)
    }
}

impl EffectivePool {
    #[verifier::type_invariant]
    spec fn finite_members(self) -> bool {
        ordset::members(self.chars).finite()
    }

    /// Whether the pool holds no character.
    pub fn is_empty(&self) -> (empty: bool)
        ensures
            empty == self@.is_empty(),
    {
        ordset::is_empty(&self.chars)
    }

    /// The number of distinct characters in the pool.
    pub fn len(&self) -> (n: usize)
        ensures
            self@.finite(),
            n == self@.len(),
    {
        proof {
            use_type_invariant(self);
        }
        ordset::len(&self.chars)
    }

    /// Whether `c` is in the pool.
    pub fn contains(&self, c: char) -> (found: bool)
        ensures
            found == self@.contains(c),
    {
        ordset::contains(&self.chars, c)
    }

    /// Draws one character from the pool with `rng`, each member being as
    /// likely as any other. An empty pool yields `None`, and only an empty
    /// pool does; a drawn character is a member.
    pub fn draw(&self, rng: &mut SmallRng) -> (drawn: Option<char>)
        ensures
            drawn is None <==> self@.is_empty(),
            drawn matches Some(c) ==> self@.contains(c),
    {
        random::choose_member(&self.chars, rng)
    }
}

/// Computes the effective pool of `config`: the union of the enabled
/// classes and the added characters, minus every removed character.
pub fn compute_pool(config: &FilterState) -> (pool: EffectivePool)
    ensures
        pool@ == config@.pool(),
        pool@.finite(),
{
    let mut chars = ordset::set_of_chars(config.include_chars.as_str());
    if config.has_upper {
        chars = ordset::union(chars, ordset::set_of_chars(ASCII_UPPER));
    }
    if config.has_lower {
        chars = ordset::union(chars, ordset::set_of_chars(ASCII_LOWER));
    }
    if config.has_number {
        chars = ordset::union(chars, ordset::set_of_chars(ASCII_NUMBERS));
    }
    if config.has_symbol {
        chars = ordset::union(chars, ordset::set_of_chars(ASCII_SYMBOLS));
    }
    let chars = ordset::relative_complement(
        chars,
        ordset::set_of_chars(config.exclude_chars.as_str()),
    );
    proof {
        lemma_upper_chars();
        lemma_lower_chars();
        lemma_digit_chars();
        lemma_symbol_chars();
        lemma_pool_finite(config@);
        assert(ordset::members(chars) =~= config@.pool());
    }
    EffectivePool { chars }
}

/// The pool of any configuration is finite: each class is the set of a
/// string's characters, and so are the added characters.
pub proof fn lemma_pool_finite(config: FilterConfig)
    ensures
        config.candidates().finite(),
        config.pool().finite(),
{
    lemma_upper_chars();
    lemma_lower_chars();
    lemma_digit_chars();
    lemma_symbol_chars();
    vstd::seq_lib::seq_to_set_is_finite(ASCII_UPPER@);
    vstd::seq_lib::seq_to_set_is_finite(ASCII_LOWER@);
    vstd::seq_lib::seq_to_set_is_finite(ASCII_NUMBERS@);
    vstd::seq_lib::seq_to_set_is_finite(ASCII_SYMBOLS@);
    vstd::seq_lib::seq_to_set_is_finite(config.include_chars);
}

/// A character is in the pool if and only if an enabled class or the added
/// characters contribute it and the removed characters do not hold it.
pub proof fn lemma_pool_membership(config: FilterConfig, c: char)
    ensures
        config.pool().contains(c) <==> {
            &&& {
                ||| config.has_upper && upper_class().contains(c)
                ||| config.has_lower && lower_class().contains(c)
                ||| config.has_number && digit_class().contains(c)
                ||| config.has_symbol && symbol_class().contains(c)
                ||| config.include_chars.contains(c)
            }
            &&& !config.exclude_chars.contains(c)
        },
{
}

/// The candidate set is empty if and only if no class is switched on and no
/// character is added by hand.
pub proof fn lemma_candidates_empty_iff(config: FilterConfig)
    ensures
        config.candidates().is_empty() <==> config.no_class() && config.include_chars.len() == 0,
{
    lemma_classes_inhabited();
    if config.include_chars.len() > 0 {
        assert(config.include_chars.contains(config.include_chars[0]));
        assert(config.candidates().contains(config.include_chars[0]));
    }
    if config.has_upper {
        assert(config.candidates().contains('A'));
    }
    if config.has_lower {
        assert(config.candidates().contains('a'));
    }
    if config.has_number {
        assert(config.candidates().contains('0'));
    }
    if config.has_symbol {
        assert(config.candidates().contains('!'));
    }
    if config.no_class() && config.include_chars.len() == 0 {
        assert(config.candidates() =~= Set::empty());
    }
}

/// The pool is empty if and only if the removed characters cover the whole
/// candidate set; an empty candidate set is covered by anything.
pub proof fn lemma_pool_empty_iff(config: FilterConfig)
    ensures
        config.pool().is_empty() <==> config.candidates().subset_of(
            config.exclude_chars.to_set(),
        ),
        config.no_class() && config.include_chars.len() == 0 ==> config.pool().is_empty(),
{
    let candidates = config.candidates();
    let removed = config.exclude_chars.to_set();
    if config.pool().is_empty() {
        assert forall|c: char| candidates.contains(c) implies removed.contains(c) by {
            assert(!config.pool().contains(c));
        }
    }
    if candidates.subset_of(removed) {
        assert(config.pool() =~= Set::empty());
    }
    lemma_candidates_empty_iff(config);
}

/// Removal has the last word: a removed character is not in the pool,
/// whichever class or addition would contribute it.
pub proof fn lemma_exclude_precedence(config: FilterConfig, c: char)
    requires
        config.exclude_chars.contains(c),
    ensures
        !config.pool().contains(c),
{
}

} // verus!
