//! Drawing a password from the pool.

use rand::rngs::SmallRng;
use vstd::prelude::*;

use crate::filter::{FilterConfig, FilterState};
use crate::password::{GeneratedPassword, PasswordState};
use crate::pool::{compute_pool, EffectivePool};

verus! {

/// `String::push` appends the given character to the end of the string.
pub assume_specification[ String::push ](s: &mut String, c: char)
    ensures
        final(s)@ == old(s)@.push(c),
;

/// `draws` can be what `count` draws from `pool` give: there are `count` of
/// them, and each is a member of the pool.
pub open spec fn drawn_from(pool: Set<char>, count: nat, draws: Seq<char>) -> bool {
    &&& draws.len() == count
    &&& forall|i: int| 0 <= i < draws.len() ==> pool.contains(#[trigger] draws[i])
}

/// The outcome of a request on `pool` whose draws came out as `draws`: with
/// an empty pool there is nothing to generate; otherwise the password is
/// the draws in the order in which they were made.
pub open spec fn outcome(pool: Set<char>, draws: Seq<char>) -> GeneratedPassword {
    if pool.is_empty() {
        GeneratedPassword::Empty
    } else {
        GeneratedPassword::Generated(draws)
    }
}

/// Draws `count` characters from `pool`, one after the other and each from
/// the whole pool, so a character may come up more than once. From an empty
/// pool nothing is drawn. Where no draw is made, `rng` is left as it was.
pub fn draw_chars(pool: &EffectivePool, count: u8, rng: &mut SmallRng) -> (draws: Vec<char>)
    ensures
        pool@.is_empty() ==> draws@.len() == 0,
        !pool@.is_empty() ==> drawn_from(pool@, count as nat, draws@),
        pool@.is_empty() || count == 0 ==> *final(rng) == *old(rng),
{
    let mut draws: Vec<char> = Vec::new();
    if pool.is_empty() {
        return draws;
    }
    let mut made: u8 = 0;
    while made < count
        invariant
            made <= count,
            !pool@.is_empty(),
            drawn_from(pool@, made as nat, draws@),
            made == 0 ==> *rng == *old(rng),
        decreases count - made,
    {
        let c = pool.draw(rng).unwrap();
        draws.push(c);
        made = made + 1;
    }
    draws
}

/// Assembles the outcome of a request from the draws that were made for
/// it. The result depends on the pool and the draws alone.
pub fn password_from_draws(pool: &EffectivePool, draws: &Vec<char>) -> (out: PasswordState)
    ensures
        out@ == outcome(pool@, draws@),
{
    if pool.is_empty() {
        return PasswordState::Empty;
    }
    let mut password = String::new();
    let mut i: usize = 0;
    while i < draws.len()
        invariant
            i <= draws.len(),
            password@ == draws@.take(i as int),
        decreases draws.len() - i,
    {
        password.push(draws[i]);
        proof {
            assert(draws@.take(i + 1) =~= draws@.take(i as int).push(draws@[i as int]));
        }
        i = i + 1;
    }
    proof {
        assert(draws@.take(i as int) =~= draws@);
    }
    PasswordState::PasswordGenerated(password)
}

/// Generates a password for `config`: `config.pass_len` characters, each
/// drawn from the effective pool with `rng`. Where the pool is empty there
/// is nothing to draw from, and the result is `Empty`. A length of zero on a
/// pool with members gives the empty string as the generated password.
/// In both of these cases no draw is made, and `rng` is left as it was.
pub fn generate_password(config: &FilterState, rng: &mut SmallRng) -> (out: PasswordState)
    ensures
        config@.pool().is_empty() ==> out@ == GeneratedPassword::Empty,
        !config@.pool().is_empty() ==> (out@ matches GeneratedPassword::Generated(password)
            && drawn_from(config@.pool(), config@.length, password)),
        !config@.pool().is_empty() && config@.length == 0 ==> out@
            == GeneratedPassword::Generated(Seq::empty()),
        config@.pool().is_empty() || config@.length == 0 ==> *final(rng) == *old(rng),
{
    let pool = compute_pool(config);
    let draws = draw_chars(&pool, config.pass_len, rng);
    let out = password_from_draws(&pool, &draws);
    proof {
        if !config@.pool().is_empty() && config@.length == 0 {
            assert(draws@ =~= Seq::empty());
        }
    }
    out
}

/// A generated password has as many characters as there were draws, and
/// where every draw is a member of the pool, so is every character of the
/// password.
pub proof fn lemma_outcome_of_draws(pool: Set<char>, count: nat, draws: Seq<char>)
    requires
        !pool.is_empty(),
        drawn_from(pool, count, draws),
    ensures
        outcome(pool, draws) matches GeneratedPassword::Generated(password) && password.len()
            == count && forall|i: int|
            0 <= i < password.len() ==> pool.contains(#[trigger] password[i]),
{
}

/// With an empty pool the outcome is `Empty`, whatever the draws.
pub proof fn lemma_outcome_of_empty_pool(pool: Set<char>, draws: Seq<char>)
    requires
        pool.is_empty(),
    ensures
        outcome(pool, draws) == GeneratedPassword::Empty,
{
}

/// Generation is reproducible: two requests whose configurations are the
/// same and whose draws come out the same end in the same outcome.
pub proof fn lemma_same_draws_same_outcome(
    first: FilterConfig,
    second: FilterConfig,
    first_draws: Seq<char>,
    second_draws: Seq<char>,
)
    requires
        first == second,
        first_draws == second_draws,
    ensures
        outcome(first.pool(), first_draws) == outcome(second.pool(), second_draws),
{
}

} // verus!
