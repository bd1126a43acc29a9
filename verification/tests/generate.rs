use password_generator::filter::FilterState;
use password_generator::generate::{draw_chars, generate_password, password_from_draws};
use password_generator::password::PasswordState;
use password_generator::pool::compute_pool;
use rand::rngs::SmallRng;
use rand::SeedableRng;

fn config(added: &str, removed: &str, length: u8) -> FilterState {
    FilterState {
        has_upper: false,
        has_lower: false,
        has_number: false,
        has_symbol: false,
        pass_len: length,
        include_chars: added.to_string(),
        exclude_chars: removed.to_string(),
    }
}

fn generated(state: PasswordState) -> String {
    match state {
        PasswordState::PasswordGenerated(s) => s,
        PasswordState::Empty => panic!("nothing was generated"),
    }
}

#[test]
fn password_has_the_requested_length() {
    let mut rng = SmallRng::seed_from_u64(1);
    for length in 0..=30u8 {
        let mut filter = FilterState::default();
        filter.pass_len = length;
        let password = generated(generate_password(&filter, &mut rng));
        assert_eq!(password.chars().count(), length as usize);
    }
    let mut filter = FilterState::default();
    filter.pass_len = 255;
    let password = generated(generate_password(&filter, &mut rng));
    assert_eq!(password.chars().count(), 255);
}

#[test]
fn password_from_two_chars_uses_only_them() {
    let mut rng = SmallRng::seed_from_u64(7);
    let password = generated(generate_password(&config("AB", "", 5), &mut rng));
    assert_eq!(password.chars().count(), 5);
    assert!(password.chars().all(|c| c == 'A' || c == 'B'));
}

#[test]
fn password_from_one_char_repeats_it() {
    let mut rng = SmallRng::seed_from_u64(3);
    let password = generated(generate_password(&config("x", "", 4), &mut rng));
    assert_eq!(password, "xxxx");
}

#[test]
fn password_counts_chars_not_bytes() {
    let mut rng = SmallRng::seed_from_u64(3);
    let password = generated(generate_password(&config("é", "", 3), &mut rng));
    assert_eq!(password, "ééé");
}

#[test]
fn every_char_of_the_password_is_in_the_pool() {
    for seed in 0..20u64 {
        let mut rng = SmallRng::seed_from_u64(seed);
        let mut filter = FilterState::default();
        filter.has_number = true;
        filter.pass_len = 30;
        filter.include_chars = "#?".to_string();
        filter.exclude_chars = "O0Il1".to_string();
        let pool = compute_pool(&filter);
        let password = generated(generate_password(&filter, &mut rng));
        assert_eq!(password.chars().count(), 30);
        for c in password.chars() {
            assert!(pool.contains(c));
            assert!(!"O0Il1".contains(c));
        }
    }
}

#[test]
fn a_char_may_be_drawn_more_than_once() {
    let mut rng = SmallRng::seed_from_u64(11);
    let password = generated(generate_password(&config("ab", "", 30), &mut rng));
    assert_eq!(password.chars().count(), 30);
    assert!(password.contains('a'));
    assert!(password.contains('b'));
}

#[test]
fn empty_pool_gives_empty() {
    let mut rng = SmallRng::seed_from_u64(5);
    let out = generate_password(&config("", "", 8), &mut rng);
    assert!(matches!(out, PasswordState::Empty));
    let out = generate_password(&config("abc", "abc", 8), &mut rng);
    assert!(matches!(out, PasswordState::Empty));
    let out = generate_password(&config("", "", 0), &mut rng);
    assert!(matches!(out, PasswordState::Empty));
}

#[test]
fn empty_pool_takes_nothing_from_the_generator() {
    let mut used = SmallRng::seed_from_u64(5);
    let fresh = SmallRng::seed_from_u64(5);
    let out = generate_password(&config("", "", 8), &mut used);
    assert!(matches!(out, PasswordState::Empty));
    assert_eq!(used, fresh);
}

#[test]
fn length_zero_gives_the_empty_string() {
    let mut rng = SmallRng::seed_from_u64(5);
    let out = generate_password(&config("abc", "", 0), &mut rng);
    assert_eq!(generated(out), "");
    let mut filter = FilterState::default();
    filter.pass_len = 0;
    let out = generate_password(&filter, &mut rng);
    assert_eq!(generated(out), "");
}

#[test]
fn same_seed_gives_the_same_password() {
    let mut filter = FilterState::default();
    filter.has_number = true;
    filter.has_symbol = true;
    filter.pass_len = 24;
    let mut first_rng = SmallRng::seed_from_u64(2024);
    let mut second_rng = SmallRng::seed_from_u64(2024);
    let first = generated(generate_password(&filter, &mut first_rng));
    let second = generated(generate_password(&filter, &mut second_rng));
    assert_eq!(first, second);
    let first = generated(generate_password(&filter, &mut first_rng));
    let second = generated(generate_password(&filter, &mut second_rng));
    assert_eq!(first, second);
}

#[test]
fn generator_moves_on_between_requests() {
    let mut filter = FilterState::default();
    filter.pass_len = 30;
    let mut rng = SmallRng::seed_from_u64(99);
    let start = rng.clone();
    let _ = generate_password(&filter, &mut rng);
    assert_ne!(rng, start);
}

#[test]
fn draw_gives_a_member() {
    let pool = compute_pool(&config("x", "", 8));
    let mut rng = SmallRng::seed_from_u64(8);
    assert_eq!(pool.draw(&mut rng), Some('x'));
    let pool = compute_pool(&config("abc", "b", 8));
    for _ in 0..50 {
        let c = pool.draw(&mut rng);
        assert!(c == Some('a') || c == Some('c'));
    }
}

#[test]
fn draw_reaches_every_member() {
    let pool = compute_pool(&config("abc", "", 8));
    let mut rng = SmallRng::seed_from_u64(21);
    let mut seen = Vec::new();
    for _ in 0..200 {
        let c = pool.draw(&mut rng).unwrap();
        if !seen.contains(&c) {
            seen.push(c);
        }
    }
    seen.sort();
    assert_eq!(seen, vec!['a', 'b', 'c']);
}

#[test]
fn draw_from_an_empty_pool_gives_nothing() {
    let pool = compute_pool(&config("", "", 8));
    let mut rng = SmallRng::seed_from_u64(8);
    assert_eq!(pool.draw(&mut rng), None);
}

#[test]
fn draw_chars_makes_the_requested_number_of_draws() {
    let pool = compute_pool(&config("abc", "", 8));
    let mut rng = SmallRng::seed_from_u64(13);
    let draws = draw_chars(&pool, 17, &mut rng);
    assert_eq!(draws.len(), 17);
    assert!(draws.iter().all(|c| "abc".contains(*c)));
    let draws = draw_chars(&pool, 0, &mut rng);
    assert!(draws.is_empty());
}

#[test]
fn draw_chars_draws_nothing_from_an_empty_pool() {
    let pool = compute_pool(&config("", "", 8));
    let mut rng = SmallRng::seed_from_u64(13);
    let draws = draw_chars(&pool, 17, &mut rng);
    assert!(draws.is_empty());
}

#[test]
fn password_from_draws_spells_the_draws_in_order() {
    let pool = compute_pool(&config("aB", "", 8));
    let out = password_from_draws(&pool, &vec!['a', 'B', 'B', 'a']);
    assert_eq!(generated(out), "aBBa");
    let out = password_from_draws(&pool, &vec!['B']);
    assert_eq!(generated(out), "B");
}

#[test]
fn password_from_no_draws_is_the_empty_string() {
    let pool = compute_pool(&config("aB", "", 8));
    let out = password_from_draws(&pool, &Vec::new());
    assert_eq!(generated(out), "");
}

#[test]
fn password_from_draws_on_an_empty_pool_is_empty() {
    let pool = compute_pool(&config("", "", 8));
    let out = password_from_draws(&pool, &Vec::new());
    assert!(matches!(out, PasswordState::Empty));
}

#[test]
fn same_draws_give_the_same_password() {
    let first = compute_pool(&config("xyz", "", 3));
    let second = compute_pool(&config("zyx", "", 3));
    let draws = vec!['z', 'x', 'x'];
    let a = generated(password_from_draws(&first, &draws));
    let b = generated(password_from_draws(&second, &draws));
    assert_eq!(a, "zxx");
    assert_eq!(a, b);
}

#[test]
fn generation_is_drawing_then_assembling() {
    let filter = config("pqrs", "", 12);
    let pool = compute_pool(&filter);
    let mut first_rng = SmallRng::seed_from_u64(77);
    let mut second_rng = SmallRng::seed_from_u64(77);
    let whole = generated(generate_password(&filter, &mut first_rng));
    let draws = draw_chars(&pool, 12, &mut second_rng);
    let parts = generated(password_from_draws(&pool, &draws));
    assert_eq!(whole, parts);
}

#[test]
fn length_zero_takes_nothing_from_the_generator() {
    let mut used = SmallRng::seed_from_u64(5);
    let fresh = SmallRng::seed_from_u64(5);
    let out = generate_password(&config("abc", "", 0), &mut used);
    assert_eq!(generated(out), "");
    assert_eq!(used, fresh);
    let pool = compute_pool(&config("abc", "", 0));
    let draws = draw_chars(&pool, 0, &mut used);
    assert!(draws.is_empty());
    assert_eq!(used, fresh);
}
