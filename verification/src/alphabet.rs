//! The four predefined character classes.
//!
//! Each class is written down twice: as the string constant that executable
//! code hands to the set type, and as a mathematical set that contracts speak
//! of. The lemmas of this module prove that the two agree.

use vstd::prelude::*;

verus! {

/// The uppercase ASCII letters.
pub const ASCII_UPPER: &'static str = "ABCDEFGHIJKLMNOPQRSTUVWXYZ";

/// The lowercase ASCII letters.
pub const ASCII_LOWER: &'static str = "abcdefghijklmnopqrstuvwxyz";

/// The decimal digits.
pub const ASCII_NUMBERS: &'static str = "0123456789";

/// The symbols. The exclamation mark is written twice; a set holds it once.
pub const ASCII_SYMBOLS: &'static str = "!()-.?[]_`~;:!@#$%^&*+=";

/// The class of uppercase letters: `A` to `Z`.
pub open spec fn upper_class() -> Set<char> {
    Set::new(|c: char| 'A' <= c && c <= 'Z')
}

/// The class of lowercase letters: `a` to `z`.
pub open spec fn lower_class() -> Set<char> {
    Set::new(|c: char| 'a' <= c && c <= 'z')
}

/// The class of digits: `0` to `9`.
pub open spec fn digit_class() -> Set<char> {
    Set::new(|c: char| '0' <= c && c <= '9')
}

/// The class of symbols, element by element.
pub open spec fn symbol_class() -> Set<char> {
    set![
        '!', '(', ')', '-', '.', '?', '[', ']', '_', '`', '~',
        ';', ':', '@', '#', '$', '%', '^', '&', '*', '+', '=',
    ]
}

/// `i` is one of the first 26 indices. Stated as a disjunction so that the
/// solver tries each index in turn.
spec fn among_26(i: int) -> bool {
    i == 0 || i == 1 || i == 2 || i == 3 || i == 4 || i == 5 || i == 6 || i == 7 || i == 8
        || i == 9 || i == 10 || i == 11 || i == 12 || i == 13 || i == 14 || i == 15 || i == 16
        || i == 17 || i == 18 || i == 19 || i == 20 || i == 21 || i == 22 || i == 23 || i == 24
        || i == 25
}

/// `ASCII_UPPER` spells out `upper_class()`.
pub proof fn lemma_upper_chars()
    ensures
        ASCII_UPPER@.to_set() == upper_class(),
{
    reveal_strlit("ABCDEFGHIJKLMNOPQRSTUVWXYZ");
    let s = ASCII_UPPER@;
    assert forall|c: char| upper_class().contains(c) implies s.to_set().contains(c) by {
        let i = c as int - 'A' as int;
        assert(among_26(i));
        assert(s[i] == c);
    }
    assert forall|c: char| s.to_set().contains(c) implies upper_class().contains(c) by {
        let i = choose|i: int| 0 <= i < s.len() && s[i] == c;
        assert(among_26(i));
    }
    assert(s.to_set() =~= upper_class());
}

/// `ASCII_LOWER` spells out `lower_class()`.
pub proof fn lemma_lower_chars()
    ensures
        ASCII_LOWER@.to_set() == lower_class(),
{
    reveal_strlit("abcdefghijklmnopqrstuvwxyz");
    let s = ASCII_LOWER@;
    assert forall|c: char| lower_class().contains(c) implies s.to_set().contains(c) by {
        let i = c as int - 'a' as int;
        assert(among_26(i));
        assert(s[i] == c);
    }
    assert forall|c: char| s.to_set().contains(c) implies lower_class().contains(c) by {
        let i = choose|i: int| 0 <= i < s.len() && s[i] == c;
        assert(among_26(i));
    }
    assert(s.to_set() =~= lower_class());
}

/// `ASCII_NUMBERS` spells out `digit_class()`.
pub proof fn lemma_digit_chars()
    ensures
        ASCII_NUMBERS@.to_set() == digit_class(),
{
    reveal_strlit("0123456789");
    let s = ASCII_NUMBERS@;
    assert forall|c: char| digit_class().contains(c) implies s.to_set().contains(c) by {
        let i = c as int - '0' as int;
        assert(among_26(i));
        assert(s[i] == c);
    }
    assert forall|c: char| s.to_set().contains(c) implies digit_class().contains(c) by {
        let i = choose|i: int| 0 <= i < s.len() && s[i] == c;
        assert(among_26(i));
    }
    assert(s.to_set() =~= digit_class());
}

/// `ASCII_SYMBOLS` spells out `symbol_class()`.
pub proof fn lemma_symbol_chars()
    ensures
        ASCII_SYMBOLS@.to_set() == symbol_class(),
{
    reveal_strlit("!()-.?[]_`~;:!@#$%^&*+=");
    let s = ASCII_SYMBOLS@;
    assert forall|c: char| symbol_class().contains(c) implies s.to_set().contains(c) by {
        assert(s[0] == '!' && s[1] == '(' && s[2] == ')' && s[3] == '-' && s[4] == '.');
        assert(s[5] == '?' && s[6] == '[' && s[7] == ']' && s[8] == '_' && s[9] == '`');
        assert(s[10] == '~' && s[11] == ';' && s[12] == ':' && s[14] == '@' && s[15] == '#');
        assert(s[16] == '$' && s[17] == '%' && s[18] == '^' && s[19] == '&' && s[20] == '*');
        assert(s[21] == '+' && s[22] == '=');
    }
    assert forall|c: char| s.to_set().contains(c) implies symbol_class().contains(c) by {
        let i = choose|i: int| 0 <= i < s.len() && s[i] == c;
        assert(among_26(i));
    }
    assert(s.to_set() =~= symbol_class());
}

/// The classes have 26, 26, 10 and 22 members.
pub proof fn lemma_class_sizes()
    ensures
        upper_class().finite() && upper_class().len() == 26,
        lower_class().finite() && lower_class().len() == 26,
        digit_class().finite() && digit_class().len() == 10,
        symbol_class().finite() && symbol_class().len() == 22,
{
    lemma_upper_chars();
    lemma_lower_chars();
    lemma_digit_chars();
    reveal_strlit("ABCDEFGHIJKLMNOPQRSTUVWXYZ");
    reveal_strlit("abcdefghijklmnopqrstuvwxyz");
    reveal_strlit("0123456789");
    let upper = ASCII_UPPER@;
    let lower = ASCII_LOWER@;
    let digits = ASCII_NUMBERS@;
    assert forall|i: int, j: int|
        0 <= i < upper.len() && 0 <= j < upper.len() && i != j implies upper[i] != upper[j] by {
        assert(among_26(i) && among_26(j));
    }
    assert forall|i: int, j: int|
        0 <= i < lower.len() && 0 <= j < lower.len() && i != j implies lower[i] != lower[j] by {
        assert(among_26(i) && among_26(j));
    }
    assert forall|i: int, j: int|
        0 <= i < digits.len() && 0 <= j < digits.len() && i != j implies digits[i] != digits[j] by {
        assert(among_26(i) && among_26(j));
    }
    upper.unique_seq_to_set();
    lower.unique_seq_to_set();
    digits.unique_seq_to_set();
    vstd::seq_lib::seq_to_set_is_finite(upper);
    vstd::seq_lib::seq_to_set_is_finite(lower);
    vstd::seq_lib::seq_to_set_is_finite(digits);
    let symbols = seq![
        '!', '(', ')', '-', '.', '?', '[', ']', '_', '`', '~',
        ';', ':', '@', '#', '$', '%', '^', '&', '*', '+', '=',
    ];
    assert forall|i: int, j: int|
        0 <= i < symbols.len() && 0 <= j < symbols.len() && i != j implies symbols[i]
            != symbols[j] by {
        assert(among_26(i) && among_26(j));
    }
    assert forall|c: char| symbols.to_set().contains(c) implies symbol_class().contains(c) by {
        let i = choose|i: int| 0 <= i < symbols.len() && symbols[i] == c;
        assert(among_26(i));
    }
    assert(symbols.to_set() =~= symbol_class());
    symbols.unique_seq_to_set();
    vstd::seq_lib::seq_to_set_is_finite(symbols);
}

/// No character belongs to two classes. In particular a letter and its
/// counterpart in the other case are different members.
pub proof fn lemma_classes_disjoint()
    ensures
        upper_class().disjoint(lower_class()),
        upper_class().disjoint(digit_class()),
        upper_class().disjoint(symbol_class()),
        lower_class().disjoint(digit_class()),
        lower_class().disjoint(symbol_class()),
        digit_class().disjoint(symbol_class()),
{
}

/// Every class has a member.
pub proof fn lemma_classes_inhabited()
    ensures
        upper_class().contains('A'),
        lower_class().contains('a'),
        digit_class().contains('0'),
        symbol_class().contains('!'),
{
}

} // verus!
