use vaultkey::constants::{AMBIGUOUS, DIGITS, LOWERCASE, SPECIALS, UPPERCASE};
use vaultkey::error::VaultKeyError;
use vaultkey::generator::{
    allowed_chars, character_pool, effective_minimums, is_ambiguous_char, push_chars,
    push_drawn, remove_ambiguous, MIN_LENGTH,
};
use vaultkey::options::PasswordOptions;

fn options(
    classes: (bool, bool, bool, bool),
    length: usize,
    min_digits: usize,
    min_specials: usize,
    avoid_ambiguous: bool,
) -> PasswordOptions {
    PasswordOptions {
        length,
        include_uppercase: classes.0,
        include_lowercase: classes.1,
        include_digits: classes.2,
        include_specials: classes.3,
        min_digits,
        min_specials,
        avoid_ambiguous,
    }
}

fn text(chars: &[char]) -> String {
    chars.iter().collect()
}

#[test]
fn classes_hold_the_fixed_characters() {
    assert_eq!(UPPERCASE, "ABCDEFGHIJKLMNOPQRSTUVWXYZ");
    assert_eq!(LOWERCASE, "abcdefghijklmnopqrstuvwxyz");
    assert_eq!(DIGITS, "0123456789");
    assert_eq!(SPECIALS, "!@#$%^&*()-_=+[]{}|;:,.<>?/");
    assert_eq!(AMBIGUOUS, "Il1O0");
    assert_eq!(MIN_LENGTH, 5);
}

#[test]
fn ambiguous_characters_are_recognised() {
    for c in ['I', 'l', '1', 'O', '0'] {
        assert!(is_ambiguous_char(c));
    }
    for c in ['i', 'L', '2', 'o', 'Q', '!', '|', ' '] {
        assert!(!is_ambiguous_char(c));
    }
}

#[test]
fn push_chars_appends_in_order() {
    let mut out = vec!['x'];
    push_chars(&mut out, "abc");
    push_chars(&mut out, "");
    push_chars(&mut out, "01");
    assert_eq!(out, vec!['x', 'a', 'b', 'c', '0', '1']);
}

#[test]
fn remove_ambiguous_keeps_the_rest_in_order() {
    let chars: Vec<char> = "HIJKlmn0123OP".chars().collect();
    assert_eq!(text(&remove_ambiguous(&chars)), "HJKmn23P");
    assert_eq!(remove_ambiguous(&Vec::new()), Vec::<char>::new());
    let only: Vec<char> = AMBIGUOUS.chars().collect();
    assert_eq!(remove_ambiguous(&only), Vec::<char>::new());
}

#[test]
fn allowed_chars_filters_only_on_request() {
    let keep = options((true, true, true, true), 12, 1, 1, false);
    let avoid = options((true, true, true, true), 12, 1, 1, true);
    assert_eq!(text(&allowed_chars(&keep, DIGITS)), "0123456789");
    assert_eq!(text(&allowed_chars(&avoid, DIGITS)), "23456789");
    assert_eq!(text(&allowed_chars(&avoid, SPECIALS)), SPECIALS);
    assert_eq!(
        text(&allowed_chars(&avoid, UPPERCASE)),
        "ABCDEFGHJKLMNPQRSTUVWXYZ"
    );
    assert_eq!(
        text(&allowed_chars(&avoid, LOWERCASE)),
        "abcdefghijkmnopqrstuvwxyz"
    );
}

#[test]
fn pool_joins_the_included_classes_in_order() {
    let all = options((true, true, true, true), 12, 1, 1, false);
    assert_eq!(
        text(&character_pool(&all)),
        "ABCDEFGHIJKLMNOPQRSTUVWXYZabcdefghijklmnopqrstuvwxyz0123456789!@#$%^&*()-_=+[]{}|;:,.<>?/"
    );
    let some = options((false, true, true, false), 12, 1, 1, false);
    assert_eq!(
        text(&character_pool(&some)),
        "abcdefghijklmnopqrstuvwxyz0123456789"
    );
}

#[test]
fn pool_leaves_out_ambiguous_characters_on_request() {
    let all = options((true, true, true, true), 12, 1, 1, true);
    assert_eq!(
        text(&character_pool(&all)),
        "ABCDEFGHJKLMNPQRSTUVWXYZabcdefghijkmnopqrstuvwxyz23456789!@#$%^&*()-_=+[]{}|;:,.<>?/"
    );
}

#[test]
fn pool_is_empty_without_classes() {
    for avoid in [false, true] {
        let none = options((false, false, false, false), 12, 1, 1, avoid);
        assert!(character_pool(&none).is_empty());
    }
}

#[test]
fn minimums_that_fit_stay() {
    let o = options((true, true, true, true), 20, 5, 2, false);
    assert_eq!(effective_minimums(&o), (5, 2));
    let o = options((true, true, true, true), 12, 0, 0, false);
    assert_eq!(effective_minimums(&o), (0, 0));
}

#[test]
fn minimums_are_cut_down_digits_first() {
    let o = options((true, true, true, true), 5, 3, 4, false);
    assert_eq!(effective_minimums(&o), (3, 2));
    let o = options((true, true, true, true), 5, 9, 4, false);
    assert_eq!(effective_minimums(&o), (5, 0));
    let o = options((true, true, true, true), 5, 5, 5, false);
    assert_eq!(effective_minimums(&o), (5, 0));
    let o = options((true, true, true, true), 7, 0, 9, false);
    assert_eq!(effective_minimums(&o), (0, 7));
    let o = options((true, true, true, true), usize::MAX, usize::MAX, usize::MAX, false);
    assert_eq!(effective_minimums(&o), (usize::MAX, 0));
}

#[test]
fn minimums_of_classes_left_out_are_zero() {
    let o = options((true, true, false, true), 10, 4, 20, false);
    assert_eq!(effective_minimums(&o), (0, 10));
    let o = options((true, true, true, false), 10, 4, 20, false);
    assert_eq!(effective_minimums(&o), (4, 0));
    let o = options((true, false, false, false), 10, 4, 20, false);
    assert_eq!(effective_minimums(&o), (0, 0));
}

#[test]
fn push_drawn_appends_the_selected_character() {
    let set: Vec<char> = DIGITS.chars().collect();
    let mut draft = vec!['a'];
    push_drawn(&mut draft, &set, 3);
    push_drawn(&mut draft, &set, 0);
    push_drawn(&mut draft, &set, 9);
    assert_eq!(draft, vec!['a', '3', '0', '9']);
}

#[test]
fn errors_render_their_text() {
    assert_eq!(
        VaultKeyError::PasswordTooShort.to_string(),
        "Password length must be at least 5"
    );
    assert_eq!(
        VaultKeyError::NoCharacterTypesSelected.to_string(),
        "No character types selected for password generation"
    );
}
