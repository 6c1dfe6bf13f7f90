use vaultkey::constants::{AMBIGUOUS, DIGITS, LOWERCASE, SPECIALS, UPPERCASE};
use vaultkey::error::VaultKeyError;
use vaultkey::PasswordBuilder;

#[test]
fn default_builder_gives_twelve_characters() {
    let password = PasswordBuilder::default().build().unwrap();
    assert_eq!(password.chars().count(), 12);
    let digits = password.chars().filter(|c| DIGITS.contains(*c)).count();
    let specials = password.chars().filter(|c| SPECIALS.contains(*c)).count();
    assert!(digits >= 1);
    assert!(specials >= 1);
    assert!(password.chars().all(|c| {
        UPPERCASE.contains(c) || LOWERCASE.contains(c) || DIGITS.contains(c) || SPECIALS.contains(c)
    }));
}

#[test]
fn builder_chain_sets_every_choice() {
    let password = PasswordBuilder::default()
        .length(50)
        .with_uppercase(true)
        .min_digits(2)
        .min_specials(2)
        .avoid_ambiguous(true)
        .build()
        .unwrap();
    assert_eq!(password.chars().count(), 50);
    assert!(!password.chars().any(|c| AMBIGUOUS.contains(c)));
    assert!(password.chars().filter(|c| DIGITS.contains(*c)).count() >= 2);
    assert!(password.chars().filter(|c| SPECIALS.contains(*c)).count() >= 2);
}

#[test]
fn builder_length_overwrites_the_default() {
    let password = PasswordBuilder::default().length(16).length(31).build().unwrap();
    assert_eq!(password.chars().count(), 31);
}

#[test]
fn builder_can_leave_classes_out() {
    let password = PasswordBuilder::default()
        .length(60)
        .with_uppercase(false)
        .with_digits(false)
        .with_specials(false)
        .build()
        .unwrap();
    assert_eq!(password.chars().count(), 60);
    assert!(password.chars().all(|c| LOWERCASE.contains(c)));
}

#[test]
fn builder_with_lowercase_off_gives_no_lowercase() {
    let password = PasswordBuilder::default()
        .length(80)
        .with_lowercase(false)
        .build()
        .unwrap();
    assert!(!password.chars().any(|c| LOWERCASE.contains(c)));
}

#[test]
fn builder_minimums_reach_the_generator() {
    let password = PasswordBuilder::default()
        .length(9)
        .min_digits(9)
        .min_specials(3)
        .build()
        .unwrap();
    assert!(password.chars().all(|c| DIGITS.contains(c)));

    let password = PasswordBuilder::default()
        .length(9)
        .min_digits(0)
        .min_specials(9)
        .build()
        .unwrap();
    assert!(password.chars().all(|c| SPECIALS.contains(c)));
}

#[test]
fn builder_refuses_short_lengths() {
    let result = PasswordBuilder::default().length(4).build();
    assert!(matches!(result, Err(VaultKeyError::PasswordTooShort)));
}

#[test]
fn builder_refuses_an_empty_pool() {
    let result = PasswordBuilder::default()
        .with_uppercase(false)
        .with_lowercase(false)
        .with_digits(false)
        .with_specials(false)
        .build();
    assert!(matches!(
        result,
        Err(VaultKeyError::NoCharacterTypesSelected)
    ));
}
