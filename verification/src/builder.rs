//! A builder that collects the choices for one password and then has it
//! generated.

use vstd::prelude::*;

use crate::error::VaultKeyError;
use crate::generator::{generate_password, is_password_for, MIN_LENGTH};
use crate::options::PasswordOptions;

verus! {

/// Builder for creating passwords with customizable options.
///
/// Each setter overwrites one choice and leaves the others as they are. No
/// setter refuses a value: whether the choices can be met is decided by
/// [`PasswordBuilder::build`].
#[derive(Debug)]
pub struct PasswordBuilder {
    /// Configuration options for the password.
    options: PasswordOptions,
}

impl View for PasswordBuilder {
    type V = PasswordOptions;

    /// The options collected so far.
    closed spec fn view(&self) -> PasswordOptions {
        self.options
    }
}

impl Default for PasswordBuilder {
    /// Creates a new `PasswordBuilder` with default options: twelve
    /// characters from all four classes, at least one digit and one special
    /// character, ambiguous characters allowed.
    fn default() -> (builder: Self)
        ensures
            builder@ == (PasswordOptions {
                length: 12,
                include_uppercase: true,
                include_lowercase: true,
                include_digits: true,
                include_specials: true,
                min_digits: 1,
                min_specials: 1,
                avoid_ambiguous: false,
            }),
    {
        Self {
            options: PasswordOptions {
                length: 12,
                include_uppercase: true,
                include_lowercase: true,
                include_digits: true,
                include_specials: true,
                min_digits: 1,
                min_specials: 1,
                avoid_ambiguous: false,
            },
        }
    }
}

impl PasswordBuilder {
    /// Sets the desired length of the password, in characters.
    #[must_use]
    pub fn length(self, len: usize) -> (builder: Self)
        ensures
            builder@ == (PasswordOptions { length: len, ..self@ }),
    {
        let mut next = self;
        next.options.length = len;
        next
    }

    /// Controls the inclusion of uppercase letters in the password.
    #[must_use]
    pub fn with_uppercase(self, enabled: bool) -> (builder: Self)
        ensures
            builder@ == (PasswordOptions { include_uppercase: enabled, ..self@ }),
    {
        let mut next = self;
        next.options.include_uppercase = enabled;
        next
    }

    /// Controls the inclusion of lowercase letters in the password.
    #[must_use]
    pub fn with_lowercase(self, enabled: bool) -> (builder: Self)
        ensures
            builder@ == (PasswordOptions { include_lowercase: enabled, ..self@ }),
    {
        let mut next = self;
        next.options.include_lowercase = enabled;
        next
    }

    /// Controls the inclusion of digits in the password.
    #[must_use]
    pub fn with_digits(self, enabled: bool) -> (builder: Self)
        ensures
            builder@ == (PasswordOptions { include_digits: enabled, ..self@ }),
    {
        let mut next = self;
        next.options.include_digits = enabled;
        next
    }

    /// Controls the inclusion of special characters in the password.
    #[must_use]
    pub fn with_specials(self, enabled: bool) -> (builder: Self)
        ensures
            builder@ == (PasswordOptions { include_specials: enabled, ..self@ }),
    {
        let mut next = self;
        next.options.include_specials = enabled;
        next
    }

    /// Sets the minimum number of digits required in the password.
    #[must_use]
    pub fn min_digits(self, min: usize) -> (builder: Self)
        ensures
            builder@ == (PasswordOptions { min_digits: min, ..self@ }),
    {
        let mut next = self;
        next.options.min_digits = min;
        next
    }

    /// Sets the minimum number of special characters required in the password.
    #[must_use]
    pub fn min_specials(self, min: usize) -> (builder: Self)
        ensures
            builder@ == (PasswordOptions { min_specials: min, ..self@ }),
    {
        let mut next = self;
        next.options.min_specials = min;
        next
    }

    /// Controls whether to avoid ambiguous characters (I, l, 1, O, 0) in the
    /// password.
    #[must_use]
    pub fn avoid_ambiguous(self, avoid: bool) -> (builder: Self)
        ensures
            builder@ == (PasswordOptions { avoid_ambiguous: avoid, ..self@ }),
    {
        let mut next = self;
        next.options.avoid_ambiguous = avoid;
        next
    }

    /// Builds the password with the configured options: the result is that of
    /// [`generate_password`] on them.
    pub fn build(self) -> (result: Result<String, VaultKeyError>)
        ensures
            self@.length < MIN_LENGTH ==> result matches Err(VaultKeyError::PasswordTooShort),
            self@.length >= MIN_LENGTH && (self@.nothing_included() || self@.pool().len() == 0)
                ==> result matches Err(VaultKeyError::NoCharacterTypesSelected),
            self@.length >= MIN_LENGTH && self@.pool().len() > 0 ==> (result matches Ok(password)
                && is_password_for(self@, password@)),
    {
        generate_password(&self.options)
    }
}

} // verus!
