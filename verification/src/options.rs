//! The configuration of one generation request, and what it means.

use vstd::prelude::*;

use crate::constants::{without_ambiguous, DIGITS, LOWERCASE, SPECIALS, UPPERCASE};

verus! {

/// Configuration options for password generation.
///
/// Nothing is checked when a value is made: every combination of fields is a
/// request, and the generator decides whether it can be met.
#[derive(Debug)]
pub struct PasswordOptions {
    /// Length of the password.
    pub length: usize,
    /// Whether to include uppercase letters.
    pub include_uppercase: bool,
    /// Whether to include lowercase letters.
    pub include_lowercase: bool,
    /// Whether to include digits.
    pub include_digits: bool,
    /// Whether to include special characters.
    pub include_specials: bool,
    /// Minimum number of digits required.
    pub min_digits: usize,
    /// Minimum number of special characters required.
    pub min_specials: usize,
    /// Whether to avoid ambiguous characters.
    pub avoid_ambiguous: bool,
}

/// `class` if `wanted`, else nothing.
pub open spec fn class_if(wanted: bool, class: Seq<char>) -> Seq<char> {
    if wanted {
        class
    } else {
        Seq::empty()
    }
}

impl PasswordOptions {
    /// The characters of `chars` that these options let through: all of them,
    /// or those that are not ambiguous.
    pub open spec fn allowed(self, chars: Seq<char>) -> Seq<char> {
        if self.avoid_ambiguous {
            without_ambiguous(chars)
        } else {
            chars
        }
    }

    /// The included classes one after the other: uppercase, lowercase, digits,
    /// specials.
    pub open spec fn included(self) -> Seq<char> {
        class_if(self.include_uppercase, UPPERCASE@) + class_if(
            self.include_lowercase,
            LOWERCASE@,
        ) + class_if(self.include_digits, DIGITS@) + class_if(self.include_specials, SPECIALS@)
    }

    /// The pool that fill characters are drawn from.
    pub open spec fn pool(self) -> Seq<char> {
        self.allowed(self.included())
    }

    /// The digits that may appear in a password.
    pub open spec fn digit_pool(self) -> Seq<char> {
        self.allowed(DIGITS@)
    }

    /// The special characters that may appear in a password.
    pub open spec fn special_pool(self) -> Seq<char> {
        self.allowed(SPECIALS@)
    }

    /// Whether no class at all is included.
    pub open spec fn nothing_included(self) -> bool {
        !self.include_uppercase && !self.include_lowercase && !self.include_digits
            && !self.include_specials
    }

    /// The number of digits that a password is owed: the requested minimum,
    /// but no more than the length, and none where digits are not included.
    pub open spec fn effective_min_digits(self) -> nat {
        if !self.include_digits {
            0
        } else if self.min_digits <= self.length {
            self.min_digits as nat
        } else {
            self.length as nat
        }
    }

    /// The number of special characters that a password is owed: the requested
    /// minimum, but no more than the length that the owed digits leave, and
    /// none where specials are not included.
    pub open spec fn effective_min_specials(self) -> nat {
        let left = (self.length - self.effective_min_digits()) as nat;
        if !self.include_specials {
            0
        } else if self.min_specials <= left {
            self.min_specials as nat
        } else {
            left
        }
    }
}

} // verus!
