//! The ways in which a request can be refused.

use vstd::prelude::*;

verus! {

/// Errors that can occur when generating a password.
#[derive(Debug)]
pub enum VaultKeyError {
    /// The requested password is too short.
    PasswordTooShort,
    /// No character is left to build a password from.
    NoCharacterTypesSelected,
}

impl VaultKeyError {
    /// The text that describes this error.
    pub open spec fn message(self) -> Seq<char> {
        match self {
            VaultKeyError::PasswordTooShort => "Password length must be at least 5"@,
            VaultKeyError::NoCharacterTypesSelected => {
                "No character types selected for password generation"@
            },
        }
    }

    /// Renders the error as text.
    pub fn to_string(&self) -> (text: String)
        ensures
            text@ == self.message(),
    {
        match self {
            VaultKeyError::PasswordTooShort => "Password length must be at least 5".to_owned(),
            VaultKeyError::NoCharacterTypesSelected => {
                "No character types selected for password generation".to_owned()
            },
        }
    }
}

} // verus!
