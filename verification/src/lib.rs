//! Random passwords under composition constraints: a requested length, the
//! character classes to draw from, minimum counts of digits and of special
//! characters, and the option to leave out characters that are easily confused.

pub mod builder;
pub mod constants;
pub mod counting;
pub mod error;
pub mod generator;
pub mod guarantees;
pub mod options;
mod random;

pub use builder::PasswordBuilder;
