//! The randomness that generation consumes, and the conversion of the
//! finished characters into a `String`.
//!
//! Nothing in this file is proved: each function states what the library
//! relies on from the code it calls.

use rand::rngs::ThreadRng;
use rand::seq::SliceRandom;
use rand::Rng;
use vstd::prelude::*;

verus! {

#[verifier::external_type_specification]
#[verifier::external_body]
pub struct ExThreadRng(ThreadRng);

/// Calls `rand::rng`, which hands out a handle to the generator of the
/// current thread. Nothing is claimed of the handle.
#[verifier::external_body]
pub(crate) fn thread_rng() -> ThreadRng {
    rand::rng()
}

/// Calls `Rng::random_range` on the range `0..bound`. The range must not be
/// empty, since the call panics on an empty one; the value that comes back
/// lies in the range. Which value it is depends on chance.
#[verifier::external_body]
pub(crate) fn random_index(rng: &mut ThreadRng, bound: usize) -> (index: usize)
    requires
        bound > 0,
    ensures
        index < bound,
{
    rng.random_range(0..bound)
}

/// Calls `SliceRandom::shuffle`, which reorders a slice in place by swapping
/// its items. The same characters are there afterwards, each as often as
/// before; in which order depends on chance.
#[verifier::external_body]
pub(crate) fn shuffle(chars: &mut Vec<char>, rng: &mut ThreadRng)
    ensures
        final(chars)@.to_multiset() == old(chars)@.to_multiset(),
{
    chars.shuffle(rng);
}

/// Calls `String::from_iter` on the characters of `chars`: the string holds
/// these characters in the same order.
#[verifier::external_body]
pub(crate) fn string_from_chars(chars: &Vec<char>) -> (text: String)
    ensures
        text@ == chars@,
{
    String::from_iter(chars.iter())
}

} // verus!
