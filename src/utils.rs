//! Naming helpers.

use crate::text::{hex, hex_digits};
use rand::Rng;
use vstd::prelude::*;

verus! {

/// Relies on rand's `thread_rng().gen::<u64>()`: a value drawn from the thread's
/// generator. Nothing is promised of which value.
#[verifier::external_body]
fn random_u64() -> (r: u64) {
    rand::thread_rng().gen::<u64>()
}

/// A random name: a random 64-bit number in lower-case hexadecimal.
pub fn random_string() -> (r: String)
    ensures
        exists|n: u64| r@ == hex_digits(n as nat),
{
    let n = random_u64();
    hex(n)
}

} // verus!
