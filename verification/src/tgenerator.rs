//! Where transaction identifiers come from.

use rand::distributions::{Alphanumeric, DistString};
use vstd::prelude::*;

verus! {

/// A source of transaction identifiers. An implementation should make a
/// repeat among the requests that are in flight together unlikely; the
/// engine does not rely on it, and refuses an identifier that is in flight.
pub trait GenerateTransaction {
    fn generate_transaction(&self) -> String;
}

/// Whether `c` is an ASCII letter or digit.
pub open spec fn is_alphanumeric(c: char) -> bool {
    ('a' <= c && c <= 'z') || ('A' <= c && c <= 'Z') || ('0' <= c && c <= '9')
}

/// The length of the identifiers that [`RandomTransactionGenerator`] makes.
pub const RANDOM_TRANSACTION_LEN: usize = 12;

/// Draws each identifier at random: twelve ASCII letters and digits.
#[derive(Clone, Copy, Debug)]
pub struct RandomTransactionGenerator;

/// `rand::distributions::DistString::sample_string` on `Alphanumeric`, fed by
/// `rand::thread_rng`: a string of `len` characters, each drawn from the
/// ASCII letters and digits. Which ones is left open. The generator is
/// seeded from the operating system when a thread first uses it.
#[verifier::external_body]
fn sample_alphanumeric(len: usize) -> (s: String)
    ensures
        s@.len() == len,
        forall|i: int| 0 <= i < s@.len() ==> is_alphanumeric(#[trigger] s@[i]),
{
    Alphanumeric.sample_string(&mut rand::thread_rng(), len)
}

impl GenerateTransaction for RandomTransactionGenerator {
    fn generate_transaction(&self) -> (transaction: String)
        ensures
            transaction@.len() == RANDOM_TRANSACTION_LEN,
            forall|i: int|
                0 <= i < transaction@.len() ==> is_alphanumeric(#[trigger] transaction@[i]),
    {
        sample_alphanumeric(RANDOM_TRANSACTION_LEN)
    }
}

} // verus!
