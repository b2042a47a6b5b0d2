use vstd::prelude::*;

use rand::{RngCore, SeedableRng};
use rand_chacha::ChaCha8Rng;

verus! {

/// The stream of 32-bit words that a ChaCha8 generator produces after being
/// seeded from a 64-bit seed: `chacha_word(seed, i)` is the word drawn at
/// position `i`.
pub uninterp spec fn chacha_word(seed: u64, i: nat) -> u32;

/// Relies on rand_chacha::ChaCha8Rng::seed_from_u64 and rand::RngCore::next_u32:
/// ChaCha8 is a portable, explicitly seeded stream cipher, so the words drawn
/// after seeding are a function of the seed and the draw position alone, the
/// same in every process and on every machine.
#[verifier::external_body]
pub(crate) fn chacha_words(seed: u64, n: usize) -> (r: Vec<u32>)
    ensures
        r@.len() == n,
        forall|i: int| 0 <= i < n ==> r@[i] == chacha_word(seed, i as nat),
{
    let mut rng = ChaCha8Rng::seed_from_u64(seed);
    let mut words = Vec::with_capacity(n);
    for _ in 0..n {
        words.push(rng.next_u32());
    }
    words
}

} // verus!
