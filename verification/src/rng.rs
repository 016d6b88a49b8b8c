//! The source of randomness behind the random instruction. Nothing in this
//! file is proved: it states what the rest of the crate takes on trust about
//! the `rand` crate, which is next to nothing.

use rand::Rng;
use vstd::prelude::*;

verus! {

/// `rand::rngs::ThreadRng`, the handle to the calling thread's generator. The
/// crate only carries it; nothing inside it is visible to the proofs.
#[verifier::external_type_specification]
#[verifier::external_body]
pub struct ExThreadRng(rand::rngs::ThreadRng);

/// `rand::thread_rng` hands out a handle to the calling thread's generator.
/// Nothing is claimed of the handle. The generator is seeded from the
/// operating system when a thread first asks for it, and `rand` panics if
/// that seeding fails; no argument decides this.
pub assume_specification[ rand::thread_rng ]() -> (rng: rand::rngs::ThreadRng);

/// Draws one byte with `Rng::gen`. The byte depends on the generator's hidden
/// state, so nothing is claimed of it beyond its type, and nothing of the
/// generator afterwards: callers are verified for every byte that may come
/// back. The generator reseeds itself from the operating system from time to
/// time, and `rand` panics if that fails; no argument decides this.
#[verifier::external_body]
pub(crate) fn random_byte(rng: &mut rand::rngs::ThreadRng) -> (byte: u8) {
    rng.gen()
}

} // verus!
