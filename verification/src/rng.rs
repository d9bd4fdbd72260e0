//! The deterministic counter-driven generator.
//!
//! Each draw derives a 64-bit seed from the runtime's operation counter by a
//! wrapping multiply-and-add, scrambles it with a three-step xorshift, and
//! hands the result back. The raw word is a closed function of the counter
//! alone, so two sessions whose counters agree draw bit-for-bit identical
//! words — the generator's reproducibility contract. The host maps the word
//! into the unit interval by dividing by the largest 64-bit value; nothing
//! about the generator is cryptographic.

use vstd::prelude::*;
use vstd::wrapping::u64_specs;

verus! {

/// Multiplier of the seed derivation.
pub const SEED_MULTIPLIER: u64 = 6364136223846793005;

/// Increment of the seed derivation.
pub const SEED_INCREMENT: u64 = 1442695040888963407;

/// The seed a given operation counter derives: a wrapping multiply-and-add.
pub open spec fn seed_of(counter: u32) -> u64 {
    u64_specs::wrapping_add(
        u64_specs::wrapping_mul(counter as u64, SEED_MULTIPLIER),
        SEED_INCREMENT,
    )
}

/// The three-step xorshift scramble.
pub open spec fn scramble(x: u64) -> u64 {
    let a = x ^ (x << 13u64);
    let b = a ^ (a >> 7u64);
    b ^ (b << 17u64)
}

/// The raw 64-bit word drawn at a given operation counter.
pub open spec fn raw_draw(counter: u32) -> u64 {
    scramble(seed_of(counter))
}

/// Draws the raw word for a counter value.
pub fn draw_raw(counter: u32) -> (r: u64)
    ensures
        r == raw_draw(counter),
{
    let seed = (counter as u64).wrapping_mul(SEED_MULTIPLIER).wrapping_add(SEED_INCREMENT);
    let a = seed ^ (seed << 13u64);
    let b = a ^ (a >> 7u64);
    b ^ (b << 17u64)
}

/// Reproducibility of the generator: the raw draw is a function of the
/// operation counter alone, so sessions whose counters agree draw the same
/// word.
pub proof fn lemma_draw_reproducible(c1: u32, c2: u32)
    requires
        c1 == c2,
    ensures
        raw_draw(c1) == raw_draw(c2),
{
}

} // verus!
