//! The source of randomness: the generator of `bracket_lib`.
//!
//! Nothing in this module is proved. It declares the generator's type, gives
//! names to its state and to what two of its functions compute from their
//! arguments alone, and states what the source of the three functions that
//! the game calls shows of them.

use vstd::prelude::*;
use bracket_lib::prelude::RandomNumberGenerator;

verus! {

/// `bracket_lib`'s random number generator, carried as an opaque value.
#[verifier::external_type_specification]
#[verifier::external_body]
pub struct ExRandomNumberGenerator(RandomNumberGenerator);

/// The state of a generator: the words of its shift register. The generator
/// holds nothing else, so the numbers it will give depend on these alone.
pub uninterp spec fn rng_words(rng: RandomNumberGenerator) -> Seq<u32>;

/// The state of the generator that `RandomNumberGenerator::seeded` makes of
/// `seed`.
pub uninterp spec fn seeded_words(seed: u64) -> Seq<u32>;

/// What `RandomNumberGenerator::range` on `i32` does with a generator in the
/// state `words`: the number it returns, and the state in which it leaves the
/// generator.
pub uninterp spec fn range_outcome(words: Seq<u32>, min: i32, max: i32) -> (i32, Seq<u32>);

/// `RandomNumberGenerator::new`: a generator seeded by the operating system.
/// Nothing is claimed of it.
pub assume_specification[ RandomNumberGenerator::new ]() -> (rng: RandomNumberGenerator);

/// `RandomNumberGenerator::seeded`: a generator started from `seed`. Its
/// state is a function of the seed, on every machine and in every run.
pub assume_specification[ RandomNumberGenerator::seeded ](seed: u64) -> (rng:
    RandomNumberGenerator)
    ensures
        rng_words(rng) == seeded_words(seed),
;

/// `RandomNumberGenerator::range` on `i32`: a number that is at least `min`
/// and less than `max`. Which number it is, and the state the generator is
/// left in, depend on the generator's state and the two bounds alone. The
/// generator refuses an empty range by panicking, so `min < max` is required.
#[verifier::external_body]
pub(crate) fn random_in(rng: &mut RandomNumberGenerator, min: i32, max: i32) -> (n: i32)
    requires
        min < max,
    ensures
        n == range_outcome(rng_words(*old(rng)), min, max).0,
        rng_words(*final(rng)) == range_outcome(rng_words(*old(rng)), min, max).1,
        min <= n < max,
{
    rng.range(min, max)
}

} // verus!
