//! The pseudorandom generator behind every stream, and the draws taken from it.
//!
//! The generator is `Xoshiro256StarStar`. Nothing here is proved about its
//! arithmetic: each outside call is given a contract that names its result as
//! a function of the generator's four state words, and the rest of the crate
//! is proved against those contracts.

use rand::distributions::Distribution;
use rand::distributions::Uniform;
use rand::Rng;
use rand::SeedableRng;
use rand_xoshiro::Xoshiro256StarStar;
use vstd::prelude::*;

verus! {

/// `rand_xoshiro::Xoshiro256StarStar`, carried as an opaque value.
#[verifier::external_type_specification]
#[verifier::external_body]
pub struct ExXoshiro256StarStar(Xoshiro256StarStar);

/// The four 64-bit state words that a generator holds.
pub uninterp spec fn words(g: Xoshiro256StarStar) -> Seq<u64>;

/// The state words of the generator that `seed_from_u64` makes of a seed.
pub uninterp spec fn seeded_words(seed: u64) -> Seq<u64>;

/// The state words that `jump` leaves, given the words it found.
pub uninterp spec fn jumped_words(before: Seq<u64>) -> Seq<u64>;

/// The value that a uniform draw below `high` yields from a generator in
/// state `before`, and the state it leaves.
pub uninterp spec fn below_u32(before: Seq<u64>, high: u32) -> (u32, Seq<u64>);

/// The value that a uniform draw below `high` yields from a generator in
/// state `before`, and the state it leaves.
pub uninterp spec fn below_u64(before: Seq<u64>, high: u64) -> (u64, Seq<u64>);

/// The outcome of a trial that succeeds `numerator` times in `denominator`,
/// taken from a generator in state `before`, and the state it leaves.
pub uninterp spec fn ratio_trial(before: Seq<u64>, numerator: u32, denominator: u32) -> (
    bool,
    Seq<u64>,
);

/// `Xoshiro256StarStar::seed_from_u64`: the generator is a function of the
/// seed alone.
#[verifier::external_body]
pub(crate) fn seed_generator(seed: u64) -> (g: Xoshiro256StarStar)
    ensures
        words(g) == seeded_words(seed),
{
    Xoshiro256StarStar::seed_from_u64(seed)
}

/// `Xoshiro256StarStar::jump`: the new state is a function of the old one.
#[verifier::external_body]
pub(crate) fn jump_generator(g: &mut Xoshiro256StarStar)
    ensures
        words(*final(g)) == jumped_words(words(*old(g))),
{
    g.jump()
}

/// `Clone::clone` of `Xoshiro256StarStar`, which the crate derives: the copy
/// holds the same state words.
#[verifier::external_body]
pub(crate) fn copy_generator(g: &Xoshiro256StarStar) -> (copy: Xoshiro256StarStar)
    ensures
        words(copy) == words(*g),
{
    g.clone()
}

/// `Uniform::new(0u32, high)` sampled once: the value lies below `high`, and
/// value and new state are functions of the old state and `high`. `new`
/// panics on an empty range, which the precondition leaves out.
#[verifier::external_body]
pub(crate) fn draw_below_u32(g: &mut Xoshiro256StarStar, high: u32) -> (v: u32)
    requires
        high > 0,
    ensures
        v < high,
        v == below_u32(words(*old(g)), high).0,
        words(*final(g)) == below_u32(words(*old(g)), high).1,
{
    Uniform::new(0u32, high).sample(g)
}

/// `Uniform::new(0u64, high)` sampled once: the value lies below `high`, and
/// value and new state are functions of the old state and `high`. `new`
/// panics on an empty range, which the precondition leaves out.
#[verifier::external_body]
pub(crate) fn draw_below_u64(g: &mut Xoshiro256StarStar, high: u64) -> (v: u64)
    requires
        high > 0,
    ensures
        v < high,
        v == below_u64(words(*old(g)), high).0,
        words(*final(g)) == below_u64(words(*old(g)), high).1,
{
    Uniform::new(0u64, high).sample(g)
}

/// `Rng::gen_ratio`: true with `numerator` chances in `denominator`; always
/// true when the two are equal and never when `numerator` is zero. It panics
/// on a zero denominator or a ratio above one, which the precondition leaves
/// out.
#[verifier::external_body]
pub(crate) fn draw_ratio(g: &mut Xoshiro256StarStar, numerator: u32, denominator: u32) -> (hit:
    bool)
    requires
        0 < denominator,
        numerator <= denominator,
    ensures
        numerator == denominator ==> hit,
        numerator == 0 ==> !hit,
        hit == ratio_trial(words(*old(g)), numerator, denominator).0,
        words(*final(g)) == ratio_trial(words(*old(g)), numerator, denominator).1,
{
    g.gen_ratio(numerator, denominator)
}

/// `rand::thread_rng` sampled once through `Uniform::new(0u64, u64::MAX)`:
/// the value comes from the system's entropy, so all that holds of it is
/// that it lies below the bound.
#[verifier::external_body]
pub(crate) fn draw_fresh_seed() -> (seed: u64)
    ensures
        seed < u64::MAX,
{
    rand::thread_rng().sample(Uniform::new(0u64, u64::MAX))
}

/// A generator seeded from one integer.
pub fn generator_from_seed(seed: u64) -> (g: Xoshiro256StarStar)
    ensures
        words(g) == seeded_words(seed),
{
    seed_generator(seed)
}

} // verus!
