//! Substreams of one shared generator.
//!
//! Under the jump-derived policy every connection gets the state in which it
//! finds the shared generator, and leaves the shared generator one jump
//! further on. The substream of the `k`-th connection is thus the seeded
//! generator jumped `k` times: a function of the seed and of `k` alone.

use crate::config::Config;
use crate::config::ConfigError;
use crate::generator::copy_generator;
use crate::generator::jump_generator;
use crate::generator::jumped_words;
use crate::generator::seed_generator;
use crate::generator::seeded_words;
use crate::generator::words;
use crate::profile::Sampler;
use crate::profile::StreamProfile;
use rand_xoshiro::Xoshiro256StarStar;
use vstd::prelude::*;

verus! {

/// The state that `k` jumps make of the state `start`.
pub open spec fn jumped_times(start: Seq<u64>, k: nat) -> Seq<u64>
    decreases k,
{
    if k == 0 {
        start
    } else {
        jumped_words(jumped_times(start, (k - 1) as nat))
    }
}

/// The state in which the `k`-th connection (counted from zero) gets its
/// generator, where the shared generator was seeded with `seed`.
pub open spec fn substream_words(seed: u64, k: nat) -> Seq<u64> {
    jumped_times(seeded_words(seed), k)
}

/// A later substream starts where an earlier one would be after the jumps
/// that lie between them; between two different connections there is at
/// least one jump.
pub proof fn lemma_substreams_apart(start: Seq<u64>, i: nat, j: nat)
    requires
        i <= j,
    ensures
        jumped_times(start, j) == jumped_times(jumped_times(start, i), (j - i) as nat),
    decreases j - i,
{
    if i < j {
        lemma_substreams_apart(start, i, (j - 1) as nat);
    }
}

/// The shared generator and the number of connections it has served.
pub struct SubstreamSource {
    seed: u64,
    shared: Xoshiro256StarStar,
    served: Ghost<nat>,
}

impl SubstreamSource {
    #[verifier::type_invariant]
    spec fn inv(&self) -> bool {
        words(self.shared) == substream_words(self.seed, self.served@)
    }

    /// The seed of the shared generator.
    pub closed spec fn seed(&self) -> u64 {
        self.seed
    }

    /// The number of connections served so far.
    pub closed spec fn served(&self) -> nat {
        self.served@
    }

    /// A source that has served no connection yet.
    pub fn new(seed: u64) -> (source: SubstreamSource)
        ensures
            source.seed() == seed,
            source.served() == 0,
    {
        SubstreamSource { seed, shared: seed_generator(seed), served: Ghost(0) }
    }

    /// The generator of the next connection: a copy of the shared generator
    /// as it stands. The shared generator is then jumped, so that no later
    /// connection starts from the same state by this call.
    pub fn fork(&mut self) -> (g: Xoshiro256StarStar)
        ensures
            words(g) == substream_words(old(self).seed(), old(self).served()),
            final(self).seed() == old(self).seed(),
            final(self).served() == old(self).served() + 1,
    {
        proof {
            use_type_invariant(&*self);
        }
        let g = copy_generator(&self.shared);
        let mut next = copy_generator(&self.shared);
        jump_generator(&mut next);
        let ghost served = self.served@;
        *self = SubstreamSource { seed: self.seed, shared: next, served: Ghost(served + 1) };
        g
    }

    /// The seed of the shared generator.
    pub fn shared_seed(&self) -> (seed: u64)
        ensures
            seed == self.seed(),
    {
        self.seed
    }
}

/// Two sources with the same seed that have served as many connections hand
/// the next connection the same state: replaying the arrivals replays the
/// substreams.
pub proof fn lemma_replay(a: SubstreamSource, b: SubstreamSource)
    requires
        a.seed() == b.seed(),
        a.served() == b.served(),
    ensures
        substream_words(a.seed(), a.served()) == substream_words(b.seed(), b.served()),
        substream_words(a.seed(), a.served() + 1) == substream_words(b.seed(), b.served() + 1),
{
}

/// Opens the stream of a connection on the next substream of `source`. A
/// configuration with a fault is refused before the source is touched.
pub fn open_substream(cfg: &Config, source: &mut SubstreamSource) -> (r: Result<
    (StreamProfile, Xoshiro256StarStar),
    ConfigError,
>)
    ensures
        final(source).seed() == old(source).seed(),
        match r {
            Ok((p, g)) => {
                let start = substream_words(old(source).seed(), old(source).served());
                &&& cfg.fault() is None
                &&& p.built_from(cfg, old(source).seed(), start)
                &&& words(g) == Sampler::words_after_build(cfg, start)
                &&& final(source).served() == old(source).served() + 1
            },
            Err(e) => cfg.fault() == Some(e) && final(source).served() == old(source).served(),
        },
{
    match cfg.validate() {
        Err(e) => { return Err(e); },
        Ok(_) => {},
    }
    let seed = source.shared_seed();
    let mut g = source.fork();
    match StreamProfile::build(cfg, seed, &mut g) {
        Err(e) => Err(e),
        Ok(p) => Ok((p, g)),
    }
}

} // verus!
