//! The sampling model of one connection, built once from a configuration and
//! the connection's generator, and the values drawn from it.
//!
//! Every draw is stated as a function of the generator's state: two
//! connections that start from the same state under the same configuration
//! get the same model and the same values.

use crate::config::Config;
use crate::config::ConfigError;
use crate::config::Model;
use crate::generator::below_u32;
use crate::generator::below_u64;
use crate::generator::draw_below_u32;
use crate::generator::draw_below_u64;
use crate::generator::draw_ratio;
use crate::generator::ratio_trial;
use crate::generator::seed_generator;
use crate::generator::seeded_words;
use crate::generator::words;
use crate::picker::draw_slot;
use crate::picker::make_picker;
use crate::picker::picked;
use crate::picker::picker_weights;
use crate::picker::Picker;
use crate::rate::is_period;
use crate::rate::period_nanos;
use crate::weights::build_weights;
use crate::weights::is_weights_of;
use crate::weights::weight_fault;
use crate::weights::weight_sum;
use crate::weights::Proportion;
use crate::weights::WeightError;
use crate::weights::PPM;
use rand_xoshiro::Xoshiro256StarStar;
use vstd::pervasive::unreached;
use vstd::prelude::*;

verus! {

/// The bound below which the values of a universe are drawn.
pub const UNIVERSE_BOUND: u32 = 0xffff_ffff;

/// The `n` values that a generator in state `before` yields for a universe,
/// in the order drawn, and the state it is left in.
pub open spec fn universe_of(before: Seq<u64>, n: nat) -> (Seq<u32>, Seq<u64>)
    decreases n,
{
    if n == 0 {
        (Seq::empty(), before)
    } else {
        let (head, mid) = universe_of(before, (n - 1) as nat);
        let (value, after) = below_u32(mid, UNIVERSE_BOUND);
        (head.push(value), after)
    }
}

/// Draws the `size` values of a universe, one after the other.
pub fn draw_universe(g: &mut Xoshiro256StarStar, size: usize) -> (u: Vec<u32>)
    ensures
        u@ == universe_of(words(*old(g)), size as nat).0,
        words(*final(g)) == universe_of(words(*old(g)), size as nat).1,
        u@.len() == size,
        forall|j: int| 0 <= j < u@.len() ==> u@[j] < UNIVERSE_BOUND,
{
    let mut u: Vec<u32> = Vec::new();
    let mut i: usize = 0;
    while i < size
        invariant
            i <= size,
            u@.len() == i,
            u@ == universe_of(words(*old(g)), i as nat).0,
            words(*g) == universe_of(words(*old(g)), i as nat).1,
            forall|j: int| 0 <= j < u@.len() ==> u@[j] < UNIVERSE_BOUND,
        decreases size - i,
    {
        let value = draw_below_u32(g, UNIVERSE_BOUND);
        u.push(value);
        i = i + 1;
    }
    u
}

/// A fixed universe of values and a weight for each.
pub struct Categorical {
    universe: Vec<u32>,
    weights: Vec<u64>,
    picker: Picker,
}

impl Categorical {
    #[verifier::type_invariant]
    spec fn inv(&self) -> bool {
        &&& picker_weights(self.picker) == self.weights@
        &&& self.weights@.len() == self.universe@.len()
    }

    /// The values, slot by slot.
    pub closed spec fn universe(&self) -> Seq<u32> {
        self.universe@
    }

    /// The weights, slot by slot.
    pub closed spec fn weights(&self) -> Seq<u64> {
        self.weights@
    }

    /// The value drawn from a generator in state `before`, and the state the
    /// generator is left in.
    pub open spec fn drawn(&self, before: Seq<u64>) -> (u32, Seq<u64>) {
        let (slot, after) = picked(self.weights(), before);
        (self.universe()[slot], after)
    }

    /// Builds the model over `size` slots: the weights that `ps` describes,
    /// and a universe drawn from `g`. Fails exactly where `ps` yields no
    /// weight array, and then leaves `g` as it was.
    pub fn build(size: usize, ps: &Vec<Proportion>, g: &mut Xoshiro256StarStar) -> (r: Result<
        Categorical,
        WeightError,
    >)
        ensures
            match r {
                Ok(c) => {
                    &&& weight_fault(size, ps@) is None
                    &&& is_weights_of(c.weights(), size, ps@)
                    &&& c.universe() == universe_of(words(*old(g)), size as nat).0
                    &&& words(*final(g)) == universe_of(words(*old(g)), size as nat).1
                },
                Err(e) => weight_fault(size, ps@) == Some(e) && words(*final(g)) == words(*old(g)),
            },
    {
        let weights = match build_weights(size, ps) {
            Err(e) => { return Err(e); },
            Ok(w) => w,
        };
        match make_picker(&weights) {
            None => {
                proof {
                    assert(weights@.len() == 0 ==> weight_sum(weights@) == 0);
                }
                unreached()
            },
            Some(picker) => {
                let universe = draw_universe(g, size);
                Ok(Categorical { universe, weights, picker })
            },
        }
    }

    /// Draws a value: that of the slot which the weights and the generator's
    /// state pick. The slot picked has a weight above zero.
    pub fn sample(&self, g: &mut Xoshiro256StarStar) -> (value: u32)
        ensures
            value == self.drawn(words(*old(g))).0,
            words(*final(g)) == self.drawn(words(*old(g))).1,
            0 <= picked(self.weights(), words(*old(g))).0 < self.universe().len(),
            self.weights()[picked(self.weights(), words(*old(g))).0] > 0,
    {
        proof {
            use_type_invariant(self);
        }
        let slot = draw_slot(&self.picker, g);
        self.universe[slot]
    }

    /// The values, slot by slot.
    pub fn values(&self) -> (u: &Vec<u32>)
        ensures
            u@ == self.universe(),
            u@.len() == self.weights().len(),
    {
        proof {
            use_type_invariant(self);
        }
        &self.universe
    }

    /// The weights, slot by slot.
    pub fn weight_values(&self) -> (w: &Vec<u64>)
        ensures
            w@ == self.weights(),
            w@.len() == self.universe().len(),
    {
        proof {
            use_type_invariant(self);
        }
        &self.weights
    }
}

/// What a draw from a model comes to.
#[derive(Clone, Copy, Debug, PartialEq, Eq, Structural)]
pub enum Draw {
    /// The value to send.
    Value(u64),
    /// The value is a Zipfian rank, still to be drawn, moved by the
    /// connection's offset.
    ZipfRank,
    /// The value is a geometric count, still to be drawn.
    GeometricCount,
}

/// A uniform background mixed with a Zipfian foreground, with the exponent
/// and the offset that one connection drew for itself.
pub struct Mixture {
    background: u32,
    uniform_max: u64,
    zipf_upper: u64,
    alpha: u64,
    offset: u64,
}

impl Mixture {
    #[verifier::type_invariant]
    spec fn inv(&self) -> bool {
        &&& self.background <= PPM
        &&& self.uniform_max > 0
        &&& self.zipf_upper >= 1
        &&& self.zipf_upper + self.offset <= u64::MAX
    }

    /// The probability of a background value, in millionths.
    pub closed spec fn background(&self) -> u32 {
        self.background
    }

    /// The bound below which background values are drawn.
    pub closed spec fn uniform_max(&self) -> u64 {
        self.uniform_max
    }

    /// The highest Zipfian rank.
    pub closed spec fn zipf_upper(&self) -> u64 {
        self.zipf_upper
    }

    /// The connection's Zipf exponent, in thousandths.
    pub closed spec fn alpha(&self) -> u64 {
        self.alpha
    }

    /// The connection's offset.
    pub closed spec fn offset(&self) -> u64 {
        self.offset
    }

    /// The exponent and the offset that a connection draws under `cfg` from
    /// a generator in state `before`, and the state it leaves. The exponent
    /// is drawn first, among the thousandths from `alpha_min` to `alpha_max`.
    pub open spec fn drawn_parameters(cfg: &Config, before: Seq<u64>) -> (u64, u64, Seq<u64>) {
        let span = (cfg.alpha_max - cfg.alpha_min + 1) as u64;
        let (step, mid) = below_u64(before, span);
        let (offset, after) = below_u64(mid, cfg.max_zipf_offset);
        ((cfg.alpha_min + step) as u64, offset, after)
    }

    /// The model that `cfg` and a generator in state `before` give.
    pub open spec fn built_from(&self, cfg: &Config, before: Seq<u64>) -> bool {
        &&& self.background() == cfg.background
        &&& self.uniform_max() == cfg.uniform_max
        &&& self.zipf_upper() == cfg.zipf_upper
        &&& self.alpha() == Self::drawn_parameters(cfg, before).0
        &&& self.offset() == Self::drawn_parameters(cfg, before).1
        &&& cfg.alpha_min <= self.alpha() <= cfg.alpha_max
        &&& self.offset() < cfg.max_zipf_offset
    }

    /// What a draw comes to from a generator in state `before`, and the
    /// state the generator is left in: a trial that succeeds with the
    /// background probability decides between a uniform value and a Zipfian
    /// rank that the caller draws.
    pub open spec fn drawn(&self, before: Seq<u64>) -> (Draw, Seq<u64>) {
        let (hit, mid) = ratio_trial(before, self.background(), PPM);
        if hit {
            let (value, after) = below_u64(mid, self.uniform_max());
            (Draw::Value(value), after)
        } else {
            (Draw::ZipfRank, mid)
        }
    }

    pub(crate) fn build(cfg: &Config, g: &mut Xoshiro256StarStar) -> (m: Mixture)
        requires
            cfg.model == Model::Mixture,
            cfg.fault() is None,
        ensures
            m.built_from(cfg, words(*old(g))),
            words(*final(g)) == Self::drawn_parameters(cfg, words(*old(g))).2,
    {
        let span: u64 = cfg.alpha_max - cfg.alpha_min + 1;
        let step = draw_below_u64(g, span);
        let offset = draw_below_u64(g, cfg.max_zipf_offset);
        Mixture {
            background: cfg.background,
            uniform_max: cfg.uniform_max,
            zipf_upper: cfg.zipf_upper,
            alpha: cfg.alpha_min + step,
            offset,
        }
    }

    /// Draws: a background value, or the request for a Zipfian rank.
    pub fn draw(&self, g: &mut Xoshiro256StarStar) -> (d: Draw)
        ensures
            d == self.drawn(words(*old(g))).0,
            words(*final(g)) == self.drawn(words(*old(g))).1,
            d matches Draw::Value(v) ==> v < self.uniform_max(),
            d != Draw::GeometricCount,
    {
        proof {
            use_type_invariant(self);
        }
        if draw_ratio(g, self.background, PPM) {
            Draw::Value(draw_below_u64(g, self.uniform_max))
        } else {
            Draw::ZipfRank
        }
    }

    /// The value that a Zipfian rank stands for: the rank moved by the
    /// connection's offset.
    pub fn foreground(&self, rank: u64) -> (value: u64)
        requires
            1 <= rank <= self.zipf_upper(),
        ensures
            value == rank + self.offset(),
    {
        proof {
            use_type_invariant(self);
        }
        rank + self.offset
    }

    /// The highest Zipfian rank.
    pub fn rank_bound(&self) -> (n: u64)
        ensures
            n == self.zipf_upper(),
            n >= 1,
    {
        proof {
            use_type_invariant(self);
        }
        self.zipf_upper
    }

    /// The connection's Zipf exponent, in thousandths.
    pub fn exponent(&self) -> (a: u64)
        ensures
            a == self.alpha(),
    {
        self.alpha
    }

    /// The connection's offset.
    pub fn shift(&self) -> (o: u64)
        ensures
            o == self.offset(),
    {
        self.offset
    }
}

/// The sampling model of one connection.
pub enum Sampler {
    /// Values of a fixed universe, by weight.
    Categorical(Categorical),
    /// A uniform background and a Zipfian foreground.
    Mixture(Mixture),
    /// Geometric counts with the given probability of success, in
    /// millionths.
    Geometric(u32),
}

impl Sampler {
    /// The model that `cfg` and a generator in state `before` give.
    pub open spec fn built_from(&self, cfg: &Config, before: Seq<u64>) -> bool {
        match cfg.model {
            Model::Categorical => {
                &&& *self is Categorical
                &&& cfg.size is Some
                &&& is_weights_of(self->Categorical_0.weights(), cfg.size->0, cfg.proportions@)
                &&& self->Categorical_0.universe() == universe_of(before, cfg.size->0 as nat).0
            },
            Model::Mixture => {
                &&& *self is Mixture
                &&& self->Mixture_0.built_from(cfg, before)
            },
            Model::Geometric => *self == Sampler::Geometric(cfg.success),
        }
    }

    /// The state in which building the model of `cfg` leaves a generator
    /// that was in state `before`.
    pub open spec fn words_after_build(cfg: &Config, before: Seq<u64>) -> Seq<u64> {
        match cfg.model {
            Model::Categorical => universe_of(before, cfg.size->0 as nat).1,
            Model::Mixture => Mixture::drawn_parameters(cfg, before).2,
            Model::Geometric => before,
        }
    }

    /// What a draw comes to from a generator in state `before`, and the
    /// state the generator is left in.
    pub open spec fn drawn(&self, before: Seq<u64>) -> (Draw, Seq<u64>) {
        match *self {
            Sampler::Categorical(c) => (Draw::Value(c.drawn(before).0 as u64), c.drawn(before).1),
            Sampler::Mixture(m) => m.drawn(before),
            Sampler::Geometric(_) => (Draw::GeometricCount, before),
        }
    }

    /// Builds the model that `cfg` asks for, taking from `g` what the model
    /// draws once for the connection. Fails, with the configuration's first
    /// fault, exactly where it has one, and then leaves `g` as it was.
    pub fn build(cfg: &Config, g: &mut Xoshiro256StarStar) -> (r: Result<Sampler, ConfigError>)
        ensures
            match r {
                Ok(s) => {
                    &&& cfg.fault() is None
                    &&& s.built_from(cfg, words(*old(g)))
                    &&& words(*final(g)) == Self::words_after_build(cfg, words(*old(g)))
                },
                Err(e) => cfg.fault() == Some(e) && words(*final(g)) == words(*old(g)),
            },
    {
        match cfg.validate() {
            Err(e) => { return Err(e); },
            Ok(_) => {},
        }
        match cfg.model {
            Model::Categorical => {
                let size = match cfg.size {
                    Some(size) => size,
                    None => unreached(),
                };
                match Categorical::build(size, &cfg.proportions, g) {
                    Ok(c) => Ok(Sampler::Categorical(c)),
                    Err(_) => unreached(),
                }
            },
            Model::Mixture => Ok(Sampler::Mixture(Mixture::build(cfg, g))),
            Model::Geometric => Ok(Sampler::Geometric(cfg.success)),
        }
    }

    /// Draws: a value to send, or the request for a draw that the caller
    /// makes.
    pub fn draw(&self, g: &mut Xoshiro256StarStar) -> (d: Draw)
        ensures
            d == self.drawn(words(*old(g))).0,
            words(*final(g)) == self.drawn(words(*old(g))).1,
    {
        match self {
            Sampler::Categorical(c) => Draw::Value(c.sample(g) as u64),
            Sampler::Mixture(m) => m.draw(g),
            Sampler::Geometric(_) => Draw::GeometricCount,
        }
    }
}

/// What one connection is served with, fixed when it is accepted: its seed,
/// its sampling model, and the least time between two of its values.
pub struct StreamProfile {
    /// The seed the connection was given.
    pub seed: u64,
    /// The sampling model.
    pub sampler: Sampler,
    /// The least time between two values, in nanoseconds.
    pub period: u64,
}

impl StreamProfile {
    /// The profile that `cfg` gives a connection whose generator is in state
    /// `before`.
    pub open spec fn built_from(&self, cfg: &Config, seed: u64, before: Seq<u64>) -> bool {
        &&& self.seed == seed
        &&& self.sampler.built_from(cfg, before)
        &&& is_period(self.period, cfg.max_rate)
    }

    /// Builds the profile of a connection on the generator it was given.
    /// Fails, with the configuration's first fault, exactly where it has one,
    /// and then leaves `g` as it was.
    pub fn build(cfg: &Config, seed: u64, g: &mut Xoshiro256StarStar) -> (r: Result<
        StreamProfile,
        ConfigError,
    >)
        ensures
            match r {
                Ok(p) => {
                    &&& cfg.fault() is None
                    &&& p.built_from(cfg, seed, words(*old(g)))
                    &&& words(*final(g)) == Sampler::words_after_build(cfg, words(*old(g)))
                },
                Err(e) => cfg.fault() == Some(e) && words(*final(g)) == words(*old(g)),
            },
    {
        let sampler = match Sampler::build(cfg, g) {
            Err(e) => { return Err(e); },
            Ok(s) => s,
        };
        let period = match period_nanos(cfg.max_rate) {
            Some(p) => p,
            None => unreached(),
        };
        Ok(StreamProfile { seed, sampler, period })
    }
}

/// Opens the stream of a connection that has its own seed: the generator is
/// seeded with it, and the profile is built on that generator. The result is
/// a function of the configuration and the seed alone.
pub fn open_stream(cfg: &Config, seed: u64) -> (r: Result<
    (StreamProfile, Xoshiro256StarStar),
    ConfigError,
>)
    ensures
        match r {
            Ok((p, g)) => {
                &&& cfg.fault() is None
                &&& p.built_from(cfg, seed, seeded_words(seed))
                &&& words(g) == Sampler::words_after_build(cfg, seeded_words(seed))
            },
            Err(e) => cfg.fault() == Some(e),
        },
{
    let mut g = seed_generator(seed);
    match StreamProfile::build(cfg, seed, &mut g) {
        Err(e) => Err(e),
        Ok(p) => Ok((p, g)),
    }
}

} // verus!
