//! The configuration snapshot: what it holds, when it is valid, and the store
//! that publishes the latest valid one.
//!
//! Probabilities are written in millionths, the rate in thousandths of a
//! value per second, and the Zipf exponent in thousandths.

use crate::seed::SeedPolicy;
use crate::seed::DEFAULT_SEED;
use crate::weights::check_weights;
use crate::weights::count_within;
use crate::weights::share_within;
use crate::weights::total_count;
use crate::weights::total_share;
use crate::weights::weight_fault;
use crate::weights::Proportion;
use crate::weights::WeightError;
use crate::weights::PPM;
use vstd::prelude::*;

verus! {

/// The family of distributions that a stream draws from.
#[derive(Clone, Copy, Debug, PartialEq, Eq, Structural)]
pub enum Model {
    /// A fixed universe of values, each with a weight.
    Categorical,
    /// A uniform background mixed with a Zipfian foreground.
    Mixture,
    /// The number of failures before a first success.
    Geometric,
}

/// One configuration snapshot.
#[derive(Clone, Debug, PartialEq, Eq)]
pub struct Config {
    /// The port to listen on.
    pub port: u16,
    /// The number of values in the universe; none where it is unbounded.
    pub size: Option<usize>,
    /// The most values sent per second, in thousandths.
    pub max_rate: u64,
    /// The family of distributions.
    pub model: Model,
    /// How many values carry which share of the stream.
    pub proportions: Vec<Proportion>,
    /// The highest rank of the Zipfian foreground.
    pub zipf_upper: u64,
    /// The least Zipf exponent a connection may get, in thousandths.
    pub alpha_min: u64,
    /// The greatest Zipf exponent a connection may get, in thousandths.
    pub alpha_max: u64,
    /// The bound below which background values are drawn.
    pub uniform_max: u64,
    /// The probability of a background value, in millionths.
    pub background: u32,
    /// The bound below which a connection's offset is drawn.
    pub max_zipf_offset: u64,
    /// The probability of success of the geometric model, in millionths.
    pub success: u32,
    /// How a connection comes by its seed.
    pub seed_policy: SeedPolicy,
    /// The seed of the `Fixed` policy, and of the shared generator.
    pub default_seed: u64,
}

/// Why a configuration is not published.
#[derive(Clone, Copy, Debug, PartialEq, Eq, Structural)]
pub enum ConfigError {
    /// The rate is zero: no interval between values could keep it.
    RateNotPositive,
    /// The proportion list does not fit the universe or the whole.
    Weights(WeightError),
    /// The least Zipf exponent is above the greatest.
    AlphaRangeInverted,
    /// A probability is above one.
    ProbabilityOutOfRange,
    /// The categorical model is asked for without a universe size.
    UnboundedUniverse,
    /// The Zipf rank bound or the least exponent is zero.
    ZipfNotPositive,
    /// There is no value below the background bound.
    EmptyBackground,
    /// There is no value below the offset bound.
    EmptyOffsetRange,
    /// A foreground value could exceed 64 bits.
    ValuesTooLarge,
}

impl Config {
    /// Whether a configuration that does not say so asks clients for a seed.
    pub fn default_ask_seed() -> (b: bool)
        ensures
            !b,
    {
        false
    }

    /// Whether a configuration that does not say so draws fresh seeds.
    pub fn default_random_seed() -> (b: bool)
        ensures
            !b,
    {
        false
    }

    /// The seed of a configuration that names none.
    pub fn default_default_seed() -> (seed: u64)
        ensures
            seed == DEFAULT_SEED,
    {
        DEFAULT_SEED
    }

    /// What is wrong with the parameters that every model shares.
    pub open spec fn common_fault(&self) -> Option<ConfigError> {
        if self.max_rate == 0 {
            Some(ConfigError::RateNotPositive)
        } else if self.size is Some && total_count(self.proportions@) > self.size->0 {
            Some(ConfigError::Weights(WeightError::CountsExceedSize))
        } else if total_share(self.proportions@) > PPM {
            Some(ConfigError::Weights(WeightError::SharesExceedWhole))
        } else if self.alpha_min > self.alpha_max {
            Some(ConfigError::AlphaRangeInverted)
        } else if self.background > PPM || self.success > PPM {
            Some(ConfigError::ProbabilityOutOfRange)
        } else {
            None
        }
    }

    /// What keeps the chosen model from being built.
    pub open spec fn model_fault(&self) -> Option<ConfigError> {
        match self.model {
            Model::Categorical => match self.size {
                None => Some(ConfigError::UnboundedUniverse),
                Some(size) => match weight_fault(size, self.proportions@) {
                    Some(e) => Some(ConfigError::Weights(e)),
                    None => None,
                },
            },
            Model::Mixture => if self.zipf_upper == 0 || self.alpha_min == 0 {
                Some(ConfigError::ZipfNotPositive)
            } else if self.uniform_max == 0 {
                Some(ConfigError::EmptyBackground)
            } else if self.max_zipf_offset == 0 {
                Some(ConfigError::EmptyOffsetRange)
            } else if self.zipf_upper + self.max_zipf_offset - 1 > u64::MAX {
                Some(ConfigError::ValuesTooLarge)
            } else {
                None
            },
            Model::Geometric => None,
        }
    }

    /// The first fault of the configuration, if it has one: those of the
    /// shared parameters come before those of the chosen model.
    pub open spec fn fault(&self) -> Option<ConfigError> {
        if self.common_fault() is Some {
            self.common_fault()
        } else {
            self.model_fault()
        }
    }

    /// The two configurations say the same in every field.
    pub open spec fn agrees(&self, other: &Config) -> bool {
        &&& self.port == other.port
        &&& self.size == other.size
        &&& self.max_rate == other.max_rate
        &&& self.model == other.model
        &&& self.proportions@ == other.proportions@
        &&& self.zipf_upper == other.zipf_upper
        &&& self.alpha_min == other.alpha_min
        &&& self.alpha_max == other.alpha_max
        &&& self.uniform_max == other.uniform_max
        &&& self.background == other.background
        &&& self.max_zipf_offset == other.max_zipf_offset
        &&& self.success == other.success
        &&& self.seed_policy == other.seed_policy
        &&& self.default_seed == other.default_seed
    }

    fn check_common(&self) -> (r: Result<(), ConfigError>)
        ensures
            match r {
                Ok(_) => self.common_fault() is None,
                Err(e) => self.common_fault() == Some(e),
            },
    {
        if self.max_rate == 0 {
            return Err(ConfigError::RateNotPositive);
        }
        match self.size {
            Some(size) => {
                if count_within(size, &self.proportions).is_none() {
                    return Err(ConfigError::Weights(WeightError::CountsExceedSize));
                }
            },
            None => {},
        }
        if share_within(&self.proportions).is_none() {
            return Err(ConfigError::Weights(WeightError::SharesExceedWhole));
        }
        if self.alpha_min > self.alpha_max {
            return Err(ConfigError::AlphaRangeInverted);
        }
        if self.background > PPM || self.success > PPM {
            return Err(ConfigError::ProbabilityOutOfRange);
        }
        Ok(())
    }

    fn check_model(&self) -> (r: Result<(), ConfigError>)
        ensures
            match r {
                Ok(_) => self.model_fault() is None,
                Err(e) => self.model_fault() == Some(e),
            },
    {
        match self.model {
            Model::Categorical => match self.size {
                None => Err(ConfigError::UnboundedUniverse),
                Some(size) => match check_weights(size, &self.proportions) {
                    Err(e) => Err(ConfigError::Weights(e)),
                    Ok(_) => Ok(()),
                },
            },
            Model::Mixture => {
                if self.zipf_upper == 0 || self.alpha_min == 0 {
                    Err(ConfigError::ZipfNotPositive)
                } else if self.uniform_max == 0 {
                    Err(ConfigError::EmptyBackground)
                } else if self.max_zipf_offset == 0 {
                    Err(ConfigError::EmptyOffsetRange)
                } else if self.zipf_upper > u64::MAX - (self.max_zipf_offset - 1) {
                    Err(ConfigError::ValuesTooLarge)
                } else {
                    Ok(())
                }
            },
            Model::Geometric => Ok(()),
        }
    }

    /// Checks the configuration: it passes exactly where it has no fault,
    /// and fails with its first fault otherwise.
    pub fn validate(&self) -> (r: Result<(), ConfigError>)
        ensures
            match r {
                Ok(_) => self.fault() is None,
                Err(e) => self.fault() == Some(e),
            },
    {
        match self.check_common() {
            Err(e) => Err(e),
            Ok(_) => self.check_model(),
        }
    }

    /// Whether two configurations say the same in every field.
    pub fn same_as(&self, other: &Config) -> (b: bool)
        ensures
            b == self.agrees(other),
    {
        let sizes = match (self.size, other.size) {
            (None, None) => true,
            (Some(a), Some(b)) => a == b,
            _ => false,
        };
        sizes && self.port == other.port && self.max_rate == other.max_rate && self.model
            == other.model && same_proportions(&self.proportions, &other.proportions)
            && self.zipf_upper == other.zipf_upper && self.alpha_min == other.alpha_min
            && self.alpha_max == other.alpha_max && self.uniform_max == other.uniform_max
            && self.background == other.background && self.max_zipf_offset
            == other.max_zipf_offset && self.success == other.success && self.seed_policy
            == other.seed_policy && self.default_seed == other.default_seed
    }
}

fn same_proportions(a: &Vec<Proportion>, b: &Vec<Proportion>) -> (same: bool)
    ensures
        same == (a@ == b@),
{
    if a.len() != b.len() {
        return false;
    }
    let mut i: usize = 0;
    while i < a.len()
        invariant
            i <= a@.len(),
            a@.len() == b@.len(),
            forall|j: int| 0 <= j < i ==> a@[j] == b@[j],
        decreases a@.len() - i,
    {
        if a[i] != b[i] {
            return false;
        }
        i = i + 1;
    }
    assert(a@ =~= b@);
    true
}

/// What became of a configuration that was offered to the store.
#[derive(Clone, Copy, Debug, PartialEq, Eq, Structural)]
pub enum Reload {
    /// It says what the published one says.
    Unchanged,
    /// It differs and is valid: it is the published one now.
    Replaced,
    /// It differs and has a fault: the published one stays.
    Rejected(ConfigError),
    /// There was none to offer: the published one stays.
    Unreadable,
}

/// Holds the published configuration, which is always a valid one.
pub struct ConfigStore {
    published: Config,
}

impl ConfigStore {
    #[verifier::type_invariant]
    spec fn valid(&self) -> bool {
        self.published.fault() is None
    }

    /// The published configuration.
    pub closed spec fn snapshot(&self) -> Config {
        self.published
    }

    /// What an offer does to a store that publishes `before`.
    pub open spec fn outcome(before: Config, offered: Option<Config>) -> Reload {
        match offered {
            None => Reload::Unreadable,
            Some(c) => if before.agrees(&c) {
                Reload::Unchanged
            } else {
                match c.fault() {
                    Some(e) => Reload::Rejected(e),
                    None => Reload::Replaced,
                }
            },
        }
    }

    /// Opens a store on the first configuration. There is no store without
    /// a valid configuration: a fault in the first one is returned.
    pub fn open(initial: Config) -> (r: Result<ConfigStore, ConfigError>)
        ensures
            match r {
                Ok(store) => initial.fault() is None && store.snapshot() == initial,
                Err(e) => initial.fault() == Some(e),
            },
    {
        match initial.validate() {
            Err(e) => Err(e),
            Ok(_) => Ok(ConfigStore { published: initial }),
        }
    }

    /// The published configuration, which has no fault.
    pub fn current(&self) -> (c: &Config)
        ensures
            *c == self.snapshot(),
            c.fault() is None,
    {
        proof {
            use_type_invariant(self);
        }
        &self.published
    }

    /// Offers what a reload found. The offer is published exactly where it
    /// differs from the published configuration and is valid; in every other
    /// case the published one stays as it is.
    pub fn offer(&mut self, offered: Option<Config>) -> (r: Reload)
        ensures
            r == Self::outcome(old(self).snapshot(), offered),
            r == Reload::Replaced ==> final(self).snapshot() == offered->0,
            r != Reload::Replaced ==> final(self).snapshot() == old(self).snapshot(),
            final(self).snapshot().fault() is None,
    {
        proof {
            use_type_invariant(&*self);
        }
        match offered {
            None => Reload::Unreadable,
            Some(c) => {
                if self.published.same_as(&c) {
                    Reload::Unchanged
                } else {
                    match c.validate() {
                        Err(e) => Reload::Rejected(e),
                        Ok(_) => {
                            self.published = c;
                            Reload::Replaced
                        },
                    }
                }
            },
        }
    }
}

} // verus!
