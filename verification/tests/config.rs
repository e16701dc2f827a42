use numstream::config::Config;
use numstream::config::ConfigError;
use numstream::config::ConfigStore;
use numstream::config::Model;
use numstream::config::Reload;
use numstream::seed::SeedPolicy;
use numstream::weights::Proportion;
use numstream::weights::WeightError;

fn categorical() -> Config {
    Config {
        port: 4000,
        size: Some(10),
        max_rate: 5_000,
        model: Model::Categorical,
        proportions: vec![Proportion { count: 2, share: 500_000 }],
        zipf_upper: 0,
        alpha_min: 0,
        alpha_max: 0,
        uniform_max: 0,
        background: 0,
        max_zipf_offset: 0,
        success: 0,
        seed_policy: SeedPolicy::Fixed,
        default_seed: 7,
    }
}

fn mixture() -> Config {
    Config {
        size: None,
        model: Model::Mixture,
        proportions: Vec::new(),
        zipf_upper: 1_000,
        alpha_min: 900,
        alpha_max: 1_300,
        uniform_max: 50_000,
        background: 250_000,
        max_zipf_offset: 64,
        ..categorical()
    }
}

#[test]
fn defaults_of_the_seed_fields() {
    assert!(!Config::default_ask_seed());
    assert!(!Config::default_random_seed());
    assert_eq!(Config::default_default_seed(), 1234);
}

#[test]
fn valid_configurations_pass() {
    assert_eq!(categorical().validate(), Ok(()));
    assert_eq!(mixture().validate(), Ok(()));
    assert_eq!(Config { model: Model::Geometric, success: 1_000_000, ..mixture() }.validate(), Ok(()));
    assert_eq!(Config { model: Model::Geometric, ..categorical() }.validate(), Ok(()));
}

#[test]
fn zero_rate_is_refused() {
    assert_eq!(Config { max_rate: 0, ..categorical() }.validate(), Err(ConfigError::RateNotPositive));
    // The rate is judged first.
    assert_eq!(
        Config { max_rate: 0, alpha_min: 2, alpha_max: 1, ..categorical() }.validate(),
        Err(ConfigError::RateNotPositive)
    );
}

#[test]
fn proportion_faults_are_refused_for_every_model() {
    let too_many = vec![Proportion { count: 11, share: 0 }];
    let too_much = vec![Proportion { count: 1, share: 1_000_001 }];
    for model in [Model::Categorical, Model::Mixture, Model::Geometric] {
        assert_eq!(
            Config { model, size: Some(10), proportions: too_many.clone(), ..mixture() }.validate(),
            Err(ConfigError::Weights(WeightError::CountsExceedSize))
        );
        assert_eq!(
            Config { model, size: Some(10), proportions: too_much.clone(), ..mixture() }.validate(),
            Err(ConfigError::Weights(WeightError::SharesExceedWhole))
        );
    }
    // Without a size no count is too many.
    assert_eq!(Config { proportions: too_many, ..mixture() }.validate(), Ok(()));
}

#[test]
fn inverted_alpha_range_is_refused() {
    assert_eq!(
        Config { alpha_min: 1_301, ..mixture() }.validate(),
        Err(ConfigError::AlphaRangeInverted)
    );
    assert_eq!(
        Config { alpha_min: 2, alpha_max: 1, ..categorical() }.validate(),
        Err(ConfigError::AlphaRangeInverted)
    );
    assert_eq!(Config { alpha_min: 1_300, ..mixture() }.validate(), Ok(()));
}

#[test]
fn probabilities_above_one_are_refused() {
    assert_eq!(
        Config { background: 1_000_001, ..mixture() }.validate(),
        Err(ConfigError::ProbabilityOutOfRange)
    );
    assert_eq!(
        Config { success: 1_000_001, ..categorical() }.validate(),
        Err(ConfigError::ProbabilityOutOfRange)
    );
    assert_eq!(Config { background: 1_000_000, ..mixture() }.validate(), Ok(()));
    assert_eq!(Config { background: 0, ..mixture() }.validate(), Ok(()));
}

#[test]
fn categorical_faults() {
    assert_eq!(Config { size: None, ..categorical() }.validate(), Err(ConfigError::UnboundedUniverse));
    assert_eq!(
        Config { size: Some(2), ..categorical() }.validate(),
        Err(ConfigError::Weights(WeightError::NoRoomForResidual))
    );
    assert_eq!(
        Config { proportions: vec![Proportion { count: 0, share: 1_000_000 }], ..categorical() }.validate(),
        Err(ConfigError::Weights(WeightError::NoWeight))
    );
    assert_eq!(
        Config {
            size: Some(1 << 31),
            proportions: vec![Proportion { count: 1 << 30, share: 1_000_000 }],
            ..categorical()
        }
        .validate(),
        Err(ConfigError::Weights(WeightError::TooLarge))
    );
}

#[test]
fn mixture_faults() {
    assert_eq!(Config { zipf_upper: 0, ..mixture() }.validate(), Err(ConfigError::ZipfNotPositive));
    assert_eq!(
        Config { alpha_min: 0, ..mixture() }.validate(),
        Err(ConfigError::ZipfNotPositive)
    );
    assert_eq!(Config { uniform_max: 0, ..mixture() }.validate(), Err(ConfigError::EmptyBackground));
    assert_eq!(
        Config { max_zipf_offset: 0, ..mixture() }.validate(),
        Err(ConfigError::EmptyOffsetRange)
    );
    assert_eq!(
        Config { zipf_upper: u64::MAX, max_zipf_offset: 2, ..mixture() }.validate(),
        Err(ConfigError::ValuesTooLarge)
    );
    assert_eq!(Config { zipf_upper: u64::MAX, max_zipf_offset: 1, ..mixture() }.validate(), Ok(()));
    // The faults of a model that is not chosen do not count.
    assert_eq!(Config { zipf_upper: 0, uniform_max: 0, ..categorical() }.validate(), Ok(()));
}

#[test]
fn same_as_compares_every_field() {
    let base = mixture();
    assert!(base.same_as(&mixture()));
    let changed = [
        Config { port: 4001, ..mixture() },
        Config { size: Some(3), ..mixture() },
        Config { max_rate: 1, ..mixture() },
        Config { model: Model::Geometric, ..mixture() },
        Config { proportions: vec![Proportion { count: 0, share: 0 }], ..mixture() },
        Config { zipf_upper: 1, ..mixture() },
        Config { alpha_min: 1, ..mixture() },
        Config { alpha_max: 1, ..mixture() },
        Config { uniform_max: 1, ..mixture() },
        Config { background: 1, ..mixture() },
        Config { max_zipf_offset: 1, ..mixture() },
        Config { success: 1, ..mixture() },
        Config { seed_policy: SeedPolicy::AskClient, ..mixture() },
        Config { default_seed: 8, ..mixture() },
    ];
    for other in changed.iter() {
        assert!(!base.same_as(other));
        assert!(!other.same_as(&base));
        assert_eq!(base.same_as(other), base == *other);
    }
    let a = Config { proportions: vec![Proportion { count: 1, share: 2 }, Proportion { count: 3, share: 4 }], ..categorical() };
    let b = Config { proportions: vec![Proportion { count: 1, share: 2 }, Proportion { count: 3, share: 5 }], ..categorical() };
    assert!(a.same_as(&a.clone()));
    assert!(!a.same_as(&b));
}

#[test]
fn store_needs_a_valid_first_configuration() {
    assert!(ConfigStore::open(categorical()).is_ok());
    assert_eq!(
        ConfigStore::open(Config { max_rate: 0, ..categorical() }).err(),
        Some(ConfigError::RateNotPositive)
    );
}

#[test]
fn store_publishes_only_valid_changes() {
    let mut store = ConfigStore::open(categorical()).unwrap();
    assert_eq!(store.current(), &categorical());

    assert_eq!(store.offer(Some(categorical())), Reload::Unchanged);
    assert_eq!(store.current(), &categorical());

    assert_eq!(store.offer(None), Reload::Unreadable);
    assert_eq!(store.current(), &categorical());

    let broken = Config { size: Some(1), ..categorical() };
    assert_eq!(
        store.offer(Some(broken)),
        Reload::Rejected(ConfigError::Weights(WeightError::CountsExceedSize))
    );
    assert_eq!(store.current(), &categorical());

    assert_eq!(store.offer(Some(mixture())), Reload::Replaced);
    assert_eq!(store.current(), &mixture());
    assert_eq!(store.current().validate(), Ok(()));

    assert_eq!(store.offer(Some(mixture())), Reload::Unchanged);
    assert_eq!(store.offer(Some(categorical())), Reload::Replaced);
    assert_eq!(store.current(), &categorical());
}
