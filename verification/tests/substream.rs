use numstream::config::Config;
use numstream::config::ConfigError;
use numstream::config::Model;
use numstream::profile::Draw;
use numstream::seed::SeedPolicy;
use numstream::substream::open_substream;
use numstream::substream::SubstreamSource;
use numstream::weights::Proportion;
use rand::RngCore;
use rand::SeedableRng;
use rand_xoshiro::Xoshiro256StarStar;

fn config() -> Config {
    Config {
        port: 4000,
        size: Some(16),
        max_rate: 1_000,
        model: Model::Categorical,
        proportions: vec![Proportion { count: 4, share: 200_000 }],
        zipf_upper: 0,
        alpha_min: 0,
        alpha_max: 0,
        uniform_max: 0,
        background: 0,
        max_zipf_offset: 0,
        success: 0,
        seed_policy: SeedPolicy::JumpDerived,
        default_seed: 9,
    }
}

#[test]
fn substreams_are_the_jumps_of_the_seeded_generator() {
    let mut source = SubstreamSource::new(9);
    assert_eq!(source.shared_seed(), 9);
    let mut shared = Xoshiro256StarStar::seed_from_u64(9);
    for _ in 0..5 {
        let expected = shared.clone();
        shared.jump();
        assert_eq!(source.fork(), expected);
    }
}

#[test]
fn connections_in_sequence_get_different_substreams() {
    let mut source = SubstreamSource::new(9);
    let mut first = source.fork();
    let mut second = source.fork();
    assert_ne!(first, second);
    let a: Vec<u64> = (0..32).map(|_| first.next_u64()).collect();
    let b: Vec<u64> = (0..32).map(|_| second.next_u64()).collect();
    assert_ne!(a, b);
    assert!(a.iter().all(|x| !b.contains(x)));
}

#[test]
fn replaying_the_arrivals_replays_the_streams() {
    let cfg = config();
    let mut runs: Vec<Vec<Vec<Draw>>> = Vec::new();
    for _ in 0..2 {
        let mut source = SubstreamSource::new(cfg.default_seed);
        let mut streams = Vec::new();
        for _ in 0..4 {
            let (profile, mut g) = open_substream(&cfg, &mut source).unwrap();
            assert_eq!(profile.seed, 9);
            streams.push((0..50).map(|_| profile.sampler.draw(&mut g)).collect::<Vec<Draw>>());
        }
        runs.push(streams);
    }
    assert_eq!(runs[0], runs[1]);
    assert_ne!(runs[0][0], runs[0][1]);
    assert_ne!(runs[0][1], runs[0][2]);
}

#[test]
fn refused_configuration_uses_up_no_substream() {
    let mut source = SubstreamSource::new(9);
    let bad = Config { max_rate: 0, ..config() };
    assert_eq!(open_substream(&bad, &mut source).err(), Some(ConfigError::RateNotPositive));
    assert_eq!(source.fork(), Xoshiro256StarStar::seed_from_u64(9));
}
