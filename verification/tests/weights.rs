use numstream::weights::build_weights;
use numstream::weights::check_weights;
use numstream::weights::count_within;
use numstream::weights::share_within;
use numstream::weights::Proportion;
use numstream::weights::WeightError;
use numstream::weights::PPM;

fn list(entries: &[(usize, u32)]) -> Vec<Proportion> {
    entries.iter().map(|&(count, share)| Proportion { count, share }).collect()
}

#[test]
fn half_for_two_of_ten() {
    let w = build_weights(10, &list(&[(2, 500_000)])).unwrap();
    // Eight slots are left, so a millionth is eight units of weight.
    assert_eq!(
        w,
        vec![4_000_000, 4_000_000, 500_000, 500_000, 500_000, 500_000, 500_000, 500_000, 500_000, 500_000]
    );
    // Each listed slot weighs half of the whole, the others share the other half.
    let unit: u64 = 8 * u64::from(PPM);
    assert_eq!(w[0] * 2, unit);
    assert_eq!(w[2..].iter().sum::<u64>() * 2, unit);
}

#[test]
fn groups_follow_each_other() {
    let w = build_weights(5, &list(&[(1, 250_000), (2, 125_000)])).unwrap();
    assert_eq!(w, vec![500_000, 250_000, 250_000, 625_000, 625_000]);
}

#[test]
fn empty_list_spreads_the_whole() {
    let w = build_weights(4, &Vec::new()).unwrap();
    assert_eq!(w, vec![1_000_000; 4]);
}

#[test]
fn list_that_fills_universe_and_whole() {
    let w = build_weights(3, &list(&[(1, 600_000), (2, 400_000)])).unwrap();
    assert_eq!(w, vec![600_000, 400_000, 400_000]);
}

#[test]
fn entry_without_slots_gives_its_share_to_nobody() {
    let w = build_weights(3, &list(&[(0, 400_000), (1, 100_000)])).unwrap();
    assert_eq!(w, vec![200_000, 500_000, 500_000]);
}

#[test]
fn counts_above_size_are_refused() {
    assert_eq!(build_weights(3, &list(&[(2, 100_000), (2, 100_000)])), Err(WeightError::CountsExceedSize));
    assert_eq!(check_weights(3, &list(&[(4, 0)])), Err(WeightError::CountsExceedSize));
    assert_eq!(
        build_weights(3, &list(&[(usize::MAX, 1), (usize::MAX, 1)])),
        Err(WeightError::CountsExceedSize)
    );
}

#[test]
fn shares_above_one_are_refused() {
    assert_eq!(build_weights(10, &list(&[(1, 600_000), (1, 400_001)])), Err(WeightError::SharesExceedWhole));
    assert_eq!(build_weights(10, &list(&[(1, u32::MAX), (1, u32::MAX)])), Err(WeightError::SharesExceedWhole));
}

#[test]
fn counts_are_judged_before_shares() {
    assert_eq!(build_weights(1, &list(&[(2, 2_000_000)])), Err(WeightError::CountsExceedSize));
}

#[test]
fn residual_without_a_slot_is_refused() {
    assert_eq!(build_weights(2, &list(&[(2, 500_000)])), Err(WeightError::NoRoomForResidual));
    assert_eq!(build_weights(0, &Vec::new()), Err(WeightError::NoRoomForResidual));
}

#[test]
fn weights_that_are_all_zero_are_refused() {
    assert_eq!(build_weights(3, &list(&[(0, 1_000_000)])), Err(WeightError::NoWeight));
    assert_eq!(build_weights(0, &list(&[(0, 1_000_000)])), Err(WeightError::NoWeight));
}

#[test]
fn weights_beyond_64_bits_are_refused() {
    let size: usize = 1 << 31;
    assert_eq!(check_weights(size, &list(&[(1 << 30, 1_000_000)])), Err(WeightError::TooLarge));
    // The same list over a universe it fills has smaller units and fits.
    assert_eq!(check_weights(1 << 30, &list(&[(1 << 30, 1_000_000)])), Ok(()));
}

#[test]
fn check_agrees_with_build() {
    let cases: Vec<(usize, Vec<Proportion>)> = vec![
        (10, list(&[(2, 500_000)])),
        (2, list(&[(2, 500_000)])),
        (3, list(&[(4, 0)])),
        (5, list(&[(1, 999_999), (1, 2)])),
        (6, list(&[(3, 0), (3, 1_000_000)])),
    ];
    for (size, ps) in cases {
        assert_eq!(check_weights(size, &ps), build_weights(size, &ps).map(|_| ()));
    }
}

#[test]
fn sums_within_bounds() {
    let ps = list(&[(2, 300_000), (3, 700_000)]);
    assert_eq!(count_within(5, &ps), Some(5));
    assert_eq!(count_within(4, &ps), None);
    assert_eq!(share_within(&ps), Some(1_000_000));
    assert_eq!(share_within(&list(&[(1, 1_000_000), (1, 1)])), None);
}
