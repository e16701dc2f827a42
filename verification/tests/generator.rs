use numstream::generator::generator_from_seed;
use rand::RngCore;

#[test]
fn equal_seeds_give_equal_generators() {
    let mut a = generator_from_seed(7);
    let mut b = generator_from_seed(7);
    for _ in 0..16 {
        assert_eq!(a.next_u64(), b.next_u64());
    }
}
