//! Drawing a slot of a weight array: the contracts under which the crate
//! uses `rand`'s `WeightedIndex`.

use crate::generator::words;
use crate::weights::weight_sum;
use rand::distributions::Distribution;
use rand::distributions::WeightedIndex;
use rand_xoshiro::Xoshiro256StarStar;
use vstd::prelude::*;

verus! {

/// A `rand::distributions::WeightedIndex` over 64-bit weights. The type is
/// bounded by a trait of `rand` that Verus cannot take, so it is held in a
/// struct that Verus does not look into: what the crate knows of a picker is
/// what the contracts below say.
#[verifier::external_body]
pub struct Picker {
    inner: WeightedIndex<u64>,
}

/// The weights that a picker was made of, slot by slot.
pub uninterp spec fn picker_weights(p: Picker) -> Seq<u64>;

/// The slot that a picker over `weights` yields from a generator in state
/// `before`, and the state it leaves.
pub uninterp spec fn picked(weights: Seq<u64>, before: Seq<u64>) -> (int, Seq<u64>);

/// `WeightedIndex::new` on 64-bit weights: there is a picker exactly where
/// there is a weight and not all are zero, and it holds the weights it was
/// given. `new` adds the weights up without a check, so the precondition
/// keeps their sum within 64 bits.
#[verifier::external_body]
pub(crate) fn make_picker(weights: &Vec<u64>) -> (r: Option<Picker>)
    requires
        weight_sum(weights@) <= u64::MAX,
    ensures
        r.is_some() == (weights@.len() > 0 && weight_sum(weights@) > 0),
        r.is_some() ==> picker_weights(r.unwrap()) == weights@,
{
    WeightedIndex::new(weights).ok().map(|inner| Picker { inner })
}

/// `WeightedIndex::sample`: the slot exists and has a weight above zero, and
/// slot and new state are functions of the weights and the old state.
#[verifier::external_body]
pub(crate) fn draw_slot(p: &Picker, g: &mut Xoshiro256StarStar) -> (i: usize)
    ensures
        i < picker_weights(*p).len(),
        picker_weights(*p)[i as int] > 0,
        i == picked(picker_weights(*p), words(*old(g))).0,
        words(*final(g)) == picked(picker_weights(*p), words(*old(g))).1,
{
    p.inner.sample(g)
}

} // verus!
