//! The weight array of the weighted-categorical model.
//!
//! A proportion list `[(n1, p1), (n2, p2), ..]` over a universe of `size`
//! slots gives each of the first `n1` slots the share `p1`, each of the next
//! `n2` the share `p2`, and so on; the slots that are left split what is
//! missing to the whole evenly among them.
//!
//! Shares are written in millionths. So that the even split is exact, the
//! weights are integers in a finer unit: one millionth divided by the number
//! of slots that are left (`unit_parts`). A listed slot of share `p` then has
//! the weight `p * unit_parts`, and each slot that is left has the weight
//! `PPM - (p1 + p2 + ..)`. A sampler reads weights up to a common factor, so
//! the unit never shows in what is drawn.

use vstd::prelude::*;

verus! {

/// One whole, in millionths.
pub const PPM: u32 = 1_000_000;

/// `count` slots that carry the share `share` (in millionths) each.
#[derive(Clone, Copy, Debug, PartialEq, Eq, Structural)]
pub struct Proportion {
    pub count: usize,
    pub share: u32,
}

/// Why a proportion list yields no weight array.
#[derive(Clone, Copy, Debug, PartialEq, Eq, Structural)]
pub enum WeightError {
    /// The counts add up to more than the universe holds.
    CountsExceedSize,
    /// The shares add up to more than one whole.
    SharesExceedWhole,
    /// Part of the whole is not given out, and no slot is left to take it.
    NoRoomForResidual,
    /// No slot carries any weight, so nothing could ever be drawn.
    NoWeight,
    /// The weights add up to more than 64 bits hold.
    TooLarge,
}

/// The sum of the counts.
pub open spec fn total_count(ps: Seq<Proportion>) -> nat
    decreases ps.len(),
{
    if ps.len() == 0 {
        0
    } else {
        total_count(ps.drop_last()) + ps.last().count as nat
    }
}

/// The sum of the shares, in millionths.
pub open spec fn total_share(ps: Seq<Proportion>) -> nat
    decreases ps.len(),
{
    if ps.len() == 0 {
        0
    } else {
        total_share(ps.drop_last()) + ps.last().share as nat
    }
}

/// The number of slots that no entry of the list claims.
pub open spec fn residual_count(size: usize, ps: Seq<Proportion>) -> int {
    size - total_count(ps)
}

/// The part of the whole that no entry of the list gives out, in millionths.
pub open spec fn residual_share(ps: Seq<Proportion>) -> int {
    PPM - total_share(ps)
}

/// The number of equal parts into which a millionth is divided to make the
/// unit of weight: the number of slots left over, or one where none is left.
pub open spec fn unit_parts(size: usize, ps: Seq<Proportion>) -> int {
    if residual_count(size, ps) <= 0 {
        1
    } else {
        residual_count(size, ps)
    }
}

/// The weight of all listed slots together, where a millionth is `unit`
/// units of weight.
pub open spec fn listed_weight(ps: Seq<Proportion>, unit: int) -> int
    decreases ps.len(),
{
    if ps.len() == 0 {
        0
    } else {
        listed_weight(ps.drop_last(), unit) + ps.last().count * (ps.last().share * unit)
    }
}

/// The weight of all slots together.
pub open spec fn total_weight(size: usize, ps: Seq<Proportion>) -> int {
    listed_weight(ps, unit_parts(size, ps)) + residual_count(size, ps) * residual_share(ps)
}

/// The first reason, if there is one, for which `ps` yields no weight array
/// over `size` slots.
pub open spec fn weight_fault(size: usize, ps: Seq<Proportion>) -> Option<WeightError> {
    if total_count(ps) > size {
        Some(WeightError::CountsExceedSize)
    } else if total_share(ps) > PPM {
        Some(WeightError::SharesExceedWhole)
    } else if total_count(ps) == size && total_share(ps) < PPM {
        Some(WeightError::NoRoomForResidual)
    } else if total_weight(size, ps) == 0 {
        Some(WeightError::NoWeight)
    } else if total_weight(size, ps) > u64::MAX {
        Some(WeightError::TooLarge)
    } else {
        None
    }
}

/// The slot that is the `k`-th of those that entry `i` claims.
pub open spec fn slot_of(ps: Seq<Proportion>, i: int, k: int) -> int {
    total_count(ps.take(i)) + k
}

/// The sum of a sequence of weights.
pub open spec fn weight_sum(w: Seq<u64>) -> nat
    decreases w.len(),
{
    if w.len() == 0 {
        0
    } else {
        weight_sum(w.drop_last()) + w.last() as nat
    }
}

/// `w` is the weight array that `ps` describes over `size` slots.
pub open spec fn is_weights_of(w: Seq<u64>, size: usize, ps: Seq<Proportion>) -> bool {
    &&& w.len() == size
    &&& forall|i: int, k: int|
        0 <= i < ps.len() && 0 <= k < ps[i].count ==> w[#[trigger] slot_of(ps, i, k)]
            == ps[i].share * unit_parts(size, ps)
    &&& forall|j: int| total_count(ps) <= j < size ==> #[trigger] w[j] == residual_share(ps)
    &&& weight_sum(w) == total_weight(size, ps)
}

/// A prefix of the list claims no more slots than the list.
pub proof fn lemma_count_prefix(ps: Seq<Proportion>, i: int)
    requires
        0 <= i <= ps.len(),
    ensures
        total_count(ps.take(i)) <= total_count(ps),
    decreases ps.len() - i,
{
    if i < ps.len() {
        assert(ps.take(i + 1).drop_last() =~= ps.take(i));
        lemma_count_prefix(ps, i + 1);
    } else {
        assert(ps.take(i) =~= ps);
    }
}

/// A prefix of the list gives out no more than the list.
pub proof fn lemma_share_prefix(ps: Seq<Proportion>, i: int)
    requires
        0 <= i <= ps.len(),
    ensures
        total_share(ps.take(i)) <= total_share(ps),
    decreases ps.len() - i,
{
    if i < ps.len() {
        assert(ps.take(i + 1).drop_last() =~= ps.take(i));
        lemma_share_prefix(ps, i + 1);
    } else {
        assert(ps.take(i) =~= ps);
    }
}

/// A prefix of the list weighs no more than the list.
pub proof fn lemma_weight_prefix(ps: Seq<Proportion>, unit: int, i: int)
    requires
        0 <= i <= ps.len(),
        0 <= unit,
    ensures
        0 <= listed_weight(ps.take(i), unit) <= listed_weight(ps, unit),
    decreases ps.len() - i,
{
    if i < ps.len() {
        assert(ps.take(i + 1).drop_last() =~= ps.take(i));
        assert(0 <= ps[i].count * (ps[i].share * unit)) by (nonlinear_arith)
            requires
                0 <= ps[i].count,
                0 <= ps[i].share,
                0 <= unit,
        ;
        lemma_weight_prefix(ps, unit, i + 1);
        lemma_weight_nonnegative(ps.take(i), unit);
    } else {
        assert(ps.take(i) =~= ps);
        lemma_weight_nonnegative(ps, unit);
    }
}

/// No list has a negative weight.
pub proof fn lemma_weight_nonnegative(ps: Seq<Proportion>, unit: int)
    requires
        0 <= unit,
    ensures
        0 <= listed_weight(ps, unit),
    decreases ps.len(),
{
    if ps.len() > 0 {
        lemma_weight_nonnegative(ps.drop_last(), unit);
        assert(0 <= ps.last().count * (ps.last().share * unit)) by (nonlinear_arith)
            requires
                0 <= ps.last().count,
                0 <= ps.last().share,
                0 <= unit,
        ;
    }
}

/// The sum of the counts, or nothing where it exceeds `size`.
pub fn count_within(size: usize, ps: &Vec<Proportion>) -> (r: Option<usize>)
    ensures
        match r {
            Some(n) => n == total_count(ps@) && n <= size,
            None => total_count(ps@) > size,
        },
{
    let mut n: usize = 0;
    let mut i: usize = 0;
    while i < ps.len()
        invariant
            i <= ps.len(),
            n == total_count(ps@.take(i as int)),
            n <= size,
        decreases ps.len() - i,
    {
        let c: usize = ps[i].count;
        proof {
            assert(ps@.take(i + 1).drop_last() =~= ps@.take(i as int));
            lemma_count_prefix(ps@, i + 1);
        }
        if c > size - n {
            return None;
        }
        n = n + c;
        i = i + 1;
    }
    proof {
        assert(ps@.take(i as int) =~= ps@);
    }
    Some(n)
}

/// The sum of the shares, or nothing where it exceeds one whole.
pub fn share_within(ps: &Vec<Proportion>) -> (r: Option<u32>)
    ensures
        match r {
            Some(s) => s == total_share(ps@) && s <= PPM,
            None => total_share(ps@) > PPM,
        },
{
    let mut s: u32 = 0;
    let mut i: usize = 0;
    while i < ps.len()
        invariant
            i <= ps.len(),
            s == total_share(ps@.take(i as int)),
            s <= PPM,
        decreases ps.len() - i,
    {
        let p: u32 = ps[i].share;
        proof {
            assert(ps@.take(i + 1).drop_last() =~= ps@.take(i as int));
            lemma_share_prefix(ps@, i + 1);
        }
        if p > PPM - s {
            return None;
        }
        s = s + p;
        i = i + 1;
    }
    proof {
        assert(ps@.take(i as int) =~= ps@);
    }
    Some(s)
}

/// The weight of all listed slots together, or nothing where it exceeds 64
/// bits.
fn listed_within(ps: &Vec<Proportion>, unit: usize) -> (r: Option<u64>)
    ensures
        match r {
            Some(t) => t == listed_weight(ps@, unit as int),
            None => listed_weight(ps@, unit as int) > u64::MAX,
        },
{
    let mut acc: u64 = 0;
    let mut i: usize = 0;
    while i < ps.len()
        invariant
            i <= ps.len(),
            acc == listed_weight(ps@.take(i as int), unit as int),
        decreases ps.len() - i,
    {
        let p = ps[i];
        proof {
            assert(ps@.take(i + 1).drop_last() =~= ps@.take(i as int));
            lemma_weight_prefix(ps@, unit as int, i + 1);
        }
        if p.count > 0 && p.share > 0 {
            assert(p.share * unit <= 0xffff_ffff * 0xffff_ffff_ffff_ffff) by (nonlinear_arith)
                requires
                    0 <= p.share <= 0xffff_ffff,
                    0 <= unit <= 0xffff_ffff_ffff_ffff,
            ;
            let each: u128 = (p.share as u128) * (unit as u128);
            if each > u64::MAX as u128 {
                assert(p.count * (p.share * unit) > u64::MAX) by (nonlinear_arith)
                    requires
                        p.count >= 1,
                        p.share * unit > u64::MAX,
                ;
                return None;
            }
            assert(p.count * each <= 0xffff_ffff_ffff_ffff * 0xffff_ffff_ffff_ffff)
                by (nonlinear_arith)
                requires
                    0 <= p.count <= 0xffff_ffff_ffff_ffff,
                    0 <= each <= 0xffff_ffff_ffff_ffff,
            ;
            let group: u128 = (p.count as u128) * each;
            let sum: u128 = acc as u128 + group;
            if sum > u64::MAX as u128 {
                return None;
            }
            acc = sum as u64;
        } else {
            assert(p.count * (p.share * unit) == 0) by (nonlinear_arith)
                requires
                    p.count == 0 || p.share == 0,
            ;
        }
        i = i + 1;
    }
    proof {
        assert(ps@.take(i as int) =~= ps@);
    }
    Some(acc)
}

/// Measures what `ps` leaves over of `size` slots and of the whole, or finds
/// the first fault.
fn survey(size: usize, ps: &Vec<Proportion>) -> (r: Result<(usize, u32), WeightError>)
    ensures
        match r {
            Ok((left, rest)) => {
                &&& weight_fault(size, ps@) is None
                &&& left == residual_count(size, ps@)
                &&& rest == residual_share(ps@)
            },
            Err(e) => weight_fault(size, ps@) == Some(e),
        },
{
    let listed_slots = match count_within(size, ps) {
        Some(n) => n,
        None => { return Err(WeightError::CountsExceedSize); },
    };
    let listed_share = match share_within(ps) {
        Some(s) => s,
        None => { return Err(WeightError::SharesExceedWhole); },
    };
    let left: usize = size - listed_slots;
    let rest: u32 = PPM - listed_share;
    if left == 0 && rest > 0 {
        return Err(WeightError::NoRoomForResidual);
    }
    let unit: usize = if left == 0 { 1 } else { left };
    proof {
        lemma_weight_nonnegative(ps@, unit as int);
    }
    assert(0 <= left * rest <= 0xffff_ffff_ffff_ffff * 0xffff_ffff) by (nonlinear_arith)
        requires
            0 <= left <= 0xffff_ffff_ffff_ffff,
            0 <= rest <= 0xffff_ffff,
    ;
    let spread: u128 = (left as u128) * (rest as u128);
    match listed_within(ps, unit) {
        None => Err(WeightError::TooLarge),
        Some(listed) => {
            let total: u128 = listed as u128 + spread;
            if total == 0 {
                Err(WeightError::NoWeight)
            } else if total > u64::MAX as u128 {
                Err(WeightError::TooLarge)
            } else {
                Ok((left, rest))
            }
        },
    }
}

/// Says whether `ps` yields a weight array over `size` slots, and if not,
/// why: the first of the faults, in the order in which `WeightError` lists
/// them.
pub fn check_weights(size: usize, ps: &Vec<Proportion>) -> (r: Result<(), WeightError>)
    ensures
        match r {
            Ok(_) => weight_fault(size, ps@) is None,
            Err(e) => weight_fault(size, ps@) == Some(e),
        },
{
    match survey(size, ps) {
        Err(e) => Err(e),
        Ok(_) => Ok(()),
    }
}

/// Appends `n` copies of `value` to `w`.
fn push_copies(w: &mut Vec<u64>, n: usize, value: u64)
    ensures
        final(w)@.len() == old(w)@.len() + n,
        forall|j: int| 0 <= j < old(w)@.len() ==> final(w)@[j] == old(w)@[j],
        forall|j: int| old(w)@.len() <= j < final(w)@.len() ==> final(w)@[j] == value,
        weight_sum(final(w)@) == weight_sum(old(w)@) + n * value,
{
    let mut k: usize = 0;
    while k < n
        invariant
            k <= n,
            w@.len() == old(w)@.len() + k,
            forall|j: int| 0 <= j < old(w)@.len() ==> w@[j] == old(w)@[j],
            forall|j: int| old(w)@.len() <= j < w@.len() ==> w@[j] == value,
            weight_sum(w@) == weight_sum(old(w)@) + k * value,
        decreases n - k,
    {
        let ghost before = w@;
        w.push(value);
        proof {
            assert(w@.drop_last() =~= before);
            assert((k + 1) * value == k * value + value) by (nonlinear_arith);
        }
        k = k + 1;
    }
}

/// Builds the weight array that `ps` describes over a universe of `size`
/// slots: entry by entry, each of the next `count` slots gets `share` times
/// `unit_parts`, and each slot after the listed ones gets the share that the
/// list leaves over. Fails, with the first fault in the order of
/// `WeightError`, exactly where `weight_fault` names one.
pub fn build_weights(size: usize, ps: &Vec<Proportion>) -> (r: Result<Vec<u64>, WeightError>)
    ensures
        match r {
            Ok(w) => weight_fault(size, ps@) is None && is_weights_of(w@, size, ps@),
            Err(e) => weight_fault(size, ps@) == Some(e),
        },
{
    let (left, rest) = match survey(size, ps) {
        Err(e) => { return Err(e); },
        Ok(found) => found,
    };
    let unit: usize = if left == 0 { 1 } else { left };
    let ghost parts = unit_parts(size, ps@);
    assert(parts == unit);
    proof {
        lemma_weight_nonnegative(ps@, parts);
        assert(0 <= left * rest) by (nonlinear_arith)
            requires
                0 <= left,
                0 <= rest,
        ;
    }
    let mut w: Vec<u64> = Vec::new();
    let mut i: usize = 0;
    while i < ps.len()
        invariant
            i <= ps.len(),
            parts == unit,
            0 < parts,
            listed_weight(ps@, parts) <= u64::MAX,
            w@.len() == total_count(ps@.take(i as int)),
            forall|a: int, k: int|
                0 <= a < i && 0 <= k < ps@[a].count ==> 0 <= #[trigger] slot_of(ps@, a, k)
                    < w@.len() && w@[slot_of(ps@, a, k)] == ps@[a].share * parts,
            weight_sum(w@) == listed_weight(ps@.take(i as int), parts),
        decreases ps.len() - i,
    {
        let p = ps[i];
        let ghost before = w@;
        proof {
            assert(ps@.take(i + 1).drop_last() =~= ps@.take(i as int));
            lemma_weight_prefix(ps@, parts, i + 1);
            lemma_weight_nonnegative(ps@.take(i as int), parts);
            lemma_count_prefix(ps@, i + 1);
        }
        if p.count > 0 {
            assert(p.share * parts <= p.count * (p.share * parts)) by (nonlinear_arith)
                requires
                    p.count >= 1,
                    0 <= p.share,
                    0 <= parts,
            ;
            let each: u64 = (p.share as u64) * (unit as u64);
            push_copies(&mut w, p.count, each);
        } else {
            assert(p.count * (p.share * parts) == 0) by (nonlinear_arith)
                requires
                    p.count == 0,
            ;
        }
        proof {
            assert forall|k: int| 0 <= k < p.count implies 0 <= #[trigger] slot_of(
                ps@,
                i as int,
                k,
            ) < w@.len() && w@[slot_of(ps@, i as int, k)] == p.share * parts by {
                assert(slot_of(ps@, i as int, k) == before.len() + k);
            }
        }
        i = i + 1;
    }
    proof {
        assert(ps@.take(i as int) =~= ps@);
        assert(left * rest <= total_weight(size, ps@));
    }
    push_copies(&mut w, left, rest as u64);
    Ok(w)
}

} // verus!
