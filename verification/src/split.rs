use vstd::prelude::*;

verus! {

/// The largest total the engine can split without the 128-bit share
/// arithmetic overflowing: the first share is computed as `total * 70`
/// before dividing, so `total * 70` must fit in an `i128`. This is
/// `i128::MAX / 70`.
pub const MAX_SPLIT_TOTAL: i128 = 2430588335149560453309818624512630081;

/// The producer's 70% share, by integer truncating division.
pub open spec fn producer_share_of(total: int) -> int {
    total * 70 / 100
}

/// The verifier's 20% share, by integer truncating division.
pub open spec fn verifier_share_of(total: int) -> int {
    total * 20 / 100
}

/// The DAO fund's share: whatever the first two shares leave of the total,
/// so the rounding residue is absorbed here by design.
pub open spec fn dao_share_of(total: int) -> int {
    total - producer_share_of(total) - verifier_share_of(total)
}

/// Conservation of the 70/20/10 split: for every total of at least 1, the
/// three shares are non-negative and sum exactly to the total, including
/// totals whose 70% or 20% is not integral.
pub proof fn lemma_split_conservation(total: int)
    requires
        1 <= total,
    ensures
        producer_share_of(total) + verifier_share_of(total) + dao_share_of(total) == total,
        0 <= producer_share_of(total),
        0 <= verifier_share_of(total),
        0 <= dao_share_of(total),
{
    assert(0 <= total * 70 / 100);
    assert(0 <= total * 20 / 100);
    assert(total * 70 / 100 + total * 20 / 100 <= total);
}

/// Computes the 70/20/10 shares of `total`: floor for the first two, the
/// residue for the DAO fund.
pub fn split_revenue(total: i128) -> (shares: (i128, i128, i128))
    requires
        1 <= total <= MAX_SPLIT_TOTAL,
    ensures
        shares.0 == producer_share_of(total as int),
        shares.1 == verifier_share_of(total as int),
        shares.2 == dao_share_of(total as int),
        shares.0 + shares.1 + shares.2 == total,
        0 <= shares.0 && 0 <= shares.1 && 0 <= shares.2,
{
    proof {
        lemma_split_conservation(total as int);
    }
    let producer_share: i128 = total * 70 / 100;
    let verifier_share: i128 = total * 20 / 100;
    let dao_share: i128 = total - producer_share - verifier_share;
    (producer_share, verifier_share, dao_share)
}

} // verus!
