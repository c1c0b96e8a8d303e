use vstd::prelude::*;

verus! {

/// Each of the two royalties (creator, administrator) is this fraction's
/// denominator of a trade's lamports.
pub const ROYALTY_DIVISOR: u64 = 40;

/// The royalty paid to each of the creator and the administrator on a trade of `amount` lamports.
pub open spec fn royalty_of(amount: u64) -> u64 {
    amount / 40
}

/// What is left of `amount` once both royalties are taken.
pub open spec fn net_of(amount: u64) -> u64 {
    (amount - 2 * royalty_of(amount)) as u64
}

/// The royalty is the floor of a fortieth: forty royalties fit in the
/// amount and forty-one do not, and the net part is what two royalties leave.
pub proof fn lemma_fortieth_bounds(amount: u64)
    ensures
        40 * (amount / 40) <= amount < 40 * (amount / 40) + 40,
        40 * royalty_of(amount) <= amount < 40 * royalty_of(amount) + 40,
        net_of(amount) + 2 * royalty_of(amount) == amount,
{
    assert(40 * (amount / 40) <= amount < 40 * (amount / 40) + 40) by (nonlinear_arith);
}

/// Splits a trade's lamports into the royalty (paid twice) and the rest.
pub fn split_royalty(amount: u64) -> (r: (u64, u64))
    ensures
        r.0 == royalty_of(amount),
        r.1 == net_of(amount),
        r.0 == amount / 40,
        40 * r.0 <= amount < 40 * r.0 + 40,
        r.1 == amount - 2 * r.0,
        2 * r.0 + r.1 == amount,
        r.1 <= amount,
{
    let royalty = amount / ROYALTY_DIVISOR;
    proof {
        lemma_fortieth_bounds(amount);
    }
    (royalty, amount - royalty * 2)
}

} // verus!
