//! Fee and settlement arithmetic, and the reserved-balance accounting.
//!
//! Fee rates are basis points out of 10,000.  A gross amount is settled as
//! `gross * (10000 - fee_bps) / 10000`, with truncating integer division.
//! The spendable balance is the held balance minus the amount reserved to
//! cover the cost of the persisted data.
use vstd::prelude::*;

verus! {

/// Basis-point denominator: fee rates are parts per 10,000.
pub const BPS_DENOMINATOR: u128 = 10000;

/// The dust threshold: the project may only be closed while the spendable
/// balance is at or below this amount (one whole token in its smallest
/// unit, 10^24).
pub const MAX_DIFF: u128 = 1000000000000000000000000;

/// The net amount left of `gross` after a fee of `fee_bps` basis points,
/// truncating.
pub open spec fn net_amount(gross: int, fee_bps: int) -> int {
    gross * (10000 - fee_bps) / 10000
}

/// The spendable balance: everything held above the storage reserve.
pub open spec fn spendable_of(held: int, storage_usage: int, storage_byte_cost: int) -> int {
    held - storage_usage * storage_byte_cost
}

/// The product of a gross amount below `u128::MAX / 10000` with a fee
/// remainder of at most 10,000 stays within `u128`.
proof fn lemma_net_product_fits(gross: u128, keep_bps: u128)
    requires
        gross <= u128::MAX / 10000,
        keep_bps <= 10000,
    ensures
        gross * keep_bps <= u128::MAX,
{
    assert(gross * keep_bps <= (u128::MAX / 10000) * 10000) by (nonlinear_arith)
        requires
            gross <= u128::MAX / 10000,
            keep_bps <= 10000,
    ;
}

/// The net funding a gross client payment yields after the client-side fee:
/// what of an attached payment actually counts toward a milestone's price.
pub fn netFunding(grossPayment: u128, clientFeeBps: u16) -> (r: u128)
    requires
        clientFeeBps <= 10000,
        grossPayment <= u128::MAX / 10000,
    ensures
        r == net_amount(grossPayment as int, clientFeeBps as int),
{
    proof {
        lemma_net_product_fits(grossPayment, (10000 - clientFeeBps) as u128);
    }
    grossPayment * ((10000 - clientFeeBps) as u128) / BPS_DENOMINATOR
}

/// The net payout a milestone's gross value yields after the
/// freelancer-side fee: what the freelancer is paid at release.
pub fn netPayout(scheduleValue: u128, freelancerFeeBps: u16) -> (r: u128)
    requires
        freelancerFeeBps <= 10000,
        scheduleValue <= u128::MAX / 10000,
    ensures
        r == net_amount(scheduleValue as int, freelancerFeeBps as int),
{
    proof {
        lemma_net_product_fits(scheduleValue, (10000 - freelancerFeeBps) as u128);
    }
    scheduleValue * ((10000 - freelancerFeeBps) as u128) / BPS_DENOMINATOR
}

} // verus!
