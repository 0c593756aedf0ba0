use vstd::prelude::*;

verus! {

/// Basis points in one whole: a fee of `BPS_DENOMINATOR` takes the entire price.
pub const BPS_DENOMINATOR: u16 = 10000;

/// The share of a sale that goes to the buyer as reward tokens, in basis points (1%).
pub const REWARD_BPS: u16 = 100;

/// `amount * bps / 10000`, rounded down, over the integers.
pub open spec fn bps_share(amount: int, bps: int) -> int {
    amount * bps / 10000
}

/// The fee that the marketplace keeps out of a sale at `price` with a fee of
/// `fee_bps` basis points: the share, rounded down, reduced to 64 bits as
/// the program's narrowing conversion does.
pub open spec fn fee_of(price: u64, fee_bps: u16) -> int {
    bps_share(price as int, fee_bps as int) % 0x1_0000_0000_0000_0000
}

/// What the seller receives out of a sale at `price`.
pub open spec fn maker_amount_of(price: u64, fee_bps: u16) -> int {
    price - fee_of(price, fee_bps)
}

/// The reward minted to the buyer of a sale at `price`.
pub open spec fn reward_of(price: u64) -> int {
    bps_share(price as int, REWARD_BPS as int)
}

/// A fee of at most 10000 basis points never exceeds the price, and then
/// no narrowing happens.
pub proof fn lemma_fee_bounded(price: u64, fee_bps: u16)
    requires
        fee_bps <= BPS_DENOMINATOR,
    ensures
        fee_of(price, fee_bps) == bps_share(price as int, fee_bps as int),
        0 <= fee_of(price, fee_bps) <= price,
{
    let p = price as int;
    let b = fee_bps as int;
    assert(0 <= p * b <= p * 10000) by (nonlinear_arith)
        requires
            0 <= p,
            0 <= b <= 10000,
    ;
    assert(0 <= p * b / 10000 <= p) by (nonlinear_arith)
        requires
            0 <= p * b <= p * 10000,
    ;
}

/// The fee of a sale: `price * fee_bps / 10000`, computed in 128 bits and
/// narrowed to 64.
pub fn marketplace_fee(price: u64, fee_bps: u16) -> (fee: u64)
    ensures
        fee == fee_of(price, fee_bps),
{
    let p: u128 = price as u128;
    let b: u128 = fee_bps as u128;
    assert(p * b <= 0xffff_ffff_ffff_ffff * 0xffff) by (nonlinear_arith)
        requires
            p <= 0xffff_ffff_ffff_ffff,
            b <= 0xffff,
    ;
    let product: u128 = p * b;
    let share: u128 = product / 10000;
    let fee: u64 = share as u64;
    assert(fee as u128 == share % 0x1_0000_0000_0000_0000u128) by (bit_vector)
        requires
            fee == share as u64,
    ;
    fee
}

/// Splits a price into what the seller receives and what the marketplace
/// keeps. The seller's part is `price - fee`; the program stops when the fee
/// exceeds the price, so that input is left out.
pub fn split_price(price: u64, fee_bps: u16) -> (parts: (u64, u64))
    requires
        fee_of(price, fee_bps) <= price,
    ensures
        parts.1 == fee_of(price, fee_bps),
        parts.0 == maker_amount_of(price, fee_bps),
        parts.0 + parts.1 == price,
{
    let fee = marketplace_fee(price, fee_bps);
    (price - fee, fee)
}

/// The reward is the price over 100, rounded down.
pub proof fn lemma_reward_is_hundredth(price: u64)
    ensures
        reward_of(price) == price / 100,
        0 <= reward_of(price) <= price,
{
    let p = price as int;
    assert(p * 100 / 10000 == p / 100) by (nonlinear_arith)
        requires
            0 <= p,
    ;
}

/// The reward for a sale at `price`: 1% of it, rounded down.
pub fn reward_amount(price: u64) -> (reward: u64)
    ensures
        reward == reward_of(price),
        reward == price / 100,
{
    let p: u128 = price as u128;
    let share: u128 = p * 100 / 10000;
    proof {
        lemma_reward_is_hundredth(price);
    }
    share as u64
}

} // verus!
