//! The arithmetic that seeds and ages the liquidity of a Kamino lending
//! reserve in a test validator.
use vstd::prelude::*;
use vstd::bytes::{spec_u64_to_le_bytes, u64_to_le_bytes};

verus! {

/// Basis points in one whole.
pub const BPS_DENOMINATOR: u64 = 10_000;

/// Collateral minted in a reserve that starts with pre-existing supply.
pub const SEEDED_COLLATERAL_SUPPLY: u64 = 1_000_000;

/// The product of `a` and `b`, or `u128::MAX` when it overflows.
fn u128_saturating_mul(a: u128, b: u128) -> (r: u128)
    ensures
        r == if a * b > u128::MAX { u128::MAX as int } else { a * b },
{
    match a.checked_mul(b) {
        Some(p) => p,
        None => u128::MAX,
    }
}

/// The product of `a` and `b`, or `u64::MAX` when it overflows.
fn u64_saturating_mul(a: u64, b: u64) -> (r: u64)
    ensures
        r == if a * b > u64::MAX { u64::MAX as int } else { a * b },
{
    match a.checked_mul(b) {
        Some(p) => p,
        None => u64::MAX,
    }
}

/// The collateral supply and available liquidity a reserve is seeded with
/// for an exchange rate of `liquidity_collateral_ratio_bps` basis points:
/// at 10 000 and above there is no pre-existing supply; below, 1 000 000
/// collateral tokens stand against `1 000 000 * 10 000 / ratio` liquidity.
pub fn seeded_reserve_supply(liquidity_collateral_ratio_bps: u64) -> (r: (u64, u64))
    requires
        liquidity_collateral_ratio_bps != 0,
    ensures
        r == if liquidity_collateral_ratio_bps < 10_000 {
            (1_000_000u64, (10_000_000_000int / (liquidity_collateral_ratio_bps as int)) as u64)
        } else {
            (0u64, 0u64)
        },
{
    let mut mint_total_supply: u64 = 0;
    let mut available_amount: u64 = 0;
    if liquidity_collateral_ratio_bps < BPS_DENOMINATOR {
        mint_total_supply = SEEDED_COLLATERAL_SUPPLY;
        let scaled = u128_saturating_mul(mint_total_supply as u128, BPS_DENOMINATOR as u128);
        let q = scaled / (liquidity_collateral_ratio_bps as u128);
        assert(q <= 10_000_000_000) by (nonlinear_arith)
            requires
                q == 10_000_000_000int / (liquidity_collateral_ratio_bps as int),
                liquidity_collateral_ratio_bps >= 1,
        ;
        available_amount = q as u64;
    }
    (mint_total_supply, available_amount)
}

/// The available liquidity after accruing `interest_bps` basis points of
/// interest: `available * (10 000 + interest) / 10 000`, where the product
/// saturates at `u64::MAX`.
pub fn accrue_interest(available_amount: u64, interest_bps: u64) -> (r: u64)
    requires
        interest_bps <= u64::MAX - 10_000,
    ensures
        r == (if available_amount * (10_000 + interest_bps) > u64::MAX {
            u64::MAX as int
        } else {
            available_amount * (10_000 + interest_bps)
        }) / 10_000,
{
    u64_saturating_mul(available_amount, BPS_DENOMINATOR + interest_bps) / BPS_DENOMINATOR
}

/// The bytes of a reserve's last-update record that makes the reserve fresh
/// at `current_slot`: the previous slot (not below 0) as a little-endian
/// `u64`, the stale flag and price status cleared, and 6 bytes of padding.
pub fn fresh_last_update_bytes(current_slot: u64) -> (r: Vec<u8>)
    ensures
        r@ == spec_u64_to_le_bytes(if current_slot == 0 { 0u64 } else { (current_slot - 1) as u64 })
            + seq![0u8, 0, 0, 0, 0, 0, 0, 0],
{
    let safe_slot = current_slot.saturating_sub(1);
    let mut last_update_bytes = u64_to_le_bytes(safe_slot);
    let mut i: usize = 0;
    while i < 8
        invariant
            0 <= i <= 8,
            last_update_bytes@ == spec_u64_to_le_bytes(safe_slot) + Seq::new(
                i as nat,
                |j: int| 0u8,
            ),
        decreases 8 - i,
    {
        last_update_bytes.push(0u8);
        i = i + 1;
        proof {
            assert(last_update_bytes@ =~= spec_u64_to_le_bytes(safe_slot) + Seq::new(
                i as nat,
                |j: int| 0u8,
            ));
        }
    }
    proof {
        assert(Seq::new(8, |j: int| 0u8) =~= seq![0u8, 0, 0, 0, 0, 0, 0, 0]);
    }
    last_update_bytes
}

/// Accruing non-negative interest never lowers the available liquidity as
/// long as the product does not saturate.
pub proof fn lemma_accrue_interest_grows(available_amount: u64, interest_bps: u64)
    requires
        available_amount * (10_000 + interest_bps) <= u64::MAX,
    ensures
        (available_amount * (10_000 + interest_bps)) / 10_000 >= available_amount,
{
    assert((available_amount * (10_000 + interest_bps)) / 10_000 >= available_amount)
        by (nonlinear_arith);
}

} // verus!
