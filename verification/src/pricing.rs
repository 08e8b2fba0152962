use vstd::prelude::*;

use vstd::arithmetic::div_mod::{lemma_div_is_ordered, lemma_div_multiples_vanish};
use vstd::arithmetic::mul::lemma_mul_inequality;

verus! {

/// Lamports in one SOL. Bet coefficients add one SOL to both sides' values.
pub const LAMPORTS_PER_SOL: u64 = 1_000_000_000;

/// Fees are given in percent of this.
pub const PERCENT: u64 = 100;

/// Lamports that buying `total` tokens takes out of a constant-product pool
/// that holds `base` tokens and `quote` lamports.
pub open spec fn pool_buy_cost(base: int, quote: int, total: int) -> int {
    (base * quote) / (base - total) - quote
}

/// The value in lamports of a deposit of `amount` tokens, when `deposited`
/// tokens of the same side were deposited before it and the pool holds `base`
/// tokens and `quote` lamports: the deposit's share of the cost of buying all
/// deposited tokens from the pool. The cost is cut to 64 bits.
/// `None` where the computation fails: more tokens deposited than the pool
/// holds, nothing deposited, or a result out of 64 bits.
pub open spec fn deposit_value(base: u64, quote: u64, deposited: u64, amount: u64) -> Option<u64> {
    let total = deposited + amount;
    if total > u64::MAX || total >= base || total == 0 {
        None
    } else {
        let cost = pool_buy_cost(base as int, quote as int, total) as u64;
        if amount * cost > u64::MAX {
            None
        } else {
            Some((amount * cost / total) as u64)
        }
    }
}

/// The bet coefficient of a deposit worth `sol` lamports, when the opposite
/// side holds `opposite_sol` lamports and the deposit's own side `own_sol`:
/// `sol * (1 SOL + opposite_sol) / (1 SOL + own_sol)`.
pub open spec fn bet_coefficient(sol: int, opposite_sol: int, own_sol: int) -> int {
    sol * (opposite_sol + LAMPORTS_PER_SOL) / (own_sol + LAMPORTS_PER_SOL)
}

/// `bet_coefficient`, or `None` where a step of it leaves 64 bits.
pub open spec fn bet_value(sol: u64, opposite_sol: u64, own_sol: u64) -> Option<u64> {
    if opposite_sol + LAMPORTS_PER_SOL > u64::MAX || own_sol + LAMPORTS_PER_SOL > u64::MAX
        || sol * (opposite_sol + LAMPORTS_PER_SOL) > u64::MAX {
        None
    } else {
        Some(bet_coefficient(sol as int, opposite_sol as int, own_sol as int) as u64)
    }
}

/// The platform's part of a deposit of `amount` at a fee of `fee` percent.
pub open spec fn claim_fee(amount: int, fee: int) -> int {
    amount * fee / (PERCENT as int)
}

/// What a winner gets back of a deposit of `amount` at a fee of `fee` percent.
pub open spec fn claim_refund(amount: int, fee: int) -> int {
    amount * ((PERCENT as int) - fee) / (PERCENT as int)
}

/// What is left of the losing side's `pool` after a fee of `fee` percent.
pub open spec fn prize_pool(pool: int, fee: int) -> int {
    pool * ((PERCENT as int) - fee) / (PERCENT as int)
}

/// A winner's reward: the share `bet / total_bet` of the prize pool.
pub open spec fn claim_reward(pool: int, fee: int, bet: int, total_bet: int) -> int {
    prize_pool(pool, fee) * bet / total_bet
}

/// `claim_fee`, or `None` where `amount * fee` leaves 64 bits.
pub open spec fn fee_value(amount: u64, fee: u64) -> Option<u64> {
    if amount * fee > u64::MAX {
        None
    } else {
        Some(claim_fee(amount as int, fee as int) as u64)
    }
}

/// `claim_refund`, or `None` where the fee is above 100 percent or a step
/// leaves 64 bits.
pub open spec fn refund_value(amount: u64, fee: u64) -> Option<u64> {
    if fee > PERCENT || amount * (PERCENT - fee) > u64::MAX {
        None
    } else {
        Some(claim_refund(amount as int, fee as int) as u64)
    }
}

/// `claim_reward`, or `None` where the fee is above 100 percent, a step
/// leaves 64 bits, or `total_bet` is zero.
pub open spec fn reward_value(pool: u64, fee: u64, bet: u64, total_bet: u64) -> Option<u64> {
    if fee > PERCENT || pool * (PERCENT - fee) > u64::MAX
        || prize_pool(pool as int, fee as int) * bet > u64::MAX || total_bet == 0 {
        None
    } else {
        Some(claim_reward(pool as int, fee as int, bet as int, total_bet as int) as u64)
    }
}

/// The value in lamports, at a pool's current price, of `amount` tokens: the
/// pool holds `base` tokens against `quote` lamports, so the tokens are worth
/// `amount * quote / base`.
pub open spec fn end_value(amount: int, base: int, quote: int) -> int {
    amount * quote / base
}

/// Computes `end_value` in 128 bits; `None` where the pool holds no tokens.
pub fn compute_end_value(amount: u64, base: u64, quote: u64) -> (r: Option<u128>)
    ensures
        base == 0 ==> r is None,
        base != 0 ==> r is Some && r.unwrap() == end_value(amount as int, base as int, quote as int),
{
    if base == 0 {
        return None;
    }
    proof {
        lemma_product_fits_u128(amount, quote);
        assert((amount as int) * (quote as int) / (base as int) <= (amount as int) * (quote as int))
            by (nonlinear_arith)
            requires
                base >= 1,
                amount >= 0,
                quote >= 0,
        ;
    }
    let product: u128 = (amount as u128) * (quote as u128);
    Some(product / (base as u128))
}

proof fn lemma_product_fits_u128(a: u64, b: u64)
    ensures
        (a as int) * (b as int) <= u128::MAX,
{
    assert((a as int) * (b as int) <= (u64::MAX as int) * (u64::MAX as int)) by (nonlinear_arith)
        requires
            a <= u64::MAX,
            b <= u64::MAX,
    ;
}

/// Buying from a constant-product pool never costs less than nothing.
proof fn lemma_pool_cost_nonnegative(base: int, quote: int, total: int)
    requires
        0 <= total < base,
        0 <= quote,
    ensures
        pool_buy_cost(base, quote, total) >= 0,
{
    let denom = base - total;
    lemma_mul_inequality(denom, base, quote);
    assert(denom * quote == quote * denom) by (nonlinear_arith);
    assert(base * quote == quote * base) by (nonlinear_arith);
    lemma_div_is_ordered(denom * quote, base * quote, denom);
    lemma_div_multiples_vanish(quote, denom);
}

/// Computes `deposit_value`.
pub fn compute_deposit_value(base: u64, quote: u64, deposited: u64, amount: u64) -> (r: Option<u64>)
    ensures
        r == deposit_value(base, quote, deposited, amount),
{
    let total = match deposited.checked_add(amount) {
        Some(t) => t,
        None => return None,
    };
    if total >= base || total == 0 {
        return None;
    }
    proof {
        lemma_product_fits_u128(base, quote);
        lemma_pool_cost_nonnegative(base as int, quote as int, total as int);
    }
    let base_w = base as u128;
    let quote_w = quote as u128;
    let k: u128 = base_w * quote_w;
    let denom: u128 = base_w - total as u128;
    let delta: u128 = k / denom - quote_w;
    let cost: u64 = #[verifier::truncate] (delta as u64);
    match amount.checked_mul(cost) {
        Some(product) => Some(product / total),
        None => None,
    }
}

/// Computes `bet_value`.
pub fn compute_bet(sol: u64, opposite_sol: u64, own_sol: u64) -> (r: Option<u64>)
    ensures
        r == bet_value(sol, opposite_sol, own_sol),
{
    let num = match opposite_sol.checked_add(LAMPORTS_PER_SOL) {
        Some(n) => n,
        None => return None,
    };
    let den = match own_sol.checked_add(LAMPORTS_PER_SOL) {
        Some(d) => d,
        None => return None,
    };
    match sol.checked_mul(num) {
        Some(product) => Some(product / den),
        None => None,
    }
}

/// Computes `fee_value`.
pub fn compute_fee(amount: u64, fee: u64) -> (r: Option<u64>)
    ensures
        r == fee_value(amount, fee),
{
    match amount.checked_mul(fee) {
        Some(product) => Some(product / PERCENT),
        None => None,
    }
}

/// Computes `refund_value`.
pub fn compute_refund(amount: u64, fee: u64) -> (r: Option<u64>)
    ensures
        r == refund_value(amount, fee),
{
    if fee > PERCENT {
        return None;
    }
    match amount.checked_mul(PERCENT - fee) {
        Some(product) => Some(product / PERCENT),
        None => None,
    }
}

/// Computes `reward_value`.
pub fn compute_reward(pool: u64, fee: u64, bet: u64, total_bet: u64) -> (r: Option<u64>)
    ensures
        r == reward_value(pool, fee, bet, total_bet),
{
    if fee > PERCENT {
        return None;
    }
    let scaled = match pool.checked_mul(PERCENT - fee) {
        Some(p) => p / PERCENT,
        None => return None,
    };
    let weighted = match scaled.checked_mul(bet) {
        Some(w) => w,
        None => return None,
    };
    if total_bet == 0 {
        return None;
    }
    Some(weighted / total_bet)
}

} // verus!
