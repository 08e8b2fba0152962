use vstd::prelude::*;

use crate::errors::ContestError;
use crate::instructions::{
    chosen_winner, claim_check, claim_payout, claim_payouts, create_contest_aborts, create_contest_check,
    deposit_aborts, deposit_done, deposit_precheck, deposit_quote, deposit_vault_check,
    ended_contest, set_winner_aborts, set_winner_check, winner_claim_aborts, withdraw_payout,
    DepositAccounts, Outcome, Pool, TokenAccountRole, TokenTransfer,
};
use crate::pricing::{
    claim_fee, claim_refund, claim_reward, fee_value, pool_buy_cost, prize_pool, refund_value,
    reward_value, LAMPORTS_PER_SOL, PERCENT,
};
use crate::pubkey::Pubkey;
use crate::state::{Contest, ContestInfo, GlobalState, Side};

verus! {

/// A winner's fee and refund together are their deposit, less at most one
/// token lost to rounding down.
pub proof fn lemma_claim_split_within_deposit(amount: u64, fee: u64)
    requires
        fee <= PERCENT,
    ensures
        claim_fee(amount as int, fee as int) + claim_refund(amount as int, fee as int) <= amount,
        amount - 1 <= claim_fee(amount as int, fee as int) + claim_refund(amount as int, fee as int),
{
    let a = amount as int;
    let f = fee as int;
    let x = a * f;
    let y = a * (100 - f);
    assert(x + y == 100 * a) by (nonlinear_arith)
        requires
            x == a * f,
            y == a * (100 - f),
    ;
    assert(0 <= x) by (nonlinear_arith)
        requires
            x == a * f,
            a >= 0,
            f >= 0,
    ;
    assert(0 <= y) by (nonlinear_arith)
        requires
            y == a * (100 - f),
            a >= 0,
            f <= 100,
    ;
    assert(x / 100 + y / 100 <= (x + y) / 100 && (x + y) / 100 - 1 <= x / 100 + y / 100)
        by (nonlinear_arith)
        requires
            x >= 0,
            y >= 0,
    ;
    assert((100 * a) / 100 == a) by (nonlinear_arith);
}

/// The sum of `bets`.
pub open spec fn sum_of(bets: Seq<int>) -> int
    decreases bets.len(),
{
    if bets.len() == 0 {
        0
    } else {
        sum_of(bets.drop_last()) + bets.last()
    }
}

/// The sum of the rewards of winners with bets `bets`, out of a losing pool
/// `pool`, at a fee of `fee` percent, when the winning side's bets total
/// `total_bet`.
pub open spec fn sum_of_rewards(pool: int, fee: int, bets: Seq<int>, total_bet: int) -> int
    decreases bets.len(),
{
    if bets.len() == 0 {
        0
    } else {
        sum_of_rewards(pool, fee, bets.drop_last(), total_bet) + claim_reward(
            pool,
            fee,
            bets.last(),
            total_bet,
        )
    }
}

proof fn lemma_rewards_scaled(pool: int, fee: int, bets: Seq<int>, total_bet: int)
    requires
        0 <= fee <= 100,
        0 <= pool,
        0 < total_bet,
        forall|i: int| 0 <= i < bets.len() ==> 0 <= #[trigger] bets[i],
    ensures
        sum_of_rewards(pool, fee, bets, total_bet) * total_bet <= prize_pool(pool, fee) * sum_of(
            bets,
        ),
    decreases bets.len(),
{
    if bets.len() > 0 {
        let rest = bets.drop_last();
        lemma_rewards_scaled(pool, fee, rest, total_bet);
        let p = prize_pool(pool, fee);
        let b = bets.last();
        assert(0 <= b);
        assert(0 <= p) by (nonlinear_arith)
            requires
                p == pool * (100 - fee) / 100,
                0 <= pool,
                fee <= 100,
        ;
        let r = claim_reward(pool, fee, b, total_bet);
        assert(r * total_bet <= p * b) by (nonlinear_arith)
            requires
                r == p * b / total_bet,
                0 <= p,
                0 <= b,
                0 < total_bet,
        ;
        let s = sum_of_rewards(pool, fee, rest, total_bet);
        assert((s + r) * total_bet == s * total_bet + r * total_bet) by (nonlinear_arith);
        assert(p * (sum_of(rest) + b) == p * sum_of(rest) + p * b) by (nonlinear_arith);
    }
}

/// However the winners' bets are split, the rewards paid out never exceed
/// the losing side's deposits less the fee, as long as the bets add up to
/// no more than the winning side's total bet.
pub proof fn lemma_rewards_within_prize_pool(pool: int, fee: int, bets: Seq<int>, total_bet: int)
    requires
        0 <= fee <= 100,
        0 <= pool,
        0 < total_bet,
        forall|i: int| 0 <= i < bets.len() ==> 0 <= #[trigger] bets[i],
        sum_of(bets) <= total_bet,
    ensures
        sum_of_rewards(pool, fee, bets, total_bet) <= prize_pool(pool, fee),
{
    lemma_rewards_scaled(pool, fee, bets, total_bet);
    let p = prize_pool(pool, fee);
    let s = sum_of_rewards(pool, fee, bets, total_bet);
    assert(0 <= p) by (nonlinear_arith)
        requires
            p == pool * (100 - fee) / 100,
            0 <= pool,
            fee <= 100,
    ;
    assert(s <= p) by (nonlinear_arith)
        requires
            s * total_bet <= p * sum_of(bets),
            sum_of(bets) <= total_bet,
            0 <= p,
            0 < total_bet,
    ;
}

/// The sum of the bets of the records `infos`.
pub open spec fn ledger_bets(infos: Seq<ContestInfo>) -> int
    decreases infos.len(),
{
    if infos.len() == 0 {
        0
    } else {
        ledger_bets(infos.drop_last()) + infos.last().bet
    }
}

/// The sum of the deposited amounts of the records `infos`.
pub open spec fn ledger_amounts(infos: Seq<ContestInfo>) -> int
    decreases infos.len(),
{
    if infos.len() == 0 {
        0
    } else {
        ledger_amounts(infos.drop_last()) + infos.last().amount
    }
}

/// A record with nothing deposited holds no bet.
pub open spec fn stake_consistent(info: ContestInfo) -> bool {
    info.amount == 0 ==> info.bet == 0
}

proof fn lemma_ledger_update(infos: Seq<ContestInfo>, i: int, info: ContestInfo)
    requires
        0 <= i < infos.len(),
    ensures
        ledger_bets(infos.update(i, info)) == ledger_bets(infos) - infos[i].bet + info.bet,
        ledger_amounts(infos.update(i, info)) == ledger_amounts(infos) - infos[i].amount
            + info.amount,
    decreases infos.len(),
{
    let updated = infos.update(i, info);
    if i == infos.len() - 1 {
        assert(updated.drop_last() =~= infos.drop_last());
    } else {
        lemma_ledger_update(infos.drop_last(), i, info);
        assert(updated.drop_last() =~= infos.drop_last().update(i, info));
    }
}

/// A deposit on `side` through the record `infos[i]` keeps the side's
/// ledger: where the side's total bet and deposited amount are the sums over
/// its records, they still are after the deposit, the other side's totals do
/// not move, and no record holds a bet without a deposit.
pub proof fn lemma_deposit_keeps_ledger(
    contest: Contest,
    infos: Seq<ContestInfo>,
    i: int,
    side: Side,
    accounts: DepositAccounts,
    contest_index: u16,
    amount: u64,
    new_contest: Contest,
    new_info: ContestInfo,
    outcome: Outcome,
)
    requires
        0 <= i < infos.len(),
        ledger_bets(infos) == contest.total_bet(side),
        ledger_amounts(infos) == contest.side_amount(side),
        forall|j: int| 0 <= j < infos.len() ==> stake_consistent(#[trigger] infos[j]),
        !deposit_aborts(contest, infos[i], side, accounts, contest_index, amount),
        deposit_done(
            contest,
            infos[i],
            side,
            accounts,
            contest_index,
            amount,
            new_contest,
            new_info,
            outcome,
        ),
    ensures
        ledger_bets(infos.update(i, new_info)) == new_contest.total_bet(side),
        ledger_amounts(infos.update(i, new_info)) == new_contest.side_amount(side),
        forall|j: int|
            0 <= j < infos.len() ==> stake_consistent(#[trigger] infos.update(i, new_info)[j]),
        new_contest.total_bet(side.opposite()) == contest.total_bet(side.opposite()),
        new_contest.side_amount(side.opposite()) == contest.side_amount(side.opposite()),
{
    lemma_ledger_update(infos, i, new_info);
    assert(stake_consistent(infos[i]));
    if amount == 0 && deposit_precheck(contest, side, accounts, contest_index, amount) is None
        && deposit_vault_check(contest, side, accounts) is None {
        lemma_empty_deposit_is_worthless(contest, side, accounts);
    }
}

proof fn lemma_empty_deposit_is_worthless(contest: Contest, side: Side, accounts: DepositAccounts)
    requires
        deposit_quote(contest, side, accounts, 0) is Some,
    ensures
        deposit_quote(contest, side, accounts, 0) == Some((0u64, 0u64)),
{
    let total = contest.side_amount(side) as int;
    let cost = pool_buy_cost(
        accounts.base_vault.amount as int,
        accounts.quote_vault.amount as int,
        total,
    ) as u64;
    assert(0 * cost == 0);
    assert(0int / total == 0);
    let num = contest.side_sol_amount(side.opposite()) + LAMPORTS_PER_SOL;
    let den = contest.side_sol_amount(side) + LAMPORTS_PER_SOL;
    assert(0 * num == 0);
    assert(0int / den == 0);
}

/// The winner that `set_winner` picks is always one of the contest's two
/// mints, so every claim of a set contest pays out on some side.
pub proof fn lemma_winner_is_a_contestant(contest: Contest, now: i64, alice_pool: Pool, bob_pool: Pool)
    ensures
        chosen_winner(contest, now, alice_pool, bob_pool)@ == contest.alice_coin@ || chosen_winner(
            contest,
            now,
            alice_pool,
            bob_pool,
        )@ == contest.bob_coin@,
{
}

/// The bets of the records `infos`, in order.
pub open spec fn bets_of(infos: Seq<ContestInfo>) -> Seq<int> {
    infos.map_values(|info: ContestInfo| info.bet as int)
}

proof fn lemma_bets_of_sum(infos: Seq<ContestInfo>)
    ensures
        sum_of(bets_of(infos)) == ledger_bets(infos),
        forall|i: int| 0 <= i < bets_of(infos).len() ==> 0 <= #[trigger] bets_of(infos)[i],
    decreases infos.len(),
{
    if infos.len() > 0 {
        lemma_bets_of_sum(infos.drop_last());
        assert(bets_of(infos).drop_last() =~= bets_of(infos.drop_last()));
    }
}

proof fn lemma_amounts_remove(infos: Seq<ContestInfo>, i: int)
    requires
        0 <= i < infos.len(),
    ensures
        ledger_amounts(infos) == ledger_amounts(infos.remove(i)) + infos[i].amount,
        ledger_amounts(infos.remove(i)) >= 0,
    decreases infos.len(),
{
    lemma_amounts_nonnegative(infos.remove(i));
    if i == infos.len() - 1 {
        assert(infos.remove(i) =~= infos.drop_last());
    } else {
        lemma_amounts_remove(infos.drop_last(), i);
        assert(infos.remove(i).drop_last() =~= infos.drop_last().remove(i));
    }
}

proof fn lemma_amounts_nonnegative(infos: Seq<ContestInfo>)
    ensures
        ledger_amounts(infos) >= 0,
    decreases infos.len(),
{
    if infos.len() > 0 {
        lemma_amounts_nonnegative(infos.drop_last());
    }
}

proof fn lemma_reward_nonnegative(pool: int, fee: int, bet: int, total_bet: int)
    requires
        0 <= fee <= 100,
        0 <= pool,
        0 <= bet,
        0 < total_bet,
    ensures
        0 <= prize_pool(pool, fee) <= pool,
        0 <= claim_reward(pool, fee, bet, total_bet),
{
    let p = prize_pool(pool, fee);
    assert(0 <= p <= pool) by (nonlinear_arith)
        requires
            p == pool * (100 - fee) / 100,
            0 <= pool,
            0 <= fee <= 100,
    ;
    assert(0 <= p * bet / total_bet) by (nonlinear_arith)
        requires
            0 <= p,
            0 <= bet,
            0 < total_bet,
    ;
}

proof fn lemma_rewards_nonnegative(pool: int, fee: int, bets: Seq<int>, total_bet: int)
    requires
        0 <= fee <= 100,
        0 <= pool,
        0 < total_bet,
        forall|i: int| 0 <= i < bets.len() ==> 0 <= #[trigger] bets[i],
    ensures
        sum_of_rewards(pool, fee, bets, total_bet) >= 0,
    decreases bets.len(),
{
    if bets.len() > 0 {
        lemma_rewards_nonnegative(pool, fee, bets.drop_last(), total_bet);
        lemma_reward_nonnegative(pool, fee, bets.last(), total_bet);
    }
}

proof fn lemma_rewards_remove(pool: int, fee: int, bets: Seq<int>, total_bet: int, i: int)
    requires
        0 <= i < bets.len(),
    ensures
        sum_of_rewards(pool, fee, bets, total_bet) == sum_of_rewards(
            pool,
            fee,
            bets.remove(i),
            total_bet,
        ) + claim_reward(pool, fee, bets[i], total_bet),
    decreases bets.len(),
{
    if i == bets.len() - 1 {
        assert(bets.remove(i) =~= bets.drop_last());
    } else {
        lemma_rewards_remove(pool, fee, bets.drop_last(), total_bet, i);
        assert(bets.remove(i).drop_last() =~= bets.drop_last().remove(i));
    }
}

/// What is left of a contest whose winning `side` still owes the claims of
/// the records `unclaimed` covers them: the side's remainder is at least
/// their deposits, and the losing side's remainder is at least their rewards
/// plus the losing side's fee share.
pub open spec fn claims_covered(contest: Contest, side: Side, unclaimed: Seq<ContestInfo>) -> bool {
    let opposite = side.opposite();
    let pool = contest.side_amount(opposite) as int;
    let fee = contest.fee as int;
    &&& contest.set
    &&& contest.winner@ == contest.coin(side)@
    &&& contest.coin(side)@ != contest.coin(opposite)@
    &&& contest.fee <= PERCENT
    &&& contest.total_bet(side) > 0
    &&& contest.remain_amount(side) >= ledger_amounts(unclaimed)
    &&& contest.remain_amount(opposite) >= sum_of_rewards(
        pool,
        fee,
        bets_of(unclaimed),
        contest.total_bet(side) as int,
    ) + (pool - prize_pool(pool, fee))
}

/// When the winner is set, what is left of the contest covers the claims of
/// all the winning side's records, as long as the side's total bet and
/// deposited amount are the sums over those records.
pub proof fn lemma_set_winner_covers_claims(
    contest: Contest,
    now: i64,
    alice_pool: Pool,
    bob_pool: Pool,
    side: Side,
    winners: Seq<ContestInfo>,
)
    requires
        chosen_winner(contest, now, alice_pool, bob_pool)@ == contest.coin(side)@,
        contest.coin(side)@ != contest.coin(side.opposite())@,
        ledger_bets(winners) == contest.total_bet(side),
        ledger_amounts(winners) == contest.side_amount(side),
        contest.total_bet(side) > 0,
        contest.fee <= PERCENT,
    ensures
        claims_covered(ended_contest(contest, now, alice_pool, bob_pool), side, winners),
{
    let pool = contest.side_amount(side.opposite()) as int;
    let fee = contest.fee as int;
    lemma_bets_of_sum(winners);
    lemma_rewards_within_prize_pool(pool, fee, bets_of(winners), contest.total_bet(side) as int);
}

/// A claim by one of the records the remainders cover never aborts for lack
/// of a remainder, and afterwards the remainders cover the other records;
/// the losing side's remainder never drops below its fee share. So any
/// sequence of claims by distinct winning records goes through, as long as
/// each claim's amounts fit 64 bits.
pub proof fn lemma_claim_keeps_cover(contest: Contest, side: Side, unclaimed: Seq<ContestInfo>, i: int)
    requires
        claims_covered(contest, side, unclaimed),
        0 <= i < unclaimed.len(),
        claim_check(contest, unclaimed[i]) is None,
        fee_value(unclaimed[i].amount, contest.fee) is Some,
        refund_value(unclaimed[i].amount, contest.fee) is Some,
        reward_value(
            contest.side_amount(side.opposite()),
            contest.fee,
            unclaimed[i].bet,
            contest.total_bet(side),
        ) is Some,
    ensures
        !winner_claim_aborts(contest, unclaimed[i]),
        claims_covered(claim_payouts(contest, unclaimed[i]).unwrap().0, side, unclaimed.remove(i)),
        claim_payouts(contest, unclaimed[i]).unwrap().0.remain_amount(side.opposite())
            >= contest.side_amount(side.opposite()) - prize_pool(
            contest.side_amount(side.opposite()) as int,
            contest.fee as int,
        ),
{
    let info = unclaimed[i];
    let opposite = side.opposite();
    let pool = contest.side_amount(opposite) as int;
    let fee = contest.fee as int;
    let total = contest.total_bet(side) as int;
    lemma_amounts_remove(unclaimed, i);
    lemma_bets_of_sum(unclaimed);
    lemma_bets_of_sum(unclaimed.remove(i));
    assert(bets_of(unclaimed.remove(i)) =~= bets_of(unclaimed).remove(i));
    assert(bets_of(unclaimed)[i] == info.bet as int);
    lemma_rewards_remove(pool, fee, bets_of(unclaimed), total, i);
    lemma_rewards_nonnegative(pool, fee, bets_of(unclaimed.remove(i)), total);
    lemma_reward_nonnegative(pool, fee, info.bet as int, total);
}

/// After any claims the remainders still cover, the transfer of the losing
/// side's remainder that `withdraw_token` makes gives the platform at least
/// its fee share of the losing side's deposits.
pub proof fn lemma_withdraw_pays_the_fee_share(contest: Contest, side: Side, unclaimed: Seq<
    ContestInfo,
>)
    requires
        claims_covered(contest, side, unclaimed),
    ensures
        withdraw_payout(contest, side.opposite()).to == TokenAccountRole::FeeAccount(side.opposite()),
        withdraw_payout(contest, side.opposite()).amount >= claim_fee(
            contest.side_amount(side.opposite()) as int,
            contest.fee as int,
        ),
{
    let opposite = side.opposite();
    let pool = contest.side_amount(opposite) as int;
    let fee = contest.fee as int;
    lemma_bets_of_sum(unclaimed);
    lemma_rewards_nonnegative(pool, fee, bets_of(unclaimed), contest.total_bet(side) as int);
    lemma_claim_split_within_deposit(contest.side_amount(opposite), contest.fee);
}

/// The contest after the records `claimants` claim one after the other.
pub open spec fn claims_in_order(contest: Contest, claimants: Seq<ContestInfo>) -> Contest
    decreases claimants.len(),
{
    if claimants.len() == 0 {
        contest
    } else {
        claim_payouts(claims_in_order(contest, claimants.drop_last()), claimants.last()).unwrap().0
    }
}

/// What a claim on the winning `side` pays, in terms of the contest and the
/// record: the fee `amount * fee / 100` to the side's fee account, the rest
/// `amount * (100 - fee) / 100` back to the claimant, and out of the losing
/// side's vault the claimant's bet share of the losing deposits less the fee,
/// `losing * (100 - fee) / 100 * bet / total_bet`. The side's remainder
/// drops by the deposit and the losing remainder by exactly the reward paid.
pub proof fn lemma_claim_pays_the_bet_share(contest: Contest, info: ContestInfo, side: Side)
    requires
        contest.winner@ == contest.coin(side)@,
        contest.coin(side)@ != contest.coin(side.opposite())@,
        claim_check(contest, info) is None,
        !winner_claim_aborts(contest, info),
    ensures
        ({
            let (after, paid) = claim_payouts(contest, info).unwrap();
            let opposite = side.opposite();
            let fee = contest.fee as int;
            let reward = contest.side_amount(opposite) as int * (100 - fee) / 100 * info.bet as int
                / contest.total_bet(side) as int;
            &&& paid.len() == 3
            &&& paid[0].from == TokenAccountRole::Vault(side)
            &&& paid[0].to == TokenAccountRole::FeeAccount(side)
            &&& paid[0].amount == info.amount as int * fee / 100
            &&& paid[1].from == TokenAccountRole::Vault(side)
            &&& paid[1].to == TokenAccountRole::Holder(side)
            &&& paid[1].amount == info.amount as int * (100 - fee) / 100
            &&& paid[2].from == TokenAccountRole::Vault(opposite)
            &&& paid[2].to == TokenAccountRole::Holder(opposite)
            &&& paid[2].amount == reward
            &&& contest.remain_amount(opposite) - after.remain_amount(opposite) == reward
            &&& contest.remain_amount(side) - after.remain_amount(side) == info.amount
            &&& after.remain_amount(side) >= 0
        }),
{
    let opposite = side.opposite();
    let fee = contest.fee as int;
    assert(0 <= fee <= 100 && contest.total_bet(side) > 0) by {
        if side == Side::Alice {
            assert(claim_payout(contest, info, Side::Alice) is Some);
        } else {
            assert(claim_payout(contest, info, Side::Bob) is Some);
        }
    }
    lemma_reward_nonnegative(
        contest.side_amount(opposite) as int,
        fee,
        info.bet as int,
        contest.total_bet(side) as int,
    );
    assert(0 <= info.amount as int * fee) by (nonlinear_arith)
        requires
            0 <= fee,
    ;
    assert(0 <= info.amount as int * (100 - fee)) by (nonlinear_arith)
        requires
            fee <= 100,
    ;
}

/// The reward transfers of the records `claimants`, claiming one after the
/// other, summed.
pub open spec fn rewards_transferred(contest: Contest, claimants: Seq<ContestInfo>) -> int
    decreases claimants.len(),
{
    if claimants.len() == 0 {
        0
    } else {
        rewards_transferred(contest, claimants.drop_last()) + claim_payouts(
            claims_in_order(contest, claimants.drop_last()),
            claimants.last(),
        ).unwrap().1[2].amount
    }
}

/// Whether `info` is an unclaimed record of the winning `side` of `contest`
/// whose claim amounts fit 64 bits.
pub open spec fn claimable(contest: Contest, side: Side, info: ContestInfo) -> bool {
    &&& !info.claim
    &&& info.token@ == contest.coin(side)@
    &&& info.contest_id == contest.id
    &&& fee_value(info.amount, contest.fee) is Some
    &&& refund_value(info.amount, contest.fee) is Some
    &&& reward_value(
        contest.side_amount(side.opposite()),
        contest.fee,
        info.bet,
        contest.total_bet(side),
    ) is Some
}

proof fn lemma_claims_in_order(contest: Contest, side: Side, winners: Seq<ContestInfo>, k: int)
    requires
        claims_covered(contest, side, winners),
        forall|j: int| 0 <= j < winners.len() ==> claimable(contest, side, #[trigger] winners[j]),
        0 <= k <= winners.len(),
    ensures
        ({
            let after = claims_in_order(contest, winners.take(k));
            let opposite = side.opposite();
            &&& forall|j: int|
                0 <= j < k ==> {
                    let before = claims_in_order(contest, winners.take(j));
                    &&& claim_check(before, #[trigger] winners[j]) is None
                    &&& !winner_claim_aborts(before, winners[j])
                }
            &&& claims_covered(after, side, winners.skip(k))
            &&& after == (Contest {
                alice_remain_amount: after.alice_remain_amount,
                bob_remain_amount: after.bob_remain_amount,
                ..contest
            })
            &&& after.remain_amount(side) == contest.remain_amount(side) - ledger_amounts(
                winners.take(k),
            )
            &&& after.remain_amount(opposite) == contest.remain_amount(opposite) - sum_of_rewards(
                contest.side_amount(opposite) as int,
                contest.fee as int,
                bets_of(winners.take(k)),
                contest.total_bet(side) as int,
            )
            &&& rewards_transferred(contest, winners.take(k)) == sum_of_rewards(
                contest.side_amount(opposite) as int,
                contest.fee as int,
                bets_of(winners.take(k)),
                contest.total_bet(side) as int,
            )
        }),
    decreases k,
{
    let opposite = side.opposite();
    if k == 0 {
        assert(winners.take(0) =~= Seq::<ContestInfo>::empty());
        assert(bets_of(winners.take(0)) =~= Seq::<int>::empty());
        assert(winners.skip(0) =~= winners);
    } else {
        lemma_claims_in_order(contest, side, winners, k - 1);
        let before = claims_in_order(contest, winners.take(k - 1));
        let rest = winners.skip(k - 1);
        let info = winners[k - 1];
        assert(rest[0] == info);
        assert(claimable(contest, side, info));
        lemma_claim_keeps_cover(before, side, rest, 0);
        lemma_claim_pays_the_bet_share(before, info, side);
        assert(rest.remove(0) =~= winners.skip(k));
        assert(winners.take(k).drop_last() =~= winners.take(k - 1));
        assert(winners.take(k).last() == info);
        assert(bets_of(winners.take(k)).drop_last() =~= bets_of(winners.take(k - 1)));
        assert(bets_of(winners.take(k)).last() == info.bet as int);
        assert forall|j: int| 0 <= j < k implies {
            let earlier = claims_in_order(contest, winners.take(j));
            &&& claim_check(earlier, #[trigger] winners[j]) is None
            &&& !winner_claim_aborts(earlier, winners[j])
        } by {
            if j == k - 1 {
                assert(winners.take(j) =~= winners.take(k - 1));
            }
        }
    }
}

/// Claims by the winning side's records, one after the other, all go
/// through: after the winner is set, whatever order the winning records
/// claim in, no claim is refused or aborts, the reward transfers, summed,
/// equal what the losing side's remainder lost and never exceed the losing
/// side's deposits less the fee, and the losing side's
/// remainder, which `withdraw_token` then sends to the fee account, is at
/// least the platform's fee share of the losing side's deposits. This holds
/// as long as the winning side's total bet and deposited amount are the
/// sums over its records, the two mints differ, and each claim's amounts fit
/// 64 bits.
pub proof fn lemma_claims_then_withdraw(
    contest: Contest,
    now: i64,
    alice_pool: Pool,
    bob_pool: Pool,
    side: Side,
    winners: Seq<ContestInfo>,
    k: int,
)
    requires
        chosen_winner(contest, now, alice_pool, bob_pool)@ == contest.coin(side)@,
        contest.coin(side)@ != contest.coin(side.opposite())@,
        ledger_bets(winners) == contest.total_bet(side),
        ledger_amounts(winners) == contest.side_amount(side),
        contest.total_bet(side) > 0,
        contest.fee <= PERCENT,
        forall|j: int| 0 <= j < winners.len() ==> claimable(contest, side, #[trigger] winners[j]),
        0 <= k <= winners.len(),
    ensures
        ({
            let ended = ended_contest(contest, now, alice_pool, bob_pool);
            let after = claims_in_order(ended, winners.take(k));
            let opposite = side.opposite();
            let pool = contest.side_amount(opposite) as int;
            let fee = contest.fee as int;
            let rewards = sum_of_rewards(
                pool,
                fee,
                bets_of(winners.take(k)),
                contest.total_bet(side) as int,
            );
            &&& forall|j: int|
                0 <= j < k ==> {
                    let before = claims_in_order(ended, winners.take(j));
                    &&& claim_check(before, #[trigger] winners[j]) is None
                    &&& !winner_claim_aborts(before, winners[j])
                }
            &&& after.remain_amount(opposite) == pool - rewards
            &&& rewards <= prize_pool(pool, fee)
            &&& after.remain_amount(side) == contest.side_amount(side) - ledger_amounts(winners.take(k))
            &&& withdraw_payout(after, opposite).amount >= claim_fee(pool, fee)
            &&& rewards_transferred(ended, winners.take(k)) == rewards
        }),
{
    let ended = ended_contest(contest, now, alice_pool, bob_pool);
    lemma_set_winner_covers_claims(contest, now, alice_pool, bob_pool, side, winners);
    assert forall|j: int| 0 <= j < winners.len() implies claimable(ended, side, #[trigger] winners[j]) by {
        assert(claimable(contest, side, winners[j]));
    }
    lemma_claims_in_order(ended, side, winners, k);
    let after = claims_in_order(ended, winners.take(k));
    let opposite = side.opposite();
    lemma_bets_of_sum(winners.skip(k));
    lemma_rewards_nonnegative(
        contest.side_amount(opposite) as int,
        contest.fee as int,
        bets_of(winners.skip(k)),
        contest.total_bet(side) as int,
    );
    lemma_withdraw_pays_the_fee_share(after, side, winners.skip(k));
}

/// The deposit cap is on the single deposit, not on what the side has
/// collected: a deposit with the contest's index, in time and of the side's
/// mint is refused with `MaxAmount` exactly when its own amount is above the
/// side's maximum single deposit. Below the cap it moves its tokens into the
/// side's vault, and with the contest's pools it goes through and adds its
/// amount to the side's total, whatever the side held before.
pub proof fn lemma_deposit_cap_is_per_deposit(
    contest: Contest,
    info: ContestInfo,
    side: Side,
    accounts: DepositAccounts,
    contest_index: u16,
    amount: u64,
    new_contest: Contest,
    new_info: ContestInfo,
    outcome: Outcome,
)
    requires
        !deposit_aborts(contest, info, side, accounts, contest_index, amount),
        deposit_done(
            contest,
            info,
            side,
            accounts,
            contest_index,
            amount,
            new_contest,
            new_info,
            outcome,
        ),
    ensures
        outcome.status == Err::<(), ContestError>(ContestError::MaxAmount) <==> (contest.id
            == contest_index && accounts.now <= contest.start_time + contest.contest_time
            && accounts.token_mint.key@ == contest.coin(side)@ && contest.max_amount(side)
            < amount),
        contest.id == contest_index && accounts.now <= contest.start_time + contest.contest_time
            && accounts.token_mint.key@ == contest.coin(side)@ && amount <= contest.max_amount(
            side,
        ) ==> outcome.transfers@ == seq![
            TokenTransfer {
                from: TokenAccountRole::Holder(side),
                to: TokenAccountRole::Vault(side),
                amount,
            },
        ],
        contest.id == contest_index && accounts.now <= contest.start_time + contest.contest_time
            && accounts.token_mint.key@ == contest.coin(side)@ && amount <= contest.max_amount(side)
            && accounts.base_vault.key@ == contest.base_vault(side)@ && accounts.quote_vault.key@
            == contest.quote_vault(side)@ ==> outcome.status is Ok && new_contest.side_amount(side)
            == contest.side_amount(side) + amount && new_contest.side_amount(side.opposite())
            == contest.side_amount(side.opposite()),
        outcome.status is Ok ==> ({
            let opposite = side.opposite();
            let total = contest.side_amount(side) + amount;
            let base = accounts.base_vault.amount as int;
            let quote = accounts.quote_vault.amount as int;
            let cost = ((base * quote) / (base - total) - quote) as u64;
            let sol = new_contest.side_sol_amount(side) - contest.side_sol_amount(side);
            let bet = new_contest.total_bet(side) - contest.total_bet(side);
            &&& sol == amount * cost / total
            &&& bet == sol * (contest.side_sol_amount(opposite) + LAMPORTS_PER_SOL) / (
            contest.side_sol_amount(side) + LAMPORTS_PER_SOL)
            &&& new_contest.side_sol_amount(opposite) == contest.side_sol_amount(opposite)
            &&& new_contest.total_bet(opposite) == contest.total_bet(opposite)
            &&& new_info.amount == (if info.amount == 0 {
                0
            } else {
                info.amount as int
            }) + amount
            &&& new_info.bet == (if info.amount == 0 {
                0
            } else {
                info.bet as int
            }) + bet
            &&& new_info.token@ == accounts.token_mint.key@ || info.amount != 0
        }),
{
}

/// The winner is the side whose deposited tokens are worth more at the
/// pools' prices: with the contest's pools, alice's mint wins when
/// `alice_amount * alice_quote / alice_base` is larger than
/// `bob_amount * bob_quote / bob_base`, and bob's when it is smaller.
pub proof fn lemma_winner_by_end_value(
    global_state: GlobalState,
    contest: Contest,
    signer: Pubkey,
    now: i64,
    contest_index: u16,
    alice_pool: Pool,
    bob_pool: Pool,
)
    requires
        set_winner_check(
            global_state,
            contest,
            signer,
            now,
            contest_index,
            alice_pool,
            bob_pool,
        ) is None,
    ensures
        ({
            let ended = ended_contest(contest, now, alice_pool, bob_pool);
            let alice_value = contest.alice_amount as int * alice_pool.quote.amount as int
                / alice_pool.base.amount as int;
            let bob_value = contest.bob_amount as int * bob_pool.quote.amount as int
                / bob_pool.base.amount as int;
            &&& alice_value > bob_value ==> ended.winner == contest.alice_coin
            &&& alice_value < bob_value ==> ended.winner == contest.bob_coin
            &&& ended.set
            &&& ended.alice_remain_amount == contest.alice_amount
            &&& ended.bob_remain_amount == contest.bob_amount
        }),
{
}

proof fn lemma_value_grows_with_amount(small: int, large: int, quote: int, base: int)
    requires
        0 <= small <= large,
        0 <= quote,
        0 < base,
    ensures
        small * quote / base <= large * quote / base,
        0 <= small * quote / base,
{
    assert(small * quote <= large * quote) by (nonlinear_arith)
        requires
            0 <= small <= large,
            0 <= quote,
    ;
    assert(0 <= small * quote) by (nonlinear_arith)
        requires
            0 <= small,
            0 <= quote,
    ;
    vstd::arithmetic::div_mod::lemma_div_is_ordered(small * quote, large * quote, base);
    vstd::arithmetic::div_mod::lemma_div_pos_is_pos(small * quote, base);
}

/// More deposits never turn a winner into a loser: at fixed pools, where
/// alice's mint wins without a tie, it still wins with any larger alice
/// amount; and a side with nothing deposited never beats a side whose
/// deposits are worth something.
pub proof fn lemma_more_deposits_never_lose(
    global_state: GlobalState,
    contest: Contest,
    signer: Pubkey,
    now: i64,
    contest_index: u16,
    alice_pool: Pool,
    bob_pool: Pool,
    larger: u64,
)
    requires
        set_winner_check(
            global_state,
            contest,
            signer,
            now,
            contest_index,
            alice_pool,
            bob_pool,
        ) is None,
    ensures
        ({
            let alice_value = contest.alice_amount as int * alice_pool.quote.amount as int
                / alice_pool.base.amount as int;
            let bob_value = contest.bob_amount as int * bob_pool.quote.amount as int
                / bob_pool.base.amount as int;
            let more = Contest { alice_amount: larger, ..contest };
            &&& alice_value > bob_value && larger >= contest.alice_amount ==> ended_contest(
                more,
                now,
                alice_pool,
                bob_pool,
            ).winner == contest.alice_coin
            &&& contest.alice_amount == 0 && bob_value > 0 ==> ended_contest(
                contest,
                now,
                alice_pool,
                bob_pool,
            ).winner == contest.bob_coin
            &&& contest.bob_amount == 0 && alice_value > 0 ==> ended_contest(
                contest,
                now,
                alice_pool,
                bob_pool,
            ).winner == contest.alice_coin
        }),
{
    if larger >= contest.alice_amount {
        lemma_value_grows_with_amount(
            contest.alice_amount as int,
            larger as int,
            alice_pool.quote.amount as int,
            alice_pool.base.amount as int,
        );
    }
    lemma_value_grows_with_amount(
        0,
        contest.alice_amount as int,
        alice_pool.quote.amount as int,
        alice_pool.base.amount as int,
    );
    lemma_value_grows_with_amount(
        0,
        contest.bob_amount as int,
        bob_pool.quote.amount as int,
        bob_pool.base.amount as int,
    );
    let more = Contest { alice_amount: larger, ..contest };
    assert(set_winner_check(global_state, more, signer, now, contest_index, alice_pool, bob_pool)
        is None);
}

/// A claim that went through cannot be made again: the claimed record is
/// refused with `AlreadyClaimed`, before anything is paid, as long as the
/// winner is one of the contest's two mints.
pub proof fn lemma_claim_only_once(contest: Contest, info: ContestInfo)
    requires
        contest.winner@ == contest.alice_coin@ || contest.winner@ == contest.bob_coin@,
        !winner_claim_aborts(contest, info),
        claim_check(contest, info) is None,
    ensures
        ({
            let after = claim_payouts(contest, info).unwrap().0;
            let claimed = ContestInfo { claim: true, ..info };
            &&& claim_check(after, claimed) == Some(ContestError::AlreadyClaimed)
            &&& !winner_claim_aborts(after, claimed)
        }),
{
}

/// Once the winner is set at a timestamp `set_at` that is not negative,
/// every later deposit is refused before any tokens move, and the contest
/// period counts as over.
pub proof fn lemma_no_deposit_after_winner(
    global_state: GlobalState,
    contest: Contest,
    signer: Pubkey,
    set_at: i64,
    contest_index: u16,
    alice_pool: Pool,
    bob_pool: Pool,
    info: ContestInfo,
    side: Side,
    accounts: DepositAccounts,
    deposit_index: u16,
    amount: u64,
)
    requires
        set_at >= 0,
        !set_winner_aborts(
            global_state,
            contest,
            signer,
            set_at,
            contest_index,
            alice_pool,
            bob_pool,
        ),
        set_winner_check(
            global_state,
            contest,
            signer,
            set_at,
            contest_index,
            alice_pool,
            bob_pool,
        ) is None,
        accounts.now > set_at,
    ensures
        ({
            let ended = ended_contest(contest, set_at, alice_pool, bob_pool);
            &&& !deposit_aborts(ended, info, side, accounts, deposit_index, amount)
            &&& deposit_precheck(ended, side, accounts, deposit_index, amount) is Some
            &&& ended.id == deposit_index ==> deposit_precheck(
                ended,
                side,
                accounts,
                deposit_index,
                amount,
            ) == Some(ContestError::OverTimeContest)
        }),
{
}

/// The global state and the accepted indices after `create_contest` is
/// called by `signer` with each of `indices` in turn.
pub open spec fn contests_created(global_state: GlobalState, signer: Pubkey, indices: Seq<u16>) -> (
    GlobalState,
    Seq<u16>,
)
    decreases indices.len(),
{
    if indices.len() == 0 {
        (global_state, Seq::empty())
    } else {
        let (before, accepted) = contests_created(global_state, signer, indices.drop_last());
        let index = indices.last();
        if create_contest_check(before, signer, index) is None {
            (GlobalState { contest_id: index, ..before }, accepted.push(index))
        } else {
            (before, accepted)
        }
    }
}

/// Contests are numbered 1, 2, 3, ... in the order they are created: from a
/// global state with no contest, as long as the accepted calls keep the counter below its
/// largest value, the indices that `create_contest` accepts
/// are exactly 1 to n in order, the counter then stands at n, the next call
/// by the owner is accepted for n + 1 only, and an index already used is
/// refused with `InvalidContestIndex`.
pub proof fn lemma_contest_numbering(global_state: GlobalState, signer: Pubkey, indices: Seq<u16>)
    requires
        global_state.contest_id == 0,
        contests_created(global_state, signer, indices).1.len() < u16::MAX,
    ensures
        ({
            let (after, accepted) = contests_created(global_state, signer, indices);
            &&& accepted.len() <= indices.len()
            &&& forall|j: int| 0 <= j < accepted.len() ==> accepted[j] == j + 1
            &&& after.contest_id == accepted.len()
            &&& after.owner == global_state.owner
            &&& after.fee == global_state.fee
            &&& after.finised_contest == global_state.finised_contest
            &&& !create_contest_aborts(after, signer)
            &&& forall|index: u16|
                create_contest_check(after, signer, index) is None <==> (signer@
                    == global_state.owner@ && index == accepted.len() + 1)
            &&& signer@ == global_state.owner@ ==> forall|j: int|
                0 <= j < accepted.len() ==> create_contest_check(after, signer, #[trigger] accepted[j])
                    == Some(ContestError::InvalidContestIndex)
        }),
    decreases indices.len(),
{
    if indices.len() > 0 {
        let (_, accepted) = contests_created(global_state, signer, indices.drop_last());
        assert(accepted.len() <= contests_created(global_state, signer, indices).1.len());
        lemma_contest_numbering(global_state, signer, indices.drop_last());
    }
}

} // verus!
