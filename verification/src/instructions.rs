//! The instructions of the contest program, as functions from the data of
//! its accounts to their new data and the token transfers to make.
//!
//! The program is built with overflow checks on: an arithmetic overflow, like
//! a failed conversion of a timestamp, aborts the transaction. Each `*_aborts`
//! predicate says exactly when an instruction aborts, each instruction
//! requires that it does not, and each `*_would_abort` function computes the
//! predicate for callers that must abort first.

use vstd::prelude::*;

use crate::errors::ContestError;
use crate::pricing::{
    bet_value, compute_bet, compute_deposit_value, compute_end_value, compute_fee, compute_refund,
    compute_reward, deposit_value, end_value, fee_value, refund_value, reward_value,
};
use crate::pubkey::Pubkey;
use crate::state::{Contest, ContestInfo, GlobalState, Side};

verus! {

/// A token account that an instruction moves tokens from or to.
#[derive(Clone, Copy, Debug, PartialEq, Eq, Structural)]
pub enum TokenAccountRole {
    /// The signing user's account for the side's token.
    Holder(Side),
    /// The program's vault for the side's token, signed for by the global state.
    Vault(Side),
    /// The contest's fee account for the side's token.
    FeeAccount(Side),
}

/// A token transfer that an instruction makes.
#[derive(Clone, Copy, Debug, PartialEq, Eq, Structural)]
pub struct TokenTransfer {
    pub from: TokenAccountRole,
    pub to: TokenAccountRole,
    pub amount: u64,
}

/// What an instruction that moves tokens does: the transfers, in order, and
/// then its status. Where the status is an error, the instruction fails and
/// none of its changes stay; where a transfer fails, the instruction fails
/// with that transfer's error.
#[derive(Debug)]
pub struct Outcome {
    pub transfers: Vec<TokenTransfer>,
    pub status: Result<(), ContestError>,
}

/// A token mint as an instruction reads it.
#[derive(Clone, Copy, Debug)]
pub struct MintInfo {
    pub key: Pubkey,
    pub decimals: u8,
}

/// A pool vault (a token account) as a deposit reads it.
#[derive(Clone, Copy, Debug)]
pub struct PoolVault {
    pub key: Pubkey,
    pub amount: u64,
}

/// Creates the global state, owned by `admin`, with no contest yet.
pub fn initialize(admin: Pubkey, fee: u64) -> (g: GlobalState)
    ensures
        g == (GlobalState { owner: admin, fee, contest_id: 0, finised_contest: 0 }),
{
    GlobalState { owner: admin, fee, contest_id: 0, finised_contest: 0 }
}

/// Sets the platform fee; only the owner may.
pub fn update_fee(global_state: &mut GlobalState, signer: Pubkey, fee: u64) -> (r: Result<
    (),
    ContestError,
>)
    ensures
        signer@ != old(global_state).owner@ ==> r == Err::<(), ContestError>(
            ContestError::NotAllowedOwner,
        ) && *final(global_state) == *old(global_state),
        signer@ == old(global_state).owner@ ==> r is Ok && *final(global_state) == (GlobalState {
            fee,
            ..*old(global_state)
        }),
{
    if global_state.owner != signer {
        return Err(ContestError::NotAllowedOwner);
    }
    global_state.fee = fee;
    Ok(())
}

/// Hands the platform to `new_owner`; only the owner may.
pub fn update_owner(global_state: &mut GlobalState, signer: Pubkey, new_owner: Pubkey) -> (r:
    Result<(), ContestError>)
    ensures
        signer@ != old(global_state).owner@ ==> r == Err::<(), ContestError>(
            ContestError::NotAllowedOwner,
        ) && *final(global_state) == *old(global_state),
        signer@ == old(global_state).owner@ ==> r is Ok && *final(global_state) == (GlobalState {
            owner: new_owner,
            ..*old(global_state)
        }),
{
    if global_state.owner != signer {
        return Err(ContestError::NotAllowedOwner);
    }
    global_state.owner = new_owner;
    Ok(())
}

/// The error `create_contest` meets, if any.
pub open spec fn create_contest_check(global_state: GlobalState, signer: Pubkey, contest_index: u16) -> Option<
    ContestError,
> {
    if signer@ != global_state.owner@ {
        Some(ContestError::NotAllowedOwner)
    } else if global_state.contest_id + 1 != contest_index {
        Some(ContestError::InvalidContestIndex)
    } else {
        None
    }
}

/// Opens contest `contest_index`, the one after the last, for the two mints;
/// only the owner may. The contest starts at `now` and takes the platform fee.
pub fn create_contest(
    global_state: &mut GlobalState,
    signer: Pubkey,
    now: i64,
    token_mint_alice: MintInfo,
    token_mint_bob: MintInfo,
    contest_index: u16,
    contest_time: u64,
    wait_time: u64,
    max_alice_amount: u64,
    max_bob_amount: u64,
    alice_name: String,
    bob_name: String,
    alice_image: String,
    bob_image: String,
    alice_fee_account: Pubkey,
    bob_fee_account: Pubkey,
    base_alice_vault: Pubkey,
    quote_alice_sol_vault: Pubkey,
    base_bob_vault: Pubkey,
    quote_bob_sol_vault: Pubkey,
) -> (r: Result<Contest, ContestError>)
    requires
        !create_contest_aborts(*old(global_state), signer),
    ensures
        create_contest_check(*old(global_state), signer, contest_index) matches Some(e) ==> r == Err::<
            Contest,
            ContestError,
        >(e) && *final(global_state) == *old(global_state),
        create_contest_check(*old(global_state), signer, contest_index) is None
            ==> *final(global_state) == (GlobalState {
            contest_id: contest_index,
            ..*old(global_state)
        }) && r == Ok::<Contest, ContestError>(
            Contest {
                id: contest_index,
                fee: old(global_state).fee,
                start_time: now as u64,
                contest_time,
                wait_time,
                max_alice_amount,
                max_bob_amount,
                alice_coin: token_mint_alice.key,
                bob_coin: token_mint_bob.key,
                alice_name,
                bob_name,
                alice_image,
                bob_image,
                winner: token_mint_alice.key,
                alice_amount: 0,
                alice_decimal: token_mint_alice.decimals,
                bob_amount: 0,
                bob_decimal: token_mint_bob.decimals,
                alice_remain_amount: 0,
                bob_remain_amount: 0,
                alice_sol_amount: 0,
                bob_sol_amount: 0,
                total_alice_bet: 0,
                total_bob_bet: 0,
                set: false,
                alice_fee_account,
                bob_fee_account,
                base_alice_vault,
                quote_alice_sol_vault,
                base_bob_vault,
                quote_bob_sol_vault,
            },
        ),
{
    if global_state.owner != signer {
        return Err(ContestError::NotAllowedOwner);
    }
    if global_state.contest_id + 1 != contest_index {
        return Err(ContestError::InvalidContestIndex);
    }
    let start_time = now as u64;
    let contest = Contest {
        id: contest_index,
        fee: global_state.fee,
        start_time,
        contest_time,
        wait_time,
        max_alice_amount,
        max_bob_amount,
        alice_coin: token_mint_alice.key,
        bob_coin: token_mint_bob.key,
        alice_name,
        bob_name,
        alice_image,
        bob_image,
        winner: token_mint_alice.key,
        alice_amount: 0,
        alice_decimal: token_mint_alice.decimals,
        bob_amount: 0,
        bob_decimal: token_mint_bob.decimals,
        alice_remain_amount: 0,
        bob_remain_amount: 0,
        alice_sol_amount: 0,
        bob_sol_amount: 0,
        total_alice_bet: 0,
        total_bob_bet: 0,
        set: false,
        alice_fee_account,
        bob_fee_account,
        base_alice_vault,
        quote_alice_sol_vault,
        base_bob_vault,
        quote_bob_sol_vault,
    };
    global_state.contest_id = global_state.contest_id + 1;
    Ok(contest)
}

/// Whether `create_contest` aborts the transaction: the owner signs while the
/// contest index counter is at its largest value, so the next index overflows.
pub open spec fn create_contest_aborts(global_state: GlobalState, signer: Pubkey) -> bool {
    signer@ == global_state.owner@ && global_state.contest_id == u16::MAX
}

/// Computes `create_contest_aborts`.
pub fn create_contest_would_abort(global_state: &GlobalState, signer: Pubkey) -> (r: bool)
    ensures
        r == create_contest_aborts(*global_state, signer),
{
    global_state.owner == signer && global_state.contest_id == u16::MAX
}

/// What a deposit instruction reads from its accounts and the clock.
#[derive(Clone, Copy, Debug)]
pub struct DepositAccounts {
    /// The depositing signer.
    pub user: Pubkey,
    /// The mint of the deposited token.
    pub token_mint: MintInfo,
    /// The pool vault of the deposited token.
    pub base_vault: PoolVault,
    /// The pool vault of the SOL paired with it.
    pub quote_vault: PoolVault,
    /// The clock's unix timestamp.
    pub now: i64,
}

/// The error a deposit meets before any tokens move, if any.
pub open spec fn deposit_precheck(
    contest: Contest,
    side: Side,
    accounts: DepositAccounts,
    contest_index: u16,
    amount: u64,
) -> Option<ContestError> {
    if contest.id != contest_index {
        Some(ContestError::InvalidContestIndex)
    } else if accounts.now > contest.end_time() {
        Some(ContestError::OverTimeContest)
    } else if accounts.token_mint.key@ != contest.coin(side)@ {
        Some(ContestError::InvalidToken)
    } else if contest.max_amount(side) < amount {
        Some(ContestError::MaxAmount)
    } else {
        None
    }
}

/// The error a deposit meets after its tokens moved, if any: the pool vaults
/// are not the contest's.
pub open spec fn deposit_vault_check(contest: Contest, side: Side, accounts: DepositAccounts) -> Option<
    ContestError,
> {
    if accounts.base_vault.key@ != contest.base_vault(side)@ {
        Some(ContestError::InvalidToken)
    } else if accounts.quote_vault.key@ != contest.quote_vault(side)@ {
        Some(ContestError::InvalidToken)
    } else {
        None
    }
}

/// The value in lamports and the bet coefficient of a deposit, or `None`
/// where computing them fails.
pub open spec fn deposit_quote(contest: Contest, side: Side, accounts: DepositAccounts, amount: u64) -> Option<
    (u64, u64),
> {
    match deposit_value(
        accounts.base_vault.amount,
        accounts.quote_vault.amount,
        contest.side_amount(side),
        amount,
    ) {
        None => None,
        Some(sol) => match bet_value(
            sol,
            contest.side_sol_amount(side.opposite()),
            contest.side_sol_amount(side),
        ) {
            None => None,
            Some(bet) => Some((sol, bet)),
        },
    }
}

/// Whether the deposit's value, its bet and the new totals can be computed.
pub open spec fn deposit_fits(
    contest: Contest,
    info: ContestInfo,
    side: Side,
    accounts: DepositAccounts,
    amount: u64,
) -> bool {
    match deposit_quote(contest, side, accounts, amount) {
        None => false,
        Some((sol, bet)) => {
            &&& contest.total_bet(side) + bet <= u64::MAX
            &&& contest.side_sol_amount(side) + sol <= u64::MAX
            &&& info.amount != 0 ==> info.amount + amount <= u64::MAX && info.bet + bet <= u64::MAX
        },
    }
}

/// Whether a deposit aborts the transaction: the contest's end does not fit
/// a timestamp, or, once every check passed, computing the deposit fails.
pub open spec fn deposit_aborts(
    contest: Contest,
    info: ContestInfo,
    side: Side,
    accounts: DepositAccounts,
    contest_index: u16,
    amount: u64,
) -> bool {
    contest.id == contest_index && (contest.end_time() > i64::MAX || (deposit_precheck(
        contest,
        side,
        accounts,
        contest_index,
        amount,
    ) is None && deposit_vault_check(contest, side, accounts) is None && !deposit_fits(
        contest,
        info,
        side,
        accounts,
        amount,
    )))
}

/// The transfer of a deposit into the side's vault.
pub open spec fn deposit_transfer(side: Side, amount: u64) -> TokenTransfer {
    TokenTransfer { from: TokenAccountRole::Holder(side), to: TokenAccountRole::Vault(side), amount }
}

/// The contract of a deposit on `side`.
pub open spec fn deposit_done(
    old_contest: Contest,
    old_info: ContestInfo,
    side: Side,
    accounts: DepositAccounts,
    contest_index: u16,
    amount: u64,
    contest: Contest,
    info: ContestInfo,
    outcome: Outcome,
) -> bool {
    match deposit_precheck(old_contest, side, accounts, contest_index, amount) {
        Some(e) => {
            &&& outcome.status == Err::<(), ContestError>(e)
            &&& outcome.transfers@ == Seq::<TokenTransfer>::empty()
            &&& contest == old_contest
            &&& info == old_info
        },
        None => {
            &&& outcome.transfers@ == seq![deposit_transfer(side, amount)]
            &&& match deposit_vault_check(old_contest, side, accounts) {
                Some(e) => {
                    &&& outcome.status == Err::<(), ContestError>(e)
                    &&& contest == old_contest
                    &&& info == old_info
                },
                None => {
                    let (sol, bet) = deposit_quote(old_contest, side, accounts, amount).unwrap();
                    &&& outcome.status is Ok
                    &&& contest == old_contest.with_deposit(side, amount, sol, bet)
                    &&& info == old_info.with_deposit(
                        accounts.user,
                        contest_index,
                        accounts.token_mint.key,
                        accounts.token_mint.decimals,
                        amount,
                        bet,
                    )
                },
            }
        },
    }
}

fn deposit(
    contest: &mut Contest,
    contest_info: &mut ContestInfo,
    side: Side,
    accounts: &DepositAccounts,
    contest_index: u16,
    amount: u64,
) -> (outcome: Outcome)
    requires
        !deposit_aborts(*old(contest), *old(contest_info), side, *accounts, contest_index, amount),
    ensures
        deposit_done(
            *old(contest),
            *old(contest_info),
            side,
            *accounts,
            contest_index,
            amount,
            *final(contest),
            *final(contest_info),
            outcome,
        ),
{
    let mut transfers: Vec<TokenTransfer> = Vec::new();
    if contest.id != contest_index {
        return Outcome { transfers, status: Err(ContestError::InvalidContestIndex) };
    }
    let end = contest.start_time + contest.contest_time;
    let end_timestamp = end as i64;
    if accounts.now > end_timestamp {
        return Outcome { transfers, status: Err(ContestError::OverTimeContest) };
    }
    if accounts.token_mint.key != contest.coin_of(side) {
        return Outcome { transfers, status: Err(ContestError::InvalidToken) };
    }
    if contest.max_amount_of(side) < amount {
        return Outcome { transfers, status: Err(ContestError::MaxAmount) };
    }
    transfers.push(
        TokenTransfer { from: TokenAccountRole::Holder(side), to: TokenAccountRole::Vault(side), amount },
    );
    if accounts.base_vault.key != contest.base_vault_of(side) {
        return Outcome { transfers, status: Err(ContestError::InvalidToken) };
    }
    if accounts.quote_vault.key != contest.quote_vault_of(side) {
        return Outcome { transfers, status: Err(ContestError::InvalidToken) };
    }
    let sol = compute_deposit_value(
        accounts.base_vault.amount,
        accounts.quote_vault.amount,
        contest.side_amount_of(side),
        amount,
    ).unwrap();
    let bet = compute_bet(sol, contest.side_sol_amount_of(side.other()), contest.side_sol_amount_of(side)).unwrap();
    contest.record_deposit(side, amount, sol, bet);
    if contest_info.amount == 0 {
        *contest_info = ContestInfo {
            owner: accounts.user,
            contest_id: contest_index,
            token: accounts.token_mint.key,
            amount,
            decimal: accounts.token_mint.decimals,
            bet,
            claim: false,
        };
    } else {
        contest_info.amount = contest_info.amount + amount;
        contest_info.bet = contest_info.bet + bet;
    }
    Outcome { transfers, status: Ok(()) }
}

/// Deposits `amount` alice tokens into contest `contest_index`, valued
/// through the alice pool, and adds it to the depositor's record.
pub fn deposit_alice_token_contest(
    contest: &mut Contest,
    contest_info: &mut ContestInfo,
    accounts: &DepositAccounts,
    contest_index: u16,
    amount: u64,
) -> (outcome: Outcome)
    requires
        !deposit_aborts(*old(contest), *old(contest_info), Side::Alice, *accounts, contest_index, amount),
    ensures
        deposit_done(
            *old(contest),
            *old(contest_info),
            Side::Alice,
            *accounts,
            contest_index,
            amount,
            *final(contest),
            *final(contest_info),
            outcome,
        ),
{
    deposit(contest, contest_info, Side::Alice, accounts, contest_index, amount)
}

/// Deposits `amount` bob tokens into contest `contest_index`, valued
/// through the bob pool, and adds it to the depositor's record.
pub fn deposit_bob_token_contest(
    contest: &mut Contest,
    contest_info: &mut ContestInfo,
    accounts: &DepositAccounts,
    contest_index: u16,
    amount: u64,
) -> (outcome: Outcome)
    requires
        !deposit_aborts(*old(contest), *old(contest_info), Side::Bob, *accounts, contest_index, amount),
    ensures
        deposit_done(
            *old(contest),
            *old(contest_info),
            Side::Bob,
            *accounts,
            contest_index,
            amount,
            *final(contest),
            *final(contest_info),
            outcome,
        ),
{
    deposit(contest, contest_info, Side::Bob, accounts, contest_index, amount)
}

/// Computes `deposit_aborts`.
pub fn deposit_would_abort(
    contest: &Contest,
    contest_info: &ContestInfo,
    side: Side,
    accounts: &DepositAccounts,
    contest_index: u16,
    amount: u64,
) -> (r: bool)
    ensures
        r == deposit_aborts(*contest, *contest_info, side, *accounts, contest_index, amount),
{
    if contest.id != contest_index {
        return false;
    }
    let end = match contest.start_time.checked_add(contest.contest_time) {
        Some(e) => e,
        None => return true,
    };
    if end > i64::MAX as u64 {
        return true;
    }
    let end_timestamp = end as i64;
    if accounts.now > end_timestamp || accounts.token_mint.key != contest.coin_of(side)
        || contest.max_amount_of(side) < amount || accounts.base_vault.key != contest.base_vault_of(
        side,
    ) || accounts.quote_vault.key != contest.quote_vault_of(side) {
        return false;
    }
    let sol = match compute_deposit_value(
        accounts.base_vault.amount,
        accounts.quote_vault.amount,
        contest.side_amount_of(side),
        amount,
    ) {
        Some(v) => v,
        None => return true,
    };
    let bet = match compute_bet(
        sol,
        contest.side_sol_amount_of(side.other()),
        contest.side_sol_amount_of(side),
    ) {
        Some(b) => b,
        None => return true,
    };
    if contest.total_bet_of(side).checked_add(bet).is_none() {
        return true;
    }
    if contest.side_sol_amount_of(side).checked_add(sol).is_none() {
        return true;
    }
    if contest_info.amount != 0 {
        if contest_info.amount.checked_add(amount).is_none() || contest_info.bet.checked_add(
            bet,
        ).is_none() {
            return true;
        }
    }
    false
}

/// A constant-product pool as `set_winner` reads it: the vault of the
/// token and the vault of the SOL paired with it.
#[derive(Clone, Copy, Debug)]
pub struct Pool {
    pub base: PoolVault,
    pub quote: PoolVault,
}

/// The value in lamports of `side`'s deposits at the pool's current price.
pub open spec fn side_end_value(contest: Contest, side: Side, pool: Pool) -> int {
    end_value(contest.side_amount(side) as int, pool.base.amount as int, pool.quote.amount as int)
}

/// The error `set_winner` meets, if any.
pub open spec fn set_winner_check(
    global_state: GlobalState,
    contest: Contest,
    signer: Pubkey,
    now: i64,
    contest_index: u16,
    alice_pool: Pool,
    bob_pool: Pool,
) -> Option<ContestError> {
    if contest.end_time() > (now as u64) {
        Some(ContestError::NotFinished)
    } else if contest.set {
        Some(ContestError::AlreadySet)
    } else if signer@ != global_state.owner@ {
        Some(ContestError::NotAllowedOwner)
    } else if contest.id != contest_index {
        Some(ContestError::InvalidContestIndex)
    } else if alice_pool.base.key@ != contest.base_alice_vault@ || alice_pool.quote.key@
        != contest.quote_alice_sol_vault@ || bob_pool.base.key@ != contest.base_bob_vault@
        || bob_pool.quote.key@ != contest.quote_bob_sol_vault@ {
        Some(ContestError::InvalidToken)
    } else if alice_pool.base.amount == 0 || bob_pool.base.amount == 0 {
        Some(ContestError::InvalidPriceFeed)
    } else {
        None
    }
}

/// The winning mint: the side whose deposits are worth more lamports at the
/// pools' prices when the winner is set; on a tie, alice when the timestamp
/// is odd and bob when it is even.
pub open spec fn chosen_winner(contest: Contest, now: i64, alice_pool: Pool, bob_pool: Pool) -> Pubkey {
    let alice_value = side_end_value(contest, Side::Alice, alice_pool);
    let bob_value = side_end_value(contest, Side::Bob, bob_pool);
    if alice_value > bob_value {
        contest.alice_coin
    } else if alice_value < bob_value {
        contest.bob_coin
    } else if now % 2 == 0 {
        contest.bob_coin
    } else {
        contest.alice_coin
    }
}

/// The contest once its winner is set: the claims are open and what is left
/// to pay out of each side is what was deposited.
pub open spec fn ended_contest(contest: Contest, now: i64, alice_pool: Pool, bob_pool: Pool) -> Contest {
    Contest {
        winner: chosen_winner(contest, now, alice_pool, bob_pool),
        set: true,
        alice_remain_amount: contest.alice_amount,
        bob_remain_amount: contest.bob_amount,
        ..contest
    }
}

/// Whether `set_winner` aborts the transaction: the contest's end does not fit
/// 64 bits, or, once every check passed, the count of finished contests
/// overflows or a tie falls on an odd negative timestamp.
pub open spec fn set_winner_aborts(
    global_state: GlobalState,
    contest: Contest,
    signer: Pubkey,
    now: i64,
    contest_index: u16,
    alice_pool: Pool,
    bob_pool: Pool,
) -> bool {
    contest.end_time() > u64::MAX || (set_winner_check(
        global_state,
        contest,
        signer,
        now,
        contest_index,
        alice_pool,
        bob_pool,
    ) is None && (global_state.finised_contest == u16::MAX || (side_end_value(
        contest,
        Side::Alice,
        alice_pool,
    ) == side_end_value(contest, Side::Bob, bob_pool) && now < 0 && now % 2 == 1)))
}

/// Ends the contest: values both sides' deposits at the pools' current
/// prices, picks the side worth more as the winner and opens the claims,
/// keeping the deposited amounts as what is left to pay out; only the owner
/// may, once the contest period is over, with the contest's own pools.
pub fn set_winner(
    global_state: &mut GlobalState,
    contest: &mut Contest,
    signer: Pubkey,
    now: i64,
    contest_index: u16,
    alice_pool: Pool,
    bob_pool: Pool,
) -> (r: Result<(), ContestError>)
    requires
        !set_winner_aborts(
            *old(global_state),
            *old(contest),
            signer,
            now,
            contest_index,
            alice_pool,
            bob_pool,
        ),
    ensures
        match set_winner_check(
            *old(global_state),
            *old(contest),
            signer,
            now,
            contest_index,
            alice_pool,
            bob_pool,
        ) {
            Some(e) => {
                &&& r == Err::<(), ContestError>(e)
                &&& *final(global_state) == *old(global_state)
                &&& *final(contest) == *old(contest)
            },
            None => {
                &&& r is Ok
                &&& *final(contest) == ended_contest(*old(contest), now, alice_pool, bob_pool)
                &&& *final(global_state) == (GlobalState {
                    finised_contest: (old(global_state).finised_contest + 1) as u16,
                    ..*old(global_state)
                })
            },
        },
{
    let end = contest.start_time + contest.contest_time;
    if end > now as u64 {
        return Err(ContestError::NotFinished);
    }
    if contest.set == true {
        return Err(ContestError::AlreadySet);
    }
    if global_state.owner != signer {
        return Err(ContestError::NotAllowedOwner);
    }
    if contest.id != contest_index {
        return Err(ContestError::InvalidContestIndex);
    }
    if alice_pool.base.key != contest.base_alice_vault || alice_pool.quote.key
        != contest.quote_alice_sol_vault || bob_pool.base.key != contest.base_bob_vault
        || bob_pool.quote.key != contest.quote_bob_sol_vault {
        return Err(ContestError::InvalidToken);
    }
    let alice_value = match compute_end_value(
        contest.alice_amount,
        alice_pool.base.amount,
        alice_pool.quote.amount,
    ) {
        Some(v) => v,
        None => return Err(ContestError::InvalidPriceFeed),
    };
    let bob_value = match compute_end_value(
        contest.bob_amount,
        bob_pool.base.amount,
        bob_pool.quote.amount,
    ) {
        Some(v) => v,
        None => return Err(ContestError::InvalidPriceFeed),
    };
    if alice_value > bob_value {
        contest.winner = contest.alice_coin;
    } else if alice_value < bob_value {
        contest.winner = contest.bob_coin;
    } else {
        let case = now % 2;
        if case == 1 {
            contest.winner = contest.alice_coin;
        } else {
            contest.winner = contest.bob_coin;
        }
    }
    contest.set = true;
    contest.alice_remain_amount = contest.alice_amount;
    contest.bob_remain_amount = contest.bob_amount;
    global_state.finised_contest = global_state.finised_contest + 1;
    Ok(())
}

/// Computes `set_winner_aborts`.
pub fn set_winner_would_abort(
    global_state: &GlobalState,
    contest: &Contest,
    signer: Pubkey,
    now: i64,
    contest_index: u16,
    alice_pool: Pool,
    bob_pool: Pool,
) -> (r: bool)
    ensures
        r == set_winner_aborts(
            *global_state,
            *contest,
            signer,
            now,
            contest_index,
            alice_pool,
            bob_pool,
        ),
{
    let end = match contest.start_time.checked_add(contest.contest_time) {
        Some(e) => e,
        None => return true,
    };
    if end > now as u64 || contest.set || global_state.owner != signer || contest.id
        != contest_index {
        return false;
    }
    if alice_pool.base.key != contest.base_alice_vault || alice_pool.quote.key
        != contest.quote_alice_sol_vault || bob_pool.base.key != contest.base_bob_vault
        || bob_pool.quote.key != contest.quote_bob_sol_vault {
        return false;
    }
    let alice_value = compute_end_value(
        contest.alice_amount,
        alice_pool.base.amount,
        alice_pool.quote.amount,
    );
    let bob_value = compute_end_value(contest.bob_amount, bob_pool.base.amount, bob_pool.quote.amount);
    match (alice_value, bob_value) {
        (Some(a), Some(b)) => global_state.finised_contest == u16::MAX || (a == b && now < 0 && now % 2
            != 0),
        _ => false,
    }
}

/// The error a claim meets before any payout, if any.
pub open spec fn claim_check(contest: Contest, info: ContestInfo) -> Option<ContestError> {
    if !contest.set {
        Some(ContestError::DidntSetWinner)
    } else if contest.winner@ != info.token@ {
        Some(ContestError::NotWinner)
    } else if contest.id != info.contest_id {
        Some(ContestError::InvalidContestIndex)
    } else if info.claim && (contest.winner@ == contest.alice_coin@ || contest.winner@
        == contest.bob_coin@) {
        Some(ContestError::AlreadyClaimed)
    } else {
        None
    }
}

/// The payout of a claim on the winning `side`: the fee on the claimant's
/// deposit to the fee account, the rest of the deposit back to the claimant,
/// and the claimant's reward out of the losing side's vault; the deposit and
/// the reward come off the sides' remainders. `None` where computing it fails
/// or a remainder would go below zero.
pub open spec fn claim_payout(contest: Contest, info: ContestInfo, side: Side) -> Option<
    (Contest, Seq<TokenTransfer>),
> {
    let opposite = side.opposite();
    match (
        fee_value(info.amount, contest.fee),
        refund_value(info.amount, contest.fee),
        reward_value(contest.side_amount(opposite), contest.fee, info.bet, contest.total_bet(side)),
    ) {
        (Some(fee), Some(refund), Some(reward)) => {
            if contest.remain_amount(side) < info.amount || contest.remain_amount(opposite)
                < reward {
                None
            } else {
                Some(
                    (
                        contest.with_remain(
                            side,
                            (contest.remain_amount(side) - info.amount) as u64,
                        ).with_remain(opposite, (contest.remain_amount(opposite) - reward) as u64),
                        seq![
                            TokenTransfer {
                                from: TokenAccountRole::Vault(side),
                                to: TokenAccountRole::FeeAccount(side),
                                amount: fee,
                            },
                            TokenTransfer {
                                from: TokenAccountRole::Vault(side),
                                to: TokenAccountRole::Holder(side),
                                amount: refund,
                            },
                            TokenTransfer {
                                from: TokenAccountRole::Vault(opposite),
                                to: TokenAccountRole::Holder(opposite),
                                amount: reward,
                            },
                        ],
                    ),
                )
            }
        },
        _ => None,
    }
}

/// The payouts of a claim: alice's where alice's mint won, then bob's where
/// bob's mint won (both where the two mints are the same).
pub open spec fn claim_payouts(contest: Contest, info: ContestInfo) -> Option<
    (Contest, Seq<TokenTransfer>),
> {
    let first = if contest.winner@ == contest.alice_coin@ {
        claim_payout(contest, info, Side::Alice)
    } else {
        Some((contest, Seq::<TokenTransfer>::empty()))
    };
    match first {
        None => None,
        Some((after_first, paid_first)) => if contest.winner@ == contest.bob_coin@ {
            match claim_payout(after_first, info, Side::Bob) {
                None => None,
                Some((after_second, paid_second)) => Some((after_second, paid_first + paid_second)),
            }
        } else {
            Some((after_first, paid_first))
        },
    }
}

/// Whether `winner_claim` aborts the transaction: every check passed and
/// computing the payout fails.
pub open spec fn winner_claim_aborts(contest: Contest, info: ContestInfo) -> bool {
    claim_check(contest, info) is None && claim_payouts(contest, info) is None
}

fn pay_out(contest: &mut Contest, info: &ContestInfo, side: Side, transfers: &mut Vec<TokenTransfer>)
    requires
        claim_payout(*old(contest), *info, side) is Some,
    ensures
        *final(contest) == claim_payout(*old(contest), *info, side).unwrap().0,
        final(transfers)@ == old(transfers)@ + claim_payout(*old(contest), *info, side).unwrap().1,
{
    let opposite = side.other();
    let fee = compute_fee(info.amount, contest.fee).unwrap();
    transfers.push(
        TokenTransfer {
            from: TokenAccountRole::Vault(side),
            to: TokenAccountRole::FeeAccount(side),
            amount: fee,
        },
    );
    let refund = compute_refund(info.amount, contest.fee).unwrap();
    transfers.push(
        TokenTransfer {
            from: TokenAccountRole::Vault(side),
            to: TokenAccountRole::Holder(side),
            amount: refund,
        },
    );
    let remain = contest.remain_amount_of(side) - info.amount;
    contest.set_remain(side, remain);
    let reward = compute_reward(
        contest.side_amount_of(opposite),
        contest.fee,
        info.bet,
        contest.total_bet_of(side),
    ).unwrap();
    transfers.push(
        TokenTransfer {
            from: TokenAccountRole::Vault(opposite),
            to: TokenAccountRole::Holder(opposite),
            amount: reward,
        },
    );
    let remain_opposite = contest.remain_amount_of(opposite) - reward;
    contest.set_remain(opposite, remain_opposite);
}

/// Pays a winner: their deposit back less the fee, and their share of the
/// losing side's deposits less the fee in proportion to their bet; marks the
/// record as claimed.
pub fn winner_claim(contest: &mut Contest, contest_info: &mut ContestInfo) -> (outcome: Outcome)
    requires
        !winner_claim_aborts(*old(contest), *old(contest_info)),
    ensures
        match claim_check(*old(contest), *old(contest_info)) {
            Some(e) => {
                &&& outcome.status == Err::<(), ContestError>(e)
                &&& outcome.transfers@ == Seq::<TokenTransfer>::empty()
                &&& *final(contest) == *old(contest)
                &&& *final(contest_info) == *old(contest_info)
            },
            None => {
                let (after, paid) = claim_payouts(*old(contest), *old(contest_info)).unwrap();
                &&& outcome.status is Ok
                &&& outcome.transfers@ == paid
                &&& *final(contest) == after
                &&& *final(contest_info) == (ContestInfo { claim: true, ..*old(contest_info) })
            },
        },
{
    let mut transfers: Vec<TokenTransfer> = Vec::new();
    if contest.set != true {
        return Outcome { transfers, status: Err(ContestError::DidntSetWinner) };
    }
    if contest.winner != contest_info.token {
        return Outcome { transfers, status: Err(ContestError::NotWinner) };
    }
    if contest.id != contest_info.contest_id {
        return Outcome { transfers, status: Err(ContestError::InvalidContestIndex) };
    }
    if contest.winner == contest.alice_coin {
        if contest_info.claim == true {
            return Outcome { transfers, status: Err(ContestError::AlreadyClaimed) };
        }
        pay_out(contest, contest_info, Side::Alice, &mut transfers);
    }
    if contest.winner == contest.bob_coin {
        if contest_info.claim == true {
            return Outcome { transfers, status: Err(ContestError::AlreadyClaimed) };
        }
        pay_out(contest, contest_info, Side::Bob, &mut transfers);
    }
    contest_info.claim = true;
    Outcome { transfers, status: Ok(()) }
}

/// The remainders after a payout on `side`, starting from the remainders
/// `alice_remain` and `bob_remain`; `None` where the payout fails.
fn remains_after_payout(
    contest: &Contest,
    info: &ContestInfo,
    side: Side,
    alice_remain: u64,
    bob_remain: u64,
) -> (r: Option<(u64, u64)>)
    ensures
        ({
            let start = contest.with_remain(Side::Alice, alice_remain).with_remain(
                Side::Bob,
                bob_remain,
            );
            match claim_payout(start, *info, side) {
                None => r is None,
                Some((after, _)) => r == Some((after.alice_remain_amount, after.bob_remain_amount)),
            }
        }),
{
    let opposite = side.other();
    let fee = compute_fee(info.amount, contest.fee);
    let refund = compute_refund(info.amount, contest.fee);
    let reward = compute_reward(
        contest.side_amount_of(opposite),
        contest.fee,
        info.bet,
        contest.total_bet_of(side),
    );
    if fee.is_none() || refund.is_none() || reward.is_none() {
        return None;
    }
    let reward = reward.unwrap();
    match side {
        Side::Alice => {
            if alice_remain < info.amount || bob_remain < reward {
                None
            } else {
                Some((alice_remain - info.amount, bob_remain - reward))
            }
        },
        Side::Bob => {
            if bob_remain < info.amount || alice_remain < reward {
                None
            } else {
                Some((alice_remain - reward, bob_remain - info.amount))
            }
        },
    }
}

/// Computes `winner_claim_aborts`.
pub fn winner_claim_would_abort(contest: &Contest, contest_info: &ContestInfo) -> (r: bool)
    ensures
        r == winner_claim_aborts(*contest, *contest_info),
{
    if !contest.set || contest.winner != contest_info.token || contest.id
        != contest_info.contest_id {
        return false;
    }
    let alice_won = contest.winner == contest.alice_coin;
    let bob_won = contest.winner == contest.bob_coin;
    if contest_info.claim && (alice_won || bob_won) {
        return false;
    }
    let mut alice_remain = contest.alice_remain_amount;
    let mut bob_remain = contest.bob_remain_amount;
    proof {
        assert(contest.with_remain(Side::Alice, alice_remain).with_remain(Side::Bob, bob_remain)
            == *contest);
    }
    if alice_won {
        match remains_after_payout(contest, contest_info, Side::Alice, alice_remain, bob_remain) {
            None => return true,
            Some((a, b)) => {
                alice_remain = a;
                bob_remain = b;
            },
        }
    }
    if bob_won {
        if remains_after_payout(contest, contest_info, Side::Bob, alice_remain, bob_remain).is_none() {
            return true;
        }
    }
    false
}

/// The error `withdraw_token` meets, if any.
pub open spec fn withdraw_check(
    global_state: GlobalState,
    contest: Contest,
    signer: Pubkey,
    now: i64,
    contest_index: u16,
) -> Option<ContestError> {
    if contest.end_time() + contest.wait_time > now {
        Some(ContestError::NotWithdrawTime)
    } else if contest.id != contest_index {
        Some(ContestError::InvalidContestIndex)
    } else if signer@ != global_state.owner@ {
        Some(ContestError::NotAllowedOwner)
    } else {
        None
    }
}

/// The transfer of what is left of `side`'s deposits to its fee account.
pub open spec fn withdraw_payout(contest: Contest, side: Side) -> TokenTransfer {
    TokenTransfer {
        from: TokenAccountRole::Vault(side),
        to: TokenAccountRole::FeeAccount(side),
        amount: contest.remain_amount(side),
    }
}

/// The transfers of `withdraw_token`: alice's remainder, then bob's.
pub open spec fn withdraw_payouts(contest: Contest) -> Seq<TokenTransfer> {
    seq![withdraw_payout(contest, Side::Alice), withdraw_payout(contest, Side::Bob)]
}

/// Whether `withdraw_token` aborts the transaction: the end of the waiting
/// time does not fit 64 bits, or the timestamp is negative.
pub open spec fn withdraw_aborts(contest: Contest, now: i64) -> bool {
    contest.end_time() > u64::MAX || contest.end_time() + contest.wait_time > u64::MAX || now < 0
}

/// Sends what is left of both sides' deposits to the contest's fee accounts;
/// only the owner may, once the waiting time after the contest is over.
pub fn withdraw_token(
    global_state: &GlobalState,
    contest: &mut Contest,
    signer: Pubkey,
    now: i64,
    contest_index: u16,
) -> (outcome: Outcome)
    requires
        !withdraw_aborts(*old(contest), now),
    ensures
        match withdraw_check(*global_state, *old(contest), signer, now, contest_index) {
            Some(e) => {
                &&& outcome.status == Err::<(), ContestError>(e)
                &&& outcome.transfers@ == Seq::<TokenTransfer>::empty()
                &&& *final(contest) == *old(contest)
            },
            None => {
                &&& outcome.status is Ok
                &&& outcome.transfers@ == withdraw_payouts(*old(contest))
                &&& *final(contest) == (Contest {
                    alice_remain_amount: 0,
                    bob_remain_amount: 0,
                    ..*old(contest)
                })
            },
        },
{
    let mut transfers: Vec<TokenTransfer> = Vec::new();
    let end = contest.start_time + contest.contest_time + contest.wait_time;
    let now_seconds = now as u64;
    if end > now_seconds {
        return Outcome { transfers, status: Err(ContestError::NotWithdrawTime) };
    }
    if contest.id != contest_index {
        return Outcome { transfers, status: Err(ContestError::InvalidContestIndex) };
    }
    if global_state.owner != signer {
        return Outcome { transfers, status: Err(ContestError::NotAllowedOwner) };
    }
    transfers.push(
        TokenTransfer {
            from: TokenAccountRole::Vault(Side::Alice),
            to: TokenAccountRole::FeeAccount(Side::Alice),
            amount: contest.alice_remain_amount,
        },
    );
    contest.alice_remain_amount = 0;
    transfers.push(
        TokenTransfer {
            from: TokenAccountRole::Vault(Side::Bob),
            to: TokenAccountRole::FeeAccount(Side::Bob),
            amount: contest.bob_remain_amount,
        },
    );
    contest.bob_remain_amount = 0;
    Outcome { transfers, status: Ok(()) }
}

/// Computes `withdraw_aborts`.
pub fn withdraw_would_abort(contest: &Contest, now: i64) -> (r: bool)
    ensures
        r == withdraw_aborts(*contest, now),
{
    match contest.start_time.checked_add(contest.contest_time) {
        None => true,
        Some(end) => end.checked_add(contest.wait_time).is_none() || now < 0,
    }
}

} // verus!
