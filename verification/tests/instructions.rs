use contest_platform::instructions::{
    create_contest, create_contest_would_abort, deposit_alice_token_contest,
    deposit_bob_token_contest, deposit_would_abort, initialize, set_winner,
    set_winner_would_abort, update_fee, update_owner, winner_claim, winner_claim_would_abort,
    withdraw_token, withdraw_would_abort, DepositAccounts, MintInfo, Pool, PoolVault,
    TokenAccountRole, TokenTransfer,
};
use contest_platform::{Contest, ContestError, ContestInfo, GlobalState, Pubkey, Side};

fn key(b: u8) -> Pubkey {
    Pubkey { bytes: [b; 32] }
}

const OWNER: u8 = 1;
const STRANGER: u8 = 2;
const ALICE_MINT: u8 = 10;
const BOB_MINT: u8 = 11;
const ALICE_BASE: u8 = 20;
const ALICE_QUOTE: u8 = 21;
const BOB_BASE: u8 = 22;
const BOB_QUOTE: u8 = 23;
const USER: u8 = 30;

/// The alice pool when the winner is set: 1000 tokens against `quote` lamports.
fn alice_pool(quote: u64) -> Pool {
    Pool {
        base: PoolVault { key: key(ALICE_BASE), amount: 1000 },
        quote: PoolVault { key: key(ALICE_QUOTE), amount: quote },
    }
}

/// The bob pool when the winner is set: 1000 tokens against `quote` lamports.
fn bob_pool(quote: u64) -> Pool {
    Pool {
        base: PoolVault { key: key(BOB_BASE), amount: 1000 },
        quote: PoolVault { key: key(BOB_QUOTE), amount: quote },
    }
}

fn global() -> GlobalState {
    initialize(key(OWNER), 2)
}

fn new_contest(g: &mut GlobalState, now: i64) -> Contest {
    create_contest(
        g,
        key(OWNER),
        now,
        MintInfo { key: key(ALICE_MINT), decimals: 6 },
        MintInfo { key: key(BOB_MINT), decimals: 9 },
        1,
        100,
        50,
        1_000,
        2_000,
        "Alice".to_string(),
        "Bob".to_string(),
        "alice.png".to_string(),
        "bob.png".to_string(),
        key(40),
        key(41),
        key(ALICE_BASE),
        key(ALICE_QUOTE),
        key(BOB_BASE),
        key(BOB_QUOTE),
    )
    .unwrap()
}

fn empty_info() -> ContestInfo {
    ContestInfo {
        owner: key(0),
        contest_id: 0,
        token: key(0),
        amount: 0,
        decimal: 0,
        bet: 0,
        claim: false,
    }
}

fn alice_accounts(now: i64) -> DepositAccounts {
    DepositAccounts {
        user: key(USER),
        token_mint: MintInfo { key: key(ALICE_MINT), decimals: 6 },
        base_vault: PoolVault { key: key(ALICE_BASE), amount: 1000 },
        quote_vault: PoolVault { key: key(ALICE_QUOTE), amount: 500 },
        now,
    }
}

fn bob_accounts(now: i64) -> DepositAccounts {
    DepositAccounts {
        user: key(USER),
        token_mint: MintInfo { key: key(BOB_MINT), decimals: 9 },
        base_vault: PoolVault { key: key(BOB_BASE), amount: 4000 },
        quote_vault: PoolVault { key: key(BOB_QUOTE), amount: 100 },
        now,
    }
}

#[test]
fn initialize_sets_owner_and_fee() {
    let g = initialize(key(OWNER), 7);
    assert!(g.owner == key(OWNER));
    assert_eq!(g.fee, 7);
    assert_eq!(g.contest_id, 0);
    assert_eq!(g.finised_contest, 0);
}

#[test]
fn update_fee_only_by_owner() {
    let mut g = global();
    assert_eq!(update_fee(&mut g, key(STRANGER), 5), Err(ContestError::NotAllowedOwner));
    assert_eq!(g.fee, 2);
    assert_eq!(update_fee(&mut g, key(OWNER), 5), Ok(()));
    assert_eq!(g.fee, 5);
}

#[test]
fn update_owner_only_by_owner() {
    let mut g = global();
    assert_eq!(update_owner(&mut g, key(STRANGER), key(STRANGER)), Err(ContestError::NotAllowedOwner));
    assert!(g.owner == key(OWNER));
    assert_eq!(update_owner(&mut g, key(OWNER), key(STRANGER)), Ok(()));
    assert!(g.owner == key(STRANGER));
    assert_eq!(update_fee(&mut g, key(OWNER), 9), Err(ContestError::NotAllowedOwner));
}

#[test]
fn create_contest_fills_the_contest() {
    let mut g = global();
    let c = new_contest(&mut g, 1_000);
    assert_eq!(g.contest_id, 1);
    assert_eq!(c.id, 1);
    assert_eq!(c.fee, 2);
    assert_eq!(c.start_time, 1_000);
    assert_eq!(c.contest_time, 100);
    assert_eq!(c.wait_time, 50);
    assert_eq!(c.max_alice_amount, 1_000);
    assert_eq!(c.max_bob_amount, 2_000);
    assert!(c.alice_coin == key(ALICE_MINT));
    assert!(c.bob_coin == key(BOB_MINT));
    assert!(c.winner == key(ALICE_MINT));
    assert_eq!(c.alice_decimal, 6);
    assert_eq!(c.bob_decimal, 9);
    assert_eq!(c.alice_name, "Alice");
    assert_eq!(c.bob_image, "bob.png");
    assert!(!c.set);
    assert_eq!(c.alice_amount + c.bob_amount + c.total_alice_bet + c.total_bob_bet, 0);
    assert!(c.quote_bob_sol_vault == key(BOB_QUOTE));
}

#[test]
fn create_contest_refuses_a_stranger() {
    let mut g = global();
    let r = create_contest(
        &mut g,
        key(STRANGER),
        0,
        MintInfo { key: key(ALICE_MINT), decimals: 6 },
        MintInfo { key: key(BOB_MINT), decimals: 9 },
        1, 100, 50, 1, 1,
        String::new(), String::new(), String::new(), String::new(),
        key(40), key(41), key(20), key(21), key(22), key(23),
    );
    assert_eq!(r.err(), Some(ContestError::NotAllowedOwner));
    assert_eq!(g.contest_id, 0);
}

#[test]
fn create_contest_refuses_an_index_out_of_order() {
    let mut g = global();
    let r = create_contest(
        &mut g,
        key(OWNER),
        0,
        MintInfo { key: key(ALICE_MINT), decimals: 6 },
        MintInfo { key: key(BOB_MINT), decimals: 9 },
        2, 100, 50, 1, 1,
        String::new(), String::new(), String::new(), String::new(),
        key(40), key(41), key(20), key(21), key(22), key(23),
    );
    assert_eq!(r.err(), Some(ContestError::InvalidContestIndex));
    assert_eq!(g.contest_id, 0);
}

#[test]
fn create_contest_aborts_when_the_index_overflows() {
    let mut g = global();
    g.contest_id = u16::MAX;
    assert!(create_contest_would_abort(&g, key(OWNER)));
    assert!(!create_contest_would_abort(&g, key(STRANGER)));
}

#[test]
fn contest_indices_follow_each_other() {
    let mut g = global();
    let _ = new_contest(&mut g, 0);
    assert_eq!(g.contest_id, 1);
    let r = create_contest(
        &mut g,
        key(OWNER),
        0,
        MintInfo { key: key(ALICE_MINT), decimals: 6 },
        MintInfo { key: key(BOB_MINT), decimals: 9 },
        2, 100, 50, 1, 1,
        String::new(), String::new(), String::new(), String::new(),
        key(40), key(41), key(20), key(21), key(22), key(23),
    );
    assert_eq!(r.unwrap().id, 2);
    assert_eq!(g.contest_id, 2);
}

#[test]
fn deposit_alice_values_and_records_the_deposit() {
    let mut g = global();
    let mut c = new_contest(&mut g, 1_000);
    let mut info = empty_info();
    let acc = alice_accounts(1_050);
    assert!(!deposit_would_abort(&c, &info, Side::Alice, &acc, 1, 100));
    let out = deposit_alice_token_contest(&mut c, &mut info, &acc, 1, 100);
    assert_eq!(out.status, Ok(()));
    assert_eq!(
        out.transfers,
        vec![TokenTransfer {
            from: TokenAccountRole::Holder(Side::Alice),
            to: TokenAccountRole::Vault(Side::Alice),
            amount: 100,
        }]
    );
    assert_eq!(c.alice_amount, 100);
    assert_eq!(c.alice_sol_amount, 55);
    assert_eq!(c.total_alice_bet, 55);
    assert_eq!(c.bob_amount, 0);
    assert!(info.owner == key(USER));
    assert_eq!(info.contest_id, 1);
    assert!(info.token == key(ALICE_MINT));
    assert_eq!(info.amount, 100);
    assert_eq!(info.decimal, 6);
    assert_eq!(info.bet, 55);
    assert!(!info.claim);

    let out = deposit_alice_token_contest(&mut c, &mut info, &acc, 1, 100);
    assert_eq!(out.status, Ok(()));
    assert_eq!(c.alice_amount, 200);
    assert_eq!(c.alice_sol_amount, 117);
    assert_eq!(c.total_alice_bet, 116);
    assert_eq!(info.amount, 200);
    assert_eq!(info.bet, 116);
}

#[test]
fn deposit_bob_uses_the_bob_pool_and_alice_value() {
    let mut g = global();
    let mut c = new_contest(&mut g, 1_000);
    let mut alice_info = empty_info();
    let out = deposit_alice_token_contest(&mut c, &mut alice_info, &alice_accounts(1_000), 1, 100);
    assert_eq!(out.status, Ok(()));
    let mut info = empty_info();
    let acc = bob_accounts(1_100);
    let out = deposit_bob_token_contest(&mut c, &mut info, &acc, 1, 2_000);
    assert_eq!(out.status, Ok(()));
    assert_eq!(
        out.transfers,
        vec![TokenTransfer {
            from: TokenAccountRole::Holder(Side::Bob),
            to: TokenAccountRole::Vault(Side::Bob),
            amount: 2_000,
        }]
    );
    // 400000 / 2000 - 100 = 100 lamports for all 2000 tokens.
    assert_eq!(c.bob_sol_amount, 100);
    // 100 * (1 SOL + 55) / (1 SOL + 0) = 100.
    assert_eq!(c.total_bob_bet, 100);
    assert_eq!(c.bob_amount, 2_000);
    assert_eq!(info.bet, 100);
    assert!(info.token == key(BOB_MINT));
    assert_eq!(c.alice_amount, 100);
}

#[test]
fn deposit_refuses_a_wrong_index() {
    let mut g = global();
    let mut c = new_contest(&mut g, 1_000);
    let mut info = empty_info();
    let out = deposit_alice_token_contest(&mut c, &mut info, &alice_accounts(1_000), 2, 100);
    assert_eq!(out.status, Err(ContestError::InvalidContestIndex));
    assert!(out.transfers.is_empty());
    assert_eq!(c.alice_amount, 0);
}

#[test]
fn deposit_refuses_after_the_contest_period() {
    let mut g = global();
    let mut c = new_contest(&mut g, 1_000);
    let mut info = empty_info();
    let out = deposit_alice_token_contest(&mut c, &mut info, &alice_accounts(1_100), 1, 100);
    assert_eq!(out.status, Ok(()));
    let out = deposit_alice_token_contest(&mut c, &mut info, &alice_accounts(1_101), 1, 100);
    assert_eq!(out.status, Err(ContestError::OverTimeContest));
    assert!(out.transfers.is_empty());
    assert_eq!(info.amount, 100);
}

#[test]
fn deposit_refuses_the_other_token() {
    let mut g = global();
    let mut c = new_contest(&mut g, 1_000);
    let mut info = empty_info();
    let out = deposit_bob_token_contest(&mut c, &mut info, &alice_accounts(1_000), 1, 100);
    assert_eq!(out.status, Err(ContestError::InvalidToken));
    assert!(out.transfers.is_empty());
}

#[test]
fn deposit_refuses_more_than_the_maximum() {
    let mut g = global();
    let mut c = new_contest(&mut g, 1_000);
    let mut info = empty_info();
    let out = deposit_alice_token_contest(&mut c, &mut info, &alice_accounts(1_000), 1, 1_001);
    assert_eq!(out.status, Err(ContestError::MaxAmount));
    assert!(out.transfers.is_empty());
}

#[test]
fn deposit_refuses_a_foreign_pool_after_the_transfer() {
    let mut g = global();
    let mut c = new_contest(&mut g, 1_000);
    let mut info = empty_info();
    let mut acc = alice_accounts(1_000);
    acc.quote_vault.key = key(BOB_QUOTE);
    let out = deposit_alice_token_contest(&mut c, &mut info, &acc, 1, 100);
    assert_eq!(out.status, Err(ContestError::InvalidToken));
    assert_eq!(out.transfers.len(), 1);
    assert_eq!(c.alice_amount, 0);
    assert_eq!(info.amount, 0);
}

#[test]
fn deposit_aborts_where_its_value_cannot_be_computed() {
    let mut g = global();
    let c = new_contest(&mut g, 1_000);
    let info = empty_info();
    assert!(deposit_would_abort(&c, &info, Side::Alice, &alice_accounts(1_000), 1, 0));
    let mut acc = alice_accounts(1_000);
    acc.base_vault.amount = 100;
    assert!(deposit_would_abort(&c, &info, Side::Alice, &acc, 1, 100));
    assert!(!deposit_would_abort(&c, &info, Side::Alice, &acc, 2, 100));
}

#[test]
fn deposit_aborts_where_the_end_is_not_a_timestamp() {
    let mut g = global();
    let mut c = new_contest(&mut g, 1_000);
    c.contest_time = u64::MAX - 10;
    let info = empty_info();
    assert!(deposit_would_abort(&c, &info, Side::Alice, &alice_accounts(1_000), 1, 100));
}

fn funded_contest() -> (GlobalState, Contest, ContestInfo, ContestInfo) {
    let mut g = global();
    let mut c = new_contest(&mut g, 1_000);
    let mut alice_info = empty_info();
    let out = deposit_alice_token_contest(&mut c, &mut alice_info, &alice_accounts(1_010), 1, 100);
    assert_eq!(out.status, Ok(()));
    let mut bob_info = empty_info();
    let out = deposit_bob_token_contest(&mut c, &mut bob_info, &bob_accounts(1_020), 1, 2_000);
    assert_eq!(out.status, Ok(()));
    (g, c, alice_info, bob_info)
}

#[test]
fn set_winner_picks_the_side_worth_more() {
    let (mut g, mut c, _, _) = funded_contest();
    assert_eq!(set_winner(&mut g, &mut c, key(OWNER), 1_100, 1, alice_pool(500), bob_pool(500)), Ok(()));
    assert!(c.set);
    assert!(c.winner == key(BOB_MINT));
    assert_eq!(c.alice_remain_amount, 100);
    assert_eq!(c.bob_remain_amount, 2_000);
    assert_eq!(g.finised_contest, 1);
}

#[test]
fn set_winner_breaks_ties_by_the_clock() {
    let mut g = global();
    let mut c = new_contest(&mut g, 1_000);
    assert_eq!(set_winner(&mut g, &mut c, key(OWNER), 1_101, 1, alice_pool(500), bob_pool(500)), Ok(()));
    assert!(c.winner == key(ALICE_MINT));
    let mut c = new_contest_at(&mut g, 2);
    assert_eq!(set_winner(&mut g, &mut c, key(OWNER), 1_102, 2, alice_pool(500), bob_pool(500)), Ok(()));
    assert!(c.winner == key(BOB_MINT));
}

fn new_contest_at(g: &mut GlobalState, index: u16) -> Contest {
    create_contest(
        g,
        key(OWNER),
        1_000,
        MintInfo { key: key(ALICE_MINT), decimals: 6 },
        MintInfo { key: key(BOB_MINT), decimals: 9 },
        index, 100, 50, 1_000, 2_000,
        String::new(), String::new(), String::new(), String::new(),
        key(40), key(41), key(20), key(21), key(22), key(23),
    )
    .unwrap()
}

#[test]
fn set_winner_refusals() {
    let (mut g, mut c, _, _) = funded_contest();
    assert_eq!(set_winner(&mut g, &mut c, key(OWNER), 1_099, 1, alice_pool(500), bob_pool(500)), Err(ContestError::NotFinished));
    assert_eq!(set_winner(&mut g, &mut c, key(STRANGER), 1_100, 1, alice_pool(500), bob_pool(500)), Err(ContestError::NotAllowedOwner));
    assert_eq!(set_winner(&mut g, &mut c, key(OWNER), 1_100, 2, alice_pool(500), bob_pool(500)), Err(ContestError::InvalidContestIndex));
    assert!(!c.set);
    assert_eq!(g.finised_contest, 0);
    assert_eq!(set_winner(&mut g, &mut c, key(OWNER), 1_100, 1, alice_pool(500), bob_pool(500)), Ok(()));
    assert_eq!(set_winner(&mut g, &mut c, key(OWNER), 1_200, 1, alice_pool(500), bob_pool(500)), Err(ContestError::AlreadySet));
    assert_eq!(g.finised_contest, 1);
}

#[test]
fn set_winner_aborts_on_an_odd_negative_tie() {
    let mut g = global();
    let mut c = new_contest(&mut g, 1_000);
    c.start_time = 0;
    c.contest_time = 0;
    assert!(set_winner_would_abort(&g, &c, key(OWNER), -3, 1, alice_pool(500), bob_pool(500)));
    assert!(!set_winner_would_abort(&g, &c, key(OWNER), -4, 1, alice_pool(500), bob_pool(500)));
    assert_eq!(set_winner(&mut g, &mut c, key(OWNER), -4, 1, alice_pool(500), bob_pool(500)), Ok(()));
    assert!(c.winner == key(BOB_MINT));
}

#[test]
fn set_winner_aborts_when_the_count_overflows() {
    let (mut g, c, _, _) = funded_contest();
    g.finised_contest = u16::MAX;
    assert!(set_winner_would_abort(&g, &c, key(OWNER), 1_100, 1, alice_pool(500), bob_pool(500)));
    assert!(!set_winner_would_abort(&g, &c, key(OWNER), 1_099, 1, alice_pool(500), bob_pool(500)));
}

#[test]
fn winner_claim_pays_refund_and_reward() {
    let (mut g, mut c, mut alice_info, mut bob_info) = funded_contest();
    assert_eq!(set_winner(&mut g, &mut c, key(OWNER), 1_100, 1, alice_pool(500), bob_pool(0)), Ok(()));
    assert!(c.winner == key(ALICE_MINT));
    assert!(!winner_claim_would_abort(&c, &alice_info));
    let out = winner_claim(&mut c, &mut alice_info);
    assert_eq!(out.status, Ok(()));
    // fee 100 * 2 / 100 = 2, refund 98, reward 2000 * 98 / 100 * 55 / 55 = 1960.
    assert_eq!(
        out.transfers,
        vec![
            TokenTransfer {
                from: TokenAccountRole::Vault(Side::Alice),
                to: TokenAccountRole::FeeAccount(Side::Alice),
                amount: 2,
            },
            TokenTransfer {
                from: TokenAccountRole::Vault(Side::Alice),
                to: TokenAccountRole::Holder(Side::Alice),
                amount: 98,
            },
            TokenTransfer {
                from: TokenAccountRole::Vault(Side::Bob),
                to: TokenAccountRole::Holder(Side::Bob),
                amount: 1_960,
            },
        ]
    );
    assert!(alice_info.claim);
    assert_eq!(c.alice_remain_amount, 0);
    assert_eq!(c.bob_remain_amount, 40);
    let out = winner_claim(&mut c, &mut bob_info);
    assert_eq!(out.status, Err(ContestError::NotWinner));
}

#[test]
fn winner_claim_only_once() {
    let (mut g, mut c, _, mut bob_info) = funded_contest();
    assert_eq!(set_winner(&mut g, &mut c, key(OWNER), 1_100, 1, alice_pool(500), bob_pool(500)), Ok(()));
    let out = winner_claim(&mut c, &mut bob_info);
    assert_eq!(out.status, Ok(()));
    assert_eq!(out.transfers.len(), 3);
    let remain = (c.alice_remain_amount, c.bob_remain_amount);
    let out = winner_claim(&mut c, &mut bob_info);
    assert_eq!(out.status, Err(ContestError::AlreadyClaimed));
    assert!(out.transfers.is_empty());
    assert_eq!((c.alice_remain_amount, c.bob_remain_amount), remain);
}

#[test]
fn winner_claim_before_the_winner_is_set() {
    let (_, mut c, mut alice_info, _) = funded_contest();
    let out = winner_claim(&mut c, &mut alice_info);
    assert_eq!(out.status, Err(ContestError::DidntSetWinner));
    assert!(!alice_info.claim);
}

#[test]
fn winner_claim_refuses_a_record_of_another_contest() {
    let (mut g, mut c, _, mut bob_info) = funded_contest();
    assert_eq!(set_winner(&mut g, &mut c, key(OWNER), 1_100, 1, alice_pool(500), bob_pool(500)), Ok(()));
    bob_info.contest_id = 7;
    let out = winner_claim(&mut c, &mut bob_info);
    assert_eq!(out.status, Err(ContestError::InvalidContestIndex));
}

#[test]
fn winner_claim_aborts_with_a_fee_above_one_hundred_percent() {
    let (mut g, mut c, _, bob_info) = funded_contest();
    assert_eq!(set_winner(&mut g, &mut c, key(OWNER), 1_100, 1, alice_pool(500), bob_pool(500)), Ok(()));
    c.fee = 101;
    assert!(winner_claim_would_abort(&c, &bob_info));
}

#[test]
fn winner_claim_pays_both_branches_when_the_mints_are_the_same() {
    let mut g = global();
    let mut c = new_contest(&mut g, 1_000);
    c.bob_coin = key(ALICE_MINT);
    c.set = true;
    c.total_alice_bet = 10;
    c.total_bob_bet = 10;
    c.alice_amount = 100;
    c.bob_amount = 100;
    c.alice_remain_amount = 1_000;
    c.bob_remain_amount = 1_000;
    let mut info = ContestInfo {
        owner: key(USER),
        contest_id: 1,
        token: key(ALICE_MINT),
        amount: 10,
        decimal: 6,
        bet: 5,
        claim: false,
    };
    let out = winner_claim(&mut c, &mut info);
    assert_eq!(out.status, Ok(()));
    assert_eq!(out.transfers.len(), 6);
    // Each branch takes the deposit off its own side and a reward of
    // 100 * 98 / 100 * 5 / 10 = 49 off the other.
    assert_eq!(c.alice_remain_amount, 1_000 - 10 - 49);
    assert_eq!(c.bob_remain_amount, 1_000 - 49 - 10);
}

#[test]
fn withdraw_token_sends_the_remainders_to_the_fee_accounts() {
    let (mut g, mut c, _, mut bob_info) = funded_contest();
    assert_eq!(set_winner(&mut g, &mut c, key(OWNER), 1_100, 1, alice_pool(500), bob_pool(500)), Ok(()));
    assert_eq!(winner_claim(&mut c, &mut bob_info).status, Ok(()));
    let (a, b) = (c.alice_remain_amount, c.bob_remain_amount);
    assert!(!withdraw_would_abort(&c, 1_150));
    let out = withdraw_token(&g, &mut c, key(OWNER), 1_150, 1);
    assert_eq!(out.status, Ok(()));
    assert_eq!(
        out.transfers,
        vec![
            TokenTransfer {
                from: TokenAccountRole::Vault(Side::Alice),
                to: TokenAccountRole::FeeAccount(Side::Alice),
                amount: a,
            },
            TokenTransfer {
                from: TokenAccountRole::Vault(Side::Bob),
                to: TokenAccountRole::FeeAccount(Side::Bob),
                amount: b,
            },
        ]
    );
    assert_eq!(c.alice_remain_amount, 0);
    assert_eq!(c.bob_remain_amount, 0);
}

#[test]
fn withdraw_token_refusals() {
    let (mut g, mut c, _, _) = funded_contest();
    assert_eq!(set_winner(&mut g, &mut c, key(OWNER), 1_100, 1, alice_pool(500), bob_pool(500)), Ok(()));
    let out = withdraw_token(&g, &mut c, key(OWNER), 1_149, 1);
    assert_eq!(out.status, Err(ContestError::NotWithdrawTime));
    let out = withdraw_token(&g, &mut c, key(OWNER), 1_150, 2);
    assert_eq!(out.status, Err(ContestError::InvalidContestIndex));
    let out = withdraw_token(&g, &mut c, key(STRANGER), 1_150, 1);
    assert_eq!(out.status, Err(ContestError::NotAllowedOwner));
    assert!(out.transfers.is_empty());
    assert_eq!(c.bob_remain_amount, 2_000);
}

#[test]
fn withdraw_token_aborts_on_a_negative_clock() {
    let (_, c, _, _) = funded_contest();
    assert!(withdraw_would_abort(&c, -1));
    let mut c2 = c.clone();
    c2.wait_time = u64::MAX;
    assert!(withdraw_would_abort(&c2, 5_000));
}

#[test]
fn no_deposit_after_the_winner_is_set() {
    let (mut g, mut c, mut alice_info, _) = funded_contest();
    assert_eq!(set_winner(&mut g, &mut c, key(OWNER), 1_100, 1, alice_pool(500), bob_pool(500)), Ok(()));
    let out = deposit_alice_token_contest(&mut c, &mut alice_info, &alice_accounts(1_101), 1, 10);
    assert_eq!(out.status, Err(ContestError::OverTimeContest));
}

#[test]
fn ledger_of_bets_matches_the_total() {
    let mut g = global();
    let mut c = new_contest(&mut g, 1_000);
    let mut first = empty_info();
    let mut second = empty_info();
    let out = deposit_alice_token_contest(&mut c, &mut first, &alice_accounts(1_000), 1, 50);
    assert_eq!(out.status, Ok(()));
    let out = deposit_alice_token_contest(&mut c, &mut second, &alice_accounts(1_000), 1, 70);
    assert_eq!(out.status, Ok(()));
    let out = deposit_alice_token_contest(&mut c, &mut first, &alice_accounts(1_000), 1, 30);
    assert_eq!(out.status, Ok(()));
    assert_eq!(first.bet + second.bet, c.total_alice_bet);
    assert_eq!(first.amount + second.amount, c.alice_amount);
}

#[test]
fn pubkeys_differ_in_any_byte() {
    let a = key(3);
    let mut b = key(3);
    assert!(a == b);
    b.bytes[31] = 4;
    assert!(a != b);
}

#[test]
fn every_winner_can_claim() {
    let mut g = global();
    let mut c = new_contest(&mut g, 1_000);
    let mut first = empty_info();
    let mut second = empty_info();
    let mut loser = empty_info();
    assert_eq!(deposit_alice_token_contest(&mut c, &mut first, &alice_accounts(1_000), 1, 120).status, Ok(()));
    assert_eq!(deposit_alice_token_contest(&mut c, &mut second, &alice_accounts(1_000), 1, 80).status, Ok(()));
    assert_eq!(deposit_bob_token_contest(&mut c, &mut loser, &bob_accounts(1_000), 1, 999).status, Ok(()));
    assert_eq!(set_winner(&mut g, &mut c, key(OWNER), 1_100, 1, alice_pool(500), bob_pool(10)), Ok(()));
    assert!(c.winner == key(ALICE_MINT));
    for info in [&mut first, &mut second] {
        assert!(!winner_claim_would_abort(&c, info));
        assert_eq!(winner_claim(&mut c, info).status, Ok(()));
    }
    assert_eq!(c.alice_remain_amount, 0);
    assert!(c.bob_remain_amount <= 999 - 999 * 98 / 100 + 2);
    assert!(c.bob_remain_amount >= 999 - 999 * 98 / 100);
    let out = withdraw_token(&g, &mut c, key(OWNER), 1_150, 1);
    assert_eq!(out.status, Ok(()));
    assert_eq!(out.transfers[1].from, TokenAccountRole::Vault(Side::Bob));
    assert!(out.transfers[1].amount >= 999 * 2 / 100);
}

#[test]
fn set_winner_values_the_sides_at_the_end_prices() {
    let (mut g, mut c, _, _) = funded_contest();
    // At deposit time the bob side is worth more lamports.
    assert!(c.bob_sol_amount > c.alice_sol_amount);
    // At the end, 100 alice tokens are worth 100 * 30000 / 1000 = 3000
    // lamports and 2000 bob tokens 2000 * 1000 / 1000 = 2000.
    assert!(!set_winner_would_abort(&g, &c, key(OWNER), 1_100, 1, alice_pool(30_000), bob_pool(1_000)));
    assert_eq!(set_winner(&mut g, &mut c, key(OWNER), 1_100, 1, alice_pool(30_000), bob_pool(1_000)), Ok(()));
    assert!(c.winner == key(ALICE_MINT));
}

#[test]
fn set_winner_picks_bob_when_bob_is_worth_more_at_the_end() {
    let mut g = global();
    let mut c = new_contest(&mut g, 1_000);
    let mut info = empty_info();
    assert_eq!(deposit_alice_token_contest(&mut c, &mut info, &alice_accounts(1_000), 1, 100).status, Ok(()));
    let mut bob_info = empty_info();
    assert_eq!(deposit_bob_token_contest(&mut c, &mut bob_info, &bob_accounts(1_000), 1, 100).status, Ok(()));
    assert!(c.alice_sol_amount > c.bob_sol_amount);
    // alice: 100 * 10 / 1000 = 1; bob: 100 * 500 / 1000 = 50.
    assert_eq!(set_winner(&mut g, &mut c, key(OWNER), 1_100, 1, alice_pool(10), bob_pool(500)), Ok(()));
    assert!(c.winner == key(BOB_MINT));
}

#[test]
fn set_winner_refuses_foreign_pools() {
    let (mut g, mut c, _, _) = funded_contest();
    let mut wrong = alice_pool(500);
    wrong.quote.key = key(BOB_QUOTE);
    assert_eq!(
        set_winner(&mut g, &mut c, key(OWNER), 1_100, 1, wrong, bob_pool(500)),
        Err(ContestError::InvalidToken)
    );
    let mut wrong = bob_pool(500);
    wrong.base.key = key(ALICE_BASE);
    assert_eq!(
        set_winner(&mut g, &mut c, key(OWNER), 1_100, 1, alice_pool(500), wrong),
        Err(ContestError::InvalidToken)
    );
    assert!(!c.set);
}

#[test]
fn set_winner_refuses_an_empty_pool() {
    let (mut g, mut c, _, _) = funded_contest();
    let mut empty = bob_pool(500);
    empty.base.amount = 0;
    assert_eq!(
        set_winner(&mut g, &mut c, key(OWNER), 1_100, 1, alice_pool(500), empty),
        Err(ContestError::InvalidPriceFeed)
    );
    assert!(!c.set);
    assert_eq!(g.finised_contest, 0);
}

#[test]
fn contest_numbering_refuses_a_used_index() {
    let mut g = global();
    let _ = new_contest_at(&mut g, 1);
    let _ = new_contest_at(&mut g, 2);
    let r = create_contest(
        &mut g,
        key(OWNER),
        0,
        MintInfo { key: key(ALICE_MINT), decimals: 6 },
        MintInfo { key: key(BOB_MINT), decimals: 9 },
        1, 100, 50, 1, 1,
        String::new(), String::new(), String::new(), String::new(),
        key(40), key(41), key(20), key(21), key(22), key(23),
    );
    assert_eq!(r.err(), Some(ContestError::InvalidContestIndex));
    assert_eq!(g.contest_id, 2);
    assert_eq!(new_contest_at(&mut g, 3).id, 3);
}

#[test]
fn withdraw_after_claims_gives_the_platform_its_fee_share() {
    let (mut g, mut c, _, mut bob_info) = funded_contest();
    assert_eq!(set_winner(&mut g, &mut c, key(OWNER), 1_100, 1, alice_pool(500), bob_pool(500)), Ok(()));
    assert!(c.winner == key(BOB_MINT));
    assert_eq!(winner_claim(&mut c, &mut bob_info).status, Ok(()));
    let out = withdraw_token(&g, &mut c, key(OWNER), 1_150, 1);
    assert_eq!(out.status, Ok(()));
    // The losing alice side deposited 100 at a fee of 2 percent.
    assert!(out.transfers[0].amount >= 100 * 2 / 100);
}
