use vstd::prelude::*;

use crate::pubkey::Pubkey;

verus! {

/// The platform's global account.
#[derive(Clone, Debug)]
pub struct GlobalState {
    /// The platform owner, the only signer allowed to manage contests.
    pub owner: Pubkey,
    /// The fee, in percent, that new contests take from every claim.
    pub fee: u64,
    /// The index of the last contest created.
    pub contest_id: u16,
    /// How many contests have had their winner set.
    pub finised_contest: u16,
}

/// One of the two competing tokens of a contest.
#[derive(Clone, Copy, Debug, PartialEq, Eq, Structural)]
pub enum Side {
    Alice,
    Bob,
}

impl Side {
    /// The competing side.
    pub open spec fn opposite(self) -> Side {
        match self {
            Side::Alice => Side::Bob,
            Side::Bob => Side::Alice,
        }
    }

    /// Computes `opposite`.
    pub fn other(self) -> (r: Side)
        ensures
            r == self.opposite(),
    {
        match self {
            Side::Alice => Side::Bob,
            Side::Bob => Side::Alice,
        }
    }
}

/// A contest between two meme tokens.
#[derive(Clone, Debug)]
pub struct Contest {
    /// The contest's index.
    pub id: u16,
    /// The fee, in percent, taken from every claim.
    pub fee: u64,
    /// When the contest was created (seconds since the epoch).
    pub start_time: u64,
    /// How long deposits are accepted after `start_time`.
    pub contest_time: u64,
    /// How long after the contest's end the remainders can be withdrawn.
    pub wait_time: u64,
    /// The largest single deposit of the alice token.
    pub max_alice_amount: u64,
    /// The largest single deposit of the bob token.
    pub max_bob_amount: u64,
    /// The mint of the alice token.
    pub alice_coin: Pubkey,
    /// The mint of the bob token.
    pub bob_coin: Pubkey,
    pub alice_name: String,
    pub bob_name: String,
    pub alice_image: String,
    pub bob_image: String,
    /// The mint of the winning token.
    pub winner: Pubkey,
    /// Alice tokens deposited so far.
    pub alice_amount: u64,
    pub alice_decimal: u8,
    /// Bob tokens deposited so far.
    pub bob_amount: u64,
    pub bob_decimal: u8,
    /// Alice tokens not yet paid out after the winner was set.
    pub alice_remain_amount: u64,
    /// Bob tokens not yet paid out after the winner was set.
    pub bob_remain_amount: u64,
    /// The value in lamports of the alice deposits.
    pub alice_sol_amount: u64,
    /// The value in lamports of the bob deposits.
    pub bob_sol_amount: u64,
    /// The sum of the bet coefficients of the alice deposits.
    pub total_alice_bet: u64,
    /// The sum of the bet coefficients of the bob deposits.
    pub total_bob_bet: u64,
    /// Whether the winner was set.
    pub set: bool,
    pub alice_fee_account: Pubkey,
    pub bob_fee_account: Pubkey,
    /// The pool vault holding the alice token, used to price deposits.
    pub base_alice_vault: Pubkey,
    /// The pool vault holding the SOL paired with the alice token.
    pub quote_alice_sol_vault: Pubkey,
    /// The pool vault holding the bob token.
    pub base_bob_vault: Pubkey,
    /// The pool vault holding the SOL paired with the bob token.
    pub quote_bob_sol_vault: Pubkey,
}

/// What one user deposited on one side of a contest.
#[derive(Clone, Debug)]
pub struct ContestInfo {
    /// The depositor.
    pub owner: Pubkey,
    pub contest_id: u16,
    /// The mint of the deposited token.
    pub token: Pubkey,
    /// Tokens deposited.
    pub amount: u64,
    pub decimal: u8,
    /// The sum of the bet coefficients of the deposits.
    pub bet: u64,
    /// Whether the reward was claimed.
    pub claim: bool,
}

impl Contest {
    pub open spec fn coin(&self, side: Side) -> Pubkey {
        match side {
            Side::Alice => self.alice_coin,
            Side::Bob => self.bob_coin,
        }
    }

    pub open spec fn max_amount(&self, side: Side) -> u64 {
        match side {
            Side::Alice => self.max_alice_amount,
            Side::Bob => self.max_bob_amount,
        }
    }

    pub open spec fn side_amount(&self, side: Side) -> u64 {
        match side {
            Side::Alice => self.alice_amount,
            Side::Bob => self.bob_amount,
        }
    }

    pub open spec fn side_sol_amount(&self, side: Side) -> u64 {
        match side {
            Side::Alice => self.alice_sol_amount,
            Side::Bob => self.bob_sol_amount,
        }
    }

    pub open spec fn total_bet(&self, side: Side) -> u64 {
        match side {
            Side::Alice => self.total_alice_bet,
            Side::Bob => self.total_bob_bet,
        }
    }

    pub open spec fn remain_amount(&self, side: Side) -> u64 {
        match side {
            Side::Alice => self.alice_remain_amount,
            Side::Bob => self.bob_remain_amount,
        }
    }

    pub open spec fn base_vault(&self, side: Side) -> Pubkey {
        match side {
            Side::Alice => self.base_alice_vault,
            Side::Bob => self.base_bob_vault,
        }
    }

    pub open spec fn quote_vault(&self, side: Side) -> Pubkey {
        match side {
            Side::Alice => self.quote_alice_sol_vault,
            Side::Bob => self.quote_bob_sol_vault,
        }
    }

    /// The end of the contest period.
    pub open spec fn end_time(&self) -> int {
        self.start_time + self.contest_time
    }

    /// The contest after a deposit of `amount` tokens on `side`, worth `sol`
    /// lamports, with bet coefficient `bet`.
    pub open spec fn with_deposit(self, side: Side, amount: u64, sol: u64, bet: u64) -> Contest {
        match side {
            Side::Alice => Contest {
                total_alice_bet: (self.total_alice_bet + bet) as u64,
                alice_amount: (self.alice_amount + amount) as u64,
                alice_sol_amount: (self.alice_sol_amount + sol) as u64,
                ..self
            },
            Side::Bob => Contest {
                total_bob_bet: (self.total_bob_bet + bet) as u64,
                bob_amount: (self.bob_amount + amount) as u64,
                bob_sol_amount: (self.bob_sol_amount + sol) as u64,
                ..self
            },
        }
    }

    /// The contest with `side`'s remainder set to `remain`.
    pub open spec fn with_remain(self, side: Side, remain: u64) -> Contest {
        match side {
            Side::Alice => Contest { alice_remain_amount: remain, ..self },
            Side::Bob => Contest { bob_remain_amount: remain, ..self },
        }
    }
}

impl Contest {
    pub fn coin_of(&self, side: Side) -> (r: Pubkey)
        ensures
            r == self.coin(side),
    {
        match side {
            Side::Alice => self.alice_coin,
            Side::Bob => self.bob_coin,
        }
    }

    pub fn max_amount_of(&self, side: Side) -> (r: u64)
        ensures
            r == self.max_amount(side),
    {
        match side {
            Side::Alice => self.max_alice_amount,
            Side::Bob => self.max_bob_amount,
        }
    }

    pub fn side_amount_of(&self, side: Side) -> (r: u64)
        ensures
            r == self.side_amount(side),
    {
        match side {
            Side::Alice => self.alice_amount,
            Side::Bob => self.bob_amount,
        }
    }

    pub fn side_sol_amount_of(&self, side: Side) -> (r: u64)
        ensures
            r == self.side_sol_amount(side),
    {
        match side {
            Side::Alice => self.alice_sol_amount,
            Side::Bob => self.bob_sol_amount,
        }
    }

    pub fn total_bet_of(&self, side: Side) -> (r: u64)
        ensures
            r == self.total_bet(side),
    {
        match side {
            Side::Alice => self.total_alice_bet,
            Side::Bob => self.total_bob_bet,
        }
    }

    pub fn remain_amount_of(&self, side: Side) -> (r: u64)
        ensures
            r == self.remain_amount(side),
    {
        match side {
            Side::Alice => self.alice_remain_amount,
            Side::Bob => self.bob_remain_amount,
        }
    }

    pub fn base_vault_of(&self, side: Side) -> (r: Pubkey)
        ensures
            r == self.base_vault(side),
    {
        match side {
            Side::Alice => self.base_alice_vault,
            Side::Bob => self.base_bob_vault,
        }
    }

    pub fn quote_vault_of(&self, side: Side) -> (r: Pubkey)
        ensures
            r == self.quote_vault(side),
    {
        match side {
            Side::Alice => self.quote_alice_sol_vault,
            Side::Bob => self.quote_bob_sol_vault,
        }
    }

    /// Adds a deposit to `side`'s totals.
    pub fn record_deposit(&mut self, side: Side, amount: u64, sol: u64, bet: u64)
        requires
            old(self).total_bet(side) + bet <= u64::MAX,
            old(self).side_amount(side) + amount <= u64::MAX,
            old(self).side_sol_amount(side) + sol <= u64::MAX,
        ensures
            *final(self) == old(self).with_deposit(side, amount, sol, bet),
    {
        match side {
            Side::Alice => {
                self.total_alice_bet = self.total_alice_bet + bet;
                self.alice_amount = self.alice_amount + amount;
                self.alice_sol_amount = self.alice_sol_amount + sol;
            },
            Side::Bob => {
                self.total_bob_bet = self.total_bob_bet + bet;
                self.bob_amount = self.bob_amount + amount;
                self.bob_sol_amount = self.bob_sol_amount + sol;
            },
        }
    }

    /// Sets `side`'s remainder.
    pub fn set_remain(&mut self, side: Side, remain: u64)
        ensures
            *final(self) == old(self).with_remain(side, remain),
    {
        match side {
            Side::Alice => {
                self.alice_remain_amount = remain;
            },
            Side::Bob => {
                self.bob_remain_amount = remain;
            },
        }
    }
}

impl ContestInfo {
    /// The record after a deposit of `amount` tokens of `mint` with bet
    /// coefficient `bet` by `user`: a fresh record where nothing was
    /// deposited yet, else the old one with the amount and bet added.
    pub open spec fn with_deposit(
        self,
        user: Pubkey,
        contest_id: u16,
        mint: Pubkey,
        decimals: u8,
        amount: u64,
        bet: u64,
    ) -> ContestInfo {
        if self.amount == 0 {
            ContestInfo { owner: user, contest_id, token: mint, amount, decimal: decimals, bet, claim: false }
        } else {
            ContestInfo {
                amount: (self.amount + amount) as u64,
                bet: (self.bet + bet) as u64,
                ..self
            }
        }
    }
}

} // verus!
