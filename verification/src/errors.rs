use vstd::prelude::*;

verus! {

/// The ways in which an instruction of the contest program is refused.
#[derive(Clone, Copy, Debug, PartialEq, Eq, Structural)]
pub enum ContestError {
    /// The signer is not the platform owner.
    NotAllowedOwner,
    /// The contest index does not name the expected contest.
    InvalidContestIndex,
    /// The contest period is over.
    OverTimeContest,
    /// A token mint or a pool vault is not the one the contest was created with.
    InvalidToken,
    /// The price feed is not usable.
    InvalidPriceFeed,
    /// The contest period is not over yet.
    NotFinished,
    /// The winner of the contest was already set.
    AlreadySet,
    /// The winner of the contest is not set yet.
    DidntSetWinner,
    /// The claimant did not deposit the winning token.
    NotWinner,
    /// The waiting time after the contest is not over yet.
    NotWithdrawTime,
    /// The reward was already claimed.
    AlreadyClaimed,
    /// The deposit is above the contest's maximum single deposit.
    MaxAmount,
}

} // verus!
