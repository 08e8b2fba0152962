use vstd::prelude::*;

use crate::pubkey::Pubkey;

verus! {

/// The record of a contest's creation.
#[derive(Clone, Copy, Debug)]
pub struct CreateContest {
    pub id: u16,
    pub start_time: u64,
    pub end_time: u64,
    pub alice: Pubkey,
    pub bob_coin: Pubkey,
}

} // verus!
