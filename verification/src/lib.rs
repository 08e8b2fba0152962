//! The verified core of a two-token meme coin contest: contest state,
//! deposit pricing, winner selection and reward claims.

pub mod errors;
pub mod events;
pub mod instructions;
pub mod laws;
pub mod pricing;
pub mod pubkey;
pub mod state;

pub use errors::ContestError;
pub use pubkey::Pubkey;
pub use state::{Contest, ContestInfo, GlobalState, Side};
