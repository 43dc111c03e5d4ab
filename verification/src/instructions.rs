//! The three operations of the protocol, each on the records it was handed.

pub mod claim_airdrop;
pub mod create_airdrop;
pub mod initialize_treasury;

pub use claim_airdrop::ClaimAirdrop;
pub use create_airdrop::CreateAirdrop;
pub use initialize_treasury::InitializeTreasury;
