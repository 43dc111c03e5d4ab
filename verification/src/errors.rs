//! The failures that an operation of the protocol reports.

use vstd::prelude::*;

verus! {

/// Why the protocol refused an operation.
#[derive(Clone, Copy, Debug, PartialEq, Eq, Structural)]
pub enum SolDropError {
    /// The campaign's expiry time has been reached.
    AirdropExpired,
    /// The campaign has no claim left to give.
    MaxClaimsReached,
    /// The claimer already holds a receipt for this campaign.
    AlreadyClaimed,
    /// The treasury cannot pay the reward and stay alive.
    InsufficientTreasuryFunds,
    /// The caller is not the treasury's authority.
    Unauthorized,
    /// The campaign has been exhausted.
    AirdropInactive,
    /// Kept for compatibility of the numbering; no operation reports it.
    CooldownNotElapsed,
    /// The rarity tier is not one of the five.
    InvalidRarity,
    /// The reward is zero.
    InvalidRewardAmount,
    /// The expiry time is not in the future.
    InvalidExpiry,
    /// A counter would have wrapped.
    ArithmeticOverflow,
}

impl SolDropError {
    /// The text shown to a caller for this error.
    pub open spec fn message_text(self) -> Seq<char> {
        match self {
            SolDropError::AirdropExpired => "This airdrop has expired"@,
            SolDropError::MaxClaimsReached => "Maximum claims reached for this airdrop"@,
            SolDropError::AlreadyClaimed => "You have already claimed this airdrop"@,
            SolDropError::InsufficientTreasuryFunds => "Treasury has insufficient funds"@,
            SolDropError::Unauthorized => "You are not authorized to perform this action"@,
            SolDropError::AirdropInactive => "This airdrop is no longer active"@,
            SolDropError::CooldownNotElapsed => "Cooldown period has not elapsed. Wait before claiming again"@,
            SolDropError::InvalidRarity => "Invalid rarity tier"@,
            SolDropError::InvalidRewardAmount => "Invalid reward amount for the given rarity"@,
            SolDropError::InvalidExpiry => "Expiry timestamp must be in the future"@,
            SolDropError::ArithmeticOverflow => "Arithmetic overflow"@,
        }
    }

    /// Returns the text shown to a caller for this error.
    pub fn message(&self) -> (text: String)
        ensures
            text@ == self.message_text(),
    {
        let text: &str = match self {
            SolDropError::AirdropExpired => "This airdrop has expired",
            SolDropError::MaxClaimsReached => "Maximum claims reached for this airdrop",
            SolDropError::AlreadyClaimed => "You have already claimed this airdrop",
            SolDropError::InsufficientTreasuryFunds => "Treasury has insufficient funds",
            SolDropError::Unauthorized => "You are not authorized to perform this action",
            SolDropError::AirdropInactive => "This airdrop is no longer active",
            SolDropError::CooldownNotElapsed => "Cooldown period has not elapsed. Wait before claiming again",
            SolDropError::InvalidRarity => "Invalid rarity tier",
            SolDropError::InvalidRewardAmount => "Invalid reward amount for the given rarity",
            SolDropError::InvalidExpiry => "Expiry timestamp must be in the future",
            SolDropError::ArithmeticOverflow => "Arithmetic overflow",
        };
        text.to_owned()
    }
}

/// Why an operation on a ledger failed: the protocol refused it, or the
/// store of records did.
#[derive(Clone, Copy, Debug, PartialEq, Eq, Structural)]
pub enum LedgerError {
    /// The protocol refused the operation.
    Protocol(SolDropError),
    /// The treasury's key is already occupied.
    AlreadyInitialized,
    /// No treasury has been initialized.
    TreasuryNotInitialized,
    /// A campaign with this id already exists.
    AirdropAlreadyExists,
    /// No campaign has this id.
    UnknownAirdrop,
    /// The payer does not hold the amount to be moved.
    InsufficientFunds,
}

} // verus!
