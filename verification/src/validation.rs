//! The checks that decide whether an operation is accepted, shared by the
//! creation of a campaign and the claim.

use vstd::prelude::*;
use crate::errors::SolDropError;
use crate::state::{Airdrop, Pubkey};

verus! {

/// The first check that a creation fails, in the order in which the
/// protocol makes them: the caller is the treasury's authority, the rarity
/// is a tier, the expiry lies in the future, the reward is not zero.
/// `None` when the creation passes them all.
pub open spec fn creation_refusal(
    caller: Pubkey,
    authority: Pubkey,
    now: i64,
    reward_amount: u64,
    expiry_timestamp: i64,
    rarity: u8,
) -> Option<SolDropError> {
    if caller != authority {
        Some(SolDropError::Unauthorized)
    } else if rarity > 4 {
        Some(SolDropError::InvalidRarity)
    } else if expiry_timestamp <= now {
        Some(SolDropError::InvalidExpiry)
    } else if reward_amount == 0 {
        Some(SolDropError::InvalidRewardAmount)
    } else {
        None
    }
}

/// The first check that a claim fails, in the order in which the protocol
/// makes them: the campaign is active, it has not expired, it has a claim
/// left, the treasury can pay and keep its minimum, and the claimer holds no
/// receipt yet. `None` when the claim passes them all.
pub open spec fn claim_refusal(
    airdrop: Airdrop,
    now: i64,
    treasury_lamports: u64,
    rent_minimum: u64,
    claimed_before: bool,
) -> Option<SolDropError> {
    if !airdrop.active {
        Some(SolDropError::AirdropInactive)
    } else if now >= airdrop.expiry_timestamp {
        Some(SolDropError::AirdropExpired)
    } else if airdrop.claims_count >= airdrop.max_claims {
        Some(SolDropError::MaxClaimsReached)
    } else if treasury_lamports - rent_minimum < airdrop.reward_amount {
        Some(SolDropError::InsufficientTreasuryFunds)
    } else if claimed_before {
        Some(SolDropError::AlreadyClaimed)
    } else {
        None
    }
}

/// What the outcome of a check is: the refusal as an error, or success.
pub open spec fn verdict(refusal: Option<SolDropError>) -> Result<(), SolDropError> {
    match refusal {
        Some(error) => Err(error),
        None => Ok(()),
    }
}

/// A creation is refused for one of four reasons and a claim for one of
/// five; neither is ever refused because a counter would wrap, since a
/// campaign that has a claim left counts fewer than 65,535.
pub proof fn lemma_refusals(
    caller: Pubkey,
    authority: Pubkey,
    airdrop: Airdrop,
    now: i64,
    reward_amount: u64,
    expiry_timestamp: i64,
    rarity: u8,
    treasury_lamports: u64,
    rent_minimum: u64,
    claimed_before: bool,
)
    ensures
        creation_refusal(caller, authority, now, reward_amount, expiry_timestamp, rarity) matches Some(
            error,
        ) ==> error == SolDropError::Unauthorized || error == SolDropError::InvalidRarity || error
            == SolDropError::InvalidExpiry || error == SolDropError::InvalidRewardAmount,
        claim_refusal(airdrop, now, treasury_lamports, rent_minimum, claimed_before) matches Some(
            error,
        ) ==> error == SolDropError::AirdropInactive || error == SolDropError::AirdropExpired
            || error == SolDropError::MaxClaimsReached || error
            == SolDropError::InsufficientTreasuryFunds || error == SolDropError::AlreadyClaimed,
        claim_refusal(airdrop, now, treasury_lamports, rent_minimum, claimed_before).is_none()
            ==> airdrop.claims_count < u16::MAX,
{
}

/// Checks a creation: refuses it with the first check that it fails.
pub fn check_creation(
    caller: &Pubkey,
    authority: &Pubkey,
    now: i64,
    reward_amount: u64,
    expiry_timestamp: i64,
    rarity: u8,
) -> (result: Result<(), SolDropError>)
    ensures
        result == verdict(
            creation_refusal(*caller, *authority, now, reward_amount, expiry_timestamp, rarity),
        ),
{
    if *caller != *authority {
        return Err(SolDropError::Unauthorized);
    }
    if rarity > 4 {
        return Err(SolDropError::InvalidRarity);
    }
    if expiry_timestamp <= now {
        return Err(SolDropError::InvalidExpiry);
    }
    if reward_amount == 0 {
        return Err(SolDropError::InvalidRewardAmount);
    }
    Ok(())
}

/// Checks a claim: refuses it with the first check that it fails.
pub fn check_claim(
    airdrop: &Airdrop,
    now: i64,
    treasury_lamports: u64,
    rent_minimum: u64,
    claimed_before: bool,
) -> (result: Result<(), SolDropError>)
    ensures
        result == verdict(
            claim_refusal(*airdrop, now, treasury_lamports, rent_minimum, claimed_before),
        ),
{
    if !airdrop.active {
        return Err(SolDropError::AirdropInactive);
    }
    if now >= airdrop.expiry_timestamp {
        return Err(SolDropError::AirdropExpired);
    }
    if airdrop.claims_count >= airdrop.max_claims {
        return Err(SolDropError::MaxClaimsReached);
    }
    let available: u64 = match treasury_lamports.checked_sub(rent_minimum) {
        Some(available) => available,
        None => {
            return Err(SolDropError::InsufficientTreasuryFunds);
        },
    };
    if available < airdrop.reward_amount {
        return Err(SolDropError::InsufficientTreasuryFunds);
    }
    if claimed_before {
        return Err(SolDropError::AlreadyClaimed);
    }
    Ok(())
}

} // verus!
