//! A reward-distribution protocol: an authority funds a treasury and opens
//! campaigns of bounded life and capacity, and each claimer takes the reward
//! of a campaign at most once.
//!
//! - [`state`] holds the records and [`layout`] their stored bytes;
//! - [`validation`] holds the checks that accept or refuse an operation;
//! - [`instructions`] holds the three operations, each on the records it
//!   is handed;
//! - [`ledger`] is a store that keeps the records, under the keys of
//!   [`address`];
//! - [`protocol`] says what every operation makes of a ledger, and
//!   [`laws`] what follows from that.
//!
//! The functions below carry out one operation on a ledger as a whole: it
//! takes effect altogether, or it is refused and changes nothing.

use vstd::prelude::*;

pub mod address;
pub mod errors;
mod filing;
pub mod instructions;
pub mod laws;
pub mod layout;
pub mod ledger;
pub mod protocol;
pub mod state;
pub mod validation;

use crate::address::{airdrop_address, treasury_address, ADDRESS_BUMP};
use crate::errors::LedgerError;
use crate::instructions::claim_airdrop::{ClaimAirdrop, ClaimAirdropBumps};
use crate::instructions::create_airdrop::{CreateAirdrop, CreateAirdropBumps};
use crate::instructions::initialize_treasury::{InitializeTreasury, InitializeTreasuryBumps};
use crate::ledger::Ledger;
use crate::state::{Airdrop, Pubkey, Record, Treasury, Wallet};

verus! {

/// A record of a treasury that has been created, holding `lamports`, and
/// not written yet.
fn blank_treasury(key: Pubkey, lamports: u64) -> (record: Record<Treasury>)
    ensures
        record.key == key,
        record.lamports == lamports,
{
    Record {
        key,
        lamports,
        data: Treasury { authority: Pubkey { bytes: [0u8;32] }, total_deposited: 0, bump: 0 },
    }
}

/// A record of a campaign that has not been written yet.
fn blank_airdrop(key: Pubkey) -> (record: Record<Airdrop>)
    ensures
        record.key == key,
        record.lamports == 0,
{
    Record {
        key,
        lamports: 0,
        data: Airdrop {
            id: 0,
            latitude: 0,
            longitude: 0,
            reward_amount: 0,
            expiry_timestamp: 0,
            max_claims: 0,
            claims_count: 0,
            rarity: 0,
            active: false,
            creator: Pubkey { bytes: [0u8;32] },
            bump: 0,
        },
    }
}

/// Initializes the treasury under `authority`: its record is created
/// holding the balance it must keep, and `fund_amount` is moved into it
/// besides, both from the authority's funds.
///
/// Refused with `AlreadyInitialized` where a treasury exists, and with
/// `InsufficientFunds` where the authority holds less than the two
/// together.
pub fn initialize_treasury(ledger: &mut Ledger, authority: Pubkey, fund_amount: u64) -> (result:
    Result<(), LedgerError>)
    requires
        old(ledger).wf(),
    ensures
        final(ledger).wf(),
        match old(ledger)@.initialize_treasury(authority, fund_amount) {
            Ok(next) => result.is_ok() && final(ledger)@ == next,
            Err(error) => result == Err::<(), LedgerError>(error) && final(ledger)@ == old(ledger)@,
        },
        old(ledger)@.treasury.is_none() && old(ledger)@.balances[authority]
            >= old(ledger)@.rent_minimum + fund_amount ==> result.is_ok(),
{
    proof {
        ledger.lemma_wf();
    }
    let mut ctx = InitializeTreasury {
        treasury: blank_treasury(treasury_address(), ledger.rent_minimum()),
        authority: Wallet { key: authority, lamports: ledger.balance(authority) },
        bumps: InitializeTreasuryBumps { treasury: ADDRESS_BUMP },
    };
    let funding = instructions::initialize_treasury::handler(&mut ctx, fund_amount);
    ledger.open_treasury(ctx.treasury, funding)
}

/// Creates the campaign `id` on behalf of `authority`.
///
/// Refused with `TreasuryNotInitialized` where there is no treasury; then
/// with `Unauthorized`, `InvalidRarity`, `InvalidExpiry` or
/// `InvalidRewardAmount`, the first that applies; then with
/// `AirdropAlreadyExists` where a campaign has this id.
pub fn create_airdrop(
    ledger: &mut Ledger,
    authority: Pubkey,
    id: u64,
    latitude: i64,
    longitude: i64,
    reward_amount: u64,
    expiry_timestamp: i64,
    max_claims: u16,
    rarity: u8,
) -> (result: Result<(), LedgerError>)
    requires
        old(ledger).wf(),
    ensures
        final(ledger).wf(),
        match old(ledger)@.create_airdrop(
            authority,
            id,
            latitude,
            longitude,
            reward_amount,
            expiry_timestamp,
            max_claims,
            rarity,
        ) {
            Ok(next) => result.is_ok() && final(ledger)@ == next,
            Err(error) => result == Err::<(), LedgerError>(error) && final(ledger)@ == old(ledger)@,
        },
{
    let treasury = match ledger.treasury() {
        Some(treasury) => treasury,
        None => {
            return Err(LedgerError::TreasuryNotInitialized);
        },
    };
    let mut ctx = CreateAirdrop {
        airdrop: blank_airdrop(airdrop_address(id)),
        treasury,
        authority: Wallet { key: authority, lamports: ledger.balance(authority) },
        bumps: CreateAirdropBumps { airdrop: ADDRESS_BUMP },
        unix_timestamp: ledger.unix_timestamp(),
    };
    match instructions::create_airdrop::handler(
        &mut ctx,
        id,
        latitude,
        longitude,
        reward_amount,
        expiry_timestamp,
        max_claims,
        rarity,
    ) {
        Ok(()) => ledger.file_airdrop(ctx.airdrop),
        Err(error) => Err(LedgerError::Protocol(error)),
    }
}

/// Claims the reward of the campaign `airdrop_id` for `claimer`.
///
/// Refused with `UnknownAirdrop` where no campaign has this id; then with
/// `AirdropInactive`, `AirdropExpired`, `MaxClaimsReached`,
/// `InsufficientTreasuryFunds` or `AlreadyClaimed`, the first that applies.
pub fn claim_airdrop(ledger: &mut Ledger, airdrop_id: u64, claimer: Pubkey) -> (result: Result<
    (),
    LedgerError,
>)
    requires
        old(ledger).wf(),
    ensures
        final(ledger).wf(),
        match old(ledger)@.claim_airdrop(airdrop_id, claimer) {
            Ok(next) => result.is_ok() && final(ledger)@ == next,
            Err(error) => result == Err::<(), LedgerError>(error) && final(ledger)@ == old(ledger)@,
        },
{
    proof {
        ledger.lemma_wf();
    }
    let airdrop = match ledger.airdrop(airdrop_id) {
        Some(airdrop) => airdrop,
        None => {
            return Err(LedgerError::UnknownAirdrop);
        },
    };
    let treasury = match ledger.treasury() {
        Some(treasury) => treasury,
        None => {
            return Err(LedgerError::UnknownAirdrop);
        },
    };
    let mut ctx = ClaimAirdrop {
        airdrop,
        treasury,
        claim_receipt: ledger.claim_receipt(airdrop_id, claimer),
        claimer: Wallet { key: claimer, lamports: ledger.balance(claimer) },
        bumps: ClaimAirdropBumps { claim_receipt: ADDRESS_BUMP },
        unix_timestamp: ledger.unix_timestamp(),
        rent_minimum: ledger.rent_minimum(),
    };
    match instructions::claim_airdrop::handler(&mut ctx) {
        Ok(()) => {
            ledger.settle_claim(&ctx);
            Ok(())
        },
        Err(error) => Err(LedgerError::Protocol(error)),
    }
}

} // verus!
