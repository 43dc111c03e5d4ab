//! The creation of a campaign by the treasury's authority.

use vstd::prelude::*;
use crate::errors::SolDropError;
use crate::state::{Airdrop, Record, Treasury, Wallet};
use crate::validation::{check_creation, creation_refusal};

verus! {

/// The bumps of the keys that a creation derives.
#[derive(Clone, Copy, Debug, PartialEq, Eq)]
pub struct CreateAirdropBumps {
    pub airdrop: u8,
}

/// What a creation works on: the record to fill, the treasury, the caller
/// and the clock.
#[derive(Clone, Copy, Debug, PartialEq, Eq)]
pub struct CreateAirdrop {
    /// The record that receives the campaign.
    pub airdrop: Record<Airdrop>,
    /// The treasury, whose authority alone may create.
    pub treasury: Record<Treasury>,
    /// The caller.
    pub authority: Wallet,
    pub bumps: CreateAirdropBumps,
    /// The time of the creation.
    pub unix_timestamp: i64,
}

impl CreateAirdrop {
    /// The first check that a creation with these inputs fails; `None`
    /// when it passes them all.
    pub open spec fn refusal(self, reward_amount: u64, expiry_timestamp: i64, rarity: u8) -> Option<
        SolDropError,
    > {
        creation_refusal(
            self.authority.key,
            self.treasury.data.authority,
            self.unix_timestamp,
            reward_amount,
            expiry_timestamp,
            rarity,
        )
    }

    /// The campaign that a successful creation writes: the inputs as they
    /// were given, no claim counted, active, created by the caller.
    pub open spec fn created(
        self,
        id: u64,
        latitude: i64,
        longitude: i64,
        reward_amount: u64,
        expiry_timestamp: i64,
        max_claims: u16,
        rarity: u8,
    ) -> Airdrop {
        Airdrop {
            id,
            latitude,
            longitude,
            reward_amount,
            expiry_timestamp,
            max_claims,
            claims_count: 0,
            rarity,
            active: true,
            creator: self.authority.key,
            bump: self.bumps.airdrop,
        }
    }
}

/// Creates a campaign in `ctx.airdrop`.
///
/// The creation is refused with the first check it fails, and then nothing
/// is changed. Otherwise the record holds the campaign made of the inputs,
/// and nothing else is changed.
pub fn handler(
    ctx: &mut CreateAirdrop,
    id: u64,
    latitude: i64,
    longitude: i64,
    reward_amount: u64,
    expiry_timestamp: i64,
    max_claims: u16,
    rarity: u8,
) -> (result: Result<(), SolDropError>)
    ensures
        match old(ctx).refusal(reward_amount, expiry_timestamp, rarity) {
            Some(error) => result == Err::<(), SolDropError>(error) && *final(ctx) == *old(ctx),
            None => result.is_ok() && *final(ctx) == (CreateAirdrop {
                airdrop: Record {
                    data: old(ctx).created(
                        id,
                        latitude,
                        longitude,
                        reward_amount,
                        expiry_timestamp,
                        max_claims,
                        rarity,
                    ),
                    ..old(ctx).airdrop
                },
                ..*old(ctx)
            }),
        },
{
    check_creation(
        &ctx.authority.key,
        &ctx.treasury.data.authority,
        ctx.unix_timestamp,
        reward_amount,
        expiry_timestamp,
        rarity,
    )?;

    ctx.airdrop.data.id = id;
    ctx.airdrop.data.latitude = latitude;
    ctx.airdrop.data.longitude = longitude;
    ctx.airdrop.data.reward_amount = reward_amount;
    ctx.airdrop.data.expiry_timestamp = expiry_timestamp;
    ctx.airdrop.data.max_claims = max_claims;
    ctx.airdrop.data.claims_count = 0;
    ctx.airdrop.data.rarity = rarity;
    ctx.airdrop.data.active = true;
    ctx.airdrop.data.creator = ctx.authority.key;
    ctx.airdrop.data.bump = ctx.bumps.airdrop;
    Ok(())
}

} // verus!
