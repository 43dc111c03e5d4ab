//! The claim: one claimer takes the reward of one campaign, once.

use vstd::prelude::*;
use crate::errors::SolDropError;
use crate::state::{Airdrop, ClaimReceipt, Record, Treasury, Wallet};
use crate::validation::{check_claim, claim_refusal};

verus! {

/// The bumps of the keys that a claim derives.
#[derive(Clone, Copy, Debug, PartialEq, Eq)]
pub struct ClaimAirdropBumps {
    pub claim_receipt: u8,
}

/// What a claim works on: the records and the wallet it reads and changes,
/// the clock, and the balance that the treasury must keep.
#[derive(Clone, Copy, Debug, PartialEq, Eq)]
pub struct ClaimAirdrop {
    /// The campaign claimed from.
    pub airdrop: Record<Airdrop>,
    /// The treasury that pays.
    pub treasury: Record<Treasury>,
    /// What the key of this claimer's receipt for this campaign holds:
    /// `None` while it is unoccupied.
    pub claim_receipt: Option<ClaimReceipt>,
    /// The identity that claims, with its funds.
    pub claimer: Wallet,
    pub bumps: ClaimAirdropBumps,
    /// The time of the claim.
    pub unix_timestamp: i64,
    /// The balance below which the treasury's record may not fall.
    pub rent_minimum: u64,
}

/// A campaign after one more claim: the count is one higher, and the
/// campaign is inactive from the claim that uses up the capacity.
pub open spec fn airdrop_after_claim(airdrop: Airdrop) -> Airdrop {
    Airdrop {
        claims_count: (airdrop.claims_count + 1) as u16,
        active: airdrop.claims_count + 1 < airdrop.max_claims,
        ..airdrop
    }
}

impl ClaimAirdrop {
    /// The first check that this claim fails; `None` when it passes them
    /// all.
    pub open spec fn refusal(self) -> Option<SolDropError> {
        claim_refusal(
            self.airdrop.data,
            self.unix_timestamp,
            self.treasury.lamports,
            self.rent_minimum,
            self.claim_receipt.is_some(),
        )
    }

    /// The receipt that a successful claim writes.
    pub open spec fn receipt(self) -> ClaimReceipt {
        ClaimReceipt {
            airdrop: self.airdrop.key,
            claimer: self.claimer.key,
            claimed_at: self.unix_timestamp,
            bump: self.bumps.claim_receipt,
        }
    }

    /// What a claim that passes every check leaves: the reward has moved
    /// from the treasury to the claimer, the campaign counts one more claim,
    /// and the receipt exists.
    pub open spec fn claimed(self) -> ClaimAirdrop {
        ClaimAirdrop {
            airdrop: Record { data: airdrop_after_claim(self.airdrop.data), ..self.airdrop },
            treasury: Record {
                lamports: (self.treasury.lamports - self.airdrop.data.reward_amount) as u64,
                ..self.treasury
            },
            claim_receipt: Some(self.receipt()),
            claimer: Wallet {
                lamports: (self.claimer.lamports + self.airdrop.data.reward_amount) as u64,
                ..self.claimer
            },
            ..self
        }
    }
}

/// Claims the reward of `ctx.airdrop` for `ctx.claimer`.
///
/// The claim is refused with the first check it fails, and then nothing is
/// changed. Otherwise the reward moves from the treasury to the claimer,
/// the campaign counts the claim, and the receipt is written.
pub fn handler(ctx: &mut ClaimAirdrop) -> (result: Result<(), SolDropError>)
    requires
        old(ctx).refusal().is_none() ==> old(ctx).claimer.lamports + old(ctx).airdrop.data.reward_amount
            <= u64::MAX,
    ensures
        match old(ctx).refusal() {
            Some(error) => result == Err::<(), SolDropError>(error) && *final(ctx) == *old(ctx),
            None => result.is_ok() && *final(ctx) == old(ctx).claimed(),
        },
{
    check_claim(
        &ctx.airdrop.data,
        ctx.unix_timestamp,
        ctx.treasury.lamports,
        ctx.rent_minimum,
        ctx.claim_receipt.is_some(),
    )?;
    let claims_count: u16 = match ctx.airdrop.data.claims_count.checked_add(1) {
        Some(claims_count) => claims_count,
        None => {
            return Err(SolDropError::ArithmeticOverflow);
        },
    };

    ctx.treasury.lamports = ctx.treasury.lamports - ctx.airdrop.data.reward_amount;
    ctx.claimer.lamports = ctx.claimer.lamports + ctx.airdrop.data.reward_amount;

    ctx.airdrop.data.claims_count = claims_count;
    if ctx.airdrop.data.claims_count >= ctx.airdrop.data.max_claims {
        ctx.airdrop.data.active = false;
    }

    ctx.claim_receipt = Some(
        ClaimReceipt {
            airdrop: ctx.airdrop.key,
            claimer: ctx.claimer.key,
            claimed_at: ctx.unix_timestamp,
            bump: ctx.bumps.claim_receipt,
        },
    );
    Ok(())
}

} // verus!
