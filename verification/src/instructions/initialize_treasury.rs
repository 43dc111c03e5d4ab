//! The initialization of the treasury.

use vstd::prelude::*;
use crate::state::{Pubkey, Record, Treasury, Wallet};

verus! {

/// The bumps of the keys that an initialization derives.
#[derive(Clone, Copy, Debug, PartialEq, Eq)]
pub struct InitializeTreasuryBumps {
    pub treasury: u8,
}

/// What an initialization works on: the record to fill and the identity
/// that becomes the authority.
#[derive(Clone, Copy, Debug, PartialEq, Eq)]
pub struct InitializeTreasury {
    /// The record that receives the treasury, as it was created: it
    /// holds the balance that it must keep, and nothing is written in it.
    pub treasury: Record<Treasury>,
    /// The caller, who becomes the authority and funds the treasury.
    pub authority: Wallet,
    pub bumps: InitializeTreasuryBumps,
}

/// An amount to be moved from the funds of one key to those of another.
#[derive(Clone, Copy, Debug, PartialEq, Eq)]
pub struct Transfer {
    pub from: Pubkey,
    pub to: Pubkey,
    pub lamports: u64,
}

impl InitializeTreasury {
    /// The treasury that an initialization writes.
    pub open spec fn initialized(self, fund_amount: u64) -> Treasury {
        Treasury {
            authority: self.authority.key,
            total_deposited: fund_amount,
            bump: self.bumps.treasury,
        }
    }

    /// The transfer that funds the treasury: none for an amount of zero.
    pub open spec fn funding(self, fund_amount: u64) -> Option<Transfer> {
        if fund_amount > 0 {
            Some(Transfer { from: self.authority.key, to: self.treasury.key, lamports: fund_amount })
        } else {
            None
        }
    }
}

/// Fills `ctx.treasury` with a treasury under the caller's authority, and
/// returns the transfer that funds it, which is the caller's to carry out
/// together with this change or not at all.
pub fn handler(ctx: &mut InitializeTreasury, fund_amount: u64) -> (funding: Option<Transfer>)
    ensures
        funding == old(ctx).funding(fund_amount),
        *final(ctx) == (InitializeTreasury {
            treasury: Record { data: old(ctx).initialized(fund_amount), ..old(ctx).treasury },
            ..*old(ctx)
        }),
{
    ctx.treasury.data.authority = ctx.authority.key;
    ctx.treasury.data.total_deposited = fund_amount;
    ctx.treasury.data.bump = ctx.bumps.treasury;

    if fund_amount > 0 {
        Some(Transfer { from: ctx.authority.key, to: ctx.treasury.key, lamports: fund_amount })
    } else {
        None
    }
}

} // verus!
