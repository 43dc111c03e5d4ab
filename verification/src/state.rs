//! The records that the protocol keeps, and the identities that own them.

use vstd::prelude::*;

verus! {

/// Bytes that a stored treasury occupies: an eight-byte tag, the authority,
/// the deposit counter and the bump.
pub const TREASURY_SIZE: usize = 8 + 32 + 8 + 1;

/// Bytes that a stored campaign occupies: an eight-byte tag, five
/// eight-byte numbers, two two-byte counters, the rarity, the active flag,
/// the creator and the bump.
pub const AIRDROP_SIZE: usize = 8 + 8 + 8 + 8 + 8 + 8 + 2 + 2 + 1 + 1 + 32 + 1;

/// Bytes that a stored claim receipt occupies: an eight-byte tag, two
/// references, the time of the claim and the bump.
pub const CLAIM_RECEIPT_SIZE: usize = 8 + 32 + 32 + 8 + 1;

/// An identity: thirty-two bytes that name a caller or a record.
#[derive(Clone, Copy, Debug, Eq, Hash)]
pub struct Pubkey {
    pub bytes: [u8; 32],
}

impl PartialEq for Pubkey {
    fn eq(&self, other: &Pubkey) -> (same: bool) {
        let mut i: usize = 0;
        while i < 32
            invariant
                i <= 32,
                forall|j: int| 0 <= j < i ==> self.bytes[j] == other.bytes[j],
            decreases 32 - i,
        {
            if self.bytes[i] != other.bytes[i] {
                return false;
            }
            i += 1;
        }
        assert(self.bytes =~= other.bytes);
        true
    }
}

impl vstd::std_specs::cmp::PartialEqSpecImpl for Pubkey {
    open spec fn obeys_eq_spec() -> bool {
        true
    }

    open spec fn eq_spec(&self, other: &Pubkey) -> bool {
        *self == *other
    }
}

impl Pubkey {
    /// The identity made of the given bytes.
    pub fn new_from_array(bytes: [u8; 32]) -> (key: Pubkey)
        ensures
            key.bytes == bytes,
    {
        Pubkey { bytes }
    }

    /// The bytes of this identity.
    pub fn to_bytes(&self) -> (bytes: [u8; 32])
        ensures
            bytes == self.bytes,
    {
        self.bytes
    }
}

/// The five rarity tiers of a campaign, from the most common to the rarest.
#[derive(Clone, Copy, Debug, PartialEq, Eq, Structural)]
pub enum Rarity {
    Fish,
    Turtle,
    Dolphin,
    Shark,
    Whale,
}

/// The default reward of a rarity tier given by its number, in the smallest
/// currency unit; zero for a number that names no tier.
pub open spec fn tier_reward(tier: int) -> int {
    if tier == 0 {
        100_000_000
    } else if tier == 1 {
        250_000_000
    } else if tier == 2 {
        500_000_000
    } else if tier == 3 {
        1_000_000_000
    } else if tier == 4 {
        2_000_000_000
    } else {
        0
    }
}

impl Rarity {
    /// The number of this tier, from 0 for `Fish` to 4 for `Whale`.
    pub open spec fn tier(self) -> int {
        match self {
            Rarity::Fish => 0,
            Rarity::Turtle => 1,
            Rarity::Dolphin => 2,
            Rarity::Shark => 3,
            Rarity::Whale => 4,
        }
    }

    /// The default reward of this tier, in the smallest currency unit.
    pub fn reward_lamports(&self) -> (reward: u64)
        ensures
            reward == tier_reward(self.tier()),
    {
        match self {
            Rarity::Fish => 100_000_000,
            Rarity::Turtle => 250_000_000,
            Rarity::Dolphin => 500_000_000,
            Rarity::Shark => 1_000_000_000,
            Rarity::Whale => 2_000_000_000,
        }
    }

    /// The tier with the given number, if there is one.
    pub fn from_u8(tier: u8) -> (rarity: Option<Rarity>)
        ensures
            tier <= 4 ==> rarity.is_some() && rarity.unwrap().tier() == tier,
            tier > 4 ==> rarity.is_none(),
    {
        if tier == 0 {
            Some(Rarity::Fish)
        } else if tier == 1 {
            Some(Rarity::Turtle)
        } else if tier == 2 {
            Some(Rarity::Dolphin)
        } else if tier == 3 {
            Some(Rarity::Shark)
        } else if tier == 4 {
            Some(Rarity::Whale)
        } else {
            None
        }
    }

    /// The number of this tier.
    pub fn to_u8(&self) -> (tier: u8)
        ensures
            tier == self.tier(),
    {
        match self {
            Rarity::Fish => 0,
            Rarity::Turtle => 1,
            Rarity::Dolphin => 2,
            Rarity::Shark => 3,
            Rarity::Whale => 4,
        }
    }
}

/// The singleton pool that backs every payout. The funds themselves are held
/// by the record that carries this value, not by a field of it.
#[derive(Clone, Copy, Debug, PartialEq, Eq)]
pub struct Treasury {
    /// The identity that may create campaigns.
    pub authority: Pubkey,
    /// What was deposited at initialization; advisory only.
    pub total_deposited: u64,
    /// The bump of the treasury's key.
    pub bump: u8,
}

/// A campaign: a reward offered at a place, to a bounded number of claimers,
/// until a time.
#[derive(Clone, Copy, Debug, PartialEq, Eq)]
pub struct Airdrop {
    /// The campaign's unique number.
    pub id: u64,
    /// Degrees of latitude times 1,000,000.
    pub latitude: i64,
    /// Degrees of longitude times 1,000,000.
    pub longitude: i64,
    /// What one claim pays, in the smallest currency unit.
    pub reward_amount: u64,
    /// The time from which no claim is accepted.
    pub expiry_timestamp: i64,
    /// How many claims the campaign gives.
    pub max_claims: u16,
    /// How many claims it has given.
    pub claims_count: u16,
    /// The rarity tier, 0 to 4.
    pub rarity: u8,
    /// Whether the campaign still has a claim to give.
    pub active: bool,
    /// The authority that created the campaign.
    pub creator: Pubkey,
    /// The bump of the campaign's key.
    pub bump: u8,
}

impl Airdrop {
    /// What holds of every campaign that the protocol created and has
    /// since changed only by claims: the tier and the reward are valid, the
    /// count never passes the capacity, and the campaign is inactive
    /// exactly when a capacity of at least one has been used up.
    pub open spec fn well_formed(self) -> bool {
        &&& self.rarity <= 4
        &&& self.reward_amount > 0
        &&& self.claims_count <= self.max_claims
        &&& self.active <==> (self.claims_count < self.max_claims || self.max_claims == 0)
    }

    /// Whether `later` is this campaign after some claims: what the
    /// creation fixed is as it was, the count is no lower, and a campaign
    /// that was inactive still is.
    pub open spec fn precedes(self, later: Airdrop) -> bool {
        &&& later.id == self.id
        &&& later.latitude == self.latitude
        &&& later.longitude == self.longitude
        &&& later.reward_amount == self.reward_amount
        &&& later.expiry_timestamp == self.expiry_timestamp
        &&& later.max_claims == self.max_claims
        &&& later.rarity == self.rarity
        &&& later.creator == self.creator
        &&& later.bump == self.bump
        &&& later.claims_count >= self.claims_count
        &&& !self.active ==> !later.active
    }
}

/// The proof that a claimer has taken the reward of a campaign.
#[derive(Clone, Copy, Debug, PartialEq, Eq)]
pub struct ClaimReceipt {
    /// The key of the campaign.
    pub airdrop: Pubkey,
    /// The identity that claimed.
    pub claimer: Pubkey,
    /// The time of the claim.
    pub claimed_at: i64,
    /// The bump of the receipt's key.
    pub bump: u8,
}

/// A record as the store of records holds it: its key, the funds it holds,
/// and its value.
#[derive(Debug, PartialEq, Eq)]
pub struct Record<T> {
    pub key: Pubkey,
    pub lamports: u64,
    pub data: T,
}

impl<T: Copy> Clone for Record<T> {
    fn clone(&self) -> (copy: Self)
        ensures
            copy == *self,
    {
        *self
    }
}

impl<T: Copy> Copy for Record<T> {

}

/// An identity together with the funds it holds.
#[derive(Clone, Copy, Debug, PartialEq, Eq)]
pub struct Wallet {
    pub key: Pubkey,
    pub lamports: u64,
}

} // verus!
