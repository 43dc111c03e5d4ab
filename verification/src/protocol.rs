//! The protocol as a state machine: what a ledger holds, and what each
//! operation makes of it.

use vstd::prelude::*;
use crate::address::{airdrop_key, treasury_key, ADDRESS_BUMP};
use crate::errors::{LedgerError, SolDropError};
use crate::instructions::claim_airdrop::airdrop_after_claim;
use crate::validation::{claim_refusal, creation_refusal};
use crate::state::{Airdrop, ClaimReceipt, Pubkey, Record, Treasury};

verus! {

/// What a ledger holds.
pub struct LedgerState {
    /// The balance below which the treasury's record may not fall.
    pub rent_minimum: u64,
    /// The time.
    pub unix_timestamp: i64,
    /// The treasury, once it is initialized.
    pub treasury: Option<Record<Treasury>>,
    /// The campaigns, by their ids.
    pub airdrops: Map<u64, Record<Airdrop>>,
    /// The receipts, by the id of the campaign and the claimer.
    pub receipts: Map<(u64, Pubkey), ClaimReceipt>,
    /// The funds of every identity.
    pub balances: Map<Pubkey, nat>,
    /// All that was ever credited to an identity.
    pub supply: nat,
}

/// An operation on a ledger.
pub enum Operation {
    InitializeTreasury { authority: Pubkey, fund_amount: u64 },
    CreateAirdrop {
        authority: Pubkey,
        id: u64,
        latitude: i64,
        longitude: i64,
        reward_amount: u64,
        expiry_timestamp: i64,
        max_claims: u16,
        rarity: u8,
    },
    ClaimAirdrop { airdrop_id: u64, claimer: Pubkey },
    TopUp { from: Pubkey, lamports: u64 },
    AdvanceClock { unix_timestamp: i64 },
    Credit { who: Pubkey, lamports: u64 },
}

impl LedgerState {
    /// The ledger that holds nothing yet.
    pub open spec fn empty(rent_minimum: u64, unix_timestamp: i64) -> LedgerState {
        LedgerState {
            rent_minimum,
            unix_timestamp,
            treasury: None,
            airdrops: Map::empty(),
            receipts: Map::empty(),
            balances: Map::total(|who: Pubkey| 0nat),
            supply: 0,
        }
    }

    /// What holds of every ledger that began empty and has since changed
    /// only by operations: every identity has a balance; the treasury holds
    /// at least the balance it must keep; a campaign is filed under its own
    /// id and key, is well formed, and was created by the treasury's
    /// authority; a receipt belongs to a campaign that exists, names that
    /// campaign and its claimer, and was written before the campaign
    /// expired and not after the present time.
    pub open spec fn valid(self) -> bool {
        &&& forall|who: Pubkey| #[trigger] self.balances.contains_key(who)
        &&& self.treasury matches Some(treasury) ==> {
            &&& treasury.key == treasury_key()
            &&& treasury.data.bump == ADDRESS_BUMP
            &&& treasury.lamports >= self.rent_minimum
        }
        &&& forall|id: u64| #[trigger]
            self.airdrops.contains_key(id) ==> {
                &&& self.treasury.is_some()
                &&& self.airdrops[id].key == airdrop_key(id)
                &&& self.airdrops[id].data.id == id
                &&& self.airdrops[id].data.bump == ADDRESS_BUMP
                &&& self.airdrops[id].data.creator == self.treasury.unwrap().data.authority
                &&& self.airdrops[id].data.well_formed()
            }
        &&& forall|id: u64, claimer: Pubkey| #[trigger]
            self.receipts.contains_key((id, claimer)) ==> {
                &&& self.airdrops.contains_key(id)
                &&& self.receipts[(id, claimer)].airdrop == airdrop_key(id)
                &&& self.receipts[(id, claimer)].claimer == claimer
                &&& self.receipts[(id, claimer)].bump == ADDRESS_BUMP
                &&& self.receipts[(id, claimer)].claimed_at < self.airdrops[id].data.expiry_timestamp
                &&& self.receipts[(id, claimer)].claimed_at <= self.unix_timestamp
            }
    }

    /// Whether `later` may follow this ledger: the clock has not gone
    /// back, the treasury is still there under the same authority, every
    /// campaign is still there and has only counted claims, and every
    /// receipt is still there as it was written.
    pub open spec fn precedes(self, later: LedgerState) -> bool {
        &&& later.rent_minimum == self.rent_minimum
        &&& later.unix_timestamp >= self.unix_timestamp
        &&& later.supply >= self.supply
        &&& self.treasury matches Some(treasury) ==> {
            &&& later.treasury.is_some()
            &&& later.treasury.unwrap().key == treasury.key
            &&& later.treasury.unwrap().data == treasury.data
        }
        &&& forall|id: u64| #[trigger]
            self.airdrops.contains_key(id) ==> {
                &&& later.airdrops.contains_key(id)
                &&& later.airdrops[id].key == self.airdrops[id].key
                &&& self.airdrops[id].data.precedes(later.airdrops[id].data)
            }
        &&& forall|id: u64, claimer: Pubkey| #[trigger]
            self.receipts.contains_key((id, claimer)) ==> {
                &&& later.receipts.contains_key((id, claimer))
                &&& later.receipts[(id, claimer)] == self.receipts[(id, claimer)]
            }
    }

    /// The funds that the treasury holds; zero before it is initialized.
    pub open spec fn held(self) -> nat {
        match self.treasury {
            Some(treasury) => treasury.lamports as nat,
            None => 0,
        }
    }

    /// What an initialization with `fund_amount` takes from the authority:
    /// the balance that the treasury must keep, which its record holds from
    /// its creation, and the funding.
    pub open spec fn opening_balance(self, fund_amount: u64) -> nat {
        (self.rent_minimum + fund_amount) as nat
    }

    /// Initialization of the treasury by `authority`: its record is created
    /// holding the balance it must keep, and `fund_amount` is moved into it
    /// besides, both from the authority's funds. Refused where a treasury
    /// exists, and where the authority does not hold the two together or a
    /// record could not.
    pub open spec fn initialize_treasury(self, authority: Pubkey, fund_amount: u64) -> Result<
        LedgerState,
        LedgerError,
    > {
        if self.treasury.is_some() {
            Err(LedgerError::AlreadyInitialized)
        } else if self.balances[authority] < self.opening_balance(fund_amount)
            || self.opening_balance(fund_amount) > u64::MAX {
            Err(LedgerError::InsufficientFunds)
        } else {
            Ok(
                LedgerState {
                    treasury: Some(
                        Record {
                            key: treasury_key(),
                            lamports: self.opening_balance(fund_amount) as u64,
                            data: Treasury {
                                authority,
                                total_deposited: fund_amount,
                                bump: ADDRESS_BUMP,
                            },
                        },
                    ),
                    balances: self.balances.insert(
                        authority,
                        (self.balances[authority] - self.opening_balance(fund_amount)) as nat,
                    ),
                    ..self
                },
            )
        }
    }

    /// A deposit of `lamports` from the funds of `from` into the treasury;
    /// the treasury's own count of deposits stays as it is. Refused where
    /// there is no treasury, and where `from` does not hold the amount or
    /// the treasury's record could not hold the sum.
    pub open spec fn top_up(self, from: Pubkey, lamports: u64) -> Result<LedgerState, LedgerError> {
        match self.treasury {
            None => Err(LedgerError::TreasuryNotInitialized),
            Some(treasury) => if self.balances[from] < lamports || treasury.lamports + lamports
                > u64::MAX {
                Err(LedgerError::InsufficientFunds)
            } else {
                Ok(
                    LedgerState {
                        treasury: Some(
                            Record { lamports: (treasury.lamports + lamports) as u64, ..treasury },
                        ),
                        balances: self.balances.insert(
                            from,
                            (self.balances[from] - lamports) as nat,
                        ),
                        ..self
                    },
                )
            },
        }
    }

    /// Creation of a campaign by `authority`.
    pub open spec fn create_airdrop(
        self,
        authority: Pubkey,
        id: u64,
        latitude: i64,
        longitude: i64,
        reward_amount: u64,
        expiry_timestamp: i64,
        max_claims: u16,
        rarity: u8,
    ) -> Result<LedgerState, LedgerError> {
        match self.treasury {
            None => Err(LedgerError::TreasuryNotInitialized),
            Some(treasury) => match creation_refusal(
                authority,
                treasury.data.authority,
                self.unix_timestamp,
                reward_amount,
                expiry_timestamp,
                rarity,
            ) {
                Some(error) => Err(LedgerError::Protocol(error)),
                None => if self.airdrops.contains_key(id) {
                    Err(LedgerError::AirdropAlreadyExists)
                } else {
                    Ok(
                        LedgerState {
                            airdrops: self.airdrops.insert(
                                id,
                                Record {
                                    key: airdrop_key(id),
                                    lamports: 0,
                                    data: Airdrop {
                                        id,
                                        latitude,
                                        longitude,
                                        reward_amount,
                                        expiry_timestamp,
                                        max_claims,
                                        claims_count: 0,
                                        rarity,
                                        active: true,
                                        creator: authority,
                                        bump: ADDRESS_BUMP,
                                    },
                                },
                            ),
                            ..self
                        },
                    )
                },
            },
        }
    }

    /// The first check that a claim of campaign `airdrop_id` by `claimer`
    /// fails; `None` when it passes them all. The campaign and the treasury
    /// exist.
    pub open spec fn claim_refusal(self, airdrop_id: u64, claimer: Pubkey) -> Option<SolDropError> {
        claim_refusal(
            self.airdrops[airdrop_id].data,
            self.unix_timestamp,
            self.treasury.unwrap().lamports,
            self.rent_minimum,
            self.receipts.contains_key((airdrop_id, claimer)),
        )
    }

    /// A claim of the reward of campaign `airdrop_id` by `claimer`.
    pub open spec fn claim_airdrop(self, airdrop_id: u64, claimer: Pubkey) -> Result<
        LedgerState,
        LedgerError,
    > {
        if !self.airdrops.contains_key(airdrop_id) || self.treasury.is_none() {
            Err(LedgerError::UnknownAirdrop)
        } else {
            let airdrop = self.airdrops[airdrop_id];
            let treasury = self.treasury.unwrap();
            match self.claim_refusal(airdrop_id, claimer) {
                Some(error) => Err(LedgerError::Protocol(error)),
                None => Ok(
                    LedgerState {
                        treasury: Some(
                            Record {
                                lamports: (treasury.lamports - airdrop.data.reward_amount) as u64,
                                ..treasury
                            },
                        ),
                        airdrops: self.airdrops.insert(
                            airdrop_id,
                            Record { data: airdrop_after_claim(airdrop.data), ..airdrop },
                        ),
                        receipts: self.receipts.insert(
                            (airdrop_id, claimer),
                            ClaimReceipt {
                                airdrop: airdrop.key,
                                claimer,
                                claimed_at: self.unix_timestamp,
                                bump: ADDRESS_BUMP,
                            },
                        ),
                        balances: self.balances.insert(
                            claimer,
                            (self.balances[claimer] + airdrop.data.reward_amount) as nat,
                        ),
                        ..self
                    },
                ),
            }
        }
    }

    /// The ledger once the clock has been told the time `unix_timestamp`:
    /// the clock never goes back.
    pub open spec fn advance_clock(self, unix_timestamp: i64) -> LedgerState {
        if unix_timestamp > self.unix_timestamp {
            LedgerState { unix_timestamp, ..self }
        } else {
            self
        }
    }

    /// The ledger once `lamports` have been credited to `who`.
    pub open spec fn credit(self, who: Pubkey, lamports: u64) -> LedgerState {
        LedgerState {
            balances: self.balances.insert(who, (self.balances[who] + lamports) as nat),
            supply: (self.supply + lamports) as nat,
            ..self
        }
    }

    /// The ledger that `operation` leaves: unchanged where the operation
    /// is refused, and where a credit would take the supply past what
    /// sixty-four bits hold.
    pub open spec fn step(self, operation: Operation) -> LedgerState {
        match operation {
            Operation::InitializeTreasury { authority, fund_amount } => match self.initialize_treasury(
                authority,
                fund_amount,
            ) {
                Ok(next) => next,
                Err(_) => self,
            },
            Operation::CreateAirdrop {
                authority,
                id,
                latitude,
                longitude,
                reward_amount,
                expiry_timestamp,
                max_claims,
                rarity,
            } => match self.create_airdrop(
                authority,
                id,
                latitude,
                longitude,
                reward_amount,
                expiry_timestamp,
                max_claims,
                rarity,
            ) {
                Ok(next) => next,
                Err(_) => self,
            },
            Operation::ClaimAirdrop { airdrop_id, claimer } => match self.claim_airdrop(
                airdrop_id,
                claimer,
            ) {
                Ok(next) => next,
                Err(_) => self,
            },
            Operation::TopUp { from, lamports } => match self.top_up(from, lamports) {
                Ok(next) => next,
                Err(_) => self,
            },
            Operation::AdvanceClock { unix_timestamp } => self.advance_clock(unix_timestamp),
            Operation::Credit { who, lamports } => if self.supply + lamports <= u64::MAX {
                self.credit(who, lamports)
            } else {
                self
            },
        }
    }

    /// What `operation` pays out of the treasury: the reward of the
    /// campaign for a claim that succeeds, nothing otherwise.
    pub open spec fn payout(self, operation: Operation) -> nat {
        match operation {
            Operation::ClaimAirdrop { airdrop_id, claimer } => if self.claim_airdrop(
                airdrop_id,
                claimer,
            ).is_ok() {
                self.airdrops[airdrop_id].data.reward_amount as nat
            } else {
                0
            },
            _ => 0,
        }
    }

    /// What `operation` deposits into the treasury: the opening balance of
    /// an initialization that succeeds, the amount of a deposit that
    /// succeeds, nothing otherwise.
    pub open spec fn deposit(self, operation: Operation) -> nat {
        match operation {
            Operation::InitializeTreasury { authority, fund_amount } => if self.initialize_treasury(
                authority,
                fund_amount,
            ).is_ok() {
                self.opening_balance(fund_amount)
            } else {
                0
            },
            Operation::TopUp { from, lamports } => if self.top_up(from, lamports).is_ok() {
                lamports as nat
            } else {
                0
            },
            _ => 0,
        }
    }

    /// The ledger that the operations leave, carried out in their order.
    pub open spec fn run(self, operations: Seq<Operation>) -> LedgerState
        decreases operations.len(),
    {
        if operations.len() == 0 {
            self
        } else {
            self.run(operations.drop_last()).step(operations.last())
        }
    }

    /// All that the operations pay out of the treasury, carried out in
    /// their order.
    pub open spec fn paid(self, operations: Seq<Operation>) -> nat
        decreases operations.len(),
    {
        if operations.len() == 0 {
            0
        } else {
            self.paid(operations.drop_last()) + self.run(operations.drop_last()).payout(
                operations.last(),
            )
        }
    }

    /// All that the operations deposit into the treasury, carried out in
    /// their order.
    pub open spec fn deposited(self, operations: Seq<Operation>) -> nat
        decreases operations.len(),
    {
        if operations.len() == 0 {
            0
        } else {
            self.deposited(operations.drop_last()) + self.run(operations.drop_last()).deposit(
                operations.last(),
            )
        }
    }
}

/// One claim of campaign `airdrop_id` by each of `claimers`, in their order.
pub open spec fn claims_by(airdrop_id: u64, claimers: Seq<Pubkey>) -> Seq<Operation> {
    Seq::new(
        claimers.len(),
        |i: int| Operation::ClaimAirdrop { airdrop_id, claimer: claimers[i] },
    )
}

} // verus!
