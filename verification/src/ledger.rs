//! A ledger: the store of records that the protocol works on. It files each
//! record under a key of its own, creates a record only where its key is
//! free, and keeps the funds of every identity.

use vstd::prelude::*;
use crate::address::{airdrop_key, treasury_key, ADDRESS_BUMP};
use crate::errors::LedgerError;
use crate::filing::{
    distinct, filed, holds, lemma_filed_at, lemma_filed_push, lemma_filed_update,
    lemma_total_bounds, lemma_total_push, lemma_total_update, total,
};
use crate::instructions::claim_airdrop::ClaimAirdrop;
use crate::instructions::initialize_treasury::Transfer;
use crate::laws::lemma_step_keeps_history;
use crate::protocol::{LedgerState, Operation};
use crate::state::{Airdrop, ClaimReceipt, Pubkey, Record, Treasury, Wallet};

verus! {

/// A receipt as the ledger files it: under the id of its campaign.
#[derive(Clone, Copy, Debug)]
struct Filed {
    airdrop_id: u64,
    receipt: ClaimReceipt,
}

/// The store of records, the wallets and the clock.
#[derive(Debug)]
pub struct Ledger {
    rent_minimum: u64,
    unix_timestamp: i64,
    treasury: Option<Record<Treasury>>,
    airdrops: Vec<Record<Airdrop>>,
    receipts: Vec<Filed>,
    wallets: Vec<Wallet>,
    supply: u64,
}

spec fn airdrop_id() -> spec_fn(Record<Airdrop>) -> u64 {
    |record: Record<Airdrop>| record.data.id
}

spec fn airdrop_record() -> spec_fn(Record<Airdrop>) -> Record<Airdrop> {
    |record: Record<Airdrop>| record
}

spec fn receipt_key() -> spec_fn(Filed) -> (u64, Pubkey) {
    |entry: Filed| (entry.airdrop_id, entry.receipt.claimer)
}

spec fn receipt_value() -> spec_fn(Filed) -> ClaimReceipt {
    |entry: Filed| entry.receipt
}

spec fn wallet_key() -> spec_fn(Wallet) -> Pubkey {
    |wallet: Wallet| wallet.key
}

spec fn wallet_funds() -> spec_fn(Wallet) -> nat {
    |wallet: Wallet| wallet.lamports as nat
}

/// The funds of every identity: those of its wallet, or nothing.
spec fn balances_of(wallets: Seq<Wallet>) -> Map<Pubkey, nat> {
    Map::total(
        |who: Pubkey|
            if holds(wallets, wallet_key(), who) {
                filed(wallets, wallet_key(), wallet_funds())[who]
            } else {
                0nat
            },
    )
}

impl View for Ledger {
    type V = LedgerState;

    closed spec fn view(&self) -> LedgerState {
        LedgerState {
            rent_minimum: self.rent_minimum,
            unix_timestamp: self.unix_timestamp,
            treasury: self.treasury,
            airdrops: filed(self.airdrops@, airdrop_id(), airdrop_record()),
            receipts: filed(self.receipts@, receipt_key(), receipt_value()),
            balances: balances_of(self.wallets@),
            supply: self.supply as nat,
        }
    }
}

impl Ledger {
    /// Whether the ledger is in order: no key is occupied twice, what it
    /// holds is valid, and the funds of the wallets and of the treasury
    /// together are what was credited.
    pub closed spec fn wf(&self) -> bool {
        &&& distinct(self.airdrops@, airdrop_id())
        &&& distinct(self.receipts@, receipt_key())
        &&& distinct(self.wallets@, wallet_key())
        &&& self.supply == total(self.wallets@) + self@.held()
        &&& self@.valid()
    }

    /// What a ledger in order holds is valid, and no identity and the
    /// treasury together hold more than was credited.
    pub proof fn lemma_wf(&self)
        requires
            self.wf(),
        ensures
            self@.valid(),
            self@.supply <= u64::MAX,
            forall|who: Pubkey| #[trigger] self@.balances[who] + self@.held() <= self@.supply,
    {
        assert forall|who: Pubkey| #[trigger] self@.balances[who] + self@.held()
            <= self@.supply by {
            self.lemma_balance(who);
        }
    }

    proof fn lemma_balance(&self, who: Pubkey)
        requires
            self.wf(),
        ensures
            self@.balances[who] <= total(self.wallets@),
    {
        if holds(self.wallets@, wallet_key(), who) {
            let i = choose|i: int|
                0 <= i < self.wallets@.len() && wallet_key()(#[trigger] self.wallets@[i]) == who;
            lemma_filed_at(self.wallets@, wallet_key(), wallet_funds(), i);
            lemma_total_bounds(self.wallets@, i);
        }
    }

    /// A ledger that holds nothing, with the balance that the treasury
    /// must keep and the time.
    pub fn new(rent_minimum: u64, unix_timestamp: i64) -> (ledger: Ledger)
        ensures
            ledger.wf(),
            ledger@ == LedgerState::empty(rent_minimum, unix_timestamp),
    {
        let ledger = Ledger {
            rent_minimum,
            unix_timestamp,
            treasury: None,
            airdrops: Vec::new(),
            receipts: Vec::new(),
            wallets: Vec::new(),
            supply: 0,
        };
        assert(ledger@.airdrops =~= Map::empty());
        assert(ledger@.receipts =~= Map::empty());
        assert(ledger@.balances =~= Map::total(|who: Pubkey| 0nat));
        ledger
    }

    /// The time.
    pub fn unix_timestamp(&self) -> (now: i64)
        ensures
            now == self@.unix_timestamp,
    {
        self.unix_timestamp
    }

    /// The balance that the treasury must keep.
    pub fn rent_minimum(&self) -> (minimum: u64)
        ensures
            minimum == self@.rent_minimum,
    {
        self.rent_minimum
    }

    /// All that was ever credited.
    pub fn supply(&self) -> (supply: u64)
        ensures
            supply == self@.supply,
    {
        self.supply
    }

    /// The treasury, once it is initialized.
    pub fn treasury(&self) -> (treasury: Option<Record<Treasury>>)
        ensures
            treasury == self@.treasury,
    {
        self.treasury
    }

    fn find_airdrop(&self, id: u64) -> (found: Option<usize>)
        ensures
            match found {
                Some(i) => i < self.airdrops.len() && self.airdrops[i as int].data.id == id,
                None => !holds(self.airdrops@, airdrop_id(), id),
            },
    {
        let mut i: usize = 0;
        while i < self.airdrops.len()
            invariant
                i <= self.airdrops.len(),
                forall|j: int| 0 <= j < i ==> self.airdrops[j].data.id != id,
            decreases self.airdrops.len() - i,
        {
            if self.airdrops[i].data.id == id {
                return Some(i);
            }
            i += 1;
        }
        None
    }

    fn find_receipt(&self, airdrop_id: u64, claimer: Pubkey) -> (found: Option<usize>)
        ensures
            match found {
                Some(i) => i < self.receipts.len() && receipt_key()(self.receipts[i as int]) == (
                    airdrop_id,
                    claimer,
                ),
                None => !holds(self.receipts@, receipt_key(), (airdrop_id, claimer)),
            },
    {
        let mut i: usize = 0;
        while i < self.receipts.len()
            invariant
                i <= self.receipts.len(),
                forall|j: int|
                    0 <= j < i ==> receipt_key()(self.receipts[j]) != (airdrop_id, claimer),
            decreases self.receipts.len() - i,
        {
            if self.receipts[i].airdrop_id == airdrop_id && self.receipts[i].receipt.claimer
                == claimer {
                return Some(i);
            }
            i += 1;
        }
        None
    }

    fn find_wallet(&self, who: Pubkey) -> (found: Option<usize>)
        ensures
            match found {
                Some(i) => i < self.wallets.len() && self.wallets[i as int].key == who,
                None => !holds(self.wallets@, wallet_key(), who),
            },
    {
        let mut i: usize = 0;
        while i < self.wallets.len()
            invariant
                i <= self.wallets.len(),
                forall|j: int| 0 <= j < i ==> self.wallets[j].key != who,
            decreases self.wallets.len() - i,
        {
            if self.wallets[i].key == who {
                return Some(i);
            }
            i += 1;
        }
        None
    }

    /// The campaign with the given id, if there is one.
    pub fn airdrop(&self, id: u64) -> (record: Option<Record<Airdrop>>)
        requires
            self.wf(),
        ensures
            record == self@.airdrops.get(id),
    {
        match self.find_airdrop(id) {
            Some(i) => {
                proof {
                    lemma_filed_at(self.airdrops@, airdrop_id(), airdrop_record(), i as int);
                }
                Some(self.airdrops[i])
            },
            None => None,
        }
    }

    /// The receipt of `claimer` for the campaign with the given id, if
    /// there is one.
    pub fn claim_receipt(&self, airdrop_id: u64, claimer: Pubkey) -> (receipt: Option<ClaimReceipt>)
        requires
            self.wf(),
        ensures
            receipt == self@.receipts.get((airdrop_id, claimer)),
    {
        match self.find_receipt(airdrop_id, claimer) {
            Some(i) => {
                proof {
                    lemma_filed_at(self.receipts@, receipt_key(), receipt_value(), i as int);
                }
                Some(self.receipts[i].receipt)
            },
            None => None,
        }
    }

    /// The funds of `who`.
    pub fn balance(&self, who: Pubkey) -> (lamports: u64)
        requires
            self.wf(),
        ensures
            lamports == self@.balances[who],
    {
        match self.find_wallet(who) {
            Some(i) => {
                proof {
                    lemma_filed_at(self.wallets@, wallet_key(), wallet_funds(), i as int);
                }
                self.wallets[i].lamports
            },
            None => 0,
        }
    }

    /// Sets the funds of `who`, in its wallet or in a new one.
    fn set_balance(&mut self, who: Pubkey, lamports: u64)
        requires
            distinct(old(self).wallets@, wallet_key()),
        ensures
            distinct(final(self).wallets@, wallet_key()),
            balances_of(final(self).wallets@) == balances_of(old(self).wallets@).insert(
                who,
                lamports as nat,
            ),
            total(final(self).wallets@) == total(old(self).wallets@) - balances_of(
                old(self).wallets@,
            )[who] + lamports,
            final(self).rent_minimum == old(self).rent_minimum,
            final(self).unix_timestamp == old(self).unix_timestamp,
            final(self).treasury == old(self).treasury,
            final(self).airdrops == old(self).airdrops,
            final(self).receipts == old(self).receipts,
            final(self).supply == old(self).supply,
    {
        let wallet = Wallet { key: who, lamports };
        let ghost before = self.wallets@;
        match self.find_wallet(who) {
            Some(i) => {
                proof {
                    lemma_filed_at(before, wallet_key(), wallet_funds(), i as int);
                    lemma_filed_update(before, wallet_key(), wallet_funds(), i as int, wallet);
                    lemma_total_update(before, i as int, wallet);
                }
                self.wallets.set(i, wallet);
            },
            None => {
                proof {
                    lemma_filed_push(before, wallet_key(), wallet_funds(), wallet);
                    lemma_total_push(before, wallet);
                }
                self.wallets.push(wallet);
            },
        }
        proof {
            let after = self.wallets@;
            assert forall|k: Pubkey| holds(after, wallet_key(), k) <==> (k == who || holds(
                before,
                wallet_key(),
                k,
            )) by {
                assert(filed(after, wallet_key(), wallet_funds()).contains_key(k) == holds(
                    after,
                    wallet_key(),
                    k,
                ));
            }
        }
    }

    /// Tells the clock the time: it moves forward to `unix_timestamp`, and
    /// stays where it is if that time is past.
    pub fn advance_clock(&mut self, unix_timestamp: i64)
        requires
            old(self).wf(),
        ensures
            final(self).wf(),
            final(self)@ == old(self)@.advance_clock(unix_timestamp),
    {
        proof {
            lemma_step_keeps_history(self@, Operation::AdvanceClock { unix_timestamp });
        }
        if unix_timestamp > self.unix_timestamp {
            self.unix_timestamp = unix_timestamp;
        }
    }

    /// Credits `lamports` to `who`, unless that would take the supply past
    /// what sixty-four bits hold: then nothing changes, and the result is
    /// `false`.
    pub fn credit(&mut self, who: Pubkey, lamports: u64) -> (credited: bool)
        requires
            old(self).wf(),
        ensures
            final(self).wf(),
            credited == (old(self)@.supply + lamports <= u64::MAX),
            final(self)@ == old(self)@.step(Operation::Credit { who, lamports }),
    {
        proof {
            lemma_step_keeps_history(self@, Operation::Credit { who, lamports });
            self.lemma_balance(who);
        }
        let supply: u64 = match self.supply.checked_add(lamports) {
            Some(supply) => supply,
            None => {
                return false;
            },
        };
        let funds = self.balance(who);
        self.set_balance(who, funds + lamports);
        self.supply = supply;
        true
    }

    /// Creates the treasury's record where its key is free, holding the
    /// balance it must keep at the payer's cost, and carries out the
    /// transfer that funds it; does none of this where the payer lacks the
    /// funds for all of it.
    pub(crate) fn open_treasury(&mut self, record: Record<Treasury>, funding: Option<Transfer>) -> (result:
        Result<(), LedgerError>)
        requires
            old(self).wf(),
            record.key == treasury_key(),
            record.lamports == old(self)@.rent_minimum,
            record.data.bump == ADDRESS_BUMP,
            funding == if record.data.total_deposited > 0 {
                Some(
                    Transfer {
                        from: record.data.authority,
                        to: record.key,
                        lamports: record.data.total_deposited,
                    },
                )
            } else {
                None
            },
        ensures
            final(self).wf(),
            match old(self)@.initialize_treasury(record.data.authority, record.data.total_deposited) {
                Ok(next) => result.is_ok() && final(self)@ == next,
                Err(error) => result == Err::<(), LedgerError>(error) && final(self)@ == old(self)@,
            },
    {
        proof {
            lemma_step_keeps_history(
                self@,
                Operation::InitializeTreasury {
                    authority: record.data.authority,
                    fund_amount: record.data.total_deposited,
                },
            );
            self.lemma_balance(record.data.authority);
        }
        if self.treasury.is_some() {
            return Err(LedgerError::AlreadyInitialized);
        }
        let payer = record.data.authority;
        let funded: u64 = match funding {
            Some(transfer) => transfer.lamports,
            None => 0,
        };
        let opening: u64 = match record.lamports.checked_add(funded) {
            Some(opening) => opening,
            None => {
                return Err(LedgerError::InsufficientFunds);
            },
        };
        let funds = self.balance(payer);
        if funds < opening {
            return Err(LedgerError::InsufficientFunds);
        }
        self.set_balance(payer, funds - opening);
        self.treasury = Some(Record { key: record.key, lamports: opening, data: record.data });
        Ok(())
    }

    /// Deposits `lamports` from the funds of `from` into the treasury.
    ///
    /// Refused with `TreasuryNotInitialized` where there is no treasury,
    /// and with `InsufficientFunds` where `from` holds less than
    /// `lamports`.
    pub fn top_up(&mut self, from: Pubkey, lamports: u64) -> (result: Result<(), LedgerError>)
        requires
            old(self).wf(),
        ensures
            final(self).wf(),
            match old(self)@.top_up(from, lamports) {
                Ok(next) => result.is_ok() && final(self)@ == next,
                Err(error) => result == Err::<(), LedgerError>(error) && final(self)@ == old(self)@,
            },
            old(self)@.treasury.is_some() && old(self)@.balances[from] >= lamports
                ==> result.is_ok(),
    {
        proof {
            lemma_step_keeps_history(self@, Operation::TopUp { from, lamports });
            self.lemma_balance(from);
        }
        let treasury = match self.treasury {
            Some(treasury) => treasury,
            None => {
                return Err(LedgerError::TreasuryNotInitialized);
            },
        };
        let funds = self.balance(from);
        if funds < lamports {
            return Err(LedgerError::InsufficientFunds);
        }
        self.set_balance(from, funds - lamports);
        self.treasury = Some(
            Record { key: treasury.key, lamports: treasury.lamports + lamports, data: treasury.data },
        );
        Ok(())
    }

    /// Files a new campaign where its id is free.
    pub(crate) fn file_airdrop(&mut self, record: Record<Airdrop>) -> (result: Result<(), LedgerError>)
        requires
            old(self).wf(),
            old(self)@.treasury.is_some(),
            record.data.creator == old(self)@.treasury.unwrap().data.authority,
            record.data.rarity <= 4,
            record.data.expiry_timestamp > old(self)@.unix_timestamp,
            record.data.reward_amount > 0,
            record.data.claims_count == 0,
            record.data.active,
            record.data.bump == ADDRESS_BUMP,
            record.key == airdrop_key(record.data.id),
            record.lamports == 0,
        ensures
            final(self).wf(),
            match old(self)@.create_airdrop(
                record.data.creator,
                record.data.id,
                record.data.latitude,
                record.data.longitude,
                record.data.reward_amount,
                record.data.expiry_timestamp,
                record.data.max_claims,
                record.data.rarity,
            ) {
                Ok(next) => result.is_ok() && final(self)@ == next,
                Err(error) => result == Err::<(), LedgerError>(error) && final(self)@ == old(self)@,
            },
    {
        proof {
            lemma_step_keeps_history(
                self@,
                Operation::CreateAirdrop {
                    authority: record.data.creator,
                    id: record.data.id,
                    latitude: record.data.latitude,
                    longitude: record.data.longitude,
                    reward_amount: record.data.reward_amount,
                    expiry_timestamp: record.data.expiry_timestamp,
                    max_claims: record.data.max_claims,
                    rarity: record.data.rarity,
                },
            );
        }
        match self.find_airdrop(record.data.id) {
            Some(i) => {
                proof {
                    lemma_filed_at(self.airdrops@, airdrop_id(), airdrop_record(), i as int);
                }
                Err(LedgerError::AirdropAlreadyExists)
            },
            None => {
                proof {
                    lemma_filed_push(self.airdrops@, airdrop_id(), airdrop_record(), record);
                }
                self.airdrops.push(record);
                Ok(())
            },
        }
    }

    /// Stores what a claim that passed every check has left: the campaign
    /// and the treasury as they now are, the new receipt, and the claimer's
    /// funds.
    pub(crate) fn settle_claim(&mut self, ctx: &ClaimAirdrop)
        requires
            old(self).wf(),
            old(self)@.claim_airdrop(ctx.airdrop.data.id, ctx.claimer.key) matches Ok(next) && {
                &&& next.airdrops[ctx.airdrop.data.id] == ctx.airdrop
                &&& next.treasury == Some(ctx.treasury)
                &&& ctx.claim_receipt == Some(next.receipts[(ctx.airdrop.data.id, ctx.claimer.key)])
                &&& next.balances[ctx.claimer.key] == ctx.claimer.lamports
            },
        ensures
            final(self).wf(),
            final(self)@ == old(self)@.claim_airdrop(ctx.airdrop.data.id, ctx.claimer.key).unwrap(),
    {
        let id = ctx.airdrop.data.id;
        let claimer = ctx.claimer.key;
        proof {
            lemma_step_keeps_history(self@, Operation::ClaimAirdrop { airdrop_id: id, claimer });
            self.lemma_balance(claimer);
        }
        let found = self.find_airdrop(id);
        let i = found.unwrap();
        let receipt = ctx.claim_receipt.unwrap();
        let entry = Filed { airdrop_id: id, receipt };
        proof {
            lemma_filed_at(self.airdrops@, airdrop_id(), airdrop_record(), i as int);
            lemma_filed_update(self.airdrops@, airdrop_id(), airdrop_record(), i as int, ctx.airdrop);
            lemma_filed_push(self.receipts@, receipt_key(), receipt_value(), entry);
        }
        self.airdrops.set(i, ctx.airdrop);
        self.receipts.push(entry);
        self.treasury = Some(ctx.treasury);
        self.set_balance(claimer, ctx.claimer.lamports);
    }
}

} // verus!
