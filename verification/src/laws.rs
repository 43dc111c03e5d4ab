//! What holds of the protocol, whatever operations are carried out and in
//! whatever order.

use vstd::prelude::*;
use crate::address::ADDRESS_BUMP;
use crate::errors::{LedgerError, SolDropError};
use crate::validation::claim_refusal;
use crate::protocol::{claims_by, LedgerState, Operation};
use crate::state::{Airdrop, Pubkey};

verus! {

/// The empty ledger is valid.
pub proof fn lemma_empty_is_valid(rent_minimum: u64, unix_timestamp: i64)
    ensures
        LedgerState::empty(rent_minimum, unix_timestamp).valid(),
{
}

/// An operation leaves a valid ledger valid, and takes nothing back: the
/// clock does not go back, the treasury keeps its authority, no campaign
/// and no receipt disappears, no count of claims falls, and no inactive
/// campaign becomes active.
pub proof fn lemma_step_keeps_history(state: LedgerState, operation: Operation)
    requires
        state.valid(),
    ensures
        state.step(operation).valid(),
        state.precedes(state.step(operation)),
{
}

/// Any operations, in any order, leave a valid ledger valid and take
/// nothing back.
pub proof fn lemma_run_keeps_history(state: LedgerState, operations: Seq<Operation>)
    requires
        state.valid(),
    ensures
        state.run(operations).valid(),
        state.precedes(state.run(operations)),
    decreases operations.len(),
{
    if operations.len() > 0 {
        lemma_run_keeps_history(state, operations.drop_last());
        lemma_step_keeps_history(state.run(operations.drop_last()), operations.last());
    }
}

/// A creation with valid inputs succeeds: by the treasury's authority,
/// with a rarity of at most 4, an expiry in the future, a reward that is
/// not zero, and an id that no campaign has. The new campaign holds the
/// inputs as they were given, counts no claim, is active, and names the
/// authority as its creator; nothing else in the ledger changes.
pub proof fn lemma_creation_stores_inputs(
    state: LedgerState,
    authority: Pubkey,
    id: u64,
    latitude: i64,
    longitude: i64,
    reward_amount: u64,
    expiry_timestamp: i64,
    max_claims: u16,
    rarity: u8,
)
    requires
        state.treasury.is_some(),
        authority == state.treasury.unwrap().data.authority,
        rarity <= 4,
        expiry_timestamp > state.unix_timestamp,
        reward_amount > 0,
        !state.airdrops.contains_key(id),
    ensures
        state.create_airdrop(
            authority,
            id,
            latitude,
            longitude,
            reward_amount,
            expiry_timestamp,
            max_claims,
            rarity,
        ) matches Ok(next) && {
            &&& next.airdrops.contains_key(id)
            &&& next.airdrops[id].data == (Airdrop {
                id,
                latitude,
                longitude,
                reward_amount,
                expiry_timestamp,
                max_claims,
                claims_count: 0,
                rarity,
                active: true,
                creator: authority,
                bump: ADDRESS_BUMP,
            })
            &&& next.airdrops.remove(id) == state.airdrops
            &&& next == LedgerState { airdrops: next.airdrops, ..state }
        },
{
}

/// A creation with a rarity above 4, a reward of zero, or an expiry that is
/// not in the future is refused and changes nothing. Made by the treasury's
/// authority, it is refused for the first of these that holds, in the order
/// rarity, expiry, reward.
pub proof fn lemma_creation_rejects_invalid_inputs(
    state: LedgerState,
    authority: Pubkey,
    id: u64,
    latitude: i64,
    longitude: i64,
    reward_amount: u64,
    expiry_timestamp: i64,
    max_claims: u16,
    rarity: u8,
)
    requires
        rarity > 4 || reward_amount == 0 || expiry_timestamp <= state.unix_timestamp,
    ensures
        state.create_airdrop(
            authority,
            id,
            latitude,
            longitude,
            reward_amount,
            expiry_timestamp,
            max_claims,
            rarity,
        ).is_err(),
        state.step(
            Operation::CreateAirdrop {
                authority,
                id,
                latitude,
                longitude,
                reward_amount,
                expiry_timestamp,
                max_claims,
                rarity,
            },
        ) == state,
        state.treasury.is_some() && authority == state.treasury.unwrap().data.authority
            ==> state.create_airdrop(
            authority,
            id,
            latitude,
            longitude,
            reward_amount,
            expiry_timestamp,
            max_claims,
            rarity,
        ) == Err::<LedgerState, LedgerError>(
            LedgerError::Protocol(
                if rarity > 4 {
                    SolDropError::InvalidRarity
                } else if expiry_timestamp <= state.unix_timestamp {
                    SolDropError::InvalidExpiry
                } else {
                    SolDropError::InvalidRewardAmount
                },
            ),
        ),
{
}

/// Once a claimer has claimed a campaign, no claim of that campaign by that
/// claimer succeeds again, whatever operations come in between. The later
/// claim is refused as a duplicate where the campaign would accept another
/// claimer, and for the reason that the campaign gives everyone where it
/// would not.
pub proof fn lemma_claim_at_most_once(
    state: LedgerState,
    airdrop_id: u64,
    claimer: Pubkey,
    operations: Seq<Operation>,
)
    requires
        state.valid(),
        state.claim_airdrop(airdrop_id, claimer).is_ok(),
    ensures
        ({
            let later = state.claim_airdrop(airdrop_id, claimer).unwrap().run(operations);
            &&& later.receipts.contains_key((airdrop_id, claimer))
            &&& later.claim_airdrop(airdrop_id, claimer) == Err::<LedgerState, LedgerError>(
                LedgerError::Protocol(
                    match claim_refusal(
                        later.airdrops[airdrop_id].data,
                        later.unix_timestamp,
                        later.treasury.unwrap().lamports,
                        later.rent_minimum,
                        false,
                    ) {
                        Some(error) => error,
                        None => SolDropError::AlreadyClaimed,
                    },
                ),
            )
        }),
{
    let claimed = state.claim_airdrop(airdrop_id, claimer).unwrap();
    lemma_step_keeps_history(state, Operation::ClaimAirdrop { airdrop_id, claimer });
    lemma_run_keeps_history(claimed, operations);
    assert(claimed.receipts.contains_key((airdrop_id, claimer)));
}

/// A claim of a campaign made at or after its expiry is refused as expired,
/// though capacity and funds remain, and so is every later claim, whatever
/// operations come in between: the campaign never changes again. (A campaign
/// that was exhausted before it expired refuses as inactive.)
pub proof fn lemma_expired_campaign_refuses(
    state: LedgerState,
    airdrop_id: u64,
    claimer: Pubkey,
    operations: Seq<Operation>,
)
    requires
        state.valid(),
        state.airdrops.contains_key(airdrop_id),
        state.unix_timestamp >= state.airdrops[airdrop_id].data.expiry_timestamp,
    ensures
        state.run(operations).airdrops.contains_key(airdrop_id),
        state.run(operations).airdrops[airdrop_id] == state.airdrops[airdrop_id],
        state.run(operations).claim_airdrop(airdrop_id, claimer) == Err::<LedgerState, LedgerError>(
            LedgerError::Protocol(
                if state.airdrops[airdrop_id].data.active {
                    SolDropError::AirdropExpired
                } else {
                    SolDropError::AirdropInactive
                },
            ),
        ),
    decreases operations.len(),
{
    lemma_run_keeps_history(state, operations);
    if operations.len() > 0 {
        lemma_expired_campaign_refuses(state, airdrop_id, claimer, operations.drop_last());
        lemma_run_keeps_history(state, operations.drop_last());
        match operations.last() {
            Operation::ClaimAirdrop { airdrop_id: other, claimer: who } => {
                if other == airdrop_id {
                    lemma_expired_campaign_refuses(state, airdrop_id, who, operations.drop_last());
                }
            },
            _ => {},
        }
    }
}

/// A campaign that has given its last claim is inactive for good: every
/// later claim is refused as inactive, whatever operations come in between.
pub proof fn lemma_exhausted_campaign_refuses(
    state: LedgerState,
    airdrop_id: u64,
    claimer: Pubkey,
    operations: Seq<Operation>,
)
    requires
        state.valid(),
        state.airdrops.contains_key(airdrop_id),
        !state.airdrops[airdrop_id].data.active,
    ensures
        state.run(operations).claim_airdrop(airdrop_id, claimer) == Err::<LedgerState, LedgerError>(
            LedgerError::Protocol(SolDropError::AirdropInactive),
        ),
{
    lemma_run_keeps_history(state, operations);
}

/// There is one treasury: once it is initialized, every later
/// initialization is refused, whatever operations come in between, and its
/// authority stays the one it was given.
pub proof fn lemma_treasury_is_initialized_once(
    state: LedgerState,
    operations: Seq<Operation>,
    authority: Pubkey,
    fund_amount: u64,
)
    requires
        state.valid(),
        state.treasury.is_some(),
    ensures
        state.run(operations).initialize_treasury(authority, fund_amount) == Err::<
            LedgerState,
            LedgerError,
        >(LedgerError::AlreadyInitialized),
        state.run(operations).treasury.unwrap().data == state.treasury.unwrap().data,
{
    lemma_run_keeps_history(state, operations);
}

/// Two claims that are not by one claimer of one campaign do not depend on
/// their order: if both succeed one way round, both succeed the other way
/// round, and they leave the same ledger.
pub proof fn lemma_claims_commute(
    state: LedgerState,
    first_id: u64,
    first_claimer: Pubkey,
    second_id: u64,
    second_claimer: Pubkey,
)
    requires
        state.valid(),
        (first_id, first_claimer) != (second_id, second_claimer),
        state.claim_airdrop(first_id, first_claimer).is_ok(),
        state.claim_airdrop(first_id, first_claimer).unwrap().claim_airdrop(
            second_id,
            second_claimer,
        ).is_ok(),
    ensures
        state.claim_airdrop(second_id, second_claimer).is_ok(),
        state.claim_airdrop(second_id, second_claimer).unwrap().claim_airdrop(
            first_id,
            first_claimer,
        ).is_ok(),
        state.claim_airdrop(second_id, second_claimer).unwrap().claim_airdrop(
            first_id,
            first_claimer,
        ).unwrap() == state.claim_airdrop(first_id, first_claimer).unwrap().claim_airdrop(
            second_id,
            second_claimer,
        ).unwrap(),
{
    let one = state.claim_airdrop(first_id, first_claimer).unwrap();
    let one_two = one.claim_airdrop(second_id, second_claimer).unwrap();
    let two = state.claim_airdrop(second_id, second_claimer).unwrap();
    let two_one = two.claim_airdrop(first_id, first_claimer).unwrap();
    assert(two_one.airdrops =~= one_two.airdrops);
    assert(two_one.receipts =~= one_two.receipts);
    assert(two_one.balances =~= one_two.balances);
}

/// The treasury pays out no more than was deposited into it, less the
/// balance it must keep. Whatever operations are carried out, what they
/// paid and what the treasury still holds make up what it held before and
/// what they deposited: its opening balance and the later deposits. While
/// there is no treasury nothing is paid, and once there is one it holds at
/// least the balance it must keep.
pub proof fn lemma_payouts_within_deposits(state: LedgerState, operations: Seq<Operation>)
    requires
        state.valid(),
    ensures
        state.paid(operations) + state.run(operations).held() == state.held() + state.deposited(
            operations,
        ),
        state.run(operations).treasury.is_none() ==> state.paid(operations) == 0,
        state.run(operations).treasury.is_some() ==> state.paid(operations) + state.rent_minimum
            <= state.held() + state.deposited(operations),
    decreases operations.len(),
{
    lemma_run_keeps_history(state, operations);
    if operations.len() > 0 {
        lemma_payouts_within_deposits(state, operations.drop_last());
        lemma_run_keeps_history(state, operations.drop_last());
        lemma_step_keeps_history(state.run(operations.drop_last()), operations.last());
    }
}

/// Whatever the funding, a treasury opens with the balance it must keep
/// and the funding besides, all of it taken from the authority: the whole
/// funding can be paid out, and no more.
pub proof fn lemma_funding_is_available(state: LedgerState, authority: Pubkey, fund_amount: u64)
    requires
        state.valid(),
        state.initialize_treasury(authority, fund_amount).is_ok(),
    ensures
        ({
            let next = state.initialize_treasury(authority, fund_amount).unwrap();
            &&& next.valid()
            &&& next.held() == state.rent_minimum + fund_amount
            &&& next.balances[authority] + state.rent_minimum + fund_amount
                == state.balances[authority]
            &&& next.treasury.unwrap().data.authority == authority
            &&& next.treasury.unwrap().data.total_deposited == fund_amount
        }),
{
    lemma_step_keeps_history(state, Operation::InitializeTreasury { authority, fund_amount });
}

/// A claim that the treasury could not pay is accepted once enough has
/// been deposited: after a deposit that leaves the reward above the balance
/// the treasury must keep, the same claim succeeds, unless the claimer holds
/// a receipt already and the claim is a duplicate.
pub proof fn lemma_claim_after_top_up(
    state: LedgerState,
    airdrop_id: u64,
    claimer: Pubkey,
    from: Pubkey,
    lamports: u64,
)
    requires
        state.valid(),
        state.claim_airdrop(airdrop_id, claimer) == Err::<LedgerState, LedgerError>(
            LedgerError::Protocol(SolDropError::InsufficientTreasuryFunds),
        ),
        state.top_up(from, lamports).is_ok(),
        state.held() + lamports - state.rent_minimum
            >= state.airdrops[airdrop_id].data.reward_amount,
    ensures
        ({
            let next = state.top_up(from, lamports).unwrap();
            &&& next.held() == state.held() + lamports
            &&& next.treasury.unwrap().data == state.treasury.unwrap().data
            &&& !state.receipts.contains_key((airdrop_id, claimer)) ==> next.claim_airdrop(
                airdrop_id,
                claimer,
            ).is_ok()
            &&& state.receipts.contains_key((airdrop_id, claimer)) ==> next.claim_airdrop(
                airdrop_id,
                claimer,
            ) == Err::<LedgerState, LedgerError>(
                LedgerError::Protocol(SolDropError::AlreadyClaimed),
            )
        }),
{
}

/// The smaller of two numbers.
pub open spec fn least(a: int, b: int) -> int {
    if a <= b {
        a
    } else {
        b
    }
}

/// A campaign gives exactly the claims it has left. Let distinct claimers
/// who hold no receipt claim one after the other, before the expiry and with
/// a treasury that can pay every claim that is left. Then a claim succeeds
/// exactly while claims are left; the campaign counts each success, and is
/// inactive from the last of them on; every claim after that is refused, as
/// inactive by a campaign that had a capacity and as out of claims by one
/// that never had any.
pub proof fn lemma_capacity_is_exact(
    state: LedgerState,
    airdrop_id: u64,
    claimers: Seq<Pubkey>,
    attempt: int,
)
    requires
        state.valid(),
        state.airdrops.contains_key(airdrop_id),
        state.unix_timestamp < state.airdrops[airdrop_id].data.expiry_timestamp,
        forall|i: int, j: int| 0 <= i < j < claimers.len() ==> claimers[i] != claimers[j],
        forall|i: int|
            0 <= i < claimers.len() ==> !state.receipts.contains_key((airdrop_id, #[trigger] claimers[i])),
        state.held() - state.rent_minimum >= (state.airdrops[airdrop_id].data.max_claims
            - state.airdrops[airdrop_id].data.claims_count)
            * state.airdrops[airdrop_id].data.reward_amount,
        0 <= attempt <= claimers.len(),
    ensures
        ({
            let campaign = state.airdrops[airdrop_id].data;
            let left = campaign.max_claims - campaign.claims_count;
            let given = least(attempt, left);
            let before = state.run(claims_by(airdrop_id, claimers).take(attempt));
            &&& before.valid()
            &&& before.airdrops.contains_key(airdrop_id)
            &&& before.airdrops[airdrop_id].data == (Airdrop {
                claims_count: (campaign.claims_count + given) as u16,
                active: given < left || campaign.max_claims == 0,
                ..campaign
            })
            &&& before.held() == state.held() - given * campaign.reward_amount
            &&& before.unix_timestamp == state.unix_timestamp
            &&& before.rent_minimum == state.rent_minimum
            &&& forall|i: int|
                attempt <= i < claimers.len() ==> !before.receipts.contains_key(
                    (airdrop_id, #[trigger] claimers[i]),
                )
            &&& attempt < claimers.len() ==> {
                let result = before.claim_airdrop(airdrop_id, claimers[attempt]);
                &&& attempt < left ==> result.is_ok()
                &&& attempt >= left ==> result == Err::<LedgerState, LedgerError>(
                    LedgerError::Protocol(
                        if campaign.max_claims == 0 {
                            SolDropError::MaxClaimsReached
                        } else {
                            SolDropError::AirdropInactive
                        },
                    ),
                )
            }
        }),
    decreases attempt,
{
    let campaign = state.airdrops[airdrop_id].data;
    let left = campaign.max_claims - campaign.claims_count;
    let reward = campaign.reward_amount as int;
    let operations = claims_by(airdrop_id, claimers);
    if attempt > 0 {
        let earlier = attempt - 1;
        lemma_capacity_is_exact(state, airdrop_id, claimers, earlier);
        let before = state.run(operations.take(earlier));
        let given = least(earlier, left);
        assert(operations.take(attempt).drop_last() =~= operations.take(earlier));
        lemma_step_keeps_history(
            before,
            Operation::ClaimAirdrop { airdrop_id, claimer: claimers[earlier] },
        );
        assert((given + 1) * reward == given * reward + reward) by (nonlinear_arith);
    }
    let given = least(attempt, left);
    if attempt < left {
        assert((left - given) * reward >= reward) by (nonlinear_arith)
            requires
                left - given >= 1,
                reward >= 0,
        ;
        assert(left * reward == given * reward + (left - given) * reward) by (nonlinear_arith);
    }
}

} // verus!
