use soldrop::address::{airdrop_address, treasury_address, ADDRESS_BUMP};
use soldrop::errors::{LedgerError, SolDropError};
use soldrop::ledger::Ledger;
use soldrop::state::{Airdrop, ClaimReceipt, Pubkey, Record, Treasury};
use soldrop::{claim_airdrop, create_airdrop, initialize_treasury};

const NOW: i64 = 1_700_000_000;
const UNIT: u64 = 1_000_000_000;
const RENT: u64 = 1_231_920;

fn key(tag: u8) -> Pubkey {
    Pubkey::new_from_array([tag; 32])
}

fn admin() -> Pubkey {
    key(1)
}

/// A ledger whose treasury was funded with `funds` above the balance it
/// must keep, under the authority of `admin()`, who holds nothing more.
fn funded(rent_minimum: u64, funds: u64) -> Ledger {
    let mut ledger = Ledger::new(rent_minimum, NOW);
    assert!(ledger.credit(admin(), rent_minimum + funds));
    assert_eq!(initialize_treasury(&mut ledger, admin(), funds), Ok(()));
    assert_eq!(ledger.balance(admin()), 0);
    ledger
}

fn refused(error: SolDropError) -> Result<(), LedgerError> {
    Err(LedgerError::Protocol(error))
}

#[test]
fn new_ledger_holds_nothing() {
    let ledger = Ledger::new(890_880, NOW);
    assert_eq!(ledger.rent_minimum(), 890_880);
    assert_eq!(ledger.unix_timestamp(), NOW);
    assert_eq!(ledger.supply(), 0);
    assert_eq!(ledger.treasury(), None);
    assert_eq!(ledger.airdrop(1), None);
    assert_eq!(ledger.claim_receipt(1, key(2)), None);
    assert_eq!(ledger.balance(key(2)), 0);
}

#[test]
fn credit_adds_to_a_wallet_and_to_the_supply() {
    let mut ledger = Ledger::new(0, NOW);
    assert!(ledger.credit(key(2), 5));
    assert!(ledger.credit(key(3), 7));
    assert!(ledger.credit(key(2), 11));
    assert_eq!(ledger.balance(key(2)), 16);
    assert_eq!(ledger.balance(key(3)), 7);
    assert_eq!(ledger.balance(key(4)), 0);
    assert_eq!(ledger.supply(), 23);
}

#[test]
fn credit_stops_at_the_largest_supply() {
    let mut ledger = Ledger::new(0, NOW);
    assert!(ledger.credit(key(2), u64::MAX - 1));
    assert!(!ledger.credit(key(3), 2));
    assert_eq!(ledger.balance(key(3)), 0);
    assert_eq!(ledger.supply(), u64::MAX - 1);
    assert!(ledger.credit(key(3), 1));
    assert_eq!(ledger.balance(key(3)), 1);
    assert_eq!(ledger.supply(), u64::MAX);
    assert!(ledger.credit(key(3), 0));
    assert!(!ledger.credit(key(2), 1));
}

#[test]
fn clock_only_moves_forward() {
    let mut ledger = Ledger::new(0, NOW);
    ledger.advance_clock(NOW + 10);
    assert_eq!(ledger.unix_timestamp(), NOW + 10);
    ledger.advance_clock(NOW + 5);
    assert_eq!(ledger.unix_timestamp(), NOW + 10);
    ledger.advance_clock(NOW + 10);
    assert_eq!(ledger.unix_timestamp(), NOW + 10);
}

#[test]
fn initialization_moves_the_funds_into_the_treasury() {
    let mut ledger = Ledger::new(RENT, NOW);
    assert!(ledger.credit(admin(), 12 * UNIT));
    assert_eq!(initialize_treasury(&mut ledger, admin(), 10 * UNIT), Ok(()));
    assert_eq!(
        ledger.treasury(),
        Some(Record {
            key: treasury_address(),
            lamports: RENT + 10 * UNIT,
            data: Treasury { authority: admin(), total_deposited: 10 * UNIT, bump: ADDRESS_BUMP },
        })
    );
    assert_eq!(ledger.balance(admin()), 2 * UNIT - RENT);
    assert_eq!(ledger.supply(), 12 * UNIT);
}

#[test]
fn funded_treasury_holds_the_funding_above_its_minimum() {
    let mut ledger = Ledger::new(1_000_000, NOW);
    assert!(ledger.credit(admin(), 10_001_000_000));
    assert_eq!(initialize_treasury(&mut ledger, admin(), 10_000_000_000), Ok(()));
    let treasury = ledger.treasury().unwrap();
    assert_eq!(treasury.data.authority, admin());
    assert_eq!(treasury.data.total_deposited, 10_000_000_000);
    assert_eq!(treasury.lamports, 10_001_000_000);
    assert_eq!(treasury.lamports - ledger.rent_minimum(), 10_000_000_000);
    assert_eq!(ledger.balance(admin()), 0);
}

#[test]
fn unfunded_treasury_holds_exactly_its_minimum() {
    let mut ledger = Ledger::new(1_000_000, NOW);
    assert!(ledger.credit(admin(), 1_500_000));
    assert_eq!(initialize_treasury(&mut ledger, admin(), 0), Ok(()));
    let treasury = ledger.treasury().unwrap();
    assert_eq!(treasury.data.authority, admin());
    assert_eq!(treasury.data.total_deposited, 0);
    assert_eq!(treasury.lamports, 1_000_000);
    assert_eq!(treasury.lamports - ledger.rent_minimum(), 0);
    assert_eq!(ledger.balance(admin()), 500_000);
}

#[test]
fn initialization_without_minimum_or_funds_moves_nothing() {
    let mut ledger = Ledger::new(0, NOW);
    assert_eq!(initialize_treasury(&mut ledger, admin(), 0), Ok(()));
    let treasury = ledger.treasury().unwrap();
    assert_eq!(treasury.lamports, 0);
    assert_eq!(treasury.data.total_deposited, 0);
    assert_eq!(treasury.data.authority, admin());
    assert_eq!(ledger.balance(admin()), 0);
}

#[test]
fn second_initialization_fails() {
    let mut ledger = funded(RENT, 10 * UNIT);
    assert!(ledger.credit(key(9), 2 * UNIT));
    assert_eq!(
        initialize_treasury(&mut ledger, key(9), UNIT),
        Err(LedgerError::AlreadyInitialized)
    );
    assert_eq!(
        initialize_treasury(&mut ledger, admin(), 0),
        Err(LedgerError::AlreadyInitialized)
    );
    assert_eq!(ledger.treasury().unwrap().data.authority, admin());
    assert_eq!(ledger.treasury().unwrap().lamports, RENT + 10 * UNIT);
    assert_eq!(ledger.balance(key(9)), 2 * UNIT);
}

#[test]
fn initialization_needs_the_minimum_and_the_funds() {
    let mut ledger = Ledger::new(100, NOW);
    assert!(ledger.credit(admin(), 105));
    assert_eq!(
        initialize_treasury(&mut ledger, admin(), 6),
        Err(LedgerError::InsufficientFunds)
    );
    assert_eq!(ledger.treasury(), None);
    assert_eq!(ledger.balance(admin()), 105);
    assert_eq!(initialize_treasury(&mut ledger, admin(), 5), Ok(()));
    assert_eq!(ledger.balance(admin()), 0);
    assert_eq!(ledger.treasury().unwrap().lamports, 105);
}

#[test]
fn initialization_needs_the_minimum_even_without_funds() {
    let mut ledger = Ledger::new(100, NOW);
    assert!(ledger.credit(admin(), 99));
    assert_eq!(
        initialize_treasury(&mut ledger, admin(), 0),
        Err(LedgerError::InsufficientFunds)
    );
    assert_eq!(ledger.treasury(), None);
    assert_eq!(ledger.balance(admin()), 99);
}

#[test]
fn initialization_beyond_what_a_record_holds_fails() {
    let mut ledger = Ledger::new(u64::MAX, NOW);
    assert!(ledger.credit(admin(), u64::MAX));
    assert_eq!(
        initialize_treasury(&mut ledger, admin(), 1),
        Err(LedgerError::InsufficientFunds)
    );
    assert_eq!(ledger.treasury(), None);
    assert_eq!(initialize_treasury(&mut ledger, admin(), 0), Ok(()));
    assert_eq!(ledger.treasury().unwrap().lamports, u64::MAX);
}

#[test]
fn creation_files_the_campaign_as_given() {
    let mut ledger = funded(RENT, 10 * UNIT);
    let result = create_airdrop(
        &mut ledger,
        admin(),
        42,
        40_748_817,
        -73_985_428,
        250_000_000,
        NOW + 60,
        9,
        1,
    );
    assert_eq!(result, Ok(()));
    assert_eq!(
        ledger.airdrop(42),
        Some(Record {
            key: airdrop_address(42),
            lamports: 0,
            data: Airdrop {
                id: 42,
                latitude: 40_748_817,
                longitude: -73_985_428,
                reward_amount: 250_000_000,
                expiry_timestamp: NOW + 60,
                max_claims: 9,
                claims_count: 0,
                rarity: 1,
                active: true,
                creator: admin(),
                bump: ADDRESS_BUMP,
            },
        })
    );
    assert_eq!(ledger.airdrop(43), None);
    assert_eq!(ledger.treasury().unwrap().lamports, RENT + 10 * UNIT);
}

#[test]
fn creation_needs_a_treasury() {
    let mut ledger = Ledger::new(0, NOW);
    assert_eq!(
        create_airdrop(&mut ledger, admin(), 1, 0, 0, UNIT, NOW + 60, 1, 0),
        Err(LedgerError::TreasuryNotInitialized)
    );
    assert_eq!(
        create_airdrop(&mut ledger, admin(), 1, 0, 0, 0, NOW, 1, 9),
        Err(LedgerError::TreasuryNotInitialized)
    );
}

#[test]
fn creation_is_for_the_authority_alone() {
    let mut ledger = funded(RENT, 10 * UNIT);
    assert_eq!(
        create_airdrop(&mut ledger, key(9), 1, 0, 0, UNIT, NOW + 60, 1, 0),
        refused(SolDropError::Unauthorized)
    );
    assert_eq!(ledger.airdrop(1), None);
}

#[test]
fn creation_rejects_invalid_inputs() {
    let mut ledger = funded(RENT, 10 * UNIT);
    assert_eq!(
        create_airdrop(&mut ledger, admin(), 1, 0, 0, UNIT, NOW + 60, 1, 5),
        refused(SolDropError::InvalidRarity)
    );
    assert_eq!(
        create_airdrop(&mut ledger, admin(), 1, 0, 0, UNIT, NOW, 1, 4),
        refused(SolDropError::InvalidExpiry)
    );
    assert_eq!(
        create_airdrop(&mut ledger, admin(), 1, 0, 0, 0, NOW + 60, 1, 4),
        refused(SolDropError::InvalidRewardAmount)
    );
    assert_eq!(ledger.airdrop(1), None);
    ledger.advance_clock(NOW + 60);
    assert_eq!(
        create_airdrop(&mut ledger, admin(), 1, 0, 0, UNIT, NOW + 60, 1, 4),
        refused(SolDropError::InvalidExpiry)
    );
    assert_eq!(create_airdrop(&mut ledger, admin(), 1, 0, 0, UNIT, NOW + 61, 1, 4), Ok(()));
}

#[test]
fn campaign_ids_are_unique() {
    let mut ledger = funded(RENT, 10 * UNIT);
    assert_eq!(create_airdrop(&mut ledger, admin(), 1, 5, 6, UNIT, NOW + 60, 1, 3), Ok(()));
    assert_eq!(
        create_airdrop(&mut ledger, admin(), 1, 7, 8, 2 * UNIT, NOW + 90, 2, 4),
        Err(LedgerError::AirdropAlreadyExists)
    );
    assert_eq!(ledger.airdrop(1).unwrap().data.latitude, 5);
    assert_eq!(ledger.airdrop(1).unwrap().data.reward_amount, UNIT);
    assert_eq!(
        create_airdrop(&mut ledger, admin(), 1, 7, 8, 0, NOW + 90, 2, 4),
        refused(SolDropError::InvalidRewardAmount)
    );
    assert_eq!(create_airdrop(&mut ledger, admin(), 2, 7, 8, 2 * UNIT, NOW + 90, 2, 4), Ok(()));
}

#[test]
fn claim_of_an_unknown_campaign_fails() {
    let mut ledger = Ledger::new(0, NOW);
    assert_eq!(claim_airdrop(&mut ledger, 1, key(2)), Err(LedgerError::UnknownAirdrop));
    let mut ledger = funded(RENT, 10 * UNIT);
    assert_eq!(claim_airdrop(&mut ledger, 1, key(2)), Err(LedgerError::UnknownAirdrop));
}

#[test]
fn whale_campaign_gives_three_claims() {
    let mut ledger = funded(RENT, 10 * UNIT);
    assert_eq!(
        create_airdrop(&mut ledger, admin(), 1, 0, 0, 2 * UNIT, NOW + 3600, 3, 4),
        Ok(())
    );
    let claimers = [key(2), key(3), key(4)];
    for (n, claimer) in claimers.iter().enumerate() {
        assert_eq!(claim_airdrop(&mut ledger, 1, *claimer), Ok(()));
        let campaign = ledger.airdrop(1).unwrap().data;
        assert_eq!(campaign.claims_count as usize, n + 1);
        assert_eq!(campaign.active, n + 1 < 3);
        assert_eq!(ledger.balance(*claimer), 2 * UNIT);
        assert_eq!(
            ledger.treasury().unwrap().lamports,
            RENT + 10 * UNIT - 2 * UNIT * (n as u64 + 1)
        );
        assert_eq!(
            ledger.claim_receipt(1, *claimer),
            Some(ClaimReceipt {
                airdrop: airdrop_address(1),
                claimer: *claimer,
                claimed_at: NOW,
                bump: ADDRESS_BUMP,
            })
        );
    }
    assert!(!ledger.airdrop(1).unwrap().data.active);
    assert_eq!(ledger.airdrop(1).unwrap().data.claims_count, 3);

    // The campaign is exhausted: it refuses a fourth claimer, and the first
    // three, as inactive.
    assert_eq!(claim_airdrop(&mut ledger, 1, key(5)), refused(SolDropError::AirdropInactive));
    assert_eq!(ledger.balance(key(5)), 0);
    assert_eq!(ledger.claim_receipt(1, key(5)), None);
    for claimer in claimers.iter() {
        assert_eq!(claim_airdrop(&mut ledger, 1, *claimer), refused(SolDropError::AirdropInactive));
        assert_eq!(ledger.balance(*claimer), 2 * UNIT);
    }
    assert_eq!(ledger.treasury().unwrap().lamports, RENT + 4 * UNIT);
    assert_eq!(ledger.treasury().unwrap().data.total_deposited, 10 * UNIT);
    assert_eq!(ledger.supply(), RENT + 10 * UNIT);
}

#[test]
fn whole_funding_is_paid_out_above_the_minimum() {
    let mut ledger = funded(1_000_000, 6 * UNIT);
    assert_eq!(
        create_airdrop(&mut ledger, admin(), 1, 0, 0, 2 * UNIT, NOW + 3600, 3, 4),
        Ok(())
    );
    assert_eq!(claim_airdrop(&mut ledger, 1, key(2)), Ok(()));
    assert_eq!(claim_airdrop(&mut ledger, 1, key(3)), Ok(()));
    assert_eq!(claim_airdrop(&mut ledger, 1, key(4)), Ok(()));
    assert_eq!(ledger.balance(key(2)), 2 * UNIT);
    assert_eq!(ledger.balance(key(3)), 2 * UNIT);
    assert_eq!(ledger.balance(key(4)), 2 * UNIT);
    assert_eq!(ledger.treasury().unwrap().lamports, 1_000_000);
    assert_eq!(ledger.airdrop(1).unwrap().data.claims_count, 3);
    assert!(!ledger.airdrop(1).unwrap().data.active);
}

#[test]
fn second_claim_by_the_same_claimer_is_a_duplicate() {
    let mut ledger = funded(RENT, 10 * UNIT);
    assert_eq!(create_airdrop(&mut ledger, admin(), 1, 0, 0, UNIT, NOW + 3600, 3, 3), Ok(()));
    assert_eq!(claim_airdrop(&mut ledger, 1, key(2)), Ok(()));
    assert_eq!(claim_airdrop(&mut ledger, 1, key(2)), refused(SolDropError::AlreadyClaimed));
    assert_eq!(claim_airdrop(&mut ledger, 1, key(3)), Ok(()));
    ledger.advance_clock(NOW + 100);
    assert_eq!(claim_airdrop(&mut ledger, 1, key(2)), refused(SolDropError::AlreadyClaimed));
    assert_eq!(claim_airdrop(&mut ledger, 1, key(3)), refused(SolDropError::AlreadyClaimed));
    assert_eq!(ledger.balance(key(2)), UNIT);
    assert_eq!(ledger.balance(key(3)), UNIT);
    assert_eq!(ledger.airdrop(1).unwrap().data.claims_count, 2);
    assert_eq!(ledger.claim_receipt(1, key(2)).unwrap().claimed_at, NOW);
    assert_eq!(ledger.treasury().unwrap().lamports, RENT + 8 * UNIT);
}

#[test]
fn one_claimer_may_claim_different_campaigns() {
    let mut ledger = funded(RENT, 10 * UNIT);
    assert_eq!(create_airdrop(&mut ledger, admin(), 1, 0, 0, UNIT, NOW + 3600, 3, 3), Ok(()));
    assert_eq!(create_airdrop(&mut ledger, admin(), 2, 0, 0, 3 * UNIT, NOW + 3600, 3, 4), Ok(()));
    assert_eq!(claim_airdrop(&mut ledger, 1, key(2)), Ok(()));
    assert_eq!(claim_airdrop(&mut ledger, 2, key(2)), Ok(()));
    assert_eq!(ledger.balance(key(2)), 4 * UNIT);
    assert_eq!(ledger.claim_receipt(1, key(2)).unwrap().airdrop, airdrop_address(1));
    assert_eq!(ledger.claim_receipt(2, key(2)).unwrap().airdrop, airdrop_address(2));
    assert_eq!(ledger.airdrop(1).unwrap().data.claims_count, 1);
    assert_eq!(ledger.airdrop(2).unwrap().data.claims_count, 1);
}

#[test]
fn capacity_of_two_serves_the_first_two_of_four() {
    let mut ledger = funded(RENT, 10 * UNIT);
    assert_eq!(create_airdrop(&mut ledger, admin(), 1, 0, 0, UNIT, NOW + 3600, 2, 0), Ok(()));
    let results: Vec<Result<(), LedgerError>> =
        [key(2), key(3), key(4), key(5)].iter().map(|c| claim_airdrop(&mut ledger, 1, *c)).collect();
    assert_eq!(
        results,
        vec![
            Ok(()),
            Ok(()),
            refused(SolDropError::AirdropInactive),
            refused(SolDropError::AirdropInactive),
        ]
    );
    assert_eq!(ledger.airdrop(1).unwrap().data.claims_count, 2);
    assert!(!ledger.airdrop(1).unwrap().data.active);
    assert_eq!(ledger.treasury().unwrap().lamports, RENT + 8 * UNIT);
}

#[test]
fn campaign_without_capacity_serves_nobody() {
    let mut ledger = funded(RENT, 10 * UNIT);
    assert_eq!(create_airdrop(&mut ledger, admin(), 1, 0, 0, UNIT, NOW + 3600, 0, 0), Ok(()));
    assert_eq!(claim_airdrop(&mut ledger, 1, key(2)), refused(SolDropError::MaxClaimsReached));
    assert!(ledger.airdrop(1).unwrap().data.active);
    assert_eq!(ledger.airdrop(1).unwrap().data.claims_count, 0);
}

#[test]
fn claim_at_or_after_expiry_fails() {
    let mut ledger = funded(RENT, 10 * UNIT);
    assert_eq!(create_airdrop(&mut ledger, admin(), 1, 0, 0, UNIT, NOW + 3600, 5, 0), Ok(()));
    ledger.advance_clock(NOW + 3599);
    assert_eq!(claim_airdrop(&mut ledger, 1, key(2)), Ok(()));
    ledger.advance_clock(NOW + 3600);
    assert_eq!(claim_airdrop(&mut ledger, 1, key(3)), refused(SolDropError::AirdropExpired));
    assert_eq!(claim_airdrop(&mut ledger, 1, key(2)), refused(SolDropError::AirdropExpired));
    ledger.advance_clock(NOW + 99_999);
    assert_eq!(claim_airdrop(&mut ledger, 1, key(3)), refused(SolDropError::AirdropExpired));
    let campaign = ledger.airdrop(1).unwrap().data;
    assert!(campaign.active);
    assert_eq!(campaign.claims_count, 1);
    assert_eq!(ledger.treasury().unwrap().lamports, RENT + 9 * UNIT);
}

#[test]
fn payouts_stop_at_the_rent_minimum() {
    let mut ledger = funded(RENT, 2 * UNIT + 5);
    assert_eq!(create_airdrop(&mut ledger, admin(), 1, 0, 0, UNIT, NOW + 3600, 9, 3), Ok(()));
    assert_eq!(claim_airdrop(&mut ledger, 1, key(2)), Ok(()));
    assert_eq!(claim_airdrop(&mut ledger, 1, key(3)), Ok(()));
    assert_eq!(
        claim_airdrop(&mut ledger, 1, key(4)),
        refused(SolDropError::InsufficientTreasuryFunds)
    );
    let paid = ledger.balance(key(2)) + ledger.balance(key(3)) + ledger.balance(key(4));
    assert_eq!(paid, 2 * UNIT);
    assert!(paid <= (RENT + 2 * UNIT + 5) - RENT);
    assert_eq!(ledger.treasury().unwrap().lamports, RENT + 5);
    assert!(ledger.airdrop(1).unwrap().data.active);
    assert_eq!(ledger.airdrop(1).unwrap().data.claims_count, 2);
}

#[test]
fn unfunded_treasury_pays_nothing() {
    let mut ledger = funded(1_000, 0);
    assert_eq!(create_airdrop(&mut ledger, admin(), 1, 0, 0, 1, NOW + 3600, 9, 0), Ok(()));
    assert_eq!(
        claim_airdrop(&mut ledger, 1, key(2)),
        refused(SolDropError::InsufficientTreasuryFunds)
    );
    assert_eq!(ledger.balance(key(2)), 0);
    assert_eq!(ledger.treasury().unwrap().lamports, 1_000);
}

#[test]
fn exact_available_balance_pays_the_last_claim() {
    let mut ledger = funded(1_000, UNIT);
    assert_eq!(create_airdrop(&mut ledger, admin(), 1, 0, 0, UNIT, NOW + 3600, 9, 0), Ok(()));
    assert_eq!(claim_airdrop(&mut ledger, 1, key(2)), Ok(()));
    assert_eq!(ledger.treasury().unwrap().lamports, 1_000);
    assert_eq!(
        claim_airdrop(&mut ledger, 1, key(3)),
        refused(SolDropError::InsufficientTreasuryFunds)
    );
}

#[test]
fn top_up_moves_funds_into_the_treasury() {
    let mut ledger = funded(RENT, UNIT);
    assert!(ledger.credit(key(7), 5 * UNIT));
    assert_eq!(ledger.top_up(key(7), 3 * UNIT), Ok(()));
    assert_eq!(ledger.treasury().unwrap().lamports, RENT + 4 * UNIT);
    assert_eq!(ledger.treasury().unwrap().data.total_deposited, UNIT);
    assert_eq!(ledger.treasury().unwrap().data.authority, admin());
    assert_eq!(ledger.balance(key(7)), 2 * UNIT);
    assert_eq!(ledger.supply(), RENT + 6 * UNIT);
    assert_eq!(ledger.top_up(key(7), 0), Ok(()));
    assert_eq!(ledger.treasury().unwrap().lamports, RENT + 4 * UNIT);
}

#[test]
fn top_up_needs_a_treasury_and_the_funds() {
    let mut ledger = Ledger::new(RENT, NOW);
    assert!(ledger.credit(key(7), UNIT));
    assert_eq!(ledger.top_up(key(7), 1), Err(LedgerError::TreasuryNotInitialized));
    assert_eq!(ledger.balance(key(7)), UNIT);
    let mut ledger = funded(RENT, UNIT);
    assert!(ledger.credit(key(7), 10));
    assert_eq!(ledger.top_up(key(7), 11), Err(LedgerError::InsufficientFunds));
    assert_eq!(ledger.top_up(key(8), 1), Err(LedgerError::InsufficientFunds));
    assert_eq!(ledger.balance(key(7)), 10);
    assert_eq!(ledger.treasury().unwrap().lamports, RENT + UNIT);
    assert_eq!(ledger.top_up(key(7), 10), Ok(()));
    assert_eq!(ledger.balance(key(7)), 0);
}

#[test]
fn claim_succeeds_after_a_top_up() {
    let mut ledger = funded(RENT, UNIT);
    assert_eq!(create_airdrop(&mut ledger, admin(), 1, 0, 0, UNIT, NOW + 3600, 9, 3), Ok(()));
    assert_eq!(claim_airdrop(&mut ledger, 1, key(2)), Ok(()));
    assert_eq!(
        claim_airdrop(&mut ledger, 1, key(3)),
        refused(SolDropError::InsufficientTreasuryFunds)
    );
    assert!(ledger.credit(key(7), UNIT));
    assert_eq!(ledger.top_up(key(7), UNIT - 1), Ok(()));
    assert_eq!(
        claim_airdrop(&mut ledger, 1, key(3)),
        refused(SolDropError::InsufficientTreasuryFunds)
    );
    assert_eq!(ledger.top_up(key(7), 1), Ok(()));
    assert_eq!(claim_airdrop(&mut ledger, 1, key(3)), Ok(()));
    assert_eq!(ledger.balance(key(3)), UNIT);
    assert_eq!(ledger.treasury().unwrap().lamports, RENT);
    assert_eq!(claim_airdrop(&mut ledger, 1, key(2)), refused(SolDropError::InsufficientTreasuryFunds));
}

#[test]
fn claimer_with_the_rest_of_the_supply_can_still_claim() {
    let mut ledger = Ledger::new(0, NOW);
    assert!(ledger.credit(admin(), UNIT));
    assert!(ledger.credit(key(2), u64::MAX - UNIT));
    assert_eq!(initialize_treasury(&mut ledger, admin(), UNIT), Ok(()));
    assert_eq!(create_airdrop(&mut ledger, admin(), 1, 0, 0, UNIT, NOW + 3600, 1, 0), Ok(()));
    assert_eq!(claim_airdrop(&mut ledger, 1, key(2)), Ok(()));
    assert_eq!(ledger.balance(key(2)), u64::MAX);
    assert_eq!(ledger.treasury().unwrap().lamports, 0);
}

#[test]
fn authority_may_claim_like_anyone() {
    let mut ledger = funded(RENT, 10 * UNIT);
    assert!(ledger.credit(admin(), 7));
    assert_eq!(create_airdrop(&mut ledger, admin(), 1, 0, 0, UNIT, NOW + 3600, 1, 0), Ok(()));
    assert_eq!(claim_airdrop(&mut ledger, 1, admin()), Ok(()));
    assert_eq!(ledger.balance(admin()), UNIT + 7);
}
