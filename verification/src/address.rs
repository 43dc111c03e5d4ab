//! The keys under which a ledger files its records.
//!
//! A key is written out from the record's namespace and the fields that
//! identify it, so that two records share a key only if they are the same
//! record. No search takes place, and every key carries the same bump.

use vstd::prelude::*;
use vstd::bytes::{lemma_auto_spec_u64_to_from_le_bytes, spec_u64_to_le_bytes, u64_to_le_bytes};
use crate::state::Pubkey;

verus! {

/// The bump of every key of this scheme.
pub const ADDRESS_BUMP: u8 = 255;

/// The key of the treasury: the letters of `treasury`, then zeros.
pub open spec fn treasury_key() -> Pubkey {
    Pubkey {
        bytes: [
            0x74, 0x72, 0x65, 0x61, 0x73, 0x75, 0x72, 0x79,
            0, 0, 0, 0, 0, 0, 0, 0,
            0, 0, 0, 0, 0, 0, 0, 0,
            0, 0, 0, 0, 0, 0, 0, 0,
        ],
    }
}

/// The key of the campaign with the given id: the letters of `airdrop`,
/// then zeros, then the id in eight bytes, the lowest first.
pub open spec fn airdrop_key(id: u64) -> Pubkey {
    let le = spec_u64_to_le_bytes(id);
    Pubkey {
        bytes: [
            0x61, 0x69, 0x72, 0x64, 0x72, 0x6f, 0x70, 0,
            0, 0, 0, 0, 0, 0, 0, 0,
            0, 0, 0, 0, 0, 0, 0, 0,
            le[0], le[1], le[2], le[3], le[4], le[5], le[6], le[7],
        ],
    }
}

/// Returns the key of the treasury.
pub fn treasury_address() -> (key: Pubkey)
    ensures
        key == treasury_key(),
{
    Pubkey {
        bytes: [
            0x74, 0x72, 0x65, 0x61, 0x73, 0x75, 0x72, 0x79,
            0, 0, 0, 0, 0, 0, 0, 0,
            0, 0, 0, 0, 0, 0, 0, 0,
            0, 0, 0, 0, 0, 0, 0, 0,
        ],
    }
}

/// Returns the key of the campaign with the given id.
pub fn airdrop_address(id: u64) -> (key: Pubkey)
    ensures
        key == airdrop_key(id),
{
    proof {
        lemma_auto_spec_u64_to_from_le_bytes();
    }
    let le = u64_to_le_bytes(id);
    Pubkey {
        bytes: [
            0x61, 0x69, 0x72, 0x64, 0x72, 0x6f, 0x70, 0,
            0, 0, 0, 0, 0, 0, 0, 0,
            0, 0, 0, 0, 0, 0, 0, 0,
            le[0], le[1], le[2], le[3], le[4], le[5], le[6], le[7],
        ],
    }
}

/// Two campaigns with one key are one campaign, and no campaign has the
/// treasury's key.
pub proof fn lemma_keys_distinct(a: u64, b: u64)
    ensures
        airdrop_key(a) == airdrop_key(b) ==> a == b,
        airdrop_key(a) != treasury_key(),
{
    lemma_auto_spec_u64_to_from_le_bytes();
    if airdrop_key(a) == airdrop_key(b) {
        assert(spec_u64_to_le_bytes(a) =~= spec_u64_to_le_bytes(b));
    }
}

} // verus!
