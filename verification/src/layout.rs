//! The bytes in which the records are stored: each field in its order,
//! numbers with the lowest byte first, a flag as one byte that is 0 or 1.
//! A stored record begins with a tag of eight bytes that is not part of
//! these.

use vstd::prelude::*;
use vstd::bytes::{
    lemma_auto_spec_u16_to_from_le_bytes, lemma_auto_spec_u64_to_from_le_bytes,
    spec_u16_from_le_bytes, spec_u16_to_le_bytes, spec_u64_from_le_bytes, spec_u64_to_le_bytes,
    u16_from_le_bytes, u16_to_le_bytes, u64_from_le_bytes, u64_to_le_bytes,
};
use vstd::slice::slice_subrange;
use crate::state::{
    Airdrop, ClaimReceipt, Pubkey, Treasury, AIRDROP_SIZE, CLAIM_RECEIPT_SIZE, TREASURY_SIZE,
};

verus! {

/// The identity made of the first thirty-two of the given bytes.
pub open spec fn pubkey_of(bytes: Seq<u8>) -> Pubkey {
    Pubkey {
        bytes: [
            bytes[0],
            bytes[1],
            bytes[2],
            bytes[3],
            bytes[4],
            bytes[5],
            bytes[6],
            bytes[7],
            bytes[8],
            bytes[9],
            bytes[10],
            bytes[11],
            bytes[12],
            bytes[13],
            bytes[14],
            bytes[15],
            bytes[16],
            bytes[17],
            bytes[18],
            bytes[19],
            bytes[20],
            bytes[21],
            bytes[22],
            bytes[23],
            bytes[24],
            bytes[25],
            bytes[26],
            bytes[27],
            bytes[28],
            bytes[29],
            bytes[30],
            bytes[31],
        ],
    }
}

/// The eight bytes of a signed number, the lowest first.
pub open spec fn i64_bytes(value: i64) -> Seq<u8> {
    spec_u64_to_le_bytes(value as u64)
}

/// The signed number that eight bytes stand for.
pub open spec fn i64_of(bytes: Seq<u8>) -> i64 {
    spec_u64_from_le_bytes(bytes) as i64
}

/// The byte of a flag.
pub open spec fn flag_byte(flag: bool) -> u8 {
    if flag {
        1
    } else {
        0
    }
}

proof fn lemma_pubkey_of(key: Pubkey)
    ensures
        key.bytes@.len() == 32,
        pubkey_of(key.bytes@) == key,
{
    assert(pubkey_of(key.bytes@).bytes =~= key.bytes);
}

proof fn lemma_pubkey_bytes(bytes: Seq<u8>)
    requires
        bytes.len() == 32,
    ensures
        pubkey_of(bytes).bytes@ == bytes,
{
}

proof fn lemma_i64_bytes(value: i64, bytes: Seq<u8>)
    ensures
        i64_bytes(value).len() == 8,
        i64_of(i64_bytes(value)) == value,
        bytes.len() == 8 ==> i64_bytes(i64_of(bytes)) == bytes,
{
    lemma_auto_spec_u64_to_from_le_bytes();
    assert((value as u64) as i64 == value) by (bit_vector);
    let number = spec_u64_from_le_bytes(bytes);
    assert((number as i64) as u64 == number) by (bit_vector);
}

fn push_pubkey(bytes: &mut Vec<u8>, key: &Pubkey)
    ensures
        final(bytes)@ == old(bytes)@ + key.bytes@,
{
    bytes.extend_from_slice(key.bytes.as_slice());
}

fn push_u64(bytes: &mut Vec<u8>, value: u64)
    ensures
        final(bytes)@ == old(bytes)@ + spec_u64_to_le_bytes(value),
{
    let le = u64_to_le_bytes(value);
    bytes.extend_from_slice(le.as_slice());
}

fn push_i64(bytes: &mut Vec<u8>, value: i64)
    ensures
        final(bytes)@ == old(bytes)@ + i64_bytes(value),
{
    push_u64(bytes, #[verifier::truncate] (value as u64));
}

fn push_u16(bytes: &mut Vec<u8>, value: u16)
    ensures
        final(bytes)@ == old(bytes)@ + spec_u16_to_le_bytes(value),
{
    let le = u16_to_le_bytes(value);
    bytes.extend_from_slice(le.as_slice());
}

fn read_pubkey(bytes: &[u8], at: usize) -> (key: Pubkey)
    requires
        at + 32 <= bytes@.len() <= usize::MAX,
    ensures
        key == pubkey_of(bytes@.subrange(at as int, at + 32)),
{
    let mut array = [0u8;32];
    let mut i: usize = 0;
    while i < 32
        invariant
            i <= 32,
            at + 32 <= bytes@.len() <= usize::MAX,
            forall|j: int| 0 <= j < i ==> array[j] == bytes@[at + j],
        decreases 32 - i,
    {
        array[i] = bytes[at + i];
        i += 1;
    }
    let key = Pubkey { bytes: array };
    assert(key.bytes =~= pubkey_of(bytes@.subrange(at as int, at + 32)).bytes);
    key
}

fn read_u64(bytes: &[u8], at: usize) -> (value: u64)
    requires
        at + 8 <= bytes@.len() <= usize::MAX,
    ensures
        value == spec_u64_from_le_bytes(bytes@.subrange(at as int, at + 8)),
{
    u64_from_le_bytes(slice_subrange(bytes, at, at + 8))
}

fn read_i64(bytes: &[u8], at: usize) -> (value: i64)
    requires
        at + 8 <= bytes@.len() <= usize::MAX,
    ensures
        value == i64_of(bytes@.subrange(at as int, at + 8)),
{
    #[verifier::truncate]
    (read_u64(bytes, at) as i64)
}

fn read_u16(bytes: &[u8], at: usize) -> (value: u16)
    requires
        at + 2 <= bytes@.len() <= usize::MAX,
    ensures
        value == spec_u16_from_le_bytes(bytes@.subrange(at as int, at + 2)),
{
    u16_from_le_bytes(slice_subrange(bytes, at, at + 2))
}

impl Treasury {
    /// The bytes of this treasury: the authority, the deposit counter, the
    /// bump.
    pub open spec fn encoding(self) -> Seq<u8> {
        self.authority.bytes@ + spec_u64_to_le_bytes(self.total_deposited) + seq![self.bump]
    }

    /// The treasury that the bytes stand for, if they are forty-one.
    pub open spec fn decoding(bytes: Seq<u8>) -> Option<Treasury> {
        if bytes.len() == 41 {
            Some(
                Treasury {
                    authority: pubkey_of(bytes.subrange(0, 32)),
                    total_deposited: spec_u64_from_le_bytes(bytes.subrange(32, 40)),
                    bump: bytes[40],
                },
            )
        } else {
            None
        }
    }

    /// Decoding undoes encoding, and encoding undoes decoding; with its tag
    /// a treasury fills the size reserved for it.
    pub proof fn lemma_layout(self, bytes: Seq<u8>)
        ensures
            self.encoding().len() + 8 == TREASURY_SIZE,
            Treasury::decoding(self.encoding()) == Some(self),
            Treasury::decoding(bytes) matches Some(treasury) ==> treasury.encoding() == bytes,
    {
        lemma_auto_spec_u64_to_from_le_bytes();
        lemma_pubkey_of(self.authority);
        let encoded = self.encoding();
        assert(encoded.subrange(32, 40) =~= spec_u64_to_le_bytes(self.total_deposited));
        if bytes.len() == 41 {
            lemma_pubkey_bytes(bytes.subrange(0, 32));
        }
    }

    /// Returns the bytes of this treasury.
    pub fn encode(&self) -> (bytes: Vec<u8>)
        ensures
            bytes@ == self.encoding(),
    {
        let mut bytes: Vec<u8> = Vec::new();
        push_pubkey(&mut bytes, &self.authority);
        push_u64(&mut bytes, self.total_deposited);
        bytes.push(self.bump);
        bytes
    }

    /// Returns the treasury that the bytes stand for, if they stand for
    /// one.
    pub fn decode(bytes: &[u8]) -> (treasury: Option<Treasury>)
        ensures
            treasury == Treasury::decoding(bytes@),
    {
        if bytes.len() != 41 {
            return None;
        }
        Some(
            Treasury {
                authority: read_pubkey(bytes, 0),
                total_deposited: read_u64(bytes, 32),
                bump: bytes[40],
            },
        )
    }
}

impl Airdrop {
    /// The bytes of this campaign: id, latitude, longitude, reward, expiry,
    /// capacity, count, rarity, the active flag, the creator, the bump.
    pub open spec fn encoding(self) -> Seq<u8> {
        spec_u64_to_le_bytes(self.id) + i64_bytes(self.latitude) + i64_bytes(self.longitude)
            + spec_u64_to_le_bytes(self.reward_amount) + i64_bytes(self.expiry_timestamp)
            + spec_u16_to_le_bytes(self.max_claims) + spec_u16_to_le_bytes(self.claims_count)
            + seq![self.rarity, flag_byte(self.active)] + self.creator.bytes@ + seq![self.bump]
    }

    /// The campaign that the bytes stand for, if they are seventy-nine and
    /// the byte of the flag is 0 or 1.
    pub open spec fn decoding(bytes: Seq<u8>) -> Option<Airdrop> {
        if bytes.len() == 79 && bytes[45] <= 1 {
            Some(
                Airdrop {
                    id: spec_u64_from_le_bytes(bytes.subrange(0, 8)),
                    latitude: i64_of(bytes.subrange(8, 16)),
                    longitude: i64_of(bytes.subrange(16, 24)),
                    reward_amount: spec_u64_from_le_bytes(bytes.subrange(24, 32)),
                    expiry_timestamp: i64_of(bytes.subrange(32, 40)),
                    max_claims: spec_u16_from_le_bytes(bytes.subrange(40, 42)),
                    claims_count: spec_u16_from_le_bytes(bytes.subrange(42, 44)),
                    rarity: bytes[44],
                    active: bytes[45] == 1,
                    creator: pubkey_of(bytes.subrange(46, 78)),
                    bump: bytes[78],
                },
            )
        } else {
            None
        }
    }

    /// Decoding undoes encoding, and encoding undoes decoding; with its tag
    /// a campaign fills the size reserved for it.
    pub proof fn lemma_layout(self, bytes: Seq<u8>)
        ensures
            self.encoding().len() + 8 == AIRDROP_SIZE,
            Airdrop::decoding(self.encoding()) == Some(self),
            Airdrop::decoding(bytes) matches Some(airdrop) ==> airdrop.encoding() == bytes,
    {
        lemma_auto_spec_u64_to_from_le_bytes();
        lemma_auto_spec_u16_to_from_le_bytes();
        lemma_pubkey_of(self.creator);
        lemma_i64_bytes(self.latitude, bytes.subrange(8, 16));
        lemma_i64_bytes(self.longitude, bytes.subrange(16, 24));
        lemma_i64_bytes(self.expiry_timestamp, bytes.subrange(32, 40));
        let encoded = self.encoding();
        assert(encoded.subrange(0, 8) =~= spec_u64_to_le_bytes(self.id));
        assert(encoded.subrange(8, 16) =~= i64_bytes(self.latitude));
        assert(encoded.subrange(16, 24) =~= i64_bytes(self.longitude));
        assert(encoded.subrange(24, 32) =~= spec_u64_to_le_bytes(self.reward_amount));
        assert(encoded.subrange(32, 40) =~= i64_bytes(self.expiry_timestamp));
        assert(encoded.subrange(40, 42) =~= spec_u16_to_le_bytes(self.max_claims));
        assert(encoded.subrange(42, 44) =~= spec_u16_to_le_bytes(self.claims_count));
        if bytes.len() == 79 {
            lemma_pubkey_bytes(bytes.subrange(46, 78));
        }
    }

    /// Returns the bytes of this campaign.
    pub fn encode(&self) -> (bytes: Vec<u8>)
        ensures
            bytes@ == self.encoding(),
    {
        let mut bytes: Vec<u8> = Vec::new();
        push_u64(&mut bytes, self.id);
        push_i64(&mut bytes, self.latitude);
        push_i64(&mut bytes, self.longitude);
        push_u64(&mut bytes, self.reward_amount);
        push_i64(&mut bytes, self.expiry_timestamp);
        push_u16(&mut bytes, self.max_claims);
        push_u16(&mut bytes, self.claims_count);
        bytes.push(self.rarity);
        bytes.push(
            if self.active {
                1
            } else {
                0
            },
        );
        push_pubkey(&mut bytes, &self.creator);
        bytes.push(self.bump);
        bytes
    }

    /// Returns the campaign that the bytes stand for, if they stand for
    /// one.
    pub fn decode(bytes: &[u8]) -> (airdrop: Option<Airdrop>)
        ensures
            airdrop == Airdrop::decoding(bytes@),
    {
        if bytes.len() != 79 || bytes[45] > 1 {
            return None;
        }
        Some(
            Airdrop {
                id: read_u64(bytes, 0),
                latitude: read_i64(bytes, 8),
                longitude: read_i64(bytes, 16),
                reward_amount: read_u64(bytes, 24),
                expiry_timestamp: read_i64(bytes, 32),
                max_claims: read_u16(bytes, 40),
                claims_count: read_u16(bytes, 42),
                rarity: bytes[44],
                active: bytes[45] == 1,
                creator: read_pubkey(bytes, 46),
                bump: bytes[78],
            },
        )
    }
}

impl ClaimReceipt {
    /// The bytes of this receipt: the campaign's key, the claimer, the time
    /// of the claim, the bump.
    pub open spec fn encoding(self) -> Seq<u8> {
        self.airdrop.bytes@ + self.claimer.bytes@ + i64_bytes(self.claimed_at) + seq![self.bump]
    }

    /// The receipt that the bytes stand for, if they are seventy-three.
    pub open spec fn decoding(bytes: Seq<u8>) -> Option<ClaimReceipt> {
        if bytes.len() == 73 {
            Some(
                ClaimReceipt {
                    airdrop: pubkey_of(bytes.subrange(0, 32)),
                    claimer: pubkey_of(bytes.subrange(32, 64)),
                    claimed_at: i64_of(bytes.subrange(64, 72)),
                    bump: bytes[72],
                },
            )
        } else {
            None
        }
    }

    /// Decoding undoes encoding, and encoding undoes decoding; with its tag
    /// a receipt fills the size reserved for it.
    pub proof fn lemma_layout(self, bytes: Seq<u8>)
        ensures
            self.encoding().len() + 8 == CLAIM_RECEIPT_SIZE,
            ClaimReceipt::decoding(self.encoding()) == Some(self),
            ClaimReceipt::decoding(bytes) matches Some(receipt) ==> receipt.encoding() == bytes,
    {
        lemma_pubkey_of(self.airdrop);
        lemma_pubkey_of(self.claimer);
        lemma_i64_bytes(self.claimed_at, bytes.subrange(64, 72));
        let encoded = self.encoding();
        assert(encoded.subrange(64, 72) =~= i64_bytes(self.claimed_at));
        if bytes.len() == 73 {
            lemma_pubkey_bytes(bytes.subrange(0, 32));
            lemma_pubkey_bytes(bytes.subrange(32, 64));
        }
    }

    /// Returns the bytes of this receipt.
    pub fn encode(&self) -> (bytes: Vec<u8>)
        ensures
            bytes@ == self.encoding(),
    {
        let mut bytes: Vec<u8> = Vec::new();
        push_pubkey(&mut bytes, &self.airdrop);
        push_pubkey(&mut bytes, &self.claimer);
        push_i64(&mut bytes, self.claimed_at);
        bytes.push(self.bump);
        bytes
    }

    /// Returns the receipt that the bytes stand for, if they stand for
    /// one.
    pub fn decode(bytes: &[u8]) -> (receipt: Option<ClaimReceipt>)
        ensures
            receipt == ClaimReceipt::decoding(bytes@),
    {
        if bytes.len() != 73 {
            return None;
        }
        Some(
            ClaimReceipt {
                airdrop: read_pubkey(bytes, 0),
                claimer: read_pubkey(bytes, 32),
                claimed_at: read_i64(bytes, 64),
                bump: bytes[72],
            },
        )
    }
}

} // verus!
