use vstd::prelude::*;
use vstd::bytes::{spec_u64_to_le_bytes, u64_to_le_bytes};

use crate::pubkey::Pubkey;

verus! {

/// The address seeds that let the program sign for a market account:
/// `"market"`, the underlying mint, the quote mint, the strike and the expiry
/// in little-endian bytes, and the bump.
#[derive(Clone, Copy, Debug, PartialEq, Eq)]
pub struct MarketSeeds {
    pub underlying_mint: Pubkey,
    pub quote_mint: Pubkey,
    pub strike: u64,
    pub expiry_ts: i64,
    pub bump: u8,
}

/// The address seeds that let the program sign for a writer position:
/// `"writer"`, the market, the writer, and the bump.
#[derive(Clone, Copy, Debug, PartialEq, Eq)]
pub struct PositionSeeds {
    pub market: Pubkey,
    pub writer: Pubkey,
    pub bump: u8,
}

/// The ASCII bytes of `market`.
pub open spec fn market_tag() -> Seq<u8> {
    seq![109u8, 97u8, 114u8, 107u8, 101u8, 116u8]
}

/// The ASCII bytes of `writer`.
pub open spec fn writer_tag() -> Seq<u8> {
    seq![119u8, 114u8, 105u8, 116u8, 101u8, 114u8]
}

/// The seed byte strings of a market.
pub open spec fn market_seed_bytes(seeds: MarketSeeds) -> Seq<Seq<u8>> {
    seq![
        market_tag(),
        seeds.underlying_mint.bytes@,
        seeds.quote_mint.bytes@,
        spec_u64_to_le_bytes(seeds.strike),
        spec_u64_to_le_bytes(seeds.expiry_ts as u64),
        seq![seeds.bump],
    ]
}

/// The seed byte strings of a writer position.
pub open spec fn position_seed_bytes(seeds: PositionSeeds) -> Seq<Seq<u8>> {
    seq![writer_tag(), seeds.market.bytes@, seeds.writer.bytes@, seq![seeds.bump]]
}

/// A list of byte vectors taken as a list of byte strings.
pub open spec fn byte_strings(v: Seq<Vec<u8>>) -> Seq<Seq<u8>> {
    v.map_values(|b: Vec<u8>| b@)
}

/// The bytes of an address as a vector.
fn key_bytes(key: &Pubkey) -> (v: Vec<u8>)
    ensures
        v@ == key.bytes@,
{
    let mut v: Vec<u8> = Vec::new();
    let mut i: usize = 0;
    while i < 32
        invariant
            i <= 32,
            v@ == key.bytes@.take(i as int),
        decreases 32 - i,
    {
        v.push(key.bytes[i]);
        i = i + 1;
        assert(v@ =~= key.bytes@.take(i as int));
    }
    assert(key.bytes@.take(32) =~= key.bytes@);
    v
}

impl MarketSeeds {
    /// The seeds of `market`'s own account, as the program signs with them.
    pub fn seed_bytes(&self) -> (seeds: Vec<Vec<u8>>)
        ensures
            byte_strings(seeds@) == market_seed_bytes(*self),
    {
        let mut tag: Vec<u8> = Vec::new();
        tag.push(109u8);
        tag.push(97u8);
        tag.push(114u8);
        tag.push(107u8);
        tag.push(101u8);
        tag.push(116u8);
        assert(tag@ =~= market_tag());
        let mut seeds: Vec<Vec<u8>> = Vec::new();
        seeds.push(tag);
        seeds.push(key_bytes(&self.underlying_mint));
        seeds.push(key_bytes(&self.quote_mint));
        seeds.push(u64_to_le_bytes(self.strike));
        seeds.push(u64_to_le_bytes(#[verifier::truncate] (self.expiry_ts as u64)));
        let mut bump: Vec<u8> = Vec::new();
        bump.push(self.bump);
        assert(bump@ =~= seq![self.bump]);
        seeds.push(bump);
        assert(byte_strings(seeds@) =~= market_seed_bytes(*self));
        seeds
    }
}

impl PositionSeeds {
    /// The seeds of a writer position's account, as the program signs with them.
    pub fn seed_bytes(&self) -> (seeds: Vec<Vec<u8>>)
        ensures
            byte_strings(seeds@) == position_seed_bytes(*self),
    {
        let mut tag: Vec<u8> = Vec::new();
        tag.push(119u8);
        tag.push(114u8);
        tag.push(105u8);
        tag.push(116u8);
        tag.push(101u8);
        tag.push(114u8);
        assert(tag@ =~= writer_tag());
        let mut seeds: Vec<Vec<u8>> = Vec::new();
        seeds.push(tag);
        seeds.push(key_bytes(&self.market));
        seeds.push(key_bytes(&self.writer));
        let mut bump: Vec<u8> = Vec::new();
        bump.push(self.bump);
        assert(bump@ =~= seq![self.bump]);
        seeds.push(bump);
        assert(byte_strings(seeds@) =~= position_seed_bytes(*self));
        seeds
    }
}

} // verus!
