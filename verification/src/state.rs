use vstd::prelude::*;

use crate::pubkey::Pubkey;

verus! {

/// The program-wide configuration account.
#[derive(Clone, Copy, Debug, PartialEq, Eq)]
pub struct Config {
    pub admin: Pubkey,
    pub treasury: Pubkey,
    pub buyback_wallet: Pubkey,
    pub fee_bps: u16,
    pub halted: bool,
}

impl Config {
    /// Account size: 8 (discriminator) + 32 + 32 + 32 + 2 + 1.
    pub const LEN: usize = 8 + 32 + 32 + 32 + 2 + 1;
}

/// One option market: an underlying, a quote mint, a strike and an expiry.
#[derive(Clone, Copy, Debug, PartialEq, Eq)]
pub struct Market {
    pub underlying_mint: Pubkey,
    pub quote_mint: Pubkey,
    pub strike: u64,
    pub expiry_ts: i64,
    pub exercise_window_secs: i64,
    pub option_mint: Pubkey,
    pub bump: u8,
    pub split_numerator: u64,
    pub split_denominator: u64,
    pub is_synthetic: bool,
    pub payout_cap: u64,
    /// 0 while the market is not settled.
    pub settlement_price: u64,
}

impl Market {
    /// Account size: 8 (discriminator) + 32 + 32 + 8 + 8 + 8 + 32 + 1 + 8 + 8 + 1 + 8 + 8.
    pub const LEN: usize = 8 + 32 + 32 + 8 + 8 + 8 + 32 + 1 + 8 + 8 + 1 + 8 + 8;
}

/// What one writer has locked and minted in one market.
#[derive(Clone, Copy, Debug, PartialEq, Eq)]
pub struct WriterPosition {
    pub market: Pubkey,
    pub writer: Pubkey,
    pub locked_amount: u64,
    pub minted_amount: u64,
    pub premium_ask: u64,
    pub filled_amount: u64,
    pub bump: u8,
}

impl WriterPosition {
    /// Account size: 8 (discriminator) + 32 + 32 + 8 + 8 + 8 + 8 + 1.
    pub const LEN: usize = 8 + 32 + 32 + 8 + 8 + 8 + 8 + 1;

    /// A position account as it reads right after it is created: every field zero.
    pub fn zeroed() -> (position: WriterPosition)
        ensures
            position.market.bytes@ == Seq::new(32, |i: int| 0u8),
            position.writer.bytes@ == Seq::new(32, |i: int| 0u8),
            position.locked_amount == 0,
            position.minted_amount == 0,
            position.premium_ask == 0,
            position.filled_amount == 0,
            position.bump == 0,
    {
        let position = WriterPosition {
            market: Pubkey::zeroed(),
            writer: Pubkey::zeroed(),
            locked_amount: 0,
            minted_amount: 0,
            premium_ask: 0,
            filled_amount: 0,
            bump: 0,
        };
        assert(position.market.bytes@ =~= Seq::new(32, |i: int| 0u8));
        assert(position.writer.bytes@ =~= Seq::new(32, |i: int| 0u8));
        position
    }
}

/// The factory that gates market creation.
#[derive(Clone, Copy, Debug, PartialEq, Eq)]
pub struct FactoryConfig {
    pub admin: Pubkey,
    pub creation_fee: u64,
    pub is_active: bool,
}

impl FactoryConfig {
    /// Account size: 8 (discriminator) + 32 + 8 + 1.
    pub const LEN: usize = 8 + 32 + 8 + 1;
}

/// An entry of the allow-list of market creators.
#[derive(Clone, Copy, Debug, PartialEq, Eq)]
pub struct MarketCreator {
    pub authority: Pubkey,
    pub bump: u8,
}

impl MarketCreator {
    /// Account size: 8 (discriminator) + 32 + 1.
    pub const LEN: usize = 8 + 32 + 1;
}

} // verus!
