use vstd::prelude::*;

use crate::seeds::{MarketSeeds, PositionSeeds};

verus! {

/// The token accounts that the program moves tokens between.
#[derive(Clone, Copy, Debug, PartialEq, Eq, Structural)]
pub enum TokenAccountRole {
    /// The market's vault of underlying collateral.
    CollateralVault,
    /// The market's vault of quote tokens paid at exercise.
    QuoteVault,
    /// The writer position's escrow of minted, unsold options.
    EscrowOptionVault,
    WriterUnderlyingAta,
    WriterQuoteAta,
    BuyerQuoteAta,
    BuyerOptionAta,
    ExerciserOptionAta,
    ExerciserQuoteAta,
    ExerciserUnderlyingAta,
}

/// The mints involved in a market.
#[derive(Clone, Copy, Debug, PartialEq, Eq, Structural)]
pub enum MintRole {
    UnderlyingMint,
    QuoteMint,
    OptionMint,
}

/// Who signs a token instruction: the transaction's signer, or the program
/// for one of its own accounts, by that account's seeds.
#[derive(Clone, Copy, Debug, PartialEq, Eq)]
pub enum Authority {
    Signer,
    Market(MarketSeeds),
    WriterPosition(PositionSeeds),
}

/// A call into the token program that an instruction makes.
#[derive(Clone, Copy, Debug, PartialEq, Eq)]
pub enum TokenInstruction {
    /// Move `amount` tokens of `mint` (with `decimals` decimals) from `from` to `to`.
    TransferChecked {
        from: TokenAccountRole,
        mint: MintRole,
        to: TokenAccountRole,
        authority: Authority,
        amount: u64,
        decimals: u8,
    },
    /// Create `amount` new tokens of `mint` in `to`.
    MintTo { mint: MintRole, to: TokenAccountRole, authority: Authority, amount: u64 },
    /// Destroy `amount` tokens of `mint` held in `from`.
    Burn { mint: MintRole, from: TokenAccountRole, authority: Authority, amount: u64 },
}

} // verus!
