//! What each instruction does, stated directly over its inputs: the accounts it
//! writes and the token calls it makes, amount by amount.
use vstd::prelude::*;

use crate::error::ErrorCode;
use crate::instructions::{
    bought_position, buy_option_error, buy_option_instructions, exercise_error, exercise_fits,
    exercise_instructions, halted_config, initialized_market, is_mainnet_usdc, mainnet_buy_error,
    mainnet_buy_proceeds, reclaim_fits, reclaim_instructions, reclaim_qty, reclaimed_position,
    resumed_config, write_option_fits, write_option_instructions, written_position, BuyOption,
    ExerciseOption, InitMarket, ReclaimCollateral, WriteOption,
};
use crate::math::pow10;
use crate::pubkey::{mainnet_usdc_text, pubkey_from_base58, Pubkey, PubkeyError};
use vstd::bytes::{lemma_auto_spec_u64_to_from_le_bytes, spec_u64_from_le_bytes};
use crate::seeds::{market_seed_bytes, position_seed_bytes, MarketSeeds, PositionSeeds};
use crate::state::{Config, Market};
use crate::token::{Authority, MintRole, TokenAccountRole, TokenInstruction};

verus! {

/// The program signs for a market with the market's own mints, strike, expiry and bump.
pub open spec fn signs_as_market(authority: Authority, market: Market) -> bool {
    authority == Authority::Market(
        MarketSeeds {
            underlying_mint: market.underlying_mint,
            quote_mint: market.quote_mint,
            strike: market.strike,
            expiry_ts: market.expiry_ts,
            bump: market.bump,
        },
    )
}

/// Halting sets the flag and keeps every other field; resuming clears it and
/// keeps every other field.
pub proof fn law_halt_and_resume_set_the_flag(config: Config)
    ensures
        halted_config(config).halted,
        !resumed_config(config).halted,
        halted_config(config).admin == config.admin,
        halted_config(config).treasury == config.treasury,
        halted_config(config).buyback_wallet == config.buyback_wallet,
        halted_config(config).fee_bps == config.fee_bps,
        resumed_config(config).admin == config.admin,
        resumed_config(config).treasury == config.treasury,
        resumed_config(config).buyback_wallet == config.buyback_wallet,
        resumed_config(config).fee_bps == config.fee_bps,
{
}

/// A new market records exactly the arguments it was created with, the mints
/// and bump of its accounts, no split and no settlement.
pub proof fn law_init_market_records_its_arguments(
    ctx: InitMarket,
    strike: u64,
    expiry_ts: i64,
    exercise_window_secs: i64,
    is_synthetic: bool,
    payout_cap: u64,
)
    ensures
        initialized_market(ctx, strike, expiry_ts, exercise_window_secs, is_synthetic, payout_cap).is_synthetic
            == is_synthetic,
        initialized_market(ctx, strike, expiry_ts, exercise_window_secs, is_synthetic, payout_cap).payout_cap
            == payout_cap,
        initialized_market(ctx, strike, expiry_ts, exercise_window_secs, is_synthetic, payout_cap).strike
            == strike,
        initialized_market(ctx, strike, expiry_ts, exercise_window_secs, is_synthetic, payout_cap).expiry_ts
            == expiry_ts,
        initialized_market(ctx, strike, expiry_ts, exercise_window_secs, is_synthetic, payout_cap).exercise_window_secs
            == exercise_window_secs,
        initialized_market(ctx, strike, expiry_ts, exercise_window_secs, is_synthetic, payout_cap).underlying_mint
            == ctx.underlying_mint,
        initialized_market(ctx, strike, expiry_ts, exercise_window_secs, is_synthetic, payout_cap).quote_mint
            == ctx.quote_mint,
        initialized_market(ctx, strike, expiry_ts, exercise_window_secs, is_synthetic, payout_cap).option_mint
            == ctx.option_mint,
        initialized_market(ctx, strike, expiry_ts, exercise_window_secs, is_synthetic, payout_cap).bump
            == ctx.market_bump,
        initialized_market(ctx, strike, expiry_ts, exercise_window_secs, is_synthetic, payout_cap).split_numerator
            == 1,
        initialized_market(ctx, strike, expiry_ts, exercise_window_secs, is_synthetic, payout_cap).split_denominator
            == 1,
        initialized_market(ctx, strike, expiry_ts, exercise_window_secs, is_synthetic, payout_cap).settlement_price
            == 0,
{
}

/// Writing `qty` options mints exactly `qty` options into the escrow, by the
/// market's signature, and raises the position's minted amount by `qty`; it
/// takes from the writer, in the underlying with the underlying's decimals,
/// exactly the amount by which the position's locked amount rises: one token
/// per option on a physical market, `qty * payout_cap / 10^decimals` on a
/// synthetic one. Sold options and the position's other fields follow.
pub proof fn law_write_option_mints_qty_and_locks_collateral(ctx: WriteOption, qty: u64, premium_ask: u64)
    requires
        ctx.market.strike != 0,
        write_option_fits(ctx, qty),
    ensures
        write_option_instructions(ctx, qty).len() == 2,
        write_option_instructions(ctx, qty)[1] is MintTo,
        write_option_instructions(ctx, qty)[1]->MintTo_amount == qty,
        write_option_instructions(ctx, qty)[1]->MintTo_mint == MintRole::OptionMint,
        write_option_instructions(ctx, qty)[1]->MintTo_to == TokenAccountRole::EscrowOptionVault,
        signs_as_market(write_option_instructions(ctx, qty)[1]->MintTo_authority, ctx.market),
        written_position(ctx, qty, premium_ask).minted_amount == ctx.writer_position.minted_amount + qty,
        write_option_instructions(ctx, qty)[0] is TransferChecked,
        write_option_instructions(ctx, qty)[0]->TransferChecked_from == TokenAccountRole::WriterUnderlyingAta,
        write_option_instructions(ctx, qty)[0]->TransferChecked_mint == MintRole::UnderlyingMint,
        write_option_instructions(ctx, qty)[0]->TransferChecked_to == TokenAccountRole::CollateralVault,
        write_option_instructions(ctx, qty)[0]->TransferChecked_authority == Authority::Signer,
        write_option_instructions(ctx, qty)[0]->TransferChecked_decimals == ctx.underlying_decimals,
        written_position(ctx, qty, premium_ask).locked_amount == ctx.writer_position.locked_amount
            + write_option_instructions(ctx, qty)[0]->TransferChecked_amount,
        !ctx.market.is_synthetic ==> write_option_instructions(ctx, qty)[0]->TransferChecked_amount == qty,
        ctx.market.is_synthetic ==> write_option_instructions(ctx, qty)[0]->TransferChecked_amount
            == ((qty * ctx.market.payout_cap) / (pow10(ctx.underlying_decimals as nat) as int)) as u64,
        written_position(ctx, qty, premium_ask).filled_amount == ctx.writer_position.filled_amount,
        written_position(ctx, qty, premium_ask).premium_ask == premium_ask,
        written_position(ctx, qty, premium_ask).market == ctx.market_key,
        written_position(ctx, qty, premium_ask).writer == ctx.writer,
        written_position(ctx, qty, premium_ask).bump == ctx.writer_position_bump,
{
}

/// A purchase is refused as a self-trade exactly when the quote mint is the
/// given mainnet USDC mint and the buyer is the writer; otherwise it is refused
/// exactly when fewer than `qty` options are unsold.
pub proof fn law_buy_option_refusals(ctx: BuyOption, qty: u64, mainnet_usdc: Pubkey)
    ensures
        buy_option_error(ctx, qty, mainnet_usdc) == Some(ErrorCode::CannotTradeWithSelf)
            <==> (ctx.quote_mint == mainnet_usdc && ctx.buyer == ctx.writer_position.writer),
        buy_option_error(ctx, qty, mainnet_usdc) is None <==> (!(ctx.quote_mint == mainnet_usdc
            && ctx.buyer == ctx.writer_position.writer) && qty + ctx.writer_position.filled_amount
            <= ctx.writer_position.minted_amount),
        mainnet_buy_error(ctx, qty) == Some(ErrorCode::CannotTradeWithSelf) <==> (is_mainnet_usdc(
            ctx.quote_mint,
        ) && ctx.buyer == ctx.writer_position.writer),
        mainnet_buy_error(ctx, qty) is None <==> (!(is_mainnet_usdc(ctx.quote_mint) && ctx.buyer
            == ctx.writer_position.writer) && qty + ctx.writer_position.filled_amount
            <= ctx.writer_position.minted_amount),
{
}

/// A purchase of `qty` options pays the writer `qty * premium_ask / 10^6` quote
/// tokens from the buyer, with 6 decimals, and moves exactly `qty` options
/// from the escrow to the buyer, by the position's signature, with the option
/// mint's decimals; the position's sold options rise by `qty`, and nothing
/// else about it changes.
pub proof fn law_buy_option_pays_premium_and_moves_qty(ctx: BuyOption, qty: u64)
    ensures
        buy_option_instructions(ctx, qty).len() == 2,
        buy_option_instructions(ctx, qty)[0] == (TokenInstruction::TransferChecked {
            from: TokenAccountRole::BuyerQuoteAta,
            mint: MintRole::QuoteMint,
            to: TokenAccountRole::WriterQuoteAta,
            authority: Authority::Signer,
            amount: ((qty * ctx.writer_position.premium_ask) / 1_000_000) as u64,
            decimals: 6,
        }),
        buy_option_instructions(ctx, qty)[1] == (TokenInstruction::TransferChecked {
            from: TokenAccountRole::EscrowOptionVault,
            mint: MintRole::OptionMint,
            to: TokenAccountRole::BuyerOptionAta,
            authority: Authority::WriterPosition(
                PositionSeeds {
                    market: ctx.writer_position.market,
                    writer: ctx.writer_position.writer,
                    bump: ctx.writer_position.bump,
                },
            ),
            amount: qty,
            decimals: ctx.option_mint_decimals,
        }),
        bought_position(ctx.writer_position, qty).filled_amount == (ctx.writer_position.filled_amount
            + qty) as u64,
        bought_position(ctx.writer_position, qty).minted_amount == ctx.writer_position.minted_amount,
        bought_position(ctx.writer_position, qty).locked_amount == ctx.writer_position.locked_amount,
        bought_position(ctx.writer_position, qty).premium_ask == ctx.writer_position.premium_ask,
        bought_position(ctx.writer_position, qty).market == ctx.writer_position.market,
        bought_position(ctx.writer_position, qty).writer == ctx.writer_position.writer,
        bought_position(ctx.writer_position, qty).bump == ctx.writer_position.bump,
{
    reveal_with_fuel(pow10, 7);
}

/// An exercise goes ahead exactly from the expiry to the expiry plus the
/// window, both included; before the expiry it is refused as not expired,
/// after the window as outside it.
pub proof fn law_exercise_window(market: Market, now: i64)
    ensures
        exercise_error(market, now) is None <==> (market.expiry_ts <= now && now
            <= market.expiry_ts + market.exercise_window_secs),
        exercise_error(market, now) == Some(ErrorCode::NotExpired) <==> now < market.expiry_ts,
        exercise_error(market, now) == Some(ErrorCode::NotWithinExerciseWindow) <==> (market.expiry_ts
            <= now && now > market.expiry_ts + market.exercise_window_secs),
{
}

/// The underlying that exercising `qty` options of `market` delivers: the
/// options times the split ratio on a physical market; on a synthetic market
/// the profit over the strike, capped at the payout cap, per whole option.
pub open spec fn delivered_underlying(market: Market, qty: u64, decimals: u8) -> int {
    if !market.is_synthetic {
        ((qty * market.split_numerator) / (market.split_denominator as int)) as u64 as int
    } else if market.settlement_price > market.strike {
        let profit = market.settlement_price - market.strike;
        let capped = if market.payout_cap <= profit { market.payout_cap as int } else { profit };
        ((qty * capped) / (pow10(decimals as nat) as int)) as u64 as int
    } else {
        0
    }
}

/// Exercising `qty` options first burns exactly those `qty` options from the
/// exerciser. On a physical market it then takes `qty * strike / 1000` quote
/// tokens from the exerciser into the quote vault, with the quote's decimals,
/// whatever the split; a synthetic market takes no quote at all. Last, when the
/// delivered underlying is positive, the market pays it from the collateral
/// vault to the exerciser, with the underlying's decimals; otherwise nothing.
pub proof fn law_exercise_burns_charges_strike_and_delivers(ctx: ExerciseOption, qty: u64)
    ensures
        exercise_instructions(ctx, qty)[0] == (TokenInstruction::Burn {
            mint: MintRole::OptionMint,
            from: TokenAccountRole::ExerciserOptionAta,
            authority: Authority::Signer,
            amount: qty,
        }),
        !ctx.market.is_synthetic ==> exercise_instructions(ctx, qty)[1] == (TokenInstruction::TransferChecked {
            from: TokenAccountRole::ExerciserQuoteAta,
            mint: MintRole::QuoteMint,
            to: TokenAccountRole::QuoteVault,
            authority: Authority::Signer,
            amount: ((qty * ctx.market.strike) / 1000) as u64,
            decimals: ctx.quote_decimals,
        }),
        forall|i: int|
            0 <= i < exercise_instructions(ctx, qty).len() ==> !(#[trigger] exercise_instructions(
                ctx,
                qty,
            )[i] is TransferChecked && exercise_instructions(ctx, qty)[i]->TransferChecked_from
                == TokenAccountRole::ExerciserQuoteAta && ctx.market.is_synthetic),
        delivered_underlying(ctx.market, qty, ctx.underlying_decimals) > 0 ==> {
            &&& exercise_instructions(ctx, qty).len() == (if ctx.market.is_synthetic { 2int } else { 3int })
            &&& exercise_instructions(ctx, qty).last() is TransferChecked
            &&& exercise_instructions(ctx, qty).last()->TransferChecked_from == TokenAccountRole::CollateralVault
            &&& exercise_instructions(ctx, qty).last()->TransferChecked_mint == MintRole::UnderlyingMint
            &&& exercise_instructions(ctx, qty).last()->TransferChecked_to == TokenAccountRole::ExerciserUnderlyingAta
            &&& signs_as_market(exercise_instructions(ctx, qty).last()->TransferChecked_authority, ctx.market)
            &&& exercise_instructions(ctx, qty).last()->TransferChecked_amount == delivered_underlying(
                ctx.market,
                qty,
                ctx.underlying_decimals,
            )
            &&& exercise_instructions(ctx, qty).last()->TransferChecked_decimals == ctx.underlying_decimals
        },
        delivered_underlying(ctx.market, qty, ctx.underlying_decimals) == 0 ==> exercise_instructions(
            ctx,
            qty,
        ).len() == (if ctx.market.is_synthetic { 1int } else { 2int }),
{
    reveal_with_fuel(pow10, 4);
}

/// Reclaiming burns exactly the unsold options (minted minus sold) from the
/// escrow, by the position's signature, and returns from the collateral vault,
/// by the market's signature, exactly the amount by which the position's
/// locked amount falls: the unsold options on a physical market,
/// `unsold * payout_cap / 10^decimals` on a synthetic one. Afterwards every
/// minted option is sold; nothing else about the position changes.
pub proof fn law_reclaim_burns_unsold_and_returns_collateral(ctx: ReclaimCollateral)
    requires
        reclaim_fits(ctx),
        ctx.writer_position.minted_amount > ctx.writer_position.filled_amount,
    ensures
        reclaim_instructions(ctx).len() == 2,
        reclaim_instructions(ctx)[0] == (TokenInstruction::Burn {
            mint: MintRole::OptionMint,
            from: TokenAccountRole::EscrowOptionVault,
            authority: Authority::WriterPosition(
                PositionSeeds {
                    market: ctx.writer_position.market,
                    writer: ctx.writer_position.writer,
                    bump: ctx.writer_position.bump,
                },
            ),
            amount: (ctx.writer_position.minted_amount - ctx.writer_position.filled_amount) as u64,
        }),
        reclaim_instructions(ctx)[1] is TransferChecked,
        reclaim_instructions(ctx)[1]->TransferChecked_from == TokenAccountRole::CollateralVault,
        reclaim_instructions(ctx)[1]->TransferChecked_mint == MintRole::UnderlyingMint,
        reclaim_instructions(ctx)[1]->TransferChecked_to == TokenAccountRole::WriterUnderlyingAta,
        signs_as_market(reclaim_instructions(ctx)[1]->TransferChecked_authority, ctx.market),
        reclaim_instructions(ctx)[1]->TransferChecked_decimals == ctx.underlying_decimals,
        !ctx.market.is_synthetic ==> reclaim_instructions(ctx)[1]->TransferChecked_amount
            == ctx.writer_position.minted_amount - ctx.writer_position.filled_amount,
        ctx.market.is_synthetic ==> reclaim_instructions(ctx)[1]->TransferChecked_amount == (((
        ctx.writer_position.minted_amount - ctx.writer_position.filled_amount) * ctx.market.payout_cap)
            / (pow10(ctx.underlying_decimals as nat) as int)) as u64,
        reclaimed_position(ctx).locked_amount + reclaim_instructions(ctx)[1]->TransferChecked_amount
            == ctx.writer_position.locked_amount,
        reclaimed_position(ctx).minted_amount == ctx.writer_position.filled_amount,
        reclaimed_position(ctx).filled_amount == ctx.writer_position.filled_amount,
        reclaimed_position(ctx).premium_ask == ctx.writer_position.premium_ask,
        reclaimed_position(ctx).market == ctx.writer_position.market,
        reclaimed_position(ctx).writer == ctx.writer_position.writer,
        reclaimed_position(ctx).bump == ctx.writer_position.bump,
{
}

/// The collateral that backs `qty` options of `market`: one underlying token
/// per option on a physical market, `qty * payout_cap / 10^decimals` on a
/// synthetic one (truncated to 64 bits as the program does).
pub open spec fn backing_collateral(market: Market, qty: int, decimals: u8) -> int {
    if market.is_synthetic {
        ((qty * market.payout_cap) / (pow10(decimals as nat) as int)) as u64 as int
    } else {
        qty
    }
}

/// Writing can go ahead without a panic exactly when the market is refused as
/// halted, or else the underlying has at most 38 decimals (on a synthetic
/// market) and neither the locked nor the minted total passes `u64::MAX`.
pub proof fn law_write_option_fits_exactly(ctx: WriteOption, qty: u64)
    ensures
        write_option_fits(ctx, qty) <==> (ctx.market.strike == 0 || ({
            &&& ctx.market.is_synthetic ==> ctx.underlying_decimals <= 38
            &&& ctx.writer_position.locked_amount + backing_collateral(ctx.market, qty as int, ctx.underlying_decimals)
                <= u64::MAX
            &&& ctx.writer_position.minted_amount + qty <= u64::MAX
        })),
{
}

/// Reclaiming can go ahead without a panic exactly when no more options are
/// sold than minted and, if some are unsold, the underlying has at most 38
/// decimals (on a synthetic market) and their collateral is no more than what
/// is locked. It is refused exactly when nothing is unsold.
pub proof fn law_reclaim_fits_exactly(ctx: ReclaimCollateral)
    ensures
        reclaim_fits(ctx) <==> ({
            &&& ctx.writer_position.filled_amount <= ctx.writer_position.minted_amount
            &&& ctx.writer_position.filled_amount < ctx.writer_position.minted_amount ==> {
                &&& ctx.market.is_synthetic ==> ctx.underlying_decimals <= 38
                &&& backing_collateral(
                    ctx.market,
                    ctx.writer_position.minted_amount - ctx.writer_position.filled_amount,
                    ctx.underlying_decimals,
                ) <= ctx.writer_position.locked_amount
            }
        }),
        ctx.writer_position.filled_amount <= ctx.writer_position.minted_amount ==> (reclaim_qty(ctx) == 0
            <==> ctx.writer_position.minted_amount == ctx.writer_position.filled_amount),
{
}

/// Exercising can go ahead without a panic exactly when, once expired, the
/// window's end fits in an `i64`, and, within the window, a physical market's
/// split has a nonzero denominator and a settled synthetic market's underlying
/// has at most 38 decimals.
pub proof fn law_exercise_fits_exactly(ctx: ExerciseOption, now: i64)
    ensures
        exercise_fits(ctx, now) <==> ({
            &&& now >= ctx.market.expiry_ts ==> i64::MIN <= ctx.market.expiry_ts
                + ctx.market.exercise_window_secs <= i64::MAX
            &&& (ctx.market.expiry_ts <= now && now <= ctx.market.expiry_ts
                + ctx.market.exercise_window_secs) ==> {
                &&& !ctx.market.is_synthetic ==> ctx.market.split_denominator != 0
                &&& (ctx.market.is_synthetic && ctx.market.settlement_price > ctx.market.strike)
                    ==> ctx.underlying_decimals <= 38
            }
        }),
{
}

/// The mainnet USDC mint is the address `EPjFWdd5AufqSSqeM2qN1xzybapC8G4wEGGkZwyTDt1v`,
/// and a key is that mint exactly when the address parses to the key's bytes.
pub proof fn law_mainnet_usdc_is_the_usdc_address(key: Pubkey)
    ensures
        mainnet_usdc_text() == "EPjFWdd5AufqSSqeM2qN1xzybapC8G4wEGGkZwyTDt1v"@,
        is_mainnet_usdc(key) <==> pubkey_from_base58("EPjFWdd5AufqSSqeM2qN1xzybapC8G4wEGGkZwyTDt1v"@)
            == Ok::<Seq<u8>, PubkeyError>(key.bytes@),
{
}

/// A purchase against the mainnet USDC mint goes through to its checks
/// exactly when that mint's address parses and, unless the buyer is the writer
/// paying in that mint, no more options are sold than minted.
pub proof fn law_mainnet_buy_proceeds_exactly(ctx: BuyOption)
    ensures
        mainnet_buy_proceeds(ctx) <==> (pubkey_from_base58(mainnet_usdc_text()) is Ok && ((
        pubkey_from_base58(mainnet_usdc_text()) == Ok::<Seq<u8>, PubkeyError>(ctx.quote_mint.bytes@)
            && ctx.buyer == ctx.writer_position.writer) || ctx.writer_position.filled_amount
            <= ctx.writer_position.minted_amount)),
{
}

/// Powers of ten: `10^0 = 1`, `10^1 = 10`, and `10^(a + b) = 10^a * 10^b`.
pub proof fn law_pow10_is_power_of_ten(a: nat, b: nat)
    ensures
        pow10(0) == 1,
        pow10(1) == 10,
        pow10(a + b) == pow10(a) * pow10(b),
    decreases a,
{
    reveal_with_fuel(pow10, 2);
    if a > 0 {
        law_pow10_is_power_of_ten((a - 1) as nat, b);
        assert(pow10(a + b) == 10 * pow10((a - 1 + b) as nat));
        assert(10 * (pow10((a - 1) as nat) * pow10(b)) == (10 * pow10((a - 1) as nat)) * pow10(b))
            by (nonlinear_arith);
    }
}

/// A market's signer seeds identify it: two markets with the same seeds have
/// the same mints, strike, expiry and bump; and they start with the bytes of
/// `market`, never with those of `writer`, so no market signs as a position.
pub proof fn law_market_seeds_identify_the_market(a: MarketSeeds, b: MarketSeeds, p: PositionSeeds)
    ensures
        market_seed_bytes(a) == market_seed_bytes(b) ==> a == b,
        market_seed_bytes(a)[0] == seq![109u8, 97u8, 114u8, 107u8, 101u8, 116u8],
        market_seed_bytes(a)[0] != position_seed_bytes(p)[0],
{
    if market_seed_bytes(a) == market_seed_bytes(b) {
        lemma_auto_spec_u64_to_from_le_bytes();
        assert(market_seed_bytes(a)[1] == market_seed_bytes(b)[1]);
        assert(market_seed_bytes(a)[2] == market_seed_bytes(b)[2]);
        assert(market_seed_bytes(a)[3] == market_seed_bytes(b)[3]);
        assert(market_seed_bytes(a)[4] == market_seed_bytes(b)[4]);
        assert(market_seed_bytes(a)[5] == market_seed_bytes(b)[5]);
        assert(market_seed_bytes(a)[5][0] == a.bump);
        assert(a.underlying_mint.bytes =~= b.underlying_mint.bytes);
        assert(a.quote_mint.bytes =~= b.quote_mint.bytes);
        assert(spec_u64_from_le_bytes(market_seed_bytes(a)[3]) == a.strike);
        assert(spec_u64_from_le_bytes(market_seed_bytes(b)[3]) == b.strike);
        let ea = a.expiry_ts;
        let eb = b.expiry_ts;
        assert(spec_u64_from_le_bytes(market_seed_bytes(a)[4]) == ea as u64);
        assert(spec_u64_from_le_bytes(market_seed_bytes(b)[4]) == eb as u64);
        assert(ea as u64 == eb as u64 ==> ea == eb) by (bit_vector);
    }
    assert(market_seed_bytes(a)[0][1] != position_seed_bytes(p)[0][1]);
}

/// A position's signer seeds identify it: two positions with the same seeds
/// have the same market, writer and bump.
pub proof fn law_position_seeds_identify_the_position(a: PositionSeeds, b: PositionSeeds)
    ensures
        position_seed_bytes(a) == position_seed_bytes(b) ==> a == b,
        position_seed_bytes(a)[0] == seq![119u8, 114u8, 105u8, 116u8, 101u8, 114u8],
{
    if position_seed_bytes(a) == position_seed_bytes(b) {
        assert(position_seed_bytes(a)[1] == position_seed_bytes(b)[1]);
        assert(position_seed_bytes(a)[2] == position_seed_bytes(b)[2]);
        assert(position_seed_bytes(a)[3] == position_seed_bytes(b)[3]);
        assert(position_seed_bytes(a)[3][0] == a.bump);
        assert(a.market.bytes =~= b.market.bytes);
        assert(a.writer.bytes =~= b.writer.bytes);
    }
}

} // verus!
