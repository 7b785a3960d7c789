//! Properties that span several instructions.
use vstd::prelude::*;

use crate::instructions::{
    bought_position, buy_option_error, halted_config, initialized_market, reclaim_collateral_amount,
    reclaim_fits, reclaim_instructions, reclaim_qty, reclaimed_position, resumed_config,
    write_collateral, write_option_fits, written_position, BuyOption, InitMarket, ReclaimCollateral,
    WriteOption,
};
use crate::math::{lemma_pow10_monotone, pow10, ratio_amount};
use crate::pricing::{capped_profit, collateral_for, payout_for};
use vstd::arithmetic::div_mod::lemma_div_is_ordered;
use crate::pubkey::Pubkey;
use crate::state::{Config, Market, WriterPosition};

verus! {

/// A position never has more options sold than minted.
pub open spec fn fill_bounded(position: WriterPosition) -> bool {
    position.filled_amount <= position.minted_amount
}

/// A position of a physical market locks exactly one underlying token per
/// option it has minted and not taken back.
pub open spec fn fully_collateralized(position: WriterPosition) -> bool {
    position.locked_amount == position.minted_amount
}

/// Writing options keeps a position's sold options within its minted ones.
pub proof fn law_write_keeps_fill_bound(ctx: WriteOption, qty: u64, premium_ask: u64)
    requires
        fill_bounded(ctx.writer_position),
        ctx.market.strike != 0,
        write_option_fits(ctx, qty),
    ensures
        fill_bounded(written_position(ctx, qty, premium_ask)),
{
}

/// Buying options keeps a position's sold options within its minted ones.
pub proof fn law_buy_keeps_fill_bound(ctx: BuyOption, qty: u64, mainnet_usdc: Pubkey)
    requires
        fill_bounded(ctx.writer_position),
        buy_option_error(ctx, qty, mainnet_usdc) is None,
    ensures
        fill_bounded(bought_position(ctx.writer_position, qty)),
        bought_position(ctx.writer_position, qty).filled_amount == ctx.writer_position.filled_amount + qty,
{
}

/// Reclaiming leaves a position with every minted option sold.
pub proof fn law_reclaim_leaves_nothing_unsold(ctx: ReclaimCollateral)
    requires
        reclaim_fits(ctx),
        reclaim_qty(ctx) > 0,
    ensures
        fill_bounded(reclaimed_position(ctx)),
        reclaimed_position(ctx).minted_amount == reclaimed_position(ctx).filled_amount,
{
}

/// On a physical market, writing keeps the position fully collateralized.
pub proof fn law_write_keeps_physical_collateral(ctx: WriteOption, qty: u64, premium_ask: u64)
    requires
        !ctx.market.is_synthetic,
        fully_collateralized(ctx.writer_position),
        ctx.market.strike != 0,
        write_option_fits(ctx, qty),
    ensures
        fully_collateralized(written_position(ctx, qty, premium_ask)),
{
}

/// Buying does not touch what a position locks or has minted.
pub proof fn law_buy_keeps_collateral(ctx: BuyOption, qty: u64)
    ensures
        bought_position(ctx.writer_position, qty).locked_amount == ctx.writer_position.locked_amount,
        bought_position(ctx.writer_position, qty).minted_amount == ctx.writer_position.minted_amount,
{
}

/// On a physical market, reclaiming keeps the position fully collateralized.
pub proof fn law_reclaim_keeps_physical_collateral(ctx: ReclaimCollateral)
    requires
        !ctx.market.is_synthetic,
        fully_collateralized(ctx.writer_position),
        reclaim_fits(ctx),
        reclaim_qty(ctx) > 0,
    ensures
        fully_collateralized(reclaimed_position(ctx)),
{
}

/// On a physical market, a fully collateralized position can always take back
/// its unsold options: reclaiming never runs short of locked collateral.
/// (A synthetic market can: writing 5 and then 5 more options with a payout
/// cap of 1 and one decimal locks nothing each time, while reclaiming the 10
/// asks for 1.)
pub proof fn law_physical_reclaim_always_fits(ctx: ReclaimCollateral)
    requires
        !ctx.market.is_synthetic,
        fully_collateralized(ctx.writer_position),
        fill_bounded(ctx.writer_position),
    ensures
        reclaim_fits(ctx),
{
}

/// Exercising options never pays out more underlying than the collateral that
/// was locked for them: one token per option on a physical market without a
/// split, and at most the payout cap per whole option on a synthetic market
/// (as long as that collateral fits in 64 bits).
pub proof fn law_payout_within_collateral(market: Market, qty: u64, decimals: u8)
    requires
        !market.is_synthetic ==> market.split_numerator == 1 && market.split_denominator == 1,
        market.is_synthetic ==> (qty * market.payout_cap) / (pow10(decimals as nat) as int) <= u64::MAX,
    ensures
        payout_for(market, qty, decimals) <= collateral_for(market, qty, decimals),
{
    if market.is_synthetic {
        if market.settlement_price > market.strike {
            let scale = pow10(decimals as nat) as int;
            lemma_pow10_monotone(0, decimals as nat);
            assert(qty * capped_profit(market) <= qty * market.payout_cap) by (nonlinear_arith)
                requires
                    capped_profit(market) <= market.payout_cap,
                    qty >= 0,
            ;
            lemma_div_is_ordered(qty * capped_profit(market), qty * market.payout_cap, scale);
            assert(0 <= (qty * capped_profit(market)) / scale) by (nonlinear_arith)
                requires
                    qty >= 0,
                    capped_profit(market) >= 0,
                    scale > 0,
            ;
        }
    } else {
        assert(qty * 1 == qty);
    }
}

/// The reclaim that follows a write on a position with nothing unsold.
pub open spec fn reclaim_after_write(ctx: WriteOption, qty: u64, premium_ask: u64) -> ReclaimCollateral {
    ReclaimCollateral {
        market: ctx.market,
        writer_position: written_position(ctx, qty, premium_ask),
        underlying_decimals: ctx.underlying_decimals,
    }
}

/// Reclaiming right after writing `qty` options on a position with nothing
/// unsold undoes the write: it can go ahead, burns exactly the `qty` options,
/// hands back exactly the collateral the write locked, and restores the
/// position's locked and minted amounts.
pub proof fn law_reclaim_undoes_write(ctx: WriteOption, qty: u64, premium_ask: u64)
    requires
        ctx.writer_position.minted_amount == ctx.writer_position.filled_amount,
        ctx.market.strike != 0,
        write_option_fits(ctx, qty),
        qty > 0,
    ensures
        reclaim_fits(reclaim_after_write(ctx, qty, premium_ask)),
        reclaim_qty(reclaim_after_write(ctx, qty, premium_ask)) == qty,
        reclaim_collateral_amount(reclaim_after_write(ctx, qty, premium_ask)) == write_collateral(ctx, qty),
        reclaimed_position(reclaim_after_write(ctx, qty, premium_ask)).locked_amount
            == ctx.writer_position.locked_amount,
        reclaimed_position(reclaim_after_write(ctx, qty, premium_ask)).minted_amount
            == ctx.writer_position.minted_amount,
        reclaim_instructions(reclaim_after_write(ctx, qty, premium_ask))[0]->Burn_amount == qty,
        reclaim_instructions(reclaim_after_write(ctx, qty, premium_ask))[1]->TransferChecked_amount
            == write_collateral(ctx, qty),
{
}

/// A freshly created physical market delivers one underlying token per option.
pub proof fn law_fresh_physical_market_delivers_one_for_one(
    ctx: InitMarket,
    strike: u64,
    expiry_ts: i64,
    exercise_window_secs: i64,
    payout_cap: u64,
    qty: u64,
    decimals: u8,
)
    ensures
        payout_for(
            initialized_market(ctx, strike, expiry_ts, exercise_window_secs, false, payout_cap),
            qty,
            decimals,
        ) == qty,
{
    assert(qty * 1 == qty);
}

/// A synthetic market pays nothing while its settlement price is not above the
/// strike; in particular, a freshly created synthetic market pays nothing.
pub proof fn law_unsettled_synthetic_pays_nothing(market: Market, qty: u64, decimals: u8)
    requires
        market.is_synthetic,
        market.settlement_price <= market.strike,
    ensures
        payout_for(market, qty, decimals) == 0,
{
}

/// After a split of `numerator / denominator`, a physical option delivers
/// `qty * numerator / denominator` underlying tokens.
pub proof fn law_split_scales_delivery(market: Market, numerator: u64, denominator: u64, qty: u64, decimals: u8)
    requires
        !market.is_synthetic,
    ensures
        payout_for(
            Market { split_numerator: numerator, split_denominator: denominator, ..market },
            qty,
            decimals,
        ) == ratio_amount(qty, numerator, denominator),
{
}

/// Resuming right after halting restores a config that was not halted, and
/// halting twice is halting once.
pub proof fn law_resume_undoes_halt(config: Config)
    ensures
        !config.halted ==> resumed_config(halted_config(config)) == config,
        halted_config(halted_config(config)) == halted_config(config),
        resumed_config(resumed_config(config)) == resumed_config(config),
{
}

} // verus!
