use vstd::prelude::*;

use crate::math::{ratio_amount, scale_down, scaled_amount, split_scale, strike_cost};
use crate::state::Market;

verus! {

/// The underlying collateral that backs `qty` options of `market`, whose
/// underlying mint has `decimals` decimals: the options themselves for a
/// physical market, `qty * payout_cap / 10^decimals` for a synthetic one.
pub open spec fn collateral_for(market: Market, qty: u64, decimals: u8) -> u64 {
    if market.is_synthetic {
        scaled_amount(qty, market.payout_cap, decimals as nat)
    } else {
        qty
    }
}

/// What `collateral_for` needs in order to be computed without a panic.
pub open spec fn collateral_computable(market: Market, decimals: u8) -> bool {
    market.is_synthetic ==> decimals <= 38
}

/// The quote tokens that exercising `qty` options costs: `qty * strike / 1000`.
pub open spec fn exercise_cost(market: Market, qty: u64) -> u64 {
    scaled_amount(qty, market.strike, 3)
}

/// The profit per whole option of a settled synthetic market, capped at the
/// market's payout cap; zero while the settlement price is not above the strike.
pub open spec fn capped_profit(market: Market) -> u64 {
    if market.settlement_price > market.strike {
        let profit = (market.settlement_price - market.strike) as u64;
        if market.payout_cap <= profit {
            market.payout_cap
        } else {
            profit
        }
    } else {
        0
    }
}

/// The underlying tokens that exercising `qty` options pays out. A synthetic
/// market pays the capped profit, scaled by the underlying's decimals; a
/// physical market delivers the options adjusted by its split ratio.
pub open spec fn payout_for(market: Market, qty: u64, decimals: u8) -> u64 {
    if market.is_synthetic {
        if market.settlement_price > market.strike {
            scaled_amount(qty, capped_profit(market), decimals as nat)
        } else {
            0
        }
    } else {
        ratio_amount(qty, market.split_numerator, market.split_denominator)
    }
}

/// What `payout_for` needs in order to be computed without a panic.
pub open spec fn payout_computable(market: Market, decimals: u8) -> bool {
    &&& (market.is_synthetic && market.settlement_price > market.strike) ==> decimals <= 38
    &&& !market.is_synthetic ==> market.split_denominator != 0
}

/// The collateral to lock for, or hand back from, `qty` options.
pub fn collateral_amount(market: &Market, qty: u64, decimals: u8) -> (amount: u64)
    requires
        collateral_computable(*market, decimals),
    ensures
        amount == collateral_for(*market, qty, decimals),
{
    if market.is_synthetic {
        scale_down(qty, market.payout_cap, decimals)
    } else {
        qty
    }
}

/// The underlying paid out for exercising `qty` options.
pub fn payout_amount(market: &Market, qty: u64, decimals: u8) -> (amount: u64)
    requires
        payout_computable(*market, decimals),
    ensures
        amount == payout_for(*market, qty, decimals),
{
    if market.is_synthetic {
        if market.settlement_price > market.strike {
            let profit = market.settlement_price.saturating_sub(market.strike);
            let capped = if market.payout_cap <= profit {
                market.payout_cap
            } else {
                profit
            };
            scale_down(qty, capped, decimals)
        } else {
            0
        }
    } else {
        split_scale(qty, market.split_numerator, market.split_denominator)
    }
}

/// The quote tokens owed for exercising `qty` options.
pub fn exercise_cost_amount(market: &Market, qty: u64) -> (cost: u64)
    ensures
        cost == exercise_cost(*market, qty),
{
    strike_cost(qty, market.strike)
}

} // verus!
