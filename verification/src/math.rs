use vstd::prelude::*;

verus! {

/// `10^d` as a mathematical integer.
pub open spec fn pow10(d: nat) -> nat
    decreases d,
{
    if d == 0 {
        1
    } else {
        10 * pow10((d - 1) as nat)
    }
}

/// `10^d` grows with `d`.
pub proof fn lemma_pow10_monotone(a: nat, b: nat)
    requires
        a <= b,
    ensures
        pow10(a) <= pow10(b),
    decreases b,
{
    if a < b {
        lemma_pow10_monotone(a, (b - 1) as nat);
    }
}

/// `10^38` is the largest power of ten that fits in a `u128`.
proof fn lemma_pow10_38_fits()
    ensures
        pow10(38) <= u128::MAX,
        pow10(38) == 100_000_000_000_000_000_000_000_000_000_000_000_000,
{
    reveal_with_fuel(pow10, 39);
}

/// The scale of a mint with `decimals` decimals: `10^decimals` as a `u128`.
/// Beyond 38 decimals the power no longer fits in a `u128`.
pub fn decimal_scale(decimals: u8) -> (scale: u128)
    requires
        decimals <= 38,
    ensures
        scale == pow10(decimals as nat),
{
    let mut scale: u128 = 1;
    let mut i: u8 = 0;
    while i < decimals
        invariant
            i <= decimals <= 38,
            scale == pow10(i as nat),
        decreases decimals - i,
    {
        proof {
            lemma_pow10_38_fits();
            lemma_pow10_monotone((i + 1) as nat, 38);
        }
        scale = scale * 10;
        i = i + 1;
    }
    scale
}

/// `qty * per_unit / 10^decimals`, rounded down and then truncated to 64 bits,
/// as the program computes amounts in `u128` and casts them back with `as u64`.
pub open spec fn scaled_amount(qty: u64, per_unit: u64, decimals: nat) -> u64 {
    ((qty * per_unit) / (pow10(decimals) as int)) as u64
}

/// `qty * numerator / denominator`, rounded down and truncated to 64 bits.
pub open spec fn ratio_amount(qty: u64, numerator: u64, denominator: u64) -> u64 {
    ((qty * numerator) / (denominator as int)) as u64
}

/// The product of two `u64` values always fits in a `u128`.
proof fn lemma_product_fits(a: u64, b: u64)
    ensures
        0 <= a * b <= u128::MAX,
{
    assert(0 <= a * b <= u128::MAX) by (nonlinear_arith)
        requires
            a <= u64::MAX,
            b <= u64::MAX,
    ;
}

/// `qty * per_unit / 10^decimals` as the program computes it.
pub fn scale_down(qty: u64, per_unit: u64, decimals: u8) -> (amount: u64)
    requires
        decimals <= 38,
    ensures
        amount == scaled_amount(qty, per_unit, decimals as nat),
{
    let scale = decimal_scale(decimals);
    proof {
        lemma_product_fits(qty, per_unit);
        lemma_pow10_monotone(0, decimals as nat);
    }
    let product: u128 = (qty as u128) * (per_unit as u128);
    (#[verifier::truncate] ((product / scale) as u64))
}

/// `qty * numerator / denominator` as the program computes it.
pub fn split_scale(qty: u64, numerator: u64, denominator: u64) -> (amount: u64)
    requires
        denominator != 0,
    ensures
        amount == ratio_amount(qty, numerator, denominator),
{
    proof {
        lemma_product_fits(qty, numerator);
    }
    let product: u128 = (qty as u128) * (numerator as u128);
    (#[verifier::truncate] ((product / (denominator as u128)) as u64))
}

/// What `qty` options cost at `premium_ask` quote units per whole option:
/// `qty * premium_ask / 10^6`.
pub fn premium_cost(qty: u64, premium_ask: u64) -> (cost: u64)
    ensures
        cost == scaled_amount(qty, premium_ask, 6),
{
    proof {
        lemma_product_fits(qty, premium_ask);
        reveal_with_fuel(pow10, 7);
    }
    let product: u128 = (qty as u128) * (premium_ask as u128);
    (#[verifier::truncate] ((product / 1_000_000) as u64))
}

/// What exercising `qty` options costs at `strike`: `qty * strike / 1000`.
pub fn strike_cost(qty: u64, strike: u64) -> (cost: u64)
    ensures
        cost == scaled_amount(qty, strike, 3),
{
    proof {
        lemma_product_fits(qty, strike);
        reveal_with_fuel(pow10, 4);
    }
    let product: u128 = (qty as u128) * (strike as u128);
    (#[verifier::truncate] ((product / 1000) as u64))
}

} // verus!
