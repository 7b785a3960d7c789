use vstd::prelude::*;

use crate::error::ErrorCode;
use crate::math::{premium_cost, scaled_amount};
use crate::pricing::{
    collateral_amount, collateral_computable, collateral_for, exercise_cost, exercise_cost_amount,
    payout_amount, payout_computable, payout_for,
};
use crate::pubkey::{mainnet_usdc_mint, mainnet_usdc_text, pubkey_from_base58, Pubkey, PubkeyError};
use crate::seeds::{MarketSeeds, PositionSeeds};
use crate::state::{Config, FactoryConfig, Market, MarketCreator, WriterPosition};
use crate::token::{Authority, MintRole, TokenAccountRole, TokenInstruction};

verus! {

// ---------------------------------------------------------------------------
// Administration
// ---------------------------------------------------------------------------

/// The accounts of `init_config`: the new config account and the signing admin.
#[derive(Clone, Copy, Debug, PartialEq, Eq)]
pub struct InitConfig {
    pub config: Config,
    pub admin: Pubkey,
}

/// Sets up the program config: the signer becomes its admin, and it starts out
/// not halted.
pub fn handle_init_config(
    ctx: &mut InitConfig,
    fee_bps: u16,
    treasury: Pubkey,
    buyback_wallet: Pubkey,
) -> (r: Result<(), ErrorCode>)
    ensures
        r is Ok,
        final(ctx).admin == old(ctx).admin,
        final(ctx).config == (Config {
            admin: old(ctx).admin,
            treasury,
            buyback_wallet,
            fee_bps,
            halted: false,
        }),
{
    ctx.config.admin = ctx.admin;
    ctx.config.treasury = treasury;
    ctx.config.buyback_wallet = buyback_wallet;
    ctx.config.fee_bps = fee_bps;
    ctx.config.halted = false;
    Ok(())
}

/// The accounts of `init_factory`: the new factory account and the signing admin.
#[derive(Clone, Copy, Debug, PartialEq, Eq)]
pub struct InitFactory {
    pub factory_config: FactoryConfig,
    pub admin: Pubkey,
}

/// Sets up the market factory: the signer becomes its admin, with the given
/// creation fee, and it starts out active.
pub fn handle_init_factory(ctx: &mut InitFactory, creation_fee: u64) -> (r: Result<(), ErrorCode>)
    ensures
        r is Ok,
        final(ctx).admin == old(ctx).admin,
        final(ctx).factory_config == (FactoryConfig {
            admin: old(ctx).admin,
            creation_fee,
            is_active: true,
        }),
{
    ctx.factory_config.admin = ctx.admin;
    ctx.factory_config.creation_fee = creation_fee;
    ctx.factory_config.is_active = true;
    Ok(())
}

/// The accounts of `add_creator_allowlist`: the new allow-list entry and the
/// bump of its address.
#[derive(Clone, Copy, Debug, PartialEq, Eq)]
pub struct AddCreatorAllowlist {
    pub market_creator: MarketCreator,
    pub market_creator_bump: u8,
}

/// Allows `creator` to create markets.
pub fn handle_add_creator_allowlist(ctx: &mut AddCreatorAllowlist, creator: Pubkey) -> (r: Result<(), ErrorCode>)
    ensures
        r is Ok,
        final(ctx).market_creator_bump == old(ctx).market_creator_bump,
        final(ctx).market_creator == (MarketCreator {
            authority: creator,
            bump: old(ctx).market_creator_bump,
        }),
{
    ctx.market_creator.authority = creator;
    ctx.market_creator.bump = ctx.market_creator_bump;
    Ok(())
}

/// The accounts of `admin_halt` and `admin_resume`: the config.
#[derive(Clone, Copy, Debug, PartialEq, Eq)]
pub struct AdminHalt {
    pub config: Config,
}

/// The config with the halt set.
pub open spec fn halted_config(config: Config) -> Config {
    Config { halted: true, ..config }
}

/// The config with the halt cleared.
pub open spec fn resumed_config(config: Config) -> Config {
    Config { halted: false, ..config }
}

/// Marks the program halted; nothing else changes.
pub fn handle_admin_halt(ctx: &mut AdminHalt) -> (r: Result<(), ErrorCode>)
    ensures
        r is Ok,
        final(ctx).config == halted_config(old(ctx).config),
{
    ctx.config.halted = true;
    Ok(())
}

/// Clears the halt; nothing else changes.
pub fn handle_admin_resume(ctx: &mut AdminHalt) -> (r: Result<(), ErrorCode>)
    ensures
        r is Ok,
        final(ctx).config == resumed_config(old(ctx).config),
{
    ctx.config.halted = false;
    Ok(())
}

// ---------------------------------------------------------------------------
// Markets
// ---------------------------------------------------------------------------

/// The accounts of `init_market`: the new market, the factory, the mints and
/// the bump of the market's address.
#[derive(Clone, Copy, Debug, PartialEq, Eq)]
pub struct InitMarket {
    pub market: Market,
    pub factory_config: FactoryConfig,
    pub underlying_mint: Pubkey,
    pub quote_mint: Pubkey,
    pub option_mint: Pubkey,
    pub market_bump: u8,
}

/// The market that `init_market` writes.
pub open spec fn initialized_market(
    ctx: InitMarket,
    strike: u64,
    expiry_ts: i64,
    exercise_window_secs: i64,
    is_synthetic: bool,
    payout_cap: u64,
) -> Market {
    Market {
        underlying_mint: ctx.underlying_mint,
        quote_mint: ctx.quote_mint,
        strike,
        expiry_ts,
        exercise_window_secs,
        option_mint: ctx.option_mint,
        bump: ctx.market_bump,
        split_numerator: 1,
        split_denominator: 1,
        is_synthetic,
        payout_cap,
        settlement_price: 0,
    }
}

/// Creates a market, while the factory is active: no split (1/1) and not settled.
pub fn handle_init_market(
    ctx: &mut InitMarket,
    strike: u64,
    expiry_ts: i64,
    exercise_window_secs: i64,
    is_synthetic: bool,
    payout_cap: u64,
) -> (r: Result<(), ErrorCode>)
    ensures
        r is Ok <==> old(ctx).factory_config.is_active,
        r is Err ==> r->Err_0 == ErrorCode::FactoryNotActive && *final(ctx) == *old(ctx),
        r is Ok ==> *final(ctx) == (InitMarket {
            market: initialized_market(*old(ctx), strike, expiry_ts, exercise_window_secs, is_synthetic, payout_cap),
            ..*old(ctx)
        }),
{
    if !ctx.factory_config.is_active {
        return Err(ErrorCode::FactoryNotActive);
    }
    ctx.market.underlying_mint = ctx.underlying_mint;
    ctx.market.quote_mint = ctx.quote_mint;
    ctx.market.strike = strike;
    ctx.market.expiry_ts = expiry_ts;
    ctx.market.exercise_window_secs = exercise_window_secs;
    ctx.market.option_mint = ctx.option_mint;
    ctx.market.bump = ctx.market_bump;
    ctx.market.split_numerator = 1;
    ctx.market.split_denominator = 1;
    ctx.market.is_synthetic = is_synthetic;
    ctx.market.payout_cap = payout_cap;
    ctx.market.settlement_price = 0;
    Ok(())
}

/// The accounts of `corporate_action_split`: the market.
#[derive(Clone, Copy, Debug, PartialEq, Eq)]
pub struct CorporateActionSplit {
    pub market: Market,
}

/// Records a split of the underlying: each option then delivers
/// `numerator / denominator` underlying tokens.
pub fn handle_corporate_action_split(
    ctx: &mut CorporateActionSplit,
    numerator: u64,
    denominator: u64,
) -> (r: Result<(), ErrorCode>)
    ensures
        r is Ok,
        final(ctx).market == (Market {
            split_numerator: numerator,
            split_denominator: denominator,
            ..old(ctx).market
        }),
{
    ctx.market.split_numerator = numerator;
    ctx.market.split_denominator = denominator;
    Ok(())
}

/// The seeds by which the program signs for a market.
pub open spec fn market_seeds_of(market: Market) -> MarketSeeds {
    MarketSeeds {
        underlying_mint: market.underlying_mint,
        quote_mint: market.quote_mint,
        strike: market.strike,
        expiry_ts: market.expiry_ts,
        bump: market.bump,
    }
}

/// The seeds by which the program signs for a writer position.
pub open spec fn position_seeds_of(position: WriterPosition) -> PositionSeeds {
    PositionSeeds { market: position.market, writer: position.writer, bump: position.bump }
}

fn market_seeds(market: &Market) -> (seeds: MarketSeeds)
    ensures
        seeds == market_seeds_of(*market),
{
    MarketSeeds {
        underlying_mint: market.underlying_mint,
        quote_mint: market.quote_mint,
        strike: market.strike,
        expiry_ts: market.expiry_ts,
        bump: market.bump,
    }
}

fn position_seeds(position: &WriterPosition) -> (seeds: PositionSeeds)
    ensures
        seeds == position_seeds_of(*position),
{
    PositionSeeds { market: position.market, writer: position.writer, bump: position.bump }
}

// ---------------------------------------------------------------------------
// Writing options
// ---------------------------------------------------------------------------

/// The accounts of `write_option`: the market and its address, the writer's
/// position (zeroed when it is created by this instruction) and the bump of its
/// address, the signing writer, and the decimals of the underlying mint.
#[derive(Clone, Copy, Debug, PartialEq, Eq)]
pub struct WriteOption {
    pub market: Market,
    pub market_key: Pubkey,
    pub writer_position: WriterPosition,
    pub writer_position_bump: u8,
    pub writer: Pubkey,
    pub underlying_decimals: u8,
}

/// The collateral that writing `qty` options locks.
pub open spec fn write_collateral(ctx: WriteOption, qty: u64) -> u64 {
    collateral_for(ctx.market, qty, ctx.underlying_decimals)
}

/// What `write_option` needs so that none of its steps panics: the collateral
/// can be computed, and neither position total overflows.
pub open spec fn write_option_fits(ctx: WriteOption, qty: u64) -> bool {
    ctx.market.strike != 0 ==> {
        &&& collateral_computable(ctx.market, ctx.underlying_decimals)
        &&& ctx.writer_position.locked_amount + write_collateral(ctx, qty) <= u64::MAX
        &&& ctx.writer_position.minted_amount + qty <= u64::MAX
    }
}

/// The position after writing `qty` options at `premium_ask`.
pub open spec fn written_position(ctx: WriteOption, qty: u64, premium_ask: u64) -> WriterPosition {
    WriterPosition {
        market: ctx.market_key,
        writer: ctx.writer,
        locked_amount: (ctx.writer_position.locked_amount + write_collateral(ctx, qty)) as u64,
        minted_amount: (ctx.writer_position.minted_amount + qty) as u64,
        premium_ask,
        filled_amount: ctx.writer_position.filled_amount,
        bump: ctx.writer_position_bump,
    }
}

/// The token instructions of `write_option`: the writer's collateral goes into
/// the market's vault, and the market mints the options into the position's escrow.
pub open spec fn write_option_instructions(ctx: WriteOption, qty: u64) -> Seq<TokenInstruction> {
    seq![
        TokenInstruction::TransferChecked {
            from: TokenAccountRole::WriterUnderlyingAta,
            mint: MintRole::UnderlyingMint,
            to: TokenAccountRole::CollateralVault,
            authority: Authority::Signer,
            amount: write_collateral(ctx, qty),
            decimals: ctx.underlying_decimals,
        },
        TokenInstruction::MintTo {
            mint: MintRole::OptionMint,
            to: TokenAccountRole::EscrowOptionVault,
            authority: Authority::Market(market_seeds_of(ctx.market)),
            amount: qty,
        },
    ]
}

/// Writes `qty` options: locks their collateral, mints them into escrow, and
/// records them on the writer's position with the writer's premium ask. A
/// market with a zero strike is refused as halted.
pub fn handle_write_option(ctx: &mut WriteOption, qty: u64, premium_ask: u64) -> (r: Result<
    Vec<TokenInstruction>,
    ErrorCode,
>)
    requires
        write_option_fits(*old(ctx), qty),
    ensures
        r is Err <==> old(ctx).market.strike == 0,
        r is Err ==> r->Err_0 == ErrorCode::MarketHalted && *final(ctx) == *old(ctx),
        r is Ok ==> *final(ctx) == (WriteOption {
            writer_position: written_position(*old(ctx), qty, premium_ask),
            ..*old(ctx)
        }),
        r is Ok ==> r->Ok_0@ == write_option_instructions(*old(ctx), qty),
{
    if ctx.market.strike == 0 {
        return Err(ErrorCode::MarketHalted);
    }
    let collateral = collateral_amount(&ctx.market, qty, ctx.underlying_decimals);
    let mut instructions: Vec<TokenInstruction> = Vec::new();
    instructions.push(
        TokenInstruction::TransferChecked {
            from: TokenAccountRole::WriterUnderlyingAta,
            mint: MintRole::UnderlyingMint,
            to: TokenAccountRole::CollateralVault,
            authority: Authority::Signer,
            amount: collateral,
            decimals: ctx.underlying_decimals,
        },
    );
    instructions.push(
        TokenInstruction::MintTo {
            mint: MintRole::OptionMint,
            to: TokenAccountRole::EscrowOptionVault,
            authority: Authority::Market(market_seeds(&ctx.market)),
            amount: qty,
        },
    );
    ctx.writer_position.market = ctx.market_key;
    ctx.writer_position.writer = ctx.writer;
    ctx.writer_position.locked_amount = ctx.writer_position.locked_amount + collateral;
    ctx.writer_position.minted_amount = ctx.writer_position.minted_amount + qty;
    ctx.writer_position.premium_ask = premium_ask;
    ctx.writer_position.bump = ctx.writer_position_bump;
    assert(instructions@ =~= write_option_instructions(*old(ctx), qty));
    Ok(instructions)
}

// ---------------------------------------------------------------------------
// Buying options
// ---------------------------------------------------------------------------

/// The accounts of `buy_option`: the writer's position, the quote mint, the
/// signing buyer, and the decimals of the option mint.
#[derive(Clone, Copy, Debug, PartialEq, Eq)]
pub struct BuyOption {
    pub writer_position: WriterPosition,
    pub quote_mint: Pubkey,
    pub buyer: Pubkey,
    pub option_mint_decimals: u8,
}

/// Whether the purchase is a writer buying from their own position with the
/// mainnet USDC mint as quote.
pub open spec fn is_self_trade(ctx: BuyOption, mainnet_usdc: Pubkey) -> bool {
    ctx.quote_mint == mainnet_usdc && ctx.buyer == ctx.writer_position.writer
}

/// The options still in the position's escrow.
pub open spec fn unsold_options(position: WriterPosition) -> int {
    position.minted_amount - position.filled_amount
}

/// The refusal of a purchase of `qty`, if any.
pub open spec fn buy_option_error(ctx: BuyOption, qty: u64, mainnet_usdc: Pubkey) -> Option<ErrorCode> {
    if is_self_trade(ctx, mainnet_usdc) {
        Some(ErrorCode::CannotTradeWithSelf)
    } else if unsold_options(ctx.writer_position) < qty {
        Some(ErrorCode::InsufficientOptions)
    } else {
        None
    }
}

/// The premium that buying `qty` options from the position costs.
pub open spec fn buy_cost(ctx: BuyOption, qty: u64) -> u64 {
    scaled_amount(qty, ctx.writer_position.premium_ask, 6)
}

/// The token instructions of `buy_option`: the buyer pays the writer the
/// premium in the quote mint (6 decimals), and the position releases the
/// options from escrow to the buyer.
pub open spec fn buy_option_instructions(ctx: BuyOption, qty: u64) -> Seq<TokenInstruction> {
    seq![
        TokenInstruction::TransferChecked {
            from: TokenAccountRole::BuyerQuoteAta,
            mint: MintRole::QuoteMint,
            to: TokenAccountRole::WriterQuoteAta,
            authority: Authority::Signer,
            amount: buy_cost(ctx, qty),
            decimals: 6,
        },
        TokenInstruction::TransferChecked {
            from: TokenAccountRole::EscrowOptionVault,
            mint: MintRole::OptionMint,
            to: TokenAccountRole::BuyerOptionAta,
            authority: Authority::WriterPosition(position_seeds_of(ctx.writer_position)),
            amount: qty,
            decimals: ctx.option_mint_decimals,
        },
    ]
}

/// The position after `qty` of its options are sold.
pub open spec fn bought_position(position: WriterPosition, qty: u64) -> WriterPosition {
    WriterPosition { filled_amount: (position.filled_amount + qty) as u64, ..position }
}

/// Buys `qty` options out of a writer's escrow at the writer's premium ask.
/// With `mainnet_usdc` as quote, a writer cannot buy from themself. Unless
/// the purchase is refused as such, the position must not have more options
/// filled than minted.
pub fn handle_buy_option(ctx: &mut BuyOption, qty: u64, mainnet_usdc: &Pubkey) -> (r: Result<
    Vec<TokenInstruction>,
    ErrorCode,
>)
    requires
        is_self_trade(*old(ctx), *mainnet_usdc)
            || old(ctx).writer_position.filled_amount <= old(ctx).writer_position.minted_amount,
    ensures
        r is Err <==> buy_option_error(*old(ctx), qty, *mainnet_usdc) is Some,
        r is Err ==> r->Err_0 == buy_option_error(*old(ctx), qty, *mainnet_usdc)->0 && *final(ctx)
            == *old(ctx),
        r is Ok ==> *final(ctx) == (BuyOption {
            writer_position: bought_position(old(ctx).writer_position, qty),
            ..*old(ctx)
        }),
        r is Ok ==> r->Ok_0@ == buy_option_instructions(*old(ctx), qty),
{
    if ctx.quote_mint.key_eq(mainnet_usdc) {
        if ctx.buyer.key_eq(&ctx.writer_position.writer) {
            return Err(ErrorCode::CannotTradeWithSelf);
        }
    }
    let available = ctx.writer_position.minted_amount - ctx.writer_position.filled_amount;
    if available < qty {
        return Err(ErrorCode::InsufficientOptions);
    }
    let total_cost = premium_cost(qty, ctx.writer_position.premium_ask);
    let mut instructions: Vec<TokenInstruction> = Vec::new();
    instructions.push(
        TokenInstruction::TransferChecked {
            from: TokenAccountRole::BuyerQuoteAta,
            mint: MintRole::QuoteMint,
            to: TokenAccountRole::WriterQuoteAta,
            authority: Authority::Signer,
            amount: total_cost,
            decimals: 6,
        },
    );
    instructions.push(
        TokenInstruction::TransferChecked {
            from: TokenAccountRole::EscrowOptionVault,
            mint: MintRole::OptionMint,
            to: TokenAccountRole::BuyerOptionAta,
            authority: Authority::WriterPosition(position_seeds(&ctx.writer_position)),
            amount: qty,
            decimals: ctx.option_mint_decimals,
        },
    );
    ctx.writer_position.filled_amount = ctx.writer_position.filled_amount + qty;
    assert(instructions@ =~= buy_option_instructions(*old(ctx), qty));
    Ok(instructions)
}

/// Whether `key` is the mainnet USDC mint, as its base58 address parses.
pub open spec fn is_mainnet_usdc(key: Pubkey) -> bool {
    pubkey_from_base58(mainnet_usdc_text()) == Ok::<Seq<u8>, PubkeyError>(key.bytes@)
}

/// Whether the purchase is a writer buying from their own position with the
/// mainnet USDC mint as quote.
pub open spec fn is_mainnet_self_trade(ctx: BuyOption) -> bool {
    is_mainnet_usdc(ctx.quote_mint) && ctx.buyer == ctx.writer_position.writer
}

/// The refusal of a purchase of `qty` against the mainnet USDC mint, if any.
pub open spec fn mainnet_buy_error(ctx: BuyOption, qty: u64) -> Option<ErrorCode> {
    if is_mainnet_self_trade(ctx) {
        Some(ErrorCode::CannotTradeWithSelf)
    } else if unsold_options(ctx.writer_position) < qty {
        Some(ErrorCode::InsufficientOptions)
    } else {
        None
    }
}

/// Whether a purchase against the mainnet USDC mint goes through to its
/// checks: the mint's address parses, and unless the purchase is a self-trade
/// the position has no more options filled than minted.
pub open spec fn mainnet_buy_proceeds(ctx: BuyOption) -> bool {
    &&& pubkey_from_base58(mainnet_usdc_text()) is Ok
    &&& (is_mainnet_self_trade(ctx) || ctx.writer_position.filled_amount
        <= ctx.writer_position.minted_amount)
}

/// Buys `qty` options with the self-trade bar keyed to the mainnet USDC mint,
/// which it parses from its base58 address. Returns `None`, and changes
/// nothing, where the purchase cannot proceed: the address does not parse, or
/// the position has more options filled than minted. Otherwise it returns what
/// `handle_buy_option` does with that mint.
pub fn buy_option_against_mainnet_usdc(ctx: &mut BuyOption, qty: u64) -> (r: Option<
    Result<Vec<TokenInstruction>, ErrorCode>,
>)
    ensures
        r is None <==> !mainnet_buy_proceeds(*old(ctx)),
        r is None ==> *final(ctx) == *old(ctx),
        r matches Some(res) ==> (res is Err <==> mainnet_buy_error(*old(ctx), qty) is Some),
        r matches Some(res) ==> (res is Err ==> res->Err_0 == mainnet_buy_error(*old(ctx), qty)->0
            && *final(ctx) == *old(ctx)),
        r matches Some(res) ==> (res is Ok ==> *final(ctx) == (BuyOption {
            writer_position: bought_position(old(ctx).writer_position, qty),
            ..*old(ctx)
        })),
        r matches Some(res) ==> (res is Ok ==> res->Ok_0@ == buy_option_instructions(*old(ctx), qty)),
{
    let usdc = match mainnet_usdc_mint() {
        Ok(key) => key,
        Err(_) => return None,
    };
    proof {
        assert(is_self_trade(*ctx, usdc) == is_mainnet_self_trade(*ctx)) by {
            if ctx.quote_mint.bytes@ == usdc.bytes@ {
                assert(ctx.quote_mint.bytes =~= usdc.bytes);
            }
        }
    }
    let self_trade = ctx.quote_mint.key_eq(&usdc) && ctx.buyer.key_eq(&ctx.writer_position.writer);
    if !self_trade && ctx.writer_position.filled_amount > ctx.writer_position.minted_amount {
        return None;
    }
    Some(handle_buy_option(ctx, qty, &usdc))
}

// ---------------------------------------------------------------------------
// Exercising options
// ---------------------------------------------------------------------------

/// The accounts of `exercise_option`: the market and the decimals of its
/// underlying and quote mints.
#[derive(Clone, Copy, Debug, PartialEq, Eq)]
pub struct ExerciseOption {
    pub market: Market,
    pub underlying_decimals: u8,
    pub quote_decimals: u8,
}

/// The end of the exercise window: the expiry plus the window's length.
pub open spec fn window_end(market: Market) -> int {
    market.expiry_ts + market.exercise_window_secs
}

/// The refusal of an exercise at time `now`, if any.
pub open spec fn exercise_error(market: Market, now: i64) -> Option<ErrorCode> {
    if now < market.expiry_ts {
        Some(ErrorCode::NotExpired)
    } else if now > window_end(market) {
        Some(ErrorCode::NotWithinExerciseWindow)
    } else {
        None
    }
}

/// What `exercise_option` needs so that none of its steps panics: once the
/// option has expired, the window's end fits in an `i64`, and once within the
/// window, the payout can be computed.
pub open spec fn exercise_fits(ctx: ExerciseOption, now: i64) -> bool {
    &&& now >= ctx.market.expiry_ts ==> i64::MIN <= window_end(ctx.market) <= i64::MAX
    &&& exercise_error(ctx.market, now) is None ==> payout_computable(ctx.market, ctx.underlying_decimals)
}

/// The underlying that exercising `qty` options pays.
pub open spec fn exercise_payout(ctx: ExerciseOption, qty: u64) -> u64 {
    payout_for(ctx.market, qty, ctx.underlying_decimals)
}

/// The burn of the exercised options.
pub open spec fn exercise_burn(qty: u64) -> Seq<TokenInstruction> {
    seq![
        TokenInstruction::Burn {
            mint: MintRole::OptionMint,
            from: TokenAccountRole::ExerciserOptionAta,
            authority: Authority::Signer,
            amount: qty,
        },
    ]
}

/// The strike payment of a physical market; a synthetic market takes none.
pub open spec fn exercise_payment(ctx: ExerciseOption, qty: u64) -> Seq<TokenInstruction> {
    if ctx.market.is_synthetic {
        seq![]
    } else {
        seq![
            TokenInstruction::TransferChecked {
                from: TokenAccountRole::ExerciserQuoteAta,
                mint: MintRole::QuoteMint,
                to: TokenAccountRole::QuoteVault,
                authority: Authority::Signer,
                amount: exercise_cost(ctx.market, qty),
                decimals: ctx.quote_decimals,
            },
        ]
    }
}

/// The delivery of the payout from the collateral vault, when there is any.
pub open spec fn exercise_delivery(ctx: ExerciseOption, qty: u64) -> Seq<TokenInstruction> {
    if exercise_payout(ctx, qty) > 0 {
        seq![
            TokenInstruction::TransferChecked {
                from: TokenAccountRole::CollateralVault,
                mint: MintRole::UnderlyingMint,
                to: TokenAccountRole::ExerciserUnderlyingAta,
                authority: Authority::Market(market_seeds_of(ctx.market)),
                amount: exercise_payout(ctx, qty),
                decimals: ctx.underlying_decimals,
            },
        ]
    } else {
        seq![]
    }
}

/// The token instructions of `exercise_option`, in order.
pub open spec fn exercise_instructions(ctx: ExerciseOption, qty: u64) -> Seq<TokenInstruction> {
    exercise_burn(qty) + exercise_payment(ctx, qty) + exercise_delivery(ctx, qty)
}

/// Exercises `qty` options at time `now`, which must lie within the exercise
/// window: from the expiry to the expiry plus the window, both included. The
/// options are burnt, a physical market takes the strike in quote tokens, and
/// the payout is delivered from the collateral vault. No account changes.
pub fn handle_exercise(ctx: &ExerciseOption, qty: u64, now: i64) -> (r: Result<
    Vec<TokenInstruction>,
    ErrorCode,
>)
    requires
        exercise_fits(*ctx, now),
    ensures
        r is Err <==> exercise_error(ctx.market, now) is Some,
        r is Err ==> r->Err_0 == exercise_error(ctx.market, now)->0,
        r is Ok ==> r->Ok_0@ == exercise_instructions(*ctx, qty),
{
    let market = &ctx.market;
    if now < market.expiry_ts {
        return Err(ErrorCode::NotExpired);
    }
    if now > market.expiry_ts + market.exercise_window_secs {
        return Err(ErrorCode::NotWithinExerciseWindow);
    }
    let total_cost = exercise_cost_amount(market, qty);
    let mut instructions: Vec<TokenInstruction> = Vec::new();
    instructions.push(
        TokenInstruction::Burn {
            mint: MintRole::OptionMint,
            from: TokenAccountRole::ExerciserOptionAta,
            authority: Authority::Signer,
            amount: qty,
        },
    );
    if !market.is_synthetic {
        instructions.push(
            TokenInstruction::TransferChecked {
                from: TokenAccountRole::ExerciserQuoteAta,
                mint: MintRole::QuoteMint,
                to: TokenAccountRole::QuoteVault,
                authority: Authority::Signer,
                amount: total_cost,
                decimals: ctx.quote_decimals,
            },
        );
    }
    let payout = payout_amount(market, qty, ctx.underlying_decimals);
    if payout > 0 {
        instructions.push(
            TokenInstruction::TransferChecked {
                from: TokenAccountRole::CollateralVault,
                mint: MintRole::UnderlyingMint,
                to: TokenAccountRole::ExerciserUnderlyingAta,
                authority: Authority::Market(market_seeds(market)),
                amount: payout,
                decimals: ctx.underlying_decimals,
            },
        );
    }
    assert(instructions@ =~= exercise_instructions(*ctx, qty));
    Ok(instructions)
}

// ---------------------------------------------------------------------------
// Reclaiming collateral
// ---------------------------------------------------------------------------

/// The accounts of `reclaim_collateral`: the market, the writer's position,
/// and the decimals of the underlying mint.
#[derive(Clone, Copy, Debug, PartialEq, Eq)]
pub struct ReclaimCollateral {
    pub market: Market,
    pub writer_position: WriterPosition,
    pub underlying_decimals: u8,
}

/// The unsold options of the position, as a `u64`.
pub open spec fn reclaim_qty(ctx: ReclaimCollateral) -> u64 {
    (ctx.writer_position.minted_amount - ctx.writer_position.filled_amount) as u64
}

/// The collateral that backs the unsold options.
pub open spec fn reclaim_collateral_amount(ctx: ReclaimCollateral) -> u64 {
    collateral_for(ctx.market, reclaim_qty(ctx), ctx.underlying_decimals)
}

/// What `reclaim_collateral` needs so that none of its steps panics: no more
/// options are filled than minted, and when some are unsold, their collateral
/// can be computed and is no more than what the position has locked.
pub open spec fn reclaim_fits(ctx: ReclaimCollateral) -> bool {
    &&& ctx.writer_position.filled_amount <= ctx.writer_position.minted_amount
    &&& reclaim_qty(ctx) > 0 ==> {
        &&& collateral_computable(ctx.market, ctx.underlying_decimals)
        &&& reclaim_collateral_amount(ctx) <= ctx.writer_position.locked_amount
    }
}

/// The position after its unsold options are burnt and their collateral returned.
pub open spec fn reclaimed_position(ctx: ReclaimCollateral) -> WriterPosition {
    WriterPosition {
        minted_amount: (ctx.writer_position.minted_amount - reclaim_qty(ctx)) as u64,
        locked_amount: (ctx.writer_position.locked_amount - reclaim_collateral_amount(ctx)) as u64,
        ..ctx.writer_position
    }
}

/// The token instructions of `reclaim_collateral`: the position burns its
/// unsold options, and the market returns their collateral to the writer.
pub open spec fn reclaim_instructions(ctx: ReclaimCollateral) -> Seq<TokenInstruction> {
    seq![
        TokenInstruction::Burn {
            mint: MintRole::OptionMint,
            from: TokenAccountRole::EscrowOptionVault,
            authority: Authority::WriterPosition(position_seeds_of(ctx.writer_position)),
            amount: reclaim_qty(ctx),
        },
        TokenInstruction::TransferChecked {
            from: TokenAccountRole::CollateralVault,
            mint: MintRole::UnderlyingMint,
            to: TokenAccountRole::WriterUnderlyingAta,
            authority: Authority::Market(market_seeds_of(ctx.market)),
            amount: reclaim_collateral_amount(ctx),
            decimals: ctx.underlying_decimals,
        },
    ]
}

/// Takes back the options a writer has not sold and the collateral behind
/// them. Refused when every minted option is sold.
pub fn handle_reclaim_collateral(ctx: &mut ReclaimCollateral) -> (r: Result<
    Vec<TokenInstruction>,
    ErrorCode,
>)
    requires
        reclaim_fits(*old(ctx)),
    ensures
        r is Err <==> reclaim_qty(*old(ctx)) == 0,
        r is Err ==> r->Err_0 == ErrorCode::NoUnsoldOptions && *final(ctx) == *old(ctx),
        r is Ok ==> *final(ctx) == (ReclaimCollateral {
            writer_position: reclaimed_position(*old(ctx)),
            ..*old(ctx)
        }),
        r is Ok ==> r->Ok_0@ == reclaim_instructions(*old(ctx)),
{
    let unsold_qty = ctx.writer_position.minted_amount - ctx.writer_position.filled_amount;
    if unsold_qty == 0 {
        return Err(ErrorCode::NoUnsoldOptions);
    }
    let collateral_to_return = collateral_amount(&ctx.market, unsold_qty, ctx.underlying_decimals);
    let mut instructions: Vec<TokenInstruction> = Vec::new();
    instructions.push(
        TokenInstruction::Burn {
            mint: MintRole::OptionMint,
            from: TokenAccountRole::EscrowOptionVault,
            authority: Authority::WriterPosition(position_seeds(&ctx.writer_position)),
            amount: unsold_qty,
        },
    );
    instructions.push(
        TokenInstruction::TransferChecked {
            from: TokenAccountRole::CollateralVault,
            mint: MintRole::UnderlyingMint,
            to: TokenAccountRole::WriterUnderlyingAta,
            authority: Authority::Market(market_seeds(&ctx.market)),
            amount: collateral_to_return,
            decimals: ctx.underlying_decimals,
        },
    );
    ctx.writer_position.minted_amount = ctx.writer_position.minted_amount - unsold_qty;
    ctx.writer_position.locked_amount = ctx.writer_position.locked_amount - collateral_to_return;
    assert(instructions@ =~= reclaim_instructions(*old(ctx)));
    Ok(instructions)
}

} // verus!
