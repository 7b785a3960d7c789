use stableperp::error::ErrorCode;
use stableperp::instructions::{
    handle_add_creator_allowlist, handle_admin_halt, handle_admin_resume, handle_buy_option,
    handle_corporate_action_split, handle_exercise, buy_option_against_mainnet_usdc, handle_init_config, handle_init_factory,
    handle_init_market, handle_reclaim_collateral, handle_write_option, AddCreatorAllowlist,
    AdminHalt, BuyOption, CorporateActionSplit, ExerciseOption, InitConfig, InitFactory,
    InitMarket, ReclaimCollateral, WriteOption,
};
use stableperp::pubkey::{mainnet_usdc_mint, Pubkey};
use stableperp::seeds::{MarketSeeds, PositionSeeds};
use stableperp::state::{Config, FactoryConfig, Market, MarketCreator, WriterPosition};
use stableperp::token::{Authority, MintRole, TokenAccountRole, TokenInstruction};

fn key(b: u8) -> Pubkey {
    Pubkey::new_from_array([b; 32])
}

fn usdc() -> Pubkey {
    mainnet_usdc_mint().unwrap()
}

fn config() -> Config {
    Config {
        admin: key(1),
        treasury: key(2),
        buyback_wallet: key(3),
        fee_bps: 30,
        halted: false,
    }
}

fn market(is_synthetic: bool) -> Market {
    Market {
        underlying_mint: key(10),
        quote_mint: key(11),
        strike: 155,
        expiry_ts: 1_700_000_000,
        exercise_window_secs: 3_600,
        option_mint: key(12),
        bump: 254,
        split_numerator: 1,
        split_denominator: 1,
        is_synthetic,
        payout_cap: 50_000_000,
        settlement_price: 0,
    }
}

fn market_seeds(m: &Market) -> MarketSeeds {
    MarketSeeds {
        underlying_mint: m.underlying_mint,
        quote_mint: m.quote_mint,
        strike: m.strike,
        expiry_ts: m.expiry_ts,
        bump: m.bump,
    }
}

fn write_ctx(m: Market, position: WriterPosition) -> WriteOption {
    WriteOption {
        market: m,
        market_key: key(20),
        writer_position: position,
        writer_position_bump: 253,
        writer: key(21),
        underlying_decimals: 9,
    }
}

#[test]
fn init_config_sets_admin_and_clears_halt() {
    let mut ctx = InitConfig {
        config: Config { halted: true, ..config() },
        admin: key(7),
    };
    assert_eq!(handle_init_config(&mut ctx, 25, key(8), key(9)), Ok(()));
    assert_eq!(
        ctx.config,
        Config { admin: key(7), treasury: key(8), buyback_wallet: key(9), fee_bps: 25, halted: false }
    );
}

#[test]
fn init_factory_is_active() {
    let mut ctx = InitFactory {
        factory_config: FactoryConfig { admin: key(0), creation_fee: 0, is_active: false },
        admin: key(5),
    };
    assert_eq!(handle_init_factory(&mut ctx, 1_000), Ok(()));
    assert_eq!(ctx.factory_config, FactoryConfig { admin: key(5), creation_fee: 1_000, is_active: true });
}

#[test]
fn add_creator_records_authority_and_bump() {
    let mut ctx = AddCreatorAllowlist {
        market_creator: MarketCreator { authority: key(0), bump: 0 },
        market_creator_bump: 251,
    };
    assert_eq!(handle_add_creator_allowlist(&mut ctx, key(42)), Ok(()));
    assert_eq!(ctx.market_creator, MarketCreator { authority: key(42), bump: 251 });
}

#[test]
fn halt_then_resume() {
    let mut ctx = AdminHalt { config: config() };
    assert_eq!(handle_admin_halt(&mut ctx), Ok(()));
    assert!(ctx.config.halted);
    assert_eq!(handle_admin_halt(&mut ctx), Ok(()));
    assert!(ctx.config.halted);
    assert_eq!(handle_admin_resume(&mut ctx), Ok(()));
    assert_eq!(ctx.config, config());
}

fn init_market_ctx(active: bool) -> InitMarket {
    InitMarket {
        market: market(true),
        factory_config: FactoryConfig { admin: key(1), creation_fee: 0, is_active: active },
        underlying_mint: key(30),
        quote_mint: key(31),
        option_mint: key(32),
        market_bump: 250,
    }
}

#[test]
fn init_market_writes_a_fresh_market() {
    let mut ctx = init_market_ctx(true);
    assert_eq!(handle_init_market(&mut ctx, 200, 1_800_000_000, 7_200, false, 9), Ok(()));
    assert_eq!(
        ctx.market,
        Market {
            underlying_mint: key(30),
            quote_mint: key(31),
            strike: 200,
            expiry_ts: 1_800_000_000,
            exercise_window_secs: 7_200,
            option_mint: key(32),
            bump: 250,
            split_numerator: 1,
            split_denominator: 1,
            is_synthetic: false,
            payout_cap: 9,
            settlement_price: 0,
        }
    );
}

#[test]
fn init_market_refused_when_factory_inactive() {
    let mut ctx = init_market_ctx(false);
    let before = ctx;
    assert_eq!(
        handle_init_market(&mut ctx, 200, 1_800_000_000, 7_200, false, 9),
        Err(ErrorCode::FactoryNotActive)
    );
    assert_eq!(ctx, before);
}

#[test]
fn split_sets_ratio() {
    let mut ctx = CorporateActionSplit { market: market(false) };
    assert_eq!(handle_corporate_action_split(&mut ctx, 3, 2), Ok(()));
    assert_eq!(ctx.market, Market { split_numerator: 3, split_denominator: 2, ..market(false) });
}

#[test]
fn write_physical_locks_one_per_option() {
    let m = market(false);
    let mut ctx = write_ctx(m, WriterPosition::zeroed());
    let ins = handle_write_option(&mut ctx, 1_000, 2_500_000).unwrap();
    assert_eq!(
        ins,
        vec![
            TokenInstruction::TransferChecked {
                from: TokenAccountRole::WriterUnderlyingAta,
                mint: MintRole::UnderlyingMint,
                to: TokenAccountRole::CollateralVault,
                authority: Authority::Signer,
                amount: 1_000,
                decimals: 9,
            },
            TokenInstruction::MintTo {
                mint: MintRole::OptionMint,
                to: TokenAccountRole::EscrowOptionVault,
                authority: Authority::Market(market_seeds(&m)),
                amount: 1_000,
            },
        ]
    );
    assert_eq!(
        ctx.writer_position,
        WriterPosition {
            market: key(20),
            writer: key(21),
            locked_amount: 1_000,
            minted_amount: 1_000,
            premium_ask: 2_500_000,
            filled_amount: 0,
            bump: 253,
        }
    );
}

#[test]
fn write_synthetic_locks_capped_payout() {
    let mut ctx = write_ctx(market(true), WriterPosition::zeroed());
    let ins = handle_write_option(&mut ctx, 2_000_000_000, 7).unwrap();
    // 2_000_000_000 * 50_000_000 / 10^9
    match ins[0] {
        TokenInstruction::TransferChecked { amount, .. } => assert_eq!(amount, 100_000_000),
        _ => panic!("expected a transfer"),
    }
    assert_eq!(ctx.writer_position.locked_amount, 100_000_000);
    assert_eq!(ctx.writer_position.minted_amount, 2_000_000_000);
}

#[test]
fn write_adds_to_existing_position() {
    let position = WriterPosition {
        market: key(20),
        writer: key(21),
        locked_amount: 40,
        minted_amount: 40,
        premium_ask: 1,
        filled_amount: 10,
        bump: 253,
    };
    let mut ctx = write_ctx(market(false), position);
    handle_write_option(&mut ctx, 60, 5).unwrap();
    assert_eq!(ctx.writer_position.locked_amount, 100);
    assert_eq!(ctx.writer_position.minted_amount, 100);
    assert_eq!(ctx.writer_position.filled_amount, 10);
    assert_eq!(ctx.writer_position.premium_ask, 5);
}

#[test]
fn write_refused_with_zero_strike() {
    let mut ctx = write_ctx(Market { strike: 0, ..market(false) }, WriterPosition::zeroed());
    let before = ctx;
    assert_eq!(handle_write_option(&mut ctx, 10, 1), Err(ErrorCode::MarketHalted));
    assert_eq!(ctx, before);
}

fn position_for_sale() -> WriterPosition {
    WriterPosition {
        market: key(20),
        writer: key(21),
        locked_amount: 5_000_000,
        minted_amount: 5_000_000,
        premium_ask: 2_500_000,
        filled_amount: 1_000_000,
        bump: 253,
    }
}

#[test]
fn buy_pays_premium_and_releases_options() {
    let mut ctx = BuyOption {
        writer_position: position_for_sale(),
        quote_mint: usdc(),
        buyer: key(40),
        option_mint_decimals: 6,
    };
    let ins = handle_buy_option(&mut ctx, 3_000_000, &usdc()).unwrap();
    assert_eq!(
        ins,
        vec![
            TokenInstruction::TransferChecked {
                from: TokenAccountRole::BuyerQuoteAta,
                mint: MintRole::QuoteMint,
                to: TokenAccountRole::WriterQuoteAta,
                authority: Authority::Signer,
                amount: 7_500_000,
                decimals: 6,
            },
            TokenInstruction::TransferChecked {
                from: TokenAccountRole::EscrowOptionVault,
                mint: MintRole::OptionMint,
                to: TokenAccountRole::BuyerOptionAta,
                authority: Authority::WriterPosition(PositionSeeds { market: key(20), writer: key(21), bump: 253 }),
                amount: 3_000_000,
                decimals: 6,
            },
        ]
    );
    assert_eq!(ctx.writer_position.filled_amount, 4_000_000);
}

#[test]
fn buy_premium_rounds_down() {
    let mut ctx = BuyOption {
        writer_position: position_for_sale(),
        quote_mint: key(11),
        buyer: key(40),
        option_mint_decimals: 6,
    };
    // 3 * 2_500_000 / 10^6 = 7.5, paid as 7
    let ins = handle_buy_option(&mut ctx, 3, &usdc()).unwrap();
    match ins[0] {
        TokenInstruction::TransferChecked { amount, .. } => assert_eq!(amount, 7),
        _ => panic!("expected a transfer"),
    }
}

#[test]
fn buy_refuses_self_trade_on_mainnet_usdc() {
    let mut ctx = BuyOption {
        writer_position: position_for_sale(),
        quote_mint: usdc(),
        buyer: key(21),
        option_mint_decimals: 6,
    };
    let before = ctx;
    assert_eq!(handle_buy_option(&mut ctx, 1, &usdc()), Err(ErrorCode::CannotTradeWithSelf));
    assert_eq!(ctx, before);
}

#[test]
fn buy_allows_self_trade_with_other_quote() {
    let mut ctx = BuyOption {
        writer_position: position_for_sale(),
        quote_mint: key(11),
        buyer: key(21),
        option_mint_decimals: 6,
    };
    assert!(handle_buy_option(&mut ctx, 1, &usdc()).is_ok());
    assert_eq!(ctx.writer_position.filled_amount, 1_000_001);
}

#[test]
fn buy_refuses_more_than_escrow_holds() {
    let mut ctx = BuyOption {
        writer_position: position_for_sale(),
        quote_mint: key(11),
        buyer: key(40),
        option_mint_decimals: 6,
    };
    assert_eq!(handle_buy_option(&mut ctx, 4_000_001, &usdc()), Err(ErrorCode::InsufficientOptions));
    assert!(handle_buy_option(&mut ctx, 4_000_000, &usdc()).is_ok());
    assert_eq!(ctx.writer_position.filled_amount, ctx.writer_position.minted_amount);
}

fn exercise_ctx(m: Market) -> ExerciseOption {
    ExerciseOption { market: m, underlying_decimals: 9, quote_decimals: 6 }
}

#[test]
fn exercise_outside_window_refused() {
    let ctx = exercise_ctx(market(false));
    assert_eq!(handle_exercise(&ctx, 1, 1_699_999_999), Err(ErrorCode::NotExpired));
    assert_eq!(handle_exercise(&ctx, 1, 1_700_003_601), Err(ErrorCode::NotWithinExerciseWindow));
    assert!(handle_exercise(&ctx, 1, 1_700_000_000).is_ok());
    assert!(handle_exercise(&ctx, 1, 1_700_003_600).is_ok());
}

#[test]
fn exercise_physical_pays_strike_and_delivers() {
    let m = market(false);
    let ins = handle_exercise(&exercise_ctx(m), 2_000_000_000, 1_700_000_100).unwrap();
    assert_eq!(
        ins,
        vec![
            TokenInstruction::Burn {
                mint: MintRole::OptionMint,
                from: TokenAccountRole::ExerciserOptionAta,
                authority: Authority::Signer,
                amount: 2_000_000_000,
            },
            TokenInstruction::TransferChecked {
                from: TokenAccountRole::ExerciserQuoteAta,
                mint: MintRole::QuoteMint,
                to: TokenAccountRole::QuoteVault,
                authority: Authority::Signer,
                amount: 310_000_000,
                decimals: 6,
            },
            TokenInstruction::TransferChecked {
                from: TokenAccountRole::CollateralVault,
                mint: MintRole::UnderlyingMint,
                to: TokenAccountRole::ExerciserUnderlyingAta,
                authority: Authority::Market(market_seeds(&m)),
                amount: 2_000_000_000,
                decimals: 9,
            },
        ]
    );
}

#[test]
fn exercise_after_split_scales_delivery() {
    let m = Market { split_numerator: 3, split_denominator: 2, ..market(false) };
    let ins = handle_exercise(&exercise_ctx(m), 5, 1_700_000_100).unwrap();
    match ins[2] {
        TokenInstruction::TransferChecked { amount, .. } => assert_eq!(amount, 7),
        _ => panic!("expected a transfer"),
    }
}

#[test]
fn exercise_unsettled_synthetic_only_burns() {
    let ins = handle_exercise(&exercise_ctx(market(true)), 1_000, 1_700_000_100).unwrap();
    assert_eq!(
        ins,
        vec![TokenInstruction::Burn {
            mint: MintRole::OptionMint,
            from: TokenAccountRole::ExerciserOptionAta,
            authority: Authority::Signer,
            amount: 1_000,
        }]
    );
}

#[test]
fn exercise_settled_synthetic_pays_capped_profit() {
    // profit 1_000 - 155 = 845, capped at 500; 3 * 10^9 options pay 3 * 500
    let m = Market { settlement_price: 1_000, payout_cap: 500, ..market(true) };
    let ins = handle_exercise(&exercise_ctx(m), 3_000_000_000, 1_700_000_100).unwrap();
    assert_eq!(ins.len(), 2);
    match ins[1] {
        TokenInstruction::TransferChecked { amount, from, .. } => {
            assert_eq!(amount, 1_500);
            assert_eq!(from, TokenAccountRole::CollateralVault);
        }
        _ => panic!("expected a transfer"),
    }
    // profit below the cap is paid in full
    let m = Market { settlement_price: 455, payout_cap: 500, ..market(true) };
    let ins = handle_exercise(&exercise_ctx(m), 1_000_000_000, 1_700_000_100).unwrap();
    match ins[1] {
        TokenInstruction::TransferChecked { amount, .. } => assert_eq!(amount, 300),
        _ => panic!("expected a transfer"),
    }
}

#[test]
fn reclaim_refused_when_all_sold() {
    let position = WriterPosition { filled_amount: 5_000_000, ..position_for_sale() };
    let mut ctx = ReclaimCollateral { market: market(false), writer_position: position, underlying_decimals: 9 };
    let before = ctx;
    assert_eq!(handle_reclaim_collateral(&mut ctx), Err(ErrorCode::NoUnsoldOptions));
    assert_eq!(ctx, before);
}

#[test]
fn reclaim_returns_unsold_collateral() {
    let m = market(false);
    let mut ctx = ReclaimCollateral { market: m, writer_position: position_for_sale(), underlying_decimals: 9 };
    let ins = handle_reclaim_collateral(&mut ctx).unwrap();
    assert_eq!(
        ins,
        vec![
            TokenInstruction::Burn {
                mint: MintRole::OptionMint,
                from: TokenAccountRole::EscrowOptionVault,
                authority: Authority::WriterPosition(PositionSeeds { market: key(20), writer: key(21), bump: 253 }),
                amount: 4_000_000,
            },
            TokenInstruction::TransferChecked {
                from: TokenAccountRole::CollateralVault,
                mint: MintRole::UnderlyingMint,
                to: TokenAccountRole::WriterUnderlyingAta,
                authority: Authority::Market(market_seeds(&m)),
                amount: 4_000_000,
                decimals: 9,
            },
        ]
    );
    assert_eq!(ctx.writer_position.minted_amount, 1_000_000);
    assert_eq!(ctx.writer_position.locked_amount, 1_000_000);
}

#[test]
fn reclaim_after_write_restores_position() {
    let start = WriterPosition {
        market: key(20),
        writer: key(21),
        locked_amount: 30_000_000,
        minted_amount: 600_000_000,
        premium_ask: 1,
        filled_amount: 600_000_000,
        bump: 253,
    };
    let mut write = write_ctx(market(true), start);
    let written = handle_write_option(&mut write, 2_000_000_000, 9).unwrap();
    let mut reclaim = ReclaimCollateral {
        market: write.market,
        writer_position: write.writer_position,
        underlying_decimals: 9,
    };
    let back = handle_reclaim_collateral(&mut reclaim).unwrap();
    match (written[0], back[1]) {
        (
            TokenInstruction::TransferChecked { amount: locked, .. },
            TokenInstruction::TransferChecked { amount: returned, .. },
        ) => assert_eq!(locked, returned),
        _ => panic!("expected transfers"),
    }
    assert_eq!(reclaim.writer_position.locked_amount, start.locked_amount);
    assert_eq!(reclaim.writer_position.minted_amount, start.minted_amount);
}

#[test]
fn synthetic_payout_stays_within_locked_collateral() {
    let m = Market { settlement_price: 100_000_000, ..market(true) };
    let mut write = write_ctx(m, WriterPosition::zeroed());
    let written = handle_write_option(&mut write, 3_000_000_000, 1).unwrap();
    let locked = match written[0] {
        TokenInstruction::TransferChecked { amount, .. } => amount,
        _ => panic!("expected a transfer"),
    };
    let ins = handle_exercise(&exercise_ctx(m), 3_000_000_000, 1_700_000_100).unwrap();
    let paid = match ins[1] {
        TokenInstruction::TransferChecked { amount, .. } => amount,
        _ => panic!("expected a transfer"),
    };
    // profit 100_000_000 - 155 is capped at 50_000_000 per whole option
    assert_eq!(locked, 150_000_000);
    assert_eq!(paid, 150_000_000);
    assert!(paid <= locked);
}

#[test]
fn mainnet_buy_bars_self_trade_on_usdc() {
    let mut ctx = BuyOption {
        writer_position: position_for_sale(),
        quote_mint: usdc(),
        buyer: key(21),
        option_mint_decimals: 6,
    };
    let before = ctx;
    assert_eq!(buy_option_against_mainnet_usdc(&mut ctx, 1), Some(Err(ErrorCode::CannotTradeWithSelf)));
    assert_eq!(ctx, before);
}

#[test]
fn mainnet_buy_lets_others_buy() {
    let mut ctx = BuyOption {
        writer_position: position_for_sale(),
        quote_mint: usdc(),
        buyer: key(40),
        option_mint_decimals: 6,
    };
    let ins = buy_option_against_mainnet_usdc(&mut ctx, 3_000_000).unwrap().unwrap();
    assert_eq!(ins.len(), 2);
    assert_eq!(ctx.writer_position.filled_amount, 4_000_000);
    let mut other = BuyOption { quote_mint: key(11), buyer: key(21), ..ctx };
    assert!(buy_option_against_mainnet_usdc(&mut other, 1).unwrap().is_ok());
}

#[test]
fn mainnet_buy_stops_when_overfilled() {
    let overfilled = WriterPosition { filled_amount: 6_000_000, ..position_for_sale() };
    let mut ctx = BuyOption { writer_position: overfilled, quote_mint: key(11), buyer: key(40), option_mint_decimals: 6 };
    let before = ctx;
    assert_eq!(buy_option_against_mainnet_usdc(&mut ctx, 1), None);
    assert_eq!(ctx, before);
    // a self-trade on mainnet USDC is refused before the fill count is read
    let mut self_trade = BuyOption { writer_position: overfilled, quote_mint: usdc(), buyer: key(21), option_mint_decimals: 6 };
    assert_eq!(buy_option_against_mainnet_usdc(&mut self_trade, 1), Some(Err(ErrorCode::CannotTradeWithSelf)));
}
