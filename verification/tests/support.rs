use stableperp::error::ErrorCode;
use stableperp::math::{decimal_scale, premium_cost, scale_down, split_scale, strike_cost};
use stableperp::pubkey::{mainnet_usdc_mint, Pubkey};
use stableperp::seeds::{MarketSeeds, PositionSeeds};
use stableperp::state::{Config, FactoryConfig, Market, MarketCreator, WriterPosition};

#[test]
fn mainnet_usdc_decodes_to_its_bytes() {
    let expected: [u8; 32] = [
        198, 250, 122, 243, 190, 219, 173, 58, 61, 101, 243, 106, 171, 201, 116, 49, 177, 187,
        228, 194, 210, 246, 224, 228, 124, 166, 2, 3, 69, 47, 93, 97,
    ];
    assert_eq!(mainnet_usdc_mint().unwrap().to_bytes(), expected);
}

#[test]
fn key_eq_compares_every_byte() {
    let a = Pubkey::new_from_array([7; 32]);
    let mut bytes = [7u8; 32];
    assert!(a.key_eq(&Pubkey::new_from_array(bytes)));
    bytes[31] = 8;
    assert!(!a.key_eq(&Pubkey::new_from_array(bytes)));
    assert_eq!(Pubkey::zeroed().to_bytes(), [0u8; 32]);
}

#[test]
fn account_sizes() {
    assert_eq!(Config::LEN, 107);
    assert_eq!(Market::LEN, 162);
    assert_eq!(WriterPosition::LEN, 105);
    assert_eq!(FactoryConfig::LEN, 49);
    assert_eq!(MarketCreator::LEN, 41);
}

#[test]
fn scales_and_amounts() {
    assert_eq!(decimal_scale(0), 1);
    assert_eq!(decimal_scale(9), 1_000_000_000);
    assert_eq!(decimal_scale(38), 10u128.pow(38));
    assert_eq!(scale_down(7, 3, 1), 2);
    assert_eq!(premium_cost(3_000_000, 2_500_000), 7_500_000);
    assert_eq!(strike_cost(2_000, 155), 310);
    assert_eq!(split_scale(10, 1, 3), 3);
    // amounts above 64 bits are truncated as the program's `as u64` does
    assert_eq!(scale_down(u64::MAX, u64::MAX, 0), 1);
}

#[test]
fn market_seed_bytes() {
    let seeds = MarketSeeds {
        underlying_mint: Pubkey::new_from_array([1; 32]),
        quote_mint: Pubkey::new_from_array([2; 32]),
        strike: 0x0102,
        expiry_ts: -1,
        bump: 255,
    };
    let bytes = seeds.seed_bytes();
    assert_eq!(bytes.len(), 6);
    assert_eq!(bytes[0], b"market".to_vec());
    assert_eq!(bytes[1], vec![1u8; 32]);
    assert_eq!(bytes[2], vec![2u8; 32]);
    assert_eq!(bytes[3], 0x0102u64.to_le_bytes().to_vec());
    assert_eq!(bytes[4], (-1i64).to_le_bytes().to_vec());
    assert_eq!(bytes[5], vec![255u8]);
}

#[test]
fn position_seed_bytes() {
    let seeds = PositionSeeds {
        market: Pubkey::new_from_array([3; 32]),
        writer: Pubkey::new_from_array([4; 32]),
        bump: 9,
    };
    let bytes = seeds.seed_bytes();
    assert_eq!(bytes, vec![b"writer".to_vec(), vec![3u8; 32], vec![4u8; 32], vec![9u8]]);
}

#[test]
fn error_messages() {
    assert_eq!(ErrorCode::MarketHalted.message(), "Market is halted.");
    assert_eq!(ErrorCode::InsufficientOptions.message(), "Insufficient options in escrow to fill the order.");
    assert_eq!(ErrorCode::NotWithinExerciseWindow.message(), "Not within the exercise window.");
    assert_eq!(ErrorCode::NotExpired.message(), "Option has not expired yet.");
    assert_eq!(ErrorCode::FactoryNotActive.message(), "Factory is not active.");
    assert_eq!(ErrorCode::NoUnsoldOptions.message(), "No unsold options to reclaim.");
    assert_eq!(ErrorCode::CannotTradeWithSelf.message(), "Self trading is not allowed on mainnet.");
}
