use fund_contract::addr::{addr_lt, address_bytes, u64_le_bytes, Address};
use fund_contract::errors::ErrorCode;
use fund_contract::math::{
    abs_i128, apply_max_slippage, expected_sol_out_from_token, expected_token_out_from_sol,
    fee_of, pow10_i128, scale_price,
};
use fund_contract::oracle::{load_price, read_price_feed, FeedReadOutcome};
use fund_contract::pda::{
    ata_program_id, derive_ata_address, derive_fund_address, derive_global_whitelist_address,
    derive_limit_sol_vault_address, derive_limit_vault_auth_address, derive_whitelist_address,
    native_mint, token_program_id,
};

fn addr(n: u64) -> Address {
    Address { w0: 0, w1: 0, w2: 0, w3: n }
}

fn pubkey_from_addr(a: &Address) -> solana_program::pubkey::Pubkey {
    let mut b = [0u8; 32];
    b[0..8].copy_from_slice(&a.w0.to_be_bytes());
    b[8..16].copy_from_slice(&a.w1.to_be_bytes());
    b[16..24].copy_from_slice(&a.w2.to_be_bytes());
    b[24..32].copy_from_slice(&a.w3.to_be_bytes());
    solana_program::pubkey::Pubkey::new_from_array(b)
}

fn addr_from_pubkey(pk: &solana_program::pubkey::Pubkey) -> Address {
    let b = pk.to_bytes();
    Address {
        w0: u64::from_be_bytes(b[0..8].try_into().unwrap()),
        w1: u64::from_be_bytes(b[8..16].try_into().unwrap()),
        w2: u64::from_be_bytes(b[16..24].try_into().unwrap()),
        w3: u64::from_be_bytes(b[24..32].try_into().unwrap()),
    }
}

fn price_feed_bytes(price: i64, conf: u64, expo: i32, publish_time: i64) -> Vec<u8> {
    let mut acc: pyth_sdk_solana::state::SolanaPriceAccount = bytemuck::Zeroable::zeroed();
    acc.magic = pyth_sdk_solana::state::MAGIC;
    acc.ver = pyth_sdk_solana::state::VERSION_2;
    acc.atype = pyth_sdk_solana::state::AccountType::Price as u32;
    acc.expo = expo;
    acc.timestamp = publish_time;
    acc.agg.price = price;
    acc.agg.conf = conf;
    acc.agg.status = pyth_sdk_solana::state::PriceStatus::Trading;
    bytemuck::bytes_of(&acc).to_vec()
}

#[test]
fn pow10_small_values() {
    assert_eq!(pow10_i128(0), Ok(1));
    assert_eq!(pow10_i128(5), Ok(100_000));
    assert_eq!(pow10_i128(38), Ok(100_000_000_000_000_000_000_000_000_000_000_000_000i128));
    assert_eq!(pow10_i128(39), Err(ErrorCode::MathOverflow));
}

#[test]
fn slippage_applies_bps_haircut() {
    assert_eq!(apply_max_slippage(100_000_000, 100), Ok(99_000_000));
    assert_eq!(apply_max_slippage(0, 100), Ok(0));
    assert_eq!(apply_max_slippage(12345, 0), Ok(12345));
    assert_eq!(apply_max_slippage(1, 10_001), Err(ErrorCode::InvalidFeeBps));
}

#[test]
fn fee_rounds_down() {
    assert_eq!(fee_of(2_000_000_000, 50), 10_000_000);
    assert_eq!(fee_of(199, 50), 0);
    assert_eq!(fee_of(u64::MAX, 10_000), u64::MAX);
}

#[test]
fn abs_handles_min() {
    assert_eq!(abs_i128(-5), Ok(5));
    assert_eq!(abs_i128(7), Ok(7));
    assert_eq!(abs_i128(i128::MIN), Err(ErrorCode::MathOverflow));
}

#[test]
fn token_conversions_match_worked_example() {
    // 1 SOL at 100 USD buys 100 USDC (6 decimals): 100_000_000 minor units.
    assert_eq!(
        expected_token_out_from_sol(1_000_000_000, 6, 1, 0, 100, 0),
        Ok(100_000_000),
    );
    // and 100 USDC sells back into 1 SOL of lamports.
    assert_eq!(
        expected_sol_out_from_token(100_000_000, 6, 1, 0, 100, 0),
        Ok(1_000_000_000),
    );
    // a non-positive price is rejected before any arithmetic
    assert_eq!(
        expected_sol_out_from_token(1, 6, 0, 0, 100, 0),
        Err(ErrorCode::InvalidOracle),
    );
}

#[test]
fn scale_price_moves_exponent() {
    assert_eq!(scale_price(5, 0, 0), Ok(5));
    assert_eq!(scale_price(5, 0, -2), Ok(500));
    assert_eq!(scale_price(512, -2, 0), Ok(5));
    assert_eq!(scale_price(1, 1_000_000, 0), Err(ErrorCode::MathOverflow));
}

#[test]
fn address_order_is_lexicographic() {
    let a = Address { w0: 1, w1: 0, w2: 0, w3: 9 };
    let b = Address { w0: 1, w1: 0, w2: 1, w3: 0 };
    assert!(addr_lt(&a, &b));
    assert!(!addr_lt(&b, &a));
    assert!(!addr_lt(&a, &a));
    // agreement with byte-wise comparison of the on-chain form
    assert_eq!(
        address_bytes(&a) < address_bytes(&b),
        addr_lt(&a, &b),
    );
}

#[test]
fn le_bytes_match_std() {
    assert_eq!(u64_le_bytes(0x0102030405060708), 0x0102030405060708u64.to_le_bytes().to_vec());
    let a = addr(77);
    assert_eq!(address_bytes(&a), pubkey_from_addr(&a).to_bytes().to_vec());
}

#[test]
fn program_id_constants_match_spl() {
    assert_eq!(
        pubkey_from_addr(&token_program_id()).to_bytes(),
        spl_token::ID.to_bytes(),
    );
    assert_eq!(
        pubkey_from_addr(&native_mint()).to_bytes(),
        spl_token::native_mint::ID.to_bytes(),
    );
    assert_eq!(
        pubkey_from_addr(&ata_program_id()).to_bytes(),
        spl_associated_token_account::ID.to_bytes(),
    );
}

#[test]
fn ata_derivation_matches_spl() {
    let wallet = addr(11);
    let mint = addr(22);
    let ours = derive_ata_address(&wallet, &mint).expect("derivation");
    let theirs = spl_associated_token_account::get_associated_token_address(
        &spl_token::solana_program::pubkey::Pubkey::new_from_array(
            pubkey_from_addr(&wallet).to_bytes(),
        ),
        &spl_token::solana_program::pubkey::Pubkey::new_from_array(
            pubkey_from_addr(&mint).to_bytes(),
        ),
    );
    assert_eq!(pubkey_from_addr(&ours).to_bytes(), theirs.to_bytes());
}

#[test]
fn pda_derivations_match_solana() {
    let program = addr(1);
    let fund = addr(2);
    let mint = addr(3);
    let (wl, wl_bump) = derive_whitelist_address(&program, &fund, &mint).expect("derivation");
    let (expected, expected_bump) = solana_program::pubkey::Pubkey::find_program_address(
        &[
            b"whitelist",
            pubkey_from_addr(&fund).as_ref(),
            pubkey_from_addr(&mint).as_ref(),
        ],
        &pubkey_from_addr(&program),
    );
    assert_eq!(pubkey_from_addr(&wl), expected);
    assert_eq!(wl_bump, expected_bump);

    let (gw, _) = derive_global_whitelist_address(&program, &fund, &mint).expect("derivation");
    let (gw_expected, _) = solana_program::pubkey::Pubkey::find_program_address(
        &[
            b"global_whitelist",
            pubkey_from_addr(&fund).as_ref(),
            pubkey_from_addr(&mint).as_ref(),
        ],
        &pubkey_from_addr(&program),
    );
    assert_eq!(pubkey_from_addr(&gw), gw_expected);

    let (fa, _) = derive_fund_address(&program, &fund, &mint, 7).expect("derivation");
    let (fa_expected, _) = solana_program::pubkey::Pubkey::find_program_address(
        &[
            b"fund",
            pubkey_from_addr(&fund).as_ref(),
            pubkey_from_addr(&mint).as_ref(),
            &7u64.to_le_bytes(),
        ],
        &pubkey_from_addr(&program),
    );
    assert_eq!(pubkey_from_addr(&fa), fa_expected);

    let order = addr(9);
    let (sv, _) = derive_limit_sol_vault_address(&program, &order).expect("derivation");
    let (sv_expected, _) = solana_program::pubkey::Pubkey::find_program_address(
        &[b"limit_order_sol_vault", pubkey_from_addr(&order).as_ref()],
        &pubkey_from_addr(&program),
    );
    assert_eq!(pubkey_from_addr(&sv), sv_expected);

    let (va, _) = derive_limit_vault_auth_address(&program, &order).expect("derivation");
    let (va_expected, _) = solana_program::pubkey::Pubkey::find_program_address(
        &[b"limit_order_vault_auth", pubkey_from_addr(&order).as_ref()],
        &pubkey_from_addr(&program),
    );
    assert_eq!(pubkey_from_addr(&va), va_expected);
}

#[test]
fn fresh_feed_loads() {
    let data = price_feed_bytes(100, 1, -2, 1_000);
    let r = load_price(&data, 1_030).expect("fresh feed");
    assert_eq!(r.price, 100);
    assert_eq!(r.conf, 1);
    assert_eq!(r.expo, -2);
    assert_eq!(r.publish_time, 1_000);
}

#[test]
fn stale_feed_is_rejected() {
    let data = price_feed_bytes(100, 0, 0, 1_000);
    assert_eq!(load_price(&data, 1_061), Err(ErrorCode::StaleOracle));
    assert!(load_price(&data, 1_060).is_ok());
}

#[test]
fn unreadable_feed_is_rejected() {
    let data = vec![7u8; 64];
    assert_eq!(load_price(&data, 0), Err(ErrorCode::InvalidOracle));
    assert_eq!(read_price_feed(&data, 0, 60), FeedReadOutcome::Unreadable);
}

#[test]
fn nonpositive_price_is_rejected() {
    let data = price_feed_bytes(-5, 0, 0, 1_000);
    assert_eq!(load_price(&data, 1_000), Err(ErrorCode::InvalidOracle));
    let zero = price_feed_bytes(0, 0, 0, 1_000);
    assert_eq!(load_price(&zero, 1_000), Err(ErrorCode::InvalidOracle));
}

#[test]
fn wide_confidence_is_rejected() {
    // max confidence is 200 bps of the price
    let ok = price_feed_bytes(10_000, 200, 0, 1_000);
    assert!(load_price(&ok, 1_000).is_ok());
    let wide = price_feed_bytes(10_000, 201, 0, 1_000);
    assert_eq!(load_price(&wide, 1_000), Err(ErrorCode::InvalidOracleConfidence));
}

#[test]
fn error_codes_have_stable_names() {
    assert_eq!(ErrorCode::MathOverflow.name(), "MathOverflow");
    assert_eq!(ErrorCode::RebalanceNotNeeded.name(), "RebalanceNotNeeded");
    assert_ne!(ErrorCode::StaleOracle.name(), ErrorCode::InvalidOracle.name());
}
