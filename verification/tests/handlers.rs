use fund_contract::addr::Address;
use fund_contract::admin::{initialize_global_config, revoke_keeper, set_keeper, update_global_config};
use fund_contract::borrow_settle::{borrow_for_swap, settle_swap};
use fund_contract::dca::{create_dca_order, execute_dca_order_check, execute_dca_order_settle, cancel_dca_order};
use fund_contract::deposit::deposit;
use fund_contract::errors::ErrorCode;
use fund_contract::fund_init::{initialize_fund, initialize_strategy_fund, FundAccounts};
use fund_contract::limit::{cancel_limit_order, create_limit_order, execute_limit_order_check, execute_limit_order_settle};
use fund_contract::nav::{compute_nav_lamports, NavAccounts, NavEntry};
use fund_contract::oracle::FeedAccount;
use fund_contract::pda::{
    derive_ata_address, derive_dca_sol_vault_address, derive_dca_vault_auth_address,
    derive_limit_sol_vault_address, derive_limit_vault_auth_address, derive_whitelist_address,
    native_mint, swap_aggregator_id,
};
use fund_contract::state::{
    DcaOrder, FundState, FundWhitelist, GlobalConfig, InstructionView, StrategyAllocation,
    StrategyAllocationInput, SwapAccount, SystemAccountSlot, TokenAccountData, TokenAccountSlot,
    Trading, DCA_SIDE_SELL, DCA_STATUS_EXECUTED, DCA_STATUS_OPEN, FUND_TYPE_STRATEGY,
    FUND_TYPE_TRADING, ORDER_STATUS_CANCELLED, ORDER_STATUS_EXECUTED, ORDER_STATUS_OPEN, SIDE_BUY,
};
use fund_contract::strategy_ops::{rebalance_strategy_check, rebalance_strategy_settle, set_strategy, RebalanceEntry};
use fund_contract::sweep::sweep_wsol;
use fund_contract::whitelist_ops::{add_global, add_token, remove_fund, AddTokenOutcome};
use fund_contract::withdraw::{cancel_withdraw, execute_withdraw, request_withdraw};

fn addr(n: u64) -> Address {
    Address { w0: 0, w1: 0, w2: 0, w3: n }
}

fn price_feed_bytes(price: i64, conf: u64, expo: i32, publish_time: i64) -> Vec<u8> {
    let mut acc: pyth_sdk_solana::state::SolanaPriceAccount = bytemuck::Zeroable::zeroed();
    acc.magic = pyth_sdk_solana::state::MAGIC;
    acc.ver = pyth_sdk_solana::state::VERSION_2;
    acc.atype = pyth_sdk_solana::state::AccountType::Price as u32;
    acc.expo = expo;
    acc.timestamp = publish_time;
    acc.agg.price = price;
    acc.agg.conf = conf;
    acc.agg.status = pyth_sdk_solana::state::PriceStatus::Trading;
    bytemuck::bytes_of(&acc).to_vec()
}

fn test_config() -> GlobalConfig {
    GlobalConfig {
        config_id: 1,
        admin: addr(100),
        keeper: addr(101),
        fee_treasury: addr(102),
        sol_usd_pyth_feed: addr(103),
        pyth_program_id: addr(104),
        deposit_fee_bps: 50,
        withdraw_fee_bps: 50,
        trade_fee_bps: 0,
        max_manager_fee_bps: 500,
        max_slippage_bps: 100,
        min_manager_deposit_lamports: 1_000_000_000,
        min_withdraw_timelock_secs: 0,
        max_withdraw_timelock_secs: 86_400,
        bump: 255,
    }
}

fn fund_accounts() -> FundAccounts {
    FundAccounts {
        config_key: addr(110),
        fund_key: addr(111),
        share_mint: addr(112),
        vault: addr(113),
        bump: 254,
        share_mint_bump: 253,
        vault_bump: 252,
    }
}

fn trading_fund(total_shares: u64) -> FundState {
    FundState {
        config: addr(110),
        manager: addr(120),
        fund_id: 7,
        fund_type: FUND_TYPE_TRADING,
        share_mint: addr(112),
        vault: addr(113),
        total_shares,
        manager_fee_bps: 100,
        min_investor_deposit_lamports: 1_000,
        withdraw_timelock_secs: 3_600,
        enabled_token_count: 0,
        active_limit_count: 0,
        active_dca_count: 0,
        next_order_id: 0,
        bump: 254,
        share_mint_bump: 253,
        vault_bump: 252,
    }
}

fn empty_nav() -> NavAccounts {
    NavAccounts { base_feed: None, entries: vec![] }
}

#[test]
fn bootstrap_seeds_shares_one_to_one() {
    let config = initialize_global_config(
        1,
        addr(100),
        addr(102),
        addr(101),
        addr(103),
        addr(104),
        50,
        50,
        0,
        500,
        100,
        1_000_000_000,
        0,
        86_400,
        255,
    )
    .expect("config");
    assert_eq!(config.deposit_fee_bps, 50);
    let (outcome, trading) = initialize_fund(
        &config,
        fund_accounts(),
        addr(120),
        7,
        1_000_000_000,
        100,
        1_000,
        3_600,
        250,
    )
    .expect("fund");
    assert_eq!(outcome.fund.total_shares, 1_000_000_000);
    assert_eq!(outcome.shares_minted, 1_000_000_000);
    assert_eq!(outcome.vault_credit_lamports, 1_000_000_000);
    assert!(!trading.is_locked);

    // below the manager minimum the fund cannot be created
    assert_eq!(
        initialize_fund(&config, fund_accounts(), addr(120), 7, 999_999_999, 100, 1_000, 3_600, 250)
            .unwrap_err(),
        ErrorCode::DepositTooSmall,
    );
    // out-of-window timelock is refused
    assert_eq!(
        initialize_fund(&config, fund_accounts(), addr(120), 7, 1_000_000_000, 100, 1_000, 86_401, 250)
            .unwrap_err(),
        ErrorCode::InvalidTimelock,
    );
    // strategy funds bootstrap the same way, typed strategy
    let s = initialize_strategy_fund(
        &config,
        fund_accounts(),
        addr(120),
        8,
        1_000_000_000,
        100,
        1_000,
        3_600,
    )
    .expect("strategy fund");
    assert_eq!(s.fund.fund_type, FUND_TYPE_STRATEGY);
    assert_eq!(s.fund.total_shares, 1_000_000_000);
}

#[test]
fn config_validation_boundaries() {
    let bad_fee = initialize_global_config(
        1, addr(100), addr(102), addr(101), addr(103), addr(104),
        10_001, 50, 0, 500, 100, 0, 0, 10, 255,
    );
    assert_eq!(bad_fee.unwrap_err(), ErrorCode::InvalidFeeBps);
    let bad_timelock = initialize_global_config(
        1, addr(100), addr(102), addr(101), addr(103), addr(104),
        50, 50, 0, 500, 100, 0, 10, 9, 255,
    );
    assert_eq!(bad_timelock.unwrap_err(), ErrorCode::InvalidTimelock);

    let mut config = test_config();
    assert_eq!(
        update_global_config(
            &mut config, addr(99), addr(102), addr(103), addr(104),
            10, 10, 0, 500, 100, 0, 0, 10,
        )
        .unwrap_err(),
        ErrorCode::Unauthorized,
    );
    update_global_config(
        &mut config, addr(100), addr(102), addr(103), addr(104),
        10, 10, 0, 500, 100, 0, 0, 10,
    )
    .expect("update");
    assert_eq!(config.deposit_fee_bps, 10);

    assert_eq!(set_keeper(&mut config, addr(100), Address::zero()).unwrap_err(), ErrorCode::InvalidKeeper);
    set_keeper(&mut config, addr(100), addr(55)).expect("set keeper");
    assert_eq!(config.keeper, addr(55));
    revoke_keeper(&mut config, addr(100)).expect("revoke");
    assert_eq!(config.keeper, Address::zero());
}

#[test]
fn pro_rata_deposit_at_unit_price() {
    let config = test_config();
    let mut fund = trading_fund(1_000_000_000);
    let outcome = deposit(
        &config,
        &mut fund,
        &addr(1),
        &addr(111),
        1_000_000_000,
        &empty_nav(),
        0,
        2_000_000_000,
    )
    .expect("deposit");
    assert_eq!(outcome.fee_lamports, 10_000_000);
    assert_eq!(outcome.net_lamports, 1_990_000_000);
    assert_eq!(outcome.shares_minted, 1_990_000_000);
    assert_eq!(fund.total_shares, 2_990_000_000);
}

#[test]
fn deposit_minimum_is_inclusive() {
    let config = test_config();
    let mut fund = trading_fund(1_000_000_000);
    assert_eq!(
        deposit(&config, &mut fund, &addr(1), &addr(111), 1_000_000_000, &empty_nav(), 0, 999)
            .unwrap_err(),
        ErrorCode::DepositTooSmall,
    );
    // exactly at the threshold the deposit goes through
    let outcome = deposit(&config, &mut fund, &addr(1), &addr(111), 1_000_000_000, &empty_nav(), 0, 1_000)
        .expect("deposit at minimum");
    assert!(outcome.shares_minted > 0);
}

#[test]
fn deposit_minting_zero_shares_is_refused() {
    let config = test_config();
    let mut fund = trading_fund(1);
    // one share outstanding against a huge NAV: the minimum deposit rounds to zero shares
    assert_eq!(
        deposit(&config, &mut fund, &addr(1), &addr(111), 1_000_000_000, &empty_nav(), 0, 1_000)
            .unwrap_err(),
        ErrorCode::ZeroShares,
    );
}

#[test]
fn withdraw_timelock_is_strict() {
    let config = test_config();
    let mut fund = trading_fund(2_990_000_000);
    let request = request_withdraw(&addr(111), &addr(2), 2_000_000_000, 1_000_000_000, 0, 1)
        .expect("request");
    assert_eq!(request.shares, 1_000_000_000);
    assert_eq!(request.request_ts, 0);

    // one second early: refused
    assert_eq!(
        execute_withdraw(
            &config, &mut fund, &request, &addr(1), &addr(111), &addr(2),
            2_000_000_000, 2_990_000_000, &empty_nav(), 3_599,
        )
        .unwrap_err(),
        ErrorCode::WithdrawTimelock,
    );
    // exactly at the unlock time: succeeds, priced at execution NAV
    let outcome = execute_withdraw(
        &config, &mut fund, &request, &addr(1), &addr(111), &addr(2),
        2_000_000_000, 2_990_000_000, &empty_nav(), 3_600,
    )
    .expect("execute");
    assert_eq!(outcome.gross_lamports, 1_000_000_000);
    assert_eq!(outcome.fee_lamports, 5_000_000);
    assert_eq!(outcome.net_lamports, 995_000_000);
    assert_eq!(fund.total_shares, 1_990_000_000);
}

#[test]
fn withdraw_requires_liquidity_and_shares() {
    let config = test_config();
    let mut fund = trading_fund(1_000);
    fund.enabled_token_count = 1;
    let request = request_withdraw(&addr(111), &addr(2), 1_000, 1_000, 0, 1).expect("request");
    // NAV includes a token holding the vault lamports cannot cover
    let program = addr(1);
    let mint = addr(130);
    let (wl_addr, wl_bump) = derive_whitelist_address(&program, &addr(111), &mint).unwrap();
    let accounts = NavAccounts {
        base_feed: Some(FeedAccount { addr: addr(103), owner: addr(104), data: price_feed_bytes(100, 0, 0, 3_600) }),
        entries: vec![NavEntry {
            whitelist_addr: wl_addr,
            whitelist: FundWhitelist { fund: addr(111), mint, decimals: 6, pyth_feed: addr(140), enabled: true, bump: wl_bump },
            vault_addr: derive_ata_address(&addr(111), &mint).unwrap(),
            vault: TokenAccountData { mint, owner: addr(111), amount: 100 },
            feed: FeedAccount { addr: addr(140), owner: addr(104), data: price_feed_bytes(1, 0, 0, 3_600) },
        }],
    };
    assert_eq!(
        execute_withdraw(
            &config, &mut fund, &request, &program, &addr(111), &addr(2),
            1_000, 500, &accounts, 3_600,
        )
        .unwrap_err(),
        ErrorCode::InsufficientLiquidity,
    );
    let mut fund = trading_fund(2_000_000_000);
    let request = request_withdraw(&addr(111), &addr(2), 2_000_000_000, 2_000_000_000, 0, 1)
        .expect("request");
    // requesting more than the investor holds
    assert_eq!(
        request_withdraw(&addr(111), &addr(2), 10, 11, 0, 1).unwrap_err(),
        ErrorCode::InsufficientShares,
    );
    assert_eq!(
        request_withdraw(&addr(111), &addr(2), 10, 0, 0, 1).unwrap_err(),
        ErrorCode::InvalidWithdrawal,
    );
    // cancellation demands the matching investor
    assert_eq!(cancel_withdraw(&request, &addr(111), &addr(3)).unwrap_err(), ErrorCode::Unauthorized);
    assert_eq!(cancel_withdraw(&request, &addr(111), &addr(2)), Ok(()));
}

#[test]
fn deposit_then_withdraw_round_trip_within_one_lamport() {
    let config = test_config();
    let mut fund = trading_fund(1_000_000_000);
    let d = deposit(&config, &mut fund, &addr(1), &addr(111), 1_000_000_000, &empty_nav(), 0, 2_000_000_000)
        .expect("deposit");
    // immediately withdraw all newly minted shares at the new NAV
    let request = request_withdraw(&addr(111), &addr(2), d.shares_minted, d.shares_minted, 0, 1)
        .expect("request");
    let vault_after_deposit = 1_000_000_000 + d.net_lamports;
    let w = execute_withdraw(
        &config, &mut fund, &request, &addr(1), &addr(111), &addr(2),
        d.shares_minted, vault_after_deposit, &empty_nav(), 3_600,
    )
    .expect("execute");
    assert_eq!(w.gross_lamports, d.net_lamports);
    let expected = d.net_lamports as u128 * (10_000 - config.withdraw_fee_bps as u128) / 10_000;
    let diff = w.net_lamports as i128 - expected as i128;
    assert!(diff == 0 || diff == 1, "payout {} vs {}", w.net_lamports, expected);
}

fn borrow_fixture() -> (FundState, Trading, Address, Address, FundWhitelist, Address, TokenAccountData) {
    let fund = trading_fund(1_000_000_000);
    let trading = Trading {
        fund: addr(111),
        is_locked: false,
        borrow_amount: 0,
        expected_min_out: 0,
        snapshot_sol: 0,
        snapshot_output: 0,
        output_mint: Address::zero(),
        bump: 250,
    };
    let program = addr(1);
    let mint = addr(130);
    let (wl_addr, _) = derive_whitelist_address(&program, &addr(111), &mint).unwrap();
    let whitelist = FundWhitelist {
        fund: addr(111),
        mint,
        decimals: 6,
        pyth_feed: addr(131),
        enabled: true,
        bump: 249,
    };
    let vault_addr = derive_ata_address(&addr(111), &mint).unwrap();
    let vault = TokenAccountData { mint, owner: addr(111), amount: 0 };
    (fund, trading, program, wl_addr, whitelist, vault_addr, vault)
}

fn settle_instruction(accounts: Vec<Address>) -> InstructionView {
    InstructionView {
        program_id: addr(1),
        data: vec![3, 130, 133, 180, 251, 87, 242, 250, 0],
        accounts,
    }
}

#[test]
fn borrow_requires_trailing_settle() {
    let (fund, mut trading, program, wl_addr, whitelist, vault_addr, vault) = borrow_fixture();
    // no settle instruction after the borrow
    assert_eq!(
        borrow_for_swap(
            &fund, &mut trading, &program, &addr(110), &addr(111), &addr(120), &addr(120),
            &wl_addr, &whitelist, &vault_addr, &vault, 1_000_000_000,
            &vec![], 0, 500_000_000, 100_000_000,
        )
        .unwrap_err(),
        ErrorCode::MissingSettleInstruction,
    );
    // a settle naming a different output token vault
    let bad = settle_instruction(vec![addr(120), addr(110), addr(111), addr(113), wl_addr, addr(9_999)]);
    assert_eq!(
        borrow_for_swap(
            &fund, &mut trading, &program, &addr(110), &addr(111), &addr(120), &addr(120),
            &wl_addr, &whitelist, &vault_addr, &vault, 1_000_000_000,
            &vec![settle_instruction(vec![]), bad], 0, 500_000_000, 100_000_000,
        )
        .unwrap_err(),
        ErrorCode::InvalidSettleInstruction,
    );
    assert!(!trading.is_locked);
}

#[test]
fn borrow_settle_borrow_cycle() {
    let (fund, mut trading, program, wl_addr, whitelist, vault_addr, vault) = borrow_fixture();
    let good = settle_instruction(vec![addr(120), addr(110), addr(111), addr(113), wl_addr, vault_addr]);
    let instructions = vec![InstructionView { program_id: addr(50), data: vec![], accounts: vec![] }, good];
    let outcome = borrow_for_swap(
        &fund, &mut trading, &program, &addr(110), &addr(111), &addr(120), &addr(120),
        &wl_addr, &whitelist, &vault_addr, &vault, 1_000_000_000,
        &instructions, 0, 500_000_000, 100_000_000,
    )
    .expect("borrow");
    assert_eq!(outcome.lamports_to_manager, 500_000_000);
    assert!(trading.is_locked);
    assert_eq!(trading.snapshot_sol, 1_000_000_000);

    // while locked a second borrow is refused
    assert_eq!(
        borrow_for_swap(
            &fund, &mut trading, &program, &addr(110), &addr(111), &addr(120), &addr(120),
            &wl_addr, &whitelist, &vault_addr, &vault, 500_000_000,
            &instructions, 0, 1, 1,
        )
        .unwrap_err(),
        ErrorCode::FundLocked,
    );

    // the settle verifies the exact lamport drain and the minimum output gain
    let short_output = TokenAccountData { mint: whitelist.mint, owner: addr(111), amount: 99_999_999 };
    assert_eq!(
        settle_swap(
            &fund, &mut trading, &program, &addr(111), &addr(120),
            &wl_addr, &whitelist, &vault_addr, &short_output, 500_000_000,
        )
        .unwrap_err(),
        ErrorCode::InvalidTokenVault,
    );
    let output = TokenAccountData { mint: whitelist.mint, owner: addr(111), amount: 100_000_000 };
    settle_swap(
        &fund, &mut trading, &program, &addr(111), &addr(120),
        &wl_addr, &whitelist, &vault_addr, &output, 500_000_000,
    )
    .expect("settle");
    assert!(!trading.is_locked);

    // and once cleared, a fresh borrow is allowed again
    borrow_for_swap(
        &fund, &mut trading, &program, &addr(110), &addr(111), &addr(120), &addr(120),
        &wl_addr, &whitelist, &vault_addr, &output, 500_000_000,
        &instructions, 0, 100_000_000, 1,
    )
    .expect("second borrow");
    assert!(trading.is_locked);
}

struct LimitFixture {
    config: GlobalConfig,
    fund: FundState,
    program: Address,
    fund_key: Address,
    mint: Address,
    whitelist: FundWhitelist,
    order_key: Address,
    vault_auth: Address,
    sol_vault_addr: Address,
    wsol_escrow_addr: Address,
    fund_token_vault_addr: Address,
}

fn limit_fixture() -> LimitFixture {
    let config = test_config();
    let mut fund = trading_fund(1_000_000_000);
    fund.enabled_token_count = 1;
    let program = addr(1);
    let fund_key = addr(111);
    let mint = addr(130);
    let whitelist = FundWhitelist {
        fund: fund_key,
        mint,
        decimals: 6,
        pyth_feed: addr(131),
        enabled: true,
        bump: 249,
    };
    let order_key = addr(140);
    let (vault_auth, _) = derive_limit_vault_auth_address(&program, &order_key).unwrap();
    let (sol_vault_addr, _) = derive_limit_sol_vault_address(&program, &order_key).unwrap();
    let wsol_escrow_addr = derive_ata_address(&vault_auth, &native_mint()).unwrap();
    let fund_token_vault_addr = derive_ata_address(&fund_key, &mint).unwrap();
    LimitFixture {
        config,
        fund,
        program,
        fund_key,
        mint,
        whitelist,
        order_key,
        vault_auth,
        sol_vault_addr,
        wsol_escrow_addr,
        fund_token_vault_addr,
    }
}

#[test]
fn limit_buy_executes_at_trigger() {
    let mut fx = limit_fixture();
    // open the order: 1 SOL buy, min_out 99 USDC-minor-units * 10^6, limit 1 USD
    let sol_vault_empty = SystemAccountSlot { addr: fx.sol_vault_addr, owner: Address::zero(), lamports: 0 };
    let escrow_slot = TokenAccountSlot { addr: fx.wsol_escrow_addr, program_owner: Address::zero(), account: None };
    let fund_token_vault = TokenAccountData { mint: fx.mint, owner: fx.fund_key, amount: 0 };
    let created = create_limit_order(
        &fx.config, &mut fx.fund, &fx.program, &fx.fund_key, &addr(120), &fx.mint, &fx.whitelist,
        &fx.order_key, 248, &sol_vault_empty, &fx.vault_auth, &escrow_slot,
        &fx.fund_token_vault_addr, &fund_token_vault, 5_000_000_000, 0,
        SIDE_BUY, 1_000_000_000, 99_000_000, 1, 0, 0,
    )
    .expect("create");
    assert_eq!(created.escrow_lamports_in, 1_000_000_000);
    assert!(created.create_sol_vault && created.create_token_escrow);
    assert_eq!(fx.fund.active_limit_count, 1);
    assert_eq!(fx.fund.next_order_id, 1);
    let order = created.order;
    assert_eq!(order.status, ORDER_STATUS_OPEN);

    // keeper runs when the feed reports exactly the limit price
    let price_feed = FeedAccount { addr: addr(131), owner: addr(104), data: price_feed_bytes(1, 0, 0, 100) };
    let sol_feed = FeedAccount { addr: addr(103), owner: addr(104), data: price_feed_bytes(100, 0, 0, 100) };
    let sol_vault_funded = SystemAccountSlot { addr: fx.sol_vault_addr, owner: Address::zero(), lamports: 1_000_000_000 };
    let wsol_escrow = TokenAccountData { mint: native_mint(), owner: fx.vault_auth, amount: 0 };
    let swap_accounts = vec![
        SwapAccount { addr: fx.wsol_escrow_addr, is_writable: true, is_signer: false },
        SwapAccount { addr: fx.fund_token_vault_addr, is_writable: true, is_signer: false },
        SwapAccount { addr: fx.vault_auth, is_writable: false, is_signer: false },
    ];
    let plan = execute_limit_order_check(
        &fx.config, &fx.fund, &order, &fx.program, &fx.fund_key, &addr(101), &fx.whitelist,
        &fx.order_key, &price_feed, &sol_feed, &swap_aggregator_id(), &vec![1u8], &swap_accounts,
        &fx.fund_token_vault_addr, &fund_token_vault, &sol_vault_funded, &fx.vault_auth,
        &fx.wsol_escrow_addr, &wsol_escrow, 4_000_000_000, 100,
    )
    .expect("check");
    assert_eq!(plan.order_token_before, 1_000_000_000);
    assert_eq!(plan.wrap_lamports, 1_000_000_000);

    // the swap returns exactly the slippage-capped minimum: accepted
    let mut order2 = order;
    let outcome = execute_limit_order_settle(
        &fx.config, &mut fx.fund, &mut order2, fx.whitelist.decimals, &plan,
        99_000_000, 0, 4_000_000_000,
    )
    .expect("settle");
    assert_eq!(outcome.min_expected, 99_000_000);
    assert_eq!(outcome.output_delta, 99_000_000);
    assert_eq!(order2.status, ORDER_STATUS_EXECUTED);
    assert_eq!(fx.fund.active_limit_count, 0);

    // one token fewer than the floor: refused
    let mut order3 = order;
    fx.fund.active_limit_count = 1;
    assert_eq!(
        execute_limit_order_settle(
            &fx.config, &mut fx.fund, &mut order3, fx.whitelist.decimals, &plan,
            98_999_999, 0, 4_000_000_000,
        )
        .unwrap_err(),
        ErrorCode::InvalidTokenVault,
    );
    assert_eq!(order3.status, ORDER_STATUS_OPEN);
}

#[test]
fn limit_order_price_trigger_is_nonstrict() {
    let fx = limit_fixture();
    let order = fund_contract::state::LimitOrder {
        fund: fx.fund_key,
        side: SIDE_BUY,
        mint: fx.mint,
        amount_in: 1_000_000_000,
        min_out: 1,
        limit_price: 1,
        price_expo: 0,
        price_feed: addr(131),
        pyth_program_id: addr(104),
        created_ts: 0,
        expiry_ts: 0,
        status: ORDER_STATUS_OPEN,
        bump: 248,
    };
    let mut fund = fx.fund;
    fund.active_limit_count = 1;
    let sol_feed = FeedAccount { addr: addr(103), owner: addr(104), data: price_feed_bytes(100, 0, 0, 100) };
    let sol_vault = SystemAccountSlot { addr: fx.sol_vault_addr, owner: Address::zero(), lamports: 1_000_000_000 };
    let wsol_escrow = TokenAccountData { mint: native_mint(), owner: fx.vault_auth, amount: 0 };
    let fund_token_vault = TokenAccountData { mint: fx.mint, owner: fx.fund_key, amount: 0 };
    let swap_accounts = vec![
        SwapAccount { addr: fx.wsol_escrow_addr, is_writable: true, is_signer: false },
        SwapAccount { addr: fx.fund_token_vault_addr, is_writable: true, is_signer: false },
        SwapAccount { addr: fx.vault_auth, is_writable: false, is_signer: false },
    ];
    // a buy above the limit price is not triggered
    let above = FeedAccount { addr: addr(131), owner: addr(104), data: price_feed_bytes(2, 0, 0, 100) };
    assert_eq!(
        execute_limit_order_check(
            &fx.config, &fund, &order, &fx.program, &fx.fund_key, &addr(101), &fx.whitelist,
            &fx.order_key, &above, &sol_feed, &swap_aggregator_id(), &vec![1u8], &swap_accounts,
            &fx.fund_token_vault_addr, &fund_token_vault, &sol_vault, &fx.vault_auth,
            &fx.wsol_escrow_addr, &wsol_escrow, 0, 100,
        )
        .unwrap_err(),
        ErrorCode::OrderNotTriggered,
    );
    // exactly at the limit price it proceeds
    let at = FeedAccount { addr: addr(131), owner: addr(104), data: price_feed_bytes(1, 0, 0, 100) };
    assert!(
        execute_limit_order_check(
            &fx.config, &fund, &order, &fx.program, &fx.fund_key, &addr(101), &fx.whitelist,
            &fx.order_key, &at, &sol_feed, &swap_aggregator_id(), &vec![1u8], &swap_accounts,
            &fx.fund_token_vault_addr, &fund_token_vault, &sol_vault, &fx.vault_auth,
            &fx.wsol_escrow_addr, &wsol_escrow, 0, 100,
        )
        .is_ok()
    );
}

#[test]
fn limit_order_expiry_is_strict() {
    let fx = limit_fixture();
    let mut order = fund_contract::state::LimitOrder {
        fund: fx.fund_key,
        side: SIDE_BUY,
        mint: fx.mint,
        amount_in: 1_000_000_000,
        min_out: 1,
        limit_price: 1,
        price_expo: 0,
        price_feed: addr(131),
        pyth_program_id: addr(104),
        created_ts: 0,
        expiry_ts: 500,
        status: ORDER_STATUS_OPEN,
        bump: 248,
    };
    let mut fund = fx.fund;
    fund.active_limit_count = 1;
    let price_feed = FeedAccount { addr: addr(131), owner: addr(104), data: price_feed_bytes(1, 0, 0, 500) };
    let sol_feed = FeedAccount { addr: addr(103), owner: addr(104), data: price_feed_bytes(100, 0, 0, 500) };
    let sol_vault = SystemAccountSlot { addr: fx.sol_vault_addr, owner: Address::zero(), lamports: 1_000_000_000 };
    let wsol_escrow = TokenAccountData { mint: native_mint(), owner: fx.vault_auth, amount: 0 };
    let fund_token_vault = TokenAccountData { mint: fx.mint, owner: fx.fund_key, amount: 0 };
    let swap_accounts = vec![
        SwapAccount { addr: fx.wsol_escrow_addr, is_writable: true, is_signer: false },
        SwapAccount { addr: fx.fund_token_vault_addr, is_writable: true, is_signer: false },
        SwapAccount { addr: fx.vault_auth, is_writable: false, is_signer: false },
    ];
    // at exactly the expiry timestamp the order still executes
    assert!(
        execute_limit_order_check(
            &fx.config, &fund, &order, &fx.program, &fx.fund_key, &addr(101), &fx.whitelist,
            &fx.order_key, &price_feed, &sol_feed, &swap_aggregator_id(), &vec![1u8], &swap_accounts,
            &fx.fund_token_vault_addr, &fund_token_vault, &sol_vault, &fx.vault_auth,
            &fx.wsol_escrow_addr, &wsol_escrow, 0, 500,
        )
        .is_ok()
    );
    // one second past expiry it fails
    assert_eq!(
        execute_limit_order_check(
            &fx.config, &fund, &order, &fx.program, &fx.fund_key, &addr(101), &fx.whitelist,
            &fx.order_key, &price_feed, &sol_feed, &swap_aggregator_id(), &vec![1u8], &swap_accounts,
            &fx.fund_token_vault_addr, &fund_token_vault, &sol_vault, &fx.vault_auth,
            &fx.wsol_escrow_addr, &wsol_escrow, 0, 501,
        )
        .unwrap_err(),
        ErrorCode::OrderExpired,
    );
    // a cancelled order is no longer open
    order.status = ORDER_STATUS_CANCELLED;
    assert_eq!(
        execute_limit_order_check(
            &fx.config, &fund, &order, &fx.program, &fx.fund_key, &addr(101), &fx.whitelist,
            &fx.order_key, &price_feed, &sol_feed, &swap_aggregator_id(), &vec![1u8], &swap_accounts,
            &fx.fund_token_vault_addr, &fund_token_vault, &sol_vault, &fx.vault_auth,
            &fx.wsol_escrow_addr, &wsol_escrow, 0, 100,
        )
        .unwrap_err(),
        ErrorCode::OrderNotOpen,
    );
    // only the configured keeper may execute
    order.status = ORDER_STATUS_OPEN;
    assert_eq!(
        execute_limit_order_check(
            &fx.config, &fund, &order, &fx.program, &fx.fund_key, &addr(66), &fx.whitelist,
            &fx.order_key, &price_feed, &sol_feed, &swap_aggregator_id(), &vec![1u8], &swap_accounts,
            &fx.fund_token_vault_addr, &fund_token_vault, &sol_vault, &fx.vault_auth,
            &fx.wsol_escrow_addr, &wsol_escrow, 0, 100,
        )
        .unwrap_err(),
        ErrorCode::Unauthorized,
    );
    // and only the configured aggregator may be invoked
    assert_eq!(
        execute_limit_order_check(
            &fx.config, &fund, &order, &fx.program, &fx.fund_key, &addr(101), &fx.whitelist,
            &fx.order_key, &price_feed, &sol_feed, &addr(77), &vec![1u8], &swap_accounts,
            &fx.fund_token_vault_addr, &fund_token_vault, &sol_vault, &fx.vault_auth,
            &fx.wsol_escrow_addr, &wsol_escrow, 0, 500,
        )
        .unwrap_err(),
        ErrorCode::InvalidSwapProgram,
    );
}

#[test]
fn cancel_limit_buy_returns_escrowed_lamports() {
    let fx = limit_fixture();
    let mut fund = fx.fund;
    fund.active_limit_count = 1;
    let mut order = fund_contract::state::LimitOrder {
        fund: fx.fund_key,
        side: SIDE_BUY,
        mint: fx.mint,
        amount_in: 1_000_000_000,
        min_out: 1,
        limit_price: 1,
        price_expo: 0,
        price_feed: addr(131),
        pyth_program_id: addr(104),
        created_ts: 0,
        expiry_ts: 0,
        status: ORDER_STATUS_OPEN,
        bump: 248,
    };
    let sol_vault = SystemAccountSlot { addr: fx.sol_vault_addr, owner: Address::zero(), lamports: 1_000_891_200 };
    let wsol_escrow = TokenAccountData { mint: native_mint(), owner: fx.vault_auth, amount: 0 };
    let fund_token_vault = TokenAccountData { mint: fx.mint, owner: fx.fund_key, amount: 0 };
    let outcome = cancel_limit_order(
        &mut fund, &mut order, &fx.program, &fx.fund_key, &addr(120), &fx.order_key,
        &sol_vault, &fx.vault_auth, &fx.wsol_escrow_addr, &wsol_escrow, &fund_token_vault,
    )
    .expect("cancel");
    // the whole escrow balance, rent included, returns to the fund vault
    assert_eq!(outcome.lamports_returned, 1_000_891_200);
    assert_eq!(order.status, ORDER_STATUS_CANCELLED);
    assert_eq!(fund.active_limit_count, 0);

    // cancelling again: the order is no longer open
    assert_eq!(
        cancel_limit_order(
            &mut fund, &mut order, &fx.program, &fx.fund_key, &addr(120), &fx.order_key,
            &sol_vault, &fx.vault_auth, &fx.wsol_escrow_addr, &wsol_escrow, &fund_token_vault,
        )
        .unwrap_err(),
        ErrorCode::OrderNotOpen,
    );
}

#[test]
fn dca_order_lifecycle_final_slice() {
    let config = test_config();
    let mut fund = trading_fund(1_000_000_000);
    fund.enabled_token_count = 1;
    let program = addr(1);
    let fund_key = addr(111);
    let mint = addr(130);
    let whitelist = FundWhitelist {
        fund: fund_key,
        mint,
        decimals: 6,
        pyth_feed: addr(131),
        enabled: true,
        bump: 249,
    };
    let order_key = addr(150);
    let (vault_auth, _) = derive_dca_vault_auth_address(&program, &order_key).unwrap();
    let (sol_vault_addr, _) = derive_dca_sol_vault_address(&program, &order_key).unwrap();
    let escrow_addr = derive_ata_address(&vault_auth, &mint).unwrap();
    let fund_token_vault_addr = derive_ata_address(&fund_key, &mint).unwrap();
    let fund_token_vault = TokenAccountData { mint, owner: fund_key, amount: 500 };

    // interval and slice validation
    let sol_slot = SystemAccountSlot { addr: sol_vault_addr, owner: Address::zero(), lamports: 0 };
    let escrow_slot = TokenAccountSlot { addr: escrow_addr, program_owner: Address::zero(), account: None };
    assert_eq!(
        create_dca_order(
            &config, &mut fund, &program, &fund_key, &addr(120), &mint, &whitelist, &order_key, 247,
            &sol_slot, &vault_auth, &escrow_slot, &fund_token_vault, 0, 0,
            DCA_SIDE_SELL, 100, 0, 60, 1, 0,
        )
        .unwrap_err(),
        ErrorCode::InvalidDcaSlice,
    );
    assert_eq!(
        create_dca_order(
            &config, &mut fund, &program, &fund_key, &addr(120), &mint, &whitelist, &order_key, 247,
            &sol_slot, &vault_auth, &escrow_slot, &fund_token_vault, 0, 0,
            DCA_SIDE_SELL, 100, 50, 0, 1, 0,
        )
        .unwrap_err(),
        ErrorCode::InvalidDcaInterval,
    );
    assert_eq!(
        create_dca_order(
            &config, &mut fund, &program, &fund_key, &addr(120), &mint, &whitelist, &order_key, 247,
            &sol_slot, &vault_auth, &escrow_slot, &fund_token_vault, 0, 0,
            DCA_SIDE_SELL, 100, 50, 60, 0, 0,
        )
        .unwrap_err(),
        ErrorCode::InvalidMinOut,
    );
    let created = create_dca_order(
        &config, &mut fund, &program, &fund_key, &addr(120), &mint, &whitelist, &order_key, 247,
        &sol_slot, &vault_auth, &escrow_slot, &fund_token_vault, 0, 0,
        DCA_SIDE_SELL, 100, 50, 60, 1, 0,
    )
    .expect("create");
    assert_eq!(created.escrow_tokens_in, 100);
    assert_eq!(created.order.next_exec_ts, 60);

    // a partially filled order: 30 remaining with a 50 slice spends the remainder
    let mut order = created.order;
    order.remaining_amount = 30;
    let price_feed = FeedAccount { addr: addr(131), owner: addr(104), data: price_feed_bytes(1, 0, 0, 100) };
    let sol_feed = FeedAccount { addr: addr(103), owner: addr(104), data: price_feed_bytes(100, 0, 0, 100) };
    let escrow = TokenAccountData { mint, owner: vault_auth, amount: 100 };
    let swap_accounts = vec![
        SwapAccount { addr: escrow_addr, is_writable: true, is_signer: false },
        SwapAccount { addr: addr(113), is_writable: true, is_signer: false },
        SwapAccount { addr: vault_auth, is_writable: false, is_signer: false },
    ];
    // before the slice is due
    assert_eq!(
        execute_dca_order_check(
            &config, &fund, &order, &program, &fund_key, &addr(101), &whitelist, &order_key,
            &price_feed, &sol_feed, &swap_aggregator_id(), &vec![1u8], &swap_accounts,
            &fund_token_vault_addr, &fund_token_vault,
            &SystemAccountSlot { addr: sol_vault_addr, owner: Address::zero(), lamports: 1_000_000 },
            &vault_auth, &escrow_addr, &escrow, 2_000_000_000, 59,
        )
        .unwrap_err(),
        ErrorCode::DcaNotReady,
    );
    let plan = execute_dca_order_check(
        &config, &fund, &order, &program, &fund_key, &addr(101), &whitelist, &order_key,
        &price_feed, &sol_feed, &swap_aggregator_id(), &vec![1u8], &swap_accounts,
        &fund_token_vault_addr, &fund_token_vault,
        &SystemAccountSlot { addr: sol_vault_addr, owner: Address::zero(), lamports: 1_000_000 },
        &vault_auth, &escrow_addr, &escrow, 2_000_000_000, 100,
    )
    .expect("check");
    assert_eq!(plan.slice_amount, 30);

    // selling 30 micro-tokens at 1 USD against SOL at 100 USD yields 300 lamports
    let outcome = execute_dca_order_settle(
        &config, &mut fund, &mut order, whitelist.decimals, &plan,
        500, 70, 2_000_000_300, 1_000_000,
    )
    .expect("settle");
    assert_eq!(outcome.output_delta, 300);
    assert_eq!(outcome.min_expected, 297);
    assert!(outcome.completed);
    assert_eq!(order.remaining_amount, 0);
    assert_eq!(order.status, DCA_STATUS_EXECUTED);
    assert_eq!(order.next_exec_ts, 120);
    assert_eq!(outcome.sweep_sol_lamports, 1_000_000);
}

#[test]
fn dca_cap_and_cancel() {
    let config = test_config();
    let mut fund = trading_fund(1_000_000_000);
    fund.enabled_token_count = 1;
    fund.active_dca_count = 20;
    let program = addr(1);
    let fund_key = addr(111);
    let mint = addr(130);
    let whitelist = FundWhitelist { fund: fund_key, mint, decimals: 6, pyth_feed: addr(131), enabled: true, bump: 249 };
    let order_key = addr(150);
    let (vault_auth, _) = derive_dca_vault_auth_address(&program, &order_key).unwrap();
    let (sol_vault_addr, _) = derive_dca_sol_vault_address(&program, &order_key).unwrap();
    let escrow_addr = derive_ata_address(&vault_auth, &mint).unwrap();
    let sol_slot = SystemAccountSlot { addr: sol_vault_addr, owner: Address::zero(), lamports: 0 };
    let escrow_slot = TokenAccountSlot { addr: escrow_addr, program_owner: Address::zero(), account: None };
    let fund_token_vault = TokenAccountData { mint, owner: fund_key, amount: 500 };
    assert_eq!(
        create_dca_order(
            &config, &mut fund, &program, &fund_key, &addr(120), &mint, &whitelist, &order_key, 247,
            &sol_slot, &vault_auth, &escrow_slot, &fund_token_vault, 0, 0,
            DCA_SIDE_SELL, 100, 50, 60, 1, 0,
        )
        .unwrap_err(),
        ErrorCode::MaxActiveDca,
    );

    fund.active_dca_count = 1;
    let mut order = DcaOrder {
        fund: fund_key,
        side: DCA_SIDE_SELL,
        mint,
        total_amount: 100,
        slice_amount: 50,
        remaining_amount: 80,
        interval_secs: 60,
        next_exec_ts: 60,
        min_out: 1,
        price_feed: addr(131),
        pyth_program_id: addr(104),
        expiry_ts: 0,
        status: DCA_STATUS_OPEN,
        bump: 247,
    };
    let escrow = TokenAccountData { mint, owner: vault_auth, amount: 80 };
    let sol_vault = SystemAccountSlot { addr: sol_vault_addr, owner: Address::zero(), lamports: 1_234 };
    let outcome = cancel_dca_order(
        &mut fund, &mut order, &program, &fund_key, &addr(120), &order_key,
        &sol_vault, &vault_auth, &escrow_addr, &escrow, &fund_token_vault,
    )
    .expect("cancel");
    assert_eq!(outcome.tokens_returned, 80);
    assert_eq!(outcome.lamports_returned, 1_234);
    assert_eq!(fund.active_dca_count, 0);
    assert_eq!(order.status, fund_contract::state::DCA_STATUS_CANCELLED);
}

fn strategy_fund() -> FundState {
    let mut f = trading_fund(1_000_000_000);
    f.fund_type = FUND_TYPE_STRATEGY;
    f.enabled_token_count = 1;
    f
}

#[test]
fn strategy_weights_must_sum_and_be_unique() {
    let fund = strategy_fund();
    let wl = FundWhitelist { fund: addr(111), mint: addr(130), decimals: 6, pyth_feed: addr(131), enabled: true, bump: 0 };
    let ok = set_strategy(
        &fund, &addr(111), &addr(120),
        &vec![StrategyAllocationInput { mint: addr(130), weight_bps: 10_000 }],
        100, 60, &vec![wl], 0, 246,
    )
    .expect("set");
    assert_eq!(ok.allocation_count, 1);
    assert_eq!(ok.allocations[0].weight_bps, 10_000);
    assert_eq!(ok.last_rebalance_ts, 0);

    // weights not summing to 10 000
    let mut fund2 = strategy_fund();
    fund2.enabled_token_count = 2;
    let wl2 = FundWhitelist { fund: addr(111), mint: addr(132), decimals: 6, pyth_feed: addr(133), enabled: true, bump: 0 };
    assert_eq!(
        set_strategy(
            &fund2, &addr(111), &addr(120),
            &vec![
                StrategyAllocationInput { mint: addr(130), weight_bps: 5_000 },
                StrategyAllocationInput { mint: addr(132), weight_bps: 4_999 },
            ],
            100, 60, &vec![wl, wl2], 0, 246,
        )
        .unwrap_err(),
        ErrorCode::InvalidStrategyConfig,
    );
    // duplicate mints
    assert_eq!(
        set_strategy(
            &fund2, &addr(111), &addr(120),
            &vec![
                StrategyAllocationInput { mint: addr(130), weight_bps: 5_000 },
                StrategyAllocationInput { mint: addr(130), weight_bps: 5_000 },
            ],
            100, 60, &vec![wl, wl], 0, 246,
        )
        .unwrap_err(),
        ErrorCode::InvalidStrategyConfig,
    );
    // a trading fund cannot take a strategy
    assert_eq!(
        set_strategy(
            &trading_fund(1), &addr(111), &addr(120),
            &vec![StrategyAllocationInput { mint: addr(130), weight_bps: 10_000 }],
            100, 60, &vec![wl], 0, 246,
        )
        .unwrap_err(),
        ErrorCode::InvalidFundType,
    );
}

struct RebalanceFixture {
    config: GlobalConfig,
    fund: FundState,
    strategy: fund_contract::state::Strategy,
    program: Address,
    fund_key: Address,
    mint: Address,
    wsol_addr: Address,
    entries: Vec<RebalanceEntry>,
    cpi: Vec<SwapAccount>,
    sol_feed: FeedAccount,
    target_vault_addr: Address,
}

fn rebalance_fixture(token_amount: u64) -> RebalanceFixture {
    let config = test_config();
    let fund = strategy_fund();
    let program = addr(1);
    let fund_key = addr(111);
    let mint = addr(130);
    let strategy = fund_contract::state::Strategy {
        fund: fund_key,
        allocation_count: 1,
        allocations: vec![StrategyAllocation { mint, weight_bps: 10_000 }],
        rebalance_threshold_bps: 100,
        rebalance_cooldown_secs: 60,
        last_rebalance_ts: 0,
        bump: 246,
    };
    let wsol_addr = derive_ata_address(&fund_key, &native_mint()).unwrap();
    let target_vault_addr = derive_ata_address(&fund_key, &mint).unwrap();
    let whitelist = FundWhitelist { fund: fund_key, mint, decimals: 6, pyth_feed: addr(131), enabled: true, bump: 0 };
    let entries = vec![RebalanceEntry {
        whitelist,
        vault_addr: target_vault_addr,
        vault: TokenAccountData { mint, owner: fund_key, amount: token_amount },
        feed: FeedAccount { addr: addr(131), owner: addr(104), data: price_feed_bytes(1, 0, 0, 100) },
    }];
    let cpi = vec![
        SwapAccount { addr: target_vault_addr, is_writable: true, is_signer: false },
        SwapAccount { addr: fund_key, is_writable: false, is_signer: false },
        SwapAccount { addr: addr(113), is_writable: true, is_signer: false },
        SwapAccount { addr: wsol_addr, is_writable: true, is_signer: false },
    ];
    let sol_feed = FeedAccount { addr: addr(103), owner: addr(104), data: price_feed_bytes(100, 0, 0, 100) };
    RebalanceFixture {
        config,
        fund,
        strategy,
        program,
        fund_key,
        mint,
        wsol_addr,
        entries,
        cpi,
        sol_feed,
        target_vault_addr,
    }
}

#[test]
fn rebalance_noop_at_target_weights() {
    // the whole NAV sits in the single 100%-weighted token: deviation zero
    let fx = rebalance_fixture(990_000_000);
    let wsol = TokenAccountSlot { addr: fx.wsol_addr, program_owner: Address::zero(), account: None };
    let before_ts = fx.strategy.last_rebalance_ts;
    assert_eq!(
        rebalance_strategy_check(
            &fx.config, &fx.fund, &fx.strategy, &fx.fund_key, &addr(101), &fx.mint, 1,
            &swap_aggregator_id(), &vec![1u8], &fx.cpi, &fx.entries, &wsol, &fx.sol_feed, 0, &fx.target_vault_addr, 100,
        )
        .unwrap_err(),
        ErrorCode::RebalanceNotNeeded,
    );
    assert_eq!(fx.strategy.last_rebalance_ts, before_ts);
}

#[test]
fn rebalance_threshold_is_strict() {
    // token value 9 900 000 000 lamports; vault lamports make the target underweight
    let fx = rebalance_fixture(990_000_000);
    let wsol = TokenAccountSlot { addr: fx.wsol_addr, program_owner: Address::zero(), account: None };
    // |deviation| exactly equals the 1% threshold: refused
    assert_eq!(
        rebalance_strategy_check(
            &fx.config, &fx.fund, &fx.strategy, &fx.fund_key, &addr(101), &fx.mint, 1,
            &swap_aggregator_id(), &vec![1u8], &fx.cpi, &fx.entries, &wsol, &fx.sol_feed, 100_000_000,
            &fx.target_vault_addr, 100,
        )
        .unwrap_err(),
        ErrorCode::RebalanceNotNeeded,
    );
    // two lamports past the threshold: an underweight buy plan
    let plan = rebalance_strategy_check(
        &fx.config, &fx.fund, &fx.strategy, &fx.fund_key, &addr(101), &fx.mint, 1,
        &swap_aggregator_id(), &vec![1u8], &fx.cpi, &fx.entries, &wsol, &fx.sol_feed, 100_000_002,
        &fx.target_vault_addr, 100,
    )
    .expect("plan");
    assert!(plan.is_buy);
    assert_eq!(plan.spend_lamports, 100_000_002);
    assert!(plan.create_wsol_vault);

    // a swept wrapped-native account is required
    let dirty = TokenAccountSlot {
        addr: fx.wsol_addr,
        program_owner: Address::zero(),
        account: Some(TokenAccountData { mint: native_mint(), owner: fx.fund_key, amount: 5 }),
    };
    assert_eq!(
        rebalance_strategy_check(
            &fx.config, &fx.fund, &fx.strategy, &fx.fund_key, &addr(101), &fx.mint, 1,
            &swap_aggregator_id(), &vec![1u8], &fx.cpi, &fx.entries, &dirty, &fx.sol_feed, 100_000_002,
            &fx.target_vault_addr, 100,
        )
        .unwrap_err(),
        ErrorCode::WsolNotCleared,
    );
    // the cooldown gates execution
    assert_eq!(
        rebalance_strategy_check(
            &fx.config, &fx.fund, &fx.strategy, &fx.fund_key, &addr(101), &fx.mint, 1,
            &swap_aggregator_id(), &vec![1u8], &fx.cpi, &fx.entries, &wsol, &fx.sol_feed, 100_000_002,
            &fx.target_vault_addr, 59,
        )
        .unwrap_err(),
        ErrorCode::RebalanceNotNeeded,
    );

    // settle the buy: the expected output for the spend, under the cap
    let mut strategy = fx.strategy;
    let outcome = rebalance_strategy_settle(
        &fx.config, &mut strategy, &plan, plan.token_before + 10_000_000, 0, 100,
    )
    .expect("settle");
    assert_eq!(outcome.min_expected, 9_900_000);
    assert_eq!(outcome.output_delta, 10_000_000);
    assert_eq!(strategy.last_rebalance_ts, 100);
}

#[test]
fn sweep_wsol_is_keeper_only_and_idempotent() {
    let config = test_config();
    let fund_key = addr(111);
    let wsol_addr = derive_ata_address(&fund_key, &native_mint()).unwrap();
    let missing = TokenAccountSlot { addr: wsol_addr, program_owner: Address::zero(), account: None };
    assert_eq!(
        sweep_wsol(&config, &fund_key, &addr(66), &missing).unwrap_err(),
        ErrorCode::Unauthorized,
    );
    let none = sweep_wsol(&config, &fund_key, &addr(101), &missing).expect("noop");
    assert!(!none.closed);
    let held = TokenAccountSlot {
        addr: wsol_addr,
        program_owner: Address::zero(),
        account: Some(TokenAccountData { mint: native_mint(), owner: fund_key, amount: 777 }),
    };
    let swept = sweep_wsol(&config, &fund_key, &addr(101), &held).expect("sweep");
    assert!(swept.closed);
    assert_eq!(swept.wrapped_amount, 777);
}

#[test]
fn nav_walks_sorted_whitelists() {
    let program = addr(1);
    let fund_key = addr(111);
    let mint_a = addr(130);
    let mint_b = addr(131);
    let entry = |mint: Address, feed_addr: Address, amount: u64| -> NavEntry {
        let (wl_addr, wl_bump) = derive_whitelist_address(&program, &fund_key, &mint).unwrap();
        NavEntry {
            whitelist_addr: wl_addr,
            whitelist: FundWhitelist {
                fund: fund_key,
                mint,
                decimals: 6,
                pyth_feed: feed_addr,
                enabled: true,
                bump: wl_bump,
            },
            vault_addr: derive_ata_address(&fund_key, &mint).unwrap(),
            vault: TokenAccountData { mint, owner: fund_key, amount },
            feed: FeedAccount { addr: feed_addr, owner: addr(104), data: price_feed_bytes(1, 0, 0, 100) },
        }
    };
    let base_feed = FeedAccount { addr: addr(103), owner: addr(104), data: price_feed_bytes(100, 0, 0, 100) };
    // 100 micro-tokens at 1 USD, SOL at 100 USD: 1 000 lamports each entry
    let accounts = NavAccounts {
        base_feed: Some(base_feed.clone()),
        entries: vec![entry(mint_a, addr(140), 100), entry(mint_b, addr(141), 100)],
    };
    let nav = compute_nav_lamports(&program, &fund_key, 500, &addr(103), &addr(104), 2, &accounts, 100)
        .expect("nav");
    assert_eq!(nav, 500 + 1_000 + 1_000);

    // the same entries out of mint order are refused
    let unsorted = NavAccounts {
        base_feed: Some(base_feed.clone()),
        entries: vec![entry(mint_b, addr(141), 100), entry(mint_a, addr(140), 100)],
    };
    assert_eq!(
        compute_nav_lamports(&program, &fund_key, 500, &addr(103), &addr(104), 2, &unsorted, 100)
            .unwrap_err(),
        ErrorCode::InvalidWhitelistOrder,
    );
    // a count that does not match the supplied list
    assert_eq!(
        compute_nav_lamports(&program, &fund_key, 500, &addr(103), &addr(104), 3, &accounts, 100)
            .unwrap_err(),
        ErrorCode::InvalidRemainingAccounts,
    );
    // an empty fund with no balance has no NAV to price against
    let empty_entries = NavAccounts {
        base_feed: Some(base_feed),
        entries: vec![entry(mint_a, addr(140), 0)],
    };
    assert_eq!(
        compute_nav_lamports(&program, &fund_key, 0, &addr(103), &addr(104), 1, &empty_entries, 100)
            .unwrap_err(),
        ErrorCode::InvalidNav,
    );
}

#[test]
fn token_catalog_lifecycle() {
    let config = test_config();
    let program = addr(1);
    let config_key = addr(110);
    let mint = addr(130);
    let (gw_addr, gw_bump) = fund_contract::pda::derive_global_whitelist_address(&program, &config_key, &mint)
        .unwrap();
    // only the admin may add to the global catalog
    assert_eq!(
        add_global(&config, &program, &config_key, &addr(66), &mint, 6, &gw_addr, false, &addr(131))
            .unwrap_err(),
        ErrorCode::Unauthorized,
    );
    let gw = add_global(&config, &program, &config_key, &addr(100), &mint, 6, &gw_addr, false, &addr(131))
        .expect("add global");
    assert!(gw.enabled);
    assert_eq!(gw.bump, gw_bump);
    // a second creation is refused
    assert_eq!(
        add_global(&config, &program, &config_key, &addr(100), &mint, 6, &gw_addr, true, &addr(131))
            .unwrap_err(),
        ErrorCode::AlreadyInitialized,
    );

    // fund scope through the dispatching entry point
    let fund = trading_fund(1_000_000_000);
    let (fund_addr, _) = fund_contract::pda::derive_fund_address(&program, &config_key, &addr(120), 7)
        .unwrap();
    let (fw_addr, _) = derive_whitelist_address(&program, &fund_addr, &mint).unwrap();
    let vault_addr = derive_ata_address(&fund_addr, &mint).unwrap();
    let outcome = add_token(
        1, &config, &program, &config_key, &addr(120), &mint, 6, &addr(131),
        &gw_addr, false, 7, &fund, &fund_addr, &program, true, &gw, &program,
        &fw_addr, false, &vault_addr, None,
    )
    .expect("add fund scope");
    match outcome {
        AddTokenOutcome::Fund(o) => {
            assert!(o.create_token_vault);
            assert_eq!(o.fund.enabled_token_count, 1);
            assert_eq!(o.whitelist.decimals, 6);
        },
        _ => panic!("expected fund scope outcome"),
    }
    // an unknown scope selector
    assert_eq!(
        add_token(
            9, &config, &program, &config_key, &addr(120), &mint, 6, &addr(131),
            &gw_addr, false, 7, &fund, &fund_addr, &program, true, &gw, &program,
            &fw_addr, false, &vault_addr, None,
        )
        .unwrap_err(),
        ErrorCode::InvalidScope,
    );

    // removal demands an empty vault
    let mut fund_with_token = fund;
    fund_with_token.enabled_token_count = 1;
    let full_vault = TokenAccountData { mint, owner: fund_addr, amount: 5 };
    assert_eq!(
        remove_fund(
            &program, &config_key, &addr(120), &mint, 7, &fund_with_token, &fund_addr,
            &program, true, &fw_addr, &vault_addr, &full_vault,
        )
        .unwrap_err(),
        ErrorCode::TokenVaultNotEmpty,
    );
    let empty_vault = TokenAccountData { mint, owner: fund_addr, amount: 0 };
    let after = remove_fund(
        &program, &config_key, &addr(120), &mint, 7, &fund_with_token, &fund_addr,
        &program, true, &fw_addr, &vault_addr, &empty_vault,
    )
    .expect("remove");
    assert_eq!(after.enabled_token_count, 0);
}

#[test]
fn borrow_validates_receiver_and_liquidity() {
    let (fund, mut trading, program, wl_addr, whitelist, vault_addr, vault) = borrow_fixture();
    let good = settle_instruction(vec![addr(120), addr(110), addr(111), addr(113), wl_addr, vault_addr]);
    let instructions = vec![good];
    // the lamports must be paid out to the signing manager
    assert_eq!(
        borrow_for_swap(
            &fund, &mut trading, &program, &addr(110), &addr(111), &addr(120), &addr(121),
            &wl_addr, &whitelist, &vault_addr, &vault, 1_000_000_000,
            &instructions, 0, 500_000_000, 1,
        )
        .unwrap_err(),
        ErrorCode::InvalidReceiver,
    );
    // the vault must cover the borrow
    assert_eq!(
        borrow_for_swap(
            &fund, &mut trading, &program, &addr(110), &addr(111), &addr(120), &addr(120),
            &wl_addr, &whitelist, &vault_addr, &vault, 400,
            &instructions, 0, 500, 1,
        )
        .unwrap_err(),
        ErrorCode::InsufficientLiquidity,
    );
    // a zero borrow or a zero minimum is refused
    assert_eq!(
        borrow_for_swap(
            &fund, &mut trading, &program, &addr(110), &addr(111), &addr(120), &addr(120),
            &wl_addr, &whitelist, &vault_addr, &vault, 1_000,
            &instructions, 0, 0, 1,
        )
        .unwrap_err(),
        ErrorCode::MathOverflow,
    );
    assert_eq!(
        borrow_for_swap(
            &fund, &mut trading, &program, &addr(110), &addr(111), &addr(120), &addr(120),
            &wl_addr, &whitelist, &vault_addr, &vault, 1_000,
            &instructions, 0, 500, 0,
        )
        .unwrap_err(),
        ErrorCode::InvalidMinOut,
    );
}

#[test]
fn settle_requires_open_lock() {
    let (fund, mut trading, program, wl_addr, whitelist, vault_addr, vault) = borrow_fixture();
    assert_eq!(
        settle_swap(
            &fund, &mut trading, &program, &addr(111), &addr(120),
            &wl_addr, &whitelist, &vault_addr, &vault, 1_000_000_000,
        )
        .unwrap_err(),
        ErrorCode::FundNotLocked,
    );
}

#[test]
fn deposit_into_empty_fund_is_refused() {
    let config = test_config();
    let mut fund = trading_fund(0);
    // a fund whose shares were fully withdrawn can no longer price a deposit
    assert_eq!(
        deposit(&config, &mut fund, &addr(1), &addr(111), 1_000_000, &empty_nav(), 0, 1_000_000)
            .unwrap_err(),
        ErrorCode::MathOverflow,
    );
}

#[test]
fn create_limit_order_rejects_wrong_escrow_address() {
    let mut fx = limit_fixture();
    // a base-currency escrow at an address other than the derived one
    let wrong_sol_vault = SystemAccountSlot { addr: addr(9_999), owner: Address::zero(), lamports: 0 };
    let escrow_slot = TokenAccountSlot { addr: fx.wsol_escrow_addr, program_owner: Address::zero(), account: None };
    let fund_token_vault = TokenAccountData { mint: fx.mint, owner: fx.fund_key, amount: 0 };
    assert_eq!(
        create_limit_order(
            &fx.config, &mut fx.fund, &fx.program, &fx.fund_key, &addr(120), &fx.mint, &fx.whitelist,
            &fx.order_key, 248, &wrong_sol_vault, &fx.vault_auth, &escrow_slot,
            &fx.fund_token_vault_addr, &fund_token_vault, 5_000_000_000, 0,
            SIDE_BUY, 1_000_000_000, 1, 1, 0, 0,
        )
        .unwrap_err(),
        ErrorCode::InvalidOrderVault,
    );
    // a disabled whitelist cannot be traded
    let mut disabled = fx.whitelist;
    disabled.enabled = false;
    let sol_vault = SystemAccountSlot { addr: fx.sol_vault_addr, owner: Address::zero(), lamports: 0 };
    assert_eq!(
        create_limit_order(
            &fx.config, &mut fx.fund, &fx.program, &fx.fund_key, &addr(120), &fx.mint, &disabled,
            &fx.order_key, 248, &sol_vault, &fx.vault_auth, &escrow_slot,
            &fx.fund_token_vault_addr, &fund_token_vault, 5_000_000_000, 0,
            SIDE_BUY, 1_000_000_000, 1, 1, 0, 0,
        )
        .unwrap_err(),
        ErrorCode::InvalidTokenVault,
    );
    // only the fund's manager may open orders
    assert_eq!(
        create_limit_order(
            &fx.config, &mut fx.fund, &fx.program, &fx.fund_key, &addr(66), &fx.mint, &fx.whitelist,
            &fx.order_key, 248, &sol_vault, &fx.vault_auth, &escrow_slot,
            &fx.fund_token_vault_addr, &fund_token_vault, 5_000_000_000, 0,
            SIDE_BUY, 1_000_000_000, 1, 1, 0, 0,
        )
        .unwrap_err(),
        ErrorCode::Unauthorized,
    );
    // an unknown side selector is refused
    assert_eq!(
        create_limit_order(
            &fx.config, &mut fx.fund, &fx.program, &fx.fund_key, &addr(120), &fx.mint, &fx.whitelist,
            &fx.order_key, 248, &sol_vault, &fx.vault_auth, &escrow_slot,
            &fx.fund_token_vault_addr, &fund_token_vault, 5_000_000_000, 0,
            7, 1_000_000_000, 1, 1, 0, 0,
        )
        .unwrap_err(),
        ErrorCode::InvalidOrderSide,
    );
}
