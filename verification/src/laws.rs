use vstd::prelude::*;
use crate::addr::Address;
use crate::borrow_settle::{spec_borrow_for_swap, spec_settle_swap, BorrowOutcome};
use crate::dca::{spec_execute_dca_order_check, spec_execute_dca_order_settle, DcaExecPlan, DcaSettleOutcome};
use crate::deposit::{spec_deposit, DepositOutcome};
use crate::errors::ErrorCode;
use crate::fund_init::{spec_initialize_fund_state, InitFundOutcome};
use crate::limit::{spec_execute_limit_order_check, LimitExecPlan};
use crate::math::{spec_scale_price, spec_sol_to_token, spec_token_to_sol};
use crate::nav::{spec_compute_nav, spec_value_sum, spec_wl_check, NavAccounts, NavEntry};
use crate::oracle::{spec_load_price, FeedAccount, OracleReading};
use crate::state::{
    DcaOrder, FundState, FundWhitelist, GlobalConfig, InstructionView, LimitOrder, SwapAccount,
    SystemAccountSlot, TokenAccountData, Trading, WithdrawRequest, DCA_STATUS_EXECUTED, SIDE_BUY,
    SIDE_SELL,
};
use crate::withdraw::{spec_execute_withdraw, WithdrawOutcome};

verus! {

/// The share supply mirrors `total_shares` across a deposit: a deposit
/// that succeeds mints exactly the shares by which `total_shares`
/// grows, so a supply equal to `total_shares` before stays equal after.
pub proof fn lemma_supply_tracks_deposit(
    supply: u64,
    config: GlobalConfig,
    fund: FundState,
    program: Address,
    fund_key: Address,
    vault_lamports: u64,
    accounts: NavAccounts,
    now: i64,
    amount: u64,
    fund2: FundState,
    outcome: DepositOutcome,
)
    requires
        supply == fund.total_shares,
        spec_deposit(config, fund, program, fund_key, vault_lamports, accounts, now, amount)
            == Ok::<(FundState, DepositOutcome), ErrorCode>((fund2, outcome)),
    ensures
        fund2.total_shares == supply + outcome.shares_minted,
{
}

/// The share supply mirrors `total_shares` across a withdrawal: the
/// burned shares equal the drop in `total_shares`.
pub proof fn lemma_supply_tracks_withdraw(
    supply: u64,
    config: GlobalConfig,
    fund: FundState,
    request: WithdrawRequest,
    program: Address,
    fund_key: Address,
    investor: Address,
    investor_share_balance: u64,
    vault_lamports: u64,
    accounts: NavAccounts,
    now: i64,
    fund2: FundState,
    outcome: WithdrawOutcome,
)
    requires
        supply == fund.total_shares,
        spec_execute_withdraw(
            config,
            fund,
            request,
            program,
            fund_key,
            investor,
            investor_share_balance,
            vault_lamports,
            accounts,
            now,
        ) == Ok::<(FundState, WithdrawOutcome), ErrorCode>((fund2, outcome)),
    ensures
        outcome.shares_burned <= supply,
        fund2.total_shares == supply - outcome.shares_burned,
{
}

/// At initialization the supply and `total_shares` start equal: the
/// seed deposit is minted one share per lamport.
pub proof fn lemma_supply_tracks_initialization(
    config: GlobalConfig,
    accounts: crate::fund_init::FundAccounts,
    manager: Address,
    fund_type: u8,
    fund_id: u64,
    initial_deposit_lamports: u64,
    manager_fee_bps: u16,
    min_investor_deposit_lamports: u64,
    withdraw_timelock_secs: i64,
    outcome: InitFundOutcome,
)
    requires
        spec_initialize_fund_state(
            config,
            accounts,
            manager,
            fund_type,
            fund_id,
            initial_deposit_lamports,
            manager_fee_bps,
            min_investor_deposit_lamports,
            withdraw_timelock_secs,
        ) == Ok::<InitFundOutcome, ErrorCode>(outcome),
    ensures
        outcome.fund.total_shares == outcome.shares_minted,
        outcome.shares_minted == initial_deposit_lamports,
{
}

/// A DCA escrow keeps covering the remainder: if the escrow held at
/// least `remaining_amount` before a slice, then after the slice —
/// which takes exactly `slice_amount` out of the escrow and out of the
/// remainder alike — it still holds at least the new remainder.
pub proof fn lemma_dca_escrow_covers_remaining(
    config: GlobalConfig,
    fund: FundState,
    order: DcaOrder,
    decimals: u8,
    plan: DcaExecPlan,
    fund_token_after: u64,
    order_token_after: u64,
    fund_sol_after: u64,
    sol_escrow_lamports_after: u64,
    fund2: FundState,
    order2: DcaOrder,
    outcome: DcaSettleOutcome,
    escrow_before: u64,
)
    requires
        spec_execute_dca_order_settle(
            config,
            fund,
            order,
            decimals,
            plan,
            fund_token_after,
            order_token_after,
            fund_sol_after,
            sol_escrow_lamports_after,
        ) == Ok::<(FundState, DcaOrder, DcaSettleOutcome), ErrorCode>((fund2, order2, outcome)),
        escrow_before >= order.remaining_amount,
        outcome.slice_amount <= escrow_before,
    ensures
        escrow_before - outcome.slice_amount >= order2.remaining_amount,
{
}

/// Two successive deposits without intermediate NAV-affecting activity
/// buy shares at the same price.  With exact division (no rounding
/// remainder in either share computation) the ratio shares/net is
/// identical across the two deposits: `s1·n2 == s2·n1`.
pub proof fn lemma_share_price_constant(
    n1: int,
    n2: int,
    t1: int,
    v1: int,
    s1: int,
    s2: int,
)
    requires
        0 < v1,
        0 < t1,
        0 <= n1,
        0 <= n2,
        (n1 * t1) % v1 == 0,
        s1 == (n1 * t1) / v1,
        (n2 * (t1 + s1)) % (v1 + n1) == 0,
        s2 == (n2 * (t1 + s1)) / (v1 + n1),
    ensures
        s1 * n2 == s2 * n1,
{
    let t2 = t1 + s1;
    let v2 = v1 + n1;
    vstd::arithmetic::div_mod::lemma_fundamental_div_mod(n1 * t1, v1);
    assert(s1 * v1 == n1 * t1) by (nonlinear_arith)
        requires n1 * t1 == v1 * ((n1 * t1) / v1) + (n1 * t1) % v1, (n1 * t1) % v1 == 0, s1 == (n1 * t1) / v1;
    vstd::arithmetic::div_mod::lemma_fundamental_div_mod(n2 * t2, v2);
    assert(s2 * v2 == n2 * t2) by (nonlinear_arith)
        requires n2 * t2 == v2 * ((n2 * t2) / v2) + (n2 * t2) % v2, (n2 * t2) % v2 == 0, s2 == (n2 * t2) / v2;
    assert(s2 * n1 * v2 == n2 * s1 * v2) by (nonlinear_arith)
        requires s2 * v2 == n2 * (t1 + s1), s1 * v1 == n1 * t1, v2 == v1 + n1, t2 == t1 + s1;
    assert(s2 * n1 == n2 * s1) by (nonlinear_arith)
        requires s2 * n1 * v2 == n2 * s1 * v2, v2 > 0;
}

/// A deposit followed by an immediate withdrawal at the same NAV
/// returns the net deposit less the withdraw fee, within one lamport.
/// With exact division on the deposit, the gross payout is exactly the
/// net deposit `n`, and the investor receives `n·(10 000 − fee)/10 000`
/// rounded up.
pub proof fn lemma_deposit_withdraw_round_trip(
    n: int,
    t1: int,
    v1: int,
    withdraw_fee_bps: int,
    s: int,
    gross: int,
    payout: int,
)
    requires
        0 < v1,
        0 < t1,
        0 < n,
        (n * t1) % v1 == 0,
        s == (n * t1) / v1,
        gross == (s * (v1 + n)) / (t1 + s),
        0 <= withdraw_fee_bps <= 10_000,
        payout == gross - (gross * withdraw_fee_bps) / 10_000,
    ensures
        gross == n,
        n * (10_000 - withdraw_fee_bps) / 10_000 <= payout,
        payout <= n * (10_000 - withdraw_fee_bps) / 10_000 + 1,
{
    let t2 = t1 + s;
    vstd::arithmetic::div_mod::lemma_fundamental_div_mod(n * t1, v1);
    assert(s * v1 == n * t1) by (nonlinear_arith)
        requires n * t1 == v1 * ((n * t1) / v1) + (n * t1) % v1, (n * t1) % v1 == 0, s == (n * t1) / v1;
    assert(s >= 0) by (nonlinear_arith)
        requires s * v1 == n * t1, v1 > 0, n > 0, t1 > 0;
    assert(s * (v1 + n) == n * t2) by (nonlinear_arith)
        requires s * v1 == n * t1, t2 == t1 + s;
    assert(t2 > 0);
    vstd::arithmetic::div_mod::lemma_div_multiples_vanish(n, t2);
    assert((n * t2) / t2 == n) by {
        assert(n * t2 == t2 * n) by (nonlinear_arith);
    }
    assert(gross == n);
    // payout bounds: n − floor(n·w/10 000) vs floor(n·(10 000 − w)/10 000)
    let w = withdraw_fee_bps;
    let q = (n * w) / 10_000;
    let r = (n * w) % 10_000;
    vstd::arithmetic::div_mod::lemma_fundamental_div_mod(n * w, 10_000);
    assert(n * (10_000 - w) == 10_000 * (n - q) - r) by (nonlinear_arith)
        requires n * w == 10_000 * q + r;
    if r == 0 {
        vstd::arithmetic::div_mod::lemma_fundamental_div_mod_converse(
            n * (10_000 - w),
            10_000,
            n - q,
            0,
        );
    } else {
        assert(n * (10_000 - w) == 10_000 * (n - q - 1) + (10_000 - r)) by (nonlinear_arith)
            requires n * (10_000 - w) == 10_000 * (n - q) - r;
        vstd::arithmetic::div_mod::lemma_fundamental_div_mod_converse(
            n * (10_000 - w),
            10_000,
            n - q - 1,
            10_000 - r,
        );
    }
}

/// A cleared settle leaves the fund unlocked, with no borrow recorded.
pub proof fn lemma_settle_clears_lock(
    fund: FundState,
    trading: Trading,
    program: Address,
    fund_key: Address,
    manager: Address,
    whitelist_addr: Address,
    output_whitelist: FundWhitelist,
    token_vault_addr: Address,
    output_token_vault: TokenAccountData,
    vault_lamports: u64,
    trading2: Trading,
)
    requires
        spec_settle_swap(
            fund,
            trading,
            program,
            fund_key,
            manager,
            whitelist_addr,
            output_whitelist,
            token_vault_addr,
            output_token_vault,
            vault_lamports,
        ) == Ok::<Trading, ErrorCode>(trading2),
    ensures
        !trading2.is_locked,
        trading2.borrow_amount == 0,
{
}

/// A borrow is refused with `FundLocked` exactly when the escrow
/// record is locked: after a settle cleared the lock, a fresh borrow
/// is never rejected for being locked; while a borrow is outstanding,
/// it always is.
pub proof fn lemma_borrow_locked_iff(
    fund: FundState,
    trading: Trading,
    program: Address,
    config_key: Address,
    fund_key: Address,
    manager: Address,
    manager_receive: Address,
    whitelist_addr: Address,
    output_whitelist: FundWhitelist,
    token_vault_addr: Address,
    output_token_vault: TokenAccountData,
    vault_lamports: u64,
    instructions: Seq<InstructionView>,
    current_index: int,
    amount_in: u64,
    min_amount_out: u64,
)
    ensures
        spec_borrow_for_swap(
            fund,
            trading,
            program,
            config_key,
            fund_key,
            manager,
            manager_receive,
            whitelist_addr,
            output_whitelist,
            token_vault_addr,
            output_token_vault,
            vault_lamports,
            instructions,
            current_index,
            amount_in,
            min_amount_out,
        ) == Err::<(Trading, BorrowOutcome), ErrorCode>(ErrorCode::FundLocked)
            <==> trading.is_locked,
{
    if !trading.is_locked {
        let r = spec_borrow_for_swap(
            fund,
            trading,
            program,
            config_key,
            fund_key,
            manager,
            manager_receive,
            whitelist_addr,
            output_whitelist,
            token_vault_addr,
            output_token_vault,
            vault_lamports,
            instructions,
            current_index,
            amount_in,
            min_amount_out,
        );
        assert(r != Err::<(Trading, BorrowOutcome), ErrorCode>(ErrorCode::FundLocked));
    }
}

/// An oracle load fails only with an oracle error.
pub proof fn lemma_load_price_error_range(data: Seq<u8>, now: i64)
    ensures
        spec_load_price(data, now) matches Err(c) ==> (c == ErrorCode::InvalidOracle || c
            == ErrorCode::StaleOracle || c == ErrorCode::InvalidOracleConfidence),
{
}

/// Token pricing fails only on a bad price or 128-bit overflow.
pub proof fn lemma_token_to_sol_error_range(
    amount: u64,
    decimals: u8,
    token_price: i64,
    token_expo: i32,
    sol_price: i64,
    sol_expo: i32,
)
    ensures
        spec_token_to_sol(amount, decimals, token_price, token_expo, sol_price, sol_expo) matches
            Err(c) ==> (c == ErrorCode::InvalidOracle || c == ErrorCode::MathOverflow),
{
}

pub proof fn lemma_sol_to_token_error_range(
    sol_lamports: u64,
    decimals: u8,
    token_price: i64,
    token_expo: i32,
    sol_price: i64,
    sol_expo: i32,
)
    ensures
        spec_sol_to_token(sol_lamports, decimals, token_price, token_expo, sol_price, sol_expo)
            matches Err(c) ==> (c == ErrorCode::InvalidOracle || c == ErrorCode::MathOverflow),
{
}

pub proof fn lemma_scale_price_error_range(price: i64, expo: i32, target_expo: i32)
    ensures
        spec_scale_price(price, expo, target_expo) matches Err(c) ==> c
            == ErrorCode::MathOverflow,
{
}

/// The whitelist walk of a NAV computation fails only with a vault or
/// ordering error.
pub proof fn lemma_wl_check_error_range(program: Address, fund: Address, entries: Seq<NavEntry>)
    ensures
        spec_wl_check(program, fund, entries) matches Some(c) ==> (c
            == ErrorCode::InvalidTokenVault || c == ErrorCode::InvalidWhitelistOrder),
    decreases entries.len(),
{
    if entries.len() > 0 {
        lemma_wl_check_error_range(program, fund, entries.drop_last());
    }
}

/// The valuation walk of a NAV computation fails only with a vault,
/// oracle or overflow error.
pub proof fn lemma_value_sum_error_range(
    fund: Address,
    pyth_program: Address,
    sol: OracleReading,
    now: i64,
    entries: Seq<NavEntry>,
)
    ensures
        spec_value_sum(fund, pyth_program, sol, now, entries) matches Err(c) ==> (c
            == ErrorCode::InvalidTokenVault || c == ErrorCode::InvalidOracle || c
            == ErrorCode::StaleOracle || c == ErrorCode::InvalidOracleConfidence || c
            == ErrorCode::MathOverflow),
    decreases entries.len(),
{
    if entries.len() > 0 {
        lemma_value_sum_error_range(fund, pyth_program, sol, now, entries.drop_last());
        let e = entries.last();
        lemma_load_price_error_range(e.feed.data@, now);
        match spec_load_price(e.feed.data@, now) {
            Ok(tp) => {
                lemma_token_to_sol_error_range(
                    e.vault.amount,
                    e.whitelist.decimals,
                    tp.price,
                    tp.expo,
                    sol.price,
                    sol.expo,
                );
            },
            Err(_) => {},
        }
    }
}

/// A NAV computation never reports a deposit-sizing error.
pub proof fn lemma_compute_nav_error_range(
    program: Address,
    fund: Address,
    sol_lamports: u64,
    sol_usd_feed: Address,
    pyth_program: Address,
    enabled_token_count: u16,
    accounts: NavAccounts,
    now: i64,
)
    ensures
        spec_compute_nav(
            program,
            fund,
            sol_lamports,
            sol_usd_feed,
            pyth_program,
            enabled_token_count,
            accounts,
            now,
        ) matches Err(c) ==> c != ErrorCode::DepositTooSmall && c != ErrorCode::ZeroShares,
{
    lemma_wl_check_error_range(program, fund, accounts.entries@);
    match accounts.base_feed {
        Some(bf) => {
            lemma_load_price_error_range(bf.data@, now);
            match spec_load_price(bf.data@, now) {
                Ok(sol) => {
                    lemma_value_sum_error_range(fund, pyth_program, sol, now, accounts.entries@);
                },
                Err(_) => {},
            }
        },
        None => {},
    }
}

/// A deposit is refused as too small exactly when the amount is below
/// the fund's minimum; at or above the threshold that error can no
/// longer arise.
pub proof fn lemma_deposit_minimum_boundary(
    config: GlobalConfig,
    fund: FundState,
    program: Address,
    fund_key: Address,
    vault_lamports: u64,
    accounts: NavAccounts,
    now: i64,
    amount: u64,
)
    ensures
        spec_deposit(config, fund, program, fund_key, vault_lamports, accounts, now, amount)
            == Err::<(FundState, DepositOutcome), ErrorCode>(ErrorCode::DepositTooSmall) <==> amount
            < fund.min_investor_deposit_lamports,
{
    if amount >= fund.min_investor_deposit_lamports {
        lemma_compute_nav_error_range(
            program,
            fund_key,
            vault_lamports,
            config.sol_usd_pyth_feed,
            config.pyth_program_id,
            fund.enabled_token_count,
            accounts,
            now,
        );
    }
}

/// The price trigger of a limit order is non-strict: at a scaled price
/// exactly equal to the limit price, in either direction, execution is
/// never refused as untriggered.
pub proof fn lemma_limit_trigger_nonstrict(
    config: GlobalConfig,
    fund: FundState,
    order: LimitOrder,
    program: Address,
    fund_key: Address,
    executor: Address,
    whitelist: FundWhitelist,
    order_key: Address,
    price_feed: FeedAccount,
    sol_price_feed: FeedAccount,
    swap_program: Address,
    swap_data: Seq<u8>,
    swap_accounts: Seq<SwapAccount>,
    fund_token_vault_addr: Address,
    fund_token_vault: TokenAccountData,
    order_sol_vault: SystemAccountSlot,
    order_vault_auth: Address,
    order_token_vault_addr: Address,
    order_token_vault: TokenAccountData,
    fund_vault_lamports: u64,
    now: i64,
    price: OracleReading,
    scaled: i128,
)
    requires
        spec_load_price(price_feed.data@, now) == Ok::<OracleReading, ErrorCode>(price),
        spec_scale_price(price.price, price.expo, order.price_expo) == Ok::<i128, ErrorCode>(
            scaled,
        ),
        order.side == SIDE_BUY ==> scaled <= order.limit_price as i128,
        order.side == SIDE_SELL ==> scaled >= order.limit_price as i128,
    ensures
        spec_execute_limit_order_check(
            config,
            fund,
            order,
            program,
            fund_key,
            executor,
            whitelist,
            order_key,
            price_feed,
            sol_price_feed,
            swap_program,
            swap_data,
            swap_accounts,
            fund_token_vault_addr,
            fund_token_vault,
            order_sol_vault,
            order_vault_auth,
            order_token_vault_addr,
            order_token_vault,
            fund_vault_lamports,
            now,
        ) != Err::<LimitExecPlan, ErrorCode>(ErrorCode::OrderNotTriggered),
{
    lemma_load_price_error_range(sol_price_feed.data@, now);
}

/// A limit order expires strictly after its expiry timestamp: at
/// `now == expiry_ts` execution is never refused as expired, and one
/// second later — with the order otherwise live — it always is.
pub proof fn lemma_limit_expiry_boundary(
    config: GlobalConfig,
    fund: FundState,
    order: LimitOrder,
    program: Address,
    fund_key: Address,
    executor: Address,
    whitelist: FundWhitelist,
    order_key: Address,
    price_feed: FeedAccount,
    sol_price_feed: FeedAccount,
    swap_program: Address,
    swap_data: Seq<u8>,
    swap_accounts: Seq<SwapAccount>,
    fund_token_vault_addr: Address,
    fund_token_vault: TokenAccountData,
    order_sol_vault: SystemAccountSlot,
    order_vault_auth: Address,
    order_token_vault_addr: Address,
    order_token_vault: TokenAccountData,
    fund_vault_lamports: u64,
    now: i64,
)
    ensures
        (order.expiry_ts == 0 || now <= order.expiry_ts) ==> spec_execute_limit_order_check(
            config,
            fund,
            order,
            program,
            fund_key,
            executor,
            whitelist,
            order_key,
            price_feed,
            sol_price_feed,
            swap_program,
            swap_data,
            swap_accounts,
            fund_token_vault_addr,
            fund_token_vault,
            order_sol_vault,
            order_vault_auth,
            order_token_vault_addr,
            order_token_vault,
            fund_vault_lamports,
            now,
        ) != Err::<LimitExecPlan, ErrorCode>(ErrorCode::OrderExpired),
        (executor == config.keeper && fund.fund_type == crate::state::FUND_TYPE_TRADING
            && order.status == crate::state::ORDER_STATUS_OPEN && order.fund == fund_key
            && order.expiry_ts != 0 && now > order.expiry_ts) ==> spec_execute_limit_order_check(
            config,
            fund,
            order,
            program,
            fund_key,
            executor,
            whitelist,
            order_key,
            price_feed,
            sol_price_feed,
            swap_program,
            swap_data,
            swap_accounts,
            fund_token_vault_addr,
            fund_token_vault,
            order_sol_vault,
            order_vault_auth,
            order_token_vault_addr,
            order_token_vault,
            fund_vault_lamports,
            now,
        ) == Err::<LimitExecPlan, ErrorCode>(ErrorCode::OrderExpired),
{
    lemma_load_price_error_range(price_feed.data@, now);
    lemma_load_price_error_range(sol_price_feed.data@, now);
    match spec_load_price(price_feed.data@, now) {
        Ok(p) => {
            lemma_scale_price_error_range(p.price, p.expo, order.price_expo);
        },
        Err(_) => {},
    }
}

/// The final slice of a DCA order spends exactly the remainder when
/// the remainder has fallen below the slice size.
pub proof fn lemma_dca_final_slice(
    config: GlobalConfig,
    fund: FundState,
    order: DcaOrder,
    program: Address,
    fund_key: Address,
    executor: Address,
    whitelist: FundWhitelist,
    order_key: Address,
    price_feed: FeedAccount,
    sol_price_feed: FeedAccount,
    swap_program: Address,
    swap_data: Seq<u8>,
    swap_accounts: Seq<SwapAccount>,
    fund_token_vault_addr: Address,
    fund_token_vault: TokenAccountData,
    order_sol_vault: SystemAccountSlot,
    order_vault_auth: Address,
    order_token_vault_addr: Address,
    order_token_vault: TokenAccountData,
    fund_vault_lamports: u64,
    now: i64,
    plan: DcaExecPlan,
)
    requires
        order.remaining_amount < order.slice_amount,
        spec_execute_dca_order_check(
            config,
            fund,
            order,
            program,
            fund_key,
            executor,
            whitelist,
            order_key,
            price_feed,
            sol_price_feed,
            swap_program,
            swap_data,
            swap_accounts,
            fund_token_vault_addr,
            fund_token_vault,
            order_sol_vault,
            order_vault_auth,
            order_token_vault_addr,
            order_token_vault,
            fund_vault_lamports,
            now,
        ) == Ok::<DcaExecPlan, ErrorCode>(plan),
    ensures
        plan.slice_amount == order.remaining_amount,
{
}

/// A rebalance never proceeds while the target's deviation from its
/// weighted share of NAV is at or within the threshold: whatever else
/// holds of the inputs, a deviation that does not strictly exceed the
/// threshold keeps the check from producing a plan.
pub proof fn lemma_rebalance_threshold_boundary(
    config: GlobalConfig,
    fund: FundState,
    strategy: crate::state::Strategy,
    fund_key: Address,
    executor: Address,
    target_mint: Address,
    min_out: u64,
    swap_program: Address,
    swap_data: Seq<u8>,
    cpi_accounts: Seq<SwapAccount>,
    entries: Seq<crate::strategy_ops::RebalanceEntry>,
    fund_wsol_vault: crate::state::TokenAccountSlot,
    sol_feed: FeedAccount,
    fund_vault_lamports: u64,
    fund_token_vault_addr: Address,
    now: i64,
    sol: OracleReading,
    value_sum: int,
    target: crate::strategy_ops::TargetInfo,
)
    requires
        spec_load_price(sol_feed.data@, now) == Ok::<OracleReading, ErrorCode>(sol),
        crate::strategy_ops::spec_rebalance_scan(
            fund_key,
            config.pyth_program_id,
            sol,
            now,
            strategy.allocations@.take(strategy.allocation_count as int),
            entries.take(strategy.allocation_count as int),
            target_mint,
            fund_token_vault_addr,
        ) == Ok::<(int, Option<crate::strategy_ops::TargetInfo>), ErrorCode>(
            (value_sum, Some(target)),
        ),
        ({
            let nav = fund_vault_lamports + value_sum;
            let deviation = target.actual_value - nav * target.weight_bps / 10_000;
            let magnitude = if deviation >= 0 { deviation } else { -deviation };
            magnitude <= nav * strategy.rebalance_threshold_bps / 10_000
        }),
    ensures
        !(crate::strategy_ops::spec_rebalance_strategy_check(
            config,
            fund,
            strategy,
            fund_key,
            executor,
            target_mint,
            min_out,
            swap_program,
            swap_data,
            cpi_accounts,
            entries,
            fund_wsol_vault,
            sol_feed,
            fund_vault_lamports,
            fund_token_vault_addr,
            now,
        ) is Ok),
{
}

/// A slice that consumes the whole remainder completes the order: the
/// remainder reaches zero and the order transitions to executed.
pub proof fn lemma_dca_completion(
    config: GlobalConfig,
    fund: FundState,
    order: DcaOrder,
    decimals: u8,
    plan: DcaExecPlan,
    fund_token_after: u64,
    order_token_after: u64,
    fund_sol_after: u64,
    sol_escrow_lamports_after: u64,
    fund2: FundState,
    order2: DcaOrder,
    outcome: DcaSettleOutcome,
)
    requires
        plan.slice_amount == order.remaining_amount,
        spec_execute_dca_order_settle(
            config,
            fund,
            order,
            decimals,
            plan,
            fund_token_after,
            order_token_after,
            fund_sol_after,
            sol_escrow_lamports_after,
        ) == Ok::<(FundState, DcaOrder, DcaSettleOutcome), ErrorCode>((fund2, order2, outcome)),
    ensures
        order2.remaining_amount == 0,
        order2.status == DCA_STATUS_EXECUTED,
        outcome.completed,
{
}

} // verus!
