use vstd::prelude::*;
use crate::addr::Address;
use crate::errors::ErrorCode;
use crate::math::{
    apply_max_slippage, expected_sol_out_from_token, expected_token_out_from_sol,
    spec_apply_max_slippage, spec_sol_to_token, spec_token_to_sol,
};
use crate::nav::{ata_matches, derived_matches};
use crate::oracle::{FeedAccount, OracleReading, load_price, spec_load_price};
use crate::pda::{
    derive_ata_address, derive_limit_sol_vault_address, derive_limit_vault_auth_address,
    native_mint, spec_ata_address, spec_limit_sol_vault_address, spec_limit_vault_auth_address,
    spec_native_mint, spec_swap_aggregator_id, spec_token_program_id, swap_aggregator_id,
    token_program_id,
};
use crate::math::{spec_scale_price, scale_price};
use crate::state::{
    FundState, FundWhitelist, GlobalConfig, LimitOrder, SwapAccount, SystemAccountSlot,
    TokenAccountData, TokenAccountSlot, ORDER_STATUS_CANCELLED, ORDER_STATUS_EXECUTED,
    ORDER_STATUS_OPEN, SIDE_BUY, SIDE_SELL, FUND_TYPE_TRADING,
};

verus! {

/// Is `addr` present in the caller-assembled swap account list, counted
/// only when writable if `need_writable`?
pub open spec fn spec_has_account(accs: Seq<SwapAccount>, addr: Address, need_writable: bool) -> bool {
    exists|i: int|
        0 <= i < accs.len() && (#[trigger] accs[i]).addr == addr && (need_writable
            ==> accs[i].is_writable)
}

pub fn has_account(accs: &Vec<SwapAccount>, addr: &Address, need_writable: bool) -> (r: bool)
    ensures
        r == spec_has_account(accs@, *addr, need_writable),
{
    let n = accs.len();
    let mut i: usize = 0;
    while i < n
        invariant
            0 <= i <= n,
            n == accs@.len(),
            forall|t: int|
                0 <= t < i ==> !((#[trigger] accs@[t]).addr == *addr && (need_writable
                    ==> accs@[t].is_writable)),
        decreases n - i,
    {
        let a = &accs[i];
        if a.addr == *addr && (!need_writable || a.is_writable) {
            return true;
        }
        i = i + 1;
    }
    false
}

/// What opening a limit order moves and creates: the order record, its
/// id, whether its two escrow accounts had to be created, and the
/// collateral moved in — lamports into the base-currency escrow for a
/// buy, tokens into the token escrow for a sell.
#[derive(Clone, Copy, PartialEq, Eq, Structural, Debug)]
pub struct CreateLimitOutcome {
    pub order: LimitOrder,
    pub order_id: u64,
    pub create_sol_vault: bool,
    pub create_token_escrow: bool,
    pub escrow_lamports_in: u64,
    pub escrow_tokens_in: u64,
}

/// A manager opens a price-triggered one-shot order on a trading fund:
/// the mint must be an enabled whitelist of the fund, the amounts and
/// the limit price positive, the escrow accounts at their derived
/// addresses and empty, and the collateral is escrowed up front.
pub open spec fn spec_create_limit_order(
    config: GlobalConfig,
    fund: FundState,
    program: Address,
    fund_key: Address,
    manager: Address,
    mint: Address,
    whitelist: FundWhitelist,
    order_key: Address,
    order_bump: u8,
    order_sol_vault: SystemAccountSlot,
    order_vault_auth: Address,
    order_token_vault: TokenAccountSlot,
    fund_token_vault_addr: Address,
    fund_token_vault: TokenAccountData,
    fund_vault_lamports: u64,
    now: i64,
    side: u8,
    amount_in: u64,
    min_out: u64,
    limit_price: i64,
    price_expo: i32,
    expiry_ts: i64,
) -> Result<(FundState, CreateLimitOutcome), ErrorCode> {
    if amount_in == 0 {
        Err(ErrorCode::MathOverflow)
    } else if min_out == 0 {
        Err(ErrorCode::InvalidMinOut)
    } else if limit_price <= 0 {
        Err(ErrorCode::InvalidOracle)
    } else if fund.manager != manager {
        Err(ErrorCode::Unauthorized)
    } else if fund.fund_type != FUND_TYPE_TRADING {
        Err(ErrorCode::InvalidFundType)
    } else if !whitelist.enabled {
        Err(ErrorCode::InvalidTokenVault)
    } else if whitelist.fund != fund_key {
        Err(ErrorCode::InvalidTokenVault)
    } else if whitelist.mint != mint {
        Err(ErrorCode::InvalidTokenVault)
    } else if side != SIDE_BUY && side != SIDE_SELL {
        Err(ErrorCode::InvalidOrderSide)
    } else if fund.next_order_id + 1 > u64::MAX {
        Err(ErrorCode::MathOverflow)
    } else if fund.active_limit_count + 1 > u16::MAX {
        Err(ErrorCode::MathOverflow)
    } else {
        let order = LimitOrder {
            fund: fund_key,
            side,
            mint,
            amount_in,
            min_out,
            limit_price,
            price_expo,
            price_feed: whitelist.pyth_feed,
            pyth_program_id: config.pyth_program_id,
            created_ts: now,
            expiry_ts,
            status: ORDER_STATUS_OPEN,
            bump: order_bump,
        };
        let new_fund = FundState {
            next_order_id: (fund.next_order_id + 1) as u64,
            active_limit_count: (fund.active_limit_count + 1) as u16,
            ..fund
        };
        if !ata_matches(spec_ata_address(fund_key, mint), fund_token_vault_addr) {
            Err(ErrorCode::InvalidTokenVault)
        } else if fund_token_vault.mint != mint {
            Err(ErrorCode::InvalidTokenVault)
        } else if side == SIDE_BUY {
            if !derived_matches(spec_limit_vault_auth_address(program, order_key), order_vault_auth) {
                Err(ErrorCode::InvalidOrderVault)
            } else if !derived_matches(
                spec_limit_sol_vault_address(program, order_key),
                order_sol_vault.addr,
            ) {
                Err(ErrorCode::InvalidOrderVault)
            } else {
                let create_sol_vault = order_sol_vault.lamports == 0;
                if !create_sol_vault && !order_sol_vault.owner.is_zero() {
                    Err(ErrorCode::InvalidOrderVault)
                } else if !ata_matches(
                    spec_ata_address(order_vault_auth, spec_native_mint()),
                    order_token_vault.addr,
                ) {
                    Err(ErrorCode::InvalidOrderVault)
                } else {
                    let create_token_escrow = order_token_vault.account is None;
                    let escrow_ok = match order_token_vault.account {
                        None => Ok(()),
                        Some(v) => {
                            if order_token_vault.program_owner != spec_token_program_id() {
                                Err(ErrorCode::InvalidOrderVault)
                            } else if v.mint != spec_native_mint() {
                                Err(ErrorCode::InvalidOrderVault)
                            } else if v.amount != 0 {
                                Err(ErrorCode::InvalidOrderVault)
                            } else {
                                Ok(())
                            }
                        },
                    };
                    match escrow_ok {
                        Err(c) => Err(c),
                        Ok(()) => {
                            if fund_vault_lamports < amount_in {
                                Err(ErrorCode::InsufficientLiquidity)
                            } else {
                                Ok(
                                    (
                                        new_fund,
                                        CreateLimitOutcome {
                                            order,
                                            order_id: fund.next_order_id,
                                            create_sol_vault,
                                            create_token_escrow,
                                            escrow_lamports_in: amount_in,
                                            escrow_tokens_in: 0,
                                        },
                                    ),
                                )
                            }
                        },
                    }
                }
            }
        } else {
            if !derived_matches(spec_limit_vault_auth_address(program, order_key), order_vault_auth) {
                Err(ErrorCode::InvalidOrderVault)
            } else if !ata_matches(
                spec_ata_address(order_vault_auth, mint),
                order_token_vault.addr,
            ) {
                Err(ErrorCode::InvalidOrderVault)
            } else {
                let create_token_escrow = order_token_vault.account is None;
                let escrow_ok = match order_token_vault.account {
                    None => Ok(()),
                    Some(v) => {
                        if order_token_vault.program_owner != spec_token_program_id() {
                            Err(ErrorCode::InvalidOrderVault)
                        } else if v.mint != mint {
                            Err(ErrorCode::InvalidOrderVault)
                        } else if v.owner != order_vault_auth {
                            Err(ErrorCode::InvalidOrderVault)
                        } else if v.amount != 0 {
                            Err(ErrorCode::InvalidOrderVault)
                        } else {
                            Ok(())
                        }
                    },
                };
                match escrow_ok {
                    Err(c) => Err(c),
                    Ok(()) => {
                        if fund_token_vault.owner != fund_key {
                            Err(ErrorCode::InvalidTokenVault)
                        } else if fund_token_vault.mint != mint {
                            Err(ErrorCode::InvalidTokenVault)
                        } else {
                            Ok(
                                (
                                    new_fund,
                                    CreateLimitOutcome {
                                        order,
                                        order_id: fund.next_order_id,
                                        create_sol_vault: false,
                                        create_token_escrow,
                                        escrow_lamports_in: 0,
                                        escrow_tokens_in: amount_in,
                                    },
                                ),
                            )
                        }
                    },
                }
            }
        }
    }
}

pub fn create_limit_order(
    config: &GlobalConfig,
    fund: &mut FundState,
    program_id: &Address,
    fund_key: &Address,
    manager: &Address,
    mint: &Address,
    whitelist: &FundWhitelist,
    order_key: &Address,
    order_bump: u8,
    order_sol_vault: &SystemAccountSlot,
    order_vault_auth: &Address,
    order_token_vault: &TokenAccountSlot,
    fund_token_vault_addr: &Address,
    fund_token_vault: &TokenAccountData,
    fund_vault_lamports: u64,
    now: i64,
    side: u8,
    amount_in: u64,
    min_out: u64,
    limit_price: i64,
    price_expo: i32,
    expiry_ts: i64,
) -> (r: Result<CreateLimitOutcome, ErrorCode>)
    ensures
        (match r {
            Ok(o) => spec_create_limit_order(
                *config,
                *old(fund),
                *program_id,
                *fund_key,
                *manager,
                *mint,
                *whitelist,
                *order_key,
                order_bump,
                *order_sol_vault,
                *order_vault_auth,
                *order_token_vault,
                *fund_token_vault_addr,
                *fund_token_vault,
                fund_vault_lamports,
                now,
                side,
                amount_in,
                min_out,
                limit_price,
                price_expo,
                expiry_ts,
            ) == Ok::<(FundState, CreateLimitOutcome), ErrorCode>((*final(fund), o)),
            Err(e) => *final(fund) == *old(fund) && spec_create_limit_order(
                *config,
                *old(fund),
                *program_id,
                *fund_key,
                *manager,
                *mint,
                *whitelist,
                *order_key,
                order_bump,
                *order_sol_vault,
                *order_vault_auth,
                *order_token_vault,
                *fund_token_vault_addr,
                *fund_token_vault,
                fund_vault_lamports,
                now,
                side,
                amount_in,
                min_out,
                limit_price,
                price_expo,
                expiry_ts,
            ) == Err::<(FundState, CreateLimitOutcome), ErrorCode>(e),
        }),
        r matches Ok(o) ==> o.order.status == ORDER_STATUS_OPEN && o.order.amount_in == amount_in
            && (o.escrow_lamports_in == amount_in || o.escrow_tokens_in == amount_in)
            && final(fund).active_limit_count == old(fund).active_limit_count + 1
            && final(fund).next_order_id == old(fund).next_order_id + 1,
{
    if amount_in == 0 {
        return Err(ErrorCode::MathOverflow);
    }
    if min_out == 0 {
        return Err(ErrorCode::InvalidMinOut);
    }
    if limit_price <= 0 {
        return Err(ErrorCode::InvalidOracle);
    }
    if fund.manager != *manager {
        return Err(ErrorCode::Unauthorized);
    }
    if fund.fund_type != FUND_TYPE_TRADING {
        return Err(ErrorCode::InvalidFundType);
    }
    if !whitelist.enabled {
        return Err(ErrorCode::InvalidTokenVault);
    }
    if whitelist.fund != *fund_key {
        return Err(ErrorCode::InvalidTokenVault);
    }
    if whitelist.mint != *mint {
        return Err(ErrorCode::InvalidTokenVault);
    }
    if side != SIDE_BUY && side != SIDE_SELL {
        return Err(ErrorCode::InvalidOrderSide);
    }
    let order_id = fund.next_order_id;
    let next_order_id = match fund.next_order_id.checked_add(1) {
        Some(v) => v,
        None => { return Err(ErrorCode::MathOverflow) },
    };
    let active_limit_count = match fund.active_limit_count.checked_add(1) {
        Some(v) => v,
        None => { return Err(ErrorCode::MathOverflow) },
    };
    let order = LimitOrder {
        fund: *fund_key,
        side,
        mint: *mint,
        amount_in,
        min_out,
        limit_price,
        price_expo,
        price_feed: whitelist.pyth_feed,
        pyth_program_id: config.pyth_program_id,
        created_ts: now,
        expiry_ts,
        status: ORDER_STATUS_OPEN,
        bump: order_bump,
    };
    let fund_ata_ok = match derive_ata_address(fund_key, mint) {
        Some(a) => a == *fund_token_vault_addr,
        None => false,
    };
    if !fund_ata_ok {
        return Err(ErrorCode::InvalidTokenVault);
    }
    if fund_token_vault.mint != *mint {
        return Err(ErrorCode::InvalidTokenVault);
    }
    let auth_ok = match derive_limit_vault_auth_address(program_id, order_key) {
        Some(p) => p.0 == *order_vault_auth,
        None => false,
    };
    let outcome: CreateLimitOutcome;
    if side == SIDE_BUY {
        if !auth_ok {
            return Err(ErrorCode::InvalidOrderVault);
        }
        let sol_vault_ok = match derive_limit_sol_vault_address(program_id, order_key) {
            Some(p) => p.0 == order_sol_vault.addr,
            None => false,
        };
        if !sol_vault_ok {
            return Err(ErrorCode::InvalidOrderVault);
        }
        let create_sol_vault = order_sol_vault.lamports == 0;
        if !create_sol_vault && !(order_sol_vault.owner == Address::zero()) {
            return Err(ErrorCode::InvalidOrderVault);
        }
        let wsol_ata_ok = match derive_ata_address(order_vault_auth, &native_mint()) {
            Some(a) => a == order_token_vault.addr,
            None => false,
        };
        if !wsol_ata_ok {
            return Err(ErrorCode::InvalidOrderVault);
        }
        let create_token_escrow = order_token_vault.account.is_none();
        match order_token_vault.account {
            None => {},
            Some(v) => {
                if order_token_vault.program_owner != token_program_id() {
                    return Err(ErrorCode::InvalidOrderVault);
                }
                if v.mint != native_mint() {
                    return Err(ErrorCode::InvalidOrderVault);
                }
                if v.amount != 0 {
                    return Err(ErrorCode::InvalidOrderVault);
                }
            },
        }
        if fund_vault_lamports < amount_in {
            return Err(ErrorCode::InsufficientLiquidity);
        }
        outcome = CreateLimitOutcome {
            order,
            order_id,
            create_sol_vault,
            create_token_escrow,
            escrow_lamports_in: amount_in,
            escrow_tokens_in: 0,
        };
    } else {
        if !auth_ok {
            return Err(ErrorCode::InvalidOrderVault);
        }
        let escrow_ata_ok = match derive_ata_address(order_vault_auth, mint) {
            Some(a) => a == order_token_vault.addr,
            None => false,
        };
        if !escrow_ata_ok {
            return Err(ErrorCode::InvalidOrderVault);
        }
        let create_token_escrow = order_token_vault.account.is_none();
        match order_token_vault.account {
            None => {},
            Some(v) => {
                if order_token_vault.program_owner != token_program_id() {
                    return Err(ErrorCode::InvalidOrderVault);
                }
                if v.mint != *mint {
                    return Err(ErrorCode::InvalidOrderVault);
                }
                if v.owner != *order_vault_auth {
                    return Err(ErrorCode::InvalidOrderVault);
                }
                if v.amount != 0 {
                    return Err(ErrorCode::InvalidOrderVault);
                }
            },
        }
        if fund_token_vault.owner != *fund_key {
            return Err(ErrorCode::InvalidTokenVault);
        }
        if fund_token_vault.mint != *mint {
            return Err(ErrorCode::InvalidTokenVault);
        }
        outcome = CreateLimitOutcome {
            order,
            order_id,
            create_sol_vault: false,
            create_token_escrow,
            escrow_lamports_in: 0,
            escrow_tokens_in: amount_in,
        };
    }
    fund.next_order_id = next_order_id;
    fund.active_limit_count = active_limit_count;
    Ok(outcome)
}

/// Everything an execution validated and snapshotted before the
/// external swap is invoked: the trigger held at the loaded prices, and
/// these are the balances to diff against afterwards.  For a buy the
/// escrowed lamports have been wrapped into the token escrow
/// (`wrap_lamports`), so the snapshot reflects the wrapped balance.
#[derive(Clone, Copy, PartialEq, Eq, Structural, Debug)]
pub struct LimitExecPlan {
    pub side: u8,
    pub amount_in: u64,
    pub min_out: u64,
    pub order_token_before: u64,
    pub fund_token_before: u64,
    pub fund_sol_before: u64,
    pub price: OracleReading,
    pub sol_price: OracleReading,
    pub wrap_lamports: u64,
}

/// The pre-swap phase of limit-order execution: keeper authority, order
/// and whitelist liveness, expiry, oracle loads under the staleness and
/// confidence bounds, the price trigger (non-strict in both directions),
/// swap-program identity, escrow derivations, and the required presence
/// of the escrow, authority and output accounts in the forwarded list.
pub open spec fn spec_execute_limit_order_check(
    config: GlobalConfig,
    fund: FundState,
    order: LimitOrder,
    program: Address,
    fund_key: Address,
    executor: Address,
    whitelist: FundWhitelist,
    order_key: Address,
    price_feed: FeedAccount,
    sol_price_feed: FeedAccount,
    swap_program: Address,
    swap_data: Seq<u8>,
    swap_accounts: Seq<SwapAccount>,
    fund_token_vault_addr: Address,
    fund_token_vault: TokenAccountData,
    order_sol_vault: SystemAccountSlot,
    order_vault_auth: Address,
    order_token_vault_addr: Address,
    order_token_vault: TokenAccountData,
    fund_vault_lamports: u64,
    now: i64,
) -> Result<LimitExecPlan, ErrorCode> {
    if executor != config.keeper {
        Err(ErrorCode::Unauthorized)
    } else if fund.fund_type != FUND_TYPE_TRADING {
        Err(ErrorCode::InvalidFundType)
    } else if order.status != ORDER_STATUS_OPEN {
        Err(ErrorCode::OrderNotOpen)
    } else if order.fund != fund_key {
        Err(ErrorCode::InvalidTokenVault)
    } else if order.expiry_ts != 0 && now > order.expiry_ts {
        Err(ErrorCode::OrderExpired)
    } else if order.side != SIDE_BUY && order.side != SIDE_SELL {
        Err(ErrorCode::InvalidOrderSide)
    } else if !whitelist.enabled {
        Err(ErrorCode::InvalidTokenVault)
    } else if whitelist.fund != fund_key {
        Err(ErrorCode::InvalidTokenVault)
    } else if whitelist.mint != order.mint {
        Err(ErrorCode::InvalidTokenVault)
    } else if whitelist.pyth_feed != order.price_feed {
        Err(ErrorCode::InvalidOracle)
    } else if price_feed.addr != order.price_feed {
        Err(ErrorCode::InvalidOracle)
    } else if price_feed.owner != order.pyth_program_id {
        Err(ErrorCode::InvalidOracle)
    } else {
        match spec_load_price(price_feed.data@, now) {
            Err(c) => Err(c),
            Ok(price) => {
                if sol_price_feed.addr != config.sol_usd_pyth_feed {
                    Err(ErrorCode::InvalidOracle)
                } else if sol_price_feed.owner != config.pyth_program_id {
                    Err(ErrorCode::InvalidOracle)
                } else {
                    match spec_load_price(sol_price_feed.data@, now) {
                        Err(c) => Err(c),
                        Ok(sol_price) => match spec_scale_price(
                            price.price,
                            price.expo,
                            order.price_expo,
                        ) {
                            Err(c) => Err(c),
                            Ok(scaled) => {
                                if order.side == SIDE_BUY && scaled > order.limit_price as i128 {
                                    Err(ErrorCode::OrderNotTriggered)
                                } else if order.side == SIDE_SELL && scaled < order.limit_price
                                    as i128 {
                                    Err(ErrorCode::OrderNotTriggered)
                                } else if swap_data.len() == 0 {
                                    Err(ErrorCode::InvalidSwapProgram)
                                } else if swap_accounts.len() == 0 {
                                    Err(ErrorCode::InvalidSwapProgram)
                                } else if swap_program != spec_swap_aggregator_id() {
                                    Err(ErrorCode::InvalidSwapProgram)
                                } else if !ata_matches(
                                    spec_ata_address(fund_key, order.mint),
                                    fund_token_vault_addr,
                                ) {
                                    Err(ErrorCode::InvalidTokenVault)
                                } else if fund_token_vault.mint != order.mint {
                                    Err(ErrorCode::InvalidTokenVault)
                                } else if order.side == SIDE_BUY && !derived_matches(
                                    spec_limit_sol_vault_address(program, order_key),
                                    order_sol_vault.addr,
                                ) {
                                    Err(ErrorCode::InvalidOrderVault)
                                } else if order.side == SIDE_SELL && (!derived_matches(
                                    spec_limit_vault_auth_address(program, order_key),
                                    order_vault_auth,
                                ) || !ata_matches(
                                    spec_ata_address(order_vault_auth, order.mint),
                                    order_token_vault_addr,
                                ) || order_token_vault.mint != order.mint) {
                                    Err(ErrorCode::InvalidOrderVault)
                                } else if !spec_has_account(
                                    swap_accounts,
                                    order_token_vault_addr,
                                    true,
                                ) {
                                    Err(ErrorCode::InvalidOrderVault)
                                } else if !(if order.side == SIDE_BUY {
                                    spec_has_account(swap_accounts, fund_token_vault_addr, true)
                                } else {
                                    spec_has_account(swap_accounts, fund.vault, true)
                                }) {
                                    Err(ErrorCode::InvalidTokenVault)
                                } else if !spec_has_account(swap_accounts, order_vault_auth, false) {
                                    Err(ErrorCode::InvalidOrderVault)
                                } else if !derived_matches(
                                    spec_limit_vault_auth_address(program, order_key),
                                    order_vault_auth,
                                ) {
                                    Err(ErrorCode::InvalidOrderVault)
                                } else if order_token_vault.mint != (if order.side == SIDE_BUY {
                                    spec_native_mint()
                                } else {
                                    order.mint
                                }) {
                                    Err(ErrorCode::InvalidOrderVault)
                                } else if order_token_vault.owner != order_vault_auth {
                                    Err(ErrorCode::InvalidOrderVault)
                                } else if !ata_matches(
                                    spec_ata_address(
                                        order_vault_auth,
                                        if order.side == SIDE_BUY {
                                            spec_native_mint()
                                        } else {
                                            order.mint
                                        },
                                    ),
                                    order_token_vault_addr,
                                ) {
                                    Err(ErrorCode::InvalidOrderVault)
                                } else if order.side == SIDE_BUY {
                                    if !order_sol_vault.owner.is_zero() {
                                        Err(ErrorCode::InvalidOrderVault)
                                    } else if order_sol_vault.lamports < order.amount_in {
                                        Err(ErrorCode::InsufficientLiquidity)
                                    } else if order_token_vault.amount + order.amount_in
                                        > u64::MAX {
                                        Err(ErrorCode::MathOverflow)
                                    } else {
                                        Ok(
                                            LimitExecPlan {
                                                side: order.side,
                                                amount_in: order.amount_in,
                                                min_out: order.min_out,
                                                order_token_before: (order_token_vault.amount
                                                    + order.amount_in) as u64,
                                                fund_token_before: fund_token_vault.amount,
                                                fund_sol_before: fund_vault_lamports,
                                                price,
                                                sol_price,
                                                wrap_lamports: order.amount_in,
                                            },
                                        )
                                    }
                                } else {
                                    Ok(
                                        LimitExecPlan {
                                            side: order.side,
                                            amount_in: order.amount_in,
                                            min_out: order.min_out,
                                            order_token_before: order_token_vault.amount,
                                            fund_token_before: fund_token_vault.amount,
                                            fund_sol_before: fund_vault_lamports,
                                            price,
                                            sol_price,
                                            wrap_lamports: 0,
                                        },
                                    )
                                }
                            },
                        },
                    }
                }
            },
        }
    }
}

#[verifier::rlimit(50)]
pub fn execute_limit_order_check(
    config: &GlobalConfig,
    fund: &FundState,
    order: &LimitOrder,
    program_id: &Address,
    fund_key: &Address,
    executor: &Address,
    whitelist: &FundWhitelist,
    order_key: &Address,
    price_feed: &FeedAccount,
    sol_price_feed: &FeedAccount,
    swap_program: &Address,
    swap_data: &Vec<u8>,
    swap_accounts: &Vec<SwapAccount>,
    fund_token_vault_addr: &Address,
    fund_token_vault: &TokenAccountData,
    order_sol_vault: &SystemAccountSlot,
    order_vault_auth: &Address,
    order_token_vault_addr: &Address,
    order_token_vault: &TokenAccountData,
    fund_vault_lamports: u64,
    now: i64,
) -> (r: Result<LimitExecPlan, ErrorCode>)
    ensures
        r == spec_execute_limit_order_check(
            *config,
            *fund,
            *order,
            *program_id,
            *fund_key,
            *executor,
            *whitelist,
            *order_key,
            *price_feed,
            *sol_price_feed,
            *swap_program,
            swap_data@,
            swap_accounts@,
            *fund_token_vault_addr,
            *fund_token_vault,
            *order_sol_vault,
            *order_vault_auth,
            *order_token_vault_addr,
            *order_token_vault,
            fund_vault_lamports,
            now,
        ),
{
    if *executor != config.keeper {
        return Err(ErrorCode::Unauthorized);
    }
    if fund.fund_type != FUND_TYPE_TRADING {
        return Err(ErrorCode::InvalidFundType);
    }
    if order.status != ORDER_STATUS_OPEN {
        return Err(ErrorCode::OrderNotOpen);
    }
    if order.fund != *fund_key {
        return Err(ErrorCode::InvalidTokenVault);
    }
    if order.expiry_ts != 0 && now > order.expiry_ts {
        return Err(ErrorCode::OrderExpired);
    }
    if order.side != SIDE_BUY && order.side != SIDE_SELL {
        return Err(ErrorCode::InvalidOrderSide);
    }
    if !whitelist.enabled {
        return Err(ErrorCode::InvalidTokenVault);
    }
    if whitelist.fund != *fund_key {
        return Err(ErrorCode::InvalidTokenVault);
    }
    if whitelist.mint != order.mint {
        return Err(ErrorCode::InvalidTokenVault);
    }
    if whitelist.pyth_feed != order.price_feed {
        return Err(ErrorCode::InvalidOracle);
    }
    if price_feed.addr != order.price_feed {
        return Err(ErrorCode::InvalidOracle);
    }
    if price_feed.owner != order.pyth_program_id {
        return Err(ErrorCode::InvalidOracle);
    }
    let price = match load_price(&price_feed.data, now) {
        Ok(p) => p,
        Err(c) => { return Err(c) },
    };
    if sol_price_feed.addr != config.sol_usd_pyth_feed {
        return Err(ErrorCode::InvalidOracle);
    }
    if sol_price_feed.owner != config.pyth_program_id {
        return Err(ErrorCode::InvalidOracle);
    }
    let sol_price = match load_price(&sol_price_feed.data, now) {
        Ok(p) => p,
        Err(c) => { return Err(c) },
    };
    let scaled = match scale_price(price.price, price.expo, order.price_expo) {
        Ok(v) => v,
        Err(c) => { return Err(c) },
    };
    if order.side == SIDE_BUY && scaled > order.limit_price as i128 {
        return Err(ErrorCode::OrderNotTriggered);
    }
    if order.side == SIDE_SELL && scaled < order.limit_price as i128 {
        return Err(ErrorCode::OrderNotTriggered);
    }
    if swap_data.len() == 0 {
        return Err(ErrorCode::InvalidSwapProgram);
    }
    if swap_accounts.len() == 0 {
        return Err(ErrorCode::InvalidSwapProgram);
    }
    if *swap_program != swap_aggregator_id() {
        return Err(ErrorCode::InvalidSwapProgram);
    }
    let fund_ata_ok = match derive_ata_address(fund_key, &order.mint) {
        Some(a) => a == *fund_token_vault_addr,
        None => false,
    };
    if !fund_ata_ok {
        return Err(ErrorCode::InvalidTokenVault);
    }
    if fund_token_vault.mint != order.mint {
        return Err(ErrorCode::InvalidTokenVault);
    }
    let auth_ok = match derive_limit_vault_auth_address(program_id, order_key) {
        Some(p) => p.0 == *order_vault_auth,
        None => false,
    };
    if order.side == SIDE_BUY {
        let sol_vault_ok = match derive_limit_sol_vault_address(program_id, order_key) {
            Some(p) => p.0 == order_sol_vault.addr,
            None => false,
        };
        if !sol_vault_ok {
            return Err(ErrorCode::InvalidOrderVault);
        }
    } else {
        let escrow_ata_ok = match derive_ata_address(order_vault_auth, &order.mint) {
            Some(a) => a == *order_token_vault_addr,
            None => false,
        };
        if !auth_ok || !escrow_ata_ok || order_token_vault.mint != order.mint {
            return Err(ErrorCode::InvalidOrderVault);
        }
    }
    if !has_account(swap_accounts, order_token_vault_addr, true) {
        return Err(ErrorCode::InvalidOrderVault);
    }
    let has_output = if order.side == SIDE_BUY {
        has_account(swap_accounts, fund_token_vault_addr, true)
    } else {
        has_account(swap_accounts, &fund.vault, true)
    };
    if !has_output {
        return Err(ErrorCode::InvalidTokenVault);
    }
    if !has_account(swap_accounts, order_vault_auth, false) {
        return Err(ErrorCode::InvalidOrderVault);
    }
    if !auth_ok {
        return Err(ErrorCode::InvalidOrderVault);
    }
    let escrow_mint = if order.side == SIDE_BUY {
        native_mint()
    } else {
        order.mint
    };
    if order_token_vault.mint != escrow_mint {
        return Err(ErrorCode::InvalidOrderVault);
    }
    if order_token_vault.owner != *order_vault_auth {
        return Err(ErrorCode::InvalidOrderVault);
    }
    let escrow_ata_ok = match derive_ata_address(order_vault_auth, &escrow_mint) {
        Some(a) => a == *order_token_vault_addr,
        None => false,
    };
    if !escrow_ata_ok {
        return Err(ErrorCode::InvalidOrderVault);
    }
    if order.side == SIDE_BUY {
        if !(order_sol_vault.owner == Address::zero()) {
            return Err(ErrorCode::InvalidOrderVault);
        }
        if order_sol_vault.lamports < order.amount_in {
            return Err(ErrorCode::InsufficientLiquidity);
        }
        let wrapped = match order_token_vault.amount.checked_add(order.amount_in) {
            Some(v) => v,
            None => { return Err(ErrorCode::MathOverflow) },
        };
        Ok(
            LimitExecPlan {
                side: order.side,
                amount_in: order.amount_in,
                min_out: order.min_out,
                order_token_before: wrapped,
                fund_token_before: fund_token_vault.amount,
                fund_sol_before: fund_vault_lamports,
                price,
                sol_price,
                wrap_lamports: order.amount_in,
            },
        )
    } else {
        Ok(
            LimitExecPlan {
                side: order.side,
                amount_in: order.amount_in,
                min_out: order.min_out,
                order_token_before: order_token_vault.amount,
                fund_token_before: fund_token_vault.amount,
                fund_sol_before: fund_vault_lamports,
                price,
                sol_price,
                wrap_lamports: 0,
            },
        )
    }
}

/// What the post-swap phase verified of the realized swap.
#[derive(Clone, Copy, PartialEq, Eq, Structural, Debug)]
pub struct LimitSettleOutcome {
    pub output_delta: u64,
    pub min_expected: u64,
    pub close_token_escrow_to_vault: bool,
}

/// The post-swap phase of limit-order execution: the fund's output
/// account must have gained at least both the order's `min_out` and the
/// oracle-expected output reduced by the slippage cap; the escrow must
/// have held exactly the order size and ended empty.  The order then
/// becomes executed, its escrow is closed to the fund vault, and the
/// active order count drops.
pub open spec fn spec_execute_limit_order_settle(
    config: GlobalConfig,
    fund: FundState,
    order: LimitOrder,
    decimals: u8,
    plan: LimitExecPlan,
    fund_token_after: u64,
    order_token_after: u64,
    fund_sol_after: u64,
) -> Result<(FundState, LimitOrder, LimitSettleOutcome), ErrorCode> {
    if plan.side != SIDE_BUY && plan.side != SIDE_SELL {
        Err(ErrorCode::InvalidOrderSide)
    } else {
        let delta_ok: Result<u64, ErrorCode> = if plan.side == SIDE_BUY {
            if fund_token_after < plan.fund_token_before {
                Err(ErrorCode::MathOverflow)
            } else {
                Ok((fund_token_after - plan.fund_token_before) as u64)
            }
        } else {
            if fund_sol_after < plan.fund_sol_before {
                Err(ErrorCode::MathOverflow)
            } else {
                Ok((fund_sol_after - plan.fund_sol_before) as u64)
            }
        };
        match delta_ok {
            Err(c) => Err(c),
            Ok(delta) => {
                let expected = if plan.side == SIDE_BUY {
                    spec_sol_to_token(
                        plan.amount_in,
                        decimals,
                        plan.price.price,
                        plan.price.expo,
                        plan.sol_price.price,
                        plan.sol_price.expo,
                    )
                } else {
                    spec_token_to_sol(
                        plan.amount_in,
                        decimals,
                        plan.price.price,
                        plan.price.expo,
                        plan.sol_price.price,
                        plan.sol_price.expo,
                    )
                };
                match expected {
                    Err(c) => Err(c),
                    Ok(expected_out) => match spec_apply_max_slippage(
                        expected_out,
                        config.max_slippage_bps,
                    ) {
                        Err(c) => Err(c),
                        Ok(min_expected) => {
                            if delta < min_expected {
                                Err(ErrorCode::InvalidTokenVault)
                            } else if delta < order.min_out {
                                Err(ErrorCode::InvalidTokenVault)
                            } else if plan.order_token_before != order.amount_in {
                                Err(ErrorCode::InvalidOrderVault)
                            } else if order_token_after != 0 {
                                Err(ErrorCode::InvalidOrderVault)
                            } else if fund.active_limit_count == 0 {
                                Err(ErrorCode::MathOverflow)
                            } else {
                                Ok(
                                    (
                                        FundState {
                                            active_limit_count: (fund.active_limit_count - 1)
                                                as u16,
                                            ..fund
                                        },
                                        LimitOrder { status: ORDER_STATUS_EXECUTED, ..order },
                                        LimitSettleOutcome {
                                            output_delta: delta,
                                            min_expected,
                                            close_token_escrow_to_vault: true,
                                        },
                                    ),
                                )
                            }
                        },
                    },
                }
            },
        }
    }
}

pub fn execute_limit_order_settle(
    config: &GlobalConfig,
    fund: &mut FundState,
    order: &mut LimitOrder,
    decimals: u8,
    plan: &LimitExecPlan,
    fund_token_after: u64,
    order_token_after: u64,
    fund_sol_after: u64,
) -> (r: Result<LimitSettleOutcome, ErrorCode>)
    ensures
        (match r {
            Ok(o) => spec_execute_limit_order_settle(
                *config,
                *old(fund),
                *old(order),
                decimals,
                *plan,
                fund_token_after,
                order_token_after,
                fund_sol_after,
            ) == Ok::<(FundState, LimitOrder, LimitSettleOutcome), ErrorCode>(
                (*final(fund), *final(order), o),
            ),
            Err(e) => *final(fund) == *old(fund) && *final(order) == *old(order)
                && spec_execute_limit_order_settle(
                *config,
                *old(fund),
                *old(order),
                decimals,
                *plan,
                fund_token_after,
                order_token_after,
                fund_sol_after,
            ) == Err::<(FundState, LimitOrder, LimitSettleOutcome), ErrorCode>(e),
        }),
        r matches Ok(o) ==> final(order).status == ORDER_STATUS_EXECUTED && o.output_delta
            >= old(order).min_out && o.output_delta >= o.min_expected
            && final(fund).active_limit_count == old(fund).active_limit_count - 1,
{
    if plan.side != SIDE_BUY && plan.side != SIDE_SELL {
        return Err(ErrorCode::InvalidOrderSide);
    }
    let delta: u64;
    if plan.side == SIDE_BUY {
        delta = match fund_token_after.checked_sub(plan.fund_token_before) {
            Some(v) => v,
            None => { return Err(ErrorCode::MathOverflow) },
        };
    } else {
        delta = match fund_sol_after.checked_sub(plan.fund_sol_before) {
            Some(v) => v,
            None => { return Err(ErrorCode::MathOverflow) },
        };
    }
    let expected_out = if plan.side == SIDE_BUY {
        match expected_token_out_from_sol(
            plan.amount_in,
            decimals,
            plan.price.price,
            plan.price.expo,
            plan.sol_price.price,
            plan.sol_price.expo,
        ) {
            Ok(v) => v,
            Err(c) => { return Err(c) },
        }
    } else {
        match expected_sol_out_from_token(
            plan.amount_in,
            decimals,
            plan.price.price,
            plan.price.expo,
            plan.sol_price.price,
            plan.sol_price.expo,
        ) {
            Ok(v) => v,
            Err(c) => { return Err(c) },
        }
    };
    let min_expected = match apply_max_slippage(expected_out, config.max_slippage_bps) {
        Ok(v) => v,
        Err(c) => { return Err(c) },
    };
    if delta < min_expected {
        return Err(ErrorCode::InvalidTokenVault);
    }
    if delta < order.min_out {
        return Err(ErrorCode::InvalidTokenVault);
    }
    if plan.order_token_before != order.amount_in {
        return Err(ErrorCode::InvalidOrderVault);
    }
    if order_token_after != 0 {
        return Err(ErrorCode::InvalidOrderVault);
    }
    let new_count = match fund.active_limit_count.checked_sub(1) {
        Some(v) => v,
        None => { return Err(ErrorCode::MathOverflow) },
    };
    order.status = ORDER_STATUS_EXECUTED;
    fund.active_limit_count = new_count;
    Ok(LimitSettleOutcome { output_delta: delta, min_expected, close_token_escrow_to_vault: true })
}

/// What cancelling an open order returns to the fund: the escrowed
/// lamports back to the fund vault (buy) or the escrowed tokens back to
/// the fund token vault (sell); both escrow accounts are closed to the
/// fund vault.
#[derive(Clone, Copy, PartialEq, Eq, Structural, Debug)]
pub struct CancelLimitOutcome {
    pub lamports_returned: u64,
    pub tokens_returned: u64,
}

/// A manager cancels an open order: the escrow accounts must be the
/// derived ones, and the collateral goes back to the fund in full.
pub open spec fn spec_cancel_limit_order(
    fund: FundState,
    order: LimitOrder,
    program: Address,
    fund_key: Address,
    manager: Address,
    order_key: Address,
    order_sol_vault: SystemAccountSlot,
    order_vault_auth: Address,
    order_token_vault_addr: Address,
    order_token_vault: TokenAccountData,
    fund_token_vault: TokenAccountData,
) -> Result<(FundState, LimitOrder, CancelLimitOutcome), ErrorCode> {
    if order.status != ORDER_STATUS_OPEN {
        Err(ErrorCode::OrderNotOpen)
    } else if fund.manager != manager {
        Err(ErrorCode::Unauthorized)
    } else if fund.fund_type != FUND_TYPE_TRADING {
        Err(ErrorCode::InvalidFundType)
    } else if order.fund != fund_key {
        Err(ErrorCode::InvalidTokenVault)
    } else if order.side != SIDE_BUY && order.side != SIDE_SELL {
        Err(ErrorCode::InvalidOrderSide)
    } else if !derived_matches(spec_limit_vault_auth_address(program, order_key), order_vault_auth) {
        Err(ErrorCode::InvalidOrderVault)
    } else if order.side == SIDE_BUY {
        if order_token_vault.mint != spec_native_mint() {
            Err(ErrorCode::InvalidOrderVault)
        } else if order_token_vault.owner != order_vault_auth {
            Err(ErrorCode::InvalidOrderVault)
        } else if !derived_matches(
            spec_limit_sol_vault_address(program, order_key),
            order_sol_vault.addr,
        ) {
            Err(ErrorCode::InvalidOrderVault)
        } else if !order_sol_vault.owner.is_zero() {
            Err(ErrorCode::InvalidOrderVault)
        } else if order_token_vault.amount != 0 {
            Err(ErrorCode::InvalidOrderVault)
        } else if fund.active_limit_count == 0 {
            Err(ErrorCode::MathOverflow)
        } else {
            Ok(
                (
                    FundState { active_limit_count: (fund.active_limit_count - 1) as u16, ..fund },
                    LimitOrder { status: ORDER_STATUS_CANCELLED, ..order },
                    CancelLimitOutcome {
                        lamports_returned: order_sol_vault.lamports,
                        tokens_returned: 0,
                    },
                ),
            )
        }
    } else {
        if !ata_matches(spec_ata_address(order_vault_auth, order.mint), order_token_vault_addr) {
            Err(ErrorCode::InvalidOrderVault)
        } else if order_token_vault.mint != order.mint {
            Err(ErrorCode::InvalidOrderVault)
        } else if fund_token_vault.owner != fund_key {
            Err(ErrorCode::InvalidTokenVault)
        } else if fund_token_vault.mint != order.mint {
            Err(ErrorCode::InvalidTokenVault)
        } else if fund.active_limit_count == 0 {
            Err(ErrorCode::MathOverflow)
        } else {
            Ok(
                (
                    FundState { active_limit_count: (fund.active_limit_count - 1) as u16, ..fund },
                    LimitOrder { status: ORDER_STATUS_CANCELLED, ..order },
                    CancelLimitOutcome {
                        lamports_returned: 0,
                        tokens_returned: order_token_vault.amount,
                    },
                ),
            )
        }
    }
}

pub fn cancel_limit_order(
    fund: &mut FundState,
    order: &mut LimitOrder,
    program_id: &Address,
    fund_key: &Address,
    manager: &Address,
    order_key: &Address,
    order_sol_vault: &SystemAccountSlot,
    order_vault_auth: &Address,
    order_token_vault_addr: &Address,
    order_token_vault: &TokenAccountData,
    fund_token_vault: &TokenAccountData,
) -> (r: Result<CancelLimitOutcome, ErrorCode>)
    ensures
        (match r {
            Ok(o) => spec_cancel_limit_order(
                *old(fund),
                *old(order),
                *program_id,
                *fund_key,
                *manager,
                *order_key,
                *order_sol_vault,
                *order_vault_auth,
                *order_token_vault_addr,
                *order_token_vault,
                *fund_token_vault,
            ) == Ok::<(FundState, LimitOrder, CancelLimitOutcome), ErrorCode>(
                (*final(fund), *final(order), o),
            ),
            Err(e) => *final(fund) == *old(fund) && *final(order) == *old(order)
                && spec_cancel_limit_order(
                *old(fund),
                *old(order),
                *program_id,
                *fund_key,
                *manager,
                *order_key,
                *order_sol_vault,
                *order_vault_auth,
                *order_token_vault_addr,
                *order_token_vault,
                *fund_token_vault,
            ) == Err::<(FundState, LimitOrder, CancelLimitOutcome), ErrorCode>(e),
        }),
        r matches Ok(o) ==> final(order).status == ORDER_STATUS_CANCELLED
            && final(fund).active_limit_count == old(fund).active_limit_count - 1
            && (old(order).side == SIDE_BUY ==> o.lamports_returned == order_sol_vault.lamports)
            && (old(order).side == SIDE_SELL ==> o.tokens_returned == order_token_vault.amount),
{
    if order.status != ORDER_STATUS_OPEN {
        return Err(ErrorCode::OrderNotOpen);
    }
    if fund.manager != *manager {
        return Err(ErrorCode::Unauthorized);
    }
    if fund.fund_type != FUND_TYPE_TRADING {
        return Err(ErrorCode::InvalidFundType);
    }
    if order.fund != *fund_key {
        return Err(ErrorCode::InvalidTokenVault);
    }
    if order.side != SIDE_BUY && order.side != SIDE_SELL {
        return Err(ErrorCode::InvalidOrderSide);
    }
    let auth_ok = match derive_limit_vault_auth_address(program_id, order_key) {
        Some(p) => p.0 == *order_vault_auth,
        None => false,
    };
    if !auth_ok {
        return Err(ErrorCode::InvalidOrderVault);
    }
    let outcome: CancelLimitOutcome;
    if order.side == SIDE_BUY {
        if order_token_vault.mint != native_mint() {
            return Err(ErrorCode::InvalidOrderVault);
        }
        if order_token_vault.owner != *order_vault_auth {
            return Err(ErrorCode::InvalidOrderVault);
        }
        let sol_vault_ok = match derive_limit_sol_vault_address(program_id, order_key) {
            Some(p) => p.0 == order_sol_vault.addr,
            None => false,
        };
        if !sol_vault_ok {
            return Err(ErrorCode::InvalidOrderVault);
        }
        if !(order_sol_vault.owner == Address::zero()) {
            return Err(ErrorCode::InvalidOrderVault);
        }
        if order_token_vault.amount != 0 {
            return Err(ErrorCode::InvalidOrderVault);
        }
        outcome = CancelLimitOutcome {
            lamports_returned: order_sol_vault.lamports,
            tokens_returned: 0,
        };
    } else {
        let escrow_ata_ok = match derive_ata_address(order_vault_auth, &order.mint) {
            Some(a) => a == *order_token_vault_addr,
            None => false,
        };
        if !escrow_ata_ok {
            return Err(ErrorCode::InvalidOrderVault);
        }
        if order_token_vault.mint != order.mint {
            return Err(ErrorCode::InvalidOrderVault);
        }
        if fund_token_vault.owner != *fund_key {
            return Err(ErrorCode::InvalidTokenVault);
        }
        if fund_token_vault.mint != order.mint {
            return Err(ErrorCode::InvalidTokenVault);
        }
        outcome = CancelLimitOutcome {
            lamports_returned: 0,
            tokens_returned: order_token_vault.amount,
        };
    }
    let new_count = match fund.active_limit_count.checked_sub(1) {
        Some(v) => v,
        None => { return Err(ErrorCode::MathOverflow) },
    };
    order.status = ORDER_STATUS_CANCELLED;
    fund.active_limit_count = new_count;
    Ok(outcome)
}

} // verus!
