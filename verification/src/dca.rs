use vstd::prelude::*;
use crate::addr::Address;
use crate::errors::ErrorCode;
use crate::math::{
    apply_max_slippage, expected_sol_out_from_token, expected_token_out_from_sol,
    spec_apply_max_slippage, spec_sol_to_token, spec_token_to_sol,
};
use crate::limit::{has_account, spec_has_account};
use crate::nav::{ata_matches, derived_matches};
use crate::oracle::{FeedAccount, OracleReading, load_price, spec_load_price};
use crate::pda::{
    derive_ata_address, derive_dca_sol_vault_address, derive_dca_vault_auth_address, native_mint,
    spec_ata_address, spec_dca_sol_vault_address, spec_dca_vault_auth_address, spec_native_mint,
    spec_swap_aggregator_id, spec_token_program_id, swap_aggregator_id, token_program_id,
};
use crate::state::{
    DcaOrder, FundState, FundWhitelist, GlobalConfig, SwapAccount, SystemAccountSlot,
    TokenAccountData, TokenAccountSlot, DCA_SIDE_BUY, DCA_SIDE_SELL, DCA_STATUS_CANCELLED,
    DCA_STATUS_EXECUTED, DCA_STATUS_OPEN, FUND_TYPE_TRADING, MAX_ACTIVE_DCA,
};

verus! {

/// What opening a DCA order moves and creates.
#[derive(Clone, Copy, PartialEq, Eq, Structural, Debug)]
pub struct CreateDcaOutcome {
    pub order: DcaOrder,
    pub order_id: u64,
    pub create_sol_vault: bool,
    pub create_token_escrow: bool,
    pub escrow_lamports_in: u64,
    pub escrow_tokens_in: u64,
}

/// A manager opens a time-sliced order on a trading fund: positive
/// total, slice and interval with the slice bounded by the total, at
/// most `MAX_ACTIVE_DCA` live DCA orders per fund, escrow accounts at
/// their derived addresses and empty, and the whole `total_amount`
/// escrowed up front.  The first slice becomes due one interval from
/// now.
pub open spec fn spec_create_dca_order(
    config: GlobalConfig,
    fund: FundState,
    program: Address,
    fund_key: Address,
    manager: Address,
    mint: Address,
    whitelist: FundWhitelist,
    order_key: Address,
    order_bump: u8,
    order_sol_vault: SystemAccountSlot,
    order_vault_auth: Address,
    order_token_vault: TokenAccountSlot,
    fund_token_vault: TokenAccountData,
    fund_vault_lamports: u64,
    now: i64,
    side: u8,
    total_amount: u64,
    slice_amount: u64,
    interval_secs: i64,
    min_out: u64,
    expiry_ts: i64,
) -> Result<(FundState, CreateDcaOutcome), ErrorCode> {
    if side != DCA_SIDE_BUY && side != DCA_SIDE_SELL {
        Err(ErrorCode::InvalidOrderSide)
    } else if total_amount == 0 {
        Err(ErrorCode::MathOverflow)
    } else if slice_amount == 0 {
        Err(ErrorCode::InvalidDcaSlice)
    } else if slice_amount > total_amount {
        Err(ErrorCode::InvalidDcaSlice)
    } else if interval_secs <= 0 {
        Err(ErrorCode::InvalidDcaInterval)
    } else if min_out == 0 {
        Err(ErrorCode::InvalidMinOut)
    } else if fund.manager != manager {
        Err(ErrorCode::Unauthorized)
    } else if fund.fund_type != FUND_TYPE_TRADING {
        Err(ErrorCode::InvalidFundType)
    } else if fund.active_dca_count >= MAX_ACTIVE_DCA {
        Err(ErrorCode::MaxActiveDca)
    } else if !whitelist.enabled {
        Err(ErrorCode::InvalidTokenVault)
    } else if whitelist.fund != fund_key {
        Err(ErrorCode::InvalidTokenVault)
    } else if whitelist.mint != mint {
        Err(ErrorCode::InvalidTokenVault)
    } else if fund.next_order_id + 1 > u64::MAX {
        Err(ErrorCode::MathOverflow)
    } else if fund.active_dca_count + 1 > u16::MAX {
        Err(ErrorCode::MathOverflow)
    } else if now + interval_secs > i64::MAX {
        Err(ErrorCode::MathOverflow)
    } else {
        let order = DcaOrder {
            fund: fund_key,
            side,
            mint,
            total_amount,
            slice_amount,
            remaining_amount: total_amount,
            interval_secs,
            next_exec_ts: (now + interval_secs) as i64,
            min_out,
            price_feed: whitelist.pyth_feed,
            pyth_program_id: config.pyth_program_id,
            expiry_ts,
            status: DCA_STATUS_OPEN,
            bump: order_bump,
        };
        let new_fund = FundState {
            next_order_id: (fund.next_order_id + 1) as u64,
            active_dca_count: (fund.active_dca_count + 1) as u16,
            ..fund
        };
        if !derived_matches(spec_dca_sol_vault_address(program, order_key), order_sol_vault.addr) {
            Err(ErrorCode::InvalidOrderVault)
        } else {
            let create_sol_vault = order_sol_vault.lamports == 0;
            if !create_sol_vault && !order_sol_vault.owner.is_zero() {
                Err(ErrorCode::InvalidOrderVault)
            } else if !derived_matches(
                spec_dca_vault_auth_address(program, order_key),
                order_vault_auth,
            ) {
                Err(ErrorCode::InvalidOrderVault)
            } else if side == DCA_SIDE_BUY {
                if !ata_matches(
                    spec_ata_address(order_vault_auth, spec_native_mint()),
                    order_token_vault.addr,
                ) {
                    Err(ErrorCode::InvalidOrderVault)
                } else {
                    let create_token_escrow = order_token_vault.account is None;
                    let escrow_ok = match order_token_vault.account {
                        None => Ok(()),
                        Some(v) => {
                            if order_token_vault.program_owner != spec_token_program_id() {
                                Err(ErrorCode::InvalidOrderVault)
                            } else if v.mint != spec_native_mint() {
                                Err(ErrorCode::InvalidOrderVault)
                            } else if v.amount != 0 {
                                Err(ErrorCode::InvalidOrderVault)
                            } else {
                                Ok(())
                            }
                        },
                    };
                    match escrow_ok {
                        Err(c) => Err(c),
                        Ok(()) => {
                            if fund_vault_lamports < total_amount {
                                Err(ErrorCode::InsufficientLiquidity)
                            } else {
                                Ok(
                                    (
                                        new_fund,
                                        CreateDcaOutcome {
                                            order,
                                            order_id: fund.next_order_id,
                                            create_sol_vault,
                                            create_token_escrow,
                                            escrow_lamports_in: total_amount,
                                            escrow_tokens_in: 0,
                                        },
                                    ),
                                )
                            }
                        },
                    }
                }
            } else {
                if !ata_matches(spec_ata_address(order_vault_auth, mint), order_token_vault.addr) {
                    Err(ErrorCode::InvalidOrderVault)
                } else {
                    let create_token_escrow = order_token_vault.account is None;
                    let escrow_ok = match order_token_vault.account {
                        None => Ok(()),
                        Some(v) => {
                            if order_token_vault.program_owner != spec_token_program_id() {
                                Err(ErrorCode::InvalidOrderVault)
                            } else if v.mint != mint {
                                Err(ErrorCode::InvalidOrderVault)
                            } else if v.owner != order_vault_auth {
                                Err(ErrorCode::InvalidOrderVault)
                            } else if v.amount != 0 {
                                Err(ErrorCode::InvalidOrderVault)
                            } else {
                                Ok(())
                            }
                        },
                    };
                    match escrow_ok {
                        Err(c) => Err(c),
                        Ok(()) => {
                            if fund_token_vault.owner != fund_key {
                                Err(ErrorCode::InvalidTokenVault)
                            } else if fund_token_vault.mint != mint {
                                Err(ErrorCode::InvalidTokenVault)
                            } else {
                                Ok(
                                    (
                                        new_fund,
                                        CreateDcaOutcome {
                                            order,
                                            order_id: fund.next_order_id,
                                            create_sol_vault,
                                            create_token_escrow,
                                            escrow_lamports_in: 0,
                                            escrow_tokens_in: total_amount,
                                        },
                                    ),
                                )
                            }
                        },
                    }
                }
            }
        }
    }
}

pub fn create_dca_order(
    config: &GlobalConfig,
    fund: &mut FundState,
    program_id: &Address,
    fund_key: &Address,
    manager: &Address,
    mint: &Address,
    whitelist: &FundWhitelist,
    order_key: &Address,
    order_bump: u8,
    order_sol_vault: &SystemAccountSlot,
    order_vault_auth: &Address,
    order_token_vault: &TokenAccountSlot,
    fund_token_vault: &TokenAccountData,
    fund_vault_lamports: u64,
    now: i64,
    side: u8,
    total_amount: u64,
    slice_amount: u64,
    interval_secs: i64,
    min_out: u64,
    expiry_ts: i64,
) -> (r: Result<CreateDcaOutcome, ErrorCode>)
    ensures
        (match r {
            Ok(o) => spec_create_dca_order(
                *config,
                *old(fund),
                *program_id,
                *fund_key,
                *manager,
                *mint,
                *whitelist,
                *order_key,
                order_bump,
                *order_sol_vault,
                *order_vault_auth,
                *order_token_vault,
                *fund_token_vault,
                fund_vault_lamports,
                now,
                side,
                total_amount,
                slice_amount,
                interval_secs,
                min_out,
                expiry_ts,
            ) == Ok::<(FundState, CreateDcaOutcome), ErrorCode>((*final(fund), o)),
            Err(e) => *final(fund) == *old(fund) && spec_create_dca_order(
                *config,
                *old(fund),
                *program_id,
                *fund_key,
                *manager,
                *mint,
                *whitelist,
                *order_key,
                order_bump,
                *order_sol_vault,
                *order_vault_auth,
                *order_token_vault,
                *fund_token_vault,
                fund_vault_lamports,
                now,
                side,
                total_amount,
                slice_amount,
                interval_secs,
                min_out,
                expiry_ts,
            ) == Err::<(FundState, CreateDcaOutcome), ErrorCode>(e),
        }),
        r matches Ok(o) ==> o.order.remaining_amount == total_amount
            && o.order.status == DCA_STATUS_OPEN && (o.escrow_lamports_in == total_amount
            || o.escrow_tokens_in == total_amount) && final(fund).active_dca_count == old(
            fund,
        ).active_dca_count + 1,
{
    if side != DCA_SIDE_BUY && side != DCA_SIDE_SELL {
        return Err(ErrorCode::InvalidOrderSide);
    }
    if total_amount == 0 {
        return Err(ErrorCode::MathOverflow);
    }
    if slice_amount == 0 {
        return Err(ErrorCode::InvalidDcaSlice);
    }
    if slice_amount > total_amount {
        return Err(ErrorCode::InvalidDcaSlice);
    }
    if interval_secs <= 0 {
        return Err(ErrorCode::InvalidDcaInterval);
    }
    if min_out == 0 {
        return Err(ErrorCode::InvalidMinOut);
    }
    if fund.manager != *manager {
        return Err(ErrorCode::Unauthorized);
    }
    if fund.fund_type != FUND_TYPE_TRADING {
        return Err(ErrorCode::InvalidFundType);
    }
    if fund.active_dca_count >= MAX_ACTIVE_DCA {
        return Err(ErrorCode::MaxActiveDca);
    }
    if !whitelist.enabled {
        return Err(ErrorCode::InvalidTokenVault);
    }
    if whitelist.fund != *fund_key {
        return Err(ErrorCode::InvalidTokenVault);
    }
    if whitelist.mint != *mint {
        return Err(ErrorCode::InvalidTokenVault);
    }
    let order_id = fund.next_order_id;
    let next_order_id = match fund.next_order_id.checked_add(1) {
        Some(v) => v,
        None => { return Err(ErrorCode::MathOverflow) },
    };
    let active_dca_count = match fund.active_dca_count.checked_add(1) {
        Some(v) => v,
        None => { return Err(ErrorCode::MathOverflow) },
    };
    let next_exec_ts = match now.checked_add(interval_secs) {
        Some(v) => v,
        None => { return Err(ErrorCode::MathOverflow) },
    };
    let order = DcaOrder {
        fund: *fund_key,
        side,
        mint: *mint,
        total_amount,
        slice_amount,
        remaining_amount: total_amount,
        interval_secs,
        next_exec_ts,
        min_out,
        price_feed: whitelist.pyth_feed,
        pyth_program_id: config.pyth_program_id,
        expiry_ts,
        status: DCA_STATUS_OPEN,
        bump: order_bump,
    };
    let sol_vault_ok = match derive_dca_sol_vault_address(program_id, order_key) {
        Some(p) => p.0 == order_sol_vault.addr,
        None => false,
    };
    if !sol_vault_ok {
        return Err(ErrorCode::InvalidOrderVault);
    }
    let create_sol_vault = order_sol_vault.lamports == 0;
    if !create_sol_vault && !(order_sol_vault.owner == Address::zero()) {
        return Err(ErrorCode::InvalidOrderVault);
    }
    let auth_ok = match derive_dca_vault_auth_address(program_id, order_key) {
        Some(p) => p.0 == *order_vault_auth,
        None => false,
    };
    if !auth_ok {
        return Err(ErrorCode::InvalidOrderVault);
    }
    let outcome: CreateDcaOutcome;
    if side == DCA_SIDE_BUY {
        let wsol_ata_ok = match derive_ata_address(order_vault_auth, &native_mint()) {
            Some(a) => a == order_token_vault.addr,
            None => false,
        };
        if !wsol_ata_ok {
            return Err(ErrorCode::InvalidOrderVault);
        }
        let create_token_escrow = order_token_vault.account.is_none();
        match order_token_vault.account {
            None => {},
            Some(v) => {
                if order_token_vault.program_owner != token_program_id() {
                    return Err(ErrorCode::InvalidOrderVault);
                }
                if v.mint != native_mint() {
                    return Err(ErrorCode::InvalidOrderVault);
                }
                if v.amount != 0 {
                    return Err(ErrorCode::InvalidOrderVault);
                }
            },
        }
        if fund_vault_lamports < total_amount {
            return Err(ErrorCode::InsufficientLiquidity);
        }
        outcome = CreateDcaOutcome {
            order,
            order_id,
            create_sol_vault,
            create_token_escrow,
            escrow_lamports_in: total_amount,
            escrow_tokens_in: 0,
        };
    } else {
        let escrow_ata_ok = match derive_ata_address(order_vault_auth, mint) {
            Some(a) => a == order_token_vault.addr,
            None => false,
        };
        if !escrow_ata_ok {
            return Err(ErrorCode::InvalidOrderVault);
        }
        let create_token_escrow = order_token_vault.account.is_none();
        match order_token_vault.account {
            None => {},
            Some(v) => {
                if order_token_vault.program_owner != token_program_id() {
                    return Err(ErrorCode::InvalidOrderVault);
                }
                if v.mint != *mint {
                    return Err(ErrorCode::InvalidOrderVault);
                }
                if v.owner != *order_vault_auth {
                    return Err(ErrorCode::InvalidOrderVault);
                }
                if v.amount != 0 {
                    return Err(ErrorCode::InvalidOrderVault);
                }
            },
        }
        if fund_token_vault.owner != *fund_key {
            return Err(ErrorCode::InvalidTokenVault);
        }
        if fund_token_vault.mint != *mint {
            return Err(ErrorCode::InvalidTokenVault);
        }
        outcome = CreateDcaOutcome {
            order,
            order_id,
            create_sol_vault,
            create_token_escrow,
            escrow_lamports_in: 0,
            escrow_tokens_in: total_amount,
        };
    }
    fund.next_order_id = next_order_id;
    fund.active_dca_count = active_dca_count;
    Ok(outcome)
}

/// The pre-swap snapshot of one DCA slice execution.
#[derive(Clone, Copy, PartialEq, Eq, Structural, Debug)]
pub struct DcaExecPlan {
    pub side: u8,
    pub slice_amount: u64,
    pub min_out: u64,
    pub order_token_before: u64,
    pub fund_token_before: u64,
    pub fund_sol_before: u64,
    pub price: OracleReading,
    pub sol_price: OracleReading,
    pub wrap_lamports: u64,
}

/// The pre-swap phase of a DCA slice: keeper authority, order and
/// whitelist liveness, expiry, the time trigger `now ≥ next_exec_ts`,
/// oracle loads, swap-program identity, escrow derivations and account
/// presence; the slice is the fixed slice amount, or the remainder when
/// that is smaller.
pub open spec fn spec_execute_dca_order_check(
    config: GlobalConfig,
    fund: FundState,
    order: DcaOrder,
    program: Address,
    fund_key: Address,
    executor: Address,
    whitelist: FundWhitelist,
    order_key: Address,
    price_feed: FeedAccount,
    sol_price_feed: FeedAccount,
    swap_program: Address,
    swap_data: Seq<u8>,
    swap_accounts: Seq<SwapAccount>,
    fund_token_vault_addr: Address,
    fund_token_vault: TokenAccountData,
    order_sol_vault: SystemAccountSlot,
    order_vault_auth: Address,
    order_token_vault_addr: Address,
    order_token_vault: TokenAccountData,
    fund_vault_lamports: u64,
    now: i64,
) -> Result<DcaExecPlan, ErrorCode> {
    if executor != config.keeper {
        Err(ErrorCode::Unauthorized)
    } else if fund.fund_type != FUND_TYPE_TRADING {
        Err(ErrorCode::InvalidFundType)
    } else if order.status != DCA_STATUS_OPEN {
        Err(ErrorCode::OrderNotOpen)
    } else if order.fund != fund_key {
        Err(ErrorCode::InvalidTokenVault)
    } else if order.expiry_ts != 0 && now > order.expiry_ts {
        Err(ErrorCode::OrderExpired)
    } else if now < order.next_exec_ts {
        Err(ErrorCode::DcaNotReady)
    } else if order.side != DCA_SIDE_BUY && order.side != DCA_SIDE_SELL {
        Err(ErrorCode::InvalidOrderSide)
    } else if !whitelist.enabled {
        Err(ErrorCode::InvalidTokenVault)
    } else if whitelist.fund != fund_key {
        Err(ErrorCode::InvalidTokenVault)
    } else if whitelist.mint != order.mint {
        Err(ErrorCode::InvalidTokenVault)
    } else if whitelist.pyth_feed != order.price_feed {
        Err(ErrorCode::InvalidOracle)
    } else if price_feed.addr != order.price_feed {
        Err(ErrorCode::InvalidOracle)
    } else if price_feed.owner != order.pyth_program_id {
        Err(ErrorCode::InvalidOracle)
    } else {
        match spec_load_price(price_feed.data@, now) {
            Err(c) => Err(c),
            Ok(price) => {
                if sol_price_feed.addr != config.sol_usd_pyth_feed {
                    Err(ErrorCode::InvalidOracle)
                } else if sol_price_feed.owner != config.pyth_program_id {
                    Err(ErrorCode::InvalidOracle)
                } else {
                    match spec_load_price(sol_price_feed.data@, now) {
                        Err(c) => Err(c),
                        Ok(sol_price) => {
                            if swap_data.len() == 0 {
                                Err(ErrorCode::InvalidSwapProgram)
                            } else if swap_accounts.len() == 0 {
                                Err(ErrorCode::InvalidSwapProgram)
                            } else if swap_program != spec_swap_aggregator_id() {
                                Err(ErrorCode::InvalidSwapProgram)
                            } else if !ata_matches(
                                spec_ata_address(fund_key, order.mint),
                                fund_token_vault_addr,
                            ) {
                                Err(ErrorCode::InvalidTokenVault)
                            } else if fund_token_vault.mint != order.mint {
                                Err(ErrorCode::InvalidTokenVault)
                            } else if !derived_matches(
                                spec_dca_vault_auth_address(program, order_key),
                                order_vault_auth,
                            ) {
                                Err(ErrorCode::InvalidOrderVault)
                            } else if order.side == DCA_SIDE_BUY && (!derived_matches(
                                spec_dca_sol_vault_address(program, order_key),
                                order_sol_vault.addr,
                            ) || !order_sol_vault.owner.is_zero() || !ata_matches(
                                spec_ata_address(order_vault_auth, spec_native_mint()),
                                order_token_vault_addr,
                            ) || order_token_vault.mint != spec_native_mint()
                                || order_token_vault.owner != order_vault_auth) {
                                Err(ErrorCode::InvalidOrderVault)
                            } else if order.side == DCA_SIDE_SELL && (!ata_matches(
                                spec_ata_address(order_vault_auth, order.mint),
                                order_token_vault_addr,
                            ) || order_token_vault.mint != order.mint || order_token_vault.owner
                                != order_vault_auth) {
                                Err(ErrorCode::InvalidOrderVault)
                            } else if !spec_has_account(swap_accounts, order_token_vault_addr, true) {
                                Err(ErrorCode::InvalidOrderVault)
                            } else if !(if order.side == DCA_SIDE_BUY {
                                spec_has_account(swap_accounts, fund_token_vault_addr, true)
                            } else {
                                spec_has_account(swap_accounts, fund.vault, true)
                            }) {
                                Err(ErrorCode::InvalidTokenVault)
                            } else if !spec_has_account(swap_accounts, order_vault_auth, false) {
                                Err(ErrorCode::InvalidOrderVault)
                            } else {
                                let slice = if order.remaining_amount >= order.slice_amount {
                                    order.slice_amount
                                } else {
                                    order.remaining_amount
                                };
                                if slice == 0 {
                                    Err(ErrorCode::DcaCompleted)
                                } else if order.side == DCA_SIDE_BUY {
                                    if order_sol_vault.lamports < slice {
                                        Err(ErrorCode::InsufficientLiquidity)
                                    } else if order_token_vault.amount + slice > u64::MAX {
                                        Err(ErrorCode::MathOverflow)
                                    } else {
                                        Ok(
                                            DcaExecPlan {
                                                side: order.side,
                                                slice_amount: slice,
                                                min_out: order.min_out,
                                                order_token_before: (order_token_vault.amount
                                                    + slice) as u64,
                                                fund_token_before: fund_token_vault.amount,
                                                fund_sol_before: fund_vault_lamports,
                                                price,
                                                sol_price,
                                                wrap_lamports: slice,
                                            },
                                        )
                                    }
                                } else {
                                    if order_token_vault.amount < slice {
                                        Err(ErrorCode::InsufficientLiquidity)
                                    } else {
                                        Ok(
                                            DcaExecPlan {
                                                side: order.side,
                                                slice_amount: slice,
                                                min_out: order.min_out,
                                                order_token_before: order_token_vault.amount,
                                                fund_token_before: fund_token_vault.amount,
                                                fund_sol_before: fund_vault_lamports,
                                                price,
                                                sol_price,
                                                wrap_lamports: 0,
                                            },
                                        )
                                    }
                                }
                            }
                        },
                    }
                }
            },
        }
    }
}

#[verifier::rlimit(50)]
pub fn execute_dca_order_check(
    config: &GlobalConfig,
    fund: &FundState,
    order: &DcaOrder,
    program_id: &Address,
    fund_key: &Address,
    executor: &Address,
    whitelist: &FundWhitelist,
    order_key: &Address,
    price_feed: &FeedAccount,
    sol_price_feed: &FeedAccount,
    swap_program: &Address,
    swap_data: &Vec<u8>,
    swap_accounts: &Vec<SwapAccount>,
    fund_token_vault_addr: &Address,
    fund_token_vault: &TokenAccountData,
    order_sol_vault: &SystemAccountSlot,
    order_vault_auth: &Address,
    order_token_vault_addr: &Address,
    order_token_vault: &TokenAccountData,
    fund_vault_lamports: u64,
    now: i64,
) -> (r: Result<DcaExecPlan, ErrorCode>)
    ensures
        r == spec_execute_dca_order_check(
            *config,
            *fund,
            *order,
            *program_id,
            *fund_key,
            *executor,
            *whitelist,
            *order_key,
            *price_feed,
            *sol_price_feed,
            *swap_program,
            swap_data@,
            swap_accounts@,
            *fund_token_vault_addr,
            *fund_token_vault,
            *order_sol_vault,
            *order_vault_auth,
            *order_token_vault_addr,
            *order_token_vault,
            fund_vault_lamports,
            now,
        ),
{
    if *executor != config.keeper {
        return Err(ErrorCode::Unauthorized);
    }
    if fund.fund_type != FUND_TYPE_TRADING {
        return Err(ErrorCode::InvalidFundType);
    }
    if order.status != DCA_STATUS_OPEN {
        return Err(ErrorCode::OrderNotOpen);
    }
    if order.fund != *fund_key {
        return Err(ErrorCode::InvalidTokenVault);
    }
    if order.expiry_ts != 0 && now > order.expiry_ts {
        return Err(ErrorCode::OrderExpired);
    }
    if now < order.next_exec_ts {
        return Err(ErrorCode::DcaNotReady);
    }
    if order.side != DCA_SIDE_BUY && order.side != DCA_SIDE_SELL {
        return Err(ErrorCode::InvalidOrderSide);
    }
    if !whitelist.enabled {
        return Err(ErrorCode::InvalidTokenVault);
    }
    if whitelist.fund != *fund_key {
        return Err(ErrorCode::InvalidTokenVault);
    }
    if whitelist.mint != order.mint {
        return Err(ErrorCode::InvalidTokenVault);
    }
    if whitelist.pyth_feed != order.price_feed {
        return Err(ErrorCode::InvalidOracle);
    }
    if price_feed.addr != order.price_feed {
        return Err(ErrorCode::InvalidOracle);
    }
    if price_feed.owner != order.pyth_program_id {
        return Err(ErrorCode::InvalidOracle);
    }
    let price = match load_price(&price_feed.data, now) {
        Ok(p) => p,
        Err(c) => { return Err(c) },
    };
    if sol_price_feed.addr != config.sol_usd_pyth_feed {
        return Err(ErrorCode::InvalidOracle);
    }
    if sol_price_feed.owner != config.pyth_program_id {
        return Err(ErrorCode::InvalidOracle);
    }
    let sol_price = match load_price(&sol_price_feed.data, now) {
        Ok(p) => p,
        Err(c) => { return Err(c) },
    };
    if swap_data.len() == 0 {
        return Err(ErrorCode::InvalidSwapProgram);
    }
    if swap_accounts.len() == 0 {
        return Err(ErrorCode::InvalidSwapProgram);
    }
    if *swap_program != swap_aggregator_id() {
        return Err(ErrorCode::InvalidSwapProgram);
    }
    let fund_ata_ok = match derive_ata_address(fund_key, &order.mint) {
        Some(a) => a == *fund_token_vault_addr,
        None => false,
    };
    if !fund_ata_ok {
        return Err(ErrorCode::InvalidTokenVault);
    }
    if fund_token_vault.mint != order.mint {
        return Err(ErrorCode::InvalidTokenVault);
    }
    let auth_ok = match derive_dca_vault_auth_address(program_id, order_key) {
        Some(p) => p.0 == *order_vault_auth,
        None => false,
    };
    if !auth_ok {
        return Err(ErrorCode::InvalidOrderVault);
    }
    if order.side == DCA_SIDE_BUY {
        let sol_vault_ok = match derive_dca_sol_vault_address(program_id, order_key) {
            Some(p) => p.0 == order_sol_vault.addr,
            None => false,
        };
        let wsol_ata_ok = match derive_ata_address(order_vault_auth, &native_mint()) {
            Some(a) => a == *order_token_vault_addr,
            None => false,
        };
        if !sol_vault_ok || !(order_sol_vault.owner == Address::zero()) || !wsol_ata_ok
            || order_token_vault.mint != native_mint() || order_token_vault.owner
            != *order_vault_auth {
            return Err(ErrorCode::InvalidOrderVault);
        }
    } else {
        let escrow_ata_ok = match derive_ata_address(order_vault_auth, &order.mint) {
            Some(a) => a == *order_token_vault_addr,
            None => false,
        };
        if !escrow_ata_ok || order_token_vault.mint != order.mint || order_token_vault.owner
            != *order_vault_auth {
            return Err(ErrorCode::InvalidOrderVault);
        }
    }
    if !has_account(swap_accounts, order_token_vault_addr, true) {
        return Err(ErrorCode::InvalidOrderVault);
    }
    let has_output = if order.side == DCA_SIDE_BUY {
        has_account(swap_accounts, fund_token_vault_addr, true)
    } else {
        has_account(swap_accounts, &fund.vault, true)
    };
    if !has_output {
        return Err(ErrorCode::InvalidTokenVault);
    }
    if !has_account(swap_accounts, order_vault_auth, false) {
        return Err(ErrorCode::InvalidOrderVault);
    }
    let slice = if order.remaining_amount >= order.slice_amount {
        order.slice_amount
    } else {
        order.remaining_amount
    };
    if slice == 0 {
        return Err(ErrorCode::DcaCompleted);
    }
    if order.side == DCA_SIDE_BUY {
        if order_sol_vault.lamports < slice {
            return Err(ErrorCode::InsufficientLiquidity);
        }
        let wrapped = match order_token_vault.amount.checked_add(slice) {
            Some(v) => v,
            None => { return Err(ErrorCode::MathOverflow) },
        };
        Ok(
            DcaExecPlan {
                side: order.side,
                slice_amount: slice,
                min_out: order.min_out,
                order_token_before: wrapped,
                fund_token_before: fund_token_vault.amount,
                fund_sol_before: fund_vault_lamports,
                price,
                sol_price,
                wrap_lamports: slice,
            },
        )
    } else {
        if order_token_vault.amount < slice {
            return Err(ErrorCode::InsufficientLiquidity);
        }
        Ok(
            DcaExecPlan {
                side: order.side,
                slice_amount: slice,
                min_out: order.min_out,
                order_token_before: order_token_vault.amount,
                fund_token_before: fund_token_vault.amount,
                fund_sol_before: fund_vault_lamports,
                price,
                sol_price,
                wrap_lamports: 0,
            },
        )
    }
}

/// What the post-swap phase of a slice verified and scheduled.
#[derive(Clone, Copy, PartialEq, Eq, Structural, Debug)]
pub struct DcaSettleOutcome {
    pub output_delta: u64,
    pub min_expected: u64,
    pub slice_amount: u64,
    pub completed: bool,
    pub close_token_escrow: bool,
    pub sweep_sol_lamports: u64,
}

/// The post-swap phase of a DCA slice: the fund's output account must
/// have gained at least both the order's `min_out` and the
/// oracle-expected output under the slippage cap; a buy must have
/// consumed the whole wrapped slice, a sell exactly the slice from the
/// token escrow.  The remainder shrinks by the slice and the next
/// execution time advances one interval; when the remainder reaches
/// zero the order becomes executed and its escrows are swept and
/// closed.
pub open spec fn spec_execute_dca_order_settle(
    config: GlobalConfig,
    fund: FundState,
    order: DcaOrder,
    decimals: u8,
    plan: DcaExecPlan,
    fund_token_after: u64,
    order_token_after: u64,
    fund_sol_after: u64,
    sol_escrow_lamports_after: u64,
) -> Result<(FundState, DcaOrder, DcaSettleOutcome), ErrorCode> {
    if plan.side != DCA_SIDE_BUY && plan.side != DCA_SIDE_SELL {
        Err(ErrorCode::InvalidOrderSide)
    } else {
        let delta_ok: Result<u64, ErrorCode> = if plan.side == DCA_SIDE_BUY {
            if fund_token_after < plan.fund_token_before {
                Err(ErrorCode::MathOverflow)
            } else {
                Ok((fund_token_after - plan.fund_token_before) as u64)
            }
        } else {
            if fund_sol_after < plan.fund_sol_before {
                Err(ErrorCode::MathOverflow)
            } else {
                Ok((fund_sol_after - plan.fund_sol_before) as u64)
            }
        };
        match delta_ok {
            Err(c) => Err(c),
            Ok(delta) => {
                let expected = if plan.side == DCA_SIDE_BUY {
                    spec_sol_to_token(
                        plan.slice_amount,
                        decimals,
                        plan.price.price,
                        plan.price.expo,
                        plan.sol_price.price,
                        plan.sol_price.expo,
                    )
                } else {
                    spec_token_to_sol(
                        plan.slice_amount,
                        decimals,
                        plan.price.price,
                        plan.price.expo,
                        plan.sol_price.price,
                        plan.sol_price.expo,
                    )
                };
                match expected {
                    Err(c) => Err(c),
                    Ok(expected_out) => match spec_apply_max_slippage(
                        expected_out,
                        config.max_slippage_bps,
                    ) {
                        Err(c) => Err(c),
                        Ok(min_expected) => {
                            if delta < min_expected {
                                Err(ErrorCode::InvalidTokenVault)
                            } else if delta < plan.min_out {
                                Err(ErrorCode::InvalidTokenVault)
                            } else if plan.side == DCA_SIDE_BUY && (plan.order_token_before
                                != plan.slice_amount || order_token_after != 0) {
                                Err(ErrorCode::InvalidOrderVault)
                            } else if plan.side == DCA_SIDE_SELL && (plan.order_token_before
                                < plan.slice_amount || order_token_after != (
                            plan.order_token_before - plan.slice_amount) as u64) {
                                Err(ErrorCode::InvalidOrderVault)
                            } else if order.remaining_amount < plan.slice_amount {
                                Err(ErrorCode::MathOverflow)
                            } else if order.next_exec_ts + order.interval_secs > i64::MAX
                                || order.next_exec_ts + order.interval_secs < i64::MIN {
                                Err(ErrorCode::MathOverflow)
                            } else {
                                let remaining = (order.remaining_amount - plan.slice_amount) as u64;
                                let completed = remaining == 0;
                                if completed && fund.active_dca_count == 0 {
                                    Err(ErrorCode::MathOverflow)
                                } else {
                                    Ok(
                                        (
                                            FundState {
                                                active_dca_count: if completed {
                                                    (fund.active_dca_count - 1) as u16
                                                } else {
                                                    fund.active_dca_count
                                                },
                                                ..fund
                                            },
                                            DcaOrder {
                                                remaining_amount: remaining,
                                                next_exec_ts: (order.next_exec_ts
                                                    + order.interval_secs) as i64,
                                                status: if completed {
                                                    DCA_STATUS_EXECUTED
                                                } else {
                                                    order.status
                                                },
                                                ..order
                                            },
                                            DcaSettleOutcome {
                                                output_delta: delta,
                                                min_expected,
                                                slice_amount: plan.slice_amount,
                                                completed,
                                                close_token_escrow: completed && order_token_after
                                                    == 0,
                                                sweep_sol_lamports: if completed {
                                                    sol_escrow_lamports_after
                                                } else {
                                                    0
                                                },
                                            },
                                        ),
                                    )
                                }
                            }
                        },
                    },
                }
            },
        }
    }
}

pub fn execute_dca_order_settle(
    config: &GlobalConfig,
    fund: &mut FundState,
    order: &mut DcaOrder,
    decimals: u8,
    plan: &DcaExecPlan,
    fund_token_after: u64,
    order_token_after: u64,
    fund_sol_after: u64,
    sol_escrow_lamports_after: u64,
) -> (r: Result<DcaSettleOutcome, ErrorCode>)
    ensures
        (match r {
            Ok(o) => spec_execute_dca_order_settle(
                *config,
                *old(fund),
                *old(order),
                decimals,
                *plan,
                fund_token_after,
                order_token_after,
                fund_sol_after,
                sol_escrow_lamports_after,
            ) == Ok::<(FundState, DcaOrder, DcaSettleOutcome), ErrorCode>(
                (*final(fund), *final(order), o),
            ),
            Err(e) => *final(fund) == *old(fund) && *final(order) == *old(order)
                && spec_execute_dca_order_settle(
                *config,
                *old(fund),
                *old(order),
                decimals,
                *plan,
                fund_token_after,
                order_token_after,
                fund_sol_after,
                sol_escrow_lamports_after,
            ) == Err::<(FundState, DcaOrder, DcaSettleOutcome), ErrorCode>(e),
        }),
        r matches Ok(o) ==> ((final(order).remaining_amount == old(order).remaining_amount
            - o.slice_amount) && (o.completed <==> final(order).remaining_amount == 0)
            && (o.completed ==> final(order).status == DCA_STATUS_EXECUTED)
            && (!o.completed ==> final(order).status == old(order).status)
            && (final(order).next_exec_ts == old(order).next_exec_ts
            + old(order).interval_secs)),
{
    if plan.side != DCA_SIDE_BUY && plan.side != DCA_SIDE_SELL {
        return Err(ErrorCode::InvalidOrderSide);
    }
    let delta: u64;
    if plan.side == DCA_SIDE_BUY {
        delta = match fund_token_after.checked_sub(plan.fund_token_before) {
            Some(v) => v,
            None => { return Err(ErrorCode::MathOverflow) },
        };
    } else {
        delta = match fund_sol_after.checked_sub(plan.fund_sol_before) {
            Some(v) => v,
            None => { return Err(ErrorCode::MathOverflow) },
        };
    }
    let expected_out = if plan.side == DCA_SIDE_BUY {
        match expected_token_out_from_sol(
            plan.slice_amount,
            decimals,
            plan.price.price,
            plan.price.expo,
            plan.sol_price.price,
            plan.sol_price.expo,
        ) {
            Ok(v) => v,
            Err(c) => { return Err(c) },
        }
    } else {
        match expected_sol_out_from_token(
            plan.slice_amount,
            decimals,
            plan.price.price,
            plan.price.expo,
            plan.sol_price.price,
            plan.sol_price.expo,
        ) {
            Ok(v) => v,
            Err(c) => { return Err(c) },
        }
    };
    let min_expected = match apply_max_slippage(expected_out, config.max_slippage_bps) {
        Ok(v) => v,
        Err(c) => { return Err(c) },
    };
    if delta < min_expected {
        return Err(ErrorCode::InvalidTokenVault);
    }
    if delta < plan.min_out {
        return Err(ErrorCode::InvalidTokenVault);
    }
    if plan.side == DCA_SIDE_BUY {
        if plan.order_token_before != plan.slice_amount || order_token_after != 0 {
            return Err(ErrorCode::InvalidOrderVault);
        }
    } else {
        let expected_after = match plan.order_token_before.checked_sub(plan.slice_amount) {
            Some(v) => v,
            None => { return Err(ErrorCode::InvalidOrderVault) },
        };
        if order_token_after != expected_after {
            return Err(ErrorCode::InvalidOrderVault);
        }
    }
    let remaining = match order.remaining_amount.checked_sub(plan.slice_amount) {
        Some(v) => v,
        None => { return Err(ErrorCode::MathOverflow) },
    };
    let next_exec_ts = match order.next_exec_ts.checked_add(order.interval_secs) {
        Some(v) => v,
        None => { return Err(ErrorCode::MathOverflow) },
    };
    let completed = remaining == 0;
    let new_count: u16;
    if completed {
        new_count = match fund.active_dca_count.checked_sub(1) {
            Some(v) => v,
            None => { return Err(ErrorCode::MathOverflow) },
        };
    } else {
        new_count = fund.active_dca_count;
    }
    order.remaining_amount = remaining;
    order.next_exec_ts = next_exec_ts;
    if completed {
        order.status = DCA_STATUS_EXECUTED;
    }
    fund.active_dca_count = new_count;
    Ok(
        DcaSettleOutcome {
            output_delta: delta,
            min_expected,
            slice_amount: plan.slice_amount,
            completed,
            close_token_escrow: completed && order_token_after == 0,
            sweep_sol_lamports: if completed {
                sol_escrow_lamports_after
            } else {
                0
            },
        },
    )
}

/// What cancelling an open DCA order returns to the fund.
#[derive(Clone, Copy, PartialEq, Eq, Structural, Debug)]
pub struct CancelDcaOutcome {
    pub lamports_returned: u64,
    pub tokens_returned: u64,
}

/// A manager cancels an open DCA order: the escrow accounts must be
/// the derived ones, the remaining collateral goes back to the fund —
/// lamports to the fund vault, tokens to the fund token vault — and
/// the escrows are closed.
pub open spec fn spec_cancel_dca_order(
    fund: FundState,
    order: DcaOrder,
    program: Address,
    fund_key: Address,
    manager: Address,
    order_key: Address,
    order_sol_vault: SystemAccountSlot,
    order_vault_auth: Address,
    order_token_vault_addr: Address,
    order_token_vault: TokenAccountData,
    fund_token_vault: TokenAccountData,
) -> Result<(FundState, DcaOrder, CancelDcaOutcome), ErrorCode> {
    if order.status != DCA_STATUS_OPEN {
        Err(ErrorCode::OrderNotOpen)
    } else if fund.manager != manager {
        Err(ErrorCode::Unauthorized)
    } else if fund.fund_type != FUND_TYPE_TRADING {
        Err(ErrorCode::InvalidFundType)
    } else if order.fund != fund_key {
        Err(ErrorCode::InvalidTokenVault)
    } else if !derived_matches(spec_dca_vault_auth_address(program, order_key), order_vault_auth) {
        Err(ErrorCode::InvalidOrderVault)
    } else if !derived_matches(spec_dca_sol_vault_address(program, order_key), order_sol_vault.addr) {
        Err(ErrorCode::InvalidOrderVault)
    } else if !order_sol_vault.owner.is_zero() {
        Err(ErrorCode::InvalidOrderVault)
    } else if order.side != DCA_SIDE_BUY && order.side != DCA_SIDE_SELL {
        Err(ErrorCode::InvalidOrderSide)
    } else if order.side == DCA_SIDE_BUY {
        if !ata_matches(
            spec_ata_address(order_vault_auth, spec_native_mint()),
            order_token_vault_addr,
        ) {
            Err(ErrorCode::InvalidOrderVault)
        } else if order_token_vault.mint != spec_native_mint() {
            Err(ErrorCode::InvalidOrderVault)
        } else if order_token_vault.owner != order_vault_auth {
            Err(ErrorCode::InvalidOrderVault)
        } else if order_token_vault.amount != 0 {
            Err(ErrorCode::InvalidOrderVault)
        } else if fund.active_dca_count == 0 {
            Err(ErrorCode::MathOverflow)
        } else {
            Ok(
                (
                    FundState { active_dca_count: (fund.active_dca_count - 1) as u16, ..fund },
                    DcaOrder { status: DCA_STATUS_CANCELLED, ..order },
                    CancelDcaOutcome {
                        lamports_returned: order_sol_vault.lamports,
                        tokens_returned: 0,
                    },
                ),
            )
        }
    } else {
        if !ata_matches(spec_ata_address(order_vault_auth, order.mint), order_token_vault_addr) {
            Err(ErrorCode::InvalidOrderVault)
        } else if order_token_vault.mint != order.mint {
            Err(ErrorCode::InvalidOrderVault)
        } else if order_token_vault.owner != order_vault_auth {
            Err(ErrorCode::InvalidOrderVault)
        } else if fund_token_vault.owner != fund_key {
            Err(ErrorCode::InvalidTokenVault)
        } else if fund_token_vault.mint != order.mint {
            Err(ErrorCode::InvalidTokenVault)
        } else if fund.active_dca_count == 0 {
            Err(ErrorCode::MathOverflow)
        } else {
            Ok(
                (
                    FundState { active_dca_count: (fund.active_dca_count - 1) as u16, ..fund },
                    DcaOrder { status: DCA_STATUS_CANCELLED, ..order },
                    CancelDcaOutcome {
                        lamports_returned: order_sol_vault.lamports,
                        tokens_returned: order_token_vault.amount,
                    },
                ),
            )
        }
    }
}

pub fn cancel_dca_order(
    fund: &mut FundState,
    order: &mut DcaOrder,
    program_id: &Address,
    fund_key: &Address,
    manager: &Address,
    order_key: &Address,
    order_sol_vault: &SystemAccountSlot,
    order_vault_auth: &Address,
    order_token_vault_addr: &Address,
    order_token_vault: &TokenAccountData,
    fund_token_vault: &TokenAccountData,
) -> (r: Result<CancelDcaOutcome, ErrorCode>)
    ensures
        (match r {
            Ok(o) => spec_cancel_dca_order(
                *old(fund),
                *old(order),
                *program_id,
                *fund_key,
                *manager,
                *order_key,
                *order_sol_vault,
                *order_vault_auth,
                *order_token_vault_addr,
                *order_token_vault,
                *fund_token_vault,
            ) == Ok::<(FundState, DcaOrder, CancelDcaOutcome), ErrorCode>(
                (*final(fund), *final(order), o),
            ),
            Err(e) => *final(fund) == *old(fund) && *final(order) == *old(order)
                && spec_cancel_dca_order(
                *old(fund),
                *old(order),
                *program_id,
                *fund_key,
                *manager,
                *order_key,
                *order_sol_vault,
                *order_vault_auth,
                *order_token_vault_addr,
                *order_token_vault,
                *fund_token_vault,
            ) == Err::<(FundState, DcaOrder, CancelDcaOutcome), ErrorCode>(e),
        }),
        r matches Ok(o) ==> final(order).status == DCA_STATUS_CANCELLED
            && final(fund).active_dca_count == old(fund).active_dca_count - 1,
{
    if order.status != DCA_STATUS_OPEN {
        return Err(ErrorCode::OrderNotOpen);
    }
    if fund.manager != *manager {
        return Err(ErrorCode::Unauthorized);
    }
    if fund.fund_type != FUND_TYPE_TRADING {
        return Err(ErrorCode::InvalidFundType);
    }
    if order.fund != *fund_key {
        return Err(ErrorCode::InvalidTokenVault);
    }
    let auth_ok = match derive_dca_vault_auth_address(program_id, order_key) {
        Some(p) => p.0 == *order_vault_auth,
        None => false,
    };
    if !auth_ok {
        return Err(ErrorCode::InvalidOrderVault);
    }
    let sol_vault_ok = match derive_dca_sol_vault_address(program_id, order_key) {
        Some(p) => p.0 == order_sol_vault.addr,
        None => false,
    };
    if !sol_vault_ok {
        return Err(ErrorCode::InvalidOrderVault);
    }
    if !(order_sol_vault.owner == Address::zero()) {
        return Err(ErrorCode::InvalidOrderVault);
    }
    if order.side != DCA_SIDE_BUY && order.side != DCA_SIDE_SELL {
        return Err(ErrorCode::InvalidOrderSide);
    }
    let outcome: CancelDcaOutcome;
    if order.side == DCA_SIDE_BUY {
        let wsol_ata_ok = match derive_ata_address(order_vault_auth, &native_mint()) {
            Some(a) => a == *order_token_vault_addr,
            None => false,
        };
        if !wsol_ata_ok {
            return Err(ErrorCode::InvalidOrderVault);
        }
        if order_token_vault.mint != native_mint() {
            return Err(ErrorCode::InvalidOrderVault);
        }
        if order_token_vault.owner != *order_vault_auth {
            return Err(ErrorCode::InvalidOrderVault);
        }
        if order_token_vault.amount != 0 {
            return Err(ErrorCode::InvalidOrderVault);
        }
        outcome = CancelDcaOutcome {
            lamports_returned: order_sol_vault.lamports,
            tokens_returned: 0,
        };
    } else {
        let escrow_ata_ok = match derive_ata_address(order_vault_auth, &order.mint) {
            Some(a) => a == *order_token_vault_addr,
            None => false,
        };
        if !escrow_ata_ok {
            return Err(ErrorCode::InvalidOrderVault);
        }
        if order_token_vault.mint != order.mint {
            return Err(ErrorCode::InvalidOrderVault);
        }
        if order_token_vault.owner != *order_vault_auth {
            return Err(ErrorCode::InvalidOrderVault);
        }
        if fund_token_vault.owner != *fund_key {
            return Err(ErrorCode::InvalidTokenVault);
        }
        if fund_token_vault.mint != order.mint {
            return Err(ErrorCode::InvalidTokenVault);
        }
        outcome = CancelDcaOutcome {
            lamports_returned: order_sol_vault.lamports,
            tokens_returned: order_token_vault.amount,
        };
    }
    let new_count = match fund.active_dca_count.checked_sub(1) {
        Some(v) => v,
        None => { return Err(ErrorCode::MathOverflow) },
    };
    order.status = DCA_STATUS_CANCELLED;
    fund.active_dca_count = new_count;
    Ok(outcome)
}

} // verus!
