use vstd::prelude::*;
use crate::addr::Address;
use crate::errors::ErrorCode;
use crate::state::{FundState, GlobalConfig, Trading, FUND_TYPE_STRATEGY, FUND_TYPE_TRADING};

verus! {

/// The chain-side identities a fund initialization binds: the derived
/// fund, share-mint and vault addresses with their bump seeds.
#[derive(Clone, Copy, PartialEq, Eq, Structural, Debug)]
pub struct FundAccounts {
    pub config_key: Address,
    pub fund_key: Address,
    pub share_mint: Address,
    pub vault: Address,
    pub bump: u8,
    pub share_mint_bump: u8,
    pub vault_bump: u8,
}

/// What a fund initialization does besides creating the records: the
/// manager's seed deposit is credited to the fund vault, and the same
/// number of shares is minted to the manager, one share per lamport.
#[derive(Clone, Copy, PartialEq, Eq, Structural, Debug)]
pub struct InitFundOutcome {
    pub fund: FundState,
    pub vault_credit_lamports: u64,
    pub shares_minted: u64,
}

/// The shared validation and construction of a new fund of either
/// type.  The timelock must lie in the config's window, the manager fee
/// under the config cap, and the seed deposit at or above the config
/// minimum and positive; the seed deposit is minted into shares 1:1.
pub open spec fn spec_initialize_fund_state(
    config: GlobalConfig,
    accounts: FundAccounts,
    manager: Address,
    fund_type: u8,
    fund_id: u64,
    initial_deposit_lamports: u64,
    manager_fee_bps: u16,
    min_investor_deposit_lamports: u64,
    withdraw_timelock_secs: i64,
) -> Result<InitFundOutcome, ErrorCode> {
    if withdraw_timelock_secs < config.min_withdraw_timelock_secs || withdraw_timelock_secs
        > config.max_withdraw_timelock_secs {
        Err(ErrorCode::InvalidTimelock)
    } else if manager_fee_bps > config.max_manager_fee_bps {
        Err(ErrorCode::InvalidFeeBps)
    } else if initial_deposit_lamports < config.min_manager_deposit_lamports {
        Err(ErrorCode::DepositTooSmall)
    } else if initial_deposit_lamports == 0 {
        Err(ErrorCode::ZeroShares)
    } else {
        Ok(
            InitFundOutcome {
                fund: FundState {
                    config: accounts.config_key,
                    manager,
                    fund_id,
                    fund_type,
                    share_mint: accounts.share_mint,
                    vault: accounts.vault,
                    total_shares: initial_deposit_lamports,
                    manager_fee_bps,
                    min_investor_deposit_lamports,
                    withdraw_timelock_secs,
                    enabled_token_count: 0,
                    active_limit_count: 0,
                    active_dca_count: 0,
                    next_order_id: 0,
                    bump: accounts.bump,
                    share_mint_bump: accounts.share_mint_bump,
                    vault_bump: accounts.vault_bump,
                },
                vault_credit_lamports: initial_deposit_lamports,
                shares_minted: initial_deposit_lamports,
            },
        )
    }
}

fn initialize_fund_state(
    config: &GlobalConfig,
    accounts: FundAccounts,
    manager: Address,
    fund_type: u8,
    fund_id: u64,
    initial_deposit_lamports: u64,
    manager_fee_bps: u16,
    min_investor_deposit_lamports: u64,
    withdraw_timelock_secs: i64,
) -> (r: Result<InitFundOutcome, ErrorCode>)
    ensures
        r == spec_initialize_fund_state(
            *config,
            accounts,
            manager,
            fund_type,
            fund_id,
            initial_deposit_lamports,
            manager_fee_bps,
            min_investor_deposit_lamports,
            withdraw_timelock_secs,
        ),
{
    if withdraw_timelock_secs < config.min_withdraw_timelock_secs || withdraw_timelock_secs
        > config.max_withdraw_timelock_secs {
        return Err(ErrorCode::InvalidTimelock);
    }
    if manager_fee_bps > config.max_manager_fee_bps {
        return Err(ErrorCode::InvalidFeeBps);
    }
    if initial_deposit_lamports < config.min_manager_deposit_lamports {
        return Err(ErrorCode::DepositTooSmall);
    }
    if initial_deposit_lamports == 0 {
        return Err(ErrorCode::ZeroShares);
    }
    Ok(
        InitFundOutcome {
            fund: FundState {
                config: accounts.config_key,
                manager,
                fund_id,
                fund_type,
                share_mint: accounts.share_mint,
                vault: accounts.vault,
                total_shares: initial_deposit_lamports,
                manager_fee_bps,
                min_investor_deposit_lamports,
                withdraw_timelock_secs,
                enabled_token_count: 0,
                active_limit_count: 0,
                active_dca_count: 0,
                next_order_id: 0,
                bump: accounts.bump,
                share_mint_bump: accounts.share_mint_bump,
                vault_bump: accounts.vault_bump,
            },
            vault_credit_lamports: initial_deposit_lamports,
            shares_minted: initial_deposit_lamports,
        },
    )
}

/// A new trading fund: the fund record plus its cleared borrow/settle
/// escrow record.
pub open spec fn spec_initialize_fund(
    config: GlobalConfig,
    accounts: FundAccounts,
    manager: Address,
    fund_id: u64,
    initial_deposit_lamports: u64,
    manager_fee_bps: u16,
    min_investor_deposit_lamports: u64,
    withdraw_timelock_secs: i64,
    trading_bump: u8,
) -> Result<(InitFundOutcome, Trading), ErrorCode> {
    match spec_initialize_fund_state(
        config,
        accounts,
        manager,
        FUND_TYPE_TRADING,
        fund_id,
        initial_deposit_lamports,
        manager_fee_bps,
        min_investor_deposit_lamports,
        withdraw_timelock_secs,
    ) {
        Err(c) => Err(c),
        Ok(o) => Ok((o, Trading::spec_cleared(accounts.fund_key, trading_bump))),
    }
}

pub fn initialize_fund(
    config: &GlobalConfig,
    accounts: FundAccounts,
    manager: Address,
    fund_id: u64,
    initial_deposit_lamports: u64,
    manager_fee_bps: u16,
    min_investor_deposit_lamports: u64,
    withdraw_timelock_secs: i64,
    trading_bump: u8,
) -> (r: Result<(InitFundOutcome, Trading), ErrorCode>)
    ensures
        r == spec_initialize_fund(
            *config,
            accounts,
            manager,
            fund_id,
            initial_deposit_lamports,
            manager_fee_bps,
            min_investor_deposit_lamports,
            withdraw_timelock_secs,
            trading_bump,
        ),
        r matches Ok(p) ==> p.0.fund.total_shares == p.0.shares_minted && p.0.shares_minted
            == initial_deposit_lamports && !p.1.is_locked,
{
    let outcome = match initialize_fund_state(
        config,
        accounts,
        manager,
        FUND_TYPE_TRADING,
        fund_id,
        initial_deposit_lamports,
        manager_fee_bps,
        min_investor_deposit_lamports,
        withdraw_timelock_secs,
    ) {
        Ok(o) => o,
        Err(c) => { return Err(c) },
    };
    let trading = Trading {
        fund: accounts.fund_key,
        is_locked: false,
        borrow_amount: 0,
        expected_min_out: 0,
        snapshot_sol: 0,
        snapshot_output: 0,
        output_mint: Address::zero(),
        bump: trading_bump,
    };
    Ok((outcome, trading))
}

/// A new strategy fund: as a trading fund, but typed for keeper-driven
/// rebalancing and without a borrow/settle escrow record.
pub open spec fn spec_initialize_strategy_fund(
    config: GlobalConfig,
    accounts: FundAccounts,
    manager: Address,
    fund_id: u64,
    initial_deposit_lamports: u64,
    manager_fee_bps: u16,
    min_investor_deposit_lamports: u64,
    withdraw_timelock_secs: i64,
) -> Result<InitFundOutcome, ErrorCode> {
    spec_initialize_fund_state(
        config,
        accounts,
        manager,
        FUND_TYPE_STRATEGY,
        fund_id,
        initial_deposit_lamports,
        manager_fee_bps,
        min_investor_deposit_lamports,
        withdraw_timelock_secs,
    )
}

pub fn initialize_strategy_fund(
    config: &GlobalConfig,
    accounts: FundAccounts,
    manager: Address,
    fund_id: u64,
    initial_deposit_lamports: u64,
    manager_fee_bps: u16,
    min_investor_deposit_lamports: u64,
    withdraw_timelock_secs: i64,
) -> (r: Result<InitFundOutcome, ErrorCode>)
    ensures
        r == spec_initialize_strategy_fund(
            *config,
            accounts,
            manager,
            fund_id,
            initial_deposit_lamports,
            manager_fee_bps,
            min_investor_deposit_lamports,
            withdraw_timelock_secs,
        ),
        r matches Ok(o) ==> o.fund.fund_type == FUND_TYPE_STRATEGY && o.fund.total_shares
            == o.shares_minted,
{
    initialize_fund_state(
        config,
        accounts,
        manager,
        FUND_TYPE_STRATEGY,
        fund_id,
        initial_deposit_lamports,
        manager_fee_bps,
        min_investor_deposit_lamports,
        withdraw_timelock_secs,
    )
}

} // verus!
