use vstd::prelude::*;
use crate::addr::Address;
use crate::errors::ErrorCode;
use crate::state::GlobalConfig;

verus! {

/// Validation and construction of a new global config.  Fees are capped
/// at 10 000 bps, the timelock window must be well-ordered, and the
/// admin is the creating signer.
pub open spec fn spec_initialize_global_config(
    config_id: u64,
    admin: Address,
    fee_treasury: Address,
    keeper: Address,
    sol_usd_pyth_feed: Address,
    pyth_program_id: Address,
    deposit_fee_bps: u16,
    withdraw_fee_bps: u16,
    trade_fee_bps: u16,
    max_manager_fee_bps: u16,
    max_slippage_bps: u16,
    min_manager_deposit_lamports: u64,
    min_withdraw_timelock_secs: i64,
    max_withdraw_timelock_secs: i64,
    bump: u8,
) -> Result<GlobalConfig, ErrorCode> {
    if deposit_fee_bps > 10_000 || withdraw_fee_bps > 10_000 || trade_fee_bps > 10_000
        || max_manager_fee_bps > 10_000 || max_slippage_bps > 10_000 {
        Err(ErrorCode::InvalidFeeBps)
    } else if min_withdraw_timelock_secs < 0 || max_withdraw_timelock_secs
        < min_withdraw_timelock_secs {
        Err(ErrorCode::InvalidTimelock)
    } else {
        Ok(
            GlobalConfig {
                config_id,
                admin,
                keeper,
                fee_treasury,
                sol_usd_pyth_feed,
                pyth_program_id,
                deposit_fee_bps,
                withdraw_fee_bps,
                trade_fee_bps,
                max_manager_fee_bps,
                max_slippage_bps,
                min_manager_deposit_lamports,
                min_withdraw_timelock_secs,
                max_withdraw_timelock_secs,
                bump,
            },
        )
    }
}

pub fn initialize_global_config(
    config_id: u64,
    admin: Address,
    fee_treasury: Address,
    keeper: Address,
    sol_usd_pyth_feed: Address,
    pyth_program_id: Address,
    deposit_fee_bps: u16,
    withdraw_fee_bps: u16,
    trade_fee_bps: u16,
    max_manager_fee_bps: u16,
    max_slippage_bps: u16,
    min_manager_deposit_lamports: u64,
    min_withdraw_timelock_secs: i64,
    max_withdraw_timelock_secs: i64,
    bump: u8,
) -> (r: Result<GlobalConfig, ErrorCode>)
    ensures
        r == spec_initialize_global_config(
            config_id,
            admin,
            fee_treasury,
            keeper,
            sol_usd_pyth_feed,
            pyth_program_id,
            deposit_fee_bps,
            withdraw_fee_bps,
            trade_fee_bps,
            max_manager_fee_bps,
            max_slippage_bps,
            min_manager_deposit_lamports,
            min_withdraw_timelock_secs,
            max_withdraw_timelock_secs,
            bump,
        ),
        r matches Ok(c) ==> c.wf(),
{
    if deposit_fee_bps > 10_000 || withdraw_fee_bps > 10_000 || trade_fee_bps > 10_000
        || max_manager_fee_bps > 10_000 || max_slippage_bps > 10_000 {
        return Err(ErrorCode::InvalidFeeBps);
    }
    if min_withdraw_timelock_secs < 0 || max_withdraw_timelock_secs < min_withdraw_timelock_secs {
        return Err(ErrorCode::InvalidTimelock);
    }
    Ok(
        GlobalConfig {
            config_id,
            admin,
            keeper,
            fee_treasury,
            sol_usd_pyth_feed,
            pyth_program_id,
            deposit_fee_bps,
            withdraw_fee_bps,
            trade_fee_bps,
            max_manager_fee_bps,
            max_slippage_bps,
            min_manager_deposit_lamports,
            min_withdraw_timelock_secs,
            max_withdraw_timelock_secs,
            bump,
        },
    )
}

/// The admin-mutable parameters of a config, rewritten as one batch.
/// Identity fields — config id, admin, keeper and bump — are not
/// touched.
pub open spec fn spec_update_global_config(
    config: GlobalConfig,
    signer: Address,
    fee_treasury: Address,
    sol_usd_pyth_feed: Address,
    pyth_program_id: Address,
    deposit_fee_bps: u16,
    withdraw_fee_bps: u16,
    trade_fee_bps: u16,
    max_manager_fee_bps: u16,
    max_slippage_bps: u16,
    min_manager_deposit_lamports: u64,
    min_withdraw_timelock_secs: i64,
    max_withdraw_timelock_secs: i64,
) -> Result<GlobalConfig, ErrorCode> {
    if signer != config.admin {
        Err(ErrorCode::Unauthorized)
    } else if deposit_fee_bps > 10_000 || withdraw_fee_bps > 10_000 || trade_fee_bps > 10_000
        || max_manager_fee_bps > 10_000 || max_slippage_bps > 10_000 {
        Err(ErrorCode::InvalidFeeBps)
    } else if min_withdraw_timelock_secs < 0 || max_withdraw_timelock_secs
        < min_withdraw_timelock_secs {
        Err(ErrorCode::InvalidTimelock)
    } else {
        Ok(
            GlobalConfig {
                fee_treasury,
                sol_usd_pyth_feed,
                pyth_program_id,
                deposit_fee_bps,
                withdraw_fee_bps,
                trade_fee_bps,
                max_manager_fee_bps,
                max_slippage_bps,
                min_manager_deposit_lamports,
                min_withdraw_timelock_secs,
                max_withdraw_timelock_secs,
                ..config
            },
        )
    }
}

pub fn update_global_config(
    config: &mut GlobalConfig,
    signer: Address,
    fee_treasury: Address,
    sol_usd_pyth_feed: Address,
    pyth_program_id: Address,
    deposit_fee_bps: u16,
    withdraw_fee_bps: u16,
    trade_fee_bps: u16,
    max_manager_fee_bps: u16,
    max_slippage_bps: u16,
    min_manager_deposit_lamports: u64,
    min_withdraw_timelock_secs: i64,
    max_withdraw_timelock_secs: i64,
) -> (r: Result<(), ErrorCode>)
    ensures
        (match r {
            Ok(()) => spec_update_global_config(
                *old(config),
                signer,
                fee_treasury,
                sol_usd_pyth_feed,
                pyth_program_id,
                deposit_fee_bps,
                withdraw_fee_bps,
                trade_fee_bps,
                max_manager_fee_bps,
                max_slippage_bps,
                min_manager_deposit_lamports,
                min_withdraw_timelock_secs,
                max_withdraw_timelock_secs,
            ) == Ok::<GlobalConfig, ErrorCode>(*final(config)),
            Err(e) => *final(config) == *old(config) && spec_update_global_config(
                *old(config),
                signer,
                fee_treasury,
                sol_usd_pyth_feed,
                pyth_program_id,
                deposit_fee_bps,
                withdraw_fee_bps,
                trade_fee_bps,
                max_manager_fee_bps,
                max_slippage_bps,
                min_manager_deposit_lamports,
                min_withdraw_timelock_secs,
                max_withdraw_timelock_secs,
            ) == Err::<GlobalConfig, ErrorCode>(e),
        }),
        r is Ok ==> final(config).wf(),
{
    if signer != config.admin {
        return Err(ErrorCode::Unauthorized);
    }
    if deposit_fee_bps > 10_000 || withdraw_fee_bps > 10_000 || trade_fee_bps > 10_000
        || max_manager_fee_bps > 10_000 || max_slippage_bps > 10_000 {
        return Err(ErrorCode::InvalidFeeBps);
    }
    if min_withdraw_timelock_secs < 0 || max_withdraw_timelock_secs < min_withdraw_timelock_secs {
        return Err(ErrorCode::InvalidTimelock);
    }
    config.fee_treasury = fee_treasury;
    config.sol_usd_pyth_feed = sol_usd_pyth_feed;
    config.pyth_program_id = pyth_program_id;
    config.deposit_fee_bps = deposit_fee_bps;
    config.withdraw_fee_bps = withdraw_fee_bps;
    config.trade_fee_bps = trade_fee_bps;
    config.max_manager_fee_bps = max_manager_fee_bps;
    config.max_slippage_bps = max_slippage_bps;
    config.min_manager_deposit_lamports = min_manager_deposit_lamports;
    config.min_withdraw_timelock_secs = min_withdraw_timelock_secs;
    config.max_withdraw_timelock_secs = max_withdraw_timelock_secs;
    Ok(())
}

/// Admin hands the keeper role to a new key; the zero address is
/// refused.
pub fn set_keeper(config: &mut GlobalConfig, signer: Address, new_keeper: Address) -> (r: Result<
    (),
    ErrorCode,
>)
    ensures
        signer != old(config).admin ==> r == Err::<(), ErrorCode>(ErrorCode::Unauthorized)
            && *final(config) == *old(config),
        signer == old(config).admin && new_keeper.is_zero() ==> r == Err::<(), ErrorCode>(
            ErrorCode::InvalidKeeper,
        ) && *final(config) == *old(config),
        signer == old(config).admin && !new_keeper.is_zero() ==> r == Ok::<(), ErrorCode>(())
            && *final(config) == (GlobalConfig { keeper: new_keeper, ..*old(config) }),
{
    if signer != config.admin {
        return Err(ErrorCode::Unauthorized);
    }
    if new_keeper == Address::zero() {
        return Err(ErrorCode::InvalidKeeper);
    }
    config.keeper = new_keeper;
    Ok(())
}

/// Admin clears the keeper role back to the zero address.
pub fn revoke_keeper(config: &mut GlobalConfig, signer: Address) -> (r: Result<(), ErrorCode>)
    ensures
        signer != old(config).admin ==> r == Err::<(), ErrorCode>(ErrorCode::Unauthorized)
            && *final(config) == *old(config),
        signer == old(config).admin ==> r == Ok::<(), ErrorCode>(()) && *final(config)
            == (GlobalConfig { keeper: Address::spec_zero(), ..*old(config) }),
{
    if signer != config.admin {
        return Err(ErrorCode::Unauthorized);
    }
    config.keeper = Address::zero();
    Ok(())
}

} // verus!
