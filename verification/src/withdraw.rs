use vstd::prelude::*;
use crate::addr::Address;
use crate::errors::ErrorCode;
use crate::math::{fee_of, spec_fee, trunc_u64};
use crate::nav::{compute_nav_lamports, spec_compute_nav, NavAccounts};
use crate::state::{FundState, GlobalConfig, WithdrawRequest};

verus! {

/// An investor declares intent to withdraw `shares`: the shares must be
/// positive and covered by the investor's share balance at request
/// time.  Pricing waits for execution.
pub open spec fn spec_request_withdraw(
    fund_key: Address,
    investor: Address,
    investor_share_balance: u64,
    shares: u64,
    now: i64,
    bump: u8,
) -> Result<WithdrawRequest, ErrorCode> {
    if shares == 0 {
        Err(ErrorCode::InvalidWithdrawal)
    } else if investor_share_balance < shares {
        Err(ErrorCode::InsufficientShares)
    } else {
        Ok(WithdrawRequest { fund: fund_key, investor, shares, request_ts: now, bump })
    }
}

pub fn request_withdraw(
    fund_key: &Address,
    investor: &Address,
    investor_share_balance: u64,
    shares: u64,
    now: i64,
    bump: u8,
) -> (r: Result<WithdrawRequest, ErrorCode>)
    ensures
        r == spec_request_withdraw(*fund_key, *investor, investor_share_balance, shares, now, bump),
{
    if shares == 0 {
        return Err(ErrorCode::InvalidWithdrawal);
    }
    if investor_share_balance < shares {
        return Err(ErrorCode::InsufficientShares);
    }
    Ok(WithdrawRequest { fund: *fund_key, investor: *investor, shares, request_ts: now, bump })
}

/// The transfers an executed withdrawal performs: `gross` leaves the
/// fund vault, split into `net` to the investor and `fee` to the
/// treasury, and the requested shares are burned.
#[derive(Clone, Copy, PartialEq, Eq, Structural, Debug)]
pub struct WithdrawOutcome {
    pub gross_lamports: u64,
    pub fee_lamports: u64,
    pub net_lamports: u64,
    pub shares_burned: u64,
}

/// Execution of an open withdrawal request, allowed once the timelock
/// has elapsed.  The payout is priced at the NAV of execution time,
///
///     gross = shares · NAV / total_shares,
///
/// the withdraw fee is carved out of `gross`, and the vault must cover
/// the full `gross`.
pub open spec fn spec_execute_withdraw(
    config: GlobalConfig,
    fund: FundState,
    request: WithdrawRequest,
    program: Address,
    fund_key: Address,
    investor: Address,
    investor_share_balance: u64,
    vault_lamports: u64,
    accounts: NavAccounts,
    now: i64,
) -> Result<(FundState, WithdrawOutcome), ErrorCode> {
    if request.fund != fund_key {
        Err(ErrorCode::InvalidWithdrawal)
    } else if request.investor != investor {
        Err(ErrorCode::Unauthorized)
    } else if request.shares == 0 {
        Err(ErrorCode::InvalidWithdrawal)
    } else if request.request_ts + fund.withdraw_timelock_secs > i64::MAX
        || request.request_ts + fund.withdraw_timelock_secs < i64::MIN {
        Err(ErrorCode::MathOverflow)
    } else if now < request.request_ts + fund.withdraw_timelock_secs {
        Err(ErrorCode::WithdrawTimelock)
    } else if fund.total_shares == 0 {
        Err(ErrorCode::MathOverflow)
    } else if fund.total_shares < request.shares {
        Err(ErrorCode::MathOverflow)
    } else if investor_share_balance < request.shares {
        Err(ErrorCode::InsufficientShares)
    } else {
        match spec_compute_nav(
            program,
            fund_key,
            vault_lamports,
            config.sol_usd_pyth_feed,
            config.pyth_program_id,
            fund.enabled_token_count,
            accounts,
            now,
        ) {
            Err(c) => Err(c),
            Ok(nav) => {
                if nav == 0 {
                    Err(ErrorCode::MathOverflow)
                } else {
                    let gross = trunc_u64(
                        (request.shares as int) * (nav as int) / (fund.total_shares as int),
                    );
                    let fee = spec_fee(gross, config.withdraw_fee_bps);
                    let net = (gross - fee) as u64;
                    if vault_lamports < gross {
                        Err(ErrorCode::InsufficientLiquidity)
                    } else {
                        Ok(
                            (
                                FundState {
                                    total_shares: (fund.total_shares - request.shares) as u64,
                                    ..fund
                                },
                                WithdrawOutcome {
                                    gross_lamports: gross,
                                    fee_lamports: fee,
                                    net_lamports: net,
                                    shares_burned: request.shares,
                                },
                            ),
                        )
                    }
                }
            },
        }
    }
}

pub fn execute_withdraw(
    config: &GlobalConfig,
    fund: &mut FundState,
    request: &WithdrawRequest,
    program_id: &Address,
    fund_key: &Address,
    investor: &Address,
    investor_share_balance: u64,
    vault_lamports: u64,
    accounts: &NavAccounts,
    now: i64,
) -> (r: Result<WithdrawOutcome, ErrorCode>)
    requires
        config.wf(),
    ensures
        (match r {
            Ok(o) => spec_execute_withdraw(
                *config,
                *old(fund),
                *request,
                *program_id,
                *fund_key,
                *investor,
                investor_share_balance,
                vault_lamports,
                *accounts,
                now,
            ) == Ok::<(FundState, WithdrawOutcome), ErrorCode>((*final(fund), o)),
            Err(e) => *final(fund) == *old(fund) && spec_execute_withdraw(
                *config,
                *old(fund),
                *request,
                *program_id,
                *fund_key,
                *investor,
                investor_share_balance,
                vault_lamports,
                *accounts,
                now,
            ) == Err::<(FundState, WithdrawOutcome), ErrorCode>(e),
        }),
        r matches Ok(o) ==> o.net_lamports + o.fee_lamports == o.gross_lamports
            && old(fund).total_shares - o.shares_burned == final(fund).total_shares
            && o.shares_burned == request.shares && o.gross_lamports <= vault_lamports,
{
    if request.fund != *fund_key {
        return Err(ErrorCode::InvalidWithdrawal);
    }
    if request.investor != *investor {
        return Err(ErrorCode::Unauthorized);
    }
    if request.shares == 0 {
        return Err(ErrorCode::InvalidWithdrawal);
    }
    let unlock_time = match request.request_ts.checked_add(fund.withdraw_timelock_secs) {
        Some(v) => v,
        None => { return Err(ErrorCode::MathOverflow) },
    };
    if now < unlock_time {
        return Err(ErrorCode::WithdrawTimelock);
    }
    if fund.total_shares == 0 {
        return Err(ErrorCode::MathOverflow);
    }
    if fund.total_shares < request.shares {
        return Err(ErrorCode::MathOverflow);
    }
    if investor_share_balance < request.shares {
        return Err(ErrorCode::InsufficientShares);
    }
    let nav_lamports = match compute_nav_lamports(
        program_id,
        fund_key,
        vault_lamports,
        &config.sol_usd_pyth_feed,
        &config.pyth_program_id,
        fund.enabled_token_count,
        accounts,
        now,
    ) {
        Ok(v) => v,
        Err(c) => { return Err(c) },
    };
    if nav_lamports == 0 {
        return Err(ErrorCode::MathOverflow);
    }
    proof {
        vstd::arithmetic::mul::lemma_mul_upper_bound(
            request.shares as int,
            u64::MAX as int,
            nav_lamports as int,
            u64::MAX as int,
        );
        vstd::arithmetic::mul::lemma_mul_nonnegative(request.shares as int, nav_lamports as int);
    }
    let gross_u128: u128 = (request.shares as u128) * (nav_lamports as u128) / (fund.total_shares
        as u128);
    let gross_lamports: u64 = (gross_u128 % 0x1_0000_0000_0000_0000u128) as u64;
    let fee_lamports = fee_of(gross_lamports, config.withdraw_fee_bps);
    let net_lamports = gross_lamports - fee_lamports;
    if vault_lamports < gross_lamports {
        return Err(ErrorCode::InsufficientLiquidity);
    }
    fund.total_shares = fund.total_shares - request.shares;
    Ok(
        WithdrawOutcome {
            gross_lamports,
            fee_lamports,
            net_lamports,
            shares_burned: request.shares,
        },
    )
}

/// Closure of an open withdrawal request by its investor; nothing else
/// changes, and the runtime reclaims the request account's rent.
pub fn cancel_withdraw(request: &WithdrawRequest, fund_key: &Address, investor: &Address) -> (r:
    Result<(), ErrorCode>)
    ensures
        request.fund != *fund_key ==> r == Err::<(), ErrorCode>(ErrorCode::InvalidWithdrawal),
        request.fund == *fund_key && request.investor != *investor ==> r == Err::<(), ErrorCode>(
            ErrorCode::Unauthorized,
        ),
        request.fund == *fund_key && request.investor == *investor ==> r == Ok::<(), ErrorCode>(()),
{
    if request.fund != *fund_key {
        return Err(ErrorCode::InvalidWithdrawal);
    }
    if request.investor != *investor {
        return Err(ErrorCode::Unauthorized);
    }
    Ok(())
}

} // verus!
