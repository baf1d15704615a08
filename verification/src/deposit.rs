use vstd::prelude::*;
use crate::addr::Address;
use crate::errors::ErrorCode;
use crate::math::{fee_of, spec_fee, trunc_u64};
use crate::nav::{compute_nav_lamports, spec_compute_nav, NavAccounts};
use crate::state::{FundState, GlobalConfig};

verus! {

/// The transfers a deposit performs: the fee goes from the investor to
/// the fee treasury, the net amount from the investor to the fund
/// vault, and the shares are minted to the investor.
#[derive(Clone, Copy, PartialEq, Eq, Structural, Debug)]
pub struct DepositOutcome {
    pub fee_lamports: u64,
    pub net_lamports: u64,
    pub shares_minted: u64,
}

/// An investor deposit: the amount must reach the fund minimum; the
/// deposit fee is carved out; the rest buys shares at the fund's
/// current share price,
///
///     shares = net · total_shares / NAV,
///
/// with NAV computed over the supplied auxiliary accounts at `now`.  A
/// deposit that would mint no shares is refused.
pub open spec fn spec_deposit(
    config: GlobalConfig,
    fund: FundState,
    program: Address,
    fund_key: Address,
    vault_lamports: u64,
    accounts: NavAccounts,
    now: i64,
    amount_lamports: u64,
) -> Result<(FundState, DepositOutcome), ErrorCode> {
    if amount_lamports < fund.min_investor_deposit_lamports {
        Err(ErrorCode::DepositTooSmall)
    } else {
        let fee = spec_fee(amount_lamports, config.deposit_fee_bps);
        let net = (amount_lamports - fee) as u64;
        match spec_compute_nav(
            program,
            fund_key,
            vault_lamports,
            config.sol_usd_pyth_feed,
            config.pyth_program_id,
            fund.enabled_token_count,
            accounts,
            now,
        ) {
            Err(c) => Err(c),
            Ok(nav) => {
                if nav == 0 {
                    Err(ErrorCode::MathOverflow)
                } else if fund.total_shares == 0 {
                    Err(ErrorCode::MathOverflow)
                } else {
                    let shares = trunc_u64((net as int) * (fund.total_shares as int) / (nav as int));
                    if shares == 0 {
                        Err(ErrorCode::ZeroShares)
                    } else if fund.total_shares + shares > u64::MAX {
                        Err(ErrorCode::MathOverflow)
                    } else {
                        Ok(
                            (
                                FundState {
                                    total_shares: (fund.total_shares + shares) as u64,
                                    ..fund
                                },
                                DepositOutcome {
                                    fee_lamports: fee,
                                    net_lamports: net,
                                    shares_minted: shares,
                                },
                            ),
                        )
                    }
                }
            },
        }
    }
}

pub fn deposit(
    config: &GlobalConfig,
    fund: &mut FundState,
    program_id: &Address,
    fund_key: &Address,
    vault_lamports: u64,
    accounts: &NavAccounts,
    now: i64,
    amount_lamports: u64,
) -> (r: Result<DepositOutcome, ErrorCode>)
    requires
        config.wf(),
    ensures
        (match r {
            Ok(o) => spec_deposit(
                *config,
                *old(fund),
                *program_id,
                *fund_key,
                vault_lamports,
                *accounts,
                now,
                amount_lamports,
            ) == Ok::<(FundState, DepositOutcome), ErrorCode>((*final(fund), o)),
            Err(e) => *final(fund) == *old(fund) && spec_deposit(
                *config,
                *old(fund),
                *program_id,
                *fund_key,
                vault_lamports,
                *accounts,
                now,
                amount_lamports,
            ) == Err::<(FundState, DepositOutcome), ErrorCode>(e),
        }),
        r matches Ok(o) ==> o.fee_lamports + o.net_lamports == amount_lamports
            && final(fund).total_shares == old(fund).total_shares + o.shares_minted
            && o.shares_minted > 0,
{
    if amount_lamports < fund.min_investor_deposit_lamports {
        return Err(ErrorCode::DepositTooSmall);
    }
    let fee_lamports = fee_of(amount_lamports, config.deposit_fee_bps);
    let net_lamports = amount_lamports - fee_lamports;
    let nav_lamports = match compute_nav_lamports(
        program_id,
        fund_key,
        vault_lamports,
        &config.sol_usd_pyth_feed,
        &config.pyth_program_id,
        fund.enabled_token_count,
        accounts,
        now,
    ) {
        Ok(v) => v,
        Err(c) => { return Err(c) },
    };
    if nav_lamports == 0 {
        return Err(ErrorCode::MathOverflow);
    }
    if fund.total_shares == 0 {
        return Err(ErrorCode::MathOverflow);
    }
    proof {
        vstd::arithmetic::mul::lemma_mul_upper_bound(
            net_lamports as int,
            u64::MAX as int,
            fund.total_shares as int,
            u64::MAX as int,
        );
        vstd::arithmetic::mul::lemma_mul_nonnegative(
            net_lamports as int,
            fund.total_shares as int,
        );
    }
    let shares_u128: u128 = (net_lamports as u128) * (fund.total_shares as u128) / (nav_lamports
        as u128);
    let shares_to_mint: u64 = (shares_u128 % 0x1_0000_0000_0000_0000u128) as u64;
    if shares_to_mint == 0 {
        return Err(ErrorCode::ZeroShares);
    }
    let new_total = match fund.total_shares.checked_add(shares_to_mint) {
        Some(v) => v,
        None => { return Err(ErrorCode::MathOverflow) },
    };
    fund.total_shares = new_total;
    Ok(
        DepositOutcome {
            fee_lamports,
            net_lamports,
            shares_minted: shares_to_mint,
        },
    )
}

} // verus!
