use vstd::prelude::*;
use crate::addr::Address;
use crate::errors::ErrorCode;
use crate::nav::ata_matches;
use crate::pda::{derive_ata_address, native_mint, spec_ata_address, spec_native_mint};
use crate::state::{GlobalConfig, TokenAccountSlot};

verus! {

/// What a sweep did: whether the fund's wrapped-native account was
/// closed, and the token balance it held (its lamports, wrapped amount
/// and rent alike, land in the fund vault when closed).
#[derive(Clone, Copy, PartialEq, Eq, Structural, Debug)]
pub struct SweepOutcome {
    pub closed: bool,
    pub wrapped_amount: u64,
}

/// Keeper housekeeping: if the fund's wrapped-native associated token
/// account exists, it is synced and closed into the fund's
/// base-currency vault; if it does not exist, nothing happens.
pub open spec fn spec_sweep_wsol(
    config: GlobalConfig,
    fund_key: Address,
    executor: Address,
    fund_wsol_vault: TokenAccountSlot,
) -> Result<SweepOutcome, ErrorCode> {
    if executor != config.keeper {
        Err(ErrorCode::Unauthorized)
    } else if !ata_matches(spec_ata_address(fund_key, spec_native_mint()), fund_wsol_vault.addr) {
        Err(ErrorCode::InvalidOrderVault)
    } else {
        match fund_wsol_vault.account {
            None => Ok(SweepOutcome { closed: false, wrapped_amount: 0 }),
            Some(v) => {
                if v.mint != spec_native_mint() {
                    Err(ErrorCode::InvalidTokenVault)
                } else if v.owner != fund_key {
                    Err(ErrorCode::InvalidTokenVault)
                } else {
                    Ok(SweepOutcome { closed: true, wrapped_amount: v.amount })
                }
            },
        }
    }
}

pub fn sweep_wsol(
    config: &GlobalConfig,
    fund_key: &Address,
    executor: &Address,
    fund_wsol_vault: &TokenAccountSlot,
) -> (r: Result<SweepOutcome, ErrorCode>)
    ensures
        r == spec_sweep_wsol(*config, *fund_key, *executor, *fund_wsol_vault),
{
    if *executor != config.keeper {
        return Err(ErrorCode::Unauthorized);
    }
    let wsol_ata_ok = match derive_ata_address(fund_key, &native_mint()) {
        Some(a) => a == fund_wsol_vault.addr,
        None => false,
    };
    if !wsol_ata_ok {
        return Err(ErrorCode::InvalidOrderVault);
    }
    match fund_wsol_vault.account {
        None => Ok(SweepOutcome { closed: false, wrapped_amount: 0 }),
        Some(v) => {
            if v.mint != native_mint() {
                return Err(ErrorCode::InvalidTokenVault);
            }
            if v.owner != *fund_key {
                return Err(ErrorCode::InvalidTokenVault);
            }
            Ok(SweepOutcome { closed: true, wrapped_amount: v.amount })
        },
    }
}

} // verus!
