use vstd::prelude::*;
use crate::addr::Address;
use crate::errors::ErrorCode;
use crate::nav::{ata_matches, derived_matches};
use crate::pda::{
    derive_ata_address, derive_fund_address, derive_global_whitelist_address,
    derive_whitelist_address, spec_ata_address, spec_fund_address, spec_global_whitelist_address,
    spec_whitelist_address,
};
use crate::state::{FundState, FundWhitelist, GlobalConfig, GlobalWhitelist, TokenAccountData};

verus! {

/// Scope selector of the token catalog operations.
pub const SCOPE_GLOBAL: u8 = 0;
pub const SCOPE_FUND: u8 = 1;

/// Admin adds a mint to the global catalog.  The whitelist record must
/// sit at its derived address and not exist yet; the bump of the
/// derivation is stored in the record.
pub open spec fn spec_add_global(
    config: GlobalConfig,
    program: Address,
    config_key: Address,
    authority: Address,
    mint: Address,
    mint_decimals: u8,
    global_whitelist_addr: Address,
    global_whitelist_exists: bool,
    pyth_feed: Address,
) -> Result<GlobalWhitelist, ErrorCode> {
    if authority != config.admin {
        Err(ErrorCode::Unauthorized)
    } else if pyth_feed.is_zero() {
        Err(ErrorCode::InvalidOracle)
    } else {
        match spec_global_whitelist_address(program, config_key, mint) {
            None => Err(ErrorCode::InvalidTokenVault),
            Some(p) => {
                if p.0 != global_whitelist_addr {
                    Err(ErrorCode::InvalidTokenVault)
                } else if global_whitelist_exists {
                    Err(ErrorCode::AlreadyInitialized)
                } else {
                    Ok(
                        GlobalWhitelist {
                            config: config_key,
                            mint,
                            decimals: mint_decimals,
                            pyth_feed,
                            enabled: true,
                            bump: p.1,
                        },
                    )
                }
            },
        }
    }
}

pub fn add_global(
    config: &GlobalConfig,
    program_id: &Address,
    config_key: &Address,
    authority: &Address,
    mint: &Address,
    mint_decimals: u8,
    global_whitelist_addr: &Address,
    global_whitelist_exists: bool,
    pyth_feed: &Address,
) -> (r: Result<GlobalWhitelist, ErrorCode>)
    ensures
        r == spec_add_global(
            *config,
            *program_id,
            *config_key,
            *authority,
            *mint,
            mint_decimals,
            *global_whitelist_addr,
            global_whitelist_exists,
            *pyth_feed,
        ),
{
    if *authority != config.admin {
        return Err(ErrorCode::Unauthorized);
    }
    if *pyth_feed == Address::zero() {
        return Err(ErrorCode::InvalidOracle);
    }
    let (expected, bump) = match derive_global_whitelist_address(program_id, config_key, mint) {
        Some(p) => p,
        None => { return Err(ErrorCode::InvalidTokenVault) },
    };
    if expected != *global_whitelist_addr {
        return Err(ErrorCode::InvalidTokenVault);
    }
    if global_whitelist_exists {
        return Err(ErrorCode::AlreadyInitialized);
    }
    Ok(
        GlobalWhitelist {
            config: *config_key,
            mint: *mint,
            decimals: mint_decimals,
            pyth_feed: *pyth_feed,
            enabled: true,
            bump,
        },
    )
}

/// What a fund-scope opt-in creates: the fund whitelist record, the
/// fund state with its token count raised, and whether the fund's token
/// vault had to be created.
#[derive(Clone, Copy, PartialEq, Eq, Structural, Debug)]
pub struct AddFundOutcome {
    pub whitelist: FundWhitelist,
    pub fund: FundState,
    pub create_token_vault: bool,
}

/// A manager opts a mint into a fund.  The fund state must be the
/// manager's own at its derived address; the mint must carry a live
/// global catalog entry agreeing on the feed; the fund whitelist must
/// not exist yet; the fund's token vault must be the derived associated
/// token account, created here if absent.
pub open spec fn spec_add_fund(
    program: Address,
    config_key: Address,
    authority: Address,
    mint: Address,
    fund_id: u64,
    pyth_feed: Address,
    fund_state: FundState,
    fund_state_addr: Address,
    fund_state_owner: Address,
    fund_state_writable: bool,
    global_whitelist: GlobalWhitelist,
    global_whitelist_owner: Address,
    fund_whitelist_addr: Address,
    fund_whitelist_exists: bool,
    fund_token_vault_addr: Address,
    fund_token_vault: Option<TokenAccountData>,
) -> Result<AddFundOutcome, ErrorCode> {
    if !fund_state_writable {
        Err(ErrorCode::InvalidRemainingAccounts)
    } else if fund_state_owner != program {
        Err(ErrorCode::InvalidTokenVault)
    } else if !derived_matches(
        spec_fund_address(program, config_key, fund_state.manager, fund_state.fund_id),
        fund_state_addr,
    ) {
        Err(ErrorCode::InvalidTokenVault)
    } else if fund_state.config != config_key {
        Err(ErrorCode::InvalidTokenVault)
    } else if fund_state.manager != authority {
        Err(ErrorCode::Unauthorized)
    } else if fund_state.fund_id != fund_id {
        Err(ErrorCode::InvalidTokenVault)
    } else if global_whitelist_owner != program {
        Err(ErrorCode::InvalidTokenVault)
    } else if global_whitelist.config != config_key {
        Err(ErrorCode::InvalidTokenVault)
    } else if global_whitelist.mint != mint {
        Err(ErrorCode::InvalidTokenVault)
    } else if !global_whitelist.enabled {
        Err(ErrorCode::InvalidTokenVault)
    } else if global_whitelist.pyth_feed != pyth_feed {
        Err(ErrorCode::InvalidOracle)
    } else {
        match spec_whitelist_address(program, fund_state_addr, mint) {
            None => Err(ErrorCode::InvalidTokenVault),
            Some(p) => {
                if p.0 != fund_whitelist_addr {
                    Err(ErrorCode::InvalidTokenVault)
                } else if fund_whitelist_exists {
                    Err(ErrorCode::AlreadyInitialized)
                } else if !ata_matches(
                    spec_ata_address(fund_state_addr, mint),
                    fund_token_vault_addr,
                ) {
                    Err(ErrorCode::InvalidTokenVault)
                } else {
                    let vault_check = match fund_token_vault {
                        None => Ok(true),
                        Some(v) => {
                            if v.owner != fund_state_addr || v.mint != mint {
                                Err(ErrorCode::InvalidTokenVault)
                            } else {
                                Ok(false)
                            }
                        },
                    };
                    match vault_check {
                        Err(c) => Err(c),
                        Ok(create_vault) => {
                            if fund_state.enabled_token_count + 1 > u16::MAX {
                                Err(ErrorCode::MathOverflow)
                            } else {
                                Ok(
                                    AddFundOutcome {
                                        whitelist: FundWhitelist {
                                            fund: fund_state_addr,
                                            mint,
                                            decimals: global_whitelist.decimals,
                                            pyth_feed: global_whitelist.pyth_feed,
                                            enabled: true,
                                            bump: p.1,
                                        },
                                        fund: FundState {
                                            enabled_token_count: (fund_state.enabled_token_count
                                                + 1) as u16,
                                            ..fund_state
                                        },
                                        create_token_vault: create_vault,
                                    },
                                )
                            }
                        },
                    }
                }
            },
        }
    }
}

pub fn add_fund(
    program_id: &Address,
    config_key: &Address,
    authority: &Address,
    mint: &Address,
    fund_id: u64,
    pyth_feed: &Address,
    fund_state: &FundState,
    fund_state_addr: &Address,
    fund_state_owner: &Address,
    fund_state_writable: bool,
    global_whitelist: &GlobalWhitelist,
    global_whitelist_owner: &Address,
    fund_whitelist_addr: &Address,
    fund_whitelist_exists: bool,
    fund_token_vault_addr: &Address,
    fund_token_vault: Option<TokenAccountData>,
) -> (r: Result<AddFundOutcome, ErrorCode>)
    ensures
        r == spec_add_fund(
            *program_id,
            *config_key,
            *authority,
            *mint,
            fund_id,
            *pyth_feed,
            *fund_state,
            *fund_state_addr,
            *fund_state_owner,
            fund_state_writable,
            *global_whitelist,
            *global_whitelist_owner,
            *fund_whitelist_addr,
            fund_whitelist_exists,
            *fund_token_vault_addr,
            fund_token_vault,
        ),
        r matches Ok(o) ==> o.fund.enabled_token_count == fund_state.enabled_token_count + 1
            && o.whitelist.enabled,
{
    if !fund_state_writable {
        return Err(ErrorCode::InvalidRemainingAccounts);
    }
    if *fund_state_owner != *program_id {
        return Err(ErrorCode::InvalidTokenVault);
    }
    let fund_derived_ok = match derive_fund_address(
        program_id,
        config_key,
        &fund_state.manager,
        fund_state.fund_id,
    ) {
        Some(p) => p.0 == *fund_state_addr,
        None => false,
    };
    if !fund_derived_ok {
        return Err(ErrorCode::InvalidTokenVault);
    }
    if fund_state.config != *config_key {
        return Err(ErrorCode::InvalidTokenVault);
    }
    if fund_state.manager != *authority {
        return Err(ErrorCode::Unauthorized);
    }
    if fund_state.fund_id != fund_id {
        return Err(ErrorCode::InvalidTokenVault);
    }
    if *global_whitelist_owner != *program_id {
        return Err(ErrorCode::InvalidTokenVault);
    }
    if global_whitelist.config != *config_key {
        return Err(ErrorCode::InvalidTokenVault);
    }
    if global_whitelist.mint != *mint {
        return Err(ErrorCode::InvalidTokenVault);
    }
    if !global_whitelist.enabled {
        return Err(ErrorCode::InvalidTokenVault);
    }
    if global_whitelist.pyth_feed != *pyth_feed {
        return Err(ErrorCode::InvalidOracle);
    }
    let (expected_wl, wl_bump) = match derive_whitelist_address(program_id, fund_state_addr, mint) {
        Some(p) => p,
        None => { return Err(ErrorCode::InvalidTokenVault) },
    };
    if expected_wl != *fund_whitelist_addr {
        return Err(ErrorCode::InvalidTokenVault);
    }
    if fund_whitelist_exists {
        return Err(ErrorCode::AlreadyInitialized);
    }
    let ata_ok = match derive_ata_address(fund_state_addr, mint) {
        Some(a) => a == *fund_token_vault_addr,
        None => false,
    };
    if !ata_ok {
        return Err(ErrorCode::InvalidTokenVault);
    }
    let create_token_vault = match fund_token_vault {
        None => true,
        Some(v) => {
            if v.owner != *fund_state_addr || v.mint != *mint {
                return Err(ErrorCode::InvalidTokenVault);
            }
            false
        },
    };
    let new_count = match fund_state.enabled_token_count.checked_add(1) {
        Some(v) => v,
        None => { return Err(ErrorCode::MathOverflow) },
    };
    Ok(
        AddFundOutcome {
            whitelist: FundWhitelist {
                fund: *fund_state_addr,
                mint: *mint,
                decimals: global_whitelist.decimals,
                pyth_feed: global_whitelist.pyth_feed,
                enabled: true,
                bump: wl_bump,
            },
            fund: FundState { enabled_token_count: new_count, ..*fund_state },
            create_token_vault,
        },
    )
}

/// Admin removes a mint from the global catalog; the record at its
/// derived address is closed to the admin.
pub open spec fn spec_remove_global(
    config: GlobalConfig,
    program: Address,
    config_key: Address,
    authority: Address,
    mint: Address,
    global_whitelist_addr: Address,
) -> Result<(), ErrorCode> {
    if authority != config.admin {
        Err(ErrorCode::Unauthorized)
    } else if !derived_matches(
        spec_global_whitelist_address(program, config_key, mint),
        global_whitelist_addr,
    ) {
        Err(ErrorCode::InvalidTokenVault)
    } else {
        Ok(())
    }
}

pub fn remove_global(
    config: &GlobalConfig,
    program_id: &Address,
    config_key: &Address,
    authority: &Address,
    mint: &Address,
    global_whitelist_addr: &Address,
) -> (r: Result<(), ErrorCode>)
    ensures
        r == spec_remove_global(
            *config,
            *program_id,
            *config_key,
            *authority,
            *mint,
            *global_whitelist_addr,
        ),
{
    if *authority != config.admin {
        return Err(ErrorCode::Unauthorized);
    }
    let derived_ok = match derive_global_whitelist_address(program_id, config_key, mint) {
        Some(p) => p.0 == *global_whitelist_addr,
        None => false,
    };
    if !derived_ok {
        return Err(ErrorCode::InvalidTokenVault);
    }
    Ok(())
}

/// A manager removes a mint from a fund: allowed only while the fund's
/// token vault for the mint is empty; the whitelist record is closed
/// and the token count lowered.
pub open spec fn spec_remove_fund(
    program: Address,
    config_key: Address,
    authority: Address,
    mint: Address,
    fund_id: u64,
    fund_state: FundState,
    fund_state_addr: Address,
    fund_state_owner: Address,
    fund_state_writable: bool,
    fund_whitelist_addr: Address,
    fund_token_vault_addr: Address,
    fund_token_vault: TokenAccountData,
) -> Result<FundState, ErrorCode> {
    if !fund_state_writable {
        Err(ErrorCode::InvalidRemainingAccounts)
    } else if fund_state_owner != program {
        Err(ErrorCode::InvalidTokenVault)
    } else if !derived_matches(
        spec_fund_address(program, config_key, fund_state.manager, fund_state.fund_id),
        fund_state_addr,
    ) {
        Err(ErrorCode::InvalidTokenVault)
    } else if fund_state.manager != authority {
        Err(ErrorCode::Unauthorized)
    } else if fund_state.fund_id != fund_id {
        Err(ErrorCode::InvalidTokenVault)
    } else if !derived_matches(
        spec_whitelist_address(program, fund_state_addr, mint),
        fund_whitelist_addr,
    ) {
        Err(ErrorCode::InvalidTokenVault)
    } else if !ata_matches(spec_ata_address(fund_state_addr, mint), fund_token_vault_addr) {
        Err(ErrorCode::InvalidTokenVault)
    } else if fund_token_vault.mint != mint {
        Err(ErrorCode::InvalidTokenVault)
    } else if fund_token_vault.amount != 0 {
        Err(ErrorCode::TokenVaultNotEmpty)
    } else if fund_state.enabled_token_count == 0 {
        Err(ErrorCode::MathOverflow)
    } else {
        Ok(
            FundState {
                enabled_token_count: (fund_state.enabled_token_count - 1) as u16,
                ..fund_state
            },
        )
    }
}

pub fn remove_fund(
    program_id: &Address,
    config_key: &Address,
    authority: &Address,
    mint: &Address,
    fund_id: u64,
    fund_state: &FundState,
    fund_state_addr: &Address,
    fund_state_owner: &Address,
    fund_state_writable: bool,
    fund_whitelist_addr: &Address,
    fund_token_vault_addr: &Address,
    fund_token_vault: &TokenAccountData,
) -> (r: Result<FundState, ErrorCode>)
    ensures
        r == spec_remove_fund(
            *program_id,
            *config_key,
            *authority,
            *mint,
            fund_id,
            *fund_state,
            *fund_state_addr,
            *fund_state_owner,
            fund_state_writable,
            *fund_whitelist_addr,
            *fund_token_vault_addr,
            *fund_token_vault,
        ),
        r matches Ok(f) ==> f.enabled_token_count == fund_state.enabled_token_count - 1,
{
    if !fund_state_writable {
        return Err(ErrorCode::InvalidRemainingAccounts);
    }
    if *fund_state_owner != *program_id {
        return Err(ErrorCode::InvalidTokenVault);
    }
    let fund_derived_ok = match derive_fund_address(
        program_id,
        config_key,
        &fund_state.manager,
        fund_state.fund_id,
    ) {
        Some(p) => p.0 == *fund_state_addr,
        None => false,
    };
    if !fund_derived_ok {
        return Err(ErrorCode::InvalidTokenVault);
    }
    if fund_state.manager != *authority {
        return Err(ErrorCode::Unauthorized);
    }
    if fund_state.fund_id != fund_id {
        return Err(ErrorCode::InvalidTokenVault);
    }
    let wl_ok = match derive_whitelist_address(program_id, fund_state_addr, mint) {
        Some(p) => p.0 == *fund_whitelist_addr,
        None => false,
    };
    if !wl_ok {
        return Err(ErrorCode::InvalidTokenVault);
    }
    let ata_ok = match derive_ata_address(fund_state_addr, mint) {
        Some(a) => a == *fund_token_vault_addr,
        None => false,
    };
    if !ata_ok {
        return Err(ErrorCode::InvalidTokenVault);
    }
    if fund_token_vault.mint != *mint {
        return Err(ErrorCode::InvalidTokenVault);
    }
    if fund_token_vault.amount != 0 {
        return Err(ErrorCode::TokenVaultNotEmpty);
    }
    let new_count = match fund_state.enabled_token_count.checked_sub(1) {
        Some(v) => v,
        None => { return Err(ErrorCode::MathOverflow) },
    };
    Ok(FundState { enabled_token_count: new_count, ..*fund_state })
}

/// What an `add_token` call produced, by scope.
#[derive(Clone, Copy, PartialEq, Eq, Structural, Debug)]
pub enum AddTokenOutcome {
    Global(GlobalWhitelist),
    Fund(AddFundOutcome),
}

/// The single catalog entry point: global scope adds to the admin
/// catalog, fund scope opts a fund in, any other scope is refused.
pub fn add_token(
    scope: u8,
    config: &GlobalConfig,
    program_id: &Address,
    config_key: &Address,
    authority: &Address,
    mint: &Address,
    mint_decimals: u8,
    pyth_feed: &Address,
    global_whitelist_addr: &Address,
    global_whitelist_exists: bool,
    fund_id: u64,
    fund_state: &FundState,
    fund_state_addr: &Address,
    fund_state_owner: &Address,
    fund_state_writable: bool,
    global_whitelist: &GlobalWhitelist,
    global_whitelist_owner: &Address,
    fund_whitelist_addr: &Address,
    fund_whitelist_exists: bool,
    fund_token_vault_addr: &Address,
    fund_token_vault: Option<TokenAccountData>,
) -> (r: Result<AddTokenOutcome, ErrorCode>)
    ensures
        scope == SCOPE_GLOBAL ==> r == (match spec_add_global(
            *config,
            *program_id,
            *config_key,
            *authority,
            *mint,
            mint_decimals,
            *global_whitelist_addr,
            global_whitelist_exists,
            *pyth_feed,
        ) {
            Ok(w) => Ok::<AddTokenOutcome, ErrorCode>(AddTokenOutcome::Global(w)),
            Err(c) => Err(c),
        }),
        scope == SCOPE_FUND ==> r == (match spec_add_fund(
            *program_id,
            *config_key,
            *authority,
            *mint,
            fund_id,
            *pyth_feed,
            *fund_state,
            *fund_state_addr,
            *fund_state_owner,
            fund_state_writable,
            *global_whitelist,
            *global_whitelist_owner,
            *fund_whitelist_addr,
            fund_whitelist_exists,
            *fund_token_vault_addr,
            fund_token_vault,
        ) {
            Ok(o) => Ok::<AddTokenOutcome, ErrorCode>(AddTokenOutcome::Fund(o)),
            Err(c) => Err(c),
        }),
        scope != SCOPE_GLOBAL && scope != SCOPE_FUND ==> r == Err::<AddTokenOutcome, ErrorCode>(
            ErrorCode::InvalidScope,
        ),
{
    if scope == SCOPE_GLOBAL {
        match add_global(
            config,
            program_id,
            config_key,
            authority,
            mint,
            mint_decimals,
            global_whitelist_addr,
            global_whitelist_exists,
            pyth_feed,
        ) {
            Ok(w) => Ok(AddTokenOutcome::Global(w)),
            Err(c) => Err(c),
        }
    } else if scope == SCOPE_FUND {
        match add_fund(
            program_id,
            config_key,
            authority,
            mint,
            fund_id,
            pyth_feed,
            fund_state,
            fund_state_addr,
            fund_state_owner,
            fund_state_writable,
            global_whitelist,
            global_whitelist_owner,
            fund_whitelist_addr,
            fund_whitelist_exists,
            fund_token_vault_addr,
            fund_token_vault,
        ) {
            Ok(o) => Ok(AddTokenOutcome::Fund(o)),
            Err(c) => Err(c),
        }
    } else {
        Err(ErrorCode::InvalidScope)
    }
}

/// What a `remove_token` call produced, by scope.
#[derive(Clone, Copy, PartialEq, Eq, Structural, Debug)]
pub enum RemoveTokenOutcome {
    Global,
    Fund(FundState),
}

/// The single catalog removal entry point, the mirror of `add_token`.
pub fn remove_token(
    scope: u8,
    config: &GlobalConfig,
    program_id: &Address,
    config_key: &Address,
    authority: &Address,
    mint: &Address,
    global_whitelist_addr: &Address,
    fund_id: u64,
    fund_state: &FundState,
    fund_state_addr: &Address,
    fund_state_owner: &Address,
    fund_state_writable: bool,
    fund_whitelist_addr: &Address,
    fund_token_vault_addr: &Address,
    fund_token_vault: &TokenAccountData,
) -> (r: Result<RemoveTokenOutcome, ErrorCode>)
    ensures
        scope == SCOPE_GLOBAL ==> r == (match spec_remove_global(
            *config,
            *program_id,
            *config_key,
            *authority,
            *mint,
            *global_whitelist_addr,
        ) {
            Ok(()) => Ok::<RemoveTokenOutcome, ErrorCode>(RemoveTokenOutcome::Global),
            Err(c) => Err(c),
        }),
        scope == SCOPE_FUND ==> r == (match spec_remove_fund(
            *program_id,
            *config_key,
            *authority,
            *mint,
            fund_id,
            *fund_state,
            *fund_state_addr,
            *fund_state_owner,
            fund_state_writable,
            *fund_whitelist_addr,
            *fund_token_vault_addr,
            *fund_token_vault,
        ) {
            Ok(f) => Ok::<RemoveTokenOutcome, ErrorCode>(RemoveTokenOutcome::Fund(f)),
            Err(c) => Err(c),
        }),
        scope != SCOPE_GLOBAL && scope != SCOPE_FUND ==> r == Err::<RemoveTokenOutcome, ErrorCode>(
            ErrorCode::InvalidScope,
        ),
{
    if scope == SCOPE_GLOBAL {
        match remove_global(config, program_id, config_key, authority, mint, global_whitelist_addr) {
            Ok(()) => Ok(RemoveTokenOutcome::Global),
            Err(c) => Err(c),
        }
    } else if scope == SCOPE_FUND {
        match remove_fund(
            program_id,
            config_key,
            authority,
            mint,
            fund_id,
            fund_state,
            fund_state_addr,
            fund_state_owner,
            fund_state_writable,
            fund_whitelist_addr,
            fund_token_vault_addr,
            fund_token_vault,
        ) {
            Ok(f) => Ok(RemoveTokenOutcome::Fund(f)),
            Err(c) => Err(c),
        }
    } else {
        Err(ErrorCode::InvalidScope)
    }
}

} // verus!
