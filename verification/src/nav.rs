use vstd::prelude::*;
use crate::addr::{Address, addr_lt, spec_addr_lt};
use crate::errors::ErrorCode;
use crate::math::{expected_sol_out_from_token, spec_token_to_sol, trunc_u64};
use crate::oracle::{FeedAccount, OracleReading, load_price, spec_load_price};
use crate::pda::{derive_ata_address, derive_whitelist_address, spec_ata_address, spec_whitelist_address};
use crate::state::{FundWhitelist, TokenAccountData};

verus! {

/// One (whitelist, token vault, token feed) triple of the auxiliary
/// account list a NAV computation walks.
#[derive(Clone, Debug)]
pub struct NavEntry {
    pub whitelist_addr: Address,
    pub whitelist: FundWhitelist,
    pub vault_addr: Address,
    pub vault: TokenAccountData,
    pub feed: FeedAccount,
}

/// The auxiliary account list of a NAV computation: the base-currency
/// feed followed by one entry per enabled token.  A fund without enabled
/// tokens supplies neither.
#[derive(Clone, Debug)]
pub struct NavAccounts {
    pub base_feed: Option<FeedAccount>,
    pub entries: Vec<NavEntry>,
}

/// Does a derivation result name exactly address `a`?
pub open spec fn derived_matches(r: Option<(Address, u8)>, a: Address) -> bool {
    match r {
        Some(p) => p.0 == a,
        None => false,
    }
}

/// Does a derived token-account address name exactly `a`?
pub open spec fn ata_matches(r: Option<Address>, a: Address) -> bool {
    match r {
        Some(x) => x == a,
        None => false,
    }
}

/// The whitelist validation of one entry: the whitelist account must
/// sit at its derived address, be enabled, belong to the fund, and
/// follow `prev_mint` (the previous entry's mint, if any) in strictly
/// increasing order.
pub open spec fn spec_wl_entry_check(
    program: Address,
    fund: Address,
    prev_mint: Option<Address>,
    e: NavEntry,
) -> Option<ErrorCode> {
    if !derived_matches(spec_whitelist_address(program, fund, e.whitelist.mint), e.whitelist_addr) {
        Some(ErrorCode::InvalidTokenVault)
    } else if !e.whitelist.enabled {
        Some(ErrorCode::InvalidTokenVault)
    } else if e.whitelist.fund != fund {
        Some(ErrorCode::InvalidTokenVault)
    } else if prev_mint is Some && !spec_addr_lt(prev_mint->0, e.whitelist.mint) {
        Some(ErrorCode::InvalidWhitelistOrder)
    } else {
        None
    }
}

fn wl_entry_check(program: &Address, fund: &Address, prev_mint: Option<Address>, e: &NavEntry) -> (r:
    Option<ErrorCode>)
    ensures
        r == spec_wl_entry_check(*program, *fund, prev_mint, *e),
{
    let derived_ok = match derive_whitelist_address(program, fund, &e.whitelist.mint) {
        Some(p) => p.0 == e.whitelist_addr,
        None => false,
    };
    if !derived_ok {
        return Some(ErrorCode::InvalidTokenVault);
    }
    if !e.whitelist.enabled {
        return Some(ErrorCode::InvalidTokenVault);
    }
    if e.whitelist.fund != *fund {
        return Some(ErrorCode::InvalidTokenVault);
    }
    if let Some(prev) = prev_mint {
        if !addr_lt(&prev, &e.whitelist.mint) {
            return Some(ErrorCode::InvalidWhitelistOrder);
        }
    }
    None
}

/// The mint of the last entry of a prefix, if the prefix is not empty.
pub open spec fn spec_prev_mint(entries: Seq<NavEntry>) -> Option<Address> {
    if entries.len() == 0 {
        None
    } else {
        Some(entries.last().whitelist.mint)
    }
}

/// First failure among the whitelist validations of `entries`, scanned
/// left to right.
pub open spec fn spec_wl_check(program: Address, fund: Address, entries: Seq<NavEntry>) -> Option<
    ErrorCode,
>
    decreases entries.len(),
{
    if entries.len() == 0 {
        None
    } else {
        let pre = entries.drop_last();
        match spec_wl_check(program, fund, pre) {
            Some(c) => Some(c),
            None => spec_wl_entry_check(program, fund, spec_prev_mint(pre), entries.last()),
        }
    }
}

proof fn lemma_wl_check_extends(program: Address, fund: Address, entries: Seq<NavEntry>, i: int)
    requires
        0 <= i <= entries.len(),
        spec_wl_check(program, fund, entries.take(i)) is Some,
    ensures
        spec_wl_check(program, fund, entries) == spec_wl_check(program, fund, entries.take(i)),
    decreases entries.len(),
{
    if i < entries.len() {
        assert(entries.drop_last().take(i) =~= entries.take(i));
        lemma_wl_check_extends(program, fund, entries.drop_last(), i);
    } else {
        assert(entries.take(i) =~= entries);
    }
}

/// The vault and feed validations and the pricing of one entry: the
/// token vault must be the fund's associated token account for the
/// mint, owned by the fund and of that mint; the feed account must be
/// the whitelist-declared feed owned by the oracle program; then the
/// holding is priced in lamports.
pub open spec fn spec_entry_value(
    fund: Address,
    pyth_program: Address,
    sol: OracleReading,
    now: i64,
    e: NavEntry,
) -> Result<u64, ErrorCode> {
    if !ata_matches(spec_ata_address(fund, e.whitelist.mint), e.vault_addr) {
        Err(ErrorCode::InvalidTokenVault)
    } else if e.vault.owner != fund {
        Err(ErrorCode::InvalidTokenVault)
    } else if e.vault.mint != e.whitelist.mint {
        Err(ErrorCode::InvalidTokenVault)
    } else if e.feed.addr != e.whitelist.pyth_feed {
        Err(ErrorCode::InvalidOracle)
    } else if e.feed.owner != pyth_program {
        Err(ErrorCode::InvalidOracle)
    } else {
        match spec_load_price(e.feed.data@, now) {
            Err(c) => Err(c),
            Ok(tp) => spec_token_to_sol(
                e.vault.amount,
                e.whitelist.decimals,
                tp.price,
                tp.expo,
                sol.price,
                sol.expo,
            ),
        }
    }
}

fn entry_value(fund: &Address, pyth_program: &Address, sol: OracleReading, now: i64, e: &NavEntry) -> (r:
    Result<u64, ErrorCode>)
    ensures
        r == spec_entry_value(*fund, *pyth_program, sol, now, *e),
{
    let ata_ok = match derive_ata_address(fund, &e.whitelist.mint) {
        Some(a) => a == e.vault_addr,
        None => false,
    };
    if !ata_ok {
        return Err(ErrorCode::InvalidTokenVault);
    }
    if e.vault.owner != *fund {
        return Err(ErrorCode::InvalidTokenVault);
    }
    if e.vault.mint != e.whitelist.mint {
        return Err(ErrorCode::InvalidTokenVault);
    }
    if e.feed.addr != e.whitelist.pyth_feed {
        return Err(ErrorCode::InvalidOracle);
    }
    if e.feed.owner != *pyth_program {
        return Err(ErrorCode::InvalidOracle);
    }
    let token_price = match load_price(&e.feed.data, now) {
        Ok(p) => p,
        Err(c) => { return Err(c) },
    };
    expected_sol_out_from_token(
        e.vault.amount,
        e.whitelist.decimals,
        token_price.price,
        token_price.expo,
        sol.price,
        sol.expo,
    )
}

/// Lamport value of the entries at the given base-currency price,
/// accumulated left to right, or the first failure.
pub open spec fn spec_value_sum(
    fund: Address,
    pyth_program: Address,
    sol: OracleReading,
    now: i64,
    entries: Seq<NavEntry>,
) -> Result<int, ErrorCode>
    decreases entries.len(),
{
    if entries.len() == 0 {
        Ok(0)
    } else {
        match spec_value_sum(fund, pyth_program, sol, now, entries.drop_last()) {
            Err(c) => Err(c),
            Ok(acc) => match spec_entry_value(fund, pyth_program, sol, now, entries.last()) {
                Err(c) => Err(c),
                Ok(v) => Ok(acc + v),
            },
        }
    }
}

proof fn lemma_value_sum_extends(
    fund: Address,
    pyth_program: Address,
    sol: OracleReading,
    now: i64,
    entries: Seq<NavEntry>,
    i: int,
)
    requires
        0 <= i <= entries.len(),
        spec_value_sum(fund, pyth_program, sol, now, entries.take(i)) is Err,
    ensures
        spec_value_sum(fund, pyth_program, sol, now, entries) == spec_value_sum(
            fund,
            pyth_program,
            sol,
            now,
            entries.take(i),
        ),
    decreases entries.len(),
{
    if i < entries.len() {
        assert(entries.drop_last().take(i) =~= entries.take(i));
        lemma_value_sum_extends(fund, pyth_program, sol, now, entries.drop_last(), i);
    } else {
        assert(entries.take(i) =~= entries);
    }
}

/// The NAV of a fund: its base-currency balance plus the lamport value
/// of each enabled token holding at current oracle prices.  The
/// auxiliary list must hold exactly the base feed and one valid triple
/// per enabled token, whitelists strictly sorted by mint; the result is
/// positive or the computation fails.
pub open spec fn spec_compute_nav(
    program: Address,
    fund: Address,
    sol_lamports: u64,
    sol_usd_feed: Address,
    pyth_program: Address,
    enabled_token_count: u16,
    accounts: NavAccounts,
    now: i64,
) -> Result<u64, ErrorCode> {
    if enabled_token_count == 0 {
        if accounts.base_feed is None && accounts.entries@.len() == 0 {
            Ok(sol_lamports)
        } else {
            Err(ErrorCode::InvalidRemainingAccounts)
        }
    } else {
        match accounts.base_feed {
            None => Err(ErrorCode::InvalidRemainingAccounts),
            Some(bf) => {
                if accounts.entries@.len() != enabled_token_count {
                    Err(ErrorCode::InvalidRemainingAccounts)
                } else {
                    match spec_wl_check(program, fund, accounts.entries@) {
                        Some(c) => Err(c),
                        None => {
                            if bf.addr != sol_usd_feed {
                                Err(ErrorCode::InvalidOracle)
                            } else if bf.owner != pyth_program {
                                Err(ErrorCode::InvalidOracle)
                            } else {
                                match spec_load_price(bf.data@, now) {
                                    Err(c) => Err(c),
                                    Ok(sol) => match spec_value_sum(
                                        fund,
                                        pyth_program,
                                        sol,
                                        now,
                                        accounts.entries@,
                                    ) {
                                        Err(c) => Err(c),
                                        Ok(sum) => {
                                            if sol_lamports + sum > 0 {
                                                Ok(trunc_u64(sol_lamports + sum))
                                            } else {
                                                Err(ErrorCode::InvalidNav)
                                            }
                                        },
                                    },
                                }
                            }
                        },
                    }
                }
            },
        }
    }
}

#[verifier::rlimit(50)]
#[verifier::loop_isolation(false)]
pub fn compute_nav_lamports(
    program_id: &Address,
    fund_key: &Address,
    sol_lamports: u64,
    sol_usd_pyth_feed: &Address,
    pyth_program_id: &Address,
    enabled_token_count: u16,
    accounts: &NavAccounts,
    now: i64,
) -> (r: Result<u64, ErrorCode>)
    ensures
        r == spec_compute_nav(
            *program_id,
            *fund_key,
            sol_lamports,
            *sol_usd_pyth_feed,
            *pyth_program_id,
            enabled_token_count,
            *accounts,
            now,
        ),
{
    if enabled_token_count == 0 {
        if accounts.base_feed.is_none() && accounts.entries.len() == 0 {
            return Ok(sol_lamports);
        }
        return Err(ErrorCode::InvalidRemainingAccounts);
    }
    let base_feed = match &accounts.base_feed {
        None => { return Err(ErrorCode::InvalidRemainingAccounts) },
        Some(bf) => bf,
    };
    let n = accounts.entries.len();
    if n != enabled_token_count as usize {
        return Err(ErrorCode::InvalidRemainingAccounts);
    }
    let mut i: usize = 0;
    while i < n
        invariant
            n == accounts.entries@.len(),
            0 <= i <= n,
            spec_wl_check(*program_id, *fund_key, accounts.entries@.take(i as int)) is None,
        decreases n - i,
    {
        proof {
            assert(accounts.entries@.take(i + 1).drop_last() =~= accounts.entries@.take(i as int));
        }
        let e = &accounts.entries[i];
        let prev_mint: Option<Address> = if i > 0 {
            Some(accounts.entries[i - 1].whitelist.mint)
        } else {
            None
        };
        if let Some(c) = wl_entry_check(program_id, fund_key, prev_mint, e) {
            proof {
                assert(accounts.entries@.take(i + 1).last() == accounts.entries@[i as int]);
                if i > 0 {
                    assert(accounts.entries@.take(i as int).last() == accounts.entries@[i - 1]);
                }
                assert(spec_prev_mint(accounts.entries@.take(i as int)) == prev_mint);
                lemma_wl_check_extends(*program_id, *fund_key, accounts.entries@, i + 1);
            }
            return Err(c);
        }
        i = i + 1;
    }
    proof {
        assert(accounts.entries@.take(n as int) =~= accounts.entries@);
    }
    if base_feed.addr != *sol_usd_pyth_feed {
        return Err(ErrorCode::InvalidOracle);
    }
    if base_feed.owner != *pyth_program_id {
        return Err(ErrorCode::InvalidOracle);
    }
    let sol = match load_price(&base_feed.data, now) {
        Ok(p) => p,
        Err(c) => { return Err(c) },
    };
    let mut nav: i128 = sol_lamports as i128;
    let mut j: usize = 0;
    while j < n
        invariant
            n == accounts.entries@.len(),
            n <= 0xffff,
            0 <= j <= n,
            spec_value_sum(*fund_key, *pyth_program_id, sol, now, accounts.entries@.take(j as int))
                == Ok::<int, ErrorCode>(nav - sol_lamports),
            sol_lamports <= nav <= sol_lamports + j * 0xffff_ffff_ffff_ffffu64,
        decreases n - j,
    {
        proof {
            assert(accounts.entries@.take(j + 1).drop_last() =~= accounts.entries@.take(j as int));
        }
        let e = &accounts.entries[j];
        let value = match entry_value(fund_key, pyth_program_id, sol, now, e) {
            Ok(v) => v,
            Err(c) => {
                proof {
                    assert(accounts.entries@.take(j + 1).last() == accounts.entries@[j as int]);
                    lemma_value_sum_extends(
                        *fund_key,
                        *pyth_program_id,
                        sol,
                        now,
                        accounts.entries@,
                        j + 1,
                    );
                }
                return Err(c);
            },
        };
        nav = nav + (value as i128);
        j = j + 1;
    }
    proof {
        assert(accounts.entries@.take(n as int) =~= accounts.entries@);
    }
    if nav > 0 {
        Ok(((nav as u128) % 0x1_0000_0000_0000_0000u128) as u64)
    } else {
        Err(ErrorCode::InvalidNav)
    }
}

} // verus!
