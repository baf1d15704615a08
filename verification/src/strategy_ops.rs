use vstd::prelude::*;
use crate::addr::Address;
use crate::errors::ErrorCode;
use crate::limit::{has_account, spec_has_account};
use crate::math::{
    apply_max_slippage, expected_sol_out_from_token, expected_token_out_from_sol,
    spec_apply_max_slippage, spec_sol_to_token, spec_token_to_sol, trunc_u64,
};
use crate::nav::ata_matches;
use crate::oracle::{FeedAccount, OracleReading, load_price, spec_load_price};
use crate::pda::{derive_ata_address, native_mint, spec_ata_address, spec_native_mint, spec_swap_aggregator_id, swap_aggregator_id};
use crate::state::{
    FundState, FundWhitelist, GlobalConfig, Strategy, StrategyAllocation,
    StrategyAllocationInput, SwapAccount, TokenAccountData, TokenAccountSlot,
    spec_weight_sum, FUND_TYPE_STRATEGY, MAX_STRATEGY_TOKENS,
};

verus! {

/// Weight sum of submitted allocations.
pub open spec fn spec_input_weight_sum(allocs: Seq<StrategyAllocationInput>) -> int
    decreases allocs.len(),
{
    if allocs.len() == 0 {
        0
    } else {
        spec_input_weight_sum(allocs.drop_last()) + allocs.last().weight_bps
    }
}

/// Every submitted weight positive, and no mint named twice.
pub open spec fn spec_inputs_well_formed(allocs: Seq<StrategyAllocationInput>) -> bool {
    &&& forall|i: int| 0 <= i < allocs.len() ==> (#[trigger] allocs[i]).weight_bps > 0
    &&& forall|i: int, j: int| 0 <= i < j < allocs.len() ==> allocs[i].mint != allocs[j].mint
}

/// The stored form of the submitted allocations.
pub open spec fn spec_alloc_records(allocs: Seq<StrategyAllocationInput>) -> Seq<
    StrategyAllocation,
> {
    allocs.map_values(
        |a: StrategyAllocationInput| StrategyAllocation { mint: a.mint, weight_bps: a.weight_bps },
    )
}

proof fn lemma_record_weight_sum(allocs: Seq<StrategyAllocationInput>)
    ensures
        spec_weight_sum(spec_alloc_records(allocs)) == spec_input_weight_sum(allocs),
    decreases allocs.len(),
{
    if allocs.len() > 0 {
        lemma_record_weight_sum(allocs.drop_last());
        assert(spec_alloc_records(allocs).drop_last() =~= spec_alloc_records(allocs.drop_last()));
    }
}

/// Each submitted allocation is backed by a live fund whitelist of its
/// mint, in order.
pub open spec fn spec_allocs_whitelisted(
    fund_key: Address,
    allocs: Seq<StrategyAllocationInput>,
    whitelists: Seq<FundWhitelist>,
) -> bool {
    forall|i: int|
        0 <= i < allocs.len() ==> ((#[trigger] whitelists[i]).enabled && whitelists[i].fund
            == fund_key && whitelists[i].mint == allocs[i].mint)
}

/// A manager declares the target allocation of a strategy fund: one
/// entry per enabled whitelist, positive unique weights summing to
/// exactly 10 000 bps, a positive cooldown, and a threshold within
/// 10 000 bps.  The rebalance clock starts at `now`.
pub open spec fn spec_set_strategy(
    fund: FundState,
    fund_key: Address,
    manager: Address,
    allocations: Seq<StrategyAllocationInput>,
    rebalance_threshold_bps: u16,
    rebalance_cooldown_secs: i64,
    whitelists: Seq<FundWhitelist>,
) -> Result<(), ErrorCode> {
    if fund.manager != manager {
        Err(ErrorCode::Unauthorized)
    } else if fund.fund_type != FUND_TYPE_STRATEGY {
        Err(ErrorCode::InvalidFundType)
    } else if allocations.len() == 0 || allocations.len() > MAX_STRATEGY_TOKENS {
        Err(ErrorCode::InvalidStrategyConfig)
    } else if rebalance_threshold_bps > 10_000 {
        Err(ErrorCode::InvalidFeeBps)
    } else if rebalance_cooldown_secs <= 0 {
        Err(ErrorCode::InvalidStrategyConfig)
    } else if fund.enabled_token_count != allocations.len() {
        Err(ErrorCode::InvalidStrategyConfig)
    } else if !spec_inputs_well_formed(allocations) || spec_input_weight_sum(allocations)
        != 10_000 {
        Err(ErrorCode::InvalidStrategyConfig)
    } else if whitelists.len() != allocations.len() {
        Err(ErrorCode::InvalidRemainingAccounts)
    } else if !spec_allocs_whitelisted(fund_key, allocations, whitelists) {
        Err(ErrorCode::InvalidTokenVault)
    } else {
        Ok(())
    }
}

#[verifier::loop_isolation(false)]
pub fn set_strategy(
    fund: &FundState,
    fund_key: &Address,
    manager: &Address,
    allocations: &Vec<StrategyAllocationInput>,
    rebalance_threshold_bps: u16,
    rebalance_cooldown_secs: i64,
    whitelists: &Vec<FundWhitelist>,
    now: i64,
    bump: u8,
) -> (r: Result<Strategy, ErrorCode>)
    ensures
        (match r {
            Ok(s) => spec_set_strategy(
                *fund,
                *fund_key,
                *manager,
                allocations@,
                rebalance_threshold_bps,
                rebalance_cooldown_secs,
                whitelists@,
            ) is Ok && s.fund == *fund_key && s.allocation_count == allocations@.len()
                && s.allocations@ == spec_alloc_records(allocations@) && s.rebalance_threshold_bps
                == rebalance_threshold_bps && s.rebalance_cooldown_secs == rebalance_cooldown_secs
                && s.last_rebalance_ts == now && s.bump == bump && s.wf(),
            Err(e) => spec_set_strategy(
                *fund,
                *fund_key,
                *manager,
                allocations@,
                rebalance_threshold_bps,
                rebalance_cooldown_secs,
                whitelists@,
            ) == Err::<(), ErrorCode>(e),
        }),
{
    if fund.manager != *manager {
        return Err(ErrorCode::Unauthorized);
    }
    if fund.fund_type != FUND_TYPE_STRATEGY {
        return Err(ErrorCode::InvalidFundType);
    }
    let n = allocations.len();
    if n == 0 || n > MAX_STRATEGY_TOKENS {
        return Err(ErrorCode::InvalidStrategyConfig);
    }
    if rebalance_threshold_bps > 10_000 {
        return Err(ErrorCode::InvalidFeeBps);
    }
    if rebalance_cooldown_secs <= 0 {
        return Err(ErrorCode::InvalidStrategyConfig);
    }
    if fund.enabled_token_count as usize != n {
        return Err(ErrorCode::InvalidStrategyConfig);
    }
    let mut sum: u32 = 0;
    let mut i: usize = 0;
    while i < n
        invariant
            0 <= i <= n,
            n == allocations@.len(),
            n <= MAX_STRATEGY_TOKENS,
            sum == spec_input_weight_sum(allocations@.take(i as int)),
            sum <= i * 0x1_0000,
            forall|t: int| 0 <= t < i ==> (#[trigger] allocations@[t]).weight_bps > 0,
            forall|a: int, b: int|
                0 <= a < b < i ==> allocations@[a].mint != allocations@[b].mint,
        decreases n - i,
    {
        proof {
            assert(allocations@.take(i + 1).drop_last() =~= allocations@.take(i as int));
        }
        let alloc = &allocations[i];
        if alloc.weight_bps == 0 {
            return Err(ErrorCode::InvalidStrategyConfig);
        }
        let mut j: usize = 0;
        while j < i
            invariant
                0 <= j <= i < n,
                n == allocations@.len(),
                forall|t: int| 0 <= t < j ==> (#[trigger] allocations@[t]).mint != allocations@[i as int].mint,
            decreases i - j,
        {
            if allocations[j].mint == alloc.mint {
                return Err(ErrorCode::InvalidStrategyConfig);
            }
            j = j + 1;
        }
        sum = sum + (alloc.weight_bps as u32);
        i = i + 1;
    }
    proof {
        assert(allocations@.take(n as int) =~= allocations@);
    }
    if sum != 10_000 {
        return Err(ErrorCode::InvalidStrategyConfig);
    }
    if whitelists.len() != n {
        return Err(ErrorCode::InvalidRemainingAccounts);
    }
    let mut k: usize = 0;
    while k < n
        invariant
            0 <= k <= n,
            n == allocations@.len(),
            n == whitelists@.len(),
            forall|t: int|
                0 <= t < k ==> ((#[trigger] whitelists@[t]).enabled && whitelists@[t].fund
                    == *fund_key && whitelists@[t].mint == allocations@[t].mint),
        decreases n - k,
    {
        let wl = &whitelists[k];
        if !wl.enabled || wl.fund != *fund_key || wl.mint != allocations[k].mint {
            return Err(ErrorCode::InvalidTokenVault);
        }
        k = k + 1;
    }
    let mut records: Vec<StrategyAllocation> = Vec::new();
    let mut m: usize = 0;
    while m < n
        invariant
            0 <= m <= n,
            n == allocations@.len(),
            records@ == spec_alloc_records(allocations@).take(m as int),
        decreases n - m,
    {
        let alloc = &allocations[m];
        records.push(StrategyAllocation { mint: alloc.mint, weight_bps: alloc.weight_bps });
        proof {
            assert(records@ =~= spec_alloc_records(allocations@).take(m + 1));
        }
        m = m + 1;
    }
    proof {
        assert(records@ =~= spec_alloc_records(allocations@));
        lemma_record_weight_sum(allocations@);
    }
    Ok(
        Strategy {
            fund: *fund_key,
            allocation_count: n as u8,
            allocations: records,
            rebalance_threshold_bps,
            rebalance_cooldown_secs,
            last_rebalance_ts: now,
            bump,
        },
    )
}

/// One (whitelist, token vault, token feed) triple of the leading
/// validation accounts of a rebalance.
#[derive(Clone, Debug)]
pub struct RebalanceEntry {
    pub whitelist: FundWhitelist,
    pub vault_addr: Address,
    pub vault: TokenAccountData,
    pub feed: FeedAccount,
}

/// What the scan learned about the rebalance target.
#[derive(Clone, Copy, PartialEq, Eq, Structural, Debug)]
pub struct TargetInfo {
    pub weight_bps: u16,
    pub actual_value: u64,
    pub token_amount: u64,
    pub decimals: u8,
    pub price: OracleReading,
}

/// The validation and pricing of one allocation's triple: the
/// whitelist must be live for the allocation's mint with the supplied
/// feed, the vault the fund's associated token account of that mint,
/// and the holding is priced in lamports.  When the entry is the
/// target, its vault must be the declared target vault.
pub open spec fn spec_rebalance_entry(
    fund_key: Address,
    pyth_program: Address,
    sol: OracleReading,
    now: i64,
    alloc: StrategyAllocation,
    e: RebalanceEntry,
    target_mint: Address,
    fund_token_vault_addr: Address,
) -> Result<(u64, Option<TargetInfo>), ErrorCode> {
    if !e.whitelist.enabled {
        Err(ErrorCode::InvalidTokenVault)
    } else if e.whitelist.fund != fund_key {
        Err(ErrorCode::InvalidTokenVault)
    } else if e.whitelist.mint != alloc.mint {
        Err(ErrorCode::InvalidTokenVault)
    } else if e.whitelist.pyth_feed != e.feed.addr {
        Err(ErrorCode::InvalidOracle)
    } else if e.feed.owner != pyth_program {
        Err(ErrorCode::InvalidOracle)
    } else if !ata_matches(spec_ata_address(fund_key, alloc.mint), e.vault_addr) {
        Err(ErrorCode::InvalidTokenVault)
    } else if e.vault.mint != alloc.mint {
        Err(ErrorCode::InvalidTokenVault)
    } else {
        match spec_load_price(e.feed.data@, now) {
            Err(c) => Err(c),
            Ok(tp) => match spec_token_to_sol(
                e.vault.amount,
                e.whitelist.decimals,
                tp.price,
                tp.expo,
                sol.price,
                sol.expo,
            ) {
                Err(c) => Err(c),
                Ok(v) => {
                    if alloc.mint == target_mint {
                        if e.vault_addr != fund_token_vault_addr {
                            Err(ErrorCode::InvalidTokenVault)
                        } else {
                            Ok(
                                (
                                    v,
                                    Some(
                                        TargetInfo {
                                            weight_bps: alloc.weight_bps,
                                            actual_value: v,
                                            token_amount: e.vault.amount,
                                            decimals: e.whitelist.decimals,
                                            price: tp,
                                        },
                                    ),
                                ),
                            )
                        }
                    } else {
                        Ok((v, None))
                    }
                },
            },
        }
    }
}

fn rebalance_entry(
    fund_key: &Address,
    pyth_program: &Address,
    sol: OracleReading,
    now: i64,
    alloc: &StrategyAllocation,
    e: &RebalanceEntry,
    target_mint: &Address,
    fund_token_vault_addr: &Address,
) -> (r: Result<(u64, Option<TargetInfo>), ErrorCode>)
    ensures
        r == spec_rebalance_entry(
            *fund_key,
            *pyth_program,
            sol,
            now,
            *alloc,
            *e,
            *target_mint,
            *fund_token_vault_addr,
        ),
{
    if !e.whitelist.enabled {
        return Err(ErrorCode::InvalidTokenVault);
    }
    if e.whitelist.fund != *fund_key {
        return Err(ErrorCode::InvalidTokenVault);
    }
    if e.whitelist.mint != alloc.mint {
        return Err(ErrorCode::InvalidTokenVault);
    }
    if e.whitelist.pyth_feed != e.feed.addr {
        return Err(ErrorCode::InvalidOracle);
    }
    if e.feed.owner != *pyth_program {
        return Err(ErrorCode::InvalidOracle);
    }
    let ata_ok = match derive_ata_address(fund_key, &alloc.mint) {
        Some(a) => a == e.vault_addr,
        None => false,
    };
    if !ata_ok {
        return Err(ErrorCode::InvalidTokenVault);
    }
    if e.vault.mint != alloc.mint {
        return Err(ErrorCode::InvalidTokenVault);
    }
    let tp = match load_price(&e.feed.data, now) {
        Ok(p) => p,
        Err(c) => { return Err(c) },
    };
    let v = match expected_sol_out_from_token(
        e.vault.amount,
        e.whitelist.decimals,
        tp.price,
        tp.expo,
        sol.price,
        sol.expo,
    ) {
        Ok(v) => v,
        Err(c) => { return Err(c) },
    };
    if alloc.mint == *target_mint {
        if e.vault_addr != *fund_token_vault_addr {
            return Err(ErrorCode::InvalidTokenVault);
        }
        Ok(
            (
                v,
                Some(
                    TargetInfo {
                        weight_bps: alloc.weight_bps,
                        actual_value: v,
                        token_amount: e.vault.amount,
                        decimals: e.whitelist.decimals,
                        price: tp,
                    },
                ),
            ),
        )
    } else {
        Ok((v, None))
    }
}

/// Left-to-right scan over the allocations and their triples: the
/// accumulated lamport value and the last target match.
pub open spec fn spec_rebalance_scan(
    fund_key: Address,
    pyth_program: Address,
    sol: OracleReading,
    now: i64,
    allocs: Seq<StrategyAllocation>,
    entries: Seq<RebalanceEntry>,
    target_mint: Address,
    fund_token_vault_addr: Address,
) -> Result<(int, Option<TargetInfo>), ErrorCode>
    decreases allocs.len(),
{
    if allocs.len() == 0 {
        Ok((0, None))
    } else {
        match spec_rebalance_scan(
            fund_key,
            pyth_program,
            sol,
            now,
            allocs.drop_last(),
            entries.take(allocs.len() - 1),
            target_mint,
            fund_token_vault_addr,
        ) {
            Err(c) => Err(c),
            Ok(acc) => match spec_rebalance_entry(
                fund_key,
                pyth_program,
                sol,
                now,
                allocs.last(),
                entries[allocs.len() - 1],
                target_mint,
                fund_token_vault_addr,
            ) {
                Err(c) => Err(c),
                Ok(ev) => Ok(
                    (
                        acc.0 + ev.0,
                        if ev.1 is Some {
                            ev.1
                        } else {
                            acc.1
                        },
                    ),
                ),
            },
        }
    }
}

proof fn lemma_rebalance_scan_extends(
    fund_key: Address,
    pyth_program: Address,
    sol: OracleReading,
    now: i64,
    allocs: Seq<StrategyAllocation>,
    entries: Seq<RebalanceEntry>,
    target_mint: Address,
    fund_token_vault_addr: Address,
    i: int,
)
    requires
        0 <= i <= allocs.len(),
        allocs.len() <= entries.len(),
        spec_rebalance_scan(
            fund_key,
            pyth_program,
            sol,
            now,
            allocs.take(i),
            entries.take(i),
            target_mint,
            fund_token_vault_addr,
        ) is Err,
    ensures
        spec_rebalance_scan(
            fund_key,
            pyth_program,
            sol,
            now,
            allocs,
            entries.take(allocs.len() as int),
            target_mint,
            fund_token_vault_addr,
        ) == spec_rebalance_scan(
            fund_key,
            pyth_program,
            sol,
            now,
            allocs.take(i),
            entries.take(i),
            target_mint,
            fund_token_vault_addr,
        ),
    decreases allocs.len(),
{
    if i < allocs.len() {
        assert(allocs.drop_last().take(i) =~= allocs.take(i));
        assert(entries.take(allocs.len() as int).take(allocs.len() - 1) =~= entries.take(
            allocs.len() - 1,
        ));
        assert(entries.take(allocs.len() - 1).take(i) =~= entries.take(i));
        lemma_rebalance_scan_extends(
            fund_key,
            pyth_program,
            sol,
            now,
            allocs.drop_last(),
            entries.take(allocs.len() - 1),
            target_mint,
            fund_token_vault_addr,
            i,
        );
        assert(entries.take(allocs.len() - 1).take(allocs.drop_last().len() as int) =~= entries.take(
            allocs.len() - 1,
        ));
    } else {
        assert(allocs.take(i) =~= allocs);
        assert(entries.take(allocs.len() as int).take(i) =~= entries.take(i));
    }
}

/// The pre-swap snapshot of a rebalance: direction, the amount to
/// spend or sell, and the balances and prices to diff against.
#[derive(Clone, Copy, PartialEq, Eq, Structural, Debug)]
pub struct RebalancePlan {
    pub is_buy: bool,
    pub spend_lamports: u64,
    pub sell_amount: u64,
    pub token_before: u64,
    pub sol_before: u64,
    pub target_decimals: u8,
    pub target_price: OracleReading,
    pub sol_price: OracleReading,
    pub min_out: u64,
    pub create_wsol_vault: bool,
}

/// The pre-swap phase of a keeper rebalance on a strategy fund: the
/// wrapped-native vault must be swept, the cooldown elapsed, every
/// allocation's triple valid and priced, and the target's deviation
/// from its weighted share of NAV strictly beyond the threshold.  An
/// underweight target spends the shortfall in lamports; an overweight
/// target sells the surplus, bounded by the actual holding.
pub open spec fn spec_rebalance_strategy_check(
    config: GlobalConfig,
    fund: FundState,
    strategy: Strategy,
    fund_key: Address,
    executor: Address,
    target_mint: Address,
    min_out: u64,
    swap_program: Address,
    swap_data: Seq<u8>,
    cpi_accounts: Seq<SwapAccount>,
    entries: Seq<RebalanceEntry>,
    fund_wsol_vault: TokenAccountSlot,
    sol_feed: FeedAccount,
    fund_vault_lamports: u64,
    fund_token_vault_addr: Address,
    now: i64,
) -> Result<RebalancePlan, ErrorCode> {
    if executor != config.keeper {
        Err(ErrorCode::Unauthorized)
    } else if min_out == 0 {
        Err(ErrorCode::InvalidMinOut)
    } else if fund.fund_type != FUND_TYPE_STRATEGY {
        Err(ErrorCode::InvalidFundType)
    } else if strategy.fund != fund_key {
        Err(ErrorCode::InvalidStrategyConfig)
    } else if strategy.allocation_count == 0 {
        Err(ErrorCode::InvalidStrategyConfig)
    } else if fund.enabled_token_count != strategy.allocation_count {
        Err(ErrorCode::InvalidStrategyConfig)
    } else if strategy.rebalance_cooldown_secs <= 0 {
        Err(ErrorCode::InvalidStrategyConfig)
    } else if !ata_matches(spec_ata_address(fund_key, spec_native_mint()), fund_wsol_vault.addr) {
        Err(ErrorCode::InvalidOrderVault)
    } else if (match fund_wsol_vault.account {
        None => 0u64,
        Some(v) => v.amount,
    }) != 0 {
        Err(ErrorCode::WsolNotCleared)
    } else if strategy.last_rebalance_ts + strategy.rebalance_cooldown_secs > i64::MAX {
        Err(ErrorCode::MathOverflow)
    } else if now < strategy.last_rebalance_ts + strategy.rebalance_cooldown_secs {
        Err(ErrorCode::RebalanceNotNeeded)
    } else if swap_data.len() == 0 {
        Err(ErrorCode::InvalidSwapProgram)
    } else if entries.len() == 0 && cpi_accounts.len() == 0 {
        Err(ErrorCode::InvalidSwapProgram)
    } else if swap_program != spec_swap_aggregator_id() {
        Err(ErrorCode::InvalidSwapProgram)
    } else if entries.len() != strategy.allocation_count {
        Err(ErrorCode::InvalidRemainingAccounts)
    } else if cpi_accounts.len() == 0 {
        Err(ErrorCode::InvalidSwapProgram)
    } else if sol_feed.addr != config.sol_usd_pyth_feed {
        Err(ErrorCode::InvalidOracle)
    } else if sol_feed.owner != config.pyth_program_id {
        Err(ErrorCode::InvalidOracle)
    } else {
        match spec_load_price(sol_feed.data@, now) {
            Err(c) => Err(c),
            Ok(sol) => {
                match spec_rebalance_scan(
                    fund_key,
                    config.pyth_program_id,
                    sol,
                    now,
                    strategy.allocations@.take(strategy.allocation_count as int),
                    entries.take(strategy.allocation_count as int),
                    target_mint,
                    fund_token_vault_addr,
                ) {
                    Err(c) => Err(c),
                    Ok(scan) => {
                        let nav = fund_vault_lamports + scan.0;
                        if nav <= 0 {
                            Err(ErrorCode::InvalidNav)
                        } else {
                            match scan.1 {
                                None => Err(ErrorCode::InvalidStrategyConfig),
                                Some(target) => {
                                    let target_value = nav * target.weight_bps / 10_000;
                                    let deviation = target.actual_value - target_value;
                                    let abs_deviation = if deviation >= 0 {
                                        deviation
                                    } else {
                                        -deviation
                                    };
                                    let threshold = nav * strategy.rebalance_threshold_bps
                                        / 10_000;
                                    if abs_deviation <= threshold {
                                        Err(ErrorCode::RebalanceNotNeeded)
                                    } else if !spec_has_account(
                                        cpi_accounts,
                                        fund_token_vault_addr,
                                        true,
                                    ) {
                                        Err(ErrorCode::InvalidTokenVault)
                                    } else if !spec_has_account(cpi_accounts, fund_key, false) {
                                        Err(ErrorCode::InvalidSwapProgram)
                                    } else if deviation < 0 {
                                        if !spec_has_account(cpi_accounts, fund.vault, true) {
                                            Err(ErrorCode::InvalidTokenVault)
                                        } else if !spec_has_account(
                                            cpi_accounts,
                                            fund_wsol_vault.addr,
                                            true,
                                        ) {
                                            Err(ErrorCode::InvalidOrderVault)
                                        } else {
                                            let spend = trunc_u64(abs_deviation);
                                            if fund_vault_lamports < spend {
                                                Err(ErrorCode::InsufficientLiquidity)
                                            } else {
                                                Ok(
                                                    RebalancePlan {
                                                        is_buy: true,
                                                        spend_lamports: spend,
                                                        sell_amount: 0,
                                                        token_before: target.token_amount,
                                                        sol_before: fund_vault_lamports,
                                                        target_decimals: target.decimals,
                                                        target_price: target.price,
                                                        sol_price: sol,
                                                        min_out,
                                                        create_wsol_vault: fund_wsol_vault.account
                                                            is None,
                                                    },
                                                )
                                            }
                                        }
                                    } else {
                                        if !spec_has_account(cpi_accounts, fund.vault, true) {
                                            Err(ErrorCode::InvalidTokenVault)
                                        } else {
                                            let desired_sol = trunc_u64(abs_deviation);
                                            match spec_sol_to_token(
                                                desired_sol,
                                                target.decimals,
                                                target.price.price,
                                                target.price.expo,
                                                sol.price,
                                                sol.expo,
                                            ) {
                                                Err(c) => Err(c),
                                                Ok(sell0) => {
                                                    let sell = if sell0 <= target.token_amount {
                                                        sell0
                                                    } else {
                                                        target.token_amount
                                                    };
                                                    if sell == 0 {
                                                        Err(ErrorCode::InvalidStrategyConfig)
                                                    } else {
                                                        Ok(
                                                            RebalancePlan {
                                                                is_buy: false,
                                                                spend_lamports: 0,
                                                                sell_amount: sell,
                                                                token_before: target.token_amount,
                                                                sol_before: fund_vault_lamports,
                                                                target_decimals: target.decimals,
                                                                target_price: target.price,
                                                                sol_price: sol,
                                                                min_out,
                                                                create_wsol_vault: false,
                                                            },
                                                        )
                                                    }
                                                },
                                            }
                                        }
                                    }
                                },
                            }
                        }
                    },
                }
            },
        }
    }
}

#[verifier::rlimit(100)]
#[verifier::loop_isolation(false)]
pub fn rebalance_strategy_check(
    config: &GlobalConfig,
    fund: &FundState,
    strategy: &Strategy,
    fund_key: &Address,
    executor: &Address,
    target_mint: &Address,
    min_out: u64,
    swap_program: &Address,
    swap_data: &Vec<u8>,
    cpi_accounts: &Vec<SwapAccount>,
    entries: &Vec<RebalanceEntry>,
    fund_wsol_vault: &TokenAccountSlot,
    sol_feed: &FeedAccount,
    fund_vault_lamports: u64,
    fund_token_vault_addr: &Address,
    now: i64,
) -> (r: Result<RebalancePlan, ErrorCode>)
    requires
        strategy.allocations@.len() == strategy.allocation_count,
    ensures
        r == spec_rebalance_strategy_check(
            *config,
            *fund,
            *strategy,
            *fund_key,
            *executor,
            *target_mint,
            min_out,
            *swap_program,
            swap_data@,
            cpi_accounts@,
            entries@,
            *fund_wsol_vault,
            *sol_feed,
            fund_vault_lamports,
            *fund_token_vault_addr,
            now,
        ),
{
    if *executor != config.keeper {
        return Err(ErrorCode::Unauthorized);
    }
    if min_out == 0 {
        return Err(ErrorCode::InvalidMinOut);
    }
    if fund.fund_type != FUND_TYPE_STRATEGY {
        return Err(ErrorCode::InvalidFundType);
    }
    if strategy.fund != *fund_key {
        return Err(ErrorCode::InvalidStrategyConfig);
    }
    if strategy.allocation_count == 0 {
        return Err(ErrorCode::InvalidStrategyConfig);
    }
    if fund.enabled_token_count != strategy.allocation_count as u16 {
        return Err(ErrorCode::InvalidStrategyConfig);
    }
    if strategy.rebalance_cooldown_secs <= 0 {
        return Err(ErrorCode::InvalidStrategyConfig);
    }
    let wsol_ata_ok = match derive_ata_address(fund_key, &native_mint()) {
        Some(a) => a == fund_wsol_vault.addr,
        None => false,
    };
    if !wsol_ata_ok {
        return Err(ErrorCode::InvalidOrderVault);
    }
    let wsol_amount = match fund_wsol_vault.account {
        None => 0u64,
        Some(v) => v.amount,
    };
    if wsol_amount != 0 {
        return Err(ErrorCode::WsolNotCleared);
    }
    let next_allowed = match strategy.last_rebalance_ts.checked_add(
        strategy.rebalance_cooldown_secs,
    ) {
        Some(v) => v,
        None => { return Err(ErrorCode::MathOverflow) },
    };
    if now < next_allowed {
        return Err(ErrorCode::RebalanceNotNeeded);
    }
    if swap_data.len() == 0 {
        return Err(ErrorCode::InvalidSwapProgram);
    }
    if entries.len() == 0 && cpi_accounts.len() == 0 {
        return Err(ErrorCode::InvalidSwapProgram);
    }
    if *swap_program != swap_aggregator_id() {
        return Err(ErrorCode::InvalidSwapProgram);
    }
    let n = strategy.allocation_count as usize;
    if entries.len() != n {
        return Err(ErrorCode::InvalidRemainingAccounts);
    }
    if cpi_accounts.len() == 0 {
        return Err(ErrorCode::InvalidSwapProgram);
    }
    if sol_feed.addr != config.sol_usd_pyth_feed {
        return Err(ErrorCode::InvalidOracle);
    }
    if sol_feed.owner != config.pyth_program_id {
        return Err(ErrorCode::InvalidOracle);
    }
    let sol = match load_price(&sol_feed.data, now) {
        Ok(p) => p,
        Err(c) => { return Err(c) },
    };
    let ghost allocs_full: Seq<StrategyAllocation> = strategy.allocations@.take(n as int);
    let ghost entries_full: Seq<RebalanceEntry> = entries@.take(n as int);
    proof {
        assert(allocs_full =~= strategy.allocations@);
        assert(entries_full =~= entries@);
    }
    let mut acc: i128 = 0;
    let mut target: Option<TargetInfo> = None;
    let mut i: usize = 0;
    while i < n
        invariant
            0 <= i <= n,
            spec_rebalance_scan(
                *fund_key,
                config.pyth_program_id,
                sol,
                now,
                strategy.allocations@.take(i as int),
                entries@.take(i as int),
                *target_mint,
                *fund_token_vault_addr,
            ) == Ok::<(int, Option<TargetInfo>), ErrorCode>((acc as int, target)),
            0 <= acc <= i * 0xffff_ffff_ffff_ffffu64,
        decreases n - i,
    {
        proof {
            assert(strategy.allocations@.take(i + 1).drop_last() =~= strategy.allocations@.take(
                i as int,
            ));
            assert(entries@.take(i + 1).take(i as int) =~= entries@.take(i as int));
            assert(strategy.allocations@.take(i + 1).last() == strategy.allocations@[i as int]);
            assert(entries@.take(i + 1)[i as int] == entries@[i as int]);
        }
        let alloc = &strategy.allocations[i];
        let e = &entries[i];
        let (value, tcur) = match rebalance_entry(
            fund_key,
            &config.pyth_program_id,
            sol,
            now,
            alloc,
            e,
            target_mint,
            fund_token_vault_addr,
        ) {
            Ok(p) => p,
            Err(c) => {
                proof {
                    lemma_rebalance_scan_extends(
                        *fund_key,
                        config.pyth_program_id,
                        sol,
                        now,
                        strategy.allocations@,
                        entries@,
                        *target_mint,
                        *fund_token_vault_addr,
                        i + 1,
                    );
                }
                return Err(c);
            },
        };
        acc = acc + (value as i128);
        if tcur.is_some() {
            target = tcur;
        }
        i = i + 1;
    }
    let nav: i128 = (fund_vault_lamports as i128) + acc;
    if nav <= 0 {
        return Err(ErrorCode::InvalidNav);
    }
    let target = match target {
        None => { return Err(ErrorCode::InvalidStrategyConfig) },
        Some(t) => t,
    };
    proof {
        vstd::arithmetic::mul::lemma_mul_upper_bound(
            nav as int,
            0x200_0000_0000_0000_0000i128 as int,
            target.weight_bps as int,
            0x1_0000,
        );
        vstd::arithmetic::mul::lemma_mul_nonnegative(nav as int, target.weight_bps as int);
        vstd::arithmetic::div_mod::lemma_div_is_ordered(
            0,
            (nav as int) * (target.weight_bps as int),
            10_000,
        );
        vstd::arithmetic::mul::lemma_mul_nonnegative(
            nav as int,
            strategy.rebalance_threshold_bps as int,
        );
        vstd::arithmetic::mul::lemma_mul_upper_bound(
            nav as int,
            0x200_0000_0000_0000_0000i128 as int,
            strategy.rebalance_threshold_bps as int,
            0x1_0000,
        );
        vstd::arithmetic::div_mod::lemma_div_is_ordered(
            0,
            (nav as int) * (strategy.rebalance_threshold_bps as int),
            10_000,
        );
    }
    let target_value: i128 = nav * (target.weight_bps as i128) / 10_000;
    let deviation: i128 = (target.actual_value as i128) - target_value;
    let abs_deviation: i128 = if deviation >= 0 {
        deviation
    } else {
        -deviation
    };
    let threshold: i128 = nav * (strategy.rebalance_threshold_bps as i128) / 10_000;
    if abs_deviation <= threshold {
        return Err(ErrorCode::RebalanceNotNeeded);
    }
    if !has_account(cpi_accounts, fund_token_vault_addr, true) {
        return Err(ErrorCode::InvalidTokenVault);
    }
    if !has_account(cpi_accounts, fund_key, false) {
        return Err(ErrorCode::InvalidSwapProgram);
    }
    if deviation < 0 {
        if !has_account(cpi_accounts, &fund.vault, true) {
            return Err(ErrorCode::InvalidTokenVault);
        }
        if !has_account(cpi_accounts, &fund_wsol_vault.addr, true) {
            return Err(ErrorCode::InvalidOrderVault);
        }
        let spend: u64 = ((abs_deviation as u128) % 0x1_0000_0000_0000_0000u128) as u64;
        if fund_vault_lamports < spend {
            return Err(ErrorCode::InsufficientLiquidity);
        }
        Ok(
            RebalancePlan {
                is_buy: true,
                spend_lamports: spend,
                sell_amount: 0,
                token_before: target.token_amount,
                sol_before: fund_vault_lamports,
                target_decimals: target.decimals,
                target_price: target.price,
                sol_price: sol,
                min_out,
                create_wsol_vault: fund_wsol_vault.account.is_none(),
            },
        )
    } else {
        if !has_account(cpi_accounts, &fund.vault, true) {
            return Err(ErrorCode::InvalidTokenVault);
        }
        let desired_sol: u64 = ((abs_deviation as u128) % 0x1_0000_0000_0000_0000u128) as u64;
        let sell0 = match expected_token_out_from_sol(
            desired_sol,
            target.decimals,
            target.price.price,
            target.price.expo,
            sol.price,
            sol.expo,
        ) {
            Ok(v) => v,
            Err(c) => { return Err(c) },
        };
        let sell_amount = if sell0 <= target.token_amount {
            sell0
        } else {
            target.token_amount
        };
        if sell_amount == 0 {
            return Err(ErrorCode::InvalidStrategyConfig);
        }
        Ok(
            RebalancePlan {
                is_buy: false,
                spend_lamports: 0,
                sell_amount,
                token_before: target.token_amount,
                sol_before: fund_vault_lamports,
                target_decimals: target.decimals,
                target_price: target.price,
                sol_price: sol,
                min_out,
                create_wsol_vault: false,
            },
        )
    }
}

/// What the post-swap phase of a rebalance verified.
#[derive(Clone, Copy, PartialEq, Eq, Structural, Debug)]
pub struct RebalanceOutcome {
    pub output_delta: u64,
    pub min_expected: u64,
    pub tokens_sold: u64,
}

/// `b` is `a` with only the rebalance clock moved to `ts`.
pub open spec fn spec_strategy_with_ts(a: Strategy, b: Strategy, ts: i64) -> bool {
    &&& a.fund == b.fund
    &&& a.allocation_count == b.allocation_count
    &&& a.allocations@ == b.allocations@
    &&& a.rebalance_threshold_bps == b.rebalance_threshold_bps
    &&& a.rebalance_cooldown_secs == b.rebalance_cooldown_secs
    &&& a.last_rebalance_ts == ts
    &&& a.bump == b.bump
}

/// Tolerated token dust above the intended sell amount.
pub const SELL_DUST_TOLERANCE: u64 = 2;

/// The post-swap phase of a rebalance.  A buy must have gained at
/// least the oracle-expected tokens for the spend under the slippage
/// cap and the caller minimum; a sell must have parted with at least
/// one and at most `sell_amount` plus dust tokens, and gained at least
/// the expected lamports for what was actually sold.  The rebalance
/// clock then moves to `now`.
pub open spec fn spec_rebalance_strategy_settle(
    config: GlobalConfig,
    plan: RebalancePlan,
    token_after: u64,
    sol_after: u64,
) -> Result<RebalanceOutcome, ErrorCode> {
    if plan.is_buy {
        if token_after < plan.token_before {
            Err(ErrorCode::MathOverflow)
        } else {
            match spec_sol_to_token(
                plan.spend_lamports,
                plan.target_decimals,
                plan.target_price.price,
                plan.target_price.expo,
                plan.sol_price.price,
                plan.sol_price.expo,
            ) {
                Err(c) => Err(c),
                Ok(expected_out) => match spec_apply_max_slippage(
                    expected_out,
                    config.max_slippage_bps,
                ) {
                    Err(c) => Err(c),
                    Ok(min_expected) => {
                        let delta = (token_after - plan.token_before) as u64;
                        if delta < min_expected {
                            Err(ErrorCode::InvalidTokenVault)
                        } else if delta < plan.min_out {
                            Err(ErrorCode::InvalidTokenVault)
                        } else {
                            Ok(
                                RebalanceOutcome {
                                    output_delta: delta,
                                    min_expected,
                                    tokens_sold: 0,
                                },
                            )
                        }
                    },
                },
            }
        }
    } else {
        if token_after > plan.token_before {
            Err(ErrorCode::InvalidTokenVault)
        } else {
            let actual_sold = (plan.token_before - token_after) as u64;
            if actual_sold == 0 {
                Err(ErrorCode::InvalidTokenVault)
            } else if plan.sell_amount + SELL_DUST_TOLERANCE > u64::MAX {
                Err(ErrorCode::MathOverflow)
            } else if actual_sold > plan.sell_amount + SELL_DUST_TOLERANCE {
                Err(ErrorCode::InvalidTokenVault)
            } else if sol_after < plan.sol_before {
                Err(ErrorCode::MathOverflow)
            } else {
                let sol_delta = (sol_after - plan.sol_before) as u64;
                match spec_token_to_sol(
                    actual_sold,
                    plan.target_decimals,
                    plan.target_price.price,
                    plan.target_price.expo,
                    plan.sol_price.price,
                    plan.sol_price.expo,
                ) {
                    Err(c) => Err(c),
                    Ok(expected_out) => match spec_apply_max_slippage(
                        expected_out,
                        config.max_slippage_bps,
                    ) {
                        Err(c) => Err(c),
                        Ok(min_expected) => {
                            if sol_delta < min_expected {
                                Err(ErrorCode::InvalidTokenVault)
                            } else if sol_delta < plan.min_out {
                                Err(ErrorCode::InvalidTokenVault)
                            } else {
                                Ok(
                                    RebalanceOutcome {
                                        output_delta: sol_delta,
                                        min_expected,
                                        tokens_sold: actual_sold,
                                    },
                                )
                            }
                        },
                    },
                }
            }
        }
    }
}

pub fn rebalance_strategy_settle(
    config: &GlobalConfig,
    strategy: &mut Strategy,
    plan: &RebalancePlan,
    token_after: u64,
    sol_after: u64,
    now: i64,
) -> (r: Result<RebalanceOutcome, ErrorCode>)
    ensures
        (match r {
            Ok(o) => spec_rebalance_strategy_settle(*config, *plan, token_after, sol_after) == Ok::<
                RebalanceOutcome,
                ErrorCode,
            >(o) && spec_strategy_with_ts(*final(strategy), *old(strategy), now),
            Err(e) => spec_rebalance_strategy_settle(*config, *plan, token_after, sol_after) == Err::<
                RebalanceOutcome,
                ErrorCode,
            >(e) && spec_strategy_with_ts(*final(strategy), *old(strategy), old(
                strategy,
            ).last_rebalance_ts),
        }),
{
    let outcome: RebalanceOutcome;
    if plan.is_buy {
        let delta = match token_after.checked_sub(plan.token_before) {
            Some(v) => v,
            None => { return Err(ErrorCode::MathOverflow) },
        };
        let expected_out = match expected_token_out_from_sol(
            plan.spend_lamports,
            plan.target_decimals,
            plan.target_price.price,
            plan.target_price.expo,
            plan.sol_price.price,
            plan.sol_price.expo,
        ) {
            Ok(v) => v,
            Err(c) => { return Err(c) },
        };
        let min_expected = match apply_max_slippage(expected_out, config.max_slippage_bps) {
            Ok(v) => v,
            Err(c) => { return Err(c) },
        };
        if delta < min_expected {
            return Err(ErrorCode::InvalidTokenVault);
        }
        if delta < plan.min_out {
            return Err(ErrorCode::InvalidTokenVault);
        }
        outcome = RebalanceOutcome { output_delta: delta, min_expected, tokens_sold: 0 };
    } else {
        if token_after > plan.token_before {
            return Err(ErrorCode::InvalidTokenVault);
        }
        let actual_sold = plan.token_before - token_after;
        if actual_sold == 0 {
            return Err(ErrorCode::InvalidTokenVault);
        }
        let sell_max = match plan.sell_amount.checked_add(SELL_DUST_TOLERANCE) {
            Some(v) => v,
            None => { return Err(ErrorCode::MathOverflow) },
        };
        if actual_sold > sell_max {
            return Err(ErrorCode::InvalidTokenVault);
        }
        let sol_delta = match sol_after.checked_sub(plan.sol_before) {
            Some(v) => v,
            None => { return Err(ErrorCode::MathOverflow) },
        };
        let expected_out = match expected_sol_out_from_token(
            actual_sold,
            plan.target_decimals,
            plan.target_price.price,
            plan.target_price.expo,
            plan.sol_price.price,
            plan.sol_price.expo,
        ) {
            Ok(v) => v,
            Err(c) => { return Err(c) },
        };
        let min_expected = match apply_max_slippage(expected_out, config.max_slippage_bps) {
            Ok(v) => v,
            Err(c) => { return Err(c) },
        };
        if sol_delta < min_expected {
            return Err(ErrorCode::InvalidTokenVault);
        }
        if sol_delta < plan.min_out {
            return Err(ErrorCode::InvalidTokenVault);
        }
        outcome = RebalanceOutcome {
            output_delta: sol_delta,
            min_expected,
            tokens_sold: actual_sold,
        };
    }
    strategy.last_rebalance_ts = now;
    Ok(outcome)
}

} // verus!
