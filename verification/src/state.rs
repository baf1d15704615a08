use vstd::prelude::*;
use crate::addr::Address;

verus! {

// Fund kinds.
pub const FUND_TYPE_TRADING: u8 = 0;
pub const FUND_TYPE_STRATEGY: u8 = 1;

// Limit-order lifecycle.
pub const ORDER_STATUS_OPEN: u8 = 0;
pub const ORDER_STATUS_EXECUTED: u8 = 1;
pub const ORDER_STATUS_CANCELLED: u8 = 2;
pub const SIDE_BUY: u8 = 0;
pub const SIDE_SELL: u8 = 1;

// DCA-order lifecycle (same encoding, kept under its own names).
pub const DCA_STATUS_OPEN: u8 = 0;
pub const DCA_STATUS_EXECUTED: u8 = 1;
pub const DCA_STATUS_CANCELLED: u8 = 2;
pub const DCA_SIDE_BUY: u8 = 0;
pub const DCA_SIDE_SELL: u8 = 1;

pub const MAX_STRATEGY_TOKENS: usize = 8;
pub const MAX_ACTIVE_DCA: u16 = 20;


/// Admin-owned global parameters, one per config id.
#[derive(Clone, Copy, PartialEq, Eq, Structural, Debug)]
pub struct GlobalConfig {
    pub config_id: u64,
    pub admin: Address,
    pub keeper: Address,
    pub fee_treasury: Address,
    pub sol_usd_pyth_feed: Address,
    pub pyth_program_id: Address,
    pub deposit_fee_bps: u16,
    pub withdraw_fee_bps: u16,
    pub trade_fee_bps: u16,
    pub max_manager_fee_bps: u16,
    pub max_slippage_bps: u16,
    pub min_manager_deposit_lamports: u64,
    pub min_withdraw_timelock_secs: i64,
    pub max_withdraw_timelock_secs: i64,
    pub bump: u8,
}

impl GlobalConfig {
    /// Parameter bounds that hold of every config the admin can create.
    pub open spec fn wf(self) -> bool {
        &&& self.deposit_fee_bps <= 10_000
        &&& self.withdraw_fee_bps <= 10_000
        &&& self.trade_fee_bps <= 10_000
        &&& self.max_manager_fee_bps <= 10_000
        &&& self.max_slippage_bps <= 10_000
        &&& self.min_withdraw_timelock_secs >= 0
        &&& self.max_withdraw_timelock_secs >= self.min_withdraw_timelock_secs
    }
}

/// Per-fund state, one per (config, manager, fund id).
#[derive(Clone, Copy, PartialEq, Eq, Structural, Debug)]
pub struct FundState {
    pub config: Address,
    pub manager: Address,
    pub fund_id: u64,
    pub fund_type: u8,
    pub share_mint: Address,
    pub vault: Address,
    pub total_shares: u64,
    pub manager_fee_bps: u16,
    pub min_investor_deposit_lamports: u64,
    pub withdraw_timelock_secs: i64,
    pub enabled_token_count: u16,
    pub active_limit_count: u16,
    pub active_dca_count: u16,
    pub next_order_id: u64,
    pub bump: u8,
    pub share_mint_bump: u8,
    pub vault_bump: u8,
}

/// Marker for the fund's rent-exempt base-currency vault account; the
/// vault carries no fields of its own, only a lamport balance.
#[derive(Clone, Copy, PartialEq, Eq, Structural, Debug)]
pub struct FundVault {}

/// Borrow/settle escrow record of a trading fund.  While `is_locked`, a
/// borrow is outstanding and only the matching settle may close it.
#[derive(Clone, Copy, PartialEq, Eq, Structural, Debug)]
pub struct Trading {
    pub fund: Address,
    pub is_locked: bool,
    pub borrow_amount: u64,
    pub expected_min_out: u64,
    pub snapshot_sol: u64,
    pub snapshot_output: u64,
    pub output_mint: Address,
    pub bump: u8,
}

impl Trading {
    /// The unlocked state: no borrow outstanding, all snapshots cleared.
    pub open spec fn spec_cleared(fund: Address, bump: u8) -> Trading {
        Trading {
            fund,
            is_locked: false,
            borrow_amount: 0,
            expected_min_out: 0,
            snapshot_sol: 0,
            snapshot_output: 0,
            output_mint: Address::spec_zero(),
            bump,
        }
    }
}

/// Manager opt-in of a mint for one fund.
#[derive(Clone, Copy, PartialEq, Eq, Structural, Debug)]
pub struct FundWhitelist {
    pub fund: Address,
    pub mint: Address,
    pub decimals: u8,
    pub pyth_feed: Address,
    pub enabled: bool,
    pub bump: u8,
}

/// Admin-approved catalog entry for a mint, per config.
#[derive(Clone, Copy, PartialEq, Eq, Structural, Debug)]
pub struct GlobalWhitelist {
    pub config: Address,
    pub mint: Address,
    pub decimals: u8,
    pub pyth_feed: Address,
    pub enabled: bool,
    pub bump: u8,
}

/// Open two-phase withdrawal declaration, at most one per (fund, investor).
#[derive(Clone, Copy, PartialEq, Eq, Structural, Debug)]
pub struct WithdrawRequest {
    pub fund: Address,
    pub investor: Address,
    pub shares: u64,
    pub request_ts: i64,
    pub bump: u8,
}

/// One-shot price-triggered order against the external swap program.
#[derive(Clone, Copy, PartialEq, Eq, Structural, Debug)]
pub struct LimitOrder {
    pub fund: Address,
    pub side: u8,
    pub mint: Address,
    pub amount_in: u64,
    pub min_out: u64,
    pub limit_price: i64,
    pub price_expo: i32,
    pub price_feed: Address,
    pub pyth_program_id: Address,
    pub created_ts: i64,
    pub expiry_ts: i64,
    pub status: u8,
    pub bump: u8,
}

/// Time-sliced multi-shot order against the external swap program.
#[derive(Clone, Copy, PartialEq, Eq, Structural, Debug)]
pub struct DcaOrder {
    pub fund: Address,
    pub side: u8,
    pub mint: Address,
    pub total_amount: u64,
    pub slice_amount: u64,
    pub remaining_amount: u64,
    pub interval_secs: i64,
    pub next_exec_ts: i64,
    pub min_out: u64,
    pub price_feed: Address,
    pub pyth_program_id: Address,
    pub expiry_ts: i64,
    pub status: u8,
    pub bump: u8,
}

/// One (mint, weight) entry of a strategy's target allocation.
#[derive(Clone, Copy, PartialEq, Eq, Structural, Debug)]
pub struct StrategyAllocation {
    pub mint: Address,
    pub weight_bps: u16,
}

/// The input form of an allocation, as the manager submits it.
#[derive(Clone, Copy, PartialEq, Eq, Structural, Debug)]
pub struct StrategyAllocationInput {
    pub mint: Address,
    pub weight_bps: u16,
}

/// Target allocation of a strategy fund: up to eight weighted mints
/// summing to exactly 10 000 bps, plus the rebalance trigger parameters.
#[derive(Clone, Debug)]
pub struct Strategy {
    pub fund: Address,
    pub allocation_count: u8,
    pub allocations: Vec<StrategyAllocation>,
    pub rebalance_threshold_bps: u16,
    pub rebalance_cooldown_secs: i64,
    pub last_rebalance_ts: i64,
    pub bump: u8,
}

/// Sum of the weights of a sequence of allocations.
pub open spec fn spec_weight_sum(allocs: Seq<StrategyAllocation>) -> int
    decreases allocs.len(),
{
    if allocs.len() == 0 {
        0
    } else {
        spec_weight_sum(allocs.drop_last()) + allocs.last().weight_bps
    }
}

/// No two allocations name the same mint.
pub open spec fn spec_mints_unique(allocs: Seq<StrategyAllocation>) -> bool {
    forall|i: int, j: int|
        0 <= i < j < allocs.len() ==> allocs[i].mint != allocs[j].mint
}

impl Strategy {
    /// The structural invariant of a stored strategy: the weights sum to
    /// exactly 10 000 bps, each weight is positive, the mints are unique,
    /// and at most eight allocations are present.
    pub open spec fn wf(self) -> bool {
        &&& self.allocation_count == self.allocations@.len()
        &&& 1 <= self.allocations@.len() <= MAX_STRATEGY_TOKENS
        &&& spec_weight_sum(self.allocations@) == 10_000
        &&& forall|i: int|
            0 <= i < self.allocations@.len() ==> #[trigger] self.allocations@[i].weight_bps > 0
        &&& spec_mints_unique(self.allocations@)
        &&& self.rebalance_cooldown_secs > 0
        &&& self.rebalance_threshold_bps <= 10_000
    }
}

/// The fields of a fungible-token account that the logic reads: its mint,
/// its owning authority and its balance in token minor units.
#[derive(Clone, Copy, PartialEq, Eq, Structural, Debug)]
pub struct TokenAccountData {
    pub mint: Address,
    pub owner: Address,
    pub amount: u64,
}

/// A token account slot supplied to a handler: the account's address, the
/// program that owns the account data, and the decoded contents — `None`
/// while the account does not exist yet.
#[derive(Clone, Copy, PartialEq, Eq, Structural, Debug)]
pub struct TokenAccountSlot {
    pub addr: Address,
    pub program_owner: Address,
    pub account: Option<TokenAccountData>,
}

/// A plain system account slot: address, owning program and balance.
#[derive(Clone, Copy, PartialEq, Eq, Structural, Debug)]
pub struct SystemAccountSlot {
    pub addr: Address,
    pub owner: Address,
    pub lamports: u64,
}

/// One account of the caller-assembled list handed through to the
/// external swap invocation.
#[derive(Clone, Copy, PartialEq, Eq, Structural, Debug)]
pub struct SwapAccount {
    pub addr: Address,
    pub is_writable: bool,
    pub is_signer: bool,
}

/// One instruction of the executing transaction, as transaction
/// introspection reports it: the invoked program, its data bytes and the
/// declared account addresses in order.
#[derive(Clone, Debug)]
pub struct InstructionView {
    pub program_id: Address,
    pub data: Vec<u8>,
    pub accounts: Vec<Address>,
}

} // verus!
