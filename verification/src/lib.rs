//! Verified core of an on-chain fund manager.
//!
//! Investors pool a base currency (lamports) into per-fund vaults and hold
//! fungible shares of a multi-asset portfolio.  This crate holds the
//! program's decision logic — net-asset-value computation, share
//! accounting, order lifecycles, borrow/settle trading discipline and
//! strategy rebalancing — as verified functions over a plain data model of
//! the on-chain accounts.  Chain-side work (account loading, lamport and
//! token transfers, cross-program invocations) is described by the
//! outcomes these functions return and is performed by the runtime.

pub mod addr;
pub mod admin;
pub mod borrow_settle;
pub mod dca;
pub mod deposit;
pub mod errors;
pub mod fund_init;
pub mod laws;
pub mod limit;
pub mod math;
pub mod nav;
pub mod oracle;
pub mod pda;
pub mod state;
pub mod strategy_ops;
pub mod sweep;
pub mod whitelist_ops;
pub mod withdraw;

pub use addr::Address;
pub use errors::ErrorCode;
