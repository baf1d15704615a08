use vstd::prelude::*;

verus! {

/// The flat error taxonomy of the fund program.  Every handler reports a
/// failure through exactly one of these codes; the contracts below state,
/// for each handler, which inputs produce which code.
#[derive(Clone, Copy, PartialEq, Eq, Structural, Debug)]
pub enum ErrorCode {
    InvalidFeeBps,
    InvalidTimelock,
    InvalidRemainingAccounts,
    InvalidWhitelistOrder,
    StaleOracle,
    InvalidOracle,
    InvalidOracleConfidence,
    InvalidNav,
    MathOverflow,
    InvalidTokenVault,
    DepositTooSmall,
    InvalidWithdrawal,
    InsufficientShares,
    WithdrawTimelock,
    InsufficientLiquidity,
    Unauthorized,
    InvalidScope,
    AlreadyInitialized,
    FundLocked,
    FundNotLocked,
    MissingSettleInstruction,
    InvalidSettleInstruction,
    InvalidReceiver,
    InvalidMinOut,
    ZeroShares,
    TokenVaultNotEmpty,
    OrderNotOpen,
    OrderExpired,
    OrderNotTriggered,
    InvalidOrderVault,
    InvalidOrderSide,
    InvalidSwapProgram,
    InvalidDcaInterval,
    InvalidDcaSlice,
    DcaNotReady,
    DcaCompleted,
    MaxActiveDca,
    InvalidKeeper,
    InvalidFundType,
    InvalidStrategyConfig,
    RebalanceNotNeeded,
    WsolNotCleared,
}

impl ErrorCode {
    /// A short stable name for the code, for logs and diagnostics.
    pub fn name(&self) -> String {
        match self {
            ErrorCode::InvalidFeeBps => "InvalidFeeBps".to_string(),
            ErrorCode::InvalidTimelock => "InvalidTimelock".to_string(),
            ErrorCode::InvalidRemainingAccounts => "InvalidRemainingAccounts".to_string(),
            ErrorCode::InvalidWhitelistOrder => "InvalidWhitelistOrder".to_string(),
            ErrorCode::StaleOracle => "StaleOracle".to_string(),
            ErrorCode::InvalidOracle => "InvalidOracle".to_string(),
            ErrorCode::InvalidOracleConfidence => "InvalidOracleConfidence".to_string(),
            ErrorCode::InvalidNav => "InvalidNav".to_string(),
            ErrorCode::MathOverflow => "MathOverflow".to_string(),
            ErrorCode::InvalidTokenVault => "InvalidTokenVault".to_string(),
            ErrorCode::DepositTooSmall => "DepositTooSmall".to_string(),
            ErrorCode::InvalidWithdrawal => "InvalidWithdrawal".to_string(),
            ErrorCode::InsufficientShares => "InsufficientShares".to_string(),
            ErrorCode::WithdrawTimelock => "WithdrawTimelock".to_string(),
            ErrorCode::InsufficientLiquidity => "InsufficientLiquidity".to_string(),
            ErrorCode::Unauthorized => "Unauthorized".to_string(),
            ErrorCode::InvalidScope => "InvalidScope".to_string(),
            ErrorCode::AlreadyInitialized => "AlreadyInitialized".to_string(),
            ErrorCode::FundLocked => "FundLocked".to_string(),
            ErrorCode::FundNotLocked => "FundNotLocked".to_string(),
            ErrorCode::MissingSettleInstruction => "MissingSettleInstruction".to_string(),
            ErrorCode::InvalidSettleInstruction => "InvalidSettleInstruction".to_string(),
            ErrorCode::InvalidReceiver => "InvalidReceiver".to_string(),
            ErrorCode::InvalidMinOut => "InvalidMinOut".to_string(),
            ErrorCode::ZeroShares => "ZeroShares".to_string(),
            ErrorCode::TokenVaultNotEmpty => "TokenVaultNotEmpty".to_string(),
            ErrorCode::OrderNotOpen => "OrderNotOpen".to_string(),
            ErrorCode::OrderExpired => "OrderExpired".to_string(),
            ErrorCode::OrderNotTriggered => "OrderNotTriggered".to_string(),
            ErrorCode::InvalidOrderVault => "InvalidOrderVault".to_string(),
            ErrorCode::InvalidOrderSide => "InvalidOrderSide".to_string(),
            ErrorCode::InvalidSwapProgram => "InvalidSwapProgram".to_string(),
            ErrorCode::InvalidDcaInterval => "InvalidDcaInterval".to_string(),
            ErrorCode::InvalidDcaSlice => "InvalidDcaSlice".to_string(),
            ErrorCode::DcaNotReady => "DcaNotReady".to_string(),
            ErrorCode::DcaCompleted => "DcaCompleted".to_string(),
            ErrorCode::MaxActiveDca => "MaxActiveDca".to_string(),
            ErrorCode::InvalidKeeper => "InvalidKeeper".to_string(),
            ErrorCode::InvalidFundType => "InvalidFundType".to_string(),
            ErrorCode::InvalidStrategyConfig => "InvalidStrategyConfig".to_string(),
            ErrorCode::RebalanceNotNeeded => "RebalanceNotNeeded".to_string(),
            ErrorCode::WsolNotCleared => "WsolNotCleared".to_string(),
        }
    }
}

} // verus!
