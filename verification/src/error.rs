use vstd::prelude::*;

verus! {

/// Every way an instruction of the exchange can be refused.
#[derive(Clone, Copy, Debug, PartialEq, Eq)]
pub enum PerpDexError {
    // Market errors
    MarketNotFound,
    MarketAlreadyExists,
    InvalidMarketConfig,
    MarketPaused,
    StaleOraclePrice,
    OraclePriceDeviationTooLarge,
    // Order errors
    InvalidOrderSize,
    InvalidOrderPrice,
    OrderNotFound,
    OrderAlreadyFilled,
    OrderAlreadyCancelled,
    CannotCancelFilledOrder,
    OrderSizeExceedsLimit,
    InvalidOrderSide,
    InvalidOrderType,
    // Position errors
    PositionNotFound,
    InsufficientMargin,
    PositionSizeExceedsMaxLeverage,
    PositionUnhealthy,
    CannotClosePositionWithOpenOrders,
    PositionAlreadyLiquidated,
    InvalidPositionSize,
    // Funding errors
    FundingRateUpdateTooFrequent,
    InvalidFundingRate,
    FundingPaymentError,
    // Liquidation errors
    PositionNotLiquidatable,
    LiquidationSizeExceedsMax,
    InsufficientInsuranceFund,
    LiquidationBonusExceedsLimit,
    // User / account errors
    Unauthorized,
    UserNotInitialized,
    InsufficientCollateral,
    InvalidCollateralToken,
    AccountOverflow,
    AccountUnderflow,
    // Math errors
    DivisionByZero,
    MathOverflow,
    MathUnderflow,
    InvalidCalculation,
    // AMM errors
    InsufficientAMMLiquidity,
    InvalidAMMParameters,
    AMMPriceImpactTooLarge,
    AMMInvariantViolation,
    // Insurance fund errors
    InsuranceFundInsufficient,
    InvalidInsuranceFundOperation,
    // General errors
    InvalidAccountState,
    OperationNotAllowed,
    InvalidTimestamp,
    SystemError,
}

} // verus!
