//! Constants, the two tags of a deal, and the engine's error kinds.

use vstd::prelude::*;

verus! {

/// Schema version written into every market and deal record.
pub const VERSION: u8 = 1;

/// Deal schema version that `open_deal` accepts.
pub const DEAL_VERSION: u8 = 1;

/// 10000 basis points are 100%.
pub const BPS_DENOMINATOR: u64 = 10_000;

/// Capacity of a market's list of additional collateral assets.
pub const MAX_COLLATERALS: usize = 4;

/// Largest fee a market may charge: 10%.
pub const MAX_FEE_BPS: u16 = 1000;

/// Price exponent of a freshly created market: six decimal places.
pub const DEFAULT_PRICE_EXPONENT: i32 = -6;

/// How a deal settles: by paying the price difference, or by delivering the
/// receipt asset against payment of the strike.
#[derive(Clone, Copy, Debug, PartialEq, Eq, Structural)]
pub enum SettlementKind {
    Cash,
    Physical,
}

impl SettlementKind {
    /// The tag by which observers are told the kind.
    pub open spec fn spec_code(self) -> u8 {
        match self {
            SettlementKind::Cash => 0,
            SettlementKind::Physical => 1,
        }
    }

    #[verifier::when_used_as_spec(spec_code)]
    pub fn code(self) -> (c: u8)
        ensures
            c == self.spec_code(),
    {
        match self {
            SettlementKind::Cash => 0,
            SettlementKind::Physical => 1,
        }
    }
}

/// The two sides of a deal.
#[derive(Clone, Copy, Debug, PartialEq, Eq, Structural)]
pub enum Side {
    Long,
    Short,
}

impl Side {
    pub open spec fn spec_opposite(self) -> Side {
        match self {
            Side::Long => Side::Short,
            Side::Short => Side::Long,
        }
    }

    /// The other side.
    #[verifier::when_used_as_spec(spec_opposite)]
    pub fn opposite(self) -> (other: Side)
        ensures
            other == self.spec_opposite(),
    {
        match self {
            Side::Long => Side::Short,
            Side::Short => Side::Long,
        }
    }

    /// The tag by which observers are told the side.
    pub open spec fn spec_code(self) -> u8 {
        match self {
            Side::Long => 0,
            Side::Short => 1,
        }
    }

    #[verifier::when_used_as_spec(spec_code)]
    pub fn code(self) -> (c: u8)
        ensures
            c == self.spec_code(),
    {
        match self {
            Side::Long => 0,
            Side::Short => 1,
        }
    }
}

/// Why an operation was rejected. A rejected operation changes nothing.
#[derive(Clone, Copy, Debug, PartialEq, Eq, Structural)]
pub enum ErrorCode {
    FeeTooHigh,
    Unauthorized,
    MarketPaused,
    InvalidSettlementTime,
    MathOverflow,
    ZeroAmount,
    AlreadySettled,
    WrongSettlementKind,
    TooEarlyToSettle,
    NoSettlementPrice,
    ConstraintMismatch,
    TooManyCollaterals,
    CollateralNotFound,
    CollateralNotAllowed,
    InsufficientInitialMargin,
    DealVersionMismatch,
    DealFrozen,
    InvalidPartialAmount,
    /// A vault holds less than a settlement has to take out of it.
    InsufficientBalance,
}

impl ErrorCode {
    pub open spec fn spec_message(self) -> Seq<char> {
        match self {
            ErrorCode::FeeTooHigh => "Fee too high"@,
            ErrorCode::Unauthorized => "Unauthorized"@,
            ErrorCode::MarketPaused => "Market is paused"@,
            ErrorCode::InvalidSettlementTime => "Invalid settlement time"@,
            ErrorCode::MathOverflow => "Math overflow"@,
            ErrorCode::ZeroAmount => "Zero amount not allowed"@,
            ErrorCode::AlreadySettled => "Already settled"@,
            ErrorCode::WrongSettlementKind => "Wrong settlement kind for this instruction"@,
            ErrorCode::TooEarlyToSettle => "Too early to settle"@,
            ErrorCode::NoSettlementPrice => "No posted settlement price"@,
            ErrorCode::ConstraintMismatch => "Constraint mismatch"@,
            ErrorCode::TooManyCollaterals => "Too many collaterals"@,
            ErrorCode::CollateralNotFound => "Collateral not found"@,
            ErrorCode::CollateralNotAllowed => "Collateral mint not allowed"@,
            ErrorCode::InsufficientInitialMargin => "Insufficient initial margin"@,
            ErrorCode::DealVersionMismatch => "Deal version mismatch"@,
            ErrorCode::DealFrozen => "Deal is frozen"@,
            ErrorCode::InvalidPartialAmount => "Invalid partial amount"@,
            ErrorCode::InsufficientBalance => "Insufficient vault balance"@,
        }
    }

    /// The text shown to a caller for this error.
    pub fn message(&self) -> (text: &'static str)
        ensures
            text@ == self.spec_message(),
    {
        match self {
            ErrorCode::FeeTooHigh => "Fee too high",
            ErrorCode::Unauthorized => "Unauthorized",
            ErrorCode::MarketPaused => "Market is paused",
            ErrorCode::InvalidSettlementTime => "Invalid settlement time",
            ErrorCode::MathOverflow => "Math overflow",
            ErrorCode::ZeroAmount => "Zero amount not allowed",
            ErrorCode::AlreadySettled => "Already settled",
            ErrorCode::WrongSettlementKind => "Wrong settlement kind for this instruction",
            ErrorCode::TooEarlyToSettle => "Too early to settle",
            ErrorCode::NoSettlementPrice => "No posted settlement price",
            ErrorCode::ConstraintMismatch => "Constraint mismatch",
            ErrorCode::TooManyCollaterals => "Too many collaterals",
            ErrorCode::CollateralNotFound => "Collateral not found",
            ErrorCode::CollateralNotAllowed => "Collateral mint not allowed",
            ErrorCode::InsufficientInitialMargin => "Insufficient initial margin",
            ErrorCode::DealVersionMismatch => "Deal version mismatch",
            ErrorCode::DealFrozen => "Deal is frozen",
            ErrorCode::InvalidPartialAmount => "Invalid partial amount",
            ErrorCode::InsufficientBalance => "Insufficient vault balance",
        }
    }
}

} // verus!
