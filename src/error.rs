use vstd::prelude::*;

verus! {

/// Errors returned by the ledger, the accumulators and the reserve controller.
#[derive(Debug, Clone, Copy, PartialEq, Eq, Structural)]
pub enum Error {
    InsufficientFreeBalance,
    InsufficientSupply,
    InvalidAmount,
    InsufficientAllowance,
    OnlyOwnerAccess,
    /// An oracle price is zero.
    PriceUnavailable,
    /// The minimum interval between two rebases has not elapsed.
    IntervalNotElapsed,
    /// The liability ratio does not allow the operation.
    RatioOutOfRange,
    /// The synthetic price is not outside the target band.
    PriceOutOfBand,
    /// An account has more award entries pending than one settlement claims;
    /// `claim_awards` catches it up.
    AwardsPending,
    /// A divisor that the computation needs is zero.
    ZeroDivisor,
    /// An intermediate value does not fit in 128 bits.
    Overflow,
}

/// Result type of the library.
pub type Result<T> = core::result::Result<T, Error>;

} // verus!
