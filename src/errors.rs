use vstd::prelude::*;

verus! {

/// Every way an operation on the ledger can be rejected. A rejected operation
/// leaves the ledger exactly as it was.
#[derive(Clone, Copy, Debug, PartialEq, Eq, Structural)]
pub enum PaymentError {
    InvalidFeeBps,
    InvalidMinPaymentAmount,
    InvalidAssetConfiguration,
    InvalidMerchantId,
    PlatformInactive,
    FeeTooHigh,
    InvalidTokenMint,
    CalculationError,
    PaymentBelowMinimum,
    MerchantInactive,
    Unauthorized,
    NoFeesToClaim,
    InvalidPaymentId,
    PaymentAlreadyRefunded,
    RefundNotAuthorized,
    /// A record that the operation creates already exists.
    AccountAlreadyInUse,
    /// A record that the operation reads does not exist.
    AccountNotInitialized,
    /// A token account holds less than the transfer moves out of it.
    InsufficientFunds,
    /// The platform's treasury would be the account of an individual: its
    /// authority's, or the paying customer's.
    InvalidTreasury,
}

} // verus!
