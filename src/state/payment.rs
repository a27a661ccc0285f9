use super::Pubkey;
use vstd::prelude::*;

verus! {

/// Where a payment stands: it is created `Completed` and may move once to `Refunded`.
#[derive(Clone, Copy, Debug, PartialEq, Eq, Structural)]
pub enum PaymentStatus {
    Completed,
    Refunded,
}

/// The record of one payment.
#[derive(Debug)]
pub struct Payment {
    pub payment_id: String,
    pub customer: Pubkey,
    /// The `merchant_id` of the merchant paid.
    pub merchant: String,
    pub amount: u64,
    pub fee_amount: u64,
    pub merchant_amount: u64,
    pub status: PaymentStatus,
    pub created_at: i64,
    pub refunded_at: Option<i64>,
}

impl Payment {
    /// The split of the gross amount is exact, and a refund time is recorded
    /// exactly when the payment has been refunded.
    pub open spec fn wf(self) -> bool {
        &&& self.fee_amount + self.merchant_amount == self.amount
        &&& (self.status == PaymentStatus::Completed) == (self.refunded_at is None)
    }
}

} // verus!
