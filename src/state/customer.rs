use super::Pubkey;
use vstd::prelude::*;

verus! {

/// Lifetime activity of one customer, created on the customer's first payment.
#[derive(Clone, Copy, Debug, PartialEq, Eq, Structural)]
pub struct Customer {
    pub customer: Pubkey,
    pub total_spent: u64,
    pub transaction_count: u64,
    pub created_at: i64,
}

} // verus!
