use super::Pubkey;
use vstd::prelude::*;

verus! {

/// A registered merchant and its running aggregates.
#[derive(Debug)]
pub struct Merchant {
    pub merchant_id: String,
    /// The signer that registered the merchant and may refund its payments.
    pub authority: Pubkey,
    /// The token holder that receives the merchant's share of each payment.
    pub settlement_wallet: Pubkey,
    /// Fee rate recorded at registration; settlement uses the platform's rate.
    pub fee: u16,
    /// Sum of the merchant shares of its payments, less refunds.
    pub volume: u64,
    /// Sum of the fees taken from its payments, less refunds.
    pub total_fees: u64,
    pub transaction_count: u64,
    pub created_at: i64,
    pub is_active: bool,
}

} // verus!
