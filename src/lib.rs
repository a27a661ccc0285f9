//! A settlement ledger for a payment platform: merchants register, customers
//! pay them in one recognized asset, the platform keeps a fee in basis points
//! in its treasury, merchants may refund a payment once, and the platform
//! authority claims the collected fees. Each operation either applies whole
//! or leaves the ledger untouched.
pub mod codec;
pub mod errors;
pub mod instructions;
pub mod laws;
pub mod state;

pub use errors::PaymentError;
pub use instructions::claim::ClaimPlatformFees;
pub use instructions::initialize::InitializeMerchant;
pub use instructions::payment::ProcessPayment;
pub use instructions::platform::InitializePlatform;
pub use instructions::refund::RefundPayment;
pub use state::customer::Customer;
pub use state::ledger::Ledger;
pub use state::merchant::Merchant;
pub use state::payment::{Payment, PaymentStatus};
pub use state::platform::{Mint, Platform};
pub use state::Pubkey;

use vstd::prelude::*;

verus! {

/// Creates the platform configuration.
pub fn set_platform_config(
    ctx: &InitializePlatform,
    ledger: &mut Ledger,
    fee_bps: u64,
    min_payment_amount: u64,
) -> (r: Result<(), PaymentError>)
    requires
        old(ledger).wf(),
    ensures
        final(ledger).wf(),
        ctx.outcome(*old(ledger), *final(ledger), fee_bps, min_payment_amount, r),
{
    instructions::platform::handler(ctx, ledger, fee_bps, min_payment_amount)
}

/// Registers a merchant.
pub fn initialize_merchant(
    ctx: &InitializeMerchant,
    ledger: &mut Ledger,
    merchant_id: String,
    fee_bps: u16,
    now: i64,
) -> (r: Result<(), PaymentError>)
    requires
        old(ledger).wf(),
    ensures
        final(ledger).wf(),
        ctx.outcome(*old(ledger), *final(ledger), merchant_id, fee_bps, now, r),
{
    instructions::initialize::handler(ctx, ledger, merchant_id, fee_bps, now)
}

/// Settles a payment.
pub fn process_payment(
    ctx: &ProcessPayment,
    ledger: &mut Ledger,
    payment_id: String,
    amount: u64,
    now: i64,
) -> (r: Result<(), PaymentError>)
    requires
        old(ledger).wf(),
    ensures
        final(ledger).wf(),
        ctx.outcome(*old(ledger), *final(ledger), payment_id, amount, now, r),
{
    instructions::payment::handler(ctx, ledger, payment_id, amount, now)
}

/// Moves the collected fees to the platform authority.
pub fn claim_platform_fees(ctx: &ClaimPlatformFees, ledger: &mut Ledger) -> (r: Result<
    (),
    PaymentError,
>)
    requires
        old(ledger).wf(),
    ensures
        final(ledger).wf(),
        ctx.outcome(*old(ledger), *final(ledger), r),
{
    instructions::claim::handler(ctx, ledger)
}

/// Refunds a payment.
pub fn refund_payment(ctx: &RefundPayment, ledger: &mut Ledger, payment_id: &String, now: i64) -> (r:
    Result<(), PaymentError>)
    requires
        old(ledger).wf(),
    ensures
        final(ledger).wf(),
        ctx.outcome(*old(ledger), *final(ledger), payment_id@, now, r),
{
    instructions::refund::handler(ctx, ledger, payment_id, now)
}

} // verus!
