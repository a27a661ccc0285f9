use crate::errors::PaymentError;
use crate::state::ledger::Ledger;
use crate::state::platform::{Mint, Platform, ASSET_DECIMALS, MAX_FEE_BPS};
use crate::state::Pubkey;
use vstd::prelude::*;

verus! {

/// The accounts platform set-up names: its authority, the asset it settles
/// in, and the token account that will hold its fees.
pub struct InitializePlatform {
    pub authority: Pubkey,
    pub usdc_mint: Mint,
    pub platform_treasury: Pubkey,
}

impl InitializePlatform {
    /// The first rule the set-up breaks, checked in order; `None` when it goes through.
    pub open spec fn rejection(self, l: Ledger, fee_bps: u64, min_payment_amount: u64) -> Option<
        PaymentError,
    > {
        if l.platform is Some {
            Some(PaymentError::AccountAlreadyInUse)
        } else if fee_bps > MAX_FEE_BPS {
            Some(PaymentError::InvalidFeeBps)
        } else if min_payment_amount == 0 {
            Some(PaymentError::InvalidMinPaymentAmount)
        } else if self.usdc_mint.decimals != ASSET_DECIMALS {
            Some(PaymentError::InvalidAssetConfiguration)
        } else if self.platform_treasury == self.authority {
            Some(PaymentError::InvalidTreasury)
        } else {
            None
        }
    }

    /// The configuration an accepted set-up records.
    pub open spec fn configured(self, fee_bps: u64, min_payment_amount: u64) -> Platform {
        Platform {
            authority: self.authority,
            treasury: self.platform_treasury,
            usdc_mint: self.usdc_mint.key,
            min_payment_amount,
            fee_bps,
            is_active: true,
        }
    }

    /// What a call returns and leaves: the first broken rule and an untouched
    /// ledger, or success and the new configuration, active, with nothing else changed.
    pub open spec fn outcome(
        self,
        pre: Ledger,
        post: Ledger,
        fee_bps: u64,
        min_payment_amount: u64,
        r: Result<(), PaymentError>,
    ) -> bool {
        match r {
            Ok(()) => {
                &&& self.rejection(pre, fee_bps, min_payment_amount) is None
                &&& post.platform == Some(self.configured(fee_bps, min_payment_amount))
                &&& post.merchants@ == pre.merchants@
                &&& post.customers@ == pre.customers@
                &&& post.payments@ == pre.payments@
                &&& post.balances@ == pre.balances@
            },
            Err(e) => self.rejection(pre, fee_bps, min_payment_amount) == Some(e) && post == pre,
        }
    }

    /// Creates the platform configuration, once, with the signer as its
    /// authority; the treasury must be an account of its own.
    pub fn set_platform_config(&self, ledger: &mut Ledger, fee_bps: u64, min_payment_amount: u64) -> (r:
        Result<(), PaymentError>)
        requires
            old(ledger).wf(),
        ensures
            final(ledger).wf(),
            self.outcome(*old(ledger), *final(ledger), fee_bps, min_payment_amount, r),
    {
        if ledger.platform.is_some() {
            return Err(PaymentError::AccountAlreadyInUse);
        }
        if fee_bps > MAX_FEE_BPS {
            return Err(PaymentError::InvalidFeeBps);
        }
        if min_payment_amount == 0 {
            return Err(PaymentError::InvalidMinPaymentAmount);
        }
        if self.usdc_mint.decimals != ASSET_DECIMALS {
            return Err(PaymentError::InvalidAssetConfiguration);
        }
        if self.platform_treasury == self.authority {
            return Err(PaymentError::InvalidTreasury);
        }
        ledger.platform = Some(
            Platform {
                authority: self.authority,
                treasury: self.platform_treasury,
                usdc_mint: self.usdc_mint.key,
                min_payment_amount,
                fee_bps,
                is_active: true,
            },
        );
        Ok(())
    }
}

/// Sets the platform up; see `InitializePlatform::set_platform_config`.
pub fn handler(
    ctx: &InitializePlatform,
    ledger: &mut Ledger,
    fee_bps: u64,
    min_payment_amount: u64,
) -> (r: Result<(), PaymentError>)
    requires
        old(ledger).wf(),
    ensures
        final(ledger).wf(),
        ctx.outcome(*old(ledger), *final(ledger), fee_bps, min_payment_amount, r),
{
    ctx.set_platform_config(ledger, fee_bps, min_payment_amount)
}

} // verus!
