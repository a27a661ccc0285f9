use crate::errors::PaymentError;
use crate::state::ledger::{has_merchant, Ledger};
use crate::state::merchant::Merchant;
use crate::state::platform::MAX_FEE_BPS;
use crate::state::{is_valid_id, valid_id, Pubkey};
use vstd::prelude::*;

verus! {

/// The accounts merchant registration names: the signer, who becomes the
/// merchant's authority, and where the merchant's shares will be paid.
pub struct InitializeMerchant {
    pub payer: Pubkey,
    pub settlement_wallet: Pubkey,
}

impl InitializeMerchant {
    /// The first rule the registration breaks, checked in order; `None` when it goes through.
    pub open spec fn rejection(self, l: Ledger, merchant_id: Seq<char>, fee_bps: u16) -> Option<
        PaymentError,
    > {
        if l.platform is None {
            Some(PaymentError::AccountNotInitialized)
        } else if !valid_id(merchant_id) {
            Some(PaymentError::InvalidMerchantId)
        } else if !l.platform->Some_0.is_active {
            Some(PaymentError::PlatformInactive)
        } else if fee_bps > MAX_FEE_BPS {
            Some(PaymentError::FeeTooHigh)
        } else if has_merchant(l.merchants@, merchant_id) {
            Some(PaymentError::AccountAlreadyInUse)
        } else {
            None
        }
    }

    /// The record an accepted registration adds.
    pub open spec fn registered(self, merchant_id: String, fee_bps: u16, now: i64) -> Merchant {
        Merchant {
            merchant_id,
            authority: self.payer,
            settlement_wallet: self.settlement_wallet,
            fee: fee_bps,
            volume: 0,
            total_fees: 0,
            transaction_count: 0,
            created_at: now,
            is_active: true,
        }
    }

    /// What a call returns and leaves: the first broken rule and an untouched
    /// ledger, or success and one new merchant record, with nothing else changed.
    pub open spec fn outcome(
        self,
        pre: Ledger,
        post: Ledger,
        merchant_id: String,
        fee_bps: u16,
        now: i64,
        r: Result<(), PaymentError>,
    ) -> bool {
        match r {
            Ok(()) => {
                &&& self.rejection(pre, merchant_id@, fee_bps) is None
                &&& post.merchants@ == pre.merchants@.push(self.registered(merchant_id, fee_bps, now))
                &&& post.platform == pre.platform
                &&& post.customers@ == pre.customers@
                &&& post.payments@ == pre.payments@
                &&& post.balances@ == pre.balances@
            },
            Err(e) => self.rejection(pre, merchant_id@, fee_bps) == Some(e) && post == pre,
        }
    }

    /// Registers a merchant under `merchant_id` at time `now`, with zero
    /// aggregates; an identifier can be registered only once.
    pub fn initialize_merchant(
        &self,
        ledger: &mut Ledger,
        merchant_id: String,
        fee_bps: u16,
        now: i64,
    ) -> (r: Result<(), PaymentError>)
        requires
            old(ledger).wf(),
        ensures
            final(ledger).wf(),
            self.outcome(*old(ledger), *final(ledger), merchant_id, fee_bps, now, r),
    {
        let p = match ledger.platform {
            Some(p) => p,
            None => return Err(PaymentError::AccountNotInitialized),
        };
        if !is_valid_id(&merchant_id) {
            return Err(PaymentError::InvalidMerchantId);
        }
        if !p.is_active {
            return Err(PaymentError::PlatformInactive);
        }
        if fee_bps as u64 > MAX_FEE_BPS {
            return Err(PaymentError::FeeTooHigh);
        }
        if ledger.find_merchant(&merchant_id).is_some() {
            return Err(PaymentError::AccountAlreadyInUse);
        }
        ledger.merchants.push(
            Merchant {
                merchant_id,
                authority: self.payer,
                settlement_wallet: self.settlement_wallet,
                fee: fee_bps,
                volume: 0,
                total_fees: 0,
                transaction_count: 0,
                created_at: now,
                is_active: true,
            },
        );
        Ok(())
    }
}

/// Registers a merchant; see `InitializeMerchant::initialize_merchant`.
pub fn handler(
    ctx: &InitializeMerchant,
    ledger: &mut Ledger,
    merchant_id: String,
    fee_bps: u16,
    now: i64,
) -> (r: Result<(), PaymentError>)
    requires
        old(ledger).wf(),
    ensures
        final(ledger).wf(),
        ctx.outcome(*old(ledger), *final(ledger), merchant_id, fee_bps, now, r),
{
    ctx.initialize_merchant(ledger, merchant_id, fee_bps, now)
}

} // verus!
