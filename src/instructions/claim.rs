use crate::errors::PaymentError;
use crate::state::ledger::{apply_transfer, balance, check_transfer, transfer_error, transferred, Ledger};
use crate::state::platform::Platform;
use crate::state::Pubkey;
use vstd::prelude::*;

verus! {

broadcast use vstd::std_specs::hash::group_hash_axioms;

/// The account a fee claim names: the signer, who receives the fees.
pub struct ClaimPlatformFees {
    pub authority: Pubkey,
}

impl ClaimPlatformFees {
    pub open spec fn platform_of(l: Ledger) -> Platform {
        l.platform->Some_0
    }

    /// What the treasury holds.
    pub open spec fn treasury_balance(l: Ledger) -> nat {
        balance(l.balances@, Self::platform_of(l).treasury)
    }

    /// The first rule the claim breaks, checked in order; `None` when it goes through.
    pub open spec fn rejection(self, l: Ledger) -> Option<PaymentError> {
        let p = Self::platform_of(l);
        if l.platform is None {
            Some(PaymentError::AccountNotInitialized)
        } else if self.authority != p.authority {
            Some(PaymentError::Unauthorized)
        } else if Self::treasury_balance(l) == 0 {
            Some(PaymentError::NoFeesToClaim)
        } else {
            transfer_error(l.balances@, p.treasury, self.authority, Self::treasury_balance(l))
        }
    }

    /// What a call returns and leaves: the first broken rule and an untouched
    /// ledger, or success and the whole treasury moved to the authority.
    pub open spec fn outcome(self, pre: Ledger, post: Ledger, r: Result<(), PaymentError>) -> bool {
        match r {
            Ok(()) => {
                &&& self.rejection(pre) is None
                &&& post.balances@ == transferred(
                    pre.balances@,
                    Self::platform_of(pre).treasury,
                    self.authority,
                    Self::treasury_balance(pre),
                )
                &&& post.platform == pre.platform
                &&& post.merchants@ == pre.merchants@
                &&& post.customers@ == pre.customers@
                &&& post.payments@ == pre.payments@
            },
            Err(e) => self.rejection(pre) == Some(e) && post == pre,
        }
    }

    /// Moves every fee held by the treasury to the platform authority.
    pub fn claim_platform_fees(&self, ledger: &mut Ledger) -> (r: Result<(), PaymentError>)
        requires
            old(ledger).wf(),
        ensures
            final(ledger).wf(),
            self.outcome(*old(ledger), *final(ledger), r),
    {
        let p = match ledger.platform {
            Some(p) => p,
            None => return Err(PaymentError::AccountNotInitialized),
        };
        if self.authority != p.authority {
            return Err(PaymentError::Unauthorized);
        }
        let treasury_balance = ledger.balance_of(p.treasury);
        if treasury_balance == 0 {
            return Err(PaymentError::NoFeesToClaim);
        }
        if let Some(e) = check_transfer(&ledger.balances, p.treasury, self.authority, treasury_balance) {
            return Err(e);
        }
        apply_transfer(&mut ledger.balances, p.treasury, self.authority, treasury_balance);
        Ok(())
    }
}

/// Claims the collected fees; see `ClaimPlatformFees::claim_platform_fees`.
pub fn handler(ctx: &ClaimPlatformFees, ledger: &mut Ledger) -> (r: Result<(), PaymentError>)
    requires
        old(ledger).wf(),
    ensures
        final(ledger).wf(),
        ctx.outcome(*old(ledger), *final(ledger), r),
{
    ctx.claim_platform_fees(ledger)
}

} // verus!
