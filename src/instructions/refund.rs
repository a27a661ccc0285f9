use crate::errors::PaymentError;
use crate::state::ledger::{
    apply_transfer, check_transfer, has_merchant, has_payment, merchant_index, payment_index,
    transfer_error, transferred, Ledger,
};
use crate::state::merchant::Merchant;
use crate::state::payment::{Payment, PaymentStatus};
use crate::state::platform::Platform;
use crate::state::Pubkey;
use vstd::prelude::*;

verus! {

/// `a - b`, or 0 where that would be negative.
pub open spec fn sat_sub(a: u64, b: u64) -> u64 {
    if a >= b {
        (a - b) as u64
    } else {
        0
    }
}

/// The accounts a refund names: the signer, the customer to repay, the asset.
pub struct RefundPayment {
    pub merchant_authority: Pubkey,
    pub customer: Pubkey,
    pub usdc_mint: Pubkey,
}

impl RefundPayment {
    pub open spec fn platform_of(l: Ledger) -> Platform {
        l.platform->Some_0
    }

    pub open spec fn payment_of(l: Ledger, payment_id: Seq<char>) -> Payment {
        l.payments@[payment_index(l.payments@, payment_id)]
    }

    pub open spec fn merchant_of(l: Ledger, payment_id: Seq<char>) -> Merchant {
        l.merchants@[merchant_index(l.merchants@, Self::payment_of(l, payment_id).merchant@)]
    }

    /// The first rule the refund breaks, checked in order; `None` when it goes through.
    pub open spec fn rejection(self, l: Ledger, payment_id: Seq<char>) -> Option<PaymentError> {
        let p = Self::platform_of(l);
        let pay = Self::payment_of(l, payment_id);
        let m = Self::merchant_of(l, payment_id);
        let b1 = transferred(
            l.balances@,
            m.settlement_wallet,
            self.customer,
            pay.merchant_amount as nat,
        );
        if l.platform is None {
            Some(PaymentError::AccountNotInitialized)
        } else if !has_payment(l.payments@, payment_id) {
            Some(PaymentError::AccountNotInitialized)
        } else if pay.status != PaymentStatus::Completed {
            Some(PaymentError::PaymentAlreadyRefunded)
        } else if !has_merchant(l.merchants@, pay.merchant@) {
            Some(PaymentError::AccountNotInitialized)
        } else if m.authority != self.merchant_authority {
            Some(PaymentError::RefundNotAuthorized)
        } else if pay.customer != self.customer {
            Some(PaymentError::RefundNotAuthorized)
        } else if self.usdc_mint != p.usdc_mint {
            Some(PaymentError::InvalidTokenMint)
        } else if transfer_error(
            l.balances@,
            m.settlement_wallet,
            self.customer,
            pay.merchant_amount as nat,
        ) is Some {
            transfer_error(l.balances@, m.settlement_wallet, self.customer, pay.merchant_amount as nat)
        } else if transfer_error(b1, p.treasury, self.customer, pay.fee_amount as nat) is Some {
            transfer_error(b1, p.treasury, self.customer, pay.fee_amount as nat)
        } else {
            None
        }
    }

    /// The ledger after an accepted refund: both shares back with the
    /// customer, the record `Refunded`, and the merchant aggregates lowered,
    /// never below zero. Customer aggregates stay as they were.
    pub open spec fn applied(self, pre: Ledger, post: Ledger, payment_id: Seq<char>, now: i64) -> bool {
        let p = Self::platform_of(pre);
        let pi = payment_index(pre.payments@, payment_id);
        let pay = Self::payment_of(pre, payment_id);
        let mi = merchant_index(pre.merchants@, pay.merchant@);
        let m = Self::merchant_of(pre, payment_id);
        &&& post.platform == pre.platform
        &&& post.customers@ == pre.customers@
        &&& post.balances@ == transferred(
            transferred(pre.balances@, m.settlement_wallet, self.customer, pay.merchant_amount as nat),
            p.treasury,
            self.customer,
            pay.fee_amount as nat,
        )
        &&& post.payments@ == pre.payments@.update(
            pi,
            Payment { status: PaymentStatus::Refunded, refunded_at: Some(now), ..pay },
        )
        &&& post.merchants@ == pre.merchants@.update(
            mi,
            Merchant {
                transaction_count: sat_sub(m.transaction_count, 1),
                volume: sat_sub(m.volume, pay.merchant_amount),
                total_fees: sat_sub(m.total_fees, pay.fee_amount),
                ..m
            },
        )
    }

    /// What a call returns and leaves: the first broken rule and an untouched
    /// ledger, or success and exactly the effects of `applied`.
    pub open spec fn outcome(
        self,
        pre: Ledger,
        post: Ledger,
        payment_id: Seq<char>,
        now: i64,
        r: Result<(), PaymentError>,
    ) -> bool {
        match r {
            Ok(()) => self.rejection(pre, payment_id) is None && self.applied(
                pre,
                post,
                payment_id,
                now,
            ),
            Err(e) => self.rejection(pre, payment_id) == Some(e) && post == pre,
        }
    }

    /// Reverses the payment recorded under `payment_id` at time `now`: the
    /// merchant share and the fee go back to the customer. Only the merchant's
    /// authority may do so, and only once: a refunded payment is refused to
    /// every signer.
    pub fn refund(&self, ledger: &mut Ledger, payment_id: &String, now: i64) -> (r: Result<
        (),
        PaymentError,
    >)
        requires
            old(ledger).wf(),
        ensures
            final(ledger).wf(),
            self.outcome(*old(ledger), *final(ledger), payment_id@, now, r),
    {
        let ghost pre = *ledger;
        let p = match ledger.platform {
            Some(p) => p,
            None => return Err(PaymentError::AccountNotInitialized),
        };
        let pi = match ledger.find_payment(payment_id) {
            Some(i) => i,
            None => return Err(PaymentError::AccountNotInitialized),
        };
        proof {
            assert(pi == payment_index(pre.payments@, payment_id@));
        }
        let pay = &ledger.payments[pi];
        if pay.status != PaymentStatus::Completed {
            return Err(PaymentError::PaymentAlreadyRefunded);
        }
        let mi = match ledger.find_merchant(&pay.merchant) {
            Some(i) => i,
            None => return Err(PaymentError::AccountNotInitialized),
        };
        proof {
            assert(mi == merchant_index(pre.merchants@, pay.merchant@));
        }
        let m = &ledger.merchants[mi];
        if m.authority != self.merchant_authority {
            return Err(PaymentError::RefundNotAuthorized);
        }
        if pay.customer != self.customer {
            return Err(PaymentError::RefundNotAuthorized);
        }
        if self.usdc_mint != p.usdc_mint {
            return Err(PaymentError::InvalidTokenMint);
        }
        let net = pay.merchant_amount;
        let fee = pay.fee_amount;
        let settlement = m.settlement_wallet;
        let mut balances = ledger.balances.clone();
        if let Some(e) = check_transfer(&balances, settlement, self.customer, net) {
            return Err(e);
        }
        apply_transfer(&mut balances, settlement, self.customer, net);
        if let Some(e) = check_transfer(&balances, p.treasury, self.customer, fee) {
            return Err(e);
        }
        apply_transfer(&mut balances, p.treasury, self.customer, fee);
        let m_count = m.transaction_count.saturating_sub(1);
        let m_volume = m.volume.saturating_sub(net);
        let m_fees = m.total_fees.saturating_sub(fee);
        ledger.balances = balances;
        ledger.payments[pi].status = PaymentStatus::Refunded;
        ledger.payments[pi].refunded_at = Some(now);
        ledger.merchants[mi].transaction_count = m_count;
        ledger.merchants[mi].volume = m_volume;
        ledger.merchants[mi].total_fees = m_fees;
        proof {
            assert(ledger.payments@ =~= pre.payments@.update(
                pi as int,
                Payment {
                    status: PaymentStatus::Refunded,
                    refunded_at: Some(now),
                    ..pre.payments@[pi as int]
                },
            ));
            assert(ledger.merchants@ =~= pre.merchants@.update(
                mi as int,
                Merchant {
                    transaction_count: m_count,
                    volume: m_volume,
                    total_fees: m_fees,
                    ..pre.merchants@[mi as int]
                },
            ));
        }
        Ok(())
    }
}

/// Refunds a payment; see `RefundPayment::refund`.
pub fn handler(ctx: &RefundPayment, ledger: &mut Ledger, payment_id: &String, now: i64) -> (r:
    Result<(), PaymentError>)
    requires
        old(ledger).wf(),
    ensures
        final(ledger).wf(),
        ctx.outcome(*old(ledger), *final(ledger), payment_id@, now, r),
{
    ctx.refund(ledger, payment_id, now)
}

} // verus!
