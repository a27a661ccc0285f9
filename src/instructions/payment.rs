use crate::errors::PaymentError;
use crate::state::customer::Customer;
use crate::state::ledger::{
    apply_transfer, check_transfer, has_merchant, has_payment, merchant_index,
    transfer_error, transferred, Ledger,
};
use crate::state::merchant::Merchant;
use crate::state::payment::{Payment, PaymentStatus};
use crate::state::platform::{Platform, BPS_DENOMINATOR};
use crate::state::{is_valid_id, valid_id, Pubkey};
use vstd::prelude::*;

verus! {

broadcast use vstd::std_specs::hash::group_hash_axioms;

/// The fee on a gross amount at a rate in basis points, rounded down.
pub open spec fn fee_of(amount: nat, fee_bps: nat) -> nat {
    amount * fee_bps / (BPS_DENOMINATOR as nat)
}

/// Splits a gross amount into `(fee, merchant_amount)`. `None` when
/// `amount * fee_bps` does not fit in a `u64`, or when the fee would exceed the
/// amount.
pub fn split_amount(amount: u64, fee_bps: u64) -> (r: Option<(u64, u64)>)
    ensures
        r is Some <==> amount * fee_bps <= u64::MAX && fee_of(amount as nat, fee_bps as nat)
            <= amount,
        r matches Some((fee, net)) ==> {
            &&& fee == fee_of(amount as nat, fee_bps as nat)
            &&& net == amount - fee
            &&& fee + net == amount
        },
{
    let product = match amount.checked_mul(fee_bps) {
        Some(p) => p,
        None => return None,
    };
    let fee = product / BPS_DENOMINATOR;
    match amount.checked_sub(fee) {
        Some(net) => Some((fee, net)),
        None => None,
    }
}

/// The fee rule: at a rate of at most 10000 basis points the fee is
/// `floor(amount * fee_bps / 10000)`, never exceeds the amount, and fee and
/// merchant share add up to the amount exactly.
pub proof fn lemma_fee_split(amount: nat, fee_bps: nat)
    requires
        fee_bps <= BPS_DENOMINATOR,
    ensures
        fee_of(amount, fee_bps) <= amount,
        fee_of(amount, fee_bps) + (amount - fee_of(amount, fee_bps)) == amount,
{
    assert(amount * fee_bps <= amount * 10000) by (nonlinear_arith)
        requires
            fee_bps <= 10000,
    ;
    assert(amount * fee_bps / 10000 <= amount) by (nonlinear_arith)
        requires
            amount * fee_bps <= amount * 10000,
    ;
}

/// The customer record a payment by `payer` starts from: the stored one, or a
/// fresh one with zero aggregates.
pub open spec fn customer_before(cs: Map<Pubkey, Customer>, payer: Pubkey, now: i64) -> Customer {
    if cs.contains_key(payer) {
        cs[payer]
    } else {
        Customer { customer: payer, total_spent: 0, transaction_count: 0, created_at: now }
    }
}

/// The accounts a payment names: who pays, which merchant, in which asset.
pub struct ProcessPayment {
    pub payer: Pubkey,
    pub merchant_id: String,
    pub usdc_mint: Pubkey,
}

impl ProcessPayment {
    pub open spec fn platform_of(l: Ledger) -> Platform {
        l.platform->Some_0
    }

    pub open spec fn merchant_of(self, l: Ledger) -> Merchant {
        l.merchants@[merchant_index(l.merchants@, self.merchant_id@)]
    }

    /// The fee the payment takes.
    pub open spec fn fee(l: Ledger, amount: u64) -> nat {
        fee_of(amount as nat, Self::platform_of(l).fee_bps as nat)
    }

    /// The first rule the payment breaks, checked in order; `None` when it goes through.
    pub open spec fn rejection(self, l: Ledger, payment_id: Seq<char>, amount: u64, now: i64) -> Option<
        PaymentError,
    > {
        let p = Self::platform_of(l);
        let m = self.merchant_of(l);
        let fee = Self::fee(l, amount);
        let net = (amount - fee) as nat;
        let b1 = transferred(l.balances@, self.payer, m.settlement_wallet, net);
        let c = customer_before(l.customers@, self.payer, now);
        if l.platform is None {
            Some(PaymentError::AccountNotInitialized)
        } else if !has_merchant(l.merchants@, self.merchant_id@) {
            Some(PaymentError::AccountNotInitialized)
        } else if !p.is_active {
            Some(PaymentError::PlatformInactive)
        } else if !m.is_active {
            Some(PaymentError::MerchantInactive)
        } else if amount < p.min_payment_amount {
            Some(PaymentError::PaymentBelowMinimum)
        } else if !valid_id(payment_id) {
            Some(PaymentError::InvalidPaymentId)
        } else if self.usdc_mint != p.usdc_mint {
            Some(PaymentError::InvalidTokenMint)
        } else if self.payer == p.treasury {
            Some(PaymentError::InvalidTreasury)
        } else if has_payment(l.payments@, payment_id) {
            Some(PaymentError::AccountAlreadyInUse)
        } else if amount * p.fee_bps > u64::MAX || fee > amount {
            Some(PaymentError::CalculationError)
        } else if transfer_error(l.balances@, self.payer, m.settlement_wallet, net) is Some {
            transfer_error(l.balances@, self.payer, m.settlement_wallet, net)
        } else if transfer_error(b1, self.payer, p.treasury, fee) is Some {
            transfer_error(b1, self.payer, p.treasury, fee)
        } else if c.transaction_count + 1 > u64::MAX || c.total_spent + amount > u64::MAX {
            Some(PaymentError::CalculationError)
        } else if m.transaction_count + 1 > u64::MAX || m.volume + net > u64::MAX || m.total_fees
            + fee > u64::MAX {
            Some(PaymentError::CalculationError)
        } else {
            None
        }
    }

    /// The ledger after an accepted payment: both shares moved, the customer
    /// and merchant aggregates raised, and a `Completed` record added.
    pub open spec fn applied(
        self,
        pre: Ledger,
        post: Ledger,
        payment_id: String,
        amount: u64,
        now: i64,
    ) -> bool {
        let p = Self::platform_of(pre);
        let mi = merchant_index(pre.merchants@, self.merchant_id@);
        let m = self.merchant_of(pre);
        let fee = Self::fee(pre, amount);
        let net = (amount - fee) as nat;
        let c = customer_before(pre.customers@, self.payer, now);
        &&& post.platform == pre.platform
        &&& post.balances@ == transferred(
            transferred(pre.balances@, self.payer, m.settlement_wallet, net),
            self.payer,
            p.treasury,
            fee,
        )
        &&& post.customers@ == pre.customers@.insert(
            self.payer,
            Customer {
                transaction_count: (c.transaction_count + 1) as u64,
                total_spent: (c.total_spent + amount) as u64,
                ..c
            },
        )
        &&& post.merchants@ == pre.merchants@.update(
            mi,
            Merchant {
                transaction_count: (m.transaction_count + 1) as u64,
                volume: (m.volume + net) as u64,
                total_fees: (m.total_fees + fee) as u64,
                ..m
            },
        )
        &&& post.payments@ == pre.payments@.push(
            Payment {
                payment_id: payment_id,
                customer: self.payer,
                merchant: self.merchant_id,
                amount: amount,
                fee_amount: fee as u64,
                merchant_amount: net as u64,
                status: PaymentStatus::Completed,
                created_at: now,
                refunded_at: None,
            },
        )
    }

    /// What a call returns and leaves: the first broken rule and an untouched
    /// ledger, or success and exactly the effects of `applied`.
    pub open spec fn outcome(
        self,
        pre: Ledger,
        post: Ledger,
        payment_id: String,
        amount: u64,
        now: i64,
        r: Result<(), PaymentError>,
    ) -> bool {
        match r {
            Ok(()) => self.rejection(pre, payment_id@, amount, now) is None && self.applied(
                pre,
                post,
                payment_id,
                amount,
                now,
            ),
            Err(e) => self.rejection(pre, payment_id@, amount, now) == Some(e) && post == pre,
        }
    }

    /// Settles a payment of `amount` from the payer to the merchant, the fee
    /// going to the treasury, and records it under `payment_id` at time `now`.
    /// Either every effect takes place or none does.
    pub fn process_payment(
        &self,
        ledger: &mut Ledger,
        payment_id: String,
        amount: u64,
        now: i64,
    ) -> (r: Result<(), PaymentError>)
        requires
            old(ledger).wf(),
        ensures
            final(ledger).wf(),
            self.outcome(*old(ledger), *final(ledger), payment_id, amount, now, r),
    {
        let ghost pre = *ledger;
        let p = match ledger.platform {
            Some(p) => p,
            None => return Err(PaymentError::AccountNotInitialized),
        };
        let mi = match ledger.find_merchant(&self.merchant_id) {
            Some(i) => i,
            None => return Err(PaymentError::AccountNotInitialized),
        };
        proof {
            assert(mi == merchant_index(pre.merchants@, self.merchant_id@));
        }
        let m = &ledger.merchants[mi];
        if !p.is_active {
            return Err(PaymentError::PlatformInactive);
        }
        if !m.is_active {
            return Err(PaymentError::MerchantInactive);
        }
        if amount < p.min_payment_amount {
            return Err(PaymentError::PaymentBelowMinimum);
        }
        if !is_valid_id(&payment_id) {
            return Err(PaymentError::InvalidPaymentId);
        }
        if self.usdc_mint != p.usdc_mint {
            return Err(PaymentError::InvalidTokenMint);
        }
        if self.payer == p.treasury {
            return Err(PaymentError::InvalidTreasury);
        }
        if ledger.find_payment(&payment_id).is_some() {
            return Err(PaymentError::AccountAlreadyInUse);
        }
        let (fee, net) = match split_amount(amount, p.fee_bps) {
            Some(s) => s,
            None => return Err(PaymentError::CalculationError),
        };
        let settlement = m.settlement_wallet;
        // Both transfers are tried on a copy, so that a refused second one
        // leaves the first undone.
        let mut balances = ledger.balances.clone();
        if let Some(e) = check_transfer(&balances, self.payer, settlement, net) {
            return Err(e);
        }
        apply_transfer(&mut balances, self.payer, settlement, net);
        if let Some(e) = check_transfer(&balances, self.payer, p.treasury, fee) {
            return Err(e);
        }
        apply_transfer(&mut balances, self.payer, p.treasury, fee);
        let mut c = match ledger.customers.get(&self.payer) {
            Some(c) => *c,
            None => Customer {
                customer: self.payer,
                total_spent: 0,
                transaction_count: 0,
                created_at: now,
            },
        };
        c.transaction_count = match c.transaction_count.checked_add(1) {
            Some(v) => v,
            None => return Err(PaymentError::CalculationError),
        };
        c.total_spent = match c.total_spent.checked_add(amount) {
            Some(v) => v,
            None => return Err(PaymentError::CalculationError),
        };
        let m_count = match m.transaction_count.checked_add(1) {
            Some(v) => v,
            None => return Err(PaymentError::CalculationError),
        };
        let m_volume = match m.volume.checked_add(net) {
            Some(v) => v,
            None => return Err(PaymentError::CalculationError),
        };
        let m_fees = match m.total_fees.checked_add(fee) {
            Some(v) => v,
            None => return Err(PaymentError::CalculationError),
        };
        ledger.balances = balances;
        ledger.customers.insert(self.payer, c);
        ledger.merchants[mi].transaction_count = m_count;
        ledger.merchants[mi].volume = m_volume;
        ledger.merchants[mi].total_fees = m_fees;
        ledger.payments.push(
            Payment {
                payment_id,
                customer: self.payer,
                merchant: self.merchant_id.clone(),
                amount,
                fee_amount: fee,
                merchant_amount: net,
                status: PaymentStatus::Completed,
                created_at: now,
                refunded_at: None,
            },
        );
        proof {
            assert(ledger.merchants@ =~= pre.merchants@.update(
                mi as int,
                Merchant {
                    transaction_count: m_count,
                    volume: m_volume,
                    total_fees: m_fees,
                    ..pre.merchants@[mi as int]
                },
            ));
        }
        Ok(())
    }
}

/// Settles a payment; see `ProcessPayment::process_payment`.
pub fn handler(
    ctx: &ProcessPayment,
    ledger: &mut Ledger,
    payment_id: String,
    amount: u64,
    now: i64,
) -> (r: Result<(), PaymentError>)
    requires
        old(ledger).wf(),
    ensures
        final(ledger).wf(),
        ctx.outcome(*old(ledger), *final(ledger), payment_id, amount, now, r),
{
    ctx.process_payment(ledger, payment_id, amount, now)
}

} // verus!
