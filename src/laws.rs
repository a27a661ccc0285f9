use crate::errors::PaymentError;
use crate::instructions::claim::ClaimPlatformFees;
use crate::instructions::initialize::InitializeMerchant;
use crate::instructions::payment::{fee_of, ProcessPayment};
use crate::instructions::refund::RefundPayment;
use crate::state::ledger::{balance, has_merchant, has_payment, merchant_index, payment_index, Ledger};
use crate::state::payment::PaymentStatus;
use crate::state::Pubkey;
use vstd::prelude::*;

verus! {

/// An accepted payment records the fee `floor(amount * fee_bps / 10000)` at the
/// platform's rate, a fee and merchant share that add up to the amount, and a
/// fee of at most a tenth of the amount.
pub proof fn law_payment_split(
    ctx: ProcessPayment,
    pre: Ledger,
    post: Ledger,
    payment_id: String,
    amount: u64,
    now: i64,
)
    requires
        pre.wf(),
        ctx.outcome(pre, post, payment_id, amount, now, Ok(())),
    ensures
        post.payments@.last().amount == amount,
        post.payments@.last().fee_amount == fee_of(amount as nat, pre.platform->Some_0.fee_bps as nat),
        post.payments@.last().fee_amount + post.payments@.last().merchant_amount == amount,
        post.payments@.last().fee_amount * 10 <= amount,
{
    let bps = pre.platform->Some_0.fee_bps as nat;
    let a = amount as nat;
    assert(a * bps / 10000 * 10 <= a) by (nonlinear_arith)
        requires
            bps <= 1000,
    {
        assert(a * bps <= a * 1000);
        assert(a * bps / 10000 <= a * 1000 / 10000);
        assert(a * 1000 / 10000 == a / 10);
        assert(a / 10 * 10 <= a);
    }
}

/// A merchant identifier registered once cannot be registered again.
pub proof fn law_merchant_registered_once(
    first: InitializeMerchant,
    second: InitializeMerchant,
    l0: Ledger,
    l1: Ledger,
    l2: Ledger,
    id1: String,
    id2: String,
    fee1: u16,
    fee2: u16,
    t1: i64,
    t2: i64,
    r: Result<(), PaymentError>,
)
    requires
        l0.wf(),
        first.outcome(l0, l1, id1, fee1, t1, Ok(())),
        second.outcome(l1, l2, id2, fee2, t2, r),
        id1@ == id2@,
    ensures
        r is Err,
        l2 == l1,
{
    assert(l1.merchants@[l1.merchants@.len() - 1].merchant_id@ == id2@);
    assert(has_merchant(l1.merchants@, id2@));
}

/// A payment identifier used by an accepted payment cannot be used again.
pub proof fn law_payment_id_used_once(
    first: ProcessPayment,
    second: ProcessPayment,
    l0: Ledger,
    l1: Ledger,
    l2: Ledger,
    id1: String,
    id2: String,
    amount1: u64,
    amount2: u64,
    t1: i64,
    t2: i64,
    r: Result<(), PaymentError>,
)
    requires
        l0.wf(),
        first.outcome(l0, l1, id1, amount1, t1, Ok(())),
        second.outcome(l1, l2, id2, amount2, t2, r),
        id1@ == id2@,
    ensures
        r is Err,
        l2 == l1,
{
    assert(l1.payments@[l1.payments@.len() - 1].payment_id@ == id2@);
    assert(has_payment(l1.payments@, id2@));
}

/// A refund right after its payment gives every token holder back the
/// balance it had before the payment (customer, merchant destination and
/// treasury alike) and leaves the payment `Refunded`.
pub proof fn law_refund_restores_balances(
    pay: ProcessPayment,
    refund: RefundPayment,
    l0: Ledger,
    l1: Ledger,
    l2: Ledger,
    payment_id: String,
    amount: u64,
    t1: i64,
    t2: i64,
)
    requires
        l0.wf(),
        l1.wf(),
        pay.outcome(l0, l1, payment_id, amount, t1, Ok(())),
        refund.outcome(l1, l2, payment_id@, t2, Ok(())),
    ensures
        forall|k: Pubkey| balance(l2.balances@, k) == balance(l0.balances@, k),
        l2.payments@[payment_index(l2.payments@, payment_id@)].status == PaymentStatus::Refunded,
        l2.payments@[payment_index(l2.payments@, payment_id@)].refunded_at == Some(t2),
{
    let last = l1.payments@.len() - 1;
    assert(l1.payments@[last].payment_id@ == payment_id@);
    assert(has_payment(l1.payments@, payment_id@));
    assert(payment_index(l1.payments@, payment_id@) == last);
    let mi = merchant_index(l0.merchants@, pay.merchant_id@);
    assert(l1.merchants@[mi].merchant_id@ == pay.merchant_id@);
    assert(has_merchant(l1.merchants@, pay.merchant_id@));
    assert(merchant_index(l1.merchants@, pay.merchant_id@) == mi);
    let pi = payment_index(l1.payments@, payment_id@);
    assert(l2.payments@[pi].payment_id@ == payment_id@);
    assert(has_payment(l2.payments@, payment_id@));
    assert(payment_index(l2.payments@, payment_id@) == pi);
}

/// A refunded payment cannot be refunded again: a second attempt, whoever
/// signs it and whichever customer it names, fails with
/// `PaymentAlreadyRefunded` and changes nothing.
pub proof fn law_refund_once(
    first: RefundPayment,
    second: RefundPayment,
    l1: Ledger,
    l2: Ledger,
    l3: Ledger,
    payment_id: String,
    t2: i64,
    t3: i64,
    r: Result<(), PaymentError>,
)
    requires
        l1.wf(),
        l2.wf(),
        first.outcome(l1, l2, payment_id@, t2, Ok(())),
        second.outcome(l2, l3, payment_id@, t3, r),
    ensures
        r == Err::<(), PaymentError>(PaymentError::PaymentAlreadyRefunded),
        l3 == l2,
{
    let pi = payment_index(l1.payments@, payment_id@);
    let pay = l1.payments@[pi];
    assert(l2.payments@[pi].payment_id@ == payment_id@);
    assert(has_payment(l2.payments@, payment_id@));
    assert(payment_index(l2.payments@, payment_id@) == pi);
}

/// Only the authority of the paid merchant may refund a payment not yet
/// refunded: anyone else is refused with `RefundNotAuthorized` and nothing changes.
pub proof fn law_refund_needs_merchant_authority(
    refund: RefundPayment,
    pre: Ledger,
    post: Ledger,
    payment_id: String,
    now: i64,
    r: Result<(), PaymentError>,
)
    requires
        pre.wf(),
        refund.outcome(pre, post, payment_id@, now, r),
        pre.platform is Some,
        has_payment(pre.payments@, payment_id@),
        RefundPayment::payment_of(pre, payment_id@).status == PaymentStatus::Completed,
        has_merchant(pre.merchants@, RefundPayment::payment_of(pre, payment_id@).merchant@),
        refund.merchant_authority != RefundPayment::merchant_of(pre, payment_id@).authority,
    ensures
        r == Err::<(), PaymentError>(PaymentError::RefundNotAuthorized),
        post == pre,
{
}

/// An accepted claim leaves the treasury empty, so a claim right after it is
/// refused with `NoFeesToClaim`.
pub proof fn law_claim_drains_treasury(
    first: ClaimPlatformFees,
    second: ClaimPlatformFees,
    l0: Ledger,
    l1: Ledger,
    l2: Ledger,
    r: Result<(), PaymentError>,
)
    requires
        l0.wf(),
        first.outcome(l0, l1, Ok(())),
        second.outcome(l1, l2, r),
        second.authority == first.authority,
    ensures
        balance(l1.balances@, l1.platform->Some_0.treasury) == 0,
        r == Err::<(), PaymentError>(PaymentError::NoFeesToClaim),
        l2 == l1,
{
}

/// A payment below the minimum, on an inactive platform or to an inactive
/// merchant is refused and changes nothing: no record, no aggregate, no balance.
pub proof fn law_rejected_payment_has_no_effect(
    ctx: ProcessPayment,
    pre: Ledger,
    post: Ledger,
    payment_id: String,
    amount: u64,
    now: i64,
    r: Result<(), PaymentError>,
)
    requires
        pre.wf(),
        ctx.outcome(pre, post, payment_id, amount, now, r),
        pre.platform is Some,
        has_merchant(pre.merchants@, ctx.merchant_id@),
        amount < pre.platform->Some_0.min_payment_amount || !pre.platform->Some_0.is_active
            || !ctx.merchant_of(pre).is_active,
    ensures
        r is Err,
        post == pre,
{
}

} // verus!
