use x402_hack_payment::instructions::payment::split_amount;
use x402_hack_payment::{
    claim_platform_fees, initialize_merchant, process_payment, refund_payment, set_platform_config,
    ClaimPlatformFees, InitializeMerchant, InitializePlatform, Ledger, Mint, PaymentError,
    PaymentStatus, ProcessPayment, Pubkey, RefundPayment,
};

const AUTHORITY: Pubkey = 1;
const TREASURY: Pubkey = 2;
const USDC: Pubkey = 3;
const OTHER_MINT: Pubkey = 4;
const MERCHANT_AUTHORITY: Pubkey = 10;
const SETTLEMENT: Pubkey = 11;
const ALICE: Pubkey = 20;
const BOB: Pubkey = 21;

fn platform_ctx() -> InitializePlatform {
    InitializePlatform {
        authority: AUTHORITY,
        usdc_mint: Mint { key: USDC, decimals: 6 },
        platform_treasury: TREASURY,
    }
}

fn merchant_ctx() -> InitializeMerchant {
    InitializeMerchant { payer: MERCHANT_AUTHORITY, settlement_wallet: SETTLEMENT }
}

fn pay_ctx(payer: Pubkey) -> ProcessPayment {
    ProcessPayment { payer, merchant_id: "shop".to_string(), usdc_mint: USDC }
}

fn refund_ctx(signer: Pubkey, customer: Pubkey) -> RefundPayment {
    RefundPayment { merchant_authority: signer, customer, usdc_mint: USDC }
}

/// A platform at 250 bps with a minimum of 1000, merchant "shop", and Alice
/// holding 10 tokens of 6 decimals.
fn setup() -> Ledger {
    let mut l = Ledger::new();
    set_platform_config(&platform_ctx(), &mut l, 250, 1000).unwrap();
    initialize_merchant(&merchant_ctx(), &mut l, "shop".to_string(), 100, 5).unwrap();
    l.deposit(ALICE, 10_000_000).unwrap();
    l
}

fn payment_index(l: &Ledger, id: &str) -> usize {
    l.find_payment(&id.to_string()).unwrap()
}

#[test]
fn fee_split_at_250_bps() {
    let mut l = setup();
    process_payment(&pay_ctx(ALICE), &mut l, "p1".to_string(), 1_000_000, 7).unwrap();
    let p = &l.payments[payment_index(&l, "p1")];
    assert_eq!(p.fee_amount, 25_000);
    assert_eq!(p.merchant_amount, 975_000);
    assert_eq!(p.amount, 1_000_000);
    assert_eq!(p.status, PaymentStatus::Completed);
    assert_eq!(p.created_at, 7);
    assert_eq!(p.refunded_at, None);
    assert_eq!(p.customer, ALICE);
    assert_eq!(p.merchant, "shop");
    assert_eq!(l.balance_of(ALICE), 9_000_000);
    assert_eq!(l.balance_of(SETTLEMENT), 975_000);
    assert_eq!(l.balance_of(TREASURY), 25_000);
    let m = &l.merchants[0];
    assert_eq!(m.volume, 975_000);
    assert_eq!(m.total_fees, 25_000);
    assert_eq!(m.transaction_count, 1);
    let c = l.customers.get(&ALICE).unwrap();
    assert_eq!(c.total_spent, 1_000_000);
    assert_eq!(c.transaction_count, 1);
    assert_eq!(c.created_at, 7);
}

#[test]
fn split_amount_rounds_down() {
    assert_eq!(split_amount(1_000_000, 250), Some((25_000, 975_000)));
    assert_eq!(split_amount(1_001, 250), Some((25, 976)));
    assert_eq!(split_amount(39, 250), Some((0, 39)));
    assert_eq!(split_amount(12_345, 0), Some((0, 12_345)));
    assert_eq!(split_amount(12_345, 1000), Some((1_234, 11_111)));
    assert_eq!(split_amount(u64::MAX, 2), None);
    assert_eq!(split_amount(10, 20_000), None);
}

#[test]
fn split_adds_up_for_many_amounts() {
    for amount in [1u64, 7, 399, 400, 401, 9_999, 10_000, 123_456_789] {
        for bps in [0u64, 1, 250, 999, 1000] {
            let (fee, net) = split_amount(amount, bps).unwrap();
            assert_eq!(fee, amount * bps / 10_000);
            assert_eq!(fee + net, amount);
        }
    }
}

#[test]
fn second_customer_payment_accumulates() {
    let mut l = setup();
    process_payment(&pay_ctx(ALICE), &mut l, "p1".to_string(), 1_000_000, 7).unwrap();
    process_payment(&pay_ctx(ALICE), &mut l, "p2".to_string(), 2_000_000, 9).unwrap();
    let c = l.customers.get(&ALICE).unwrap();
    assert_eq!(c.total_spent, 3_000_000);
    assert_eq!(c.transaction_count, 2);
    assert_eq!(c.created_at, 7);
    assert_eq!(l.merchants[0].transaction_count, 2);
    assert_eq!(l.balance_of(TREASURY), 75_000);
}

#[test]
fn duplicate_merchant_rejected() {
    let mut l = setup();
    let r = initialize_merchant(&merchant_ctx(), &mut l, "shop".to_string(), 0, 6);
    assert_eq!(r, Err(PaymentError::AccountAlreadyInUse));
    assert_eq!(l.merchants.len(), 1);
    assert_eq!(l.merchants[0].created_at, 5);
}

#[test]
fn duplicate_payment_id_rejected() {
    let mut l = setup();
    process_payment(&pay_ctx(ALICE), &mut l, "p1".to_string(), 1_000_000, 7).unwrap();
    let r = process_payment(&pay_ctx(ALICE), &mut l, "p1".to_string(), 2_000_000, 8);
    assert_eq!(r, Err(PaymentError::AccountAlreadyInUse));
    assert_eq!(l.payments.len(), 1);
    assert_eq!(l.balance_of(ALICE), 9_000_000);
}

#[test]
fn refund_restores_balances() {
    let mut l = setup();
    process_payment(&pay_ctx(ALICE), &mut l, "p1".to_string(), 1_000_000, 7).unwrap();
    refund_payment(&refund_ctx(MERCHANT_AUTHORITY, ALICE), &mut l, &"p1".to_string(), 8).unwrap();
    assert_eq!(l.balance_of(ALICE), 10_000_000);
    assert_eq!(l.balance_of(SETTLEMENT), 0);
    assert_eq!(l.balance_of(TREASURY), 0);
    let p = &l.payments[payment_index(&l, "p1")];
    assert_eq!(p.status, PaymentStatus::Refunded);
    assert_eq!(p.refunded_at, Some(8));
    let m = &l.merchants[0];
    assert_eq!(m.volume, 0);
    assert_eq!(m.total_fees, 0);
    assert_eq!(m.transaction_count, 0);
    // Customer aggregates keep lifetime activity.
    let c = l.customers.get(&ALICE).unwrap();
    assert_eq!(c.total_spent, 1_000_000);
    assert_eq!(c.transaction_count, 1);
    let again = refund_payment(&refund_ctx(MERCHANT_AUTHORITY, ALICE), &mut l, &"p1".to_string(), 9);
    assert_eq!(again, Err(PaymentError::PaymentAlreadyRefunded));
    assert_eq!(l.balance_of(ALICE), 10_000_000);
}

#[test]
fn refund_by_other_authority_rejected() {
    let mut l = setup();
    process_payment(&pay_ctx(ALICE), &mut l, "p1".to_string(), 1_000_000, 7).unwrap();
    let r = refund_payment(&refund_ctx(BOB, ALICE), &mut l, &"p1".to_string(), 8);
    assert_eq!(r, Err(PaymentError::RefundNotAuthorized));
    let r = refund_payment(&refund_ctx(AUTHORITY, ALICE), &mut l, &"p1".to_string(), 8);
    assert_eq!(r, Err(PaymentError::RefundNotAuthorized));
    assert_eq!(l.payments[0].status, PaymentStatus::Completed);
    assert_eq!(l.balance_of(SETTLEMENT), 975_000);
}

#[test]
fn refund_to_wrong_customer_rejected() {
    let mut l = setup();
    process_payment(&pay_ctx(ALICE), &mut l, "p1".to_string(), 1_000_000, 7).unwrap();
    let r = refund_payment(&refund_ctx(MERCHANT_AUTHORITY, BOB), &mut l, &"p1".to_string(), 8);
    assert_eq!(r, Err(PaymentError::RefundNotAuthorized));
    assert_eq!(l.balance_of(BOB), 0);
}

#[test]
fn refund_of_unknown_payment_rejected() {
    let mut l = setup();
    let r = refund_payment(&refund_ctx(MERCHANT_AUTHORITY, ALICE), &mut l, &"nope".to_string(), 8);
    assert_eq!(r, Err(PaymentError::AccountNotInitialized));
}

#[test]
fn refund_saturates_merchant_aggregates() {
    let mut l = setup();
    process_payment(&pay_ctx(ALICE), &mut l, "p1".to_string(), 1_000_000, 7).unwrap();
    l.merchants[0].volume = 10;
    l.merchants[0].total_fees = 3;
    l.merchants[0].transaction_count = 0;
    refund_payment(&refund_ctx(MERCHANT_AUTHORITY, ALICE), &mut l, &"p1".to_string(), 8).unwrap();
    assert_eq!(l.merchants[0].volume, 0);
    assert_eq!(l.merchants[0].total_fees, 0);
    assert_eq!(l.merchants[0].transaction_count, 0);
}

#[test]
fn refund_needs_merchant_funds() {
    let mut l = setup();
    process_payment(&pay_ctx(ALICE), &mut l, "p1".to_string(), 1_000_000, 7).unwrap();
    // The merchant has spent its share elsewhere.
    l.balances.insert(SETTLEMENT, 5);
    let r = refund_payment(&refund_ctx(MERCHANT_AUTHORITY, ALICE), &mut l, &"p1".to_string(), 8);
    assert_eq!(r, Err(PaymentError::InsufficientFunds));
    assert_eq!(l.payments[0].status, PaymentStatus::Completed);
    assert_eq!(l.balance_of(SETTLEMENT), 5);
}

#[test]
fn claim_drains_treasury() {
    let mut l = setup();
    process_payment(&pay_ctx(ALICE), &mut l, "p1".to_string(), 1_000_000, 7).unwrap();
    let ctx = ClaimPlatformFees { authority: AUTHORITY };
    claim_platform_fees(&ctx, &mut l).unwrap();
    assert_eq!(l.balance_of(TREASURY), 0);
    assert_eq!(l.balance_of(AUTHORITY), 25_000);
    assert_eq!(claim_platform_fees(&ctx, &mut l), Err(PaymentError::NoFeesToClaim));
    assert_eq!(l.balance_of(AUTHORITY), 25_000);
}

#[test]
fn claim_by_other_signer_rejected() {
    let mut l = setup();
    process_payment(&pay_ctx(ALICE), &mut l, "p1".to_string(), 1_000_000, 7).unwrap();
    let r = claim_platform_fees(&ClaimPlatformFees { authority: BOB }, &mut l);
    assert_eq!(r, Err(PaymentError::Unauthorized));
    assert_eq!(l.balance_of(TREASURY), 25_000);
}

#[test]
fn claim_without_platform_rejected() {
    let mut l = Ledger::new();
    let r = claim_platform_fees(&ClaimPlatformFees { authority: AUTHORITY }, &mut l);
    assert_eq!(r, Err(PaymentError::AccountNotInitialized));
}

#[test]
fn payment_below_minimum_rejected() {
    let mut l = setup();
    let r = process_payment(&pay_ctx(ALICE), &mut l, "p1".to_string(), 999, 7);
    assert_eq!(r, Err(PaymentError::PaymentBelowMinimum));
    assert!(l.payments.is_empty());
    assert!(l.customers.is_empty());
    assert_eq!(l.merchants[0].transaction_count, 0);
    assert_eq!(l.balance_of(ALICE), 10_000_000);
    assert!(process_payment(&pay_ctx(ALICE), &mut l, "p1".to_string(), 1000, 7).is_ok());
}

#[test]
fn payment_on_inactive_platform_rejected() {
    let mut l = setup();
    let mut p = l.platform.unwrap();
    p.is_active = false;
    l.platform = Some(p);
    let r = process_payment(&pay_ctx(ALICE), &mut l, "p1".to_string(), 1_000_000, 7);
    assert_eq!(r, Err(PaymentError::PlatformInactive));
    assert!(l.payments.is_empty());
    assert!(l.customers.is_empty());
    assert_eq!(l.balance_of(ALICE), 10_000_000);
}

#[test]
fn payment_to_inactive_merchant_rejected() {
    let mut l = setup();
    l.merchants[0].is_active = false;
    let r = process_payment(&pay_ctx(ALICE), &mut l, "p1".to_string(), 1_000_000, 7);
    assert_eq!(r, Err(PaymentError::MerchantInactive));
    assert!(l.payments.is_empty());
    assert_eq!(l.merchants[0].volume, 0);
    assert_eq!(l.balance_of(SETTLEMENT), 0);
}

#[test]
fn payment_ids_checked() {
    let mut l = setup();
    let r = process_payment(&pay_ctx(ALICE), &mut l, String::new(), 1_000_000, 7);
    assert_eq!(r, Err(PaymentError::InvalidPaymentId));
    let r = process_payment(&pay_ctx(ALICE), &mut l, "x".repeat(65), 1_000_000, 7);
    assert_eq!(r, Err(PaymentError::InvalidPaymentId));
    // 'é' takes two bytes: 33 of them make 66 bytes, 32 make 64.
    let r = process_payment(&pay_ctx(ALICE), &mut l, "é".repeat(33), 1_000_000, 7);
    assert_eq!(r, Err(PaymentError::InvalidPaymentId));
    assert!(process_payment(&pay_ctx(ALICE), &mut l, "é".repeat(32), 1_000, 7).is_ok());
    assert!(process_payment(&pay_ctx(ALICE), &mut l, "x".repeat(64), 1_000, 7).is_ok());
}

#[test]
fn payment_in_other_asset_rejected() {
    let mut l = setup();
    let ctx = ProcessPayment { payer: ALICE, merchant_id: "shop".to_string(), usdc_mint: OTHER_MINT };
    let r = process_payment(&ctx, &mut l, "p1".to_string(), 1_000_000, 7);
    assert_eq!(r, Err(PaymentError::InvalidTokenMint));
}

#[test]
fn payment_to_unknown_merchant_rejected() {
    let mut l = setup();
    let ctx = ProcessPayment { payer: ALICE, merchant_id: "nobody".to_string(), usdc_mint: USDC };
    let r = process_payment(&ctx, &mut l, "p1".to_string(), 1_000_000, 7);
    assert_eq!(r, Err(PaymentError::AccountNotInitialized));
}

#[test]
fn payment_without_funds_rejected() {
    let mut l = setup();
    let r = process_payment(&pay_ctx(BOB), &mut l, "p1".to_string(), 1_000_000, 7);
    assert_eq!(r, Err(PaymentError::InsufficientFunds));
    assert!(l.payments.is_empty());
    assert!(l.customers.is_empty());
}

#[test]
fn payment_with_fee_overflow_rejected() {
    let mut l = setup();
    l.deposit(BOB, u64::MAX).unwrap();
    let r = process_payment(&pay_ctx(BOB), &mut l, "p1".to_string(), u64::MAX, 7);
    assert_eq!(r, Err(PaymentError::CalculationError));
    assert_eq!(l.balance_of(BOB), u64::MAX);
}

#[test]
fn deposit_overflow_rejected() {
    let mut l = Ledger::new();
    l.deposit(ALICE, u64::MAX).unwrap();
    assert_eq!(l.deposit(ALICE, 1), Err(PaymentError::CalculationError));
    assert_eq!(l.balance_of(ALICE), u64::MAX);
}

#[test]
fn platform_config_checked() {
    let mut l = Ledger::new();
    assert_eq!(set_platform_config(&platform_ctx(), &mut l, 1001, 1), Err(PaymentError::InvalidFeeBps));
    assert_eq!(
        set_platform_config(&platform_ctx(), &mut l, 1000, 0),
        Err(PaymentError::InvalidMinPaymentAmount)
    );
    let nine = InitializePlatform {
        authority: AUTHORITY,
        usdc_mint: Mint { key: USDC, decimals: 9 },
        platform_treasury: TREASURY,
    };
    assert_eq!(set_platform_config(&nine, &mut l, 250, 1), Err(PaymentError::InvalidAssetConfiguration));
    assert!(l.platform.is_none());
    set_platform_config(&platform_ctx(), &mut l, 1000, 1).unwrap();
    let p = l.platform.unwrap();
    assert_eq!(p.fee_bps, 1000);
    assert_eq!(p.min_payment_amount, 1);
    assert_eq!(p.authority, AUTHORITY);
    assert_eq!(p.treasury, TREASURY);
    assert_eq!(p.usdc_mint, USDC);
    assert!(p.is_active);
    assert_eq!(set_platform_config(&platform_ctx(), &mut l, 10, 1), Err(PaymentError::AccountAlreadyInUse));
}

#[test]
fn merchant_registration_checked() {
    let mut l = Ledger::new();
    assert_eq!(
        initialize_merchant(&merchant_ctx(), &mut l, "a".to_string(), 0, 1),
        Err(PaymentError::AccountNotInitialized)
    );
    set_platform_config(&platform_ctx(), &mut l, 250, 1).unwrap();
    assert_eq!(
        initialize_merchant(&merchant_ctx(), &mut l, String::new(), 0, 1),
        Err(PaymentError::InvalidMerchantId)
    );
    assert_eq!(
        initialize_merchant(&merchant_ctx(), &mut l, "m".repeat(65), 0, 1),
        Err(PaymentError::InvalidMerchantId)
    );
    assert_eq!(
        initialize_merchant(&merchant_ctx(), &mut l, "a".to_string(), 1001, 1),
        Err(PaymentError::FeeTooHigh)
    );
    initialize_merchant(&merchant_ctx(), &mut l, "m".repeat(64), 1000, 3).unwrap();
    let m = &l.merchants[0];
    assert_eq!(m.fee, 1000);
    assert_eq!(m.authority, MERCHANT_AUTHORITY);
    assert_eq!(m.settlement_wallet, SETTLEMENT);
    assert_eq!(m.created_at, 3);
    assert!(m.is_active);
    assert_eq!((m.volume, m.total_fees, m.transaction_count), (0, 0, 0));
    let mut p = l.platform.unwrap();
    p.is_active = false;
    l.platform = Some(p);
    assert_eq!(
        initialize_merchant(&merchant_ctx(), &mut l, "b".to_string(), 0, 1),
        Err(PaymentError::PlatformInactive)
    );
}

#[test]
fn merchant_fee_does_not_change_settlement() {
    let mut l = setup();
    // "shop" was registered at 100 bps; the platform rate of 250 applies.
    process_payment(&pay_ctx(ALICE), &mut l, "p1".to_string(), 10_000, 7).unwrap();
    assert_eq!(l.payments[0].fee_amount, 250);
}

#[test]
fn refund_in_other_asset_rejected() {
    let mut l = setup();
    process_payment(&pay_ctx(ALICE), &mut l, "p1".to_string(), 1_000_000, 7).unwrap();
    let ctx = RefundPayment { merchant_authority: MERCHANT_AUTHORITY, customer: ALICE, usdc_mint: OTHER_MINT };
    let r = refund_payment(&ctx, &mut l, &"p1".to_string(), 8);
    assert_eq!(r, Err(PaymentError::InvalidTokenMint));
    assert_eq!(l.payments[0].status, PaymentStatus::Completed);
}

#[test]
fn payment_by_customer_equal_to_settlement_wallet() {
    let mut l = setup();
    l.deposit(SETTLEMENT, 1_000_000).unwrap();
    process_payment(&pay_ctx(SETTLEMENT), &mut l, "self".to_string(), 1_000_000, 7).unwrap();
    // The merchant share stays put; only the fee leaves.
    assert_eq!(l.balance_of(SETTLEMENT), 975_000);
    assert_eq!(l.balance_of(TREASURY), 25_000);
}

#[test]
fn repeat_refund_by_any_signer_rejected() {
    let mut l = setup();
    process_payment(&pay_ctx(ALICE), &mut l, "p1".to_string(), 1_000_000, 7).unwrap();
    refund_payment(&refund_ctx(MERCHANT_AUTHORITY, ALICE), &mut l, &"p1".to_string(), 8).unwrap();
    let r = refund_payment(&refund_ctx(BOB, ALICE), &mut l, &"p1".to_string(), 9);
    assert_eq!(r, Err(PaymentError::PaymentAlreadyRefunded));
    let r = refund_payment(&refund_ctx(MERCHANT_AUTHORITY, BOB), &mut l, &"p1".to_string(), 9);
    assert_eq!(r, Err(PaymentError::PaymentAlreadyRefunded));
    assert_eq!(l.payments[0].refunded_at, Some(8));
    assert_eq!(l.balance_of(ALICE), 10_000_000);
}

#[test]
fn treasury_owned_by_authority_rejected() {
    let mut l = Ledger::new();
    let ctx = InitializePlatform {
        authority: AUTHORITY,
        usdc_mint: Mint { key: USDC, decimals: 6 },
        platform_treasury: AUTHORITY,
    };
    assert_eq!(set_platform_config(&ctx, &mut l, 250, 1000), Err(PaymentError::InvalidTreasury));
    assert!(l.platform.is_none());
}

#[test]
fn payment_from_treasury_rejected() {
    let mut l = setup();
    l.deposit(TREASURY, 5_000_000).unwrap();
    let r = process_payment(&pay_ctx(TREASURY), &mut l, "p1".to_string(), 1_000_000, 7);
    assert_eq!(r, Err(PaymentError::InvalidTreasury));
    assert!(l.payments.is_empty());
    assert_eq!(l.balance_of(TREASURY), 5_000_000);
}
