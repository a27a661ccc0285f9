use x402_hack_payment::codec::{
    decode_customer, decode_merchant, decode_payment, decode_platform, encode_customer,
    encode_merchant, encode_payment, encode_platform,
};
use x402_hack_payment::{Customer, Merchant, Payment, PaymentStatus, Platform};

fn sample_payment(refunded_at: Option<i64>) -> Payment {
    Payment {
        payment_id: "order-42".to_string(),
        customer: u64::MAX,
        merchant: "café".to_string(),
        amount: 1_000_000,
        fee_amount: 25_000,
        merchant_amount: 975_000,
        status: if refunded_at.is_some() { PaymentStatus::Refunded } else { PaymentStatus::Completed },
        created_at: -1_700_000_000,
        refunded_at,
    }
}

fn assert_same_payment(a: &Payment, b: &Payment) {
    assert_eq!(a.payment_id, b.payment_id);
    assert_eq!(a.customer, b.customer);
    assert_eq!(a.merchant, b.merchant);
    assert_eq!(a.amount, b.amount);
    assert_eq!(a.fee_amount, b.fee_amount);
    assert_eq!(a.merchant_amount, b.merchant_amount);
    assert_eq!(a.status, b.status);
    assert_eq!(a.created_at, b.created_at);
    assert_eq!(a.refunded_at, b.refunded_at);
}

#[test]
fn customer_round_trip() {
    let c = Customer { customer: 7, total_spent: u64::MAX, transaction_count: 3, created_at: i64::MIN };
    let bytes = encode_customer(&c);
    assert_eq!(bytes.len(), 32);
    assert_eq!(&bytes[0..8], &[7, 0, 0, 0, 0, 0, 0, 0]);
    assert_eq!(decode_customer(&bytes), Some(c));
}

#[test]
fn platform_round_trip() {
    let p = Platform {
        authority: 1,
        treasury: 2,
        usdc_mint: 0x0102_0304_0506_0708,
        min_payment_amount: 1000,
        fee_bps: 250,
        is_active: true,
    };
    let bytes = encode_platform(&p);
    assert_eq!(bytes.len(), 41);
    assert_eq!(&bytes[16..24], &[8, 7, 6, 5, 4, 3, 2, 1]);
    assert_eq!(decode_platform(&bytes), Some(p));
    let inactive = Platform { is_active: false, ..p };
    assert_eq!(decode_platform(&encode_platform(&inactive)), Some(inactive));
}

#[test]
fn merchant_round_trip() {
    let m = Merchant {
        merchant_id: "shop-ü".to_string(),
        authority: 10,
        settlement_wallet: 11,
        fee: 1000,
        volume: 975_000,
        total_fees: 25_000,
        transaction_count: 1,
        created_at: 1_700_000_000,
        is_active: true,
    };
    let bytes = encode_merchant(&m);
    // "shop-ü" is 7 bytes of UTF-8.
    assert_eq!(bytes.len(), 8 + 7 + 51);
    assert_eq!(bytes[0], 7);
    let back = decode_merchant(&bytes).unwrap();
    assert_eq!(back.merchant_id, m.merchant_id);
    assert_eq!(back.authority, 10);
    assert_eq!(back.settlement_wallet, 11);
    assert_eq!(back.fee, 1000);
    assert_eq!(back.volume, 975_000);
    assert_eq!(back.total_fees, 25_000);
    assert_eq!(back.transaction_count, 1);
    assert_eq!(back.created_at, 1_700_000_000);
    assert!(back.is_active);
}

#[test]
fn payment_round_trip() {
    for refunded_at in [None, Some(0), Some(-5), Some(i64::MAX)] {
        let p = sample_payment(refunded_at);
        let bytes = encode_payment(&p);
        let back = decode_payment(&bytes).unwrap();
        assert_same_payment(&back, &p);
    }
}

#[test]
fn malformed_records_rejected() {
    let p = sample_payment(Some(3));
    let mut bytes = encode_payment(&p);
    bytes.pop();
    assert!(decode_payment(&bytes).is_none());
    let c = Customer { customer: 1, total_spent: 2, transaction_count: 3, created_at: 4 };
    let mut bytes = encode_customer(&c);
    bytes.push(0);
    assert!(decode_customer(&bytes).is_none());
    let mut bytes = encode_platform(&Platform {
        authority: 1,
        treasury: 2,
        usdc_mint: 3,
        min_payment_amount: 4,
        fee_bps: 5,
        is_active: false,
    });
    bytes[40] = 2;
    assert!(decode_platform(&bytes).is_none());
    // A text that is not UTF-8.
    let mut bytes = vec![1, 0, 0, 0, 0, 0, 0, 0, 0xff];
    bytes.extend(std::iter::repeat(0).take(51));
    assert!(decode_merchant(&bytes).is_none());
    bytes[8] = b'a';
    assert_eq!(decode_merchant(&bytes).unwrap().merchant_id, "a");
}
