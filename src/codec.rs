use crate::state::customer::Customer;
use crate::state::merchant::Merchant;
use crate::state::payment::{Payment, PaymentStatus};
use crate::state::platform::Platform;
use vstd::prelude::*;
use vstd::utf8::{encode_utf8, valid_utf8};

verus! {

/// The 8 little-endian bytes of `x`.
pub open spec fn enc_u64(x: u64) -> Seq<u8> {
    seq![
        x as u8,
        (x >> 8u64) as u8,
        (x >> 16u64) as u8,
        (x >> 24u64) as u8,
        (x >> 32u64) as u8,
        (x >> 40u64) as u8,
        (x >> 48u64) as u8,
        (x >> 56u64) as u8,
    ]
}

/// The number whose little-endian bytes are the first 8 of `b`.
pub open spec fn dec_u64(b: Seq<u8>) -> u64 {
    (b[0] as u64) | ((b[1] as u64) << 8u64) | ((b[2] as u64) << 16u64) | ((b[3] as u64) << 24u64)
        | ((b[4] as u64) << 32u64) | ((b[5] as u64) << 40u64) | ((b[6] as u64) << 48u64) | ((
    b[7] as u64) << 56u64)
}

pub proof fn lemma_u64_round_trip(x: u64)
    ensures
        dec_u64(enc_u64(x)) == x,
{
    let b = enc_u64(x);
    assert(((x as u8) as u64) | ((((x >> 8u64) as u8) as u64) << 8u64) | ((((x >> 16u64) as u8) as u64)
        << 16u64) | ((((x >> 24u64) as u8) as u64) << 24u64) | ((((x >> 32u64) as u8) as u64)
        << 32u64) | ((((x >> 40u64) as u8) as u64) << 40u64) | ((((x >> 48u64) as u8) as u64)
        << 48u64) | ((((x >> 56u64) as u8) as u64) << 56u64) == x) by (bit_vector);
}

/// Any 8 bytes are the encoding of the number they decode to.
pub proof fn lemma_u64_bytes(w: Seq<u8>)
    requires
        w.len() == 8,
    ensures
        enc_u64(dec_u64(w)) == w,
{
    let (b0, b1, b2, b3, b4, b5, b6, b7) = (w[0], w[1], w[2], w[3], w[4], w[5], w[6], w[7]);
    let x = dec_u64(w);
    assert(x == (b0 as u64) | ((b1 as u64) << 8u64) | ((b2 as u64) << 16u64) | ((b3 as u64) << 24u64)
        | ((b4 as u64) << 32u64) | ((b5 as u64) << 40u64) | ((b6 as u64) << 48u64) | ((b7 as u64)
        << 56u64));
    assert(x as u8 == b0 && (x >> 8u64) as u8 == b1 && (x >> 16u64) as u8 == b2 && (x >> 24u64) as u8
        == b3 && (x >> 32u64) as u8 == b4 && (x >> 40u64) as u8 == b5 && (x >> 48u64) as u8 == b6 && (x
        >> 56u64) as u8 == b7) by (bit_vector)
        requires
            x == (b0 as u64) | ((b1 as u64) << 8u64) | ((b2 as u64) << 16u64) | ((b3 as u64) << 24u64)
                | ((b4 as u64) << 32u64) | ((b5 as u64) << 40u64) | ((b6 as u64) << 48u64) | ((
            b7 as u64) << 56u64),
    ;
    assert(enc_u64(x) =~= w);
}

/// Any 2 bytes are the encoding of the number they decode to.
pub proof fn lemma_u16_bytes(w: Seq<u8>)
    requires
        w.len() == 2,
    ensures
        enc_u16(dec_u16(w)) == w,
{
    let (b0, b1) = (w[0], w[1]);
    let x = dec_u16(w);
    assert(x as u8 == b0 && (x >> 8u16) as u8 == b1) by (bit_vector)
        requires
            x == (b0 as u16) | ((b1 as u16) << 8u16),
    ;
    assert(enc_u16(x) =~= w);
}

/// Equal 8-byte encodings come from equal numbers.
pub proof fn lemma_u64_injective(x: u64, y: u64)
    requires
        enc_u64(x) == enc_u64(y),
    ensures
        x == y,
{
    lemma_u64_round_trip(x);
    lemma_u64_round_trip(y);
}

pub proof fn lemma_i64_bits(y: u64)
    ensures
        (y as i64) as u64 == y,
{
    assert((y as i64) as u64 == y) by (bit_vector);
}

pub proof fn lemma_i64_round_trip(x: i64)
    ensures
        (x as u64) as i64 == x,
{
    assert((x as u64) as i64 == x) by (bit_vector);
}

/// The 2 little-endian bytes of `x`.
pub open spec fn enc_u16(x: u16) -> Seq<u8> {
    seq![x as u8, (x >> 8u16) as u8]
}

pub open spec fn dec_u16(b: Seq<u8>) -> u16 {
    (b[0] as u16) | ((b[1] as u16) << 8u16)
}

pub proof fn lemma_u16_round_trip(x: u16)
    ensures
        dec_u16(enc_u16(x)) == x,
{
    assert(((x as u8) as u16) | ((((x >> 8u16) as u8) as u16) << 8u16) == x) by (bit_vector);
}

pub open spec fn enc_bool(x: bool) -> Seq<u8> {
    seq![if x { 1u8 } else { 0u8 }]
}

/// A text as its UTF-8 byte length, 8 bytes, followed by its UTF-8 bytes.
pub open spec fn enc_str(s: Seq<char>) -> Seq<u8> {
    enc_u64(encode_utf8(s).len() as u64) + encode_utf8(s)
}

fn push_u64(out: &mut Vec<u8>, x: u64)
    ensures
        final(out)@ == old(out)@ + enc_u64(x),
{
    out.push(x as u8);
    out.push((x >> 8) as u8);
    out.push((x >> 16) as u8);
    out.push((x >> 24) as u8);
    out.push((x >> 32) as u8);
    out.push((x >> 40) as u8);
    out.push((x >> 48) as u8);
    out.push((x >> 56) as u8);
    assert(final(out)@ =~= old(out)@ + enc_u64(x));
}

fn push_u16(out: &mut Vec<u8>, x: u16)
    ensures
        final(out)@ == old(out)@ + enc_u16(x),
{
    out.push(x as u8);
    out.push((x >> 8) as u8);
    assert(final(out)@ =~= old(out)@ + enc_u16(x));
}

fn push_bool(out: &mut Vec<u8>, x: bool)
    ensures
        final(out)@ == old(out)@ + enc_bool(x),
{
    out.push(if x { 1u8 } else { 0u8 });
    assert(final(out)@ =~= old(out)@ + enc_bool(x));
}

fn push_str(out: &mut Vec<u8>, s: &String)
    ensures
        final(out)@ == old(out)@ + enc_str(s@),
{
    let bytes = s.as_str().as_bytes();
    push_u64(out, bytes.len() as u64);
    let ghost start = out@;
    let mut i: usize = 0;
    while i < bytes.len()
        invariant
            i <= bytes@.len(),
            bytes@ == encode_utf8(s@),
            out@ == start + bytes@.subrange(0, i as int),
        decreases bytes@.len() - i,
    {
        out.push(bytes[i]);
        i = i + 1;
        assert(out@ =~= start + bytes@.subrange(0, i as int));
    }
    assert(bytes@.subrange(0, bytes@.len() as int) =~= bytes@);
    assert(final(out)@ =~= old(out)@ + enc_str(s@));
}

/// A customer record: its four fields in order, 8 bytes each.
pub open spec fn enc_customer(c: Customer) -> Seq<u8> {
    enc_u64(c.customer) + enc_u64(c.total_spent) + enc_u64(c.transaction_count) + enc_u64(
        c.created_at as u64,
    )
}

/// A platform record: its fields in order, 8 bytes each and 1 for the flag.
pub open spec fn enc_platform(p: Platform) -> Seq<u8> {
    enc_u64(p.authority) + enc_u64(p.treasury) + enc_u64(p.usdc_mint) + enc_u64(p.min_payment_amount)
        + enc_u64(p.fee_bps) + enc_bool(p.is_active)
}

/// Distinct customer records have distinct encodings.
pub proof fn lemma_customer_injective(c1: Customer, c2: Customer)
    requires
        enc_customer(c1) == enc_customer(c2),
    ensures
        c1 == c2,
{
    let (e1, e2) = (enc_customer(c1), enc_customer(c2));
    assert(e1.subrange(0, 8) =~= enc_u64(c1.customer) && e2.subrange(0, 8) =~= enc_u64(c2.customer));
    assert(e1.subrange(8, 16) =~= enc_u64(c1.total_spent) && e2.subrange(8, 16) =~= enc_u64(
        c2.total_spent,
    ));
    assert(e1.subrange(16, 24) =~= enc_u64(c1.transaction_count) && e2.subrange(16, 24) =~= enc_u64(
        c2.transaction_count,
    ));
    assert(e1.subrange(24, 32) =~= enc_u64(c1.created_at as u64) && e2.subrange(24, 32) =~= enc_u64(
        c2.created_at as u64,
    ));
    lemma_u64_injective(c1.customer, c2.customer);
    lemma_u64_injective(c1.total_spent, c2.total_spent);
    lemma_u64_injective(c1.transaction_count, c2.transaction_count);
    lemma_u64_injective(c1.created_at as u64, c2.created_at as u64);
    lemma_i64_round_trip(c1.created_at);
    lemma_i64_round_trip(c2.created_at);
}

/// Distinct platform records have distinct encodings.
pub proof fn lemma_platform_injective(p1: Platform, p2: Platform)
    requires
        enc_platform(p1) == enc_platform(p2),
    ensures
        p1 == p2,
{
    let (e1, e2) = (enc_platform(p1), enc_platform(p2));
    assert(e1.subrange(0, 8) =~= enc_u64(p1.authority) && e2.subrange(0, 8) =~= enc_u64(p2.authority));
    assert(e1.subrange(8, 16) =~= enc_u64(p1.treasury) && e2.subrange(8, 16) =~= enc_u64(p2.treasury));
    assert(e1.subrange(16, 24) =~= enc_u64(p1.usdc_mint) && e2.subrange(16, 24) =~= enc_u64(
        p2.usdc_mint,
    ));
    assert(e1.subrange(24, 32) =~= enc_u64(p1.min_payment_amount) && e2.subrange(24, 32) =~= enc_u64(
        p2.min_payment_amount,
    ));
    assert(e1.subrange(32, 40) =~= enc_u64(p1.fee_bps) && e2.subrange(32, 40) =~= enc_u64(p2.fee_bps));
    assert(e1[40] == e2[40]);
    lemma_u64_injective(p1.authority, p2.authority);
    lemma_u64_injective(p1.treasury, p2.treasury);
    lemma_u64_injective(p1.usdc_mint, p2.usdc_mint);
    lemma_u64_injective(p1.min_payment_amount, p2.min_payment_amount);
    lemma_u64_injective(p1.fee_bps, p2.fee_bps);
}

/// Serializes a customer record.
pub fn encode_customer(c: &Customer) -> (r: Vec<u8>)
    ensures
        r@ == enc_customer(*c),
{
    let mut out: Vec<u8> = Vec::new();
    push_u64(&mut out, c.customer);
    push_u64(&mut out, c.total_spent);
    push_u64(&mut out, c.transaction_count);
    push_u64(&mut out, c.created_at as u64);
    assert(out@ =~= enc_customer(*c));
    out
}

/// Reads a customer record back: `None` unless `b` is the encoding of one.
pub fn decode_customer(b: &Vec<u8>) -> (r: Option<Customer>)
    ensures
        r matches Some(c) ==> enc_customer(c) == b@,
        forall|c: Customer| enc_customer(c) == b@ ==> r == Some(c),
{
    if b.len() != 32 {
        assert forall|c: Customer| enc_customer(c) != b@ by {
            assert(enc_customer(c).len() == 32);
        }
        return None;
    }
    let customer = read_u64(b, 0);
    let total_spent = read_u64(b, 8);
    let transaction_count = read_u64(b, 16);
    let created = read_u64(b, 24);
    let c = Customer { customer, total_spent, transaction_count, created_at: created as i64 };
    proof {
        lemma_u64_bytes(b@.subrange(0, 8));
        lemma_u64_bytes(b@.subrange(8, 16));
        lemma_u64_bytes(b@.subrange(16, 24));
        lemma_u64_bytes(b@.subrange(24, 32));
        lemma_i64_bits(created);
        assert(enc_customer(c) =~= b@);
        assert forall|c2: Customer| enc_customer(c2) == b@ implies Some(c) == Some(c2) by {
            lemma_customer_injective(c, c2);
        }
    }
    Some(c)
}

/// Serializes the platform configuration.
pub fn encode_platform(p: &Platform) -> (r: Vec<u8>)
    ensures
        r@ == enc_platform(*p),
{
    let mut out: Vec<u8> = Vec::new();
    push_u64(&mut out, p.authority);
    push_u64(&mut out, p.treasury);
    push_u64(&mut out, p.usdc_mint);
    push_u64(&mut out, p.min_payment_amount);
    push_u64(&mut out, p.fee_bps);
    push_bool(&mut out, p.is_active);
    assert(out@ =~= enc_platform(*p));
    out
}

/// Reads a platform configuration back: `None` unless `b` is the encoding of one.
pub fn decode_platform(b: &Vec<u8>) -> (r: Option<Platform>)
    ensures
        r matches Some(p) ==> enc_platform(p) == b@,
        forall|p: Platform| enc_platform(p) == b@ ==> r == Some(p),
{
    if b.len() != 41 || b[40] > 1 {
        assert forall|p: Platform| enc_platform(p) != b@ by {
            assert(enc_platform(p).len() == 41);
            assert(enc_platform(p)[40] <= 1);
        }
        return None;
    }
    let authority = read_u64(b, 0);
    let treasury = read_u64(b, 8);
    let usdc_mint = read_u64(b, 16);
    let min_payment_amount = read_u64(b, 24);
    let fee_bps = read_u64(b, 32);
    let p = Platform {
        authority,
        treasury,
        usdc_mint,
        min_payment_amount,
        fee_bps,
        is_active: b[40] == 1,
    };
    proof {
        lemma_u64_bytes(b@.subrange(0, 8));
        lemma_u64_bytes(b@.subrange(8, 16));
        lemma_u64_bytes(b@.subrange(16, 24));
        lemma_u64_bytes(b@.subrange(24, 32));
        lemma_u64_bytes(b@.subrange(32, 40));
        assert(enc_platform(p) =~= b@);
        assert forall|p2: Platform| enc_platform(p2) == b@ implies Some(p) == Some(p2) by {
            lemma_platform_injective(p, p2);
        }
    }
    Some(p)
}

/// Equal UTF-8 encodings come from equal texts.
pub proof fn lemma_utf8_injective(a: Seq<char>, b: Seq<char>)
    requires
        encode_utf8(a) == encode_utf8(b),
    ensures
        a == b,
{
    vstd::utf8::encode_utf8_decode_utf8(a);
    vstd::utf8::encode_utf8_decode_utf8(b);
}

/// Relies on std's `String::from_utf8`: it accepts exactly the well-formed
/// UTF-8 byte strings, and the text it then returns is made of those bytes.
#[verifier::external_body]
fn string_from_utf8(bytes: Vec<u8>) -> (r: Option<String>)
    ensures
        r is Some <==> valid_utf8(bytes@),
        r matches Some(s) ==> encode_utf8(s@) == bytes@,
{
    String::from_utf8(bytes).ok()
}

/// The bytes of `b` from `from` up to `to`.
fn copy_range(b: &Vec<u8>, from: usize, to: usize) -> (r: Vec<u8>)
    requires
        from <= to <= b@.len(),
    ensures
        r@ == b@.subrange(from as int, to as int),
{
    let mut out: Vec<u8> = Vec::new();
    let mut i = from;
    while i < to
        invariant
            from <= i <= to <= b@.len(),
            out@ == b@.subrange(from as int, i as int),
        decreases to - i,
    {
        out.push(b[i]);
        i = i + 1;
        assert(out@ =~= b@.subrange(from as int, i as int));
    }
    out
}

/// A merchant record: its identifier as text, then its other fields in order.
pub open spec fn enc_merchant(m: Merchant) -> Seq<u8> {
    enc_str(m.merchant_id@) + enc_u64(m.authority) + enc_u64(m.settlement_wallet) + enc_u16(m.fee)
        + enc_u64(m.volume) + enc_u64(m.total_fees) + enc_u64(m.transaction_count) + enc_u64(
        m.created_at as u64,
    ) + enc_bool(m.is_active)
}

/// Two merchant records hold the same values.
pub open spec fn same_merchant(a: Merchant, b: Merchant) -> bool {
    &&& a.merchant_id@ == b.merchant_id@
    &&& a.authority == b.authority
    &&& a.settlement_wallet == b.settlement_wallet
    &&& a.fee == b.fee
    &&& a.volume == b.volume
    &&& a.total_fees == b.total_fees
    &&& a.transaction_count == b.transaction_count
    &&& a.created_at == b.created_at
    &&& a.is_active == b.is_active
}

/// Where each field of a merchant record lies in its encoding.
pub proof fn lemma_merchant_layout(m: Merchant)
    ensures
        ({
            let e = enc_merchant(m);
            let l = encode_utf8(m.merchant_id@).len() as int;
            let p = 8 + l;
            &&& e.len() == p + 51
            &&& e.subrange(0, 8) == enc_u64(l as u64)
            &&& e.subrange(8, p) == encode_utf8(m.merchant_id@)
            &&& e.subrange(p, p + 8) == enc_u64(m.authority)
            &&& e.subrange(p + 8, p + 16) == enc_u64(m.settlement_wallet)
            &&& e.subrange(p + 16, p + 18) == enc_u16(m.fee)
            &&& e.subrange(p + 18, p + 26) == enc_u64(m.volume)
            &&& e.subrange(p + 26, p + 34) == enc_u64(m.total_fees)
            &&& e.subrange(p + 34, p + 42) == enc_u64(m.transaction_count)
            &&& e.subrange(p + 42, p + 50) == enc_u64(m.created_at as u64)
            &&& e[p + 50] == enc_bool(m.is_active)[0]
        }),
{
    let e = enc_merchant(m);
    let l = encode_utf8(m.merchant_id@).len() as int;
    let p = 8 + l;
    assert(e.subrange(0, 8) =~= enc_u64(l as u64));
    assert(e.subrange(8, p) =~= encode_utf8(m.merchant_id@));
    assert(e.subrange(p, p + 8) =~= enc_u64(m.authority));
    assert(e.subrange(p + 8, p + 16) =~= enc_u64(m.settlement_wallet));
    assert(e.subrange(p + 16, p + 18) =~= enc_u16(m.fee));
    assert(e.subrange(p + 18, p + 26) =~= enc_u64(m.volume));
    assert(e.subrange(p + 26, p + 34) =~= enc_u64(m.total_fees));
    assert(e.subrange(p + 34, p + 42) =~= enc_u64(m.transaction_count));
    assert(e.subrange(p + 42, p + 50) =~= enc_u64(m.created_at as u64));
}

/// Merchant records with equal encodings hold the same values.
pub proof fn lemma_merchant_injective(m1: Merchant, m2: Merchant)
    requires
        enc_merchant(m1) == enc_merchant(m2),
    ensures
        same_merchant(m1, m2),
{
    lemma_merchant_layout(m1);
    lemma_merchant_layout(m2);
    lemma_utf8_injective(m1.merchant_id@, m2.merchant_id@);
    lemma_u64_injective(m1.authority, m2.authority);
    lemma_u64_injective(m1.settlement_wallet, m2.settlement_wallet);
    lemma_u16_round_trip(m1.fee);
    lemma_u16_round_trip(m2.fee);
    lemma_u64_injective(m1.volume, m2.volume);
    lemma_u64_injective(m1.total_fees, m2.total_fees);
    lemma_u64_injective(m1.transaction_count, m2.transaction_count);
    lemma_u64_injective(m1.created_at as u64, m2.created_at as u64);
    lemma_i64_round_trip(m1.created_at);
    lemma_i64_round_trip(m2.created_at);
}

/// Bytes that hold each field of `m` where its encoding puts it are that encoding.
proof fn lemma_merchant_assembled(m: Merchant, b: Seq<u8>)
    requires
        ({
            let l = encode_utf8(m.merchant_id@).len() as int;
            let p = 8 + l;
            &&& b.len() == p + 51
            &&& b.subrange(0, 8) == enc_u64(l as u64)
            &&& b.subrange(8, p) == encode_utf8(m.merchant_id@)
            &&& b.subrange(p, p + 8) == enc_u64(m.authority)
            &&& b.subrange(p + 8, p + 16) == enc_u64(m.settlement_wallet)
            &&& b.subrange(p + 16, p + 18) == enc_u16(m.fee)
            &&& b.subrange(p + 18, p + 26) == enc_u64(m.volume)
            &&& b.subrange(p + 26, p + 34) == enc_u64(m.total_fees)
            &&& b.subrange(p + 34, p + 42) == enc_u64(m.transaction_count)
            &&& b.subrange(p + 42, p + 50) == enc_u64(m.created_at as u64)
            &&& b[p + 50] == enc_bool(m.is_active)[0]
        }),
    ensures
        enc_merchant(m) == b,
{
    let p = 8 + encode_utf8(m.merchant_id@).len() as int;
    assert(b =~= b.subrange(0, 8) + b.subrange(8, p) + b.subrange(p, p + 8) + b.subrange(p + 8, p + 16)
        + b.subrange(p + 16, p + 18) + b.subrange(p + 18, p + 26) + b.subrange(p + 26, p + 34)
        + b.subrange(p + 34, p + 42) + b.subrange(p + 42, p + 50) + enc_bool(m.is_active));
}

/// Serializes a merchant record.
pub fn encode_merchant(m: &Merchant) -> (r: Vec<u8>)
    ensures
        r@ == enc_merchant(*m),
{
    let mut out: Vec<u8> = Vec::new();
    push_str(&mut out, &m.merchant_id);
    push_u64(&mut out, m.authority);
    push_u64(&mut out, m.settlement_wallet);
    push_u16(&mut out, m.fee);
    push_u64(&mut out, m.volume);
    push_u64(&mut out, m.total_fees);
    push_u64(&mut out, m.transaction_count);
    push_u64(&mut out, m.created_at as u64);
    push_bool(&mut out, m.is_active);
    assert(out@ =~= enc_merchant(*m));
    out
}

/// Reads a merchant record back: `None` unless `b` is the encoding of one.
#[verifier::rlimit(40)]
pub fn decode_merchant(b: &Vec<u8>) -> (r: Option<Merchant>)
    ensures
        r matches Some(m) ==> enc_merchant(m) == b@,
        forall|m: Merchant| #[trigger] enc_merchant(m) == b@ ==> (r matches Some(d) && same_merchant(d, m)),
{
    let n = b.len();
    if n < 59 {
        assert forall|m: Merchant| #[trigger] enc_merchant(m) != b@ by {
            lemma_merchant_layout(m);
        }
        return None;
    }
    let l = read_u64(b, 0);
    if l != (n - 59) as u64 {
        assert forall|m: Merchant| #[trigger] enc_merchant(m) != b@ by {
            lemma_merchant_layout(m);
            if enc_merchant(m) == b@ {
                lemma_u64_round_trip(encode_utf8(m.merchant_id@).len() as u64);
            }
        }
        return None;
    }
    let p = n - 51;
    let id = match string_from_utf8(copy_range(b, 8, p)) {
        Some(s) => s,
        None => {
            assert forall|m: Merchant| #[trigger] enc_merchant(m) != b@ by {
                lemma_merchant_layout(m);
                vstd::utf8::encode_utf8_valid_utf8(m.merchant_id@);
            }
            return None;
        },
    };
    if b[p + 50] > 1 {
        assert forall|m: Merchant| #[trigger] enc_merchant(m) != b@ by {
            lemma_merchant_layout(m);
        }
        return None;
    }
    let created = read_u64(b, p + 42);
    let m = Merchant {
        merchant_id: id,
        authority: read_u64(b, p),
        settlement_wallet: read_u64(b, p + 8),
        fee: read_u16(b, p + 16),
        volume: read_u64(b, p + 18),
        total_fees: read_u64(b, p + 26),
        transaction_count: read_u64(b, p + 34),
        created_at: created as i64,
        is_active: b[p + 50] == 1,
    };
    proof {
        lemma_u64_bytes(b@.subrange(0, 8));
        lemma_u64_bytes(b@.subrange(p as int, p + 8));
        lemma_u64_bytes(b@.subrange(p + 8, p + 16));
        lemma_u16_bytes(b@.subrange(p + 16, p + 18));
        lemma_u64_bytes(b@.subrange(p + 18, p + 26));
        lemma_u64_bytes(b@.subrange(p + 26, p + 34));
        lemma_u64_bytes(b@.subrange(p + 34, p + 42));
        lemma_u64_bytes(b@.subrange(p + 42, p + 50));
        lemma_i64_bits(created);
        lemma_merchant_assembled(m, b@);
        assert forall|m2: Merchant| #[trigger] enc_merchant(m2) == b@ implies same_merchant(m, m2) by {
            lemma_merchant_injective(m, m2);
        }
    }
    Some(m)
}

pub open spec fn enc_status(s: PaymentStatus) -> Seq<u8> {
    match s {
        PaymentStatus::Completed => seq![0u8],
        PaymentStatus::Refunded => seq![1u8],
    }
}

/// An optional time: a 0 byte for none, or a 1 byte and the time's 8 bytes.
pub open spec fn enc_opt_i64(t: Option<i64>) -> Seq<u8> {
    match t {
        None => seq![0u8],
        Some(x) => seq![1u8] + enc_u64(x as u64),
    }
}

/// A payment record: its texts and fields in order.
pub open spec fn enc_payment(p: Payment) -> Seq<u8> {
    enc_str(p.payment_id@) + enc_u64(p.customer) + enc_str(p.merchant@) + enc_u64(p.amount) + enc_u64(
        p.fee_amount,
    ) + enc_u64(p.merchant_amount) + enc_status(p.status) + enc_u64(p.created_at as u64)
        + enc_opt_i64(p.refunded_at)
}

/// Two payment records hold the same values.
pub open spec fn same_payment(a: Payment, b: Payment) -> bool {
    &&& a.payment_id@ == b.payment_id@
    &&& a.customer == b.customer
    &&& a.merchant@ == b.merchant@
    &&& a.amount == b.amount
    &&& a.fee_amount == b.fee_amount
    &&& a.merchant_amount == b.merchant_amount
    &&& a.status == b.status
    &&& a.created_at == b.created_at
    &&& a.refunded_at == b.refunded_at
}

/// Where each field of a payment record lies in its encoding.
pub open spec fn payment_laid_out(p: Payment, e: Seq<u8>) -> bool {
    let l1 = encode_utf8(p.payment_id@).len() as int;
    let p1 = 8 + l1;
    let l2 = encode_utf8(p.merchant@).len() as int;
    let p2 = p1 + 16;
    let p3 = p2 + l2;
    &&& e.len() == p3 + 34 + (if p.refunded_at is Some { 8int } else { 0 })
    &&& e.subrange(0, 8) == enc_u64(l1 as u64)
    &&& e.subrange(8, p1) == encode_utf8(p.payment_id@)
    &&& e.subrange(p1, p1 + 8) == enc_u64(p.customer)
    &&& e.subrange(p1 + 8, p2) == enc_u64(l2 as u64)
    &&& e.subrange(p2, p3) == encode_utf8(p.merchant@)
    &&& e.subrange(p3, p3 + 8) == enc_u64(p.amount)
    &&& e.subrange(p3 + 8, p3 + 16) == enc_u64(p.fee_amount)
    &&& e.subrange(p3 + 16, p3 + 24) == enc_u64(p.merchant_amount)
    &&& e[p3 + 24] == enc_status(p.status)[0]
    &&& e.subrange(p3 + 25, p3 + 33) == enc_u64(p.created_at as u64)
    &&& e[p3 + 33] == enc_opt_i64(p.refunded_at)[0]
    &&& p.refunded_at matches Some(t) ==> e.subrange(p3 + 34, p3 + 42) == enc_u64(t as u64)
}

pub proof fn lemma_payment_layout(p: Payment)
    ensures
        payment_laid_out(p, enc_payment(p)),
{
    let e = enc_payment(p);
    let l1 = encode_utf8(p.payment_id@).len() as int;
    let p1 = 8 + l1;
    let l2 = encode_utf8(p.merchant@).len() as int;
    let p2 = p1 + 16;
    let p3 = p2 + l2;
    assert(e.subrange(0, 8) =~= enc_u64(l1 as u64));
    assert(e.subrange(8, p1) =~= encode_utf8(p.payment_id@));
    assert(e.subrange(p1, p1 + 8) =~= enc_u64(p.customer));
    assert(e.subrange(p1 + 8, p2) =~= enc_u64(l2 as u64));
    assert(e.subrange(p2, p3) =~= encode_utf8(p.merchant@));
    assert(e.subrange(p3, p3 + 8) =~= enc_u64(p.amount));
    assert(e.subrange(p3 + 8, p3 + 16) =~= enc_u64(p.fee_amount));
    assert(e.subrange(p3 + 16, p3 + 24) =~= enc_u64(p.merchant_amount));
    assert(e.subrange(p3 + 25, p3 + 33) =~= enc_u64(p.created_at as u64));
    if let Some(t) = p.refunded_at {
        assert(e.subrange(p3 + 34, p3 + 42) =~= enc_u64(t as u64));
    }
}

/// Bytes that hold each field of `p` where its encoding puts it are that encoding.
proof fn lemma_payment_assembled(p: Payment, b: Seq<u8>)
    requires
        payment_laid_out(p, b),
    ensures
        enc_payment(p) == b,
{
    let p1 = 8 + encode_utf8(p.payment_id@).len() as int;
    let p2 = p1 + 16;
    let p3 = p2 + encode_utf8(p.merchant@).len() as int;
    assert(b.subrange(0, p1) =~= b.subrange(0, 8) + b.subrange(8, p1));
    assert(b.subrange(p1 + 8, p3) =~= b.subrange(p1 + 8, p2) + b.subrange(p2, p3));
    assert(b.subrange(p3 + 24, p3 + 25) =~= enc_status(p.status));
    assert(b =~= b.subrange(0, p1) + b.subrange(p1, p1 + 8) + b.subrange(p1 + 8, p3) + b.subrange(
        p3,
        p3 + 8,
    ) + b.subrange(p3 + 8, p3 + 16) + b.subrange(p3 + 16, p3 + 24) + b.subrange(p3 + 24, p3 + 25)
        + b.subrange(p3 + 25, p3 + 33) + b.subrange(p3 + 33, b.len() as int));
    assert(b.subrange(p3 + 33, b.len() as int) =~= enc_opt_i64(p.refunded_at));
}

/// Payment records with equal encodings hold the same values.
pub proof fn lemma_payment_injective(a: Payment, b: Payment)
    requires
        enc_payment(a) == enc_payment(b),
        enc_payment(a).len() <= u64::MAX,
    ensures
        same_payment(a, b),
{
    let e = enc_payment(a);
    lemma_payment_layout(a);
    lemma_payment_layout(b);
    lemma_u64_round_trip(encode_utf8(a.payment_id@).len() as u64);
    lemma_u64_round_trip(encode_utf8(b.payment_id@).len() as u64);
    lemma_utf8_injective(a.payment_id@, b.payment_id@);
    lemma_u64_injective(a.customer, b.customer);
    lemma_u64_round_trip(encode_utf8(a.merchant@).len() as u64);
    lemma_u64_round_trip(encode_utf8(b.merchant@).len() as u64);
    lemma_utf8_injective(a.merchant@, b.merchant@);
    lemma_u64_injective(a.amount, b.amount);
    lemma_u64_injective(a.fee_amount, b.fee_amount);
    lemma_u64_injective(a.merchant_amount, b.merchant_amount);
    lemma_u64_injective(a.created_at as u64, b.created_at as u64);
    lemma_i64_round_trip(a.created_at);
    lemma_i64_round_trip(b.created_at);
    if let (Some(x), Some(y)) = (a.refunded_at, b.refunded_at) {
        lemma_u64_injective(x as u64, y as u64);
        lemma_i64_round_trip(x);
        lemma_i64_round_trip(y);
    }
}

/// Serializes a payment record.
pub fn encode_payment(p: &Payment) -> (r: Vec<u8>)
    ensures
        r@ == enc_payment(*p),
{
    let mut out: Vec<u8> = Vec::new();
    push_str(&mut out, &p.payment_id);
    push_u64(&mut out, p.customer);
    push_str(&mut out, &p.merchant);
    push_u64(&mut out, p.amount);
    push_u64(&mut out, p.fee_amount);
    push_u64(&mut out, p.merchant_amount);
    out.push(
        match p.status {
            PaymentStatus::Completed => 0u8,
            PaymentStatus::Refunded => 1u8,
        },
    );
    push_u64(&mut out, p.created_at as u64);
    match p.refunded_at {
        None => out.push(0u8),
        Some(t) => {
            out.push(1u8);
            push_u64(&mut out, t as u64);
        },
    }
    assert(out@ =~= enc_payment(*p));
    out
}

/// Reads a payment record back: `None` unless `b` is the encoding of one.
#[verifier::rlimit(100)]
#[verifier::spinoff_prover]
pub fn decode_payment(b: &Vec<u8>) -> (r: Option<Payment>)
    ensures
        r matches Some(p) ==> enc_payment(p) == b@,
        forall|p: Payment| #[trigger] enc_payment(p) == b@ ==> (r matches Some(d) && same_payment(d, p)),
{
    let n = b.len();
    if n < 58 {
        assert forall|p: Payment| #[trigger] enc_payment(p) != b@ by {
            lemma_payment_layout(p);
        }
        return None;
    }
    let l1 = read_u64(b, 0);
    if l1 > (n - 58) as u64 {
        assert forall|p: Payment| #[trigger] enc_payment(p) != b@ by {
            lemma_payment_layout(p);
            lemma_u64_round_trip(encode_utf8(p.payment_id@).len() as u64);
        }
        return None;
    }
    let p1 = 8 + l1 as usize;
    let payment_id = match string_from_utf8(copy_range(b, 8, p1)) {
        Some(s) => s,
        None => {
            assert forall|p: Payment| #[trigger] enc_payment(p) != b@ by {
                lemma_payment_layout(p);
                lemma_u64_round_trip(encode_utf8(p.payment_id@).len() as u64);
                vstd::utf8::encode_utf8_valid_utf8(p.payment_id@);
            }
            return None;
        },
    };
    let customer = read_u64(b, p1);
    let l2 = read_u64(b, p1 + 8);
    let p2 = p1 + 16;
    if l2 > (n - p2 - 34) as u64 {
        assert forall|p: Payment| #[trigger] enc_payment(p) != b@ by {
            lemma_payment_layout(p);
            lemma_u64_round_trip(encode_utf8(p.payment_id@).len() as u64);
            lemma_u64_round_trip(encode_utf8(p.merchant@).len() as u64);
        }
        return None;
    }
    let p3 = p2 + l2 as usize;
    let merchant = match string_from_utf8(copy_range(b, p2, p3)) {
        Some(s) => s,
        None => {
            assert forall|p: Payment| #[trigger] enc_payment(p) != b@ by {
                lemma_payment_layout(p);
                lemma_u64_round_trip(encode_utf8(p.payment_id@).len() as u64);
                lemma_u64_round_trip(encode_utf8(p.merchant@).len() as u64);
                vstd::utf8::encode_utf8_valid_utf8(p.merchant@);
            }
            return None;
        },
    };
    let status = if b[p3 + 24] == 0 {
        PaymentStatus::Completed
    } else if b[p3 + 24] == 1 {
        PaymentStatus::Refunded
    } else {
        assert forall|p: Payment| #[trigger] enc_payment(p) != b@ by {
            lemma_payment_layout(p);
            lemma_u64_round_trip(encode_utf8(p.payment_id@).len() as u64);
            lemma_u64_round_trip(encode_utf8(p.merchant@).len() as u64);
        }
        return None;
    };
    let refunded_at = if b[p3 + 33] == 0 && n == p3 + 34 {
        None
    } else if b[p3 + 33] == 1 && n - p3 == 42 {
        let t = read_u64(b, p3 + 34);
        proof {
            lemma_u64_bytes(b@.subrange(p3 + 34, p3 + 42));
            lemma_i64_bits(t);
        }
        Some(t as i64)
    } else {
        assert forall|p: Payment| #[trigger] enc_payment(p) != b@ by {
            lemma_payment_layout(p);
            lemma_u64_round_trip(encode_utf8(p.payment_id@).len() as u64);
            lemma_u64_round_trip(encode_utf8(p.merchant@).len() as u64);
        }
        return None;
    };
    let created = read_u64(b, p3 + 25);
    let p = Payment {
        payment_id,
        customer,
        merchant,
        amount: read_u64(b, p3),
        fee_amount: read_u64(b, p3 + 8),
        merchant_amount: read_u64(b, p3 + 16),
        status,
        created_at: created as i64,
        refunded_at,
    };
    proof {
        lemma_u64_bytes(b@.subrange(0, 8));
        lemma_u64_bytes(b@.subrange(p1 as int, p1 + 8));
        lemma_u64_bytes(b@.subrange(p1 + 8, p1 + 16));
        lemma_u64_bytes(b@.subrange(p3 as int, p3 + 8));
        lemma_u64_bytes(b@.subrange(p3 + 8, p3 + 16));
        lemma_u64_bytes(b@.subrange(p3 + 16, p3 + 24));
        lemma_u64_bytes(b@.subrange(p3 + 25, p3 + 33));
        lemma_i64_bits(created);
        lemma_payment_assembled(p, b@);
        assert forall|p2: Payment| #[trigger] enc_payment(p2) == b@ implies same_payment(p, p2) by {
            lemma_payment_injective(p, p2);
        }
    }
    Some(p)
}

/// Reads 8 little-endian bytes at `pos`.
fn read_u64(b: &Vec<u8>, pos: usize) -> (r: u64)
    requires
        pos + 8 <= b@.len(),
    ensures
        r == dec_u64(b@.subrange(pos as int, pos + 8)),
{
    let ghost w = b@.subrange(pos as int, pos + 8);
    let n = b.len();
    assert(pos + 7 < n);
    let x0 = b[pos] as u64;
    let x1 = b[pos + 1] as u64;
    let x2 = b[pos + 2] as u64;
    let x3 = b[pos + 3] as u64;
    let x4 = b[pos + 4] as u64;
    let x5 = b[pos + 5] as u64;
    let x6 = b[pos + 6] as u64;
    let x7 = b[pos + 7] as u64;
    assert(x0 == w[0] && x1 == w[1] && x2 == w[2] && x3 == w[3]);
    assert(x4 == w[4] && x5 == w[5] && x6 == w[6] && x7 == w[7]);
    x0 | (x1 << 8) | (x2 << 16) | (x3 << 24) | (x4 << 32) | (x5 << 40) | (x6 << 48) | (x7 << 56)
}

/// Reads 2 little-endian bytes at `pos`.
fn read_u16(b: &Vec<u8>, pos: usize) -> (r: u16)
    requires
        pos + 2 <= b@.len(),
    ensures
        r == dec_u16(b@.subrange(pos as int, pos + 2)),
{
    let ghost w = b@.subrange(pos as int, pos + 2);
    let n = b.len();
    assert(pos + 1 < n);
    let x0 = b[pos] as u16;
    let x1 = b[pos + 1] as u16;
    assert(x0 == w[0] && x1 == w[1]);
    x0 | (x1 << 8)
}

} // verus!
