use super::customer::Customer;
use super::merchant::Merchant;
use super::payment::Payment;
use super::platform::{Platform, MAX_FEE_BPS};
use super::Pubkey;
use crate::errors::PaymentError;
use std::collections::HashMap;
use vstd::prelude::*;

verus! {

broadcast use vstd::std_specs::hash::group_hash_axioms;

/// Balance of a token holder in the recognized asset; a holder never credited holds 0.
pub open spec fn balance(b: Map<Pubkey, u64>, owner: Pubkey) -> nat {
    if b.contains_key(owner) {
        b[owner] as nat
    } else {
        0
    }
}

/// Why moving `amt` from `from` to `to` is refused, if it is.
pub open spec fn transfer_error(b: Map<Pubkey, u64>, from: Pubkey, to: Pubkey, amt: nat) -> Option<
    PaymentError,
> {
    if balance(b, from) < amt {
        Some(PaymentError::InsufficientFunds)
    } else if from != to && balance(b, to) + amt > u64::MAX {
        Some(PaymentError::CalculationError)
    } else {
        None
    }
}

/// Balances after moving `amt` from `from` to `to`; a move to oneself changes nothing.
pub open spec fn transferred(b: Map<Pubkey, u64>, from: Pubkey, to: Pubkey, amt: nat) -> Map<
    Pubkey,
    u64,
> {
    if from == to {
        b
    } else {
        b.insert(from, (balance(b, from) - amt) as u64).insert(to, (balance(b, to) + amt) as u64)
    }
}

/// Merchant identifiers are unique.
pub open spec fn merchant_ids_unique(ms: Seq<Merchant>) -> bool {
    forall|i: int, j: int|
        0 <= i < ms.len() && 0 <= j < ms.len() && i != j ==> ms[i].merchant_id@ != ms[j].merchant_id@
}

/// Payment identifiers are unique.
pub open spec fn payment_ids_unique(ps: Seq<Payment>) -> bool {
    forall|i: int, j: int|
        0 <= i < ps.len() && 0 <= j < ps.len() && i != j ==> ps[i].payment_id@ != ps[j].payment_id@
}

pub open spec fn has_merchant(ms: Seq<Merchant>, id: Seq<char>) -> bool {
    exists|i: int| 0 <= i < ms.len() && ms[i].merchant_id@ == id
}

/// Position of the merchant registered under `id`.
pub open spec fn merchant_index(ms: Seq<Merchant>, id: Seq<char>) -> int {
    choose|i: int| 0 <= i < ms.len() && ms[i].merchant_id@ == id
}

pub open spec fn has_payment(ps: Seq<Payment>, id: Seq<char>) -> bool {
    exists|i: int| 0 <= i < ps.len() && ps[i].payment_id@ == id
}

/// Position of the payment recorded under `id`.
pub open spec fn payment_index(ps: Seq<Payment>, id: Seq<char>) -> int {
    choose|i: int| 0 <= i < ps.len() && ps[i].payment_id@ == id
}

/// All the state of the settlement ledger: the platform configuration, the
/// merchant, customer and payment records, and the token balances of the
/// recognized asset, the fee treasury's among them.
pub struct Ledger {
    pub platform: Option<Platform>,
    pub merchants: Vec<Merchant>,
    pub customers: HashMap<Pubkey, Customer>,
    pub payments: Vec<Payment>,
    pub balances: HashMap<Pubkey, u64>,
}

impl Ledger {
    pub open spec fn wf(self) -> bool {
        &&& self.platform matches Some(p) ==> p.wf()
        &&& merchant_ids_unique(self.merchants@)
        &&& payment_ids_unique(self.payments@)
        &&& forall|i: int| 0 <= i < self.payments@.len() ==> (#[trigger] self.payments@[i]).wf()
        &&& forall|i: int|
            0 <= i < self.merchants@.len() ==> (#[trigger] self.merchants@[i]).fee as u64 <= MAX_FEE_BPS
    }

    /// What `owner` holds of the recognized asset.
    pub open spec fn balance_spec(self, owner: Pubkey) -> nat {
        balance(self.balances@, owner)
    }

    /// An empty ledger: no platform, no records, no balances.
    pub fn new() -> (r: Ledger)
        ensures
            r.wf(),
            r.platform is None,
            r.merchants@.len() == 0,
            r.customers@ == Map::<Pubkey, Customer>::empty(),
            r.payments@.len() == 0,
            r.balances@ == Map::<Pubkey, u64>::empty(),
    {
        Ledger {
            platform: None,
            merchants: Vec::new(),
            customers: HashMap::new(),
            payments: Vec::new(),
            balances: HashMap::new(),
        }
    }

    /// What `owner` holds of the recognized asset.
    pub fn balance_of(&self, owner: Pubkey) -> (r: u64)
        ensures
            r == self.balance_spec(owner),
    {
        match self.balances.get(&owner) {
            Some(v) => *v,
            None => 0,
        }
    }

    /// Credits `amount` to `owner`'s token account, as the asset's issuer
    /// would; fails when the balance would pass `u64::MAX`.
    pub fn deposit(&mut self, owner: Pubkey, amount: u64) -> (r: Result<(), PaymentError>)
        ensures
            old(self).balance_spec(owner) + amount <= u64::MAX ==> {
                &&& r is Ok
                &&& final(self).balances@ == old(self).balances@.insert(
                    owner,
                    (old(self).balance_spec(owner) + amount) as u64,
                )
            },
            old(self).balance_spec(owner) + amount > u64::MAX ==> {
                &&& r == Err::<(), PaymentError>(PaymentError::CalculationError)
                &&& final(self).balances@ == old(self).balances@
            },
            final(self).platform == old(self).platform,
            final(self).merchants@ == old(self).merchants@,
            final(self).customers@ == old(self).customers@,
            final(self).payments@ == old(self).payments@,
    {
        let cur = self.balance_of(owner);
        match cur.checked_add(amount) {
            Some(v) => {
                self.balances.insert(owner, v);
                Ok(())
            },
            None => Err(PaymentError::CalculationError),
        }
    }

    /// Position of the merchant registered under `id`, if any.
    pub fn find_merchant(&self, id: &String) -> (r: Option<usize>)
        ensures
            r matches Some(i) ==> i < self.merchants@.len() && self.merchants@[i as int].merchant_id@
                == id@,
            r is None <==> !has_merchant(self.merchants@, id@),
    {
        let mut i: usize = 0;
        while i < self.merchants.len()
            invariant
                i <= self.merchants@.len(),
                forall|j: int| 0 <= j < i ==> self.merchants@[j].merchant_id@ != id@,
            decreases self.merchants@.len() - i,
        {
            if self.merchants[i].merchant_id == *id {
                return Some(i);
            }
            i = i + 1;
        }
        None
    }

    /// Position of the payment recorded under `id`, if any.
    pub fn find_payment(&self, id: &String) -> (r: Option<usize>)
        ensures
            r matches Some(i) ==> i < self.payments@.len() && self.payments@[i as int].payment_id@
                == id@,
            r is None <==> !has_payment(self.payments@, id@),
    {
        let mut i: usize = 0;
        while i < self.payments.len()
            invariant
                i <= self.payments@.len(),
                forall|j: int| 0 <= j < i ==> self.payments@[j].payment_id@ != id@,
            decreases self.payments@.len() - i,
        {
            if self.payments[i].payment_id == *id {
                return Some(i);
            }
            i = i + 1;
        }
        None
    }
}

/// Tests whether `amt` can move from `from` to `to`.
pub fn check_transfer(b: &HashMap<Pubkey, u64>, from: Pubkey, to: Pubkey, amt: u64) -> (r: Option<
    PaymentError,
>)
    ensures
        r == transfer_error(b@, from, to, amt as nat),
{
    let have = match b.get(&from) {
        Some(v) => *v,
        None => 0,
    };
    if have < amt {
        return Some(PaymentError::InsufficientFunds);
    }
    if from != to {
        let dest = match b.get(&to) {
            Some(v) => *v,
            None => 0,
        };
        if dest.checked_add(amt).is_none() {
            return Some(PaymentError::CalculationError);
        }
    }
    None
}

/// Moves `amt` from `from` to `to`, which `check_transfer` has accepted.
pub fn apply_transfer(b: &mut HashMap<Pubkey, u64>, from: Pubkey, to: Pubkey, amt: u64)
    requires
        transfer_error(old(b)@, from, to, amt as nat) is None,
    ensures
        final(b)@ == transferred(old(b)@, from, to, amt as nat),
{
    if from != to {
        let have = match b.get(&from) {
            Some(v) => *v,
            None => 0,
        };
        let dest = match b.get(&to) {
            Some(v) => *v,
            None => 0,
        };
        b.insert(from, have - amt);
        b.insert(to, dest + amt);
    }
}

} // verus!
