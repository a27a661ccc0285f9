pub mod customer;
pub mod ledger;
pub mod merchant;
pub mod payment;
pub mod platform;

use vstd::prelude::*;

verus! {

/// Identity of a signer, a token holder or a registry-owned account.
pub type Pubkey = u64;

/// Longest merchant or payment identifier, in bytes.
pub const MAX_ID_LEN: usize = 64;

/// An identifier is accepted when its UTF-8 encoding has between 1 and 64 bytes.
pub open spec fn valid_id(id: Seq<char>) -> bool {
    1 <= vstd::utf8::encode_utf8(id).len() <= MAX_ID_LEN
}

/// Tests an identifier against `valid_id`.
pub fn is_valid_id(id: &String) -> (r: bool)
    ensures
        r == valid_id(id@),
{
    let n = id.as_str().as_bytes().len();
    1 <= n && n <= MAX_ID_LEN
}

} // verus!
