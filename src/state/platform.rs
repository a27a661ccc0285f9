use super::Pubkey;
use vstd::prelude::*;

verus! {

/// Highest fee rate, in basis points (10%).
pub const MAX_FEE_BPS: u64 = 1000;

/// Basis points in a whole.
pub const BPS_DENOMINATOR: u64 = 10000;

/// Decimal places of the one asset the platform settles in.
pub const ASSET_DECIMALS: u8 = 6;

/// The singleton configuration of the platform.
#[derive(Clone, Copy, Debug, PartialEq, Eq, Structural)]
pub struct Platform {
    pub authority: Pubkey,
    /// The token account that accumulates fees, owned by the platform itself.
    pub treasury: Pubkey,
    /// The recognized asset.
    pub usdc_mint: Pubkey,
    pub min_payment_amount: u64,
    pub fee_bps: u64,
    pub is_active: bool,
}

/// An asset as the platform sees it: its identity and its decimal precision.
#[derive(Clone, Copy, Debug, PartialEq, Eq, Structural)]
pub struct Mint {
    pub key: Pubkey,
    pub decimals: u8,
}

impl Platform {
    pub open spec fn wf(self) -> bool {
        &&& self.fee_bps <= MAX_FEE_BPS
        &&& self.min_payment_amount > 0
        &&& self.treasury != self.authority
    }
}

} // verus!
