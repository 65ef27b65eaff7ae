use vstd::prelude::*;
use crate::deal::Address;

verus! {

/// Emitted when a deal is created; carries all of its terms.
#[derive(Clone, Copy, Debug, PartialEq, Eq)]
pub struct DealInitialized {
    pub deal_id: [u8; 32],
    pub seller: Address,
    pub buyer: Address,
    pub base_mint: Address,
    pub quote_mint: Address,
    pub base_amount: u64,
    pub quote_amount: u64,
    pub expiry_ts: i64,
}

/// Emitted when the seller's base asset reaches the vault.
#[derive(Clone, Copy, Debug, PartialEq, Eq)]
pub struct DealFunded {
    pub deal_id: [u8; 32],
    pub seller: Address,
    pub amount: u64,
}

/// Emitted when the exchange completes.
#[derive(Clone, Copy, Debug, PartialEq, Eq)]
pub struct DealSettled {
    pub deal_id: [u8; 32],
    pub buyer: Address,
    pub seller: Address,
    pub base_to_buyer: u64,
    pub quote_to_seller: u64,
    pub buyer_fee: u64,
    pub seller_fee: u64,
}

/// Emitted when a deal is cancelled by its seller or reclaimed after expiry.
#[derive(Clone, Copy, Debug, PartialEq, Eq)]
pub struct DealCancelled {
    pub deal_id: [u8; 32],
    pub seller: Address,
}

} // verus!
