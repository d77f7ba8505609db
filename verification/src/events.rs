//! What the market tells its observers, once for every transition that took
//! place.

use crate::pubkey::Pubkey;
use vstd::prelude::*;

verus! {

/// A listing was created.
#[derive(Clone, Copy, Debug, PartialEq, Eq)]
pub struct ListingCreatedEvent {
    pub listing_id: Pubkey,
    pub seller: Pubkey,
    pub nft_mint: Pubkey,
    pub price: u64,
}

/// A listed asset was purchased.
#[derive(Clone, Copy, Debug, PartialEq, Eq)]
pub struct NftPurchasedEvent {
    pub listing_id: Pubkey,
    pub buyer: Pubkey,
    pub seller: Pubkey,
    pub nft_mint: Pubkey,
    pub price: u64,
}

/// A listing was canceled by its seller.
#[derive(Clone, Copy, Debug, PartialEq, Eq)]
pub struct ListingCanceledEvent {
    pub listing_id: Pubkey,
    pub seller: Pubkey,
    pub nft_mint: Pubkey,
}

/// One entry of the market's record of events.
#[derive(Clone, Copy, Debug, PartialEq, Eq)]
pub enum MarketplaceEvent {
    ListingCreated(ListingCreatedEvent),
    NftPurchased(NftPurchasedEvent),
    ListingCanceled(ListingCanceledEvent),
}

} // verus!
