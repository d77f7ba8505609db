//! An escrow marketplace for unique digital assets.
//!
//! A seller locks an asset into an escrow that only the market controls and
//! names a price. Any buyer can then exchange the price for the asset in one
//! step, and until that happens the seller can take the asset back. What a
//! market holds and what each transition makes of it is in [`model`]; the
//! market itself and its three transitions are in [`marketplace`]; what
//! holds of them whatever the market holds is in [`laws`].

pub mod authority;
pub mod error;
pub mod events;
pub mod laws;
pub mod ledger;
pub mod listing;
pub mod marketplace;
pub mod model;
pub mod pubkey;
pub mod table;

pub use crate::error::NftMarketplaceError;
pub use crate::events::{ListingCanceledEvent, ListingCreatedEvent, NftPurchasedEvent};
pub use crate::listing::NftListing;
pub use crate::marketplace::{buy_nft, cancel_listing, list_nft, Marketplace};
pub use crate::model::{BuyNFT, CancelListing, ListNFT};
pub use crate::pubkey::Pubkey;
