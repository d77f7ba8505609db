//! The listing record and the rules of its lifecycle.
//!
//! A listing is active from its creation until it is settled, by a purchase
//! or by a cancellation. A settled listing stays settled.

use crate::error::NftMarketplaceError;
use crate::pubkey::Pubkey;
use vstd::prelude::*;

verus! {

/// The record of one asset offered for sale.
#[derive(Clone, Debug, PartialEq, Eq)]
pub struct NftListing {
    /// The party that listed the asset.
    pub seller: Pubkey,
    /// The asset held in escrow.
    pub nft_mint: Pubkey,
    /// The price, in the smallest unit of value.
    pub price: u64,
    /// Descriptive name of the asset.
    pub nft_name: String,
    /// Descriptive symbol of the asset.
    pub nft_symbol: String,
    /// Where the description of the asset is found.
    pub nft_uri: String,
    /// Whether the listing can still be purchased or canceled.
    pub is_active: bool,
}

/// What a listing record holds.
pub struct ListingView {
    pub seller: Pubkey,
    pub nft_mint: Pubkey,
    pub price: u64,
    pub nft_name: Seq<char>,
    pub nft_symbol: Seq<char>,
    pub nft_uri: Seq<char>,
    pub is_active: bool,
}

impl View for NftListing {
    type V = ListingView;

    open spec fn view(&self) -> ListingView {
        ListingView {
            seller: self.seller,
            nft_mint: self.nft_mint,
            price: self.price,
            nft_name: self.nft_name@,
            nft_symbol: self.nft_symbol@,
            nft_uri: self.nft_uri@,
            is_active: self.is_active,
        }
    }
}

impl ListingView {
    /// The record of a new listing: active, with the fields as given and an
    /// empty symbol where none is given.
    pub open spec fn created(
        seller: Pubkey,
        nft_mint: Pubkey,
        price: u64,
        nft_name: Seq<char>,
        nft_symbol: Option<Seq<char>>,
        nft_uri: Seq<char>,
    ) -> ListingView {
        ListingView {
            seller,
            nft_mint,
            price,
            nft_name,
            nft_symbol: match nft_symbol {
                Some(symbol) => symbol,
                None => Seq::empty(),
            },
            nft_uri,
            is_active: true,
        }
    }

    /// The record after the listing was settled: no longer active, and
    /// otherwise as it was.
    pub open spec fn settled(self) -> ListingView {
        ListingView { is_active: false, ..self }
    }

    /// Whether the listing can be purchased with the payment going to
    /// `seller_wallet`: it must be active, and the payment must go to its
    /// seller.
    pub open spec fn purchase_check(self, seller_wallet: Pubkey) -> Result<
        (),
        NftMarketplaceError,
    > {
        if !self.is_active {
            Err(NftMarketplaceError::ListingNotActive)
        } else if seller_wallet != self.seller {
            Err(NftMarketplaceError::UnauthorizedAccess)
        } else {
            Ok(())
        }
    }

    /// Whether `caller` can cancel the listing: it must be active, and only
    /// its seller can cancel it.
    pub open spec fn cancel_check(self, caller: Pubkey) -> Result<(), NftMarketplaceError> {
        if !self.is_active {
            Err(NftMarketplaceError::ListingNotActive)
        } else if caller != self.seller {
            Err(NftMarketplaceError::UnauthorizedAccess)
        } else {
            Ok(())
        }
    }
}

/// What an optional string holds.
pub open spec fn text_of(text: Option<String>) -> Option<Seq<char>> {
    match text {
        Some(text) => Some(text@),
        None => None,
    }
}

impl NftListing {
    /// The record of a new listing.
    pub fn new(
        seller: Pubkey,
        nft_mint: Pubkey,
        price: u64,
        nft_name: String,
        nft_symbol: Option<String>,
        nft_uri: String,
    ) -> (listing: NftListing)
        ensures
            listing@ == ListingView::created(
                seller,
                nft_mint,
                price,
                nft_name@,
                text_of(nft_symbol),
                nft_uri@,
            ),
    {
        NftListing {
            seller,
            nft_mint,
            price,
            nft_name,
            nft_symbol: nft_symbol.unwrap_or_default(),
            nft_uri,
            is_active: true,
        }
    }

    /// Decides whether the listing can be purchased with the payment going
    /// to `seller_wallet`.
    pub fn check_purchase(&self, seller_wallet: &Pubkey) -> (allowed: Result<
        (),
        NftMarketplaceError,
    >)
        ensures
            allowed == self@.purchase_check(*seller_wallet),
    {
        if !self.is_active {
            Err(NftMarketplaceError::ListingNotActive)
        } else if *seller_wallet != self.seller {
            Err(NftMarketplaceError::UnauthorizedAccess)
        } else {
            Ok(())
        }
    }

    /// Decides whether `caller` can cancel the listing.
    pub fn check_cancel(&self, caller: &Pubkey) -> (allowed: Result<(), NftMarketplaceError>)
        ensures
            allowed == self@.cancel_check(*caller),
    {
        if !self.is_active {
            Err(NftMarketplaceError::ListingNotActive)
        } else if *caller != self.seller {
            Err(NftMarketplaceError::UnauthorizedAccess)
        } else {
            Ok(())
        }
    }

    /// The record after the listing was settled.
    pub fn settled(&self) -> (listing: NftListing)
        ensures
            listing@ == self@.settled(),
    {
        NftListing {
            seller: self.seller,
            nft_mint: self.nft_mint,
            price: self.price,
            nft_name: self.nft_name.clone(),
            nft_symbol: self.nft_symbol.clone(),
            nft_uri: self.nft_uri.clone(),
            is_active: false,
        }
    }
}

} // verus!
