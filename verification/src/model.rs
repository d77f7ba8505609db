//! What a market holds, and what each transition makes of it.
//!
//! Every transition is a function from the market before it to its result
//! and the market after it. Where a transition is refused, the market after
//! it is the market before it.

use crate::authority::listing_address;
use crate::error::NftMarketplaceError;
use crate::events::{
    ListingCanceledEvent,
    ListingCreatedEvent,
    MarketplaceEvent,
    NftPurchasedEvent,
};
use crate::ledger::LedgerView;
use crate::listing::ListingView;
use crate::pubkey::Pubkey;
use vstd::prelude::*;

verus! {

/// Who takes part in the creation of a listing.
#[derive(Clone, Copy, Debug)]
pub struct ListNFT {
    /// The party that lists the asset, and consents to its escrow.
    pub seller: Pubkey,
    /// The asset.
    pub nft_mint: Pubkey,
}

/// Who takes part in a purchase.
#[derive(Clone, Copy, Debug)]
pub struct BuyNFT {
    /// The party that pays, and receives the asset.
    pub buyer: Pubkey,
    /// The address of the listing.
    pub listing: Pubkey,
    /// Where the payment is to go.
    pub seller_wallet: Pubkey,
}

/// Who takes part in a cancellation.
#[derive(Clone, Copy, Debug)]
pub struct CancelListing {
    /// The party that asks for the asset back.
    pub seller: Pubkey,
    /// The address of the listing.
    pub listing: Pubkey,
}

/// What a market holds.
#[verifier::ext_equal]
pub struct MarketView {
    /// The identity of the market, from which listing addresses derive.
    pub program_id: Pubkey,
    /// The listings, each under its address.
    pub listings: Map<Pubkey, ListingView>,
    /// Who holds what.
    pub ledger: LedgerView,
    /// The events so far, oldest first.
    pub events: Seq<MarketplaceEvent>,
}

impl MarketView {
    /// The market without listings, holdings or events.
    pub open spec fn empty(program_id: Pubkey) -> MarketView {
        MarketView {
            program_id,
            listings: Map::empty(),
            ledger: LedgerView::empty(),
            events: Seq::empty(),
        }
    }

    /// The address at which the listing of an asset lives, where one can be
    /// derived.
    pub open spec fn listing_key(self, nft_mint: Pubkey) -> Pubkey {
        match listing_address(self.program_id, nft_mint) {
            Some((address, _)) => address,
            None => arbitrary(),
        }
    }

    /// Whether `key` is the address derived from the asset.
    pub open spec fn derives(self, nft_mint: Pubkey, key: Pubkey) -> bool {
        listing_address(self.program_id, nft_mint) is Some && self.listing_key(nft_mint) == key
    }

    /// The listing at `key` lives at the address derived from its asset, and
    /// while it is active its asset waits in the escrow that its address
    /// owns.
    pub open spec fn valid_at(self, key: Pubkey) -> bool {
        &&& self.derives(self.listings[key].nft_mint, key)
        &&& self.listings[key].is_active ==> self.ledger.holding(key, self.listings[key].nft_mint)
            >= 1
    }

    /// Every listing lives at the address derived from its asset, and while
    /// it is active its asset waits in the escrow that its address owns.
    pub open spec fn valid(self) -> bool {
        forall|key: Pubkey| #[trigger] self.listings.contains_key(key) ==> self.valid_at(key)
    }

    /// The market after value came to a party from outside.
    pub open spec fn deposit(self, to: Pubkey, amount: u64) -> (
        Result<(), NftMarketplaceError>,
        MarketView,
    ) {
        match self.ledger.deposit(to, amount) {
            Err(error) => (Err(NftMarketplaceError::TransferFailure(error)), self),
            Ok(ledger) => (Ok(()), MarketView { ledger, ..self }),
        }
    }

    /// The market after units of an asset were issued to an owner.
    pub open spec fn issue(self, owner: Pubkey, nft_mint: Pubkey, amount: u64) -> (
        Result<(), NftMarketplaceError>,
        MarketView,
    ) {
        match self.ledger.issue(owner, nft_mint, amount) {
            Err(error) => (Err(NftMarketplaceError::TransferFailure(error)), self),
            Ok(ledger) => (Ok(()), MarketView { ledger, ..self }),
        }
    }

    /// Creation of a listing: its result, and the market after it.
    ///
    /// It is refused where the asset has a listing already, and where the
    /// seller cannot move one unit of the asset into escrow. Else the unit
    /// moves from the seller to the escrow of the listing, the listing is
    /// recorded as active, and the event is recorded.
    pub open spec fn list_nft(
        self,
        ctx: ListNFT,
        price: u64,
        nft_name: Seq<char>,
        nft_symbol: Option<Seq<char>>,
        nft_uri: Seq<char>,
    ) -> (Result<Pubkey, NftMarketplaceError>, MarketView)
        recommends
            listing_address(self.program_id, ctx.nft_mint) is Some,
    {
        let key = self.listing_key(ctx.nft_mint);
        if self.listings.contains_key(key) {
            (Err(NftMarketplaceError::DuplicateListing), self)
        } else {
            match self.ledger.transfer_asset(ctx.seller, key, ctx.nft_mint, 1, ctx.seller) {
                Err(error) => (Err(NftMarketplaceError::TransferFailure(error)), self),
                Ok(ledger) => (
                    Ok(key),
                    MarketView {
                        listings: self.listings.insert(
                            key,
                            ListingView::created(
                                ctx.seller,
                                ctx.nft_mint,
                                price,
                                nft_name,
                                nft_symbol,
                                nft_uri,
                            ),
                        ),
                        ledger,
                        events: self.events.push(
                            MarketplaceEvent::ListingCreated(
                                ListingCreatedEvent {
                                    listing_id: key,
                                    seller: ctx.seller,
                                    nft_mint: ctx.nft_mint,
                                    price,
                                },
                            ),
                        ),
                        ..self
                    },
                ),
            }
        }
    }

    /// Purchase of a listing: its result, and the market after it.
    ///
    /// It is refused where no active listing lives at the address, where the
    /// payment is not to go to the seller of the listing, and where the
    /// payment or the delivery cannot be made. Else the price moves from the
    /// buyer to the seller, the asset moves from the escrow to the buyer, the
    /// listing is settled, and the event is recorded.
    pub open spec fn buy_nft(self, ctx: BuyNFT) -> (Result<(), NftMarketplaceError>, MarketView) {
        if !self.listings.contains_key(ctx.listing) {
            (Err(NftMarketplaceError::ListingNotActive), self)
        } else {
            let listing = self.listings[ctx.listing];
            match listing.purchase_check(ctx.seller_wallet) {
                Err(error) => (Err(error), self),
                Ok(_) => match self.ledger.transfer_value(ctx.buyer, listing.seller, listing.price) {
                    Err(error) => (Err(NftMarketplaceError::TransferFailure(error)), self),
                    Ok(paid) => match paid.transfer_asset(
                        ctx.listing,
                        ctx.buyer,
                        listing.nft_mint,
                        1,
                        ctx.listing,
                    ) {
                        Err(error) => (Err(NftMarketplaceError::TransferFailure(error)), self),
                        Ok(ledger) => (
                            Ok(()),
                            MarketView {
                                listings: self.listings.insert(ctx.listing, listing.settled()),
                                ledger,
                                events: self.events.push(
                                    MarketplaceEvent::NftPurchased(
                                        NftPurchasedEvent {
                                            listing_id: ctx.listing,
                                            buyer: ctx.buyer,
                                            seller: listing.seller,
                                            nft_mint: listing.nft_mint,
                                            price: listing.price,
                                        },
                                    ),
                                ),
                                ..self
                            },
                        ),
                    },
                },
            }
        }
    }

    /// Cancellation of a listing: its result, and the market after it.
    ///
    /// It is refused where no active listing lives at the address, where the
    /// caller is not the seller of the listing, and where the asset cannot be
    /// returned. Else the asset moves from the escrow back to the seller, the
    /// listing is settled, and the event is recorded.
    pub open spec fn cancel_listing(self, ctx: CancelListing) -> (
        Result<(), NftMarketplaceError>,
        MarketView,
    ) {
        if !self.listings.contains_key(ctx.listing) {
            (Err(NftMarketplaceError::ListingNotActive), self)
        } else {
            let listing = self.listings[ctx.listing];
            match listing.cancel_check(ctx.seller) {
                Err(error) => (Err(error), self),
                Ok(_) => match self.ledger.transfer_asset(
                    ctx.listing,
                    listing.seller,
                    listing.nft_mint,
                    1,
                    ctx.listing,
                ) {
                    Err(error) => (Err(NftMarketplaceError::TransferFailure(error)), self),
                    Ok(ledger) => (
                        Ok(()),
                        MarketView {
                            listings: self.listings.insert(ctx.listing, listing.settled()),
                            ledger,
                            events: self.events.push(
                                MarketplaceEvent::ListingCanceled(
                                    ListingCanceledEvent {
                                        listing_id: ctx.listing,
                                        seller: listing.seller,
                                        nft_mint: listing.nft_mint,
                                    },
                                ),
                            ),
                            ..self
                        },
                    ),
                },
            }
        }
    }
}

/// The market without listings is valid.
pub proof fn lemma_empty_valid(program_id: Pubkey)
    ensures
        MarketView::empty(program_id).valid(),
{
}

/// Value that comes from outside leaves every escrow as it is.
pub proof fn lemma_deposit_keeps_valid(market: MarketView, to: Pubkey, amount: u64)
    requires
        market.valid(),
    ensures
        market.deposit(to, amount).1.valid(),
{
    let after = market.deposit(to, amount).1;
    assert forall|key: Pubkey| #[trigger] after.listings.contains_key(key) implies after.valid_at(key) by {
        assert(market.listings.contains_key(key));
    }
}

/// Units that are issued take nothing out of an escrow.
pub proof fn lemma_issue_keeps_valid(
    market: MarketView,
    owner: Pubkey,
    nft_mint: Pubkey,
    amount: u64,
)
    requires
        market.valid(),
    ensures
        market.issue(owner, nft_mint, amount).1.valid(),
{
    let after = market.issue(owner, nft_mint, amount).1;
    assert forall|key: Pubkey| #[trigger] after.listings.contains_key(key) implies after.valid_at(key) by {
        assert(market.listings.contains_key(key));
    }
}

/// A creation puts the asset of the new listing into its escrow, and takes
/// nothing out of the escrow of another listing.
pub proof fn lemma_list_nft_keeps_valid(
    market: MarketView,
    ctx: ListNFT,
    price: u64,
    nft_name: Seq<char>,
    nft_symbol: Option<Seq<char>>,
    nft_uri: Seq<char>,
)
    requires
        market.valid(),
        listing_address(market.program_id, ctx.nft_mint) is Some,
    ensures
        market.list_nft(ctx, price, nft_name, nft_symbol, nft_uri).1.valid(),
{
    let after = market.list_nft(ctx, price, nft_name, nft_symbol, nft_uri).1;
    let new_key = market.listing_key(ctx.nft_mint);
    assert forall|key: Pubkey| #[trigger] after.listings.contains_key(key) implies after.valid_at(key) by {
        if key != new_key {
            assert(market.listings.contains_key(key));
        }
    }
}

/// A purchase takes the asset out of the escrow of the listing that it
/// settles, and out of no other.
pub proof fn lemma_buy_nft_keeps_valid(market: MarketView, ctx: BuyNFT)
    requires
        market.valid(),
    ensures
        market.buy_nft(ctx).1.valid(),
{
    let after = market.buy_nft(ctx).1;
    assert forall|key: Pubkey| #[trigger] after.listings.contains_key(key) implies after.valid_at(key) by {
        assert(market.listings.contains_key(key));
    }
}

/// A cancellation takes the asset out of the escrow of the listing that it
/// settles, and out of no other.
pub proof fn lemma_cancel_listing_keeps_valid(market: MarketView, ctx: CancelListing)
    requires
        market.valid(),
    ensures
        market.cancel_listing(ctx).1.valid(),
{
    let after = market.cancel_listing(ctx).1;
    assert forall|key: Pubkey| #[trigger] after.listings.contains_key(key) implies after.valid_at(key) by {
        assert(market.listings.contains_key(key));
    }
}

} // verus!
