//! The market: the store of listings, the ledger and the record of events,
//! and the three transitions that create, purchase and cancel a listing.
//!
//! Every transition happens whole or not at all: where it is refused, the
//! market is as it was before.

use crate::authority::{listing_address, ListingAuthority};
use crate::error::NftMarketplaceError;
use crate::events::{
    ListingCanceledEvent,
    ListingCreatedEvent,
    MarketplaceEvent,
    NftPurchasedEvent,
};
use crate::ledger::{Authority, Ledger};
use crate::listing::{text_of, NftListing};
use crate::model::{
    lemma_buy_nft_keeps_valid,
    lemma_cancel_listing_keeps_valid,
    lemma_deposit_keeps_valid,
    lemma_empty_valid,
    lemma_issue_keeps_valid,
    lemma_list_nft_keeps_valid,
    BuyNFT,
    CancelListing,
    ListNFT,
    MarketView,
};
use crate::pubkey::Pubkey;
use crate::table::Table;
use vstd::prelude::*;

verus! {

/// One entry of the store of listings: the record, and the authority over
/// its escrow.
struct ListingAccount {
    authority: ListingAuthority,
    record: NftListing,
}

/// The market: the store of listings, the ledger and the record of events.
pub struct Marketplace {
    program_id: Pubkey,
    listings: Table<Pubkey, ListingAccount>,
    ledger: Ledger,
    events: Vec<MarketplaceEvent>,
}

impl View for Marketplace {
    type V = MarketView;

    closed spec fn view(&self) -> MarketView {
        MarketView {
            program_id: self.program_id,
            listings: Map::new(
                |key: Pubkey| self.listings@.contains_key(key),
                |key: Pubkey| self.listings@[key].record@,
            ),
            ledger: self.ledger@,
            events: self.events@,
        }
    }
}

impl Marketplace {
    /// The market is well formed: its store and its ledger are, and every
    /// authority in the store is the one of the listing that it stands
    /// beside.
    pub closed spec fn wf(&self) -> bool {
        &&& self.listings.wf()
        &&& self.ledger.wf()
        &&& forall|key: Pubkey| #[trigger]
            self.listings@.contains_key(key) ==> self.listings@[key].authority.address() == key
        &&& self@.valid()
    }

    /// A well-formed market is valid.
    pub proof fn lemma_wf_valid(&self)
        requires
            self.wf(),
        ensures
            self@.valid(),
    {
    }

    /// The market with the given identity, without listings, holdings or
    /// events.
    pub fn new(program_id: Pubkey) -> (market: Marketplace)
        ensures
            market.wf(),
            market@ == MarketView::empty(program_id),
    {
        let market = Marketplace {
            program_id,
            listings: Table::new(),
            ledger: Ledger::new(),
            events: Vec::new(),
        };
        proof {
            lemma_empty_valid(program_id);
            assert(market@ =~= MarketView::empty(program_id));
        }
        market
    }

    /// The identity of the market.
    pub fn program_id(&self) -> (program_id: Pubkey)
        ensures
            program_id == self@.program_id,
    {
        self.program_id
    }

    /// The listing that lives at the address, if there is one.
    pub fn listing(&self, key: &Pubkey) -> (listing: Option<&NftListing>)
        requires
            self.wf(),
        ensures
            match listing {
                Some(record) => self@.listings.contains_key(*key) && self@.listings[*key]
                    == record@,
                None => !self@.listings.contains_key(*key),
            },
    {
        match self.listings.get(key) {
            Some(account) => Some(&account.record),
            None => None,
        }
    }

    /// The ledger of the market.
    pub fn ledger(&self) -> (ledger: &Ledger)
        requires
            self.wf(),
        ensures
            ledger.wf(),
            ledger@ == self@.ledger,
    {
        &self.ledger
    }

    /// The events so far, oldest first.
    pub fn events(&self) -> (events: &Vec<MarketplaceEvent>)
        ensures
            events@ == self@.events,
    {
        &self.events
    }

    /// Brings value from outside to a party.
    pub fn deposit(&mut self, to: &Pubkey, amount: u64) -> (done: Result<(), NftMarketplaceError>)
        requires
            old(self).wf(),
        ensures
            final(self).wf(),
            done == old(self)@.deposit(*to, amount).0,
            final(self)@ == old(self)@.deposit(*to, amount).1,
    {
        proof {
            lemma_deposit_keeps_valid(self@, *to, amount);
        }
        match self.ledger.deposit(to, amount) {
            Err(error) => Err(NftMarketplaceError::TransferFailure(error)),
            Ok(()) => Ok(()),
        }
    }

    /// Issues units of an asset to an owner.
    pub fn issue(&mut self, owner: &Pubkey, nft_mint: &Pubkey, amount: u64) -> (done: Result<
        (),
        NftMarketplaceError,
    >)
        requires
            old(self).wf(),
        ensures
            final(self).wf(),
            done == old(self)@.issue(*owner, *nft_mint, amount).0,
            final(self)@ == old(self)@.issue(*owner, *nft_mint, amount).1,
    {
        proof {
            lemma_issue_keeps_valid(self@, *owner, *nft_mint, amount);
        }
        match self.ledger.issue(owner, nft_mint, amount) {
            Err(error) => Err(NftMarketplaceError::TransferFailure(error)),
            Ok(()) => Ok(()),
        }
    }
}

/// Creates the listing of an asset: moves one unit of it from the seller
/// into the escrow of the listing, records the listing as active, and
/// records the event. Returns the address of the listing.
///
/// The asset must have an address for its listing; [`try_list_nft`] asks for
/// nothing.
pub fn list_nft(
    market: &mut Marketplace,
    ctx: &ListNFT,
    price: u64,
    nft_name: String,
    nft_symbol: Option<String>,
    nft_uri: String,
) -> (created: Result<Pubkey, NftMarketplaceError>)
    requires
        old(market).wf(),
        listing_address(old(market)@.program_id, ctx.nft_mint) is Some,
    ensures
        final(market).wf(),
        created == old(market)@.list_nft(
            *ctx,
            price,
            nft_name@,
            text_of(nft_symbol),
            nft_uri@,
        ).0,
        final(market)@ == old(market)@.list_nft(
            *ctx,
            price,
            nft_name@,
            text_of(nft_symbol),
            nft_uri@,
        ).1,
{
    proof {
        lemma_list_nft_keeps_valid(
            market@,
            *ctx,
            price,
            nft_name@,
            text_of(nft_symbol),
            nft_uri@,
        );
    }
    let found = ListingAuthority::find(&market.program_id, &ctx.nft_mint);
    let authority = found.unwrap();
    let key = authority.address();
    if market.listings.get(&key).is_some() {
        return Err(NftMarketplaceError::DuplicateListing);
    }
    match market.ledger.transfer_asset(
        &ctx.seller,
        &key,
        &ctx.nft_mint,
        1,
        &Authority::Signer(ctx.seller),
    ) {
        Err(error) => {
            return Err(NftMarketplaceError::TransferFailure(error));
        },
        Ok(()) => {},
    }
    let record = NftListing::new(ctx.seller, ctx.nft_mint, price, nft_name, nft_symbol, nft_uri);
    market.listings.insert(key, ListingAccount { authority, record });
    market.events.push(
        MarketplaceEvent::ListingCreated(
            ListingCreatedEvent {
                listing_id: key,
                seller: ctx.seller,
                nft_mint: ctx.nft_mint,
                price,
            },
        ),
    );
    proof {
        let expected = old(market)@.list_nft(
            *ctx,
            price,
            nft_name@,
            text_of(nft_symbol),
            nft_uri@,
        ).1;
        assert(market@.listings =~= expected.listings);
        assert(market@ =~= expected);
    }
    Ok(key)
}

/// Creates the listing of an asset as [`list_nft`] does, where the asset has
/// an address for its listing; else returns nothing and leaves the market as
/// it is.
pub fn try_list_nft(
    market: &mut Marketplace,
    ctx: &ListNFT,
    price: u64,
    nft_name: String,
    nft_symbol: Option<String>,
    nft_uri: String,
) -> (created: Option<Result<Pubkey, NftMarketplaceError>>)
    requires
        old(market).wf(),
    ensures
        final(market).wf(),
        match listing_address(old(market)@.program_id, ctx.nft_mint) {
            Some(_) => created == Some(
                old(market)@.list_nft(*ctx, price, nft_name@, text_of(nft_symbol), nft_uri@).0,
            ) && final(market)@ == old(market)@.list_nft(
                *ctx,
                price,
                nft_name@,
                text_of(nft_symbol),
                nft_uri@,
            ).1,
            None => created is None && final(market)@ == old(market)@,
        },
{
    match ListingAuthority::find(&market.program_id, &ctx.nft_mint) {
        Some(_) => Some(list_nft(market, ctx, price, nft_name, nft_symbol, nft_uri)),
        None => None,
    }
}

/// Purchases a listed asset: pays the price from the buyer to the seller,
/// delivers the asset from the escrow to the buyer, settles the listing, and
/// records the event.
pub fn buy_nft(market: &mut Marketplace, ctx: &BuyNFT) -> (bought: Result<
    (),
    NftMarketplaceError,
>)
    requires
        old(market).wf(),
    ensures
        final(market).wf(),
        bought == old(market)@.buy_nft(*ctx).0,
        final(market)@ == old(market)@.buy_nft(*ctx).1,
{
    proof {
        lemma_buy_nft_keeps_valid(market@, *ctx);
    }
    let (authority, settled, seller, price, nft_mint) = match market.listings.get(&ctx.listing) {
        None => {
            return Err(NftMarketplaceError::ListingNotActive);
        },
        Some(account) => {
            match account.record.check_purchase(&ctx.seller_wallet) {
                Err(error) => {
                    return Err(error);
                },
                Ok(()) => {},
            }
            (
                account.authority,
                account.record.settled(),
                account.record.seller,
                account.record.price,
                account.record.nft_mint,
            )
        },
    };
    match market.ledger.transfer_value(&ctx.buyer, &seller, price) {
        Err(error) => {
            return Err(NftMarketplaceError::TransferFailure(error));
        },
        Ok(()) => {},
    }
    match market.ledger.transfer_asset(
        &ctx.listing,
        &ctx.buyer,
        &nft_mint,
        1,
        &Authority::Listing(authority),
    ) {
        Err(error) => {
            // The asset cannot be delivered: the payment goes back.
            let undone = market.ledger.transfer_value(&seller, &ctx.buyer, price);
            proof {
                old(market).ledger.lemma_total();
                assert(market.ledger@.balances =~= old(market).ledger@.balances);
            }
            return Err(NftMarketplaceError::TransferFailure(error));
        },
        Ok(()) => {},
    }
    market.listings.insert(ctx.listing, ListingAccount { authority, record: settled });
    market.events.push(
        MarketplaceEvent::NftPurchased(
            NftPurchasedEvent { listing_id: ctx.listing, buyer: ctx.buyer, seller, nft_mint, price },
        ),
    );
    proof {
        let expected = old(market)@.buy_nft(*ctx).1;
        assert(market@.listings =~= expected.listings);
        assert(market@ =~= expected);
    }
    Ok(())
}

/// Cancels a listing: returns the asset from the escrow to the seller,
/// settles the listing, and records the event.
pub fn cancel_listing(market: &mut Marketplace, ctx: &CancelListing) -> (canceled: Result<
    (),
    NftMarketplaceError,
>)
    requires
        old(market).wf(),
    ensures
        final(market).wf(),
        canceled == old(market)@.cancel_listing(*ctx).0,
        final(market)@ == old(market)@.cancel_listing(*ctx).1,
{
    proof {
        lemma_cancel_listing_keeps_valid(market@, *ctx);
    }
    let (authority, settled, seller, nft_mint) = match market.listings.get(&ctx.listing) {
        None => {
            return Err(NftMarketplaceError::ListingNotActive);
        },
        Some(account) => {
            match account.record.check_cancel(&ctx.seller) {
                Err(error) => {
                    return Err(error);
                },
                Ok(()) => {},
            }
            (
                account.authority,
                account.record.settled(),
                account.record.seller,
                account.record.nft_mint,
            )
        },
    };
    match market.ledger.transfer_asset(
        &ctx.listing,
        &seller,
        &nft_mint,
        1,
        &Authority::Listing(authority),
    ) {
        Err(error) => {
            return Err(NftMarketplaceError::TransferFailure(error));
        },
        Ok(()) => {},
    }
    market.listings.insert(ctx.listing, ListingAccount { authority, record: settled });
    market.events.push(
        MarketplaceEvent::ListingCanceled(
            ListingCanceledEvent { listing_id: ctx.listing, seller, nft_mint },
        ),
    );
    proof {
        let expected = old(market)@.cancel_listing(*ctx).1;
        assert(market@.listings =~= expected.listings);
        assert(market@ =~= expected);
    }
    Ok(())
}

} // verus!
