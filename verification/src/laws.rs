//! What holds of the market whatever it holds and whoever calls.

use crate::authority::listing_address;
use crate::error::NftMarketplaceError;
use crate::model::{BuyNFT, CancelListing, ListNFT, MarketView};
use crate::pubkey::Pubkey;
use vstd::prelude::*;

verus! {

/// A listing that is not active can be neither purchased nor canceled: both
/// are refused with `ListingNotActive`, whoever asks, and nothing changes.
pub proof fn law_settled_is_final(market: MarketView, purchase: BuyNFT, cancel: CancelListing)
    requires
        market.listings.contains_key(purchase.listing),
        !market.listings[purchase.listing].is_active,
        market.listings.contains_key(cancel.listing),
        !market.listings[cancel.listing].is_active,
    ensures
        market.buy_nft(purchase) == (
            Err::<(), NftMarketplaceError>(NftMarketplaceError::ListingNotActive),
            market,
        ),
        market.cancel_listing(cancel) == (
            Err::<(), NftMarketplaceError>(NftMarketplaceError::ListingNotActive),
            market,
        ),
{
}

/// A transition that is refused changes nothing.
pub proof fn law_refusal_changes_nothing(
    market: MarketView,
    create: ListNFT,
    price: u64,
    nft_name: Seq<char>,
    nft_symbol: Option<Seq<char>>,
    nft_uri: Seq<char>,
    purchase: BuyNFT,
    cancel: CancelListing,
)
    ensures
        market.list_nft(create, price, nft_name, nft_symbol, nft_uri).0 is Err ==> market.list_nft(
            create,
            price,
            nft_name,
            nft_symbol,
            nft_uri,
        ).1 == market,
        market.buy_nft(purchase).0 is Err ==> market.buy_nft(purchase).1 == market,
        market.cancel_listing(cancel).0 is Err ==> market.cancel_listing(cancel).1 == market,
{
}

/// A purchase or a cancellation that takes place settles its listing, leaves
/// the other fields of the record as they were, and touches no other record.
pub proof fn law_settlement_settles(
    market: MarketView,
    purchase: BuyNFT,
    cancel: CancelListing,
    other: Pubkey,
)
    ensures
        market.buy_nft(purchase).0 is Ok ==> {
            &&& market.listings.contains_key(purchase.listing)
            &&& market.listings[purchase.listing].is_active
            &&& market.buy_nft(purchase).1.listings[purchase.listing]
                == market.listings[purchase.listing].settled()
            &&& other != purchase.listing ==> market.buy_nft(purchase).1.listings.contains_key(other)
                == market.listings.contains_key(other) && market.buy_nft(
                purchase,
            ).1.listings[other] == market.listings[other]
        },
        market.cancel_listing(cancel).0 is Ok ==> {
            &&& market.listings.contains_key(cancel.listing)
            &&& market.listings[cancel.listing].is_active
            &&& market.cancel_listing(cancel).1.listings[cancel.listing]
                == market.listings[cancel.listing].settled()
            &&& other != cancel.listing ==> market.cancel_listing(cancel).1.listings.contains_key(
                other,
            ) == market.listings.contains_key(other) && market.cancel_listing(
                cancel,
            ).1.listings[other] == market.listings[other]
        },
{
}

/// After the creation of a listing, a purchase of it with the payment going
/// to its seller takes place exactly where the buyer can pay the price and
/// can receive the asset; no rule of the listing stands against it. Where it
/// takes place, the price has moved from the buyer to the seller, the asset
/// has moved from the escrow to the buyer, the listing is settled, and every
/// further purchase of it is refused with `ListingNotActive`.
pub proof fn law_purchase_after_creation(
    market: MarketView,
    create: ListNFT,
    price: u64,
    nft_name: Seq<char>,
    nft_symbol: Option<Seq<char>>,
    nft_uri: Seq<char>,
    buyer: Pubkey,
    again: BuyNFT,
)
    requires
        listing_address(market.program_id, create.nft_mint) is Some,
        market.list_nft(create, price, nft_name, nft_symbol, nft_uri).0 is Ok,
        again.listing == market.listing_key(create.nft_mint),
    ensures
        ({
            let key = market.listing_key(create.nft_mint);
            let listed = market.list_nft(create, price, nft_name, nft_symbol, nft_uri).1;
            let purchase = BuyNFT { buyer, listing: key, seller_wallet: create.seller };
            let bought = listed.buy_nft(purchase).0;
            let after = listed.buy_nft(purchase).1;
            let can_pay = listed.ledger.balances[buyer] >= price && (buyer != create.seller
                ==> listed.ledger.balances[create.seller] + price <= u64::MAX);
            let can_receive = buyer != key ==> listed.ledger.holding(buyer, create.nft_mint) + 1
                <= u64::MAX;
            &&& market.list_nft(create, price, nft_name, nft_symbol, nft_uri).0 == Ok::<
                Pubkey,
                NftMarketplaceError,
            >(key)
            &&& listed.listings[key].is_active
            &&& listed.ledger.holding(key, create.nft_mint) >= 1
            &&& bought is Ok <==> can_pay && can_receive
            &&& bought is Err ==> bought->Err_0 is TransferFailure
            &&& bought is Ok ==> {
                &&& !after.listings[key].is_active
                &&& buyer != create.seller ==> after.ledger.balances[buyer]
                    == listed.ledger.balances[buyer] - price
                    && after.ledger.balances[create.seller] == listed.ledger.balances[create.seller]
                    + price
                &&& buyer != key ==> after.ledger.holding(buyer, create.nft_mint)
                    == listed.ledger.holding(buyer, create.nft_mint) + 1 && after.ledger.holding(
                    key,
                    create.nft_mint,
                ) == listed.ledger.holding(key, create.nft_mint) - 1
                &&& after.buy_nft(again) == (
                    Err::<(), NftMarketplaceError>(NftMarketplaceError::ListingNotActive),
                    after,
                )
            }
        }),
{
}

/// After a cancellation, every purchase of the listing is refused with
/// `ListingNotActive`; after a purchase, every cancellation of it is.
pub proof fn law_cancel_and_purchase_exclude(
    market: MarketView,
    purchase: BuyNFT,
    cancel: CancelListing,
)
    requires
        purchase.listing == cancel.listing,
    ensures
        market.cancel_listing(cancel).0 is Ok ==> market.cancel_listing(cancel).1.buy_nft(purchase)
            == (
            Err::<(), NftMarketplaceError>(NftMarketplaceError::ListingNotActive),
            market.cancel_listing(cancel).1,
        ),
        market.buy_nft(purchase).0 is Ok ==> market.buy_nft(purchase).1.cancel_listing(cancel) == (
            Err::<(), NftMarketplaceError>(NftMarketplaceError::ListingNotActive),
            market.buy_nft(purchase).1,
        ),
{
}

/// The cancellation of an active listing by anyone but its seller is refused
/// with `UnauthorizedAccess`, and the listing stays active.
pub proof fn law_only_seller_cancels(market: MarketView, cancel: CancelListing)
    requires
        market.listings.contains_key(cancel.listing),
        market.listings[cancel.listing].is_active,
        cancel.seller != market.listings[cancel.listing].seller,
    ensures
        market.cancel_listing(cancel) == (
            Err::<(), NftMarketplaceError>(NftMarketplaceError::UnauthorizedAccess),
            market,
        ),
        market.cancel_listing(cancel).1.listings[cancel.listing].is_active,
{
}

/// The purchase of an active listing with the payment going to anyone but
/// its seller is refused with `UnauthorizedAccess`, and the asset stays in
/// escrow.
pub proof fn law_payment_goes_to_seller(market: MarketView, purchase: BuyNFT)
    requires
        market.valid(),
        market.listings.contains_key(purchase.listing),
        market.listings[purchase.listing].is_active,
        purchase.seller_wallet != market.listings[purchase.listing].seller,
    ensures
        market.buy_nft(purchase) == (
            Err::<(), NftMarketplaceError>(NftMarketplaceError::UnauthorizedAccess),
            market,
        ),
        market.buy_nft(purchase).1.ledger.holding(
            purchase.listing,
            market.listings[purchase.listing].nft_mint,
        ) >= 1,
{
}

/// A returned asset goes to the seller of the listing, whoever that is, and
/// to nobody else.
pub proof fn law_cancel_returns_to_seller(market: MarketView, cancel: CancelListing, other: Pubkey)
    requires
        market.cancel_listing(cancel).0 is Ok,
    ensures
        ({
            let listing = market.listings[cancel.listing];
            let after = market.cancel_listing(cancel).1;
            &&& cancel.seller == listing.seller
            &&& after.ledger.balances == market.ledger.balances
            &&& listing.seller != cancel.listing ==> after.ledger.holding(
                listing.seller,
                listing.nft_mint,
            ) == market.ledger.holding(listing.seller, listing.nft_mint) + 1
            &&& other != listing.seller && other != cancel.listing ==> after.ledger.holding(
                other,
                listing.nft_mint,
            ) == market.ledger.holding(other, listing.nft_mint)
        }),
{
}

/// The creation of a listing for an asset that has one, active or settled,
/// is refused with `DuplicateListing`.
pub proof fn law_one_listing_per_asset(
    market: MarketView,
    create: ListNFT,
    price: u64,
    nft_name: Seq<char>,
    nft_symbol: Option<Seq<char>>,
    nft_uri: Seq<char>,
)
    requires
        market.listings.contains_key(market.listing_key(create.nft_mint)),
    ensures
        market.list_nft(create, price, nft_name, nft_symbol, nft_uri) == (
            Err::<Pubkey, NftMarketplaceError>(NftMarketplaceError::DuplicateListing),
            market,
        ),
{
}

/// A listing that was created has a record, and no transition takes a record
/// away or rewrites it: a record that there is stays as it is, but that a
/// purchase or a cancellation settles it.
pub proof fn law_listings_are_permanent(
    market: MarketView,
    key: Pubkey,
    create: ListNFT,
    price: u64,
    nft_name: Seq<char>,
    nft_symbol: Option<Seq<char>>,
    nft_uri: Seq<char>,
    purchase: BuyNFT,
    cancel: CancelListing,
)
    ensures
        market.list_nft(create, price, nft_name, nft_symbol, nft_uri).0 is Ok ==> market.list_nft(
            create,
            price,
            nft_name,
            nft_symbol,
            nft_uri,
        ).1.listings.contains_key(market.listing_key(create.nft_mint)),
        market.listings.contains_key(key) ==> ({
            let listed = market.list_nft(create, price, nft_name, nft_symbol, nft_uri).1;
            let bought = market.buy_nft(purchase).1;
            let canceled = market.cancel_listing(cancel).1;
            &&& listed.listings.contains_key(key)
            &&& listed.listings[key] == market.listings[key]
            &&& bought.listings.contains_key(key)
            &&& bought.listings[key] == market.listings[key] || bought.listings[key]
                == market.listings[key].settled()
            &&& canceled.listings.contains_key(key)
            &&& canceled.listings[key] == market.listings[key] || canceled.listings[key]
                == market.listings[key].settled()
        }),
{
}

/// The second creation of a listing for one asset is refused with
/// `DuplicateListing`, whoever asks and at whatever price.
pub proof fn law_second_listing_refused(
    market: MarketView,
    first: ListNFT,
    first_price: u64,
    first_name: Seq<char>,
    first_symbol: Option<Seq<char>>,
    first_uri: Seq<char>,
    second: ListNFT,
    second_price: u64,
    second_name: Seq<char>,
    second_symbol: Option<Seq<char>>,
    second_uri: Seq<char>,
)
    requires
        market.list_nft(first, first_price, first_name, first_symbol, first_uri).0 is Ok,
        second.nft_mint == first.nft_mint,
    ensures
        market.list_nft(first, first_price, first_name, first_symbol, first_uri).1.list_nft(
            second,
            second_price,
            second_name,
            second_symbol,
            second_uri,
        ) == (
            Err::<Pubkey, NftMarketplaceError>(NftMarketplaceError::DuplicateListing),
            market.list_nft(first, first_price, first_name, first_symbol, first_uri).1,
        ),
{
}

/// The listings of two assets do not touch each other: what settles one
/// leaves the record and the escrow of the other as they are.
pub proof fn law_listings_are_independent(
    market: MarketView,
    purchase: BuyNFT,
    cancel: CancelListing,
    other: Pubkey,
)
    requires
        market.valid(),
        market.listings.contains_key(other),
        other != purchase.listing,
        other != cancel.listing,
    ensures
        ({
            let asset = market.listings[other].nft_mint;
            let bought = market.buy_nft(purchase).1;
            let canceled = market.cancel_listing(cancel).1;
            &&& bought.listings[other] == market.listings[other]
            &&& bought.ledger.holding(other, asset) == market.ledger.holding(other, asset)
            &&& canceled.listings[other] == market.listings[other]
            &&& canceled.ledger.holding(other, asset) == market.ledger.holding(other, asset)
        }),
{
    if market.listings.contains_key(purchase.listing) {
        assert(market.derives(market.listings[purchase.listing].nft_mint, purchase.listing));
    }
    if market.listings.contains_key(cancel.listing) {
        assert(market.derives(market.listings[cancel.listing].nft_mint, cancel.listing));
    }
    assert(market.derives(market.listings[other].nft_mint, other));
}

} // verus!
