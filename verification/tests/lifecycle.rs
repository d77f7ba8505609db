//! The lifecycle of a listing, run against the market.

use nft_marketplace::error::{NftMarketplaceError, TransferError};
use nft_marketplace::events::{
    ListingCanceledEvent, ListingCreatedEvent, MarketplaceEvent, NftPurchasedEvent,
};
use nft_marketplace::marketplace::{
    buy_nft, cancel_listing, list_nft, try_list_nft, Marketplace,
};
use nft_marketplace::model::{BuyNFT, CancelListing, ListNFT};
use nft_marketplace::pubkey::Pubkey;

fn key(tag: u8) -> Pubkey {
    let mut bytes = [0u8; 32];
    bytes[0] = tag;
    bytes[31] = tag;
    Pubkey::new_from_array(bytes)
}

fn program() -> Pubkey {
    key(200)
}

fn seller() -> Pubkey {
    key(1)
}

fn buyer() -> Pubkey {
    key(2)
}

fn stranger() -> Pubkey {
    key(3)
}

fn asset() -> Pubkey {
    key(10)
}

/// A market in which the seller holds the asset and the buyer holds 1000.
fn funded_market() -> Marketplace {
    let mut market = Marketplace::new(program());
    assert_eq!(market.issue(&seller(), &asset(), 1), Ok(()));
    assert_eq!(market.deposit(&buyer(), 1000), Ok(()));
    market
}

/// The market after the seller has listed the asset at the price.
fn listed_market(price: u64) -> (Marketplace, Pubkey) {
    let mut market = funded_market();
    let created = list_nft(
        &mut market,
        &ListNFT { seller: seller(), nft_mint: asset() },
        price,
        String::from("Sunrise"),
        Some(String::from("SUN")),
        String::from("https://example.org/sunrise.json"),
    );
    let listing = created.expect("the listing is created");
    (market, listing)
}

#[test]
fn creation_moves_asset_into_escrow() {
    let (market, listing) = listed_market(100);
    assert_eq!(market.ledger().holding(&seller(), &asset()), 0);
    assert_eq!(market.ledger().holding(&listing, &asset()), 1);
    let record = market.listing(&listing).expect("the record exists");
    assert_eq!(record.seller, seller());
    assert_eq!(record.nft_mint, asset());
    assert_eq!(record.price, 100);
    assert_eq!(record.nft_name, "Sunrise");
    assert_eq!(record.nft_symbol, "SUN");
    assert_eq!(record.nft_uri, "https://example.org/sunrise.json");
    assert!(record.is_active);
    assert_eq!(
        market.events().as_slice(),
        &[MarketplaceEvent::ListingCreated(ListingCreatedEvent {
            listing_id: listing,
            seller: seller(),
            nft_mint: asset(),
            price: 100,
        })]
    );
}

#[test]
fn creation_without_symbol_records_empty_symbol() {
    let mut market = funded_market();
    let listing = list_nft(
        &mut market,
        &ListNFT { seller: seller(), nft_mint: asset() },
        7,
        String::from("Plain"),
        None,
        String::from("uri"),
    )
    .expect("the listing is created");
    assert_eq!(market.listing(&listing).expect("the record exists").nft_symbol, "");
}

#[test]
fn creation_at_price_zero_is_legal() {
    let (mut market, listing) = listed_market(0);
    assert_eq!(market.listing(&listing).expect("the record exists").price, 0);
    let poor = stranger();
    assert_eq!(
        buy_nft(&mut market, &BuyNFT { buyer: poor, listing, seller_wallet: seller() }),
        Ok(())
    );
    assert_eq!(market.ledger().holding(&poor, &asset()), 1);
    assert_eq!(market.ledger().balance(&seller()), 0);
}

#[test]
fn creation_without_the_asset_is_refused_whole() {
    let mut market = Marketplace::new(program());
    let created = list_nft(
        &mut market,
        &ListNFT { seller: seller(), nft_mint: asset() },
        100,
        String::from("Sunrise"),
        None,
        String::from("uri"),
    );
    assert_eq!(
        created,
        Err(NftMarketplaceError::TransferFailure(TransferError::InsufficientFunds))
    );
    assert!(market.events().is_empty());
    let listing = try_list_nft(
        &mut market,
        &ListNFT { seller: seller(), nft_mint: asset() },
        100,
        String::from("Sunrise"),
        None,
        String::from("uri"),
    );
    assert_eq!(
        listing,
        Some(Err(NftMarketplaceError::TransferFailure(TransferError::InsufficientFunds)))
    );
    // No record was left behind: once the seller holds the asset, the listing is created.
    assert_eq!(market.issue(&seller(), &asset(), 1), Ok(()));
    let created = try_list_nft(
        &mut market,
        &ListNFT { seller: seller(), nft_mint: asset() },
        100,
        String::from("Sunrise"),
        None,
        String::from("uri"),
    );
    assert!(matches!(created, Some(Ok(_))));
}

#[test]
fn purchase_settles_payment_and_delivery() {
    let (mut market, listing) = listed_market(100);
    let bought = buy_nft(&mut market, &BuyNFT { buyer: buyer(), listing, seller_wallet: seller() });
    assert_eq!(bought, Ok(()));
    assert_eq!(market.ledger().balance(&buyer()), 900);
    assert_eq!(market.ledger().balance(&seller()), 100);
    assert_eq!(market.ledger().holding(&listing, &asset()), 0);
    assert_eq!(market.ledger().holding(&buyer(), &asset()), 1);
    assert_eq!(market.ledger().holding(&seller(), &asset()), 0);
    assert!(!market.listing(&listing).expect("the record stays").is_active);
    assert_eq!(market.events().len(), 2);
    assert_eq!(
        market.events()[1],
        MarketplaceEvent::NftPurchased(NftPurchasedEvent {
            listing_id: listing,
            buyer: buyer(),
            seller: seller(),
            nft_mint: asset(),
            price: 100,
        })
    );
}

#[test]
fn second_purchase_is_refused() {
    let (mut market, listing) = listed_market(100);
    let purchase = BuyNFT { buyer: buyer(), listing, seller_wallet: seller() };
    assert_eq!(buy_nft(&mut market, &purchase), Ok(()));
    assert_eq!(buy_nft(&mut market, &purchase), Err(NftMarketplaceError::ListingNotActive));
    assert_eq!(market.ledger().balance(&buyer()), 900);
    assert_eq!(market.ledger().balance(&seller()), 100);
    assert_eq!(market.events().len(), 2);
}

#[test]
fn of_two_purchase_attempts_exactly_one_succeeds() {
    let (mut market, listing) = listed_market(100);
    let rival = stranger();
    assert_eq!(market.deposit(&rival, 500), Ok(()));
    let first = buy_nft(&mut market, &BuyNFT { buyer: rival, listing, seller_wallet: seller() });
    let second =
        buy_nft(&mut market, &BuyNFT { buyer: buyer(), listing, seller_wallet: seller() });
    assert_eq!(first, Ok(()));
    assert_eq!(second, Err(NftMarketplaceError::ListingNotActive));
    assert_eq!(market.ledger().holding(&rival, &asset()), 1);
    assert_eq!(market.ledger().holding(&buyer(), &asset()), 0);
    assert_eq!(market.ledger().balance(&rival), 400);
    assert_eq!(market.ledger().balance(&buyer()), 1000);
    assert_eq!(market.ledger().balance(&seller()), 100);
}

#[test]
fn cancel_returns_asset_to_seller() {
    let (mut market, listing) = listed_market(100);
    let canceled = cancel_listing(&mut market, &CancelListing { seller: seller(), listing });
    assert_eq!(canceled, Ok(()));
    assert_eq!(market.ledger().holding(&seller(), &asset()), 1);
    assert_eq!(market.ledger().holding(&listing, &asset()), 0);
    assert!(!market.listing(&listing).expect("the record stays").is_active);
    assert_eq!(market.ledger().balance(&seller()), 0);
    assert_eq!(market.events().len(), 2);
    assert_eq!(
        market.events()[1],
        MarketplaceEvent::ListingCanceled(ListingCanceledEvent {
            listing_id: listing,
            seller: seller(),
            nft_mint: asset(),
        })
    );
}

#[test]
fn cancel_then_purchase_is_refused() {
    let (mut market, listing) = listed_market(100);
    assert_eq!(cancel_listing(&mut market, &CancelListing { seller: seller(), listing }), Ok(()));
    assert_eq!(
        buy_nft(&mut market, &BuyNFT { buyer: buyer(), listing, seller_wallet: seller() }),
        Err(NftMarketplaceError::ListingNotActive)
    );
    assert_eq!(market.ledger().balance(&buyer()), 1000);
    assert_eq!(market.ledger().holding(&seller(), &asset()), 1);
}

#[test]
fn purchase_then_cancel_is_refused() {
    let (mut market, listing) = listed_market(100);
    assert_eq!(
        buy_nft(&mut market, &BuyNFT { buyer: buyer(), listing, seller_wallet: seller() }),
        Ok(())
    );
    assert_eq!(
        cancel_listing(&mut market, &CancelListing { seller: seller(), listing }),
        Err(NftMarketplaceError::ListingNotActive)
    );
    assert_eq!(market.ledger().holding(&buyer(), &asset()), 1);
}

#[test]
fn second_cancel_is_refused() {
    let (mut market, listing) = listed_market(100);
    let cancel = CancelListing { seller: seller(), listing };
    assert_eq!(cancel_listing(&mut market, &cancel), Ok(()));
    assert_eq!(cancel_listing(&mut market, &cancel), Err(NftMarketplaceError::ListingNotActive));
    assert_eq!(market.ledger().holding(&seller(), &asset()), 1);
}

#[test]
fn cancel_by_stranger_is_refused() {
    let (mut market, listing) = listed_market(100);
    assert_eq!(
        cancel_listing(&mut market, &CancelListing { seller: stranger(), listing }),
        Err(NftMarketplaceError::UnauthorizedAccess)
    );
    assert!(market.listing(&listing).expect("the record exists").is_active);
    assert_eq!(market.ledger().holding(&listing, &asset()), 1);
    assert_eq!(market.ledger().holding(&stranger(), &asset()), 0);
    assert_eq!(market.events().len(), 1);
}

#[test]
fn purchase_paying_a_stranger_is_refused() {
    let (mut market, listing) = listed_market(100);
    assert_eq!(
        buy_nft(&mut market, &BuyNFT { buyer: buyer(), listing, seller_wallet: stranger() }),
        Err(NftMarketplaceError::UnauthorizedAccess)
    );
    assert!(market.listing(&listing).expect("the record exists").is_active);
    assert_eq!(market.ledger().holding(&listing, &asset()), 1);
    assert_eq!(market.ledger().balance(&buyer()), 1000);
    assert_eq!(market.ledger().balance(&stranger()), 0);
    assert_eq!(market.events().len(), 1);
}

#[test]
fn settled_listing_is_reported_before_wrong_caller() {
    let (mut market, listing) = listed_market(100);
    assert_eq!(cancel_listing(&mut market, &CancelListing { seller: seller(), listing }), Ok(()));
    assert_eq!(
        cancel_listing(&mut market, &CancelListing { seller: stranger(), listing }),
        Err(NftMarketplaceError::ListingNotActive)
    );
    assert_eq!(
        buy_nft(&mut market, &BuyNFT { buyer: buyer(), listing, seller_wallet: stranger() }),
        Err(NftMarketplaceError::ListingNotActive)
    );
}

#[test]
fn second_listing_of_an_active_asset_is_refused() {
    let (mut market, listing) = listed_market(100);
    // Even a party that holds a unit of the asset cannot list it a second time.
    assert_eq!(market.issue(&stranger(), &asset(), 1), Ok(()));
    let again = list_nft(
        &mut market,
        &ListNFT { seller: stranger(), nft_mint: asset() },
        5,
        String::from("Copy"),
        None,
        String::from("uri"),
    );
    assert_eq!(again, Err(NftMarketplaceError::DuplicateListing));
    assert_eq!(market.ledger().holding(&stranger(), &asset()), 1);
    let record = market.listing(&listing).expect("the record exists");
    assert_eq!(record.seller, seller());
    assert_eq!(record.price, 100);
    assert_eq!(market.events().len(), 1);
}

#[test]
fn second_listing_of_a_settled_asset_is_refused() {
    let (mut market, listing) = listed_market(100);
    assert_eq!(
        buy_nft(&mut market, &BuyNFT { buyer: buyer(), listing, seller_wallet: seller() }),
        Ok(())
    );
    let again = list_nft(
        &mut market,
        &ListNFT { seller: buyer(), nft_mint: asset() },
        250,
        String::from("Sunrise"),
        None,
        String::from("uri"),
    );
    assert_eq!(again, Err(NftMarketplaceError::DuplicateListing));
    assert_eq!(market.ledger().holding(&buyer(), &asset()), 1);
    assert!(!market.listing(&listing).expect("the record stays").is_active);
}

#[test]
fn listings_of_two_assets_are_independent() {
    let (mut market, first) = listed_market(100);
    let other_asset = key(11);
    assert_eq!(market.issue(&stranger(), &other_asset, 1), Ok(()));
    let second = list_nft(
        &mut market,
        &ListNFT { seller: stranger(), nft_mint: other_asset },
        40,
        String::from("Moonrise"),
        Some(String::from("MOON")),
        String::from("uri"),
    )
    .expect("the second listing is created");
    assert_ne!(first, second);
    assert_eq!(
        cancel_listing(&mut market, &CancelListing { seller: stranger(), listing: second }),
        Ok(())
    );
    assert!(market.listing(&first).expect("the record exists").is_active);
    assert_eq!(market.ledger().holding(&first, &asset()), 1);
    assert_eq!(
        buy_nft(&mut market, &BuyNFT { buyer: buyer(), listing: first, seller_wallet: seller() }),
        Ok(())
    );
    assert_eq!(market.ledger().holding(&buyer(), &asset()), 1);
    assert_eq!(market.ledger().holding(&stranger(), &other_asset), 1);
}

#[test]
fn purchase_without_funds_is_refused_whole() {
    let (mut market, listing) = listed_market(1001);
    assert_eq!(
        buy_nft(&mut market, &BuyNFT { buyer: buyer(), listing, seller_wallet: seller() }),
        Err(NftMarketplaceError::TransferFailure(TransferError::InsufficientFunds))
    );
    assert!(market.listing(&listing).expect("the record exists").is_active);
    assert_eq!(market.ledger().balance(&buyer()), 1000);
    assert_eq!(market.ledger().holding(&listing, &asset()), 1);
    assert_eq!(market.events().len(), 1);
}

#[test]
fn purchase_that_cannot_be_delivered_gives_the_payment_back() {
    let mut market = Marketplace::new(program());
    assert_eq!(market.issue(&seller(), &asset(), 1), Ok(()));
    let hoarder = key(4);
    assert_eq!(market.issue(&hoarder, &asset(), u64::MAX), Ok(()));
    assert_eq!(market.deposit(&hoarder, 300), Ok(()));
    let listing = list_nft(
        &mut market,
        &ListNFT { seller: seller(), nft_mint: asset() },
        100,
        String::from("Sunrise"),
        None,
        String::from("uri"),
    )
    .expect("the listing is created");
    assert_eq!(
        buy_nft(&mut market, &BuyNFT { buyer: hoarder, listing, seller_wallet: seller() }),
        Err(NftMarketplaceError::TransferFailure(TransferError::BalanceOverflow))
    );
    assert_eq!(market.ledger().balance(&hoarder), 300);
    assert_eq!(market.ledger().balance(&seller()), 0);
    assert_eq!(market.ledger().holding(&listing, &asset()), 1);
    assert_eq!(market.ledger().holding(&hoarder, &asset()), u64::MAX);
    assert!(market.listing(&listing).expect("the record exists").is_active);
    assert_eq!(market.events().len(), 1);
}

#[test]
fn payment_that_overflows_the_seller_is_refused() {
    let (mut market, listing) = listed_market(100);
    assert_eq!(market.deposit(&seller(), u64::MAX), Ok(()));
    assert_eq!(
        buy_nft(&mut market, &BuyNFT { buyer: buyer(), listing, seller_wallet: seller() }),
        Err(NftMarketplaceError::TransferFailure(TransferError::BalanceOverflow))
    );
    assert_eq!(market.ledger().balance(&buyer()), 1000);
    assert_eq!(market.ledger().holding(&listing, &asset()), 1);
}

#[test]
fn seller_can_purchase_the_own_listing() {
    let (mut market, listing) = listed_market(100);
    assert_eq!(market.deposit(&seller(), 100), Ok(()));
    assert_eq!(
        buy_nft(&mut market, &BuyNFT { buyer: seller(), listing, seller_wallet: seller() }),
        Ok(())
    );
    assert_eq!(market.ledger().balance(&seller()), 100);
    assert_eq!(market.ledger().holding(&seller(), &asset()), 1);
    assert_eq!(market.ledger().holding(&listing, &asset()), 0);
}

#[test]
fn unknown_listing_is_not_active() {
    let mut market = funded_market();
    let nowhere = key(77);
    assert!(market.listing(&nowhere).is_none());
    assert_eq!(
        buy_nft(&mut market, &BuyNFT { buyer: buyer(), listing: nowhere, seller_wallet: seller() }),
        Err(NftMarketplaceError::ListingNotActive)
    );
    assert_eq!(
        cancel_listing(&mut market, &CancelListing { seller: seller(), listing: nowhere }),
        Err(NftMarketplaceError::ListingNotActive)
    );
    assert!(market.events().is_empty());
}

#[test]
fn new_market_is_empty() {
    let market = Marketplace::new(program());
    assert_eq!(market.program_id(), program());
    assert!(market.events().is_empty());
    assert!(market.listing(&asset()).is_none());
    assert_eq!(market.ledger().balance(&seller()), 0);
    assert_eq!(market.ledger().holding(&seller(), &asset()), 0);
}

#[test]
fn deposit_and_issue_report_overflow() {
    let mut market = Marketplace::new(program());
    assert_eq!(market.deposit(&buyer(), u64::MAX), Ok(()));
    assert_eq!(
        market.deposit(&buyer(), 1),
        Err(NftMarketplaceError::TransferFailure(TransferError::BalanceOverflow))
    );
    assert_eq!(market.ledger().balance(&buyer()), u64::MAX);
    assert_eq!(market.issue(&buyer(), &asset(), u64::MAX), Ok(()));
    assert_eq!(
        market.issue(&buyer(), &asset(), 1),
        Err(NftMarketplaceError::TransferFailure(TransferError::BalanceOverflow))
    );
    assert_eq!(market.ledger().holding(&buyer(), &asset()), u64::MAX);
}
