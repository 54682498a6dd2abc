//! The records that the marketplace keeps, and the store that holds them.

use vstd::prelude::*;
use crate::table::Table;
use crate::types::{Coin, CoinView, Expiration};

verus! {

/// A counter and the account that it belongs to.
#[derive(Clone, Debug, PartialEq, Eq)]
pub struct State {
    pub count: i32,
    pub owner: String,
}

/// An asset offered at a fixed price. `owner` is the owner that the registry
/// reported when the asset was listed.
#[derive(Clone, Debug, PartialEq, Eq)]
pub struct NFT {
    pub token_id: String,
    pub owner: String,
    pub contract_address: String,
    pub price: Coin,
    pub expiration: Expiration,
}

pub struct NftView {
    pub token_id: Seq<char>,
    pub owner: Seq<char>,
    pub contract_address: Seq<char>,
    pub price: CoinView,
    pub expiration: Expiration,
}

impl View for NFT {
    type V = NftView;

    open spec fn view(&self) -> NftView {
        NftView {
            token_id: self.token_id@,
            owner: self.owner@,
            contract_address: self.contract_address@,
            price: self.price@,
            expiration: self.expiration,
        }
    }
}

impl NFT {
    /// A copy with the same contents.
    pub fn duplicate(&self) -> (n: NFT)
        ensures
            n@ == self@,
    {
        NFT {
            token_id: self.token_id.clone(),
            owner: self.owner.clone(),
            contract_address: self.contract_address.clone(),
            price: self.price.duplicate(),
            expiration: self.expiration,
        }
    }
}

/// An asset put up for auction. `owner` is the owner that the registry
/// reported when the auction was opened.
#[derive(Clone, Debug, PartialEq, Eq)]
pub struct AuctionNft {
    pub token_id: String,
    pub owner: String,
    pub contract_address: String,
    pub starting_price: Coin,
    pub expiration: Expiration,
}

pub struct AuctionNftView {
    pub token_id: Seq<char>,
    pub owner: Seq<char>,
    pub contract_address: Seq<char>,
    pub starting_price: CoinView,
    pub expiration: Expiration,
}

impl View for AuctionNft {
    type V = AuctionNftView;

    open spec fn view(&self) -> AuctionNftView {
        AuctionNftView {
            token_id: self.token_id@,
            owner: self.owner@,
            contract_address: self.contract_address@,
            starting_price: self.starting_price@,
            expiration: self.expiration,
        }
    }
}

impl AuctionNft {
    /// A copy with the same contents.
    pub fn duplicate(&self) -> (a: AuctionNft)
        ensures
            a@ == self@,
    {
        AuctionNft {
            token_id: self.token_id.clone(),
            owner: self.owner.clone(),
            contract_address: self.contract_address.clone(),
            starting_price: self.starting_price.duplicate(),
            expiration: self.expiration,
        }
    }
}

/// The highest bid on an auction so far, and who made it.
#[derive(Clone, Debug, PartialEq, Eq)]
pub struct Bidder {
    pub address: String,
    pub bid: Coin,
}

pub struct BidderView {
    pub address: Seq<char>,
    pub bid: CoinView,
}

impl View for Bidder {
    type V = BidderView;

    open spec fn view(&self) -> BidderView {
        BidderView { address: self.address@, bid: self.bid@ }
    }
}

impl Bidder {
    /// A copy with the same contents.
    pub fn duplicate(&self) -> (b: Bidder)
        ensures
            b@ == self@,
    {
        Bidder { address: self.address.clone(), bid: self.bid.duplicate() }
    }
}

/// Everything the marketplace remembers between requests, keyed by asset
/// identifier: the fixed-price listings, the auctions, and the highest bid of
/// each auction that has one.
pub struct Store {
    pub list: Table<NFT>,
    pub auction_list: Table<AuctionNft>,
    pub highest_bidder: Table<Bidder>,
}

pub struct StoreView {
    pub listings: Map<Seq<char>, NftView>,
    pub auctions: Map<Seq<char>, AuctionNftView>,
    pub bids: Map<Seq<char>, BidderView>,
}

impl StoreView {
    pub open spec fn empty() -> StoreView {
        StoreView { listings: Map::empty(), auctions: Map::empty(), bids: Map::empty() }
    }
}

impl View for Store {
    type V = StoreView;

    open spec fn view(&self) -> StoreView {
        StoreView {
            listings: self.list@,
            auctions: self.auction_list@,
            bids: self.highest_bidder@,
        }
    }
}

impl Store {
    /// A store with no record.
    pub fn new() -> (s: Store)
        ensures
            s@ == StoreView::empty(),
    {
        Store { list: Table::new(), auction_list: Table::new(), highest_bidder: Table::new() }
    }
}

} // verus!
