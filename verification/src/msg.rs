//! The requests that the marketplace accepts and the answers to its queries.

use vstd::prelude::*;
use crate::state::{AuctionNft, AuctionNftView, Bidder, BidderView, NFT, NftView};
use crate::types::{Coin, CoinView, Expiration};

verus! {

/// The request that sets the marketplace up. It carries nothing.
#[derive(Clone, Debug, PartialEq, Eq)]
pub struct InstantiateMsg {}

/// A request that may change the store.
#[derive(Clone, Debug, PartialEq, Eq)]
pub enum ExecuteMsg {
    /// Offer an asset at a fixed price.
    Sell { token_id: String, contract_address: String, price: Coin, expiration: Expiration },
    /// Buy a listed asset with the funds that come with the request.
    Buy { token_id: String },
    /// Withdraw a fixed-price listing.
    Delist { token_id: String, contract_address: String },
    /// Put an asset up for auction.
    Auction {
        token_id: String,
        contract_address: String,
        starting_price: Coin,
        expiration: Expiration,
    },
    /// Bid on an auction with the funds that come with the request.
    Bid { token_id: String },
    /// Settle an auction whose deadline has been reached.
    Claim { token_id: String },
}

pub enum ExecuteMsgView {
    Sell {
        token_id: Seq<char>,
        contract_address: Seq<char>,
        price: CoinView,
        expiration: Expiration,
    },
    Buy { token_id: Seq<char> },
    Delist { token_id: Seq<char>, contract_address: Seq<char> },
    Auction {
        token_id: Seq<char>,
        contract_address: Seq<char>,
        starting_price: CoinView,
        expiration: Expiration,
    },
    Bid { token_id: Seq<char> },
    Claim { token_id: Seq<char> },
}

impl View for ExecuteMsg {
    type V = ExecuteMsgView;

    open spec fn view(&self) -> ExecuteMsgView {
        match self {
            ExecuteMsg::Sell {
                token_id,
                contract_address,
                price,
                expiration,
            } => ExecuteMsgView::Sell {
                token_id: token_id@,
                contract_address: contract_address@,
                price: price@,
                expiration: *expiration,
            },
            ExecuteMsg::Buy { token_id } => ExecuteMsgView::Buy { token_id: token_id@ },
            ExecuteMsg::Delist { token_id, contract_address } => ExecuteMsgView::Delist {
                token_id: token_id@,
                contract_address: contract_address@,
            },
            ExecuteMsg::Auction {
                token_id,
                contract_address,
                starting_price,
                expiration,
            } => ExecuteMsgView::Auction {
                token_id: token_id@,
                contract_address: contract_address@,
                starting_price: starting_price@,
                expiration: *expiration,
            },
            ExecuteMsg::Bid { token_id } => ExecuteMsgView::Bid { token_id: token_id@ },
            ExecuteMsg::Claim { token_id } => ExecuteMsgView::Claim { token_id: token_id@ },
        }
    }
}

/// A request that only reads the store.
#[derive(Clone, Debug, PartialEq, Eq)]
pub enum QueryMsg {
    GetListing { token_id: String },
    GetAuctionListing { token_id: String },
    GetHighestBidder { token_id: String },
}

pub enum QueryMsgView {
    GetListing { token_id: Seq<char> },
    GetAuctionListing { token_id: Seq<char> },
    GetHighestBidder { token_id: Seq<char> },
}

impl View for QueryMsg {
    type V = QueryMsgView;

    open spec fn view(&self) -> QueryMsgView {
        match self {
            QueryMsg::GetListing { token_id } => QueryMsgView::GetListing { token_id: token_id@ },
            QueryMsg::GetAuctionListing { token_id } => QueryMsgView::GetAuctionListing {
                token_id: token_id@,
            },
            QueryMsg::GetHighestBidder { token_id } => QueryMsgView::GetHighestBidder {
                token_id: token_id@,
            },
        }
    }
}

/// The fixed-price listing of an asset.
#[derive(Clone, Debug, PartialEq, Eq)]
pub struct ListingResponse {
    pub nft: NFT,
}

/// Several fixed-price listings.
#[derive(Clone, Debug, PartialEq, Eq)]
pub struct ListingsResponse {
    pub nfts: Vec<NFT>,
}

/// The auction of an asset.
#[derive(Clone, Debug, PartialEq, Eq)]
pub struct AuctionListingResponse {
    pub auction_nft: AuctionNft,
}

/// The highest bid on an asset's auction.
#[derive(Clone, Debug, PartialEq, Eq)]
pub struct HighestBidderResponse {
    pub bidder: Bidder,
}

/// The answer to a query, by the kind of record that was asked for.
#[derive(Clone, Debug, PartialEq, Eq)]
pub enum QueryResponse {
    Listing(ListingResponse),
    AuctionListing(AuctionListingResponse),
    HighestBidder(HighestBidderResponse),
}

pub enum QueryResponseView {
    Listing(NftView),
    AuctionListing(AuctionNftView),
    HighestBidder(BidderView),
}

impl View for QueryResponse {
    type V = QueryResponseView;

    open spec fn view(&self) -> QueryResponseView {
        match self {
            QueryResponse::Listing(r) => QueryResponseView::Listing(r.nft@),
            QueryResponse::AuctionListing(r) => QueryResponseView::AuctionListing(r.auction_nft@),
            QueryResponse::HighestBidder(r) => QueryResponseView::HighestBidder(r.bidder@),
        }
    }
}

} // verus!
