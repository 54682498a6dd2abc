use marketplace::contract::{
    approvals_query, check_terms, emit_settlement, is_accepted_denom, owner_query, query,
    query_auction_listing, query_highest_bidder, query_listing, smart_query,
    verify_current_owner, verify_marketplace_approval, write_receipt,
};
use marketplace::error::{ContractError, RecordKind, UnderlyingError};
use marketplace::msg::{
    AuctionListingResponse, HighestBidderResponse, ListingResponse, QueryMsg, QueryResponse,
};
use marketplace::registry::WasmQuery;
use marketplace::response::{Attribute, CosmosMsg, Response};
use marketplace::state::{AuctionNft, Bidder, Store, NFT};
use marketplace::table::Table;
use marketplace::types::{
    Approval, BlockInfo, Coin, ContractInfo, Env, Expiration, MessageInfo, Timestamp,
};

fn block(height: u64, nanos: u64) -> BlockInfo {
    BlockInfo { height, time: Timestamp::from_nanos(nanos), chain_id: String::from("chain") }
}

fn surroundings(height: u64, nanos: u64) -> Env {
    Env { block: block(height, nanos), contract: ContractInfo { address: String::from("market") } }
}

fn listing(token: &str, price: u128) -> NFT {
    NFT {
        token_id: String::from(token),
        owner: String::from("alice"),
        contract_address: String::from("registry"),
        price: Coin::new(price, String::from("uusd")),
        expiration: Expiration::Never {},
    }
}

#[test]
fn expiration_at_height_is_reached_at_that_height() {
    let deadline = Expiration::AtHeight(10);
    assert!(!deadline.is_expired(&block(9, u64::MAX)));
    assert!(deadline.is_expired(&block(10, 0)));
    assert!(deadline.is_expired(&block(11, 0)));
}

#[test]
fn expiration_at_time_is_reached_at_that_time() {
    let deadline = Expiration::AtTime(Timestamp::from_nanos(10));
    assert!(!deadline.is_expired(&block(u64::MAX, 9)));
    assert!(deadline.is_expired(&block(0, 10)));
    assert!(deadline.is_expired(&block(0, 11)));
}

#[test]
fn expiration_never_is_never_reached() {
    assert!(!Expiration::Never {}.is_expired(&block(u64::MAX, u64::MAX)));
    assert!(!Expiration::Never {}.is_expired(&block(0, 0)));
}

#[test]
fn timestamp_keeps_its_nanoseconds() {
    assert_eq!(Timestamp::from_nanos(123).nanos(), 123);
    assert_eq!(Timestamp::from_nanos(0).nanos(), 0);
}

#[test]
fn coin_copies_keep_amount_and_denomination() {
    let coin = Coin::new(42, String::from("uusd"));
    assert_eq!(coin.amount, 42);
    assert_eq!(coin.denom, "uusd");
    assert_eq!(coin.duplicate(), coin);
}

#[test]
fn only_uusd_is_accepted() {
    assert!(is_accepted_denom(&String::from("uusd")));
    assert!(!is_accepted_denom(&String::from("UUSD")));
    assert!(!is_accepted_denom(&String::from("uluna")));
    assert!(!is_accepted_denom(&String::from("")));
}

#[test]
fn owner_is_verified_by_exact_address() {
    assert!(verify_current_owner(&String::from("alice"), &String::from("alice")));
    assert!(!verify_current_owner(&String::from("alice"), &String::from("Alice")));
    assert!(!verify_current_owner(&String::from("alice"), &String::from("")));
}

#[test]
fn approval_must_name_the_marketplace_and_expire_exactly() {
    let market = String::from("market");
    let granted = vec![
        Approval { spender: String::from("other"), expires: Expiration::AtHeight(10) },
        Approval { spender: String::from("market"), expires: Expiration::AtHeight(11) },
        Approval {
            spender: String::from("market"),
            expires: Expiration::AtTime(Timestamp::from_nanos(10)),
        },
    ];
    assert!(!verify_marketplace_approval(&granted, &market, Expiration::AtHeight(10)));
    assert!(verify_marketplace_approval(&granted, &market, Expiration::AtHeight(11)));
    assert!(verify_marketplace_approval(
        &granted,
        &market,
        Expiration::AtTime(Timestamp::from_nanos(10))
    ));
    assert!(!verify_marketplace_approval(&granted, &market, Expiration::Never {}));
    assert!(!verify_marketplace_approval(&vec![], &market, Expiration::Never {}));
}

#[test]
fn terms_are_checked_in_order() {
    let env = surroundings(100, 1_000);
    let alice = MessageInfo { sender: String::from("alice"), funds: vec![] };
    let owner = String::from("alice");
    let good = Coin::new(1, String::from("uusd"));
    assert_eq!(check_terms(&env, &alice, &owner, &good, Expiration::AtHeight(101)), Ok(()));
    assert_eq!(
        check_terms(&env, &alice, &String::from("bob"), &Coin::new(0, String::from("x")), Expiration::AtHeight(1)),
        Err(ContractError::Unauthorized {})
    );
    assert_eq!(
        check_terms(&env, &alice, &owner, &Coin::new(0, String::from("x")), Expiration::AtHeight(1)),
        Err(ContractError::InvalidAmount {})
    );
    assert_eq!(
        check_terms(&env, &alice, &owner, &Coin::new(1, String::from("x")), Expiration::AtHeight(1)),
        Err(ContractError::InvalidDenomination {})
    );
    assert_eq!(
        check_terms(&env, &alice, &owner, &good, Expiration::AtHeight(100)),
        Err(ContractError::Expired {})
    );
}

#[test]
fn owner_query_is_what_the_registry_reads() {
    let query = owner_query(String::from("LINK"), String::from("registry")).unwrap();
    assert_eq!(query.contract_addr, "registry");
    assert_eq!(query.msg, b"{\"owner_of\":{\"token_id\":\"LINK\",\"include_expired\":null}}".to_vec());
    let expected = cosmwasm_std::to_binary(&cw721::Cw721QueryMsg::OwnerOf {
        token_id: String::from("LINK"),
        include_expired: None,
    })
    .unwrap();
    assert_eq!(query.msg, expected.0);
    let read: cw721::Cw721QueryMsg = cosmwasm_std::from_slice(&query.msg).unwrap();
    assert_eq!(
        read,
        cw721::Cw721QueryMsg::OwnerOf { token_id: String::from("LINK"), include_expired: None }
    );
}

#[test]
fn approvals_query_is_what_the_registry_reads() {
    let query = approvals_query(String::from("registry"), String::from("alice")).unwrap();
    assert_eq!(query.contract_addr, "registry");
    let expected = cosmwasm_std::to_binary(&cw721::Cw721QueryMsg::ApprovedForAll {
        owner: String::from("alice"),
        include_expired: None,
        start_after: None,
        limit: None,
    })
    .unwrap();
    assert_eq!(query.msg, expected.0);
    let read: cw721::Cw721QueryMsg = cosmwasm_std::from_slice(&query.msg).unwrap();
    assert_eq!(
        read,
        cw721::Cw721QueryMsg::ApprovedForAll {
            owner: String::from("alice"),
            include_expired: None,
            start_after: None,
            limit: None,
        }
    );
}

#[test]
fn smart_query_addresses_the_bytes_or_passes_the_failure_on() {
    let query = smart_query(String::from("registry"), Ok(vec![1, 2, 3]));
    assert_eq!(
        query,
        Ok(WasmQuery { contract_addr: String::from("registry"), msg: vec![1, 2, 3] })
    );
    let failed = smart_query(
        String::from("registry"),
        Err(cosmwasm_std::StdError::serialize_err("Cw721QueryMsg", "no")),
    );
    assert_eq!(
        failed,
        Err(ContractError::Std(UnderlyingError::Host(cosmwasm_std::StdError::serialize_err(
            "Cw721QueryMsg",
            "no"
        ))))
    );
}

#[test]
fn settlement_pays_first_and_transfers_second() {
    let response = emit_settlement(
        String::from("alice"),
        Coin::new(200, String::from("uusd")),
        String::from("registry"),
        Ok(vec![9, 8, 7]),
    )
    .unwrap();
    assert_eq!(
        response,
        Response {
            messages: vec![
                CosmosMsg::BankSend {
                    to_address: String::from("alice"),
                    amount: vec![Coin::new(200, String::from("uusd"))],
                },
                CosmosMsg::WasmExecute {
                    contract_addr: String::from("registry"),
                    msg: vec![9, 8, 7],
                    funds: vec![],
                },
            ],
            attributes: vec![],
        }
    );
}

#[test]
fn settlement_is_refused_whole_where_the_transfer_cannot_be_encoded() {
    let res = emit_settlement(
        String::from("alice"),
        Coin::new(200, String::from("uusd")),
        String::from("registry"),
        Err(cosmwasm_std::StdError::serialize_err("Cw721ExecuteMsg", "no")),
    );
    assert_eq!(
        res,
        Err(ContractError::Std(UnderlyingError::Host(cosmwasm_std::StdError::serialize_err(
            "Cw721ExecuteMsg",
            "no"
        ))))
    );
}

#[test]
fn receipt_lists_action_asset_deadline_and_price() {
    let receipt = write_receipt(
        "list",
        String::from("LINK"),
        String::from("expiration: never"),
        "price",
        String::from("5uusd"),
    );
    assert_eq!(receipt.messages, vec![]);
    assert_eq!(
        receipt.attributes,
        vec![
            Attribute { key: String::from("action"), value: String::from("list") },
            Attribute { key: String::from("ID"), value: String::from("LINK") },
            Attribute { key: String::from("expires"), value: String::from("expiration: never") },
            Attribute { key: String::from("price"), value: String::from("5uusd") },
        ]
    );
}

#[test]
fn response_keeps_the_order_in_which_it_was_built() {
    let response = Response::new()
        .add_attribute("a", String::from("1"))
        .add_message(CosmosMsg::BankSend { to_address: String::from("x"), amount: vec![] })
        .add_attribute("b", String::from("2"));
    assert_eq!(response.attributes.len(), 2);
    assert_eq!(response.attributes[0].key, "a");
    assert_eq!(response.attributes[1].value, "2");
    assert_eq!(response.messages.len(), 1);
    assert_eq!(Response::default(), Response::new());
}

#[test]
fn table_holds_one_record_per_key() {
    let mut table: Table<NFT> = Table::new();
    let link = String::from("LINK");
    assert!(!table.has(&link));
    assert_eq!(table.may_load(&link), None);
    table.save(link.clone(), listing("LINK", 1));
    table.save(String::from("DOT"), listing("DOT", 2));
    table.save(link.clone(), listing("LINK", 3));
    assert!(table.has(&link));
    assert_eq!(table.may_load(&link), Some(&listing("LINK", 3)));
    assert_eq!(table.may_load(&String::from("DOT")), Some(&listing("DOT", 2)));
    table.remove(&link);
    assert!(!table.has(&link));
    assert!(table.has(&String::from("DOT")));
    table.remove(&link);
    assert!(!table.has(&link));
    table.remove(&String::from("DOT"));
    assert_eq!(table.may_load(&String::from("DOT")), None);
}

#[test]
fn records_copy_whole() {
    let nft = listing("LINK", 1);
    assert_eq!(nft.duplicate(), nft);
    let auction = AuctionNft {
        token_id: String::from("LINK"),
        owner: String::from("alice"),
        contract_address: String::from("registry"),
        starting_price: Coin::new(5, String::from("uusd")),
        expiration: Expiration::AtHeight(3),
    };
    assert_eq!(auction.duplicate(), auction);
    let bidder = Bidder { address: String::from("bob"), bid: Coin::new(6, String::from("uusd")) };
    assert_eq!(bidder.duplicate(), bidder);
}

#[test]
fn query_returns_the_record_asked_for() {
    let mut store = Store::new();
    let link = String::from("LINK");
    store.list.save(link.clone(), listing("LINK", 10));
    let auction = AuctionNft {
        token_id: String::from("LINK"),
        owner: String::from("alice"),
        contract_address: String::from("registry"),
        starting_price: Coin::new(5, String::from("uusd")),
        expiration: Expiration::AtHeight(3),
    };
    store.auction_list.save(link.clone(), auction.clone());
    let bidder = Bidder { address: String::from("bob"), bid: Coin::new(6, String::from("uusd")) };
    store.highest_bidder.save(link.clone(), bidder.clone());
    let env = surroundings(1, 1);
    assert_eq!(
        query(&store, &env, QueryMsg::GetListing { token_id: link.clone() }),
        Ok(QueryResponse::Listing(ListingResponse { nft: listing("LINK", 10) }))
    );
    assert_eq!(
        query(&store, &env, QueryMsg::GetAuctionListing { token_id: link.clone() }),
        Ok(QueryResponse::AuctionListing(AuctionListingResponse { auction_nft: auction.clone() }))
    );
    assert_eq!(
        query(&store, &env, QueryMsg::GetHighestBidder { token_id: link.clone() }),
        Ok(QueryResponse::HighestBidder(HighestBidderResponse { bidder: bidder.clone() }))
    );
    assert_eq!(query_listing(&store, link.clone()), Ok(ListingResponse { nft: listing("LINK", 10) }));
    assert_eq!(
        query_auction_listing(&store, link.clone()),
        Ok(AuctionListingResponse { auction_nft: auction })
    );
    assert_eq!(query_highest_bidder(&store, link), Ok(HighestBidderResponse { bidder }));
}

#[test]
fn query_of_a_missing_record_says_which_kind() {
    let store = Store::new();
    let env = surroundings(1, 1);
    let dot = String::from("DOT");
    assert_eq!(
        query(&store, &env, QueryMsg::GetListing { token_id: dot.clone() }),
        Err(UnderlyingError::NotFound { kind: RecordKind::Listing })
    );
    assert_eq!(
        query(&store, &env, QueryMsg::GetAuctionListing { token_id: dot.clone() }),
        Err(UnderlyingError::NotFound { kind: RecordKind::Auction })
    );
    assert_eq!(
        query(&store, &env, QueryMsg::GetHighestBidder { token_id: dot }),
        Err(UnderlyingError::NotFound { kind: RecordKind::HighestBid })
    );
}
