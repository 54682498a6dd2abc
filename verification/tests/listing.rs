use marketplace::contract::{
    execute, execute_buy, execute_delist, execute_sell, instantiate, reads_funds,
};
use marketplace::error::{ContractError, UnderlyingError};
use marketplace::msg::{ExecuteMsg, InstantiateMsg};
use marketplace::registry::{RegistryAnswers, Step};
use marketplace::response::{Attribute, CosmosMsg, Response};
use marketplace::state::{Store, NFT};
use marketplace::types::{
    Approval, BlockInfo, Coin, ContractInfo, Env, Expiration, MessageInfo, Timestamp,
};

const MARKET: &str = "marketplace";
const REGISTRY: &str = "registry";

fn env_at(height: u64, nanos: u64) -> Env {
    Env {
        block: BlockInfo {
            height,
            time: Timestamp::from_nanos(nanos),
            chain_id: String::from("chain"),
        },
        contract: ContractInfo { address: String::from(MARKET) },
    }
}

fn info(sender: &str, funds: Vec<Coin>) -> MessageInfo {
    MessageInfo { sender: String::from(sender), funds }
}

fn uusd(amount: u128) -> Coin {
    Coin::new(amount, String::from("uusd"))
}

fn attr(key: &str, value: &str) -> Attribute {
    Attribute { key: String::from(key), value: String::from(value) }
}

fn approved_until(expiration: Expiration) -> Vec<Approval> {
    vec![Approval { spender: String::from(MARKET), expires: expiration }]
}

fn answers(owner: &str, approvals: Vec<Approval>) -> RegistryAnswers {
    RegistryAnswers { owner: Some(Ok(String::from(owner))), approvals: Some(Ok(approvals)) }
}

fn sell(store: &mut Store, token: &str, owner: &str, price: Coin, expiration: Expiration) -> Step {
    execute_sell(
        store,
        &env_at(100, 1_000),
        &info(owner, vec![]),
        String::from(token),
        String::from(REGISTRY),
        price,
        expiration,
        answers(owner, approved_until(expiration)),
    )
}

fn done(step: Step) -> Result<Response, ContractError> {
    match step {
        Step::Done(res) => res,
        other => panic!("the operation stopped at {:?}", other),
    }
}

fn transfer_bytes(recipient: &str, token: &str) -> Vec<u8> {
    format!("{{\"transfer_nft\":{{\"recipient\":\"{}\",\"token_id\":\"{}\"}}}}", recipient, token)
        .into_bytes()
}

#[test]
fn instantiate_gives_an_empty_store_and_response() {
    let (store, response) = instantiate(&env_at(1, 1), &info("anyone", vec![]), InstantiateMsg {});
    assert_eq!(response.messages.len(), 0);
    assert_eq!(response.attributes.len(), 0);
    assert!(!store.list.has(&String::from("LINK")));
    assert!(!store.auction_list.has(&String::from("LINK")));
    assert!(!store.highest_bidder.has(&String::from("LINK")));
}

#[test]
fn sell_asks_for_the_owner_first() {
    let mut store = Store::new();
    let step = execute_sell(
        &mut store,
        &env_at(100, 1_000),
        &info("alice", vec![]),
        String::from("LINK"),
        String::from(REGISTRY),
        uusd(100),
        Expiration::AtHeight(90000),
        RegistryAnswers::none(),
    );
    assert_eq!(
        step,
        Step::QueryOwner {
            contract_address: String::from(REGISTRY),
            token_id: String::from("LINK"),
        }
    );
    assert!(!store.list.has(&String::from("LINK")));
}

#[test]
fn sell_asks_for_the_approvals_of_the_reported_owner() {
    let mut store = Store::new();
    let step = execute_sell(
        &mut store,
        &env_at(100, 1_000),
        &info("alice", vec![]),
        String::from("LINK"),
        String::from(REGISTRY),
        uusd(100),
        Expiration::AtHeight(90000),
        RegistryAnswers { owner: Some(Ok(String::from("alice"))), approvals: None },
    );
    assert_eq!(
        step,
        Step::QueryApprovals {
            contract_address: String::from(REGISTRY),
            owner: String::from("alice"),
        }
    );
    assert!(!store.list.has(&String::from("LINK")));
}

#[test]
fn sell_records_the_listing_and_writes_the_receipt() {
    let mut store = Store::new();
    let response = done(sell(&mut store, "LINK", "alice", uusd(100), Expiration::AtHeight(90000)))
        .unwrap();
    assert_eq!(response.messages, vec![]);
    assert_eq!(
        response.attributes,
        vec![
            attr("action", "list"),
            attr("ID", "LINK"),
            attr("expires", "expiration height: 90000"),
            attr("price", "100uusd"),
        ]
    );
    assert_eq!(
        store.list.may_load(&String::from("LINK")),
        Some(&NFT {
            token_id: String::from("LINK"),
            owner: String::from("alice"),
            contract_address: String::from(REGISTRY),
            price: uusd(100),
            expiration: Expiration::AtHeight(90000),
        })
    );
    assert!(!store.auction_list.has(&String::from("LINK")));
}

#[test]
fn sell_receipt_shows_a_time_deadline_in_seconds() {
    let mut store = Store::new();
    let expiration = Expiration::AtTime(Timestamp::from_nanos(1_500_000_000));
    let response = done(sell(&mut store, "LINK", "alice", uusd(7), expiration)).unwrap();
    assert_eq!(response.attributes[2], attr("expires", "expiration time: 1.500000000"));
    assert_eq!(response.attributes[3], attr("price", "7uusd"));
}

#[test]
fn sell_receipt_shows_a_deadline_that_never_comes() {
    let mut store = Store::new();
    let response = done(sell(&mut store, "LINK", "alice", uusd(7), Expiration::Never {})).unwrap();
    assert_eq!(response.attributes[2], attr("expires", "expiration: never"));
}

#[test]
fn sell_twice_fails_already_listed() {
    let mut store = Store::new();
    done(sell(&mut store, "LINK", "alice", uusd(100), Expiration::AtHeight(90000))).unwrap();
    let again = sell(&mut store, "LINK", "alice", uusd(100), Expiration::AtHeight(90000));
    assert_eq!(again, Step::Done(Err(ContractError::AlreadyListed {})));
    let unasked = execute_sell(
        &mut store,
        &env_at(100, 1_000),
        &info("mallory", vec![]),
        String::from("LINK"),
        String::from(REGISTRY),
        uusd(0),
        Expiration::AtHeight(1),
        RegistryAnswers::none(),
    );
    assert_eq!(unasked, Step::Done(Err(ContractError::AlreadyListed {})));
}

#[test]
fn sell_by_another_than_the_owner_is_unauthorized() {
    let mut store = Store::new();
    let step = execute_sell(
        &mut store,
        &env_at(100, 1_000),
        &info("anyone", vec![]),
        String::from("LINK"),
        String::from("HEY"),
        Coin::new(100, String::from("UST")),
        Expiration::AtHeight(90000),
        answers("alice", approved_until(Expiration::AtHeight(90000))),
    );
    assert_eq!(step, Step::Done(Err(ContractError::Unauthorized {})));
    assert!(!store.list.has(&String::from("LINK")));
}

#[test]
fn sell_at_price_zero_is_an_invalid_amount() {
    let mut store = Store::new();
    let step = sell(&mut store, "LINK", "alice", uusd(0), Expiration::AtHeight(90000));
    assert_eq!(step, Step::Done(Err(ContractError::InvalidAmount {})));
    assert!(!store.list.has(&String::from("LINK")));
}

#[test]
fn sell_in_another_denomination_is_refused() {
    let mut store = Store::new();
    let price = Coin::new(100, String::from("UST"));
    let step = sell(&mut store, "LINK", "alice", price, Expiration::AtHeight(90000));
    assert_eq!(step, Step::Done(Err(ContractError::InvalidDenomination {})));
    assert!(!store.list.has(&String::from("LINK")));
}

#[test]
fn sell_with_a_deadline_already_reached_is_expired() {
    let mut store = Store::new();
    let step = sell(&mut store, "LINK", "alice", uusd(100), Expiration::AtHeight(100));
    assert_eq!(step, Step::Done(Err(ContractError::Expired {})));
    let step = sell(
        &mut store,
        "LINK",
        "alice",
        uusd(100),
        Expiration::AtTime(Timestamp::from_nanos(1_000)),
    );
    assert_eq!(step, Step::Done(Err(ContractError::Expired {})));
    assert!(!store.list.has(&String::from("LINK")));
}

#[test]
fn sell_checks_the_amount_before_the_denomination_and_the_deadline() {
    let mut store = Store::new();
    let price = Coin::new(0, String::from("UST"));
    let step = sell(&mut store, "LINK", "alice", price, Expiration::AtHeight(1));
    assert_eq!(step, Step::Done(Err(ContractError::InvalidAmount {})));
    let price = Coin::new(5, String::from("UST"));
    let step = sell(&mut store, "LINK", "alice", price, Expiration::AtHeight(1));
    assert_eq!(step, Step::Done(Err(ContractError::InvalidDenomination {})));
}

#[test]
fn sell_without_an_approval_is_unapproved() {
    let mut store = Store::new();
    let step = execute_sell(
        &mut store,
        &env_at(100, 1_000),
        &info("alice", vec![]),
        String::from("LINK"),
        String::from(REGISTRY),
        uusd(100),
        Expiration::AtHeight(90000),
        answers("alice", vec![]),
    );
    assert_eq!(step, Step::Done(Err(ContractError::Unapproved {})));
    assert!(!store.list.has(&String::from("LINK")));
}

#[test]
fn sell_with_an_approval_that_lasts_longer_is_unapproved() {
    let mut store = Store::new();
    let granted = vec![
        Approval { spender: String::from(MARKET), expires: Expiration::AtHeight(90001) },
        Approval { spender: String::from(MARKET), expires: Expiration::Never {} },
        Approval { spender: String::from("someone"), expires: Expiration::AtHeight(90000) },
    ];
    let step = execute_sell(
        &mut store,
        &env_at(100, 1_000),
        &info("alice", vec![]),
        String::from("LINK"),
        String::from(REGISTRY),
        uusd(100),
        Expiration::AtHeight(90000),
        answers("alice", granted),
    );
    assert_eq!(step, Step::Done(Err(ContractError::Unapproved {})));
}

#[test]
fn sell_passes_on_a_failed_owner_query() {
    let mut store = Store::new();
    let failure = cosmwasm_std::StdError::generic_err("Querier system error: no such contract");
    let step = execute_sell(
        &mut store,
        &env_at(100, 1_000),
        &info("alice", vec![]),
        String::from("LINK"),
        String::from(REGISTRY),
        uusd(0),
        Expiration::AtHeight(1),
        RegistryAnswers {
            owner: Some(Err(ContractError::Std(UnderlyingError::Host(failure)))),
            approvals: None,
        },
    );
    let expected = cosmwasm_std::StdError::generic_err("Querier system error: no such contract");
    assert_eq!(step, Step::Done(Err(ContractError::Std(UnderlyingError::Host(expected)))));
}

#[test]
fn sell_passes_on_a_failed_approvals_query() {
    let mut store = Store::new();
    let failure = cosmwasm_std::StdError::generic_err("Querier contract error: out of gas");
    let step = execute_sell(
        &mut store,
        &env_at(100, 1_000),
        &info("alice", vec![]),
        String::from("LINK"),
        String::from(REGISTRY),
        uusd(100),
        Expiration::AtHeight(90000),
        RegistryAnswers {
            owner: Some(Ok(String::from("alice"))),
            approvals: Some(Err(ContractError::Std(UnderlyingError::Host(failure)))),
        },
    );
    let expected = cosmwasm_std::StdError::generic_err("Querier contract error: out of gas");
    assert_eq!(step, Step::Done(Err(ContractError::Std(UnderlyingError::Host(expected)))));
    assert!(!store.list.has(&String::from("LINK")));
}

#[test]
fn buy_at_the_listed_price_settles_once() {
    let mut store = Store::new();
    done(sell(&mut store, "LINK", "alice", uusd(100), Expiration::AtHeight(90000))).unwrap();
    let buyer = info("bob", vec![uusd(100)]);
    let response =
        execute_buy(&mut store, &env_at(101, 2_000), &buyer, String::from("LINK")).unwrap();
    assert_eq!(
        response.messages,
        vec![
            CosmosMsg::BankSend { to_address: String::from("alice"), amount: vec![uusd(100)] },
            CosmosMsg::WasmExecute {
                contract_addr: String::from(REGISTRY),
                msg: transfer_bytes("bob", "LINK"),
                funds: vec![],
            },
        ]
    );
    assert_eq!(
        response.attributes,
        vec![
            attr("Action", "Buy"),
            attr("Buyer", "bob"),
            attr("Seller", "alice"),
            attr("NFT", "LINK"),
        ]
    );
    assert!(!store.list.has(&String::from("LINK")));
    let again = execute_buy(&mut store, &env_at(102, 3_000), &buyer, String::from("LINK"));
    assert_eq!(again, Err(ContractError::NotListed {}));
}

#[test]
fn buy_encodes_the_transfer_as_the_registry_reads_it() {
    let mut store = Store::new();
    done(sell(&mut store, "LINK", "alice", uusd(100), Expiration::AtHeight(90000))).unwrap();
    let buyer = info("bob", vec![uusd(100)]);
    let response =
        execute_buy(&mut store, &env_at(101, 2_000), &buyer, String::from("LINK")).unwrap();
    let expected = cosmwasm_std::to_binary(&cw721::Cw721ExecuteMsg::TransferNft {
        recipient: String::from("bob"),
        token_id: String::from("LINK"),
    })
    .unwrap();
    match &response.messages[1] {
        CosmosMsg::WasmExecute { msg, .. } => {
            assert_eq!(msg, &expected.0);
            let read: cw721::Cw721ExecuteMsg = cosmwasm_std::from_slice(msg).unwrap();
            assert_eq!(
                read,
                cw721::Cw721ExecuteMsg::TransferNft {
                    recipient: String::from("bob"),
                    token_id: String::from("LINK"),
                }
            );
        }
        other => panic!("not a call of the registry: {:?}", other),
    }
}

#[test]
fn buy_ignores_the_deadline_of_the_listing() {
    let mut store = Store::new();
    done(sell(&mut store, "LINK", "alice", uusd(100), Expiration::AtHeight(200))).unwrap();
    let buyer = info("bob", vec![uusd(100)]);
    let res = execute_buy(&mut store, &env_at(5_000, 9_000), &buyer, String::from("LINK"));
    assert!(res.is_ok());
    assert!(!store.list.has(&String::from("LINK")));
}

#[test]
fn buy_of_an_unlisted_asset_fails_not_listed() {
    let mut store = Store::new();
    let res = execute_buy(&mut store, &env_at(1, 1), &info("bob", vec![]), String::from("LINK"));
    assert_eq!(res, Err(ContractError::NotListed {}));
}

#[test]
fn buy_with_another_amount_is_an_invalid_amount() {
    let mut store = Store::new();
    done(sell(&mut store, "LINK", "alice", uusd(100), Expiration::AtHeight(90000))).unwrap();
    for amount in [0u128, 99, 101] {
        let buyer = info("bob", vec![uusd(amount)]);
        let res = execute_buy(&mut store, &env_at(101, 2_000), &buyer, String::from("LINK"));
        assert_eq!(res, Err(ContractError::InvalidAmount {}));
        assert!(store.list.has(&String::from("LINK")));
    }
}

#[test]
fn buy_in_another_denomination_is_refused() {
    let mut store = Store::new();
    done(sell(&mut store, "LINK", "alice", uusd(100), Expiration::AtHeight(90000))).unwrap();
    let buyer = info("bob", vec![Coin::new(100, String::from("uluna"))]);
    let res = execute_buy(&mut store, &env_at(101, 2_000), &buyer, String::from("LINK"));
    assert_eq!(res, Err(ContractError::InvalidDenomination {}));
    assert!(store.list.has(&String::from("LINK")));
}

#[test]
fn buy_looks_at_the_first_coin_only() {
    let mut store = Store::new();
    done(sell(&mut store, "LINK", "alice", uusd(100), Expiration::AtHeight(90000))).unwrap();
    let buyer = info("bob", vec![uusd(100), Coin::new(5, String::from("uluna"))]);
    let response =
        execute_buy(&mut store, &env_at(101, 2_000), &buyer, String::from("LINK")).unwrap();
    assert_eq!(
        response.messages[0],
        CosmosMsg::BankSend { to_address: String::from("alice"), amount: vec![uusd(100)] }
    );
}

#[test]
fn delist_of_an_unlisted_asset_fails_not_listed() {
    let mut store = Store::new();
    let step = execute_delist(
        &mut store,
        &env_at(1, 1),
        &info("alice", vec![]),
        String::from("LINK"),
        String::from(REGISTRY),
        RegistryAnswers::none(),
    );
    assert_eq!(step, Step::Done(Err(ContractError::NotListed {})));
}

#[test]
fn delist_asks_for_the_current_owner() {
    let mut store = Store::new();
    done(sell(&mut store, "LINK", "alice", uusd(100), Expiration::AtHeight(90000))).unwrap();
    let step = execute_delist(
        &mut store,
        &env_at(1, 1),
        &info("alice", vec![]),
        String::from("LINK"),
        String::from("elsewhere"),
        RegistryAnswers::none(),
    );
    assert_eq!(
        step,
        Step::QueryOwner {
            contract_address: String::from("elsewhere"),
            token_id: String::from("LINK"),
        }
    );
    assert!(store.list.has(&String::from("LINK")));
}

#[test]
fn delist_by_another_than_the_current_owner_is_unauthorized() {
    let mut store = Store::new();
    done(sell(&mut store, "LINK", "alice", uusd(100), Expiration::AtHeight(90000))).unwrap();
    let step = execute_delist(
        &mut store,
        &env_at(1, 1),
        &info("alice", vec![]),
        String::from("LINK"),
        String::from(REGISTRY),
        RegistryAnswers { owner: Some(Ok(String::from("carol"))), approvals: None },
    );
    assert_eq!(step, Step::Done(Err(ContractError::Unauthorized {})));
    assert!(store.list.has(&String::from("LINK")));
}

#[test]
fn delist_removes_the_listing_and_moves_no_funds() {
    let mut store = Store::new();
    done(sell(&mut store, "LINK", "alice", uusd(100), Expiration::AtHeight(90000))).unwrap();
    let response = done(execute_delist(
        &mut store,
        &env_at(1, 1),
        &info("alice", vec![]),
        String::from("LINK"),
        String::from(REGISTRY),
        RegistryAnswers { owner: Some(Ok(String::from("alice"))), approvals: None },
    ))
    .unwrap();
    assert_eq!(response.messages, vec![]);
    assert_eq!(response.attributes, vec![attr("Delisted", "LINK")]);
    assert!(!store.list.has(&String::from("LINK")));
}

#[test]
fn delist_and_buy_end_a_listing_for_both() {
    let mut store = Store::new();
    done(sell(&mut store, "LINK", "alice", uusd(100), Expiration::AtHeight(90000))).unwrap();
    done(sell(&mut store, "DOT", "alice", uusd(50), Expiration::AtHeight(90000))).unwrap();
    let alice = RegistryAnswers { owner: Some(Ok(String::from("alice"))), approvals: None };
    done(execute_delist(
        &mut store,
        &env_at(1, 1),
        &info("alice", vec![]),
        String::from("LINK"),
        String::from(REGISTRY),
        alice,
    ))
    .unwrap();
    execute_buy(&mut store, &env_at(1, 1), &info("bob", vec![uusd(50)]), String::from("DOT"))
        .unwrap();
    for token in ["LINK", "DOT"] {
        let res =
            execute_buy(&mut store, &env_at(1, 1), &info("bob", vec![uusd(100)]), String::from(token));
        assert_eq!(res, Err(ContractError::NotListed {}));
        let step = execute_delist(
            &mut store,
            &env_at(1, 1),
            &info("alice", vec![]),
            String::from(token),
            String::from(REGISTRY),
            RegistryAnswers { owner: Some(Ok(String::from("alice"))), approvals: None },
        );
        assert_eq!(step, Step::Done(Err(ContractError::NotListed {})));
    }
}

#[test]
fn a_delisted_asset_can_be_listed_again() {
    let mut store = Store::new();
    done(sell(&mut store, "LINK", "alice", uusd(100), Expiration::AtHeight(90000))).unwrap();
    done(execute_delist(
        &mut store,
        &env_at(1, 1),
        &info("alice", vec![]),
        String::from("LINK"),
        String::from(REGISTRY),
        RegistryAnswers { owner: Some(Ok(String::from("alice"))), approvals: None },
    ))
    .unwrap();
    let again = sell(&mut store, "LINK", "alice", uusd(120), Expiration::AtHeight(90000));
    assert!(done(again).is_ok());
    assert_eq!(store.list.may_load(&String::from("LINK")).unwrap().price, uusd(120));
}

#[test]
fn listings_of_different_assets_do_not_meet() {
    let mut store = Store::new();
    done(sell(&mut store, "LINK", "alice", uusd(100), Expiration::AtHeight(90000))).unwrap();
    done(sell(&mut store, "DOT", "dave", uusd(30), Expiration::Never {})).unwrap();
    execute_buy(&mut store, &env_at(1, 1), &info("bob", vec![uusd(100)]), String::from("LINK"))
        .unwrap();
    assert!(!store.list.has(&String::from("LINK")));
    assert_eq!(store.list.may_load(&String::from("DOT")).unwrap().owner, "dave");
}

#[test]
fn execute_runs_a_sale_from_listing_to_purchase() {
    let mut store = Store::new();
    let env = env_at(100, 1_000);
    let listing = ExecuteMsg::Sell {
        token_id: String::from("LINK"),
        contract_address: String::from(REGISTRY),
        price: uusd(100),
        expiration: Expiration::AtHeight(90000),
    };
    let alice = info("alice", vec![]);
    assert!(!reads_funds(&store, &env, &listing));
    let step = execute(&mut store, &env, &alice, listing.clone(), RegistryAnswers::none());
    assert!(matches!(step, Step::QueryOwner { .. }));
    let step = execute(
        &mut store,
        &env,
        &alice,
        listing.clone(),
        RegistryAnswers { owner: Some(Ok(String::from("alice"))), approvals: None },
    );
    assert!(matches!(step, Step::QueryApprovals { .. }));
    let step = execute(
        &mut store,
        &env,
        &alice,
        listing,
        answers("alice", approved_until(Expiration::AtHeight(90000))),
    );
    assert!(done(step).is_ok());

    let purchase = ExecuteMsg::Buy { token_id: String::from("LINK") };
    assert!(reads_funds(&store, &env, &purchase));
    let bob = info("bob", vec![uusd(100)]);
    let response =
        done(execute(&mut store, &env, &bob, purchase.clone(), RegistryAnswers::none())).unwrap();
    assert_eq!(response.messages.len(), 2);
    assert!(!reads_funds(&store, &env, &purchase));
    let again = execute(&mut store, &env, &info("bob", vec![]), purchase, RegistryAnswers::none());
    assert_eq!(again, Step::Done(Err(ContractError::NotListed {})));

    let withdrawal = ExecuteMsg::Delist {
        token_id: String::from("LINK"),
        contract_address: String::from(REGISTRY),
    };
    let step = execute(&mut store, &env, &alice, withdrawal, RegistryAnswers::none());
    assert_eq!(step, Step::Done(Err(ContractError::NotListed {})));
}
