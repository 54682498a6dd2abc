//! The marketplace's operations: fixed-price sales, auctions, and the
//! settlement that ends both.

use vstd::prelude::*;
use crate::error::{ContractError, RecordKind, UnderlyingError};
use crate::host::{
    an_encoding_of, approved_for_all_payload, bytes_view, coin_text, display_coin,
    display_expiration, encode_approved_for_all, encode_owner_of, encode_transfer_nft, encoding_of,
    expiration_text, owner_of_payload, transfer_nft_payload,
};
use crate::msg::{
    AuctionListingResponse, ExecuteMsg, ExecuteMsgView, HighestBidderResponse, InstantiateMsg,
    ListingResponse, QueryMsg, QueryMsgView, QueryResponse, QueryResponseView,
};
use crate::registry::{
    outcome_view, RegistryAnswers, RegistryAnswersView, Step, StepView, WasmQuery, WasmQueryView,
};
use crate::response::{CosmosMsg, CosmosMsgView, Response, ResponseView};
use crate::state::{AuctionNft, AuctionNftView, Bidder, BidderView, NFT, NftView, Store, StoreView};
use crate::types::{
    Approval, ApprovalView, Coin, CoinView, Env, EnvView, Expiration, MessageInfo, MessageInfoView,
};

verus! {

/// The one denomination in which prices, payments and bids are accepted.
pub open spec fn accepted_denom() -> Seq<char> {
    "uusd"@
}

/// Whether `denom` is the accepted denomination.
pub fn is_accepted_denom(denom: &String) -> (b: bool)
    ensures
        b == (denom@ == accepted_denom()),
{
    let accepted = "uusd".to_owned();
    *denom == accepted
}

/// Whether the owner that the registry reports is the caller.
pub fn verify_current_owner(owner: &String, expected_caller: &String) -> (b: bool)
    ensures
        b == (owner@ == expected_caller@),
{
    *owner == *expected_caller
}

/// Whether `approvals` holds a grant to `marketplace` whose expiry is exactly `expiration`.
pub open spec fn approved(
    approvals: Seq<ApprovalView>,
    marketplace: Seq<char>,
    expiration: Expiration,
) -> bool {
    approvals.contains(ApprovalView { spender: marketplace, expires: expiration })
}

/// Whether the registry's approvals let the marketplace transfer the asset:
/// one of them names the marketplace's address as spender and expires exactly
/// at `expiration`. An approval that lasts longer does not count.
pub fn verify_marketplace_approval(
    approvals: &Vec<Approval>,
    marketplace_address: &String,
    expiration: Expiration,
) -> (b: bool)
    ensures
        b == approved(approvals.deep_view(), marketplace_address@, expiration),
{
    let ghost wanted = ApprovalView { spender: marketplace_address@, expires: expiration };
    let mut i: usize = 0;
    while i < approvals.len()
        invariant
            i <= approvals@.len(),
            wanted == (ApprovalView { spender: marketplace_address@, expires: expiration }),
            forall|j: int| 0 <= j < i ==> approvals.deep_view()[j] != wanted,
        decreases approvals@.len() - i,
    {
        if approvals[i].spender == *marketplace_address && approvals[i].expires == expiration {
            assert(approvals.deep_view()[i as int] == wanted);
            return true;
        }
        i += 1;
    }
    false
}

/// The question to the contract at `contract_addr` whose encoding gave `encoded`.
pub open spec fn smart_query_of(
    contract_addr: Seq<char>,
    encoded: Result<Seq<u8>, cosmwasm_std::StdError>,
) -> Result<WasmQueryView, ContractError> {
    match encoded {
        Ok(msg) => Ok(WasmQueryView { contract_addr, msg }),
        Err(e) => Err(ContractError::passed_on(e)),
    }
}

/// A query's outcome, with the query taken by its view.
pub open spec fn query_view(q: Result<WasmQuery, ContractError>) -> Result<
    WasmQueryView,
    ContractError,
> {
    match q {
        Ok(q) => Ok(q@),
        Err(e) => Err(e),
    }
}

/// Addresses an encoded message to a contract; a failed encoding is passed on.
pub fn smart_query(contract_addr: String, encoded: Result<Vec<u8>, cosmwasm_std::StdError>) -> (q:
    Result<WasmQuery, ContractError>)
    ensures
        query_view(q) == smart_query_of(contract_addr@, bytes_view(encoded)),
{
    match encoded {
        Ok(msg) => Ok(WasmQuery { contract_addr, msg }),
        Err(e) => Err(ContractError::Std(UnderlyingError::Host(e))),
    }
}

/// The question that asks the registry at `contract_address` who owns `token_id`.
pub fn owner_query(token_id: String, contract_address: String) -> (q: Result<
    WasmQuery,
    ContractError,
>)
    ensures
        exists|encoded: Result<Seq<u8>, cosmwasm_std::StdError>|
            #[trigger] encoding_of(owner_of_payload(token_id@), encoded) && query_view(q)
                == smart_query_of(contract_address@, encoded),
{
    let encoded = encode_owner_of(token_id);
    assert(encoding_of(owner_of_payload(token_id@), bytes_view(encoded)));
    smart_query(contract_address, encoded)
}

/// The question that asks the registry at `contract_address` which approvals `owner` has granted.
pub fn approvals_query(contract_address: String, owner: String) -> (q: Result<
    WasmQuery,
    ContractError,
>)
    ensures
        exists|encoded: Result<Seq<u8>, cosmwasm_std::StdError>|
            #[trigger] encoding_of(approved_for_all_payload(owner@), encoded) && query_view(q)
                == smart_query_of(contract_address@, encoded),
{
    let encoded = encode_approved_for_all(owner);
    assert(encoding_of(approved_for_all_payload(owner@), bytes_view(encoded)));
    smart_query(contract_address, encoded)
}

/// The two effects of a settlement: first `payment` goes to `seller`, then the
/// registry at `contract_addr` receives the transfer message `payload`.
pub open spec fn settlement(
    seller: Seq<char>,
    payment: CoinView,
    contract_addr: Seq<char>,
    payload: Seq<u8>,
) -> ResponseView {
    ResponseView::empty().add_message(
        CosmosMsgView::BankSend { to_address: seller, amount: seq![payment] },
    ).add_message(
        CosmosMsgView::WasmExecute { contract_addr, msg: payload, funds: Seq::empty() },
    )
}

/// What `emit_settlement` returns where encoding the transfer gave `transfer`.
pub open spec fn settlement_of(
    seller: Seq<char>,
    payment: CoinView,
    contract_addr: Seq<char>,
    transfer: Result<Seq<u8>, cosmwasm_std::StdError>,
) -> Result<ResponseView, ContractError> {
    match transfer {
        Ok(payload) => Ok(settlement(seller, payment, contract_addr, payload)),
        Err(e) => Err(ContractError::passed_on(e)),
    }
}

/// Packages the payment to the seller and the transfer of the asset into one
/// response, payment first, so that the chain carries out both or neither. A
/// transfer message that could not be encoded refuses the whole settlement.
pub fn emit_settlement(
    seller: String,
    payment: Coin,
    contract_addr: String,
    transfer: Result<Vec<u8>, cosmwasm_std::StdError>,
) -> (res: Result<Response, ContractError>)
    ensures
        outcome_view(res) == settlement_of(seller@, payment@, contract_addr@, bytes_view(transfer)),
{
    match transfer {
        Ok(msg) => {
            let mut amount: Vec<Coin> = Vec::new();
            amount.push(payment);
            assert(amount.deep_view() =~= seq![payment@]);
            let funds: Vec<Coin> = Vec::new();
            assert(funds.deep_view() =~= Seq::<CoinView>::empty());
            let pay = CosmosMsg::BankSend { to_address: seller, amount };
            let hand_over = CosmosMsg::WasmExecute { contract_addr, msg, funds };
            Ok(Response::new().add_message(pay).add_message(hand_over))
        },
        Err(e) => Err(ContractError::Std(UnderlyingError::Host(e))),
    }
}

/// Why a purchase is refused before anything is settled, if it is.
pub open spec fn buy_refusal(
    store: StoreView,
    info: MessageInfoView,
    token_id: Seq<char>,
) -> Option<ContractError> {
    if !store.listings.contains_key(token_id) {
        Some(ContractError::NotListed {  })
    } else if info.funds[0].amount != store.listings[token_id].price.amount {
        Some(ContractError::InvalidAmount {  })
    } else if info.funds[0].denom != accepted_denom() {
        Some(ContractError::InvalidDenomination {  })
    } else {
        None
    }
}

/// The receipt of a settled sale or auction.
pub open spec fn sold_receipt(
    settled: ResponseView,
    buyer: Seq<char>,
    seller: Seq<char>,
    token_id: Seq<char>,
) -> ResponseView {
    settled.add_attribute("Action"@, "Buy"@).add_attribute("Buyer"@, buyer).add_attribute(
        "Seller"@,
        seller,
    ).add_attribute("NFT"@, token_id)
}

/// The outcome of a purchase where encoding the transfer gave `transfer`: the
/// first payment goes to the owner recorded in the listing, and the asset to
/// the caller. The listing's deadline plays no part.
pub open spec fn buy_outcome(
    store: StoreView,
    info: MessageInfoView,
    token_id: Seq<char>,
    transfer: Result<Seq<u8>, cosmwasm_std::StdError>,
) -> Result<ResponseView, ContractError> {
    match buy_refusal(store, info, token_id) {
        Some(e) => Err(e),
        None => {
            let nft = store.listings[token_id];
            match settlement_of(nft.owner, info.funds[0], nft.contract_address, transfer) {
                Ok(settled) => Ok(sold_receipt(settled, info.sender, nft.owner, token_id)),
                Err(e) => Err(e),
            }
        },
    }
}

/// The store after a purchase: without the listing where the purchase
/// succeeded, unchanged where it was refused.
pub open spec fn buy_store(
    store: StoreView,
    info: MessageInfoView,
    token_id: Seq<char>,
    transfer: Result<Seq<u8>, cosmwasm_std::StdError>,
) -> StoreView {
    if buy_outcome(store, info, token_id, transfer) is Ok {
        StoreView { listings: store.listings.remove(token_id), ..store }
    } else {
        store
    }
}

/// Whether a purchase has ended as `res`, leaving the store as `after`, for
/// what encoding the transfer gave.
pub open spec fn buy_ends(
    store: StoreView,
    info: MessageInfoView,
    token_id: Seq<char>,
    transfer: Result<Seq<u8>, cosmwasm_std::StdError>,
    res: Result<ResponseView, ContractError>,
    after: StoreView,
) -> bool {
    &&& encoding_of(transfer_nft_payload(info.sender, token_id), transfer)
    &&& res == buy_outcome(store, info, token_id, transfer)
    &&& after == buy_store(store, info, token_id, transfer)
}

/// Buys a listed asset with the first coin of the funds that came with the
/// request. The coin must be the listed amount, in the accepted denomination.
pub fn execute_buy(store: &mut Store, _env: &Env, info: &MessageInfo, token_id: String) -> (res:
    Result<Response, ContractError>)
    requires
        old(store)@.listings.contains_key(token_id@) ==> info.funds@.len() > 0,
    ensures
        exists|transfer: Result<Seq<u8>, cosmwasm_std::StdError>| #[trigger]
            buy_ends(
                old(store)@,
                info@,
                token_id@,
                transfer,
                outcome_view(res),
                final(store)@,
            ),
{
    let ghost before = store@;
    let ghost untried = an_encoding_of(transfer_nft_payload(info.sender@, token_id@));
    let (seller, registry) = match store.list.may_load(&token_id) {
        None => {
            assert(buy_ends(
                before, info@, token_id@, untried, Err(ContractError::NotListed {  }), before,
            ));
            return Err(ContractError::NotListed {  });
        },
        Some(nft) => {
            if info.funds[0].amount != nft.price.amount {
                assert(buy_ends(
                    before,
                    info@,
                    token_id@,
                    untried,
                    Err(ContractError::InvalidAmount {  }),
                    before,
                ));
                return Err(ContractError::InvalidAmount {  });
            }
            if !is_accepted_denom(&info.funds[0].denom) {
                assert(buy_ends(
                    before,
                    info@,
                    token_id@,
                    untried,
                    Err(ContractError::InvalidDenomination {  }),
                    before,
                ));
                return Err(ContractError::InvalidDenomination {  });
            }
            (nft.owner.clone(), nft.contract_address.clone())
        },
    };
    let transfer = encode_transfer_nft(info.sender.clone(), token_id.clone());
    let settled = emit_settlement(seller.clone(), info.funds[0].duplicate(), registry, transfer);
    match settled {
        Err(e) => {
            assert(buy_ends(before, info@, token_id@, bytes_view(transfer), Err(e), before));
            Err(e)
        },
        Ok(settled) => {
            store.list.remove(&token_id);
            let res = settled.add_attribute("Action", "Buy".to_owned()).add_attribute(
                "Buyer",
                info.sender.clone(),
            ).add_attribute("Seller", seller).add_attribute("NFT", token_id);
            assert(buy_ends(before, info@, token_id@, bytes_view(transfer), Ok(res@), store@));
            Ok(res)
        },
    }
}

/// How far a withdrawal of a listing gets with the registry's answers so far.
pub open spec fn delist_step(
    store: StoreView,
    info: MessageInfoView,
    token_id: Seq<char>,
    contract_address: Seq<char>,
    answers: RegistryAnswersView,
) -> StepView {
    if !store.listings.contains_key(token_id) {
        StepView::Done(Err(ContractError::NotListed {  }))
    } else {
        match answers.owner {
            None => StepView::QueryOwner { contract_address, token_id },
            Some(Err(e)) => StepView::Done(Err(e)),
            Some(Ok(owner)) => if info.sender != owner {
                StepView::Done(Err(ContractError::Unauthorized {  }))
            } else {
                StepView::Done(Ok(ResponseView::empty().add_attribute("Delisted"@, token_id)))
            },
        }
    }
}

/// The store after one run of a withdrawal.
pub open spec fn delist_store(
    store: StoreView,
    info: MessageInfoView,
    token_id: Seq<char>,
    contract_address: Seq<char>,
    answers: RegistryAnswersView,
) -> StoreView {
    if delist_step(store, info, token_id, contract_address, answers).succeeded() {
        StoreView { listings: store.listings.remove(token_id), ..store }
    } else {
        store
    }
}

/// Withdraws a fixed-price listing. Only the owner that the registry reports
/// now may do so; no funds move.
pub fn execute_delist(
    store: &mut Store,
    _env: &Env,
    info: &MessageInfo,
    token_id: String,
    contract_address: String,
    answers: RegistryAnswers,
) -> (step: Step)
    ensures
        step@ == delist_step(old(store)@, info@, token_id@, contract_address@, answers@),
        final(store)@ == delist_store(old(store)@, info@, token_id@, contract_address@, answers@),
{
    if !store.list.has(&token_id) {
        return Step::Done(Err(ContractError::NotListed {  }));
    }
    let owner = match answers.owner {
        None => {
            return Step::QueryOwner { contract_address, token_id };
        },
        Some(Err(e)) => {
            return Step::Done(Err(e));
        },
        Some(Ok(owner)) => owner,
    };
    if !verify_current_owner(&owner, &info.sender) {
        return Step::Done(Err(ContractError::Unauthorized {  }));
    }
    store.list.remove(&token_id);
    Step::Done(Ok(Response::new().add_attribute("Delisted", token_id)))
}

/// Why the terms of an offer are refused, if they are: the caller must be the
/// owner that the registry reports, the price must be above zero and in the
/// accepted denomination, and the deadline must not have been reached.
pub open spec fn terms_refusal(
    env: EnvView,
    info: MessageInfoView,
    owner: Seq<char>,
    price: CoinView,
    expiration: Expiration,
) -> Option<ContractError> {
    if info.sender != owner {
        Some(ContractError::Unauthorized {  })
    } else if price.amount == 0 {
        Some(ContractError::InvalidAmount {  })
    } else if price.denom != accepted_denom() {
        Some(ContractError::InvalidDenomination {  })
    } else if expiration.spec_is_expired(env.block) {
        Some(ContractError::Expired {  })
    } else {
        None
    }
}

/// The checks that a listing and an auction share.
pub fn check_terms(
    env: &Env,
    info: &MessageInfo,
    owner: &String,
    price: &Coin,
    expiration: Expiration,
) -> (res: Result<(), ContractError>)
    ensures
        res == match terms_refusal(env@, info@, owner@, price@, expiration) {
            Some(e) => Err::<(), ContractError>(e),
            None => Ok(()),
        },
{
    if !verify_current_owner(owner, &info.sender) {
        return Err(ContractError::Unauthorized {  });
    }
    if price.amount == 0 {
        return Err(ContractError::InvalidAmount {  });
    }
    if !is_accepted_denom(&price.denom) {
        return Err(ContractError::InvalidDenomination {  });
    }
    if expiration.is_expired(&env.block) {
        return Err(ContractError::Expired {  });
    }
    Ok(())
}

/// How far an offer gets with the registry's answers so far, where `taken`
/// says whether the asset already has a record of the kind being made and
/// `receipt` is the response of an accepted offer.
pub open spec fn offer_step(
    taken: bool,
    env: EnvView,
    info: MessageInfoView,
    token_id: Seq<char>,
    contract_address: Seq<char>,
    price: CoinView,
    expiration: Expiration,
    answers: RegistryAnswersView,
    receipt: ResponseView,
) -> StepView {
    if taken {
        StepView::Done(Err(ContractError::AlreadyListed {  }))
    } else {
        match answers.owner {
            None => StepView::QueryOwner { contract_address, token_id },
            Some(Err(e)) => StepView::Done(Err(e)),
            Some(Ok(owner)) => match terms_refusal(env, info, owner, price, expiration) {
                Some(e) => StepView::Done(Err(e)),
                None => match answers.approvals {
                    None => StepView::QueryApprovals { contract_address, owner },
                    Some(Err(e)) => StepView::Done(Err(e)),
                    Some(Ok(approvals)) => if approved(
                        approvals,
                        env.contract_address,
                        expiration,
                    ) {
                        StepView::Done(Ok(receipt))
                    } else {
                        StepView::Done(Err(ContractError::Unapproved {  }))
                    },
                },
            },
        }
    }
}

/// The receipt of an accepted offer, from the texts of its deadline and price.
pub open spec fn offer_receipt(
    action: Seq<char>,
    token_id: Seq<char>,
    expires: Seq<char>,
    price_key: Seq<char>,
    price: Seq<char>,
) -> ResponseView {
    ResponseView::empty().add_attribute("action"@, action).add_attribute(
        "ID"@,
        token_id,
    ).add_attribute("expires"@, expires).add_attribute(price_key, price)
}

/// Writes the receipt of an accepted offer.
pub fn write_receipt(
    action: &str,
    token_id: String,
    expires: String,
    price_key: &str,
    price: String,
) -> (r: Response)
    ensures
        r@ == offer_receipt(action@, token_id@, expires@, price_key@, price@),
{
    Response::new().add_attribute("action", action.to_owned()).add_attribute(
        "ID",
        token_id,
    ).add_attribute("expires", expires).add_attribute(price_key, price)
}

/// The owner under whom an accepted offer is recorded: the one that the
/// registry reported.
pub open spec fn reported_owner(answers: RegistryAnswersView) -> Seq<char> {
    answers.owner->0->Ok_0
}

/// Either the owner under whom the offer is to be recorded, all checks
/// passed, or the step at which this run of the offer ends.
fn check_offer(
    taken: bool,
    env: &Env,
    info: &MessageInfo,
    token_id: &String,
    contract_address: &String,
    price: &Coin,
    expiration: Expiration,
    answers: RegistryAnswers,
) -> (res: Result<String, Step>)
    ensures
        match res {
            Ok(owner) => {
                &&& owner@ == reported_owner(answers@)
                &&& forall|receipt: ResponseView| #[trigger]
                    offer_step(
                        taken,
                        env@,
                        info@,
                        token_id@,
                        contract_address@,
                        price@,
                        expiration,
                        answers@,
                        receipt,
                    ) == StepView::Done(Ok(receipt))
            },
            Err(step) => {
                &&& !step@.succeeded()
                &&& forall|receipt: ResponseView| #[trigger]
                    offer_step(
                        taken,
                        env@,
                        info@,
                        token_id@,
                        contract_address@,
                        price@,
                        expiration,
                        answers@,
                        receipt,
                    ) == step@
            },
        },
{
    if taken {
        return Err(Step::Done(Err(ContractError::AlreadyListed {  })));
    }
    let owner = match answers.owner {
        None => {
            return Err(
                Step::QueryOwner {
                    contract_address: contract_address.clone(),
                    token_id: token_id.clone(),
                },
            );
        },
        Some(Err(e)) => {
            return Err(Step::Done(Err(e)));
        },
        Some(Ok(owner)) => owner,
    };
    match check_terms(env, info, &owner, price, expiration) {
        Err(e) => {
            return Err(Step::Done(Err(e)));
        },
        Ok(()) => {},
    }
    let approvals = match answers.approvals {
        None => {
            return Err(Step::QueryApprovals { contract_address: contract_address.clone(), owner });
        },
        Some(Err(e)) => {
            return Err(Step::Done(Err(e)));
        },
        Some(Ok(approvals)) => approvals,
    };
    if !verify_marketplace_approval(&approvals, &env.contract.address, expiration) {
        return Err(Step::Done(Err(ContractError::Unapproved {  })));
    }
    Ok(owner)
}

/// How far a listing gets with the registry's answers so far.
pub open spec fn sell_step(
    store: StoreView,
    env: EnvView,
    info: MessageInfoView,
    token_id: Seq<char>,
    contract_address: Seq<char>,
    price: CoinView,
    expiration: Expiration,
    answers: RegistryAnswersView,
) -> StepView {
    offer_step(
        store.listings.contains_key(token_id),
        env,
        info,
        token_id,
        contract_address,
        price,
        expiration,
        answers,
        offer_receipt(
            "list"@,
            token_id,
            expiration_text(expiration),
            "price"@,
            coin_text(price.amount, price.denom),
        ),
    )
}

/// The store after one run of a listing: with the new listing where the run
/// ended in success, unchanged otherwise.
pub open spec fn sell_store(
    store: StoreView,
    env: EnvView,
    info: MessageInfoView,
    token_id: Seq<char>,
    contract_address: Seq<char>,
    price: CoinView,
    expiration: Expiration,
    answers: RegistryAnswersView,
) -> StoreView {
    if sell_step(
        store,
        env,
        info,
        token_id,
        contract_address,
        price,
        expiration,
        answers,
    ).succeeded() {
        StoreView {
            listings: store.listings.insert(
                token_id,
                NftView {
                    token_id,
                    owner: reported_owner(answers),
                    contract_address,
                    price,
                    expiration,
                },
            ),
            ..store
        }
    } else {
        store
    }
}

/// Offers an asset at a fixed price. The asset must not be listed already,
/// the caller must be its owner at the registry, the terms must be valid, and
/// the owner must have granted the marketplace an approval that expires
/// exactly at the listing's deadline.
pub fn execute_sell(
    store: &mut Store,
    env: &Env,
    info: &MessageInfo,
    token_id: String,
    contract_address: String,
    price: Coin,
    expiration: Expiration,
    answers: RegistryAnswers,
) -> (step: Step)
    ensures
        step@ == sell_step(
            old(store)@,
            env@,
            info@,
            token_id@,
            contract_address@,
            price@,
            expiration,
            answers@,
        ),
        final(store)@ == sell_store(
            old(store)@,
            env@,
            info@,
            token_id@,
            contract_address@,
            price@,
            expiration,
            answers@,
        ),
{
    let taken = store.list.has(&token_id);
    match check_offer(
        taken,
        env,
        info,
        &token_id,
        &contract_address,
        &price,
        expiration,
        answers,
    ) {
        Err(step) => step,
        Ok(owner) => {
            let receipt = write_receipt(
                "list",
                token_id.clone(),
                display_expiration(expiration),
                "price",
                display_coin(&price),
            );
            let nft = NFT {
                token_id: token_id.clone(),
                owner,
                contract_address,
                price,
                expiration,
            };
            store.list.save(token_id, nft);
            Step::Done(Ok(receipt))
        },
    }
}

/// How far the opening of an auction gets with the registry's answers so far.
pub open spec fn auction_step(
    store: StoreView,
    env: EnvView,
    info: MessageInfoView,
    token_id: Seq<char>,
    contract_address: Seq<char>,
    starting_price: CoinView,
    expiration: Expiration,
    answers: RegistryAnswersView,
) -> StepView {
    offer_step(
        store.auctions.contains_key(token_id),
        env,
        info,
        token_id,
        contract_address,
        starting_price,
        expiration,
        answers,
        offer_receipt(
            "auction"@,
            token_id,
            expiration_text(expiration),
            "starting_price"@,
            coin_text(starting_price.amount, starting_price.denom),
        ),
    )
}

/// The store after one run of the opening of an auction: with the new
/// auction, and no bid made for it, where the run ended in success;
/// unchanged otherwise.
pub open spec fn auction_store(
    store: StoreView,
    env: EnvView,
    info: MessageInfoView,
    token_id: Seq<char>,
    contract_address: Seq<char>,
    starting_price: CoinView,
    expiration: Expiration,
    answers: RegistryAnswersView,
) -> StoreView {
    if auction_step(
        store,
        env,
        info,
        token_id,
        contract_address,
        starting_price,
        expiration,
        answers,
    ).succeeded() {
        StoreView {
            auctions: store.auctions.insert(
                token_id,
                AuctionNftView {
                    token_id,
                    owner: reported_owner(answers),
                    contract_address,
                    starting_price,
                    expiration,
                },
            ),
            ..store
        }
    } else {
        store
    }
}

/// Puts an asset up for auction, under the same checks as a listing. No bid
/// is recorded for the new auction.
pub fn execute_auction(
    store: &mut Store,
    env: &Env,
    info: &MessageInfo,
    token_id: String,
    contract_address: String,
    starting_price: Coin,
    expiration: Expiration,
    answers: RegistryAnswers,
) -> (step: Step)
    ensures
        step@ == auction_step(
            old(store)@,
            env@,
            info@,
            token_id@,
            contract_address@,
            starting_price@,
            expiration,
            answers@,
        ),
        final(store)@ == auction_store(
            old(store)@,
            env@,
            info@,
            token_id@,
            contract_address@,
            starting_price@,
            expiration,
            answers@,
        ),
{
    let taken = store.auction_list.has(&token_id);
    match check_offer(
        taken,
        env,
        info,
        &token_id,
        &contract_address,
        &starting_price,
        expiration,
        answers,
    ) {
        Err(step) => step,
        Ok(owner) => {
            let receipt = write_receipt(
                "auction",
                token_id.clone(),
                display_expiration(expiration),
                "starting_price",
                display_coin(&starting_price),
            );
            let auction = AuctionNft {
                token_id: token_id.clone(),
                owner,
                contract_address,
                starting_price,
                expiration,
            };
            store.auction_list.save(token_id, auction);
            Step::Done(Ok(receipt))
        },
    }
}

/// Whether a bid gets as far as looking at the funds that came with it: the
/// asset is in an auction whose deadline has not been reached.
pub open spec fn bid_reads_funds(store: StoreView, env: EnvView, token_id: Seq<char>) -> bool {
    store.auctions.contains_key(token_id) && !store.auctions[token_id].expiration.spec_is_expired(
        env.block,
    )
}

/// The outcome of a bid. A bid is accepted only where the auction already
/// has a highest bid and the new one exceeds it: the first bid on a newly
/// opened auction finds no record to exceed and is refused.
pub open spec fn bid_outcome(
    store: StoreView,
    env: EnvView,
    info: MessageInfoView,
    token_id: Seq<char>,
) -> Result<ResponseView, ContractError> {
    if !store.auctions.contains_key(token_id) {
        Err(ContractError::NotListed {  })
    } else if store.auctions[token_id].expiration.spec_is_expired(env.block) {
        Err(ContractError::Expired {  })
    } else if info.funds[0].amount == 0 {
        Err(ContractError::InvalidAmount {  })
    } else if info.funds[0].denom != accepted_denom() {
        Err(ContractError::InvalidDenomination {  })
    } else if !store.bids.contains_key(token_id) {
        Err(ContractError::missing(RecordKind::HighestBid))
    } else if info.funds[0].amount <= store.bids[token_id].bid.amount {
        Err(ContractError::UnsurpassedHighestBid {  })
    } else {
        Ok(
            ResponseView::empty().add_attribute("Action"@, "Bid"@).add_attribute(
                "Bidder"@,
                info.sender,
            ).add_attribute("Seller"@, store.auctions[token_id].owner).add_attribute(
                "NFT"@,
                token_id,
            ),
        )
    }
}

/// The store after a bid: the caller's bid in place of the highest bid where
/// the bid was accepted, unchanged where it was refused. Nothing is returned
/// to the bidder whose bid is replaced.
pub open spec fn bid_store(
    store: StoreView,
    env: EnvView,
    info: MessageInfoView,
    token_id: Seq<char>,
) -> StoreView {
    if bid_outcome(store, env, info, token_id) is Ok {
        StoreView {
            bids: store.bids.insert(
                token_id,
                BidderView { address: info.sender, bid: info.funds[0] },
            ),
            ..store
        }
    } else {
        store
    }
}

/// Bids on an auction with the first coin of the funds that came with the request.
pub fn execute_bid(store: &mut Store, env: &Env, info: &MessageInfo, token_id: String) -> (res:
    Result<Response, ContractError>)
    requires
        bid_reads_funds(old(store)@, env@, token_id@) ==> info.funds@.len() > 0,
    ensures
        outcome_view(res) == bid_outcome(old(store)@, env@, info@, token_id@),
        final(store)@ == bid_store(old(store)@, env@, info@, token_id@),
{
    let seller = match store.auction_list.may_load(&token_id) {
        None => {
            return Err(ContractError::NotListed {  });
        },
        Some(auction) => {
            if auction.expiration.is_expired(&env.block) {
                return Err(ContractError::Expired {  });
            }
            auction.owner.clone()
        },
    };
    if info.funds[0].amount == 0 {
        return Err(ContractError::InvalidAmount {  });
    }
    if !is_accepted_denom(&info.funds[0].denom) {
        return Err(ContractError::InvalidDenomination {  });
    }
    match store.highest_bidder.may_load(&token_id) {
        None => {
            return Err(
                ContractError::Std(UnderlyingError::NotFound { kind: RecordKind::HighestBid }),
            );
        },
        Some(highest) => {
            if info.funds[0].amount <= highest.bid.amount {
                return Err(ContractError::UnsurpassedHighestBid {  });
            }
        },
    }
    let new_highest_bidder = Bidder {
        address: info.sender.clone(),
        bid: info.funds[0].duplicate(),
    };
    store.highest_bidder.remove(&token_id);
    store.highest_bidder.save(token_id.clone(), new_highest_bidder);
    assert(store@.bids =~= old(store)@.bids.insert(
        token_id@,
        BidderView { address: info@.sender, bid: info@.funds[0] },
    ));
    Ok(
        Response::new().add_attribute("Action", "Bid".to_owned()).add_attribute(
            "Bidder",
            info.sender.clone(),
        ).add_attribute("Seller", seller).add_attribute("NFT", token_id),
    )
}

/// Why a claim is refused before anything is settled, if it is. An auction on
/// which nobody has bid cannot be claimed: the claim finds no highest bid.
pub open spec fn claim_refusal(
    store: StoreView,
    env: EnvView,
    token_id: Seq<char>,
) -> Option<ContractError> {
    if !store.auctions.contains_key(token_id) {
        Some(ContractError::missing(RecordKind::Auction))
    } else if !store.auctions[token_id].expiration.spec_is_expired(env.block) {
        Some(ContractError::OngoingAuction {  })
    } else if !store.bids.contains_key(token_id) {
        Some(ContractError::missing(RecordKind::HighestBid))
    } else {
        None
    }
}

/// The outcome of a claim where encoding the transfer gave `transfer`: the
/// highest bid goes to the owner recorded in the auction, and the asset to
/// the highest bidder, whoever makes the claim.
pub open spec fn claim_outcome(
    store: StoreView,
    env: EnvView,
    info: MessageInfoView,
    token_id: Seq<char>,
    transfer: Result<Seq<u8>, cosmwasm_std::StdError>,
) -> Result<ResponseView, ContractError> {
    match claim_refusal(store, env, token_id) {
        Some(e) => Err(e),
        None => {
            let auction = store.auctions[token_id];
            let highest = store.bids[token_id];
            match settlement_of(auction.owner, highest.bid, auction.contract_address, transfer) {
                Ok(settled) => Ok(sold_receipt(settled, info.sender, auction.owner, token_id)),
                Err(e) => Err(e),
            }
        },
    }
}

/// The store after a claim: without the auction and its highest bid where
/// the claim succeeded, unchanged where it was refused.
pub open spec fn claim_store(
    store: StoreView,
    env: EnvView,
    info: MessageInfoView,
    token_id: Seq<char>,
    transfer: Result<Seq<u8>, cosmwasm_std::StdError>,
) -> StoreView {
    if claim_outcome(store, env, info, token_id, transfer) is Ok {
        StoreView {
            auctions: store.auctions.remove(token_id),
            bids: store.bids.remove(token_id),
            ..store
        }
    } else {
        store
    }
}

/// The payload of the transfer that a claim of this asset would encode: to
/// the highest bidder.
pub open spec fn claim_payload(store: StoreView, token_id: Seq<char>) -> Option<Seq<u8>> {
    transfer_nft_payload(store.bids[token_id].address, token_id)
}

/// Whether a claim has ended as `res`, leaving the store as `after`, for what
/// encoding the transfer gave.
pub open spec fn claim_ends(
    store: StoreView,
    env: EnvView,
    info: MessageInfoView,
    token_id: Seq<char>,
    transfer: Result<Seq<u8>, cosmwasm_std::StdError>,
    res: Result<ResponseView, ContractError>,
    after: StoreView,
) -> bool {
    &&& encoding_of(claim_payload(store, token_id), transfer)
    &&& res == claim_outcome(store, env, info, token_id, transfer)
    &&& after == claim_store(store, env, info, token_id, transfer)
}

/// Settles an auction whose deadline has been reached. Anyone may claim.
pub fn execute_claim(store: &mut Store, env: &Env, info: &MessageInfo, token_id: String) -> (res:
    Result<Response, ContractError>)
    ensures
        exists|transfer: Result<Seq<u8>, cosmwasm_std::StdError>| #[trigger]
            claim_ends(
                old(store)@,
                env@,
                info@,
                token_id@,
                transfer,
                outcome_view(res),
                final(store)@,
            ),
{
    let ghost before = store@;
    let ghost untried = an_encoding_of(claim_payload(before, token_id@));
    let (seller, registry) = match store.auction_list.may_load(&token_id) {
        None => {
            let e = ContractError::Std(UnderlyingError::NotFound { kind: RecordKind::Auction });
            assert(claim_ends(before, env@, info@, token_id@, untried, Err(e), before));
            return Err(e);
        },
        Some(auction) => {
            if !auction.expiration.is_expired(&env.block) {
                assert(claim_ends(
                    before,
                    env@,
                    info@,
                    token_id@,
                    untried,
                    Err(ContractError::OngoingAuction {  }),
                    before,
                ));
                return Err(ContractError::OngoingAuction {  });
            }
            (auction.owner.clone(), auction.contract_address.clone())
        },
    };
    let (winner, amount) = match store.highest_bidder.may_load(&token_id) {
        None => {
            let e = ContractError::Std(UnderlyingError::NotFound { kind: RecordKind::HighestBid });
            assert(claim_ends(before, env@, info@, token_id@, untried, Err(e), before));
            return Err(e);
        },
        Some(highest) => (highest.address.clone(), highest.bid.duplicate()),
    };
    let transfer = encode_transfer_nft(winner, token_id.clone());
    let settled = emit_settlement(seller.clone(), amount, registry, transfer);
    match settled {
        Err(e) => {
            assert(claim_ends(
                before, env@, info@, token_id@, bytes_view(transfer), Err(e), before,
            ));
            Err(e)
        },
        Ok(settled) => {
            store.auction_list.remove(&token_id);
            store.highest_bidder.remove(&token_id);
            let res = settled.add_attribute("Action", "Buy".to_owned()).add_attribute(
                "Buyer",
                info.sender.clone(),
            ).add_attribute("Seller", seller).add_attribute("NFT", token_id);
            assert(claim_ends(
                before, env@, info@, token_id@, bytes_view(transfer), Ok(res@), store@,
            ));
            Ok(res)
        },
    }
}

/// Sets the marketplace up: a store with no record, and a response with no
/// effect.
pub fn instantiate(_env: &Env, _info: &MessageInfo, _msg: InstantiateMsg) -> (res: (
    Store,
    Response,
))
    ensures
        res.0@ == StoreView::empty(),
        res.1@ == ResponseView::empty(),
{
    (Store::new(), Response::default())
}

/// Whether a request gets as far as looking at the funds that came with it.
/// Such a request must come with at least one coin.
pub open spec fn execute_reads_funds(store: StoreView, env: EnvView, msg: ExecuteMsgView) -> bool {
    match msg {
        ExecuteMsgView::Buy { token_id } => store.listings.contains_key(token_id),
        ExecuteMsgView::Bid { token_id } => bid_reads_funds(store, env, token_id),
        _ => false,
    }
}

/// Whether `execute` would look at the funds that came with this request.
pub fn reads_funds(store: &Store, env: &Env, msg: &ExecuteMsg) -> (b: bool)
    ensures
        b == execute_reads_funds(store@, env@, msg@),
{
    match msg {
        ExecuteMsg::Buy { token_id } => store.list.has(token_id),
        ExecuteMsg::Bid { token_id } => match store.auction_list.may_load(token_id) {
            Some(auction) => !auction.expiration.is_expired(&env.block),
            None => false,
        },
        _ => false,
    }
}

/// Whether one run of a request has ended as `step`, leaving the store as
/// `after`, for what encoding the transfer gave where the request settles a
/// sale or an auction.
pub open spec fn execute_ends(
    store: StoreView,
    env: EnvView,
    info: MessageInfoView,
    msg: ExecuteMsgView,
    answers: RegistryAnswersView,
    transfer: Result<Seq<u8>, cosmwasm_std::StdError>,
    step: StepView,
    after: StoreView,
) -> bool {
    match msg {
        ExecuteMsgView::Sell { token_id, contract_address, price, expiration } => {
            &&& step == sell_step(
                store,
                env,
                info,
                token_id,
                contract_address,
                price,
                expiration,
                answers,
            )
            &&& after == sell_store(
                store,
                env,
                info,
                token_id,
                contract_address,
                price,
                expiration,
                answers,
            )
        },
        ExecuteMsgView::Buy { token_id } => {
            &&& step matches StepView::Done(res)
            &&& buy_ends(store, info, token_id, transfer, res, after)
        },
        ExecuteMsgView::Delist { token_id, contract_address } => {
            &&& step == delist_step(store, info, token_id, contract_address, answers)
            &&& after == delist_store(store, info, token_id, contract_address, answers)
        },
        ExecuteMsgView::Auction { token_id, contract_address, starting_price, expiration } => {
            &&& step == auction_step(
                store,
                env,
                info,
                token_id,
                contract_address,
                starting_price,
                expiration,
                answers,
            )
            &&& after == auction_store(
                store,
                env,
                info,
                token_id,
                contract_address,
                starting_price,
                expiration,
                answers,
            )
        },
        ExecuteMsgView::Bid { token_id } => {
            &&& step == StepView::Done(bid_outcome(store, env, info, token_id))
            &&& after == bid_store(store, env, info, token_id)
        },
        ExecuteMsgView::Claim { token_id } => {
            &&& step matches StepView::Done(res)
            &&& claim_ends(store, env, info, token_id, transfer, res, after)
        },
    }
}

/// Runs a request as far as the registry's answers so far allow.
pub fn execute(
    store: &mut Store,
    env: &Env,
    info: &MessageInfo,
    msg: ExecuteMsg,
    answers: RegistryAnswers,
) -> (step: Step)
    requires
        execute_reads_funds(old(store)@, env@, msg@) ==> info.funds@.len() > 0,
    ensures
        exists|transfer: Result<Seq<u8>, cosmwasm_std::StdError>| #[trigger]
            execute_ends(
                old(store)@,
                env@,
                info@,
                msg@,
                answers@,
                transfer,
                step@,
                final(store)@,
            ),
{
    let ghost before = store@;
    let ghost none = an_encoding_of(None);
    match msg {
        ExecuteMsg::Sell { token_id, contract_address, price, expiration } => {
            let step = execute_sell(
                store,
                env,
                info,
                token_id,
                contract_address,
                price,
                expiration,
                answers,
            );
            assert(execute_ends(before, env@, info@, msg@, answers@, none, step@, store@));
            step
        },
        ExecuteMsg::Buy { token_id } => {
            let res = execute_buy(store, env, info, token_id);
            let ghost transfer = choose|transfer: Result<Seq<u8>, cosmwasm_std::StdError>|
                #[trigger] buy_ends(before, info@, token_id@, transfer, outcome_view(res), store@);
            let step = Step::Done(res);
            assert(execute_ends(before, env@, info@, msg@, answers@, transfer, step@, store@));
            step
        },
        ExecuteMsg::Delist { token_id, contract_address } => {
            let step = execute_delist(store, env, info, token_id, contract_address, answers);
            assert(execute_ends(before, env@, info@, msg@, answers@, none, step@, store@));
            step
        },
        ExecuteMsg::Auction { token_id, contract_address, starting_price, expiration } => {
            let step = execute_auction(
                store,
                env,
                info,
                token_id,
                contract_address,
                starting_price,
                expiration,
                answers,
            );
            assert(execute_ends(before, env@, info@, msg@, answers@, none, step@, store@));
            step
        },
        ExecuteMsg::Bid { token_id } => {
            let step = Step::Done(execute_bid(store, env, info, token_id));
            assert(execute_ends(before, env@, info@, msg@, answers@, none, step@, store@));
            step
        },
        ExecuteMsg::Claim { token_id } => {
            let res = execute_claim(store, env, info, token_id);
            let ghost transfer = choose|transfer: Result<Seq<u8>, cosmwasm_std::StdError>|
                #[trigger] claim_ends(
                    before,
                    env@,
                    info@,
                    token_id@,
                    transfer,
                    outcome_view(res),
                    store@,
                );
            let step = Step::Done(res);
            assert(execute_ends(before, env@, info@, msg@, answers@, transfer, step@, store@));
            step
        },
    }
}

/// The listing of an asset, or that there is none.
pub fn query_listing(store: &Store, token_id: String) -> (res: Result<
    ListingResponse,
    UnderlyingError,
>)
    ensures
        match res {
            Ok(found) => store@.listings.contains_key(token_id@) && found.nft@
                == store@.listings[token_id@],
            Err(e) => !store@.listings.contains_key(token_id@) && e == (UnderlyingError::NotFound {
                kind: RecordKind::Listing,
            }),
        },
{
    match store.list.may_load(&token_id) {
        Some(nft) => Ok(ListingResponse { nft: nft.duplicate() }),
        None => Err(UnderlyingError::NotFound { kind: RecordKind::Listing }),
    }
}

/// The auction of an asset, or that there is none.
pub fn query_auction_listing(store: &Store, token_id: String) -> (res: Result<
    AuctionListingResponse,
    UnderlyingError,
>)
    ensures
        match res {
            Ok(found) => store@.auctions.contains_key(token_id@) && found.auction_nft@
                == store@.auctions[token_id@],
            Err(e) => !store@.auctions.contains_key(token_id@) && e == (UnderlyingError::NotFound {
                kind: RecordKind::Auction,
            }),
        },
{
    match store.auction_list.may_load(&token_id) {
        Some(auction) => Ok(AuctionListingResponse { auction_nft: auction.duplicate() }),
        None => Err(UnderlyingError::NotFound { kind: RecordKind::Auction }),
    }
}

/// The highest bid on an asset's auction, or that there is none.
pub fn query_highest_bidder(store: &Store, token_id: String) -> (res: Result<
    HighestBidderResponse,
    UnderlyingError,
>)
    ensures
        match res {
            Ok(found) => store@.bids.contains_key(token_id@) && found.bidder@
                == store@.bids[token_id@],
            Err(e) => !store@.bids.contains_key(token_id@) && e == (UnderlyingError::NotFound {
                kind: RecordKind::HighestBid,
            }),
        },
{
    match store.highest_bidder.may_load(&token_id) {
        Some(highest) => Ok(HighestBidderResponse { bidder: highest.duplicate() }),
        None => Err(UnderlyingError::NotFound { kind: RecordKind::HighestBid }),
    }
}

/// The answer to a query: the record asked for, or that the store holds none.
pub open spec fn query_outcome(store: StoreView, msg: QueryMsgView) -> Result<
    QueryResponseView,
    UnderlyingError,
> {
    match msg {
        QueryMsgView::GetListing { token_id } => if store.listings.contains_key(token_id) {
            Ok(QueryResponseView::Listing(store.listings[token_id]))
        } else {
            Err(UnderlyingError::NotFound { kind: RecordKind::Listing })
        },
        QueryMsgView::GetAuctionListing { token_id } => if store.auctions.contains_key(token_id) {
            Ok(QueryResponseView::AuctionListing(store.auctions[token_id]))
        } else {
            Err(UnderlyingError::NotFound { kind: RecordKind::Auction })
        },
        QueryMsgView::GetHighestBidder { token_id } => if store.bids.contains_key(token_id) {
            Ok(QueryResponseView::HighestBidder(store.bids[token_id]))
        } else {
            Err(UnderlyingError::NotFound { kind: RecordKind::HighestBid })
        },
    }
}

/// A query's answer, with the record taken by its view.
pub open spec fn answer_view(res: Result<QueryResponse, UnderlyingError>) -> Result<
    QueryResponseView,
    UnderlyingError,
> {
    match res {
        Ok(found) => Ok(found@),
        Err(e) => Err(e),
    }
}

/// Answers a query. The store is only read.
pub fn query(store: &Store, _env: &Env, msg: QueryMsg) -> (res: Result<
    QueryResponse,
    UnderlyingError,
>)
    ensures
        answer_view(res) == query_outcome(store@, msg@),
{
    match msg {
        QueryMsg::GetListing { token_id } => match query_listing(store, token_id) {
            Ok(found) => Ok(QueryResponse::Listing(found)),
            Err(e) => Err(e),
        },
        QueryMsg::GetAuctionListing { token_id } => match query_auction_listing(store, token_id) {
            Ok(found) => Ok(QueryResponse::AuctionListing(found)),
            Err(e) => Err(e),
        },
        QueryMsg::GetHighestBidder { token_id } => match query_highest_bidder(store, token_id) {
            Ok(found) => Ok(QueryResponse::HighestBidder(found)),
            Err(e) => Err(e),
        },
    }
}

} // verus!
