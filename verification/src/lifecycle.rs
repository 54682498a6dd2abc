//! What holds of the operations across calls, proved from their definitions.
//!
//! Each statement is over the functions that the operations' contracts are
//! written in: what a run returns (`*_step`, `*_outcome`) and the store it
//! leaves (`*_store`).

use vstd::prelude::*;
use crate::contract::{
    accepted_denom, auction_step, auction_store, bid_outcome, bid_reads_funds, bid_store,
    buy_outcome, buy_store, claim_outcome, claim_store, delist_step, delist_store, reported_owner,
    sell_step, sell_store,
};
use crate::error::{ContractError, RecordKind};
use crate::registry::{RegistryAnswersView, StepView};
use crate::response::{CosmosMsgView, ResponseView};
use crate::state::StoreView;
use crate::types::{CoinView, EnvView, Expiration, MessageInfoView};

verus! {

/// Whether a coin can be a price or a bid: its amount is above zero and it is
/// in the accepted denomination.
pub open spec fn acceptable(coin: CoinView) -> bool {
    coin.amount > 0 && coin.denom == accepted_denom()
}

/// Whether every listing and every auction in the store has an acceptable price.
pub open spec fn well_priced(store: StoreView) -> bool {
    &&& forall|id: Seq<char>| #[trigger]
        store.listings.contains_key(id) ==> acceptable(store.listings[id].price)
    &&& forall|id: Seq<char>| #[trigger]
        store.auctions.contains_key(id) ==> acceptable(store.auctions[id].starting_price)
}

/// An asset that has just been listed is bought by the first payment of
/// exactly the listed coin, provided the transfer to the buyer can be encoded;
/// the payment goes to the owner under whom it was listed. After that the
/// listing is gone, and any further purchase is refused as not listed.
pub proof fn lemma_listed_asset_sells_once(
    store: StoreView,
    env: EnvView,
    seller: MessageInfoView,
    token_id: Seq<char>,
    contract_address: Seq<char>,
    price: CoinView,
    expiration: Expiration,
    answers: RegistryAnswersView,
    buyer: MessageInfoView,
    transfer: Result<Seq<u8>, cosmwasm_std::StdError>,
    later_buyer: MessageInfoView,
    later_transfer: Result<Seq<u8>, cosmwasm_std::StdError>,
)
    requires
        sell_step(
            store,
            env,
            seller,
            token_id,
            contract_address,
            price,
            expiration,
            answers,
        ).succeeded(),
        buyer.funds.len() > 0,
        buyer.funds[0] == price,
    ensures
        ({
            let listed = sell_store(
                store,
                env,
                seller,
                token_id,
                contract_address,
                price,
                expiration,
                answers,
            );
            let sold = buy_store(listed, buyer, token_id, transfer);
            &&& buy_outcome(listed, buyer, token_id, transfer) is Ok <==> transfer is Ok
            &&& transfer is Ok ==> buy_outcome(listed, buyer, token_id, transfer)->Ok_0.messages
                == seq![
                CosmosMsgView::BankSend {
                    to_address: reported_owner(answers),
                    amount: seq![price],
                },
                CosmosMsgView::WasmExecute {
                    contract_addr: contract_address,
                    msg: transfer->Ok_0,
                    funds: Seq::empty(),
                },
            ]
            &&& transfer is Ok ==> !sold.listings.contains_key(token_id) && buy_outcome(
                sold,
                later_buyer,
                token_id,
                later_transfer,
            ) == Err::<ResponseView, ContractError>(ContractError::NotListed {  })
            &&& transfer is Err ==> sold == listed
        }),
{
}

/// While an asset is listed, listing it again is refused as already listed,
/// whoever asks, on whatever terms and whatever the registry answers.
pub proof fn lemma_listed_asset_not_listed_again(
    store: StoreView,
    env: EnvView,
    info: MessageInfoView,
    token_id: Seq<char>,
    contract_address: Seq<char>,
    price: CoinView,
    expiration: Expiration,
    answers: RegistryAnswersView,
)
    requires
        store.listings.contains_key(token_id),
    ensures
        sell_step(store, env, info, token_id, contract_address, price, expiration, answers)
            == StepView::Done(Err(ContractError::AlreadyListed {  })),
        sell_store(store, env, info, token_id, contract_address, price, expiration, answers)
            == store,
{
}

/// A listing that succeeded leaves the asset listed, so that a second listing
/// with no withdrawal or purchase in between is refused as already listed.
pub proof fn lemma_listing_twice_refused(
    store: StoreView,
    env: EnvView,
    info: MessageInfoView,
    token_id: Seq<char>,
    contract_address: Seq<char>,
    price: CoinView,
    expiration: Expiration,
    answers: RegistryAnswersView,
    again_env: EnvView,
    again_info: MessageInfoView,
    again_contract_address: Seq<char>,
    again_price: CoinView,
    again_expiration: Expiration,
    again_answers: RegistryAnswersView,
)
    requires
        sell_step(
            store,
            env,
            info,
            token_id,
            contract_address,
            price,
            expiration,
            answers,
        ).succeeded(),
    ensures
        sell_step(
            sell_store(store, env, info, token_id, contract_address, price, expiration, answers),
            again_env,
            again_info,
            token_id,
            again_contract_address,
            again_price,
            again_expiration,
            again_answers,
        ) == StepView::Done(Err(ContractError::AlreadyListed {  })),
{
    let listed = sell_store(
        store,
        env,
        info,
        token_id,
        contract_address,
        price,
        expiration,
        answers,
    );
    lemma_listed_asset_not_listed_again(
        listed,
        again_env,
        again_info,
        token_id,
        again_contract_address,
        again_price,
        again_expiration,
        again_answers,
    );
}

/// The same holds of auctions: one that was opened is not opened again.
pub proof fn lemma_auction_twice_refused(
    store: StoreView,
    env: EnvView,
    info: MessageInfoView,
    token_id: Seq<char>,
    contract_address: Seq<char>,
    starting_price: CoinView,
    expiration: Expiration,
    answers: RegistryAnswersView,
    again_env: EnvView,
    again_info: MessageInfoView,
    again_contract_address: Seq<char>,
    again_price: CoinView,
    again_expiration: Expiration,
    again_answers: RegistryAnswersView,
)
    requires
        auction_step(
            store,
            env,
            info,
            token_id,
            contract_address,
            starting_price,
            expiration,
            answers,
        ).succeeded(),
    ensures
        auction_step(
            auction_store(
                store,
                env,
                info,
                token_id,
                contract_address,
                starting_price,
                expiration,
                answers,
            ),
            again_env,
            again_info,
            token_id,
            again_contract_address,
            again_price,
            again_expiration,
            again_answers,
        ) == StepView::Done(Err(ContractError::AlreadyListed {  })),
{
}

/// A bid is accepted only where it exceeds the highest bid so far, and then
/// takes its place: the highest bid of an auction only ever grows. A bid that
/// passes every other check but does not exceed the highest bid is refused as
/// unsurpassed.
pub proof fn lemma_accepted_bid_exceeds_highest(
    store: StoreView,
    env: EnvView,
    info: MessageInfoView,
    token_id: Seq<char>,
)
    requires
        info.funds.len() > 0,
    ensures
        bid_outcome(store, env, info, token_id) is Ok ==> {
            &&& store.bids.contains_key(token_id)
            &&& info.funds[0].amount > store.bids[token_id].bid.amount
            &&& bid_store(store, env, info, token_id).bids[token_id].bid == info.funds[0]
            &&& bid_store(store, env, info, token_id).bids[token_id].address == info.sender
        },
        bid_outcome(store, env, info, token_id) is Err ==> bid_store(store, env, info, token_id)
            == store,
        bid_reads_funds(store, env, token_id) && acceptable(info.funds[0])
            && store.bids.contains_key(token_id) && info.funds[0].amount
            <= store.bids[token_id].bid.amount ==> bid_outcome(store, env, info, token_id) == Err::<
            ResponseView,
            ContractError,
        >(ContractError::UnsurpassedHighestBid {  }),
{
}

/// Of two bids on the same auction, one straight after the other, the second
/// is accepted only if its amount is strictly above the first's. Where it is
/// not, and the auction is still open and the coin acceptable, the refusal is
/// that the highest bid is unsurpassed.
pub proof fn lemma_successive_bids_increase(
    store: StoreView,
    env: EnvView,
    first: MessageInfoView,
    token_id: Seq<char>,
    later_env: EnvView,
    second: MessageInfoView,
)
    requires
        first.funds.len() > 0,
        second.funds.len() > 0,
        bid_outcome(store, env, first, token_id) is Ok,
    ensures
        ({
            let after = bid_store(store, env, first, token_id);
            &&& bid_outcome(after, later_env, second, token_id) is Ok ==> second.funds[0].amount
                > first.funds[0].amount
            &&& second.funds[0].amount <= first.funds[0].amount && acceptable(second.funds[0])
                && !after.auctions[token_id].expiration.spec_is_expired(later_env.block)
                ==> bid_outcome(after, later_env, second, token_id) == Err::<
                ResponseView,
                ContractError,
            >(ContractError::UnsurpassedHighestBid {  })
        }),
{
}

/// An auction cannot be claimed before its deadline: the claim is refused as
/// ongoing. Nor can it be claimed once the deadline has passed if it has no
/// highest bid: the claim then fails on the missing record. Either way the
/// store stays as it was.
pub proof fn lemma_claim_needs_deadline_and_bid(
    store: StoreView,
    env: EnvView,
    info: MessageInfoView,
    token_id: Seq<char>,
    transfer: Result<Seq<u8>, cosmwasm_std::StdError>,
)
    requires
        store.auctions.contains_key(token_id),
    ensures
        !store.auctions[token_id].expiration.spec_is_expired(env.block) ==> claim_outcome(
            store,
            env,
            info,
            token_id,
            transfer,
        ) == Err::<ResponseView, ContractError>(
            ContractError::OngoingAuction {  },
        ),
        store.auctions[token_id].expiration.spec_is_expired(env.block) && !store.bids.contains_key(
            token_id,
        ) ==> claim_outcome(store, env, info, token_id, transfer) == Err::<
            ResponseView,
            ContractError,
        >(ContractError::missing(RecordKind::HighestBid)),
        claim_outcome(store, env, info, token_id, transfer) is Err ==> claim_store(
            store,
            env,
            info,
            token_id,
            transfer,
        ) == store,
{
}

/// Opening an auction records no bid. In the store that the opening leaves,
/// for an asset that had no highest bid before, every bid is refused and
/// changes nothing, and every claim is refused: a bid needs a highest bid to
/// exceed, and a claim needs one to settle.
pub proof fn lemma_new_auction_takes_no_bid(
    store: StoreView,
    env: EnvView,
    info: MessageInfoView,
    token_id: Seq<char>,
    contract_address: Seq<char>,
    starting_price: CoinView,
    expiration: Expiration,
    answers: RegistryAnswersView,
    later_env: EnvView,
    bidder: MessageInfoView,
    claimer: MessageInfoView,
    transfer: Result<Seq<u8>, cosmwasm_std::StdError>,
)
    requires
        !store.bids.contains_key(token_id),
        auction_step(
            store,
            env,
            info,
            token_id,
            contract_address,
            starting_price,
            expiration,
            answers,
        ).succeeded(),
    ensures
        ({
            let opened = auction_store(
                store,
                env,
                info,
                token_id,
                contract_address,
                starting_price,
                expiration,
                answers,
            );
            &&& opened.auctions.contains_key(token_id)
            &&& !opened.bids.contains_key(token_id)
            &&& bid_outcome(opened, later_env, bidder, token_id) is Err
            &&& bid_store(opened, later_env, bidder, token_id) == opened
            &&& claim_outcome(opened, later_env, claimer, token_id, transfer) is Err
        }),
{
}

/// A claim that succeeds pays the highest bid to the owner under whom the
/// auction was opened and hands the asset to the highest bidder, in that
/// order, and ends the auction: a second claim finds no auction.
pub proof fn lemma_claim_settles_highest_bid(
    store: StoreView,
    env: EnvView,
    info: MessageInfoView,
    token_id: Seq<char>,
    transfer: Result<Seq<u8>, cosmwasm_std::StdError>,
    later_env: EnvView,
    later_info: MessageInfoView,
    later_transfer: Result<Seq<u8>, cosmwasm_std::StdError>,
)
    requires
        claim_outcome(store, env, info, token_id, transfer) is Ok,
    ensures
        ({
            let settled = claim_outcome(store, env, info, token_id, transfer)->Ok_0;
            let after = claim_store(store, env, info, token_id, transfer);
            &&& settled.messages == seq![
                CosmosMsgView::BankSend {
                    to_address: store.auctions[token_id].owner,
                    amount: seq![store.bids[token_id].bid],
                },
                CosmosMsgView::WasmExecute {
                    contract_addr: store.auctions[token_id].contract_address,
                    msg: transfer->Ok_0,
                    funds: Seq::empty(),
                },
            ]
            &&& !after.auctions.contains_key(token_id)
            &&& !after.bids.contains_key(token_id)
            &&& claim_outcome(after, later_env, later_info, token_id, later_transfer) == Err::<
                ResponseView,
                ContractError,
            >(ContractError::missing(RecordKind::Auction))
        }),
{
}

/// Of two accepted bids, one straight after the other, a claim settles the
/// second alone: its coin goes to the owner under whom the auction was
/// opened, the asset to the second bidder, and these are the only effects.
/// Nothing goes back to the first bidder.
pub proof fn lemma_claim_settles_last_bid_only(
    store: StoreView,
    env: EnvView,
    first: MessageInfoView,
    token_id: Seq<char>,
    later_env: EnvView,
    second: MessageInfoView,
    claim_env: EnvView,
    claimer: MessageInfoView,
    transfer: Result<Seq<u8>, cosmwasm_std::StdError>,
)
    requires
        first.funds.len() > 0,
        second.funds.len() > 0,
        bid_outcome(store, env, first, token_id) is Ok,
        bid_outcome(bid_store(store, env, first, token_id), later_env, second, token_id) is Ok,
        claim_outcome(
            bid_store(bid_store(store, env, first, token_id), later_env, second, token_id),
            claim_env,
            claimer,
            token_id,
            transfer,
        ) is Ok,
    ensures
        claim_outcome(
            bid_store(bid_store(store, env, first, token_id), later_env, second, token_id),
            claim_env,
            claimer,
            token_id,
            transfer,
        )->Ok_0.messages == seq![
            CosmosMsgView::BankSend {
                to_address: store.auctions[token_id].owner,
                amount: seq![second.funds[0]],
            },
            CosmosMsgView::WasmExecute {
                contract_addr: store.auctions[token_id].contract_address,
                msg: transfer->Ok_0,
                funds: Seq::empty(),
            },
        ],
        second.funds[0].amount > first.funds[0].amount,
{
}

/// Once a purchase has succeeded the listing is gone: a further purchase and
/// a withdrawal are both refused as not listed.
pub proof fn lemma_bought_asset_is_unlisted(
    store: StoreView,
    buyer: MessageInfoView,
    token_id: Seq<char>,
    transfer: Result<Seq<u8>, cosmwasm_std::StdError>,
    later_info: MessageInfoView,
    later_contract_address: Seq<char>,
    later_answers: RegistryAnswersView,
    later_transfer: Result<Seq<u8>, cosmwasm_std::StdError>,
)
    requires
        buy_outcome(store, buyer, token_id, transfer) is Ok,
    ensures
        ({
            let after = buy_store(store, buyer, token_id, transfer);
            &&& !after.listings.contains_key(token_id)
            &&& buy_outcome(after, later_info, token_id, later_transfer) == Err::<
                ResponseView,
                ContractError,
            >(ContractError::NotListed {  })
            &&& delist_step(after, later_info, token_id, later_contract_address, later_answers)
                == StepView::Done(Err(ContractError::NotListed {  }))
        }),
{
}

/// Once a withdrawal has succeeded the listing is gone: a purchase and a
/// further withdrawal are both refused as not listed.
pub proof fn lemma_delisted_asset_is_unlisted(
    store: StoreView,
    info: MessageInfoView,
    token_id: Seq<char>,
    contract_address: Seq<char>,
    answers: RegistryAnswersView,
    later_info: MessageInfoView,
    later_contract_address: Seq<char>,
    later_answers: RegistryAnswersView,
    later_transfer: Result<Seq<u8>, cosmwasm_std::StdError>,
)
    requires
        delist_step(store, info, token_id, contract_address, answers).succeeded(),
    ensures
        ({
            let after = delist_store(store, info, token_id, contract_address, answers);
            &&& !after.listings.contains_key(token_id)
            &&& buy_outcome(after, later_info, token_id, later_transfer) == Err::<
                ResponseView,
                ContractError,
            >(ContractError::NotListed {  })
            &&& delist_step(after, later_info, token_id, later_contract_address, later_answers)
                == StepView::Done(Err(ContractError::NotListed {  }))
        }),
{
}

/// A price that is not acceptable is never recorded: a listing or an auction
/// at such a price does not succeed, at whatever point of its exchange with
/// the registry, and leaves the store as it was.
pub proof fn lemma_unacceptable_price_refused(
    store: StoreView,
    env: EnvView,
    info: MessageInfoView,
    token_id: Seq<char>,
    contract_address: Seq<char>,
    price: CoinView,
    expiration: Expiration,
    answers: RegistryAnswersView,
)
    requires
        !acceptable(price),
    ensures
        !sell_step(
            store,
            env,
            info,
            token_id,
            contract_address,
            price,
            expiration,
            answers,
        ).succeeded(),
        sell_store(store, env, info, token_id, contract_address, price, expiration, answers)
            == store,
        !auction_step(
            store,
            env,
            info,
            token_id,
            contract_address,
            price,
            expiration,
            answers,
        ).succeeded(),
        auction_store(store, env, info, token_id, contract_address, price, expiration, answers)
            == store,
{
}

/// A payment that is not acceptable buys nothing and bids nothing: a bid with
/// it is refused, and so is a purchase in a store whose prices are all
/// acceptable. The store stays as it was.
pub proof fn lemma_unacceptable_payment_refused(
    store: StoreView,
    env: EnvView,
    info: MessageInfoView,
    token_id: Seq<char>,
    transfer: Result<Seq<u8>, cosmwasm_std::StdError>,
)
    requires
        info.funds.len() > 0,
        !acceptable(info.funds[0]),
    ensures
        bid_outcome(store, env, info, token_id) is Err,
        bid_store(store, env, info, token_id) == store,
        well_priced(store) ==> buy_outcome(store, info, token_id, transfer) is Err && buy_store(
            store,
            info,
            token_id,
            transfer,
        ) == store,
        info.funds[0].denom != accepted_denom() ==> buy_outcome(store, info, token_id, transfer)
            is Err && buy_store(store, info, token_id, transfer) == store,
{
}

/// Every operation keeps the prices in the store acceptable, and the empty
/// store has none that is not.
pub proof fn lemma_prices_stay_acceptable(
    store: StoreView,
    env: EnvView,
    info: MessageInfoView,
    token_id: Seq<char>,
    contract_address: Seq<char>,
    price: CoinView,
    expiration: Expiration,
    answers: RegistryAnswersView,
    transfer: Result<Seq<u8>, cosmwasm_std::StdError>,
)
    requires
        well_priced(store),
    ensures
        well_priced(StoreView::empty()),
        well_priced(
            sell_store(store, env, info, token_id, contract_address, price, expiration, answers),
        ),
        well_priced(
            auction_store(store, env, info, token_id, contract_address, price, expiration, answers),
        ),
        well_priced(delist_store(store, info, token_id, contract_address, answers)),
        well_priced(buy_store(store, info, token_id, transfer)),
        well_priced(bid_store(store, env, info, token_id)),
        well_priced(claim_store(store, env, info, token_id, transfer)),
{
}

/// A run that does not end in success leaves the store as it was: a refusal,
/// and a run that stops to ask the registry.
pub proof fn lemma_only_success_writes(
    store: StoreView,
    env: EnvView,
    info: MessageInfoView,
    token_id: Seq<char>,
    contract_address: Seq<char>,
    price: CoinView,
    expiration: Expiration,
    answers: RegistryAnswersView,
    transfer: Result<Seq<u8>, cosmwasm_std::StdError>,
)
    ensures
        !sell_step(
            store,
            env,
            info,
            token_id,
            contract_address,
            price,
            expiration,
            answers,
        ).succeeded() ==> sell_store(
            store,
            env,
            info,
            token_id,
            contract_address,
            price,
            expiration,
            answers,
        ) == store,
        !auction_step(
            store,
            env,
            info,
            token_id,
            contract_address,
            price,
            expiration,
            answers,
        ).succeeded() ==> auction_store(
            store,
            env,
            info,
            token_id,
            contract_address,
            price,
            expiration,
            answers,
        ) == store,
        !delist_step(store, info, token_id, contract_address, answers).succeeded() ==> delist_store(
            store,
            info,
            token_id,
            contract_address,
            answers,
        ) == store,
        buy_outcome(store, info, token_id, transfer) is Err ==> buy_store(
            store,
            info,
            token_id,
            transfer,
        ) == store,
        bid_outcome(store, env, info, token_id) is Err ==> bid_store(store, env, info, token_id)
            == store,
        claim_outcome(store, env, info, token_id, transfer) is Err ==> claim_store(
            store,
            env,
            info,
            token_id,
            transfer,
        ) == store,
{
}

} // verus!
