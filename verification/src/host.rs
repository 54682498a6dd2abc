//! Calls into the chain's own libraries. Nothing in this file is proved: each
//! function states what the called code does, and the rest of the crate is
//! verified against these statements.

use vstd::prelude::*;
use crate::types::{Coin, Expiration, Timestamp};

verus! {

/// The text that `cosmwasm_std::Coin`'s `Display` writes for an amount and a denomination.
pub uninterp spec fn coin_text(amount: u128, denom: Seq<char>) -> Seq<char>;

/// The text that `cw721::Expiration`'s `Display` writes for a deadline.
pub uninterp spec fn expiration_text(expiration: Expiration) -> Seq<char>;

/// The bytes that `cosmwasm_std::to_binary` gives for the registry message
/// `Cw721ExecuteMsg::TransferNft` with this recipient and asset, or `None`
/// where it fails.
pub uninterp spec fn transfer_nft_payload(recipient: Seq<char>, token_id: Seq<char>) -> Option<
    Seq<u8>,
>;

/// The bytes that `cosmwasm_std::to_binary` gives for the registry query
/// `Cw721QueryMsg::OwnerOf` about this asset, with no further option set, or
/// `None` where it fails.
pub uninterp spec fn owner_of_payload(token_id: Seq<char>) -> Option<Seq<u8>>;

/// The bytes that `cosmwasm_std::to_binary` gives for the registry query
/// `Cw721QueryMsg::ApprovedForAll` about this owner, with no further option
/// set, or `None` where it fails.
pub uninterp spec fn approved_for_all_payload(owner: Seq<char>) -> Option<Seq<u8>>;

/// What an encoding returned, with the bytes taken by their view.
pub open spec fn bytes_view(got: Result<Vec<u8>, cosmwasm_std::StdError>) -> Result<
    Seq<u8>,
    cosmwasm_std::StdError,
> {
    match got {
        Ok(bytes) => Ok(bytes@),
        Err(e) => Err(e),
    }
}

/// Whether `got` is what an encoding may return where its payload is `payload`:
/// those bytes where there are any, and some failure where there are none.
pub open spec fn encoding_of(
    payload: Option<Seq<u8>>,
    got: Result<Seq<u8>, cosmwasm_std::StdError>,
) -> bool {
    match got {
        Ok(bytes) => payload == Some(bytes),
        Err(_) => payload is None,
    }
}

/// One value that an encoding may return where its payload is `payload`.
pub open spec fn an_encoding_of(payload: Option<Seq<u8>>) -> Result<
    Seq<u8>,
    cosmwasm_std::StdError,
> {
    match payload {
        Some(bytes) => Ok(bytes),
        None => Err(arbitrary()),
    }
}

/// `is_expired` of `cw721::Expiration`, the deadline type that `cw721` hands
/// on from `cw0`: a height is reached when the block's height is at least that
/// height, a time when the block's time is at least that time, and `Never` is
/// never reached.
#[verifier::external_body]
pub(crate) fn is_expired(expiration: Expiration, height: u64, time: Timestamp) -> (b: bool)
    ensures
        b == expiration.reached(height, time),
{
    let block = cosmwasm_std::BlockInfo {
        height,
        time: cosmwasm_std::Timestamp::from_nanos(time.nanos),
        chain_id: String::new(),
    };
    let outside = match expiration {
        Expiration::AtHeight(h) => cw721::Expiration::AtHeight(h),
        Expiration::AtTime(t) => cw721::Expiration::AtTime(
            cosmwasm_std::Timestamp::from_nanos(t.nanos),
        ),
        Expiration::Never {} => cw721::Expiration::Never {},
    };
    outside.is_expired(&block)
}

/// `to_string` of a `cosmwasm_std::Coin`: the result is `coin_text` of the
/// coin's amount and denomination.
#[verifier::external_body]
pub(crate) fn display_coin(coin: &Coin) -> (s: String)
    ensures
        s@ == coin_text(coin.amount, coin.denom@),
{
    cosmwasm_std::Coin::new(coin.amount, coin.denom.clone()).to_string()
}

/// `to_string` of a `cw721::Expiration`: the result is `expiration_text` of the deadline.
#[verifier::external_body]
pub(crate) fn display_expiration(expiration: Expiration) -> (s: String)
    ensures
        s@ == expiration_text(expiration),
{
    let outside = match expiration {
        Expiration::AtHeight(h) => cw721::Expiration::AtHeight(h),
        Expiration::AtTime(t) => cw721::Expiration::AtTime(
            cosmwasm_std::Timestamp::from_nanos(t.nanos),
        ),
        Expiration::Never {} => cw721::Expiration::Never {},
    };
    outside.to_string()
}

/// `cosmwasm_std::to_binary` of `cw721::Cw721ExecuteMsg::TransferNft`: the
/// bytes are `transfer_nft_payload` of the recipient and the asset; a failure
/// comes exactly where that payload is `None`.
#[verifier::external_body]
pub(crate) fn encode_transfer_nft(recipient: String, token_id: String) -> (got: Result<
    Vec<u8>,
    cosmwasm_std::StdError,
>)
    ensures
        encoding_of(transfer_nft_payload(recipient@, token_id@), bytes_view(got)),
{
    let msg = cw721::Cw721ExecuteMsg::TransferNft { recipient, token_id };
    cosmwasm_std::to_binary(&msg).map(|bytes| bytes.0)
}

/// `cosmwasm_std::to_binary` of `cw721::Cw721QueryMsg::OwnerOf` with
/// `include_expired` unset: the bytes are `owner_of_payload` of the asset; a
/// failure comes exactly where that payload is `None`.
#[verifier::external_body]
pub(crate) fn encode_owner_of(token_id: String) -> (got: Result<Vec<u8>, cosmwasm_std::StdError>)
    ensures
        encoding_of(owner_of_payload(token_id@), bytes_view(got)),
{
    let msg = cw721::Cw721QueryMsg::OwnerOf { token_id, include_expired: None };
    cosmwasm_std::to_binary(&msg).map(|bytes| bytes.0)
}

/// `cosmwasm_std::to_binary` of `cw721::Cw721QueryMsg::ApprovedForAll` with
/// `include_expired`, `start_after` and `limit` unset: the bytes are
/// `approved_for_all_payload` of the owner; a failure comes exactly where that
/// payload is `None`.
#[verifier::external_body]
pub(crate) fn encode_approved_for_all(owner: String) -> (got: Result<
    Vec<u8>,
    cosmwasm_std::StdError,
>)
    ensures
        encoding_of(approved_for_all_payload(owner@), bytes_view(got)),
{
    let msg = cw721::Cw721QueryMsg::ApprovedForAll {
        owner,
        include_expired: None,
        start_after: None,
        limit: None,
    };
    cosmwasm_std::to_binary(&msg).map(|bytes| bytes.0)
}

} // verus!
