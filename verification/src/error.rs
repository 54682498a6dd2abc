//! The ways in which a request can be refused.

use vstd::prelude::*;

verus! {

/// The chain library's error type. The marketplace never looks inside one: it
/// only carries it from where it arose to the caller.
#[verifier::external_type_specification]
#[verifier::external_body]
pub struct ExStdError(cosmwasm_std::StdError);

/// The kind of record that a lookup in the store did not find.
#[derive(Clone, Copy, Debug, PartialEq, Eq, Structural)]
pub enum RecordKind {
    Listing,
    Auction,
    HighestBid,
}

/// A failure underneath the marketplace's own rules.
#[derive(Debug, PartialEq)]
pub enum UnderlyingError {
    /// The store holds no record of this kind for the asset.
    NotFound { kind: RecordKind },
    /// A failure that the chain library or the registry reported, unchanged.
    Host(cosmwasm_std::StdError),
}

/// Why a request was refused. Every refusal ends the request; the store is
/// then as it was before.
#[derive(Debug, PartialEq)]
pub enum ContractError {
    /// A failure of the store or of a registry query, passed through.
    Std(UnderlyingError),
    /// The caller is not the owner that the registry reports.
    Unauthorized {},
    /// A refusal that is described in words only.
    CustomError { val: String },
    /// The price is zero, or the payment is not the listed price.
    InvalidAmount {},
    /// The coin is not of the accepted denomination.
    InvalidDenomination {},
    /// The deadline has already been reached.
    Expired {},
    /// The asset already has a record of this kind.
    AlreadyListed {},
    /// The asset has no record of this kind.
    NotListed {},
    /// The bid does not exceed the highest bid so far.
    UnsurpassedHighestBid {},
    /// The auction's deadline has not been reached yet.
    OngoingAuction {},
    /// The registry reports no matching approval for the marketplace.
    Unapproved {},
}

impl ContractError {
    /// The refusal for a record that the store does not hold.
    pub open spec fn missing(kind: RecordKind) -> ContractError {
        ContractError::Std(UnderlyingError::NotFound { kind })
    }

    /// The refusal that passes on a failure reported from outside.
    pub open spec fn passed_on(e: cosmwasm_std::StdError) -> ContractError {
        ContractError::Std(UnderlyingError::Host(e))
    }
}

} // verus!
