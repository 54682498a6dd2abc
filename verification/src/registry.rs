//! The marketplace's side of its exchange with the asset registry.
//!
//! The marketplace never calls the registry itself. Where a request needs to
//! know something that only the registry can tell, the operation stops with
//! the question as its result; the caller asks the registry and runs the
//! operation again with the answer. Nothing is written to the store before
//! the last answer is in, so running an operation again is harmless.

use vstd::prelude::*;
use crate::error::ContractError;
use crate::response::{Response, ResponseView};
use crate::types::{Approval, ApprovalView};

verus! {

/// A question for the contract at `contract_addr`, as the encoded message `msg`.
#[derive(Clone, Debug, PartialEq, Eq)]
pub struct WasmQuery {
    pub contract_addr: String,
    pub msg: Vec<u8>,
}

pub struct WasmQueryView {
    pub contract_addr: Seq<char>,
    pub msg: Seq<u8>,
}

impl View for WasmQuery {
    type V = WasmQueryView;

    open spec fn view(&self) -> WasmQueryView {
        WasmQueryView { contract_addr: self.contract_addr@, msg: self.msg@ }
    }
}

/// What the registry has answered so far within one request. `None` stands
/// for a question that has not been asked yet.
#[derive(Debug, PartialEq)]
pub struct RegistryAnswers {
    /// The current owner of the asset.
    pub owner: Option<Result<String, ContractError>>,
    /// The approvals that the owner has granted.
    pub approvals: Option<Result<Vec<Approval>, ContractError>>,
}

pub struct RegistryAnswersView {
    pub owner: Option<Result<Seq<char>, ContractError>>,
    pub approvals: Option<Result<Seq<ApprovalView>, ContractError>>,
}

impl View for RegistryAnswers {
    type V = RegistryAnswersView;

    open spec fn view(&self) -> RegistryAnswersView {
        RegistryAnswersView {
            owner: match self.owner {
                None => None,
                Some(Ok(owner)) => Some(Ok(owner@)),
                Some(Err(e)) => Some(Err(e)),
            },
            approvals: match self.approvals {
                None => None,
                Some(Ok(approvals)) => Some(Ok(approvals.deep_view())),
                Some(Err(e)) => Some(Err(e)),
            },
        }
    }
}

impl RegistryAnswers {
    /// No question has been asked yet.
    pub fn none() -> (a: RegistryAnswers)
        ensures
            a@ == (RegistryAnswersView { owner: None, approvals: None }),
    {
        RegistryAnswers { owner: None, approvals: None }
    }
}

/// How far one run of an operation got.
#[derive(Debug, PartialEq)]
pub enum Step {
    /// The operation needs the current owner of `token_id` at the registry
    /// `contract_address`.
    QueryOwner { contract_address: String, token_id: String },
    /// The operation needs the approvals that `owner` has granted at the
    /// registry `contract_address`.
    QueryApprovals { contract_address: String, owner: String },
    /// The operation has ended, with its response or its refusal.
    Done(Result<Response, ContractError>),
}

pub enum StepView {
    QueryOwner { contract_address: Seq<char>, token_id: Seq<char> },
    QueryApprovals { contract_address: Seq<char>, owner: Seq<char> },
    Done(Result<ResponseView, ContractError>),
}

/// The outcome of an operation, with the response taken by its view.
pub open spec fn outcome_view(res: Result<Response, ContractError>) -> Result<
    ResponseView,
    ContractError,
> {
    match res {
        Ok(r) => Ok(r@),
        Err(e) => Err(e),
    }
}

impl View for Step {
    type V = StepView;

    open spec fn view(&self) -> StepView {
        match self {
            Step::QueryOwner { contract_address, token_id } => StepView::QueryOwner {
                contract_address: contract_address@,
                token_id: token_id@,
            },
            Step::QueryApprovals { contract_address, owner } => StepView::QueryApprovals {
                contract_address: contract_address@,
                owner: owner@,
            },
            Step::Done(res) => StepView::Done(outcome_view(*res)),
        }
    }
}

impl StepView {
    /// Whether the operation has ended with a response.
    pub open spec fn succeeded(self) -> bool {
        self matches StepView::Done(Ok(_))
    }
}

} // verus!
