//! What a successful request hands back: the effects that the chain is to
//! carry out, in order, and the attributes that describe what happened.

use vstd::prelude::*;
use crate::types::{Coin, CoinView};

verus! {

/// A key and a value that describe what a request did.
#[derive(Clone, Debug, PartialEq, Eq)]
pub struct Attribute {
    pub key: String,
    pub value: String,
}

pub struct AttributeView {
    pub key: Seq<char>,
    pub value: Seq<char>,
}

impl View for Attribute {
    type V = AttributeView;

    open spec fn view(&self) -> AttributeView {
        AttributeView { key: self.key@, value: self.value@ }
    }
}

impl DeepView for Attribute {
    type V = AttributeView;

    open spec fn deep_view(&self) -> AttributeView {
        self@
    }
}

/// An effect that the chain carries out after the request has succeeded.
#[derive(Clone, Debug, PartialEq, Eq)]
pub enum CosmosMsg {
    /// Moves `amount` from the marketplace to `to_address`.
    BankSend { to_address: String, amount: Vec<Coin> },
    /// Calls the contract at `contract_addr` with the encoded message `msg`.
    WasmExecute { contract_addr: String, msg: Vec<u8>, funds: Vec<Coin> },
}

pub enum CosmosMsgView {
    BankSend { to_address: Seq<char>, amount: Seq<CoinView> },
    WasmExecute { contract_addr: Seq<char>, msg: Seq<u8>, funds: Seq<CoinView> },
}

impl View for CosmosMsg {
    type V = CosmosMsgView;

    open spec fn view(&self) -> CosmosMsgView {
        match self {
            CosmosMsg::BankSend { to_address, amount } => CosmosMsgView::BankSend {
                to_address: to_address@,
                amount: amount.deep_view(),
            },
            CosmosMsg::WasmExecute { contract_addr, msg, funds } => CosmosMsgView::WasmExecute {
                contract_addr: contract_addr@,
                msg: msg@,
                funds: funds.deep_view(),
            },
        }
    }
}

impl DeepView for CosmosMsg {
    type V = CosmosMsgView;

    open spec fn deep_view(&self) -> CosmosMsgView {
        self@
    }
}

/// The answer to a successful request. The chain carries out `messages` in
/// order, all of them or none, together with the change to the store.
#[derive(Clone, Debug, PartialEq, Eq)]
pub struct Response {
    pub messages: Vec<CosmosMsg>,
    pub attributes: Vec<Attribute>,
}

pub struct ResponseView {
    pub messages: Seq<CosmosMsgView>,
    pub attributes: Seq<AttributeView>,
}

impl ResponseView {
    pub open spec fn empty() -> ResponseView {
        ResponseView { messages: Seq::empty(), attributes: Seq::empty() }
    }

    pub open spec fn add_message(self, msg: CosmosMsgView) -> ResponseView {
        ResponseView { messages: self.messages.push(msg), attributes: self.attributes }
    }

    pub open spec fn add_attribute(self, key: Seq<char>, value: Seq<char>) -> ResponseView {
        ResponseView {
            messages: self.messages,
            attributes: self.attributes.push(AttributeView { key, value }),
        }
    }
}

impl View for Response {
    type V = ResponseView;

    open spec fn view(&self) -> ResponseView {
        ResponseView {
            messages: self.messages.deep_view(),
            attributes: self.attributes.deep_view(),
        }
    }
}

impl Response {
    /// A response with no message and no attribute.
    pub fn new() -> (r: Response)
        ensures
            r@ == ResponseView::empty(),
    {
        let r = Response { messages: Vec::new(), attributes: Vec::new() };
        assert(r@.messages =~= Seq::empty());
        assert(r@.attributes =~= Seq::empty());
        r
    }

    /// Appends an effect after those already there.
    pub fn add_message(self, msg: CosmosMsg) -> (r: Response)
        ensures
            r@ == self@.add_message(msg@),
    {
        let mut r = self;
        r.messages.push(msg);
        assert(r@.messages =~= self@.messages.push(msg@));
        r
    }

    /// Appends an attribute after those already there.
    pub fn add_attribute(self, key: &str, value: String) -> (r: Response)
        ensures
            r@ == self@.add_attribute(key@, value@),
    {
        let mut r = self;
        r.attributes.push(Attribute { key: key.to_owned(), value });
        assert(r@.attributes =~= self@.attributes.push(AttributeView { key: key@, value: value@ }));
        r
    }
}

impl Default for Response {
    fn default() -> (r: Response)
        ensures
            r@ == ResponseView::empty(),
    {
        Response::new()
    }
}

} // verus!
