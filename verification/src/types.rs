//! Plain values that a request carries: coins, deadlines, the block being
//! executed, the caller, and the approvals a registry reports.

use vstd::prelude::*;
use crate::host::is_expired;

verus! {

/// A point in time, in nanoseconds since the epoch.
#[derive(Clone, Copy, Debug, PartialEq, Eq, Structural)]
pub struct Timestamp {
    pub nanos: u64,
}

impl Timestamp {
    pub fn from_nanos(nanos_since_epoch: u64) -> (t: Timestamp)
        ensures
            t.nanos == nanos_since_epoch,
    {
        Timestamp { nanos: nanos_since_epoch }
    }

    pub fn nanos(&self) -> (n: u64)
        ensures
            n == self.nanos,
    {
        self.nanos
    }
}

/// The deadline of a listing, an auction or an approval.
#[derive(Clone, Copy, Debug, PartialEq, Eq, Structural)]
pub enum Expiration {
    /// Reached once the block height is at least this height.
    AtHeight(u64),
    /// Reached once the block time is at least this time.
    AtTime(Timestamp),
    /// Never reached.
    Never {},
}

impl Expiration {
    /// Whether the deadline has been reached in a block of the given height and time.
    pub open spec fn reached(self, height: u64, time: Timestamp) -> bool {
        match self {
            Expiration::AtHeight(h) => height >= h,
            Expiration::AtTime(t) => time.nanos >= t.nanos,
            Expiration::Never {} => false,
        }
    }

    pub open spec fn spec_is_expired(self, block: BlockInfoView) -> bool {
        self.reached(block.height, block.time)
    }

    /// Whether the deadline has been reached in `block`.
    pub fn is_expired(&self, block: &BlockInfo) -> (b: bool)
        ensures
            b == self.spec_is_expired(block@),
    {
        is_expired(*self, block.height, block.time)
    }
}

/// An amount of one native denomination.
#[derive(Clone, Debug, PartialEq, Eq)]
pub struct Coin {
    pub denom: String,
    pub amount: u128,
}

pub struct CoinView {
    pub denom: Seq<char>,
    pub amount: u128,
}

impl View for Coin {
    type V = CoinView;

    open spec fn view(&self) -> CoinView {
        CoinView { denom: self.denom@, amount: self.amount }
    }
}

impl DeepView for Coin {
    type V = CoinView;

    open spec fn deep_view(&self) -> CoinView {
        self@
    }
}

impl Coin {
    pub fn new(amount: u128, denom: String) -> (c: Coin)
        ensures
            c@ == (CoinView { denom: denom@, amount }),
    {
        Coin { denom, amount }
    }

    /// A copy with the same denomination and amount.
    pub fn duplicate(&self) -> (c: Coin)
        ensures
            c@ == self@,
    {
        Coin { denom: self.denom.clone(), amount: self.amount }
    }
}

/// The block in which a request executes.
#[derive(Clone, Debug, PartialEq, Eq)]
pub struct BlockInfo {
    pub height: u64,
    pub time: Timestamp,
    pub chain_id: String,
}

pub struct BlockInfoView {
    pub height: u64,
    pub time: Timestamp,
    pub chain_id: Seq<char>,
}

impl View for BlockInfo {
    type V = BlockInfoView;

    open spec fn view(&self) -> BlockInfoView {
        BlockInfoView { height: self.height, time: self.time, chain_id: self.chain_id@ }
    }
}

/// The marketplace's own account.
#[derive(Clone, Debug, PartialEq, Eq)]
pub struct ContractInfo {
    pub address: String,
}

/// The surroundings of a request: the block and the marketplace's address.
#[derive(Clone, Debug, PartialEq, Eq)]
pub struct Env {
    pub block: BlockInfo,
    pub contract: ContractInfo,
}

pub struct EnvView {
    pub block: BlockInfoView,
    pub contract_address: Seq<char>,
}

impl View for Env {
    type V = EnvView;

    open spec fn view(&self) -> EnvView {
        EnvView { block: self.block@, contract_address: self.contract.address@ }
    }
}

/// Who sent a request and the funds that came with it.
#[derive(Clone, Debug, PartialEq, Eq)]
pub struct MessageInfo {
    pub sender: String,
    pub funds: Vec<Coin>,
}

pub struct MessageInfoView {
    pub sender: Seq<char>,
    pub funds: Seq<CoinView>,
}

impl View for MessageInfo {
    type V = MessageInfoView;

    open spec fn view(&self) -> MessageInfoView {
        MessageInfoView { sender: self.sender@, funds: self.funds.deep_view() }
    }
}

/// A registry-side grant that lets `spender` transfer an owner's assets until `expires`.
#[derive(Clone, Debug, PartialEq, Eq)]
pub struct Approval {
    pub spender: String,
    pub expires: Expiration,
}

pub struct ApprovalView {
    pub spender: Seq<char>,
    pub expires: Expiration,
}

impl View for Approval {
    type V = ApprovalView;

    open spec fn view(&self) -> ApprovalView {
        ApprovalView { spender: self.spender@, expires: self.expires }
    }
}

impl DeepView for Approval {
    type V = ApprovalView;

    open spec fn deep_view(&self) -> ApprovalView {
        self@
    }
}

} // verus!
