//! Settlement core of an asset marketplace: fixed-price listings and English
//! auctions over assets that an external registry owns, with payments in one
//! accepted native denomination.
//!
//! Every operation is a function of the store, the request and what the
//! registry has answered; its contract states the outcome and the new store.
//! The marketplace holds no asset and calls nobody: it answers with the
//! effects that the chain is to carry out.

pub mod types;
pub mod error;
pub mod response;
pub mod table;
pub mod state;
pub mod msg;
pub mod registry;
pub mod host;
pub mod contract;
pub mod lifecycle;
