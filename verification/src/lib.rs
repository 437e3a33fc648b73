//! A fungible-token contract whose every handler hands its work to a standard
//! token ledger. The entry points select the ledger routine for a message and
//! pass the message's fields to it.

pub mod amounts;
pub mod contract;
pub mod host;
pub mod ledger;
pub mod msg;
