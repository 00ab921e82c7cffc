//! Reading the state of the Gravity bridge contract, without doing any I/O.
//!
//! The bridge relay needs three things from the Ethereum side: the nonces
//! that the bridge contract keeps, the contract's gravity id, and a gas
//! price for whatever it sends next. Every one of them is a short exchange
//! with a node. This crate holds the decisions of those exchanges as plain
//! functions from what is known so far to what to ask next; the caller does
//! the asking.

pub mod call;
pub mod chain;
pub mod error;
pub mod gas;
pub mod reader;
pub mod uint;
