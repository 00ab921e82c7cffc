//! What a read can report to its caller.

use crate::uint::U256;
use vstd::prelude::*;

verus! {

/// A failure that the caller can log or act on. Each one carries the data
/// that was found at fault.
#[derive(Debug, PartialEq, Eq)]
pub enum GravityError {
    /// The contract's gravity id is not UTF-8. `raw` holds the bytes as the
    /// contract returned them.
    GravityContractError { raw: Vec<u8> },
    /// The node reported a chain id that does not fit in 64 bits.
    EthereumBadDataError { chain_id: U256 },
    /// An invalidation id that is not exactly 32 bytes long. `raw` holds the
    /// bytes as the caller gave them.
    InvalidArgumentError { raw: Vec<u8> },
    /// A reply of another shape than the pending request yields: bytes where
    /// a quantity was asked for, or a quantity where bytes were.
    UnexpectedReply,
}

} // verus!
