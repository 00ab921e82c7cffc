//! The Ethereum networks that a price service can be asked about.

use crate::error::GravityError;
use crate::uint::{downcast_to_u64, U256};
use vstd::prelude::*;

verus! {

/// An Ethereum network that a price service knows by name.
#[derive(Clone, Copy, Debug, PartialEq, Eq)]
pub enum Chain {
    Mainnet,
    Ropsten,
    Rinkeby,
    Goerli,
    Kovan,
}

/// The network with the given chain id. An id that names none of the
/// networks stands for the main network: the table cannot be complete, and
/// the main network is the safe choice for pricing.
pub open spec fn chain_of_id(id: nat) -> Chain {
    if id == 3 {
        Chain::Ropsten
    } else if id == 4 {
        Chain::Rinkeby
    } else if id == 5 {
        Chain::Goerli
    } else if id == 42 {
        Chain::Kovan
    } else {
        Chain::Mainnet
    }
}

/// Resolves the chain id that the node reported to a network.
///
/// An id that fits in 64 bits always resolves, by `chain_of_id`. A larger
/// one is reported as bad data, with the id.
pub fn get_chain(chain_id: U256) -> (chain: Result<Chain, GravityError>)
    ensures
        chain_id@ <= u64::MAX ==> chain == Ok::<Chain, GravityError>(chain_of_id(chain_id@)),
        chain_id@ > u64::MAX ==> chain == Err::<Chain, GravityError>(
            (GravityError::EthereumBadDataError { chain_id }),
        ),
{
    match downcast_to_u64(chain_id) {
        None => Err(GravityError::EthereumBadDataError { chain_id }),
        Some(id) => Ok(
            match id {
                3 => Chain::Ropsten,
                4 => Chain::Rinkeby,
                5 => Chain::Goerli,
                42 => Chain::Kovan,
                _ => Chain::Mainnet,
            },
        ),
    }
}

} // verus!
