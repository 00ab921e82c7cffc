//! What a transaction costs, and where its gas price comes from.
//!
//! A price comes from one of two places. A price service estimates better,
//! but wants a credential and has to be told which network it is asked
//! about. The connected node always has a price of its own. With a credential
//! the service is asked, without one the node; whichever is asked, its
//! failure is the failure of the query.

use crate::chain::{chain_of_id, get_chain, Chain};
use crate::error::GravityError;
use crate::uint::{product, two_256, U256};
use vstd::prelude::*;

verus! {

/// The cost of an action on Ethereum: an amount of gas at a price per unit.
#[derive(Clone, Copy, Debug, PartialEq, Eq)]
pub struct GasCost {
    /// The amount of gas.
    pub gas: U256,
    /// The price of one unit of gas.
    pub gas_price: U256,
}

impl Default for GasCost {
    /// No gas at no price.
    fn default() -> (cost: GasCost)
        ensures
            cost.gas@ == 0,
            cost.gas_price@ == 0,
    {
        GasCost { gas: U256::zero(), gas_price: U256::zero() }
    }
}

impl GasCost {
    /// What the gas costs in all: the amount times the price.
    ///
    /// A cost is a 256-bit quantity like its two factors, so the product has
    /// to fit in 256 bits.
    pub fn get_total(&self) -> (total: U256)
        requires
            self.gas@ * self.gas_price@ < two_256(),
        ensures
            total@ == self.gas@ * self.gas_price@,
            self.gas@ == 0 ==> total@ == 0,
    {
        assert(self.gas@ == 0 ==> self.gas@ * self.gas_price@ == 0) by (nonlinear_arith);
        product(self.gas, self.gas_price)
    }
}

/// How gas prices are obtained.
#[derive(Debug, PartialEq, Eq)]
pub struct OracleConfig {
    /// The credential for the price service. Without one the service is
    /// never asked.
    pub price_service_credential: Option<String>,
}

/// What a price query needs from outside next.
#[derive(Clone, Copy, Debug, PartialEq, Eq)]
pub enum PriceRequest {
    /// The chain id of the connected node.
    ChainId,
    /// The price service's estimate for the given network.
    OraclePrice(Chain),
    /// The connected node's own suggested price.
    NodeGasPrice,
}

/// Where a price query stands: what it has asked for and not yet heard.
#[derive(Clone, Copy, Debug, PartialEq, Eq)]
pub enum Pricing {
    /// The node's chain id, to tell the price service which network is meant.
    ResolvingChain,
    /// The price itself, from whichever source was asked.
    FetchingPrice,
}

/// What a price query does once a reply is in.
#[derive(Debug, PartialEq, Eq)]
pub enum PriceStep<E> {
    /// It needs more: make the request and hand the reply to the new state.
    Ask(Pricing, PriceRequest),
    /// It is done, with this price.
    Price(U256),
    /// It failed on what a reply held.
    Error(GravityError),
    /// It failed because a request did; the failure is handed on as it came.
    Upstream(E),
}

/// How a price query starts: with a credential by asking for the chain id,
/// without one by asking the node for its price.
pub open spec fn price_start(has_credential: bool) -> (Pricing, PriceRequest) {
    if has_credential {
        (Pricing::ResolvingChain, PriceRequest::ChainId)
    } else {
        (Pricing::FetchingPrice, PriceRequest::NodeGasPrice)
    }
}

impl Pricing {
    /// Starts a price query, given whether there is a credential for the
    /// price service: returns the state it is in and its first request.
    pub fn start(has_credential: bool) -> (start: (Pricing, PriceRequest))
        ensures
            start == price_start(has_credential),
    {
        if has_credential {
            (Pricing::ResolvingChain, PriceRequest::ChainId)
        } else {
            (Pricing::FetchingPrice, PriceRequest::NodeGasPrice)
        }
    }

    /// What follows from a reply in this state.
    ///
    /// A failed request ends the query with that failure. A chain id that
    /// fits in 64 bits leads to the price service, asked about the network
    /// of that id; a larger one ends the query as bad data. A price ends the
    /// query: it is the result, unchanged.
    pub open spec fn next<E>(self, reply: Result<U256, E>) -> PriceStep<E> {
        match reply {
            Err(failure) => PriceStep::Upstream(failure),
            Ok(quantity) => match self {
                Pricing::ResolvingChain => if quantity@ <= u64::MAX {
                    PriceStep::Ask(
                        Pricing::FetchingPrice,
                        PriceRequest::OraclePrice(chain_of_id(quantity@)),
                    )
                } else {
                    PriceStep::Error(GravityError::EthereumBadDataError { chain_id: quantity })
                },
                Pricing::FetchingPrice => PriceStep::Price(quantity),
            },
        }
    }

    /// Takes the reply to the pending request and says what to do next.
    pub fn step<E>(self, reply: Result<U256, E>) -> (step: PriceStep<E>)
        ensures
            step == self.next(reply),
    {
        match reply {
            Err(failure) => PriceStep::Upstream(failure),
            Ok(quantity) => match self {
                Pricing::ResolvingChain => match get_chain(quantity) {
                    Ok(chain) => PriceStep::Ask(
                        Pricing::FetchingPrice,
                        PriceRequest::OraclePrice(chain),
                    ),
                    Err(error) => PriceStep::Error(error),
                },
                Pricing::FetchingPrice => PriceStep::Price(quantity),
            },
        }
    }
}

/// Starts a price query: returns the state it is in and its first request.
///
/// With a credential the query goes to the price service, and first asks the
/// node which chain it is on. Without one it asks the node for its price and
/// nothing else.
pub fn get_gas_price(config: &OracleConfig) -> (start: (Pricing, PriceRequest))
    ensures
        start == price_start(config.price_service_credential is Some),
{
    Pricing::start(config.price_service_credential.is_some())
}

/// Without a credential a price query asks the node for its price, asks for
/// nothing else, and ends with the price that the node gave, as it gave it.
pub proof fn lemma_no_credential_node_price<E>(price: U256)
    ensures
        price_start(false) == (Pricing::FetchingPrice, PriceRequest::NodeGasPrice),
        price_start(false).0.next(Ok::<U256, E>(price)) == PriceStep::<E>::Price(price),
{
}

/// With a credential a price query asks the price service about the network
/// that the node's chain id names, and ends with the service's estimate.
pub proof fn lemma_credential_oracle_price<E>(chain_id: U256, estimate: U256)
    requires
        chain_id@ <= u64::MAX,
    ensures
        price_start(true) == (Pricing::ResolvingChain, PriceRequest::ChainId),
        price_start(true).0.next(Ok::<U256, E>(chain_id)) == PriceStep::<E>::Ask(
            Pricing::FetchingPrice,
            PriceRequest::OraclePrice(chain_of_id(chain_id@)),
        ),
        Pricing::FetchingPrice.next(Ok::<U256, E>(estimate)) == PriceStep::<E>::Price(estimate),
{
}

/// A price query never retries: whatever it waits for, a failed request ends
/// it, with the failure as it came.
pub proof fn lemma_price_failure_is_final<E>(state: Pricing, failure: E)
    ensures
        state.next(Err::<U256, E>(failure)) == PriceStep::<E>::Upstream(failure),
{
}

} // verus!
