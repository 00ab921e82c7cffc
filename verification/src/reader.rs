//! Reading the bridge contract's state.
//!
//! Every read follows one protocol. The call is put together: to the bridge
//! contract, in the caller's name, sending nothing. The node estimates the
//! gas that the call would use. A gas price is obtained, as a price query
//! obtains it. Then the call is made, with that gas at that price, and what
//! it returns is decoded. A request that fails ends the read.
//!
//! A [`Read`] is a read under way. It is started by one of the `get_`
//! functions, which hand out the first request with it. The caller makes
//! the request and hands the reply to [`Read::step`], which says what
//! comes next, until the read ends.

use crate::call::{vec_u8_to_fixed_32, Address, ContractCall, Method, NonceKind};
use crate::error::GravityError;
use crate::gas::{price_start, OracleConfig, PriceRequest, PriceStep, Pricing};
use crate::uint::{downcast_to_u64, U256};
use vstd::prelude::*;
use vstd::utf8::{decode_utf8, valid_utf8};

verus! {

/// What a read needs from outside next.
#[derive(Clone, Copy, Debug, PartialEq, Eq)]
pub enum Request {
    /// The node's estimate of the gas that this call would use.
    EstimateGas(ContractCall),
    /// What the price query asks for.
    Price(PriceRequest),
    /// What this call returns when it is made against the current state.
    Call(ContractCall),
}

/// What came back for a request.
#[derive(Debug, PartialEq, Eq)]
pub enum Reply<E> {
    /// A number: a gas estimate, a chain id, a price, or a nonce.
    Quantity(U256),
    /// Bytes: the gravity id as the contract holds it.
    Data(Vec<u8>),
    /// The request failed.
    Failed(E),
}

/// The part of the protocol that a read is in: what it has asked for and not
/// yet heard.
#[derive(Clone, Copy, Debug, PartialEq, Eq)]
pub enum Stage {
    /// The gas estimate.
    EstimatingGas,
    /// A reply for the price query, which is in the given state.
    Pricing(Pricing),
    /// What the call returns.
    Executing,
}

/// A read under way.
#[derive(Clone, Copy, Debug, PartialEq, Eq)]
pub struct Read {
    /// The call, with as much of its gas and price as is known so far.
    pub call: ContractCall,
    /// Whether there is a credential for the price service.
    pub has_credential: bool,
    /// How far the read has come.
    pub stage: Stage,
}

/// What a read does once a reply is in.
#[derive(Debug, PartialEq, Eq)]
pub enum Step<E> {
    /// It needs more: make the request and hand the reply to the new state.
    Ask(Read, Request),
    /// It is done: the contract's counter stands at this nonce.
    Nonce(u64),
    /// It is done: this is the contract's gravity id.
    GravityId(String),
    /// It failed on what a reply held.
    Error(GravityError),
    /// It failed because a request did; the failure is handed on as it came.
    Upstream(E),
    /// The counter of this kind does not fit in 64 bits. The bridge cannot
    /// go on with such a nonce: the caller is to halt.
    Halt(NonceKind),
}

/// Decodes bytes as UTF-8 with `String::from_utf8`. For bytes that are valid
/// UTF-8 the standard library returns the string that they encode; for any
/// others it returns an error, which is dropped here.
#[verifier::external_body]
fn string_from_utf8(bytes: Vec<u8>) -> (decoded: Option<String>)
    ensures
        valid_utf8(bytes@) ==> decoded is Some && decoded->0@ == decode_utf8(bytes@),
        !valid_utf8(bytes@) ==> decoded is None,
{
    match String::from_utf8(bytes) {
        Ok(text) => Some(text),
        Err(_) => None,
    }
}

impl Read {
    /// Whether the read is one that the protocol can reach: it sends no
    /// ether, the call's gas is known once the estimate is in and not
    /// before, its price is known once the price query is done and not
    /// before, and the chain id is asked for only with a credential.
    pub open spec fn wf(self) -> bool {
        &&& self.call.value@ == 0
        &&& match self.stage {
            Stage::EstimatingGas => self.call.gas is None && self.call.gas_price is None,
            Stage::Pricing(pricing) => {
                &&& self.call.gas is Some
                &&& self.call.gas_price is None
                &&& pricing is ResolvingChain ==> self.has_credential
            },
            Stage::Executing => self.call.gas is Some && self.call.gas_price is Some,
        }
    }

    /// How a read of `method` starts: in the first stage, with the call put
    /// together and the request to estimate its gas.
    pub open spec fn begin(
        to: Address,
        from: Address,
        method: Method,
        has_credential: bool,
    ) -> (Read, Request) {
        let call = ContractCall::read_of(to, from, method);
        (Read { call, has_credential, stage: Stage::EstimatingGas }, Request::EstimateGas(call))
    }

    /// The read once its gas estimate is in: the estimate is the call's gas,
    /// and the price query has started.
    pub open spec fn estimated(self, gas: U256) -> Read {
        Read {
            call: self.call.with_gas(gas),
            stage: Stage::Pricing(price_start(self.has_credential).0),
            ..self
        }
    }

    /// The read once its price is in: the price is the call's gas price, and
    /// the call is being made.
    pub open spec fn priced(self, gas_price: U256) -> Read {
        Read { call: self.call.with_gas_price(gas_price), stage: Stage::Executing, ..self }
    }

    /// Whether `step` is what follows from `reply` in this state.
    ///
    /// * A failed request ends the read with that failure, at any stage.
    /// * The gas estimate becomes the call's gas, and the price query starts.
    /// * A reply for the price query is the price query's to judge. If it asks
    ///   for more, so does the read. Its price becomes the call's gas price,
    ///   and the read asks for the call to be made. Its error ends the read.
    /// * What the call returns ends the read. For a counter it is a quantity:
    ///   one that fits in 64 bits is the nonce, a larger one halts the
    ///   bridge. For the gravity id it is bytes: valid UTF-8 is the id, decoded,
    ///   and anything else is an error that holds the bytes.
    /// * A reply of the wrong shape for its stage ends the read with
    ///   `UnexpectedReply`.
    pub open spec fn leads_to<E>(self, reply: Reply<E>, step: Step<E>) -> bool {
        match reply {
            Reply::Failed(failure) => step == Step::Upstream(failure),
            Reply::Quantity(quantity) => match self.stage {
                Stage::EstimatingGas => step == Step::<E>::Ask(
                    self.estimated(quantity),
                    Request::Price(price_start(self.has_credential).1),
                ),
                Stage::Pricing(pricing) => match pricing.next(Ok::<U256, E>(quantity)) {
                    PriceStep::Ask(then, request) => step == Step::<E>::Ask(
                        (Read { stage: Stage::Pricing(then), ..self }),
                        Request::Price(request),
                    ),
                    PriceStep::Price(price) => step == Step::<E>::Ask(
                        self.priced(price),
                        Request::Call(self.priced(price).call),
                    ),
                    PriceStep::Error(error) => step == Step::<E>::Error(error),
                    PriceStep::Upstream(failure) => step == Step::Upstream(failure),
                },
                Stage::Executing => match self.call.method.nonce_kind() {
                    Some(kind) => if quantity@ <= u64::MAX {
                        step == Step::<E>::Nonce(quantity@ as u64)
                    } else {
                        step == Step::<E>::Halt(kind)
                    },
                    None => step == Step::<E>::Error(GravityError::UnexpectedReply),
                },
            },
            Reply::Data(bytes) => if self.stage is Executing && self.call.method is StateGravityId {
                if valid_utf8(bytes@) {
                    &&& step matches Step::GravityId(id)
                    &&& id@ == decode_utf8(bytes@)
                } else {
                    step == Step::<E>::Error(GravityError::GravityContractError { raw: bytes })
                }
            } else {
                step == Step::<E>::Error(GravityError::UnexpectedReply)
            },
        }
    }

    /// Starts a read of `method` on the contract at `to`, in the name of
    /// `from`.
    fn start(to: Address, from: Address, method: Method, config: &OracleConfig) -> (start: (
        Read,
        Request,
    ))
        ensures
            start == Read::begin(to, from, method, config.price_service_credential is Some),
            start.0.wf(),
    {
        let call = ContractCall::read(to, from, method);
        let has_credential = config.price_service_credential.is_some();
        (Read { call, has_credential, stage: Stage::EstimatingGas }, Request::EstimateGas(call))
    }

    /// Takes the reply to the pending request and says what to do next.
    pub fn step<E>(self, reply: Reply<E>) -> (step: Step<E>)
        ensures
            self.leads_to(reply, step),
            self.wf() ==> (step matches Step::Ask(next, _) ==> next.wf()),
    {
        match reply {
            Reply::Failed(failure) => Step::Upstream(failure),
            Reply::Quantity(quantity) => match self.stage {
                Stage::EstimatingGas => {
                    let (pricing, request) = Pricing::start(self.has_credential);
                    Step::Ask(
                        Read {
                            call: self.call.gas(quantity),
                            has_credential: self.has_credential,
                            stage: Stage::Pricing(pricing),
                        },
                        Request::Price(request),
                    )
                },
                Stage::Pricing(pricing) => match pricing.step(Ok(quantity)) {
                    PriceStep::Ask(then, request) => Step::Ask(
                        Read {
                            call: self.call,
                            has_credential: self.has_credential,
                            stage: Stage::Pricing(then),
                        },
                        Request::Price(request),
                    ),
                    PriceStep::Price(price) => {
                        let call = self.call.gas_price(price);
                        Step::Ask(
                            Read {
                                call,
                                has_credential: self.has_credential,
                                stage: Stage::Executing,
                            },
                            Request::Call(call),
                        )
                    },
                    PriceStep::Error(error) => Step::Error(error),
                    PriceStep::Upstream(failure) => Step::Upstream(failure),
                },
                Stage::Executing => match self.call.method.kind() {
                    Some(kind) => match downcast_to_u64(quantity) {
                        Some(nonce) => Step::Nonce(nonce),
                        None => Step::Halt(kind),
                    },
                    None => Step::Error(GravityError::UnexpectedReply),
                },
            },
            Reply::Data(bytes) => match (self.stage, self.call.method) {
                (Stage::Executing, Method::StateGravityId) => {
                    let copy = bytes.clone();
                    assert(copy@ =~= bytes@);
                    match string_from_utf8(copy) {
                        Some(id) => Step::GravityId(id),
                        None => Step::Error(GravityError::GravityContractError { raw: bytes }),
                    }
                },
                _ => Step::Error(GravityError::UnexpectedReply),
            },
        }
    }
}

/// Starts a read of the nonce of the last validator set that the bridge
/// contract at `gravity_contract_address` has applied, in the name of
/// `from`.
pub fn get_valset_nonce(
    gravity_contract_address: Address,
    from: Address,
    config: &OracleConfig,
) -> (start: (Read, Request))
    ensures
        start == Read::begin(
            gravity_contract_address,
            from,
            Method::StateLastValsetNonce,
            config.price_service_credential is Some,
        ),
        start.0.wf(),
{
    Read::start(gravity_contract_address, from, Method::StateLastValsetNonce, config)
}

/// Starts a read of the nonce of the last batch that the bridge contract has
/// applied for the token at `erc20_contract_address`.
pub fn get_tx_batch_nonce(
    gravity_contract_address: Address,
    erc20_contract_address: Address,
    from: Address,
    config: &OracleConfig,
) -> (start: (Read, Request))
    ensures
        start == Read::begin(
            gravity_contract_address,
            from,
            Method::LastBatchNonce(erc20_contract_address),
            config.price_service_credential is Some,
        ),
        start.0.wf(),
{
    Read::start(
        gravity_contract_address,
        from,
        Method::LastBatchNonce(erc20_contract_address),
        config,
    )
}

/// Starts a read of the nonce of the last logic call that the bridge
/// contract has applied under `invalidation_id`.
///
/// The id has to be 32 bytes long. Any other is refused before anything is
/// asked of the node, and handed back in the error.
pub fn get_logic_call_nonce(
    gravity_contract_address: Address,
    invalidation_id: Vec<u8>,
    from: Address,
    config: &OracleConfig,
) -> (start: Result<(Read, Request), GravityError>)
    ensures
        match start {
            Ok(begun) => {
                &&& invalidation_id@.len() == 32
                &&& begun.0.call.method matches Method::LastLogicCallNonce(id)
                &&& id@ == invalidation_id@
                &&& begun == Read::begin(
                    gravity_contract_address,
                    from,
                    Method::LastLogicCallNonce(id),
                    config.price_service_credential is Some,
                )
                &&& begun.0.wf()
            },
            Err(error) => {
                &&& invalidation_id@.len() != 32
                &&& error == (GravityError::InvalidArgumentError { raw: invalidation_id })
            },
        },
{
    match vec_u8_to_fixed_32(invalidation_id) {
        Ok(id) => Ok(
            Read::start(gravity_contract_address, from, Method::LastLogicCallNonce(id), config),
        ),
        Err(error) => Err(error),
    }
}

/// Starts a read of the nonce of the last event that the bridge contract
/// has emitted.
pub fn get_event_nonce(
    gravity_contract_address: Address,
    from: Address,
    config: &OracleConfig,
) -> (start: (Read, Request))
    ensures
        start == Read::begin(
            gravity_contract_address,
            from,
            Method::StateLastEventNonce,
            config.price_service_credential is Some,
        ),
        start.0.wf(),
{
    Read::start(gravity_contract_address, from, Method::StateLastEventNonce, config)
}

/// Starts a read of the bridge contract's gravity id.
pub fn get_gravity_id(
    gravity_contract_address: Address,
    from: Address,
    config: &OracleConfig,
) -> (start: (Read, Request))
    ensures
        start == Read::begin(
            gravity_contract_address,
            from,
            Method::StateGravityId,
            config.price_service_credential is Some,
        ),
        start.0.wf(),
{
    Read::start(gravity_contract_address, from, Method::StateGravityId, config)
}

/// A read starts out well-formed, by asking for the gas estimate of the call
/// that it is about: to the given contract, from the given account, sending
/// nothing.
pub proof fn lemma_begin_wf(to: Address, from: Address, method: Method, has_credential: bool)
    ensures
        Read::begin(to, from, method, has_credential).0.wf(),
        Read::begin(to, from, method, has_credential).1 == Request::EstimateGas(
            ContractCall::read_of(to, from, method),
        ),
        ContractCall::read_of(to, from, method).to == to,
        ContractCall::read_of(to, from, method).from == from,
        ContractCall::read_of(to, from, method).value@ == 0,
{
}

/// A step keeps a read well-formed, and keeps what the read is about: the
/// contract, the caller, the method and the credential never change. The
/// call is only ever asked to be made with its gas and its price set, and
/// as the read holds it.
pub proof fn lemma_step_keeps_wf<E>(read: Read, reply: Reply<E>, step: Step<E>)
    requires
        read.wf(),
        read.leads_to(reply, step),
    ensures
        step matches Step::Ask(next, request) ==> {
            &&& next.wf()
            &&& next.call.to == read.call.to
            &&& next.call.from == read.call.from
            &&& next.call.method == read.call.method
            &&& next.has_credential == read.has_credential
            &&& request matches Request::Call(call) ==> {
                &&& call == next.call
                &&& call.gas is Some
                &&& call.gas_price is Some
                &&& next.stage is Executing
            }
        },
{
}

impl Read {
    /// How many replies the read can take at most before it ends.
    pub open spec fn replies_left(self) -> nat {
        match self.stage {
            Stage::EstimatingGas => 4,
            Stage::Pricing(Pricing::ResolvingChain) => 3,
            Stage::Pricing(Pricing::FetchingPrice) => 2,
            Stage::Executing => 1,
        }
    }
}

/// Every read ends. A step that asks for more leaves a read that is closer
/// to its end, so no read takes more than four replies, and none that is
/// started without a credential more than three.
pub proof fn lemma_step_comes_closer<E>(read: Read, reply: Reply<E>, step: Step<E>)
    requires
        read.leads_to(reply, step),
    ensures
        step matches Step::Ask(next, _) ==> {
            &&& next.replies_left() < read.replies_left()
            &&& read.stage is EstimatingGas && !read.has_credential ==> next.replies_left() == 2
        },
{
}

/// A read never retries: at any stage a failed request ends it, with the
/// failure as it came.
pub proof fn lemma_failure_is_final<E>(read: Read, failure: E, step: Step<E>)
    requires
        read.leads_to(Reply::Failed(failure), step),
    ensures
        step == Step::Upstream(failure),
{
}

/// Whether the read has no credential and is not waiting for a chain id:
/// the states of a read that does without the price service.
pub open spec fn avoids_price_service(read: Read) -> bool {
    !read.has_credential && read.stage != Stage::Pricing(Pricing::ResolvingChain)
}

/// A read that was started without a credential never asks for the chain id
/// nor for the price service's estimate, however far it goes and whatever
/// the replies are.
pub proof fn lemma_no_credential_never_asks_service<E>(
    to: Address,
    from: Address,
    method: Method,
    read: Read,
    reply: Reply<E>,
    step: Step<E>,
)
    requires
        avoids_price_service(read),
        read.leads_to(reply, step),
    ensures
        avoids_price_service(Read::begin(to, from, method, false).0),
        step matches Step::Ask(next, request) ==> {
            &&& avoids_price_service(next)
            &&& request != Request::Price(PriceRequest::ChainId)
            &&& !(request matches Request::Price(PriceRequest::OraclePrice(_)))
        },
{
}

/// The whole of a read without a credential. It asks for the gas estimate,
/// then for the node's price, then for the call to be made with that gas at
/// that price; nothing else is asked.
pub proof fn lemma_read_with_node_price<E>(
    to: Address,
    from: Address,
    method: Method,
    gas: U256,
    gas_price: U256,
    first: Step<E>,
    second: Step<E>,
)
    requires
        Read::begin(to, from, method, false).0.leads_to(Reply::Quantity(gas), first),
        first matches Step::Ask(next, _) ==> next.leads_to(Reply::Quantity(gas_price), second),
    ensures
        first matches Step::Ask(_, request) && request == Request::Price(
            PriceRequest::NodeGasPrice,
        ),
        second matches Step::Ask(next, request) && next.stage is Executing && request
            == Request::Call(
            ContractCall::read_of(to, from, method).with_gas(gas).with_gas_price(gas_price),
        ),
{
}

/// The whole of a read with a credential. It asks for the gas estimate, then
/// for the chain id, then for the price service's estimate for the network
/// of that id, then for the call to be made with that gas at that price. A
/// chain id that does not fit in 64 bits ends the read as bad data.
pub proof fn lemma_read_with_service_price<E>(
    to: Address,
    from: Address,
    method: Method,
    gas: U256,
    chain_id: U256,
    gas_price: U256,
    first: Step<E>,
    second: Step<E>,
    third: Step<E>,
)
    requires
        Read::begin(to, from, method, true).0.leads_to(Reply::Quantity(gas), first),
        first matches Step::Ask(next, _) ==> next.leads_to(Reply::Quantity(chain_id), second),
        second matches Step::Ask(next, _) ==> next.leads_to(Reply::Quantity(gas_price), third),
    ensures
        first matches Step::Ask(_, request) && request == Request::Price(PriceRequest::ChainId),
        chain_id@ > u64::MAX ==> second == Step::<E>::Error(
            GravityError::EthereumBadDataError { chain_id },
        ),
        chain_id@ <= u64::MAX ==> {
            &&& second matches Step::Ask(_, request) && request == Request::Price(
                PriceRequest::OraclePrice(crate::chain::chain_of_id(chain_id@)),
            )
            &&& third matches Step::Ask(next, request) && next.stage is Executing && request
                == Request::Call(
                ContractCall::read_of(to, from, method).with_gas(gas).with_gas_price(gas_price),
            )
        },
{
}

/// What the call returns for a counter decides the read: a quantity that
/// fits in 64 bits is the nonce, with the same value, and a larger one
/// halts the bridge, naming the counter.
pub proof fn lemma_nonce_or_halt<E>(read: Read, kind: NonceKind, returned: U256, step: Step<E>)
    requires
        read.stage is Executing,
        read.call.method.nonce_kind() == Some(kind),
        read.leads_to(Reply::Quantity(returned), step),
    ensures
        returned@ <= u64::MAX ==> step == Step::<E>::Nonce(returned@ as u64),
        returned@ > u64::MAX ==> step == Step::<E>::Halt(kind),
{
}

/// What the call returns for the gravity id decides the read: bytes that
/// are valid UTF-8 are the id, decoded, and any others are reported as the
/// contract's error, with the bytes as they came.
pub proof fn lemma_gravity_id_or_error<E>(read: Read, returned: Vec<u8>, step: Step<E>)
    requires
        read.stage is Executing,
        read.call.method is StateGravityId,
        read.leads_to(Reply::Data(returned), step),
    ensures
        valid_utf8(returned@) ==> {
            &&& step matches Step::GravityId(id)
            &&& id@ == decode_utf8(returned@)
        },
        !valid_utf8(returned@) ==> step == Step::<E>::Error(
            GravityError::GravityContractError { raw: returned },
        ),
{
}

/// Reads keep the order of what the contract returns. A read has no state
/// but its own, so two reads of a counter never interfere; and where the
/// counter did not go down between the two calls, neither do the nonces
/// that the reads end with.
pub proof fn lemma_nonces_keep_order<E>(
    earlier: Read,
    later: Read,
    lower: U256,
    higher: U256,
    first: Step<E>,
    second: Step<E>,
)
    requires
        earlier.stage is Executing,
        later.stage is Executing,
        earlier.call.method.nonce_kind() is Some,
        later.call.method.nonce_kind() is Some,
        lower@ <= higher@ <= u64::MAX,
        earlier.leads_to(Reply::Quantity(lower), first),
        later.leads_to(Reply::Quantity(higher), second),
    ensures
        first matches Step::Nonce(low) && second matches Step::Nonce(high) && low <= high,
{
}

} // verus!
