//! Calls to the bridge contract, as values: who is called, by whom, which
//! method, and with how much gas at what price.

use crate::error::GravityError;
use crate::uint::U256;
use vstd::prelude::*;

verus! {

/// An Ethereum account or contract: its twenty bytes.
#[derive(Clone, Copy, Debug, PartialEq, Eq)]
pub struct Address {
    pub bytes: [u8; 20],
}

/// The counters that the bridge contract keeps, one for each concern.
#[derive(Clone, Copy, Debug, PartialEq, Eq)]
pub enum NonceKind {
    /// The last validator set that was applied.
    Valset,
    /// The last batch that was applied for one token.
    TxBatch,
    /// The last logic call that was applied for one invalidation id.
    LogicCall,
    /// The last event that the bridge emitted.
    Event,
}

impl NonceKind {
    /// The words with which the bridge halts when a counter of this kind
    /// does not fit in 64 bits.
    pub open spec fn halt_text(self) -> Seq<char> {
        match self {
            NonceKind::Valset => "Valset nonce overflow! Bridge Halt!"@,
            NonceKind::TxBatch => "TxBatch nonce overflow! Bridge Halt!"@,
            NonceKind::LogicCall => "LogicCall nonce overflow! Bridge Halt!"@,
            NonceKind::Event => "EventNonce nonce overflow! Bridge Halt!"@,
        }
    }

    /// What to say when the bridge halts over a counter of this kind.
    pub fn halt_message(self) -> (message: &'static str)
        ensures
            message@ == self.halt_text(),
    {
        match self {
            NonceKind::Valset => "Valset nonce overflow! Bridge Halt!",
            NonceKind::TxBatch => "TxBatch nonce overflow! Bridge Halt!",
            NonceKind::LogicCall => "LogicCall nonce overflow! Bridge Halt!",
            NonceKind::Event => "EventNonce nonce overflow! Bridge Halt!",
        }
    }
}

/// A read-only method of the bridge contract, with its arguments.
#[derive(Clone, Copy, Debug, PartialEq, Eq)]
pub enum Method {
    /// The nonce of the last validator set.
    StateLastValsetNonce,
    /// The nonce of the last batch for the token at this address.
    LastBatchNonce(Address),
    /// The nonce of the last logic call under this invalidation id.
    LastLogicCallNonce([u8; 32]),
    /// The nonce of the last event.
    StateLastEventNonce,
    /// The bytes that identify this bridge.
    StateGravityId,
}

impl Method {
    /// The counter that the method reads; none for the gravity id, which is
    /// no counter.
    pub open spec fn nonce_kind(self) -> Option<NonceKind> {
        match self {
            Method::StateLastValsetNonce => Some(NonceKind::Valset),
            Method::LastBatchNonce(_) => Some(NonceKind::TxBatch),
            Method::LastLogicCallNonce(_) => Some(NonceKind::LogicCall),
            Method::StateLastEventNonce => Some(NonceKind::Event),
            Method::StateGravityId => None,
        }
    }

    /// The counter that the method reads, if it reads one.
    pub fn kind(&self) -> (kind: Option<NonceKind>)
        ensures
            kind == self.nonce_kind(),
    {
        match self {
            Method::StateLastValsetNonce => Some(NonceKind::Valset),
            Method::LastBatchNonce(_) => Some(NonceKind::TxBatch),
            Method::LastLogicCallNonce(_) => Some(NonceKind::LogicCall),
            Method::StateLastEventNonce => Some(NonceKind::Event),
            Method::StateGravityId => None,
        }
    }
}

/// A call to a contract that has not been made yet.
#[derive(Clone, Copy, Debug, PartialEq, Eq)]
pub struct ContractCall {
    /// The contract that is called.
    pub to: Address,
    /// The account in whose name the call is made.
    pub from: Address,
    /// The ether sent along.
    pub value: U256,
    /// What is called.
    pub method: Method,
    /// The gas that the call may use, once it is known.
    pub gas: Option<U256>,
    /// The price per unit of gas, once it is known.
    pub gas_price: Option<U256>,
}

impl ContractCall {
    /// A state read as it is first put together: bound to the contract, in
    /// the caller's name, sending nothing, with gas and price still open.
    pub open spec fn read_of(to: Address, from: Address, method: Method) -> ContractCall {
        ContractCall { to, from, value: U256::spec_zero(), method, gas: None, gas_price: None }
    }

    /// Puts together a state read of `method` on the contract at `to`, made in
    /// the name of `from`.
    pub fn read(to: Address, from: Address, method: Method) -> (call: ContractCall)
        ensures
            call == ContractCall::read_of(to, from, method),
            call.value@ == 0,
    {
        ContractCall { to, from, value: U256::zero(), method, gas: None, gas_price: None }
    }

    /// The same call with its gas set.
    pub open spec fn with_gas(self, gas: U256) -> ContractCall {
        ContractCall { gas: Some(gas), ..self }
    }

    /// The same call with its gas price set.
    pub open spec fn with_gas_price(self, gas_price: U256) -> ContractCall {
        ContractCall { gas_price: Some(gas_price), ..self }
    }

    /// Sets the gas that the call may use.
    pub fn gas(self, gas: U256) -> (call: ContractCall)
        ensures
            call == self.with_gas(gas),
    {
        ContractCall { gas: Some(gas), ..self }
    }

    /// Sets the price per unit of gas.
    pub fn gas_price(self, gas_price: U256) -> (call: ContractCall)
        ensures
            call == self.with_gas_price(gas_price),
    {
        ContractCall { gas_price: Some(gas_price), ..self }
    }
}

/// Narrows a byte sequence to an invalidation id, which has exactly 32
/// bytes.
///
/// A sequence of 32 bytes becomes the id with the same bytes in the same
/// order. Any other is refused, and handed back in the error.
pub fn vec_u8_to_fixed_32(bytes: Vec<u8>) -> (id: Result<[u8; 32], GravityError>)
    ensures
        bytes@.len() == 32 ==> id is Ok && id->Ok_0@ == bytes@,
        bytes@.len() != 32 ==> id == Err::<[u8; 32], GravityError>(
            (GravityError::InvalidArgumentError { raw: bytes }),
        ),
{
    if bytes.len() != 32 {
        return Err(GravityError::InvalidArgumentError { raw: bytes });
    }
    let mut id: [u8; 32] = [0u8; 32];
    let mut i: usize = 0;
    while i < 32
        invariant
            i <= 32,
            bytes@.len() == 32,
            forall|k: int| 0 <= k < i ==> id@[k] == bytes@[k],
        decreases 32 - i,
    {
        id[i] = bytes[i];
        i += 1;
    }
    assert(id@ =~= bytes@);
    Ok(id)
}

} // verus!
