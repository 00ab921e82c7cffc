use ethereum_gravity::call::{vec_u8_to_fixed_32, Address, ContractCall, Method, NonceKind};
use ethereum_gravity::error::GravityError;
use ethereum_gravity::uint::U256;

fn address(fill: u8) -> Address {
    Address { bytes: [fill; 20] }
}

#[test]
fn thirty_two_bytes_narrow_in_order() {
    let bytes: Vec<u8> = (0u8..32).collect();
    let id = vec_u8_to_fixed_32(bytes.clone()).unwrap();
    assert_eq!(id.to_vec(), bytes);
    assert_eq!(id[0], 0);
    assert_eq!(id[1], 1);
    assert_eq!(id[31], 31);
}

#[test]
fn empty_bytes_do_not_narrow() {
    assert_eq!(
        vec_u8_to_fixed_32(Vec::new()),
        Err(GravityError::InvalidArgumentError { raw: Vec::new() })
    );
}

#[test]
fn thirty_one_bytes_do_not_narrow() {
    let bytes = vec![9u8; 31];
    assert_eq!(
        vec_u8_to_fixed_32(bytes.clone()),
        Err(GravityError::InvalidArgumentError { raw: bytes })
    );
}

#[test]
fn thirty_three_bytes_do_not_narrow() {
    let bytes: Vec<u8> = (100u8..133).collect();
    assert_eq!(
        vec_u8_to_fixed_32(bytes.clone()),
        Err(GravityError::InvalidArgumentError { raw: bytes })
    );
}

#[test]
fn every_other_length_is_refused() {
    for length in 0usize..100 {
        let bytes = vec![0xabu8; length];
        let narrowed = vec_u8_to_fixed_32(bytes.clone());
        if length == 32 {
            assert_eq!(narrowed, Ok([0xab; 32]));
        } else {
            assert_eq!(narrowed, Err(GravityError::InvalidArgumentError { raw: bytes }));
        }
    }
}

#[test]
fn a_read_sends_nothing_and_leaves_gas_open() {
    let call = ContractCall::read(address(1), address(2), Method::StateLastEventNonce);
    assert_eq!(call.to, address(1));
    assert_eq!(call.from, address(2));
    assert_eq!(call.value, U256::zero());
    assert_eq!(call.method, Method::StateLastEventNonce);
    assert_eq!(call.gas, None);
    assert_eq!(call.gas_price, None);
}

#[test]
fn gas_and_price_are_set_apart() {
    let call = ContractCall::read(address(1), address(2), Method::StateGravityId);
    let with_gas = call.gas(U256::from_u64(50_000));
    assert_eq!(with_gas, ContractCall { gas: Some(U256::from_u64(50_000)), ..call });
    let priced = with_gas.gas_price(U256::from_u64(3));
    assert_eq!(priced, ContractCall { gas_price: Some(U256::from_u64(3)), ..with_gas });
}

#[test]
fn methods_name_their_counters() {
    assert_eq!(Method::StateLastValsetNonce.kind(), Some(NonceKind::Valset));
    assert_eq!(Method::LastBatchNonce(address(3)).kind(), Some(NonceKind::TxBatch));
    assert_eq!(Method::LastLogicCallNonce([0; 32]).kind(), Some(NonceKind::LogicCall));
    assert_eq!(Method::StateLastEventNonce.kind(), Some(NonceKind::Event));
    assert_eq!(Method::StateGravityId.kind(), None);
}

#[test]
fn each_counter_halts_in_its_own_words() {
    assert_eq!(NonceKind::Valset.halt_message(), "Valset nonce overflow! Bridge Halt!");
    assert_eq!(NonceKind::TxBatch.halt_message(), "TxBatch nonce overflow! Bridge Halt!");
    assert_eq!(NonceKind::LogicCall.halt_message(), "LogicCall nonce overflow! Bridge Halt!");
    assert_eq!(NonceKind::Event.halt_message(), "EventNonce nonce overflow! Bridge Halt!");
}
