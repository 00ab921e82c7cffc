use ethereum_gravity::chain::{get_chain, Chain};
use ethereum_gravity::error::GravityError;
use ethereum_gravity::uint::U256;

#[test]
fn chain_one_is_mainnet() {
    assert_eq!(get_chain(U256::from_u64(1)), Ok(Chain::Mainnet));
}

#[test]
fn chain_three_is_ropsten() {
    assert_eq!(get_chain(U256::from_u64(3)), Ok(Chain::Ropsten));
}

#[test]
fn chain_four_is_rinkeby() {
    assert_eq!(get_chain(U256::from_u64(4)), Ok(Chain::Rinkeby));
}

#[test]
fn chain_five_is_goerli() {
    assert_eq!(get_chain(U256::from_u64(5)), Ok(Chain::Goerli));
}

#[test]
fn chain_forty_two_is_kovan() {
    assert_eq!(get_chain(U256::from_u64(42)), Ok(Chain::Kovan));
}

#[test]
fn unknown_chains_are_mainnet() {
    for id in [0u64, 2, 6, 41, 43, 56, 137, 31337, u64::MAX] {
        assert_eq!(get_chain(U256::from_u64(id)), Ok(Chain::Mainnet));
    }
}

#[test]
fn chain_id_beyond_u64_is_bad_data() {
    let chain_id = U256 { limbs: [1, 1, 0, 0] };
    assert_eq!(get_chain(chain_id), Err(GravityError::EthereumBadDataError { chain_id }));
}

#[test]
fn chain_id_with_low_word_of_a_known_chain_is_still_bad_data() {
    let chain_id = U256 { limbs: [5, 0, 0, 1] };
    assert_eq!(get_chain(chain_id), Err(GravityError::EthereumBadDataError { chain_id }));
}
