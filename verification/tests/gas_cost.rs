use ethereum_gravity::chain::Chain;
use ethereum_gravity::error::GravityError;
use ethereum_gravity::gas::{get_gas_price, GasCost, OracleConfig, PriceRequest, PriceStep, Pricing};
use ethereum_gravity::uint::U256;

fn with_credential() -> OracleConfig {
    OracleConfig { price_service_credential: Some(String::from("key")) }
}

fn without_credential() -> OracleConfig {
    OracleConfig { price_service_credential: None }
}

#[test]
fn total_is_gas_times_price() {
    let cost = GasCost { gas: U256::from_u64(21_000), gas_price: U256::from_u64(30_000_000_000) };
    assert_eq!(cost.get_total(), U256::from_u64(630_000_000_000_000));
}

#[test]
fn total_of_no_gas_is_zero() {
    let cost = GasCost { gas: U256::zero(), gas_price: U256 { limbs: [u64::MAX; 4] } };
    assert_eq!(cost.get_total(), U256::zero());
}

#[test]
fn total_at_no_price_is_zero() {
    let cost = GasCost { gas: U256::from_u64(21_000), gas_price: U256::zero() };
    assert_eq!(cost.get_total(), U256::zero());
}

#[test]
fn total_carries_into_the_next_word() {
    let cost = GasCost { gas: U256::from_u64(u64::MAX), gas_price: U256::from_u64(u64::MAX) };
    // (2^64 - 1)^2 = 2^128 - 2^65 + 1
    assert_eq!(cost.get_total(), U256 { limbs: [1, u64::MAX - 1, 0, 0] });
}

#[test]
fn total_of_wide_factors() {
    let cost = GasCost { gas: U256 { limbs: [0, 1, 0, 0] }, gas_price: U256 { limbs: [0, 0, 3, 0] } };
    assert_eq!(cost.get_total(), U256 { limbs: [0, 0, 0, 3] });
}

#[test]
fn total_agrees_with_ethers() {
    let gas = [0x1234_5678_9abc_def0, 0x0fed_cba9, 0, 0];
    let gas_price = [0xdead_beef_0bad_f00d, 0x1357, 0, 0];
    let expected = ethers::types::U256(gas) * ethers::types::U256(gas_price);
    let cost = GasCost { gas: U256 { limbs: gas }, gas_price: U256 { limbs: gas_price } };
    assert_eq!(cost.get_total().limbs, expected.0);
}

#[test]
fn default_cost_is_nothing() {
    let cost = GasCost::default();
    assert_eq!(cost.gas, U256::zero());
    assert_eq!(cost.gas_price, U256::zero());
    assert_eq!(cost.get_total(), U256::zero());
}

#[test]
fn price_without_credential_asks_the_node() {
    assert_eq!(
        get_gas_price(&without_credential()),
        (Pricing::FetchingPrice, PriceRequest::NodeGasPrice)
    );
    assert_eq!(Pricing::start(false), (Pricing::FetchingPrice, PriceRequest::NodeGasPrice));
}

#[test]
fn price_without_credential_is_the_nodes_price() {
    let (state, _) = get_gas_price(&without_credential());
    let price = U256::from_u64(12_345);
    assert_eq!(state.step::<String>(Ok(price)), PriceStep::Price(price));
}

#[test]
fn price_with_credential_asks_for_the_chain_first() {
    assert_eq!(get_gas_price(&with_credential()), (Pricing::ResolvingChain, PriceRequest::ChainId));
    assert_eq!(Pricing::start(true), (Pricing::ResolvingChain, PriceRequest::ChainId));
}

#[test]
fn price_with_credential_asks_the_service_about_the_chain() {
    let (state, _) = get_gas_price(&with_credential());
    assert_eq!(
        state.step::<String>(Ok(U256::from_u64(4))),
        PriceStep::Ask(Pricing::FetchingPrice, PriceRequest::OraclePrice(Chain::Rinkeby))
    );
    assert_eq!(
        state.step::<String>(Ok(U256::from_u64(1234))),
        PriceStep::Ask(Pricing::FetchingPrice, PriceRequest::OraclePrice(Chain::Mainnet))
    );
}

#[test]
fn price_with_credential_is_the_services_estimate() {
    let estimate = U256 { limbs: [7, 7, 0, 0] };
    assert_eq!(Pricing::FetchingPrice.step::<String>(Ok(estimate)), PriceStep::Price(estimate));
}

#[test]
fn price_query_reports_a_chain_id_beyond_u64() {
    let chain_id = U256 { limbs: [0, 0, 1, 0] };
    assert_eq!(
        Pricing::ResolvingChain.step::<String>(Ok(chain_id)),
        PriceStep::Error(GravityError::EthereumBadDataError { chain_id })
    );
}

#[test]
fn price_query_hands_a_failure_on() {
    let failure = String::from("connection refused");
    assert_eq!(
        Pricing::ResolvingChain.step(Err(failure.clone())),
        PriceStep::Upstream(failure.clone())
    );
    assert_eq!(Pricing::FetchingPrice.step(Err(failure.clone())), PriceStep::Upstream(failure));
}
