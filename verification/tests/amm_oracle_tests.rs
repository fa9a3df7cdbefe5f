use perp_core::amm::{calculate_swap_output, TradeDirection};
use perp_core::constants::{FUNDING_PERIOD, PRECISION};
use perp_core::error::PerpError;
use perp_core::market::{create_market, Market};
use perp_core::validation::{
    validate_market_not_paused, validate_oracle_price, PriceObservation,
};

const P: u128 = 1_000_000_000;

fn pool_market() -> Market {
    create_market(
        0,
        1_000_000 * P,
        50_000_000 * P,
        1000,
        5000,
        100_000,
        50_000,
        [7u8; 32],
        0,
    )
    .unwrap()
}

fn fresh_obs(mantissa: i64, exponent: i32, publish_time: i64) -> PriceObservation {
    PriceObservation { feed_id: [7u8; 32], mantissa, exponent, publish_time }
}

#[test]
fn scenario_long_swap_against_deep_pool() {
    // a billion-unit pool priced at 50
    let base_reserve = 1_000_000_000 * P;
    let quote_reserve = 50_000_000_000 * P;
    let amount = 1000 * P;
    let (new_quote, new_base) =
        calculate_swap_output(amount, base_reserve, quote_reserve, TradeDirection::Long).unwrap();
    assert_eq!(new_base, 999_999_000 * P);
    let k = base_reserve * quote_reserve;
    assert_eq!(new_quote, k / new_base);
    assert_eq!(new_quote, 50_000_050_000_050_000_050);
    // quote cost: 1000 base units at an average price just above 50.00005
    let quote_delta = new_quote - quote_reserve;
    assert_eq!(quote_delta, 50_000_050_000_050);
}

#[test]
fn swap_product_never_exceeds_k_and_reserves_stay_positive() {
    let cases = [
        (1_000_000 * P, 50_000_000 * P, 1000 * P, TradeDirection::Long),
        (1_000_000 * P, 50_000_000 * P, 1000 * P, TradeDirection::Short),
        (7, 13, 3, TradeDirection::Long),
        (7, 13, 3, TradeDirection::Short),
        (999, 1, 998, TradeDirection::Long),
    ];
    for (b, q, a, dir) in cases {
        let (nq, nb) = calculate_swap_output(a, b, q, dir).unwrap();
        assert!(nb >= 1);
        assert!(nq >= 1);
        assert!(nb * nq <= b * q);
    }
}

#[test]
fn swap_refuses_empty_pool() {
    assert_eq!(
        calculate_swap_output(10, 0, 50, TradeDirection::Long),
        Err(PerpError::UnhealthyMarketState)
    );
    assert_eq!(
        calculate_swap_output(10, 50, 0, TradeDirection::Short),
        Err(PerpError::UnhealthyMarketState)
    );
}

#[test]
fn swap_refuses_draining_the_quote_reserve() {
    // a short so large that k / new_base truncates to zero must not leave an
    // emptied pool behind
    assert_eq!(
        calculate_swap_output(1, 1, 1, TradeDirection::Short),
        Err(PerpError::UnhealthyMarketState)
    );
    assert_eq!(
        calculate_swap_output(10, 2, 3, TradeDirection::Short),
        Err(PerpError::UnhealthyMarketState)
    );
}

#[test]
fn swap_refuses_draining_the_base_reserve() {
    assert_eq!(
        calculate_swap_output(50, 50, 1000, TradeDirection::Long),
        Err(PerpError::UnhealthyMarketState)
    );
    assert_eq!(
        calculate_swap_output(51, 50, 1000, TradeDirection::Long),
        Err(PerpError::UnhealthyMarketState)
    );
}

#[test]
fn swap_overflow_is_reported() {
    assert_eq!(
        calculate_swap_output(1, u128::MAX, 2, TradeDirection::Long),
        Err(PerpError::MathOverflow)
    );
    assert_eq!(
        calculate_swap_output(u128::MAX, u128::MAX - 1, 1, TradeDirection::Short),
        Err(PerpError::MathOverflow)
    );
}

#[test]
fn mark_price_of_deep_pool_is_fifty() {
    let market = pool_market();
    assert_eq!(market.get_mark_price().unwrap(), 50 * P);
}

#[test]
fn mark_price_of_degenerate_pool_is_zero() {
    let mut market = pool_market();
    market.amm_base_asset_reserve = 0;
    assert_eq!(market.get_mark_price().unwrap(), 0);
}

#[test]
fn mark_price_overflow_is_math_overflow() {
    let mut market = pool_market();
    market.amm_quote_asset_reserve = u128::MAX;
    assert_eq!(market.get_mark_price(), Err(PerpError::MathOverflow));
}

#[test]
fn create_market_rejects_bad_parameters() {
    let r = create_market(0, 0, 50, 0, 0, 2, 1, [0u8; 32], 0);
    assert_eq!(r.err(), Some(PerpError::InvalidCalculation));
    let r = create_market(0, 50, 50, 0, 0, 1, 1, [0u8; 32], 0);
    assert_eq!(r.err(), Some(PerpError::InvalidCalculation));
    let r = create_market(0, u128::MAX, 2, 0, 0, 2, 1, [0u8; 32], 0);
    assert_eq!(r.err(), Some(PerpError::MathOverflow));
}

#[test]
fn create_market_fixes_the_reserve_product() {
    let market = pool_market();
    assert_eq!(market.amm_k_constant, 1_000_000 * P * 50_000_000 * P);
    assert_eq!(market.funding_period, FUNDING_PERIOD);
    assert!(!market.paused);
}

#[test]
fn oracle_price_is_normalized_to_price_precision() {
    // 1234.56 reported as mantissa 123456 with exponent -2
    let obs = fresh_obs(123_456, -2, 100);
    assert_eq!(validate_oracle_price(&obs, 100).unwrap(), 1_234_560_000_000);
    // a plain integer price
    let obs = fresh_obs(50, 0, 100);
    assert_eq!(validate_oracle_price(&obs, 100).unwrap(), 50 * P);
}

#[test]
fn oracle_observation_at_the_threshold_is_still_fresh() {
    let obs = fresh_obs(50, 0, 40);
    assert_eq!(validate_oracle_price(&obs, 100).unwrap(), 50 * P);
}

#[test]
fn stale_oracle_observation_is_rejected() {
    let obs = fresh_obs(50, 0, 39);
    assert_eq!(validate_oracle_price(&obs, 100), Err(PerpError::StaleOraclePrice));
}

#[test]
fn upscaled_or_negative_oracle_price_is_rejected() {
    let obs = fresh_obs(50, 1, 100);
    assert_eq!(validate_oracle_price(&obs, 100), Err(PerpError::InvalidOraclePrice));
    let obs = fresh_obs(-50, 0, 100);
    assert_eq!(validate_oracle_price(&obs, 100), Err(PerpError::InvalidOraclePrice));
}

#[test]
fn oracle_scale_factor_overflow_is_reported() {
    let obs = fresh_obs(50, -39, 100);
    assert_eq!(validate_oracle_price(&obs, 100), Err(PerpError::MathOverflow));
}

#[test]
fn tiny_mantissa_with_deep_exponent_truncates_to_zero() {
    let obs = fresh_obs(1, -30, 100);
    assert_eq!(validate_oracle_price(&obs, 100).unwrap(), 0);
}

#[test]
fn paused_market_is_refused() {
    let mut market = pool_market();
    assert_eq!(validate_market_not_paused(&market), Ok(()));
    market.paused = true;
    assert_eq!(validate_market_not_paused(&market), Err(PerpError::MarketPaused));
}

#[test]
fn precision_constants_are_consistent() {
    assert_eq!(PRECISION, P);
    assert_eq!(PRECISION / perp_core::constants::COLLATERAL_PRECISION as u128, 1000);
}
