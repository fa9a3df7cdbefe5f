use perp_core::error::PerpError;
use perp_core::funding::handle_settle_funding;
use perp_core::market::{create_market, Market};
use perp_core::trade::{handle_close_position, handle_open_position};
use perp_core::user::{Position, User};
use perp_core::validation::PriceObservation;

const P: u128 = 1_000_000_000;
const FEED: [u8; 32] = [7u8; 32];
const NO_LIMIT_LONG: u128 = u128::MAX;

fn deep_market() -> Market {
    create_market(0, 1_000_000 * P, 50_000_000 * P, 1000, 5000, 100_000, 50_000, FEED, 0)
        .unwrap()
}

fn obs(mantissa: i64, publish_time: i64) -> PriceObservation {
    PriceObservation { feed_id: FEED, mantissa, exponent: 0, publish_time }
}

fn funded_user(collateral: u64) -> User {
    let mut user = User::new();
    user.collateral = collateral;
    user
}

#[test]
fn opening_a_long_claims_a_slot_and_moves_the_pool() {
    let mut market = deep_market();
    let mut user = funded_user(100_000 * 1_000_000);
    let r = handle_open_position(&mut user, &mut market, 1000 * P as i128, NO_LIMIT_LONG, &obs(50, 0), 0);
    assert_eq!(r, Ok(()));
    assert_eq!(market.amm_base_asset_reserve, 999_000 * P);
    assert_eq!(market.amm_quote_asset_reserve, 50_050_050_050_050_050);
    assert_eq!(user.positions[0].market_index, 0);
    assert_eq!(user.positions[0].base_asset_amount, 1000 * P as i128);
    assert_eq!(user.positions[0].quote_asset_amount, 50_050_050_050_050);
    assert_eq!(user.collateral, 100_000 * 1_000_000);
}

#[test]
fn round_trip_returns_collateral_and_base_reserve() {
    let mut market = deep_market();
    let mut user = funded_user(100_000 * 1_000_000);
    let amount = 1000 * P as i128;
    handle_open_position(&mut user, &mut market, amount, NO_LIMIT_LONG, &obs(50, 0), 0).unwrap();
    let r = handle_close_position(&mut user, &mut market, 0);
    assert_eq!(r, Ok(()));
    // the pool is back at its base reserve and the trader paid nothing but
    // sub-unit rounding
    assert_eq!(market.amm_base_asset_reserve, 1_000_000 * P);
    assert_eq!(user.collateral, 100_000 * 1_000_000);
    assert_eq!(user.positions[0].base_asset_amount, 0);
    assert_eq!(user.positions[0].quote_asset_amount, 0);
}

#[test]
fn short_round_trip_also_returns_collateral() {
    let mut market = deep_market();
    let mut user = funded_user(100_000 * 1_000_000);
    let amount = -(1000 * P as i128);
    handle_open_position(&mut user, &mut market, amount, 0, &obs(50, 0), 0).unwrap();
    assert!(user.positions[0].base_asset_amount == amount);
    let r = handle_close_position(&mut user, &mut market, 0);
    assert_eq!(r, Ok(()));
    assert_eq!(market.amm_base_asset_reserve, 1_000_000 * P);
    assert_eq!(user.collateral, 100_000 * 1_000_000);
}

#[test]
fn closing_at_a_higher_price_realizes_the_gain() {
    let mut market = deep_market();
    let mut user = funded_user(100_000 * 1_000_000);
    let amount = 1000 * P as i128;
    handle_open_position(&mut user, &mut market, amount, NO_LIMIT_LONG, &obs(50, 0), 0).unwrap();
    // someone else buys 10_000 base units, pushing the price up
    let mut other = funded_user(u64::MAX);
    handle_open_position(&mut other, &mut market, 10_000 * P as i128, NO_LIMIT_LONG, &obs(50, 0), 0)
        .unwrap();
    let before = user.collateral;
    handle_close_position(&mut user, &mut market, 0).unwrap();
    assert!(user.collateral > before);
}

#[test]
fn trade_breaching_initial_margin_is_discarded_whole() {
    // collateral 10_000 and a live long of notional 90_000 (ratio 0.111);
    // growing it to notional 112_000 would drop the ratio below 0.1
    let mut market = deep_market();
    let mut user = funded_user(10_000 * 1_000_000);
    user.positions[0] = Position {
        market_index: 0,
        base_asset_amount: 1_800_000_000_000,
        quote_asset_amount: 90_000 * P,
        last_cumulative_funding_rate: 0,
        last_settled_funding_ts: 0,
    };
    let base_before = market.amm_base_asset_reserve;
    let quote_before = market.amm_quote_asset_reserve;
    let r = handle_open_position(&mut user, &mut market, 440 * P as i128, NO_LIMIT_LONG, &obs(50, 0), 0);
    assert_eq!(r, Err(PerpError::PositionCausesMarginCall));
    assert_eq!(user.positions[0].base_asset_amount, 1_800_000_000_000);
    assert_eq!(user.positions[0].quote_asset_amount, 90_000 * P);
    assert_eq!(market.amm_base_asset_reserve, base_before);
    assert_eq!(market.amm_quote_asset_reserve, quote_before);
}

#[test]
fn long_entry_above_the_limit_price_is_refused() {
    let mut market = deep_market();
    let mut user = funded_user(100_000 * 1_000_000);
    // the pool prices this trade at just over 50.05
    let r = handle_open_position(&mut user, &mut market, 1000 * P as i128, 50 * P, &obs(50, 0), 0);
    assert_eq!(r, Err(PerpError::PriceSlippage));
    let r = handle_open_position(
        &mut user,
        &mut market,
        1000 * P as i128,
        50_050_050_050,
        &obs(50, 0),
        0,
    );
    assert_eq!(r, Ok(()));
}

#[test]
fn short_proceeds_below_the_limit_price_are_refused() {
    let mut market = deep_market();
    let mut user = funded_user(100_000 * 1_000_000);
    let r = handle_open_position(&mut user, &mut market, -(1000 * P as i128), 50 * P, &obs(50, 0), 0);
    assert_eq!(r, Err(PerpError::PriceSlippage));
}

#[test]
fn paused_market_refuses_trades() {
    let mut market = deep_market();
    market.paused = true;
    let mut user = funded_user(100_000 * 1_000_000);
    let r = handle_open_position(&mut user, &mut market, P as i128, NO_LIMIT_LONG, &obs(50, 0), 0);
    assert_eq!(r, Err(PerpError::MarketPaused));
    assert_eq!(handle_close_position(&mut user, &mut market, 0), Err(PerpError::MarketPaused));
}

#[test]
fn ninth_market_finds_no_free_slot() {
    let mut market = create_market(9, 1_000_000 * P, 50_000_000 * P, 1000, 5000, 100_000, 50_000, FEED, 0)
        .unwrap();
    let mut user = funded_user(u64::MAX);
    for slot in 0..8u16 {
        user.positions[slot as usize] = Position {
            market_index: slot,
            base_asset_amount: 1,
            quote_asset_amount: 0,
            last_cumulative_funding_rate: 0,
            last_settled_funding_ts: 0,
        };
    }
    let r = handle_open_position(&mut user, &mut market, P as i128, NO_LIMIT_LONG, &obs(50, 0), 0);
    assert_eq!(r, Err(PerpError::InvalidMarketIndex));
}

#[test]
fn closing_without_a_live_position_fails() {
    let mut market = deep_market();
    let mut user = funded_user(1_000_000);
    let r = handle_close_position(&mut user, &mut market, 0);
    assert_eq!(r, Err(PerpError::PositionNotFound));
}

#[test]
fn closing_an_empty_slot_directly_is_refused() {
    let mut user = User::new();
    let r = user.close_position_slot(0, 0);
    assert_eq!(r, Err(PerpError::NoPositionToClose));
}

#[test]
fn find_or_create_reuses_the_market_slot() {
    let mut user = User::new();
    user.positions[2] = Position {
        market_index: 4,
        base_asset_amount: 10,
        quote_asset_amount: 0,
        last_cumulative_funding_rate: 0,
        last_settled_funding_ts: 0,
    };
    assert_eq!(user.find_or_create_position_mut(4), Ok(2));
    // a fresh market claims the first empty slot and tags it
    assert_eq!(user.find_or_create_position_mut(6), Ok(0));
    assert_eq!(user.positions[0].market_index, 6);
    assert_eq!(user.find_position_mut(4), Ok(2));
    assert_eq!(user.find_position_mut(6), Err(PerpError::PositionNotFound));
}

#[test]
fn unrealized_pnl_is_signed_by_side() {
    let long = Position {
        market_index: 0,
        base_asset_amount: 2_000_000_000_000,
        quote_asset_amount: 99_000 * P,
        last_cumulative_funding_rate: 0,
        last_settled_funding_ts: 0,
    };
    // worth 100_000 at mark price 50, entered at 99_000
    assert_eq!(long.get_unrealized_pnl(50 * P), Ok(1_000 * (P * P) as i128));
    let short = Position { base_asset_amount: -2_000_000_000_000, ..long };
    assert_eq!(short.get_unrealized_pnl(50 * P), Ok(-(1_000 * (P * P) as i128)));
    let flat = Position { base_asset_amount: 0, ..long };
    assert_eq!(flat.get_unrealized_pnl(50 * P), Ok(0));
}

#[test]
fn funding_settles_once_per_period() {
    let mut market = deep_market();
    // mark price 50, oracle 49: longs pay a positive funding rate
    let mut user = funded_user(2_000_000_000);
    user.positions[0] = Position {
        market_index: 0,
        base_asset_amount: 24,
        quote_asset_amount: 0,
        last_cumulative_funding_rate: 0,
        last_settled_funding_ts: 0,
    };
    let r = handle_settle_funding(&mut user, &mut market, &obs(49, 3600), 3600);
    assert_eq!(r, Ok(()));
    // premium 1 * 1e9, amortized by 24, scaled by 1e9
    assert_eq!(market.last_funding_rate, 41_666_666_666_666_666);
    assert_eq!(market.last_funding_ts, 3600);
    assert_eq!(user.collateral, 2_000_000_000 - 999_999_999);
    assert_eq!(user.positions[0].last_settled_funding_ts, 3600);

    // a second call within the same period is a no-op success
    let collateral_before = user.collateral;
    let r = handle_settle_funding(&mut user, &mut market, &obs(49, 3700), 3700);
    assert_eq!(r, Ok(()));
    assert_eq!(user.collateral, collateral_before);
    assert_eq!(market.last_funding_rate, 41_666_666_666_666_666);
    assert_eq!(market.last_funding_ts, 3600);
    assert_eq!(user.positions[0].last_settled_funding_ts, 3600);
}

#[test]
fn shorts_receive_when_the_mark_trades_above_the_oracle() {
    let mut market = deep_market();
    let mut user = funded_user(1_000_000);
    user.positions[0] = Position {
        market_index: 0,
        base_asset_amount: -24,
        quote_asset_amount: 0,
        last_cumulative_funding_rate: 0,
        last_settled_funding_ts: 0,
    };
    handle_settle_funding(&mut user, &mut market, &obs(49, 3600), 3600).unwrap();
    assert_eq!(user.collateral, 1_000_000 + 999_999_999);
}

#[test]
fn funding_needs_a_live_position_and_the_right_feed() {
    let mut market = deep_market();
    let mut user = funded_user(1_000_000);
    let r = handle_settle_funding(&mut user, &mut market, &obs(49, 3600), 3600);
    assert_eq!(r, Err(PerpError::PositionNotFound));

    user.positions[0] = Position {
        market_index: 0,
        base_asset_amount: 24,
        quote_asset_amount: 0,
        last_cumulative_funding_rate: 0,
        last_settled_funding_ts: 0,
    };
    let mut bad = obs(49, 3600);
    bad.feed_id = [9u8; 32];
    let r = handle_settle_funding(&mut user, &mut market, &bad, 3600);
    assert_eq!(r, Err(PerpError::InvalidOraclePrice));
}

#[test]
fn funding_rate_stands_still_between_periods() {
    let mut market = deep_market();
    market.last_funding_rate = 123;
    market.last_funding_ts = 3000;
    let mut user = funded_user(2_000_000_000);
    user.positions[0] = Position {
        market_index: 0,
        base_asset_amount: 1_000_000_000,
        quote_asset_amount: 0,
        last_cumulative_funding_rate: 0,
        last_settled_funding_ts: 0,
    };
    // the position settles (its own period elapsed) at the standing rate,
    // the market rate is not recomputed
    let r = handle_settle_funding(&mut user, &mut market, &obs(49, 3600), 3600);
    assert_eq!(r, Ok(()));
    assert_eq!(market.last_funding_rate, 123);
    assert_eq!(market.last_funding_ts, 3000);
    assert_eq!(user.collateral, 2_000_000_000 - 123);
}

#[test]
fn funding_underflow_of_collateral_is_reported() {
    let mut market = deep_market();
    let mut user = funded_user(10);
    user.positions[0] = Position {
        market_index: 0,
        base_asset_amount: 24,
        quote_asset_amount: 0,
        last_cumulative_funding_rate: 0,
        last_settled_funding_ts: 0,
    };
    let r = handle_settle_funding(&mut user, &mut market, &obs(49, 3600), 3600);
    assert_eq!(r, Err(PerpError::MathOverflow));
    assert_eq!(user.collateral, 10);
    assert_eq!(market.last_funding_rate, 0);
    assert_eq!(market.last_funding_ts, 0);
}

#[test]
fn stale_oracle_is_harmless_when_no_rate_update_is_due() {
    let mut market = deep_market();
    market.last_funding_rate = 7;
    market.last_funding_ts = 3000;
    let mut user = funded_user(1_000_000);
    user.positions[0] = Position {
        market_index: 0,
        base_asset_amount: 1_000_000_000,
        quote_asset_amount: 0,
        last_cumulative_funding_rate: 0,
        last_settled_funding_ts: 0,
    };
    // the observation is hours old, but the standing rate is still current,
    // so the settlement never consults it
    let r = handle_settle_funding(&mut user, &mut market, &obs(49, 0), 3600);
    assert_eq!(r, Ok(()));
    assert_eq!(user.collateral, 1_000_000 - 7);
}

#[test]
fn stale_oracle_blocks_a_due_rate_update() {
    let mut market = deep_market();
    let mut user = funded_user(1_000_000);
    user.positions[0] = Position {
        market_index: 0,
        base_asset_amount: 1_000_000_000,
        quote_asset_amount: 0,
        last_cumulative_funding_rate: 0,
        last_settled_funding_ts: 0,
    };
    let r = handle_settle_funding(&mut user, &mut market, &obs(49, 0), 3600);
    assert_eq!(r, Err(PerpError::StaleOraclePrice));
    assert_eq!(user.collateral, 1_000_000);
    assert_eq!(market.last_funding_rate, 0);
}

#[test]
fn overflowing_mark_price_fails_a_due_rate_update_as_math_overflow() {
    let mut market = deep_market();
    market.amm_quote_asset_reserve = u128::MAX;
    let mut user = funded_user(1_000_000);
    user.positions[0] = Position {
        market_index: 0,
        base_asset_amount: 24,
        quote_asset_amount: 0,
        last_cumulative_funding_rate: 0,
        last_settled_funding_ts: 0,
    };
    let r = handle_settle_funding(&mut user, &mut market, &obs(49, 3600), 3600);
    assert_eq!(r, Err(PerpError::MathOverflow));
    assert_eq!(user.collateral, 1_000_000);
    assert_eq!(market.last_funding_ts, 0);
}
