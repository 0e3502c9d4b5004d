use battery_planner::error::ValidationError;
use battery_planner::forecast::{validate_forecast, validate_forecasts, Forecast, Forecasts};
use battery_planner::prices::{
    average_price, convert_to_fifteen_minute_intervals, prepare_day_ahead_prices, validate_price,
    DayAheadPrices, ElectricityPrice,
};

const T23: i64 = 1_670_886_000; // 2022-12-12T23:00:00Z

fn hourly(start: i64, per_kwh: i64) -> ElectricityPrice {
    ElectricityPrice {
        start,
        end: start + 3600,
        market_price_currency: "EUR".to_string(),
        market_price_per_kwh: per_kwh,
    }
}

#[test]
fn hourly_price_becomes_four_quarters() {
    // 0.25 EUR/kWh
    let quarters = convert_to_fifteen_minute_intervals(vec![hourly(T23, 250_000)]);
    assert_eq!(quarters.len(), 4, "Expected to load four price entries (15-minute intervals).");
    for (k, q) in quarters.iter().enumerate() {
        assert_eq!(q.market_price_per_kwh, 250_000, "Expected price to match.");
        assert_eq!(q.market_price_currency, "EUR");
        assert_eq!(q.start, T23 + 900 * k as i64);
        assert_eq!(q.end, q.start + 900);
    }
}

#[test]
fn quarters_follow_hour_order() {
    let quarters =
        convert_to_fifteen_minute_intervals(vec![hourly(T23, 1), hourly(T23 + 3600, 2)]);
    let got: Vec<(i64, i64)> = quarters.iter().map(|q| (q.start - T23, q.market_price_per_kwh)).collect();
    assert_eq!(
        got,
        vec![(0, 1), (900, 1), (1800, 1), (2700, 1), (3600, 2), (4500, 2), (5400, 2), (6300, 2)]
    );
    assert!(convert_to_fifteen_minute_intervals(vec![]).is_empty());
}

#[test]
fn average_is_truncated_mean() {
    let prices = vec![hourly(T23, 1), hourly(T23, 2), hourly(T23, 4)];
    assert_eq!(average_price(&prices), 2);
    assert_eq!(average_price(&vec![hourly(T23, i64::MAX), hourly(T23, i64::MAX)]), i64::MAX);
    assert_eq!(average_price(&vec![]), 0);
}

#[test]
fn prepared_prices_have_quarters_and_mean() {
    let hourly_prices = DayAheadPrices { prices: vec![hourly(T23, 100), hourly(T23 + 3600, 301)] };
    let (quarters, mean) = prepare_day_ahead_prices(hourly_prices).unwrap();
    assert_eq!(quarters.prices.len(), 8);
    assert_eq!(mean, 200);
}

#[test]
fn prepared_prices_reject_first_bad_record() {
    let bad_interval = ElectricityPrice { end: T23, ..hourly(T23, 5) };
    let hourly_prices =
        DayAheadPrices { prices: vec![hourly(T23, 5), bad_interval, hourly(T23, -1)] };
    assert_eq!(
        prepare_day_ahead_prices(hourly_prices).unwrap_err(),
        ValidationError::StartNotBeforeEnd
    );
    let hourly_prices = DayAheadPrices { prices: vec![hourly(T23, -1)] };
    assert_eq!(prepare_day_ahead_prices(hourly_prices).unwrap_err(), ValidationError::NegativePrice);
}

#[test]
fn price_checks() {
    assert_eq!(validate_price(&hourly(T23, 0)), Ok(()));
    assert_eq!(validate_price(&hourly(T23, -1)), Err(ValidationError::NegativePrice));
    let inverted = ElectricityPrice { end: T23 - 1, ..hourly(T23, 1) };
    assert_eq!(validate_price(&inverted), Err(ValidationError::StartNotBeforeEnd));
    let both = ElectricityPrice { end: T23, ..hourly(T23, -3) };
    assert_eq!(validate_price(&both), Err(ValidationError::NegativePrice));
}

#[test]
fn forecast_checks() {
    let ok = Forecast { start: T23, end: T23 + 900, consumption_average_power_interval: 5_000_000 };
    assert_eq!(validate_forecast(&ok), Ok(()));
    let negative = Forecast { consumption_average_power_interval: -1, ..ok };
    assert_eq!(validate_forecast(&negative), Err(ValidationError::NegativeConsumption));
    let empty = Forecast { end: T23, ..ok };
    assert_eq!(validate_forecast(&empty), Err(ValidationError::StartNotBeforeEnd));
    assert_eq!(validate_forecasts(&Forecasts { forecasts: vec![ok, ok] }), Ok(()));
    assert_eq!(
        validate_forecasts(&Forecasts { forecasts: vec![ok, empty, negative] }),
        Err(ValidationError::StartNotBeforeEnd)
    );
    assert_eq!(validate_forecasts(&Forecasts { forecasts: vec![] }), Ok(()));
}
