use battery_planner::battery::Battery;
use battery_planner::config::Settings;
use battery_planner::forecast::Forecast;
use battery_planner::planning::{plan_battery_usage, Plan};
use battery_planner::prices::ElectricityPrice;

const T0: i64 = 1_670_803_200; // 2022-12-12T00:00:00Z

fn site_battery() -> Battery {
    Battery::new(3_000_000, 1_500_000, 1_500_000, 900_000)
}

fn forecast(k: i64, power_w: i64) -> Forecast {
    Forecast {
        start: T0 + 900 * k,
        end: T0 + 900 * (k + 1),
        consumption_average_power_interval: power_w,
    }
}

fn price(k: i64, per_kwh: i64) -> ElectricityPrice {
    ElectricityPrice {
        start: T0 + 900 * k,
        end: T0 + 900 * (k + 1),
        market_price_currency: "EUR".to_string(),
        market_price_per_kwh: per_kwh,
    }
}

#[test]
fn demand_over_limit_discharges_the_excess() {
    // 1 MW over the 7.8 MW limit for 15 minutes: 277 777 Wh leave storage,
    // reported as 277 770 Wh.
    let plan = plan_battery_usage(
        vec![forecast(0, 8_800_000)],
        vec![price(0, 100)],
        site_battery(),
        7_800_000,
        1_000,
    )
    .unwrap();
    assert_eq!(
        plan,
        vec![Plan { start: T0, end: T0 + 900, energy_from_battery_wh: 277_770, energy_to_battery_wh: 0 }]
    );
}

#[test]
fn favorable_price_tops_up() {
    // 1.5 MW for 15 minutes is 375 kWh, 337.5 kWh after loss.
    let plan = plan_battery_usage(
        vec![forecast(0, 5_000_000)],
        vec![price(0, 1_000)],
        site_battery(),
        7_800_000,
        1_000,
    )
    .unwrap();
    assert_eq!(
        plan,
        vec![Plan { start: T0, end: T0 + 900, energy_from_battery_wh: 0, energy_to_battery_wh: 337_500 }]
    );
}

#[test]
fn expensive_interval_idles() {
    let plan = plan_battery_usage(
        vec![forecast(0, 5_000_000)],
        vec![price(0, 1_001)],
        site_battery(),
        7_800_000,
        1_000,
    )
    .unwrap();
    assert_eq!(
        plan,
        vec![Plan { start: T0, end: T0 + 900, energy_from_battery_wh: 0, energy_to_battery_wh: 0 }]
    );
}

#[test]
fn demand_at_limit_is_no_violation() {
    let plan = plan_battery_usage(
        vec![forecast(0, 7_800_000)],
        vec![price(0, 2_000)],
        site_battery(),
        7_800_000,
        1_000,
    )
    .unwrap();
    assert_eq!(plan[0].energy_from_battery_wh, 0);
    assert_eq!(plan[0].energy_to_battery_wh, 0);
}

#[test]
fn over_limit_wins_over_cheap_price() {
    let plan = plan_battery_usage(
        vec![forecast(0, 9_000_000)],
        vec![price(0, 0)],
        site_battery(),
        7_800_000,
        1_000,
    )
    .unwrap();
    assert_eq!(plan[0].energy_to_battery_wh, 0);
    assert!(plan[0].energy_from_battery_wh > 0);
}

#[test]
fn state_carries_between_intervals() {
    // Start 300 kWh below full: the first top-up stores 300 kWh, the second
    // finds no room left.
    let battery = Battery::new(3_000_000, 2_700_000, 1_500_000, 900_000);
    let plan = plan_battery_usage(
        vec![forecast(0, 0), forecast(1, 0)],
        vec![price(0, 0), price(1, 0)],
        battery,
        7_800_000,
        0,
    )
    .unwrap();
    assert_eq!(plan.len(), 2);
    assert_eq!(plan[0].energy_to_battery_wh, 300_000);
    assert_eq!(plan[1].energy_to_battery_wh, 0);
}

#[test]
fn drained_battery_reports_what_was_left() {
    // 123 456 Wh stored, far less than required: all of it, truncated to 123 450.
    let battery = Battery::new(3_000_000, 123_456, 1_500_000, 900_000);
    let plan = plan_battery_usage(
        vec![forecast(0, 10_000_000), forecast(1, 10_000_000)],
        vec![price(0, 0), price(1, 0)],
        battery,
        7_800_000,
        0,
    )
    .unwrap();
    assert_eq!(plan[0].energy_from_battery_wh, 123_450);
    assert_eq!(plan[1].energy_from_battery_wh, 0);
}

#[test]
fn shorter_input_decides_the_length() {
    let plan = plan_battery_usage(
        vec![forecast(0, 0), forecast(1, 0), forecast(2, 0)],
        vec![price(0, 5)],
        site_battery(),
        7_800_000,
        0,
    )
    .unwrap();
    assert_eq!(plan.len(), 1);
    let plan = plan_battery_usage(
        vec![forecast(0, 0)],
        vec![price(0, 5), price(1, 5)],
        site_battery(),
        7_800_000,
        0,
    )
    .unwrap();
    assert_eq!(plan.len(), 1);
    let plan = plan_battery_usage(vec![], vec![price(0, 5)], site_battery(), 7_800_000, 0).unwrap();
    assert!(plan.is_empty());
}

#[test]
fn settings_build_the_battery() {
    let settings = Settings {
        capacity: 3_000_000,
        initial_charge: 1_500_000,
        max_rate: 1_500_000,
        efficiency: 900_000,
        grid_limit: 7_800_000,
    };
    assert!(settings.is_valid());
    let battery = settings.battery();
    assert_eq!(battery.capacity, 3_000_000);
    assert_eq!(battery.charge, 1_500_000);
    assert_eq!(battery.max_rate, 1_500_000);
    assert_eq!(battery.efficiency, 900_000);
}

#[test]
fn settings_reject_bad_values() {
    let good = Settings {
        capacity: 3_000_000,
        initial_charge: 1_500_000,
        max_rate: 1_500_000,
        efficiency: 900_000,
        grid_limit: 7_800_000,
    };
    assert!(!Settings { capacity: 0, ..good }.is_valid());
    assert!(!Settings { initial_charge: 3_000_001, ..good }.is_valid());
    assert!(!Settings { initial_charge: 0, ..good }.is_valid());
    assert!(!Settings { max_rate: 0, ..good }.is_valid());
    assert!(!Settings { efficiency: 0, ..good }.is_valid());
    assert!(!Settings { efficiency: 1_000_001, ..good }.is_valid());
    assert!(!Settings { grid_limit: 0, ..good }.is_valid());
    assert!(Settings { efficiency: 1_000_000, initial_charge: 3_000_000, ..good }.is_valid());
}
