use vstd::prelude::*;
use crate::battery::{Battery, lemma_charged_well_formed, lemma_discharged_well_formed};
use crate::error::BatteryError;
use crate::forecast::Forecast;
use crate::prices::ElectricityPrice;

verus! {

/// Length of every dispatch interval, in minutes.
pub const INTERVAL_MINUTES: u32 = 15;

/// Power at which the battery is topped up when the price is favorable (W).
pub const TOP_UP_POWER: i64 = 1_500_000;

/// Reported energies are truncated to a multiple of this many Wh.
pub const REPORT_STEP_WH: u64 = 10;

/// The decision for one interval.
#[derive(Debug, Clone, Copy, PartialEq, Eq, Structural)]
pub struct Plan {
    /// Start of the interval, in seconds since the Unix epoch.
    pub start: i64,
    /// End of the interval, in seconds since the Unix epoch.
    pub end: i64,
    /// Energy taken from the battery (Wh, truncated to the report step).
    pub energy_from_battery_wh: u64,
    /// Energy put into the battery (Wh, truncated to the report step).
    pub energy_to_battery_wh: u64,
}

/// An internal amount of energy as it is reported.
pub open spec fn reported(wh: int) -> int {
    wh / (REPORT_STEP_WH as int) * (REPORT_STEP_WH as int)
}

/// One interval of the greedy rule: the next battery state and the entry.
///
/// Demand above the grid limit is covered by discharging the excess; else a
/// price at or below the reference tops the battery up; else it idles.
pub open spec fn plan_step(
    b: Battery,
    f: Forecast,
    price: i64,
    grid_limit: i64,
    average_price: i64,
) -> (Battery, Plan) {
    let minutes = INTERVAL_MINUTES as int;
    if f.consumption_average_power_interval > grid_limit {
        let excess = f.consumption_average_power_interval - grid_limit;
        (
            b.discharged(excess, minutes),
            Plan {
                start: f.start,
                end: f.end,
                energy_from_battery_wh: reported(b.removed_energy(excess, minutes)) as u64,
                energy_to_battery_wh: 0,
            },
        )
    } else if price <= average_price {
        (
            b.charged(TOP_UP_POWER as int, minutes),
            Plan {
                start: f.start,
                end: f.end,
                energy_from_battery_wh: 0,
                energy_to_battery_wh: reported(b.stored_energy(TOP_UP_POWER as int, minutes)) as u64,
            },
        )
    } else {
        (b, Plan { start: f.start, end: f.end, energy_from_battery_wh: 0, energy_to_battery_wh: 0 })
    }
}

/// Number of intervals planned: forecasts and prices are paired by position.
pub open spec fn planned_len(fs: Seq<Forecast>, ps: Seq<ElectricityPrice>) -> nat {
    if fs.len() < ps.len() {
        fs.len()
    } else {
        ps.len()
    }
}

/// The battery state before interval `i`, starting from `b0`.
pub open spec fn state_before(
    b0: Battery,
    fs: Seq<Forecast>,
    ps: Seq<ElectricityPrice>,
    grid_limit: i64,
    average_price: i64,
    i: nat,
) -> Battery
    decreases i,
{
    if i == 0 {
        b0
    } else {
        let prev = (i - 1) as nat;
        plan_step(
            state_before(b0, fs, ps, grid_limit, average_price, prev),
            fs[prev as int],
            ps[prev as int].market_price_per_kwh,
            grid_limit,
            average_price,
        ).0
    }
}

/// The entry planned for interval `i`, starting from `b0`.
pub open spec fn planned_entry(
    b0: Battery,
    fs: Seq<Forecast>,
    ps: Seq<ElectricityPrice>,
    grid_limit: i64,
    average_price: i64,
    i: nat,
) -> Plan {
    plan_step(
        state_before(b0, fs, ps, grid_limit, average_price, i),
        fs[i as int],
        ps[i as int].market_price_per_kwh,
        grid_limit,
        average_price,
    ).1
}

/// Walks the forecasts and prices in step, one interval at a time, and
/// returns one plan entry per interval.
pub fn plan_battery_usage(
    forecasts: Vec<Forecast>,
    prices: Vec<ElectricityPrice>,
    battery: Battery,
    grid_limit: i64,
    average_price: i64,
) -> (r: Result<Vec<Plan>, BatteryError>)
    requires
        battery.wf(),
        0 <= grid_limit,
    ensures
        r matches Ok(plan) && plan.len() == planned_len(forecasts@, prices@) && forall|i: int|
            0 <= i < plan.len() ==> #[trigger] plan[i] == planned_entry(
                battery,
                forecasts@,
                prices@,
                grid_limit,
                average_price,
                i as nat,
            ),
{
    let n = if forecasts.len() < prices.len() {
        forecasts.len()
    } else {
        prices.len()
    };
    let mut state = battery;
    let mut plan: Vec<Plan> = Vec::new();
    let mut i: usize = 0;
    while i < n
        invariant
            n == planned_len(forecasts@, prices@),
            i <= n,
            0 <= grid_limit,
            state.wf(),
            state == state_before(battery, forecasts@, prices@, grid_limit, average_price, i as nat),
            plan.len() == i,
            forall|j: int|
                0 <= j < i ==> #[trigger] plan[j] == planned_entry(
                    battery,
                    forecasts@,
                    prices@,
                    grid_limit,
                    average_price,
                    j as nat,
                ),
        decreases n - i,
    {
        let f = forecasts[i];
        let price = prices[i].market_price_per_kwh;
        let ghost step = plan_step(state, f, price, grid_limit, average_price);
        let entry = if f.consumption_average_power_interval > grid_limit {
            let excess = f.consumption_average_power_interval - grid_limit;
            let removed = match state.discharge_battery(excess, INTERVAL_MINUTES) {
                Ok(removed) => removed,
                Err(e) => return Err(e),
            };
            Plan {
                start: f.start,
                end: f.end,
                energy_from_battery_wh: removed / REPORT_STEP_WH * REPORT_STEP_WH,
                energy_to_battery_wh: 0,
            }
        } else if price <= average_price {
            let stored = match state.charge_battery(TOP_UP_POWER, INTERVAL_MINUTES) {
                Ok(stored) => stored,
                Err(e) => return Err(e),
            };
            Plan {
                start: f.start,
                end: f.end,
                energy_from_battery_wh: 0,
                energy_to_battery_wh: stored / REPORT_STEP_WH * REPORT_STEP_WH,
            }
        } else {
            Plan { start: f.start, end: f.end, energy_from_battery_wh: 0, energy_to_battery_wh: 0 }
        };
        assert(state == step.0 && entry == step.1);
        plan.push(entry);
        i = i + 1;
    }
    Ok(plan)
}

/// One interval of the greedy rule keeps the battery within its bounds.
pub proof fn lemma_step_well_formed(
    b: Battery,
    f: Forecast,
    price: i64,
    grid_limit: i64,
    average_price: i64,
)
    requires
        b.wf(),
    ensures
        plan_step(b, f, price, grid_limit, average_price).0.wf(),
{
    let minutes = INTERVAL_MINUTES as int;
    if f.consumption_average_power_interval > grid_limit {
        lemma_discharged_well_formed(b, f.consumption_average_power_interval - grid_limit, minutes);
    } else if price <= average_price {
        lemma_charged_well_formed(b, TOP_UP_POWER as int, minutes);
    }
}

/// Every state the planner passes through, from a well-formed start, keeps
/// `0 <= charge <= capacity`.
pub proof fn lemma_planned_states_well_formed(
    b0: Battery,
    fs: Seq<Forecast>,
    ps: Seq<ElectricityPrice>,
    grid_limit: i64,
    average_price: i64,
    i: nat,
)
    requires
        b0.wf(),
    ensures
        state_before(b0, fs, ps, grid_limit, average_price, i).wf(),
        0 <= state_before(b0, fs, ps, grid_limit, average_price, i).charge
            <= state_before(b0, fs, ps, grid_limit, average_price, i).capacity,
    decreases i,
{
    if i > 0 {
        let prev = (i - 1) as nat;
        lemma_planned_states_well_formed(b0, fs, ps, grid_limit, average_price, prev);
        lemma_step_well_formed(
            state_before(b0, fs, ps, grid_limit, average_price, prev),
            fs[prev as int],
            ps[prev as int].market_price_per_kwh,
            grid_limit,
            average_price,
        );
    }
}

/// An interval whose forecast demand exceeds the grid limit never charges.
pub proof fn lemma_excess_demand_never_charges(
    b0: Battery,
    fs: Seq<Forecast>,
    ps: Seq<ElectricityPrice>,
    grid_limit: i64,
    average_price: i64,
    i: nat,
)
    requires
        i < planned_len(fs, ps),
        fs[i as int].consumption_average_power_interval > grid_limit,
    ensures
        planned_entry(b0, fs, ps, grid_limit, average_price, i).energy_to_battery_wh == 0,
{
}

/// An interval within the grid limit whose price is at or below the reference
/// never discharges.
pub proof fn lemma_favorable_price_never_discharges(
    b0: Battery,
    fs: Seq<Forecast>,
    ps: Seq<ElectricityPrice>,
    grid_limit: i64,
    average_price: i64,
    i: nat,
)
    requires
        i < planned_len(fs, ps),
        fs[i as int].consumption_average_power_interval <= grid_limit,
        ps[i as int].market_price_per_kwh <= average_price,
    ensures
        planned_entry(b0, fs, ps, grid_limit, average_price, i).energy_from_battery_wh == 0,
{
}

/// No interval both charges and discharges.
pub proof fn lemma_entry_moves_one_way(
    b0: Battery,
    fs: Seq<Forecast>,
    ps: Seq<ElectricityPrice>,
    grid_limit: i64,
    average_price: i64,
    i: nat,
)
    requires
        i < planned_len(fs, ps),
    ensures
        planned_entry(b0, fs, ps, grid_limit, average_price, i).energy_from_battery_wh == 0
            || planned_entry(b0, fs, ps, grid_limit, average_price, i).energy_to_battery_wh == 0,
{
}

} // verus!
