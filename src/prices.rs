use vstd::prelude::*;
use crate::error::ValidationError;

verus! {

/// Length of one dispatch interval, in seconds.
pub const QUARTER_HOUR_SECS: i64 = 900;

/// Length of one hourly price record, in seconds.
pub const HOUR_SECS: i64 = 3600;

/// Latest hourly start whose four quarters stay representable.
pub const LATEST_HOUR_START: i64 = i64::MAX - HOUR_SECS;

/// The price of electricity over one interval.
#[derive(Debug)]
pub struct ElectricityPrice {
    /// Start of the interval, in seconds since the Unix epoch.
    pub start: i64,
    /// End of the interval, in seconds since the Unix epoch.
    pub end: i64,
    /// Currency of the price (for example "EUR").
    pub market_price_currency: String,
    /// Price per kWh, in millionths of the currency unit.
    pub market_price_per_kwh: i64,
}

/// A sequence of prices, one per interval.
#[derive(Debug)]
pub struct DayAheadPrices {
    pub prices: Vec<ElectricityPrice>,
}

/// What checking one price yields: a negative price is reported before an
/// empty or inverted interval.
pub open spec fn price_verdict(p: ElectricityPrice) -> Result<(), ValidationError> {
    if p.market_price_per_kwh < 0 {
        Err(ValidationError::NegativePrice)
    } else if p.start >= p.end {
        Err(ValidationError::StartNotBeforeEnd)
    } else {
        Ok(())
    }
}

/// `q` is quarter number `n` (from 0) of the hourly record `h`.
pub open spec fn is_quarter_of(q: ElectricityPrice, h: ElectricityPrice, n: int) -> bool {
    &&& q.start == h.start + QUARTER_HOUR_SECS * n
    &&& q.end == q.start + QUARTER_HOUR_SECS
    &&& q.market_price_currency@ == h.market_price_currency@
    &&& q.market_price_per_kwh == h.market_price_per_kwh
}

/// `quarters` splits each record of `hourly` into four consecutive quarter
/// hours from the record's start, each with the record's currency and price.
pub open spec fn is_quarter_hour_split(
    hourly: Seq<ElectricityPrice>,
    quarters: Seq<ElectricityPrice>,
) -> bool {
    &&& quarters.len() == 4 * hourly.len()
    &&& forall|k: int|
        0 <= k < quarters.len() ==> is_quarter_of(#[trigger] quarters[k], hourly[k / 4], k % 4)
}

/// Sum of the prices of `s`.
pub open spec fn price_sum(s: Seq<ElectricityPrice>) -> int
    decreases s.len(),
{
    if s.len() == 0 {
        0
    } else {
        price_sum(s.drop_last()) + s.last().market_price_per_kwh
    }
}

/// Mean price of `s`, truncated; zero when `s` is empty.
pub open spec fn mean_price(s: Seq<ElectricityPrice>) -> int {
    if s.len() == 0 {
        0
    } else {
        price_sum(s) / (s.len() as int)
    }
}

/// Checks one price.
pub fn validate_price(price: &ElectricityPrice) -> (r: Result<(), ValidationError>)
    ensures
        r == price_verdict(*price),
{
    if price.market_price_per_kwh < 0 {
        return Err(ValidationError::NegativePrice);
    }
    if price.start >= price.end {
        return Err(ValidationError::StartNotBeforeEnd);
    }
    Ok(())
}

/// Checks every price in order and reports the first rejected one.
pub fn validate_prices(prices: &Vec<ElectricityPrice>) -> (r: Result<(), ValidationError>)
    ensures
        r is Ok <==> forall|i: int| 0 <= i < prices.len() ==> #[trigger] price_verdict(prices[i]) is Ok,
        r matches Err(e) ==> exists|i: int|
            0 <= i < prices.len() && #[trigger] price_verdict(prices[i]) == Err::<(), ValidationError>(
                e,
            ) && forall|j: int| 0 <= j < i ==> price_verdict(prices[j]) is Ok,
{
    let mut i: usize = 0;
    while i < prices.len()
        invariant
            i <= prices.len(),
            forall|j: int| 0 <= j < i ==> #[trigger] price_verdict(prices[j]) is Ok,
        decreases prices.len() - i,
    {
        if let Err(e) = validate_price(&prices[i]) {
            assert(price_verdict(prices[i as int]) == Err::<(), ValidationError>(e));
            return Err(e);
        }
        i = i + 1;
    }
    Ok(())
}

/// Splits each hourly price into four quarter-hour prices carrying the same
/// currency and price, the first starting where the hour starts.
pub fn convert_to_fifteen_minute_intervals(hourly_prices: Vec<ElectricityPrice>) -> (r: Vec<
    ElectricityPrice,
>)
    requires
        4 * hourly_prices.len() <= usize::MAX,
        forall|i: int|
            0 <= i < hourly_prices.len() ==> #[trigger] hourly_prices[i].start
                <= LATEST_HOUR_START,
    ensures
        is_quarter_hour_split(hourly_prices@, r@),
{
    let mut quarters: Vec<ElectricityPrice> = Vec::new();
    let mut i: usize = 0;
    while i < hourly_prices.len()
        invariant
            i <= hourly_prices.len(),
            4 * hourly_prices.len() <= usize::MAX,
            forall|j: int|
                0 <= j < hourly_prices.len() ==> #[trigger] hourly_prices[j].start
                    <= LATEST_HOUR_START,
            quarters.len() == 4 * i,
            forall|k: int|
                0 <= k < quarters.len() ==> is_quarter_of(
                    #[trigger] quarters[k],
                    hourly_prices[k / 4],
                    k % 4,
                ),
        decreases hourly_prices.len() - i,
    {
        let hour = &hourly_prices[i];
        let mut q: i64 = 0;
        while q < 4
            invariant
                0 <= q <= 4,
                i < hourly_prices.len(),
                hour == hourly_prices[i as int],
                hour.start <= LATEST_HOUR_START,
                4 * hourly_prices.len() <= usize::MAX,
                quarters.len() == 4 * i + q,
                forall|k: int|
                    0 <= k < quarters.len() ==> is_quarter_of(
                        #[trigger] quarters[k],
                        hourly_prices[k / 4],
                        k % 4,
                    ),
            decreases 4 - q,
        {
            let start = hour.start + QUARTER_HOUR_SECS * q;
            let ghost k = quarters.len() as int;
            assert(k / 4 == i && k % 4 == q);
            quarters.push(
                ElectricityPrice {
                    start,
                    end: start + QUARTER_HOUR_SECS,
                    market_price_currency: hour.market_price_currency.clone(),
                    market_price_per_kwh: hour.market_price_per_kwh,
                },
            );
            q = q + 1;
        }
        i = i + 1;
    }
    quarters
}

/// Mean of the prices, truncated; zero when there are none.
pub fn average_price(prices: &Vec<ElectricityPrice>) -> (r: i64)
    requires
        forall|i: int| 0 <= i < prices.len() ==> 0 <= #[trigger] prices[i].market_price_per_kwh,
    ensures
        r == mean_price(prices@),
{
    let mut sum: u128 = 0;
    let mut i: usize = 0;
    while i < prices.len()
        invariant
            i <= prices.len(),
            forall|j: int| 0 <= j < prices.len() ==> 0 <= #[trigger] prices[j].market_price_per_kwh,
            sum == price_sum(prices@.subrange(0, i as int)),
            sum <= i * (i64::MAX as int),
        decreases prices.len() - i,
    {
        let p = prices[i].market_price_per_kwh;
        assert(prices@.subrange(0, i + 1).drop_last() =~= prices@.subrange(0, i as int));
        assert(sum + p <= (i + 1) * (i64::MAX as int)) by (nonlinear_arith)
            requires
                sum <= i * (i64::MAX as int),
                p <= i64::MAX,
        ;
        assert((i + 1) * (i64::MAX as int) < 0x1_0000_0000_0000_0000 * 0x8000_0000_0000_0000)
            by (nonlinear_arith)
            requires
                i < 0x1_0000_0000_0000_0000,
        ;
        sum = sum + p as u128;
        i = i + 1;
    }
    assert(prices@.subrange(0, prices.len() as int) =~= prices@);
    if prices.len() == 0 {
        return 0;
    }
    let n = prices.len() as u128;
    let mean = sum / n;
    assert(mean <= i64::MAX) by (nonlinear_arith)
        requires
            sum <= n * (i64::MAX as int),
            n > 0,
            mean == sum / n,
    ;
    mean as i64
}

/// Checks the hourly prices, splits them into quarter hours and returns those
/// with their mean price; the first rejected record decides the error.
pub fn prepare_day_ahead_prices(hourly: DayAheadPrices) -> (r: Result<
    (DayAheadPrices, i64),
    ValidationError,
>)
    requires
        4 * hourly.prices.len() <= usize::MAX,
        forall|i: int|
            0 <= i < hourly.prices.len() ==> #[trigger] hourly.prices[i].start
                <= LATEST_HOUR_START,
    ensures
        r is Ok <==> forall|i: int|
            0 <= i < hourly.prices.len() ==> #[trigger] price_verdict(hourly.prices[i]) is Ok,
        r matches Err(e) ==> exists|i: int|
            0 <= i < hourly.prices.len() && #[trigger] price_verdict(hourly.prices[i]) == Err::<
                (),
                ValidationError,
            >(e) && forall|j: int| 0 <= j < i ==> price_verdict(hourly.prices[j]) is Ok,
        r matches Ok((quarters, mean)) ==> {
            &&& is_quarter_hour_split(hourly.prices@, quarters.prices@)
            &&& mean == mean_price(quarters.prices@)
        },
{
    match validate_prices(&hourly.prices) {
        Err(e) => Err(e),
        Ok(()) => {
            let ghost source = hourly.prices@;
            let quarters = convert_to_fifteen_minute_intervals(hourly.prices);
            assert forall|k: int| 0 <= k < quarters.len() implies 0
                <= #[trigger] quarters[k].market_price_per_kwh by {
                assert(price_verdict(source[k / 4]) is Ok);
            }
            let mean = average_price(&quarters);
            Ok((DayAheadPrices { prices: quarters }, mean))
        },
    }
}

} // verus!
