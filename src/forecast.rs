use vstd::prelude::*;
use crate::error::ValidationError;

verus! {

/// A forecast of average grid consumption over one interval.
#[derive(Debug, Clone, Copy, PartialEq, Eq, Structural)]
pub struct Forecast {
    /// Start of the interval, in seconds since the Unix epoch.
    pub start: i64,
    /// End of the interval, in seconds since the Unix epoch.
    pub end: i64,
    /// Average power consumption during the interval (W).
    pub consumption_average_power_interval: i64,
}

/// A sequence of forecasts, one per interval.
#[derive(Debug)]
pub struct Forecasts {
    pub forecasts: Vec<Forecast>,
}

/// What checking one forecast yields: a negative consumption is reported
/// before an empty or inverted interval.
pub open spec fn forecast_verdict(f: Forecast) -> Result<(), ValidationError> {
    if f.consumption_average_power_interval < 0 {
        Err(ValidationError::NegativeConsumption)
    } else if f.start >= f.end {
        Err(ValidationError::StartNotBeforeEnd)
    } else {
        Ok(())
    }
}

/// Checks one forecast.
pub fn validate_forecast(forecast: &Forecast) -> (r: Result<(), ValidationError>)
    ensures
        r == forecast_verdict(*forecast),
{
    if forecast.consumption_average_power_interval < 0 {
        return Err(ValidationError::NegativeConsumption);
    }
    if forecast.start >= forecast.end {
        return Err(ValidationError::StartNotBeforeEnd);
    }
    Ok(())
}

/// Checks every forecast in order and reports the first rejected one.
pub fn validate_forecasts(forecasts: &Forecasts) -> (r: Result<(), ValidationError>)
    ensures
        r is Ok <==> forall|i: int|
            0 <= i < forecasts.forecasts.len() ==> #[trigger] forecast_verdict(
                forecasts.forecasts[i],
            ) is Ok,
        r matches Err(e) ==> exists|i: int|
            0 <= i < forecasts.forecasts.len() && #[trigger] forecast_verdict(
                forecasts.forecasts[i],
            ) == Err::<(), ValidationError>(e) && forall|j: int|
                0 <= j < i ==> forecast_verdict(forecasts.forecasts[j]) is Ok,
{
    let mut i: usize = 0;
    while i < forecasts.forecasts.len()
        invariant
            i <= forecasts.forecasts.len(),
            forall|j: int| 0 <= j < i ==> #[trigger] forecast_verdict(forecasts.forecasts[j]) is Ok,
        decreases forecasts.forecasts.len() - i,
    {
        if let Err(e) = validate_forecast(&forecasts.forecasts[i]) {
            assert(forecast_verdict(forecasts.forecasts[i as int]) == Err::<(), ValidationError>(e));
            return Err(e);
        }
        i = i + 1;
    }
    Ok(())
}

} // verus!
