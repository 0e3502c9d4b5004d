use vstd::prelude::*;

verus! {

/// Rejection of a charge or discharge request; the battery is left untouched.
#[derive(Debug, Clone, Copy, PartialEq, Eq, Structural)]
pub enum BatteryError {
    /// The requested power (in W) was negative.
    InvalidInput(i64),
}

/// Rejection of an input record (a forecast or a price).
#[derive(Debug, Clone, Copy, PartialEq, Eq, Structural)]
pub enum ValidationError {
    /// A forecast's average consumption was negative.
    NegativeConsumption,
    /// A price per kWh was negative.
    NegativePrice,
    /// A record's start was not strictly before its end.
    StartNotBeforeEnd,
}

} // verus!
