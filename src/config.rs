use vstd::prelude::*;
use crate::battery::{Battery, EFFICIENCY_SCALE};

verus! {

/// Battery and grid parameters of a site.
#[derive(Debug, Clone, Copy, PartialEq, Eq, Structural)]
pub struct Settings {
    /// Battery capacity (Wh).
    pub capacity: u64,
    /// Energy stored at the start of planning (Wh).
    pub initial_charge: u64,
    /// Battery power ceiling (W).
    pub max_rate: u64,
    /// Round-trip efficiency, in parts per million.
    pub efficiency: u64,
    /// Largest power the site may draw from the grid (W).
    pub grid_limit: i64,
}

/// The site configuration.
#[derive(Debug, Clone, Copy, PartialEq, Eq, Structural)]
pub struct Config {
    pub settings: Settings,
}

impl Settings {
    /// Every parameter is positive, the initial charge fits the capacity and
    /// the efficiency is at most lossless.
    pub open spec fn valid(&self) -> bool {
        &&& 0 < self.capacity
        &&& 0 < self.initial_charge <= self.capacity
        &&& 0 < self.max_rate
        &&& 0 < self.efficiency <= EFFICIENCY_SCALE
        &&& 0 < self.grid_limit
    }

    /// Whether the settings describe a usable site.
    pub fn is_valid(&self) -> (r: bool)
        ensures
            r == self.valid(),
    {
        0 < self.capacity && 0 < self.initial_charge && self.initial_charge <= self.capacity && 0
            < self.max_rate && 0 < self.efficiency && self.efficiency <= EFFICIENCY_SCALE && 0
            < self.grid_limit
    }

    /// The battery these settings describe, at its initial charge.
    pub fn battery(&self) -> (r: Battery)
        requires
            self.valid(),
        ensures
            r.wf(),
            r == (Battery {
                capacity: self.capacity,
                charge: self.initial_charge,
                max_rate: self.max_rate,
                efficiency: self.efficiency,
            }),
    {
        Battery::new(self.capacity, self.initial_charge, self.max_rate, self.efficiency)
    }
}

} // verus!
