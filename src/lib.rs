//! Greedy dispatch planning for a single grid-connected battery.
//!
//! All quantities are fixed-point integers: energy in watt-hours, power in
//! watts, durations in minutes, timestamps in seconds since the Unix epoch,
//! efficiency in parts per million and prices in millionths of a currency
//! unit per kWh.
pub mod battery;
pub mod config;
pub mod error;
pub mod forecast;
pub mod planning;
pub mod prices;
