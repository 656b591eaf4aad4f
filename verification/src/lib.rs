//! Sampling, rate derivation and process control for a host process monitor.
//!
//! Once per tick the monitor takes a reading of the system, turns cumulative
//! counters into rates, keeps a bounded history of the system-wide figures
//! and evaluates rules that point the operator at processes worth a look.
//! Between ticks it takes the operator's requests and says what is to be
//! asked of the operating system.
//!
//! The crate works on plain integers throughout: percentages are carried in
//! thousandths of a percent, rates in whole bytes per second and time in
//! milliseconds.
//!
//! - [`system_monitor`]: rates from counters, the counter cache, totals of a reading
//! - [`models`]: settings, events, process rows, series and advisories
//! - [`monitor`]: the sampling core and its tick
//! - [`suggestions`]: the advisory rules
//! - [`table`]: filtering and ordering the process table
//! - [`platform`]: signals, priorities, launching, and what failures mean
//! - [`text`], [`decimal`], [`util`]: text handling and rendering of numbers

pub mod decimal;
pub mod util;
pub mod models;
pub mod system_monitor;
pub mod suggestions;
pub mod platform;
pub mod text;
pub mod table;
pub mod monitor;
