//! Interval bucketing and roll-up aggregation for liquidity-pool telemetry.
//!
//! Raw, irregularly sampled time-series rows are partitioned into fixed
//! calendar buckets (hour, day, week, month or year). Each bucket reports a
//! first-observed and a last-observed snapshot together with cumulative and
//! averaged roll-ups, and the whole window is summarised in a meta record
//! with a pagination cursor. Four variants of the telemetry (depth and
//! price, swaps, rune-pool units, earnings) share one aggregation engine,
//! each supplying its measures and their strategies as plain data.

pub mod bucket;
pub mod calendar;
pub mod depth;
pub mod earnings;
pub mod engine;
pub mod errors;
pub mod granularity;
pub mod ingest;
pub mod numtext;
pub mod queries;
pub mod ratio;
pub mod request;
pub mod runepool;
pub mod sample;
pub mod swaps;
