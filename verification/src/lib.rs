//! A ledger clock for Soroban contract tests, verified with Verus.
//!
//! A [`TestEnv`] wraps a `soroban_sdk` test environment and moves its ledger
//! clock: by a duration, by calendar units, by whole ledgers, or to an
//! absolute time, keeping the timestamp and the sequence number in
//! proportion through the environment's close interval. `model` says what
//! each move does, `laws` what holds of the moves whatever their inputs, and
//! `error` how a refused move is worded.
pub mod clock;
pub mod error;
pub mod host;
pub mod laws;
pub mod model;

pub use clock::{
    LEDGER_CLOSE_TIME_SECS, SECS_PER_DAY, SECS_PER_HOUR, SECS_PER_MINUTE, TestEnv, calendar_secs,
};
pub use error::TestkitError;
