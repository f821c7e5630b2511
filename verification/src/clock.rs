//! The ledger clock of a test environment: reading it, and moving it by a
//! duration, by calendar units, by whole ledgers, or to an absolute time,
//! with the timestamp and the sequence number kept in proportion by the
//! environment's close interval.
use vstd::prelude::*;

use core::time::Duration;
use soroban_sdk::Env;

use crate::error::{
    TestkitError, advance_ledgers_refusal, advance_secs_refusal, advance_units_refusal,
    calendar_overflow, calendar_overflow_text, error_text, ledger_sequence_overflow,
    ledger_span_overflow, ledger_timestamp_overflow, sequence_overflow, timestamp_overflow,
    warp_into_past, warp_to_refusal, zero_interval,
};
use crate::host::{
    default_env, env_ledger_settings, env_sequence, env_timestamp, ledger_sequence, ledger_timestamp,
    set_ledger_sequence, set_ledger_timestamp,
};
use crate::model::{
    ClockView, advance_ledgers, advance_secs, advance_units, ledgers_for, warp_to,
};

verus! {

/// Stellar's current observed average ledger close time, in seconds: the
/// close interval that every test environment starts with. It is a network
/// characteristic chosen by this crate, not read from the SDK, and it must
/// not be zero.
pub const LEDGER_CLOSE_TIME_SECS: u64 = 5;

/// Seconds in a minute.
pub const SECS_PER_MINUTE: u64 = 60;

/// Seconds in an hour.
pub const SECS_PER_HOUR: u64 = 3600;

/// Seconds in a day.
pub const SECS_PER_DAY: u64 = 86400;

/// The number of whole seconds in a `Duration`.
pub uninterp spec fn duration_whole_secs(duration: Duration) -> u64;

/// Calls `Duration::as_secs`, which std documents as the number of whole
/// seconds in the duration (the sub-second part is dropped). The contract
/// names that number.
#[verifier::external_body]
fn whole_secs(duration: Duration) -> (secs: u64)
    ensures
        secs == duration_whole_secs(duration),
{
    duration.as_secs()
}

/// A close interval that an environment was configured with; never zero.
struct CloseInterval {
    secs: u64,
}

impl CloseInterval {
    #[verifier::type_invariant]
    spec fn non_zero(self) -> bool {
        self.secs > 0
    }
}

/// `ceil(secs / interval)`, computed without overflow.
fn div_ceil(secs: u64, interval: u64) -> (ledgers: u64)
    requires
        interval > 0,
    ensures
        ledgers == ledgers_for(secs as nat, interval as nat),
        ledgers <= secs,
{
    let whole = secs / interval;
    if secs % interval == 0 {
        whole
    } else {
        assert(whole < secs) by (nonlinear_arith)
            requires
                whole == secs / interval,
                secs % interval != 0,
                interval > 0,
        ;
        whole + 1
    }
}

/// Converts `count` calendar units of `secs_per_unit` seconds into seconds,
/// refusing, with an error that names `helper`, a product that does not fit
/// in a `u64`.
pub fn calendar_secs(helper: &str, count: u64, secs_per_unit: u64) -> (r: Result<u64, TestkitError>)
    ensures
        (match r {
            Ok(secs) => secs == count * secs_per_unit,
            Err(e) => count * secs_per_unit > u64::MAX
                && error_text(e) == calendar_overflow_text(helper@, count as nat, secs_per_unit as nat),
        }),
{
    match count.checked_mul(secs_per_unit) {
        Some(secs) => Ok(secs),
        None => Err(calendar_overflow(helper, count, secs_per_unit)),
    }
}

/// A Soroban test environment together with the close interval that maps
/// its elapsed time onto ledger sequence numbers.
pub struct TestEnv {
    env: Env,
    close_interval_override: Option<CloseInterval>,
}

impl View for TestEnv {
    type V = ClockView;

    closed spec fn view(&self) -> ClockView {
        ClockView {
            timestamp: env_timestamp(self.env),
            sequence: env_sequence(self.env),
            interval_override: match self.close_interval_override {
                Some(interval) => Some(interval.secs),
                None => None,
            },
        }
    }
}

impl TestEnv {
    /// The ledger fields other than the clock (see `env_ledger_settings`);
    /// no clock move changes them.
    pub closed spec fn ledger_settings(&self) -> (u32, Seq<u8>, u32, u32, u32, u32) {
        env_ledger_settings(self.env)
    }

    /// A fresh environment: timestamp 0, sequence number 0, and the default
    /// close interval.
    pub fn new() -> (env: TestEnv)
        ensures
            env@ == (ClockView { timestamp: 0, sequence: 0, interval_override: None }),
    {
        TestEnv { env: default_env(), close_interval_override: None }
    }

    /// The SDK environment underneath.
    pub fn env(&self) -> (env: &Env)
        ensures
            env_timestamp(*env) == self@.timestamp,
            env_sequence(*env) == self@.sequence,
    {
        &self.env
    }

    /// The close interval this environment was configured with, if any.
    pub fn close_interval_override(&self) -> (secs: Option<u64>)
        ensures
            secs == self@.interval_override,
    {
        match &self.close_interval_override {
            Some(interval) => Some(interval.secs),
            None => None,
        }
    }

    /// Configures how many seconds each ledger takes to close in this
    /// environment, without moving its clock. A zero interval cannot map
    /// elapsed time onto ledger sequence numbers and is refused.
    pub fn with_ledger_close_interval(self, secs: u64) -> (env: TestEnv)
        requires
            secs != 0,
        ensures
            env@ == (ClockView { interval_override: Some(secs), ..self@ }),
            env.ledger_settings() == self.ledger_settings(),
    {
        if secs == 0 {
            // Unverified callers that pass zero get the documented panic.
            Err::<(), TestkitError>(zero_interval()).unwrap();
        }
        TestEnv { env: self.env, close_interval_override: Some(CloseInterval { secs }) }
    }

    /// The number of seconds each ledger takes to close in this environment:
    /// its own setting, else `LEDGER_CLOSE_TIME_SECS`. Never zero.
    pub fn ledger_close_interval(&self) -> (secs: u64)
        ensures
            secs == self@.interval(),
            secs > 0,
    {
        match &self.close_interval_override {
            Some(interval) => {
                proof {
                    use_type_invariant(interval);
                }
                interval.secs
            },
            None => LEDGER_CLOSE_TIME_SECS,
        }
    }

    /// The current ledger timestamp (unix seconds).
    pub fn now(&self) -> (t: u64)
        ensures
            t == self@.timestamp,
    {
        ledger_timestamp(&self.env)
    }

    /// The current ledger sequence number.
    pub fn sequence(&self) -> (s: u32)
        ensures
            s == self@.sequence,
    {
        ledger_sequence(&self.env)
    }

    /// Moves the timestamp forward by `secs` and the sequence number by the
    /// whole ledgers that cover them. Both new values are checked before
    /// either is written, so a refused advance leaves the clock untouched.
    pub fn try_advance_secs(&mut self, secs: u64) -> (r: Result<(), TestkitError>)
        ensures
            (match r {
                Ok(_) => advance_secs(old(self)@, secs) == Some(final(self)@),
                Err(e) => advance_secs(old(self)@, secs) is None
                    && final(self)@ == old(self)@
                    && error_text(e) == advance_secs_refusal(old(self)@, secs),
            }),
            final(self).ledger_settings() == old(self).ledger_settings(),
    {
        let timestamp = self.now();
        let sequence = self.sequence();
        let interval = self.ledger_close_interval();
        let ledgers = div_ceil(secs, interval);
        if ledgers > u32::MAX as u64 || sequence > u32::MAX - ledgers as u32 {
            return Err(sequence_overflow(secs, interval, ledgers, sequence));
        }
        if timestamp > u64::MAX - secs {
            return Err(timestamp_overflow(secs, interval, ledgers, timestamp));
        }
        set_ledger_timestamp(&mut self.env, timestamp + secs);
        set_ledger_sequence(&mut self.env, sequence + ledgers as u32);
        Ok(())
    }

    /// Attempts to advance the clock by the whole seconds of `duration` (the
    /// sub-second part is ignored), moving the sequence number in
    /// proportion.
    pub fn try_advance(&mut self, duration: Duration) -> (r: Result<(), TestkitError>)
        ensures
            (match r {
                Ok(_) => advance_secs(old(self)@, duration_whole_secs(duration)) == Some(final(self)@),
                Err(e) => advance_secs(old(self)@, duration_whole_secs(duration)) is None
                    && final(self)@ == old(self)@
                    && error_text(e) == advance_secs_refusal(old(self)@, duration_whole_secs(duration)),
            }),
            final(self).ledger_settings() == old(self).ledger_settings(),
    {
        self.try_advance_secs(whole_secs(duration))
    }

    /// Advances the clock by the whole seconds of `duration`; the advance
    /// must fit the ledger arithmetic.
    pub fn advance(&mut self, duration: Duration)
        requires
            advance_secs(old(self)@, duration_whole_secs(duration)) is Some,
        ensures
            advance_secs(old(self)@, duration_whole_secs(duration)) == Some(final(self)@),
            final(self).ledger_settings() == old(self).ledger_settings(),
    {
        self.try_advance(duration).unwrap()
    }

    /// Attempts to advance the clock by `minutes` minutes of 60 seconds.
    pub fn try_advance_minutes(&mut self, minutes: u64) -> (r: Result<(), TestkitError>)
        ensures
            (match r {
                Ok(_) => advance_units(old(self)@, minutes, SECS_PER_MINUTE) == Some(final(self)@),
                Err(e) => advance_units(old(self)@, minutes, SECS_PER_MINUTE) is None
                    && final(self)@ == old(self)@
                    && error_text(e) == advance_units_refusal(old(self)@, "try_advance_minutes"@, minutes, SECS_PER_MINUTE),
            }),
            final(self).ledger_settings() == old(self).ledger_settings(),
    {
        let secs = calendar_secs("try_advance_minutes", minutes, SECS_PER_MINUTE)?;
        self.try_advance_secs(secs)
    }

    /// Advances the clock by `minutes` minutes; the advance must fit the
    /// ledger arithmetic.
    pub fn advance_minutes(&mut self, minutes: u64)
        requires
            advance_units(old(self)@, minutes, SECS_PER_MINUTE) is Some,
        ensures
            advance_units(old(self)@, minutes, SECS_PER_MINUTE) == Some(final(self)@),
            final(self).ledger_settings() == old(self).ledger_settings(),
    {
        self.try_advance_minutes(minutes).unwrap()
    }

    /// Attempts to advance the clock by `hours` hours of 3,600 seconds.
    pub fn try_advance_hours(&mut self, hours: u64) -> (r: Result<(), TestkitError>)
        ensures
            (match r {
                Ok(_) => advance_units(old(self)@, hours, SECS_PER_HOUR) == Some(final(self)@),
                Err(e) => advance_units(old(self)@, hours, SECS_PER_HOUR) is None
                    && final(self)@ == old(self)@
                    && error_text(e) == advance_units_refusal(old(self)@, "try_advance_hours"@, hours, SECS_PER_HOUR),
            }),
            final(self).ledger_settings() == old(self).ledger_settings(),
    {
        let secs = calendar_secs("try_advance_hours", hours, SECS_PER_HOUR)?;
        self.try_advance_secs(secs)
    }

    /// Advances the clock by `hours` hours; the advance must fit the ledger
    /// arithmetic.
    pub fn advance_hours(&mut self, hours: u64)
        requires
            advance_units(old(self)@, hours, SECS_PER_HOUR) is Some,
        ensures
            advance_units(old(self)@, hours, SECS_PER_HOUR) == Some(final(self)@),
            final(self).ledger_settings() == old(self).ledger_settings(),
    {
        self.try_advance_hours(hours).unwrap()
    }

    /// Attempts to advance the clock by `days` days of 86,400 seconds.
    pub fn try_advance_days(&mut self, days: u64) -> (r: Result<(), TestkitError>)
        ensures
            (match r {
                Ok(_) => advance_units(old(self)@, days, SECS_PER_DAY) == Some(final(self)@),
                Err(e) => advance_units(old(self)@, days, SECS_PER_DAY) is None
                    && final(self)@ == old(self)@
                    && error_text(e) == advance_units_refusal(old(self)@, "try_advance_days"@, days, SECS_PER_DAY),
            }),
            final(self).ledger_settings() == old(self).ledger_settings(),
    {
        let secs = calendar_secs("try_advance_days", days, SECS_PER_DAY)?;
        self.try_advance_secs(secs)
    }

    /// Advances the clock by `days` days; the advance must fit the ledger
    /// arithmetic.
    pub fn advance_days(&mut self, days: u64)
        requires
            advance_units(old(self)@, days, SECS_PER_DAY) is Some,
        ensures
            advance_units(old(self)@, days, SECS_PER_DAY) == Some(final(self)@),
            final(self).ledger_settings() == old(self).ledger_settings(),
    {
        self.try_advance_days(days).unwrap()
    }

    /// Attempts to advance by exactly `n` ledgers, moving the timestamp
    /// forward by `n` close intervals. All three limits are checked before
    /// anything is written.
    pub fn try_advance_ledgers(&mut self, n: u32) -> (r: Result<(), TestkitError>)
        ensures
            (match r {
                Ok(_) => advance_ledgers(old(self)@, n) == Some(final(self)@),
                Err(e) => advance_ledgers(old(self)@, n) is None
                    && final(self)@ == old(self)@
                    && error_text(e) == advance_ledgers_refusal(old(self)@, n),
            }),
            final(self).ledger_settings() == old(self).ledger_settings(),
    {
        let timestamp = self.now();
        let sequence = self.sequence();
        let interval = self.ledger_close_interval();
        let span = match (n as u64).checked_mul(interval) {
            Some(span) => span,
            None => return Err(ledger_span_overflow(n, interval)),
        };
        let target_sequence = match sequence.checked_add(n) {
            Some(s) => s,
            None => return Err(ledger_sequence_overflow(n, sequence)),
        };
        let target_timestamp = match timestamp.checked_add(span) {
            Some(t) => t,
            None => return Err(ledger_timestamp_overflow(n, timestamp)),
        };
        set_ledger_sequence(&mut self.env, target_sequence);
        set_ledger_timestamp(&mut self.env, target_timestamp);
        Ok(())
    }

    /// Advances by exactly `n` ledgers; the advance must fit the ledger
    /// arithmetic.
    pub fn advance_ledgers(&mut self, n: u32)
        requires
            advance_ledgers(old(self)@, n) is Some,
        ensures
            advance_ledgers(old(self)@, n) == Some(final(self)@),
            final(self).ledger_settings() == old(self).ledger_settings(),
    {
        self.try_advance_ledgers(n).unwrap()
    }

    /// Attempts to jump to the absolute unix time `timestamp`, advancing the
    /// sequence number in proportion to the elapsed time. The ledger clock
    /// cannot run backwards: a time before the current one is refused.
    pub fn try_warp_to(&mut self, timestamp: u64) -> (r: Result<(), TestkitError>)
        ensures
            (match r {
                Ok(_) => warp_to(old(self)@, timestamp) == Some(final(self)@),
                Err(e) => warp_to(old(self)@, timestamp) is None
                    && final(self)@ == old(self)@
                    && error_text(e) == warp_to_refusal(old(self)@, timestamp),
            }),
            final(self).ledger_settings() == old(self).ledger_settings(),
    {
        let now = self.now();
        if timestamp < now {
            return Err(warp_into_past(timestamp, now));
        }
        self.try_advance_secs(timestamp - now)
    }

    /// Jumps to the absolute unix time `timestamp`; it must not be in the
    /// past and the jump must fit the ledger arithmetic.
    pub fn warp_to(&mut self, timestamp: u64)
        requires
            warp_to(old(self)@, timestamp) is Some,
        ensures
            warp_to(old(self)@, timestamp) == Some(final(self)@),
            final(self).ledger_settings() == old(self).ledger_settings(),
    {
        self.try_warp_to(timestamp).unwrap()
    }
}

} // verus!
