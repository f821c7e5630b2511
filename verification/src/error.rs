//! The error that a refused clock move returns, and the exact wording of its
//! message for each way a move can be refused.
use vstd::prelude::*;

use crate::model::{ClockView, ledgers_for};

verus! {

/// An error of the test kit.
#[derive(Debug)]
pub enum TestkitError {
    /// The API was used in a way it does not support; the text says how.
    Misuse(String),
}

/// The text of an error, whatever its kind.
pub open spec fn error_text(e: TestkitError) -> Seq<char> {
    match e {
        TestkitError::Misuse(text) => text@,
    }
}

/// The character of the decimal digit `d`.
pub open spec fn digit(d: nat) -> char {
    (d + 48) as char
}

/// The decimal digits of `n`, most significant first, with no sign and no
/// leading zeros.
pub open spec fn decimal_digits(n: nat) -> Seq<char>
    decreases n,
{
    if n < 10 {
        seq![digit(n)]
    } else {
        decimal_digits(n / 10).push(digit(n % 10))
    }
}

/// Calls `<u64 as ToString>::to_string`, which writes the number through its
/// `Display` impl; std documents that as the number's decimal digits, with
/// no sign, padding or leading zeros for an unsigned value. The contract
/// claims exactly those digits.
#[verifier::external_body]
fn decimal(n: u64) -> (s: String)
    ensures
        s@ == decimal_digits(n as nat),
{
    n.to_string()
}

/// Why `secs` seconds did not fit: the matching ledger count would take the
/// sequence number past `u32::MAX`.
pub open spec fn sequence_overflow_text(secs: nat, interval: nat, ledgers: nat, sequence: nat) -> Seq<char> {
    "advancing the ledger clock by "@ + decimal_digits(secs) + "s overflows ledger arithmetic: at "@
        + decimal_digits(interval) + "s per ledger that is "@ + decimal_digits(ledgers)
        + " ledgers, but the clock is at sequence "@ + decimal_digits(sequence)
        + " (a u32); use a shorter duration"@
}

/// Why `secs` seconds did not fit: the timestamp would pass `u64::MAX`.
pub open spec fn timestamp_overflow_text(secs: nat, interval: nat, ledgers: nat, timestamp: nat) -> Seq<char> {
    "advancing the ledger clock by "@ + decimal_digits(secs) + "s overflows ledger arithmetic: at "@
        + decimal_digits(interval) + "s per ledger that is "@ + decimal_digits(ledgers)
        + " ledgers, but the clock is at timestamp "@ + decimal_digits(timestamp)
        + " (a u64); use a shorter duration"@
}

/// Why `count` units of `unit` seconds, asked of the helper named `helper`,
/// do not fit in a `u64` number of seconds.
pub open spec fn calendar_overflow_text(helper: Seq<char>, count: nat, unit: nat) -> Seq<char> {
    helper + "("@ + decimal_digits(count) + ") overflows ledger arithmetic: "@
        + decimal_digits(count) + " * "@ + decimal_digits(unit)
        + "s does not fit in a u64 number of seconds"@
}

/// Why `n` ledgers of `interval` seconds do not fit in a `u64` number of
/// seconds.
pub open spec fn ledger_span_overflow_text(n: nat, interval: nat) -> Seq<char> {
    "advancing "@ + decimal_digits(n) + " ledgers at "@ + decimal_digits(interval)
        + "s per ledger overflows ledger arithmetic"@
}

/// Why `n` more ledgers would take the sequence number, now `sequence`, past
/// `u32::MAX`.
pub open spec fn ledger_sequence_overflow_text(n: nat, sequence: nat) -> Seq<char> {
    "advancing by "@ + decimal_digits(n) + " ledgers would overflow the sequence number (currently at "@
        + decimal_digits(sequence) + ")"@
}

/// Why `n` more ledgers would take the timestamp, now `timestamp`, past
/// `u64::MAX`.
pub open spec fn ledger_timestamp_overflow_text(n: nat, timestamp: nat) -> Seq<char> {
    "advancing by "@ + decimal_digits(n) + " ledgers would overflow the timestamp (currently at "@
        + decimal_digits(timestamp) + ")"@
}

/// Why the clock, now at `now`, cannot jump back to `timestamp`.
pub open spec fn warp_into_past_text(timestamp: nat, now: nat) -> Seq<char> {
    "warp_to("@ + decimal_digits(timestamp) + ") is before the current ledger time ("@
        + decimal_digits(now) + "); the ledger clock cannot run backwards"@
}

/// Why a close interval of zero is refused.
pub open spec fn zero_interval_text() -> Seq<char> {
    "ledger close interval must be at least 1 second; a zero interval cannot map elapsed time onto ledger sequence numbers"@
}

/// The text of the error that refuses advancing `c` by `secs` seconds: the
/// sequence number is checked first, then the timestamp.
pub open spec fn advance_secs_refusal(c: ClockView, secs: u64) -> Seq<char> {
    let ledgers = ledgers_for(secs as nat, c.interval() as nat);
    if c.sequence + ledgers > u32::MAX {
        sequence_overflow_text(secs as nat, c.interval() as nat, ledgers, c.sequence as nat)
    } else {
        timestamp_overflow_text(secs as nat, c.interval() as nat, ledgers, c.timestamp as nat)
    }
}

/// The text of the error that refuses advancing `c` by `count` units of
/// `unit` seconds through the helper named `helper`.
pub open spec fn advance_units_refusal(c: ClockView, helper: Seq<char>, count: u64, unit: u64) -> Seq<char> {
    if count * unit > u64::MAX {
        calendar_overflow_text(helper, count as nat, unit as nat)
    } else {
        advance_secs_refusal(c, (count * unit) as u64)
    }
}

/// The text of the error that refuses advancing `c` by `n` ledgers: the
/// time span is checked first, then the sequence number, then the timestamp.
pub open spec fn advance_ledgers_refusal(c: ClockView, n: u32) -> Seq<char> {
    let span = n * c.interval();
    if span > u64::MAX {
        ledger_span_overflow_text(n as nat, c.interval() as nat)
    } else if c.sequence + n > u32::MAX {
        ledger_sequence_overflow_text(n as nat, c.sequence as nat)
    } else {
        ledger_timestamp_overflow_text(n as nat, c.timestamp as nat)
    }
}

/// The text of the error that refuses moving `c` to the time `timestamp`.
pub open spec fn warp_to_refusal(c: ClockView, timestamp: u64) -> Seq<char> {
    if timestamp < c.timestamp {
        warp_into_past_text(timestamp as nat, c.timestamp as nat)
    } else {
        advance_secs_refusal(c, (timestamp - c.timestamp) as u64)
    }
}

pub(crate) fn sequence_overflow(secs: u64, interval: u64, ledgers: u64, sequence: u32) -> (e: TestkitError)
    ensures
        error_text(e) == sequence_overflow_text(secs as nat, interval as nat, ledgers as nat, sequence as nat),
{
    let mut text = String::from_str("advancing the ledger clock by ");
    text.append(decimal(secs).as_str());
    text.append("s overflows ledger arithmetic: at ");
    text.append(decimal(interval).as_str());
    text.append("s per ledger that is ");
    text.append(decimal(ledgers).as_str());
    text.append(" ledgers, but the clock is at sequence ");
    text.append(decimal(sequence as u64).as_str());
    text.append(" (a u32); use a shorter duration");
    TestkitError::Misuse(text)
}

pub(crate) fn timestamp_overflow(secs: u64, interval: u64, ledgers: u64, timestamp: u64) -> (e: TestkitError)
    ensures
        error_text(e) == timestamp_overflow_text(secs as nat, interval as nat, ledgers as nat, timestamp as nat),
{
    let mut text = String::from_str("advancing the ledger clock by ");
    text.append(decimal(secs).as_str());
    text.append("s overflows ledger arithmetic: at ");
    text.append(decimal(interval).as_str());
    text.append("s per ledger that is ");
    text.append(decimal(ledgers).as_str());
    text.append(" ledgers, but the clock is at timestamp ");
    text.append(decimal(timestamp).as_str());
    text.append(" (a u64); use a shorter duration");
    TestkitError::Misuse(text)
}

pub(crate) fn calendar_overflow(helper: &str, count: u64, unit: u64) -> (e: TestkitError)
    ensures
        error_text(e) == calendar_overflow_text(helper@, count as nat, unit as nat),
{
    let mut text = String::from_str(helper);
    text.append("(");
    text.append(decimal(count).as_str());
    text.append(") overflows ledger arithmetic: ");
    text.append(decimal(count).as_str());
    text.append(" * ");
    text.append(decimal(unit).as_str());
    text.append("s does not fit in a u64 number of seconds");
    TestkitError::Misuse(text)
}

pub(crate) fn ledger_span_overflow(n: u32, interval: u64) -> (e: TestkitError)
    ensures
        error_text(e) == ledger_span_overflow_text(n as nat, interval as nat),
{
    let mut text = String::from_str("advancing ");
    text.append(decimal(n as u64).as_str());
    text.append(" ledgers at ");
    text.append(decimal(interval).as_str());
    text.append("s per ledger overflows ledger arithmetic");
    TestkitError::Misuse(text)
}

pub(crate) fn ledger_sequence_overflow(n: u32, sequence: u32) -> (e: TestkitError)
    ensures
        error_text(e) == ledger_sequence_overflow_text(n as nat, sequence as nat),
{
    let mut text = String::from_str("advancing by ");
    text.append(decimal(n as u64).as_str());
    text.append(" ledgers would overflow the sequence number (currently at ");
    text.append(decimal(sequence as u64).as_str());
    text.append(")");
    TestkitError::Misuse(text)
}

pub(crate) fn ledger_timestamp_overflow(n: u32, timestamp: u64) -> (e: TestkitError)
    ensures
        error_text(e) == ledger_timestamp_overflow_text(n as nat, timestamp as nat),
{
    let mut text = String::from_str("advancing by ");
    text.append(decimal(n as u64).as_str());
    text.append(" ledgers would overflow the timestamp (currently at ");
    text.append(decimal(timestamp).as_str());
    text.append(")");
    TestkitError::Misuse(text)
}

pub(crate) fn warp_into_past(timestamp: u64, now: u64) -> (e: TestkitError)
    ensures
        error_text(e) == warp_into_past_text(timestamp as nat, now as nat),
{
    let mut text = String::from_str("warp_to(");
    text.append(decimal(timestamp).as_str());
    text.append(") is before the current ledger time (");
    text.append(decimal(now).as_str());
    text.append("); the ledger clock cannot run backwards");
    TestkitError::Misuse(text)
}

pub(crate) fn zero_interval() -> (e: TestkitError)
    ensures
        error_text(e) == zero_interval_text(),
{
    TestkitError::Misuse(String::from_str(
        "ledger close interval must be at least 1 second; a zero interval cannot map elapsed time onto ledger sequence numbers",
    ))
}

} // verus!
