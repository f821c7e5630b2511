//! What holds of the clock moves whatever the inputs: how the timestamp and
//! the sequence number keep in proportion, how moves compose, and which
//! moves change nothing.
use vstd::prelude::*;

use crate::error::{
    advance_ledgers_refusal, advance_secs_refusal, advance_units_refusal, calendar_overflow_text,
    ledger_sequence_overflow_text, ledger_span_overflow_text, ledger_timestamp_overflow_text,
    sequence_overflow_text, timestamp_overflow_text, warp_into_past_text, warp_to_refusal,
};
use crate::model::{
    ClockMove, ClockView, advance_ledgers, advance_secs, advance_units, apply_move, ledgers_for,
    rounding_moves, rounds_to_ledgers, run_moves, warp_to,
};

verus! {

/// `ledgers_for(secs, interval)` is `secs / interval` rounded up: the ledger
/// count whose span covers `secs` and falls short of `secs + interval`.
pub proof fn law_ledger_count_rounds_up(secs: nat, interval: nat)
    requires
        interval > 0,
    ensures
        ledgers_for(secs, interval) * interval >= secs,
        ledgers_for(secs, interval) * interval < secs + interval,
{
    let q = secs / interval;
    let r = secs % interval;
    assert(secs == q * interval + r && 0 <= r < interval) by (nonlinear_arith)
        requires
            interval > 0,
            q == secs / interval,
            r == secs % interval,
    ;
    if r == 0 {
        assert(ledgers_for(secs, interval) == q);
    } else {
        assert(ledgers_for(secs, interval) == q + 1);
        assert((q + 1) * interval == q * interval + interval) by (nonlinear_arith);
    }
}

/// A ledger count whose span covers `secs` is at least `ledgers_for(secs,
/// interval)`, and one whose span falls short of `secs + interval` is at
/// most that.
proof fn lemma_ledgers_bounds(secs: nat, interval: nat, n: nat)
    requires
        interval > 0,
    ensures
        n * interval >= secs ==> n >= ledgers_for(secs, interval),
        n * interval < secs + interval ==> n <= ledgers_for(secs, interval),
{
    law_ledger_count_rounds_up(secs, interval);
    let l = ledgers_for(secs, interval);
    if n * interval >= secs && n < l {
        assert(n * interval <= (l - 1) * interval) by (nonlinear_arith)
            requires
                n < l,
                interval > 0,
        ;
        assert((l - 1) * interval == l * interval - interval) by (nonlinear_arith);
    }
    if n * interval < secs + interval && n > l {
        assert(n * interval >= (l + 1) * interval) by (nonlinear_arith)
            requires
                n > l,
                interval > 0,
        ;
        assert((l + 1) * interval == l * interval + interval) by (nonlinear_arith);
    }
}

/// The round-up ledger count fits a budget of `k` ledgers exactly when the
/// seconds fit in `k` close intervals.
proof fn lemma_ledgers_fit(secs: nat, interval: nat, k: nat)
    requires
        interval > 0,
    ensures
        ledgers_for(secs, interval) <= k <==> secs <= k * interval,
{
    let l = ledgers_for(secs, interval);
    law_ledger_count_rounds_up(secs, interval);
    if l <= k {
        assert(l * interval <= k * interval) by (nonlinear_arith)
            requires
                l <= k,
                interval > 0,
        ;
    }
    if secs <= k * interval {
        lemma_ledgers_bounds(secs, interval, k);
    }
}

/// An advance by `secs` seconds is accepted exactly when the seconds fit in
/// the close intervals left before the sequence number reaches `u32::MAX`
/// and the new timestamp fits in a `u64`, whatever the clock shows
/// otherwise. An accepted advance lands the timestamp exactly `secs` later
/// and moves the sequence number by the one ledger count whose span covers
/// `secs` and falls short of `secs` plus one close interval.
pub proof fn law_advance_is_refused_only_on_overflow(c: ClockView, secs: u64)
    requires
        c.interval() > 0,
    ensures
        advance_secs(c, secs) is Some <==> (
            secs <= (u32::MAX - c.sequence) * c.interval()
            && c.timestamp + secs <= u64::MAX),
        advance_secs(c, secs) is Some ==> {
            let d = advance_secs(c, secs)->0;
            &&& d.timestamp == c.timestamp + secs
            &&& d.sequence >= c.sequence
            &&& (d.sequence - c.sequence) * c.interval() >= secs
            &&& (d.sequence - c.sequence) * c.interval() < secs + c.interval()
            &&& d.interval_override == c.interval_override
        },
{
    lemma_ledgers_fit(secs as nat, c.interval() as nat, (u32::MAX - c.sequence) as nat);
    law_ledger_count_rounds_up(secs as nat, c.interval() as nat);
}

/// An advance by `n` ledgers is accepted exactly when `n` close intervals
/// fit in a `u64`, the sequence number stays within `u32::MAX` and the new
/// timestamp within `u64::MAX`, whatever the clock shows otherwise; an
/// accepted one moves the sequence number by `n` and the timestamp by `n`
/// close intervals.
pub proof fn law_advance_ledgers_is_refused_only_on_overflow(c: ClockView, n: u32)
    ensures
        advance_ledgers(c, n) is Some <==> (
            n * c.interval() <= u64::MAX
            && c.sequence + n <= u32::MAX
            && c.timestamp + n * c.interval() <= u64::MAX),
        advance_ledgers(c, n) is Some ==> {
            let d = advance_ledgers(c, n)->0;
            &&& d.sequence == c.sequence + n
            &&& d.timestamp == c.timestamp + n * c.interval()
            &&& d.interval_override == c.interval_override
        },
{
}

/// A jump to `timestamp` is refused for a time before the clock's; for any
/// other it is exactly an advance by the seconds in between, so it is
/// refused only when their ledgers would take the sequence number past
/// `u32::MAX`. An accepted jump lands exactly on its target with the
/// sequence number moved by the ledgers covering the elapsed time.
pub proof fn law_warp_is_an_advance_to_the_target(c: ClockView, timestamp: u64)
    requires
        c.interval() > 0,
    ensures
        timestamp < c.timestamp ==> warp_to(c, timestamp) is None,
        timestamp >= c.timestamp ==> warp_to(c, timestamp)
            == advance_secs(c, (timestamp - c.timestamp) as u64),
        warp_to(c, timestamp) is Some <==> (
            c.timestamp <= timestamp
            && timestamp - c.timestamp <= (u32::MAX - c.sequence) * c.interval()),
        warp_to(c, timestamp) is Some ==> {
            let d = warp_to(c, timestamp)->0;
            &&& d.timestamp == timestamp
            &&& d.sequence >= c.sequence
            &&& (d.sequence - c.sequence) * c.interval() >= timestamp - c.timestamp
            &&& (d.sequence - c.sequence) * c.interval() < timestamp - c.timestamp + c.interval()
            &&& d.interval_override == c.interval_override
        },
{
    if timestamp >= c.timestamp {
        law_advance_is_refused_only_on_overflow(c, (timestamp - c.timestamp) as u64);
    }
}

/// An advance by `count` units of `unit` seconds is accepted exactly when
/// the seconds fit in a `u64`, in the close intervals left before the
/// sequence number reaches `u32::MAX`, and on top of the timestamp; an
/// accepted one moves the timestamp by exactly `count * unit` seconds and
/// the sequence number by the ledgers covering them.
pub proof fn law_calendar_advance_is_refused_only_on_overflow(c: ClockView, count: u64, unit: u64)
    requires
        c.interval() > 0,
    ensures
        advance_units(c, count, unit) is Some <==> (
            count * unit <= u64::MAX
            && count * unit <= (u32::MAX - c.sequence) * c.interval()
            && c.timestamp + count * unit <= u64::MAX),
        advance_units(c, count, unit) is Some ==> {
            let d = advance_units(c, count, unit)->0;
            &&& d.timestamp == c.timestamp + count * unit
            &&& d.sequence >= c.sequence
            &&& (d.sequence - c.sequence) * c.interval() >= count * unit
            &&& (d.sequence - c.sequence) * c.interval() < count * unit + c.interval()
            &&& d.interval_override == c.interval_override
        },
{
    if count * unit <= u64::MAX {
        law_advance_is_refused_only_on_overflow(c, (count * unit) as u64);
    }
}

/// An advance by `secs` seconds that is accepted moves the timestamp by
/// exactly `secs` and the sequence number by whole ledgers whose span is at
/// least `secs` and exceeds it by less than one close interval; any
/// non-zero advance moves at least one ledger. The close interval does not
/// change.
pub proof fn law_advance_keeps_time_and_ledgers_in_proportion(c: ClockView, secs: u64)
    requires
        c.interval() > 0,
        advance_secs(c, secs) is Some,
    ensures
        ({
            let d = advance_secs(c, secs)->0;
            &&& d.timestamp == c.timestamp + secs
            &&& d.sequence >= c.sequence
            &&& (d.sequence - c.sequence) * c.interval() >= secs
            &&& (d.sequence - c.sequence) * c.interval() <= secs + c.interval() - 1
            &&& secs > 0 ==> d.sequence > c.sequence
            &&& d.interval_override == c.interval_override
        }),
{
    law_ledger_count_rounds_up(secs as nat, c.interval() as nat);
    let l = ledgers_for(secs as nat, c.interval() as nat);
    if secs > 0 && l == 0 {
        assert(l * c.interval() == 0);
    }
}

/// An advance by `n` ledgers that is accepted moves the sequence number by
/// exactly `n` and the timestamp by exactly `n` close intervals.
pub proof fn law_advance_ledgers_is_exact(c: ClockView, n: u32)
    requires
        advance_ledgers(c, n) is Some,
    ensures
        advance_ledgers(c, n)->0.sequence == c.sequence + n,
        advance_ledgers(c, n)->0.timestamp == c.timestamp + n * c.interval(),
        advance_ledgers(c, n)->0.interval_override == c.interval_override,
{
}

/// Advancing by a whole number `n` of close intervals is the same as
/// advancing by `n` ledgers: both are accepted or both refused, and they
/// leave the same clock.
pub proof fn law_whole_intervals_are_ledgers(c: ClockView, n: u32)
    requires
        c.interval() > 0,
        n * c.interval() <= u64::MAX,
    ensures
        advance_secs(c, (n * c.interval()) as u64) == advance_ledgers(c, n),
{
    let i = c.interval() as nat;
    let secs = (n * c.interval()) as nat;
    assert(secs % i == 0 && secs / i == n) by (nonlinear_arith)
        requires
            secs == n * i,
            i > 0,
    ;
}

/// Splitting an advance in two keeps the time: if both parts are accepted,
/// so is the whole, the timestamps agree, and the split is never behind the
/// whole and at most one ledger ahead of it (each part rounds up on its
/// own).
pub proof fn law_split_advance_adds_at_most_one_ledger(c: ClockView, a: u64, b: u64)
    requires
        c.interval() > 0,
        a + b <= u64::MAX,
        advance_secs(c, a) is Some,
        advance_secs(advance_secs(c, a)->0, b) is Some,
    ensures
        ({
            let split = advance_secs(advance_secs(c, a)->0, b)->0;
            &&& advance_secs(c, (a + b) as u64) is Some
            &&& split.timestamp == advance_secs(c, (a + b) as u64)->0.timestamp
            &&& advance_secs(c, (a + b) as u64)->0.sequence <= split.sequence
            &&& split.sequence <= advance_secs(c, (a + b) as u64)->0.sequence + 1
            &&& split.interval_override == c.interval_override
        }),
{
    let i = c.interval() as nat;
    let la = ledgers_for(a as nat, i);
    let lb = ledgers_for(b as nat, i);
    let lw = ledgers_for((a + b) as nat, i);
    law_ledger_count_rounds_up(a as nat, i);
    law_ledger_count_rounds_up(b as nat, i);
    assert((la + lb) * i == la * i + lb * i) by (nonlinear_arith);
    lemma_ledgers_bounds((a + b) as nat, i, la + lb);
    law_ledger_count_rounds_up((a + b) as nat, i);
    assert(la + lb < lw + 2) by (nonlinear_arith)
        requires
            (la + lb) * i < a + b + 2 * i,
            lw * i >= a + b,
            i > 0,
    ;
}

/// Splitting an advance at a whole number of close intervals loses nothing:
/// the split and the whole leave the same clock.
pub proof fn law_split_at_whole_intervals_is_exact(c: ClockView, x: u32, y: u32)
    requires
        c.interval() > 0,
        (x + y) * c.interval() <= u64::MAX,
        advance_secs(c, (x * c.interval()) as u64) is Some,
        advance_secs(advance_secs(c, (x * c.interval()) as u64)->0, (y * c.interval()) as u64) is Some,
    ensures
        advance_secs(advance_secs(c, (x * c.interval()) as u64)->0, (y * c.interval()) as u64)
            == advance_secs(c, ((x + y) * c.interval()) as u64),
{
    let i = c.interval() as nat;
    assert((x + y) * i == x * i + y * i) by (nonlinear_arith);
    assert(x * i <= (x + y) * i && y * i <= (x + y) * i) by (nonlinear_arith);
    assert(((x * i) as nat) % i == 0 && ((x * i) as nat) / i == x) by (nonlinear_arith)
        requires
            i > 0,
    ;
    assert(((y * i) as nat) % i == 0 && ((y * i) as nat) / i == y) by (nonlinear_arith)
        requires
            i > 0,
    ;
    assert((((x + y) * i) as nat) % i == 0 && (((x + y) * i) as nat) / i == x + y) by (nonlinear_arith)
        requires
            i > 0,
    ;
}

/// An advance by zero seconds, and a jump to the time the clock already
/// shows, are accepted and change nothing.
pub proof fn law_empty_moves_change_nothing(c: ClockView)
    requires
        c.interval() > 0,
    ensures
        advance_secs(c, 0) == Some(c),
        warp_to(c, c.timestamp) == Some(c),
{
    assert(ledgers_for(0, c.interval() as nat) == 0);
}

/// A jump to a time before the clock's is refused; a jump that is accepted
/// lands exactly on its target and moves the sequence number by the whole
/// ledgers that cover the elapsed time.
pub proof fn law_warp_lands_on_its_target(c: ClockView, timestamp: u64)
    ensures
        timestamp < c.timestamp ==> warp_to(c, timestamp) is None,
        warp_to(c, timestamp) is Some ==> {
            &&& warp_to(c, timestamp)->0.timestamp == timestamp
            &&& warp_to(c, timestamp)->0.sequence
                == c.sequence + ledgers_for((timestamp - c.timestamp) as nat, c.interval() as nat)
        },
{
}

/// A calendar helper is an advance by the same number of seconds: counting
/// `count * k` units of `unit` seconds is counting `count` units of
/// `unit * k` seconds, and both are advances by `count * unit * k` seconds.
pub proof fn law_calendar_units_are_seconds(c: ClockView, count: u64, unit: u64, k: u64)
    requires
        count * k <= u64::MAX,
        unit * k <= u64::MAX,
    ensures
        advance_units(c, (count * k) as u64, unit) == advance_units(c, count, (unit * k) as u64),
        count * unit * k <= u64::MAX ==> advance_units(c, count, (unit * k) as u64)
            == advance_secs(c, (count * unit * k) as u64),
{
    assert((count * k) * unit == count * (unit * k)) by (nonlinear_arith);
    assert(count * unit * k == count * (unit * k)) by (nonlinear_arith);
}

/// One accepted move keeps the clock monotonic and proportional: neither
/// the timestamp nor the sequence number goes back, the ledgers moved span
/// at least the time moved, and only a rounding move lets them run ahead,
/// by less than one close interval.
proof fn lemma_move_in_proportion(c: ClockView, m: ClockMove)
    requires
        c.interval() > 0,
        apply_move(c, m) is Some,
    ensures
        ({
            let d = apply_move(c, m)->0;
            &&& d.timestamp >= c.timestamp
            &&& d.sequence >= c.sequence
            &&& d.interval_override == c.interval_override
            &&& (d.sequence - c.sequence) * c.interval() >= d.timestamp - c.timestamp
            &&& (d.sequence - c.sequence) * c.interval() <= d.timestamp - c.timestamp
                + (if rounds_to_ledgers(m) { c.interval() - 1 } else { 0 })
        }),
{
    match m {
        ClockMove::Secs(secs) => {
            law_advance_keeps_time_and_ledgers_in_proportion(c, secs);
        },
        ClockMove::Ledgers(n) => {
            law_advance_ledgers_is_exact(c, n);
        },
        ClockMove::WarpTo(timestamp) => {
            law_advance_keeps_time_and_ledgers_in_proportion(c, (timestamp - c.timestamp) as u64);
        },
        ClockMove::Minutes(minutes) => {
            law_advance_keeps_time_and_ledgers_in_proportion(c, (minutes * 60) as u64);
        },
    }
}

/// Any run of accepted moves keeps the clock monotonic and proportional:
/// neither the timestamp nor the sequence number goes back, the ledgers
/// never lag the elapsed time, and they run ahead of it by no more than the
/// rounding that the run's duration-based moves allow, one close interval
/// less a second each. The close interval does not change.
pub proof fn law_runs_stay_monotonic_and_proportional(c: ClockView, moves: Seq<ClockMove>)
    requires
        c.interval() > 0,
        run_moves(c, moves) is Some,
    ensures
        ({
            let d = run_moves(c, moves)->0;
            &&& d.timestamp >= c.timestamp
            &&& d.sequence >= c.sequence
            &&& d.interval_override == c.interval_override
            &&& (d.sequence - c.sequence) * c.interval() >= d.timestamp - c.timestamp
            &&& (d.sequence - c.sequence) * c.interval()
                <= d.timestamp - c.timestamp + rounding_moves(moves) * (c.interval() - 1)
        }),
    decreases moves.len(),
{
    if moves.len() > 0 {
        let m = moves[0];
        lemma_move_in_proportion(c, m);
        let next = apply_move(c, m)->0;
        law_runs_stay_monotonic_and_proportional(next, moves.drop_first());
        let d = run_moves(c, moves)->0;
        let i = c.interval() as int;
        let s1 = next.sequence - c.sequence;
        let s2 = d.sequence - next.sequence;
        let r = rounding_moves(moves.drop_first()) as int;
        let own: int = if rounds_to_ledgers(m) { 1 } else { 0 };
        assert((s1 + s2) * i == s1 * i + s2 * i) by (nonlinear_arith);
        assert((own + r) * (i - 1) == own * (i - 1) + r * (i - 1)) by (nonlinear_arith);
    }
}

/// A refused advance by `secs` seconds names the limit that failed: the
/// sequence number when the seconds do not fit in the close intervals left
/// before `u32::MAX` (with the duration, the interval, the round-up ledger
/// count and the sequence number), else the timestamp (with the duration,
/// the interval, the ledger count and the timestamp).
pub proof fn law_advance_refusal_names_the_failed_limit(c: ClockView, secs: u64)
    requires
        c.interval() > 0,
    ensures
        secs > (u32::MAX - c.sequence) * c.interval() ==> advance_secs_refusal(c, secs)
            == sequence_overflow_text(secs as nat, c.interval() as nat,
                ledgers_for(secs as nat, c.interval() as nat), c.sequence as nat),
        secs <= (u32::MAX - c.sequence) * c.interval() ==> advance_secs_refusal(c, secs)
            == timestamp_overflow_text(secs as nat, c.interval() as nat,
                ledgers_for(secs as nat, c.interval() as nat), c.timestamp as nat),
{
    lemma_ledgers_fit(secs as nat, c.interval() as nat, (u32::MAX - c.sequence) as nat);
}

/// A refused calendar advance names the helper and the count when the
/// seconds do not fit in a `u64`, and is otherwise refused as the advance by
/// that many seconds.
pub proof fn law_calendar_refusal_names_the_failed_limit(
    c: ClockView,
    helper: Seq<char>,
    count: u64,
    unit: u64,
)
    ensures
        count * unit > u64::MAX ==> advance_units_refusal(c, helper, count, unit)
            == calendar_overflow_text(helper, count as nat, unit as nat),
        count * unit <= u64::MAX ==> advance_units_refusal(c, helper, count, unit)
            == advance_secs_refusal(c, (count * unit) as u64),
{
}

/// A refused advance by `n` ledgers names the first limit that failed: the
/// time span of `n` close intervals, then the sequence number, then the
/// timestamp.
pub proof fn law_ledgers_refusal_names_the_failed_limit(c: ClockView, n: u32)
    ensures
        n * c.interval() > u64::MAX ==> advance_ledgers_refusal(c, n)
            == ledger_span_overflow_text(n as nat, c.interval() as nat),
        n * c.interval() <= u64::MAX && c.sequence + n > u32::MAX ==> advance_ledgers_refusal(c, n)
            == ledger_sequence_overflow_text(n as nat, c.sequence as nat),
        n * c.interval() <= u64::MAX && c.sequence + n <= u32::MAX ==> advance_ledgers_refusal(c, n)
            == ledger_timestamp_overflow_text(n as nat, c.timestamp as nat),
{
}

/// A refused jump names both times when the target is in the past, and is
/// otherwise refused as the advance by the seconds in between.
pub proof fn law_warp_refusal_names_the_failed_limit(c: ClockView, timestamp: u64)
    ensures
        timestamp < c.timestamp ==> warp_to_refusal(c, timestamp)
            == warp_into_past_text(timestamp as nat, c.timestamp as nat),
        timestamp >= c.timestamp ==> warp_to_refusal(c, timestamp)
            == advance_secs_refusal(c, (timestamp - c.timestamp) as u64),
{
}

} // verus!
