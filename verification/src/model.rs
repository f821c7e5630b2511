//! The mathematical model of a test environment's ledger clock: its state
//! and what each clock move makes of it. The executable functions in
//! `clock` are specified over these definitions.
use vstd::prelude::*;

use crate::clock::{LEDGER_CLOSE_TIME_SECS, SECS_PER_MINUTE};

verus! {

/// The ledger clock of a test environment: the ledger timestamp, the ledger
/// sequence number, and the close interval that the environment was
/// configured with, if any.
pub struct ClockView {
    pub timestamp: u64,
    pub sequence: u32,
    pub interval_override: Option<u64>,
}

impl ClockView {
    /// The close interval in effect: the environment's own setting, else the
    /// crate-wide default.
    pub open spec fn interval(self) -> u64 {
        match self.interval_override {
            Some(secs) => secs,
            None => LEDGER_CLOSE_TIME_SECS,
        }
    }

    /// The same clock moved to `timestamp` and `sequence`.
    pub open spec fn moved_to(self, timestamp: int, sequence: int) -> ClockView {
        ClockView {
            timestamp: timestamp as u64,
            sequence: sequence as u32,
            interval_override: self.interval_override,
        }
    }
}

/// The number of whole ledgers that cover `secs` seconds at `interval`
/// seconds per ledger: `secs / interval` rounded up.
pub open spec fn ledgers_for(secs: nat, interval: nat) -> nat {
    if interval == 0 {
        0
    } else if secs % interval == 0 {
        secs / interval
    } else {
        secs / interval + 1
    }
}

/// Advancing by `secs` seconds: the timestamp moves by exactly `secs` and
/// the sequence by the ledgers that cover them; `None` when either would
/// pass its type's maximum.
pub open spec fn advance_secs(c: ClockView, secs: u64) -> Option<ClockView> {
    let ledgers = ledgers_for(secs as nat, c.interval() as nat);
    if c.sequence + ledgers <= u32::MAX && c.timestamp + secs <= u64::MAX {
        Some(c.moved_to(c.timestamp + secs, c.sequence + ledgers))
    } else {
        None
    }
}

/// Advancing by `count` calendar units of `unit` seconds each: `None` when
/// the number of seconds does not fit in a `u64`, else an advance by that
/// many seconds.
pub open spec fn advance_units(c: ClockView, count: u64, unit: u64) -> Option<ClockView> {
    if count * unit <= u64::MAX {
        advance_secs(c, (count * unit) as u64)
    } else {
        None
    }
}

/// Advancing by exactly `n` ledgers: the sequence moves by `n` and the
/// timestamp by `n` close intervals; `None` when the time span, the sequence
/// or the timestamp would pass its type's maximum.
pub open spec fn advance_ledgers(c: ClockView, n: u32) -> Option<ClockView> {
    let span = n * c.interval();
    if span <= u64::MAX && c.sequence + n <= u32::MAX && c.timestamp + span <= u64::MAX {
        Some(c.moved_to(c.timestamp + span, c.sequence + n))
    } else {
        None
    }
}

/// Jumping to the absolute time `timestamp`: `None` for a time before the
/// clock's, else an advance by the seconds in between.
pub open spec fn warp_to(c: ClockView, timestamp: u64) -> Option<ClockView> {
    if timestamp < c.timestamp {
        None
    } else {
        advance_secs(c, (timestamp - c.timestamp) as u64)
    }
}

/// One move of a test environment's clock.
pub enum ClockMove {
    /// Advance by this many seconds.
    Secs(u64),
    /// Advance by this many ledgers.
    Ledgers(u32),
    /// Jump to this absolute time.
    WarpTo(u64),
    /// Advance by this many minutes.
    Minutes(u64),
}

/// What one move makes of the clock `c`; `None` when the move is refused.
pub open spec fn apply_move(c: ClockView, m: ClockMove) -> Option<ClockView> {
    match m {
        ClockMove::Secs(secs) => advance_secs(c, secs),
        ClockMove::Ledgers(n) => advance_ledgers(c, n),
        ClockMove::WarpTo(timestamp) => warp_to(c, timestamp),
        ClockMove::Minutes(minutes) => advance_units(c, minutes, SECS_PER_MINUTE),
    }
}

/// What a run of moves, made in order, makes of the clock `c`; `None` when
/// one of them is refused.
pub open spec fn run_moves(c: ClockView, moves: Seq<ClockMove>) -> Option<ClockView>
    decreases moves.len(),
{
    if moves.len() == 0 {
        Some(c)
    } else {
        match apply_move(c, moves[0]) {
            Some(next) => run_moves(next, moves.drop_first()),
            None => None,
        }
    }
}

/// Whether a move converts a duration into whole ledgers, rounding up.
pub open spec fn rounds_to_ledgers(m: ClockMove) -> bool {
    !(m is Ledgers)
}

/// How many moves of a run round a duration up to whole ledgers.
pub open spec fn rounding_moves(moves: Seq<ClockMove>) -> nat
    decreases moves.len(),
{
    if moves.len() == 0 {
        0
    } else {
        (if rounds_to_ledgers(moves[0]) { 1nat } else { 0nat }) + rounding_moves(moves.drop_first())
    }
}

} // verus!
