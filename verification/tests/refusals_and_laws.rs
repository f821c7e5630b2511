use std::time::Duration;

use soroban_testkit::{TestEnv, TestkitError, calendar_secs};

fn text(result: Result<(), TestkitError>) -> String {
    match result {
        Err(TestkitError::Misuse(text)) => text,
        Ok(()) => panic!("the move was accepted"),
    }
}

#[test]
fn a_fresh_environment_starts_at_time_zero_and_sequence_zero() {
    let env = TestEnv::new();
    assert_eq!((env.now(), env.sequence()), (0, 0));
    assert_eq!(env.close_interval_override(), None);
}

#[test]
fn the_sub_second_part_of_a_duration_is_ignored() {
    let mut env = TestEnv::new();
    env.advance(Duration::from_millis(1_500));
    assert_eq!((env.now(), env.sequence()), (1, 1));
    env.advance(Duration::from_millis(999));
    assert_eq!((env.now(), env.sequence()), (1, 1));
}

#[test]
fn the_sdk_environment_shows_the_clock() {
    let mut env = TestEnv::new().with_ledger_close_interval(4);
    env.advance(Duration::from_secs(9));
    let ledger = soroban_sdk::testutils::Ledger::get(&env.env().ledger());
    assert_eq!((ledger.timestamp, ledger.sequence_number), (9, 3));
}

#[test]
fn a_sequence_overflow_names_the_duration_and_the_ledger_count() {
    let mut env = TestEnv::new();
    assert_eq!(
        text(env.try_advance(Duration::from_secs(u64::MAX))),
        "advancing the ledger clock by 18446744073709551615s overflows ledger arithmetic: \
         at 5s per ledger that is 3689348814741910323 ledgers, but the clock is at sequence 0 \
         (a u32); use a shorter duration"
    );
}

#[test]
fn a_timestamp_overflow_names_the_current_timestamp() {
    let mut env = TestEnv::new();
    soroban_sdk::testutils::Ledger::set_timestamp(&env.env().ledger(), u64::MAX - 10);
    assert_eq!(
        text(env.try_advance(Duration::from_secs(60))),
        "advancing the ledger clock by 60s overflows ledger arithmetic: at 5s per ledger that \
         is 12 ledgers, but the clock is at timestamp 18446744073709551605 (a u64); use a \
         shorter duration"
    );
    assert_eq!(env.now(), u64::MAX - 10);
}

#[test]
fn a_calendar_overflow_names_the_helper_and_the_count() {
    let mut env = TestEnv::new();
    assert_eq!(
        text(env.try_advance_minutes(u64::MAX)),
        "try_advance_minutes(18446744073709551615) overflows ledger arithmetic: \
         18446744073709551615 * 60s does not fit in a u64 number of seconds"
    );
    assert_eq!(
        text(env.try_advance_days(u64::MAX / 86_400 + 1)),
        "try_advance_days(213503982334602) overflows ledger arithmetic: 213503982334602 * \
         86400s does not fit in a u64 number of seconds"
    );
}

#[test]
fn calendar_secs_multiplies_or_names_the_helper() {
    assert!(matches!(calendar_secs("helper", 3, 60), Ok(180)));
    assert!(matches!(calendar_secs("helper", 0, u64::MAX), Ok(0)));
    match calendar_secs("helper", u64::MAX / 2 + 1, 2) {
        Err(TestkitError::Misuse(text)) => assert_eq!(
            text,
            "helper(9223372036854775808) overflows ledger arithmetic: 9223372036854775808 * 2s \
             does not fit in a u64 number of seconds"
        ),
        Ok(secs) => panic!("accepted as {secs}s"),
    }
}

#[test]
fn a_ledger_span_overflow_names_the_count_and_the_interval() {
    let mut env = TestEnv::new().with_ledger_close_interval(u64::MAX);
    assert_eq!(
        text(env.try_advance_ledgers(2)),
        "advancing 2 ledgers at 18446744073709551615s per ledger overflows ledger arithmetic"
    );
    assert_eq!((env.now(), env.sequence()), (0, 0));
}

#[test]
fn a_ledger_sequence_overflow_names_the_current_sequence() {
    let mut env = TestEnv::new();
    env.advance_ledgers(u32::MAX);
    assert_eq!(
        text(env.try_advance_ledgers(1)),
        "advancing by 1 ledgers would overflow the sequence number (currently at 4294967295)"
    );
}

#[test]
fn a_ledger_timestamp_overflow_names_the_current_timestamp() {
    let mut env = TestEnv::new();
    soroban_sdk::testutils::Ledger::set_timestamp(&env.env().ledger(), u64::MAX - 10);
    assert_eq!(
        text(env.try_advance_ledgers(3)),
        "advancing by 3 ledgers would overflow the timestamp (currently at 18446744073709551605)"
    );
    assert_eq!((env.now(), env.sequence()), (u64::MAX - 10, 0));
}

#[test]
fn a_warp_into_the_past_names_both_times() {
    let mut env = TestEnv::new();
    env.advance(Duration::from_secs(100));
    assert_eq!(
        text(env.try_warp_to(50)),
        "warp_to(50) is before the current ledger time (100); the ledger clock cannot run backwards"
    );
    assert_eq!((env.now(), env.sequence()), (100, 20));
}

#[test]
fn an_advance_landing_exactly_on_the_timestamp_limit_is_accepted() {
    let mut env = TestEnv::new().with_ledger_close_interval(u64::MAX);
    env.advance(Duration::from_secs(u64::MAX));
    assert_eq!((env.now(), env.sequence()), (u64::MAX, 1));
    assert!(env.try_advance(Duration::from_secs(1)).is_err());
}

#[test]
fn splitting_an_advance_rounds_each_part_up() {
    let mut split = TestEnv::new();
    let mut whole = TestEnv::new();
    split.advance(Duration::from_secs(3));
    split.advance(Duration::from_secs(3));
    whole.advance(Duration::from_secs(6));
    assert_eq!((split.now(), split.sequence()), (6, 2));
    assert_eq!((whole.now(), whole.sequence()), (6, 2));

    let mut split = TestEnv::new();
    let mut whole = TestEnv::new();
    split.advance(Duration::from_secs(1));
    split.advance(Duration::from_secs(1));
    whole.advance(Duration::from_secs(2));
    assert_eq!((split.now(), split.sequence()), (2, 2));
    assert_eq!((whole.now(), whole.sequence()), (2, 1));
}

#[test]
fn whole_intervals_split_anywhere_lose_nothing() {
    let mut split = TestEnv::new().with_ledger_close_interval(7);
    let mut whole = TestEnv::new().with_ledger_close_interval(7);
    let mut by_ledgers = TestEnv::new().with_ledger_close_interval(7);
    split.advance(Duration::from_secs(14));
    split.advance(Duration::from_secs(21));
    whole.advance(Duration::from_secs(35));
    by_ledgers.advance_ledgers(5);
    assert_eq!((split.now(), split.sequence()), (35, 5));
    assert_eq!((whole.now(), whole.sequence()), (35, 5));
    assert_eq!((by_ledgers.now(), by_ledgers.sequence()), (35, 5));
}

#[test]
fn a_run_of_moves_keeps_ledgers_within_rounding_of_the_time() {
    let mut env = TestEnv::new().with_ledger_close_interval(10);
    env.advance(Duration::from_secs(1));
    env.advance_ledgers(2);
    env.warp_to(35);
    env.advance_minutes(1);
    // 95 seconds have passed; three rounding moves may add up to 9s each.
    assert_eq!((env.now(), env.sequence()), (95, 11));
    let ledger_secs = u64::from(env.sequence()) * 10;
    assert!(ledger_secs >= 95 && ledger_secs <= 95 + 3 * 9);
}

#[test]
fn configuring_the_interval_does_not_move_the_clock() {
    let mut env = TestEnv::new();
    env.advance(Duration::from_secs(42));
    let env = env.with_ledger_close_interval(2);
    assert_eq!((env.now(), env.sequence()), (42, 9));
    assert_eq!(env.ledger_close_interval(), 2);
}

#[test]
fn clock_moves_leave_the_other_ledger_fields_alone() {
    let mut env = TestEnv::new().with_ledger_close_interval(3);
    let before = soroban_sdk::testutils::Ledger::get(&env.env().ledger());
    env.advance(Duration::from_secs(10));
    env.advance_ledgers(4);
    env.warp_to(100);
    env.advance_hours(1);
    assert!(env.try_advance_ledgers(u32::MAX).is_err());
    let after = soroban_sdk::testutils::Ledger::get(&env.env().ledger());
    assert_eq!(after.protocol_version, before.protocol_version);
    assert_eq!(after.network_id, before.network_id);
    assert_eq!(after.base_reserve, before.base_reserve);
    assert_eq!(after.min_temp_entry_ttl, before.min_temp_entry_ttl);
    assert_eq!(after.min_persistent_entry_ttl, before.min_persistent_entry_ttl);
    assert_eq!(after.max_entry_ttl, before.max_entry_ttl);
    assert_eq!((after.timestamp, after.sequence_number), (3_700, 1_234));
}
