//! The calls into `soroban_sdk` that the ledger clock makes: building a
//! test environment and reading and writing the two ledger fields that the
//! clock owns. Everything here is trusted; the contracts restate what the
//! SDK's source shows.
use vstd::prelude::*;

verus! {

/// The SDK's test environment handle, carried through the library opaquely.
#[verifier::external_type_specification]
#[verifier::external_body]
pub struct ExEnv(soroban_sdk::Env);

/// The ledger timestamp (unix seconds) that the environment's host holds.
pub uninterp spec fn env_timestamp(env: soroban_sdk::Env) -> u64;

/// The ledger sequence number that the environment's host holds.
pub uninterp spec fn env_sequence(env: soroban_sdk::Env) -> u32;

/// The ledger fields other than the clock that the environment's host
/// holds: protocol version, network id, base reserve, and the minimum
/// temporary, minimum persistent and maximum entry time-to-live.
pub uninterp spec fn env_ledger_settings(env: soroban_sdk::Env) -> (u32, Seq<u8>, u32, u32, u32, u32);

/// Calls `soroban_sdk::Env::default()` (with the `testutils` feature).
/// The SDK builds the host and sets its ledger info to
/// `default_ledger_info()`, whose `timestamp` and `sequence_number` are both
/// zero; the contract claims exactly that.
#[verifier::external_body]
pub(crate) fn default_env() -> (env: soroban_sdk::Env)
    ensures
        env_timestamp(env) == 0,
        env_sequence(env) == 0,
{
    soroban_sdk::Env::default()
}

/// Calls `soroban_sdk::ledger::Ledger::timestamp` on `env.ledger()`, which
/// reads the host's ledger timestamp; the contract claims the result is that
/// timestamp.
#[verifier::external_body]
pub(crate) fn ledger_timestamp(env: &soroban_sdk::Env) -> (t: u64)
    ensures
        t == env_timestamp(*env),
{
    env.ledger().timestamp()
}

/// Calls `soroban_sdk::ledger::Ledger::sequence` on `env.ledger()`, which
/// reads the host's ledger sequence number; the contract claims the result is
/// that number.
#[verifier::external_body]
pub(crate) fn ledger_sequence(env: &soroban_sdk::Env) -> (s: u32)
    ensures
        s == env_sequence(*env),
{
    env.ledger().sequence()
}

/// Calls `soroban_sdk::testutils::Ledger::set_timestamp` on `env.ledger()`.
/// The SDK's implementation rewrites only the `timestamp` field of the
/// host's ledger info; the contract claims the new timestamp and an
/// unchanged sequence number. The SDK takes `&self` and mutates the shared
/// host; the wrapper takes `&mut` so that the change is visible to Verus.
/// The ledger's other fields are claimed unchanged too.
#[verifier::external_body]
pub(crate) fn set_ledger_timestamp(env: &mut soroban_sdk::Env, timestamp: u64)
    ensures
        env_timestamp(*final(env)) == timestamp,
        env_sequence(*final(env)) == env_sequence(*old(env)),
        env_ledger_settings(*final(env)) == env_ledger_settings(*old(env)),
{
    soroban_sdk::testutils::Ledger::set_timestamp(&env.ledger(), timestamp)
}

/// Calls `soroban_sdk::testutils::Ledger::set_sequence_number` on
/// `env.ledger()`. The SDK's implementation rewrites only the
/// `sequence_number` field of the host's ledger info; the contract claims the
/// new sequence number and an unchanged timestamp and other ledger fields.
/// As above, `&mut` makes the change visible to Verus.
#[verifier::external_body]
pub(crate) fn set_ledger_sequence(env: &mut soroban_sdk::Env, sequence: u32)
    ensures
        env_sequence(*final(env)) == sequence,
        env_timestamp(*final(env)) == env_timestamp(*old(env)),
        env_ledger_settings(*final(env)) == env_ledger_settings(*old(env)),
{
    soroban_sdk::testutils::Ledger::set_sequence_number(&env.ledger(), sequence)
}

} // verus!
