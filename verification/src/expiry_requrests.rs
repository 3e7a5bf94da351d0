//! The decisions of the worker that removes expired idempotency keys: the age after
//! which a key expires, and how long the worker waits between sweeps.

use sqlx::postgres::types::PgInterval;
use std::time::Duration;
use vstd::prelude::*;

verus! {

#[verifier::external_type_specification]
pub struct ExPgInterval(PgInterval);

/// Whether a number of whole seconds, counted in microseconds, fits in an `i64`.
pub open spec fn interval_fits(seconds: u64) -> bool {
    seconds * 1_000_000 <= i64::MAX
}

/// `PgInterval::try_from(Duration::from_secs(seconds))`: a whole number of seconds has no
/// sub-microsecond part, so the conversion succeeds exactly when the count of
/// microseconds fits in an `i64`, and it gives no months and no days.
#[verifier::external_body]
fn pg_interval_from_secs(seconds: u64) -> (r: Option<PgInterval>)
    ensures
        r is Some <==> interval_fits(seconds),
        r matches Some(i) ==> i.months == 0 && i.days == 0 && i.microseconds == seconds * 1_000_000,
{
    PgInterval::try_from(Duration::from_secs(seconds)).ok()
}

/// The age after which an idempotency key expires, as a Postgres `INTERVAL`. Its count
/// of microseconds must fit in an `i64`.
pub fn expiration_interval(expire_in_sec: u64) -> (r: PgInterval)
    requires
        interval_fits(expire_in_sec),
    ensures
        r.months == 0,
        r.days == 0,
        r.microseconds == expire_in_sec * 1_000_000,
{
    match pg_interval_from_secs(expire_in_sec) {
        Some(interval) => interval,
        None => {
            assert(false);
            PgInterval { months: 0, days: 0, microseconds: 0 }
        },
    }
}

/// Whether the expiry interval of `expire_in_sec` seconds can be written.
pub fn expiration_interval_fits(expire_in_sec: u64) -> (r: bool)
    ensures
        r == interval_fits(expire_in_sec),
{
    expire_in_sec <= 9_223_372_036_854
}

/// Whether a sweep reports success, given whether its `DELETE` succeeded: a failed
/// `DELETE` is logged, and the sweep still succeeds.
pub open spec fn sweep_succeeds(delete_succeeded: bool) -> bool {
    true
}

/// The pause before the next sweep, after a sweep that succeeded or not.
pub open spec fn sweep_pause(sweep_succeeded: bool, check_sec: u64) -> u64 {
    if sweep_succeeded {
        check_sec
    } else {
        1
    }
}

/// The level of the log event about a sweep.
#[derive(Debug, Clone, Copy, PartialEq, Eq)]
pub enum SweepLogLevel {
    Info,
    Error,
}

/// How a sweep ends: the level of its log event and whether it succeeded.
#[derive(Debug, Clone, Copy, PartialEq, Eq)]
pub struct SweepResult {
    pub log_level: SweepLogLevel,
    pub succeeded: bool,
}

/// How a sweep ends, given whether its `DELETE` succeeded: information when it did, an
/// error when it did not; success either way.
pub fn finish_sweep(delete_succeeded: bool) -> (r: SweepResult)
    ensures
        r.succeeded == sweep_succeeds(delete_succeeded),
        r.log_level == (if delete_succeeded { SweepLogLevel::Info } else { SweepLogLevel::Error }),
{
    if delete_succeeded {
        SweepResult { log_level: SweepLogLevel::Info, succeeded: true }
    } else {
        SweepResult { log_level: SweepLogLevel::Error, succeeded: true }
    }
}

/// How long the expiry worker waits before its next sweep: `check_sec` seconds after a
/// sweep that succeeded, one second after one that failed.
pub fn pause_after_sweep(sweep_succeeded: bool, check_sec: u64) -> (r: u64)
    ensures
        r == sweep_pause(sweep_succeeded, check_sec),
{
    if sweep_succeeded {
        check_sec
    } else {
        1
    }
}

/// Between two sweeps the expiry worker always waits `check_sec` seconds: a sweep never
/// fails, so the one-second pause after a failure never happens.
pub proof fn lemma_expiry_worker_waits_check_sec(delete_succeeded: bool, check_sec: u64)
    ensures
        sweep_pause(sweep_succeeds(delete_succeeded), check_sec) == check_sec,
{
}

} // verus!
