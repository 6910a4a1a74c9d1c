//! Connection-pool acquisition metrics, and the decisions around the
//! migration advisory lock.

use vstd::prelude::*;

use crate::text::concat_text;

verus! {

/// A snapshot of pool acquisition metrics: how many connections were
/// acquired, and the total and longest wait, in nanoseconds.
#[derive(Clone, Copy, Debug, PartialEq, Eq, Structural)]
pub struct DbPoolMetrics {
    pub acquire_count: u64,
    pub wait_nanos_total: u64,
    pub wait_nanos_max: u64,
}

/// The running acquisition counters.  Counts and totals wrap around at
/// 2^64, as atomic additions do.
#[derive(Clone, Copy, Debug, PartialEq, Eq, Structural)]
pub struct PoolMetricsRecorder {
    pub acquire_count: u64,
    pub wait_nanos_total: u64,
    pub wait_nanos_max: u64,
}

/// `a + b` modulo 2^64.
pub open spec fn wrapping_sum(a: u64, b: u64) -> u64 {
    ((a + b) % 0x1_0000_0000_0000_0000) as u64
}

/// A wait, in nanoseconds, clamped to what a `u64` holds.
pub fn clamp_wait_nanos(nanos: u128) -> (wait: u64)
    ensures
        nanos <= u64::MAX ==> wait == nanos,
        nanos > u64::MAX ==> wait == u64::MAX,
{
    if nanos > 0xFFFF_FFFF_FFFF_FFFFu128 {
        u64::MAX
    } else {
        nanos as u64
    }
}

impl PoolMetricsRecorder {
    /// No acquisitions yet.
    pub fn new() -> (recorder: Self)
        ensures
            recorder == (PoolMetricsRecorder { acquire_count: 0, wait_nanos_total: 0, wait_nanos_max: 0 }),
    {
        PoolMetricsRecorder { acquire_count: 0, wait_nanos_total: 0, wait_nanos_max: 0 }
    }

    /// Record one acquisition that waited `wait_nanos`.
    pub fn record_acquire(&mut self, wait_nanos: u64)
        ensures
            *final(self) == record_step(*old(self), wait_nanos),
    {
        self.acquire_count = self.acquire_count.wrapping_add(1);
        self.wait_nanos_total = self.wait_nanos_total.wrapping_add(wait_nanos);
        if wait_nanos > self.wait_nanos_max {
            self.wait_nanos_max = wait_nanos;
        }
    }
}

/// The counters after one more acquisition that waited `wait_nanos`: one
/// more acquisition, the wait added to the total, and the longest wait
/// raised to it when it is longer.
pub open spec fn record_step(recorder: PoolMetricsRecorder, wait_nanos: u64) -> PoolMetricsRecorder {
    PoolMetricsRecorder {
        acquire_count: wrapping_sum(recorder.acquire_count, 1),
        wait_nanos_total: wrapping_sum(recorder.wait_nanos_total, wait_nanos),
        wait_nanos_max: if wait_nanos > recorder.wait_nanos_max {
            wait_nanos
        } else {
            recorder.wait_nanos_max
        },
    }
}

/// The counters after recording `waits`, in order, from a fresh recorder.
pub open spec fn recorded(waits: Seq<u64>) -> PoolMetricsRecorder
    decreases waits.len(),
{
    if waits.len() == 0 {
        PoolMetricsRecorder { acquire_count: 0, wait_nanos_total: 0, wait_nanos_max: 0 }
    } else {
        record_step(recorded(waits.drop_last()), waits.last())
    }
}

/// The current metrics.
pub fn db_pool_metrics(recorder: &PoolMetricsRecorder) -> (metrics: DbPoolMetrics)
    ensures
        metrics.acquire_count == recorder.acquire_count,
        metrics.wait_nanos_total == recorder.wait_nanos_total,
        metrics.wait_nanos_max == recorder.wait_nanos_max,
{
    DbPoolMetrics {
        acquire_count: recorder.acquire_count,
        wait_nanos_total: recorder.wait_nanos_total,
        wait_nanos_max: recorder.wait_nanos_max,
    }
}

/// After any sequence of acquisitions, the longest wait is the longest of
/// the recorded waits (0 when none was recorded), and the count is the
/// number of acquisitions modulo 2^64.
pub proof fn lemma_recorded_metrics(waits: Seq<u64>)
    ensures
        forall|i: int| 0 <= i < waits.len() ==> #[trigger] waits[i] <= recorded(waits).wait_nanos_max,
        recorded(waits).wait_nanos_max == 0 || exists|i: int| 0 <= i < waits.len() && waits[i]
            == recorded(waits).wait_nanos_max,
        recorded(waits).acquire_count == waits.len() % 0x1_0000_0000_0000_0000,
    decreases waits.len(),
{
    if waits.len() > 0 {
        let prefix = waits.drop_last();
        lemma_recorded_metrics(prefix);
        assert forall|i: int| 0 <= i < waits.len() implies #[trigger] waits[i] <= recorded(waits).wait_nanos_max by {
            if i < waits.len() - 1 {
                assert(prefix[i] == waits[i]);
            }
        }
        if recorded(waits).wait_nanos_max != 0 && recorded(waits).wait_nanos_max != waits.last() {
            let i = choose|i: int| 0 <= i < prefix.len() && prefix[i] == recorded(prefix).wait_nanos_max;
            assert(waits[i] == recorded(waits).wait_nanos_max);
        }
    }
}

/// The total of the recorded waits, as a mathematical integer.
pub open spec fn wait_sum(waits: Seq<u64>) -> int
    decreases waits.len(),
{
    if waits.len() == 0 {
        0
    } else {
        wait_sum(waits.drop_last()) + waits.last()
    }
}

/// Before any acquisition every counter is zero.  As long as the total wait
/// has not wrapped past `u64::MAX`, the reported total is the sum of the
/// waits and the longest wait never exceeds it.
pub proof fn lemma_recorded_totals(waits: Seq<u64>)
    ensures
        waits.len() == 0 ==> recorded(waits) == (PoolMetricsRecorder {
            acquire_count: 0,
            wait_nanos_total: 0,
            wait_nanos_max: 0,
        }),
        wait_sum(waits) <= u64::MAX ==> recorded(waits).wait_nanos_total == wait_sum(waits)
            && recorded(waits).wait_nanos_max <= recorded(waits).wait_nanos_total,
    decreases waits.len(),
{
    if waits.len() > 0 {
        lemma_recorded_totals(waits.drop_last());
    }
}

/// The pool-metrics port of this backend; snapshots read the recorder.
#[derive(Clone, Copy, Debug)]
pub struct PostgresPoolMetrics;

impl PostgresPoolMetrics {
    pub fn snapshot(&self, recorder: &PoolMetricsRecorder) -> (metrics: DbPoolMetrics)
        ensures
            metrics == db_pool_metrics_of(*recorder),
    {
        db_pool_metrics(recorder)
    }
}

pub open spec fn db_pool_metrics_of(recorder: PoolMetricsRecorder) -> DbPoolMetrics {
    DbPoolMetrics {
        acquire_count: recorder.acquire_count,
        wait_nanos_total: recorder.wait_nanos_total,
        wait_nanos_max: recorder.wait_nanos_max,
    }
}

impl Default for PostgresPoolMetrics {
    fn default() -> (metrics: Self)
        ensures
            metrics == PostgresPoolMetrics,
    {
        PostgresPoolMetrics
    }
}

/// How long migrations wait for the advisory lock, in milliseconds.
pub const MIGRATION_LOCK_TIMEOUT_MILLIS: u64 = 25_000;
/// How long to sleep between two attempts at the lock, in milliseconds.
pub const MIGRATION_LOCK_RETRY_INTERVAL_MILLIS: u64 = 100;

/// What to do after one attempt at the migration advisory lock.
#[derive(Clone, Copy, Debug, PartialEq, Eq, Structural)]
pub enum MigrationLockStep {
    /// The lock is held: run the pending migrations.
    Migrate,
    /// The wait is over: give up.
    TimedOut,
    /// Sleep for the retry interval and try again.
    Retry,
}

/// After an attempt `elapsed_millis` into the wait: a held lock proceeds;
/// otherwise the wait ends once the timeout has passed, and retries before.
pub fn migration_lock_step(acquired: bool, elapsed_millis: u64) -> (step: MigrationLockStep)
    ensures
        acquired ==> step == MigrationLockStep::Migrate,
        !acquired && elapsed_millis >= MIGRATION_LOCK_TIMEOUT_MILLIS ==> step == MigrationLockStep::TimedOut,
        !acquired && elapsed_millis < MIGRATION_LOCK_TIMEOUT_MILLIS ==> step == MigrationLockStep::Retry,
{
    if acquired {
        MigrationLockStep::Migrate
    } else if elapsed_millis >= MIGRATION_LOCK_TIMEOUT_MILLIS {
        MigrationLockStep::TimedOut
    } else {
        MigrationLockStep::Retry
    }
}

/// Releasing the lock succeeded only when the store confirmed it held the
/// lock; `unlock` is the store's answer or its failure message.
pub fn lock_release_outcome(unlock: Result<bool, String>) -> (result: Result<(), String>)
    ensures
        unlock matches Ok(true) ==> result is Ok,
        unlock matches Ok(false) ==> (result matches Err(m) && m@
            == "migration advisory lock release returned false"@),
        unlock matches Err(e) ==> result == Err::<(), String>(e),
{
    match unlock {
        Ok(true) => Ok(()),
        Ok(false) => Err("migration advisory lock release returned false".to_owned()),
        Err(error) => Err(error),
    }
}

/// The result of a migration run from the migrations' own result (whether
/// any was applied) and the release of the lock: both must succeed, and a
/// failure names the step or steps that failed.
pub fn migration_outcome(migration: Result<bool, String>, release: Result<(), String>) -> (result: Result<
    bool,
    String,
>)
    ensures
        match (migration, release) {
            (Ok(applied), Ok(_)) => result == Ok::<bool, String>(applied),
            (Err(m), Ok(_)) => result == Err::<bool, String>(m),
            (Ok(_), Err(u)) => result matches Err(text) && text@ == "migration advisory lock release failed: "@
                + u@,
            (Err(m), Err(u)) => result matches Err(text) && text@ == "migration failed: "@ + m@
                + "; advisory lock release failed: "@ + u@,
        },
{
    match (migration, release) {
        (Ok(applied), Ok(())) => Ok(applied),
        (Err(error), Ok(())) => Err(error),
        (Ok(_), Err(error)) => Err(concat_text("migration advisory lock release failed: ", error.as_str())),
        (Err(migration_error), Err(unlock_error)) => {
            let head = concat_text("migration failed: ", migration_error.as_str());
            let head = concat_text(head.as_str(), "; advisory lock release failed: ");
            Err(concat_text(head.as_str(), unlock_error.as_str()))
        },
    }
}

} // verus!
