use nazo_postgres::pool::{clamp_wait_nanos, db_pool_metrics, DbPoolMetrics, PoolMetricsRecorder, PostgresPoolMetrics};
use nazo_postgres::pool::{lock_release_outcome, migration_lock_step, migration_outcome, MigrationLockStep};

#[test]
fn recorder_counts_acquisitions_and_tracks_waits() {
    let mut recorder = PoolMetricsRecorder::new();
    recorder.record_acquire(30);
    recorder.record_acquire(10);
    recorder.record_acquire(20);
    assert_eq!(
        db_pool_metrics(&recorder),
        DbPoolMetrics { acquire_count: 3, wait_nanos_total: 60, wait_nanos_max: 30 }
    );
}

#[test]
fn recorder_totals_wrap_like_atomics() {
    let mut recorder = PoolMetricsRecorder { acquire_count: u64::MAX, wait_nanos_total: u64::MAX - 1, wait_nanos_max: 5 };
    recorder.record_acquire(3);
    assert_eq!(recorder.acquire_count, 0);
    assert_eq!(recorder.wait_nanos_total, 1);
    assert_eq!(recorder.wait_nanos_max, 5);
}

#[test]
fn wait_nanos_are_clamped_to_u64() {
    assert_eq!(clamp_wait_nanos(42), 42);
    assert_eq!(clamp_wait_nanos(u128::from(u64::MAX) + 1), u64::MAX);
}

#[test]
fn pool_metrics_port_snapshots_the_recorder() {
    let mut recorder = PoolMetricsRecorder::new();
    recorder.record_acquire(7);
    let port = PostgresPoolMetrics::default();
    assert_eq!(port.snapshot(&recorder), db_pool_metrics(&recorder));
}

#[test]
fn migration_lock_waits_until_the_timeout() {
    assert_eq!(migration_lock_step(true, 99_999), MigrationLockStep::Migrate);
    assert_eq!(migration_lock_step(false, 0), MigrationLockStep::Retry);
    assert_eq!(migration_lock_step(false, 24_999), MigrationLockStep::Retry);
    assert_eq!(migration_lock_step(false, 25_000), MigrationLockStep::TimedOut);
}

#[test]
fn migration_outcome_names_every_failed_step() {
    assert_eq!(lock_release_outcome(Ok(true)), Ok(()));
    assert_eq!(
        lock_release_outcome(Ok(false)),
        Err("migration advisory lock release returned false".to_owned())
    );
    assert_eq!(lock_release_outcome(Err("io".to_owned())), Err("io".to_owned()));
    assert_eq!(migration_outcome(Ok(true), Ok(())), Ok(true));
    assert_eq!(migration_outcome(Err("bad sql".to_owned()), Ok(())), Err("bad sql".to_owned()));
    assert_eq!(
        migration_outcome(Ok(false), Err("io".to_owned())),
        Err("migration advisory lock release failed: io".to_owned())
    );
    assert_eq!(
        migration_outcome(Err("bad sql".to_owned()), Err("io".to_owned())),
        Err("migration failed: bad sql; advisory lock release failed: io".to_owned())
    );
}

#[test]
fn longest_wait_never_exceeds_the_total() {
    let fresh = db_pool_metrics(&PoolMetricsRecorder::new());
    assert_eq!(fresh, DbPoolMetrics { acquire_count: 0, wait_nanos_total: 0, wait_nanos_max: 0 });
    let mut recorder = PoolMetricsRecorder::new();
    for wait in [4, 9, 2] {
        recorder.record_acquire(wait);
    }
    let metrics = db_pool_metrics(&recorder);
    assert_eq!(metrics.wait_nanos_total, 15);
    assert_eq!(metrics.wait_nanos_max, 9);
    assert!(metrics.wait_nanos_max <= metrics.wait_nanos_total);
    assert_eq!(db_pool_metrics(&recorder), metrics);
}
