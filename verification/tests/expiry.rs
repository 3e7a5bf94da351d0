use newsletter::expiry_requrests::{
    expiration_interval, expiration_interval_fits, finish_sweep, pause_after_sweep, SweepLogLevel,
};

#[test]
fn the_expiry_interval_counts_microseconds() {
    let interval = expiration_interval(86_400);
    assert_eq!(interval.months, 0);
    assert_eq!(interval.days, 0);
    assert_eq!(interval.microseconds, 86_400_000_000);
    assert_eq!(expiration_interval(0).microseconds, 0);
    assert_eq!(expiration_interval(9_223_372_036_854).microseconds, 9_223_372_036_854_000_000);
}

#[test]
fn an_expiry_interval_that_overflows_is_detected() {
    assert!(expiration_interval_fits(9_223_372_036_854));
    assert!(!expiration_interval_fits(9_223_372_036_855));
    assert!(!expiration_interval_fits(u64::MAX));
}

#[test]
fn a_sweep_succeeds_even_when_its_delete_fails() {
    let ok = finish_sweep(true);
    assert!(ok.succeeded);
    assert_eq!(ok.log_level, SweepLogLevel::Info);
    let failed = finish_sweep(false);
    assert!(failed.succeeded);
    assert_eq!(failed.log_level, SweepLogLevel::Error);
    assert_eq!(pause_after_sweep(failed.succeeded, 3600), 3600);
}

#[test]
fn the_expiry_worker_waits_as_configured() {
    assert_eq!(pause_after_sweep(true, 3600), 3600);
    assert_eq!(pause_after_sweep(false, 3600), 1);
}
