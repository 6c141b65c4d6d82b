use orsta::coordinator::{DualWriteCoordinator, MirrorMode, StoreError};

fn err(m: &str) -> StoreError {
    StoreError { message: m.to_string() }
}

#[test]
fn primary_failure_propagates_with_healthy_secondary() {
    let mut c = DualWriteCoordinator::new(true);
    let primary = Err(err("disk full"));
    assert!(!c.should_mirror(&primary));
    let r = c.complete(primary, Some(Ok(1)));
    assert_eq!(r, Err(err("disk full")));
    assert_eq!(c.secondary_failures, 0);
}

#[test]
fn secondary_failure_does_not_reach_caller() {
    let mut c = DualWriteCoordinator::new(true);
    let primary = Ok(3);
    assert!(c.should_mirror(&primary));
    let r = c.complete(primary, Some(Err(err("mirror offline"))));
    assert_eq!(r, Ok(3));
    assert_eq!(c.secondary_failures, 1);
    assert_eq!(c.mode, MirrorMode::Mirrored);
}

#[test]
fn primary_only_mode_never_mirrors() {
    let mut c = DualWriteCoordinator::new(false);
    assert_eq!(c.mode, MirrorMode::PrimaryOnly);
    assert!(!c.should_mirror(&Ok(1)));
    assert_eq!(c.complete(Ok(1), None), Ok(1));
    assert_eq!(c.secondary_failures, 0);
}

#[test]
fn failure_counter_saturates() {
    let mut c = DualWriteCoordinator { mode: MirrorMode::Mirrored, secondary_failures: u64::MAX };
    assert_eq!(c.complete(Ok(0), Some(Err(err("x")))), Ok(0));
    assert_eq!(c.secondary_failures, u64::MAX);
}
