use probe_sidecar::target::{liveness_code, overall_live, overall_ready, readiness_code, TargetStatus};

fn status(live: bool, ready: bool) -> TargetStatus {
    TargetStatus { live, ready }
}

#[test]
fn default_status_is_live_not_ready() {
    let s = TargetStatus::default();
    assert!(s.live);
    assert!(!s.ready);
}

#[test]
fn no_targets_is_healthy() {
    assert!(overall_live(&[]));
    assert!(overall_ready(&[]));
    assert_eq!(liveness_code(&[]), 200);
    assert_eq!(readiness_code(&[]), 200);
}

#[test]
fn aggregate_is_conjunction() {
    let all = [status(true, true), status(true, true), status(true, true)];
    assert!(overall_live(&all));
    assert!(overall_ready(&all));
    assert_eq!(liveness_code(&all), 200);
    assert_eq!(readiness_code(&all), 200);
}

#[test]
fn one_dead_target_fails_liveness() {
    let some = [status(true, true), status(false, true), status(true, true)];
    assert!(!overall_live(&some));
    assert!(overall_ready(&some));
    assert_eq!(liveness_code(&some), 500);
    assert_eq!(readiness_code(&some), 200);
}

#[test]
fn one_unready_target_fails_readiness() {
    let some = [status(true, true), status(true, true), status(true, false)];
    assert!(overall_live(&some));
    assert!(!overall_ready(&some));
    assert_eq!(liveness_code(&some), 200);
    assert_eq!(readiness_code(&some), 503);
}
