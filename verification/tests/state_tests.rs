use ota_server::error::AppError;
use ota_server::upgrade_state::{
    check_transition, is_valid_state_transition, status_gauge_deltas, status_timestamp_effect,
};

const STATUSES: [&str; 6] = ["pending", "downloading", "installing", "success", "failed", "rebooted"];

#[test]
fn forward_transitions_are_allowed() {
    assert!(is_valid_state_transition("pending", "downloading"));
    assert!(is_valid_state_transition("downloading", "installing"));
    assert!(is_valid_state_transition("installing", "success"));
    assert!(is_valid_state_transition("success", "rebooted"));
}

#[test]
fn failures_and_retries() {
    assert!(is_valid_state_transition("pending", "failed"));
    assert!(is_valid_state_transition("downloading", "failed"));
    assert!(is_valid_state_transition("installing", "failed"));
    assert!(is_valid_state_transition("failed", "downloading"));
    assert!(!is_valid_state_transition("failed", "installing"));
    assert!(!is_valid_state_transition("success", "failed"));
}

#[test]
fn skipping_states_is_refused() {
    assert!(!is_valid_state_transition("pending", "installing"));
    assert!(!is_valid_state_transition("pending", "success"));
    assert!(!is_valid_state_transition("downloading", "success"));
    assert!(!is_valid_state_transition("installing", "rebooted"));
}

#[test]
fn every_status_may_stay() {
    for s in STATUSES {
        assert!(is_valid_state_transition(s, s));
    }
    assert!(is_valid_state_transition("unknown", "unknown"));
}

#[test]
fn rebooted_is_final() {
    for s in STATUSES {
        assert_eq!(is_valid_state_transition("rebooted", s), s == "rebooted");
    }
}

#[test]
fn unknown_status_has_no_way_out() {
    for s in STATUSES {
        assert!(!is_valid_state_transition("archived", s));
    }
}

#[test]
fn success_only_after_install() {
    for s in STATUSES {
        if s != "success" {
            assert_eq!(is_valid_state_transition(s, "success"), s == "installing");
        }
    }
}

#[test]
fn refused_transition_names_both_states() {
    match check_transition("pending", "success") {
        Err(AppError::BadRequest(m)) => {
            assert_eq!(m, "Invalid state transition: pending -> success")
        }
        other => panic!("unexpected {:?}", other.is_ok()),
    }
    assert!(check_transition("installing", "success").is_ok());
}

#[test]
fn timestamps_follow_status() {
    let e = status_timestamp_effect("downloading");
    assert!(e.sets_started_at && !e.sets_completed_at);
    let e = status_timestamp_effect("installing");
    assert!(e.sets_started_at && !e.sets_completed_at);
    for s in ["success", "failed", "rebooted"] {
        let e = status_timestamp_effect(s);
        assert!(!e.sets_started_at && e.sets_completed_at);
    }
    let e = status_timestamp_effect("pending");
    assert!(!e.sets_started_at && !e.sets_completed_at);
}

fn ind(b: bool) -> i64 {
    if b { 1 } else { 0 }
}

#[test]
fn gauges_track_states_over_every_allowed_transition() {
    for old in STATUSES {
        for new in STATUSES {
            if !is_valid_state_transition(old, new) {
                continue;
            }
            let d = status_gauge_deltas(old, new);
            assert_eq!(d.downloading, ind(new == "downloading") - ind(old == "downloading"));
            assert_eq!(d.installing, ind(new == "installing") - ind(old == "installing"));
            assert_eq!(d.success, ind(new == "success") as u64);
            assert_eq!(d.failed, ind(new == "failed") as u64);
        }
    }
}

#[test]
fn gauge_deltas_for_a_full_run() {
    let d = status_gauge_deltas("pending", "downloading");
    assert_eq!((d.downloading, d.installing, d.success, d.failed), (1, 0, 0, 0));
    let d = status_gauge_deltas("downloading", "installing");
    assert_eq!((d.downloading, d.installing, d.success, d.failed), (-1, 1, 0, 0));
    let d = status_gauge_deltas("installing", "success");
    assert_eq!((d.downloading, d.installing, d.success, d.failed), (0, -1, 1, 0));
    let d = status_gauge_deltas("installing", "failed");
    assert_eq!((d.downloading, d.installing, d.success, d.failed), (0, -1, 0, 1));
    let d = status_gauge_deltas("success", "rebooted");
    assert_eq!((d.downloading, d.installing, d.success, d.failed), (0, 0, 0, 0));
}
