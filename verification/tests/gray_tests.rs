use ota_server::gray::{device_gray_percentage, is_device_in_gray, GrayEngine};
use ota_server::models::Device;
use ota_server::task::UpgradeTask;
use sha2::Digest;

fn bucket_by_hand(id: &str) -> u64 {
    let hash = sha2::Sha256::digest(id.as_bytes());
    let mut bytes = [0u8; 8];
    bytes.copy_from_slice(&hash[..8]);
    u64::from_be_bytes(bytes) % 10000 / 100
}

fn device(id: &str, battery: Option<i64>, ssid: Option<&str>, signal: Option<i64>) -> Device {
    Device {
        id: 1,
        device_id: id.to_string(),
        device_type: "sensor".to_string(),
        status: "active".to_string(),
        firmware_version: None,
        hardware_version: None,
        battery_level: battery,
        wifi_ssid: ssid.map(|s| s.to_string()),
        wifi_signal: signal,
        last_heartbeat_at: None,
        created_at: 0,
        updated_at: 0,
    }
}

fn task(stage: i64, pcts: &str, min_battery: Option<i64>, wifi: bool) -> UpgradeTask {
    UpgradeTask {
        id: 7,
        task_name: "t".to_string(),
        firmware_id: 3,
        device_type: "sensor".to_string(),
        gray_stage: stage,
        gray_percentages: pcts.to_string(),
        min_battery_level: min_battery,
        require_wifi: wifi,
        time_window_start: None,
        time_window_end: None,
        status: "running".to_string(),
        auto_paused: false,
        created_at: 0,
        updated_at: 0,
    }
}

#[test]
fn bucket_matches_digest() {
    for id in ["dev-1", "dev-2", "device-abc", ""] {
        let b = device_gray_percentage(id);
        assert_eq!(b, bucket_by_hand(id));
        assert!(b < 100);
    }
}

#[test]
fn gray_bounds() {
    for id in ["a", "b", "c"] {
        assert!(is_device_in_gray(id, 100));
        assert!(is_device_in_gray(id, 250));
        assert!(!is_device_in_gray(id, 0));
        assert!(!is_device_in_gray(id, -5));
    }
}

#[test]
fn gray_membership_follows_bucket_and_grows_with_percentage() {
    for i in 0..50 {
        let id = format!("device-{}", i);
        let b = device_gray_percentage(&id) as i64;
        assert_eq!(is_device_in_gray(&id, b + 1), true);
        if b > 0 {
            assert_eq!(is_device_in_gray(&id, b), false);
        }
        let mut was_in = false;
        for p in 0..=100 {
            let now_in = is_device_in_gray(&id, p);
            assert!(!was_in || now_in);
            was_in = now_in;
        }
    }
}

#[test]
fn constraints() {
    let e = GrayEngine::new();
    let t = task(0, "[100]", Some(20), true);
    assert!(e.meets_constraints(&device("d", Some(50), Some("home"), Some(-60)), &t));
    assert!(!e.meets_constraints(&device("d", Some(10), Some("home"), Some(-60)), &t));
    assert!(!e.meets_constraints(&device("d", None, Some("home"), Some(-60)), &t));
    assert!(!e.meets_constraints(&device("d", Some(50), Some(""), Some(-60)), &t));
    assert!(!e.meets_constraints(&device("d", Some(50), None, Some(-60)), &t));
    assert!(!e.meets_constraints(&device("d", Some(50), Some("home"), Some(-71)), &t));
    assert!(e.meets_constraints(&device("d", Some(50), Some("home"), Some(-70)), &t));
    assert!(!e.meets_constraints(&device("d", Some(50), Some("home"), None), &t));
    let free = task(0, "[100]", None, false);
    assert!(e.meets_constraints(&device("d", None, None, None), &free));
}

#[test]
fn stage_candidates_filter_in_order() {
    let e = GrayEngine::new();
    let devices = vec![
        device("a", Some(50), None, None),
        device("b", Some(5), None, None),
        device("c", None, None, None),
        device("d", Some(90), None, None),
    ];
    let t = task(0, "[100]", Some(20), false);
    assert_eq!(e.stage_candidates(&t, &devices), vec![0, 3]);
    let none = task(0, "[0]", None, false);
    assert!(e.stage_candidates(&none, &devices).is_empty());
    let mid = task(0, "[50]", None, false);
    let expected: Vec<usize> = (0..devices.len())
        .filter(|&i| device_gray_percentage(&devices[i].device_id) < 50)
        .collect();
    assert_eq!(e.stage_candidates(&mid, &devices), expected);
}

#[test]
fn assignment_batches() {
    assert_eq!(ota_server::gray::next_batch_offset(500, 0), Some(500));
    assert_eq!(ota_server::gray::next_batch_offset(500, 1000), Some(1500));
    assert_eq!(ota_server::gray::next_batch_offset(499, 0), None);
    assert_eq!(ota_server::gray::next_batch_offset(0, 500), None);
}
