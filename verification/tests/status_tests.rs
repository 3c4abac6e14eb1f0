use ota_server::models::{CheckVersionRequest, Device, DeviceUpgrade, FirmwareInfo};
use ota_server::status::{
    check_device_constraints, check_version_step, CheckVersionAction, CheckVersionEvent,
    CheckVersionPhase,
};
use ota_server::task::UpgradeTask;

fn device(status: &str, version: Option<&str>) -> Device {
    Device {
        id: 1,
        device_id: "dev-1".to_string(),
        device_type: "sensor".to_string(),
        status: status.to_string(),
        firmware_version: version.map(|v| v.to_string()),
        hardware_version: None,
        battery_level: Some(30),
        wifi_ssid: Some("home".to_string()),
        wifi_signal: Some(-50),
        last_heartbeat_at: None,
        created_at: 0,
        updated_at: 0,
    }
}

fn request() -> CheckVersionRequest {
    CheckVersionRequest {
        device_type: "sensor".to_string(),
        firmware_version: Some("1.0".to_string()),
        hardware_version: None,
        battery_level: None,
        wifi_ssid: None,
        wifi_signal: None,
    }
}

fn task(status: &str, auto_paused: bool, min_battery: Option<i64>, wifi: bool) -> UpgradeTask {
    UpgradeTask {
        id: 9,
        task_name: "t".to_string(),
        firmware_id: 4,
        device_type: "sensor".to_string(),
        gray_stage: 0,
        gray_percentages: "[100]".to_string(),
        min_battery_level: min_battery,
        require_wifi: wifi,
        time_window_start: None,
        time_window_end: None,
        status: status.to_string(),
        auto_paused,
        created_at: 0,
        updated_at: 0,
    }
}

fn firmware(version: &str) -> FirmwareInfo {
    FirmwareInfo {
        id: 4,
        version: version.to_string(),
        device_type: "sensor".to_string(),
        file_size: 10,
        sha256_hash: "h".to_string(),
        rsa_signature: "s".to_string(),
    }
}

fn upgrade() -> DeviceUpgrade {
    DeviceUpgrade {
        id: 5,
        task_id: 9,
        device_id: "dev-1".to_string(),
        firmware_id: 4,
        status: "pending".to_string(),
        gray_stage: 0,
        failure_reason: None,
        started_at: None,
        completed_at: None,
        created_at: 0,
        updated_at: 0,
    }
}

#[test]
fn inactive_device_gets_nothing() {
    let d = device("disabled", None);
    let (phase, action) = check_version_step(CheckVersionPhase::Start, CheckVersionEvent::Begin, &d, &request(), 0);
    assert!(matches!(phase, CheckVersionPhase::Finished));
    assert!(matches!(
        action,
        CheckVersionAction::Answer { save_device: false, has_update: false, firmware: None, link: false, task_id: None }
    ));
}

#[test]
fn pending_task_offer() {
    let d = device("active", Some("1.0"));
    let r = request();
    let (p, a) = check_version_step(CheckVersionPhase::Start, CheckVersionEvent::Begin, &d, &r, 600);
    assert!(matches!(a, CheckVersionAction::LoadPending));
    let (p, a) = check_version_step(p, CheckVersionEvent::PendingLoaded(Some(upgrade())), &d, &r, 600);
    assert!(matches!(a, CheckVersionAction::LoadTask(9)));
    let (p, a) = check_version_step(p, CheckVersionEvent::TaskLoaded(Some(task("running", false, None, false))), &d, &r, 600);
    assert!(matches!(a, CheckVersionAction::LoadFirmware(4)));
    let (p, a) = check_version_step(p, CheckVersionEvent::FirmwareLoaded(Some(firmware("2.0"))), &d, &r, 600);
    assert!(matches!(p, CheckVersionPhase::Finished));
    match a {
        CheckVersionAction::Answer { save_device, has_update, firmware, link, task_id } => {
            assert!(save_device && has_update && link);
            assert_eq!(firmware.unwrap().version, "2.0");
            assert_eq!(task_id, Some(9));
        }
        _ => panic!("expected an answer"),
    }
}

#[test]
fn unmet_constraints_block_the_task() {
    let d = device("active", Some("1.0"));
    let r = request();
    let (p, _) = check_version_step(CheckVersionPhase::AwaitPending, CheckVersionEvent::PendingLoaded(Some(upgrade())), &d, &r, 0);
    let (p, a) = check_version_step(p, CheckVersionEvent::TaskLoaded(Some(task("running", false, Some(80), false))), &d, &r, 0);
    assert!(matches!(p, CheckVersionPhase::Finished));
    assert!(matches!(a, CheckVersionAction::Answer { save_device: true, has_update: false, .. }));
}

#[test]
fn paused_task_falls_through_to_latest() {
    let d = device("active", Some("1.0"));
    let r = request();
    let (p, _) = check_version_step(CheckVersionPhase::AwaitPending, CheckVersionEvent::PendingLoaded(Some(upgrade())), &d, &r, 0);
    let (p, a) = check_version_step(p, CheckVersionEvent::TaskLoaded(Some(task("running", true, None, false))), &d, &r, 0);
    assert!(matches!(a, CheckVersionAction::SaveDeviceThenLoadLatest));
    let (_, a) = check_version_step(p, CheckVersionEvent::LatestLoaded(Some(firmware("1.0"))), &d, &r, 0);
    assert!(matches!(a, CheckVersionAction::Answer { has_update: false, link: false, task_id: None, .. }));
}

#[test]
fn latest_offered_when_version_differs() {
    let d = device("active", Some("1.0"));
    let r = request();
    let (_, a) = check_version_step(CheckVersionPhase::AwaitLatest, CheckVersionEvent::LatestLoaded(Some(firmware("1.1"))), &d, &r, 0);
    assert!(matches!(a, CheckVersionAction::Answer { save_device: false, has_update: true, link: true, task_id: None, .. }));
    let bare = device("active", None);
    let (_, a) = check_version_step(CheckVersionPhase::AwaitLatest, CheckVersionEvent::LatestLoaded(Some(firmware(""))), &bare, &r, 0);
    assert!(matches!(a, CheckVersionAction::Answer { has_update: false, .. }));
    let (_, a) = check_version_step(CheckVersionPhase::AwaitLatest, CheckVersionEvent::LatestLoaded(None), &d, &r, 0);
    assert!(matches!(a, CheckVersionAction::Answer { has_update: false, firmware: None, .. }));
}

#[test]
fn no_pending_upgrade_or_missing_firmware() {
    let d = device("active", None);
    let r = request();
    let (p, a) = check_version_step(CheckVersionPhase::AwaitPending, CheckVersionEvent::PendingLoaded(None), &d, &r, 0);
    assert!(matches!(p, CheckVersionPhase::AwaitLatest));
    assert!(matches!(a, CheckVersionAction::SaveDeviceThenLoadLatest));
    let (p, a) = check_version_step(CheckVersionPhase::AwaitTaskFirmware { task_id: 3 }, CheckVersionEvent::FirmwareLoaded(None), &d, &r, 0);
    assert!(matches!(p, CheckVersionPhase::AwaitLatest));
    assert!(matches!(a, CheckVersionAction::SaveDeviceThenLoadLatest));
    let (_, a) = check_version_step(CheckVersionPhase::Start, CheckVersionEvent::LatestLoaded(None), &d, &r, 0);
    assert!(matches!(a, CheckVersionAction::Reject));
}

#[test]
fn reported_values_override_stored_ones() {
    let d = device("active", None);
    let t = task("running", false, Some(20), true);
    let mut r = request();
    assert!(check_device_constraints(&d, &t, &r, 0));
    r.battery_level = Some(10);
    assert!(!check_device_constraints(&d, &t, &r, 0));
    r.battery_level = None;
    r.wifi_ssid = Some(String::new());
    assert!(!check_device_constraints(&d, &t, &r, 0));
    r.wifi_ssid = None;
    r.wifi_signal = Some(-80);
    assert!(!check_device_constraints(&d, &t, &r, 0));
    let mut bare = device("active", None);
    bare.battery_level = None;
    bare.wifi_signal = None;
    let r = request();
    assert!(!check_device_constraints(&bare, &task("running", false, Some(1), false), &r, 0));
    assert!(check_device_constraints(&bare, &task("running", false, Some(0), false), &r, 0));
    assert!(!check_device_constraints(&bare, &task("running", false, None, true), &r, 0));
    let mut windowed = task("running", false, None, false);
    windowed.time_window_start = Some("01:00".to_string());
    windowed.time_window_end = Some("02:00".to_string());
    assert!(!check_device_constraints(&d, &windowed, &r, 0));
    assert!(check_device_constraints(&d, &windowed, &r, 90));
}
