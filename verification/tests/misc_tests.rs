use ota_server::config::{Config, ConfigError, ConfigSource};
use ota_server::error::AppError;
use ota_server::models::{
    find_upgrade_for_task, AuditLogQuery, CheckVersionRequest, CreateDeviceRequest, DeviceUpgrade,
};
use ota_server::monitor::{FailureMonitor, MonitoredTask};
use ota_server::sql::split_sql_statements;
use ota_server::text::{i64_to_dec, u64_to_dec};

fn source() -> ConfigSource {
    ConfigSource {
        port: None,
        database_url: None,
        firmware_dir: None,
        rsa_private_key_pem: None,
        rsa_public_key_pem: None,
        download_url_expiry_secs: None,
        hmac_primary_key: None,
        hmac_secondary_key: None,
        encryption_key: None,
    }
}

#[test]
fn config_defaults() {
    let c = Config::from_settings(source()).ok().unwrap();
    assert_eq!(c.port, 3000);
    assert_eq!(c.database_url, "sqlite:ota.db?mode=rwc");
    assert_eq!(c.firmware_dir, "./firmware_store");
    assert_eq!(c.download_url_expiry_secs, 3600);
    assert_eq!(c.hmac_primary_key, "primary-secret-key-change-in-production");
    assert_eq!(c.hmac_secondary_key, "secondary-secret-key-change-in-production");
    assert_eq!(c.encryption_key, "default-encryption-key-change-in-production-please");
    assert!(c.rsa_private_key_pem.is_none());
}

#[test]
fn config_values_and_errors() {
    let mut s = source();
    s.port = Some("8080".to_string());
    s.download_url_expiry_secs = Some("60".to_string());
    s.database_url = Some("sqlite::memory:".to_string());
    let c = Config::from_settings(s).ok().unwrap();
    assert_eq!((c.port, c.download_url_expiry_secs), (8080, 60));
    assert_eq!(c.database_url, "sqlite::memory:");
    let mut s = source();
    s.port = Some("70000".to_string());
    let e = Config::from_settings(s).err().unwrap();
    assert_eq!(e, ConfigError::InvalidPort);
    assert_eq!(e.message(), "PORT must be a valid number");
    let mut s = source();
    s.download_url_expiry_secs = Some("-1".to_string());
    let e = Config::from_settings(s).err().unwrap();
    assert_eq!(e, ConfigError::InvalidExpiry);
    assert_eq!(e.message(), "DOWNLOAD_URL_EXPIRY_SECS must be a valid number");
}

fn monitored(id: i64, status: &str, auto_paused: bool, over: bool) -> MonitoredTask {
    MonitoredTask { task_id: id, status: status.to_string(), auto_paused, over_threshold: over }
}

#[test]
fn monitor_pauses_running_failing_tasks() {
    let m = FailureMonitor::new();
    let tasks = vec![
        monitored(1, "running", false, true),
        monitored(2, "running", false, false),
        monitored(3, "paused", false, true),
        monitored(4, "running", true, true),
        monitored(5, "running", false, true),
    ];
    let plan = m.plan_auto_pause(&tasks);
    assert_eq!(plan.pause, vec![1, 5]);
    assert_eq!(plan.auto_paused_count, 3);
    assert_eq!(plan.active_tasks, 5);
    assert!(plan.auto_paused_count <= plan.active_tasks);
    let empty = m.plan_auto_pause(&vec![]);
    assert!(empty.pause.is_empty() && empty.auto_paused_count == 0 && empty.active_tasks == 0);
}

#[test]
fn second_round_pauses_nothing() {
    let m = FailureMonitor::new();
    let tasks = vec![
        monitored(1, "running", false, true),
        monitored(2, "running", false, false),
        monitored(3, "running", true, true),
        monitored(4, "running", false, true),
    ];
    let plan = m.plan_auto_pause(&tasks);
    assert_eq!(plan.pause, vec![1, 4]);
    let next: Vec<MonitoredTask> = tasks
        .iter()
        .map(|t| {
            if plan.pause.contains(&t.task_id) {
                monitored(t.task_id, "paused", true, t.over_threshold)
            } else {
                monitored(t.task_id, &t.status, t.auto_paused, t.over_threshold)
            }
        })
        .collect();
    let again = m.plan_auto_pause(&next);
    assert!(again.pause.is_empty());
    assert_eq!(again.auto_paused_count, 3);
}

#[test]
fn sql_statements() {
    assert_eq!(
        split_sql_statements("CREATE TABLE a (x INT);\n\n  INSERT INTO a VALUES (1) ;  ;\n"),
        vec!["CREATE TABLE a (x INT)".to_string(), "INSERT INTO a VALUES (1)".to_string()]
    );
    assert!(split_sql_statements("").is_empty());
    assert_eq!(split_sql_statements("SELECT 1"), vec!["SELECT 1".to_string()]);
}

#[test]
fn error_responses() {
    let cases = vec![
        (AppError::NotFound("x".into()), 404, "not_found", "x", "Not found: x"),
        (AppError::BadRequest("b".into()), 400, "bad_request", "b", "Bad request: b"),
        (AppError::Unauthorized("u".into()), 401, "unauthorized", "u", "Unauthorized: u"),
        (AppError::InvalidSignature("s".into()), 403, "invalid_signature", "s", "Invalid signature: s"),
        (AppError::UrlExpired, 403, "url_expired", "URL has expired", "URL expired"),
        (AppError::Database("d".into()), 500, "database_error", "d", "Database error: d"),
        (AppError::Io("i".into()), 500, "io_error", "i", "IO error: i"),
        (AppError::Internal("n".into()), 500, "internal_error", "n", "Internal error: n"),
        (AppError::Json("j".into()), 400, "json_error", "j", "JSON error: j"),
        (AppError::Rsa("r".into()), 500, "rsa_error", "r", "RSA error: r"),
        (AppError::Multipart("m".into()), 400, "multipart_error", "m", "Multipart error: m"),
    ];
    for (e, status, kind, message, described) in cases {
        assert_eq!(e.describe(), described);
        let (s, k, m) = e.into_response_parts();
        assert_eq!((s, k.as_str(), m.as_str()), (status, kind, message));
    }
}

fn du(id: i64, task_id: i64) -> DeviceUpgrade {
    DeviceUpgrade {
        id,
        task_id,
        device_id: "d".into(),
        firmware_id: 1,
        status: "pending".into(),
        gray_stage: 0,
        failure_reason: None,
        started_at: None,
        completed_at: None,
        created_at: 0,
        updated_at: 0,
    }
}

#[test]
fn upgrade_lookup_by_task() {
    let list = vec![du(1, 10), du(2, 20), du(3, 20)];
    assert_eq!(find_upgrade_for_task(&list, 20), Some(1));
    assert_eq!(find_upgrade_for_task(&list, 30), None);
}

#[test]
fn request_helpers() {
    let q = AuditLogQuery { action: None, resource_type: None, resource_id: None, limit: None, offset: None };
    assert_eq!((q.effective_limit(), q.effective_offset()), (50, 0));
    let q = AuditLogQuery { limit: Some(5), offset: Some(10), ..q };
    assert_eq!((q.effective_limit(), q.effective_offset()), (5, 10));
    let c = CreateDeviceRequest {
        device_id: "d".into(),
        device_type: "t".into(),
        firmware_version: None,
        hardware_version: Some("h".into()),
    };
    assert!(c.carries_versions());
    assert!(c.version_update().firmware_version.is_none());
    let r = CheckVersionRequest {
        device_type: "t".into(),
        firmware_version: Some("1".into()),
        hardware_version: None,
        battery_level: Some(3),
        wifi_ssid: Some("w".into()),
        wifi_signal: Some(-1),
    };
    let u = r.device_update();
    assert_eq!(u.firmware_version.as_deref(), Some("1"));
    assert_eq!((u.battery_level, u.wifi_signal), (Some(3), Some(-1)));
    assert_eq!(u.wifi_ssid.as_deref(), Some("w"));
}

#[test]
fn decimal_text() {
    assert_eq!(u64_to_dec(0), "0");
    assert_eq!(u64_to_dec(u64::MAX), "18446744073709551615");
    assert_eq!(i64_to_dec(i64::MIN), "-9223372036854775808");
    assert_eq!(i64_to_dec(-7), "-7");
}

#[test]
fn statements_are_trimmed_of_unicode_white_space() {
    assert_eq!(
        split_sql_statements("\u{3000}SELECT 1\u{a0}\t;\u{2028}\u{85};\u{200b}"),
        vec!["SELECT 1".to_string(), "\u{200b}".to_string()]
    );
}
