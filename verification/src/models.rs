//! Records and request bodies of the server. Times are Unix seconds.
use vstd::prelude::*;

verus! {

/// A registered device.
#[derive(Debug)]
pub struct Device {
    pub id: i64,
    pub device_id: String,
    pub device_type: String,
    /// Life-cycle status of the device; only an `active` device is offered upgrades.
    pub status: String,
    pub firmware_version: Option<String>,
    pub hardware_version: Option<String>,
    pub battery_level: Option<i64>,
    pub wifi_ssid: Option<String>,
    pub wifi_signal: Option<i64>,
    pub last_heartbeat_at: Option<i64>,
    pub created_at: i64,
    pub updated_at: i64,
}

#[derive(Debug)]
pub struct CreateDeviceRequest {
    pub device_id: String,
    pub device_type: String,
    pub firmware_version: Option<String>,
    pub hardware_version: Option<String>,
}

#[derive(Debug)]
pub struct UpdateDeviceRequest {
    pub firmware_version: Option<String>,
    pub battery_level: Option<i64>,
    pub wifi_ssid: Option<String>,
    pub wifi_signal: Option<i64>,
}

impl CreateDeviceRequest {
    /// Whether registration also reports versions, which are then stored.
    pub fn carries_versions(&self) -> (b: bool)
        ensures
            b == (self.firmware_version is Some || self.hardware_version is Some),
    {
        self.firmware_version.is_some() || self.hardware_version.is_some()
    }

    /// The update that registration stores: only the firmware version.
    pub fn version_update(&self) -> (u: UpdateDeviceRequest)
        ensures
            u.firmware_version == self.firmware_version,
            u.battery_level is None,
            u.wifi_ssid is None,
            u.wifi_signal is None,
    {
        UpdateDeviceRequest {
            firmware_version: clone_opt_string(&self.firmware_version),
            battery_level: None,
            wifi_ssid: None,
            wifi_signal: None,
        }
    }
}

/// A copy of an optional string.
pub fn clone_opt_string(s: &Option<String>) -> (c: Option<String>)
    ensures
        c == *s,
{
    match s {
        Some(x) => Some(x.clone()),
        None => None,
    }
}

/// One device's upgrade within a task.
#[derive(Debug)]
pub struct DeviceUpgrade {
    pub id: i64,
    pub task_id: i64,
    pub device_id: String,
    pub firmware_id: i64,
    pub status: String,
    pub gray_stage: i64,
    pub failure_reason: Option<String>,
    pub started_at: Option<i64>,
    pub completed_at: Option<i64>,
    pub created_at: i64,
    pub updated_at: i64,
}

#[derive(Debug)]
pub struct UpgradeStatusUpdate {
    pub status: String,
    pub failure_reason: Option<String>,
}

/// Position of the first upgrade that belongs to `task_id`.
pub fn find_upgrade_for_task(upgrades: &Vec<DeviceUpgrade>, task_id: i64) -> (pos: Option<usize>)
    ensures
        match pos {
            Some(i) => i < upgrades@.len() && upgrades@[i as int].task_id == task_id && forall|j: int|
                0 <= j < i ==> #[trigger] upgrades@[j].task_id != task_id,
            None => forall|j: int| 0 <= j < upgrades@.len() ==> #[trigger] upgrades@[j].task_id != task_id,
        },
{
    let mut i: usize = 0;
    while i < upgrades.len()
        invariant
            i <= upgrades@.len(),
            forall|j: int| 0 <= j < i ==> #[trigger] upgrades@[j].task_id != task_id,
        decreases upgrades@.len() - i,
    {
        if upgrades[i].task_id == task_id {
            return Some(i);
        }
        i = i + 1;
    }
    None
}

/// What a device is told about a firmware image.
#[derive(Debug)]
pub struct FirmwareInfo {
    pub id: i64,
    pub version: String,
    pub device_type: String,
    pub file_size: i64,
    pub sha256_hash: String,
    pub rsa_signature: String,
}

#[derive(Debug)]
pub struct CheckVersionRequest {
    pub device_type: String,
    pub firmware_version: Option<String>,
    pub hardware_version: Option<String>,
    pub battery_level: Option<i64>,
    pub wifi_ssid: Option<String>,
    pub wifi_signal: Option<i64>,
}

impl CheckVersionRequest {
    /// The device attributes that a version check stores.
    pub fn device_update(&self) -> (u: UpdateDeviceRequest)
        ensures
            u.firmware_version == self.firmware_version,
            u.battery_level == self.battery_level,
            u.wifi_ssid == self.wifi_ssid,
            u.wifi_signal == self.wifi_signal,
    {
        UpdateDeviceRequest {
            firmware_version: clone_opt_string(&self.firmware_version),
            battery_level: self.battery_level,
            wifi_ssid: clone_opt_string(&self.wifi_ssid),
            wifi_signal: self.wifi_signal,
        }
    }
}

/// The answer to a version check.
#[derive(Debug)]
pub struct CheckVersionResponse {
    pub has_update: bool,
    pub firmware: Option<FirmwareInfo>,
    pub download_url: Option<String>,
    pub task_id: Option<i64>,
}

#[derive(Debug)]
pub struct StatusReportRequest {
    pub task_id: Option<i64>,
    pub status: String,
    pub firmware_version: Option<String>,
    pub progress: Option<i64>,
    pub error_message: Option<String>,
    pub battery_level: Option<i64>,
    pub wifi_signal: Option<i64>,
}

#[derive(Debug)]
pub struct RotateKeyRequest {
    pub new_secret_key: String,
}

#[derive(Debug)]
pub struct UpdateTaskStatusRequest {
    pub status: String,
}

#[derive(Debug)]
pub struct DeviceStatusTransitionRequest {
    pub status: String,
}

/// The query of a signed download link.
#[derive(Debug)]
pub struct DownloadQuery {
    pub device_id: String,
    pub expires: u64,
    pub key_id: String,
    pub sig: String,
}

#[derive(Debug)]
pub struct ListFirmwareQuery {
    pub device_type: String,
}

/// Filters and paging of the audit log.
#[derive(Debug)]
pub struct AuditLogQuery {
    pub action: Option<String>,
    pub resource_type: Option<String>,
    pub resource_id: Option<String>,
    pub limit: Option<i64>,
    pub offset: Option<i64>,
}

impl AuditLogQuery {
    /// At most this many entries are returned: 50 unless the query says.
    pub fn effective_limit(&self) -> (n: i64)
        ensures
            n == match self.limit {
                Some(l) => l,
                None => 50,
            },
    {
        match self.limit {
            Some(l) => l,
            None => 50,
        }
    }

    /// This many newest entries are skipped: none unless the query says.
    pub fn effective_offset(&self) -> (n: i64)
        ensures
            n == match self.offset {
                Some(o) => o,
                None => 0,
            },
    {
        match self.offset {
            Some(o) => o,
            None => 0,
        }
    }
}

} // verus!
