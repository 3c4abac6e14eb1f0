//! A device asking whether it should update.
//!
//! The answer needs several lookups, so it is written as a machine: the
//! server feeds it what each lookup found and performs the action it names
//! next. A device that is not active is told nothing. Otherwise its first
//! unfinished upgrade decides, when its task is running, not paused by the
//! failure monitor, open at this time of day and met by the device's reported
//! battery and Wi-Fi; failing that, the newest active firmware for its type is
//! offered when its version differs from the device's.
use vstd::prelude::*;

use crate::models::{CheckVersionRequest, Device, DeviceUpgrade, FirmwareInfo};
use crate::task::UpgradeTask;
use crate::text::str_eq;

verus! {

/// The battery level a version check goes by: the reported one, else the
/// stored one, else 0.
pub open spec fn effective_battery(req: CheckVersionRequest, device: Device) -> i64 {
    match req.battery_level {
        Some(b) => b,
        None => match device.battery_level {
            Some(b) => b,
            None => 0,
        },
    }
}

/// The SSID a version check goes by: the reported one, else the stored one, else empty.
pub open spec fn effective_ssid(req: CheckVersionRequest, device: Device) -> Seq<char> {
    match req.wifi_ssid {
        Some(s) => s@,
        None => match device.wifi_ssid {
            Some(s) => s@,
            None => Seq::empty(),
        },
    }
}

/// The Wi-Fi signal a version check goes by: the reported one, else the
/// stored one, else -100 dBm.
pub open spec fn effective_signal(req: CheckVersionRequest, device: Device) -> i64 {
    match req.wifi_signal {
        Some(s) => s,
        None => match device.wifi_signal {
            Some(s) => s,
            None => -100i64,
        },
    }
}

/// Whether a device may take a task's upgrade at `now` (minutes of the day).
pub open spec fn spec_check_device_constraints(
    device: Device,
    task: UpgradeTask,
    req: CheckVersionRequest,
    now: nat,
) -> bool {
    &&& task.spec_window_open(now)
    &&& (task.min_battery_level matches Some(min) ==> effective_battery(req, device) >= min)
    &&& (task.require_wifi ==> effective_ssid(req, device).len() > 0)
    &&& (task.require_wifi ==> effective_signal(req, device) >= -70)
}

pub fn check_device_constraints(
    device: &Device,
    task: &UpgradeTask,
    req: &CheckVersionRequest,
    now_minutes: u32,
) -> (ok: bool)
    requires
        task.spec_window_in_range(),
    ensures
        ok == spec_check_device_constraints(*device, *task, *req, now_minutes as nat),
{
    if !task.is_time_window_valid_at(now_minutes) {
        return false;
    }
    if let Some(min_battery) = task.min_battery_level {
        let battery = match req.battery_level {
            Some(b) => b,
            None => match device.battery_level {
                Some(b) => b,
                None => 0,
            },
        };
        if battery < min_battery {
            return false;
        }
    }
    if task.require_wifi {
        let ssid_empty = match &req.wifi_ssid {
            Some(s) => s.as_str().is_empty(),
            None => match &device.wifi_ssid {
                Some(s) => s.as_str().is_empty(),
                None => true,
            },
        };
        if ssid_empty {
            return false;
        }
        let signal = match req.wifi_signal {
            Some(s) => s,
            None => match device.wifi_signal {
                Some(s) => s,
                None => -100,
            },
        };
        if signal < -70 {
            return false;
        }
    }
    true
}

/// Where a version check stands.
#[derive(Debug)]
pub enum CheckVersionPhase {
    Start,
    AwaitPending,
    AwaitTask { task_id: i64, firmware_id: i64 },
    AwaitTaskFirmware { task_id: i64 },
    AwaitLatest,
    Finished,
}

/// What a lookup found.
#[derive(Debug)]
pub enum CheckVersionEvent {
    /// The check begins, with the device registered.
    Begin,
    /// The device's first unfinished upgrade, if any.
    PendingLoaded(Option<DeviceUpgrade>),
    /// The task of that upgrade, if it exists.
    TaskLoaded(Option<UpgradeTask>),
    /// The firmware of that upgrade, if it exists.
    FirmwareLoaded(Option<FirmwareInfo>),
    /// The newest active firmware for the device's type, if any.
    LatestLoaded(Option<FirmwareInfo>),
}

/// What the server does next.
#[derive(Debug)]
pub enum CheckVersionAction {
    LoadPending,
    LoadTask(i64),
    LoadFirmware(i64),
    /// Store the attributes the device reported, then look up the newest active firmware.
    SaveDeviceThenLoadLatest,
    /// Answer the device, after storing its reported attributes if `save_device`.
    /// A download link is made for the offered firmware when `link` holds.
    Answer {
        save_device: bool,
        has_update: bool,
        firmware: Option<FirmwareInfo>,
        link: bool,
        task_id: Option<i64>,
    },
    /// The event does not belong to the phase.
    Reject,
}

pub open spec fn no_update(save_device: bool) -> CheckVersionAction {
    CheckVersionAction::Answer {
        save_device,
        has_update: false,
        firmware: None,
        link: false,
        task_id: None,
    }
}

/// The firmware version a device reports having, empty when it reports none.
pub open spec fn current_version(device: Device) -> Seq<char> {
    match device.firmware_version {
        Some(v) => v@,
        None => Seq::empty(),
    }
}

/// One step of a version check.
pub open spec fn spec_check_version_step(
    phase: CheckVersionPhase,
    event: CheckVersionEvent,
    device: Device,
    req: CheckVersionRequest,
    now: nat,
) -> (CheckVersionPhase, CheckVersionAction) {
    match (phase, event) {
        (CheckVersionPhase::Start, CheckVersionEvent::Begin) => if device.status@ != "active"@ {
            (CheckVersionPhase::Finished, no_update(false))
        } else {
            (CheckVersionPhase::AwaitPending, CheckVersionAction::LoadPending)
        },
        (CheckVersionPhase::AwaitPending, CheckVersionEvent::PendingLoaded(p)) => match p {
            Some(u) => (
                CheckVersionPhase::AwaitTask { task_id: u.task_id, firmware_id: u.firmware_id },
                CheckVersionAction::LoadTask(u.task_id),
            ),
            None => (CheckVersionPhase::AwaitLatest, CheckVersionAction::SaveDeviceThenLoadLatest),
        },
        (
            CheckVersionPhase::AwaitTask { task_id, firmware_id },
            CheckVersionEvent::TaskLoaded(t),
        ) => match t {
            Some(task) => if task.status@ == "running"@ && !task.auto_paused {
                if !spec_check_device_constraints(device, task, req, now) {
                    (CheckVersionPhase::Finished, no_update(true))
                } else {
                    (
                        CheckVersionPhase::AwaitTaskFirmware { task_id },
                        CheckVersionAction::LoadFirmware(firmware_id),
                    )
                }
            } else {
                (CheckVersionPhase::AwaitLatest, CheckVersionAction::SaveDeviceThenLoadLatest)
            },
            None => (CheckVersionPhase::AwaitLatest, CheckVersionAction::SaveDeviceThenLoadLatest),
        },
        (CheckVersionPhase::AwaitTaskFirmware { task_id }, CheckVersionEvent::FirmwareLoaded(f)) => match f {
            Some(fw) => (
                CheckVersionPhase::Finished,
                CheckVersionAction::Answer {
                    save_device: true,
                    has_update: true,
                    firmware: Some(fw),
                    link: true,
                    task_id: Some(task_id),
                },
            ),
            None => (CheckVersionPhase::AwaitLatest, CheckVersionAction::SaveDeviceThenLoadLatest),
        },
        (CheckVersionPhase::AwaitLatest, CheckVersionEvent::LatestLoaded(f)) => match f {
            Some(fw) => {
                let has_update = fw.version@ != current_version(device);
                (
                    CheckVersionPhase::Finished,
                    CheckVersionAction::Answer {
                        save_device: false,
                        has_update,
                        firmware: Some(fw),
                        link: has_update,
                        task_id: None,
                    },
                )
            },
            None => (CheckVersionPhase::Finished, no_update(false)),
        },
        _ => (CheckVersionPhase::Finished, CheckVersionAction::Reject),
    }
}

/// Whether the task carried by an event (if any) has a window whose ends fit
/// in 32-bit minute counts.
pub open spec fn event_window_in_range(event: CheckVersionEvent) -> bool {
    event matches CheckVersionEvent::TaskLoaded(Some(t)) ==> t.spec_window_in_range()
}

/// One step of a version check for `device`, which sent `req`, at
/// `now_minutes` minutes of the day (UTC).
pub fn check_version_step(
    phase: CheckVersionPhase,
    event: CheckVersionEvent,
    device: &Device,
    req: &CheckVersionRequest,
    now_minutes: u32,
) -> (next: (CheckVersionPhase, CheckVersionAction))
    requires
        event_window_in_range(event),
    ensures
        next == spec_check_version_step(phase, event, *device, *req, now_minutes as nat),
{
    match (phase, event) {
        (CheckVersionPhase::Start, CheckVersionEvent::Begin) => {
            if !str_eq(device.status.as_str(), "active") {
                (
                    CheckVersionPhase::Finished,
                    CheckVersionAction::Answer {
                        save_device: false,
                        has_update: false,
                        firmware: None,
                        link: false,
                        task_id: None,
                    },
                )
            } else {
                (CheckVersionPhase::AwaitPending, CheckVersionAction::LoadPending)
            }
        },
        (CheckVersionPhase::AwaitPending, CheckVersionEvent::PendingLoaded(p)) => match p {
            Some(u) => (
                CheckVersionPhase::AwaitTask { task_id: u.task_id, firmware_id: u.firmware_id },
                CheckVersionAction::LoadTask(u.task_id),
            ),
            None => (CheckVersionPhase::AwaitLatest, CheckVersionAction::SaveDeviceThenLoadLatest),
        },
        (
            CheckVersionPhase::AwaitTask { task_id, firmware_id },
            CheckVersionEvent::TaskLoaded(t),
        ) => match t {
            Some(task) => {
                if str_eq(task.status.as_str(), "running") && !task.auto_paused {
                    if !check_device_constraints(device, &task, req, now_minutes) {
                        (
                            CheckVersionPhase::Finished,
                            CheckVersionAction::Answer {
                                save_device: true,
                                has_update: false,
                                firmware: None,
                                link: false,
                                task_id: None,
                            },
                        )
                    } else {
                        (
                            CheckVersionPhase::AwaitTaskFirmware { task_id },
                            CheckVersionAction::LoadFirmware(firmware_id),
                        )
                    }
                } else {
                    (CheckVersionPhase::AwaitLatest, CheckVersionAction::SaveDeviceThenLoadLatest)
                }
            },
            None => (CheckVersionPhase::AwaitLatest, CheckVersionAction::SaveDeviceThenLoadLatest),
        },
        (CheckVersionPhase::AwaitTaskFirmware { task_id }, CheckVersionEvent::FirmwareLoaded(f)) => match f {
            Some(fw) => (
                CheckVersionPhase::Finished,
                CheckVersionAction::Answer {
                    save_device: true,
                    has_update: true,
                    firmware: Some(fw),
                    link: true,
                    task_id: Some(task_id),
                },
            ),
            None => (CheckVersionPhase::AwaitLatest, CheckVersionAction::SaveDeviceThenLoadLatest),
        },
        (CheckVersionPhase::AwaitLatest, CheckVersionEvent::LatestLoaded(f)) => match f {
            Some(fw) => {
                let same = match &device.firmware_version {
                    Some(v) => str_eq(fw.version.as_str(), v.as_str()),
                    None => {
                        let e = fw.version.as_str().is_empty();
                        proof {
                            if e {
                                assert(fw.version@ =~= Seq::<char>::empty());
                            }
                        }
                        e
                    },
                };
                let has_update = !same;
                (
                    CheckVersionPhase::Finished,
                    CheckVersionAction::Answer {
                        save_device: false,
                        has_update,
                        firmware: Some(fw),
                        link: has_update,
                        task_id: None,
                    },
                )
            },
            None => (
                CheckVersionPhase::Finished,
                CheckVersionAction::Answer {
                    save_device: false,
                    has_update: false,
                    firmware: None,
                    link: false,
                    task_id: None,
                },
            ),
        },
        _ => (CheckVersionPhase::Finished, CheckVersionAction::Reject),
    }
}

/// A device that is not active is answered at once, with no update and
/// without storing anything.
pub proof fn lemma_inactive_device_gets_nothing(
    event: CheckVersionEvent,
    device: Device,
    req: CheckVersionRequest,
    now: nat,
)
    requires
        event is Begin,
        device.status@ != "active"@,
    ensures
        spec_check_version_step(CheckVersionPhase::Start, event, device, req, now) == (
            CheckVersionPhase::Finished,
            no_update(false),
        ),
{
}

/// Every answer is consistent: a download link is asked for exactly when an
/// update is offered, an offered update names its firmware, an answer that
/// names a task offers that task's firmware, and an answer without firmware
/// offers nothing.
pub proof fn lemma_update_comes_with_link(
    phase: CheckVersionPhase,
    event: CheckVersionEvent,
    device: Device,
    req: CheckVersionRequest,
    now: nat,
)
    ensures
        spec_check_version_step(phase, event, device, req, now).1 matches CheckVersionAction::Answer {
            has_update,
            firmware,
            link,
            task_id,
            ..
        } ==> {
            &&& has_update == link
            &&& (has_update ==> firmware is Some)
            &&& (task_id is Some ==> has_update && firmware is Some)
            &&& (firmware is None ==> !has_update)
        },
{
}

/// An upgrade of a task is offered only after the task was found running,
/// not paused by the failure monitor, and its requirements met by the device
/// at this time: that is the only way to the phase that answers with a task.
pub proof fn lemma_task_offer_requires_running_task(
    task_id: i64,
    firmware_id: i64,
    task: UpgradeTask,
    device: Device,
    req: CheckVersionRequest,
    now: nat,
)
    requires
        spec_check_version_step(
            CheckVersionPhase::AwaitTask { task_id, firmware_id },
            CheckVersionEvent::TaskLoaded(Some(task)),
            device,
            req,
            now,
        ).0 is AwaitTaskFirmware,
    ensures
        task.status@ == "running"@,
        !task.auto_paused,
        spec_check_device_constraints(device, task, req, now),
{
}

/// Only the phase reached through a running task answers with a task id.
pub proof fn lemma_task_answer_only_after_task_check(
    phase: CheckVersionPhase,
    event: CheckVersionEvent,
    device: Device,
    req: CheckVersionRequest,
    now: nat,
)
    requires
        spec_check_version_step(phase, event, device, req, now).1 matches CheckVersionAction::Answer {
            task_id: Some(_),
            ..
        },
    ensures
        phase is AwaitTaskFirmware,
{
}

/// When no task decides, the newest active firmware is offered exactly when
/// its version differs from the one the device has.
pub proof fn lemma_latest_offered_when_version_differs(
    fw: FirmwareInfo,
    device: Device,
    req: CheckVersionRequest,
    now: nat,
)
    ensures
        spec_check_version_step(
            CheckVersionPhase::AwaitLatest,
            CheckVersionEvent::LatestLoaded(Some(fw)),
            device,
            req,
            now,
        ).1 matches CheckVersionAction::Answer { has_update, .. } && has_update == (fw.version@
            != current_version(device)),
{
}


/// A pending upgrade whose task is not running, or was paused by the failure
/// monitor, does not decide the answer: the check stores what the device
/// reported and goes on to the newest active firmware, whatever the task's
/// status, requirements or window.
pub proof fn lemma_stopped_task_falls_through(
    task_id: i64,
    firmware_id: i64,
    task: UpgradeTask,
    device: Device,
    req: CheckVersionRequest,
    now: nat,
)
    requires
        task.status@ != "running"@ || task.auto_paused,
    ensures
        spec_check_version_step(
            CheckVersionPhase::AwaitTask { task_id, firmware_id },
            CheckVersionEvent::TaskLoaded(Some(task)),
            device,
            req,
            now,
        ) == (CheckVersionPhase::AwaitLatest, CheckVersionAction::SaveDeviceThenLoadLatest),
{
}

/// A pending upgrade whose task no longer exists falls through to the newest
/// active firmware as well.
pub proof fn lemma_missing_task_falls_through(
    task_id: i64,
    firmware_id: i64,
    device: Device,
    req: CheckVersionRequest,
    now: nat,
)
    ensures
        spec_check_version_step(
            CheckVersionPhase::AwaitTask { task_id, firmware_id },
            CheckVersionEvent::TaskLoaded(None),
            device,
            req,
            now,
        ) == (CheckVersionPhase::AwaitLatest, CheckVersionAction::SaveDeviceThenLoadLatest),
{
}

/// A running task that the failure monitor has not paused goes on to load
/// the upgrade's firmware when the device meets its requirements now, and
/// otherwise answers that there is no update, after storing what the device
/// reported.
pub proof fn lemma_running_task_decides(
    task_id: i64,
    firmware_id: i64,
    task: UpgradeTask,
    device: Device,
    req: CheckVersionRequest,
    now: nat,
)
    requires
        task.status@ == "running"@,
        !task.auto_paused,
    ensures
        spec_check_version_step(
            CheckVersionPhase::AwaitTask { task_id, firmware_id },
            CheckVersionEvent::TaskLoaded(Some(task)),
            device,
            req,
            now,
        ) == if spec_check_device_constraints(device, task, req, now) {
            (
                CheckVersionPhase::AwaitTaskFirmware { task_id },
                CheckVersionAction::LoadFirmware(firmware_id),
            )
        } else {
            (
                CheckVersionPhase::Finished,
                CheckVersionAction::Answer {
                    save_device: true,
                    has_update: false,
                    firmware: None,
                    link: false,
                    task_id: None,
                },
            )
        },
{
}

/// Whatever task the device's pending upgrade belongs to, the check either
/// loads that upgrade's firmware, answers without an update, or goes on to
/// the newest active firmware; it offers an update only through the firmware
/// it then loads.
pub proof fn lemma_task_step_never_offers_directly(
    task_id: i64,
    firmware_id: i64,
    t: Option<UpgradeTask>,
    device: Device,
    req: CheckVersionRequest,
    now: nat,
)
    ensures
        ({
            let (next, action) = spec_check_version_step(
                CheckVersionPhase::AwaitTask { task_id, firmware_id },
                CheckVersionEvent::TaskLoaded(t),
                device,
                req,
                now,
            );
            ||| next == CheckVersionPhase::AwaitLatest && action
                == CheckVersionAction::SaveDeviceThenLoadLatest
            ||| next == (CheckVersionPhase::AwaitTaskFirmware { task_id }) && action
                == CheckVersionAction::LoadFirmware(firmware_id) && (t matches Some(task)
                && task.status@ == "running"@ && !task.auto_paused)
            ||| next == CheckVersionPhase::Finished && action == no_update(true) && (t matches Some(
                task,
            ) && task.status@ == "running"@ && !task.auto_paused)
        }),
{
}

} // verus!
