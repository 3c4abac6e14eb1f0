//! Gray release: which devices an upgrade reaches at a given percentage.
use vstd::prelude::*;

use crate::digest::{sha256, spec_sha256};
use crate::models::Device;
use crate::task::{StageStep, UpgradeTask};
use vstd::utf8::encode_utf8;

verus! {

/// Big-endian value of a byte string.
pub open spec fn be_value(s: Seq<u8>) -> nat
    decreases s.len(),
{
    if s.len() == 0 {
        0
    } else {
        be_value(s.drop_last()) * 256 + s.last() as nat
    }
}

pub open spec fn pow256(n: nat) -> nat
    decreases n,
{
    if n == 0 {
        1
    } else {
        256 * pow256((n - 1) as nat)
    }
}

/// The bucket in `0..100` that a device falls in: the first eight bytes of the
/// SHA-256 digest of its identifier, read big-endian, taken modulo 10000 and
/// divided by 100.
pub open spec fn spec_gray_bucket(device_id: Seq<u8>) -> nat {
    (be_value(spec_sha256(device_id).take(8)) % 10000) / 100
}

/// A percentage cut to `0..=100`.
pub open spec fn clamp_percentage(p: int) -> int {
    if p < 0 {
        0
    } else if p > 100 {
        100
    } else {
        p
    }
}

/// Whether a device takes part in a rollout that reaches `percentage` percent
/// of the devices.
pub open spec fn spec_in_gray(device_id: Seq<u8>, percentage: int) -> bool {
    let pct = clamp_percentage(percentage);
    if pct >= 100 {
        true
    } else if pct == 0 {
        false
    } else {
        spec_gray_bucket(device_id) < pct
    }
}

proof fn lemma_be_value_bound(s: Seq<u8>)
    ensures
        be_value(s) < pow256(s.len()),
    decreases s.len(),
{
    if s.len() > 0 {
        lemma_be_value_bound(s.drop_last());
        let a = be_value(s.drop_last());
        let p = pow256((s.len() - 1) as nat);
        let b = s.last() as nat;
        assert(a * 256 + b < 256 * p) by (nonlinear_arith)
            requires a < p, b < 256;
    }
}

/// `u64::from_be_bytes` of the first eight bytes of `d`.
pub open spec fn first_u64_be(d: Seq<u8>) -> int {
    ((((((d[0] as int * 256 + d[1] as int) * 256 + d[2] as int) * 256 + d[3] as int) * 256
        + d[4] as int) * 256 + d[5] as int) * 256 + d[6] as int) * 256 + d[7] as int
}

proof fn lemma_be_value_first_eight(d: Seq<u8>)
    requires
        d.len() >= 8,
    ensures
        be_value(d.take(8)) == first_u64_be(d),
{
    assert forall|k: int| 1 <= k <= 8 implies #[trigger] be_value(d.take(k)) == be_value(
        d.take(k - 1),
    ) * 256 + d[k - 1] by {
        assert(d.take(k).drop_last() =~= d.take(k - 1));
        assert(d.take(k).last() == d[k - 1]);
    }
    assert(d.take(0) =~= Seq::<u8>::empty());
    assert(be_value(d.take(1)) == d[0] as int);
    assert(be_value(d.take(2)) == d[0] as int * 256 + d[1] as int);
    assert(be_value(d.take(3)) == be_value(d.take(2)) * 256 + d[2] as int);
    assert(be_value(d.take(4)) == be_value(d.take(3)) * 256 + d[3] as int);
    assert(be_value(d.take(5)) == be_value(d.take(4)) * 256 + d[4] as int);
    assert(be_value(d.take(6)) == be_value(d.take(5)) * 256 + d[5] as int);
    assert(be_value(d.take(7)) == be_value(d.take(6)) * 256 + d[6] as int);
    assert(be_value(d.take(8)) == be_value(d.take(7)) * 256 + d[7] as int);
}

/// The bucket of a device is read off the SHA-256 digest of its whole
/// identifier: the first eight digest bytes as a big-endian number, taken
/// modulo 10000 and divided by 100.
pub proof fn lemma_gray_bucket_of_whole_id(device_id: Seq<u8>)
    requires
        spec_sha256(device_id).len() >= 8,
    ensures
        spec_gray_bucket(device_id) == (first_u64_be(spec_sha256(device_id)) % 10000) / 100,
{
    lemma_be_value_first_eight(spec_sha256(device_id));
}

/// The gray bucket of a device identifier, in `0..100`.
pub fn device_gray_percentage(device_id: &str) -> (bucket: u64)
    ensures
        bucket == spec_gray_bucket(encode_utf8(device_id@)),
        bucket == (first_u64_be(spec_sha256(encode_utf8(device_id@))) % 10000) / 100,
        bucket < 100,
{
    let digest = sha256(device_id.as_bytes());
    let mut num: u64 = 0;
    let mut i: usize = 0;
    while i < 8
        invariant
            digest@.len() == 32,
            i <= 8,
            num as nat == be_value(digest@.take(i as int)),
        decreases 8 - i,
    {
        proof {
            lemma_be_value_bound(digest@.take(i as int));
            assert(pow256(i as nat) <= pow256(7)) by {
                lemma_pow256_mono(i as nat, 7);
            }
            assert(pow256(7) == 0x100_0000_0000_0000nat) by {
                reveal_with_fuel(pow256, 8);
            }
            assert(digest@.take(i + 1).drop_last() =~= digest@.take(i as int));
        }
        let b = digest[i];
        assert(num * 256 + b < 0x1_0000_0000_0000_0000nat) by (nonlinear_arith)
            requires num < 0x100_0000_0000_0000nat, b < 256;
        num = num * 256 + b as u64;
        i = i + 1;
    }
    proof {
        lemma_be_value_first_eight(digest@);
        assert(digest@.take(8) =~= digest@.take(8 as int));
    }
    num % 10000 / 100
}

proof fn lemma_pow256_mono(a: nat, b: nat)
    requires
        a <= b,
    ensures
        pow256(a) <= pow256(b),
    decreases b - a,
{
    if a < b {
        lemma_pow256_mono(a, (b - 1) as nat);
    }
}

/// Whether a device takes part in a rollout at `percentage` percent: always at
/// 100 or more, never at 0 or less, and otherwise when its bucket lies below
/// the percentage.
pub fn is_device_in_gray(device_id: &str, percentage: i64) -> (in_gray: bool)
    ensures
        in_gray == spec_in_gray(encode_utf8(device_id@), percentage as int),
        in_gray == (percentage >= 100 || (percentage > 0 && (first_u64_be(
            spec_sha256(encode_utf8(device_id@)),
        ) % 10000) / 100 < percentage)),
{
    let pct: u64 = if percentage < 0 {
        0
    } else if percentage > 100 {
        100
    } else {
        percentage as u64
    };
    if pct >= 100 {
        return true;
    }
    if pct == 0 {
        return false;
    }
    device_gray_percentage(device_id) < pct
}

/// Raising the percentage of a rollout never drops a device from it.
pub proof fn lemma_gray_monotone(device_id: Seq<u8>, p: int, q: int)
    requires
        p <= q,
        spec_in_gray(device_id, p),
    ensures
        spec_in_gray(device_id, q),
{
}

/// A rollout at 100 percent or more reaches every device, and one at 0
/// percent or less reaches none.
pub proof fn lemma_gray_bounds(device_id: Seq<u8>, p: int)
    ensures
        p >= 100 ==> spec_in_gray(device_id, p),
        p <= 0 ==> !spec_in_gray(device_id, p),
{
}

/// Whether a device satisfies a task's requirements: a battery level at least
/// the task's minimum, when it sets one, and, when it requires Wi-Fi, a
/// non-empty SSID with a signal of at least -70 dBm.
pub open spec fn spec_meets_constraints(device: Device, task: UpgradeTask) -> bool {
    &&& (task.min_battery_level matches Some(min) ==> (device.battery_level matches Some(b) && b
        >= min))
    &&& (task.require_wifi ==> (device.wifi_ssid matches Some(s) && s@.len() > 0))
    &&& (task.require_wifi ==> (device.wifi_signal matches Some(sig) && sig >= -70))
}

/// Whether a device is assigned at the task's current stage: it falls in the
/// stage's percentage and satisfies the task's requirements.
pub open spec fn spec_stage_candidate(task: UpgradeTask, device: Device) -> bool {
    spec_in_gray(encode_utf8(device.device_id@), task.spec_current_percentage() as int)
        && spec_meets_constraints(device, task)
}

/// Positions, in order, of the first `n` devices that are assigned at the task's stage.
pub open spec fn candidate_positions(task: UpgradeTask, devices: Seq<Device>, n: nat) -> Seq<usize>
    decreases n,
{
    if n == 0 {
        Seq::empty()
    } else {
        let before = candidate_positions(task, devices, (n - 1) as nat);
        if spec_stage_candidate(task, devices[n - 1]) {
            before.push((n - 1) as usize)
        } else {
            before
        }
    }
}

/// How many devices a stage assignment reads at a time.
pub const ASSIGN_BATCH_SIZE: i64 = 500;

/// After a batch of `batch_len` devices read at `offset`, where the next batch
/// starts; nothing when this batch was the last, that is shorter than a full
/// batch.
pub fn next_batch_offset(batch_len: usize, offset: i64) -> (next: Option<i64>)
    requires
        batch_len >= ASSIGN_BATCH_SIZE ==> offset + ASSIGN_BATCH_SIZE <= i64::MAX,
    ensures
        batch_len < ASSIGN_BATCH_SIZE ==> next is None,
        batch_len >= ASSIGN_BATCH_SIZE ==> next == Some((offset + ASSIGN_BATCH_SIZE) as i64),
{
    if (batch_len as u64) < (ASSIGN_BATCH_SIZE as u64) {
        None
    } else {
        Some(offset + ASSIGN_BATCH_SIZE)
    }
}

/// Chooses the devices that a task's gray stages reach.
pub struct GrayEngine;

impl GrayEngine {
    pub fn new() -> (e: Self) {
        GrayEngine
    }

    pub fn meets_constraints(&self, device: &Device, task: &UpgradeTask) -> (ok: bool)
        ensures
            ok == spec_meets_constraints(*device, *task),
    {
        if let Some(min_battery) = task.min_battery_level {
            match device.battery_level {
                Some(battery) => {
                    if battery < min_battery {
                        return false;
                    }
                },
                None => {
                    return false;
                },
            }
        }
        if task.require_wifi {
            match &device.wifi_ssid {
                Some(ssid) => {
                    if ssid.as_str().is_empty() {
                        return false;
                    }
                },
                None => {
                    return false;
                },
            }
            match device.wifi_signal {
                Some(signal) => {
                    if signal < -70 {
                        return false;
                    }
                },
                None => {
                    return false;
                },
            }
        }
        true
    }

    /// Positions, in order, of the devices of a batch that the task's current
    /// stage reaches and that satisfy its requirements.
    pub fn stage_candidates(&self, task: &UpgradeTask, devices: &Vec<Device>) -> (pos: Vec<usize>)
        ensures
            pos@ == candidate_positions(*task, devices@, devices@.len()),
    {
        reveal(spec_stage_candidate);
        let percentage = task.get_current_gray_percentage();
        let mut pos: Vec<usize> = Vec::new();
        let mut i: usize = 0;
        while i < devices.len()
            invariant
                i <= devices@.len(),
                percentage == task.spec_current_percentage(),
                pos@ == candidate_positions(*task, devices@, i as nat),
            decreases devices@.len() - i,
        {
            let device = &devices[i];
            if is_device_in_gray(device.device_id.as_str(), percentage) && self.meets_constraints(
                device,
                task,
            ) {
                pos.push(i);
            }
            i = i + 1;
        }
        pos
    }

    /// What advancing the task's stage does (the stage `-1` is left out).
    pub fn advance_stage_plan(&self, task: &UpgradeTask) -> (step: StageStep)
        requires
            task.gray_stage != -1,
        ensures
            step == task.spec_stage_step(),
    {
        task.stage_step()
    }
}

/// Every position chosen for a stage is a device of the batch that the stage
/// reaches and whose requirements hold, and every such device is chosen.
pub proof fn lemma_candidates_exact(task: UpgradeTask, devices: Seq<Device>, n: nat)
    requires
        n <= devices.len() <= usize::MAX,
    ensures
        forall|k: int|
            0 <= k < candidate_positions(task, devices, n).len() ==> {
                let i = #[trigger] candidate_positions(task, devices, n)[k];
                &&& i < n
                &&& spec_stage_candidate(task, devices[i as int])
            },
        forall|i: int|
            0 <= i < n && spec_stage_candidate(task, #[trigger] devices[i]) ==> candidate_positions(
                task,
                devices,
                n,
            ).contains(i as usize),
    decreases n,
{
    if n > 0 {
        lemma_candidates_exact(task, devices, (n - 1) as nat);
        let before = candidate_positions(task, devices, (n - 1) as nat);
        let now = candidate_positions(task, devices, n);
        assert forall|k: int| 0 <= k < now.len() implies {
            let i = #[trigger] now[k];
            &&& i < n
            &&& spec_stage_candidate(task, devices[i as int])
        } by {
            if k < before.len() {
                assert(now[k] == before[k]);
            } else {
                assert(spec_stage_candidate(task, devices[n - 1]));
                assert(now[k] == (n - 1) as usize);
            }
        }
        assert forall|i: int|
            0 <= i < n && spec_stage_candidate(task, #[trigger] devices[i]) implies candidate_positions(
            task,
            devices,
            n,
        ).contains(i as usize) by {
            if i < n - 1 {
                assert(before.contains(i as usize));
                let k = choose|k: int| 0 <= k < before.len() && before[k] == i as usize;
                if spec_stage_candidate(task, devices[n - 1]) {
                    assert(candidate_positions(task, devices, n)[k] == i as usize);
                }
            } else {
                assert(candidate_positions(task, devices, n).last() == i as usize);
            }
        }
    }
}

/// A device that a stage reaches is still reached at any later stage whose
/// percentage is at least as high, so advancing a task never drops a device.
pub proof fn lemma_later_stage_keeps_device(task: UpgradeTask, later: UpgradeTask, device: Device)
    requires
        spec_stage_candidate(task, device),
        task.spec_current_percentage() <= later.spec_current_percentage(),
        later.min_battery_level == task.min_battery_level,
        later.require_wifi == task.require_wifi,
    ensures
        spec_stage_candidate(later, device),
{
    reveal(spec_stage_candidate);
    lemma_gray_monotone(
        encode_utf8(device.device_id@),
        task.spec_current_percentage() as int,
        later.spec_current_percentage() as int,
    );
}

} // verus!
