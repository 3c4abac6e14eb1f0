//! The life cycle of one device's upgrade:
//! `pending -> downloading -> installing -> success -> rebooted`, with
//! `failed` reachable from the first three and retried by downloading again.
use vstd::prelude::*;

use crate::error::{AppError, AppResult};
use crate::text::str_eq;

verus! {

/// Whether an upgrade may move from status `from` to status `to`. Staying in
/// the same status is always allowed.
pub open spec fn spec_valid_transition(from: Seq<char>, to: Seq<char>) -> bool {
    if from == to {
        true
    } else if from == "pending"@ {
        to == "downloading"@ || to == "failed"@
    } else if from == "downloading"@ {
        to == "installing"@ || to == "failed"@
    } else if from == "installing"@ {
        to == "success"@ || to == "failed"@
    } else if from == "success"@ {
        to == "rebooted"@
    } else if from == "failed"@ {
        to == "downloading"@
    } else {
        false
    }
}

pub fn is_valid_state_transition(from: &str, to: &str) -> (ok: bool)
    ensures
        ok == spec_valid_transition(from@, to@),
{
    if str_eq(from, to) {
        return true;
    }
    if str_eq(from, "pending") {
        str_eq(to, "downloading") || str_eq(to, "failed")
    } else if str_eq(from, "downloading") {
        str_eq(to, "installing") || str_eq(to, "failed")
    } else if str_eq(from, "installing") {
        str_eq(to, "success") || str_eq(to, "failed")
    } else if str_eq(from, "success") {
        str_eq(to, "rebooted")
    } else if str_eq(from, "failed") {
        str_eq(to, "downloading")
    } else {
        false
    }
}

pub open spec fn transition_refusal_text(current: Seq<char>, requested: Seq<char>) -> Seq<char> {
    "Invalid state transition: "@ + current + " -> "@ + requested
}

/// Checks a requested status change against the current status of an upgrade.
pub fn check_transition(current: &str, requested: &str) -> (res: AppResult<()>)
    ensures
        res is Ok <==> spec_valid_transition(current@, requested@),
        res matches Err(e) ==> e matches AppError::BadRequest(m) && m@ == transition_refusal_text(
            current@,
            requested@,
        ),
{
    if is_valid_state_transition(current, requested) {
        Ok(())
    } else {
        let mut m = "Invalid state transition: ".to_owned();
        m.append(current);
        m.append(" -> ");
        m.append(requested);
        Err(AppError::BadRequest(m))
    }
}

/// Which timestamps of an upgrade a status change sets.
#[derive(Clone, Copy, PartialEq, Eq, Debug)]
pub struct TimestampEffect {
    pub sets_started_at: bool,
    pub sets_completed_at: bool,
}

/// Entering `downloading` or `installing` stamps the start; entering
/// `success`, `failed` or `rebooted` stamps the completion.
pub fn status_timestamp_effect(status: &str) -> (effect: TimestampEffect)
    ensures
        effect.sets_started_at == (status@ == "downloading"@ || status@ == "installing"@),
        effect.sets_completed_at == (status@ == "success"@ || status@ == "failed"@ || status@
            == "rebooted"@),
{
    proof {
        lemma_status_names_distinct();
    }
    if str_eq(status, "downloading") || str_eq(status, "installing") {
        TimestampEffect { sets_started_at: true, sets_completed_at: false }
    } else if str_eq(status, "success") || str_eq(status, "failed") || str_eq(status, "rebooted") {
        TimestampEffect { sets_started_at: false, sets_completed_at: true }
    } else {
        TimestampEffect { sets_started_at: false, sets_completed_at: false }
    }
}

/// Changes to the upgrade metrics that one reported status change causes:
/// the two gauges of devices downloading and installing, and the counters of
/// successes and failures.
#[derive(Clone, Copy, PartialEq, Eq, Debug)]
pub struct GaugeDeltas {
    pub downloading: i64,
    pub installing: i64,
    pub success: u64,
    pub failed: u64,
}

pub open spec fn ind(b: bool) -> int {
    if b {
        1
    } else {
        0
    }
}

/// Whether a status is one whose entry the upgrade metrics record: every
/// status but `pending` and statuses outside the life cycle.
pub open spec fn is_metered_status(s: Seq<char>) -> bool {
    s == "downloading"@ || s == "installing"@ || s == "success"@ || s == "failed"@ || s
        == "rebooted"@
}

/// The metric changes for a status change from `old` to `new`: on entering a
/// metered status, each gauge moves by the change in whether the device is in
/// its state, and the success and failure counters count an entry into
/// `success` and `failed`; entering any other status changes nothing.
pub open spec fn spec_gauge_deltas(old: Seq<char>, new: Seq<char>) -> (int, int, int, int) {
    if is_metered_status(new) {
        (
            ind(new == "downloading"@) - ind(old == "downloading"@),
            ind(new == "installing"@) - ind(old == "installing"@),
            ind(new == "success"@),
            ind(new == "failed"@),
        )
    } else {
        (0, 0, 0, 0)
    }
}

/// The metric changes for a status change from `old` to `new`.
pub fn status_gauge_deltas(old: &str, new: &str) -> (d: GaugeDeltas)
    ensures
        (d.downloading as int, d.installing as int, d.success as int, d.failed as int)
            == spec_gauge_deltas(old@, new@),
{
    proof {
        lemma_status_names_distinct();
    }
    let was_dl = str_eq(old, "downloading");
    let was_inst = str_eq(old, "installing");
    let minus_dl: i64 = if was_dl { -1 } else { 0 };
    let minus_inst: i64 = if was_inst { -1 } else { 0 };
    if str_eq(new, "downloading") {
        GaugeDeltas {
            downloading: if was_dl { 0 } else { 1 },
            installing: minus_inst,
            success: 0,
            failed: 0,
        }
    } else if str_eq(new, "installing") {
        GaugeDeltas {
            downloading: minus_dl,
            installing: if was_inst { 0 } else { 1 },
            success: 0,
            failed: 0,
        }
    } else if str_eq(new, "success") {
        GaugeDeltas { downloading: minus_dl, installing: minus_inst, success: 1, failed: 0 }
    } else if str_eq(new, "failed") {
        GaugeDeltas { downloading: minus_dl, installing: minus_inst, success: 0, failed: 1 }
    } else if str_eq(new, "rebooted") {
        GaugeDeltas { downloading: minus_dl, installing: minus_inst, success: 0, failed: 0 }
    } else {
        GaugeDeltas { downloading: 0, installing: 0, success: 0, failed: 0 }
    }
}

/// The six status names are distinct.
pub proof fn lemma_status_names_distinct()
    ensures
        "pending"@ != "downloading"@,
        "pending"@ != "installing"@,
        "pending"@ != "success"@,
        "pending"@ != "failed"@,
        "pending"@ != "rebooted"@,
        "downloading"@ != "installing"@,
        "downloading"@ != "success"@,
        "downloading"@ != "failed"@,
        "downloading"@ != "rebooted"@,
        "installing"@ != "success"@,
        "installing"@ != "failed"@,
        "installing"@ != "rebooted"@,
        "success"@ != "failed"@,
        "success"@ != "rebooted"@,
        "failed"@ != "rebooted"@,
{
    reveal_strlit("pending");
    reveal_strlit("downloading");
    reveal_strlit("installing");
    reveal_strlit("success");
    reveal_strlit("failed");
    reveal_strlit("rebooted");
    assert("pending"@[0] != "success"@[0]);
    assert("downloading"@[0] != "installing"@[0]);
    assert("downloading"@[0] != "failed"@[0]);
}

/// Over any allowed status change, the downloading and installing gauges move
/// by exactly the change in whether the device is downloading or installing,
/// the success counter counts entries into `success` and the failure counter
/// entries into `failed`: the gauges keep counting the devices in each state.
pub proof fn lemma_gauges_track_states(old: Seq<char>, new: Seq<char>)
    requires
        spec_valid_transition(old, new),
    ensures
        spec_gauge_deltas(old, new).0 == ind(new == "downloading"@) - ind(old == "downloading"@),
        spec_gauge_deltas(old, new).1 == ind(new == "installing"@) - ind(old == "installing"@),
        spec_gauge_deltas(old, new).2 == ind(new == "success"@),
        spec_gauge_deltas(old, new).3 == ind(new == "failed"@),
{
    lemma_status_names_distinct();
}

/// Every status may stay as it is.
pub proof fn lemma_transition_reflexive(s: Seq<char>)
    ensures
        spec_valid_transition(s, s),
{
}

/// `rebooted` is final: no other status follows it.
pub proof fn lemma_rebooted_is_final(to: Seq<char>)
    requires
        spec_valid_transition("rebooted"@, to),
    ensures
        to == "rebooted"@,
{
    lemma_status_names_distinct();
}

/// An upgrade succeeds only out of `installing`.
pub proof fn lemma_success_only_after_install(from: Seq<char>)
    requires
        spec_valid_transition(from, "success"@),
        from != "success"@,
    ensures
        from == "installing"@,
{
    lemma_status_names_distinct();
}

/// A failed upgrade can only be retried by downloading again.
pub proof fn lemma_failed_retries_by_download(to: Seq<char>)
    requires
        spec_valid_transition("failed"@, to),
        to != "failed"@,
    ensures
        to == "downloading"@,
{
    lemma_status_names_distinct();
}

/// A status outside the life cycle has no way out.
pub proof fn lemma_unknown_status_is_stuck(from: Seq<char>, to: Seq<char>)
    requires
        from != "pending"@,
        from != "downloading"@,
        from != "installing"@,
        from != "success"@,
        from != "failed"@,
        spec_valid_transition(from, to),
    ensures
        to == from,
{
    lemma_status_names_distinct();
}


/// The complete table of status changes: an upgrade may stay where it is, and
/// otherwise move only along these eight edges, each of which is allowed:
/// pending to downloading or failed, downloading to installing or failed,
/// installing to success or failed, success to rebooted, failed to downloading.
pub proof fn lemma_transition_table(from: Seq<char>, to: Seq<char>)
    ensures
        spec_valid_transition(from, to) <==> {
            ||| from == to
            ||| from == "pending"@ && to == "downloading"@
            ||| from == "pending"@ && to == "failed"@
            ||| from == "downloading"@ && to == "installing"@
            ||| from == "downloading"@ && to == "failed"@
            ||| from == "installing"@ && to == "success"@
            ||| from == "installing"@ && to == "failed"@
            ||| from == "success"@ && to == "rebooted"@
            ||| from == "failed"@ && to == "downloading"@
        },
{
    lemma_status_names_distinct();
}

/// Out of `installing` an upgrade can only finish: succeed or fail.
pub proof fn lemma_installing_only_finishes(to: Seq<char>)
    requires
        spec_valid_transition("installing"@, to),
        to != "installing"@,
    ensures
        to == "success"@ || to == "failed"@,
{
    lemma_transition_table("installing"@, to);
    lemma_status_names_distinct();
}

/// No status change goes backwards along `pending -> downloading ->
/// installing -> success -> rebooted`; the one way back is retrying a failed
/// upgrade by downloading again.
pub proof fn lemma_no_backward_steps(from: Seq<char>, to: Seq<char>)
    requires
        spec_valid_transition(from, to),
    ensures
        to == "pending"@ ==> from == "pending"@,
        to == "downloading"@ ==> from == "pending"@ || from == "downloading"@ || from == "failed"@,
        to == "installing"@ ==> from == "downloading"@ || from == "installing"@,
        to == "success"@ ==> from == "installing"@ || from == "success"@,
        to == "rebooted"@ ==> from == "success"@ || from == "rebooted"@,
{
    lemma_transition_table(from, to);
    lemma_status_names_distinct();
}

} // verus!
