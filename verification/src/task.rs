//! Upgrade tasks: their gray stages and the daily time window in which they
//! may hand out upgrades.
use vstd::prelude::*;

use crate::ambient::unix_time_secs;
use crate::text::{
    count_char, dec_int, dec_nat, lemma_first_index_of, parse_unsigned, parse_unsigned_chars, scan_char,
    split_after, split_before, str_chars,
};

verus! {

/// `serde_json::from_str::<Vec<i64>>`: the list that a JSON text denotes, if it
/// is a JSON array of 64-bit integers.
pub uninterp spec fn spec_json_i64_list(text: Seq<char>) -> Option<Seq<i64>>;

/// The items of a list of integers as `serde_json` writes them: decimal
/// numbers separated by commas, without spaces.
pub open spec fn json_items(v: Seq<i64>) -> Seq<char>
    decreases v.len(),
{
    if v.len() == 0 {
        Seq::empty()
    } else if v.len() == 1 {
        dec_int(v[0] as int)
    } else {
        json_items(v.drop_last()) + seq![','] + dec_int(v.last() as int)
    }
}

/// A list of integers as `serde_json` writes it.
pub open spec fn json_int_list_text(v: Seq<i64>) -> Seq<char> {
    seq!['['] + json_items(v) + seq![']']
}

/// `serde_json::from_str::<Vec<i64>>`.
#[verifier::external_body]
fn json_parse_i64_list(text: &str) -> (res: Option<Vec<i64>>)
    ensures
        match spec_json_i64_list(text@) {
            Some(l) => res matches Some(v) && v@ == l,
            None => res is None,
        },
{
    match serde_json::from_str::<Vec<i64>>(text) {
        Ok(v) => Some(v),
        Err(_) => None,
    }
}

/// `serde_json::to_string` of a list of integers. Writing into memory cannot
/// fail; the text is the compact JSON array, which reads back as the list.
#[verifier::external_body]
fn json_write_i64_list(v: &Vec<i64>) -> (res: Option<String>)
    ensures
        res is Some,
        res matches Some(t) ==> t@ == json_int_list_text(v@),
        res matches Some(t) ==> spec_json_i64_list(t@) == Some(v@),
{
    match serde_json::to_string(v) {
        Ok(t) => Some(t),
        Err(_) => None,
    }
}

/// The stage percentages used when a task names none or they do not read.
pub open spec fn default_gray_percentages() -> Seq<i64> {
    seq![5i64, 20i64, 50i64, 100i64]
}

pub open spec fn default_gray_percentages_text() -> Seq<char> {
    "[5,20,50,100]"@
}

/// The stored text of a new task's stage percentages: the given list, or the
/// default one, written as JSON.
pub fn gray_percentages_text(gray_percentages: &Option<Vec<i64>>) -> (text: String)
    ensures
        gray_percentages matches Some(v) ==> text@ == json_int_list_text(v@),
        gray_percentages matches Some(v) ==> spec_json_i64_list(text@) == Some(v@),
        gray_percentages is None ==> text@ == default_gray_percentages_text(),
        gray_percentages is None ==> spec_json_i64_list(text@) == Some(default_gray_percentages()),
{
    let default_list = vec![5i64, 20i64, 50i64, 100i64];
    assert(default_list@ =~= default_gray_percentages());
    let list = match gray_percentages {
        Some(v) => v,
        None => &default_list,
    };
    proof {
        lemma_default_text();
    }
    match json_write_i64_list(list) {
        Some(t) => t,
        None => "[5,20,50,100]".to_owned(),
    }
}

/// The default percentages are written as `[5,20,50,100]`.
proof fn lemma_default_text()
    ensures
        json_int_list_text(default_gray_percentages()) == default_gray_percentages_text(),
{
    reveal_strlit("[5,20,50,100]");
    let d = default_gray_percentages();
    reveal_with_fuel(dec_nat, 3);
    assert(dec_int(5) =~= seq!['5']);
    assert(dec_int(20) =~= seq!['2', '0']);
    assert(dec_int(50) =~= seq!['5', '0']);
    assert(dec_nat(10) =~= seq!['1', '0']);
    assert(dec_int(100) =~= seq!['1', '0', '0']);
    assert(d.drop_last().drop_last().drop_last() =~= seq![5i64]);
    assert(d.drop_last().drop_last() =~= seq![5i64, 20i64]);
    assert(d.drop_last() =~= seq![5i64, 20i64, 50i64]);
    assert(json_items(seq![5i64]) =~= seq!['5']);
    assert(json_items(seq![5i64, 20i64]) =~= seq!['5', ',', '2', '0']);
    assert(json_items(seq![5i64, 20i64, 50i64]) =~= seq!['5', ',', '2', '0', ',', '5', '0']);
    assert(json_items(d) =~= seq!['5', ',', '2', '0', ',', '5', '0', ',', '1', '0', '0']);
    assert(json_int_list_text(d) =~= default_gray_percentages_text());
}

/// `HH:MM` read as hours and minutes: exactly one `:`, with an unsigned
/// 32-bit number on each side.
pub open spec fn spec_parse_hm(s: Seq<char>) -> Option<(nat, nat)> {
    if count_char(s, ':') != 1 {
        None
    } else {
        match (
            parse_unsigned(split_before(s, ':'), 0xffff_ffffnat),
            parse_unsigned(split_after(s, ':'), 0xffff_ffffnat),
        ) {
            (Some(h), Some(m)) => Some((h, m)),
            _ => None,
        }
    }
}

pub open spec fn minutes_of(hm: (nat, nat)) -> nat {
    hm.0 * 60 + hm.1
}

/// An upgrade task as stored. The failure-rate threshold, a floating-point
/// number, is kept beside it by the server and is not part of this type.
#[derive(Debug)]
pub struct UpgradeTask {
    pub id: i64,
    pub task_name: String,
    pub firmware_id: i64,
    pub device_type: String,
    pub gray_stage: i64,
    pub gray_percentages: String,
    pub min_battery_level: Option<i64>,
    pub require_wifi: bool,
    pub time_window_start: Option<String>,
    pub time_window_end: Option<String>,
    pub status: String,
    pub auto_paused: bool,
    pub created_at: i64,
    pub updated_at: i64,
}

/// What advancing a task's gray stage does.
#[derive(Clone, Copy, PartialEq, Eq, Debug)]
pub enum StageStep {
    /// There is no further stage: the task is complete.
    Complete,
    /// The task moves to `next_stage`, which reaches `percentage` percent of devices.
    Advance { next_stage: i64, percentage: i64 },
}

impl UpgradeTask {
    /// The stage percentages: the stored JSON list, or `[5, 20, 50, 100]` when
    /// it does not read.
    pub open spec fn spec_gray_percentages(&self) -> Seq<i64> {
        match spec_json_i64_list(self.gray_percentages@) {
            Some(l) => l,
            None => default_gray_percentages(),
        }
    }

    /// The percentage of the current stage; 100 past the last stage.
    pub open spec fn spec_current_percentage(&self) -> i64 {
        let p = self.spec_gray_percentages();
        if 0 <= self.gray_stage < p.len() {
            p[self.gray_stage as int]
        } else {
            100
        }
    }

    /// Where advancing from the current stage leads.
    pub open spec fn spec_stage_step(&self) -> StageStep {
        let p = self.spec_gray_percentages();
        if 0 <= self.gray_stage < i64::MAX && self.gray_stage + 1 < p.len() {
            StageStep::Advance {
                next_stage: (self.gray_stage + 1) as i64,
                percentage: p[self.gray_stage + 1],
            }
        } else {
            StageStep::Complete
        }
    }

    /// The window `(start, end)` in minutes of the day, when both ends are set and read.
    pub open spec fn spec_window(&self) -> Option<(nat, nat)> {
        match (self.time_window_start, self.time_window_end) {
            (Some(s), Some(e)) => match (spec_parse_hm(s@), spec_parse_hm(e@)) {
                (Some(a), Some(b)) => Some((minutes_of(a), minutes_of(b))),
                _ => None,
            },
            _ => None,
        }
    }

    /// Whether the window's ends fit in 32 bits when counted in minutes (the
    /// window check computes them in 32-bit arithmetic).
    pub open spec fn spec_window_in_range(&self) -> bool {
        match self.spec_window() {
            Some((a, b)) => a <= 0xffff_ffff && b <= 0xffff_ffff,
            None => true,
        }
    }

    /// Whether `now` (minutes of the day) lies in the window. A window that
    /// ends before it starts wraps around midnight; a task without a readable
    /// window is always open.
    pub open spec fn spec_window_open(&self, now: nat) -> bool {
        match self.spec_window() {
            Some((a, b)) => if a <= b {
                a <= now && now <= b
            } else {
                now >= a || now <= b
            },
            None => true,
        }
    }

    pub fn get_gray_percentages(&self) -> (p: Vec<i64>)
        ensures
            p@ == self.spec_gray_percentages(),
    {
        match json_parse_i64_list(self.gray_percentages.as_str()) {
            Some(v) => v,
            None => {
                let v = vec![5i64, 20i64, 50i64, 100i64];
                assert(v@ =~= default_gray_percentages());
                v
            },
        }
    }

    pub fn get_current_gray_percentage(&self) -> (pct: i64)
        ensures
            pct == self.spec_current_percentage(),
    {
        let pcts = self.get_gray_percentages();
        if self.gray_stage >= 0 && (self.gray_stage as u64) < (pcts.len() as u64) {
            pcts[self.gray_stage as usize]
        } else {
            100
        }
    }

    /// Where advancing the stage leads. The stage `-1` is left out: the
    /// stage counter, read as an unsigned index, would overflow.
    pub fn stage_step(&self) -> (step: StageStep)
        requires
            self.gray_stage != -1,
        ensures
            step == self.spec_stage_step(),
    {
        let pcts = self.get_gray_percentages();
        if self.gray_stage >= 0 && self.gray_stage < i64::MAX && ((self.gray_stage + 1) as u64) < (
        pcts.len() as u64) {
            let next = self.gray_stage + 1;
            StageStep::Advance { next_stage: next, percentage: pcts[next as usize] }
        } else {
            StageStep::Complete
        }
    }

    /// Whether the window's ends fit in 32-bit minute counts.
    pub fn time_window_in_range(&self) -> (ok: bool)
        ensures
            ok == self.spec_window_in_range(),
    {
        match self.window_minutes_wide() {
            Some((a, b)) => a <= 0xffff_ffffu64 && b <= 0xffff_ffffu64,
            None => true,
        }
    }

    /// The window ends in minutes, computed without overflow.
    fn window_minutes_wide(&self) -> (w: Option<(u64, u64)>)
        ensures
            match self.spec_window() {
                Some((a, b)) => w == Some((a as u64, b as u64)),
                None => w is None,
            },
    {
        match (&self.time_window_start, &self.time_window_end) {
            (Some(s), Some(e)) => match (parse_hm(s.as_str()), parse_hm(e.as_str())) {
                (Some((sh, sm)), Some((eh, em))) => {
                    assert(sh as u64 * 60 <= 0xffff_ffffu64 * 60) by (nonlinear_arith)
                        requires sh <= 0xffff_ffffu32;
                    assert(eh as u64 * 60 <= 0xffff_ffffu64 * 60) by (nonlinear_arith)
                        requires eh <= 0xffff_ffffu32;
                    Some((sh as u64 * 60 + sm as u64, eh as u64 * 60 + em as u64))
                },
                _ => None,
            },
            _ => None,
        }
    }

    /// Whether the task's window is open at `now_minutes` minutes of the day.
    pub fn is_time_window_valid_at(&self, now_minutes: u32) -> (open: bool)
        requires
            self.spec_window_in_range(),
        ensures
            open == self.spec_window_open(now_minutes as nat),
    {
        match self.window_minutes_wide() {
            Some((start_minutes, end_minutes)) => {
                let now = now_minutes as u64;
                if start_minutes <= end_minutes {
                    now >= start_minutes && now <= end_minutes
                } else {
                    now >= start_minutes || now <= end_minutes
                }
            },
            None => true,
        }
    }

    /// Whether the task's window is open now (UTC); nothing when the system
    /// clock cannot be read.
    pub fn is_time_window_valid(&self) -> (open: Option<bool>)
        requires
            self.spec_window_in_range(),
        ensures
            open matches Some(o) ==> exists|now: nat| now < 1440 && o == #[trigger] self.spec_window_open(now),
    {
        match minutes_of_day_now() {
            Some(now) => Some(self.is_time_window_valid_at(now)),
            None => None,
        }
    }
}

/// The minute of the UTC day that `secs` seconds after the Unix epoch falls in.
pub fn minute_of_day(secs: u64) -> (m: u32)
    ensures
        m == (secs % 86400) / 60,
        m < 1440,
{
    ((secs % 86400) / 60) as u32
}

/// The current time of day (UTC) in minutes since midnight; nothing when the
/// system clock reads earlier than the Unix epoch.
pub fn minutes_of_day_now() -> (m: Option<u32>)
    ensures
        m matches Some(x) ==> x < 1440,
{
    match unix_time_secs() {
        Some(secs) => Some(minute_of_day(secs)),
        None => None,
    }
}

/// Reads `HH:MM`.
pub fn parse_hm(s: &str) -> (res: Option<(u32, u32)>)
    ensures
        match spec_parse_hm(s@) {
            Some((h, m)) => res == Some((h as u32, m as u32)),
            None => res is None,
        },
{
    let v = str_chars(s);
    let n = v.len();
    let (count, colon) = scan_char(&v, 0, n, ':');
    assert(v@.subrange(0, n as int) =~= v@);
    if count != 1 {
        return None;
    }
    proof {
        lemma_first_index_of(v@, ':', colon as int);
        assert(split_before(v@, ':') =~= v@.subrange(0, colon as int));
        assert(split_after(v@, ':') =~= v@.subrange(colon + 1, n as int));
    }
    let h = parse_unsigned_chars(&v, 0, colon, 0xffff_ffffu64);
    let m = parse_unsigned_chars(&v, colon + 1, n, 0xffff_ffffu64);
    match (h, m) {
        (Some(h), Some(m)) => Some((h as u32, m as u32)),
        _ => None,
    }
}

/// The percentages a task was created with are the ones it reads back.
pub proof fn lemma_created_percentages_read_back(task: UpgradeTask, v: Seq<i64>)
    requires
        spec_json_i64_list(task.gray_percentages@) == Some(v),
    ensures
        task.spec_gray_percentages() == v,
{
}

/// Advancing moves to the very next stage, which is a stage the task has, at
/// that stage's percentage; it completes the task exactly when the current
/// stage is the last one or lies outside the list.
pub proof fn lemma_stage_step_in_bounds(task: UpgradeTask)
    ensures
        task.spec_stage_step() matches StageStep::Advance { next_stage, percentage } ==> {
            &&& next_stage == task.gray_stage + 1
            &&& 0 < next_stage < task.spec_gray_percentages().len()
            &&& percentage == task.spec_gray_percentages()[next_stage as int]
        },
        task.spec_stage_step() is Complete <==> !(0 <= task.gray_stage < i64::MAX
            && task.gray_stage + 1 < task.spec_gray_percentages().len()),
{
}

/// A window that does not wrap is open exactly between its ends; one that
/// wraps is open outside the minutes strictly between its end and its start.
pub proof fn lemma_window_shape(task: UpgradeTask, now: nat)
    requires
        task.spec_window() matches Some((a, b)),
    ensures
        ({
            let (a, b) = task.spec_window()->Some_0;
            &&& a <= b ==> (task.spec_window_open(now) <==> a <= now <= b)
            &&& a > b ==> (!task.spec_window_open(now) <==> b < now < a)
        }),
{
}

} // verus!
