//! The failure monitor: which running upgrade tasks it pauses because too
//! many of their devices failed.
use vstd::prelude::*;

use crate::text::str_eq;

verus! {

/// What the monitor knows of one active task in a round: its status, whether
/// it was already paused by the monitor, and whether its failure rate is above
/// the task's threshold.
#[derive(Debug)]
pub struct MonitoredTask {
    pub task_id: i64,
    pub status: String,
    pub auto_paused: bool,
    pub over_threshold: bool,
}

/// What one round of the monitor does: the tasks to pause, in order, and the
/// values of the gauges of active and auto-paused tasks afterwards.
#[derive(Debug)]
pub struct AutoPausePlan {
    pub pause: Vec<i64>,
    pub auto_paused_count: i64,
    pub active_tasks: i64,
}

/// A task is paused when it is running, not yet paused by the monitor, and
/// failing too often.
pub open spec fn spec_should_pause(t: MonitoredTask) -> bool {
    t.status@ == "running"@ && !t.auto_paused && t.over_threshold
}

/// Ids, in order, of the first `n` tasks that are paused.
pub open spec fn paused_ids(tasks: Seq<MonitoredTask>, n: nat) -> Seq<i64>
    decreases n,
{
    if n == 0 {
        Seq::empty()
    } else if spec_should_pause(tasks[n - 1]) {
        paused_ids(tasks, (n - 1) as nat).push(tasks[n - 1].task_id)
    } else {
        paused_ids(tasks, (n - 1) as nat)
    }
}

/// Number of the first `n` tasks that were already paused by the monitor.
pub open spec fn already_paused(tasks: Seq<MonitoredTask>, n: nat) -> nat
    decreases n,
{
    if n == 0 {
        0
    } else {
        already_paused(tasks, (n - 1) as nat) + if tasks[n - 1].auto_paused {
            1nat
        } else {
            0nat
        }
    }
}

proof fn lemma_counts_bounded(tasks: Seq<MonitoredTask>, n: nat)
    requires
        n <= tasks.len(),
    ensures
        already_paused(tasks, n) + paused_ids(tasks, n).len() <= n,
    decreases n,
{
    if n > 0 {
        lemma_counts_bounded(tasks, (n - 1) as nat);
    }
}

/// Runs the failure monitor over the active tasks.
pub struct FailureMonitor;

impl FailureMonitor {
    pub fn new() -> (m: Self) {
        FailureMonitor
    }

    /// One round: which tasks to pause, how many tasks are then auto-paused,
    /// and how many are active.
    pub fn plan_auto_pause(&self, tasks: &Vec<MonitoredTask>) -> (plan: AutoPausePlan)
        requires
            tasks@.len() <= i64::MAX,
        ensures
            plan.pause@ == paused_ids(tasks@, tasks@.len()),
            plan.auto_paused_count == already_paused(tasks@, tasks@.len()) + plan.pause@.len(),
            plan.active_tasks == tasks@.len(),
    {
        let mut pause: Vec<i64> = Vec::new();
        let mut auto_paused_count: i64 = 0;
        let mut i: usize = 0;
        while i < tasks.len()
            invariant
                i <= tasks@.len() <= i64::MAX,
                pause@ == paused_ids(tasks@, i as nat),
                auto_paused_count == already_paused(tasks@, i as nat) + pause@.len(),
            decreases tasks@.len() - i,
        {
            proof {
                lemma_counts_bounded(tasks@, i as nat);
                lemma_counts_bounded(tasks@, (i + 1) as nat);
            }
            let t = &tasks[i];
            if t.auto_paused {
                auto_paused_count = auto_paused_count + 1;
            }
            if str_eq(t.status.as_str(), "running") && !t.auto_paused && t.over_threshold {
                pause.push(t.task_id);
                auto_paused_count = auto_paused_count + 1;
            }
            i = i + 1;
        }
        AutoPausePlan { pause, auto_paused_count, active_tasks: tasks.len() as i64 }
    }
}

/// Whether `id` is the id of one of the first `n` tasks, which qualifies for pausing.
pub open spec fn qualifying_id(tasks: Seq<MonitoredTask>, n: nat, id: i64) -> bool {
    exists|i: int| 0 <= i < n && #[trigger] tasks[i].task_id == id && spec_should_pause(tasks[i])
}

/// Every task a round pauses is one of the round's tasks that was running,
/// not yet paused by the monitor, and failing too often.
pub proof fn lemma_paused_tasks_qualify(tasks: Seq<MonitoredTask>, n: nat)
    requires
        n <= tasks.len(),
    ensures
        forall|k: int|
            0 <= k < paused_ids(tasks, n).len() ==> qualifying_id(
                tasks,
                n,
                #[trigger] paused_ids(tasks, n)[k],
            ),
    decreases n,
{
    if n > 0 {
        lemma_paused_tasks_qualify(tasks, (n - 1) as nat);
        let before = paused_ids(tasks, (n - 1) as nat);
        assert forall|k: int| 0 <= k < paused_ids(tasks, n).len() implies qualifying_id(
            tasks,
            n,
            #[trigger] paused_ids(tasks, n)[k],
        ) by {
            if k < before.len() {
                assert(paused_ids(tasks, n)[k] == before[k]);
                assert(qualifying_id(tasks, (n - 1) as nat, before[k]));
                let i = choose|i: int|
                    0 <= i < n - 1 && #[trigger] tasks[i].task_id == before[k] && spec_should_pause(
                        tasks[i],
                    );
                assert(tasks[i].task_id == paused_ids(tasks, n)[k]);
            } else {
                assert(tasks[n - 1].task_id == paused_ids(tasks, n)[k]);
            }
        }
    }
}

/// The auto-paused gauge never exceeds the number of active tasks.
pub proof fn lemma_auto_paused_within_active(tasks: Seq<MonitoredTask>)
    ensures
        already_paused(tasks, tasks.len()) + paused_ids(tasks, tasks.len()).len() <= tasks.len(),
{
    lemma_counts_bounded(tasks, tasks.len());
}


proof fn lemma_should_pause_listed(tasks: Seq<MonitoredTask>, n: nat, i: int)
    requires
        0 <= i < n <= tasks.len(),
        spec_should_pause(tasks[i]),
    ensures
        paused_ids(tasks, n).contains(tasks[i].task_id),
    decreases n,
{
    if i == n - 1 {
        assert(paused_ids(tasks, n).last() == tasks[i].task_id);
    } else {
        lemma_should_pause_listed(tasks, (n - 1) as nat, i);
        let before = paused_ids(tasks, (n - 1) as nat);
        let k = choose|k: int| 0 <= k < before.len() && before[k] == tasks[i].task_id;
        assert(paused_ids(tasks, n)[k] == tasks[i].task_id);
    }
}

proof fn lemma_none_paused(tasks: Seq<MonitoredTask>, n: nat)
    requires
        n <= tasks.len(),
        forall|i: int| 0 <= i < n ==> !spec_should_pause(#[trigger] tasks[i]),
    ensures
        paused_ids(tasks, n).len() == 0,
    decreases n,
{
    if n > 0 {
        lemma_none_paused(tasks, (n - 1) as nat);
        assert(!spec_should_pause(tasks[n - 1]));
    }
}

/// A second round pauses nothing: when the tasks of a round come back with
/// every task whose id the round paused marked as paused by the monitor, and
/// every other task unchanged in status, mark and failure rate, the next
/// round pauses no task.
pub proof fn lemma_second_round_pauses_nothing(tasks: Seq<MonitoredTask>, next: Seq<MonitoredTask>)
    requires
        next.len() == tasks.len(),
        forall|i: int|
            0 <= i < tasks.len() && paused_ids(tasks, tasks.len()).contains(#[trigger] tasks[i].task_id)
                ==> next[i].auto_paused,
        forall|i: int|
            0 <= i < tasks.len() && !paused_ids(tasks, tasks.len()).contains(#[trigger] tasks[i].task_id)
                ==> next[i].status@ == tasks[i].status@ && next[i].auto_paused == tasks[i].auto_paused
                && next[i].over_threshold == tasks[i].over_threshold,
    ensures
        paused_ids(next, next.len()).len() == 0,
{
    assert forall|i: int| 0 <= i < next.len() implies !spec_should_pause(#[trigger] next[i]) by {
        let id = tasks[i].task_id;
        if paused_ids(tasks, tasks.len()).contains(id) {
            assert(next[i].auto_paused);
        } else {
            if spec_should_pause(tasks[i]) {
                lemma_should_pause_listed(tasks, tasks.len(), i);
            }
        }
    }
    lemma_none_paused(next, next.len());
}

} // verus!
