//! The exported call surface.
//!
//! These functions bind a host kernel to the per-core state. The kernel's
//! scheduling loop always operates on "this core": the caller passes the
//! core index its register binding resolves to, together with the area.
//! Empty-queue and empty-slot conditions are reported as the `NULL` task,
//! never as an error: they are normal outcomes, and no function here
//! returns a recoverable error value.

use vstd::prelude::*;

use crate::id::{null_id, TaskId};
use crate::percpu::{least_loaded, AreaView, PerCpuArea};
use crate::processor::CoreView;

verus! {

/// The task an observer of a current-task slot sees: the stored task, or
/// `NULL` while no switch has committed.
pub open spec fn observed_task(slot: Option<TaskId>) -> TaskId {
    match slot {
        Some(t) => t,
        None => null_id(),
    }
}

/// What one pick returns from a ready queue: the front task, or `NULL`
/// from an empty queue.
pub open spec fn picked_task(tasks: Seq<TaskId>) -> TaskId {
    if tasks.len() > 0 {
        tasks[0]
    } else {
        null_id()
    }
}

/// What one pick leaves in a ready queue: everything behind the front
/// task, or the empty queue it found.
pub open spec fn remaining_tasks(tasks: Seq<TaskId>) -> Seq<TaskId> {
    if tasks.len() > 0 {
        tasks.drop_first()
    } else {
        tasks
    }
}

/// The TaskId of core `cpu`'s running task, or `NULL` if none.
pub fn current_task(area: &PerCpuArea, cpu: usize) -> (r: TaskId)
    requires
        area@.wf(),
        area@.constructed(cpu as int),
    ensures
        r == observed_task(area@.record(cpu as int).current),
{
    match area.record_at(cpu).current_task() {
        Some(t) => t,
        None => TaskId::null(),
    }
}

/// Overwrites core `cpu`'s running-task slot with `task`.
pub fn set_current_task(area: &mut PerCpuArea, cpu: usize, task: TaskId)
    requires
        old(area)@.wf(),
        old(area)@.constructed(cpu as int),
    ensures
        final(area)@.wf(),
        final(area)@ == old(area)@.with_record(cpu as int, (CoreView {
            current: Some(task),
            ..old(area)@.record(cpu as int)
        })),
{
    area.set_current_task(cpu, task);
}

/// Pops and returns the next task from core `cpu`'s ready queue, or
/// `NULL` when the queue is empty. Never blocks, never retries.
pub fn pick_next_task(area: &mut PerCpuArea, cpu: usize) -> (r: TaskId)
    requires
        old(area)@.wf(),
        old(area)@.constructed(cpu as int),
    ensures
        final(area)@.wf(),
        r == picked_task(old(area)@.record(cpu as int).tasks),
        final(area)@ == old(area)@.with_record(cpu as int, (CoreView {
            tasks: remaining_tasks(old(area)@.record(cpu as int).tasks),
            ..old(area)@.record(cpu as int)
        })),
{
    let r = match area.pick_next_task(cpu) {
        Some(t) => t,
        None => TaskId::null(),
    };
    proof {
        if old(area)@.record(cpu as int).tasks.len() == 0 {
            assert(area@.cores =~= old(area)@.with_record(cpu as int, (CoreView {
                tasks: remaining_tasks(old(area)@.record(cpu as int).tasks),
                ..old(area)@.record(cpu as int)
            })).cores);
            assert(area@ =~= old(area)@.with_record(cpu as int, (CoreView {
                tasks: remaining_tasks(old(area)@.record(cpu as int).tasks),
                ..old(area)@.record(cpu as int)
            })));
        }
    }
    r
}

/// Re-enqueues a task core `cpu` just stopped running, onto its own
/// queue. The front hint is accepted but placement is always at the back:
/// a documented limitation, kept as stated rather than silently corrected.
pub fn put_prev_task(area: &mut PerCpuArea, cpu: usize, task: TaskId, front: bool)
    requires
        old(area)@.wf(),
        old(area)@.constructed(cpu as int),
    ensures
        final(area)@.wf(),
        final(area)@ == old(area)@.with_record(cpu as int, (CoreView {
            tasks: old(area)@.record(cpu as int).tasks.push(task),
            ..old(area)@.record(cpu as int)
        })),
{
    area.put_prev_task(cpu, task, front);
}

/// Enqueues `task` directly onto core `cpu`'s own queue. Tasks never
/// migrate: once resident on a core, a task stays enqueued there.
pub fn add_task(area: &mut PerCpuArea, cpu: usize, task: TaskId)
    requires
        old(area)@.wf(),
        old(area)@.constructed(cpu as int),
    ensures
        final(area)@.wf(),
        final(area)@ == old(area)@.with_record(cpu as int, (CoreView {
            tasks: old(area)@.record(cpu as int).tasks.push(task),
            ..old(area)@.record(cpu as int)
        })),
{
    area.add_task(cpu, task);
}

/// Places a brand-new task onto the least-loaded core's queue, ties
/// broken by the smallest core id: the sole load-balancing decision, made
/// once per task at creation.
pub fn first_add_task(area: &mut PerCpuArea, task: TaskId)
    requires
        old(area)@.wf(),
        old(area)@.all_constructed(),
    ensures
        final(area)@.wf(),
        final(area)@ == old(area)@.with_record(least_loaded(old(area)@.cores), (CoreView {
            tasks: old(area)@.record(least_loaded(old(area)@.cores)).tasks.push(task),
            ..old(area)@.record(least_loaded(old(area)@.cores))
        })),
{
    area.first_add_task(task);
}

/// The opaque policy-selector core `cpu` currently delegates to; zero
/// means "unset".
pub fn get_scheduler_handle(area: &PerCpuArea, cpu: usize) -> (r: usize)
    requires
        area@.wf(),
        area@.constructed(cpu as int),
    ensures
        r == area@.record(cpu as int).scheduler_ptr,
{
    area.record_at(cpu).get_scheduler_ptr()
}

/// Overwrites core `cpu`'s policy-selector handle.
pub fn set_scheduler_handle(area: &mut PerCpuArea, cpu: usize, handle: usize)
    requires
        old(area)@.wf(),
        old(area)@.constructed(cpu as int),
    ensures
        final(area)@.wf(),
        final(area)@ == old(area)@.with_record(cpu as int, (CoreView {
            scheduler_ptr: handle,
            ..old(area)@.record(cpu as int)
        })),
{
    area.set_scheduler_ptr(cpu, handle);
}

/// The tick at which core `cpu`'s timer should next fire.
pub fn get_timer_next_deadline(area: &PerCpuArea, cpu: usize) -> (r: u64)
    requires
        area@.wf(),
        area@.constructed(cpu as int),
    ensures
        r == area@.record(cpu as int).next_timer_deadline,
{
    area.record_at(cpu).get_timer_next_deadline()
}

/// Overwrites core `cpu`'s next timer deadline. No monotonicity is
/// enforced: a later write with a smaller tick simply wins.
pub fn set_timer_next_deadline(area: &mut PerCpuArea, cpu: usize, deadline: u64)
    requires
        old(area)@.wf(),
        old(area)@.constructed(cpu as int),
    ensures
        final(area)@.wf(),
        final(area)@ == old(area)@.with_record(cpu as int, (CoreView {
            next_timer_deadline: deadline,
            ..old(area)@.record(cpu as int)
        })),
{
    area.set_timer_next_deadline(cpu, deadline);
}

/// The calling core's fixed logical index.
pub fn this_cpu_id(area: &PerCpuArea, cpu: usize) -> (r: usize)
    requires
        area@.wf(),
        area@.constructed(cpu as int),
    ensures
        r == area@.record(cpu as int).cpu_id,
        r == cpu,
{
    area.record_at(cpu).cpu_id()
}

/// Whether the calling core is the boot core.
pub fn this_cpu_is_boot_core(area: &PerCpuArea, cpu: usize) -> (r: bool)
    requires
        area@.wf(),
        area@.constructed(cpu as int),
    ensures
        r == area@.record(cpu as int).is_boot_core,
{
    area.record_at(cpu).is_boot_core()
}

/// A ready queue after admitting the tasks of `ts`, in order, at the
/// back: the effect of one `add_task` per element of `ts`.
pub open spec fn enqueue_all(tasks: Seq<TaskId>, ts: Seq<TaskId>) -> Seq<TaskId>
    decreases ts.len(),
{
    if ts.len() == 0 {
        tasks
    } else {
        enqueue_all(tasks.push(ts[0]), ts.drop_first())
    }
}

proof fn lemma_enqueue_all_appends(tasks: Seq<TaskId>, ts: Seq<TaskId>)
    ensures
        enqueue_all(tasks, ts) == tasks + ts,
    decreases ts.len(),
{
    if ts.len() == 0 {
        assert(tasks + ts =~= tasks);
    } else {
        lemma_enqueue_all_appends(tasks.push(ts[0]), ts.drop_first());
        assert(tasks.push(ts[0]) + ts.drop_first() =~= tasks + ts);
    }
}

/// The FIFO law of one core's queue, with no concurrent mutation: after
/// enqueueing the tasks of `ts` in order onto an empty queue, the picks
/// return exactly the tasks of `ts`, in order, each exactly once — the
/// queue left after `k` picks is `ts` with its first `k` tasks gone — and
/// the pick after the last task returns `NULL`.
pub proof fn lemma_fifo_round_trip(ts: Seq<TaskId>)
    ensures
        enqueue_all(Seq::<TaskId>::empty(), ts) == ts,
        forall|k: int| 0 <= k < ts.len() ==> picked_task(#[trigger] ts.skip(k)) == ts[k],
        forall|k: int| 0 <= k < ts.len() ==> remaining_tasks(#[trigger] ts.skip(k)) == ts.skip(
            k + 1,
        ),
        picked_task(ts.skip(ts.len() as int)) == null_id(),
{
    lemma_enqueue_all_appends(Seq::<TaskId>::empty(), ts);
    assert(Seq::<TaskId>::empty() + ts =~= ts);
    assert forall|k: int| 0 <= k < ts.len() implies picked_task(#[trigger] ts.skip(k)) == ts[k] by {
        assert(ts.skip(k)[0] == ts[k]);
    }
    assert forall|k: int| 0 <= k < ts.len() implies remaining_tasks(#[trigger] ts.skip(k))
        == ts.skip(k + 1) by {
        assert(ts.skip(k).drop_first() =~= ts.skip(k + 1));
    }
    assert(ts.skip(ts.len() as int).len() == 0);
}

/// The read-back law of the current-task slot: overwriting core `cpu`'s
/// running-task slot with `t` and then observing it yields exactly `t`,
/// for every task handle including `NULL`.
pub proof fn lemma_set_then_get_current(v: AreaView, cpu: int, t: TaskId)
    requires
        v.constructed(cpu),
    ensures
        observed_task(
            v.with_record(cpu, (CoreView { current: Some(t), ..v.record(cpu) })).record(
                cpu,
            ).current,
        ) == t,
{
}

/// The queue-isolation law: enqueueing a task on core `i` leaves core
/// `j`'s record untouched for every other core `j`, so a pick on core `j`
/// returns exactly what it would have returned without that enqueue — a
/// task enqueued on core `i` is never returned by a pick on core `j`.
pub proof fn lemma_queue_isolation(v: AreaView, i: int, j: int, t: TaskId)
    requires
        v.constructed(i),
        v.constructed(j),
        i != j,
    ensures
        v.with_record(i, (CoreView { tasks: v.record(i).tasks.push(t), ..v.record(i) })).record(j)
            == v.record(j),
        picked_task(
            v.with_record(i, (CoreView { tasks: v.record(i).tasks.push(t), ..v.record(i) })).record(
                j,
            ).tasks,
        ) == picked_task(v.record(j).tasks),
        remaining_tasks(
            v.with_record(i, (CoreView { tasks: v.record(i).tasks.push(t), ..v.record(i) })).record(
                j,
            ).tasks,
        ) == remaining_tasks(v.record(j).tasks),
{
}

} // verus!
