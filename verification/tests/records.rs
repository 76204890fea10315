//! The per-core record's fields: task handles, stacks, scheduler handle,
//! timer deadline.

use cops::id::TaskId;
use cops::percpu::PerCpuArea;
use cops::processor::Processor;
use cops::ready_queue::ReadyQueue;
use cops::stack_pool::{RunningStack, StackPool};

fn booted_area() -> PerCpuArea {
    PerCpuArea::bring_up_primary(0, 1, 4096, 64)
}

#[test]
fn task_id_wraps_raw_values() {
    let t = TaskId::new(7);
    assert_eq!(t.raw(), 7);
    assert!(!t.is_null());
    assert!(TaskId::null().is_null());
    assert_eq!(TaskId::null().raw(), 0);
    assert_eq!(TaskId::new(7), t);
    assert_ne!(TaskId::new(8), t);
    // Handles are totally ordered.
    assert!(TaskId::new(1) < TaskId::new(2));
}

#[test]
fn ready_queue_is_fifo() {
    let mut q = ReadyQueue::new();
    assert_eq!(q.len(), 0);
    assert_eq!(q.pop(), None);
    q.push(TaskId::new(1));
    q.push(TaskId::new(2));
    assert_eq!(q.len(), 2);
    assert_eq!(q.pop(), Some(TaskId::new(1)));
    assert_eq!(q.pop(), Some(TaskId::new(2)));
    assert_eq!(q.pop(), None);
}

#[test]
fn stack_pool_holds_one_stack() {
    let mut pool = StackPool::new();
    pool.init(0x8000);
    assert_eq!(pool.current_stack().base, 0x8000);
    let picked = pool.pick_current_stack();
    assert_eq!(picked.base, 0x8000);
    pool.set_current_stack(RunningStack { base: 0x9000 });
    assert_eq!(pool.current_stack().base, 0x9000);
}

#[test]
fn fresh_record_fields() {
    let p = Processor::new(3, false);
    assert_eq!(p.cpu_id(), 3);
    assert!(!p.is_boot_core());
    assert_eq!(p.current_task(), None);
    assert_eq!(p.get_scheduler_ptr(), 0);
    assert_eq!(p.get_timer_next_deadline(), 0);
}

#[test]
fn record_scheduler_handle_round_trip() {
    let mut p = Processor::new(0, true);
    p.set_scheduler_ptr(0xdead);
    assert_eq!(p.get_scheduler_ptr(), 0xdead);
}

#[test]
fn area_stack_binding_round_trip() {
    let mut area = booted_area();
    area.init_running_stack(0, 0x8000);
    assert_eq!(area.record_at(0).current_stack().base, 0x8000);
    let boot_stack = area.pick_current_stack(0);
    assert_eq!(boot_stack.base, 0x8000);
    area.set_current_stack(0, RunningStack { base: 0xa000 });
    assert_eq!(area.record_at(0).current_stack().base, 0xa000);
}

#[test]
fn scheduler_handle_defaults_to_unset() {
    let mut area = booted_area();
    assert_eq!(cops::api::get_scheduler_handle(&area, 0), 0);
    cops::api::set_scheduler_handle(&mut area, 0, 0x1234);
    assert_eq!(cops::api::get_scheduler_handle(&area, 0), 0x1234);
}

#[test]
fn timer_deadline_overwrites_without_monotonicity() {
    let mut area = booted_area();
    assert_eq!(cops::api::get_timer_next_deadline(&area, 0), 0);
    cops::api::set_timer_next_deadline(&mut area, 0, 100);
    assert_eq!(cops::api::get_timer_next_deadline(&area, 0), 100);
    // A later write with a smaller tick simply wins.
    cops::api::set_timer_next_deadline(&mut area, 0, 50);
    assert_eq!(cops::api::get_timer_next_deadline(&area, 0), 50);
}
