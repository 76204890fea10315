//! Task admission, selection and placement through the exported surface.

use cops::api;
use cops::id::TaskId;
use cops::percpu::PerCpuArea;

fn two_core_area() -> PerCpuArea {
    // base 4096 is aligned to 128 = 2^bit_width(64), both slot offsets fit
    // under that mask.
    let mut area = PerCpuArea::bring_up_primary(0, 2, 4096, 64);
    area.bring_up_secondary(1);
    area
}

fn one_core_area() -> PerCpuArea {
    PerCpuArea::bring_up_primary(0, 1, 4096, 64)
}

#[test]
fn fifo_order_on_one_core() {
    let mut area = one_core_area();
    let a = TaskId::new(1);
    let b = TaskId::new(2);
    let c = TaskId::new(3);
    api::add_task(&mut area, 0, a);
    api::add_task(&mut area, 0, b);
    api::add_task(&mut area, 0, c);
    assert_eq!(api::pick_next_task(&mut area, 0), a);
    assert_eq!(api::pick_next_task(&mut area, 0), b);
    assert_eq!(api::pick_next_task(&mut area, 0), c);
    assert!(api::pick_next_task(&mut area, 0).is_null());
}

#[test]
fn single_task_then_empty() {
    // Core count 1: add one task, the first pick returns it, the second
    // returns NULL.
    let mut area = one_core_area();
    let a = TaskId::new(77);
    api::add_task(&mut area, 0, a);
    assert_eq!(api::pick_next_task(&mut area, 0), a);
    assert!(api::pick_next_task(&mut area, 0).is_null());
}

#[test]
fn set_then_get_current_task() {
    let mut area = one_core_area();
    assert!(api::current_task(&area, 0).is_null());
    let t = TaskId::new(42);
    api::set_current_task(&mut area, 0, t);
    assert_eq!(api::current_task(&area, 0), t);
}

#[test]
fn set_then_get_current_task_null() {
    let mut area = one_core_area();
    api::set_current_task(&mut area, 0, TaskId::new(9));
    api::set_current_task(&mut area, 0, TaskId::null());
    assert!(api::current_task(&area, 0).is_null());
}

#[test]
fn queues_are_isolated_between_cores() {
    let mut area = two_core_area();
    let t = TaskId::new(5);
    api::add_task(&mut area, 0, t);
    // The task enqueued on core 0 is never returned on core 1.
    assert!(api::pick_next_task(&mut area, 1).is_null());
    assert_eq!(api::pick_next_task(&mut area, 0), t);
}

#[test]
fn first_add_task_places_least_loaded() {
    // Both queues empty: task 1 goes to core 0 (tie broken by ascending
    // index), task 2 to core 1, task 3 back to core 0 (tie again).
    let mut area = two_core_area();
    let t1 = TaskId::new(1);
    let t2 = TaskId::new(2);
    let t3 = TaskId::new(3);
    api::first_add_task(&mut area, t1);
    api::first_add_task(&mut area, t2);
    api::first_add_task(&mut area, t3);
    assert_eq!(api::pick_next_task(&mut area, 0), t1);
    assert_eq!(api::pick_next_task(&mut area, 1), t2);
    assert_eq!(api::pick_next_task(&mut area, 0), t3);
    assert!(api::pick_next_task(&mut area, 0).is_null());
    assert!(api::pick_next_task(&mut area, 1).is_null());
}

#[test]
fn first_add_task_skips_longer_queue() {
    let mut area = two_core_area();
    api::add_task(&mut area, 0, TaskId::new(10));
    api::add_task(&mut area, 0, TaskId::new(11));
    api::add_task(&mut area, 1, TaskId::new(20));
    // Core 1 has the shorter queue, so the new task lands there.
    let t = TaskId::new(30);
    api::first_add_task(&mut area, t);
    assert_eq!(api::pick_next_task(&mut area, 1), TaskId::new(20));
    assert_eq!(api::pick_next_task(&mut area, 1), t);
}

#[test]
fn put_prev_task_front_hint_still_goes_to_back() {
    // The front hint is accepted but placement stays at the back: a
    // documented limitation of the protocol.
    let mut area = one_core_area();
    let first = TaskId::new(1);
    let prev = TaskId::new(2);
    api::add_task(&mut area, 0, first);
    api::put_prev_task(&mut area, 0, prev, true);
    assert_eq!(api::pick_next_task(&mut area, 0), first);
    assert_eq!(api::pick_next_task(&mut area, 0), prev);
}

#[test]
fn null_task_id_can_be_queued() {
    // TaskId values are owned by the kernel; the queue transports even the
    // sentinel faithfully.
    let mut area = one_core_area();
    api::add_task(&mut area, 0, TaskId::null());
    assert!(api::pick_next_task(&mut area, 0).is_null());
}
