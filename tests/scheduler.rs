use i3bar_core::scheduler::{Scheduler, UpdatePolicy};

#[test]
fn registered_blocks_run_at_once_in_order() {
    let mut s = Scheduler::new();
    assert_eq!(s.register(10), 0);
    assert_eq!(s.register(20), 1);
    assert_eq!(s.len(), 2);
    assert_eq!(s.next_dispatch(0), Some(0));
    assert_eq!(s.next_dispatch(0), Some(1));
    assert_eq!(s.next_dispatch(0), None);
}

#[test]
fn no_second_cycle_while_one_runs() {
    let mut s = Scheduler::new();
    s.register(10);
    assert_eq!(s.next_dispatch(0), Some(0));
    s.request_wake(0);
    assert_eq!(s.next_dispatch(100), None);
    s.complete(0, Some(UpdatePolicy::After(50)), 5);
    assert_eq!(s.next_dispatch(6), Some(0));
    assert_eq!(s.next_dispatch(1000), None);
}

#[test]
fn timer_wakes_after_delay() {
    let mut s = Scheduler::new();
    s.register(10);
    s.next_dispatch(0);
    s.complete(0, Some(UpdatePolicy::After(30)), 100);
    assert_eq!(s.next_deadline(), Some(130));
    assert_eq!(s.next_dispatch(129), None);
    assert_eq!(s.next_dispatch(130), Some(0));
}

#[test]
fn dormant_block_sleeps_until_requested() {
    let mut s = Scheduler::new();
    s.register(10);
    s.next_dispatch(0);
    s.complete(0, Some(UpdatePolicy::Dormant), 0);
    assert_eq!(s.next_deadline(), None);
    assert_eq!(s.next_dispatch(u64::MAX), None);
    s.request_wake(0);
    assert_eq!(s.next_dispatch(0), Some(0));
}

#[test]
fn failed_cycle_retries_after_interval() {
    let mut s = Scheduler::new();
    s.register(60);
    s.next_dispatch(0);
    s.complete(0, None, 1000);
    assert_eq!(s.next_deadline(), Some(1060));
}

#[test]
fn stale_completion_and_unknown_wake_change_nothing() {
    let mut s = Scheduler::new();
    s.register(60);
    s.next_dispatch(0);
    s.complete(0, Some(UpdatePolicy::After(5)), 0);
    s.complete(0, Some(UpdatePolicy::Dormant), 0);
    assert_eq!(s.next_deadline(), Some(5));
    s.request_wake(7);
    assert_eq!(s.next_dispatch(4), None);
}

#[test]
fn wake_time_saturates() {
    let mut s = Scheduler::new();
    s.register(1);
    s.next_dispatch(0);
    s.complete(0, Some(UpdatePolicy::After(u64::MAX)), 10);
    assert_eq!(s.next_deadline(), Some(u64::MAX));
}

#[test]
fn earliest_deadline_wins() {
    let mut s = Scheduler::new();
    s.register(1);
    s.register(1);
    s.next_dispatch(0);
    s.next_dispatch(0);
    s.complete(1, Some(UpdatePolicy::After(9)), 0);
    s.complete(0, Some(UpdatePolicy::After(4)), 0);
    assert_eq!(s.next_deadline(), Some(4));
}
