use chatguard::{ChatId, MessageId, MessageRef};
use chatguard::scheduler::DeletionScheduler;

fn target(message: i32) -> MessageRef {
    MessageRef { chat: ChatId(-100), message: MessageId(message) }
}

#[test]
fn pops_tasks_in_firing_order() {
    let mut s = DeletionScheduler::new();
    s.schedule(target(1), 0, 30_000);
    s.schedule(target(2), 0, 10_000);
    s.schedule(target(3), 0, 20_000);
    assert_eq!(s.len(), 3);
    let a = s.pop_due(60_000).unwrap();
    let b = s.pop_due(60_000).unwrap();
    let c = s.pop_due(60_000).unwrap();
    assert_eq!(a.target, target(2));
    assert_eq!(b.target, target(3));
    assert_eq!(c.target, target(1));
    assert!(s.pop_due(60_000).is_none());
}

#[test]
fn nothing_due_before_its_delay_elapses() {
    let mut s = DeletionScheduler::new();
    s.schedule(target(5), 1_000, 30_000);
    assert!(s.pop_due(30_999).is_none());
    let t = s.pop_due(31_000).unwrap();
    assert_eq!(t.target, target(5));
    assert_eq!(t.fire_at_ms, 31_000);
}

#[test]
fn next_fire_reports_earliest_task() {
    let mut s = DeletionScheduler::new();
    assert_eq!(s.next_fire_ms(), None);
    s.schedule(target(1), 0, 500);
    s.schedule(target(2), 0, 100);
    assert_eq!(s.next_fire_ms(), Some(100));
}

#[test]
fn equal_fire_times_all_come_out() {
    let mut s = DeletionScheduler::new();
    s.schedule(target(1), 0, 100);
    s.schedule(target(2), 0, 100);
    let a = s.pop_due(100).unwrap();
    let b = s.pop_due(100).unwrap();
    assert_eq!(a.fire_at_ms, 100);
    assert_eq!(b.fire_at_ms, 100);
    let mut got = vec![a.target.message.0, b.target.message.0];
    got.sort();
    assert_eq!(got, vec![1, 2]);
    assert_eq!(s.len(), 0);
}
