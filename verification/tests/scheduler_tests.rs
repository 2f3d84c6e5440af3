use avr_firmware::scheduler::{Scheduler, Task};
use avr_firmware::scheduler::delay;

#[test]
fn task_new_background_starts_ready() {
    let t = Task::new(7u32, 0);
    assert_eq!(t.period, 0);
    assert_eq!(t.next_run, 0);
    assert!(t.ready);
}

#[test]
fn task_new_periodic_starts_not_ready() {
    let t = Task::new(7u32, 5);
    assert_eq!(t.period, 5);
    assert_eq!(t.next_run, 5);
    assert!(!t.ready);
}

#[test]
fn periodic_task_fires_on_deadline() {
    let mut s: Scheduler<u32> = Scheduler::new();
    s.task_add(1, 3);
    s.tick();
    s.tick();
    assert_eq!(s.scheduler_run(), Vec::<u32>::new());
    s.tick();
    assert_eq!(s.get_system_time(), 3);
    assert_eq!(s.scheduler_run(), vec![1]);
    // The deadline moved to 6: nothing fires at 4 or 5, it fires again at 6.
    s.tick();
    s.tick();
    assert_eq!(s.scheduler_run(), Vec::<u32>::new());
    s.tick();
    assert_eq!(s.scheduler_run(), vec![1]);
}

#[test]
fn ready_persists_until_capture_and_is_captured_once() {
    let mut s: Scheduler<u32> = Scheduler::new();
    s.task_add(1, 2);
    s.tick();
    s.tick();
    // Fired at tick 2; stays ready through later ticks without a dispatch.
    s.tick();
    assert!(s.tasks[0].ready);
    // Even though two deadlines passed (2 and 4 reached at tick 4), a single
    // capture returns the action exactly once.
    s.tick();
    assert_eq!(s.scheduler_run(), vec![1]);
    assert_eq!(s.scheduler_run(), Vec::<u32>::new());
}

#[test]
fn background_task_captured_every_dispatch() {
    let mut s: Scheduler<u32> = Scheduler::new();
    s.task_add(9, 0);
    assert_eq!(s.scheduler_run(), vec![9]);
    assert_eq!(s.scheduler_run(), vec![9]);
    s.tick();
    assert_eq!(s.scheduler_run(), vec![9]);
    assert!(s.tasks[0].ready);
}

#[test]
fn late_ready_is_dispatched_next_call_not_lost() {
    let mut s: Scheduler<u32> = Scheduler::new();
    s.task_add(1, 3);
    s.tick();
    s.tick();
    // Not ready at this capture: not taken.
    assert_eq!(s.scheduler_run(), Vec::<u32>::new());
    // Becomes ready after that call (as if a tick interrupted phase 2):
    // the next call takes it, exactly once.
    s.tick();
    assert_eq!(s.scheduler_run(), vec![1]);
    assert_eq!(s.scheduler_run(), Vec::<u32>::new());
}

#[test]
fn eleventh_registration_is_ignored() {
    let mut s: Scheduler<u32> = Scheduler::new();
    for id in 0..10u32 {
        s.task_add(id, 0);
    }
    let before: Vec<(u32, u16, u16, bool)> =
        s.tasks.iter().map(|t| (t.action, t.period, t.next_run, t.ready)).collect();
    s.task_add(99, 0);
    assert_eq!(s.tasks.len(), 10);
    let after: Vec<(u32, u16, u16, bool)> =
        s.tasks.iter().map(|t| (t.action, t.period, t.next_run, t.ready)).collect();
    assert_eq!(before, after);
    // The refused action is never captured; the ten existing ones all are.
    let captured = s.scheduler_run();
    assert_eq!(captured, (0..10u32).collect::<Vec<u32>>());
    assert!(!captured.contains(&99));
}

#[test]
fn capture_preserves_registration_order() {
    let mut s: Scheduler<u32> = Scheduler::new();
    s.task_add(5, 0);
    s.task_add(3, 0);
    s.task_add(8, 0);
    assert_eq!(s.scheduler_run(), vec![5, 3, 8]);
}

#[test]
fn end_to_end_two_tasks() {
    // Tick rate 1 unit: task A with period 100 and background task B,
    // both registered at tick 0.
    let mut s: Scheduler<char> = Scheduler::new();
    s.task_add('A', 100);
    s.task_add('B', 0);
    for _ in 0..100 {
        s.tick();
    }
    // One dispatch at tick 100: A exactly once, B exactly once.
    assert_eq!(s.scheduler_run(), vec!['A', 'B']);
    // A is not ready again until tick 200.
    for _ in 101..200 {
        s.tick();
        assert_eq!(s.scheduler_run(), vec!['B']);
    }
    s.tick();
    assert_eq!(s.get_system_time(), 200);
    assert_eq!(s.scheduler_run(), vec!['A', 'B']);
}

#[test]
fn clock_wraps_modulo_2_16() {
    let mut s: Scheduler<u32> = Scheduler { time: 65535, tasks: Vec::new() };
    s.tick();
    assert_eq!(s.get_system_time(), 0);
}

#[test]
fn task_fires_across_clock_wraparound() {
    // Deadline 4, clock at 65530: the deadline lies 10 ticks ahead across
    // the wraparound. A naive `now >= next_run` comparison would fire the
    // task early at 65530..=65535; the modular test must not.
    let mut s: Scheduler<u32> = Scheduler {
        time: 65530,
        tasks: vec![Task { action: 1, period: 10, next_run: 4, ready: false }],
    };
    for _ in 0..9 {
        s.tick();
        assert!(!s.tasks[0].ready, "fired early at tick {}", s.get_system_time());
    }
    s.tick();
    assert_eq!(s.get_system_time(), 4);
    assert_eq!(s.scheduler_run(), vec![1]);
    assert_eq!(s.tasks[0].next_run, 14);
}

#[test]
fn get_system_time_reports_clock() {
    let mut s: Scheduler<u32> = Scheduler::new();
    assert_eq!(s.get_system_time(), 0);
    s.tick();
    s.tick();
    assert_eq!(s.get_system_time(), 2);
}

#[test]
fn delay_waits_full_duration_across_wraparound() {
    // Start 6 ticks before wraparound, wait 10 ticks: the wait must not
    // end early when the clock wraps to small values.
    let start = 65530u16;
    assert!(!delay(start, 65530, 10));
    assert!(!delay(start, 65535, 10));
    assert!(!delay(start, 0, 10)); // 6 ticks elapsed
    assert!(!delay(start, 3, 10)); // 9 ticks elapsed
    assert!(delay(start, 4, 10)); // exactly 10 ticks elapsed
    assert!(delay(start, 5, 10));
}

#[test]
fn delay_zero_is_immediate() {
    assert!(delay(123, 123, 0));
}
