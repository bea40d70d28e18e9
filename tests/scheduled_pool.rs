use syncbox::{ms, now_ns, Dispatch, ScheduledPool, Work};

type Task = Box<dyn FnOnce() -> (&'static str, bool) + Send>;

// Runs the dispatcher until one task has been handed to the workers.
fn dispatch_one(tp: &mut ScheduledPool<Task>) {
    loop {
        match tp.dispatch_step(now_ns()) {
            Dispatch::Dispatched { .. } => return,
            Dispatch::WaitFor(_) => {}
            Dispatch::WaitForever | Dispatch::Exit => panic!("nothing to dispatch"),
        }
    }
}

fn run_next(tp: &mut ScheduledPool<Task>) -> (&'static str, bool) {
    match tp.next_work() {
        Work::Execute(t) => t(),
        Work::Wait | Work::Exit => panic!("no task was handed out"),
    }
}

#[test]
pub fn test_one_thread_one_task() {
    let mut tp: ScheduledPool<Task> = ScheduledPool::single_thread();
    let start = now_ns();

    assert!(tp
        .schedule(
            Box::new(move || ("", now_ns() - start > 500_000_000)),
            ms(500),
        )
        .is_ok());

    dispatch_one(&mut tp);
    assert!(run_next(&mut tp).1);
}

#[test]
pub fn test_one_thread_two_tasks() {
    let mut tp: ScheduledPool<Task> = ScheduledPool::single_thread();
    let start = now_ns();

    assert!(tp
        .schedule(
            Box::new(move || ("one", now_ns() - start > ms(500) as u64)),
            ms(500),
        )
        .is_ok());
    assert!(tp
        .schedule(
            Box::new(move || ("two", now_ns() - start > ms(200) as u64)),
            ms(200),
        )
        .is_ok());

    dispatch_one(&mut tp);
    assert_eq!(run_next(&mut tp), ("two", true));
    dispatch_one(&mut tp);
    assert_eq!(run_next(&mut tp), ("one", true));
}

#[test]
pub fn test_two_threads() {
    let mut tp: ScheduledPool<u32> = ScheduledPool::fixed_size(2);
    let mut vals: Vec<&'static str> = Vec::new();

    // times in milliseconds from the start
    assert_eq!(tp.schedule_at(500, 500), Ok(true));
    assert_eq!(tp.schedule_at(100, 100), Ok(true));

    assert!(matches!(tp.dispatch_step(0), Dispatch::WaitFor(100)));
    assert!(matches!(tp.dispatch_step(100), Dispatch::Dispatched { wake: true }));
    // the first worker starts the task due at 100 and works on it for 2000
    match tp.next_work() {
        Work::Execute(100) => vals.push("start"),
        _ => panic!("the task due at 100 runs first"),
    }
    assert!(matches!(tp.dispatch_step(100), Dispatch::WaitFor(400)));
    assert!(matches!(tp.dispatch_step(500), Dispatch::Dispatched { wake: false }));
    // the second worker runs the task due at 500 meanwhile
    match tp.next_work() {
        Work::Execute(500) => vals.push("win"),
        _ => panic!("the task due at 500 runs second"),
    }
    vals.push("end");

    assert_eq!(vals, &["start", "win", "end"]);
}

#[test]
fn earlier_deadline_is_dispatched_first() {
    let mut tp: ScheduledPool<char> = ScheduledPool::single_thread();
    assert_eq!(tp.schedule_at('a', 500), Ok(true));
    assert_eq!(tp.schedule_at('b', 200), Ok(true));
    assert!(matches!(tp.dispatch_step(600), Dispatch::Dispatched { wake: true }));
    assert!(matches!(tp.dispatch_step(600), Dispatch::Dispatched { wake: false }));
    assert!(matches!(tp.dispatch_step(600), Dispatch::WaitForever));
    assert!(matches!(tp.next_work(), Work::Execute('b')));
    assert!(matches!(tp.next_work(), Work::Execute('a')));
    assert!(matches!(tp.next_work(), Work::Wait));
}

#[test]
fn a_stopped_dispatcher_moves_nothing() {
    let mut tp: ScheduledPool<char> = ScheduledPool::fixed_size(2);
    assert_eq!(tp.schedule_at('a', 0), Ok(true));
    tp.shutdown();
    assert_eq!(tp.schedule_at('b', 0), Err('b'));
    assert!(matches!(tp.dispatch_step(10), Dispatch::Exit));
    assert!(matches!(tp.next_work(), Work::Exit));
    assert!(matches!(tp.next_work(), Work::Exit));
}
