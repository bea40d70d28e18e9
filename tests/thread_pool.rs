use syncbox::{LifeCycle, State, Work, WorkerPool};

type Log = Vec<&'static str>;

// A task in two parts: what it does before and after its pause.
type Task = (Box<dyn FnOnce(&mut Log) + Send>, Box<dyn FnOnce(&mut Log) + Send>);

fn task(before: fn(&mut Log), after: fn(&mut Log)) -> Task {
    (Box::new(before), Box::new(after))
}

// A task that says "hi", pauses, then says "bye".
fn greeter() -> Task {
    task(|log| log.push("hi"), |log| log.push("bye"))
}

fn take(tp: &mut WorkerPool<Task>) -> Option<Task> {
    match tp.next_work() {
        Work::Execute(t) => Some(t),
        Work::Wait | Work::Exit => None,
    }
}

// Two workers each take a task, then run them side by side: both first
// parts, then both second parts.
fn run_two(tp: &mut WorkerPool<Task>, log: &mut Log) {
    let a = take(tp).unwrap();
    let b = take(tp).unwrap();
    (a.0)(log);
    (b.0)(log);
    (a.1)(log);
    (b.1)(log);
}

#[test]
fn test_one_thread_basic() {
    let mut tp: WorkerPool<Task> = WorkerPool::single_thread();
    let mut log = Vec::new();

    assert!(tp.run(task(|log| log.push("hi"), |_| {})).is_ok());

    let t = take(&mut tp).unwrap();
    (t.0)(&mut log);
    (t.1)(&mut log);
    assert_eq!(vec!["hi"], log);
}

#[test]
fn test_two_thread_basic() {
    let mut tp: WorkerPool<Task> = WorkerPool::fixed_size(2);
    let mut log = Vec::new();

    for _ in 0..2i32 {
        assert!(tp.run(greeter()).is_ok());
    }

    run_two(&mut tp, &mut log);

    assert_eq!(vec!["hi", "hi", "bye", "bye"], log);
}

#[test]
fn test_two_threads_task_queue_up() {
    let mut tp: WorkerPool<Task> = WorkerPool::fixed_size(2);
    let mut log = Vec::new();

    for _ in 0..4i32 {
        assert!(tp.run(greeter()).is_ok());
    }

    // the two workers take two tasks at a time; the others stay queued
    run_two(&mut tp, &mut log);
    assert_eq!(tp.queued(), 2);
    run_two(&mut tp, &mut log);
    assert!(matches!(tp.next_work(), Work::Wait));

    assert_eq!(
        vec!["hi", "hi", "bye", "bye", "hi", "hi", "bye", "bye"],
        log
    );
}

#[test]
fn test_thread_pool_is_send() {
    fn check<R: Send>(_: &R) {}

    let mut tp: WorkerPool<Task> = WorkerPool::fixed_size(2);
    check(&tp);
    assert!(tp.run(task(|_| {}, |_| {})).is_ok());
}

#[test]
fn test_thread_pool_drains_queue_before_shutdown() {
    for _ in 0..20 {
        let mut tp: WorkerPool<Task> = WorkerPool::single_thread();
        let mut log = Vec::new();

        for _ in 0..20 {
            assert!(tp.run(task(|log| log.push("done"), |_| {})).is_ok());
        }

        // cleanly shut down, then let the worker run until it is told to leave
        tp.stop();
        loop {
            match tp.next_work() {
                Work::Execute(t) => {
                    (t.0)(&mut log);
                    (t.1)(&mut log);
                }
                Work::Wait => panic!("a draining pool never waits"),
                Work::Exit => break,
            }
        }

        if log.len() != 20 {
            panic!("failed to run all submitted tasks");
        }
        assert_eq!(tp.state(), State::Terminated);
    }
}

#[test]
fn single_worker_runs_tasks_in_submission_order() {
    let mut tp: WorkerPool<u32> = WorkerPool::single_thread();
    for i in 0..10u32 {
        assert_eq!(tp.run(i), Ok(()));
    }
    let mut seen = Vec::new();
    while let Work::Execute(i) = tp.next_work() {
        seen.push(i);
    }
    assert_eq!(seen, (0..10u32).collect::<Vec<_>>());
}

#[test]
fn submissions_after_stop_are_handed_back() {
    let mut tp: WorkerPool<u32> = WorkerPool::fixed_size(2);
    assert_eq!(tp.run(1), Ok(()));
    tp.shutdown();
    assert_eq!(tp.state(), State::Draining);
    assert_eq!(tp.run(2), Err(2));
    // a second stop changes nothing
    tp.shutdown();
    assert_eq!(tp.state(), State::Draining);
    assert_eq!(tp.queued(), 1);

    assert!(matches!(tp.next_work(), Work::Execute(1)));
    assert!(matches!(tp.next_work(), Work::Exit));
    assert_eq!(tp.workers(), 1);
    assert_eq!(tp.state(), State::Draining);
    assert!(matches!(tp.next_work(), Work::Exit));
    assert_eq!(tp.workers(), 0);
    assert_eq!(tp.state(), State::Terminated);
    assert_eq!(tp.run(3), Err(3));
}

#[test]
fn a_running_pool_with_nothing_queued_asks_workers_to_wait() {
    let mut tp: WorkerPool<u32> = WorkerPool::fixed_size(3);
    assert_eq!(tp.workers(), 3);
    assert!(matches!(tp.next_work(), Work::Wait));
    tp.start();
    assert_eq!(tp.state(), State::Running);
}
