//! Concurrency building blocks: a deadline-ordered queue, a FIFO task queue
//! and the lifecycle of a worker pool, as verified state machines. Blocking
//! and threads are left to the caller, which drives these machines under a
//! lock and acts on the decisions they return.
use vstd::prelude::*;

pub mod clock;
pub mod delay_queue;
pub mod linked_queue;
pub mod scheduled_pool;
pub mod worker_pool;

pub use clock::{deadline_after, ms, now_ns};
pub use delay_queue::{DelayQueue, Step};
pub use linked_queue::{LinkedQueue, TakeStep};
pub use scheduled_pool::{Dispatch, ScheduledPool};
pub use worker_pool::{State, Work, WorkerPool};

verus! {

/// Something that runs tasks.
pub trait Executor {
    /// Executes the task.
    fn execute<F: FnOnce() + Send>(task: F);
}

/// Something that can be started and stopped.
pub trait LifeCycle {
    /// Transition into a started state.
    fn start(&mut self);

    /// Transition into a stopped state.
    fn stop(&mut self);
}

/// A source of values.
pub trait Consume<T> {
    /// Retrieves and removes the head of the queue, without waiting: the
    /// same as `take_wait` with a timeout of zero.
    fn take(&self) -> (r: Option<T>)
        ensures
            call_ensures(Self::take_wait, (self, 0u64), r),
    {
        self.take_wait(0)
    }

    /// Retrieves and removes the head of the queue, waiting if necessary up
    /// to `timeout` nanoseconds.
    fn take_wait(&self, timeout: u64) -> Option<T>;
}

/// A sink of values.
pub trait Produce<T> {
    /// Inserts the value into the queue; a rejected value is handed back.
    /// The same as `put_wait` with a timeout of zero.
    fn put(&self, val: T) -> (r: Result<(), T>)
        ensures
            call_ensures(Self::put_wait, (self, val, 0u64), r),
    {
        self.put_wait(val, 0)
    }

    /// Inserts the value into the queue, waiting if necessary up to
    /// `timeout` nanoseconds; a rejected value is handed back.
    fn put_wait(&self, val: T, timeout: u64) -> Result<(), T>;
}

} // verus!
