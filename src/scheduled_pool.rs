//! A worker pool whose tasks become ready at deadlines: pending tasks wait in
//! a delay queue, and a single dispatcher moves each ready one to the pool.
use vstd::prelude::*;

use crate::clock::{deadline_after, deadline_spec, now_ns};
use crate::delay_queue::{head_ready, inserted, push_wakes, sorted, wait_len, DelayQueue, Step};
use crate::worker_pool::{run_spec, stop_spec, State, Work, WorkerPool};

verus! {

/// What the dispatcher is to do next.
pub enum Dispatch {
    /// A ready task was handed to the workers; `wake` says whether other
    /// waiters on the pending tasks must be woken.
    Dispatched { wake: bool },
    /// Wait at most this many nanoseconds for the next deadline.
    WaitFor(u64),
    /// Nothing is pending: wait until woken.
    WaitForever,
    /// The pool was stopped: the dispatcher leaves.
    Exit,
}

/// A pool of workers with a queue of tasks that are not yet due.
pub struct ScheduledPool<T> {
    pending: DelayQueue<T>,
    pool: WorkerPool<T>,
}

impl<T> ScheduledPool<T> {
    /// The tasks not yet due, in order of deadline.
    pub closed spec fn pending(&self) -> Seq<(i128, T)> {
        self.pending@
    }

    /// The pool that runs the tasks that are due.
    pub closed spec fn workers(&self) -> WorkerPool<T> {
        self.pool
    }

    /// The invariant of both parts.
    pub open spec fn wf(&self) -> bool {
        sorted(self.pending()) && self.workers().wf()
    }

    /// A running pool of `n` workers with nothing pending or queued.
    pub fn fixed_size(n: usize) -> (p: ScheduledPool<T>)
        requires
            n > 0,
        ensures
            p.wf(),
            p.pending() == Seq::<(i128, T)>::empty(),
            p.workers()@.state == State::Running,
            p.workers()@.tasks == Seq::<T>::empty(),
            p.workers()@.workers == n,
    {
        ScheduledPool { pending: DelayQueue::new(), pool: WorkerPool::fixed_size(n) }
    }

    /// A running pool of one worker with nothing pending or queued.
    pub fn single_thread() -> (p: ScheduledPool<T>)
        ensures
            p.wf(),
            p.pending() == Seq::<(i128, T)>::empty(),
            p.workers()@.state == State::Running,
            p.workers()@.tasks == Seq::<T>::empty(),
            p.workers()@.workers == 1,
    {
        ScheduledPool::fixed_size(1)
    }

    /// Schedules `task` to be due at the absolute time `deadline`, if the
    /// pool is running; once it is stopped the task is handed back. On
    /// success, returns whether the dispatcher must be woken to recompute
    /// its wait.
    pub fn schedule_at(&mut self, task: T, deadline: i128) -> (r: Result<bool, T>)
        requires
            old(self).wf(),
        ensures
            final(self).wf(),
            final(self).workers() == old(self).workers(),
            old(self).workers()@.state == State::Running ==> r == Ok::<bool, T>(
                push_wakes(old(self).pending(), deadline),
            ) && inserted(old(self).pending(), deadline, task, final(self).pending()),
            old(self).workers()@.state != State::Running ==> r == Err::<bool, T>(task)
                && final(self).pending() == old(self).pending(),
    {
        if self.pool.state() != State::Running {
            return Err(task);
        }
        Ok(self.pending.push_at(task, deadline))
    }

    /// Schedules `task` to be due `delay` nanoseconds from now, if the pool
    /// is running; once it is stopped the task is handed back.
    pub fn schedule(&mut self, task: T, delay: i64) -> (r: Result<bool, T>)
        requires
            old(self).wf(),
        ensures
            final(self).wf(),
            final(self).workers() == old(self).workers(),
            old(self).workers()@.state == State::Running ==> exists|now: u64|
                r == Ok::<bool, T>(push_wakes(old(self).pending(), deadline_spec(now, delay)))
                    && inserted(
                    old(self).pending(),
                    deadline_spec(now, delay),
                    task,
                    final(self).pending(),
                ),
            old(self).workers()@.state != State::Running ==> r == Err::<bool, T>(task)
                && final(self).pending() == old(self).pending(),
    {
        let now = now_ns();
        let d = deadline_after(now, delay);
        self.schedule_at(task, d)
    }

    /// One step of the dispatcher at time `now`. Once the pool is stopped it
    /// leaves and moves nothing. Otherwise, if the earliest pending task is
    /// due, it is handed to the workers; else the step says how long to wait.
    pub fn dispatch_step(&mut self, now: u64) -> (r: Dispatch)
        requires
            old(self).wf(),
        ensures
            final(self).wf(),
            old(self).workers()@.state != State::Running ==> r is Exit && final(self).pending()
                == old(self).pending() && final(self).workers() == old(self).workers(),
            old(self).workers()@.state == State::Running && head_ready(old(self).pending(), now)
                ==> r == (Dispatch::Dispatched { wake: old(self).pending().len() > 1 })
                && final(self).pending() == old(self).pending().drop_first()
                && final(self).workers()@ == run_spec(old(self).workers()@, old(self).pending()[0].1).0,
            old(self).workers()@.state == State::Running && !head_ready(old(self).pending(), now)
                ==> final(self).pending() == old(self).pending() && final(self).workers()
                == old(self).workers() && (if old(self).pending().len() == 0 {
                r is WaitForever
            } else {
                r == Dispatch::WaitFor(wait_len(old(self).pending()[0].0 - now))
            }),
    {
        if self.pool.state() != State::Running {
            return Dispatch::Exit;
        }
        match self.pending.step(now, None) {
            Step::Ready { value, wake } => {
                let _ = self.pool.run(value);
                Dispatch::Dispatched { wake }
            },
            Step::WaitFor(d) => Dispatch::WaitFor(d),
            Step::WaitForever => Dispatch::WaitForever,
            Step::TimedOut => Dispatch::WaitForever,
        }
    }

    /// Answers a worker that asks for work, as `WorkerPool::next_work` does.
    pub fn next_work(&mut self) -> (r: Work<T>)
        requires
            old(self).wf(),
            old(self).workers()@.workers > 0,
        ensures
            final(self).wf(),
            final(self).pending() == old(self).pending(),
            (final(self).workers()@, r) == crate::worker_pool::next_spec(old(self).workers()@),
    {
        self.pool.next_work()
    }

    /// Stops the dispatcher and lets the workers drain what was already
    /// handed to them. Tasks still pending are not run.
    pub fn shutdown(&mut self)
        requires
            old(self).wf(),
        ensures
            final(self).wf(),
            final(self).pending() == old(self).pending(),
            final(self).workers()@ == stop_spec(old(self).workers()@),
    {
        self.pool.shutdown()
    }
}

} // verus!
