//! The lifecycle of a fixed-size worker pool: which submissions it accepts,
//! and what each worker does next.
use vstd::prelude::*;

use crate::linked_queue::LinkedQueue;
use crate::LifeCycle;

verus! {

/// Where a pool is in its life.
#[derive(PartialEq, Eq, Structural, Clone, Copy, Debug)]
pub enum State {
    /// Accepts submissions; idle workers wait for tasks.
    Running,
    /// Accepts nothing more; workers run what is queued, then exit.
    Draining,
    /// Every worker has exited.
    Terminated,
}

/// What a worker is to do next.
pub enum Work<T> {
    /// Execute the task that is handed out; the worker comes back for more.
    Execute(T),
    /// Wait until a task is submitted.
    Wait,
    /// Leave: the pool is draining and nothing is queued.
    Exit,
}

/// A pool as a value: its state, the queued tasks in order of submission,
/// and the number of workers that have not exited.
pub ghost struct PoolView<T> {
    pub state: State,
    pub tasks: Seq<T>,
    pub workers: nat,
}

/// The pool after a submission of `t`, and whether it was accepted.
pub open spec fn run_spec<T>(v: PoolView<T>, t: T) -> (PoolView<T>, bool) {
    if v.state == State::Running {
        (PoolView { tasks: v.tasks.push(t), ..v }, true)
    } else {
        (v, false)
    }
}

/// The pool after `stop`: a running pool starts to drain.
pub open spec fn stop_spec<T>(v: PoolView<T>) -> PoolView<T> {
    if v.state == State::Running {
        PoolView { state: State::Draining, ..v }
    } else {
        v
    }
}

/// The pool after one of its workers asks for work, and the answer.
pub open spec fn next_spec<T>(v: PoolView<T>) -> (PoolView<T>, Work<T>) {
    if v.tasks.len() > 0 {
        (PoolView { tasks: v.tasks.drop_first(), ..v }, Work::Execute(v.tasks[0]))
    } else if v.state == State::Running {
        (v, Work::Wait)
    } else {
        let left = (v.workers - 1) as nat;
        (
            PoolView {
                workers: left,
                state: if left == 0 {
                    State::Terminated
                } else {
                    v.state
                },
                ..v
            },
            Work::Exit,
        )
    }
}

/// The tasks that `k` successive requests of workers hand out, stopping at
/// the first request that hands out none.
pub open spec fn handed_out<T>(v: PoolView<T>, k: nat) -> Seq<T>
    decreases k,
{
    if k == 0 {
        Seq::empty()
    } else {
        match next_spec(v).1 {
            Work::Execute(t) => seq![t] + handed_out(next_spec(v).0, (k - 1) as nat),
            _ => Seq::empty(),
        }
    }
}

/// A pool is terminated exactly when no worker is left, and then nothing is
/// queued.
pub open spec fn view_wf<T>(v: PoolView<T>) -> bool {
    &&& (v.state == State::Terminated) == (v.workers == 0)
    &&& v.state == State::Terminated ==> v.tasks.len() == 0
}

/// The shared state of a pool of worker threads.
pub struct WorkerPool<T> {
    state: State,
    tasks: LinkedQueue<T>,
    workers: usize,
}

impl<T> View for WorkerPool<T> {
    type V = PoolView<T>;

    closed spec fn view(&self) -> PoolView<T> {
        PoolView { state: self.state, tasks: self.tasks@, workers: self.workers as nat }
    }
}

impl<T> WorkerPool<T> {
    /// The pool's invariant.
    pub open spec fn wf(&self) -> bool {
        view_wf(self@)
    }

    /// A running pool of `n` workers with nothing queued.
    pub fn fixed_size(n: usize) -> (p: WorkerPool<T>)
        requires
            n > 0,
        ensures
            p.wf(),
            p@ == (PoolView { state: State::Running, tasks: Seq::<T>::empty(), workers: n as nat }),
    {
        WorkerPool { state: State::Running, tasks: LinkedQueue::new(), workers: n }
    }

    /// A running pool of one worker.
    pub fn single_thread() -> (p: WorkerPool<T>)
        ensures
            p.wf(),
            p@ == (PoolView { state: State::Running, tasks: Seq::<T>::empty(), workers: 1 }),
    {
        WorkerPool::fixed_size(1)
    }

    /// The state the pool is in.
    pub fn state(&self) -> (r: State)
        ensures
            r == self@.state,
    {
        self.state
    }

    /// The number of queued tasks.
    pub fn queued(&self) -> (r: usize)
        ensures
            r == self@.tasks.len(),
    {
        self.tasks.len()
    }

    /// The number of workers that have not exited.
    pub fn workers(&self) -> (r: usize)
        ensures
            r == self@.workers,
    {
        self.workers
    }

    /// Queues `task` if the pool is running; otherwise hands it back.
    pub fn run(&mut self, task: T) -> (r: Result<(), T>)
        requires
            old(self).wf(),
        ensures
            final(self).wf(),
            (final(self)@, r is Ok) == run_spec(old(self)@, task),
            r is Err ==> r->Err_0 == task,
    {
        if self.state == State::Running {
            self.tasks.put(task);
            Ok(())
        } else {
            Err(task)
        }
    }

    /// Answers a worker that asks for work: the head of the queue if there is
    /// one; else, while running, to wait; else to exit. The last worker to
    /// exit terminates the pool.
    pub fn next_work(&mut self) -> (r: Work<T>)
        requires
            old(self).wf(),
            old(self)@.workers > 0,
        ensures
            final(self).wf(),
            (final(self)@, r) == next_spec(old(self)@),
    {
        match self.tasks.take() {
            Some(t) => Work::Execute(t),
            None => {
                if self.state == State::Running {
                    Work::Wait
                } else {
                    self.workers = self.workers - 1;
                    if self.workers == 0 {
                        self.state = State::Terminated;
                    }
                    Work::Exit
                }
            },
        }
    }

    /// Stops taking submissions, as `LifeCycle::stop` does; what is queued
    /// is still run, and a second stop changes nothing.
    pub fn shutdown(&mut self)
        ensures
            old(self).wf() ==> final(self).wf(),
            final(self)@ == stop_spec(old(self)@),
    {
        if self.state == State::Running {
            self.state = State::Draining;
        }
    }
}

/// The pool after `k` successive requests of workers.
pub open spec fn after<T>(v: PoolView<T>, k: nat) -> PoolView<T>
    decreases k,
{
    if k == 0 {
        v
    } else {
        after(next_spec(v).0, (k - 1) as nat)
    }
}

/// The pool after the tasks `ts` are submitted one after another.
pub open spec fn submit_all<T>(v: PoolView<T>, ts: Seq<T>) -> PoolView<T>
    decreases ts.len(),
{
    if ts.len() == 0 {
        v
    } else {
        submit_all(run_spec(v, ts[0]).0, ts.drop_first())
    }
}

/// Workers are handed the queued tasks one by one, from the head: as many
/// requests as there are queued tasks hand out exactly those tasks, in
/// order, and leave nothing queued.
pub proof fn lemma_queued_tasks_handed_out_in_order<T>(v: PoolView<T>)
    requires
        view_wf(v),
        v.workers > 0,
    ensures
        handed_out(v, v.tasks.len()) == v.tasks,
        after(v, v.tasks.len()).tasks.len() == 0,
        after(v, v.tasks.len()).state == v.state,
        after(v, v.tasks.len()).workers == v.workers,
    decreases v.tasks.len(),
{
    if v.tasks.len() > 0 {
        let w = next_spec(v).0;
        lemma_queued_tasks_handed_out_in_order(w);
        assert(handed_out(v, v.tasks.len()) == seq![v.tasks[0]] + handed_out(w, w.tasks.len()));
        assert(v.tasks =~= seq![v.tasks[0]] + v.tasks.drop_first());
    }
}

/// Submitting to a running pool queues each task behind those before it.
pub proof fn lemma_submit_all<T>(v: PoolView<T>, ts: Seq<T>)
    requires
        v.state == State::Running,
    ensures
        submit_all(v, ts) == (PoolView { tasks: v.tasks + ts, ..v }),
    decreases ts.len(),
{
    if ts.len() > 0 {
        let w = run_spec(v, ts[0]).0;
        lemma_submit_all(w, ts.drop_first());
        assert(w.tasks + ts.drop_first() =~= v.tasks + ts);
    } else {
        assert(v.tasks + ts =~= v.tasks);
    }
}

/// Tasks submitted one after another to an idle running pool are handed to
/// its workers in the order of submission; with a single worker they run in
/// that order.
pub proof fn lemma_tasks_run_in_submission_order<T>(v: PoolView<T>, ts: Seq<T>)
    requires
        view_wf(v),
        v.state == State::Running,
        v.tasks.len() == 0,
    ensures
        handed_out(submit_all(v, ts), ts.len()) == ts,
{
    lemma_submit_all(v, ts);
    assert(v.tasks + ts =~= ts);
    lemma_queued_tasks_handed_out_in_order(submit_all(v, ts));
}

/// Stopping a pool loses no accepted task: every task queued at the stop is
/// handed out, in order, before a worker is told to exit; the next request
/// after them tells the worker to exit; and the stopped pool rejects any
/// further submission.
pub proof fn lemma_drains_on_shutdown<T>(v: PoolView<T>, t: T)
    requires
        view_wf(v),
        v.workers > 0,
    ensures
        handed_out(stop_spec(v), v.tasks.len()) == v.tasks,
        next_spec(after(stop_spec(v), v.tasks.len())).1 is Exit,
        !run_spec(stop_spec(v), t).1,
        !run_spec(after(stop_spec(v), v.tasks.len()), t).1,
{
    lemma_queued_tasks_handed_out_in_order(stop_spec(v));
}

impl<T> LifeCycle for WorkerPool<T> {
    /// A pool runs from the moment it is made; there is nothing to start.
    fn start(&mut self) {
    }

    /// Stops taking submissions; what is queued is still run. Stopping a
    /// pool that is already draining or terminated changes nothing.
    fn stop(&mut self)
        ensures
            final(self)@ == stop_spec(old(self)@),
    {
        self.shutdown();
    }
}

} // verus!
