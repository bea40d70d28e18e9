//! A queue of values ordered by absolute deadline.
use vstd::prelude::*;

use crate::clock::{deadline_after, deadline_spec, now_ns};

verus! {

/// Entries are in non-decreasing order of deadline.
pub open spec fn sorted<T>(s: Seq<(i128, T)>) -> bool {
    forall|i: int, j: int| 0 <= i < j < s.len() ==> s[i].0 <= s[j].0
}

/// `s` with `(d, t)` put after every entry whose deadline is at most `d`
/// and before every entry whose deadline is later.
pub open spec fn inserted<T>(s: Seq<(i128, T)>, d: i128, t: T, r: Seq<(i128, T)>) -> bool {
    exists|p: int|
        0 <= p <= s.len() && r == s.insert(p, (d, t)) && (forall|i: int|
            0 <= i < p ==> s[i].0 <= d) && (forall|i: int| p <= i < s.len() ==> s[i].0 > d)
}

/// Whether the head of `s` is ready at time `now`.
pub open spec fn head_ready<T>(s: Seq<(i128, T)>, now: u64) -> bool {
    s.len() > 0 && s[0].0 <= now
}

/// Whether a push of deadline `d` onto `s` brings a new earliest deadline,
/// so that every waiter must recompute its wait.
pub open spec fn push_wakes<T>(s: Seq<(i128, T)>, d: i128) -> bool {
    s.len() == 0 || d < s[0].0
}

/// What a waiter on the queue is to do next.
pub enum Step<T> {
    /// The head was ready and has been taken; `wake` says whether the
    /// other waiters must be woken to look at the new head.
    Ready { value: T, wake: bool },
    /// The caller's own deadline has passed.
    TimedOut,
    /// Wait at most this many nanoseconds, then look again.
    WaitFor(u64),
    /// Wait until woken.
    WaitForever,
}

/// A wait of `x` nanoseconds, held within the range of `u64`.
pub open spec fn wait_len(x: int) -> u64 {
    if x > u64::MAX as int {
        u64::MAX
    } else {
        x as u64
    }
}

/// The step a waiter takes on a queue holding `s` at time `now`, with its own
/// deadline `end` (`None`: no deadline). When the result is ready, the value
/// is the head of `s`.
pub open spec fn step_spec<T>(s: Seq<(i128, T)>, now: u64, end: Option<i128>) -> Step<T> {
    if head_ready_by(s, now, end) {
        Step::Ready { value: s[0].1, wake: s.len() > 1 }
    } else {
        match end {
            Some(e) => if now >= e {
                Step::TimedOut
            } else {
                Step::WaitFor(
                    wait_len(
                        if s.len() > 0 && s[0].0 < e {
                            s[0].0 - now
                        } else {
                            e - now
                        },
                    ),
                )
            },
            None => if s.len() > 0 {
                Step::WaitFor(wait_len(s[0].0 - now))
            } else {
                Step::WaitForever
            },
        }
    }
}

/// Whether a waiter at time `now` with its own deadline `end` takes the
/// head: the head is ready, and it fell due no later than `end`.
pub open spec fn head_ready_by<T>(s: Seq<(i128, T)>, now: u64, end: Option<i128>) -> bool {
    head_ready(s, now) && match end {
        Some(e) => s[0].0 <= e,
        None => true,
    }
}

/// An unbounded queue of values, each with an absolute deadline in
/// nanoseconds; the value whose deadline comes first is at the head. The
/// entries are held in order of deadline, and values with equal deadlines
/// leave in the order they came in.
pub struct DelayQueue<T> {
    entries: Vec<(i128, T)>,
}

impl<T> View for DelayQueue<T> {
    type V = Seq<(i128, T)>;

    closed spec fn view(&self) -> Seq<(i128, T)> {
        self.entries@
    }
}

impl<T> DelayQueue<T> {
    /// The queue's entries are kept in order of deadline.
    pub open spec fn wf(&self) -> bool {
        sorted(self@)
    }

    /// An empty queue.
    pub fn new() -> (q: DelayQueue<T>)
        ensures
            q.wf(),
            q@ == Seq::<(i128, T)>::empty(),
    {
        DelayQueue { entries: Vec::new() }
    }

    /// The number of entries.
    pub fn len(&self) -> (r: usize)
        ensures
            r == self@.len(),
    {
        self.entries.len()
    }

    /// Whether the queue holds no entry.
    pub fn is_empty(&self) -> (r: bool)
        ensures
            r == (self@.len() == 0),
    {
        self.entries.len() == 0
    }

    /// The earliest deadline, if any.
    pub fn peek_deadline(&self) -> (r: Option<i128>)
        ensures
            r == (if self@.len() > 0 {
                Some(self@[0].0)
            } else {
                None
            }),
    {
        if self.entries.len() > 0 {
            Some(self.entries[0].0)
        } else {
            None
        }
    }

    /// Inserts `t` with the absolute deadline `deadline`, after every entry
    /// due no later. Returns whether the waiters must be woken: the queue was
    /// empty or `deadline` is earlier than the previous head's.
    pub fn push_at(&mut self, t: T, deadline: i128) -> (wake: bool)
        requires
            old(self).wf(),
        ensures
            final(self).wf(),
            inserted(old(self)@, deadline, t, final(self)@),
            wake == push_wakes(old(self)@, deadline),
    {
        let wake = self.entries.len() == 0 || deadline < self.entries[0].0;
        let n = self.entries.len();
        let mut p: usize = 0;
        while p < n && self.entries[p].0 <= deadline
            invariant
                n == self@.len(),
                self@ == old(self)@,
                sorted(self@),
                0 <= p <= n,
                forall|i: int| 0 <= i < p ==> self@[i].0 <= deadline,
            decreases n - p,
        {
            p = p + 1;
        }
        proof {
            assert forall|i: int| p <= i < n implies self@[i].0 > deadline by {
                if p < n {
                    assert(self@[p as int].0 > deadline);
                    assert(self@[p as int].0 <= self@[i].0);
                }
            }
        }
        self.entries.insert(p, (deadline, t));
        proof {
            assert(self@ == old(self)@.insert(p as int, (deadline, t)));
            lemma_push_keeps_order(old(self)@, deadline, t, self@);
        }
        wake
    }

    /// Inserts `t` to be due `delay` nanoseconds from now; a delay of zero
    /// or less makes it ready at once. Returns whether the waiters must be
    /// woken, as for `push_at`.
    pub fn push(&mut self, t: T, delay: i64) -> (wake: bool)
        requires
            old(self).wf(),
        ensures
            final(self).wf(),
            exists|now: u64|
                inserted(old(self)@, deadline_spec(now, delay), t, final(self)@) && wake
                    == push_wakes(old(self)@, deadline_spec(now, delay)),
    {
        let now = now_ns();
        let d = deadline_after(now, delay);
        self.push_at(t, d)
    }

    /// Removes and returns the head, with whether the remaining waiters must
    /// be woken to recompute their wait: more than one entry was left.
    pub fn finish_pop(&mut self) -> (r: (T, bool))
        requires
            old(self).wf(),
            old(self)@.len() > 0,
        ensures
            final(self).wf(),
            final(self)@ == old(self)@.drop_first(),
            r.0 == old(self)@[0].1,
            r.1 == (old(self)@.len() > 1),
    {
        let wake = self.entries.len() > 1;
        let (_, t) = self.entries.remove(0);
        proof {
            assert(self@ =~= old(self)@.drop_first());
        }
        (t, wake)
    }

    /// Takes the head if its deadline is at or before `now`; otherwise leaves
    /// the queue as it is and returns `None`. Never waits.
    pub fn poll_at(&mut self, now: u64) -> (r: Option<(T, bool)>)
        requires
            old(self).wf(),
        ensures
            final(self).wf(),
            head_ready(old(self)@, now) ==> final(self)@ == old(self)@.drop_first() && r == Some(
                (old(self)@[0].1, old(self)@.len() > 1),
            ),
            !head_ready(old(self)@, now) ==> final(self)@ == old(self)@ && r.is_none(),
    {
        if self.entries.len() > 0 && self.entries[0].0 <= now as i128 {
            Some(self.finish_pop())
        } else {
            None
        }
    }

    /// Takes the head if its deadline has passed, reading the clock once.
    /// Never waits.
    pub fn poll(&mut self) -> (r: Option<(T, bool)>)
        requires
            old(self).wf(),
        ensures
            final(self).wf(),
            exists|now: u64|
                {
                    &&& head_ready(old(self)@, now) ==> final(self)@ == old(self)@.drop_first()
                        && r == Some((old(self)@[0].1, old(self)@.len() > 1))
                    &&& !head_ready(old(self)@, now) ==> final(self)@ == old(self)@ && r.is_none()
                },
    {
        let now = now_ns();
        self.poll_at(now)
    }

    /// One step of a wait for the head with the caller's deadline `end`
    /// (`None`: none). Takes the head when it is ready and fell due no later
    /// than `end`, so a head that was already due is taken even by a wait of
    /// zero. Otherwise leaves the queue unchanged and either times out, when
    /// `end` has passed, or says how long to wait: until the earlier of the
    /// head's deadline and `end`.
    pub fn step(&mut self, now: u64, end: Option<i128>) -> (r: Step<T>)
        requires
            old(self).wf(),
        ensures
            final(self).wf(),
            r == step_spec(old(self)@, now, end),
            r is Ready ==> final(self)@ == old(self)@.drop_first(),
            !(r is Ready) ==> final(self)@ == old(self)@,
    {
        let n = self.entries.len();
        if n > 0 && self.entries[0].0 <= now as i128 {
            let due_in_time = match end {
                Some(e) => self.entries[0].0 <= e,
                None => true,
            };
            if due_in_time {
                let (value, wake) = self.finish_pop();
                return Step::Ready { value, wake };
            }
        }
        match end {
            Some(e) => {
                if now as i128 >= e {
                    return Step::TimedOut;
                }
                let until = if n > 0 && self.entries[0].0 < e {
                    self.entries[0].0
                } else {
                    e
                };
                Step::WaitFor(clamp_wait(until - now as i128))
            },
            None => {
                if n > 0 {
                    Step::WaitFor(clamp_wait(self.entries[0].0 - now as i128))
                } else {
                    Step::WaitForever
                }
            },
        }
    }
}

/// A wait of `x` nanoseconds, held within the range of `u64`.
fn clamp_wait(x: i128) -> (r: u64)
    requires
        x >= 0,
    ensures
        r == wait_len(x as int),
{
    if x > u64::MAX as i128 {
        u64::MAX
    } else {
        x as u64
    }
}

/// A push loses nothing and keeps the queue in order of deadline, so any
/// sequence of pushes leaves a queue whose pops come out in deadline order.
pub proof fn lemma_push_keeps_order<T>(s: Seq<(i128, T)>, d: i128, t: T, r: Seq<(i128, T)>)
    requires
        sorted(s),
        inserted(s, d, t, r),
    ensures
        sorted(r),
        r.to_multiset() == s.to_multiset().insert((d, t)),
{
    let p = choose|p: int|
        0 <= p <= s.len() && r == s.insert(p, (d, t)) && (forall|i: int|
            0 <= i < p ==> s[i].0 <= d) && (forall|i: int| p <= i < s.len() ==> s[i].0 > d);
    vstd::seq_lib::to_multiset_insert(s, p, (d, t));
    assert forall|i: int, j: int| 0 <= i < j < r.len() implies r[i].0 <= r[j].0 by {
        if j < p {
        } else if j == p {
        } else if i < p {
            assert(s[i].0 <= d);
        } else if i == p {
        } else {
            assert(r[i] == s[i - 1]);
            assert(r[j] == s[j - 1]);
        }
    }
}

/// The head of a queue is due no later than any other entry.
pub proof fn lemma_head_is_earliest<T>(q: DelayQueue<T>)
    requires
        q.wf(),
    ensures
        forall|i: int| 0 <= i < q@.len() ==> q@[0].0 <= #[trigger] q@[i].0,
{
}

/// Successive pops come out in non-decreasing order of deadline: the head
/// that is left after a pop is due no earlier than the one that was taken,
/// and the rest stays in order for the pops that follow.
pub proof fn lemma_pops_in_deadline_order<T>(q: DelayQueue<T>)
    requires
        q.wf(),
        q@.len() >= 2,
    ensures
        q@[0].0 <= q@.drop_first()[0].0,
        sorted(q@.drop_first()),
{
}

/// A waiter never sleeps past either deadline: it takes the head exactly
/// when the head is ready and fell due no later than the waiter's own
/// deadline, it times out exactly when its own deadline has passed and no
/// such head is there, and a timed wait ends no later than its
/// own deadline and no later than the head's.
pub proof fn lemma_wait_respects_deadlines<T>(s: Seq<(i128, T)>, now: u64, end: Option<i128>)
    requires
        sorted(s),
    ensures
        (step_spec(s, now, end) is TimedOut) == (!head_ready_by(s, now, end) && end is Some
            && now >= end->Some_0),
        (step_spec(s, now, end) is Ready) == head_ready_by(s, now, end),
        step_spec(s, now, end) is Ready ==> head_ready(s, now) && (end is Some ==> s[0].0
            <= end->Some_0),
        step_spec(s, now, end) is WaitFor ==> {
            let d = step_spec(s, now, end)->WaitFor_0;
            &&& d > 0
            &&& end is Some ==> now + d <= end->Some_0
            &&& s.len() > 0 ==> now + d <= s[0].0
            &&& d == u64::MAX || (end is Some && now + d == end->Some_0) || (s.len() > 0 && now + d == s[0].0)
        },
        step_spec(s, now, end) is WaitForever ==> end is None && s.len() == 0,
{
}

} // verus!
