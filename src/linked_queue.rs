//! An unbounded first-in first-out queue.
use vstd::prelude::*;

use std::collections::VecDeque;

verus! {

/// What a consumer waiting on the queue is to do next.
pub enum TakeStep<T> {
    /// The head was there and has been taken.
    Taken(T),
    /// The queue is empty and the consumer's deadline has passed.
    TimedOut,
    /// The queue is empty: wait at most this many nanoseconds, then look
    /// again.
    WaitFor(u64),
}

/// An unbounded queue: values leave in the order they came in.
pub struct LinkedQueue<T> {
    items: VecDeque<T>,
}

impl<T> View for LinkedQueue<T> {
    type V = Seq<T>;

    closed spec fn view(&self) -> Seq<T> {
        self.items@
    }
}

impl<T> LinkedQueue<T> {
    /// An empty queue.
    pub fn new() -> (q: LinkedQueue<T>)
        ensures
            q@ == Seq::<T>::empty(),
    {
        LinkedQueue { items: VecDeque::new() }
    }

    /// The number of values held.
    pub fn len(&self) -> (r: usize)
        ensures
            r == self@.len(),
    {
        self.items.len()
    }

    /// Whether the queue holds no value.
    pub fn is_empty(&self) -> (r: bool)
        ensures
            r == (self@.len() == 0),
    {
        self.items.len() == 0
    }

    /// Appends `val` at the tail. The queue is unbounded, so this never
    /// fails.
    pub fn put(&mut self, val: T)
        ensures
            final(self)@ == old(self)@.push(val),
    {
        self.items.push_back(val);
    }

    /// Removes and returns the head, or `None` when the queue is empty.
    pub fn take(&mut self) -> (r: Option<T>)
        ensures
            old(self)@.len() == 0 ==> r.is_none() && final(self)@ == old(self)@,
            old(self)@.len() > 0 ==> r == Some(old(self)@[0]) && final(self)@
                == old(self)@.drop_first(),
    {
        let r = self.items.pop_front();
        proof {
            if old(self)@.len() > 0 {
                assert(self@ =~= old(self)@.drop_first());
            }
        }
        r
    }

    /// One step of a wait for a value with the consumer's deadline `end`, at
    /// time `now`: takes the head whenever there is one, even once `end` has
    /// passed; otherwise times out when `end` has passed, or says to wait
    /// until `end`.
    pub fn take_step(&mut self, now: u64, end: i128) -> (r: TakeStep<T>)
        ensures
            old(self)@.len() > 0 ==> r == TakeStep::Taken(old(self)@[0]) && final(self)@
                == old(self)@.drop_first(),
            old(self)@.len() == 0 && now >= end ==> r is TimedOut && final(self)@ == old(self)@,
            old(self)@.len() == 0 && now < end ==> r == TakeStep::<T>::WaitFor(
                crate::delay_queue::wait_len(end - now),
            ) && final(self)@ == old(self)@,
    {
        match self.take() {
            Some(v) => TakeStep::Taken(v),
            None => {
                if now as i128 >= end {
                    TakeStep::TimedOut
                } else {
                    let left = end - now as i128;
                    if left > u64::MAX as i128 {
                        TakeStep::WaitFor(u64::MAX)
                    } else {
                        TakeStep::WaitFor(left as u64)
                    }
                }
            },
        }
    }
}

} // verus!
