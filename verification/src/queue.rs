//! An unbounded first-in-first-out queue, the model of the two channels the
//! runtime communicates over: the message channel feeding the dispatcher and
//! the command channel feeding the executor.
//!
//! The view of a queue is the sequence of its elements, oldest first.
//! Elements come out exactly as they went in, in enqueue order: nothing is
//! duplicated, lost, or altered in transit.

use vstd::prelude::*;

verus! {

/// An unbounded FIFO queue of `T`, viewed as a sequence (oldest first).
pub struct Queue<T> {
    items: Vec<T>,
}

impl<T> View for Queue<T> {
    type V = Seq<T>;

    closed spec fn view(&self) -> Seq<T> {
        self.items@
    }
}

impl<T> Queue<T> {
    /// An empty queue.
    pub fn new() -> (q: Self)
        ensures
            q@ == Seq::<T>::empty(),
    {
        Queue { items: Vec::new() }
    }

    /// How many elements are waiting.
    pub fn len(&self) -> (n: usize)
        ensures
            n == self@.len(),
    {
        self.items.len()
    }

    /// Whether nothing is waiting.
    pub fn is_empty(&self) -> (b: bool)
        ensures
            b == (self@.len() == 0),
    {
        self.items.len() == 0
    }

    /// Appends one element at the back.
    pub fn enqueue(&mut self, t: T)
        ensures
            final(self)@ == old(self)@.push(t),
    {
        self.items.push(t);
    }

    /// Appends a whole batch at the back, keeping its order.
    pub fn enqueue_all(&mut self, ts: Vec<T>)
        ensures
            final(self)@ == old(self)@ + ts@,
    {
        let mut ts = ts;
        self.items.append(&mut ts);
    }

    /// Removes and returns the oldest element, or `None` on an empty queue.
    /// The element returned is exactly the one that was enqueued first,
    /// unchanged.
    pub fn dequeue(&mut self) -> (r: Option<T>)
        ensures
            match r {
                Some(t) => old(self)@.len() > 0 && t == old(self)@[0] && final(self)@
                    == old(self)@.drop_first(),
                None => old(self)@.len() == 0 && final(self)@ == old(self)@,
            },
    {
        if self.items.len() == 0 {
            None
        } else {
            let t = self.items.remove(0);
            proof {
                assert(old(self)@.remove(0) =~= old(self)@.drop_first());
            }
            Some(t)
        }
    }
}

} // verus!
