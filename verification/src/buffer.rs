//! A bounded first-in first-out queue that drops what does not fit.

use vstd::prelude::*;
use std::collections::VecDeque;

verus! {

/// A queue that accepts an element only while it holds fewer than `limit()`
/// elements. An element pushed while the queue is full is dropped; the
/// elements already queued stay.
pub struct LossyBuffer<T> {
    elements: VecDeque<T>,
    capacity: usize,
}

impl<T> View for LossyBuffer<T> {
    type V = Seq<T>;

    /// The queued elements, oldest first.
    closed spec fn view(&self) -> Seq<T> {
        self.elements@
    }
}

impl<T> LossyBuffer<T> {
    /// The number of elements from which on the queue is full.
    pub closed spec fn limit(&self) -> nat {
        self.capacity as nat
    }

    /// The queue holds no more than its limit. Every queue made by
    /// [`LossyBuffer::new`] is within bounds, and stays so.
    pub open spec fn within_bounds(&self) -> bool {
        self@.len() <= self.limit()
    }

    /// An empty queue that will hold up to `capacity` elements. No memory
    /// is set aside before an element arrives.
    pub fn new(capacity: usize) -> (buffer: Self)
        ensures
            buffer@ == Seq::<T>::empty(),
            buffer.limit() == capacity,
            buffer.within_bounds(),
    {
        Self { elements: VecDeque::new(), capacity }
    }

    /// Appends `element` if the queue is not full, and drops it otherwise.
    pub fn push(&mut self, element: T)
        ensures
            final(self).limit() == old(self).limit(),
            old(self)@.len() < old(self).limit() ==> final(self)@ == old(self)@.push(element),
            old(self)@.len() >= old(self).limit() ==> final(self)@ == old(self)@,
            old(self).within_bounds() ==> final(self).within_bounds(),
    {
        if self.elements.len() < self.capacity {
            self.elements.push_back(element);
        }
    }

    /// Removes and returns the oldest element, or returns `None` if the
    /// queue is empty.
    pub fn pop(&mut self) -> (front: Option<T>)
        ensures
            final(self).limit() == old(self).limit(),
            old(self)@.len() == 0 ==> front.is_none() && final(self)@ == old(self)@,
            old(self)@.len() > 0 ==> front == Some(old(self)@[0]) && final(self)@ == old(
                self,
            )@.drop_first(),
            old(self).within_bounds() ==> final(self).within_bounds(),
    {
        self.elements.pop_front()
    }

    /// The number of queued elements.
    pub fn len(&self) -> (n: usize)
        ensures
            n == self@.len(),
    {
        self.elements.len()
    }
}

} // verus!
