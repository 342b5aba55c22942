//! The music queue: songs wait in line and the first one plays.

use vstd::prelude::*;
use std::collections::VecDeque;

verus! {

/// A queue of songs; the song at the front is the one playing or about to.
pub struct Orchestra<T> {
    queue: VecDeque<T>,
}

impl<T> View for Orchestra<T> {
    type V = Seq<T>;

    closed spec fn view(&self) -> Seq<T> {
        self.queue@
    }
}

impl<T> Orchestra<T> {
    /// An empty queue.
    pub fn new() -> (orchestra: Orchestra<T>)
        ensures
            orchestra@ == Seq::<T>::empty(),
    {
        Orchestra { queue: VecDeque::new() }
    }

    /// Puts a song at the back of the queue.
    pub fn add(&mut self, audio: T)
        ensures
            final(self)@ == old(self)@.push(audio),
    {
        self.queue.push_back(audio);
    }

    /// Empties the queue.
    pub fn reset(&mut self)
        ensures
            final(self)@ == Seq::<T>::empty(),
    {
        self.queue.clear();
    }

    /// The song at the front, if any.
    pub fn front(&self) -> (song: Option<&T>)
        ensures
            self@.len() == 0 ==> song is None,
            self@.len() > 0 ==> song == Some(&self@[0]),
    {
        if self.queue.len() == 0 {
            None
        } else {
            Some(&self.queue[0])
        }
    }

    /// Drops the song at the front and returns it; nothing happens to an
    /// empty queue.
    pub fn skip(&mut self) -> (skipped: Option<T>)
        ensures
            old(self)@.len() == 0 ==> skipped is None && final(self)@ == old(self)@,
            old(self)@.len() > 0 ==> skipped == Some(old(self)@[0])
                && final(self)@ == old(self)@.drop_first(),
    {
        self.queue.pop_front()
    }

    /// Moves the queue on: when the song at the front has finished
    /// (`front_finished`), it leaves the queue. Returns whether it left.
    pub fn update(&mut self, front_finished: bool) -> (popped: bool)
        ensures
            popped == (front_finished && old(self)@.len() > 0),
            popped ==> final(self)@ == old(self)@.drop_first(),
            !popped ==> final(self)@ == old(self)@,
    {
        if front_finished && self.queue.len() > 0 {
            let _finished = self.queue.pop_front();
            true
        } else {
            false
        }
    }
}

/// Songs leave the queue in the order they were added.
pub proof fn law_queue_first_in_first_out<T>(queue: Seq<T>, audio: T)
    requires
        queue.len() > 0,
    ensures
        queue.push(audio)[0] == queue[0],
        queue.push(audio).drop_first() == queue.drop_first().push(audio),
{
    assert(queue.push(audio).drop_first() =~= queue.drop_first().push(audio));
}

} // verus!
