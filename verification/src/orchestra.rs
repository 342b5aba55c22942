//! The music player's queue of tracks, as kept for one voice connection.

use vstd::prelude::*;
use std::collections::VecDeque;

verus! {

/// A track waiting in the queue or playing.
pub struct Track<A> {
    pub audio: A,
}

/// The queue of tracks and whether the current track repeats.
pub struct Orchestra<A> {
    queue: VecDeque<Track<A>>,
    looping: bool,
}

impl<A> View for Orchestra<A> {
    type V = Seq<Track<A>>;

    closed spec fn view(&self) -> Seq<Track<A>> {
        self.queue@
    }
}

impl<A> Orchestra<A> {
    /// Whether the current track repeats.
    pub closed spec fn is_looping(&self) -> bool {
        self.looping
    }

    /// An empty queue, not looping.
    pub fn new() -> (orchestra: Orchestra<A>)
        ensures
            orchestra@ == Seq::<Track<A>>::empty(),
            !orchestra.is_looping(),
    {
        Orchestra { queue: VecDeque::new(), looping: false }
    }

    /// The track at the front, if any.
    pub fn front(&self) -> (track: Option<&Track<A>>)
        ensures
            self@.len() == 0 ==> track is None,
            self@.len() > 0 ==> track == Some(&self@[0]),
    {
        if self.queue.len() == 0 {
            None
        } else {
            Some(&self.queue[0])
        }
    }

    /// Moves the queue on: when the track at the front has finished
    /// (`front_finished`), it leaves the queue. Returns whether it left.
    pub fn update(&mut self, front_finished: bool) -> (popped: bool)
        ensures
            popped == (front_finished && old(self)@.len() > 0),
            popped ==> final(self)@ == old(self)@.drop_first(),
            !popped ==> final(self)@ == old(self)@,
            final(self).is_looping() == old(self).is_looping(),
    {
        if front_finished && self.queue.len() > 0 {
            let _finished = self.queue.pop_front();
            true
        } else {
            false
        }
    }

    /// Puts a track at the back of the queue, behind the one playing.
    pub fn insert(&mut self, audio: A)
        ensures
            final(self)@ == old(self)@.push(Track { audio }),
            final(self).is_looping() == old(self).is_looping(),
    {
        self.queue.push_back(Track { audio });
    }

    /// Drops the track at the front and returns it; an empty queue stays
    /// as it is.
    pub fn skip(&mut self) -> (skipped: Option<Track<A>>)
        ensures
            old(self)@.len() == 0 ==> skipped is None && final(self)@ == old(self)@,
            old(self)@.len() > 0 ==> skipped == Some(old(self)@[0])
                && final(self)@ == old(self)@.drop_first(),
            final(self).is_looping() == old(self).is_looping(),
    {
        self.queue.pop_front()
    }

    /// Empties the queue.
    pub fn clear(&mut self)
        ensures
            final(self)@ == Seq::<Track<A>>::empty(),
            final(self).is_looping() == old(self).is_looping(),
    {
        self.queue.clear();
    }
}

} // verus!
