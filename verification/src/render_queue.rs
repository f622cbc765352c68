//! A plain bounded FIFO used on the presentation side: unlike the
//! decoder's PTS-sorted queue it refuses elements when full instead of
//! evicting.

use vstd::prelude::*;
use vstd::string::StringExecFns;
use std::collections::VecDeque;
use crate::error::{CCPlayerError, Result};

verus! {

/// Frame queue for buffering items awaiting presentation: first in,
/// first out, rejecting pushes beyond `max_size`.
pub struct FrameQueue<T> {
    /// Queued items, oldest first.
    pub frames: VecDeque<T>,
    /// Maximum queue size.
    pub max_size: usize,
}

impl<T> FrameQueue<T> {
    pub open spec fn wf(&self) -> bool {
        self.frames@.len() <= self.max_size
    }

    /// The queued items, oldest first.
    pub open spec fn view(&self) -> Seq<T> {
        self.frames@
    }

    /// Create a new queue holding at most `max_size` items.
    pub fn new(max_size: usize) -> (r: Self)
        ensures
            r.wf(),
            r@ == Seq::<T>::empty(),
            r.max_size == max_size,
    {
        FrameQueue { frames: VecDeque::new(), max_size }
    }

    /// Append an item; a buffer-full error exactly when the queue
    /// already holds `max_size` items.
    pub fn push(&mut self, frame: T) -> (r: Result<()>)
        requires
            old(self).wf(),
        ensures
            final(self).wf(),
            final(self).max_size == old(self).max_size,
            old(self)@.len() < old(self).max_size ==> (r is Ok && final(self)@ == old(
                self,
            )@.push(frame)),
            old(self)@.len() >= old(self).max_size ==> ((r matches Err(e) && e is BufferFull)
                && final(self)@ == old(self)@),
    {
        if self.frames.len() >= self.max_size {
            return Err(CCPlayerError::BufferFull(String::from_str("frame queue is full")));
        }
        self.frames.push_back(frame);
        Ok(())
    }

    /// Remove and return the oldest item.
    pub fn pop(&mut self) -> (r: Option<T>)
        requires
            old(self).wf(),
        ensures
            final(self).wf(),
            final(self).max_size == old(self).max_size,
            old(self)@.len() == 0 ==> r.is_none() && final(self)@ == old(self)@,
            old(self)@.len() > 0 ==> {
                &&& r == Some(old(self)@[0])
                &&& final(self)@ == old(self)@.drop_first()
            },
    {
        let r = self.frames.pop_front();
        proof {
            if old(self)@.len() > 0 {
                assert(self.frames@ =~= old(self)@.drop_first());
            }
        }
        r
    }

    /// Look at the oldest item without removing it.
    pub fn peek(&self) -> (r: Option<&T>)
        ensures
            self@.len() == 0 ==> r.is_none(),
            self@.len() > 0 ==> (r matches Some(f) && *f == self@[0]),
    {
        if self.frames.len() > 0 {
            Some(&self.frames[0])
        } else {
            None
        }
    }

    /// The number of queued items.
    pub fn len(&self) -> (r: usize)
        ensures
            r == self@.len(),
    {
        self.frames.len()
    }

    /// Whether the queue is empty.
    pub fn is_empty(&self) -> (r: bool)
        ensures
            r == (self@.len() == 0),
    {
        self.frames.len() == 0
    }

    /// Whether the queue is at capacity.
    pub fn is_full(&self) -> (r: bool)
        ensures
            r == (self@.len() >= self.max_size),
    {
        self.frames.len() >= self.max_size
    }

    /// Drop everything queued.
    pub fn clear(&mut self)
        ensures
            final(self).wf(),
            final(self)@ == Seq::<T>::empty(),
            final(self).max_size == old(self).max_size,
    {
        self.frames.clear();
    }
}

} // verus!
