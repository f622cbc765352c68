//! Fixed-capacity sample buffer between the audio producer (decode
//! thread) and the consumer (the realtime device callback).
//!
//! Samples are opaque 32-bit words (the bit patterns of the device's
//! `f32` samples). On overflow the producer drops the excess instead of
//! blocking — realtime continuity over completeness.

use vstd::prelude::*;
use std::collections::VecDeque;

verus! {

/// Default ring size in samples per channel.
pub const RING_BUFFER_SIZE: usize = 8192;

/// Bounded sample buffer with drop-on-full writes: the consumer never
/// reads unwritten slots, the producer never overwrites unread ones,
/// and a full buffer drops new samples rather than blocking.
pub struct AudioRingBuffer {
    /// Buffered samples, oldest first.
    pub buf: VecDeque<u32>,
    /// Fixed capacity in samples.
    pub capacity: usize,
}

impl AudioRingBuffer {
    /// Never more samples buffered than the declared capacity.
    pub open spec fn wf(&self) -> bool {
        self.buf@.len() <= self.capacity
    }

    /// The readable samples, oldest first.
    pub open spec fn view(&self) -> Seq<u32> {
        self.buf@
    }

    pub fn new(capacity: usize) -> (r: Self)
        ensures
            r.wf(),
            r@ == Seq::<u32>::empty(),
            r.capacity == capacity,
    {
        AudioRingBuffer { buf: VecDeque::new(), capacity }
    }

    /// Number of samples available to read.
    pub fn len(&self) -> (r: usize)
        ensures
            r == self@.len(),
    {
        self.buf.len()
    }

    /// Whether no samples are buffered.
    pub fn is_empty(&self) -> (r: bool)
        ensures
            r == (self@.len() == 0),
    {
        self.buf.len() == 0
    }

    /// The fixed capacity.
    pub fn capacity(&self) -> (r: usize)
        ensures
            r == self.capacity,
    {
        self.capacity
    }

    /// Free space in samples.
    pub fn free(&self) -> (r: usize)
        requires
            self.wf(),
        ensures
            r == self.capacity - self@.len(),
    {
        self.capacity - self.buf.len()
    }

    /// Write samples, filling only the free space: exactly
    /// `min(samples.len(), capacity - len())` samples are appended, the
    /// excess is dropped, and the call never blocks or fails.
    pub fn write(&mut self, samples: &[u32]) -> (written: usize)
        requires
            old(self).wf(),
        ensures
            final(self).wf(),
            written == if samples@.len() <= old(self).capacity - old(self)@.len() {
                samples@.len() as int
            } else {
                old(self).capacity - old(self)@.len()
            },
            final(self)@ == old(self)@ + samples@.subrange(0, written as int),
            final(self).capacity == old(self).capacity,
    {
        let mut i: usize = 0;
        while i < samples.len() && self.buf.len() < self.capacity
            invariant
                self.wf(),
                self.capacity == old(self).capacity,
                i <= samples@.len(),
                self@ == old(self)@ + samples@.subrange(0, i as int),
                i == self@.len() - old(self)@.len(),
                i < samples@.len() ==> self@.len() <= self.capacity,
            decreases samples@.len() - i,
        {
            self.buf.push_back(samples[i]);
            proof {
                assert(self@ =~= old(self)@ + samples@.subrange(0, i + 1));
            }
            i = i + 1;
        }
        i
    }

    /// Read up to `count` samples, oldest first: exactly
    /// `min(count, len())` samples leave the buffer.
    pub fn read(&mut self, count: usize) -> (r: Vec<u32>)
        requires
            old(self).wf(),
        ensures
            final(self).wf(),
            r@.len() == if count <= old(self)@.len() {
                count as int
            } else {
                old(self)@.len() as int
            },
            r@ == old(self)@.subrange(0, r@.len() as int),
            final(self)@ == old(self)@.subrange(r@.len() as int, old(self)@.len() as int),
            final(self).capacity == old(self).capacity,
    {
        let mut out: Vec<u32> = Vec::new();
        let n: usize = if count <= self.buf.len() {
            count
        } else {
            self.buf.len()
        };
        let mut i: usize = 0;
        while i < n
            invariant
                self.wf(),
                self.capacity == old(self).capacity,
                i <= n,
                n <= old(self)@.len(),
                out@.len() == i,
                out@ == old(self)@.subrange(0, i as int),
                self@ == old(self)@.subrange(i as int, old(self)@.len() as int),
            decreases n - i,
        {
            match self.buf.pop_front() {
                Some(s) => {
                    out.push(s);
                },
                None => {
                    // unreachable: i < n <= buffered length
                },
            }
            proof {
                assert(out@ =~= old(self)@.subrange(0, i + 1));
                assert(self@ =~= old(self)@.subrange(i + 1, old(self)@.len() as int));
            }
            i = i + 1;
        }
        out
    }

    /// Pop a single sample, the oldest.
    pub fn pop(&mut self) -> (r: Option<u32>)
        requires
            old(self).wf(),
        ensures
            final(self).wf(),
            old(self)@.len() == 0 ==> r.is_none() && final(self)@ == old(self)@,
            old(self)@.len() > 0 ==> {
                &&& r == Some(old(self)@[0])
                &&& final(self)@ == old(self)@.drop_first()
            },
            final(self).capacity == old(self).capacity,
    {
        let r = self.buf.pop_front();
        proof {
            if old(self)@.len() > 0 {
                assert(self@ =~= old(self)@.drop_first());
            }
        }
        r
    }

    /// Drop everything buffered.
    pub fn clear(&mut self)
        ensures
            final(self).wf(),
            final(self)@ == Seq::<u32>::empty(),
            final(self).capacity == old(self).capacity,
    {
        self.buf.clear();
    }
}

} // verus!
