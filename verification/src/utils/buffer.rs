//! A lock-free queue of frames for one producer and one consumer.
//!
//! [`VDIFFIFO::new`] hands out the two ends of the queue. Exactly one thread may hold the
//! [`VDIFProducer`] and exactly one the [`VDIFConsumer`]; the two share the slots and the
//! cursors through a reference count, and nothing else. The producer alone writes the
//! tail cursor and the slot that it stands for, the consumer alone writes the head
//! cursor: every cursor is read with acquire ordering and written with release ordering,
//! so a slot is seen by the other side only after it was filled or emptied. Neither end
//! ever blocks.
//!
//! What an end returns depends on the cursors as it reads them at that moment, and so on
//! what the other end has done by then. Each end keeps the cursors that it read last:
//! its result is stated over them.
//!
//! The cursors and slots are used as in [`FrameRing`](crate::utils::ring::FrameRing),
//! which shows the same queue as a single owner sees it.

use std::sync::atomic::{AtomicU32, AtomicUsize, Ordering};
use std::sync::Arc;
use crossbeam_utils::CachePadded;
use vstd::prelude::*;
use crate::frame::VDIFFrame;
use crate::utils::cursor::{
    checked_cursors, collapse_position, head_slot, increment, next_head, next_tail,
    seen_cursors_fit, tail_slot,
};

verus! {

/// The padded cell of `crossbeam_utils`, which keeps a value on a cache line of its own.
/// Nothing is known of a value of this type but what the functions below say.
#[verifier::external_type_specification]
#[verifier::external_body]
#[verifier::reject_recursive_types(T)]
pub struct ExCachePadded<T>(CachePadded<T>);

/// `CachePadded::new` pads and aligns a value to the length of a cache line. Nothing is
/// claimed of the result.
pub assume_specification<T>[ CachePadded::<T>::new ](t: T) -> (padded: CachePadded<T>);

/// Borrows the cursor inside its padded cell, by the cell's `deref`. Nothing is claimed
/// of the result.
#[verifier::external_body]
fn padded_cursor(padded: &CachePadded<AtomicUsize>) -> (cursor: &AtomicUsize) {
    core::ops::Deref::deref(padded)
}

/// The storage that the two ends of a queue share: the two cursors and the slots.
pub struct VDIFFIFO {
    frame_head: CachePadded<AtomicUsize>,
    frame_tail: CachePadded<AtomicUsize>,
    slots: Vec<AtomicU32>,
    frame_len: usize,
    frame_cap: usize,
}

impl VDIFFIFO {
    /// There is one slot of `frame_len` words for each of the `frame_cap` frames, and the
    /// cursors' range fits a `usize`.
    #[verifier::type_invariant]
    closed spec fn inv(self) -> bool {
        &&& self.slots@.len() == self.frame_cap * self.frame_len
        &&& self.frame_cap * self.frame_len <= usize::MAX
        &&& 2 * self.frame_cap <= usize::MAX
        &&& self.frame_len % 2 == 0
        &&& self.frame_len * 4 <= usize::MAX
    }

    /// The number of frames that the queue has room for.
    pub closed spec fn capacity(&self) -> nat {
        self.frame_cap as nat
    }

    /// The number of words of every frame.
    pub closed spec fn frame_words(&self) -> nat {
        self.frame_len as nat
    }

    /// Create a new buffer with an associated [`VDIFProducer`] and [`VDIFConsumer`].
    ///
    /// The buffer has room for `frame_cap` frames of `frame_size` bytes, a multiple of
    /// eight. It is empty.
    pub fn new(frame_cap: usize, frame_size: usize) -> (ends: (VDIFProducer, VDIFConsumer))
        requires
            frame_size % 8 == 0,
            2 * frame_cap <= usize::MAX,
            frame_cap * (frame_size / 4) <= usize::MAX,
        ensures
            ends.0.capacity() == frame_cap,
            ends.0.frame_words() == frame_size / 4,
            ends.0.seen_cursors() is None,
            ends.1.capacity() == frame_cap,
            ends.1.frame_words() == frame_size / 4,
            ends.1.seen_cursors() is None,
    {
        let frame_len = frame_size / 4;
        let total = frame_cap * frame_len;
        let mut slots: Vec<AtomicU32> = Vec::with_capacity(total);
        let mut i: usize = 0;
        while i < total
            invariant
                i <= total,
                slots@.len() == i,
            decreases total - i,
        {
            slots.push(AtomicU32::new(0));
            i = i + 1;
        }
        let buffer = Arc::new(
            VDIFFIFO {
                frame_head: CachePadded::new(AtomicUsize::new(0)),
                frame_tail: CachePadded::new(AtomicUsize::new(0)),
                slots,
                frame_len,
                frame_cap,
            },
        );
        let p = VDIFProducer { buffer: buffer.clone(), seen: None };
        let c = VDIFConsumer { buffer, seen: None };
        (p, c)
    }

    /// Get the capacity of this buffer in number of frames.
    pub fn frame_capacity(&self) -> (capacity: usize)
        ensures
            capacity == self.capacity(),
    {
        self.frame_cap
    }

    /// The two cursors as they are now, head first, or `None` where one of them is no
    /// cursor of this buffer. The ends of a buffer store cursors only, so `None` is never
    /// returned for a buffer that only they have written to.
    ///
    /// Both cursors are read with acquire ordering. What is read depends on what the two
    /// ends have stored by now: [`checked_cursors`] says what is returned for each pair of
    /// numbers that can be read.
    fn cursors(&self) -> (loaded: Option<(usize, usize)>)
        ensures
            seen_cursors_fit(self.capacity(), loaded),
    {
        let head = padded_cursor(&self.frame_head).load(Ordering::Acquire);
        let tail = padded_cursor(&self.frame_tail).load(Ordering::Acquire);
        proof {
            use_type_invariant(self);
        }
        checked_cursors(self.frame_cap, head, tail)
    }
}

/// The producer part of a [`VDIFFIFO`] buffer.
pub struct VDIFProducer {
    buffer: Arc<VDIFFIFO>,
    seen: Option<(usize, usize)>,
}

impl VDIFProducer {
    /// The number of frames that the queue has room for.
    pub closed spec fn capacity(&self) -> nat {
        self.buffer.capacity()
    }

    /// The number of words of every frame.
    pub closed spec fn frame_words(&self) -> nat {
        self.buffer.frame_words()
    }

    /// The head and the tail as this end read them at its last attempt to push: `None`
    /// before the first attempt, and where one of the two was no cursor of the buffer.
    pub closed spec fn seen_cursors(&self) -> Option<(usize, usize)> {
        self.seen
    }

    /// The head and the tail as this end read them at its last attempt to push.
    pub fn last_cursors(&self) -> (seen: Option<(usize, usize)>)
        ensures
            seen == self.seen_cursors(),
    {
        self.seen
    }

    /// Attempt to push data onto the buffer, returning an empty [`Some`] value if the buffer
    /// is full.
    ///
    /// The head and the tail are read, and kept. The buffer is full where they are
    /// `capacity` apart, which depends on what the consumer has taken out by now; a
    /// buffer without slots is always full. Where the buffer is not full, the words of
    /// `src` are stored in the slot at the tail and the tail moves on by one.
    pub fn try_push_from(&mut self, src: &[u32]) -> (full: Option<()>)
        requires
            src@.len() == old(self).frame_words(),
        ensures
            final(self).capacity() == old(self).capacity(),
            final(self).frame_words() == old(self).frame_words(),
            seen_cursors_fit(final(self).capacity(), final(self).seen_cursors()),
            full is None <==> tail_slot(final(self).capacity(), final(self).seen_cursors()) is Some,
            old(self).capacity() == 0 ==> full is Some,
    {
        match self.next_tail() {
            None => Some(()),
            Some(tail) => {
                let buffer: &VDIFFIFO = &self.buffer;
                proof {
                    use_type_invariant(buffer);
                }
                let slot = collapse_position(buffer.frame_cap, tail);
                assert(slot * buffer.frame_len + buffer.frame_len <= buffer.frame_cap
                    * buffer.frame_len) by (nonlinear_arith)
                    requires
                        0 <= slot < buffer.frame_cap,
                        0 <= buffer.frame_len,
                ;
                let base = slot * buffer.frame_len;
                let mut j: usize = 0;
                while j < buffer.frame_len
                    invariant
                        j <= buffer.frame_len,
                        src@.len() == buffer.frame_len,
                        base + buffer.frame_len <= buffer.slots@.len(),
                        buffer.slots@.len() <= usize::MAX,
                    decreases buffer.frame_len - j,
                {
                    buffer.slots[base + j].store(src[j], Ordering::Relaxed);
                    j = j + 1;
                }
                let tail = increment(buffer.frame_cap, tail);
                padded_cursor(&buffer.frame_tail).store(tail, Ordering::Release);
                None
            },
        }
    }

    /// Attempt to push a [`VDIFFrame`] onto the buffer, returning the same frame as [`Some`]
    /// if the buffer is full.
    ///
    /// The frame is taken where [`try_push_from`](Self::try_push_from) takes its words.
    pub fn try_push(&mut self, frame: VDIFFrame) -> (rejected: Option<VDIFFrame>)
        requires
            frame@.len() == old(self).frame_words(),
        ensures
            final(self).capacity() == old(self).capacity(),
            final(self).frame_words() == old(self).frame_words(),
            seen_cursors_fit(final(self).capacity(), final(self).seen_cursors()),
            rejected is None <==> tail_slot(
                final(self).capacity(),
                final(self).seen_cursors(),
            ) is Some,
            rejected is Some ==> rejected == Some(frame),
            old(self).capacity() == 0 ==> rejected is Some,
    {
        match self.try_push_from(frame.as_slice()) {
            Some(_) => Some(frame),
            None => None,
        }
    }

    /// The cursor of the slot to write next, or `None` where the buffer is full: the head
    /// and the tail are read and kept, and [`next_tail`] decides from them.
    fn next_tail(&mut self) -> (slot: Option<usize>)
        ensures
            final(self).capacity() == old(self).capacity(),
            final(self).frame_words() == old(self).frame_words(),
            seen_cursors_fit(final(self).capacity(), final(self).seen_cursors()),
            slot == tail_slot(final(self).capacity(), final(self).seen_cursors()),
            slot matches Some(tail) ==> tail < 2 * final(self).capacity(),
            slot is Some ==> final(self).capacity() > 0,
    {
        let seen = self.buffer.cursors();
        self.seen = seen;
        let buffer: &VDIFFIFO = &self.buffer;
        proof {
            use_type_invariant(buffer);
        }
        match seen {
            None => None,
            Some((head, tail)) => next_tail(buffer.frame_cap, head, tail),
        }
    }
}

/// The consumer part of a [`VDIFFIFO`] buffer.
pub struct VDIFConsumer {
    buffer: Arc<VDIFFIFO>,
    seen: Option<(usize, usize)>,
}

impl VDIFConsumer {
    /// The number of frames that the queue has room for.
    pub closed spec fn capacity(&self) -> nat {
        self.buffer.capacity()
    }

    /// The number of words of every frame.
    pub closed spec fn frame_words(&self) -> nat {
        self.buffer.frame_words()
    }

    /// The head and the tail as this end read them at its last attempt to pop: `None`
    /// before the first attempt, and where one of the two was no cursor of the buffer.
    pub closed spec fn seen_cursors(&self) -> Option<(usize, usize)> {
        self.seen
    }

    /// The head and the tail as this end read them at its last attempt to pop.
    pub fn last_cursors(&self) -> (seen: Option<(usize, usize)>)
        ensures
            seen == self.seen_cursors(),
    {
        self.seen
    }

    /// Attempt to pop data from the buffer, returning [`None`] if the buffer is empty.
    ///
    /// The head and the tail are read, and kept. The buffer is empty where they are
    /// equal, which depends on what the producer has put in by now; a buffer without
    /// slots is always empty. Where the buffer is not empty, the words of the slot at the
    /// head are copied to `dest` and the head moves on by one; else `dest` is left as it
    /// is.
    pub fn try_pop_to(&mut self, dest: &mut [u32]) -> (popped: Option<()>)
        requires
            old(dest)@.len() == old(self).frame_words(),
        ensures
            final(self).capacity() == old(self).capacity(),
            final(self).frame_words() == old(self).frame_words(),
            seen_cursors_fit(final(self).capacity(), final(self).seen_cursors()),
            popped is Some <==> head_slot(final(self).seen_cursors()) is Some,
            old(self).capacity() == 0 ==> popped is None,
            final(dest)@.len() == old(dest)@.len(),
            popped is None ==> final(dest)@ == old(dest)@,
    {
        match self.next_head() {
            None => None,
            Some(head) => {
                let buffer: &VDIFFIFO = &self.buffer;
                proof {
                    use_type_invariant(buffer);
                }
                let slot = collapse_position(buffer.frame_cap, head);
                assert(slot * buffer.frame_len + buffer.frame_len <= buffer.frame_cap
                    * buffer.frame_len) by (nonlinear_arith)
                    requires
                        0 <= slot < buffer.frame_cap,
                        0 <= buffer.frame_len,
                ;
                let base = slot * buffer.frame_len;
                let mut j: usize = 0;
                while j < buffer.frame_len
                    invariant
                        j <= buffer.frame_len,
                        dest@.len() == buffer.frame_len,
                        base + buffer.frame_len <= buffer.slots@.len(),
                        buffer.slots@.len() <= usize::MAX,
                    decreases buffer.frame_len - j,
                {
                    dest[j] = buffer.slots[base + j].load(Ordering::Relaxed);
                    j = j + 1;
                }
                let head = increment(buffer.frame_cap, head);
                padded_cursor(&buffer.frame_head).store(head, Ordering::Release);
                Some(())
            },
        }
    }

    /// Attempt to pop a [`VDIFFrame`] from the buffer, returning [`None`] if the buffer is
    /// empty.
    ///
    /// A frame is returned where [`try_pop_to`](Self::try_pop_to) copies its words.
    pub fn try_pop(&mut self) -> (popped: Option<VDIFFrame>)
        ensures
            final(self).capacity() == old(self).capacity(),
            final(self).frame_words() == old(self).frame_words(),
            seen_cursors_fit(final(self).capacity(), final(self).seen_cursors()),
            popped is Some <==> head_slot(final(self).seen_cursors()) is Some,
            old(self).capacity() == 0 ==> popped is None,
            popped matches Some(frame) ==> frame@.len() == old(self).frame_words() && frame.wf(),
    {
        let buffer: &VDIFFIFO = &self.buffer;
        proof {
            use_type_invariant(buffer);
        }
        let mut frame = VDIFFrame::new_empty(buffer.frame_len * 4);
        match self.try_pop_to(frame.as_mut_slice()) {
            Some(_) => Some(frame),
            None => None,
        }
    }

    /// The cursor of the slot to read next, or `None` where the buffer is empty: the head
    /// and the tail are read and kept, and [`next_head`] decides from them.
    fn next_head(&mut self) -> (slot: Option<usize>)
        ensures
            final(self).capacity() == old(self).capacity(),
            final(self).frame_words() == old(self).frame_words(),
            seen_cursors_fit(final(self).capacity(), final(self).seen_cursors()),
            slot == head_slot(final(self).seen_cursors()),
            slot matches Some(head) ==> head < 2 * final(self).capacity(),
            slot is Some ==> final(self).capacity() > 0,
    {
        let seen = self.buffer.cursors();
        self.seen = seen;
        match seen {
            None => None,
            Some((head, tail)) => next_head(head, tail),
        }
    }
}

} // verus!
