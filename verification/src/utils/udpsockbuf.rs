//! The buffer pool of a batched VDIF/UDP receiver.
//!
//! A receiver that takes many datagrams from its socket in one call keeps them in a pool
//! and serves them one at a time. [`UDPSocketBuf`] is that pool with its cursor. The call
//! that fills it is made by whoever holds the socket: when the pool is exhausted,
//! [`needs_batch`](UDPSocketBuf::needs_batch) says so, and the datagrams of the next
//! batch are handed to [`recv_batch`](UDPSocketBuf::recv_batch). A batch of no datagrams
//! means that nothing is available now; it is not an end of the stream.

use vstd::prelude::*;
use crate::error::DataError;
use crate::frame::VDIFFrame;
use crate::utils::ring::{lemma_popped_n, queue_popped, queue_popped_n};
use crate::word_bytes::{bytes_as_words, copy_words_from_bytes};

verus! {

/// The frames that a batch of datagrams holds.
pub open spec fn batch_frames(datagrams: Seq<Vec<u8>>) -> Seq<Seq<u32>> {
    Seq::new(datagrams.len(), |i: int| bytes_as_words(datagrams[i]@))
}

/// Whether every datagram of a batch has exactly `size` bytes.
pub open spec fn batch_sized(datagrams: Seq<Vec<u8>>, size: nat) -> bool {
    forall|i: int| 0 <= i < datagrams.len() ==> (#[trigger] datagrams[i])@.len() == size
}

/// Exhaustion of a batch: after a batch of `k` frames was received, each of the next `k`
/// calls finds a frame, call `i` the frame at place `i` of the batch, and the call after
/// them finds none, so that a new batch has to be received.
pub proof fn lemma_batch_exhaustion<T>(batch: Seq<T>, i: nat)
    requires
        i < batch.len(),
    ensures
        queue_popped_n(batch, i).len() > 0,
        queue_popped_n(batch, i)[0] == batch[i as int],
        queue_popped_n(batch, batch.len()).len() == 0,
{
    lemma_popped_n(batch, i);
    lemma_popped_n(batch, batch.len());
}

/// A high performance VDIF/UDP packet receiver's pool of frames, designed to handle large
/// input data rates.
pub struct UDPSocketBuf {
    frame_cap: usize,
    frame_len: usize,
    frame_num: usize,
    frame_ind: usize,
    packet_count: u64,
    bufs: Vec<Vec<u32>>,
}

impl UDPSocketBuf {
    /// The pool has a buffer of the frame size for each datagram of a batch, and the
    /// cursor lies within the buffers that the last batch filled.
    pub closed spec fn wf(&self) -> bool {
        &&& self.frame_ind <= self.frame_num <= self.frame_cap
        &&& self.bufs@.len() == self.frame_cap
        &&& self.frame_len % 2 == 0
        &&& self.frame_len * 4 <= usize::MAX
        &&& forall|i: int|
            0 <= i < self.bufs@.len() ==> (#[trigger] self.bufs@[i])@.len() == self.frame_len
    }

    /// The number of datagrams that one batch can hold.
    pub closed spec fn capacity(&self) -> nat {
        self.frame_cap as nat
    }

    /// The number of words of every frame.
    pub closed spec fn frame_words(&self) -> nat {
        self.frame_len as nat
    }

    /// The number of frames that were served so far. The count stays at its largest value
    /// once it has reached it.
    pub closed spec fn packets(&self) -> u64 {
        self.packet_count
    }

    /// The frames of the last batch that were not served yet, the next one first.
    pub closed spec fn pending(&self) -> Seq<Seq<u32>> {
        Seq::new(
            (self.frame_num - self.frame_ind) as nat,
            |i: int| self.bufs@[self.frame_ind + i]@,
        )
    }

    /// Create a new pool.
    ///
    /// The pool has `framebuf_size` buffers for frames of size `frame_size`, allocated
    /// here once and for all. It starts out exhausted.
    pub fn new(frame_size: usize, framebuf_size: usize) -> (pool: Self)
        requires
            frame_size % 8 == 0,
        ensures
            pool.wf(),
            pool.capacity() == framebuf_size,
            pool.frame_words() == frame_size / 4,
            pool.pending() == Seq::<Seq<u32>>::empty(),
            pool.packets() == 0,
    {
        let frame_len = frame_size / 4;
        let mut bufs: Vec<Vec<u32>> = Vec::with_capacity(framebuf_size);
        let mut i: usize = 0;
        while i < framebuf_size
            invariant
                i <= framebuf_size,
                bufs@.len() == i,
                forall|j: int| 0 <= j < i ==> (#[trigger] bufs@[j])@.len() == frame_len,
            decreases framebuf_size - i,
        {
            bufs.push(vec![0u32; frame_len]);
            i = i + 1;
        }
        let pool = UDPSocketBuf {
            frame_cap: framebuf_size,
            frame_len,
            frame_num: 0,
            frame_ind: 0,
            packet_count: 0,
            bufs,
        };
        assert(pool.pending() =~= Seq::<Seq<u32>>::empty());
        pool
    }

    /// Whether every frame of the last batch was served, so that the next frame has to
    /// come from a new batch.
    pub fn needs_batch(&self) -> (exhausted: bool)
        requires
            self.wf(),
        ensures
            exhausted == (self.pending().len() == 0),
    {
        self.frame_ind >= self.frame_num
    }

    /// Get the number of datagrams that one batch can hold.
    pub fn frame_capacity(&self) -> (capacity: usize)
        ensures
            capacity == self.capacity(),
    {
        self.frame_cap
    }

    /// Get the number of frames that were served so far.
    pub fn packet_count(&self) -> (count: u64)
        ensures
            count == self.packets(),
    {
        self.packet_count
    }

    /// Fill the pool with the datagrams of one batched receive.
    ///
    /// This overwrites the contents of the pool: what was not served before is gone. The
    /// number of datagrams is returned. A batch that is larger than the pool, or that
    /// holds a datagram which has not the size of a frame, is refused as a whole and
    /// leaves the pool exhausted.
    pub fn recv_batch(&mut self, datagrams: &[Vec<u8>]) -> (received: Result<usize, DataError>)
        requires
            old(self).wf(),
        ensures
            final(self).wf(),
            final(self).capacity() == old(self).capacity(),
            final(self).frame_words() == old(self).frame_words(),
            final(self).packets() == old(self).packets(),
            received is Ok <==> datagrams@.len() <= old(self).capacity() && batch_sized(
                datagrams@,
                old(self).frame_words() * 4,
            ),
            received is Ok ==> received == Ok::<usize, DataError>(datagrams@.len() as usize)
                && final(self).pending() == batch_frames(datagrams@),
            received is Err ==> received == Err::<usize, DataError>(DataError::WrongSize)
                && final(self).pending() == Seq::<Seq<u32>>::empty(),
    {
        self.frame_num = 0;
        self.frame_ind = 0;
        let count = datagrams.len();
        if count > self.frame_cap {
            assert(self.pending() =~= Seq::<Seq<u32>>::empty());
            return Err(DataError::WrongSize);
        }
        let size = self.frame_len * 4;
        let mut i: usize = 0;
        while i < count
            invariant
                i <= count,
                count == datagrams@.len(),
                count <= self.frame_cap,
                size == self.frame_len * 4,
                self.wf(),
                self.frame_num == 0,
                self.frame_ind == 0,
                self.frame_cap == old(self).frame_cap,
                self.frame_len == old(self).frame_len,
                self.packet_count == old(self).packet_count,
                forall|j: int| 0 <= j < i ==> (#[trigger] datagrams@[j])@.len() == size,
                forall|j: int|
                    0 <= j < i ==> (#[trigger] self.bufs@[j])@ == bytes_as_words(datagrams@[j]@),
            decreases count - i,
        {
            if datagrams[i].len() != size {
                assert(self.pending() =~= Seq::<Seq<u32>>::empty());
                return Err(DataError::WrongSize);
            }
            copy_words_from_bytes(&mut self.bufs[i], datagrams[i].as_slice());
            i = i + 1;
        }
        self.frame_num = count;
        assert(self.pending() =~= batch_frames(datagrams@));
        Ok(count)
    }

    /// Receive a [`VDIFFrame`] from the pool: the next frame of the last batch, or `None`
    /// where the batch is exhausted and a new one has to be received first.
    pub fn recv_frame(&mut self) -> (frame: Option<VDIFFrame>)
        requires
            old(self).wf(),
        ensures
            final(self).wf(),
            final(self).capacity() == old(self).capacity(),
            final(self).frame_words() == old(self).frame_words(),
            frame is Some <==> old(self).pending().len() > 0,
            frame is Some ==> frame->0@ == old(self).pending()[0] && frame->0.wf(),
            final(self).pending() == queue_popped(old(self).pending()),
            final(self).packets() == if frame is Some && old(self).packets() < u64::MAX {
                (old(self).packets() + 1) as u64
            } else {
                old(self).packets()
            },
    {
        let mut outframe = VDIFFrame::new_empty(self.frame_len * 4);
        if self.recv_frame_to(outframe.as_mut_slice()) {
            Some(outframe)
        } else {
            None
        }
    }

    /// Receive a single frame from the pool directed to `dest`. Returns whether there was
    /// one: where the last batch is exhausted, `dest` is left as it is and a new batch has
    /// to be received first.
    pub fn recv_frame_to(&mut self, dest: &mut [u32]) -> (served: bool)
        requires
            old(self).wf(),
            old(dest)@.len() == old(self).frame_words(),
        ensures
            final(self).wf(),
            final(self).capacity() == old(self).capacity(),
            final(self).frame_words() == old(self).frame_words(),
            served == (old(self).pending().len() > 0),
            served ==> final(dest)@ == old(self).pending()[0],
            !served ==> final(dest)@ == old(dest)@,
            final(self).pending() == queue_popped(old(self).pending()),
            final(self).packets() == if served && old(self).packets() < u64::MAX {
                (old(self).packets() + 1) as u64
            } else {
                old(self).packets()
            },
    {
        if self.frame_ind >= self.frame_num {
            return false;
        }
        let mut j: usize = 0;
        while j < self.frame_len
            invariant
                j <= self.frame_len,
                self.wf(),
                self.frame_ind < self.frame_num,
                dest@.len() == self.frame_len,
                forall|k: int|
                    0 <= k < j ==> #[trigger] dest@[k] == self.bufs@[self.frame_ind as int]@[k],
            decreases self.frame_len - j,
        {
            dest[j] = self.bufs[self.frame_ind][j];
            j = j + 1;
        }
        assert(dest@ =~= old(self).pending()[0]);
        self.frame_ind = self.frame_ind + 1;
        if self.packet_count < u64::MAX {
            self.packet_count = self.packet_count + 1;
        }
        assert(self.pending() =~= old(self).pending().drop_first());
        true
    }
}

} // verus!
