//! A ring of frame slots with a head and a tail cursor, as one owner sees it.
//!
//! [`FrameRing`] is the queue that the lock-free buffer of this crate shares between two
//! threads, without the sharing: one owner holds the slots and both cursors. What is
//! pushed comes out in the order in which it went in, and the ring holds as many frames
//! as it has slots.

use vstd::prelude::*;
use crate::frame::VDIFFrame;
use crate::utils::cursor::{
    collapse_position, cursor_after, cursor_distance, distance, increment, is_cursor,
    lemma_cursor_after, lemma_cursor_step, lemma_distance_step, lemma_slots_differ, next_head,
    next_tail, slot_of,
};

verus! {

/// What a queue of at most `capacity` items holds after a push: the item is appended
/// unless the queue is full.
pub open spec fn queue_pushed<T>(queue: Seq<T>, capacity: nat, item: T) -> Seq<T> {
    if queue.len() >= capacity {
        queue
    } else {
        queue.push(item)
    }
}

/// What a queue holds after a pop: the first item is gone unless the queue is empty.
pub open spec fn queue_popped<T>(queue: Seq<T>) -> Seq<T> {
    if queue.len() == 0 {
        queue
    } else {
        queue.drop_first()
    }
}

/// What a queue holds after all of `items` were pushed, one after the other.
pub open spec fn queue_pushed_all<T>(queue: Seq<T>, capacity: nat, items: Seq<T>) -> Seq<T>
    decreases items.len(),
{
    if items.len() == 0 {
        queue
    } else {
        queue_pushed(queue_pushed_all(queue, capacity, items.drop_last()), capacity, items.last())
    }
}

/// What a queue holds after `count` pops.
pub open spec fn queue_popped_n<T>(queue: Seq<T>, count: nat) -> Seq<T>
    decreases count,
{
    if count == 0 {
        queue
    } else {
        queue_popped(queue_popped_n(queue, (count - 1) as nat))
    }
}

/// Pushing items for which there is room appends them all, in order.
pub proof fn lemma_pushed_all<T>(queue: Seq<T>, capacity: nat, items: Seq<T>)
    requires
        queue.len() + items.len() <= capacity,
    ensures
        queue_pushed_all(queue, capacity, items) == queue + items,
    decreases items.len(),
{
    if items.len() == 0 {
        assert(queue + items =~= queue);
    } else {
        lemma_pushed_all(queue, capacity, items.drop_last());
        assert((queue + items.drop_last()).push(items.last()) =~= queue + items);
    }
}

/// Popping no more items than a queue holds removes them from its front.
pub proof fn lemma_popped_n<T>(queue: Seq<T>, count: nat)
    requires
        count <= queue.len(),
    ensures
        queue_popped_n(queue, count) == queue.subrange(count as int, queue.len() as int),
    decreases count,
{
    if count == 0 {
        assert(queue.subrange(0, queue.len() as int) =~= queue);
    } else {
        lemma_popped_n(queue, (count - 1) as nat);
        assert(queue.subrange(count - 1, queue.len() as int).drop_first() =~= queue.subrange(
            count as int,
            queue.len() as int,
        ));
    }
}

/// Capacity: after `capacity` frames were pushed into an empty ring without a pop, every
/// one of them is held and a further push fails, leaving the ring as it is; after one
/// pop, a push succeeds again.
pub proof fn lemma_ring_capacity(capacity: nat, frames: Seq<Seq<u32>>, extra: Seq<u32>)
    requires
        capacity > 0,
        frames.len() == capacity,
    ensures
        queue_pushed_all(Seq::empty(), capacity, frames) == frames,
        queue_pushed(frames, capacity, extra) == frames,
        queue_pushed(queue_popped(frames), capacity, extra) == frames.drop_first().push(extra),
{
    lemma_pushed_all(Seq::empty(), capacity, frames);
    assert(Seq::<Seq<u32>>::empty() + frames =~= frames);
}

/// First in, first out: after fewer frames than the capacity were pushed into an empty
/// ring, pop `i` returns the frame that push `i` stored, and after as many pops as
/// pushes the ring is empty.
pub proof fn lemma_ring_fifo(capacity: nat, frames: Seq<Seq<u32>>, i: nat)
    requires
        frames.len() < capacity,
        i < frames.len(),
    ensures
        queue_popped_n(queue_pushed_all(Seq::empty(), capacity, frames), i).len() > 0,
        queue_popped_n(queue_pushed_all(Seq::empty(), capacity, frames), i)[0] == frames[i as int],
        queue_popped_n(queue_pushed_all(Seq::empty(), capacity, frames), frames.len())
            == Seq::<Seq<u32>>::empty(),
{
    lemma_pushed_all(Seq::empty(), capacity, frames);
    assert(Seq::<Seq<u32>>::empty() + frames =~= frames);
    lemma_popped_n(frames, i);
    lemma_popped_n(frames, frames.len());
    assert(frames.subrange(frames.len() as int, frames.len() as int) =~= Seq::<Seq<u32>>::empty());
}

/// A ring buffer of frames of one size, owned by one party.
pub struct FrameRing {
    head: usize,
    tail: usize,
    data: Vec<u32>,
    frame_len: usize,
    frame_cap: usize,
}

/// The words of slot `slot` in a store of slots that are `frame_len` words long.
pub open spec fn slot_words(data: Seq<u32>, frame_len: int, slot: int) -> Seq<u32> {
    data.subrange(slot * frame_len, slot * frame_len + frame_len)
}

/// Slots lie side by side within the store.
proof fn lemma_slot_bounds(frame_cap: int, frame_len: int, slot: int, other: int)
    requires
        0 <= frame_len,
        0 <= slot < frame_cap,
        0 <= other < frame_cap,
    ensures
        0 <= slot * frame_len,
        slot * frame_len + frame_len <= frame_cap * frame_len,
        other < slot ==> other * frame_len + frame_len <= slot * frame_len,
        slot < other ==> slot * frame_len + frame_len <= other * frame_len,
{
    assert(0 <= slot * frame_len && slot * frame_len + frame_len <= frame_cap * frame_len)
        by (nonlinear_arith)
        requires
            0 <= frame_len,
            0 <= slot < frame_cap,
    ;
    if other < slot {
        assert(other * frame_len + frame_len <= slot * frame_len) by (nonlinear_arith)
            requires
                0 <= frame_len,
                0 <= other < slot,
        ;
    }
    if slot < other {
        assert(slot * frame_len + frame_len <= other * frame_len) by (nonlinear_arith)
            requires
                0 <= frame_len,
                0 <= slot < other,
        ;
    }
}

impl FrameRing {
    /// The number of frames that the ring has room for.
    pub closed spec fn capacity(&self) -> nat {
        self.frame_cap as nat
    }

    /// The number of words of every frame.
    pub closed spec fn frame_words(&self) -> nat {
        self.frame_len as nat
    }

    /// The cursors are cursors of this ring, no more than `capacity` apart, and the store
    /// has a slot for each frame, which is a whole number of eight byte units long.
    pub closed spec fn wf(&self) -> bool {
        &&& 2 * self.frame_cap <= usize::MAX
        &&& self.data@.len() == self.frame_cap * self.frame_len
        &&& self.frame_cap * self.frame_len <= usize::MAX
        &&& self.frame_len % 2 == 0
        &&& self.frame_len * 4 <= usize::MAX
        &&& is_cursor(self.frame_cap as nat, self.head as nat)
        &&& is_cursor(self.frame_cap as nat, self.tail as nat)
        &&& cursor_distance(self.frame_cap as nat, self.head as nat, self.tail as nat)
            <= self.frame_cap
    }

    /// The frame that is `i` places behind the head.
    closed spec fn held(&self, i: int) -> Seq<u32> {
        slot_words(
            self.data@,
            self.frame_len as int,
            slot_of(
                self.frame_cap as nat,
                cursor_after(self.frame_cap as nat, self.head as nat, i as nat),
            ) as int,
        )
    }

    /// Every frame that the ring holds has the ring's frame length.
    pub proof fn lemma_frames_sized(&self)
        requires
            self.wf(),
        ensures
            self@.len() <= self.capacity(),
            forall|i: int|
                0 <= i < self@.len() ==> (#[trigger] self@[i]).len() == self.frame_words(),
    {
        assert forall|i: int| 0 <= i < self@.len() implies (#[trigger] self@[i]).len()
            == self.frame_words() by {
            let slot = slot_of(
                self.frame_cap as nat,
                cursor_after(self.frame_cap as nat, self.head as nat, i as nat),
            );
            lemma_cursor_after(
                self.frame_cap as nat,
                self.head as nat,
                i as nat,
            );
            lemma_cursor_step(
                self.frame_cap as nat,
                cursor_after(self.frame_cap as nat, self.head as nat, i as nat),
            );
            lemma_slot_bounds(
                self.frame_cap as int,
                self.frame_len as int,
                slot as int,
                slot as int,
            );
        }
    }

    /// Construct a ring with room for `frame_cap` frames of `frame_size` bytes, a multiple
    /// of eight. It is empty.
    pub fn new(frame_cap: usize, frame_size: usize) -> (ring: Self)
        requires
            frame_size % 8 == 0,
            2 * frame_cap <= usize::MAX,
            frame_cap * (frame_size / 4) <= usize::MAX,
        ensures
            ring.wf(),
            ring@ == Seq::<Seq<u32>>::empty(),
            ring.capacity() == frame_cap,
            ring.frame_words() == frame_size / 4,
    {
        let frame_len = frame_size / 4;
        let data = vec![0u32; frame_cap * frame_len];
        let ring = FrameRing { head: 0, tail: 0, data, frame_len, frame_cap };
        assert(ring@ =~= Seq::<Seq<u32>>::empty());
        ring
    }

    /// Get the capacity of this buffer in number of frames.
    pub fn frame_capacity(&self) -> (capacity: usize)
        ensures
            capacity == self.capacity(),
    {
        self.frame_cap
    }

    /// Get the number of words of every frame of this buffer.
    pub fn frame_len(&self) -> (words: usize)
        ensures
            words == self.frame_words(),
    {
        self.frame_len
    }

    /// The number of frames that the ring holds.
    pub fn len(&self) -> (count: usize)
        requires
            self.wf(),
        ensures
            count == self@.len(),
    {
        distance(self.frame_cap, self.head, self.tail)
    }

    /// Whether the ring holds no frame.
    pub fn is_empty(&self) -> (empty: bool)
        requires
            self.wf(),
        ensures
            empty == (self@.len() == 0),
    {
        self.head == self.tail
    }

    /// Whether the ring has no room for another frame.
    pub fn is_full(&self) -> (full: bool)
        requires
            self.wf(),
        ensures
            full == (self@.len() == self.capacity()),
    {
        distance(self.frame_cap, self.head, self.tail) == self.frame_cap
    }

    /// Attempt to push data onto the buffer, returning an empty [`Some`] value if the
    /// buffer is full. A full buffer is left as it is.
    pub fn try_push_from(&mut self, src: &[u32]) -> (full: Option<()>)
        requires
            old(self).wf(),
            src@.len() == old(self).frame_words(),
        ensures
            final(self).wf(),
            final(self).capacity() == old(self).capacity(),
            final(self).frame_words() == old(self).frame_words(),
            full is Some <==> old(self)@.len() == old(self).capacity(),
            final(self)@ == queue_pushed(old(self)@, old(self).capacity(), src@),
    {
        match next_tail(self.frame_cap, self.head, self.tail) {
            None => Some(()),
            Some(tail) => {
                let slot = collapse_position(self.frame_cap, tail);
                proof {
                    lemma_slot_bounds(
                        self.frame_cap as int,
                        self.frame_len as int,
                        slot as int,
                        slot as int,
                    );
                }
                let base = slot * self.frame_len;
                let mut j: usize = 0;
                while j < self.frame_len
                    invariant
                        j <= self.frame_len,
                        src@.len() == self.frame_len,
                        base == slot * self.frame_len,
                        base + self.frame_len <= self.data@.len(),
                        self.data@.len() <= usize::MAX,
                        self.data@.len() == old(self).data@.len(),
                        self.head == old(self).head,
                        self.tail == old(self).tail,
                        self.frame_len == old(self).frame_len,
                        self.frame_cap == old(self).frame_cap,
                        forall|k: int| 0 <= k < j ==> #[trigger] self.data@[base + k] == src@[k],
                        forall|k: int|
                            0 <= k < self.data@.len() && !(base <= k < base + self.frame_len)
                                ==> #[trigger] self.data@[k] == old(self).data@[k],
                    decreases self.frame_len - j,
                {
                    self.data[base + j] = src[j];
                    j = j + 1;
                }
                self.tail = increment(self.frame_cap, tail);
                proof {
                    let cap = self.frame_cap as nat;
                    let len = self.frame_len as int;
                    let head = self.head as nat;
                    let count = old(self)@.len();
                    lemma_distance_step(cap, head, tail as nat);
                    lemma_cursor_after(cap, head, count);
                    assert forall|k: int| 0 <= k < len implies #[trigger] slot_words(
                        self.data@,
                        len,
                        slot as int,
                    )[k] == src@[k] by {
                        assert(self.data@[base + k] == src@[k]);
                    }
                    assert(slot_words(self.data@, len, slot as int) =~= src@);
                    assert forall|i: int| 0 <= i < count implies #[trigger] self.held(i) == old(
                        self,
                    ).held(i) by {
                        let other = slot_of(cap, cursor_after(cap, head, i as nat)) as int;
                        lemma_cursor_after(cap, head, i as nat);
                        lemma_cursor_step(cap, cursor_after(cap, head, i as nat));
                        assert(tail == cursor_after(cap, head, count));
                        lemma_slots_differ(cap, head, i as nat, count);
                        lemma_slot_bounds(cap as int, len, slot as int, other);
                        lemma_slot_bounds(cap as int, len, other, slot as int);
                        assert forall|k: int| 0 <= k < len implies #[trigger] slot_words(
                            self.data@,
                            len,
                            other,
                        )[k] == slot_words(old(self).data@, len, other)[k] by {
                            let at = other * len + k;
                            assert(self.data@[at] == old(self).data@[at]);
                        }
                        assert(slot_words(self.data@, len, other) =~= slot_words(
                            old(self).data@,
                            len,
                            other,
                        ));
                    }
                    assert(self@ =~= old(self)@.push(src@));
                }
                None
            },
        }
    }

    /// Attempt to push a [`VDIFFrame`] onto the buffer, returning the same frame as
    /// [`Some`] if the buffer is full.
    pub fn try_push(&mut self, frame: VDIFFrame) -> (rejected: Option<VDIFFrame>)
        requires
            old(self).wf(),
            frame@.len() == old(self).frame_words(),
        ensures
            final(self).wf(),
            final(self).capacity() == old(self).capacity(),
            final(self).frame_words() == old(self).frame_words(),
            rejected is Some <==> old(self)@.len() == old(self).capacity(),
            rejected is Some ==> rejected == Some(frame),
            final(self)@ == queue_pushed(old(self)@, old(self).capacity(), frame@),
    {
        match self.try_push_from(frame.as_slice()) {
            Some(_) => Some(frame),
            None => None,
        }
    }

    /// Attempt to pop data from the buffer, returning [`None`] if the buffer is empty. An
    /// empty buffer leaves `dest` as it is.
    pub fn try_pop_to(&mut self, dest: &mut [u32]) -> (popped: Option<()>)
        requires
            old(self).wf(),
            old(dest)@.len() == old(self).frame_words(),
        ensures
            final(self).wf(),
            final(self).capacity() == old(self).capacity(),
            final(self).frame_words() == old(self).frame_words(),
            popped is Some <==> old(self)@.len() > 0,
            popped is Some ==> final(dest)@ == old(self)@[0],
            popped is None ==> final(dest)@ == old(dest)@,
            final(self)@ == queue_popped(old(self)@),
    {
        match next_head(self.head, self.tail) {
            None => None,
            Some(head) => {
                let slot = collapse_position(self.frame_cap, head);
                proof {
                    lemma_slot_bounds(
                        self.frame_cap as int,
                        self.frame_len as int,
                        slot as int,
                        slot as int,
                    );
                    lemma_cursor_after(self.frame_cap as nat, head as nat, 0);
                }
                let base = slot * self.frame_len;
                let mut j: usize = 0;
                while j < self.frame_len
                    invariant
                        j <= self.frame_len,
                        dest@.len() == self.frame_len,
                        base == slot * self.frame_len,
                        base + self.frame_len <= self.data@.len(),
                        self.data@.len() <= usize::MAX,
                        forall|k: int| 0 <= k < j ==> #[trigger] dest@[k] == self.data@[base + k],
                    decreases self.frame_len - j,
                {
                    dest[j] = self.data[base + j];
                    j = j + 1;
                }
                self.head = increment(self.frame_cap, head);
                proof {
                    let cap = self.frame_cap as nat;
                    let count = old(self)@.len();
                    lemma_distance_step(cap, head as nat, self.tail as nat);
                    assert(dest@ =~= old(self)@[0]);
                    assert forall|i: int| 0 <= i < count - 1 implies #[trigger] self.held(i)
                        == old(self).held(i + 1) by {
                        lemma_cursor_after(cap, head as nat, i as nat);
                    }
                    assert(self@ =~= old(self)@.drop_first());
                }
                Some(())
            },
        }
    }

    /// Attempt to pop a [`VDIFFrame`] from the buffer, returning [`None`] if the buffer is
    /// empty.
    pub fn try_pop(&mut self) -> (popped: Option<VDIFFrame>)
        requires
            old(self).wf(),
        ensures
            final(self).wf(),
            final(self).capacity() == old(self).capacity(),
            final(self).frame_words() == old(self).frame_words(),
            popped is Some <==> old(self)@.len() > 0,
            popped is Some ==> popped->0@ == old(self)@[0] && popped->0.wf(),
            final(self)@ == queue_popped(old(self)@),
    {
        proof {
            self.lemma_frames_sized();
        }
        let mut frame = VDIFFrame::new_empty(self.frame_len * 4);
        match self.try_pop_to(frame.as_mut_slice()) {
            Some(_) => Some(frame),
            None => None,
        }
    }
}

impl View for FrameRing {
    type V = Seq<Seq<u32>>;

    /// The frames that the ring holds, the oldest first.
    closed spec fn view(&self) -> Seq<Seq<u32>> {
        Seq::new(
            cursor_distance(self.frame_cap as nat, self.head as nat, self.tail as nat),
            |i: int| self.held(i),
        )
    }
}

} // verus!
