//! The cursors of a ring of `capacity` slots.
//!
//! A cursor ranges over `[0, 2 * capacity)`, twice the number of slots. With the doubled
//! range two equal cursors mean an empty ring and two cursors that are `capacity` apart
//! a full one: no slot is wasted and no counter is kept.

use vstd::prelude::*;

verus! {

/// Whether `pos` is a cursor of a ring of `capacity` slots.
pub open spec fn is_cursor(capacity: nat, pos: nat) -> bool {
    pos == 0 || pos < 2 * capacity
}

/// The slot that a cursor stands for.
pub open spec fn slot_of(capacity: nat, pos: nat) -> nat {
    if pos < capacity {
        pos
    } else {
        (pos - capacity) as nat
    }
}

/// The cursor after `pos`.
pub open spec fn next_cursor(capacity: nat, pos: nat) -> nat {
    if pos + 1 < 2 * capacity {
        pos + 1
    } else {
        0
    }
}

/// The number of steps from cursor `a` to cursor `b`.
pub open spec fn cursor_distance(capacity: nat, a: nat, b: nat) -> nat {
    if a <= b {
        (b - a) as nat
    } else {
        (2 * capacity - a + b) as nat
    }
}

/// The cursor `steps` steps after `pos`, for fewer steps than there are cursors.
pub open spec fn cursor_after(capacity: nat, pos: nat, steps: nat) -> nat {
    if pos + steps < 2 * capacity {
        pos + steps
    } else {
        (pos + steps - 2 * capacity) as nat
    }
}

/// Two numbers that were read as the head and the tail of a ring, kept where both are
/// cursors of the ring and dropped where one of them is not.
pub open spec fn cursor_pair(capacity: nat, head: usize, tail: usize) -> Option<(usize, usize)> {
    if is_cursor(capacity, head as nat) && is_cursor(capacity, tail as nat) {
        Some((head, tail))
    } else {
        None
    }
}

/// Where the producer writes, as the cursors that it has read decide it: at the tail,
/// unless the two are `capacity` apart, and nowhere where no cursors were read.
pub open spec fn tail_slot(capacity: nat, seen: Option<(usize, usize)>) -> Option<usize> {
    match seen {
        Some((head, tail)) => if cursor_distance(capacity, head as nat, tail as nat) == capacity {
            None
        } else {
            Some(tail)
        },
        None => None,
    }
}

/// Where the consumer reads, as the cursors that it has read decide it: at the head,
/// unless the two are equal, and nowhere where no cursors were read.
pub open spec fn head_slot(seen: Option<(usize, usize)>) -> Option<usize> {
    match seen {
        Some((head, tail)) => if head == tail {
            None
        } else {
            Some(head)
        },
        None => None,
    }
}

/// Whether what an end of a ring has read is nothing or a pair of cursors of the ring.
pub open spec fn seen_cursors_fit(capacity: nat, seen: Option<(usize, usize)>) -> bool {
    seen matches Some((head, tail)) ==> is_cursor(capacity, head as nat) && is_cursor(
        capacity,
        tail as nat,
    )
}

/// The head and the tail as they were read, where both are cursors of the ring.
pub fn checked_cursors(capacity: usize, head: usize, tail: usize) -> (pair: Option<(usize, usize)>)
    requires
        2 * capacity <= usize::MAX,
    ensures
        pair == cursor_pair(capacity as nat, head, tail),
{
    let limit = 2 * capacity;
    if (head == 0 || head < limit) && (tail == 0 || tail < limit) {
        Some((head, tail))
    } else {
        None
    }
}

/// The slot index that a cursor stands for.
pub fn collapse_position(capacity: usize, pos: usize) -> (slot: usize)
    requires
        is_cursor(capacity as nat, pos as nat),
    ensures
        slot == slot_of(capacity as nat, pos as nat),
        capacity > 0 ==> slot < capacity,
{
    if pos < capacity {
        pos
    } else {
        pos - capacity
    }
}

/// The cursor after `pos`: one more, and zero after the last.
pub fn increment(capacity: usize, pos: usize) -> (next: usize)
    requires
        capacity > 0,
        2 * capacity <= usize::MAX,
        pos < 2 * capacity,
    ensures
        next == next_cursor(capacity as nat, pos as nat),
        next < 2 * capacity,
{
    if pos < 2 * capacity - 1 {
        pos + 1
    } else {
        0
    }
}

/// The number of steps from cursor `a` to cursor `b`.
pub fn distance(capacity: usize, a: usize, b: usize) -> (steps: usize)
    requires
        2 * capacity <= usize::MAX,
        is_cursor(capacity as nat, a as nat),
        is_cursor(capacity as nat, b as nat),
    ensures
        steps == cursor_distance(capacity as nat, a as nat, b as nat),
{
    if a <= b {
        b - a
    } else {
        2 * capacity - a + b
    }
}

/// Where the producer writes next, decided from the two cursors: nowhere when they are
/// `capacity` apart, for then the ring is full, and else at the tail.
pub fn next_tail(capacity: usize, head: usize, tail: usize) -> (slot: Option<usize>)
    requires
        2 * capacity <= usize::MAX,
        is_cursor(capacity as nat, head as nat),
        is_cursor(capacity as nat, tail as nat),
    ensures
        slot == if cursor_distance(capacity as nat, head as nat, tail as nat) == capacity {
            None
        } else {
            Some(tail)
        },
{
    if distance(capacity, head, tail) == capacity {
        None
    } else {
        Some(tail)
    }
}

/// Where the consumer reads next, decided from the two cursors: nowhere when they are
/// equal, for then the ring is empty, and else at the head.
pub fn next_head(head: usize, tail: usize) -> (slot: Option<usize>)
    ensures
        slot == if head == tail {
            None
        } else {
            Some(head)
        },
{
    if head == tail {
        None
    } else {
        Some(head)
    }
}

/// A ring without slots is full and empty at once: whatever its ends read, the producer
/// finds no slot to write and the consumer none to read.
pub proof fn lemma_no_slots(seen: Option<(usize, usize)>)
    requires
        seen_cursors_fit(0, seen),
    ensures
        tail_slot(0, seen) is None,
        head_slot(seen) is None,
{
}

/// Stepping from a cursor keeps it a cursor, and the slot that it stands for is a slot of
/// the ring.
pub proof fn lemma_cursor_step(capacity: nat, pos: nat)
    requires
        capacity > 0,
        pos < 2 * capacity,
    ensures
        next_cursor(capacity, pos) < 2 * capacity,
        slot_of(capacity, pos) < capacity,
{
}

/// Moving the far cursor one step forward makes the distance one larger, as long as the
/// distance is below twice the capacity; moving the near one makes it one smaller, as
/// long as it is above zero.
pub proof fn lemma_distance_step(capacity: nat, a: nat, b: nat)
    requires
        capacity > 0,
        a < 2 * capacity,
        b < 2 * capacity,
    ensures
        cursor_distance(capacity, a, b) < 2 * capacity,
        cursor_distance(capacity, a, b) + 1 < 2 * capacity ==> cursor_distance(
            capacity,
            a,
            next_cursor(capacity, b),
        ) == cursor_distance(capacity, a, b) + 1,
        cursor_distance(capacity, a, b) > 0 ==> cursor_distance(
            capacity,
            next_cursor(capacity, a),
            b,
        ) == cursor_distance(capacity, a, b) - 1,
        cursor_distance(capacity, a, b) == 0 <==> a == b,
        cursor_after(capacity, a, cursor_distance(capacity, a, b)) == b,
{
}

/// The cursor some steps after another is a cursor, and as many steps away. One step
/// more leads to the next cursor.
pub proof fn lemma_cursor_after(capacity: nat, pos: nat, steps: nat)
    requires
        capacity > 0,
        pos < 2 * capacity,
        steps < 2 * capacity,
    ensures
        cursor_after(capacity, pos, steps) < 2 * capacity,
        cursor_distance(capacity, pos, cursor_after(capacity, pos, steps)) == steps,
        cursor_after(capacity, pos, 0) == pos,
        cursor_after(capacity, pos, 1) == next_cursor(capacity, pos),
        steps + 1 < 2 * capacity ==> cursor_after(capacity, pos, steps + 1) == next_cursor(
            capacity,
            cursor_after(capacity, pos, steps),
        ),
        steps + 1 < 2 * capacity ==> cursor_after(capacity, next_cursor(capacity, pos), steps)
            == cursor_after(capacity, pos, steps + 1),
{
}

/// Cursors that are less than `capacity` steps apart stand for different slots.
pub proof fn lemma_slots_differ(capacity: nat, pos: nat, i: nat, j: nat)
    requires
        capacity > 0,
        pos < 2 * capacity,
        i < j,
        j - i < capacity,
        j < 2 * capacity,
    ensures
        slot_of(capacity, cursor_after(capacity, pos, i)) != slot_of(
            capacity,
            cursor_after(capacity, pos, j),
        ),
{
}

} // verus!
