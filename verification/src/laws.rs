//! What holds of a ring after any run of insertions.

use vstd::arithmetic::div_mod::{
    lemma_fundamental_div_mod, lemma_fundamental_div_mod_converse, lemma_mod_pos_bound,
    lemma_small_mod,
};
use vstd::prelude::*;
use crate::layout::FRAME_LEN;
use crate::model::{contiguous_from, frame_sized, samples_of, RingModel};
use crate::payload::PayloadModel;

verus! {

/// The smaller of two numbers.
pub open spec fn min(a: nat, b: nat) -> nat {
    if a <= b {
        a
    } else {
        b
    }
}

/// An empty ring of at least one slot is well formed, retains nothing and
/// has no oldest sequence number.
pub proof fn lemma_empty(capacity: nat)
    requires
        capacity >= 1,
    ensures
        RingModel::empty(capacity).wf(),
        RingModel::empty(capacity).capacity() == capacity,
        RingModel::empty(capacity).len() == 0,
        RingModel::empty(capacity).oldest is None,
        RingModel::empty(capacity).chronological() == Seq::<Seq<i8>>::empty(),
{
    assert(RingModel::empty(capacity).chronological() =~= Seq::<Seq<i8>>::empty());
}

/// An insertion keeps a ring well formed and its capacity unchanged. It
/// adds one to the number of retained frames unless the ring was full, and
/// it changes no state but the written slot, the cursor, the fullness and
/// the oldest sequence number.
pub proof fn lemma_push(ring: RingModel, frame: PayloadModel)
    requires
        ring.wf(),
        frame.samples.len() == FRAME_LEN,
    ensures
        ring.push(frame).wf(),
        ring.push(frame).capacity() == ring.capacity(),
        ring.push(frame).len() == min(ring.len() + 1, ring.capacity()),
        ring.full ==> ring.push(frame).full,
        ring.push(frame).oldest is Some,
        forall|i: int|
            0 <= i < ring.capacity() && i != ring.cursor ==> ring.push(frame).slots[i]
                == ring.slots[i],
        ring.push(frame).slots[ring.cursor as int] == frame.samples,
{
    let after = ring.push(frame);
    assert forall|i: int| 0 <= i < after.slots.len() implies (#[trigger] after.slots[i]).len()
        == FRAME_LEN by {
        if i != ring.cursor {
            assert(after.slots[i] == ring.slots[i]);
        }
    }
}

/// The retained frames after an insertion are those before it, without the
/// oldest if the ring was full, followed by the inserted frame.
pub proof fn lemma_push_chronological(ring: RingModel, frame: PayloadModel)
    requires
        ring.wf(),
    ensures
        ring.push(frame).chronological() == if ring.full {
            ring.chronological().drop_first().push(frame.samples)
        } else {
            ring.chronological().push(frame.samples)
        },
{
    let after = ring.push(frame);
    if ring.full {
        assert(after.chronological() =~= ring.chronological().drop_first().push(frame.samples));
    } else {
        assert(after.chronological() =~= ring.chronological().push(frame.samples));
    }
}

/// After the insertion of any frames into an empty ring, the ring retains
/// the last `capacity` of them, or all if they are fewer, in the order of
/// their insertion. It is full exactly when at least `capacity` frames were
/// inserted, and its oldest sequence number is that of the first frame plus
/// the number of evictions.
pub proof fn lemma_after_insertions(capacity: nat, frames: Seq<PayloadModel>)
    requires
        capacity >= 1,
        frame_sized(frames),
    ensures
        RingModel::empty(capacity).push_all(frames).wf(),
        RingModel::empty(capacity).push_all(frames).capacity() == capacity,
        RingModel::empty(capacity).push_all(frames).len() == min(frames.len(), capacity),
        RingModel::empty(capacity).push_all(frames).full == (frames.len() >= capacity),
        RingModel::empty(capacity).push_all(frames).cursor == frames.len() % capacity,
        RingModel::empty(capacity).push_all(frames).oldest == if frames.len() == 0 {
            None::<nat>
        } else if frames.len() <= capacity {
            Some(frames[0].count as nat)
        } else {
            Some((frames[0].count + frames.len() - capacity) as nat)
        },
        RingModel::empty(capacity).push_all(frames).chronological() == samples_of(frames).subrange(
            frames.len() - min(frames.len(), capacity),
            frames.len() as int,
        ),
    decreases frames.len(),
{
    let ring = RingModel::empty(capacity).push_all(frames);
    if frames.len() == 0 {
        lemma_empty(capacity);
        assert(ring.chronological() =~= samples_of(frames).subrange(0, 0));
        assert(0nat % capacity == 0) by (nonlinear_arith)
            requires
                capacity >= 1,
        ;
    } else {
        let earlier = frames.drop_last();
        let before = RingModel::empty(capacity).push_all(earlier);
        assert(frame_sized(earlier));
        lemma_after_insertions(capacity, earlier);
        lemma_push(before, frames.last());
        lemma_push_chronological(before, frames.last());
        assert(ring == before.push(frames.last()));
        assert(earlier.len() > 0 ==> earlier[0] == frames[0]);
        lemma_cursor_step(earlier.len(), capacity);
        assert(ring.chronological() =~= samples_of(frames).subrange(
            frames.len() - min(frames.len(), capacity),
            frames.len() as int,
        ));
    }
}

/// Counting modulo `capacity`: one more insertion moves the remainder on by
/// one, or back to zero from `capacity - 1`.
proof fn lemma_cursor_step(count: nat, capacity: nat)
    requires
        capacity >= 1,
    ensures
        count % capacity < capacity,
        (count + 1) % capacity == if count % capacity + 1 < capacity {
            count % capacity + 1
        } else {
            0
        },
        count < capacity ==> count % capacity == count,
{
    let d = capacity as int;
    let x = count as int;
    let q = x / d;
    let r = x % d;
    lemma_fundamental_div_mod(x, d);
    lemma_mod_pos_bound(x, d);
    assert(d * q == q * d) by (nonlinear_arith);
    if r + 1 < d {
        lemma_fundamental_div_mod_converse(x + 1, d, q, r + 1);
    } else {
        assert((q + 1) * d == q * d + d) by (nonlinear_arith);
        lemma_fundamental_div_mod_converse(x + 1, d, q + 1, 0);
    }
    if count < capacity {
        lemma_small_mod(count, capacity);
    }
}

/// While a ring is being filled, it retains every inserted frame: after
/// `k <= capacity` insertions with sequence numbers that start at `start`
/// and go up by one, it retains `k` frames, its oldest sequence number is
/// `start`, and it is full exactly when `k` is the capacity.
pub proof fn lemma_filling(capacity: nat, frames: Seq<PayloadModel>, start: nat)
    requires
        capacity >= 1,
        frames.len() <= capacity,
        frame_sized(frames),
        contiguous_from(frames, start),
    ensures
        RingModel::empty(capacity).push_all(frames).len() == frames.len(),
        RingModel::empty(capacity).push_all(frames).chronological() == samples_of(frames),
        frames.len() >= 1 ==> RingModel::empty(capacity).push_all(frames).oldest == Some(start),
        RingModel::empty(capacity).push_all(frames).full == (frames.len() == capacity),
{
    lemma_after_insertions(capacity, frames);
    assert(samples_of(frames).subrange(0, frames.len() as int) =~= samples_of(frames));
}

/// Once a ring overflows, it retains the newest frames: after
/// `k > capacity` insertions with sequence numbers that start at `start` and
/// go up by one, it is full, its oldest sequence number is
/// `start + (k - capacity)`, and that is the sequence number of the oldest
/// frame that it retains.
pub proof fn lemma_overflowing(capacity: nat, frames: Seq<PayloadModel>, start: nat)
    requires
        capacity >= 1,
        frames.len() > capacity,
        frame_sized(frames),
        contiguous_from(frames, start),
    ensures
        RingModel::empty(capacity).push_all(frames).full,
        RingModel::empty(capacity).push_all(frames).len() == capacity,
        RingModel::empty(capacity).push_all(frames).oldest == Some(
            (start + (frames.len() - capacity)) as nat,
        ),
        RingModel::empty(capacity).push_all(frames).oldest == Some(
            frames[frames.len() - capacity].count as nat,
        ),
        RingModel::empty(capacity).push_all(frames).chronological() == samples_of(frames).subrange(
            frames.len() - capacity,
            frames.len() as int,
        ),
{
    lemma_after_insertions(capacity, frames);
}

/// Sequence numbers that go up by one never run the oldest sequence number
/// out of its type: before each insertion of such a stream, the oldest
/// sequence number of a full ring is below that of the frame to insert.
pub proof fn lemma_contiguous_oldest_below_next(
    capacity: nat,
    frames: Seq<PayloadModel>,
    start: nat,
)
    requires
        capacity >= 1,
        frames.len() >= 1,
        frame_sized(frames),
        contiguous_from(frames, start),
    ensures
        RingModel::empty(capacity).push_all(frames.drop_last()).full ==> RingModel::empty(
            capacity,
        ).push_all(frames.drop_last()).oldest->0 < frames.last().count,
{
    let earlier = frames.drop_last();
    assert(frame_sized(earlier));
    lemma_after_insertions(capacity, earlier);
    if earlier.len() >= capacity {
        assert(earlier[0] == frames[0]);
        assert(frames[0].count == start + 0);
        assert(frames.last() == frames[frames.len() - 1]);
    }
}

/// A ring that was filled exactly once gives its frames back in the order
/// of their insertion: the frame inserted as number `i` is the one at
/// position `i` of the two regions laid end to end.
pub proof fn lemma_round_trip(capacity: nat, frames: Seq<PayloadModel>)
    requires
        capacity >= 1,
        frames.len() == capacity,
        frame_sized(frames),
    ensures
        RingModel::empty(capacity).push_all(frames).chronological().len() == capacity,
        forall|i: int|
            0 <= i < capacity ==> RingModel::empty(capacity).push_all(frames).chronological()[i]
                == (#[trigger] frames[i]).samples,
{
    lemma_after_insertions(capacity, frames);
    assert(samples_of(frames).subrange(0, frames.len() as int) =~= samples_of(frames));
}

/// The two regions depend on the state of the ring alone: whatever meets
/// the splitter's contract on one ring is the same pair of regions.
pub proof fn lemma_split_is_determined(
    ring: RingModel,
    first: Seq<i8>,
    second: Seq<i8>,
    first_again: Seq<i8>,
    second_again: Seq<i8>,
)
    requires
        ring.is_split(first, second),
        ring.is_split(first_again, second_again),
    ensures
        first == first_again,
        second == second_again,
{
}

} // verus!
