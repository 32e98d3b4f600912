//! The ring as a mathematical value: its slots, its cursor, and what an
//! insertion does to them.

use vstd::prelude::*;
use crate::buffer::zero_frame;
use crate::layout::FRAME_LEN;
use crate::payload::PayloadModel;

verus! {

/// The state of a ring. Its capacity is the number of its slots.
pub struct RingModel {
    /// The samples in each slot, in storage order.
    pub slots: Seq<Seq<i8>>,
    /// The slot that the next insertion writes.
    pub cursor: nat,
    /// Whether every slot has been written at least once.
    pub full: bool,
    /// The sequence number that belongs to the oldest retained frame.
    pub oldest: Option<nat>,
}

/// A half-open range of slots.
pub struct SlotRange {
    pub start: int,
    pub end: int,
}

impl RingModel {
    pub open spec fn capacity(self) -> nat {
        self.slots.len()
    }

    /// What holds of every ring that insertions can reach.
    pub open spec fn wf(self) -> bool {
        &&& self.capacity() >= 1
        &&& self.cursor < self.capacity()
        &&& forall|i: int| 0 <= i < self.slots.len() ==> (#[trigger] self.slots[i]).len() == FRAME_LEN
        &&& (self.oldest is None <==> !self.full && self.cursor == 0)
    }

    /// The ring of `capacity` zeroed slots that holds no frame.
    pub open spec fn empty(capacity: nat) -> RingModel {
        RingModel {
            slots: Seq::new(capacity, |i: int| zero_frame()),
            cursor: 0,
            full: false,
            oldest: None,
        }
    }

    /// The number of frames that the ring retains.
    pub open spec fn len(self) -> nat {
        if self.full {
            self.capacity()
        } else {
            self.cursor
        }
    }

    /// The ring after one insertion: the frame is written at the cursor, the
    /// cursor advances and wraps, an eviction moves the oldest sequence
    /// number on by one, and the first completed lap makes the ring full.
    pub open spec fn push(self, frame: PayloadModel) -> RingModel {
        let cursor: nat = if self.cursor + 1 < self.capacity() {
            self.cursor + 1
        } else {
            0
        };
        RingModel {
            slots: self.slots.update(self.cursor as int, frame.samples),
            cursor,
            full: self.full || cursor == 0,
            oldest: match self.oldest {
                None => Some(frame.count as nat),
                Some(oldest) => if self.full {
                    Some(oldest + 1)
                } else {
                    Some(oldest)
                },
            },
        }
    }

    /// The ring after the insertion of `frames`, first frame first.
    pub open spec fn push_all(self, frames: Seq<PayloadModel>) -> RingModel
        decreases frames.len(),
    {
        if frames.len() == 0 {
            self
        } else {
            self.push_all(frames.drop_last()).push(frames.last())
        }
    }

    /// The slots that hold the oldest retained frames.
    pub open spec fn first_range(self) -> SlotRange {
        if self.full {
            SlotRange { start: self.cursor as int, end: self.capacity() as int }
        } else {
            SlotRange { start: 0, end: self.cursor as int }
        }
    }

    /// The slots that hold the frames that follow those of the first range;
    /// empty unless the ring is full.
    pub open spec fn second_range(self) -> SlotRange {
        if self.full {
            SlotRange { start: 0, end: self.cursor as int }
        } else {
            SlotRange { start: 0, end: 0 }
        }
    }

    /// The frames of the first region, oldest first.
    pub open spec fn first_frames(self) -> Seq<Seq<i8>> {
        self.slots.subrange(self.first_range().start, self.first_range().end)
    }

    /// The frames of the second region, oldest first.
    pub open spec fn second_frames(self) -> Seq<Seq<i8>> {
        self.slots.subrange(self.second_range().start, self.second_range().end)
    }

    /// The retained frames in the order of their insertion.
    pub open spec fn chronological(self) -> Seq<Seq<i8>> {
        self.first_frames() + self.second_frames()
    }

    /// Whether `first` and `second` are the samples of the two regions:
    /// those of the oldest frames, then those of the frames that follow.
    pub open spec fn is_split(self, first: Seq<i8>, second: Seq<i8>) -> bool {
        &&& first == self.first_frames().flatten()
        &&& second == self.second_frames().flatten()
    }
}

/// The samples of `frames`, one after the other.
pub open spec fn samples_of(frames: Seq<PayloadModel>) -> Seq<Seq<i8>> {
    frames.map_values(|frame: PayloadModel| frame.samples)
}

/// Whether every frame of `frames` has the length of a frame.
pub open spec fn frame_sized(frames: Seq<PayloadModel>) -> bool {
    forall|i: int| 0 <= i < frames.len() ==> (#[trigger] frames[i]).samples.len() == FRAME_LEN
}

/// Whether the sequence numbers of `frames` start at `start` and go up by
/// one from each frame to the next.
pub open spec fn contiguous_from(frames: Seq<PayloadModel>, start: nat) -> bool {
    forall|i: int| 0 <= i < frames.len() ==> (#[trigger] frames[i]).count == start + i
}

/// The run of slots of equal length `FRAME_LEN`, laid end to end, has
/// `FRAME_LEN` samples for each slot.
pub proof fn lemma_flatten_len(slots: Seq<Seq<i8>>)
    requires
        forall|i: int| 0 <= i < slots.len() ==> (#[trigger] slots[i]).len() == FRAME_LEN,
    ensures
        slots.flatten().len() == slots.len() * FRAME_LEN,
    decreases slots.len(),
{
    if slots.len() > 0 {
        let rest = slots.drop_first();
        assert forall|i: int| 0 <= i < rest.len() implies (#[trigger] rest[i]).len()
            == FRAME_LEN by {
            assert(rest[i] == slots[i + 1]);
        }
        lemma_flatten_len(rest);
        assert(slots.first().len() == FRAME_LEN);
    }
}

} // verus!
