//! The ring itself: a fixed number of slots, a write cursor, and the
//! sequence number of the oldest frame that is still retained.

use vstd::arithmetic::div_mod::{lemma_mod_self_0, lemma_small_mod};
use vstd::prelude::*;
use crate::buffer::{frames, FrameBuffer};
use crate::layout::FRAME_LEN;
use crate::model::{lemma_flatten_len, RingModel};
use crate::payload::Payload;

verus! {

/// A ring of the most recent frames.
#[derive(Debug)]
pub struct DumpRing {
    /// The slot that the next frame is written to.
    write_ptr: usize,
    /// The samples of every slot.
    buffer: FrameBuffer,
    /// The number of slots.
    capacity: usize,
    /// The sequence number of the oldest retained frame; `None` while the
    /// ring is empty.
    oldest: Option<u64>,
    /// Whether the cursor has wrapped at least once.
    full: bool,
}

impl View for DumpRing {
    type V = RingModel;

    closed spec fn view(&self) -> RingModel {
        RingModel {
            slots: frames(self.buffer),
            cursor: self.write_ptr as nat,
            full: self.full,
            oldest: match self.oldest {
                Some(oldest) => Some(oldest as nat),
                None => None,
            },
        }
    }
}

impl DumpRing {
    /// The invariant of the ring: its model is well formed and the recorded
    /// capacity is the number of slots of the buffer.
    pub closed spec fn wf(&self) -> bool {
        &&& self@.wf()
        &&& self.capacity == frames(self.buffer).len()
    }

    /// A well-formed ring has a well-formed model, and its oldest sequence
    /// number fits the type of a sequence number.
    pub proof fn lemma_wf_model(&self)
        requires
            self.wf(),
        ensures
            self@.wf(),
            self@.capacity() <= usize::MAX,
            self@.oldest is Some ==> self@.oldest->0 <= u64::MAX,
    {
    }

    /// Allocates a ring of `capacity` zeroed slots that holds no frame.
    pub fn new(capacity: usize) -> (ring: DumpRing)
        requires
            capacity >= 1,
            capacity * FRAME_LEN <= isize::MAX,
        ensures
            ring.wf(),
            ring@ == RingModel::empty(capacity as nat),
    {
        let buffer = FrameBuffer::zeroed(capacity);
        assert(frames(buffer) =~= RingModel::empty(capacity as nat).slots);
        DumpRing { buffer, capacity, write_ptr: 0, full: false, oldest: None }
    }

    /// Inserts a frame: its samples overwrite the slot at the cursor, which
    /// then advances. A full ring thereby loses its oldest frame.
    pub fn push(&mut self, pl: &Payload)
        requires
            old(self).wf(),
            old(self)@.full ==> old(self)@.oldest->0 < u64::MAX,
        ensures
            final(self).wf(),
            final(self)@ == old(self)@.push(pl@),
    {
        let data_view = pl.data_view();
        self.buffer.store(self.write_ptr, data_view.as_slice());
        proof {
            if self.write_ptr + 1 < self.capacity {
                lemma_small_mod((self.write_ptr + 1) as nat, self.capacity as nat);
            } else {
                lemma_mod_self_0(self.capacity as int);
            }
        }
        self.write_ptr = (self.write_ptr + 1) % self.capacity;
        match self.oldest {
            None => {
                self.oldest = Some(pl.count());
            },
            Some(oldest) => {
                if self.full {
                    self.oldest = Some(oldest + 1);
                }
            },
        }
        if self.write_ptr == 0 && !self.full {
            self.full = true;
        }
    }

    /// The retained frames as two runs of samples that borrow the buffer:
    /// the oldest frames first, then those that follow them. Laid end to
    /// end they are the retained frames in the order of their insertion.
    /// The second run is empty unless the ring is full and its cursor is
    /// past the first slot.
    pub fn consecutive_views(&self) -> (views: (&[i8], &[i8]))
        requires
            self.wf(),
        ensures
            self@.is_split(views.0@, views.1@),
            views.0@.len() == (self@.first_range().end - self@.first_range().start) * FRAME_LEN,
            views.1@.len() == (self@.second_range().end - self@.second_range().start) * FRAME_LEN,
    {
        proof {
            lemma_flatten_len(self@.first_frames());
            lemma_flatten_len(self@.second_frames());
        }
        if !self.full {
            (self.buffer.region(0, self.write_ptr), self.buffer.region(0, 0))
        } else {
            (
                self.buffer.region(self.write_ptr, self.capacity),
                self.buffer.region(0, self.write_ptr),
            )
        }
    }

    /// The samples that the slot `slot` holds now, whether or not a frame
    /// was ever written to it.
    pub fn slot_samples(&self, slot: usize) -> (samples: &[i8])
        requires
            self.wf(),
            slot < self@.capacity(),
        ensures
            samples@ == self@.slots[slot as int],
            samples@.len() == FRAME_LEN,
    {
        proof {
            let one = self@.slots.subrange(slot as int, slot + 1);
            one.lemma_flatten_one_element();
            assert(one.first() == self@.slots[slot as int]);
        }
        self.buffer.region(slot, slot + 1)
    }

    /// The number of slots.
    pub fn capacity(&self) -> (capacity: usize)
        requires
            self.wf(),
        ensures
            capacity == self@.capacity(),
    {
        self.capacity
    }

    /// The slot that the next frame is written to.
    pub fn write_cursor(&self) -> (cursor: usize)
        ensures
            cursor == self@.cursor,
    {
        self.write_ptr
    }

    /// Whether every slot holds a frame.
    pub fn is_full(&self) -> (full: bool)
        ensures
            full == self@.full,
    {
        self.full
    }

    /// The sequence number of the oldest retained frame; `None` while the
    /// ring is empty.
    pub fn oldest(&self) -> (oldest: Option<u64>)
        ensures
            oldest is Some <==> self@.oldest is Some,
            oldest is Some ==> oldest->0 == self@.oldest->0,
    {
        self.oldest
    }

    /// The number of frames that the ring retains.
    pub fn len(&self) -> (len: usize)
        requires
            self.wf(),
        ensures
            len == self@.len(),
    {
        if self.full {
            self.capacity
        } else {
            self.write_ptr
        }
    }
}

} // verus!
