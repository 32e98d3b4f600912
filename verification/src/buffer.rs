//! The backing storage of the ring: one four-axis array of shape
//! (slots, polarization, channel, component), allocated once.

use vstd::prelude::*;
use crate::layout::FRAME_LEN;

verus! {

/// Owned storage for a fixed number of frame-shaped slots.
///
/// The array inside is opaque to the verifier. Everything known about it is
/// what the functions below state over [`frames`].
#[verifier::external_body]
#[derive(Debug)]
pub struct FrameBuffer {
    cells: ndarray::Array4<i8>,
}

/// The slots of a buffer, first slot first, each as the samples of its frame
/// in row-major order.
pub uninterp spec fn frames(buffer: FrameBuffer) -> Seq<Seq<i8>>;

/// A frame of zero samples.
pub open spec fn zero_frame() -> Seq<i8> {
    Seq::new(FRAME_LEN as nat, |j: int| 0i8)
}

impl FrameBuffer {
    /// Calls `ndarray::Array4::zeros` with the shape (`slots`, 2, 2048, 2).
    ///
    /// Trusted: the result has `slots` slots and every sample is zero. The
    /// call panics when the number of samples exceeds `isize::MAX`, which the
    /// precondition rules out.
    #[verifier::external_body]
    pub(crate) fn zeroed(slots: usize) -> (buffer: FrameBuffer)
        requires
            slots * FRAME_LEN <= isize::MAX,
        ensures
            frames(buffer).len() == slots,
            forall|i: int| 0 <= i < slots ==> #[trigger] frames(buffer)[i] == zero_frame(),
    {
        FrameBuffer { cells: ndarray::Array4::zeros((slots, 2, 2048, 2)) }
    }

    /// Calls `index_axis_mut` on the time axis and `assign` on the slot it
    /// yields, with `samples` seen through `ArrayView3::from_shape` as a
    /// (2, 2048, 2) tensor.
    ///
    /// Trusted: the slot `slot` then holds `samples` and no other slot has
    /// changed. The precondition leaves out what would make the calls panic:
    /// a slot out of bounds and a slice of the wrong length.
    #[verifier::external_body]
    pub(crate) fn store(&mut self, slot: usize, samples: &[i8])
        requires
            slot < frames(*old(self)).len(),
            samples@.len() == FRAME_LEN,
        ensures
            frames(*final(self)) == frames(*old(self)).update(slot as int, samples@),
    {
        let tensor = ndarray::ArrayView3::from_shape((2, 2048, 2), samples).unwrap();
        self.cells.index_axis_mut(ndarray::Axis(0), slot).assign(&tensor);
    }

    /// Calls `slice_axis` on the time axis with the range `start..end`, and
    /// `to_slice` on the view it yields.
    ///
    /// Trusted: the result borrows the samples of the slots `start..end`,
    /// slot after slot, each in row-major order. The array is in standard
    /// layout and is cut along its first axis only, so the view is contiguous
    /// and `to_slice` yields a slice.
    #[verifier::external_body]
    pub(crate) fn region(&self, start: usize, end: usize) -> (samples: &[i8])
        requires
            start <= end <= frames(*self).len(),
        ensures
            samples@ == frames(*self).subrange(start as int, end as int).flatten(),
    {
        self.cells.slice_axis(ndarray::Axis(0), ndarray::Slice::from(start..end)).to_slice().unwrap()
    }
}

} // verus!
