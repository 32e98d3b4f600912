//! One frame as it arrives from the capture source, and the read-only tensor
//! view of its samples.

use vstd::prelude::*;
use crate::layout::{
    sample_offset, valid_index, CHANNELS, CHANNEL_STRIDE, COMPONENTS, COMPONENT_STRIDE, FRAME_LEN,
    POLARIZATIONS, POLARIZATION_STRIDE,
};

verus! {

/// What a [`Payload`] holds: its sequence number and its samples in the
/// order polarization, channel, component.
pub struct PayloadModel {
    pub count: u64,
    pub samples: Seq<i8>,
}

/// A frame: a sequence number and two polarizations of complex 8-bit samples,
/// kept as one contiguous run of `FRAME_LEN` values.
#[derive(Debug)]
pub struct Payload {
    count: u64,
    samples: Vec<i8>,
}

impl View for Payload {
    type V = PayloadModel;

    closed spec fn view(&self) -> PayloadModel {
        PayloadModel { count: self.count, samples: self.samples@ }
    }
}

impl Clone for Payload {
    fn clone(&self) -> (copy: Self)
        ensures
            copy@ == self@,
    {
        proof {
            use_type_invariant(self);
        }
        Payload { count: self.count, samples: self.samples.clone() }
    }
}

/// The samples of the two polarizations laid out as one frame: polarization
/// A first, each sample as its real part followed by its imaginary part.
pub open spec fn interleave(pol_a: Seq<(i8, i8)>, pol_b: Seq<(i8, i8)>) -> Seq<i8> {
    Seq::new(
        (2 * pol_a.len() + 2 * pol_b.len()) as nat,
        |k: int|
            {
                let pair = if k < 2 * pol_a.len() {
                    pol_a[k / 2]
                } else {
                    pol_b[(k - 2 * pol_a.len()) / 2]
                };
                if k % 2 == 0 {
                    pair.0
                } else {
                    pair.1
                }
            },
    )
}

impl Payload {
    #[verifier::type_invariant]
    closed spec fn well_formed(self) -> bool {
        self.samples@.len() == FRAME_LEN
    }

    /// Builds a payload from its sequence number and its samples in layout
    /// order. There is a payload exactly when `samples` has the length of a
    /// frame.
    pub fn new(count: u64, samples: Vec<i8>) -> (payload: Option<Payload>)
        ensures
            payload is Some <==> samples@.len() == FRAME_LEN,
            payload is Some ==> payload->0@ == (PayloadModel { count, samples: samples@ }),
    {
        if samples.len() == FRAME_LEN {
            Some(Payload { count, samples })
        } else {
            None
        }
    }

    /// Builds a payload from the complex samples of its two polarizations,
    /// each sample a pair of real and imaginary part. There is a payload
    /// exactly when both polarizations have `CHANNELS` samples.
    pub fn from_channels(count: u64, pol_a: &[(i8, i8)], pol_b: &[(i8, i8)]) -> (payload: Option<
        Payload,
    >)
        ensures
            payload is Some <==> pol_a@.len() == CHANNELS && pol_b@.len() == CHANNELS,
            payload is Some ==> payload->0@ == (PayloadModel {
                count,
                samples: interleave(pol_a@, pol_b@),
            }),
    {
        if pol_a.len() != CHANNELS || pol_b.len() != CHANNELS {
            return None;
        }
        let mut samples: Vec<i8> = Vec::with_capacity(FRAME_LEN);
        let mut k: usize = 0;
        while k < FRAME_LEN
            invariant
                pol_a@.len() == CHANNELS,
                pol_b@.len() == CHANNELS,
                k <= FRAME_LEN,
                samples@.len() == k,
                forall|j: int| 0 <= j < k ==> samples@[j] == interleave(pol_a@, pol_b@)[j],
            decreases FRAME_LEN - k,
        {
            let pair = if k < 2 * CHANNELS {
                pol_a[k / 2]
            } else {
                pol_b[(k - 2 * CHANNELS) / 2]
            };
            let value: i8 = if k % 2 == 0 {
                pair.0
            } else {
                pair.1
            };
            samples.push(value);
            k += 1;
        }
        assert(samples@ =~= interleave(pol_a@, pol_b@));
        Some(Payload { count, samples })
    }

    /// Builds a payload with sequence number zero and samples drawn at
    /// random. Nothing is known of the samples but their number.
    pub fn random() -> (payload: Payload)
        ensures
            payload@.count == 0,
            payload@.samples.len() == FRAME_LEN,
    {
        let mut samples: Vec<i8> = Vec::with_capacity(FRAME_LEN);
        let mut k: usize = 0;
        while k < FRAME_LEN
            invariant
                k <= FRAME_LEN,
                samples@.len() == k,
            decreases FRAME_LEN - k,
        {
            samples.push(random_sample());
            k += 1;
        }
        Payload { count: 0, samples }
    }

    /// The sequence number that the source gave this frame.
    pub fn count(&self) -> (count: u64)
        ensures
            count == self@.count,
    {
        self.count
    }

    /// The samples of this frame as a tensor of shape (polarization, channel,
    /// component). The view borrows the payload and copies nothing.
    pub fn data_view(&self) -> (view: FrameView<'_>)
        ensures
            view@ == self@.samples,
            view@.len() == FRAME_LEN,
    {
        proof {
            use_type_invariant(self);
        }
        FrameView { samples: self.samples.as_slice() }
    }
}

/// Calls `rand::random` for one `i8`.
///
/// Trusted: nothing. The value comes from a generator that each thread
/// seeds, so no contract speaks of it.
#[verifier::external_body]
fn random_sample() -> i8 {
    rand::random::<i8>()
}

/// A read-only tensor of shape (2, `CHANNELS`, 2) over the samples of one
/// frame. Its view is the run of samples that it borrows.
#[derive(Debug, Clone, Copy)]
pub struct FrameView<'a> {
    samples: &'a [i8],
}

impl<'a> View for FrameView<'a> {
    type V = Seq<i8>;

    closed spec fn view(&self) -> Seq<i8> {
        self.samples@
    }
}

impl<'a> FrameView<'a> {
    #[verifier::type_invariant]
    closed spec fn well_formed(self) -> bool {
        self.samples@.len() == FRAME_LEN
    }

    /// The lengths of the three axes: polarization, channel, component.
    pub fn shape(&self) -> (shape: (usize, usize, usize))
        ensures
            shape == (POLARIZATIONS, CHANNELS, COMPONENTS),
    {
        (POLARIZATIONS, CHANNELS, COMPONENTS)
    }

    /// The distance, in samples, between neighbours along each axis.
    pub fn strides(&self) -> (strides: (usize, usize, usize))
        ensures
            strides == (POLARIZATION_STRIDE, CHANNEL_STRIDE, COMPONENT_STRIDE),
    {
        (POLARIZATION_STRIDE, CHANNEL_STRIDE, COMPONENT_STRIDE)
    }

    /// The sample at `(pol, chan, comp)`: the one at that index's position in
    /// the frame's layout.
    pub fn get(&self, pol: usize, chan: usize, comp: usize) -> (sample: i8)
        requires
            valid_index(pol as int, chan as int, comp as int),
        ensures
            sample == self@[sample_offset(pol as int, chan as int, comp as int)],
    {
        proof {
            use_type_invariant(self);
        }
        self.samples[pol * POLARIZATION_STRIDE + chan * CHANNEL_STRIDE + comp * COMPONENT_STRIDE]
    }

    /// The samples behind the view, in layout order.
    pub fn as_slice(&self) -> (samples: &'a [i8])
        ensures
            samples@ == self@,
            samples@.len() == FRAME_LEN,
    {
        proof {
            use_type_invariant(self);
        }
        self.samples
    }
}

} // verus!
