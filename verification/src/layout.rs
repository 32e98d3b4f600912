//! The memory layout of one frame: polarization, then frequency channel, then
//! real and imaginary part, the last varying fastest.

use vstd::prelude::*;

verus! {

/// Number of frequency channels in each polarization.
pub const CHANNELS: usize = 2048;

/// Number of polarizations in a frame.
pub const POLARIZATIONS: usize = 2;

/// Number of components of a complex sample: real, then imaginary.
pub const COMPONENTS: usize = 2;

/// Number of 8-bit values in one frame.
pub const FRAME_LEN: usize = 8192;

/// Distance between two polarizations, in samples.
pub const POLARIZATION_STRIDE: usize = 4096;

/// Distance between two channels, in samples.
pub const CHANNEL_STRIDE: usize = 2;

/// Distance between the two components of a sample.
pub const COMPONENT_STRIDE: usize = 1;

/// Whether `(pol, chan, comp)` names a sample of a frame.
pub open spec fn valid_index(pol: int, chan: int, comp: int) -> bool {
    &&& 0 <= pol < POLARIZATIONS
    &&& 0 <= chan < CHANNELS
    &&& 0 <= comp < COMPONENTS
}

/// Position of the sample `(pol, chan, comp)` in the row-major layout of a
/// frame.
pub open spec fn sample_offset(pol: int, chan: int, comp: int) -> int {
    (pol * CHANNELS + chan) * COMPONENTS + comp
}

/// Computes the position of a sample in the row-major layout of a frame.
pub fn offset_of(pol: usize, chan: usize, comp: usize) -> (offset: usize)
    requires
        valid_index(pol as int, chan as int, comp as int),
    ensures
        offset == sample_offset(pol as int, chan as int, comp as int),
        offset < FRAME_LEN,
{
    (pol * CHANNELS + chan) * COMPONENTS + comp
}

/// Every valid index lies inside the frame.
pub proof fn lemma_offset_in_frame(pol: int, chan: int, comp: int)
    requires
        valid_index(pol, chan, comp),
    ensures
        0 <= sample_offset(pol, chan, comp) < FRAME_LEN,
{
}

/// Two valid indices share a position only if they are the same index.
pub proof fn lemma_offset_injective(
    pol1: int,
    chan1: int,
    comp1: int,
    pol2: int,
    chan2: int,
    comp2: int,
)
    requires
        valid_index(pol1, chan1, comp1),
        valid_index(pol2, chan2, comp2),
        sample_offset(pol1, chan1, comp1) == sample_offset(pol2, chan2, comp2),
    ensures
        pol1 == pol2,
        chan1 == chan2,
        comp1 == comp2,
{
}

/// Every position of a frame is that of exactly one valid index.
pub proof fn lemma_offset_covers_frame(offset: int)
    requires
        0 <= offset < FRAME_LEN,
    ensures
        valid_index(offset / 4096, (offset % 4096) / 2, offset % 2),
        sample_offset(offset / 4096, (offset % 4096) / 2, offset % 2) == offset,
{
}

} // verus!
