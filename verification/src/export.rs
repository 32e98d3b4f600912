//! What an export hands to the writer of the array file, and how the stages
//! of an export follow one another.

use vstd::prelude::*;
use crate::layout::{CHANNELS, COMPONENTS, FRAME_LEN, POLARIZATIONS};
use crate::model::RingModel;
use crate::ring::DumpRing;

verus! {

/// A run of retained frames and the place along the time axis where the
/// writer puts it.
#[derive(Debug, Clone, Copy)]
pub struct Region<'a> {
    /// The position along the time axis of the first frame of the run.
    pub time_offset: usize,
    /// The number of frames in the run.
    pub slots: usize,
    /// The samples of the run, frame after frame, each in layout order.
    pub samples: &'a [i8],
}

/// Everything the writer needs for one export. Axis lengths and chunk
/// lengths are in the order time, polarization, frequency, component.
#[derive(Debug, Clone, Copy)]
pub struct ExportPlan<'a> {
    /// The length of each axis of the exported array.
    pub dimensions: [usize; 4],
    /// The length of a storage chunk along each axis.
    pub chunking: [usize; 4],
    /// The oldest retained frames.
    pub first: Region<'a>,
    /// The frames that follow those of the first region.
    pub second: Region<'a>,
}

/// The steps of an export, in the order in which they are taken.
#[derive(Debug, Clone, Copy, PartialEq, Eq, Structural)]
pub enum ExportStage {
    /// Creating the destination.
    CreateDestination,
    /// Declaring the axes, the variables and their attributes.
    DefineSchema,
    /// Setting the chunk lengths of the data variable.
    ConfigureChunking,
    /// Writing the first region.
    WriteFirstRegion,
    /// Writing the second region.
    WriteSecondRegion,
}

/// The failure of an export: the stage that failed and what the writer
/// said of it.
#[derive(Debug)]
pub struct ExportError {
    pub stage: ExportStage,
    pub reason: String,
}

impl ExportStage {
    /// The stage that an export begins with.
    pub fn first() -> (stage: ExportStage)
        ensures
            stage == ExportStage::CreateDestination,
    {
        ExportStage::CreateDestination
    }

    /// The stage that follows this one; `None` after the last.
    pub open spec fn successor(self) -> Option<ExportStage> {
        match self {
            ExportStage::CreateDestination => Some(ExportStage::DefineSchema),
            ExportStage::DefineSchema => Some(ExportStage::ConfigureChunking),
            ExportStage::ConfigureChunking => Some(ExportStage::WriteFirstRegion),
            ExportStage::WriteFirstRegion => Some(ExportStage::WriteSecondRegion),
            ExportStage::WriteSecondRegion => None,
        }
    }

    /// Decides how an export goes on after this stage. A failure of the
    /// writer ends the export with that very failure, tagged with the stage;
    /// a success leads to the next stage, or to the end after the last.
    pub fn advance(self, outcome: Result<(), String>) -> (next: Result<
        Option<ExportStage>,
        ExportError,
    >)
        ensures
            outcome is Ok ==> next == Ok::<Option<ExportStage>, ExportError>(self.successor()),
            outcome is Err ==> next == Err::<Option<ExportStage>, ExportError>(
                ExportError { stage: self, reason: outcome->Err_0 },
            ),
    {
        match outcome {
            Err(reason) => Err(ExportError { stage: self, reason }),
            Ok(()) => Ok(
                match self {
                    ExportStage::CreateDestination => Some(ExportStage::DefineSchema),
                    ExportStage::DefineSchema => Some(ExportStage::ConfigureChunking),
                    ExportStage::ConfigureChunking => Some(ExportStage::WriteFirstRegion),
                    ExportStage::WriteFirstRegion => Some(ExportStage::WriteSecondRegion),
                    ExportStage::WriteSecondRegion => None,
                },
            ),
        }
    }
}

impl RingModel {
    /// The number of frames in the first region.
    pub open spec fn first_slots(self) -> int {
        self.first_range().end - self.first_range().start
    }

    /// The number of frames in the second region.
    pub open spec fn second_slots(self) -> int {
        self.second_range().end - self.second_range().start
    }
}

impl DumpRing {
    /// Lays out an export with chunks of `chunk_size` frames: the time axis
    /// has the length of the ring's capacity, the first region starts at
    /// time zero and the second directly after the first.
    pub fn export_plan(&self, chunk_size: usize) -> (plan: ExportPlan<'_>)
        requires
            self.wf(),
        ensures
            plan.dimensions@ == seq![self@.capacity() as usize, POLARIZATIONS, CHANNELS, COMPONENTS],
            plan.chunking@ == seq![chunk_size, POLARIZATIONS, CHANNELS, COMPONENTS],
            self@.is_split(plan.first.samples@, plan.second.samples@),
            plan.first.time_offset == 0,
            plan.first.slots == self@.first_slots(),
            plan.first.samples@.len() == plan.first.slots * FRAME_LEN,
            plan.second.time_offset == plan.first.slots,
            plan.second.slots == self@.second_slots(),
            plan.second.samples@.len() == plan.second.slots * FRAME_LEN,
            plan.first.slots + plan.second.slots == self@.len(),
    {
        let (first, second) = self.consecutive_views();
        let first_slots: usize = first.len() / FRAME_LEN;
        let second_slots: usize = second.len() / FRAME_LEN;
        proof {
            self.lemma_wf_model();
        }
        ExportPlan {
            dimensions: [self.capacity(), POLARIZATIONS, CHANNELS, COMPONENTS],
            chunking: [chunk_size, POLARIZATIONS, CHANNELS, COMPONENTS],
            first: Region { time_offset: 0, slots: first_slots, samples: first },
            second: Region { time_offset: first_slots, slots: second_slots, samples: second },
        }
    }
}

} // verus!
