//! A fixed-capacity ring of instrument sample frames that keeps the most
//! recent frames and hands them out in chronological order.

pub mod buffer;
pub mod export;
pub mod laws;
pub mod layout;
pub mod model;
pub mod payload;
pub mod ring;

pub use crate::export::{ExportError, ExportPlan, ExportStage, Region};
pub use crate::payload::{FrameView, Payload};
pub use crate::ring::DumpRing;
