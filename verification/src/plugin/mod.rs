//! Vocabulary of the synth plugins: parameter identifiers, source
//! categories, waveforms and the ids of registered sources.

pub mod chip_synth;
pub mod registry;
pub mod traits;

pub use chip_synth::Waveform;
pub use registry::SourceIndex;
pub use traits::{ParamId, SourceCategory};
