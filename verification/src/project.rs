//! Project data model: channels, patterns of notes, and sequences of patterns.

use vstd::prelude::*;

verus! {

/// Version string written into every new project.
pub const PROJECT_VERSION: &'static str = "1.0.0";

/// Channel type: decides how the notes of a channel are synthesized.
#[derive(Debug, Clone, Copy, PartialEq, Eq, Structural)]
pub enum ChannelType {
    /// Pitch-based synthesis (square, sawtooth, pulse).
    Pitch,
    /// Noise-based synthesis.
    Noise,
}

impl Default for ChannelType {
    fn default() -> (channel_type: Self)
        ensures
            channel_type == ChannelType::Pitch,
    {
        ChannelType::Pitch
    }
}

/// Time signature of a project.
#[derive(Debug, Clone, Copy)]
pub struct TimeSignature {
    pub numerator: u8,
    pub denominator: u8,
}

impl Default for TimeSignature {
    fn default() -> (signature: Self)
        ensures
            signature.numerator == 4,
            signature.denominator == 4,
    {
        TimeSignature { numerator: 4, denominator: 4 }
    }
}

/// One note of a pattern grid.
#[derive(Debug, Clone, Copy)]
pub struct Note {
    pub pitch: u8,
    pub velocity: u8,
    pub start: u16,
    pub duration: u16,
}

/// The note that fills a grid cell that holds nothing else:
/// middle C at velocity 100, starting at step 0 and one step long.
pub open spec fn default_note() -> Note {
    Note { pitch: 60, velocity: 100, start: 0, duration: 1 }
}

impl Default for Note {
    fn default() -> (note: Self)
        ensures
            note == default_note(),
    {
        Note { pitch: 60, velocity: 100, start: 0, duration: 1 }
    }
}

/// A pattern: for each channel, a row of notes.
#[derive(Debug, Clone)]
pub struct Pattern {
    pub id: u32,
    pub name: String,
    pub length: u16,
    pub grid: Vec<Vec<Note>>,
}

impl Pattern {
    /// The grid as a sequence of rows, one row per channel.
    pub open spec fn grid_view(self) -> Seq<Seq<Note>> {
        self.grid@.map_values(|row: Vec<Note>| row@)
    }

    /// A new, empty pattern of sixteen steps named "Pattern 1".
    pub fn new() -> (pattern: Self)
        ensures
            pattern.id == 0,
            pattern.name@ == "Pattern 1"@,
            pattern.length == 16,
            pattern.grid@.len() == 0,
    {
        Pattern { id: 0, name: "Pattern 1".to_string(), length: 16, grid: Vec::new() }
    }
}

impl Default for Pattern {
    fn default() -> (pattern: Self)
        ensures
            pattern.id == 0,
            pattern.name@ == "Pattern 1"@,
            pattern.length == 16,
            pattern.grid@.len() == 0,
    {
        Self::new()
    }
}

/// A sequence: an ordered list of pattern indices to play.
#[derive(Debug, Clone)]
pub struct Sequence {
    pub id: u32,
    pub name: String,
    pub pattern_indices: Vec<u32>,
}

impl Sequence {
    /// A new, empty sequence named "Sequence 1".
    pub fn new() -> (sequence: Self)
        ensures
            sequence.id == 0,
            sequence.name@ == "Sequence 1"@,
            sequence.pattern_indices@.len() == 0,
    {
        Sequence { id: 0, name: "Sequence 1".to_string(), pattern_indices: Vec::new() }
    }
}

impl Default for Sequence {
    fn default() -> (sequence: Self)
        ensures
            sequence.id == 0,
            sequence.name@ == "Sequence 1"@,
            sequence.pattern_indices@.len() == 0,
    {
        Self::new()
    }
}

} // verus!
