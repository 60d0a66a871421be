//! Request, response and event payloads exchanged with the user interface.

use vstd::prelude::*;

use crate::project::Note;

verus! {

/// Request for a new project, with an optional name.
#[derive(Debug)]
pub struct ProjectNewRequest {
    pub name: Option<String>,
}

impl Default for ProjectNewRequest {
    fn default() -> (request: Self)
        ensures
            request.name is None,
    {
        ProjectNewRequest { name: None }
    }
}

/// Answer to a save request.
#[derive(Debug)]
pub struct ProjectSaveResponse {
    pub success: bool,
}

/// Request to load the project stored at `path`.
#[derive(Debug)]
pub struct ProjectLoadRequest {
    pub path: String,
}

/// A note as the user interface sends and receives it.
#[derive(Debug, Clone, Copy)]
pub struct NoteDto {
    pub pitch: u8,
    pub velocity: u8,
    pub start: u16,
    pub duration: u16,
}

impl vstd::std_specs::convert::FromSpecImpl<Note> for NoteDto {
    open spec fn obeys_from_spec() -> bool {
        true
    }

    open spec fn from_spec(v: Note) -> NoteDto {
        NoteDto { pitch: v.pitch, velocity: v.velocity, start: v.start, duration: v.duration }
    }
}

impl From<Note> for NoteDto {
    fn from(note: Note) -> (dto: Self) {
        NoteDto {
            pitch: note.pitch,
            velocity: note.velocity,
            start: note.start,
            duration: note.duration,
        }
    }
}

impl vstd::std_specs::convert::FromSpecImpl<NoteDto> for Note {
    open spec fn obeys_from_spec() -> bool {
        true
    }

    open spec fn from_spec(v: NoteDto) -> Note {
        Note { pitch: v.pitch, velocity: v.velocity, start: v.start, duration: v.duration }
    }
}

impl From<NoteDto> for Note {
    fn from(dto: NoteDto) -> (note: Self) {
        Note { pitch: dto.pitch, velocity: dto.velocity, start: dto.start, duration: dto.duration }
    }
}

/// Request to write one cell of a pattern grid; `note: None` clears the cell.
#[derive(Debug)]
pub struct PatternUpdateRequest {
    pub channel: usize,
    pub pattern_index: usize,
    pub cell_row: usize,
    pub cell_col: usize,
    pub note: Option<NoteDto>,
}

/// Answer to a pattern update.
#[derive(Debug)]
pub struct PatternUpdateResponse {
    pub success: bool,
}

/// Request to start playback, from an optional position.
#[derive(Debug)]
pub struct TransportPlayRequest {
    pub position: Option<u32>,
}

/// Answer to a play request.
#[derive(Debug)]
pub struct TransportPlayResponse {
    pub playing: bool,
    pub position: u32,
}

/// Answer to a stop request.
#[derive(Debug)]
pub struct TransportStopResponse {
    pub playing: bool,
    pub position: u32,
}

/// Request to change the tempo.
#[derive(Debug)]
pub struct TransportSetTempoRequest {
    pub tempo: u16,
}

/// Answer to a tempo change.
#[derive(Debug)]
pub struct TransportSetTempoResponse {
    pub tempo: u16,
}

/// Playhead position event: emitted on each step change during playback.
#[derive(Debug, Clone)]
pub struct PlayheadEvent {
    /// Current bar number (0-indexed).
    pub bar: u32,
    /// Current beat within the bar (0-3).
    pub beat: u32,
    /// Current step within the pattern (0-15, sixteenth notes).
    pub step: u32,
    /// Current tick within the step (0-23).
    pub tick: u32,
    /// Whether playback is active.
    pub is_playing: bool,
}

/// A sound source as the user interface lists it.
#[derive(Debug)]
pub struct SourceInfo {
    pub id: String,
    pub name: String,
    pub category: String,
}

/// The list of available sound sources.
#[derive(Debug)]
pub struct ListSourcesResponse {
    pub sources: Vec<SourceInfo>,
}

/// Request to give a mixer channel another sound source.
#[derive(Debug)]
pub struct ChannelSetSourceRequest {
    pub channel: usize,
    pub source_id: String,
}

/// Answer to a source change.
#[derive(Debug)]
pub struct ChannelSetSourceResponse {
    pub channel: usize,
    pub source_id: String,
    pub success: bool,
}

/// Request for the parameters of a sound source.
#[derive(Debug)]
pub struct GetSourceParamsRequest {
    pub source_id: String,
}

} // verus!
