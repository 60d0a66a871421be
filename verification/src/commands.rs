//! The decisions that the user interface's commands make: input checks,
//! pattern grid edits and transport answers.

use vstd::prelude::*;

use crate::dto::{
    ChannelSetSourceResponse, NoteDto, PatternUpdateRequest, PatternUpdateResponse, TransportPlayRequest,
    TransportPlayResponse, TransportSetTempoRequest, TransportSetTempoResponse,
    TransportStopResponse,
};
use crate::engine::sequencer::sounds_at;
use crate::project::{default_note, Note, Pattern};

verus! {

/// Why a note preview was refused.
#[derive(Debug, Clone, Copy, PartialEq, Eq, Structural)]
pub enum PreviewError {
    /// The channel is above 15.
    InvalidChannel(u8),
    /// The note is above 127.
    InvalidNote(u8),
    /// The velocity is above 127.
    InvalidVelocity(u8),
}

/// The answer to a note preview request: the channel must be a MIDI channel
/// (0-15), the note and the velocity MIDI values (0-127), checked in that order.
pub open spec fn spec_check_note_preview(channel: u8, note: u8, velocity: u8) -> Result<(), PreviewError> {
    if channel > 15 {
        Err(PreviewError::InvalidChannel(channel))
    } else if note > 127 {
        Err(PreviewError::InvalidNote(note))
    } else if velocity > 127 {
        Err(PreviewError::InvalidVelocity(velocity))
    } else {
        Ok(())
    }
}

/// Checks a note preview request.
pub fn check_note_preview(channel: u8, note: u8, velocity: u8) -> (result: Result<(), PreviewError>)
    ensures
        result == spec_check_note_preview(channel, note, velocity),
{
    if channel > 15 {
        return Err(PreviewError::InvalidChannel(channel));
    }
    check_preview_note(note, velocity)
}

/// Checks the note and the velocity of a preview that the engine plays:
/// both must be MIDI values (0-127), the note checked first.
pub fn check_preview_note(note: u8, velocity: u8) -> (result: Result<(), PreviewError>)
    ensures
        result == spec_check_note_preview(0, note, velocity),
{
    if note > 127 {
        return Err(PreviewError::InvalidNote(note));
    }
    if velocity > 127 {
        return Err(PreviewError::InvalidVelocity(velocity));
    }
    Ok(())
}

/// A channel index that is not below the mixer's channel count; `max` is the
/// highest valid index.
#[derive(Debug, Clone, Copy, PartialEq, Eq, Structural)]
pub struct ChannelIndexError {
    pub channel: usize,
    pub max: usize,
}

/// Checks that `channel` is one of the mixer's `num_channels` channels.
///
/// A mixer without channels has no highest index to report.
pub fn check_channel_index(channel: usize, num_channels: usize) -> (result: Result<(), ChannelIndexError>)
    requires
        num_channels > 0,
    ensures
        channel < num_channels ==> result is Ok,
        channel >= num_channels ==> result == Err::<(), ChannelIndexError>(
            ChannelIndexError { channel, max: (num_channels - 1) as usize },
        ),
{
    if channel >= num_channels {
        return Err(ChannelIndexError { channel, max: num_channels - 1 });
    }
    Ok(())
}

/// Why a channel's sound source could not be set.
#[derive(Debug)]
pub enum ChannelSetSourceError {
    /// No registered source has this id.
    SourceNotFound(String),
    /// The channel is not one of the mixer's channels.
    InvalidChannel(ChannelIndexError),
}

/// The answer to a request to give `channel` the source `source_id`: an
/// unknown source is refused first, then a channel that the mixer's
/// `num_channels` channels do not include; otherwise the request is echoed
/// as done.
pub fn channel_set_source_result(
    source_known: bool,
    channel: usize,
    num_channels: usize,
    source_id: String,
) -> (result: Result<ChannelSetSourceResponse, ChannelSetSourceError>)
    requires
        source_known ==> num_channels > 0,
    ensures
        !source_known ==> result == Err::<ChannelSetSourceResponse, ChannelSetSourceError>(
            ChannelSetSourceError::SourceNotFound(source_id),
        ),
        source_known && channel >= num_channels ==> result == Err::<
            ChannelSetSourceResponse,
            ChannelSetSourceError,
        >(
            ChannelSetSourceError::InvalidChannel(
                ChannelIndexError { channel, max: (num_channels - 1) as usize },
            ),
        ),
        source_known && channel < num_channels ==> result == Ok::<
            ChannelSetSourceResponse,
            ChannelSetSourceError,
        >(ChannelSetSourceResponse { channel, source_id, success: true }),
{
    if !source_known {
        return Err(ChannelSetSourceError::SourceNotFound(source_id));
    }
    match check_channel_index(channel, num_channels) {
        Err(error) => Err(ChannelSetSourceError::InvalidChannel(error)),
        Ok(()) => Ok(ChannelSetSourceResponse { channel, source_id, success: true }),
    }
}

/// The note that a grid cell receives from an update: the sent note, or the
/// default note when the update clears the cell.
pub open spec fn cell_note(note: Option<NoteDto>) -> Note {
    match note {
        Some(dto) => Note {
            pitch: dto.pitch,
            velocity: dto.velocity,
            start: dto.start,
            duration: dto.duration,
        },
        None => default_note(),
    }
}

/// `s`, lengthened to at least `len` elements by appending copies of `fill`.
pub open spec fn padded<T>(s: Seq<T>, len: nat, fill: T) -> Seq<T> {
    if s.len() >= len {
        s
    } else {
        s + Seq::new((len - s.len()) as nat, |_i: int| fill)
    }
}

/// A grid after writing `note` at `row` of `channel`: missing channel rows are
/// added empty, missing cells of the row are filled with the default note.
pub open spec fn grid_after_write(grid: Seq<Seq<Note>>, channel: nat, row: nat, note: Note) -> Seq<
    Seq<Note>,
> {
    let rows = padded(grid, channel + 1, Seq::<Note>::empty());
    let cells = padded(rows[channel as int], row + 1, default_note());
    rows.update(channel as int, cells.update(row as int, note))
}

/// A written cell reads back as the written note; the grid grows to hold
/// the channel, and the row to hold the cell, and no further.
pub proof fn lemma_write_then_read(grid: Seq<Seq<Note>>, channel: nat, row: nat, note: Note)
    ensures
        ({
            let written = grid_after_write(grid, channel, row, note);
            &&& written.len() == if grid.len() > channel {
                grid.len()
            } else {
                channel + 1
            }
            &&& channel < grid.len() ==> written[channel as int].len() == if grid[channel as int].len()
                > row {
                grid[channel as int].len()
            } else {
                row + 1
            }
            &&& channel >= grid.len() ==> written[channel as int].len() == row + 1
            &&& written[channel as int][row as int] == note
        }),
{
}

/// Writing a cell adds nothing the user did not write: the rows added for
/// the channels before the written one are empty, every other row the grid
/// held is unchanged, and the cells added to the written row before the
/// written cell hold the default note (middle C at velocity 100, starting at
/// step 0, one step long).
pub proof fn lemma_write_adds_only_blanks(grid: Seq<Seq<Note>>, channel: nat, row: nat, note: Note)
    ensures
        forall|c: int|
            grid.len() <= c < channel ==> (#[trigger] grid_after_write(grid, channel, row, note)[c]).len()
                == 0,
        forall|c: int|
            0 <= c < grid.len() && c != channel ==> #[trigger] grid_after_write(
                grid,
                channel,
                row,
                note,
            )[c] == grid[c],
        forall|r: int|
            0 <= r < row && (channel >= grid.len() || r >= grid[channel as int].len()) ==> #[trigger] grid_after_write(
                grid,
                channel,
                row,
                note,
            )[channel as int][r] == (Note { pitch: 60, velocity: 100, start: 0, duration: 1 }),
{
}

/// Writing a cell changes no other cell that the grid held.
pub proof fn lemma_write_keeps_other_cells(
    grid: Seq<Seq<Note>>,
    channel: nat,
    row: nat,
    note: Note,
    c: int,
    r: int,
)
    requires
        0 <= c < grid.len(),
        0 <= r < grid[c].len(),
        c != channel || r != row,
    ensures
        grid_after_write(grid, channel, row, note)[c][r] == grid[c][r],
{
}

/// A note with a velocity above zero, once written into a grid, is among the
/// notes that the channel plays at the note's start step.
pub proof fn lemma_written_note_sounds(grid: Seq<Seq<Note>>, channel: nat, row: nat, note: Note)
    requires
        note.velocity > 0,
    ensures
        grid_after_write(grid, channel, row, note)[channel as int].filter(
            sounds_at(note.start as u32),
        ).contains(note),
{
    let cells = grid_after_write(grid, channel, row, note)[channel as int];
    lemma_write_then_read(grid, channel, row, note);
    cells.lemma_filter_contains(sounds_at(note.start as u32), row as int);
}

/// Sets cell `row` of a channel row to `note`, first filling the row with
/// default notes up to that cell.
fn write_row_cell(cells: &mut Vec<Note>, row: usize, note: Note)
    requires
        row < usize::MAX,
    ensures
        final(cells)@ == padded(old(cells)@, (row + 1) as nat, default_note()).update(
            row as int,
            note,
        ),
{
    let ghost start = cells@;
    while cells.len() <= row
        invariant
            row < usize::MAX,
            cells@ == padded(start, cells@.len(), default_note()),
            cells@.len() >= start.len(),
            cells@.len() == start.len() || cells@.len() <= row + 1,
        decreases row + 1 - cells@.len(),
    {
        cells.push(Note::default());
        proof {
            assert(padded(start, cells@.len(), default_note()) =~= cells@);
        }
    }
    proof {
        assert(cells@ =~= padded(start, (row + 1) as nat, default_note()));
    }
    cells.set(row, note);
}

/// Writes `note` at `row` of `channel`, growing the grid as needed.
fn write_grid_cell(grid: &mut Vec<Vec<Note>>, channel: usize, row: usize, note: Note)
    requires
        channel < usize::MAX,
        row < usize::MAX,
    ensures
        final(grid)@.map_values(|r: Vec<Note>| r@) == grid_after_write(
            old(grid)@.map_values(|r: Vec<Note>| r@),
            channel as nat,
            row as nat,
            note,
        ),
{
    let ghost start = old(grid)@.map_values(|r: Vec<Note>| r@);
    while grid.len() <= channel
        invariant
            channel < usize::MAX,
            grid@.map_values(|r: Vec<Note>| r@) == padded(start, grid@.len(), Seq::<Note>::empty()),
            grid@.len() >= start.len(),
            grid@.len() == start.len() || grid@.len() <= channel + 1,
        decreases channel + 1 - grid@.len(),
    {
        let ghost before = grid@.map_values(|r: Vec<Note>| r@);
        let empty_row: Vec<Note> = Vec::new();
        assert(empty_row@ == Seq::<Note>::empty());
        grid.push(empty_row);
        proof {
            let after = grid@.map_values(|r: Vec<Note>| r@);
            assert(after =~= before.push(Seq::<Note>::empty()));
            assert(after =~= padded(start, grid@.len(), Seq::<Note>::empty()));
        }
    }
    let ghost rows = grid@.map_values(|r: Vec<Note>| r@);
    proof {
        assert(rows =~= padded(start, (channel + 1) as nat, Seq::<Note>::empty()));
    }
    write_row_cell(&mut grid[channel], row, note);
    proof {
        assert(grid@.map_values(|r: Vec<Note>| r@) =~= grid_after_write(
            start,
            channel as nat,
            row as nat,
            note,
        ));
    }
}

/// Applies a pattern update to the project's patterns: the update succeeds
/// when `pattern_index` names a pattern, and then writes the cell at
/// `cell_row` of channel `channel` in that pattern's grid; no other pattern,
/// nor the pattern's id, name or length, changes. A grid cannot grow to an
/// index of `usize::MAX`, so a successful update needs the channel and the
/// row below it.
pub fn apply_pattern_update(patterns: &mut Vec<Pattern>, request: &PatternUpdateRequest) -> (response:
    PatternUpdateResponse)
    requires
        request.pattern_index < old(patterns)@.len() ==> request.channel < usize::MAX
            && request.cell_row < usize::MAX,
    ensures
        response.success == (request.pattern_index < old(patterns)@.len()),
        !response.success ==> final(patterns)@ == old(patterns)@,
        response.success ==> {
            let i = request.pattern_index as int;
            &&& final(patterns)@.len() == old(patterns)@.len()
            &&& forall|j: int|
                0 <= j < old(patterns)@.len() && j != i ==> final(patterns)@[j] == old(
                    patterns,
                )@[j]
            &&& final(patterns)@[i].id == old(patterns)@[i].id
            &&& final(patterns)@[i].name == old(patterns)@[i].name
            &&& final(patterns)@[i].length == old(patterns)@[i].length
            &&& final(patterns)@[i].grid_view() == grid_after_write(
                old(patterns)@[i].grid_view(),
                request.channel as nat,
                request.cell_row as nat,
                cell_note(request.note),
            )
        },
        response.success ==> {
            let i = request.pattern_index as int;
            let before = old(patterns)@[i].grid_view();
            let after = final(patterns)@[i].grid_view();
            &&& after.len() == if before.len() > request.channel {
                before.len() as int
            } else {
                request.channel + 1
            }
            &&& forall|c: int|
                before.len() <= c < request.channel ==> (#[trigger] after[c]).len() == 0
            &&& forall|c: int|
                0 <= c < before.len() && c != request.channel ==> #[trigger] after[c] == before[c]
            &&& after[request.channel as int][request.cell_row as int] == cell_note(request.note)
        },
{
    if request.pattern_index >= patterns.len() {
        return PatternUpdateResponse { success: false };
    }
    let note = match request.note {
        Some(dto) => Note::from(dto),
        None => Note::default(),
    };
    let pattern = &mut patterns[request.pattern_index];
    write_grid_cell(&mut pattern.grid, request.channel, request.cell_row, note);
    proof {
        let i = request.pattern_index as int;
        let before = old(patterns)@[i].grid_view();
        lemma_write_then_read(before, request.channel as nat, request.cell_row as nat, note);
        lemma_write_adds_only_blanks(before, request.channel as nat, request.cell_row as nat, note);
    }
    PatternUpdateResponse { success: true }
}

/// The answer to a play request: playing, from the requested position or 0.
pub fn transport_play_response(request: &TransportPlayRequest) -> (response: TransportPlayResponse)
    ensures
        response.playing,
        response.position == match request.position {
            Some(position) => position,
            None => 0,
        },
{
    TransportPlayResponse { playing: true, position: request.position.unwrap_or(0) }
}

/// The answer to a stop request: stopped, at position 0.
pub fn transport_stop_response() -> (response: TransportStopResponse)
    ensures
        !response.playing,
        response.position == 0,
{
    TransportStopResponse { playing: false, position: 0 }
}

/// The answer to a tempo change: the tempo that was set.
pub fn transport_set_tempo_response(request: &TransportSetTempoRequest) -> (response:
    TransportSetTempoResponse)
    ensures
        response.tempo == request.tempo,
{
    TransportSetTempoResponse { tempo: request.tempo }
}

} // verus!
