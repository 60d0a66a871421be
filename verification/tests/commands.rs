use gridforge::commands::{
    apply_pattern_update, channel_set_source_result, check_preview_note, check_channel_index, ChannelSetSourceError, check_note_preview, transport_play_response,
    transport_set_tempo_response, transport_stop_response, ChannelIndexError, PreviewError,
};
use gridforge::dto::{
    NoteDto, PatternUpdateRequest, ProjectNewRequest, TransportPlayRequest,
    TransportSetTempoRequest,
};
use gridforge::project::{ChannelType, Note, Pattern, Sequence, TimeSignature, PROJECT_VERSION};

#[test]
fn note_preview_checks_each_value() {
    assert_eq!(check_note_preview(0, 60, 100), Ok(()));
    assert_eq!(check_note_preview(15, 127, 127), Ok(()));
    assert_eq!(check_note_preview(16, 60, 100), Err(PreviewError::InvalidChannel(16)));
    assert_eq!(check_note_preview(3, 128, 100), Err(PreviewError::InvalidNote(128)));
    assert_eq!(check_note_preview(3, 60, 200), Err(PreviewError::InvalidVelocity(200)));
    // The channel is checked first, then the note.
    assert_eq!(check_note_preview(20, 200, 200), Err(PreviewError::InvalidChannel(20)));
    assert_eq!(check_note_preview(1, 200, 200), Err(PreviewError::InvalidNote(200)));
}

#[test]
fn channel_index_must_name_a_channel() {
    assert_eq!(check_channel_index(0, 4), Ok(()));
    assert_eq!(check_channel_index(3, 4), Ok(()));
    assert_eq!(check_channel_index(4, 4), Err(ChannelIndexError { channel: 4, max: 3 }));
    assert_eq!(check_channel_index(9, 1), Err(ChannelIndexError { channel: 9, max: 0 }));
}

fn dto(pitch: u8, velocity: u8, start: u16, duration: u16) -> NoteDto {
    NoteDto { pitch, velocity, start, duration }
}

fn request(pattern_index: usize, channel: usize, cell_row: usize, note: Option<NoteDto>) -> PatternUpdateRequest {
    PatternUpdateRequest { channel, pattern_index, cell_row, cell_col: 0, note }
}

#[test]
fn pattern_update_grows_the_grid_and_writes_the_cell() {
    let mut patterns = vec![Pattern::new(), Pattern::new()];
    let response = apply_pattern_update(&mut patterns, &request(1, 2, 3, Some(dto(72, 90, 3, 2))));
    assert!(response.success);
    assert!(patterns[0].grid.is_empty());
    let grid = &patterns[1].grid;
    assert_eq!(grid.len(), 3);
    assert!(grid[0].is_empty());
    assert!(grid[1].is_empty());
    assert_eq!(grid[2].len(), 4);
    for row in 0..3 {
        let filler = grid[2][row];
        assert_eq!((filler.pitch, filler.velocity, filler.start, filler.duration), (60, 100, 0, 1));
    }
    let written = grid[2][3];
    assert_eq!((written.pitch, written.velocity, written.start, written.duration), (72, 90, 3, 2));
    assert_eq!(patterns[1].name, "Pattern 1");
    assert_eq!(patterns[1].length, 16);
}

#[test]
fn pattern_update_clears_a_cell_to_the_default_note() {
    let mut patterns = vec![Pattern::new()];
    assert!(apply_pattern_update(&mut patterns, &request(0, 0, 1, Some(dto(50, 60, 1, 4)))).success);
    assert!(apply_pattern_update(&mut patterns, &request(0, 0, 0, Some(dto(51, 61, 0, 4)))).success);
    assert!(apply_pattern_update(&mut patterns, &request(0, 0, 1, None)).success);
    let row = &patterns[0].grid[0];
    assert_eq!(row.len(), 2);
    assert_eq!((row[0].pitch, row[0].velocity), (51, 61));
    assert_eq!((row[1].pitch, row[1].velocity, row[1].start, row[1].duration), (60, 100, 0, 1));
}

#[test]
fn pattern_update_with_unknown_pattern_fails_and_changes_nothing() {
    let mut patterns = vec![Pattern::new()];
    let response = apply_pattern_update(&mut patterns, &request(1, 0, 0, Some(dto(60, 100, 0, 1))));
    assert!(!response.success);
    assert_eq!(patterns.len(), 1);
    assert!(patterns[0].grid.is_empty());
    let mut none: Vec<Pattern> = Vec::new();
    assert!(!apply_pattern_update(&mut none, &request(0, 0, 0, None)).success);
    assert!(none.is_empty());
    // With no pattern to grow, even unreachable indices just fail.
    assert!(!apply_pattern_update(&mut none, &request(0, usize::MAX, usize::MAX, None)).success);
    assert!(none.is_empty());
}

#[test]
fn written_note_plays_at_its_step() {
    let mut patterns = vec![Pattern::new()];
    apply_pattern_update(&mut patterns, &request(0, 1, 2, Some(dto(67, 80, 6, 1))));
    let notes = gridforge::engine::get_notes_for_step(&patterns[0], 1, 6);
    assert_eq!(notes.len(), 1);
    assert_eq!(notes[0].pitch, 67);
}

#[test]
fn transport_answers() {
    let play = transport_play_response(&TransportPlayRequest { position: Some(12) });
    assert!(play.playing);
    assert_eq!(play.position, 12);
    let play = transport_play_response(&TransportPlayRequest { position: None });
    assert!(play.playing);
    assert_eq!(play.position, 0);
    let stop = transport_stop_response();
    assert!(!stop.playing);
    assert_eq!(stop.position, 0);
    assert_eq!(transport_set_tempo_response(&TransportSetTempoRequest { tempo: 95 }).tempo, 95);
}

#[test]
fn note_dto_conversions_keep_every_field() {
    let note = Note { pitch: 1, velocity: 2, start: 300, duration: 400 };
    let sent = NoteDto::from(note);
    assert_eq!((sent.pitch, sent.velocity, sent.start, sent.duration), (1, 2, 300, 400));
    let back = Note::from(sent);
    assert_eq!((back.pitch, back.velocity, back.start, back.duration), (1, 2, 300, 400));
}

#[test]
fn project_parts_have_their_defaults() {
    assert_eq!(PROJECT_VERSION, "1.0.0");
    assert_eq!(ChannelType::default(), ChannelType::Pitch);
    let signature = TimeSignature::default();
    assert_eq!((signature.numerator, signature.denominator), (4, 4));
    let note = Note::default();
    assert_eq!((note.pitch, note.velocity, note.start, note.duration), (60, 100, 0, 1));
    let pattern = Pattern::default();
    assert_eq!(pattern.id, 0);
    assert_eq!(pattern.name, "Pattern 1");
    assert_eq!(pattern.length, 16);
    assert!(pattern.grid.is_empty());
    let sequence = Sequence::default();
    assert_eq!(sequence.id, 0);
    assert_eq!(sequence.name, "Sequence 1");
    assert!(sequence.pattern_indices.is_empty());
    assert!(ProjectNewRequest::default().name.is_none());
}

#[test]
fn channel_source_change_checks_source_then_channel() {
    match channel_set_source_result(false, 9, 0, "fm".to_string()) {
        Err(ChannelSetSourceError::SourceNotFound(id)) => assert_eq!(id, "fm"),
        other => panic!("unexpected {:?}", other),
    }
    match channel_set_source_result(true, 4, 4, "chip_synth".to_string()) {
        Err(ChannelSetSourceError::InvalidChannel(error)) => {
            assert_eq!(error, ChannelIndexError { channel: 4, max: 3 })
        }
        other => panic!("unexpected {:?}", other),
    }
    let response = channel_set_source_result(true, 2, 4, "chip_synth".to_string()).expect("valid");
    assert_eq!(response.channel, 2);
    assert_eq!(response.source_id, "chip_synth");
    assert!(response.success);
}

#[test]
fn engine_preview_checks_note_then_velocity() {
    assert_eq!(check_preview_note(60, 100), Ok(()));
    assert_eq!(check_preview_note(127, 127), Ok(()));
    assert_eq!(check_preview_note(128, 100), Err(PreviewError::InvalidNote(128)));
    assert_eq!(check_preview_note(60, 128), Err(PreviewError::InvalidVelocity(128)));
    assert_eq!(check_preview_note(255, 255), Err(PreviewError::InvalidNote(255)));
}
