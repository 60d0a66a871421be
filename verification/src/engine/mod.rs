//! Audio engine logic: the step sequencer and the playhead it reports.

pub mod mixer;
pub mod sequencer;

use vstd::prelude::*;

use crate::dto::PlayheadEvent;

pub use mixer::MAX_CHANNELS;
pub use sequencer::{get_notes_for_step, SequencerState, DEFAULT_STEPS, TICKS_PER_BEAT};

verus! {

/// Sample rate the engine starts with.
pub const DEFAULT_SAMPLE_RATE: u32 = 48000;

/// Buffer size the engine starts with.
pub const DEFAULT_BUFFER_SIZE: u32 = 256;

/// Interval between two levels events, in milliseconds.
pub const LEVELS_INTERVAL_MS: u64 = 50;

/// What the event loop does in one round.
#[derive(Debug, Clone, Copy, PartialEq, Eq, Structural)]
pub struct EventLoopStep {
    /// The engine stopped: leave the loop.
    pub stop: bool,
    /// Emit a levels event in this round.
    pub emit_levels: bool,
    /// When levels were last emitted, after this round.
    pub last_levels_ms: u64,
}

/// One round of the event loop, at `now_ms` on the loop's clock: a stopped
/// engine ends the loop; a running one emits levels when at least
/// `LEVELS_INTERVAL_MS` have passed since the last levels event.
pub fn event_loop_step(is_running: bool, now_ms: u64, last_levels_ms: u64) -> (step: EventLoopStep)
    ensures
        step.stop == !is_running,
        step.emit_levels == (is_running && now_ms >= last_levels_ms + LEVELS_INTERVAL_MS),
        step.last_levels_ms == if step.emit_levels {
            now_ms
        } else {
            last_levels_ms
        },
{
    if !is_running {
        return EventLoopStep { stop: true, emit_levels: false, last_levels_ms };
    }
    if now_ms >= last_levels_ms && now_ms - last_levels_ms >= LEVELS_INTERVAL_MS {
        EventLoopStep { stop: false, emit_levels: true, last_levels_ms: now_ms }
    } else {
        EventLoopStep { stop: false, emit_levels: false, last_levels_ms }
    }
}

/// The playhead position that the sequencer is at.
pub open spec fn playhead_of(sequencer: SequencerState) -> PlayheadEvent {
    PlayheadEvent {
        bar: sequencer.current_beat / 4,
        beat: sequencer.current_beat % 4,
        step: sequencer.current_step,
        tick: sequencer.current_tick,
        is_playing: sequencer.is_playing,
    }
}

/// An event is due when playback runs and the step differs from the last one reported.
pub open spec fn playhead_event_due(sequencer: SequencerState, last_emitted_step: u32) -> bool {
    sequencer.current_step != last_emitted_step && sequencer.is_playing
}

/// Checks whether the step changed since the last report; if so, records the
/// new step in `last_emitted_step` and returns the event to emit.
pub fn poll_playhead_event(sequencer: &SequencerState, last_emitted_step: &mut u32) -> (event:
    Option<PlayheadEvent>)
    ensures
        playhead_event_due(*sequencer, *old(last_emitted_step)) ==> {
            &&& event == Some(playhead_of(*sequencer))
            &&& *final(last_emitted_step) == sequencer.current_step
        },
        !playhead_event_due(*sequencer, *old(last_emitted_step)) ==> {
            &&& event is None
            &&& *final(last_emitted_step) == *old(last_emitted_step)
        },
        sequencer.is_playing && sequencer.current_step != *old(last_emitted_step) ==> {
            &&& event matches Some(e) && {
                &&& e.step == sequencer.current_step
                &&& e.bar == sequencer.current_beat / 4
                &&& e.beat == sequencer.current_beat % 4
                &&& e.tick == sequencer.current_tick
                &&& e.is_playing
            }
            &&& *final(last_emitted_step) == sequencer.current_step
        },
        !sequencer.is_playing || sequencer.current_step == *old(last_emitted_step) ==> {
            &&& event is None
            &&& *final(last_emitted_step) == *old(last_emitted_step)
        },
{
    let current_step = sequencer.current_step;
    if current_step != *last_emitted_step && sequencer.is_playing {
        *last_emitted_step = current_step;
        Some(
            PlayheadEvent {
                bar: sequencer.current_bar(),
                beat: sequencer.current_beat_in_bar(),
                step: current_step,
                tick: sequencer.current_tick,
                is_playing: sequencer.is_playing,
            },
        )
    } else {
        None
    }
}

/// An event is due exactly when playback runs and the step, whichever it is
/// (the first step of the pattern included), differs from the last one
/// reported; the event reports that step, its bar, its beat within the bar
/// and its tick.
pub proof fn lemma_playhead_event_exactly_on_step_change(sequencer: SequencerState, last_emitted_step: u32)
    ensures
        playhead_event_due(sequencer, last_emitted_step) <==> (sequencer.is_playing
            && sequencer.current_step != last_emitted_step),
        playhead_of(sequencer).step == sequencer.current_step,
        playhead_of(sequencer).bar == sequencer.current_beat / 4,
        playhead_of(sequencer).beat == sequencer.current_beat % 4,
        playhead_of(sequencer).beat < 4,
        playhead_of(sequencer).tick == sequencer.current_tick,
        playhead_of(sequencer).is_playing == sequencer.is_playing,
{
}

/// A step change is reported once: after a poll, polling again before the
/// sequencer moves reports nothing.
pub proof fn lemma_playhead_reported_once(sequencer: SequencerState, last_emitted_step: u32)
    ensures
        !playhead_event_due(
            sequencer,
            if playhead_event_due(sequencer, last_emitted_step) {
                sequencer.current_step
            } else {
                last_emitted_step
            },
        ),
{
}

} // verus!
