//! Tick-based step sequencer for pattern playback.
//!
//! The sequencer counts audio samples, advances one step (a sixteenth note)
//! each time a step's worth of samples has elapsed, and wraps around a
//! pattern of sixteen steps.

use vstd::prelude::*;

use crate::project::{Note, Pattern};

verus! {

/// Ticks per beat (pulses per quarter note).
pub const TICKS_PER_BEAT: u32 = 24;

/// Steps per pattern (the default pattern length).
pub const DEFAULT_STEPS: u32 = 16;

/// Samples in one step: `sample_rate * 60 / (tempo * 4)` rounded up, four
/// steps (sixteenth notes) to a beat.
///
/// A tempo of 0 gives an unbounded step: `u64::MAX` samples, or 0 when the
/// sample rate is 0 too.
pub open spec fn spec_samples_per_step(sample_rate: u32, tempo: u16) -> u64 {
    if tempo == 0 {
        if sample_rate == 0 {
            0
        } else {
            u64::MAX
        }
    } else {
        ((sample_rate * 60 + tempo * 4 - 1) / (tempo * 4)) as u64
    }
}

/// Calculates the number of samples in one step from the tempo and the sample rate.
///
/// Formula: `samples_per_step = sample_rate * 60 / (tempo * steps_per_beat)`,
/// rounded up, where `steps_per_beat = 4` (sixteenth notes in 4/4 time).
pub fn calculate_samples_per_step(sample_rate: u32, tempo: u16) -> (samples: u64)
    ensures
        samples == spec_samples_per_step(sample_rate, tempo),
{
    if tempo == 0 {
        if sample_rate == 0 {
            0
        } else {
            u64::MAX
        }
    } else {
        let samples_per_minute: u64 = (sample_rate as u64) * 60;
        let steps_per_minute: u64 = (tempo as u64) * 4;
        (samples_per_minute + steps_per_minute - 1) / steps_per_minute
    }
}

/// A step lasts `sample_rate * 60 / (tempo * 4)` samples rounded up: the
/// step count times `tempo * 4` reaches a minute's worth of samples, and one
/// step fewer would not.
pub proof fn lemma_samples_per_step_is_ceiling(sample_rate: u32, tempo: u16)
    requires
        tempo > 0,
    ensures
        spec_samples_per_step(sample_rate, tempo) * (tempo * 4) >= sample_rate * 60,
        spec_samples_per_step(sample_rate, tempo) * (tempo * 4) < sample_rate * 60 + tempo * 4,
{
    let a: int = sample_rate * 60;
    let b: int = tempo * 4;
    let q: int = (a + b - 1) / b;
    assert(q * b <= a + b - 1 && a + b - 1 < q * b + b) by (nonlinear_arith)
        requires
            b > 0,
            a >= 0,
            q == (a + b - 1) / b,
    ;
    assert(q <= u64::MAX) by (nonlinear_arith)
        requires
            b >= 4,
            0 <= a <= 0xffff_ffff * 60,
            q == (a + b - 1) / b,
    ;
}

/// The tick within a step that `elapsed` samples into the step reach: the
/// whole ticks since the step began, counted around the step's ticks.
pub open spec fn tick_within_step(elapsed: u64, samples_per_tick: u64) -> u32 {
    ((elapsed / samples_per_tick) % (TICKS_PER_BEAT as u64)) as u32
}

/// Sequencer state.
#[derive(Debug, Clone)]
pub struct SequencerState {
    pub is_playing: bool,
    /// Current step within the pattern (0 to DEFAULT_STEPS-1).
    pub current_step: u32,
    pub current_beat: u32,
    pub tempo: u16,
    pub sample_rate: u32,
    /// Current tick within the current step (0 to TICKS_PER_BEAT-1).
    pub current_tick: u32,
    /// Samples elapsed since the last step.
    pub samples_elapsed: u64,
    /// Samples per step (calculated from the tempo).
    pub samples_per_step: u64,
}

impl SequencerState {
    /// The position is inside the pattern and the step length matches the
    /// tempo and sample rate.
    pub open spec fn wf(&self) -> bool {
        &&& self.current_step < DEFAULT_STEPS
        &&& self.current_tick < TICKS_PER_BEAT
        &&& self.current_beat < 0x1000_0000
        &&& self.samples_per_step == spec_samples_per_step(self.sample_rate, self.tempo)
    }

    /// The state after moving to the next step.
    pub open spec fn spec_advance_step(self) -> SequencerState {
        let step = ((self.current_step + 1) % (DEFAULT_STEPS as int)) as u32;
        SequencerState {
            current_step: step,
            current_beat: if step == 0 {
                ((self.current_beat + 1) % 4) as u32
            } else {
                self.current_beat
            },
            ..self
        }
    }

    /// Processing `samples` samples does not overflow a counter.
    pub open spec fn process_defined(self, samples: nat) -> bool {
        self.is_playing ==> {
            let elapsed = self.samples_elapsed + samples;
            &&& elapsed <= u64::MAX
            &&& elapsed >= self.samples_per_step ==> {
                &&& self.current_step < u32::MAX
                &&& (self.current_step + 1) % (DEFAULT_STEPS as int) == 0 ==> self.current_beat
                    < u32::MAX
            }
        }
    }

    /// The state after processing `samples` samples, and whether a new step began.
    pub open spec fn spec_process(self, samples: nat) -> (SequencerState, bool) {
        if !self.is_playing {
            (self, false)
        } else {
            let elapsed = self.samples_elapsed + samples;
            let samples_per_tick = self.samples_per_step / (TICKS_PER_BEAT as u64);
            let tick = if samples_per_tick > 0 {
                tick_within_step(elapsed as u64, samples_per_tick)
            } else {
                self.current_tick
            };
            if elapsed >= self.samples_per_step {
                (
                    SequencerState {
                        samples_elapsed: (elapsed - self.samples_per_step) as u64,
                        current_tick: 0,
                        ..self
                    }.spec_advance_step(),
                    true,
                )
            } else {
                (SequencerState { samples_elapsed: elapsed as u64, current_tick: tick, ..self }, false)
            }
        }
    }

    /// A stopped sequencer at the start of the pattern.
    pub fn new(sample_rate: u32, tempo: u16) -> (state: Self)
        ensures
            state == (SequencerState {
                is_playing: false,
                current_step: 0,
                current_beat: 0,
                tempo,
                sample_rate,
                current_tick: 0,
                samples_elapsed: 0,
                samples_per_step: spec_samples_per_step(sample_rate, tempo),
            }),
            state.wf(),
    {
        let samples_per_step = calculate_samples_per_step(sample_rate, tempo);
        SequencerState {
            is_playing: false,
            current_step: 0,
            current_beat: 0,
            tempo,
            sample_rate,
            current_tick: 0,
            samples_elapsed: 0,
            samples_per_step,
        }
    }

    /// Updates the tempo and recalculates the step length.
    pub fn set_tempo(&mut self, tempo: u16)
        ensures
            *final(self) == (SequencerState {
                tempo,
                samples_per_step: spec_samples_per_step(old(self).sample_rate, tempo),
                ..*old(self)
            }),
            old(self).wf() ==> final(self).wf(),
    {
        self.tempo = tempo;
        self.samples_per_step = calculate_samples_per_step(self.sample_rate, tempo);
    }

    /// Processes a buffer of `samples` samples; returns true if playback moved
    /// to a new step.
    pub fn process(&mut self, samples: usize) -> (stepped: bool)
        requires
            old(self).process_defined(samples as nat),
        ensures
            (*final(self), stepped) == old(self).spec_process(samples as nat),
            old(self).wf() ==> final(self).wf(),
            stepped <==> old(self).is_playing && old(self).samples_elapsed + samples
                >= old(self).samples_per_step,
            stepped ==> {
                &&& final(self).current_step == (old(self).current_step + 1) % (
                DEFAULT_STEPS as int)
                &&& final(self).current_beat == if final(self).current_step == 0 {
                    (old(self).current_beat + 1) % 4
                } else {
                    old(self).current_beat as int
                }
                &&& final(self).current_tick == 0
                &&& final(self).samples_elapsed == old(self).samples_elapsed + samples
                    - old(self).samples_per_step
            },
            !stepped ==> {
                &&& final(self).current_step == old(self).current_step
                &&& final(self).current_beat == old(self).current_beat
            },
            old(self).is_playing && !stepped ==> final(self).samples_elapsed
                == old(self).samples_elapsed + samples,
            ({
                let samples_per_tick: int = old(self).samples_per_step as int / (TICKS_PER_BEAT as int);
                old(self).is_playing && !stepped && samples_per_tick > 0 ==> final(self).current_tick
                    == (final(self).samples_elapsed as int / samples_per_tick) % (TICKS_PER_BEAT as int)
            }),
    {
        if !self.is_playing {
            return false;
        }
        self.samples_elapsed = self.samples_elapsed + samples as u64;

        // Update the tick position within the current step.
        let samples_per_tick = self.samples_per_step / (TICKS_PER_BEAT as u64);
        if samples_per_tick > 0 {
            self.current_tick = ((self.samples_elapsed / samples_per_tick) % (
            TICKS_PER_BEAT as u64)) as u32;
        }
        if self.samples_elapsed >= self.samples_per_step {
            self.samples_elapsed = self.samples_elapsed - self.samples_per_step;
            self.current_tick = 0;
            self.advance_step();
            true
        } else {
            false
        }
    }

    /// Advances to the next step.
    fn advance_step(&mut self)
        requires
            old(self).current_step < u32::MAX,
            (old(self).current_step + 1) % (DEFAULT_STEPS as int) == 0 ==> old(self).current_beat
                < u32::MAX,
        ensures
            *final(self) == old(self).spec_advance_step(),
    {
        self.current_step = (self.current_step + 1) % DEFAULT_STEPS;
        if self.current_step == 0 {
            self.current_beat = (self.current_beat + 1) % 4;
        }
    }

    /// Starts playback.
    pub fn play(&mut self)
        ensures
            *final(self) == (SequencerState { is_playing: true, ..*old(self) }),
    {
        self.is_playing = true;
    }

    /// Stops playback and returns to the start of the pattern.
    pub fn stop(&mut self)
        ensures
            *final(self) == (SequencerState {
                is_playing: false,
                current_step: 0,
                current_beat: 0,
                current_tick: 0,
                samples_elapsed: 0,
                ..*old(self)
            }),
            old(self).wf() ==> final(self).wf(),
    {
        self.is_playing = false;
        self.current_step = 0;
        self.current_beat = 0;
        self.current_tick = 0;
        self.samples_elapsed = 0;
    }

    /// Current bar number (0-indexed).
    pub fn current_bar(&self) -> (bar: u32)
        ensures
            bar == self.current_beat / 4,
    {
        self.current_beat / 4
    }

    /// Current beat within the bar (0-3).
    pub fn current_beat_in_bar(&self) -> (beat: u32)
        ensures
            beat == self.current_beat % 4,
            beat < 4,
    {
        self.current_beat % 4
    }

    /// Seeks to a specific step: the step within the pattern and the number
    /// of whole patterns before it.
    pub fn seek(&mut self, step: u32)
        ensures
            *final(self) == (SequencerState {
                current_step: step % DEFAULT_STEPS,
                current_beat: step / DEFAULT_STEPS,
                samples_elapsed: 0,
                ..*old(self)
            }),
            old(self).wf() ==> final(self).wf(),
    {
        self.current_step = step % DEFAULT_STEPS;
        self.current_beat = step / DEFAULT_STEPS;
        self.samples_elapsed = 0;
    }
}

/// Processing exactly one step's worth of samples from the start of a step
/// moves playback to the next step (wrapping after the last step of the
/// pattern) and to the start of that step; it overflows no counter.
pub proof fn lemma_whole_step_advances(state: SequencerState)
    requires
        state.wf(),
        state.is_playing,
        state.samples_elapsed == 0,
    ensures
        state.process_defined(state.samples_per_step as nat),
        ({
            let (next, stepped) = state.spec_process(state.samples_per_step as nat);
            &&& stepped
            &&& next.current_step == (state.current_step + 1) % (DEFAULT_STEPS as int)
            &&& next.current_beat == if next.current_step == 0 {
                (state.current_beat + 1) % 4
            } else {
                state.current_beat as int
            }
            &&& next.current_tick == 0
            &&& next.samples_elapsed == 0
            &&& next.wf()
            &&& next.is_playing
        }),
{
    let sps = state.samples_per_step;
    let spt = sps / (TICKS_PER_BEAT as u64);
    if spt > 0 {
        assert(sps / spt < 48) by (nonlinear_arith)
            requires
                spt == sps / 24,
                spt > 0,
        ;
    }
}

/// The state after `n` steps' worth of samples, each processed in one call.
pub open spec fn after_whole_steps(state: SequencerState, n: nat) -> SequencerState
    decreases n,
{
    if n == 0 {
        state
    } else {
        after_whole_steps(state, (n - 1) as nat).spec_process(state.samples_per_step as nat).0
    }
}

/// Playing `n` whole steps from the start of a step moves playback `n` steps
/// forward around the pattern.
pub proof fn lemma_whole_steps_advance(state: SequencerState, n: nat)
    requires
        state.wf(),
        state.is_playing,
        state.samples_elapsed == 0,
    ensures
        ({
            let later = after_whole_steps(state, n);
            &&& later.wf()
            &&& later.is_playing
            &&& later.samples_elapsed == 0
            &&& later.samples_per_step == state.samples_per_step
            &&& later.current_step == (state.current_step + n) % (DEFAULT_STEPS as int)
            &&& later.current_beat == if (state.current_step + n) / (DEFAULT_STEPS as int)
                == 0 {
                state.current_beat as int
            } else {
                (state.current_beat + (state.current_step + n) / (DEFAULT_STEPS as int)) % 4
            }
        }),
    decreases n,
{
    if n > 0 {
        lemma_whole_steps_advance(state, (n - 1) as nat);
        let before = after_whole_steps(state, (n - 1) as nat);
        lemma_whole_step_advances(before);
        let x: int = state.current_step + (n - 1);
        let b: int = state.current_beat as int;
        assert(((x % 16) + 1) % 16 == (x + 1) % 16) by (nonlinear_arith)
            requires
                x >= 0,
        ;
        if (x + 1) % 16 == 0 {
            assert((x + 1) / 16 == x / 16 + 1) by (nonlinear_arith)
                requires
                    x >= 0,
                    (x + 1) % 16 == 0,
            ;
            assert(((b + x / 16) % 4 + 1) % 4 == (b + x / 16 + 1) % 4) by (nonlinear_arith)
                requires
                    b >= 0,
                    x >= 0,
            ;
            assert(x % 16 == 15) by (nonlinear_arith)
                requires
                    x >= 0,
                    (x + 1) % 16 == 0,
            ;
        } else {
            assert((x + 1) / 16 == x / 16) by (nonlinear_arith)
                requires
                    x >= 0,
                    (x + 1) % 16 != 0,
            ;
        }
    }
}

/// Each time playback wraps from the last step of the pattern to the first,
/// the beat counter moves on by one, counting 0, 1, 2, 3 and around.
pub proof fn lemma_pattern_wrap_counts_beat(state: SequencerState, samples: nat)
    requires
        state.process_defined(samples),
        state.is_playing,
        state.current_step == DEFAULT_STEPS - 1,
        state.samples_elapsed + samples >= state.samples_per_step,
    ensures
        ({
            let (next, stepped) = state.spec_process(samples);
            &&& stepped
            &&& next.current_step == 0
            &&& next.current_beat == (state.current_beat + 1) % 4
        }),
{
}

/// From the start of a pattern at beat 0, `k` whole patterns of whole steps
/// leave playback at the start of the pattern on beat `k mod 4`.
pub proof fn lemma_pattern_count_is_beat(state: SequencerState, k: nat)
    requires
        state.wf(),
        state.is_playing,
        state.samples_elapsed == 0,
        state.current_step == 0,
        state.current_beat == 0,
    ensures
        after_whole_steps(state, k * (DEFAULT_STEPS as nat)).current_step == 0,
        after_whole_steps(state, k * (DEFAULT_STEPS as nat)).current_beat == k % 4,
{
    let n: nat = k * 16;
    lemma_whole_steps_advance(state, n);
    assert(n % 16 == 0 && n / 16 == k) by (nonlinear_arith)
        requires
            n == k * 16,
    ;
}

/// Within a step, the tick is the number of whole ticks since the step
/// began: from the start of a step, `k` ticks' worth of samples (fewer than
/// a step's 24 ticks) leave playback in the same step at tick `k`.
pub proof fn lemma_tick_counts_whole_ticks(state: SequencerState, k: nat)
    requires
        state.is_playing,
        state.samples_elapsed == 0,
        state.samples_per_step / (TICKS_PER_BEAT as u64) > 0,
        k < TICKS_PER_BEAT,
    ensures
        ({
            let samples_per_tick = (state.samples_per_step / (TICKS_PER_BEAT as u64)) as nat;
            let (next, stepped) = state.spec_process(k * samples_per_tick);
            &&& state.process_defined(k * samples_per_tick)
            &&& !stepped
            &&& next.current_step == state.current_step
            &&& next.samples_elapsed == k * samples_per_tick
            &&& next.current_tick == k
        }),
{
    let sps: int = state.samples_per_step as int;
    let spt: int = sps / 24;
    let e: int = k * spt;
    assert(e < sps && e / spt == k) by (nonlinear_arith)
        requires
            spt == sps / 24,
            spt > 0,
            e == k * spt,
            0 <= k < 24,
    ;
}

/// While a buffer does not complete the step, the tick that processing
/// leaves is the whole ticks since the step began, counted around the
/// step's 24 ticks.
pub proof fn lemma_tick_within_step(state: SequencerState, samples: nat)
    requires
        state.process_defined(samples),
        state.is_playing,
        state.samples_per_step / (TICKS_PER_BEAT as u64) > 0,
        state.samples_elapsed + samples < state.samples_per_step,
    ensures
        ({
            let samples_per_tick = (state.samples_per_step / (TICKS_PER_BEAT as u64)) as int;
            let (next, stepped) = state.spec_process(samples);
            &&& !stepped
            &&& next.samples_elapsed == state.samples_elapsed + samples
            &&& next.current_tick == (next.samples_elapsed as int / samples_per_tick) % 24
            &&& next.current_tick < 24
        }),
{
}

/// After a whole pattern of sixteen whole steps, playback is back at the
/// step it started from.
pub proof fn lemma_pattern_wraps(state: SequencerState)
    requires
        state.wf(),
        state.is_playing,
        state.samples_elapsed == 0,
    ensures
        after_whole_steps(state, DEFAULT_STEPS as nat).current_step == state.current_step,
        after_whole_steps(state, DEFAULT_STEPS as nat).current_beat == (state.current_beat + 1)
            % 4,
{
    lemma_whole_steps_advance(state, DEFAULT_STEPS as nat);
    let x: int = state.current_step + 16;
    assert(x / 16 == 1) by (nonlinear_arith)
        requires
            16 <= x < 32,
    ;
}

/// The state after processing each buffer of `calls` in turn, and how many
/// of those calls began a new step.
pub open spec fn process_run(state: SequencerState, calls: Seq<nat>) -> (SequencerState, nat)
    decreases calls.len(),
{
    if calls.len() == 0 {
        (state, 0)
    } else {
        let (before, steps) = process_run(state, calls.drop_last());
        let (after, stepped) = before.spec_process(calls.last());
        (after, if stepped {
            steps + 1
        } else {
            steps
        })
    }
}

/// Every call of the run overflows no counter.
pub open spec fn process_run_defined(state: SequencerState, calls: Seq<nat>) -> bool
    decreases calls.len(),
{
    calls.len() == 0 || {
        &&& process_run_defined(state, calls.drop_last())
        &&& process_run(state, calls.drop_last()).0.process_defined(calls.last())
    }
}

/// The number of samples in all the buffers of `calls`.
pub open spec fn total_samples(calls: Seq<nat>) -> nat
    decreases calls.len(),
{
    if calls.len() == 0 {
        0
    } else {
        total_samples(calls.drop_last()) + calls.last()
    }
}

/// No sample is lost or counted twice across calls: from the start of a
/// step, buffers of at most one step's length each begin
/// `total / samples_per_step` steps in all, playback is that many steps
/// further around the pattern, and the samples left over are the samples
/// into the current step. The counters hold either when a step is at most
/// half of `u64::MAX` samples long (every tempo above zero gives such a
/// step) or when all the buffers together hold at most `u64::MAX` samples
/// (the case of tempo zero, whose step is `u64::MAX` samples long).
pub proof fn lemma_samples_counted_once(state: SequencerState, calls: Seq<nat>)
    requires
        state.wf(),
        state.is_playing,
        state.samples_elapsed == 0,
        0 < state.samples_per_step,
        state.samples_per_step * 2 <= u64::MAX || total_samples(calls) <= u64::MAX,
        forall|i: int| 0 <= i < calls.len() ==> calls[i] <= state.samples_per_step,
    ensures
        process_run_defined(state, calls),
        ({
            let (last, steps) = process_run(state, calls);
            let total = total_samples(calls);
            &&& steps == total / (state.samples_per_step as nat)
            &&& last.current_step == (state.current_step + steps) % (DEFAULT_STEPS as int)
            &&& last.samples_elapsed == total % (state.samples_per_step as nat)
            &&& last.samples_per_step == state.samples_per_step
            &&& last.is_playing
            &&& last.wf()
        }),
    decreases calls.len(),
{
    let sps = state.samples_per_step as int;
    if calls.len() == 0 {
        vstd::arithmetic::div_mod::lemma_fundamental_div_mod_converse(0, sps, 0, 0);
    } else {
        let prefix = calls.drop_last();
        assert forall|i: int| 0 <= i < prefix.len() implies prefix[i] <= state.samples_per_step by {
            assert(prefix[i] == calls[i]);
        }
        lemma_samples_counted_once(state, prefix);
        let (before, steps) = process_run(state, prefix);
        let t = total_samples(prefix) as int;
        let k = calls.last() as int;
        let q = steps as int;
        let e = before.samples_elapsed as int;
        vstd::arithmetic::div_mod::lemma_fundamental_div_mod(t, sps);
        assert(0 <= e < sps) by {
            vstd::arithmetic::div_mod::lemma_mod_pos_bound(t, sps);
        }
        assert(t == q * sps + e) by (nonlinear_arith)
            requires
                t == sps * (t / sps) + (t % sps),
                q == t / sps,
                e == t % sps,
        ;
        assert(t + k == total_samples(calls));
        assert(e <= t) by (nonlinear_arith)
            requires
                t == q * sps + e,
                q >= 0,
                sps > 0,
        ;
        if e + k >= sps {
            assert(t + k == (q + 1) * sps + (e + k - sps)) by (nonlinear_arith)
                requires
                    t == q * sps + e,
            ;
            vstd::arithmetic::div_mod::lemma_fundamental_div_mod_converse(
                t + k,
                sps,
                q + 1,
                e + k - sps,
            );
            assert((((state.current_step + q) % 16) + 1) % 16 == (state.current_step + q + 1) % 16)
                by (nonlinear_arith);
        } else {
            vstd::arithmetic::div_mod::lemma_fundamental_div_mod_converse(t + k, sps, q, e + k);
        }
    }
}

/// After seeking to `step`, the pattern count and the step within the
/// pattern make up `step` again.
pub proof fn lemma_seek_position(state: SequencerState, step: u32)
    ensures
        ({
            let sought = SequencerState {
                current_step: step % DEFAULT_STEPS,
                current_beat: step / DEFAULT_STEPS,
                samples_elapsed: 0,
                ..state
            };
            sought.current_beat * DEFAULT_STEPS + sought.current_step == step
        }),
{
}

/// A stopped sequencer ignores the samples it is given.
pub proof fn lemma_stopped_holds_still(state: SequencerState, samples: nat)
    requires
        !state.is_playing,
    ensures
        state.process_defined(samples),
        state.spec_process(samples) == (state, false),
{
}

/// A note of a channel's row sounds at `step` when it starts there and has a
/// velocity above zero.
pub open spec fn sounds_at(step: u32) -> spec_fn(Note) -> bool {
    |note: Note| note.start as u32 == step && note.velocity > 0
}

/// The notes a channel plays at a step are exactly the notes of its row that
/// start at that step with a velocity above zero: every one of them starts
/// there and is heard, whatever the durations of the notes, and every such
/// note of the row is among them; they keep the row's order.
pub proof fn lemma_notes_for_step(row: Seq<Note>, step: u32)
    ensures
        forall|i: int|
            0 <= i < row.filter(sounds_at(step)).len() ==> {
                &&& (#[trigger] row.filter(sounds_at(step))[i]).start == step
                &&& row.filter(sounds_at(step))[i].velocity > 0
            },
        forall|i: int|
            0 <= i < row.len() && (#[trigger] row[i]).start == step && row[i].velocity > 0
                ==> row.filter(sounds_at(step)).contains(row[i]),
        row.filter(sounds_at(step)).len() <= row.len(),
{
    let found = row.filter(sounds_at(step));
    assert forall|i: int| 0 <= i < found.len() implies {
        &&& (#[trigger] found[i]).start == step
        &&& found[i].velocity > 0
    } by {
        row.lemma_filter_pred(sounds_at(step), i);
    }
    assert forall|i: int|
        0 <= i < row.len() && (#[trigger] row[i]).start == step && row[i].velocity > 0
        implies found.contains(row[i]) by {
        row.lemma_filter_contains(sounds_at(step), i);
    }
    row.lemma_filter_len(sounds_at(step));
}

/// Gets the notes of `channel` in `pattern` that start at `step`, in grid order.
pub fn get_notes_for_step(pattern: &Pattern, channel: usize, step: u32) -> (notes: Vec<Note>)
    ensures
        channel >= pattern.grid@.len() ==> notes@ == Seq::<Note>::empty(),
        channel < pattern.grid@.len() ==> notes@ == pattern.grid@[channel as int]@.filter(
            sounds_at(step),
        ),
        forall|i: int|
            0 <= i < notes@.len() ==> (#[trigger] notes@[i]).start == step && notes@[i].velocity
                > 0,
        ({
            let row = pattern.grid@[channel as int]@;
            channel < pattern.grid@.len() ==> forall|i: int|
                0 <= i < row.len() && (#[trigger] row[i]).start == step && row[i].velocity > 0
                    ==> notes@.contains(row[i])
        }),
{
    let mut notes: Vec<Note> = Vec::new();
    if channel >= pattern.grid.len() {
        return notes;
    }
    let channel_grid = &pattern.grid[channel];
    let n = channel_grid.len();
    let mut i: usize = 0;
    while i < n
        invariant
            n == channel_grid@.len(),
            i <= n,
            notes@ == channel_grid@.take(i as int).filter(sounds_at(step)),
        decreases n - i,
    {
        let note = channel_grid[i];
        proof {
            reveal(Seq::filter);
            assert(channel_grid@.take(i + 1).drop_last() =~= channel_grid@.take(i as int));
        }
        if note.start as u32 == step && note.velocity > 0 {
            notes.push(note);
        }
        i = i + 1;
    }
    proof {
        assert(channel_grid@.take(n as int) =~= channel_grid@);
        lemma_notes_for_step(channel_grid@, step);
    }
    notes
}

} // verus!
