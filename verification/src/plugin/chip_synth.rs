//! Waveforms of the chip synthesizer.

use vstd::prelude::*;

verus! {

/// Waveform type.
#[derive(Clone, Copy, Debug, PartialEq, Eq, Structural)]
pub enum Waveform {
    Square,
    Sawtooth,
    Pulse25,
    Noise,
}

impl Default for Waveform {
    fn default() -> (waveform: Self)
        ensures
            waveform == Waveform::Square,
    {
        Waveform::Square
    }
}

/// The waveform that a parameter index selects: 0, 1 and 2 select square,
/// sawtooth and 25% pulse; every other index selects square.
pub open spec fn waveform_of_index(index: i32) -> Waveform {
    if index == 1 {
        Waveform::Sawtooth
    } else if index == 2 {
        Waveform::Pulse25
    } else {
        Waveform::Square
    }
}

/// The parameter index of a waveform.
pub open spec fn index_of_waveform(waveform: Waveform) -> i32 {
    match waveform {
        Waveform::Square => 0,
        Waveform::Sawtooth => 1,
        Waveform::Pulse25 => 2,
        Waveform::Noise => 3,
    }
}

impl Waveform {
    /// The waveform selected by a parameter index.
    pub fn from_index(index: i32) -> (waveform: Self)
        ensures
            waveform == waveform_of_index(index),
    {
        match index {
            0 => Waveform::Square,
            1 => Waveform::Sawtooth,
            2 => Waveform::Pulse25,
            _ => Waveform::Square,
        }
    }

    /// The parameter index of this waveform.
    pub fn to_index(&self) -> (index: i32)
        ensures
            index == index_of_waveform(*self),
    {
        match self {
            Waveform::Square => 0,
            Waveform::Sawtooth => 1,
            Waveform::Pulse25 => 2,
            Waveform::Noise => 3,
        }
    }
}

/// The noise generator's value for a voice that has sounded for
/// `age_samples` samples: a linear congruential step on the age, in 64-bit
/// wrapping arithmetic, kept below 32768.
pub open spec fn spec_noise_seed(age_samples: u64) -> u64 {
    (((age_samples * 1103515245 + 12345) % 0x1_0000_0000_0000_0000) % 32768) as u64
}

/// Computes the noise generator's value for a voice of age `age_samples`.
pub fn noise_seed(age_samples: u64) -> (seed: u64)
    ensures
        seed == spec_noise_seed(age_samples),
        seed < 32768,
{
    let product = age_samples.wrapping_mul(1103515245);
    let sum = product.wrapping_add(12345);
    proof {
        let m: int = 0x1_0000_0000_0000_0000;
        let exact: int = age_samples * 1103515245;
        assert(product == exact % m);
        vstd::arithmetic::div_mod::lemma_small_mod(12345, m as nat);
        vstd::arithmetic::div_mod::lemma_add_mod_noop(exact, 12345, m);
        vstd::arithmetic::div_mod::lemma_mod_pos_bound(product + 12345, m);
        if product + 12345 >= m {
            vstd::arithmetic::div_mod::lemma_fundamental_div_mod_converse(
                product + 12345,
                m,
                1,
                product + 12345 - m,
            );
        } else {
            vstd::arithmetic::div_mod::lemma_small_mod((product + 12345) as nat, m as nat);
        }
        assert(sum == (exact + 12345) % m);
    }
    sum % 32768
}

/// A waveform's index selects the same waveform again, for every waveform
/// but noise (whose index 3 selects square).
pub proof fn lemma_waveform_index_roundtrip(waveform: Waveform)
    requires
        waveform != Waveform::Noise,
    ensures
        waveform_of_index(index_of_waveform(waveform)) == waveform,
{
}

/// The indices 0, 1 and 2 are the indices of the waveforms they select.
pub proof fn lemma_index_waveform_roundtrip(index: i32)
    requires
        0 <= index <= 2,
    ensures
        index_of_waveform(waveform_of_index(index)) == index,
{
}

} // verus!
