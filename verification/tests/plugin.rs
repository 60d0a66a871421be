use gridforge::engine::mixer::{channel_is_active, channel_layout, channel_synth_name, channel_waveform, MAX_CHANNELS};
use gridforge::plugin::chip_synth::noise_seed;
use gridforge::plugin::{ParamId, SourceCategory, SourceIndex, Waveform};
use gridforge::project::ChannelType;

#[test]
fn test_waveform_index() {
    assert_eq!(Waveform::Square.to_index(), 0);
    assert_eq!(Waveform::Sawtooth.to_index(), 1);
    assert_eq!(Waveform::from_index(0), Waveform::Square);
    assert_eq!(Waveform::from_index(1), Waveform::Sawtooth);
}

#[test]
fn waveform_indices_round_trip() {
    for waveform in [Waveform::Square, Waveform::Sawtooth, Waveform::Pulse25] {
        assert_eq!(Waveform::from_index(waveform.to_index()), waveform);
    }
    for index in 0..3 {
        assert_eq!(Waveform::from_index(index).to_index(), index);
    }
    assert_eq!(Waveform::Pulse25.to_index(), 2);
    assert_eq!(Waveform::Noise.to_index(), 3);
    // Index 3 and unknown indices select square.
    assert_eq!(Waveform::from_index(3), Waveform::Square);
    assert_eq!(Waveform::from_index(-1), Waveform::Square);
    assert_eq!(Waveform::from_index(99), Waveform::Square);
    assert_eq!(Waveform::default(), Waveform::Square);
}

#[test]
fn source_category_names() {
    assert_eq!(SourceCategory::Synth.as_str(), "synth");
    assert_eq!(SourceCategory::Sampler.as_str(), "sampler");
    assert_eq!(SourceCategory::Effect.as_str(), "effect");
    assert_eq!(SourceCategory::Drum.as_str(), "drum");
    assert_eq!(SourceCategory::Other.as_str(), "other");
}

#[test]
fn source_category_names_round_trip() {
    for category in [
        SourceCategory::Synth,
        SourceCategory::Sampler,
        SourceCategory::Effect,
        SourceCategory::Drum,
        SourceCategory::Other,
    ] {
        assert_eq!(SourceCategory::from_str(category.as_str()), category);
    }
}

#[test]
fn unknown_source_category_is_other() {
    assert_eq!(SourceCategory::from_str("synthesizer"), SourceCategory::Other);
    assert_eq!(SourceCategory::from_str("Synth"), SourceCategory::Other);
    assert_eq!(SourceCategory::from_str(""), SourceCategory::Other);
    assert_eq!(SourceCategory::from_str("drum"), SourceCategory::Drum);
}

#[test]
fn param_id_holds_its_text() {
    let id = ParamId::new("pulse_width");
    assert_eq!(id.0, "pulse_width");
    assert_eq!(id, ParamId("pulse_width".to_string()));
}

#[test]
fn test_channel_type_str() {
    assert_eq!(ChannelType::Pitch.as_str(), "pitch");
    assert_eq!(ChannelType::Noise.as_str(), "noise");
}

#[test]
fn mixer_layout_has_one_noise_channel() {
    let layout = channel_layout(4);
    assert_eq!(
        layout,
        vec![ChannelType::Pitch, ChannelType::Pitch, ChannelType::Pitch, ChannelType::Noise]
    );
    assert_eq!(channel_layout(2), vec![ChannelType::Pitch, ChannelType::Pitch]);
    assert_eq!(channel_layout(9).len(), MAX_CHANNELS);
    assert!(channel_layout(0).is_empty());
}

#[test]
fn channel_waveforms_and_names() {
    assert_eq!(channel_waveform(ChannelType::Pitch), Waveform::Square);
    assert_eq!(channel_waveform(ChannelType::Noise), Waveform::Noise);
    assert_eq!(channel_synth_name(ChannelType::Pitch), "Channel_pitch");
    assert_eq!(channel_synth_name(ChannelType::Noise), "Channel_noise");
}

#[test]
fn mute_and_solo_decide_who_is_heard() {
    // A muted channel is never heard.
    assert!(!channel_is_active(true, false, false));
    assert!(!channel_is_active(true, true, true));
    // Without any solo, every unmuted channel is heard.
    assert!(channel_is_active(false, false, false));
    // With a solo, only soloed channels are heard.
    assert!(channel_is_active(false, true, true));
    assert!(!channel_is_active(false, false, true));
}

#[test]
fn noise_seed_follows_the_wrapping_generator() {
    assert_eq!(noise_seed(0), 12345);
    assert_eq!(noise_seed(1), (1103515245u64 + 12345) % 32768);
    let age = u64::MAX - 7;
    assert_eq!(noise_seed(age), age.wrapping_mul(1103515245).wrapping_add(12345) % 32768);
    for age in [2u64, 1000, 48000, 1 << 40] {
        assert!(noise_seed(age) < 32768);
    }
}

#[test]
fn source_index_finds_each_id_once() {
    let mut index = SourceIndex::new();
    assert_eq!(index.len(), 0);
    assert_eq!(index.find("chip_synth"), None);
    assert_eq!(index.insert("chip_synth"), 0);
    assert_eq!(index.insert("fm"), 1);
    // Registering again keeps the id's place.
    assert_eq!(index.insert("chip_synth"), 0);
    assert_eq!(index.len(), 2);
    assert_eq!(index.find("fm"), Some(1));
    assert!(index.contains("chip_synth"));
    assert!(!index.contains("nonexistent"));
}
