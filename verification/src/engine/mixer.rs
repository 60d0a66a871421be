//! Channel layout and audibility rules of the multi-channel mixer.

use vstd::prelude::*;

use crate::plugin::chip_synth::Waveform;
use crate::project::ChannelType;

verus! {

/// Maximum number of channels supported.
pub const MAX_CHANNELS: usize = 4;

/// The name under which a channel type is written.
pub open spec fn channel_type_name(channel_type: ChannelType) -> Seq<char> {
    match channel_type {
        ChannelType::Pitch => "pitch"@,
        ChannelType::Noise => "noise"@,
    }
}

impl ChannelType {
    /// The channel type's name.
    pub fn as_str(&self) -> (name: &str)
        ensures
            name@ == channel_type_name(*self),
    {
        match self {
            ChannelType::Pitch => "pitch",
            ChannelType::Noise => "noise",
        }
    }
}

/// The type of mixer channel `index`: the fourth channel is the noise
/// channel, all others play pitches.
pub open spec fn channel_type_at(index: int) -> ChannelType {
    if index == 3 {
        ChannelType::Noise
    } else {
        ChannelType::Pitch
    }
}

/// The channel types of a mixer asked for `num_channels` channels: at most
/// `MAX_CHANNELS` of them, the fourth being the noise channel.
pub fn channel_layout(num_channels: usize) -> (layout: Vec<ChannelType>)
    ensures
        layout@.len() == if num_channels < MAX_CHANNELS {
            num_channels
        } else {
            MAX_CHANNELS
        },
        forall|i: int| 0 <= i < layout@.len() ==> layout@[i] == channel_type_at(i),
{
    let count = if num_channels < MAX_CHANNELS {
        num_channels
    } else {
        MAX_CHANNELS
    };
    let mut layout: Vec<ChannelType> = Vec::new();
    let mut i: usize = 0;
    while i < count
        invariant
            count <= MAX_CHANNELS,
            i <= count,
            layout@.len() == i,
            forall|j: int| 0 <= j < i ==> layout@[j] == channel_type_at(j),
        decreases count - i,
    {
        let channel_type = if i == 3 {
            ChannelType::Noise
        } else {
            ChannelType::Pitch
        };
        layout.push(channel_type);
        i = i + 1;
    }
    layout
}

/// The waveform a channel's synth starts with: square for pitch channels,
/// noise for the noise channel.
pub fn channel_waveform(channel_type: ChannelType) -> (waveform: Waveform)
    ensures
        waveform == (match channel_type {
            ChannelType::Pitch => Waveform::Square,
            ChannelType::Noise => Waveform::Noise,
        }),
{
    match channel_type {
        ChannelType::Pitch => Waveform::Square,
        ChannelType::Noise => Waveform::Noise,
    }
}

/// The name of a channel's synth: `Channel_` followed by the channel type's name.
pub fn channel_synth_name(channel_type: ChannelType) -> (name: String)
    ensures
        name@ == "Channel_"@ + channel_type_name(channel_type),
{
    let prefix = "Channel_".to_owned();
    prefix.concat(channel_type.as_str())
}

/// Whether a channel is heard: a muted channel never is, and while any
/// channel is soloed only soloed channels are.
pub fn channel_is_active(mute: bool, solo: bool, any_solo: bool) -> (active: bool)
    ensures
        active == (!mute && (!any_solo || solo)),
{
    if mute {
        return false;
    }
    if any_solo && !solo {
        return false;
    }
    true
}

} // verus!
