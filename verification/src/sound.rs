//! Tone synthesis shim: packs a sound description into the four 32-bit
//! argument words of the host's `tone(frequency, duration, volume, flags)`
//! import. Synthesis itself is the host's work; only the encoding is here.

use vstd::prelude::*;
use crate::host::HostCall;

verus! {

/// The duty cycle of a pulse channel.
#[derive(Clone, Copy, PartialEq, Eq, Structural, Debug)]
pub enum DutyCycle {
    Eighth,
    Quarter,
    Half,
    ThreeQuarters,
}

/// The 2-bit code a duty cycle is encoded as.
pub open spec fn spec_duty_value(dc: DutyCycle) -> u32 {
    match dc {
        DutyCycle::Eighth => 0,
        DutyCycle::Quarter => 1,
        DutyCycle::Half => 2,
        DutyCycle::ThreeQuarters => 3,
    }
}

/// The channel a tone plays on.
#[derive(Clone, Copy, PartialEq, Eq, Structural, Debug)]
pub enum Channel {
    Pulse1(DutyCycle),
    Pulse2(DutyCycle),
    Triangle,
    Noise,
}

/// The flags word a channel selection encodes to: `(duty << 2) | bit` for
/// the pulse channels, fixed codes 2 and 3 for triangle and noise.
pub open spec fn spec_channel_flags(c: Channel) -> u32 {
    match c {
        Channel::Pulse1(dc) => spec_duty_value(dc) << 2,
        Channel::Pulse2(dc) => (spec_duty_value(dc) << 2) | 1,
        Channel::Triangle => 2,
        Channel::Noise => 3,
    }
}

impl Channel {
    /// Encode the channel selection and duty cycle as the tone flags word.
    fn to_num(self) -> (n: u32)
        ensures
            n == spec_channel_flags(self),
    {
        match self {
            Channel::Pulse1(dc) => duty_value(dc) << 2,
            Channel::Pulse2(dc) => (duty_value(dc) << 2) | 1,
            Channel::Triangle => 2,
            Channel::Noise => 3,
        }
    }
}

/// The 2-bit code of a duty cycle.
fn duty_value(dc: DutyCycle) -> (v: u32)
    ensures
        v == spec_duty_value(dc),
{
    match dc {
        DutyCycle::Eighth => 0,
        DutyCycle::Quarter => 1,
        DutyCycle::Half => 2,
        DutyCycle::ThreeQuarters => 3,
    }
}

/// A tone description: a frequency slide, a four-phase envelope, two
/// volume levels and the channel to play on.
#[derive(Clone, Copy, PartialEq, Eq, Structural, Debug)]
pub struct Sound {
    pub start_freq: u16,
    pub end_freq: u16,
    pub attack: u8,
    pub decay: u8,
    pub sustain: u8,
    pub release: u8,
    pub peak_vol: u8,
    pub sustain_vol: u8,
    pub channel: Channel,
}

/// The frequency word: start frequency in the low half, end frequency in
/// the high half.
pub open spec fn spec_frequency_word(start_freq: u16, end_freq: u16) -> u32 {
    (start_freq as u32) | ((end_freq as u32) << 16)
}

/// The duration word's little-endian bytes are, in order:
/// sustain, release, decay, attack.
pub open spec fn spec_duration_word(attack: u8, decay: u8, sustain: u8, release: u8) -> u32 {
    (sustain as u32) | ((release as u32) << 8) | ((decay as u32) << 16) | ((attack as u32) << 24)
}

/// The volume word's little-endian bytes are, in order:
/// sustain volume, peak volume, 0, 0.
pub open spec fn spec_volume_word(peak_vol: u8, sustain_vol: u8) -> u32 {
    (sustain_vol as u32) | ((peak_vol as u32) << 8)
}

/// The audio-trigger handle: a zero-sized stand-in at its place in the
/// memory map, through which tones are played.
pub struct SoundSystem {
    pub _a: (),
}

impl SoundSystem {
    /// Encode a tone for the host's `tone` import. Every argument word is
    /// pinned down: the frequency slide, the envelope duration word, the
    /// volume word and the channel flags.
    pub fn play(&self, sound: Sound) -> (call: HostCall)
        ensures
            call matches HostCall::Tone { frequency, duration, volume, flags }
                && frequency == spec_frequency_word(sound.start_freq, sound.end_freq)
                && duration == spec_duration_word(
                sound.attack,
                sound.decay,
                sound.sustain,
                sound.release,
            ) && volume == spec_volume_word(sound.peak_vol, sound.sustain_vol) && flags
                == spec_channel_flags(sound.channel),
    {
        let frequency = (sound.start_freq as u32) | ((sound.end_freq as u32) << 16);
        let duration = (sound.sustain as u32) | ((sound.release as u32) << 8) | ((sound.decay
            as u32) << 16) | ((sound.attack as u32) << 24);
        let volume = (sound.sustain_vol as u32) | ((sound.peak_vol as u32) << 8);
        let flags = sound.channel.to_num();
        HostCall::Tone { frequency, duration, volume, flags }
    }
}

} // verus!
